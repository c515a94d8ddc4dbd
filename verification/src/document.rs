//! An open document: the sheet being edited, what the editor shows of it,
//! the interactions under way, and the undo history.

use vstd::prelude::*;
use crate::command::DocumentCommand;
use crate::error::StateError;
use crate::paths::{path_pop, spec_path_pop};
use crate::sheet::{
    AnimationModel, ExportSettings, ExportSettingsModel, Sheet, SheetError, SheetModel,
    absolute_sheet, export_settings_model, relative_sheet, sheet_can_relativize, total_duration,
};
use crate::transient::{Transient, TransientModel, idle_transient};
use crate::view::{DocumentView, DocumentViewModel, WorkbenchItemModel, default_view_model};

verus! {

/// Where closing a document stands: the user was asked whether to save it
/// first, it is being saved before it closes, or it may close.
#[derive(Clone, Copy, Debug, PartialEq, Eq, Structural)]
pub enum CloseState {
    Requested,
    Saving,
    Allowed,
}

/// State that is neither recorded in the undo history nor an interaction.
#[derive(Debug)]
pub struct Persistent {
    /// The export settings being edited, while the export dialog is open.
    pub export_settings_edit: Option<ExportSettings>,
    pub timeline_is_playing: bool,
    /// The version of the document that was last saved.
    pub disk_version: i32,
    /// Where closing the document stands, once it was asked to close.
    pub close_state: Option<CloseState>,
}

pub struct PersistentModel {
    pub export_settings_edit: Option<ExportSettingsModel>,
    pub timeline_is_playing: bool,
    pub disk_version: i32,
    pub close_state: Option<CloseState>,
}

impl View for Persistent {
    type V = PersistentModel;

    open spec fn view(&self) -> PersistentModel {
        PersistentModel {
            export_settings_edit: export_settings_model(self.export_settings_edit),
            timeline_is_playing: self.timeline_is_playing,
            disk_version: self.disk_version,
            close_state: self.close_state,
        }
    }
}

/// A step of the undo history: the sheet and view after a command, the
/// command, and the document's version.
#[derive(Debug)]
pub struct HistoryEntry {
    pub last_command: Option<DocumentCommand>,
    pub sheet: Sheet,
    pub view: DocumentView,
    pub version: i32,
}

pub struct HistoryEntryModel {
    pub last_command: Option<DocumentCommand>,
    pub sheet: SheetModel,
    pub view: DocumentViewModel,
    pub version: i32,
}

impl View for HistoryEntry {
    type V = HistoryEntryModel;

    open spec fn view(&self) -> HistoryEntryModel {
        HistoryEntryModel {
            last_command: self.last_command,
            sheet: self.sheet@,
            view: self.view@,
            version: self.version,
        }
    }
}

/// What commands change: the sheet, the view, the interactions under way and
/// the persistent state.
pub struct EditState {
    pub sheet: SheetModel,
    pub view: DocumentViewModel,
    pub transient: TransientModel,
    pub persistent: PersistentModel,
}

/// An open document.
#[derive(Debug)]
pub struct Document {
    /// Where the document is saved.
    pub source: String,
    pub sheet: Sheet,
    pub view: DocumentView,
    pub transient: Transient,
    pub persistent: Persistent,
    /// The version that the next change to the sheet gets.
    pub next_version: i32,
    /// The undo history, from the oldest entry.
    pub history: Vec<HistoryEntry>,
    /// The position of the current entry in the undo history.
    pub history_index: usize,
}

pub struct DocumentModel {
    pub source: Seq<char>,
    pub state: EditState,
    pub next_version: i32,
    pub history: Seq<HistoryEntryModel>,
    pub history_index: int,
}

impl View for Document {
    type V = DocumentModel;

    open spec fn view(&self) -> DocumentModel {
        DocumentModel {
            source: self.source@,
            state: EditState {
                sheet: self.sheet@,
                view: self.view@,
                transient: self.transient@,
                persistent: self.persistent@,
            },
            next_version: self.next_version,
            history: self.history@.map_values(|e: HistoryEntry| e@),
            history_index: self.history_index as int,
        }
    }
}

impl DocumentModel {
    /// The history is never empty, and its index names one of its entries.
    pub open spec fn wf(self) -> bool {
        &&& 0 <= self.history_index < self.history.len()
        &&& self.history.len() <= MAX_UNDO_HISTORY
        &&& forall|i: int| 0 <= i < self.history.len() ==> #[trigger] self.history[i].version <= self.next_version
    }

    /// The history entry that the document is at.
    pub open spec fn current_entry(self) -> HistoryEntryModel {
        self.history[self.history_index]
    }

    /// The version of the document: that of its current history entry.
    pub open spec fn version(self) -> i32 {
        self.current_entry().version
    }

    /// Whether the version last saved is the current one.
    pub open spec fn is_saved(self) -> bool {
        self.state.persistent.disk_version == self.version()
    }

    /// Whether undo and redo are allowed: no interaction is under way.
    pub open spec fn can_use_undo_system(self) -> bool {
        self.state.transient == idle_transient()
    }
}

/// The most entries that the undo history keeps.
pub const MAX_UNDO_HISTORY: usize = 100;

/// The state of a fresh document.
pub open spec fn fresh_state() -> EditState {
    EditState {
        sheet: SheetModel {
            frames: Seq::empty(),
            animations: Seq::empty(),
            export_settings: None,
        },
        view: default_view_model(),
        transient: idle_transient(),
        persistent: PersistentModel {
            export_settings_edit: None,
            timeline_is_playing: false,
            disk_version: 0,
            close_state: None,
        },
    }
}

/// A history made of one entry: the fresh state at version 0.
pub open spec fn fresh_history() -> Seq<HistoryEntryModel> {
    seq![
        HistoryEntryModel {
            last_command: None,
            sheet: fresh_state().sheet,
            view: fresh_state().view,
            version: 0,
        },
    ]
}

/// The history after recording a new entry: what came after the current
/// entry is dropped, the new entry becomes the current one, and where that
/// makes more than `MAX_UNDO_HISTORY` entries the oldest ones are dropped.
pub open spec fn pushed(history: Seq<HistoryEntryModel>, index: int, entry: HistoryEntryModel) -> Seq<
    HistoryEntryModel,
> {
    let grown = history.take(index + 1).push(entry);
    if grown.len() > MAX_UNDO_HISTORY {
        grown.skip(grown.len() - MAX_UNDO_HISTORY)
    } else {
        grown
    }
}

/// The position of the new entry in the history after recording it at
/// `index`: the one after `index`, or the last one where the oldest entry
/// had to be dropped.
pub open spec fn pushed_index(index: int) -> int {
    if index + 1 < MAX_UNDO_HISTORY {
        index + 1
    } else {
        MAX_UNDO_HISTORY - 1
    }
}

/// What recording a command does to a document whose state the command has
/// already changed: nothing while an interaction is under way; otherwise a
/// change to the sheet pushes a new entry with a new version, and a change to
/// the view alone updates the current entry in place when the entry before it
/// has the same sheet, and pushes a new entry (same version) when not.
pub open spec fn recorded(d: DocumentModel, command: DocumentCommand) -> DocumentModel {
    if !d.can_use_undo_system() {
        d
    } else {
        let current = d.current_entry();
        let has_sheet_changes = current.sheet != d.state.sheet;
        let next_version = if has_sheet_changes {
            (d.next_version + 1) as i32
        } else {
            d.next_version
        };
        let entry = HistoryEntryModel {
            last_command: Some(command),
            sheet: d.state.sheet,
            view: d.state.view,
            version: next_version,
        };
        if has_sheet_changes {
            DocumentModel {
                next_version,
                history: pushed(d.history, d.history_index, entry),
                history_index: pushed_index(d.history_index),
                ..d
            }
        } else if current.view != d.state.view {
            let merge = d.history_index > 0 && d.history[d.history_index - 1].sheet == current.sheet;
            if merge {
                DocumentModel {
                    history: d.history.update(
                        d.history_index,
                        HistoryEntryModel { view: d.state.view, ..current },
                    ),
                    ..d
                }
            } else {
                DocumentModel {
                    history: pushed(d.history, d.history_index, entry),
                    history_index: pushed_index(d.history_index),
                    ..d
                }
            }
        } else {
            d
        }
    }
}

/// The document after moving to the history entry at `index`: its sheet and
/// view come back, and playback stops.
pub open spec fn moved_to(d: DocumentModel, index: int) -> DocumentModel {
    DocumentModel {
        state: EditState {
            sheet: d.history[index].sheet,
            view: d.history[index].view,
            persistent: PersistentModel { timeline_is_playing: false, ..d.state.persistent },
            ..d.state
        },
        history_index: index,
        ..d
    }
}

/// What undo does: refused while an interaction is under way; steps back one
/// entry unless at the first.
pub open spec fn undone(d: DocumentModel) -> Result<DocumentModel, StateError> {
    if !d.can_use_undo_system() {
        Err(StateError::UndoOperationNowAllowed)
    } else if d.history_index > 0 {
        Ok(moved_to(d, d.history_index - 1))
    } else {
        Ok(d)
    }
}

/// What redo does: refused while an interaction is under way; steps forward
/// one entry unless at the last.
pub open spec fn redone(d: DocumentModel) -> Result<DocumentModel, StateError> {
    if !d.can_use_undo_system() {
        Err(StateError::UndoOperationNowAllowed)
    } else if d.history_index < d.history.len() - 1 {
        Ok(moved_to(d, d.history_index + 1))
    } else {
        Ok(d)
    }
}

/// The animation that the workbench shows.
pub open spec fn workbench_animation(s: EditState) -> Result<AnimationModel, StateError> {
    match s.view.workbench_item {
        Some(WorkbenchItemModel::Animation(n)) => if s.sheet.has_animation(n) {
            Ok(s.sheet.animations[s.sheet.animation_index(n)])
        } else {
            Err(StateError::AnimationNotInDocument)
        },
        _ => Err(StateError::NotEditingAnyAnimation),
    }
}

/// Milliseconds in a time given in nanoseconds, rounded down.
pub open spec fn millis(ns: int) -> int {
    ns / 1_000_000
}

/// What the passing of `delta` nanoseconds does while the timeline plays:
/// the clock advances; playing a looping animation, it wraps around the
/// animation's duration; past the end of a non-looping one, it stops there
/// and playback stops; an animation without duration stops playback at 0.
#[verifier::opaque]
pub open spec fn ticked(s: EditState, delta: int) -> EditState {
    if !s.persistent.timeline_is_playing {
        s
    } else {
        let clock = s.view.timeline_clock + delta;
        let advanced = EditState {
            view: DocumentViewModel { timeline_clock: clock as u128, ..s.view },
            ..s
        };
        match s.view.workbench_item {
            Some(WorkbenchItemModel::Animation(n)) => if s.sheet.has_animation(n) {
                let a = s.sheet.animations[s.sheet.animation_index(n)];
                let d = total_duration(a.timeline);
                if a.timeline.len() > 0 && d > 0 {
                    if a.is_looping {
                        EditState {
                            view: DocumentViewModel {
                                timeline_clock: ((millis(clock) % d) * 1_000_000) as u128,
                                ..s.view
                            },
                            ..s
                        }
                    } else if millis(clock) >= d {
                        EditState {
                            view: DocumentViewModel {
                                timeline_clock: (d * 1_000_000) as u128,
                                ..s.view
                            },
                            persistent: PersistentModel { timeline_is_playing: false, ..s.persistent },
                            ..s
                        }
                    } else {
                        advanced
                    }
                } else {
                    EditState {
                        view: DocumentViewModel { timeline_clock: 0, ..s.view },
                        persistent: PersistentModel { timeline_is_playing: false, ..s.persistent },
                        ..s
                    }
                }
            } else {
                advanced
            },
            _ => advanced,
        }
    }
}

impl Clone for Persistent {
    fn clone(&self) -> (r: Self)
        ensures
            r@ == self@,
    {
        Persistent {
            export_settings_edit: match &self.export_settings_edit {
                Some(e) => Some(e.clone()),
                None => None,
            },
            timeline_is_playing: self.timeline_is_playing,
            disk_version: self.disk_version,
            close_state: self.close_state,
        }
    }
}

impl Persistent {
    pub fn new() -> (r: Persistent)
        ensures
            r@ == fresh_state().persistent,
    {
        Persistent {
            export_settings_edit: None,
            timeline_is_playing: false,
            disk_version: 0,
            close_state: None,
        }
    }
}

impl Document {
    /// The document's model.
    pub open spec fn model(&self) -> DocumentModel {
        self@
    }

    /// Whether the document's history is well formed.
    pub open spec fn wf(&self) -> bool {
        self@.wf()
    }

    /// A fresh document saved at `path`: an empty sheet, at version 0, which
    /// counts as saved.
    pub fn new(path: &str) -> (r: Document)
        ensures
            r.wf(),
            r@.source == path@,
            r@.state == fresh_state(),
            r@.next_version == 0,
            r@.history == fresh_history(),
            r@.history_index == 0,
    {
        let entry = HistoryEntry {
            last_command: None,
            sheet: Sheet::new(),
            view: DocumentView::new(),
            version: 0,
        };
        let mut history: Vec<HistoryEntry> = Vec::new();
        history.push(entry);
        let r = Document {
            source: path.to_owned(),
            sheet: Sheet::new(),
            view: DocumentView::new(),
            transient: Transient::new(),
            persistent: Persistent::new(),
            next_version: 0,
            history,
            history_index: 0,
        };
        assert(r@.history =~= fresh_history());
        assert(r@.state.sheet =~= fresh_state().sheet);
        r
    }

    /// Whether the version last saved is the current one.
    pub fn is_saved(&self) -> (r: bool)
        requires
            self.wf(),
        ensures
            r == self@.is_saved(),
    {
        self.persistent.disk_version == self.get_version()
    }

    /// The document's version: that of its current history entry.
    pub fn get_version(&self) -> (r: i32)
        requires
            self.wf(),
        ensures
            r == self@.version(),
    {
        self.history[self.history_index].version
    }

    /// Whether undo and redo are allowed: no interaction is under way.
    pub fn can_use_undo_system(&self) -> (r: bool)
        ensures
            r == self@.can_use_undo_system(),
    {
        self.transient.is_idle()
    }

    /// The command that led to the current history entry.
    pub fn get_undo_command(&self) -> (r: Option<&DocumentCommand>)
        requires
            self.wf(),
        ensures
            match self@.current_entry().last_command {
                Some(c) => r == Some(&c),
                None => r is None,
            },
    {
        match &self.history[self.history_index].last_command {
            Some(c) => Some(c),
            None => None,
        }
    }

    /// The command that led to the history entry after the current one.
    pub fn get_redo_command(&self) -> (r: Option<&DocumentCommand>)
        requires
            self.wf(),
        ensures
            self@.history_index < self@.history.len() - 1 ==> match self@.history[self@.history_index
                + 1].last_command {
                Some(c) => r == Some(&c),
                None => r is None,
            },
            self@.history_index == self@.history.len() - 1 ==> r is None,
    {
        if self.history_index < self.history.len() - 1 {
            match &self.history[self.history_index + 1].last_command {
                Some(c) => Some(c),
                None => None,
            }
        } else {
            None
        }
    }

    fn push_undo_state(&mut self, entry: HistoryEntry)
        requires
            old(self).wf(),
            entry.version <= old(self).next_version,
        ensures
            final(self)@ == (DocumentModel {
                history: pushed(old(self)@.history, old(self)@.history_index, entry@),
                history_index: pushed_index(old(self)@.history_index),
                ..old(self)@
            }),
            final(self).wf(),
    {
        let len = self.history.len();
        assert(self.history@.len() == old(self)@.history.len());
        self.history.truncate(self.history_index + 1);
        self.history.push(entry);
        let ghost grown = self@.history;
        assert(grown =~= old(self)@.history.take(old(self)@.history_index + 1).push(entry@));
        if self.history.len() > MAX_UNDO_HISTORY {
            self.history.remove(0);
            assert(self@.history =~= grown.skip(1));
        }
        self.history_index = self.history.len() - 1;
        assert(self@.history =~= pushed(old(self)@.history, old(self)@.history_index, entry@));
    }

    /// Asks to close the document, where closing was not asked already:
    /// the user is to be asked whether to save it first.
    pub fn begin_close(&mut self)
        ensures
            final(self)@ == (DocumentModel {
                state: EditState {
                    persistent: PersistentModel {
                        close_state: match old(self)@.state.persistent.close_state {
                            None => Some(CloseState::Requested),
                            other => other,
                        },
                        ..old(self)@.state.persistent
                    },
                    ..old(self)@.state
                },
                ..old(self)@
            }),
    {
        if self.persistent.close_state.is_none() {
            self.persistent.close_state = Some(CloseState::Requested);
        }
    }

    /// Records `command` in the undo history, the document's state having
    /// already been changed by it.
    pub fn record_command(&mut self, command: DocumentCommand)
        requires
            old(self).wf(),
            old(self).next_version < i32::MAX,
        ensures
            final(self)@ == recorded(old(self)@, command),
            final(self).wf(),
    {
        if !self.can_use_undo_system() {
            return ;
        }
        let has_sheet_changes = !self.history[self.history_index].sheet.same_as(&self.sheet);
        if has_sheet_changes {
            self.next_version = self.next_version + 1;
        }
        let entry = HistoryEntry {
            last_command: Some(command),
            sheet: self.sheet.clone(),
            view: self.view.clone(),
            version: self.next_version,
        };
        if has_sheet_changes {
            self.push_undo_state(entry);
        } else if !self.history[self.history_index].view.same_as(&self.view) {
            let merge = self.history_index > 0 && self.history[self.history_index - 1].sheet.same_as(
                &self.history[self.history_index].sheet,
            );
            if merge {
                let index = self.history_index;
                let current = &mut self.history[index];
                current.view = self.view.clone();
                assert(self@.history =~= old(self)@.history.update(
                    old(self)@.history_index,
                    HistoryEntryModel { view: old(self)@.state.view, ..old(self)@.current_entry() },
                ));
            } else {
                self.push_undo_state(entry);
            }
        }
    }

    /// Steps back one entry in the undo history.
    pub fn undo(&mut self) -> (r: Result<(), StateError>)
        requires
            old(self).wf(),
        ensures
            final(self).wf(),
            match undone(old(self)@) {
                Ok(d) => r is Ok && final(self)@ == d,
                Err(e) => r == Err::<(), StateError>(e) && final(self)@ == old(self)@,
            },
    {
        if !self.can_use_undo_system() {
            return Err(StateError::UndoOperationNowAllowed);
        }
        if self.history_index > 0 {
            self.history_index = self.history_index - 1;
            self.sheet = self.history[self.history_index].sheet.clone();
            self.view = self.history[self.history_index].view.clone();
            self.persistent.timeline_is_playing = false;
        }
        Ok(())
    }

    /// Steps forward one entry in the undo history.
    pub fn redo(&mut self) -> (r: Result<(), StateError>)
        requires
            old(self).wf(),
        ensures
            final(self).wf(),
            match redone(old(self)@) {
                Ok(d) => r is Ok && final(self)@ == d,
                Err(e) => r == Err::<(), StateError>(e) && final(self)@ == old(self)@,
            },
    {
        if !self.can_use_undo_system() {
            return Err(StateError::UndoOperationNowAllowed);
        }
        if self.history_index < self.history.len() - 1 {
            self.history_index = self.history_index + 1;
            self.sheet = self.history[self.history_index].sheet.clone();
            self.view = self.history[self.history_index].view.clone();
            self.persistent.timeline_is_playing = false;
        }
        Ok(())
    }
}


/// The state with only its sheet, view, interactions and persistent state
/// taken from `s`: what every command leaves of a document but those.
pub open spec fn with_state(d: DocumentModel, s: EditState) -> DocumentModel {
    DocumentModel { state: s, ..d }
}

impl Document {
    /// Advances the timeline's clock by `delta` nanoseconds while it plays.
    pub fn tick(&mut self, delta: u128)
        requires
            old(self).view.timeline_clock + delta <= u128::MAX,
            old(self)@.state.sheet.durations_fit(),
        ensures
            final(self)@ == with_state(old(self)@, ticked(old(self)@.state, delta as int)),
    {
        proof {
            reveal(ticked);
        }
        if !self.persistent.timeline_is_playing {
            return ;
        }
        let clock: u128 = self.view.timeline_clock + delta;
        let mut new_clock: u128 = clock;
        let mut stop = false;
        match &self.view.workbench_item {
            Some(crate::view::WorkbenchItem::Animation(name)) => {
                if let Some(i) = self.sheet.animation_position(name.as_str()) {
                    let animation = &self.sheet.animations[i];
                    proof {
                        assert(self@.state.sheet.animations[i as int].duration_fits());
                        crate::sheet::lemma_total_nonnegative(animation@.timeline);
                    }
                    match animation.get_duration() {
                        Some(d) => {
                            if d > 0 {
                                let clock_ms = clock / 1_000_000;
                                if animation.is_looping {
                                    new_clock = (clock_ms % (d as u128)) * 1_000_000;
                                } else if clock_ms >= d as u128 {
                                    stop = true;
                                    new_clock = (d as u128) * 1_000_000;
                                }
                            } else {
                                stop = true;
                                new_clock = 0;
                            }
                        },
                        None => {
                            stop = true;
                            new_clock = 0;
                        },
                    }
                }
            },
            _ => {},
        }
        self.view.timeline_clock = new_clock;
        if stop {
            self.persistent.timeline_is_playing = false;
        }
    }
}

/// The document opened from `path`, whose file held `sheet`: the sheet's
/// paths are made absolute from the directory of `path`, and the document
/// counts as saved.
pub open spec fn opened_document(path: Seq<char>, sheet: SheetModel) -> DocumentModel {
    let absolute = absolute_sheet(sheet, spec_path_pop(path));
    DocumentModel {
        source: path,
        state: EditState { sheet: absolute, ..fresh_state() },
        next_version: 0,
        history: fresh_history().update(
            0,
            HistoryEntryModel { sheet: absolute, ..fresh_history()[0] },
        ),
        history_index: 0,
    }
}

impl Document {
    /// The document saved at `path`, once its file has been read into
    /// `sheet`.
    pub fn open(path: &str, sheet: Sheet) -> (r: Document)
        ensures
            r@ == opened_document(path@, sheet@),
            r.wf(),
            r@.is_saved(),
    {
        let mut document = Document::new(path);
        let directory = path_pop(path);
        document.sheet = sheet.with_absolute_paths(directory.as_str());
        let entry = &mut document.history[0];
        entry.sheet = document.sheet.clone();
        document.persistent.disk_version = document.next_version;
        assert(document@.history =~= fresh_history().update(
            0,
            HistoryEntryModel { sheet: absolute_sheet(sheet@, spec_path_pop(path@)), ..fresh_history()[0] },
        ));
        document
    }

    /// The sheet as it is written to `to`: its paths relative to the
    /// directory of `to`.
    pub fn save(sheet: &Sheet, to: &str) -> (r: Result<Sheet, StateError>)
        ensures
            sheet_can_relativize(sheet@, spec_path_pop(to@)) ==> (r matches Ok(s) && s@
                == relative_sheet(sheet@, spec_path_pop(to@))),
            !sheet_can_relativize(sheet@, spec_path_pop(to@)) ==> r == Err::<Sheet, StateError>(
                StateError::Sheet(SheetError::AbsoluteToRelativePath),
            ),
    {
        let directory = path_pop(to);
        match sheet.with_relative_paths(directory.as_str()) {
            Ok(s) => Ok(s),
            Err(e) => Err(StateError::Sheet(e)),
        }
    }
}

} // verus!
