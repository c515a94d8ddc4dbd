//! The commands that change one document, each stated as a function from
//! the document's state to its next state or an error. A command that fails
//! leaves the document as it was.

use vstd::prelude::*;
use crate::document::{Document, DocumentModel, EditState, PersistentModel, millis, with_state, workbench_animation};
use crate::error::StateError;
use crate::names::{fresh_name, lemma_fresh_name};
use crate::sheet::{
    AnimationModel, SheetError, SheetModel, animation_names, new_animation_model,
    start_time,
};
use crate::transient::{RenameItem, RenameItemModel, TransientModel};
use crate::view::{DocumentViewModel, Selection, SelectionModel, WorkbenchItem, WorkbenchItemModel};

verus! {

/// Whether a command that was to lead from `before` to `expected` did so:
/// on success the document holds the expected state, and on failure it is
/// unchanged and the error is the expected one.
pub open spec fn applied(
    before: DocumentModel,
    after: DocumentModel,
    r: Result<(), StateError>,
    expected: Result<EditState, StateError>,
) -> bool {
    match expected {
        Ok(s) => r is Ok && after == with_state(before, s),
        Err(e) => r == Err::<(), StateError>(e) && after == before,
    }
}

pub open spec fn with_view(s: EditState, v: DocumentViewModel) -> EditState {
    EditState { view: v, ..s }
}

pub open spec fn with_selection(s: EditState, selection: Option<SelectionModel>) -> EditState {
    EditState { view: DocumentViewModel { selection, ..s.view }, ..s }
}

pub open spec fn with_transient(s: EditState, t: TransientModel) -> EditState {
    EditState { transient: t, ..s }
}

pub open spec fn with_sheet(s: EditState, sheet: SheetModel) -> EditState {
    EditState { sheet, ..s }
}

/// The sheet with the animation at `index` replaced.
pub open spec fn with_animation(sheet: SheetModel, index: int, a: AnimationModel) -> SheetModel {
    SheetModel { animations: sheet.animations.update(index, a), ..sheet }
}

/// The name of the animation in the workbench.
pub open spec fn workbench_animation_name(s: EditState) -> Seq<char> {
    match s.view.workbench_item {
        Some(WorkbenchItemModel::Animation(n)) => n,
        _ => Seq::empty(),
    }
}

/// The path of the frame in the workbench, if a frame is there.
pub open spec fn workbench_frame(s: EditState) -> Option<Seq<char>> {
    match s.view.workbench_item {
        Some(WorkbenchItemModel::Frame(p)) => Some(p),
        _ => None,
    }
}

// ---------------------------------------------------------------------------
// Selection
// ---------------------------------------------------------------------------

pub open spec fn after_clear_selection(s: EditState) -> EditState {
    with_selection(s, None)
}

pub open spec fn after_select_frame(s: EditState, path: Seq<char>) -> Result<EditState, StateError> {
    if !s.sheet.has_frame(path) {
        Err(StateError::FrameNotInDocument)
    } else {
        Ok(with_selection(s, Some(SelectionModel::Frame(path))))
    }
}

pub open spec fn after_select_animation(s: EditState, name: Seq<char>) -> Result<EditState, StateError> {
    if !s.sheet.has_animation(name) {
        Err(StateError::AnimationNotInDocument)
    } else {
        Ok(with_selection(s, Some(SelectionModel::Animation(name))))
    }
}

/// Selecting a hitbox of the frame in the workbench.
pub open spec fn after_select_hitbox(s: EditState, name: Seq<char>) -> Result<EditState, StateError> {
    match workbench_frame(s) {
        None => Err(StateError::NotEditingAnyFrame),
        Some(p) => if !s.sheet.has_frame(p) {
            Err(StateError::FrameNotInDocument)
        } else if !s.sheet.frames[s.sheet.frame_index(p)].has_hitbox(name) {
            Err(StateError::InvalidHitboxIndex)
        } else {
            Ok(with_selection(s, Some(SelectionModel::Hitbox(p, name))))
        },
    }
}

/// Selecting a frame of the animation in the workbench. Unless the timeline
/// plays, the playhead moves to the frame's start where it is not already
/// over the frame (the last frame extends past the end).
pub open spec fn after_select_animation_frame(s: EditState, index: int) -> Result<EditState, StateError> {
    match workbench_animation(s) {
        Err(e) => Err(e),
        Ok(a) => if index >= a.timeline.len() {
            Err(StateError::InvalidAnimationFrameIndex)
        } else {
            let start = start_time(a.timeline, index);
            let duration = a.timeline[index].duration;
            let clock = millis(s.view.timeline_clock as int);
            let in_frame = clock >= start && (clock < start + duration || index == a.timeline.len()
                - 1);
            let v = DocumentViewModel {
                selection: Some(SelectionModel::AnimationFrame(a.name, index as usize)),
                ..s.view
            };
            if !s.persistent.timeline_is_playing && !in_frame {
                Ok(with_view(s, DocumentViewModel { timeline_clock: (start * 1_000_000) as u128, ..v }))
            } else {
                Ok(with_view(s, v))
            }
        },
    }
}

// ---------------------------------------------------------------------------
// Workbench
// ---------------------------------------------------------------------------

pub open spec fn after_edit_frame(s: EditState, path: Seq<char>) -> Result<EditState, StateError> {
    if !s.sheet.has_frame(path) {
        Err(StateError::FrameNotInDocument)
    } else {
        Ok(
            with_view(
                s,
                DocumentViewModel {
                    workbench_item: Some(WorkbenchItemModel::Frame(path)),
                    workbench_offset: (0, 0),
                    ..s.view
                },
            ),
        )
    }
}

/// Editing an animation: the playhead goes back to the start and playback
/// stops.
pub open spec fn after_edit_animation(s: EditState, name: Seq<char>) -> Result<EditState, StateError> {
    if !s.sheet.has_animation(name) {
        Err(StateError::AnimationNotInDocument)
    } else {
        Ok(
            EditState {
                view: DocumentViewModel {
                    workbench_item: Some(WorkbenchItemModel::Animation(name)),
                    workbench_offset: (0, 0),
                    timeline_clock: 0,
                    ..s.view
                },
                persistent: PersistentModel { timeline_is_playing: false, ..s.persistent },
                ..s
            },
        )
    }
}

// ---------------------------------------------------------------------------
// Renaming and dragging content
// ---------------------------------------------------------------------------

pub open spec fn after_begin_animation_rename(s: EditState, name: Seq<char>) -> Result<
    EditState,
    StateError,
> {
    if !s.sheet.has_animation(name) {
        Err(StateError::AnimationNotInDocument)
    } else {
        Ok(
            with_transient(
                s,
                TransientModel {
                    item_being_renamed: Some(RenameItemModel::Animation(name)),
                    rename_buffer: Some(name),
                    ..s.transient
                },
            ),
        )
    }
}

pub open spec fn after_begin_hitbox_rename(s: EditState, path: Seq<char>, name: Seq<char>) -> Result<
    EditState,
    StateError,
> {
    if !s.sheet.has_frame(path) {
        Err(StateError::FrameNotInDocument)
    } else if !s.sheet.frames[s.sheet.frame_index(path)].has_hitbox(name) {
        Err(StateError::HitboxNotInFrame)
    } else {
        Ok(
            with_transient(
                s,
                TransientModel {
                    item_being_renamed: Some(RenameItemModel::Hitbox(path, name)),
                    rename_buffer: Some(name),
                    ..s.transient
                },
            ),
        )
    }
}

pub open spec fn after_begin_frame_drag(s: EditState, path: Seq<char>) -> EditState {
    with_transient(s, TransientModel { content_frame_being_dragged: Some(path), ..s.transient })
}

/// Creating an animation: it gets a fresh name, becomes the selection and
/// the workbench's item, and its name is being edited.
pub open spec fn after_create_animation(s: EditState) -> EditState {
    let name = fresh_name(animation_names(s.sheet.animations), "New Animation"@);
    EditState {
        sheet: SheetModel {
            animations: s.sheet.animations.push(new_animation_model(name)),
            ..s.sheet
        },
        view: DocumentViewModel {
            selection: Some(SelectionModel::Animation(name)),
            workbench_item: Some(WorkbenchItemModel::Animation(name)),
            workbench_offset: (0, 0),
            timeline_clock: 0,
            ..s.view
        },
        transient: TransientModel {
            item_being_renamed: Some(RenameItemModel::Animation(name)),
            rename_buffer: Some(name),
            ..s.transient
        },
        persistent: PersistentModel { timeline_is_playing: false, ..s.persistent },
    }
}

impl Document {
    pub fn clear_selection(&mut self)
        ensures
            final(self)@ == with_state(old(self)@, after_clear_selection(old(self)@.state)),
    {
        self.view.selection = None;
    }

    pub fn select_frame(&mut self, path: &str) -> (r: Result<(), StateError>)
        ensures
            applied(old(self)@, final(self)@, r, after_select_frame(old(self)@.state, path@)),
    {
        if !self.sheet.has_frame(path) {
            return Err(StateError::FrameNotInDocument);
        }
        self.view.selection = Some(Selection::Frame(path.to_owned()));
        Ok(())
    }

    pub fn select_animation(&mut self, name: &str) -> (r: Result<(), StateError>)
        ensures
            applied(old(self)@, final(self)@, r, after_select_animation(old(self)@.state, name@)),
    {
        if !self.sheet.has_animation(name) {
            return Err(StateError::AnimationNotInDocument);
        }
        self.view.selection = Some(Selection::Animation(name.to_owned()));
        Ok(())
    }

    /// The path of the frame in the workbench, if a frame is there.
    pub fn workbench_frame_path(&self) -> (r: Option<String>)
        ensures
            match workbench_frame(self@.state) {
                Some(p) => r matches Some(q) && q@ == p,
                None => r is None,
            },
    {
        match &self.view.workbench_item {
            Some(WorkbenchItem::Frame(p)) => Some(p.clone()),
            _ => None,
        }
    }

    /// The name of the animation in the workbench, if an animation is there.
    pub fn workbench_animation_name(&self) -> (r: Option<String>)
        ensures
            match self@.state.view.workbench_item {
                Some(WorkbenchItemModel::Animation(n)) => r matches Some(q) && q@ == n,
                _ => r is None,
            },
    {
        match &self.view.workbench_item {
            Some(WorkbenchItem::Animation(n)) => Some(n.clone()),
            _ => None,
        }
    }

    pub fn select_hitbox(&mut self, name: &str) -> (r: Result<(), StateError>)
        ensures
            applied(old(self)@, final(self)@, r, after_select_hitbox(old(self)@.state, name@)),
    {
        let path = match self.workbench_frame_path() {
            Some(p) => p,
            None => return Err(StateError::NotEditingAnyFrame),
        };
        let frame = match self.sheet.get_frame(path.as_str()) {
            Some(f) => f,
            None => return Err(StateError::FrameNotInDocument),
        };
        if !frame.has_hitbox(name) {
            return Err(StateError::InvalidHitboxIndex);
        }
        self.view.selection = Some(Selection::Hitbox(path, name.to_owned()));
        Ok(())
    }

    /// The position of the animation in the workbench.
    pub fn workbench_animation_position(&self) -> (r: Result<usize, StateError>)
        ensures
            match workbench_animation(self@.state) {
                Ok(a) => r matches Ok(i) && i < self.sheet.animations.len() && i
                    == self@.state.sheet.animation_index(workbench_animation_name(self@.state))
                    && a == self@.state.sheet.animations[i as int] && a.name
                    == workbench_animation_name(self@.state),
                Err(e) => r == Err::<usize, StateError>(e),
            },
    {
        match &self.view.workbench_item {
            Some(WorkbenchItem::Animation(n)) => match self.sheet.animation_position(n.as_str()) {
                Some(i) => Ok(i),
                None => Err(StateError::AnimationNotInDocument),
            },
            _ => Err(StateError::NotEditingAnyAnimation),
        }
    }

    pub fn select_animation_frame(&mut self, index: usize) -> (r: Result<(), StateError>)
        requires
            old(self)@.state.sheet.durations_fit(),
        ensures
            applied(
                old(self)@,
                final(self)@,
                r,
                after_select_animation_frame(old(self)@.state, index as int),
            ),
    {
        let i = self.workbench_animation_position()?;
        let animation = &self.sheet.animations[i];
        proof {
            assert(self@.state.sheet.animations[i as int].duration_fits());
        }
        if index >= animation.timeline.len() {
            return Err(StateError::InvalidAnimationFrameIndex);
        }
        let frame_times = animation.get_frame_times();
        let frame_start_time = frame_times[index];
        let duration = animation.timeline[index].duration as u64;
        let last = index == animation.timeline.len() - 1;
        let name = animation.name.clone();
        proof {
            crate::sheet::lemma_start_time_bounds(animation@.timeline, index as int, animation@.timeline.len() as int);
        }
        let clock = self.view.timeline_clock / 1_000_000;
        let is_playhead_in_frame = clock >= frame_start_time as u128 && (clock < (frame_start_time
            + duration) as u128 || last);
        self.view.selection = Some(Selection::AnimationFrame(name, index));
        if !self.persistent.timeline_is_playing && !is_playhead_in_frame {
            self.view.timeline_clock = frame_start_time as u128 * 1_000_000;
        }
        Ok(())
    }

    pub fn edit_frame(&mut self, path: &str) -> (r: Result<(), StateError>)
        ensures
            applied(old(self)@, final(self)@, r, after_edit_frame(old(self)@.state, path@)),
    {
        if !self.sheet.has_frame(path) {
            return Err(StateError::FrameNotInDocument);
        }
        self.view.workbench_item = Some(WorkbenchItem::Frame(path.to_owned()));
        self.view.workbench_offset = (0, 0);
        Ok(())
    }

    pub fn edit_animation(&mut self, name: &str) -> (r: Result<(), StateError>)
        ensures
            applied(old(self)@, final(self)@, r, after_edit_animation(old(self)@.state, name@)),
    {
        if !self.sheet.has_animation(name) {
            return Err(StateError::AnimationNotInDocument);
        }
        self.view.workbench_item = Some(WorkbenchItem::Animation(name.to_owned()));
        self.view.workbench_offset = (0, 0);
        self.view.timeline_clock = 0;
        self.persistent.timeline_is_playing = false;
        Ok(())
    }

    pub fn begin_animation_rename(&mut self, old_name: &str) -> (r: Result<(), StateError>)
        ensures
            applied(
                old(self)@,
                final(self)@,
                r,
                after_begin_animation_rename(old(self)@.state, old_name@),
            ),
    {
        if !self.sheet.has_animation(old_name) {
            return Err(StateError::AnimationNotInDocument);
        }
        self.transient.item_being_renamed = Some(RenameItem::Animation(old_name.to_owned()));
        self.transient.rename_buffer = Some(old_name.to_owned());
        Ok(())
    }

    pub fn begin_hitbox_rename(&mut self, frame_path: &str, old_name: &str) -> (r: Result<
        (),
        StateError,
    >)
        ensures
            applied(
                old(self)@,
                final(self)@,
                r,
                after_begin_hitbox_rename(old(self)@.state, frame_path@, old_name@),
            ),
    {
        let frame = match self.sheet.get_frame(frame_path) {
            Some(f) => f,
            None => return Err(StateError::FrameNotInDocument),
        };
        if !frame.has_hitbox(old_name) {
            return Err(StateError::HitboxNotInFrame);
        }
        self.transient.item_being_renamed = Some(
            RenameItem::Hitbox(frame_path.to_owned(), old_name.to_owned()),
        );
        self.transient.rename_buffer = Some(old_name.to_owned());
        Ok(())
    }

    pub fn begin_frame_drag(&mut self, frame: &str)
        ensures
            final(self)@ == with_state(old(self)@, after_begin_frame_drag(old(self)@.state, frame@)),
    {
        self.transient.content_frame_being_dragged = Some(frame.to_owned());
    }

    pub fn create_animation(&mut self)
        requires
            old(self).sheet.animations.len() < usize::MAX,
        ensures
            final(self)@ == with_state(old(self)@, after_create_animation(old(self)@.state)),
    {
        let ghost names = animation_names(self@.state.sheet.animations);
        let animation = self.sheet.add_animation();
        let name = animation.name.clone();
        proof {
            let k = choose|k: int|
                crate::names::is_first_free_name(names, "New Animation"@, k) && (*animation)@
                    == new_animation_model(crate::names::numbered_name("New Animation"@, k));
            lemma_fresh_name(names, "New Animation"@, k);
        }
        assert(self@.state.sheet.animations =~= old(self)@.state.sheet.animations.push(
            new_animation_model(name@),
        ));
        self.transient.item_being_renamed = Some(RenameItem::Animation(name.clone()));
        self.transient.rename_buffer = Some(name.clone());
        self.view.selection = Some(Selection::Animation(name.clone()));
        self.view.workbench_item = Some(WorkbenchItem::Animation(name));
        self.view.workbench_offset = (0, 0);
        self.view.timeline_clock = 0;
        self.persistent.timeline_is_playing = false;
    }
}


// ---------------------------------------------------------------------------
// Timeline
// ---------------------------------------------------------------------------

/// Inserting a frame showing `path` at `index` of the animation in the
/// workbench.
pub open spec fn after_insert_animation_frame_before(s: EditState, path: Seq<char>, index: int) -> Result<
    EditState,
    StateError,
> {
    match workbench_animation(s) {
        Err(e) => Err(e),
        Ok(a) => if index > a.timeline.len() {
            Err(StateError::Sheet(SheetError::InvalidFrameIndex))
        } else {
            Ok(
                with_sheet(
                    s,
                    with_animation(
                        s.sheet,
                        s.sheet.animation_index(workbench_animation_name(s)),
                        AnimationModel {
                            timeline: a.timeline.insert(
                                index,
                                crate::sheet::new_animation_frame_model(path),
                            ),
                            ..a
                        },
                    ),
                ),
            )
        },
    }
}

/// Where the selected frame of an animation ends up once the frame at
/// `old_index` moves before the one at `new_index`.
pub open spec fn reordered_index(i: int, old_index: int, new_index: int) -> int {
    if i == old_index {
        new_index - if old_index < new_index { 1int } else { 0int }
    } else if i > old_index && i < new_index {
        i - 1
    } else if i >= new_index && i < old_index {
        i + 1
    } else {
        i
    }
}

/// Moving a frame of the animation in the workbench; a selected frame of that
/// animation stays selected where it moves to.
pub open spec fn after_reorder_animation_frame(s: EditState, old_index: int, new_index: int) -> Result<
    EditState,
    StateError,
> {
    if old_index == new_index {
        Ok(s)
    } else {
        match workbench_animation(s) {
            Err(e) => Err(e),
            Ok(a) => if old_index >= a.timeline.len() || new_index > a.timeline.len() {
                Err(StateError::Sheet(SheetError::InvalidFrameIndex))
            } else {
                let name = workbench_animation_name(s);
                let sheet = with_animation(
                    s.sheet,
                    s.sheet.animation_index(name),
                    AnimationModel {
                        timeline: crate::sheet::reordered(a.timeline, old_index, new_index),
                        ..a
                    },
                );
                Ok(
                    with_selection(
                        with_sheet(s, sheet),
                        reordered_selection(s.view.selection, name, old_index, new_index),
                    ),
                )
            },
        }
    }
}

pub open spec fn after_begin_animation_frame_duration_drag(s: EditState, index: int) -> Result<
    EditState,
    StateError,
> {
    match workbench_animation(s) {
        Err(e) => Err(e),
        Ok(a) => if index >= a.timeline.len() {
            Err(StateError::InvalidAnimationFrameIndex)
        } else {
            Ok(
                with_transient(
                    s,
                    TransientModel {
                        timeline_frame_being_scaled: Some(index as usize),
                        timeline_frame_scale_initial_duration: a.timeline[index].duration,
                        timeline_frame_scale_initial_clock: s.view.timeline_clock,
                        ..s.transient
                    },
                ),
            )
        },
    }
}

/// The animation in the workbench with the frame being resized given a new
/// duration.
pub open spec fn resized_animation(s: EditState, new_duration: u32) -> AnimationModel {
    let a = workbench_animation(s).unwrap();
    let index = s.transient.timeline_frame_being_scaled.unwrap() as int;
    AnimationModel {
        timeline: a.timeline.update(
            index,
            crate::sheet::AnimationFrameModel { duration: new_duration, ..a.timeline[index] },
        ),
        ..a
    }
}

/// Resizing a frame of the animation in the workbench. Unless the timeline
/// plays, a playhead that was past the frame's end when the resize began
/// moves by as much as the frame's end does.
pub open spec fn after_update_animation_frame_duration_drag(s: EditState, new_duration: u32) -> Result<
    EditState,
    StateError,
> {
    match s.view.workbench_item {
        Some(WorkbenchItemModel::Animation(name)) => match s.transient.timeline_frame_being_scaled {
            None => Err(StateError::NotDraggingATimelineFrame),
            Some(index) => if !s.sheet.has_animation(name) {
                Err(StateError::AnimationNotInDocument)
            } else if index >= s.sheet.animations[s.sheet.animation_index(name)].timeline.len() {
                Err(StateError::InvalidAnimationFrameIndex)
            } else {
                let a = resized_animation(s, new_duration);
                let start = start_time(a.timeline, index as int);
                let initial_clock = millis(s.transient.timeline_frame_scale_initial_clock as int);
                let initial_duration = s.transient.timeline_frame_scale_initial_duration;
                let s2 = with_sheet(s, with_animation(s.sheet, s.sheet.animation_index(name), a));
                if !s.persistent.timeline_is_playing && initial_clock >= start + initial_duration {
                    Ok(
                        with_view(
                            s2,
                            DocumentViewModel {
                                timeline_clock: ((initial_clock + new_duration - initial_duration)
                                    * 1_000_000) as u128,
                                ..s.view
                            },
                        ),
                    )
                } else {
                    Ok(s2)
                }
            },
        },
        _ => Err(StateError::NotEditingAnyAnimation),
    }
}

/// Whether a frame of the animation in the workbench is being resized.
pub open spec fn can_resize_frame(s: EditState) -> bool {
    match s.view.workbench_item {
        Some(WorkbenchItemModel::Animation(n)) => match s.transient.timeline_frame_being_scaled {
            Some(index) => s.sheet.has_animation(n) && index < s.sheet.animations[s.sheet.animation_index(n)].timeline.len(),
            None => false,
        },
        _ => false,
    }
}

pub open spec fn after_end_animation_frame_duration_drag(s: EditState) -> EditState {
    with_transient(
        s,
        TransientModel {
            timeline_frame_being_scaled: None,
            timeline_frame_scale_initial_duration: 0,
            timeline_frame_scale_initial_clock: 0,
            ..s.transient
        },
    )
}

pub open spec fn after_begin_animation_frame_drag(s: EditState, index: int) -> Result<
    EditState,
    StateError,
> {
    match workbench_animation(s) {
        Err(e) => Err(e),
        Ok(a) => if index >= a.timeline.len() {
            Err(StateError::InvalidAnimationFrameIndex)
        } else {
            Ok(
                with_transient(
                    s,
                    TransientModel {
                        timeline_frame_being_dragged: Some(index as usize),
                        ..s.transient
                    },
                ),
            )
        },
    }
}

/// Playing or pausing the animation in the workbench. Playing a non-looping
/// animation whose end the playhead has reached starts it over.
pub open spec fn after_toggle_playback(s: EditState) -> Result<EditState, StateError> {
    match workbench_animation(s) {
        Err(e) => Err(e),
        Ok(a) => {
            let d = crate::sheet::total_duration(a.timeline);
            let restart = !s.persistent.timeline_is_playing && a.timeline.len() > 0 && d > 0
                && !a.is_looping && millis(s.view.timeline_clock as int) >= d;
            Ok(
                EditState {
                    view: DocumentViewModel {
                        timeline_clock: if restart {
                            0
                        } else {
                            s.view.timeline_clock
                        },
                        ..s.view
                    },
                    persistent: PersistentModel {
                        timeline_is_playing: !s.persistent.timeline_is_playing,
                        ..s.persistent
                    },
                    ..s
                },
            )
        },
    }
}

pub open spec fn after_toggle_looping(s: EditState) -> Result<EditState, StateError> {
    match workbench_animation(s) {
        Err(e) => Err(e),
        Ok(a) => Ok(
            with_sheet(
                s,
                with_animation(
                    s.sheet,
                    s.sheet.animation_index(workbench_animation_name(s)),
                    AnimationModel { is_looping: !a.is_looping, ..a },
                ),
            ),
        ),
    }
}

/// Moving the playhead to `time` (in nanoseconds): the frame shown then
/// becomes the selection.
#[verifier::opaque]
pub open spec fn after_update_timeline_scrub(s: EditState, time: int) -> Result<EditState, StateError> {
    match workbench_animation(s) {
        Err(e) => Err(e),
        Ok(a) => if crate::sheet::total_duration(a.timeline) == 0 {
            Err(StateError::NoAnimationFrameForThisTime)
        } else {
            let index = crate::sheet::frame_at(
                a.timeline,
                crate::sheet::playback_time(a, millis(time)),
            );
            match after_select_animation_frame(s, index) {
                Ok(s2) => Ok(
                    with_view(s2, DocumentViewModel { timeline_clock: time as u128, ..s2.view }),
                ),
                Err(e) => Err(e),
            }
        },
    }
}

/// The start of the last frame that starts before `now`, looking at the
/// frames up to `i`; the animation's start where there is none.
pub open spec fn previous_start(timeline: Seq<crate::sheet::AnimationFrameModel>, now: int, i: int) -> int
    decreases i + 1,
{
    if i < 0 {
        0
    } else if start_time(timeline, i) < now {
        start_time(timeline, i)
    } else {
        previous_start(timeline, now, i - 1)
    }
}

/// The start of the first frame from `i` on that starts after `now`; the
/// start of the last frame where there is none.
pub open spec fn next_start(timeline: Seq<crate::sheet::AnimationFrameModel>, now: int, i: int) -> int
    decreases timeline.len() - i,
{
    if i >= timeline.len() {
        start_time(timeline, timeline.len() - 1)
    } else if start_time(timeline, i) > now {
        start_time(timeline, i)
    } else {
        next_start(timeline, now, i + 1)
    }
}

pub open spec fn after_snap_to_previous_frame(s: EditState) -> Result<EditState, StateError> {
    match workbench_animation(s) {
        Err(e) => Err(e),
        Ok(a) => if a.timeline.len() == 0 {
            Ok(s)
        } else {
            let t = previous_start(
                a.timeline,
                millis(s.view.timeline_clock as int),
                a.timeline.len() - 1,
            );
            after_update_timeline_scrub(s, t * 1_000_000)
        },
    }
}

pub open spec fn after_snap_to_next_frame(s: EditState) -> Result<EditState, StateError> {
    match workbench_animation(s) {
        Err(e) => Err(e),
        Ok(a) => if a.timeline.len() == 0 {
            Ok(s)
        } else {
            let t = next_start(a.timeline, millis(s.view.timeline_clock as int), 0);
            after_update_timeline_scrub(s, t * 1_000_000)
        },
    }
}

/// The selection once the frame at `old_index` of animation `name` moves
/// before the one at `new_index`.
pub open spec fn reordered_selection(
    selection: Option<SelectionModel>,
    name: Seq<char>,
    old_index: int,
    new_index: int,
) -> Option<SelectionModel> {
    match selection {
        Some(SelectionModel::AnimationFrame(n, i)) => if n == name {
            Some(
                SelectionModel::AnimationFrame(
                    n,
                    reordered_index(i as int, old_index, new_index) as usize,
                ),
            )
        } else {
            selection
        },
        _ => selection,
    }
}

fn reorder_selection(selection: &Option<Selection>, name: &String, old_index: usize, new_index: usize) -> (r: Option<Selection>)
    requires
        old_index != new_index,
    ensures
        crate::view::selection_model(r) == reordered_selection(
            crate::view::selection_model(*selection),
            name@,
            old_index as int,
            new_index as int,
        ),
{
    match selection {
        Some(Selection::AnimationFrame(n, index)) => {
            if *n == *name {
                let index = *index;
                let moved = if index == old_index {
                    if old_index < new_index {
                        new_index - 1
                    } else {
                        new_index
                    }
                } else if index > old_index && index < new_index {
                    index - 1
                } else if index >= new_index && index < old_index {
                    index + 1
                } else {
                    index
                };
                Some(Selection::AnimationFrame(n.clone(), moved))
            } else {
                Some(Selection::AnimationFrame(n.clone(), *index))
            }
        },
        Some(other) => Some(other.clone()),
        None => None,
    }
}

impl Document {
    pub fn insert_animation_frame_before(&mut self, frame: &str, next_frame_index: usize) -> (r:
        Result<(), StateError>)
        ensures
            applied(
                old(self)@,
                final(self)@,
                r,
                after_insert_animation_frame_before(
                    old(self)@.state,
                    frame@,
                    next_frame_index as int,
                ),
            ),
    {
        let i = self.workbench_animation_position()?;
        let animation = &mut self.sheet.animations[i];
        match animation.insert_frame(frame, next_frame_index) {
            Ok(()) => {},
            Err(e) => {
                assert(self@.state.sheet.animations =~= old(self)@.state.sheet.animations);
                return Err(StateError::Sheet(e));
            },
        }
        assert(self@.state.sheet.animations =~= old(self)@.state.sheet.animations.update(
            i as int,
            self@.state.sheet.animations[i as int],
        ));
        assert(self@.state.sheet == with_animation(
            old(self)@.state.sheet,
            i as int,
            self@.state.sheet.animations[i as int],
        ));
        Ok(())
    }

    #[verifier::rlimit(50)]
    pub fn reorder_animation_frame(&mut self, old_index: usize, new_index: usize) -> (r: Result<
        (),
        StateError,
    >)
        ensures
            applied(
                old(self)@,
                final(self)@,
                r,
                after_reorder_animation_frame(old(self)@.state, old_index as int, new_index as int),
            ),
    {
        if old_index == new_index {
            return Ok(());
        }
        let i = self.workbench_animation_position()?;
        let animation = &mut self.sheet.animations[i];
        match animation.reorder_frame(old_index, new_index) {
            Ok(()) => {},
            Err(e) => {
                assert(self@.state.sheet.animations =~= old(self)@.state.sheet.animations);
                return Err(StateError::Sheet(e));
            },
        }
        assert(self@.state.sheet.animations =~= old(self)@.state.sheet.animations.update(
            i as int,
            self@.state.sheet.animations[i as int],
        ));
        assert(self@.state.sheet == with_animation(
            old(self)@.state.sheet,
            i as int,
            self@.state.sheet.animations[i as int],
        ));
        let new_selection = reorder_selection(&self.view.selection, &self.sheet.animations[i].name, old_index, new_index);
        self.view.selection = new_selection;
        Ok(())
    }

    pub fn begin_animation_frame_duration_drag(&mut self, index: usize) -> (r: Result<
        (),
        StateError,
    >)
        ensures
            applied(
                old(self)@,
                final(self)@,
                r,
                after_begin_animation_frame_duration_drag(old(self)@.state, index as int),
            ),
    {
        let i = self.workbench_animation_position()?;
        let old_duration = match self.sheet.animations[i].get_frame(index) {
            Some(f) => f.duration,
            None => return Err(StateError::InvalidAnimationFrameIndex),
        };
        self.transient.timeline_frame_being_scaled = Some(index);
        self.transient.timeline_frame_scale_initial_duration = old_duration;
        self.transient.timeline_frame_scale_initial_clock = self.view.timeline_clock;
        Ok(())
    }

    pub fn update_animation_frame_duration_drag(&mut self, new_duration: u32) -> (r: Result<
        (),
        StateError,
    >)
        requires
            ({
                let s = old(self)@.state;
                can_resize_frame(s) ==> resized_animation(s, new_duration).duration_fits()
                    && millis(s.transient.timeline_frame_scale_initial_clock as int) + new_duration
                    <= u128::MAX / 1_000_000
            }),
        ensures
            applied(
                old(self)@,
                final(self)@,
                r,
                after_update_animation_frame_duration_drag(old(self)@.state, new_duration),
            ),
    {
        let name = match self.workbench_animation_name() {
            Some(n) => n,
            None => return Err(StateError::NotEditingAnyAnimation),
        };
        let index = match self.transient.timeline_frame_being_scaled {
            Some(index) => index,
            None => return Err(StateError::NotDraggingATimelineFrame),
        };
        let i = match self.sheet.animation_position(name.as_str()) {
            Some(i) => i,
            None => return Err(StateError::AnimationNotInDocument),
        };
        if index >= self.sheet.animations[i].timeline.len() {
            return Err(StateError::InvalidAnimationFrameIndex);
        }
        let animation = &mut self.sheet.animations[i];
        let frame = &mut animation.timeline[index];
        frame.duration = new_duration;
        assert(animation@ == resized_animation(old(self)@.state, new_duration)) by {
            assert(animation@.timeline =~= resized_animation(old(self)@.state, new_duration).timeline);
        }
        let frame_times = animation.get_frame_times();
        let frame_start_time = frame_times[index];
        assert(self@.state.sheet.animations =~= old(self)@.state.sheet.animations.update(
            i as int,
            resized_animation(old(self)@.state, new_duration),
        ));
        assert(self@.state.sheet == with_animation(
            old(self)@.state.sheet,
            i as int,
            resized_animation(old(self)@.state, new_duration),
        ));
        if !self.persistent.timeline_is_playing {
            let initial_clock = self.transient.timeline_frame_scale_initial_clock / 1_000_000;
            let initial_duration = self.transient.timeline_frame_scale_initial_duration as u128;
            if initial_clock >= frame_start_time as u128 + initial_duration {
                self.view.timeline_clock = (initial_clock + new_duration as u128 - initial_duration)
                    * 1_000_000;
            }
        }
        Ok(())
    }

    pub fn end_animation_frame_duration_drag(&mut self)
        ensures
            final(self)@ == with_state(
                old(self)@,
                after_end_animation_frame_duration_drag(old(self)@.state),
            ),
    {
        self.transient.timeline_frame_being_scaled = None;
        self.transient.timeline_frame_scale_initial_duration = 0;
        self.transient.timeline_frame_scale_initial_clock = 0;
    }

    pub fn begin_animation_frame_drag(&mut self, animation_frame_index: usize) -> (r: Result<
        (),
        StateError,
    >)
        ensures
            applied(
                old(self)@,
                final(self)@,
                r,
                after_begin_animation_frame_drag(old(self)@.state, animation_frame_index as int),
            ),
    {
        let i = self.workbench_animation_position()?;
        if animation_frame_index >= self.sheet.animations[i].timeline.len() {
            return Err(StateError::InvalidAnimationFrameIndex);
        }
        self.transient.timeline_frame_being_dragged = Some(animation_frame_index);
        Ok(())
    }

    pub fn toggle_playback(&mut self) -> (r: Result<(), StateError>)
        requires
            old(self)@.state.sheet.durations_fit(),
        ensures
            applied(old(self)@, final(self)@, r, after_toggle_playback(old(self)@.state)),
    {
        let i = self.workbench_animation_position()?;
        let animation = &self.sheet.animations[i];
        proof {
            assert(self@.state.sheet.animations[i as int].duration_fits());
            crate::sheet::lemma_total_nonnegative(animation@.timeline);
        }
        let mut new_timeline_clock = self.view.timeline_clock;
        if !self.persistent.timeline_is_playing {
            if let Some(d) = animation.get_duration() {
                if d > 0 && !animation.is_looping && self.view.timeline_clock / 1_000_000 >= d as u128 {
                    new_timeline_clock = 0;
                }
            }
        }
        self.persistent.timeline_is_playing = !self.persistent.timeline_is_playing;
        self.view.timeline_clock = new_timeline_clock;
        Ok(())
    }

    pub fn toggle_looping(&mut self) -> (r: Result<(), StateError>)
        ensures
            applied(old(self)@, final(self)@, r, after_toggle_looping(old(self)@.state)),
    {
        let i = self.workbench_animation_position()?;
        let animation = &mut self.sheet.animations[i];
        animation.is_looping = !animation.is_looping;
        assert(self@.state.sheet.animations =~= old(self)@.state.sheet.animations.update(
            i as int,
            self@.state.sheet.animations[i as int],
        ));
        assert(self@.state.sheet == with_animation(
            old(self)@.state.sheet,
            i as int,
            self@.state.sheet.animations[i as int],
        ));
        Ok(())
    }

    #[verifier::rlimit(100)]
    #[verifier::spinoff_prover]
    pub fn update_timeline_scrub(&mut self, new_time: u128) -> (r: Result<(), StateError>)
        requires
            old(self)@.state.sheet.durations_fit(),
        ensures
            applied(
                old(self)@,
                final(self)@,
                r,
                after_update_timeline_scrub(old(self)@.state, new_time as int),
            ),
    {
        let ghost s = self@.state;
        let i = match self.workbench_animation_position() {
            Ok(i) => i,
            Err(e) => {
                assert(after_update_timeline_scrub(s, new_time as int) == Err::<EditState, StateError>(e)) by {
                    reveal(after_update_timeline_scrub);
                }
                return Err(e);
            },
        };
        let animation = &self.sheet.animations[i];
        proof {
            assert(self@.state.sheet.animations[i as int].duration_fits());
            assert(animation@ == s.sheet.animations[i as int]);
            crate::sheet::lemma_total_nonnegative(animation@.timeline);
        }
        let index = match animation.get_frame_at(new_time / 1_000_000) {
            Some((index, _)) => index,
            None => {
                assert(after_update_timeline_scrub(s, new_time as int) == Err::<EditState, StateError>(
                    StateError::NoAnimationFrameForThisTime,
                )) by {
                    reveal(after_update_timeline_scrub);
                    assert(workbench_animation(s) == Ok::<AnimationModel, StateError>(animation@));
                }
                return Err(StateError::NoAnimationFrameForThisTime);
            },
        };
        let ghost expected = after_select_animation_frame(s, index as int);
        assert(workbench_animation(s) == Ok::<AnimationModel, StateError>(animation@));
        assert(expected is Ok);
        let r = self.select_animation_frame(index);
        assert(r is Ok);
        assert(self@.state == expected.unwrap());
        self.view.timeline_clock = new_time;
        assert(after_update_timeline_scrub(s, new_time as int) == Ok::<EditState, StateError>(
            self@.state,
        )) by {
            reveal(after_update_timeline_scrub);
        }
        Ok(())
    }
}


// ---------------------------------------------------------------------------
// Snapping the playhead
// ---------------------------------------------------------------------------

fn find_previous_start(
    frame_times: &Vec<u64>,
    now: u128,
    Ghost(tl): Ghost<Seq<crate::sheet::AnimationFrameModel>>,
) -> (r: u64)
    requires
        frame_times@.len() == tl.len(),
        tl.len() > 0,
        forall|j: int| 0 <= j < tl.len() ==> frame_times@[j] == start_time(tl, j),
    ensures
        r == previous_start(tl, now as int, tl.len() - 1),
{
    let len = frame_times.len();
    let mut k: usize = len;
    while k > 0
        invariant
            k <= len,
            len == tl.len(),
            frame_times@.len() == len,
            forall|j: int| 0 <= j < len ==> frame_times@[j] == start_time(tl, j),
            previous_start(tl, now as int, len - 1) == previous_start(tl, now as int, k - 1),
        decreases k,
    {
        if (frame_times[k - 1] as u128) < now {
            return frame_times[k - 1];
        }
        k -= 1;
    }
    0
}

fn find_next_start(
    frame_times: &Vec<u64>,
    now: u128,
    Ghost(tl): Ghost<Seq<crate::sheet::AnimationFrameModel>>,
) -> (r: u64)
    requires
        frame_times@.len() == tl.len(),
        tl.len() > 0,
        forall|j: int| 0 <= j < tl.len() ==> frame_times@[j] == start_time(tl, j),
    ensures
        r == next_start(tl, now as int, 0),
{
    let len = frame_times.len();
    let mut k: usize = 0;
    while k < len
        invariant
            k <= len,
            len == tl.len(),
            frame_times@.len() == len,
            forall|j: int| 0 <= j < len ==> frame_times@[j] == start_time(tl, j),
            next_start(tl, now as int, 0) == next_start(tl, now as int, k as int),
        decreases len - k,
    {
        if (frame_times[k] as u128) > now {
            return frame_times[k];
        }
        k += 1;
    }
    frame_times[len - 1]
}

impl Document {
    pub fn snap_to_previous_frame(&mut self) -> (r: Result<(), StateError>)
        requires
            old(self)@.state.sheet.durations_fit(),
        ensures
            applied(old(self)@, final(self)@, r, after_snap_to_previous_frame(old(self)@.state)),
    {
        let ghost s = self@.state;
        let i = self.workbench_animation_position()?;
        let animation = &self.sheet.animations[i];
        proof {
            assert(self@.state.sheet.animations[i as int].duration_fits());
            assert(animation@ == s.sheet.animations[i as int]);
        }
        let len = animation.timeline.len();
        if len == 0 {
            return Ok(());
        }
        let ghost tl = animation@.timeline;
        let frame_times = animation.get_frame_times();
        let now = self.view.timeline_clock / 1_000_000;
        let t = find_previous_start(&frame_times, now, Ghost(tl));
        proof {
            crate::sheet::lemma_start_time_bounds(tl, 0, tl.len() as int);
        }
        self.update_timeline_scrub(t as u128 * 1_000_000)
    }

    pub fn snap_to_next_frame(&mut self) -> (r: Result<(), StateError>)
        requires
            old(self)@.state.sheet.durations_fit(),
        ensures
            applied(old(self)@, final(self)@, r, after_snap_to_next_frame(old(self)@.state)),
    {
        let ghost s = self@.state;
        let i = self.workbench_animation_position()?;
        let animation = &self.sheet.animations[i];
        proof {
            assert(self@.state.sheet.animations[i as int].duration_fits());
            assert(animation@ == s.sheet.animations[i as int]);
        }
        let len = animation.timeline.len();
        if len == 0 {
            return Ok(());
        }
        let ghost tl = animation@.timeline;
        let frame_times = animation.get_frame_times();
        let now = self.view.timeline_clock / 1_000_000;
        let t = find_next_start(&frame_times, now, Ghost(tl));
        self.update_timeline_scrub(t as u128 * 1_000_000)
    }
}


// ---------------------------------------------------------------------------
// Moving animation frames in the workbench
// ---------------------------------------------------------------------------

/// Whether `v` fits in an `i32`.
pub open spec fn fits_i32(v: int) -> bool {
    i32::MIN <= v <= i32::MAX
}

/// `a + b`, component by component.
pub open spec fn offset_by(a: (i32, i32), b: (i32, i32)) -> (i32, i32) {
    ((a.0 + b.0) as i32, (a.1 + b.1) as i32)
}

/// Whether `a + b` fits in an `i32` pair.
pub open spec fn offset_fits(a: (i32, i32), b: (i32, i32)) -> bool {
    fits_i32(a.0 + b.0) && fits_i32(a.1 + b.1)
}

pub(crate) fn add_offsets(a: (i32, i32), b: (i32, i32)) -> (r: (i32, i32))
    requires
        offset_fits(a, b),
    ensures
        r == offset_by(a, b),
{
    (a.0 + b.0, a.1 + b.1)
}

/// Beginning to drag a frame of the animation in the workbench: the frame
/// becomes the selection.
pub open spec fn after_begin_animation_frame_offset_drag(s: EditState, index: int) -> Result<
    EditState,
    StateError,
> {
    match workbench_animation(s) {
        Err(e) => Err(e),
        Ok(a) => if index >= a.timeline.len() {
            Err(StateError::InvalidAnimationFrameIndex)
        } else {
            after_select_animation_frame(
                with_transient(
                    s,
                    TransientModel {
                        workbench_animation_frame_drag_initial_offset: a.timeline[index].offset,
                        workbench_animation_frame_being_dragged: Some(index as usize),
                        ..s.transient
                    },
                ),
                index,
            )
        },
    }
}

/// Dragging a frame of the animation in the workbench by `delta` sheet
/// pixels from where the drag began.
pub open spec fn after_update_animation_frame_offset_drag(s: EditState, delta: (i32, i32)) -> Result<
    EditState,
    StateError,
> {
    match s.view.workbench_item {
        Some(WorkbenchItemModel::Animation(name)) => match s.transient.workbench_animation_frame_being_dragged {
            None => Err(StateError::NotDraggingATimelineFrame),
            Some(index) => if !s.sheet.has_animation(name) {
                Err(StateError::AnimationNotInDocument)
            } else {
                let a = s.sheet.animations[s.sheet.animation_index(name)];
                if index >= a.timeline.len() {
                    Err(StateError::InvalidAnimationFrameIndex)
                } else {
                    let offset = offset_by(
                        s.transient.workbench_animation_frame_drag_initial_offset,
                        delta,
                    );
                    Ok(
                        with_sheet(
                            s,
                            with_animation(
                                s.sheet,
                                s.sheet.animation_index(name),
                                AnimationModel {
                                    timeline: a.timeline.update(
                                        index as int,
                                        crate::sheet::AnimationFrameModel {
                                            offset,
                                            ..a.timeline[index as int]
                                        },
                                    ),
                                    ..a
                                },
                            ),
                        ),
                    )
                }
            },
        },
        _ => Err(StateError::NotEditingAnyAnimation),
    }
}

pub open spec fn after_end_animation_frame_offset_drag(s: EditState) -> EditState {
    with_transient(
        s,
        TransientModel {
            workbench_animation_frame_drag_initial_offset: (0, 0),
            workbench_animation_frame_being_dragged: None,
            ..s.transient
        },
    )
}

impl Document {
    pub fn begin_animation_frame_offset_drag(&mut self, index: usize) -> (r: Result<
        (),
        StateError,
    >)
        requires
            old(self)@.state.sheet.durations_fit(),
        ensures
            applied(
                old(self)@,
                final(self)@,
                r,
                after_begin_animation_frame_offset_drag(old(self)@.state, index as int),
            ),
    {
        let ghost s = self@.state;
        let i = self.workbench_animation_position()?;
        let offset = match self.sheet.animations[i].get_frame(index) {
            Some(f) => f.offset,
            None => return Err(StateError::InvalidAnimationFrameIndex),
        };
        self.transient.workbench_animation_frame_drag_initial_offset = offset;
        self.transient.workbench_animation_frame_being_dragged = Some(index);
        let ghost t = self@.state;
        let r = self.select_animation_frame(index);
        assert(r is Ok);
        r
    }

    pub fn update_animation_frame_offset_drag(&mut self, delta: (i32, i32)) -> (r: Result<
        (),
        StateError,
    >)
        requires
            offset_fits(old(self).transient.workbench_animation_frame_drag_initial_offset, delta),
        ensures
            applied(
                old(self)@,
                final(self)@,
                r,
                after_update_animation_frame_offset_drag(old(self)@.state, delta),
            ),
    {
        let name = match self.workbench_animation_name() {
            Some(n) => n,
            None => return Err(StateError::NotEditingAnyAnimation),
        };
        let index = match self.transient.workbench_animation_frame_being_dragged {
            Some(index) => index,
            None => return Err(StateError::NotDraggingATimelineFrame),
        };
        let new_offset = add_offsets(
            self.transient.workbench_animation_frame_drag_initial_offset,
            delta,
        );
        let i = match self.sheet.animation_position(name.as_str()) {
            Some(i) => i,
            None => return Err(StateError::AnimationNotInDocument),
        };
        if index >= self.sheet.animations[i].timeline.len() {
            return Err(StateError::InvalidAnimationFrameIndex);
        }
        let animation = &mut self.sheet.animations[i];
        let frame = &mut animation.timeline[index];
        frame.offset = new_offset;
        assert(animation@.timeline =~= old(self)@.state.sheet.animations[i as int].timeline.update(
            index as int,
            crate::sheet::AnimationFrameModel {
                offset: new_offset,
                ..old(self)@.state.sheet.animations[i as int].timeline[index as int]
            },
        ));
        assert(self@.state.sheet.animations =~= old(self)@.state.sheet.animations.update(
            i as int,
            self@.state.sheet.animations[i as int],
        ));
        Ok(())
    }

    pub fn end_animation_frame_offset_drag(&mut self)
        ensures
            final(self)@ == with_state(
                old(self)@,
                after_end_animation_frame_offset_drag(old(self)@.state),
            ),
    {
        self.transient.workbench_animation_frame_drag_initial_offset = (0, 0);
        self.transient.workbench_animation_frame_being_dragged = None;
    }
}

} // verus!
