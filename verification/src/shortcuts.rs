//! Keyboard shortcuts: which keys issue which commands.

use vstd::prelude::*;
use crate::app_state::AppState;
use crate::command::{AppCommand, AsyncCommand, Command, DocumentCommand, SyncCommand};
use crate::command_buffer::CommandBuffer;
use crate::document::DocumentModel;

verus! {

/// The keys held and pressed during one frame of the user interface.
#[derive(Clone, Copy, Debug, PartialEq, Eq, Structural)]
pub struct KeyboardState {
    /// A text field has the keyboard: shortcuts are off.
    pub want_capture_keyboard: bool,
    pub ctrl: bool,
    pub shift: bool,
    pub alt: bool,
    pub delete: bool,
    pub f2: bool,
    pub space: bool,
    pub left: bool,
    pub right: bool,
    pub up: bool,
    pub down: bool,
    pub z: bool,
    pub n: bool,
    pub o: bool,
    pub s: bool,
    pub e: bool,
    pub w: bool,
    /// `+` on the keypad or `=`.
    pub plus: bool,
    /// `-` on the keypad or on the main keyboard.
    pub minus: bool,
    /// `0` on the keypad or on the main keyboard.
    pub zero: bool,
}

/// What a shortcut asks for.
#[derive(Clone, Copy, Debug, PartialEq, Eq, Structural)]
pub enum Shortcut {
    DeleteSelection,
    BeginRenameSelection,
    TogglePlayback,
    /// Nudging the selection, by ten pixels where the flag is set.
    NudgeLeft(bool),
    NudgeRight(bool),
    NudgeUp(bool),
    NudgeDown(bool),
    SnapToPreviousFrame,
    SnapToNextFrame,
    Undo,
    Redo,
    NewDocument,
    OpenDocument,
    Save,
    SaveAs,
    SaveAll,
    BeginExportAs,
    Export,
    CloseCurrentDocument,
    CloseAllDocuments,
    WorkbenchZoomIn,
    WorkbenchZoomOut,
    WorkbenchResetZoom,
    TimelineZoomIn,
    TimelineZoomOut,
    TimelineResetZoom,
    WorkbenchCenter,
}

/// `a` where `pressed`, nothing where not.
#[verifier::opaque]
pub open spec fn when(pressed: bool, a: Shortcut) -> Seq<Shortcut> {
    if pressed {
        seq![a]
    } else {
        seq![]
    }
}

/// The shortcuts that hold without Ctrl: Delete, F2 and Space.
pub open spec fn global_shortcuts(k: KeyboardState) -> Seq<Shortcut> {
    if !k.ctrl {
        when(k.delete, Shortcut::DeleteSelection) + when(k.f2, Shortcut::BeginRenameSelection) + when(
            k.space,
            Shortcut::TogglePlayback,
        )
    } else {
        seq![]
    }
}

/// The arrows: with Ctrl they nudge the selection (Shift for a large
/// nudge); without, left and right step through the timeline.
pub open spec fn arrow_shortcuts(k: KeyboardState) -> Seq<Shortcut> {
    if k.ctrl {
        when(k.left, Shortcut::NudgeLeft(k.shift)) + when(k.right, Shortcut::NudgeRight(k.shift))
            + when(k.up, Shortcut::NudgeUp(k.shift)) + when(k.down, Shortcut::NudgeDown(k.shift))
    } else {
        when(k.left, Shortcut::SnapToPreviousFrame) + when(k.right, Shortcut::SnapToNextFrame)
    }
}

pub open spec fn undo_shortcut(k: KeyboardState) -> Shortcut {
    if k.shift {
        Shortcut::Redo
    } else {
        Shortcut::Undo
    }
}

pub open spec fn save_shortcut(k: KeyboardState) -> Shortcut {
    if k.shift {
        Shortcut::SaveAs
    } else if k.alt {
        Shortcut::SaveAll
    } else {
        Shortcut::Save
    }
}

pub open spec fn export_shortcut(k: KeyboardState) -> Shortcut {
    if k.shift {
        Shortcut::BeginExportAs
    } else {
        Shortcut::Export
    }
}

pub open spec fn close_shortcut(k: KeyboardState) -> Shortcut {
    if k.shift {
        Shortcut::CloseAllDocuments
    } else {
        Shortcut::CloseCurrentDocument
    }
}

pub open spec fn zoom_in_shortcut(k: KeyboardState) -> Shortcut {
    if k.alt {
        Shortcut::TimelineZoomIn
    } else {
        Shortcut::WorkbenchZoomIn
    }
}

pub open spec fn zoom_out_shortcut(k: KeyboardState) -> Shortcut {
    if k.alt {
        Shortcut::TimelineZoomOut
    } else {
        Shortcut::WorkbenchZoomOut
    }
}

pub open spec fn reset_zoom_shortcut(k: KeyboardState) -> Shortcut {
    if k.alt {
        Shortcut::TimelineResetZoom
    } else {
        Shortcut::WorkbenchResetZoom
    }
}

/// The file menu's shortcuts.
pub open spec fn file_shortcuts(k: KeyboardState) -> Seq<Shortcut> {
    when(k.z, undo_shortcut(k)) + when(k.n, Shortcut::NewDocument) + when(
        k.o,
        Shortcut::OpenDocument,
    ) + when(k.s, save_shortcut(k)) + when(k.e, export_shortcut(k)) + when(k.w, close_shortcut(k))
}

/// The view menu's shortcuts.
pub open spec fn view_shortcuts(k: KeyboardState) -> Seq<Shortcut> {
    when(k.plus, zoom_in_shortcut(k)) + when(k.minus, zoom_out_shortcut(k)) + when(
        k.zero,
        reset_zoom_shortcut(k),
    ) + when(k.space, Shortcut::WorkbenchCenter)
}

/// The menu's shortcuts, all with Ctrl: Shift or Alt pick among the
/// variants of a menu entry.
pub open spec fn menu_shortcuts(k: KeyboardState) -> Seq<Shortcut> {
    if k.ctrl {
        file_shortcuts(k) + view_shortcuts(k)
    } else {
        seq![]
    }
}

/// The shortcuts that the keys of one frame issue, in order; none while a
/// text field has the keyboard.
pub open spec fn shortcuts(k: KeyboardState) -> Seq<Shortcut> {
    if k.want_capture_keyboard {
        seq![]
    } else {
        global_shortcuts(k) + arrow_shortcuts(k) + menu_shortcuts(k)
    }
}

fn push_when(v: &mut Vec<Shortcut>, pressed: bool, a: Shortcut)
    ensures
        final(v)@ == old(v)@ + when(pressed, a),
{
    reveal(when);
    if pressed {
        v.push(a);
        assert(v@ =~= old(v)@ + when(pressed, a));
    } else {
        assert(v@ =~= old(v)@ + when(pressed, a));
    }
}

fn push_global(v: &mut Vec<Shortcut>, k: KeyboardState)
    ensures
        final(v)@ == old(v)@ + global_shortcuts(k),
{
    if !k.ctrl {
        push_when(v, k.delete, Shortcut::DeleteSelection);
        push_when(v, k.f2, Shortcut::BeginRenameSelection);
        push_when(v, k.space, Shortcut::TogglePlayback);
    }
    assert(v@ =~= old(v)@ + global_shortcuts(k));
}

fn push_arrows(v: &mut Vec<Shortcut>, k: KeyboardState)
    ensures
        final(v)@ == old(v)@ + arrow_shortcuts(k),
{
    if k.ctrl {
        push_when(v, k.left, Shortcut::NudgeLeft(k.shift));
        push_when(v, k.right, Shortcut::NudgeRight(k.shift));
        push_when(v, k.up, Shortcut::NudgeUp(k.shift));
        push_when(v, k.down, Shortcut::NudgeDown(k.shift));
    } else {
        push_when(v, k.left, Shortcut::SnapToPreviousFrame);
        push_when(v, k.right, Shortcut::SnapToNextFrame);
    }
    assert(v@ =~= old(v)@ + arrow_shortcuts(k));
}

fn pick(flag: bool, on: Shortcut, off: Shortcut) -> (r: Shortcut)
    ensures
        r == if flag {
            on
        } else {
            off
        },
{
    if flag {
        on
    } else {
        off
    }
}

fn push_file(v: &mut Vec<Shortcut>, k: KeyboardState)
    ensures
        final(v)@ == old(v)@ + file_shortcuts(k),
{
    push_when(v, k.z, pick(k.shift, Shortcut::Redo, Shortcut::Undo));
    push_when(v, k.n, Shortcut::NewDocument);
    push_when(v, k.o, Shortcut::OpenDocument);
    push_when(v, k.s, pick(k.shift, Shortcut::SaveAs, pick(k.alt, Shortcut::SaveAll, Shortcut::Save)));
    push_when(v, k.e, pick(k.shift, Shortcut::BeginExportAs, Shortcut::Export));
    push_when(v, k.w, pick(k.shift, Shortcut::CloseAllDocuments, Shortcut::CloseCurrentDocument));
    assert(v@ =~= old(v)@ + file_shortcuts(k));
}

fn push_view(v: &mut Vec<Shortcut>, k: KeyboardState)
    ensures
        final(v)@ == old(v)@ + view_shortcuts(k),
{
    push_when(v, k.plus, pick(k.alt, Shortcut::TimelineZoomIn, Shortcut::WorkbenchZoomIn));
    push_when(v, k.minus, pick(k.alt, Shortcut::TimelineZoomOut, Shortcut::WorkbenchZoomOut));
    push_when(v, k.zero, pick(k.alt, Shortcut::TimelineResetZoom, Shortcut::WorkbenchResetZoom));
    push_when(v, k.space, Shortcut::WorkbenchCenter);
    assert(v@ =~= old(v)@ + view_shortcuts(k));
}

fn push_menu(v: &mut Vec<Shortcut>, k: KeyboardState)
    ensures
        final(v)@ == old(v)@ + menu_shortcuts(k),
{
    if k.ctrl {
        push_file(v, k);
        push_view(v, k);
    }
    assert(v@ =~= old(v)@ + menu_shortcuts(k));
}

/// The shortcuts that the keys of one frame issue, in order.
pub fn process_shortcuts(keys: &KeyboardState) -> (r: Vec<Shortcut>)
    ensures
        r@ == shortcuts(*keys),
{
    let k = *keys;
    let mut r: Vec<Shortcut> = Vec::new();
    if k.want_capture_keyboard {
        assert(r@ =~= shortcuts(k));
        return r;
    }
    push_global(&mut r, k);
    push_arrows(&mut r, k);
    push_menu(&mut r, k);
    assert(r@ =~= shortcuts(k));
    r
}

/// The one command that a shortcut stands for, where it stands for a
/// command that carries no document.
pub open spec fn shortcut_command(shortcut: Shortcut) -> Option<Command> {
    match shortcut {
        Shortcut::DeleteSelection => Some(Command::Sync(SyncCommand::Document(DocumentCommand::DeleteSelection))),
        Shortcut::BeginRenameSelection => Some(Command::Sync(SyncCommand::Document(DocumentCommand::BeginRenameSelection))),
        Shortcut::TogglePlayback => Some(Command::Sync(SyncCommand::Document(DocumentCommand::TogglePlayback))),
        Shortcut::NudgeLeft(large) => Some(Command::Sync(SyncCommand::Document(DocumentCommand::NudgeSelection((-1i32, 0i32), large)))),
        Shortcut::NudgeRight(large) => Some(Command::Sync(SyncCommand::Document(DocumentCommand::NudgeSelection((1, 0), large)))),
        Shortcut::NudgeUp(large) => Some(Command::Sync(SyncCommand::Document(DocumentCommand::NudgeSelection((0i32, -1i32), large)))),
        Shortcut::NudgeDown(large) => Some(Command::Sync(SyncCommand::Document(DocumentCommand::NudgeSelection((0, 1), large)))),
        Shortcut::SnapToPreviousFrame => Some(Command::Sync(SyncCommand::Document(DocumentCommand::SnapToPreviousFrame))),
        Shortcut::SnapToNextFrame => Some(Command::Sync(SyncCommand::Document(DocumentCommand::SnapToNextFrame))),
        Shortcut::Undo => Some(Command::Sync(SyncCommand::App(AppCommand::Undo))),
        Shortcut::Redo => Some(Command::Sync(SyncCommand::App(AppCommand::Redo))),
        Shortcut::NewDocument => Some(Command::Async(AsyncCommand::BeginNewDocument)),
        Shortcut::OpenDocument => Some(Command::Async(AsyncCommand::BeginOpenDocument)),
        Shortcut::BeginExportAs => Some(Command::Sync(SyncCommand::Document(DocumentCommand::BeginExportAs))),
        Shortcut::CloseCurrentDocument => Some(Command::Sync(SyncCommand::Document(DocumentCommand::Close))),
        Shortcut::CloseAllDocuments => Some(Command::Sync(SyncCommand::App(AppCommand::CloseAllDocuments))),
        Shortcut::WorkbenchZoomIn => Some(Command::Sync(SyncCommand::Document(DocumentCommand::WorkbenchZoomIn))),
        Shortcut::WorkbenchZoomOut => Some(Command::Sync(SyncCommand::Document(DocumentCommand::WorkbenchZoomOut))),
        Shortcut::WorkbenchResetZoom => Some(Command::Sync(SyncCommand::Document(DocumentCommand::WorkbenchResetZoom))),
        Shortcut::TimelineZoomIn => Some(Command::Sync(SyncCommand::Document(DocumentCommand::TimelineZoomIn))),
        Shortcut::TimelineZoomOut => Some(Command::Sync(SyncCommand::Document(DocumentCommand::TimelineZoomOut))),
        Shortcut::TimelineResetZoom => Some(Command::Sync(SyncCommand::Document(DocumentCommand::TimelineResetZoom))),
        Shortcut::WorkbenchCenter => Some(Command::Sync(SyncCommand::Document(DocumentCommand::WorkbenchCenter))),
        _ => None,
    }
}

fn issue_simple(shortcut: Shortcut, commands: &mut CommandBuffer)
    requires
        shortcut_command(shortcut) is Some,
    ensures
        final(commands).queue@ == old(commands).queue@.push(shortcut_command(shortcut).unwrap()),
{
    match shortcut {
        Shortcut::DeleteSelection => commands.delete_selection(),
        Shortcut::BeginRenameSelection => commands.begin_rename_selection(),
        Shortcut::TogglePlayback => commands.toggle_playback(),
        Shortcut::NudgeLeft(large) => commands.nudge_selection_left(large),
        Shortcut::NudgeRight(large) => commands.nudge_selection_right(large),
        Shortcut::NudgeUp(large) => commands.nudge_selection_up(large),
        Shortcut::NudgeDown(large) => commands.nudge_selection_down(large),
        Shortcut::SnapToPreviousFrame => commands.snap_to_previous_frame(),
        Shortcut::SnapToNextFrame => commands.snap_to_next_frame(),
        Shortcut::Undo => commands.undo(),
        Shortcut::Redo => commands.redo(),
        Shortcut::NewDocument => commands.begin_new_document(),
        Shortcut::OpenDocument => commands.begin_open_document(),
        Shortcut::BeginExportAs => commands.begin_export_as(),
        Shortcut::CloseCurrentDocument => commands.close_current_document(),
        Shortcut::CloseAllDocuments => commands.close_all_documents(),
        Shortcut::WorkbenchZoomIn => commands.workbench_zoom_in(),
        Shortcut::WorkbenchZoomOut => commands.workbench_zoom_out(),
        Shortcut::WorkbenchResetZoom => commands.workbench_reset_zoom(),
        Shortcut::TimelineZoomIn => commands.timeline_zoom_in(),
        Shortcut::TimelineZoomOut => commands.timeline_zoom_out(),
        Shortcut::TimelineResetZoom => commands.timeline_reset_zoom(),
        Shortcut::WorkbenchCenter => commands.workbench_center(),
        _ => {},
    }
    assert(commands.queue@ =~= old(commands).queue@.push(shortcut_command(shortcut).unwrap()));
}

/// Queues a save of every document, in order.
fn save_all(app_state: &AppState, commands: &mut CommandBuffer)
    requires
        app_state@.wf(),
    ensures
        saves_queued(old(commands).queue@, final(commands).queue@, app_state@.documents),
{
    let ghost before = commands.queue@;
    let mut i: usize = 0;
    while i < app_state.documents.len()
        invariant
            i <= app_state.documents.len(),
            app_state@.wf(),
            commands.queue@.len() == before.len() + i,
            commands.queue@.subrange(0, before.len() as int) == before,
            forall|j: int|
                0 <= j < i ==> is_save_of(
                    #[trigger] commands.queue@[before.len() + j],
                    app_state@.documents[j],
                ),
        decreases app_state.documents.len() - i,
    {
        let document = &app_state.documents[i];
        assert(app_state@.documents[i as int].wf());
        let ghost q = commands.queue@;
        commands.save(document.source.as_str(), &document.sheet, document.get_version());
        assert forall|j: int| 0 <= j < i + 1 implies is_save_of(
            #[trigger] commands.queue@[before.len() + j],
            app_state@.documents[j],
        ) by {
            if j < i {
                assert(commands.queue@[before.len() + j] == q[before.len() + j]);
            }
        }
        assert(commands.queue@.subrange(0, before.len() as int) =~= before);
        i += 1;
    }
}

/// Whether `command` saves `d` at its current version.
pub open spec fn is_save_of(command: Command, d: DocumentModel) -> bool {
    command matches Command::Async(AsyncCommand::Save(p, s, v)) && p@ == d.source && s@
        == d.state.sheet && v == d.version()
}

/// Whether `after` is `before` followed by a save of each document, in
/// order.
pub open spec fn saves_queued(before: Seq<Command>, after: Seq<Command>, documents: Seq<DocumentModel>) -> bool {
    &&& after.len() == before.len() + documents.len()
    &&& after.subrange(0, before.len() as int) == before
    &&& forall|j: int| 0 <= j < documents.len() ==> is_save_of(#[trigger] after[before.len() + j], documents[j])
}

/// Queues the commands that a shortcut stands for: saving and exporting act
/// on the current document, and do nothing without one.
pub fn issue_shortcut(shortcut: Shortcut, app_state: &AppState, commands: &mut CommandBuffer)
    requires
        app_state@.wf(),
    ensures
        shortcut_command(shortcut) is Some ==> final(commands).queue@ == old(commands).queue@.push(
            shortcut_command(shortcut).unwrap(),
        ),
        shortcut == Shortcut::SaveAll ==> saves_queued(
            old(commands).queue@,
            final(commands).queue@,
            app_state@.documents,
        ),
        shortcut == Shortcut::Save || shortcut == Shortcut::SaveAs || shortcut == Shortcut::Export
            ==> match app_state@.current_index() {
            None => final(commands).queue@ == old(commands).queue@,
            Some(i) => {
                let d = app_state@.documents[i];
                &&& final(commands).queue@.drop_last() == old(commands).queue@
                &&& final(commands).queue@.len() == old(commands).queue@.len() + 1
                &&& shortcut == Shortcut::Save ==> is_save_of(final(commands).queue@.last(), d)
                &&& shortcut == Shortcut::SaveAs ==> (final(commands).queue@.last() matches Command::Async(
                    AsyncCommand::SaveAs(p, s, v),
                ) && p@ == d.source && s@ == d.state.sheet && v == d.version())
                &&& shortcut == Shortcut::Export ==> (final(commands).queue@.last() matches Command::Async(
                    AsyncCommand::Export(s),
                ) && s@ == d.state.sheet)
            },
        },
{
    match shortcut {
        Shortcut::SaveAll => save_all(app_state, commands),
        Shortcut::Save | Shortcut::SaveAs | Shortcut::Export => {
            if let Some(document) = app_state.get_current_document() {
                proof {
                    crate::app_state::lemma_current_index_in_bounds(app_state@);
                    let i = app_state@.current_index().unwrap();
                    assert(app_state@.documents[i].wf());
                }
                match shortcut {
                    Shortcut::Save => commands.save(
                        document.source.as_str(),
                        &document.sheet,
                        document.get_version(),
                    ),
                    Shortcut::SaveAs => commands.save_as(
                        document.source.as_str(),
                        &document.sheet,
                        document.get_version(),
                    ),
                    _ => commands.export(&document.sheet),
                }
            }
        },
        _ => issue_simple(shortcut, commands),
    }
}

} // verus!
