//! Properties that hold across operations: of the undo history, of saving,
//! of the sheet's edits, of playback and of zooming.

use vstd::prelude::*;
use crate::command::DocumentCommand;
use crate::error::StateError;
use crate::document::{DocumentModel, EditState, recorded, redone, undone, with_state};
use crate::document_commands::after_command;
use crate::sheet::{
    AnimationFrameModel, SheetModel, ends_after, frame_at, frame_sources,
    lemma_start_time_step, sheet_with_frame, sheet_without_frame, start_time, total_duration,
};
use crate::transient::idle_transient;
use crate::app_state::{
    AppStateModel, relocation_moves, after_advance_exit, after_relocate_document, closed_all, closing_sources,
    document_sources, ready_to_close, relocated,
};
use crate::editing::{with_view, after_create_animation, after_select_animation_frame, after_update_timeline_scrub, next_start, previous_start};
use crate::document::{millis, workbench_animation};
use crate::view::DocumentViewModel;
use crate::geometry::{
    IntRect, all_loaded, bounding_box, centered_on_origin, centering_fits, frame_rect,
    frames_union, frames_union_fits, is_empty, loaded_size, union, union_fits,
};
use crate::hitbox_editing::{scale_fits, scaled_rectangle};
use crate::names::{fresh_name, is_first_free_name, lemma_candidates_bound, lemma_fresh_name, numbered_name};
use crate::selection_editing::step_from;
use crate::sheet::{
    AnimationModel, Rectangle, animation_names, first_index, lemma_first_index,
    lemma_first_index_found,
};
use crate::texture_cache::CacheEntry;
use crate::document::{CloseState, MAX_UNDO_HISTORY, opened_document};
use crate::paths::{spec_path_join, spec_path_pop, spec_same_path};
use crate::sheet::{
    ExportFormatModel, absolute_sheet, can_relativize, same_path_flags, export_settings_can_relativize,
    relative_path, relative_sheet, sheet_can_relativize,
};
use crate::transient::ResizeAxis;
use crate::view::{zoomed_in, zoomed_out};

verus! {

/// Whether the document's sheet and view are those of its current history
/// entry, as they are once a command has been recorded.
pub open spec fn in_step_with_history(d: DocumentModel) -> bool {
    d.state.sheet == d.current_entry().sheet && d.state.view == d.current_entry().view
}

/// Undoing a recorded change to the sheet gives back the sheet from before
/// the change, the view of the history entry the document was at, its
/// version and whether it was saved, and stops playback. The entry the
/// document was at moves down by one where the history was full and its
/// oldest entry was dropped. This holds of a document whose sheet is that
/// of its current history entry, as it is once its commands are recorded.
pub proof fn law_undo_restores(d: DocumentModel, command: DocumentCommand, s: EditState)
    requires
        d.wf(),
        d.can_use_undo_system(),
        d.state.sheet == d.current_entry().sheet,
        d.next_version < i32::MAX,
        s.transient == idle_transient(),
        s.sheet != d.state.sheet,
        s.persistent.disk_version == d.state.persistent.disk_version,
    ensures
        ({
            let changed = recorded(with_state(d, s), command);
            let u = undone(changed).unwrap();
            &&& undone(changed) is Ok
            &&& u.state.sheet == d.state.sheet
            &&& u.state.view == d.current_entry().view
            &&& u.current_entry() == d.current_entry()
            &&& u.version() == d.version()
            &&& u.is_saved() == d.is_saved()
            &&& !u.state.persistent.timeline_is_playing
            &&& u.history_index == if d.history_index + 1 < MAX_UNDO_HISTORY {
                d.history_index
            } else {
                d.history_index - 1
            }
        }),
{
    let changed = recorded(with_state(d, s), command);
    let grown = d.history.take(d.history_index + 1).push(changed.current_entry());
    assert(grown[d.history_index] == d.history[d.history_index]);
    if grown.len() > MAX_UNDO_HISTORY {
        assert(changed.history[d.history_index - 1] == grown[d.history_index]);
    } else {
        assert(changed.history[d.history_index] == grown[d.history_index]);
    }
}

/// Scrubbing the timeline changes neither the sheet nor the persistent
/// state.
proof fn lemma_scrub_keeps_sheet(s: EditState, time: int)
    ensures
        after_update_timeline_scrub(s, time) is Ok ==> after_update_timeline_scrub(s, time).unwrap().sheet
            == s.sheet && after_update_timeline_scrub(s, time).unwrap().persistent == s.persistent,
{
    reveal(after_update_timeline_scrub);
    if let Ok(a) = workbench_animation(s) {
        if total_duration(a.timeline) != 0 {
            let index = frame_at(a.timeline, crate::sheet::playback_time(a, millis(time)));
            if let Ok(s2) = after_select_animation_frame(s, index) {
                assert(s2.sheet == s.sheet);
                assert(s2.persistent == s.persistent);
                let r = with_view(s2, DocumentViewModel { timeline_clock: time as u128, ..s2.view });
                assert(after_update_timeline_scrub(s, time) == Ok::<EditState, StateError>(r));
                assert(r.sheet == s.sheet);
            }
        }
    }
}

/// A command that changes the sheet leaves the version last saved as it
/// was.
#[verifier::rlimit(100)]
#[verifier::spinoff_prover]
pub proof fn lemma_sheet_changes_keep_disk_version(st: EditState, command: DocumentCommand)
    requires
        after_command(st, command) is Ok,
        after_command(st, command).unwrap().sheet != st.sheet,
    ensures
        after_command(st, command).unwrap().persistent.disk_version == st.persistent.disk_version,
{
    match command {
        DocumentCommand::BeginExportAs => {
            assert(after_command(st, command).unwrap().persistent.disk_version == st.persistent.disk_version) by {
                reveal(after_command);
            }
        },
        DocumentCommand::EndSetExportTextureDestination(_, _) => {
            assert(after_command(st, command).unwrap().persistent.disk_version == st.persistent.disk_version) by {
                reveal(after_command);
            }
        },
        DocumentCommand::EndSetExportMetadataDestination(_, _) => {
            assert(after_command(st, command).unwrap().persistent.disk_version == st.persistent.disk_version) by {
                reveal(after_command);
            }
        },
        DocumentCommand::EndSetExportMetadataPathsRoot(_, _) => {
            assert(after_command(st, command).unwrap().persistent.disk_version == st.persistent.disk_version) by {
                reveal(after_command);
            }
        },
        DocumentCommand::EndSetExportFormat(_, _) => {
            assert(after_command(st, command).unwrap().persistent.disk_version == st.persistent.disk_version) by {
                reveal(after_command);
            }
        },
        DocumentCommand::CancelExportAs => {
            assert(after_command(st, command).unwrap().persistent.disk_version == st.persistent.disk_version) by {
                reveal(after_command);
            }
        },
        DocumentCommand::EndExportAs => {
            assert(after_command(st, command).unwrap().persistent.disk_version == st.persistent.disk_version) by {
                reveal(after_command);
            }
        },
        DocumentCommand::MarkAsSaved(_, _) => {
            assert(after_command(st, command).unwrap().persistent.disk_version == st.persistent.disk_version) by {
                reveal(after_command);
            }
        },
        DocumentCommand::EndImport(_, _) => {
            assert(after_command(st, command).unwrap().persistent.disk_version == st.persistent.disk_version) by {
                reveal(after_command);
            }
        },
        DocumentCommand::SwitchToContentTab(_) => {
            assert(after_command(st, command).unwrap().persistent.disk_version == st.persistent.disk_version) by {
                reveal(after_command);
            }
        },
        DocumentCommand::ClearSelection => {
            assert(after_command(st, command).unwrap().persistent.disk_version == st.persistent.disk_version) by {
                reveal(after_command);
            }
        },
        DocumentCommand::SelectFrame(_) => {
            assert(after_command(st, command).unwrap().persistent.disk_version == st.persistent.disk_version) by {
                reveal(after_command);
            }
        },
        DocumentCommand::SelectAnimation(_) => {
            assert(after_command(st, command).unwrap().persistent.disk_version == st.persistent.disk_version) by {
                reveal(after_command);
            }
        },
        DocumentCommand::SelectHitbox(_) => {
            assert(after_command(st, command).unwrap().persistent.disk_version == st.persistent.disk_version) by {
                reveal(after_command);
            }
        },
        DocumentCommand::SelectAnimationFrame(_) => {
            assert(after_command(st, command).unwrap().persistent.disk_version == st.persistent.disk_version) by {
                reveal(after_command);
            }
        },
        DocumentCommand::SelectPrevious => {
            assert(after_command(st, command).unwrap().persistent.disk_version == st.persistent.disk_version) by {
                reveal(after_command);
            }
        },
        DocumentCommand::SelectNext => {
            assert(after_command(st, command).unwrap().persistent.disk_version == st.persistent.disk_version) by {
                reveal(after_command);
            }
        },
        DocumentCommand::EditFrame(_) => {
            assert(after_command(st, command).unwrap().persistent.disk_version == st.persistent.disk_version) by {
                reveal(after_command);
            }
        },
        DocumentCommand::EditAnimation(_) => {
            assert(after_command(st, command).unwrap().persistent.disk_version == st.persistent.disk_version) by {
                reveal(after_command);
            }
        },
        DocumentCommand::CreateAnimation => {
            assert(after_command(st, command).unwrap().persistent.disk_version == st.persistent.disk_version) by {
                reveal(after_command);
            }
        },
        DocumentCommand::BeginFrameDrag(_) => {
            assert(after_command(st, command).unwrap().persistent.disk_version == st.persistent.disk_version) by {
                reveal(after_command);
            }
        },
        DocumentCommand::EndFrameDrag => {
            assert(after_command(st, command).unwrap().persistent.disk_version == st.persistent.disk_version) by {
                reveal(after_command);
            }
        },
        DocumentCommand::InsertAnimationFrameBefore(_, _) => {
            assert(after_command(st, command).unwrap().persistent.disk_version == st.persistent.disk_version) by {
                reveal(after_command);
            }
        },
        DocumentCommand::ReorderAnimationFrame(_, _) => {
            assert(after_command(st, command).unwrap().persistent.disk_version == st.persistent.disk_version) by {
                reveal(after_command);
            }
        },
        DocumentCommand::BeginAnimationFrameDurationDrag(_) => {
            assert(after_command(st, command).unwrap().persistent.disk_version == st.persistent.disk_version) by {
                reveal(after_command);
            }
        },
        DocumentCommand::UpdateAnimationFrameDurationDrag(_) => {
            assert(after_command(st, command).unwrap().persistent.disk_version == st.persistent.disk_version) by {
                reveal(after_command);
            }
        },
        DocumentCommand::EndAnimationFrameDurationDrag => {
            assert(after_command(st, command).unwrap().persistent.disk_version == st.persistent.disk_version) by {
                reveal(after_command);
            }
        },
        DocumentCommand::BeginAnimationFrameDrag(_) => {
            assert(after_command(st, command).unwrap().persistent.disk_version == st.persistent.disk_version) by {
                reveal(after_command);
            }
        },
        DocumentCommand::EndAnimationFrameDrag => {
            assert(after_command(st, command).unwrap().persistent.disk_version == st.persistent.disk_version) by {
                reveal(after_command);
            }
        },
        DocumentCommand::BeginAnimationFrameOffsetDrag(_) => {
            assert(after_command(st, command).unwrap().persistent.disk_version == st.persistent.disk_version) by {
                reveal(after_command);
            }
        },
        DocumentCommand::UpdateAnimationFrameOffsetDrag(_) => {
            assert(after_command(st, command).unwrap().persistent.disk_version == st.persistent.disk_version) by {
                reveal(after_command);
            }
        },
        DocumentCommand::EndAnimationFrameOffsetDrag => {
            assert(after_command(st, command).unwrap().persistent.disk_version == st.persistent.disk_version) by {
                reveal(after_command);
            }
        },
        DocumentCommand::WorkbenchZoomIn => {
            assert(after_command(st, command).unwrap().persistent.disk_version == st.persistent.disk_version) by {
                reveal(after_command);
            }
        },
        DocumentCommand::WorkbenchZoomOut => {
            assert(after_command(st, command).unwrap().persistent.disk_version == st.persistent.disk_version) by {
                reveal(after_command);
            }
        },
        DocumentCommand::WorkbenchResetZoom => {
            assert(after_command(st, command).unwrap().persistent.disk_version == st.persistent.disk_version) by {
                reveal(after_command);
            }
        },
        DocumentCommand::WorkbenchCenter => {
            assert(after_command(st, command).unwrap().persistent.disk_version == st.persistent.disk_version) by {
                reveal(after_command);
            }
        },
        DocumentCommand::Pan(_) => {
            assert(after_command(st, command).unwrap().persistent.disk_version == st.persistent.disk_version) by {
                reveal(after_command);
            }
        },
        DocumentCommand::CreateHitbox(_) => {
            assert(after_command(st, command).unwrap().persistent.disk_version == st.persistent.disk_version) by {
                reveal(after_command);
            }
        },
        DocumentCommand::BeginHitboxScale(_, _) => {
            assert(after_command(st, command).unwrap().persistent.disk_version == st.persistent.disk_version) by {
                reveal(after_command);
            }
        },
        DocumentCommand::UpdateHitboxScale(_) => {
            assert(after_command(st, command).unwrap().persistent.disk_version == st.persistent.disk_version) by {
                reveal(after_command);
            }
        },
        DocumentCommand::EndHitboxScale => {
            assert(after_command(st, command).unwrap().persistent.disk_version == st.persistent.disk_version) by {
                reveal(after_command);
            }
        },
        DocumentCommand::BeginHitboxDrag(_) => {
            assert(after_command(st, command).unwrap().persistent.disk_version == st.persistent.disk_version) by {
                reveal(after_command);
            }
        },
        DocumentCommand::UpdateHitboxDrag(_) => {
            assert(after_command(st, command).unwrap().persistent.disk_version == st.persistent.disk_version) by {
                reveal(after_command);
            }
        },
        DocumentCommand::EndHitboxDrag => {
            assert(after_command(st, command).unwrap().persistent.disk_version == st.persistent.disk_version) by {
                reveal(after_command);
            }
        },
        DocumentCommand::TogglePlayback => {
            assert(after_command(st, command).unwrap().persistent.disk_version == st.persistent.disk_version) by {
                reveal(after_command);
            }
        },
        DocumentCommand::SnapToPreviousFrame => {
            if let Ok(a) = workbench_animation(st) {
                if a.timeline.len() > 0 {
                    lemma_scrub_keeps_sheet(st, previous_start(a.timeline, millis(st.view.timeline_clock as int), a.timeline.len() - 1) * 1_000_000);
                }
            }
            assert(after_command(st, command).unwrap().persistent.disk_version == st.persistent.disk_version) by {
                reveal(after_command);
            }
        },
        DocumentCommand::SnapToNextFrame => {
            if let Ok(a) = workbench_animation(st) {
                if a.timeline.len() > 0 {
                    lemma_scrub_keeps_sheet(st, next_start(a.timeline, millis(st.view.timeline_clock as int), 0) * 1_000_000);
                }
            }
            assert(after_command(st, command).unwrap().persistent.disk_version == st.persistent.disk_version) by {
                reveal(after_command);
            }
        },
        DocumentCommand::ToggleLooping => {
            assert(after_command(st, command).unwrap().persistent.disk_version == st.persistent.disk_version) by {
                reveal(after_command);
            }
        },
        DocumentCommand::TimelineZoomIn => {
            assert(after_command(st, command).unwrap().persistent.disk_version == st.persistent.disk_version) by {
                reveal(after_command);
            }
        },
        DocumentCommand::TimelineZoomOut => {
            assert(after_command(st, command).unwrap().persistent.disk_version == st.persistent.disk_version) by {
                reveal(after_command);
            }
        },
        DocumentCommand::TimelineResetZoom => {
            assert(after_command(st, command).unwrap().persistent.disk_version == st.persistent.disk_version) by {
                reveal(after_command);
            }
        },
        DocumentCommand::BeginScrub => {
            assert(after_command(st, command).unwrap().persistent.disk_version == st.persistent.disk_version) by {
                reveal(after_command);
            }
        },
        DocumentCommand::UpdateScrub(time) => {
            lemma_scrub_keeps_sheet(st, time as int);
            assert(after_command(st, command).unwrap().persistent.disk_version == st.persistent.disk_version) by {
                reveal(after_command);
            }
        },
        DocumentCommand::EndScrub => {
            assert(after_command(st, command).unwrap().persistent.disk_version == st.persistent.disk_version) by {
                reveal(after_command);
            }
        },
        DocumentCommand::NudgeSelection(_, _) => {
            assert(after_command(st, command).unwrap().persistent.disk_version == st.persistent.disk_version) by {
                reveal(after_command);
            }
        },
        DocumentCommand::DeleteSelection => {
            assert(after_command(st, command).unwrap().persistent.disk_version == st.persistent.disk_version) by {
                reveal(after_command);
            }
        },
        DocumentCommand::BeginRenameSelection => {
            assert(after_command(st, command).unwrap().persistent.disk_version == st.persistent.disk_version) by {
                reveal(after_command);
            }
        },
        DocumentCommand::UpdateRenameSelection(_) => {
            assert(after_command(st, command).unwrap().persistent.disk_version == st.persistent.disk_version) by {
                reveal(after_command);
            }
        },
        DocumentCommand::EndRenameSelection => {
            assert(after_command(st, command).unwrap().persistent.disk_version == st.persistent.disk_version) by {
                reveal(after_command);
            }
        },
        DocumentCommand::Close => {
            assert(after_command(st, command).unwrap().persistent.disk_version == st.persistent.disk_version) by {
                reveal(after_command);
            }
        },
        DocumentCommand::CloseAfterSaving => {
            assert(after_command(st, command).unwrap().persistent.disk_version == st.persistent.disk_version) by {
                reveal(after_command);
            }
        },
        DocumentCommand::CloseWithoutSaving => {
            assert(after_command(st, command).unwrap().persistent.disk_version == st.persistent.disk_version) by {
                reveal(after_command);
            }
        },
        DocumentCommand::CancelClose => {
            assert(after_command(st, command).unwrap().persistent.disk_version == st.persistent.disk_version) by {
                reveal(after_command);
            }
        },
    }
}

/// Undoing a command that changed the sheet of a document, whose sheet was
/// that of its current history entry and which stays idle, gives back the
/// sheet, the version and whether it was saved, and stops playback.
pub proof fn law_undo_undoes_command(d: DocumentModel, command: DocumentCommand)
    requires
        d.wf(),
        d.can_use_undo_system(),
        d.state.sheet == d.current_entry().sheet,
        d.next_version < i32::MAX,
        after_command(d.state, command) is Ok,
        after_command(d.state, command).unwrap().transient == idle_transient(),
        after_command(d.state, command).unwrap().sheet != d.state.sheet,
    ensures
        ({
            let changed = recorded(with_state(d, after_command(d.state, command).unwrap()), command);
            let u = undone(changed).unwrap();
            &&& undone(changed) is Ok
            &&& u.state.sheet == d.state.sheet
            &&& u.version() == d.version()
            &&& u.is_saved() == d.is_saved()
            &&& !u.state.persistent.timeline_is_playing
        }),
{
    lemma_sheet_changes_keep_disk_version(d.state, command);
    law_undo_restores(d, command, after_command(d.state, command).unwrap());
}

/// Redoing an undone change to the sheet gives back the changed sheet, with
/// nothing left to redo; a further redo changes nothing.
pub proof fn law_redo_after_undo(d: DocumentModel, command: DocumentCommand, s: EditState)
    requires
        d.wf(),
        d.can_use_undo_system(),
        d.state.sheet == d.current_entry().sheet,
        d.next_version < i32::MAX,
        s.transient == idle_transient(),
        s.sheet != d.state.sheet,
    ensures
        ({
            let changed = recorded(with_state(d, s), command);
            let u = undone(changed).unwrap();
            let r = redone(u).unwrap();
            &&& redone(u) is Ok
            &&& r.state.sheet == s.sheet
            &&& r.history_index == r.history.len() - 1
            &&& redone(r) == Ok::<DocumentModel, StateError>(r)
        }),
{
    let changed = recorded(with_state(d, s), command);
    let grown = d.history.take(d.history_index + 1).push(changed.current_entry());
    assert(changed.history_index == changed.history.len() - 1);
    assert(changed.current_entry().sheet == s.sheet);
}

/// Undo steps back one history entry, and changes nothing at the first; the
/// history holding at most `MAX_UNDO_HISTORY` entries, at most
/// `MAX_UNDO_HISTORY - 1` undos in a row change anything.
pub proof fn law_undo_steps_back_one(d: DocumentModel)
    requires
        d.wf(),
        d.can_use_undo_system(),
    ensures
        d.history_index < MAX_UNDO_HISTORY,
        d.history_index == 0 ==> undone(d) == Ok::<DocumentModel, StateError>(d),
        d.history_index > 0 ==> undone(d) is Ok && undone(d).unwrap().history_index == d.history_index - 1
            && undone(d).unwrap().history == d.history,
{
}

/// Undoing then redoing comes back to the same history entry, with the
/// same sheet and view.
pub proof fn law_undo_then_redo(d: DocumentModel)
    requires
        d.wf(),
        d.can_use_undo_system(),
        in_step_with_history(d),
        d.history_index > 0,
    ensures
        undone(d) is Ok,
        redone(undone(d).unwrap()) is Ok,
        redone(undone(d).unwrap()).unwrap().state.sheet == d.state.sheet,
        redone(undone(d).unwrap()).unwrap().state.view == d.state.view,
        redone(undone(d).unwrap()).unwrap().history_index == d.history_index,
{
}

/// Redoing then undoing comes back to the same history entry, with the
/// same sheet and view.
pub proof fn law_redo_then_undo(d: DocumentModel)
    requires
        d.wf(),
        d.can_use_undo_system(),
        in_step_with_history(d),
        d.history_index < d.history.len() - 1,
    ensures
        redone(d) is Ok,
        undone(redone(d).unwrap()) is Ok,
        undone(redone(d).unwrap()).unwrap().state.sheet == d.state.sheet,
        undone(redone(d).unwrap()).unwrap().state.view == d.state.view,
        undone(redone(d).unwrap()).unwrap().history_index == d.history_index,
{
}

/// Marking a document as saved at its own version makes it saved.
pub proof fn law_mark_as_saved(d: DocumentModel, path: String)
    requires
        d.wf(),
        in_step_with_history(d),
    ensures
        ({
            let command = DocumentCommand::MarkAsSaved(path, d.version());
            &&& after_command(d.state, command) is Ok
            &&& recorded(with_state(d, after_command(d.state, command).unwrap()), command).is_saved()
        }),
{
    reveal(after_command);
}

/// A recorded change to the sheet of a document leaves it unsaved, the
/// version last saved being one the document has had.
pub proof fn law_change_unsaves(d: DocumentModel, command: DocumentCommand, s: EditState)
    requires
        d.wf(),
        d.next_version < i32::MAX,
        d.state.persistent.disk_version <= d.next_version,
        s.persistent.disk_version == d.state.persistent.disk_version,
        s.transient == idle_transient(),
        s.sheet != d.current_entry().sheet,
    ensures
        !recorded(with_state(d, s), command).is_saved(),
{
}

/// A command that is refused while an interaction is under way records
/// nothing: the history and the version stay as they were.
pub proof fn law_busy_documents_record_nothing(d: DocumentModel, command: DocumentCommand)
    requires
        !d.can_use_undo_system(),
    ensures
        recorded(d, command) == d,
        undone(d) is Err,
        redone(d) is Err,
{
}

/// Importing a frame twice adds it once, and the sheet then has it. Two
/// paths are told apart as `Path`'s `==` tells them; that a path is the same
/// as itself comes from `Path` being `Eq`, and is the premise here.
pub proof fn law_add_frame_idempotent(s: SheetModel, path: Seq<char>)
    requires
        spec_same_path(path, path),
    ensures
        sheet_with_frame(sheet_with_frame(s, path), path) == sheet_with_frame(s, path),
        sheet_with_frame(s, path).has_frame(path),
{
    if !s.has_frame(path) {
        let t = sheet_with_frame(s, path);
        let flags = same_path_flags(frame_sources(t.frames), path);
        assert(frame_sources(t.frames)[t.frames.len() - 1] == path);
        assert(flags[t.frames.len() - 1] == true);
    }
}

/// Deleting a frame leaves no frame with the same path, and no animation
/// frame that shows the same path.
pub proof fn law_delete_frame_removes(s: SheetModel, path: Seq<char>)
    ensures
        !sheet_without_frame(s, path).has_frame(path),
        forall|i: int, j: int|
            0 <= i < sheet_without_frame(s, path).animations.len() && 0 <= j
                < sheet_without_frame(s, path).animations[i].timeline.len() ==> !spec_same_path(
                (#[trigger] sheet_without_frame(s, path).animations[i].timeline[j]).frame,
                path,
            ),
{
    broadcast use vstd::seq_lib::group_filter_ensures;

    let t = sheet_without_frame(s, path);
    let flags = same_path_flags(frame_sources(t.frames), path);
    assert forall|k: int| 0 <= k < flags.len() implies flags[k] != true by {
        s.frames.lemma_filter_pred(|f: crate::sheet::FrameModel| !spec_same_path(f.source, path), k);
    }
    assert forall|i: int, j: int|
        0 <= i < t.animations.len() && 0 <= j < t.animations[i].timeline.len() implies !spec_same_path(
        (#[trigger] t.animations[i].timeline[j]).frame,
        path,
    ) by {
        s.animations[i].timeline.lemma_filter_pred(
            |f: AnimationFrameModel| !spec_same_path(f.frame, path),
            j,
        );
    }
}

proof fn lemma_last_frame_ends_after(timeline: Seq<AnimationFrameModel>, t: int)
    requires
        0 <= t < total_duration(timeline),
    ensures
        timeline.len() > 0,
        ends_after(timeline, timeline.len() - 1, t),
{
    if timeline.len() == 0 {
        assert(total_duration(timeline) == 0);
    }
    let n = timeline.len() as int;
    assert(timeline.take(n) =~= timeline);
    assert(ends_after(timeline, n - 1, t));
}

proof fn find_first_ending(timeline: Seq<AnimationFrameModel>, t: int, k: int) -> (i: int)
    requires
        0 <= k < timeline.len(),
        ends_after(timeline, timeline.len() - 1, t),
        forall|j: int| 0 <= j < k ==> !ends_after(timeline, j, t),
    ensures
        k <= i < timeline.len(),
        ends_after(timeline, i, t),
        forall|j: int| 0 <= j < i ==> !ends_after(timeline, j, t),
    decreases timeline.len() - k,
{
    if ends_after(timeline, k, t) {
        k
    } else {
        find_first_ending(timeline, t, k + 1)
    }
}

/// At a time within an animation's duration, the frame shown is the one
/// whose span holds that time.
pub proof fn law_frame_at_covers(timeline: Seq<AnimationFrameModel>, t: int)
    requires
        0 <= t < total_duration(timeline),
    ensures
        0 <= frame_at(timeline, t) < timeline.len(),
        start_time(timeline, frame_at(timeline, t)) <= t,
        t < start_time(timeline, frame_at(timeline, t)) + timeline[frame_at(timeline, t)].duration,
{
    lemma_last_frame_ends_after(timeline, t);
    let i = find_first_ending(timeline, t, 0);
    crate::sheet::lemma_frame_at(timeline, t, i);
    lemma_start_time_step(timeline, i);
    if i > 0 {
        assert(!ends_after(timeline, i - 1, t));
    }
    if i == 0 {
        assert(timeline.take(0) =~= Seq::<AnimationFrameModel>::empty());
    }
}

/// Zooming never leaves the range between the two limits, once inside it.
pub proof fn law_zoom_stays_in_range(level: i32, min: i32, max: i32)
    requires
        min <= level <= max,
        min <= -2,
        1 <= max,
    ensures
        min <= zoomed_in(level, max) <= max,
        min <= zoomed_out(level, min) <= max,
{
}

proof fn first_free_from(names: Seq<Seq<char>>, base: Seq<char>, k: int) -> (r: int)
    requires
        1 <= k,
        forall|j: int| 1 <= j < k ==> names.contains(#[trigger] numbered_name(base, j)),
    ensures
        is_first_free_name(names, base, r),
    decreases names.len() + 1 - k,
{
    if !names.contains(numbered_name(base, k)) {
        k
    } else {
        lemma_candidates_bound(names, base, k);
        first_free_from(names, base, k + 1)
    }
}

/// Among "Name", "Name 2", "Name 3", ... some name is free, and the one
/// picked for a new item is one that no item has.
pub proof fn law_fresh_name_is_unused(names: Seq<Seq<char>>, base: Seq<char>)
    ensures
        exists|k: int| is_first_free_name(names, base, k),
        !names.contains(fresh_name(names, base)),
{
    let k = first_free_from(names, base, 1);
    lemma_fresh_name(names, base, k);
}

/// A new animation gets a name that no animation of the sheet had.
pub proof fn law_new_animation_name_is_unused(s: EditState)
    ensures
        !animation_names(s.sheet.animations).contains(
            after_create_animation(s).sheet.animations.last().name,
        ),
        after_create_animation(s).sheet.has_animation(
            after_create_animation(s).sheet.animations.last().name,
        ),
{
    law_fresh_name_is_unused(animation_names(s.sheet.animations), "New Animation"@);
    let t = after_create_animation(s).sheet;
    assert(animation_names(t.animations)[t.animations.len() - 1] == t.animations.last().name);
}

/// Resizing a hitbox by a handle that has not moved leaves it as it was.
pub proof fn law_scale_by_nothing(axis: ResizeAxis, origin: (i32, i32), size: (u32, u32))
    requires
        scale_fits(axis, origin, size, (0, 0)),
    ensures
        scaled_rectangle(axis, origin, size, (0, 0)) == (Rectangle { top_left: origin, size }),
{
}

/// Centering a box that is centered on the origin leaves it as it is.
pub proof fn law_centering_is_idempotent(r: IntRect)
    requires
        centering_fits(r),
    ensures
        centering_fits(centered_on_origin(r)),
        centered_on_origin(centered_on_origin(r)) == centered_on_origin(r),
{
}

/// Whether `outer` covers `inner`.
pub open spec fn covers(outer: IntRect, inner: IntRect) -> bool {
    &&& outer.origin.0 <= inner.origin.0
    &&& outer.origin.1 <= inner.origin.1
    &&& inner.origin.0 + inner.size.0 <= outer.origin.0 + outer.size.0
    &&& inner.origin.1 + inner.size.1 <= outer.origin.1 + outer.size.1
}

proof fn lemma_union_covers(a: IntRect, b: IntRect)
    requires
        !is_empty(b),
        !is_empty(a) ==> union_fits(a, b),
    ensures
        !is_empty(union(a, b)),
        covers(union(a, b), b),
        !is_empty(a) ==> covers(union(a, b), a),
{
}

proof fn lemma_bounding_box_covers(
    timeline: Seq<AnimationFrameModel>,
    cache: Seq<(Seq<char>, CacheEntry)>,
    n: int,
)
    requires
        0 <= n <= timeline.len(),
        all_loaded(timeline, cache, n),
        frames_union_fits(timeline, cache, n),
    ensures
        forall|i: int|
            0 <= i < n && !is_empty(frame_rect(timeline[i], loaded_size(cache, timeline[i].frame).unwrap()))
                ==> covers(
                frames_union(timeline, cache, n),
                #[trigger] frame_rect(timeline[i], loaded_size(cache, timeline[i].frame).unwrap()),
            ) && !is_empty(frames_union(timeline, cache, n)),
    decreases n,
{
    if n > 0 {
        assert(all_loaded(timeline, cache, n - 1));
        lemma_bounding_box_covers(timeline, cache, n - 1);
        let u = frames_union(timeline, cache, n - 1);
        let r = frame_rect(timeline[n - 1], loaded_size(cache, timeline[n - 1].frame).unwrap());
        if !is_empty(r) {
            lemma_union_covers(u, r);
        }
    }
}

/// The bounding box of an animation covers every frame that shows
/// something.
pub proof fn law_bounding_box_covers_frames(animation: AnimationModel, cache: Seq<(Seq<char>, CacheEntry)>)
    requires
        frames_union_fits(animation.timeline, cache, animation.timeline.len() as int),
        bounding_box(animation, cache) is Ok,
    ensures
        forall|i: int|
            0 <= i < animation.timeline.len() && !is_empty(
                frame_rect(
                    animation.timeline[i],
                    loaded_size(cache, animation.timeline[i].frame).unwrap(),
                ),
            ) ==> covers(
                bounding_box(animation, cache).unwrap(),
                #[trigger] frame_rect(
                    animation.timeline[i],
                    loaded_size(cache, animation.timeline[i].frame).unwrap(),
                ),
            ),
{
    lemma_bounding_box_covers(animation.timeline, cache, animation.timeline.len() as int);
}

/// Relocating a document moves it: where one document open at the same
/// path as `from` is not at the same path as `to`, the first such document
/// is now saved at `to`, and every other open document is at a path other
/// than the same path as `to`.
pub proof fn law_relocate_moves(a: AppStateModel, from: Seq<char>, to: Seq<char>)
    requires
        a.has_document(from),
        !spec_same_path(from, to),
        relocation_moves(a.documents, from, to),
    ensures
        after_relocate_document(a, from, to) is Ok,
        ({
            let docs = after_relocate_document(a, from, to).unwrap().documents;
            exists|m: int|
                0 <= m < docs.len() && docs[m].source == to && forall|k: int|
                    0 <= k < docs.len() && k != m ==> !spec_same_path(#[trigger] docs[k].source, to)
        }),
{
    broadcast use vstd::seq_lib::group_filter_ensures;

    let pred = |d: DocumentModel| !spec_same_path(d.source, to);
    let kept = a.documents.filter(pred);
    let flags = same_path_flags(document_sources(kept), from);
    lemma_first_index_found(flags, true);
    let m = first_index(flags, true);
    let docs = relocated(a.documents, from, to);
    assert(docs[m].source == to);
    assert(docs == after_relocate_document(a, from, to).unwrap().documents);
    assert forall|k: int| 0 <= k < docs.len() && k != m implies !spec_same_path(
        #[trigger] docs[k].source,
        to,
    ) by {
        assert(docs[k] == kept[k]);
        assert(pred(kept[k]));
    }
    assert(0 <= m < docs.len() && docs[m].source == to && forall|k: int|
        0 <= k < docs.len() && k != m ==> !spec_same_path(#[trigger] docs[k].source, to));
}

/// Selecting the next item and then the previous one comes back to the
/// item, where no two items share a name and the item is not the last.
pub proof fn law_next_then_previous(sorted: Seq<Seq<char>>, x: Seq<char>)
    requires
        sorted.no_duplicates(),
        sorted.contains(x),
        first_index(sorted, x) < sorted.len() - 1,
    ensures
        step_from(sorted, step_from(sorted, x, true).unwrap(), false) == Some(x),
{
    lemma_first_index_found(sorted, x);
    let i = first_index(sorted, x);
    let y = sorted[i + 1];
    assert(sorted.contains(y));
    lemma_first_index(sorted, y, i + 1);
}

/// Whether joining `dir` onto the path of `p` relative to `dir` gives back
/// `p`, as it does for a normalized absolute path inside or beside `dir`.
pub open spec fn joins_back(p: Seq<char>, dir: Seq<char>) -> bool {
    can_relativize(p, dir) && spec_path_join(dir, relative_path(p, dir)) == p
}

/// Whether every path of the sheet joins back from `dir`, its export
/// settings' paths included.
pub open spec fn sheet_joins_back(s: SheetModel, dir: Seq<char>) -> bool {
    &&& forall|i: int| 0 <= i < s.frames.len() ==> joins_back(#[trigger] s.frames[i].source, dir)
    &&& forall|i: int, j: int|
        0 <= i < s.animations.len() && 0 <= j < s.animations[i].timeline.len() ==> joins_back(
            #[trigger] s.animations[i].timeline[j].frame,
            dir,
        )
    &&& match s.export_settings {
        Some(e) => {
            &&& joins_back(e.texture_destination, dir)
            &&& joins_back(e.metadata_destination, dir)
            &&& joins_back(e.metadata_paths_root, dir)
            &&& match e.format {
                ExportFormatModel::Template(t) => joins_back(t, dir),
            }
        },
        None => true,
    }
}

/// A sheet saved to `file` and opened again from `file` is the sheet that
/// was saved, wherever each of its paths joins back from the file's
/// directory; the reopened document counts as saved.
pub proof fn law_save_then_open_restores(s: SheetModel, file: Seq<char>)
    requires
        sheet_joins_back(s, spec_path_pop(file)),
    ensures
        sheet_can_relativize(s, spec_path_pop(file)),
        opened_document(file, relative_sheet(s, spec_path_pop(file))).state.sheet == s,
        opened_document(file, relative_sheet(s, spec_path_pop(file))).is_saved(),
{
    let dir = spec_path_pop(file);
    let r = relative_sheet(s, dir);
    let a = absolute_sheet(r, dir);
    assert forall|i: int| 0 <= i < s.frames.len() implies can_relativize(
        #[trigger] s.frames[i].source,
        dir,
    ) by {
        assert(joins_back(s.frames[i].source, dir));
    }
    assert forall|i: int, j: int|
        0 <= i < s.animations.len() && 0 <= j < s.animations[i].timeline.len() implies can_relativize(
        #[trigger] s.animations[i].timeline[j].frame,
        dir,
    ) by {
        assert(joins_back(s.animations[i].timeline[j].frame, dir));
    }
    assert(a.frames =~= s.frames) by {
        assert forall|i: int| 0 <= i < s.frames.len() implies a.frames[i] == s.frames[i] by {
            assert(joins_back(s.frames[i].source, dir));
        }
    }
    assert(a.animations =~= s.animations) by {
        assert forall|i: int| 0 <= i < s.animations.len() implies a.animations[i] == s.animations[i] by {
            let t = s.animations[i].timeline;
            assert(a.animations[i].timeline =~= t) by {
                assert forall|j: int| 0 <= j < t.len() implies a.animations[i].timeline[j] == t[j] by {
                    assert(joins_back(s.animations[i].timeline[j].frame, dir));
                }
            }
        }
    }
    match s.export_settings {
        Some(e) => {
            match e.format {
                ExportFormatModel::Template(t) => {
                    assert(joins_back(t, dir));
                },
            }
            assert(export_settings_can_relativize(e, dir));
        },
        None => {},
    }
    assert(a == s);
}

/// Each path that `closing_sources` names is the source of a document that
/// may close.
proof fn lemma_closing_sources(documents: Seq<DocumentModel>, p: Seq<char>)
    requires
        closing_sources(documents).contains(p),
    ensures
        exists|j: int| 0 <= j < documents.len() && documents[j].source == p && ready_to_close(#[trigger] documents[j]),
    decreases documents.len(),
{
    let rest = closing_sources(documents.drop_last());
    if rest.contains(p) {
        lemma_closing_sources(documents.drop_last(), p);
        let j = choose|j: int|
            0 <= j < documents.drop_last().len() && documents.drop_last()[j].source == p && ready_to_close(
                #[trigger] documents.drop_last()[j],
            );
        assert(documents[j] == documents.drop_last()[j]);
    } else {
        let k = choose|k: int| 0 <= k < closing_sources(documents).len() && closing_sources(documents)[k] == p;
        if k < rest.len() {
            assert(rest[k] == p);
        }
        assert(documents[documents.len() - 1] == documents.last());
    }
}

/// Closing the documents at the same path as each of `paths` keeps open
/// the document at `p`, where `p` is not the same path as any of them.
proof fn lemma_closed_all_keeps(a: AppStateModel, paths: Seq<Seq<char>>, p: Seq<char>)
    requires
        document_sources(a.documents).contains(p),
        forall|k: int| 0 <= k < paths.len() ==> !spec_same_path(p, #[trigger] paths[k]),
    ensures
        document_sources(closed_all(a, paths).documents).contains(p),
    decreases paths.len(),
{
    if paths.len() > 0 {
        assert forall|k: int| 0 <= k < paths.drop_last().len() implies !spec_same_path(
            p,
            #[trigger] paths.drop_last()[k],
        ) by {
            assert(paths[k] == paths.drop_last()[k]);
        }
        lemma_closed_all_keeps(a, paths.drop_last(), p);
        let b = closed_all(a, paths.drop_last());
        let last = paths.last();
        assert(paths[paths.len() - 1] == last);
        assert(!spec_same_path(p, last));
        if b.has_document(last) {
            let flags = same_path_flags(document_sources(b.documents), last);
            let i = b.document_index(last);
            lemma_first_index_found(flags, true);
            let k = choose|k: int| 0 <= k < document_sources(b.documents).len() && document_sources(b.documents)[k] == p;
            assert(flags[k] == spec_same_path(p, last));
            let after = b.documents.remove(i);
            let kk = if k < i { k } else { k - 1 };
            assert(k != i);
            assert(document_sources(after)[kk] == p);
        }
    }
}

/// A document asked to close that still has unsaved changes is not closed
/// until the user chooses: it stays open while the editor advances, as
/// long as neither closing without saving nor a finished save came. This
/// holds where its path is not the same path as that of a document that
/// may close, as `Path`'s `==` keeps open documents apart.
pub proof fn law_unsaved_documents_stay_open(a: AppStateModel, i: int)
    requires
        a.wf(),
        0 <= i < a.documents.len(),
        a.documents[i].state.persistent.close_state != Some(CloseState::Allowed),
        !a.documents[i].is_saved(),
        forall|j: int|
            0 <= j < a.documents.len() && ready_to_close(#[trigger] a.documents[j]) ==> !spec_same_path(
                a.documents[i].source,
                a.documents[j].source,
            ),
    ensures
        document_sources(after_advance_exit(a).documents).contains(a.documents[i].source),
{
    let d = a.documents[i];
    let p = d.source;
    let paths = closing_sources(a.documents);
    assert forall|k: int| 0 <= k < paths.len() implies !spec_same_path(p, #[trigger] paths[k]) by {
        assert(paths.contains(paths[k]));
        lemma_closing_sources(a.documents, paths[k]);
        let j = choose|j: int|
            0 <= j < a.documents.len() && a.documents[j].source == paths[k] && ready_to_close(
                #[trigger] a.documents[j],
            );
    }
    assert(document_sources(a.documents)[i] == p);
    lemma_closed_all_keeps(a, paths, p);
}

/// A change to the view alone, recorded right after a history entry that
/// changed the sheet, is a history step of its own: one undo then gives
/// back the view from before it and leaves the sheet as it is.
pub proof fn law_view_change_after_sheet_change_is_its_own_step(
    d: DocumentModel,
    command: DocumentCommand,
    s: EditState,
)
    requires
        d.wf(),
        d.can_use_undo_system(),
        d.next_version < i32::MAX,
        d.history_index > 0,
        d.history[d.history_index - 1].sheet != d.current_entry().sheet,
        s.transient == idle_transient(),
        s.sheet == d.current_entry().sheet,
        s.view != d.current_entry().view,
    ensures
        ({
            let changed = recorded(with_state(d, s), command);
            let u = undone(changed).unwrap();
            &&& changed.state.view == s.view
            &&& undone(changed) is Ok
            &&& u.state.sheet == d.current_entry().sheet
            &&& u.state.view == d.current_entry().view
            &&& u.version() == d.version()
        }),
{
    let changed = recorded(with_state(d, s), command);
    let grown = d.history.take(d.history_index + 1).push(changed.current_entry());
    assert(grown[d.history_index] == d.history[d.history_index]);
    if grown.len() > MAX_UNDO_HISTORY {
        assert(changed.history[d.history_index - 1] == grown[d.history_index]);
    } else {
        assert(changed.history[d.history_index] == grown[d.history_index]);
    }
}

/// Changes to the view alone in a row, after an entry that left the sheet
/// as it was, are one history step: the current entry takes the new view,
/// the history keeps its length, and one undo goes back past all of them.
pub proof fn law_view_changes_in_a_row_merge(d: DocumentModel, command: DocumentCommand, s: EditState)
    requires
        d.wf(),
        d.can_use_undo_system(),
        d.history_index > 0,
        d.history[d.history_index - 1].sheet == d.current_entry().sheet,
        s.transient == idle_transient(),
        s.sheet == d.current_entry().sheet,
        s.view != d.current_entry().view,
    ensures
        ({
            let changed = recorded(with_state(d, s), command);
            &&& changed.history.len() == d.history.len()
            &&& changed.history_index == d.history_index
            &&& changed.current_entry().view == s.view
            &&& changed.current_entry().sheet == d.current_entry().sheet
            &&& undone(changed) is Ok
            &&& undone(changed).unwrap().state.view == d.history[d.history_index - 1].view
        }),
{
}

/// The left and right edges of a rectangle.
pub open spec fn horizontal_extent(r: Rectangle) -> (int, int) {
    (r.top_left.0 as int, r.top_left.0 + r.size.0)
}

/// The top and bottom edges of a rectangle.
pub open spec fn vertical_extent(r: Rectangle) -> (int, int) {
    (r.top_left.1 as int, r.top_left.1 + r.size.1)
}

/// Resizing a hitbox by a handle moves only the edges that the handle
/// holds: the N and S handles keep the left and right edges whatever the
/// horizontal part of the drag, the W and E handles keep the top and
/// bottom edges; a dragged edge moves by the drag, and the edge across
/// from it stays, as long as the drag does not carry it past that edge.
pub proof fn law_resize_moves_only_the_held_edges(
    axis: ResizeAxis,
    origin: (i32, i32),
    size: (u32, u32),
    d: (i32, i32),
)
    requires
        scale_fits(axis, origin, size, d),
    ensures
        ({
            let r = scaled_rectangle(axis, origin, size, d);
            let left = origin.0 as int;
            let right = origin.0 + size.0;
            let top = origin.1 as int;
            let bottom = origin.1 + size.1;
            &&& (axis == ResizeAxis::N || axis == ResizeAxis::S) ==> horizontal_extent(r) == (left, right)
            &&& (axis == ResizeAxis::W || axis == ResizeAxis::E) ==> vertical_extent(r) == (top, bottom)
            &&& (axis == ResizeAxis::W || axis == ResizeAxis::NW || axis == ResizeAxis::SW) && left + d.0
                <= right ==> horizontal_extent(r) == (left + d.0, right)
            &&& (axis == ResizeAxis::E || axis == ResizeAxis::NE || axis == ResizeAxis::SE) && right + d.0
                >= left ==> horizontal_extent(r) == (left, right + d.0)
            &&& (axis == ResizeAxis::N || axis == ResizeAxis::NW || axis == ResizeAxis::NE) && top + d.1
                <= bottom ==> vertical_extent(r) == (top + d.1, bottom)
            &&& (axis == ResizeAxis::S || axis == ResizeAxis::SW || axis == ResizeAxis::SE) && bottom + d.1
                >= top ==> vertical_extent(r) == (top, bottom + d.1)
            &&& (axis == ResizeAxis::W || axis == ResizeAxis::NW || axis == ResizeAxis::SW) && left + d.0
                > right ==> horizontal_extent(r) == (right, left + d.0)
            &&& (axis == ResizeAxis::E || axis == ResizeAxis::NE || axis == ResizeAxis::SE) && right + d.0
                < left ==> horizontal_extent(r) == (right + d.0, left)
            &&& (axis == ResizeAxis::N || axis == ResizeAxis::NW || axis == ResizeAxis::NE) && top + d.1
                > bottom ==> vertical_extent(r) == (bottom, top + d.1)
            &&& (axis == ResizeAxis::S || axis == ResizeAxis::SW || axis == ResizeAxis::SE) && bottom + d.1
                < top ==> vertical_extent(r) == (bottom + d.1, top)
        }),
{
}

/// The export data of the frames holds one entry per frame of the sheet, in
/// the sheet's order: the entry at position `i` is that of the frame at
/// position `i`, with index `i`, and with the position and size its
/// packing gave it.
pub proof fn law_exported_frames_follow_the_sheet(
    sheet: SheetModel,
    layout: Seq<(Seq<char>, crate::export::PackedFrame)>,
    n: int,
)
    requires
        0 <= n <= sheet.frames.len(),
        sheet.frames.len() <= i32::MAX,
        crate::export::frames_data(sheet, layout, n) is Ok,
    ensures
        ({
            let data = crate::export::frames_data(sheet, layout, n).unwrap();
            &&& data.len() == n
            &&& forall|i: int| 0 <= i < n ==> {
                &&& (#[trigger] data[i]).index == i
                &&& data[i].source == sheet.frames[i].source
                &&& crate::export::packed(layout, sheet.frames[i].source) matches Some(p)
                &&& data[i].x == p.position_in_sheet.0 as i32
                &&& data[i].y == p.position_in_sheet.1 as i32
                &&& data[i].width == p.size_in_sheet.0 as i32
                &&& data[i].height == p.size_in_sheet.1 as i32
            }
        }),
    decreases n,
{
    reveal(crate::export::frame_data);
    if n > 0 {
        law_exported_frames_follow_the_sheet(sheet, layout, n - 1);
        let done = crate::export::frames_data(sheet, layout, n - 1).unwrap();
        let data = crate::export::frames_data(sheet, layout, n).unwrap();
        assert forall|i: int| 0 <= i < n implies (#[trigger] data[i]).index == i by {
            if i < n - 1 {
                assert(data[i] == done[i]);
            }
        }
        assert forall|i: int| 0 <= i < n implies {
            &&& (#[trigger] data[i]).source == sheet.frames[i].source
            &&& crate::export::packed(layout, sheet.frames[i].source) matches Some(p)
            &&& data[i].x == p.position_in_sheet.0 as i32
            &&& data[i].y == p.position_in_sheet.1 as i32
            &&& data[i].width == p.size_in_sheet.0 as i32
            &&& data[i].height == p.size_in_sheet.1 as i32
        } by {
            if i < n - 1 {
                assert(data[i] == done[i]);
            }
        }
    }
}

/// Every frame of `timeline` is found, after the frame at `old_index` moved
/// before the one at `new_index`, at the position `reordered_index` gives.
pub proof fn lemma_reordered_positions(
    timeline: Seq<AnimationFrameModel>,
    old_index: int,
    new_index: int,
    i: int,
)
    requires
        0 <= old_index < timeline.len(),
        0 <= new_index <= timeline.len(),
        old_index != new_index,
        0 <= i < timeline.len(),
    ensures
        crate::sheet::reordered(timeline, old_index, new_index).len() == timeline.len(),
        0 <= crate::editing::reordered_index(i, old_index, new_index) < timeline.len(),
        crate::sheet::reordered(timeline, old_index, new_index)[crate::editing::reordered_index(
            i,
            old_index,
            new_index,
        )] == timeline[i],
{
    let rest = timeline.remove(old_index);
    if i < old_index {
        assert(rest[i] == timeline[i]);
    } else if i > old_index {
        assert(rest[i - 1] == timeline[i]);
    }
}

/// Reordering the frames of the animation in the workbench keeps a selected
/// frame of it selected: the selection then points at the same frame as
/// before, wherever it moved.
pub proof fn law_reorder_keeps_the_selected_frame(
    s: EditState,
    old_index: usize,
    new_index: usize,
    i: usize,
)
    requires
        workbench_animation(s) is Ok,
        s.view.selection == Some(
            crate::view::SelectionModel::AnimationFrame(crate::editing::workbench_animation_name(s), i),
        ),
        i < workbench_animation(s).unwrap().timeline.len(),
        crate::editing::after_reorder_animation_frame(s, old_index as int, new_index as int) is Ok,
    ensures
        ({
            let t = crate::editing::after_reorder_animation_frame(s, old_index as int, new_index as int).unwrap();
            let name = crate::editing::workbench_animation_name(s);
            let k = s.sheet.animation_index(name);
            t.view.selection matches Some(crate::view::SelectionModel::AnimationFrame(n, j)) && n == name
                && j < t.sheet.animations[k].timeline.len() && t.sheet.animations[k].timeline[j as int]
                == workbench_animation(s).unwrap().timeline[i as int]
        }),
{
    let a = workbench_animation(s).unwrap();
    let name = crate::editing::workbench_animation_name(s);
    let k = s.sheet.animation_index(name);
    crate::sheet::lemma_first_index_found(animation_names(s.sheet.animations), name);
    assert(a == s.sheet.animations[k]);
    if old_index != new_index {
        lemma_reordered_positions(a.timeline, old_index as int, new_index as int, i as int);
        let t = crate::editing::after_reorder_animation_frame(s, old_index as int, new_index as int).unwrap();
        let j = crate::editing::reordered_index(i as int, old_index as int, new_index as int);
        assert(t.sheet.animations[k].timeline == crate::sheet::reordered(a.timeline, old_index as int, new_index as int));
        assert(t.view.selection == Some(
            crate::view::SelectionModel::AnimationFrame(name, j as usize),
        ));
        assert((j as usize) as int == j);
    }
}

/// Zooming out from a level above 1 halves it, and zooming out undoes
/// zooming in from any level of at least 1 whose double stays under the
/// cap.
pub proof fn law_zoom_out_halves(level: i32, min: i32, max: i32)
    requires
        min < 1,
    ensures
        level > 1 ==> 2 * zoomed_out(level, min) <= level <= 2 * zoomed_out(level, min) + 1,
        1 <= level && 2 * level <= max ==> zoomed_out(zoomed_in(level, max), min) == level,
        zoomed_out(1, min) == if min < -2 { -2i32 } else { min },
{
}

/// Moving the frame at `old_index` before the one at `new_index` keeps
/// every frame and places the moved one right before the frame that was at
/// `new_index`, or last where `new_index` is the end of the timeline.
pub proof fn law_reorder_places_the_frame(timeline: Seq<AnimationFrameModel>, old_index: int, new_index: int)
    requires
        0 <= old_index < timeline.len(),
        0 <= new_index <= timeline.len(),
        old_index != new_index,
    ensures
        ({
            let r = crate::sheet::reordered(timeline, old_index, new_index);
            let p = if new_index > old_index { new_index - 1 } else { new_index };
            &&& r.len() == timeline.len()
            &&& r.to_multiset() == timeline.to_multiset()
            &&& r[p] == timeline[old_index]
            &&& new_index < timeline.len() ==> r[p + 1] == timeline[new_index]
            &&& new_index == timeline.len() ==> p == r.len() - 1
        }),
{
    broadcast use vstd::seq_lib::group_to_multiset_ensures;

    let r = crate::sheet::reordered(timeline, old_index, new_index);
    let rest = timeline.remove(old_index);
    let p = if new_index > old_index { new_index - 1 } else { new_index };
    if new_index < timeline.len() {
        lemma_reordered_positions(timeline, old_index, new_index, new_index);
    }
    vstd::seq_lib::to_multiset_remove(timeline, old_index);
    vstd::seq_lib::to_multiset_insert(rest, p, timeline[old_index]);
    assert(r.to_multiset() =~= timeline.to_multiset());
}

/// Zooming in undoes zooming out: from any level of -2 or below whose
/// double stays above the floor, and from 1 where -2 is above the floor.
pub proof fn law_zoom_in_undoes_zoom_out(level: i32, min: i32, max: i32)
    requires
        max > 1,
    ensures
        level <= -2 && min <= 2 * level ==> zoomed_in(zoomed_out(level, min), max) == level,
        min <= -2 ==> zoomed_in(zoomed_out(1, min), max) == 1,
{
}

} // verus!
