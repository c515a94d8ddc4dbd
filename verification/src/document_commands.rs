//! Carrying out a command on a document, and recording it in the undo
//! history.

use vstd::prelude::*;
use crate::command::DocumentCommand;
use crate::document::{CloseState, Document, EditState, PersistentModel, recorded, with_state};
use crate::editing::{
    after_begin_animation_frame_drag, after_begin_animation_frame_duration_drag,
    after_begin_animation_frame_offset_drag, after_begin_frame_drag, after_clear_selection,
    after_create_animation, after_edit_animation, after_edit_frame,
    after_end_animation_frame_duration_drag, after_end_animation_frame_offset_drag,
    after_insert_animation_frame_before, after_reorder_animation_frame, after_select_animation,
    after_select_animation_frame, after_select_frame, after_select_hitbox,
    after_snap_to_next_frame, after_snap_to_previous_frame, after_toggle_looping,
    after_toggle_playback, after_update_animation_frame_duration_drag,
    after_update_animation_frame_offset_drag, after_update_timeline_scrub, applied,
    can_resize_frame, offset_fits, resized_animation, with_sheet, with_transient, with_view,
};
use crate::error::StateError;
use crate::export_editing::{
    after_begin_export_as, after_cancel_export_as, after_edit_export_settings, after_end_export_as,
};
use crate::hitbox_editing::{
    after_begin_hitbox_drag, after_begin_hitbox_scale, after_create_hitbox, after_end_hitbox_drag,
    after_end_hitbox_scale, after_update_hitbox_drag, after_update_hitbox_scale, hitbox_scale_fits,
};
use crate::selection_editing::{
    after_advance_selection, after_begin_rename_selection, after_delete_selection,
    after_end_rename_selection, after_nudge_selection, nudge_fits,
};
use crate::sheet::{ExportSettingsModel, sheet_with_frame};
use crate::transient::TransientModel;
use crate::view::{
    DocumentViewModel, MAX_TIMELINE_ZOOM_LEVEL, MAX_WORKBENCH_ZOOM_LEVEL, MIN_TIMELINE_ZOOM_LEVEL,
    MIN_WORKBENCH_ZOOM_LEVEL, saturating_add_i32, zoom_level_in_range, zoomed_in, zoomed_out,
};

verus! {

/// What `command` makes of a document's state `s`, or the error it fails
/// with.
#[verifier::opaque]
pub open spec fn after_command(s: EditState, command: DocumentCommand) -> Result<EditState, StateError> {
    let t = s.transient;
    let v = s.view;
    match command {
        DocumentCommand::MarkAsSaved(_, version) => Ok(
            EditState {
                persistent: PersistentModel { disk_version: version, ..s.persistent },
                ..s
            },
        ),
        DocumentCommand::EndImport(_, f) => Ok(with_sheet(s, sheet_with_frame(s.sheet, f@))),
        DocumentCommand::BeginExportAs => Ok(after_begin_export_as(s)),
        DocumentCommand::CancelExportAs => Ok(after_cancel_export_as(s)),
        DocumentCommand::EndSetExportTextureDestination(_, d) => after_edit_export_settings(
            s,
            |e: ExportSettingsModel| ExportSettingsModel { texture_destination: d@, ..e },
        ),
        DocumentCommand::EndSetExportMetadataDestination(_, d) => after_edit_export_settings(
            s,
            |e: ExportSettingsModel| ExportSettingsModel { metadata_destination: d@, ..e },
        ),
        DocumentCommand::EndSetExportMetadataPathsRoot(_, d) => after_edit_export_settings(
            s,
            |e: ExportSettingsModel| ExportSettingsModel { metadata_paths_root: d@, ..e },
        ),
        DocumentCommand::EndSetExportFormat(_, f) => after_edit_export_settings(
            s,
            |e: ExportSettingsModel| ExportSettingsModel { format: f@, ..e },
        ),
        DocumentCommand::EndExportAs => after_end_export_as(s),
        DocumentCommand::SwitchToContentTab(tab) => Ok(
            with_view(s, DocumentViewModel { content_tab: tab, ..v }),
        ),
        DocumentCommand::ClearSelection => Ok(after_clear_selection(s)),
        DocumentCommand::SelectFrame(p) => after_select_frame(s, p@),
        DocumentCommand::SelectAnimation(n) => after_select_animation(s, n@),
        DocumentCommand::SelectHitbox(n) => after_select_hitbox(s, n@),
        DocumentCommand::SelectAnimationFrame(i) => after_select_animation_frame(s, i as int),
        DocumentCommand::SelectPrevious => after_advance_selection(s, false),
        DocumentCommand::SelectNext => after_advance_selection(s, true),
        DocumentCommand::EditFrame(p) => after_edit_frame(s, p@),
        DocumentCommand::EditAnimation(n) => after_edit_animation(s, n@),
        DocumentCommand::CreateAnimation => Ok(after_create_animation(s)),
        DocumentCommand::BeginFrameDrag(f) => Ok(after_begin_frame_drag(s, f@)),
        DocumentCommand::EndFrameDrag => Ok(
            with_transient(s, TransientModel { content_frame_being_dragged: None, ..t }),
        ),
        DocumentCommand::InsertAnimationFrameBefore(f, i) => after_insert_animation_frame_before(
            s,
            f@,
            i as int,
        ),
        DocumentCommand::ReorderAnimationFrame(a, b) => after_reorder_animation_frame(
            s,
            a as int,
            b as int,
        ),
        DocumentCommand::BeginAnimationFrameDurationDrag(i) => after_begin_animation_frame_duration_drag(
            s,
            i as int,
        ),
        DocumentCommand::UpdateAnimationFrameDurationDrag(d) => after_update_animation_frame_duration_drag(
            s,
            d,
        ),
        DocumentCommand::EndAnimationFrameDurationDrag => Ok(after_end_animation_frame_duration_drag(s)),
        DocumentCommand::BeginAnimationFrameDrag(i) => after_begin_animation_frame_drag(s, i as int),
        DocumentCommand::EndAnimationFrameDrag => Ok(
            with_transient(s, TransientModel { timeline_frame_being_dragged: None, ..t }),
        ),
        DocumentCommand::BeginAnimationFrameOffsetDrag(i) => after_begin_animation_frame_offset_drag(
            s,
            i as int,
        ),
        DocumentCommand::UpdateAnimationFrameOffsetDrag(d) => after_update_animation_frame_offset_drag(
            s,
            d,
        ),
        DocumentCommand::EndAnimationFrameOffsetDrag => Ok(after_end_animation_frame_offset_drag(s)),
        DocumentCommand::WorkbenchZoomIn => Ok(
            with_view(
                s,
                DocumentViewModel {
                    workbench_zoom_level: zoomed_in(v.workbench_zoom_level, MAX_WORKBENCH_ZOOM_LEVEL),
                    ..v
                },
            ),
        ),
        DocumentCommand::WorkbenchZoomOut => Ok(
            with_view(
                s,
                DocumentViewModel {
                    workbench_zoom_level: zoomed_out(v.workbench_zoom_level, MIN_WORKBENCH_ZOOM_LEVEL),
                    ..v
                },
            ),
        ),
        DocumentCommand::WorkbenchResetZoom => Ok(
            with_view(s, DocumentViewModel { workbench_zoom_level: 1, ..v }),
        ),
        DocumentCommand::WorkbenchCenter => Ok(
            with_view(s, DocumentViewModel { workbench_offset: (0, 0), ..v }),
        ),
        DocumentCommand::Pan(d) => Ok(
            with_view(
                s,
                DocumentViewModel {
                    workbench_offset: (
                        saturating_add_i32(v.workbench_offset.0, d.0),
                        saturating_add_i32(v.workbench_offset.1, d.1),
                    ),
                    ..v
                },
            ),
        ),
        DocumentCommand::CreateHitbox(p) => after_create_hitbox(s, p),
        DocumentCommand::BeginHitboxScale(n, axis) => after_begin_hitbox_scale(s, n@, axis),
        DocumentCommand::UpdateHitboxScale(d) => after_update_hitbox_scale(s, d),
        DocumentCommand::EndHitboxScale => after_end_hitbox_scale(s),
        DocumentCommand::BeginHitboxDrag(n) => after_begin_hitbox_drag(s, n@),
        DocumentCommand::UpdateHitboxDrag(d) => after_update_hitbox_drag(s, d),
        DocumentCommand::EndHitboxDrag => Ok(after_end_hitbox_drag(s)),
        DocumentCommand::TogglePlayback => after_toggle_playback(s),
        DocumentCommand::SnapToPreviousFrame => after_snap_to_previous_frame(s),
        DocumentCommand::SnapToNextFrame => after_snap_to_next_frame(s),
        DocumentCommand::ToggleLooping => after_toggle_looping(s),
        DocumentCommand::TimelineZoomIn => Ok(
            with_view(
                s,
                DocumentViewModel {
                    timeline_zoom_level: zoomed_in(v.timeline_zoom_level, MAX_TIMELINE_ZOOM_LEVEL),
                    ..v
                },
            ),
        ),
        DocumentCommand::TimelineZoomOut => Ok(
            with_view(
                s,
                DocumentViewModel {
                    timeline_zoom_level: zoomed_out(v.timeline_zoom_level, MIN_TIMELINE_ZOOM_LEVEL),
                    ..v
                },
            ),
        ),
        DocumentCommand::TimelineResetZoom => Ok(
            with_view(s, DocumentViewModel { timeline_zoom_level: 1, ..v }),
        ),
        DocumentCommand::BeginScrub => Ok(
            with_transient(s, TransientModel { timeline_scrubbing: true, ..t }),
        ),
        DocumentCommand::UpdateScrub(time) => after_update_timeline_scrub(s, time as int),
        DocumentCommand::EndScrub => Ok(
            with_transient(s, TransientModel { timeline_scrubbing: false, ..t }),
        ),
        DocumentCommand::NudgeSelection(d, large) => after_nudge_selection(s, d, large),
        DocumentCommand::DeleteSelection => Ok(after_delete_selection(s)),
        DocumentCommand::BeginRenameSelection => after_begin_rename_selection(s),
        DocumentCommand::UpdateRenameSelection(n) => Ok(
            with_transient(s, TransientModel { rename_buffer: Some(n@), ..t }),
        ),
        DocumentCommand::EndRenameSelection => after_end_rename_selection(s),
        DocumentCommand::Close => Ok(
            with_close_state(
                s,
                match s.persistent.close_state {
                    None => Some(CloseState::Requested),
                    other => other,
                },
            ),
        ),
        DocumentCommand::CloseAfterSaving => Ok(with_close_state(s, Some(CloseState::Saving))),
        DocumentCommand::CloseWithoutSaving => Ok(with_close_state(s, Some(CloseState::Allowed))),
        DocumentCommand::CancelClose => Ok(with_close_state(s, None)),
    }
}

/// The state with closing at `close_state`.
pub open spec fn with_close_state(s: EditState, close_state: Option<CloseState>) -> EditState {
    EditState { persistent: PersistentModel { close_state, ..s.persistent }, ..s }
}

/// The inputs on which carrying out `command` stays within the machine's
/// integers: durations that fit in a `u32`, coordinates that fit in an
/// `i32`, zoom levels that can be doubled, and collections that can grow.
#[verifier::opaque]
pub open spec fn command_fits(s: EditState, command: DocumentCommand) -> bool {
    match command {
        DocumentCommand::SelectAnimationFrame(_) | DocumentCommand::BeginAnimationFrameOffsetDrag(_)
        | DocumentCommand::TogglePlayback | DocumentCommand::SnapToPreviousFrame
        | DocumentCommand::SnapToNextFrame | DocumentCommand::UpdateScrub(_) => s.sheet.durations_fit(),
        DocumentCommand::CreateAnimation => s.sheet.animations.len() < usize::MAX,
        DocumentCommand::UpdateAnimationFrameDurationDrag(d) => can_resize_frame(s) ==> resized_animation(
            s,
            d,
        ).duration_fits() && crate::document::millis(
            s.transient.timeline_frame_scale_initial_clock as int,
        ) + d <= u128::MAX / 1_000_000,
        DocumentCommand::UpdateAnimationFrameOffsetDrag(d) => offset_fits(
            s.transient.workbench_animation_frame_drag_initial_offset,
            d,
        ),
        DocumentCommand::WorkbenchZoomIn | DocumentCommand::WorkbenchZoomOut => zoom_level_in_range(
            s.view.workbench_zoom_level,
        ),
        DocumentCommand::TimelineZoomIn | DocumentCommand::TimelineZoomOut => zoom_level_in_range(
            s.view.timeline_zoom_level,
        ),
        DocumentCommand::CreateHitbox(_) => forall|i: int|
            0 <= i < s.sheet.frames.len() ==> #[trigger] s.sheet.frames[i].hitboxes.len() < usize::MAX,
        DocumentCommand::UpdateHitboxScale(d) => hitbox_scale_fits(s, d),
        DocumentCommand::UpdateHitboxDrag(d) => offset_fits(
            s.transient.workbench_hitbox_drag_initial_offset,
            d,
        ),
        DocumentCommand::NudgeSelection(d, large) => nudge_fits(s, d, large),
        _ => true,
    }
}

impl Document {
    #[verifier::rlimit(100)]
    fn apply_command(&mut self, command: &DocumentCommand) -> (r: Result<(), StateError>)
        requires
            command_fits(old(self)@.state, *command),
        ensures
            applied(old(self)@, final(self)@, r, after_command(old(self)@.state, *command)),
    {
        proof {
            reveal(after_command);
            reveal(command_fits);
            assert forall|i: int| 0 <= i < self.sheet.frames.len() implies #[trigger] self.sheet.frames@[i].hitboxes.len()
                == self@.state.sheet.frames[i].hitboxes.len() by {}
        }
        match command {
            DocumentCommand::MarkAsSaved(_, version) => {
                self.persistent.disk_version = *version;
                Ok(())
            },
            DocumentCommand::EndImport(_, f) => {
                self.sheet.add_frame(f.as_str());
                Ok(())
            },
            DocumentCommand::BeginExportAs => {
                self.begin_export_as();
                Ok(())
            },
            DocumentCommand::CancelExportAs => {
                self.cancel_export_as();
                Ok(())
            },
            DocumentCommand::EndSetExportTextureDestination(_, d) => self.end_set_export_texture_destination(
                d.as_str(),
            ),
            DocumentCommand::EndSetExportMetadataDestination(_, d) => self.end_set_export_metadata_destination(
                d.as_str(),
            ),
            DocumentCommand::EndSetExportMetadataPathsRoot(_, d) => self.end_set_export_metadata_paths_root(
                d.as_str(),
            ),
            DocumentCommand::EndSetExportFormat(_, f) => self.end_set_export_format(f.clone()),
            DocumentCommand::EndExportAs => self.end_export_as(),
            DocumentCommand::SwitchToContentTab(tab) => {
                self.view.content_tab = *tab;
                Ok(())
            },
            DocumentCommand::ClearSelection => {
                self.clear_selection();
                Ok(())
            },
            DocumentCommand::SelectFrame(p) => self.select_frame(p.as_str()),
            DocumentCommand::SelectAnimation(n) => self.select_animation(n.as_str()),
            DocumentCommand::SelectHitbox(n) => self.select_hitbox(n.as_str()),
            DocumentCommand::SelectAnimationFrame(i) => self.select_animation_frame(*i),
            DocumentCommand::SelectPrevious => self.select_previous(),
            DocumentCommand::SelectNext => self.select_next(),
            DocumentCommand::EditFrame(p) => self.edit_frame(p.as_str()),
            DocumentCommand::EditAnimation(n) => self.edit_animation(n.as_str()),
            DocumentCommand::CreateAnimation => {
                self.create_animation();
                Ok(())
            },
            DocumentCommand::BeginFrameDrag(f) => {
                self.begin_frame_drag(f.as_str());
                Ok(())
            },
            DocumentCommand::EndFrameDrag => {
                self.transient.content_frame_being_dragged = None;
                Ok(())
            },
            DocumentCommand::InsertAnimationFrameBefore(f, i) => self.insert_animation_frame_before(
                f.as_str(),
                *i,
            ),
            DocumentCommand::ReorderAnimationFrame(a, b) => self.reorder_animation_frame(*a, *b),
            DocumentCommand::BeginAnimationFrameDurationDrag(i) => self.begin_animation_frame_duration_drag(
                *i,
            ),
            DocumentCommand::UpdateAnimationFrameDurationDrag(d) => self.update_animation_frame_duration_drag(
                *d,
            ),
            DocumentCommand::EndAnimationFrameDurationDrag => {
                self.end_animation_frame_duration_drag();
                Ok(())
            },
            DocumentCommand::BeginAnimationFrameDrag(i) => self.begin_animation_frame_drag(*i),
            DocumentCommand::EndAnimationFrameDrag => {
                self.transient.timeline_frame_being_dragged = None;
                Ok(())
            },
            DocumentCommand::BeginAnimationFrameOffsetDrag(i) => self.begin_animation_frame_offset_drag(
                *i,
            ),
            DocumentCommand::UpdateAnimationFrameOffsetDrag(d) => self.update_animation_frame_offset_drag(
                *d,
            ),
            DocumentCommand::EndAnimationFrameOffsetDrag => {
                self.end_animation_frame_offset_drag();
                Ok(())
            },
            DocumentCommand::WorkbenchZoomIn => {
                self.view.workbench_zoom_in();
                Ok(())
            },
            DocumentCommand::WorkbenchZoomOut => {
                self.view.workbench_zoom_out();
                Ok(())
            },
            DocumentCommand::WorkbenchResetZoom => {
                self.view.workbench_reset_zoom();
                Ok(())
            },
            DocumentCommand::WorkbenchCenter => {
                self.view.workbench_center();
                Ok(())
            },
            DocumentCommand::Pan(d) => {
                self.view.pan(*d);
                Ok(())
            },
            DocumentCommand::CreateHitbox(p) => self.create_hitbox(*p),
            DocumentCommand::BeginHitboxScale(n, axis) => self.begin_hitbox_scale(n.as_str(), *axis),
            DocumentCommand::UpdateHitboxScale(d) => self.update_hitbox_scale(*d),
            DocumentCommand::EndHitboxScale => self.end_hitbox_scale(),
            DocumentCommand::BeginHitboxDrag(n) => self.begin_hitbox_drag(n.as_str()),
            DocumentCommand::UpdateHitboxDrag(d) => self.update_hitbox_drag(*d),
            DocumentCommand::EndHitboxDrag => {
                self.end_hitbox_drag();
                Ok(())
            },
            DocumentCommand::TogglePlayback => self.toggle_playback(),
            DocumentCommand::SnapToPreviousFrame => self.snap_to_previous_frame(),
            DocumentCommand::SnapToNextFrame => self.snap_to_next_frame(),
            DocumentCommand::ToggleLooping => self.toggle_looping(),
            DocumentCommand::TimelineZoomIn => {
                self.view.timeline_zoom_in();
                Ok(())
            },
            DocumentCommand::TimelineZoomOut => {
                self.view.timeline_zoom_out();
                Ok(())
            },
            DocumentCommand::TimelineResetZoom => {
                self.view.timeline_reset_zoom();
                Ok(())
            },
            DocumentCommand::BeginScrub => {
                self.transient.timeline_scrubbing = true;
                Ok(())
            },
            DocumentCommand::UpdateScrub(time) => self.update_timeline_scrub(*time),
            DocumentCommand::EndScrub => {
                self.transient.timeline_scrubbing = false;
                Ok(())
            },
            DocumentCommand::NudgeSelection(d, large) => self.nudge_selection(*d, *large),
            DocumentCommand::DeleteSelection => {
                self.delete_selection();
                Ok(())
            },
            DocumentCommand::BeginRenameSelection => self.begin_rename_selection(),
            DocumentCommand::UpdateRenameSelection(n) => {
                self.transient.rename_buffer = Some(n.clone());
                Ok(())
            },
            DocumentCommand::EndRenameSelection => self.end_rename_selection(),
            DocumentCommand::Close => {
                self.begin_close();
                Ok(())
            },
            DocumentCommand::CloseAfterSaving => {
                self.persistent.close_state = Some(CloseState::Saving);
                Ok(())
            },
            DocumentCommand::CloseWithoutSaving => {
                self.persistent.close_state = Some(CloseState::Allowed);
                Ok(())
            },
            DocumentCommand::CancelClose => {
                self.persistent.close_state = None;
                Ok(())
            },
        }
    }

    /// Carries out `command` and records it in the undo history. A command
    /// that fails leaves the document as it was.
    pub fn process_command(&mut self, command: &DocumentCommand) -> (r: Result<(), StateError>)
        requires
            old(self).wf(),
            old(self).next_version < i32::MAX,
            command_fits(old(self)@.state, *command),
        ensures
            final(self).wf(),
            match after_command(old(self)@.state, *command) {
                Ok(s) => r is Ok && final(self)@ == recorded(with_state(old(self)@, s), *command),
                Err(e) => r == Err::<(), StateError>(e) && final(self)@ == old(self)@,
            },
    {
        self.apply_command(command)?;
        self.record_command(command.clone());
        Ok(())
    }
}

} // verus!
