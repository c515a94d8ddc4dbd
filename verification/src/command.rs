//! The commands that the user interface issues. Synchronous commands change
//! the editor's state; asynchronous ones (dialogs, file operations) are
//! carried out by the application and answered with more commands.

use vstd::prelude::*;
use crate::document::Document;
use crate::error::UserFacingError;
use crate::sheet::{ExportFormat, Sheet};
use crate::transient::ResizeAxis;
use crate::view::ContentTab;

verus! {

/// Work done outside the editor's state: dialogs, reading, writing and
/// exporting files.
#[derive(Debug)]
pub enum AsyncCommand {
    BeginNewDocument,
    BeginOpenDocument,
    ReadDocument(String),
    Save(String, Sheet, i32),
    SaveAs(String, Sheet, i32),
    BeginSetExportTextureDestination(String),
    BeginSetExportMetadataDestination(String),
    BeginSetExportMetadataPathsRoot(String),
    BeginSetExportFormat(String),
    BeginImport(String),
    Export(Sheet),
}

/// Commands on the set of open documents.
#[derive(Debug)]
pub enum AppCommand {
    EndNewDocument(String),
    EndOpenDocument(Document),
    CloseAllDocuments,
    FocusDocument(String),
    RelocateDocument(String, String),
    Undo,
    Redo,
    ShowError(UserFacingError),
    ClearError,
    Exit,
    CancelExit,
}

/// Commands on one document. Those that carry a document's path act on
/// that document; the others act on the current one.
#[derive(Debug)]
pub enum DocumentCommand {
    BeginExportAs,
    EndSetExportTextureDestination(String, String),
    EndSetExportMetadataDestination(String, String),
    EndSetExportMetadataPathsRoot(String, String),
    EndSetExportFormat(String, ExportFormat),
    CancelExportAs,
    EndExportAs,
    MarkAsSaved(String, i32),
    EndImport(String, String),
    SwitchToContentTab(ContentTab),
    ClearSelection,
    SelectFrame(String),
    SelectAnimation(String),
    SelectHitbox(String),
    SelectAnimationFrame(usize),
    SelectPrevious,
    SelectNext,
    EditFrame(String),
    EditAnimation(String),
    CreateAnimation,
    BeginFrameDrag(String),
    EndFrameDrag,
    InsertAnimationFrameBefore(String, usize),
    ReorderAnimationFrame(usize, usize),
    BeginAnimationFrameDurationDrag(usize),
    UpdateAnimationFrameDurationDrag(u32),
    EndAnimationFrameDurationDrag,
    BeginAnimationFrameDrag(usize),
    EndAnimationFrameDrag,
    BeginAnimationFrameOffsetDrag(usize),
    /// How far the frame has been dragged, in sheet pixels.
    UpdateAnimationFrameOffsetDrag((i32, i32)),
    EndAnimationFrameOffsetDrag,
    WorkbenchZoomIn,
    WorkbenchZoomOut,
    WorkbenchResetZoom,
    WorkbenchCenter,
    /// How far to pan the workbench, in screen pixels.
    Pan((i32, i32)),
    /// Where the hitbox's corner goes, in sheet pixels.
    CreateHitbox((i32, i32)),
    BeginHitboxScale(String, ResizeAxis),
    /// How far the handle has been dragged, in sheet pixels.
    UpdateHitboxScale((i32, i32)),
    EndHitboxScale,
    BeginHitboxDrag(String),
    /// How far the hitbox has been dragged, in sheet pixels.
    UpdateHitboxDrag((i32, i32)),
    EndHitboxDrag,
    TogglePlayback,
    SnapToPreviousFrame,
    SnapToNextFrame,
    ToggleLooping,
    TimelineZoomIn,
    TimelineZoomOut,
    TimelineResetZoom,
    BeginScrub,
    /// The time to scrub to, in nanoseconds.
    UpdateScrub(u128),
    EndScrub,
    NudgeSelection((i32, i32), bool),
    DeleteSelection,
    BeginRenameSelection,
    UpdateRenameSelection(String),
    EndRenameSelection,
    /// Asks to close the document; where it has unsaved changes the user
    /// is first offered to save them.
    Close,
    CloseAfterSaving,
    CloseWithoutSaving,
    CancelClose,
}

/// A command that changes the editor's state.
#[derive(Debug)]
pub enum SyncCommand {
    App(AppCommand),
    Document(DocumentCommand),
}

/// Any command.
#[derive(Debug)]
pub enum Command {
    Sync(SyncCommand),
    Async(AsyncCommand),
}

/// The name under which a command shows in the undo and redo menu entries.
pub open spec fn command_label(command: DocumentCommand) -> &'static str {
    match command {
        DocumentCommand::EndImport(_, _) => "Import Image",
        DocumentCommand::BeginExportAs | DocumentCommand::EndSetExportTextureDestination(_, _)
        | DocumentCommand::EndSetExportMetadataDestination(_, _)
        | DocumentCommand::EndSetExportMetadataPathsRoot(_, _)
        | DocumentCommand::EndSetExportFormat(_, _) | DocumentCommand::CancelExportAs
        | DocumentCommand::EndExportAs => "Change Export Options",
        DocumentCommand::SwitchToContentTab(_) | DocumentCommand::ClearSelection
        | DocumentCommand::SelectFrame(_) | DocumentCommand::SelectAnimation(_)
        | DocumentCommand::SelectHitbox(_) | DocumentCommand::SelectAnimationFrame(_)
        | DocumentCommand::SelectPrevious | DocumentCommand::SelectNext
        | DocumentCommand::EditFrame(_) | DocumentCommand::EditAnimation(_)
        | DocumentCommand::WorkbenchZoomIn | DocumentCommand::WorkbenchZoomOut
        | DocumentCommand::WorkbenchResetZoom | DocumentCommand::WorkbenchCenter
        | DocumentCommand::TogglePlayback | DocumentCommand::SnapToPreviousFrame
        | DocumentCommand::SnapToNextFrame | DocumentCommand::TimelineZoomIn
        | DocumentCommand::TimelineZoomOut | DocumentCommand::TimelineResetZoom
        | DocumentCommand::BeginScrub | DocumentCommand::UpdateScrub(_) | DocumentCommand::EndScrub
        | DocumentCommand::Pan(_) => "Navigation",
        DocumentCommand::MarkAsSaved(_, _) => "Mark As Saved",
        DocumentCommand::CreateAnimation => "Create Animation",
        DocumentCommand::ToggleLooping => "Toggle Looping",
        DocumentCommand::BeginFrameDrag(_) | DocumentCommand::EndFrameDrag
        | DocumentCommand::InsertAnimationFrameBefore(_, _) => "Create Frame",
        DocumentCommand::BeginAnimationFrameDrag(_) | DocumentCommand::EndAnimationFrameDrag
        | DocumentCommand::ReorderAnimationFrame(_, _) => "Re-order Frames",
        DocumentCommand::BeginAnimationFrameDurationDrag(_)
        | DocumentCommand::UpdateAnimationFrameDurationDrag(_)
        | DocumentCommand::EndAnimationFrameDurationDrag => "Adjust Frame Duration",
        DocumentCommand::BeginAnimationFrameOffsetDrag(_)
        | DocumentCommand::UpdateAnimationFrameOffsetDrag(_)
        | DocumentCommand::EndAnimationFrameOffsetDrag => "Move Frame",
        DocumentCommand::CreateHitbox(_) => "Create Hitbox",
        DocumentCommand::BeginHitboxScale(_, _) | DocumentCommand::UpdateHitboxScale(_)
        | DocumentCommand::EndHitboxScale => "Resize Hitbox",
        DocumentCommand::BeginHitboxDrag(_) | DocumentCommand::UpdateHitboxDrag(_)
        | DocumentCommand::EndHitboxDrag => "Move Hitbox",
        DocumentCommand::NudgeSelection(_, _) => "Nudge",
        DocumentCommand::DeleteSelection => "Delete",
        DocumentCommand::BeginRenameSelection | DocumentCommand::UpdateRenameSelection(_)
        | DocumentCommand::EndRenameSelection => "Rename",
        DocumentCommand::Close | DocumentCommand::CloseAfterSaving
        | DocumentCommand::CloseWithoutSaving | DocumentCommand::CancelClose => "Close",
    }
}

impl DocumentCommand {
    /// The name under which the command shows in the undo and redo menu
    /// entries.
    pub fn label(&self) -> (r: &'static str)
        ensures
            r == command_label(*self),
    {
        match self {
            DocumentCommand::EndImport(_, _) => "Import Image",
            DocumentCommand::BeginExportAs | DocumentCommand::EndSetExportTextureDestination(_, _)
            | DocumentCommand::EndSetExportMetadataDestination(_, _)
            | DocumentCommand::EndSetExportMetadataPathsRoot(_, _)
            | DocumentCommand::EndSetExportFormat(_, _) | DocumentCommand::CancelExportAs
            | DocumentCommand::EndExportAs => "Change Export Options",
            DocumentCommand::SwitchToContentTab(_) | DocumentCommand::ClearSelection
            | DocumentCommand::SelectFrame(_) | DocumentCommand::SelectAnimation(_)
            | DocumentCommand::SelectHitbox(_) | DocumentCommand::SelectAnimationFrame(_)
            | DocumentCommand::SelectPrevious | DocumentCommand::SelectNext
            | DocumentCommand::EditFrame(_) | DocumentCommand::EditAnimation(_)
            | DocumentCommand::WorkbenchZoomIn | DocumentCommand::WorkbenchZoomOut
            | DocumentCommand::WorkbenchResetZoom | DocumentCommand::WorkbenchCenter
            | DocumentCommand::TogglePlayback | DocumentCommand::SnapToPreviousFrame
            | DocumentCommand::SnapToNextFrame | DocumentCommand::TimelineZoomIn
            | DocumentCommand::TimelineZoomOut | DocumentCommand::TimelineResetZoom
            | DocumentCommand::BeginScrub | DocumentCommand::UpdateScrub(_)
            | DocumentCommand::EndScrub | DocumentCommand::Pan(_) => "Navigation",
            DocumentCommand::MarkAsSaved(_, _) => "Mark As Saved",
            DocumentCommand::CreateAnimation => "Create Animation",
            DocumentCommand::ToggleLooping => "Toggle Looping",
            DocumentCommand::BeginFrameDrag(_) | DocumentCommand::EndFrameDrag
            | DocumentCommand::InsertAnimationFrameBefore(_, _) => "Create Frame",
            DocumentCommand::BeginAnimationFrameDrag(_) | DocumentCommand::EndAnimationFrameDrag
            | DocumentCommand::ReorderAnimationFrame(_, _) => "Re-order Frames",
            DocumentCommand::BeginAnimationFrameDurationDrag(_)
            | DocumentCommand::UpdateAnimationFrameDurationDrag(_)
            | DocumentCommand::EndAnimationFrameDurationDrag => "Adjust Frame Duration",
            DocumentCommand::BeginAnimationFrameOffsetDrag(_)
            | DocumentCommand::UpdateAnimationFrameOffsetDrag(_)
            | DocumentCommand::EndAnimationFrameOffsetDrag => "Move Frame",
            DocumentCommand::CreateHitbox(_) => "Create Hitbox",
            DocumentCommand::BeginHitboxScale(_, _) | DocumentCommand::UpdateHitboxScale(_)
            | DocumentCommand::EndHitboxScale => "Resize Hitbox",
            DocumentCommand::BeginHitboxDrag(_) | DocumentCommand::UpdateHitboxDrag(_)
            | DocumentCommand::EndHitboxDrag => "Move Hitbox",
            DocumentCommand::NudgeSelection(_, _) => "Nudge",
            DocumentCommand::DeleteSelection => "Delete",
            DocumentCommand::BeginRenameSelection | DocumentCommand::UpdateRenameSelection(_)
            | DocumentCommand::EndRenameSelection => "Rename",
            DocumentCommand::Close | DocumentCommand::CloseAfterSaving
            | DocumentCommand::CloseWithoutSaving | DocumentCommand::CancelClose => "Close",
        }
    }
}


impl Clone for DocumentCommand {
    fn clone(&self) -> (r: Self)
        ensures
            r == *self,
    {
        match self {
            DocumentCommand::BeginExportAs => DocumentCommand::BeginExportAs,
            DocumentCommand::EndSetExportTextureDestination(a0, a1) => DocumentCommand::EndSetExportTextureDestination(
                a0.clone(), a1.clone(),
            ),
            DocumentCommand::EndSetExportMetadataDestination(a0, a1) => DocumentCommand::EndSetExportMetadataDestination(
                a0.clone(), a1.clone(),
            ),
            DocumentCommand::EndSetExportMetadataPathsRoot(a0, a1) => DocumentCommand::EndSetExportMetadataPathsRoot(
                a0.clone(), a1.clone(),
            ),
            DocumentCommand::EndSetExportFormat(a0, a1) => DocumentCommand::EndSetExportFormat(
                a0.clone(), match a1 {
                    ExportFormat::Template(t) => ExportFormat::Template(t.clone()),
                },
            ),
            DocumentCommand::CancelExportAs => DocumentCommand::CancelExportAs,
            DocumentCommand::EndExportAs => DocumentCommand::EndExportAs,
            DocumentCommand::MarkAsSaved(a0, a1) => DocumentCommand::MarkAsSaved(
                a0.clone(), *a1,
            ),
            DocumentCommand::EndImport(a0, a1) => DocumentCommand::EndImport(
                a0.clone(), a1.clone(),
            ),
            DocumentCommand::SwitchToContentTab(a0) => DocumentCommand::SwitchToContentTab(
                *a0,
            ),
            DocumentCommand::ClearSelection => DocumentCommand::ClearSelection,
            DocumentCommand::SelectFrame(a0) => DocumentCommand::SelectFrame(
                a0.clone(),
            ),
            DocumentCommand::SelectAnimation(a0) => DocumentCommand::SelectAnimation(
                a0.clone(),
            ),
            DocumentCommand::SelectHitbox(a0) => DocumentCommand::SelectHitbox(
                a0.clone(),
            ),
            DocumentCommand::SelectAnimationFrame(a0) => DocumentCommand::SelectAnimationFrame(
                *a0,
            ),
            DocumentCommand::SelectPrevious => DocumentCommand::SelectPrevious,
            DocumentCommand::SelectNext => DocumentCommand::SelectNext,
            DocumentCommand::EditFrame(a0) => DocumentCommand::EditFrame(
                a0.clone(),
            ),
            DocumentCommand::EditAnimation(a0) => DocumentCommand::EditAnimation(
                a0.clone(),
            ),
            DocumentCommand::CreateAnimation => DocumentCommand::CreateAnimation,
            DocumentCommand::BeginFrameDrag(a0) => DocumentCommand::BeginFrameDrag(
                a0.clone(),
            ),
            DocumentCommand::EndFrameDrag => DocumentCommand::EndFrameDrag,
            DocumentCommand::InsertAnimationFrameBefore(a0, a1) => DocumentCommand::InsertAnimationFrameBefore(
                a0.clone(), *a1,
            ),
            DocumentCommand::ReorderAnimationFrame(a0, a1) => DocumentCommand::ReorderAnimationFrame(
                *a0, *a1,
            ),
            DocumentCommand::BeginAnimationFrameDurationDrag(a0) => DocumentCommand::BeginAnimationFrameDurationDrag(
                *a0,
            ),
            DocumentCommand::UpdateAnimationFrameDurationDrag(a0) => DocumentCommand::UpdateAnimationFrameDurationDrag(
                *a0,
            ),
            DocumentCommand::EndAnimationFrameDurationDrag => DocumentCommand::EndAnimationFrameDurationDrag,
            DocumentCommand::BeginAnimationFrameDrag(a0) => DocumentCommand::BeginAnimationFrameDrag(
                *a0,
            ),
            DocumentCommand::EndAnimationFrameDrag => DocumentCommand::EndAnimationFrameDrag,
            DocumentCommand::BeginAnimationFrameOffsetDrag(a0) => DocumentCommand::BeginAnimationFrameOffsetDrag(
                *a0,
            ),
            DocumentCommand::UpdateAnimationFrameOffsetDrag(a0) => DocumentCommand::UpdateAnimationFrameOffsetDrag(
                *a0,
            ),
            DocumentCommand::EndAnimationFrameOffsetDrag => DocumentCommand::EndAnimationFrameOffsetDrag,
            DocumentCommand::WorkbenchZoomIn => DocumentCommand::WorkbenchZoomIn,
            DocumentCommand::WorkbenchZoomOut => DocumentCommand::WorkbenchZoomOut,
            DocumentCommand::WorkbenchResetZoom => DocumentCommand::WorkbenchResetZoom,
            DocumentCommand::WorkbenchCenter => DocumentCommand::WorkbenchCenter,
            DocumentCommand::Pan(a0) => DocumentCommand::Pan(
                *a0,
            ),
            DocumentCommand::CreateHitbox(a0) => DocumentCommand::CreateHitbox(
                *a0,
            ),
            DocumentCommand::BeginHitboxScale(a0, a1) => DocumentCommand::BeginHitboxScale(
                a0.clone(), *a1,
            ),
            DocumentCommand::UpdateHitboxScale(a0) => DocumentCommand::UpdateHitboxScale(
                *a0,
            ),
            DocumentCommand::EndHitboxScale => DocumentCommand::EndHitboxScale,
            DocumentCommand::BeginHitboxDrag(a0) => DocumentCommand::BeginHitboxDrag(
                a0.clone(),
            ),
            DocumentCommand::UpdateHitboxDrag(a0) => DocumentCommand::UpdateHitboxDrag(
                *a0,
            ),
            DocumentCommand::EndHitboxDrag => DocumentCommand::EndHitboxDrag,
            DocumentCommand::TogglePlayback => DocumentCommand::TogglePlayback,
            DocumentCommand::SnapToPreviousFrame => DocumentCommand::SnapToPreviousFrame,
            DocumentCommand::SnapToNextFrame => DocumentCommand::SnapToNextFrame,
            DocumentCommand::ToggleLooping => DocumentCommand::ToggleLooping,
            DocumentCommand::TimelineZoomIn => DocumentCommand::TimelineZoomIn,
            DocumentCommand::TimelineZoomOut => DocumentCommand::TimelineZoomOut,
            DocumentCommand::TimelineResetZoom => DocumentCommand::TimelineResetZoom,
            DocumentCommand::BeginScrub => DocumentCommand::BeginScrub,
            DocumentCommand::UpdateScrub(a0) => DocumentCommand::UpdateScrub(
                *a0,
            ),
            DocumentCommand::EndScrub => DocumentCommand::EndScrub,
            DocumentCommand::NudgeSelection(a0, a1) => DocumentCommand::NudgeSelection(
                *a0, *a1,
            ),
            DocumentCommand::DeleteSelection => DocumentCommand::DeleteSelection,
            DocumentCommand::BeginRenameSelection => DocumentCommand::BeginRenameSelection,
            DocumentCommand::UpdateRenameSelection(a0) => DocumentCommand::UpdateRenameSelection(
                a0.clone(),
            ),
            DocumentCommand::EndRenameSelection => DocumentCommand::EndRenameSelection,
            DocumentCommand::Close => DocumentCommand::Close,
            DocumentCommand::CloseAfterSaving => DocumentCommand::CloseAfterSaving,
            DocumentCommand::CloseWithoutSaving => DocumentCommand::CloseWithoutSaving,
            DocumentCommand::CancelClose => DocumentCommand::CancelClose,
        }
    }
}

} // verus!
