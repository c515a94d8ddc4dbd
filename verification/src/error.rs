//! What editing a document can fail with.

use vstd::prelude::*;
use crate::command::AsyncCommand;
use crate::sheet::SheetError;

verus! {

/// What an operation on the editor's state can fail with.
#[derive(Clone, Copy, Debug, PartialEq, Eq, Structural)]
pub enum StateError {
    NoDocumentOpen,
    DocumentNotFound,
    UndoOperationNowAllowed,
    NoExistingExportSettings,
    FrameNotInDocument,
    AnimationNotInDocument,
    InvalidHitboxIndex,
    InvalidAnimationFrameIndex,
    NoAnimationFrameForThisTime,
    HitboxNotInFrame,
    HitboxAlreadyExists,
    AnimationAlreadyExists,
    NotEditingAnyFrame,
    NotEditingAnyAnimation,
    NotExporting,
    NotRenaming,
    NotDraggingATimelineFrame,
    NotDraggingAHitbox,
    Sheet(SheetError),
}

/// An error worth showing to the user, after an operation on files failed.
#[derive(Debug)]
pub enum UserFacingError {
    Open,
    Save,
    Export(String),
}

pub enum UserFacingErrorModel {
    Open,
    Save,
    Export(Seq<char>),
}

impl View for UserFacingError {
    type V = UserFacingErrorModel;

    open spec fn view(&self) -> UserFacingErrorModel {
        match self {
            UserFacingError::Open => UserFacingErrorModel::Open,
            UserFacingError::Save => UserFacingErrorModel::Save,
            UserFacingError::Export(d) => UserFacingErrorModel::Export(d@),
        }
    }
}

impl UserFacingError {
    /// The message shown to the user.
    pub fn message(&self) -> (r: String)
        ensures
            match self {
                UserFacingError::Open => r@ == "Could not open document"@,
                UserFacingError::Save => r@ == "Could not save document"@,
                UserFacingError::Export(details) => r@ == "Export failed:\n"@ + details@,
            },
    {
        match self {
            UserFacingError::Open => "Could not open document".to_owned(),
            UserFacingError::Save => "Could not save document".to_owned(),
            UserFacingError::Export(details) => "Export failed:\n".to_owned().concat(details.as_str()),
        }
    }
}

impl UserFacingError {
    /// The error to show after `source_command` failed with an error whose
    /// root cause reads `inner_error`; `None` for the commands whose failure
    /// is not shown.
    pub fn from_command(source_command: AsyncCommand, inner_error: &str) -> (r: Option<
        UserFacingError,
    >)
        ensures
            match source_command {
                AsyncCommand::ReadDocument(_) => r matches Some(UserFacingError::Open),
                AsyncCommand::Save(_, _, _) | AsyncCommand::SaveAs(_, _, _) => r matches Some(
                    UserFacingError::Save,
                ),
                AsyncCommand::Export(_) => r matches Some(UserFacingError::Export(d)) && d@
                    == inner_error@,
                _ => r is None,
            },
    {
        match source_command {
            AsyncCommand::ReadDocument(_) => Some(UserFacingError::Open),
            AsyncCommand::Save(_, _, _) => Some(UserFacingError::Save),
            AsyncCommand::SaveAs(_, _, _) => Some(UserFacingError::Save),
            AsyncCommand::Export(_) => Some(UserFacingError::Export(inner_error.to_owned())),
            _ => None,
        }
    }
}

/// What starting the editor can fail with.
#[derive(Clone, Copy, Debug, PartialEq, Eq, Structural)]
pub enum MainError {
    WindowInitError,
    RendererInitError,
    DrawError,
    SwapError,
    FrameSizeError,
}

impl MainError {
    /// The message shown for the error.
    pub fn message(&self) -> (r: &'static str)
        ensures
            r@ == match self {
                MainError::WindowInitError => "Could not initialize window"@,
                MainError::RendererInitError => "Could not initialize renderer"@,
                MainError::DrawError => "Draw error"@,
                MainError::SwapError => "Could not swap framebuffers"@,
                MainError::FrameSizeError => "Frame size error"@,
            },
    {
        match self {
            MainError::WindowInitError => "Could not initialize window",
            MainError::RendererInitError => "Could not initialize renderer",
            MainError::DrawError => "Draw error",
            MainError::SwapError => "Could not swap framebuffers",
            MainError::FrameSizeError => "Frame size error",
        }
    }
}

} // verus!
