//! Editing a document's export settings. The export dialog works on a copy
//! of the settings, which replaces the sheet's own when the dialog is
//! confirmed.

use vstd::prelude::*;
use crate::document::{Document, EditState, PersistentModel, with_state};
use crate::editing::applied;
use crate::error::StateError;
use crate::sheet::{ExportFormat, ExportFormatModel, ExportSettings, ExportSettingsModel, SheetModel};

verus! {

/// The settings that the export dialog starts from when the sheet has none.
pub open spec fn default_export_settings() -> ExportSettingsModel {
    ExportSettingsModel {
        format: ExportFormatModel::Template(Seq::empty()),
        texture_destination: Seq::empty(),
        metadata_destination: Seq::empty(),
        metadata_paths_root: Seq::empty(),
    }
}

pub open spec fn with_export_settings_edit(s: EditState, e: Option<ExportSettingsModel>) -> EditState {
    EditState { persistent: PersistentModel { export_settings_edit: e, ..s.persistent }, ..s }
}

/// Opening the export dialog on the sheet's settings, or on empty ones.
pub open spec fn after_begin_export_as(s: EditState) -> EditState {
    with_export_settings_edit(
        s,
        Some(
            match s.sheet.export_settings {
                Some(e) => e,
                None => default_export_settings(),
            },
        ),
    )
}

pub open spec fn after_cancel_export_as(s: EditState) -> EditState {
    with_export_settings_edit(s, None)
}

/// Changing the settings being edited with `change`; refused when the
/// export dialog is not open.
pub open spec fn after_edit_export_settings(
    s: EditState,
    change: spec_fn(ExportSettingsModel) -> ExportSettingsModel,
) -> Result<EditState, StateError> {
    match s.persistent.export_settings_edit {
        None => Err(StateError::NotExporting),
        Some(e) => Ok(with_export_settings_edit(s, Some(change(e)))),
    }
}

/// Confirming the export dialog: the edited settings become the sheet's.
pub open spec fn after_end_export_as(s: EditState) -> Result<EditState, StateError> {
    match s.persistent.export_settings_edit {
        None => Err(StateError::NotExporting),
        Some(e) => Ok(
            EditState {
                sheet: SheetModel { export_settings: Some(e), ..s.sheet },
                persistent: PersistentModel { export_settings_edit: None, ..s.persistent },
                ..s
            },
        ),
    }
}

impl Document {
    pub fn begin_export_as(&mut self)
        ensures
            final(self)@ == with_state(old(self)@, after_begin_export_as(old(self)@.state)),
    {
        let settings = match self.sheet.get_export_settings() {
            Some(e) => e.clone(),
            None => ExportSettings::new(),
        };
        self.persistent.export_settings_edit = Some(settings);
    }

    pub fn cancel_export_as(&mut self)
        ensures
            final(self)@ == with_state(old(self)@, after_cancel_export_as(old(self)@.state)),
    {
        self.persistent.export_settings_edit = None;
    }

    pub fn end_set_export_texture_destination(&mut self, texture_destination: &str) -> (r: Result<
        (),
        StateError,
    >)
        ensures
            applied(
                old(self)@,
                final(self)@,
                r,
                after_edit_export_settings(
                    old(self)@.state,
                    |e: ExportSettingsModel|
                        ExportSettingsModel { texture_destination: texture_destination@, ..e },
                ),
            ),
    {
        match &mut self.persistent.export_settings_edit {
            Some(e) => {
                e.texture_destination = texture_destination.to_owned();
                Ok(())
            },
            None => Err(StateError::NotExporting),
        }
    }

    pub fn end_set_export_metadata_destination(&mut self, metadata_destination: &str) -> (r: Result<
        (),
        StateError,
    >)
        ensures
            applied(
                old(self)@,
                final(self)@,
                r,
                after_edit_export_settings(
                    old(self)@.state,
                    |e: ExportSettingsModel|
                        ExportSettingsModel { metadata_destination: metadata_destination@, ..e },
                ),
            ),
    {
        match &mut self.persistent.export_settings_edit {
            Some(e) => {
                e.metadata_destination = metadata_destination.to_owned();
                Ok(())
            },
            None => Err(StateError::NotExporting),
        }
    }

    pub fn end_set_export_metadata_paths_root(&mut self, metadata_paths_root: &str) -> (r: Result<
        (),
        StateError,
    >)
        ensures
            applied(
                old(self)@,
                final(self)@,
                r,
                after_edit_export_settings(
                    old(self)@.state,
                    |e: ExportSettingsModel|
                        ExportSettingsModel { metadata_paths_root: metadata_paths_root@, ..e },
                ),
            ),
    {
        match &mut self.persistent.export_settings_edit {
            Some(e) => {
                e.metadata_paths_root = metadata_paths_root.to_owned();
                Ok(())
            },
            None => Err(StateError::NotExporting),
        }
    }

    pub fn end_set_export_format(&mut self, format: ExportFormat) -> (r: Result<(), StateError>)
        ensures
            applied(
                old(self)@,
                final(self)@,
                r,
                after_edit_export_settings(
                    old(self)@.state,
                    |e: ExportSettingsModel| ExportSettingsModel { format: format@, ..e },
                ),
            ),
    {
        match &mut self.persistent.export_settings_edit {
            Some(e) => {
                e.format = format;
                Ok(())
            },
            None => Err(StateError::NotExporting),
        }
    }

    pub fn end_export_as(&mut self) -> (r: Result<(), StateError>)
        ensures
            applied(old(self)@, final(self)@, r, after_end_export_as(old(self)@.state)),
    {
        let settings = match &self.persistent.export_settings_edit {
            Some(e) => e.clone(),
            None => return Err(StateError::NotExporting),
        };
        self.sheet.set_export_settings(settings);
        self.persistent.export_settings_edit = None;
        Ok(())
    }
}

} // verus!
