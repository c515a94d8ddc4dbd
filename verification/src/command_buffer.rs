//! A queue of commands, filled by the user interface and by the work done
//! outside the editor's state, and drained by the application.

use vstd::prelude::*;
use crate::command::{AppCommand, AsyncCommand, Command, DocumentCommand, SyncCommand};
use crate::document::Document;
use crate::sheet::{Animation, ExportFormat, Frame, Hitbox, Sheet};
use crate::transient::ResizeAxis;
use crate::view::ContentTab;

verus! {

/// Commands waiting to be carried out, oldest first.
#[derive(Debug)]
pub struct CommandBuffer {
    pub queue: Vec<Command>,
}

impl CommandBuffer {
    /// No command waiting.
    pub fn new() -> (r: CommandBuffer)
        ensures
            r.queue@ == Seq::<Command>::empty(),
    {
        CommandBuffer { queue: Vec::new() }
    }

    /// Queues the commands of `other` after those already waiting.
    pub fn append(&mut self, other: CommandBuffer)
        ensures
            final(self).queue@ == old(self).queue@ + other.queue@,
    {
        let mut other = other;
        self.queue.append(&mut other.queue);
    }

    /// Hands out the waiting commands, oldest first, and empties the queue.
    pub fn flush(&mut self) -> (r: Vec<Command>)
        ensures
            r@ == old(self).queue@,
            final(self).queue@ == Seq::<Command>::empty(),
    {
        let mut r: Vec<Command> = Vec::new();
        std::mem::swap(&mut r, &mut self.queue);
        r
    }

    fn push_command(&mut self, command: Command)
        ensures
            final(self).queue@ == old(self).queue@.push(command),
    {
        self.queue.push(command);
    }

    /// Queues the ending of an export dialog, then the export itself.
    pub fn end_export_as(&mut self, sheet: &Sheet)
        ensures
            final(self).queue@.len() == old(self).queue@.len() + 2,
            final(self).queue@.subrange(0, old(self).queue@.len() as int) == old(self).queue@,
            final(self).queue@[old(self).queue@.len() as int] matches Command::Sync(
                SyncCommand::Document(DocumentCommand::EndExportAs),
            ),
            (final(self).queue@.last() matches Command::Async(AsyncCommand::Export(s)) && s@ == sheet@),
    {
        self.push_command(Command::Sync(SyncCommand::Document(DocumentCommand::EndExportAs)));
        self.push_command(Command::Async(AsyncCommand::Export(sheet.clone())));
    }

    /// Queues the opening of a document that has been read.
    pub fn end_open_document(&mut self, document: Document)
        ensures
            final(self).queue@.drop_last() == old(self).queue@,
            final(self).queue@.len() == old(self).queue@.len() + 1,
            (final(self).queue@.last() matches Command::Sync(SyncCommand::App(AppCommand::EndOpenDocument(d))) && d@ == document@),
    {
        self.push_command(Command::Sync(SyncCommand::App(AppCommand::EndOpenDocument(document))));
    }

    pub fn begin_new_document(&mut self)
        ensures
            final(self).queue@.drop_last() == old(self).queue@,
            final(self).queue@.len() == old(self).queue@.len() + 1,
            final(self).queue@.last() matches Command::Async(AsyncCommand::BeginNewDocument),
    {
        self.push_command(Command::Async(AsyncCommand::BeginNewDocument));
    }

    pub fn end_new_document(&mut self, path: &str)
        ensures
            final(self).queue@.drop_last() == old(self).queue@,
            final(self).queue@.len() == old(self).queue@.len() + 1,
            (final(self).queue@.last() matches Command::Sync(SyncCommand::App(AppCommand::EndNewDocument(p))) && p@ == path@),
    {
        self.push_command(Command::Sync(SyncCommand::App(AppCommand::EndNewDocument(path.to_owned()))));
    }

    pub fn begin_open_document(&mut self)
        ensures
            final(self).queue@.drop_last() == old(self).queue@,
            final(self).queue@.len() == old(self).queue@.len() + 1,
            final(self).queue@.last() matches Command::Async(AsyncCommand::BeginOpenDocument),
    {
        self.push_command(Command::Async(AsyncCommand::BeginOpenDocument));
    }

    pub fn read_document(&mut self, path: &str)
        ensures
            final(self).queue@.drop_last() == old(self).queue@,
            final(self).queue@.len() == old(self).queue@.len() + 1,
            (final(self).queue@.last() matches Command::Async(AsyncCommand::ReadDocument(p)) && p@ == path@),
    {
        self.push_command(Command::Async(AsyncCommand::ReadDocument(path.to_owned())));
    }

    pub fn relocate_document(&mut self, from: &str, to: &str)
        ensures
            final(self).queue@.drop_last() == old(self).queue@,
            final(self).queue@.len() == old(self).queue@.len() + 1,
            (final(self).queue@.last() matches Command::Sync(SyncCommand::App(AppCommand::RelocateDocument(f, t))) && f@ == from@ && t@ == to@),
    {
        self.push_command(Command::Sync(SyncCommand::App(AppCommand::RelocateDocument(from.to_owned(), to.to_owned()))));
    }

    pub fn focus_document(&mut self, document: &Document)
        ensures
            final(self).queue@.drop_last() == old(self).queue@,
            final(self).queue@.len() == old(self).queue@.len() + 1,
            (final(self).queue@.last() matches Command::Sync(SyncCommand::App(AppCommand::FocusDocument(p))) && p@ == document.source@),
    {
        self.push_command(Command::Sync(SyncCommand::App(AppCommand::FocusDocument(document.source.clone()))));
    }

    pub fn close_current_document(&mut self)
        ensures
            final(self).queue@.drop_last() == old(self).queue@,
            final(self).queue@.len() == old(self).queue@.len() + 1,
            final(self).queue@.last() matches Command::Sync(SyncCommand::Document(DocumentCommand::Close)),
    {
        self.push_command(Command::Sync(SyncCommand::Document(DocumentCommand::Close)));
    }

    pub fn close_after_saving(&mut self)
        ensures
            final(self).queue@.drop_last() == old(self).queue@,
            final(self).queue@.len() == old(self).queue@.len() + 1,
            final(self).queue@.last() matches Command::Sync(SyncCommand::Document(DocumentCommand::CloseAfterSaving)),
    {
        self.push_command(Command::Sync(SyncCommand::Document(DocumentCommand::CloseAfterSaving)));
    }

    pub fn close_without_saving(&mut self)
        ensures
            final(self).queue@.drop_last() == old(self).queue@,
            final(self).queue@.len() == old(self).queue@.len() + 1,
            final(self).queue@.last() matches Command::Sync(SyncCommand::Document(DocumentCommand::CloseWithoutSaving)),
    {
        self.push_command(Command::Sync(SyncCommand::Document(DocumentCommand::CloseWithoutSaving)));
    }

    pub fn cancel_close(&mut self)
        ensures
            final(self).queue@.drop_last() == old(self).queue@,
            final(self).queue@.len() == old(self).queue@.len() + 1,
            final(self).queue@.last() matches Command::Sync(SyncCommand::Document(DocumentCommand::CancelClose)),
    {
        self.push_command(Command::Sync(SyncCommand::Document(DocumentCommand::CancelClose)));
    }

    pub fn close_all_documents(&mut self)
        ensures
            final(self).queue@.drop_last() == old(self).queue@,
            final(self).queue@.len() == old(self).queue@.len() + 1,
            final(self).queue@.last() matches Command::Sync(SyncCommand::App(AppCommand::CloseAllDocuments)),
    {
        self.push_command(Command::Sync(SyncCommand::App(AppCommand::CloseAllDocuments)));
    }

    pub fn save(&mut self, path: &str, sheet: &Sheet, version: i32)
        ensures
            final(self).queue@.drop_last() == old(self).queue@,
            final(self).queue@.len() == old(self).queue@.len() + 1,
            (final(self).queue@.last() matches Command::Async(AsyncCommand::Save(p, s, v)) && p@ == path@ && s@ == sheet@ && v == version),
    {
        self.push_command(Command::Async(AsyncCommand::Save(path.to_owned(), sheet.clone(), version)));
    }

    pub fn save_as(&mut self, path: &str, sheet: &Sheet, version: i32)
        ensures
            final(self).queue@.drop_last() == old(self).queue@,
            final(self).queue@.len() == old(self).queue@.len() + 1,
            (final(self).queue@.last() matches Command::Async(AsyncCommand::SaveAs(p, s, v)) && p@ == path@ && s@ == sheet@ && v == version),
    {
        self.push_command(Command::Async(AsyncCommand::SaveAs(path.to_owned(), sheet.clone(), version)));
    }

    pub fn mark_as_saved(&mut self, path: &str, version: i32)
        ensures
            final(self).queue@.drop_last() == old(self).queue@,
            final(self).queue@.len() == old(self).queue@.len() + 1,
            (final(self).queue@.last() matches Command::Sync(SyncCommand::Document(DocumentCommand::MarkAsSaved(p, v))) && p@ == path@ && v == version),
    {
        self.push_command(Command::Sync(SyncCommand::Document(DocumentCommand::MarkAsSaved(path.to_owned(), version))));
    }

    pub fn undo(&mut self)
        ensures
            final(self).queue@.drop_last() == old(self).queue@,
            final(self).queue@.len() == old(self).queue@.len() + 1,
            final(self).queue@.last() matches Command::Sync(SyncCommand::App(AppCommand::Undo)),
    {
        self.push_command(Command::Sync(SyncCommand::App(AppCommand::Undo)));
    }

    pub fn redo(&mut self)
        ensures
            final(self).queue@.drop_last() == old(self).queue@,
            final(self).queue@.len() == old(self).queue@.len() + 1,
            final(self).queue@.last() matches Command::Sync(SyncCommand::App(AppCommand::Redo)),
    {
        self.push_command(Command::Sync(SyncCommand::App(AppCommand::Redo)));
    }

    pub fn begin_export_as(&mut self)
        ensures
            final(self).queue@.drop_last() == old(self).queue@,
            final(self).queue@.len() == old(self).queue@.len() + 1,
            final(self).queue@.last() matches Command::Sync(SyncCommand::Document(DocumentCommand::BeginExportAs)),
    {
        self.push_command(Command::Sync(SyncCommand::Document(DocumentCommand::BeginExportAs)));
    }

    pub fn begin_set_export_texture_destination(&mut self, document: &Document)
        ensures
            final(self).queue@.drop_last() == old(self).queue@,
            final(self).queue@.len() == old(self).queue@.len() + 1,
            (final(self).queue@.last() matches Command::Async(AsyncCommand::BeginSetExportTextureDestination(p)) && p@ == document.source@),
    {
        self.push_command(Command::Async(AsyncCommand::BeginSetExportTextureDestination(document.source.clone())));
    }

    pub fn end_set_export_texture_destination(&mut self, document_path: &str, texture_path: &str)
        ensures
            final(self).queue@.drop_last() == old(self).queue@,
            final(self).queue@.len() == old(self).queue@.len() + 1,
            (final(self).queue@.last() matches Command::Sync(SyncCommand::Document(DocumentCommand::EndSetExportTextureDestination(p, d))) && p@ == document_path@ && d@ == texture_path@),
    {
        self.push_command(Command::Sync(SyncCommand::Document(DocumentCommand::EndSetExportTextureDestination(document_path.to_owned(), texture_path.to_owned()))));
    }

    pub fn begin_set_export_metadata_destination(&mut self, document: &Document)
        ensures
            final(self).queue@.drop_last() == old(self).queue@,
            final(self).queue@.len() == old(self).queue@.len() + 1,
            (final(self).queue@.last() matches Command::Async(AsyncCommand::BeginSetExportMetadataDestination(p)) && p@ == document.source@),
    {
        self.push_command(Command::Async(AsyncCommand::BeginSetExportMetadataDestination(document.source.clone())));
    }

    pub fn end_set_export_metadata_destination(&mut self, document_path: &str, metadata_path: &str)
        ensures
            final(self).queue@.drop_last() == old(self).queue@,
            final(self).queue@.len() == old(self).queue@.len() + 1,
            (final(self).queue@.last() matches Command::Sync(SyncCommand::Document(DocumentCommand::EndSetExportMetadataDestination(p, d))) && p@ == document_path@ && d@ == metadata_path@),
    {
        self.push_command(Command::Sync(SyncCommand::Document(DocumentCommand::EndSetExportMetadataDestination(document_path.to_owned(), metadata_path.to_owned()))));
    }

    pub fn begin_set_export_metadata_paths_root(&mut self, document: &Document)
        ensures
            final(self).queue@.drop_last() == old(self).queue@,
            final(self).queue@.len() == old(self).queue@.len() + 1,
            (final(self).queue@.last() matches Command::Async(AsyncCommand::BeginSetExportMetadataPathsRoot(p)) && p@ == document.source@),
    {
        self.push_command(Command::Async(AsyncCommand::BeginSetExportMetadataPathsRoot(document.source.clone())));
    }

    pub fn end_set_export_metadata_paths_root(&mut self, document_path: &str, paths_root: &str)
        ensures
            final(self).queue@.drop_last() == old(self).queue@,
            final(self).queue@.len() == old(self).queue@.len() + 1,
            (final(self).queue@.last() matches Command::Sync(SyncCommand::Document(DocumentCommand::EndSetExportMetadataPathsRoot(p, d))) && p@ == document_path@ && d@ == paths_root@),
    {
        self.push_command(Command::Sync(SyncCommand::Document(DocumentCommand::EndSetExportMetadataPathsRoot(document_path.to_owned(), paths_root.to_owned()))));
    }

    pub fn begin_set_export_format(&mut self, document: &Document)
        ensures
            final(self).queue@.drop_last() == old(self).queue@,
            final(self).queue@.len() == old(self).queue@.len() + 1,
            (final(self).queue@.last() matches Command::Async(AsyncCommand::BeginSetExportFormat(p)) && p@ == document.source@),
    {
        self.push_command(Command::Async(AsyncCommand::BeginSetExportFormat(document.source.clone())));
    }

    pub fn end_set_export_format(&mut self, document_path: &str, format: ExportFormat)
        ensures
            final(self).queue@.drop_last() == old(self).queue@,
            final(self).queue@.len() == old(self).queue@.len() + 1,
            (final(self).queue@.last() matches Command::Sync(SyncCommand::Document(DocumentCommand::EndSetExportFormat(p, f))) && p@ == document_path@ && f == format),
    {
        self.push_command(Command::Sync(SyncCommand::Document(DocumentCommand::EndSetExportFormat(document_path.to_owned(), format))));
    }

    pub fn cancel_export_as(&mut self)
        ensures
            final(self).queue@.drop_last() == old(self).queue@,
            final(self).queue@.len() == old(self).queue@.len() + 1,
            final(self).queue@.last() matches Command::Sync(SyncCommand::Document(DocumentCommand::CancelExportAs)),
    {
        self.push_command(Command::Sync(SyncCommand::Document(DocumentCommand::CancelExportAs)));
    }

    pub fn export(&mut self, sheet: &Sheet)
        ensures
            final(self).queue@.drop_last() == old(self).queue@,
            final(self).queue@.len() == old(self).queue@.len() + 1,
            (final(self).queue@.last() matches Command::Async(AsyncCommand::Export(s)) && s@ == sheet@),
    {
        self.push_command(Command::Async(AsyncCommand::Export(sheet.clone())));
    }

    pub fn switch_to_content_tab(&mut self, tab: ContentTab)
        ensures
            final(self).queue@.drop_last() == old(self).queue@,
            final(self).queue@.len() == old(self).queue@.len() + 1,
            (final(self).queue@.last() matches Command::Sync(SyncCommand::Document(DocumentCommand::SwitchToContentTab(t))) && t == tab),
    {
        self.push_command(Command::Sync(SyncCommand::Document(DocumentCommand::SwitchToContentTab(tab))));
    }

    pub fn import(&mut self, document: &Document)
        ensures
            final(self).queue@.drop_last() == old(self).queue@,
            final(self).queue@.len() == old(self).queue@.len() + 1,
            (final(self).queue@.last() matches Command::Async(AsyncCommand::BeginImport(p)) && p@ == document.source@),
    {
        self.push_command(Command::Async(AsyncCommand::BeginImport(document.source.clone())));
    }

    pub fn end_import(&mut self, into: &str, path: &str)
        ensures
            final(self).queue@.drop_last() == old(self).queue@,
            final(self).queue@.len() == old(self).queue@.len() + 1,
            (final(self).queue@.last() matches Command::Sync(SyncCommand::Document(DocumentCommand::EndImport(i, p))) && i@ == into@ && p@ == path@),
    {
        self.push_command(Command::Sync(SyncCommand::Document(DocumentCommand::EndImport(into.to_owned(), path.to_owned()))));
    }

    pub fn clear_selection(&mut self)
        ensures
            final(self).queue@.drop_last() == old(self).queue@,
            final(self).queue@.len() == old(self).queue@.len() + 1,
            final(self).queue@.last() matches Command::Sync(SyncCommand::Document(DocumentCommand::ClearSelection)),
    {
        self.push_command(Command::Sync(SyncCommand::Document(DocumentCommand::ClearSelection)));
    }

    pub fn select_frame(&mut self, frame: &Frame)
        ensures
            final(self).queue@.drop_last() == old(self).queue@,
            final(self).queue@.len() == old(self).queue@.len() + 1,
            (final(self).queue@.last() matches Command::Sync(SyncCommand::Document(DocumentCommand::SelectFrame(p))) && p@ == frame.source@),
    {
        self.push_command(Command::Sync(SyncCommand::Document(DocumentCommand::SelectFrame(frame.source.clone()))));
    }

    pub fn select_animation(&mut self, animation: &Animation)
        ensures
            final(self).queue@.drop_last() == old(self).queue@,
            final(self).queue@.len() == old(self).queue@.len() + 1,
            (final(self).queue@.last() matches Command::Sync(SyncCommand::Document(DocumentCommand::SelectAnimation(n))) && n@ == animation.name@),
    {
        self.push_command(Command::Sync(SyncCommand::Document(DocumentCommand::SelectAnimation(animation.name.clone()))));
    }

    pub fn select_hitbox(&mut self, hitbox: &Hitbox)
        ensures
            final(self).queue@.drop_last() == old(self).queue@,
            final(self).queue@.len() == old(self).queue@.len() + 1,
            (final(self).queue@.last() matches Command::Sync(SyncCommand::Document(DocumentCommand::SelectHitbox(n))) && n@ == hitbox.name@),
    {
        self.push_command(Command::Sync(SyncCommand::Document(DocumentCommand::SelectHitbox(hitbox.name.clone()))));
    }

    pub fn select_animation_frame(&mut self, animation_frame_index: usize)
        ensures
            final(self).queue@.drop_last() == old(self).queue@,
            final(self).queue@.len() == old(self).queue@.len() + 1,
            (final(self).queue@.last() matches Command::Sync(SyncCommand::Document(DocumentCommand::SelectAnimationFrame(i))) && i == animation_frame_index),
    {
        self.push_command(Command::Sync(SyncCommand::Document(DocumentCommand::SelectAnimationFrame(animation_frame_index))));
    }

    pub fn select_previous(&mut self)
        ensures
            final(self).queue@.drop_last() == old(self).queue@,
            final(self).queue@.len() == old(self).queue@.len() + 1,
            final(self).queue@.last() matches Command::Sync(SyncCommand::Document(DocumentCommand::SelectPrevious)),
    {
        self.push_command(Command::Sync(SyncCommand::Document(DocumentCommand::SelectPrevious)));
    }

    pub fn select_next(&mut self)
        ensures
            final(self).queue@.drop_last() == old(self).queue@,
            final(self).queue@.len() == old(self).queue@.len() + 1,
            final(self).queue@.last() matches Command::Sync(SyncCommand::Document(DocumentCommand::SelectNext)),
    {
        self.push_command(Command::Sync(SyncCommand::Document(DocumentCommand::SelectNext)));
    }

    pub fn edit_frame(&mut self, frame: &Frame)
        ensures
            final(self).queue@.drop_last() == old(self).queue@,
            final(self).queue@.len() == old(self).queue@.len() + 1,
            (final(self).queue@.last() matches Command::Sync(SyncCommand::Document(DocumentCommand::EditFrame(p))) && p@ == frame.source@),
    {
        self.push_command(Command::Sync(SyncCommand::Document(DocumentCommand::EditFrame(frame.source.clone()))));
    }

    pub fn edit_animation(&mut self, animation: &Animation)
        ensures
            final(self).queue@.drop_last() == old(self).queue@,
            final(self).queue@.len() == old(self).queue@.len() + 1,
            (final(self).queue@.last() matches Command::Sync(SyncCommand::Document(DocumentCommand::EditAnimation(n))) && n@ == animation.name@),
    {
        self.push_command(Command::Sync(SyncCommand::Document(DocumentCommand::EditAnimation(animation.name.clone()))));
    }

    pub fn create_animation(&mut self)
        ensures
            final(self).queue@.drop_last() == old(self).queue@,
            final(self).queue@.len() == old(self).queue@.len() + 1,
            final(self).queue@.last() matches Command::Sync(SyncCommand::Document(DocumentCommand::CreateAnimation)),
    {
        self.push_command(Command::Sync(SyncCommand::Document(DocumentCommand::CreateAnimation)));
    }

    pub fn begin_frame_drag(&mut self, frame: &Frame)
        ensures
            final(self).queue@.drop_last() == old(self).queue@,
            final(self).queue@.len() == old(self).queue@.len() + 1,
            (final(self).queue@.last() matches Command::Sync(SyncCommand::Document(DocumentCommand::BeginFrameDrag(p))) && p@ == frame.source@),
    {
        self.push_command(Command::Sync(SyncCommand::Document(DocumentCommand::BeginFrameDrag(frame.source.clone()))));
    }

    pub fn end_frame_drag(&mut self)
        ensures
            final(self).queue@.drop_last() == old(self).queue@,
            final(self).queue@.len() == old(self).queue@.len() + 1,
            final(self).queue@.last() matches Command::Sync(SyncCommand::Document(DocumentCommand::EndFrameDrag)),
    {
        self.push_command(Command::Sync(SyncCommand::Document(DocumentCommand::EndFrameDrag)));
    }

    pub fn insert_animation_frame_before(&mut self, frame: &str, animation_frame_index: usize)
        ensures
            final(self).queue@.drop_last() == old(self).queue@,
            final(self).queue@.len() == old(self).queue@.len() + 1,
            (final(self).queue@.last() matches Command::Sync(SyncCommand::Document(DocumentCommand::InsertAnimationFrameBefore(p, i))) && p@ == frame@ && i == animation_frame_index),
    {
        self.push_command(Command::Sync(SyncCommand::Document(DocumentCommand::InsertAnimationFrameBefore(frame.to_owned(), animation_frame_index))));
    }

    pub fn reorder_animation_frame(&mut self, old_index: usize, new_index: usize)
        ensures
            final(self).queue@.drop_last() == old(self).queue@,
            final(self).queue@.len() == old(self).queue@.len() + 1,
            (final(self).queue@.last() matches Command::Sync(SyncCommand::Document(DocumentCommand::ReorderAnimationFrame(a, b))) && a == old_index && b == new_index),
    {
        self.push_command(Command::Sync(SyncCommand::Document(DocumentCommand::ReorderAnimationFrame(old_index, new_index))));
    }

    pub fn begin_animation_frame_duration_drag(&mut self, animation_frame_index: usize)
        ensures
            final(self).queue@.drop_last() == old(self).queue@,
            final(self).queue@.len() == old(self).queue@.len() + 1,
            (final(self).queue@.last() matches Command::Sync(SyncCommand::Document(DocumentCommand::BeginAnimationFrameDurationDrag(i))) && i == animation_frame_index),
    {
        self.push_command(Command::Sync(SyncCommand::Document(DocumentCommand::BeginAnimationFrameDurationDrag(animation_frame_index))));
    }

    pub fn update_animation_frame_duration_drag(&mut self, new_duration: u32)
        ensures
            final(self).queue@.drop_last() == old(self).queue@,
            final(self).queue@.len() == old(self).queue@.len() + 1,
            (final(self).queue@.last() matches Command::Sync(SyncCommand::Document(DocumentCommand::UpdateAnimationFrameDurationDrag(d))) && d == new_duration),
    {
        self.push_command(Command::Sync(SyncCommand::Document(DocumentCommand::UpdateAnimationFrameDurationDrag(new_duration))));
    }

    pub fn end_animation_frame_duration_drag(&mut self)
        ensures
            final(self).queue@.drop_last() == old(self).queue@,
            final(self).queue@.len() == old(self).queue@.len() + 1,
            final(self).queue@.last() matches Command::Sync(SyncCommand::Document(DocumentCommand::EndAnimationFrameDurationDrag)),
    {
        self.push_command(Command::Sync(SyncCommand::Document(DocumentCommand::EndAnimationFrameDurationDrag)));
    }

    pub fn begin_animation_frame_drag(&mut self, animation_frame_index: usize)
        ensures
            final(self).queue@.drop_last() == old(self).queue@,
            final(self).queue@.len() == old(self).queue@.len() + 1,
            (final(self).queue@.last() matches Command::Sync(SyncCommand::Document(DocumentCommand::BeginAnimationFrameDrag(i))) && i == animation_frame_index),
    {
        self.push_command(Command::Sync(SyncCommand::Document(DocumentCommand::BeginAnimationFrameDrag(animation_frame_index))));
    }

    pub fn end_animation_frame_drag(&mut self)
        ensures
            final(self).queue@.drop_last() == old(self).queue@,
            final(self).queue@.len() == old(self).queue@.len() + 1,
            final(self).queue@.last() matches Command::Sync(SyncCommand::Document(DocumentCommand::EndAnimationFrameDrag)),
    {
        self.push_command(Command::Sync(SyncCommand::Document(DocumentCommand::EndAnimationFrameDrag)));
    }

    pub fn begin_animation_frame_offset_drag(&mut self, frame_index: usize)
        ensures
            final(self).queue@.drop_last() == old(self).queue@,
            final(self).queue@.len() == old(self).queue@.len() + 1,
            (final(self).queue@.last() matches Command::Sync(SyncCommand::Document(DocumentCommand::BeginAnimationFrameOffsetDrag(i))) && i == frame_index),
    {
        self.push_command(Command::Sync(SyncCommand::Document(DocumentCommand::BeginAnimationFrameOffsetDrag(frame_index))));
    }

    pub fn update_animation_frame_offset_drag(&mut self, delta: (i32, i32))
        ensures
            final(self).queue@.drop_last() == old(self).queue@,
            final(self).queue@.len() == old(self).queue@.len() + 1,
            (final(self).queue@.last() matches Command::Sync(SyncCommand::Document(DocumentCommand::UpdateAnimationFrameOffsetDrag(d))) && d == delta),
    {
        self.push_command(Command::Sync(SyncCommand::Document(DocumentCommand::UpdateAnimationFrameOffsetDrag(delta))));
    }

    pub fn end_animation_frame_offset_drag(&mut self)
        ensures
            final(self).queue@.drop_last() == old(self).queue@,
            final(self).queue@.len() == old(self).queue@.len() + 1,
            final(self).queue@.last() matches Command::Sync(SyncCommand::Document(DocumentCommand::EndAnimationFrameOffsetDrag)),
    {
        self.push_command(Command::Sync(SyncCommand::Document(DocumentCommand::EndAnimationFrameOffsetDrag)));
    }

    pub fn workbench_zoom_in(&mut self)
        ensures
            final(self).queue@.drop_last() == old(self).queue@,
            final(self).queue@.len() == old(self).queue@.len() + 1,
            final(self).queue@.last() matches Command::Sync(SyncCommand::Document(DocumentCommand::WorkbenchZoomIn)),
    {
        self.push_command(Command::Sync(SyncCommand::Document(DocumentCommand::WorkbenchZoomIn)));
    }

    pub fn workbench_zoom_out(&mut self)
        ensures
            final(self).queue@.drop_last() == old(self).queue@,
            final(self).queue@.len() == old(self).queue@.len() + 1,
            final(self).queue@.last() matches Command::Sync(SyncCommand::Document(DocumentCommand::WorkbenchZoomOut)),
    {
        self.push_command(Command::Sync(SyncCommand::Document(DocumentCommand::WorkbenchZoomOut)));
    }

    pub fn workbench_reset_zoom(&mut self)
        ensures
            final(self).queue@.drop_last() == old(self).queue@,
            final(self).queue@.len() == old(self).queue@.len() + 1,
            final(self).queue@.last() matches Command::Sync(SyncCommand::Document(DocumentCommand::WorkbenchResetZoom)),
    {
        self.push_command(Command::Sync(SyncCommand::Document(DocumentCommand::WorkbenchResetZoom)));
    }

    pub fn workbench_center(&mut self)
        ensures
            final(self).queue@.drop_last() == old(self).queue@,
            final(self).queue@.len() == old(self).queue@.len() + 1,
            final(self).queue@.last() matches Command::Sync(SyncCommand::Document(DocumentCommand::WorkbenchCenter)),
    {
        self.push_command(Command::Sync(SyncCommand::Document(DocumentCommand::WorkbenchCenter)));
    }

    pub fn pan(&mut self, delta: (i32, i32))
        ensures
            final(self).queue@.drop_last() == old(self).queue@,
            final(self).queue@.len() == old(self).queue@.len() + 1,
            (final(self).queue@.last() matches Command::Sync(SyncCommand::Document(DocumentCommand::Pan(d))) && d == delta),
    {
        self.push_command(Command::Sync(SyncCommand::Document(DocumentCommand::Pan(delta))));
    }

    pub fn create_hitbox(&mut self, position: (i32, i32))
        ensures
            final(self).queue@.drop_last() == old(self).queue@,
            final(self).queue@.len() == old(self).queue@.len() + 1,
            (final(self).queue@.last() matches Command::Sync(SyncCommand::Document(DocumentCommand::CreateHitbox(p))) && p == position),
    {
        self.push_command(Command::Sync(SyncCommand::Document(DocumentCommand::CreateHitbox(position))));
    }

    pub fn begin_hitbox_scale(&mut self, hitbox: &Hitbox, axis: ResizeAxis)
        ensures
            final(self).queue@.drop_last() == old(self).queue@,
            final(self).queue@.len() == old(self).queue@.len() + 1,
            (final(self).queue@.last() matches Command::Sync(SyncCommand::Document(DocumentCommand::BeginHitboxScale(n, a))) && n@ == hitbox.name@ && a == axis),
    {
        self.push_command(Command::Sync(SyncCommand::Document(DocumentCommand::BeginHitboxScale(hitbox.name.clone(), axis))));
    }

    pub fn update_hitbox_scale(&mut self, delta: (i32, i32))
        ensures
            final(self).queue@.drop_last() == old(self).queue@,
            final(self).queue@.len() == old(self).queue@.len() + 1,
            (final(self).queue@.last() matches Command::Sync(SyncCommand::Document(DocumentCommand::UpdateHitboxScale(d))) && d == delta),
    {
        self.push_command(Command::Sync(SyncCommand::Document(DocumentCommand::UpdateHitboxScale(delta))));
    }

    pub fn end_hitbox_scale(&mut self)
        ensures
            final(self).queue@.drop_last() == old(self).queue@,
            final(self).queue@.len() == old(self).queue@.len() + 1,
            final(self).queue@.last() matches Command::Sync(SyncCommand::Document(DocumentCommand::EndHitboxScale)),
    {
        self.push_command(Command::Sync(SyncCommand::Document(DocumentCommand::EndHitboxScale)));
    }

    pub fn begin_hitbox_drag(&mut self, hitbox: &Hitbox)
        ensures
            final(self).queue@.drop_last() == old(self).queue@,
            final(self).queue@.len() == old(self).queue@.len() + 1,
            (final(self).queue@.last() matches Command::Sync(SyncCommand::Document(DocumentCommand::BeginHitboxDrag(n))) && n@ == hitbox.name@),
    {
        self.push_command(Command::Sync(SyncCommand::Document(DocumentCommand::BeginHitboxDrag(hitbox.name.clone()))));
    }

    pub fn update_hitbox_drag(&mut self, delta: (i32, i32))
        ensures
            final(self).queue@.drop_last() == old(self).queue@,
            final(self).queue@.len() == old(self).queue@.len() + 1,
            (final(self).queue@.last() matches Command::Sync(SyncCommand::Document(DocumentCommand::UpdateHitboxDrag(d))) && d == delta),
    {
        self.push_command(Command::Sync(SyncCommand::Document(DocumentCommand::UpdateHitboxDrag(delta))));
    }

    pub fn end_hitbox_drag(&mut self)
        ensures
            final(self).queue@.drop_last() == old(self).queue@,
            final(self).queue@.len() == old(self).queue@.len() + 1,
            final(self).queue@.last() matches Command::Sync(SyncCommand::Document(DocumentCommand::EndHitboxDrag)),
    {
        self.push_command(Command::Sync(SyncCommand::Document(DocumentCommand::EndHitboxDrag)));
    }

    pub fn toggle_playback(&mut self)
        ensures
            final(self).queue@.drop_last() == old(self).queue@,
            final(self).queue@.len() == old(self).queue@.len() + 1,
            final(self).queue@.last() matches Command::Sync(SyncCommand::Document(DocumentCommand::TogglePlayback)),
    {
        self.push_command(Command::Sync(SyncCommand::Document(DocumentCommand::TogglePlayback)));
    }

    pub fn snap_to_previous_frame(&mut self)
        ensures
            final(self).queue@.drop_last() == old(self).queue@,
            final(self).queue@.len() == old(self).queue@.len() + 1,
            final(self).queue@.last() matches Command::Sync(SyncCommand::Document(DocumentCommand::SnapToPreviousFrame)),
    {
        self.push_command(Command::Sync(SyncCommand::Document(DocumentCommand::SnapToPreviousFrame)));
    }

    pub fn snap_to_next_frame(&mut self)
        ensures
            final(self).queue@.drop_last() == old(self).queue@,
            final(self).queue@.len() == old(self).queue@.len() + 1,
            final(self).queue@.last() matches Command::Sync(SyncCommand::Document(DocumentCommand::SnapToNextFrame)),
    {
        self.push_command(Command::Sync(SyncCommand::Document(DocumentCommand::SnapToNextFrame)));
    }

    pub fn toggle_looping(&mut self)
        ensures
            final(self).queue@.drop_last() == old(self).queue@,
            final(self).queue@.len() == old(self).queue@.len() + 1,
            final(self).queue@.last() matches Command::Sync(SyncCommand::Document(DocumentCommand::ToggleLooping)),
    {
        self.push_command(Command::Sync(SyncCommand::Document(DocumentCommand::ToggleLooping)));
    }

    pub fn timeline_zoom_in(&mut self)
        ensures
            final(self).queue@.drop_last() == old(self).queue@,
            final(self).queue@.len() == old(self).queue@.len() + 1,
            final(self).queue@.last() matches Command::Sync(SyncCommand::Document(DocumentCommand::TimelineZoomIn)),
    {
        self.push_command(Command::Sync(SyncCommand::Document(DocumentCommand::TimelineZoomIn)));
    }

    pub fn timeline_zoom_out(&mut self)
        ensures
            final(self).queue@.drop_last() == old(self).queue@,
            final(self).queue@.len() == old(self).queue@.len() + 1,
            final(self).queue@.last() matches Command::Sync(SyncCommand::Document(DocumentCommand::TimelineZoomOut)),
    {
        self.push_command(Command::Sync(SyncCommand::Document(DocumentCommand::TimelineZoomOut)));
    }

    pub fn timeline_reset_zoom(&mut self)
        ensures
            final(self).queue@.drop_last() == old(self).queue@,
            final(self).queue@.len() == old(self).queue@.len() + 1,
            final(self).queue@.last() matches Command::Sync(SyncCommand::Document(DocumentCommand::TimelineResetZoom)),
    {
        self.push_command(Command::Sync(SyncCommand::Document(DocumentCommand::TimelineResetZoom)));
    }

    pub fn begin_scrub(&mut self)
        ensures
            final(self).queue@.drop_last() == old(self).queue@,
            final(self).queue@.len() == old(self).queue@.len() + 1,
            final(self).queue@.last() matches Command::Sync(SyncCommand::Document(DocumentCommand::BeginScrub)),
    {
        self.push_command(Command::Sync(SyncCommand::Document(DocumentCommand::BeginScrub)));
    }

    pub fn update_scrub(&mut self, new_time: u128)
        ensures
            final(self).queue@.drop_last() == old(self).queue@,
            final(self).queue@.len() == old(self).queue@.len() + 1,
            (final(self).queue@.last() matches Command::Sync(SyncCommand::Document(DocumentCommand::UpdateScrub(t))) && t == new_time),
    {
        self.push_command(Command::Sync(SyncCommand::Document(DocumentCommand::UpdateScrub(new_time))));
    }

    pub fn end_scrub(&mut self)
        ensures
            final(self).queue@.drop_last() == old(self).queue@,
            final(self).queue@.len() == old(self).queue@.len() + 1,
            final(self).queue@.last() matches Command::Sync(SyncCommand::Document(DocumentCommand::EndScrub)),
    {
        self.push_command(Command::Sync(SyncCommand::Document(DocumentCommand::EndScrub)));
    }

    pub fn nudge_selection_left(&mut self, large: bool)
        ensures
            final(self).queue@.drop_last() == old(self).queue@,
            final(self).queue@.len() == old(self).queue@.len() + 1,
            (final(self).queue@.last() matches Command::Sync(SyncCommand::Document(DocumentCommand::NudgeSelection(d, l))) && d == (-1i32, 0i32) && l == large),
    {
        self.push_command(Command::Sync(SyncCommand::Document(DocumentCommand::NudgeSelection((-1, 0), large))));
    }

    pub fn nudge_selection_right(&mut self, large: bool)
        ensures
            final(self).queue@.drop_last() == old(self).queue@,
            final(self).queue@.len() == old(self).queue@.len() + 1,
            (final(self).queue@.last() matches Command::Sync(SyncCommand::Document(DocumentCommand::NudgeSelection(d, l))) && d == (1i32, 0i32) && l == large),
    {
        self.push_command(Command::Sync(SyncCommand::Document(DocumentCommand::NudgeSelection((1, 0), large))));
    }

    pub fn nudge_selection_up(&mut self, large: bool)
        ensures
            final(self).queue@.drop_last() == old(self).queue@,
            final(self).queue@.len() == old(self).queue@.len() + 1,
            (final(self).queue@.last() matches Command::Sync(SyncCommand::Document(DocumentCommand::NudgeSelection(d, l))) && d == (0i32, -1i32) && l == large),
    {
        self.push_command(Command::Sync(SyncCommand::Document(DocumentCommand::NudgeSelection((0, -1), large))));
    }

    pub fn nudge_selection_down(&mut self, large: bool)
        ensures
            final(self).queue@.drop_last() == old(self).queue@,
            final(self).queue@.len() == old(self).queue@.len() + 1,
            (final(self).queue@.last() matches Command::Sync(SyncCommand::Document(DocumentCommand::NudgeSelection(d, l))) && d == (0i32, 1i32) && l == large),
    {
        self.push_command(Command::Sync(SyncCommand::Document(DocumentCommand::NudgeSelection((0, 1), large))));
    }

    pub fn delete_selection(&mut self)
        ensures
            final(self).queue@.drop_last() == old(self).queue@,
            final(self).queue@.len() == old(self).queue@.len() + 1,
            final(self).queue@.last() matches Command::Sync(SyncCommand::Document(DocumentCommand::DeleteSelection)),
    {
        self.push_command(Command::Sync(SyncCommand::Document(DocumentCommand::DeleteSelection)));
    }

    pub fn begin_rename_selection(&mut self)
        ensures
            final(self).queue@.drop_last() == old(self).queue@,
            final(self).queue@.len() == old(self).queue@.len() + 1,
            final(self).queue@.last() matches Command::Sync(SyncCommand::Document(DocumentCommand::BeginRenameSelection)),
    {
        self.push_command(Command::Sync(SyncCommand::Document(DocumentCommand::BeginRenameSelection)));
    }

    pub fn update_rename_selection(&mut self, new_name: &str)
        ensures
            final(self).queue@.drop_last() == old(self).queue@,
            final(self).queue@.len() == old(self).queue@.len() + 1,
            (final(self).queue@.last() matches Command::Sync(SyncCommand::Document(DocumentCommand::UpdateRenameSelection(n))) && n@ == new_name@),
    {
        self.push_command(Command::Sync(SyncCommand::Document(DocumentCommand::UpdateRenameSelection(new_name.to_owned()))));
    }

    pub fn end_rename_selection(&mut self)
        ensures
            final(self).queue@.drop_last() == old(self).queue@,
            final(self).queue@.len() == old(self).queue@.len() + 1,
            final(self).queue@.last() matches Command::Sync(SyncCommand::Document(DocumentCommand::EndRenameSelection)),
    {
        self.push_command(Command::Sync(SyncCommand::Document(DocumentCommand::EndRenameSelection)));
    }

    pub fn exit(&mut self)
        ensures
            final(self).queue@.drop_last() == old(self).queue@,
            final(self).queue@.len() == old(self).queue@.len() + 1,
            final(self).queue@.last() matches Command::Sync(SyncCommand::App(AppCommand::Exit)),
    {
        self.push_command(Command::Sync(SyncCommand::App(AppCommand::Exit)));
    }

    pub fn cancel_exit(&mut self)
        ensures
            final(self).queue@.drop_last() == old(self).queue@,
            final(self).queue@.len() == old(self).queue@.len() + 1,
            final(self).queue@.last() matches Command::Sync(SyncCommand::App(AppCommand::CancelExit)),
    {
        self.push_command(Command::Sync(SyncCommand::App(AppCommand::CancelExit)));
    }
}

} // verus!
