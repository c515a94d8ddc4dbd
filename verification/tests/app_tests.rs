use tiger::app_state::{AppState, ExitState};
use tiger::command::{AppCommand, AsyncCommand, Command, DocumentCommand, SyncCommand};
use tiger::command_buffer::CommandBuffer;
use tiger::document::{CloseState, Document};
use tiger::error::{MainError, StateError, UserFacingError};
use tiger::file_watching::FileWatcher;
use tiger::model::Model;
use tiger::sheet::Sheet;

fn app(command: AppCommand) -> SyncCommand {
    SyncCommand::App(command)
}

fn doc(command: DocumentCommand) -> SyncCommand {
    SyncCommand::Document(command)
}

#[test]
fn documents_open_focus_and_close() {
    let mut state = AppState::new();
    assert!(matches!(state.process_sync_command(doc(DocumentCommand::ClearSelection)), Err(StateError::NoDocumentOpen)));
    state.process_sync_command(app(AppCommand::EndNewDocument("a.tiger".to_owned()))).unwrap();
    state.process_sync_command(app(AppCommand::EndNewDocument("b.tiger".to_owned()))).unwrap();
    state.process_sync_command(app(AppCommand::EndNewDocument("c.tiger".to_owned()))).unwrap();
    assert_eq!(state.documents_iter().len(), 3);
    assert_eq!(state.get_current_document().unwrap().source, "c.tiger");
    state.process_sync_command(app(AppCommand::FocusDocument("b.tiger".to_owned()))).unwrap();
    assert_eq!(state.get_current_document().unwrap().source, "b.tiger");
    assert!(matches!(
        state.process_sync_command(app(AppCommand::FocusDocument("z.tiger".to_owned()))),
        Err(StateError::DocumentNotFound)
    ));
    state.close_document("b.tiger");
    assert_eq!(state.get_current_document().unwrap().source, "c.tiger");
    state.close_document("c.tiger");
    assert_eq!(state.get_current_document().unwrap().source, "a.tiger");
    assert!(state.is_opened("a.tiger"));
    assert!(!state.is_opened("b.tiger"));
}

#[test]
fn reopening_a_document_keeps_the_open_one() {
    let mut state = AppState::new();
    state.process_sync_command(app(AppCommand::EndNewDocument("a.tiger".to_owned()))).unwrap();
    state
        .process_sync_command(doc(DocumentCommand::EndImport("a.tiger".to_owned(), "x.png".to_owned())))
        .unwrap();
    state.process_sync_command(app(AppCommand::EndOpenDocument(Document::open("a.tiger", Sheet::new())))).unwrap();
    assert_eq!(state.documents_iter().len(), 1);
    assert!(state.get_document("a.tiger").unwrap().sheet.has_frame("x.png"));
}

#[test]
fn relocating_a_document() {
    let mut state = AppState::new();
    state.process_sync_command(app(AppCommand::EndNewDocument("a.tiger".to_owned()))).unwrap();
    state.process_sync_command(app(AppCommand::EndNewDocument("b.tiger".to_owned()))).unwrap();
    state.process_sync_command(app(AppCommand::FocusDocument("a.tiger".to_owned()))).unwrap();
    state
        .process_sync_command(app(AppCommand::RelocateDocument("a.tiger".to_owned(), "b.tiger".to_owned())))
        .unwrap();
    assert_eq!(state.documents_iter().len(), 1);
    assert_eq!(state.get_current_document().unwrap().source, "b.tiger");
    assert!(matches!(
        state.process_sync_command(app(AppCommand::RelocateDocument("q.tiger".to_owned(), "r.tiger".to_owned()))),
        Err(StateError::DocumentNotFound)
    ));
}

#[test]
fn undo_and_redo_through_the_app() {
    let mut state = AppState::new();
    assert!(matches!(state.process_sync_command(app(AppCommand::Undo)), Err(StateError::NoDocumentOpen)));
    state.process_sync_command(app(AppCommand::EndNewDocument("a.tiger".to_owned()))).unwrap();
    state
        .process_sync_command(doc(DocumentCommand::EndImport("a.tiger".to_owned(), "x.png".to_owned())))
        .unwrap();
    state.process_sync_command(app(AppCommand::Undo)).unwrap();
    assert!(!state.get_current_document().unwrap().sheet.has_frame("x.png"));
    state.process_sync_command(app(AppCommand::Redo)).unwrap();
    assert!(state.get_current_document().unwrap().sheet.has_frame("x.png"));
    assert!(matches!(
        state.process_sync_command(doc(DocumentCommand::MarkAsSaved("z.tiger".to_owned(), 1))),
        Err(StateError::DocumentNotFound)
    ));
}

#[test]
fn errors_and_exit() {
    let mut state = AppState::new();
    assert!(state.get_error().is_none());
    state.process_sync_command(app(AppCommand::ShowError(UserFacingError::Save))).unwrap();
    state.process_sync_command(app(AppCommand::ShowError(UserFacingError::Open))).unwrap();
    assert!(matches!(state.get_error(), Some(UserFacingError::Save)));
    state.process_sync_command(app(AppCommand::ClearError)).unwrap();
    assert!(matches!(state.get_error(), Some(UserFacingError::Open)));

    state.process_sync_command(app(AppCommand::EndNewDocument("a.tiger".to_owned()))).unwrap();
    state.process_sync_command(app(AppCommand::Exit)).unwrap();
    assert_eq!(state.get_exit_state(), Some(ExitState::Requested));
    state.tick(1_000);
    assert_eq!(state.get_exit_state(), Some(ExitState::Requested));
    state.process_sync_command(app(AppCommand::CancelExit)).unwrap();
    assert_eq!(state.get_exit_state(), None);
    state.process_sync_command(app(AppCommand::Exit)).unwrap();
    state.process_sync_command(app(AppCommand::CloseAllDocuments)).unwrap();
    state.tick(1_000);
    assert_eq!(state.get_exit_state(), Some(ExitState::Allowed));
    assert_eq!(state.get_clock(), 2_000);
}

#[test]
fn user_facing_errors() {
    assert!(matches!(
        UserFacingError::from_command(AsyncCommand::ReadDocument("a".to_owned()), "boom"),
        Some(UserFacingError::Open)
    ));
    assert!(matches!(
        UserFacingError::from_command(AsyncCommand::Save("a".to_owned(), Sheet::new(), 0), "boom"),
        Some(UserFacingError::Save)
    ));
    match UserFacingError::from_command(AsyncCommand::Export(Sheet::new()), "disk full") {
        Some(e) => assert_eq!(e.message(), "Export failed:\ndisk full"),
        None => panic!("an export error is shown"),
    }
    assert!(UserFacingError::from_command(AsyncCommand::BeginOpenDocument, "x").is_none());
    assert_eq!(UserFacingError::Open.message(), "Could not open document");
    assert_eq!(MainError::SwapError.message(), "Could not swap framebuffers");
}

#[test]
fn command_buffer_queues_in_order() {
    let mut buffer = CommandBuffer::new();
    buffer.undo();
    buffer.mark_as_saved("a.tiger", 3);
    buffer.nudge_selection_left(true);
    let mut other = CommandBuffer::new();
    other.export(&Sheet::new());
    buffer.append(other);
    let commands = buffer.flush();
    assert_eq!(commands.len(), 4);
    assert!(matches!(commands[0], Command::Sync(SyncCommand::App(AppCommand::Undo))));
    assert!(matches!(&commands[1], Command::Sync(SyncCommand::Document(DocumentCommand::MarkAsSaved(p, 3))) if p == "a.tiger"));
    assert!(matches!(commands[2], Command::Sync(SyncCommand::Document(DocumentCommand::NudgeSelection((-1, 0), true)))));
    assert!(matches!(commands[3], Command::Async(AsyncCommand::Export(_))));
    assert!(buffer.flush().is_empty());
}

#[test]
fn watched_files_follow_the_documents() {
    let mut state = AppState::new();
    state.process_sync_command(app(AppCommand::EndNewDocument("a.tiger".to_owned()))).unwrap();
    state
        .process_sync_command(doc(DocumentCommand::EndImport("a.tiger".to_owned(), "x.png".to_owned())))
        .unwrap();
    state
        .process_sync_command(doc(DocumentCommand::EndImport("a.tiger".to_owned(), "y.png".to_owned())))
        .unwrap();
    let mut watcher = FileWatcher::new();
    let changes = watcher.update_watched_files(&state);
    assert!(changes.to_unwatch.is_empty());
    let mut watch = changes.to_watch.clone();
    watch.sort();
    assert_eq!(watch, vec!["x.png".to_owned(), "y.png".to_owned()]);
    state.process_sync_command(doc(DocumentCommand::SelectFrame("x.png".to_owned()))).unwrap();
    state.process_sync_command(doc(DocumentCommand::DeleteSelection)).unwrap();
    let changes = watcher.update_watched_files(&state);
    assert_eq!(changes.to_unwatch, vec!["x.png".to_owned()]);
    assert!(changes.to_watch.is_empty());
    assert_eq!(watcher.watched_files, vec!["y.png".to_owned()]);
}

#[test]
fn empty_model() {
    assert!(Model::new().documents.is_empty());
}

#[test]
fn closing_the_current_document() {
    let mut state = AppState::new();
    assert!(matches!(state.process_sync_command(doc(DocumentCommand::Close)), Err(StateError::NoDocumentOpen)));
    state.process_sync_command(app(AppCommand::EndNewDocument("a.tiger".to_owned()))).unwrap();
    state.process_sync_command(app(AppCommand::EndNewDocument("b.tiger".to_owned()))).unwrap();
    state.process_sync_command(doc(DocumentCommand::Close)).unwrap();
    // b.tiger has no unsaved changes: it closes on the next tick.
    assert_eq!(state.documents_iter().len(), 2);
    state.tick(1);
    assert_eq!(state.get_current_document().unwrap().source, "a.tiger");
    assert_eq!(state.documents_iter().len(), 1);
}

#[test]
fn closing_a_modified_document_offers_to_save_it() {
    let mut state = AppState::new();
    state.process_sync_command(app(AppCommand::EndNewDocument("a.tiger".to_owned()))).unwrap();
    state
        .process_sync_command(doc(DocumentCommand::EndImport("a.tiger".to_owned(), "x.png".to_owned())))
        .unwrap();
    state.process_sync_command(doc(DocumentCommand::Close)).unwrap();
    state.tick(1);
    assert_eq!(state.documents_iter().len(), 1);
    assert_eq!(state.get_current_document().unwrap().persistent.close_state, Some(CloseState::Requested));

    state.process_sync_command(doc(DocumentCommand::CancelClose)).unwrap();
    assert_eq!(state.get_current_document().unwrap().persistent.close_state, None);
    state.tick(1);
    assert_eq!(state.documents_iter().len(), 1);

    state.process_sync_command(doc(DocumentCommand::Close)).unwrap();
    state.process_sync_command(doc(DocumentCommand::CloseAfterSaving)).unwrap();
    state.tick(1);
    assert_eq!(state.documents_iter().len(), 1);
    let version = state.get_current_document().unwrap().get_version();
    state
        .process_sync_command(doc(DocumentCommand::MarkAsSaved("a.tiger".to_owned(), version)))
        .unwrap();
    state.tick(1);
    assert_eq!(state.documents_iter().len(), 0);
}

#[test]
fn closing_without_saving_drops_the_changes() {
    let mut state = AppState::new();
    state.process_sync_command(app(AppCommand::EndNewDocument("a.tiger".to_owned()))).unwrap();
    state
        .process_sync_command(doc(DocumentCommand::EndImport("a.tiger".to_owned(), "x.png".to_owned())))
        .unwrap();
    state.process_sync_command(app(AppCommand::CloseAllDocuments)).unwrap();
    state.tick(1);
    assert_eq!(state.documents_iter().len(), 1);
    state.process_sync_command(doc(DocumentCommand::CloseWithoutSaving)).unwrap();
    state.tick(1);
    assert_eq!(state.documents_iter().len(), 0);
}

#[test]
fn documents_are_told_apart_as_paths() {
    let mut state = AppState::new();
    state.process_sync_command(app(AppCommand::EndNewDocument("p/a.tiger".to_owned()))).unwrap();
    state.process_sync_command(app(AppCommand::EndNewDocument("q.tiger".to_owned()))).unwrap();
    state
        .process_sync_command(app(AppCommand::EndOpenDocument(Document::open("p//a.tiger", Sheet::new()))))
        .unwrap();
    assert_eq!(state.documents_iter().len(), 2);
    assert_eq!(state.get_current_document().unwrap().source, "p/a.tiger");
    assert!(state.is_opened("p/./a.tiger"));
    state.process_sync_command(app(AppCommand::EndNewDocument("p/a.tiger/".to_owned()))).unwrap();
    assert_eq!(state.documents_iter().len(), 2);
    state
        .process_sync_command(app(AppCommand::RelocateDocument("p//a.tiger".to_owned(), "r.tiger".to_owned())))
        .unwrap();
    assert!(state.is_opened("r.tiger"));
    assert!(!state.is_opened("p/a.tiger"));
    assert_eq!(state.get_current_document().unwrap().source, "r.tiger");
}
