//! The editor's state: the open documents, which one is current, the errors
//! waiting to be shown, and whether the editor is on its way out.

use vstd::prelude::*;
use crate::command::{AppCommand, DocumentCommand, SyncCommand};
use crate::document::{
    CloseState, Document, DocumentModel, EditState, PersistentModel, fresh_history, fresh_state,
    recorded, redone, ticked, undone, with_state,
};
use crate::document_commands::{after_command, command_fits};
use crate::error::{StateError, UserFacingError, UserFacingErrorModel};
use crate::sheet::{first_index, lemma_filter_step, lemma_first_index, lemma_first_index_none, same_path_flags};
use crate::paths::{same_path, spec_same_path};
use crate::transient::{Transient, idle_transient, string_option_model};

verus! {

/// Whether the editor may close.
#[derive(Clone, Copy, Debug, PartialEq, Eq, Structural)]
pub enum ExitState {
    /// The user asked to quit; documents are still open.
    Requested,
    /// Nothing stands in the way of quitting.
    Allowed,
}

/// The editor's state.
#[derive(Debug)]
pub struct AppState {
    pub documents: Vec<Document>,
    /// The path of the document being edited.
    pub current_document: Option<String>,
    /// Time spent running, in nanoseconds.
    pub clock: u128,
    /// Errors waiting to be shown, oldest first.
    pub errors: Vec<UserFacingError>,
    pub exit_state: Option<ExitState>,
}

pub struct AppStateModel {
    pub documents: Seq<DocumentModel>,
    pub current_document: Option<Seq<char>>,
    pub clock: u128,
    pub errors: Seq<UserFacingErrorModel>,
    pub exit_state: Option<ExitState>,
}

impl View for AppState {
    type V = AppStateModel;

    open spec fn view(&self) -> AppStateModel {
        AppStateModel {
            documents: self.documents@.map_values(|d: Document| d@),
            current_document: string_option_model(self.current_document),
            clock: self.clock,
            errors: self.errors@.map_values(|e: UserFacingError| e@),
            exit_state: self.exit_state,
        }
    }
}

/// Every document is well formed, and no two are saved at the same path.
pub open spec fn documents_wf(documents: Seq<DocumentModel>) -> bool {
    &&& forall|i: int| 0 <= i < documents.len() ==> #[trigger] documents[i].wf()
    &&& forall|i: int, j: int|
        #![trigger documents[i], documents[j]]
        0 <= i < j < documents.len() ==> documents[i].source != documents[j].source
}

pub open spec fn document_sources(documents: Seq<DocumentModel>) -> Seq<Seq<char>> {
    documents.map_values(|d: DocumentModel| d.source)
}

impl AppStateModel {
    /// Whether a document saved at the same path as `path` is open.
    pub open spec fn has_document(self, path: Seq<char>) -> bool {
        same_path_flags(document_sources(self.documents), path).contains(true)
    }

    /// The position of the first document saved at the same path as
    /// `path`.
    pub open spec fn document_index(self, path: Seq<char>) -> int {
        first_index(same_path_flags(document_sources(self.documents), path), true)
    }

    /// The position of the current document, where it is open.
    #[verifier::opaque]
    pub open spec fn current_index(self) -> Option<int> {
        match self.current_document {
            Some(p) => if self.has_document(p) {
                Some(self.document_index(p))
            } else {
                None
            },
            None => None,
        }
    }

    /// Every document is well formed, and no two are saved at the same path.
    pub open spec fn wf(self) -> bool {
        documents_wf(self.documents)
    }
}

/// The current document, where there is one, is among the open documents.
pub proof fn lemma_current_index_in_bounds(a: AppStateModel)
    ensures
        a.current_index() matches Some(i) ==> 0 <= i < a.documents.len(),
{
    reveal(AppStateModel::current_index);
    if let Some(p) = a.current_document {
        if a.has_document(p) {
            crate::sheet::lemma_first_index_found(same_path_flags(document_sources(a.documents), p), true);
        }
    }
}

/// A fresh document saved at `path`.
pub open spec fn new_document_model(path: Seq<char>) -> DocumentModel {
    DocumentModel {
        source: path,
        state: fresh_state(),
        next_version: 0,
        history: fresh_history(),
        history_index: 0,
    }
}

/// The document with no interaction under way.
pub open spec fn focused(d: DocumentModel) -> DocumentModel {
    with_state(d, EditState { transient: idle_transient(), ..d.state })
}

/// Making the document at `path` the current one; interactions under way in
/// it stop.
pub open spec fn after_focus_document(a: AppStateModel, path: Seq<char>) -> Result<
    AppStateModel,
    StateError,
> {
    if !a.has_document(path) {
        Err(StateError::DocumentNotFound)
    } else {
        let i = a.document_index(path);
        Ok(
            AppStateModel {
                documents: a.documents.update(i, focused(a.documents[i])),
                current_document: Some(path),
                ..a
            },
        )
    }
}

/// A new document at `path` replaces the one open at the same path, which
/// keeps the spelling of its path, or joins the open documents, and becomes
/// the current one.
pub open spec fn after_end_new_document(a: AppStateModel, path: Seq<char>) -> AppStateModel {
    AppStateModel {
        documents: if a.has_document(path) {
            a.documents.update(
                a.document_index(path),
                new_document_model(a.documents[a.document_index(path)].source),
            )
        } else {
            a.documents.push(new_document_model(path))
        },
        current_document: Some(path),
        ..a
    }
}

/// An opened document joins the open documents, unless one is open at its
/// path already, and that document becomes the current one.
pub open spec fn after_end_open_document(a: AppStateModel, d: DocumentModel) -> AppStateModel {
    let added = if a.has_document(d.source) {
        a
    } else {
        AppStateModel { documents: a.documents.push(d), ..a }
    };
    after_focus_document(added, d.source).unwrap()
}

/// Closing the document at `path`: the one after it becomes current, or the
/// last one where it was last.
pub open spec fn after_close_document(a: AppStateModel, path: Seq<char>) -> AppStateModel {
    if !a.has_document(path) {
        a
    } else {
        let i = a.document_index(path);
        let documents = a.documents.remove(i);
        AppStateModel {
            documents,
            current_document: if documents.len() == 0 {
                None
            } else {
                Some(documents[if i < documents.len() { i } else { documents.len() - 1 }].source)
            },
            ..a
        }
    }
}

/// Whether a document that was asked to close may now close: closing
/// without saving was chosen, or it has no unsaved changes (it had none
/// when asked, or the save chosen before closing is done).
pub open spec fn ready_to_close(d: DocumentModel) -> bool {
    match d.state.persistent.close_state {
        Some(CloseState::Allowed) => true,
        Some(_) => 0 <= d.history_index < d.history.len() && d.is_saved(),
        None => false,
    }
}

/// The sources of the documents that may now close, in order.
pub open spec fn closing_sources(documents: Seq<DocumentModel>) -> Seq<Seq<char>>
    decreases documents.len(),
{
    if documents.len() == 0 {
        Seq::empty()
    } else {
        let rest = closing_sources(documents.drop_last());
        if ready_to_close(documents.last()) {
            rest.push(documents.last().source)
        } else {
            rest
        }
    }
}

/// The state once the documents at `paths` are closed, one after the other.
pub open spec fn closed_all(a: AppStateModel, paths: Seq<Seq<char>>) -> AppStateModel
    decreases paths.len(),
{
    if paths.len() == 0 {
        a
    } else {
        after_close_document(closed_all(a, paths.drop_last()), paths.last())
    }
}

/// The documents that may now close are closed; then, where exit was
/// requested and every document is closed, exit is allowed.
pub open spec fn after_advance_exit(a: AppStateModel) -> AppStateModel {
    let c = closed_all(a, closing_sources(a.documents));
    if c.exit_state == Some(ExitState::Requested) && c.documents.len() == 0 {
        AppStateModel { exit_state: Some(ExitState::Allowed), ..c }
    } else {
        c
    }
}

/// The document, asked to close where it was not already.
pub open spec fn closing(d: DocumentModel) -> DocumentModel {
    DocumentModel {
        state: EditState {
            persistent: PersistentModel {
                close_state: match d.state.persistent.close_state {
                    None => Some(CloseState::Requested),
                    other => other,
                },
                ..d.state.persistent
            },
            ..d.state
        },
        ..d
    }
}

/// The documents once those open at the same path as `to` are dropped and
/// the first of the others open at the same path as `from` has moved to
/// `to`.
pub open spec fn relocated(documents: Seq<DocumentModel>, from: Seq<char>, to: Seq<char>) -> Seq<
    DocumentModel,
> {
    let kept = documents.filter(|d: DocumentModel| !spec_same_path(d.source, to));
    let m = first_index(same_path_flags(document_sources(kept), from), true);
    if m >= 0 {
        kept.update(m, DocumentModel { source: to, ..kept[m] })
    } else {
        kept
    }
}

/// Whether some document stays to move from `from` to `to`.
pub open spec fn relocation_moves(documents: Seq<DocumentModel>, from: Seq<char>, to: Seq<char>) -> bool {
    same_path_flags(
        document_sources(documents.filter(|d: DocumentModel| !spec_same_path(d.source, to))),
        from,
    ).contains(true)
}

/// Moving the document at `from` to `to`, as after saving it under a new
/// path.
pub open spec fn after_relocate_document(a: AppStateModel, from: Seq<char>, to: Seq<char>) -> Result<
    AppStateModel,
    StateError,
> {
    if spec_same_path(from, to) {
        Ok(a)
    } else if !a.has_document(from) {
        Err(StateError::DocumentNotFound)
    } else {
        Ok(
            AppStateModel {
                documents: relocated(a.documents, from, to),
                current_document: match a.current_document {
                    Some(c) => if relocation_moves(a.documents, from, to) && spec_same_path(from, c) {
                        Some(to)
                    } else {
                        Some(c)
                    },
                    None => None,
                },
                ..a
            },
        )
    }
}

/// Time passing: the editor's clock advances, and so does the current
/// document's timeline.
pub open spec fn after_tick(a: AppStateModel, delta: int) -> AppStateModel {
    let documents = match a.current_index() {
        Some(i) => a.documents.update(
            i,
            with_state(a.documents[i], ticked(a.documents[i].state, delta)),
        ),
        None => a.documents,
    };
    after_advance_exit(AppStateModel { clock: (a.clock + delta) as u128, documents, ..a })
}

/// What an application command makes of the editor's state, or the error
/// it fails with.
pub open spec fn after_app_command(a: AppStateModel, command: AppCommand) -> Result<
    AppStateModel,
    StateError,
> {
    match command {
        AppCommand::EndNewDocument(p) => Ok(after_end_new_document(a, p@)),
        AppCommand::EndOpenDocument(d) => Ok(after_end_open_document(a, d@)),
        AppCommand::RelocateDocument(from, to) => after_relocate_document(a, from@, to@),
        AppCommand::FocusDocument(p) => after_focus_document(a, p@),
        AppCommand::CloseAllDocuments => Ok(
            AppStateModel { documents: a.documents.map_values(|d: DocumentModel| closing(d)), ..a },
        ),
        AppCommand::Undo => match a.current_index() {
            None => Err(StateError::NoDocumentOpen),
            Some(i) => match undone(a.documents[i]) {
                Ok(d) => Ok(AppStateModel { documents: a.documents.update(i, d), ..a }),
                Err(e) => Err(e),
            },
        },
        AppCommand::Redo => match a.current_index() {
            None => Err(StateError::NoDocumentOpen),
            Some(i) => match redone(a.documents[i]) {
                Ok(d) => Ok(AppStateModel { documents: a.documents.update(i, d), ..a }),
                Err(e) => Err(e),
            },
        },
        AppCommand::ShowError(e) => Ok(AppStateModel { errors: a.errors.push(e@), ..a }),
        AppCommand::ClearError => Ok(AppStateModel { errors: a.errors.drop_first(), ..a }),
        AppCommand::Exit => Ok(
            AppStateModel {
                exit_state: if a.exit_state is None {
                    Some(ExitState::Requested)
                } else {
                    a.exit_state
                },
                ..a
            },
        ),
        AppCommand::CancelExit => Ok(AppStateModel { exit_state: None, ..a }),
    }
}

/// The path of the document that a command names, for the commands that
/// name one; the others act on the current document.
pub open spec fn command_path(command: DocumentCommand) -> Option<Seq<char>> {
    match command {
        DocumentCommand::EndImport(p, _) => Some(p@),
        DocumentCommand::MarkAsSaved(p, _) => Some(p@),
        DocumentCommand::EndSetExportTextureDestination(p, _) => Some(p@),
        DocumentCommand::EndSetExportMetadataDestination(p, _) => Some(p@),
        DocumentCommand::EndSetExportMetadataPathsRoot(p, _) => Some(p@),
        DocumentCommand::EndSetExportFormat(p, _) => Some(p@),
        _ => None,
    }
}

/// The position of the document that a command acts on.
pub open spec fn target_document(a: AppStateModel, command: DocumentCommand) -> Result<int, StateError> {
    match command_path(command) {
        Some(p) => if a.has_document(p) {
            Ok(a.document_index(p))
        } else {
            Err(StateError::DocumentNotFound)
        },
        None => match a.current_index() {
            Some(i) => Ok(i),
            None => Err(StateError::NoDocumentOpen),
        },
    }
}

/// What a document command makes of the editor's state, or the error it
/// fails with.
pub open spec fn after_document_command(a: AppStateModel, command: DocumentCommand) -> Result<
    AppStateModel,
    StateError,
> {
    match target_document(a, command) {
        Err(e) => Err(e),
        Ok(i) => match after_command(a.documents[i].state, command) {
            Err(e) => Err(e),
            Ok(s) => Ok(
                AppStateModel {
                    documents: a.documents.update(
                        i,
                        recorded(with_state(a.documents[i], s), command),
                    ),
                    ..a
                },
            ),
        },
    }
}

/// What carrying out a document command needs of the document it acts on.
pub open spec fn document_command_fits(a: AppStateModel, command: DocumentCommand) -> bool {
    match target_document(a, command) {
        Ok(i) => a.documents[i].next_version < i32::MAX && command_fits(
            a.documents[i].state,
            command,
        ),
        Err(_) => true,
    }
}

/// What a command makes of the editor's state, or the error it fails with.
pub open spec fn after_sync_command(a: AppStateModel, command: SyncCommand) -> Result<
    AppStateModel,
    StateError,
> {
    match command {
        SyncCommand::App(c) => after_app_command(a, c),
        SyncCommand::Document(c) => after_document_command(a, c),
    }
}

/// What carrying out a command needs of the editor's state.
pub open spec fn sync_command_fits(a: AppStateModel, command: SyncCommand) -> bool {
    match command {
        SyncCommand::App(AppCommand::ClearError) => a.errors.len() > 0,
        SyncCommand::App(_) => true,
        SyncCommand::Document(c) => document_command_fits(a, c),
    }
}

/// Replacing a document by one saved at the same path keeps the documents
/// well formed.
proof fn lemma_update_keeps_wf(documents: Seq<DocumentModel>, i: int, d: DocumentModel)
    requires
        documents_wf(documents),
        0 <= i < documents.len(),
        d.wf(),
        d.source == documents[i].source,
    ensures
        documents_wf(documents.update(i, d)),
{
    let u = documents.update(i, d);
    assert forall|a: int, b: int| 0 <= a < b < u.len() implies u[a].source != u[b].source by {
        assert(documents[a].source != documents[b].source);
    }
}

/// Adding a document saved where none is keeps the documents well formed.
proof fn lemma_push_keeps_wf(documents: Seq<DocumentModel>, d: DocumentModel)
    requires
        documents_wf(documents),
        d.wf(),
        !document_sources(documents).contains(d.source),
    ensures
        documents_wf(documents.push(d)),
{
    let u = documents.push(d);
    assert forall|a: int, b: int| 0 <= a < b < u.len() implies u[a].source != u[b].source by {
        if b == documents.len() {
            assert(document_sources(documents)[a] == documents[a].source);
        }
    }
}

impl AppState {
    /// No document open, no error, clock at zero.
    pub fn new() -> (r: AppState)
        ensures
            r@.documents == Seq::<DocumentModel>::empty(),
            r@.current_document is None,
            r@.clock == 0,
            r@.errors == Seq::<UserFacingErrorModel>::empty(),
            r@.exit_state is None,
            r@.wf(),
    {
        let r = AppState {
            documents: Vec::new(),
            current_document: None,
            clock: 0,
            errors: Vec::new(),
            exit_state: None,
        };
        assert(r@.documents =~= Seq::<DocumentModel>::empty());
        assert(r@.errors =~= Seq::<UserFacingErrorModel>::empty());
        r
    }

    /// The position of the first document saved at the same path as
    /// `path`. Where there is none, no document is saved at `path` itself
    /// either.
    pub fn document_position(&self, path: &str) -> (r: Option<usize>)
        ensures
            match r {
                Some(i) => self@.has_document(path@) && i == self@.document_index(path@) && i
                    < self.documents.len(),
                None => !self@.has_document(path@) && !document_sources(self@.documents).contains(
                    path@,
                ),
            },
    {
        let ghost sources = document_sources(self@.documents);
        let ghost flags = same_path_flags(sources, path@);
        let mut i: usize = 0;
        while i < self.documents.len()
            invariant
                i <= self.documents.len(),
                sources == document_sources(self@.documents),
                flags == same_path_flags(sources, path@),
                forall|j: int| 0 <= j < i ==> flags[j] != true && sources[j] != path@,
            decreases self.documents.len() - i,
        {
            if same_path(self.documents[i].source.as_str(), path) {
                proof {
                    assert(flags[i as int] == true);
                    lemma_first_index(flags, true, i as int);
                }
                return Some(i);
            }
            assert(flags[i as int] != true);
            i += 1;
        }
        None
    }

    /// The time spent running, in nanoseconds.
    pub fn get_clock(&self) -> (r: u128)
        ensures
            r == self.clock,
    {
        self.clock
    }

    /// The oldest error waiting to be shown.
    pub fn get_error(&self) -> (r: Option<&UserFacingError>)
        ensures
            self.errors.len() == 0 ==> r is None,
            self.errors.len() > 0 ==> r == Some(&self.errors@[0]),
    {
        if self.errors.len() == 0 {
            None
        } else {
            Some(&self.errors[0])
        }
    }

    pub fn get_exit_state(&self) -> (r: Option<ExitState>)
        ensures
            r == self.exit_state,
    {
        self.exit_state
    }

    /// Whether a document saved at `path` is open.
    pub fn is_opened(&self, path: &str) -> (r: bool)
        ensures
            r == self@.has_document(path@),
    {
        self.document_position(path).is_some()
    }

    /// The document being edited.
    pub fn get_current_document(&self) -> (r: Option<&Document>)
        ensures
            match self@.current_index() {
                Some(i) => r matches Some(d) && d@ == self@.documents[i],
                None => r is None,
            },
    {
        proof {
            reveal(AppStateModel::current_index);
        }
        match &self.current_document {
            Some(p) => match self.document_position(p.as_str()) {
                Some(i) => Some(&self.documents[i]),
                None => None,
            },
            None => None,
        }
    }

    /// The position of the document being edited.
    fn current_position(&self) -> (r: Option<usize>)
        ensures
            match self@.current_index() {
                Some(i) => r == Some(i as usize) && 0 <= i < self.documents.len(),
                None => r is None,
            },
    {
        proof {
            reveal(AppStateModel::current_index);
        }
        match &self.current_document {
            Some(p) => self.document_position(p.as_str()),
            None => None,
        }
    }

    /// The document saved at `path`.
    pub fn get_document(&self, path: &str) -> (r: Option<&Document>)
        ensures
            self@.has_document(path@) ==> (r matches Some(d) && d@ == self@.documents[self@.document_index(path@)]),
            !self@.has_document(path@) ==> r is None,
    {
        match self.document_position(path) {
            Some(i) => Some(&self.documents[i]),
            None => None,
        }
    }

    /// The open documents, in the order they were opened.
    pub fn documents_iter(&self) -> (r: &[Document])
        ensures
            r@ == self.documents@,
    {
        self.documents.as_slice()
    }

    fn add_document(&mut self, added_document: Document)
        requires
            !old(self)@.has_document(added_document@.source),
            !document_sources(old(self)@.documents).contains(added_document@.source),
        ensures
            final(self)@ == (AppStateModel {
                documents: old(self)@.documents.push(added_document@),
                ..old(self)@
            }),
            old(self)@.wf() && added_document@.wf() ==> final(self)@.wf(),
    {
        self.documents.push(added_document);
        assert(self@.documents =~= old(self)@.documents.push(added_document@));
        proof {
            if old(self)@.wf() && added_document@.wf() {
                lemma_push_keeps_wf(old(self)@.documents, added_document@);
            }
        }
    }

    #[verifier::rlimit(100)]
    #[verifier::spinoff_prover]
    pub fn focus_document(&mut self, path: &str) -> (r: Result<(), StateError>)
        ensures
            match after_focus_document(old(self)@, path@) {
                Ok(a) => r is Ok && final(self)@ == a,
                Err(e) => r == Err::<(), StateError>(e) && final(self)@ == old(self)@,
            },
            r is Err ==> !document_sources(old(self)@.documents).contains(path@),
            old(self)@.wf() ==> final(self)@.wf(),
    {
        let i = match self.document_position(path) {
            Some(i) => i,
            None => return Err(StateError::DocumentNotFound),
        };
        let ghost before = self.documents@;
        let document = &mut self.documents[i];
        document.transient = Transient::new();
        assert(self.documents@ == before.update(i as int, self.documents@[i as int]));
        assert(self.documents@[i as int]@ == focused(old(self)@.documents[i as int]));
        self.current_document = Some(path.to_owned());
        assert(self@.documents =~= old(self)@.documents.update(
            i as int,
            focused(old(self)@.documents[i as int]),
        ));
        proof {
            if old(self)@.wf() {
                assert(old(self)@.documents[i as int].wf());
                lemma_update_keeps_wf(old(self)@.documents, i as int, focused(old(self)@.documents[i as int]));
            }
        }
        Ok(())
    }

    #[verifier::rlimit(100)]
    #[verifier::spinoff_prover]
    pub fn end_new_document(&mut self, path: &str) -> (r: Result<(), StateError>)
        ensures
            r is Ok,
            final(self)@ == after_end_new_document(old(self)@, path@),
            old(self)@.wf() ==> final(self)@.wf(),
    {
        match self.document_position(path) {
            Some(i) => {
                let document = Document::new(self.documents[i].source.as_str());
                self.documents.set(i, document);
                assert(self@.documents =~= old(self)@.documents.update(
                    i as int,
                    new_document_model(old(self)@.documents[i as int].source),
                ));
            },
            None => {
                let document = Document::new(path);
                self.add_document(document);
            },
        }
        self.current_document = Some(path.to_owned());
        Ok(())
    }

    pub fn end_open_document(&mut self, document: Document) -> (r: Result<(), StateError>)
        ensures
            r is Ok,
            final(self)@ == after_end_open_document(old(self)@, document@),
            old(self)@.wf() && document@.wf() ==> final(self)@.wf(),
    {
        let source = document.source.clone();
        match self.document_position(source.as_str()) {
            Some(_) => {},
            None => {
                self.add_document(document);
                assert(document_sources(self@.documents)[self@.documents.len() - 1] == source@);
            },
        }
        let r = self.focus_document(source.as_str());
        assert(r is Ok);
        r
    }

    #[verifier::rlimit(50)]
    pub fn close_document(&mut self, path: &str)
        ensures
            final(self)@ == after_close_document(old(self)@, path@),
            old(self)@.wf() ==> final(self)@.wf(),
    {
        if let Some(index) = self.document_position(path) {
            let ghost remaining = old(self)@.documents.remove(index as int);
            self.documents.remove(index);
            assert(self@.documents =~= remaining);
            if self.documents.len() == 0 {
                self.current_document = None;
            } else {
                let last = self.documents.len() - 1;
                let i = if index < last {
                    index
                } else {
                    last
                };
                self.current_document = Some(self.documents[i].source.clone());
            }
        }
    }

    /// Asks every document to close; those with unsaved changes offer to
    /// save them first.
    pub fn close_all_documents(&mut self)
        ensures
            final(self)@ == (AppStateModel {
                documents: old(self)@.documents.map_values(|d: DocumentModel| closing(d)),
                ..old(self)@
            }),
            old(self)@.wf() ==> final(self)@.wf(),
    {
        let ghost start = self@;
        let mut i: usize = 0;
        while i < self.documents.len()
            invariant
                i <= self.documents@.len(),
                self.documents@.len() == start.documents.len(),
                self@.current_document == start.current_document,
                self@.clock == start.clock,
                self@.errors == start.errors,
                self@.exit_state == start.exit_state,
                forall|j: int| 0 <= j < i ==> #[trigger] self.documents@[j]@ == closing(start.documents[j]),
                forall|j: int| i <= j < self.documents@.len() ==> #[trigger] self.documents@[j]@ == start.documents[j],
            decreases self.documents@.len() - i,
        {
            let ghost before = self.documents@;
            let document = &mut self.documents[i];
            document.begin_close();
            assert(self.documents@ == before.update(i as int, self.documents@[i as int]));
            assert(self.documents@[i as int]@ == closing(before[i as int]@));
            assert forall|j: int| 0 <= j < self.documents@.len() && j != i implies #[trigger] self.documents@[j]
                == before[j] by {}
            i += 1;
        }
        assert(self@.documents =~= start.documents.map_values(|d: DocumentModel| closing(d)));
        proof {
            if start.wf() {
                assert forall|j: int| 0 <= j < self@.documents.len() implies #[trigger] self@.documents[j].wf() by {
                    assert(start.documents[j].wf());
                }
                assert forall|a: int, b: int| 0 <= a < b < self@.documents.len() implies self@.documents[a].source
                    != self@.documents[b].source by {
                    assert(start.documents[a].source != start.documents[b].source);
                }
            }
        }
    }

    pub fn show_error(&mut self, e: UserFacingError)
        ensures
            final(self)@ == (AppStateModel { errors: old(self)@.errors.push(e@), ..old(self)@ }),
            old(self)@.wf() ==> final(self)@.wf(),
    {
        self.errors.push(e);
        assert(self@.errors =~= old(self)@.errors.push(e@));
    }

    /// Dismisses the oldest error.
    pub fn clear_error(&mut self)
        requires
            old(self).errors.len() > 0,
        ensures
            final(self)@ == (AppStateModel { errors: old(self)@.errors.drop_first(), ..old(self)@ }),
            old(self)@.wf() ==> final(self)@.wf(),
    {
        self.errors.remove(0);
        assert(self@.errors =~= old(self)@.errors.drop_first());
    }

    pub fn exit(&mut self)
        ensures
            final(self)@ == (AppStateModel {
                exit_state: if old(self).exit_state is None {
                    Some(ExitState::Requested)
                } else {
                    old(self).exit_state
                },
                ..old(self)@
            }),
            old(self)@.wf() ==> final(self)@.wf(),
    {
        if self.exit_state.is_none() {
            self.exit_state = Some(ExitState::Requested);
        }
    }

    pub fn cancel_exit(&mut self)
        ensures
            final(self)@ == (AppStateModel { exit_state: None, ..old(self)@ }),
            old(self)@.wf() ==> final(self)@.wf(),
    {
        self.exit_state = None;
    }

    fn advance_exit(&mut self)
        ensures
            final(self)@ == after_advance_exit(old(self)@),
            old(self)@.wf() ==> final(self)@.wf(),
    {
        let ghost start = self@;
        let mut paths: Vec<String> = Vec::new();
        let mut i: usize = 0;
        while i < self.documents.len()
            invariant
                i <= self.documents@.len(),
                self@ == start,
                paths@.map_values(|s: String| s@) == closing_sources(start.documents.take(i as int)),
            decreases self.documents@.len() - i,
        {
            let document = &self.documents[i];
            let ready = match document.persistent.close_state {
                Some(CloseState::Allowed) => true,
                Some(_) => document.history_index < document.history.len()
                    && document.persistent.disk_version == document.history[document.history_index].version,
                None => false,
            };
            assert(start.documents.take(i as int + 1).drop_last() =~= start.documents.take(i as int));
            assert(start.documents.take(i as int + 1).last() == start.documents[i as int]);
            assert(ready == ready_to_close(start.documents[i as int]));
            if ready {
                let ghost before = paths@;
                paths.push(document.source.clone());
                assert(paths@.map_values(|s: String| s@) =~= before.map_values(|s: String| s@).push(
                    start.documents[i as int].source,
                ));
            }
            i += 1;
        }
        assert(start.documents.take(start.documents.len() as int) =~= start.documents);
        let ghost closing_paths = paths@.map_values(|s: String| s@);
        let mut k: usize = 0;
        while k < paths.len()
            invariant
                k <= paths@.len(),
                closing_paths == paths@.map_values(|s: String| s@),
                self@ == closed_all(start, closing_paths.take(k as int)),
                start.wf() ==> self@.wf(),
            decreases paths@.len() - k,
        {
            assert(closing_paths.take(k as int + 1).drop_last() =~= closing_paths.take(k as int));
            assert(closing_paths.take(k as int + 1).last() == paths@[k as int]@);
            self.close_document(paths[k].as_str());
            k += 1;
        }
        assert(closing_paths.take(paths@.len() as int) =~= closing_paths);
        if self.exit_state == Some(ExitState::Requested) && self.documents.len() == 0 {
            self.exit_state = Some(ExitState::Allowed);
        }
    }

    #[verifier::rlimit(100)]
    #[verifier::spinoff_prover]
    pub fn relocate_document(&mut self, from: &str, to: &str) -> (r: Result<(), StateError>)
        ensures
            match after_relocate_document(old(self)@, from@, to@) {
                Ok(a) => r is Ok && final(self)@ == a,
                Err(e) => r == Err::<(), StateError>(e) && final(self)@ == old(self)@,
            },
            old(self)@.wf() ==> final(self)@.wf(),
    {
        if same_path(from, to) {
            return Ok(());
        }
        if !self.is_opened(from) {
            return Err(StateError::DocumentNotFound);
        }
        let ghost olds = self@.documents;
        let ghost pred = |d: DocumentModel| !spec_same_path(d.source, to@);
        let mut rest: Vec<Document> = Vec::new();
        std::mem::swap(&mut rest, &mut self.documents);
        let mut kept: Vec<Document> = Vec::new();
        let ghost mut k: int = 0;
        let ghost mut origin: Seq<int> = Seq::empty();
        let ghost olds_wf = documents_wf(olds);
        while rest.len() > 0
            invariant
                origin.len() == kept.len(),
                forall|j: int|
                    0 <= j < kept.len() ==> 0 <= #[trigger] origin[j] < k && kept@[j]@ == olds[origin[j]]
                        && kept@[j]@.source != to@,
                olds_wf == documents_wf(olds),
                olds_wf ==> documents_wf(kept@.map_values(|d: Document| d@)),
                0 <= k <= olds.len(),
                k + rest.len() == olds.len(),
                rest@.map_values(|d: Document| d@) == olds.skip(k),
                kept@.map_values(|d: Document| d@) == olds.take(k).filter(pred),
                pred == (|d: DocumentModel| !spec_same_path(d.source, to@)),
            decreases rest.len(),
        {
            proof {
                lemma_filter_step(olds, pred, k);
            }
            let ghost rest_before = rest@;
            let d = rest.remove(0);
            assert(d@ == olds[k]) by {
                assert(rest_before.map_values(|d: Document| d@)[0] == olds.skip(k)[0]);
            }
            if !same_path(d.source.as_str(), to) {
                let ghost before = kept@;
                kept.push(d);
                proof {
                    origin = origin.push(k);
                }
                assert(kept@.map_values(|d: Document| d@) =~= before.map_values(|d: Document| d@).push(
                    olds[k],
                ));
                proof {
                    if olds_wf {
                        let km = kept@.map_values(|d: Document| d@);
                        let last = kept@.len() - 1;
                        assert(olds[k].wf());
                        assert forall|a: int, b: int|
                            0 <= a < b < km.len() implies km[a].source != km[b].source by {
                            if b == last {
                                let o = origin[a];
                                assert(olds[o].source != olds[k].source);
                            } else {
                                assert(before.map_values(|d: Document| d@)[a] == km[a]);
                                assert(before.map_values(|d: Document| d@)[b] == km[b]);
                            }
                        }
                        assert forall|a: int| 0 <= a < km.len() implies #[trigger] km[a].wf() by {
                            if a < last {
                                assert(before.map_values(|d: Document| d@)[a] == km[a]);
                            }
                        }
                    }
                }
            }
            proof {
                k = k + 1;
                assert forall|j: int| 0 <= j < rest@.len() implies rest@.map_values(
                    |d: Document| d@,
                )[j] == olds.skip(k)[j] by {
                    assert(rest@[j] == rest_before[j + 1]);
                    assert(rest_before.map_values(|d: Document| d@)[j + 1] == olds.skip(k - 1)[j
                        + 1]);
                }
            }
            assert(rest@.map_values(|d: Document| d@) =~= olds.skip(k));
        }
        assert(olds.take(k) =~= olds);
        let ghost kept_model = kept@.map_values(|d: Document| d@);
        assert(forall|j: int| 0 <= j < kept_model.len() ==> #[trigger] kept_model[j].source != to@) by {
            assert forall|j: int| 0 <= j < kept_model.len() implies #[trigger] kept_model[j].source != to@ by {
                assert(kept_model[j] == kept@[j]@);
                assert(0 <= origin[j] < k);
            }
        }
        let ghost flags = same_path_flags(document_sources(kept_model), from@);
        let mut m: usize = 0;
        let mut found = false;
        while m < kept.len()
            invariant_except_break
                !found,
            invariant
                m <= kept.len(),
                kept_model == kept@.map_values(|d: Document| d@),
                flags == same_path_flags(document_sources(kept_model), from@),
                forall|j: int| 0 <= j < m ==> flags[j] != true,
            ensures
                found ==> m < kept.len() && flags[m as int] == true,
                !found ==> m == kept.len(),
                forall|j: int| 0 <= j < m ==> flags[j] != true,
            decreases kept.len() - m,
        {
            if same_path(kept[m].source.as_str(), from) {
                assert(flags[m as int] == true);
                found = true;
                break;
            }
            assert(flags[m as int] != true);
            m += 1;
        }
        if found {
            proof {
                lemma_first_index(flags, true, m as int);
            }
            let mut moving = kept.remove(m);
            moving.source = to.to_owned();
            kept.insert(m, moving);
            assert(kept@.map_values(|d: Document| d@) =~= kept_model.update(
                m as int,
                DocumentModel { source: to@, ..kept_model[m as int] },
            ));
            proof {
                if olds_wf {
                    let km = kept@.map_values(|d: Document| d@);
                    assert(kept_model[m as int].wf());
                    assert forall|a: int, b: int|
                        0 <= a < b < km.len() implies km[a].source != km[b].source by {
                        if a == m {
                            assert(kept_model[b].source != to@);
                        } else if b == m {
                            assert(kept_model[a].source != to@);
                        } else {
                            assert(kept_model[a].source != kept_model[b].source);
                        }
                    }
                    assert forall|a: int| 0 <= a < km.len() implies #[trigger] km[a].wf() by {
                        assert(kept_model[a].wf());
                    }
                }
            }
        } else {
            proof {
                assert(!flags.contains(true));
                lemma_first_index_none(flags, true);
            }
        }
        self.documents = kept;
        let was_current = match &self.current_document {
            Some(current) => found && same_path(from, current.as_str()),
            None => false,
        };
        if was_current {
            self.current_document = Some(to.to_owned());
        }
        Ok(())
    }

    pub fn process_app_command(&mut self, command: AppCommand) -> (r: Result<(), StateError>)
        requires
            old(self)@.wf(),
            command is ClearError ==> old(self).errors.len() > 0,
        ensures
            match after_app_command(old(self)@, command) {
                Ok(a) => r is Ok && final(self)@ == a,
                Err(e) => r == Err::<(), StateError>(e) && final(self)@ == old(self)@,
            },
            (command matches AppCommand::EndOpenDocument(d) ==> d@.wf()) ==> final(self)@.wf(),
    {
        match command {
            AppCommand::EndNewDocument(p) => {
                let path = p.as_str();
                assert(path@ == p@);
                self.end_new_document(path)
            },
            AppCommand::EndOpenDocument(d) => self.end_open_document(d),
            AppCommand::RelocateDocument(from, to) => self.relocate_document(from.as_str(), to.as_str()),
            AppCommand::FocusDocument(p) => self.focus_document(p.as_str()),
            AppCommand::CloseAllDocuments => {
                self.close_all_documents();
                Ok(())
            },
            AppCommand::Undo => {
                let i = match self.current_position() {
                    Some(i) => i,
                    None => return Err(StateError::NoDocumentOpen),
                };
                let document = &mut self.documents[i];
                let r = document.undo();
                assert(self@.documents =~= old(self)@.documents.update(
                    i as int,
                    self.documents@[i as int]@,
                ));
                if r.is_err() {
                    assert(self@.documents =~= old(self)@.documents);
                }
                r
            },
            AppCommand::Redo => {
                let i = match self.current_position() {
                    Some(i) => i,
                    None => return Err(StateError::NoDocumentOpen),
                };
                let document = &mut self.documents[i];
                let r = document.redo();
                assert(self@.documents =~= old(self)@.documents.update(
                    i as int,
                    self.documents@[i as int]@,
                ));
                if r.is_err() {
                    assert(self@.documents =~= old(self)@.documents);
                }
                r
            },
            AppCommand::ShowError(e) => {
                self.show_error(e);
                Ok(())
            },
            AppCommand::ClearError => {
                self.clear_error();
                Ok(())
            },
            AppCommand::Exit => {
                self.exit();
                Ok(())
            },
            AppCommand::CancelExit => {
                self.cancel_exit();
                Ok(())
            },
        }
    }

    fn target_position(&self, command: &DocumentCommand) -> (r: Result<usize, StateError>)
        ensures
            match target_document(self@, *command) {
                Ok(i) => r == Ok::<usize, StateError>(i as usize) && 0 <= i < self.documents.len(),
                Err(e) => r == Err::<usize, StateError>(e),
            },
    {
        let path = match command {
            DocumentCommand::EndImport(p, _) => Some(p),
            DocumentCommand::MarkAsSaved(p, _) => Some(p),
            DocumentCommand::EndSetExportTextureDestination(p, _) => Some(p),
            DocumentCommand::EndSetExportMetadataDestination(p, _) => Some(p),
            DocumentCommand::EndSetExportMetadataPathsRoot(p, _) => Some(p),
            DocumentCommand::EndSetExportFormat(p, _) => Some(p),
            _ => None,
        };
        match path {
            Some(p) => match self.document_position(p.as_str()) {
                Some(i) => Ok(i),
                None => Err(StateError::DocumentNotFound),
            },
            None => match self.current_position() {
                Some(i) => Ok(i),
                None => Err(StateError::NoDocumentOpen),
            },
        }
    }

    pub fn process_document_command(&mut self, command: DocumentCommand) -> (r: Result<
        (),
        StateError,
    >)
        requires
            old(self)@.wf(),
            document_command_fits(old(self)@, command),
        ensures
            match after_document_command(old(self)@, command) {
                Ok(a) => r is Ok && final(self)@ == a,
                Err(e) => r == Err::<(), StateError>(e) && final(self)@ == old(self)@,
            },
            old(self)@.wf() ==> final(self)@.wf(),
    {
        let i = self.target_position(&command)?;
        assert(self.documents@[i as int].wf());
        let document = &mut self.documents[i];
        let r = document.process_command(&command);
        assert(self@.documents =~= old(self)@.documents.update(i as int, self.documents@[i as int]@));
        if r.is_err() {
            assert(self@.documents =~= old(self)@.documents);
        }
        r
    }

    pub fn process_sync_command(&mut self, command: SyncCommand) -> (r: Result<(), StateError>)
        requires
            old(self)@.wf(),
            sync_command_fits(old(self)@, command),
        ensures
            match after_sync_command(old(self)@, command) {
                Ok(a) => r is Ok && final(self)@ == a,
                Err(e) => r == Err::<(), StateError>(e) && final(self)@ == old(self)@,
            },
            (command matches SyncCommand::App(AppCommand::EndOpenDocument(d)) ==> d@.wf())
                ==> final(self)@.wf(),
    {
        match command {
            SyncCommand::App(c) => self.process_app_command(c),
            SyncCommand::Document(c) => self.process_document_command(c),
        }
    }

    fn tick_document(&mut self, i: usize, delta: u128)
        requires
            i < old(self).documents.len(),
            old(self).documents@[i as int].view.timeline_clock + delta <= u128::MAX,
            old(self).documents@[i as int]@.state.sheet.durations_fit(),
        ensures
            final(self)@ == (AppStateModel {
                documents: old(self)@.documents.update(
                    i as int,
                    with_state(
                        old(self)@.documents[i as int],
                        ticked(old(self)@.documents[i as int].state, delta as int),
                    ),
                ),
                ..old(self)@
            }),
            old(self)@.wf() ==> final(self)@.wf(),
    {
        let document = &mut self.documents[i];
        document.tick(delta);
        assert(self@.documents =~= old(self)@.documents.update(i as int, self.documents@[i as int]@));
        proof {
            if old(self)@.wf() {
                assert(old(self)@.documents[i as int].wf());
                lemma_update_keeps_wf(old(self)@.documents, i as int, self.documents@[i as int]@);
            }
        }
    }

    /// Advances the clocks by `delta` nanoseconds.
    pub fn tick(&mut self, delta: u128)
        requires
            old(self).clock + delta <= u128::MAX,
            match old(self)@.current_index() {
                Some(i) => old(self)@.documents[i].state.view.timeline_clock + delta <= u128::MAX
                    && old(self)@.documents[i].state.sheet.durations_fit(),
                None => true,
            },
        ensures
            final(self)@ == after_tick(old(self)@, delta as int),
            old(self)@.wf() ==> final(self)@.wf(),
    {
        let ghost a = self@;
        let ghost documents = match a.current_index() {
            Some(i) => a.documents.update(
                i,
                with_state(a.documents[i], ticked(a.documents[i].state, delta as int)),
            ),
            None => a.documents,
        };
        let current = self.current_position();
        self.clock = self.clock + delta;
        assert(self@.documents == a.documents);
        if let Some(i) = current {
            self.tick_document(i, delta);
        }
        assert(self@.documents == documents);
        assert(self@ == AppStateModel { clock: (a.clock + delta) as u128, documents, ..a });
        self.advance_exit();
    }
}

} // verus!
