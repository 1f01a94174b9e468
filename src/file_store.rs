use vstd::prelude::*;

use crate::error::{IoOp, StoreError};
use crate::todo::Todo;

verus! {

/// The name of the document, inside the application-data directory.
pub open spec fn todos_file_name_spec() -> Seq<char> {
    "todos.json"@
}

/// The name of the document, inside the application-data directory.
pub fn todos_file_name() -> (r: String)
    ensures
        r@ == todos_file_name_spec(),
{
    String::from_str("todos.json")
}

/// The name of the file that a save writes before it renames it over the document.
pub open spec fn todos_temp_file_name_spec() -> Seq<char> {
    "todos.json.tmp"@
}

/// The name of the file that a save writes before it renames it over the document.
pub fn todos_temp_file_name() -> (r: String)
    ensures
        r@ == todos_temp_file_name_spec(),
{
    String::from_str("todos.json.tmp")
}

/// The three operations of the file store.
#[derive(Clone, Copy, Debug, PartialEq, Eq, Structural)]
pub enum Operation {
    /// Replace the stored collection by a new one.
    Save,
    /// Read the stored collection back.
    Load,
    /// Report where the document lives.
    ShowPath,
}

/// Where an operation stands: which outside result it waits for.
#[derive(Clone, Copy, Debug, PartialEq, Eq, Structural)]
pub enum Phase {
    Resolving,
    CreatingDir,
    Serializing,
    WritingTemp,
    Renaming,
    CheckingExists,
    Reading,
    Parsing,
    Done,
}

/// What the caller must do next on behalf of the store.
pub enum Action {
    /// Find `<application-data directory>/todos.json`.
    ResolvePath,
    /// Create the application-data directory and its parents, if missing.
    CreateDir,
    /// Encode this collection as a pretty-printed document.
    Serialize(Vec<Todo>),
    /// Write this text, whole, to the temporary file beside the document.
    WriteTemp(String),
    /// Rename the temporary file over the document, in one step.
    Rename,
    /// Find out whether the document exists.
    CheckExists,
    /// Read the whole document.
    Read,
    /// Decode this text as a collection.
    Parse(String),
    /// The operation is over, with this result.
    Finish(Result<Reply, StoreError>),
}

/// What a finished operation hands back.
pub enum Reply {
    Saved,
    Loaded(Vec<Todo>),
    Path(String),
}

/// The result of an action, reported back to the store.
pub enum Event {
    /// The document's path as text, or why the platform gave no directory.
    PathResolved(Result<String, String>),
    DirCreated(Result<(), String>),
    Serialized(Result<String, String>),
    TempWritten(Result<(), String>),
    Renamed(Result<(), String>),
    Exists(bool),
    FileRead(Result<String, String>),
    Parsed(Result<Vec<Todo>, String>),
}

/// One operation of the file store, from its start to its result.
pub struct FileSession {
    pub op: Operation,
    pub phase: Phase,
    /// The collection that a save has yet to hand over for encoding.
    pub todos: Option<Vec<Todo>>,
    /// The resolved path, as text, once it is known.
    pub path: Option<String>,
}

/// The phases that an operation passes through.
pub open spec fn phase_of(op: Operation, phase: Phase) -> bool {
    match op {
        Operation::Save => phase == Phase::Resolving || phase == Phase::CreatingDir || phase
            == Phase::Serializing || phase == Phase::WritingTemp || phase == Phase::Renaming
            || phase == Phase::Done,
        Operation::Load => phase == Phase::Resolving || phase == Phase::CheckingExists || phase
            == Phase::Reading || phase == Phase::Parsing || phase == Phase::Done,
        Operation::ShowPath => phase == Phase::Resolving || phase == Phase::CreatingDir || phase
            == Phase::Done,
    }
}

/// Whether `e` is the result that a session in `phase` waits for.
pub open spec fn awaits(phase: Phase, e: Event) -> bool {
    match phase {
        Phase::Resolving => e is PathResolved,
        Phase::CreatingDir => e is DirCreated,
        Phase::Serializing => e is Serialized,
        Phase::WritingTemp => e is TempWritten,
        Phase::Renaming => e is Renamed,
        Phase::CheckingExists => e is Exists,
        Phase::Reading => e is FileRead,
        Phase::Parsing => e is Parsed,
        Phase::Done => false,
    }
}

/// Whether `a` finishes with a collection that has no item.
pub open spec fn finishes_empty(a: Action) -> bool {
    match a {
        Action::Finish(Ok(Reply::Loaded(v))) => v@.len() == 0,
        _ => false,
    }
}

/// Whether `a` changes something on disk when the caller performs it.
pub open spec fn modifies_disk(a: Action) -> bool {
    a is CreateDir || a is WriteTemp || a is Rename
}

/// The effect of event `e` on session `s`: `t` is the session after it and
/// `a` what the caller must do next.
pub open spec fn transition(s: FileSession, e: Event, t: FileSession, a: Action) -> bool {
    &&& t.op == s.op
    &&& match e {
        Event::PathResolved(Err(d)) => t.phase == Phase::Done && a == Action::Finish(
            Err(StoreError::DirectoryResolution(d)),
        ),
        Event::PathResolved(Ok(p)) => match s.op {
            Operation::Load => t.phase == Phase::CheckingExists && a == Action::CheckExists,
            _ => t.phase == Phase::CreatingDir && t.todos == s.todos && t.path == Some(p) && a
                == Action::CreateDir,
        },
        Event::DirCreated(Err(d)) => t.phase == Phase::Done && a == Action::Finish(
            Err(StoreError::Io(IoOp::CreateDir, d)),
        ),
        Event::DirCreated(Ok(())) => match s.op {
            Operation::ShowPath => t.phase == Phase::Done && a == Action::Finish(
                Ok(Reply::Path(s.path->Some_0)),
            ),
            _ => t.phase == Phase::Serializing && t.todos is None && a == Action::Serialize(
                s.todos->Some_0,
            ),
        },
        Event::Serialized(Err(d)) => t.phase == Phase::Done && a == Action::Finish(
            Err(StoreError::Serialization(d)),
        ),
        Event::Serialized(Ok(text)) => t.phase == Phase::WritingTemp && a == Action::WriteTemp(
            text,
        ),
        Event::TempWritten(Err(d)) => t.phase == Phase::Done && a == Action::Finish(
            Err(StoreError::Io(IoOp::Write, d)),
        ),
        Event::TempWritten(Ok(())) => t.phase == Phase::Renaming && a == Action::Rename,
        Event::Renamed(Err(d)) => t.phase == Phase::Done && a == Action::Finish(
            Err(StoreError::Io(IoOp::Write, d)),
        ),
        Event::Renamed(Ok(())) => t.phase == Phase::Done && a == Action::Finish(
            Ok(Reply::Saved),
        ),
        Event::Exists(false) => t.phase == Phase::Done && finishes_empty(a),
        Event::Exists(true) => t.phase == Phase::Reading && a == Action::Read,
        Event::FileRead(Err(d)) => t.phase == Phase::Done && a == Action::Finish(
            Err(StoreError::Io(IoOp::Read, d)),
        ),
        Event::FileRead(Ok(text)) => t.phase == Phase::Parsing && a == Action::Parse(text),
        Event::Parsed(Err(d)) => t.phase == Phase::Done && a == Action::Finish(
            Err(StoreError::Deserialization(d)),
        ),
        Event::Parsed(Ok(v)) => t.phase == Phase::Done && a == Action::Finish(
            Ok(Reply::Loaded(v)),
        ),
    }
}

impl FileSession {
    /// The phase fits the operation, a save holds its collection until it
    /// hands it over for encoding, and a path is known once resolved.
    pub open spec fn wf(&self) -> bool {
        &&& phase_of(self.op, self.phase)
        &&& (self.op == Operation::Save && (self.phase == Phase::Resolving || self.phase
            == Phase::CreatingDir)) ==> self.todos is Some
        &&& self.phase == Phase::CreatingDir ==> self.path is Some
    }

    /// Starts replacing the stored collection by `todos`.
    pub fn save_todos(todos: Vec<Todo>) -> (r: (FileSession, Action))
        ensures
            r.0.wf(),
            r.0.op == Operation::Save,
            r.0.phase == Phase::Resolving,
            r.0.todos == Some(todos),
            r.1 == Action::ResolvePath,
    {
        (
            FileSession { op: Operation::Save, phase: Phase::Resolving, todos: Some(todos), path: None },
            Action::ResolvePath,
        )
    }

    /// Starts reading the stored collection.
    pub fn load_todos() -> (r: (FileSession, Action))
        ensures
            r.0.wf(),
            r.0.op == Operation::Load,
            r.0.phase == Phase::Resolving,
            r.1 == Action::ResolvePath,
    {
        (
            FileSession { op: Operation::Load, phase: Phase::Resolving, todos: None, path: None },
            Action::ResolvePath,
        )
    }

    /// Starts finding where the document lives.
    pub fn get_todos_path() -> (r: (FileSession, Action))
        ensures
            r.0.wf(),
            r.0.op == Operation::ShowPath,
            r.0.phase == Phase::Resolving,
            r.1 == Action::ResolvePath,
    {
        (
            FileSession { op: Operation::ShowPath, phase: Phase::Resolving, todos: None, path: None },
            Action::ResolvePath,
        )
    }

    /// Whether the operation has its result.
    pub fn is_done(&self) -> (r: bool)
        ensures
            r == (self.phase == Phase::Done),
    {
        self.phase == Phase::Done
    }

    /// Whether `e` is the result that this session waits for.
    pub fn accepts(&self, e: &Event) -> (r: bool)
        ensures
            r == awaits(self.phase, *e),
    {
        match self.phase {
            Phase::Resolving => matches!(*e, Event::PathResolved(..)),
            Phase::CreatingDir => matches!(*e, Event::DirCreated(..)),
            Phase::Serializing => matches!(*e, Event::Serialized(..)),
            Phase::WritingTemp => matches!(*e, Event::TempWritten(..)),
            Phase::Renaming => matches!(*e, Event::Renamed(..)),
            Phase::CheckingExists => matches!(*e, Event::Exists(..)),
            Phase::Reading => matches!(*e, Event::FileRead(..)),
            Phase::Parsing => matches!(*e, Event::Parsed(..)),
            Phase::Done => false,
        }
    }

    /// Takes in the result of the last action and says what to do next.
    pub fn step(&mut self, event: Event) -> (a: Action)
        requires
            old(self).wf(),
            awaits(old(self).phase, event),
        ensures
            final(self).wf(),
            transition(*old(self), event, *final(self), a),
    {
        match event {
            Event::PathResolved(Err(d)) => {
                self.phase = Phase::Done;
                Action::Finish(Err(StoreError::DirectoryResolution(d)))
            },
            Event::PathResolved(Ok(p)) => match self.op {
                Operation::Load => {
                    self.phase = Phase::CheckingExists;
                    Action::CheckExists
                },
                _ => {
                    self.phase = Phase::CreatingDir;
                    self.path = Some(p);
                    Action::CreateDir
                },
            },
            Event::DirCreated(Err(d)) => {
                self.phase = Phase::Done;
                Action::Finish(Err(StoreError::Io(IoOp::CreateDir, d)))
            },
            Event::DirCreated(Ok(())) => match self.op {
                Operation::ShowPath => {
                    self.phase = Phase::Done;
                    let p = self.path.take().unwrap();
                    Action::Finish(Ok(Reply::Path(p)))
                },
                _ => {
                    self.phase = Phase::Serializing;
                    let todos = self.todos.take().unwrap();
                    Action::Serialize(todos)
                },
            },
            Event::Serialized(Err(d)) => {
                self.phase = Phase::Done;
                Action::Finish(Err(StoreError::Serialization(d)))
            },
            Event::Serialized(Ok(text)) => {
                self.phase = Phase::WritingTemp;
                Action::WriteTemp(text)
            },
            Event::TempWritten(Err(d)) => {
                self.phase = Phase::Done;
                Action::Finish(Err(StoreError::Io(IoOp::Write, d)))
            },
            Event::TempWritten(Ok(())) => {
                self.phase = Phase::Renaming;
                Action::Rename
            },
            Event::Renamed(Err(d)) => {
                self.phase = Phase::Done;
                Action::Finish(Err(StoreError::Io(IoOp::Write, d)))
            },
            Event::Renamed(Ok(())) => {
                self.phase = Phase::Done;
                Action::Finish(Ok(Reply::Saved))
            },
            Event::Exists(false) => {
                self.phase = Phase::Done;
                Action::Finish(Ok(Reply::Loaded(Vec::new())))
            },
            Event::Exists(true) => {
                self.phase = Phase::Reading;
                Action::Read
            },
            Event::FileRead(Err(d)) => {
                self.phase = Phase::Done;
                Action::Finish(Err(StoreError::Io(IoOp::Read, d)))
            },
            Event::FileRead(Ok(text)) => {
                self.phase = Phase::Parsing;
                Action::Parse(text)
            },
            Event::Parsed(Err(d)) => {
                self.phase = Phase::Done;
                Action::Finish(Err(StoreError::Deserialization(d)))
            },
            Event::Parsed(Ok(v)) => {
                self.phase = Phase::Done;
                Action::Finish(Ok(Reply::Loaded(v)))
            },
        }
    }
}

/// What is on disk: the document, and the text staged in the temporary file
/// by a complete write.
pub ghost struct Disk {
    pub document: Option<Seq<char>>,
    pub staged: Option<Seq<char>>,
}

/// The disk after the caller performs `a` on `d` and reports `e`. A complete
/// temporary write stages its text; a failed one leaves nothing staged; a
/// successful rename puts the staged text in place of the document at once.
/// Nothing else changes the document.
pub open spec fn disk_after(d: Disk, a: Action, e: Event) -> Disk {
    match a {
        Action::WriteTemp(text) => match e {
            Event::TempWritten(Ok(())) => Disk { document: d.document, staged: Some(text@) },
            _ => Disk { document: d.document, staged: None },
        },
        Action::Rename => match e {
            Event::Renamed(Ok(())) => Disk { document: d.staged, staged: None },
            _ => d,
        },
        _ => d,
    }
}

/// A load that finds no document finishes with an empty collection, not an
/// error, and asks for no directory on the way.
pub proof fn lemma_first_load_empty(
    s0: FileSession,
    path: String,
    s1: FileSession,
    a1: Action,
    s2: FileSession,
    a2: Action,
)
    requires
        s0.op == Operation::Load,
        s0.phase == Phase::Resolving,
        transition(s0, Event::PathResolved(Ok(path)), s1, a1),
        transition(s1, Event::Exists(false), s2, a2),
    ensures
        a1 == Action::CheckExists,
        awaits(s1.phase, Event::Exists(false)),
        finishes_empty(a2),
        s2.phase == Phase::Done,
{
}

/// A load never asks for anything that changes the disk.
pub proof fn lemma_load_changes_nothing(s: FileSession, e: Event, t: FileSession, a: Action)
    requires
        s.wf(),
        s.op == Operation::Load,
        awaits(s.phase, e),
        transition(s, e, t, a),
    ensures
        !modifies_disk(a),
{
}

/// Save and path display, once the path is resolved, ask for the directory
/// to be created, and a creation that reports success (the directory was
/// made, or was already there) never ends the operation in an error.
pub proof fn lemma_directory_prepared(
    s0: FileSession,
    path: String,
    s1: FileSession,
    a1: Action,
    s2: FileSession,
    a2: Action,
)
    requires
        s0.wf(),
        s0.op != Operation::Load,
        s0.phase == Phase::Resolving,
        transition(s0, Event::PathResolved(Ok(path)), s1, a1),
        transition(s1, Event::DirCreated(Ok(())), s2, a2),
    ensures
        a1 == Action::CreateDir,
        awaits(s1.phase, Event::DirCreated(Ok(()))),
        !(a2 matches Action::Finish(Err(_))),
        s0.op == Operation::ShowPath ==> a2 == Action::Finish(Ok(Reply::Path(path))),
{
}

/// A document that does not decode makes the load fail with a
/// deserialization error; no collection, partial or empty, comes back.
pub proof fn lemma_malformed_rejected(s: FileSession, detail: String, t: FileSession, a: Action)
    requires
        s.wf(),
        awaits(s.phase, Event::Parsed(Err(detail))),
        transition(s, Event::Parsed(Err(detail)), t, a),
    ensures
        s.op == Operation::Load,
        a == Action::Finish(Err(StoreError::Deserialization(detail))),
        !(a matches Action::Finish(Ok(_))),
        t.phase == Phase::Done,
{
}

/// The one result that changes the document is a successful rename, and the
/// session answers it with success: so a save that fails, at whatever step,
/// leaves the document as it was.
pub proof fn lemma_failed_save_keeps_document(
    s: FileSession,
    d: Disk,
    prev: Action,
    e: Event,
    t: FileSession,
    a: Action,
)
    requires
        s.wf(),
        awaits(s.phase, e),
        transition(s, e, t, a),
        a matches Action::Finish(Err(_)),
    ensures
        disk_after(d, prev, e).document == d.document,
{
}

/// The document is only ever replaced whole: after any action and result it
/// is the document before, or the text staged by a temporary write that
/// completed; and text is newly staged only by such a write.
pub proof fn lemma_document_replaced_whole(d: Disk, a: Action, e: Event)
    ensures
        disk_after(d, a, e).document == d.document || disk_after(d, a, e).document == d.staged,
        disk_after(d, a, e).staged is Some && disk_after(d, a, e).staged != d.staged ==> (
        a is WriteTemp && e is TempWritten && e->TempWritten_0 is Ok
            && disk_after(d, a, e).staged == Some(a->WriteTemp_0@)),
{
}

/// A save that succeeds hands exactly its collection to encoding and puts
/// exactly the encoded text in place of whatever document stood before; a
/// later load, with nothing written in between, hands exactly that text to
/// decoding and returns exactly what decoding gave. So the collection loaded
/// is the one saved last whenever decoding inverts encoding.
pub proof fn lemma_save_then_load(
    todos: Vec<Todo>,
    d0: Disk,
    text: String,
    read: String,
    back: Vec<Todo>,
    p1: String,
    p2: String,
    s0: FileSession,
    s1: FileSession,
    a1: Action,
    s2: FileSession,
    a2: Action,
    s3: FileSession,
    a3: Action,
    s4: FileSession,
    a4: Action,
    s5: FileSession,
    a5: Action,
    l0: FileSession,
    l1: FileSession,
    b1: Action,
    l2: FileSession,
    b2: Action,
    l3: FileSession,
    b3: Action,
    l4: FileSession,
    b4: Action,
)
    requires
        s0.op == Operation::Save,
        s0.phase == Phase::Resolving,
        s0.todos == Some(todos),
        transition(s0, Event::PathResolved(Ok(p1)), s1, a1),
        transition(s1, Event::DirCreated(Ok(())), s2, a2),
        transition(s2, Event::Serialized(Ok(text)), s3, a3),
        transition(s3, Event::TempWritten(Ok(())), s4, a4),
        transition(s4, Event::Renamed(Ok(())), s5, a5),
        l0.op == Operation::Load,
        l0.phase == Phase::Resolving,
        transition(l0, Event::PathResolved(Ok(p2)), l1, b1),
        transition(
            l1,
            Event::Exists(
                disk_after(disk_after(d0, a3, Event::TempWritten(Ok(()))), a4, Event::Renamed(Ok(())))
                    .document is Some,
            ),
            l2,
            b2,
        ),
        Some(read@) == disk_after(
            disk_after(d0, a3, Event::TempWritten(Ok(()))),
            a4,
            Event::Renamed(Ok(())),
        ).document,
        transition(l2, Event::FileRead(Ok(read)), l3, b3),
        transition(l3, Event::Parsed(Ok(back)), l4, b4),
    ensures
        a1 == Action::CreateDir,
        a2 == Action::Serialize(todos),
        a3 == Action::WriteTemp(text),
        a4 == Action::Rename,
        a5 == Action::Finish(Ok(Reply::Saved)),
        disk_after(disk_after(d0, a3, Event::TempWritten(Ok(()))), a4, Event::Renamed(Ok(())))
            .document == Some(text@),
        read@ == text@,
        b1 == Action::CheckExists,
        b2 == Action::Read,
        b3 == Action::Parse(read),
        b4 == Action::Finish(Ok(Reply::Loaded(back))),
{
}

} // verus!
