use vstd::prelude::*;

verus! {

/// Bytes an output may hold in memory; a write that would take it past this moves it to a file.
pub const WRITER_SPILL_LIMIT: usize = 256 * 1024;

/// Session-scoped identity of a data object.
#[derive(Clone, Copy, Debug, PartialEq, Eq, Structural)]
pub struct DataObjectId {
    pub session_id: i32,
    pub id: i32,
}

/// Attributes attached to a finished output. Kept as an ordered list of key and value.
#[derive(Debug)]
pub struct Attributes {
    pub entries: Vec<(String, String)>,
}

impl Attributes {
    pub fn new() -> (r: Attributes)
        ensures
            r.entries@.len() == 0,
    {
        Attributes { entries: Vec::new() }
    }
}

/// The state of one output.
#[derive(Debug)]
pub enum OutputState {
    /// No output data written yet
    Empty,
    /// Small data only in memory
    MemBacked(Vec<u8>),
    /// Backed with an open file at the output's staging path
    FileBacked,
    /// Points to a staged file or directory at the output's staging path
    StagedPath,
    /// Other data object (an input or output of the same task)
    OtherObject(DataObjectId),
}

/// Which staging operation was refused.
#[derive(Clone, Copy, Debug, PartialEq, Eq, Structural)]
pub enum StageOp {
    Directory,
    File,
    Input,
}

/// Caller errors on an output.
#[derive(Clone, Copy, Debug, PartialEq, Eq, Structural)]
pub enum OutputError {
    /// The path given to `stage_directory` is not a readable directory.
    NotADirectory,
    /// The path given to `stage_file` is not a readable regular file.
    NotAFile,
    /// A staging operation on an output that was already staged or written to.
    AlreadyStaged(StageOp),
    /// A writer was asked for on an output that was staged.
    WriterUnavailable,
    /// A writer was asked for while another one is out.
    WriterInUse,
}

/// Where the contents of a finished output are.
#[derive(Debug)]
pub enum DataLocation {
    Memory(Vec<u8>),
    Path(String),
    OtherObject(DataObjectId),
}

/// Description of a finished output, as reported upstream.
#[derive(Debug)]
pub struct OutputSpec {
    pub id: DataObjectId,
    pub label: Option<String>,
    pub attributes: Attributes,
    pub location: DataLocation,
    pub cache_hint: bool,
}

/// Kind of the state, without its contents.
#[derive(Clone, Copy, Debug, PartialEq, Eq, Structural)]
pub enum StateKind {
    Empty,
    MemBacked,
    FileBacked,
    StagedPath,
    OtherObject,
}

pub open spec fn kind_of(s: OutputState) -> StateKind {
    match s {
        OutputState::Empty => StateKind::Empty,
        OutputState::MemBacked(_) => StateKind::MemBacked,
        OutputState::FileBacked => StateKind::FileBacked,
        OutputState::StagedPath => StateKind::StagedPath,
        OutputState::OtherObject(_) => StateKind::OtherObject,
    }
}

/// The bytes an output holds: its buffer in memory, or what was handed to its file.
pub open spec fn stored_bytes(s: OutputState, file: Seq<u8>) -> Seq<u8> {
    match s {
        OutputState::MemBacked(v) => v@,
        OutputState::FileBacked => file,
        _ => Seq::empty(),
    }
}

/// Whether appending `incoming` bytes to `held` bytes in memory moves them to a file.
pub open spec fn spills(held: nat, incoming: nat) -> bool {
    held + incoming > WRITER_SPILL_LIMIT
}

/// A state that a writer may hold: in memory within the limit, or in a file.
pub open spec fn writable(s: OutputState) -> bool {
    match s {
        OutputState::MemBacked(v) => v@.len() <= WRITER_SPILL_LIMIT,
        OutputState::FileBacked => true,
        _ => false,
    }
}

/// The result of a staging call in a given state, with or without a writer out.
pub open spec fn stage_outcome(
    k: StateKind,
    writing: bool,
    source_ok: bool,
    not_ok: OutputError,
    op: StageOp,
) -> Result<(), OutputError> {
    if !source_ok {
        Err(not_ok)
    } else if writing || k != StateKind::Empty {
        Err(OutputError::AlreadyStaged(op))
    } else {
        Ok(())
    }
}

/// Whether a writer can be had on an output in a state of this kind.
pub open spec fn writer_available(k: StateKind) -> bool {
    k == StateKind::Empty || k == StateKind::MemBacked || k == StateKind::FileBacked
}

/// Whether a writer is file-backed, and what it holds, after writing `buf`.
pub open spec fn after_write(is_file: bool, held: Seq<u8>, buf: Seq<u8>) -> (bool, Seq<u8>) {
    (is_file || spills(held.len(), buf.len()), held + buf)
}

/// The same after writing each of `bufs` in turn.
pub open spec fn after_writes(is_file: bool, held: Seq<u8>, bufs: Seq<Seq<u8>>) -> (bool, Seq<u8>)
    decreases bufs.len(),
{
    if bufs.len() == 0 {
        (is_file, held)
    } else {
        let next = after_write(is_file, held, bufs[0]);
        after_writes(next.0, next.1, bufs.drop_first())
    }
}

/// Whether `loc` is where the contents of an output in state `s` with staging path
/// `path` are reported to be.
pub open spec fn reported_location(s: OutputState, path: Seq<char>, loc: DataLocation) -> bool {
    match s {
        OutputState::Empty => loc is Memory && loc->Memory_0@ == Seq::<u8>::empty(),
        OutputState::MemBacked(v) => loc is Memory && loc->Memory_0@ == v@,
        OutputState::FileBacked => loc is Path && loc->Path_0@ == path,
        OutputState::StagedPath => loc is Path && loc->Path_0@ == path,
        OutputState::OtherObject(o) => loc == DataLocation::OtherObject(o),
    }
}

/// Once an output has left the empty state, or while a writer is out, every staging
/// call fails with the misuse error; a writer can be had on a non-empty output only
/// while it is written to.
pub proof fn lemma_staging_closed(
    k: StateKind,
    writing: bool,
    source_ok: bool,
    not_ok: OutputError,
    op: StageOp,
)
    requires
        k != StateKind::Empty || writing,
    ensures
        stage_outcome(k, writing, source_ok, not_ok, op) is Err,
        source_ok ==> stage_outcome(k, writing, source_ok, not_ok, op) == Err::<(), OutputError>(
            OutputError::AlreadyStaged(op),
        ),
        k != StateKind::Empty ==> (writer_available(k) <==> (k == StateKind::MemBacked || k
            == StateKind::FileBacked)),
{
}

/// An output that was never touched is reported as empty bytes in memory.
pub proof fn lemma_untouched_output_is_empty(o: Output, loc: DataLocation)
    requires
        o.kind() == StateKind::Empty,
        reported_location(o.state, o.path@, loc),
    ensures
        loc matches DataLocation::Memory(v) && v@ == Seq::<u8>::empty(),
{
}

/// Writing fewer bytes than the limit and then enough to pass it, to a fresh writer,
/// leaves it file-backed, holding the two writes one after the other.
pub proof fn lemma_spill_after_two_writes(first: Seq<u8>, second: Seq<u8>)
    requires
        first.len() < WRITER_SPILL_LIMIT,
        first.len() + second.len() > WRITER_SPILL_LIMIT,
    ensures
        !after_write(false, Seq::empty(), first).0,
        after_writes(false, Seq::empty(), seq![first, second]) == (true, first + second),
{
    let s = seq![first, second];
    let rest = s.drop_first();
    assert(rest.drop_first().len() == 0);
    assert(Seq::<u8>::empty() + first == first);
    assert(s[0] == first);
    assert(rest[0] == second);
    assert(after_writes(true, first + second, rest.drop_first()) == (true, first + second));
    assert(after_writes(false, first, rest) == (true, first + second));
}

/// A file-backed writer stays file-backed whatever is written to it afterwards.
pub proof fn lemma_no_revert_to_memory(held: Seq<u8>, bufs: Seq<Seq<u8>>)
    ensures
        after_writes(true, held, bufs).0,
    decreases bufs.len(),
{
    if bufs.len() > 0 {
        lemma_no_revert_to_memory(held + bufs[0], bufs.drop_first());
    }
}

/// Copies `buf` onto the end of `v`.
pub(crate) fn append_bytes(v: &mut Vec<u8>, buf: &[u8])
    ensures
        final(v)@ == old(v)@ + buf@,
{
    let mut i: usize = 0;
    while i < buf.len()
        invariant
            0 <= i <= buf@.len(),
            v@ == old(v)@ + buf@.subrange(0, i as int),
        decreases buf@.len() - i,
    {
        v.push(buf[i]);
        i = i + 1;
        assert(buf@.subrange(0, i as int) == buf@.subrange(0, i - 1 as int).push(buf@[i - 1]));
    }
    assert(buf@.subrange(0, buf@.len() as int) == buf@);
}


/// One concrete output of a task.
///
/// The output is empty at first. It can then be set to a staged file or directory,
/// to another data object, or written to through an `OutputWriter`. These are
/// mutually exclusive. While a writer is out, `writing` is set and the writer holds
/// the output's state; the owner of the output hands it back with `finish_writing`.
pub struct Output {
    pub id: DataObjectId,
    pub label: Option<String>,
    pub state: OutputState,
    /// Whether a writer holds the state
    pub writing: bool,
    pub attributes: Attributes,
    /// Path for the resulting file or directory if written to the file system (may not exist)
    pub path: String,
    /// Order of the output among the task's outputs
    pub order: usize,
    /// Bytes handed to the file while file-backed
    pub file_content: Ghost<Seq<u8>>,
}

/// Whether two outputs describe the same declared output.
pub open spec fn same_output(a: Output, b: Output) -> bool {
    a.id == b.id && a.label == b.label && a.path == b.path && a.order == b.order
}

impl Output {
    pub open spec fn wf(&self) -> bool {
        &&& self.writing ==> self.state is Empty
        &&& match self.state {
            OutputState::MemBacked(v) => v@.len() <= WRITER_SPILL_LIMIT,
            _ => true,
        }
    }

    pub open spec fn kind(&self) -> StateKind {
        kind_of(self.state)
    }

    pub open spec fn stored(&self) -> Seq<u8> {
        stored_bytes(self.state, self.file_content@)
    }

    /// Create an empty output with its staging path.
    pub fn new(id: DataObjectId, label: Option<String>, path: String, order: usize) -> (r: Output)
        ensures
            r.wf(),
            r.kind() == StateKind::Empty,
            !r.writing,
            r.id == id,
            r.label == label,
            r.path == path,
            r.order == order,
            r.attributes.entries@.len() == 0,
    {
        Output {
            id,
            label,
            state: OutputState::Empty,
            writing: false,
            attributes: Attributes::new(),
            path,
            order,
            file_content: Ghost(Seq::empty()),
        }
    }

    /// Consume the output, yielding its description for the result message and
    /// whether the object was cached (never).
    pub fn into_output_spec(self) -> (r: (OutputSpec, bool))
        ensures
            r.0.id == self.id,
            r.0.label is None,
            r.0.attributes == self.attributes,
            !r.0.cache_hint,
            !r.1,
            reported_location(self.state, self.path@, r.0.location),
    {
        let location = match self.state {
            OutputState::Empty => DataLocation::Memory(Vec::new()),
            OutputState::MemBacked(data) => DataLocation::Memory(data),
            OutputState::FileBacked => DataLocation::Path(self.path),
            OutputState::StagedPath => DataLocation::Path(self.path),
            OutputState::OtherObject(o) => DataLocation::OtherObject(o),
        };
        (OutputSpec {
            id: self.id,
            label: None,
            attributes: self.attributes,
            location,
            cache_hint: false,
        }, false)
    }

    /// Check that a directory may be staged as this output. The caller then moves it
    /// to the staging path and calls `commit_stage`.
    pub fn stage_directory(&self, source_is_dir: bool) -> (r: Result<(), OutputError>)
        ensures
            r == stage_outcome(
                self.kind(),
                self.writing,
                source_is_dir,
                OutputError::NotADirectory,
                StageOp::Directory,
            ),
    {
        if !source_is_dir {
            return Err(OutputError::NotADirectory);
        }
        if self.writing {
            return Err(OutputError::AlreadyStaged(StageOp::Directory));
        }
        match self.state {
            OutputState::Empty => Ok(()),
            _ => Err(OutputError::AlreadyStaged(StageOp::Directory)),
        }
    }

    /// Check that a regular file may be staged as this output. The caller then moves it
    /// to the staging path and calls `commit_stage`.
    pub fn stage_file(&self, source_is_file: bool) -> (r: Result<(), OutputError>)
        ensures
            r == stage_outcome(
                self.kind(),
                self.writing,
                source_is_file,
                OutputError::NotAFile,
                StageOp::File,
            ),
    {
        if !source_is_file {
            return Err(OutputError::NotAFile);
        }
        if self.writing {
            return Err(OutputError::AlreadyStaged(StageOp::File));
        }
        match self.state {
            OutputState::Empty => Ok(()),
            _ => Err(OutputError::AlreadyStaged(StageOp::File)),
        }
    }

    /// Record that the staged file or directory now lies at the staging path.
    pub fn commit_stage(&mut self)
        requires
            old(self).kind() == StateKind::Empty,
            !old(self).writing,
        ensures
            final(self).kind() == StateKind::StagedPath,
            !final(self).writing,
            final(self).wf(),
            same_output(*final(self), *old(self)),
            final(self).attributes == old(self).attributes,
    {
        self.state = OutputState::StagedPath;
    }

    /// Set the output to be the given data object, which must belong to the same task.
    /// No data is copied.
    pub fn stage_input(&mut self, object: DataObjectId) -> (r: Result<(), OutputError>)
        requires
            old(self).wf(),
        ensures
            final(self).wf(),
            r is Ok <==> (old(self).kind() == StateKind::Empty && !old(self).writing),
            r is Err ==> r == Err::<(), OutputError>(OutputError::AlreadyStaged(StageOp::Input)),
            r is Ok ==> (final(self).state == OutputState::OtherObject(object)
                && !final(self).writing),
            r is Err ==> *final(self) == *old(self),
            same_output(*final(self), *old(self)),
            final(self).attributes == old(self).attributes,
    {
        if self.writing {
            return Err(OutputError::AlreadyStaged(StageOp::Input));
        }
        match self.state {
            OutputState::Empty => {
                self.state = OutputState::OtherObject(object);
                Ok(())
            },
            _ => Err(OutputError::AlreadyStaged(StageOp::Input)),
        }
    }

    /// Forget any staged or written data and the attributes, after the task failed.
    /// Returns whether the staging path must be removed from the file system.
    pub fn cleanup_failed_task(&mut self) -> (remove_path: bool)
        ensures
            final(self).wf(),
            final(self).kind() == StateKind::Empty,
            !final(self).writing,
            final(self).attributes.entries@.len() == 0,
            remove_path == (old(self).kind() == StateKind::FileBacked || old(self).kind()
                == StateKind::StagedPath),
            same_output(*final(self), *old(self)),
    {
        let remove_path = match self.state {
            OutputState::FileBacked => true,
            OutputState::StagedPath => true,
            _ => false,
        };
        self.state = OutputState::Empty;
        self.writing = false;
        self.file_content = Ghost(Seq::empty());
        self.attributes = Attributes::new();
        remove_path
    }

    /// Get a writer. An empty output becomes an empty in-memory one first. The writer
    /// holds the state, and the output is marked as written to, until the writer is
    /// handed back with `finish_writing`.
    pub fn get_writer(&mut self) -> (r: Result<OutputWriter, OutputError>)
        requires
            old(self).wf(),
        ensures
            final(self).wf(),
            same_output(*final(self), *old(self)),
            final(self).attributes == old(self).attributes,
            old(self).writing ==> (r == Err::<OutputWriter, OutputError>(OutputError::WriterInUse)
                && *final(self) == *old(self)),
            !old(self).writing && writer_available(old(self).kind()) ==> (r matches Ok(w)
                && w.wf() && w.stored() == old(self).stored() && w.is_file() == (old(self).kind()
                == StateKind::FileBacked) && w.path == old(self).path && final(self).kind()
                == StateKind::Empty && final(self).writing),
            !old(self).writing && !writer_available(old(self).kind()) ==> (r == Err::<
                OutputWriter,
                OutputError,
            >(OutputError::WriterUnavailable) && *final(self) == *old(self)),
    {
        if self.writing {
            return Err(OutputError::WriterInUse);
        }
        let mut st = OutputState::Empty;
        core::mem::swap(&mut st, &mut self.state);
        match st {
            OutputState::Empty => {
                self.writing = true;
                Ok(
                    OutputWriter {
                        state: OutputState::MemBacked(Vec::new()),
                        path: self.path.clone(),
                        file_content: Ghost(Seq::empty()),
                    },
                )
            },
            OutputState::MemBacked(v) => {
                self.writing = true;
                Ok(
                    OutputWriter {
                        state: OutputState::MemBacked(v),
                        path: self.path.clone(),
                        file_content: self.file_content,
                    },
                )
            },
            OutputState::FileBacked => {
                self.writing = true;
                Ok(
                    OutputWriter {
                        state: OutputState::FileBacked,
                        path: self.path.clone(),
                        file_content: self.file_content,
                    },
                )
            },
            other => {
                self.state = other;
                Err(OutputError::WriterUnavailable)
            },
        }
    }

    /// Take back the state from a writer that is done.
    pub fn finish_writing(&mut self, w: OutputWriter)
        requires
            old(self).wf(),
            old(self).writing,
            w.wf(),
        ensures
            final(self).wf(),
            !final(self).writing,
            final(self).state == w.state,
            final(self).stored() == w.stored(),
            same_output(*final(self), *old(self)),
            final(self).attributes == old(self).attributes,
    {
        self.state = w.state;
        self.file_content = w.file_content;
        self.writing = false;
    }
}

/// What the caller must do with the bytes of a write.
#[derive(Debug)]
pub enum WriteOutcome {
    /// The bytes were kept in memory.
    Memory,
    /// The output must move to a file first. Nothing changed: the caller creates the
    /// file at the staging path with the bytes held so far (`ensure_file_based`), appends
    /// the new bytes, and then records both with `commit_spill`.
    Spill,
    /// The bytes were recorded; append them to the open file.
    File,
}

/// An exclusive write handle on an output.
pub struct OutputWriter {
    pub state: OutputState,
    pub path: String,
    /// Bytes handed to the file while file-backed
    pub file_content: Ghost<Seq<u8>>,
}

impl OutputWriter {
    pub open spec fn wf(&self) -> bool {
        writable(self.state)
    }

    pub open spec fn stored(&self) -> Seq<u8> {
        stored_bytes(self.state, self.file_content@)
    }

    pub open spec fn is_file(&self) -> bool {
        self.state is FileBacked
    }

    /// Whether the writer is backed by a file.
    pub fn is_file_backed(&self) -> (r: bool)
        ensures
            r == self.is_file(),
    {
        match self.state {
            OutputState::FileBacked => true,
            _ => false,
        }
    }

    /// Whether writing `incoming` more bytes moves the output to a file.
    pub fn needs_spill(&self, incoming: usize) -> (r: bool)
        requires
            self.wf(),
        ensures
            r == (!self.is_file() && spills(self.stored().len(), incoming as nat)),
    {
        match &self.state {
            OutputState::MemBacked(data) => incoming > WRITER_SPILL_LIMIT - data.len(),
            _ => false,
        }
    }

    /// Record that a file now exists at the staging path holding the bytes that were
    /// in memory.
    pub fn convert_to_file(&mut self)
        requires
            old(self).wf(),
            !old(self).is_file(),
        ensures
            final(self).wf(),
            final(self).is_file(),
            final(self).stored() == old(self).stored(),
            final(self).path == old(self).path,
    {
        let mut st = OutputState::FileBacked;
        core::mem::swap(&mut st, &mut self.state);
        match st {
            OutputState::MemBacked(data) => {
                self.file_content = Ghost(data@);
            },
            _ => {
                proof {
                    assert(false);
                }
            },
        }
    }

    /// What moving the output to a file takes: the bytes that a new file at the staging
    /// path must hold while the output is in memory, nothing if it already is a file.
    /// The writer does not change; once the file holds them, `convert_to_file` records it.
    pub fn ensure_file_based(&self) -> (r: Option<&[u8]>)
        requires
            self.wf(),
        ensures
            self.is_file() ==> r is None,
            !self.is_file() ==> (r matches Some(b) && b@ == self.stored()),
    {
        match &self.state {
            OutputState::MemBacked(data) => Some(data.as_slice()),
            _ => None,
        }
    }

    /// Append `buf` to the output. Where the bytes held in memory and `buf` together
    /// exceed the limit, nothing changes and the caller is told to spill.
    pub fn write(&mut self, buf: &[u8]) -> (r: WriteOutcome)
        requires
            old(self).wf(),
        ensures
            final(self).wf(),
            final(self).path == old(self).path,
            old(self).is_file() ==> r is File,
            !old(self).is_file() && spills(old(self).stored().len(), buf@.len()) ==> r is Spill,
            !old(self).is_file() && !spills(old(self).stored().len(), buf@.len()) ==> r is Memory,
            r is Spill ==> *final(self) == *old(self),
            !(r is Spill) ==> (final(self).is_file(), final(self).stored()) == after_write(
                old(self).is_file(),
                old(self).stored(),
                buf@,
            ),
    {
        if self.needs_spill(buf.len()) {
            return WriteOutcome::Spill;
        }
        match &mut self.state {
            OutputState::MemBacked(data) => {
                append_bytes(data, buf);
                WriteOutcome::Memory
            },
            _ => {
                self.file_content = Ghost(self.file_content@ + buf@);
                WriteOutcome::File
            },
        }
    }

    /// Record a spill: a new file at the staging path holds the bytes that were in
    /// memory followed by `buf`.
    pub fn commit_spill(&mut self, buf: &[u8])
        requires
            old(self).wf(),
            !old(self).is_file(),
            spills(old(self).stored().len(), buf@.len()),
        ensures
            final(self).wf(),
            final(self).path == old(self).path,
            final(self).is_file(),
            final(self).stored() == old(self).stored() + buf@,
            (final(self).is_file(), final(self).stored()) == after_write(
                old(self).is_file(),
                old(self).stored(),
                buf@,
            ),
    {
        self.convert_to_file();
        self.file_content = Ghost(self.file_content@ + buf@);
    }

    /// Whether a flush has work to do: only a file-backed output has a file to flush.
    pub fn flush(&self) -> (r: bool)
        ensures
            r == self.is_file(),
    {
        self.is_file_backed()
    }
}

} // verus!
