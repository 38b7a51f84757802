//! The scratch-file slot: the one intermediate file a session hands to the
//! external editor. The slot decides what the host must do — create, reuse,
//! read or delete — and the host feeds the filesystem's answers back in as
//! plain values; the slot itself never touches the disk.

use vstd::prelude::*;

verus! {

/// The view of an optional owned string.
pub open spec fn opt_str_view(o: Option<String>) -> Option<Seq<char>> {
    match o {
        Option::Some(s) => Option::Some(s@),
        Option::None => Option::None,
    }
}

/// The file timestamps the change check compares, in whatever monotone unit
/// the host's filesystem reports.
#[derive(Debug, Clone, Copy, PartialEq, Eq, Structural)]
pub struct FileStat {
    pub modified: u64,
    pub created: u64,
}

/// Why a read-back did not return text: no scratch file is owned, the file
/// has not been modified since its creation (the editor has not saved yet —
/// retry later, this is not a failure), or the filesystem refused.
#[derive(Debug, Clone, Copy, PartialEq, Eq, Structural)]
pub enum ReadError {
    NoActiveFile,
    Unmodified,
    IoFailure,
}

/// Where an edit request's text must be written: into a freshly created
/// scratch file, or over the one already owned, truncated first.
pub enum WriteTarget {
    NewFile,
    Existing(String),
}

/// What `open_for_edit` decides: reuse the owned path, or have a new file
/// made because none is owned yet.
pub open spec fn open_post(s: ScratchSlot, t: WriteTarget) -> bool {
    match s.active_path() {
        Option::Some(p) => t matches WriteTarget::Existing(q) && q@ == p,
        Option::None => t is NewFile,
    }
}

/// What recording a freshly created file does to the slot.
pub open spec fn record_post(before: ScratchSlot, after: ScratchSlot, path: Seq<char>) -> bool {
    after.active_path() == Option::Some(path)
}

/// What `close` does: the slot ends empty, and the old path — the one file
/// to delete, if any — is handed back.
pub open spec fn close_post(
    before: ScratchSlot,
    after: ScratchSlot,
    deleted: Option<Seq<char>>,
) -> bool {
    &&& after.active_path() is None
    &&& deleted == before.active_path()
}

/// The read-back decision over the observed filesystem facts: `active` is
/// whether a scratch file is owned, `stat` its timestamps if they could be
/// read, `content` its text if it could be read. Text is returned exactly
/// when a file is owned, its metadata and content were readable, and its
/// modification time is strictly after its creation time.
pub open spec fn read_back_spec(
    active: bool,
    stat: Option<FileStat>,
    content: Option<Seq<char>>,
) -> Result<Seq<char>, ReadError> {
    if !active {
        Result::Err(ReadError::NoActiveFile)
    } else {
        match stat {
            Option::None => Result::Err(ReadError::IoFailure),
            Option::Some(st) => if st.modified <= st.created {
                Result::Err(ReadError::Unmodified)
            } else {
                match content {
                    Option::Some(c) => Result::Ok(c),
                    Option::None => Result::Err(ReadError::IoFailure),
                }
            },
        }
    }
}

/// The scratch-file slot. At most one scratch file exists per running
/// application: the slot owns its path, or none.
pub struct ScratchSlot {
    path: Option<String>,
}

impl ScratchSlot {
    /// The path of the owned scratch file, if one is owned.
    pub closed spec fn active_path(self) -> Option<Seq<char>> {
        opt_str_view(self.path)
    }

    /// A fresh slot: no scratch file is owned.
    pub fn new() -> (s: Self)
        ensures
            s.active_path() is None,
    {
        Self { path: None }
    }

    /// Whether a scratch file is currently owned.
    pub fn is_active(&self) -> (r: bool)
        ensures
            r == (self.active_path() is Some),
    {
        self.path.is_some()
    }

    /// The owned path, for the host to hand to the editor.
    pub fn current_path(&self) -> (r: Option<&str>)
        ensures
            opt_str_view_ref(r) == self.active_path(),
    {
        match &self.path {
            Some(p) => Some(p.as_str()),
            None => None,
        }
    }

    /// Decide where an edit request's text goes: the owned file, truncated
    /// and rewritten, or a new file when none is owned. Re-entry always
    /// reuses; it never multiplies files.
    pub fn open_for_edit(&self) -> (t: WriteTarget)
        ensures
            open_post(*self, t),
    {
        match &self.path {
            Some(p) => WriteTarget::Existing(p.clone()),
            None => WriteTarget::NewFile,
        }
    }

    /// Record the file the host created for a `NewFile` target: the slot now
    /// owns it.
    pub fn record_file(&mut self, path: String)
        ensures
            record_post(*old(self), *final(self), path@),
    {
        self.path = Some(path);
    }

    /// The read-back decision on what the host observed of the owned file.
    pub fn read_back(&self, stat: &Option<FileStat>, content: Option<String>) -> (r: Result<
        String,
        ReadError,
    >)
        ensures
            result_view(r) == read_back_spec(
                self.active_path() is Some,
                *stat,
                opt_str_view(content),
            ),
    {
        if self.path.is_none() {
            return Err(ReadError::NoActiveFile);
        }
        match stat {
            None => Err(ReadError::IoFailure),
            Some(st) => {
                if st.modified <= st.created {
                    Err(ReadError::Unmodified)
                } else {
                    match content {
                        Some(c) => Ok(c),
                        None => Err(ReadError::IoFailure),
                    }
                }
            },
        }
    }

    /// Give up the scratch file: the slot ends empty either way, and the
    /// path to delete is returned — once, by the close that owned it. Safe
    /// to call when nothing is owned.
    pub fn close(&mut self) -> (r: Option<String>)
        ensures
            close_post(*old(self), *final(self), opt_str_view(r)),
    {
        let r = self.path.take();
        r
    }
}

/// The view of an optional borrowed string.
pub open spec fn opt_str_view_ref(o: Option<&str>) -> Option<Seq<char>> {
    match o {
        Option::Some(s) => Option::Some(s@),
        Option::None => Option::None,
    }
}

/// The view of a read-back result.
pub open spec fn result_view(r: Result<String, ReadError>) -> Result<Seq<char>, ReadError> {
    match r {
        Result::Ok(s) => Result::Ok(s@),
        Result::Err(e) => Result::Err(e),
    }
}

/// Re-entry reuses the scratch file: once a slot owns a path, a further edit
/// request targets that same file for truncation — never a second file. Two
/// `open_for_edit` calls in a row therefore leave exactly one file on disk,
/// the second call's content having replaced the first's.
pub proof fn lemma_reopen_reuses(s: ScratchSlot, t1: WriteTarget, t2: WriteTarget, p: Seq<char>)
    requires
        s.active_path() == Option::Some(p),
        open_post(s, t1),
        open_post(s, t2),
    ensures
        t1 matches WriteTarget::Existing(q1) && q1@ == p,
        t2 matches WriteTarget::Existing(q2) && q2@ == p,
{
}

/// Closing is idempotent: the first close empties the slot and hands out
/// the one path to delete; a second close finds nothing, deletes nothing,
/// and leaves the slot empty. The file is removed from disk exactly once.
pub proof fn lemma_close_idempotent(
    s0: ScratchSlot,
    s1: ScratchSlot,
    d1: Option<Seq<char>>,
    s2: ScratchSlot,
    d2: Option<Seq<char>>,
)
    requires
        close_post(s0, s1, d1),
        close_post(s1, s2, d2),
    ensures
        d1 == s0.active_path(),
        d2 is None,
        s1.active_path() is None,
        s2.active_path() is None,
{
}

/// Immediately after a scratch file is created its modification time has
/// not advanced past its creation time, so a read-back with no external
/// mutation in between reports `Unmodified`, whatever the content reads.
pub proof fn lemma_read_back_fresh_is_unmodified(
    st: FileStat,
    content: Option<Seq<char>>,
)
    requires
        st.modified <= st.created,
    ensures
        read_back_spec(true, Option::Some(st), content) == Result::<Seq<char>,
            ReadError,
        >::Err(ReadError::Unmodified),
{
}

} // verus!
