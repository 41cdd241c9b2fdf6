//! What the caller saw of the machine: who it runs as, which programs are
//! installed, which processes run, and what the record of the instance holds.
//!
//! No function of this crate looks at the machine itself. The caller gathers
//! a `Host` and hands it in; the decisions are made on that value alone.
use vstd::prelude::*;
use vstd::string::*;

verus! {

/// What came of reading a file.
#[derive(Debug, Clone, PartialEq, Eq)]
pub enum FileRead {
    /// There is no such file.
    Missing,
    /// The file could not be read; the error number, where the system gave one.
    Failed(Option<i32>),
    /// The bytes of the file.
    Data(Vec<u8>),
}

/// A `FileRead` as a value of specifications.
pub enum FileReadView {
    Missing,
    Failed(Option<i32>),
    Data(Seq<u8>),
}

impl DeepView for FileRead {
    type V = FileReadView;

    open spec fn deep_view(&self) -> FileReadView {
        match self {
            FileRead::Missing => FileReadView::Missing,
            FileRead::Failed(code) => FileReadView::Failed(*code),
            FileRead::Data(bytes) => FileReadView::Data(bytes@),
        }
    }
}

/// A process whose command line could be read.
#[derive(Debug, Clone, PartialEq, Eq)]
pub struct Process {
    /// The process id, as the caller's own namespace numbers it.
    pub pid: i32,
    /// The command line as the kernel gives it: the arguments, each followed
    /// by a zero byte.
    pub cmdline: Vec<u8>,
}

/// A `Process` as a value of specifications.
pub struct ProcessView {
    pub pid: i32,
    pub cmdline: Seq<u8>,
}

impl DeepView for Process {
    type V = ProcessView;

    open spec fn deep_view(&self) -> ProcessView {
        ProcessView { pid: self.pid, cmdline: self.cmdline@ }
    }
}

/// The machine as the caller saw it.
#[derive(Debug, Clone, PartialEq, Eq)]
pub struct Host {
    /// The effective user id of the caller.
    pub euid: u32,
    /// The paths, of those the caller looked for, at which something exists.
    pub present: Vec<String>,
    /// The processes whose command line the caller could read.
    pub processes: Vec<Process>,
    /// What came of reading the record of the instance.
    pub record: FileRead,
}

/// A `Host` as a value of specifications.
pub struct HostView {
    pub euid: u32,
    pub present: Seq<Seq<char>>,
    pub processes: Seq<ProcessView>,
    pub record: FileReadView,
}

impl DeepView for Host {
    type V = HostView;

    open spec fn deep_view(&self) -> HostView {
        HostView {
            euid: self.euid,
            present: self.present.deep_view(),
            processes: self.processes.deep_view(),
            record: self.record.deep_view(),
        }
    }
}

/// The command line of the first process listed under `pid`.
pub open spec fn cmdline_of(processes: Seq<ProcessView>, pid: i32) -> Option<Seq<u8>>
    decreases processes.len(),
{
    if processes.len() == 0 {
        None
    } else if processes[0].pid == pid {
        Some(processes[0].cmdline)
    } else {
        cmdline_of(processes.drop_first(), pid)
    }
}

/// The first of `candidates` at which something exists.
pub open spec fn first_present(present: Seq<Seq<char>>, candidates: Seq<Seq<char>>) -> Option<
    Seq<char>,
>
    decreases candidates.len(),
{
    if candidates.len() == 0 {
        None
    } else if present.contains(candidates[0]) {
        Some(candidates[0])
    } else {
        first_present(present, candidates.drop_first())
    }
}

impl Host {
    /// Whether something exists at `path`.
    pub fn has_path(&self, path: &String) -> (r: bool)
        ensures
            r == self.deep_view().present.contains(path@),
    {
        let mut i: usize = 0;
        while i < self.present.len()
            invariant
                i <= self.present@.len(),
                forall|k: int| 0 <= k < i ==> self.present@[k]@ != path@,
            decreases self.present@.len() - i,
        {
            if self.present[i] == *path {
                assert(self.deep_view().present[i as int] == path@);
                return true;
            }
            i += 1;
        }
        assert forall|k: int| 0 <= k < self.deep_view().present.len() implies self.deep_view().present[k]
            != path@ by {
            assert(self.deep_view().present[k] == self.present@[k]@);
        }
        false
    }

    /// The command line of the first process listed under `pid`.
    pub fn cmdline_of(&self, pid: i32) -> (r: Option<&Vec<u8>>)
        ensures
            match r {
                Some(c) => cmdline_of(self.deep_view().processes, pid) == Some(c@),
                None => cmdline_of(self.deep_view().processes, pid) is None,
            },
    {
        let mut i: usize = 0;
        let ghost all = self.deep_view().processes;
        assert(all.skip(0) =~= all);
        while i < self.processes.len()
            invariant
                i <= self.processes@.len(),
                all == self.deep_view().processes,
                cmdline_of(all, pid) == cmdline_of(all.skip(i as int), pid),
            decreases self.processes@.len() - i,
        {
            assert(all.skip(i as int)[0] == self.processes@[i as int].deep_view());
            assert(all.skip(i as int).drop_first() =~= all.skip(i + 1));
            if self.processes[i].pid == pid {
                return Some(&self.processes[i].cmdline);
            }
            i += 1;
        }
        None
    }
}

} // verus!
