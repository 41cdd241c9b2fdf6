//! What the caller is asked to do to the machine: one `Effect` per step.
//!
//! A plan is a list of effects. The caller carries them out in order and
//! stops at the first that fails.
use vstd::prelude::*;
use vstd::string::*;

verus! {

/// One end of the pipe over which readiness is signalled.
#[derive(Debug, Clone, Copy, PartialEq, Eq)]
pub enum PipeEnd {
    Read,
    Write,
}

/// A kind of namespace.
#[derive(Debug, Clone, Copy, PartialEq, Eq)]
pub enum Namespace {
    Pid,
    Mount,
}

/// One flag of a mount.
#[derive(Debug, Clone, Copy, PartialEq, Eq)]
pub enum MountFlag {
    Recursive,
    Shared,
    Private,
    NoSuid,
    NoDev,
    NoExec,
}

/// One step that the caller carries out.
#[derive(Debug, Clone, PartialEq, Eq)]
pub enum Effect {
    /// Make the pipe over which readiness is signalled. Its ends close by
    /// themselves in a process that is replaced by a program.
    OpenPipe,
    /// Close this process's copy of one end of the readiness pipe.
    ClosePipe(PipeEnd),
    /// Set the group id.
    SetGid(u32),
    /// Set the user id.
    SetUid(u32),
    /// Set the effective group id to the real one.
    ResetEffectiveGid,
    /// Set the effective user id to the real one.
    ResetEffectiveUid,
    /// Leave the mount namespace, the process-id namespace, or both, for new
    /// ones.
    Unshare { mounts: bool, pids: bool },
    /// Become the leader of a new session.
    NewSession,
    /// Create a directory and the directories above it.
    CreateDirAll(String),
    /// Write a file, replacing what it held.
    WriteFile { path: String, content: String },
    /// Remove a file where there is one.
    RemoveIfPresent(String),
    /// Mount, or change how something is mounted.
    Mount { source: String, target: String, fstype: Option<String>, flags: Vec<MountFlag> },
    /// Change the working directory.
    Chdir(String),
    /// Open `path`, for writing or for reading, and put it in the place of
    /// the descriptor `fd`.
    Redirect { fd: i32, path: String, writable: bool },
    /// Replace the process by a program. `argv` is the whole argument vector;
    /// the program gets this process's environment, or an empty one.
    Exec { path: String, argv: Vec<String>, keep_env: bool },
    /// End the process with this status.
    Exit(i32),
    /// Send the realtime signal that lies `realtime` above the lowest one.
    Signal { pid: i32, realtime: i32 },
    /// Wait.
    Sleep { seconds: u64 },
    /// Open the reference to a namespace, join the namespace, close the
    /// reference.
    JoinNamespace { reference: String, namespace: Namespace },
}

/// An `Effect` as a value of specifications.
pub enum EffectView {
    OpenPipe,
    ClosePipe(PipeEnd),
    SetGid(u32),
    SetUid(u32),
    ResetEffectiveGid,
    ResetEffectiveUid,
    Unshare { mounts: bool, pids: bool },
    NewSession,
    CreateDirAll(Seq<char>),
    WriteFile { path: Seq<char>, content: Seq<char> },
    RemoveIfPresent(Seq<char>),
    Mount {
        source: Seq<char>,
        target: Seq<char>,
        fstype: Option<Seq<char>>,
        flags: Seq<MountFlag>,
    },
    Chdir(Seq<char>),
    Redirect { fd: i32, path: Seq<char>, writable: bool },
    Exec { path: Seq<char>, argv: Seq<Seq<char>>, keep_env: bool },
    Exit(i32),
    Signal { pid: i32, realtime: i32 },
    Sleep { seconds: u64 },
    JoinNamespace { reference: Seq<char>, namespace: Namespace },
}

impl DeepView for Effect {
    type V = EffectView;

    open spec fn deep_view(&self) -> EffectView {
        match self {
            Effect::OpenPipe => EffectView::OpenPipe,
            Effect::ClosePipe(end) => EffectView::ClosePipe(*end),
            Effect::SetGid(gid) => EffectView::SetGid(*gid),
            Effect::SetUid(uid) => EffectView::SetUid(*uid),
            Effect::ResetEffectiveGid => EffectView::ResetEffectiveGid,
            Effect::ResetEffectiveUid => EffectView::ResetEffectiveUid,
            Effect::Unshare { mounts, pids } => EffectView::Unshare {
                mounts: *mounts,
                pids: *pids,
            },
            Effect::NewSession => EffectView::NewSession,
            Effect::CreateDirAll(path) => EffectView::CreateDirAll(path@),
            Effect::WriteFile { path, content } => EffectView::WriteFile {
                path: path@,
                content: content@,
            },
            Effect::RemoveIfPresent(path) => EffectView::RemoveIfPresent(path@),
            Effect::Mount { source, target, fstype, flags } => EffectView::Mount {
                source: source@,
                target: target@,
                fstype: fstype.deep_view(),
                flags: flags@,
            },
            Effect::Chdir(path) => EffectView::Chdir(path@),
            Effect::Redirect { fd, path, writable } => EffectView::Redirect {
                fd: *fd,
                path: path@,
                writable: *writable,
            },
            Effect::Exec { path, argv, keep_env } => EffectView::Exec {
                path: path@,
                argv: argv.deep_view(),
                keep_env: *keep_env,
            },
            Effect::Exit(status) => EffectView::Exit(*status),
            Effect::Signal { pid, realtime } => EffectView::Signal {
                pid: *pid,
                realtime: *realtime,
            },
            Effect::Sleep { seconds } => EffectView::Sleep { seconds: *seconds },
            Effect::JoinNamespace { reference, namespace } => EffectView::JoinNamespace {
                reference: reference@,
                namespace: *namespace,
            },
        }
    }
}

/// Whether a step changes files: it makes a directory, or writes or removes
/// a file.
pub open spec fn changes_files(effect: EffectView) -> bool {
    effect is CreateDirAll || effect is WriteFile || effect is RemoveIfPresent
}

/// Whether a plan asks for nothing that changes a file.
pub open spec fn leaves_files_alone(plan: Seq<EffectView>) -> bool {
    forall|k: int| 0 <= k < plan.len() ==> !changes_files(#[trigger] plan[k])
}

impl Effect {
    /// Whether the step changes files.
    pub fn changes_files(&self) -> (r: bool)
        ensures
            r == changes_files(self.deep_view()),
    {
        match self {
            Effect::CreateDirAll(_) => true,
            Effect::WriteFile { .. } => true,
            Effect::RemoveIfPresent(_) => true,
            _ => false,
        }
    }
}

} // verus!
