//! The service manager in its namespaces: telling whether it runs, and the
//! plans for starting it, stopping it and joining it.
use crate::decimal::{decimal, parse_i32, parse_range, push_decimal, IntErrorKind};
use crate::effect::{changes_files, Effect, EffectView, MountFlag, Namespace, PipeEnd};
use crate::env::{get_preserved_env, preserved_env};
use crate::host::{cmdline_of, first_present, FileRead, FileReadView, Host, HostView};
use crate::outside::{
    decode, has_hung_up, hung_up, lemma_valid_up_to_unique, uid_is_root, utf8_error_at,
};
use crate::text::{chars_of, first_token, join, join_with, lemma_token_len, trim, trim_bounds};
use vstd::prelude::*;
use vstd::string::*;
use vstd::utf8::{decode_utf8, encode_utf8, valid_utf8};

verus! {

/// The directory of the record.
pub const RUN_DIR: &'static str = "/run/bottled-shell";

/// The record: the file that holds the process id of the instance.
pub const PID_FILE: &'static str = "/run/bottled-shell/systemd.pid";

/// Where the service manager is looked for, in this order.
pub const SYSTEMD_LOCATIONS: [&'static str; 2] = ["/lib/systemd/systemd", "/usr/lib/systemd/systemd"];

/// Where the session broker is looked for, in this order.
pub const MACHINECTL_LOCATIONS: [&'static str; 2] = ["/usr/bin/machinectl", "/bin/machinectl"];

/// What can go wrong.
#[derive(Debug, Clone, PartialEq, Eq)]
pub enum SystemdError {
    /// None of the standard locations holds the program.
    SystemdNotFound,
    /// No instance runs where one is needed.
    SystemdNotRunning,
    /// The caller is not root.
    NoEnoughPermission,
    /// The record holds no number.
    ParseIntError(IntErrorKind),
    /// The record is not UTF-8; the index up to which it is.
    FromUTF8Error(usize),
    /// A file could not be read; the error number, where the system gave one.
    IOError(Option<i32>),
    /// A system call failed; the error number.
    NixErrno(i32),
}

/// The standard locations of the service manager.
pub open spec fn systemd_locations() -> Seq<Seq<char>> {
    seq![SYSTEMD_LOCATIONS[0]@, SYSTEMD_LOCATIONS[1]@]
}

/// The standard locations of the session broker.
pub open spec fn machinectl_locations() -> Seq<Seq<char>> {
    seq![MACHINECTL_LOCATIONS[0]@, MACHINECTL_LOCATIONS[1]@]
}

/// The service manager's program: the first standard location at which
/// something exists.
pub open spec fn systemd_bin(h: HostView) -> Option<Seq<char>> {
    first_present(h.present, systemd_locations())
}

/// The session broker's program: the first standard location at which
/// something exists.
pub open spec fn machinectl_bin(h: HostView) -> Option<Seq<char>> {
    first_present(h.present, machinectl_locations())
}

/// Whether the process `pid` is the service manager: its command line could
/// be read, the service manager's program was found, and the first argument
/// of the command line is the path of that program.
pub open spec fn runs_systemd(h: HostView, pid: i32) -> bool {
    match (cmdline_of(h.processes, pid), systemd_bin(h)) {
        (Some(cmdline), Some(bin)) => first_token(cmdline, 0u8) == encode_utf8(bin),
        _ => false,
    }
}

/// Whether the caller is inside the instance: process 1, as the caller sees
/// it, is the service manager.
pub open spec fn inside(h: HostView) -> bool {
    runs_systemd(h, 1)
}

/// The process id that a record holds: the bytes are UTF-8, and what is left
/// of the text once the white space at its ends is gone is a number.
pub open spec fn record_pid(bytes: Seq<u8>) -> Result<i32, SystemdError> {
    if !valid_utf8(bytes) {
        Err(SystemdError::FromUTF8Error(utf8_error_at(bytes)))
    } else {
        match parse_i32(trim(decode_utf8(bytes))) {
            Ok(n) => Ok(n as i32),
            Err(kind) => Err(SystemdError::ParseIntError(kind)),
        }
    }
}

/// The process id of the instance that runs. No record, or a record whose
/// process is not the service manager, means that none runs; a record that
/// cannot be read or understood is an error.
pub open spec fn live_pid(h: HostView) -> Result<Option<i32>, SystemdError> {
    match h.record {
        FileReadView::Missing => Ok(None),
        FileReadView::Failed(code) => Err(SystemdError::IOError(code)),
        FileReadView::Data(bytes) => match record_pid(bytes) {
            Err(e) => Err(e),
            Ok(pid) => if runs_systemd(h, pid) {
                Ok(Some(pid))
            } else {
                Ok(None)
            },
        },
    }
}

fn find_program(host: &Host, locations: &[&'static str; 2]) -> (r: Option<String>)
    ensures
        r.deep_view() == first_present(
            host.deep_view().present,
            seq![locations[0]@, locations[1]@],
        ),
{
    let ghost both = seq![locations[0]@, locations[1]@];
    assert(both.drop_first() =~= seq![locations[1]@]);
    assert(both.drop_first().drop_first() =~= Seq::<Seq<char>>::empty());
    reveal_with_fuel(first_present, 3);
    let first = String::from_str(locations[0]);
    if host.has_path(&first) {
        return Some(first);
    }
    let second = String::from_str(locations[1]);
    if host.has_path(&second) {
        return Some(second);
    }
    None
}

/// The path of the service manager's program.
pub fn get_systemd_bin(host: &Host) -> (r: Result<String, SystemdError>)
    ensures
        match r {
            Ok(path) => systemd_bin(host.deep_view()) == Some(path@),
            Err(e) => e == SystemdError::SystemdNotFound && systemd_bin(host.deep_view()) is None,
        },
{
    match find_program(host, &SYSTEMD_LOCATIONS) {
        Some(path) => Ok(path),
        None => Err(SystemdError::SystemdNotFound),
    }
}

/// The path of the session broker's program.
pub fn get_machinectl_bin(host: &Host) -> (r: Result<String, SystemdError>)
    ensures
        match r {
            Ok(path) => machinectl_bin(host.deep_view()) == Some(path@),
            Err(e) => e == SystemdError::SystemdNotFound && machinectl_bin(host.deep_view())
                is None,
        },
{
    match find_program(host, &MACHINECTL_LOCATIONS) {
        Some(path) => Ok(path),
        None => Err(SystemdError::SystemdNotFound),
    }
}

/// Whether the first argument of a command line is `word`.
fn first_argument_is(cmdline: &Vec<u8>, word: &[u8]) -> (r: bool)
    ensures
        r == (first_token(cmdline@, 0u8) == word@),
{
    let mut end: usize = 0;
    while end < cmdline.len() && cmdline[end] != 0
        invariant
            end <= cmdline@.len(),
            forall|k: int| 0 <= k < end ==> cmdline@[k] != 0u8,
        decreases cmdline@.len() - end,
    {
        end += 1;
    }
    proof {
        lemma_token_len(cmdline@, 0u8, end as int);
    }
    let ghost token = first_token(cmdline@, 0u8);
    if end != word.len() {
        assert(token.len() != word@.len());
        return false;
    }
    let mut i: usize = 0;
    while i < end
        invariant
            i <= end <= cmdline@.len(),
            end == word@.len(),
            token == cmdline@.take(end as int),
            token == first_token(cmdline@, 0u8),
            forall|k: int| 0 <= k < i ==> cmdline@[k] == word@[k],
        decreases end - i,
    {
        if cmdline[i] != word[i] {
            assert(token[i as int] != word@[i as int]);
            return false;
        }
        i += 1;
    }
    assert(token =~= word@);
    true
}

/// Whether the process `pid` is the service manager.
pub fn check_systemd_proc(host: &Host, pid: i32) -> (r: bool)
    ensures
        r == runs_systemd(host.deep_view(), pid),
{
    match host.cmdline_of(pid) {
        None => false,
        Some(cmdline) => match get_systemd_bin(host) {
            Err(_) => false,
            Ok(bin) => first_argument_is(cmdline, bin.as_str().as_bytes()),
        },
    }
}

/// Whether the caller is inside the instance.
pub fn is_associated_with_systemd(host: &Host) -> (r: bool)
    ensures
        r == inside(host.deep_view()),
{
    check_systemd_proc(host, 1)
}

/// The process id that a record holds.
pub fn parse_record(bytes: &Vec<u8>) -> (r: Result<i32, SystemdError>)
    ensures
        r == record_pid(bytes@),
{
    match decode(bytes.as_slice()) {
        Err(n) => {
            proof {
                lemma_valid_up_to_unique(bytes@, n);
            }
            Err(SystemdError::FromUTF8Error(n))
        },
        Ok(text) => {
            let chars = chars_of(text.as_str());
            let (from, to) = trim_bounds(chars.as_slice());
            match parse_range(chars.as_slice(), from, to) {
                Ok(pid) => Ok(pid),
                Err(kind) => Err(SystemdError::ParseIntError(kind)),
            }
        },
    }
}

/// The process id of the instance that runs, if one does.
pub fn get_systemd_pid(host: &Host) -> (r: Result<Option<i32>, SystemdError>)
    ensures
        r == live_pid(host.deep_view()),
{
    match &host.record {
        FileRead::Missing => Ok(None),
        FileRead::Failed(code) => Err(SystemdError::IOError(*code)),
        FileRead::Data(bytes) => match parse_record(bytes) {
            Err(e) => Err(e),
            Ok(pid) => if check_systemd_proc(host, pid) {
                Ok(Some(pid))
            } else {
                Ok(None)
            },
        },
    }
}

/// The directory of the settings for the service manager's system scope.
pub const SYSTEM_CONF_DIR: &'static str = "/run/systemd/system.conf.d";

/// The file that holds the environment for the service manager's system
/// scope.
pub const SYSTEM_CONF: &'static str = "/run/systemd/system.conf.d/10-bottled-shell-env.conf";

/// The directory of the settings for the service manager's user scope.
pub const USER_CONF_DIR: &'static str = "/run/systemd/user.conf.d";

/// The file that holds the environment for the service manager's user scope.
pub const USER_CONF: &'static str = "/run/systemd/user.conf.d/10-bottled-shell-env.conf";

/// The realtime signal, counted from the lowest, that tells the service
/// manager that it may go on.
pub const READY_SIGNAL: i32 = 0;

/// The realtime signal, counted from the lowest, that asks the service
/// manager to stop.
pub const STOP_SIGNAL: i32 = 4;

/// How long the starter lets the service manager settle, in seconds.
pub const GRACE_SECONDS: u64 = 1;

/// A plan, or the error in its place, as a value of specifications.
pub open spec fn plan_view(r: Result<Vec<Effect>, SystemdError>) -> Result<
    Seq<EffectView>,
    SystemdError,
> {
    match r {
        Ok(plan) => Ok(plan.deep_view()),
        Err(e) => Err(e),
    }
}

/// Root may go on; anyone else is refused.
pub open spec fn permission(euid: u32) -> Result<bool, SystemdError> {
    if euid == 0 {
        Ok(true)
    } else {
        Err(SystemdError::NoEnoughPermission)
    }
}

/// Stopping the service manager that runs as `pid`: root sends it the stop
/// signal and removes the record.
pub open spec fn kill_plan(h: HostView, pid: i32) -> Result<Seq<EffectView>, SystemdError> {
    if h.euid != 0 {
        Err(SystemdError::NoEnoughPermission)
    } else {
        Ok(
            seq![
                EffectView::Signal { pid, realtime: STOP_SIGNAL },
                EffectView::RemoveIfPresent(PID_FILE@),
            ],
        )
    }
}

/// Stopping the instance. From inside it is process 1 that is stopped, from
/// outside the process of the record; where none runs, nothing is done.
pub open spec fn stop_plan(h: HostView) -> Result<Seq<EffectView>, SystemdError> {
    if inside(h) {
        kill_plan(h, 1)
    } else {
        match live_pid(h) {
            Err(e) => Err(e),
            Ok(Some(pid)) => kill_plan(h, pid),
            Ok(None) => Ok(Seq::empty()),
        }
    }
}

/// The reference to one namespace of a process.
pub open spec fn namespace_path(pid: i32, name: Seq<char>) -> Seq<char> {
    "/proc/"@ + decimal(pid as int) + "/ns/"@ + name
}

/// The file that holds the command line of a process.
pub open spec fn cmdline_path(pid: i32) -> Seq<char> {
    "/proc/"@ + decimal(pid as int) + "/cmdline"@
}

/// Joining the instance: root joins the process-id namespace of the service
/// manager, then its mount namespace, and goes to the root directory.
pub open spec fn associate_plan(h: HostView) -> Result<Seq<EffectView>, SystemdError> {
    if h.euid != 0 {
        Err(SystemdError::NoEnoughPermission)
    } else {
        match live_pid(h) {
            Err(e) => Err(e),
            Ok(None) => Err(SystemdError::SystemdNotRunning),
            Ok(Some(pid)) => Ok(
                seq![
                    EffectView::JoinNamespace {
                        reference: namespace_path(pid, "pid"@),
                        namespace: Namespace::Pid,
                    },
                    EffectView::JoinNamespace {
                        reference: namespace_path(pid, "mnt"@),
                        namespace: Namespace::Mount,
                    },
                    EffectView::Chdir("/"@),
                ],
            ),
        }
    }
}

/// Whether the caller is root.
pub fn check_permission(host: &Host) -> (r: Result<bool, SystemdError>)
    ensures
        r == permission(host.euid),
{
    if uid_is_root(host.euid) {
        Ok(true)
    } else {
        Err(SystemdError::NoEnoughPermission)
    }
}

/// The plan for stopping the service manager that runs as `pid`.
pub fn kill_systemd(host: &Host, pid: i32) -> (r: Result<Vec<Effect>, SystemdError>)
    ensures
        plan_view(r) == kill_plan(host.deep_view(), pid),
{
    match check_permission(host) {
        Err(e) => Err(e),
        Ok(_) => {
            let mut plan: Vec<Effect> = Vec::new();
            plan.push(Effect::Signal { pid, realtime: STOP_SIGNAL });
            plan.push(Effect::RemoveIfPresent(String::from_str(PID_FILE)));
            assert(plan.deep_view() =~= kill_plan(host.deep_view(), pid)->Ok_0);
            Ok(plan)
        },
    }
}

/// The plan for stopping the instance.
pub fn stop_systemd(host: &Host) -> (r: Result<Vec<Effect>, SystemdError>)
    ensures
        plan_view(r) == stop_plan(host.deep_view()),
{
    if is_associated_with_systemd(host) {
        kill_systemd(host, 1)
    } else {
        match get_systemd_pid(host) {
            Err(e) => Err(e),
            Ok(Some(pid)) => kill_systemd(host, pid),
            Ok(None) => {
                let plan: Vec<Effect> = Vec::new();
                assert(plan.deep_view() =~= Seq::empty());
                Ok(plan)
            },
        }
    }
}

/// The path of the reference to one namespace of a process.
pub fn namespace_reference(pid: i32, name: &str) -> (r: String)
    ensures
        r@ == namespace_path(pid, name@),
{
    let mut path = String::from_str("/proc/");
    push_decimal(&mut path, pid);
    path.append("/ns/");
    path.append(name);
    path
}

/// The path of the file that holds the command line of a process.
pub fn cmdline_file(pid: i32) -> (r: String)
    ensures
        r@ == cmdline_path(pid),
{
    let mut path = String::from_str("/proc/");
    push_decimal(&mut path, pid);
    path.append("/cmdline");
    path
}

/// The plan for joining the instance.
pub fn associate_with_systemd(host: &Host) -> (r: Result<Vec<Effect>, SystemdError>)
    ensures
        plan_view(r) == associate_plan(host.deep_view()),
{
    match check_permission(host) {
        Err(e) => Err(e),
        Ok(_) => match get_systemd_pid(host) {
            Err(e) => Err(e),
            Ok(None) => Err(SystemdError::SystemdNotRunning),
            Ok(Some(pid)) => {
                let mut plan: Vec<Effect> = Vec::new();
                plan.push(
                    Effect::JoinNamespace {
                        reference: namespace_reference(pid, "pid"),
                        namespace: Namespace::Pid,
                    },
                );
                plan.push(
                    Effect::JoinNamespace {
                        reference: namespace_reference(pid, "mnt"),
                        namespace: Namespace::Mount,
                    },
                );
                plan.push(Effect::Chdir(String::from_str("/")));
                assert(plan.deep_view() =~= associate_plan(host.deep_view())->Ok_0);
                Ok(plan)
            },
        },
    }
}

/// What the service manager is told of the environment: one section with
/// one setting that lists the entries, a space between each two.
pub open spec fn manager_conf(envs: Seq<Seq<char>>) -> Seq<char> {
    "[Manager]\nDefaultEnvironment="@ + join(envs, " "@) + "\n"@
}

/// Handing the environment to the service manager. Of the variables of the
/// caller, those that are carried over are listed in a file, which is written
/// for the system scope and for the user scope, each after its directory has
/// been made.
pub open spec fn envs_plan(vars: Seq<(Seq<char>, Seq<char>)>) -> Seq<EffectView> {
    seq![
        EffectView::CreateDirAll(SYSTEM_CONF_DIR@),
        EffectView::WriteFile { path: SYSTEM_CONF@, content: manager_conf(preserved_env(vars)) },
        EffectView::CreateDirAll(USER_CONF_DIR@),
        EffectView::WriteFile { path: USER_CONF@, content: manager_conf(preserved_env(vars)) },
    ]
}

/// What the record holds for a process id: the number and a line end.
pub open spec fn record_text(pid: i32) -> Seq<char> {
    decimal(pid as int) + "\n"@
}

/// Writing the record: its directory is made, then the file is written.
pub open spec fn record_plan(pid: i32) -> Seq<EffectView> {
    seq![
        EffectView::CreateDirAll(RUN_DIR@),
        EffectView::WriteFile { path: PID_FILE@, content: record_text(pid) },
    ]
}

/// Becoming the service manager, as process 1 of the new namespaces: the
/// root mount is made shared with all below it; `/proc` is made private and
/// a fresh one is mounted over it; the working directory is the root; the
/// three standard streams go to the null device; then the program takes the
/// place of the process, with itself as only argument and no environment.
pub open spec fn exec_plan(bin: Seq<char>) -> Seq<EffectView> {
    seq![
        EffectView::Mount {
            source: "none"@,
            target: "/"@,
            fstype: None,
            flags: seq![MountFlag::Recursive, MountFlag::Shared],
        },
        EffectView::Mount {
            source: "none"@,
            target: "/proc"@,
            fstype: None,
            flags: seq![MountFlag::Recursive, MountFlag::Private],
        },
        EffectView::Mount {
            source: "proc"@,
            target: "/proc"@,
            fstype: Some("proc"@),
            flags: seq![MountFlag::NoSuid, MountFlag::NoDev, MountFlag::NoExec],
        },
        EffectView::Chdir("/"@),
        EffectView::Redirect { fd: 0, path: "/dev/null"@, writable: false },
        EffectView::Redirect { fd: 1, path: "/dev/null"@, writable: true },
        EffectView::Redirect { fd: 2, path: "/dev/null"@, writable: true },
        EffectView::Exec { path: bin, argv: seq![bin], keep_env: false },
    ]
}

/// What the caller does before it forks: it hands the environment over and
/// makes the readiness pipe.
pub open spec fn starter_plan(vars: Seq<(Seq<char>, Seq<char>)>) -> Seq<EffectView> {
    envs_plan(vars) + seq![EffectView::OpenPipe]
}

/// What the caller does once it has forked: it gives up its writing end, so
/// that the pipe closes when the others have given up theirs.
pub open spec fn outer_plan() -> Seq<EffectView> {
    seq![EffectView::ClosePipe(PipeEnd::Write)]
}

/// What the first child does before it forks again: it gives up its reading
/// end, becomes root in full, leaves the mount and process-id namespaces
/// for new ones, and starts a session.
pub open spec fn inner_plan() -> Seq<EffectView> {
    seq![
        EffectView::ClosePipe(PipeEnd::Read),
        EffectView::SetGid(0),
        EffectView::SetUid(0),
        EffectView::Unshare { mounts: true, pids: true },
        EffectView::NewSession,
    ]
}

/// What the first child does once it has forked again: it gives up its
/// writing end, writes the record for its child, and ends.
pub open spec fn middle_plan(child: i32) -> Seq<EffectView> {
    seq![EffectView::ClosePipe(PipeEnd::Write)] + record_plan(child) + seq![EffectView::Exit(0)]
}

/// A process of a launch, at one time of its life.
#[derive(Debug, Clone, Copy, PartialEq, Eq)]
pub enum Role {
    /// The caller, before it forks.
    Starter,
    /// The caller, once it has forked.
    Outer,
    /// The first child, before it forks again.
    Inner,
    /// The first child, once it has forked again. `child` is the process id
    /// of the second child.
    Middle { child: i32 },
    /// The second child, which becomes the service manager.
    Innermost,
}

/// One of the two forks of a launch.
#[derive(Debug, Clone, Copy, PartialEq, Eq)]
pub enum Generation {
    /// The fork of the caller.
    First,
    /// The fork of the first child.
    Second,
}

/// How a fork came out for the process that goes on.
#[derive(Debug, Clone, Copy, PartialEq, Eq)]
pub enum Forked {
    /// This is the process that forked. `child` is the process id of the new
    /// one.
    Parent { child: i32 },
    /// This is the new process.
    Child,
    /// Nothing was forked; the error number.
    Failed(i32),
}

/// What a process of a launch does once its plan is carried out.
#[derive(Debug, Clone, Copy, PartialEq, Eq)]
pub enum Then {
    /// It forks, and both processes go on in their new roles.
    Fork(Generation),
    /// It waits for the launch to get ready.
    Await,
    /// Nothing: the plan has ended the process or replaced it.
    End,
}

/// The plan of a process of a launch. `bin` is the service manager's program
/// and `vars` are the variables of the caller.
pub open spec fn role_plan(role: Role, bin: Seq<char>, vars: Seq<(Seq<char>, Seq<char>)>) -> Seq<
    EffectView,
> {
    match role {
        Role::Starter => starter_plan(vars),
        Role::Outer => outer_plan(),
        Role::Inner => inner_plan(),
        Role::Middle { child } => middle_plan(child),
        Role::Innermost => exec_plan(bin),
    }
}

/// What follows the plan of a process of a launch. The caller forks and then
/// waits; the first child forks and then ends; the second child is replaced.
pub open spec fn role_then(role: Role) -> Then {
    match role {
        Role::Starter => Then::Fork(Generation::First),
        Role::Outer => Then::Await,
        Role::Inner => Then::Fork(Generation::Second),
        Role::Middle { .. } => Then::End,
        Role::Innermost => Then::End,
    }
}

/// The role in which a process goes on after a fork. The caller's fork leaves
/// the caller outside and makes the first child; the first child's fork
/// leaves it in the middle, knowing its child, and makes the second child. A
/// fork that failed is an error in the process that tried.
pub open spec fn role_after(generation: Generation, forked: Forked) -> Result<Role, SystemdError> {
    match (generation, forked) {
        (_, Forked::Failed(errno)) => Err(SystemdError::NixErrno(errno)),
        (Generation::First, Forked::Parent { .. }) => Ok(Role::Outer),
        (Generation::First, Forked::Child) => Ok(Role::Inner),
        (Generation::Second, Forked::Parent { child }) => Ok(Role::Middle { child }),
        (Generation::Second, Forked::Child) => Ok(Role::Innermost),
    }
}

/// What a start comes to.
#[derive(Debug, Clone, PartialEq, Eq)]
pub enum Start {
    /// An instance runs already: nothing is to be done.
    AlreadyRunning,
    /// An instance is to be launched, with this program as service manager.
    /// The caller takes the role of the starter.
    Launch { systemd_bin: String },
}

/// A `Start` as a value of specifications.
pub enum StartView {
    AlreadyRunning,
    Launch { systemd_bin: Seq<char> },
}

impl DeepView for Start {
    type V = StartView;

    open spec fn deep_view(&self) -> StartView {
        match self {
            Start::AlreadyRunning => StartView::AlreadyRunning,
            Start::Launch { systemd_bin } => StartView::Launch { systemd_bin: systemd_bin@ },
        }
    }
}

/// Whether an instance runs, as far as a start cares: the caller is inside
/// one, or the record names the service manager.
pub open spec fn running(h: HostView) -> bool {
    inside(h) || live_pid(h) matches Ok(Some(_))
}

/// Starting the instance. Where one runs, nothing is done. Otherwise the
/// caller must be root and the service manager's program must be found, and
/// an instance is launched.
pub open spec fn start_plan(h: HostView) -> Result<StartView, SystemdError> {
    if running(h) {
        Ok(StartView::AlreadyRunning)
    } else if h.euid != 0 {
        Err(SystemdError::NoEnoughPermission)
    } else {
        match systemd_bin(h) {
            None => Err(SystemdError::SystemdNotFound),
            Some(bin) => Ok(StartView::Launch { systemd_bin: bin }),
        }
    }
}

/// The plan for handing the environment to the service manager. `vars` are
/// the variables of the caller.
pub fn updated_systemd_envs(vars: &Vec<(String, String)>) -> (plan: Vec<Effect>)
    ensures
        plan.deep_view() == envs_plan(vars.deep_view()),
{
    let envs = get_preserved_env(vars);
    let mut config = String::from_str("[Manager]\nDefaultEnvironment=");
    let listed = join_with(&envs, " ");
    config.append(listed.as_str());
    config.append("\n");
    let mut plan: Vec<Effect> = Vec::new();
    plan.push(Effect::CreateDirAll(String::from_str(SYSTEM_CONF_DIR)));
    plan.push(Effect::WriteFile { path: String::from_str(SYSTEM_CONF), content: config.clone() });
    plan.push(Effect::CreateDirAll(String::from_str(USER_CONF_DIR)));
    plan.push(Effect::WriteFile { path: String::from_str(USER_CONF), content: config });
    assert(plan.deep_view() =~= envs_plan(vars.deep_view()));
    plan
}

fn push_record(plan: &mut Vec<Effect>, pid: i32)
    ensures
        final(plan).deep_view() == old(plan).deep_view() + record_plan(pid),
{
    let mut content = String::new();
    push_decimal(&mut content, pid);
    content.append("\n");
    assert(content@ =~= record_text(pid));
    plan.push(Effect::CreateDirAll(String::from_str(RUN_DIR)));
    plan.push(Effect::WriteFile { path: String::from_str(PID_FILE), content });
    assert(final(plan).deep_view() =~= old(plan).deep_view() + record_plan(pid));
}

/// The plan for writing the record.
pub fn put_systemd_pid(pid: i32) -> (plan: Vec<Effect>)
    ensures
        plan.deep_view() == record_plan(pid),
{
    let mut plan: Vec<Effect> = Vec::new();
    assert(plan.deep_view() =~= Seq::empty());
    push_record(&mut plan, pid);
    assert(plan.deep_view() =~= record_plan(pid));
    plan
}

fn null_device(fd: i32, writable: bool) -> (r: Effect)
    ensures
        r.deep_view() == (EffectView::Redirect { fd, path: "/dev/null"@, writable }),
{
    Effect::Redirect { fd, path: String::from_str("/dev/null"), writable }
}

/// The plan for becoming the service manager.
pub fn exec_systemd(systemd_bin: &String) -> (plan: Vec<Effect>)
    ensures
        plan.deep_view() == exec_plan(systemd_bin@),
{
    let mut plan: Vec<Effect> = Vec::new();
    let mut shared: Vec<MountFlag> = Vec::new();
    shared.push(MountFlag::Recursive);
    shared.push(MountFlag::Shared);
    assert(shared@ =~= seq![MountFlag::Recursive, MountFlag::Shared]);
    plan.push(
        Effect::Mount {
            source: String::from_str("none"),
            target: String::from_str("/"),
            fstype: None,
            flags: shared,
        },
    );
    let mut private: Vec<MountFlag> = Vec::new();
    private.push(MountFlag::Recursive);
    private.push(MountFlag::Private);
    assert(private@ =~= seq![MountFlag::Recursive, MountFlag::Private]);
    plan.push(
        Effect::Mount {
            source: String::from_str("none"),
            target: String::from_str("/proc"),
            fstype: None,
            flags: private,
        },
    );
    let mut fresh: Vec<MountFlag> = Vec::new();
    fresh.push(MountFlag::NoSuid);
    fresh.push(MountFlag::NoDev);
    fresh.push(MountFlag::NoExec);
    assert(fresh@ =~= seq![MountFlag::NoSuid, MountFlag::NoDev, MountFlag::NoExec]);
    plan.push(
        Effect::Mount {
            source: String::from_str("proc"),
            target: String::from_str("/proc"),
            fstype: Some(String::from_str("proc")),
            flags: fresh,
        },
    );
    plan.push(Effect::Chdir(String::from_str("/")));
    plan.push(null_device(0, false));
    plan.push(null_device(1, true));
    plan.push(null_device(2, true));
    let mut argv: Vec<String> = Vec::new();
    argv.push(systemd_bin.clone());
    assert(argv.deep_view() =~= seq![systemd_bin@]);
    plan.push(Effect::Exec { path: systemd_bin.clone(), argv, keep_env: false });
    assert(plan.deep_view() =~= exec_plan(systemd_bin@));
    plan
}

/// The plan of the first child once it has forked again.
pub fn middle_steps(child: i32) -> (plan: Vec<Effect>)
    ensures
        plan.deep_view() == middle_plan(child),
{
    let mut plan: Vec<Effect> = Vec::new();
    plan.push(Effect::ClosePipe(PipeEnd::Write));
    assert(plan.deep_view() =~= seq![EffectView::ClosePipe(PipeEnd::Write)]);
    push_record(&mut plan, child);
    plan.push(Effect::Exit(0));
    assert(plan.deep_view() =~= middle_plan(child));
    plan
}

/// Whether an instance is to be launched, and with which program.
pub fn start_systemd(host: &Host) -> (r: Result<Start, SystemdError>)
    ensures
        match r {
            Ok(start) => start_plan(host.deep_view()) == Ok::<StartView, SystemdError>(
                start.deep_view(),
            ),
            Err(e) => start_plan(host.deep_view()) == Err::<StartView, SystemdError>(e),
        },
{
    if is_associated_with_systemd(host) {
        return Ok(Start::AlreadyRunning);
    }
    if let Ok(Some(_)) = get_systemd_pid(host) {
        return Ok(Start::AlreadyRunning);
    }
    if let Err(e) = check_permission(host) {
        return Err(e);
    }
    match get_systemd_bin(host) {
        Err(e) => Err(e),
        Ok(systemd_bin) => Ok(Start::Launch { systemd_bin }),
    }
}

/// The plan of a process of a launch. `systemd_bin` is the service manager's
/// program and `vars` are the variables of the caller.
pub fn role_steps(role: Role, systemd_bin: &String, vars: &Vec<(String, String)>) -> (plan: Vec<
    Effect,
>)
    ensures
        plan.deep_view() == role_plan(role, systemd_bin@, vars.deep_view()),
{
    match role {
        Role::Starter => {
            let mut plan = updated_systemd_envs(vars);
            let ghost written = plan.deep_view();
            plan.push(Effect::OpenPipe);
            assert(plan.deep_view() =~= written + seq![EffectView::OpenPipe]);
            plan
        },
        Role::Outer => {
            let mut plan: Vec<Effect> = Vec::new();
            plan.push(Effect::ClosePipe(PipeEnd::Write));
            assert(plan.deep_view() =~= outer_plan());
            plan
        },
        Role::Inner => {
            let mut plan: Vec<Effect> = Vec::new();
            plan.push(Effect::ClosePipe(PipeEnd::Read));
            plan.push(Effect::SetGid(0));
            plan.push(Effect::SetUid(0));
            plan.push(Effect::Unshare { mounts: true, pids: true });
            plan.push(Effect::NewSession);
            assert(plan.deep_view() =~= inner_plan());
            plan
        },
        Role::Middle { child } => middle_steps(child),
        Role::Innermost => exec_systemd(systemd_bin),
    }
}

/// What a process of a launch does once its plan is carried out.
pub fn then(role: Role) -> (r: Then)
    ensures
        r == role_then(role),
{
    match role {
        Role::Starter => Then::Fork(Generation::First),
        Role::Outer => Then::Await,
        Role::Inner => Then::Fork(Generation::Second),
        Role::Middle { .. } => Then::End,
        Role::Innermost => Then::End,
    }
}

/// The role in which a process goes on after a fork.
pub fn after_fork(generation: Generation, forked: Forked) -> (r: Result<Role, SystemdError>)
    ensures
        r == role_after(generation, forked),
{
    match forked {
        Forked::Failed(errno) => Err(SystemdError::NixErrno(errno)),
        Forked::Parent { child } => match generation {
            Generation::First => Ok(Role::Outer),
            Generation::Second => Ok(Role::Middle { child }),
        },
        Forked::Child => match generation {
            Generation::First => Ok(Role::Inner),
            Generation::Second => Ok(Role::Innermost),
        },
    }
}

/// How long the starter waits for the launch to get ready, in nanoseconds:
/// ten seconds.
pub const HANDSHAKE_NANOS: u128 = 10_000_000_000;

/// What the starter last saw while it waits for the launch to get ready.
#[derive(Debug, Clone, PartialEq, Eq)]
pub enum Seen {
    /// Nothing yet.
    Nothing,
    /// A poll of the reading end came back: how many descriptors it
    /// reported, and the events on the reading end where they were
    /// understood.
    Polled { ready: i32, revents: Option<i16> },
    /// A poll failed; the error number.
    PollFailed(i32),
    /// The host, looked at after the pipe was found closed.
    Host(Host),
}

/// A `Seen` as a value of specifications.
pub enum SeenView {
    Nothing,
    Polled { ready: i32, revents: Option<i16> },
    PollFailed(i32),
    Host(HostView),
}

impl DeepView for Seen {
    type V = SeenView;

    open spec fn deep_view(&self) -> SeenView {
        match self {
            Seen::Nothing => SeenView::Nothing,
            Seen::Polled { ready, revents } => SeenView::Polled {
                ready: *ready,
                revents: *revents,
            },
            Seen::PollFailed(errno) => SeenView::PollFailed(*errno),
            Seen::Host(host) => SeenView::Host(host.deep_view()),
        }
    }
}

/// What the starter does next while it waits.
#[derive(Debug, Clone, PartialEq, Eq)]
pub enum Readiness {
    /// Poll the reading end for at most so many milliseconds, then come back
    /// with what the poll gave.
    Poll { timeout_ms: i32 },
    /// The pipe is closed: look at the host and come back with it.
    Inspect,
    /// The instance runs: carry out the plan; the start has succeeded.
    Ready(Vec<Effect>),
    /// The start has failed.
    Failed(SystemdError),
}

/// A `Readiness` as a value of specifications.
pub enum ReadinessView {
    Poll { timeout_ms: i32 },
    Inspect,
    Ready(Seq<EffectView>),
    Failed(SystemdError),
}

impl DeepView for Readiness {
    type V = ReadinessView;

    open spec fn deep_view(&self) -> ReadinessView {
        match self {
            Readiness::Poll { timeout_ms } => ReadinessView::Poll { timeout_ms: *timeout_ms },
            Readiness::Inspect => ReadinessView::Inspect,
            Readiness::Ready(plan) => ReadinessView::Ready(plan.deep_view()),
            Readiness::Failed(e) => ReadinessView::Failed(*e),
        }
    }
}

/// Whether a poll showed that every holder has closed the writing end.
pub open spec fn pipe_closed(seen: SeenView) -> bool {
    seen matches SeenView::Polled { ready, revents: Some(events) } && ready > 0 && hung_up(events)
}

/// Greeting the service manager that runs as `pid`: it is sent the ready
/// signal and given a moment.
pub open spec fn greet_plan(pid: i32) -> Seq<EffectView> {
    seq![
        EffectView::Signal { pid, realtime: READY_SIGNAL },
        EffectView::Sleep { seconds: GRACE_SECONDS },
    ]
}

/// The next step of the starter, `elapsed` nanoseconds after it began to
/// wait. A failed poll ends the start. Once the pipe is found closed the host
/// is looked at, and the start succeeds if the record then names the service
/// manager and fails if not. Until then the starter polls for what is left
/// of the ten seconds, and fails when nothing is left.
pub open spec fn readiness(elapsed: u128, seen: SeenView) -> ReadinessView {
    match seen {
        SeenView::Host(h) => match live_pid(h) {
            Ok(Some(pid)) => ReadinessView::Ready(greet_plan(pid)),
            _ => ReadinessView::Failed(SystemdError::SystemdNotRunning),
        },
        SeenView::PollFailed(errno) => ReadinessView::Failed(SystemdError::NixErrno(errno)),
        _ => if pipe_closed(seen) {
            ReadinessView::Inspect
        } else if elapsed >= HANDSHAKE_NANOS {
            ReadinessView::Failed(SystemdError::SystemdNotRunning)
        } else {
            ReadinessView::Poll { timeout_ms: ((HANDSHAKE_NANOS - elapsed) / 1_000_000) as i32 }
        },
    }
}

/// The next step of the starter while it waits for the launch to get ready.
pub fn await_readiness(elapsed_nanos: u128, seen: &Seen) -> (r: Readiness)
    ensures
        r.deep_view() == readiness(elapsed_nanos, seen.deep_view()),
{
    match seen {
        Seen::Host(host) => match get_systemd_pid(host) {
            Ok(Some(pid)) => {
                let mut plan: Vec<Effect> = Vec::new();
                plan.push(Effect::Signal { pid, realtime: READY_SIGNAL });
                plan.push(Effect::Sleep { seconds: GRACE_SECONDS });
                assert(plan.deep_view() =~= greet_plan(pid));
                Readiness::Ready(plan)
            },
            _ => Readiness::Failed(SystemdError::SystemdNotRunning),
        },
        Seen::PollFailed(errno) => Readiness::Failed(SystemdError::NixErrno(*errno)),
        Seen::Polled { ready, revents: Some(events) } if *ready > 0 && has_hung_up(*events) => {
            Readiness::Inspect
        },
        _ => {
            if elapsed_nanos >= HANDSHAKE_NANOS {
                Readiness::Failed(SystemdError::SystemdNotRunning)
            } else {
                Readiness::Poll { timeout_ms: ((HANDSHAKE_NANOS - elapsed_nanos) / 1_000_000) as i32 }
            }
        },
    }
}

/// The error that a failed step ends a plan with. A step on files fails as
/// the reading of a file does; any other is a failed system call, whose error
/// number is 0 where none is known.
pub open spec fn failure(effect: EffectView, code: Option<i32>) -> SystemdError {
    if changes_files(effect) {
        SystemdError::IOError(code)
    } else {
        SystemdError::NixErrno(
            match code {
                Some(errno) => errno,
                None => 0,
            },
        )
    }
}

/// The error that a failed step ends a plan with. `code` is the error number
/// that the system gave, if it gave one.
pub fn effect_failed(effect: &Effect, code: Option<i32>) -> (e: SystemdError)
    ensures
        e == failure(effect.deep_view(), code),
{
    if effect.changes_files() {
        SystemdError::IOError(code)
    } else {
        match code {
            Some(errno) => SystemdError::NixErrno(errno),
            None => SystemdError::NixErrno(0),
        }
    }
}

/// The paths that a host is asked about: the standard locations of the
/// service manager, then those of the session broker.
pub fn probed_paths() -> (paths: Vec<String>)
    ensures
        paths.deep_view() == systemd_locations() + machinectl_locations(),
{
    let mut paths: Vec<String> = Vec::new();
    paths.push(String::from_str(SYSTEMD_LOCATIONS[0]));
    paths.push(String::from_str(SYSTEMD_LOCATIONS[1]));
    paths.push(String::from_str(MACHINECTL_LOCATIONS[0]));
    paths.push(String::from_str(MACHINECTL_LOCATIONS[1]));
    assert(paths.deep_view() =~= systemd_locations() + machinectl_locations());
    paths
}

/// The processes whose command line decides anything: process 1, and the
/// process that the record names where it names one.
pub open spec fn inspected(record: FileReadView) -> Seq<i32> {
    match record {
        FileReadView::Data(bytes) => match record_pid(bytes) {
            Ok(pid) => seq![1i32, pid],
            Err(_) => seq![1i32],
        },
        _ => seq![1i32],
    }
}

/// The processes whose command line a host is asked for.
pub fn inspected_pids(record: &FileRead) -> (pids: Vec<i32>)
    ensures
        pids@ == inspected(record.deep_view()),
{
    let mut pids: Vec<i32> = Vec::new();
    pids.push(1);
    if let FileRead::Data(bytes) = record {
        if let Ok(pid) = parse_record(bytes) {
            pids.push(pid);
        }
    }
    assert(pids@ =~= inspected(record.deep_view()));
    pids
}

/// The number of a realtime signal: the lowest realtime signal of the
/// machine and the count above it, where their sum is a number at all.
pub open spec fn signal_number(lowest: i32, realtime: i32) -> Option<i32> {
    if i32::MIN <= lowest + realtime <= i32::MAX {
        Some((lowest + realtime) as i32)
    } else {
        None
    }
}

/// The number of the realtime signal that lies `realtime` above the lowest
/// one, which is `lowest` on this machine.
pub fn realtime_signal(lowest: i32, realtime: i32) -> (r: Option<i32>)
    ensures
        r == signal_number(lowest, realtime),
{
    lowest.checked_add(realtime)
}

} // verus!
