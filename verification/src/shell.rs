//! Opening a login shell in the instance: directly where the caller is
//! inside already, through the session broker where it is not.
use crate::effect::{Effect, EffectView};
use crate::env::{get_preserved_env, preserved_env};
use crate::host::{Host, HostView};
use crate::systemd::{
    associate_plan, associate_with_systemd, get_machinectl_bin, get_systemd_pid, inside,
    is_associated_with_systemd, live_pid, machinectl_bin, SystemdError,
};
use crate::outside::decode;
use crate::text::{chars_of, lemma_token_len, split, trim, trim_bounds, word_at};
use vstd::prelude::*;
use vstd::slice::slice_subrange;
use vstd::string::*;
use vstd::utf8::{decode_utf8, valid_utf8};

verus! {

/// The catalog of shells: a file with one path on each line.
pub const SHELLS: &'static str = "/etc/shells";

/// What can go wrong.
#[derive(Debug, Clone, PartialEq, Eq)]
pub enum ShellError {
    /// The catalog names no shell of this name.
    ShellNotFound(String),
    /// A file could not be read; the error number, where the system gave one.
    IOError(Option<i32>),
    /// A system call failed; the error number.
    NixErrno(i32),
    /// The instance could not be joined, or the session broker not be found.
    Systemd(SystemdError),
}

/// A `ShellError` as a value of specifications.
pub enum ShellErrorView {
    ShellNotFound(Seq<char>),
    IOError(Option<i32>),
    NixErrno(i32),
    Systemd(SystemdError),
}

impl DeepView for ShellError {
    type V = ShellErrorView;

    open spec fn deep_view(&self) -> ShellErrorView {
        match self {
            ShellError::ShellNotFound(shell) => ShellErrorView::ShellNotFound(shell@),
            ShellError::IOError(code) => ShellErrorView::IOError(*code),
            ShellError::NixErrno(errno) => ShellErrorView::NixErrno(*errno),
            ShellError::Systemd(e) => ShellErrorView::Systemd(*e),
        }
    }
}

/// Whether a path names the shell: its last component, the part behind the
/// last `/`, is the shell's name. A path without `/` names nothing.
pub open spec fn names_shell(path: Seq<char>, shell: Seq<char>) -> bool {
    !shell.contains('/') && ("/"@ + shell).is_suffix_of(path)
}

/// What the catalog gives for a shell.
pub enum Lookup {
    /// The path of the shell.
    Found(Seq<char>),
    /// No line names the shell.
    NotFound,
    /// A line that is not UTF-8 came before any that names the shell.
    Unreadable,
}

/// Looks through the lines in order. A line counts without the white space
/// at its ends. The first line that names the shell is its path; a line that
/// is not UTF-8 ends the search.
pub open spec fn look_up(lines: Seq<Seq<u8>>, shell: Seq<char>) -> Lookup
    decreases lines.len(),
{
    if lines.len() == 0 {
        Lookup::NotFound
    } else if !valid_utf8(lines[0]) {
        Lookup::Unreadable
    } else if names_shell(trim(decode_utf8(lines[0])), shell) {
        Lookup::Found(trim(decode_utf8(lines[0])))
    } else {
        look_up(lines.drop_first(), shell)
    }
}

/// The byte that ends a line.
pub const LINE_END: u8 = 10;

/// What the catalog gives for a shell: its bytes are cut into lines, and the
/// lines are looked through.
pub open spec fn shell_path(catalog: Seq<u8>, shell: Seq<char>) -> Lookup {
    look_up(split(catalog, LINE_END), shell)
}

fn has_slash(s: &[char]) -> (r: bool)
    ensures
        r == s@.contains('/'),
{
    let mut i: usize = 0;
    while i < s.len()
        invariant
            i <= s@.len(),
            forall|k: int| 0 <= k < i ==> s@[k] != '/',
        decreases s@.len() - i,
    {
        if s[i] == '/' {
            return true;
        }
        i += 1;
    }
    false
}

fn range_names_shell(s: &[char], from: usize, to: usize, shell: &[char]) -> (r: bool)
    requires
        from <= to <= s@.len(),
    ensures
        r == names_shell(s@.subrange(from as int, to as int), shell@),
{
    proof {
        reveal_strlit("/");
    }
    let ghost path = s@.subrange(from as int, to as int);
    let ghost tail = "/"@ + shell@;
    assert(tail.len() == shell@.len() + 1);
    assert(tail[0] == '/');
    if has_slash(shell) {
        return false;
    }
    let n = shell.len();
    if to - from <= n {
        return false;
    }
    let ghost end = path.subrange(path.len() - tail.len(), path.len() as int);
    assert(end[0] == s@[to - n - 1]);
    if s[to - n - 1] != '/' {
        return false;
    }
    let r = word_at(s, to - n, shell);
    assert(r == (end =~= tail)) by {
        let word = s@.subrange(to - n, to as int);
        assert(forall|k: int| 0 <= k < n ==> word[k] == end[k + 1]);
        assert(forall|k: int| 0 <= k < n ==> shell@[k] == tail[k + 1]);
        if r {
            assert(forall|k: int| 0 < k < tail.len() ==> end[k] == word[k - 1]);
        } else {
            if end =~= tail {
                assert(word =~= shell@);
            }
        }
    }
    r
}

/// The path that the catalog gives for a shell. `catalog` holds the bytes
/// of the catalog.
pub fn get_shell_path(catalog: &[u8], shell: &String) -> (r: Result<String, ShellError>)
    ensures
        match r {
            Ok(path) => shell_path(catalog@, shell@) == Lookup::Found(path@),
            Err(e) => match shell_path(catalog@, shell@) {
                Lookup::Found(_) => false,
                Lookup::NotFound => e.deep_view() == ShellErrorView::ShellNotFound(shell@),
                Lookup::Unreadable => e.deep_view() == ShellErrorView::IOError(None),
            },
        },
{
    let name = chars_of(shell.as_str());
    let mut pos: usize = 0;
    assert(catalog@.skip(0) =~= catalog@);
    loop
        invariant
            pos <= catalog@.len(),
            name@ == shell@,
            shell_path(catalog@, shell@) == look_up(
                split(catalog@.skip(pos as int), LINE_END),
                shell@,
            ),
        decreases catalog@.len() - pos,
    {
        let mut end: usize = pos;
        while end < catalog.len() && catalog[end] != LINE_END
            invariant
                pos <= end <= catalog@.len(),
                forall|k: int| pos <= k < end ==> catalog@[k] != LINE_END,
            decreases catalog@.len() - end,
        {
            end += 1;
        }
        let ghost rest = catalog@.skip(pos as int);
        let ghost lines = split(rest, LINE_END);
        proof {
            lemma_token_len(rest, LINE_END, end - pos);
            assert(rest.take(end - pos) =~= catalog@.subrange(pos as int, end as int));
            assert(lines[0] == catalog@.subrange(pos as int, end as int));
            if end < catalog@.len() {
                assert(rest.skip(end - pos + 1) =~= catalog@.skip(end + 1));
                assert(lines.drop_first() =~= split(catalog@.skip(end + 1), LINE_END));
            } else {
                assert(lines.drop_first() =~= Seq::<Seq<u8>>::empty());
            }
        }
        let line = match decode(slice_subrange(catalog, pos, end)) {
            Err(_) => {
                return Err(ShellError::IOError(None));
            },
            Ok(line) => line,
        };
        let chars = chars_of(line.as_str());
        let (from, to) = trim_bounds(chars.as_slice());
        if range_names_shell(chars.as_slice(), from, to, name.as_slice()) {
            return Ok(line.as_str().substring_char(from, to).to_owned());
        }
        if end >= catalog.len() {
            assert(look_up(lines.drop_first(), shell@) == Lookup::NotFound);
            return Err(ShellError::ShellNotFound(shell.clone()));
        }
        pos = end + 1;
    }
}

/// How far the launch of a shell has come, with what the caller saw last.
#[derive(Debug, PartialEq, Eq)]
pub enum Stage {
    /// Nothing has been done. The host as the caller sees it.
    Arrived(Host),
    /// The instance has been started. The host as the caller sees it now.
    Started(Host),
    /// The caller is inside and has given up its privilege. The bytes of the
    /// catalog of shells, or, where it could not be read, the error number
    /// if the system gave one.
    Released(Result<Vec<u8>, Option<i32>>),
    /// The caller has joined the instance. The host as it looks from there,
    /// the name of the user who called, and the variables of the caller.
    Joined { host: Host, user: String, vars: Vec<(String, String)> },
}

/// A `Stage` as a value of specifications.
pub enum StageView {
    Arrived(HostView),
    Started(HostView),
    Released(Result<Seq<u8>, Option<i32>>),
    Joined { host: HostView, user: Seq<char>, vars: Seq<(Seq<char>, Seq<char>)> },
}

impl DeepView for Stage {
    type V = StageView;

    open spec fn deep_view(&self) -> StageView {
        match self {
            Stage::Arrived(host) => StageView::Arrived(host.deep_view()),
            Stage::Started(host) => StageView::Started(host.deep_view()),
            Stage::Released(catalog) => StageView::Released(
                match catalog {
                    Ok(bytes) => Ok(bytes@),
                    Err(code) => Err(*code),
                },
            ),
            Stage::Joined { host, user, vars } => StageView::Joined {
                host: host.deep_view(),
                user: user@,
                vars: vars.deep_view(),
            },
        }
    }
}

/// What the caller does next.
#[derive(Debug, Clone, PartialEq, Eq)]
pub enum Next {
    /// Carry out the plan, read the catalog of shells, and come back with
    /// `Stage::Released`.
    Release(Vec<Effect>),
    /// Start the instance, look at the host, and come back with
    /// `Stage::Started`.
    Start,
    /// Find the name of the user who called, carry out the plan, look at the
    /// host, and come back with `Stage::Joined`.
    Join(Vec<Effect>),
    /// Carry out the plan. Its last step replaces the process.
    Run(Vec<Effect>),
}

/// A `Next` as a value of specifications.
pub enum NextView {
    Release(Seq<EffectView>),
    Start,
    Join(Seq<EffectView>),
    Run(Seq<EffectView>),
}

impl DeepView for Next {
    type V = NextView;

    open spec fn deep_view(&self) -> NextView {
        match self {
            Next::Release(plan) => NextView::Release(plan.deep_view()),
            Next::Start => NextView::Start,
            Next::Join(plan) => NextView::Join(plan.deep_view()),
            Next::Run(plan) => NextView::Run(plan.deep_view()),
        }
    }
}

/// Giving up privilege for good: the effective group becomes the real one,
/// then the effective user the real one.
pub open spec fn release_plan() -> Seq<EffectView> {
    seq![EffectView::ResetEffectiveGid, EffectView::ResetEffectiveUid]
}

/// The arguments of the shell: its name, then what the caller passed on.
pub open spec fn shell_argv(shell: Seq<char>, args: Seq<Seq<char>>) -> Seq<Seq<char>> {
    seq![shell] + args
}

/// For each entry of the environment, the flag `-E` and the entry.
pub open spec fn env_flags(envs: Seq<Seq<char>>) -> Seq<Seq<char>>
    decreases envs.len(),
{
    if envs.len() == 0 {
        Seq::empty()
    } else {
        env_flags(envs.drop_last()) + seq!["-E"@, envs.last()]
    }
}

/// What the broker runs in the session. With nothing passed on it is left
/// to the broker; otherwise it is this launcher's own entry point for the
/// shell, with what was passed on.
pub open spec fn relayed(entry_point: Seq<char>, args: Seq<Seq<char>>) -> Seq<Seq<char>> {
    if args.len() == 0 {
        Seq::empty()
    } else {
        seq![entry_point] + args
    }
}

/// The arguments of the session broker: its name; the request for a shell;
/// the environment that is carried over; the user, on the local machine;
/// and what is to run in the session.
pub open spec fn broker_argv(
    envs: Seq<Seq<char>>,
    user: Seq<char>,
    entry_point: Seq<char>,
    args: Seq<Seq<char>>,
) -> Seq<Seq<char>> {
    seq!["machinectl"@, "shell"@] + env_flags(envs) + seq![user + "@.host"@] + relayed(
        entry_point,
        args,
    )
}

/// Replacing the process by a program that keeps the environment.
pub open spec fn run(path: Seq<char>, argv: Seq<Seq<char>>) -> NextView {
    NextView::Run(seq![EffectView::Exec { path, argv, keep_env: true }])
}

/// Joining the instance, or the reason why it cannot be joined.
pub open spec fn join_step(h: HostView) -> Result<NextView, ShellErrorView> {
    match associate_plan(h) {
        Ok(plan) => Ok(NextView::Join(plan)),
        Err(e) => Err(launch_failure(e)),
    }
}

/// The next step of a launch.
///
/// On arrival: a caller inside the instance gives up its privilege; one
/// outside joins the instance if it runs, and has it started if not. After
/// the start the instance is joined. A caller that has given up its
/// privilege runs the shell that the catalog names, if the catalog could be
/// read and names it. A caller that has joined runs the session broker.
pub open spec fn launch(
    entry_point: Seq<char>,
    shell: Seq<char>,
    args: Seq<Seq<char>>,
    stage: StageView,
) -> Result<NextView, ShellErrorView> {
    match stage {
        StageView::Arrived(h) => if inside(h) {
            Ok(NextView::Release(release_plan()))
        } else if live_pid(h) matches Ok(Some(_)) {
            join_step(h)
        } else {
            Ok(NextView::Start)
        },
        StageView::Started(h) => join_step(h),
        StageView::Released(Err(code)) => Err(ShellErrorView::IOError(code)),
        StageView::Released(Ok(catalog)) => match shell_path(catalog, shell) {
            Lookup::Unreadable => Err(ShellErrorView::IOError(None)),
            Lookup::NotFound => Err(ShellErrorView::ShellNotFound(shell)),
            Lookup::Found(path) => Ok(run(path, shell_argv(shell, args))),
        },
        StageView::Joined { host, user, vars } => match machinectl_bin(host) {
            None => Err(ShellErrorView::Systemd(SystemdError::SystemdNotFound)),
            Some(bin) => Ok(run(bin, broker_argv(preserved_env(vars), user, entry_point, args))),
        },
    }
}

/// A launch step, or the error in its place, as a value of specifications.
pub open spec fn step_view(r: Result<Next, ShellError>) -> Result<NextView, ShellErrorView> {
    match r {
        Ok(next) => Ok(next.deep_view()),
        Err(e) => Err(e.deep_view()),
    }
}

fn push_all(out: &mut Vec<String>, more: &Vec<String>)
    ensures
        final(out).deep_view() == old(out).deep_view() + more.deep_view(),
{
    let mut i: usize = 0;
    assert(out.deep_view() =~= old(out).deep_view() + more.deep_view().take(0));
    while i < more.len()
        invariant
            i <= more@.len(),
            out.deep_view() == old(out).deep_view() + more.deep_view().take(i as int),
        decreases more@.len() - i,
    {
        let ghost before = out.deep_view();
        out.push(more[i].clone());
        assert(out.deep_view() =~= before.push(more@[i as int]@));
        assert(more.deep_view().take(i + 1) =~= more.deep_view().take(i as int).push(
            more@[i as int]@,
        ));
        i += 1;
    }
    assert(more.deep_view().take(i as int) =~= more.deep_view());
}

fn run_program(path: String, argv: Vec<String>) -> (r: Next)
    ensures
        r.deep_view() == run(path@, argv.deep_view()),
{
    let ghost wanted = run(path@, argv.deep_view());
    let mut plan: Vec<Effect> = Vec::new();
    plan.push(Effect::Exec { path, argv, keep_env: true });
    assert(plan.deep_view() =~= wanted->Run_0);
    Next::Run(plan)
}

fn join_instance(host: &Host) -> (r: Result<Next, ShellError>)
    ensures
        step_view(r) == join_step(host.deep_view()),
{
    match associate_with_systemd(host) {
        Ok(plan) => Ok(Next::Join(plan)),
        Err(e) => Err(launch_failed(e)),
    }
}

fn shell_arguments(shell: &String, args: &Vec<String>) -> (argv: Vec<String>)
    ensures
        argv.deep_view() == shell_argv(shell@, args.deep_view()),
{
    let mut argv: Vec<String> = Vec::new();
    argv.push(shell.clone());
    assert(argv.deep_view() =~= seq![shell@]);
    push_all(&mut argv, args);
    argv
}

fn broker_arguments(
    envs: &Vec<String>,
    user: &String,
    entry_point: &String,
    args: &Vec<String>,
) -> (argv: Vec<String>)
    ensures
        argv.deep_view() == broker_argv(envs.deep_view(), user@, entry_point@, args.deep_view()),
{
    let mut argv: Vec<String> = Vec::new();
    argv.push(String::from_str("machinectl"));
    argv.push(String::from_str("shell"));
    let ghost head = seq!["machinectl"@, "shell"@];
    assert(argv.deep_view() =~= head + env_flags(envs.deep_view().take(0)));
    let mut i: usize = 0;
    while i < envs.len()
        invariant
            i <= envs@.len(),
            head == seq!["machinectl"@, "shell"@],
            argv.deep_view() == head + env_flags(envs.deep_view().take(i as int)),
        decreases envs@.len() - i,
    {
        let ghost before = argv.deep_view();
        let ghost next = envs.deep_view().take(i + 1);
        assert(next.drop_last() =~= envs.deep_view().take(i as int));
        assert(next.last() == envs@[i as int]@);
        argv.push(String::from_str("-E"));
        argv.push(envs[i].clone());
        assert(argv.deep_view() =~= before + seq!["-E"@, envs@[i as int]@]);
        assert(argv.deep_view() =~= head + env_flags(next));
        i += 1;
    }
    assert(envs.deep_view().take(i as int) =~= envs.deep_view());
    let ghost flagged = argv.deep_view();
    let mut target = user.clone();
    target.append("@.host");
    argv.push(target);
    assert(argv.deep_view() =~= flagged + seq![user@ + "@.host"@]);
    if args.len() > 0 {
        let ghost named = argv.deep_view();
        argv.push(entry_point.clone());
        assert(argv.deep_view() =~= named + seq![entry_point@]);
        push_all(&mut argv, args);
        assert(argv.deep_view() =~= named + relayed(entry_point@, args.deep_view()));
    } else {
        assert(argv.deep_view() =~= argv.deep_view() + relayed(entry_point@, args.deep_view()));
    }
    argv
}

/// The next step of the launch of a login shell. `bottled_shell_path` is the
/// launcher's own entry point for the shell, `shell` the name of the shell
/// and `args` what the caller passes on to it.
pub fn launch_login_shell(
    bottled_shell_path: &String,
    shell: &String,
    args: &Vec<String>,
    stage: &Stage,
) -> (r: Result<Next, ShellError>)
    ensures
        step_view(r) == launch(bottled_shell_path@, shell@, args.deep_view(), stage.deep_view()),
{
    match stage {
        Stage::Arrived(host) => {
            if is_associated_with_systemd(host) {
                let mut plan: Vec<Effect> = Vec::new();
                plan.push(Effect::ResetEffectiveGid);
                plan.push(Effect::ResetEffectiveUid);
                assert(plan.deep_view() =~= release_plan());
                Ok(Next::Release(plan))
            } else if let Ok(Some(_)) = get_systemd_pid(host) {
                join_instance(host)
            } else {
                Ok(Next::Start)
            }
        },
        Stage::Started(host) => join_instance(host),
        Stage::Released(Err(code)) => Err(ShellError::IOError(*code)),
        Stage::Released(Ok(catalog)) => match get_shell_path(catalog.as_slice(), shell) {
            Err(e) => Err(e),
            Ok(path) => Ok(run_program(path, shell_arguments(shell, args))),
        },
        Stage::Joined { host, user, vars } => match get_machinectl_bin(host) {
            Err(_) => Err(ShellError::Systemd(SystemdError::SystemdNotFound)),
            Ok(bin) => {
                let envs = get_preserved_env(vars);
                Ok(run_program(bin, broker_arguments(&envs, user, bottled_shell_path, args)))
            },
        },
    }
}

/// How an error of the instance shows in a launch: a failed read and a
/// failed system call as such, anything else as the instance's error.
pub open spec fn launch_failure(e: SystemdError) -> ShellErrorView {
    match e {
        SystemdError::IOError(code) => ShellErrorView::IOError(code),
        SystemdError::NixErrno(errno) => ShellErrorView::NixErrno(errno),
        _ => ShellErrorView::Systemd(e),
    }
}

/// The error with which a launch ends where a step of one of its plans has
/// failed with `e`.
pub fn launch_failed(e: SystemdError) -> (r: ShellError)
    ensures
        r.deep_view() == launch_failure(e),
{
    match e {
        SystemdError::IOError(code) => ShellError::IOError(code),
        SystemdError::NixErrno(errno) => ShellError::NixErrno(errno),
        _ => ShellError::Systemd(e),
    }
}

} // verus!
