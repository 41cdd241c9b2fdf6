use bottled_shell::decimal::IntErrorKind;
use bottled_shell::effect::{Effect, MountFlag, Namespace, PipeEnd};
use bottled_shell::host::{FileRead, Host, Process};
use bottled_shell::systemd::{
    associate_with_systemd, await_readiness, check_permission, check_systemd_proc, cmdline_file,
    effect_failed, exec_systemd, get_machinectl_bin, get_systemd_bin, get_systemd_pid,
    after_fork, inspected_pids, is_associated_with_systemd, kill_systemd, middle_steps,
    namespace_reference, parse_record, probed_paths, put_systemd_pid, realtime_signal, role_steps,
    start_systemd, stop_systemd, then, updated_systemd_envs, Forked, Generation, Readiness, Role,
    Seen, Start, SystemdError, Then, HANDSHAKE_NANOS, PID_FILE, RUN_DIR,
};

const SYSTEMD: &str = "/usr/lib/systemd/systemd";

fn process(pid: i32, cmdline: &[u8]) -> Process {
    Process { pid, cmdline: cmdline.to_vec() }
}

fn bare(euid: u32) -> Host {
    Host {
        euid,
        present: vec![SYSTEMD.to_string()],
        processes: vec![process(1, b"/sbin/init\0")],
        record: FileRead::Missing,
    }
}

fn live(euid: u32) -> Host {
    Host {
        euid,
        present: vec![SYSTEMD.to_string(), "/usr/bin/machinectl".to_string()],
        processes: vec![
            process(1, b"/sbin/init\0"),
            process(4242, b"/usr/lib/systemd/systemd\0--system\0"),
        ],
        record: FileRead::Data(b"4242\n".to_vec()),
    }
}

fn stale(euid: u32) -> Host {
    Host {
        processes: vec![process(1, b"/sbin/init\0"), process(4242, b"/usr/bin/vim\0notes\0")],
        ..live(euid)
    }
}

fn within(euid: u32) -> Host {
    Host {
        euid,
        present: vec![SYSTEMD.to_string()],
        processes: vec![process(1, b"/usr/lib/systemd/systemd\0")],
        record: FileRead::Missing,
    }
}

fn vars() -> Vec<(String, String)> {
    vec![
        ("HOME".to_string(), "/root".to_string()),
        ("WSLENV".to_string(), "a".to_string()),
        ("FOO_WSL".to_string(), "b".to_string()),
    ]
}

fn record(text: &[u8]) -> Result<i32, SystemdError> {
    parse_record(&text.to_vec())
}

#[test]
fn the_first_location_that_exists_is_the_service_manager() {
    let mut host = bare(0);
    host.present = vec!["/usr/lib/systemd/systemd".to_string(), "/lib/systemd/systemd".to_string()];
    assert_eq!(get_systemd_bin(&host), Ok("/lib/systemd/systemd".to_string()));
    host.present = vec!["/usr/lib/systemd/systemd".to_string()];
    assert_eq!(get_systemd_bin(&host), Ok("/usr/lib/systemd/systemd".to_string()));
    host.present = vec!["/opt/systemd".to_string()];
    assert_eq!(get_systemd_bin(&host), Err(SystemdError::SystemdNotFound));
}

#[test]
fn the_first_location_that_exists_is_the_broker() {
    let mut host = bare(0);
    assert_eq!(get_machinectl_bin(&host), Err(SystemdError::SystemdNotFound));
    host.present = vec!["/bin/machinectl".to_string()];
    assert_eq!(get_machinectl_bin(&host), Ok("/bin/machinectl".to_string()));
    host.present = vec!["/bin/machinectl".to_string(), "/usr/bin/machinectl".to_string()];
    assert_eq!(get_machinectl_bin(&host), Ok("/usr/bin/machinectl".to_string()));
}

#[test]
fn a_process_is_the_service_manager_by_its_first_argument() {
    let mut host = live(0);
    assert!(check_systemd_proc(&host, 4242));
    assert!(!check_systemd_proc(&host, 1));
    assert!(!check_systemd_proc(&host, 7));
    host.processes = vec![
        process(2, b"/usr/lib/systemd/systemd"),
        process(3, b"/usr/lib/systemd/systemd-journald\0"),
        process(4, b"/usr/lib/systemd/system\0"),
        process(5, b""),
        process(6, b"\0/usr/lib/systemd/systemd\0"),
        process(7, b"sh\0/usr/lib/systemd/systemd\0"),
        process(8, b"/usr/lib/systemd/systemd\0\xff\xfe\0"),
    ];
    assert!(check_systemd_proc(&host, 2));
    assert!(!check_systemd_proc(&host, 3));
    assert!(!check_systemd_proc(&host, 4));
    assert!(!check_systemd_proc(&host, 5));
    assert!(!check_systemd_proc(&host, 6));
    assert!(!check_systemd_proc(&host, 7));
    assert!(check_systemd_proc(&host, 8));
}

#[test]
fn no_process_is_the_service_manager_where_none_is_installed() {
    let mut host = live(0);
    host.present = Vec::new();
    assert!(!check_systemd_proc(&host, 4242));
}

#[test]
fn the_installed_program_is_the_one_compared() {
    let mut host = live(0);
    host.present = vec!["/lib/systemd/systemd".to_string(), SYSTEMD.to_string()];
    assert!(!check_systemd_proc(&host, 4242));
    host.processes = vec![process(4242, b"/lib/systemd/systemd\0")];
    assert!(check_systemd_proc(&host, 4242));
}

#[test]
fn the_first_listing_of_a_process_counts() {
    let mut host = live(0);
    host.processes = vec![process(9, b"/bin/sh\0"), process(9, b"/usr/lib/systemd/systemd\0")];
    assert!(!check_systemd_proc(&host, 9));
}

#[test]
fn inside_means_that_process_one_is_the_service_manager() {
    assert!(is_associated_with_systemd(&within(1000)));
    assert!(!is_associated_with_systemd(&live(0)));
    assert!(!is_associated_with_systemd(&bare(0)));
}

#[test]
fn a_record_holds_a_number() {
    assert_eq!(record(b"4242\n"), Ok(4242));
    assert_eq!(record(b"4242"), Ok(4242));
    assert_eq!(record(b"  17\t\r\n"), Ok(17));
    assert_eq!(record(b"+5\n"), Ok(5));
    assert_eq!(record(b"-3\n"), Ok(-3));
    assert_eq!(record("\u{a0}42\u{3000}".as_bytes()), Ok(42));
    assert_eq!(record(b"2147483647\n"), Ok(i32::MAX));
    assert_eq!(record(b"-2147483648\n"), Ok(i32::MIN));
}

#[test]
fn a_record_without_a_number_is_a_parse_error() {
    assert_eq!(record(b""), Err(SystemdError::ParseIntError(IntErrorKind::Empty)));
    assert_eq!(record(b"\n"), Err(SystemdError::ParseIntError(IntErrorKind::Empty)));
    assert_eq!(record(b"12a\n"), Err(SystemdError::ParseIntError(IntErrorKind::InvalidDigit)));
    assert_eq!(record(b"1 2\n"), Err(SystemdError::ParseIntError(IntErrorKind::InvalidDigit)));
    assert_eq!(record(b"-\n"), Err(SystemdError::ParseIntError(IntErrorKind::InvalidDigit)));
    assert_eq!(record(b"4242\0"), Err(SystemdError::ParseIntError(IntErrorKind::InvalidDigit)));
    assert_eq!(record(b"2147483648\n"), Err(SystemdError::ParseIntError(IntErrorKind::PosOverflow)));
    assert_eq!(record(b"-2147483649\n"), Err(SystemdError::ParseIntError(IntErrorKind::NegOverflow)));
}

#[test]
fn a_record_that_is_not_utf8_says_where_it_stops_being_so() {
    assert_eq!(record(b"\xff"), Err(SystemdError::FromUTF8Error(0)));
    assert_eq!(record(b"42\xff\n"), Err(SystemdError::FromUTF8Error(2)));
    assert_eq!(record(b"42\xc3"), Err(SystemdError::FromUTF8Error(2)));
    assert_eq!(record(b"4\xc3\xa9\xe2\x82"), Err(SystemdError::FromUTF8Error(3)));
    assert_eq!(record(b"12\xed\xa0\x80"), Err(SystemdError::FromUTF8Error(2)));
}

#[test]
fn without_a_record_nothing_runs() {
    assert_eq!(get_systemd_pid(&bare(0)), Ok(None));
}

#[test]
fn a_record_of_the_service_manager_names_the_instance() {
    assert_eq!(get_systemd_pid(&live(1000)), Ok(Some(4242)));
}

#[test]
fn a_stale_record_names_nothing() {
    assert_eq!(get_systemd_pid(&stale(0)), Ok(None));
    let mut gone = live(0);
    gone.processes = Vec::new();
    assert_eq!(get_systemd_pid(&gone), Ok(None));
}

#[test]
fn a_record_that_cannot_be_read_is_an_error() {
    let mut host = live(0);
    host.record = FileRead::Failed(Some(13));
    assert_eq!(get_systemd_pid(&host), Err(SystemdError::IOError(Some(13))));
    host.record = FileRead::Failed(None);
    assert_eq!(get_systemd_pid(&host), Err(SystemdError::IOError(None)));
    host.record = FileRead::Data(b"soon\n".to_vec());
    assert_eq!(get_systemd_pid(&host), Err(SystemdError::ParseIntError(IntErrorKind::InvalidDigit)));
    host.record = FileRead::Data(b"\xfe".to_vec());
    assert_eq!(get_systemd_pid(&host), Err(SystemdError::FromUTF8Error(0)));
}

#[test]
fn only_root_is_permitted() {
    assert_eq!(check_permission(&bare(0)), Ok(true));
    assert_eq!(check_permission(&bare(1)), Err(SystemdError::NoEnoughPermission));
    assert_eq!(check_permission(&bare(1000)), Err(SystemdError::NoEnoughPermission));
    assert_eq!(check_permission(&bare(u32::MAX)), Err(SystemdError::NoEnoughPermission));
}

#[test]
fn killing_signals_and_removes_the_record() {
    assert_eq!(
        kill_systemd(&live(0), 4242),
        Ok(vec![
            Effect::Signal { pid: 4242, realtime: 4 },
            Effect::RemoveIfPresent("/run/bottled-shell/systemd.pid".to_string()),
        ])
    );
    assert_eq!(kill_systemd(&live(1000), 4242), Err(SystemdError::NoEnoughPermission));
}

#[test]
fn stopping_where_nothing_runs_does_nothing() {
    assert_eq!(stop_systemd(&bare(0)), Ok(Vec::new()));
    assert_eq!(stop_systemd(&bare(1000)), Ok(Vec::new()));
}

#[test]
fn stopping_with_a_stale_record_does_nothing() {
    assert_eq!(stop_systemd(&stale(0)), Ok(Vec::new()));
    assert_eq!(stop_systemd(&stale(1000)), Ok(Vec::new()));
}

#[test]
fn stopping_from_outside_stops_the_recorded_process() {
    assert_eq!(
        stop_systemd(&live(0)),
        Ok(vec![
            Effect::Signal { pid: 4242, realtime: 4 },
            Effect::RemoveIfPresent(PID_FILE.to_string()),
        ])
    );
    assert_eq!(stop_systemd(&live(1000)), Err(SystemdError::NoEnoughPermission));
}

#[test]
fn stopping_from_inside_stops_process_one() {
    assert_eq!(
        stop_systemd(&within(0)),
        Ok(vec![
            Effect::Signal { pid: 1, realtime: 4 },
            Effect::RemoveIfPresent(PID_FILE.to_string()),
        ])
    );
    assert_eq!(stop_systemd(&within(1000)), Err(SystemdError::NoEnoughPermission));
}

#[test]
fn stopping_passes_on_an_unreadable_record() {
    let mut host = live(0);
    host.record = FileRead::Failed(Some(5));
    assert_eq!(stop_systemd(&host), Err(SystemdError::IOError(Some(5))));
    host.record = FileRead::Data(b"x".to_vec());
    assert_eq!(stop_systemd(&host), Err(SystemdError::ParseIntError(IntErrorKind::InvalidDigit)));
}

#[test]
fn joining_needs_root() {
    assert_eq!(associate_with_systemd(&live(1000)), Err(SystemdError::NoEnoughPermission));
    assert_eq!(associate_with_systemd(&bare(1000)), Err(SystemdError::NoEnoughPermission));
}

#[test]
fn joining_needs_an_instance() {
    assert_eq!(associate_with_systemd(&bare(0)), Err(SystemdError::SystemdNotRunning));
    assert_eq!(associate_with_systemd(&stale(0)), Err(SystemdError::SystemdNotRunning));
}

#[test]
fn joining_passes_on_an_unreadable_record() {
    let mut host = live(0);
    host.record = FileRead::Failed(Some(5));
    assert_eq!(associate_with_systemd(&host), Err(SystemdError::IOError(Some(5))));
}

#[test]
fn joining_enters_the_pid_namespace_then_the_mount_namespace() {
    assert_eq!(
        associate_with_systemd(&live(0)),
        Ok(vec![
            Effect::JoinNamespace {
                reference: "/proc/4242/ns/pid".to_string(),
                namespace: Namespace::Pid,
            },
            Effect::JoinNamespace {
                reference: "/proc/4242/ns/mnt".to_string(),
                namespace: Namespace::Mount,
            },
            Effect::Chdir("/".to_string()),
        ])
    );
}

#[test]
fn paths_under_proc_are_formed_with_the_process_id() {
    assert_eq!(namespace_reference(1, "pid"), "/proc/1/ns/pid");
    assert_eq!(namespace_reference(i32::MAX, "mnt"), "/proc/2147483647/ns/mnt");
    assert_eq!(cmdline_file(1), "/proc/1/cmdline");
    assert_eq!(cmdline_file(4242), "/proc/4242/cmdline");
}

#[test]
fn the_environment_is_written_for_both_scopes() {
    let content = "[Manager]\nDefaultEnvironment=WSLENV=a FOO_WSL=b\n".to_string();
    assert_eq!(
        updated_systemd_envs(&vars()),
        vec![
            Effect::CreateDirAll("/run/systemd/system.conf.d".to_string()),
            Effect::WriteFile {
                path: "/run/systemd/system.conf.d/10-bottled-shell-env.conf".to_string(),
                content: content.clone(),
            },
            Effect::CreateDirAll("/run/systemd/user.conf.d".to_string()),
            Effect::WriteFile {
                path: "/run/systemd/user.conf.d/10-bottled-shell-env.conf".to_string(),
                content,
            },
        ]
    );
}

#[test]
fn an_environment_with_nothing_to_carry_is_written_empty() {
    let plan = updated_systemd_envs(&vec![("HOME".to_string(), "/root".to_string())]);
    assert_eq!(
        plan[1],
        Effect::WriteFile {
            path: "/run/systemd/system.conf.d/10-bottled-shell-env.conf".to_string(),
            content: "[Manager]\nDefaultEnvironment=\n".to_string(),
        }
    );
}

#[test]
fn the_record_is_written_as_number_and_line_end() {
    assert_eq!(
        put_systemd_pid(4242),
        vec![
            Effect::CreateDirAll(RUN_DIR.to_string()),
            Effect::WriteFile { path: PID_FILE.to_string(), content: "4242\n".to_string() },
        ]
    );
}

#[test]
fn the_middle_process_records_its_child_and_ends() {
    assert_eq!(
        middle_steps(77),
        vec![
            Effect::ClosePipe(PipeEnd::Write),
            Effect::CreateDirAll("/run/bottled-shell".to_string()),
            Effect::WriteFile {
                path: "/run/bottled-shell/systemd.pid".to_string(),
                content: "77\n".to_string(),
            },
            Effect::Exit(0),
        ]
    );
}

fn null(fd: i32, writable: bool) -> Effect {
    Effect::Redirect { fd, path: "/dev/null".to_string(), writable }
}

fn becoming(bin: &str) -> Vec<Effect> {
    vec![
        Effect::Mount {
            source: "none".to_string(),
            target: "/".to_string(),
            fstype: None,
            flags: vec![MountFlag::Recursive, MountFlag::Shared],
        },
        Effect::Mount {
            source: "none".to_string(),
            target: "/proc".to_string(),
            fstype: None,
            flags: vec![MountFlag::Recursive, MountFlag::Private],
        },
        Effect::Mount {
            source: "proc".to_string(),
            target: "/proc".to_string(),
            fstype: Some("proc".to_string()),
            flags: vec![MountFlag::NoSuid, MountFlag::NoDev, MountFlag::NoExec],
        },
        Effect::Chdir("/".to_string()),
        null(0, false),
        null(1, true),
        null(2, true),
        Effect::Exec { path: bin.to_string(), argv: vec![bin.to_string()], keep_env: false },
    ]
}

#[test]
fn the_innermost_process_becomes_the_service_manager() {
    assert_eq!(exec_systemd(&SYSTEMD.to_string()), becoming(SYSTEMD));
}

#[test]
fn a_start_where_an_instance_runs_does_nothing() {
    assert_eq!(start_systemd(&live(0)), Ok(Start::AlreadyRunning));
    assert_eq!(start_systemd(&live(1000)), Ok(Start::AlreadyRunning));
    assert_eq!(start_systemd(&within(1000)), Ok(Start::AlreadyRunning));
}

#[test]
fn a_start_needs_root() {
    assert_eq!(start_systemd(&bare(1000)), Err(SystemdError::NoEnoughPermission));
    assert_eq!(start_systemd(&stale(1000)), Err(SystemdError::NoEnoughPermission));
}

#[test]
fn a_start_needs_the_service_manager_installed() {
    let mut host = bare(0);
    host.present = Vec::new();
    assert_eq!(start_systemd(&host), Err(SystemdError::SystemdNotFound));
}

#[test]
fn the_permission_is_asked_for_before_the_program() {
    let mut host = bare(1000);
    host.present = Vec::new();
    assert_eq!(start_systemd(&host), Err(SystemdError::NoEnoughPermission));
}

#[test]
fn a_start_launches_the_program_that_is_installed() {
    assert_eq!(start_systemd(&bare(0)), Ok(Start::Launch { systemd_bin: SYSTEMD.to_string() }));
    let mut host = bare(0);
    host.present = vec!["/lib/systemd/systemd".to_string()];
    assert_eq!(
        start_systemd(&host),
        Ok(Start::Launch { systemd_bin: "/lib/systemd/systemd".to_string() })
    );
}

#[test]
fn a_start_goes_on_past_a_record_that_cannot_be_read() {
    let mut host = bare(0);
    host.record = FileRead::Failed(Some(5));
    assert!(matches!(start_systemd(&host), Ok(Start::Launch { .. })));
    host.record = FileRead::Data(b"garbage".to_vec());
    assert!(matches!(start_systemd(&host), Ok(Start::Launch { .. })));
    assert!(matches!(start_systemd(&stale(0)), Ok(Start::Launch { .. })));
}

fn steps(role: Role) -> Vec<Effect> {
    role_steps(role, &SYSTEMD.to_string(), &vars())
}

#[test]
fn the_starter_hands_the_environment_over_and_makes_the_pipe() {
    let mut plan = updated_systemd_envs(&vars());
    plan.push(Effect::OpenPipe);
    assert_eq!(steps(Role::Starter), plan);
    assert_eq!(then(Role::Starter), Then::Fork(Generation::First));
}

#[test]
fn the_outer_process_gives_up_its_writing_end_and_waits() {
    assert_eq!(steps(Role::Outer), vec![Effect::ClosePipe(PipeEnd::Write)]);
    assert_eq!(then(Role::Outer), Then::Await);
}

#[test]
fn the_inner_process_makes_the_namespaces_and_forks() {
    assert_eq!(
        steps(Role::Inner),
        vec![
            Effect::ClosePipe(PipeEnd::Read),
            Effect::SetGid(0),
            Effect::SetUid(0),
            Effect::Unshare { mounts: true, pids: true },
            Effect::NewSession,
        ]
    );
    assert_eq!(then(Role::Inner), Then::Fork(Generation::Second));
}

#[test]
fn the_middle_process_has_the_plan_for_its_child() {
    assert_eq!(steps(Role::Middle { child: 77 }), middle_steps(77));
    assert_eq!(then(Role::Middle { child: 77 }), Then::End);
}

#[test]
fn the_innermost_process_has_the_plan_of_the_service_manager() {
    assert_eq!(steps(Role::Innermost), becoming(SYSTEMD));
    assert_eq!(then(Role::Innermost), Then::End);
}

#[test]
fn a_fork_gives_each_process_its_role() {
    assert_eq!(after_fork(Generation::First, Forked::Parent { child: 50 }), Ok(Role::Outer));
    assert_eq!(after_fork(Generation::First, Forked::Child), Ok(Role::Inner));
    assert_eq!(
        after_fork(Generation::Second, Forked::Parent { child: 51 }),
        Ok(Role::Middle { child: 51 })
    );
    assert_eq!(after_fork(Generation::Second, Forked::Child), Ok(Role::Innermost));
}

#[test]
fn a_fork_that_failed_is_an_error() {
    assert_eq!(after_fork(Generation::First, Forked::Failed(11)), Err(SystemdError::NixErrno(11)));
    assert_eq!(after_fork(Generation::Second, Forked::Failed(12)), Err(SystemdError::NixErrno(12)));
}

#[test]
fn a_realtime_signal_is_counted_from_the_lowest() {
    assert_eq!(realtime_signal(34, 0), Some(34));
    assert_eq!(realtime_signal(34, 4), Some(38));
    assert_eq!(realtime_signal(i32::MAX - 4, 4), Some(i32::MAX));
    assert_eq!(realtime_signal(i32::MAX - 3, 4), None);
    assert_eq!(realtime_signal(i32::MIN, -1), None);
}

#[test]
fn the_starter_polls_for_what_is_left_of_ten_seconds() {
    assert_eq!(HANDSHAKE_NANOS, 10_000_000_000);
    assert_eq!(await_readiness(0, &Seen::Nothing), Readiness::Poll { timeout_ms: 10_000 });
    assert_eq!(await_readiness(1, &Seen::Nothing), Readiness::Poll { timeout_ms: 9_999 });
    assert_eq!(await_readiness(3_000_000_500, &Seen::Nothing), Readiness::Poll { timeout_ms: 6_999 });
    assert_eq!(await_readiness(9_999_000_000, &Seen::Nothing), Readiness::Poll { timeout_ms: 1 });
    assert_eq!(await_readiness(9_999_999_999, &Seen::Nothing), Readiness::Poll { timeout_ms: 0 });
}

#[test]
fn the_starter_gives_up_after_ten_seconds() {
    let failed = Readiness::Failed(SystemdError::SystemdNotRunning);
    assert_eq!(await_readiness(10_000_000_000, &Seen::Nothing), failed);
    assert_eq!(await_readiness(10_000_000_001, &Seen::Nothing), failed);
    assert_eq!(await_readiness(u128::MAX, &Seen::Nothing), failed);
    assert_eq!(await_readiness(10_000_000_000, &Seen::Polled { ready: 0, revents: Some(0) }), failed);
    assert_eq!(await_readiness(10_000_000_000, &Seen::Polled { ready: 1, revents: Some(1) }), failed);
}

#[test]
fn a_poll_without_hang_up_is_followed_by_another() {
    let again = Readiness::Poll { timeout_ms: 8_000 };
    let at = 2_000_000_000;
    assert_eq!(await_readiness(at, &Seen::Polled { ready: 0, revents: Some(0) }), again);
    assert_eq!(await_readiness(at, &Seen::Polled { ready: 1, revents: Some(0x01) }), again);
    assert_eq!(await_readiness(at, &Seen::Polled { ready: 1, revents: Some(0x08) }), again);
    assert_eq!(await_readiness(at, &Seen::Polled { ready: 1, revents: None }), again);
    assert_eq!(await_readiness(at, &Seen::Polled { ready: 0, revents: Some(0x10) }), again);
    assert_eq!(await_readiness(at, &Seen::Polled { ready: -1, revents: Some(0x10) }), again);
}

#[test]
fn a_hang_up_has_the_host_looked_at() {
    let at = 2_000_000_000;
    assert_eq!(await_readiness(at, &Seen::Polled { ready: 1, revents: Some(0x10) }), Readiness::Inspect);
    assert_eq!(await_readiness(at, &Seen::Polled { ready: 1, revents: Some(0x11) }), Readiness::Inspect);
    assert_eq!(await_readiness(at, &Seen::Polled { ready: 3, revents: Some(0x18) }), Readiness::Inspect);
    assert_eq!(
        await_readiness(u128::MAX, &Seen::Polled { ready: 1, revents: Some(0x10) }),
        Readiness::Inspect
    );
}

#[test]
fn a_failed_poll_ends_the_start() {
    assert_eq!(
        await_readiness(0, &Seen::PollFailed(4)),
        Readiness::Failed(SystemdError::NixErrno(4))
    );
}

#[test]
fn the_service_manager_is_greeted_once_it_runs() {
    assert_eq!(
        await_readiness(5_000_000_000, &Seen::Host(live(0))),
        Readiness::Ready(vec![
            Effect::Signal { pid: 4242, realtime: 0 },
            Effect::Sleep { seconds: 1 },
        ])
    );
    assert_eq!(
        await_readiness(u128::MAX, &Seen::Host(live(0))),
        Readiness::Ready(vec![
            Effect::Signal { pid: 4242, realtime: 0 },
            Effect::Sleep { seconds: 1 },
        ])
    );
}

#[test]
fn a_closed_pipe_without_instance_fails_the_start() {
    let failed = Readiness::Failed(SystemdError::SystemdNotRunning);
    assert_eq!(await_readiness(0, &Seen::Host(bare(0))), failed);
    assert_eq!(await_readiness(0, &Seen::Host(stale(0))), failed);
    let mut unreadable = live(0);
    unreadable.record = FileRead::Failed(Some(5));
    assert_eq!(await_readiness(0, &Seen::Host(unreadable)), failed);
}

#[test]
fn a_failed_step_is_reported_by_its_kind() {
    let write = Effect::WriteFile { path: "a".to_string(), content: "b".to_string() };
    assert_eq!(effect_failed(&write, Some(28)), SystemdError::IOError(Some(28)));
    assert_eq!(effect_failed(&write, None), SystemdError::IOError(None));
    let dir = Effect::CreateDirAll("a".to_string());
    assert_eq!(effect_failed(&dir, Some(13)), SystemdError::IOError(Some(13)));
    let remove = Effect::RemoveIfPresent("a".to_string());
    assert_eq!(effect_failed(&remove, Some(1)), SystemdError::IOError(Some(1)));
    assert_eq!(effect_failed(&Effect::NewSession, Some(1)), SystemdError::NixErrno(1));
    assert_eq!(effect_failed(&Effect::NewSession, None), SystemdError::NixErrno(0));
    let signal = Effect::Signal { pid: 1, realtime: 4 };
    assert_eq!(effect_failed(&signal, Some(3)), SystemdError::NixErrno(3));
}

#[test]
fn a_host_is_asked_about_the_standard_locations() {
    assert_eq!(
        probed_paths(),
        vec![
            "/lib/systemd/systemd",
            "/usr/lib/systemd/systemd",
            "/usr/bin/machinectl",
            "/bin/machinectl",
        ]
    );
}

#[test]
fn a_host_is_asked_for_process_one_and_the_recorded_process() {
    assert_eq!(inspected_pids(&FileRead::Missing), vec![1]);
    assert_eq!(inspected_pids(&FileRead::Failed(Some(5))), vec![1]);
    assert_eq!(inspected_pids(&FileRead::Data(b"junk".to_vec())), vec![1]);
    assert_eq!(inspected_pids(&FileRead::Data(b"4242\n".to_vec())), vec![1, 4242]);
}
