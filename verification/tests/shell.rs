use bottled_shell::effect::{Effect, Namespace};
use bottled_shell::host::{FileRead, Host, Process};
use bottled_shell::shell::{
    get_shell_path, launch_failed, launch_login_shell, Next, ShellError, Stage, SHELLS,
};
use bottled_shell::systemd::SystemdError;

const CATALOG: &str = "# /etc/shells: valid login shells\n/bin/sh\n/bin/bash\n/usr/bin/bash\n/bin/rbash\n/usr/bin/zsh\n";

fn text(s: &str) -> String {
    s.to_string()
}

fn words(items: &[&str]) -> Vec<String> {
    items.iter().map(|s| s.to_string()).collect()
}

fn path_of(catalog: &str, shell: &str) -> Result<String, ShellError> {
    get_shell_path(catalog.as_bytes(), &shell.to_string())
}

fn outside(euid: u32) -> Host {
    Host {
        euid,
        present: vec![text("/usr/lib/systemd/systemd"), text("/usr/bin/machinectl")],
        processes: vec![
            Process { pid: 1, cmdline: b"/sbin/init\0".to_vec() },
            Process { pid: 4242, cmdline: b"/usr/lib/systemd/systemd\0".to_vec() },
        ],
        record: FileRead::Data(b"4242\n".to_vec()),
    }
}

fn absent(euid: u32) -> Host {
    Host { record: FileRead::Missing, ..outside(euid) }
}

fn within() -> Host {
    Host {
        euid: 0,
        present: vec![text("/usr/lib/systemd/systemd")],
        processes: vec![Process { pid: 1, cmdline: b"/usr/lib/systemd/systemd\0".to_vec() }],
        record: FileRead::Missing,
    }
}

fn launch(args: &[&str], stage: &Stage) -> Result<Next, ShellError> {
    launch_login_shell(&text("/usr/bin/bottled-bash"), &text("bash"), &words(args), stage)
}

fn joining(pid: i32) -> Vec<Effect> {
    vec![
        Effect::JoinNamespace { reference: format!("/proc/{}/ns/pid", pid), namespace: Namespace::Pid },
        Effect::JoinNamespace { reference: format!("/proc/{}/ns/mnt", pid), namespace: Namespace::Mount },
        Effect::Chdir(text("/")),
    ]
}

#[test]
fn the_catalog_is_the_systems_list_of_shells() {
    assert_eq!(SHELLS, "/etc/shells");
}

#[test]
fn the_first_line_that_names_the_shell_is_its_path() {
    assert_eq!(path_of(CATALOG, "bash"), Ok(text("/bin/bash")));
    assert_eq!(path_of(CATALOG, "sh"), Ok(text("/bin/sh")));
    assert_eq!(path_of(CATALOG, "zsh"), Ok(text("/usr/bin/zsh")));
    assert_eq!(path_of(CATALOG, "rbash"), Ok(text("/bin/rbash")));
    assert_eq!(path_of(CATALOG, "shells:"), Err(ShellError::ShellNotFound(text("shells:"))));
}

#[test]
fn a_line_is_taken_whole() {
    assert_eq!(path_of("# see /bin/bash\n/bin/bash\n", "bash"), Ok(text("# see /bin/bash")));
    assert_eq!(path_of("./bash\n", "bash"), Ok(text("./bash")));
}

#[test]
fn a_shell_that_the_catalog_does_not_name_is_not_found() {
    assert_eq!(path_of(CATALOG, "fish"), Err(ShellError::ShellNotFound(text("fish"))));
    assert_eq!(path_of(CATALOG, "ash"), Err(ShellError::ShellNotFound(text("ash"))));
    assert_eq!(path_of(CATALOG, "Bash"), Err(ShellError::ShellNotFound(text("Bash"))));
    assert_eq!(path_of("", "bash"), Err(ShellError::ShellNotFound(text("bash"))));
}

#[test]
fn the_last_component_must_be_the_whole_name() {
    assert_eq!(path_of(CATALOG, "bin/bash"), Err(ShellError::ShellNotFound(text("bin/bash"))));
    assert_eq!(path_of(CATALOG, "/bin/bash"), Err(ShellError::ShellNotFound(text("/bin/bash"))));
    assert_eq!(path_of("bash\n", "bash"), Err(ShellError::ShellNotFound(text("bash"))));
    assert_eq!(path_of("/bin/bash/\n", "bash"), Err(ShellError::ShellNotFound(text("bash"))));
    assert_eq!(path_of("/bin/\n", ""), Ok(text("/bin/")));
}

#[test]
fn white_space_around_a_line_is_left_out() {
    assert_eq!(path_of("  /bin/bash \t\r\n/usr/bin/bash\n", "bash"), Ok(text("/bin/bash")));
    assert_eq!(path_of("/bin/sh\r\n/bin/bash\r\n", "bash"), Ok(text("/bin/bash")));
    assert_eq!(path_of("/bin/sh\n/bin/bash", "bash"), Ok(text("/bin/bash")));
    assert_eq!(path_of("\n\n/opt/my shells/bash\n", "bash"), Ok(text("/opt/my shells/bash")));
    assert_eq!(path_of("/bin/ba sh\n", "bash"), Err(ShellError::ShellNotFound(text("bash"))));
}

#[test]
fn a_line_that_is_not_utf8_ends_the_search_when_it_is_reached() {
    let shell = text("bash");
    assert_eq!(get_shell_path(b"/bin/sh\n/bin/\xffsh\n/bin/bash\n", &shell), Err(ShellError::IOError(None)));
    assert_eq!(get_shell_path(b"\xff", &shell), Err(ShellError::IOError(None)));
    assert_eq!(get_shell_path(b"/bin/bash\n\xff\n", &shell), Ok(text("/bin/bash")));
    assert_eq!(get_shell_path(b"/bin/bash\n/bin/\xc3", &shell), Ok(text("/bin/bash")));
    assert_eq!(get_shell_path("/bin/sh\n /ünïcode/bash \n".as_bytes(), &shell), Ok(text("/ünïcode/bash")));
}

#[test]
fn a_catalog_that_is_not_utf8_fails_the_launch() {
    assert_eq!(
        launch(&[], &Stage::Released(Ok(b"/bin/\xfe\n/bin/bash\n".to_vec()))),
        Err(ShellError::IOError(None))
    );
}

#[test]
fn a_caller_inside_gives_up_its_privilege_first() {
    assert_eq!(
        launch(&[], &Stage::Arrived(within())),
        Ok(Next::Release(vec![Effect::ResetEffectiveGid, Effect::ResetEffectiveUid]))
    );
}

#[test]
fn a_caller_outside_joins_the_instance_that_runs() {
    assert_eq!(launch(&[], &Stage::Arrived(outside(0))), Ok(Next::Join(joining(4242))));
}

#[test]
fn a_caller_outside_has_the_instance_started_where_none_runs() {
    assert_eq!(launch(&[], &Stage::Arrived(absent(0))), Ok(Next::Start));
    assert_eq!(launch(&[], &Stage::Arrived(absent(1000))), Ok(Next::Start));
    let mut unreadable = outside(0);
    unreadable.record = FileRead::Failed(Some(5));
    assert_eq!(launch(&[], &Stage::Arrived(unreadable)), Ok(Next::Start));
}

#[test]
fn joining_is_refused_without_root() {
    assert_eq!(
        launch(&[], &Stage::Arrived(outside(1000))),
        Err(ShellError::Systemd(SystemdError::NoEnoughPermission))
    );
    assert_eq!(
        launch(&[], &Stage::Started(outside(1000))),
        Err(ShellError::Systemd(SystemdError::NoEnoughPermission))
    );
}

#[test]
fn after_the_start_the_instance_is_joined() {
    assert_eq!(launch(&[], &Stage::Started(outside(0))), Ok(Next::Join(joining(4242))));
}

#[test]
fn after_a_start_that_left_nothing_running_the_launch_fails() {
    assert_eq!(
        launch(&[], &Stage::Started(absent(0))),
        Err(ShellError::Systemd(SystemdError::SystemdNotRunning))
    );
    let mut unreadable = outside(0);
    unreadable.record = FileRead::Failed(Some(5));
    assert_eq!(launch(&[], &Stage::Started(unreadable)), Err(ShellError::IOError(Some(5))));
}

#[test]
fn inside_the_shell_of_the_catalog_is_run() {
    assert_eq!(
        launch(&["-l", "-c", "echo hi"], &Stage::Released(Ok(CATALOG.as_bytes().to_vec()))),
        Ok(Next::Run(vec![Effect::Exec {
            path: text("/bin/bash"),
            argv: words(&["bash", "-l", "-c", "echo hi"]),
            keep_env: true,
        }]))
    );
    assert_eq!(
        launch(&[], &Stage::Released(Ok(CATALOG.as_bytes().to_vec()))),
        Ok(Next::Run(vec![Effect::Exec {
            path: text("/bin/bash"),
            argv: words(&["bash"]),
            keep_env: true,
        }]))
    );
}

#[test]
fn inside_a_shell_that_is_not_in_the_catalog_is_not_found() {
    assert_eq!(
        launch(&[], &Stage::Released(Ok(b"/bin/sh\n".to_vec()))),
        Err(ShellError::ShellNotFound(text("bash")))
    );
}

#[test]
fn inside_a_catalog_that_cannot_be_read_is_an_error() {
    assert_eq!(launch(&[], &Stage::Released(Err(Some(2)))), Err(ShellError::IOError(Some(2))));
    assert_eq!(launch(&[], &Stage::Released(Err(None))), Err(ShellError::IOError(None)));
}

fn joined(vars: &[(&str, &str)]) -> Stage {
    Stage::Joined {
        host: outside(0),
        user: text("alice"),
        vars: vars.iter().map(|(k, v)| (k.to_string(), v.to_string())).collect(),
    }
}

#[test]
fn outside_the_broker_opens_the_session() {
    assert_eq!(
        launch(&[], &joined(&[("HOME", "/home/alice"), ("WSLENV", "a"), ("WT_SESSION", "b c")])),
        Ok(Next::Run(vec![Effect::Exec {
            path: text("/usr/bin/machinectl"),
            argv: words(&["machinectl", "shell", "-E", "WSLENV=a", "-E", "WT_SESSION=b c", "alice@.host"]),
            keep_env: true,
        }]))
    );
}

#[test]
fn what_is_passed_on_goes_through_the_entry_point() {
    assert_eq!(
        launch(&["-c", "true"], &joined(&[("WSL_NAME", "x")])),
        Ok(Next::Run(vec![Effect::Exec {
            path: text("/usr/bin/machinectl"),
            argv: words(&[
                "machinectl",
                "shell",
                "-E",
                "WSL_NAME=x",
                "alice@.host",
                "/usr/bin/bottled-bash",
                "-c",
                "true",
            ]),
            keep_env: true,
        }]))
    );
}

#[test]
fn without_environment_to_carry_the_broker_gets_no_flag() {
    assert_eq!(
        launch(&[], &joined(&[])),
        Ok(Next::Run(vec![Effect::Exec {
            path: text("/usr/bin/machinectl"),
            argv: words(&["machinectl", "shell", "alice@.host"]),
            keep_env: true,
        }]))
    );
}

#[test]
fn the_second_location_of_the_broker_is_used_where_the_first_is_empty() {
    let mut host = outside(0);
    host.present = vec![text("/bin/machinectl")];
    let stage = Stage::Joined { host, user: text("bob"), vars: Vec::new() };
    assert_eq!(
        launch(&[], &stage),
        Ok(Next::Run(vec![Effect::Exec {
            path: text("/bin/machinectl"),
            argv: words(&["machinectl", "shell", "bob@.host"]),
            keep_env: true,
        }]))
    );
}

#[test]
fn without_a_broker_the_launch_fails() {
    let mut host = outside(0);
    host.present = vec![text("/usr/lib/systemd/systemd")];
    let stage = Stage::Joined { host, user: text("alice"), vars: Vec::new() };
    assert_eq!(launch(&[], &stage), Err(ShellError::Systemd(SystemdError::SystemdNotFound)));
}

#[test]
fn a_failed_step_of_a_launch_is_reported_by_its_kind() {
    assert_eq!(launch_failed(SystemdError::NixErrno(2)), ShellError::NixErrno(2));
    assert_eq!(launch_failed(SystemdError::IOError(Some(13))), ShellError::IOError(Some(13)));
    assert_eq!(
        launch_failed(SystemdError::SystemdNotRunning),
        ShellError::Systemd(SystemdError::SystemdNotRunning)
    );
}
