use bottled_shell::effect::{Effect, Namespace, PipeEnd};
use bottled_shell::host::{FileRead, Host, Process};

fn host() -> Host {
    Host {
        euid: 0,
        present: vec!["/bin/a".to_string(), "/bin/b".to_string()],
        processes: vec![
            Process { pid: 1, cmdline: b"init\0".to_vec() },
            Process { pid: 7, cmdline: b"first\0".to_vec() },
            Process { pid: 7, cmdline: b"second\0".to_vec() },
        ],
        record: FileRead::Missing,
    }
}

#[test]
fn a_path_is_present_when_it_is_listed() {
    let host = host();
    assert!(host.has_path(&"/bin/a".to_string()));
    assert!(host.has_path(&"/bin/b".to_string()));
    assert!(!host.has_path(&"/bin/c".to_string()));
    assert!(!host.has_path(&"/bin/".to_string()));
    assert!(!host.has_path(&"".to_string()));
}

#[test]
fn a_command_line_is_that_of_the_first_listing() {
    let host = host();
    assert_eq!(host.cmdline_of(1), Some(&b"init\0".to_vec()));
    assert_eq!(host.cmdline_of(7), Some(&b"first\0".to_vec()));
    assert_eq!(host.cmdline_of(8), None);
    assert_eq!(host.cmdline_of(-1), None);
}

#[test]
fn steps_on_files_are_told_from_the_others() {
    assert!(Effect::CreateDirAll("/run/x".to_string()).changes_files());
    assert!(Effect::WriteFile { path: "/run/x/y".to_string(), content: String::new() }.changes_files());
    assert!(Effect::RemoveIfPresent("/run/x/y".to_string()).changes_files());
    assert!(!Effect::ClosePipe(PipeEnd::Read).changes_files());
    assert!(!Effect::Chdir("/".to_string()).changes_files());
    assert!(!Effect::Exit(0).changes_files());
    assert!(!Effect::Sleep { seconds: 1 }.changes_files());
    assert!(!Effect::JoinNamespace { reference: "/proc/1/ns/pid".to_string(), namespace: Namespace::Pid }
        .changes_files());
}
