//! What the command line needs decided: the names of the launcher's
//! programs, the shell that a name asks for, and the answers in exit codes.
use crate::host::Host;
use crate::systemd::{get_systemd_pid, is_associated_with_systemd, running};
use crate::text::chars_of;
use vstd::prelude::*;
use vstd::string::*;

verus! {

/// The shell that is launched where none is asked for.
pub const DEFAULT_SHELL: &'static str = "bash";

/// The index of the last `sep` in `s`, or -1 where there is none.
pub open spec fn last_index(s: Seq<char>, sep: char) -> int
    decreases s.len(),
{
    if s.len() == 0 {
        -1
    } else if s.last() == sep {
        s.len() - 1
    } else {
        last_index(s.drop_last(), sep)
    }
}

/// The name of the launcher's command, from the name of its package: what
/// stands before the last hyphen, or the whole name where it has none.
pub open spec fn command_of(package: Seq<char>) -> Seq<char> {
    if last_index(package, '-') < 0 {
        package
    } else {
        package.take(last_index(package, '-'))
    }
}

/// The shell that a program asks for by its name: what stands behind the
/// last hyphen, or the default shell where the name has none.
pub open spec fn shell_of(program: Seq<char>) -> Seq<char> {
    if last_index(program, '-') < 0 {
        DEFAULT_SHELL@
    } else {
        program.skip(last_index(program, '-') + 1)
    }
}

/// The name of the launcher's entry point for a shell: the command, a
/// hyphen and the shell; or the package's name where it has no hyphen.
pub open spec fn entry_point_of(package: Seq<char>, shell: Seq<char>) -> Seq<char> {
    if last_index(package, '-') < 0 {
        package
    } else {
        command_of(package) + "-"@ + shell
    }
}

/// The arguments with which an entry point for a shell calls the command:
/// the command, the request for a shell, the shell by name, and behind `--`
/// what was given to pass on.
pub open spec fn relay_argv(
    command: Seq<char>,
    shell: Seq<char>,
    options: Option<Seq<Seq<char>>>,
) -> Seq<Seq<char>> {
    seq![command, "shell"@, "-s"@, shell] + match options {
        None => Seq::empty(),
        Some(given) => seq!["--"@] + given,
    }
}

/// The exit code that says yes or no: 0 for yes, 1 for no.
pub open spec fn exit_code(yes: bool) -> i32 {
    if yes {
        0
    } else {
        1
    }
}

fn last_hyphen(s: &Vec<char>) -> (r: Option<usize>)
    ensures
        match r {
            Some(i) => last_index(s@, '-') == i && i < s@.len(),
            None => last_index(s@, '-') < 0,
        },
{
    let mut i: usize = s.len();
    assert(s@.take(i as int) =~= s@);
    while i > 0
        invariant
            i <= s@.len(),
            last_index(s@, '-') == last_index(s@.take(i as int), '-'),
        decreases i,
    {
        let ghost front = s@.take(i as int);
        assert(front.last() == s@[i - 1]);
        assert(front.drop_last() =~= s@.take(i - 1));
        if s[i - 1] == '-' {
            return Some(i - 1);
        }
        i -= 1;
    }
    None
}

/// The name of the launcher's command, from the name of its package.
pub fn command_name(package: &str) -> (r: String)
    ensures
        r@ == command_of(package@),
{
    let chars = chars_of(package);
    match last_hyphen(&chars) {
        None => package.to_owned(),
        Some(i) => {
            assert(package@.take(i as int) =~= package@.subrange(0, i as int));
            package.substring_char(0, i).to_owned()
        },
    }
}

/// The shell that a program asks for by its name.
pub fn default_shell(program: &str) -> (r: String)
    ensures
        r@ == shell_of(program@),
{
    let chars = chars_of(program);
    match last_hyphen(&chars) {
        None => String::from_str(DEFAULT_SHELL),
        Some(i) => {
            assert(i < chars.len());
            assert(program@.skip(i + 1) =~= program@.subrange(i + 1, program@.len() as int));
            program.substring_char(i + 1, chars.len()).to_owned()
        },
    }
}

/// The name of the launcher's entry point for a shell.
pub fn entry_point_name(package: &str, shell: &str) -> (r: String)
    ensures
        r@ == entry_point_of(package@, shell@),
{
    let chars = chars_of(package);
    match last_hyphen(&chars) {
        None => package.to_owned(),
        Some(_) => {
            let mut name = command_name(package);
            name.append("-");
            name.append(shell);
            name
        },
    }
}

/// The arguments with which an entry point for a shell calls the command.
pub fn relay_arguments(command: &String, shell: &String, options: &Option<Vec<String>>) -> (argv:
    Vec<String>)
    ensures
        argv.deep_view() == relay_argv(command@, shell@, options.deep_view()),
{
    let mut argv: Vec<String> = Vec::new();
    argv.push(command.clone());
    argv.push(String::from_str("shell"));
    argv.push(String::from_str("-s"));
    argv.push(shell.clone());
    let ghost head = seq![command@, "shell"@, "-s"@, shell@];
    assert(argv.deep_view() =~= head);
    match options {
        None => {
            assert(argv.deep_view() =~= head + Seq::<Seq<char>>::empty());
        },
        Some(given) => {
            argv.push(String::from_str("--"));
            let mut i: usize = 0;
            assert(argv.deep_view() =~= head + (seq!["--"@] + given.deep_view().take(0)));
            while i < given.len()
                invariant
                    i <= given@.len(),
                    argv.deep_view() == head + (seq!["--"@] + given.deep_view().take(i as int)),
                decreases given@.len() - i,
            {
                let ghost before = argv.deep_view();
                argv.push(given[i].clone());
                assert(argv.deep_view() =~= before.push(given@[i as int]@));
                assert(given.deep_view().take(i + 1) =~= given.deep_view().take(i as int).push(
                    given@[i as int]@,
                ));
                assert(argv.deep_view() =~= head + (seq!["--"@] + given.deep_view().take(i + 1)));
                i += 1;
            }
            assert(given.deep_view().take(i as int) =~= given.deep_view());
        },
    }
    argv
}

/// Whether an instance runs: the caller is inside one, or the record names
/// the service manager.
pub fn is_running(host: &Host) -> (r: bool)
    ensures
        r == running(host.deep_view()),
{
    if is_associated_with_systemd(host) {
        return true;
    }
    match get_systemd_pid(host) {
        Ok(Some(_)) => true,
        _ => false,
    }
}

/// The exit code that says yes or no.
pub fn exit_status(yes: bool) -> (r: i32)
    ensures
        r == exit_code(yes),
{
    if yes {
        0
    } else {
        1
    }
}

} // verus!
