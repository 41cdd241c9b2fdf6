//! Which environment variables of the host are carried into the instance and
//! into the sessions opened in it.
use crate::text::{
    chars_of, ends_with, is_word, marks_pieces, range_is, range_starts_with, split, token_bounds,
};
use vstd::prelude::*;
use vstd::string::*;

verus! {

/// The variables that are carried over under their full name.
pub open spec fn on_allow_list(name: Seq<char>) -> bool {
    ||| name == "WSLENV"@
    ||| name == "WSL_INTEROP"@
    ||| name == "WSL_DISTRO_NAME"@
    ||| name == "WSL_NAME"@
    ||| name == "WT_SESSION"@
    ||| name == "WT_PROFILE_ID"@
    ||| name == "PULSE_SERVER"@
    ||| name == "WAYLAND_DISPLAY"@
    ||| name == "BOTTLED_SHELL_LOG"@
}

/// A piece of a name, between underscores, that marks the variable as one to
/// carry over: the word `WT`, or anything that begins with `WSL`.
pub open spec fn marks_interop(token: Seq<char>) -> bool {
    token == "WT"@ || "WSL"@.is_prefix_of(token)
}

/// Whether a variable of this name is carried over.
pub open spec fn is_preserved(name: Seq<char>) -> bool {
    ||| on_allow_list(name)
    ||| exists|k: int|
        0 <= k < split(name, '_').len() && marks_interop(#[trigger] split(name, '_')[k])
    ||| "WSL"@.is_suffix_of(name)
    ||| "WSL2"@.is_suffix_of(name)
}

/// A variable as one entry: name, `=`, value.
pub open spec fn entry(name: Seq<char>, value: Seq<char>) -> Seq<char> {
    name + "="@ + value
}

/// The entry for a variable that is carried over, nothing for another.
pub open spec fn preserved_entry(var: (Seq<char>, Seq<char>)) -> Option<Seq<char>> {
    if is_preserved(var.0) {
        Some(entry(var.0, var.1))
    } else {
        None
    }
}

/// The entries of the variables that are carried over, in the order in which
/// the variables were given.
pub open spec fn preserved_env(vars: Seq<(Seq<char>, Seq<char>)>) -> Seq<Seq<char>> {
    vars.filter_map(|var: (Seq<char>, Seq<char>)| preserved_entry(var))
}

fn is_on_allow_list(name: &[char]) -> (r: bool)
    ensures
        r == on_allow_list(name@),
{
    is_word(name, "WSLENV") || is_word(name, "WSL_INTEROP") || is_word(name, "WSL_DISTRO_NAME")
        || is_word(name, "WSL_NAME") || is_word(name, "WT_SESSION") || is_word(
        name,
        "WT_PROFILE_ID",
    ) || is_word(name, "PULSE_SERVER") || is_word(name, "WAYLAND_DISPLAY") || is_word(
        name,
        "BOTTLED_SHELL_LOG",
    )
}

fn has_interop_token(name: &[char]) -> (r: bool)
    ensures
        r == exists|k: int|
            0 <= k < split(name@, '_').len() && marks_interop(#[trigger] split(name@, '_')[k]),
{
    let bounds = token_bounds(name, '_');
    let wt = chars_of("WT");
    let wsl = chars_of("WSL");
    let mut i: usize = 0;
    while i < bounds.len()
        invariant
            i <= bounds@.len(),
            marks_pieces(bounds@, name@, '_'),
            wt@ == "WT"@,
            wsl@ == "WSL"@,
            forall|k: int| 0 <= k < i ==> !marks_interop(#[trigger] split(name@, '_')[k]),
        decreases bounds@.len() - i,
    {
        let (from, to) = bounds[i];
        assert(split(name@, '_')[i as int] == name@.subrange(from as int, to as int));
        if range_is(name, from, to, wt.as_slice()) || range_starts_with(
            name,
            from,
            to,
            wsl.as_slice(),
        ) {
            return true;
        }
        i += 1;
    }
    false
}

/// Whether a variable of this name is carried over.
pub fn is_preserved_name(name: &str) -> (r: bool)
    ensures
        r == is_preserved(name@),
{
    let chars = chars_of(name);
    is_on_allow_list(chars.as_slice()) || has_interop_token(chars.as_slice()) || ends_with(
        chars.as_slice(),
        chars_of("WSL").as_slice(),
    ) || ends_with(chars.as_slice(), chars_of("WSL2").as_slice())
}

/// The entries, each `NAME=value`, of the variables among `vars` that are
/// carried over, in the order of `vars`.
pub fn get_preserved_env(vars: &Vec<(String, String)>) -> (out: Vec<String>)
    ensures
        out.deep_view() == preserved_env(vars.deep_view()),
{
    let mut out: Vec<String> = Vec::new();
    let mut i: usize = 0;
    assert(vars.deep_view().take(0) =~= Seq::empty());
    assert(out.deep_view() =~= Seq::empty());
    while i < vars.len()
        invariant
            i <= vars@.len(),
            out.deep_view() == preserved_env(vars.deep_view().take(i as int)),
        decreases vars@.len() - i,
    {
        let ghost before = out.deep_view();
        let ghost seen = vars.deep_view().take(i as int);
        let ghost next = vars.deep_view().take(i + 1);
        assert(next.drop_last() =~= seen);
        assert(next.last() == (vars@[i as int].0@, vars@[i as int].1@));
        if is_preserved_name(vars[i].0.as_str()) {
            let mut text = vars[i].0.clone();
            text.append("=");
            text.append(vars[i].1.as_str());
            out.push(text);
            assert(out.deep_view() =~= before.push(entry(vars@[i as int].0@, vars@[i as int].1@)));
        } else {
            assert(out.deep_view() =~= before);
        }
        i += 1;
    }
    assert(vars.deep_view().take(i as int) =~= vars.deep_view());
    out
}

} // verus!
