//! Recognising the alt key's release in the input monitor's output.
use vstd::prelude::*;
use vstd::string::*;

verus! {

/// Whether `p` occurs in `s` as a run of consecutive characters.
pub open spec fn occurs_in(p: Seq<char>, s: Seq<char>) -> bool {
    exists|i: int| 0 <= i && i + p.len() <= s.len() && #[trigger] s.subrange(i, i + p.len()) == p
}

/// Relies on `str::contains` with a `&str` pattern: whether `pat` occurs in `s`.
#[verifier::external_body]
fn contains_str(s: &str, pat: &str) -> (r: bool)
    ensures
        r == occurs_in(pat@, s@),
{
    s.contains(pat)
}

/// Whether a line of the input monitor reports that an alt key (left or
/// right) was released.
pub fn is_alt_release(line: &str) -> (r: bool)
    ensures
        r == ((occurs_in("KEY_LEFTALT"@, line@) || occurs_in("KEY_RIGHTALT"@, line@)) && occurs_in(
            "released"@,
            line@,
        )),
{
    (contains_str(line, "KEY_LEFTALT") || contains_str(line, "KEY_RIGHTALT")) && contains_str(
        line,
        "released",
    )
}

/// The program run to tell the window manager that alt was released.
pub const HOOK_PROGRAM: &'static str = "qticc";

/// The arguments of `HOOK_PROGRAM` that fire the window manager's
/// `alt_release` user hook.
pub fn release_hook_args() -> (r: Vec<String>)
    ensures
        r@.map_values(|s: String| s@) == seq![
            "cmd-obj"@,
            "-f"@,
            "fire_user_hook"@,
            "-a"@,
            "alt_release"@,
        ],
{
    let mut v: Vec<String> = Vec::new();
    v.push(String::from_str("cmd-obj"));
    v.push(String::from_str("-f"));
    v.push(String::from_str("fire_user_hook"));
    v.push(String::from_str("-a"));
    v.push(String::from_str("alt_release"));
    assert(v@.map_values(|s: String| s@) =~= seq![
        "cmd-obj"@,
        "-f"@,
        "fire_user_hook"@,
        "-a"@,
        "alt_release"@,
    ]);
    v
}

} // verus!
