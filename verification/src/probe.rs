//! Reading the platform's answer to "which input method is selected".

use crate::text::{chars_of, contains_text, matches_at, str_contains};
use vstd::prelude::*;

verus! {

/// The identifier of the input method that comments are written in.
pub const TARGET_IM: &'static str = "com.apple.inputmethod.SCIM.ITABC";

/// Tells whether switching is implemented on the operating system named
/// `os`: it is on `macos` and nowhere else.
pub fn supports_switching(os: &str) -> (r: bool)
    ensures
        r == (os@ == "macos"@),
{
    let given = chars_of(os);
    let known = chars_of("macos");
    if given.len() != known.len() {
        return false;
    }
    let same = matches_at(&given, &known, 0);
    assert(given@.subrange(0, given@.len() as int) =~= given@);
    same
}

/// What a report of the selected input sources says of `target`: nothing
/// where the report could not be had, else whether it names the target.
pub open spec fn reading_of(command_ok: bool, output: Seq<char>, target: Seq<char>) -> Option<
    bool,
> {
    if command_ok {
        Some(contains_text(output, target))
    } else {
        None
    }
}

/// Reads the report `output` of the platform's selected input sources.
/// `command_ok` says whether the report could be had at all. Returns
/// `Some(true)` when it names `target_im`, `Some(false)` when it does not,
/// and `None` when there is no report.
pub fn is_target_input_method(command_ok: bool, output: &str, target_im: &str) -> (r: Option<bool>)
    ensures
        r == reading_of(command_ok, output@, target_im@),
{
    if command_ok {
        Some(str_contains(output, target_im))
    } else {
        None
    }
}

/// The identifier of the selected input method as far as the report tells
/// it: `target_im` itself when the report names it, and the empty identifier
/// when it does not or when there is no report.
pub fn get_input_method(command_ok: bool, output: &str, target_im: &str) -> (id: String)
    ensures
        id@ == if reading_of(command_ok, output@, target_im@) == Some(true) {
            target_im@
        } else {
            Seq::<char>::empty()
        },
{
    if command_ok && str_contains(output, target_im) {
        target_im.to_owned()
    } else {
        String::new()
    }
}

/// Tells whether two input-method identifiers are the same: they are when
/// they are equal character by character.
pub fn same_input_method(a: &String, b: &String) -> (r: bool)
    ensures
        r == (a@ == b@),
{
    *a == *b
}

} // verus!
