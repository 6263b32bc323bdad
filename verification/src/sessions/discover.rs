use vstd::prelude::*;

use crate::sessions::raw::RawSessionFile;
use crate::shared::text::{
    all_digits, all_digits_exec, decimal, lemma_decimal_parse_round_trip, lemma_decimal_shape, opt_str_eq, opt_view,
    parse_unsigned, str_eq, u32_to_decimal,
};

verus! {

/// Whether a directory entry can be a session file: a `.json` file whose stem is
/// made of ASCII digits only.
pub open spec fn spec_is_session_file_name(extension: Option<Seq<char>>, stem: Option<Seq<char>>) -> bool {
    extension == Some("json"@) && stem is Some && all_digits(stem->0)
}

/// Whether a file with this extension and stem can be a session file.
pub fn is_session_file_name(extension: Option<&str>, stem: Option<&str>) -> (r: bool)
    ensures
        r == spec_is_session_file_name(opt_view(extension), opt_view(stem)),
{
    if !opt_str_eq(extension, "json") {
        return false;
    }
    match stem {
        Some(s) => all_digits_exec(s),
        None => false,
    }
}

/// Whether a parsed session file belongs to the file it was read from: the file's
/// stem must be the decimal notation of the pid inside.
pub fn file_matches_pid(stem: &str, raw: &RawSessionFile) -> (r: bool)
    ensures
        r == (stem@ == decimal(raw.pid as nat)),
{
    let expected = u32_to_decimal(raw.pid);
    str_eq(stem, expected.as_str())
}

} // verus!

verus! {

/// The stem of a file that belongs to its pid is a session file name, and reading
/// it as a number gives the pid back.
pub proof fn lemma_matching_stem_is_pid(stem: Seq<char>, pid: u32)
    requires
        stem == decimal(pid as nat),
    ensures
        spec_is_session_file_name(Some("json"@), Some(stem)),
        parse_unsigned(stem, u32::MAX as nat) == Some(pid as nat),
{
    lemma_decimal_shape(pid as nat);
    lemma_decimal_parse_round_trip(pid as nat, u32::MAX as nat);
}

} // verus!
