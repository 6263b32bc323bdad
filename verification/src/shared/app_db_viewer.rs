use vstd::prelude::*;

use crate::shared::text::{
    char_vec, concat, is_ascii_letter, is_ascii_letter_exec, is_digit, is_digit_exec,
};
use crate::shared::types::AppDbTableInfo;

verus! {

/// A character that may begin an SQL identifier: an ASCII letter or `_`.
pub open spec fn is_identifier_start(c: char) -> bool {
    is_ascii_letter(c) || c == '_'
}

/// A character that may continue an SQL identifier: an ASCII letter, digit or `_`.
pub open spec fn is_identifier_char(c: char) -> bool {
    is_ascii_letter(c) || is_digit(c) || c == '_'
}

/// A plain SQL identifier (`[A-Za-z_][A-Za-z0-9_]*`), safe to splice into a query.
pub open spec fn spec_is_valid_identifier(s: Seq<char>) -> bool {
    &&& s.len() > 0
    &&& is_identifier_start(s[0])
    &&& forall|i: int| 1 <= i < s.len() ==> is_identifier_char(#[trigger] s[i])
}

/// Whether `name` is a plain SQL identifier (`[A-Za-z_][A-Za-z0-9_]*`).
pub fn is_valid_identifier(name: &str) -> (r: bool)
    ensures
        r == spec_is_valid_identifier(name@),
{
    let v = char_vec(name);
    if v.len() == 0 {
        return false;
    }
    let first = v[0];
    if !(is_ascii_letter_exec(first) || first == '_') {
        return false;
    }
    let mut i: usize = 1;
    while i < v.len()
        invariant
            v@ == name@,
            1 <= i <= v.len(),
            forall|j: int| 1 <= j < i ==> is_identifier_char(#[trigger] v@[j]),
        decreases v.len() - i,
    {
        let c = v[i];
        if !(is_ascii_letter_exec(c) || is_digit_exec(c) || c == '_') {
            return false;
        }
        i = i + 1;
    }
    true
}

/// The row count shown for a table: the counted rows (narrowed to `i32`) when the
/// name is a plain identifier and counting succeeded, -1 otherwise.
pub open spec fn spec_row_count(name: Seq<char>, count: Option<i64>) -> i32 {
    if spec_is_valid_identifier(name) && count is Some {
        count->0 as i32
    } else {
        -1i32
    }
}

/// The summary of a table, from its name and the result of counting its rows (which
/// is only asked for tables with a plain identifier as name).
pub fn table_info(name: String, count: Option<i64>) -> (r: AppDbTableInfo)
    ensures
        r.name@ == name@,
        r.row_count == spec_row_count(name@, count),
{
    let row_count: i32 = if is_valid_identifier(name.as_str()) {
        match count {
            Some(n) => n as i32,
            None => -1,
        }
    } else {
        -1
    };
    AppDbTableInfo { name, row_count }
}

/// Accepts a table name for dumping only when it is a plain identifier.
pub fn check_table_name(table: &str) -> (r: Result<(), String>)
    ensures
        spec_is_valid_identifier(table@) ==> r is Ok,
        !spec_is_valid_identifier(table@) ==> (r matches Err(e) && e@
            == "invalid table name: "@ + table@),
{
    if is_valid_identifier(table) {
        Ok(())
    } else {
        Err(concat("invalid table name: ", table))
    }
}

/// Accepts a table for dumping only when the database holds it.
pub fn check_table_exists(table: &str, exists: bool) -> (r: Result<(), String>)
    ensures
        exists ==> r is Ok,
        !exists ==> (r matches Err(e) && e@ == "table not found: "@ + table@),
{
    if exists {
        Ok(())
    } else {
        Err(concat("table not found: ", table))
    }
}

} // verus!

verus! {

/// A name that passes the identifier check holds no character that could end or
/// extend an SQL statement: no white space, quote, semicolon, dash or parenthesis.
pub proof fn lemma_valid_identifier_is_inert(name: Seq<char>)
    requires
        spec_is_valid_identifier(name),
    ensures
        forall|i: int|
            0 <= i < name.len() ==> {
                let c = #[trigger] name[i];
                c != ' ' && c != '\'' && c != '"' && c != ';' && c != '-' && c != '(' && c
                    != ')' && c != '\n' && c != '\t'
            },
{
    assert forall|i: int| 0 <= i < name.len() implies {
        let c = #[trigger] name[i];
        c != ' ' && c != '\'' && c != '"' && c != ';' && c != '-' && c != '(' && c != ')' && c
            != '\n' && c != '\t'
    } by {
        if i > 0 {
            assert(is_identifier_char(name[i]));
        }
    }
}

} // verus!
