//! Identifier validation: the sole injection defense for every position where
//! SQL cannot take a bound parameter (table names, column names, ORDER BY).

use vstd::prelude::*;
use vstd::string::StrSliceExecFns;

verus! {

/// A character that may appear in a table or column name: ASCII letters,
/// digits, and underscore.
pub open spec fn is_ident_char(c: char) -> bool {
    ('a' <= c && c <= 'z') || ('A' <= c && c <= 'Z') || ('0' <= c && c <= '9') || c == '_'
}

/// A safe identifier: every character is from the allow-list. The empty
/// string is vacuously valid.
pub open spec fn valid_ident(s: Seq<char>) -> bool {
    forall|i: int| 0 <= i < s.len() ==> is_ident_char(s[i])
}

/// True iff every character of `name` is an ASCII letter, digit or
/// underscore; in particular, false for every string holding any other
/// character.
pub fn is_valid_identifier(name: &str) -> (r: bool)
    ensures
        r == valid_ident(name@),
{
    let n = name.unicode_len();
    let mut i: usize = 0;
    while i < n
        invariant
            n == name@.len(),
            0 <= i <= n,
            forall|j: int| 0 <= j < i ==> is_ident_char(name@[j]),
        decreases n - i,
    {
        let c = name.get_char(i);
        let ok = ('a' <= c && c <= 'z') || ('A' <= c && c <= 'Z') || ('0' <= c && c <= '9') || c
            == '_';
        if !ok {
            return false;
        }
        i += 1;
    }
    true
}

} // verus!
