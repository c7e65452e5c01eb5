//! Well-formedness of header names and values.
//!
//! A request whose headers fail these checks cannot be adapted for the
//! guest: the adapter reports a malformed header instead of invoking any
//! guest code.

use vstd::prelude::*;

use crate::http_model::Header;

verus! {

/// A token character: what RFC 9110 permits in a header (field) name.
pub open spec fn is_tchar(c: char) -> bool {
    ||| ('0' <= c && c <= '9')
    ||| ('a' <= c && c <= 'z')
    ||| ('A' <= c && c <= 'Z')
    ||| c == '!' || c == '#' || c == '$' || c == '%' || c == '&' || c == '\''
    ||| c == '*' || c == '+' || c == '-' || c == '.' || c == '^' || c == '_'
    ||| c == '`' || c == '|' || c == '~'
}

/// A header name is well formed when it is a nonempty token.
pub open spec fn valid_header_name(name: Seq<char>) -> bool {
    name.len() > 0 && (forall|i: int| 0 <= i < name.len() ==> is_tchar(#[trigger] name[i]))
}

/// A header value may hold horizontal tabs and any character outside the
/// control range; carriage returns, line feeds and the other controls are
/// what header smuggling is made of, and are rejected.
pub open spec fn valid_header_value(value: Seq<char>) -> bool {
    forall|i: int| 0 <= i < value.len()
        ==> (#[trigger] value[i] == '\t' || (value[i] >= ' ' && value[i] != '\u{7f}'))
}

/// A header line is well formed when both its name and its value are.
pub open spec fn well_formed_header(h: Header) -> bool {
    valid_header_name(h.name@) && valid_header_value(h.value@)
}

/// Every header of the list is well formed.
pub open spec fn well_formed_headers(headers: Seq<Header>) -> bool {
    forall|i: int| 0 <= i < headers.len() ==> well_formed_header(#[trigger] headers[i])
}

fn is_tchar_exec(c: char) -> (r: bool)
    ensures
        r == is_tchar(c),
{
    ('0' <= c && c <= '9') || ('a' <= c && c <= 'z') || ('A' <= c && c <= 'Z') || c == '!'
        || c == '#' || c == '$' || c == '%' || c == '&' || c == '\'' || c == '*' || c == '+'
        || c == '-' || c == '.' || c == '^' || c == '_' || c == '`' || c == '|' || c == '~'
}

/// Checks that a header name is a nonempty token.
pub fn check_header_name(name: &str) -> (r: bool)
    ensures
        r == valid_header_name(name@),
{
    let n = name.unicode_len();
    if n == 0 {
        return false;
    }
    let mut i: usize = 0;
    while i < n
        invariant
            0 <= i <= n,
            n == name@.len(),
            forall|j: int| 0 <= j < i ==> is_tchar(#[trigger] name@[j]),
        decreases n - i,
    {
        let c = name.get_char(i);
        if !is_tchar_exec(c) {
            return false;
        }
        i += 1;
    }
    true
}

/// Checks that a header value carries no control character other than tab.
pub fn check_header_value(value: &str) -> (r: bool)
    ensures
        r == valid_header_value(value@),
{
    let n = value.unicode_len();
    let mut i: usize = 0;
    while i < n
        invariant
            0 <= i <= n,
            n == value@.len(),
            forall|j: int| 0 <= j < i
                ==> (#[trigger] value@[j] == '\t' || (value@[j] >= ' ' && value@[j] != '\u{7f}')),
        decreases n - i,
    {
        let c = value.get_char(i);
        if !(c == '\t' || (c >= ' ' && c != '\u{7f}')) {
            return false;
        }
        i += 1;
    }
    true
}

/// The index of the first malformed header of the list, if any: the witness
/// the adapter reports a malformed-header error on.
pub fn first_malformed_header(headers: &Vec<Header>) -> (r: Option<usize>)
    ensures
        match r {
            Some(i) => i < headers@.len() && !well_formed_header(headers@[i as int])
                && (forall|j: int| 0 <= j < i ==> well_formed_header(#[trigger] headers@[j])),
            None => well_formed_headers(headers@),
        },
{
    let mut i: usize = 0;
    while i < headers.len()
        invariant
            0 <= i <= headers@.len(),
            forall|j: int| 0 <= j < i ==> well_formed_header(#[trigger] headers@[j]),
        decreases headers@.len() - i,
    {
        let h = &headers[i];
        if !check_header_name(h.name.as_str()) || !check_header_value(h.value.as_str()) {
            return Some(i);
        }
        i += 1;
    }
    None
}

} // verus!
