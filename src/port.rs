//! Validation of the port field.
use vstd::prelude::*;

verus! {

/// A character is an ASCII decimal digit.
pub open spec fn is_digit(c: char) -> bool {
    '0' <= c && c <= '9'
}

/// A non-empty run of ASCII decimal digits.
pub open spec fn is_numeral(s: Seq<char>) -> bool {
    &&& s.len() > 0
    &&& forall|i: int| 0 <= i < s.len() ==> is_digit(#[trigger] s[i])
}

/// The port field is accepted: empty, or a numeral.
pub open spec fn port_is_valid(p: Seq<char>) -> bool {
    p.len() == 0 || is_numeral(p)
}

/// The message shown while the port field holds anything but digits.
pub open spec fn port_error_text() -> Seq<char> {
    "port must contain digits only"@
}

/// Relies on regex::Regex::new and Regex::is_match: the pattern `^[0-9]+$` is
/// anchored at both ends of the haystack (no multi-line mode) and its class
/// holds the ten ASCII digits only, so it matches exactly the non-empty runs of
/// those digits. The pattern is valid, so `new` returns `Ok`.
#[verifier::external_body]
fn matches_numeral(s: &str) -> (r: bool)
    ensures
        r == is_numeral(s@),
{
    regex::Regex::new(r"^[0-9]+$").unwrap().is_match(s)
}

/// Whether `port` is an acceptable port field: the empty string, or ASCII
/// decimal digits only.
pub fn is_valid_port(port: &str) -> (r: bool)
    ensures
        r == port_is_valid(port@),
{
    port.is_empty() || matches_numeral(port)
}

/// The fixed text of the port validation error.
pub fn port_error_message() -> (r: String)
    ensures
        r@ == port_error_text(),
{
    "port must contain digits only".to_owned()
}

} // verus!
