//! Unicode character classification relied on by the lexer. Each class is a
//! pure function of the character alone; it gets an uninterpreted name and a
//! trusted wrapper around the classifier that computes it.

use vstd::prelude::*;

verus! {

/// Whether `c` is in the Unicode identifier-start class (XID_Start).
pub uninterp spec fn xid_start(c: char) -> bool;

/// Whether `c` is in the Unicode identifier-continue class (XID_Continue).
pub uninterp spec fn xid_continue(c: char) -> bool;

/// Whether `c` has the Unicode Numeric_Type property.
pub uninterp spec fn numeric(c: char) -> bool;

/// Whether `c` has the Unicode White_Space property.
pub uninterp spec fn whitespace(c: char) -> bool;

/// Relies on unicode_xid's UnicodeXID::is_xid_start: a character-table
/// lookup, a function of the character alone.
#[verifier::external_body]
pub(crate) fn is_xid_start(c: char) -> (r: bool)
    ensures
        r == xid_start(c),
{
    unicode_xid::UnicodeXID::is_xid_start(c)
}

/// Relies on unicode_xid's UnicodeXID::is_xid_continue: a character-table
/// lookup, a function of the character alone.
#[verifier::external_body]
pub(crate) fn is_xid_continue(c: char) -> (r: bool)
    ensures
        r == xid_continue(c),
{
    unicode_xid::UnicodeXID::is_xid_continue(c)
}

/// Relies on char::is_numeric of std: decided by the character's Unicode
/// general category, a function of the character alone.
#[verifier::external_body]
pub(crate) fn is_numeric(c: char) -> (r: bool)
    ensures
        r == numeric(c),
{
    c.is_numeric()
}

/// Relies on char::is_whitespace of std: decided by the character's Unicode
/// White_Space property, a function of the character alone.
#[verifier::external_body]
pub(crate) fn is_whitespace(c: char) -> (r: bool)
    ensures
        r == whitespace(c),
{
    c.is_whitespace()
}

} // verus!
