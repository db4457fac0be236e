use vstd::prelude::*;

verus! {

/// Whether a character has the Unicode property XID_Start.
pub uninterp spec fn xid_start(c: char) -> bool;

/// Whether a character has the Unicode property XID_Continue.
pub uninterp spec fn xid_continue(c: char) -> bool;

/// Relies on unicode_ident::is_xid_start: the XID_Start property of `c`,
/// which depends on the character alone.
#[verifier::external_body]
fn is_xid_start(c: char) -> (r: bool)
    ensures
        r == xid_start(c),
{
    unicode_ident::is_xid_start(c)
}

/// Relies on unicode_ident::is_xid_continue: the XID_Continue property of
/// `c`, which depends on the character alone.
#[verifier::external_body]
fn is_xid_continue(c: char) -> (r: bool)
    ensures
        r == xid_continue(c),
{
    unicode_ident::is_xid_continue(c)
}

/// A character that may begin an identifier: `_` or an XID_Start character.
pub open spec fn is_ident_start(c: char) -> bool {
    c == '_' || xid_start(c)
}

/// An identifier as `proc_macro2::Ident::new` accepts it (it panics on any
/// other string): non-empty, a start character, then XID_Continue characters.
pub open spec fn spec_is_ident(s: Seq<char>) -> bool {
    &&& s.len() > 0
    &&& is_ident_start(s[0])
    &&& forall|i: int| 1 <= i < s.len() ==> #[trigger] xid_continue(s[i])
}

/// Whether `s` is an identifier, and so can name a path segment in
/// generated code.
pub fn is_ident(s: &str) -> (r: bool)
    ensures
        r == spec_is_ident(s@),
{
    let n = s.unicode_len();
    if n == 0 {
        return false;
    }
    let c0 = s.get_char(0);
    if !(c0 == '_' || is_xid_start(c0)) {
        return false;
    }
    let mut i: usize = 1;
    while i < n
        invariant
            1 <= i <= n,
            n == s@.len(),
            forall|j: int| 1 <= j < i ==> #[trigger] xid_continue(s@[j]),
        decreases n - i,
    {
        let c = s.get_char(i);
        if !is_xid_continue(c) {
            assert(!xid_continue(s@[i as int]));
            return false;
        }
        i = i + 1;
    }
    true
}

} // verus!
