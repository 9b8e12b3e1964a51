//! The datastore secret that every deploy generates afresh.

use vstd::prelude::*;

verus! {

/// Whether `c` is one of `0`-`9` or `a`-`f`.
pub open spec fn is_lower_hex(c: char) -> bool {
    ('0' <= c && c <= '9') || ('a' <= c && c <= 'f')
}

/// Whether `c` may stand at offset `i` of a secret: a hyphen at offsets 8, 13,
/// 18 and 23, a lower-case hexadecimal digit everywhere else.
pub open spec fn fits(i: int, c: char) -> bool {
    if i == 8 || i == 13 || i == 18 || i == 23 {
        c == '-'
    } else {
        is_lower_hex(c)
    }
}

/// The shape of a secret: 36 characters, each of which fits its offset.
pub open spec fn is_secret(s: Seq<char>) -> bool {
    &&& s.len() == 36
    &&& forall|i: int| 0 <= i < s.len() ==> fits(i, #[trigger] s[i])
}

/// Draws a random secret from `uuid::Uuid::new_v4` and renders it with the
/// `Display` impl of `uuid::Uuid`.
///
/// Trusted: the text is the hyphenated lower-case form, which is all that is
/// claimed of it; which digits it holds is left open, since they are random.
/// The draw aborts the process when the operating system can supply no random
/// bytes.
#[verifier::external_body]
pub(crate) fn random_secret() -> (secret: String)
    ensures
        is_secret(secret@),
{
    uuid::Uuid::new_v4().to_string()
}

} // verus!
