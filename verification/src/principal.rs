//! Identities of users and publishers: opaque byte strings of at most 29
//! bytes, written as text with a checksum.

use vstd::prelude::*;

verus! {

/// The most bytes that an identity can have.
pub const MAX_PRINCIPAL_LEN: usize = 29;

/// The identity that a text denotes, as candid reads it; `None` where the text
/// denotes none.
pub uninterp spec fn principal_of_text(text: Seq<char>) -> Option<Seq<u8>>;

/// The text of an identity, as candid writes it.
pub uninterp spec fn text_of_principal(bytes: Seq<u8>) -> Seq<char>;

/// The identity of a caller that has none: the single byte 4.
pub open spec fn anonymous() -> Seq<u8> {
    seq![4u8]
}

/// Calls candid's `Principal::from_text` and hands out the bytes of the
/// identity it gives, by `Principal::as_slice`.
///
/// Trusted: the bytes are those named by [`principal_of_text`], and there are
/// no more than [`MAX_PRINCIPAL_LEN`] of them.
#[verifier::external_body]
pub(crate) fn principal_from_text(text: &str) -> (res: Option<Vec<u8>>)
    ensures
        res.deep_view() == principal_of_text(text@),
        res matches Some(bytes) ==> bytes@.len() <= MAX_PRINCIPAL_LEN,
{
    candid::Principal::from_text(text).ok().map(|principal| principal.as_slice().to_vec())
}

/// Calls candid's `Principal::from_slice` on the bytes and `Principal::to_text`
/// on the identity it gives.
///
/// Trusted: the text is the one named by [`text_of_principal`]. More than
/// [`MAX_PRINCIPAL_LEN`] bytes make the call panic.
#[verifier::external_body]
fn principal_to_text(bytes: &Vec<u8>) -> (res: String)
    requires
        bytes@.len() <= MAX_PRINCIPAL_LEN,
    ensures
        res@ == text_of_principal(bytes@),
{
    candid::Principal::from_slice(bytes.as_slice()).to_text()
}

/// Calls candid's `Principal::anonymous` and hands out its bytes, by
/// `Principal::as_slice`.
///
/// Trusted: it is the single byte 4.
#[verifier::external_body]
fn anonymous_principal() -> (res: Vec<u8>)
    ensures
        res@ == anonymous(),
{
    candid::Principal::anonymous().as_slice().to_vec()
}

/// Whether two byte strings are equal.
pub fn same_bytes(a: &Vec<u8>, b: &Vec<u8>) -> (same: bool)
    ensures
        same == (a@ == b@),
        same == (a.deep_view() == b.deep_view()),
{
    assert(a.deep_view() =~= a@);
    assert(b.deep_view() =~= b@);
    if a.len() != b.len() {
        return false;
    }
    let mut i: usize = 0;
    while i < a.len()
        invariant
            i <= a.len(),
            a.len() == b.len(),
            a.deep_view() == a@,
            b.deep_view() == b@,
            forall|j: int| 0 <= j < i ==> a@[j] == b@[j],
        decreases a.len() - i,
    {
        if a[i] != b[i] {
            return false;
        }
        i = i + 1;
    }
    assert(a@ =~= b@);
    true
}

/// Whether `user_id` is the identity of a caller that has none.
pub fn is_anonymous(user_id: &Vec<u8>) -> (res: bool)
    ensures
        res == (user_id@ == anonymous()),
{
    let nobody = anonymous_principal();
    same_bytes(user_id, &nobody)
}

/// The text of an identity, by which its lists in the cache are named; `None`
/// for more bytes than an identity can have.
pub fn user_id_text(user_id: &Vec<u8>) -> (res: Option<String>)
    ensures
        res is Some <==> user_id@.len() <= MAX_PRINCIPAL_LEN,
        res matches Some(text) ==> text@ == text_of_principal(user_id@),
{
    if user_id.len() <= MAX_PRINCIPAL_LEN {
        Some(principal_to_text(user_id))
    } else {
        None
    }
}

} // verus!
