//! Session ids of the transport layer.
use engineioxide::sid::Sid;
use vstd::prelude::*;

verus! {

/// The session id that the transport gives to each of its sockets. Opaque: a
/// session id is carried, compared with another one, and shown as text.
#[verifier::external_type_specification]
#[verifier::external_body]
pub struct ExSid(engineioxide::sid::Sid);

/// The text that [`Sid`] displays, as `Sid::to_string` returns it.
pub uninterp spec fn sid_text(sid: Sid) -> Seq<char>;

/// Calls `to_string` of [`Sid`]: the result is the text of the id, which is a
/// function of the id and always 16 characters long. An id is made of the
/// characters of its text, so that no other id has the same text.
#[verifier::external_body]
pub(crate) fn sid_to_string(sid: Sid) -> (text: String)
    ensures
        text@ == sid_text(sid),
        text@.len() == 16,
        forall|other: Sid| #[trigger] sid_text(other) == text@ ==> other == sid,
{
    sid.to_string()
}

/// Calls `==` of [`Sid`], which compares the 128 bits of the two ids: it holds
/// for an id and itself, and for no two different ids.
#[verifier::external_body]
pub(crate) fn same_sid(a: Sid, b: Sid) -> (same: bool)
    ensures
        same == (a == b),
{
    a == b
}

} // verus!
