//! Record identifiers.

use vstd::prelude::*;

verus! {

/// The identifier of a record: a UUID, held as its 128 bits.
#[derive(Clone, Copy, Debug, PartialEq, Eq, Structural, Hash)]
pub struct RecordId(pub u128);

impl RecordId {
    /// What a text stands for as an identifier, if anything.
    pub open spec fn parsed(s: Seq<char>) -> Option<RecordId> {
        match uuid_from_str(s) {
            Some(bits) => Some(RecordId(bits)),
            None => None,
        }
    }

    /// Reads an identifier from a text.
    pub fn parse(s: &str) -> (r: Option<RecordId>)
        ensures
            r == RecordId::parsed(s@),
    {
        uuid_parse(s)
    }

    /// Draws a fresh identifier: a random UUID, which says so of itself.
    /// Panics where the system's source of randomness fails.
    pub fn generate() -> (r: RecordId)
        ensures
            r.random_kind(),
    {
        uuid_new_v4()
    }

    /// The identifier is marked as a random UUID: its version is 4 and its
    /// variant is the one of RFC 4122. The other 122 bits are free.
    pub open spec fn random_kind(self) -> bool {
        &&& (self.0 >> 76) & 0xf == 4
        &&& (self.0 >> 62) & 0x3 == 2
    }
}

/// The 128 bits of the UUID that the `uuid` crate reads from a text, or
/// `None` where it reads none.
pub uninterp spec fn uuid_from_str(s: Seq<char>) -> Option<u128>;

/// Calls `uuid::Uuid::parse_str` and hands back the bits (`as_u128`) of what
/// it read.
///
/// Claimed and not proved: the outcome depends on the text alone.
#[verifier::external_body]
fn uuid_parse(s: &str) -> (r: Option<RecordId>)
    ensures
        r is Some <==> uuid_from_str(s@) is Some,
        r matches Some(id) ==> uuid_from_str(s@) == Some(id.0),
{
    match uuid::Uuid::parse_str(s) {
        Ok(u) => Some(RecordId(u.as_u128())),
        Err(_) => None,
    }
}

/// Calls `uuid::Uuid::new_v4` and hands back the bits (`as_u128`) of the
/// random UUID. The call panics where the system's source of randomness
/// fails.
///
/// Claimed and not proved: whatever was drawn, the crate sets the version to
/// 4 and the variant to the one of RFC 4122. Nothing is claimed of the other
/// bits, nor that two calls differ.
#[verifier::external_body]
fn uuid_new_v4() -> (r: RecordId)
    ensures
        r.random_kind(),
{
    RecordId(uuid::Uuid::new_v4().as_u128())
}

} // verus!
