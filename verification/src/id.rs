//! Strongly-typed identifiers, each holding the 128 bits of a UUID.

use vstd::prelude::*;

use crate::types::hex_digit;

verus! {

/// A version 4 UUID of the RFC 4122 variant, as its 128-bit big-endian
/// value: the version nibble (bits 76 to 79) is 4 and the two variant bits
/// (62 and 63) are `10`.
pub open spec fn is_v4_uuid(v: u128) -> bool {
    (v >> 76u128) & 0xfu128 == 4u128 && (v >> 62u128) & 3u128 == 2u128
}

/// A fresh random (version 4) UUID, as its 128-bit value
/// (`uuid::Uuid::new_v4`, then `Uuid::as_u128`). Of the random value only
/// what `new_v4` fixes is stated: it masks the random bits and sets the
/// version to 4 and the variant to RFC 4122.
#[verifier::external_body]
fn random_uuid() -> (r: u128)
    ensures
        is_v4_uuid(r),
{
    uuid::Uuid::new_v4().as_u128()
}

/// The `k`-th hexadecimal digit of a 128-bit value, the most significant
/// first (`k` from 0 to 31).
pub open spec fn uuid_nibble(value: u128, k: int) -> int {
    ((value >> ((124 - 4 * k) as u128)) & 0xfu128) as int
}

/// Which of the 32 digits stands at position `i` of the hyphenated form.
pub open spec fn digit_index(i: int) -> int {
    if i < 8 {
        i
    } else if i < 13 {
        i - 1
    } else if i < 18 {
        i - 2
    } else if i < 23 {
        i - 3
    } else {
        i - 4
    }
}

/// The hyphenated text form of a UUID value: its 32 lower-case hexadecimal
/// digits, most significant first, with hyphens at positions 8, 13, 18
/// and 23.
pub open spec fn uuid_text(value: u128) -> Seq<char> {
    Seq::new(36, |i: int|
        if i == 8 || i == 13 || i == 18 || i == 23 {
            '-'
        } else {
            hex_digit(uuid_nibble(value, digit_index(i)))
        })
}

/// Render a UUID value in hyphenated form (`Uuid::from_u128`, then its
/// `Display`, which writes the lower-case hyphenated form: each of the 16
/// big-endian bytes as two lower-case hex digits, hyphens after the 4th,
/// 6th, 8th and 10th byte).
#[verifier::external_body]
fn render_uuid(value: u128) -> (s: String)
    ensures
        s@ == uuid_text(value),
{
    uuid::Uuid::from_u128(value).to_string()
}

/// Unique identifier for a scan session.
#[derive(Debug, Clone, Copy, PartialEq, Eq, Hash, Structural)]
pub struct SessionId(pub u128);

/// Unique identifier for a discovered host.
#[derive(Debug, Clone, Copy, PartialEq, Eq, Hash, Structural)]
pub struct HostId(pub u128);

/// Unique identifier for a scanned port.
#[derive(Debug, Clone, Copy, PartialEq, Eq, Hash, Structural)]
pub struct PortId(pub u128);

impl SessionId {
    /// Create a new random ID: a fresh version 4 UUID.
    pub fn new() -> (r: Self)
        ensures
            is_v4_uuid(r.0),
    {
        SessionId(random_uuid())
    }

    /// Return the inner UUID value.
    pub fn inner(&self) -> (r: u128)
        ensures
            r == self.0,
    {
        self.0
    }

    /// Hyphenated text of the UUID.
    pub fn to_text(&self) -> (s: String)
        ensures
            s@ == uuid_text(self.0),
            s@.len() == 36,
    {
        render_uuid(self.0)
    }
}

impl HostId {
    /// Create a new random ID: a fresh version 4 UUID.
    pub fn new() -> (r: Self)
        ensures
            is_v4_uuid(r.0),
    {
        HostId(random_uuid())
    }

    /// Return the inner UUID value.
    pub fn inner(&self) -> (r: u128)
        ensures
            r == self.0,
    {
        self.0
    }

    /// Hyphenated text of the UUID.
    pub fn to_text(&self) -> (s: String)
        ensures
            s@ == uuid_text(self.0),
            s@.len() == 36,
    {
        render_uuid(self.0)
    }
}

impl PortId {
    /// Create a new random ID: a fresh version 4 UUID.
    pub fn new() -> (r: Self)
        ensures
            is_v4_uuid(r.0),
    {
        PortId(random_uuid())
    }

    /// Return the inner UUID value.
    pub fn inner(&self) -> (r: u128)
        ensures
            r == self.0,
    {
        self.0
    }

    /// Hyphenated text of the UUID.
    pub fn to_text(&self) -> (s: String)
        ensures
            s@ == uuid_text(self.0),
            s@.len() == 36,
    {
        render_uuid(self.0)
    }
}

} // verus!
