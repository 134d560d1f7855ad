//! Tickets: the random identifiers that name one capture each.

use vstd::prelude::*;
use crate::worker::digest::hex_digit;

verus! {

/// A capture ticket, held as the 128-bit value of its UUID.
#[derive(Clone, Copy, Debug, PartialEq, Eq, Hash, Structural)]
pub struct Ticket {
    pub id: u128,
}

/// The `k`-th hex digit of `id`, counting from the most significant of 32.
pub open spec fn id_nibble(id: u128, k: int) -> u8 {
    ((id as int / vstd::arithmetic::power2::pow2((4 * (31 - k)) as nat) as int) % 16) as u8
}

/// Position among the 32 hex digits of the character at `i` of the text.
pub open spec fn text_digit_index(i: int) -> int {
    if i < 8 {
        i
    } else if i < 13 {
        i - 1
    } else if i < 18 {
        i - 2
    } else if i < 23 {
        i - 3
    } else {
        i - 4
    }
}

/// The canonical text of a ticket: 32 lowercase hex digits, most significant
/// first, in groups of 8, 4, 4, 4 and 12 joined by hyphens.
pub open spec fn ticket_text(id: u128) -> Seq<char> {
    Seq::new(
        36,
        |i: int|
            if i == 8 || i == 13 || i == 18 || i == 23 {
                '-'
            } else {
                hex_digit(id_nibble(id, text_digit_index(i)))
            },
    )
}

/// Relies on `uuid::Uuid::new_v4`: a random version-4 UUID. Nothing is known
/// of the value drawn.
#[verifier::external_body]
fn random_uuid_value() -> (r: u128) {
    uuid::Uuid::new_v4().as_u128()
}

/// Relies on `uuid::Uuid::from_u128` and its `Display` impl: the hyphenated
/// lowercase form of the UUID whose big-endian value is `id`.
#[verifier::external_body]
fn uuid_text(id: u128) -> (r: String)
    ensures
        r@ == ticket_text(id),
{
    uuid::Uuid::from_u128(id).to_string()
}

impl Ticket {
    /// The ticket whose UUID has the value `id`.
    pub fn from_u128(id: u128) -> (r: Ticket)
        ensures
            r.id == id,
    {
        Ticket { id }
    }

    /// The 128-bit value of the ticket's UUID.
    pub fn as_u128(&self) -> (r: u128)
        ensures
            r == self.id,
    {
        self.id
    }

    /// A freshly drawn random ticket. Whether it is new to a registry is for
    /// the registry to check.
    pub fn new_random() -> (r: Ticket) {
        Ticket { id: random_uuid_value() }
    }

    /// The ticket's canonical text, which also names its blob file.
    pub fn to_text(&self) -> (r: String)
        ensures
            r@ == ticket_text(self.id),
    {
        uuid_text(self.id)
    }
}

} // verus!
