use vstd::prelude::*;

verus! {

/// The store's identifier of an entity (a label, an item).
#[derive(Clone, Copy, Debug, PartialEq, Eq, Hash, Structural)]
pub struct Entity {
    pub id: i64,
}

/// A 128-bit universally unique identifier, held as its big-endian value.
#[derive(Clone, Copy, Debug, PartialEq, Eq, Hash, Structural)]
pub struct Uuid {
    pub bits: u128,
}

/// The lower-case hexadecimal digit of a value below sixteen.
pub open spec fn hex_digit(n: int) -> char {
    seq!['0', '1', '2', '3', '4', '5', '6', '7', '8', '9', 'a', 'b', 'c', 'd', 'e', 'f'][n]
}

/// The `k`-th four-bit group of a 128-bit value, counted from the most significant.
pub open spec fn nibble(bits: u128, k: int) -> int {
    ((bits >> ((124 - 4 * k) as u128)) & 15u128) as int
}

/// Where the hyphenated form of a uuid has its hyphens.
pub open spec fn is_hyphen_position(i: int) -> bool {
    i == 8 || i == 13 || i == 18 || i == 23
}

/// Which hexadecimal digit stands at position `i` of the hyphenated form.
pub open spec fn digit_index(i: int) -> int {
    if i < 8 {
        i
    } else if i < 13 {
        i - 1
    } else if i < 18 {
        i - 2
    } else if i < 23 {
        i - 3
    } else {
        i - 4
    }
}

/// The hyphenated form of a uuid: 32 lower-case hexadecimal digits, most significant
/// first, grouped 8-4-4-4-12 by hyphens (`67e55044-10b1-426f-9247-bb680e5fe0c8`).
pub open spec fn hyphenated(bits: u128) -> Seq<char> {
    Seq::new(
        36,
        |i: int|
            if is_hyphen_position(i) {
                '-'
            } else {
                hex_digit(nibble(bits, digit_index(i)))
            },
    )
}

/// A random (version 4, RFC 4122 variant) uuid: its version field holds 4 and its
/// variant field holds the bits `10`.
pub open spec fn is_random_uuid(bits: u128) -> bool {
    &&& (bits >> 76u128) & 15u128 == 4u128
    &&& (bits >> 62u128) & 3u128 == 2u128
}

/// `uuid::Uuid::new_v4`: a uuid drawn from the operating system's random source, with
/// the version and variant bits of a version 4 uuid set. Which value comes is left open.
#[verifier::external_body]
fn random_uuid_bits() -> (bits: u128)
    ensures
        is_random_uuid(bits),
{
    ::uuid::Uuid::new_v4().as_u128()
}

/// `uuid::Uuid::hyphenated` formatted by `to_string`: the documented hyphenated form.
#[verifier::external_body]
fn hyphenated_text(bits: u128) -> (s: String)
    ensures
        s@ == hyphenated(bits),
{
    ::uuid::Uuid::from_u128(bits).hyphenated().to_string()
}

impl Uuid {
    /// The nil uuid, all 128 bits zero.
    pub fn nil() -> (u: Uuid)
        ensures
            u.bits == 0,
    {
        Uuid { bits: 0 }
    }

    /// Whether this is the nil uuid.
    pub fn is_nil(&self) -> (b: bool)
        ensures
            b == (self.bits == 0),
    {
        self.bits == 0
    }

    /// A fresh random uuid; whatever value comes, it is a version 4 uuid and so not nil.
    pub fn new_v4() -> (u: Uuid)
        ensures
            is_random_uuid(u.bits),
            u.bits != 0,
    {
        let bits = random_uuid_bits();
        assert(is_random_uuid(bits) ==> bits != 0) by (bit_vector);
        Uuid { bits }
    }

    /// The hyphenated lower-case text of this uuid.
    pub fn hyphenated(&self) -> (s: String)
        ensures
            s@ == hyphenated(self.bits),
    {
        hyphenated_text(self.bits)
    }
}

} // verus!
