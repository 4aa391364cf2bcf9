//! Entity handles: process-unique 128-bit identifiers decoupled from any
//! internal storage index, so entities can be relocated without
//! invalidating external references.
//!
//! Identifier generation is delegated to the `uuid` crate; the canonical
//! hyphenated-hex rendering of a handle is verified character by
//! character.

use vstd::prelude::*;

verus! {

/// A handle to an entity in the ECS. Two handles are equal iff their
/// identifiers are equal.
#[derive(Clone, Copy, PartialEq, Eq, Structural, Hash, Debug)]
pub struct EntityHandle {
    /// Unique 128-bit identifier for the entity.
    pub uuid: u128,
}

/// Relies on `uuid::Uuid::new_v4` and `Uuid::as_u128`: the result is
/// random except for the fixed version nibble (4) and variant bits (0b10);
/// nothing else is assumed of it.
#[verifier::external_body]
fn uuid_new_v4_u128() -> (r: u128)
    ensures
        (r >> 76) & 0xf == 4,
        (r >> 62) & 0x3 == 2,
{
    uuid::Uuid::new_v4().as_u128()
}

/// The lowercase hex character of a nibble.
pub open spec fn spec_hex_char(d: u128) -> char
    recommends
        d < 16,
{
    if d == 0 {
        '0'
    } else if d == 1 {
        '1'
    } else if d == 2 {
        '2'
    } else if d == 3 {
        '3'
    } else if d == 4 {
        '4'
    } else if d == 5 {
        '5'
    } else if d == 6 {
        '6'
    } else if d == 7 {
        '7'
    } else if d == 8 {
        '8'
    } else if d == 9 {
        '9'
    } else if d == 10 {
        'a'
    } else if d == 11 {
        'b'
    } else if d == 12 {
        'c'
    } else if d == 13 {
        'd'
    } else if d == 14 {
        'e'
    } else {
        'f'
    }
}

/// The `k`-th nibble of `u`, counting from the most significant.
pub open spec fn spec_uuid_nibble(u: u128, k: int) -> u128
    recommends
        0 <= k < 32,
{
    (u >> (((31 - k) * 4) as u128)) & 0xf
}

/// How many hyphens precede position `i` of the canonical rendering
/// (hyphens sit at positions 8, 13, 18 and 23).
pub open spec fn spec_hyphens_before(i: int) -> int {
    if i < 8 {
        0
    } else if i < 13 {
        1
    } else if i < 18 {
        2
    } else if i < 23 {
        3
    } else {
        4
    }
}

/// The 36 characters of the canonical hyphenated lowercase-hex rendering
/// of a 128-bit identifier.
pub open spec fn spec_uuid_chars(u: u128) -> Seq<char> {
    Seq::new(
        36,
        |i: int|
            if i == 8 || i == 13 || i == 18 || i == 23 {
                '-'
            } else {
                spec_hex_char(spec_uuid_nibble(u, i - spec_hyphens_before(i)))
            },
    )
}

/// The lowercase hex character of a nibble, as a one-character string.
fn hex_char_str(d: u128) -> (r: &'static str)
    requires
        d < 16,
    ensures
        r@ == seq![spec_hex_char(d)],
{
    proof {
        reveal_strlit("0");
        reveal_strlit("1");
        reveal_strlit("2");
        reveal_strlit("3");
        reveal_strlit("4");
        reveal_strlit("5");
        reveal_strlit("6");
        reveal_strlit("7");
        reveal_strlit("8");
        reveal_strlit("9");
        reveal_strlit("a");
        reveal_strlit("b");
        reveal_strlit("c");
        reveal_strlit("d");
        reveal_strlit("e");
        reveal_strlit("f");
    }
    if d == 0 {
        "0"
    } else if d == 1 {
        "1"
    } else if d == 2 {
        "2"
    } else if d == 3 {
        "3"
    } else if d == 4 {
        "4"
    } else if d == 5 {
        "5"
    } else if d == 6 {
        "6"
    } else if d == 7 {
        "7"
    } else if d == 8 {
        "8"
    } else if d == 9 {
        "9"
    } else if d == 10 {
        "a"
    } else if d == 11 {
        "b"
    } else if d == 12 {
        "c"
    } else if d == 13 {
        "d"
    } else if d == 14 {
        "e"
    } else {
        "f"
    }
}

impl EntityHandle {
    /// Create a new entity handle with the given identifier.
    pub fn new(uuid: u128) -> (r: EntityHandle)
        ensures
            r.uuid == uuid,
    {
        EntityHandle { uuid }
    }

    /// Generate a new random entity handle.
    pub fn generate() -> (r: EntityHandle)
        ensures
            (r.uuid >> 76) & 0xf == 4,
            (r.uuid >> 62) & 0x3 == 2,
    {
        EntityHandle { uuid: uuid_new_v4_u128() }
    }

    /// The canonical hyphenated lowercase-hex rendering of the identifier.
    pub fn id(&self) -> (r: String)
        ensures
            r@ == spec_uuid_chars(self.uuid),
    {
        let mut s = String::new();
        let mut i: usize = 0;
        proof {
            reveal_strlit("-");
        }
        while i < 36
            invariant
                0 <= i <= 36,
                s@ == spec_uuid_chars(self.uuid).take(i as int),
            decreases 36 - i,
        {
            if i == 8 || i == 13 || i == 18 || i == 23 {
                proof {
                    reveal_strlit("-");
                }
                s.append("-");
                proof {
                    assert(s@ =~= spec_uuid_chars(self.uuid).take(i + 1));
                }
            } else {
                let k: usize = if i < 8 {
                    i
                } else if i < 13 {
                    i - 1
                } else if i < 18 {
                    i - 2
                } else if i < 23 {
                    i - 3
                } else {
                    i - 4
                };
                let shift: u128 = ((31 - k) * 4) as u128;
                let u: u128 = self.uuid;
                let nibble: u128 = (u >> shift) & 0xf;
                proof {
                    assert(nibble < 16) by (bit_vector)
                        requires
                            nibble == (u >> shift) & 0xf,
                    ;
                    assert(nibble == spec_uuid_nibble(self.uuid, i - spec_hyphens_before(
                        i as int,
                    )));
                }
                s.append(hex_char_str(nibble));
                proof {
                    assert(s@ =~= spec_uuid_chars(self.uuid).take(i + 1));
                }
            }
            i += 1;
        }
        proof {
            assert(spec_uuid_chars(self.uuid).take(36) =~= spec_uuid_chars(self.uuid));
        }
        s
    }

    /// The first 8 characters of the canonical rendering.
    pub fn short_id(&self) -> (r: String)
        ensures
            r@ == spec_uuid_chars(self.uuid).take(8),
    {
        let full = self.id();
        let r = full.as_str().substring_char(0, 8);
        r.to_owned()
    }
}

} // verus!
