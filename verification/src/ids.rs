//! Identifiers: random (version 4) UUIDs, held as `u128`, and their
//! canonical text form.

use vstd::prelude::*;

verus! {

/// The UUID carries the version-4 and RFC 4122 variant markers.
pub open spec fn is_v4(id: u128) -> bool {
    &&& (id >> 76u128) & 0xfu128 == 4
    &&& (id >> 62u128) & 0x3u128 == 2
}

/// A fresh random UUID, as its 128-bit big-endian value.
///
/// Calls `uuid::Uuid::new_v4` and reads it back with `as_u128`. The value is
/// random; what the contract claims is what the uuid source sets in every
/// value it makes: the version nibble (4) and the variant bits (binary 10).
#[verifier::external_body]
pub(crate) fn new_v4() -> (id: u128)
    ensures
        is_v4(id),
{
    uuid::Uuid::new_v4().as_u128()
}

/// The `i`-th hexadecimal digit of `id`, counting from the most significant.
pub open spec fn nibble(id: u128, i: int) -> u128 {
    (id >> ((124 - 4 * i) as u128)) & 0xfu128
}

/// The lowercase hexadecimal character of a digit below 16.
pub open spec fn hex_char(d: int) -> char {
    if d < 10 {
        (48 + d) as char
    } else {
        (87 + d) as char
    }
}

/// Positions of the four hyphens in the text form.
pub open spec fn is_hyphen_pos(p: int) -> bool {
    p == 8 || p == 13 || p == 18 || p == 23
}

/// The index of the digit shown at position `p` of the text form.
pub open spec fn digit_at(p: int) -> int {
    if p < 8 {
        p
    } else if p < 13 {
        p - 1
    } else if p < 18 {
        p - 2
    } else if p < 23 {
        p - 3
    } else {
        p - 4
    }
}

/// The canonical text form of a UUID: 32 lowercase hex digits, most
/// significant first, in groups of 8-4-4-4-12 joined by hyphens.
pub open spec fn hyphenated(id: u128) -> Seq<char> {
    Seq::new(36, |p: int| if is_hyphen_pos(p) { '-' } else { hex_char(nibble(id, digit_at(p)) as int) })
}

fn hex_str(d: u8) -> (s: &'static str)
    requires
        d < 16,
    ensures
        s@ == seq![hex_char(d as int)],
{
    proof {
        reveal_strlit("0");
        reveal_strlit("1");
        reveal_strlit("2");
        reveal_strlit("3");
        reveal_strlit("4");
        reveal_strlit("5");
        reveal_strlit("6");
        reveal_strlit("7");
        reveal_strlit("8");
        reveal_strlit("9");
        reveal_strlit("a");
        reveal_strlit("b");
        reveal_strlit("c");
        reveal_strlit("d");
        reveal_strlit("e");
        reveal_strlit("f");
    }
    match d {
        0 => "0",
        1 => "1",
        2 => "2",
        3 => "3",
        4 => "4",
        5 => "5",
        6 => "6",
        7 => "7",
        8 => "8",
        9 => "9",
        10 => "a",
        11 => "b",
        12 => "c",
        13 => "d",
        14 => "e",
        _ => "f",
    }
}

/// The canonical (hyphenated, lowercase) text form of a UUID, as the uuid
/// crate's `Display` writes it.
pub fn uuid_to_string(id: u128) -> (s: String)
    ensures
        s@ == hyphenated(id),
{
    let mut s = String::new();
    let mut i: usize = 0;
    while i < 32
        invariant
            i <= 32,
            s@.len() == i + (if i > 20 { 4int } else if i > 16 { 3int } else if i > 12 { 2int } else if i > 8 { 1int } else { 0int }),
            forall|p: int| 0 <= p < s@.len() ==> #[trigger] s@[p] == hyphenated(id)[p],
        decreases 32 - i,
    {
        let ghost before = s@;
        if i == 8 || i == 12 || i == 16 || i == 20 {
            s.append("-");
            proof {
                reveal_strlit("-");
            }
            assert(s@ =~= before.push('-'));
        }
        let ghost mid = s@;
        assert(is_hyphen_pos(before.len() as int) <==> (i == 8 || i == 12 || i == 16 || i == 20));
        assert(!is_hyphen_pos(mid.len() as int) && digit_at(mid.len() as int) == i);
        let shift: u128 = (124 - 4 * i) as u128;
        let d: u128 = (id >> shift) & 0xf;
        assert(d < 16) by (bit_vector)
            requires
                d == (id >> shift) & 0xf,
        ;
        assert(d == nibble(id, i as int));
        s.append(hex_str(d as u8));
        assert(s@ =~= mid.push(hex_char(d as int)));
        i = i + 1;
    }
    assert(s@ =~= hyphenated(id));
    s
}

} // verus!
