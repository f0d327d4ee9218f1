//! Surrogate identifiers: a fresh time-ordered id for a row's first
//! insertion, and the hyphenated textual form the transport layer sends.

use vstd::prelude::*;
use crate::text::{append_hex_char, hex_char};

verus! {

/// Relies on `uuid::Uuid::now_v7` and `Uuid::as_u128`: a fresh version-7
/// UUID drawn from the current time and process-local randomness, read as a
/// big-endian 128-bit number. Nothing about its value can be promised
/// beyond the fixed format bits: the version nibble is 7 and the variant
/// bits are binary 10.
#[verifier::external_body]
pub fn fresh_company_id() -> (r: u128)
    ensures
        (r >> 76) & 0xf == 7,
        (r >> 62) & 0x3 == 2,
{
    uuid::Uuid::now_v7().as_u128()
}

/// The hexadecimal digit at position `i` (most significant first) of a
/// 128-bit identifier.
pub open spec fn uuid_nibble(id: u128, i: int) -> nat {
    ((id >> (((31 - i) * 4) as u128)) & 0xf) as nat
}

/// The hex digits of `id` from position `from` (inclusive) to `to`
/// (exclusive), most significant first.
pub open spec fn spec_hex_group(id: u128, from: int, to: int) -> Seq<char>
    decreases to - from,
{
    if from >= to {
        Seq::empty()
    } else {
        seq![hex_char(uuid_nibble(id, from))] + spec_hex_group(id, from + 1, to)
    }
}

/// A hex group grows at its end.
proof fn lemma_hex_group_snoc(id: u128, from: int, to: int)
    requires
        from <= to,
    ensures
        spec_hex_group(id, from, to + 1) == spec_hex_group(id, from, to) + seq![
            hex_char(uuid_nibble(id, to)),
        ],
    decreases to - from,
{
    if from == to {
        assert(spec_hex_group(id, to + 1, to + 1) =~= Seq::<char>::empty());
        assert(spec_hex_group(id, from, to) =~= Seq::<char>::empty());
        assert(spec_hex_group(id, from, to + 1) =~= spec_hex_group(id, from, to) + seq![
            hex_char(uuid_nibble(id, to)),
        ]);
    } else {
        lemma_hex_group_snoc(id, from + 1, to);
        assert(spec_hex_group(id, from, to + 1) =~= spec_hex_group(id, from, to) + seq![
            hex_char(uuid_nibble(id, to)),
        ]);
    }
}

/// The hyphenated form of a 128-bit identifier: 32 lower-case hex digits in
/// groups of 8, 4, 4, 4 and 12, separated by hyphens.
pub open spec fn spec_uuid_hyphenated(id: u128) -> Seq<char> {
    spec_hex_group(id, 0, 8) + seq!['-'] + spec_hex_group(id, 8, 12) + seq!['-'] + spec_hex_group(
        id,
        12,
        16,
    ) + seq!['-'] + spec_hex_group(id, 16, 20) + seq!['-'] + spec_hex_group(id, 20, 32)
}

/// Appends the hex digits of `id` from position `from` to `to`.
fn append_hex_group(r: &mut String, id: u128, from: usize, to: usize)
    requires
        from <= to <= 32,
    ensures
        final(r)@ == old(r)@ + spec_hex_group(id, from as int, to as int),
{
    let mut i: usize = from;
    while i < to
        invariant
            from <= i <= to <= 32,
            r@ == old(r)@ + spec_hex_group(id, from as int, i as int),
        decreases to - i,
    {
        let shift: u128 = ((31 - i) as u128) * 4;
        let masked: u128 = (id >> shift) & 0xf;
        proof {
            assert(masked < 16) by (bit_vector)
                requires
                    masked == (id >> shift) & 0xf,
            ;
            assert(shift == (((31 - i as int) * 4) as u128));
            lemma_hex_group_snoc(id, from as int, i as int);
        }
        let nibble: u8 = masked as u8;
        append_hex_char(r, nibble);
        i = i + 1;
    }
}

/// Renders a 128-bit identifier in its hyphenated textual form.
pub fn uuid_hyphenated(id: u128) -> (r: String)
    ensures
        r@ == spec_uuid_hyphenated(id),
{
    let mut r = String::new();
    append_hex_group(&mut r, id, 0, 8);
    r.append("-");
    append_hex_group(&mut r, id, 8, 12);
    r.append("-");
    append_hex_group(&mut r, id, 12, 16);
    r.append("-");
    append_hex_group(&mut r, id, 16, 20);
    r.append("-");
    append_hex_group(&mut r, id, 20, 32);
    proof {
        reveal_strlit("-");
        assert(r@ =~= spec_uuid_hyphenated(id));
    }
    r
}

} // verus!
