//! Big-endian integer fields.

use vstd::prelude::*;

verus! {

/// Every byte has its high bit clear: it is a 7-bit value.
pub open spec fn data_bytes(bytes: Seq<u8>) -> bool {
    forall|i: int| 0 <= i < bytes.len() ==> bytes[i] < 128
}

/// The two bytes of `x`, high byte first.
pub open spec fn be_u16(x: u16) -> Seq<u8> {
    seq![(x / 0x100) as u8, (x % 0x100) as u8]
}

/// The three low bytes of `x`, high byte first.
pub open spec fn be_u24(x: u32) -> Seq<u8> {
    seq![(x / 0x1_0000 % 0x100) as u8, (x / 0x100 % 0x100) as u8, (x % 0x100) as u8]
}

/// The four bytes of `x`, high byte first.
pub open spec fn be_u32(x: u32) -> Seq<u8> {
    seq![
        (x / 0x100_0000) as u8,
        (x / 0x1_0000 % 0x100) as u8,
        (x / 0x100 % 0x100) as u8,
        (x % 0x100) as u8,
    ]
}

/// The number that `bytes` spell when read high byte first.
pub open spec fn be_value(bytes: Seq<u8>) -> nat
    decreases bytes.len(),
{
    if bytes.len() == 0 {
        0
    } else {
        be_value(bytes.drop_last()) * 0x100 + bytes.last() as nat
    }
}

/// Reading back a big-endian field gives the number that was written.
pub proof fn lemma_be_round_trip(x: u32)
    ensures
        x < 0x1_0000 ==> be_value(be_u16(x as u16)) == x,
        x < 0x100_0000 ==> be_value(be_u24(x)) == x,
        be_value(be_u32(x)) == x,
{
    reveal_with_fuel(be_value, 5);
    let s4 = be_u32(x);
    assert(s4.drop_last() =~= seq![s4[0], s4[1], s4[2]]);
    assert(s4.drop_last().drop_last() =~= seq![s4[0], s4[1]]);
    assert(s4.drop_last().drop_last().drop_last() =~= seq![s4[0]]);
    assert(s4.drop_last().drop_last().drop_last().drop_last() =~= Seq::<u8>::empty());
    let s3 = be_u24(x);
    assert(s3.drop_last() =~= seq![s3[0], s3[1]]);
    assert(s3.drop_last().drop_last() =~= seq![s3[0]]);
    assert(s3.drop_last().drop_last().drop_last() =~= Seq::<u8>::empty());
    if x < 0x1_0000 {
        let s2 = be_u16(x as u16);
        assert(s2.drop_last() =~= seq![s2[0]]);
        assert(s2.drop_last().drop_last() =~= Seq::<u8>::empty());
    }
}

/// Appends `x` to `out` as two bytes, high byte first.
pub fn push_be_u16(out: &mut Vec<u8>, x: u16)
    ensures
        final(out)@ == old(out)@ + be_u16(x),
{
    out.push((x / 0x100) as u8);
    out.push((x % 0x100) as u8);
    assert(out@ =~= old(out)@ + be_u16(x));
}

/// Appends `x` to `out` as four bytes, high byte first.
pub fn push_be_u32(out: &mut Vec<u8>, x: u32)
    ensures
        final(out)@ == old(out)@ + be_u32(x),
{
    out.push((x / 0x100_0000) as u8);
    out.push((x / 0x1_0000 % 0x100) as u8);
    out.push((x / 0x100 % 0x100) as u8);
    out.push((x % 0x100) as u8);
    assert(out@ =~= old(out)@ + be_u32(x));
}

/// Appends a copy of `bytes` to `out`.
pub fn push_all(out: &mut Vec<u8>, bytes: &Vec<u8>)
    ensures
        final(out)@ == old(out)@ + bytes@,
{
    let mut i: usize = 0;
    while i < bytes.len()
        invariant
            i <= bytes.len(),
            out@ == old(out)@ + bytes@.take(i as int),
        decreases bytes.len() - i,
    {
        out.push(bytes[i]);
        i = i + 1;
        assert(out@ =~= old(out)@ + bytes@.take(i as int));
    }
    assert(bytes@.take(i as int) =~= bytes@);
}

/// Appends the four bytes of a chunk identifier to `out`.
pub fn push_tag(out: &mut Vec<u8>, tag: &[u8; 4])
    ensures
        final(out)@ == old(out)@ + tag@,
{
    let mut i: usize = 0;
    while i < 4
        invariant
            i <= 4,
            out@ == old(out)@ + tag@.take(i as int),
        decreases 4 - i,
    {
        out.push(tag[i]);
        i = i + 1;
        assert(out@ =~= old(out)@ + tag@.take(i as int));
    }
    assert(tag@.take(i as int) =~= tag@);
}

} // verus!
