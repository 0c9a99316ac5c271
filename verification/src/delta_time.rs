//! Delta-times: the variable-length quantity that precedes every event.

use crate::bytes::data_bytes;
use crate::random::{total_weight, uniform_bytes, weighted};
use vstd::prelude::*;

verus! {

/// Bit 7 of `b` is set: another byte of the quantity follows.
pub open spec fn continues(b: u8) -> bool {
    b & 0x80 == 0x80
}

/// `bytes` is a variable-length quantity of one to four bytes: every byte but
/// the last announces a successor, the last does not.
pub open spec fn is_vlq(bytes: Seq<u8>) -> bool {
    &&& 1 <= bytes.len() <= 4
    &&& forall|i: int| 0 <= i < bytes.len() - 1 ==> continues(#[trigger] bytes[i])
    &&& !continues(bytes.last())
}

/// The variable-length quantity whose 7-bit groups are `septets`, most
/// significant group first: the continuation bit is set on every byte but the
/// last.
pub open spec fn vlq_bytes(septets: Seq<u8>) -> Seq<u8> {
    Seq::new(
        septets.len(),
        |i: int|
            if i < septets.len() - 1 {
                septets[i] | 0x80
            } else {
                septets[i]
            },
    )
}

/// The number of ticks that a variable-length quantity spells: its 7-bit groups
/// read as digits in base 128, most significant first.
pub open spec fn vlq_ticks(bytes: Seq<u8>) -> nat
    decreases bytes.len(),
{
    if bytes.len() == 0 {
        0
    } else {
        vlq_ticks(bytes.drop_last()) * 128 + (bytes.last() & 0x7F) as nat
    }
}

/// 128 to the power of `n`: the count of numbers that `n` 7-bit groups can spell.
pub open spec fn septet_capacity(n: nat) -> nat
    decreases n,
{
    if n == 0 {
        1
    } else {
        septet_capacity((n - 1) as nat) * 128
    }
}

/// The number that a quantity spells fits the payload bits of its bytes.
pub proof fn lemma_ticks_fit(bytes: Seq<u8>)
    ensures
        vlq_ticks(bytes) < septet_capacity(bytes.len()),
    decreases bytes.len(),
{
    if bytes.len() > 0 {
        lemma_ticks_fit(bytes.drop_last());
        let last: u8 = bytes.last();
        assert(last & 0x7F < 128) by (bit_vector);
    }
}

/// Setting continuation bits on 7-bit groups gives a well-formed quantity.
pub proof fn lemma_vlq_bytes_well_formed(septets: Seq<u8>)
    requires
        1 <= septets.len() <= 4,
        data_bytes(septets),
    ensures
        is_vlq(vlq_bytes(septets)),
{
    let bytes = vlq_bytes(septets);
    assert forall|i: int| 0 <= i < bytes.len() - 1 implies continues(#[trigger] bytes[i]) by {
        let s: u8 = septets[i];
        assert((s | 0x80) & 0x80 == 0x80) by (bit_vector);
    }
    let last: u8 = septets.last();
    assert(last & 0x80 != 0x80) by (bit_vector)
        requires
            last < 128,
    ;
}

/// A delta-time: the bytes of one variable-length quantity.
#[derive(Debug)]
pub struct DeltaTime {
    pub data: Vec<u8>,
}

impl DeltaTime {
    /// The bytes form a variable-length quantity of one to four bytes.
    pub open spec fn well_formed(&self) -> bool {
        is_vlq(self.data@)
    }

    /// The delta-time whose 7-bit groups are `septets`, most significant first.
    pub fn from_septets(septets: Vec<u8>) -> (delta: DeltaTime)
        requires
            1 <= septets.len() <= 4,
            data_bytes(septets@),
        ensures
            delta.data@ == vlq_bytes(septets@),
            delta.well_formed(),
    {
        let mut bytes = septets;
        let last: usize = bytes.len() - 1;
        let mut i: usize = 0;
        while i < last
            invariant
                last == septets.len() - 1,
                i <= last,
                bytes.len() == septets.len(),
                forall|j: int| 0 <= j < i ==> bytes[j] == septets[j] | 0x80,
                forall|j: int| i <= j < bytes.len() ==> bytes[j] == septets[j],
            decreases last - i,
        {
            let group: u8 = bytes[i];
            bytes.set(i, group | 0x80);
            i = i + 1;
        }
        proof {
            assert(bytes@ =~= vlq_bytes(septets@));
            lemma_vlq_bytes_well_formed(septets@);
        }
        DeltaTime { data: bytes }
    }

    /// The number of ticks that the bytes spell.
    pub fn ticks(&self) -> (ticks: u32)
        requires
            self.well_formed(),
        ensures
            ticks == vlq_ticks(self.data@),
            ticks < 0x1000_0000,
    {
        let mut ticks: u32 = 0;
        let mut i: usize = 0;
        while i < self.data.len()
            invariant
                i <= self.data.len() <= 4,
                ticks == vlq_ticks(self.data@.take(i as int)),
                ticks < septet_capacity(i as nat),
            decreases self.data.len() - i,
        {
            let byte: u8 = self.data[i];
            let group: u8 = byte & 0x7F;
            proof {
                reveal_with_fuel(septet_capacity, 5);
                assert(byte & 0x7F < 128) by (bit_vector);
                assert(self.data@.take(i + 1).drop_last() =~= self.data@.take(i as int));
            }
            ticks = ticks * 128 + group as u32;
            i = i + 1;
        }
        proof {
            reveal_with_fuel(septet_capacity, 5);
            assert(self.data@.take(i as int) =~= self.data@);
        }
        ticks
    }
}

/// A delta-time of random length and content: one byte in 80 cases of 100, two
/// in 12, three in 6 and four in 2, every 7-bit group drawn uniformly.
///
/// The bytes are a well-formed quantity; no tick count is chosen beforehand, so
/// the number they spell is whatever the groups happen to give.
pub fn create_delta_time() -> (delta: DeltaTime)
    ensures
        delta.well_formed(),
{
    let choices: Vec<usize> = vec![1, 2, 3, 4];
    let weights: Vec<u32> = vec![80, 12, 6, 2];
    proof {
        let w = weights@;
        reveal_with_fuel(total_weight, 5);
        assert(w.drop_last() =~= seq![80u32, 12u32, 6u32]);
        assert(w.drop_last().drop_last() =~= seq![80u32, 12u32]);
        assert(w.drop_last().drop_last().drop_last() =~= seq![80u32]);
        assert(w.drop_last().drop_last().drop_last().drop_last() =~= Seq::<u32>::empty());
        assert(total_weight(w) == 100);
    }
    let nbytes: usize = weighted(&choices, &weights);
    let septets = uniform_bytes(nbytes, 0, 128);
    DeltaTime::from_septets(septets)
}

} // verus!
