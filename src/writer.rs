use vstd::prelude::*;

use crate::bytes::{le_val, lemma_le_frame, lemma_pow256_values, lemma_put_le, put_le, write_le};
use crate::pc::{
    comp_at, comp_offset, info_at, key_at, price_at, Price, PriceInfo, PythError, PRICE_SIZE,
};

verus! {

/// Offset of the aggregate price in a price account.
pub const AGG_PRICE_OFFSET: usize = 208;

/// `p` with its aggregate price replaced by `v`.
pub open spec fn with_agg_price(p: Price, v: i64) -> Price {
    Price { agg: PriceInfo { price: v, ..p.agg }, ..p }
}

/// The encoding `s` with the aggregate price replaced by `v`.
pub open spec fn put_agg_price(s: Seq<u8>, v: i64) -> Seq<u8> {
    put_le(s, AGG_PRICE_OFFSET as int, 8, v as u64 as nat)
}

impl Price {
    /// Writes a new aggregate price into the encoded price account `data`, in
    /// place, so that the next decoding of `data` sees it.
    pub fn set_agg_price(data: &mut Vec<u8>, price: i64) -> (r: Result<(), PythError>)
        ensures
            match r {
                Ok(_) => old(data)@.len() >= PRICE_SIZE && final(data)@ == put_agg_price(
                    old(data)@,
                    price,
                ),
                Err(e) => old(data)@.len() < PRICE_SIZE && e == PythError::SizeMismatch
                    && final(data)@ == old(data)@,
            },
    {
        if data.len() < PRICE_SIZE {
            return Err(PythError::SizeMismatch);
        }
        proof {
            lemma_pow256_values();
        }
        write_le(data, AGG_PRICE_OFFSET, 8, price as u64);
        Ok(())
    }
}

proof fn lemma_info_frame(p: PriceInfo, s: Seq<u8>, t: Seq<u8>, o: int)
    requires
        info_at(p, s, o),
        forall|i: int| o <= i < o + 32 ==> s[i] == t[i],
    ensures
        info_at(p, t, o),
{
    lemma_le_frame(s, t, o, 8);
    lemma_le_frame(s, t, o + 8, 8);
    lemma_le_frame(s, t, o + 16, 4);
    lemma_le_frame(s, t, o + 24, 8);
}

/// Decoding a price account after its aggregate price was overwritten gives
/// the record decoded before, with only that price changed to the new value.
pub proof fn lemma_agg_price_write_observed(p: Price, s: Seq<u8>, v: i64)
    requires
        s.len() >= PRICE_SIZE,
        price_at(p, s),
    ensures
        price_at(with_agg_price(p, v), put_agg_price(s, v)),
{
    let t = put_agg_price(s, v);
    lemma_pow256_values();
    lemma_put_le(s, 208, 8, v as u64 as nat);
    assert(forall|i: int| 0 <= i < s.len() && !(208 <= i < 216) ==> s[i] == t[i]);
    let offs4: Seq<int> = seq![0, 4, 8, 12, 16, 20, 24, 28];
    let offs8: Seq<int> = seq![32, 40, 48, 56, 64, 72, 80, 88, 96, 104];
    assert forall|k: int| 0 <= k < 8 implies le_val(s, #[trigger] offs4[k], 4) == le_val(
        t,
        offs4[k],
        4,
    ) by {
        lemma_le_frame(s, t, offs4[k], 4);
    }
    assert forall|k: int| 0 <= k < 10 implies le_val(s, #[trigger] offs8[k], 8) == le_val(
        t,
        offs8[k],
        8,
    ) by {
        lemma_le_frame(s, t, offs8[k], 8);
    }
    assert(offs4[0] == 0 && offs4[1] == 4 && offs4[2] == 8 && offs4[3] == 12);
    assert(offs4[4] == 16 && offs4[5] == 20 && offs4[6] == 24 && offs4[7] == 28);
    assert(offs8[0] == 32 && offs8[1] == 40 && offs8[2] == 48 && offs8[3] == 56);
    assert(offs8[4] == 64 && offs8[5] == 72 && offs8[6] == 80 && offs8[7] == 88);
    assert(offs8[8] == 96 && offs8[9] == 104);
    assert(t.subrange(112, 144) =~= s.subrange(112, 144));
    assert(t.subrange(144, 176) =~= s.subrange(144, 176));
    assert(t.subrange(176, 208) =~= s.subrange(176, 208));
    lemma_le_frame(s, t, 216, 8);
    lemma_le_frame(s, t, 224, 4);
    lemma_le_frame(s, t, 232, 8);
    let u = v as u64;
    assert(u as i64 == v) by (bit_vector)
        requires
            u == v as u64,
    ;
    assert forall|i: int| 0 <= i < 32 implies comp_at(
        #[trigger] with_agg_price(p, v).comp@[i],
        t,
        comp_offset(i),
    ) by {
        let o = comp_offset(i);
        let c = p.comp@[i];
        assert(comp_at(c, s, o));
        assert(t.subrange(o, o + 32) =~= s.subrange(o, o + 32));
        lemma_info_frame(c.agg, s, t, o + 32);
        lemma_info_frame(c.latest, s, t, o + 64);
    }
}

} // verus!
