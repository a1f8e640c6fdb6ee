use vstd::prelude::*;

verus! {

/// `256` raised to the power `n`.
pub open spec fn pow256(n: nat) -> nat
    decreases n,
{
    if n == 0 {
        1
    } else {
        256 * pow256((n - 1) as nat)
    }
}

/// The little-endian value of the `n` bytes of `s` that start at offset `o`.
pub open spec fn le_val(s: Seq<u8>, o: int, n: nat) -> nat
    decreases n,
{
    if n == 0 {
        0
    } else {
        s[o] as nat + 256 * le_val(s, o + 1, (n - 1) as nat)
    }
}

/// `s` with the `n` little-endian bytes of `v` written from offset `o` on.
pub open spec fn put_le(s: Seq<u8>, o: int, n: nat, v: nat) -> Seq<u8>
    decreases n,
{
    if n == 0 {
        s
    } else {
        put_le(s.update(o, (v % 256) as u8), o + 1, (n - 1) as nat, v / 256)
    }
}

pub proof fn lemma_pow256_mono(a: nat, b: nat)
    requires
        a <= b,
    ensures
        pow256(a) <= pow256(b),
    decreases b,
{
    if a < b {
        lemma_pow256_mono(a, (b - 1) as nat);
    }
}

pub proof fn lemma_pow256_values()
    ensures
        pow256(4) == 0x1_0000_0000,
        pow256(7) == 0x100_0000_0000_0000,
        pow256(8) == 0x1_0000_0000_0000_0000,
{
    reveal_with_fuel(pow256, 9);
}

pub proof fn lemma_le_bound(s: Seq<u8>, o: int, n: nat)
    ensures
        le_val(s, o, n) < pow256(n),
    decreases n,
{
    if n > 0 {
        lemma_le_bound(s, o + 1, (n - 1) as nat);
    }
}

/// Two sequences that agree on a range of bytes read the same value there.
pub proof fn lemma_le_frame(s: Seq<u8>, t: Seq<u8>, o: int, n: nat)
    requires
        forall|i: int| o <= i < o + n ==> s[i] == t[i],
    ensures
        le_val(s, o, n) == le_val(t, o, n),
    decreases n,
{
    if n > 0 {
        lemma_le_frame(s, t, o + 1, (n - 1) as nat);
    }
}

/// Writing a value that fits reads back as that value and touches nothing else.
pub proof fn lemma_put_le(s: Seq<u8>, o: int, n: nat, v: nat)
    requires
        0 <= o,
        o + n <= s.len(),
        v < pow256(n),
    ensures
        put_le(s, o, n, v).len() == s.len(),
        le_val(put_le(s, o, n, v), o, n) == v,
        forall|i: int|
            0 <= i < s.len() && !(o <= i < o + n) ==> #[trigger] put_le(s, o, n, v)[i] == s[i],
    decreases n,
{
    if n > 0 {
        let s1 = s.update(o, (v % 256) as u8);
        assert(v / 256 < pow256((n - 1) as nat));
        lemma_put_le(s1, o + 1, (n - 1) as nat, v / 256);
        let r = put_le(s, o, n, v);
        assert(r == put_le(s1, o + 1, (n - 1) as nat, v / 256));
        assert(r[o] == s1[o]);
    }
}

/// Reads the `n` little-endian bytes of `s` that start at `o`.
pub fn read_le(s: &[u8], o: usize, n: usize) -> (r: u64)
    requires
        n <= 8,
        o + n <= s@.len(),
        o + n <= usize::MAX,
    ensures
        r as nat == le_val(s@, o as int, n as nat),
    decreases n,
{
    if n == 0 {
        0
    } else {
        let rest = read_le(s, o + 1, n - 1);
        proof {
            lemma_le_bound(s@, o + 1, (n - 1) as nat);
            lemma_pow256_mono((n - 1) as nat, 7);
            lemma_pow256_values();
        }
        s[o] as u64 + 256 * rest
    }
}

/// Writes `v` as `n` little-endian bytes into `s` from `o` on.
pub fn write_le(s: &mut Vec<u8>, o: usize, n: usize, v: u64)
    requires
        n <= 8,
        o + n <= old(s)@.len(),
        o + n <= usize::MAX,
        (v as nat) < pow256(n as nat),
    ensures
        final(s)@ == put_le(old(s)@, o as int, n as nat, v as nat),
    decreases n,
{
    if n > 0 {
        s[o] = (v % 256) as u8;
        assert(v / 256 < pow256((n - 1) as nat));
        write_le(s, o + 1, n - 1, v / 256);
    }
}

} // verus!
