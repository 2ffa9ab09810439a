//! Little-endian integers as account data stores them.
use vstd::arithmetic::div_mod::*;
use vstd::prelude::*;

verus! {

/// `256` to the power `n`.
pub open spec fn pow256(n: nat) -> nat
    decreases n,
{
    if n == 0 {
        1
    } else {
        256 * pow256((n - 1) as nat)
    }
}

/// The number that `bytes` spell with the least significant byte first.
pub open spec fn le_value(bytes: Seq<u8>) -> nat
    decreases bytes.len(),
{
    if bytes.len() == 0 {
        0
    } else {
        bytes[0] as nat + 256 * le_value(bytes.drop_first())
    }
}

/// The `n` bytes of `value`, least significant first (the high bytes that
/// do not fit are dropped).
pub open spec fn le_bytes(value: nat, n: nat) -> Seq<u8> {
    Seq::new(n, |i: int| ((value / pow256(i as nat)) % 256) as u8)
}

/// A value read as a two's-complement signed integer of `n` bytes.
pub open spec fn signed_of(value: nat, n: nat) -> int {
    if value >= pow256(n) / 2 {
        value - pow256(n)
    } else {
        value as int
    }
}

/// The unsigned `n`-byte pattern of a two's-complement signed integer.
pub open spec fn unsigned_of(value: int, n: nat) -> nat {
    if value < 0 {
        (value + pow256(n)) as nat
    } else {
        value as nat
    }
}

pub proof fn lemma_pow256_positive(n: nat)
    ensures
        pow256(n) > 0,
    decreases n,
{
    if n > 0 {
        lemma_pow256_positive((n - 1) as nat);
    }
}

pub proof fn lemma_pow256_values()
    ensures
        pow256(1) == 0x100,
        pow256(4) == 0x1_0000_0000,
        pow256(8) == 0x1_0000_0000_0000_0000,
{
    reveal_with_fuel(pow256, 9);
}

/// A value of `n` bytes is below `256^n`.
pub proof fn lemma_le_value_bound(bytes: Seq<u8>)
    ensures
        le_value(bytes) < pow256(bytes.len()),
    decreases bytes.len(),
{
    if bytes.len() > 0 {
        lemma_le_value_bound(bytes.drop_first());
    }
}

/// Reading back the bytes of a value gives the value, when it fits.
pub proof fn lemma_le_roundtrip(value: nat, n: nat)
    requires
        value < pow256(n),
    ensures
        le_value(le_bytes(value, n)) == value,
    decreases n,
{
    if n == 0 {
    } else {
        let rest = (value / 256) as nat;
        assert(pow256(0) == 1);
        assert(value / pow256(0) == value);
        assert(le_bytes(value, n)[0] == (value % 256) as u8);
        assert(le_bytes(value, n).drop_first() =~= le_bytes(rest, (n - 1) as nat)) by {
            assert forall|i: int| 0 <= i < n - 1 implies #[trigger] le_bytes(
                value,
                n,
            ).drop_first()[i] == le_bytes(rest, (n - 1) as nat)[i] by {
                lemma_pow256_positive(i as nat);
                lemma_div_denominator(value as int, 256, pow256(i as nat) as int);
            }
        }
        assert(rest < pow256((n - 1) as nat)) by {
            lemma_fundamental_div_mod(value as int, 256);
        }
        lemma_le_roundtrip(rest, (n - 1) as nat);
        lemma_fundamental_div_mod(value as int, 256);
    }
}

/// Taking a prefix byte off a window of a sequence.
pub proof fn lemma_le_value_step(data: Seq<u8>, lo: int, hi: int)
    requires
        0 <= lo < hi <= data.len(),
    ensures
        le_value(data.subrange(lo, hi)) == data[lo] as nat + 256 * le_value(
            data.subrange(lo + 1, hi),
        ),
{
    assert(data.subrange(lo, hi).drop_first() =~= data.subrange(lo + 1, hi));
}

/// Reads the unsigned integer of `n` bytes at `at`.
pub fn read_le(data: &[u8], at: usize, n: usize) -> (value: u64)
    requires
        n <= 8,
        at + n <= data@.len(),
    ensures
        value == le_value(data@.subrange(at as int, at + n)),
{
    let len = data.len();
    let mut value: u64 = 0;
    let mut i: usize = n;
    proof {
        lemma_pow256_values();
    }
    while i > 0
        invariant
            n <= 8,
            len == data@.len(),
            at + n <= data@.len(),
            i <= n,
            value == le_value(data@.subrange(at + i, at + n)),
            pow256(8) == 0x1_0000_0000_0000_0000,
        decreases i,
    {
        proof {
            lemma_le_value_step(data@, at + i - 1, at + n);
            lemma_le_value_bound(data@.subrange(at + i - 1, at + n));
            lemma_pow256_monotone((n - i + 1) as nat, 8);
        }
        let b = data[at + (i - 1)];
        value = value * 256 + b as u64;
        i = i - 1;
    }
    value
}

pub proof fn lemma_pow256_monotone(a: nat, b: nat)
    requires
        a <= b,
    ensures
        pow256(a) <= pow256(b),
    decreases b,
{
    if a < b {
        lemma_pow256_monotone(a, (b - 1) as nat);
    }
}

/// Appends the `n` bytes of `value`, least significant first.
pub fn write_le(out: &mut Vec<u8>, value: u64, n: usize)
    requires
        n <= 8,
    ensures
        final(out)@ == old(out)@ + le_bytes(value as nat, n as nat),
{
    let mut rest = value;
    let mut i: usize = 0;
    assert(pow256(0) == 1);
    while i < n
        invariant
            i <= n,
            out@ == old(out)@ + le_bytes(value as nat, i as nat),
            rest == value as nat / pow256(i as nat),
        decreases n - i,
    {
        let ghost before = out@;
        out.push((rest % 256) as u8);
        proof {
            lemma_pow256_positive(i as nat);
            lemma_div_denominator(value as int, pow256(i as nat) as int, 256);
            assert(pow256(i as nat) * 256 == pow256((i + 1) as nat));
            assert(out@ =~= old(out)@ + le_bytes(value as nat, (i + 1) as nat));
        }
        rest = rest / 256;
        i = i + 1;
    }
}

} // verus!
