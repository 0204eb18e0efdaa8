use vstd::prelude::*;

verus! {

/// Byte order of a multi-byte word in memory.
#[derive(Clone, Copy, Debug, PartialEq, Eq, Structural)]
pub enum Endian {
    Little,
    Big,
}

/// Value of `s` read with the most significant byte first.
pub open spec fn be_value(s: Seq<u8>) -> nat
    decreases s.len(),
{
    if s.len() == 0 {
        0
    } else {
        be_value(s.drop_last()) * 256 + s.last() as nat
    }
}

/// Value of `s` read with the least significant byte first.
pub open spec fn le_value(s: Seq<u8>) -> nat
    decreases s.len(),
{
    if s.len() == 0 {
        0
    } else {
        le_value(s.drop_first()) * 256 + s[0] as nat
    }
}

pub open spec fn word_value(s: Seq<u8>, e: Endian) -> nat {
    match e {
        Endian::Little => le_value(s),
        Endian::Big => be_value(s),
    }
}

/// The `n` low bytes of `v`, least significant first.
pub open spec fn le_bytes(v: nat, n: nat) -> Seq<u8>
    decreases n,
{
    if n == 0 {
        Seq::empty()
    } else {
        seq![(v % 256) as u8] + le_bytes(v / 256, (n - 1) as nat)
    }
}

/// The `n` low bytes of `v`, most significant first.
pub open spec fn be_bytes(v: nat, n: nat) -> Seq<u8>
    decreases n,
{
    if n == 0 {
        Seq::empty()
    } else {
        be_bytes(v / 256, (n - 1) as nat) + seq![(v % 256) as u8]
    }
}

pub open spec fn word_bytes(v: nat, n: nat, e: Endian) -> Seq<u8> {
    match e {
        Endian::Little => le_bytes(v, n),
        Endian::Big => be_bytes(v, n),
    }
}

/// `256` to the power `n`: the number of values that `n` bytes can hold.
pub open spec fn byte_range(n: nat) -> nat
    decreases n,
{
    if n == 0 {
        1
    } else {
        256 * byte_range((n - 1) as nat)
    }
}

proof fn lemma_byte_range_step(n: nat)
    requires
        n > 0,
    ensures
        byte_range(n) == 256 * byte_range((n - 1) as nat),
        byte_range((n - 1) as nat) > 0,
{
    lemma_byte_range_positive((n - 1) as nat);
}

proof fn lemma_byte_range_positive(n: nat)
    ensures
        byte_range(n) > 0,
    decreases n,
{
    if n > 0 {
        lemma_byte_range_positive((n - 1) as nat);
    }
}

/// More bytes hold at least as many values.
pub proof fn lemma_byte_range_mono(i: nat, j: nat)
    requires
        i <= j,
    ensures
        byte_range(i) <= byte_range(j),
    decreases j - i,
{
    if i < j {
        lemma_byte_range_mono(i, (j - 1) as nat);
        lemma_byte_range_positive((j - 1) as nat);
    }
}

/// Eight bytes hold exactly the `u64` values.
pub proof fn lemma_byte_range_eight()
    ensures
        byte_range(8) == 0x1_0000_0000_0000_0000,
{
    reveal_with_fuel(byte_range, 9);
}

proof fn lemma_le_value_bound(s: Seq<u8>)
    ensures
        le_value(s) < byte_range(s.len()),
    decreases s.len(),
{
    if s.len() == 0 {
    } else {
        lemma_le_value_bound(s.drop_first());
        lemma_byte_range_step(s.len());
        let a = le_value(s.drop_first());
        let m = byte_range((s.len() - 1) as nat);
        assert(a * 256 + s[0] < 256 * m) by (nonlinear_arith)
            requires
                a < m,
                s[0] < 256,
        ;
    }
}

proof fn lemma_be_value_bound(s: Seq<u8>)
    ensures
        be_value(s) < byte_range(s.len()),
    decreases s.len(),
{
    if s.len() == 0 {
    } else {
        lemma_be_value_bound(s.drop_last());
        lemma_byte_range_step(s.len());
        let a = be_value(s.drop_last());
        let m = byte_range((s.len() - 1) as nat);
        assert(a * 256 + s.last() < 256 * m) by (nonlinear_arith)
            requires
                a < m,
                s.last() < 256,
        ;
    }
}

proof fn lemma_mod_step(v: nat, n: nat)
    requires
        n > 0,
    ensures
        ((v / 256) % byte_range((n - 1) as nat)) * 256 + v % 256 == v % byte_range(n),
{
    lemma_byte_range_step(n);
    let m = byte_range((n - 1) as nat) as int;
    vstd::arithmetic::div_mod::lemma_mod_breakdown(v as int, 256, m);
    assert(256 * m == m * 256);
}

/// Encoding `v` in `n` bytes and decoding them gives back `v` modulo `256^n`.
pub proof fn lemma_word_round_trip(v: nat, n: nat, e: Endian)
    ensures
        word_bytes(v, n, e).len() == n,
        word_value(word_bytes(v, n, e), e) == v % byte_range(n),
    decreases n,
{
    if n == 0 {
    } else {
        lemma_word_round_trip(v / 256, (n - 1) as nat, e);
        lemma_mod_step(v, n);
        let b = (v % 256) as u8;
        match e {
            Endian::Little => {
                let s = le_bytes(v, n);
                assert(s.drop_first() =~= le_bytes(v / 256, (n - 1) as nat));
            },
            Endian::Big => {
                let s = be_bytes(v, n);
                assert(s.drop_last() =~= be_bytes(v / 256, (n - 1) as nat));
            },
        }
    }
}

/// Decodes a word from its bytes in the given byte order.
pub fn decode_word(bytes: &[u8], e: Endian) -> (r: u64)
    requires
        bytes@.len() <= 8,
    ensures
        r as nat == word_value(bytes@, e),
{
    let s = Ghost(bytes@);
    let n = bytes.len();
    let mut acc: u64 = 0;
    match e {
        Endian::Big => {
            let mut i: usize = 0;
            while i < n
                invariant
                    n == bytes@.len(),
                    n <= 8,
                    i <= n,
                    acc as nat == be_value(s@.take(i as int)),
                    s@ == bytes@,
                decreases n - i,
            {
                let pre = Ghost(s@.take(i as int));
                proof {
                    lemma_be_value_bound(pre@);
                    lemma_byte_range_mono(i as nat + 1, 8);
                    lemma_byte_range_eight();
                    assert(s@.take(i as int + 1).drop_last() =~= pre@);
                    let a = acc as int;
                    let m = byte_range(i as nat) as int;
                    assert(a * 256 + 255 < 256 * m) by (nonlinear_arith)
                        requires
                            a < m,
                    ;
                }
                acc = acc * 256 + bytes[i] as u64;
                i = i + 1;
            }
            assert(s@.take(n as int) =~= s@);
        },
        Endian::Little => {
            let mut i: usize = n;
            while i > 0
                invariant
                    n == bytes@.len(),
                    n <= 8,
                    i <= n,
                    acc as nat == le_value(s@.skip(i as int)),
                    s@ == bytes@,
                decreases i,
            {
                let pre = Ghost(s@.skip(i as int));
                proof {
                    lemma_le_value_bound(pre@);
                    lemma_byte_range_mono((n - i) as nat + 1, 8);
                    lemma_byte_range_eight();
                    assert(s@.skip(i as int - 1).drop_first() =~= pre@);
                    let a = acc as int;
                    let m = byte_range((n - i) as nat) as int;
                    assert(a * 256 + 255 < 256 * m) by (nonlinear_arith)
                        requires
                            a < m,
                    ;
                }
                acc = acc * 256 + bytes[i - 1] as u64;
                i = i - 1;
            }
            assert(s@.skip(0) =~= s@);
        },
    }
    acc
}

/// Encodes the `n` low bytes of `v` in the given byte order.
pub fn encode_word(v: u64, n: usize, e: Endian) -> (r: Vec<u8>)
    requires
        n <= 8,
    ensures
        r@ == word_bytes(v as nat, n as nat, e),
{
    let mut out: Vec<u8> = Vec::new();
    let mut k: usize = 0;
    while k < n
        invariant
            k <= n,
            out@ == Seq::new(k as nat, |j: int| 0u8),
        decreases n - k,
    {
        out.push(0);
        k = k + 1;
    }
    let mut i: usize = 0;
    let mut rest: u64 = v;
    while i < n
        invariant
            i <= n,
            n <= 8,
            out@.len() == n,
            e == Endian::Little ==> le_bytes(v as nat, n as nat) == out@.take(i as int) + le_bytes(
                rest as nat,
                (n - i) as nat,
            ),
            e == Endian::Big ==> be_bytes(v as nat, n as nat) == be_bytes(rest as nat, (n - i) as nat)
                + out@.skip(n - i),
        decreases n - i,
    {
        let b = (rest % 256) as u8;
        let ghost pre = out@;
        let idx: usize = match e {
            Endian::Little => i,
            Endian::Big => n - 1 - i,
        };
        out.set(idx, b);
        proof {
            match e {
                Endian::Little => {
                    assert(out@.take(i as int + 1) =~= pre.take(i as int) + seq![b]);
                },
                Endian::Big => {
                    assert(out@.skip(n - i - 1) =~= seq![b] + pre.skip(n - i));
                },
            }
        }
        rest = rest / 256;
        i = i + 1;
    }
    proof {
        assert(out@.take(n as int) =~= out@);
        assert(out@.skip(0) =~= out@);
    }
    out
}

} // verus!
