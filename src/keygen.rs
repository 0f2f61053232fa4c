//! Fixed-width random keys and values drawn from a seeded generator.
use vstd::prelude::*;

verus! {

#[verifier::external_type_specification]
#[verifier::external_body]
pub struct ExPcg64(rand_pcg::Lcg128Xsl64);

/// First byte of every generated buffer.
pub const TAG_FIRST: u8 = 0x33;

/// Second byte of every generated buffer.
pub const TAG_SECOND: u8 = 0x66;

/// A seeded PCG-64 generator with a record of how it was seeded and of the
/// draws made from it. Only this module's wrappers draw from it, and they
/// alone keep the record.
pub struct Generator {
    rng: rand_pcg::Lcg128Xsl64,
    seed: Ghost<u64>,
    drawn: Ghost<Seq<u8>>,
    calls: Ghost<Seq<(u32, u32)>>,
}

impl Generator {
    /// The seed the generator was built from.
    pub closed spec fn seed(&self) -> u64 {
        self.seed@
    }

    /// Every byte drawn one at a time so far, oldest first.
    pub closed spec fn drawn(&self) -> Seq<u8> {
        self.drawn@
    }

    /// Every draw made so far, oldest first: `byte_draw()` for a byte, the
    /// bounds for a draw from a range.
    pub closed spec fn calls(&self) -> Seq<(u32, u32)> {
        self.calls@
    }
}

/// The record of a single-byte draw; no range draw has these bounds.
pub open spec fn byte_draw() -> (u32, u32) {
    (0, 0)
}

/// The byte that a PCG-64 generator seeded with `seed` returns after the
/// draws `calls`.
pub uninterp spec fn pcg_byte(seed: u64, calls: Seq<(u32, u32)>) -> u8;

/// The value in `low..high` that a PCG-64 generator seeded with `seed`
/// returns after the draws `calls`.
pub uninterp spec fn pcg_in_range(seed: u64, calls: Seq<(u32, u32)>, low: u32, high: u32) -> u32;

/// The `n` bytes drawn one at a time from a generator seeded with `seed`
/// after the draws `calls`.
pub open spec fn byte_draws(seed: u64, calls: Seq<(u32, u32)>, n: nat) -> Seq<u8>
    decreases n,
{
    if n == 0 {
        Seq::empty()
    } else {
        byte_draws(seed, calls, (n - 1) as nat).push(
            pcg_byte(seed, calls + Seq::new((n - 1) as nat, |i: int| byte_draw())),
        )
    }
}

/// The draw record after `n` more single-byte draws.
pub open spec fn after_bytes(calls: Seq<(u32, u32)>, n: nat) -> Seq<(u32, u32)> {
    calls + Seq::new(n, |i: int| byte_draw())
}

/// A buffer of at least two bytes whose first two bytes are the tag.
pub open spec fn tagged(b: Seq<u8>) -> bool {
    &&& b.len() >= 2
    &&& b[0] == TAG_FIRST
    &&& b[1] == TAG_SECOND
}

/// `b` with its first two bytes replaced by the tag.
pub open spec fn with_tag(b: Seq<u8>) -> Seq<u8>
    recommends
        b.len() >= 2,
{
    b.update(0, TAG_FIRST).update(1, TAG_SECOND)
}

/// The bytes that `g1` drew after the state `g0`.
pub open spec fn draws_between(g0: Generator, g1: Generator) -> Seq<u8> {
    g1.drawn().subrange(g0.drawn().len() as int, g1.drawn().len() as int)
}

proof fn lemma_after_bytes_zero(calls: Seq<(u32, u32)>)
    ensures
        after_bytes(calls, 0) == calls,
{
    assert(after_bytes(calls, 0) =~= calls);
}

proof fn lemma_after_bytes_push(calls: Seq<(u32, u32)>, n: nat)
    ensures
        after_bytes(calls, n + 1) == after_bytes(calls, n).push(byte_draw()),
{
    assert(after_bytes(calls, n + 1) =~= after_bytes(calls, n).push(byte_draw()));
}

proof fn lemma_after_bytes_add(calls: Seq<(u32, u32)>, a: nat, b: nat)
    ensures
        after_bytes(after_bytes(calls, a), b) == after_bytes(calls, a + b),
{
    assert(after_bytes(after_bytes(calls, a), b) =~= after_bytes(calls, a + b));
}

/// Drawing `a` bytes and then `b` more draws what drawing `a + b` draws.
proof fn lemma_byte_draws_split(seed: u64, calls: Seq<(u32, u32)>, a: nat, b: nat)
    ensures
        byte_draws(seed, calls, a + b) == byte_draws(seed, calls, a) + byte_draws(
            seed,
            after_bytes(calls, a),
            b,
        ),
    decreases b,
{
    if b == 0 {
        assert(byte_draws(seed, calls, a) + byte_draws(seed, after_bytes(calls, a), 0)
            =~= byte_draws(seed, calls, a));
    } else {
        lemma_byte_draws_split(seed, calls, a, (b - 1) as nat);
        lemma_after_bytes_add(calls, a, (b - 1) as nat);
        assert(byte_draws(seed, calls, a + b) =~= byte_draws(seed, calls, a) + byte_draws(
            seed,
            after_bytes(calls, a),
            b,
        ));
    }
}

/// `g1` is `g0` having drawn `n` more bytes, with the same seed.
pub open spec fn advanced_by(g0: Generator, g1: Generator, n: int) -> bool {
    &&& g1.seed() == g0.seed()
    &&& g1.drawn().len() == g0.drawn().len() + n
    &&& g1.drawn().subrange(0, g0.drawn().len() as int) == g0.drawn()
    &&& g1.calls() == after_bytes(g0.calls(), n as nat)
    &&& g1.drawn().subrange(g0.drawn().len() as int, g1.drawn().len() as int) == byte_draws(
        g0.seed(),
        g0.calls(),
        n as nat,
    )
}

/// Relies on `rand_core::SeedableRng::seed_from_u64` for PCG-64, which builds
/// the generator from the seed alone.
#[verifier::external_body]
fn seeded_rng(seed: u64) -> (r: Generator)
    ensures
        r.seed() == seed,
        r.drawn() == Seq::<u8>::empty(),
        r.calls() == Seq::<(u32, u32)>::empty(),
{
    Generator {
        rng: <rand_pcg::Lcg128Xsl64 as rand::SeedableRng>::seed_from_u64(seed),
        seed: Ghost(seed),
        drawn: Ghost(Seq::empty()),
        calls: Ghost(Seq::empty()),
    }
}

/// Relies on `rand::Rng::gen::<u8>`, which draws one byte from the generator;
/// PCG-64 is deterministic, so the byte depends on the seed and the earlier
/// draws alone.
#[verifier::external_body]
fn random_byte(g: &mut Generator) -> (r: u8)
    ensures
        r == pcg_byte(old(g).seed(), old(g).calls()),
        final(g).seed() == old(g).seed(),
        final(g).drawn() == old(g).drawn().push(r),
        final(g).calls() == old(g).calls().push(byte_draw()),
{
    <rand_pcg::Lcg128Xsl64 as rand::Rng>::gen::<u8>(&mut g.rng)
}

/// Relies on `rand::Rng::gen_range` over `low..high`, which panics on an empty
/// range and otherwise returns a value in it. It draws no single bytes, and
/// its value depends on the seed and the earlier draws alone.
#[verifier::external_body]
fn random_in_range(g: &mut Generator, low: u32, high: u32) -> (r: u32)
    requires
        low < high,
    ensures
        low <= r < high,
        r == pcg_in_range(old(g).seed(), old(g).calls(), low, high),
        final(g).calls() == old(g).calls().push((low, high)),
        final(g).seed() == old(g).seed(),
        final(g).drawn() == old(g).drawn(),
{
    <rand_pcg::Lcg128Xsl64 as rand::Rng>::gen_range(&mut g.rng, low..high)
}

/// The seed of thread `thread_index`'s generator: the run's seed offset by
/// the thread's index, or, where `per_thread_offset` is off, the run's seed
/// itself, so that every thread draws the same stream.
pub fn thread_seed(seed: u64, thread_index: u64, per_thread_offset: bool) -> (r: u64)
    ensures
        per_thread_offset ==> r == (seed + thread_index) % 0x1_0000_0000_0000_0000,
        !per_thread_offset ==> r == seed,
{
    if per_thread_offset {
        seed.wrapping_add(thread_index)
    } else {
        seed
    }
}

/// The generator of thread `thread_index`, seeded with `thread_seed`.
pub fn thread_rng(seed: u64, thread_index: u64, per_thread_offset: bool) -> (r: Generator)
    ensures
        per_thread_offset ==> r.seed() == (seed + thread_index) % 0x1_0000_0000_0000_0000,
        !per_thread_offset ==> r.seed() == seed,
        r.drawn() == Seq::<u8>::empty(),
        r.calls() == Seq::<(u32, u32)>::empty(),
{
    seeded_rng(thread_seed(seed, thread_index, per_thread_offset))
}

/// Overwrites the first two bytes of `buf` with the tag and keeps the rest.
pub fn apply_tag(buf: &mut [u8])
    requires
        old(buf)@.len() >= 2,
    ensures
        final(buf)@ == with_tag(old(buf)@),
{
    buf[0] = TAG_FIRST;
    buf[1] = TAG_SECOND;
}

/// Fills every byte of `buf` with one draw from `g`, in order, then writes
/// the tag over its first two bytes.
pub fn rand_fill_buffer(g: &mut Generator, buf: &mut [u8])
    requires
        old(buf)@.len() >= 2,
    ensures
        advanced_by(*old(g), *final(g), old(buf)@.len() as int),
        final(buf)@ == with_tag(draws_between(*old(g), *final(g))),
        tagged(final(buf)@),
{
    let ghost g0 = *g;
    proof {
        assert(g.drawn().subrange(0, g.drawn().len() as int) =~= g.drawn());
        assert(g.drawn().subrange(g.drawn().len() as int, g.drawn().len() as int) =~= Seq::<
            u8,
        >::empty());
        lemma_after_bytes_zero(g.calls());
    }
    let n = buf.len();
    let mut i: usize = 0;
    while i < n
        invariant
            i <= n,
            buf@.len() == n,
            n >= 2,
            advanced_by(g0, *g, i as int),
            buf@.subrange(0, i as int) == draws_between(g0, *g),
        decreases n - i,
    {
        let ghost prev_buf = buf@;
        let ghost prev_g = *g;
        let b = random_byte(g);
        buf[i] = b;
        proof {
            assert(prev_buf.subrange(0, i as int) =~= draws_between(g0, prev_g));
            assert(buf@.subrange(0, i as int) =~= prev_buf.subrange(0, i as int));
            assert(draws_between(g0, *g) =~= draws_between(g0, prev_g).push(b));
            lemma_after_bytes_push(g0.calls(), i as nat);
        }
        i = i + 1;
        assert(buf@.subrange(0, i as int) =~= draws_between(g0, *g));
        assert(g.drawn().subrange(0, g0.drawn().len() as int) =~= g0.drawn());
    }
    assert(buf@ =~= buf@.subrange(0, n as int));
    apply_tag(buf);
}

/// A new buffer of `len` bytes, filled as `rand_fill_buffer` fills.
pub fn random_buffer(g: &mut Generator, len: usize) -> (r: Vec<u8>)
    requires
        len >= 2,
    ensures
        r@.len() == len,
        advanced_by(*old(g), *final(g), len as int),
        r@ == with_tag(draws_between(*old(g), *final(g))),
{
    let mut v: Vec<u8> = vec![0u8; len];
    rand_fill_buffer(g, v.as_mut_slice());
    v
}

/// Fills a key and then a value for one insert: the key takes the first
/// `key.len()` bytes drawn, the value the next `value.len()`.
pub fn fill_tuple(g: &mut Generator, key: &mut [u8], value: &mut [u8])
    requires
        old(key)@.len() >= 2,
        old(value)@.len() >= 2,
    ensures
        advanced_by(*old(g), *final(g), (old(key)@.len() + old(value)@.len()) as int),
        final(key)@ == with_tag(draws_between(*old(g), *final(g)).take(old(key)@.len() as int)),
        final(value)@ == with_tag(draws_between(*old(g), *final(g)).skip(old(key)@.len() as int)),
{
    let ghost g0 = *g;
    rand_fill_buffer(g, key);
    let ghost g1 = *g;
    rand_fill_buffer(g, value);
    proof {
        lemma_after_bytes_add(g0.calls(), key@.len() as nat, value@.len() as nat);
        lemma_byte_draws_split(g0.seed(), g0.calls(), key@.len() as nat, value@.len() as nat);
        assert(g.drawn().subrange(g0.drawn().len() as int, g1.drawn().len() as int) =~= g1.drawn().subrange(
            g0.drawn().len() as int,
            g1.drawn().len() as int,
        ));
        assert(draws_between(g0, *g) =~= draws_between(g0, g1) + draws_between(g1, *g));
    }
    assert(g.drawn().subrange(0, g0.drawn().len() as int) =~= g0.drawn());
    assert(draws_between(g0, *g).take(key@.len() as int) =~= draws_between(g0, g1));
    assert(draws_between(g0, *g).skip(key@.len() as int) =~= draws_between(g1, *g));
}

/// The operation count of one round: drawn uniformly from a quarter of the
/// budget up to, but not including, the whole budget.
pub fn draw_round_ops(g: &mut Generator, ops_per_round: u32) -> (r: u32)
    requires
        ops_per_round >= 1,
    ensures
        ops_per_round / 4 <= r < ops_per_round,
        r == pcg_in_range(old(g).seed(), old(g).calls(), ops_per_round / 4, ops_per_round),
        final(g).seed() == old(g).seed(),
        final(g).drawn() == old(g).drawn(),
        final(g).calls() == old(g).calls().push((ops_per_round / 4, ops_per_round)),
{
    random_in_range(g, ops_per_round / 4, ops_per_round)
}

} // verus!
