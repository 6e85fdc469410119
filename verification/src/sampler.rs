//! Token sampling.
//!
//! The sampler turns one probability distribution over the vocabulary into a
//! token id, using nucleus (top-p) restriction and an internal xorshift PRNG.
//!
//! A distribution is a vector of unnormalized fixed-point weights, one per
//! vocabulary entry (the caller produces it from the logits: temperature
//! scaling followed by a numerically stable softmax, quantized to integers).
//! The sampler never needs the weights normalized: every comparison is made
//! against the running total, so only ratios matter.
//!
//! Nucleus mass `top_p` is in millionths (`TOP_P_SCALE` is 1.0). The draw of
//! the PRNG is a 64-bit integer compared in cross-multiplied form against the
//! cumulative weights, the integer image of "uniform in [0, 1)".

use vstd::prelude::*;

verus! {

/// Millionths: the scale of the nucleus mass `top_p`.
pub const TOP_P_SCALE: u32 = 1_000_000;

/// Fixed deterministic xorshift64 update of the PRNG state.
pub open spec fn xorshift_spec(s: u64) -> u64 {
    let a = s ^ (s << 13);
    let b = a ^ (a >> 7);
    b ^ (b << 17)
}

/// Sum of a weight vector, as an unbounded integer.
pub open spec fn sum_weights(s: Seq<u64>) -> int
    decreases s.len(),
{
    if s.len() == 0 {
        0
    } else {
        sum_weights(s.drop_last()) + s.last()
    }
}

/// Sum of the weight components of a (weight, index) vector.
pub open spec fn sum_pairs(s: Seq<(u64, u32)>) -> int
    decreases s.len(),
{
    if s.len() == 0 {
        0
    } else {
        sum_pairs(s.drop_last()) + s.last().0
    }
}

/// Insert one (weight, index) pair into a weight-descending sequence, before
/// the first strictly lighter entry: entries of equal weight keep their order.
pub open spec fn insert_desc(s: Seq<(u64, u32)>, p: (u64, u32)) -> Seq<(u64, u32)>
    decreases s.len(),
{
    if s.len() == 0 {
        seq![p]
    } else if p.0 > s[0].0 {
        seq![p] + s
    } else {
        seq![s[0]] + insert_desc(s.drop_first(), p)
    }
}

/// Sort a (weight, index) sequence by descending weight, stably.
pub open spec fn sort_desc(s: Seq<(u64, u32)>) -> Seq<(u64, u32)>
    decreases s.len(),
{
    if s.len() == 0 {
        Seq::empty()
    } else {
        insert_desc(sort_desc(s.drop_last()), s.last())
    }
}

/// Weight-descending order.
pub open spec fn is_sorted_desc(s: Seq<(u64, u32)>) -> bool {
    forall|i: int, j: int| 0 <= i <= j < s.len() ==> #[trigger] s[i].0 >= #[trigger] s[j].0
}

/// Length of the shortest prefix of `sorted` whose cumulative weight reaches
/// the nucleus mass: the smallest `k` with
/// `cumulative(k) * TOP_P_SCALE >= top_p * total`, or the full length if no
/// prefix reaches it.
pub open spec fn cutoff_from(sorted: Seq<(u64, u32)>, top_p: u32, total: int, i: int, acc: int) -> int
    decreases sorted.len() - i,
{
    if i < 0 || i >= sorted.len() {
        sorted.len() as int
    } else {
        let acc2 = acc + sorted[i].0;
        if acc2 * (TOP_P_SCALE as int) >= (top_p as int) * total {
            i + 1
        } else {
            cutoff_from(sorted, top_p, total, i + 1, acc2)
        }
    }
}

pub open spec fn cutoff(sorted: Seq<(u64, u32)>, top_p: u32, total: int) -> int {
    cutoff_from(sorted, top_p, total, 0, 0)
}

/// Position of the first candidate whose cumulative weight exceeds the draw,
/// comparing `draw / (2^64 - 1) < cumulative / total` in cross-multiplied
/// form; the last position if none does (the degraded path of a malformed,
/// all-zero distribution).
pub open spec fn pick_from(ws: Seq<(u64, u32)>, total: int, draw: u64, i: int, acc: int) -> int
    decreases ws.len() - i,
{
    if i < 0 || i >= ws.len() - 1 {
        ws.len() - 1
    } else {
        let acc2 = acc + ws[i].0;
        if (draw as int) * total < acc2 * (u64::MAX as int) {
            i
        } else {
            pick_from(ws, total, draw, i + 1, acc2)
        }
    }
}

pub open spec fn pick(ws: Seq<(u64, u32)>, total: int, draw: u64) -> int {
    pick_from(ws, total, draw, 0, 0)
}

/// Pair each weight with its position in the vocabulary.
pub open spec fn indexed_pairs(ws: Seq<u64>) -> Seq<(u64, u32)> {
    Seq::new(ws.len(), |i: int| (ws[i], i as u32))
}

/// Full-distribution (multinomial) sampling: the position picked over the
/// whole weight vector, no candidate excluded.
pub open spec fn multinomial_spec(ws: Seq<u64>, draw: u64) -> int {
    pick(indexed_pairs(ws), sum_weights(ws), draw)
}

/// Nucleus sampling: sort by descending weight, keep the shortest prefix
/// whose cumulative weight reaches the nucleus mass, and pick inside it.
pub open spec fn top_p_spec(ws: Seq<u64>, top_p: u32, draw: u64) -> u32 {
    let sorted = sort_desc(indexed_pairs(ws));
    let k = cutoff(sorted, top_p, sum_pairs(sorted));
    let retained = sorted.take(k);
    retained[pick(retained, sum_pairs(retained), draw)].1
}

/// What one `sample` call returns and leaves as PRNG state: the token id and
/// the advanced state.
pub open spec fn sample_spec(ws: Seq<u64>, top_p: u32, state: u64) -> (u32, u64) {
    let draw = xorshift_spec(state);
    if top_p < TOP_P_SCALE {
        (top_p_spec(ws, top_p, draw), draw)
    } else {
        (multinomial_spec(ws, draw) as u32, draw)
    }
}

proof fn lemma_sum_pairs_take_step(s: Seq<(u64, u32)>, i: int)
    requires
        0 <= i < s.len(),
    ensures
        sum_pairs(s.take(i + 1)) == sum_pairs(s.take(i)) + s[i].0,
{
    assert(s.take(i + 1).drop_last() =~= s.take(i));
    assert(s.take(i + 1).last() == s[i]);
}

proof fn lemma_sum_pairs_take_le(s: Seq<(u64, u32)>, i: int)
    requires
        0 <= i <= s.len(),
    ensures
        sum_pairs(s.take(i)) <= sum_pairs(s),
    decreases s.len() - i,
{
    if i == s.len() {
        assert(s.take(i) =~= s);
    } else {
        lemma_sum_pairs_take_step(s, i);
        lemma_sum_pairs_take_le(s, i + 1);
    }
}

proof fn lemma_sum_pairs_nonneg(s: Seq<(u64, u32)>)
    ensures
        sum_pairs(s) >= 0,
    decreases s.len(),
{
    if s.len() > 0 {
        lemma_sum_pairs_nonneg(s.drop_last());
    }
}

proof fn lemma_sum_pairs_indexed(ws: Seq<u64>)
    ensures
        sum_pairs(indexed_pairs(ws)) == sum_weights(ws),
    decreases ws.len(),
{
    if ws.len() > 0 {
        assert(indexed_pairs(ws).drop_last() =~= indexed_pairs(ws.drop_last()));
        lemma_sum_pairs_indexed(ws.drop_last());
    }
}

proof fn lemma_insert_desc_basic(s: Seq<(u64, u32)>, p: (u64, u32))
    ensures
        insert_desc(s, p).len() == s.len() + 1,
        sum_pairs(insert_desc(s, p)) == sum_pairs(s) + p.0,
    decreases s.len(),
{
    if s.len() == 0 {
        lemma_sum_pairs_cons(p, s);
        assert(insert_desc(s, p) == seq![p] + s) by {
            assert(insert_desc(s, p) =~= seq![p] + s);
        }
    } else if p.0 > s[0].0 {
        lemma_sum_pairs_cons(p, s);
    } else {
        lemma_insert_desc_basic(s.drop_first(), p);
        lemma_sum_pairs_cons(s[0], insert_desc(s.drop_first(), p));
        lemma_sum_pairs_cons(s[0], s.drop_first());
        assert(seq![s[0]] + s.drop_first() =~= s);
        assert(sum_pairs(s) == s[0].0 + sum_pairs(s.drop_first()));
    }
}

/// Sum of a sequence with one element put in front.
proof fn lemma_sum_pairs_cons(p: (u64, u32), s: Seq<(u64, u32)>)
    ensures
        sum_pairs(seq![p] + s) == p.0 + sum_pairs(s),
    decreases s.len(),
{
    let r = seq![p] + s;
    assert(r.len() == s.len() + 1);
    assert(sum_pairs(r) == sum_pairs(r.drop_last()) + r.last().0);
    if s.len() == 0 {
        assert(r.drop_last() =~= Seq::<(u64, u32)>::empty());
        assert(sum_pairs(r.drop_last()) == 0);
        assert(r.last() == p);
        assert(sum_pairs(s) == 0);
    } else {
        assert(r.drop_last() =~= seq![p] + s.drop_last());
        lemma_sum_pairs_cons(p, s.drop_last());
        assert(r.last() == s.last());
        assert(sum_pairs(s) == sum_pairs(s.drop_last()) + s.last().0);
    }
}

proof fn lemma_sort_desc_basic(s: Seq<(u64, u32)>)
    ensures
        sort_desc(s).len() == s.len(),
        sum_pairs(sort_desc(s)) == sum_pairs(s),
    decreases s.len(),
{
    if s.len() > 0 {
        lemma_sort_desc_basic(s.drop_last());
        lemma_insert_desc_basic(sort_desc(s.drop_last()), s.last());
    }
}

proof fn lemma_insert_desc_sorted(s: Seq<(u64, u32)>, p: (u64, u32))
    requires
        is_sorted_desc(s),
    ensures
        is_sorted_desc(insert_desc(s, p)),
        insert_desc(s, p)[0].0 == if s.len() == 0 || p.0 > s[0].0 { p.0 } else { s[0].0 },
    decreases s.len(),
{
    if s.len() == 0 {
        assert(insert_desc(s, p) =~= seq![p]);
    } else if p.0 > s[0].0 {
        let r = seq![p] + s;
        assert forall|i: int, j: int| 0 <= i <= j < r.len() implies #[trigger] r[i].0 >= #[trigger] r[j].0 by {
            if i > 0 {
                assert(s[i - 1].0 >= s[j - 1].0);
            } else if j > 0 {
                assert(s[0].0 >= s[j - 1].0);
            }
        }
    } else {
        let s1 = s.drop_first();
        assert(is_sorted_desc(s1)) by {
            assert forall|i: int, j: int| 0 <= i <= j < s1.len() implies #[trigger] s1[i].0 >= #[trigger] s1[j].0 by {
                assert(s[i + 1].0 >= s[j + 1].0);
            }
        }
        lemma_insert_desc_sorted(s1, p);
        let r1 = insert_desc(s1, p);
        let r = seq![s[0]] + r1;
        assert(r1[0].0 <= s[0].0) by {
            if s1.len() > 0 {
                assert(s[0].0 >= s[1].0);
            }
        }
        assert forall|i: int, j: int| 0 <= i <= j < r.len() implies #[trigger] r[i].0 >= #[trigger] r[j].0 by {
            if i > 0 {
                assert(r1[i - 1].0 >= r1[j - 1].0);
            } else if j > 0 {
                assert(r1[0].0 >= r1[j - 1].0);
            }
        }
    }
}

proof fn lemma_sort_desc_sorted(s: Seq<(u64, u32)>)
    ensures
        is_sorted_desc(sort_desc(s)),
    decreases s.len(),
{
    if s.len() > 0 {
        lemma_sort_desc_sorted(s.drop_last());
        lemma_insert_desc_sorted(sort_desc(s.drop_last()), s.last());
    }
}

/// Where the position of the first strictly lighter entry is `j`, inserting
/// is splicing at `j`.
proof fn lemma_insert_desc_at(s: Seq<(u64, u32)>, p: (u64, u32), j: int)
    requires
        0 <= j <= s.len(),
        forall|i: int| 0 <= i < j ==> #[trigger] s[i].0 >= p.0,
        j < s.len() ==> p.0 > s[j].0,
    ensures
        insert_desc(s, p) =~= s.insert(j, p),
    decreases s.len(),
{
    if s.len() == 0 {
    } else if j == 0 {
    } else {
        let s1 = s.drop_first();
        assert forall|i: int| 0 <= i < j - 1 implies #[trigger] s1[i].0 >= p.0 by {
            assert(s[i + 1].0 >= p.0);
        }
        lemma_insert_desc_at(s1, p, j - 1);
    }
}

/// The cutoff never exceeds the length, never precedes the first entry, and
/// is reached as soon as the running total reaches the nucleus share.
proof fn lemma_cutoff_from_bounds(s: Seq<(u64, u32)>, top_p: u32, total: int, i: int, acc: int)
    requires
        0 <= i <= s.len(),
    ensures
        i <= cutoff_from(s, top_p, total, i, acc) <= s.len(),
        i < s.len() ==> 1 <= cutoff_from(s, top_p, total, i, acc),
    decreases s.len() - i,
{
    if i < s.len() {
        let acc2 = acc + s[i].0;
        if !(acc2 * (TOP_P_SCALE as int) >= (top_p as int) * total) {
            lemma_cutoff_from_bounds(s, top_p, total, i + 1, acc2);
        }
    }
}

/// All shorter prefixes than the cutoff miss the nucleus mass; the cutoff
/// prefix reaches it.
proof fn lemma_cutoff_from_props(s: Seq<(u64, u32)>, top_p: u32, total: int, i: int, acc: int)
    requires
        0 <= i <= s.len(),
        acc == sum_pairs(s.take(i)),
        total == sum_pairs(s),
        top_p <= TOP_P_SCALE,
    ensures
        ({
            let k = cutoff_from(s, top_p, total, i, acc);
            &&& i <= k <= s.len()
            &&& sum_pairs(s.take(k)) * (TOP_P_SCALE as int) >= (top_p as int) * total
            &&& forall|m: int|
                i < m < k ==> #[trigger] sum_pairs(s.take(m)) * (TOP_P_SCALE as int) < (top_p as int) * total
        }),
    decreases s.len() - i,
{
    let k = cutoff_from(s, top_p, total, i, acc);
    if i == s.len() {
        assert(s.take(s.len() as int) =~= s);
        lemma_sum_pairs_nonneg(s);
        assert(total * (TOP_P_SCALE as int) >= (top_p as int) * total) by (nonlinear_arith)
            requires
                total >= 0,
                0 <= (top_p as int) <= (TOP_P_SCALE as int),
        ;
    } else {
        lemma_sum_pairs_take_step(s, i);
        let acc2 = acc + s[i].0;
        if acc2 * (TOP_P_SCALE as int) >= (top_p as int) * total {
        } else {
            lemma_cutoff_from_props(s, top_p, total, i + 1, acc2);
        }
    }
}

/// Determinism: what a sampler returns depends only on the distribution, the
/// nucleus mass and the PRNG state, so two samplers that agree on mass and
/// state — in particular two runs from the same seed — sample the same token
/// from the same weights and land in the same state.
pub proof fn lemma_sampler_deterministic(a: Sampler, b: Sampler, ws: Seq<u64>)
    requires
        a.spec_top_p_ppm() == b.spec_top_p_ppm(),
        a.spec_rng_state() == b.spec_rng_state(),
    ensures
        sample_spec(ws, a.spec_top_p_ppm(), a.spec_rng_state()) == sample_spec(
            ws,
            b.spec_top_p_ppm(),
            b.spec_rng_state(),
        ),
{
}

/// A nucleus mass of one excludes nothing: sampling at `TOP_P_SCALE` is
/// full-distribution multinomial sampling, and the PRNG advances the same
/// single step either way.
pub proof fn lemma_top_p_one_is_multinomial(ws: Seq<u64>, state: u64)
    ensures
        sample_spec(ws, TOP_P_SCALE, state).0 == multinomial_spec(ws, xorshift_spec(state)) as u32,
        sample_spec(ws, TOP_P_SCALE, state).1 == xorshift_spec(state),
{
}

/// Nucleus restriction keeps the shortest weight-descending prefix that
/// reaches the mass: the retained prefix's pre-renormalization cumulative
/// weight is at least `top_p` of the total, and every shorter (nonempty)
/// prefix — in particular the one obtained by dropping the retained prefix's
/// lowest-weight member — falls below it.
pub proof fn lemma_nucleus_prefix_mass(ws: Seq<u64>, top_p: u32)
    requires
        ws.len() >= 1,
        top_p <= TOP_P_SCALE,
    ensures
        ({
            let sorted = sort_desc(indexed_pairs(ws));
            let total = sum_weights(ws);
            let k = cutoff(sorted, top_p, total);
            &&& sorted.len() == ws.len()
            &&& is_sorted_desc(sorted)
            &&& sum_pairs(sorted) == total
            &&& 1 <= k <= sorted.len()
            &&& sum_pairs(sorted.take(k)) * (TOP_P_SCALE as int) >= (top_p as int) * total
            &&& forall|m: int|
                0 < m < k ==> #[trigger] sum_pairs(sorted.take(m)) * (TOP_P_SCALE as int) < (top_p as int) * total
        }),
{
    let pairs = indexed_pairs(ws);
    let sorted = sort_desc(pairs);
    let total = sum_weights(ws);
    lemma_sum_pairs_indexed(ws);
    lemma_sort_desc_basic(pairs);
    lemma_sort_desc_sorted(pairs);
    assert(sorted.take(0) =~= Seq::<(u64, u32)>::empty());
    lemma_cutoff_from_props(sorted, top_p, total, 0, 0);
    lemma_cutoff_from_bounds(sorted, top_p, total, 0, 0);
}

/// The pick stays inside the candidate list.
proof fn lemma_pick_from_bounds(ws: Seq<(u64, u32)>, total: int, draw: u64, i: int, acc: int)
    requires
        ws.len() >= 1,
        0 <= i <= ws.len() - 1,
    ensures
        0 <= pick_from(ws, total, draw, i, acc) < ws.len(),
    decreases ws.len() - i,
{
    if i < ws.len() - 1 {
        let acc2 = acc + ws[i].0;
        if !((draw as int) * total < acc2 * (u64::MAX as int)) {
            lemma_pick_from_bounds(ws, total, draw, i + 1, acc2);
        }
    }
}

/// Insertion keeps every carried index under the bound.
proof fn lemma_insert_desc_preserves_bound(s: Seq<(u64, u32)>, p: (u64, u32), n: int)
    requires
        forall|i: int| 0 <= i < s.len() ==> (#[trigger] s[i]).1 < n,
        p.1 < n,
    ensures
        forall|i: int| 0 <= i < insert_desc(s, p).len() ==> (#[trigger] insert_desc(s, p)[i]).1 < n,
    decreases s.len(),
{
    if s.len() == 0 {
    } else if p.0 > s[0].0 {
    } else {
        assert forall|i: int| 0 <= i < s.drop_first().len() implies (#[trigger] s.drop_first()[i]).1
            < n by {
            assert(s.drop_first()[i] == s[i + 1]);
        }
        lemma_insert_desc_preserves_bound(s.drop_first(), p, n);
        let r = seq![s[0]] + insert_desc(s.drop_first(), p);
        assert forall|i: int| 0 <= i < r.len() implies (#[trigger] r[i]).1 < n by {
            if i > 0 {
                assert(r[i] == insert_desc(s.drop_first(), p)[i - 1]);
            }
        }
    }
}

/// Sorting keeps every carried index under the bound.
proof fn lemma_sort_desc_preserves_bound(s: Seq<(u64, u32)>, n: int)
    requires
        forall|i: int| 0 <= i < s.len() ==> (#[trigger] s[i]).1 < n,
    ensures
        forall|i: int| 0 <= i < sort_desc(s).len() ==> (#[trigger] sort_desc(s)[i]).1 < n,
    decreases s.len(),
{
    if s.len() > 0 {
        lemma_sort_desc_preserves_bound(s.drop_last(), n);
        lemma_insert_desc_preserves_bound(sort_desc(s.drop_last()), s.last(), n);
    }
}

/// The sampled id is a vocabulary position: whatever the nucleus mass and
/// the PRNG state, the id indexes the distribution it was sampled from.
pub proof fn lemma_sample_id_in_vocab(ws: Seq<u64>, top_p: u32, state: u64)
    requires
        1 <= ws.len() <= u32::MAX as int,
    ensures
        (sample_spec(ws, top_p, state).0 as int) < ws.len(),
{
    let draw = xorshift_spec(state);
    if top_p < TOP_P_SCALE {
        let sorted = sort_desc(indexed_pairs(ws));
        let total = sum_pairs(sorted);
        let k = cutoff(sorted, top_p, total);
        let retained = sorted.take(k);
        lemma_sort_desc_basic(indexed_pairs(ws));
        lemma_cutoff_from_bounds(sorted, top_p, total, 0, 0);
        lemma_pick_from_bounds(retained, sum_pairs(retained), draw, 0, 0);
        lemma_sort_desc_preserves_bound(indexed_pairs(ws), ws.len() as int);
        let pos = pick(retained, sum_pairs(retained), draw);
        assert(retained[pos] == sorted[pos]);
    } else {
        lemma_pick_from_bounds(indexed_pairs(ws), sum_weights(ws), draw, 0, 0);
    }
}

/// Exclusion: with the nucleus mass below one, the sampled id always comes
/// from the retained sorted prefix — an entry the cutoff dropped is never
/// sampled.
pub proof fn lemma_nucleus_excludes_dropped(ws: Seq<u64>, top_p: u32, state: u64)
    requires
        ws.len() >= 1,
        top_p < TOP_P_SCALE,
    ensures
        ({
            let sorted = sort_desc(indexed_pairs(ws));
            let k = cutoff(sorted, top_p, sum_pairs(sorted));
            exists|pos: int|
                0 <= pos < k && sample_spec(ws, top_p, state).0 == (#[trigger] sorted[pos]).1
        }),
{
    let sorted = sort_desc(indexed_pairs(ws));
    let total = sum_pairs(sorted);
    let k = cutoff(sorted, top_p, total);
    let retained = sorted.take(k);
    let draw = xorshift_spec(state);
    lemma_sort_desc_basic(indexed_pairs(ws));
    lemma_cutoff_from_bounds(sorted, top_p, total, 0, 0);
    lemma_pick_from_bounds(retained, sum_pairs(retained), draw, 0, 0);
    let pos = pick(retained, sum_pairs(retained), draw);
    assert(sample_spec(ws, top_p, state).0 == sorted[pos].1);
}

/// Pair each weight with its vocabulary position.
fn indexed_vec(probs: &Vec<u64>) -> (pairs: Vec<(u64, u32)>)
    requires
        probs@.len() <= u32::MAX as int,
    ensures
        pairs@ == indexed_pairs(probs@),
{
    let mut pairs: Vec<(u64, u32)> = Vec::new();
    let mut i: usize = 0;
    while i < probs.len()
        invariant
            i <= probs.len(),
            probs@.len() <= u32::MAX as int,
            pairs@.len() == i,
            forall|j: int| 0 <= j < i ==> pairs@[j] == (probs@[j], j as u32),
        decreases probs@.len() - i,
    {
        pairs.push((probs[i], i as u32));
        i += 1;
    }
    proof {
        assert(pairs@ =~= indexed_pairs(probs@));
    }
    pairs
}

/// Insert one pair into a weight-descending vector, before the first strictly
/// lighter entry.
fn insert_exec(v: &mut Vec<(u64, u32)>, p: (u64, u32))
    ensures
        final(v)@ == insert_desc(old(v)@, p),
{
    let mut j: usize = 0;
    while j < v.len() && !(p.0 > v[j].0)
        invariant
            j <= v@.len(),
            v@ == old(v)@,
            forall|i: int| 0 <= i < j ==> #[trigger] v@[i].0 >= p.0,
        decreases v@.len() - j,
    {
        j += 1;
    }
    proof {
        lemma_insert_desc_at(v@, p, j as int);
    }
    v.insert(j, p);
}

/// Sort by descending weight, stably.
fn sort_pairs(src: Vec<(u64, u32)>) -> (out: Vec<(u64, u32)>)
    ensures
        out@ == sort_desc(src@),
{
    let mut out: Vec<(u64, u32)> = Vec::new();
    let mut i: usize = 0;
    while i < src.len()
        invariant
            i <= src.len(),
            out@ == sort_desc(src@.take(i as int)),
        decreases src@.len() - i,
    {
        insert_exec(&mut out, src[i]);
        proof {
            assert(src@.take(i + 1).drop_last() =~= src@.take(i as int));
            assert(src@.take(i + 1).last() == src@[i as int]);
        }
        i += 1;
    }
    proof {
        assert(src@.take(src@.len() as int) =~= src@);
    }
    out
}

/// Total weight of a pair vector.
fn total_pairs(v: &Vec<(u64, u32)>) -> (t: u64)
    requires
        sum_pairs(v@) <= u64::MAX as int,
    ensures
        t as int == sum_pairs(v@),
{
    let mut acc: u64 = 0;
    let mut i: usize = 0;
    while i < v.len()
        invariant
            i <= v.len(),
            sum_pairs(v@) <= u64::MAX as int,
            acc as int == sum_pairs(v@.take(i as int)),
        decreases v@.len() - i,
    {
        proof {
            lemma_sum_pairs_take_step(v@, i as int);
            lemma_sum_pairs_take_le(v@, i + 1);
        }
        acc = acc + v[i].0;
        i += 1;
    }
    proof {
        assert(v@.take(v@.len() as int) =~= v@);
    }
    acc
}

/// The shortest prefix of a sorted vector whose cumulative weight reaches the
/// nucleus mass, and that cumulative weight itself.
fn cutoff_exec(sorted: &Vec<(u64, u32)>, top_p: u32, total: u64) -> (r: (usize, u64))
    requires
        sorted@.len() >= 1,
        sum_pairs(sorted@) <= u64::MAX as int,
    ensures
        r.0 as int == cutoff(sorted@, top_p, total as int),
        1 <= r.0 <= sorted@.len(),
        r.1 as int == sum_pairs(sorted@.take(r.0 as int)),
{
    let mut acc: u64 = 0;
    let mut i: usize = 0;
    loop
        invariant
            0 <= i <= sorted@.len(),
            sorted@.len() >= 1,
            sum_pairs(sorted@) <= u64::MAX as int,
            acc as int == sum_pairs(sorted@.take(i as int)),
            cutoff(sorted@, top_p, total as int)
                == cutoff_from(sorted@, top_p, total as int, i as int, acc as int),
        decreases sorted@.len() - i,
    {
        if i >= sorted.len() {
            proof {
                assert(sorted@.take(sorted@.len() as int) =~= sorted@);
            }
            return (sorted.len(), acc);
        }
        proof {
            lemma_sum_pairs_take_step(sorted@, i as int);
            lemma_sum_pairs_take_le(sorted@, i + 1);
        }
        let acc2: u64 = acc + sorted[i].0;
        proof {
            assert((top_p as int) * (total as int) <= (u32::MAX as int) * (u64::MAX as int))
                by (nonlinear_arith)
                requires
                    top_p <= u32::MAX,
                    total <= u64::MAX,
            ;
            assert((acc2 as int) * (TOP_P_SCALE as int) <= (u64::MAX as int) * (TOP_P_SCALE as int))
                by (nonlinear_arith)
                requires
                    acc2 <= u64::MAX,
            ;
        }
        if (acc2 as u128) * (TOP_P_SCALE as u128) >= (top_p as u128) * (total as u128) {
            return (i + 1, acc2);
        }
        acc = acc2;
        i += 1;
    }
}

/// The position of the first candidate whose cumulative weight exceeds the
/// draw; the last position if none does.
fn pick_exec(v: &Vec<(u64, u32)>, total: u64, draw: u64) -> (i: usize)
    requires
        v@.len() >= 1,
        sum_pairs(v@) <= u64::MAX as int,
        total as int == sum_pairs(v@),
    ensures
        i as int == pick(v@, total as int, draw),
        i < v@.len(),
{
    let mut acc: u64 = 0;
    let mut i: usize = 0;
    loop
        invariant
            0 <= i <= v@.len() - 1,
            v@.len() >= 1,
            sum_pairs(v@) <= u64::MAX as int,
            total as int == sum_pairs(v@),
            acc as int == sum_pairs(v@.take(i as int)),
            pick(v@, total as int, draw)
                == pick_from(v@, total as int, draw, i as int, acc as int),
        decreases v@.len() - i,
    {
        if i >= v.len() - 1 {
            return v.len() - 1;
        }
        proof {
            lemma_sum_pairs_take_step(v@, i as int);
            lemma_sum_pairs_take_le(v@, i + 1);
        }
        let acc2: u64 = acc + v[i].0;
        proof {
            assert((draw as int) * (total as int) <= (u64::MAX as int) * (u64::MAX as int))
                by (nonlinear_arith)
                requires
                    draw <= u64::MAX,
                    total <= u64::MAX,
            ;
            assert((acc2 as int) * (u64::MAX as int) <= (u64::MAX as int) * (u64::MAX as int))
                by (nonlinear_arith)
                requires
                    acc2 <= u64::MAX,
            ;
        }
        if (draw as u128) * (total as u128) < (acc2 as u128) * (u64::MAX as u128) {
            return i;
        }
        acc = acc2;
        i += 1;
    }
}

/// The token sampler. Pure given its seed state: the PRNG advances by the
/// fixed xorshift update on every call, and nothing else feeds it.
///
/// `temperature_milli` is in thousandths and floored at one thousandth, so a
/// zero request can never divide the logits by zero when the caller scales
/// them; `top_p_ppm` is in millionths.
pub struct Sampler {
    temperature_milli: u32,
    top_p_ppm: u32,
    rng_seed: u64,
    rng_state: u64,
}

impl Sampler {
    pub closed spec fn spec_temperature_milli(&self) -> u32 {
        self.temperature_milli
    }

    pub closed spec fn spec_top_p_ppm(&self) -> u32 {
        self.top_p_ppm
    }

    pub closed spec fn spec_rng_seed(&self) -> u64 {
        self.rng_seed
    }

    pub closed spec fn spec_rng_state(&self) -> u64 {
        self.rng_state
    }

    /// A sampler at its starting state: temperature floored above zero, the
    /// PRNG state equal to the seed.
    pub fn new(temperature_milli: u32, top_p_ppm: u32, seed: u64) -> (s: Sampler)
        ensures
            s.spec_temperature_milli() == if temperature_milli == 0 { 1u32 } else { temperature_milli },
            s.spec_top_p_ppm() == top_p_ppm,
            s.spec_rng_seed() == seed,
            s.spec_rng_state() == seed,
    {
        Sampler {
            temperature_milli: if temperature_milli == 0 { 1 } else { temperature_milli },
            top_p_ppm,
            rng_seed: seed,
            rng_state: seed,
        }
    }

    /// The floored temperature, for the caller that scales the logits.
    pub fn temperature_milli(&self) -> (t: u32)
        ensures
            t == self.spec_temperature_milli(),
    {
        self.temperature_milli
    }

    /// Sample one token id from a distribution of unnormalized fixed-point
    /// weights over the vocabulary.
    ///
    /// The PRNG advances by exactly one xorshift update; the id and the new
    /// state are the ones `sample_spec` gives for the old state, so a sampler
    /// replayed from the same seed over the same distributions returns the
    /// same ids. An all-zero (malformed) distribution degrades to the last
    /// candidate and never fails.
    pub fn sample(&mut self, probs: &Vec<u64>) -> (tok: u32)
        requires
            probs@.len() >= 1,
            probs@.len() <= u32::MAX as int,
            sum_weights(probs@) <= u64::MAX as int,
        ensures
            tok == sample_spec(probs@, old(self).spec_top_p_ppm(), old(self).spec_rng_state()).0,
            final(self).spec_rng_state() == sample_spec(
                probs@,
                old(self).spec_top_p_ppm(),
                old(self).spec_rng_state(),
            ).1,
            (tok as int) < probs@.len(),
            final(self).spec_temperature_milli() == old(self).spec_temperature_milli(),
            final(self).spec_top_p_ppm() == old(self).spec_top_p_ppm(),
            final(self).spec_rng_seed() == old(self).spec_rng_seed(),
    {
        proof {
            lemma_sample_id_in_vocab(probs@, self.spec_top_p_ppm(), self.spec_rng_state());
        }
        let draw = self.random_draw();
        let pairs = indexed_vec(probs);
        proof {
            lemma_sum_pairs_indexed(probs@);
            lemma_sum_pairs_nonneg(indexed_pairs(probs@));
        }
        if self.top_p_ppm < TOP_P_SCALE {
            let ghost spec_sorted = sort_desc(indexed_pairs(probs@));
            let mut sorted = sort_pairs(pairs);
            proof {
                lemma_sort_desc_basic(indexed_pairs(probs@));
            }
            let total = total_pairs(&sorted);
            let (k, rtotal) = cutoff_exec(&sorted, self.top_p_ppm, total);
            sorted.truncate(k);
            proof {
                assert(sorted@ =~= spec_sorted.take(k as int));
                lemma_sum_pairs_take_le(spec_sorted, k as int);
                lemma_sum_pairs_nonneg(spec_sorted.take(k as int));
            }
            let j = pick_exec(&sorted, rtotal, draw);
            sorted[j].1
        } else {
            let total = total_pairs(&pairs);
            let j = pick_exec(&pairs, total, draw);
            proof {
                assert(pairs@[j as int].1 == j as u32);
            }
            pairs[j].1
        }
    }

    /// Advance the PRNG by the fixed xorshift update and return the draw.
    fn random_draw(&mut self) -> (r: u64)
        ensures
            r == xorshift_spec(old(self).spec_rng_state()),
            final(self).spec_rng_state() == r,
            final(self).spec_temperature_milli() == old(self).spec_temperature_milli(),
            final(self).spec_top_p_ppm() == old(self).spec_top_p_ppm(),
            final(self).spec_rng_seed() == old(self).spec_rng_seed(),
    {
        let s0 = self.rng_state;
        let a = s0 ^ (s0 << 13u64);
        let b = a ^ (a >> 7u64);
        let c = b ^ (b << 17u64);
        self.rng_state = c;
        c
    }
}

} // verus!
