//! The draw engine: without-replacement selection over the dense pool.
//!
//! One draw reduces the stream's first word modulo the remaining count,
//! removes the selected record by overwriting it with the last one and
//! shrinking the pool, and takes the secondary attribute from the same
//! stream. The whole batch of a request is pinned down by `spec_pool_after`
//! and `spec_drawn_at`, functions of the initial pool and the public
//! context alone, which is what makes draws reproducible.

use vstd::arithmetic::div_mod::lemma_mod_division_less_than_divisor;
use vstd::multiset::Multiset;
use vstd::prelude::*;
use vstd::seq_lib::group_to_multiset_ensures;
use vstd::seq_lib::lemma_multiset_commutative;

use crate::bytes::spec_decimal_bytes;
use crate::crypto::{chacha_speed_of, chacha_u32_of, draw_from_seed, spec_new_entropy};
use crate::msg::PreLoad;

verus! {

/// The data a batch's seeds are derived from: the persistent secret and
/// the public per-call context.
pub ghost struct DrawCtx {
    pub prng_seed: Seq<u8>,
    pub height: u64,
    pub time: u64,
    pub requester: Seq<char>,
}

/// The 256-bit seed of the `index`-th draw of a batch (1-based): the
/// keyed generator over the secret and the context block, with the index
/// as decimal text.
pub open spec fn spec_seed_for(ctx: DrawCtx, index: int) -> Seq<u8>
    recommends
        index >= 1,
{
    spec_new_entropy(
        ctx.height,
        ctx.time,
        ctx.requester,
        ctx.prng_seed,
        ctx.prng_seed,
        spec_decimal_bytes(index as nat),
    )
}

/// The 0-based pool index a seed selects among `remaining` slots.
pub open spec fn spec_draw_index(seed: Seq<u8>, remaining: int) -> int {
    chacha_u32_of(seed) as int % remaining
}

/// The secondary attribute of the `index`-th draw.
pub open spec fn spec_speed_at(ctx: DrawCtx, index: int) -> u32 {
    chacha_speed_of(spec_seed_for(ctx, index))
}

/// A sequence with the element at `i` removed by overwriting it with the
/// last element and dropping the last slot.
pub open spec fn spec_swap_removed<T>(s: Seq<T>, i: int) -> Seq<T>
    recommends
        0 <= i < s.len(),
{
    s.update(i, s.last()).drop_last()
}

/// The pool after the first `i` draws of a batch.
pub open spec fn spec_pool_after(pool: Seq<PreLoad>, ctx: DrawCtx, i: nat) -> Seq<PreLoad>
    decreases i,
{
    if i == 0 {
        pool
    } else {
        let prev = spec_pool_after(pool, ctx, (i - 1) as nat);
        spec_swap_removed(prev, spec_draw_index(spec_seed_for(ctx, i as int), prev.len() as int))
    }
}

/// The record the `i`-th draw of a batch selects (1-based).
pub open spec fn spec_drawn_at(pool: Seq<PreLoad>, ctx: DrawCtx, i: nat) -> PreLoad
    recommends
        1 <= i <= pool.len(),
{
    let prev = spec_pool_after(pool, ctx, (i - 1) as nat);
    prev[spec_draw_index(spec_seed_for(ctx, i as int), prev.len() as int)]
}

/// The records of a whole batch of `n` draws, in draw order.
pub open spec fn spec_drawn_seq(pool: Seq<PreLoad>, ctx: DrawCtx, n: nat) -> Seq<PreLoad> {
    Seq::new(n, |k: int| spec_drawn_at(pool, ctx, (k + 1) as nat))
}

/// No two pool records carry the same identifier.
pub open spec fn spec_distinct_ids(pool: Seq<PreLoad>) -> bool {
    forall|i: int, j: int| 0 <= i < j < pool.len() ==> pool[i].id@ != pool[j].id@
}

/// Each draw shrinks the pool by exactly one record.
pub proof fn lemma_pool_after_len(pool: Seq<PreLoad>, ctx: DrawCtx, i: nat)
    requires
        i <= pool.len(),
    ensures
        spec_pool_after(pool, ctx, i).len() == pool.len() - i,
    decreases i,
{
    if i > 0 {
        lemma_pool_after_len(pool, ctx, (i - 1) as nat);
    }
}

/// Removing by swap-with-last takes exactly one occurrence of the selected
/// record out of the pool's multiset.
pub proof fn lemma_swap_removed_multiset(s: Seq<PreLoad>, i: int)
    requires
        0 <= i < s.len(),
    ensures
        spec_swap_removed(s, i).to_multiset() =~= s.to_multiset().remove(s[i]),
{
    broadcast use group_to_multiset_ensures;
    broadcast use vstd::multiset::group_multiset_axioms;

    let n = s.len() as int;
    if i == n - 1 {
        assert(s.update(i, s.last()) =~= s);
        assert(spec_swap_removed(s, i) =~= s.remove(i));
        vstd::seq_lib::to_multiset_remove(s, i);
    } else {
        let a = s.subrange(0, i);
        let b = s.subrange(i + 1, n - 1);
        let x = s.last();
        assert(spec_swap_removed(s, i) =~= a + seq![x] + b);
        assert(s.remove(i) =~= a + b + seq![x]);
        lemma_multiset_commutative(a + seq![x], b);
        lemma_multiset_commutative(a, seq![x]);
        lemma_multiset_commutative(a + b, seq![x]);
        lemma_multiset_commutative(a, b);
        assert(seq![x] =~= Seq::<PreLoad>::empty().push(x));
        assert(seq![x].to_multiset() =~= Seq::<PreLoad>::empty().to_multiset().insert(x));
        assert(Seq::<PreLoad>::empty().to_multiset() =~= Multiset::<PreLoad>::empty()) by {
            Seq::<PreLoad>::empty().to_multiset_ensures();
        }
        assert((a + seq![x] + b).to_multiset() =~= (a + b + seq![x]).to_multiset());
        vstd::seq_lib::to_multiset_remove(s, i);
    }
}

/// After `n` draws, the drawn records and the remaining pool together are
/// exactly the initial pool: nothing is duplicated, nothing is lost.
pub proof fn lemma_draws_partition(pool: Seq<PreLoad>, ctx: DrawCtx, n: nat)
    requires
        n <= pool.len(),
    ensures
        spec_pool_after(pool, ctx, n).to_multiset().add(
            spec_drawn_seq(pool, ctx, n).to_multiset(),
        ) =~= pool.to_multiset(),
    decreases n,
{
    broadcast use group_to_multiset_ensures;
    broadcast use vstd::multiset::group_multiset_axioms;

    if n == 0 {
        assert(spec_drawn_seq(pool, ctx, 0) =~= Seq::<PreLoad>::empty());
        assert(Seq::<PreLoad>::empty().to_multiset() =~= Multiset::<PreLoad>::empty()) by {
            Seq::<PreLoad>::empty().to_multiset_ensures();
        }
    } else {
        lemma_draws_partition(pool, ctx, (n - 1) as nat);
        lemma_pool_after_len(pool, ctx, (n - 1) as nat);
        let prev = spec_pool_after(pool, ctx, (n - 1) as nat);
        let idx = spec_draw_index(spec_seed_for(ctx, n as int), prev.len() as int);
        let d = spec_drawn_at(pool, ctx, n);
        lemma_mod_division_less_than_divisor(
            chacha_u32_of(spec_seed_for(ctx, n as int)) as int,
            prev.len() as int,
        );
        lemma_swap_removed_multiset(prev, idx);
        assert(prev.contains(d));
        assert(prev.to_multiset().count(d) > 0);
        assert(spec_drawn_seq(pool, ctx, n) =~= spec_drawn_seq(pool, ctx, (n - 1) as nat).push(d));
        assert(spec_pool_after(pool, ctx, n).to_multiset().add(
            spec_drawn_seq(pool, ctx, n).to_multiset(),
        ) =~= pool.to_multiset());
    }
}

/// Two different records of a pool with distinct identifiers carry
/// distinct identifiers.
proof fn lemma_ids_from_pool(pool: Seq<PreLoad>, x: PreLoad, y: PreLoad)
    requires
        spec_distinct_ids(pool),
        pool.contains(x),
        pool.contains(y),
        x != y,
    ensures
        x.id@ != y.id@,
{
    let k = choose|k: int| 0 <= k < pool.len() && pool[k] == x;
    let l = choose|l: int| 0 <= l < pool.len() && pool[l] == y;
    if k < l {
        assert(pool[k].id@ != pool[l].id@);
    } else {
        assert(pool[l].id@ != pool[k].id@);
    }
}

/// No duplicate allocation: when the pool's identifiers are distinct, the
/// records a batch draws carry pairwise distinct identifiers, none of them
/// stays reachable in the remaining pool, and the remaining pool's
/// identifiers stay distinct — so the guarantee carries over to every
/// later batch against the same inventory.
pub proof fn lemma_no_duplicate_allocation(pool: Seq<PreLoad>, ctx: DrawCtx, n: nat)
    requires
        n <= pool.len(),
        spec_distinct_ids(pool),
    ensures
        ({
            let drawn = spec_drawn_seq(pool, ctx, n);
            let after = spec_pool_after(pool, ctx, n);
            &&& forall|i: int, j: int| 0 <= i < j < n ==> drawn[i].id@ != drawn[j].id@
            &&& spec_distinct_ids(after)
            &&& forall|i: int, j: int|
                0 <= i < n && 0 <= j < after.len() ==> drawn[i].id@ != after[j].id@
        }),
{
    broadcast use group_to_multiset_ensures;
    broadcast use vstd::multiset::group_multiset_axioms;

    let drawn = spec_drawn_seq(pool, ctx, n);
    let after = spec_pool_after(pool, ctx, n);
    lemma_draws_partition(pool, ctx, n);
    lemma_pool_after_len(pool, ctx, n);
    let pm = pool.to_multiset();
    let am = after.to_multiset();
    let dm = drawn.to_multiset();
    assert(am.add(dm) == pm);
    assert(forall|x: PreLoad| #[trigger] pm.count(x) == am.count(x) + dm.count(x)) by {
        assert(forall|x: PreLoad| #[trigger] am.add(dm).count(x) == am.count(x) + dm.count(x));
    }

    assert(pool.no_duplicates()) by {
        assert forall|i: int, j: int|
            0 <= i < pool.len() && 0 <= j < pool.len() && i != j implies pool[i] != pool[j] by {
            if i < j {
                assert(pool[i].id@ != pool[j].id@);
            } else {
                assert(pool[j].id@ != pool[i].id@);
            }
        }
    }
    pool.lemma_multiset_has_no_duplicates();

    assert forall|x: PreLoad| dm.contains(x) implies dm.count(x) == 1 by {
        assert(pm.count(x) >= dm.count(x));
        assert(pm.contains(x));
    }
    drawn.lemma_multiset_has_no_duplicates_conv();
    assert forall|x: PreLoad| am.contains(x) implies am.count(x) == 1 by {
        assert(pm.count(x) >= am.count(x));
        assert(pm.contains(x));
    }
    after.lemma_multiset_has_no_duplicates_conv();

    assert forall|i: int, j: int| 0 <= i < j < n implies drawn[i].id@ != drawn[j].id@ by {
        assert(drawn[i] != drawn[j]);
        assert(drawn.contains(drawn[i]));
        assert(drawn.contains(drawn[j]));
        assert(pm.count(drawn[i]) >= dm.count(drawn[i]));
        assert(pm.count(drawn[j]) >= dm.count(drawn[j]));
        assert(pool.contains(drawn[i]));
        assert(pool.contains(drawn[j]));
        lemma_ids_from_pool(pool, drawn[i], drawn[j]);
    }
    assert forall|i: int, j: int| 0 <= i < j < after.len() implies after[i].id@ != after[j].id@ by {
        assert(after[i] != after[j]);
        assert(after.contains(after[i]));
        assert(after.contains(after[j]));
        assert(pm.count(after[i]) >= am.count(after[i]));
        assert(pm.count(after[j]) >= am.count(after[j]));
        assert(pool.contains(after[i]));
        assert(pool.contains(after[j]));
        lemma_ids_from_pool(pool, after[i], after[j]);
    }
    assert forall|i: int, j: int|
        0 <= i < n && 0 <= j < after.len() implies drawn[i].id@ != after[j].id@ by {
        assert(drawn.contains(drawn[i]));
        assert(after.contains(after[j]));
        assert(dm.count(drawn[i]) > 0);
        assert(am.count(after[j]) > 0);
        if drawn[i] == after[j] {
            assert(pm.count(drawn[i]) >= 2);
            assert(pm.contains(drawn[i]));
        } else {
            assert(pm.count(drawn[i]) >= dm.count(drawn[i]));
            assert(pm.count(after[j]) >= am.count(after[j]));
            assert(pool.contains(drawn[i]));
            assert(pool.contains(after[j]));
            lemma_ids_from_pool(pool, drawn[i], after[j]);
        }
    }
}

/// Performs one draw against the live pool: selects the record the seed
/// points at, removes it by swap-with-last, and returns it with the
/// secondary attribute.
pub fn draw_token(inventory: &mut Vec<PreLoad>, seed: &[u8; 32]) -> (r: (PreLoad, u32))
    requires
        0 < old(inventory)@.len() <= u16::MAX,
    ensures
        ({
            let idx = spec_draw_index(seed@, old(inventory)@.len() as int);
            &&& r.0 == old(inventory)@[idx]
            &&& final(inventory)@ == spec_swap_removed(old(inventory)@, idx)
            &&& r.1 == chacha_speed_of(seed@)
            &&& 1 <= r.1 <= 100
        }),
{
    let remaining = inventory.len();
    let (idx, speed) = draw_from_seed(seed, remaining);
    let token = inventory.swap_remove(idx);
    (token, speed)
}

} // verus!
