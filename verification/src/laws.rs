//! The library's cross-cutting guarantees, proved from the handlers'
//! outcome predicates: no duplicate allocation, exhaustion behaviour,
//! payment exactness, single use of an allow-list entry, mode gating,
//! determinism of the draws, and the issuance-target lock.

use vstd::prelude::*;

use crate::contract::{
    spec_add_nft_contract_outcome, spec_mint_check, spec_mint_ctx, spec_mint_outcome,
};
use crate::draw::{
    lemma_no_duplicate_allocation, spec_distinct_ids, spec_drawn_at, spec_drawn_seq,
    spec_pool_after, spec_seed_for, spec_speed_at, DrawCtx,
};
use crate::msg::{Env, MintError, PreLoad, Response, SecretContract};
use crate::state::{lemma_wl_mark_status, spec_wl_status, MinterState};

verus! {

/// No duplicate allocation, across requests: when a request succeeds
/// against a pool of distinct identifiers, the identifiers it draws are
/// pairwise distinct, none of them remains reachable in the pool, and the
/// pool keeps distinct identifiers — so the same holds of every later
/// successful request against the resulting state.
pub proof fn lemma_no_duplicate_over_request(
    pre: MinterState,
    env: Env,
    amount: u128,
    requester: Seq<char>,
    n: u16,
    r: Result<Response, MintError>,
    post: MinterState,
)
    requires
        spec_mint_outcome(pre, env, amount, requester, n, r, post),
        r is Ok,
        spec_distinct_ids(pre.inventory@),
    ensures
        ({
            let ctx = spec_mint_ctx(pre, env, requester);
            let drawn = spec_drawn_seq(pre.inventory@, ctx, n as nat);
            &&& forall|i: int, j: int| 0 <= i < j < n ==> drawn[i].id@ != drawn[j].id@
            &&& forall|i: int, j: int|
                0 <= i < n && 0 <= j < post.inventory@.len() ==> drawn[i].id@
                    != post.inventory@[j].id@
            &&& spec_distinct_ids(post.inventory@)
        }),
{
    let ctx = spec_mint_ctx(pre, env, requester);
    assert(spec_mint_check(pre, requester, amount, n) is None);
    assert(n <= pre.inventory@.len());
    lemma_no_duplicate_allocation(pre.inventory@, ctx, n as nat);
}

/// Exhaustion: once the pool is empty, every allocation request is
/// rejected with `InventoryExhausted` and changes nothing.
pub proof fn lemma_exhaustion(
    pre: MinterState,
    env: Env,
    amount: u128,
    requester: Seq<char>,
    n: u16,
    r: Result<Response, MintError>,
    post: MinterState,
)
    requires
        spec_mint_outcome(pre, env, amount, requester, n, r, post),
        pre.config.nft_contract is Some,
        pre.inventory@.len() == 0,
    ensures
        r == Err::<Response, MintError>(MintError::InventoryExhausted),
        post == pre,
{
}

/// Insufficient inventory: a request for more than remains is rejected
/// with `InsufficientInventory` and changes nothing.
pub proof fn lemma_insufficient_inventory(
    pre: MinterState,
    env: Env,
    amount: u128,
    requester: Seq<char>,
    n: u16,
    r: Result<Response, MintError>,
    post: MinterState,
)
    requires
        spec_mint_outcome(pre, env, amount, requester, n, r, post),
        pre.config.nft_contract is Some,
        0 < pre.inventory@.len() < n,
    ensures
        r == Err::<Response, MintError>(MintError::InsufficientInventory),
        post == pre,
{
}

/// Payment exactness: an otherwise valid request whose amount is not
/// exactly price times count is rejected with `PaymentMismatch`, and
/// inventory, allow-list and configuration stay unchanged.
pub proof fn lemma_payment_exactness(
    pre: MinterState,
    env: Env,
    amount: u128,
    requester: Seq<char>,
    n: u16,
    r: Result<Response, MintError>,
    post: MinterState,
)
    requires
        spec_mint_outcome(pre, env, amount, requester, n, r, post),
        pre.config.nft_contract is Some,
        0 < n <= pre.inventory@.len(),
        n <= pre.config.max_mint_per_tx,
        pre.config.standard_mint_enabled || pre.config.whitelist_mint_enabled,
        pre.config.mint_price * n != amount,
    ensures
        r == Err::<Response, MintError>(MintError::PaymentMismatch),
        post == pre,
{
}

/// Mode gating: with both sale-mode flags off, an allocation request
/// passing the configuration, inventory and cap guards is rejected with
/// `MintingDisabled`, whatever the amount.
pub proof fn lemma_mode_gating(
    pre: MinterState,
    env: Env,
    amount: u128,
    requester: Seq<char>,
    n: u16,
    r: Result<Response, MintError>,
    post: MinterState,
)
    requires
        spec_mint_outcome(pre, env, amount, requester, n, r, post),
        pre.config.nft_contract is Some,
        0 < n <= pre.inventory@.len(),
        n <= pre.config.max_mint_per_tx,
        !pre.config.standard_mint_enabled,
        !pre.config.whitelist_mint_enabled,
    ensures
        r == Err::<Response, MintError>(MintError::MintingDisabled),
        post == pre,
{
}

/// Allow-list single use: under allow-list-only sale, an eligible-unused
/// identity's first successful request consumes its entry — it reads as
/// used afterwards, other identities are untouched — and a second,
/// otherwise valid request by the same identity under the same modes is
/// rejected with `AlreadyClaimed` and changes nothing.
pub proof fn lemma_allow_list_single_use(
    s0: MinterState,
    env1: Env,
    amount1: u128,
    requester: Seq<char>,
    n1: u16,
    r1: Result<Response, MintError>,
    s1: MinterState,
    env2: Env,
    amount2: u128,
    n2: u16,
    r2: Result<Response, MintError>,
    s2: MinterState,
)
    requires
        s0.config.whitelist_mint_enabled,
        !s0.config.standard_mint_enabled,
        spec_mint_outcome(s0, env1, amount1, requester, n1, r1, s1),
        r1 is Ok,
        spec_mint_outcome(s1, env2, amount2, requester, n2, r2, s2),
        0 < n2 <= s1.inventory@.len(),
        n2 <= s1.config.max_mint_per_tx,
        s1.config.mint_price * n2 == amount2,
    ensures
        spec_wl_status(s0.whitelist@, requester) == Some(false),
        spec_wl_status(s1.whitelist@, requester) == Some(true),
        forall|b: Seq<char>|
            b != requester ==> #[trigger] spec_wl_status(s1.whitelist@, b) == spec_wl_status(
                s0.whitelist@,
                b,
            ),
        r2 == Err::<Response, MintError>(MintError::AlreadyClaimed),
        s2 == s1,
{
    assert(spec_mint_check(s0, requester, amount1, n1) is None);
    assert(spec_wl_status(s0.whitelist@, requester) == Some(false));
    lemma_wl_mark_status(s0.whitelist@, requester);
    assert(spec_wl_status(s1.whitelist@, requester) == Some(true));
    assert(s1.config == s0.config);
    assert(spec_mint_check(s1, requester, amount2, n2) == Some(MintError::AlreadyClaimed));
}

/// Determinism: the per-draw seed, the selected record and the secondary
/// attribute are functions of the persistent secret, the block height and
/// time, the requester identity, the sequence index and the pool alone —
/// two derivations from identical inputs agree.
pub proof fn lemma_draw_determinism(ctx1: DrawCtx, ctx2: DrawCtx, pool: Seq<PreLoad>, i: nat)
    requires
        ctx1.prng_seed == ctx2.prng_seed,
        ctx1.height == ctx2.height,
        ctx1.time == ctx2.time,
        ctx1.requester == ctx2.requester,
        1 <= i,
    ensures
        spec_seed_for(ctx1, i as int) == spec_seed_for(ctx2, i as int),
        spec_drawn_at(pool, ctx1, i) == spec_drawn_at(pool, ctx2, i),
        spec_pool_after(pool, ctx1, i) == spec_pool_after(pool, ctx2, i),
        spec_speed_at(ctx1, i as int) == spec_speed_at(ctx2, i as int),
{
    assert(ctx1 == ctx2);
}

/// Issuance-target lock: for the administrator, `AddNftContract` is
/// rejected with `PreconditionFailed` exactly when either sale-mode flag
/// is on; with both off it succeeds and assigns the target.
pub proof fn lemma_issuance_target_lock(
    pre: MinterState,
    env: Env,
    contract: SecretContract,
    r: Result<Response, MintError>,
    post: MinterState,
)
    requires
        spec_add_nft_contract_outcome(pre, env, contract, r, post),
        env.message_sender@ == pre.config.admin@,
    ensures
        (pre.config.standard_mint_enabled || pre.config.whitelist_mint_enabled) <==> (r == Err::<
            Response,
            MintError,
        >(MintError::PreconditionFailed) && post == pre),
        (!pre.config.standard_mint_enabled && !pre.config.whitelist_mint_enabled) ==> (r is Ok
            && post.config.nft_contract == Some(contract)),
{
}

} // verus!
