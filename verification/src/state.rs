//! The persistent state of the minter: the singleton configuration, the
//! persistent seed, the pool of undrawn tokens and the allow-list.
//!
//! The pool is a dense vector: slot `k` (1-based) of the stored inventory
//! is index `k - 1`, and the remaining count is the vector's length. The
//! allow-list is a vector of entries read and written under first-match
//! semantics, which observes exactly like a map from identity to flag.

use vstd::prelude::*;

use crate::msg::{PreLoad, RevenueSplit, SecretContract};

verus! {

/// The administrator-owned configuration.
#[derive(Clone, Debug)]
pub struct Config {
    pub admin: String,
    pub token_contract: SecretContract,
    /// Destination issuance contract; absent until set.
    pub nft_contract: Option<SecretContract>,
    pub whitelist_mint_enabled: bool,
    pub standard_mint_enabled: bool,
    /// Unit price in the smallest denomination of the payment token.
    pub mint_price: u128,
    pub max_mint_per_tx: u16,
    pub revenue_split: Vec<RevenueSplit>,
    pub change_metadata_permited_addresses: Vec<String>,
}

/// One allow-list record: an identity and whether it has used its
/// privileged allocation.
#[derive(Clone, Debug)]
pub struct WhitelistEntry {
    pub addr: String,
    pub minted: bool,
}

/// The whole persistent state of the contract.
#[derive(Clone, Debug)]
pub struct MinterState {
    pub config: Config,
    /// The persistent secret seed, 32 bytes.
    pub prng_seed: Vec<u8>,
    /// The undrawn tokens; slot `k` is index `k - 1`.
    pub inventory: Vec<PreLoad>,
    /// How many tokens were ever preloaded. Draws shrink `inventory` but
    /// never this, which gates further preloading.
    pub total_loaded: u16,
    pub whitelist: Vec<WhitelistEntry>,
}

impl MinterState {
    /// Well-formedness: the seed has its 32 bytes and the pool never holds
    /// more than was preloaded.
    pub open spec fn wf(self) -> bool {
        &&& self.prng_seed@.len() == 32
        &&& self.inventory@.len() <= self.total_loaded
    }

    /// The remaining count, as the query reports it.
    pub open spec fn spec_remaining(self) -> int {
        self.inventory@.len() as int
    }
}

/// Index of the first entry for `addr`, or `wl.len()` if there is none.
pub open spec fn spec_wl_find(wl: Seq<WhitelistEntry>, addr: Seq<char>) -> int
    decreases wl.len(),
{
    if wl.len() == 0 {
        0
    } else if wl[0].addr@ == addr {
        0
    } else {
        1 + spec_wl_find(wl.drop_first(), addr)
    }
}

/// The tri-state admission flag of `addr`: `None` is unlisted,
/// `Some(false)` eligible and unused, `Some(true)` eligible and used.
pub open spec fn spec_wl_status(wl: Seq<WhitelistEntry>, addr: Seq<char>) -> Option<bool> {
    if spec_wl_find(wl, addr) < wl.len() {
        Some(wl[spec_wl_find(wl, addr)].minted)
    } else {
        None
    }
}

/// The allow-list after marking `addr` used: its first entry flagged, the
/// rest untouched; unchanged when `addr` has no entry.
pub open spec fn spec_wl_mark(wl: Seq<WhitelistEntry>, addr: Seq<char>) -> Seq<WhitelistEntry> {
    if spec_wl_find(wl, addr) < wl.len() {
        wl.update(
            spec_wl_find(wl, addr),
            WhitelistEntry { addr: wl[spec_wl_find(wl, addr)].addr, minted: true },
        )
    } else {
        wl
    }
}

/// `spec_wl_find` lands on the first matching entry: everything before it
/// mismatches, and it matches unless it is the length.
pub proof fn lemma_wl_find_props(wl: Seq<WhitelistEntry>, addr: Seq<char>)
    ensures
        0 <= spec_wl_find(wl, addr) <= wl.len(),
        spec_wl_find(wl, addr) < wl.len() ==> wl[spec_wl_find(wl, addr)].addr@ == addr,
        forall|j: int| 0 <= j < spec_wl_find(wl, addr) ==> wl[j].addr@ != addr,
    decreases wl.len(),
{
    if wl.len() > 0 && wl[0].addr@ != addr {
        lemma_wl_find_props(wl.drop_first(), addr);
        assert forall|j: int| 0 <= j < spec_wl_find(wl, addr) implies wl[j].addr@ != addr by {
            if j > 0 {
                assert(wl.drop_first()[j - 1] == wl[j]);
            }
        }
    }
}

/// `spec_wl_find` is pinned by the first-match description: if nothing
/// before `i` matches and `i` matches (or `i` is the length), the find is
/// `i`.
pub proof fn lemma_wl_find_unique(wl: Seq<WhitelistEntry>, addr: Seq<char>, i: int)
    requires
        0 <= i <= wl.len(),
        forall|j: int| 0 <= j < i ==> wl[j].addr@ != addr,
        i < wl.len() ==> wl[i].addr@ == addr,
    ensures
        spec_wl_find(wl, addr) == i,
{
    lemma_wl_find_props(wl, addr);
    let f = spec_wl_find(wl, addr);
    if f < i {
        assert(wl[f].addr@ == addr);
    } else if f > i {
        assert(i < wl.len());
    }
}

/// Two lists with the same identities in the same places are searched
/// alike.
pub proof fn lemma_wl_find_addrs_equal(
    wl1: Seq<WhitelistEntry>,
    wl2: Seq<WhitelistEntry>,
    addr: Seq<char>,
)
    requires
        wl1.len() == wl2.len(),
        forall|i: int| 0 <= i < wl1.len() ==> wl1[i].addr@ == wl2[i].addr@,
    ensures
        spec_wl_find(wl1, addr) == spec_wl_find(wl2, addr),
    decreases wl1.len(),
{
    if wl1.len() > 0 {
        assert forall|i: int| 0 <= i < wl1.drop_first().len() implies wl1.drop_first()[i].addr@
            == wl2.drop_first()[i].addr@ by {
            assert(wl1[i + 1].addr@ == wl2[i + 1].addr@);
        }
        lemma_wl_find_addrs_equal(wl1.drop_first(), wl2.drop_first(), addr);
    }
}

/// Marking consumes exactly the one entry: a listed identity reads as
/// used afterwards, an unlisted one stays unlisted, and every other
/// identity reads as before.
pub proof fn lemma_wl_mark_status(wl: Seq<WhitelistEntry>, addr: Seq<char>)
    ensures
        spec_wl_status(wl, addr) is Some ==> spec_wl_status(spec_wl_mark(wl, addr), addr) == Some(
            true,
        ),
        spec_wl_status(wl, addr) is None ==> spec_wl_mark(wl, addr) == wl,
        forall|b: Seq<char>|
            b != addr ==> #[trigger] spec_wl_status(spec_wl_mark(wl, addr), b) == spec_wl_status(
                wl,
                b,
            ),
{
    lemma_wl_find_props(wl, addr);
    let f = spec_wl_find(wl, addr);
    let marked = spec_wl_mark(wl, addr);
    if f < wl.len() {
        assert forall|i: int| 0 <= i < wl.len() implies wl[i].addr@ == marked[i].addr@ by {}
        assert(spec_wl_find(marked, addr) == f) by {
            lemma_wl_find_addrs_equal(wl, marked, addr);
        }
        assert(spec_wl_status(marked, addr) == Some(true));
        assert forall|b: Seq<char>| b != addr implies #[trigger] spec_wl_status(marked, b)
            == spec_wl_status(wl, b) by {
            lemma_wl_find_addrs_equal(wl, marked, b);
            lemma_wl_find_props(wl, b);
            let g = spec_wl_find(wl, b);
            if g < wl.len() {
                assert(wl[g].addr@ == b);
                assert(g != f);
            }
        }
    }
}

/// Reads the admission flag of `addr`, as a map lookup would.
pub fn whitelist_status(wl: &Vec<WhitelistEntry>, addr: &String) -> (r: Option<bool>)
    ensures
        r == spec_wl_status(wl@, addr@),
{
    let n = wl.len();
    let mut i: usize = 0;
    while i < n
        invariant
            n == wl@.len(),
            i <= n,
            forall|j: int| 0 <= j < i ==> wl@[j].addr@ != addr@,
        decreases n - i,
    {
        if wl[i].addr == *addr {
            proof {
                lemma_wl_find_unique(wl@, addr@, i as int);
            }
            return Some(wl[i].minted);
        }
        i = i + 1;
    }
    proof {
        lemma_wl_find_unique(wl@, addr@, n as int);
    }
    None
}

/// Flags the entry of `addr` as used. The caller guards that an entry
/// exists and is unused; on a stray call without one, nothing changes.
pub fn whitelist_mark_used(wl: &mut Vec<WhitelistEntry>, addr: &String)
    ensures
        final(wl)@ == spec_wl_mark(old(wl)@, addr@),
{
    let n = wl.len();
    let mut i: usize = 0;
    while i < n
        invariant
            n == wl@.len(),
            i <= n,
            wl@ == old(wl)@,
            forall|j: int| 0 <= j < i ==> wl@[j].addr@ != addr@,
        decreases n - i,
    {
        if wl[i].addr == *addr {
            proof {
                lemma_wl_find_unique(wl@, addr@, i as int);
            }
            let a = wl[i].addr.clone();
            let e = &mut wl[i];
            *e = WhitelistEntry { addr: a, minted: true };
            return ;
        }
        i = i + 1;
    }
    proof {
        lemma_wl_find_unique(wl@, addr@, n as int);
    }
}

} // verus!
