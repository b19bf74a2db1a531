//! The command handlers: initialization, the administrator commands, the
//! payment-notification event that allocates tokens, and the status query.
//!
//! Every handler is a pure transition on [`MinterState`] plus plain call
//! context; its outcome — the new state, the answer and the outbound
//! instructions, or the typed rejection — is pinned down by a spec
//! predicate. A rejection never changes state.

use vstd::prelude::*;
use vstd::string::StringExecFns;

use crate::bytes::{decimal_bytes, decimal_string, spec_decimal_chars};
use crate::crypto::{new_entropy, new_prng_seed, spec_prng_seed};
use crate::draw::{
    draw_token, spec_drawn_at, spec_pool_after, spec_seed_for, spec_speed_at, spec_swap_removed,
    DrawCtx,
};
use crate::msg::{
    Authentication, Env, Extension, HandleAnswer, HandleMsg, HandleReceiveMsg, HiddenAttribute,
    InitMsg, MediaFile, Metadata, Mint, MintError, NftsHandleMsg, OutMsg, PreLoad, QueryAnswer,
    QueryMsg, Response, ResponseStatus, SecretContract, Trait,
};
use crate::state::{
    spec_wl_mark, spec_wl_status, whitelist_mark_used, whitelist_status, Config, MinterState,
    WhitelistEntry,
};

verus! {

/// Copies a contract reference; the copy equals the original.
fn clone_contract(c: &SecretContract) -> (r: SecretContract)
    ensures
        r == *c,
{
    SecretContract {
        contract_addr: c.contract_addr.clone(),
        token_code_hash: c.token_code_hash.clone(),
    }
}

/// A successful command answer with no outbound instruction.
pub open spec fn spec_plain_ok(r: Result<Response, MintError>, a: HandleAnswer) -> bool {
    &&& r matches Ok(resp)
    &&& resp.messages@.len() == 0
    &&& resp.data == Some(a)
}

/// Outcome of `init`: the fresh state and the single registration
/// instruction to the payment token.
pub open spec fn spec_init_outcome(
    env: Env,
    msg: InitMsg,
    s: MinterState,
    out: Seq<OutMsg>,
) -> bool {
    &&& s.config.admin@ == (match msg.admin {
        Some(a) => a@,
        None => env.message_sender@,
    })
    &&& s.config.token_contract == msg.token_contract
    &&& s.config.nft_contract is None
    &&& !s.config.whitelist_mint_enabled
    &&& !s.config.standard_mint_enabled
    &&& s.config.mint_price == msg.mint_price
    &&& s.config.max_mint_per_tx == msg.max_mint_per_tx
    &&& s.config.revenue_split == msg.revenue_split
    &&& s.config.change_metadata_permited_addresses@.len() == 0
    &&& s.prng_seed@ == spec_prng_seed(msg.entropy@)
    &&& s.inventory@.len() == 0
    &&& s.total_loaded == 0
    &&& s.whitelist@.len() == msg.whitelist@.len()
    &&& forall|i: int|
        0 <= i < msg.whitelist@.len() ==> (#[trigger] s.whitelist@[i]).addr@ == msg.whitelist@[i]@
            && !s.whitelist@[i].minted
    &&& out.len() == 1
    &&& out[0] matches OutMsg::RegisterReceive { callback_code_hash, target }
        && callback_code_hash@ == env.contract_code_hash@ && target == msg.token_contract
}

/// Establishes the configuration, the persistent secret seed, the empty
/// pool and the allow-list entries, and registers with the payment token.
pub fn init(env: &Env, msg: InitMsg) -> (r: (MinterState, Vec<OutMsg>))
    ensures
        spec_init_outcome(*env, msg, r.0, r.1@),
        r.0.wf(),
{
    let admin = match msg.admin {
        Some(a) => a,
        None => env.message_sender.clone(),
    };
    let mut whitelist: Vec<WhitelistEntry> = Vec::new();
    let n = msg.whitelist.len();
    let mut i: usize = 0;
    while i < n
        invariant
            n == msg.whitelist@.len(),
            i <= n,
            whitelist@.len() == i,
            forall|k: int|
                0 <= k < i ==> (#[trigger] whitelist@[k]).addr@ == msg.whitelist@[k]@
                    && !whitelist@[k].minted,
        decreases n - i,
    {
        whitelist.push(WhitelistEntry { addr: msg.whitelist[i].clone(), minted: false });
        i = i + 1;
    }
    let config = Config {
        admin,
        token_contract: clone_contract(&msg.token_contract),
        nft_contract: None,
        whitelist_mint_enabled: false,
        standard_mint_enabled: false,
        mint_price: msg.mint_price,
        max_mint_per_tx: msg.max_mint_per_tx,
        revenue_split: msg.revenue_split,
        change_metadata_permited_addresses: Vec::new(),
    };
    let prng_seed = new_prng_seed(msg.entropy.as_str());
    let state = MinterState { config, prng_seed, inventory: Vec::new(), total_loaded: 0, whitelist };
    let mut out: Vec<OutMsg> = Vec::new();
    out.push(
        OutMsg::RegisterReceive {
            callback_code_hash: env.contract_code_hash.clone(),
            target: msg.token_contract,
        },
    );
    (state, out)
}

/// Outcome of `update_mint`: only the administrator may call; the two
/// flags are overwritten unconditionally, price and cap only when given;
/// nothing else moves.
pub open spec fn spec_update_mint_outcome(
    pre: MinterState,
    env: Env,
    whitelist_mint_enabled: bool,
    standard_mint_enabled: bool,
    mint_price: Option<u128>,
    max_mint_per_tx: Option<u16>,
    r: Result<Response, MintError>,
    post: MinterState,
) -> bool {
    if env.message_sender@ != pre.config.admin@ {
        r == Err::<Response, MintError>(MintError::Unauthorized) && post == pre
    } else {
        &&& spec_plain_ok(r, HandleAnswer::UpdateMint { status: ResponseStatus::Success })
        &&& post == MinterState {
            config: Config {
                whitelist_mint_enabled,
                standard_mint_enabled,
                mint_price: (match mint_price {
                    Some(p) => p,
                    None => pre.config.mint_price,
                }),
                max_mint_per_tx: (match max_mint_per_tx {
                    Some(c) => c,
                    None => pre.config.max_mint_per_tx,
                }),
                ..pre.config
            },
            ..pre
        }
    }
}

/// Overwrites the sale-mode flags, and price and cap when given.
pub fn update_mint(
    s: &mut MinterState,
    env: &Env,
    whitelist_mint_enabled: bool,
    standard_mint_enabled: bool,
    mint_price: Option<u128>,
    max_mint_per_tx: Option<u16>,
) -> (r: Result<Response, MintError>)
    requires
        old(s).wf(),
    ensures
        spec_update_mint_outcome(
            *old(s),
            *env,
            whitelist_mint_enabled,
            standard_mint_enabled,
            mint_price,
            max_mint_per_tx,
            r,
            *final(s),
        ),
        final(s).wf(),
{
    if env.message_sender != s.config.admin {
        return Err(MintError::Unauthorized);
    }
    s.config.whitelist_mint_enabled = whitelist_mint_enabled;
    s.config.standard_mint_enabled = standard_mint_enabled;
    if let Some(p) = mint_price {
        s.config.mint_price = p;
    }
    if let Some(c) = max_mint_per_tx {
        s.config.max_mint_per_tx = c;
    }
    Ok(
        Response {
            messages: Vec::new(),
            data: Some(HandleAnswer::UpdateMint { status: ResponseStatus::Success }),
        },
    )
}

/// Outcome of `add_nft_contract`: administrator only, and only while both
/// sale modes are off; then the issuance target is (re)assigned.
pub open spec fn spec_add_nft_contract_outcome(
    pre: MinterState,
    env: Env,
    contract: SecretContract,
    r: Result<Response, MintError>,
    post: MinterState,
) -> bool {
    if env.message_sender@ != pre.config.admin@ {
        r == Err::<Response, MintError>(MintError::Unauthorized) && post == pre
    } else if pre.config.standard_mint_enabled || pre.config.whitelist_mint_enabled {
        r == Err::<Response, MintError>(MintError::PreconditionFailed) && post == pre
    } else {
        &&& spec_plain_ok(r, HandleAnswer::AddNftContract { status: ResponseStatus::Success })
        &&& post == MinterState {
            config: Config { nft_contract: Some(contract), ..pre.config },
            ..pre
        }
    }
}

/// Assigns the issuance contract, only while minting is fully stopped.
pub fn add_nft_contract(s: &mut MinterState, env: &Env, contract: SecretContract) -> (r: Result<
    Response,
    MintError,
>)
    requires
        old(s).wf(),
    ensures
        spec_add_nft_contract_outcome(*old(s), *env, contract, r, *final(s)),
        final(s).wf(),
{
    if env.message_sender != s.config.admin {
        return Err(MintError::Unauthorized);
    }
    if s.config.standard_mint_enabled || s.config.whitelist_mint_enabled {
        return Err(MintError::PreconditionFailed);
    }
    s.config.nft_contract = Some(contract);
    Ok(
        Response {
            messages: Vec::new(),
            data: Some(HandleAnswer::AddNftContract { status: ResponseStatus::Success }),
        },
    )
}

/// Outcome of `change_admin`: administrator only; the administrator is
/// replaced atomically.
pub open spec fn spec_change_admin_outcome(
    pre: MinterState,
    env: Env,
    admin: String,
    r: Result<Response, MintError>,
    post: MinterState,
) -> bool {
    if env.message_sender@ != pre.config.admin@ {
        r == Err::<Response, MintError>(MintError::Unauthorized) && post == pre
    } else {
        &&& spec_plain_ok(r, HandleAnswer::ChangeAdmin { status: ResponseStatus::Success })
        &&& post == MinterState { config: Config { admin, ..pre.config }, ..pre }
    }
}

/// Replaces the administrator.
pub fn change_admin(s: &mut MinterState, env: &Env, admin: String) -> (r: Result<
    Response,
    MintError,
>)
    requires
        old(s).wf(),
    ensures
        spec_change_admin_outcome(*old(s), *env, admin, r, *final(s)),
        final(s).wf(),
{
    if env.message_sender != s.config.admin {
        return Err(MintError::Unauthorized);
    }
    s.config.admin = admin;
    Ok(
        Response {
            messages: Vec::new(),
            data: Some(HandleAnswer::ChangeAdmin { status: ResponseStatus::Success }),
        },
    )
}

/// Outcome of `update_change_metadata_permited_addresses`: administrator
/// only; the permission list is replaced wholesale.
pub open spec fn spec_update_permitted_outcome(
    pre: MinterState,
    env: Env,
    addresses: Seq<String>,
    r: Result<Response, MintError>,
    post: MinterState,
) -> bool {
    if env.message_sender@ != pre.config.admin@ {
        r == Err::<Response, MintError>(MintError::Unauthorized) && post == pre
    } else {
        &&& spec_plain_ok(
            r,
            HandleAnswer::UpdateChangeMetadataPermitedAdresses { status: ResponseStatus::Success },
        )
        &&& post.config.change_metadata_permited_addresses@ == addresses
        &&& post == MinterState {
            config: Config {
                change_metadata_permited_addresses: post.config.change_metadata_permited_addresses,
                ..pre.config
            },
            ..pre
        }
    }
}

/// Replaces the list of identities permitted to edit issued-item metadata.
pub fn update_change_metadata_permited_addresses(
    s: &mut MinterState,
    env: &Env,
    change_metadata_permited_addresses: Vec<String>,
) -> (r: Result<Response, MintError>)
    requires
        old(s).wf(),
    ensures
        spec_update_permitted_outcome(
            *old(s),
            *env,
            change_metadata_permited_addresses@,
            r,
            *final(s),
        ),
        final(s).wf(),
{
    if env.message_sender != s.config.admin {
        return Err(MintError::Unauthorized);
    }
    s.config.change_metadata_permited_addresses = change_metadata_permited_addresses;
    Ok(
        Response {
            messages: Vec::new(),
            data: Some(
                HandleAnswer::UpdateChangeMetadataPermitedAdresses {
                    status: ResponseStatus::Success,
                },
            ),
        },
    )
}

/// Outcome of `load_metadata`: administrator only; forbidden once any
/// draw has happened; otherwise the records are appended in order to the
/// next free slots.
pub open spec fn spec_load_metadata_outcome(
    pre: MinterState,
    env: Env,
    new_data: Seq<PreLoad>,
    r: Result<Response, MintError>,
    post: MinterState,
) -> bool {
    if env.message_sender@ != pre.config.admin@ {
        r == Err::<Response, MintError>(MintError::Unauthorized) && post == pre
    } else if pre.inventory@.len() < pre.total_loaded {
        r == Err::<Response, MintError>(MintError::PreconditionFailed) && post == pre
    } else {
        &&& r matches Ok(resp) && resp.messages@.len() == 0 && resp.data is None
        &&& post.inventory@ == pre.inventory@ + new_data
        &&& post.total_loaded == pre.total_loaded + new_data.len()
        &&& post.config == pre.config
        &&& post.prng_seed == pre.prng_seed
        &&& post.whitelist == pre.whitelist
    }
}

/// Preloads token records into the next free slots. Preloading is gated
/// to before the first draw, so slot numbers never collide with
/// relocations.
pub fn load_metadata(s: &mut MinterState, env: &Env, new_data: Vec<PreLoad>) -> (r: Result<
    Response,
    MintError,
>)
    requires
        old(s).wf(),
        old(s).total_loaded + new_data@.len() <= u16::MAX,
    ensures
        spec_load_metadata_outcome(*old(s), *env, new_data@, r, *final(s)),
        final(s).wf(),
{
    if env.message_sender != s.config.admin {
        return Err(MintError::Unauthorized);
    }
    if s.inventory.len() < s.total_loaded as usize {
        return Err(MintError::PreconditionFailed);
    }
    let count = new_data.len();
    let mut new_data = new_data;
    let ghost data0 = new_data@;
    let mut i: usize = 0;
    while i < count
        invariant
            count == data0.len(),
            i <= count,
            new_data@ == data0.skip(i as int),
            s.inventory@ == old(s).inventory@ + data0.take(i as int),
            s.config == old(s).config,
            s.prng_seed == old(s).prng_seed,
            s.whitelist == old(s).whitelist,
            s.total_loaded == old(s).total_loaded,
        decreases count - i,
    {
        let d = new_data.remove(0);
        proof {
            assert(data0.skip(i as int).remove(0) =~= data0.skip(i + 1));
            assert(old(s).inventory@ + data0.take(i as int) + seq![data0[i as int]] =~= old(
                s,
            ).inventory@ + data0.take(i + 1));
        }
        s.inventory.push(d);
        i = i + 1;
    }
    proof {
        assert(data0.take(count as int) =~= data0);
    }
    s.total_loaded = s.total_loaded + (count as u16);
    Ok(Response { messages: Vec::new(), data: None })
}

/// One displayable trait with the given name and value and nothing else.
pub open spec fn spec_trait_matches(t: Trait, trait_type: Seq<char>, value: Seq<char>) -> bool {
    &&& t.display_type is None
    &&& t.trait_type matches Some(tt) && tt@ == trait_type
    &&& t.value@ == value
    &&& t.max_value is None
}

/// The fixed media block of a minted token: one gif image at the
/// record's URL, with empty authentication.
pub open spec fn spec_media_matches(m: MediaFile, img_url: Seq<char>) -> bool {
    &&& m.file_type matches Some(f) && f@ == "image"@
    &&& m.extension matches Some(e) && e@ == "gif"@
    &&& m.authentication matches Some(a) && (a.key matches Some(k) && k@ == ""@) && (
    a.user matches Some(u) && u@ == ""@)
    &&& m.url@ == img_url
}

/// The public metadata of a minted token: the templated name, the two
/// zeroed counters, and the media block.
pub open spec fn spec_public_extension_matches(e: Extension, token: PreLoad) -> bool {
    &&& e.image is None
    &&& e.image_data is None
    &&& e.external_url is None
    &&& e.description is None
    &&& e.name matches Some(nm) && nm@ == "Secret Snail #"@ + token.id@
    &&& e.attributes matches Some(ats) && ats@.len() == 2 && spec_trait_matches(
        ats@[0],
        "Wins"@,
        "0"@,
    ) && spec_trait_matches(ats@[1], "Loses"@, "0"@)
    &&& e.background_color is None
    &&& e.animation_url is None
    &&& e.youtube_url is None
    &&& e.media matches Some(ms) && ms@.len() == 1 && spec_media_matches(ms@[0], token.img_url@)
    &&& e.protected_attributes is None
    &&& e.token_subtype is None
}

/// The private metadata of a minted token: the same name and media, with
/// the fixed categorical label.
pub open spec fn spec_private_extension_matches(e: Extension, token: PreLoad) -> bool {
    &&& e.image is None
    &&& e.image_data is None
    &&& e.external_url is None
    &&& e.description is None
    &&& e.name matches Some(nm) && nm@ == "Secret Snail #"@ + token.id@
    &&& e.attributes matches Some(ats) && ats@.len() == 1 && spec_trait_matches(
        ats@[0],
        "Category"@,
        "Stephen Hawking"@,
    )
    &&& e.background_color is None
    &&& e.animation_url is None
    &&& e.youtube_url is None
    &&& e.media matches Some(ms) && ms@.len() == 1 && spec_media_matches(ms@[0], token.img_url@)
    &&& e.protected_attributes is None
    &&& e.token_subtype is None
}

/// One batch entry: the drawn record's identifier, the requester as
/// owner, both metadata blocks, and the secondary attribute as the hidden
/// `speed` trait.
pub open spec fn spec_mint_entry_matches(
    m: Mint,
    token: PreLoad,
    owner: Seq<char>,
    speed: u32,
) -> bool {
    &&& m.token_id matches Some(t) && t@ == token.id@
    &&& m.owner matches Some(o) && o@ == owner
    &&& m.public_metadata matches Some(pm) && pm.token_uri is None && (
    pm.extension matches Some(ext) && spec_public_extension_matches(ext, token))
    &&& m.private_metadata matches Some(qm) && qm.token_uri is None && (
    qm.extension matches Some(ext2) && spec_private_extension_matches(ext2, token))
    &&& m.serial_number is None
    &&& m.royalty_info is None
    &&& m.transferable is None
    &&& m.memo is None
    &&& m.hidden_attributes matches Some(hs) && hs@.len() == 1 && hs@[0].name@ == "speed"@
        && hs@[0].value@ == spec_decimal_chars(speed as nat)
}

/// The templated token name: the fixed prefix followed by the identifier.
fn snail_name(token: &PreLoad) -> (r: String)
    ensures
        r@ == "Secret Snail #"@ + token.id@,
{
    let mut name = "Secret Snail #".to_owned();
    name.append(token.id.as_str());
    name
}

/// The shared media block of both metadata sections.
fn build_media(token: &PreLoad) -> (r: Vec<MediaFile>)
    ensures
        r@.len() == 1,
        spec_media_matches(r@[0], token.img_url@),
{
    let mut media: Vec<MediaFile> = Vec::new();
    media.push(
        MediaFile {
            file_type: Some("image".to_owned()),
            extension: Some("gif".to_owned()),
            authentication: Some(
                Authentication { key: Some("".to_owned()), user: Some("".to_owned()) },
            ),
            url: token.img_url.clone(),
        },
    );
    media
}

/// Assembles the issuance entry of one drawn token for `owner`, with the
/// secondary attribute `speed`.
pub fn build_mint_entry(token: &PreLoad, owner: &String, speed: u32) -> (m: Mint)
    ensures
        spec_mint_entry_matches(m, *token, owner@, speed),
{
    let mut public_attributes: Vec<Trait> = Vec::new();
    public_attributes.push(
        Trait {
            display_type: None,
            trait_type: Some("Wins".to_owned()),
            value: "0".to_owned(),
            max_value: None,
        },
    );
    public_attributes.push(
        Trait {
            display_type: None,
            trait_type: Some("Loses".to_owned()),
            value: "0".to_owned(),
            max_value: None,
        },
    );
    let mut private_attributes: Vec<Trait> = Vec::new();
    private_attributes.push(
        Trait {
            display_type: None,
            trait_type: Some("Category".to_owned()),
            value: "Stephen Hawking".to_owned(),
            max_value: None,
        },
    );
    let mut hidden: Vec<HiddenAttribute> = Vec::new();
    hidden.push(
        HiddenAttribute { name: "speed".to_owned(), value: decimal_string(speed as u64) },
    );
    Mint {
        token_id: Some(token.id.clone()),
        owner: Some(owner.clone()),
        public_metadata: Some(
            Metadata {
                token_uri: None,
                extension: Some(
                    Extension {
                        image: None,
                        image_data: None,
                        external_url: None,
                        description: None,
                        name: Some(snail_name(token)),
                        attributes: Some(public_attributes),
                        background_color: None,
                        animation_url: None,
                        youtube_url: None,
                        media: Some(build_media(token)),
                        protected_attributes: None,
                        token_subtype: None,
                    },
                ),
            },
        ),
        private_metadata: Some(
            Metadata {
                token_uri: None,
                extension: Some(
                    Extension {
                        image: None,
                        image_data: None,
                        external_url: None,
                        description: None,
                        name: Some(snail_name(token)),
                        attributes: Some(private_attributes),
                        background_color: None,
                        animation_url: None,
                        youtube_url: None,
                        media: Some(build_media(token)),
                        protected_attributes: None,
                        token_subtype: None,
                    },
                ),
            },
        ),
        serial_number: None,
        royalty_info: None,
        transferable: None,
        memo: None,
        hidden_attributes: Some(hidden),
    }
}

/// The guarded validation of an allocation request, in the order the
/// handler performs it: configuration, inventory, cap, modes, payment,
/// then admission. `None` means the request may proceed to the draws.
pub open spec fn spec_mint_check(
    s: MinterState,
    requester: Seq<char>,
    amount: u128,
    n: u16,
) -> Option<MintError> {
    let c = s.config;
    if c.nft_contract is None {
        Some(MintError::NotConfigured)
    } else if s.inventory@.len() == 0 {
        Some(MintError::InventoryExhausted)
    } else if n > s.inventory@.len() {
        Some(MintError::InsufficientInventory)
    } else if n > c.max_mint_per_tx {
        Some(MintError::CapExceeded)
    } else if !c.standard_mint_enabled && !c.whitelist_mint_enabled {
        Some(MintError::MintingDisabled)
    } else if c.mint_price * n != amount {
        Some(MintError::PaymentMismatch)
    } else if c.whitelist_mint_enabled {
        let status = spec_wl_status(s.whitelist@, requester);
        if status == Some(false) {
            None
        } else if status == Some(true) && !c.standard_mint_enabled {
            Some(MintError::AlreadyClaimed)
        } else if status is None && !c.standard_mint_enabled {
            Some(MintError::NotEligible)
        } else {
            None
        }
    } else {
        None
    }
}

/// The draw context of an allocation request: the persistent secret plus
/// the public call context, with the requester as the identity.
pub open spec fn spec_mint_ctx(pre: MinterState, env: Env, requester: Seq<char>) -> DrawCtx {
    DrawCtx {
        prng_seed: pre.prng_seed@,
        height: env.block_height,
        time: env.block_time,
        requester,
    }
}

/// The single batch issuance instruction of a successful request: one
/// `BatchMintNft` addressed to the issuance contract, whose `k`-th entry
/// is the `k`-th drawn record made out to the requester.
pub open spec fn spec_issue_matches(
    m: OutMsg,
    target: SecretContract,
    pool: Seq<PreLoad>,
    ctx: DrawCtx,
    n: nat,
) -> bool {
    &&& m matches OutMsg::Issue { target: t, msg: im }
    &&& t == target
    &&& im matches NftsHandleMsg::BatchMintNft { mints, padding }
    &&& padding is None
    &&& mints@.len() == n
    &&& forall|k: int|
        0 <= k < n ==> spec_mint_entry_matches(
            #[trigger] mints@[k],
            spec_drawn_at(pool, ctx, (k + 1) as nat),
            ctx.requester,
            spec_speed_at(ctx, k + 1),
        )
}

/// The whole outcome of an allocation request: on success, the pool has
/// evolved through exactly `n` seeded draws, the requester's allow-list
/// entry is consumed when the allow-list admitted it, and one batch
/// instruction is emitted; on failure, the rejection is the one the
/// validation order picks and the state is untouched.
pub open spec fn spec_mint_outcome(
    pre: MinterState,
    env: Env,
    amount: u128,
    requester: Seq<char>,
    n: u16,
    r: Result<Response, MintError>,
    post: MinterState,
) -> bool {
    let ctx = spec_mint_ctx(pre, env, requester);
    match r {
        Ok(resp) => {
            &&& spec_mint_check(pre, requester, amount, n) is None
            &&& post.config == pre.config
            &&& post.prng_seed == pre.prng_seed
            &&& post.total_loaded == pre.total_loaded
            &&& post.whitelist@ == (if pre.config.whitelist_mint_enabled && spec_wl_status(
                pre.whitelist@,
                requester,
            ) == Some(false) {
                spec_wl_mark(pre.whitelist@, requester)
            } else {
                pre.whitelist@
            })
            &&& post.inventory@ == spec_pool_after(pre.inventory@, ctx, n as nat)
            &&& resp.data == Some(HandleAnswer::MintNfts { status: ResponseStatus::Success })
            &&& resp.messages@.len() == 1
            &&& spec_issue_matches(
                resp.messages@[0],
                pre.config.nft_contract.unwrap(),
                pre.inventory@,
                ctx,
                n as nat,
            )
        },
        Err(e) => {
            &&& spec_mint_check(pre, requester, amount, n) == Some(e)
            &&& post == pre
        },
    }
}

/// Allocates `mint_count` tokens to `from` against the received `amount`:
/// validates configuration, inventory, cap, modes, payment and admission,
/// consumes the requester's allow-list entry when the allow-list admitted
/// it, draws without replacement once per token, and emits one batch
/// issuance instruction.
pub fn mint_nfts(
    s: &mut MinterState,
    env: &Env,
    amount: u128,
    from: String,
    mint_count: u16,
) -> (r: Result<Response, MintError>)
    requires
        old(s).wf(),
    ensures
        spec_mint_outcome(*old(s), *env, amount, from@, mint_count, r, *final(s)),
        final(s).wf(),
{
    let ghost ctx = spec_mint_ctx(*old(s), *env, from@);
    let nft_contract = match &s.config.nft_contract {
        Some(c) => clone_contract(c),
        None => {
            return Err(MintError::NotConfigured);
        },
    };
    let count = s.inventory.len();
    if count == 0 {
        return Err(MintError::InventoryExhausted);
    }
    if (mint_count as usize) > count {
        return Err(MintError::InsufficientInventory);
    }
    if mint_count > s.config.max_mint_per_tx {
        return Err(MintError::CapExceeded);
    }
    if !s.config.standard_mint_enabled && !s.config.whitelist_mint_enabled {
        return Err(MintError::MintingDisabled);
    }
    let payment_ok = match s.config.mint_price.checked_mul(mint_count as u128) {
        Some(expected) => expected == amount,
        None => false,
    };
    if !payment_ok {
        return Err(MintError::PaymentMismatch);
    }
    if s.config.whitelist_mint_enabled {
        let list_check = whitelist_status(&s.whitelist, &from);
        match list_check {
            Some(minted) => {
                if !minted {
                    whitelist_mark_used(&mut s.whitelist, &from);
                } else if !s.config.standard_mint_enabled {
                    return Err(MintError::AlreadyClaimed);
                }
            },
            None => {
                if !s.config.standard_mint_enabled {
                    return Err(MintError::NotEligible);
                }
            },
        }
    }
    let ghost pool0 = s.inventory@;
    let mut mints: Vec<Mint> = Vec::new();
    let mut i: u16 = 0;
    while i < mint_count
        invariant
            old(s).wf(),
            i <= mint_count,
            mint_count <= pool0.len(),
            pool0 == old(s).inventory@,
            pool0.len() <= u16::MAX,
            ctx == spec_mint_ctx(*old(s), *env, from@),
            s.config == old(s).config,
            s.prng_seed == old(s).prng_seed,
            s.total_loaded == old(s).total_loaded,
            s.whitelist@ == (if old(s).config.whitelist_mint_enabled && spec_wl_status(
                old(s).whitelist@,
                from@,
            ) == Some(false) {
                spec_wl_mark(old(s).whitelist@, from@)
            } else {
                old(s).whitelist@
            }),
            s.inventory@ == spec_pool_after(pool0, ctx, i as nat),
            s.inventory@.len() == pool0.len() - i,
            mints@.len() == i,
            forall|k: int|
                0 <= k < i ==> spec_mint_entry_matches(
                    #[trigger] mints@[k],
                    spec_drawn_at(pool0, ctx, (k + 1) as nat),
                    from@,
                    spec_speed_at(ctx, k + 1),
                ),
        decreases mint_count - i,
    {
        let index = i + 1;
        let index_bytes = decimal_bytes(index as u64);
        let seed = new_entropy(
            env.block_height,
            env.block_time,
            from.as_str(),
            s.prng_seed.as_slice(),
            s.prng_seed.as_slice(),
            index_bytes.as_slice(),
        );
        proof {
            assert(seed@ == spec_seed_for(ctx, index as int));
        }
        let (token, speed) = draw_token(&mut s.inventory, &seed);
        proof {
            assert((index - 1) as nat == i as nat);
            assert(spec_pool_after(pool0, ctx, index as nat) == spec_swap_removed(
                spec_pool_after(pool0, ctx, i as nat),
                crate::draw::spec_draw_index(
                    spec_seed_for(ctx, index as int),
                    spec_pool_after(pool0, ctx, i as nat).len() as int,
                ),
            ));
            assert(token == spec_drawn_at(pool0, ctx, index as nat));
            assert(speed == spec_speed_at(ctx, index as int));
        }
        let entry = build_mint_entry(&token, &from, speed);
        mints.push(entry);
        i = index;
    }
    let issue = NftsHandleMsg::BatchMintNft { mints, padding: None };
    let mut messages: Vec<OutMsg> = Vec::new();
    messages.push(OutMsg::Issue { target: nft_contract, msg: issue });
    Ok(
        Response {
            messages,
            data: Some(HandleAnswer::MintNfts { status: ResponseStatus::Success }),
        },
    )
}

/// Routes a payment notification: only the configured payment token may
/// deliver one; the decoded request then allocates to the payer `from`.
pub fn try_receive(
    s: &mut MinterState,
    env: &Env,
    _sender: String,
    from: String,
    amount: u128,
    msg: &HandleReceiveMsg,
) -> (r: Result<Response, MintError>)
    requires
        old(s).wf(),
    ensures
        final(s).wf(),
        env.message_sender@ != old(s).config.token_contract.contract_addr@ ==> r == Err::<
            Response,
            MintError,
        >(MintError::Unauthorized) && *final(s) == *old(s),
        env.message_sender@ == old(s).config.token_contract.contract_addr@ ==> (
        msg matches HandleReceiveMsg::MintNfts { count } && spec_mint_outcome(
            *old(s),
            *env,
            amount,
            from@,
            *count,
            r,
            *final(s),
        )),
{
    if env.message_sender != s.config.token_contract.contract_addr {
        return Err(MintError::Unauthorized);
    }
    match msg {
        HandleReceiveMsg::MintNfts { count } => mint_nfts(s, env, amount, from, *count),
    }
}

/// Routes one inbound command to its handler. Each arm's outcome is the
/// routed handler's outcome predicate.
pub fn handle(s: &mut MinterState, env: &Env, msg: HandleMsg) -> (r: Result<Response, MintError>)
    requires
        old(s).wf(),
        msg matches HandleMsg::LoadMetadata { new_data } ==> old(s).total_loaded + new_data@.len()
            <= u16::MAX,
    ensures
        final(s).wf(),
        (msg matches HandleMsg::UpdateMint {
            whitelist_mint_enabled,
            standard_mint_enabled,
            mint_price,
            max_mint_per_tx,
        } ==> spec_update_mint_outcome(
            *old(s),
            *env,
            whitelist_mint_enabled,
            standard_mint_enabled,
            mint_price,
            max_mint_per_tx,
            r,
            *final(s),
        )),
        (msg matches HandleMsg::Receive { sender, from, amount, msg: rm } ==> {
            &&& (env.message_sender@ != old(s).config.token_contract.contract_addr@ ==> r == Err::<
                Response,
                MintError,
            >(MintError::Unauthorized) && *final(s) == *old(s))
            &&& (env.message_sender@ == old(s).config.token_contract.contract_addr@ ==> (
            rm matches HandleReceiveMsg::MintNfts { count } && spec_mint_outcome(
                *old(s),
                *env,
                amount,
                from@,
                count,
                r,
                *final(s),
            )))
        }),
        (msg matches HandleMsg::AddNftContract { contract } ==> spec_add_nft_contract_outcome(
            *old(s),
            *env,
            contract,
            r,
            *final(s),
        )),
        (msg matches HandleMsg::LoadMetadata { new_data } ==> spec_load_metadata_outcome(
            *old(s),
            *env,
            new_data@,
            r,
            *final(s),
        )),
        (msg matches HandleMsg::ChangeAdmin { admin } ==> spec_change_admin_outcome(
            *old(s),
            *env,
            admin,
            r,
            *final(s),
        )),
        (msg matches HandleMsg::UpdateChangeMetadataPermitedAdresses {
            change_metadata_permited_addresses,
        } ==> spec_update_permitted_outcome(
            *old(s),
            *env,
            change_metadata_permited_addresses@,
            r,
            *final(s),
        )),
{
    match msg {
        HandleMsg::UpdateMint {
            whitelist_mint_enabled,
            standard_mint_enabled,
            mint_price,
            max_mint_per_tx,
        } => update_mint(
            s,
            env,
            whitelist_mint_enabled,
            standard_mint_enabled,
            mint_price,
            max_mint_per_tx,
        ),
        HandleMsg::Receive { sender, from, amount, msg } => try_receive(
            s,
            env,
            sender,
            from,
            amount,
            &msg,
        ),
        HandleMsg::AddNftContract { contract } => add_nft_contract(s, env, contract),
        HandleMsg::LoadMetadata { new_data } => load_metadata(s, env, new_data),
        HandleMsg::ChangeAdmin { admin } => change_admin(s, env, admin),
        HandleMsg::UpdateChangeMetadataPermitedAdresses { change_metadata_permited_addresses } => {
            update_change_metadata_permited_addresses(s, env, change_metadata_permited_addresses)
        },
    }
}

/// Builds the status answer from the state and the issued-so-far count
/// obtained from the issuance contract.
fn query_info(s: &MinterState, minted_count: u32) -> (r: QueryAnswer)
    requires
        s.wf(),
        s.config.nft_contract is Some,
    ensures
        ({
            &&& r matches QueryAnswer::Info {
                admin,
                token_contract,
                nft_contract,
                mint_price,
                whitelist_mint_enabled,
                standard_mint_enabled,
                max_mint_per_tx,
                mint_current_count,
                mint_current_left,
            }
            &&& admin@ == s.config.admin@
            &&& token_contract == s.config.token_contract
            &&& nft_contract == s.config.nft_contract.unwrap()
            &&& mint_price == s.config.mint_price
            &&& whitelist_mint_enabled == s.config.whitelist_mint_enabled
            &&& standard_mint_enabled == s.config.standard_mint_enabled
            &&& max_mint_per_tx == s.config.max_mint_per_tx
            &&& mint_current_count == minted_count
            &&& mint_current_left == s.inventory@.len()
        }),
{
    let nft_contract = match &s.config.nft_contract {
        Some(c) => clone_contract(c),
        None => {
            proof {
                assert(false);
            }
            clone_contract(&s.config.token_contract)
        },
    };
    QueryAnswer::Info {
        admin: s.config.admin.clone(),
        token_contract: clone_contract(&s.config.token_contract),
        nft_contract,
        mint_price: s.config.mint_price,
        whitelist_mint_enabled: s.config.whitelist_mint_enabled,
        standard_mint_enabled: s.config.standard_mint_enabled,
        max_mint_per_tx: s.config.max_mint_per_tx,
        mint_current_count: minted_count,
        mint_current_left: s.inventory.len() as u16,
    }
}

/// Answers the read-only status query. `minted_count` is the number of
/// tokens issued so far, as the external issuance contract reports it;
/// the host queries that contract and hands the value in.
pub fn query(s: &MinterState, msg: QueryMsg, minted_count: u32) -> (r: QueryAnswer)
    requires
        s.wf(),
        s.config.nft_contract is Some,
    ensures
        ({
            &&& r matches QueryAnswer::Info {
                admin,
                token_contract,
                nft_contract,
                mint_price,
                whitelist_mint_enabled,
                standard_mint_enabled,
                max_mint_per_tx,
                mint_current_count,
                mint_current_left,
            }
            &&& admin@ == s.config.admin@
            &&& token_contract == s.config.token_contract
            &&& nft_contract == s.config.nft_contract.unwrap()
            &&& mint_price == s.config.mint_price
            &&& whitelist_mint_enabled == s.config.whitelist_mint_enabled
            &&& standard_mint_enabled == s.config.standard_mint_enabled
            &&& max_mint_per_tx == s.config.max_mint_per_tx
            &&& mint_current_count == minted_count
            &&& mint_current_left == s.spec_remaining()
        }),
{
    match msg {
        QueryMsg::Info => query_info(s, minted_count),
    }
}

} // verus!
