//! Scenario tests for the minter's handlers: configuration, modes,
//! payment, allow-list admission and the inventory gates.

use secret_snails_minter::contract::{
    add_nft_contract, change_admin, handle, init, load_metadata, mint_nfts, query, try_receive,
    update_change_metadata_permited_addresses, update_mint,
};
use secret_snails_minter::msg::{
    Env, HandleMsg, HandleReceiveMsg, InitMsg, MintError, NftsHandleMsg, OutMsg, PreLoad,
    QueryAnswer, QueryMsg, SecretContract,
};
use secret_snails_minter::state::MinterState;

fn admin_env() -> Env {
    Env {
        block_height: 12_345,
        block_time: 1_600_000_000,
        message_sender: "admin".to_string(),
        contract_code_hash: "minter-code-hash".to_string(),
    }
}

fn env_from(sender: &str) -> Env {
    Env {
        block_height: 12_345,
        block_time: 1_600_000_000,
        message_sender: sender.to_string(),
        contract_code_hash: "minter-code-hash".to_string(),
    }
}

fn token_contract() -> SecretContract {
    SecretContract {
        contract_addr: "token-addr".to_string(),
        token_code_hash: "token-hash".to_string(),
    }
}

fn nft_contract() -> SecretContract {
    SecretContract { contract_addr: "nft-addr".to_string(), token_code_hash: "nft-hash".to_string() }
}

fn preload(id: &str) -> PreLoad {
    PreLoad {
        id: id.to_string(),
        img_url: format!("ipfs://{}", id),
        attributes: None,
        priv_attributes: None,
        hidden_attributes: None,
    }
}

fn preloads(n: usize) -> Vec<PreLoad> {
    let mut v = Vec::new();
    let mut i = 0;
    while i < n {
        v.push(preload(&format!("snail-{}", i)));
        i += 1;
    }
    v
}

/// A configured state: issuance target set and `n` records preloaded,
/// with both sale modes still off.
fn fresh_state(whitelist: Vec<&str>, price: u128, cap: u16, n: usize) -> (MinterState, Env) {
    let env = admin_env();
    let (mut s, out) = init(
        &env,
        InitMsg {
            admin: Some("admin".to_string()),
            token_contract: token_contract(),
            entropy: "initial entropy".to_string(),
            mint_price: price,
            max_mint_per_tx: cap,
            whitelist: whitelist.iter().map(|a| a.to_string()).collect(),
            revenue_split: Vec::new(),
        },
    );
    assert_eq!(out.len(), 1);
    assert!(matches!(&out[0], OutMsg::RegisterReceive { .. }));
    assert!(add_nft_contract(&mut s, &env, nft_contract()).is_ok());
    assert!(load_metadata(&mut s, &env, preloads(n)).is_ok());
    (s, env)
}

fn enable(s: &mut MinterState, env: &Env, whitelist_mode: bool, standard_mode: bool) {
    let r = update_mint(s, env, whitelist_mode, standard_mode, None, None);
    assert!(r.is_ok());
}

/// The token ids and speeds of a successful allocation's batch entries.
fn batch_entries(r: &Result<secret_snails_minter::msg::Response, MintError>) -> Vec<(String, u32)> {
    let resp = r.as_ref().expect("allocation should succeed");
    assert_eq!(resp.messages.len(), 1);
    match &resp.messages[0] {
        OutMsg::Issue { target, msg } => {
            assert_eq!(target.contract_addr, "nft-addr");
            match msg {
                NftsHandleMsg::BatchMintNft { mints, padding } => {
                    assert!(padding.is_none());
                    mints
                        .iter()
                        .map(|m| {
                            let id = m.token_id.clone().unwrap();
                            let hidden = m.hidden_attributes.as_ref().unwrap();
                            assert_eq!(hidden.len(), 1);
                            assert_eq!(hidden[0].name, "speed");
                            let speed: u32 = hidden[0].value.parse().unwrap();
                            (id, speed)
                        })
                        .collect()
                }
                _ => panic!("expected a batch instruction"),
            }
        }
        _ => panic!("expected an issue instruction"),
    }
}

#[test]
fn init_defaults_to_caller_as_admin() {
    let env = env_from("creator");
    let (s, _out) = init(
        &env,
        InitMsg {
            admin: None,
            token_contract: token_contract(),
            entropy: "e".to_string(),
            mint_price: 1,
            max_mint_per_tx: 5,
            whitelist: vec!["w1".to_string()],
            revenue_split: Vec::new(),
        },
    );
    assert_eq!(s.config.admin, "creator");
    assert!(!s.config.whitelist_mint_enabled);
    assert!(!s.config.standard_mint_enabled);
    assert!(s.config.nft_contract.is_none());
    assert_eq!(s.whitelist.len(), 1);
    assert_eq!(s.whitelist[0].addr, "w1");
    assert!(!s.whitelist[0].minted);
    assert_eq!(s.prng_seed.len(), 32);
}

#[test]
fn non_admin_commands_are_unauthorized() {
    let (mut s, _env) = fresh_state(vec![], 10, 5, 3);
    let intruder = env_from("mallory");
    assert!(matches!(
        update_mint(&mut s, &intruder, true, true, None, None),
        Err(MintError::Unauthorized)
    ));
    assert!(matches!(
        add_nft_contract(&mut s, &intruder, nft_contract()),
        Err(MintError::Unauthorized)
    ));
    assert!(matches!(
        load_metadata(&mut s, &intruder, preloads(1)),
        Err(MintError::Unauthorized)
    ));
    assert!(matches!(
        change_admin(&mut s, &intruder, "mallory".to_string()),
        Err(MintError::Unauthorized)
    ));
    assert!(matches!(
        update_change_metadata_permited_addresses(&mut s, &intruder, vec!["x".to_string()]),
        Err(MintError::Unauthorized)
    ));
    assert!(!s.config.standard_mint_enabled);
    assert_eq!(s.inventory.len(), 3);
}

#[test]
fn update_mint_sets_flags_and_optional_fields() {
    let (mut s, env) = fresh_state(vec![], 10, 5, 3);
    let r = update_mint(&mut s, &env, true, false, Some(42), Some(7));
    assert!(r.is_ok());
    assert!(s.config.whitelist_mint_enabled);
    assert!(!s.config.standard_mint_enabled);
    assert_eq!(s.config.mint_price, 42);
    assert_eq!(s.config.max_mint_per_tx, 7);
    let r = update_mint(&mut s, &env, false, true, None, None);
    assert!(r.is_ok());
    assert!(!s.config.whitelist_mint_enabled);
    assert!(s.config.standard_mint_enabled);
    assert_eq!(s.config.mint_price, 42);
    assert_eq!(s.config.max_mint_per_tx, 7);
}

#[test]
fn issuance_target_locked_while_minting_enabled() {
    let (mut s, env) = fresh_state(vec![], 10, 5, 3);
    enable(&mut s, &env, false, true);
    assert!(matches!(
        add_nft_contract(&mut s, &env, nft_contract()),
        Err(MintError::PreconditionFailed)
    ));
    enable(&mut s, &env, true, false);
    assert!(matches!(
        add_nft_contract(&mut s, &env, nft_contract()),
        Err(MintError::PreconditionFailed)
    ));
    enable(&mut s, &env, false, false);
    assert!(add_nft_contract(&mut s, &env, nft_contract()).is_ok());
    assert_eq!(s.config.nft_contract.as_ref().unwrap().contract_addr, "nft-addr");
}

#[test]
fn unconfigured_minter_rejects_allocation() {
    let env = admin_env();
    let (mut s, _out) = init(
        &env,
        InitMsg {
            admin: Some("admin".to_string()),
            token_contract: token_contract(),
            entropy: "e".to_string(),
            mint_price: 10,
            max_mint_per_tx: 5,
            whitelist: Vec::new(),
            revenue_split: Vec::new(),
        },
    );
    let r = mint_nfts(&mut s, &env, 10, "alice".to_string(), 1);
    assert!(matches!(r, Err(MintError::NotConfigured)));
}

#[test]
fn mode_gating_rejects_with_both_flags_off() {
    let (mut s, env) = fresh_state(vec![], 10, 5, 3);
    // the payment is exact, yet minting is disabled
    let r = mint_nfts(&mut s, &env, 30, "alice".to_string(), 3);
    assert!(matches!(r, Err(MintError::MintingDisabled)));
    assert_eq!(s.inventory.len(), 3);
}

#[test]
fn payment_must_be_exact() {
    let (mut s, env) = fresh_state(vec![], 10, 5, 3);
    enable(&mut s, &env, false, true);
    let r = mint_nfts(&mut s, &env, 29, "alice".to_string(), 3);
    assert!(matches!(r, Err(MintError::PaymentMismatch)));
    let r = mint_nfts(&mut s, &env, 31, "alice".to_string(), 3);
    assert!(matches!(r, Err(MintError::PaymentMismatch)));
    assert_eq!(s.inventory.len(), 3);
    assert!(s.whitelist.is_empty());
    let r = mint_nfts(&mut s, &env, 30, "alice".to_string(), 3);
    let entries = batch_entries(&r);
    assert_eq!(entries.len(), 3);
    assert_eq!(s.inventory.len(), 0);
}

#[test]
fn exhaustion_and_insufficient_inventory() {
    let (mut s, env) = fresh_state(vec![], 10, 5, 2);
    enable(&mut s, &env, false, true);
    let r = mint_nfts(&mut s, &env, 30, "alice".to_string(), 3);
    assert!(matches!(r, Err(MintError::InsufficientInventory)));
    assert_eq!(s.inventory.len(), 2);
    let r = mint_nfts(&mut s, &env, 20, "alice".to_string(), 2);
    assert!(r.is_ok());
    assert_eq!(s.inventory.len(), 0);
    let r = mint_nfts(&mut s, &env, 10, "alice".to_string(), 1);
    assert!(matches!(r, Err(MintError::InventoryExhausted)));
}

#[test]
fn cap_limits_one_request() {
    let (mut s, env) = fresh_state(vec![], 10, 2, 5);
    enable(&mut s, &env, false, true);
    let r = mint_nfts(&mut s, &env, 30, "alice".to_string(), 3);
    assert!(matches!(r, Err(MintError::CapExceeded)));
    assert_eq!(s.inventory.len(), 5);
}

#[test]
fn allow_list_grants_exactly_one_allocation() {
    let (mut s, env) = fresh_state(vec!["alice", "bob"], 10, 5, 6);
    enable(&mut s, &env, true, false);
    let r = mint_nfts(&mut s, &env, 20, "alice".to_string(), 2);
    assert!(r.is_ok());
    assert_eq!(s.inventory.len(), 4);
    assert!(s.whitelist.iter().any(|e| e.addr == "alice" && e.minted));
    assert!(s.whitelist.iter().any(|e| e.addr == "bob" && !e.minted));
    let r = mint_nfts(&mut s, &env, 10, "alice".to_string(), 1);
    assert!(matches!(r, Err(MintError::AlreadyClaimed)));
    assert_eq!(s.inventory.len(), 4);
}

#[test]
fn allow_list_rejects_unlisted_identity() {
    let (mut s, env) = fresh_state(vec!["alice"], 10, 5, 3);
    enable(&mut s, &env, true, false);
    let r = mint_nfts(&mut s, &env, 10, "mallory".to_string(), 1);
    assert!(matches!(r, Err(MintError::NotEligible)));
    assert_eq!(s.inventory.len(), 3);
}

#[test]
fn public_mode_admits_used_and_unlisted_identities() {
    let (mut s, env) = fresh_state(vec!["alice"], 10, 5, 6);
    enable(&mut s, &env, true, true);
    assert!(mint_nfts(&mut s, &env, 10, "alice".to_string(), 1).is_ok());
    // alice's entry is consumed, but public mode still admits her
    assert!(mint_nfts(&mut s, &env, 10, "alice".to_string(), 1).is_ok());
    // an unlisted identity is admitted too
    assert!(mint_nfts(&mut s, &env, 10, "mallory".to_string(), 1).is_ok());
    assert_eq!(s.inventory.len(), 3);
}

#[test]
fn no_duplicate_allocation_across_requests() {
    let (mut s, env) = fresh_state(vec![], 1, 16, 16);
    enable(&mut s, &env, false, true);
    let mut seen: Vec<String> = Vec::new();
    let mut requester = 0u32;
    while !s.inventory.is_empty() {
        let n = if s.inventory.len() >= 3 { 3 } else { s.inventory.len() };
        let r = mint_nfts(
            &mut s,
            &env,
            n as u128,
            format!("buyer-{}", requester),
            n as u16,
        );
        for (id, speed) in batch_entries(&r) {
            assert!(!seen.contains(&id), "token {} allocated twice", id);
            assert!((1..=100).contains(&speed));
            seen.push(id);
        }
        requester += 1;
    }
    assert_eq!(seen.len(), 16);
}

#[test]
fn mint_entry_carries_templated_metadata() {
    let (mut s, env) = fresh_state(vec![], 10, 5, 1);
    enable(&mut s, &env, false, true);
    let r = mint_nfts(&mut s, &env, 10, "alice".to_string(), 1);
    let resp = r.expect("allocation should succeed");
    let mints = match &resp.messages[0] {
        OutMsg::Issue { msg: NftsHandleMsg::BatchMintNft { mints, .. }, .. } => mints,
        _ => panic!("expected a batch instruction"),
    };
    assert_eq!(mints.len(), 1);
    let m = &mints[0];
    assert_eq!(m.token_id.as_deref(), Some("snail-0"));
    assert_eq!(m.owner.as_deref(), Some("alice"));
    let public = m.public_metadata.as_ref().unwrap().extension.as_ref().unwrap();
    assert_eq!(public.name.as_deref(), Some("Secret Snail #snail-0"));
    let attrs = public.attributes.as_ref().unwrap();
    assert_eq!(attrs.len(), 2);
    assert_eq!(attrs[0].trait_type.as_deref(), Some("Wins"));
    assert_eq!(attrs[0].value, "0");
    assert_eq!(attrs[1].trait_type.as_deref(), Some("Loses"));
    assert_eq!(attrs[1].value, "0");
    let media = public.media.as_ref().unwrap();
    assert_eq!(media.len(), 1);
    assert_eq!(media[0].url, "ipfs://snail-0");
    assert_eq!(media[0].file_type.as_deref(), Some("image"));
    assert_eq!(media[0].extension.as_deref(), Some("gif"));
    let private = m.private_metadata.as_ref().unwrap().extension.as_ref().unwrap();
    let pattrs = private.attributes.as_ref().unwrap();
    assert_eq!(pattrs.len(), 1);
    assert_eq!(pattrs[0].trait_type.as_deref(), Some("Category"));
    assert_eq!(pattrs[0].value, "Stephen Hawking");
}

#[test]
fn zero_count_request_with_zero_amount_succeeds_and_mints_nothing() {
    let (mut s, env) = fresh_state(vec![], 10, 5, 3);
    enable(&mut s, &env, false, true);
    let r = mint_nfts(&mut s, &env, 0, "alice".to_string(), 0);
    let entries = batch_entries(&r);
    assert!(entries.is_empty());
    assert_eq!(s.inventory.len(), 3);
}

#[test]
fn try_receive_rejects_other_token_contracts() {
    let (mut s, _env) = fresh_state(vec![], 10, 5, 3);
    let bogus = env_from("not-the-token");
    let r = try_receive(
        &mut s,
        &bogus,
        "alice".to_string(),
        "alice".to_string(),
        10,
        &HandleReceiveMsg::MintNfts { count: 1 },
    );
    assert!(matches!(r, Err(MintError::Unauthorized)));
    assert_eq!(s.inventory.len(), 3);
}

#[test]
fn try_receive_routes_to_allocation() {
    let (mut s, env) = fresh_state(vec![], 10, 5, 3);
    enable(&mut s, &env, false, true);
    let token_env = env_from("token-addr");
    let r = try_receive(
        &mut s,
        &token_env,
        "alice".to_string(),
        "alice".to_string(),
        20,
        &HandleReceiveMsg::MintNfts { count: 2 },
    );
    assert!(r.is_ok());
    assert_eq!(s.inventory.len(), 1);
}

#[test]
fn handle_dispatches_commands() {
    let (mut s, env) = fresh_state(vec![], 10, 5, 3);
    let r = handle(
        &mut s,
        &env,
        HandleMsg::UpdateMint {
            whitelist_mint_enabled: false,
            standard_mint_enabled: true,
            mint_price: Some(2),
            max_mint_per_tx: None,
        },
    );
    assert!(r.is_ok());
    assert_eq!(s.config.mint_price, 2);
    let token_env = env_from("token-addr");
    let r = handle(
        &mut s,
        &token_env,
        HandleMsg::Receive {
            sender: "alice".to_string(),
            from: "alice".to_string(),
            amount: 4,
            msg: HandleReceiveMsg::MintNfts { count: 2 },
        },
    );
    assert!(r.is_ok());
    assert_eq!(s.inventory.len(), 1);
    let r = handle(&mut s, &env, HandleMsg::ChangeAdmin { admin: "admin2".to_string() });
    assert!(r.is_ok());
    assert!(matches!(
        handle(
            &mut s,
            &env,
            HandleMsg::UpdateChangeMetadataPermitedAdresses {
                change_metadata_permited_addresses: vec!["editor".to_string()],
            },
        ),
        Err(MintError::Unauthorized)
    ));
    let env2 = env_from("admin2");
    assert!(handle(
        &mut s,
        &env2,
        HandleMsg::UpdateChangeMetadataPermitedAdresses {
            change_metadata_permited_addresses: vec!["editor".to_string()],
        },
    )
    .is_ok());
    assert_eq!(s.config.change_metadata_permited_addresses, vec!["editor".to_string()]);
    // a draw has happened, so preloading through the dispatcher is gated
    assert!(matches!(
        handle(&mut s, &env2, HandleMsg::LoadMetadata { new_data: preloads(1) }),
        Err(MintError::PreconditionFailed)
    ));
    // and so is retargeting issuance while a sale mode is on
    assert!(matches!(
        handle(&mut s, &env2, HandleMsg::AddNftContract { contract: nft_contract() }),
        Err(MintError::PreconditionFailed)
    ));
}

#[test]
fn preload_is_forbidden_after_draws() {
    let (mut s, env) = fresh_state(vec![], 10, 5, 3);
    enable(&mut s, &env, false, true);
    assert!(mint_nfts(&mut s, &env, 10, "alice".to_string(), 1).is_ok());
    let r = load_metadata(&mut s, &env, preloads(2));
    assert!(matches!(r, Err(MintError::PreconditionFailed)));
    assert_eq!(s.inventory.len(), 2);
}

#[test]
fn preload_appends_to_next_slots() {
    let (mut s, env) = fresh_state(vec![], 10, 5, 2);
    let r = load_metadata(&mut s, &env, vec![preload("late-1"), preload("late-2")]);
    assert!(r.is_ok());
    assert_eq!(s.inventory.len(), 4);
    assert_eq!(s.total_loaded, 4);
    assert_eq!(s.inventory[2].id, "late-1");
    assert_eq!(s.inventory[3].id, "late-2");
}

#[test]
fn query_reports_configuration_and_remaining() {
    let (mut s, env) = fresh_state(vec![], 10, 5, 3);
    enable(&mut s, &env, true, false);
    let QueryAnswer::Info {
        admin,
        token_contract: tc,
        nft_contract: nc,
        mint_price,
        whitelist_mint_enabled,
        standard_mint_enabled,
        max_mint_per_tx,
        mint_current_count,
        mint_current_left,
    } = query(&s, QueryMsg::Info, 9);
    assert_eq!(admin, "admin");
    assert_eq!(tc.contract_addr, "token-addr");
    assert_eq!(nc.contract_addr, "nft-addr");
    assert_eq!(mint_price, 10);
    assert!(whitelist_mint_enabled);
    assert!(!standard_mint_enabled);
    assert_eq!(max_mint_per_tx, 5);
    assert_eq!(mint_current_count, 9);
    assert_eq!(mint_current_left, 3);
}
