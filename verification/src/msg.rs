//! The inbound commands, outbound instructions and answer types of the
//! minter, together with the execution context handed in with each call.
//!
//! Identities are plain strings and amounts plain 128-bit integers; the
//! wire encoding of these values is the host's business, not the library's.

use vstd::prelude::*;

verus! {

/// Execution context of one inbound call: public block data plus the
/// identity that sent the message and this contract's own code hash.
#[derive(Clone, Debug)]
pub struct Env {
    pub block_height: u64,
    pub block_time: u64,
    /// The identity that sent the current message.
    pub message_sender: String,
    /// Code hash of this contract, handed to the payment token so it can
    /// call back.
    pub contract_code_hash: String,
}

/// Reference to another contract: its address and its code hash.
#[derive(Clone, Debug, PartialEq)]
pub struct SecretContract {
    pub contract_addr: String,
    pub token_code_hash: String,
}

/// One revenue-share recipient with a percentage weight (four decimal
/// places).
#[derive(Clone, Debug, PartialEq)]
pub struct RevenueSplit {
    pub address: String,
    pub percentage: u32,
}

/// The initialization message: administrator (defaults to the caller),
/// payment token, entropy for the persistent seed, price, per-request cap,
/// pre-approved identities and revenue shares.
#[derive(Clone, Debug)]
pub struct InitMsg {
    pub admin: Option<String>,
    pub token_contract: SecretContract,
    pub entropy: String,
    pub mint_price: u128,
    pub max_mint_per_tx: u16,
    pub whitelist: Vec<String>,
    pub revenue_split: Vec<RevenueSplit>,
}

/// The administrative commands and the payment-notification event.
#[derive(Clone, Debug)]
pub enum HandleMsg {
    /// Payment notification from the token contract: `sender` moved
    /// `amount` to this contract on behalf of `from`; `msg` is the decoded
    /// request payload.
    Receive { sender: String, from: String, amount: u128, msg: HandleReceiveMsg },
    /// Overwrite the two sale-mode flags; price and cap only when given.
    UpdateMint {
        whitelist_mint_enabled: bool,
        standard_mint_enabled: bool,
        mint_price: Option<u128>,
        max_mint_per_tx: Option<u16>,
    },
    UpdateChangeMetadataPermitedAdresses { change_metadata_permited_addresses: Vec<String> },
    ChangeAdmin { admin: String },
    AddNftContract { contract: SecretContract },
    LoadMetadata { new_data: Vec<PreLoad> },
}

/// The request carried inside a payment notification.
#[derive(Clone, Debug)]
pub enum HandleReceiveMsg {
    MintNfts { count: u16 },
}

/// Preloaded data for one allocatable token.
#[derive(Clone, Debug)]
pub struct PreLoad {
    pub id: String,
    pub img_url: String,
    pub attributes: Option<Vec<Trait>>,
    pub priv_attributes: Option<Vec<Trait>>,
    pub hidden_attributes: Option<Vec<Trait>>,
}

/// The data block of a successful command's response.
#[derive(Clone, Debug)]
pub enum HandleAnswer {
    AddNftContract { status: ResponseStatus },
    MintNfts { status: ResponseStatus },
    ChangeAdmin { status: ResponseStatus },
    UpdateChangeMetadataPermitedAdresses { status: ResponseStatus },
    UpdateMint { status: ResponseStatus },
}

#[derive(Clone, Copy, Debug, PartialEq, Eq, Structural)]
pub enum ResponseStatus {
    Success,
    Failure,
}

/// The read-only query surface.
#[derive(Clone, Debug)]
pub enum QueryMsg {
    Info,
}

/// The answer to the status query.
#[derive(Clone, Debug)]
pub enum QueryAnswer {
    Info {
        admin: String,
        token_contract: SecretContract,
        nft_contract: SecretContract,
        mint_price: u128,
        whitelist_mint_enabled: bool,
        standard_mint_enabled: bool,
        max_mint_per_tx: u16,
        /// Tokens issued so far, as reported by the issuance contract.
        mint_current_count: u32,
        /// Undrawn tokens remaining in this contract's pool.
        mint_current_left: u16,
    },
}

/// The command set of the external issuance contract, as far as this
/// library addresses it.
#[derive(Clone, Debug)]
pub enum NftsHandleMsg {
    MintNft {
        token_id: Option<String>,
        owner: Option<String>,
        public_metadata: Option<Metadata>,
        private_metadata: Option<Metadata>,
        serial_number: Option<SerialNumber>,
        royalty_info: Option<RoyaltyInfo>,
        transferable: Option<bool>,
        memo: Option<String>,
        padding: Option<String>,
    },
    BatchMintNft { mints: Vec<Mint>, padding: Option<String> },
}

/// One entry of a batch issuance instruction.
#[derive(Clone, Debug)]
pub struct Mint {
    pub token_id: Option<String>,
    pub owner: Option<String>,
    pub public_metadata: Option<Metadata>,
    pub private_metadata: Option<Metadata>,
    pub serial_number: Option<SerialNumber>,
    pub royalty_info: Option<RoyaltyInfo>,
    pub transferable: Option<bool>,
    pub memo: Option<String>,
    pub hidden_attributes: Option<Vec<HiddenAttribute>>,
}

/// Token metadata: either a URI or an on-chain extension block.
#[derive(Clone, Debug)]
pub struct Metadata {
    pub token_uri: Option<String>,
    pub extension: Option<Extension>,
}

/// On-chain metadata fields.
#[derive(Clone, Debug)]
pub struct Extension {
    pub image: Option<String>,
    pub image_data: Option<String>,
    pub external_url: Option<String>,
    pub description: Option<String>,
    pub name: Option<String>,
    pub attributes: Option<Vec<Trait>>,
    pub background_color: Option<String>,
    pub animation_url: Option<String>,
    pub youtube_url: Option<String>,
    pub media: Option<Vec<MediaFile>>,
    pub protected_attributes: Option<Vec<String>>,
    pub token_subtype: Option<String>,
}

/// One displayable attribute.
#[derive(Clone, Debug)]
pub struct Trait {
    pub display_type: Option<String>,
    pub trait_type: Option<String>,
    pub value: String,
    pub max_value: Option<String>,
}

/// One media file of a token.
#[derive(Clone, Debug)]
pub struct MediaFile {
    pub file_type: Option<String>,
    pub extension: Option<String>,
    pub authentication: Option<Authentication>,
    pub url: String,
}

/// Access data for a media file.
#[derive(Clone, Debug)]
pub struct Authentication {
    pub key: Option<String>,
    pub user: Option<String>,
}

/// Serial number of a token within a mint run.
#[derive(Clone, Debug)]
pub struct SerialNumber {
    pub mint_run: Option<u32>,
    pub serial_number: u32,
    pub quantity_minted_this_run: Option<u32>,
}

/// Royalty configuration of a token.
#[derive(Clone, Debug)]
pub struct RoyaltyInfo {
    pub decimal_places_in_rates: u8,
    pub royalties: Vec<Royalty>,
}

#[derive(Clone, Debug)]
pub struct Royalty {
    pub recipient: String,
    pub rate: u16,
}

/// One hidden attribute of a token.
#[derive(Clone, Debug)]
pub struct HiddenAttribute {
    pub name: String,
    pub value: String,
}

/// One outbound instruction of a command.
#[derive(Clone, Debug)]
pub enum OutMsg {
    /// Tells the payment token to notify this contract of transfers, naming
    /// the code hash it should call back with.
    RegisterReceive { callback_code_hash: String, target: SecretContract },
    /// One batch issuance instruction addressed to the issuance contract.
    Issue { target: SecretContract, msg: NftsHandleMsg },
}

/// What a successful command hands back to the host: outbound instructions
/// and an optional answer block.
#[derive(Clone, Debug)]
pub struct Response {
    pub messages: Vec<OutMsg>,
    pub data: Option<HandleAnswer>,
}

/// The typed rejections of this library. Every failure is surfaced as one
/// of these; no partial state change accompanies any of them.
#[derive(Clone, Copy, Debug, PartialEq, Eq, Structural)]
pub enum MintError {
    /// The caller is not entitled to the command (not the administrator,
    /// or, for a payment notification, not the payment token contract).
    Unauthorized,
    /// A state-dependent guard failed, e.g. retargeting issuance or
    /// preloading while a sale mode is active.
    PreconditionFailed,
    /// No issuance contract has been set.
    NotConfigured,
    /// Both sale-mode flags are off.
    MintingDisabled,
    /// The pool has no token left.
    InventoryExhausted,
    /// More tokens were requested than remain.
    InsufficientInventory,
    /// More tokens were requested than one request may take.
    CapExceeded,
    /// The received amount is not exactly price times count.
    PaymentMismatch,
    /// Allow-list sale only, and the requester is not on the list.
    NotEligible,
    /// Allow-list sale only, and the requester has already used its entry.
    AlreadyClaimed,
    /// A persisted record that the invariants promise was missing.
    NotFound,
}

} // verus!
