//! The version-independent domain model: strongly-typed results that every
//! supported wire version's records converge on.  Every field is already
//! validated; no field can hold a syntactically invalid value.

use vstd::prelude::*;
use crate::amount::{Amount, SignedAmount, FeeRate};
use crate::primitives::{Txid, BlockHash, Hash160, Script, WitnessVersion, WitnessProgram};
use crate::address::{UncheckedAddress, CheckedAddress};
use crate::keys::{PubKey, PrivKey, DerivPath};
use crate::tx::RawTransaction;

verus! {

/// What an address is used for.
#[derive(Debug, Clone, Copy, PartialEq, Eq, Structural)]
pub enum AddressPurpose {
    /// A send-to address.
    Send,
    /// A receive-from address.
    Receive,
}

/// The category of a transaction.
#[derive(Debug, Clone, Copy, PartialEq, Eq, Structural)]
pub enum TransactionCategory {
    /// The transaction is a send.
    Send,
    /// The transaction is a receive.
    Receive,
}

/// Whether a transaction signals opt-in replaceability.
#[derive(Debug, Clone, Copy, PartialEq, Eq, Structural)]
pub enum Bip125Replaceable {
    /// The transaction can be replaced.
    Yes,
    /// The transaction cannot be replaced.
    No,
    /// Replaceability is unknown.
    Unknown,
}

/// The type of an output script.
#[derive(Debug, Clone, Copy, PartialEq, Eq, Structural)]
pub enum ScriptType {
    /// Non-standard output script.
    NonStandard,
    /// Pubkey output script.
    Pubkey,
    /// Pubkey hash output script.
    PubkeyHash,
    /// Script hash output script.
    ScriptHash,
    /// Multisig output script.
    Multisig,
    /// Null data output script.
    NullData,
    /// Witness version zero key hash output script.
    WitnessV0KeyHash,
    /// Witness version zero script hash output script.
    WitnessV0ScriptHash,
    /// Unknown witness output script.
    WitnessUnknown,
}

/// A label attached to an address, with the address's purpose.
#[derive(Clone, Debug, PartialEq, Eq)]
pub struct AddressLabel {
    /// The label text.
    pub name: String,
    /// The address's purpose.
    pub purpose: AddressPurpose,
}

/// Result of adding a multisignature address to the wallet.
#[derive(Clone, Debug, PartialEq, Eq)]
pub struct AddMultisigAddress {
    /// The new multisig address.
    pub address: UncheckedAddress,
    /// The redemption script.
    pub redeem_script: Script,
}

/// Result of bumping the fee of a replaceable transaction.
#[derive(Clone, Debug, PartialEq, Eq)]
pub struct BumpFee {
    /// The id of the new transaction.
    pub txid: Txid,
    /// The fee of the replaced transaction.
    pub original_fee: Amount,
    /// The fee of the new transaction.
    pub fee: Amount,
    /// Errors encountered during processing; may be empty.
    pub errors: Vec<String>,
}

/// Result of creating and loading a new wallet.
#[derive(Clone, Debug, PartialEq, Eq)]
pub struct CreateWallet {
    /// The wallet name, if created successfully.
    pub name: String,
    /// Warning messages related to creating and loading the wallet.
    pub warnings: Vec<String>,
}

/// Result of revealing the private key for an address.
#[derive(Clone, Debug, PartialEq, Eq)]
pub struct DumpPrivKey {
    /// The private key.
    pub key: PrivKey,
}

/// Result of dumping all wallet keys to a server-side file.
#[derive(Clone, Debug, PartialEq, Eq)]
pub struct DumpWallet {
    /// The file name with full absolute path.
    pub file_name: String,
}

/// Result of listing the addresses assigned a label.
#[derive(Clone, Debug, PartialEq, Eq)]
pub struct GetAddressesByLabel {
    /// Each address with its purpose, in wire order.
    pub addresses: Vec<(CheckedAddress, AddressPurpose)>,
}

/// Information about an address embedded in a script-wrapped address,
/// excluding wallet metadata.
#[derive(Clone, Debug, PartialEq, Eq)]
pub struct GetAddressInfoEmbedded {
    /// The validated address.
    pub address: CheckedAddress,
    /// The output script generated by the address.
    pub script_pubkey: Script,
    /// Whether the key is a script.
    pub is_script: bool,
    /// Whether the address is a witness address.
    pub is_witness: bool,
    /// The witness version, when the address is a witness address.
    pub witness_version: Option<WitnessVersion>,
    /// The witness program, when the address is a witness address.
    pub witness_program: Option<WitnessProgram>,
    /// The output script type, if known.
    pub script: Option<ScriptType>,
    /// The redeem script for a script-hash address.
    pub hex: Option<Script>,
    /// Pubkeys associated with the known redeem script.
    pub pubkeys: Vec<PubKey>,
    /// Signatures required to spend a multisig output.
    pub sigs_required: Option<i32>,
    /// The raw public key for single-key addresses.
    pub pubkey: Option<PubKey>,
    /// Whether the address is compressed.
    pub is_compressed: bool,
    /// The label associated with the address.
    pub label: String,
    /// The labels associated with the address.
    pub labels: Vec<AddressLabel>,
}

/// Result of asking for information about an address.
#[derive(Clone, Debug, PartialEq, Eq)]
pub struct GetAddressInfo {
    /// The validated address.
    pub address: CheckedAddress,
    /// The output script generated by the address.
    pub script_pubkey: Script,
    /// Whether the address is the wallet's own.
    pub is_mine: bool,
    /// Whether the address is watch-only.
    pub is_watch_only: bool,
    /// Whether the key is a script.
    pub is_script: bool,
    /// Whether the address is a witness address.
    pub is_witness: bool,
    /// The witness version, when the address is a witness address.
    pub witness_version: Option<WitnessVersion>,
    /// The witness program, when the address is a witness address.
    pub witness_program: Option<WitnessProgram>,
    /// The output script type, if known.
    pub script: Option<ScriptType>,
    /// The redeem script for a script-hash address.
    pub hex: Option<Script>,
    /// Pubkeys associated with the known redeem script.
    pub pubkeys: Vec<PubKey>,
    /// Signatures required to spend a multisig output.
    pub sigs_required: Option<i32>,
    /// The raw public key for single-key addresses.
    pub pubkey: Option<PubKey>,
    /// Information about an address embedded in this one, if relevant.
    pub embedded: Option<GetAddressInfoEmbedded>,
    /// Whether the address is compressed.
    pub is_compressed: bool,
    /// The label associated with the address.
    pub label: String,
    /// The key's creation time in seconds since the epoch, if available.
    pub timestamp: Option<u32>,
    /// The hierarchical-derivation key path, if available.
    pub hd_key_path: Option<DerivPath>,
    /// The 160-bit hash of the hierarchical-derivation seed.
    pub hd_seed_id: Option<Hash160>,
    /// The labels associated with the address.
    pub labels: Vec<AddressLabel>,
}

/// Result of asking for the total available balance.
#[derive(Clone, Debug, PartialEq, Eq)]
pub struct GetBalance(pub Amount);

/// Result of asking for a new receiving address.
#[derive(Clone, Debug, PartialEq, Eq)]
pub struct GetNewAddress(pub UncheckedAddress);

/// Result of asking for a new change address.
#[derive(Clone, Debug, PartialEq, Eq)]
pub struct GetRawChangeAddress(pub CheckedAddress);

/// Result of asking for the total amount received by an address.
#[derive(Clone, Debug, PartialEq, Eq)]
pub struct GetReceivedByAddress(pub Amount);

/// One movement of funds within an in-wallet transaction.
#[derive(Clone, Debug, PartialEq, Eq)]
pub struct GetTransactionDetail {
    /// The address involved in the transaction.
    pub address: UncheckedAddress,
    /// Whether funds were sent or received.
    pub category: TransactionCategory,
    /// The amount moved.
    pub amount: SignedAmount,
    /// A label for the address or transaction, if any.
    pub label: Option<String>,
    /// The output index.
    pub vout: u32,
    /// The fee; negative, and only present for sends.
    pub fee: Option<SignedAmount>,
    /// Whether the transaction was abandoned; only present for sends.
    pub abandoned: Option<bool>,
}

/// Result of asking for detailed information about an in-wallet transaction.
#[derive(Clone, Debug, PartialEq, Eq)]
pub struct GetTransaction {
    /// The transaction amount.
    pub amount: SignedAmount,
    /// The fee; negative, and only present for sends.
    pub fee: Option<SignedAmount>,
    /// The number of confirmations.
    pub confirmations: u32,
    /// The transaction id.
    pub txid: Txid,
    /// The transaction time in seconds since the epoch.
    pub time: u32,
    /// The time received in seconds since the epoch.
    pub time_received: u32,
    /// Whether the transaction signals opt-in replaceability.
    pub bip125_replaceable: Bip125Replaceable,
    /// The per-address movements within the transaction.
    pub details: Vec<GetTransactionDetail>,
    /// The raw transaction.
    pub tx: RawTransaction,
}

/// Result of asking for the total unconfirmed balance.
#[derive(Clone, Debug, PartialEq, Eq)]
pub struct GetUnconfirmedBalance(pub Amount);

/// Result of asking for the wallet's state.
#[derive(Clone, Debug, PartialEq, Eq)]
pub struct GetWalletInfo {
    /// The wallet name.
    pub wallet_name: String,
    /// The wallet version.
    pub wallet_version: i64,
    /// The total confirmed balance.
    pub balance: Amount,
    /// The total unconfirmed balance.
    pub unconfirmed_balance: Amount,
    /// The total immature balance.
    pub immature_balance: Amount,
    /// The total number of transactions in the wallet.
    pub tx_count: i64,
    /// The timestamp of the oldest pre-generated key in the key pool.
    pub keypool_oldest: i64,
    /// How many new keys are pre-generated.
    pub keypool_size: i64,
    /// How many new keys are pre-generated for internal use.
    pub keypool_size_hd_internal: i64,
    /// When the wallet is unlocked for transfers, or zero if locked.
    pub unlocked_until: u32,
    /// The configured transaction fee rate.
    pub pay_tx_fee: FeeRate,
    /// The 160-bit hash of the hierarchical-derivation seed.
    pub hd_seed_id: Option<Hash160>,
    /// Whether private keys are disabled for this wallet.
    pub private_keys_enabled: bool,
}

/// One address within a group of commonly-owned addresses.
#[derive(Clone, Debug, PartialEq, Eq)]
pub struct ListAddressGroupingsItem {
    /// The address.
    pub address: CheckedAddress,
    /// The amount held by the address.
    pub amount: Amount,
    /// The label, if any.
    pub label: Option<String>,
}

/// Result of listing groups of addresses with publicly shared ownership.
#[derive(Clone, Debug, PartialEq, Eq)]
pub struct ListAddressGroupings(pub Vec<Vec<ListAddressGroupingsItem>>);

/// Result of listing all labels.
#[derive(Clone, Debug, PartialEq, Eq)]
pub struct ListLabels(pub Vec<String>);

/// One temporarily unspendable output.
#[derive(Clone, Debug, PartialEq, Eq)]
pub struct ListLockUnspentItem {
    /// The locked transaction id.
    pub txid: Txid,
    /// The output index.
    pub vout: i64,
}

/// Result of listing temporarily unspendable outputs.
#[derive(Clone, Debug, PartialEq, Eq)]
pub struct ListLockUnspent(pub Vec<ListLockUnspentItem>);

/// One receiving address with its balance.
#[derive(Clone, Debug, PartialEq, Eq)]
pub struct ListReceivedByAddressItem {
    /// Whether imported addresses were involved.
    pub involves_watch_only: bool,
    /// The receiving address.
    pub address: CheckedAddress,
    /// The total amount received by the address.
    pub amount: Amount,
    /// Confirmations of the most recent included transaction.
    pub confirmations: i64,
    /// The label of the receiving address.
    pub label: String,
    /// The ids of transactions received with the address.
    pub txids: Vec<Txid>,
}

/// Result of listing balances by receiving address.
#[derive(Clone, Debug, PartialEq, Eq)]
pub struct ListReceivedByAddress(pub Vec<ListReceivedByAddressItem>);

/// One transaction reported since a given block.
#[derive(Clone, Debug, PartialEq, Eq)]
pub struct ListSinceBlockTransaction {
    /// The address of the transaction.
    pub address: UncheckedAddress,
    /// Whether funds were sent or received.
    pub category: TransactionCategory,
    /// The amount moved; negative for sends.
    pub amount: SignedAmount,
    /// The output index.
    pub vout: i64,
    /// The fee; negative, present for sends.
    pub fee: SignedAmount,
    /// The number of confirmations; negative for conflicted transactions.
    pub confirmations: i64,
    /// The hash of the block containing the transaction.
    pub block_hash: BlockHash,
    /// The index of the transaction in its block.
    pub block_index: i64,
    /// The block time in seconds since the epoch.
    pub block_time: u32,
    /// The transaction id, when available.
    pub txid: Option<Txid>,
    /// The transaction time in seconds since the epoch.
    pub time: u32,
    /// The time received in seconds since the epoch.
    pub time_received: u32,
    /// Whether the transaction signals opt-in replaceability.
    pub bip125_replaceable: Bip125Replaceable,
    /// Whether the transaction was abandoned; only present for sends.
    pub abandoned: Option<bool>,
    /// A comment on the transaction, if any.
    pub comment: Option<String>,
    /// A label for the address or transaction, if any.
    pub label: Option<String>,
    /// A comment on the recipient, if any.
    pub to: Option<String>,
}

/// Result of listing transactions in blocks since a given block.
#[derive(Clone, Debug, PartialEq, Eq)]
pub struct ListSinceBlock {
    /// The transactions since the block.
    pub transactions: Vec<ListSinceBlockTransaction>,
    /// Transactions removed by a reorganisation, when asked for.
    pub removed: Vec<ListSinceBlockTransaction>,
    /// The hash to feed back into the next call.
    pub last_block: BlockHash,
}

/// One transaction in a recent-transactions listing.
#[derive(Clone, Debug, PartialEq, Eq)]
pub struct ListTransactionsItem {
    /// The address of the transaction.
    pub address: UncheckedAddress,
    /// Whether funds were sent or received.
    pub category: TransactionCategory,
    /// The amount moved; negative for sends.
    pub amount: SignedAmount,
    /// A label for the address or transaction, if any.
    pub label: Option<String>,
    /// The output index.
    pub vout: i64,
    /// The fee; negative, present for sends.
    pub fee: SignedAmount,
    /// The number of confirmations; negative for conflicted transactions.
    pub confirmations: i64,
    /// Whether the unconfirmed outputs are considered safe to spend.
    pub trusted: bool,
    /// The hash of the block containing the transaction.
    pub block_hash: BlockHash,
    /// The index of the transaction in its block.
    pub block_index: i64,
    /// The block time in seconds since the epoch.
    pub block_time: u32,
    /// The transaction id.
    pub txid: Txid,
    /// The transaction time in seconds since the epoch.
    pub time: u32,
    /// The time received in seconds since the epoch.
    pub time_received: u32,
    /// A comment on the transaction, if any.
    pub comment: Option<String>,
    /// Whether the transaction signals opt-in replaceability.
    pub bip125_replaceable: Bip125Replaceable,
    /// Whether the transaction was abandoned; only present for sends.
    pub abandoned: Option<bool>,
}

/// Result of listing the most recent transactions.
#[derive(Clone, Debug, PartialEq, Eq)]
pub struct ListTransactions(pub Vec<ListTransactionsItem>);

/// One unspent transaction output.
#[derive(Clone, Debug, PartialEq, Eq)]
pub struct ListUnspentItem {
    /// The transaction id.
    pub txid: Txid,
    /// The output index.
    pub vout: i64,
    /// The address of the output.
    pub address: CheckedAddress,
    /// The associated label.
    pub label: String,
    /// The output script.
    pub script_pubkey: Script,
    /// The output amount.
    pub amount: Amount,
    /// The number of confirmations.
    pub confirmations: u32,
    /// The redeem script, for script-hash outputs.
    pub redeem_script: Option<Script>,
    /// Whether the wallet holds the keys to spend this output.
    pub spendable: bool,
    /// Whether the wallet knows how to spend this output.
    pub solvable: bool,
    /// Whether this output is considered safe to spend.
    pub safe: bool,
}

/// Result of listing unspent transaction outputs.
#[derive(Clone, Debug, PartialEq, Eq)]
pub struct ListUnspent(pub Vec<ListUnspentItem>);

/// Result of listing currently loaded wallets.
#[derive(Clone, Debug, PartialEq, Eq)]
pub struct ListWallets(pub Vec<String>);

/// Result of loading a wallet from a wallet file or directory.
#[derive(Clone, Debug, PartialEq, Eq)]
pub struct LoadWallet {
    /// The wallet name, if loaded successfully.
    pub name: String,
    /// Warning messages related to loading the wallet.
    pub warnings: Vec<String>,
}

/// Result of sending an amount to an address.
#[derive(Clone, Debug, PartialEq, Eq)]
pub struct SendToAddress {
    /// The id of the sending transaction.
    pub txid: Txid,
}

} // verus!
