//! The event records of the bridge in their present layout: where an event
//! was seen, what it carries, and how far the transfer has come.
//!
//! Each type that holds text stands beside its mathematical form, in which
//! text is a sequence of characters; the contracts of the crate speak of
//! those forms.

use core::cmp::Ordering;
use vstd::prelude::*;
use vstd::std_specs::cmp::PartialOrdSpecImpl;

verus! {

/// The identifier that the store gives a document: twelve bytes.
pub type ObjectId = [u8; 12];

/// The mathematical form of an optional value.
pub open spec fn optional_view<T: View>(o: Option<T>) -> Option<T::V> {
    match o {
        Some(x) => Some(x@),
        None => None,
    }
}

/// The chain family that an address or a transfer belongs to.
#[derive(Clone, Copy, Debug, PartialEq, Eq, Structural)]
pub enum ChainKind {
    Eth,
    Near,
    Sol,
    Arb,
    Base,
}

/// How far a transfer has come. The variants are declared in the order of
/// the lifecycle, and `<` is the order of progress.
#[derive(Clone, Copy, Debug, PartialEq, Eq, Structural, Ord)]
pub enum OmniTransferStatus {
    /// Seen on the origin chain.
    Initialized,
    /// Settled on the origin chain, not yet on the destination.
    FinalisedOnOrigin,
    /// Settled on both chains.
    Finalised,
}

impl OmniTransferStatus {
    /// The place of the status in the lifecycle, counted from 0.
    pub open spec fn rank(self) -> nat {
        match self {
            OmniTransferStatus::Initialized => 0,
            OmniTransferStatus::FinalisedOnOrigin => 1,
            OmniTransferStatus::Finalised => 2,
        }
    }

    /// The place of the status in the lifecycle, counted from 0.
    pub fn stage(self) -> (n: u8)
        ensures
            n == self.rank(),
    {
        match self {
            OmniTransferStatus::Initialized => 0,
            OmniTransferStatus::FinalisedOnOrigin => 1,
            OmniTransferStatus::Finalised => 2,
        }
    }

    /// Whether a transfer with this status has come at least as far as
    /// `stage`.
    pub fn has_reached(self, stage: OmniTransferStatus) -> (reached: bool)
        ensures
            reached == (stage.rank() <= self.rank()),
    {
        stage.stage() <= self.stage()
    }
}

impl PartialOrd for OmniTransferStatus {
    fn partial_cmp(&self, other: &Self) -> (order: Option<Ordering>) {
        let a = self.stage();
        let b = other.stage();
        if a < b {
            Some(Ordering::Less)
        } else if a == b {
            Some(Ordering::Equal)
        } else {
            Some(Ordering::Greater)
        }
    }
}

impl PartialOrdSpecImpl for OmniTransferStatus {
    open spec fn obeys_partial_cmp_spec() -> bool {
        true
    }

    open spec fn partial_cmp_spec(&self, other: &Self) -> Option<Ordering> {
        if self.rank() < other.rank() {
            Some(Ordering::Less)
        } else if self.rank() == other.rank() {
            Some(Ordering::Equal)
        } else {
            Some(Ordering::Greater)
        }
    }
}

/// The lifecycle is a total order: two statuses at the same place are the
/// same, and of any two one has reached the other.
pub proof fn law_status_total_order(a: OmniTransferStatus, b: OmniTransferStatus)
    ensures
        a.rank() == b.rank() ==> a == b,
        a.rank() <= b.rank() || b.rank() <= a.rank(),
        OmniTransferStatus::Initialized.rank() < OmniTransferStatus::FinalisedOnOrigin.rank(),
        OmniTransferStatus::FinalisedOnOrigin.rank() < OmniTransferStatus::Finalised.rank(),
{
}

/// An account on one chain.
#[derive(Debug, PartialEq, Eq)]
pub struct OmniAddress {
    pub chain: ChainKind,
    /// The account as the chain writes it.
    pub address: String,
}

/// The mathematical form of [`OmniAddress`].
pub ghost struct OmniAddressView {
    pub chain: ChainKind,
    pub address: Seq<char>,
}

impl View for OmniAddress {
    type V = OmniAddressView;

    open spec fn view(&self) -> OmniAddressView {
        OmniAddressView {
            chain: self.chain,
            address: self.address@,
        }
    }
}

impl Clone for OmniAddress {
    fn clone(&self) -> (copy: Self)
        ensures
            copy == *self,
    {
        OmniAddress {
            chain: self.chain,
            address: self.address.clone(),
        }
    }
}

/// The identity of a transfer: the chain it started on and its number there.
#[derive(Clone, Copy, Debug, PartialEq, Eq, Structural)]
pub struct TransferId {
    pub origin_chain: ChainKind,
    pub origin_nonce: u64,
}

/// What is known of a token at the time of enrichment.
#[derive(Debug, PartialEq, Eq)]
pub struct OmniTokenInfo {
    /// The key of the token in the price index.
    pub token_id: String,
    pub name: String,
    pub symbol: String,
    pub decimals: u8,
    /// The price in US dollars, as the bit pattern of a 64-bit float.
    pub usd_price: u64,
}

/// The mathematical form of [`OmniTokenInfo`].
pub ghost struct OmniTokenInfoView {
    pub token_id: Seq<char>,
    pub name: Seq<char>,
    pub symbol: Seq<char>,
    pub decimals: u8,
    pub usd_price: u64,
}

impl View for OmniTokenInfo {
    type V = OmniTokenInfoView;

    open spec fn view(&self) -> OmniTokenInfoView {
        OmniTokenInfoView {
            token_id: self.token_id@,
            name: self.name@,
            symbol: self.symbol@,
            decimals: self.decimals,
            usd_price: self.usd_price,
        }
    }
}

impl Clone for OmniTokenInfo {
    fn clone(&self) -> (copy: Self)
        ensures
            copy == *self,
    {
        OmniTokenInfo {
            token_id: self.token_id.clone(),
            name: self.name.clone(),
            symbol: self.symbol.clone(),
            decimals: self.decimals,
            usd_price: self.usd_price,
        }
    }
}

/// A transfer as the NEAR bridge contract records it.
#[derive(Debug, PartialEq, Eq)]
pub struct TransferMessage {
    pub origin_nonce: u64,
    pub token: OmniAddress,
    pub amount: u128,
    pub recipient: OmniAddress,
    pub fee: u128,
    pub sender: OmniAddress,
    pub msg: String,
    pub destination_nonce: u64,
}

/// The mathematical form of [`TransferMessage`].
pub ghost struct TransferMessageView {
    pub origin_nonce: u64,
    pub token: OmniAddressView,
    pub amount: u128,
    pub recipient: OmniAddressView,
    pub fee: u128,
    pub sender: OmniAddressView,
    pub msg: Seq<char>,
    pub destination_nonce: u64,
}

impl View for TransferMessage {
    type V = TransferMessageView;

    open spec fn view(&self) -> TransferMessageView {
        TransferMessageView {
            origin_nonce: self.origin_nonce,
            token: self.token@,
            amount: self.amount,
            recipient: self.recipient@,
            fee: self.fee,
            sender: self.sender@,
            msg: self.msg@,
            destination_nonce: self.destination_nonce,
        }
    }
}

impl Clone for TransferMessage {
    fn clone(&self) -> (copy: Self)
        ensures
            copy == *self,
    {
        TransferMessage {
            origin_nonce: self.origin_nonce,
            token: self.token.clone(),
            amount: self.amount,
            recipient: self.recipient.clone(),
            fee: self.fee,
            sender: self.sender.clone(),
            msg: self.msg.clone(),
            destination_nonce: self.destination_nonce,
        }
    }
}

/// A transfer signed on NEAR for delivery to another chain. It names no sender.
#[derive(Debug, PartialEq, Eq)]
pub struct SignTransferEvent {
    pub signature: String,
    pub transfer_id: TransferId,
    pub token: OmniAddress,
    pub amount: u128,
    pub recipient: OmniAddress,
    pub fee_recipient: Option<String>,
    pub destination_nonce: u64,
}

/// The mathematical form of [`SignTransferEvent`].
pub ghost struct SignTransferEventView {
    pub signature: Seq<char>,
    pub transfer_id: TransferId,
    pub token: OmniAddressView,
    pub amount: u128,
    pub recipient: OmniAddressView,
    pub fee_recipient: Option<Seq<char>>,
    pub destination_nonce: u64,
}

impl View for SignTransferEvent {
    type V = SignTransferEventView;

    open spec fn view(&self) -> SignTransferEventView {
        SignTransferEventView {
            signature: self.signature@,
            transfer_id: self.transfer_id,
            token: self.token@,
            amount: self.amount,
            recipient: self.recipient@,
            fee_recipient: optional_view(self.fee_recipient),
            destination_nonce: self.destination_nonce,
        }
    }
}

impl Clone for SignTransferEvent {
    fn clone(&self) -> (copy: Self)
        ensures
            copy == *self,
    {
        SignTransferEvent {
            signature: self.signature.clone(),
            transfer_id: self.transfer_id,
            token: self.token.clone(),
            amount: self.amount,
            recipient: self.recipient.clone(),
            fee_recipient: match &self.fee_recipient {
                Some(x) => Some(x.clone()),
                None => None,
            },
            destination_nonce: self.destination_nonce,
        }
    }
}

/// A transfer started on an EVM chain.
#[derive(Debug, PartialEq, Eq)]
pub struct InitTransferMessage {
    pub origin_nonce: u64,
    pub token: OmniAddress,
    pub amount: u128,
    pub recipient: OmniAddress,
    pub fee: u128,
    pub sender: OmniAddress,
    pub msg: String,
}

/// The mathematical form of [`InitTransferMessage`].
pub ghost struct InitTransferMessageView {
    pub origin_nonce: u64,
    pub token: OmniAddressView,
    pub amount: u128,
    pub recipient: OmniAddressView,
    pub fee: u128,
    pub sender: OmniAddressView,
    pub msg: Seq<char>,
}

impl View for InitTransferMessage {
    type V = InitTransferMessageView;

    open spec fn view(&self) -> InitTransferMessageView {
        InitTransferMessageView {
            origin_nonce: self.origin_nonce,
            token: self.token@,
            amount: self.amount,
            recipient: self.recipient@,
            fee: self.fee,
            sender: self.sender@,
            msg: self.msg@,
        }
    }
}

impl Clone for InitTransferMessage {
    fn clone(&self) -> (copy: Self)
        ensures
            copy == *self,
    {
        InitTransferMessage {
            origin_nonce: self.origin_nonce,
            token: self.token.clone(),
            amount: self.amount,
            recipient: self.recipient.clone(),
            fee: self.fee,
            sender: self.sender.clone(),
            msg: self.msg.clone(),
        }
    }
}

/// A transfer completed on an EVM chain. It names no sender.
#[derive(Debug, PartialEq, Eq)]
pub struct FinTransferMessage {
    pub transfer_id: TransferId,
    pub fee_recipient: String,
    pub amount: u128,
    pub emitter: OmniAddress,
}

/// The mathematical form of [`FinTransferMessage`].
pub ghost struct FinTransferMessageView {
    pub transfer_id: TransferId,
    pub fee_recipient: Seq<char>,
    pub amount: u128,
    pub emitter: OmniAddressView,
}

impl View for FinTransferMessage {
    type V = FinTransferMessageView;

    open spec fn view(&self) -> FinTransferMessageView {
        FinTransferMessageView {
            transfer_id: self.transfer_id,
            fee_recipient: self.fee_recipient@,
            amount: self.amount,
            emitter: self.emitter@,
        }
    }
}

impl Clone for FinTransferMessage {
    fn clone(&self) -> (copy: Self)
        ensures
            copy == *self,
    {
        FinTransferMessage {
            transfer_id: self.transfer_id,
            fee_recipient: self.fee_recipient.clone(),
            amount: self.amount,
            emitter: self.emitter.clone(),
        }
    }
}

/// A transfer started on Solana.
#[derive(Debug, PartialEq, Eq)]
pub struct SolanaInitTransferMessage {
    pub amount: u128,
    pub fee: u128,
    pub token: OmniAddress,
    pub recipient: OmniAddress,
    pub sender: OmniAddress,
    pub origin_nonce: u64,
    pub emitter: Option<String>,
}

/// The mathematical form of [`SolanaInitTransferMessage`].
pub ghost struct SolanaInitTransferMessageView {
    pub amount: u128,
    pub fee: u128,
    pub token: OmniAddressView,
    pub recipient: OmniAddressView,
    pub sender: OmniAddressView,
    pub origin_nonce: u64,
    pub emitter: Option<Seq<char>>,
}

impl View for SolanaInitTransferMessage {
    type V = SolanaInitTransferMessageView;

    open spec fn view(&self) -> SolanaInitTransferMessageView {
        SolanaInitTransferMessageView {
            amount: self.amount,
            fee: self.fee,
            token: self.token@,
            recipient: self.recipient@,
            sender: self.sender@,
            origin_nonce: self.origin_nonce,
            emitter: optional_view(self.emitter),
        }
    }
}

impl Clone for SolanaInitTransferMessage {
    fn clone(&self) -> (copy: Self)
        ensures
            copy == *self,
    {
        SolanaInitTransferMessage {
            amount: self.amount,
            fee: self.fee,
            token: self.token.clone(),
            recipient: self.recipient.clone(),
            sender: self.sender.clone(),
            origin_nonce: self.origin_nonce,
            emitter: match &self.emitter {
                Some(x) => Some(x.clone()),
                None => None,
            },
        }
    }
}

/// A transfer completed on Solana. It names no sender.
#[derive(Debug, PartialEq, Eq)]
pub struct SolanaFinTransferMessage {
    pub amount: u128,
    pub destination_nonce: u64,
    pub fee_recipient: Option<String>,
    pub emitter: Option<String>,
    pub sequence: Option<u64>,
}

/// The mathematical form of [`SolanaFinTransferMessage`].
pub ghost struct SolanaFinTransferMessageView {
    pub amount: u128,
    pub destination_nonce: u64,
    pub fee_recipient: Option<Seq<char>>,
    pub emitter: Option<Seq<char>>,
    pub sequence: Option<u64>,
}

impl View for SolanaFinTransferMessage {
    type V = SolanaFinTransferMessageView;

    open spec fn view(&self) -> SolanaFinTransferMessageView {
        SolanaFinTransferMessageView {
            amount: self.amount,
            destination_nonce: self.destination_nonce,
            fee_recipient: optional_view(self.fee_recipient),
            emitter: optional_view(self.emitter),
            sequence: self.sequence,
        }
    }
}

impl Clone for SolanaFinTransferMessage {
    fn clone(&self) -> (copy: Self)
        ensures
            copy == *self,
    {
        SolanaFinTransferMessage {
            amount: self.amount,
            destination_nonce: self.destination_nonce,
            fee_recipient: match &self.fee_recipient {
                Some(x) => Some(x.clone()),
                None => None,
            },
            emitter: match &self.emitter {
                Some(x) => Some(x.clone()),
                None => None,
            },
            sequence: self.sequence,
        }
    }
}

/// The payload of a transfer, in the shape of the chain it was seen on.
#[derive(Debug, PartialEq, Eq)]
pub enum OmniTransferMessage {
    NearTransferMessage(TransferMessage),
    NearSignTransferEvent(SignTransferEvent),
    NearClaimFeeEvent(TransferMessage),
    EvmInitTransferMessage(InitTransferMessage),
    EvmFinTransferMessage(FinTransferMessage),
    SolanaInitTransfer(SolanaInitTransferMessage),
    SolanaFinTransfer(SolanaFinTransferMessage),
}

/// The mathematical form of [`OmniTransferMessage`].
pub ghost enum OmniTransferMessageView {
    NearTransferMessage(TransferMessageView),
    NearSignTransferEvent(SignTransferEventView),
    NearClaimFeeEvent(TransferMessageView),
    EvmInitTransferMessage(InitTransferMessageView),
    EvmFinTransferMessage(FinTransferMessageView),
    SolanaInitTransfer(SolanaInitTransferMessageView),
    SolanaFinTransfer(SolanaFinTransferMessageView),
}

impl View for OmniTransferMessage {
    type V = OmniTransferMessageView;

    open spec fn view(&self) -> OmniTransferMessageView {
        match self {
            OmniTransferMessage::NearTransferMessage(x) => {
                OmniTransferMessageView::NearTransferMessage(x@)
            },
            OmniTransferMessage::NearSignTransferEvent(x) => {
                OmniTransferMessageView::NearSignTransferEvent(x@)
            },
            OmniTransferMessage::NearClaimFeeEvent(x) => OmniTransferMessageView::NearClaimFeeEvent(
                x@,
            ),
            OmniTransferMessage::EvmInitTransferMessage(x) => {
                OmniTransferMessageView::EvmInitTransferMessage(x@)
            },
            OmniTransferMessage::EvmFinTransferMessage(x) => {
                OmniTransferMessageView::EvmFinTransferMessage(x@)
            },
            OmniTransferMessage::SolanaInitTransfer(x) => {
                OmniTransferMessageView::SolanaInitTransfer(x@)
            },
            OmniTransferMessage::SolanaFinTransfer(x) => OmniTransferMessageView::SolanaFinTransfer(
                x@,
            ),
        }
    }
}

impl Clone for OmniTransferMessage {
    fn clone(&self) -> (copy: Self)
        ensures
            copy == *self,
    {
        match self {
            OmniTransferMessage::NearTransferMessage(x) => OmniTransferMessage::NearTransferMessage(
                x.clone(),
            ),
            OmniTransferMessage::NearSignTransferEvent(x) => {
                OmniTransferMessage::NearSignTransferEvent(x.clone())
            },
            OmniTransferMessage::NearClaimFeeEvent(x) => OmniTransferMessage::NearClaimFeeEvent(
                x.clone(),
            ),
            OmniTransferMessage::EvmInitTransferMessage(x) => {
                OmniTransferMessage::EvmInitTransferMessage(x.clone())
            },
            OmniTransferMessage::EvmFinTransferMessage(x) => {
                OmniTransferMessage::EvmFinTransferMessage(x.clone())
            },
            OmniTransferMessage::SolanaInitTransfer(x) => OmniTransferMessage::SolanaInitTransfer(
                x.clone(),
            ),
            OmniTransferMessage::SolanaFinTransfer(x) => OmniTransferMessage::SolanaFinTransfer(
                x.clone(),
            ),
        }
    }
}

/// Where on NEAR an event was seen.
#[derive(Debug, PartialEq, Eq)]
pub struct NearReceiptOrigin {
    pub block_height: u64,
    /// The time of the block, in nanoseconds.
    pub block_timestamp_nanosec: u64,
    pub receipt_id: String,
    pub contract_id: String,
    pub signer_id: String,
    pub predecessor_id: String,
    /// The stored raw receipt this was read from, where it was kept.
    pub raw_receipt: Option<ObjectId>,
    /// The layout version of the record.
    pub version: u32,
}

/// The mathematical form of [`NearReceiptOrigin`].
pub ghost struct NearReceiptOriginView {
    pub block_height: u64,
    pub block_timestamp_nanosec: u64,
    pub receipt_id: Seq<char>,
    pub contract_id: Seq<char>,
    pub signer_id: Seq<char>,
    pub predecessor_id: Seq<char>,
    pub raw_receipt: Option<ObjectId>,
    pub version: u32,
}

impl View for NearReceiptOrigin {
    type V = NearReceiptOriginView;

    open spec fn view(&self) -> NearReceiptOriginView {
        NearReceiptOriginView {
            block_height: self.block_height,
            block_timestamp_nanosec: self.block_timestamp_nanosec,
            receipt_id: self.receipt_id@,
            contract_id: self.contract_id@,
            signer_id: self.signer_id@,
            predecessor_id: self.predecessor_id@,
            raw_receipt: self.raw_receipt,
            version: self.version,
        }
    }
}

impl Clone for NearReceiptOrigin {
    fn clone(&self) -> (copy: Self)
        ensures
            copy == *self,
    {
        NearReceiptOrigin {
            block_height: self.block_height,
            block_timestamp_nanosec: self.block_timestamp_nanosec,
            receipt_id: self.receipt_id.clone(),
            contract_id: self.contract_id.clone(),
            signer_id: self.signer_id.clone(),
            predecessor_id: self.predecessor_id.clone(),
            raw_receipt: self.raw_receipt,
            version: self.version,
        }
    }
}

/// Where on an EVM chain an event was seen.
#[derive(Debug, PartialEq, Eq)]
pub struct EvmLogOrigin {
    pub block_number: u64,
    pub block_timestamp: u64,
    pub transaction_index: Option<u64>,
    pub log_index: Option<u64>,
    /// Which of the EVM chains it is.
    pub chain_kind: ChainKind,
}

/// The mathematical form of [`EvmLogOrigin`].
pub ghost struct EvmLogOriginView {
    pub block_number: u64,
    pub block_timestamp: u64,
    pub transaction_index: Option<u64>,
    pub log_index: Option<u64>,
    pub chain_kind: ChainKind,
}

impl View for EvmLogOrigin {
    type V = EvmLogOriginView;

    open spec fn view(&self) -> EvmLogOriginView {
        EvmLogOriginView {
            block_number: self.block_number,
            block_timestamp: self.block_timestamp,
            transaction_index: self.transaction_index,
            log_index: self.log_index,
            chain_kind: self.chain_kind,
        }
    }
}

impl Clone for EvmLogOrigin {
    fn clone(&self) -> (copy: Self)
        ensures
            copy == *self,
    {
        EvmLogOrigin {
            block_number: self.block_number,
            block_timestamp: self.block_timestamp,
            transaction_index: self.transaction_index,
            log_index: self.log_index,
            chain_kind: self.chain_kind,
        }
    }
}

/// Where on Solana an event was seen.
#[derive(Clone, Copy, Debug, PartialEq, Eq, Structural)]
pub struct SolanaTransactionOrigin {
    pub slot: u64,
    pub block_time: u64,
    pub instruction_index: u64,
}

/// Where an event was seen: on which chain, and at which place in it.
#[derive(Debug, PartialEq, Eq)]
pub enum OmniTransactionOrigin {
    NearReceipt(NearReceiptOrigin),
    EvmLog(EvmLogOrigin),
    SolanaTransaction(SolanaTransactionOrigin),
}

/// The mathematical form of [`OmniTransactionOrigin`].
pub ghost enum OmniTransactionOriginView {
    NearReceipt(NearReceiptOriginView),
    EvmLog(EvmLogOriginView),
    SolanaTransaction(SolanaTransactionOrigin),
}

impl View for OmniTransactionOrigin {
    type V = OmniTransactionOriginView;

    open spec fn view(&self) -> OmniTransactionOriginView {
        match self {
            OmniTransactionOrigin::NearReceipt(x) => OmniTransactionOriginView::NearReceipt(x@),
            OmniTransactionOrigin::EvmLog(x) => OmniTransactionOriginView::EvmLog(x@),
            OmniTransactionOrigin::SolanaTransaction(x) => {
                OmniTransactionOriginView::SolanaTransaction(*x)
            },
        }
    }
}

impl Clone for OmniTransactionOrigin {
    fn clone(&self) -> (copy: Self)
        ensures
            copy == *self,
    {
        match self {
            OmniTransactionOrigin::NearReceipt(x) => OmniTransactionOrigin::NearReceipt(x.clone()),
            OmniTransactionOrigin::EvmLog(x) => OmniTransactionOrigin::EvmLog(x.clone()),
            OmniTransactionOrigin::SolanaTransaction(x) => OmniTransactionOrigin::SolanaTransaction(
                *x,
            ),
        }
    }
}

/// The chain on which an event of this origin was seen.
pub open spec fn origin_chain(origin: OmniTransactionOriginView) -> ChainKind {
    match origin {
        OmniTransactionOriginView::NearReceipt(_) => ChainKind::Near,
        OmniTransactionOriginView::EvmLog(log) => log.chain_kind,
        OmniTransactionOriginView::SolanaTransaction(_) => ChainKind::Sol,
    }
}

impl OmniTransactionOrigin {
    /// The chain on which the event was seen.
    pub fn chain(&self) -> (chain: ChainKind)
        ensures
            chain == origin_chain(self@),
    {
        match self {
            OmniTransactionOrigin::NearReceipt(_) => ChainKind::Near,
            OmniTransactionOrigin::EvmLog(log) => log.chain_kind,
            OmniTransactionOrigin::SolanaTransaction(_) => ChainKind::Sol,
        }
    }
}

/// The descriptive data of a token.
#[derive(Debug, PartialEq, Eq)]
pub struct TokenMetadata {
    pub token: String,
    pub name: String,
    pub symbol: String,
    pub decimals: u8,
}

/// The mathematical form of [`TokenMetadata`].
pub ghost struct TokenMetadataView {
    pub token: Seq<char>,
    pub name: Seq<char>,
    pub symbol: Seq<char>,
    pub decimals: u8,
}

impl View for TokenMetadata {
    type V = TokenMetadataView;

    open spec fn view(&self) -> TokenMetadataView {
        TokenMetadataView {
            token: self.token@,
            name: self.name@,
            symbol: self.symbol@,
            decimals: self.decimals,
        }
    }
}

impl Clone for TokenMetadata {
    fn clone(&self) -> (copy: Self)
        ensures
            copy == *self,
    {
        TokenMetadata {
            token: self.token.clone(),
            name: self.name.clone(),
            symbol: self.symbol.clone(),
            decimals: self.decimals,
        }
    }
}

/// A token on one chain tied to its form on another.
#[derive(Debug, PartialEq, Eq)]
pub struct TokenDeployment {
    pub token_id: String,
    pub token_address: OmniAddress,
    pub decimals: u8,
    pub origin_decimals: u8,
}

/// The mathematical form of [`TokenDeployment`].
pub ghost struct TokenDeploymentView {
    pub token_id: Seq<char>,
    pub token_address: OmniAddressView,
    pub decimals: u8,
    pub origin_decimals: u8,
}

impl View for TokenDeployment {
    type V = TokenDeploymentView;

    open spec fn view(&self) -> TokenDeploymentView {
        TokenDeploymentView {
            token_id: self.token_id@,
            token_address: self.token_address@,
            decimals: self.decimals,
            origin_decimals: self.origin_decimals,
        }
    }
}

impl Clone for TokenDeployment {
    fn clone(&self) -> (copy: Self)
        ensures
            copy == *self,
    {
        TokenDeployment {
            token_id: self.token_id.clone(),
            token_address: self.token_address.clone(),
            decimals: self.decimals,
            origin_decimals: self.origin_decimals,
        }
    }
}

/// A claim of the native fee of a transfer.
#[derive(Debug, PartialEq, Eq)]
pub struct NativeFeeClaim {
    pub transfer_id: TransferId,
    pub recipient: OmniAddress,
    pub amount: u128,
}

/// The mathematical form of [`NativeFeeClaim`].
pub ghost struct NativeFeeClaimView {
    pub transfer_id: TransferId,
    pub recipient: OmniAddressView,
    pub amount: u128,
}

impl View for NativeFeeClaim {
    type V = NativeFeeClaimView;

    open spec fn view(&self) -> NativeFeeClaimView {
        NativeFeeClaimView {
            transfer_id: self.transfer_id,
            recipient: self.recipient@,
            amount: self.amount,
        }
    }
}

impl Clone for NativeFeeClaim {
    fn clone(&self) -> (copy: Self)
        ensures
            copy == *self,
    {
        NativeFeeClaim {
            transfer_id: self.transfer_id,
            recipient: self.recipient.clone(),
            amount: self.amount,
        }
    }
}

/// What a meta event reports.
#[derive(Debug, PartialEq, Eq)]
pub enum OmniMetaEventDetails {
    NearLogMetadataEvent(TokenMetadata),
    NearSignLogMetadataEvent(TokenMetadata),
    NearDeployTokenEvent(TokenDeployment),
    NearBindTokenEvent(TokenDeployment),
    NearSignClaimNativeFeeEvent(NativeFeeClaim),
    NearClaimNativeFeeEvent(NativeFeeClaim),
    EvmLogMetadata(TokenMetadata),
    EvmDeployToken(TokenDeployment),
    SolanaLogMetadata(TokenMetadata),
    SolanaDeployToken(TokenDeployment),
}

/// The mathematical form of [`OmniMetaEventDetails`].
pub ghost enum OmniMetaEventDetailsView {
    NearLogMetadataEvent(TokenMetadataView),
    NearSignLogMetadataEvent(TokenMetadataView),
    NearDeployTokenEvent(TokenDeploymentView),
    NearBindTokenEvent(TokenDeploymentView),
    NearSignClaimNativeFeeEvent(NativeFeeClaimView),
    NearClaimNativeFeeEvent(NativeFeeClaimView),
    EvmLogMetadata(TokenMetadataView),
    EvmDeployToken(TokenDeploymentView),
    SolanaLogMetadata(TokenMetadataView),
    SolanaDeployToken(TokenDeploymentView),
}

impl View for OmniMetaEventDetails {
    type V = OmniMetaEventDetailsView;

    open spec fn view(&self) -> OmniMetaEventDetailsView {
        match self {
            OmniMetaEventDetails::NearLogMetadataEvent(x) => {
                OmniMetaEventDetailsView::NearLogMetadataEvent(x@)
            },
            OmniMetaEventDetails::NearSignLogMetadataEvent(x) => {
                OmniMetaEventDetailsView::NearSignLogMetadataEvent(x@)
            },
            OmniMetaEventDetails::NearDeployTokenEvent(x) => {
                OmniMetaEventDetailsView::NearDeployTokenEvent(x@)
            },
            OmniMetaEventDetails::NearBindTokenEvent(x) => {
                OmniMetaEventDetailsView::NearBindTokenEvent(x@)
            },
            OmniMetaEventDetails::NearSignClaimNativeFeeEvent(x) => {
                OmniMetaEventDetailsView::NearSignClaimNativeFeeEvent(x@)
            },
            OmniMetaEventDetails::NearClaimNativeFeeEvent(x) => {
                OmniMetaEventDetailsView::NearClaimNativeFeeEvent(x@)
            },
            OmniMetaEventDetails::EvmLogMetadata(x) => OmniMetaEventDetailsView::EvmLogMetadata(x@),
            OmniMetaEventDetails::EvmDeployToken(x) => OmniMetaEventDetailsView::EvmDeployToken(x@),
            OmniMetaEventDetails::SolanaLogMetadata(x) => {
                OmniMetaEventDetailsView::SolanaLogMetadata(x@)
            },
            OmniMetaEventDetails::SolanaDeployToken(x) => {
                OmniMetaEventDetailsView::SolanaDeployToken(x@)
            },
        }
    }
}

impl Clone for OmniMetaEventDetails {
    fn clone(&self) -> (copy: Self)
        ensures
            copy == *self,
    {
        match self {
            OmniMetaEventDetails::NearLogMetadataEvent(x) => {
                OmniMetaEventDetails::NearLogMetadataEvent(x.clone())
            },
            OmniMetaEventDetails::NearSignLogMetadataEvent(x) => {
                OmniMetaEventDetails::NearSignLogMetadataEvent(x.clone())
            },
            OmniMetaEventDetails::NearDeployTokenEvent(x) => {
                OmniMetaEventDetails::NearDeployTokenEvent(x.clone())
            },
            OmniMetaEventDetails::NearBindTokenEvent(x) => OmniMetaEventDetails::NearBindTokenEvent(
                x.clone(),
            ),
            OmniMetaEventDetails::NearSignClaimNativeFeeEvent(x) => {
                OmniMetaEventDetails::NearSignClaimNativeFeeEvent(x.clone())
            },
            OmniMetaEventDetails::NearClaimNativeFeeEvent(x) => {
                OmniMetaEventDetails::NearClaimNativeFeeEvent(x.clone())
            },
            OmniMetaEventDetails::EvmLogMetadata(x) => OmniMetaEventDetails::EvmLogMetadata(
                x.clone(),
            ),
            OmniMetaEventDetails::EvmDeployToken(x) => OmniMetaEventDetails::EvmDeployToken(
                x.clone(),
            ),
            OmniMetaEventDetails::SolanaLogMetadata(x) => OmniMetaEventDetails::SolanaLogMetadata(
                x.clone(),
            ),
            OmniMetaEventDetails::SolanaDeployToken(x) => OmniMetaEventDetails::SolanaDeployToken(
                x.clone(),
            ),
        }
    }
}

/// Pricing data attached to a transfer after it was recorded.
#[derive(Debug, PartialEq, Eq)]
pub enum OmniEnrichmentData {
    /// Not computed yet; documents call this variant `None` and leave the
    /// field out.
    NotComputed,
    /// Enrichment does not apply to the event.
    NotApplicable,
    Data {
        /// The transferred token, where it is not the native token.
        transferred_token_info: Option<OmniTokenInfo>,
        native_token_info: OmniTokenInfo,
    },
}

/// The mathematical form of [`OmniEnrichmentData`].
pub ghost enum OmniEnrichmentDataView {
    NotComputed,
    NotApplicable,
    Data {
        transferred_token_info: Option<OmniTokenInfoView>,
        native_token_info: OmniTokenInfoView,
    },
}

impl View for OmniEnrichmentData {
    type V = OmniEnrichmentDataView;

    open spec fn view(&self) -> OmniEnrichmentDataView {
        match self {
            OmniEnrichmentData::NotComputed => OmniEnrichmentDataView::NotComputed,
            OmniEnrichmentData::NotApplicable => OmniEnrichmentDataView::NotApplicable,
            OmniEnrichmentData::Data {
                transferred_token_info,
                native_token_info,
            } => OmniEnrichmentDataView::Data {
                transferred_token_info: optional_view(*transferred_token_info),
                native_token_info: native_token_info@,
            },
        }
    }
}

impl Clone for OmniEnrichmentData {
    fn clone(&self) -> (copy: Self)
        ensures
            copy == *self,
    {
        match self {
            OmniEnrichmentData::NotComputed => OmniEnrichmentData::NotComputed,
            OmniEnrichmentData::NotApplicable => OmniEnrichmentData::NotApplicable,
            OmniEnrichmentData::Data {
                transferred_token_info,
                native_token_info,
            } => OmniEnrichmentData::Data {
                transferred_token_info: match transferred_token_info {
                    Some(x) => Some(x.clone()),
                    None => None,
                },
                native_token_info: native_token_info.clone(),
            },
        }
    }
}

impl Default for OmniEnrichmentData {
    fn default() -> (data: Self)
        ensures
            data == OmniEnrichmentData::NotComputed,
    {
        OmniEnrichmentData::NotComputed
    }
}

/// A transfer as one event reports it.
#[derive(Debug, PartialEq, Eq)]
pub struct OmniTransactionEvent {
    pub transfer_message: OmniTransferMessage,
    /// Who sent the transfer, where the message names a sender.
    pub sender: Option<OmniAddress>,
    pub transfer_id: TransferId,
    pub status: OmniTransferStatus,
    pub enrichment_data: OmniEnrichmentData,
}

/// The mathematical form of [`OmniTransactionEvent`].
pub ghost struct OmniTransactionEventView {
    pub transfer_message: OmniTransferMessageView,
    pub sender: Option<OmniAddressView>,
    pub transfer_id: TransferId,
    pub status: OmniTransferStatus,
    pub enrichment_data: OmniEnrichmentDataView,
}

impl View for OmniTransactionEvent {
    type V = OmniTransactionEventView;

    open spec fn view(&self) -> OmniTransactionEventView {
        OmniTransactionEventView {
            transfer_message: self.transfer_message@,
            sender: optional_view(self.sender),
            transfer_id: self.transfer_id,
            status: self.status,
            enrichment_data: self.enrichment_data@,
        }
    }
}

impl Clone for OmniTransactionEvent {
    fn clone(&self) -> (copy: Self)
        ensures
            copy == *self,
    {
        OmniTransactionEvent {
            transfer_message: self.transfer_message.clone(),
            sender: match &self.sender {
                Some(x) => Some(x.clone()),
                None => None,
            },
            transfer_id: self.transfer_id,
            status: self.status,
            enrichment_data: self.enrichment_data.clone(),
        }
    }
}

/// An event about tokens and their metadata rather than about a transfer.
#[derive(Debug, PartialEq, Eq)]
pub struct OmniMetaEvent {
    pub details: OmniMetaEventDetails,
}

/// The mathematical form of [`OmniMetaEvent`].
pub ghost struct OmniMetaEventView {
    pub details: OmniMetaEventDetailsView,
}

impl View for OmniMetaEvent {
    type V = OmniMetaEventView;

    open spec fn view(&self) -> OmniMetaEventView {
        OmniMetaEventView {
            details: self.details@,
        }
    }
}

impl Clone for OmniMetaEvent {
    fn clone(&self) -> (copy: Self)
        ensures
            copy == *self,
    {
        OmniMetaEvent {
            details: self.details.clone(),
        }
    }
}

/// What an event is about.
#[derive(Debug, PartialEq, Eq)]
pub enum OmniEventData {
    Transaction(OmniTransactionEvent),
    Meta(OmniMetaEvent),
}

/// The mathematical form of [`OmniEventData`].
pub ghost enum OmniEventDataView {
    Transaction(OmniTransactionEventView),
    Meta(OmniMetaEventView),
}

impl View for OmniEventData {
    type V = OmniEventDataView;

    open spec fn view(&self) -> OmniEventDataView {
        match self {
            OmniEventData::Transaction(x) => OmniEventDataView::Transaction(x@),
            OmniEventData::Meta(x) => OmniEventDataView::Meta(x@),
        }
    }
}

impl Clone for OmniEventData {
    fn clone(&self) -> (copy: Self)
        ensures
            copy == *self,
    {
        match self {
            OmniEventData::Transaction(x) => OmniEventData::Transaction(x.clone()),
            OmniEventData::Meta(x) => OmniEventData::Meta(x.clone()),
        }
    }
}

/// An event in the present layout: the transaction it belongs to and the place
/// it was seen at are stored once, beside what the event is about.
#[derive(Debug, PartialEq, Eq)]
pub struct OmniEvent {
    /// The identifier of the stored document; none before it is stored.
    pub id: Option<ObjectId>,
    pub transaction_id: String,
    pub origin: OmniTransactionOrigin,
    pub event: OmniEventData,
}

/// The mathematical form of [`OmniEvent`].
pub ghost struct OmniEventView {
    pub id: Option<ObjectId>,
    pub transaction_id: Seq<char>,
    pub origin: OmniTransactionOriginView,
    pub event: OmniEventDataView,
}

impl View for OmniEvent {
    type V = OmniEventView;

    open spec fn view(&self) -> OmniEventView {
        OmniEventView {
            id: self.id,
            transaction_id: self.transaction_id@,
            origin: self.origin@,
            event: self.event@,
        }
    }
}

impl Clone for OmniEvent {
    fn clone(&self) -> (copy: Self)
        ensures
            copy == *self,
    {
        OmniEvent {
            id: self.id,
            transaction_id: self.transaction_id.clone(),
            origin: self.origin.clone(),
            event: self.event.clone(),
        }
    }
}

} // verus!
