//! Writing events of the present layout as documents.
//!
//! Each writer stands beside the statement of the document it makes. A
//! document stores integers of at most 63 bits, so a value that holds a
//! larger number has no document form; amounts, which need 128 bits, are
//! written as decimal text.

use crate::document::{Value, ValueView};
use crate::error::EncodeError;
use crate::schema::{
    ChainKind, EvmLogOrigin, EvmLogOriginView, FinTransferMessage, FinTransferMessageView,
    InitTransferMessage, InitTransferMessageView, NativeFeeClaim, NativeFeeClaimView,
    NearReceiptOrigin, NearReceiptOriginView, OmniAddress, OmniAddressView, OmniEnrichmentData,
    OmniEnrichmentDataView, OmniEvent, OmniEventData, OmniEventDataView, OmniEventView,
    OmniMetaEvent, OmniMetaEventDetails, OmniMetaEventDetailsView, OmniMetaEventView,
    OmniTokenInfo, OmniTokenInfoView, OmniTransactionEvent, OmniTransactionEventView,
    OmniTransactionOrigin, OmniTransactionOriginView, OmniTransferMessage,
    OmniTransferMessageView, OmniTransferStatus, SignTransferEvent, SignTransferEventView,
    SolanaFinTransferMessage, SolanaFinTransferMessageView, SolanaInitTransferMessage,
    SolanaInitTransferMessageView, SolanaTransactionOrigin, TokenDeployment,
    TokenDeploymentView, TokenMetadata, TokenMetadataView, TransferId, TransferMessage,
    TransferMessageView,
};
use crate::write::{
    amount, amount_value, document, new_fields, no_entries, number, number_value,
    optional_number_value, optional_object_id_value, optional_rendered, optional_storable,
    optional_text_value, put, tag_with, tagged, text, with_field, with_optional,
};
use vstd::prelude::*;

verus! {

/// The value that holds `x`: the name of the variant.
pub open spec fn render_chain(x: ChainKind) -> ValueView {
    match x {
        ChainKind::Eth => ValueView::Text("Eth"@),
        ChainKind::Near => ValueView::Text("Near"@),
        ChainKind::Sol => ValueView::Text("Sol"@),
        ChainKind::Arb => ValueView::Text("Arb"@),
        ChainKind::Base => ValueView::Text("Base"@),
    }
}

/// Writes `x` as a value.
pub fn encode_chain(x: ChainKind) -> (v: Value)
    ensures
        v@ == render_chain(x),
{
    match x {
        ChainKind::Eth => text("Eth"),
        ChainKind::Near => text("Near"),
        ChainKind::Sol => text("Sol"),
        ChainKind::Arb => text("Arb"),
        ChainKind::Base => text("Base"),
    }
}

/// The value that holds `x`: the name of the variant.
pub open spec fn render_status(x: OmniTransferStatus) -> ValueView {
    match x {
        OmniTransferStatus::Initialized => ValueView::Text("Initialized"@),
        OmniTransferStatus::FinalisedOnOrigin => ValueView::Text("FinalisedOnOrigin"@),
        OmniTransferStatus::Finalised => ValueView::Text("Finalised"@),
    }
}

/// Writes `x` as a value.
pub fn encode_status(x: OmniTransferStatus) -> (v: Value)
    ensures
        v@ == render_status(x),
{
    match x {
        OmniTransferStatus::Initialized => text("Initialized"),
        OmniTransferStatus::FinalisedOnOrigin => text("FinalisedOnOrigin"),
        OmniTransferStatus::Finalised => text("Finalised"),
    }
}

/// The document that holds `x`.
pub open spec fn render_address(x: OmniAddressView) -> ValueView {
    let e = no_entries();
    let e = with_field(e, "chain", render_chain(x.chain));
    let e = with_field(e, "address", ValueView::Text(x.address));
    ValueView::Document(e)
}

/// Writes `x` as a document.
pub fn encode_address(x: &OmniAddress) -> (v: Value)
    ensures
        v@ == render_address(x@),
{
    let mut fields = new_fields();
    put(&mut fields, "chain", encode_chain(x.chain));
    put(&mut fields, "address", Value::Text(x.address.clone()));
    document(fields)
}

/// Whether a document can hold `x`: every number in it is at most the
/// largest that a document stores.
pub open spec fn storable_transfer_id(x: TransferId) -> bool {
    &&& x.origin_nonce <= i64::MAX
}

/// The document that holds `x`.
pub open spec fn render_transfer_id(x: TransferId) -> ValueView {
    let e = no_entries();
    let e = with_field(e, "origin_chain", render_chain(x.origin_chain));
    let e = with_field(e, "origin_nonce", number_value(x.origin_nonce));
    ValueView::Document(e)
}

/// Writes `x` as a document.
pub fn encode_transfer_id(x: &TransferId) -> (r: Result<Value, EncodeError>)
    ensures
        match r {
            Ok(v) => storable_transfer_id(*x) && v@ == render_transfer_id(*x),
            Err(_) => !storable_transfer_id(*x),
        },
{
    let mut fields = new_fields();
    put(&mut fields, "origin_chain", encode_chain(x.origin_chain));
    put(&mut fields, "origin_nonce", number(x.origin_nonce)?);
    Ok(document(fields))
}

/// The document that holds `x`.
pub open spec fn render_token_info(x: OmniTokenInfoView) -> ValueView {
    let e = no_entries();
    let e = with_field(e, "token_id", ValueView::Text(x.token_id));
    let e = with_field(e, "name", ValueView::Text(x.name));
    let e = with_field(e, "symbol", ValueView::Text(x.symbol));
    let e = with_field(e, "decimals", ValueView::Int32(x.decimals as i32));
    let e = with_field(e, "usd_price", ValueView::Double(x.usd_price));
    ValueView::Document(e)
}

/// Writes `x` as a document.
pub fn encode_token_info(x: &OmniTokenInfo) -> (v: Value)
    ensures
        v@ == render_token_info(x@),
{
    let mut fields = new_fields();
    put(&mut fields, "token_id", Value::Text(x.token_id.clone()));
    put(&mut fields, "name", Value::Text(x.name.clone()));
    put(&mut fields, "symbol", Value::Text(x.symbol.clone()));
    put(&mut fields, "decimals", Value::Int32(x.decimals as i32));
    put(&mut fields, "usd_price", Value::Double(x.usd_price));
    document(fields)
}

/// The value that holds pricing data, and nothing for data that is not
/// computed yet: a document leaves such a field out.
pub open spec fn render_enrichment(x: OmniEnrichmentDataView) -> Option<ValueView> {
    match x {
        OmniEnrichmentDataView::NotComputed => None,
        OmniEnrichmentDataView::NotApplicable => Some(ValueView::Text("NotApplicable"@)),
        OmniEnrichmentDataView::Data { transferred_token_info, native_token_info } => {
            let e = no_entries();
            let e = with_optional(
                e,
                "transferred_token_info",
                optional_rendered(
                    transferred_token_info, |a: OmniTokenInfoView| render_token_info(a),
                ),
            );
            let e = with_field(e, "native_token_info", render_token_info(native_token_info));
            Some(tagged("Data", ValueView::Document(e)))
        },
    }
}

/// Writes pricing data as a value, if there is anything to write.
pub fn encode_enrichment(x: &OmniEnrichmentData) -> (r: Option<Value>)
    ensures
        match r {
            Some(v) => render_enrichment(x@) == Some(v@),
            None => render_enrichment(x@) is None,
        },
{
    match x {
        OmniEnrichmentData::NotComputed => None,
        OmniEnrichmentData::NotApplicable => Some(text("NotApplicable")),
        OmniEnrichmentData::Data { transferred_token_info, native_token_info } => {
            let mut fields = new_fields();
            if let Some(a) = transferred_token_info {
                put(&mut fields, "transferred_token_info", encode_token_info(a));
            }
            put(&mut fields, "native_token_info", encode_token_info(native_token_info));
            Some(tag_with("Data", document(fields)))
        },
    }
}

/// Whether a document can hold `x`: every number in it is at most the
/// largest that a document stores.
pub open spec fn storable_near_transfer(x: TransferMessageView) -> bool {
    &&& x.origin_nonce <= i64::MAX
    &&& x.destination_nonce <= i64::MAX
}

/// The document that holds `x`.
pub open spec fn render_near_transfer(x: TransferMessageView) -> ValueView {
    let e = no_entries();
    let e = with_field(e, "origin_nonce", number_value(x.origin_nonce));
    let e = with_field(e, "token", render_address(x.token));
    let e = with_field(e, "amount", amount_value(x.amount));
    let e = with_field(e, "recipient", render_address(x.recipient));
    let e = with_field(e, "fee", amount_value(x.fee));
    let e = with_field(e, "sender", render_address(x.sender));
    let e = with_field(e, "msg", ValueView::Text(x.msg));
    let e = with_field(e, "destination_nonce", number_value(x.destination_nonce));
    ValueView::Document(e)
}

/// Writes `x` as a document.
pub fn encode_near_transfer(x: &TransferMessage) -> (r: Result<Value, EncodeError>)
    ensures
        match r {
            Ok(v) => storable_near_transfer(x@) && v@ == render_near_transfer(x@),
            Err(_) => !storable_near_transfer(x@),
        },
{
    let mut fields = new_fields();
    put(&mut fields, "origin_nonce", number(x.origin_nonce)?);
    put(&mut fields, "token", encode_address(&x.token));
    put(&mut fields, "amount", amount(x.amount));
    put(&mut fields, "recipient", encode_address(&x.recipient));
    put(&mut fields, "fee", amount(x.fee));
    put(&mut fields, "sender", encode_address(&x.sender));
    put(&mut fields, "msg", Value::Text(x.msg.clone()));
    put(&mut fields, "destination_nonce", number(x.destination_nonce)?);
    Ok(document(fields))
}

/// Whether a document can hold `x`: every number in it is at most the
/// largest that a document stores.
pub open spec fn storable_sign_transfer(x: SignTransferEventView) -> bool {
    &&& storable_transfer_id(x.transfer_id)
    &&& x.destination_nonce <= i64::MAX
}

/// The document that holds `x`. A field without a value is left out.
pub open spec fn render_sign_transfer(x: SignTransferEventView) -> ValueView {
    let e = no_entries();
    let e = with_field(e, "signature", ValueView::Text(x.signature));
    let e = with_field(e, "transfer_id", render_transfer_id(x.transfer_id));
    let e = with_field(e, "token", render_address(x.token));
    let e = with_field(e, "amount", amount_value(x.amount));
    let e = with_field(e, "recipient", render_address(x.recipient));
    let e = with_optional(e, "fee_recipient", optional_text_value(x.fee_recipient));
    let e = with_field(e, "destination_nonce", number_value(x.destination_nonce));
    ValueView::Document(e)
}

/// Writes `x` as a document.
pub fn encode_sign_transfer(x: &SignTransferEvent) -> (r: Result<Value, EncodeError>)
    ensures
        match r {
            Ok(v) => storable_sign_transfer(x@) && v@ == render_sign_transfer(x@),
            Err(_) => !storable_sign_transfer(x@),
        },
{
    let mut fields = new_fields();
    put(&mut fields, "signature", Value::Text(x.signature.clone()));
    put(&mut fields, "transfer_id", encode_transfer_id(&x.transfer_id)?);
    put(&mut fields, "token", encode_address(&x.token));
    put(&mut fields, "amount", amount(x.amount));
    put(&mut fields, "recipient", encode_address(&x.recipient));
    if let Some(s) = &x.fee_recipient {
        put(&mut fields, "fee_recipient", Value::Text(s.clone()));
    }
    put(&mut fields, "destination_nonce", number(x.destination_nonce)?);
    Ok(document(fields))
}

/// Whether a document can hold `x`: every number in it is at most the
/// largest that a document stores.
pub open spec fn storable_init_transfer(x: InitTransferMessageView) -> bool {
    &&& x.origin_nonce <= i64::MAX
}

/// The document that holds `x`.
pub open spec fn render_init_transfer(x: InitTransferMessageView) -> ValueView {
    let e = no_entries();
    let e = with_field(e, "origin_nonce", number_value(x.origin_nonce));
    let e = with_field(e, "token", render_address(x.token));
    let e = with_field(e, "amount", amount_value(x.amount));
    let e = with_field(e, "recipient", render_address(x.recipient));
    let e = with_field(e, "fee", amount_value(x.fee));
    let e = with_field(e, "sender", render_address(x.sender));
    let e = with_field(e, "msg", ValueView::Text(x.msg));
    ValueView::Document(e)
}

/// Writes `x` as a document.
pub fn encode_init_transfer(x: &InitTransferMessage) -> (r: Result<Value, EncodeError>)
    ensures
        match r {
            Ok(v) => storable_init_transfer(x@) && v@ == render_init_transfer(x@),
            Err(_) => !storable_init_transfer(x@),
        },
{
    let mut fields = new_fields();
    put(&mut fields, "origin_nonce", number(x.origin_nonce)?);
    put(&mut fields, "token", encode_address(&x.token));
    put(&mut fields, "amount", amount(x.amount));
    put(&mut fields, "recipient", encode_address(&x.recipient));
    put(&mut fields, "fee", amount(x.fee));
    put(&mut fields, "sender", encode_address(&x.sender));
    put(&mut fields, "msg", Value::Text(x.msg.clone()));
    Ok(document(fields))
}

/// Whether a document can hold `x`: every number in it is at most the
/// largest that a document stores.
pub open spec fn storable_fin_transfer(x: FinTransferMessageView) -> bool {
    &&& storable_transfer_id(x.transfer_id)
}

/// The document that holds `x`.
pub open spec fn render_fin_transfer(x: FinTransferMessageView) -> ValueView {
    let e = no_entries();
    let e = with_field(e, "transfer_id", render_transfer_id(x.transfer_id));
    let e = with_field(e, "fee_recipient", ValueView::Text(x.fee_recipient));
    let e = with_field(e, "amount", amount_value(x.amount));
    let e = with_field(e, "emitter", render_address(x.emitter));
    ValueView::Document(e)
}

/// Writes `x` as a document.
pub fn encode_fin_transfer(x: &FinTransferMessage) -> (r: Result<Value, EncodeError>)
    ensures
        match r {
            Ok(v) => storable_fin_transfer(x@) && v@ == render_fin_transfer(x@),
            Err(_) => !storable_fin_transfer(x@),
        },
{
    let mut fields = new_fields();
    put(&mut fields, "transfer_id", encode_transfer_id(&x.transfer_id)?);
    put(&mut fields, "fee_recipient", Value::Text(x.fee_recipient.clone()));
    put(&mut fields, "amount", amount(x.amount));
    put(&mut fields, "emitter", encode_address(&x.emitter));
    Ok(document(fields))
}

/// Whether a document can hold `x`: every number in it is at most the
/// largest that a document stores.
pub open spec fn storable_solana_init_transfer(x: SolanaInitTransferMessageView) -> bool {
    &&& x.origin_nonce <= i64::MAX
}

/// The document that holds `x`. A field without a value is left out.
pub open spec fn render_solana_init_transfer(x: SolanaInitTransferMessageView) -> ValueView {
    let e = no_entries();
    let e = with_field(e, "amount", amount_value(x.amount));
    let e = with_field(e, "fee", amount_value(x.fee));
    let e = with_field(e, "token", render_address(x.token));
    let e = with_field(e, "recipient", render_address(x.recipient));
    let e = with_field(e, "sender", render_address(x.sender));
    let e = with_field(e, "origin_nonce", number_value(x.origin_nonce));
    let e = with_optional(e, "emitter", optional_text_value(x.emitter));
    ValueView::Document(e)
}

/// Writes `x` as a document.
pub fn encode_solana_init_transfer(x: &SolanaInitTransferMessage) -> (r: Result<Value, EncodeError>)
    ensures
        match r {
            Ok(v) => storable_solana_init_transfer(x@) && v@ == render_solana_init_transfer(x@),
            Err(_) => !storable_solana_init_transfer(x@),
        },
{
    let mut fields = new_fields();
    put(&mut fields, "amount", amount(x.amount));
    put(&mut fields, "fee", amount(x.fee));
    put(&mut fields, "token", encode_address(&x.token));
    put(&mut fields, "recipient", encode_address(&x.recipient));
    put(&mut fields, "sender", encode_address(&x.sender));
    put(&mut fields, "origin_nonce", number(x.origin_nonce)?);
    if let Some(s) = &x.emitter {
        put(&mut fields, "emitter", Value::Text(s.clone()));
    }
    Ok(document(fields))
}

/// Whether a document can hold `x`: every number in it is at most the
/// largest that a document stores.
pub open spec fn storable_solana_fin_transfer(x: SolanaFinTransferMessageView) -> bool {
    &&& x.destination_nonce <= i64::MAX
    &&& optional_storable(x.sequence)
}

/// The document that holds `x`. A field without a value is left out.
pub open spec fn render_solana_fin_transfer(x: SolanaFinTransferMessageView) -> ValueView {
    let e = no_entries();
    let e = with_field(e, "amount", amount_value(x.amount));
    let e = with_field(e, "destination_nonce", number_value(x.destination_nonce));
    let e = with_optional(e, "fee_recipient", optional_text_value(x.fee_recipient));
    let e = with_optional(e, "emitter", optional_text_value(x.emitter));
    let e = with_optional(e, "sequence", optional_number_value(x.sequence));
    ValueView::Document(e)
}

/// Writes `x` as a document.
pub fn encode_solana_fin_transfer(x: &SolanaFinTransferMessage) -> (r: Result<Value, EncodeError>)
    ensures
        match r {
            Ok(v) => storable_solana_fin_transfer(x@) && v@ == render_solana_fin_transfer(x@),
            Err(_) => !storable_solana_fin_transfer(x@),
        },
{
    let mut fields = new_fields();
    put(&mut fields, "amount", amount(x.amount));
    put(&mut fields, "destination_nonce", number(x.destination_nonce)?);
    if let Some(s) = &x.fee_recipient {
        put(&mut fields, "fee_recipient", Value::Text(s.clone()));
    }
    if let Some(s) = &x.emitter {
        put(&mut fields, "emitter", Value::Text(s.clone()));
    }
    if let Some(n) = x.sequence {
        put(&mut fields, "sequence", number(n)?);
    }
    Ok(document(fields))
}

/// Whether a document can hold `x`.
pub open spec fn storable_transfer_message(x: OmniTransferMessageView) -> bool {
    match x {
        OmniTransferMessageView::NearTransferMessage(body) => storable_near_transfer(body),
        OmniTransferMessageView::NearSignTransferEvent(body) => storable_sign_transfer(body),
        OmniTransferMessageView::NearClaimFeeEvent(body) => storable_near_transfer(body),
        OmniTransferMessageView::EvmInitTransferMessage(body) => storable_init_transfer(body),
        OmniTransferMessageView::EvmFinTransferMessage(body) => storable_fin_transfer(body),
        OmniTransferMessageView::SolanaInitTransfer(body) => storable_solana_init_transfer(body),
        OmniTransferMessageView::SolanaFinTransfer(body) => storable_solana_fin_transfer(body),
    }
}

/// The value that holds `x`: a document of one entry, the variant's name
/// with the variant's body.
pub open spec fn render_transfer_message(x: OmniTransferMessageView) -> ValueView {
    match x {
        OmniTransferMessageView::NearTransferMessage(body) => tagged(
            "NearTransferMessage", render_near_transfer(body),
        ),
        OmniTransferMessageView::NearSignTransferEvent(body) => tagged(
            "NearSignTransferEvent", render_sign_transfer(body),
        ),
        OmniTransferMessageView::NearClaimFeeEvent(body) => tagged(
            "NearClaimFeeEvent", render_near_transfer(body),
        ),
        OmniTransferMessageView::EvmInitTransferMessage(body) => tagged(
            "EvmInitTransferMessage", render_init_transfer(body),
        ),
        OmniTransferMessageView::EvmFinTransferMessage(body) => tagged(
            "EvmFinTransferMessage", render_fin_transfer(body),
        ),
        OmniTransferMessageView::SolanaInitTransfer(body) => tagged(
            "SolanaInitTransfer", render_solana_init_transfer(body),
        ),
        OmniTransferMessageView::SolanaFinTransfer(body) => tagged(
            "SolanaFinTransfer", render_solana_fin_transfer(body),
        ),
    }
}

/// Writes `x` as a value.
pub fn encode_transfer_message(x: &OmniTransferMessage) -> (r: Result<Value, EncodeError>)
    ensures
        match r {
            Ok(v) => storable_transfer_message(x@) && v@ == render_transfer_message(x@),
            Err(_) => !storable_transfer_message(x@),
        },
{
    match x {
        OmniTransferMessage::NearTransferMessage(body) => Ok(
            tag_with("NearTransferMessage", encode_near_transfer(body)?),
        ),
        OmniTransferMessage::NearSignTransferEvent(body) => Ok(
            tag_with("NearSignTransferEvent", encode_sign_transfer(body)?),
        ),
        OmniTransferMessage::NearClaimFeeEvent(body) => Ok(
            tag_with("NearClaimFeeEvent", encode_near_transfer(body)?),
        ),
        OmniTransferMessage::EvmInitTransferMessage(body) => Ok(
            tag_with("EvmInitTransferMessage", encode_init_transfer(body)?),
        ),
        OmniTransferMessage::EvmFinTransferMessage(body) => Ok(
            tag_with("EvmFinTransferMessage", encode_fin_transfer(body)?),
        ),
        OmniTransferMessage::SolanaInitTransfer(body) => Ok(
            tag_with("SolanaInitTransfer", encode_solana_init_transfer(body)?),
        ),
        OmniTransferMessage::SolanaFinTransfer(body) => Ok(
            tag_with("SolanaFinTransfer", encode_solana_fin_transfer(body)?),
        ),
    }
}

/// Whether a document can hold `x`: every number in it is at most the
/// largest that a document stores.
pub open spec fn storable_near_receipt(x: NearReceiptOriginView) -> bool {
    &&& x.block_height <= i64::MAX
    &&& x.block_timestamp_nanosec <= i64::MAX
}

/// The document that holds `x`. A field without a value is left out.
pub open spec fn render_near_receipt(x: NearReceiptOriginView) -> ValueView {
    let e = no_entries();
    let e = with_field(e, "block_height", number_value(x.block_height));
    let e = with_field(e, "block_timestamp_nanosec", number_value(x.block_timestamp_nanosec));
    let e = with_field(e, "receipt_id", ValueView::Text(x.receipt_id));
    let e = with_field(e, "contract_id", ValueView::Text(x.contract_id));
    let e = with_field(e, "signer_id", ValueView::Text(x.signer_id));
    let e = with_field(e, "predecessor_id", ValueView::Text(x.predecessor_id));
    let e = with_optional(e, "raw_receipt", optional_object_id_value(x.raw_receipt));
    let e = with_field(e, "version", ValueView::Int64(x.version as i64));
    ValueView::Document(e)
}

/// Writes `x` as a document.
pub fn encode_near_receipt(x: &NearReceiptOrigin) -> (r: Result<Value, EncodeError>)
    ensures
        match r {
            Ok(v) => storable_near_receipt(x@) && v@ == render_near_receipt(x@),
            Err(_) => !storable_near_receipt(x@),
        },
{
    let mut fields = new_fields();
    put(&mut fields, "block_height", number(x.block_height)?);
    put(&mut fields, "block_timestamp_nanosec", number(x.block_timestamp_nanosec)?);
    put(&mut fields, "receipt_id", Value::Text(x.receipt_id.clone()));
    put(&mut fields, "contract_id", Value::Text(x.contract_id.clone()));
    put(&mut fields, "signer_id", Value::Text(x.signer_id.clone()));
    put(&mut fields, "predecessor_id", Value::Text(x.predecessor_id.clone()));
    if let Some(id) = x.raw_receipt {
        put(&mut fields, "raw_receipt", Value::ObjectId(id));
    }
    put(&mut fields, "version", Value::Int64(x.version as i64));
    Ok(document(fields))
}

/// Whether a document can hold `x`: every number in it is at most the
/// largest that a document stores.
pub open spec fn storable_evm_log(x: EvmLogOriginView) -> bool {
    &&& x.block_number <= i64::MAX
    &&& x.block_timestamp <= i64::MAX
    &&& optional_storable(x.transaction_index)
    &&& optional_storable(x.log_index)
}

/// The document that holds `x`. A field without a value is left out.
pub open spec fn render_evm_log(x: EvmLogOriginView) -> ValueView {
    let e = no_entries();
    let e = with_field(e, "block_number", number_value(x.block_number));
    let e = with_field(e, "block_timestamp", number_value(x.block_timestamp));
    let e = with_optional(e, "transaction_index", optional_number_value(x.transaction_index));
    let e = with_optional(e, "log_index", optional_number_value(x.log_index));
    let e = with_field(e, "chain_kind", render_chain(x.chain_kind));
    ValueView::Document(e)
}

/// Writes `x` as a document.
pub fn encode_evm_log(x: &EvmLogOrigin) -> (r: Result<Value, EncodeError>)
    ensures
        match r {
            Ok(v) => storable_evm_log(x@) && v@ == render_evm_log(x@),
            Err(_) => !storable_evm_log(x@),
        },
{
    let mut fields = new_fields();
    put(&mut fields, "block_number", number(x.block_number)?);
    put(&mut fields, "block_timestamp", number(x.block_timestamp)?);
    if let Some(n) = x.transaction_index {
        put(&mut fields, "transaction_index", number(n)?);
    }
    if let Some(n) = x.log_index {
        put(&mut fields, "log_index", number(n)?);
    }
    put(&mut fields, "chain_kind", encode_chain(x.chain_kind));
    Ok(document(fields))
}

/// Whether a document can hold `x`: every number in it is at most the
/// largest that a document stores.
pub open spec fn storable_solana_transaction(x: SolanaTransactionOrigin) -> bool {
    &&& x.slot <= i64::MAX
    &&& x.block_time <= i64::MAX
    &&& x.instruction_index <= i64::MAX
}

/// The document that holds `x`.
pub open spec fn render_solana_transaction(x: SolanaTransactionOrigin) -> ValueView {
    let e = no_entries();
    let e = with_field(e, "slot", number_value(x.slot));
    let e = with_field(e, "block_time", number_value(x.block_time));
    let e = with_field(e, "instruction_index", number_value(x.instruction_index));
    ValueView::Document(e)
}

/// Writes `x` as a document.
pub fn encode_solana_transaction(x: &SolanaTransactionOrigin) -> (r: Result<Value, EncodeError>)
    ensures
        match r {
            Ok(v) => storable_solana_transaction(*x) && v@ == render_solana_transaction(*x),
            Err(_) => !storable_solana_transaction(*x),
        },
{
    let mut fields = new_fields();
    put(&mut fields, "slot", number(x.slot)?);
    put(&mut fields, "block_time", number(x.block_time)?);
    put(&mut fields, "instruction_index", number(x.instruction_index)?);
    Ok(document(fields))
}

/// Whether a document can hold `x`.
pub open spec fn storable_origin(x: OmniTransactionOriginView) -> bool {
    match x {
        OmniTransactionOriginView::NearReceipt(body) => storable_near_receipt(body),
        OmniTransactionOriginView::EvmLog(body) => storable_evm_log(body),
        OmniTransactionOriginView::SolanaTransaction(body) => storable_solana_transaction(body),
    }
}

/// The value that holds `x`: a document of one entry, the variant's name
/// with the variant's body.
pub open spec fn render_origin(x: OmniTransactionOriginView) -> ValueView {
    match x {
        OmniTransactionOriginView::NearReceipt(body) => tagged(
            "NearReceipt", render_near_receipt(body),
        ),
        OmniTransactionOriginView::EvmLog(body) => tagged("EvmLog", render_evm_log(body)),
        OmniTransactionOriginView::SolanaTransaction(body) => tagged(
            "SolanaTransaction", render_solana_transaction(body),
        ),
    }
}

/// Writes `x` as a value.
pub fn encode_origin(x: &OmniTransactionOrigin) -> (r: Result<Value, EncodeError>)
    ensures
        match r {
            Ok(v) => storable_origin(x@) && v@ == render_origin(x@),
            Err(_) => !storable_origin(x@),
        },
{
    match x {
        OmniTransactionOrigin::NearReceipt(body) => Ok(
            tag_with("NearReceipt", encode_near_receipt(body)?),
        ),
        OmniTransactionOrigin::EvmLog(body) => Ok(tag_with("EvmLog", encode_evm_log(body)?)),
        OmniTransactionOrigin::SolanaTransaction(body) => Ok(
            tag_with("SolanaTransaction", encode_solana_transaction(body)?),
        ),
    }
}

/// The document that holds `x`.
pub open spec fn render_token_metadata(x: TokenMetadataView) -> ValueView {
    let e = no_entries();
    let e = with_field(e, "token", ValueView::Text(x.token));
    let e = with_field(e, "name", ValueView::Text(x.name));
    let e = with_field(e, "symbol", ValueView::Text(x.symbol));
    let e = with_field(e, "decimals", ValueView::Int32(x.decimals as i32));
    ValueView::Document(e)
}

/// Writes `x` as a document.
pub fn encode_token_metadata(x: &TokenMetadata) -> (v: Value)
    ensures
        v@ == render_token_metadata(x@),
{
    let mut fields = new_fields();
    put(&mut fields, "token", Value::Text(x.token.clone()));
    put(&mut fields, "name", Value::Text(x.name.clone()));
    put(&mut fields, "symbol", Value::Text(x.symbol.clone()));
    put(&mut fields, "decimals", Value::Int32(x.decimals as i32));
    document(fields)
}

/// The document that holds `x`.
pub open spec fn render_token_deployment(x: TokenDeploymentView) -> ValueView {
    let e = no_entries();
    let e = with_field(e, "token_id", ValueView::Text(x.token_id));
    let e = with_field(e, "token_address", render_address(x.token_address));
    let e = with_field(e, "decimals", ValueView::Int32(x.decimals as i32));
    let e = with_field(e, "origin_decimals", ValueView::Int32(x.origin_decimals as i32));
    ValueView::Document(e)
}

/// Writes `x` as a document.
pub fn encode_token_deployment(x: &TokenDeployment) -> (v: Value)
    ensures
        v@ == render_token_deployment(x@),
{
    let mut fields = new_fields();
    put(&mut fields, "token_id", Value::Text(x.token_id.clone()));
    put(&mut fields, "token_address", encode_address(&x.token_address));
    put(&mut fields, "decimals", Value::Int32(x.decimals as i32));
    put(&mut fields, "origin_decimals", Value::Int32(x.origin_decimals as i32));
    document(fields)
}

/// Whether a document can hold `x`: every number in it is at most the
/// largest that a document stores.
pub open spec fn storable_native_fee_claim(x: NativeFeeClaimView) -> bool {
    &&& storable_transfer_id(x.transfer_id)
}

/// The document that holds `x`.
pub open spec fn render_native_fee_claim(x: NativeFeeClaimView) -> ValueView {
    let e = no_entries();
    let e = with_field(e, "transfer_id", render_transfer_id(x.transfer_id));
    let e = with_field(e, "recipient", render_address(x.recipient));
    let e = with_field(e, "amount", amount_value(x.amount));
    ValueView::Document(e)
}

/// Writes `x` as a document.
pub fn encode_native_fee_claim(x: &NativeFeeClaim) -> (r: Result<Value, EncodeError>)
    ensures
        match r {
            Ok(v) => storable_native_fee_claim(x@) && v@ == render_native_fee_claim(x@),
            Err(_) => !storable_native_fee_claim(x@),
        },
{
    let mut fields = new_fields();
    put(&mut fields, "transfer_id", encode_transfer_id(&x.transfer_id)?);
    put(&mut fields, "recipient", encode_address(&x.recipient));
    put(&mut fields, "amount", amount(x.amount));
    Ok(document(fields))
}

/// Whether a document can hold `x`.
pub open spec fn storable_details(x: OmniMetaEventDetailsView) -> bool {
    match x {
        OmniMetaEventDetailsView::NearLogMetadataEvent(_) => true,
        OmniMetaEventDetailsView::NearSignLogMetadataEvent(_) => true,
        OmniMetaEventDetailsView::NearDeployTokenEvent(_) => true,
        OmniMetaEventDetailsView::NearBindTokenEvent(_) => true,
        OmniMetaEventDetailsView::NearSignClaimNativeFeeEvent(body) => storable_native_fee_claim(
            body,
        ),
        OmniMetaEventDetailsView::NearClaimNativeFeeEvent(body) => storable_native_fee_claim(body),
        OmniMetaEventDetailsView::EvmLogMetadata(_) => true,
        OmniMetaEventDetailsView::EvmDeployToken(_) => true,
        OmniMetaEventDetailsView::SolanaLogMetadata(_) => true,
        OmniMetaEventDetailsView::SolanaDeployToken(_) => true,
    }
}

/// The value that holds `x`: a document of one entry, the variant's name
/// with the variant's body.
pub open spec fn render_details(x: OmniMetaEventDetailsView) -> ValueView {
    match x {
        OmniMetaEventDetailsView::NearLogMetadataEvent(body) => tagged(
            "NearLogMetadataEvent", render_token_metadata(body),
        ),
        OmniMetaEventDetailsView::NearSignLogMetadataEvent(body) => tagged(
            "NearSignLogMetadataEvent", render_token_metadata(body),
        ),
        OmniMetaEventDetailsView::NearDeployTokenEvent(body) => tagged(
            "NearDeployTokenEvent", render_token_deployment(body),
        ),
        OmniMetaEventDetailsView::NearBindTokenEvent(body) => tagged(
            "NearBindTokenEvent", render_token_deployment(body),
        ),
        OmniMetaEventDetailsView::NearSignClaimNativeFeeEvent(body) => tagged(
            "NearSignClaimNativeFeeEvent", render_native_fee_claim(body),
        ),
        OmniMetaEventDetailsView::NearClaimNativeFeeEvent(body) => tagged(
            "NearClaimNativeFeeEvent", render_native_fee_claim(body),
        ),
        OmniMetaEventDetailsView::EvmLogMetadata(body) => tagged(
            "EvmLogMetadata", render_token_metadata(body),
        ),
        OmniMetaEventDetailsView::EvmDeployToken(body) => tagged(
            "EvmDeployToken", render_token_deployment(body),
        ),
        OmniMetaEventDetailsView::SolanaLogMetadata(body) => tagged(
            "SolanaLogMetadata", render_token_metadata(body),
        ),
        OmniMetaEventDetailsView::SolanaDeployToken(body) => tagged(
            "SolanaDeployToken", render_token_deployment(body),
        ),
    }
}

/// Writes `x` as a value.
pub fn encode_details(x: &OmniMetaEventDetails) -> (r: Result<Value, EncodeError>)
    ensures
        match r {
            Ok(v) => storable_details(x@) && v@ == render_details(x@),
            Err(_) => !storable_details(x@),
        },
{
    match x {
        OmniMetaEventDetails::NearLogMetadataEvent(body) => Ok(
            tag_with("NearLogMetadataEvent", encode_token_metadata(body)),
        ),
        OmniMetaEventDetails::NearSignLogMetadataEvent(body) => Ok(
            tag_with("NearSignLogMetadataEvent", encode_token_metadata(body)),
        ),
        OmniMetaEventDetails::NearDeployTokenEvent(body) => Ok(
            tag_with("NearDeployTokenEvent", encode_token_deployment(body)),
        ),
        OmniMetaEventDetails::NearBindTokenEvent(body) => Ok(
            tag_with("NearBindTokenEvent", encode_token_deployment(body)),
        ),
        OmniMetaEventDetails::NearSignClaimNativeFeeEvent(body) => Ok(
            tag_with("NearSignClaimNativeFeeEvent", encode_native_fee_claim(body)?),
        ),
        OmniMetaEventDetails::NearClaimNativeFeeEvent(body) => Ok(
            tag_with("NearClaimNativeFeeEvent", encode_native_fee_claim(body)?),
        ),
        OmniMetaEventDetails::EvmLogMetadata(body) => Ok(
            tag_with("EvmLogMetadata", encode_token_metadata(body)),
        ),
        OmniMetaEventDetails::EvmDeployToken(body) => Ok(
            tag_with("EvmDeployToken", encode_token_deployment(body)),
        ),
        OmniMetaEventDetails::SolanaLogMetadata(body) => Ok(
            tag_with("SolanaLogMetadata", encode_token_metadata(body)),
        ),
        OmniMetaEventDetails::SolanaDeployToken(body) => Ok(
            tag_with("SolanaDeployToken", encode_token_deployment(body)),
        ),
    }
}

/// Whether a document can hold `x`: every number in it is at most the
/// largest that a document stores.
pub open spec fn storable_transaction_event(x: OmniTransactionEventView) -> bool {
    &&& storable_transfer_message(x.transfer_message)
    &&& storable_transfer_id(x.transfer_id)
}

/// The document that holds `x`. A field without a value is left out.
pub open spec fn render_transaction_event(x: OmniTransactionEventView) -> ValueView {
    let e = no_entries();
    let e = with_field(e, "transfer_message", render_transfer_message(x.transfer_message));
    let e = with_optional(
        e, "sender", optional_rendered(x.sender, |a: OmniAddressView| render_address(a)),
    );
    let e = with_field(e, "transfer_id", render_transfer_id(x.transfer_id));
    let e = with_field(e, "status", render_status(x.status));
    let e = with_optional(e, "enrichment_data", render_enrichment(x.enrichment_data));
    ValueView::Document(e)
}

/// Writes `x` as a document.
pub fn encode_transaction_event(x: &OmniTransactionEvent) -> (r: Result<Value, EncodeError>)
    ensures
        match r {
            Ok(v) => storable_transaction_event(x@) && v@ == render_transaction_event(x@),
            Err(_) => !storable_transaction_event(x@),
        },
{
    let mut fields = new_fields();
    put(&mut fields, "transfer_message", encode_transfer_message(&x.transfer_message)?);
    if let Some(a) = &x.sender {
        put(&mut fields, "sender", encode_address(a));
    }
    put(&mut fields, "transfer_id", encode_transfer_id(&x.transfer_id)?);
    put(&mut fields, "status", encode_status(x.status));
    if let Some(v) = encode_enrichment(&x.enrichment_data) {
        put(&mut fields, "enrichment_data", v);
    }
    Ok(document(fields))
}

/// Whether a document can hold `x`: every number in it is at most the
/// largest that a document stores.
pub open spec fn storable_meta_event(x: OmniMetaEventView) -> bool {
    &&& storable_details(x.details)
}

/// The document that holds `x`.
pub open spec fn render_meta_event(x: OmniMetaEventView) -> ValueView {
    let e = no_entries();
    let e = with_field(e, "details", render_details(x.details));
    ValueView::Document(e)
}

/// Writes `x` as a document.
pub fn encode_meta_event(x: &OmniMetaEvent) -> (r: Result<Value, EncodeError>)
    ensures
        match r {
            Ok(v) => storable_meta_event(x@) && v@ == render_meta_event(x@),
            Err(_) => !storable_meta_event(x@),
        },
{
    let mut fields = new_fields();
    put(&mut fields, "details", encode_details(&x.details)?);
    Ok(document(fields))
}

/// Whether a document can hold `x`.
pub open spec fn storable_event_data(x: OmniEventDataView) -> bool {
    match x {
        OmniEventDataView::Transaction(body) => storable_transaction_event(body),
        OmniEventDataView::Meta(body) => storable_meta_event(body),
    }
}

/// The value that holds `x`: a document of one entry, the variant's name
/// with the variant's body.
pub open spec fn render_event_data(x: OmniEventDataView) -> ValueView {
    match x {
        OmniEventDataView::Transaction(body) => tagged(
            "Transaction", render_transaction_event(body),
        ),
        OmniEventDataView::Meta(body) => tagged("Meta", render_meta_event(body)),
    }
}

/// Writes `x` as a value.
pub fn encode_event_data(x: &OmniEventData) -> (r: Result<Value, EncodeError>)
    ensures
        match r {
            Ok(v) => storable_event_data(x@) && v@ == render_event_data(x@),
            Err(_) => !storable_event_data(x@),
        },
{
    match x {
        OmniEventData::Transaction(body) => Ok(
            tag_with("Transaction", encode_transaction_event(body)?),
        ),
        OmniEventData::Meta(body) => Ok(tag_with("Meta", encode_meta_event(body)?)),
    }
}

/// Whether a document can hold `x`: every number in it is at most the
/// largest that a document stores.
pub open spec fn storable_event(x: OmniEventView) -> bool {
    &&& storable_origin(x.origin)
    &&& storable_event_data(x.event)
}

/// The document that holds `x`. A field without a value is left out.
pub open spec fn render_event(x: OmniEventView) -> ValueView {
    let e = no_entries();
    let e = with_optional(e, "_id", optional_object_id_value(x.id));
    let e = with_field(e, "transaction_id", ValueView::Text(x.transaction_id));
    let e = with_field(e, "origin", render_origin(x.origin));
    let e = with_field(e, "event", render_event_data(x.event));
    ValueView::Document(e)
}

/// Writes `x` as a document.
pub fn encode_event(x: &OmniEvent) -> (r: Result<Value, EncodeError>)
    ensures
        match r {
            Ok(v) => storable_event(x@) && v@ == render_event(x@),
            Err(_) => !storable_event(x@),
        },
{
    let mut fields = new_fields();
    if let Some(id) = x.id {
        put(&mut fields, "_id", Value::ObjectId(id));
    }
    put(&mut fields, "transaction_id", Value::Text(x.transaction_id.clone()));
    put(&mut fields, "origin", encode_origin(&x.origin)?);
    put(&mut fields, "event", encode_event_data(&x.event)?);
    Ok(document(fields))
}

} // verus!
