//! What is written can be read: for every value that has a document form,
//! reading that document gives the value back.

use crate::decimal::lemma_amount_round_trip;
use crate::decode::{
    parse_address, parse_chain, parse_details, parse_enrichment, parse_event, parse_event_data,
    parse_evm_log, parse_fin_transfer, parse_init_transfer, parse_meta_event,
    parse_native_fee_claim, parse_near_receipt, parse_near_transfer, parse_origin,
    parse_sign_transfer, parse_solana_fin_transfer, parse_solana_init_transfer,
    parse_solana_transaction, parse_status, parse_token_deployment, parse_token_info,
    parse_token_metadata, parse_transaction_event, parse_transfer_id, parse_transfer_message,
};
use crate::document::{lookup, ValueView};
use crate::encode::{
    render_address, render_chain, render_details, render_enrichment, render_event,
    render_event_data, render_evm_log, render_fin_transfer, render_init_transfer,
    render_meta_event, render_native_fee_claim, render_near_receipt, render_near_transfer,
    render_origin, render_sign_transfer, render_solana_fin_transfer,
    render_solana_init_transfer, render_solana_transaction, render_status,
    render_token_deployment, render_token_info, render_token_metadata, render_transaction_event,
    render_transfer_id, render_transfer_message, storable_details, storable_event,
    storable_event_data, storable_evm_log, storable_fin_transfer, storable_init_transfer,
    storable_meta_event, storable_native_fee_claim, storable_near_receipt,
    storable_near_transfer, storable_origin, storable_sign_transfer,
    storable_solana_fin_transfer, storable_solana_init_transfer, storable_solana_transaction,
    storable_transaction_event, storable_transfer_id, storable_transfer_message,
};
use crate::error::DecodeError;
use crate::read::{tagged_in, Tagged};
use crate::schema::{
    ChainKind, EvmLogOrigin, EvmLogOriginView, FinTransferMessage, FinTransferMessageView,
    InitTransferMessage, InitTransferMessageView, NativeFeeClaim, NativeFeeClaimView,
    NearReceiptOrigin, NearReceiptOriginView, OmniAddress, OmniAddressView, OmniEnrichmentData,
    OmniEnrichmentDataView, OmniEvent, OmniEventData, OmniEventDataView, OmniEventView,
    OmniMetaEvent, OmniMetaEventDetails, OmniMetaEventDetailsView, OmniMetaEventView,
    OmniTokenInfo, OmniTokenInfoView, OmniTransactionEvent, OmniTransactionEventView,
    OmniTransactionOrigin, OmniTransactionOriginView, OmniTransferMessage,
    OmniTransferMessageView, OmniTransferStatus, SignTransferEvent, SignTransferEventView,
    SolanaFinTransferMessage, SolanaFinTransferMessageView, SolanaInitTransferMessage,
    SolanaInitTransferMessageView, SolanaTransactionOrigin, TokenDeployment,
    TokenDeploymentView, TokenMetadata, TokenMetadataView, TransferId, TransferMessage,
    TransferMessageView,
};
use crate::write::{lemma_lookup_push, tagged};
use vstd::prelude::*;

verus! {

/// A union value written with a body reads as its tag and that body.
pub proof fn lemma_tagged_reads_back(tag: &'static str, body: ValueView, at: &'static str)
    ensures
        tagged_in(tagged(tag, body), at) == Ok::<Tagged, DecodeError>(Tagged::Body(tag@, body)),
{
    assert(seq![(tag@, body)].len() == 1 && seq![(tag@, body)][0] == (tag@, body));
}

/// Reading the document written for a value of [`ChainKind`] gives the value back.
pub proof fn lemma_chain_round_trip(x: ChainKind)
    ensures
        parse_chain(render_chain(x)) == Ok::<ChainKind, DecodeError>(x),
{
    reveal_strlit("Eth");
    reveal_strlit("Near");
    reveal_strlit("Sol");
    reveal_strlit("Arb");
    reveal_strlit("Base");
    assert("Eth"@.len() == 3);
    assert("Near"@.len() == 4);
    assert("Sol"@.len() == 3);
    assert("Arb"@.len() == 3);
    assert("Base"@.len() == 4);
    assert("Eth"@[0] != "Sol"@[0]);
    assert("Eth"@[0] != "Arb"@[0]);
    assert("Near"@[0] != "Base"@[0]);
    assert("Sol"@[0] != "Arb"@[0]);
}

/// Reading the document written for a value of [`OmniTransferStatus`] gives the value back.
pub proof fn lemma_status_round_trip(x: OmniTransferStatus)
    ensures
        parse_status(render_status(x)) == Ok::<OmniTransferStatus, DecodeError>(x),
{
    reveal_strlit("Initialized");
    reveal_strlit("FinalisedOnOrigin");
    reveal_strlit("Finalised");
    assert("Initialized"@.len() == 11);
    assert("FinalisedOnOrigin"@.len() == 17);
    assert("Finalised"@.len() == 9);
}

/// Reading the document written for a value of [`OmniAddress`] gives the value back.
pub proof fn lemma_address_round_trip(x: OmniAddressView)
    ensures
        parse_address(render_address(x)) == Ok::<OmniAddressView, DecodeError>(x),
{
    broadcast use lemma_lookup_push;
    reveal_strlit("chain");
    reveal_strlit("address");
    assert("chain"@.len() == 5);
    assert("address"@.len() == 7);
    lemma_chain_round_trip(x.chain);
}

/// Reading the document written for a value of [`TransferId`] gives the value back.
pub proof fn lemma_transfer_id_round_trip(x: TransferId)
    requires
        storable_transfer_id(x),
    ensures
        parse_transfer_id(render_transfer_id(x)) == Ok::<TransferId, DecodeError>(x),
{
    broadcast use lemma_lookup_push;
    reveal_strlit("origin_chain");
    reveal_strlit("origin_nonce");
    assert("origin_chain"@.len() == 12);
    assert("origin_nonce"@.len() == 12);
    assert("origin_chain"@[7] != "origin_nonce"@[7]);
    lemma_chain_round_trip(x.origin_chain);
}

/// Reading the document written for a value of [`OmniTokenInfo`] gives the value back.
pub proof fn lemma_token_info_round_trip(x: OmniTokenInfoView)
    ensures
        parse_token_info(render_token_info(x)) == Ok::<OmniTokenInfoView, DecodeError>(x),
{
    broadcast use lemma_lookup_push;
    reveal_strlit("token_id");
    reveal_strlit("name");
    reveal_strlit("symbol");
    reveal_strlit("decimals");
    reveal_strlit("usd_price");
    assert("token_id"@.len() == 8);
    assert("name"@.len() == 4);
    assert("symbol"@.len() == 6);
    assert("decimals"@.len() == 8);
    assert("usd_price"@.len() == 9);
    assert("token_id"@[0] != "decimals"@[0]);
}

/// Pricing data that was written reads back as it was; data that is not
/// computed yet, and no other, is not written at all.
pub proof fn lemma_enrichment_round_trip(x: OmniEnrichmentDataView)
    ensures
        match render_enrichment(x) {
            Some(v) => parse_enrichment(v) == Ok::<OmniEnrichmentDataView, DecodeError>(x),
            None => x is NotComputed,
        },
{
    broadcast use lemma_lookup_push;
    reveal_strlit("None");
    reveal_strlit("NotApplicable");
    reveal_strlit("Data");
    reveal_strlit("transferred_token_info");
    reveal_strlit("native_token_info");
    assert("None"@.len() == 4);
    assert("NotApplicable"@.len() == 13);
    assert("Data"@.len() == 4);
    assert("None"@[0] != "Data"@[0]);
    assert("transferred_token_info"@.len() == 22);
    assert("native_token_info"@.len() == 17);
    match x {
        OmniEnrichmentDataView::Data { transferred_token_info, native_token_info } => {
            if transferred_token_info is Some {
                lemma_token_info_round_trip(transferred_token_info->Some_0);
            }
            lemma_token_info_round_trip(native_token_info);
            let e = render_enrichment(x)->Some_0->Document_0[0].1;
            lemma_tagged_reads_back("Data", e, "OmniEnrichmentData");
        },
        _ => {},
    }
}

/// Reading the document written for a value of [`TransferMessage`] gives the value back.
pub proof fn lemma_near_transfer_round_trip(x: TransferMessageView)
    requires
        storable_near_transfer(x),
    ensures
        parse_near_transfer(render_near_transfer(x)) == Ok::<TransferMessageView, DecodeError>(x),
{
    broadcast use lemma_lookup_push;
    reveal_strlit("origin_nonce");
    reveal_strlit("token");
    reveal_strlit("amount");
    reveal_strlit("recipient");
    reveal_strlit("fee");
    reveal_strlit("sender");
    reveal_strlit("msg");
    reveal_strlit("destination_nonce");
    assert("origin_nonce"@.len() == 12);
    assert("token"@.len() == 5);
    assert("amount"@.len() == 6);
    assert("recipient"@.len() == 9);
    assert("fee"@.len() == 3);
    assert("sender"@.len() == 6);
    assert("msg"@.len() == 3);
    assert("destination_nonce"@.len() == 17);
    assert("amount"@[0] != "sender"@[0]);
    assert("fee"@[0] != "msg"@[0]);
    lemma_address_round_trip(x.token);
    lemma_amount_round_trip(x.amount);
    lemma_address_round_trip(x.recipient);
    lemma_amount_round_trip(x.fee);
    lemma_address_round_trip(x.sender);
}

/// Reading the document written for a value of [`SignTransferEvent`] gives the value back.
pub proof fn lemma_sign_transfer_round_trip(x: SignTransferEventView)
    requires
        storable_sign_transfer(x),
    ensures
        parse_sign_transfer(render_sign_transfer(x)) == Ok::<SignTransferEventView, DecodeError>(x),
{
    broadcast use lemma_lookup_push;
    reveal_strlit("signature");
    reveal_strlit("transfer_id");
    reveal_strlit("token");
    reveal_strlit("amount");
    reveal_strlit("recipient");
    reveal_strlit("fee_recipient");
    reveal_strlit("destination_nonce");
    assert("signature"@.len() == 9);
    assert("transfer_id"@.len() == 11);
    assert("token"@.len() == 5);
    assert("amount"@.len() == 6);
    assert("recipient"@.len() == 9);
    assert("fee_recipient"@.len() == 13);
    assert("destination_nonce"@.len() == 17);
    assert("signature"@[0] != "recipient"@[0]);
    lemma_transfer_id_round_trip(x.transfer_id);
    lemma_address_round_trip(x.token);
    lemma_amount_round_trip(x.amount);
    lemma_address_round_trip(x.recipient);
}

/// Reading the document written for a value of [`InitTransferMessage`] gives the value back.
pub proof fn lemma_init_transfer_round_trip(x: InitTransferMessageView)
    requires
        storable_init_transfer(x),
    ensures
        parse_init_transfer(render_init_transfer(x)) == Ok::<InitTransferMessageView, DecodeError>(
            x,
        ),
{
    broadcast use lemma_lookup_push;
    reveal_strlit("origin_nonce");
    reveal_strlit("token");
    reveal_strlit("amount");
    reveal_strlit("recipient");
    reveal_strlit("fee");
    reveal_strlit("sender");
    reveal_strlit("msg");
    assert("origin_nonce"@.len() == 12);
    assert("token"@.len() == 5);
    assert("amount"@.len() == 6);
    assert("recipient"@.len() == 9);
    assert("fee"@.len() == 3);
    assert("sender"@.len() == 6);
    assert("msg"@.len() == 3);
    assert("amount"@[0] != "sender"@[0]);
    assert("fee"@[0] != "msg"@[0]);
    lemma_address_round_trip(x.token);
    lemma_amount_round_trip(x.amount);
    lemma_address_round_trip(x.recipient);
    lemma_amount_round_trip(x.fee);
    lemma_address_round_trip(x.sender);
}

/// Reading the document written for a value of [`FinTransferMessage`] gives the value back.
pub proof fn lemma_fin_transfer_round_trip(x: FinTransferMessageView)
    requires
        storable_fin_transfer(x),
    ensures
        parse_fin_transfer(render_fin_transfer(x)) == Ok::<FinTransferMessageView, DecodeError>(x),
{
    broadcast use lemma_lookup_push;
    reveal_strlit("transfer_id");
    reveal_strlit("fee_recipient");
    reveal_strlit("amount");
    reveal_strlit("emitter");
    assert("transfer_id"@.len() == 11);
    assert("fee_recipient"@.len() == 13);
    assert("amount"@.len() == 6);
    assert("emitter"@.len() == 7);
    lemma_transfer_id_round_trip(x.transfer_id);
    lemma_amount_round_trip(x.amount);
    lemma_address_round_trip(x.emitter);
}

/// Reading the document written for a value of [`SolanaInitTransferMessage`] gives the value back.
pub proof fn lemma_solana_init_transfer_round_trip(x: SolanaInitTransferMessageView)
    requires
        storable_solana_init_transfer(x),
    ensures
        parse_solana_init_transfer(render_solana_init_transfer(x)) == Ok::<
            SolanaInitTransferMessageView,
            DecodeError,
        >(x),
{
    broadcast use lemma_lookup_push;
    reveal_strlit("amount");
    reveal_strlit("fee");
    reveal_strlit("token");
    reveal_strlit("recipient");
    reveal_strlit("sender");
    reveal_strlit("origin_nonce");
    reveal_strlit("emitter");
    assert("amount"@.len() == 6);
    assert("fee"@.len() == 3);
    assert("token"@.len() == 5);
    assert("recipient"@.len() == 9);
    assert("sender"@.len() == 6);
    assert("origin_nonce"@.len() == 12);
    assert("emitter"@.len() == 7);
    assert("amount"@[0] != "sender"@[0]);
    lemma_amount_round_trip(x.amount);
    lemma_amount_round_trip(x.fee);
    lemma_address_round_trip(x.token);
    lemma_address_round_trip(x.recipient);
    lemma_address_round_trip(x.sender);
}

/// Reading the document written for a value of [`SolanaFinTransferMessage`] gives the value back.
pub proof fn lemma_solana_fin_transfer_round_trip(x: SolanaFinTransferMessageView)
    requires
        storable_solana_fin_transfer(x),
    ensures
        parse_solana_fin_transfer(render_solana_fin_transfer(x)) == Ok::<
            SolanaFinTransferMessageView,
            DecodeError,
        >(x),
{
    broadcast use lemma_lookup_push;
    reveal_strlit("amount");
    reveal_strlit("destination_nonce");
    reveal_strlit("fee_recipient");
    reveal_strlit("emitter");
    reveal_strlit("sequence");
    assert("amount"@.len() == 6);
    assert("destination_nonce"@.len() == 17);
    assert("fee_recipient"@.len() == 13);
    assert("emitter"@.len() == 7);
    assert("sequence"@.len() == 8);
    lemma_amount_round_trip(x.amount);
}

/// Reading the document written for a value of [`OmniTransferMessage`] gives the value back.
pub proof fn lemma_transfer_message_round_trip(x: OmniTransferMessageView)
    requires
        storable_transfer_message(x),
    ensures
        parse_transfer_message(render_transfer_message(x)) == Ok::<
            OmniTransferMessageView,
            DecodeError,
        >(x),
{
    reveal_strlit("NearTransferMessage");
    reveal_strlit("NearSignTransferEvent");
    reveal_strlit("NearClaimFeeEvent");
    reveal_strlit("EvmInitTransferMessage");
    reveal_strlit("EvmFinTransferMessage");
    reveal_strlit("SolanaInitTransfer");
    reveal_strlit("SolanaFinTransfer");
    assert("NearTransferMessage"@.len() == 19);
    assert("NearSignTransferEvent"@.len() == 21);
    assert("NearClaimFeeEvent"@.len() == 17);
    assert("EvmInitTransferMessage"@.len() == 22);
    assert("EvmFinTransferMessage"@.len() == 21);
    assert("SolanaInitTransfer"@.len() == 18);
    assert("SolanaFinTransfer"@.len() == 17);
    assert("NearSignTransferEvent"@[0] != "EvmFinTransferMessage"@[0]);
    assert("NearClaimFeeEvent"@[0] != "SolanaFinTransfer"@[0]);
    match x {
        OmniTransferMessageView::NearTransferMessage(body) => {
            lemma_near_transfer_round_trip(body);
            lemma_tagged_reads_back(
                "NearTransferMessage", render_near_transfer(body), "OmniTransferMessage",
            );
        },
        OmniTransferMessageView::NearSignTransferEvent(body) => {
            lemma_sign_transfer_round_trip(body);
            lemma_tagged_reads_back(
                "NearSignTransferEvent", render_sign_transfer(body), "OmniTransferMessage",
            );
        },
        OmniTransferMessageView::NearClaimFeeEvent(body) => {
            lemma_near_transfer_round_trip(body);
            lemma_tagged_reads_back(
                "NearClaimFeeEvent", render_near_transfer(body), "OmniTransferMessage",
            );
        },
        OmniTransferMessageView::EvmInitTransferMessage(body) => {
            lemma_init_transfer_round_trip(body);
            lemma_tagged_reads_back(
                "EvmInitTransferMessage", render_init_transfer(body), "OmniTransferMessage",
            );
        },
        OmniTransferMessageView::EvmFinTransferMessage(body) => {
            lemma_fin_transfer_round_trip(body);
            lemma_tagged_reads_back(
                "EvmFinTransferMessage", render_fin_transfer(body), "OmniTransferMessage",
            );
        },
        OmniTransferMessageView::SolanaInitTransfer(body) => {
            lemma_solana_init_transfer_round_trip(body);
            lemma_tagged_reads_back(
                "SolanaInitTransfer", render_solana_init_transfer(body), "OmniTransferMessage",
            );
        },
        OmniTransferMessageView::SolanaFinTransfer(body) => {
            lemma_solana_fin_transfer_round_trip(body);
            lemma_tagged_reads_back(
                "SolanaFinTransfer", render_solana_fin_transfer(body), "OmniTransferMessage",
            );
        },
    }
}

/// Reading the document written for a value of [`NearReceiptOrigin`] gives the value back.
pub proof fn lemma_near_receipt_round_trip(x: NearReceiptOriginView)
    requires
        storable_near_receipt(x),
    ensures
        parse_near_receipt(render_near_receipt(x)) == Ok::<NearReceiptOriginView, DecodeError>(x),
{
    broadcast use lemma_lookup_push;
    reveal_strlit("block_height");
    reveal_strlit("block_timestamp_nanosec");
    reveal_strlit("receipt_id");
    reveal_strlit("contract_id");
    reveal_strlit("signer_id");
    reveal_strlit("predecessor_id");
    reveal_strlit("raw_receipt");
    reveal_strlit("version");
    assert("block_height"@.len() == 12);
    assert("block_timestamp_nanosec"@.len() == 23);
    assert("receipt_id"@.len() == 10);
    assert("contract_id"@.len() == 11);
    assert("signer_id"@.len() == 9);
    assert("predecessor_id"@.len() == 14);
    assert("raw_receipt"@.len() == 11);
    assert("version"@.len() == 7);
    assert("contract_id"@[0] != "raw_receipt"@[0]);
}

/// Reading the document written for a value of [`EvmLogOrigin`] gives the value back.
pub proof fn lemma_evm_log_round_trip(x: EvmLogOriginView)
    requires
        storable_evm_log(x),
    ensures
        parse_evm_log(render_evm_log(x)) == Ok::<EvmLogOriginView, DecodeError>(x),
{
    broadcast use lemma_lookup_push;
    reveal_strlit("block_number");
    reveal_strlit("block_timestamp");
    reveal_strlit("transaction_index");
    reveal_strlit("log_index");
    reveal_strlit("chain_kind");
    assert("block_number"@.len() == 12);
    assert("block_timestamp"@.len() == 15);
    assert("transaction_index"@.len() == 17);
    assert("log_index"@.len() == 9);
    assert("chain_kind"@.len() == 10);
    lemma_chain_round_trip(x.chain_kind);
}

/// Reading the document written for a value of [`SolanaTransactionOrigin`] gives the value back.
pub proof fn lemma_solana_transaction_round_trip(x: SolanaTransactionOrigin)
    requires
        storable_solana_transaction(x),
    ensures
        parse_solana_transaction(render_solana_transaction(x)) == Ok::<
            SolanaTransactionOrigin,
            DecodeError,
        >(x),
{
    broadcast use lemma_lookup_push;
    reveal_strlit("slot");
    reveal_strlit("block_time");
    reveal_strlit("instruction_index");
    assert("slot"@.len() == 4);
    assert("block_time"@.len() == 10);
    assert("instruction_index"@.len() == 17);
}

/// Reading the document written for a value of [`OmniTransactionOrigin`] gives the value back.
pub proof fn lemma_origin_round_trip(x: OmniTransactionOriginView)
    requires
        storable_origin(x),
    ensures
        parse_origin(render_origin(x)) == Ok::<OmniTransactionOriginView, DecodeError>(x),
{
    reveal_strlit("NearReceipt");
    reveal_strlit("EvmLog");
    reveal_strlit("SolanaTransaction");
    assert("NearReceipt"@.len() == 11);
    assert("EvmLog"@.len() == 6);
    assert("SolanaTransaction"@.len() == 17);
    match x {
        OmniTransactionOriginView::NearReceipt(body) => {
            lemma_near_receipt_round_trip(body);
            lemma_tagged_reads_back(
                "NearReceipt", render_near_receipt(body), "OmniTransactionOrigin",
            );
        },
        OmniTransactionOriginView::EvmLog(body) => {
            lemma_evm_log_round_trip(body);
            lemma_tagged_reads_back("EvmLog", render_evm_log(body), "OmniTransactionOrigin");
        },
        OmniTransactionOriginView::SolanaTransaction(body) => {
            lemma_solana_transaction_round_trip(body);
            lemma_tagged_reads_back(
                "SolanaTransaction", render_solana_transaction(body), "OmniTransactionOrigin",
            );
        },
    }
}

/// Reading the document written for a value of [`TokenMetadata`] gives the value back.
pub proof fn lemma_token_metadata_round_trip(x: TokenMetadataView)
    ensures
        parse_token_metadata(render_token_metadata(x)) == Ok::<TokenMetadataView, DecodeError>(x),
{
    broadcast use lemma_lookup_push;
    reveal_strlit("token");
    reveal_strlit("name");
    reveal_strlit("symbol");
    reveal_strlit("decimals");
    assert("token"@.len() == 5);
    assert("name"@.len() == 4);
    assert("symbol"@.len() == 6);
    assert("decimals"@.len() == 8);
}

/// Reading the document written for a value of [`TokenDeployment`] gives the value back.
pub proof fn lemma_token_deployment_round_trip(x: TokenDeploymentView)
    ensures
        parse_token_deployment(render_token_deployment(x)) == Ok::<
            TokenDeploymentView,
            DecodeError,
        >(x),
{
    broadcast use lemma_lookup_push;
    reveal_strlit("token_id");
    reveal_strlit("token_address");
    reveal_strlit("decimals");
    reveal_strlit("origin_decimals");
    assert("token_id"@.len() == 8);
    assert("token_address"@.len() == 13);
    assert("decimals"@.len() == 8);
    assert("origin_decimals"@.len() == 15);
    assert("token_id"@[0] != "decimals"@[0]);
    lemma_address_round_trip(x.token_address);
}

/// Reading the document written for a value of [`NativeFeeClaim`] gives the value back.
pub proof fn lemma_native_fee_claim_round_trip(x: NativeFeeClaimView)
    requires
        storable_native_fee_claim(x),
    ensures
        parse_native_fee_claim(render_native_fee_claim(x)) == Ok::<NativeFeeClaimView, DecodeError>(
            x,
        ),
{
    broadcast use lemma_lookup_push;
    reveal_strlit("transfer_id");
    reveal_strlit("recipient");
    reveal_strlit("amount");
    assert("transfer_id"@.len() == 11);
    assert("recipient"@.len() == 9);
    assert("amount"@.len() == 6);
    lemma_transfer_id_round_trip(x.transfer_id);
    lemma_address_round_trip(x.recipient);
    lemma_amount_round_trip(x.amount);
}

/// Reading the document written for a value of [`OmniMetaEventDetails`] gives the value back.
pub proof fn lemma_details_round_trip(x: OmniMetaEventDetailsView)
    requires
        storable_details(x),
    ensures
        parse_details(render_details(x)) == Ok::<OmniMetaEventDetailsView, DecodeError>(x),
{
    reveal_strlit("NearLogMetadataEvent");
    reveal_strlit("NearSignLogMetadataEvent");
    reveal_strlit("NearDeployTokenEvent");
    reveal_strlit("NearBindTokenEvent");
    reveal_strlit("NearSignClaimNativeFeeEvent");
    reveal_strlit("NearClaimNativeFeeEvent");
    reveal_strlit("EvmLogMetadata");
    reveal_strlit("EvmDeployToken");
    reveal_strlit("SolanaLogMetadata");
    reveal_strlit("SolanaDeployToken");
    assert("NearLogMetadataEvent"@.len() == 20);
    assert("NearSignLogMetadataEvent"@.len() == 24);
    assert("NearDeployTokenEvent"@.len() == 20);
    assert("NearBindTokenEvent"@.len() == 18);
    assert("NearSignClaimNativeFeeEvent"@.len() == 27);
    assert("NearClaimNativeFeeEvent"@.len() == 23);
    assert("EvmLogMetadata"@.len() == 14);
    assert("EvmDeployToken"@.len() == 14);
    assert("SolanaLogMetadata"@.len() == 17);
    assert("SolanaDeployToken"@.len() == 17);
    assert("NearLogMetadataEvent"@[4] != "NearDeployTokenEvent"@[4]);
    assert("EvmLogMetadata"@[3] != "EvmDeployToken"@[3]);
    assert("SolanaLogMetadata"@[6] != "SolanaDeployToken"@[6]);
    match x {
        OmniMetaEventDetailsView::NearLogMetadataEvent(body) => {
            lemma_token_metadata_round_trip(body);
            lemma_tagged_reads_back(
                "NearLogMetadataEvent", render_token_metadata(body), "OmniMetaEventDetails",
            );
        },
        OmniMetaEventDetailsView::NearSignLogMetadataEvent(body) => {
            lemma_token_metadata_round_trip(body);
            lemma_tagged_reads_back(
                "NearSignLogMetadataEvent", render_token_metadata(body), "OmniMetaEventDetails",
            );
        },
        OmniMetaEventDetailsView::NearDeployTokenEvent(body) => {
            lemma_token_deployment_round_trip(body);
            lemma_tagged_reads_back(
                "NearDeployTokenEvent", render_token_deployment(body), "OmniMetaEventDetails",
            );
        },
        OmniMetaEventDetailsView::NearBindTokenEvent(body) => {
            lemma_token_deployment_round_trip(body);
            lemma_tagged_reads_back(
                "NearBindTokenEvent", render_token_deployment(body), "OmniMetaEventDetails",
            );
        },
        OmniMetaEventDetailsView::NearSignClaimNativeFeeEvent(body) => {
            lemma_native_fee_claim_round_trip(body);
            lemma_tagged_reads_back(
                "NearSignClaimNativeFeeEvent",
                render_native_fee_claim(body),
                "OmniMetaEventDetails",
            );
        },
        OmniMetaEventDetailsView::NearClaimNativeFeeEvent(body) => {
            lemma_native_fee_claim_round_trip(body);
            lemma_tagged_reads_back(
                "NearClaimNativeFeeEvent", render_native_fee_claim(body), "OmniMetaEventDetails",
            );
        },
        OmniMetaEventDetailsView::EvmLogMetadata(body) => {
            lemma_token_metadata_round_trip(body);
            lemma_tagged_reads_back(
                "EvmLogMetadata", render_token_metadata(body), "OmniMetaEventDetails",
            );
        },
        OmniMetaEventDetailsView::EvmDeployToken(body) => {
            lemma_token_deployment_round_trip(body);
            lemma_tagged_reads_back(
                "EvmDeployToken", render_token_deployment(body), "OmniMetaEventDetails",
            );
        },
        OmniMetaEventDetailsView::SolanaLogMetadata(body) => {
            lemma_token_metadata_round_trip(body);
            lemma_tagged_reads_back(
                "SolanaLogMetadata", render_token_metadata(body), "OmniMetaEventDetails",
            );
        },
        OmniMetaEventDetailsView::SolanaDeployToken(body) => {
            lemma_token_deployment_round_trip(body);
            lemma_tagged_reads_back(
                "SolanaDeployToken", render_token_deployment(body), "OmniMetaEventDetails",
            );
        },
    }
}

/// Reading the document written for a value of [`OmniTransactionEvent`] gives the value back.
pub proof fn lemma_transaction_event_round_trip(x: OmniTransactionEventView)
    requires
        storable_transaction_event(x),
    ensures
        parse_transaction_event(render_transaction_event(x)) == Ok::<
            OmniTransactionEventView,
            DecodeError,
        >(x),
{
    broadcast use lemma_lookup_push;
    reveal_strlit("transfer_message");
    reveal_strlit("sender");
    reveal_strlit("transfer_id");
    reveal_strlit("status");
    reveal_strlit("enrichment_data");
    assert("transfer_message"@.len() == 16);
    assert("sender"@.len() == 6);
    assert("transfer_id"@.len() == 11);
    assert("status"@.len() == 6);
    assert("enrichment_data"@.len() == 15);
    assert("sender"@[1] != "status"@[1]);
    lemma_transfer_message_round_trip(x.transfer_message);
    if x.sender is Some {
        lemma_address_round_trip(x.sender->Some_0);
    }
    lemma_transfer_id_round_trip(x.transfer_id);
    lemma_status_round_trip(x.status);
    lemma_enrichment_round_trip(x.enrichment_data);
}

/// Reading the document written for a value of [`OmniMetaEvent`] gives the value back.
pub proof fn lemma_meta_event_round_trip(x: OmniMetaEventView)
    requires
        storable_meta_event(x),
    ensures
        parse_meta_event(render_meta_event(x)) == Ok::<OmniMetaEventView, DecodeError>(x),
{
    broadcast use lemma_lookup_push;
    reveal_strlit("details");
    assert("details"@.len() == 7);
    lemma_details_round_trip(x.details);
}

/// Reading the document written for a value of [`OmniEventData`] gives the value back.
pub proof fn lemma_event_data_round_trip(x: OmniEventDataView)
    requires
        storable_event_data(x),
    ensures
        parse_event_data(render_event_data(x)) == Ok::<OmniEventDataView, DecodeError>(x),
{
    reveal_strlit("Transaction");
    reveal_strlit("Meta");
    assert("Transaction"@.len() == 11);
    assert("Meta"@.len() == 4);
    match x {
        OmniEventDataView::Transaction(body) => {
            lemma_transaction_event_round_trip(body);
            lemma_tagged_reads_back("Transaction", render_transaction_event(body), "OmniEventData");
        },
        OmniEventDataView::Meta(body) => {
            lemma_meta_event_round_trip(body);
            lemma_tagged_reads_back("Meta", render_meta_event(body), "OmniEventData");
        },
    }
}

/// Writing an event and reading it back gives the event, for every event
/// that has a document form.
pub proof fn law_event_round_trip(x: OmniEventView)
    requires
        storable_event(x),
    ensures
        parse_event(render_event(x)) == Ok::<OmniEventView, DecodeError>(x),
{
    broadcast use lemma_lookup_push;
    reveal_strlit("_id");
    reveal_strlit("transaction_id");
    reveal_strlit("origin");
    reveal_strlit("event");
    assert("_id"@.len() == 3);
    assert("transaction_id"@.len() == 14);
    assert("origin"@.len() == 6);
    assert("event"@.len() == 5);
    lemma_origin_round_trip(x.origin);
    lemma_event_data_round_trip(x.event);
}

/// The document of a transaction event holds the field `enrichment_data`
/// exactly if the pricing data has been computed.
pub proof fn law_enrichment_left_out(event: OmniTransactionEventView)
    ensures
        render_transaction_event(event) is Document,
        lookup(render_transaction_event(event)->Document_0, "enrichment_data"@) is None <==> (
        event.enrichment_data is NotComputed),
{
    broadcast use lemma_lookup_push;
    reveal_strlit("transfer_message");
    reveal_strlit("sender");
    reveal_strlit("transfer_id");
    reveal_strlit("status");
    reveal_strlit("enrichment_data");
    assert("transfer_message"@.len() == 16);
    assert("sender"@.len() == 6);
    assert("transfer_id"@.len() == 11);
    assert("status"@.len() == 6);
    assert("enrichment_data"@.len() == 15);
    assert("sender"@[1] != "status"@[1]);
}

} // verus!
