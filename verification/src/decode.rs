//! Reading documents as events of the present layout.
//!
//! Each reader stands beside the statement of what a document says: a spec
//! function from the document to the value read or the failure met. Fields
//! that a type does not name are passed over; a field that may be left out
//! reads as no value; a union is a document of one entry whose key has to
//! name a variant exactly.

use crate::document::{
    entries_of, find, law_other_entries_are_passed_over, lookup, same_text, Entries, Field, Value,
    ValueView,
};
use crate::error::{failure, DecodeError, Fault};
use crate::read::{
    amount_field, double_field, entries_in, field_as, get_entries, get_variant, optional_as,
    optional_object_id_field, optional_text_field, optional_u64_field, present,
    read_amount_field, read_double, read_optional_object_id, read_optional_text,
    read_optional_u64, read_text, read_u32, read_u64, read_u8, require, tagged_in, text_field,
    text_in, u32_field, u64_field, u8_field, Tagged, Variant,
};
use crate::schema::{
    ChainKind, EvmLogOrigin, EvmLogOriginView, FinTransferMessage, FinTransferMessageView,
    InitTransferMessage, InitTransferMessageView, NativeFeeClaim, NativeFeeClaimView,
    NearReceiptOrigin, NearReceiptOriginView, OmniAddress, OmniAddressView, OmniEnrichmentData,
    OmniEnrichmentDataView, OmniEvent, OmniEventData, OmniEventDataView, OmniEventView,
    OmniMetaEvent, OmniMetaEventDetails, OmniMetaEventDetailsView, OmniMetaEventView,
    OmniTokenInfo, OmniTokenInfoView, OmniTransactionEvent, OmniTransactionEventView,
    OmniTransactionOrigin, OmniTransactionOriginView, OmniTransferMessage,
    OmniTransferMessageView, OmniTransferStatus, SignTransferEvent, SignTransferEventView,
    SolanaFinTransferMessage, SolanaFinTransferMessageView, SolanaInitTransferMessage,
    SolanaInitTransferMessageView, SolanaTransactionOrigin, TokenDeployment,
    TokenDeploymentView, TokenMetadata, TokenMetadataView, TransferId, TransferMessage,
    TransferMessageView,
};
use vstd::prelude::*;

verus! {

/// What a value says as [`ChainKind`]: the variant that the text names.
pub open spec fn parse_chain(v: ValueView) -> Result<ChainKind, DecodeError> {
    match text_in(v, "ChainKind") {
        Err(e) => Err(e),
        Ok(tag) => if tag == "Eth"@ {
            Ok(ChainKind::Eth)
        } else if tag == "Near"@ {
            Ok(ChainKind::Near)
        } else if tag == "Sol"@ {
            Ok(ChainKind::Sol)
        } else if tag == "Arb"@ {
            Ok(ChainKind::Arb)
        } else if tag == "Base"@ {
            Ok(ChainKind::Base)
        } else {
            Err(failure(Fault::UnknownVariant, "ChainKind"))
        },
    }
}

/// Reads a value as [`ChainKind`].
pub fn decode_chain(v: &Value) -> (r: Result<ChainKind, DecodeError>)
    ensures
        r == parse_chain(v@),
{
    match v {
        Value::Text(tag) => {
            let tag = tag.as_str();
            if same_text(tag, "Eth") {
                Ok(ChainKind::Eth)
            } else if same_text(tag, "Near") {
                Ok(ChainKind::Near)
            } else if same_text(tag, "Sol") {
                Ok(ChainKind::Sol)
            } else if same_text(tag, "Arb") {
                Ok(ChainKind::Arb)
            } else if same_text(tag, "Base") {
                Ok(ChainKind::Base)
            } else {
                Err(DecodeError { fault: Fault::UnknownVariant, at: "ChainKind" })
            }
        },
        _ => Err(DecodeError { fault: Fault::WrongType, at: "ChainKind" }),
    }
}

/// What a value says as [`OmniTransferStatus`]: the variant that the text names.
pub open spec fn parse_status(v: ValueView) -> Result<OmniTransferStatus, DecodeError> {
    match text_in(v, "OmniTransferStatus") {
        Err(e) => Err(e),
        Ok(tag) => if tag == "Initialized"@ {
            Ok(OmniTransferStatus::Initialized)
        } else if tag == "FinalisedOnOrigin"@ {
            Ok(OmniTransferStatus::FinalisedOnOrigin)
        } else if tag == "Finalised"@ {
            Ok(OmniTransferStatus::Finalised)
        } else {
            Err(failure(Fault::UnknownVariant, "OmniTransferStatus"))
        },
    }
}

/// Reads a value as [`OmniTransferStatus`].
pub fn decode_status(v: &Value) -> (r: Result<OmniTransferStatus, DecodeError>)
    ensures
        r == parse_status(v@),
{
    match v {
        Value::Text(tag) => {
            let tag = tag.as_str();
            if same_text(tag, "Initialized") {
                Ok(OmniTransferStatus::Initialized)
            } else if same_text(tag, "FinalisedOnOrigin") {
                Ok(OmniTransferStatus::FinalisedOnOrigin)
            } else if same_text(tag, "Finalised") {
                Ok(OmniTransferStatus::Finalised)
            } else {
                Err(DecodeError { fault: Fault::UnknownVariant, at: "OmniTransferStatus" })
            }
        },
        _ => Err(DecodeError { fault: Fault::WrongType, at: "OmniTransferStatus" }),
    }
}

/// What a document says as [`OmniAddress`]: the value of its fields, or the
/// failure of the first field, in the order of declaration, that cannot be
/// read.
pub open spec fn parse_address(v: ValueView) -> Result<OmniAddressView, DecodeError> {
    match entries_in(v, "OmniAddress") {
        Err(e) => Err(e),
        Ok(entries) => {
            let chain = field_as(entries, "chain", |v: ValueView| parse_chain(v));
            let address = text_field(entries, "address");
            if chain is Err {
                Err(chain->Err_0)
            } else if address is Err {
                Err(address->Err_0)
            } else {
                Ok(
                    OmniAddressView {
                        chain: chain->Ok_0,
                        address: address->Ok_0,
                    },
                )
            }
        },
    }
}

/// Reads a document as [`OmniAddress`].
pub fn decode_address(v: &Value) -> (r: Result<OmniAddress, DecodeError>)
    ensures
        match r {
            Ok(x) => parse_address(v@) == Ok::<OmniAddressView, DecodeError>(x@),
            Err(e) => parse_address(v@) == Err::<OmniAddressView, DecodeError>(e),
        },
{
    let fields = get_entries(v, "OmniAddress")?;
    let chain = decode_chain(require(fields, "chain")?)?;
    let address = read_text(fields, "address")?;
    Ok(OmniAddress { chain, address })
}

/// What a document says as [`TransferId`]: the value of its fields, or the
/// failure of the first field, in the order of declaration, that cannot be
/// read.
pub open spec fn parse_transfer_id(v: ValueView) -> Result<TransferId, DecodeError> {
    match entries_in(v, "TransferId") {
        Err(e) => Err(e),
        Ok(entries) => {
            let origin_chain = field_as(entries, "origin_chain", |v: ValueView| parse_chain(v));
            let origin_nonce = u64_field(entries, "origin_nonce");
            if origin_chain is Err {
                Err(origin_chain->Err_0)
            } else if origin_nonce is Err {
                Err(origin_nonce->Err_0)
            } else {
                Ok(
                    TransferId {
                        origin_chain: origin_chain->Ok_0,
                        origin_nonce: origin_nonce->Ok_0,
                    },
                )
            }
        },
    }
}

/// Reads a document as [`TransferId`].
pub fn decode_transfer_id(v: &Value) -> (r: Result<TransferId, DecodeError>)
    ensures
        r == parse_transfer_id(v@),
{
    let fields = get_entries(v, "TransferId")?;
    let origin_chain = decode_chain(require(fields, "origin_chain")?)?;
    let origin_nonce = read_u64(fields, "origin_nonce")?;
    Ok(TransferId { origin_chain, origin_nonce })
}

/// What a document says as [`OmniTokenInfo`]: the value of its fields, or the
/// failure of the first field, in the order of declaration, that cannot be
/// read.
pub open spec fn parse_token_info(v: ValueView) -> Result<OmniTokenInfoView, DecodeError> {
    match entries_in(v, "OmniTokenInfo") {
        Err(e) => Err(e),
        Ok(entries) => {
            let token_id = text_field(entries, "token_id");
            let name = text_field(entries, "name");
            let symbol = text_field(entries, "symbol");
            let decimals = u8_field(entries, "decimals");
            let usd_price = double_field(entries, "usd_price");
            if token_id is Err {
                Err(token_id->Err_0)
            } else if name is Err {
                Err(name->Err_0)
            } else if symbol is Err {
                Err(symbol->Err_0)
            } else if decimals is Err {
                Err(decimals->Err_0)
            } else if usd_price is Err {
                Err(usd_price->Err_0)
            } else {
                Ok(
                    OmniTokenInfoView {
                        token_id: token_id->Ok_0,
                        name: name->Ok_0,
                        symbol: symbol->Ok_0,
                        decimals: decimals->Ok_0,
                        usd_price: usd_price->Ok_0,
                    },
                )
            }
        },
    }
}

/// Reads a document as [`OmniTokenInfo`].
pub fn decode_token_info(v: &Value) -> (r: Result<OmniTokenInfo, DecodeError>)
    ensures
        match r {
            Ok(x) => parse_token_info(v@) == Ok::<OmniTokenInfoView, DecodeError>(x@),
            Err(e) => parse_token_info(v@) == Err::<OmniTokenInfoView, DecodeError>(e),
        },
{
    let fields = get_entries(v, "OmniTokenInfo")?;
    let token_id = read_text(fields, "token_id")?;
    let name = read_text(fields, "name")?;
    let symbol = read_text(fields, "symbol")?;
    let decimals = read_u8(fields, "decimals")?;
    let usd_price = read_double(fields, "usd_price")?;
    Ok(OmniTokenInfo { token_id, name, symbol, decimals, usd_price })
}

/// Whether `tag` names a variant of [`OmniEnrichmentData`]. Documents call
/// the data that is not computed yet `None`.
pub open spec fn enrichment_tag(tag: Seq<char>) -> bool {
    ||| tag == "None"@
    ||| tag == "NotApplicable"@
    ||| tag == "Data"@
}

/// What the body of the variant `Data` says.
pub open spec fn parse_enrichment_data(v: ValueView) -> Result<
    OmniEnrichmentDataView,
    DecodeError,
> {
    match entries_in(v, "OmniEnrichmentData") {
        Err(e) => Err(e),
        Ok(entries) => {
            let transferred_token_info = optional_as(
                entries,
                "transferred_token_info",
                |v: ValueView| parse_token_info(v),
            );
            let native_token_info = field_as(
                entries,
                "native_token_info",
                |v: ValueView| parse_token_info(v),
            );
            if transferred_token_info is Err {
                Err(transferred_token_info->Err_0)
            } else if native_token_info is Err {
                Err(native_token_info->Err_0)
            } else {
                Ok(
                    OmniEnrichmentDataView::Data {
                        transferred_token_info: transferred_token_info->Ok_0,
                        native_token_info: native_token_info->Ok_0,
                    },
                )
            }
        },
    }
}

/// What a value says as [`OmniEnrichmentData`]: the bare tag `None` or
/// `NotApplicable`, or the tag `Data` with its body.
pub open spec fn parse_enrichment(v: ValueView) -> Result<OmniEnrichmentDataView, DecodeError> {
    match tagged_in(v, "OmniEnrichmentData") {
        Err(e) => Err(e),
        Ok(Tagged::Bare(tag)) => if tag == "None"@ {
            Ok(OmniEnrichmentDataView::NotComputed)
        } else if tag == "NotApplicable"@ {
            Ok(OmniEnrichmentDataView::NotApplicable)
        } else if tag == "Data"@ {
            Err(failure(Fault::WrongType, "OmniEnrichmentData"))
        } else {
            Err(failure(Fault::UnknownVariant, "OmniEnrichmentData"))
        },
        Ok(Tagged::Body(tag, body)) => if tag == "Data"@ {
            parse_enrichment_data(body)
        } else if enrichment_tag(tag) {
            Err(failure(Fault::WrongType, "OmniEnrichmentData"))
        } else {
            Err(failure(Fault::UnknownVariant, "OmniEnrichmentData"))
        },
    }
}

/// The pricing data stored in the field `key`: data that is not computed yet
/// where the field is absent, and what the field says where it is there.
pub open spec fn enrichment_field(entries: Entries, key: &'static str) -> Result<
    OmniEnrichmentDataView,
    DecodeError,
> {
    match lookup(entries, key@) {
        Some(v) => parse_enrichment(v),
        None => Ok(OmniEnrichmentDataView::NotComputed),
    }
}

fn decode_enrichment_data(v: &Value) -> (r: Result<OmniEnrichmentData, DecodeError>)
    ensures
        match r {
            Ok(x) => parse_enrichment_data(v@) == Ok::<OmniEnrichmentDataView, DecodeError>(x@),
            Err(e) => parse_enrichment_data(v@) == Err::<OmniEnrichmentDataView, DecodeError>(e),
        },
{
    let fields = get_entries(v, "OmniEnrichmentData")?;
    let transferred_token_info = match present(fields, "transferred_token_info") {
        Some(v) => Some(decode_token_info(v)?),
        None => None,
    };
    let native_token_info = decode_token_info(require(fields, "native_token_info")?)?;
    Ok(OmniEnrichmentData::Data { transferred_token_info, native_token_info })
}

/// Reads a value as [`OmniEnrichmentData`].
pub fn decode_enrichment(v: &Value) -> (r: Result<OmniEnrichmentData, DecodeError>)
    ensures
        match r {
            Ok(x) => parse_enrichment(v@) == Ok::<OmniEnrichmentDataView, DecodeError>(x@),
            Err(e) => parse_enrichment(v@) == Err::<OmniEnrichmentDataView, DecodeError>(e),
        },
{
    match get_variant(v, "OmniEnrichmentData")? {
        Variant::Bare(tag) => {
            if same_text(tag, "None") {
                Ok(OmniEnrichmentData::NotComputed)
            } else if same_text(tag, "NotApplicable") {
                Ok(OmniEnrichmentData::NotApplicable)
            } else if same_text(tag, "Data") {
                Err(DecodeError { fault: Fault::WrongType, at: "OmniEnrichmentData" })
            } else {
                Err(DecodeError { fault: Fault::UnknownVariant, at: "OmniEnrichmentData" })
            }
        },
        Variant::Body(tag, body) => {
            if same_text(tag, "Data") {
                decode_enrichment_data(body)
            } else if same_text(tag, "None") || same_text(tag, "NotApplicable") {
                Err(DecodeError { fault: Fault::WrongType, at: "OmniEnrichmentData" })
            } else {
                Err(DecodeError { fault: Fault::UnknownVariant, at: "OmniEnrichmentData" })
            }
        },
    }
}

/// Reads the pricing data of the field `key`.
pub fn read_enrichment(fields: &Vec<Field>, key: &'static str) -> (r: Result<
    OmniEnrichmentData,
    DecodeError,
>)
    ensures
        match r {
            Ok(x) => enrichment_field(entries_of(fields@), key) == Ok::<
                OmniEnrichmentDataView,
                DecodeError,
            >(x@),
            Err(e) => enrichment_field(entries_of(fields@), key) == Err::<
                OmniEnrichmentDataView,
                DecodeError,
            >(e),
        },
{
    match find(fields, key) {
        Some(v) => decode_enrichment(v),
        None => Ok(OmniEnrichmentData::NotComputed),
    }
}

/// A tag that names no variant of [`OmniEnrichmentData`] is refused, written
/// bare or with a body, and so is a field that holds it: it does not read as
/// data that is not computed yet.
pub proof fn law_unknown_enrichment_tag(tag: Seq<char>, body: ValueView)
    requires
        !enrichment_tag(tag),
    ensures
        parse_enrichment(ValueView::Text(tag)) == Err::<OmniEnrichmentDataView, DecodeError>(
            failure(Fault::UnknownVariant, "OmniEnrichmentData"),
        ),
        parse_enrichment(ValueView::Document(seq![(tag, body)])) == Err::<
            OmniEnrichmentDataView,
            DecodeError,
        >(failure(Fault::UnknownVariant, "OmniEnrichmentData")),
        forall|entries: Entries, key: &'static str|
            lookup(entries, key@) == Some(ValueView::Text(tag)) || lookup(entries, key@) == Some(
                ValueView::Document(seq![(tag, body)]),
            ) ==> #[trigger] enrichment_field(entries, key) is Err,
{
    assert(seq![(tag, body)].len() == 1 && seq![(tag, body)][0] == (tag, body));
}

/// What a document says as [`TransferMessage`]: the value of its fields, or the
/// failure of the first field, in the order of declaration, that cannot be
/// read.
pub open spec fn parse_near_transfer(v: ValueView) -> Result<TransferMessageView, DecodeError> {
    match entries_in(v, "TransferMessage") {
        Err(e) => Err(e),
        Ok(entries) => {
            let origin_nonce = u64_field(entries, "origin_nonce");
            let token = field_as(entries, "token", |v: ValueView| parse_address(v));
            let amount = amount_field(entries, "amount");
            let recipient = field_as(entries, "recipient", |v: ValueView| parse_address(v));
            let fee = amount_field(entries, "fee");
            let sender = field_as(entries, "sender", |v: ValueView| parse_address(v));
            let msg = text_field(entries, "msg");
            let destination_nonce = u64_field(entries, "destination_nonce");
            if origin_nonce is Err {
                Err(origin_nonce->Err_0)
            } else if token is Err {
                Err(token->Err_0)
            } else if amount is Err {
                Err(amount->Err_0)
            } else if recipient is Err {
                Err(recipient->Err_0)
            } else if fee is Err {
                Err(fee->Err_0)
            } else if sender is Err {
                Err(sender->Err_0)
            } else if msg is Err {
                Err(msg->Err_0)
            } else if destination_nonce is Err {
                Err(destination_nonce->Err_0)
            } else {
                Ok(
                    TransferMessageView {
                        origin_nonce: origin_nonce->Ok_0,
                        token: token->Ok_0,
                        amount: amount->Ok_0,
                        recipient: recipient->Ok_0,
                        fee: fee->Ok_0,
                        sender: sender->Ok_0,
                        msg: msg->Ok_0,
                        destination_nonce: destination_nonce->Ok_0,
                    },
                )
            }
        },
    }
}

/// Reads a document as [`TransferMessage`].
pub fn decode_near_transfer(v: &Value) -> (r: Result<TransferMessage, DecodeError>)
    ensures
        match r {
            Ok(x) => parse_near_transfer(v@) == Ok::<TransferMessageView, DecodeError>(x@),
            Err(e) => parse_near_transfer(v@) == Err::<TransferMessageView, DecodeError>(e),
        },
{
    let fields = get_entries(v, "TransferMessage")?;
    let origin_nonce = read_u64(fields, "origin_nonce")?;
    let token = decode_address(require(fields, "token")?)?;
    let amount = read_amount_field(fields, "amount")?;
    let recipient = decode_address(require(fields, "recipient")?)?;
    let fee = read_amount_field(fields, "fee")?;
    let sender = decode_address(require(fields, "sender")?)?;
    let msg = read_text(fields, "msg")?;
    let destination_nonce = read_u64(fields, "destination_nonce")?;
    Ok(
        TransferMessage {
            origin_nonce,
            token,
            amount,
            recipient,
            fee,
            sender,
            msg,
            destination_nonce,
        },
    )
}

/// What a document says as [`SignTransferEvent`]: the value of its fields, or the
/// failure of the first field, in the order of declaration, that cannot be
/// read.
pub open spec fn parse_sign_transfer(v: ValueView) -> Result<SignTransferEventView, DecodeError> {
    match entries_in(v, "SignTransferEvent") {
        Err(e) => Err(e),
        Ok(entries) => {
            let signature = text_field(entries, "signature");
            let transfer_id = field_as(entries, "transfer_id", |v: ValueView| parse_transfer_id(v));
            let token = field_as(entries, "token", |v: ValueView| parse_address(v));
            let amount = amount_field(entries, "amount");
            let recipient = field_as(entries, "recipient", |v: ValueView| parse_address(v));
            let fee_recipient = optional_text_field(entries, "fee_recipient");
            let destination_nonce = u64_field(entries, "destination_nonce");
            if signature is Err {
                Err(signature->Err_0)
            } else if transfer_id is Err {
                Err(transfer_id->Err_0)
            } else if token is Err {
                Err(token->Err_0)
            } else if amount is Err {
                Err(amount->Err_0)
            } else if recipient is Err {
                Err(recipient->Err_0)
            } else if fee_recipient is Err {
                Err(fee_recipient->Err_0)
            } else if destination_nonce is Err {
                Err(destination_nonce->Err_0)
            } else {
                Ok(
                    SignTransferEventView {
                        signature: signature->Ok_0,
                        transfer_id: transfer_id->Ok_0,
                        token: token->Ok_0,
                        amount: amount->Ok_0,
                        recipient: recipient->Ok_0,
                        fee_recipient: fee_recipient->Ok_0,
                        destination_nonce: destination_nonce->Ok_0,
                    },
                )
            }
        },
    }
}

/// Reads a document as [`SignTransferEvent`].
pub fn decode_sign_transfer(v: &Value) -> (r: Result<SignTransferEvent, DecodeError>)
    ensures
        match r {
            Ok(x) => parse_sign_transfer(v@) == Ok::<SignTransferEventView, DecodeError>(x@),
            Err(e) => parse_sign_transfer(v@) == Err::<SignTransferEventView, DecodeError>(e),
        },
{
    let fields = get_entries(v, "SignTransferEvent")?;
    let signature = read_text(fields, "signature")?;
    let transfer_id = decode_transfer_id(require(fields, "transfer_id")?)?;
    let token = decode_address(require(fields, "token")?)?;
    let amount = read_amount_field(fields, "amount")?;
    let recipient = decode_address(require(fields, "recipient")?)?;
    let fee_recipient = read_optional_text(fields, "fee_recipient")?;
    let destination_nonce = read_u64(fields, "destination_nonce")?;
    Ok(
        SignTransferEvent {
            signature,
            transfer_id,
            token,
            amount,
            recipient,
            fee_recipient,
            destination_nonce,
        },
    )
}

/// What a document says as [`InitTransferMessage`]: the value of its fields, or the
/// failure of the first field, in the order of declaration, that cannot be
/// read.
pub open spec fn parse_init_transfer(v: ValueView) -> Result<InitTransferMessageView, DecodeError> {
    match entries_in(v, "InitTransferMessage") {
        Err(e) => Err(e),
        Ok(entries) => {
            let origin_nonce = u64_field(entries, "origin_nonce");
            let token = field_as(entries, "token", |v: ValueView| parse_address(v));
            let amount = amount_field(entries, "amount");
            let recipient = field_as(entries, "recipient", |v: ValueView| parse_address(v));
            let fee = amount_field(entries, "fee");
            let sender = field_as(entries, "sender", |v: ValueView| parse_address(v));
            let msg = text_field(entries, "msg");
            if origin_nonce is Err {
                Err(origin_nonce->Err_0)
            } else if token is Err {
                Err(token->Err_0)
            } else if amount is Err {
                Err(amount->Err_0)
            } else if recipient is Err {
                Err(recipient->Err_0)
            } else if fee is Err {
                Err(fee->Err_0)
            } else if sender is Err {
                Err(sender->Err_0)
            } else if msg is Err {
                Err(msg->Err_0)
            } else {
                Ok(
                    InitTransferMessageView {
                        origin_nonce: origin_nonce->Ok_0,
                        token: token->Ok_0,
                        amount: amount->Ok_0,
                        recipient: recipient->Ok_0,
                        fee: fee->Ok_0,
                        sender: sender->Ok_0,
                        msg: msg->Ok_0,
                    },
                )
            }
        },
    }
}

/// Reads a document as [`InitTransferMessage`].
pub fn decode_init_transfer(v: &Value) -> (r: Result<InitTransferMessage, DecodeError>)
    ensures
        match r {
            Ok(x) => parse_init_transfer(v@) == Ok::<InitTransferMessageView, DecodeError>(x@),
            Err(e) => parse_init_transfer(v@) == Err::<InitTransferMessageView, DecodeError>(e),
        },
{
    let fields = get_entries(v, "InitTransferMessage")?;
    let origin_nonce = read_u64(fields, "origin_nonce")?;
    let token = decode_address(require(fields, "token")?)?;
    let amount = read_amount_field(fields, "amount")?;
    let recipient = decode_address(require(fields, "recipient")?)?;
    let fee = read_amount_field(fields, "fee")?;
    let sender = decode_address(require(fields, "sender")?)?;
    let msg = read_text(fields, "msg")?;
    Ok(InitTransferMessage { origin_nonce, token, amount, recipient, fee, sender, msg })
}

/// What a document says as [`FinTransferMessage`]: the value of its fields, or the
/// failure of the first field, in the order of declaration, that cannot be
/// read.
pub open spec fn parse_fin_transfer(v: ValueView) -> Result<FinTransferMessageView, DecodeError> {
    match entries_in(v, "FinTransferMessage") {
        Err(e) => Err(e),
        Ok(entries) => {
            let transfer_id = field_as(entries, "transfer_id", |v: ValueView| parse_transfer_id(v));
            let fee_recipient = text_field(entries, "fee_recipient");
            let amount = amount_field(entries, "amount");
            let emitter = field_as(entries, "emitter", |v: ValueView| parse_address(v));
            if transfer_id is Err {
                Err(transfer_id->Err_0)
            } else if fee_recipient is Err {
                Err(fee_recipient->Err_0)
            } else if amount is Err {
                Err(amount->Err_0)
            } else if emitter is Err {
                Err(emitter->Err_0)
            } else {
                Ok(
                    FinTransferMessageView {
                        transfer_id: transfer_id->Ok_0,
                        fee_recipient: fee_recipient->Ok_0,
                        amount: amount->Ok_0,
                        emitter: emitter->Ok_0,
                    },
                )
            }
        },
    }
}

/// Reads a document as [`FinTransferMessage`].
pub fn decode_fin_transfer(v: &Value) -> (r: Result<FinTransferMessage, DecodeError>)
    ensures
        match r {
            Ok(x) => parse_fin_transfer(v@) == Ok::<FinTransferMessageView, DecodeError>(x@),
            Err(e) => parse_fin_transfer(v@) == Err::<FinTransferMessageView, DecodeError>(e),
        },
{
    let fields = get_entries(v, "FinTransferMessage")?;
    let transfer_id = decode_transfer_id(require(fields, "transfer_id")?)?;
    let fee_recipient = read_text(fields, "fee_recipient")?;
    let amount = read_amount_field(fields, "amount")?;
    let emitter = decode_address(require(fields, "emitter")?)?;
    Ok(FinTransferMessage { transfer_id, fee_recipient, amount, emitter })
}

/// What a document says as [`SolanaInitTransferMessage`]: the value of its fields, or the
/// failure of the first field, in the order of declaration, that cannot be
/// read.
pub open spec fn parse_solana_init_transfer(v: ValueView) -> Result<
    SolanaInitTransferMessageView,
    DecodeError,
> {
    match entries_in(v, "SolanaInitTransferMessage") {
        Err(e) => Err(e),
        Ok(entries) => {
            let amount = amount_field(entries, "amount");
            let fee = amount_field(entries, "fee");
            let token = field_as(entries, "token", |v: ValueView| parse_address(v));
            let recipient = field_as(entries, "recipient", |v: ValueView| parse_address(v));
            let sender = field_as(entries, "sender", |v: ValueView| parse_address(v));
            let origin_nonce = u64_field(entries, "origin_nonce");
            let emitter = optional_text_field(entries, "emitter");
            if amount is Err {
                Err(amount->Err_0)
            } else if fee is Err {
                Err(fee->Err_0)
            } else if token is Err {
                Err(token->Err_0)
            } else if recipient is Err {
                Err(recipient->Err_0)
            } else if sender is Err {
                Err(sender->Err_0)
            } else if origin_nonce is Err {
                Err(origin_nonce->Err_0)
            } else if emitter is Err {
                Err(emitter->Err_0)
            } else {
                Ok(
                    SolanaInitTransferMessageView {
                        amount: amount->Ok_0,
                        fee: fee->Ok_0,
                        token: token->Ok_0,
                        recipient: recipient->Ok_0,
                        sender: sender->Ok_0,
                        origin_nonce: origin_nonce->Ok_0,
                        emitter: emitter->Ok_0,
                    },
                )
            }
        },
    }
}

/// Reads a document as [`SolanaInitTransferMessage`].
pub fn decode_solana_init_transfer(v: &Value) -> (r: Result<SolanaInitTransferMessage, DecodeError>)
    ensures
        match r {
            Ok(x) => {
                parse_solana_init_transfer(v@) == Ok::<SolanaInitTransferMessageView, DecodeError>(
                    x@,
                )
            },
            Err(e) => {
                parse_solana_init_transfer(v@) == Err::<SolanaInitTransferMessageView, DecodeError>(
                    e,
                )
            },
        },
{
    let fields = get_entries(v, "SolanaInitTransferMessage")?;
    let amount = read_amount_field(fields, "amount")?;
    let fee = read_amount_field(fields, "fee")?;
    let token = decode_address(require(fields, "token")?)?;
    let recipient = decode_address(require(fields, "recipient")?)?;
    let sender = decode_address(require(fields, "sender")?)?;
    let origin_nonce = read_u64(fields, "origin_nonce")?;
    let emitter = read_optional_text(fields, "emitter")?;
    Ok(SolanaInitTransferMessage { amount, fee, token, recipient, sender, origin_nonce, emitter })
}

/// What a document says as [`SolanaFinTransferMessage`]: the value of its fields, or the
/// failure of the first field, in the order of declaration, that cannot be
/// read.
pub open spec fn parse_solana_fin_transfer(v: ValueView) -> Result<
    SolanaFinTransferMessageView,
    DecodeError,
> {
    match entries_in(v, "SolanaFinTransferMessage") {
        Err(e) => Err(e),
        Ok(entries) => {
            let amount = amount_field(entries, "amount");
            let destination_nonce = u64_field(entries, "destination_nonce");
            let fee_recipient = optional_text_field(entries, "fee_recipient");
            let emitter = optional_text_field(entries, "emitter");
            let sequence = optional_u64_field(entries, "sequence");
            if amount is Err {
                Err(amount->Err_0)
            } else if destination_nonce is Err {
                Err(destination_nonce->Err_0)
            } else if fee_recipient is Err {
                Err(fee_recipient->Err_0)
            } else if emitter is Err {
                Err(emitter->Err_0)
            } else if sequence is Err {
                Err(sequence->Err_0)
            } else {
                Ok(
                    SolanaFinTransferMessageView {
                        amount: amount->Ok_0,
                        destination_nonce: destination_nonce->Ok_0,
                        fee_recipient: fee_recipient->Ok_0,
                        emitter: emitter->Ok_0,
                        sequence: sequence->Ok_0,
                    },
                )
            }
        },
    }
}

/// Reads a document as [`SolanaFinTransferMessage`].
pub fn decode_solana_fin_transfer(v: &Value) -> (r: Result<SolanaFinTransferMessage, DecodeError>)
    ensures
        match r {
            Ok(x) => {
                parse_solana_fin_transfer(v@) == Ok::<SolanaFinTransferMessageView, DecodeError>(x@)
            },
            Err(e) => {
                parse_solana_fin_transfer(v@) == Err::<SolanaFinTransferMessageView, DecodeError>(e)
            },
        },
{
    let fields = get_entries(v, "SolanaFinTransferMessage")?;
    let amount = read_amount_field(fields, "amount")?;
    let destination_nonce = read_u64(fields, "destination_nonce")?;
    let fee_recipient = read_optional_text(fields, "fee_recipient")?;
    let emitter = read_optional_text(fields, "emitter")?;
    let sequence = read_optional_u64(fields, "sequence")?;
    Ok(SolanaFinTransferMessage { amount, destination_nonce, fee_recipient, emitter, sequence })
}

/// Whether `tag` names a variant of [`OmniTransferMessage`].
pub open spec fn transfer_message_tag(tag: Seq<char>) -> bool {
    ||| tag == "NearTransferMessage"@
    ||| tag == "NearSignTransferEvent"@
    ||| tag == "NearClaimFeeEvent"@
    ||| tag == "EvmInitTransferMessage"@
    ||| tag == "EvmFinTransferMessage"@
    ||| tag == "SolanaInitTransfer"@
    ||| tag == "SolanaFinTransfer"@
}

/// What a value says as [`OmniTransferMessage`]: a document of one entry, whose key names
/// the variant and whose value is the variant's body.
pub open spec fn parse_transfer_message(v: ValueView) -> Result<
    OmniTransferMessageView,
    DecodeError,
> {
    match tagged_in(v, "OmniTransferMessage") {
        Err(e) => Err(e),
        Ok(Tagged::Bare(tag)) => Err(
            failure(
                if transfer_message_tag(tag) {
                    Fault::WrongType
                } else {
                    Fault::UnknownVariant
                },
                "OmniTransferMessage",
            ),
        ),
        Ok(Tagged::Body(tag, body)) => if tag == "NearTransferMessage"@ {
            match parse_near_transfer(body) {
                Ok(x) => Ok(OmniTransferMessageView::NearTransferMessage(x)),
                Err(e) => Err(e),
            }
        } else if tag == "NearSignTransferEvent"@ {
            match parse_sign_transfer(body) {
                Ok(x) => Ok(OmniTransferMessageView::NearSignTransferEvent(x)),
                Err(e) => Err(e),
            }
        } else if tag == "NearClaimFeeEvent"@ {
            match parse_near_transfer(body) {
                Ok(x) => Ok(OmniTransferMessageView::NearClaimFeeEvent(x)),
                Err(e) => Err(e),
            }
        } else if tag == "EvmInitTransferMessage"@ {
            match parse_init_transfer(body) {
                Ok(x) => Ok(OmniTransferMessageView::EvmInitTransferMessage(x)),
                Err(e) => Err(e),
            }
        } else if tag == "EvmFinTransferMessage"@ {
            match parse_fin_transfer(body) {
                Ok(x) => Ok(OmniTransferMessageView::EvmFinTransferMessage(x)),
                Err(e) => Err(e),
            }
        } else if tag == "SolanaInitTransfer"@ {
            match parse_solana_init_transfer(body) {
                Ok(x) => Ok(OmniTransferMessageView::SolanaInitTransfer(x)),
                Err(e) => Err(e),
            }
        } else if tag == "SolanaFinTransfer"@ {
            match parse_solana_fin_transfer(body) {
                Ok(x) => Ok(OmniTransferMessageView::SolanaFinTransfer(x)),
                Err(e) => Err(e),
            }
        } else {
            Err(failure(Fault::UnknownVariant, "OmniTransferMessage"))
        },
    }
}

fn is_transfer_message_tag(tag: &str) -> (known: bool)
    ensures
        known == transfer_message_tag(tag@),
{
    same_text(tag, "NearTransferMessage")
        || same_text(tag, "NearSignTransferEvent")
        || same_text(tag, "NearClaimFeeEvent")
        || same_text(tag, "EvmInitTransferMessage")
        || same_text(tag, "EvmFinTransferMessage")
        || same_text(tag, "SolanaInitTransfer")
        || same_text(tag, "SolanaFinTransfer")
}

/// Reads a value as [`OmniTransferMessage`].
pub fn decode_transfer_message(v: &Value) -> (r: Result<OmniTransferMessage, DecodeError>)
    ensures
        match r {
            Ok(x) => parse_transfer_message(v@) == Ok::<OmniTransferMessageView, DecodeError>(x@),
            Err(e) => parse_transfer_message(v@) == Err::<OmniTransferMessageView, DecodeError>(e),
        },
{
    match get_variant(v, "OmniTransferMessage")? {
        Variant::Bare(tag) => {
            let fault = if is_transfer_message_tag(tag) {
                Fault::WrongType
            } else {
                Fault::UnknownVariant
            };
            Err(DecodeError { fault, at: "OmniTransferMessage" })
        },
        Variant::Body(tag, body) => {
            if same_text(tag, "NearTransferMessage") {
                Ok(OmniTransferMessage::NearTransferMessage(decode_near_transfer(body)?))
            } else if same_text(tag, "NearSignTransferEvent") {
                Ok(OmniTransferMessage::NearSignTransferEvent(decode_sign_transfer(body)?))
            } else if same_text(tag, "NearClaimFeeEvent") {
                Ok(OmniTransferMessage::NearClaimFeeEvent(decode_near_transfer(body)?))
            } else if same_text(tag, "EvmInitTransferMessage") {
                Ok(OmniTransferMessage::EvmInitTransferMessage(decode_init_transfer(body)?))
            } else if same_text(tag, "EvmFinTransferMessage") {
                Ok(OmniTransferMessage::EvmFinTransferMessage(decode_fin_transfer(body)?))
            } else if same_text(tag, "SolanaInitTransfer") {
                Ok(OmniTransferMessage::SolanaInitTransfer(decode_solana_init_transfer(body)?))
            } else if same_text(tag, "SolanaFinTransfer") {
                Ok(OmniTransferMessage::SolanaFinTransfer(decode_solana_fin_transfer(body)?))
            } else {
                Err(DecodeError { fault: Fault::UnknownVariant, at: "OmniTransferMessage" })
            }
        },
    }
}

/// A tag that names no variant of [`OmniTransferMessage`] is refused, written bare or with
/// a body: no value is made up for it.
pub proof fn law_unknown_transfer_message_tag(tag: Seq<char>, body: ValueView)
    requires
        !transfer_message_tag(tag),
    ensures
        parse_transfer_message(ValueView::Text(tag)) == Err::<OmniTransferMessageView, DecodeError>(
            failure(Fault::UnknownVariant, "OmniTransferMessage"),
        ),
        parse_transfer_message(ValueView::Document(seq![(tag, body)])) == Err::<
            OmniTransferMessageView,
            DecodeError,
        >(failure(Fault::UnknownVariant, "OmniTransferMessage")),
{
    assert(seq![(tag, body)].len() == 1 && seq![(tag, body)][0] == (tag, body));
}

/// What a document says as [`NearReceiptOrigin`]: the value of its fields, or the
/// failure of the first field, in the order of declaration, that cannot be
/// read.
pub open spec fn parse_near_receipt(v: ValueView) -> Result<NearReceiptOriginView, DecodeError> {
    match entries_in(v, "NearReceiptOrigin") {
        Err(e) => Err(e),
        Ok(entries) => {
            let block_height = u64_field(entries, "block_height");
            let block_timestamp_nanosec = u64_field(entries, "block_timestamp_nanosec");
            let receipt_id = text_field(entries, "receipt_id");
            let contract_id = text_field(entries, "contract_id");
            let signer_id = text_field(entries, "signer_id");
            let predecessor_id = text_field(entries, "predecessor_id");
            let raw_receipt = optional_object_id_field(entries, "raw_receipt");
            let version = u32_field(entries, "version");
            if block_height is Err {
                Err(block_height->Err_0)
            } else if block_timestamp_nanosec is Err {
                Err(block_timestamp_nanosec->Err_0)
            } else if receipt_id is Err {
                Err(receipt_id->Err_0)
            } else if contract_id is Err {
                Err(contract_id->Err_0)
            } else if signer_id is Err {
                Err(signer_id->Err_0)
            } else if predecessor_id is Err {
                Err(predecessor_id->Err_0)
            } else if raw_receipt is Err {
                Err(raw_receipt->Err_0)
            } else if version is Err {
                Err(version->Err_0)
            } else {
                Ok(
                    NearReceiptOriginView {
                        block_height: block_height->Ok_0,
                        block_timestamp_nanosec: block_timestamp_nanosec->Ok_0,
                        receipt_id: receipt_id->Ok_0,
                        contract_id: contract_id->Ok_0,
                        signer_id: signer_id->Ok_0,
                        predecessor_id: predecessor_id->Ok_0,
                        raw_receipt: raw_receipt->Ok_0,
                        version: version->Ok_0,
                    },
                )
            }
        },
    }
}

/// Reads a document as [`NearReceiptOrigin`].
pub fn decode_near_receipt(v: &Value) -> (r: Result<NearReceiptOrigin, DecodeError>)
    ensures
        match r {
            Ok(x) => parse_near_receipt(v@) == Ok::<NearReceiptOriginView, DecodeError>(x@),
            Err(e) => parse_near_receipt(v@) == Err::<NearReceiptOriginView, DecodeError>(e),
        },
{
    let fields = get_entries(v, "NearReceiptOrigin")?;
    let block_height = read_u64(fields, "block_height")?;
    let block_timestamp_nanosec = read_u64(fields, "block_timestamp_nanosec")?;
    let receipt_id = read_text(fields, "receipt_id")?;
    let contract_id = read_text(fields, "contract_id")?;
    let signer_id = read_text(fields, "signer_id")?;
    let predecessor_id = read_text(fields, "predecessor_id")?;
    let raw_receipt = read_optional_object_id(fields, "raw_receipt")?;
    let version = read_u32(fields, "version")?;
    Ok(
        NearReceiptOrigin {
            block_height,
            block_timestamp_nanosec,
            receipt_id,
            contract_id,
            signer_id,
            predecessor_id,
            raw_receipt,
            version,
        },
    )
}

/// What a document says as [`EvmLogOrigin`]: the value of its fields, or the
/// failure of the first field, in the order of declaration, that cannot be
/// read.
pub open spec fn parse_evm_log(v: ValueView) -> Result<EvmLogOriginView, DecodeError> {
    match entries_in(v, "EvmLogOrigin") {
        Err(e) => Err(e),
        Ok(entries) => {
            let block_number = u64_field(entries, "block_number");
            let block_timestamp = u64_field(entries, "block_timestamp");
            let transaction_index = optional_u64_field(entries, "transaction_index");
            let log_index = optional_u64_field(entries, "log_index");
            let chain_kind = field_as(entries, "chain_kind", |v: ValueView| parse_chain(v));
            if block_number is Err {
                Err(block_number->Err_0)
            } else if block_timestamp is Err {
                Err(block_timestamp->Err_0)
            } else if transaction_index is Err {
                Err(transaction_index->Err_0)
            } else if log_index is Err {
                Err(log_index->Err_0)
            } else if chain_kind is Err {
                Err(chain_kind->Err_0)
            } else {
                Ok(
                    EvmLogOriginView {
                        block_number: block_number->Ok_0,
                        block_timestamp: block_timestamp->Ok_0,
                        transaction_index: transaction_index->Ok_0,
                        log_index: log_index->Ok_0,
                        chain_kind: chain_kind->Ok_0,
                    },
                )
            }
        },
    }
}

/// Reads a document as [`EvmLogOrigin`].
pub fn decode_evm_log(v: &Value) -> (r: Result<EvmLogOrigin, DecodeError>)
    ensures
        match r {
            Ok(x) => parse_evm_log(v@) == Ok::<EvmLogOriginView, DecodeError>(x@),
            Err(e) => parse_evm_log(v@) == Err::<EvmLogOriginView, DecodeError>(e),
        },
{
    let fields = get_entries(v, "EvmLogOrigin")?;
    let block_number = read_u64(fields, "block_number")?;
    let block_timestamp = read_u64(fields, "block_timestamp")?;
    let transaction_index = read_optional_u64(fields, "transaction_index")?;
    let log_index = read_optional_u64(fields, "log_index")?;
    let chain_kind = decode_chain(require(fields, "chain_kind")?)?;
    Ok(EvmLogOrigin { block_number, block_timestamp, transaction_index, log_index, chain_kind })
}

/// What a document says as [`SolanaTransactionOrigin`]: the value of its fields, or the
/// failure of the first field, in the order of declaration, that cannot be
/// read.
pub open spec fn parse_solana_transaction(v: ValueView) -> Result<
    SolanaTransactionOrigin,
    DecodeError,
> {
    match entries_in(v, "SolanaTransactionOrigin") {
        Err(e) => Err(e),
        Ok(entries) => {
            let slot = u64_field(entries, "slot");
            let block_time = u64_field(entries, "block_time");
            let instruction_index = u64_field(entries, "instruction_index");
            if slot is Err {
                Err(slot->Err_0)
            } else if block_time is Err {
                Err(block_time->Err_0)
            } else if instruction_index is Err {
                Err(instruction_index->Err_0)
            } else {
                Ok(
                    SolanaTransactionOrigin {
                        slot: slot->Ok_0,
                        block_time: block_time->Ok_0,
                        instruction_index: instruction_index->Ok_0,
                    },
                )
            }
        },
    }
}

/// Reads a document as [`SolanaTransactionOrigin`].
pub fn decode_solana_transaction(v: &Value) -> (r: Result<SolanaTransactionOrigin, DecodeError>)
    ensures
        r == parse_solana_transaction(v@),
{
    let fields = get_entries(v, "SolanaTransactionOrigin")?;
    let slot = read_u64(fields, "slot")?;
    let block_time = read_u64(fields, "block_time")?;
    let instruction_index = read_u64(fields, "instruction_index")?;
    Ok(SolanaTransactionOrigin { slot, block_time, instruction_index })
}

/// Whether `tag` names a variant of [`OmniTransactionOrigin`].
pub open spec fn origin_tag(tag: Seq<char>) -> bool {
    ||| tag == "NearReceipt"@
    ||| tag == "EvmLog"@
    ||| tag == "SolanaTransaction"@
}

/// What a value says as [`OmniTransactionOrigin`]: a document of one entry, whose key names
/// the variant and whose value is the variant's body.
pub open spec fn parse_origin(v: ValueView) -> Result<OmniTransactionOriginView, DecodeError> {
    match tagged_in(v, "OmniTransactionOrigin") {
        Err(e) => Err(e),
        Ok(Tagged::Bare(tag)) => Err(
            failure(
                if origin_tag(tag) {
                    Fault::WrongType
                } else {
                    Fault::UnknownVariant
                },
                "OmniTransactionOrigin",
            ),
        ),
        Ok(Tagged::Body(tag, body)) => if tag == "NearReceipt"@ {
            match parse_near_receipt(body) {
                Ok(x) => Ok(OmniTransactionOriginView::NearReceipt(x)),
                Err(e) => Err(e),
            }
        } else if tag == "EvmLog"@ {
            match parse_evm_log(body) {
                Ok(x) => Ok(OmniTransactionOriginView::EvmLog(x)),
                Err(e) => Err(e),
            }
        } else if tag == "SolanaTransaction"@ {
            match parse_solana_transaction(body) {
                Ok(x) => Ok(OmniTransactionOriginView::SolanaTransaction(x)),
                Err(e) => Err(e),
            }
        } else {
            Err(failure(Fault::UnknownVariant, "OmniTransactionOrigin"))
        },
    }
}

fn is_origin_tag(tag: &str) -> (known: bool)
    ensures
        known == origin_tag(tag@),
{
    same_text(tag, "NearReceipt")
        || same_text(tag, "EvmLog")
        || same_text(tag, "SolanaTransaction")
}

/// Reads a value as [`OmniTransactionOrigin`].
pub fn decode_origin(v: &Value) -> (r: Result<OmniTransactionOrigin, DecodeError>)
    ensures
        match r {
            Ok(x) => parse_origin(v@) == Ok::<OmniTransactionOriginView, DecodeError>(x@),
            Err(e) => parse_origin(v@) == Err::<OmniTransactionOriginView, DecodeError>(e),
        },
{
    match get_variant(v, "OmniTransactionOrigin")? {
        Variant::Bare(tag) => {
            let fault = if is_origin_tag(tag) {
                Fault::WrongType
            } else {
                Fault::UnknownVariant
            };
            Err(DecodeError { fault, at: "OmniTransactionOrigin" })
        },
        Variant::Body(tag, body) => {
            if same_text(tag, "NearReceipt") {
                Ok(OmniTransactionOrigin::NearReceipt(decode_near_receipt(body)?))
            } else if same_text(tag, "EvmLog") {
                Ok(OmniTransactionOrigin::EvmLog(decode_evm_log(body)?))
            } else if same_text(tag, "SolanaTransaction") {
                Ok(OmniTransactionOrigin::SolanaTransaction(decode_solana_transaction(body)?))
            } else {
                Err(DecodeError { fault: Fault::UnknownVariant, at: "OmniTransactionOrigin" })
            }
        },
    }
}

/// A tag that names no variant of [`OmniTransactionOrigin`] is refused, written bare or with
/// a body: no value is made up for it.
pub proof fn law_unknown_origin_tag(tag: Seq<char>, body: ValueView)
    requires
        !origin_tag(tag),
    ensures
        parse_origin(ValueView::Text(tag)) == Err::<OmniTransactionOriginView, DecodeError>(
            failure(Fault::UnknownVariant, "OmniTransactionOrigin"),
        ),
        parse_origin(ValueView::Document(seq![(tag, body)])) == Err::<
            OmniTransactionOriginView,
            DecodeError,
        >(failure(Fault::UnknownVariant, "OmniTransactionOrigin")),
{
    assert(seq![(tag, body)].len() == 1 && seq![(tag, body)][0] == (tag, body));
}

/// What a document says as [`TokenMetadata`]: the value of its fields, or the
/// failure of the first field, in the order of declaration, that cannot be
/// read.
pub open spec fn parse_token_metadata(v: ValueView) -> Result<TokenMetadataView, DecodeError> {
    match entries_in(v, "TokenMetadata") {
        Err(e) => Err(e),
        Ok(entries) => {
            let token = text_field(entries, "token");
            let name = text_field(entries, "name");
            let symbol = text_field(entries, "symbol");
            let decimals = u8_field(entries, "decimals");
            if token is Err {
                Err(token->Err_0)
            } else if name is Err {
                Err(name->Err_0)
            } else if symbol is Err {
                Err(symbol->Err_0)
            } else if decimals is Err {
                Err(decimals->Err_0)
            } else {
                Ok(
                    TokenMetadataView {
                        token: token->Ok_0,
                        name: name->Ok_0,
                        symbol: symbol->Ok_0,
                        decimals: decimals->Ok_0,
                    },
                )
            }
        },
    }
}

/// Reads a document as [`TokenMetadata`].
pub fn decode_token_metadata(v: &Value) -> (r: Result<TokenMetadata, DecodeError>)
    ensures
        match r {
            Ok(x) => parse_token_metadata(v@) == Ok::<TokenMetadataView, DecodeError>(x@),
            Err(e) => parse_token_metadata(v@) == Err::<TokenMetadataView, DecodeError>(e),
        },
{
    let fields = get_entries(v, "TokenMetadata")?;
    let token = read_text(fields, "token")?;
    let name = read_text(fields, "name")?;
    let symbol = read_text(fields, "symbol")?;
    let decimals = read_u8(fields, "decimals")?;
    Ok(TokenMetadata { token, name, symbol, decimals })
}

/// What a document says as [`TokenDeployment`]: the value of its fields, or the
/// failure of the first field, in the order of declaration, that cannot be
/// read.
pub open spec fn parse_token_deployment(v: ValueView) -> Result<TokenDeploymentView, DecodeError> {
    match entries_in(v, "TokenDeployment") {
        Err(e) => Err(e),
        Ok(entries) => {
            let token_id = text_field(entries, "token_id");
            let token_address = field_as(entries, "token_address", |v: ValueView| parse_address(v));
            let decimals = u8_field(entries, "decimals");
            let origin_decimals = u8_field(entries, "origin_decimals");
            if token_id is Err {
                Err(token_id->Err_0)
            } else if token_address is Err {
                Err(token_address->Err_0)
            } else if decimals is Err {
                Err(decimals->Err_0)
            } else if origin_decimals is Err {
                Err(origin_decimals->Err_0)
            } else {
                Ok(
                    TokenDeploymentView {
                        token_id: token_id->Ok_0,
                        token_address: token_address->Ok_0,
                        decimals: decimals->Ok_0,
                        origin_decimals: origin_decimals->Ok_0,
                    },
                )
            }
        },
    }
}

/// Reads a document as [`TokenDeployment`].
pub fn decode_token_deployment(v: &Value) -> (r: Result<TokenDeployment, DecodeError>)
    ensures
        match r {
            Ok(x) => parse_token_deployment(v@) == Ok::<TokenDeploymentView, DecodeError>(x@),
            Err(e) => parse_token_deployment(v@) == Err::<TokenDeploymentView, DecodeError>(e),
        },
{
    let fields = get_entries(v, "TokenDeployment")?;
    let token_id = read_text(fields, "token_id")?;
    let token_address = decode_address(require(fields, "token_address")?)?;
    let decimals = read_u8(fields, "decimals")?;
    let origin_decimals = read_u8(fields, "origin_decimals")?;
    Ok(TokenDeployment { token_id, token_address, decimals, origin_decimals })
}

/// What a document says as [`NativeFeeClaim`]: the value of its fields, or the
/// failure of the first field, in the order of declaration, that cannot be
/// read.
pub open spec fn parse_native_fee_claim(v: ValueView) -> Result<NativeFeeClaimView, DecodeError> {
    match entries_in(v, "NativeFeeClaim") {
        Err(e) => Err(e),
        Ok(entries) => {
            let transfer_id = field_as(entries, "transfer_id", |v: ValueView| parse_transfer_id(v));
            let recipient = field_as(entries, "recipient", |v: ValueView| parse_address(v));
            let amount = amount_field(entries, "amount");
            if transfer_id is Err {
                Err(transfer_id->Err_0)
            } else if recipient is Err {
                Err(recipient->Err_0)
            } else if amount is Err {
                Err(amount->Err_0)
            } else {
                Ok(
                    NativeFeeClaimView {
                        transfer_id: transfer_id->Ok_0,
                        recipient: recipient->Ok_0,
                        amount: amount->Ok_0,
                    },
                )
            }
        },
    }
}

/// Reads a document as [`NativeFeeClaim`].
pub fn decode_native_fee_claim(v: &Value) -> (r: Result<NativeFeeClaim, DecodeError>)
    ensures
        match r {
            Ok(x) => parse_native_fee_claim(v@) == Ok::<NativeFeeClaimView, DecodeError>(x@),
            Err(e) => parse_native_fee_claim(v@) == Err::<NativeFeeClaimView, DecodeError>(e),
        },
{
    let fields = get_entries(v, "NativeFeeClaim")?;
    let transfer_id = decode_transfer_id(require(fields, "transfer_id")?)?;
    let recipient = decode_address(require(fields, "recipient")?)?;
    let amount = read_amount_field(fields, "amount")?;
    Ok(NativeFeeClaim { transfer_id, recipient, amount })
}

/// Whether `tag` names a variant of [`OmniMetaEventDetails`].
pub open spec fn details_tag(tag: Seq<char>) -> bool {
    ||| tag == "NearLogMetadataEvent"@
    ||| tag == "NearSignLogMetadataEvent"@
    ||| tag == "NearDeployTokenEvent"@
    ||| tag == "NearBindTokenEvent"@
    ||| tag == "NearSignClaimNativeFeeEvent"@
    ||| tag == "NearClaimNativeFeeEvent"@
    ||| tag == "EvmLogMetadata"@
    ||| tag == "EvmDeployToken"@
    ||| tag == "SolanaLogMetadata"@
    ||| tag == "SolanaDeployToken"@
}

/// What a value says as [`OmniMetaEventDetails`]: a document of one entry, whose key names
/// the variant and whose value is the variant's body.
pub open spec fn parse_details(v: ValueView) -> Result<OmniMetaEventDetailsView, DecodeError> {
    match tagged_in(v, "OmniMetaEventDetails") {
        Err(e) => Err(e),
        Ok(Tagged::Bare(tag)) => Err(
            failure(
                if details_tag(tag) {
                    Fault::WrongType
                } else {
                    Fault::UnknownVariant
                },
                "OmniMetaEventDetails",
            ),
        ),
        Ok(Tagged::Body(tag, body)) => if tag == "NearLogMetadataEvent"@ {
            match parse_token_metadata(body) {
                Ok(x) => Ok(OmniMetaEventDetailsView::NearLogMetadataEvent(x)),
                Err(e) => Err(e),
            }
        } else if tag == "NearSignLogMetadataEvent"@ {
            match parse_token_metadata(body) {
                Ok(x) => Ok(OmniMetaEventDetailsView::NearSignLogMetadataEvent(x)),
                Err(e) => Err(e),
            }
        } else if tag == "NearDeployTokenEvent"@ {
            match parse_token_deployment(body) {
                Ok(x) => Ok(OmniMetaEventDetailsView::NearDeployTokenEvent(x)),
                Err(e) => Err(e),
            }
        } else if tag == "NearBindTokenEvent"@ {
            match parse_token_deployment(body) {
                Ok(x) => Ok(OmniMetaEventDetailsView::NearBindTokenEvent(x)),
                Err(e) => Err(e),
            }
        } else if tag == "NearSignClaimNativeFeeEvent"@ {
            match parse_native_fee_claim(body) {
                Ok(x) => Ok(OmniMetaEventDetailsView::NearSignClaimNativeFeeEvent(x)),
                Err(e) => Err(e),
            }
        } else if tag == "NearClaimNativeFeeEvent"@ {
            match parse_native_fee_claim(body) {
                Ok(x) => Ok(OmniMetaEventDetailsView::NearClaimNativeFeeEvent(x)),
                Err(e) => Err(e),
            }
        } else if tag == "EvmLogMetadata"@ {
            match parse_token_metadata(body) {
                Ok(x) => Ok(OmniMetaEventDetailsView::EvmLogMetadata(x)),
                Err(e) => Err(e),
            }
        } else if tag == "EvmDeployToken"@ {
            match parse_token_deployment(body) {
                Ok(x) => Ok(OmniMetaEventDetailsView::EvmDeployToken(x)),
                Err(e) => Err(e),
            }
        } else if tag == "SolanaLogMetadata"@ {
            match parse_token_metadata(body) {
                Ok(x) => Ok(OmniMetaEventDetailsView::SolanaLogMetadata(x)),
                Err(e) => Err(e),
            }
        } else if tag == "SolanaDeployToken"@ {
            match parse_token_deployment(body) {
                Ok(x) => Ok(OmniMetaEventDetailsView::SolanaDeployToken(x)),
                Err(e) => Err(e),
            }
        } else {
            Err(failure(Fault::UnknownVariant, "OmniMetaEventDetails"))
        },
    }
}

fn is_details_tag(tag: &str) -> (known: bool)
    ensures
        known == details_tag(tag@),
{
    same_text(tag, "NearLogMetadataEvent")
        || same_text(tag, "NearSignLogMetadataEvent")
        || same_text(tag, "NearDeployTokenEvent")
        || same_text(tag, "NearBindTokenEvent")
        || same_text(tag, "NearSignClaimNativeFeeEvent")
        || same_text(tag, "NearClaimNativeFeeEvent")
        || same_text(tag, "EvmLogMetadata")
        || same_text(tag, "EvmDeployToken")
        || same_text(tag, "SolanaLogMetadata")
        || same_text(tag, "SolanaDeployToken")
}

/// Reads a value as [`OmniMetaEventDetails`].
pub fn decode_details(v: &Value) -> (r: Result<OmniMetaEventDetails, DecodeError>)
    ensures
        match r {
            Ok(x) => parse_details(v@) == Ok::<OmniMetaEventDetailsView, DecodeError>(x@),
            Err(e) => parse_details(v@) == Err::<OmniMetaEventDetailsView, DecodeError>(e),
        },
{
    match get_variant(v, "OmniMetaEventDetails")? {
        Variant::Bare(tag) => {
            let fault = if is_details_tag(tag) {
                Fault::WrongType
            } else {
                Fault::UnknownVariant
            };
            Err(DecodeError { fault, at: "OmniMetaEventDetails" })
        },
        Variant::Body(tag, body) => {
            if same_text(tag, "NearLogMetadataEvent") {
                Ok(OmniMetaEventDetails::NearLogMetadataEvent(decode_token_metadata(body)?))
            } else if same_text(tag, "NearSignLogMetadataEvent") {
                Ok(OmniMetaEventDetails::NearSignLogMetadataEvent(decode_token_metadata(body)?))
            } else if same_text(tag, "NearDeployTokenEvent") {
                Ok(OmniMetaEventDetails::NearDeployTokenEvent(decode_token_deployment(body)?))
            } else if same_text(tag, "NearBindTokenEvent") {
                Ok(OmniMetaEventDetails::NearBindTokenEvent(decode_token_deployment(body)?))
            } else if same_text(tag, "NearSignClaimNativeFeeEvent") {
                Ok(
                    OmniMetaEventDetails::NearSignClaimNativeFeeEvent(
                        decode_native_fee_claim(body)?,
                    ),
                )
            } else if same_text(tag, "NearClaimNativeFeeEvent") {
                Ok(OmniMetaEventDetails::NearClaimNativeFeeEvent(decode_native_fee_claim(body)?))
            } else if same_text(tag, "EvmLogMetadata") {
                Ok(OmniMetaEventDetails::EvmLogMetadata(decode_token_metadata(body)?))
            } else if same_text(tag, "EvmDeployToken") {
                Ok(OmniMetaEventDetails::EvmDeployToken(decode_token_deployment(body)?))
            } else if same_text(tag, "SolanaLogMetadata") {
                Ok(OmniMetaEventDetails::SolanaLogMetadata(decode_token_metadata(body)?))
            } else if same_text(tag, "SolanaDeployToken") {
                Ok(OmniMetaEventDetails::SolanaDeployToken(decode_token_deployment(body)?))
            } else {
                Err(DecodeError { fault: Fault::UnknownVariant, at: "OmniMetaEventDetails" })
            }
        },
    }
}

/// A tag that names no variant of [`OmniMetaEventDetails`] is refused, written bare or with
/// a body: no value is made up for it.
pub proof fn law_unknown_details_tag(tag: Seq<char>, body: ValueView)
    requires
        !details_tag(tag),
    ensures
        parse_details(ValueView::Text(tag)) == Err::<OmniMetaEventDetailsView, DecodeError>(
            failure(Fault::UnknownVariant, "OmniMetaEventDetails"),
        ),
        parse_details(ValueView::Document(seq![(tag, body)])) == Err::<
            OmniMetaEventDetailsView,
            DecodeError,
        >(failure(Fault::UnknownVariant, "OmniMetaEventDetails")),
{
    assert(seq![(tag, body)].len() == 1 && seq![(tag, body)][0] == (tag, body));
}

/// What a document says as [`OmniTransactionEvent`]: the value of its fields, or the
/// failure of the first field, in the order of declaration, that cannot be
/// read.
pub open spec fn parse_transaction_event(v: ValueView) -> Result<
    OmniTransactionEventView,
    DecodeError,
> {
    match entries_in(v, "OmniTransactionEvent") {
        Err(e) => Err(e),
        Ok(entries) => {
            let transfer_message = field_as(
                entries, "transfer_message", |v: ValueView| parse_transfer_message(v),
            );
            let sender = optional_as(entries, "sender", |v: ValueView| parse_address(v));
            let transfer_id = field_as(entries, "transfer_id", |v: ValueView| parse_transfer_id(v));
            let status = field_as(entries, "status", |v: ValueView| parse_status(v));
            let enrichment_data = enrichment_field(entries, "enrichment_data");
            if transfer_message is Err {
                Err(transfer_message->Err_0)
            } else if sender is Err {
                Err(sender->Err_0)
            } else if transfer_id is Err {
                Err(transfer_id->Err_0)
            } else if status is Err {
                Err(status->Err_0)
            } else if enrichment_data is Err {
                Err(enrichment_data->Err_0)
            } else {
                Ok(
                    OmniTransactionEventView {
                        transfer_message: transfer_message->Ok_0,
                        sender: sender->Ok_0,
                        transfer_id: transfer_id->Ok_0,
                        status: status->Ok_0,
                        enrichment_data: enrichment_data->Ok_0,
                    },
                )
            }
        },
    }
}

/// Reads a document as [`OmniTransactionEvent`].
pub fn decode_transaction_event(v: &Value) -> (r: Result<OmniTransactionEvent, DecodeError>)
    ensures
        match r {
            Ok(x) => parse_transaction_event(v@) == Ok::<OmniTransactionEventView, DecodeError>(x@),
            Err(e) => parse_transaction_event(v@) == Err::<OmniTransactionEventView, DecodeError>(
                e,
            ),
        },
{
    let fields = get_entries(v, "OmniTransactionEvent")?;
    let transfer_message = decode_transfer_message(require(fields, "transfer_message")?)?;
    let sender = match present(fields, "sender") {
        Some(v) => Some(decode_address(v)?),
        None => None,
    };
    let transfer_id = decode_transfer_id(require(fields, "transfer_id")?)?;
    let status = decode_status(require(fields, "status")?)?;
    let enrichment_data = read_enrichment(fields, "enrichment_data")?;
    Ok(OmniTransactionEvent { transfer_message, sender, transfer_id, status, enrichment_data })
}

/// What a document says as [`OmniMetaEvent`]: the value of its fields, or the
/// failure of the first field, in the order of declaration, that cannot be
/// read.
pub open spec fn parse_meta_event(v: ValueView) -> Result<OmniMetaEventView, DecodeError> {
    match entries_in(v, "OmniMetaEvent") {
        Err(e) => Err(e),
        Ok(entries) => {
            let details = field_as(entries, "details", |v: ValueView| parse_details(v));
            if details is Err {
                Err(details->Err_0)
            } else {
                Ok(
                    OmniMetaEventView {
                        details: details->Ok_0,
                    },
                )
            }
        },
    }
}

/// Reads a document as [`OmniMetaEvent`].
pub fn decode_meta_event(v: &Value) -> (r: Result<OmniMetaEvent, DecodeError>)
    ensures
        match r {
            Ok(x) => parse_meta_event(v@) == Ok::<OmniMetaEventView, DecodeError>(x@),
            Err(e) => parse_meta_event(v@) == Err::<OmniMetaEventView, DecodeError>(e),
        },
{
    let fields = get_entries(v, "OmniMetaEvent")?;
    let details = decode_details(require(fields, "details")?)?;
    Ok(OmniMetaEvent { details })
}

/// Whether `tag` names a variant of [`OmniEventData`].
pub open spec fn event_data_tag(tag: Seq<char>) -> bool {
    ||| tag == "Transaction"@
    ||| tag == "Meta"@
}

/// What a value says as [`OmniEventData`]: a document of one entry, whose key names
/// the variant and whose value is the variant's body.
pub open spec fn parse_event_data(v: ValueView) -> Result<OmniEventDataView, DecodeError> {
    match tagged_in(v, "OmniEventData") {
        Err(e) => Err(e),
        Ok(Tagged::Bare(tag)) => Err(
            failure(
                if event_data_tag(tag) {
                    Fault::WrongType
                } else {
                    Fault::UnknownVariant
                },
                "OmniEventData",
            ),
        ),
        Ok(Tagged::Body(tag, body)) => if tag == "Transaction"@ {
            match parse_transaction_event(body) {
                Ok(x) => Ok(OmniEventDataView::Transaction(x)),
                Err(e) => Err(e),
            }
        } else if tag == "Meta"@ {
            match parse_meta_event(body) {
                Ok(x) => Ok(OmniEventDataView::Meta(x)),
                Err(e) => Err(e),
            }
        } else {
            Err(failure(Fault::UnknownVariant, "OmniEventData"))
        },
    }
}

fn is_event_data_tag(tag: &str) -> (known: bool)
    ensures
        known == event_data_tag(tag@),
{
    same_text(tag, "Transaction")
        || same_text(tag, "Meta")
}

/// Reads a value as [`OmniEventData`].
pub fn decode_event_data(v: &Value) -> (r: Result<OmniEventData, DecodeError>)
    ensures
        match r {
            Ok(x) => parse_event_data(v@) == Ok::<OmniEventDataView, DecodeError>(x@),
            Err(e) => parse_event_data(v@) == Err::<OmniEventDataView, DecodeError>(e),
        },
{
    match get_variant(v, "OmniEventData")? {
        Variant::Bare(tag) => {
            let fault = if is_event_data_tag(tag) {
                Fault::WrongType
            } else {
                Fault::UnknownVariant
            };
            Err(DecodeError { fault, at: "OmniEventData" })
        },
        Variant::Body(tag, body) => {
            if same_text(tag, "Transaction") {
                Ok(OmniEventData::Transaction(decode_transaction_event(body)?))
            } else if same_text(tag, "Meta") {
                Ok(OmniEventData::Meta(decode_meta_event(body)?))
            } else {
                Err(DecodeError { fault: Fault::UnknownVariant, at: "OmniEventData" })
            }
        },
    }
}

/// A tag that names no variant of [`OmniEventData`] is refused, written bare or with
/// a body: no value is made up for it.
pub proof fn law_unknown_event_data_tag(tag: Seq<char>, body: ValueView)
    requires
        !event_data_tag(tag),
    ensures
        parse_event_data(ValueView::Text(tag)) == Err::<OmniEventDataView, DecodeError>(
            failure(Fault::UnknownVariant, "OmniEventData"),
        ),
        parse_event_data(ValueView::Document(seq![(tag, body)])) == Err::<
            OmniEventDataView,
            DecodeError,
        >(failure(Fault::UnknownVariant, "OmniEventData")),
{
    assert(seq![(tag, body)].len() == 1 && seq![(tag, body)][0] == (tag, body));
}

/// What a document says as [`OmniEvent`]: the value of its fields, or the
/// failure of the first field, in the order of declaration, that cannot be
/// read.
pub open spec fn parse_event(v: ValueView) -> Result<OmniEventView, DecodeError> {
    match entries_in(v, "OmniEvent") {
        Err(e) => Err(e),
        Ok(entries) => {
            let id = optional_object_id_field(entries, "_id");
            let transaction_id = text_field(entries, "transaction_id");
            let origin = field_as(entries, "origin", |v: ValueView| parse_origin(v));
            let event = field_as(entries, "event", |v: ValueView| parse_event_data(v));
            if id is Err {
                Err(id->Err_0)
            } else if transaction_id is Err {
                Err(transaction_id->Err_0)
            } else if origin is Err {
                Err(origin->Err_0)
            } else if event is Err {
                Err(event->Err_0)
            } else {
                Ok(
                    OmniEventView {
                        id: id->Ok_0,
                        transaction_id: transaction_id->Ok_0,
                        origin: origin->Ok_0,
                        event: event->Ok_0,
                    },
                )
            }
        },
    }
}

/// Reads a document as [`OmniEvent`].
pub fn decode_event(v: &Value) -> (r: Result<OmniEvent, DecodeError>)
    ensures
        match r {
            Ok(x) => parse_event(v@) == Ok::<OmniEventView, DecodeError>(x@),
            Err(e) => parse_event(v@) == Err::<OmniEventView, DecodeError>(e),
        },
{
    let fields = get_entries(v, "OmniEvent")?;
    let id = read_optional_object_id(fields, "_id")?;
    let transaction_id = read_text(fields, "transaction_id")?;
    let origin = decode_origin(require(fields, "origin")?)?;
    let event = decode_event_data(require(fields, "event")?)?;
    Ok(OmniEvent { id, transaction_id, origin, event })
}

/// A field that [`OmniEvent`] does not name, put after the fields of a
/// document or before them, does not change what the document says.
pub proof fn law_event_passes_over_other_fields(entries: Entries, k: Seq<char>, v: ValueView)
    requires
        k != "_id"@,
        k != "transaction_id"@,
        k != "origin"@,
        k != "event"@,
    ensures
        parse_event(ValueView::Document(entries.push((k, v)))) == parse_event(
            ValueView::Document(entries),
        ),
        parse_event(ValueView::Document(seq![(k, v)] + entries)) == parse_event(
            ValueView::Document(entries),
        ),
{
    law_other_entries_are_passed_over(entries, k, v, "_id"@);
    law_other_entries_are_passed_over(entries, k, v, "transaction_id"@);
    law_other_entries_are_passed_over(entries, k, v, "origin"@);
    law_other_entries_are_passed_over(entries, k, v, "event"@);
}

} // verus!
