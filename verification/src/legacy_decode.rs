//! Reading documents as events of the earlier layout.
//!
//! The earlier layout writes pricing data as the present one does, and holds
//! the kind of event inline: the document of an event has a field named
//! `Transaction` or `Meta` beside its other fields.

use crate::decode::{
    decode_address, decode_details, decode_enrichment, decode_origin, decode_status,
    decode_transfer_id, decode_transfer_message, parse_address, parse_details, parse_enrichment,
    parse_origin, parse_status, parse_transfer_id, parse_transfer_message,
};
use crate::document::{entries_of, find, lookup, same_text, Entries, Field, Value, ValueView};
use crate::error::{failure, DecodeError, Fault};
use crate::legacy::{
    OmniEnrichmentData, OmniEnrichmentDataView, OmniEventDataOld, OmniEventDataOldView,
    OmniEventOld, OmniEventOldView, OmniMetaEventOld, OmniMetaEventOldView,
    OmniTransactionEventOld, OmniTransactionEventOldView,
};
use crate::read::{
    entries_in, field_as, get_entries, optional_as, optional_object_id_field, present,
    read_optional_object_id, read_text, require, text_field,
};
use vstd::prelude::*;

verus! {

/// The pricing data of the earlier layout that says what `data` says.
pub open spec fn earlier_enrichment(
    data: crate::schema::OmniEnrichmentDataView,
) -> OmniEnrichmentDataView {
    match data {
        crate::schema::OmniEnrichmentDataView::NotComputed => OmniEnrichmentDataView::NotComputed,
        crate::schema::OmniEnrichmentDataView::NotApplicable => {
            OmniEnrichmentDataView::NotApplicable
        },
        crate::schema::OmniEnrichmentDataView::Data {
            transferred_token_info,
            native_token_info,
        } => OmniEnrichmentDataView::Data { transferred_token_info, native_token_info },
    }
}

/// The pricing data stored in the field `key`: data that is not computed yet
/// where the field is absent, and what the field says where it is there.
pub open spec fn earlier_enrichment_field(entries: Entries, key: &'static str) -> Result<
    OmniEnrichmentDataView,
    DecodeError,
> {
    match lookup(entries, key@) {
        Some(v) => match parse_enrichment(v) {
            Ok(data) => Ok(earlier_enrichment(data)),
            Err(e) => Err(e),
        },
        None => Ok(OmniEnrichmentDataView::NotComputed),
    }
}

/// Reads the pricing data of the field `key`.
pub fn read_earlier_enrichment(fields: &Vec<Field>, key: &'static str) -> (r: Result<
    OmniEnrichmentData,
    DecodeError,
>)
    ensures
        match r {
            Ok(x) => earlier_enrichment_field(entries_of(fields@), key) == Ok::<
                OmniEnrichmentDataView,
                DecodeError,
            >(x@),
            Err(e) => earlier_enrichment_field(entries_of(fields@), key) == Err::<
                OmniEnrichmentDataView,
                DecodeError,
            >(e),
        },
{
    match find(fields, key) {
        Some(v) => match decode_enrichment(v)? {
            crate::schema::OmniEnrichmentData::NotComputed => Ok(OmniEnrichmentData::NotComputed),
            crate::schema::OmniEnrichmentData::NotApplicable => Ok(
                OmniEnrichmentData::NotApplicable,
            ),
            crate::schema::OmniEnrichmentData::Data {
                transferred_token_info,
                native_token_info,
            } => Ok(OmniEnrichmentData::Data { transferred_token_info, native_token_info }),
        },
        None => Ok(OmniEnrichmentData::NotComputed),
    }
}

/// What a document says as [`OmniTransactionEventOld`]: the value of its fields, or the
/// failure of the first field, in the order of declaration, that cannot be
/// read.
pub open spec fn parse_transaction_event_old(v: ValueView) -> Result<
    OmniTransactionEventOldView,
    DecodeError,
> {
    match entries_in(v, "OmniTransactionEventOld") {
        Err(e) => Err(e),
        Ok(entries) => {
            let transfer_message = field_as(
                entries, "transfer_message", |v: ValueView| parse_transfer_message(v),
            );
            let transaction_id = text_field(entries, "transaction_id");
            let origin = field_as(entries, "origin", |v: ValueView| parse_origin(v));
            let sender = optional_as(entries, "sender", |v: ValueView| parse_address(v));
            let transfer_id = field_as(entries, "transfer_id", |v: ValueView| parse_transfer_id(v));
            let status = field_as(entries, "status", |v: ValueView| parse_status(v));
            let enrichment_data = earlier_enrichment_field(entries, "enrichment_data");
            if transfer_message is Err {
                Err(transfer_message->Err_0)
            } else if transaction_id is Err {
                Err(transaction_id->Err_0)
            } else if origin is Err {
                Err(origin->Err_0)
            } else if sender is Err {
                Err(sender->Err_0)
            } else if transfer_id is Err {
                Err(transfer_id->Err_0)
            } else if status is Err {
                Err(status->Err_0)
            } else if enrichment_data is Err {
                Err(enrichment_data->Err_0)
            } else {
                Ok(
                    OmniTransactionEventOldView {
                        transfer_message: transfer_message->Ok_0,
                        transaction_id: transaction_id->Ok_0,
                        origin: origin->Ok_0,
                        sender: sender->Ok_0,
                        transfer_id: transfer_id->Ok_0,
                        status: status->Ok_0,
                        enrichment_data: enrichment_data->Ok_0,
                    },
                )
            }
        },
    }
}

/// Reads a document as [`OmniTransactionEventOld`].
pub fn decode_transaction_event_old(v: &Value) -> (r: Result<OmniTransactionEventOld, DecodeError>)
    ensures
        match r {
            Ok(x) => {
                parse_transaction_event_old(v@) == Ok::<OmniTransactionEventOldView, DecodeError>(
                    x@,
                )
            },
            Err(e) => {
                parse_transaction_event_old(v@) == Err::<OmniTransactionEventOldView, DecodeError>(
                    e,
                )
            },
        },
{
    let fields = get_entries(v, "OmniTransactionEventOld")?;
    let transfer_message = decode_transfer_message(require(fields, "transfer_message")?)?;
    let transaction_id = read_text(fields, "transaction_id")?;
    let origin = decode_origin(require(fields, "origin")?)?;
    let sender = match present(fields, "sender") {
        Some(v) => Some(decode_address(v)?),
        None => None,
    };
    let transfer_id = decode_transfer_id(require(fields, "transfer_id")?)?;
    let status = decode_status(require(fields, "status")?)?;
    let enrichment_data = read_earlier_enrichment(fields, "enrichment_data")?;
    Ok(
        OmniTransactionEventOld {
            transfer_message,
            transaction_id,
            origin,
            sender,
            transfer_id,
            status,
            enrichment_data,
        },
    )
}

/// What a document says as [`OmniMetaEventOld`]: the value of its fields, or the
/// failure of the first field, in the order of declaration, that cannot be
/// read.
pub open spec fn parse_meta_event_old(v: ValueView) -> Result<OmniMetaEventOldView, DecodeError> {
    match entries_in(v, "OmniMetaEventOld") {
        Err(e) => Err(e),
        Ok(entries) => {
            let transaction_id = text_field(entries, "transaction_id");
            let origin = field_as(entries, "origin", |v: ValueView| parse_origin(v));
            let details = field_as(entries, "details", |v: ValueView| parse_details(v));
            if transaction_id is Err {
                Err(transaction_id->Err_0)
            } else if origin is Err {
                Err(origin->Err_0)
            } else if details is Err {
                Err(details->Err_0)
            } else {
                Ok(
                    OmniMetaEventOldView {
                        transaction_id: transaction_id->Ok_0,
                        origin: origin->Ok_0,
                        details: details->Ok_0,
                    },
                )
            }
        },
    }
}

/// Reads a document as [`OmniMetaEventOld`].
pub fn decode_meta_event_old(v: &Value) -> (r: Result<OmniMetaEventOld, DecodeError>)
    ensures
        match r {
            Ok(x) => parse_meta_event_old(v@) == Ok::<OmniMetaEventOldView, DecodeError>(x@),
            Err(e) => parse_meta_event_old(v@) == Err::<OmniMetaEventOldView, DecodeError>(e),
        },
{
    let fields = get_entries(v, "OmniMetaEventOld")?;
    let transaction_id = read_text(fields, "transaction_id")?;
    let origin = decode_origin(require(fields, "origin")?)?;
    let details = decode_details(require(fields, "details")?)?;
    Ok(OmniMetaEventOld { transaction_id, origin, details })
}

/// The inline event of a document: its first entry whose key is
/// `Transaction` or `Meta`.
pub open spec fn inline_event(entries: Entries) -> Option<(Seq<char>, ValueView)>
    decreases entries.len(),
{
    if entries.len() == 0 {
        None
    } else if entries[0].0 == "Transaction"@ || entries[0].0 == "Meta"@ {
        Some(entries[0])
    } else {
        inline_event(entries.skip(1))
    }
}

/// What the entries of a document say the event is about. A document
/// without an inline event misses the field `event`.
pub open spec fn parse_event_data_old(entries: Entries) -> Result<
    OmniEventDataOldView,
    DecodeError,
> {
    match inline_event(entries) {
        None => Err(failure(Fault::MissingField, "event")),
        Some((tag, body)) => if tag == "Transaction"@ {
            match parse_transaction_event_old(body) {
                Ok(x) => Ok(OmniEventDataOldView::Transaction(x)),
                Err(e) => Err(e),
            }
        } else {
            match parse_meta_event_old(body) {
                Ok(x) => Ok(OmniEventDataOldView::Meta(x)),
                Err(e) => Err(e),
            }
        },
    }
}

/// What a document says as [`OmniEventOld`]: the value of its fields, or the
/// failure of the first of identifier, inline event and pricing data that
/// cannot be read.
pub open spec fn parse_event_old(v: ValueView) -> Result<OmniEventOldView, DecodeError> {
    match entries_in(v, "OmniEventOld") {
        Err(e) => Err(e),
        Ok(entries) => {
            let id = optional_object_id_field(entries, "_id");
            let event = parse_event_data_old(entries);
            let enrichment_data = earlier_enrichment_field(entries, "enrichment_data");
            if id is Err {
                Err(id->Err_0)
            } else if event is Err {
                Err(event->Err_0)
            } else if enrichment_data is Err {
                Err(enrichment_data->Err_0)
            } else {
                Ok(
                    OmniEventOldView {
                        id: id->Ok_0,
                        event: event->Ok_0,
                        enrichment_data: enrichment_data->Ok_0,
                    },
                )
            }
        },
    }
}

/// Reads what the fields of a document say the event is about.
pub fn read_event_data_old(fields: &Vec<Field>) -> (r: Result<OmniEventDataOld, DecodeError>)
    ensures
        match r {
            Ok(x) => parse_event_data_old(entries_of(fields@)) == Ok::<
                OmniEventDataOldView,
                DecodeError,
            >(x@),
            Err(e) => parse_event_data_old(entries_of(fields@)) == Err::<
                OmniEventDataOldView,
                DecodeError,
            >(e),
        },
{
    let ghost entries = entries_of(fields@);
    let mut i: usize = 0;
    assert(entries.skip(0) =~= entries);
    while i < fields.len()
        invariant
            i <= fields.len(),
            entries == entries_of(fields@),
            inline_event(entries) == inline_event(entries.skip(i as int)),
        decreases fields.len() - i,
    {
        let key = fields[i].key.as_str();
        if same_text(key, "Transaction") {
            return Ok(
                OmniEventDataOld::Transaction(decode_transaction_event_old(&fields[i].value)?),
            );
        }
        if same_text(key, "Meta") {
            proof {
                reveal_strlit("Transaction");
                reveal_strlit("Meta");
                assert("Transaction"@.len() == 11 && "Meta"@.len() == 4);
            }
            return Ok(OmniEventDataOld::Meta(decode_meta_event_old(&fields[i].value)?));
        }
        assert(entries.skip(i as int).skip(1) =~= entries.skip(i as int + 1));
        i += 1;
    }
    Err(DecodeError { fault: Fault::MissingField, at: "event" })
}

/// Reads a document as [`OmniEventOld`].
pub fn decode_event_old(v: &Value) -> (r: Result<OmniEventOld, DecodeError>)
    ensures
        match r {
            Ok(x) => parse_event_old(v@) == Ok::<OmniEventOldView, DecodeError>(x@),
            Err(e) => parse_event_old(v@) == Err::<OmniEventOldView, DecodeError>(e),
        },
{
    let fields = get_entries(v, "OmniEventOld")?;
    let id = read_optional_object_id(fields, "_id")?;
    let event = read_event_data_old(fields)?;
    let enrichment_data = read_earlier_enrichment(fields, "enrichment_data")?;
    Ok(OmniEventOld { id, event, enrichment_data })
}

} // verus!
