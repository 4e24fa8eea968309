//! The event records of the earlier layout, and their conversion to the
//! present one.
//!
//! The earlier layout stores the transaction and the origin inside each kind
//! of event, and keeps pricing data in two places: beside the event and
//! inside a transaction event. Conversion lifts transaction and origin to the
//! top, takes the sender from the transfer message, and lets the pricing data
//! beside the event win over the data inside it.

use crate::schema::{
    optional_view, ObjectId, OmniAddress, OmniAddressView, OmniEvent, OmniEventData,
    OmniEventDataView, OmniEventView, OmniMetaEvent, OmniMetaEventDetails,
    OmniMetaEventDetailsView, OmniMetaEventView, OmniTokenInfo, OmniTokenInfoView,
    OmniTransactionEvent, OmniTransactionEventView, OmniTransactionOrigin,
    OmniTransactionOriginView, OmniTransferMessage, OmniTransferMessageView, OmniTransferStatus,
    TransferId,
};
use vstd::prelude::*;
use vstd::std_specs::convert::FromSpecImpl;

verus! {

/// Pricing data as the earlier layout holds it.
#[derive(Debug, PartialEq, Eq)]
pub enum OmniEnrichmentData {
    /// Not computed yet; documents call this variant `None` and leave the
    /// field out.
    NotComputed,
    /// Enrichment does not apply to the event.
    NotApplicable,
    Data {
        /// The transferred token, where it is not the native token.
        transferred_token_info: Option<OmniTokenInfo>,
        native_token_info: OmniTokenInfo,
    },
}

/// The mathematical form of [`OmniEnrichmentData`].
pub ghost enum OmniEnrichmentDataView {
    NotComputed,
    NotApplicable,
    Data {
        transferred_token_info: Option<OmniTokenInfoView>,
        native_token_info: OmniTokenInfoView,
    },
}

impl View for OmniEnrichmentData {
    type V = OmniEnrichmentDataView;

    open spec fn view(&self) -> OmniEnrichmentDataView {
        match self {
            OmniEnrichmentData::NotComputed => OmniEnrichmentDataView::NotComputed,
            OmniEnrichmentData::NotApplicable => OmniEnrichmentDataView::NotApplicable,
            OmniEnrichmentData::Data {
                transferred_token_info,
                native_token_info,
            } => OmniEnrichmentDataView::Data {
                transferred_token_info: optional_view(*transferred_token_info),
                native_token_info: native_token_info@,
            },
        }
    }
}

impl Clone for OmniEnrichmentData {
    fn clone(&self) -> (copy: Self)
        ensures
            copy == *self,
    {
        match self {
            OmniEnrichmentData::NotComputed => OmniEnrichmentData::NotComputed,
            OmniEnrichmentData::NotApplicable => OmniEnrichmentData::NotApplicable,
            OmniEnrichmentData::Data {
                transferred_token_info,
                native_token_info,
            } => OmniEnrichmentData::Data {
                transferred_token_info: match transferred_token_info {
                    Some(x) => Some(x.clone()),
                    None => None,
                },
                native_token_info: native_token_info.clone(),
            },
        }
    }
}

impl Default for OmniEnrichmentData {
    fn default() -> (data: Self)
        ensures
            data == OmniEnrichmentData::NotComputed,
    {
        OmniEnrichmentData::NotComputed
    }
}

impl OmniEnrichmentData {
    /// Whether the data is still to be computed.
    pub fn is_none(&self) -> (none: bool)
        ensures
            none == (*self is NotComputed),
    {
        match self {
            OmniEnrichmentData::NotComputed => true,
            _ => false,
        }
    }
}

/// The pricing data of the present layout that says what `data` says.
pub open spec fn current_enrichment(data: OmniEnrichmentData) -> crate::schema::OmniEnrichmentData {
    match data {
        OmniEnrichmentData::NotComputed => crate::schema::OmniEnrichmentData::NotComputed,
        OmniEnrichmentData::NotApplicable => crate::schema::OmniEnrichmentData::NotApplicable,
        OmniEnrichmentData::Data {
            transferred_token_info,
            native_token_info,
        } => crate::schema::OmniEnrichmentData::Data { transferred_token_info, native_token_info },
    }
}

impl From<OmniEnrichmentData> for crate::schema::OmniEnrichmentData {
    fn from(data: OmniEnrichmentData) -> (out: Self) {
        match data {
            OmniEnrichmentData::NotComputed => crate::schema::OmniEnrichmentData::NotComputed,
            OmniEnrichmentData::NotApplicable => crate::schema::OmniEnrichmentData::NotApplicable,
            OmniEnrichmentData::Data {
                transferred_token_info,
                native_token_info,
            } => crate::schema::OmniEnrichmentData::Data {
                transferred_token_info,
                native_token_info,
            },
        }
    }
}

impl FromSpecImpl<OmniEnrichmentData> for crate::schema::OmniEnrichmentData {
    open spec fn obeys_from_spec() -> bool {
        true
    }

    open spec fn from_spec(data: OmniEnrichmentData) -> Self {
        current_enrichment(data)
    }
}

/// A transfer as one event of the earlier layout reports it.
#[derive(Debug, PartialEq, Eq)]
pub struct OmniTransactionEventOld {
    pub transfer_message: OmniTransferMessage,
    pub transaction_id: String,
    pub origin: OmniTransactionOrigin,
    /// The sender as it was stored. Conversion does not read it: the sender
    /// of the converted event comes from the transfer message.
    pub sender: Option<OmniAddress>,
    pub transfer_id: TransferId,
    pub status: OmniTransferStatus,
    /// The pricing data inside the event, read where there is none beside it.
    pub enrichment_data: OmniEnrichmentData,
}

/// The mathematical form of [`OmniTransactionEventOld`].
pub ghost struct OmniTransactionEventOldView {
    pub transfer_message: OmniTransferMessageView,
    pub transaction_id: Seq<char>,
    pub origin: OmniTransactionOriginView,
    pub sender: Option<OmniAddressView>,
    pub transfer_id: TransferId,
    pub status: OmniTransferStatus,
    pub enrichment_data: OmniEnrichmentDataView,
}

impl View for OmniTransactionEventOld {
    type V = OmniTransactionEventOldView;

    open spec fn view(&self) -> OmniTransactionEventOldView {
        OmniTransactionEventOldView {
            transfer_message: self.transfer_message@,
            transaction_id: self.transaction_id@,
            origin: self.origin@,
            sender: optional_view(self.sender),
            transfer_id: self.transfer_id,
            status: self.status,
            enrichment_data: self.enrichment_data@,
        }
    }
}

impl Clone for OmniTransactionEventOld {
    fn clone(&self) -> (copy: Self)
        ensures
            copy == *self,
    {
        OmniTransactionEventOld {
            transfer_message: self.transfer_message.clone(),
            transaction_id: self.transaction_id.clone(),
            origin: self.origin.clone(),
            sender: match &self.sender {
                Some(x) => Some(x.clone()),
                None => None,
            },
            transfer_id: self.transfer_id,
            status: self.status,
            enrichment_data: self.enrichment_data.clone(),
        }
    }
}

/// The sender that a transfer message names, if it names one.
pub open spec fn sender_of(message: OmniTransferMessage) -> Option<OmniAddress> {
    match message {
        OmniTransferMessage::NearTransferMessage(m) => Some(m.sender),
        OmniTransferMessage::NearSignTransferEvent(_) => None,
        OmniTransferMessage::NearClaimFeeEvent(m) => Some(m.sender),
        OmniTransferMessage::EvmInitTransferMessage(m) => Some(m.sender),
        OmniTransferMessage::EvmFinTransferMessage(_) => None,
        OmniTransferMessage::SolanaInitTransfer(m) => Some(m.sender),
        OmniTransferMessage::SolanaFinTransfer(_) => None,
    }
}

impl OmniTransactionEventOld {
    /// The sender of the transfer: the one that the transfer message names.
    /// Messages that complete or sign a transfer name none.
    pub fn get_sender(&self) -> (sender: Option<OmniAddress>)
        ensures
            sender == sender_of(self.transfer_message),
    {
        match &self.transfer_message {
            OmniTransferMessage::NearTransferMessage(m) => Some(m.sender.clone()),
            OmniTransferMessage::NearSignTransferEvent(_) => None,
            OmniTransferMessage::NearClaimFeeEvent(m) => Some(m.sender.clone()),
            OmniTransferMessage::EvmInitTransferMessage(m) => Some(m.sender.clone()),
            OmniTransferMessage::EvmFinTransferMessage(_) => None,
            OmniTransferMessage::SolanaInitTransfer(m) => Some(m.sender.clone()),
            OmniTransferMessage::SolanaFinTransfer(_) => None,
        }
    }
}

/// A meta event of the earlier layout.
#[derive(Debug, PartialEq, Eq)]
pub struct OmniMetaEventOld {
    pub transaction_id: String,
    pub origin: OmniTransactionOrigin,
    pub details: OmniMetaEventDetails,
}

/// The mathematical form of [`OmniMetaEventOld`].
pub ghost struct OmniMetaEventOldView {
    pub transaction_id: Seq<char>,
    pub origin: OmniTransactionOriginView,
    pub details: OmniMetaEventDetailsView,
}

impl View for OmniMetaEventOld {
    type V = OmniMetaEventOldView;

    open spec fn view(&self) -> OmniMetaEventOldView {
        OmniMetaEventOldView {
            transaction_id: self.transaction_id@,
            origin: self.origin@,
            details: self.details@,
        }
    }
}

impl Clone for OmniMetaEventOld {
    fn clone(&self) -> (copy: Self)
        ensures
            copy == *self,
    {
        OmniMetaEventOld {
            transaction_id: self.transaction_id.clone(),
            origin: self.origin.clone(),
            details: self.details.clone(),
        }
    }
}

/// What an event of the earlier layout is about.
#[derive(Debug, PartialEq, Eq)]
pub enum OmniEventDataOld {
    Transaction(OmniTransactionEventOld),
    Meta(OmniMetaEventOld),
}

/// The mathematical form of [`OmniEventDataOld`].
pub ghost enum OmniEventDataOldView {
    Transaction(OmniTransactionEventOldView),
    Meta(OmniMetaEventOldView),
}

impl View for OmniEventDataOld {
    type V = OmniEventDataOldView;

    open spec fn view(&self) -> OmniEventDataOldView {
        match self {
            OmniEventDataOld::Transaction(x) => OmniEventDataOldView::Transaction(x@),
            OmniEventDataOld::Meta(x) => OmniEventDataOldView::Meta(x@),
        }
    }
}

impl Clone for OmniEventDataOld {
    fn clone(&self) -> (copy: Self)
        ensures
            copy == *self,
    {
        match self {
            OmniEventDataOld::Transaction(x) => OmniEventDataOld::Transaction(x.clone()),
            OmniEventDataOld::Meta(x) => OmniEventDataOld::Meta(x.clone()),
        }
    }
}

/// An event in the earlier layout.
#[derive(Debug, PartialEq, Eq)]
pub struct OmniEventOld {
    /// The identifier of the stored document; none before it is stored.
    pub id: Option<ObjectId>,
    /// What the event is about. A document holds it inline: the variant's
    /// name is a field of the event's own document.
    pub event: OmniEventDataOld,
    /// The pricing data beside the event, kept whatever the event is about.
    pub enrichment_data: OmniEnrichmentData,
}

/// The mathematical form of [`OmniEventOld`].
pub ghost struct OmniEventOldView {
    pub id: Option<ObjectId>,
    pub event: OmniEventDataOldView,
    pub enrichment_data: OmniEnrichmentDataView,
}

impl View for OmniEventOld {
    type V = OmniEventOldView;

    open spec fn view(&self) -> OmniEventOldView {
        OmniEventOldView {
            id: self.id,
            event: self.event@,
            enrichment_data: self.enrichment_data@,
        }
    }
}

impl Clone for OmniEventOld {
    fn clone(&self) -> (copy: Self)
        ensures
            copy == *self,
    {
        OmniEventOld {
            id: self.id,
            event: self.event.clone(),
            enrichment_data: self.enrichment_data.clone(),
        }
    }
}

/// The transaction that an event of the earlier layout belongs to: the one
/// that its inner event names.
pub open spec fn transaction_id_of(event: OmniEventOld) -> String {
    match event.event {
        OmniEventDataOld::Transaction(tx) => tx.transaction_id,
        OmniEventDataOld::Meta(meta) => meta.transaction_id,
    }
}

/// The place that an event of the earlier layout was seen at: the one that
/// its inner event names.
pub open spec fn origin_of(event: OmniEventOld) -> OmniTransactionOrigin {
    match event.event {
        OmniEventDataOld::Transaction(tx) => tx.origin,
        OmniEventDataOld::Meta(meta) => meta.origin,
    }
}

/// The pricing data that counts: the data beside the event where it has been
/// computed, the data inside the event otherwise.
pub open spec fn effective_enrichment(
    beside: OmniEnrichmentData,
    inside: OmniEnrichmentData,
) -> OmniEnrichmentData {
    if beside is NotComputed {
        inside
    } else {
        beside
    }
}

/// The event of the present layout that an event of the earlier layout
/// becomes.
pub open spec fn converted(old: OmniEventOld) -> OmniEvent {
    OmniEvent {
        id: old.id,
        transaction_id: transaction_id_of(old),
        origin: origin_of(old),
        event: match old.event {
            OmniEventDataOld::Transaction(tx) => OmniEventData::Transaction(
                OmniTransactionEvent {
                    transfer_message: tx.transfer_message,
                    sender: sender_of(tx.transfer_message),
                    transfer_id: tx.transfer_id,
                    status: tx.status,
                    enrichment_data: current_enrichment(
                        effective_enrichment(old.enrichment_data, tx.enrichment_data),
                    ),
                },
            ),
            OmniEventDataOld::Meta(meta) => OmniEventData::Meta(
                OmniMetaEvent { details: meta.details },
            ),
        },
    }
}

impl OmniEventOld {
    /// The transaction that the event belongs to.
    pub fn get_transaction_id(&self) -> (id: String)
        ensures
            id == transaction_id_of(*self),
    {
        match &self.event {
            OmniEventDataOld::Transaction(event) => event.transaction_id.clone(),
            OmniEventDataOld::Meta(event) => event.transaction_id.clone(),
        }
    }

    /// The place that the event was seen at.
    pub fn get_origin(&self) -> (origin: OmniTransactionOrigin)
        ensures
            origin == origin_of(*self),
    {
        match &self.event {
            OmniEventDataOld::Transaction(event) => event.origin.clone(),
            OmniEventDataOld::Meta(event) => event.origin.clone(),
        }
    }
}

impl From<OmniEventOld> for OmniEvent {
    fn from(event: OmniEventOld) -> (out: Self) {
        let transaction_id = event.get_transaction_id();
        let origin = event.get_origin();
        OmniEvent {
            id: event.id,
            transaction_id,
            origin,
            event: match event.event {
                OmniEventDataOld::Transaction(tx) => {
                    let sender = tx.get_sender();
                    OmniEventData::Transaction(
                        OmniTransactionEvent {
                            transfer_message: tx.transfer_message,
                            sender,
                            transfer_id: tx.transfer_id,
                            status: tx.status,
                            enrichment_data: crate::schema::OmniEnrichmentData::from(
                                if event.enrichment_data.is_none() {
                                    tx.enrichment_data
                                } else {
                                    event.enrichment_data
                                },
                            ),
                        },
                    )
                },
                OmniEventDataOld::Meta(meta) => OmniEventData::Meta(
                    OmniMetaEvent { details: meta.details },
                ),
            },
        }
    }
}

impl FromSpecImpl<OmniEventOld> for OmniEvent {
    open spec fn obeys_from_spec() -> bool {
        true
    }

    open spec fn from_spec(event: OmniEventOld) -> Self {
        converted(event)
    }
}

/// The pricing data that an event of the present layout carries: that of its
/// transaction event, and none for a meta event.
pub open spec fn enrichment_of(event: OmniEvent) -> crate::schema::OmniEnrichmentData {
    match event.event {
        OmniEventData::Transaction(tx) => tx.enrichment_data,
        OmniEventData::Meta(_) => crate::schema::OmniEnrichmentData::NotComputed,
    }
}

/// The sender that an event of the present layout carries, if any.
pub open spec fn sender_in(event: OmniEvent) -> Option<OmniAddress> {
    match event.event {
        OmniEventData::Transaction(tx) => tx.sender,
        OmniEventData::Meta(_) => None,
    }
}

/// The sender of a converted transaction event is the sender that its
/// transfer message holds, for the messages that start a transfer on an EVM
/// chain or on Solana and for the NEAR transfer and fee claim messages; the
/// converted event has no sender for the messages that complete a transfer
/// on an EVM chain or on Solana and for the NEAR signing message.
pub proof fn law_sender_follows_message(old: OmniEventOld)
    requires
        old.event is Transaction,
    ensures
        match old.event->Transaction_0.transfer_message {
            OmniTransferMessage::EvmInitTransferMessage(m) => sender_in(converted(old)) == Some(
                m.sender,
            ),
            OmniTransferMessage::SolanaInitTransfer(m) => sender_in(converted(old)) == Some(
                m.sender,
            ),
            OmniTransferMessage::NearTransferMessage(m) => sender_in(converted(old)) == Some(
                m.sender,
            ),
            OmniTransferMessage::NearClaimFeeEvent(m) => sender_in(converted(old)) == Some(
                m.sender,
            ),
            OmniTransferMessage::EvmFinTransferMessage(_) => sender_in(converted(old)) is None,
            OmniTransferMessage::NearSignTransferEvent(_) => sender_in(converted(old)) is None,
            OmniTransferMessage::SolanaFinTransfer(_) => sender_in(converted(old)) is None,
        },
{
}

/// Where the pricing data beside a transaction event has been computed, the
/// converted event carries it, whatever the data inside the event says.
pub proof fn law_enrichment_beside_wins(old: OmniEventOld)
    requires
        old.event is Transaction,
        !(old.enrichment_data is NotComputed),
    ensures
        enrichment_of(converted(old)) == current_enrichment(old.enrichment_data),
{
}

/// Where no pricing data has been computed beside the event, the converted
/// event carries the data inside the transaction event; a converted meta
/// event carries none.
pub proof fn law_enrichment_falls_back(old: OmniEventOld)
    requires
        old.enrichment_data is NotComputed,
    ensures
        match old.event {
            OmniEventDataOld::Transaction(tx) => {
                enrichment_of(converted(old)) == current_enrichment(tx.enrichment_data)
            },
            OmniEventDataOld::Meta(_) => enrichment_of(converted(old)) is NotComputed,
        },
{
}

/// Conversion keeps the identifier, and takes the transaction and the origin
/// from the inner event, whichever kind it is.
pub proof fn law_projection(old: OmniEventOld)
    ensures
        converted(old).id == old.id,
        converted(old).transaction_id == transaction_id_of(old),
        converted(old).origin == origin_of(old),
        old.event is Meta ==> converted(old).event == OmniEventData::Meta(
            OmniMetaEvent { details: old.event->Meta_0.details },
        ),
{
}

/// What [`sender_of`] says, over the mathematical forms.
pub open spec fn sender_of_view(message: OmniTransferMessageView) -> Option<OmniAddressView> {
    match message {
        OmniTransferMessageView::NearTransferMessage(m) => Some(m.sender),
        OmniTransferMessageView::NearSignTransferEvent(_) => None,
        OmniTransferMessageView::NearClaimFeeEvent(m) => Some(m.sender),
        OmniTransferMessageView::EvmInitTransferMessage(m) => Some(m.sender),
        OmniTransferMessageView::EvmFinTransferMessage(_) => None,
        OmniTransferMessageView::SolanaInitTransfer(m) => Some(m.sender),
        OmniTransferMessageView::SolanaFinTransfer(_) => None,
    }
}

/// What [`current_enrichment`] says, over the mathematical forms.
pub open spec fn current_enrichment_view(
    data: OmniEnrichmentDataView,
) -> crate::schema::OmniEnrichmentDataView {
    match data {
        OmniEnrichmentDataView::NotComputed => crate::schema::OmniEnrichmentDataView::NotComputed,
        OmniEnrichmentDataView::NotApplicable => {
            crate::schema::OmniEnrichmentDataView::NotApplicable
        },
        OmniEnrichmentDataView::Data {
            transferred_token_info,
            native_token_info,
        } => crate::schema::OmniEnrichmentDataView::Data {
            transferred_token_info,
            native_token_info,
        },
    }
}

/// What [`converted`] says, over the mathematical forms.
pub open spec fn migrated(old: OmniEventOldView) -> OmniEventView {
    match old.event {
        OmniEventDataOldView::Transaction(tx) => OmniEventView {
            id: old.id,
            transaction_id: tx.transaction_id,
            origin: tx.origin,
            event: OmniEventDataView::Transaction(
                OmniTransactionEventView {
                    transfer_message: tx.transfer_message,
                    sender: sender_of_view(tx.transfer_message),
                    transfer_id: tx.transfer_id,
                    status: tx.status,
                    enrichment_data: current_enrichment_view(
                        if old.enrichment_data is NotComputed {
                            tx.enrichment_data
                        } else {
                            old.enrichment_data
                        },
                    ),
                },
            ),
        },
        OmniEventDataOldView::Meta(meta) => OmniEventView {
            id: old.id,
            transaction_id: meta.transaction_id,
            origin: meta.origin,
            event: OmniEventDataView::Meta(OmniMetaEventView { details: meta.details }),
        },
    }
}

/// The mathematical form of a converted event is the conversion of the
/// mathematical form.
pub proof fn lemma_converted_view(old: OmniEventOld)
    ensures
        converted(old)@ == migrated(old@),
{
}

/// Converts every event, in the order given.
pub fn convert_all(events: Vec<OmniEventOld>) -> (out: Vec<OmniEvent>)
    ensures
        out@.len() == events@.len(),
        forall|i: int| 0 <= i < events@.len() ==> out@[i] == converted(#[trigger] events@[i]),
{
    let mut out: Vec<OmniEvent> = Vec::new();
    for event in it: events
        invariant
            out@.len() == it.index(),
            forall|i: int| 0 <= i < it.index() ==> out@[i] == converted(#[trigger] it.seq()[i]),
    {
        out.push(OmniEvent::from(event));
    }
    out
}

} // verus!
