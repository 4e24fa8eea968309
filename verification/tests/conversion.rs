use bridge_events::legacy::{
    convert_all, OmniEnrichmentData as EarlierEnrichment, OmniEventDataOld, OmniEventOld,
    OmniMetaEventOld, OmniTransactionEventOld,
};
use bridge_events::schema::{
    ChainKind, EvmLogOrigin, FinTransferMessage, InitTransferMessage, NearReceiptOrigin,
    OmniAddress, OmniEnrichmentData, OmniEvent, OmniEventData, OmniMetaEvent,
    OmniMetaEventDetails, OmniTokenInfo, OmniTransactionOrigin, OmniTransferMessage,
    OmniTransferStatus, SignTransferEvent, SolanaFinTransferMessage, SolanaInitTransferMessage,
    SolanaTransactionOrigin, TokenMetadata, TransferId, TransferMessage,
};

fn address(chain: ChainKind, text: &str) -> OmniAddress {
    OmniAddress { chain, address: text.to_string() }
}

fn transfer_id() -> TransferId {
    TransferId { origin_chain: ChainKind::Near, origin_nonce: 7 }
}

fn near_transfer(sender: &str) -> TransferMessage {
    TransferMessage {
        origin_nonce: 7,
        token: address(ChainKind::Near, "wrap.near"),
        amount: 1_000_000_000_000_000_000_000_000,
        recipient: address(ChainKind::Eth, "0x00000000000000000000000000000000000000aa"),
        fee: 10,
        sender: address(ChainKind::Near, sender),
        msg: String::new(),
        destination_nonce: 3,
    }
}

fn sign_transfer() -> SignTransferEvent {
    SignTransferEvent {
        signature: "ed25519:sig".to_string(),
        transfer_id: transfer_id(),
        token: address(ChainKind::Near, "wrap.near"),
        amount: 5,
        recipient: address(ChainKind::Sol, "So11111111111111111111111111111111111111112"),
        fee_recipient: Some("relayer.near".to_string()),
        destination_nonce: 9,
    }
}

fn evm_init(sender: &str) -> InitTransferMessage {
    InitTransferMessage {
        origin_nonce: 11,
        token: address(ChainKind::Eth, "0x00000000000000000000000000000000000000bb"),
        amount: 42,
        recipient: address(ChainKind::Near, "bob.near"),
        fee: 1,
        sender: address(ChainKind::Eth, sender),
        msg: "hello".to_string(),
    }
}

fn evm_fin() -> FinTransferMessage {
    FinTransferMessage {
        transfer_id: transfer_id(),
        fee_recipient: "relayer.near".to_string(),
        amount: 42,
        emitter: address(ChainKind::Eth, "0x00000000000000000000000000000000000000cc"),
    }
}

fn solana_init(sender: &str) -> SolanaInitTransferMessage {
    SolanaInitTransferMessage {
        amount: 77,
        fee: 2,
        token: address(ChainKind::Sol, "mint"),
        recipient: address(ChainKind::Near, "carol.near"),
        sender: address(ChainKind::Sol, sender),
        origin_nonce: 5,
        emitter: None,
    }
}

fn solana_fin() -> SolanaFinTransferMessage {
    SolanaFinTransferMessage {
        amount: 77,
        destination_nonce: 6,
        fee_recipient: None,
        emitter: Some("emitter".to_string()),
        sequence: Some(12),
    }
}

fn near_origin() -> OmniTransactionOrigin {
    OmniTransactionOrigin::NearReceipt(NearReceiptOrigin {
        block_height: 100,
        block_timestamp_nanosec: 1_700_000_000_000_000_000,
        receipt_id: "receipt".to_string(),
        contract_id: "bridge.near".to_string(),
        signer_id: "alice.near".to_string(),
        predecessor_id: "alice.near".to_string(),
        raw_receipt: Some([1, 2, 3, 4, 5, 6, 7, 8, 9, 10, 11, 12]),
        version: 2,
    })
}

fn evm_origin() -> OmniTransactionOrigin {
    OmniTransactionOrigin::EvmLog(EvmLogOrigin {
        block_number: 200,
        block_timestamp: 1_700_000_000,
        transaction_index: Some(4),
        log_index: None,
        chain_kind: ChainKind::Base,
    })
}

fn token(id: &str) -> OmniTokenInfo {
    OmniTokenInfo {
        token_id: id.to_string(),
        name: "Token".to_string(),
        symbol: "TKN".to_string(),
        decimals: 18,
        usd_price: 1.5f64.to_bits(),
    }
}

fn earlier_data(id: &str) -> EarlierEnrichment {
    EarlierEnrichment::Data {
        transferred_token_info: Some(token(id)),
        native_token_info: token("near"),
    }
}

fn current_data(id: &str) -> OmniEnrichmentData {
    OmniEnrichmentData::Data {
        transferred_token_info: Some(token(id)),
        native_token_info: token("near"),
    }
}

fn old_transaction(
    message: OmniTransferMessage,
    beside: EarlierEnrichment,
    inside: EarlierEnrichment,
) -> OmniEventOld {
    OmniEventOld {
        id: Some([9; 12]),
        event: OmniEventDataOld::Transaction(OmniTransactionEventOld {
            transfer_message: message,
            transaction_id: "tx-1".to_string(),
            origin: near_origin(),
            sender: Some(address(ChainKind::Near, "stored-and-not-read.near")),
            transfer_id: transfer_id(),
            status: OmniTransferStatus::FinalisedOnOrigin,
            enrichment_data: inside,
        }),
        enrichment_data: beside,
    }
}

fn old_meta(beside: EarlierEnrichment) -> OmniEventOld {
    OmniEventOld {
        id: None,
        event: OmniEventDataOld::Meta(OmniMetaEventOld {
            transaction_id: "tx-meta".to_string(),
            origin: evm_origin(),
            details: OmniMetaEventDetails::EvmLogMetadata(TokenMetadata {
                token: "0xdd".to_string(),
                name: "Dai".to_string(),
                symbol: "DAI".to_string(),
                decimals: 18,
            }),
        }),
        enrichment_data: beside,
    }
}

fn sender_after(message: OmniTransferMessage) -> Option<OmniAddress> {
    let old = old_transaction(
        message, EarlierEnrichment::NotComputed, EarlierEnrichment::NotComputed,
    );
    match OmniEvent::from(old).event {
        OmniEventData::Transaction(tx) => tx.sender,
        OmniEventData::Meta(_) => panic!("a transaction event stays a transaction event"),
    }
}

fn enrichment_after(old: OmniEventOld) -> OmniEnrichmentData {
    match OmniEvent::from(old).event {
        OmniEventData::Transaction(tx) => tx.enrichment_data,
        OmniEventData::Meta(_) => panic!("a transaction event stays a transaction event"),
    }
}

#[test]
fn sender_is_copied_from_near_transfer() {
    let got = sender_after(OmniTransferMessage::NearTransferMessage(near_transfer("alice.near")));
    assert_eq!(got, Some(address(ChainKind::Near, "alice.near")));
}

#[test]
fn sender_is_copied_from_near_claim_fee() {
    let got = sender_after(OmniTransferMessage::NearClaimFeeEvent(near_transfer("dave.near")));
    assert_eq!(got, Some(address(ChainKind::Near, "dave.near")));
}

#[test]
fn sender_is_copied_from_evm_init_transfer() {
    let got = sender_after(OmniTransferMessage::EvmInitTransferMessage(evm_init("0xee")));
    assert_eq!(got, Some(address(ChainKind::Eth, "0xee")));
}

#[test]
fn sender_is_copied_from_solana_init_transfer() {
    let got = sender_after(OmniTransferMessage::SolanaInitTransfer(solana_init("payer")));
    assert_eq!(got, Some(address(ChainKind::Sol, "payer")));
}

#[test]
fn sender_is_absent_for_evm_fin_transfer() {
    assert_eq!(sender_after(OmniTransferMessage::EvmFinTransferMessage(evm_fin())), None);
}

#[test]
fn sender_is_absent_for_near_sign_transfer() {
    assert_eq!(sender_after(OmniTransferMessage::NearSignTransferEvent(sign_transfer())), None);
}

#[test]
fn sender_is_absent_for_solana_fin_transfer() {
    assert_eq!(sender_after(OmniTransferMessage::SolanaFinTransfer(solana_fin())), None);
}

#[test]
fn get_sender_ignores_the_stored_sender() {
    let old = old_transaction(
        OmniTransferMessage::EvmFinTransferMessage(evm_fin()),
        EarlierEnrichment::NotComputed,
        EarlierEnrichment::NotComputed,
    );
    match &old.event {
        OmniEventDataOld::Transaction(tx) => {
            assert!(tx.sender.is_some());
            assert_eq!(tx.get_sender(), None);
        }
        OmniEventDataOld::Meta(_) => unreachable!(),
    }
}

#[test]
fn enrichment_beside_the_event_wins() {
    let old = old_transaction(
        OmniTransferMessage::NearTransferMessage(near_transfer("alice.near")),
        earlier_data("beside"),
        earlier_data("inside"),
    );
    assert_eq!(enrichment_after(old), current_data("beside"));
}

#[test]
fn not_applicable_beside_the_event_wins_over_data_inside() {
    let old = old_transaction(
        OmniTransferMessage::NearTransferMessage(near_transfer("alice.near")),
        EarlierEnrichment::NotApplicable,
        earlier_data("inside"),
    );
    assert_eq!(enrichment_after(old), OmniEnrichmentData::NotApplicable);
}

#[test]
fn enrichment_inside_is_used_when_none_beside() {
    let old = old_transaction(
        OmniTransferMessage::NearTransferMessage(near_transfer("alice.near")),
        EarlierEnrichment::NotComputed,
        earlier_data("inside"),
    );
    assert_eq!(enrichment_after(old), current_data("inside"));
}

#[test]
fn enrichment_stays_uncomputed_when_neither_place_has_it() {
    let old = old_transaction(
        OmniTransferMessage::NearTransferMessage(near_transfer("alice.near")),
        EarlierEnrichment::NotComputed,
        EarlierEnrichment::NotComputed,
    );
    assert_eq!(enrichment_after(old), OmniEnrichmentData::NotComputed);
}

#[test]
fn meta_event_keeps_only_its_details() {
    let converted = OmniEvent::from(old_meta(earlier_data("beside")));
    assert_eq!(
        converted,
        OmniEvent {
            id: None,
            transaction_id: "tx-meta".to_string(),
            origin: evm_origin(),
            event: OmniEventData::Meta(OmniMetaEvent {
                details: OmniMetaEventDetails::EvmLogMetadata(TokenMetadata {
                    token: "0xdd".to_string(),
                    name: "Dai".to_string(),
                    symbol: "DAI".to_string(),
                    decimals: 18,
                }),
            }),
        }
    );
}

#[test]
fn transaction_event_is_converted_field_by_field() {
    let old = old_transaction(
        OmniTransferMessage::EvmInitTransferMessage(evm_init("0xee")),
        EarlierEnrichment::NotComputed,
        EarlierEnrichment::NotApplicable,
    );
    let converted = OmniEvent::from(old);
    assert_eq!(converted.id, Some([9; 12]));
    assert_eq!(converted.transaction_id, "tx-1");
    assert_eq!(converted.origin, near_origin());
    match converted.event {
        OmniEventData::Transaction(tx) => {
            assert_eq!(
                tx.transfer_message, OmniTransferMessage::EvmInitTransferMessage(evm_init("0xee")),
            );
            assert_eq!(tx.sender, Some(address(ChainKind::Eth, "0xee")));
            assert_eq!(tx.transfer_id, transfer_id());
            assert_eq!(tx.status, OmniTransferStatus::FinalisedOnOrigin);
            assert_eq!(tx.enrichment_data, OmniEnrichmentData::NotApplicable);
        }
        OmniEventData::Meta(_) => unreachable!(),
    }
}

#[test]
fn transaction_id_and_origin_come_from_the_inner_event() {
    let tx = old_transaction(
        OmniTransferMessage::SolanaFinTransfer(solana_fin()),
        EarlierEnrichment::NotComputed,
        EarlierEnrichment::NotComputed,
    );
    assert_eq!(tx.get_transaction_id(), "tx-1");
    assert_eq!(tx.get_origin(), near_origin());
    let meta = old_meta(EarlierEnrichment::NotComputed);
    assert_eq!(meta.get_transaction_id(), "tx-meta");
    assert_eq!(meta.get_origin(), evm_origin());
}

#[test]
fn is_none_holds_of_uncomputed_data_only() {
    assert!(EarlierEnrichment::NotComputed.is_none());
    assert!(!EarlierEnrichment::NotApplicable.is_none());
    assert!(!earlier_data("x").is_none());
    assert!(EarlierEnrichment::default().is_none());
    assert_eq!(OmniEnrichmentData::default(), OmniEnrichmentData::NotComputed);
}

#[test]
fn enrichment_converts_variant_by_variant() {
    assert_eq!(
        OmniEnrichmentData::from(EarlierEnrichment::NotComputed), OmniEnrichmentData::NotComputed,
    );
    assert_eq!(
        OmniEnrichmentData::from(EarlierEnrichment::NotApplicable),
        OmniEnrichmentData::NotApplicable
    );
    assert_eq!(OmniEnrichmentData::from(earlier_data("t")), current_data("t"));
    let native_only = EarlierEnrichment::Data {
        transferred_token_info: None,
        native_token_info: token("near"),
    };
    assert_eq!(
        OmniEnrichmentData::from(native_only),
        OmniEnrichmentData::Data { transferred_token_info: None, native_token_info: token("near") }
    );
}

#[test]
fn convert_all_keeps_the_order() {
    let events = vec![
        old_meta(EarlierEnrichment::NotComputed),
        old_transaction(
            OmniTransferMessage::NearTransferMessage(near_transfer("alice.near")),
            EarlierEnrichment::NotComputed,
            EarlierEnrichment::NotComputed,
        ),
        old_transaction(
            OmniTransferMessage::SolanaInitTransfer(solana_init("payer")),
            earlier_data("beside"),
            EarlierEnrichment::NotComputed,
        ),
    ];
    let expected: Vec<OmniEvent> = events.iter().map(|e| OmniEvent::from(e.clone())).collect();
    let converted = convert_all(events);
    assert_eq!(converted.len(), 3);
    assert_eq!(converted, expected);
    assert!(matches!(converted[0].event, OmniEventData::Meta(_)));
    assert_eq!(converted[1].transaction_id, "tx-1");
    assert!(convert_all(Vec::new()).is_empty());
}

#[test]
fn status_follows_the_lifecycle() {
    let first = OmniTransferStatus::Initialized;
    let second = OmniTransferStatus::FinalisedOnOrigin;
    let third = OmniTransferStatus::Finalised;
    assert!(first < second);
    assert!(second < third);
    assert!(first < third);
    assert_eq!(first.stage(), 0);
    assert_eq!(second.stage(), 1);
    assert_eq!(third.stage(), 2);
    for a in [first, second, third] {
        for b in [first, second, third] {
            assert_eq!(a.has_reached(b), a >= b);
        }
    }
    assert!(third.has_reached(first));
    assert!(!first.has_reached(second));
}

#[test]
fn origin_names_its_chain() {
    assert_eq!(near_origin().chain(), ChainKind::Near);
    assert_eq!(evm_origin().chain(), ChainKind::Base);
    let solana = OmniTransactionOrigin::SolanaTransaction(SolanaTransactionOrigin {
        slot: 1,
        block_time: 2,
        instruction_index: 0,
    });
    assert_eq!(solana.chain(), ChainKind::Sol);
}
