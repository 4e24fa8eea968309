use bridge_events::document::{Field, Value};
use bridge_events::encode::{
    encode_address, encode_details, encode_enrichment, encode_origin, encode_status,
    encode_transfer_id, encode_transfer_message,
};
use bridge_events::error::{DecodeError, Fault};
use bridge_events::legacy::{
    OmniEnrichmentData as EarlierEnrichment, OmniEventDataOld, OmniEventOld, OmniMetaEventOld,
    OmniTransactionEventOld,
};
use bridge_events::legacy_decode::decode_event_old;
use bridge_events::migrate::{
    answer, begin, decide, prepare, read_all, Migration, Prompt, ReadFailure, Step,
};
use bridge_events::record::Record;
use bridge_events::schema::{
    ChainKind, EvmLogOrigin, FinTransferMessage, OmniAddress, OmniEnrichmentData, OmniEvent,
    OmniEventData, OmniMetaEvent, OmniMetaEventDetails, OmniTokenInfo, OmniTransactionEvent,
    OmniTransactionOrigin, OmniTransferMessage, OmniTransferStatus, SolanaInitTransferMessage,
    SolanaTransactionOrigin, TokenMetadata, TransferId,
};

fn text(s: &str) -> Value {
    Value::Text(s.to_string())
}

fn doc(entries: Vec<(&str, Value)>) -> Value {
    Value::Document(
        entries.into_iter().map(|(k, v)| Field { key: k.to_string(), value: v }).collect(),
    )
}

fn address(chain: ChainKind, s: &str) -> OmniAddress {
    OmniAddress { chain, address: s.to_string() }
}

fn transfer_id() -> TransferId {
    TransferId { origin_chain: ChainKind::Sol, origin_nonce: 4 }
}

fn token(id: &str) -> OmniTokenInfo {
    OmniTokenInfo {
        token_id: id.to_string(),
        name: "Token".to_string(),
        symbol: "TKN".to_string(),
        decimals: 9,
        usd_price: 0.5f64.to_bits(),
    }
}

fn data(id: &str) -> OmniEnrichmentData {
    OmniEnrichmentData::Data { transferred_token_info: None, native_token_info: token(id) }
}

fn earlier_data(id: &str) -> EarlierEnrichment {
    EarlierEnrichment::Data { transferred_token_info: None, native_token_info: token(id) }
}

fn init_message() -> OmniTransferMessage {
    OmniTransferMessage::SolanaInitTransfer(SolanaInitTransferMessage {
        amount: 500,
        fee: 5,
        token: address(ChainKind::Sol, "mint"),
        recipient: address(ChainKind::Near, "bob.near"),
        sender: address(ChainKind::Sol, "payer"),
        origin_nonce: 4,
        emitter: None,
    })
}

fn fin_message() -> OmniTransferMessage {
    OmniTransferMessage::EvmFinTransferMessage(FinTransferMessage {
        transfer_id: transfer_id(),
        fee_recipient: "relayer.near".to_string(),
        amount: 500,
        emitter: address(ChainKind::Eth, "0xaa"),
    })
}

fn solana_origin() -> OmniTransactionOrigin {
    OmniTransactionOrigin::SolanaTransaction(
        SolanaTransactionOrigin { slot: 10, block_time: 20, instruction_index: 1 },
    )
}

fn evm_origin() -> OmniTransactionOrigin {
    OmniTransactionOrigin::EvmLog(EvmLogOrigin {
        block_number: 1,
        block_timestamp: 2,
        transaction_index: None,
        log_index: Some(3),
        chain_kind: ChainKind::Eth,
    })
}

fn details() -> OmniMetaEventDetails {
    OmniMetaEventDetails::SolanaLogMetadata(TokenMetadata {
        token: "mint".to_string(),
        name: "Mint".to_string(),
        symbol: "MNT".to_string(),
        decimals: 9,
    })
}

fn with_enrichment(mut entries: Vec<(&'static str, Value)>, enrichment: &OmniEnrichmentData) -> Vec<
    (&'static str, Value),
> {
    if let Some(v) = encode_enrichment(enrichment) {
        entries.push(("enrichment_data", v));
    }
    entries
}

fn transaction_body(
    message: &OmniTransferMessage, transaction_id: &str, inside: &OmniEnrichmentData,
) -> Value {
    doc(with_enrichment(
        vec![
            ("transfer_message", encode_transfer_message(message).unwrap()),
            ("transaction_id", text(transaction_id)),
            ("origin", encode_origin(&solana_origin()).unwrap()),
            ("sender", encode_address(&address(ChainKind::Near, "stored.near"))),
            ("transfer_id", encode_transfer_id(&transfer_id()).unwrap()),
            ("status", encode_status(OmniTransferStatus::Finalised)),
        ],
        inside,
    ))
}

fn meta_body(transaction_id: &str) -> Value {
    doc(vec![
        ("transaction_id", text(transaction_id)),
        ("origin", encode_origin(&evm_origin()).unwrap()),
        ("details", encode_details(&details()).unwrap()),
    ])
}

fn transaction_document(
    message: &OmniTransferMessage,
    transaction_id: &str,
    beside: &OmniEnrichmentData,
    inside: &OmniEnrichmentData,
) -> Value {
    doc(with_enrichment(
        vec![
            ("_id", Value::ObjectId([7; 12])),
            ("Transaction", transaction_body(message, transaction_id, inside)),
        ],
        beside,
    ))
}

fn meta_document(transaction_id: &str) -> Value {
    doc(vec![("Meta", meta_body(transaction_id))])
}

fn events(n: usize) -> Vec<OmniEvent> {
    (0..n)
        .map(|i| OmniEvent {
            id: None,
            transaction_id: format!("tx-{}", i),
            origin: evm_origin(),
            event: OmniEventData::Meta(OmniMetaEvent { details: details() }),
        })
        .collect()
}

fn second_line(state: Migration, name: &str, line: &str) -> (Migration, Step) {
    let (state, step) = answer(state, name);
    assert_eq!(step, Step::Ask(Prompt::Confirmation));
    answer(state, line)
}

#[test]
fn earlier_transaction_document_is_read() {
    let read = decode_event_old(&transaction_document(
        &init_message(),
        "tx-1",
        &OmniEnrichmentData::NotApplicable,
        &data("inside"),
    ));
    assert_eq!(
        read,
        Ok(OmniEventOld {
            id: Some([7; 12]),
            event: OmniEventDataOld::Transaction(OmniTransactionEventOld {
                transfer_message: init_message(),
                transaction_id: "tx-1".to_string(),
                origin: solana_origin(),
                sender: Some(address(ChainKind::Near, "stored.near")),
                transfer_id: transfer_id(),
                status: OmniTransferStatus::Finalised,
                enrichment_data: earlier_data("inside"),
            }),
            enrichment_data: EarlierEnrichment::NotApplicable,
        })
    );
}

#[test]
fn earlier_meta_document_is_read() {
    assert_eq!(
        decode_event_old(&meta_document("tx-2")),
        Ok(OmniEventOld {
            id: None,
            event: OmniEventDataOld::Meta(OmniMetaEventOld {
                transaction_id: "tx-2".to_string(),
                origin: evm_origin(),
                details: details(),
            }),
            enrichment_data: EarlierEnrichment::NotComputed,
        })
    );
    assert_eq!(
        <OmniEventOld as Record>::decode(&meta_document("tx-2")),
        decode_event_old(&meta_document("tx-2")),
    );
}

#[test]
fn first_inline_event_of_a_document_is_read() {
    let both = doc(vec![
        ("note", text("x")),
        ("Meta", meta_body("meta-first")),
        (
            "Transaction",
            transaction_body(&init_message(), "tx-second", &OmniEnrichmentData::NotComputed),
        ),
    ]);
    match decode_event_old(&both).unwrap().event {
        OmniEventDataOld::Meta(meta) => assert_eq!(meta.transaction_id, "meta-first"),
        OmniEventDataOld::Transaction(_) => panic!("the first inline event is the meta event"),
    }
    let both = doc(vec![
        (
            "Transaction",
            transaction_body(&init_message(), "tx-first", &OmniEnrichmentData::NotComputed),
        ),
        ("Meta", meta_body("meta-second")),
    ]);
    match decode_event_old(&both).unwrap().event {
        OmniEventDataOld::Transaction(tx) => assert_eq!(tx.transaction_id, "tx-first"),
        OmniEventDataOld::Meta(_) => panic!("the first inline event is the transaction event"),
    }
}

#[test]
fn earlier_document_without_inline_event_is_refused() {
    let none = doc(vec![("_id", Value::ObjectId([1; 12])), ("transaction", meta_body("x"))]);
    assert_eq!(
        decode_event_old(&none), Err(DecodeError { fault: Fault::MissingField, at: "event" }),
    );
    assert_eq!(
        decode_event_old(&text("x")),
        Err(DecodeError { fault: Fault::NotADocument, at: "OmniEventOld" }),
    );
}

#[test]
fn earlier_document_with_unknown_tags_is_refused() {
    let bad_beside = doc(vec![("Meta", meta_body("x")), ("enrichment_data", text("Soon"))]);
    assert_eq!(
        decode_event_old(&bad_beside),
        Err(DecodeError { fault: Fault::UnknownVariant, at: "OmniEnrichmentData" })
    );
    let bad_origin = doc(vec![(
        "Meta",
        doc(vec![
            ("transaction_id", text("x")),
            ("origin", doc(vec![("TonBlock", doc(vec![]))])),
            ("details", encode_details(&details()).unwrap()),
        ]),
    )]);
    assert_eq!(
        decode_event_old(&bad_origin),
        Err(DecodeError { fault: Fault::UnknownVariant, at: "OmniTransactionOrigin" })
    );
}

#[test]
fn read_all_reads_every_document_in_order() {
    let documents = vec![
        meta_document("a"),
        transaction_document(
            &init_message(),
            "b",
            &OmniEnrichmentData::NotComputed,
            &OmniEnrichmentData::NotComputed,
        ),
        meta_document("c"),
    ];
    let read = read_all(&documents).unwrap();
    assert_eq!(read.len(), 3);
    let ids: Vec<String> = read.iter().map(|e| e.get_transaction_id()).collect();
    assert_eq!(ids, vec!["a", "b", "c"]);
    assert_eq!(read_all(&Vec::new()), Ok(Vec::new()));
}

#[test]
fn read_all_stops_at_the_first_document_that_cannot_be_read() {
    let documents = vec![
        meta_document("a"),
        doc(vec![("Meta", doc(vec![("transaction_id", text("b"))]))]),
        text("not a document"),
        meta_document("d"),
    ];
    assert_eq!(
        read_all(&documents),
        Err(
            ReadFailure {
                index: 1,
                error: DecodeError { fault: Fault::MissingField, at: "origin" },
            },
        )
    );
    assert_eq!(
        prepare(&documents),
        Err(
            ReadFailure {
                index: 1,
                error: DecodeError { fault: Fault::MissingField, at: "origin" },
            },
        )
    );
}

#[test]
fn prepare_converts_what_it_read() {
    let documents = vec![
        transaction_document(&init_message(), "a", &data("beside"), &data("inside")),
        transaction_document(
            &fin_message(), "b", &OmniEnrichmentData::NotComputed, &data("inside"),
        ),
        meta_document("c"),
    ];
    let prepared = prepare(&documents).unwrap();
    assert_eq!(
        prepared,
        vec![
            OmniEvent {
                id: Some([7; 12]),
                transaction_id: "a".to_string(),
                origin: solana_origin(),
                event: OmniEventData::Transaction(OmniTransactionEvent {
                    transfer_message: init_message(),
                    sender: Some(address(ChainKind::Sol, "payer")),
                    transfer_id: transfer_id(),
                    status: OmniTransferStatus::Finalised,
                    enrichment_data: data("beside"),
                }),
            },
            OmniEvent {
                id: Some([7; 12]),
                transaction_id: "b".to_string(),
                origin: solana_origin(),
                event: OmniEventData::Transaction(OmniTransactionEvent {
                    transfer_message: fin_message(),
                    sender: None,
                    transfer_id: transfer_id(),
                    status: OmniTransferStatus::Finalised,
                    enrichment_data: data("inside"),
                }),
            },
            OmniEvent {
                id: None,
                transaction_id: "c".to_string(),
                origin: evm_origin(),
                event: OmniEventData::Meta(OmniMetaEvent { details: details() }),
            },
        ]
    );
}

#[test]
fn answer_n_writes_nothing() {
    let (state, step) = begin(events(3));
    assert_eq!(step, Step::Ask(Prompt::CollectionName));
    let (state, step) = second_line(state, "new_events\n", "n\n");
    assert_eq!(step, Step::Abort);
    assert_eq!(state, Migration::Finished);
    assert_eq!(step.notice(), Some("Migration aborted."));
}

#[test]
fn any_answer_but_y_writes_nothing() {
    for line in ["", "\n", "no", "yes", "Y", "y y", "yy", "n", "y.", "\u{ff59}"] {
        let (state, _) = begin(events(2));
        let (state, step) = second_line(state, "target", line);
        assert_eq!(step, Step::Abort, "answer {:?}", line);
        assert_eq!(state, Migration::Finished);
    }
}

#[test]
fn answer_y_writes_every_event_once_in_order() {
    let (state, _) = begin(events(4));
    let (state, step) = second_line(state, "new_events\n", "y\n");
    assert_eq!(step.notice(), Some("Migrating..."));
    assert_eq!(step, Step::Insert { collection: "new_events".to_string(), events: events(4) });
    assert_eq!(state, Migration::Finished);
    let (state, step) = answer(state, "y\n");
    assert_eq!(step, Step::Nothing);
    assert_eq!(step.notice(), None);
    assert_eq!(state, Migration::Finished);
}

#[test]
fn white_space_around_the_lines_is_not_read() {
    for line in ["y", "y\n", "y\r\n", "  y  ", "\ty\n", "\u{a0}y\u{2003}"] {
        let (state, _) = begin(events(1));
        let (_, step) = second_line(state, " \t omni events \r\n", line);
        assert_eq!(
            step,
            Step::Insert { collection: "omni events".to_string(), events: events(1) },
            "answer {:?}",
            line
        );
    }
}

#[test]
fn name_line_is_kept_as_entered_until_the_answer() {
    let (state, _) = begin(events(1));
    let (state, step) = answer(state, "  name \n");
    assert_eq!(step, Step::Ask(Prompt::Confirmation));
    assert_eq!(
        state, Migration::AwaitingConfirmation { name: "  name \n".to_string(), events: events(1) },
    );
}

#[test]
fn decide_reads_the_answer_as_it_is() {
    assert_eq!(
        decide("c", "y", events(2)),
        Step::Insert { collection: "c".to_string(), events: events(2) },
    );
    assert_eq!(decide("c", "y\n", events(2)), Step::Abort);
    assert_eq!(decide("c", " y", events(2)), Step::Abort);
    assert_eq!(decide("c", "n", events(2)), Step::Abort);
    assert_eq!(
        decide("", "y", Vec::new()), Step::Insert { collection: String::new(), events: Vec::new() },
    );
}

#[test]
fn prompts_have_their_words() {
    assert_eq!(Prompt::CollectionName.text(), "Enter the new collection name: ");
    assert_eq!(Prompt::Confirmation.text(), "Do you want to make a migration? (y/n): ");
    assert_eq!(Step::Ask(Prompt::Confirmation).notice(), None);
}
