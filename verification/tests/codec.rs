use bridge_events::decimal::{format_amount, read_amount};
use bridge_events::decode::{
    decode_address, decode_chain, decode_details, decode_enrichment, decode_event, decode_evm_log,
    decode_origin, decode_status, decode_token_info, decode_token_metadata,
    decode_transaction_event, decode_transfer_id, decode_transfer_message,
};
use bridge_events::document::{find, same_text, Field, Value};
use bridge_events::encode::{
    encode_address, encode_chain, encode_details, encode_enrichment, encode_event, encode_origin,
    encode_status, encode_token_info, encode_transaction_event, encode_transfer_id,
    encode_transfer_message,
};
use bridge_events::error::{DecodeError, EncodeError, Fault};
use bridge_events::record::Record;
use bridge_events::schema::{
    ChainKind, EvmLogOrigin, FinTransferMessage, InitTransferMessage, NativeFeeClaim,
    NearReceiptOrigin, OmniAddress, OmniEnrichmentData, OmniEvent, OmniEventData, OmniMetaEvent,
    OmniMetaEventDetails, OmniTokenInfo, OmniTransactionEvent, OmniTransactionOrigin,
    OmniTransferMessage, OmniTransferStatus, SignTransferEvent, SolanaFinTransferMessage,
    SolanaInitTransferMessage, SolanaTransactionOrigin, TokenDeployment, TokenMetadata,
    TransferId, TransferMessage,
};

fn text(s: &str) -> Value {
    Value::Text(s.to_string())
}

fn doc(entries: Vec<(&str, Value)>) -> Value {
    Value::Document(
        entries.into_iter().map(|(k, v)| Field { key: k.to_string(), value: v }).collect(),
    )
}

fn fields(v: &Value) -> &Vec<Field> {
    match v {
        Value::Document(fields) => fields,
        other => panic!("not a document: {:?}", other),
    }
}

fn keys(v: &Value) -> Vec<String> {
    fields(v).iter().map(|f| f.key.clone()).collect()
}

fn with(v: Value, key: &str, value: Value) -> Value {
    match v {
        Value::Document(mut fields) => {
            match fields.iter_mut().find(|f| f.key == key) {
                Some(f) => f.value = value,
                None => fields.push(Field { key: key.to_string(), value }),
            }
            Value::Document(fields)
        }
        other => panic!("not a document: {:?}", other),
    }
}

fn without(v: Value, key: &str) -> Value {
    match v {
        Value::Document(fields) => Value::Document(
            fields.into_iter().filter(|f| f.key != key).collect(),
        ),
        other => panic!("not a document: {:?}", other),
    }
}

fn fails<T: std::fmt::Debug>(r: Result<T, DecodeError>, fault: Fault, at: &str) {
    match r {
        Err(e) => {
            assert_eq!(e.fault, fault);
            assert_eq!(e.at, at);
        }
        Ok(x) => panic!("read as {:?}", x),
    }
}

fn address(chain: ChainKind, s: &str) -> OmniAddress {
    OmniAddress { chain, address: s.to_string() }
}

fn transfer_id() -> TransferId {
    TransferId { origin_chain: ChainKind::Eth, origin_nonce: 31 }
}

fn token(id: &str) -> OmniTokenInfo {
    OmniTokenInfo {
        token_id: id.to_string(),
        name: "Wrapped NEAR".to_string(),
        symbol: "wNEAR".to_string(),
        decimals: 24,
        usd_price: 3.25f64.to_bits(),
    }
}

fn near_transfer() -> TransferMessage {
    TransferMessage {
        origin_nonce: 7,
        token: address(ChainKind::Near, "wrap.near"),
        amount: 1_000_000_000_000_000_000_000_000,
        recipient: address(ChainKind::Eth, "0xaa"),
        fee: 0,
        sender: address(ChainKind::Near, "alice.near"),
        msg: "memo".to_string(),
        destination_nonce: 3,
    }
}

fn messages() -> Vec<OmniTransferMessage> {
    vec![
        OmniTransferMessage::NearTransferMessage(near_transfer()),
        OmniTransferMessage::NearSignTransferEvent(SignTransferEvent {
            signature: "sig".to_string(),
            transfer_id: transfer_id(),
            token: address(ChainKind::Near, "wrap.near"),
            amount: u128::MAX,
            recipient: address(ChainKind::Arb, "0xbb"),
            fee_recipient: None,
            destination_nonce: 1,
        }),
        OmniTransferMessage::NearClaimFeeEvent(near_transfer()),
        OmniTransferMessage::EvmInitTransferMessage(InitTransferMessage {
            origin_nonce: 2,
            token: address(ChainKind::Eth, "0xcc"),
            amount: 9,
            recipient: address(ChainKind::Near, "bob.near"),
            fee: 1,
            sender: address(ChainKind::Eth, "0xdd"),
            msg: String::new(),
        }),
        OmniTransferMessage::EvmFinTransferMessage(FinTransferMessage {
            transfer_id: transfer_id(),
            fee_recipient: "relayer.near".to_string(),
            amount: 9,
            emitter: address(ChainKind::Base, "0xee"),
        }),
        OmniTransferMessage::SolanaInitTransfer(SolanaInitTransferMessage {
            amount: 5,
            fee: 1,
            token: address(ChainKind::Sol, "mint"),
            recipient: address(ChainKind::Near, "carol.near"),
            sender: address(ChainKind::Sol, "payer"),
            origin_nonce: 4,
            emitter: Some("emitter".to_string()),
        }),
        OmniTransferMessage::SolanaFinTransfer(SolanaFinTransferMessage {
            amount: 5,
            destination_nonce: 8,
            fee_recipient: Some("relayer".to_string()),
            emitter: None,
            sequence: Some(0),
        }),
    ]
}

fn metadata() -> TokenMetadata {
    TokenMetadata {
        token: "t".to_string(),
        name: "Name".to_string(),
        symbol: "SYM".to_string(),
        decimals: 6,
    }
}

fn deployment() -> TokenDeployment {
    TokenDeployment {
        token_id: "t.near".to_string(),
        token_address: address(ChainKind::Eth, "0xff"),
        decimals: 18,
        origin_decimals: 24,
    }
}

fn claim() -> NativeFeeClaim {
    NativeFeeClaim {
        transfer_id: transfer_id(),
        recipient: address(ChainKind::Near, "r.near"),
        amount: 12,
    }
}

fn all_details() -> Vec<OmniMetaEventDetails> {
    vec![
        OmniMetaEventDetails::NearLogMetadataEvent(metadata()),
        OmniMetaEventDetails::NearSignLogMetadataEvent(metadata()),
        OmniMetaEventDetails::NearDeployTokenEvent(deployment()),
        OmniMetaEventDetails::NearBindTokenEvent(deployment()),
        OmniMetaEventDetails::NearSignClaimNativeFeeEvent(claim()),
        OmniMetaEventDetails::NearClaimNativeFeeEvent(claim()),
        OmniMetaEventDetails::EvmLogMetadata(metadata()),
        OmniMetaEventDetails::EvmDeployToken(deployment()),
        OmniMetaEventDetails::SolanaLogMetadata(metadata()),
        OmniMetaEventDetails::SolanaDeployToken(deployment()),
    ]
}

fn origins() -> Vec<OmniTransactionOrigin> {
    vec![
        OmniTransactionOrigin::NearReceipt(NearReceiptOrigin {
            block_height: 100,
            block_timestamp_nanosec: 1_700_000_000_000_000_000,
            receipt_id: "receipt".to_string(),
            contract_id: "bridge.near".to_string(),
            signer_id: "alice.near".to_string(),
            predecessor_id: "alice.near".to_string(),
            raw_receipt: Some([1, 2, 3, 4, 5, 6, 7, 8, 9, 10, 11, 12]),
            version: 2,
        }),
        OmniTransactionOrigin::NearReceipt(NearReceiptOrigin {
            block_height: 0,
            block_timestamp_nanosec: i64::MAX as u64,
            receipt_id: String::new(),
            contract_id: String::new(),
            signer_id: String::new(),
            predecessor_id: String::new(),
            raw_receipt: None,
            version: u32::MAX,
        }),
        OmniTransactionOrigin::EvmLog(EvmLogOrigin {
            block_number: 200,
            block_timestamp: 1_700_000_000,
            transaction_index: Some(4),
            log_index: None,
            chain_kind: ChainKind::Arb,
        }),
        OmniTransactionOrigin::SolanaTransaction(SolanaTransactionOrigin {
            slot: 1,
            block_time: 2,
            instruction_index: 3,
        }),
    ]
}

fn data() -> OmniEnrichmentData {
    OmniEnrichmentData::Data {
        transferred_token_info: Some(token("wrap.near")),
        native_token_info: token("near"),
    }
}

fn transaction(
    message: OmniTransferMessage, enrichment: OmniEnrichmentData,
) -> OmniTransactionEvent {
    OmniTransactionEvent {
        transfer_message: message,
        sender: Some(address(ChainKind::Near, "alice.near")),
        transfer_id: transfer_id(),
        status: OmniTransferStatus::Initialized,
        enrichment_data: enrichment,
    }
}

fn event(data: OmniEventData) -> OmniEvent {
    OmniEvent {
        id: Some([0xab; 12]),
        transaction_id: "0xfeed".to_string(),
        origin: origins().remove(0),
        event: data,
    }
}

#[test]
fn address_is_written_field_by_field() {
    let written = encode_address(&address(ChainKind::Near, "alice.near"));
    assert_eq!(written, doc(vec![("chain", text("Near")), ("address", text("alice.near"))]));
}

#[test]
fn transfer_id_is_written_as_chain_and_number() {
    let written = encode_transfer_id(&transfer_id());
    assert_eq!(
        written, Ok(doc(vec![("origin_chain", text("Eth")), ("origin_nonce", Value::Int64(31))])),
    );
}

#[test]
fn token_info_is_written_with_the_bits_of_its_price() {
    let written = encode_token_info(&token("near"));
    assert_eq!(
        written,
        doc(vec![
            ("token_id", text("near")),
            ("name", text("Wrapped NEAR")),
            ("symbol", text("wNEAR")),
            ("decimals", Value::Int32(24)),
            ("usd_price", Value::Double(0x400A_0000_0000_0000)),
        ])
    );
    assert_eq!(decode_token_info(&written), Ok(token("near")));
}

#[test]
fn union_is_written_as_a_document_of_one_entry() {
    let solana = origins().remove(3);
    assert_eq!(
        encode_origin(&solana),
        Ok(doc(vec![(
            "SolanaTransaction",
            doc(vec![
                ("slot", Value::Int64(1)),
                ("block_time", Value::Int64(2)),
                ("instruction_index", Value::Int64(3)),
            ])
        )]))
    );
}

#[test]
fn amounts_are_written_as_decimal_text() {
    let written = encode_transfer_message(
        &OmniTransferMessage::NearTransferMessage(near_transfer()),
    ).unwrap();
    let body = &fields(&written)[0];
    assert_eq!(body.key, "NearTransferMessage");
    assert_eq!(find(fields(&body.value), "amount"), Some(&text("1000000000000000000000000")));
    assert_eq!(find(fields(&body.value), "fee"), Some(&text("0")));
}

#[test]
fn unit_enums_are_written_as_their_names() {
    assert_eq!(encode_chain(ChainKind::Eth), text("Eth"));
    assert_eq!(encode_chain(ChainKind::Near), text("Near"));
    assert_eq!(encode_chain(ChainKind::Sol), text("Sol"));
    assert_eq!(encode_chain(ChainKind::Arb), text("Arb"));
    assert_eq!(encode_chain(ChainKind::Base), text("Base"));
    assert_eq!(encode_status(OmniTransferStatus::Initialized), text("Initialized"));
    assert_eq!(encode_status(OmniTransferStatus::FinalisedOnOrigin), text("FinalisedOnOrigin"));
    assert_eq!(encode_status(OmniTransferStatus::Finalised), text("Finalised"));
    for chain in [
        ChainKind::Eth,
        ChainKind::Near,
        ChainKind::Sol,
        ChainKind::Arb,
        ChainKind::Base,
    ] {
        assert_eq!(decode_chain(&encode_chain(chain)), Ok(chain));
    }
    for status in
        [
            OmniTransferStatus::Initialized,
            OmniTransferStatus::FinalisedOnOrigin,
            OmniTransferStatus::Finalised,
        ]
    {
        assert_eq!(decode_status(&encode_status(status)), Ok(status));
    }
}

#[test]
fn every_transfer_message_reads_back() {
    for message in messages() {
        let written = encode_transfer_message(&message).unwrap();
        assert_eq!(decode_transfer_message(&written), Ok(message));
    }
}

#[test]
fn every_origin_reads_back() {
    for origin in origins() {
        let written = encode_origin(&origin).unwrap();
        assert_eq!(decode_origin(&written), Ok(origin));
    }
}

#[test]
fn every_kind_of_details_reads_back() {
    for details in all_details() {
        let written = encode_details(&details).unwrap();
        assert_eq!(decode_details(&written), Ok(details));
    }
}

#[test]
fn transaction_event_reads_back() {
    for message in messages() {
        for enrichment in [
            OmniEnrichmentData::NotComputed,
            OmniEnrichmentData::NotApplicable,
            data(),
        ] {
            let e = event(OmniEventData::Transaction(transaction(message.clone(), enrichment)));
            let written = encode_event(&e).unwrap();
            assert_eq!(decode_event(&written), Ok(e));
        }
    }
}

#[test]
fn meta_event_reads_back() {
    for details in all_details() {
        let e = event(OmniEventData::Meta(OmniMetaEvent { details }));
        let written = encode_event(&e).unwrap();
        assert_eq!(decode_event(&written), Ok(e));
    }
}

#[test]
fn event_without_identifier_reads_back() {
    let mut e = event(OmniEventData::Meta(OmniMetaEvent { details: all_details().remove(0) }));
    e.id = None;
    let written = encode_event(&e).unwrap();
    assert_eq!(keys(&written), vec!["transaction_id", "origin", "event"]);
    assert_eq!(decode_event(&written), Ok(e));
}

#[test]
fn event_is_written_with_its_top_level_fields_in_order() {
    let e = event(OmniEventData::Transaction(transaction(messages().remove(0), data())));
    let written = encode_event(&e).unwrap();
    assert_eq!(keys(&written), vec!["_id", "transaction_id", "origin", "event"]);
    assert_eq!(find(fields(&written), "_id"), Some(&Value::ObjectId([0xab; 12])));
    assert_eq!(find(fields(&written), "transaction_id"), Some(&text("0xfeed")));
    let payload = find(fields(&written), "event").unwrap();
    assert_eq!(keys(payload), vec!["Transaction"]);
}

#[test]
fn uncomputed_enrichment_is_left_out() {
    let tx = transaction(messages().remove(0), OmniEnrichmentData::NotComputed);
    let written = encode_transaction_event(&tx).unwrap();
    assert_eq!(keys(&written), vec!["transfer_message", "sender", "transfer_id", "status"]);
    assert_eq!(find(fields(&written), "enrichment_data"), None);
    assert_eq!(encode_enrichment(&OmniEnrichmentData::NotComputed), None);
    assert_eq!(decode_transaction_event(&written), Ok(tx));
}

#[test]
fn computed_enrichment_is_written() {
    let tx = transaction(messages().remove(0), OmniEnrichmentData::NotApplicable);
    let written = encode_transaction_event(&tx).unwrap();
    assert_eq!(find(fields(&written), "enrichment_data"), Some(&text("NotApplicable")));
    let tx = transaction(messages().remove(0), data());
    let written = encode_transaction_event(&tx).unwrap();
    let stored = find(fields(&written), "enrichment_data").unwrap();
    assert_eq!(keys(stored), vec!["Data"]);
    assert_eq!(
        keys(&fields(stored)[0].value),
        vec!["transferred_token_info", "native_token_info"]
    );
    assert_eq!(decode_enrichment(stored), Ok(data()));
}

#[test]
fn enrichment_without_transferred_token_leaves_that_field_out() {
    let native_only = OmniEnrichmentData::Data {
        transferred_token_info: None,
        native_token_info: token("near"),
    };
    let written = encode_enrichment(&native_only).unwrap();
    assert_eq!(keys(&fields(&written)[0].value), vec!["native_token_info"]);
    assert_eq!(decode_enrichment(&written), Ok(native_only));
}

#[test]
fn absent_sender_is_left_out_and_reads_as_absent() {
    let mut tx = transaction(messages().remove(4), OmniEnrichmentData::NotComputed);
    tx.sender = None;
    let written = encode_transaction_event(&tx).unwrap();
    assert_eq!(keys(&written), vec!["transfer_message", "transfer_id", "status"]);
    assert_eq!(decode_transaction_event(&written), Ok(tx));
}

#[test]
fn enrichment_named_none_reads_as_uncomputed() {
    assert_eq!(decode_enrichment(&text("None")), Ok(OmniEnrichmentData::NotComputed));
    assert_eq!(decode_enrichment(&text("NotApplicable")), Ok(OmniEnrichmentData::NotApplicable));
}

#[test]
fn unknown_origin_tag_is_a_decode_error() {
    let body = doc(
        vec![
            ("slot", Value::Int64(1)),
            ("block_time", Value::Int64(2)),
            ("instruction_index", Value::Int64(3)),
        ],
    );
    fails(
        decode_origin(&doc(vec![("CosmosBlock", body)])),
        Fault::UnknownVariant,
        "OmniTransactionOrigin",
    );
    fails(decode_origin(&text("CosmosBlock")), Fault::UnknownVariant, "OmniTransactionOrigin");
    fails(
        decode_origin(&doc(vec![("solanaTransaction", Value::Null)])),
        Fault::UnknownVariant,
        "OmniTransactionOrigin",
    );
}

#[test]
fn unknown_transfer_message_tag_is_a_decode_error() {
    let written = encode_transfer_message(&messages().remove(0)).unwrap();
    let body = fields(&written)[0].value.clone();
    fails(
        decode_transfer_message(&doc(vec![("NearTransfer", body)])),
        Fault::UnknownVariant,
        "OmniTransferMessage",
    );
    fails(decode_transfer_message(&text("Unknown")), Fault::UnknownVariant, "OmniTransferMessage");
}

#[test]
fn unknown_enrichment_tag_is_a_decode_error() {
    fails(decode_enrichment(&text("Pending")), Fault::UnknownVariant, "OmniEnrichmentData");
    fails(decode_enrichment(&text("none")), Fault::UnknownVariant, "OmniEnrichmentData");
    fails(
        decode_enrichment(&doc(vec![("Prices", doc(vec![]))])),
        Fault::UnknownVariant,
        "OmniEnrichmentData",
    );
    let tx = transaction(messages().remove(0), OmniEnrichmentData::NotComputed);
    let written = with(encode_transaction_event(&tx).unwrap(), "enrichment_data", text("Pending"));
    fails(decode_transaction_event(&written), Fault::UnknownVariant, "OmniEnrichmentData");
}

#[test]
fn unknown_details_and_event_tags_are_decode_errors() {
    fails(
        decode_details(&doc(vec![("NearBurnToken", doc(vec![]))])),
        Fault::UnknownVariant,
        "OmniMetaEventDetails",
    );
    let e = event(OmniEventData::Meta(OmniMetaEvent { details: all_details().remove(0) }));
    let written = with(encode_event(&e).unwrap(), "event", doc(vec![("Other", doc(vec![]))]));
    fails(decode_event(&written), Fault::UnknownVariant, "OmniEventData");
    fails(decode_chain(&text("Ton")), Fault::UnknownVariant, "ChainKind");
    fails(decode_status(&text("Started")), Fault::UnknownVariant, "OmniTransferStatus");
}

#[test]
fn known_tag_in_the_wrong_form_is_the_wrong_type() {
    fails(decode_origin(&text("NearReceipt")), Fault::WrongType, "OmniTransactionOrigin");
    fails(decode_enrichment(&text("Data")), Fault::WrongType, "OmniEnrichmentData");
    fails(
        decode_enrichment(&doc(vec![("NotApplicable", Value::Null)])),
        Fault::WrongType,
        "OmniEnrichmentData",
    );
    fails(decode_chain(&doc(vec![("Eth", Value::Null)])), Fault::WrongType, "ChainKind");
}

#[test]
fn union_document_must_hold_one_entry() {
    fails(decode_origin(&doc(vec![])), Fault::NotOneVariant, "OmniTransactionOrigin");
    let solana = encode_origin(&origins().remove(3)).unwrap();
    let two = with(solana, "EvmLog", doc(vec![]));
    fails(decode_origin(&two), Fault::NotOneVariant, "OmniTransactionOrigin");
    fails(decode_origin(&Value::Int64(1)), Fault::WrongType, "OmniTransactionOrigin");
}

#[test]
fn value_that_is_no_document_is_refused() {
    fails(decode_event(&text("event")), Fault::NotADocument, "OmniEvent");
    fails(decode_event(&Value::Null), Fault::NotADocument, "OmniEvent");
    fails(decode_event(&Value::Array(vec![])), Fault::NotADocument, "OmniEvent");
    fails(decode_address(&Value::Bool(true)), Fault::NotADocument, "OmniAddress");
}

#[test]
fn missing_field_is_named() {
    let written = encode_address(&address(ChainKind::Near, "alice.near"));
    fails(decode_address(&without(written, "address")), Fault::MissingField, "address");
    let e = event(OmniEventData::Meta(OmniMetaEvent { details: all_details().remove(0) }));
    let written = encode_event(&e).unwrap();
    fails(decode_event(&without(written, "origin")), Fault::MissingField, "origin");
    fails(decode_event(&doc(vec![])), Fault::MissingField, "transaction_id");
}

#[test]
fn first_unreadable_field_in_declared_order_is_reported() {
    let broken = doc(vec![("address", Value::Int64(1)), ("chain", text("Ton"))]);
    fails(decode_address(&broken), Fault::UnknownVariant, "ChainKind");
    let broken = doc(vec![("address", Value::Int64(1)), ("chain", text("Eth"))]);
    fails(decode_address(&broken), Fault::WrongType, "address");
}

#[test]
fn wrong_kind_of_value_is_refused() {
    let written = encode_address(&address(ChainKind::Near, "alice.near"));
    fails(decode_address(&with(written, "address", Value::Int32(5))), Fault::WrongType, "address");
    let id = encode_transfer_id(&transfer_id()).unwrap();
    fails(
        decode_transfer_id(&with(id, "origin_nonce", text("31"))), Fault::WrongType, "origin_nonce",
    );
    let info = encode_token_info(&token("near"));
    fails(
        decode_token_info(&with(info, "usd_price", Value::Int64(3))), Fault::WrongType, "usd_price",
    );
    let e = event(OmniEventData::Meta(OmniMetaEvent { details: all_details().remove(0) }));
    let written = with(encode_event(&e).unwrap(), "_id", text("abc"));
    fails(decode_event(&written), Fault::WrongType, "_id");
}

#[test]
fn numbers_out_of_range_are_refused() {
    let id = encode_transfer_id(&transfer_id()).unwrap();
    fails(
        decode_transfer_id(&with(id, "origin_nonce", Value::Int64(-1))),
        Fault::OutOfRange,
        "origin_nonce",
    );
    let meta = doc(
        vec![
            ("token", text("t")),
            ("name", text("n")),
            ("symbol", text("s")),
            ("decimals", Value::Int32(256)),
        ],
    );
    fails(decode_token_metadata(&meta), Fault::OutOfRange, "decimals");
    let meta = doc(
        vec![
            ("token", text("t")),
            ("name", text("n")),
            ("symbol", text("s")),
            ("decimals", Value::Int64(255)),
        ],
    );
    assert_eq!(decode_token_metadata(&meta).unwrap().decimals, 255);
}

#[test]
fn numbers_are_read_from_either_width() {
    let narrow = doc(vec![("origin_chain", text("Sol")), ("origin_nonce", Value::Int32(5))]);
    let wide = doc(vec![("origin_chain", text("Sol")), ("origin_nonce", Value::Int64(5))]);
    let expected = TransferId { origin_chain: ChainKind::Sol, origin_nonce: 5 };
    assert_eq!(decode_transfer_id(&narrow), Ok(expected));
    assert_eq!(decode_transfer_id(&wide), Ok(expected));
    let largest = doc(
        vec![("origin_chain", text("Sol")), ("origin_nonce", Value::Int64(i64::MAX))],
    );
    assert_eq!(decode_transfer_id(&largest).unwrap().origin_nonce, i64::MAX as u64);
}

#[test]
fn malformed_amount_is_refused() {
    let claim_doc = |amount: Value| {
        doc(vec![
            ("transfer_id", encode_transfer_id(&transfer_id()).unwrap()),
            ("recipient", encode_address(&address(ChainKind::Near, "r.near"))),
            ("amount", amount),
        ])
    };
    let read = |amount: Value| decode_details(
        &doc(vec![("NearClaimNativeFeeEvent", claim_doc(amount))]),
    );
    assert_eq!(read(text("12")), Ok(OmniMetaEventDetails::NearClaimNativeFeeEvent(claim())));
    fails(read(text("12.5")), Fault::MalformedAmount, "amount");
    fails(read(text("")), Fault::MalformedAmount, "amount");
    fails(read(text("-1")), Fault::MalformedAmount, "amount");
    fails(read(text("340282366920938463463374607431768211456")), Fault::MalformedAmount, "amount");
    fails(read(Value::Int64(12)), Fault::WrongType, "amount");
}

#[test]
fn optional_field_may_be_absent_or_null() {
    let log = doc(vec![
        ("block_number", Value::Int64(1)),
        ("block_timestamp", Value::Int64(2)),
        ("transaction_index", Value::Null),
        ("chain_kind", text("Eth")),
    ]);
    assert_eq!(
        decode_evm_log(&log),
        Ok(EvmLogOrigin {
            block_number: 1,
            block_timestamp: 2,
            transaction_index: None,
            log_index: None,
            chain_kind: ChainKind::Eth,
        })
    );
    let log = with(log, "log_index", text("3"));
    fails(decode_evm_log(&log), Fault::WrongType, "log_index");
}

#[test]
fn fields_that_are_not_named_are_passed_over() {
    let e = event(OmniEventData::Transaction(transaction(messages().remove(5), data())));
    let written = encode_event(&e).unwrap();
    let extended = with(
        with(written, "schema", Value::Int32(9)),
        "tags",
        Value::Array(vec![text("a"), Value::Null]),
    );
    assert_eq!(decode_event(&extended), Ok(e));
    let a = doc(
        vec![("note", Value::Bool(false)), ("chain", text("Near")), ("address", text("a.near"))],
    );
    assert_eq!(decode_address(&a), Ok(address(ChainKind::Near, "a.near")));
}

#[test]
fn first_of_two_entries_with_one_key_is_read() {
    let twice = doc(
        vec![("chain", text("Near")), ("address", text("first")), ("address", text("second"))],
    );
    assert_eq!(decode_address(&twice), Ok(address(ChainKind::Near, "first")));
    assert_eq!(find(fields(&twice), "address"), Some(&text("first")));
    assert_eq!(find(fields(&twice), "absent"), None);
}

#[test]
fn number_too_large_for_a_document_is_an_encode_error() {
    let big = TransferId { origin_chain: ChainKind::Near, origin_nonce: i64::MAX as u64 + 1 };
    assert_eq!(encode_transfer_id(&big), Err(EncodeError::NumberTooLarge));
    let fits = TransferId { origin_chain: ChainKind::Near, origin_nonce: i64::MAX as u64 };
    assert!(encode_transfer_id(&fits).is_ok());
    let mut tx = transaction(messages().remove(0), OmniEnrichmentData::NotComputed);
    tx.transfer_id = big;
    let e = event(OmniEventData::Transaction(tx));
    assert_eq!(encode_event(&e), Err(EncodeError::NumberTooLarge));
    let origin = OmniTransactionOrigin::EvmLog(EvmLogOrigin {
        block_number: 1,
        block_timestamp: 2,
        transaction_index: None,
        log_index: Some(u64::MAX),
        chain_kind: ChainKind::Eth,
    });
    assert_eq!(encode_origin(&origin), Err(EncodeError::NumberTooLarge));
}

#[test]
fn amount_text_is_decimal() {
    assert_eq!(format_amount(0), "0");
    assert_eq!(format_amount(7), "7");
    assert_eq!(format_amount(10), "10");
    assert_eq!(format_amount(1_000_000_000_000_000_000_000_000), "1000000000000000000000000");
    assert_eq!(format_amount(u128::MAX), "340282366920938463463374607431768211455");
}

#[test]
fn amount_is_read_from_decimal_text() {
    assert_eq!(read_amount("0"), Some(0));
    assert_eq!(read_amount("007"), Some(7));
    assert_eq!(read_amount("340282366920938463463374607431768211455"), Some(u128::MAX));
    assert_eq!(read_amount("340282366920938463463374607431768211456"), None);
    assert_eq!(read_amount("3402823669209384634633746074317682114550"), None);
    assert_eq!(read_amount(""), None);
    assert_eq!(read_amount("1a"), None);
    assert_eq!(read_amount("+1"), None);
    assert_eq!(read_amount(" 1"), None);
    assert_eq!(read_amount("١٢"), None);
    for n in [0u128, 1, 9, 10, 99, 100, 12345678901234567890, u128::MAX - 1, u128::MAX] {
        assert_eq!(read_amount(&format_amount(n)), Some(n));
    }
}

#[test]
fn same_text_compares_characters() {
    assert!(same_text("", ""));
    assert!(same_text("Data", "Data"));
    assert!(!same_text("Data", "data"));
    assert!(!same_text("Data", "Dat"));
    assert!(!same_text("naïve", "naive"));
    assert!(same_text("naïve", "naïve"));
}

#[test]
fn records_are_read_through_the_trait() {
    let e = event(OmniEventData::Meta(OmniMetaEvent { details: all_details().remove(2) }));
    let written = encode_event(&e).unwrap();
    assert_eq!(<OmniEvent as Record>::decode(&written), Ok(e));
}

#[test]
fn clone_gives_an_equal_value() {
    for message in messages() {
        assert_eq!(message.clone(), message);
    }
    for origin in origins() {
        assert_eq!(origin.clone(), origin);
    }
    for details in all_details() {
        assert_eq!(details.clone(), details);
    }
    let e = event(OmniEventData::Transaction(transaction(messages().remove(1), data())));
    assert_eq!(e.clone(), e);
}

#[test]
fn decode_error_describes_itself() {
    let missing = DecodeError { fault: Fault::MissingField, at: "origin" };
    assert_eq!(missing.describe(), "missing field at origin");
    let unknown = decode_origin(&text("TonBlock")).unwrap_err();
    assert_eq!(unknown.describe(), "unknown variant at OmniTransactionOrigin");
    assert_eq!(Fault::NotADocument.words(), "not a document");
    assert_eq!(Fault::WrongType.words(), "wrong type");
    assert_eq!(Fault::OutOfRange.words(), "number out of range");
    assert_eq!(Fault::MalformedAmount.words(), "malformed amount");
    assert_eq!(Fault::NotOneVariant.words(), "not one variant");
}

#[test]
fn documents_and_fields_can_be_cloned() {
    let e = event(OmniEventData::Transaction(transaction(messages().remove(5), data())));
    let written = encode_event(&e).unwrap();
    assert_eq!(written.clone(), written);
    let nested = Value::Array(vec![written.clone(), Value::Other, Value::Double(1), Value::Bool(true)]);
    assert_eq!(nested.clone(), nested);
    let field = Field { key: "k".to_string(), value: nested };
    assert_eq!(field.clone(), field);
}
