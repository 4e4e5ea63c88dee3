use pulsar_consumer::decimal::{parse_u64, parse_u64_or_zero, push_decimal, u64_to_decimal};
use pulsar_consumer::types::{
    MessageData, MessageIdData, PulsarMessage, PulsarMessageId, PulsarMessageIdData,
};

fn native(ledger_id: u64, entry_id: u64) -> MessageIdData {
    MessageIdData {
        ledger_id,
        entry_id,
        partition: Some(3),
        batch_index: Some(-1),
        ack_set: vec![-7, 0, i64::MAX, i64::MIN],
        batch_size: Some(16),
    }
}

fn host(ledger_id: &str, entry_id: &str) -> PulsarMessageIdData {
    PulsarMessageIdData {
        ledger_id: ledger_id.to_string(),
        entry_id: entry_id.to_string(),
        partition: None,
        batch_index: Some(2),
        ack_set: vec![1, 2, 3],
        batch_size: None,
    }
}

#[test]
fn writes_canonical_decimal_text() {
    assert_eq!(u64_to_decimal(0), "0");
    assert_eq!(u64_to_decimal(7), "7");
    assert_eq!(u64_to_decimal(10), "10");
    assert_eq!(u64_to_decimal(1234567890), "1234567890");
    assert_eq!(u64_to_decimal(9007199254740993), "9007199254740993");
    assert_eq!(u64_to_decimal(u64::MAX), "18446744073709551615");
}

#[test]
fn push_decimal_appends_to_what_is_there() {
    let mut out = String::from("id=");
    push_decimal(405, &mut out);
    assert_eq!(out, "id=405");
    push_decimal(0, &mut out);
    assert_eq!(out, "id=4050");
}

#[test]
fn reads_plain_digits() {
    assert_eq!(parse_u64("0"), Some(0));
    assert_eq!(parse_u64("42"), Some(42));
    assert_eq!(parse_u64("18446744073709551615"), Some(u64::MAX));
}

#[test]
fn reads_a_leading_plus_and_leading_zeros() {
    assert_eq!(parse_u64("+5"), Some(5));
    assert_eq!(parse_u64("007"), Some(7));
    assert_eq!(parse_u64("+000"), Some(0));
    assert_eq!(parse_u64("000000000000000000000000000018446744073709551615"), Some(u64::MAX));
}

#[test]
fn rejects_what_is_no_number() {
    assert_eq!(parse_u64(""), None);
    assert_eq!(parse_u64("+"), None);
    assert_eq!(parse_u64("-"), None);
    assert_eq!(parse_u64("-1"), None);
    assert_eq!(parse_u64("-0"), None);
    assert_eq!(parse_u64("++1"), None);
    assert_eq!(parse_u64("1+"), None);
    assert_eq!(parse_u64("abc"), None);
    assert_eq!(parse_u64("12a"), None);
    assert_eq!(parse_u64(" 1"), None);
    assert_eq!(parse_u64("1 "), None);
    assert_eq!(parse_u64("1.5"), None);
    assert_eq!(parse_u64("1_000"), None);
    assert_eq!(parse_u64("0x10"), None);
    assert_eq!(parse_u64("١٢٣"), None);
    assert_eq!(parse_u64("12é"), None);
}

#[test]
fn rejects_what_does_not_fit() {
    assert_eq!(parse_u64("18446744073709551616"), None);
    assert_eq!(parse_u64("18446744073709551620"), None);
    assert_eq!(parse_u64("99999999999999999999"), None);
    assert_eq!(parse_u64("184467440737095516150"), None);
    assert_eq!(parse_u64("+18446744073709551616"), None);
}

#[test]
fn unreadable_text_counts_as_zero() {
    assert_eq!(parse_u64_or_zero("17"), 17);
    assert_eq!(parse_u64_or_zero(""), 0);
    assert_eq!(parse_u64_or_zero("seventeen"), 0);
    assert_eq!(parse_u64_or_zero("18446744073709551616"), 0);
}

#[test]
fn reading_agrees_with_the_standard_library() {
    let samples = [
        "", "0", "1", "+1", "-1", "+", "-", "00", "+00", "0+", "9", "10", "1e3", "1.0", " 7", "7 ",
        "7\n", "18446744073709551615", "18446744073709551616", "+18446744073709551615",
        "018446744073709551615", "1844674407370955161", "٣", "½", "12345678901234567890123",
        "0000000000000000000000", "4294967296", "9007199254740993", "+-1", "--1", "0_0",
    ];
    for s in samples {
        assert_eq!(parse_u64(s), s.parse::<u64>().ok(), "reading {:?}", s);
        assert_eq!(parse_u64_or_zero(s), s.parse::<u64>().unwrap_or(0), "reading {:?}", s);
    }
}

#[test]
fn writing_agrees_with_the_standard_library() {
    let mut n: u64 = 0;
    let mut step: u64 = 1;
    for _ in 0..400 {
        assert_eq!(u64_to_decimal(n), n.to_string());
        assert_eq!(u64_to_decimal(u64::MAX - n), (u64::MAX - n).to_string());
        n = n.wrapping_add(step);
        step = step.wrapping_mul(3).wrapping_add(1);
    }
    for p in 0..20u32 {
        let v = 10u64.pow(p);
        assert_eq!(u64_to_decimal(v), v.to_string());
        assert_eq!(u64_to_decimal(v - 1), (v - 1).to_string());
    }
}

#[test]
fn written_numbers_read_back() {
    let values = [0u64, 1, 9, 10, 99, 100, 1 << 53, (1 << 53) + 1, u64::MAX - 1, u64::MAX];
    for n in values {
        assert_eq!(parse_u64(&u64_to_decimal(n)), Some(n));
    }
}

#[test]
fn encoding_keeps_every_field() {
    let id = native(9007199254740993, u64::MAX);
    let encoded: PulsarMessageIdData = id.into();
    assert_eq!(encoded.ledger_id, "9007199254740993");
    assert_eq!(encoded.entry_id, "18446744073709551615");
    assert_eq!(encoded.partition, Some(3));
    assert_eq!(encoded.batch_index, Some(-1));
    assert_eq!(encoded.ack_set, vec![-7, 0, i64::MAX, i64::MIN]);
    assert_eq!(encoded.batch_size, Some(16));
}

#[test]
fn decoding_keeps_every_field() {
    let decoded: MessageIdData = host("123", "456").into();
    assert_eq!(decoded.ledger_id, 123);
    assert_eq!(decoded.entry_id, 456);
    assert_eq!(decoded.partition, None);
    assert_eq!(decoded.batch_index, Some(2));
    assert_eq!(decoded.ack_set, vec![1, 2, 3]);
    assert_eq!(decoded.batch_size, None);
}

#[test]
fn decoding_takes_unreadable_numbers_for_zero() {
    let decoded: MessageIdData = host("not a number", "77").into();
    assert_eq!(decoded.ledger_id, 0);
    assert_eq!(decoded.entry_id, 77);
    let decoded: MessageIdData = host("5", "18446744073709551616").into();
    assert_eq!(decoded.ledger_id, 5);
    assert_eq!(decoded.entry_id, 0);
    let decoded: MessageIdData = host("", "-3").into();
    assert_eq!(decoded.ledger_id, 0);
    assert_eq!(decoded.entry_id, 0);
}

#[test]
fn readable_identifiers_are_told_from_unreadable_ones() {
    assert!(host("1", "2").is_readable());
    assert!(host("+1", "002").is_readable());
    assert!(!host("1", "").is_readable());
    assert!(!host("x", "2").is_readable());
    assert!(!host("18446744073709551616", "2").is_readable());
}

#[test]
fn encode_decode_encode_is_idempotent() {
    let ids = [native(0, 0), native(1, u64::MAX), native(9007199254740993, 42), native(u64::MAX, 7)];
    for id in ids {
        let once: PulsarMessageIdData = id.clone().into();
        let back: MessageIdData = once.clone().into();
        assert_eq!(back, id);
        let twice: PulsarMessageIdData = back.into();
        assert_eq!(twice, once);
    }
}

#[test]
fn decode_encode_gives_canonical_text_back() {
    let canonical = host("18446744073709551615", "0");
    let back: PulsarMessageIdData = MessageIdData::from(canonical.clone()).into();
    assert_eq!(back, canonical);
    let padded = host("+007", "junk");
    let back: PulsarMessageIdData = MessageIdData::from(padded.clone()).into();
    assert_eq!(back.ledger_id, "7");
    assert_eq!(back.entry_id, "0");
    let again: PulsarMessageIdData = MessageIdData::from(back.clone()).into();
    assert_eq!(again, back);
}

#[test]
fn message_identifiers_carry_their_batch_size() {
    let data = MessageData { id: native(11, 22), batch_size: Some(5) };
    let encoded: PulsarMessageId = data.clone().into();
    assert_eq!(encoded.id.ledger_id, "11");
    assert_eq!(encoded.id.entry_id, "22");
    assert_eq!(encoded.batch_size, Some(5));
    let back: MessageData = encoded.into();
    assert_eq!(back, data);
    let none = MessageData { id: native(1, 2), batch_size: None };
    let back: MessageData = PulsarMessageId::from(none.clone()).into();
    assert_eq!(back, none);
}

#[test]
fn a_message_holds_payload_and_identifier() {
    let message = PulsarMessage {
        data: vec![0, 159, 146, 150],
        message_id: PulsarMessageId { id: host("1", "2"), batch_size: None },
    };
    assert_eq!(message.data, vec![0, 159, 146, 150]);
    assert_eq!(message.message_id.id.ledger_id, "1");
    assert_eq!(message.clone(), message);
}
