//! Message identifiers in their two forms, and the codec between them.
//!
//! The broker names a message by a [`MessageIdData`], whose ledger and entry
//! numbers are full 64-bit integers. A host with double-precision numerics
//! gets a [`PulsarMessageIdData`], in which those two numbers are decimal
//! strings. Writing is exact; reading takes unreadable text for zero.

use crate::decimal::{
    decimal_digits, is_canonical_u64, lemma_parse_decimal_digits, parse_u64, parse_u64_or_zero,
    parse_u64_or_zero_spec, parse_u64_spec, u64_to_decimal,
};
use vstd::prelude::*;
use vstd::std_specs::convert::FromSpecImpl;

verus! {

/// The broker's identifier of one message.
#[derive(Clone, Debug, PartialEq, Eq, Hash)]
pub struct MessageIdData {
    pub ledger_id: u64,
    pub entry_id: u64,
    pub partition: Option<i32>,
    pub batch_index: Option<i32>,
    pub ack_set: Vec<i64>,
    pub batch_size: Option<i32>,
}

/// The broker's identifier together with the size of the batch it came in.
#[derive(Clone, Debug, PartialEq, Eq, Hash)]
pub struct MessageData {
    pub id: MessageIdData,
    pub batch_size: Option<i32>,
}

/// The host-safe form of [`MessageIdData`].
#[derive(Clone, Debug, PartialEq, Eq, Hash)]
pub struct PulsarMessageIdData {
    pub ledger_id: String,
    pub entry_id: String,
    pub partition: Option<i32>,
    pub batch_index: Option<i32>,
    pub ack_set: Vec<i64>,
    pub batch_size: Option<i32>,
}

/// The host-safe form of [`MessageData`].
#[derive(Clone, Debug, PartialEq, Eq, Hash)]
pub struct PulsarMessageId {
    pub id: PulsarMessageIdData,
    pub batch_size: Option<i32>,
}

/// One consumed message: its payload, untouched, and its identifier.
#[derive(Clone, Debug, PartialEq, Eq)]
pub struct PulsarMessage {
    pub data: Vec<u8>,
    pub message_id: PulsarMessageId,
}

/// What a [`MessageIdData`] holds.
pub ghost struct NativeId {
    pub ledger_id: u64,
    pub entry_id: u64,
    pub partition: Option<i32>,
    pub batch_index: Option<i32>,
    pub ack_set: Seq<i64>,
    pub batch_size: Option<i32>,
}

/// What a [`PulsarMessageIdData`] holds.
pub ghost struct HostId {
    pub ledger_id: Seq<char>,
    pub entry_id: Seq<char>,
    pub partition: Option<i32>,
    pub batch_index: Option<i32>,
    pub ack_set: Seq<i64>,
    pub batch_size: Option<i32>,
}

/// What a [`MessageData`] holds.
pub ghost struct NativeMessageId {
    pub id: NativeId,
    pub batch_size: Option<i32>,
}

/// What a [`PulsarMessageId`] holds.
pub ghost struct HostMessageId {
    pub id: HostId,
    pub batch_size: Option<i32>,
}

/// What a [`PulsarMessage`] holds.
pub ghost struct MessageContent {
    pub data: Seq<u8>,
    pub message_id: HostMessageId,
}

impl View for MessageIdData {
    type V = NativeId;

    open spec fn view(&self) -> NativeId {
        NativeId {
            ledger_id: self.ledger_id,
            entry_id: self.entry_id,
            partition: self.partition,
            batch_index: self.batch_index,
            ack_set: self.ack_set@,
            batch_size: self.batch_size,
        }
    }
}

impl View for PulsarMessageIdData {
    type V = HostId;

    open spec fn view(&self) -> HostId {
        HostId {
            ledger_id: self.ledger_id@,
            entry_id: self.entry_id@,
            partition: self.partition,
            batch_index: self.batch_index,
            ack_set: self.ack_set@,
            batch_size: self.batch_size,
        }
    }
}

impl View for MessageData {
    type V = NativeMessageId;

    open spec fn view(&self) -> NativeMessageId {
        NativeMessageId { id: self.id@, batch_size: self.batch_size }
    }
}

impl View for PulsarMessageId {
    type V = HostMessageId;

    open spec fn view(&self) -> HostMessageId {
        HostMessageId { id: self.id@, batch_size: self.batch_size }
    }
}

impl View for PulsarMessage {
    type V = MessageContent;

    open spec fn view(&self) -> MessageContent {
        MessageContent { data: self.data@, message_id: self.message_id@ }
    }
}

/// The host-safe form of a broker identifier: the two 64-bit numbers in
/// canonical decimal text, every other field as it is.
pub open spec fn encode_id(n: NativeId) -> HostId {
    HostId {
        ledger_id: decimal_digits(n.ledger_id as nat),
        entry_id: decimal_digits(n.entry_id as nat),
        partition: n.partition,
        batch_index: n.batch_index,
        ack_set: n.ack_set,
        batch_size: n.batch_size,
    }
}

/// The broker identifier that a host-safe one stands for: the two texts read
/// as decimal numbers, zero where a text is unreadable, every other field as
/// it is.
pub open spec fn decode_id(h: HostId) -> NativeId {
    NativeId {
        ledger_id: parse_u64_or_zero_spec(h.ledger_id),
        entry_id: parse_u64_or_zero_spec(h.entry_id),
        partition: h.partition,
        batch_index: h.batch_index,
        ack_set: h.ack_set,
        batch_size: h.batch_size,
    }
}

/// [`encode_id`] on the identifier inside, the batch size as it is.
pub open spec fn encode_message_id(n: NativeMessageId) -> HostMessageId {
    HostMessageId { id: encode_id(n.id), batch_size: n.batch_size }
}

/// [`decode_id`] on the identifier inside, the batch size as it is.
pub open spec fn decode_message_id(h: HostMessageId) -> NativeMessageId {
    NativeMessageId { id: decode_id(h.id), batch_size: h.batch_size }
}

/// Whether both numbers of a host-safe identifier are readable, so that
/// decoding it loses nothing to the zero fallback.
pub open spec fn is_readable(h: HostId) -> bool {
    parse_u64_spec(h.ledger_id) is Some && parse_u64_spec(h.entry_id) is Some
}

/// Whether both numbers of a host-safe identifier are in canonical decimal
/// text, as [`encode_id`] writes them.
pub open spec fn is_canonical(h: HostId) -> bool {
    is_canonical_u64(h.ledger_id) && is_canonical_u64(h.entry_id)
}

impl From<MessageIdData> for PulsarMessageIdData {
    fn from(val: MessageIdData) -> (r: PulsarMessageIdData)
        ensures
            r@ == encode_id(val@),
    {
        PulsarMessageIdData {
            ledger_id: u64_to_decimal(val.ledger_id),
            entry_id: u64_to_decimal(val.entry_id),
            partition: val.partition,
            batch_index: val.batch_index,
            ack_set: val.ack_set,
            batch_size: val.batch_size,
        }
    }
}

impl FromSpecImpl<MessageIdData> for PulsarMessageIdData {
    open spec fn obeys_from_spec() -> bool {
        false
    }

    open spec fn from_spec(v: MessageIdData) -> PulsarMessageIdData {
        arbitrary()
    }
}

impl From<PulsarMessageIdData> for MessageIdData {
    fn from(val: PulsarMessageIdData) -> (r: MessageIdData)
        ensures
            r@ == decode_id(val@),
    {
        MessageIdData {
            ledger_id: parse_u64_or_zero(val.ledger_id.as_str()),
            entry_id: parse_u64_or_zero(val.entry_id.as_str()),
            partition: val.partition,
            batch_index: val.batch_index,
            ack_set: val.ack_set,
            batch_size: val.batch_size,
        }
    }
}

impl FromSpecImpl<PulsarMessageIdData> for MessageIdData {
    open spec fn obeys_from_spec() -> bool {
        false
    }

    open spec fn from_spec(v: PulsarMessageIdData) -> MessageIdData {
        arbitrary()
    }
}

impl From<MessageData> for PulsarMessageId {
    fn from(val: MessageData) -> (r: PulsarMessageId)
        ensures
            r@ == encode_message_id(val@),
    {
        PulsarMessageId { id: PulsarMessageIdData::from(val.id), batch_size: val.batch_size }
    }
}

impl FromSpecImpl<MessageData> for PulsarMessageId {
    open spec fn obeys_from_spec() -> bool {
        false
    }

    open spec fn from_spec(v: MessageData) -> PulsarMessageId {
        arbitrary()
    }
}

impl From<PulsarMessageId> for MessageData {
    fn from(val: PulsarMessageId) -> (r: MessageData)
        ensures
            r@ == decode_message_id(val@),
    {
        MessageData { id: MessageIdData::from(val.id), batch_size: val.batch_size }
    }
}

impl FromSpecImpl<PulsarMessageId> for MessageData {
    open spec fn obeys_from_spec() -> bool {
        false
    }

    open spec fn from_spec(v: PulsarMessageId) -> MessageData {
        arbitrary()
    }
}

impl PulsarMessageIdData {
    /// Whether both numbers are readable decimal text, so that decoding
    /// takes neither of them for zero.
    pub fn is_readable(&self) -> (b: bool)
        ensures
            b == is_readable(self@),
    {
        parse_u64(self.ledger_id.as_str()).is_some() && parse_u64(self.entry_id.as_str()).is_some()
    }
}

/// Encoding and then decoding a broker identifier gives it back: ledger,
/// entry, partition, batch index, acknowledgment set and batch size all
/// survive, for every 64-bit ledger and entry number.
pub proof fn lemma_decode_encode_id(n: NativeId)
    ensures
        decode_id(encode_id(n)) == n,
        is_readable(encode_id(n)),
        is_canonical(encode_id(n)),
{
    lemma_parse_decimal_digits(n.ledger_id);
    lemma_parse_decimal_digits(n.entry_id);
}

/// Encoding, decoding and encoding again gives what the first encoding gave.
pub proof fn lemma_encode_idempotent(n: NativeId)
    ensures
        encode_id(decode_id(encode_id(n))) == encode_id(n),
{
    lemma_decode_encode_id(n);
}

/// Decoding, encoding and decoding again gives what the first decoding gave,
/// for every host-safe identifier, readable or not.
pub proof fn lemma_decode_idempotent(h: HostId)
    ensures
        decode_id(encode_id(decode_id(h))) == decode_id(h),
{
    lemma_decode_encode_id(decode_id(h));
}

/// Decoding and then encoding a host-safe identifier gives it back when its
/// two numbers are in canonical decimal text.
pub proof fn lemma_encode_decode_canonical(h: HostId)
    requires
        is_canonical(h),
    ensures
        encode_id(decode_id(h)) == h,
{
    let l = choose|n: u64| h.ledger_id == #[trigger] decimal_digits(n as nat);
    let e = choose|n: u64| h.entry_id == #[trigger] decimal_digits(n as nat);
    lemma_parse_decimal_digits(l);
    lemma_parse_decimal_digits(e);
}

/// An unreadable number decodes to zero, and a readable one to what it
/// denotes.
pub proof fn lemma_decode_fallback(h: HostId)
    ensures
        parse_u64_spec(h.ledger_id) is None ==> decode_id(h).ledger_id == 0,
        parse_u64_spec(h.entry_id) is None ==> decode_id(h).entry_id == 0,
        parse_u64_spec(h.ledger_id) matches Some(n) ==> decode_id(h).ledger_id == n,
        parse_u64_spec(h.entry_id) matches Some(n) ==> decode_id(h).entry_id == n,
{
}

/// The round trip of a message identifier with its batch size.
pub proof fn lemma_decode_encode_message_id(n: NativeMessageId)
    ensures
        decode_message_id(encode_message_id(n)) == n,
        encode_message_id(decode_message_id(encode_message_id(n))) == encode_message_id(n),
{
    lemma_decode_encode_id(n.id);
}


} // verus!
