//! E2E Profile 4m-shaped protection for method calls: a 16-byte header
//! `Length(2) | Counter(2) | DataID(4) | CRC(4) | MsgType(2 bits)/MsgResult(2 bits)/SourceID(28 bits)`,
//! all big-endian, followed by the payload. The CRC (CRC-32/AUTOSAR) covers the header without
//! its CRC field, then the payload.
use vstd::prelude::*;

use crate::bytes::{be16, be32, from_be16, from_be32, lemma_be16_round_trip, lemma_be32_round_trip, lemma_from_be16_round_trip,
    lemma_from_be32_round_trip, push_be16, push_be32};
use crate::crc::{crc32_autosar, crc32_autosar_spec, lemma_crc32_detects_single_byte_change};

verus! {

/// Size of the Profile 4m header in bytes.
pub const HEADER_LEN: usize = 16;

/// Mask of the 28 bits of the Source ID inside the packed type/result/source word.
pub const SOURCE_ID_MASK: u32 = 0x0FFF_FFFF;

/// Source ID that `protect` writes for this caller.
pub const DEFAULT_SOURCE_ID: u32 = 0x1234567;

/// Whether a protected message is a request or a response.
#[derive(Debug, Clone, Copy, PartialEq, Eq)]
pub enum MessageType {
    Request,
    Response,
}

/// Outcome flag carried in a protected message.
#[derive(Debug, Clone, Copy, PartialEq, Eq)]
pub enum MessageResult {
    Success,
    Error,
}

/// The fields of a Profile 4m header other than its CRC.
#[derive(Debug, Clone, Copy, PartialEq, Eq)]
pub struct Profile4mHeader {
    pub length: u16,
    pub counter: u16,
    pub data_id: u32,
    pub message_type: MessageType,
    pub message_result: MessageResult,
    /// Only the low 28 bits are carried.
    pub source_id: u32,
}

/// Why `check` rejected a frame.
#[derive(Debug, Clone, Copy, PartialEq, Eq)]
pub enum CheckResult {
    /// The frame passed every check.
    Passed,
    WrongCrc,
    /// The counter did not advance by exactly one since the last accepted frame.
    WrongSequence,
}

/// The two-bit code of a message type.
pub open spec fn message_type_code(t: MessageType) -> u32 {
    match t {
        MessageType::Request => 0,
        MessageType::Response => 1,
    }
}

/// The two-bit code of a message result.
pub open spec fn message_result_code(r: MessageResult) -> u32 {
    match r {
        MessageResult::Success => 0,
        MessageResult::Error => 1,
    }
}

/// The packed `MsgType | MsgResult | SourceID` word of a header.
pub open spec fn packed_word(h: Profile4mHeader) -> u32 {
    (message_type_code(h.message_type) << 30u32) | (message_result_code(h.message_result) << 28u32) | (
    h.source_id & SOURCE_ID_MASK)
}

/// The bytes the CRC is computed over: the header without its CRC field, then the payload.
pub open spec fn crc_input_spec(h: Profile4mHeader, payload: Seq<u8>) -> Seq<u8> {
    be16(h.length) + be16(h.counter) + be32(h.data_id) + be32(packed_word(h)) + payload
}

/// The header `protect` builds for a payload of `payload_len` bytes.
pub open spec fn protect_header_spec(data_id: u32, counter: u16, msg_type: MessageType, payload_len: nat) -> Profile4mHeader {
    Profile4mHeader {
        length: (12 + payload_len) as u16,
        counter,
        data_id,
        message_type: msg_type,
        message_result: MessageResult::Success,
        source_id: DEFAULT_SOURCE_ID,
    }
}

/// The frame `protect` sends: the full header, CRC included, then the payload.
pub open spec fn protect_spec(data_id: u32, counter: u16, msg_type: MessageType, payload: Seq<u8>) -> Seq<u8> {
    let h = protect_header_spec(data_id, counter, msg_type, payload.len());
    let crc = crc32_autosar_spec(crc_input_spec(h, payload));
    be16(h.length) + be16(h.counter) + be32(h.data_id) + be32(crc) + be32(packed_word(h)) + payload
}

/// The packed type/result/source word of a received frame.
pub open spec fn frame_word(frame: Seq<u8>) -> u32 {
    from_be32(frame[12], frame[13], frame[14], frame[15])
}

/// The CRC field of a received frame.
pub open spec fn frame_crc(frame: Seq<u8>) -> u32 {
    from_be32(frame[8], frame[9], frame[10], frame[11])
}

/// The header `check` reads from a received frame: any nonzero type code reads as a response,
/// any nonzero result code as an error.
pub open spec fn decoded_header(frame: Seq<u8>) -> Profile4mHeader {
    let w = frame_word(frame);
    Profile4mHeader {
        length: from_be16(frame[0], frame[1]),
        counter: from_be16(frame[2], frame[3]),
        data_id: from_be32(frame[4], frame[5], frame[6], frame[7]),
        message_type: if (w >> 30u32) & 3 == 0 {
            MessageType::Request
        } else {
            MessageType::Response
        },
        message_result: if (w >> 28u32) & 3 == 0 {
            MessageResult::Success
        } else {
            MessageResult::Error
        },
        source_id: w & SOURCE_ID_MASK,
    }
}

/// The counter value that must follow `c`, wrapping at the top.
pub open spec fn counter_successor(c: u16) -> u16 {
    if c == 0xffff {
        0
    } else {
        (c + 1) as u16
    }
}

/// What `check` returns for `frame`, and the last counter it leaves behind.
pub open spec fn check_spec(frame: Seq<u8>, expected_data_id: u32, last: Option<u16>) -> (Result<Seq<u8>, CheckResult>, Option<u16>) {
    if frame.len() < 16 {
        (Err(CheckResult::WrongCrc), last)
    } else {
        let h = decoded_header(frame);
        let payload = frame.skip(16);
        if h.data_id != expected_data_id {
            (Err(CheckResult::WrongCrc), last)
        } else if crc32_autosar_spec(crc_input_spec(h, payload)) != frame_crc(frame) {
            (Err(CheckResult::WrongCrc), last)
        } else {
            match last {
                Some(prev) => if h.counter != counter_successor(prev) {
                    (Err(CheckResult::WrongSequence), Some(h.counter))
                } else {
                    (Ok(payload), Some(h.counter))
                },
                None => (Ok(payload), Some(h.counter)),
            }
        }
    }
}

/// The result of `check` with the payload slice taken by its contents.
pub open spec fn check_outcome(r: Result<&[u8], CheckResult>) -> Result<Seq<u8>, CheckResult> {
    match r {
        Ok(p) => Ok(p@),
        Err(e) => Err(e),
    }
}

fn message_type_code_exec(t: MessageType) -> (c: u32)
    ensures
        c == message_type_code(t),
{
    match t {
        MessageType::Request => 0,
        MessageType::Response => 1,
    }
}

fn message_result_code_exec(r: MessageResult) -> (c: u32)
    ensures
        c == message_result_code(r),
{
    match r {
        MessageResult::Success => 0,
        MessageResult::Error => 1,
    }
}

impl Profile4mHeader {
    /// The packed `MsgType | MsgResult | SourceID` word of this header.
    pub fn packed(&self) -> (w: u32)
        ensures
            w == packed_word(*self),
    {
        (message_type_code_exec(self.message_type) << 30) | (message_result_code_exec(self.message_result) << 28)
            | (self.source_id & SOURCE_ID_MASK)
    }

    /// CRC input: the entire header except the CRC field itself, then the user data.
    pub fn crc_input(&self, payload: &[u8]) -> (buf: Vec<u8>)
        ensures
            buf@ == crc_input_spec(*self, payload@),
    {
        let mut buf: Vec<u8> = Vec::new();
        push_be16(&mut buf, self.length);
        push_be16(&mut buf, self.counter);
        push_be32(&mut buf, self.data_id);
        push_be32(&mut buf, self.packed());
        let mut i: usize = 0;
        let ghost head = buf@;
        while i < payload.len()
            invariant
                i <= payload@.len(),
                buf@ == head + payload@.take(i as int),
            decreases payload@.len() - i,
        {
            buf.push(payload[i]);
            assert(payload@.take(i + 1) =~= payload@.take(i as int).push(payload@[i as int]));
            i = i + 1;
        }
        assert(payload@.take(payload@.len() as int) =~= payload@);
        buf
    }
}

/// Builds the 16-byte header + payload frame a caller or handler sends.
pub fn protect(data_id: u32, counter: u16, msg_type: MessageType, payload: &[u8]) -> (frame: Vec<u8>)
    requires
        payload@.len() + 16 <= usize::MAX,
    ensures
        frame@ == protect_spec(data_id, counter, msg_type, payload@),
        frame@.len() == payload@.len() + 16,
{
    let header = Profile4mHeader {
        length: (12 + payload.len()) as u16,
        counter,
        data_id,
        message_type: msg_type,
        message_result: MessageResult::Success,
        source_id: DEFAULT_SOURCE_ID,
    };
    let input = header.crc_input(payload);
    let crc = crc32_autosar(input.as_slice());
    let mut frame: Vec<u8> = Vec::new();
    push_be16(&mut frame, header.length);
    push_be16(&mut frame, header.counter);
    push_be32(&mut frame, header.data_id);
    push_be32(&mut frame, crc);
    push_be32(&mut frame, header.packed());
    let mut i: usize = 0;
    let ghost head = frame@;
    while i < payload.len()
        invariant
            i <= payload@.len(),
            frame@ == head + payload@.take(i as int),
        decreases payload@.len() - i,
    {
        frame.push(payload[i]);
        assert(payload@.take(i + 1) =~= payload@.take(i as int).push(payload@[i as int]));
        i = i + 1;
    }
    assert(payload@.take(payload@.len() as int) =~= payload@);
    frame
}

/// Checks a received frame before its payload reaches user code: the Data ID must match,
/// the CRC must match, and the counter must follow the last accepted one. On success the
/// payload is returned and `last_counter` records this frame's counter.
pub fn check<'a>(frame: &'a [u8], expected_data_id: u32, last_counter: &mut Option<u16>) -> (r: Result<&'a [u8], CheckResult>)
    ensures
        check_outcome(r) == check_spec(frame@, expected_data_id, *old(last_counter)).0,
        *final(last_counter) == check_spec(frame@, expected_data_id, *old(last_counter)).1,
{
    if frame.len() < 16 {
        return Err(CheckResult::WrongCrc);
    }
    let length: u16 = ((frame[0] as u16) << 8) | (frame[1] as u16);
    let counter: u16 = ((frame[2] as u16) << 8) | (frame[3] as u16);
    let data_id: u32 = ((frame[4] as u32) << 24) | ((frame[5] as u32) << 16) | ((frame[6] as u32) << 8) | (frame[7] as u32);
    let received_crc: u32 = ((frame[8] as u32) << 24) | ((frame[9] as u32) << 16) | ((frame[10] as u32) << 8) | (frame[11] as u32);
    let type_result_source: u32 = ((frame[12] as u32) << 24) | ((frame[13] as u32) << 16) | ((frame[14] as u32) << 8) | (frame[15] as u32);
    let (_, payload) = frame.split_at(16);

    if data_id != expected_data_id {
        return Err(CheckResult::WrongCrc);
    }

    let header = Profile4mHeader {
        length,
        counter,
        data_id,
        message_type: if (type_result_source >> 30) & 0b11 == 0 {
            MessageType::Request
        } else {
            MessageType::Response
        },
        message_result: if (type_result_source >> 28) & 0b11 == 0 {
            MessageResult::Success
        } else {
            MessageResult::Error
        },
        source_id: type_result_source & SOURCE_ID_MASK,
    };
    assert(header == decoded_header(frame@));
    assert(payload@ == frame@.skip(16));
    let input = header.crc_input(payload);
    let computed_crc = crc32_autosar(input.as_slice());
    if computed_crc != received_crc {
        return Err(CheckResult::WrongCrc);
    }

    if let Some(prev) = *last_counter {
        if counter != prev.wrapping_add(1) {
            *last_counter = Some(counter);
            return Err(CheckResult::WrongSequence);
        }
    }
    *last_counter = Some(counter);
    Ok(payload)
}


/// The packed word gives back the two codes and the masked source ID.
pub proof fn lemma_packed_word_decode(h: Profile4mHeader)
    ensures
        (packed_word(h) >> 30u32) & 3 == message_type_code(h.message_type),
        (packed_word(h) >> 28u32) & 3 == message_result_code(h.message_result),
        packed_word(h) & SOURCE_ID_MASK == h.source_id & SOURCE_ID_MASK,
{
    let tc = message_type_code(h.message_type);
    let rc = message_result_code(h.message_result);
    let s = h.source_id;
    assert(tc <= 1 && rc <= 1 ==> {
        let w = (tc << 30u32) | (rc << 28u32) | (s & 0x0FFF_FFFFu32);
        &&& (w >> 30u32) & 3 == tc
        &&& (w >> 28u32) & 3 == rc
        &&& w & 0x0FFF_FFFFu32 == s & 0x0FFF_FFFFu32
    }) by (bit_vector);
}

/// The 16 header bytes of a frame, CRC included.
pub open spec fn header_bytes(length: u16, counter: u16, data_id: u32, crc: u32, word: u32) -> Seq<u8> {
    be16(length) + be16(counter) + be32(data_id) + be32(crc) + be32(word)
}

/// Reading the fields of a frame gives back what was written into its header.
pub proof fn lemma_header_bytes_decode(length: u16, counter: u16, data_id: u32, crc: u32, word: u32, payload: Seq<u8>)
    ensures
        ({
            let f = header_bytes(length, counter, data_id, crc, word) + payload;
            &&& f.len() == payload.len() + 16
            &&& from_be16(f[0], f[1]) == length
            &&& from_be16(f[2], f[3]) == counter
            &&& from_be32(f[4], f[5], f[6], f[7]) == data_id
            &&& frame_crc(f) == crc
            &&& frame_word(f) == word
            &&& f.skip(16) == payload
        }),
{
    let hb = header_bytes(length, counter, data_id, crc, word);
    assert(hb =~= seq![
        be16(length)[0], be16(length)[1], be16(counter)[0], be16(counter)[1],
        be32(data_id)[0], be32(data_id)[1], be32(data_id)[2], be32(data_id)[3],
        be32(crc)[0], be32(crc)[1], be32(crc)[2], be32(crc)[3],
        be32(word)[0], be32(word)[1], be32(word)[2], be32(word)[3],
    ]);
    let f = hb + payload;
    assert(f.skip(16) =~= payload);
    lemma_be16_round_trip(length);
    lemma_be16_round_trip(counter);
    lemma_be32_round_trip(data_id);
    lemma_be32_round_trip(crc);
    lemma_be32_round_trip(word);
}

/// What `check` reads back from a frame that `protect` built: the same header, the CRC over
/// that header and the payload, and the payload itself.
pub proof fn lemma_protect_frame_fields(data_id: u32, counter: u16, msg_type: MessageType, payload: Seq<u8>)
    ensures
        ({
            let frame = protect_spec(data_id, counter, msg_type, payload);
            let h = protect_header_spec(data_id, counter, msg_type, payload.len());
            &&& frame.len() == payload.len() + 16
            &&& decoded_header(frame) == h
            &&& frame_crc(frame) == crc32_autosar_spec(crc_input_spec(h, payload))
            &&& frame.skip(16) == payload
        }),
{
    let h = protect_header_spec(data_id, counter, msg_type, payload.len());
    let crc = crc32_autosar_spec(crc_input_spec(h, payload));
    let w = packed_word(h);
    let frame = protect_spec(data_id, counter, msg_type, payload);
    assert(frame == header_bytes(h.length, h.counter, h.data_id, crc, w) + payload);
    lemma_header_bytes_decode(h.length, h.counter, h.data_id, crc, w, payload);
    lemma_packed_word_decode(h);
    assert(DEFAULT_SOURCE_ID & 0x0FFF_FFFFu32 == DEFAULT_SOURCE_ID) by (bit_vector);
    assert(decoded_header(frame) =~= h);
}

/// Round trip: a frame built by `protect` passes `check` with the same Data ID, handing back
/// the payload that was sent and recording its counter, whenever no counter was recorded yet or
/// the recorded one is the counter's predecessor.
pub proof fn lemma_protect_check_round_trip(
    data_id: u32,
    counter: u16,
    msg_type: MessageType,
    payload: Seq<u8>,
    last: Option<u16>,
)
    requires
        last is None || counter_successor(last->0) == counter,
    ensures
        check_spec(protect_spec(data_id, counter, msg_type, payload), data_id, last) == (
        Ok::<Seq<u8>, CheckResult>(payload), Some(counter)),
{
    lemma_protect_frame_fields(data_id, counter, msg_type, payload);
}

/// Replay: checking a protected frame again, after it was accepted, fails with
/// `WrongSequence` because its counter did not advance.
pub proof fn lemma_replay_rejected(data_id: u32, counter: u16, msg_type: MessageType, payload: Seq<u8>)
    ensures
        check_spec(protect_spec(data_id, counter, msg_type, payload), data_id, Some(counter)) == (
        Err::<Seq<u8>, CheckResult>(CheckResult::WrongSequence), Some(counter)),
{
    lemma_protect_frame_fields(data_id, counter, msg_type, payload);
}

/// A frame protected for one Data ID is rejected as `WrongCrc` by a receiver expecting
/// another, and the recorded counter is left as it was.
pub proof fn lemma_wrong_data_id_rejected(
    data_id: u32,
    expected_data_id: u32,
    counter: u16,
    msg_type: MessageType,
    payload: Seq<u8>,
    last: Option<u16>,
)
    requires
        data_id != expected_data_id,
    ensures
        check_spec(protect_spec(data_id, counter, msg_type, payload), expected_data_id, last) == (
        Err::<Seq<u8>, CheckResult>(CheckResult::WrongCrc), last),
{
    lemma_protect_frame_fields(data_id, counter, msg_type, payload);
}

/// Corruption: changing any single payload byte of a protected frame makes `check` reject it
/// as `WrongCrc`, leaving the recorded counter as it was.
pub proof fn lemma_payload_corruption_detected(
    data_id: u32,
    counter: u16,
    msg_type: MessageType,
    payload: Seq<u8>,
    k: int,
    b: u8,
    last: Option<u16>,
)
    requires
        0 <= k < payload.len(),
        payload[k] != b,
    ensures
        check_spec(protect_spec(data_id, counter, msg_type, payload).update(16 + k, b), data_id, last)
            == (Err::<Seq<u8>, CheckResult>(CheckResult::WrongCrc), last),
{
    let frame = protect_spec(data_id, counter, msg_type, payload);
    let bad = frame.update(16 + k, b);
    let h = protect_header_spec(data_id, counter, msg_type, payload.len());
    lemma_protect_frame_fields(data_id, counter, msg_type, payload);
    assert(bad.subrange(0, 16) =~= frame.subrange(0, 16));
    assert(forall|i: int| 0 <= i < 16 ==> bad[i] == #[trigger] frame[i]);
    assert(decoded_header(bad) == decoded_header(frame));
    assert(frame_crc(bad) == frame_crc(frame));
    assert(bad.skip(16) =~= payload.update(k, b));
    let input = crc_input_spec(h, payload);
    let prefix = be16(h.length) + be16(h.counter) + be32(h.data_id) + be32(packed_word(h));
    assert(prefix.len() == 12);
    assert(crc_input_spec(h, payload.update(k, b)) =~= input.update(12 + k, b));
    lemma_crc32_detects_single_byte_change(input, 12 + k, b);
}

/// Sequence: once a counter `prev` is recorded, a frame with a valid Data ID and CRC is accepted
/// exactly when its counter is `prev + 1` modulo 2^16. Any other counter, an older one
/// included, is rejected as `WrongSequence`. Either way the frame's counter is recorded.
pub proof fn lemma_counter_sequence(data_id: u32, counter: u16, msg_type: MessageType, payload: Seq<u8>, prev: u16)
    ensures
        check_spec(protect_spec(data_id, counter, msg_type, payload), data_id, Some(prev)) == (
            if counter as int == (prev as int + 1) % 0x10000 {
                Ok::<Seq<u8>, CheckResult>(payload)
            } else {
                Err::<Seq<u8>, CheckResult>(CheckResult::WrongSequence)
            },
            Some(counter),
        ),
{
    lemma_protect_frame_fields(data_id, counter, msg_type, payload);
}

/// The type/result/source word `check` feeds into the CRC for a received word `wb`: the type
/// and result codes read back as 0 or 1, then packed again with the source ID.
spec fn repacked_word(wb: u32) -> u32 {
    ((if (wb >> 30u32) & 3 == 0 { 0u32 } else { 1u32 }) << 30u32) | ((if (wb >> 28u32) & 3 == 0 { 0u32 } else { 1u32 })
        << 28u32) | ((wb & SOURCE_ID_MASK) & SOURCE_ID_MASK)
}

/// A received word whose first byte alone may have changed, for a sent word of type code
/// `tc`, result OK and the default source ID: repacking keeps the other three bytes, and the
/// first byte stays the sent one exactly when it was not changed, except for the two
/// response bytes that read back as the sent response.
proof fn lemma_repacked_word_bytes(tc: u32, y0: u8, y1: u8, y2: u8, y3: u8, first_changed: bool)
    requires
        tc <= 1,
        first_changed ==> y0 != (((tc << 30u32) | 0x0123_4567u32) >> 24u32) as u8,
        first_changed ==> !(tc == 1 && (y0 == 0x81 || y0 == 0xC1)),
        !first_changed ==> y0 == (((tc << 30u32) | 0x0123_4567u32) >> 24u32) as u8,
    ensures
        ({
            let pn = repacked_word(from_be32(y0, y1, y2, y3));
            &&& ((pn >> 16u32) as u8) == y1
            &&& ((pn >> 8u32) as u8) == y2
            &&& (pn as u8) == y3
            &&& first_changed ==> ((pn >> 24u32) as u8) != (((tc << 30u32) | 0x0123_4567u32) >> 24u32) as u8
            &&& !first_changed ==> ((pn >> 24u32) as u8) == (((tc << 30u32) | 0x0123_4567u32) >> 24u32) as u8
        }),
{
    let wb = from_be32(y0, y1, y2, y3);
    let pn = repacked_word(wb);
    assert(
        ((pn >> 16u32) as u8) == y1 && ((pn >> 8u32) as u8) == y2 && (pn as u8) == y3
            && (first_changed ==> ((pn >> 24u32) as u8) != (((tc << 30u32) | 0x0123_4567u32) >> 24u32) as u8)
            && (!first_changed ==> ((pn >> 24u32) as u8) == (((tc << 30u32) | 0x0123_4567u32) >> 24u32) as u8)
    ) by (bit_vector)
        requires
            tc <= 1,
            first_changed ==> y0 != (((tc << 30u32) | 0x0123_4567u32) >> 24u32) as u8,
            first_changed ==> !(tc == 1 && (y0 == 0x81 || y0 == 0xC1)),
            !first_changed ==> y0 == (((tc << 30u32) | 0x0123_4567u32) >> 24u32) as u8,
            wb == ((y0 as u32) << 24u32) | ((y1 as u32) << 16u32) | ((y2 as u32) << 8u32) | (y3 as u32),
            pn == ((if (wb >> 30u32) & 3 == 0 { 0u32 } else { 1u32 }) << 30u32) | ((if (wb >> 28u32) & 3 == 0 { 0u32 } else { 1u32 })
                << 28u32) | ((wb & 0x0FFF_FFFFu32) & 0x0FFF_FFFFu32),
    ;
}

/// Header corruption: changing any one header byte of a protected frame (the length, the
/// counter, the Data ID, the CRC or the type/result/source word) makes `check` reject it as
/// `WrongCrc` and leaves the recorded counter as it was. The one exception is a change of
/// a response's first word byte that reads back as the same response: `check` decodes any
/// nonzero type code as a response, so `0x81` and `0xC1` there stand for the `0x41` sent.
#[verifier::rlimit(40)]
pub proof fn lemma_header_corruption_detected(
    data_id: u32,
    counter: u16,
    msg_type: MessageType,
    payload: Seq<u8>,
    i: int,
    b: u8,
    last: Option<u16>,
)
    requires
        0 <= i < 16,
        protect_spec(data_id, counter, msg_type, payload)[i] != b,
        !(i == 12 && msg_type == MessageType::Response && (b == 0x81 || b == 0xC1)),
    ensures
        check_spec(protect_spec(data_id, counter, msg_type, payload).update(i, b), data_id, last)
            == (Err::<Seq<u8>, CheckResult>(CheckResult::WrongCrc), last),
{
    let h = protect_header_spec(data_id, counter, msg_type, payload.len());
    let crc = crc32_autosar_spec(crc_input_spec(h, payload));
    let w = packed_word(h);
    let frame = protect_spec(data_id, counter, msg_type, payload);
    let bad = frame.update(i, b);
    lemma_protect_frame_fields(data_id, counter, msg_type, payload);
    assert(frame == be16(h.length) + be16(h.counter) + be32(h.data_id) + be32(crc) + be32(w) + payload);
    assert(bad.skip(16) =~= payload);
    let dh = decoded_header(bad);
    let input = crc_input_spec(h, payload);
    if 4 <= i < 8 {
        lemma_from_be32_round_trip(bad[4], bad[5], bad[6], bad[7]);
        if dh.data_id == data_id {
            assert(be32(data_id)[i - 4] == frame[i]);
            assert(seq![bad[4], bad[5], bad[6], bad[7]][i - 4] == bad[i]);
        }
        assert(dh.data_id != data_id);
    } else if 8 <= i < 12 {
        assert(dh == decoded_header(frame));
        lemma_from_be32_round_trip(bad[8], bad[9], bad[10], bad[11]);
        if frame_crc(bad) == crc {
            assert(be32(crc)[i - 8] == frame[i]);
            assert(seq![bad[8], bad[9], bad[10], bad[11]][i - 8] == bad[i]);
        }
    } else {
        assert(dh.data_id == h.data_id);
        lemma_from_be16_round_trip(bad[0], bad[1]);
        lemma_from_be16_round_trip(bad[2], bad[3]);
        let tc = message_type_code(msg_type);
        assert(w == (tc << 30u32) | (0u32 << 28u32) | (DEFAULT_SOURCE_ID & SOURCE_ID_MASK));
        assert((tc << 30u32) | (0u32 << 28u32) | (0x0123_4567u32 & 0x0FFF_FFFFu32) == (tc << 30u32) | 0x0123_4567u32)
            by (bit_vector);
        let wb = frame_word(bad);
        assert(packed_word(dh) == repacked_word(wb));
        assert(be32(w) =~= seq![frame[12], frame[13], frame[14], frame[15]]);
        lemma_repacked_word_bytes(tc, bad[12], bad[13], bad[14], bad[15], i == 12);
        let pn = repacked_word(wb);
        assert(be32(pn) =~= seq![(pn >> 24u32) as u8, bad[13], bad[14], bad[15]]);
        let j: int = if i < 4 { i } else { i - 4 };
        let c: u8 = if i == 12 { (pn >> 24u32) as u8 } else { b };
        let input_bad = crc_input_spec(dh, payload);
        assert(frame_crc(bad) == frame_crc(frame));
        assert(input_bad =~= input.update(j, c));
        lemma_crc32_detects_single_byte_change(input, j, c);
    }
}
} // verus!
