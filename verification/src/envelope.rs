//! A Profile 4m-shaped header carried as a separate 16-byte field next to the payload it
//! protects, as a method's argument or return envelope does, and the counter and answer rules
//! of the callers and handlers that wrap a method with it.
use vstd::prelude::*;

use crate::bytes::{be16, be32, from_be16, from_be32, lemma_be16_round_trip, lemma_be32_round_trip, lemma_from_be16_round_trip,
    lemma_from_be32_round_trip};
use crate::crc::{crc32_autosar, crc32_autosar_spec, lemma_crc32_detects_single_byte_change};
use crate::e2e::{counter_successor, DEFAULT_SOURCE_ID, SOURCE_ID_MASK};

verus! {

/// Why `check_header` rejected a header.
#[derive(Debug, Clone, Copy, PartialEq, Eq)]
pub enum E2ECheckError {
    WrongDataId,
    WrongCrc,
}

/// The packed type/result/source word of an envelope header: response flag at bit 30,
/// result OK, the default source ID.
pub open spec fn envelope_word(is_response: bool) -> u32 {
    ((if is_response { 1u32 } else { 0u32 }) << 30u32) | (DEFAULT_SOURCE_ID & SOURCE_ID_MASK)
}

/// The bytes the envelope CRC covers.
pub open spec fn envelope_crc_input(length: u16, counter: u16, data_id: u32, word_bytes: Seq<u8>, payload: Seq<u8>) -> Seq<u8> {
    be16(length) + be16(counter) + be32(data_id) + word_bytes + payload
}

/// The header `protect_header` builds.
pub open spec fn protect_header_spec(data_id: u32, counter: u16, is_response: bool, payload: Seq<u8>) -> Seq<u8> {
    let length = (12 + payload.len()) as u16;
    let word = envelope_word(is_response);
    let crc = crc32_autosar_spec(envelope_crc_input(length, counter, data_id, be32(word), payload));
    be16(length) + be16(counter) + be32(data_id) + be32(crc) + be32(word)
}

/// What `check_header` returns for a header and the payload it is meant to protect.
pub open spec fn check_header_spec(header: Seq<u8>, payload: Seq<u8>, expected_data_id: u32) -> Result<u16, E2ECheckError> {
    let length = from_be16(header[0], header[1]);
    let counter = from_be16(header[2], header[3]);
    let data_id = from_be32(header[4], header[5], header[6], header[7]);
    let received_crc = from_be32(header[8], header[9], header[10], header[11]);
    if data_id != expected_data_id {
        Err(E2ECheckError::WrongDataId)
    } else if crc32_autosar_spec(envelope_crc_input(length, counter, data_id, header.subrange(12, 16), payload))
        != received_crc {
        Err(E2ECheckError::WrongCrc)
    } else {
        Ok(counter)
    }
}

fn be_bytes_u16(v: u16) -> (r: (u8, u8))
    ensures
        seq![r.0, r.1] == be16(v),
{
    ((v >> 8) as u8, v as u8)
}

fn be_bytes_u32(v: u32) -> (r: (u8, u8, u8, u8))
    ensures
        seq![r.0, r.1, r.2, r.3] == be32(v),
{
    ((v >> 24) as u8, (v >> 16) as u8, (v >> 8) as u8, v as u8)
}

fn envelope_crc(length: u16, counter: u16, data_id: u32, word: (u8, u8, u8, u8), payload: &[u8]) -> (crc: u32)
    requires
        payload@.len() + 16 <= usize::MAX,
    ensures
        crc == crc32_autosar_spec(envelope_crc_input(length, counter, data_id, seq![word.0, word.1, word.2, word.3], payload@)),
{
    let (l0, l1) = be_bytes_u16(length);
    let (c0, c1) = be_bytes_u16(counter);
    let (d0, d1, d2, d3) = be_bytes_u32(data_id);
    let mut input: Vec<u8> = vec![l0, l1, c0, c1, d0, d1, d2, d3, word.0, word.1, word.2, word.3];
    let ghost head = input@;
    assert(head =~= be16(length) + be16(counter) + be32(data_id) + seq![word.0, word.1, word.2, word.3]);
    let mut i: usize = 0;
    while i < payload.len()
        invariant
            i <= payload@.len(),
            input@ == head + payload@.take(i as int),
        decreases payload@.len() - i,
    {
        input.push(payload[i]);
        assert(payload@.take(i + 1) =~= payload@.take(i as int).push(payload@[i as int]));
        i = i + 1;
    }
    assert(payload@.take(payload@.len() as int) =~= payload@);
    crc32_autosar(input.as_slice())
}

/// Builds the 16-byte header protecting `payload` (CRC over
/// Length | Counter | DataID | MsgType/Result/SourceID | payload).
pub fn protect_header(data_id: u32, counter: u16, is_response: bool, payload: &[u8]) -> (header: [u8; 16])
    requires
        payload@.len() + 16 <= usize::MAX,
    ensures
        header@ == protect_header_spec(data_id, counter, is_response, payload@),
{
    let length = (12 + payload.len()) as u16;
    let flag: u32 = if is_response { 1 } else { 0 };
    let type_result_source: u32 = (flag << 30) | (DEFAULT_SOURCE_ID & SOURCE_ID_MASK);
    let w = be_bytes_u32(type_result_source);
    let crc = envelope_crc(length, counter, data_id, w, payload);
    let (l0, l1) = be_bytes_u16(length);
    let (c0, c1) = be_bytes_u16(counter);
    let (d0, d1, d2, d3) = be_bytes_u32(data_id);
    let (k0, k1, k2, k3) = be_bytes_u32(crc);
    let header: [u8; 16] = [l0, l1, c0, c1, d0, d1, d2, d3, k0, k1, k2, k3, w.0, w.1, w.2, w.3];
    assert(header@ =~= protect_header_spec(data_id, counter, is_response, payload@));
    header
}

/// The receive-side counterpart of `protect_header`: checks `header` against the payload it is
/// supposed to protect and returns the header's counter.
pub fn check_header(header: &[u8; 16], payload: &[u8], expected_data_id: u32) -> (r: Result<u16, E2ECheckError>)
    requires
        payload@.len() + 16 <= usize::MAX,
    ensures
        r == check_header_spec(header@, payload@, expected_data_id),
{
    let length: u16 = ((header[0] as u16) << 8) | (header[1] as u16);
    let counter: u16 = ((header[2] as u16) << 8) | (header[3] as u16);
    let data_id: u32 = ((header[4] as u32) << 24) | ((header[5] as u32) << 16) | ((header[6] as u32) << 8) | (header[7] as u32);
    let received_crc: u32 = ((header[8] as u32) << 24) | ((header[9] as u32) << 16) | ((header[10] as u32) << 8) | (header[11] as u32);
    if data_id != expected_data_id {
        return Err(E2ECheckError::WrongDataId);
    }
    let w = (header[12], header[13], header[14], header[15]);
    assert(seq![w.0, w.1, w.2, w.3] =~= header@.subrange(12, 16));
    if envelope_crc(length, counter, data_id, w, payload) != received_crc {
        return Err(E2ECheckError::WrongCrc);
    }
    Ok(counter)
}

/// This envelope header's own counter, read without validating anything.
pub fn header_counter(header: &[u8; 16]) -> (c: u16)
    ensures
        c == from_be16(header@[2], header@[3]),
{
    ((header[2] as u16) << 8) | (header[3] as u16)
}


/// The sequence-counter state of a caller that wraps every request and reply of one method
/// in an envelope: each request carries the next counter, and a reply is accepted only if its
/// envelope checks out.
pub struct ProtectedCallState {
    data_id: u32,
    next_counter: u16,
}

impl ProtectedCallState {
    /// The Data ID this caller protects with.
    pub closed spec fn spec_data_id(&self) -> u32 {
        self.data_id
    }

    /// The counter the next request will carry.
    pub closed spec fn spec_next_counter(&self) -> u16 {
        self.next_counter
    }

    /// A caller for `data_id` whose first request carries counter 0.
    pub fn new(data_id: u32) -> (s: Self)
        ensures
            s.spec_data_id() == data_id,
            s.spec_next_counter() == 0,
    {
        ProtectedCallState { data_id, next_counter: 0 }
    }

    /// Protects the arguments of a new request with the next counter and advances the counter
    /// by one, wrapping at the top.
    pub fn protect_request(&mut self, args: &[u8]) -> (header: [u8; 16])
        requires
            args@.len() + 16 <= usize::MAX,
        ensures
            header@ == protect_header_spec(old(self).spec_data_id(), old(self).spec_next_counter(), false, args@),
            final(self).spec_data_id() == old(self).spec_data_id(),
            final(self).spec_next_counter() == counter_successor(old(self).spec_next_counter()),
    {
        let counter = self.next_counter;
        self.next_counter = counter.wrapping_add(1);
        protect_header(self.data_id, counter, false, args)
    }

    /// Accepts a reply only if its envelope checks out against this caller's Data ID; any
    /// failure is reported as a failed call.
    pub fn accept_reply(&self, header: &[u8; 16], payload: &[u8]) -> (r: Result<(), crate::method_call::MethodFailedReason>)
        requires
            payload@.len() + 16 <= usize::MAX,
        ensures
            r is Ok <==> check_header_spec(header@, payload@, self.spec_data_id()) is Ok,
            r is Err ==> r == Err::<(), crate::method_call::MethodFailedReason>(crate::method_call::MethodFailedReason::CallFailed),
    {
        match check_header(header, payload, self.data_id) {
            Ok(_) => Ok(()),
            Err(_) => Err(crate::method_call::MethodFailedReason::CallFailed),
        }
    }
}

/// `n` zero bytes.
fn zero_bytes(n: usize) -> (z: Vec<u8>)
    ensures
        z@ == Seq::new(n as nat, |i: int| 0u8),
{
    let mut z: Vec<u8> = Vec::new();
    let mut i: usize = 0;
    while i < n
        invariant
            i <= n,
            z@ == Seq::new(i as nat, |k: int| 0u8),
        decreases n - i,
    {
        z.push(0u8);
        i = i + 1;
        assert(z@ =~= Seq::new(i as nat, |k: int| 0u8));
    }
    z
}

/// The handler side of an envelope-protected method: a request whose envelope checks out is
/// handed to `handler` and its answer is protected as a response carrying the request's
/// counter; a refused request is answered with an all-zero header and `return_size` zero bytes,
/// the return value's length.
pub fn handle_protected_request<F: Fn(&[u8]) -> Vec<u8>>(
    data_id: u32,
    header: &[u8; 16],
    payload: &[u8],
    handler: &F,
    return_size: usize,
) -> (r: ([u8; 16], Vec<u8>))
    requires
        payload@.len() + 16 <= usize::MAX,
        forall|p: &[u8]| #[trigger] handler.requires((p,)),
        forall|p: &[u8], out: Vec<u8>| #[trigger] handler.ensures((p,), out) ==> out@.len() + 16 <= usize::MAX,
    ensures
        match check_header_spec(header@, payload@, data_id) {
            Ok(counter) => handler.ensures((payload,), r.1) && r.0@ == protect_header_spec(data_id, counter, true, r.1@),
            Err(_) => r.0@ == Seq::new(16, |i: int| 0u8) && r.1@ == Seq::new(return_size as nat, |i: int| 0u8),
        },
{
    match check_header(header, payload, data_id) {
        Ok(counter) => {
            let answer = handler(payload);
            let out = protect_header(data_id, counter, true, answer.as_slice());
            (out, answer)
        },
        Err(_) => {
            let zero: [u8; 16] = [0u8; 16];
            assert(zero@ =~= Seq::new(16, |i: int| 0u8));
            (zero, zero_bytes(return_size))
        },
    }
}

/// The fields `check_header` reads from a header that `protect_header` built.
proof fn lemma_protect_header_fields(data_id: u32, counter: u16, is_response: bool, payload: Seq<u8>)
    ensures
        ({
            let h = protect_header_spec(data_id, counter, is_response, payload);
            let length = (12 + payload.len()) as u16;
            let word = envelope_word(is_response);
            &&& h.len() == 16
            &&& from_be16(h[0], h[1]) == length
            &&& from_be16(h[2], h[3]) == counter
            &&& from_be32(h[4], h[5], h[6], h[7]) == data_id
            &&& from_be32(h[8], h[9], h[10], h[11]) == crc32_autosar_spec(
                envelope_crc_input(length, counter, data_id, be32(word), payload),
            )
            &&& h.subrange(12, 16) == be32(word)
        }),
{
    let h = protect_header_spec(data_id, counter, is_response, payload);
    let length = (12 + payload.len()) as u16;
    let word = envelope_word(is_response);
    let crc = crc32_autosar_spec(envelope_crc_input(length, counter, data_id, be32(word), payload));
    assert(h =~= seq![
        be16(length)[0], be16(length)[1], be16(counter)[0], be16(counter)[1],
        be32(data_id)[0], be32(data_id)[1], be32(data_id)[2], be32(data_id)[3],
        be32(crc)[0], be32(crc)[1], be32(crc)[2], be32(crc)[3],
        be32(word)[0], be32(word)[1], be32(word)[2], be32(word)[3],
    ]);
    assert(h.subrange(12, 16) =~= be32(word));
    lemma_be16_round_trip(length);
    lemma_be16_round_trip(counter);
    lemma_be32_round_trip(data_id);
    lemma_be32_round_trip(crc);
}

/// Round trip: an envelope header built for a payload checks out against that payload with
/// the same Data ID and gives back the counter it was built with.
pub proof fn lemma_envelope_round_trip(data_id: u32, counter: u16, is_response: bool, payload: Seq<u8>)
    ensures
        check_header_spec(protect_header_spec(data_id, counter, is_response, payload), payload, data_id)
            == Ok::<u16, E2ECheckError>(counter),
{
    lemma_protect_header_fields(data_id, counter, is_response, payload);
}

/// An envelope checked against another Data ID is rejected as `WrongDataId`.
pub proof fn lemma_envelope_wrong_data_id(data_id: u32, expected_data_id: u32, counter: u16, is_response: bool, payload: Seq<u8>)
    requires
        data_id != expected_data_id,
    ensures
        check_header_spec(protect_header_spec(data_id, counter, is_response, payload), payload, expected_data_id)
            == Err::<u16, E2ECheckError>(E2ECheckError::WrongDataId),
{
    lemma_protect_header_fields(data_id, counter, is_response, payload);
}

/// Corruption: changing any single byte of the protected payload makes the envelope check
/// fail as `WrongCrc`.
pub proof fn lemma_envelope_payload_corruption_detected(
    data_id: u32,
    counter: u16,
    is_response: bool,
    payload: Seq<u8>,
    k: int,
    b: u8,
)
    requires
        0 <= k < payload.len(),
        payload[k] != b,
    ensures
        check_header_spec(protect_header_spec(data_id, counter, is_response, payload), payload.update(k, b), data_id)
            == Err::<u16, E2ECheckError>(E2ECheckError::WrongCrc),
{
    lemma_protect_header_fields(data_id, counter, is_response, payload);
    let length = (12 + payload.len()) as u16;
    let word = envelope_word(is_response);
    let input = envelope_crc_input(length, counter, data_id, be32(word), payload);
    assert(envelope_crc_input(length, counter, data_id, be32(word), payload.update(k, b)) =~= input.update(12 + k, b));
    lemma_crc32_detects_single_byte_change(input, 12 + k, b);
}

/// A refused request's all-zero answer never passes a caller's check for a nonzero Data ID.
pub proof fn lemma_refused_answer_rejected(payload: Seq<u8>, data_id: u32)
    requires
        data_id != 0,
    ensures
        check_header_spec(Seq::new(16, |i: int| 0u8), payload, data_id) == Err::<u16, E2ECheckError>(E2ECheckError::WrongDataId),
{
    let z = Seq::new(16, |i: int| 0u8);
    assert(z[4] == 0 && z[5] == 0 && z[6] == 0 && z[7] == 0);
    assert(from_be32(0, 0, 0, 0) == 0) by (bit_vector);
}

/// The type/result/source word of an envelope header reads as a response exactly when it was
/// built as one, with result OK and the default source ID.
pub proof fn lemma_envelope_word(data_id: u32, counter: u16, is_response: bool, payload: Seq<u8>)
    ensures
        ({
            let h = protect_header_spec(data_id, counter, is_response, payload);
            let w = from_be32(h[12], h[13], h[14], h[15]);
            &&& (w >> 30u32) & 3 == (if is_response { 1u32 } else { 0u32 })
            &&& (w >> 28u32) & 3 == 0
            &&& w & SOURCE_ID_MASK == DEFAULT_SOURCE_ID
        }),
{
    lemma_protect_header_fields(data_id, counter, is_response, payload);
    let h = protect_header_spec(data_id, counter, is_response, payload);
    let word = envelope_word(is_response);
    assert(h[12] == be32(word)[0] && h[13] == be32(word)[1] && h[14] == be32(word)[2] && h[15] == be32(word)[3]);
    lemma_be32_round_trip(word);
    let f: u32 = if is_response { 1u32 } else { 0u32 };
    assert(word == (f << 30u32) | (0x0123_4567u32 & 0x0FFF_FFFFu32));
    assert(f <= 1 ==> {
        let ww = (f << 30u32) | (0x0123_4567u32 & 0x0FFF_FFFFu32);
        (ww >> 30u32) & 3 == f && (ww >> 28u32) & 3 == 0 && ww & 0x0FFF_FFFFu32 == 0x0123_4567u32
    }) by (bit_vector);
}

/// Header corruption: changing any one byte of an envelope header makes the check against the
/// same payload and Data ID fail: as `WrongDataId` for a Data ID byte, as `WrongCrc` for a
/// length, counter, CRC or type/result/source byte.
#[verifier::rlimit(40)]
pub proof fn lemma_envelope_header_corruption_detected(
    data_id: u32,
    counter: u16,
    is_response: bool,
    payload: Seq<u8>,
    i: int,
    b: u8,
)
    requires
        0 <= i < 16,
        protect_header_spec(data_id, counter, is_response, payload)[i] != b,
    ensures
        check_header_spec(protect_header_spec(data_id, counter, is_response, payload).update(i, b), payload, data_id)
            == if 4 <= i < 8 {
            Err::<u16, E2ECheckError>(E2ECheckError::WrongDataId)
        } else {
            Err::<u16, E2ECheckError>(E2ECheckError::WrongCrc)
        },
{
    lemma_protect_header_fields(data_id, counter, is_response, payload);
    let h = protect_header_spec(data_id, counter, is_response, payload);
    let bad = h.update(i, b);
    let length = (12 + payload.len()) as u16;
    let word = envelope_word(is_response);
    let crc = crc32_autosar_spec(envelope_crc_input(length, counter, data_id, be32(word), payload));
    assert(h == be16(length) + be16(counter) + be32(data_id) + be32(crc) + be32(word));
    let bad_data_id = from_be32(bad[4], bad[5], bad[6], bad[7]);
    lemma_from_be32_round_trip(bad[4], bad[5], bad[6], bad[7]);
    if 4 <= i < 8 {
        if bad_data_id == data_id {
            assert(be32(data_id)[i - 4] == h[i]);
            assert(seq![bad[4], bad[5], bad[6], bad[7]][i - 4] == bad[i]);
        }
    } else if 8 <= i < 12 {
        assert(seq![bad[4], bad[5], bad[6], bad[7]] =~= be32(data_id));
        lemma_be32_round_trip(data_id);
        assert(bad_data_id == data_id);
        assert(bad.subrange(12, 16) =~= be32(word));
        lemma_from_be32_round_trip(bad[8], bad[9], bad[10], bad[11]);
        if from_be32(bad[8], bad[9], bad[10], bad[11]) == crc {
            assert(be32(crc)[i - 8] == h[i]);
            assert(seq![bad[8], bad[9], bad[10], bad[11]][i - 8] == bad[i]);
        }
        assert(from_be16(bad[0], bad[1]) == length);
        assert(from_be16(bad[2], bad[3]) == counter);
    } else {
        assert(seq![bad[4], bad[5], bad[6], bad[7]] =~= be32(data_id));
        lemma_be32_round_trip(data_id);
        assert(bad_data_id == data_id);
        lemma_from_be16_round_trip(bad[0], bad[1]);
        lemma_from_be16_round_trip(bad[2], bad[3]);
        let input = envelope_crc_input(length, counter, data_id, be32(word), payload);
        let bad_input = envelope_crc_input(
            from_be16(bad[0], bad[1]),
            from_be16(bad[2], bad[3]),
            bad_data_id,
            bad.subrange(12, 16),
            payload,
        );
        let j: int = if i < 4 { i } else { i - 4 };
        assert(bad_input =~= input.update(j, b));
        lemma_crc32_detects_single_byte_change(input, j, b);
        assert(from_be32(bad[8], bad[9], bad[10], bad[11]) == from_be32(h[8], h[9], h[10], h[11]));
    }
}

} // verus!
