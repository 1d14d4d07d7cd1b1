//! Framing of 16-bit words on the wire. Every word travels as its high byte,
//! its low byte and the CRC-8 of those two bytes. A request is the two opcode
//! bytes, which carry no checksum, followed by framed words; a reply is framed
//! words only.
use crate::command::Command;
use crate::error::DataError;
use crate::util::{crc8, crc8_matches, word_checksum};
use vstd::prelude::*;

verus! {

/// High byte of a word.
pub open spec fn hi_byte(w: u16) -> u8 {
    (w / 256) as u8
}

/// Low byte of a word.
pub open spec fn lo_byte(w: u16) -> u8 {
    (w % 256) as u8
}

/// The word whose big-endian bytes are `hi`, `lo`.
pub open spec fn be_word(hi: u8, lo: u8) -> u16 {
    (hi * 256 + lo) as u16
}

/// Checksum byte sent after a word.
pub open spec fn word_crc(w: u16) -> u8 {
    crc8(seq![hi_byte(w), lo_byte(w)])
}

/// Byte `i` of the framed form of `words`.
pub open spec fn framed_byte(words: Seq<u16>, i: int) -> u8 {
    let w = words[i / 3];
    if i % 3 == 0 {
        hi_byte(w)
    } else if i % 3 == 1 {
        lo_byte(w)
    } else {
        word_crc(w)
    }
}

/// `words` framed for the wire: three bytes per word.
pub open spec fn frame(words: Seq<u16>) -> Seq<u8> {
    Seq::new(3 * words.len(), |i: int| framed_byte(words, i))
}

/// A request: the opcode's two bytes, then the framed data words.
pub open spec fn request_frame(opcode: u16, words: Seq<u16>) -> Seq<u8> {
    seq![hi_byte(opcode), lo_byte(opcode)] + frame(words)
}

/// Whether the checksum of the `k`-th three-byte group of `data` matches.
pub open spec fn group_valid(data: Seq<u8>, k: int) -> bool {
    crc8(seq![data[3 * k], data[3 * k + 1]]) == data[3 * k + 2]
}

/// Whether every complete three-byte group of `data` has a matching checksum.
pub open spec fn groups_valid(data: Seq<u8>) -> bool {
    forall|k: int| 0 <= k < data.len() / 3 ==> #[trigger] group_valid(data, k)
}

/// The words carried by the three-byte groups of `data`, checksums dropped.
pub open spec fn words_of(data: Seq<u8>) -> Seq<u16> {
    Seq::new(data.len() / 3, |k: int| be_word(data[3 * k], data[3 * k + 1]))
}

/// Validation of a reply that should be `expected_len` bytes long.
pub open spec fn reply_check(data: Seq<u8>, expected_len: int) -> Result<(), DataError> {
    if data.len() != expected_len || data.len() % 3 != 0 {
        Err(DataError::ReceivedBufferWrongSize)
    } else if !groups_valid(data) {
        Err(DataError::CrcFailed)
    } else {
        Ok(())
    }
}

/// The words of a reply that should be `expected_len` bytes long, or why it is
/// rejected.
pub open spec fn decoded(data: Seq<u8>, expected_len: int) -> Result<Seq<u16>, DataError> {
    match reply_check(data, expected_len) {
        Ok(()) => Ok(words_of(data)),
        Err(e) => Err(e),
    }
}

/// The opcode and words of a request frame, or why it is rejected.
pub open spec fn request_decoded(data: Seq<u8>) -> Result<(u16, Seq<u16>), DataError> {
    if data.len() < 2 || (data.len() - 2) % 3 != 0 {
        Err(DataError::ReceivedBufferWrongSize)
    } else if !groups_valid(data.subrange(2, data.len() as int)) {
        Err(DataError::CrcFailed)
    } else {
        Ok((be_word(data[0], data[1]), words_of(data.subrange(2, data.len() as int))))
    }
}

proof fn lemma_word_split(w: u16)
    ensures
        be_word(hi_byte(w), lo_byte(w)) == w,
{
}

fn split_word(w: u16) -> (r: (u8, u8))
    ensures
        r.0 == hi_byte(w),
        r.1 == lo_byte(w),
{
    ((w / 256) as u8, (w % 256) as u8)
}

/// Appends the framed form of `words` to `out`.
fn push_frame(out: &mut Vec<u8>, words: &[u16])
    ensures
        final(out)@ == old(out)@ + frame(words@),
{
    let ghost start = out@;
    let mut i: usize = 0;
    while i < words.len()
        invariant
            i <= words@.len(),
            out@ == start + frame(words@.subrange(0, i as int)),
        decreases words@.len() - i,
    {
        let (hi, lo) = split_word(words[i]);
        out.push(hi);
        out.push(lo);
        out.push(word_checksum(hi, lo));
        proof {
            assert(frame(words@.subrange(0, i + 1)) =~= frame(words@.subrange(0, i as int)) + seq![
                hi,
                lo,
                word_crc(words@[i as int]),
            ]);
        }
        i = i + 1;
    }
    proof {
        assert(words@.subrange(0, words@.len() as int) =~= words@);
    }
}

/// Frames `words` as a reply: three bytes per word.
pub fn encode_words(words: &[u16]) -> (r: Vec<u8>)
    ensures
        r@ == frame(words@),
{
    let mut out: Vec<u8> = Vec::new();
    push_frame(&mut out, words);
    proof {
        assert(Seq::<u8>::empty() + frame(words@) =~= frame(words@));
    }
    out
}

/// Builds the request for `command` with the data `words`: the two opcode
/// bytes, then each word framed with its checksum.
pub fn encode_request(command: Command, words: &[u16]) -> (r: Vec<u8>)
    ensures
        r@ == request_frame(command.opcode(), words@),
{
    let (hi, lo) = split_word(command.to_u16());
    let mut out: Vec<u8> = Vec::new();
    out.push(hi);
    out.push(lo);
    proof {
        assert(out@ =~= seq![hi, lo]);
    }
    push_frame(&mut out, words);
    out
}

/// Whether every three-byte group of `data` from `start` on has a matching
/// checksum.
fn groups_ok(data: &[u8], start: usize) -> (r: bool)
    requires
        start <= data.len(),
        (data.len() - start) % 3 == 0,
    ensures
        r == groups_valid(data@.subrange(start as int, data@.len() as int)),
{
    let ghost body = data@.subrange(start as int, data@.len() as int);
    let n: usize = (data.len() - start) / 3;
    let mut k: usize = 0;
    while k < n
        invariant
            k <= n,
            start <= data@.len(),
            n == (data@.len() - start) / 3,
            (data@.len() - start) % 3 == 0,
            body == data@.subrange(start as int, data@.len() as int),
            forall|j: int| 0 <= j < k ==> #[trigger] group_valid(body, j),
        decreases n - k,
    {
        assert(start + 3 * k + 2 < data.len());
        let at: usize = start + 3 * k;
        let pair = &data[at..at + 2];
        assert(pair@ =~= seq![body[3 * k], body[3 * k + 1]]);
        if !crc8_matches(pair, data[at + 2]) {
            assert(!group_valid(body, k as int));
            return false;
        }
        k = k + 1;
    }
    true
}

/// Collects the words of the three-byte groups of `data` from `start` on.
fn collect_words(data: &[u8], start: usize) -> (r: Vec<u16>)
    requires
        start <= data.len(),
    ensures
        r@ == words_of(data@.subrange(start as int, data@.len() as int)),
{
    let ghost body = data@.subrange(start as int, data@.len() as int);
    let n: usize = (data.len() - start) / 3;
    let mut out: Vec<u16> = Vec::new();
    let mut k: usize = 0;
    while k < n
        invariant
            k <= n,
            start <= data@.len(),
            n == (data@.len() - start) / 3,
            body == data@.subrange(start as int, data@.len() as int),
            out@ == words_of(body).subrange(0, k as int),
        decreases n - k,
    {
        assert(start + 3 * k + 2 < data.len());
        let at: usize = start + 3 * k;
        let w: u16 = (data[at] as u16) * 256 + data[at + 1] as u16;
        out.push(w);
        proof {
            assert(out@ =~= words_of(body).subrange(0, k + 1));
        }
        k = k + 1;
    }
    proof {
        assert(out@ =~= words_of(body));
    }
    out
}

/// Checks a received reply: it must be `expected_len` bytes long, made of
/// three-byte groups, and every group's checksum must match.
pub fn check_deserialization(data: &[u8], expected_len: usize) -> (r: Result<(), DataError>)
    ensures
        r == reply_check(data@, expected_len as int),
{
    if data.len() != expected_len || data.len() % 3 != 0 {
        return Err(DataError::ReceivedBufferWrongSize);
    }
    proof {
        assert(data@.subrange(0, data@.len() as int) =~= data@);
    }
    if groups_ok(data, 0) {
        Ok(())
    } else {
        Err(DataError::CrcFailed)
    }
}

/// Checks a received reply (see [`check_deserialization`]) and returns its
/// words with the checksums stripped.
pub fn decode(data: &[u8], expected_len: usize) -> (r: Result<Vec<u16>, DataError>)
    ensures
        match r {
            Ok(words) => decoded(data@, expected_len as int) == Ok::<Seq<u16>, DataError>(words@),
            Err(e) => decoded(data@, expected_len as int) == Err::<Seq<u16>, DataError>(e),
        },
{
    match check_deserialization(data, expected_len) {
        Ok(()) => {
            proof {
                assert(data@.subrange(0, data@.len() as int) =~= data@);
            }
            Ok(collect_words(data, 0))
        },
        Err(e) => Err(e),
    }
}

/// Parses a request frame: the opcode, then framed words. The length must be
/// two more than a multiple of three and every checksum must match.
pub fn decode_request(data: &[u8]) -> (r: Result<(u16, Vec<u16>), DataError>)
    ensures
        match r {
            Ok((opcode, words)) => request_decoded(data@) == Ok::<(u16, Seq<u16>), DataError>(
                (opcode, words@),
            ),
            Err(e) => request_decoded(data@) == Err::<(u16, Seq<u16>), DataError>(e),
        },
{
    if data.len() < 2 || (data.len() - 2) % 3 != 0 {
        return Err(DataError::ReceivedBufferWrongSize);
    }
    if !groups_ok(data, 2) {
        return Err(DataError::CrcFailed);
    }
    let opcode: u16 = (data[0] as u16) * 256 + data[1] as u16;
    Ok((opcode, collect_words(data, 2)))
}

/// `data` with bit `bit` of byte `i` inverted.
pub open spec fn flip_bit(data: Seq<u8>, i: int, bit: u8) -> Seq<u8> {
    data.update(i, data[i] ^ (1u8 << bit))
}

proof fn lemma_flip_changes(x: u8, bit: u8)
    requires
        bit < 8,
    ensures
        x ^ (1u8 << bit) != x,
{
    assert(bit < 8 ==> x ^ (1u8 << bit) != x) by (bit_vector);
}

proof fn lemma_frame_groups(words: Seq<u16>)
    ensures
        frame(words).len() == 3 * words.len(),
        groups_valid(frame(words)),
        words_of(frame(words)) =~= words,
{
    let data = frame(words);
    assert forall|k: int| 0 <= k < data.len() / 3 implies #[trigger] group_valid(data, k) by {
        assert(data[3 * k] == hi_byte(words[k]));
        assert(data[3 * k + 1] == lo_byte(words[k]));
        assert(data[3 * k + 2] == word_crc(words[k]));
    }
    assert forall|k: int| 0 <= k < words.len() implies #[trigger] words_of(data)[k] == words[k] by {
        assert(data[3 * k] == hi_byte(words[k]));
        assert(data[3 * k + 1] == lo_byte(words[k]));
        lemma_word_split(words[k]);
    }
}

/// Decoding a framed reply gives back the words that were framed, and decoding
/// a request gives back its opcode and words.
pub proof fn lemma_decode_encode(opcode: u16, words: Seq<u16>)
    ensures
        decoded(frame(words), 3 * words.len() as int) == Ok::<Seq<u16>, DataError>(words),
        request_decoded(request_frame(opcode, words)) == Ok::<(u16, Seq<u16>), DataError>(
            (opcode, words),
        ),
{
    lemma_frame_groups(words);
    let req = request_frame(opcode, words);
    assert(req.subrange(2, req.len() as int) =~= frame(words));
    lemma_word_split(opcode);
}

/// Inverting any one bit of any checksum byte of a framed reply makes decoding
/// report a checksum failure.
pub proof fn lemma_corrupted_checksum_detected(words: Seq<u16>, k: int, bit: u8)
    requires
        0 <= k < words.len(),
        bit < 8,
    ensures
        decoded(flip_bit(frame(words), 3 * k + 2, bit), 3 * words.len() as int) == Err::<
            Seq<u16>,
            DataError,
        >(DataError::CrcFailed),
{
    let data = frame(words);
    let bad = flip_bit(data, 3 * k + 2, bit);
    lemma_frame_groups(words);
    assert(group_valid(data, k));
    lemma_flip_changes(data[3 * k + 2], bit);
    assert(!group_valid(bad, k));
}

/// Inverting any one bit of any checksum byte of a request frame makes parsing
/// it report a checksum failure.
pub proof fn lemma_corrupted_request_checksum_detected(
    opcode: u16,
    words: Seq<u16>,
    k: int,
    bit: u8,
)
    requires
        0 <= k < words.len(),
        bit < 8,
    ensures
        request_decoded(flip_bit(request_frame(opcode, words), 3 * k + 4, bit)) == Err::<
            (u16, Seq<u16>),
            DataError,
        >(DataError::CrcFailed),
{
    let req = request_frame(opcode, words);
    let data = frame(words);
    let bad = flip_bit(req, 3 * k + 4, bit);
    lemma_frame_groups(words);
    assert(req.subrange(2, req.len() as int) =~= data);
    let body = bad.subrange(2, bad.len() as int);
    assert(body[3 * k] == data[3 * k]);
    assert(body[3 * k + 1] == data[3 * k + 1]);
    assert(body[3 * k + 2] == data[3 * k + 2] ^ (1u8 << bit));
    assert(group_valid(data, k));
    lemma_flip_changes(data[3 * k + 2], bit);
    assert(!group_valid(body, k));
}

/// A reply whose length is not a multiple of three is rejected as having the
/// wrong size, whatever size was expected.
pub proof fn lemma_reply_length_rejected(data: Seq<u8>, expected_len: int)
    requires
        data.len() % 3 != 0,
    ensures
        decoded(data, expected_len) == Err::<Seq<u16>, DataError>(
            DataError::ReceivedBufferWrongSize,
        ),
{
}

/// A request whose length is not two more than a multiple of three is rejected
/// as having the wrong size.
pub proof fn lemma_request_length_rejected(data: Seq<u8>)
    requires
        data.len() < 2 || (data.len() - 2) % 3 != 0,
    ensures
        request_decoded(data) == Err::<(u16, Seq<u16>), DataError>(
            DataError::ReceivedBufferWrongSize,
        ),
{
}

} // verus!
