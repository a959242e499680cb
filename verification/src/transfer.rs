//! The payload that a dialer sends, and what counts as getting it back.

use vstd::prelude::*;

verus! {

/// The number of bytes sent in each direction.
pub const PAYLOAD_LEN: usize = 1_048_576;

/// The byte that the payload repeats.
pub const PAYLOAD_BYTE: u8 = 0xa5;

/// The number of bytes of a digest.
pub const DIGEST_LEN: usize = 64;

/// The bytes that the dialer sends.
pub open spec fn payload_bytes() -> Seq<u8> {
    Seq::new(PAYLOAD_LEN as nat, |i: int| PAYLOAD_BYTE)
}

/// The BLAKE2b digest of a byte string, with the default parameters.
pub uninterp spec fn blake2b_digest(data: Seq<u8>) -> Seq<u8>;

/// Hashes a byte string with `blake2b_simd::blake2b`.
///
/// Claimed: the digest is a function of the bytes alone. What that function is
/// stays unsaid.
#[verifier::external_body]
fn blake2b(data: &[u8]) -> (digest: [u8; 64])
    ensures
        digest@ == blake2b_digest(data@),
{
    *blake2b_simd::blake2b(data).as_array()
}

/// The lower-case hexadecimal digit of a number below sixteen.
pub open spec fn hex_digit(n: int) -> char {
    if n < 10 {
        ('0' as int + n) as char
    } else {
        ('a' as int + (n - 10)) as char
    }
}

/// Bytes in lower-case hexadecimal, two digits each, high digit first.
pub open spec fn lower_hex(bytes: Seq<u8>) -> Seq<char> {
    Seq::new(
        2 * bytes.len(),
        |i: int|
            if i % 2 == 0 {
                hex_digit(bytes[i / 2] as int / 16)
            } else {
                hex_digit(bytes[i / 2] as int % 16)
            },
    )
}

/// Writes a digest with `blake2b_simd::Hash::to_hex`.
///
/// Claimed: the text is the digest in lower-case hexadecimal, two digits a
/// byte, high digit first.
#[verifier::external_body]
fn to_hex(digest: &[u8; 64]) -> (text: String)
    ensures
        text@ == lower_hex(digest@),
{
    blake2b_simd::Hash::from(digest).to_hex().to_string()
}

/// Why a payload did not come back.
#[derive(Clone, Copy, PartialEq, Eq, Structural, Debug)]
pub enum ReplyError {
    /// The reply has another length than the payload.
    Truncated,
    /// The reply has the right length and another digest.
    HashMismatch,
}

impl ReplyError {
    /// Says what is wrong with the reply.
    pub fn message(&self) -> (message: &'static str)
        ensures
            message@ == match self {
                ReplyError::Truncated => "truncated payload"@,
                ReplyError::HashMismatch => "payload hash mismatch"@,
            },
    {
        match self {
            ReplyError::Truncated => "truncated payload",
            ReplyError::HashMismatch => "payload hash mismatch",
        }
    }
}

/// What is said of an exchange that took too long.
pub fn timeout_message() -> (message: &'static str)
    ensures
        message@ == "payload exchange timed out"@,
{
    "payload exchange timed out"
}

/// Why the server does not echo a request.
#[derive(Clone, Copy, PartialEq, Eq, Structural, Debug)]
pub enum RequestError {
    /// The request has another length than the payload.
    Truncated,
}

impl RequestError {
    /// Says what is wrong with the request.
    pub fn message(&self) -> (message: &'static str)
        ensures
            message@ == "truncated request"@,
    {
        "truncated request"
    }
}

/// The verdict on a reply of a given length and digest: the digest of the
/// payload in hexadecimal, or what is wrong.
pub open spec fn reply_verdict(reply_len: nat, reply_digest: Seq<u8>, expected: Seq<u8>) -> Result<
    Seq<char>,
    ReplyError,
> {
    if reply_len != PAYLOAD_LEN {
        Err(ReplyError::Truncated)
    } else if reply_digest != expected {
        Err(ReplyError::HashMismatch)
    } else {
        Ok(lower_hex(expected))
    }
}

/// The view of a verdict.
pub open spec fn verdict_view(verdict: Result<String, ReplyError>) -> Result<
    Seq<char>,
    ReplyError,
> {
    match verdict {
        Ok(text) => Ok(text@),
        Err(error) => Err(error),
    }
}

/// Makes the payload.
pub fn payload() -> (bytes: Vec<u8>)
    ensures
        bytes@ == payload_bytes(),
{
    let mut bytes: Vec<u8> = Vec::with_capacity(PAYLOAD_LEN);
    let mut i: usize = 0;
    while i < PAYLOAD_LEN
        invariant
            i <= PAYLOAD_LEN,
            bytes@ == payload_bytes().take(i as int),
        decreases PAYLOAD_LEN - i,
    {
        bytes.push(PAYLOAD_BYTE);
        i += 1;
    }
    bytes
}

fn same_digest(a: &[u8; 64], b: &[u8; 64]) -> (same: bool)
    ensures
        same == (a@ == b@),
{
    let mut i: usize = 0;
    while i < DIGEST_LEN
        invariant
            i <= DIGEST_LEN,
            forall|j: int| 0 <= j < i ==> a@[j] == b@[j],
        decreases DIGEST_LEN - i,
    {
        if a[i] != b[i] {
            return false;
        }
        i += 1;
    }
    assert(a@ =~= b@);
    true
}

/// Judges a reply by its length and its digest.
pub fn judge_reply(reply_len: usize, reply_digest: &[u8; 64], expected: &[u8; 64]) -> (verdict:
    Result<String, ReplyError>)
    ensures
        verdict_view(verdict) == reply_verdict(reply_len as nat, reply_digest@, expected@),
        verdict matches Ok(text) ==> text@.len() == 128,
{
    if reply_len != PAYLOAD_LEN {
        return Err(ReplyError::Truncated);
    }
    if !same_digest(reply_digest, expected) {
        return Err(ReplyError::HashMismatch);
    }
    Ok(to_hex(expected))
}

/// Checks what came back for a payload that was sent: its length first, then
/// its digest. A good reply gives the digest in hexadecimal, 128 digits.
pub fn check_reply(sent: &Vec<u8>, reply: &Vec<u8>) -> (verdict: Result<String, ReplyError>)
    ensures
        verdict_view(verdict) == reply_verdict(
            reply@.len(),
            blake2b_digest(reply@),
            blake2b_digest(sent@),
        ),
        verdict matches Ok(text) ==> text@.len() == 128,
{
    let expected = blake2b(sent.as_slice());
    if reply.len() != PAYLOAD_LEN {
        return Err(ReplyError::Truncated);
    }
    let found = blake2b(reply.as_slice());
    judge_reply(reply.len(), &found, &expected)
}

/// What the server sends back for a request: the request itself, if it has the
/// length of a payload.
pub open spec fn echo_of(request: Seq<u8>) -> Result<Seq<u8>, RequestError> {
    if request.len() == PAYLOAD_LEN {
        Ok(request)
    } else {
        Err(RequestError::Truncated)
    }
}

/// Gives what the server sends back for a request.
pub fn echo(request: Vec<u8>) -> (reply: Result<Vec<u8>, RequestError>)
    ensures
        match echo_of(request@) {
            Ok(bytes) => reply matches Ok(found) && found@ == bytes,
            Err(error) => reply == Err::<Vec<u8>, RequestError>(error),
        },
{
    if request.len() == PAYLOAD_LEN {
        Ok(request)
    } else {
        Err(RequestError::Truncated)
    }
}

/// An exchange over an intact connection succeeds: the server echoes a payload
/// of the right length unchanged, and the dialer accepts the echo and reports
/// the digest of what it sent.
pub proof fn law_echoed_payload_is_accepted(sent: Seq<u8>)
    requires
        sent.len() == PAYLOAD_LEN,
    ensures
        echo_of(sent) == Ok::<Seq<u8>, RequestError>(sent),
        reply_verdict(sent.len(), blake2b_digest(sent), blake2b_digest(sent)) == Ok::<
            Seq<char>,
            ReplyError,
        >(lower_hex(blake2b_digest(sent))),
        payload_bytes().len() == PAYLOAD_LEN,
{
}

/// A reply is accepted exactly if it is as long as the payload and has the
/// digest of what was sent. One of another length is refused for its length,
/// whatever its digest.
pub proof fn law_reply_is_accepted_if_it_matches(sent: Seq<u8>, reply: Seq<u8>)
    ensures
        reply_verdict(reply.len(), blake2b_digest(reply), blake2b_digest(sent)) is Ok <==> (
        reply.len() == PAYLOAD_LEN && blake2b_digest(reply) == blake2b_digest(sent)),
        reply.len() != PAYLOAD_LEN ==> reply_verdict(
            reply.len(),
            blake2b_digest(reply),
            blake2b_digest(sent),
        ) == Err::<Seq<char>, ReplyError>(ReplyError::Truncated),
{
}

/// The text of a digest determines the digest.
pub proof fn law_hex_is_injective(a: Seq<u8>, b: Seq<u8>)
    requires
        lower_hex(a) == lower_hex(b),
    ensures
        a == b,
{
    assert(lower_hex(a).len() == 2 * a.len());
    assert(lower_hex(b).len() == 2 * b.len());
    assert forall|i: int| 0 <= i < a.len() implies a[i] == b[i] by {
        let high = 2 * i;
        let low = 2 * i + 1;
        assert(high / 2 == i && high % 2 == 0 && low / 2 == i && low % 2 == 1);
        assert(lower_hex(a)[high] == hex_digit(a[i] as int / 16));
        assert(lower_hex(b)[high] == hex_digit(b[i] as int / 16));
        assert(lower_hex(a)[low] == hex_digit(a[i] as int % 16));
        assert(lower_hex(b)[low] == hex_digit(b[i] as int % 16));
    }
    assert(a =~= b);
}

/// The payload is one mebibyte, and every byte of it is the same.
pub proof fn law_payload_is_one_mebibyte(i: int)
    ensures
        payload_bytes().len() == 1024 * 1024,
        0 <= i < 1024 * 1024 ==> payload_bytes()[i] == 0xa5,
{
}

/// The verdict on a reply, for every length and all digests: a reply of another
/// length than a payload is truncated, whatever its digest. One of the right
/// length is accepted exactly if its digest is the expected one, and then the text
/// of that digest is what is given.
pub proof fn law_verdict_on_a_reply(reply_len: nat, found: Seq<u8>, expected: Seq<u8>)
    ensures
        reply_verdict(reply_len, found, expected) == Err::<Seq<char>, ReplyError>(
            ReplyError::Truncated,
        ) <==> reply_len != 1024 * 1024,
        reply_verdict(reply_len, found, expected) == Err::<Seq<char>, ReplyError>(
            ReplyError::HashMismatch,
        ) <==> reply_len == 1024 * 1024 && found != expected,
        reply_verdict(reply_len, found, expected) is Ok <==> reply_len == 1024 * 1024 && found
            == expected,
        reply_verdict(reply_len, found, expected) matches Ok(text) ==> text == lower_hex(found),
{
}

/// The view of a verdict says as much as the verdict.
pub proof fn law_verdict_is_kept_as_it_is(verdict: Result<String, ReplyError>)
    ensures
        verdict_view(verdict) is Ok <==> verdict is Ok,
        verdict matches Ok(text) ==> verdict_view(verdict) == Ok::<Seq<char>, ReplyError>(text@),
        verdict matches Err(error) ==> verdict_view(verdict) == Err::<Seq<char>, ReplyError>(error),
{
}

/// The server echoes a request of the length of a payload byte for byte, whatever
/// it holds, and no other.
pub proof fn law_echo_is_the_request(request: Seq<u8>)
    ensures
        echo_of(request) is Ok <==> request.len() == 1024 * 1024,
        echo_of(request) matches Ok(reply) ==> reply == request,
        echo_of(request) matches Err(error) ==> error is Truncated,
{
}

/// The text of a digest has two digits for each byte, and they read back as the
/// byte: the first counts sixteens, the second ones.
pub proof fn law_hex_reads_back(bytes: Seq<u8>, i: int)
    requires
        0 <= i < bytes.len(),
    ensures
        lower_hex(bytes).len() == 2 * bytes.len(),
        lower_hex(bytes)[2 * i] == "0123456789abcdef"@[bytes[i] as int / 16],
        lower_hex(bytes)[2 * i + 1] == "0123456789abcdef"@[bytes[i] as int % 16],
{
    reveal_strlit("0123456789abcdef");
    let high = 2 * i;
    let low = 2 * i + 1;
    assert(high / 2 == i && high % 2 == 0 && low / 2 == i && low % 2 == 1);
    let h = bytes[i] as int / 16;
    let l = bytes[i] as int % 16;
    assert(0 <= h < 16 && 0 <= l < 16);
    assert(lower_hex(bytes)[high] == hex_digit(h));
    assert(lower_hex(bytes)[low] == hex_digit(l));
    lemma_hex_digit(h);
    lemma_hex_digit(l);
}

proof fn lemma_hex_digit(n: int)
    requires
        0 <= n < 16,
    ensures
        hex_digit(n) == "0123456789abcdef"@[n],
{
    reveal_strlit("0123456789abcdef");
}

} // verus!
