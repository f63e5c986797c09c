use vstd::prelude::*;
use vstd::string::StringSliceAdditionalSpecFns;

verus! {

/// The lowercase hexadecimal digit for a value below sixteen.
pub open spec fn hex_digit_spec(n: u8) -> u8
    recommends
        n < 16,
{
    if n < 10 {
        (48 + n) as u8
    } else {
        (87 + n) as u8
    }
}

/// Two lowercase hexadecimal digits per byte, most significant first.
pub open spec fn hex_text(s: Seq<u8>) -> Seq<u8>
    decreases s.len(),
{
    if s.len() == 0 {
        Seq::empty()
    } else {
        let last = s.last();
        hex_text(s.drop_last()) + seq![hex_digit_spec(last / 16), hex_digit_spec(last % 16)]
    }
}

pub fn hex_digit(n: u8) -> (r: u8)
    requires
        n < 16,
    ensures
        r == hex_digit_spec(n),
{
    if n < 10 {
        48 + n
    } else {
        87 + n
    }
}

/// Appends the hexadecimal rendering of `bytes` to `out`.
pub fn push_hex(out: &mut Vec<u8>, bytes: &[u8])
    ensures
        final(out)@ == old(out)@ + hex_text(bytes@),
{
    let ghost start = out@;
    let mut i: usize = 0;
    while i < bytes.len()
        invariant
            i <= bytes@.len(),
            out@ == start + hex_text(bytes@.subrange(0, i as int)),
        decreases bytes@.len() - i,
    {
        let b = bytes[i];
        out.push(hex_digit(b / 16));
        out.push(hex_digit(b % 16));
        proof {
            let next = bytes@.subrange(0, i + 1);
            assert(next.drop_last() =~= bytes@.subrange(0, i as int));
            assert(next.last() == b);
        }
        i = i + 1;
    }
    assert(bytes@.subrange(0, i as int) =~= bytes@);
}

/// Appends every byte of `tail` to `out`.
pub fn push_bytes(out: &mut Vec<u8>, tail: &[u8])
    ensures
        final(out)@ == old(out)@ + tail@,
{
    let ghost start = out@;
    let mut i: usize = 0;
    while i < tail.len()
        invariant
            i <= tail@.len(),
            out@ == start + tail@.subrange(0, i as int),
        decreases tail@.len() - i,
    {
        out.push(tail[i]);
        assert(tail@.subrange(0, i + 1) =~= tail@.subrange(0, i as int).push(tail@[i as int]));
        i = i + 1;
    }
    assert(tail@.subrange(0, i as int) =~= tail@);
}

/// Size of the buffer that receives the client's module.
pub const SOLUTION_BUFFER_LEN: usize = 2000;

/// The four bytes every serialized Move module starts with.
pub open spec fn module_magic() -> Seq<u8> {
    seq![0xA1u8, 0x1Cu8, 0xEBu8, 0x0Bu8]
}

/// The bytes received from the client, cut or padded with zero bytes to the buffer size.
pub open spec fn solution_payload_spec(received: Seq<u8>) -> Seq<u8> {
    Seq::new(
        SOLUTION_BUFFER_LEN as nat,
        |i: int| if i < received.len() { received[i] } else { 0u8 },
    )
}

/// Whether a payload can be a serialized module at all: it begins with the module magic.
pub open spec fn has_module_magic(payload: Seq<u8>) -> bool {
    payload.len() >= 4 && payload.subrange(0, 4) == module_magic()
}

/// Builds the payload handed to module deserialization from the bytes read off the
/// connection: the fixed-size receive buffer with the received bytes at its start.
pub fn solution_payload(received: &[u8]) -> (r: Vec<u8>)
    ensures
        r@ == solution_payload_spec(received@),
{
    let mut r: Vec<u8> = Vec::new();
    let mut i: usize = 0;
    while i < SOLUTION_BUFFER_LEN
        invariant
            i <= SOLUTION_BUFFER_LEN,
            r@.len() == i,
            forall|j: int|
                0 <= j < i ==> r@[j] == (if j < received@.len() { received@[j] } else { 0u8 }),
        decreases SOLUTION_BUFFER_LEN - i,
    {
        if i < received.len() {
            r.push(received[i]);
        } else {
            r.push(0u8);
        }
        i = i + 1;
    }
    assert(r@ =~= solution_payload_spec(received@));
    r
}

/// Tests the payload for the module magic.
pub fn starts_with_module_magic(payload: &[u8]) -> (r: bool)
    ensures
        r == has_module_magic(payload@),
{
    if payload.len() < 4 {
        return false;
    }
    let r = payload[0] == 0xA1u8 && payload[1] == 0x1Cu8 && payload[2] == 0xEBu8 && payload[3]
        == 0x0Bu8;
    proof {
        if r {
            assert(payload@.subrange(0, 4) =~= module_magic());
        } else {
            if payload@.subrange(0, 4) == module_magic() {
                assert(payload@.subrange(0, 4)[0] == payload@[0]);
                assert(payload@.subrange(0, 4)[1] == payload@[1]);
                assert(payload@.subrange(0, 4)[2] == payload@[2]);
                assert(payload@.subrange(0, 4)[3] == payload@[3]);
            }
        }
    }
    r
}

/// Notice sent when a deployment is rejected.
pub open spec fn deploy_error_notice() -> Seq<u8> {
    "[SERVER] Error publishing module".spec_bytes()
}

/// Confirmation naming the challenge's address.
pub open spec fn challenge_line(address: Seq<u8>) -> Seq<u8> {
    "[SERVER] challenge modules published at: ".spec_bytes() + hex_text(address)
}

/// Confirmation naming the solution's address.
pub open spec fn solution_line(address: Seq<u8>) -> Seq<u8> {
    "[SERVER] Solution published at ".spec_bytes() + hex_text(address)
}

/// Final message carrying the secret token.
pub open spec fn token_line(token: Seq<u8>) -> Seq<u8> {
    "[SERVER] Congrats, flag: ".spec_bytes() + token
}

/// Final message when no token is configured.
pub open spec fn token_unavailable_notice() -> Seq<u8> {
    "[SERVER] Flag not found, please contact admin".spec_bytes()
}

pub fn deploy_error_message() -> (r: Vec<u8>)
    ensures
        r@ == deploy_error_notice(),
{
    let mut r: Vec<u8> = Vec::new();
    push_bytes(&mut r, "[SERVER] Error publishing module".as_bytes());
    r
}

pub fn challenge_message(address: &[u8]) -> (r: Vec<u8>)
    ensures
        r@ == challenge_line(address@),
{
    let mut r: Vec<u8> = Vec::new();
    push_bytes(&mut r, "[SERVER] challenge modules published at: ".as_bytes());
    push_hex(&mut r, address);
    r
}

pub fn solution_message(address: &[u8]) -> (r: Vec<u8>)
    ensures
        r@ == solution_line(address@),
{
    let mut r: Vec<u8> = Vec::new();
    push_bytes(&mut r, "[SERVER] Solution published at ".as_bytes());
    push_hex(&mut r, address);
    r
}

/// The final message of a solved session: the token when one is configured, else a notice.
pub fn token_message(token: &Option<Vec<u8>>) -> (r: Vec<u8>)
    ensures
        r@ == (match token {
            Some(t) => token_line(t@),
            None => token_unavailable_notice(),
        }),
{
    let mut r: Vec<u8> = Vec::new();
    match token {
        Some(t) => {
            push_bytes(&mut r, "[SERVER] Congrats, flag: ".as_bytes());
            push_bytes(&mut r, t.as_slice());
        },
        None => {
            push_bytes(&mut r, "[SERVER] Flag not found, please contact admin".as_bytes());
        },
    }
    r
}

} // verus!
