//! The plaintext of one vote: five newline-terminated lines, clipped to the
//! size of the payload buffer.
//!
//! ```text
//! VOTE
//! {site}-{nonce in lower-case hex}
//! {username}
//! 127.0.0.1
//! 1234567890
//! ```

use vstd::prelude::*;
use vstd::string::StringSliceAdditionalSpecFns;

verus! {

/// Capacity of the payload buffer: no payload is longer than this.
pub const MAX_PAYLOAD_LEN: usize = 256;

/// The first line, `VOTE` and a newline.
pub open spec fn header_bytes() -> Seq<u8> {
    seq![86u8, 79u8, 84u8, 69u8, 10u8]
}

/// What follows the username: a newline, then the placeholder address line
/// `127.0.0.1` and the placeholder timestamp line `1234567890`.
pub open spec fn trailer_bytes() -> Seq<u8> {
    seq![
        10u8, 49u8, 50u8, 55u8, 46u8, 48u8, 46u8, 48u8, 46u8, 49u8, 10u8,
        49u8, 50u8, 51u8, 52u8, 53u8, 54u8, 55u8, 56u8, 57u8, 48u8, 10u8,
    ]
}

/// The ASCII character of one hexadecimal digit, `0`-`9` then `a`-`f`.
pub open spec fn hex_digit(d: nat) -> u8
    recommends
        d < 16,
{
    if d < 10 {
        (48 + d) as u8
    } else {
        (87 + d) as u8
    }
}

/// `n` in lower-case hexadecimal, most significant digit first, without
/// leading zeros (`0` itself is one digit).
pub open spec fn hex_digits(n: nat) -> Seq<u8>
    decreases n,
{
    if n < 16 {
        seq![hex_digit(n)]
    } else {
        hex_digits(n / 16).push(hex_digit(n % 16))
    }
}

/// The whole five-line message, before it is clipped to the buffer.
pub open spec fn vote_message(site: Seq<u8>, nonce: u32, username: Seq<u8>) -> Seq<u8> {
    header_bytes() + site + seq![45u8] + hex_digits(nonce as nat) + seq![10u8] + username
        + trailer_bytes()
}

/// The first `MAX_PAYLOAD_LEN` bytes of `s`, or all of `s` if it is shorter.
pub open spec fn clip(s: Seq<u8>) -> Seq<u8> {
    if s.len() <= MAX_PAYLOAD_LEN {
        s
    } else {
        s.subrange(0, MAX_PAYLOAD_LEN as int)
    }
}

/// The payload of one attempt: the message, clipped to the buffer.
pub open spec fn payload_bytes(site: Seq<u8>, nonce: u32, username: Seq<u8>) -> Seq<u8> {
    clip(vote_message(site, nonce, username))
}

/// Clipping after each piece gives the same bytes as clipping once at the end.
pub proof fn lemma_clip_append(a: Seq<u8>, b: Seq<u8>)
    ensures
        clip(clip(a) + b) == clip(a + b),
        clip(a).len() <= MAX_PAYLOAD_LEN,
{
    if a.len() > MAX_PAYLOAD_LEN {
        assert(clip(clip(a) + b) =~= clip(a + b));
    }
}

/// Appends the bytes of `piece` to `out` as far as the buffer has room.
fn append_clipped(out: &mut Vec<u8>, piece: &[u8])
    requires
        old(out)@.len() <= MAX_PAYLOAD_LEN,
    ensures
        final(out)@ == clip(old(out)@ + piece@),
        final(out)@.len() <= MAX_PAYLOAD_LEN,
{
    let ghost before = out@;
    let mut i: usize = 0;
    while i < piece.len() && out.len() < MAX_PAYLOAD_LEN
        invariant
            i <= piece.len(),
            out@.len() <= MAX_PAYLOAD_LEN,
            out@ == before + piece@.subrange(0, i as int),
        decreases piece.len() - i,
    {
        out.push(piece[i]);
        i += 1;
        assert(out@ =~= before + piece@.subrange(0, i as int));
    }
    proof {
        if i == piece.len() {
            assert(piece@.subrange(0, i as int) =~= piece@);
        } else {
            assert(out@ =~= (before + piece@).subrange(0, MAX_PAYLOAD_LEN as int));
        }
    }
}

/// Appends `n` in lower-case hexadecimal to `out`.
fn push_hex(out: &mut Vec<u8>, n: u32)
    ensures
        final(out)@ == old(out)@ + hex_digits(n as nat),
    decreases n,
{
    let ghost before = out@;
    if n >= 16 {
        push_hex(out, n / 16);
    }
    let d: u8 = (n % 16) as u8;
    let c: u8 = if d < 10 {
        48 + d
    } else {
        87 + d
    };
    out.push(c);
    assert(out@ =~= before + hex_digits(n as nat));
}

/// `n` in lower-case hexadecimal, as `{:x}` prints it.
pub fn hex_of(n: u32) -> (digits: Vec<u8>)
    ensures
        digits@ == hex_digits(n as nat),
{
    let mut digits: Vec<u8> = Vec::new();
    push_hex(&mut digits, n);
    assert(digits@ =~= hex_digits(n as nat));
    digits
}

/// Draws the nonce of one attempt with `fastrand::u32` over the full range,
/// from the generator that fastrand keeps for each thread. Nothing is claimed
/// of the value: any 32-bit number may come back.
#[verifier::external_body]
fn fresh_nonce() -> (nonce: u32) {
    fastrand::u32(..)
}

/// Builds the payload of one attempt for a given nonce.
///
/// The result is the five-line message for `site`, `nonce` and `username`,
/// clipped to `MAX_PAYLOAD_LEN` bytes.
pub fn build_with_nonce(site: &str, username: &str, nonce: u32) -> (payload: Vec<u8>)
    ensures
        payload@ == payload_bytes(site.spec_bytes(), nonce, username.spec_bytes()),
        payload@.len() <= MAX_PAYLOAD_LEN,
{
    let ghost s = site.spec_bytes();
    let ghost u = username.spec_bytes();
    let ghost h = hex_digits(nonce as nat);
    let header: Vec<u8> = vec![86u8, 79u8, 84u8, 69u8, 10u8];
    let dash: Vec<u8> = vec![45u8];
    let newline: Vec<u8> = vec![10u8];
    let trailer: Vec<u8> = vec![
        10u8, 49u8, 50u8, 55u8, 46u8, 48u8, 46u8, 48u8, 46u8, 49u8, 10u8,
        49u8, 50u8, 51u8, 52u8, 53u8, 54u8, 55u8, 56u8, 57u8, 48u8, 10u8,
    ];
    let hex = hex_of(nonce);

    let mut payload: Vec<u8> = Vec::with_capacity(MAX_PAYLOAD_LEN);
    append_clipped(&mut payload, header.as_slice());
    assert(payload@ == clip(header_bytes())) by {
        assert(Seq::<u8>::empty() + header@ =~= header_bytes());
    }
    append_clipped(&mut payload, site.as_bytes());
    proof {
        lemma_clip_append(header_bytes(), s);
    }
    append_clipped(&mut payload, dash.as_slice());
    proof {
        lemma_clip_append(header_bytes() + s, dash@);
    }
    append_clipped(&mut payload, hex.as_slice());
    proof {
        lemma_clip_append(header_bytes() + s + dash@, h);
    }
    append_clipped(&mut payload, newline.as_slice());
    proof {
        lemma_clip_append(header_bytes() + s + dash@ + h, newline@);
    }
    append_clipped(&mut payload, username.as_bytes());
    proof {
        lemma_clip_append(header_bytes() + s + dash@ + h + newline@, u);
    }
    append_clipped(&mut payload, trailer.as_slice());
    proof {
        lemma_clip_append(header_bytes() + s + dash@ + h + newline@ + u, trailer@);
        assert(dash@ =~= seq![45u8]);
        assert(newline@ =~= seq![10u8]);
        assert(trailer@ =~= trailer_bytes());
    }
    payload
}

/// Builds the payload of one attempt with a freshly drawn nonce.
///
/// The nonce only serves to make successive payloads differ, so the result
/// is pinned down only up to it: it is the clipped five-line message for
/// `site`, `username` and some 32-bit nonce.
pub fn build(site: &str, username: &str) -> (payload: Vec<u8>)
    ensures
        exists|nonce: u32|
            payload@ == #[trigger] payload_bytes(
                site.spec_bytes(),
                nonce,
                username.spec_bytes(),
            ),
        payload@.len() <= MAX_PAYLOAD_LEN,
{
    let nonce = fresh_nonce();
    build_with_nonce(site, username, nonce)
}

} // verus!
