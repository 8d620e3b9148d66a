use vstd::prelude::*;

use vstd::utf8::encode_utf8;

use crate::auth::Auth;
use crate::text::push_char;

verus! {

/// Whether `c` has the Unicode `Alphabetic` property.
pub uninterp spec fn alphabetic(c: char) -> bool;

/// The Unicode lowercase form of a string.
pub uninterp spec fn lowercase_of(s: Seq<char>) -> Seq<char>;

/// Relies on `char::is_alphabetic`.
#[verifier::external_body]
fn is_alphabetic(c: char) -> (r: bool)
    ensures
        r == alphabetic(c),
{
    c.is_alphabetic()
}

/// Relies on `str::to_lowercase`.
#[verifier::external_body]
fn to_lowercase(s: &str) -> (r: String)
    ensures
        r@ == lowercase_of(s@),
{
    s.to_lowercase()
}

/// The `n` low bytes of `v`, least significant first.
pub open spec fn le_bytes(v: nat, n: nat) -> Seq<u8>
    decreases n,
{
    if n == 0 {
        Seq::empty()
    } else {
        seq![(v % 256) as u8] + le_bytes(v / 256, (n - 1) as nat)
    }
}

/// The two's complement bits of a 32-bit integer, read as unsigned.
pub open spec fn i32_bits(x: i32) -> nat {
    if x >= 0 {
        x as nat
    } else {
        (x + 0x1_0000_0000) as nat
    }
}

/// The bytes that identify the solver in a signed message: the UTF-8 bytes of
/// its user id, or nothing for an anonymous solver.
pub open spec fn identity_bytes(auth: Option<Auth>) -> Seq<u8> {
    match auth {
        Some(a) => encode_utf8(a.0.uid@),
        None => Seq::empty(),
    }
}

/// The canonical plaintext: the alphabetic characters of a message, lowercased.
pub open spec fn canonical_text(message: Seq<char>) -> Seq<char> {
    lowercase_of(message.filter(|c: char| alphabetic(c)))
}

/// The signed form of a challenge: the puzzle id (4 bytes) and the issue time
/// (16 bytes), both little-endian, then the solver's identity, then the UTF-8
/// bytes of the canonical plaintext.
pub open spec fn signed_message(
    identity: Seq<u8>,
    puzzle_id: i32,
    issued_at: u128,
    text: Seq<char>,
) -> Seq<u8> {
    le_bytes(i32_bits(puzzle_id), 4) + le_bytes(issued_at as nat, 16) + identity + encode_utf8(text)
}

/// Appends the `n` low bytes of `v` to `out`, least significant first.
fn push_le_bytes(out: &mut Vec<u8>, v: u128, n: usize)
    ensures
        final(out)@ == old(out)@ + le_bytes(v as nat, n as nat),
    decreases n,
{
    if n > 0 {
        out.push((v % 256) as u8);
        push_le_bytes(out, v / 256, n - 1);
        assert(out@ =~= old(out)@ + le_bytes(v as nat, n as nat));
    } else {
        assert(out@ =~= old(out)@ + le_bytes(v as nat, n as nat));
    }
}

/// Appends all of `bytes` to `out`.
fn push_all(out: &mut Vec<u8>, bytes: &[u8])
    ensures
        final(out)@ == old(out)@ + bytes@,
{
    let ghost start = out@;
    for i in 0..bytes.len()
        invariant
            out@ == start + bytes@.take(i as int),
    {
        out.push(bytes[i]);
        assert(out@ =~= start + bytes@.take(i as int + 1));
    }
    assert(bytes@.take(bytes@.len() as int) =~= bytes@);
}

/// The canonical plaintext of a message: its alphabetic characters, lowercased.
pub fn canonical_plaintext(message: &str) -> (r: String)
    ensures
        r@ == canonical_text(message@),
{
    let mut letters = String::new();
    for c in it: message.chars()
        invariant
            it.seq() == message@,
            letters@ == message@.take(it.index() as int).filter(|c: char| alphabetic(c)),
    {
        proof {
            let before = message@.take(it.index() as int);
            assert(message@.take(it.index() as int + 1) =~= before.push(c));
            before.lemma_filter_push(c, |c: char| alphabetic(c));
        }
        if is_alphabetic(c) {
            push_char(&mut letters, c);
        }
    }
    assert(message@.take(message@.len() as int) =~= message@);
    to_lowercase(letters.as_str())
}

/// The bytes that are signed for a challenge, built from the solver's
/// identity, the puzzle id, the issue time and the message.
pub fn canonical_message(auth: &Option<Auth>, puzzle_id: i32, issued_at: u128, message: &str) -> (r:
    Vec<u8>)
    ensures
        r@ == signed_message(identity_bytes(*auth), puzzle_id, issued_at, canonical_text(message@)),
{
    let mut out: Vec<u8> = Vec::new();
    let id_bits: u128 = if puzzle_id >= 0 {
        puzzle_id as u128
    } else {
        (puzzle_id as i64 + 0x1_0000_0000) as u128
    };
    push_le_bytes(&mut out, id_bits, 4);
    push_le_bytes(&mut out, issued_at, 16);
    match auth {
        Some(a) => push_all(&mut out, a.0.uid.as_str().as_bytes()),
        None => {},
    }
    let text = canonical_plaintext(message);
    push_all(&mut out, text.as_str().as_bytes());
    assert(out@ =~= signed_message(
        identity_bytes(*auth),
        puzzle_id,
        issued_at,
        canonical_text(message@),
    ));
    out
}

} // verus!
