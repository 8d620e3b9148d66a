use vstd::prelude::*;

use crate::api::{attribution_or_unknown, PuzzleType};
use crate::auth::Auth;
use crate::biliteral::{encode_biliteral, encoded_letters, is_group_of, random_variant, Variant};
use crate::scoring::{elapsed_millis, is_award_for, reward, ExpAward};
use crate::canonical::{canonical_text, identity_bytes, signed_message};
use crate::signature::{
    generate_sig, tag_accepted, tag_text, verify_solution, SigningKey, MAX_SIGNED_LEN,
};
use crate::substitution::{encipher, encode_substitution, random_sub_alphabet, SubAlphabet};

verus! {

/// How one challenge disguises its plaintext, with the parameters drawn for it.
pub enum EncodingScheme {
    Substitution(SubAlphabet),
    Biliteral(Variant),
}

/// A displayed puzzle: substitution keeps the text's shape, biliteral
/// encoding gives one group of glyphs for each letter.
pub enum Ciphertext {
    Text(String),
    Groups(Vec<String>),
}

/// Why a challenge could not be issued or redeemed.
#[derive(Clone, Copy, Debug, PartialEq, Eq, Structural)]
pub enum ChallengeError {
    /// The signature does not match the submitted fields and guess. A wrong
    /// guess, a tampered token and a signature that is not base64 all end here.
    SignatureMismatch,
    /// The challenge would be too long to sign.
    MessageTooLong,
    /// The datastore had no puzzle to offer.
    NoPuzzleAvailable,
    /// The datastore could not be reached.
    DatastoreUnavailable,
}

impl EncodingScheme {
    pub open spec fn wf(&self) -> bool {
        match self {
            EncodingScheme::Substitution(s) => s.wf(),
            EncodingScheme::Biliteral(v) => v.wf() && v.is_built_in(),
        }
    }

    /// The kind of puzzle that the scheme makes.
    pub open spec fn puzzle_type(&self) -> PuzzleType {
        match self {
            EncodingScheme::Substitution(_) => PuzzleType::Aristocrat,
            EncodingScheme::Biliteral(_) => PuzzleType::Baconian,
        }
    }

    /// `c` is a ciphertext of `p` under this scheme.
    pub open spec fn is_encoding(&self, p: Seq<char>, c: Ciphertext) -> bool {
        match (self, c) {
            (EncodingScheme::Substitution(s), Ciphertext::Text(t)) => t@ == encipher(s@, p),
            (EncodingScheme::Biliteral(v), Ciphertext::Groups(g)) => {
                &&& g@.len() == encoded_letters(p).len()
                &&& forall|i: int|
                    0 <= i < g@.len() ==> is_group_of(*v, encoded_letters(p)[i], (#[trigger] g@[i])@)
            },
            _ => false,
        }
    }
}

/// A fresh scheme for a puzzle of the given kind: a shuffled alphabet for
/// substitution, a built-in glyph variant for biliteral encoding.
pub fn choose_scheme(puzzle: PuzzleType) -> (r: EncodingScheme)
    ensures
        r.wf(),
        r.puzzle_type() == puzzle,
{
    match puzzle {
        PuzzleType::Aristocrat => EncodingScheme::Substitution(random_sub_alphabet()),
        PuzzleType::Baconian => EncodingScheme::Biliteral(random_variant()),
    }
}

/// The ciphertext of `plaintext` under `scheme`.
pub fn encode_with(scheme: &EncodingScheme, plaintext: &str) -> (r: Ciphertext)
    requires
        scheme.wf(),
    ensures
        scheme.is_encoding(plaintext@, r),
{
    match scheme {
        EncodingScheme::Substitution(s) => Ciphertext::Text(encode_substitution(s, plaintext)),
        EncodingScheme::Biliteral(v) => Ciphertext::Groups(encode_biliteral(v, plaintext)),
    }
}

/// An issued challenge, as handed to the client.
pub struct Challenge {
    pub id: i32,
    pub ciphertext: Ciphertext,
    pub sig: String,
    pub timestamp: u128,
    pub attribution: String,
}

/// Issues a challenge for the puzzle source `msg_id` with plaintext `message`
/// at time `timestamp`: a fresh scheme of the given kind disguises the
/// message, and the signature binds the solver, the id, the time and the
/// canonical plaintext. Nothing is kept on the server.
pub fn issue(
    key: &SigningKey,
    auth: &Option<Auth>,
    puzzle: PuzzleType,
    msg_id: i32,
    message: String,
    attribution: Option<String>,
    timestamp: u128,
) -> (r: Result<Challenge, ChallengeError>)
    requires
        key.wf(),
    ensures
        ({
            let data = signed_message(
                identity_bytes(*auth),
                msg_id,
                timestamp,
                canonical_text(message@),
            );
            &&& r is Ok <==> data.len() < MAX_SIGNED_LEN
            &&& r is Err ==> r == Err::<Challenge, ChallengeError>(ChallengeError::MessageTooLong)
            &&& r matches Ok(c) ==> {
                &&& c.id == msg_id
                &&& c.timestamp == timestamp
                &&& c.sig@ == tag_text(key@, data)
                &&& c.attribution@ == match attribution {
                    Some(a) => a@,
                    None => "Unknown"@,
                }
                &&& exists|s: EncodingScheme|
                    s.wf() && s.puzzle_type() == puzzle && #[trigger] s.is_encoding(
                        message@,
                        c.ciphertext,
                    )
            }
        }),
{
    let scheme = choose_scheme(puzzle);
    let ciphertext = encode_with(&scheme, message.as_str());
    let sig = match generate_sig(key, auth, msg_id, timestamp, message) {
        Some(s) => s,
        None => {
            return Err(ChallengeError::MessageTooLong);
        },
    };
    let c = Challenge {
        id: msg_id,
        ciphertext,
        sig,
        timestamp,
        attribution: attribution_or_unknown(&attribution),
    };
    assert(scheme.is_encoding(message@, c.ciphertext));
    Ok(c)
}

/// The signature of an issued challenge is accepted for every guess whose
/// canonical plaintext is that of the message, whatever its case and
/// punctuation, under the same key, solver, puzzle id and issue time.
pub proof fn lemma_issued_signature_accepts_guess(
    key: Seq<u8>,
    identity: Seq<u8>,
    msg_id: i32,
    timestamp: u128,
    message: Seq<char>,
    guess: Seq<char>,
)
    requires
        canonical_text(guess) == canonical_text(message),
        signed_message(identity, msg_id, timestamp, canonical_text(message)).len() < MAX_SIGNED_LEN,
    ensures
        tag_accepted(
            key,
            signed_message(identity, msg_id, timestamp, canonical_text(guess)),
            tag_text(key, signed_message(identity, msg_id, timestamp, canonical_text(message))),
        ),
{
}

/// The outcome of an authenticated submission: how long the solve took and,
/// for a solver with an identity, the experience it earns.
pub struct Grade {
    pub time_taken: u128,
    pub award: Option<ExpAward>,
}

/// Grades the guess `message` for the challenge with id `msg_id` issued at
/// `timestamp` and signed `sig`, at time `now`. The guess is accepted exactly
/// when the signature matches; the time taken is clamped at zero; only a
/// solver with an identity earns an award.
pub fn grade_submission(
    key: &SigningKey,
    auth: &Option<Auth>,
    puzzle: PuzzleType,
    msg_id: i32,
    message: String,
    sig: String,
    timestamp: u128,
    now: u128,
) -> (r: Result<Grade, ChallengeError>)
    requires
        key.wf(),
    ensures
        ({
            let data = signed_message(
                identity_bytes(*auth),
                msg_id,
                timestamp,
                canonical_text(message@),
            );
            &&& r is Ok <==> tag_accepted(key@, data, sig@)
            &&& r is Err ==> r == Err::<Grade, ChallengeError>(ChallengeError::SignatureMismatch)
            &&& r matches Ok(g) ==> {
                &&& g.time_taken == if now >= timestamp { now - timestamp } else { 0 }
                &&& g.award is Some <==> auth is Some
                &&& g.award matches Some(a) ==> is_award_for(
                    a,
                    g.time_taken as int,
                    puzzle.spec_scoring_rule(),
                )
            }
        }),
{
    if !verify_solution(key, auth, msg_id, timestamp, message, sig) {
        return Err(ChallengeError::SignatureMismatch);
    }
    let time_taken = elapsed_millis(timestamp, now);
    let award = match auth {
        Some(_) => Some(reward(time_taken, puzzle.scoring_rule())),
        None => None,
    };
    Ok(Grade { time_taken, award })
}

} // verus!
