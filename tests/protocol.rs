use cryptopuz::api::{NewSolve, ProfileResponse, PuzzleType, SolveResponse};
use cryptopuz::auth::{Auth, Claims};
use cryptopuz::challenge::{
    choose_scheme, encode_with, grade_submission, issue, Ciphertext, ChallengeError,
    EncodingScheme,
};
use cryptopuz::models::{Message, Solve, User};
use cryptopuz::signature::SigningKey;

fn key() -> SigningKey {
    SigningKey::from_bytes(vec![42u8; 32]).unwrap()
}

fn solver() -> Option<Auth> {
    Some(Auth(Claims { uid: "u-1".to_string(), username: "ann".to_string(), iat: 0, exp: 9 }))
}

fn sample_user(experience: i32) -> User {
    User {
        id: "u-1".to_string(),
        username: "ann".to_string(),
        email: None,
        password_hash: "h".to_string(),
        solved: 3,
        experience,
    }
}

const QUOTE: &str = "To be, or not to be.";

#[test]
fn issue_substitution_challenge() {
    let k = key();
    let c = issue(&k, &None, PuzzleType::Aristocrat, 7, QUOTE.to_string(), None, 1_000).unwrap();
    assert_eq!(c.id, 7);
    assert_eq!(c.timestamp, 1_000);
    assert_eq!(c.attribution, "Unknown");
    match c.ciphertext {
        Ciphertext::Text(t) => {
            assert_eq!(t.chars().count(), QUOTE.chars().count());
            for (a, b) in QUOTE.chars().zip(t.chars()) {
                if !a.is_ascii_alphabetic() {
                    assert_eq!(a, b);
                }
            }
        }
        Ciphertext::Groups(_) => panic!("substitution gives text"),
    }
}

#[test]
fn issue_biliteral_challenge() {
    let k = key();
    let c = issue(&k, &None, PuzzleType::Baconian, 7, QUOTE.to_string(), Some("Hamlet".to_string()), 1_000)
        .unwrap();
    assert_eq!(c.attribution, "Hamlet");
    match c.ciphertext {
        Ciphertext::Groups(g) => {
            assert_eq!(g.len(), 13);
            assert!(g.iter().all(|x| x.chars().count() == 5));
        }
        Ciphertext::Text(_) => panic!("biliteral gives groups"),
    }
}

#[test]
fn correct_solve_is_rewarded() {
    let k = key();
    let c = issue(&k, &solver(), PuzzleType::Aristocrat, 7, QUOTE.to_string(), None, 1_000).unwrap();
    let g = grade_submission(&k, &solver(), PuzzleType::Aristocrat, 7, "to be or not to be".to_string(), c.sig, 1_000, 41_000)
        .unwrap();
    assert_eq!(g.time_taken, 40_000);
    let award = g.award.unwrap();
    assert_eq!(award.total, 150);
    assert_eq!(award.sources.len(), 2);
}

#[test]
fn tampered_guess_is_rejected() {
    let k = key();
    let c = issue(&k, &solver(), PuzzleType::Aristocrat, 7, QUOTE.to_string(), None, 1_000).unwrap();
    let r = grade_submission(&k, &solver(), PuzzleType::Aristocrat, 7, "To be, or not to bo.".to_string(), c.sig, 1_000, 2_000);
    assert!(matches!(r, Err(ChallengeError::SignatureMismatch)));
}

#[test]
fn tampered_token_fields_are_rejected() {
    let k = key();
    let c = issue(&k, &None, PuzzleType::Baconian, 7, QUOTE.to_string(), None, 1_000).unwrap();
    let guess = QUOTE.to_string();
    assert!(grade_submission(&k, &None, PuzzleType::Baconian, 8, guess.clone(), c.sig.clone(), 1_000, 2_000).is_err());
    assert!(grade_submission(&k, &None, PuzzleType::Baconian, 7, guess.clone(), c.sig.clone(), 999, 2_000).is_err());
    assert!(grade_submission(&k, &None, PuzzleType::Baconian, 7, guess, "%%%".to_string(), 1_000, 2_000).is_err());
}

#[test]
fn anonymous_redeem_earns_nothing() {
    let k = key();
    let c = issue(&k, &None, PuzzleType::Baconian, 7, QUOTE.to_string(), None, 1_000).unwrap();
    let g = grade_submission(&k, &None, PuzzleType::Baconian, 7, "TOBEORNOTTOBE".to_string(), c.sig, 1_000, 3_500)
        .unwrap();
    assert_eq!(g.time_taken, 2_500);
    assert!(g.award.is_none());
}

#[test]
fn clock_skew_gives_zero_time() {
    let k = key();
    let c = issue(&k, &solver(), PuzzleType::Aristocrat, 1, "abc".to_string(), None, 5_000).unwrap();
    let g = grade_submission(&k, &solver(), PuzzleType::Aristocrat, 1, "abc".to_string(), c.sig, 5_000, 4_000)
        .unwrap();
    assert_eq!(g.time_taken, 0);
    assert_eq!(g.award.unwrap().total, 200);
}

#[test]
fn schemes_match_their_kind() {
    assert!(matches!(choose_scheme(PuzzleType::Aristocrat), EncodingScheme::Substitution(_)));
    assert!(matches!(choose_scheme(PuzzleType::Baconian), EncodingScheme::Biliteral(_)));
    match encode_with(&choose_scheme(PuzzleType::Aristocrat), "Ab!") {
        Ciphertext::Text(t) => assert!(t.ends_with('!')),
        Ciphertext::Groups(_) => panic!("substitution gives text"),
    }
}

#[test]
fn puzzle_type_codes() {
    assert_eq!(PuzzleType::Aristocrat.code(), 0);
    assert_eq!(PuzzleType::Baconian.code(), 1);
    assert_eq!(PuzzleType::try_from(0), Ok(PuzzleType::Aristocrat));
    assert_eq!(PuzzleType::try_from(1), Ok(PuzzleType::Baconian));
    assert_eq!(PuzzleType::try_from(2).unwrap_err().value, 2);
    assert!(PuzzleType::try_from(-1).is_err());
}

#[test]
fn new_solve_fields() {
    let s = NewSolve::new(PuzzleType::Baconian, 4, &sample_user(0), 1234, 150);
    assert_eq!(s.puzzle_type, 1);
    assert_eq!(s.message_id, 4);
    assert_eq!(s.solver, "u-1");
    assert_eq!(s.time_taken, 1234);
    assert_eq!(s.exp_gained, 150);
}

#[test]
fn profile_from_user() {
    let p = ProfileResponse::from(sample_user(2500));
    assert_eq!(p.level, 3);
    assert_eq!(p.exp_through, 500);
    assert_eq!(p.exp_required, 1000);
    assert_eq!(p.experience, 2500);
    assert_eq!(p.username, "ann");
    assert_eq!(p.solved, 3);
}

#[test]
fn solve_listing() {
    let m = Message { id: 4, message: "Quote".to_string(), patristocrat_hint: None, attribution: None };
    let s = Solve { id: 1, puzzle_type: 0, message_id: 4, solver: "u-1".to_string(), time_taken: 9, exp_gained: 200 };
    let r = SolveResponse::new(&sample_user(0), &s, &m).unwrap();
    assert_eq!(r.puzzle_type, PuzzleType::Aristocrat);
    assert_eq!(r.attribution, "Unknown");
    assert_eq!(r.plaintext, "Quote");
    assert_eq!(r.solver, "ann");
    let bad = Solve { puzzle_type: 5, ..s };
    assert!(SolveResponse::new(&sample_user(0), &bad, &m).is_err());
}
