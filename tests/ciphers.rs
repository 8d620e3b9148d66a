use cryptopuz::biliteral::{
    biliteral_code, built_in_variant, encode, encode_biliteral, random_variant, Variant,
};
use cryptopuz::substitution::{encode_substitution, random_sub_alphabet, SubAlphabet};

fn reversed_alphabet() -> SubAlphabet {
    SubAlphabet { letters: ('a'..='z').rev().collect() }
}

fn ab_variant() -> Variant {
    Variant { zero: vec!['A'], one: vec!['B'] }
}

#[test]
fn shuffled_alphabet_is_permutation() {
    for _ in 0..20 {
        let sub = random_sub_alphabet();
        let mut letters = sub.letters.clone();
        letters.sort();
        let alphabet: Vec<char> = ('a'..='z').collect();
        assert_eq!(letters, alphabet);
    }
}

#[test]
fn shuffled_alphabet_is_not_always_in_order() {
    let alphabet: Vec<char> = ('a'..='z').collect();
    assert!((0..5).any(|_| random_sub_alphabet().letters != alphabet));
}

#[test]
fn substitution_maps_letters_and_keeps_the_rest() {
    let out = encode_substitution(&reversed_alphabet(), "Hello, World!");
    assert_eq!(out, "svool, dliow!");
}

#[test]
fn substitution_preserves_length_and_positions() {
    let p = "Zé 12-Az?";
    let out = encode_substitution(&reversed_alphabet(), p);
    let pc: Vec<char> = p.chars().collect();
    let oc: Vec<char> = out.chars().collect();
    assert_eq!(pc.len(), oc.len());
    assert_eq!(out, "aé 12-za?");
    for (a, b) in pc.iter().zip(oc.iter()) {
        if !a.is_ascii_alphabetic() {
            assert_eq!(a, b);
        } else {
            assert!(b.is_ascii_lowercase());
        }
    }
}

#[test]
fn substitution_of_empty_text() {
    assert_eq!(encode_substitution(&random_sub_alphabet(), ""), "");
}

#[test]
fn letter_codes_share_i_j_and_u_v() {
    assert_eq!(biliteral_code('a'), 0);
    assert_eq!(biliteral_code('h'), 7);
    assert_eq!(biliteral_code('i'), biliteral_code('j'));
    assert_eq!(biliteral_code('k'), 9);
    assert_eq!(biliteral_code('u'), biliteral_code('v'));
    assert_eq!(biliteral_code('w'), 20);
    assert_eq!(biliteral_code('z'), 23);
}

#[test]
fn encode_letter_groups() {
    let v = ab_variant();
    assert_eq!(encode(&v, 'a'), Some("AAAAA".to_string()));
    assert_eq!(encode(&v, 'b'), Some("AAAAB".to_string()));
    assert_eq!(encode(&v, 'j'), Some("ABAAA".to_string()));
    assert_eq!(encode(&v, 'v'), Some("BAABB".to_string()));
    assert_eq!(encode(&v, 'z'), Some("BABBB".to_string()));
    assert_eq!(encode(&v, 'A'), None);
    assert_eq!(encode(&v, ' '), None);
}

#[test]
fn biliteral_drops_non_letters() {
    let out = encode_biliteral(&ab_variant(), "Hi, J!");
    assert_eq!(out, vec!["AABBB".to_string(), "ABAAA".to_string(), "ABAAA".to_string()]);
}

#[test]
fn biliteral_group_count() {
    let p = "Hello, World! 123";
    let out = encode_biliteral(&random_variant(), p);
    assert_eq!(out.len(), 10);
    let glyphs: usize = out.iter().map(|g| g.chars().count()).sum();
    assert_eq!(glyphs, 5 * 10);
    assert!(encode_biliteral(&ab_variant(), "").is_empty());
}

#[test]
fn biliteral_glyphs_come_from_their_pools() {
    let v = built_in_variant(2);
    for g in encode_biliteral(&v, "ab") {
        assert_eq!(g.chars().count(), 5);
    }
    let out = encode_biliteral(&v, "b");
    let chars: Vec<char> = out[0].chars().collect();
    for c in &chars[..4] {
        assert!(('a'..='m').contains(c));
    }
    assert!(('n'..='z').contains(&chars[4]));
}

#[test]
fn random_variant_is_built_in() {
    let table: Vec<(Vec<char>, Vec<char>)> =
        (0..4).map(|i| { let v = built_in_variant(i); (v.zero, v.one) }).collect();
    for _ in 0..20 {
        let v = random_variant();
        assert!(!v.zero.is_empty() && !v.one.is_empty());
        let pair = (v.zero.clone(), v.one.clone());
        let swapped = (v.one, v.zero);
        assert!(table.contains(&pair) || table.contains(&swapped));
    }
}

#[test]
fn built_in_variant_pools() {
    let v = built_in_variant(3);
    assert_eq!(v.zero, ('a'..='z').collect::<Vec<char>>());
    assert_eq!(v.one, ('0'..='9').collect::<Vec<char>>());
    let v = built_in_variant(1);
    assert_eq!((v.zero, v.one), (vec!['0'], vec!['1']));
}
