use vstd::prelude::*;

use crate::random::shuffle_chars;
use crate::text::push_char;

verus! {

pub open spec fn is_lower(c: char) -> bool {
    'a' <= c <= 'z'
}

pub open spec fn is_upper(c: char) -> bool {
    'A' <= c <= 'Z'
}

/// A letter of the English alphabet, in either case.
pub open spec fn is_letter(c: char) -> bool {
    is_lower(c) || is_upper(c)
}

/// The `i`-th lowercase letter.
pub open spec fn letter_at(i: int) -> char {
    ((97 + i) as u8) as char
}

/// The lowercase alphabet, `a` to `z`.
pub open spec fn alphabet() -> Seq<char> {
    Seq::new(26, |i: int| letter_at(i))
}

/// Position of a lowercase letter in the alphabet.
pub open spec fn letter_index(c: char) -> int {
    c as int - 97
}

/// ASCII lowercasing: uppercase letters become lowercase, all else stays.
pub open spec fn ascii_lower(c: char) -> char {
    if is_upper(c) {
        ((c as int + 32) as u8) as char
    } else {
        c
    }
}

/// A mapping of the 26 letters onto themselves, stored as the image of each
/// letter in alphabet order: every letter appears exactly once as a value.
pub open spec fn is_letter_permutation(m: Seq<char>) -> bool {
    &&& m.len() == 26
    &&& forall|i: int| 0 <= i < 26 ==> is_lower(#[trigger] m[i])
    &&& m.no_duplicates()
    &&& forall|c: char| is_lower(c) ==> #[trigger] m.contains(c)
}

/// The image of one character under the letter mapping `m`: letters are
/// replaced, case-insensitively, by their lowercase substitute; all other
/// characters pass unchanged.
pub open spec fn substitute(m: Seq<char>, c: char) -> char {
    let l = ascii_lower(c);
    if is_lower(l) {
        m[letter_index(l)]
    } else {
        c
    }
}

/// The substitution ciphertext of `p` under `m`, one character for each character.
pub open spec fn encipher(m: Seq<char>, p: Seq<char>) -> Seq<char> {
    p.map_values(|c: char| substitute(m, c))
}

/// A monoalphabetic substitution: `letters[i]` replaces the `i`-th letter.
pub struct SubAlphabet {
    pub letters: Vec<char>,
}

impl View for SubAlphabet {
    type V = Seq<char>;

    open spec fn view(&self) -> Seq<char> {
        self.letters@
    }
}

impl SubAlphabet {
    pub open spec fn wf(&self) -> bool {
        is_letter_permutation(self@)
    }
}

/// ASCII lowercasing of one character.
pub fn to_ascii_lower(c: char) -> (r: char)
    ensures
        r == ascii_lower(c),
{
    if 'A' <= c && c <= 'Z' {
        ((c as u32 + 32) as u8) as char
    } else {
        c
    }
}

/// The lowercase alphabet in order.
pub fn alphabet_letters() -> (r: Vec<char>)
    ensures
        r@ == alphabet(),
{
    let mut v: Vec<char> = Vec::new();
    for i in 0..26u8
        invariant
            v@ == alphabet().take(i as int),
    {
        v.push((97u8 + i) as char);
        assert(v@ =~= alphabet().take(i as int + 1));
    }
    assert(v@ =~= alphabet());
    v
}

/// The alphabet holds each lowercase letter exactly once.
proof fn lemma_alphabet_letters()
    ensures
        alphabet().no_duplicates(),
        forall|c: char| is_lower(c) ==> #[trigger] alphabet().contains(c),
        forall|i: int| 0 <= i < 26 ==> is_lower(#[trigger] alphabet()[i]),
{
    assert forall|c: char| is_lower(c) implies #[trigger] alphabet().contains(c) by {
        let i = letter_index(c);
        assert(alphabet()[i] == c);
    }
}

/// A rearrangement of the alphabet is a letter permutation.
proof fn lemma_rearranged_alphabet(m: Seq<char>)
    requires
        m.to_multiset() == alphabet().to_multiset(),
    ensures
        is_letter_permutation(m),
{
    broadcast use vstd::seq_lib::group_to_multiset_ensures;

    lemma_alphabet_letters();
    assert(m.len() == m.to_multiset().len());
    assert(alphabet().len() == alphabet().to_multiset().len());
    alphabet().lemma_multiset_has_no_duplicates();
    m.lemma_multiset_has_no_duplicates_conv();
    assert forall|i: int| 0 <= i < 26 implies is_lower(#[trigger] m[i]) by {
        assert(m.contains(m[i]));
        assert(m.to_multiset().count(m[i]) > 0);
        assert(alphabet().to_multiset().count(m[i]) > 0);
        assert(alphabet().contains(m[i]));
    }
    assert forall|c: char| is_lower(c) implies #[trigger] m.contains(c) by {
        assert(alphabet().contains(c));
        assert(alphabet().to_multiset().count(c) > 0);
        assert(m.to_multiset().count(c) > 0);
    }
}

/// A fresh substitution drawn by shuffling the alphabet.
pub fn random_sub_alphabet() -> (r: SubAlphabet)
    ensures
        r.wf(),
{
    let mut letters = alphabet_letters();
    shuffle_chars(&mut letters);
    proof {
        lemma_rearranged_alphabet(letters@);
    }
    SubAlphabet { letters }
}

/// The substitution ciphertext of `plaintext`.
pub fn encode_substitution(sub: &SubAlphabet, plaintext: &str) -> (r: String)
    requires
        sub.wf(),
    ensures
        r@ == encipher(sub@, plaintext@),
        r@.len() == plaintext@.len(),
        forall|i: int|
            0 <= i < r@.len() && !is_letter(plaintext@[i]) ==> #[trigger] r@[i] == plaintext@[i],
        forall|i: int| 0 <= i < r@.len() && is_letter(plaintext@[i]) ==> is_lower(#[trigger] r@[i]),
{
    let mut out = String::new();
    for c in it: plaintext.chars()
        invariant
            sub.wf(),
            it.seq() == plaintext@,
            out@ == encipher(sub@, plaintext@.take(it.index() as int)),
    {
        let l = to_ascii_lower(c);
        let e: char = if 'a' <= l && l <= 'z' {
            sub.letters[(l as u32 - 97) as usize]
        } else {
            c
        };
        push_char(&mut out, e);
        assert(out@ =~= encipher(sub@, plaintext@.take(it.index() as int + 1)));
    }
    assert(plaintext@.take(plaintext@.len() as int) =~= plaintext@);
    out
}

} // verus!
