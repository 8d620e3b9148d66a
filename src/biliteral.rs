use vstd::prelude::*;

use crate::random::choose_one;
use crate::substitution::{ascii_lower, is_letter, is_lower, letter_index, to_ascii_lower};
use crate::text::push_char;

verus! {

/// Glyphs in each group of the biliteral cipher: one for each bit of a letter's code.
pub const GROUP_LEN: usize = 5;

/// The five-bit code of the lowercase letter at position `i` of the alphabet.
/// Codes run in alphabet order, except that `j` shares the code of `i` and
/// `v` shares the code of `u`.
pub open spec fn letter_code(i: int) -> int {
    if i < 9 {
        i
    } else if i < 21 {
        i - 1
    } else {
        i - 2
    }
}

/// The place value of bit `k` of a five-bit code, the most significant first.
pub open spec fn bit_weight(k: int) -> int {
    if k == 0 {
        16
    } else if k == 1 {
        8
    } else if k == 2 {
        4
    } else if k == 3 {
        2
    } else {
        1
    }
}

/// Bit `k` of a five-bit code, the most significant first.
pub open spec fn code_bit(code: int, k: int) -> int {
    (code / bit_weight(k)) % 2
}

/// `n` consecutive characters from the code point `first` on.
pub open spec fn char_run(first: int, n: int) -> Seq<char> {
    Seq::new(n as nat, |i: int| ((first + i) as u8) as char)
}

/// The glyph pools of the built-in variants, by index: the pool that stands
/// for bit 0, then the pool that stands for bit 1.
pub open spec fn variant_pools(i: int) -> (Seq<char>, Seq<char>) {
    if i == 0 {
        (seq!['A'], seq!['B'])
    } else if i == 1 {
        (seq!['0'], seq!['1'])
    } else if i == 2 {
        (char_run(97, 13), char_run(110, 13))
    } else {
        (char_run(97, 26), char_run(48, 10))
    }
}

/// Number of built-in variants.
pub const VARIANT_COUNT: usize = 4;

/// The glyphs of a biliteral cipher: `zero` holds the glyphs that stand for
/// bit 0, `one` those that stand for bit 1.
pub struct Variant {
    pub zero: Vec<char>,
    pub one: Vec<char>,
}

impl Variant {
    pub open spec fn wf(&self) -> bool {
        self.zero@.len() > 0 && self.one@.len() > 0
    }

    pub open spec fn pools(&self) -> (Seq<char>, Seq<char>) {
        (self.zero@, self.one@)
    }

    /// The pool that stands for `bit`.
    pub open spec fn pool(&self, bit: int) -> Seq<char> {
        if bit == 0 {
            self.zero@
        } else {
            self.one@
        }
    }

    /// One of the built-in variants, in its own or in swapped bit order.
    pub open spec fn is_built_in(&self) -> bool {
        exists|i: int|
            0 <= i < VARIANT_COUNT && {
                let p = #[trigger] variant_pools(i);
                self.pools() == p || self.pools() == (p.1, p.0)
            }
    }
}

/// A group of glyphs for the lowercase letter `c` under `v`: five glyphs,
/// each drawn from the pool of the matching bit of the letter's code.
pub open spec fn is_group_of(v: Variant, c: char, g: Seq<char>) -> bool {
    &&& g.len() == GROUP_LEN
    &&& forall|k: int|
        0 <= k < GROUP_LEN ==> #[trigger] v.pool(code_bit(letter_code(letter_index(c)), k)).contains(
            g[k],
        )
}

/// The letters that the biliteral cipher encodes, in order, lowercased.
pub open spec fn encoded_letters(p: Seq<char>) -> Seq<char> {
    p.filter(|c: char| is_letter(c)).map_values(|c: char| ascii_lower(c))
}

/// Number of letters in `p`, in either case.
pub open spec fn letter_count(p: Seq<char>) -> int {
    p.filter(|c: char| is_letter(c)).len() as int
}

/// Number of glyphs in a ciphertext, over all its groups.
pub open spec fn glyph_count(groups: Seq<String>) -> int
    decreases groups.len(),
{
    if groups.len() == 0 {
        0
    } else {
        glyph_count(groups.drop_last()) + groups.last()@.len()
    }
}

/// A ciphertext whose groups all have five glyphs has five glyphs per group.
proof fn lemma_glyph_count(groups: Seq<String>)
    requires
        forall|i: int| 0 <= i < groups.len() ==> (#[trigger] groups[i])@.len() == GROUP_LEN,
    ensures
        glyph_count(groups) == GROUP_LEN * groups.len(),
    decreases groups.len(),
{
    if groups.len() > 0 {
        let rest = groups.drop_last();
        assert forall|i: int| 0 <= i < rest.len() implies (#[trigger] rest[i])@.len() == GROUP_LEN by {
            assert(rest[i] == groups[i]);
        }
        lemma_glyph_count(rest);
        assert(groups.last() == groups[groups.len() - 1]);
    }
}

/// The five-bit code of a lowercase letter.
pub fn biliteral_code(c: char) -> (r: u8)
    requires
        is_lower(c),
    ensures
        r as int == letter_code(letter_index(c)),
        r < 32,
{
    let i: u8 = (c as u32 - 97) as u8;
    if i < 9 {
        i
    } else if i < 21 {
        i - 1
    } else {
        i - 2
    }
}

/// Bit `k` of a five-bit code, the most significant first.
pub fn biliteral_bit(code: u8, k: usize) -> (r: u8)
    requires
        code < 32,
        k < GROUP_LEN,
    ensures
        r as int == code_bit(code as int, k as int),
        r < 2,
{
    let divisor: u8 = if k == 0 {
        16
    } else if k == 1 {
        8
    } else if k == 2 {
        4
    } else if k == 3 {
        2
    } else {
        1
    };
    (code / divisor) % 2
}

/// `n` consecutive characters from `first` on.
fn glyph_run(first: u8, n: u8) -> (r: Vec<char>)
    requires
        first as int + n as int <= 128,
    ensures
        r@ == char_run(first as int, n as int),
{
    let mut v: Vec<char> = Vec::new();
    for i in 0..n
        invariant
            first as int + n as int <= 128,
            v@ == char_run(first as int, n as int).take(i as int),
    {
        v.push((first + i) as char);
        assert(v@ =~= char_run(first as int, n as int).take(i as int + 1));
    }
    assert(v@ =~= char_run(first as int, n as int));
    v
}

/// The built-in variant at index `i`.
pub fn built_in_variant(i: usize) -> (r: Variant)
    requires
        i < VARIANT_COUNT,
    ensures
        r.pools() == variant_pools(i as int),
        r.wf(),
{
    if i == 0 {
        let r = Variant { zero: vec!['A'], one: vec!['B'] };
        assert(r.zero@ =~= seq!['A'] && r.one@ =~= seq!['B']);
        r
    } else if i == 1 {
        let r = Variant { zero: vec!['0'], one: vec!['1'] };
        assert(r.zero@ =~= seq!['0'] && r.one@ =~= seq!['1']);
        r
    } else if i == 2 {
        Variant { zero: glyph_run(97, 13), one: glyph_run(110, 13) }
    } else {
        Variant { zero: glyph_run(97, 26), one: glyph_run(48, 10) }
    }
}

/// All built-in variants, in index order.
pub fn built_in_variants() -> (r: Vec<Variant>)
    ensures
        r@.len() == VARIANT_COUNT,
        forall|i: int| 0 <= i < VARIANT_COUNT ==> (#[trigger] r@[i]).pools() == variant_pools(i),
        forall|i: int| 0 <= i < VARIANT_COUNT ==> (#[trigger] r@[i]).wf(),
{
    let mut r: Vec<Variant> = Vec::new();
    for i in 0..VARIANT_COUNT
        invariant
            r@.len() == i,
            forall|j: int| 0 <= j < i ==> (#[trigger] r@[j]).pools() == variant_pools(j),
            forall|j: int| 0 <= j < i ==> (#[trigger] r@[j]).wf(),
    {
        r.push(built_in_variant(i));
    }
    r
}

/// A copy of a glyph pool.
fn copy_glyphs(v: &Vec<char>) -> (r: Vec<char>)
    ensures
        r@ == v@,
{
    let mut r: Vec<char> = Vec::new();
    for i in 0..v.len()
        invariant
            r@ == v@.take(i as int),
    {
        r.push(v[i]);
        assert(r@ =~= v@.take(i as int + 1));
    }
    assert(r@ =~= v@);
    r
}

/// A variant drawn at random from the built-in ones; a fair coin decides
/// whether its two pools trade places.
pub fn random_variant() -> (r: Variant)
    ensures
        r.wf(),
        r.is_built_in(),
{
    let table = built_in_variants();
    let picked: &Variant = choose_one(table.as_slice());
    let ghost i = choose|i: int| 0 <= i < table@.len() && table@[i] == *picked;
    assert(picked.pools() == variant_pools(i));
    let zero = copy_glyphs(&picked.zero);
    let one = copy_glyphs(&picked.one);
    let swap: bool = rand::random::<bool>();
    let r = if swap {
        Variant { zero: one, one: zero }
    } else {
        Variant { zero, one }
    };
    assert(r.pools() == variant_pools(i) || r.pools() == (variant_pools(i).1, variant_pools(i).0));
    r
}

/// One group of five glyphs for a lowercase letter, or `None` for any other
/// character. Each glyph is drawn at random from the pool of its bit.
pub fn encode(variant: &Variant, c: char) -> (r: Option<String>)
    requires
        variant.wf(),
    ensures
        r is Some <==> is_lower(c),
        r matches Some(g) ==> is_group_of(*variant, c, g@),
{
    if !('a' <= c && c <= 'z') {
        return None;
    }
    let code = biliteral_code(c);
    let mut buf = String::new();
    for k in 0..GROUP_LEN
        invariant
            variant.wf(),
            is_lower(c),
            code as int == letter_code(letter_index(c)),
            code < 32,
            buf@.len() == k,
            forall|j: int|
                0 <= j < k ==> #[trigger] variant.pool(code_bit(letter_code(letter_index(c)), j)).contains(
                    buf@[j],
                ),
    {
        let bit = biliteral_bit(code, k);
        let pool: &Vec<char> = if bit == 0 {
            &variant.zero
        } else {
            &variant.one
        };
        let g: char = *choose_one(pool.as_slice());
        push_char(&mut buf, g);
    }
    Some(buf)
}

/// The biliteral ciphertext of `plaintext`: one group for each letter, in
/// order and case-insensitively; every other character is dropped.
pub fn encode_biliteral(variant: &Variant, plaintext: &str) -> (r: Vec<String>)
    requires
        variant.wf(),
    ensures
        r@.len() == encoded_letters(plaintext@).len(),
        forall|i: int|
            0 <= i < r@.len() ==> is_group_of(
                *variant,
                encoded_letters(plaintext@)[i],
                (#[trigger] r@[i])@,
            ),
        r@.len() == letter_count(plaintext@),
        glyph_count(r@) == GROUP_LEN * letter_count(plaintext@),
{
    let mut groups: Vec<String> = Vec::new();
    for c in it: plaintext.chars()
        invariant
            variant.wf(),
            it.seq() == plaintext@,
            groups@.len() == encoded_letters(plaintext@.take(it.index() as int)).len(),
            forall|i: int|
                0 <= i < groups@.len() ==> is_group_of(
                    *variant,
                    encoded_letters(plaintext@.take(it.index() as int))[i],
                    (#[trigger] groups@[i])@,
                ),
    {
        let ghost before = plaintext@.take(it.index() as int);
        let ghost after = plaintext@.take(it.index() as int + 1);
        proof {
            assert(after =~= before.push(c));
            before.lemma_filter_push(c, |c: char| is_letter(c));
        }
        let l = to_ascii_lower(c);
        match encode(variant, l) {
            Some(g) => {
                groups.push(g);
            },
            None => {},
        }
        assert(encoded_letters(after) =~= if is_letter(c) {
            encoded_letters(before).push(ascii_lower(c))
        } else {
            encoded_letters(before)
        });
    }
    assert(plaintext@.take(plaintext@.len() as int) =~= plaintext@);
    proof {
        assert forall|i: int| 0 <= i < groups@.len() implies (#[trigger] groups@[i])@.len()
            == GROUP_LEN by {
            assert(is_group_of(*variant, encoded_letters(plaintext@)[i], groups@[i]@));
        }
        lemma_glyph_count(groups@);
    }
    groups
}

} // verus!
