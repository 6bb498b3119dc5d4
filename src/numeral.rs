use vstd::prelude::*;

use vstd::arithmetic::div_mod::lemma_fundamental_div_mod;

use crate::error::HexError;
use crate::letters::{
    letter_at, lemma_letter_at_position, lemma_position_of_letter_at, Letters, LETTER_COUNT,
};

verus! {

/// The value of a letter sequence read as a bijective base-26 numeral: each
/// letter is a digit from 1 (A) to 26 (Z), most significant first. The empty
/// sequence is worth 0, and every other sequence at least 1.
pub open spec fn bijective_value(s: Seq<Letters>) -> nat
    decreases s.len(),
{
    if s.len() == 0 {
        0
    } else {
        26 * bijective_value(s.drop_last()) + s.last().spec_position() + 1
    }
}

/// The zero-based grid index that a non-empty letter sequence names.
pub open spec fn spec_decode(s: Seq<Letters>) -> nat {
    (bijective_value(s) - 1) as nat
}

/// The letter sequence that names a zero-based grid index: the last letter is
/// the index modulo 26, and the letters before it name the quotient less one.
pub open spec fn spec_encode(n: nat) -> Seq<Letters>
    decreases n,
{
    if n < 26 {
        seq![letter_at(n)]
    } else {
        spec_encode((n / 26 - 1) as nat).push(letter_at(n % 26))
    }
}

/// The text of a letter sequence: one upper-case character per letter.
pub open spec fn spec_render(s: Seq<Letters>) -> Seq<char> {
    s.map_values(|l: Letters| l.spec_symbol())
}

/// Alphabetic order on letter sequences: `s` comes before `t` where they first
/// differ, at a position that both have.
pub open spec fn lex_less(s: Seq<Letters>, t: Seq<Letters>) -> bool {
    exists|i: int|
        #![trigger s[i], t[i]]
        0 <= i < s.len() && i < t.len() && s.subrange(0, i) == t.subrange(0, i)
            && s[i].spec_position() < t[i].spec_position()
}

/// Relies on num_integer::div_rem: on unsigned integers it returns the
/// quotient and the remainder of `x / y` (and panics when `y` is zero).
#[verifier::external_body]
fn div_rem_usize(x: usize, y: usize) -> (r: (usize, usize))
    requires
        y > 0,
    ensures
        r.0 == x / y,
        r.1 == x % y,
{
    num_integer::div_rem(x, y)
}

/// Relies on String::push: it appends one character to the end of the string.
#[verifier::external_body]
fn push_char(s: &mut String, c: char)
    ensures
        final(s)@ == old(s)@.push(c),
{
    s.push(c)
}

/// The letter sequence that names grid index `n` (0 is A, 25 is Z, 26 is AA).
pub fn encode(n: usize) -> (r: Vec<Letters>)
    ensures
        r@ == spec_encode(n as nat),
        r@.len() >= 1,
{
    proof {
        lemma_encode_value(n as nat);
    }
    let mut remaining: usize = n;
    let mut output: Vec<Letters> = Vec::new();
    loop
        invariant_except_break
            spec_encode(n as nat) == spec_encode(remaining as nat) + output@,
        ensures
            spec_encode(n as nat) == output@,
        decreases remaining,
    {
        let (quotient, remainder) = div_rem_usize(remaining, LETTER_COUNT);
        let letter = Letters::from_position(remainder);
        let ghost before = output@;
        output.insert(0, letter);
        assert(output@ == seq![letter] + before);
        if quotient == 0 {
            assert(spec_encode(remaining as nat) == seq![letter]);
            assert(seq![letter] + before == spec_encode(remaining as nat) + before);
            break;
        } else {
            let ghost next = (quotient - 1) as nat;
            assert(spec_encode(remaining as nat) == spec_encode(next).push(letter));
            assert(spec_encode(next).push(letter) + before == spec_encode(next) + (seq![letter]
                + before));
            remaining = quotient - 1;
        }
    }
    output
}

/// The grid index that a letter sequence names; the empty sequence names none.
pub fn decode(letters: &[Letters]) -> (r: Result<usize, HexError>)
    requires
        letters@.len() > 0 ==> spec_decode(letters@) <= usize::MAX,
    ensures
        letters@.len() == 0 ==> r == Err::<usize, HexError>(HexError::InvalidNumeral),
        letters@.len() > 0 ==> r == Ok::<usize, HexError>(spec_decode(letters@) as usize),
{
    if letters.len() == 0 {
        return Err(HexError::InvalidNumeral);
    }
    let mut acc: usize = letters[0].position();
    let mut i: usize = 1;
    proof {
        lemma_decode_step(letters@, 1);
    }
    while i < letters.len()
        invariant
            1 <= i <= letters@.len(),
            acc == spec_decode(letters@.subrange(0, i as int)),
            spec_decode(letters@) <= usize::MAX,
        decreases letters@.len() - i,
    {
        proof {
            lemma_decode_step(letters@, (i + 1) as nat);
            lemma_prefix_value_le(letters@, (i + 1) as nat);
        }
        acc = (acc + 1) * LETTER_COUNT + letters[i].position();
        i = i + 1;
    }
    assert(letters@.subrange(0, i as int) == letters@);
    Ok(acc)
}

/// The text of a letter sequence; the empty sequence has none.
pub fn render(letters: &[Letters]) -> (r: Result<String, HexError>)
    ensures
        letters@.len() == 0 ==> r == Err::<String, HexError>(HexError::InvalidNumeral),
        letters@.len() > 0 ==> r is Ok && r->Ok_0@ == spec_render(letters@),
{
    if letters.len() == 0 {
        return Err(HexError::InvalidNumeral);
    }
    let mut text = String::new();
    for i in 0..letters.len()
        invariant
            text@ == spec_render(letters@.subrange(0, i as int)),
    {
        push_char(&mut text, letters[i].symbol());
        assert(spec_render(letters@.subrange(0, i + 1)) == spec_render(
            letters@.subrange(0, i as int),
        ).push(letters@[i as int].spec_symbol()));
    }
    assert(letters@.subrange(0, letters@.len() as int) == letters@);
    Ok(text)
}

/// A grid index that can be written as a letter sequence.
pub trait AsLetters {
    /// The zero-based index this value stands for.
    spec fn grid_index(&self) -> nat;

    /// The letter sequence that names this index.
    fn as_letters(&self) -> (r: Vec<Letters>)
        ensures
            r@ == spec_encode(self.grid_index()),
    ;

    /// The text of a letter sequence; the empty sequence has none.
    fn from_letters_to_string(letters: &[Letters]) -> (r: Result<String, HexError>)
        ensures
            letters@.len() == 0 ==> r == Err::<String, HexError>(HexError::InvalidNumeral),
            letters@.len() > 0 ==> r is Ok && r->Ok_0@ == spec_render(letters@),
    ;
}

impl AsLetters for usize {
    open spec fn grid_index(&self) -> nat {
        *self as nat
    }

    fn as_letters(&self) -> (r: Vec<Letters>) {
        encode(*self)
    }

    fn from_letters_to_string(letters: &[Letters]) -> (r: Result<String, HexError>) {
        render(letters)
    }
}

/// Reading one more letter of `s`: the prefix of length `k` is worth 26 times
/// the next shorter one's numeral value, plus the new digit.
proof fn lemma_decode_step(s: Seq<Letters>, k: nat)
    requires
        1 <= k <= s.len(),
    ensures
        bijective_value(s.subrange(0, k as int)) >= 1,
        k == 1 ==> spec_decode(s.subrange(0, 1)) == s[0].spec_position(),
        k > 1 ==> spec_decode(s.subrange(0, k as int)) == 26 * (spec_decode(
            s.subrange(0, k - 1),
        ) + 1) + s[k - 1].spec_position(),
{
    let p = s.subrange(0, k as int);
    assert(p.drop_last() == s.subrange(0, k - 1));
    if k > 1 {
        let q = s.subrange(0, k - 1);
        assert(q.len() > 0);
        assert(bijective_value(q) >= 1);
    } else {
        assert(p.drop_last() =~= Seq::<Letters>::empty());
    }
}

/// A prefix of `s` is worth no more than `s` itself.
proof fn lemma_prefix_value_le(s: Seq<Letters>, k: nat)
    requires
        k <= s.len(),
    ensures
        bijective_value(s.subrange(0, k as int)) <= bijective_value(s),
    decreases s.len(),
{
    if k < s.len() {
        assert(s.drop_last().subrange(0, k as int) == s.subrange(0, k as int));
        lemma_prefix_value_le(s.drop_last(), k);
    } else {
        assert(s.subrange(0, k as int) == s);
    }
}

/// Every encoding is non-empty, and its numeral value is one more than the
/// index it encodes.
pub proof fn lemma_encode_value(n: nat)
    ensures
        spec_encode(n).len() >= 1,
        bijective_value(spec_encode(n)) == n + 1,
    decreases n,
{
    lemma_position_of_letter_at(n % 26);
    if n >= 26 {
        let q = (n / 26 - 1) as nat;
        lemma_encode_value(q);
        assert(spec_encode(n).drop_last() == spec_encode(q));
        assert(spec_encode(n).last() == letter_at(n % 26));
        assert(bijective_value(spec_encode(n)) == 26 * bijective_value(spec_encode(q)) + n % 26
            + 1);
        lemma_fundamental_div_mod(n as int, 26);
        assert(26 * (q + 1) + n % 26 == n);
    } else {
        lemma_position_of_letter_at(n);
        assert(spec_encode(n).drop_last() =~= Seq::<Letters>::empty());
        assert(bijective_value(spec_encode(n).drop_last()) == 0);
        assert(spec_encode(n).last() == letter_at(n));
    }
}

/// Decoding the encoding of any index gives the index back.
pub proof fn law_decode_encode(n: nat)
    ensures
        spec_decode(spec_encode(n)) == n,
{
    lemma_encode_value(n);
}

/// Encoding the index that a non-empty letter sequence names gives the
/// sequence back: no two sequences name the same index.
pub proof fn law_encode_decode(s: Seq<Letters>)
    requires
        s.len() > 0,
    ensures
        spec_encode(spec_decode(s)) == s,
    decreases s.len(),
{
    let l = s.last();
    let t = s.drop_last();
    lemma_letter_at_position(l);
    if t.len() == 0 {
        assert(s == seq![l]);
    } else {
        law_encode_decode(t);
        assert(bijective_value(t) >= 1);
        let n = spec_decode(s);
        assert(n == 26 * bijective_value(t) + l.spec_position());
        assert(n / 26 == bijective_value(t) && n % 26 == l.spec_position()) by (nonlinear_arith)
            requires
                n == 26 * bijective_value(t) + l.spec_position(),
                l.spec_position() < 26,
        ;
        assert(t.push(l) == s);
    }
}

/// Encodings never get shorter as the index grows.
pub proof fn lemma_encode_len_monotone(a: nat, b: nat)
    requires
        a <= b,
    ensures
        spec_encode(a).len() <= spec_encode(b).len(),
    decreases b,
{
    lemma_encode_value(a);
    lemma_encode_value(b);
    if a >= 26 {
        lemma_encode_len_monotone((a / 26 - 1) as nat, (b / 26 - 1) as nat);
    }
}

/// A larger index has an encoding at least as long, and, where the lengths
/// are equal, one that comes later in alphabetic order.
pub proof fn law_encode_monotone(a: nat, b: nat)
    requires
        a < b,
    ensures
        spec_encode(a).len() <= spec_encode(b).len(),
        spec_encode(a).len() == spec_encode(b).len() ==> lex_less(spec_encode(a), spec_encode(b)),
    decreases b,
{
    lemma_encode_len_monotone(a, b);
    lemma_encode_value(a);
    lemma_encode_value(b);
    let ea = spec_encode(a);
    let eb = spec_encode(b);
    if ea.len() == eb.len() {
        if b < 26 {
            lemma_position_of_letter_at(a);
            lemma_position_of_letter_at(b);
            assert(ea.subrange(0, 0) =~= eb.subrange(0, 0));
            assert(ea[0].spec_position() < eb[0].spec_position());
        } else {
            let qa = (a / 26 - 1) as nat;
            let qb = (b / 26 - 1) as nat;
            let last = (ea.len() - 1) as int;
            lemma_position_of_letter_at(a % 26);
            lemma_position_of_letter_at(b % 26);
            if qa == qb {
                assert(ea.subrange(0, last) == spec_encode(qa));
                assert(eb.subrange(0, last) == spec_encode(qb));
                assert(ea[last].spec_position() < eb[last].spec_position());
            } else {
                law_encode_monotone(qa, qb);
                let ta = spec_encode(qa);
                let tb = spec_encode(qb);
                let i = choose|i: int|
                    #![trigger ta[i], tb[i]]
                    0 <= i < ta.len() && i < tb.len() && ta.subrange(0, i) == tb.subrange(0, i)
                        && ta[i].spec_position() < tb[i].spec_position();
                assert(ea.subrange(0, i) == ta.subrange(0, i));
                assert(eb.subrange(0, i) == tb.subrange(0, i));
                assert(ea[i] == ta[i] && eb[i] == tb[i]);
            }
        }
    }
}

} // verus!
