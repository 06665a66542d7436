//! The header of an `npy` file, as far as the loader looks at it before the
//! file is read: where the header text lies, and how large the numbers
//! written in it can make a product.
//!
//! A file is laid out as six bytes of magic, two bytes of version, the length
//! of the header text in two or four bytes, little endian, the header text,
//! and the data. The header text is a Python dictionary that holds, among
//! others, the shape of the array: a tuple of dimensions. A dimension is
//! written as one or more numbers joined by signs, in any of four bases.
//! Tuples, lists and dictionaries may stand within one another, each opened
//! by a bracket.

use vstd::prelude::*;
use vstd::slice::slice_subrange;

verus! {

/// The six bytes that every `npy` file begins with.
pub open spec fn has_magic(content: Seq<u8>) -> bool {
    &&& content.len() >= 8
    &&& content[0] == 0x93
    &&& content[1] == 0x4E
    &&& content[2] == 0x55
    &&& content[3] == 0x4D
    &&& content[4] == 0x50
    &&& content[5] == 0x59
}

/// Where the header text lies in `content`: its first position, and the
/// position after its last. `None` where the content does not begin as a
/// file of version 1.0, 2.0 or 3.0 does, or ends before its header does.
pub open spec fn header_span(content: Seq<u8>) -> Option<(int, int)> {
    if has_magic(content) && content[6] == 1 && content[7] == 0 && content.len() >= 10 {
        let end = 10 + content[8] + 0x100 * content[9];
        if end <= content.len() {
            Some((10, end))
        } else {
            None
        }
    } else if has_magic(content) && (content[6] == 2 || content[6] == 3) && content[7] == 0
        && content.len() >= 12 {
        let end = 12 + content[8] + 0x100 * content[9] + 0x1_0000 * content[10] + 0x100_0000
            * content[11];
        if end <= content.len() {
            Some((12, end))
        } else {
            None
        }
    } else {
        None
    }
}

/// A decimal digit.
pub open spec fn is_digit(b: u8) -> bool {
    0x30 <= b <= 0x39
}

/// A character of a word: a digit, a letter or an underscore. A number is
/// written as one word.
pub open spec fn is_word_char(b: u8) -> bool {
    is_digit(b) || 0x41 <= b <= 0x5A || 0x61 <= b <= 0x7A || b == 0x5F
}

/// A character that may stand between the numbers of one dimension: a sign,
/// a blank, a tab or a form feed.
pub open spec fn is_joiner(b: u8) -> bool {
    b == 0x2B || b == 0x2D || b == 0x20 || b == 0x09 || b == 0x0C
}

/// What a character of a word counts for when the word is read in base 16:
/// its value where it is a digit of that base, and 15, the largest digit,
/// where it is any other letter or an underscore.
pub open spec fn digit_of(b: u8) -> nat {
    if is_digit(b) {
        (b - 0x30) as nat
    } else if 0x41 <= b <= 0x46 {
        (b - 0x37) as nat
    } else if 0x61 <= b <= 0x66 {
        (b - 0x57) as nat
    } else {
        15
    }
}

/// The state of a pass over the header text.
pub struct Scan {
    /// The product of the sums of the groups that have ended, each counted as
    /// at least 1.
    pub product: nat,
    /// The sum of the words that have ended in the group at hand.
    pub sum: nat,
    /// The word at hand, read in base 16.
    pub word: nat,
    /// Whether the pass stands in a word.
    pub in_word: bool,
    /// Whether the word at hand holds a decimal digit.
    pub has_digit: bool,
}

/// `n`, or 1 where `n` is 0.
pub open spec fn at_least_one(n: nat) -> nat {
    if n == 0 {
        1
    } else {
        n
    }
}

impl Scan {
    /// The state before the first character.
    pub open spec fn start() -> Scan {
        Scan { product: 1, sum: 0, word: 0, in_word: false, has_digit: false }
    }

    /// What the word at hand adds to its group: its reading in base 16 where
    /// it holds a decimal digit, as every number does, and nothing else.
    pub open spec fn counted(self) -> nat {
        if self.in_word && self.has_digit {
            self.word
        } else {
            0
        }
    }

    /// The product that the text read so far can reach: that of the groups
    /// that have ended, times the sum of the group at hand.
    pub open spec fn reach(self) -> nat {
        self.product * at_least_one(self.sum + self.counted())
    }

    /// The state after one more character. A character of a word extends
    /// the word; a joiner ends the word and keeps the group; any other
    /// character ends both.
    pub open spec fn step(self, b: u8) -> Scan {
        if is_word_char(b) {
            if self.in_word {
                Scan {
                    word: self.word * 16 + digit_of(b),
                    has_digit: self.has_digit || is_digit(b),
                    ..self
                }
            } else {
                Scan { word: digit_of(b), in_word: true, has_digit: is_digit(b), ..self }
            }
        } else if is_joiner(b) {
            Scan {
                sum: self.sum + self.counted(),
                word: 0,
                in_word: false,
                has_digit: false,
                ..self
            }
        } else {
            Scan {
                product: self.product * at_least_one(self.sum + self.counted()),
                sum: 0,
                word: 0,
                in_word: false,
                has_digit: false,
            }
        }
    }
}

/// The state after the whole of `text`.
pub open spec fn scan(text: Seq<u8>) -> Scan
    decreases text.len(),
{
    if text.len() == 0 {
        Scan::start()
    } else {
        scan(text.drop_last()).step(text.last())
    }
}

/// A bound on every product of numbers that `text` writes as separate
/// values.
///
/// The text is cut into words, and every word that holds a decimal digit is
/// read in base 16, which no number in base 2, 8, 10 or 16 exceeds. Words
/// that only signs and blanks part form a group, whose sum no sum or
/// difference of them exceeds. The bound is the product of the sums of all
/// groups, each counted as at least 1.
pub open spec fn number_bound(text: Seq<u8>) -> nat {
    scan(text).reach()
}

/// The most opening brackets that the header of a readable file holds. The
/// header of a plain array holds two: one of the dictionary and one of the
/// shape.
pub const MAX_BRACKETS: usize = 16;

/// Whether a byte opens a tuple, a list, or a dictionary or set.
pub open spec fn is_open_bracket(b: u8) -> bool {
    b == 0x28 || b == 0x5B || b == 0x7B
}

/// The number of opening brackets in `text`. No value in the text is nested
/// deeper than this.
pub open spec fn open_brackets(text: Seq<u8>) -> nat
    decreases text.len(),
{
    if text.len() == 0 {
        0
    } else if is_open_bracket(text.last()) {
        open_brackets(text.drop_last()) + 1
    } else {
        open_brackets(text.drop_last())
    }
}

/// Whether the loader reads a header of this text: its numbers cannot
/// multiply beyond 64 bits, and it opens at most `MAX_BRACKETS` brackets.
pub open spec fn plain_header(text: Seq<u8>) -> bool {
    number_bound(text) <= u64::MAX && open_brackets(text) <= MAX_BRACKETS
}

/// Whether the loader reads `content`: it begins as an `npy` file of a known
/// version does, holds the whole of its header, and the header is plain.
pub open spec fn readable(content: Seq<u8>) -> bool {
    header_span(content) matches Some(span) && plain_header(content.subrange(span.0, span.1))
}

/// The product of the groups that have ended is at least 1.
pub proof fn lemma_product_positive(text: Seq<u8>)
    ensures
        scan(text).product >= 1,
    decreases text.len(),
{
    if text.len() > 0 {
        let before = scan(text.drop_last());
        lemma_product_positive(text.drop_last());
        let n = at_least_one(before.sum + before.counted());
        assert(before.product * n >= 1) by (nonlinear_arith)
            requires
                before.product >= 1,
                n >= 1,
        ;
    }
}

/// One more character never lowers the reach.
pub proof fn lemma_step_grows(s: Scan, b: u8)
    requires
        s.product >= 1,
    ensures
        s.reach() <= s.step(b).reach(),
{
    let after = s.step(b);
    if is_word_char(b) {
        let low = at_least_one(s.sum + s.counted());
        let high = at_least_one(after.sum + after.counted());
        assert(low <= high);
        assert(s.product * low <= s.product * high) by (nonlinear_arith)
            requires
                low <= high,
        ;
    }
}

/// What a part of the text can reach, the whole of it can reach.
pub proof fn lemma_reach_grows(text: Seq<u8>, i: int)
    requires
        0 <= i <= text.len(),
    ensures
        number_bound(text.take(i)) <= number_bound(text),
    decreases text.len() - i,
{
    if i < text.len() {
        lemma_reach_grows(text, i + 1);
        assert(text.take(i + 1).drop_last() =~= text.take(i));
        lemma_product_positive(text.take(i));
        lemma_step_grows(scan(text.take(i)), text[i]);
    } else {
        assert(text.take(i) =~= text);
    }
}

/// Finds the header text of a file: see `header_span`.
pub fn find_header(content: &[u8]) -> (span: Option<(usize, usize)>)
    ensures
        match span {
            Some((start, end)) => header_span(content@) == Some((start as int, end as int)),
            None => header_span(content@) is None,
        },
{
    let n = content.len();
    if n < 10 {
        return None;
    }
    if content[0] != 0x93 || content[1] != 0x4E || content[2] != 0x55 || content[3] != 0x4D
        || content[4] != 0x50 || content[5] != 0x59 || content[7] != 0 {
        return None;
    }
    let major = content[6];
    if major == 1 {
        let end: u64 = 10 + content[8] as u64 + 0x100 * (content[9] as u64);
        if end <= n as u64 {
            Some((10, end as usize))
        } else {
            None
        }
    } else if (major == 2 || major == 3) && n >= 12 {
        let end: u64 = 12 + content[8] as u64 + 0x100 * (content[9] as u64) + 0x1_0000 * (
        content[10] as u64) + 0x100_0000 * (content[11] as u64);
        if end <= n as u64 {
            Some((12, end as usize))
        } else {
            None
        }
    } else {
        None
    }
}

/// Whether a byte is a decimal digit.
fn digit_byte(b: u8) -> (r: bool)
    ensures
        r == is_digit(b),
{
    0x30 <= b && b <= 0x39
}

/// Whether a byte is a character of a word.
fn word_byte(b: u8) -> (r: bool)
    ensures
        r == is_word_char(b),
{
    digit_byte(b) || (0x41 <= b && b <= 0x5A) || (0x61 <= b && b <= 0x7A) || b == 0x5F
}

/// Whether a byte is a joiner.
fn joiner_byte(b: u8) -> (r: bool)
    ensures
        r == is_joiner(b),
{
    b == 0x2B || b == 0x2D || b == 0x20 || b == 0x09 || b == 0x0C
}

/// What a character of a word counts for in base 16.
fn digit_value(b: u8) -> (d: u64)
    ensures
        d == digit_of(b),
        d <= 15,
{
    if digit_byte(b) {
        (b - 0x30) as u64
    } else if 0x41 <= b && b <= 0x46 {
        (b - 0x37) as u64
    } else if 0x61 <= b && b <= 0x66 {
        (b - 0x57) as u64
    } else {
        15
    }
}

/// Whether the numbers that `text` writes cannot multiply beyond 64 bits.
pub fn numbers_bounded(text: &[u8]) -> (bounded: bool)
    ensures
        bounded == (number_bound(text@) <= u64::MAX),
{
    let mut product: u64 = 1;
    let mut sum: u64 = 0;
    let mut word: u64 = 0;
    let mut word_big = false;
    let mut in_word = false;
    let mut has_digit = false;
    let mut i: usize = 0;
    while i < text.len()
        invariant
            i <= text@.len(),
            product == scan(text@.take(i as int)).product,
            product >= 1,
            sum == scan(text@.take(i as int)).sum,
            in_word == scan(text@.take(i as int)).in_word,
            has_digit == scan(text@.take(i as int)).has_digit,
            word_big ==> scan(text@.take(i as int)).word > u64::MAX,
            !word_big ==> word == scan(text@.take(i as int)).word,
            scan(text@.take(i as int)).reach() <= u64::MAX,
        decreases text@.len() - i,
    {
        let b = text[i];
        let ghost before = scan(text@.take(i as int));
        let ghost after = scan(text@.take(i + 1));
        proof {
            assert(text@.take(i + 1).drop_last() =~= text@.take(i as int));
            assert(after == before.step(b));
            let n = at_least_one(before.sum + before.counted());
            assert(n <= before.product * n) by (nonlinear_arith)
                requires
                    before.product >= 1,
            ;
        }
        if word_byte(b) {
            let d = digit_value(b);
            if in_word {
                if !word_big {
                    if word > (u64::MAX - d) / 16 {
                        word_big = true;
                    } else {
                        word = word * 16 + d;
                    }
                }
                has_digit = has_digit || digit_byte(b);
            } else {
                word = d;
                word_big = false;
                in_word = true;
                has_digit = digit_byte(b);
            }
            if has_digit {
                let ghost n = at_least_one(after.sum + after.counted());
                proof {
                    assert(n <= after.product * n) by (nonlinear_arith)
                        requires
                            after.product >= 1,
                    ;
                }
                if word_big {
                    proof {
                        lemma_reach_grows(text@, i + 1);
                    }
                    return false;
                }
                let total = match sum.checked_add(word) {
                    Some(total) => total,
                    None => {
                        proof {
                            lemma_reach_grows(text@, i + 1);
                        }
                        return false;
                    },
                };
                let factor = if total == 0 {
                    1
                } else {
                    total
                };
                if product.checked_mul(factor).is_none() {
                    proof {
                        lemma_reach_grows(text@, i + 1);
                    }
                    return false;
                }
            }
        } else if joiner_byte(b) {
            if in_word && has_digit {
                sum = sum + word;
            }
            word = 0;
            word_big = false;
            in_word = false;
            has_digit = false;
        } else {
            let total = if in_word && has_digit {
                sum + word
            } else {
                sum
            };
            let factor = if total == 0 {
                1
            } else {
                total
            };
            product = product * factor;
            sum = 0;
            word = 0;
            word_big = false;
            in_word = false;
            has_digit = false;
        }
        i = i + 1;
    }
    proof {
        assert(text@.take(i as int) =~= text@);
    }
    true
}

/// Whether `text` opens at most `MAX_BRACKETS` brackets.
pub fn brackets_bounded(text: &[u8]) -> (bounded: bool)
    ensures
        bounded == (open_brackets(text@) <= MAX_BRACKETS),
{
    let mut count: usize = 0;
    let mut i: usize = 0;
    while i < text.len()
        invariant
            i <= text@.len(),
            count <= i,
            count == open_brackets(text@.take(i as int)),
        decreases text@.len() - i,
    {
        let b = text[i];
        proof {
            assert(text@.take(i + 1).drop_last() =~= text@.take(i as int));
        }
        if b == 0x28 || b == 0x5B || b == 0x7B {
            count = count + 1;
        }
        i = i + 1;
    }
    proof {
        assert(text@.take(i as int) =~= text@);
    }
    count <= MAX_BRACKETS
}

/// Whether the loader reads `content`: see `readable`.
pub fn is_readable(content: &[u8]) -> (r: bool)
    ensures
        r == readable(content@),
{
    match find_header(content) {
        Some((start, end)) => {
            let text = slice_subrange(content, start, end);
            numbers_bounded(text) && brackets_bounded(text)
        },
        None => false,
    }
}

} // verus!
