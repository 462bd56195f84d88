//! Small verified helpers on text: decimal numerals and the search for a
//! word inside a text.

use vstd::prelude::*;

verus! {

/// The numeral of one decimal digit.
pub open spec fn spec_digit(digit: nat) -> Seq<char> {
    if digit == 0 {
        "0"@
    } else if digit == 1 {
        "1"@
    } else if digit == 2 {
        "2"@
    } else if digit == 3 {
        "3"@
    } else if digit == 4 {
        "4"@
    } else if digit == 5 {
        "5"@
    } else if digit == 6 {
        "6"@
    } else if digit == 7 {
        "7"@
    } else if digit == 8 {
        "8"@
    } else {
        "9"@
    }
}

/// The decimal numeral of a natural number, without leading zeros.
pub open spec fn spec_decimal(number: nat) -> Seq<char>
    decreases number,
{
    if number < 10 {
        spec_digit(number)
    } else {
        spec_decimal(number / 10) + spec_digit(number % 10)
    }
}

/// The decimal numeral of an integer: a minus sign in front of a negative one.
pub open spec fn spec_signed_decimal(number: int) -> Seq<char> {
    if number < 0 {
        "-"@ + spec_decimal((-number) as nat)
    } else {
        spec_decimal(number as nat)
    }
}

/// Whether `word` stands in `text` at offset `at`.
pub open spec fn spec_occurs_at(text: Seq<char>, word: Seq<char>, at: int) -> bool {
    &&& 0 <= at
    &&& at + word.len() <= text.len()
    &&& text.subrange(at, at + word.len()) == word
}

/// Whether `word` stands somewhere in `text`.
pub open spec fn spec_part_of(word: Seq<char>, text: Seq<char>) -> bool {
    exists|at: int| spec_occurs_at(text, word, at)
}

/// How many offsets below `bound` are occurrences of `word` in `text`.
pub open spec fn spec_occurrences_below(text: Seq<char>, word: Seq<char>, bound: nat) -> nat
    decreases bound,
{
    if bound == 0 {
        0
    } else {
        let earlier = spec_occurrences_below(text, word, (bound - 1) as nat);
        if spec_occurs_at(text, word, bound - 1) {
            earlier + 1
        } else {
            earlier
        }
    }
}

/// How many times `word` occurs in `text`, overlapping occurrences included.
pub open spec fn spec_occurrences(text: Seq<char>, word: Seq<char>) -> nat {
    spec_occurrences_below(text, word, text.len() + 1)
}

/// Whether `mark` stands twice in a row somewhere in `text`.
pub open spec fn spec_doubled(text: Seq<char>, mark: char) -> bool {
    exists|i: int| 0 <= i && i + 1 < text.len() && text[i] == mark && #[trigger] text[i + 1] == mark
}

/// A word that occurs at one offset only is counted once.
pub proof fn lemma_single_occurrence(text: Seq<char>, word: Seq<char>, at: int, bound: nat)
    requires
        spec_occurs_at(text, word, at),
        forall|other: int| spec_occurs_at(text, word, other) ==> other == at,
    ensures
        spec_occurrences_below(text, word, bound) == if at < bound {
            1nat
        } else {
            0nat
        },
    decreases bound,
{
    if bound > 0 {
        lemma_single_occurrence(text, word, at, (bound - 1) as nat);
    }
}

/// Where a doubled mark can stand in a text made of two pieces: inside the
/// first, inside the second, or across the seam.
pub proof fn lemma_doubled_concat(first: Seq<char>, second: Seq<char>, mark: char)
    ensures
        spec_doubled(first + second, mark) <==> (spec_doubled(first, mark) || spec_doubled(
            second,
            mark,
        ) || (first.len() > 0 && second.len() > 0 && first.last() == mark && second[0] == mark)),
{
    let whole = first + second;
    if spec_doubled(whole, mark) {
        let i = choose|i: int|
            0 <= i && i + 1 < whole.len() && whole[i] == mark && #[trigger] whole[i + 1] == mark;
        if i + 1 < first.len() {
            assert(first[i] == mark && first[i + 1] == mark);
        } else if i >= first.len() {
            let j = i - first.len();
            assert(second[j] == mark && second[j + 1] == mark);
        } else {
            assert(first.last() == mark && second[0] == mark);
        }
    }
    if spec_doubled(first, mark) {
        let i = choose|i: int|
            0 <= i && i + 1 < first.len() && first[i] == mark && #[trigger] first[i + 1] == mark;
        assert(whole[i] == mark && whole[i + 1] == mark);
    }
    if spec_doubled(second, mark) {
        let i = choose|i: int|
            0 <= i && i + 1 < second.len() && second[i] == mark && #[trigger] second[i + 1]
                == mark;
        let j = i + first.len();
        assert(whole[j] == mark && whole[j + 1] == mark);
    }
    if first.len() > 0 && second.len() > 0 && first.last() == mark && second[0] == mark {
        let j = first.len() - 1;
        assert(whole[j] == mark && whole[j + 1] == mark);
    }
}

/// The numeral of one decimal digit.
fn digit_text(digit: u8) -> (text: &'static str)
    requires
        digit < 10,
    ensures
        text@ == spec_digit(digit as nat),
{
    if digit == 0 {
        "0"
    } else if digit == 1 {
        "1"
    } else if digit == 2 {
        "2"
    } else if digit == 3 {
        "3"
    } else if digit == 4 {
        "4"
    } else if digit == 5 {
        "5"
    } else if digit == 6 {
        "6"
    } else if digit == 7 {
        "7"
    } else if digit == 8 {
        "8"
    } else {
        "9"
    }
}

/// Writes a natural number as a decimal numeral.
pub fn decimal_text(number: u64) -> (text: String)
    ensures
        text@ == spec_decimal(number as nat),
    decreases number,
{
    if number < 10 {
        String::from_str(digit_text(number as u8))
    } else {
        let front = decimal_text(number / 10);
        front.concat(digit_text((number % 10) as u8))
    }
}

/// Writes an integer as a decimal numeral.
pub fn signed_decimal_text(number: i64) -> (text: String)
    ensures
        text@ == spec_signed_decimal(number as int),
{
    if number < 0 {
        let magnitude: u64 = if number == i64::MIN {
            9223372036854775808u64
        } else {
            (-number) as u64
        };
        let sign = String::from_str("-");
        let digits = decimal_text(magnitude);
        sign.concat(digits.as_str())
    } else {
        decimal_text(number as u64)
    }
}

} // verus!
