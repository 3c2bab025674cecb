//! Reading a move from text.
//!
//! A move is written as `resign`; as `O-O`, `o-o` or `0-0` for castling
//! kingside and `O-O-O`, `o-o-o` or `0-0-0` for castling queenside; or as two
//! squares: `e2e4`, `e2 e4` or `e2 to e4`. Letters count in either case, and
//! white space only parts the words.

use vstd::prelude::*;
use vstd::string::{StrSliceExecFns, StringExecFns};
use crate::{Move, Position};

verus! {

/// Whether a character separates words: whether it is white space, which
/// are the blank, the tab and the other controls from U+0009 to U+000D, the
/// next line control U+0085, and the spaces and separators U+00A0, U+1680,
/// U+2000 to U+200A, U+2028, U+2029, U+202F, U+205F and U+3000.
pub open spec fn is_white_space(c: char) -> bool {
    ('\u{9}' <= c <= '\u{d}') || c == ' ' || c == '\u{85}' || c == '\u{a0}' || c == '\u{1680}'
        || ('\u{2000}' <= c <= '\u{200a}') || c == '\u{2028}' || c == '\u{2029}' || c
        == '\u{202f}' || c == '\u{205f}' || c == '\u{3000}'
}

/// Where the word ends that holds the character at `from`: at the next
/// white space or at the end of the text. At white space it is `from`
/// itself.
pub open spec fn word_end(text: Seq<char>, from: int) -> int
    decreases text.len() - from,
{
    if from < 0 || from >= text.len() || is_white_space(text[from]) {
        from
    } else {
        word_end(text, from + 1)
    }
}

/// The words of the text that start at `from` or later, each as the
/// position of its first character and the position after its last.
/// `from` is not to lie inside a word.
pub open spec fn word_ranges_from(text: Seq<char>, from: int) -> Seq<(int, int)>
    decreases text.len() - from,
{
    if from < 0 || from >= text.len() {
        Seq::empty()
    } else if is_white_space(text[from]) {
        word_ranges_from(text, from + 1)
    } else {
        proof {
            lemma_word_end(text, from);
        }
        seq![(from, word_end(text, from))] + word_ranges_from(text, word_end(text, from))
    }
}

/// The words of the text: the longest runs of characters that are not
/// white space, in their order.
pub open spec fn word_ranges(text: Seq<char>) -> Seq<(int, int)> {
    word_ranges_from(text, 0)
}

/// The characters of the text in a range.
pub open spec fn word_at(text: Seq<char>, range: (int, int)) -> Seq<char> {
    text.subrange(range.0, range.1)
}

/// The text without the white space before its first and after its last
/// word.
pub open spec fn trimmed(text: Seq<char>) -> Seq<char> {
    let ranges = word_ranges(text);
    if ranges.len() == 0 {
        Seq::empty()
    } else {
        text.subrange(ranges[0].0, ranges[ranges.len() - 1].1)
    }
}

/// Whether the word is `lower` but for the case of its letters, where
/// `upper` is `lower` in capital letters: the three are of one length, and
/// each character of the word is that of `lower` or that of `upper` at the
/// same place.
pub open spec fn same_letters(word: Seq<char>, lower: Seq<char>, upper: Seq<char>) -> bool {
    word.len() == lower.len() && word.len() == upper.len() && forall|i: int|
        0 <= i < word.len() ==> (#[trigger] word[i]) == lower[i] || word[i] == upper[i]
}

/// The move between two squares, if both were read, and else what was wrong
/// with the first that was not.
pub open spec fn move_between(
    from: Result<Position, Seq<char>>,
    to: Result<Position, Seq<char>>,
) -> Result<Move, Seq<char>> {
    match from {
        Err(message) => Err(message),
        Ok(from) => match to {
            Err(message) => Err(message),
            Ok(to) => Ok(Move::Piece(from, to)),
        },
    }
}

/// A word ends after it starts, within the text, at white space or at the
/// end, and has no white space in it.
pub proof fn lemma_word_end(text: Seq<char>, from: int)
    requires
        0 <= from < text.len(),
        !is_white_space(text[from]),
    ensures
        from < word_end(text, from) <= text.len(),
        word_end(text, from) < text.len() ==> is_white_space(text[word_end(text, from)]),
        forall|i: int| from <= i < word_end(text, from) ==> !is_white_space(#[trigger] text[i]),
    decreases text.len() - from,
{
    assert(word_end(text, from) == word_end(text, from + 1));
    if from + 1 < text.len() && !is_white_space(text[from + 1]) {
        lemma_word_end(text, from + 1);
    } else {
        assert(word_end(text, from + 1) == from + 1);
    }
}

impl Move {
    /// What a text says, as a move or as what is wrong with the text.
    ///
    /// One word that is `resign` or `resigns` resigns. One word that is
    /// `o-o-o` or `0-0-0`, or the two words `castle` and `queenside` in
    /// either order, castles queenside; `o-o`, `0-0` and `kingside`
    /// likewise kingside. In all these, letters count in either case. Else
    /// one word of four characters is two squares, two words are two
    /// squares, and three words with `to` in the middle are two squares:
    /// the move of the piece on the first to the second, where both are read
    /// as [`Position::spec_from_str`] reads them, and else the complaint
    /// about the first that is not. Any other text has an invalid format.
    pub open spec fn spec_try_from(text: Seq<char>) -> Result<Move, Seq<char>> {
        let ranges = word_ranges(text);
        let first = word_at(text, ranges[0]);
        let second = word_at(text, ranges[1]);
        let third = word_at(text, ranges[2]);
        if ranges.len() == 1 && (same_letters(first, "resign"@, "RESIGN"@) || same_letters(
            first,
            "resigns"@,
            "RESIGNS"@,
        )) {
            Ok(Move::Resign)
        } else if ranges.len() == 1 && (same_letters(first, "o-o-o"@, "O-O-O"@) || same_letters(
            first,
            "0-0-0"@,
            "0-0-0"@,
        )) {
            Ok(Move::QueenSideCastle)
        } else if ranges.len() == 1 && (same_letters(first, "o-o"@, "O-O"@) || same_letters(
            first,
            "0-0"@,
            "0-0"@,
        )) {
            Ok(Move::KingSideCastle)
        } else if ranges.len() == 2 && ((same_letters(first, "castle"@, "CASTLE"@) && same_letters(
            second,
            "queenside"@,
            "QUEENSIDE"@,
        )) || (same_letters(first, "queenside"@, "QUEENSIDE"@) && same_letters(
            second,
            "castle"@,
            "CASTLE"@,
        ))) {
            Ok(Move::QueenSideCastle)
        } else if ranges.len() == 2 && ((same_letters(first, "castle"@, "CASTLE"@) && same_letters(
            second,
            "kingside"@,
            "KINGSIDE"@,
        )) || (same_letters(first, "kingside"@, "KINGSIDE"@) && same_letters(
            second,
            "castle"@,
            "CASTLE"@,
        ))) {
            Ok(Move::KingSideCastle)
        } else if ranges.len() == 1 && first.len() == 4 {
            move_between(
                Position::spec_from_str(first.subrange(0, 2)),
                Position::spec_from_str(first.subrange(2, 4)),
            )
        } else if ranges.len() == 2 {
            move_between(Position::spec_from_str(first), Position::spec_from_str(second))
        } else if ranges.len() == 3 && same_letters(second, "to"@, "TO"@) {
            move_between(Position::spec_from_str(first), Position::spec_from_str(third))
        } else {
            Err("invalid move format `"@ + trimmed(text) + "`"@)
        }
    }
}

/// Whether a character separates words.
fn is_white_space_char(c: char) -> (white: bool)
    ensures
        white == is_white_space(c),
{
    ('\u{9}' <= c && c <= '\u{d}') || c == ' ' || c == '\u{85}' || c == '\u{a0}' || c
        == '\u{1680}' || ('\u{2000}' <= c && c <= '\u{200a}') || c == '\u{2028}' || c
        == '\u{2029}' || c == '\u{202f}' || c == '\u{205f}' || c == '\u{3000}'
}

/// The ranges of the words of a text.
fn split_words(s: &str) -> (ranges: Vec<(usize, usize)>)
    ensures
        ranges@.len() == word_ranges(s@).len(),
        forall|k: int|
            0 <= k < ranges@.len() ==> (#[trigger] ranges@[k]).0 == word_ranges(s@)[k].0
                && ranges@[k].1 == word_ranges(s@)[k].1 && ranges@[k].0 < ranges@[k].1
                <= s@.len(),
        forall|j: int, k: int|
            0 <= j <= k < ranges@.len() ==> (#[trigger] ranges@[j]).0 < (#[trigger] ranges@[k]).1,
{
    let n = s.unicode_len();
    let mut ranges: Vec<(usize, usize)> = Vec::new();
    let ghost mut found: Seq<(int, int)> = Seq::empty();
    let mut i: usize = 0;
    while i < n
        invariant
            0 <= i <= n,
            n == s@.len(),
            ranges@.len() == found.len(),
            forall|k: int|
                0 <= k < ranges@.len() ==> (#[trigger] ranges@[k]).0 == found[k].0 && ranges@[k].1
                    == found[k].1 && ranges@[k].0 < ranges@[k].1 <= i,
            forall|j: int, k: int|
                0 <= j <= k < ranges@.len() ==> (#[trigger] ranges@[j]).0 < (
                #[trigger] ranges@[k]).1,
            word_ranges(s@) == found + word_ranges_from(s@, i as int),
        decreases n - i,
    {
        if is_white_space_char(s.get_char(i)) {
            i += 1;
        } else {
            let start = i;
            proof {
                lemma_word_end(s@, start as int);
            }
            while i < n && !is_white_space_char(s.get_char(i))
                invariant
                    start <= i <= n,
                    n == s@.len(),
                    start < n,
                    !is_white_space(s@[start as int]),
                    word_end(s@, start as int) == word_end(s@, i as int),
                decreases n - i,
            {
                i += 1;
            }
            ranges.push((start, i));
            proof {
                let rest = word_ranges_from(s@, i as int);
                assert(found + (seq![(start as int, i as int)] + rest) =~= found.push(
                    (start as int, i as int),
                ) + rest);
                found = found.push((start as int, i as int));
            }
        }
    }
    assert(word_ranges(s@) =~= found);
    ranges
}

/// Whether the word is `lower` but for the case of its letters, where
/// `upper` is `lower` in capital letters.
fn has_same_letters(word: &str, lower: &str, upper: &str) -> (same: bool)
    ensures
        same == same_letters(word@, lower@, upper@),
{
    let n = word.unicode_len();
    if n != lower.unicode_len() || n != upper.unicode_len() {
        return false;
    }
    let mut i: usize = 0;
    while i < n
        invariant
            0 <= i <= n,
            n == word@.len(),
            n == lower@.len(),
            n == upper@.len(),
            forall|j: int|
                0 <= j < i ==> (#[trigger] word@[j]) == lower@[j] || word@[j] == upper@[j],
        decreases n - i,
    {
        let c = word.get_char(i);
        if c != lower.get_char(i) && c != upper.get_char(i) {
            assert(!(word@[i as int] == lower@[i as int] || word@[i as int] == upper@[i as int]));
            return false;
        }
        i += 1;
    }
    true
}

/// The move between the squares that two texts name.
fn read_squares(from: &str, to: &str) -> (read: Result<Move, String>)
    ensures
        match (read, move_between(Position::spec_from_str(from@), Position::spec_from_str(to@))) {
            (Ok(m), Ok(expected)) => m == expected,
            (Err(message), Err(expected)) => message@ == expected,
            _ => false,
        },
{
    match Position::from_str(from) {
        Err(message) => Err(String::from_str(message)),
        Ok(from) => match Position::from_str(to) {
            Err(message) => Err(String::from_str(message)),
            Ok(to) => Ok(Move::Piece(from, to)),
        },
    }
}

impl Move {
    /// Reads a move from a text such as `e2 to e4`, `O-O` or `resign`. See
    /// [`Move::spec_try_from`].
    pub fn try_from(repr: String) -> (read: Result<Move, String>)
        ensures
            match (read, Self::spec_try_from(repr@)) {
                (Ok(m), Ok(expected)) => m == expected,
                (Err(message), Err(expected)) => message@ == expected,
                _ => false,
            },
    {
        Self::read(repr.as_str())
    }

    /// Reads a move from a text. See [`Move::spec_try_from`].
    pub fn read(repr: &str) -> (read: Result<Move, String>)
        ensures
            match (read, Self::spec_try_from(repr@)) {
                (Ok(m), Ok(expected)) => m == expected,
                (Err(message), Err(expected)) => message@ == expected,
                _ => false,
            },
    {
        let ranges = split_words(repr);
        let count = ranges.len();
        if count == 1 {
            let first = repr.substring_char(ranges[0].0, ranges[0].1);
            if has_same_letters(first, "resign", "RESIGN") || has_same_letters(
                first,
                "resigns",
                "RESIGNS",
            ) {
                return Ok(Move::Resign);
            }
            if has_same_letters(first, "o-o-o", "O-O-O") || has_same_letters(
                first,
                "0-0-0",
                "0-0-0",
            ) {
                return Ok(Move::QueenSideCastle);
            }
            if has_same_letters(first, "o-o", "O-O") || has_same_letters(first, "0-0", "0-0") {
                return Ok(Move::KingSideCastle);
            }
            if first.unicode_len() == 4 {
                return read_squares(first.substring_char(0, 2), first.substring_char(2, 4));
            }
        } else if count == 2 {
            let first = repr.substring_char(ranges[0].0, ranges[0].1);
            let second = repr.substring_char(ranges[1].0, ranges[1].1);
            if (has_same_letters(first, "castle", "CASTLE") && has_same_letters(
                second,
                "queenside",
                "QUEENSIDE",
            )) || (has_same_letters(first, "queenside", "QUEENSIDE") && has_same_letters(
                second,
                "castle",
                "CASTLE",
            )) {
                return Ok(Move::QueenSideCastle);
            }
            if (has_same_letters(first, "castle", "CASTLE") && has_same_letters(
                second,
                "kingside",
                "KINGSIDE",
            )) || (has_same_letters(first, "kingside", "KINGSIDE") && has_same_letters(
                second,
                "castle",
                "CASTLE",
            )) {
                return Ok(Move::KingSideCastle);
            }
            return read_squares(first, second);
        } else if count == 3 {
            let first = repr.substring_char(ranges[0].0, ranges[0].1);
            let second = repr.substring_char(ranges[1].0, ranges[1].1);
            let third = repr.substring_char(ranges[2].0, ranges[2].1);
            if has_same_letters(second, "to", "TO") {
                return read_squares(first, third);
            }
        }
        let mut message = String::from_str("invalid move format `");
        if count > 0 {
            let other = repr.substring_char(ranges[0].0, ranges[count - 1].1);
            message.append(other);
        }
        message.append("`");
        assert(message@ =~= "invalid move format `"@ + trimmed(repr@) + "`"@);
        Err(message)
    }
}

} // verus!
