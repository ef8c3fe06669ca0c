//! Characters and runs of characters: the alphabet from which the line
//! grammar is built, and the small text operations the field readers share.

use vstd::prelude::*;

verus! {

/// A decimal digit, `0` to `9`.
pub open spec fn is_digit(c: char) -> bool {
    '0' <= c <= '9'
}

/// An unaccented Latin letter of either case.
pub open spec fn is_letter(c: char) -> bool {
    ('a' <= c <= 'z') || ('A' <= c <= 'Z')
}

/// A character that may stand anywhere in a word of a name: a letter, a
/// digit, or one of `&`, `'`, `.`, `(`, `)`.
pub open spec fn is_word_char(c: char) -> bool {
    is_letter(c) || is_digit(c) || c == '&' || c == '\'' || c == '.' || c == '(' || c == ')'
}

/// The value of a decimal digit.
pub open spec fn digit_value(c: char) -> int {
    c as int - '0' as int
}

/// The classes of characters that the grammar scans runs of.
#[derive(Clone, Copy, Debug, PartialEq, Eq)]
pub enum CharClass {
    /// Decimal digits.
    Digit,
    /// A space or a tab: the whitespace that may surround a separator.
    Blank,
    /// Word characters, see [`is_word_char`].
    Word,
    /// What free text is made of: word characters, hyphens and spaces.
    Text,
}

impl CharClass {
    /// Whether `c` belongs to the class.
    pub open spec fn has(self, c: char) -> bool {
        match self {
            CharClass::Digit => is_digit(c),
            CharClass::Blank => c == ' ' || c == '\t',
            CharClass::Word => is_word_char(c),
            CharClass::Text => is_word_char(c) || c == '-' || c == ' ',
        }
    }

    /// Tests membership of `c` in the class.
    pub fn contains(&self, c: char) -> (b: bool)
        ensures
            b == self.has(c),
    {
        match self {
            CharClass::Digit => '0' <= c && c <= '9',
            CharClass::Blank => c == ' ' || c == '\t',
            CharClass::Word => word_char(c),
            CharClass::Text => word_char(c) || c == '-' || c == ' ',
        }
    }
}

/// Tests whether `c` is a word character.
pub fn word_char(c: char) -> (b: bool)
    ensures
        b == is_word_char(c),
{
    ('a' <= c && c <= 'z') || ('A' <= c && c <= 'Z') || ('0' <= c && c <= '9') || c == '&' || c
        == '\'' || c == '.' || c == '(' || c == ')'
}

/// The value of the digit `c`.
pub fn digit_of(c: char) -> (d: u8)
    requires
        is_digit(c),
    ensures
        d == digit_value(c),
        d <= 9,
{
    (c as u8) - 48
}

/// The characters of `line`, one by one.
pub fn chars_of(line: &str) -> (chars: Vec<char>)
    ensures
        chars@ == line@,
{
    let mut chars: Vec<char> = Vec::new();
    for c in it: line.chars()
        invariant
            chars@ == it.seq().take(it.index() as int),
            it.seq() == line@,
    {
        chars.push(c);
    }
    chars
}

/// Where the longest run of `class` characters that starts at `i` ends: the
/// first position from `i` on that is the end of `s` or holds a character
/// outside the class.
pub open spec fn run_end(s: Seq<char>, class: CharClass, i: int) -> int
    decreases s.len() - i,
{
    if 0 <= i < s.len() && class.has(s[i]) {
        run_end(s, class, i + 1)
    } else {
        i
    }
}

/// A run ends between its start and the end of the text, holds only
/// characters of its class, and cannot be extended.
pub proof fn lemma_run_end(s: Seq<char>, class: CharClass, i: int)
    requires
        0 <= i <= s.len(),
    ensures
        i <= run_end(s, class, i) <= s.len(),
        forall|k: int| i <= k < run_end(s, class, i) ==> class.has(#[trigger] s[k]),
        run_end(s, class, i) < s.len() ==> !class.has(s[run_end(s, class, i)]),
    decreases s.len() - i,
{
    if i < s.len() && class.has(s[i]) {
        lemma_run_end(s, class, i + 1);
    }
}

/// A run ends at `j` where every character from `i` up to `j` is of the
/// class and the one at `j`, if there is one, is not.
pub proof fn lemma_run_end_is(s: Seq<char>, class: CharClass, i: int, j: int)
    requires
        0 <= i <= j <= s.len(),
        forall|k: int| i <= k < j ==> class.has(#[trigger] s[k]),
        j < s.len() ==> !class.has(s[j]),
    ensures
        run_end(s, class, i) == j,
    decreases j - i,
{
    if i < j {
        lemma_run_end_is(s, class, i + 1, j);
    }
}

/// Scans the longest run of `class` characters from position `i`.
pub fn scan_run(chars: &[char], class: CharClass, i: usize) -> (j: usize)
    requires
        i <= chars@.len(),
    ensures
        j == run_end(chars@, class, i as int),
        i <= j <= chars@.len(),
{
    let mut j: usize = i;
    while j < chars.len() && class.contains(chars[j])
        invariant
            i <= j <= chars@.len(),
            run_end(chars@, class, i as int) == run_end(chars@, class, j as int),
        decreases chars@.len() - j,
    {
        j = j + 1;
    }
    j
}

/// Where `s` ends once the blanks at its end, down to `lo`, are left off.
pub open spec fn blank_start(s: Seq<char>, lo: int, hi: int) -> int
    decreases hi - lo,
{
    if lo < hi <= s.len() && CharClass::Blank.has(s[hi - 1]) {
        blank_start(s, lo, hi - 1)
    } else {
        hi
    }
}

/// `s` without the blanks at either end.
pub open spec fn trimmed(s: Seq<char>) -> Seq<char> {
    let lo = run_end(s, CharClass::Blank, 0);
    s.subrange(lo, blank_start(s, lo, s.len() as int))
}

/// The trailing blanks start at `b` where every character from `b` up to
/// `hi` is a blank and the one before `b`, if it is not below `lo`, is not.
pub proof fn lemma_blank_start_is(s: Seq<char>, lo: int, b: int, hi: int)
    requires
        0 <= lo <= b <= hi <= s.len(),
        forall|k: int| b <= k < hi ==> CharClass::Blank.has(#[trigger] s[k]),
        lo < b ==> !CharClass::Blank.has(s[b - 1]),
    ensures
        blank_start(s, lo, hi) == b,
    decreases hi - b,
{
    if b < hi {
        lemma_blank_start_is(s, lo, b, hi - 1);
    }
}

/// Trimming leaves the part from `lo` to `hi` where that part starts and
/// ends with a character that is no blank and only blanks stand around it.
pub proof fn lemma_trimmed_is(s: Seq<char>, lo: int, hi: int)
    requires
        0 <= lo < hi <= s.len(),
        forall|k: int| 0 <= k < lo ==> CharClass::Blank.has(#[trigger] s[k]),
        forall|k: int| hi <= k < s.len() ==> CharClass::Blank.has(#[trigger] s[k]),
        !CharClass::Blank.has(s[lo]),
        !CharClass::Blank.has(s[hi - 1]),
    ensures
        trimmed(s) == s.subrange(lo, hi),
{
    lemma_run_end_is(s, CharClass::Blank, 0, lo);
    lemma_blank_start_is(s, lo, hi, s.len() as int);
}

/// The bounds of `chars` without the blanks at either end.
pub fn trim_bounds(chars: &[char]) -> (b: (usize, usize))
    ensures
        b.0 == run_end(chars@, CharClass::Blank, 0),
        b.1 == blank_start(chars@, b.0 as int, chars@.len() as int),
        b.0 <= b.1 <= chars@.len(),
        chars@.subrange(b.0 as int, b.1 as int) == trimmed(chars@),
{
    let lo = scan_run(chars, CharClass::Blank, 0);
    let mut hi: usize = chars.len();
    while lo < hi && CharClass::Blank.contains(chars[hi - 1])
        invariant
            lo <= hi <= chars@.len(),
            blank_start(chars@, lo as int, chars@.len() as int) == blank_start(
                chars@,
                lo as int,
                hi as int,
            ),
        decreases hi - lo,
    {
        hi = hi - 1;
    }
    (lo, hi)
}

/// The lower-case form of an unaccented capital letter; any other character
/// is left as it is.
pub open spec fn lower(c: char) -> char {
    if 'A' <= c <= 'Z' {
        ((c as u8) + 32) as char
    } else {
        c
    }
}

/// `s` with every unaccented capital letter turned to lower case.
pub open spec fn lowered(s: Seq<char>) -> Seq<char> {
    s.map_values(|c: char| lower(c))
}

/// A text without unaccented capital letters is its own lower-case form.
pub proof fn lemma_lowered_plain(s: Seq<char>)
    requires
        forall|k: int| 0 <= k < s.len() ==> !('A' <= #[trigger] s[k] <= 'Z'),
    ensures
        lowered(s) == s,
{
    assert(lowered(s) =~= s);
}

/// Turns an unaccented capital letter to lower case.
pub fn to_lower(c: char) -> (r: char)
    ensures
        r == lower(c),
{
    if 'A' <= c && c <= 'Z' {
        ((c as u8) + 32) as char
    } else {
        c
    }
}

/// Whether `word` stands at position `i` of `s`, letter case aside.
pub open spec fn word_at(s: Seq<char>, i: int, word: Seq<char>) -> bool {
    0 <= i && i + word.len() <= s.len() && lowered(s.subrange(i, i + word.len())) == word
}

/// Tests whether the lower-case `word` stands at position `i`, letter case aside.
pub fn has_word_at(chars: &[char], i: usize, word: &[char]) -> (b: bool)
    requires
        i <= chars@.len(),
    ensures
        b == word_at(chars@, i as int, word@),
{
    if chars.len() - i < word.len() {
        return false;
    }
    let ghost piece = chars@.subrange(i as int, i + word@.len());
    let mut k: usize = 0;
    while k < word.len()
        invariant
            k <= word@.len(),
            i + word@.len() <= chars@.len() <= usize::MAX,
            piece == chars@.subrange(i as int, i + word@.len()),
            forall|m: int| 0 <= m < k ==> lowered(piece)[m] == word@[m],
        decreases word@.len() - k,
    {
        if to_lower(chars[i + k]) != word[k] {
            assert(lowered(piece)[k as int] != word@[k as int]);
            return false;
        }
        k = k + 1;
    }
    assert(lowered(piece) =~= word@);
    true
}

/// The position of the first `c` in `s` from `i` on, or the length of `s`
/// where there is none.
pub open spec fn find_char(s: Seq<char>, c: char, i: int) -> int
    decreases s.len() - i,
{
    if 0 <= i < s.len() && s[i] != c {
        find_char(s, c, i + 1)
    } else {
        i
    }
}

/// The first `c` from `i` on stands at `j` where no character from `i` up
/// to `j` is `c` and the one at `j`, if there is one, is.
pub proof fn lemma_find_char_is(s: Seq<char>, c: char, i: int, j: int)
    requires
        0 <= i <= j <= s.len(),
        forall|k: int| i <= k < j ==> #[trigger] s[k] != c,
        j < s.len() ==> s[j] == c,
    ensures
        find_char(s, c, i) == j,
    decreases j - i,
{
    if i < j {
        lemma_find_char_is(s, c, i + 1, j);
    }
}

/// Finds the first `c` from the start of `chars`.
pub fn index_of(chars: &[char], c: char) -> (j: usize)
    ensures
        j == find_char(chars@, c, 0),
        j <= chars@.len(),
{
    let mut j: usize = 0;
    while j < chars.len() && chars[j] != c
        invariant
            j <= chars@.len(),
            find_char(chars@, c, 0) == find_char(chars@, c, j as int),
        decreases chars@.len() - j,
    {
        j = j + 1;
    }
    j
}

/// The number that the decimal digits of `s` write.
pub open spec fn decimal(s: Seq<char>) -> nat
    decreases s.len(),
{
    if s.len() == 0 {
        0
    } else {
        (10 * decimal(s.drop_last()) + digit_value(s.last())) as nat
    }
}

/// Whether `s` holds decimal digits only.
pub open spec fn all_digits(s: Seq<char>) -> bool {
    forall|k: int| 0 <= k < s.len() ==> is_digit(#[trigger] s[k])
}

/// The number that `s` writes, where `s` is one or more decimal digits and
/// the number is at most 255.
pub open spec fn small_number(s: Seq<char>) -> Option<u8> {
    if s.len() > 0 && all_digits(s) && decimal(s) <= 255 {
        Some(decimal(s) as u8)
    } else {
        None
    }
}

/// Further digits never make the number smaller.
pub proof fn lemma_decimal_grows(s: Seq<char>, k: int)
    requires
        all_digits(s),
        0 <= k <= s.len(),
    ensures
        decimal(s.take(k)) <= decimal(s),
    decreases s.len() - k,
{
    if k < s.len() {
        lemma_decimal_grows(s, k + 1);
        let longer = s.take(k + 1);
        assert(longer.drop_last() =~= s.take(k));
        assert(is_digit(s[k]));
        assert(longer.last() == s[k]);
    } else {
        assert(s.take(k) =~= s);
    }
}

/// Reads `chars` as a decimal number of at most 255.
pub fn read_small_number(chars: &[char]) -> (r: Option<u8>)
    ensures
        r == small_number(chars@),
{
    if chars.len() == 0 {
        return None;
    }
    let mut value: u8 = 0;
    let mut k: usize = 0;
    while k < chars.len()
        invariant
            k <= chars@.len(),
            all_digits(chars@.take(k as int)),
            value == decimal(chars@.take(k as int)),
        decreases chars@.len() - k,
    {
        let c = chars[k];
        if !CharClass::Digit.contains(c) {
            return None;
        }
        let d = digit_of(c);
        proof {
            let longer = chars@.take(k + 1);
            assert(longer.drop_last() =~= chars@.take(k as int));
            assert(longer.last() == c);
            assert forall|m: int| 0 <= m < longer.len() implies is_digit(#[trigger] longer[m]) by {
                if m < k {
                    assert(longer[m] == chars@.take(k as int)[m]);
                }
            }
            assert(decimal(longer) == 10 * value + d);
        }
        if value > 25 || (value == 25 && d > 5) {
            proof {
                if all_digits(chars@) {
                    lemma_decimal_grows(chars@, k + 1);
                }
            }
            return None;
        }
        value = value * 10 + d;
        k = k + 1;
    }
    assert(chars@.take(k as int) =~= chars@);
    Some(value)
}

} // verus!
