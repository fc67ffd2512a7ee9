//! Text helpers: whitespace-separated words and decimal numerals.
use vstd::prelude::*;

verus! {

/// The code points that Unicode gives the property `White_Space`.
pub open spec fn is_space(c: char) -> bool {
    let n = c as u32;
    ||| 0x09 <= n <= 0x0D
    ||| n == 0x20
    ||| n == 0x85
    ||| n == 0xA0
    ||| n == 0x1680
    ||| 0x2000 <= n <= 0x200A
    ||| n == 0x2028
    ||| n == 0x2029
    ||| n == 0x202F
    ||| n == 0x205F
    ||| n == 0x3000
}

/// The word that is open at position `i`, if any: the characters from
/// `start` up to `i`.
pub open spec fn open_word(s: Seq<char>, start: int, i: int) -> Seq<Seq<char>> {
    if start < i {
        seq![s.subrange(start, i)]
    } else {
        Seq::empty()
    }
}

/// The words of `s` that end at or after position `i`, where the characters
/// from `start` up to `i` hold no whitespace and belong to the next word.
pub open spec fn words_from(s: Seq<char>, start: int, i: int) -> Seq<Seq<char>>
    decreases s.len() - i,
{
    if i < 0 || i >= s.len() {
        open_word(s, start, s.len() as int)
    } else if is_space(s[i]) {
        open_word(s, start, i) + words_from(s, i + 1, i + 1)
    } else {
        words_from(s, start, i + 1)
    }
}

/// The maximal runs of non-whitespace characters of `s`, in order.
pub open spec fn words(s: Seq<char>) -> Seq<Seq<char>> {
    words_from(s, 0, 0)
}

/// The contents of a list of strings.
pub open spec fn texts(v: Seq<String>) -> Seq<Seq<char>> {
    Seq::new(v.len(), |i: int| v[i]@)
}

/// The decimal digit for `d`, which is below ten.
pub open spec fn digit_char(d: nat) -> char {
    if d == 0 {
        '0'
    } else if d == 1 {
        '1'
    } else if d == 2 {
        '2'
    } else if d == 3 {
        '3'
    } else if d == 4 {
        '4'
    } else if d == 5 {
        '5'
    } else if d == 6 {
        '6'
    } else if d == 7 {
        '7'
    } else if d == 8 {
        '8'
    } else {
        '9'
    }
}

/// The decimal numeral of `n`, without leading zeros.
pub open spec fn decimal_nat(n: nat) -> Seq<char>
    decreases n,
{
    if n < 10 {
        seq![digit_char(n)]
    } else {
        decimal_nat(n / 10).push(digit_char(n % 10))
    }
}

/// The decimal numeral of `n`, with a minus sign where it is negative.
pub open spec fn decimal(n: int) -> Seq<char> {
    if n < 0 {
        seq!['-'] + decimal_nat((-n) as nat)
    } else {
        decimal_nat(n as nat)
    }
}

/// Whether `w` could be a word: it is not empty and holds no whitespace.
pub open spec fn is_word(w: Seq<char>) -> bool {
    &&& w.len() > 0
    &&& forall|j: int| 0 <= j < w.len() ==> !is_space(#[trigger] w[j])
}

/// The number that the decimal digit `c` stands for.
pub open spec fn digit_value(c: char) -> nat {
    (c as u32 - 0x30) as nat
}

/// The number that a sequence of decimal digits denotes.
pub open spec fn numeral_value(s: Seq<char>) -> nat
    decreases s.len(),
{
    if s.len() == 0 {
        0
    } else {
        numeral_value(s.drop_last()) * 10 + digit_value(s.last())
    }
}

proof fn lemma_words_from_are_words(s: Seq<char>, start: int, i: int)
    requires
        0 <= start <= i <= s.len(),
        forall|j: int| start <= j < i ==> !is_space(#[trigger] s[j]),
    ensures
        forall|k: int|
            0 <= k < words_from(s, start, i).len() ==> is_word(#[trigger] words_from(s, start, i)[k]),
    decreases s.len() - i,
{
    let all = words_from(s, start, i);
    if i >= s.len() {
        let w = s.subrange(start, s.len() as int);
        assert forall|k: int| 0 <= k < all.len() implies is_word(#[trigger] all[k]) by {
            assert(all[k] == w);
            assert forall|j: int| 0 <= j < w.len() implies !is_space(#[trigger] w[j]) by {
                assert(w[j] == s[start + j]);
            }
        }
    } else if is_space(s[i]) {
        lemma_words_from_are_words(s, i + 1, i + 1);
        let first = open_word(s, start, i);
        let rest = words_from(s, i + 1, i + 1);
        let w = s.subrange(start, i);
        assert(all == first + rest);
        assert forall|k: int| 0 <= k < all.len() implies is_word(#[trigger] all[k]) by {
            if k < first.len() {
                assert(all[k] == w);
                assert forall|j: int| 0 <= j < w.len() implies !is_space(#[trigger] w[j]) by {
                    assert(w[j] == s[start + j]);
                }
            } else {
                assert(all[k] == rest[k - first.len()]);
            }
        }
    } else {
        lemma_words_from_are_words(s, start, i + 1);
        assert(all == words_from(s, start, i + 1));
    }
}

/// No word of a text is empty, and none holds whitespace.
pub proof fn lemma_words_are_words(s: Seq<char>)
    ensures
        forall|k: int| 0 <= k < words(s).len() ==> is_word(#[trigger] words(s)[k]),
{
    lemma_words_from_are_words(s, 0, 0);
}

proof fn lemma_no_words_from(s: Seq<char>, i: int)
    requires
        0 <= i <= s.len(),
        forall|j: int| 0 <= j < s.len() ==> is_space(#[trigger] s[j]),
    ensures
        words_from(s, i, i) =~= Seq::<Seq<char>>::empty(),
    decreases s.len() - i,
{
    if i < s.len() {
        lemma_no_words_from(s, i + 1);
    }
}

/// A text that is empty or all whitespace has no words.
pub proof fn lemma_whitespace_has_no_words(s: Seq<char>)
    requires
        forall|j: int| 0 <= j < s.len() ==> is_space(#[trigger] s[j]),
    ensures
        words(s).len() == 0,
{
    lemma_no_words_from(s, 0);
}

proof fn lemma_one_word_from(s: Seq<char>, i: int)
    requires
        0 <= i <= s.len(),
        s.len() > 0,
        forall|j: int| 0 <= j < s.len() ==> !is_space(#[trigger] s[j]),
    ensures
        words_from(s, 0, i) =~= seq![s],
    decreases s.len() - i,
{
    if i < s.len() {
        lemma_one_word_from(s, i + 1);
    } else {
        assert(s.subrange(0, s.len() as int) =~= s);
    }
}

/// A text that is a word is its own single word.
pub proof fn lemma_word_is_its_own_words(s: Seq<char>)
    requires
        is_word(s),
    ensures
        words(s) == seq![s],
{
    lemma_one_word_from(s, 0);
}

proof fn lemma_words_from_shift(p: Seq<char>, b: Seq<char>, start: int, i: int)
    requires
        0 <= start <= i <= b.len(),
    ensures
        words_from(p + b, p.len() + start, p.len() + i) == words_from(b, start, i),
    decreases b.len() - i,
{
    let s = p + b;
    let n = p.len() as int;
    if i >= b.len() {
        assert(s.subrange(n + start, s.len() as int) =~= b.subrange(start, b.len() as int));
    } else {
        assert(s[n + i] == b[i]);
        if is_space(b[i]) {
            assert(s.subrange(n + start, n + i) =~= b.subrange(start, i));
            lemma_words_from_shift(p, b, i + 1, i + 1);
        } else {
            lemma_words_from_shift(p, b, start, i + 1);
        }
    }
}

proof fn lemma_words_from_split(a: Seq<char>, c: char, b: Seq<char>, start: int, i: int)
    requires
        is_space(c),
        0 <= start <= i <= a.len(),
    ensures
        words_from(a.push(c) + b, start, i) == words_from(a, start, i) + words(b),
    decreases a.len() - i,
{
    let s = a.push(c) + b;
    if i >= a.len() {
        assert(s[i] == c);
        assert(s.subrange(start, i) =~= a.subrange(start, a.len() as int));
        lemma_words_from_shift(a.push(c), b, 0, 0);
    } else {
        assert(s[i] == a[i]);
        if is_space(a[i]) {
            assert(s.subrange(start, i) =~= a.subrange(start, i));
            lemma_words_from_split(a, c, b, i + 1, i + 1);
            assert(open_word(a, start, i) + (words_from(a, i + 1, i + 1) + words(b)) =~= (
            open_word(a, start, i) + words_from(a, i + 1, i + 1)) + words(b));
        } else {
            lemma_words_from_split(a, c, b, start, i + 1);
        }
    }
}

/// The words of two texts with whitespace between them are the words of
/// the first, then the words of the second.
pub proof fn lemma_words_split_at_space(a: Seq<char>, c: char, b: Seq<char>)
    requires
        is_space(c),
    ensures
        words(a.push(c) + b) == words(a) + words(b),
{
    lemma_words_from_split(a, c, b, 0, 0);
}

/// A decimal numeral denotes the number it was written for, so different
/// numbers have different numerals.
pub proof fn lemma_numeral_value(n: nat)
    ensures
        numeral_value(decimal_nat(n)) == n,
        decimal_nat(n).len() >= 1,
    decreases n,
{
    if n < 10 {
        assert(seq![digit_char(n)].drop_last() =~= Seq::<char>::empty());
        assert(numeral_value(Seq::<char>::empty()) == 0);
        assert(digit_value(digit_char(n)) == n);
    } else {
        lemma_numeral_value(n / 10);
        let d = digit_char(n % 10);
        assert(decimal_nat(n / 10).push(d).drop_last() =~= decimal_nat(n / 10));
        assert(decimal_nat(n / 10).push(d).last() == d);
        assert(digit_value(d) == n % 10);
    }
}

/// Whether `c` is whitespace.
pub fn is_whitespace(c: char) -> (r: bool)
    ensures
        r == is_space(c),
{
    let n: u32 = c as u32;
    (0x09 <= n && n <= 0x0D) || n == 0x20 || n == 0x85 || n == 0xA0 || n == 0x1680 || (0x2000 <= n
        && n <= 0x200A) || n == 0x2028 || n == 0x2029 || n == 0x202F || n == 0x205F || n == 0x3000
}

/// Splits `s` at whitespace into its words; runs of whitespace separate, and
/// none at either end makes an empty word.
pub fn split_whitespace(s: &str) -> (out: Vec<String>)
    ensures
        texts(out@) == words(s@),
{
    let n: usize = s.unicode_len();
    let mut out: Vec<String> = Vec::new();
    let mut start: usize = 0;
    let mut i: usize = 0;
    assert(texts(out@) =~= Seq::<Seq<char>>::empty());
    while i < n
        invariant
            n == s@.len(),
            start <= i <= n,
            words(s@) == texts(out@) + words_from(s@, start as int, i as int),
        decreases n - i,
    {
        let c: char = s.get_char(i);
        if is_whitespace(c) {
            let ghost before = out@;
            if start < i {
                let w: String = String::from_str(s.substring_char(start, i));
                out.push(w);
            }
            assert(texts(out@) =~= texts(before) + open_word(s@, start as int, i as int));
            assert(texts(before) + (open_word(s@, start as int, i as int) + words_from(
                s@,
                i + 1,
                i + 1,
            )) =~= texts(out@) + words_from(s@, i + 1, i + 1));
            start = i + 1;
        }
        i = i + 1;
    }
    let ghost before = out@;
    if start < n {
        let w: String = String::from_str(s.substring_char(start, n));
        out.push(w);
    }
    assert(texts(out@) =~= texts(before) + open_word(s@, start as int, n as int));
    out
}

/// The one-character text of the digit `d`.
fn digit_text(d: u128) -> (r: &'static str)
    requires
        d < 10,
    ensures
        r@ == seq![digit_char(d as nat)],
{
    proof {
        reveal_strlit("0");
        reveal_strlit("1");
        reveal_strlit("2");
        reveal_strlit("3");
        reveal_strlit("4");
        reveal_strlit("5");
        reveal_strlit("6");
        reveal_strlit("7");
        reveal_strlit("8");
        reveal_strlit("9");
    }
    let r: &'static str = if d == 0 {
        "0"
    } else if d == 1 {
        "1"
    } else if d == 2 {
        "2"
    } else if d == 3 {
        "3"
    } else if d == 4 {
        "4"
    } else if d == 5 {
        "5"
    } else if d == 6 {
        "6"
    } else if d == 7 {
        "7"
    } else if d == 8 {
        "8"
    } else {
        "9"
    };
    assert(r@ =~= seq![digit_char(d as nat)]);
    r
}

/// Writes `n` in decimal.
pub fn format_unsigned(n: u128) -> (r: String)
    ensures
        r@ == decimal_nat(n as nat),
    decreases n,
{
    if n < 10 {
        String::from_str(digit_text(n))
    } else {
        let mut r: String = format_unsigned(n / 10);
        r.append(digit_text(n % 10));
        assert(r@ =~= decimal_nat((n / 10) as nat).push(digit_char((n % 10) as nat)));
        r
    }
}

/// Writes `n` in decimal, with a leading `-` where it is negative.
pub fn format_i32(n: i32) -> (r: String)
    ensures
        r@ == decimal(n as int),
{
    if n < 0 {
        let m: i64 = -(n as i64);
        proof {
            reveal_strlit("-");
        }
        let mut r: String = String::from_str("-");
        let digits: String = format_unsigned(m as u128);
        r.append(digits.as_str());
        assert(r@ =~= seq!['-'] + decimal_nat((-n) as nat));
        r
    } else {
        format_unsigned(n as u128)
    }
}

} // verus!
