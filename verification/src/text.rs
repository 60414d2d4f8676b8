//! Text: comparison, trimming and decimal numerals.

use vstd::prelude::*;
use vstd::string::StringExecFns;

verus! {

/// `String::push` appends one character.
pub assume_specification[ std::string::String::push ](s: &mut std::string::String, ch: char)
    ensures
        final(s)@ == old(s)@.push(ch),
;

/// The characters of a text, if there is one.
pub open spec fn text_view(text: Option<String>) -> Option<Seq<char>> {
    match text {
        Some(text) => Some(text@),
        None => None,
    }
}

/// A copy of a text, if there is one.
pub fn copy_text(text: &Option<String>) -> (copy: Option<String>)
    ensures
        copy == *text,
{
    match text {
        Some(text) => Some(text.clone()),
        None => None,
    }
}

/// Whether `text` spells `literal`.
pub fn text_is(text: &String, literal: &str) -> (same: bool)
    ensures
        same == (text@ == literal@),
{
    *text == literal.to_owned()
}

/// `first` followed by `second`.
pub fn join(first: &str, second: &str) -> (whole: String)
    ensures
        whole@ == first@ + second@,
{
    let mut whole = first.to_owned();
    whole.append(second);
    whole
}

/// `first`, `second` and `third`, one after the other.
pub fn join3(first: &str, second: &str, third: &str) -> (whole: String)
    ensures
        whole@ == first@ + second@ + third@,
{
    let mut whole = join(first, second);
    whole.append(third);
    whole
}

/// The characters of a text.
pub fn chars_of(text: &str) -> (chars: Vec<char>)
    ensures
        chars@ == text@,
{
    let mut chars: Vec<char> = Vec::new();
    for c in it: text.chars()
        invariant
            it.seq() == text@,
            chars@ == text@.take(it.index() as int),
    {
        chars.push(c);
    }
    chars
}

/// The digit of a number below ten.
pub open spec fn digit(d: nat) -> char {
    (48 + d) as char
}

/// The decimal digits of a number, without leading zeros.
pub open spec fn digits(n: nat) -> Seq<char>
    decreases n,
{
    if n < 10 {
        seq![digit(n)]
    } else {
        digits(n / 10).push(digit(n % 10))
    }
}

/// The decimal numeral of an integer: its digits, after a minus sign if it is
/// negative.
pub open spec fn decimal(n: int) -> Seq<char> {
    if n < 0 {
        seq!['-'] + digits((-n) as nat)
    } else {
        digits(n as nat)
    }
}

/// Whether a character is a decimal digit.
pub open spec fn is_digit(c: char) -> bool {
    '0' <= c <= '9'
}

/// The number that a run of digits stands for.
pub open spec fn value_of(s: Seq<char>) -> nat
    decreases s.len(),
{
    if s.len() == 0 {
        0
    } else {
        value_of(s.drop_last()) * 10 + (s.last() as nat - 48) as nat
    }
}

/// Whether `s` is a nonempty run of digits without a superfluous leading zero.
pub open spec fn is_numeral(s: Seq<char>) -> bool {
    &&& s.len() > 0
    &&& forall|i: int| 0 <= i < s.len() ==> is_digit(#[trigger] s[i])
    &&& s[0] == '0' ==> s.len() == 1
}

proof fn lemma_digits_shape(n: nat)
    ensures
        is_numeral(digits(n)),
        value_of(digits(n)) == n,
        n > 0 ==> digits(n)[0] != '0',
    decreases n,
{
    reveal_with_fuel(value_of, 2);
    if n < 10 {
        assert(digits(n).drop_last() =~= Seq::<char>::empty());
        assert(digits(n).last() == digit(n));
    } else {
        lemma_digits_shape(n / 10);
        assert(digits(n).drop_last() =~= digits(n / 10));
        assert(digits(n)[0] == digits(n / 10)[0]);
    }
}

proof fn lemma_numeral_digits(s: Seq<char>)
    requires
        is_numeral(s),
    ensures
        digits(value_of(s)) == s,
        s[0] != '0' ==> value_of(s) > 0,
    decreases s.len(),
{
    reveal_with_fuel(value_of, 2);
    assert(is_digit(s.last()));
    if s.len() == 1 {
        assert(s.drop_last() =~= Seq::<char>::empty());
        assert(s =~= seq![digit(value_of(s))]);
    } else {
        let init = s.drop_last();
        assert forall|i: int| 0 <= i < init.len() implies is_digit(#[trigger] init[i]) by {
            assert(is_digit(s[i]));
        }
        assert(init[0] == s[0]);
        lemma_numeral_digits(init);
        let d = (s.last() as nat - 48) as nat;
        assert(value_of(s) == value_of(init) * 10 + d);
        assert(value_of(s) / 10 == value_of(init));
        assert(value_of(s) % 10 == d);
        assert(digits(value_of(s)) =~= s);
    }
}

/// The decimal numeral of an unsigned number.
pub fn unsigned_text(n: u64) -> (text: String)
    ensures
        text@ == digits(n as nat),
    decreases n,
{
    let mut text = if n < 10 {
        String::new()
    } else {
        unsigned_text(n / 10)
    };
    let d: u8 = (n % 10) as u8;
    text.push((48u8 + d) as char);
    proof {
        assert(text@ =~= digits(n as nat));
    }
    text
}

/// The decimal numeral of a signed number.
pub fn signed_text(n: i64) -> (text: String)
    ensures
        text@ == decimal(n as int),
{
    if n < 0 {
        let magnitude: u64 = (-(n as i128)) as u64;
        let mut text = String::new();
        text.push('-');
        text.append(unsigned_text(magnitude).as_str());
        proof {
            assert(text@ =~= decimal(n as int));
        }
        text
    } else {
        unsigned_text(n as u64)
    }
}

proof fn lemma_value_grows(s: Seq<char>, k: int)
    requires
        0 <= k <= s.len(),
    ensures
        value_of(s.take(k)) <= value_of(s),
    decreases s.len() - k,
{
    if k < s.len() {
        lemma_value_grows(s, k + 1);
        assert(s.take(k + 1).drop_last() =~= s.take(k));
    } else {
        assert(s.take(k) =~= s);
    }
}

/// Reads the digits of `chars` from `from` on, if they are a numeral that is
/// at most `limit`.
fn read_digits(chars: &Vec<char>, from: usize, limit: u64) -> (value: Option<u64>)
    requires
        from <= chars@.len(),
        limit <= 9223372036854775808,
    ensures
        match value {
            Some(n) => n <= limit && chars@.skip(from as int) == digits(n as nat),
            None => forall|n: nat| n <= limit ==> chars@.skip(from as int) != #[trigger] digits(n),
        },
{
    let ghost s = chars@.skip(from as int);
    proof {
        assert forall|n: nat| s == #[trigger] digits(n) implies is_numeral(s) && value_of(s) == n by {
            lemma_digits_shape(n);
        }
    }
    let len: usize = chars.len();
    if from == len {
        return None;
    }
    if chars[from] == '0' && len - from > 1 {
        proof {
            assert(s[0] == '0');
        }
        return None;
    }
    let mut value: u64 = 0;
    let mut i: usize = from;
    while i < len
        invariant
            from <= i <= len,
            len == chars@.len(),
            limit <= 9223372036854775808,
            s == chars@.skip(from as int),
            forall|n: nat| s == #[trigger] digits(n) ==> is_numeral(s) && value_of(s) == n,
            forall|k: int| 0 <= k < i - from ==> is_digit(#[trigger] s[k]),
            value == value_of(s.take(i - from)),
            value <= limit,
        decreases len - i,
    {
        let c: char = chars[i];
        assert(s[i - from] == c);
        if c < '0' || c > '9' {
            return None;
        }
        let d: u64 = c as u64 - 48;
        let next: u128 = value as u128 * 10 + d as u128;
        proof {
            assert(s.take(i - from + 1).drop_last() =~= s.take(i - from));
            assert(s.take(i - from + 1).last() == c);
            assert(next == value_of(s.take(i - from + 1)));
            lemma_value_grows(s, i - from + 1);
        }
        if next > limit as u128 {
            return None;
        }
        value = next as u64;
        i += 1;
    }
    proof {
        assert(s.take(len - from) =~= s);
        assert(s[0] == chars@[from as int]);
        lemma_numeral_digits(s);
    }
    Some(value)
}

/// Reads the decimal numeral of a signed number.  Anything but the numeral
/// that `signed_text` writes is refused.
pub fn read_signed(text: &str) -> (value: Option<i64>)
    ensures
        match value {
            Some(n) => text@ == decimal(n as int),
            None => forall|n: i64| text@ != #[trigger] decimal(n as int),
        },
{
    let chars = chars_of(text);
    if chars.len() > 0 && chars[0] == '-' {
        let magnitude = read_digits(&chars, 1, 9223372036854775808);
        proof {
            assert forall|n: i64| text@ == #[trigger] decimal(n as int) implies n < 0 && text@.skip(1)
                == digits((-n) as nat) by {
                if n < 0 {
                    assert(decimal(n as int).skip(1) =~= digits((-n) as nat));
                } else {
                    lemma_digits_shape(n as nat);
                    assert(is_digit(digits(n as nat)[0]));
                }
            }
        }
        match magnitude {
            Some(m) => {
                if m == 0 {
                    proof {
                        assert forall|n: i64| text@ != #[trigger] decimal(n as int) by {
                            if text@ == decimal(n as int) {
                                lemma_digits_shape((-n) as nat);
                                lemma_digits_shape(0);
                            }
                        }
                    }
                    None
                } else {
                    let n: i64 = (-(m as i128)) as i64;
                    proof {
                        assert(text@ =~= seq!['-'] + text@.skip(1));
                    }
                    Some(n)
                }
            },
            None => None,
        }
    } else {
        let magnitude = read_digits(&chars, 0, 9223372036854775807);
        proof {
            assert(text@.skip(0) =~= text@);
            assert forall|n: i64| n < 0 implies text@ != #[trigger] decimal(n as int) by {
                assert(decimal(n as int)[0] == '-');
            }
        }
        match magnitude {
            Some(m) => Some(m as i64),
            None => {
                proof {
                    assert forall|n: i64| text@ != #[trigger] decimal(n as int) by {
                        if n >= 0 {
                            assert(digits(n as nat) == decimal(n as int));
                        }
                    }
                }
                None
            },
        }
    }
}

/// Two signed numbers with the same decimal numeral are the same number.
pub proof fn law_decimal_injective(a: i64, b: i64)
    requires
        decimal(a as int) == decimal(b as int),
    ensures
        a == b,
{
    let x = if a < 0 { (-a) as nat } else { a as nat };
    let y = if b < 0 { (-b) as nat } else { b as nat };
    lemma_digits_shape(x);
    lemma_digits_shape(y);
    assert(is_digit(digits(x)[0]));
    assert(is_digit(digits(y)[0]));
    if a < 0 {
        assert(decimal(a as int)[0] == '-');
        assert(decimal(a as int).skip(1) =~= digits(x));
    }
    if b < 0 {
        assert(decimal(b as int)[0] == '-');
        assert(decimal(b as int).skip(1) =~= digits(y));
    }
}

/// Unicode's `White_Space` property.
pub open spec fn is_white_space(c: char) -> bool {
    ||| '\u{9}' <= c <= '\u{d}'
    ||| c == '\u{20}'
    ||| c == '\u{85}'
    ||| c == '\u{a0}'
    ||| c == '\u{1680}'
    ||| '\u{2000}' <= c <= '\u{200a}'
    ||| c == '\u{2028}'
    ||| c == '\u{2029}'
    ||| c == '\u{202f}'
    ||| c == '\u{205f}'
    ||| c == '\u{3000}'
}

/// Whether a character is white space.
pub fn white_space(c: char) -> (white: bool)
    ensures
        white == is_white_space(c),
{
    ('\u{9}' <= c && c <= '\u{d}') || c == '\u{20}' || c == '\u{85}' || c == '\u{a0}' || c
        == '\u{1680}' || ('\u{2000}' <= c && c <= '\u{200a}') || c == '\u{2028}' || c == '\u{2029}' || c
        == '\u{202f}' || c == '\u{205f}' || c == '\u{3000}'
}

/// `s` without its leading white space.
pub open spec fn trim_start(s: Seq<char>) -> Seq<char>
    decreases s.len(),
{
    if s.len() > 0 && is_white_space(s[0]) {
        trim_start(s.drop_first())
    } else {
        s
    }
}

/// `s` without its trailing white space.
pub open spec fn trim_end(s: Seq<char>) -> Seq<char>
    decreases s.len(),
{
    if s.len() > 0 && is_white_space(s.last()) {
        trim_end(s.drop_last())
    } else {
        s
    }
}

/// `s` without leading and trailing white space.
pub open spec fn trimmed(s: Seq<char>) -> Seq<char> {
    trim_end(trim_start(s))
}

/// `str::trim` removes leading and trailing white space, in the sense of
/// Unicode's `White_Space` property.
pub assume_specification<'a>[ str::trim ](s: &'a str) -> (rest: &'a str)
    ensures
        rest@ == trimmed(s@),
;

/// Numerals are decimal: a number below ten is its digit, one more digit makes ten
/// times the number and that digit more, and a negative number has a minus sign
/// before its magnitude.
pub proof fn law_numerals_are_decimal(n: nat, d: nat)
    requires
        n > 0,
        d < 10,
    ensures
        decimal(d as int) == seq![(('0' as nat) + d) as char],
        decimal((10 * n + d) as int) == decimal(n as int).push((('0' as nat) + d) as char),
        decimal(-(n as int)) == seq!['-'] + decimal(n as int),
        digits(n) == decimal(n as int),
        digits(d) == decimal(d as int),
{
    assert((10 * n + d) / 10 == n);
    assert((10 * n + d) % 10 == d);
    assert(decimal((10 * n + d) as int) == digits(10 * n + d));
}

/// White space is what Unicode calls so.
pub proof fn law_white_space_is_unicodes(c: char)
    ensures
        is_white_space(c) <==> ('\t' <= c <= '\r' || c == ' ' || '\u{2000}' <= c <= '\u{200a}' || seq![
            '\u{85}',
            '\u{a0}',
            '\u{1680}',
            '\u{2028}',
            '\u{2029}',
            '\u{202f}',
            '\u{205f}',
            '\u{3000}',
        ].contains(c)),
{
    let others = seq![
        '\u{85}',
        '\u{a0}',
        '\u{1680}',
        '\u{2028}',
        '\u{2029}',
        '\u{202f}',
        '\u{205f}',
        '\u{3000}',
    ];
    assert(others[0] == '\u{85}' && others[1] == '\u{a0}' && others[2] == '\u{1680}');
    assert(others[3] == '\u{2028}' && others[4] == '\u{2029}' && others[5] == '\u{202f}');
    assert(others[6] == '\u{205f}' && others[7] == '\u{3000}');
}

/// Whether a text is all white space.
pub open spec fn is_blank(s: Seq<char>) -> bool {
    forall|i: int| 0 <= i < s.len() ==> is_white_space(#[trigger] s[i])
}

proof fn lemma_trim_start(s: Seq<char>) -> (before: int)
    ensures
        0 <= before <= s.len(),
        is_blank(s.take(before)),
        trim_start(s) == s.skip(before),
        before < s.len() ==> !is_white_space(s[before]),
    decreases s.len(),
{
    if s.len() > 0 && is_white_space(s[0]) {
        let rest = s.drop_first();
        let before = lemma_trim_start(rest) + 1;
        assert forall|i: int| 0 <= i < before implies is_white_space(
            #[trigger] s.take(before)[i],
        ) by {
            if i > 0 {
                assert(rest.take(before - 1)[i - 1] == s[i]);
            }
        }
        assert(rest.skip(before - 1) =~= s.skip(before));
        before
    } else {
        assert(s.skip(0) =~= s);
        0
    }
}

proof fn lemma_trim_end(s: Seq<char>) -> (after: int)
    ensures
        0 <= after <= s.len(),
        is_blank(s.skip(after)),
        trim_end(s) == s.take(after),
        after > 0 ==> !is_white_space(s[after - 1]),
    decreases s.len(),
{
    if s.len() > 0 && is_white_space(s.last()) {
        let rest = s.drop_last();
        let after = lemma_trim_end(rest);
        assert forall|i: int| 0 <= i < s.len() - after implies is_white_space(
            #[trigger] s.skip(after)[i],
        ) by {
            if i < rest.len() - after {
                assert(rest.skip(after)[i] == s[after + i]);
            }
        }
        assert(rest.take(after) =~= s.take(after));
        after
    } else {
        assert(s.take(s.len() as int) =~= s);
        s.len() as int
    }
}

/// Trimming takes away the white space at both ends and nothing else: what is
/// left begins and ends with something else, and stood between blanks.
pub proof fn law_trimming_takes_the_blanks(s: Seq<char>) -> (bounds: (int, int))
    ensures
        0 <= bounds.0 <= bounds.1 <= s.len(),
        trimmed(s) == s.subrange(bounds.0, bounds.1),
        is_blank(s.subrange(0, bounds.0)),
        is_blank(s.subrange(bounds.1, s.len() as int)),
        trimmed(s).len() > 0 ==> !is_white_space(trimmed(s)[0]) && !is_white_space(trimmed(s).last()),
{
    let before = lemma_trim_start(s);
    let rest = s.skip(before);
    let after = lemma_trim_end(rest);
    assert(s.take(before) =~= s.subrange(0, before));
    assert(rest.take(after) =~= s.subrange(before, before + after));
    assert(rest.skip(after) =~= s.subrange(before + after, s.len() as int));
    (before, before + after)
}

/// A text is seen whole, where there is one.
pub proof fn law_text_is_seen_whole(text: Option<String>)
    ensures
        match (text, text_view(text)) {
            (Some(text), Some(t)) => t == text@,
            (None, None) => true,
            _ => false,
        },
{
}

} // verus!
