//! Small string predicates the classification logic runs on, and the one
//! case-folding call it takes from the standard library.

use vstd::prelude::*;
use vstd::string::StrSliceExecFns;
use vstd::string::StringExecFns;

verus! {

/// `needle` occurs contiguously somewhere in `hay`.
pub open spec fn contains_seq(hay: Seq<char>, needle: Seq<char>) -> bool {
    exists|i: int|
        0 <= i <= hay.len() - needle.len() && #[trigger] hay.subrange(i, i + needle.len())
            == needle
}

/// Whether `needle` occurs at position `i` of `hay`.
spec fn match_at(hay: Seq<char>, needle: Seq<char>, i: int) -> bool {
    hay.subrange(i, i + needle.len()) == needle
}

/// Substring search.
pub fn str_contains(hay: &str, needle: &str) -> (b: bool)
    ensures
        b == contains_seq(hay@, needle@),
{
    let hay_len = hay.unicode_len();
    let needle_len = needle.unicode_len();
    if needle_len > hay_len {
        proof {
            assert(!contains_seq(hay@, needle@));
        }
        return false;
    }
    if needle_len == 0 {
        proof {
            assert(hay@.subrange(0, 0 + needle@.len() as int) =~= needle@);
            assert(contains_seq(hay@, needle@));
        }
        return true;
    }
    let end = hay_len - needle_len;
    let mut i: usize = 0;
    while i <= end
        invariant
            1 <= needle_len <= hay_len,
            end == hay_len - needle_len,
            hay_len == hay@.len(),
            needle_len == needle@.len(),
            0 <= i <= end + 1,
            forall|k: int| 0 <= k < i ==> !match_at(hay@, needle@, k),
        decreases end + 1 - i,
    {
        let mut j: usize = 0;
        let mut matched = true;
        while j < needle_len
            invariant
                needle_len <= hay_len,
                hay_len == hay@.len(),
                needle_len == needle@.len(),
                0 <= i <= end,
                end == hay_len - needle_len,
                0 <= j <= needle_len,
                matched ==> forall|l: int| 0 <= l < j ==> hay@[i + l] == needle@[l],
                !matched ==> !match_at(hay@, needle@, i as int),
            decreases needle_len - j,
        {
            if hay.get_char(i + j) != needle.get_char(j) {
                proof {
                    assert(hay@.subrange(i as int, i + needle@.len())[j as int] == hay@[i + j]);
                }
                matched = false;
                j = needle_len;
            } else {
                j += 1;
            }
        }
        if matched {
            proof {
                assert(hay@.subrange(i as int, i + needle@.len()) =~= needle@);
                assert(match_at(hay@, needle@, i as int));
            }
            return true;
        }
        i += 1;
    }
    proof {
        assert forall|k: int| 0 <= k <= hay@.len() - needle@.len() implies #[trigger] hay@.subrange(
            k,
            k + needle@.len(),
        ) != needle@ by {
            assert(!match_at(hay@, needle@, k));
        }
    }
    false
}

/// Suffix test.
pub fn str_ends_with(s: &str, suffix: &str) -> (b: bool)
    ensures
        b == suffix@.is_suffix_of(s@),
{
    let s_len = s.unicode_len();
    let suffix_len = suffix.unicode_len();
    if suffix_len > s_len {
        return false;
    }
    let tail = s.substring_char(s_len - suffix_len, s_len);
    let b = String::from_str(tail) == String::from_str(suffix);
    proof {
        assert(suffix@.is_suffix_of(s@) == (s@.subrange(
            s@.len() - suffix@.len(),
            s@.len() as int,
        ) =~= suffix@));
    }
    b
}

/// Character-wise string equality.
pub fn str_eq(a: &str, b: &str) -> (r: bool)
    ensures
        r == (a@ == b@),
{
    String::from_str(a) == String::from_str(b)
}

/// Shorten a string for display: strings longer than `max_len` characters
/// are cut to `max_len`, ellipsis included.
pub fn truncate(s: &str, max_len: usize) -> (r: String)
    requires
        max_len >= 3,
    ensures
        s@.len() <= max_len ==> r@ == s@,
        s@.len() > max_len ==> r@ == s@.take(max_len - 3) + "..."@,
{
    let len = s.unicode_len();
    if len > max_len {
        let head = s.substring_char(0, max_len - 3);
        let mut r = String::from_str(head);
        r.append("...");
        r
    } else {
        String::from_str(s)
    }
}

/// The character of one decimal digit.
pub open spec fn digit_char(d: int) -> char {
    if d == 0 {
        '0'
    } else if d == 1 {
        '1'
    } else if d == 2 {
        '2'
    } else if d == 3 {
        '3'
    } else if d == 4 {
        '4'
    } else if d == 5 {
        '5'
    } else if d == 6 {
        '6'
    } else if d == 7 {
        '7'
    } else if d == 8 {
        '8'
    } else {
        '9'
    }
}

/// The decimal rendering of a number, most significant digit first.
pub open spec fn dec_chars(n: int) -> Seq<char>
    decreases n,
{
    if n < 10 {
        seq![digit_char(n)]
    } else {
        dec_chars(n / 10).push(digit_char(n % 10))
    }
}

/// The digit characters of a digit-value sequence.
pub open spec fn digit_chars_of(ds: Seq<u64>) -> Seq<char> {
    ds.map_values(|d: u64| digit_char(d as int))
}

/// Render a number in decimal.
pub fn u64_to_string(n: u64) -> (r: String)
    ensures
        r@ == dec_chars(n as int),
{
    let mut digits: Vec<u64> = Vec::new();
    let mut rest: u64 = n;
    loop
        invariant_except_break
            dec_chars(n as int) == dec_chars(rest as int) + digit_chars_of(digits@).reverse(),
            forall|k: int| 0 <= k < digits@.len() ==> #[trigger] digits@[k] < 10,
        ensures
            dec_chars(n as int) == digit_chars_of(digits@).reverse(),
            forall|k: int| 0 <= k < digits@.len() ==> #[trigger] digits@[k] < 10,
        decreases rest,
    {
        let ghost pre = digits@;
        let d: u64 = rest % 10;
        digits.push(d);
        proof {
            assert(digit_chars_of(pre.push(d)) =~= digit_chars_of(pre).push(digit_char(d as int)));
            assert((digit_chars_of(pre).push(digit_char(d as int))).reverse() =~= seq![
                digit_char(d as int),
            ] + digit_chars_of(pre).reverse());
        }
        if rest < 10 {
            proof {
                assert(dec_chars(rest as int) == seq![digit_char(rest as int)]);
                assert(dec_chars(n as int) =~= digit_chars_of(digits@).reverse());
            }
            break ;
        }
        proof {
            assert(dec_chars(rest as int) == dec_chars(rest as int / 10).push(
                digit_char(rest as int % 10),
            ));
            assert(dec_chars(rest as int / 10).push(digit_char(rest as int % 10))
                + digit_chars_of(pre).reverse() =~= dec_chars(rest as int / 10) + (seq![
                digit_char(d as int),
            ] + digit_chars_of(pre).reverse()));
        }
        rest = rest / 10;
    }
    let ghost rev = digit_chars_of(digits@).reverse();
    let mut r = String::new();
    let mut i: usize = digits.len();
    while i > 0
        invariant
            0 <= i <= digits@.len(),
            forall|k: int| 0 <= k < digits@.len() ==> #[trigger] digits@[k] < 10,
            rev == digit_chars_of(digits@).reverse(),
            r@ == rev.take(digits@.len() - i),
        decreases i,
    {
        i -= 1;
        r.append(digit_str(digits[i]));
        proof {
            assert(rev[digits@.len() - (i + 1)] == digit_char(digits@[i as int] as int));
            assert(rev.take(digits@.len() - i) =~= rev.take(digits@.len() - (i + 1)).push(
                digit_char(digits@[i as int] as int),
            ));
            assert(rev.take(digits@.len() - (i + 1)).push(digit_char(digits@[i as int] as int))
                =~= rev.take(digits@.len() - (i + 1)) + seq![
                digit_char(digits@[i as int] as int),
            ]);
        }
    }
    proof {
        assert(rev.take(digits@.len() as int) =~= rev);
    }
    r
}

/// The one-character string of one digit value.
fn digit_str(d: u64) -> (s: &'static str)
    requires
        d < 10,
    ensures
        s@ == seq![digit_char(d as int)],
{
    proof {
        reveal_strlit("0");
        reveal_strlit("1");
        reveal_strlit("2");
        reveal_strlit("3");
        reveal_strlit("4");
        reveal_strlit("5");
        reveal_strlit("6");
        reveal_strlit("7");
        reveal_strlit("8");
        reveal_strlit("9");
    }
    let s = if d == 0 {
        "0"
    } else if d == 1 {
        "1"
    } else if d == 2 {
        "2"
    } else if d == 3 {
        "3"
    } else if d == 4 {
        "4"
    } else if d == 5 {
        "5"
    } else if d == 6 {
        "6"
    } else if d == 7 {
        "7"
    } else if d == 8 {
        "8"
    } else {
        "9"
    };
    proof {
        assert(s@ =~= seq![digit_char(d as int)]);
    }
    s
}

/// The digit character of one value below ten.
fn digit_of(d: u64) -> (c: char)
    requires
        d < 10,
    ensures
        c == digit_char(d as int),
{
    if d == 0 {
        '0'
    } else if d == 1 {
        '1'
    } else if d == 2 {
        '2'
    } else if d == 3 {
        '3'
    } else if d == 4 {
        '4'
    } else if d == 5 {
        '5'
    } else if d == 6 {
        '6'
    } else if d == 7 {
        '7'
    } else if d == 8 {
        '8'
    } else {
        '9'
    }
}

/// The character of one hexadecimal digit, lower case.
pub open spec fn hex_digit_char(d: int) -> char {
    if d < 10 {
        digit_char(d)
    } else if d == 10 {
        'a'
    } else if d == 11 {
        'b'
    } else if d == 12 {
        'c'
    } else if d == 13 {
        'd'
    } else if d == 14 {
        'e'
    } else {
        'f'
    }
}

/// The hexadecimal rendering of a number, most significant digit first.
pub open spec fn hex_chars(n: int) -> Seq<char>
    decreases n,
{
    if n < 16 {
        seq![hex_digit_char(n)]
    } else {
        hex_chars(n / 16).push(hex_digit_char(n % 16))
    }
}

/// The hexadecimal digit characters of a digit-value sequence.
pub open spec fn hex_digit_chars_of(ds: Seq<u64>) -> Seq<char> {
    ds.map_values(|d: u64| hex_digit_char(d as int))
}

/// Render a number in lower-case hexadecimal.
pub fn u128_to_hex(n: u128) -> (r: String)
    ensures
        r@ == hex_chars(n as int),
{
    let mut digits: Vec<u64> = Vec::new();
    let mut rest: u128 = n;
    loop
        invariant_except_break
            hex_chars(n as int) == hex_chars(rest as int) + hex_digit_chars_of(digits@).reverse(),
            forall|k: int| 0 <= k < digits@.len() ==> #[trigger] digits@[k] < 16,
        ensures
            hex_chars(n as int) == hex_digit_chars_of(digits@).reverse(),
            forall|k: int| 0 <= k < digits@.len() ==> #[trigger] digits@[k] < 16,
        decreases rest,
    {
        let ghost pre = digits@;
        let d: u64 = (rest % 16) as u64;
        digits.push(d);
        proof {
            assert(hex_digit_chars_of(pre.push(d)) =~= hex_digit_chars_of(pre).push(
                hex_digit_char(d as int),
            ));
            assert((hex_digit_chars_of(pre).push(hex_digit_char(d as int))).reverse() =~= seq![
                hex_digit_char(d as int),
            ] + hex_digit_chars_of(pre).reverse());
        }
        if rest < 16 {
            proof {
                assert(hex_chars(rest as int) == seq![hex_digit_char(rest as int)]);
                assert(hex_chars(n as int) =~= hex_digit_chars_of(digits@).reverse());
            }
            break ;
        }
        proof {
            assert(hex_chars(rest as int) == hex_chars(rest as int / 16).push(
                hex_digit_char(rest as int % 16),
            ));
            assert(hex_chars(rest as int / 16).push(hex_digit_char(rest as int % 16))
                + hex_digit_chars_of(pre).reverse() =~= hex_chars(rest as int / 16) + (seq![
                hex_digit_char(d as int),
            ] + hex_digit_chars_of(pre).reverse()));
        }
        rest = rest / 16;
    }
    let ghost rev = hex_digit_chars_of(digits@).reverse();
    let mut r = String::new();
    let mut i: usize = digits.len();
    while i > 0
        invariant
            0 <= i <= digits@.len(),
            forall|k: int| 0 <= k < digits@.len() ==> #[trigger] digits@[k] < 16,
            rev == hex_digit_chars_of(digits@).reverse(),
            r@ == rev.take(digits@.len() - i),
        decreases i,
    {
        i -= 1;
        r.append(hex_digit_str(digits[i]));
        proof {
            assert(rev[digits@.len() - (i + 1)] == hex_digit_char(digits@[i as int] as int));
            assert(rev.take(digits@.len() - i) =~= rev.take(digits@.len() - (i + 1)).push(
                hex_digit_char(digits@[i as int] as int),
            ));
            assert(rev.take(digits@.len() - (i + 1)).push(hex_digit_char(digits@[i as int] as int))
                =~= rev.take(digits@.len() - (i + 1)) + seq![
                hex_digit_char(digits@[i as int] as int),
            ]);
        }
    }
    proof {
        assert(rev.take(digits@.len() as int) =~= rev);
    }
    r
}

/// The one-character string of one hexadecimal digit value.
fn hex_digit_str(d: u64) -> (s: &'static str)
    requires
        d < 16,
    ensures
        s@ == seq![hex_digit_char(d as int)],
{
    if d < 10 {
        digit_str(d)
    } else {
        proof {
            reveal_strlit("a");
            reveal_strlit("b");
            reveal_strlit("c");
            reveal_strlit("d");
            reveal_strlit("e");
            reveal_strlit("f");
        }
        let s = if d == 10 {
            "a"
        } else if d == 11 {
            "b"
        } else if d == 12 {
            "c"
        } else if d == 13 {
            "d"
        } else if d == 14 {
            "e"
        } else {
            "f"
        };
        proof {
            assert(s@ =~= seq![hex_digit_char(d as int)]);
        }
        s
    }
}

/// The value of one decimal digit character, or nothing.
pub open spec fn digit_value(c: char) -> Option<int> {
    if c == '0' {
        Some(0int)
    } else if c == '1' {
        Some(1int)
    } else if c == '2' {
        Some(2int)
    } else if c == '3' {
        Some(3int)
    } else if c == '4' {
        Some(4int)
    } else if c == '5' {
        Some(5int)
    } else if c == '6' {
        Some(6int)
    } else if c == '7' {
        Some(7int)
    } else if c == '8' {
        Some(8int)
    } else if c == '9' {
        Some(9int)
    } else {
        None
    }
}

/// The number a digit string denotes: every character a decimal digit, read
/// most significant first; nothing on an empty string or a stray character.
pub open spec fn dec_value(s: Seq<char>) -> Option<int>
    decreases s.len(),
{
    if s.len() == 0 {
        None
    } else if s.len() == 1 {
        digit_value(s[0])
    } else {
        match (dec_value(s.drop_last()), digit_value(s.last())) {
            (Some(hi), Some(lo)) => Some(hi * 10 + lo),
            _ => None,
        }
    }
}

/// Parse an unsigned decimal number. Fails on an empty string, a stray
/// character, or a value above the 64-bit range.
pub fn parse_u64(s: &str) -> (r: Option<u64>)
    ensures
        (r matches Some(n) ==> dec_value(s@) == Some(n as int)),
        (r is None ==> (dec_value(s@) is None || (dec_value(s@) matches Some(v) && v
            > u64::MAX as int))),
{
    let len = s.unicode_len();
    if len == 0 {
        return None;
    }
    let mut acc: u64 = 0;
    let mut i: usize = 0;
    while i < len
        invariant
            len == s@.len(),
            1 <= len,
            0 <= i <= len,
            i == 0 ==> acc == 0,
            i > 0 ==> dec_value(s@.take(i as int)) == Some(acc as int),
        decreases len - i,
    {
        let c = s.get_char(i);
        let d: u64 = match digit_of_char(c) {
            Some(d) => d,
            None => {
                proof {
                    lemma_dec_value_stray(s@, i as int);
                }
                return None;
            },
        };
        if acc > (u64::MAX - d) / 10 {
            proof {
                assert(s@.take(i + 1).drop_last() =~= s@.take(i as int));
                assert(s@.take(i + 1).last() == s@[i as int]);
                let v2 = (acc as int) * 10 + (d as int);
                assert(dec_value(s@.take(i + 1)) == Some(v2));
                let q = ((u64::MAX - d) / 10) as int;
                assert((u64::MAX - d) as int <= 10 * q + 9);
                assert(10 * (acc as int) >= 10 * (q + 1));
                assert(v2 > u64::MAX as int);
                if i + 1 < s@.len() {
                    lemma_dec_value_grows(s@, i + 1);
                } else {
                    assert(s@.take(i + 1) =~= s@);
                }
            }
            return None;
        }
        proof {
            assert(s@.take(i + 1).drop_last() =~= s@.take(i as int));
            assert(s@.take(i + 1).last() == s@[i as int]);
            if i == 0 {
                assert(s@.take(1).len() == 1);
            }
        }
        acc = acc * 10 + d;
        i += 1;
    }
    proof {
        assert(s@.take(len as int) =~= s@);
    }
    Some(acc)
}

/// The value of one decimal digit character.
fn digit_of_char(c: char) -> (r: Option<u64>)
    ensures
        (r matches Some(d) ==> digit_value(c) == Some(d as int) && d < 10),
        (r is None ==> digit_value(c) is None),
{
    match c {
        '0' => Some(0),
        '1' => Some(1),
        '2' => Some(2),
        '3' => Some(3),
        '4' => Some(4),
        '5' => Some(5),
        '6' => Some(6),
        '7' => Some(7),
        '8' => Some(8),
        '9' => Some(9),
        _ => None,
    }
}

/// A string with a stray character denotes no number.
proof fn lemma_dec_value_stray(s: Seq<char>, i: int)
    requires
        0 <= i < s.len(),
        digit_value(s[i]) is None,
    ensures
        dec_value(s) is None,
    decreases s.len(),
{
    if s.len() > 0 {
        if i == s.len() - 1 {
        } else {
            lemma_dec_value_stray(s.drop_last(), i);
        }
    }
}

/// Appending digits never shrinks the denoted value.
proof fn lemma_dec_value_grows(s: Seq<char>, i: int)
    requires
        0 <= i < s.len(),
        dec_value(s.take(i)) matches Some(v) && v >= 0,
    ensures
        (dec_value(s) matches Some(w) ==> w >= dec_value(s.take(i)).unwrap()),
    decreases s.len() - i,
{
    let v = dec_value(s.take(i)).unwrap();
    if i == s.len() - 1 {
        assert(s.take(s.len() as int) =~= s);
        assert(s.drop_last() =~= s.take(i));
        if dec_value(s) is Some {
            let w = dec_value(s)->0;
            assert(w == v * 10 + digit_value(s.last()).unwrap());
            assert(v * 10 >= v) by (nonlinear_arith)
                requires
                    v >= 0,
            ;
        }
    } else {
        assert(s.take(i + 1).drop_last() =~= s.take(i));
        assert(s.take(i + 1).last() == s[i]);
        if dec_value(s.take(i + 1)) is Some {
            let v2 = dec_value(s.take(i + 1))->0;
            assert(v2 == v * 10 + digit_value(s[i]).unwrap());
            assert(v * 10 >= v) by (nonlinear_arith)
                requires
                    v >= 0,
            ;
            lemma_dec_value_grows(s, i + 1);
        } else {
            assert(digit_value(s.take(i + 1).last()) is None || dec_value(s.take(i + 1).drop_last())
                is None);
            assert(digit_value(s[i]) is None);
            lemma_dec_value_stray(s, i);
        }
    }
}

/// What the standard library's case folding returns for a string: a function
/// of the characters alone.
pub uninterp spec fn lower_of(s: Seq<char>) -> Seq<char>;

/// Relies on str::to_lowercase: the result depends on the characters alone,
/// and an empty string stays empty.
#[verifier::external_body]
pub fn lowercase(s: &str) -> (r: String)
    ensures
        r@ == lower_of(s@),
        s@.len() == 0 ==> r@.len() == 0,
{
    s.to_lowercase()
}

} // verus!
