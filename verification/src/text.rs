use vstd::prelude::*;
use vstd::string::StrSliceExecFns;
use vstd::string::StringExecFns;

verus! {

/// The decimal digit character for `d`, which must lie in 0..=9.
pub open spec fn spec_digit_char(d: int) -> char {
    if d == 0 {
        '0'
    } else if d == 1 {
        '1'
    } else if d == 2 {
        '2'
    } else if d == 3 {
        '3'
    } else if d == 4 {
        '4'
    } else if d == 5 {
        '5'
    } else if d == 6 {
        '6'
    } else if d == 7 {
        '7'
    } else if d == 8 {
        '8'
    } else {
        '9'
    }
}

/// The decimal representation of `n`, most significant digit first, with no
/// leading zeros (a single '0' for zero itself).
pub open spec fn spec_decimal(n: nat) -> Seq<char>
    decreases n,
{
    if n < 10 {
        seq![spec_digit_char(n as int)]
    } else {
        spec_decimal(n / 10) + seq![spec_digit_char((n % 10) as int)]
    }
}

/// The decimal representation of a signed value: a leading '-' when negative.
pub open spec fn spec_decimal_int(n: int) -> Seq<char> {
    if n < 0 {
        seq!['-'] + spec_decimal((-n) as nat)
    } else {
        spec_decimal(n as nat)
    }
}

fn digit_str(d: u64) -> (r: &'static str)
    requires
        d < 10,
    ensures
        r@ == seq![spec_digit_char(d as int)],
{
    let r: &'static str = if d == 0 {
        "0"
    } else if d == 1 {
        "1"
    } else if d == 2 {
        "2"
    } else if d == 3 {
        "3"
    } else if d == 4 {
        "4"
    } else if d == 5 {
        "5"
    } else if d == 6 {
        "6"
    } else if d == 7 {
        "7"
    } else if d == 8 {
        "8"
    } else {
        "9"
    };
    proof {
        reveal_strlit("0");
        reveal_strlit("1");
        reveal_strlit("2");
        reveal_strlit("3");
        reveal_strlit("4");
        reveal_strlit("5");
        reveal_strlit("6");
        reveal_strlit("7");
        reveal_strlit("8");
        reveal_strlit("9");
        assert(r@ =~= seq![spec_digit_char(d as int)]);
    }
    r
}

/// The characters of the digits in `ds`, read back to front: `ds` holds a
/// number's digits least significant first, the result reads them as text.
pub open spec fn rev_digit_chars(ds: Seq<u64>) -> Seq<char> {
    Seq::new(ds.len(), |i: int| spec_digit_char(ds[ds.len() - 1 - i] as int))
}

proof fn lemma_rev_push(ds: Seq<u64>, d: u64)
    ensures
        rev_digit_chars(ds.push(d)) =~= seq![spec_digit_char(d as int)] + rev_digit_chars(ds),
{
    let l = ds.len() as int;
    assert forall|i: int| 0 <= i < l + 1 implies rev_digit_chars(ds.push(d))[i] == (seq![
        spec_digit_char(d as int),
    ] + rev_digit_chars(ds))[i] by {
        if i == 0 {
            assert(ds.push(d)[l] == d);
        } else {
            assert(ds.push(d)[l - i] == ds[l - i]);
        }
    }
}

/// Formats `n` in decimal.
pub fn u64_to_string(n: u64) -> (r: String)
    ensures
        r@ == spec_decimal(n as nat),
{
    let mut digits: Vec<u64> = Vec::new();
    let mut m: u64 = n;
    let d0: u64 = m % 10;
    digits.push(d0);
    m = m / 10;
    while m != 0
        invariant
            forall|k: int| 0 <= k < digits@.len() ==> digits@[k] < 10,
            digits@.len() >= 1,
            (if m == 0 {
                spec_decimal(n as nat) =~= rev_digit_chars(digits@)
            } else {
                spec_decimal(n as nat) =~= spec_decimal(m as nat) + rev_digit_chars(digits@)
            }),
        decreases m,
    {
        let ghost old_digits = digits@;
        let ghost old_m = m as nat;
        let d: u64 = m % 10;
        digits.push(d);
        m = m / 10;
        proof {
            lemma_rev_push(old_digits, d);
            if m == 0 {
                assert(spec_decimal(old_m) =~= seq![spec_digit_char(d as int)]);
                assert(spec_decimal(n as nat) =~= rev_digit_chars(digits@));
            } else {
                assert(spec_decimal(old_m) =~= spec_decimal(m as nat) + seq![
                    spec_digit_char(d as int),
                ]);
                assert(spec_decimal(n as nat) =~= spec_decimal(m as nat) + rev_digit_chars(
                    digits@,
                ));
            }
        }
    }
    let mut r = String::new();
    let mut i: usize = digits.len();
    while i > 0
        invariant
            i <= digits@.len(),
            forall|k: int| 0 <= k < digits@.len() ==> digits@[k] < 10,
            spec_decimal(n as nat) =~= rev_digit_chars(digits@),
            r@ =~= rev_digit_chars(digits@).subrange(0, digits@.len() - i),
        decreases i,
    {
        let idx: usize = i - 1;
        let ds = digit_str(digits[idx]);
        r.append(ds);
        i = idx;
        proof {
            let rev = rev_digit_chars(digits@);
            let l = digits@.len() as int;
            assert(rev[l - 1 - idx] == spec_digit_char(digits@[idx as int] as int));
            assert(rev.subrange(0, l - idx) =~= rev.subrange(0, l - idx - 1) + seq![
                rev[l - idx - 1],
            ]);
            assert(r@ =~= rev.subrange(0, l - idx));
        }
    }
    proof {
        assert(rev_digit_chars(digits@).subrange(0, digits@.len() as int) =~= rev_digit_chars(
            digits@,
        ));
    }
    r
}

/// Formats `n` in decimal, with a leading '-' when negative.
pub fn i32_to_string(n: i32) -> (r: String)
    ensures
        r@ == spec_decimal_int(n as int),
{
    if n >= 0 {
        u64_to_string(n as u64)
    } else {
        let mag: u64 = (-(n as i64)) as u64;
        let mut r = "-".to_owned();
        let digits = u64_to_string(mag);
        r.append(digits.as_str());
        proof {
            reveal_strlit("-");
            assert("-"@ =~= seq!['-']);
        }
        r
    }
}

/// Whether `c` has Unicode's White_Space property, the set of characters that
/// `str::trim` strips.
pub open spec fn spec_is_whitespace(c: char) -> bool {
    c == ' ' || c == '\t' || c == '\n' || c == '\r' || c == '\u{B}' || c == '\u{C}' || c == '\u{85}'
        || c == '\u{A0}' || c == '\u{1680}' || (0x2000 <= c as int && c as int <= 0x200A) || c
        == '\u{2028}' || c == '\u{2029}' || c == '\u{202F}' || c == '\u{205F}' || c == '\u{3000}'
}

fn is_whitespace_char(c: char) -> (r: bool)
    ensures
        r == spec_is_whitespace(c),
{
    c == ' ' || c == '\t' || c == '\n' || c == '\r' || c == '\u{B}' || c == '\u{C}' || c == '\u{85}'
        || c == '\u{A0}' || c == '\u{1680}' || (0x2000 <= c as u32 && c as u32 <= 0x200A) || c
        == '\u{2028}' || c == '\u{2029}' || c == '\u{202F}' || c == '\u{205F}' || c == '\u{3000}'
}

/// Whether `s` holds no visible character at all, i.e. `s.trim()` is empty.
pub open spec fn spec_is_blank(s: Seq<char>) -> bool {
    forall|i: int| 0 <= i < s.len() ==> spec_is_whitespace(s[i])
}

/// True exactly when `s` trims to the empty string.
pub fn is_blank(s: &str) -> (r: bool)
    ensures
        r == spec_is_blank(s@),
{
    let len = s.unicode_len();
    let mut i: usize = 0;
    while i < len
        invariant
            i <= len,
            len == s@.len(),
            forall|j: int| 0 <= j < i ==> spec_is_whitespace(s@[j]),
        decreases len - i,
    {
        let c = s.get_char(i);
        if !is_whitespace_char(c) {
            return false;
        }
        i = i + 1;
    }
    true
}

/// What `String::from_utf8_lossy` returns for the given bytes.
pub uninterp spec fn lossy_text_of(bytes: Seq<u8>) -> Seq<char>;

/// Relies on `String::from_utf8_lossy`: the result is a function of the bytes
/// alone; an empty input gives an empty string; and bytes all below 0x80 are
/// ASCII, hence valid UTF-8, which the documentation promises comes through
/// unchanged.
#[verifier::external_body]
pub(crate) fn bytes_to_text(bytes: &Vec<u8>) -> (r: String)
    ensures
        r@ == lossy_text_of(bytes@),
        bytes@.len() == 0 ==> r@.len() == 0,
        (forall|i: int| 0 <= i < bytes@.len() ==> bytes@[i] < 0x80) ==> r@ == Seq::new(
            bytes@.len(),
            |i: int| bytes@[i] as char,
        ),
{
    String::from_utf8_lossy(bytes.as_slice()).into_owned()
}

} // verus!
