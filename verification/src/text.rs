use vstd::prelude::*;
use vstd::string::StrSliceExecFns;

verus! {

/// Whether two strings hold the same characters.
pub fn same_text(a: &str, b: &str) -> (res: bool)
    ensures
        res == (a@ == b@),
{
    let n = a.unicode_len();
    let m = b.unicode_len();
    if n != m {
        return false;
    }
    let mut i: usize = 0;
    while i < n
        invariant
            n == a@.len(),
            m == b@.len(),
            n == m,
            i <= n,
            forall|j: int| 0 <= j < i ==> a@[j] == b@[j],
        decreases n - i,
    {
        if a.get_char(i) != b.get_char(i) {
            return false;
        }
        i = i + 1;
    }
    assert(a@ =~= b@);
    true
}


/// Whether a character is an ASCII decimal digit.
pub open spec fn is_digit(c: char) -> bool {
    '0' <= c && c <= '9'
}

/// The number that a run of decimal digits writes.
pub open spec fn digits_value(d: Seq<char>) -> int
    decreases d.len(),
{
    if d.len() == 0 {
        0
    } else {
        digits_value(d.drop_last()) * 10 + (d.last() as int - '0' as int)
    }
}

/// Whether every character of a text is a decimal digit.
pub open spec fn all_digits(b: Seq<char>) -> bool {
    forall|i: int| 0 <= i < b.len() ==> is_digit(#[trigger] b[i])
}

/// Whether a text starts with a `-` that `FromStr` of an integer type reads
/// as a sign (of a signed type only).
pub open spec fn negative_sign(s: Seq<char>, signed: bool) -> bool {
    signed && s.len() > 0 && s[0] == '-'
}

/// A text without the sign that `FromStr` of an integer type reads.
pub open spec fn unsigned_part(s: Seq<char>, signed: bool) -> Seq<char> {
    if s.len() > 0 && (s[0] == '+' || negative_sign(s, signed)) {
        s.drop_first()
    } else {
        s
    }
}

/// The integer that a text writes in the form that `FromStr` of Rust's
/// integer types reads: an optional `+` sign (or `-`, for a signed type)
/// followed by one or more decimal digits and nothing else.
pub open spec fn integer_text(s: Seq<char>, signed: bool) -> Option<int> {
    let body = unsigned_part(s, signed);
    if body.len() > 0 && all_digits(body) {
        Some(
            if negative_sign(s, signed) {
                -digits_value(body)
            } else {
                digits_value(body)
            },
        )
    } else {
        None
    }
}

/// The integer that a text writes, where it lies within `lo ..= hi`.
pub open spec fn integer_in_range(s: Seq<char>, signed: bool, lo: int, hi: int) -> Option<int> {
    match integer_text(s, signed) {
        Some(v) => if lo <= v && v <= hi {
            Some(v)
        } else {
            None
        },
        None => None,
    }
}


/// The characters of an optional string.
pub open spec fn opt_text(o: Option<String>) -> Option<Seq<char>> {
    match o {
        Some(s) => Some(s@),
        None => None,
    }
}

/// Copies an optional string.
pub fn copy_opt_text(o: &Option<String>) -> (res: Option<String>)
    ensures
        opt_text(res) == opt_text(*o),
{
    match o {
        Some(s) => Some(s.clone()),
        None => None,
    }
}

/// Whether a character is an ASCII decimal digit.
pub fn is_digit_char(c: char) -> (res: bool)
    ensures
        res == is_digit(c),
{
    '0' <= c && c <= '9'
}

/// The text of a string with its ASCII letters in uppercase, as
/// `str::to_ascii_uppercase` of std gives it.
pub open spec fn ascii_uppercase(s: Seq<char>) -> Seq<char> {
    s.map_values(|c: char| if 'a' <= c && c <= 'z' { ((c as u32) - 32) as char } else { c })
}

/// The text of a string with its ASCII letters in lowercase, as
/// `str::to_ascii_lowercase` of std gives it.
pub open spec fn ascii_lowercase(s: Seq<char>) -> Seq<char> {
    s.map_values(|c: char| if 'A' <= c && c <= 'Z' { ((c as u32) + 32) as char } else { c })
}

/// Uppercasing the ASCII letters of a text keeps it ASCII and gives what it
/// gives the text's ASCII uppercase and lowercase forms: the uppercase form
/// of a text does not depend on the letter case of the text.
pub proof fn lemma_ascii_uppercase_ignores_case(s: Seq<char>)
    requires
        vstd::utf8::is_ascii_chars(s),
    ensures
        vstd::utf8::is_ascii_chars(ascii_uppercase(s)),
        vstd::utf8::is_ascii_chars(ascii_lowercase(s)),
        ascii_uppercase(ascii_uppercase(s)) == ascii_uppercase(s),
        ascii_uppercase(ascii_lowercase(s)) == ascii_uppercase(s),
{
    assert forall|i: int| 0 <= i < s.len() implies '\0' <= #[trigger] ascii_uppercase(s)[i] <= '\u{7f}'
        && ascii_uppercase(ascii_uppercase(s))[i] == ascii_uppercase(s)[i] by {
        let c = s[i];
        assert('\0' <= c <= '\u{7f}');
        if 'a' <= c && c <= 'z' {
            assert(('A' as u32) <= (c as u32) - 32 <= ('Z' as u32));
        }
    }
    assert forall|i: int| 0 <= i < s.len() implies '\0' <= #[trigger] ascii_lowercase(s)[i] <= '\u{7f}'
        && ascii_uppercase(ascii_lowercase(s))[i] == ascii_uppercase(s)[i] by {
        let c = s[i];
        assert('\0' <= c <= '\u{7f}');
        if 'A' <= c && c <= 'Z' {
            assert(('a' as u32) <= (c as u32) + 32 <= ('z' as u32));
        }
    }
    assert(ascii_uppercase(ascii_uppercase(s)) =~= ascii_uppercase(s));
    assert(ascii_uppercase(ascii_lowercase(s)) =~= ascii_uppercase(s));
}

} // verus!
