//! Verified text helpers: equality, splitting, trimming and parsing of
//! request parameters.

use vstd::prelude::*;
use vstd::string::*;

verus! {

/// Character-by-character equality of two string slices.
pub fn str_eq(a: &str, b: &str) -> (res: bool)
    ensures
        res == (a@ == b@),
{
    let n = a.unicode_len();
    if n != b.unicode_len() {
        return false;
    }
    let mut i: usize = 0;
    while i < n
        invariant
            n == a@.len(),
            n == b@.len(),
            i <= n,
            forall|j: int| 0 <= j < i ==> a@[j] == b@[j],
        decreases n - i,
    {
        if a.get_char(i) != b.get_char(i) {
            return false;
        }
        i = i + 1;
    }
    assert(a@ =~= b@);
    true
}

/// What `bool::from_str` accepts: exactly `"true"` and `"false"`.
pub open spec fn spec_parse_bool(s: Seq<char>) -> Option<bool> {
    if s == "true"@ {
        Some(true)
    } else if s == "false"@ {
        Some(false)
    } else {
        None
    }
}

/// Parses a boolean the way `str::parse::<bool>().ok()` does.
pub fn parse_bool(s: &str) -> (res: Option<bool>)
    ensures
        res == spec_parse_bool(s@),
{
    if str_eq(s, "true") {
        Some(true)
    } else if str_eq(s, "false") {
        Some(false)
    } else {
        None
    }
}


/// The pieces of `s` between occurrences of `sep`, as `str::split` with a
/// one-character pattern yields them: one more piece than there are
/// separators, empty pieces included.
pub open spec fn split_char(s: Seq<char>, sep: char) -> Seq<Seq<char>>
    decreases s.len(),
{
    if s.len() == 0 {
        seq![Seq::<char>::empty()]
    } else {
        let prev = split_char(s.drop_last(), sep);
        if s.last() == sep {
            prev.push(Seq::<char>::empty())
        } else {
            prev.update(prev.len() - 1, prev.last().push(s.last()))
        }
    }
}

/// Splitting never yields an empty list of pieces.
pub proof fn lemma_split_char_nonempty(s: Seq<char>, sep: char)
    ensures
        split_char(s, sep).len() >= 1,
    decreases s.len(),
{
    if s.len() > 0 {
        lemma_split_char_nonempty(s.drop_last(), sep);
    }
}

/// Splits `s` at every occurrence of `sep`.
pub fn split_on(s: &str, sep: char) -> (res: Vec<String>)
    ensures
        res.deep_view() == split_char(s@, sep),
{
    let n = s.unicode_len();
    let mut pieces: Vec<String> = Vec::new();
    let mut start: usize = 0;
    let mut i: usize = 0;
    proof {
        assert(s@.take(0) =~= Seq::<char>::empty());
        assert(pieces.deep_view().push(s@.subrange(0, 0)) =~= seq![Seq::<char>::empty()]);
    }
    while i < n
        invariant
            n == s@.len(),
            start <= i <= n,
            split_char(s@.take(i as int), sep) == pieces.deep_view().push(
                s@.subrange(start as int, i as int),
            ),
        decreases n - i,
    {
        let c = s.get_char(i);
        let ghost old_pieces = pieces.deep_view();
        let ghost old_vec = pieces@;
        proof {
            assert(s@.take(i + 1).drop_last() =~= s@.take(i as int));
            assert(s@.take(i + 1).last() == c);
            lemma_split_char_nonempty(s@.take(i as int), sep);
        }
        if c == sep {
            let piece = String::from_str(s.substring_char(start, i));
            let ghost piece_view = piece@;
            pieces.push(piece);
            start = i + 1;
            proof {
                assert(pieces@ == old_vec.push(piece));
                assert(pieces.deep_view()[old_vec.len() as int] == piece_view);
                assert(pieces.deep_view() =~= old_pieces.push(piece_view));
                assert(s@.subrange(start as int, i + 1) =~= Seq::<char>::empty());
            }
        } else {
            proof {
                assert(s@.subrange(start as int, i + 1) =~= s@.subrange(start as int, i as int).push(c));
                assert(old_pieces.push(s@.subrange(start as int, i as int)).update(
                    old_pieces.len() as int,
                    s@.subrange(start as int, i + 1),
                ) =~= old_pieces.push(s@.subrange(start as int, i + 1)));
            }
        }
        i = i + 1;
    }
    let last = String::from_str(s.substring_char(start, n));
    let ghost before = pieces.deep_view();
    let ghost before_vec = pieces@;
    let ghost last_view = last@;
    pieces.push(last);
    proof {
        assert(pieces.deep_view()[before_vec.len() as int] == last_view);
        assert(s@.take(n as int) =~= s@);
        assert(pieces.deep_view() =~= before.push(s@.subrange(start as int, n as int)));
    }
    pieces
}

/// The characters with the Unicode `White_Space` property, which
/// `char::is_whitespace` tests: U+0009 to U+000D, U+0020, U+0085, U+00A0,
/// U+1680, U+2000 to U+200A, U+2028, U+2029, U+202F, U+205F and U+3000.
pub open spec fn is_whitespace(c: char) -> bool {
    let v = c as u32;
    ||| 0x09 <= v && v <= 0x0D
    ||| v == 0x20
    ||| v == 0x85
    ||| v == 0xA0
    ||| v == 0x1680
    ||| 0x2000 <= v && v <= 0x200A
    ||| v == 0x2028
    ||| v == 0x2029
    ||| v == 0x202F
    ||| v == 0x205F
    ||| v == 0x3000
}

/// Whether `c` is whitespace.
pub fn char_is_whitespace(c: char) -> (b: bool)
    ensures
        b == is_whitespace(c),
{
    let v = c as u32;
    (0x09 <= v && v <= 0x0D) || v == 0x20 || v == 0x85 || v == 0xA0 || v == 0x1680 || (0x2000
        <= v && v <= 0x200A) || v == 0x2028 || v == 0x2029 || v == 0x202F || v == 0x205F || v
        == 0x3000
}

/// `s` without its leading whitespace.
pub open spec fn trim_start(s: Seq<char>) -> Seq<char>
    decreases s.len(),
{
    if s.len() > 0 && is_whitespace(s[0]) {
        trim_start(s.drop_first())
    } else {
        s
    }
}

/// `s` without its trailing whitespace.
pub open spec fn trim_end(s: Seq<char>) -> Seq<char>
    decreases s.len(),
{
    if s.len() > 0 && is_whitespace(s.last()) {
        trim_end(s.drop_last())
    } else {
        s
    }
}

/// `s` without leading and trailing whitespace, as `str::trim` returns it.
pub open spec fn spec_trim(s: Seq<char>) -> Seq<char> {
    trim_end(trim_start(s))
}

/// Removes leading and trailing whitespace.
pub fn trim(s: &str) -> (res: String)
    ensures
        res@ == spec_trim(s@),
{
    let n = s.unicode_len();
    let mut i: usize = 0;
    proof {
        assert(s@.subrange(0, n as int) =~= s@);
    }
    while i < n
        invariant
            n == s@.len(),
            i <= n,
            trim_start(s@) == trim_start(s@.subrange(i as int, n as int)),
        ensures
            i <= n,
            trim_start(s@) == trim_start(s@.subrange(i as int, n as int)),
            i == n || !is_whitespace(s@[i as int]),
        decreases n - i,
    {
        if !char_is_whitespace(s.get_char(i)) {
            break;
        }
        proof {
            assert(s@.subrange(i as int, n as int).drop_first() =~= s@.subrange(i + 1, n as int));
        }
        i = i + 1;
    }
    proof {
        if i == n {
            assert(s@.subrange(i as int, n as int) =~= Seq::<char>::empty());
        }
    }
    let mut j: usize = n;
    while j > i
        invariant
            n == s@.len(),
            i <= j <= n,
            trim_start(s@) == s@.subrange(i as int, n as int),
            trim_end(s@.subrange(i as int, n as int)) == trim_end(s@.subrange(i as int, j as int)),
        ensures
            i <= j <= n,
            trim_end(s@.subrange(i as int, n as int)) == trim_end(s@.subrange(i as int, j as int)),
            j == i || !is_whitespace(s@[j - 1]),
        decreases j - i,
    {
        if !char_is_whitespace(s.get_char(j - 1)) {
            break;
        }
        proof {
            assert(s@.subrange(i as int, j as int).drop_last() =~= s@.subrange(i as int, j - 1));
        }
        j = j - 1;
    }
    proof {
        if j == i {
            assert(s@.subrange(i as int, j as int) =~= Seq::<char>::empty());
        }
    }
    String::from_str(s.substring_char(i, j))
}

/// What `str::to_lowercase` returns for `s`.
pub uninterp spec fn lowercase(s: Seq<char>) -> Seq<char>;

/// Calls `str::to_lowercase`; the contract names its result `lowercase(s@)`
/// (the Unicode lowercase mapping of the whole string) without stating
/// that mapping.
#[verifier::external_body]
pub(crate) fn str_to_lowercase(s: &str) -> (res: String)
    ensures
        res@ == lowercase(s@),
{
    s.to_lowercase()
}



/// An ASCII decimal digit.
pub open spec fn is_digit(c: char) -> bool {
    '0' <= c && c <= '9'
}

/// The value of an ASCII decimal digit.
pub open spec fn digit_value(c: char) -> int {
    c as int - '0' as int
}

/// Every character of `ds` is a decimal digit.
pub open spec fn all_digits(ds: Seq<char>) -> bool {
    forall|i: int| 0 <= i < ds.len() ==> is_digit(#[trigger] ds[i])
}

/// The number that the decimal digits `ds` denote.
pub open spec fn digits_value(ds: Seq<char>) -> int
    decreases ds.len(),
{
    if ds.len() == 0 {
        0
    } else {
        10 * digits_value(ds.drop_last()) + digit_value(ds.last())
    }
}

/// What `str::parse::<i32>` accepts: an optional `+` or `-`, then one or
/// more decimal digits, denoting a value in the range of `i32`.
pub open spec fn spec_parse_i32(s: Seq<char>) -> Option<i32> {
    let signed = s.len() > 0 && (s[0] == '-' || s[0] == '+');
    let ds = if signed {
        s.drop_first()
    } else {
        s
    };
    let v = if s.len() > 0 && s[0] == '-' {
        -digits_value(ds)
    } else {
        digits_value(ds)
    };
    if ds.len() == 0 || !all_digits(ds) {
        None
    } else if v < i32::MIN || v > i32::MAX {
        None
    } else {
        Some(v as i32)
    }
}

/// A longer run of digits never denotes a smaller number than its prefix.
proof fn lemma_digits_value_prefix(ds: Seq<char>, k: int)
    requires
        all_digits(ds),
        0 <= k <= ds.len(),
    ensures
        0 <= digits_value(ds.take(k)) <= digits_value(ds),
    decreases ds.len(),
{
    if ds.len() > 0 {
        assert(all_digits(ds.drop_last())) by {
            assert forall|i: int| 0 <= i < ds.drop_last().len() implies is_digit(
                #[trigger] ds.drop_last()[i],
            ) by {
                assert(ds.drop_last()[i] == ds[i]);
            }
        }
        assert(is_digit(ds[ds.len() - 1]));
        if k == ds.len() {
            assert(ds.take(k) =~= ds);
            lemma_digits_value_prefix(ds.drop_last(), k - 1);
        } else {
            assert(ds.drop_last().take(k) =~= ds.take(k));
            lemma_digits_value_prefix(ds.drop_last(), k);
            lemma_digits_value_prefix(ds.drop_last(), ds.len() - 1);
        }
    }
}

/// Parses a decimal `i32` the way `str::parse::<i32>().ok()` does.
pub fn parse_i32(s: &str) -> (res: Option<i32>)
    ensures
        res == spec_parse_i32(s@),
{
    let n = s.unicode_len();
    let mut start: usize = 0;
    let mut negative = false;
    if n > 0 {
        let c = s.get_char(0);
        if c == '-' {
            negative = true;
            start = 1;
        } else if c == '+' {
            start = 1;
        }
    }
    let ds = s.substring_char(start, n);
    proof {
        if start == 1 {
            assert(ds@ =~= s@.drop_first());
        } else {
            assert(ds@ =~= s@);
        }
    }
    let m = ds.unicode_len();
    if m == 0 {
        return None;
    }
    let mut acc: i64 = 0;
    let mut i: usize = 0;
    proof {
        assert(ds@.take(0) =~= Seq::<char>::empty());
    }
    while i < m
        invariant
            m == ds@.len(),
            i <= m,
            0 <= acc <= 2147483648,
            acc == digits_value(ds@.take(i as int)),
            forall|j: int| 0 <= j < i ==> is_digit(#[trigger] ds@[j]),
            ds@ == (if s@.len() > 0 && (s@[0] == '-' || s@[0] == '+') {
                s@.drop_first()
            } else {
                s@
            }),
            negative == (s@.len() > 0 && s@[0] == '-'),
        decreases m - i,
    {
        let c = ds.get_char(i);
        if !('0' <= c && c <= '9') {
            assert(!is_digit(ds@[i as int]));
            assert(!all_digits(ds@));
            return None;
        }
        let d = (c as u32 - '0' as u32) as i64;
        proof {
            assert(ds@.take(i + 1).drop_last() =~= ds@.take(i as int));
            assert(ds@.take(i + 1).last() == c);
        }
        acc = acc * 10 + d;
        if acc > 2147483648 {
            proof {
                if all_digits(ds@) {
                    lemma_digits_value_prefix(ds@, i + 1);
                }
            }
            return None;
        }
        i = i + 1;
    }
    proof {
        assert(ds@.take(m as int) =~= ds@);
        assert(all_digits(ds@));
    }
    if negative {
        let v = -acc;
        Some(v as i32)
    } else if acc > 2147483647 {
        None
    } else {
        Some(acc as i32)
    }
}

} // verus!
