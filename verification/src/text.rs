//! Small verified string-building helpers: decimal rendering of chunk
//! sequence numbers and filename sanitisation, together with the spec-level
//! sequences they produce.

use vstd::prelude::*;

verus! {

/// The character for a single decimal digit value.
pub open spec fn digit_char(d: nat) -> char {
    if d == 0 {
        '0'
    } else if d == 1 {
        '1'
    } else if d == 2 {
        '2'
    } else if d == 3 {
        '3'
    } else if d == 4 {
        '4'
    } else if d == 5 {
        '5'
    } else if d == 6 {
        '6'
    } else if d == 7 {
        '7'
    } else if d == 8 {
        '8'
    } else {
        '9'
    }
}

/// The usual base-10 rendering of `n`, most significant digit first,
/// with no leading zeros (except for `n == 0` itself).
pub open spec fn decimal_digits(n: nat) -> Seq<char>
    decreases n,
{
    if n < 10 {
        seq![digit_char(n)]
    } else {
        decimal_digits(n / 10).push(digit_char(n % 10))
    }
}

/// A decimal rendering is never empty and consists of digit characters
/// only; in particular it contains no underscore, which is what makes the
/// `<digits>_<name>` chunk-naming convention reversible.
pub proof fn lemma_decimal_digits_shape(n: nat)
    ensures
        decimal_digits(n).len() >= 1,
        forall|i: int|
            0 <= i < decimal_digits(n).len() ==> ('0'
                <= #[trigger] decimal_digits(n)[i] <= '9'),
    decreases n,
{
    if n >= 10 {
        lemma_decimal_digits_shape(n / 10);
    }
}

/// Two distinct numbers never share a decimal rendering.
pub proof fn lemma_decimal_digits_injective(m: nat, n: nat)
    requires
        decimal_digits(m) == decimal_digits(n),
    ensures
        m == n,
    decreases m + n,
{
    lemma_decimal_digits_shape(m);
    lemma_decimal_digits_shape(n);
    if m < 10 && n < 10 {
        assert(decimal_digits(m)[0] == digit_char(m));
        assert(decimal_digits(n)[0] == digit_char(n));
    } else if m < 10 {
        lemma_decimal_digits_shape(n / 10);
        assert(decimal_digits(n).len() >= 2);
    } else if n < 10 {
        lemma_decimal_digits_shape(m / 10);
        assert(decimal_digits(m).len() >= 2);
    } else {
        let dm = decimal_digits(m / 10);
        let dn = decimal_digits(n / 10);
        assert(decimal_digits(m).drop_last() =~= dm);
        assert(decimal_digits(n).drop_last() =~= dn);
        lemma_decimal_digits_injective(m / 10, n / 10);
        assert(decimal_digits(m) == dm.push(digit_char(m % 10)));
        assert(decimal_digits(n) == dn.push(digit_char(n % 10)));
        assert(dm.push(digit_char(m % 10)).last() == digit_char(m % 10));
        assert(dn.push(digit_char(n % 10)).last() == digit_char(n % 10));
        assert(digit_char(m % 10) == digit_char(n % 10));
        assert(m % 10 == n % 10);
        vstd::arithmetic::div_mod::lemma_fundamental_div_mod(m as int, 10);
        vstd::arithmetic::div_mod::lemma_fundamental_div_mod(n as int, 10);
    }
}

/// A filename with the characters that would be read as path separators
/// replaced by underscores.
pub open spec fn sanitized(s: Seq<char>) -> Seq<char> {
    s.map_values(
        |c: char|
            if c == '/' || c == '\\' {
                '_'
            } else {
                c
            },
    )
}

/// The filename given to a downloaded track: `<performer> - <title>.mp3`,
/// or `<title>.mp3` when no performer is known, with path separators
/// replaced so the name cannot escape its directory.
pub open spec fn file_name_spec(performer: Seq<char>, title: Seq<char>) -> Seq<char> {
    if performer.len() == 0 {
        sanitized(title) + ".mp3"@
    } else {
        sanitized(performer + " - "@ + title + ".mp3"@)
    }
}

/// Relies on std's String::push: appends the given character to the string.
#[verifier::external_body]
pub(crate) fn push_char(s: &mut String, c: char)
    ensures
        final(s)@ == old(s)@.push(c),
{
    s.push(c);
}

fn digit_to_char(d: u64) -> (c: char)
    requires
        d < 10,
    ensures
        c == digit_char(d as nat),
{
    match d {
        0 => '0',
        1 => '1',
        2 => '2',
        3 => '3',
        4 => '4',
        5 => '5',
        6 => '6',
        7 => '7',
        8 => '8',
        _ => '9',
    }
}

/// Renders `n` in decimal, exactly as `decimal_digits` describes.
pub fn u64_to_decimal(n: u64) -> (s: String)
    ensures
        s@ == decimal_digits(n as nat),
    decreases n,
{
    if n < 10 {
        let mut s = String::new();
        let c = digit_to_char(n);
        push_char(&mut s, c);
        proof {
            assert(s@ =~= seq![digit_char(n as nat)]);
        }
        s
    } else {
        let mut s = u64_to_decimal(n / 10);
        let c = digit_to_char(n % 10);
        push_char(&mut s, c);
        s
    }
}

/// Replaces every path separator in `s` with an underscore, exactly as
/// `sanitized` describes.
pub fn sanitize_filename(s: &str) -> (r: String)
    ensures
        r@ == sanitized(s@),
{
    let n = s.unicode_len();
    let mut r = String::new();
    let mut i: usize = 0;
    while i < n
        invariant
            i <= n,
            n == s@.len(),
            r@.len() == i,
            forall|j: int|
                0 <= j < i ==> r@[j] == (if s@[j] == '/' || s@[j] == '\\' {
                    '_'
                } else {
                    s@[j]
                }),
        decreases n - i,
    {
        let c = s.get_char(i);
        let mapped: char = if c == '/' || c == '\\' {
            '_'
        } else {
            c
        };
        push_char(&mut r, mapped);
        i = i + 1;
    }
    proof {
        assert(r@ =~= sanitized(s@));
    }
    r
}

/// Builds the download filename that `file_name_spec` describes.
pub fn build_file_name(performer: &str, title: &str) -> (r: String)
    ensures
        r@ == file_name_spec(performer@, title@),
{
    if performer.is_empty() {
        let s = sanitize_filename(title);
        s.concat(".mp3")
    } else {
        let mut full = String::from_str(performer);
        full.append(" - ");
        full.append(title);
        full.append(".mp3");
        proof {
            assert(full@ =~= performer@ + " - "@ + title@ + ".mp3"@);
        }
        sanitize_filename(full.as_str())
    }
}

} // verus!
