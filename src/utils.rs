//! Byte utilities: C-string extraction, hex encoding and decoding, and the
//! four-part version ordering.

use std::string::FromUtf8Error;
use vstd::prelude::*;
use vstd::string::*;
use vstd::slice::*;
use vstd::utf8::*;

verus! {

#[verifier::external_type_specification]
#[verifier::external_body]
pub struct ExFromUtf8Error(FromUtf8Error);

/// Relies on `String::from_utf8`: it succeeds exactly on valid UTF-8 and then
/// holds the decoded characters.
#[verifier::external_body]
pub(crate) fn string_from_utf8(v: Vec<u8>) -> (r: Result<String, FromUtf8Error>)
    ensures
        r is Ok <==> valid_utf8(v@),
        r matches Ok(s) ==> s@ == decode_utf8(v@),
{
    String::from_utf8(v)
}

/// Position of the first zero byte at or after `i`, or the length when there is none.
pub open spec fn first_nul_from(b: Seq<u8>, i: int) -> int
    decreases b.len() - i,
{
    if i < 0 || i >= b.len() {
        b.len() as int
    } else if b[i] == 0 {
        i
    } else {
        first_nul_from(b, i + 1)
    }
}

/// The bytes before the first zero byte (all of them when there is none).
pub open spec fn nul_terminated(b: Seq<u8>) -> Seq<u8> {
    b.subrange(0, first_nul_from(b, 0))
}

proof fn lemma_first_nul_bounds(b: Seq<u8>, i: int)
    requires
        0 <= i <= b.len(),
    ensures
        i <= first_nul_from(b, i) <= b.len(),
    decreases b.len() - i,
{
    if i < b.len() && b[i] != 0 {
        lemma_first_nul_bounds(b, i + 1);
    }
}

/// The text before the first zero byte of `bytes`, decoded as UTF-8.
pub fn byte_array_to_string(bytes: &[u8]) -> (r: Result<String, FromUtf8Error>)
    ensures
        r is Ok <==> valid_utf8(nul_terminated(bytes@)),
        r matches Ok(s) ==> s@ == decode_utf8(nul_terminated(bytes@)),
{
    let mut i: usize = 0;
    while i < bytes.len() && bytes[i] != 0
        invariant
            0 <= i <= bytes@.len(),
            first_nul_from(bytes@, 0) == first_nul_from(bytes@, i as int),
        decreases bytes@.len() - i,
    {
        i = i + 1;
    }
    proof {
        lemma_first_nul_bounds(bytes@, 0);
    }
    let v = slice_to_vec(slice_subrange(bytes, 0, i));
    string_from_utf8(v)
}

/// Why a hex string could not be decoded.
#[derive(Debug, Clone, Copy, PartialEq, Eq, Structural)]
pub enum HexError {
    /// The string has an odd number of bytes.
    OddLength,
    /// The byte at this position is not a hex digit.
    InvalidDigit(usize),
}

pub open spec fn is_hex_digit(c: u8) -> bool {
    (48 <= c <= 57) || (65 <= c <= 70) || (97 <= c <= 102)
}

pub open spec fn hex_digit_value(c: u8) -> u8 {
    if 48 <= c <= 57 {
        (c - 48) as u8
    } else if 65 <= c <= 70 {
        (c - 55) as u8
    } else {
        (c - 87) as u8
    }
}

/// Whether every byte of `s` is a hex digit.
pub open spec fn all_hex_digits(s: Seq<u8>) -> bool {
    forall|i: int| 0 <= i < s.len() ==> is_hex_digit(#[trigger] s[i])
}

/// The bytes that an even-length string of hex digits stands for.
pub open spec fn hex_decoded(s: Seq<u8>) -> Seq<u8> {
    Seq::new(
        (s.len() / 2) as nat,
        |i: int| (16 * hex_digit_value(s[2 * i]) + hex_digit_value(s[2 * i + 1])) as u8,
    )
}

fn hex_digit(c: u8) -> (r: Option<u8>)
    ensures
        r is Some <==> is_hex_digit(c),
        r matches Some(v) ==> v == hex_digit_value(c) && v < 16,
{
    if 48 <= c && c <= 57 {
        Some(c - 48)
    } else if 65 <= c && c <= 70 {
        Some(c - 55)
    } else if 97 <= c && c <= 102 {
        Some(c - 87)
    } else {
        None
    }
}

/// Decodes a string of hex digit pairs into bytes, either case accepted.
pub fn decode_hex(s: &str) -> (r: Result<Vec<u8>, HexError>)
    ensures
        r is Ok <==> s.spec_bytes().len() % 2 == 0 && all_hex_digits(s.spec_bytes()),
        r matches Ok(v) ==> v@ == hex_decoded(s.spec_bytes()),
        r == Err::<Vec<u8>, HexError>(HexError::OddLength) <==> s.spec_bytes().len() % 2 == 1,
{
    let b = s.as_bytes();
    if b.len() % 2 == 1 {
        return Err(HexError::OddLength);
    }
    let mut out: Vec<u8> = Vec::new();
    let mut i: usize = 0;
    while i < b.len()
        invariant
            b@ == s.spec_bytes(),
            b@.len() % 2 == 0,
            i % 2 == 0,
            0 <= i <= b@.len(),
            out@.len() == i / 2,
            forall|j: int| 0 <= j < i ==> is_hex_digit(#[trigger] b@[j]),
            forall|k: int|
                0 <= k < i / 2 ==> #[trigger] out@[k] == hex_decoded(b@)[k],
        decreases b@.len() - i,
    {
        let hi = match hex_digit(b[i]) {
            Some(v) => v,
            None => {
                return Err(HexError::InvalidDigit(i));
            },
        };
        let lo = match hex_digit(b[i + 1]) {
            Some(v) => v,
            None => {
                return Err(HexError::InvalidDigit(i + 1));
            },
        };
        out.push(16 * hi + lo);
        i = i + 2;
    }
    assert(out@ =~= hex_decoded(b@));
    Ok(out)
}

/// The hex digit for a value below 16, upper case when `upper`.
pub open spec fn hex_char(n: int, upper: bool) -> char {
    if n < 10 {
        (48 + n) as char
    } else if upper {
        (55 + n) as char
    } else {
        (87 + n) as char
    }
}

/// Two hex digits per byte, high nibble first.
pub open spec fn hex_string(b: Seq<u8>, upper: bool) -> Seq<char>
    decreases b.len(),
{
    if b.len() == 0 {
        Seq::empty()
    } else {
        hex_string(b.drop_last(), upper) + seq![
            hex_char(b.last() as int / 16, upper),
            hex_char(b.last() as int % 16, upper),
        ]
    }
}

proof fn lemma_hex_string_len(b: Seq<u8>, upper: bool)
    ensures
        hex_string(b, upper).len() == 2 * b.len(),
    decreases b.len(),
{
    if b.len() > 0 {
        lemma_hex_string_len(b.drop_last(), upper);
    }
}

fn hex_digit_str(n: u8, upper: bool) -> (r: &'static str)
    requires
        n < 16,
    ensures
        r@ == seq![hex_char(n as int, upper)],
{
    let digits = if upper {
        "0123456789ABCDEF"
    } else {
        "0123456789abcdef"
    };
    proof {
        reveal_strlit("0123456789ABCDEF");
        reveal_strlit("0123456789abcdef");
    }
    assert(digits.is_ascii());
    let r = digits.substring_ascii(n as usize, n as usize + 1);
    assert(r@ =~= seq![hex_char(n as int, upper)]);
    r
}

fn hex_encode(digest: &[u8], upper: bool) -> (s: String)
    ensures
        s@ == hex_string(digest@, upper),
        s@.len() == 2 * digest@.len(),
{
    let mut s = String::from_str("");
    proof {
        reveal_strlit("");
    }
    let mut i: usize = 0;
    while i < digest.len()
        invariant
            0 <= i <= digest@.len(),
            s@ == hex_string(digest@.subrange(0, i as int), upper),
        decreases digest@.len() - i,
    {
        let byte = digest[i];
        s.append(hex_digit_str(byte / 16, upper));
        s.append(hex_digit_str(byte % 16, upper));
        proof {
            let p = digest@.subrange(0, i + 1);
            assert(p.drop_last() =~= digest@.subrange(0, i as int));
        }
        i = i + 1;
    }
    assert(digest@.subrange(0, digest@.len() as int) =~= digest@);
    proof {
        lemma_hex_string_len(digest@, upper);
    }
    s
}

/// Upper-case hex of a digest, two characters per byte.
pub fn md5_to_string(digest: &[u8]) -> (s: String)
    ensures
        s@ == hex_string(digest@, true),
        s@.len() == 2 * digest@.len(),
{
    hex_encode(digest, true)
}

/// Lower-case hex of a digest, two characters per byte.
pub fn md5_to_string_lower(digest: &[u8]) -> (s: String)
    ensures
        s@ == hex_string(digest@, false),
        s@.len() == 2 * digest@.len(),
{
    hex_encode(digest, false)
}


/// First position at or after `p` that holds a `.`, or the length.
pub open spec fn part_end(b: Seq<u8>, p: int) -> int
    decreases b.len() - p,
{
    if p < 0 || p >= b.len() {
        b.len() as int
    } else if b[p] == 46 {
        p
    } else {
        part_end(b, p + 1)
    }
}

/// The decimal value of the digits in `b[p..e]`.
pub open spec fn digits_value(b: Seq<u8>, p: int, e: int) -> int
    decreases e - p,
{
    if e <= p {
        0
    } else {
        10 * digits_value(b, p, e - 1) + (b[e - 1] - 48)
    }
}

/// `b[p..e]` is a non-empty run of decimal digits whose value fits in an `i32`.
pub open spec fn part_ok(b: Seq<u8>, p: int, e: int) -> bool {
    &&& 0 <= p < e <= b.len()
    &&& forall|i: int| p <= i < e ==> 48 <= #[trigger] b[i] <= 57
    &&& digits_value(b, p, e) <= i32::MAX
}

/// The (major, minor, build, revision) numbers at the front of a dotted
/// version string; `None` when there are fewer than four parts or one of them
/// is not a decimal number.
pub open spec fn version_tuple(b: Seq<u8>) -> Option<(int, int, int, int)> {
    let e0 = part_end(b, 0);
    let e1 = part_end(b, e0 + 1);
    let e2 = part_end(b, e1 + 1);
    let e3 = part_end(b, e2 + 1);
    if part_ok(b, 0, e0) && e0 < b.len() && part_ok(b, e0 + 1, e1) && e1 < b.len() && part_ok(
        b,
        e1 + 1,
        e2,
    ) && e2 < b.len() && part_ok(b, e2 + 1, e3) {
        Some(
            (
                digits_value(b, 0, e0),
                digits_value(b, e0 + 1, e1),
                digits_value(b, e1 + 1, e2),
                digits_value(b, e2 + 1, e3),
            ),
        )
    } else {
        None
    }
}

/// Lexicographic "strictly greater" on version tuples.
pub open spec fn tuple_gt(a: (int, int, int, int), b: (int, int, int, int)) -> bool {
    a.0 > b.0 || (a.0 == b.0 && (a.1 > b.1 || (a.1 == b.1 && (a.2 > b.2 || (a.2 == b.2
        && a.3 > b.3)))))
}

/// How two version strings compare: by their (major, minor, build,
/// revision) tuples, lexicographically; `None` unless both hold four numbers.
pub open spec fn version_cmp(a: Seq<char>, b: Seq<char>) -> Option<std::cmp::Ordering> {
    match (version_tuple(encode_utf8(a)), version_tuple(encode_utf8(b))) {
        (Some(ta), Some(tb)) => if ta == tb {
            Some(std::cmp::Ordering::Equal)
        } else if tuple_gt(ta, tb) {
            Some(std::cmp::Ordering::Greater)
        } else {
            Some(std::cmp::Ordering::Less)
        },
        _ => None,
    }
}

proof fn lemma_part_end_bounds(b: Seq<u8>, p: int)
    requires
        0 <= p,
    ensures
        p <= b.len() ==> p <= part_end(b, p) <= b.len(),
        part_end(b, p) < b.len() ==> b[part_end(b, p)] == 46,
    decreases b.len() - p,
{
    if p < b.len() && b[p] != 46 {
        lemma_part_end_bounds(b, p + 1);
    }
}

/// Reads the decimal number that starts at `p` and runs to the next `.` or
/// the end; returns it with its end position.
fn parse_part(b: &[u8], p: usize) -> (r: Option<(i32, usize)>)
    requires
        p <= b@.len(),
    ensures
        r is Some <==> part_ok(b@, p as int, part_end(b@, p as int)),
        r matches Some((v, e)) ==> e == part_end(b@, p as int) && v == digits_value(
            b@,
            p as int,
            e as int,
        ),
{
    let mut i: usize = p;
    let mut v: i32 = 0;
    let mut digits = true;
    proof {
        lemma_part_end_bounds(b@, p as int);
    }
    while i < b.len() && b[i] != 46
        invariant
            p <= i <= b@.len(),
            part_end(b@, p as int) == part_end(b@, i as int),
            digits ==> (forall|j: int| p <= j < i ==> 48 <= #[trigger] b@[j] <= 57),
            digits ==> v == digits_value(b@, p as int, i as int),
            v >= 0,
            !digits ==> !part_ok(b@, p as int, part_end(b@, p as int)),
            i <= part_end(b@, i as int) <= b@.len(),
        decreases b@.len() - i,
    {
        proof {
            lemma_part_end_bounds(b@, i as int + 1);
        }
        let c = b[i];
        if digits {
            if c < 48 || c > 57 {
                digits = false;
            } else {
                let d = (c - 48) as i32;
                if v > (i32::MAX - d) / 10 {
                    proof {
                        assert(digits_value(b@, p as int, i + 1) > i32::MAX) by (nonlinear_arith)
                            requires
                                digits_value(b@, p as int, i + 1) == 10 * v + d,
                                v > (i32::MAX - d) / 10,
                                0 <= d <= 9,
                        ;
                        let e = part_end(b@, p as int);
                        if part_ok(b@, p as int, e) {
                            lemma_digits_monotone(b@, p as int, i + 1, e);
                        }
                    }
                    digits = false;
                } else {
                    assert(10 * v + d <= i32::MAX) by (nonlinear_arith)
                        requires
                            0 <= v <= (i32::MAX - d) / 10,
                            0 <= d <= 9,
                    ;
                    v = 10 * v + d;
                }
            }
        }
        i = i + 1;
    }
    if digits && i > p {
        Some((v, i))
    } else {
        None
    }
}

proof fn lemma_digits_monotone(b: Seq<u8>, p: int, i: int, e: int)
    requires
        p <= i <= e <= b.len(),
        forall|j: int| p <= j < e ==> 48 <= #[trigger] b[j] <= 57,
    ensures
        digits_value(b, p, i) <= digits_value(b, p, e),
    decreases e - i,
{
    if i < e {
        lemma_digits_monotone(b, p, i, e - 1);
        lemma_digits_nonneg(b, p, e - 1);
    }
}

proof fn lemma_digits_nonneg(b: Seq<u8>, p: int, e: int)
    requires
        p <= e <= b.len(),
        forall|j: int| p <= j < e ==> 48 <= #[trigger] b[j] <= 57,
    ensures
        digits_value(b, p, e) >= 0,
    decreases e - p,
{
    if p < e {
        lemma_digits_nonneg(b, p, e - 1);
    }
}

/// Reads the four numbers at the front of a dotted version string.
fn parse_version(b: &[u8]) -> (r: Option<(i32, i32, i32, i32)>)
    ensures
        r is Some <==> version_tuple(b@) is Some,
        r matches Some(t) ==> version_tuple(b@) == Some(
            (t.0 as int, t.1 as int, t.2 as int, t.3 as int),
        ),
{
    proof {
        lemma_part_end_bounds(b@, 0);
    }
    let (major, e0) = parse_part(b, 0)?;
    if e0 >= b.len() {
        return None;
    }
    proof {
        lemma_part_end_bounds(b@, e0 + 1);
    }
    let (minor, e1) = parse_part(b, e0 + 1)?;
    if e1 >= b.len() {
        return None;
    }
    proof {
        lemma_part_end_bounds(b@, e1 + 1);
    }
    let (build, e2) = parse_part(b, e1 + 1)?;
    if e2 >= b.len() {
        return None;
    }
    proof {
        lemma_part_end_bounds(b@, e2 + 1);
    }
    let (rev, _e3) = parse_part(b, e2 + 1)?;
    Some((major, minor, build, rev))
}

/// A dotted four-part version string such as `0.6.9.1`.
pub struct Version {
    pub s: String,
}

impl Version {
    pub fn new(s: &str) -> (r: Self)
        ensures
            r.s@ == s@,
    {
        Version { s: String::from_str(s) }
    }
}

/// Two versions are equal when their strings are, or when they compare equal.
pub open spec fn version_eq(a: Seq<char>, b: Seq<char>) -> bool {
    a == b || version_cmp(a, b) == Some(std::cmp::Ordering::Equal)
}

impl PartialEq for Version {
    fn eq(&self, other: &Self) -> (r: bool)
        ensures
            r == version_eq(self.s@, other.s@),
    {
        if self.s == other.s {
            return true;
        }
        match self.partial_cmp(other) {
            Some(std::cmp::Ordering::Equal) => true,
            _ => false,
        }
    }
}

impl vstd::std_specs::cmp::PartialEqSpecImpl for Version {
    open spec fn obeys_eq_spec() -> bool {
        true
    }

    open spec fn eq_spec(&self, other: &Version) -> bool {
        version_eq(self.s@, other.s@)
    }
}

impl PartialOrd for Version {
    fn partial_cmp(&self, other: &Self) -> (r: Option<std::cmp::Ordering>)
        ensures
            r == version_cmp(self.s@, other.s@),
    {
        let a = self.s.as_str().as_bytes();
        let b = other.s.as_str().as_bytes();
        let (major, minor, build, rev) = parse_version(a)?;
        let (omajor, ominor, obuild, orev) = parse_version(b)?;
        let is_greater = major > omajor || (major == omajor && (minor > ominor || (minor
            == ominor && (build > obuild || (build == obuild && rev > orev)))));
        if major == omajor && minor == ominor && build == obuild && rev == orev {
            return Some(std::cmp::Ordering::Equal);
        }
        if is_greater {
            return Some(std::cmp::Ordering::Greater);
        }
        Some(std::cmp::Ordering::Less)
    }
}

impl vstd::std_specs::cmp::PartialOrdSpecImpl for Version {
    open spec fn obeys_partial_cmp_spec() -> bool {
        true
    }

    open spec fn partial_cmp_spec(&self, other: &Version) -> Option<std::cmp::Ordering> {
        version_cmp(self.s@, other.s@)
    }
}

/// A version compares equal to itself once its string holds four numbers.
pub proof fn lemma_version_reflexive(v: Seq<char>)
    requires
        version_tuple(encode_utf8(v)) is Some,
    ensures
        version_cmp(v, v) == Some(std::cmp::Ordering::Equal),
{
}

/// Every version is equal to itself.
pub proof fn lemma_version_eq_reflexive(v: Seq<char>)
    ensures
        version_eq(v, v),
{
}

/// "Equal" is symmetric and transitive.
pub proof fn lemma_version_equal_equivalence(a: Seq<char>, b: Seq<char>, c: Seq<char>)
    ensures
        version_cmp(a, b) == Some(std::cmp::Ordering::Equal) ==> version_cmp(b, a) == Some(
            std::cmp::Ordering::Equal,
        ),
        version_cmp(a, b) == Some(std::cmp::Ordering::Equal) && version_cmp(b, c) == Some(
            std::cmp::Ordering::Equal,
        ) ==> version_cmp(a, c) == Some(std::cmp::Ordering::Equal),
{
}

/// If `a` is greater than `b`, then `b` is less than `a`.
pub proof fn lemma_version_antisymmetric(a: Seq<char>, b: Seq<char>)
    requires
        version_cmp(a, b) == Some(std::cmp::Ordering::Greater),
    ensures
        version_cmp(b, a) == Some(std::cmp::Ordering::Less),
{
}

/// "Greater" is transitive.
pub proof fn lemma_version_greater_transitive(a: Seq<char>, b: Seq<char>, c: Seq<char>)
    requires
        version_cmp(a, b) == Some(std::cmp::Ordering::Greater),
        version_cmp(b, c) == Some(std::cmp::Ordering::Greater),
    ensures
        version_cmp(a, c) == Some(std::cmp::Ordering::Greater),
{
}

/// "Less" is transitive.
pub proof fn lemma_version_less_transitive(a: Seq<char>, b: Seq<char>, c: Seq<char>)
    requires
        version_cmp(a, b) == Some(std::cmp::Ordering::Less),
        version_cmp(b, c) == Some(std::cmp::Ordering::Less),
    ensures
        version_cmp(a, c) == Some(std::cmp::Ordering::Less),
{
}

} // verus!
