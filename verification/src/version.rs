//! Runtime-image versions: the `vMAJOR.MINOR.PATCH` version strings, the
//! `venice-vMAJOR.MINOR.PATCH.bin` runtime file names, and their parsers.

use vstd::prelude::*;

verus! {

/// A runtime image version.
#[derive(Debug, Clone, Copy, PartialEq, Eq, Structural)]
pub struct RtVersion {
    pub major: u32,
    pub minor: u32,
    pub patch: u32,
}

/// A runtime image binary, identified by its version.
#[derive(Debug, Clone, Copy, PartialEq, Eq, Structural)]
pub struct RtBin {
    pub version: RtVersion,
}

/// Why a decimal number inside a version string was rejected.
#[derive(Debug, Clone, Copy, PartialEq, Eq, Structural)]
pub enum NumParseError {
    /// The number was empty.
    Empty,
    /// A character was not a decimal digit.
    InvalidDigit,
    /// The value does not fit in 32 bits.
    Overflow,
}

/// Why a version string was rejected.
#[derive(Debug, Clone, Copy, PartialEq, Eq, Structural)]
pub enum RtVersionParseError {
    /// The version string ended before all three components were read.
    TooShort,
    /// The version string went on after its third component.
    TooLong,
    /// The version string did not start with `v`.
    Malformed,
    /// A component was not a valid decimal number.
    InvalidNumber(NumParseError),
}

/// Why a runtime file name was rejected.
#[derive(Debug, Clone, Copy, PartialEq, Eq, Structural)]
pub enum RtBinParseError {
    /// The version between prefix and extension was rejected.
    VersionError(RtVersionParseError),
    /// The name did not start with `venice-`.
    BadPrefix,
    /// The name did not end with `.bin`.
    BadExtension,
}

pub open spec fn is_digit(c: char) -> bool {
    48 <= c as int <= 57
}

pub open spec fn digit_val(c: char) -> int {
    c as int - 48
}

/// Reads decimal digits left to right onto the accumulator `acc`, rejecting
/// the first non-digit, and an overflow of 32 bits as soon as it happens.
pub open spec fn parse_digits(s: Seq<char>, acc: u32) -> Result<u32, NumParseError>
    decreases s.len(),
{
    if s.len() == 0 {
        Ok(acc)
    } else if !is_digit(s[0]) {
        Err(NumParseError::InvalidDigit)
    } else if acc * 10 + digit_val(s[0]) > u32::MAX {
        Err(NumParseError::Overflow)
    } else {
        parse_digits(s.skip(1), (acc * 10 + digit_val(s[0])) as u32)
    }
}

/// A non-negative 32-bit decimal number: an optional `+` sign followed by at
/// least one digit.
pub open spec fn parse_u32_spec(s: Seq<char>) -> Result<u32, NumParseError> {
    if s.len() == 0 {
        Err(NumParseError::Empty)
    } else {
        let digits = if s[0] == '+' {
            s.skip(1)
        } else {
            s
        };
        if digits.len() == 0 {
            Err(NumParseError::InvalidDigit)
        } else {
            parse_digits(digits, 0)
        }
    }
}

/// Parses the characters of `s` from `from` (inclusive) to `to` (exclusive)
/// as a decimal number.
#[verifier::loop_isolation(false)]
pub(crate) fn parse_u32_range(s: &str, from: usize, to: usize) -> (r: Result<u32, NumParseError>)
    requires
        from <= to <= s@.len(),
    ensures
        r == parse_u32_spec(s@.subrange(from as int, to as int)),
{
    let ghost seg = s@.subrange(from as int, to as int);
    if from == to {
        return Err(NumParseError::Empty);
    }
    let first = s.get_char(from);
    let start: usize = if first == '+' {
        from + 1
    } else {
        from
    };
    let ghost digits = if first == '+' {
        seg.skip(1)
    } else {
        seg
    };
    proof {
        assert(digits =~= s@.subrange(start as int, to as int));
    }
    if start == to {
        return Err(NumParseError::InvalidDigit);
    }
    let mut acc: u32 = 0;
    let mut i: usize = start;
    while i < to
        invariant
            start <= i <= to <= s@.len(),
            digits =~= s@.subrange(start as int, to as int),
            parse_digits(digits, 0) == parse_digits(
                s@.subrange(i as int, to as int),
                acc,
            ),
        decreases to - i,
    {
        let ghost rest = s@.subrange(i as int, to as int);
        let c = s.get_char(i);
        let u = c as u32;
        proof {
            assert(rest[0] == c);
            assert(rest.skip(1) =~= s@.subrange(i + 1, to as int));
        }
        if u < 48 || u > 57 {
            return Err(NumParseError::InvalidDigit);
        }
        let d = u - 48;
        if acc > u32::MAX / 10 || (acc == u32::MAX / 10 && d > u32::MAX % 10) {
            proof {
                assert(acc * 10 + digit_val(c) > u32::MAX) by (nonlinear_arith)
                    requires
                        acc > u32::MAX / 10 || (acc == u32::MAX / 10 && d > u32::MAX % 10),
                        d == digit_val(c),
                        0 <= d <= 9,
                        u32::MAX == 0xffff_ffffu32,
                ;
            }
            return Err(NumParseError::Overflow);
        }
        proof {
            assert(acc * 10 + d <= u32::MAX) by (nonlinear_arith)
                requires
                    acc <= u32::MAX / 10,
                    !(acc == u32::MAX / 10 && d > u32::MAX % 10),
                    0 <= d <= 9,
                    u32::MAX == 0xffff_ffffu32,
            ;
        }
        acc = acc * 10 + d;
        i = i + 1;
    }
    proof {
        assert(s@.subrange(i as int, to as int).len() == 0);
    }
    Ok(acc)
}

/// The end of the version component that starts at `from`: the index of the
/// next `.`, or the end of the string if no `.` follows.
pub open spec fn seg_end(s: Seq<char>, from: int) -> int
    decreases s.len() - from,
{
    if from >= s.len() {
        s.len() as int
    } else if s[from] == '.' {
        from
    } else {
        seg_end(s, from + 1)
    }
}

proof fn lemma_seg_end_bounds(s: Seq<char>, from: int)
    requires
        0 <= from <= s.len(),
    ensures
        from <= seg_end(s, from) <= s.len(),
    decreases s.len() - from,
{
    if from < s.len() && s[from] != '.' {
        lemma_seg_end_bounds(s, from + 1);
    }
}

/// Finds the end of the component of `s` that starts at `from`.
#[verifier::loop_isolation(false)]
fn find_dot(s: &str, from: usize, len: usize) -> (r: usize)
    requires
        from <= len == s@.len(),
    ensures
        r == seg_end(s@, from as int),
        from <= r <= len,
{
    let mut i: usize = from;
    while i < len
        invariant
            from <= i <= len,
            seg_end(s@, from as int) == seg_end(s@, i as int),
        decreases len - i,
    {
        let c = s.get_char(i);
        if c == '.' {
            return i;
        }
        i = i + 1;
    }
    i
}

/// A version string: `v`, then three decimal components separated by `.`,
/// read left to right with the first failure reported, as the parser does.
pub open spec fn parse_version_spec(s: Seq<char>) -> Result<RtVersion, RtVersionParseError> {
    if s.len() == 0 {
        Err(RtVersionParseError::TooShort)
    } else if s[0] != 'v' {
        Err(RtVersionParseError::Malformed)
    } else {
        let e1 = seg_end(s, 1);
        match parse_u32_spec(s.subrange(1, e1)) {
            Err(k) => Err(RtVersionParseError::InvalidNumber(k)),
            Ok(major) => if e1 >= s.len() {
                Err(RtVersionParseError::TooShort)
            } else {
                let e2 = seg_end(s, e1 + 1);
                match parse_u32_spec(s.subrange(e1 + 1, e2)) {
                    Err(k) => Err(RtVersionParseError::InvalidNumber(k)),
                    Ok(minor) => if e2 >= s.len() {
                        Err(RtVersionParseError::TooShort)
                    } else {
                        let e3 = seg_end(s, e2 + 1);
                        match parse_u32_spec(s.subrange(e2 + 1, e3)) {
                            Err(k) => Err(RtVersionParseError::InvalidNumber(k)),
                            Ok(patch) => if e3 < s.len() {
                                Err(RtVersionParseError::TooLong)
                            } else {
                                Ok(RtVersion { major, minor, patch })
                            },
                        }
                    },
                }
            },
        }
    }
}

impl RtVersion {
    /// Parses a `vMAJOR.MINOR.PATCH` version string.
    pub fn parse(s: &str) -> (r: Result<RtVersion, RtVersionParseError>)
        ensures
            r == parse_version_spec(s@),
    {
        let len = s.unicode_len();
        if len == 0 {
            return Err(RtVersionParseError::TooShort);
        }
        if s.get_char(0) != 'v' {
            return Err(RtVersionParseError::Malformed);
        }
        let e1 = find_dot(s, 1, len);
        proof {
            lemma_seg_end_bounds(s@, 1);
        }
        let major = match parse_u32_range(s, 1, e1) {
            Ok(n) => n,
            Err(k) => {
                return Err(RtVersionParseError::InvalidNumber(k));
            },
        };
        if e1 >= len {
            return Err(RtVersionParseError::TooShort);
        }
        let e2 = find_dot(s, e1 + 1, len);
        let minor = match parse_u32_range(s, e1 + 1, e2) {
            Ok(n) => n,
            Err(k) => {
                return Err(RtVersionParseError::InvalidNumber(k));
            },
        };
        if e2 >= len {
            return Err(RtVersionParseError::TooShort);
        }
        let e3 = find_dot(s, e2 + 1, len);
        let patch = match parse_u32_range(s, e2 + 1, e3) {
            Ok(n) => n,
            Err(k) => {
                return Err(RtVersionParseError::InvalidNumber(k));
            },
        };
        if e3 < len {
            return Err(RtVersionParseError::TooLong);
        }
        Ok(RtVersion { major, minor, patch })
    }

    /// Wraps this version as the runtime binary it names.
    pub fn as_rt(self) -> (r: RtBin)
        ensures
            r.version == self,
    {
        RtBin { version: self }
    }
}

/// The character for the decimal digit `d`.
pub open spec fn digit_char(d: int) -> char {
    if d == 0 {
        '0'
    } else if d == 1 {
        '1'
    } else if d == 2 {
        '2'
    } else if d == 3 {
        '3'
    } else if d == 4 {
        '4'
    } else if d == 5 {
        '5'
    } else if d == 6 {
        '6'
    } else if d == 7 {
        '7'
    } else if d == 8 {
        '8'
    } else {
        '9'
    }
}

/// The decimal rendering of `n`, without leading zeroes (except for `0`).
pub open spec fn dec_spec(n: int) -> Seq<char>
    decreases n,
{
    if n < 10 {
        seq![digit_char(n)]
    } else {
        dec_spec(n / 10).push(digit_char(n % 10))
    }
}

/// Appends the digit `d` to `out`.
fn push_digit(out: &mut String, d: u8)
    requires
        d < 10,
    ensures
        final(out)@ == old(out)@.push(digit_char(d as int)),
{
    match d {
        0 => {
            proof {
                reveal_strlit("0");
            }
            out.append("0");
        },
        1 => {
            proof {
                reveal_strlit("1");
            }
            out.append("1");
        },
        2 => {
            proof {
                reveal_strlit("2");
            }
            out.append("2");
        },
        3 => {
            proof {
                reveal_strlit("3");
            }
            out.append("3");
        },
        4 => {
            proof {
                reveal_strlit("4");
            }
            out.append("4");
        },
        5 => {
            proof {
                reveal_strlit("5");
            }
            out.append("5");
        },
        6 => {
            proof {
                reveal_strlit("6");
            }
            out.append("6");
        },
        7 => {
            proof {
                reveal_strlit("7");
            }
            out.append("7");
        },
        8 => {
            proof {
                reveal_strlit("8");
            }
            out.append("8");
        },
        _ => {
            proof {
                reveal_strlit("9");
            }
            out.append("9");
        },
    }
    proof {
        assert(out@ =~= old(out)@.push(digit_char(d as int)));
    }
}

/// Appends the decimal rendering of `n` to `out`.
pub(crate) fn push_dec_u32(out: &mut String, n: u32)
    ensures
        final(out)@ == old(out)@ + dec_spec(n as int),
    decreases n,
{
    if n >= 10 {
        push_dec_u32(out, n / 10);
    }
    push_digit(out, (n % 10) as u8);
    proof {
        assert(out@ =~= old(out)@ + dec_spec(n as int));
    }
}

/// The rendering `vMAJOR.MINOR.PATCH` of a version.
pub open spec fn version_str_spec(v: RtVersion) -> Seq<char> {
    "v"@ + dec_spec(v.major as int) + "."@ + dec_spec(v.minor as int) + "."@ + dec_spec(
        v.patch as int,
    )
}

impl RtVersion {
    /// Renders this version as `vMAJOR.MINOR.PATCH`.
    pub fn render(&self) -> (r: String)
        ensures
            r@ == version_str_spec(*self),
    {
        let mut out = String::new();
        out.append("v");
        push_dec_u32(&mut out, self.major);
        out.append(".");
        push_dec_u32(&mut out, self.minor);
        out.append(".");
        push_dec_u32(&mut out, self.patch);
        proof {
            assert(out@ =~= version_str_spec(*self));
        }
        out
    }
}

/// The file name `venice-vMAJOR.MINOR.PATCH.bin` of a runtime binary.
pub open spec fn bin_name_spec(v: RtVersion) -> Seq<char> {
    "venice-"@ + version_str_spec(v) + ".bin"@
}

impl RtBin {
    /// Renders this runtime binary's file name.
    pub fn file_name(&self) -> (r: String)
        ensures
            r@ == bin_name_spec(self.version),
    {
        let mut out = String::new();
        out.append("venice-");
        let v = self.version.render();
        out.append(v.as_str());
        out.append(".bin");
        proof {
            assert(out@ =~= bin_name_spec(self.version));
        }
        out
    }
}

pub open spec fn starts_with(s: Seq<char>, p: Seq<char>) -> bool {
    s.len() >= p.len() && s.take(p.len() as int) == p
}

pub open spec fn ends_with(s: Seq<char>, p: Seq<char>) -> bool {
    s.len() >= p.len() && s.skip(s.len() - p.len()) == p
}

/// Returns whether `s` begins with `p`.
#[verifier::loop_isolation(false)]
pub(crate) fn str_starts_with(s: &str, p: &str) -> (r: bool)
    ensures
        r == starts_with(s@, p@),
{
    let sl = s.unicode_len();
    let pl = p.unicode_len();
    if sl < pl {
        return false;
    }
    let mut i: usize = 0;
    while i < pl
        invariant
            0 <= i <= pl,
            forall|j: int| 0 <= j < i ==> s@[j] == p@[j],
        decreases pl - i,
    {
        if s.get_char(i) != p.get_char(i) {
            proof {
                assert(s@.take(pl as int)[i as int] != p@[i as int]);
            }
            return false;
        }
        i = i + 1;
    }
    proof {
        assert(s@.take(pl as int) =~= p@);
    }
    true
}

/// Returns whether `s` ends with `p`.
#[verifier::loop_isolation(false)]
pub(crate) fn str_ends_with(s: &str, p: &str) -> (r: bool)
    ensures
        r == ends_with(s@, p@),
{
    let sl = s.unicode_len();
    let pl = p.unicode_len();
    if sl < pl {
        return false;
    }
    let off = sl - pl;
    let mut i: usize = 0;
    while i < pl
        invariant
            0 <= i <= pl,
            forall|j: int| 0 <= j < i ==> s@[off + j] == p@[j],
        decreases pl - i,
    {
        if s.get_char(off + i) != p.get_char(i) {
            proof {
                assert(s@.skip(off as int)[i as int] != p@[i as int]);
            }
            return false;
        }
        i = i + 1;
    }
    proof {
        assert(s@.skip(off as int) =~= p@);
    }
    true
}

/// A runtime file name: `venice-`, a version string, `.bin`, with the first
/// failure reported in that order.
pub open spec fn parse_bin_spec(s: Seq<char>) -> Result<RtBin, RtBinParseError> {
    if !starts_with(s, "venice-"@) {
        Err(RtBinParseError::BadPrefix)
    } else if !ends_with(s, ".bin"@) {
        Err(RtBinParseError::BadExtension)
    } else {
        match parse_version_spec(
            s.subrange("venice-"@.len() as int, s.len() - ".bin"@.len()),
        ) {
            Ok(version) => Ok(RtBin { version }),
            Err(e) => Err(RtBinParseError::VersionError(e)),
        }
    }
}

impl RtBin {
    /// Parses a `venice-vMAJOR.MINOR.PATCH.bin` runtime file name.
    pub fn parse(s: &str) -> (r: Result<RtBin, RtBinParseError>)
        ensures
            r == parse_bin_spec(s@),
    {
        proof {
            reveal_strlit("venice-");
            reveal_strlit(".bin");
        }
        if !str_starts_with(s, "venice-") {
            return Err(RtBinParseError::BadPrefix);
        }
        if !str_ends_with(s, ".bin") {
            return Err(RtBinParseError::BadExtension);
        }
        let len = s.unicode_len();
        proof {
            // With the prefix in place, a `.` cannot sit inside it, so the
            // name is long enough for the version to sit between the two.
            if len < 11 {
                assert(s@.skip(s@.len() - 4)[0] == '.');
                assert(s@.take(7)[s@.len() - 4] != '.');
            }
        }
        let mid = s.substring_char(7, len - 4);
        match RtVersion::parse(mid) {
            Ok(version) => Ok(RtBin { version }),
            Err(e) => Err(RtBinParseError::VersionError(e)),
        }
    }
}

} // verus!
