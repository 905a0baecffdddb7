//! The header of a payload: the fixed-width fields and the list of subfile designators.

use vstd::prelude::*;
use crate::issuer::IssuerIdentification;
use crate::subfile::{SubfileDesignator, SubfileType, type_of_chars, type_of_tag};
use crate::text::{
    all_digits, chars_of, copy_range, decimal, lemma_decimal_bound, matches_at, parse_digits, pow10,
    slice_of, string_of,
};

verus! {

/// The header of a payload.
#[derive(Debug, Clone, PartialEq, Eq)]
pub struct Header {
    pub issuer_id: u32,
    pub version_number: u8,
    pub jurisdiction_version_number: Option<u8>,
    pub number_of_entries: u8,
    pub subfile_designators: Vec<SubfileDesignator>,
}

pub struct HeaderView {
    pub issuer_id: u32,
    pub version_number: u8,
    pub jurisdiction_version_number: Option<u8>,
    pub number_of_entries: u8,
    pub subfile_designators: Seq<SubfileDesignator>,
}

impl View for Header {
    type V = HeaderView;

    open spec fn view(&self) -> HeaderView {
        HeaderView {
            issuer_id: self.issuer_id,
            version_number: self.version_number,
            jurisdiction_version_number: self.jurisdiction_version_number,
            number_of_entries: self.number_of_entries,
            subfile_designators: self.subfile_designators@,
        }
    }
}

/// The header token that was expected where parsing failed.
#[derive(Debug, Clone, Copy, PartialEq, Eq, Structural)]
pub enum HeaderField {
    ComplianceIndicator,
    RecordSeparator,
    FileType,
    IssuerIdentificationNumber,
    VersionNumber,
    JurisdictionVersionNumber,
    NumberOfEntries,
}

/// A payload whose header could not be read: what was expected, and at which character.
#[derive(Debug, Clone, Copy, PartialEq, Eq, Structural)]
pub struct ParseError {
    pub expected: HeaderField,
    pub position: usize,
}

/// What the message of an error says was expected.
pub open spec fn expected_text(f: HeaderField) -> Seq<char> {
    match f {
        HeaderField::ComplianceIndicator => "expected the compliance indicator"@,
        HeaderField::RecordSeparator => "expected the record separator"@,
        HeaderField::FileType => "expected the file type"@,
        HeaderField::IssuerIdentificationNumber => "expected the issuer identification number"@,
        HeaderField::VersionNumber => "expected the AAMVA version number"@,
        HeaderField::JurisdictionVersionNumber => "expected the jurisdiction version number"@,
        HeaderField::NumberOfEntries => "expected the number of entries"@,
    }
}

/// The decimal digits of `n`, without leading zeros.
pub open spec fn decimal_digits(n: nat) -> Seq<char>
    decreases n,
{
    if n < 10 {
        seq![(n + 48) as char]
    } else {
        decimal_digits(n / 10).push(((n % 10) + 48) as char)
    }
}

impl ParseError {
    /// A description of the error: what was expected, and at which character.
    pub fn message(&self) -> (r: String)
        ensures
            r@ == expected_text(self.expected) + " at character "@ + decimal_digits(
                self.position as nat,
            ),
    {
        let mut m = String::from_str(
            match self.expected {
                HeaderField::ComplianceIndicator => "expected the compliance indicator",
                HeaderField::RecordSeparator => "expected the record separator",
                HeaderField::FileType => "expected the file type",
                HeaderField::IssuerIdentificationNumber =>
                    "expected the issuer identification number",
                HeaderField::VersionNumber => "expected the AAMVA version number",
                HeaderField::JurisdictionVersionNumber => "expected the jurisdiction version number",
                HeaderField::NumberOfEntries => "expected the number of entries",
            },
        );
        m.append(" at character ");
        let digits = decimal_chars(self.position);
        m.append(string_of(digits.as_slice()).as_str());
        m
    }
}

/// The decimal digits of `n`, without leading zeros.
fn decimal_chars(n: usize) -> (r: Vec<char>)
    ensures
        r@ == decimal_digits(n as nat),
    decreases n,
{
    if n < 10 {
        let v = vec![(48u8 + n as u8) as char];
        assert(v@ =~= decimal_digits(n as nat));
        v
    } else {
        let mut v = decimal_chars(n / 10);
        v.push((48u8 + (n % 10) as u8) as char);
        v
    }
}

/// The pattern that marks where the header region ends and the first data element begins.
pub const BOUNDARY_PATTERN: &'static str = r"(DL|ID)([\d\w]{3,8})(DL|ID|Z\w)([DZ][A-Z]{2})";

/// Where the leftmost match of a regular expression in a text ends, as a byte offset, if the
/// expression compiles and matches.
pub uninterp spec fn regex_match_end(pattern: Seq<char>, haystack: Seq<char>) -> Option<usize>;

/// Relies on `regex_lite::Regex::new` and `regex_lite::Regex::find`: the end of the leftmost
/// match of `pattern` in `haystack`.
#[verifier::external_body]
fn match_end(pattern: &str, haystack: &str) -> (r: Option<usize>)
    ensures
        r == regex_match_end(pattern@, haystack@),
{
    let re = regex_lite::Regex::new(pattern).ok()?;
    re.find(haystack).map(|m| m.end())
}

/// The offset that South Carolina's version-1 files declare, one too large, for their first
/// subfile.
pub const SOUTH_CAROLINA_BAD_OFFSET: u32 = 30;

/// The offset guessed from the structure of `start`: five characters before the end of the
/// first boundary match, or zero when there is none (or that position is no `u32`).
pub open spec fn guessed_offset(start: Seq<char>) -> u32 {
    match regex_match_end(BOUNDARY_PATTERN@, start) {
        Some(e) => if 5 <= e && e - 5 <= u32::MAX {
            (e - 5) as u32
        } else {
            0
        },
        None => 0,
    }
}

/// `n`, or the largest `u32` if it does not fit.
pub open spec fn clamp_u32(n: nat) -> u32 {
    if n <= u32::MAX {
        n as u32
    } else {
        u32::MAX
    }
}

/// The number written by the `n` characters at `p`, if they are all digits.
pub open spec fn digits_at(s: Seq<char>, p: int, n: int) -> Option<nat> {
    if 0 <= p && p + n <= s.len() && all_digits(s.subrange(p, p + n)) {
        Some(decimal(s.subrange(p, p + n)))
    } else {
        None
    }
}

/// The first position at or after `from` that holds `c`.
pub open spec fn find_char(s: Seq<char>, c: char, from: int) -> Option<int>
    decreases s.len() - from,
{
    if from < 0 || from >= s.len() {
        None
    } else if s[from] == c {
        Some(from)
    } else {
        find_char(s, c, from + 1)
    }
}

/// The declared offset after the known jurisdiction correction, and after the guess that
/// replaces an offset of zero.
pub open spec fn corrected_offset(start: Seq<char>, declared: u32, issuer: u32, version: u8) -> u32 {
    let fixed = if version == 1 && IssuerIdentification::spec_from_code(issuer) == Some(
        IssuerIdentification::SouthCarolina,
    ) && declared == SOUTH_CAROLINA_BAD_OFFSET {
        (declared - 1) as u32
    } else {
        declared
    };
    if fixed == 0 {
        guessed_offset(start)
    } else {
        fixed
    }
}

/// The designator at `p` in `start`, with the position after it.
pub open spec fn designator_at(start: Seq<char>, p: int, issuer: u32, version: u8) -> Option<
    (SubfileDesignator, int),
> {
    if 0 <= p && p + 2 <= start.len() && type_of_tag(start.subrange(p, p + 2)) is Some {
        let t = type_of_tag(start.subrange(p, p + 2))->0;
        if p + 6 <= start.len() && start.subrange(p + 2, p + 6) == seq!['a', 'b', 'a', 'c'] {
            Some(
                (
                    SubfileDesignator {
                        subfile_type: t,
                        offset: guessed_offset(start),
                        length: clamp_u32(start.len()),
                    },
                    p + 6,
                ),
            )
        } else if digits_at(start, p + 2, 4) is Some && digits_at(start, p + 6, 4) is Some {
            Some(
                (
                    SubfileDesignator {
                        subfile_type: t,
                        offset: corrected_offset(
                            start,
                            digits_at(start, p + 2, 4)->0 as u32,
                            issuer,
                            version,
                        ),
                        length: digits_at(start, p + 6, 4)->0 as u32,
                    },
                    p + 10,
                ),
            )
        } else {
            None
        }
    } else {
        None
    }
}

/// The designators from `p` on, up to the first position that does not hold one.
pub open spec fn designators_from(start: Seq<char>, p: int, issuer: u32, version: u8) -> Seq<
    SubfileDesignator,
>
    decreases start.len() - p,
{
    match designator_at(start, p, issuer, version) {
        Some((d, next)) => if p < next <= start.len() {
            seq![d] + designators_from(start, next, issuer, version)
        } else {
            Seq::empty()
        },
        None => Seq::empty(),
    }
}

/// The position after the designators from `p` on.
pub open spec fn designators_end(start: Seq<char>, p: int, issuer: u32, version: u8) -> int
    decreases start.len() - p,
{
    match designator_at(start, p, issuer, version) {
        Some((d, next)) => if p < next <= start.len() {
            designators_end(start, next, issuer, version)
        } else {
            p
        },
        None => p,
    }
}

pub open spec fn file_type_at(s: Seq<char>, q: int) -> bool {
    0 <= q && q + 5 <= s.len() && (s.subrange(q, q + 5) == seq!['A', 'N', 'S', 'I', ' ']
        || s.subrange(q, q + 5) == seq!['A', 'A', 'M', 'V', 'A'])
}

pub open spec fn fail(expected: HeaderField, position: int) -> ParseError {
    ParseError { expected, position: position as usize }
}

/// How the header of `s` reads: the position of the compliance indicator, the position after
/// the designators, and the header; or where it went wrong.
pub open spec fn spec_header(s: Seq<char>) -> Result<(int, int, HeaderView), ParseError> {
    match find_char(s, '@', 0) {
        None => Err(fail(HeaderField::ComplianceIndicator, 0)),
        Some(at) => match find_char(s, 'A', at + 1) {
            None => Err(fail(HeaderField::RecordSeparator, at + 1)),
            Some(q) => if !file_type_at(s, q) {
                Err(fail(HeaderField::FileType, q))
            } else {
                match digits_at(s, q + 5, 6) {
                    None => Err(fail(HeaderField::IssuerIdentificationNumber, q + 5)),
                    Some(issuer) => match digits_at(s, q + 11, 2) {
                        None => Err(fail(HeaderField::VersionNumber, q + 11)),
                        Some(version) => {
                            let jv = if version > 2 { digits_at(s, q + 13, 2) } else { None };
                            let e = if version > 2 { q + 15 } else { q + 13 };
                            if version > 2 && jv is None {
                                Err(fail(HeaderField::JurisdictionVersionNumber, q + 13))
                            } else {
                                match digits_at(s, e, 2) {
                                    None => Err(fail(HeaderField::NumberOfEntries, e)),
                                    Some(entries) => {
                                        let start = s.subrange(at, s.len() as int);
                                        let p = e + 2 - at;
                                        Ok(
                                            (
                                                at,
                                                at + designators_end(
                                                    start,
                                                    p,
                                                    issuer as u32,
                                                    version as u8,
                                                ),
                                                HeaderView {
                                                    issuer_id: issuer as u32,
                                                    version_number: version as u8,
                                                    jurisdiction_version_number: if version > 2 {
                                                        Some(jv->0 as u8)
                                                    } else {
                                                        None
                                                    },
                                                    number_of_entries: entries as u8,
                                                    subfile_designators: designators_from(
                                                        start,
                                                        p,
                                                        issuer as u32,
                                                        version as u8,
                                                    ),
                                                },
                                            ),
                                        )
                                    },
                                }
                            }
                        },
                    },
                }
            },
        },
    }
}

/// The first position at or after `from` in `s` that holds `c`.
pub fn find_char_from(s: &Vec<char>, c: char, from: usize) -> (r: Option<usize>)
    requires
        from <= s.len(),
    ensures
        match find_char(s@, c, from as int) {
            Some(i) => r == Some(i as usize),
            None => r is None,
        },
{
    let mut i: usize = from;
    while i < s.len()
        invariant
            from <= i <= s.len(),
            find_char(s@, c, from as int) == find_char(s@, c, i as int),
        decreases s.len() - i,
    {
        if s[i] == c {
            return Some(i);
        }
        i = i + 1;
    }
    None
}

/// The number written by the `n` characters at `p`, if they are all digits.
fn digits_at_pos(s: &Vec<char>, p: usize, n: usize) -> (r: Option<u32>)
    requires
        n <= 6,
    ensures
        match digits_at(s@, p as int, n as int) {
            Some(v) => r == Some(v as u32) && v < pow10(n as nat),
            None => r is None,
        },
{
    if p > s.len() || n > s.len() - p {
        return None;
    }
    let r = parse_digits(s, p, p + n);
    proof {
        if r is Some {
            lemma_decimal_bound(s@.subrange(p as int, p + n));
        }
    }
    r
}

/// The offset guessed from the structure of `start`.
fn guess_offset(start: &str) -> (r: u32)
    ensures
        r == guessed_offset(start@),
{
    match match_end(BOUNDARY_PATTERN, start) {
        Some(e) => if 5 <= e && e - 5 <= 0xffff_ffff {
            (e - 5) as u32
        } else {
            0
        },
        None => 0,
    }
}

/// The designator at `p` in `start`, with the position after it.
fn designator_at_pos(start: &Vec<char>, start_str: &str, p: usize, issuer: u32, version: u8) -> (r:
    Option<(SubfileDesignator, usize)>)
    requires
        start_str@ == start@,
        p <= start.len(),
    ensures
        match designator_at(start@, p as int, issuer, version) {
            Some((d, next)) => r == Some((d, next as usize)),
            None => r is None,
        },
{
    let len = start.len();
    if len - p < 2 {
        return None;
    }
    let t = match type_of_chars(start, p, p + 2) {
        Some(t) => t,
        None => {
            return None;
        },
    };
    let garbage = vec!['a', 'b', 'a', 'c'];
    if len - p >= 6 && matches_at(start, p + 2, &garbage) {
        let length: u32 = if len <= 0xffff_ffff {
            len as u32
        } else {
            0xffff_ffff
        };
        let offset = guess_offset(start_str);
        return Some((SubfileDesignator { subfile_type: t, offset, length }, p + 6));
    }
    proof {
        if p + 6 <= len {
            assert(seq!['a', 'b', 'a', 'c'] =~= garbage@);
        }
    }
    let declared = match digits_at_pos(start, p + 2, 4) {
        Some(v) => v,
        None => {
            return None;
        },
    };
    let length = match digits_at_pos(start, p + 6, 4) {
        Some(v) => v,
        None => {
            return None;
        },
    };
    let mut offset = declared;
    if version == 1 && IssuerIdentification::from_code(issuer) == Some(
        IssuerIdentification::SouthCarolina,
    ) && offset == SOUTH_CAROLINA_BAD_OFFSET {
        offset = offset - 1;
    }
    if offset == 0 {
        offset = guess_offset(start_str);
    }
    Some((SubfileDesignator { subfile_type: t, offset, length }, p + 10))
}

/// The designators from `p` on in `start`, and the position after them.
fn designators_from_pos(start: &Vec<char>, start_str: &str, p: usize, issuer: u32, version: u8) -> (r:
    (Vec<SubfileDesignator>, usize))
    requires
        start_str@ == start@,
        p <= start.len(),
    ensures
        r.0@ == designators_from(start@, p as int, issuer, version),
        r.1 == designators_end(start@, p as int, issuer, version),
{
    let mut out: Vec<SubfileDesignator> = Vec::new();
    let mut q: usize = p;
    loop
        invariant
            start_str@ == start@,
            p <= q <= start.len(),
            designators_from(start@, p as int, issuer, version) == out@ + designators_from(
                start@,
                q as int,
                issuer,
                version,
            ),
            designators_end(start@, p as int, issuer, version) == designators_end(
                start@,
                q as int,
                issuer,
                version,
            ),
        decreases start.len() - q,
    {
        match designator_at_pos(start, start_str, q, issuer, version) {
            Some((d, next)) => {
                assert(q < next <= start.len());
                let ghost before = out@;
                out.push(d);
                assert(before + (seq![d] + designators_from(start@, next as int, issuer, version))
                    =~= out@ + designators_from(start@, next as int, issuer, version));
                q = next;
            },
            None => {
                assert(out@ + Seq::<SubfileDesignator>::empty() =~= out@);
                return (out, q);
            },
        }
    }
}

/// Reads the header of the payload `text`: the position of the compliance indicator, the
/// position after the designators, and the header.
pub fn read_header(text: &Vec<char>, input: &str) -> (r: Result<(usize, usize, Header), ParseError>)
    requires
        text@ == input@,
    ensures
        match spec_header(text@) {
            Ok((at, end, h)) => match r {
                Ok((a, e, hh)) => a == at && e == end && hh@ == h,
                Err(_) => false,
            },
            Err(e) => r == Err::<(usize, usize, Header), ParseError>(e),
        },
{
    let s = text;
    let len = s.len();
    let at = match find_char_from(s, '@', 0) {
        Some(i) => i,
        None => {
            return Err(ParseError { expected: HeaderField::ComplianceIndicator, position: 0 });
        },
    };
    proof {
        lemma_find_char(s@, '@', 0);
    }
    let q = match find_char_from(s, 'A', at + 1) {
        Some(i) => i,
        None => {
            return Err(ParseError { expected: HeaderField::RecordSeparator, position: at + 1 });
        },
    };
    proof {
        lemma_find_char(s@, 'A', at + 1);
    }
    let ansi = vec!['A', 'N', 'S', 'I', ' '];
    let aamva = vec!['A', 'A', 'M', 'V', 'A'];
    assert(ansi@ =~= seq!['A', 'N', 'S', 'I', ' ']);
    assert(aamva@ =~= seq!['A', 'A', 'M', 'V', 'A']);
    if !(len - q >= 5 && (matches_at(s, q, &ansi) || matches_at(s, q, &aamva))) {
        return Err(ParseError { expected: HeaderField::FileType, position: q });
    }
    let issuer = match digits_at_pos(s, q + 5, 6) {
        Some(v) => v,
        None => {
            return Err(
                ParseError { expected: HeaderField::IssuerIdentificationNumber, position: q + 5 },
            );
        },
    };
    let version = match digits_at_pos(s, q + 11, 2) {
        Some(v) => v,
        None => {
            return Err(ParseError { expected: HeaderField::VersionNumber, position: q + 11 });
        },
    };
    assert(pow10(2) == 100) by {
        assert(pow10(0) == 1);
        assert(pow10(1) == 10);
    }
    let version = version as u8;
    let mut e = q + 13;
    let mut jurisdiction_version_number: Option<u8> = None;
    if version > 2 {
        match digits_at_pos(s, q + 13, 2) {
            Some(v) => {
                jurisdiction_version_number = Some(v as u8);
            },
            None => {
                return Err(
                    ParseError { expected: HeaderField::JurisdictionVersionNumber, position: q + 13 },
                );
            },
        }
        e = q + 15;
    }
    let entries = match digits_at_pos(s, e, 2) {
        Some(v) => v as u8,
        None => {
            return Err(ParseError { expected: HeaderField::NumberOfEntries, position: e });
        },
    };
    let start = copy_range(s, at, len);
    let start_str = string_of(start.as_slice());
    proof {
        lemma_designators_end(start@, (e + 2 - at) as int, issuer, version);
    }
    let (subfile_designators, end) = designators_from_pos(
        &start,
        start_str.as_str(),
        e + 2 - at,
        issuer,
        version,
    );
    Ok(
        (
            at,
            at + end,
            Header {
                issuer_id: issuer,
                version_number: version,
                jurisdiction_version_number,
                number_of_entries: entries,
                subfile_designators,
            },
        ),
    )
}

/// Reads the header of `input`. Returns the text after the designators, and the payload from
/// its compliance indicator on, with the header.
pub fn parse_header(input: &str) -> (r: Result<(String, (String, Header)), ParseError>)
    ensures
        match spec_header(input@) {
            Ok((at, end, h)) => match r {
                Ok((rest, (start, hh))) => rest@ == input@.subrange(end, input@.len() as int)
                    && start@ == input@.subrange(at, input@.len() as int) && hh@ == h,
                Err(_) => false,
            },
            Err(e) => r == Err::<(String, (String, Header)), ParseError>(e),
        },
{
    let text = chars_of(input);
    match read_header(&text, input) {
        Ok((at, end, header)) => {
            proof {
                lemma_header_positions(text@);
            }
            let rest = string_of(slice_of(&text, end, text.len()));
            let start = string_of(slice_of(&text, at, text.len()));
            Ok((rest, (start, header)))
        },
        Err(e) => Err(e),
    }
}

/// The positions that a header reports lie within the payload.
pub proof fn lemma_header_positions(s: Seq<char>)
    ensures
        spec_header(s) matches Ok((at, end, h)) ==> 0 <= at <= end <= s.len(),
{
    lemma_find_char(s, '@', 0);
    if let Some(at) = find_char(s, '@', 0) {
        lemma_find_char(s, 'A', at + 1);
        if let Ok((at, end, h)) = spec_header(s) {
            let q = find_char(s, 'A', at + 1)->0;
            let version = digits_at(s, q + 11, 2)->0;
            let e = if version > 2 { q + 15 } else { q + 13 };
            let start = s.subrange(at, s.len() as int);
            lemma_designators_end(start, e + 2 - at, h.issuer_id, h.version_number);
        }
    }
}

pub proof fn lemma_find_char(s: Seq<char>, c: char, from: int)
    ensures
        find_char(s, c, from) matches Some(i) ==> from <= i < s.len() && s[i] == c,
    decreases s.len() - from,
{
    if 0 <= from < s.len() && s[from] != c {
        lemma_find_char(s, c, from + 1);
    }
}

pub proof fn lemma_designators_end(start: Seq<char>, p: int, issuer: u32, version: u8)
    requires
        0 <= p <= start.len(),
    ensures
        p <= designators_end(start, p, issuer, version) <= start.len(),
    decreases start.len() - p,
{
    if let Some((d, next)) = designator_at(start, p, issuer, version) {
        if p < next <= start.len() {
            lemma_designators_end(start, next, issuer, version);
        }
    }
}

} // verus!
