//! The typed fields decoded from the raw elements of a parsed payload.

use vstd::prelude::*;
use crate::data::{Data, DataView, element_of, field, subfile_of};
use crate::header::{find_char, find_char_from, lemma_find_char};
use crate::issuer::IssuerCountry;
use crate::subfile::{SubfileType, opt_view};
use crate::text::{
    chars_of, copy_range, lower_all, lower_seq, matches_at, parse_u16, u16_of, upper_all,
    upper_seq,
};

verus! {

/// Whether a name component was truncated to fit.
#[derive(Debug, Clone, Copy, PartialEq, Eq, Structural)]
pub enum Truncation {
    Truncated,
    NotTruncated,
    Unknown,
}

/// The Truncation variant that an upper-case code stands for.
pub open spec fn truncation_of_code(code: Seq<char>) -> Option<Truncation> {
    if code == seq!['T'] {
        Some(Truncation::Truncated)
    } else if code == seq!['N'] {
        Some(Truncation::NotTruncated)
    } else if code == seq!['U'] {
        Some(Truncation::Unknown)
    } else {
        None
    }
}

/// The Truncation variant that an upper-case code stands for.
pub fn truncation_from_code(code: &Vec<char>) -> (r: Option<Truncation>)
    ensures
        r == truncation_of_code(code@),
{
    let lit = vec!['T'];
    assert(lit@ =~= seq!['T']);
    if same_text(code, &lit) {
        return Some(Truncation::Truncated);
    }
    let lit = vec!['N'];
    assert(lit@ =~= seq!['N']);
    if same_text(code, &lit) {
        return Some(Truncation::NotTruncated);
    }
    let lit = vec!['U'];
    assert(lit@ =~= seq!['U']);
    if same_text(code, &lit) {
        return Some(Truncation::Unknown);
    }
    None
}

/// The sex of the holder.
#[derive(Debug, Clone, Copy, PartialEq, Eq, Structural)]
pub enum Sex {
    Male,
    Female,
    NotSpecified,
}

/// The Sex variant that an upper-case code stands for.
pub open spec fn sex_of_code(code: Seq<char>) -> Option<Sex> {
    if code == seq!['1'] || code == seq!['M'] {
        Some(Sex::Male)
    } else if code == seq!['2'] || code == seq!['F'] {
        Some(Sex::Female)
    } else if code == seq!['9'] || code == seq!['X'] {
        Some(Sex::NotSpecified)
    } else {
        None
    }
}

/// The Sex variant that an upper-case code stands for.
pub fn sex_from_code(code: &Vec<char>) -> (r: Option<Sex>)
    ensures
        r == sex_of_code(code@),
{
    let lit = vec!['1'];
    assert(lit@ =~= seq!['1']);
    if same_text(code, &lit) {
        return Some(Sex::Male);
    }
    let lit = vec!['M'];
    assert(lit@ =~= seq!['M']);
    if same_text(code, &lit) {
        return Some(Sex::Male);
    }
    let lit = vec!['2'];
    assert(lit@ =~= seq!['2']);
    if same_text(code, &lit) {
        return Some(Sex::Female);
    }
    let lit = vec!['F'];
    assert(lit@ =~= seq!['F']);
    if same_text(code, &lit) {
        return Some(Sex::Female);
    }
    let lit = vec!['9'];
    assert(lit@ =~= seq!['9']);
    if same_text(code, &lit) {
        return Some(Sex::NotSpecified);
    }
    let lit = vec!['X'];
    assert(lit@ =~= seq!['X']);
    if same_text(code, &lit) {
        return Some(Sex::NotSpecified);
    }
    None
}

/// The eye color of the holder.
#[derive(Debug, Clone, Copy, PartialEq, Eq, Structural)]
pub enum EyeColor {
    Black,
    Blue,
    Brown,
    Dichromatic,
    Green,
    Gray,
    Hazel,
    Maroon,
    Pink,
    Unknown,
}

/// The EyeColor variant that an upper-case code stands for.
pub open spec fn eye_color_of_code(code: Seq<char>) -> Option<EyeColor> {
    if code == seq!['B', 'L', 'K'] {
        Some(EyeColor::Black)
    } else if code == seq!['B', 'L', 'U'] {
        Some(EyeColor::Blue)
    } else if code == seq!['B', 'R', 'O'] {
        Some(EyeColor::Brown)
    } else if code == seq!['D', 'I', 'C'] {
        Some(EyeColor::Dichromatic)
    } else if code == seq!['G', 'R', 'N'] {
        Some(EyeColor::Green)
    } else if code == seq!['G', 'R', 'Y'] {
        Some(EyeColor::Gray)
    } else if code == seq!['H', 'A', 'Z'] {
        Some(EyeColor::Hazel)
    } else if code == seq!['M', 'A', 'R'] {
        Some(EyeColor::Maroon)
    } else if code == seq!['P', 'N', 'K'] {
        Some(EyeColor::Pink)
    } else if code == seq!['U', 'N', 'K'] {
        Some(EyeColor::Unknown)
    } else {
        None
    }
}

/// The EyeColor variant that an upper-case code stands for.
pub fn eye_color_from_code(code: &Vec<char>) -> (r: Option<EyeColor>)
    ensures
        r == eye_color_of_code(code@),
{
    let lit = vec!['B', 'L', 'K'];
    assert(lit@ =~= seq!['B', 'L', 'K']);
    if same_text(code, &lit) {
        return Some(EyeColor::Black);
    }
    let lit = vec!['B', 'L', 'U'];
    assert(lit@ =~= seq!['B', 'L', 'U']);
    if same_text(code, &lit) {
        return Some(EyeColor::Blue);
    }
    let lit = vec!['B', 'R', 'O'];
    assert(lit@ =~= seq!['B', 'R', 'O']);
    if same_text(code, &lit) {
        return Some(EyeColor::Brown);
    }
    let lit = vec!['D', 'I', 'C'];
    assert(lit@ =~= seq!['D', 'I', 'C']);
    if same_text(code, &lit) {
        return Some(EyeColor::Dichromatic);
    }
    let lit = vec!['G', 'R', 'N'];
    assert(lit@ =~= seq!['G', 'R', 'N']);
    if same_text(code, &lit) {
        return Some(EyeColor::Green);
    }
    let lit = vec!['G', 'R', 'Y'];
    assert(lit@ =~= seq!['G', 'R', 'Y']);
    if same_text(code, &lit) {
        return Some(EyeColor::Gray);
    }
    let lit = vec!['H', 'A', 'Z'];
    assert(lit@ =~= seq!['H', 'A', 'Z']);
    if same_text(code, &lit) {
        return Some(EyeColor::Hazel);
    }
    let lit = vec!['M', 'A', 'R'];
    assert(lit@ =~= seq!['M', 'A', 'R']);
    if same_text(code, &lit) {
        return Some(EyeColor::Maroon);
    }
    let lit = vec!['P', 'N', 'K'];
    assert(lit@ =~= seq!['P', 'N', 'K']);
    if same_text(code, &lit) {
        return Some(EyeColor::Pink);
    }
    let lit = vec!['U', 'N', 'K'];
    assert(lit@ =~= seq!['U', 'N', 'K']);
    if same_text(code, &lit) {
        return Some(EyeColor::Unknown);
    }
    None
}

/// The hair color of the holder.
#[derive(Debug, Clone, Copy, PartialEq, Eq, Structural)]
pub enum HairColor {
    Bald,
    Black,
    Blond,
    Brown,
    Gray,
    RedAuburn,
    Sandy,
    White,
    Unknown,
}

/// The HairColor variant that an upper-case code stands for.
pub open spec fn hair_color_of_code(code: Seq<char>) -> Option<HairColor> {
    if code == seq!['B', 'A', 'L'] {
        Some(HairColor::Bald)
    } else if code == seq!['B', 'L', 'K'] {
        Some(HairColor::Black)
    } else if code == seq!['B', 'L', 'N'] {
        Some(HairColor::Blond)
    } else if code == seq!['B', 'R', 'O'] {
        Some(HairColor::Brown)
    } else if code == seq!['G', 'R', 'Y'] {
        Some(HairColor::Gray)
    } else if code == seq!['R', 'E', 'D'] {
        Some(HairColor::RedAuburn)
    } else if code == seq!['S', 'D', 'Y'] {
        Some(HairColor::Sandy)
    } else if code == seq!['W', 'H', 'I'] {
        Some(HairColor::White)
    } else if code == seq!['U', 'N', 'K'] {
        Some(HairColor::Unknown)
    } else {
        None
    }
}

/// The HairColor variant that an upper-case code stands for.
pub fn hair_color_from_code(code: &Vec<char>) -> (r: Option<HairColor>)
    ensures
        r == hair_color_of_code(code@),
{
    let lit = vec!['B', 'A', 'L'];
    assert(lit@ =~= seq!['B', 'A', 'L']);
    if same_text(code, &lit) {
        return Some(HairColor::Bald);
    }
    let lit = vec!['B', 'L', 'K'];
    assert(lit@ =~= seq!['B', 'L', 'K']);
    if same_text(code, &lit) {
        return Some(HairColor::Black);
    }
    let lit = vec!['B', 'L', 'N'];
    assert(lit@ =~= seq!['B', 'L', 'N']);
    if same_text(code, &lit) {
        return Some(HairColor::Blond);
    }
    let lit = vec!['B', 'R', 'O'];
    assert(lit@ =~= seq!['B', 'R', 'O']);
    if same_text(code, &lit) {
        return Some(HairColor::Brown);
    }
    let lit = vec!['G', 'R', 'Y'];
    assert(lit@ =~= seq!['G', 'R', 'Y']);
    if same_text(code, &lit) {
        return Some(HairColor::Gray);
    }
    let lit = vec!['R', 'E', 'D'];
    assert(lit@ =~= seq!['R', 'E', 'D']);
    if same_text(code, &lit) {
        return Some(HairColor::RedAuburn);
    }
    let lit = vec!['S', 'D', 'Y'];
    assert(lit@ =~= seq!['S', 'D', 'Y']);
    if same_text(code, &lit) {
        return Some(HairColor::Sandy);
    }
    let lit = vec!['W', 'H', 'I'];
    assert(lit@ =~= seq!['W', 'H', 'I']);
    if same_text(code, &lit) {
        return Some(HairColor::White);
    }
    let lit = vec!['U', 'N', 'K'];
    assert(lit@ =~= seq!['U', 'N', 'K']);
    if same_text(code, &lit) {
        return Some(HairColor::Unknown);
    }
    None
}

/// The race or ethnicity of the holder.
#[derive(Debug, Clone, Copy, PartialEq, Eq, Structural)]
pub enum Race {
    AlaskanAmericanIndian,
    AsianPacificIslander,
    Black,
    HispanicOrigin,
    NonHispanic,
    Unknown,
    White,
}

/// The Race variant that an upper-case code stands for.
pub open spec fn race_of_code(code: Seq<char>) -> Option<Race> {
    if code == seq!['A', 'I'] {
        Some(Race::AlaskanAmericanIndian)
    } else if code == seq!['A', 'P'] {
        Some(Race::AsianPacificIslander)
    } else if code == seq!['B', 'K'] {
        Some(Race::Black)
    } else if code == seq!['H'] {
        Some(Race::HispanicOrigin)
    } else if code == seq!['O'] {
        Some(Race::NonHispanic)
    } else if code == seq!['U'] {
        Some(Race::Unknown)
    } else if code == seq!['W'] {
        Some(Race::White)
    } else {
        None
    }
}

/// The Race variant that an upper-case code stands for.
pub fn race_from_code(code: &Vec<char>) -> (r: Option<Race>)
    ensures
        r == race_of_code(code@),
{
    let lit = vec!['A', 'I'];
    assert(lit@ =~= seq!['A', 'I']);
    if same_text(code, &lit) {
        return Some(Race::AlaskanAmericanIndian);
    }
    let lit = vec!['A', 'P'];
    assert(lit@ =~= seq!['A', 'P']);
    if same_text(code, &lit) {
        return Some(Race::AsianPacificIslander);
    }
    let lit = vec!['B', 'K'];
    assert(lit@ =~= seq!['B', 'K']);
    if same_text(code, &lit) {
        return Some(Race::Black);
    }
    let lit = vec!['H'];
    assert(lit@ =~= seq!['H']);
    if same_text(code, &lit) {
        return Some(Race::HispanicOrigin);
    }
    let lit = vec!['O'];
    assert(lit@ =~= seq!['O']);
    if same_text(code, &lit) {
        return Some(Race::NonHispanic);
    }
    let lit = vec!['U'];
    assert(lit@ =~= seq!['U']);
    if same_text(code, &lit) {
        return Some(Race::Unknown);
    }
    let lit = vec!['W'];
    assert(lit@ =~= seq!['W']);
    if same_text(code, &lit) {
        return Some(Race::White);
    }
    None
}

/// Whether `v` holds exactly the characters of `lit`.
pub fn same_text(v: &Vec<char>, lit: &Vec<char>) -> (r: bool)
    ensures
        r == (v@ == lit@),
{
    if v.len() != lit.len() {
        return false;
    }
    let r = matches_at(v, 0, lit);
    assert(v@.subrange(0, lit.len() as int) =~= v@);
    r
}

/// A height, in the unit it was encoded in.
#[derive(Debug, Clone, Copy, PartialEq, Eq, Structural)]
pub enum Height {
    Inches(u16),
    Centimeters(u16),
}

/// A weight, in the unit it was encoded in, or as a range of kilograms with inclusive bounds.
#[derive(Debug, Clone, Copy, PartialEq, Eq, Structural)]
pub enum Weight {
    Pounds(u16),
    Kilograms(u16),
    KilogramRange { from: u8, to: u8 },
}

/// The weight range that a one-digit code stands for.
pub open spec fn weight_range_of_code(code: Seq<char>) -> Option<Weight> {
    if code == seq!['0'] {
        Some(Weight::KilogramRange { from: 0, to: 31 })
    } else if code == seq!['1'] {
        Some(Weight::KilogramRange { from: 32, to: 45 })
    } else if code == seq!['2'] {
        Some(Weight::KilogramRange { from: 46, to: 59 })
    } else if code == seq!['3'] {
        Some(Weight::KilogramRange { from: 60, to: 70 })
    } else if code == seq!['4'] {
        Some(Weight::KilogramRange { from: 71, to: 86 })
    } else if code == seq!['5'] {
        Some(Weight::KilogramRange { from: 87, to: 100 })
    } else if code == seq!['6'] {
        Some(Weight::KilogramRange { from: 101, to: 113 })
    } else if code == seq!['7'] {
        Some(Weight::KilogramRange { from: 114, to: 127 })
    } else if code == seq!['8'] {
        Some(Weight::KilogramRange { from: 128, to: 145 })
    } else if code == seq!['9'] {
        Some(Weight::KilogramRange { from: 146, to: u8::MAX })
    } else {
        None
    }
}

/// The weight range that a one-digit code stands for.
pub fn weight_range_from_code(code: &Vec<char>) -> (r: Option<Weight>)
    ensures
        r == weight_range_of_code(code@),
{
    if code.len() != 1 {
        return None;
    }
    let c = code[0];
    assert(code@ =~= seq![c]);
    let (from, to): (u8, u8) = if c == '0' {
        (0, 31)
    } else if c == '1' {
        (32, 45)
    } else if c == '2' {
        (46, 59)
    } else if c == '3' {
        (60, 70)
    } else if c == '4' {
        (71, 86)
    } else if c == '5' {
        (87, 100)
    } else if c == '6' {
        (101, 113)
    } else if c == '7' {
        (114, 127)
    } else if c == '8' {
        (128, 145)
    } else if c == '9' {
        (146, 255)
    } else {
        return None;
    };
    Some(Weight::KilogramRange { from, to })
}

/// A postal address.
#[derive(Debug, Clone)]
pub struct Address {
    pub address_1: String,
    pub address_2: Option<String>,
    pub city: String,
    pub jurisdiction_code: String,
    pub postal_code: String,
}

pub struct AddressView {
    pub address_1: Seq<char>,
    pub address_2: Option<Seq<char>>,
    pub city: Seq<char>,
    pub jurisdiction_code: Seq<char>,
    pub postal_code: Seq<char>,
}

impl View for Address {
    type V = AddressView;

    open spec fn view(&self) -> AddressView {
        AddressView {
            address_1: self.address_1@,
            address_2: opt_view(self.address_2),
            city: self.city@,
            jurisdiction_code: self.jurisdiction_code@,
            postal_code: self.postal_code@,
        }
    }
}

pub open spec fn opt_address_view(a: Option<Address>) -> Option<AddressView> {
    match a {
        Some(a) => Some(a@),
        None => None,
    }
}

/// `s` without a last character `c`, if it ends with one.
pub open spec fn strip_last(s: Seq<char>, c: char) -> Seq<char> {
    if s.len() > 0 && s.last() == c {
        s.drop_last()
    } else {
        s
    }
}

/// Whether `s` ends with `suffix`.
pub open spec fn ends_with(s: Seq<char>, suffix: Seq<char>) -> bool {
    s.len() >= suffix.len() && s.subrange(s.len() - suffix.len(), s.len() as int) == suffix
}

/// `s` cut at the first `c`, which belongs to neither part.
pub open spec fn split_once(s: Seq<char>, c: char) -> Option<(Seq<char>, Seq<char>)> {
    match find_char(s, c, 0) {
        Some(i) => Some((s.subrange(0, i), s.subrange(i + 1, s.len() as int))),
        None => None,
    }
}

/// A height of `feet` feet and `inches` inches, in inches, if it fits.
pub open spec fn total_inches(feet: u16, inches: u16) -> Option<Height> {
    if feet * 12 + inches <= u16::MAX {
        Some(Height::Inches((feet * 12 + inches) as u16))
    } else {
        None
    }
}

/// A height written as feet and inches, each maybe followed by its mark (`'` and `"`).
pub open spec fn feet_inches(feet: Seq<char>, inches: Seq<char>) -> Option<Height> {
    match (u16_of(strip_last(feet, '\'')), u16_of(strip_last(inches, '"'))) {
        (Some(f), Some(i)) => total_inches(f, i),
        _ => None,
    }
}

/// The height that lower-case height text encodes, under the first of its encodings that it
/// has the shape of; `None` if it has the shape of none of them.
pub open spec fn height_from_text(h: Seq<char>) -> Option<Option<Height>> {
    if ends_with(h, seq![' ', 'c', 'm']) {
        let rest = h.subrange(0, h.len() - 3);
        Some(
            if rest.len() >= 3 {
                match u16_of(rest.subrange(0, 3)) {
                    Some(v) => Some(Height::Centimeters(v)),
                    None => None,
                }
            } else {
                None
            },
        )
    } else if ends_with(h, seq![' ', 'i', 'n']) {
        let rest = h.subrange(0, h.len() - 3);
        Some(
            if rest.len() >= 3 {
                match u16_of(rest.subrange(0, 3)) {
                    Some(v) => Some(Height::Inches(v)),
                    None => None,
                }
            } else {
                None
            },
        )
    } else if h.len() == 3 {
        Some(
            match (u16_of(h.subrange(0, 1)), u16_of(h.subrange(1, 3))) {
                (Some(f), Some(i)) => total_inches(f, i),
                _ => None,
            },
        )
    } else {
        match split_once(h, '-') {
            Some((f, i)) => Some(feet_inches(f, i)),
            None => None,
        }
    }
}

/// The height that a payload records: from the height field when it is there, falling back on
/// the centimeter field and then on the jurisdiction-specific field when the height field has
/// none of the known shapes.
pub open spec fn height_of(d: DataView) -> Option<Height> {
    match field(d, "DAU"@) {
        None => None,
        Some(raw) => match height_from_text(lower_seq(raw)) {
            Some(h) => h,
            None => match field(d, "DAV"@) {
                Some(cm) => match u16_of(cm) {
                    Some(v) => Some(Height::Centimeters(v)),
                    None => None,
                },
                None => match subfile_of(d.subfiles, SubfileType::JurisdictionSpecific('I')) {
                    Some(els) => match element_of(els, "ZIJ"@) {
                        Some(Some(v)) => match split_once(v, '-') {
                            Some((f, i)) => feet_inches(f, i),
                            None => None,
                        },
                        _ => None,
                    },
                    None => None,
                },
            },
        },
    }
}

/// The weight that a payload records: in pounds, else in kilograms, else as a coded range.
pub open spec fn weight_of(d: DataView) -> Option<Weight> {
    match field(d, "DAW"@) {
        Some(p) => match u16_of(p) {
            Some(v) => Some(Weight::Pounds(v)),
            None => None,
        },
        None => match field(d, "DAX"@) {
            Some(k) => match u16_of(k) {
                Some(v) => Some(Weight::Kilograms(v)),
                None => None,
            },
            None => match field(d, "DCE"@) {
                Some(c) => weight_range_of_code(c),
                None => None,
            },
        },
    }
}

/// The country that a payload records, or failing that the one its height unit suggests.
pub open spec fn country_of(d: DataView) -> Option<IssuerCountry> {
    match field(d, "DCG"@) {
        Some(c) => {
            let u = upper_seq(c);
            if u == seq!['U', 'S', 'A'] {
                Some(IssuerCountry::UnitedStates)
            } else if u == seq!['C', 'A', 'N'] {
                Some(IssuerCountry::Canada)
            } else if u == seq!['M', 'E', 'X'] {
                Some(IssuerCountry::Mexico)
            } else {
                None
            }
        },
        None => match height_of(d) {
            Some(Height::Inches(_)) => Some(IssuerCountry::UnitedStates),
            Some(Height::Centimeters(_)) => Some(IssuerCountry::Canada),
            None => None,
        },
    }
}

/// The code of field `id` taken to upper case.
pub open spec fn upper_field(d: DataView, id: Seq<char>) -> Option<Seq<char>> {
    match field(d, id) {
        Some(v) => Some(upper_seq(v)),
        None => None,
    }
}

pub open spec fn address_of(d: DataView) -> Option<AddressView> {
    match (field(d, "DAG"@), field(d, "DAI"@), field(d, "DAJ"@), field(d, "DAK"@)) {
        (Some(a), Some(c), Some(j), Some(p)) => Some(
            AddressView {
                address_1: a,
                address_2: field(d, "DAH"@),
                city: c,
                jurisdiction_code: j,
                postal_code: p,
            },
        ),
        _ => None,
    }
}

/// A height written as feet `s[a0..a1]` and inches `s[b0..b1]`, each maybe followed by its
/// mark.
fn feet_inches_in(s: &Vec<char>, a0: usize, a1: usize, b0: usize, b1: usize) -> (r: Option<Height>)
    requires
        a0 <= a1 <= s.len(),
        b0 <= b1 <= s.len(),
    ensures
        r == feet_inches(s@.subrange(a0 as int, a1 as int), s@.subrange(b0 as int, b1 as int)),
{
    let fa = if a1 > a0 && s[a1 - 1] == '\'' { a1 - 1 } else { a1 };
    let ib = if b1 > b0 && s[b1 - 1] == '"' { b1 - 1 } else { b1 };
    assert(s@.subrange(a0 as int, fa as int) =~= strip_last(s@.subrange(a0 as int, a1 as int), '\''));
    assert(s@.subrange(b0 as int, ib as int) =~= strip_last(s@.subrange(b0 as int, b1 as int), '"'));
    match (parse_u16(s, a0, fa), parse_u16(s, b0, ib)) {
        (Some(f), Some(i)) => inches_of(f, i),
        _ => None,
    }
}

fn inches_of(feet: u16, inches: u16) -> (r: Option<Height>)
    ensures
        r == total_inches(feet, inches),
{
    if feet <= 5461 && (feet * 12) as u32 + inches as u32 <= 65535 {
        Some(Height::Inches(feet * 12 + inches))
    } else {
        None
    }
}

/// `s` cut at its first `c`: the position of that `c`.
fn split_point(s: &Vec<char>, c: char) -> (r: Option<usize>)
    ensures
        match split_once(s@, c) {
            Some((a, b)) => r matches Some(i) && i < s.len() && a == s@.subrange(0, i as int)
                && b == s@.subrange(i + 1, s.len() as int),
            None => r is None,
        },
{
    let r = find_char_from(s, c, 0);
    proof {
        lemma_find_char(s@, c, 0);
    }
    r
}

/// Whether `s` ends with `lit`.
fn ends_with_text(s: &Vec<char>, lit: &Vec<char>) -> (r: bool)
    ensures
        r == ends_with(s@, lit@),
{
    if s.len() < lit.len() {
        return false;
    }
    let r = matches_at(s, s.len() - lit.len(), lit);
    r
}

impl Data {
    /// Decodes a truncation code: `T`, `N` or `U`, in any case.
    pub fn parse_truncation(input: &str) -> (r: Option<Truncation>)
        ensures
            r == truncation_of_code(upper_seq(input@)),
    {
        let v = upper_all(&chars_of(input));
        truncation_from_code(&v)
    }

    /// The sex code of field DBC: `1` or `M`, `2` or `F`, `9` or `X`, in any case.
    pub fn sex(&self) -> (r: Option<Sex>)
        ensures
            r == match upper_field(self@, "DBC"@) {
                Some(c) => sex_of_code(c),
                None => None,
            },
    {
        match self.get_field("DBC") {
            Some(v) => sex_from_code(&upper_all(&v)),
            None => None,
        }
    }

    /// The eye color code of field DAY, in any case.
    pub fn eye_color(&self) -> (r: Option<EyeColor>)
        ensures
            r == match upper_field(self@, "DAY"@) {
                Some(c) => eye_color_of_code(c),
                None => None,
            },
    {
        match self.get_field("DAY") {
            Some(v) => eye_color_from_code(&upper_all(&v)),
            None => None,
        }
    }

    /// The hair color code of field DAZ, in any case.
    pub fn hair_color(&self) -> (r: Option<HairColor>)
        ensures
            r == match upper_field(self@, "DAZ"@) {
                Some(c) => hair_color_of_code(c),
                None => None,
            },
    {
        match self.get_field("DAZ") {
            Some(v) => hair_color_from_code(&upper_all(&v)),
            None => None,
        }
    }

    /// The race code of field DCL, in any case.
    pub fn race(&self) -> (r: Option<Race>)
        ensures
            r == match upper_field(self@, "DCL"@) {
                Some(c) => race_of_code(c),
                None => None,
            },
    {
        match self.get_field("DCL") {
            Some(v) => race_from_code(&upper_all(&v)),
            None => None,
        }
    }

    /// The weight: in pounds (DAW), else in kilograms (DAX), else as a coded range (DCE).
    pub fn weight(&self) -> (r: Option<Weight>)
        ensures
            r == weight_of(self@),
    {
        match self.get_field("DAW") {
            Some(p) => match parse_u16(&p, 0, p.len()) {
                Some(v) => {
                    assert(p@.subrange(0, p.len() as int) =~= p@);
                    Some(Weight::Pounds(v))
                },
                None => {
                    assert(p@.subrange(0, p.len() as int) =~= p@);
                    None
                },
            },
            None => match self.get_field("DAX") {
                Some(k) => {
                    assert(k@.subrange(0, k.len() as int) =~= k@);
                    match parse_u16(&k, 0, k.len()) {
                        Some(v) => Some(Weight::Kilograms(v)),
                        None => None,
                    }
                },
                None => match self.get_field("DCE") {
                    Some(c) => weight_range_from_code(&c),
                    None => None,
                },
            },
        }
    }

    /// The height, by the first encoding of the height field that matches its shape.
    fn height_from_field(h: &Vec<char>) -> (r: Option<Option<Height>>)
        ensures
            r == height_from_text(h@),
    {
        let n = h.len();
        let cm = vec![' ', 'c', 'm'];
        let inch = vec![' ', 'i', 'n'];
        assert(cm@ =~= seq![' ', 'c', 'm']);
        assert(inch@ =~= seq![' ', 'i', 'n']);
        if ends_with_text(h, &cm) {
            if n - 3 < 3 {
                return Some(None);
            }
            assert(h@.subrange(0, n - 3).subrange(0, 3) =~= h@.subrange(0, 3));
            return Some(
                match parse_u16(h, 0, 3) {
                    Some(v) => Some(Height::Centimeters(v)),
                    None => None,
                },
            );
        }
        if ends_with_text(h, &inch) {
            if n - 3 < 3 {
                return Some(None);
            }
            assert(h@.subrange(0, n - 3).subrange(0, 3) =~= h@.subrange(0, 3));
            return Some(
                match parse_u16(h, 0, 3) {
                    Some(v) => Some(Height::Inches(v)),
                    None => None,
                },
            );
        }
        if n == 3 {
            return Some(
                match (parse_u16(h, 0, 1), parse_u16(h, 1, 3)) {
                    (Some(f), Some(i)) => inches_of(f, i),
                    _ => None,
                },
            );
        }
        match split_point(h, '-') {
            Some(i) => Some(feet_inches_in(h, 0, i, i + 1, n)),
            None => None,
        }
    }

    /// The height: from the height field when it is there, falling back on the centimeter
    /// field and then on the jurisdiction-specific field when the height field has none of the
    /// known shapes.
    pub fn height(&self) -> (r: Option<Height>)
        ensures
            r == height_of(self@),
    {
        let raw = match self.get_field("DAU") {
            Some(v) => v,
            None => {
                return None;
            },
        };
        match Self::height_from_field(&lower_all(&raw)) {
            Some(h) => {
                return h;
            },
            None => {},
        }
        match self.get_field("DAV") {
            Some(cm) => {
                assert(cm@.subrange(0, cm.len() as int) =~= cm@);
                return match parse_u16(&cm, 0, cm.len()) {
                    Some(v) => Some(Height::Centimeters(v)),
                    None => None,
                };
            },
            None => {},
        }
        match self.subfile(SubfileType::JurisdictionSpecific('I')) {
            Some(els) => match Self::element(els, "ZIJ") {
                Some(Some(v)) => {
                    let c = chars_of(v.as_str());
                    match split_point(&c, '-') {
                        Some(i) => feet_inches_in(&c, 0, i, i + 1, c.len()),
                        None => None,
                    }
                },
                _ => None,
            },
            None => None,
        }
    }

    /// The issuing country: from the country field when there is one, else as the unit of the
    /// height suggests (inches for the United States, centimeters for Canada).
    pub fn country(&self) -> (r: Option<IssuerCountry>)
        ensures
            r == country_of(self@),
    {
        match self.get_field("DCG") {
            Some(c) => {
                let u = upper_all(&c);
                let usa = vec!['U', 'S', 'A'];
                let can = vec!['C', 'A', 'N'];
                let mex = vec!['M', 'E', 'X'];
                assert(usa@ =~= seq!['U', 'S', 'A']);
                assert(can@ =~= seq!['C', 'A', 'N']);
                assert(mex@ =~= seq!['M', 'E', 'X']);
                if same_text(&u, &usa) {
                    Some(IssuerCountry::UnitedStates)
                } else if same_text(&u, &can) {
                    Some(IssuerCountry::Canada)
                } else if same_text(&u, &mex) {
                    Some(IssuerCountry::Mexico)
                } else {
                    None
                }
            },
            None => match self.height() {
                Some(Height::Inches(_)) => Some(IssuerCountry::UnitedStates),
                Some(Height::Centimeters(_)) => Some(IssuerCountry::Canada),
                None => None,
            },
        }
    }

    /// The address, when its street, city, jurisdiction and postal code are all there.
    pub fn address(&self) -> (r: Option<Address>)
        ensures
            opt_address_view(r) == address_of(self@),
    {
        let address_1 = match self.get_field_owned("DAG") {
            Some(v) => v,
            None => {
                return None;
            },
        };
        let address_2 = self.get_field_owned("DAH");
        let city = match self.get_field_owned("DAI") {
            Some(v) => v,
            None => {
                return None;
            },
        };
        let jurisdiction_code = match self.get_field_owned("DAJ") {
            Some(v) => v,
            None => {
                return None;
            },
        };
        let postal_code = match self.get_field_owned("DAK") {
            Some(v) => v,
            None => {
                return None;
            },
        };
        Some(Address { address_1, address_2, city, jurisdiction_code, postal_code })
    }

    /// The customer id number (DAQ).
    pub fn customer_id_number(&self) -> (r: Option<String>)
        ensures
            opt_view(r) == field(self@, "DAQ"@),
    {
        self.get_field_owned("DAQ")
    }

    /// The document discriminator (DCF).
    pub fn document_discriminator(&self) -> (r: Option<String>)
        ensures
            opt_view(r) == field(self@, "DCF"@),
    {
        self.get_field_owned("DCF")
    }

    /// The place of birth (DCI).
    pub fn place_of_birth(&self) -> (r: Option<String>)
        ensures
            opt_view(r) == field(self@, "DCI"@),
    {
        self.get_field_owned("DCI")
    }

    /// The audit information (DCJ).
    pub fn audit_information(&self) -> (r: Option<String>)
        ensures
            opt_view(r) == field(self@, "DCJ"@),
    {
        self.get_field_owned("DCJ")
    }

    /// The inventory control number (DCK).
    pub fn inventory_control_information(&self) -> (r: Option<String>)
        ensures
            opt_view(r) == field(self@, "DCK"@),
    {
        self.get_field_owned("DCK")
    }
}


/// A code outside the known codes of an enumerated field decodes to nothing.
pub proof fn lemma_unknown_codes_absent(c: Seq<char>)
    ensures
        !set![seq!['1'], seq!['M'], seq!['2'], seq!['F'], seq!['9'], seq!['X']].contains(c)
            ==> sex_of_code(c) is None,
        !set![
            seq!['B', 'L', 'K'], seq!['B', 'L', 'U'], seq!['B', 'R', 'O'], seq!['D', 'I', 'C'],
            seq!['G', 'R', 'N'], seq!['G', 'R', 'Y'], seq!['H', 'A', 'Z'], seq!['M', 'A', 'R'],
            seq!['P', 'N', 'K'], seq!['U', 'N', 'K']
        ].contains(c) ==> eye_color_of_code(c) is None,
        !set![
            seq!['B', 'A', 'L'], seq!['B', 'L', 'K'], seq!['B', 'L', 'N'], seq!['B', 'R', 'O'],
            seq!['G', 'R', 'Y'], seq!['R', 'E', 'D'], seq!['S', 'D', 'Y'], seq!['W', 'H', 'I'],
            seq!['U', 'N', 'K']
        ].contains(c) ==> hair_color_of_code(c) is None,
        !set![
            seq!['A', 'I'], seq!['A', 'P'], seq!['B', 'K'], seq!['H'], seq!['O'], seq!['U'],
            seq!['W']
        ].contains(c) ==> race_of_code(c) is None,
        !set![seq!['T'], seq!['N'], seq!['U']].contains(c) ==> truncation_of_code(c) is None,
{
}

} // verus!
