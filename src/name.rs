//! The holder's name, whose encoding depends on the version of the standard.

use vstd::prelude::*;
use crate::data::{Data, DataView, field};
use crate::fields::{Truncation, truncation_of_code, truncation_from_code};
use crate::header::{find_char, find_char_from, lemma_find_char};
use crate::subfile::opt_view;
use crate::text::{join_pieces, join_with, split_on, split_pieces, upper_all, upper_seq, views_of};

verus! {

/// A name, as its parts were encoded.
#[derive(Debug, Clone)]
pub struct Name {
    pub family: String,
    pub first: String,
    pub middle: Option<String>,
    pub prefix: Option<String>,
    pub suffix: Option<String>,
    pub alias_family: Option<String>,
    pub alias_given: Option<String>,
    pub alias_suffix: Option<String>,
    pub family_truncation: Option<Truncation>,
    pub first_truncation: Option<Truncation>,
    pub middle_truncation: Option<Truncation>,
}

pub struct NameView {
    pub family: Seq<char>,
    pub first: Seq<char>,
    pub middle: Option<Seq<char>>,
    pub prefix: Option<Seq<char>>,
    pub suffix: Option<Seq<char>>,
    pub alias_family: Option<Seq<char>>,
    pub alias_given: Option<Seq<char>>,
    pub alias_suffix: Option<Seq<char>>,
    pub family_truncation: Option<Truncation>,
    pub first_truncation: Option<Truncation>,
    pub middle_truncation: Option<Truncation>,
}

impl View for Name {
    type V = NameView;

    open spec fn view(&self) -> NameView {
        NameView {
            family: self.family@,
            first: self.first@,
            middle: opt_view(self.middle),
            prefix: opt_view(self.prefix),
            suffix: opt_view(self.suffix),
            alias_family: opt_view(self.alias_family),
            alias_given: opt_view(self.alias_given),
            alias_suffix: opt_view(self.alias_suffix),
            family_truncation: self.family_truncation,
            first_truncation: self.first_truncation,
            middle_truncation: self.middle_truncation,
        }
    }
}

pub open spec fn opt_name_view(n: Option<Name>) -> Option<NameView> {
    match n {
        Some(n) => Some(n@),
        None => None,
    }
}

/// `s`, unless it is empty.
pub open spec fn nonempty(s: Seq<char>) -> Option<Seq<char>> {
    if s.len() == 0 {
        None
    } else {
        Some(s)
    }
}

/// The character that separates the parts of a combined name: a comma if there is one,
/// else a space.
pub open spec fn separator_of(s: Seq<char>) -> char {
    if find_char(s, ',', 0) is Some {
        ','
    } else {
        ' '
    }
}

/// The parts of a combined name.
pub open spec fn name_parts(s: Seq<char>) -> Seq<Seq<char>> {
    split_on(s, separator_of(s))
}

/// The parts from `k` on, joined by single spaces, unless that leaves nothing.
pub open spec fn rest_of(parts: Seq<Seq<char>>, k: int) -> Option<Seq<char>> {
    nonempty(join_with(parts.subrange(k, parts.len() as int), seq![' ']))
}

pub open spec fn truncation_field(d: DataView, id: Seq<char>) -> Option<Truncation> {
    match field(d, id) {
        Some(c) => truncation_of_code(upper_seq(c)),
        None => None,
    }
}

pub open spec fn plain_name(
    family: Seq<char>,
    first: Seq<char>,
    middle: Option<Seq<char>>,
    prefix: Option<Seq<char>>,
    suffix: Option<Seq<char>>,
) -> NameView {
    NameView {
        family,
        first,
        middle,
        prefix,
        suffix,
        alias_family: None,
        alias_given: None,
        alias_suffix: None,
        family_truncation: None,
        first_truncation: None,
        middle_truncation: None,
    }
}

/// The name under versions up to 1: discrete family, first, middle, suffix and prefix fields
/// when the family field is there; else one combined field, family name first.
pub open spec fn name_up_to_v1(d: DataView) -> Option<NameView> {
    match field(d, "DAB"@) {
        Some(family) => match field(d, "DAC"@) {
            Some(first) => Some(
                plain_name(family, first, field(d, "DAD"@), field(d, "DAF"@), field(d, "DAE"@)),
            ),
            None => None,
        },
        None => match field(d, "DAA"@) {
            Some(full) => {
                let parts = name_parts(full);
                if parts.len() >= 2 {
                    Some(plain_name(parts[0], parts[1], rest_of(parts, 2), None, None))
                } else {
                    None
                }
            },
            None => None,
        },
    }
}

/// The name under versions 2 and 3: given names combined in one field, first name first;
/// the family name in its own field.
pub open spec fn name_v2_v3(d: DataView) -> Option<NameView> {
    match field(d, "DCT"@) {
        Some(given) => {
            let parts = name_parts(given);
            match field(d, "DCS"@) {
                Some(family) => Some(plain_name(family, parts[0], rest_of(parts, 1), None, None)),
                None => None,
            }
        },
        None => None,
    }
}

/// The name from version 4 on: every part in its own field, with aliases and truncation
/// status.
pub open spec fn name_from_v4(d: DataView) -> Option<NameView> {
    match (field(d, "DCS"@), field(d, "DAC"@)) {
        (Some(family), Some(first)) => Some(
            NameView {
                family,
                first,
                middle: field(d, "DAD"@),
                prefix: None,
                suffix: field(d, "DCU"@),
                alias_family: field(d, "DBN"@),
                alias_given: field(d, "DBG"@),
                alias_suffix: field(d, "DBS"@),
                family_truncation: truncation_field(d, "DDE"@),
                first_truncation: truncation_field(d, "DDF"@),
                middle_truncation: truncation_field(d, "DDG"@),
            },
        ),
        _ => None,
    }
}

/// The name, by the rules of the payload's version.
pub open spec fn name_of(d: DataView) -> Option<NameView> {
    if d.header.version_number <= 1 {
        name_up_to_v1(d)
    } else if d.header.version_number <= 3 {
        name_v2_v3(d)
    } else {
        name_from_v4(d)
    }
}

/// `input`, unless it is empty.
pub fn filter_empty_str(input: String) -> (r: Option<String>)
    ensures
        opt_view(r) == nonempty(input@),
{
    if input.as_str().is_empty() {
        None
    } else {
        Some(input)
    }
}

/// The parts of a combined name.
fn split_name(s: &Vec<char>) -> (r: Vec<String>)
    ensures
        views_of(r@) == name_parts(s@),
        r.len() >= 1,
{
    let sep = if find_char_from(s, ',', 0).is_some() {
        ','
    } else {
        ' '
    };
    let parts = split_pieces(s, 0, s.len(), sep);
    assert(s@.subrange(0, s.len() as int) =~= s@);
    proof {
        crate::text::lemma_split_nonempty(s@, sep);
    }
    parts
}

/// The parts from `k` on, joined by single spaces, unless that leaves nothing.
fn rest_joined(parts: &Vec<String>, k: usize) -> (r: Option<String>)
    requires
        k <= parts.len(),
    ensures
        opt_view(r) == rest_of(views_of(parts@), k as int),
{
    let mut rest: Vec<String> = Vec::new();
    let mut i: usize = k;
    while i < parts.len()
        invariant
            k <= i <= parts.len(),
            views_of(rest@) == views_of(parts@).subrange(k as int, i as int),
        decreases parts.len() - i,
    {
        let p = parts[i].clone();
        let ghost before = rest@;
        rest.push(p);
        assert(views_of(rest@) =~= views_of(before).push(p@));
        i = i + 1;
        assert(views_of(rest@) =~= views_of(parts@).subrange(k as int, i as int));
    }
    let joined = join_pieces(&rest, " ");
    proof {
        reveal_strlit(" ");
        assert(" "@ =~= seq![' ']);
    }
    filter_empty_str(joined)
}

fn plain(family: String, first: String, middle: Option<String>, prefix: Option<String>, suffix: Option<String>) -> (r: Name)
    ensures
        r@ == plain_name(family@, first@, opt_view(middle), opt_view(prefix), opt_view(suffix)),
{
    Name {
        family,
        first,
        middle,
        prefix,
        suffix,
        alias_family: None,
        alias_given: None,
        alias_suffix: None,
        family_truncation: None,
        first_truncation: None,
        middle_truncation: None,
    }
}

impl Data {
    fn truncation_field(&self, id: &str) -> (r: Option<Truncation>)
        ensures
            r == truncation_field(self@, id@),
    {
        match self.get_field(id) {
            Some(c) => truncation_from_code(&upper_all(&c)),
            None => None,
        }
    }

    fn name_up_to_v1(&self) -> (r: Option<Name>)
        ensures
            opt_name_view(r) == name_up_to_v1(self@),
    {
        match self.get_field_owned("DAB") {
            Some(family) => {
                let first = match self.get_field_owned("DAC") {
                    Some(f) => f,
                    None => {
                        return None;
                    },
                };
                let middle = self.get_field_owned("DAD");
                let suffix = self.get_field_owned("DAE");
                let prefix = self.get_field_owned("DAF");
                Some(plain(family, first, middle, prefix, suffix))
            },
            None => {
                let full = match self.get_field("DAA") {
                    Some(f) => f,
                    None => {
                        return None;
                    },
                };
                let parts = split_name(&full);
                if parts.len() < 2 {
                    return None;
                }
                let middle = rest_joined(&parts, 2);
                Some(plain(parts[0].clone(), parts[1].clone(), middle, None, None))
            },
        }
    }

    fn name_v2_v3(&self) -> (r: Option<Name>)
        ensures
            opt_name_view(r) == name_v2_v3(self@),
    {
        let given = match self.get_field("DCT") {
            Some(g) => g,
            None => {
                return None;
            },
        };
        let parts = split_name(&given);
        let middle = rest_joined(&parts, 1);
        let first = parts[0].clone();
        match self.get_field_owned("DCS") {
            Some(family) => Some(plain(family, first, middle, None, None)),
            None => None,
        }
    }

    fn name_from_v4(&self) -> (r: Option<Name>)
        ensures
            opt_name_view(r) == name_from_v4(self@),
    {
        let family = match self.get_field_owned("DCS") {
            Some(f) => f,
            None => {
                return None;
            },
        };
        let first = match self.get_field_owned("DAC") {
            Some(f) => f,
            None => {
                return None;
            },
        };
        Some(
            Name {
                family,
                first,
                middle: self.get_field_owned("DAD"),
                prefix: None,
                suffix: self.get_field_owned("DCU"),
                alias_family: self.get_field_owned("DBN"),
                alias_given: self.get_field_owned("DBG"),
                alias_suffix: self.get_field_owned("DBS"),
                family_truncation: self.truncation_field("DDE"),
                first_truncation: self.truncation_field("DDF"),
                middle_truncation: self.truncation_field("DDG"),
            },
        )
    }

    /// The holder's name, by the rules of the payload's version.
    pub fn name(&self) -> (r: Option<Name>)
        ensures
            opt_name_view(r) == name_of(self@),
    {
        if self.header.version_number <= 1 {
            self.name_up_to_v1()
        } else if self.header.version_number <= 3 {
            self.name_v2_v3()
        } else {
            self.name_from_v4()
        }
    }
}

} // verus!
