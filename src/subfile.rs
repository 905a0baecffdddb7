//! Subfiles: their types, the grammar of their data elements, and how a subfile's characters
//! are cut out of the payload.

use vstd::prelude::*;
use crate::text::{
    chars_of, copy_range, equals_ignoring_case, is_alpha, is_alpha_char, matches_at, string_of,
    slice_of, trim_range, trimmed, upper_seq,
};

verus! {

/// The type of a subfile: one of the three document types, or a jurisdiction-specific
/// subfile named by one character.
#[derive(Debug, Clone, Copy, PartialEq, Eq, Hash, Structural)]
pub enum SubfileType {
    DL,
    EN,
    ID,
    JurisdictionSpecific(char),
}

/// A subfile type tag that names no known type.
#[derive(Debug, Clone)]
pub struct UnknownSubfileType {
    pub data: String,
}

/// Where a subfile lies in the payload, as declared by the header.
#[derive(Debug, Clone, Copy, PartialEq, Eq, Structural)]
pub struct SubfileDesignator {
    pub subfile_type: SubfileType,
    pub offset: u32,
    pub length: u32,
}

/// One data element: a three-letter id and its value, absent when none was encoded.
#[derive(Debug, Clone, PartialEq, Eq)]
pub struct DataElement {
    pub id: String,
    pub value: Option<String>,
}

/// The data elements of one subfile, in the order in which they appear.
#[derive(Debug, Clone)]
pub struct Subfile {
    pub subfile_type: SubfileType,
    pub elements: Vec<DataElement>,
}

pub struct ElementView {
    pub id: Seq<char>,
    pub value: Option<Seq<char>>,
}

pub struct SubfileView {
    pub subfile_type: SubfileType,
    pub elements: Seq<ElementView>,
}

pub open spec fn opt_view(o: Option<String>) -> Option<Seq<char>> {
    match o {
        Some(s) => Some(s@),
        None => None,
    }
}

impl View for DataElement {
    type V = ElementView;

    open spec fn view(&self) -> ElementView {
        ElementView { id: self.id@, value: opt_view(self.value) }
    }
}

impl View for Subfile {
    type V = SubfileView;

    open spec fn view(&self) -> SubfileView {
        SubfileView {
            subfile_type: self.subfile_type,
            elements: self.elements@.map_values(|e: DataElement| e@),
        }
    }
}

/// The two characters that name a subfile type in a payload.
pub open spec fn tag_of(t: SubfileType) -> Seq<char> {
    match t {
        SubfileType::DL => seq!['D', 'L'],
        SubfileType::EN => seq!['E', 'N'],
        SubfileType::ID => seq!['I', 'D'],
        SubfileType::JurisdictionSpecific(c) => seq!['Z', c],
    }
}

/// The subfile type that a tag names: `DL`, `EN`, `ID`, or `Z` followed by at least one
/// character, the first of which names a jurisdiction-specific subfile.
pub open spec fn type_of_tag(s: Seq<char>) -> Option<SubfileType> {
    if s == seq!['D', 'L'] {
        Some(SubfileType::DL)
    } else if s == seq!['E', 'N'] {
        Some(SubfileType::EN)
    } else if s == seq!['I', 'D'] {
        Some(SubfileType::ID)
    } else if s.len() >= 2 && s[0] == 'Z' {
        Some(SubfileType::JurisdictionSpecific(s[1]))
    } else {
        None
    }
}

pub open spec fn is_document_type(t: SubfileType) -> bool {
    !(t is JurisdictionSpecific)
}

impl SubfileType {
    /// The subfile type that a tag names.
    pub fn parse_tag(s: &str) -> (r: Result<SubfileType, UnknownSubfileType>)
        ensures
            match r {
                Ok(t) => type_of_tag(s@) == Some(t),
                Err(e) => type_of_tag(s@) is None && e.data@ == s@,
            },
    {
        let v = chars_of(s);
        let t = type_of_chars(&v, 0, v.len());
        assert(v@.subrange(0, v.len() as int) =~= v@);
        match t {
            Some(t) => Ok(t),
            None => Err(UnknownSubfileType { data: s.to_owned() }),
        }
    }

    /// The two characters that name this type in a payload.
    pub fn to_tag(&self) -> (r: String)
        ensures
            r@ == tag_of(*self),
    {
        let v = self.tag_chars();
        string_of(v.as_slice())
    }

    pub fn tag_chars(&self) -> (r: Vec<char>)
        ensures
            r@ == tag_of(*self),
    {
        let r = match self {
            SubfileType::DL => vec!['D', 'L'],
            SubfileType::EN => vec!['E', 'N'],
            SubfileType::ID => vec!['I', 'D'],
            SubfileType::JurisdictionSpecific(c) => vec!['Z', *c],
        };
        assert(r@ =~= tag_of(*self));
        r
    }
}

impl std::str::FromStr for SubfileType {
    type Err = UnknownSubfileType;

    fn from_str(s: &str) -> Result<SubfileType, UnknownSubfileType> {
        SubfileType::parse_tag(s)
    }
}

impl UnknownSubfileType {
    /// A description of the error.
    pub fn message(&self) -> (r: String)
        ensures
            r@ == "Subfile had unknown type: "@ + self.data@,
    {
        let mut m = String::from_str("Subfile had unknown type: ");
        m.append(self.data.as_str());
        m
    }
}

/// The subfile type named by `s[lo..hi]`.
pub fn type_of_chars(s: &Vec<char>, lo: usize, hi: usize) -> (r: Option<SubfileType>)
    requires
        lo <= hi <= s.len(),
    ensures
        r == type_of_tag(s@.subrange(lo as int, hi as int)),
{
    let ghost t = s@.subrange(lo as int, hi as int);
    if hi - lo == 2 {
        let a = s[lo];
        let b = s[lo + 1];
        assert(t =~= seq![a, b]);
        if a == 'D' && b == 'L' {
            return Some(SubfileType::DL);
        } else if a == 'E' && b == 'N' {
            return Some(SubfileType::EN);
        } else if a == 'I' && b == 'D' {
            return Some(SubfileType::ID);
        }
    }
    if hi - lo >= 2 && s[lo] == 'Z' {
        proof {
            if t.len() == 2 {
                assert(t != seq!['D', 'L']);
                assert(t != seq!['E', 'N']);
                assert(t != seq!['I', 'D']);
            }
        }
        return Some(SubfileType::JurisdictionSpecific(s[lo + 1]));
    }
    proof {
        if t.len() != 2 {
            assert(seq!['D', 'L'].len() == 2);
            assert(seq!['E', 'N'].len() == 2);
            assert(seq!['I', 'D'].len() == 2);
        }
    }
    None
}

/// Whether `c` ends a data element.
pub open spec fn is_terminator(c: char) -> bool {
    c == '\r' || c == '\n'
}

/// How many characters of `s` come before the first terminator (all of them if none does).
pub open spec fn line_len(s: Seq<char>) -> nat
    decreases s.len(),
{
    if s.len() == 0 || is_terminator(s[0]) {
        0
    } else {
        1 + line_len(s.drop_first())
    }
}

/// Whether a value stands for "no value": `NONE` or `unavl`, in any case.
pub open spec fn is_placeholder(t: Seq<char>) -> bool {
    upper_seq(t) == upper_seq(seq!['N', 'O', 'N', 'E']) || upper_seq(t) == upper_seq(
        seq!['u', 'n', 'a', 'v', 'l'],
    )
}

/// The value that raw element text encodes: trimmed, and absent when empty or a placeholder.
pub open spec fn value_of(raw: Seq<char>) -> Option<Seq<char>> {
    let t = trimmed(raw);
    if t.len() == 0 || is_placeholder(t) {
        None
    } else {
        Some(t)
    }
}

/// The data element at the start of `s`, with the number of characters it takes up: three
/// letters of id, the value up to the first terminator, and that terminator if there is one.
pub open spec fn element_at(s: Seq<char>) -> Option<(ElementView, nat)> {
    if s.len() >= 3 && is_alpha(s[0]) && is_alpha(s[1]) && is_alpha(s[2]) {
        let rest = s.subrange(3, s.len() as int);
        let n = line_len(rest);
        let used = if n < rest.len() { 3 + n + 1 } else { 3 + n };
        Some(
            (
                ElementView { id: s.subrange(0, 3), value: value_of(rest.subrange(0, n as int)) },
                used as nat,
            ),
        )
    } else {
        None
    }
}

/// The data elements that make up all of `s`, or `None` if some part of it is not one.
pub open spec fn elements_of(s: Seq<char>) -> Option<Seq<ElementView>>
    decreases s.len(),
{
    if s.len() == 0 {
        Some(Seq::empty())
    } else {
        match element_at(s) {
            None => None,
            Some((e, used)) => {
                let k = if used <= s.len() { used } else { s.len() };
                match elements_of(s.subrange(k as int, s.len() as int)) {
                    Some(rest) => Some(seq![e] + rest),
                    None => None,
                }
            },
        }
    }
}

/// The characters of a subfile: from `offset`, at most `length` of them, both clamped to the
/// payload.
pub open spec fn window(s: Seq<char>, d: SubfileDesignator) -> Seq<char> {
    let from = if d.offset <= s.len() { d.offset as int } else { s.len() as int };
    let room = s.len() - from;
    let to = if d.length <= room { from + d.length } else { s.len() as int };
    s.subrange(from, to)
}

/// The window without a leading repetition of a document type's tag.
pub open spec fn body_of(w: Seq<char>, t: SubfileType) -> Seq<char> {
    if is_document_type(t) && w.len() >= 2 && w.subrange(0, 2) == tag_of(t) {
        w.subrange(2, w.len() as int)
    } else {
        w
    }
}

/// The data elements of the subfile that `d` designates in the payload `s`.
pub open spec fn subfile_elements(s: Seq<char>, d: SubfileDesignator) -> Option<Seq<ElementView>> {
    elements_of(body_of(window(s, d), d.subfile_type))
}

proof fn lemma_line_len_bound(s: Seq<char>)
    ensures
        line_len(s) <= s.len(),
        line_len(s) < s.len() ==> is_terminator(s[line_len(s) as int]),
        forall|j: int| 0 <= j < line_len(s) ==> !is_terminator(#[trigger] s[j]),
    decreases s.len(),
{
    if s.len() > 0 && !is_terminator(s[0]) {
        lemma_line_len_bound(s.drop_first());
        assert forall|j: int| 0 <= j < line_len(s) implies !is_terminator(#[trigger] s[j]) by {
            if j > 0 {
                assert(s[j] == s.drop_first()[j - 1]);
            }
        }
    }
}

/// Reads the data element that starts at `pos`, within `text[..end]`.
pub fn element_at_pos(text: &Vec<char>, pos: usize, end: usize) -> (r: Option<(DataElement, usize)>)
    requires
        pos <= end <= text.len(),
    ensures
        match element_at(text@.subrange(pos as int, end as int)) {
            None => r is None,
            Some((e, used)) => match r {
                Some((el, next)) => el@ == e && next == pos + used,
                None => false,
            },
        },
{
    let ghost s = text@.subrange(pos as int, end as int);
    if end - pos < 3 || !is_alpha_char(text[pos]) || !is_alpha_char(text[pos + 1])
        || !is_alpha_char(text[pos + 2]) {
        return None;
    }
    let start = pos + 3;
    let ghost rest = s.subrange(3, s.len() as int);
    assert(rest =~= text@.subrange(start as int, end as int));
    let mut j: usize = start;
    while j < end && text[j] != '\r' && text[j] != '\n'
        invariant
            start <= j <= end <= text.len(),
            rest == text@.subrange(start as int, end as int),
            line_len(rest) == (j - start) + line_len(text@.subrange(j as int, end as int)),
        decreases end - j,
    {
        assert(text@.subrange(j as int, end as int).drop_first() =~= text@.subrange(j + 1, end as int));
        j = j + 1;
    }
    assert(line_len(rest) == j - start);
    let (a, b) = trim_range(text, start, j);
    assert(rest.subrange(0, (j - start) as int) =~= text@.subrange(start as int, j as int));
    let id = string_of(slice_of(text, pos, start));
    assert(s.subrange(0, 3) =~= text@.subrange(pos as int, start as int));
    let value = if a == b {
        None
    } else {
        let t = copy_range(text, a, b);
        let none = vec!['N', 'O', 'N', 'E'];
        let unavl = vec!['u', 'n', 'a', 'v', 'l'];
        if equals_ignoring_case(&t, &none) || equals_ignoring_case(&t, &unavl) {
            None
        } else {
            Some(string_of(t.as_slice()))
        }
    };
    let next = if j < end { j + 1 } else { j };
    Some((DataElement { id, value }, next))
}

/// Reads all of `text[pos..end]` as data elements.
pub fn elements_in(text: &Vec<char>, pos: usize, end: usize) -> (r: Option<Vec<DataElement>>)
    requires
        pos <= end <= text.len(),
    ensures
        match elements_of(text@.subrange(pos as int, end as int)) {
            None => r is None,
            Some(els) => r is Some && r->0@.map_values(|e: DataElement| e@) == els,
        },
{
    let mut out: Vec<DataElement> = Vec::new();
    let mut p: usize = pos;
    while p < end
        invariant
            pos <= p <= end <= text.len(),
            elements_of(text@.subrange(pos as int, end as int)) == match elements_of(
                text@.subrange(p as int, end as int),
            ) {
                Some(rest) => Some(out@.map_values(|e: DataElement| e@) + rest),
                None => None,
            },
        decreases end - p,
    {
        let ghost s = text@.subrange(p as int, end as int);
        match element_at_pos(text, p, end) {
            None => {
                return None;
            },
            Some((e, next)) => {
                proof {
                    let (_, used) = element_at(s)->0;
                    assert(used <= s.len()) by {
                        lemma_line_len_bound(s.subrange(3, s.len() as int));
                    }
                    assert(s.subrange(used as int, s.len() as int) =~= text@.subrange(
                        next as int,
                        end as int,
                    ));
                }
                let ghost before = out@.map_values(|e: DataElement| e@);
                out.push(e);
                proof {
                    assert(out@.map_values(|e: DataElement| e@) =~= before.push(e@));
                    match elements_of(text@.subrange(next as int, end as int)) {
                        Some(rest) => {
                            assert(before + (seq![e@] + rest) =~= before.push(e@) + rest);
                        },
                        None => {},
                    }
                }
                p = next;
            },
        }
    }
    assert(text@.subrange(p as int, end as int) =~= Seq::<char>::empty());
    assert(out@.map_values(|e: DataElement| e@) + Seq::<ElementView>::empty() =~= out@.map_values(
        |e: DataElement| e@,
    ));
    Some(out)
}

/// Reads the subfile that `designator` places in `payload`: its window, clamped to the
/// payload, without a leading repetition of its tag, read as data elements.
pub fn parse_subfile(payload: &Vec<char>, designator: &SubfileDesignator) -> (r: Option<Subfile>)
    ensures
        match subfile_elements(payload@, *designator) {
            None => r is None,
            Some(els) => r is Some && r->0@ == (SubfileView {
                subfile_type: designator.subfile_type,
                elements: els,
            }),
        },
{
    let len = payload.len();
    let from: usize = if (designator.offset as usize) <= len {
        designator.offset as usize
    } else {
        len
    };
    let room = len - from;
    let to: usize = if (designator.length as usize) <= room {
        from + designator.length as usize
    } else {
        len
    };
    let ghost w = payload@.subrange(from as int, to as int);
    assert(w == window(payload@, *designator));
    let t = designator.subfile_type;
    let mut body_from = from;
    match t {
        SubfileType::JurisdictionSpecific(_) => {},
        _ => {
            let tag = t.tag_chars();
            if to - from >= 2 && matches_at(payload, from, &tag) {
                body_from = from + 2;
                assert(w.subrange(0, 2) =~= payload@.subrange(from as int, from + 2));
            } else {
                proof {
                    if w.len() >= 2 {
                        assert(w.subrange(0, 2) =~= payload@.subrange(from as int, from + 2));
                    }
                }
            }
        },
    }
    assert(payload@.subrange(body_from as int, to as int) =~= body_of(w, t));
    match elements_in(payload, body_from, to) {
        None => None,
        Some(elements) => {
            let sub = Subfile { subfile_type: t, elements };
            assert(sub@.elements =~= elements@.map_values(|e: DataElement| e@));
            Some(sub)
        },
    }
}

/// Reads the data element at the start of `input`, and returns the text after it.
pub fn parse_data_element(input: &str, _subfile_type: SubfileType) -> (r: Option<(String, DataElement)>)
    ensures
        match element_at(input@) {
            None => r is None,
            Some((e, used)) => match r {
                Some((rest, el)) => el@ == e && rest@ == input@.subrange(
                    used as int,
                    input@.len() as int,
                ),
                None => false,
            },
        },
{
    let v = chars_of(input);
    assert(v@.subrange(0, v.len() as int) =~= input@);
    match element_at_pos(&v, 0, v.len()) {
        None => None,
        Some((e, next)) => {
            proof {
                lemma_line_len_bound(input@.subrange(3, input@.len() as int));
            }
            let rest = string_of(slice_of(&v, next, v.len()));
            Some((rest, e))
        },
    }
}


/// A subfile whose offset and length reach past the end of the payload is read from what the
/// payload holds: its window runs from the offset, or the end if the offset is past it, to the
/// end of the payload.
pub proof fn lemma_window_clamped(s: Seq<char>, d: SubfileDesignator)
    requires
        d.offset + d.length > s.len(),
    ensures
        window(s, d) == s.subrange(
            if d.offset <= s.len() { d.offset as int } else { s.len() as int },
            s.len() as int,
        ),
        subfile_elements(s, d) == elements_of(body_of(window(s, d), d.subfile_type)),
{
}

} // verus!
