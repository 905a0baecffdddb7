//! The parsed payload: its header and the data elements of each subfile, and the lookup of a
//! field across the document subfiles.

use vstd::prelude::*;
use crate::header::{HeaderView, Header, ParseError, read_header, spec_header, lemma_header_positions};
use crate::subfile::{
    ElementView, Subfile, SubfileDesignator, SubfileType, SubfileView, DataElement, opt_view,
    parse_subfile, subfile_elements,
};
use crate::text::{chars_of, copy_range, string_of, trim_range, trimmed};

verus! {

/// A parsed payload. A subfile type may occur more than once in `subfiles`; the last
/// occurrence counts, as does the last occurrence of an element id within a subfile.
#[derive(Debug, Clone)]
pub struct Data {
    pub header: Header,
    pub subfiles: Vec<Subfile>,
}

pub struct DataView {
    pub header: HeaderView,
    pub subfiles: Seq<SubfileView>,
}

impl View for Data {
    type V = DataView;

    open spec fn view(&self) -> DataView {
        DataView {
            header: self.header@,
            subfiles: self.subfiles@.map_values(|s: Subfile| s@),
        }
    }
}

/// The subfiles that the designators `ds` yield from `start`, in order, leaving out those
/// that cannot be read.
pub open spec fn assemble(start: Seq<char>, ds: Seq<SubfileDesignator>) -> Seq<SubfileView>
    decreases ds.len(),
{
    if ds.len() == 0 {
        Seq::empty()
    } else {
        let before = assemble(start, ds.drop_last());
        let d = ds.last();
        match subfile_elements(start, d) {
            Some(els) => before.push(SubfileView { subfile_type: d.subfile_type, elements: els }),
            None => before,
        }
    }
}

/// How the payload `s` parses.
pub open spec fn spec_parse(s: Seq<char>) -> Result<DataView, ParseError> {
    match spec_header(s) {
        Err(e) => Err(e),
        Ok((at, _end, h)) => Ok(
            DataView {
                header: h,
                subfiles: assemble(s.subrange(at, s.len() as int), h.subfile_designators),
            },
        ),
    }
}

/// The elements of the last subfile of type `t`.
pub open spec fn subfile_of(subs: Seq<SubfileView>, t: SubfileType) -> Option<Seq<ElementView>>
    decreases subs.len(),
{
    if subs.len() == 0 {
        None
    } else if subs.last().subfile_type == t {
        Some(subs.last().elements)
    } else {
        subfile_of(subs.drop_last(), t)
    }
}

/// The value of the last element with id `id`.
pub open spec fn element_of(els: Seq<ElementView>, id: Seq<char>) -> Option<Option<Seq<char>>>
    decreases els.len(),
{
    if els.len() == 0 {
        None
    } else if els.last().id == id {
        Some(els.last().value)
    } else {
        element_of(els.drop_last(), id)
    }
}

/// The trimmed value of element `id` in the subfile of type `t`, if it is there with a value.
pub open spec fn value_in(subs: Seq<SubfileView>, t: SubfileType, id: Seq<char>) -> Option<
    Seq<char>,
> {
    match subfile_of(subs, t) {
        Some(els) => match element_of(els, id) {
            Some(Some(v)) => Some(trimmed(v)),
            _ => None,
        },
        None => None,
    }
}

/// The value of field `id`: from the DL subfile, else the EN subfile, else the ID subfile.
pub open spec fn field(d: DataView, id: Seq<char>) -> Option<Seq<char>> {
    match value_in(d.subfiles, SubfileType::DL, id) {
        Some(v) => Some(v),
        None => match value_in(d.subfiles, SubfileType::EN, id) {
            Some(v) => Some(v),
            None => value_in(d.subfiles, SubfileType::ID, id),
        },
    }
}

/// Whether two texts hold the same characters.
pub fn text_eq(a: &str, b: &str) -> (r: bool)
    ensures
        r == (a@ == b@),
{
    let n = a.unicode_len();
    if n != b.unicode_len() {
        return false;
    }
    let mut i: usize = 0;
    while i < n
        invariant
            n == a@.len() == b@.len(),
            i <= n,
            forall|j: int| 0 <= j < i ==> a@[j] == b@[j],
        decreases n - i,
    {
        if a.get_char(i) != b.get_char(i) {
            return false;
        }
        i = i + 1;
    }
    assert(a@ =~= b@);
    true
}

/// Parses a payload into its header and the data elements of each subfile. A subfile that
/// cannot be read is left out; only a header that cannot be read fails the parse.
pub fn parse_barcode(input: &str) -> (r: Result<Data, ParseError>)
    ensures
        match spec_parse(input@) {
            Ok(d) => r matches Ok(data) && data@ == d,
            Err(e) => r == Err::<Data, ParseError>(e),
        },
{
    let text = chars_of(input);
    let (at, _end, header) = match read_header(&text, input) {
        Ok(h) => h,
        Err(e) => {
            return Err(e);
        },
    };
    proof {
        lemma_header_positions(text@);
    }
    let start = copy_range(&text, at, text.len());
    let mut subfiles: Vec<Subfile> = Vec::new();
    let ds = &header.subfile_designators;
    let mut i: usize = 0;
    while i < ds.len()
        invariant
            i <= ds.len(),
            subfiles@.map_values(|s: Subfile| s@) == assemble(start@, ds@.take(i as int)),
        decreases ds.len() - i,
    {
        let ghost before = subfiles@.map_values(|s: Subfile| s@);
        assert(ds@.take(i + 1).drop_last() =~= ds@.take(i as int));
        match parse_subfile(&start, &ds[i]) {
            Some(sub) => {
                subfiles.push(sub);
                assert(subfiles@.map_values(|s: Subfile| s@) =~= before.push(sub@));
            },
            None => {},
        }
        i = i + 1;
    }
    assert(ds@.take(ds.len() as int) =~= ds@);
    Ok(Data { header, subfiles })
}

impl Data {
    /// The elements of the last subfile of type `t`.
    pub fn subfile(&self, t: SubfileType) -> (r: Option<&Vec<DataElement>>)
        ensures
            match subfile_of(self@.subfiles, t) {
                Some(els) => r matches Some(v) && v@.map_values(|e: DataElement| e@) == els,
                None => r is None,
            },
    {
        let mut i = self.subfiles.len();
        assert(self@.subfiles.take(i as int) =~= self@.subfiles);
        while i > 0
            invariant
                i <= self.subfiles.len(),
                subfile_of(self@.subfiles, t) == subfile_of(self@.subfiles.take(i as int), t),
            decreases i,
        {
            assert(self@.subfiles.take(i as int).drop_last() =~= self@.subfiles.take(i - 1));
            if self.subfiles[i - 1].subfile_type == t {
                return Some(&self.subfiles[i - 1].elements);
            }
            i = i - 1;
        }
        None
    }

    /// The value of the last element with id `id` among `els`.
    pub fn element<'a>(els: &'a Vec<DataElement>, id: &str) -> (r: Option<&'a Option<String>>)
        ensures
            match element_of(els@.map_values(|e: DataElement| e@), id@) {
                Some(v) => r matches Some(o) && opt_view(*o) == v,
                None => r is None,
            },
    {
        let ghost all = els@.map_values(|e: DataElement| e@);
        let mut i = els.len();
        assert(all.take(i as int) =~= all);
        while i > 0
            invariant
                i <= els.len(),
                all == els@.map_values(|e: DataElement| e@),
                element_of(all, id@) == element_of(all.take(i as int), id@),
            decreases i,
        {
            assert(all.take(i as int).drop_last() =~= all.take(i - 1));
            if text_eq(els[i - 1].id.as_str(), id) {
                return Some(&els[i - 1].value);
            }
            i = i - 1;
        }
        None
    }

    /// The trimmed value of element `id` in the subfile of type `t`, as characters.
    pub fn value_in(&self, t: SubfileType, id: &str) -> (r: Option<Vec<char>>)
        ensures
            match value_in(self@.subfiles, t, id@) {
                Some(v) => r matches Some(c) && c@ == v,
                None => r is None,
            },
    {
        match self.subfile(t) {
            Some(els) => match Self::element(els, id) {
                Some(Some(v)) => {
                    let c = chars_of(v.as_str());
                    let (a, b) = trim_range(&c, 0, c.len());
                    assert(c@.subrange(0, c.len() as int) =~= c@);
                    Some(copy_range(&c, a, b))
                },
                _ => None,
            },
            None => None,
        }
    }

    /// The value of field `id`, as characters: from the DL subfile, else the EN subfile, else
    /// the ID subfile.
    pub fn get_field(&self, name: &str) -> (r: Option<Vec<char>>)
        ensures
            match field(self@, name@) {
                Some(v) => r matches Some(c) && c@ == v,
                None => r is None,
            },
    {
        match self.value_in(SubfileType::DL, name) {
            Some(v) => Some(v),
            None => match self.value_in(SubfileType::EN, name) {
                Some(v) => Some(v),
                None => self.value_in(SubfileType::ID, name),
            },
        }
    }

    /// The value of field `id`.
    pub fn get_field_owned(&self, name: &str) -> (r: Option<String>)
        ensures
            opt_view(r) == field(self@, name@),
    {
        match self.get_field(name) {
            Some(v) => Some(string_of(v.as_slice())),
            None => None,
        }
    }
}

} // verus!
