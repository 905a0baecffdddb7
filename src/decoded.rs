//! The decoded record: every typed field of a payload, owned and detached from its text.

use vstd::prelude::*;
use crate::data::{Data, DataView, field, parse_barcode, spec_parse};
use crate::date::{Date, date_of_token, decode_date, threshold_after, threshold_date, date_from_digits};
use crate::fields::{
    Address, AddressView, EyeColor, HairColor, Height, Race, Sex, Weight, address_of,
    country_of, eye_color_of_code, hair_color_of_code, height_of, opt_address_view, race_of_code,
    sex_of_code, upper_field, weight_of,
};
use crate::header::ParseError;
use crate::issuer::{IssuerCountry, country_of_code, spec_country_of_code};
use crate::name::{Name, NameView, name_of, opt_name_view};
use crate::subfile::opt_view;
use crate::text::{all_digits, decimal, lemma_decimal_bound, pow10, string_of};

verus! {

/// The dates until which the holder is under 18, 19 and 21.
#[derive(Debug, Clone, Copy, PartialEq, Eq, Structural)]
pub struct UnderAgeUntil {
    pub under_18_until: Option<Date>,
    pub under_19_until: Option<Date>,
    pub under_21_until: Option<Date>,
}

/// The date that field `id` encodes, read by the rules of the payload's issuer and version.
pub open spec fn date_field_of(d: DataView, id: Seq<char>) -> Option<Date> {
    match field(d, id) {
        Some(t) => date_of_token(
            t,
            spec_country_of_code(d.header.issuer_id),
            d.header.version_number,
        ),
        None => None,
    }
}

/// The date until which the holder is under `age`: as encoded in field `id` when it is
/// there, else computed from the date of birth.
pub open spec fn under_until_of(d: DataView, id: Seq<char>, age: int) -> Option<Date> {
    match date_field_of(d, id) {
        Some(x) => Some(x),
        None => match date_field_of(d, "DBB"@) {
            Some(b) => threshold_date(b, age),
            None => None,
        },
    }
}

pub open spec fn under_age_until_of(d: DataView) -> UnderAgeUntil {
    UnderAgeUntil {
        under_18_until: under_until_of(d, "DDH"@, 18),
        under_19_until: under_until_of(d, "DDH"@, 19),
        under_21_until: under_until_of(d, "DDH"@, 21),
    }
}

/// The dates that a token yields exist in the calendar.
pub proof fn lemma_token_dates_valid(s: Seq<char>, month_first: bool)
    ensures
        date_from_digits(s, month_first) matches Some(d) ==> d.valid(),
{
    if s.len() == 8 && all_digits(s) {
        let y = if month_first { s.subrange(4, 8) } else { s.subrange(0, 4) };
        assert(all_digits(y));
        lemma_decimal_bound(y);
        assert(pow10(4) == 10000) by {
            assert(pow10(0) == 1);
            assert(pow10(1) == 10);
            assert(pow10(2) == 100);
            assert(pow10(3) == 1000);
        }
    }
}

impl Data {
    /// Reads a date token by the rules of the payload's version for issuers of `country`.
    pub fn parse_date(&self, input: &str, country: IssuerCountry) -> (r: Option<Date>)
        ensures
            r == date_of_token(input@, country, self.header.version_number),
            r matches Some(d) ==> d.valid(),
    {
        proof {
            lemma_token_dates_valid(input@, true);
            lemma_token_dates_valid(input@, false);
        }
        decode_date(input, country, self.header.version_number)
    }

    fn date_field(&self, name: &str) -> (r: Option<Date>)
        ensures
            r == date_field_of(self@, name@),
            r matches Some(d) ==> d.valid(),
    {
        let country = country_of_code(self.header.issuer_id);
        match self.get_field(name) {
            Some(t) => {
                let token = string_of(t.as_slice());
                self.parse_date(token.as_str(), country)
            },
            None => None,
        }
    }

    /// The expiration date (DBA).
    pub fn document_expiration_date(&self) -> (r: Option<Date>)
        ensures
            r == date_field_of(self@, "DBA"@),
    {
        self.date_field("DBA")
    }

    /// The date of birth (DBB).
    pub fn date_of_birth(&self) -> (r: Option<Date>)
        ensures
            r == date_field_of(self@, "DBB"@),
            r matches Some(d) ==> d.valid(),
    {
        self.date_field("DBB")
    }

    /// The issue date (DBD).
    pub fn document_issue_date(&self) -> (r: Option<Date>)
        ensures
            r == date_field_of(self@, "DBD"@),
    {
        self.date_field("DBD")
    }

    /// The date of the card design's revision (DDB).
    pub fn card_revision_date(&self) -> (r: Option<Date>)
        ensures
            r == date_field_of(self@, "DDB"@),
    {
        self.date_field("DDB")
    }

    fn under_n_until(&self, name: &str, age: i32) -> (r: Option<Date>)
        ensures
            r == under_until_of(self@, name@, age as int),
    {
        match self.date_field(name) {
            Some(date) => Some(date),
            None => match self.date_of_birth() {
                Some(birth) => threshold_after(birth, age),
                None => None,
            },
        }
    }

    /// The dates until which the holder is under 18, 19 and 21: the encoded date (DDH) when
    /// there is one, else computed from the date of birth.
    pub fn under_age_until(&self) -> (r: UnderAgeUntil)
        ensures
            r == under_age_until_of(self@),
    {
        UnderAgeUntil {
            under_18_until: self.under_n_until("DDH", 18),
            under_19_until: self.under_n_until("DDH", 19),
            under_21_until: self.under_n_until("DDH", 21),
        }
    }
}

/// Every decoded field of a payload.
#[derive(Debug, Clone)]
pub struct DecodedData {
    pub issuer_id: u32,
    pub aamva_version: u8,
    pub jurisdiction_version_number: Option<u8>,
    pub document_expiration_date: Option<Date>,
    pub name: Option<Name>,
    pub document_issue_date: Option<Date>,
    pub date_of_birth: Option<Date>,
    pub sex: Option<Sex>,
    pub eye_color: Option<EyeColor>,
    pub height: Option<Height>,
    pub address: Option<Address>,
    pub customer_id_number: Option<String>,
    pub document_discriminator: Option<String>,
    pub country: Option<IssuerCountry>,
    pub hair_color: Option<HairColor>,
    pub place_of_birth: Option<String>,
    pub audit_information: Option<String>,
    pub inventory_control_information: Option<String>,
    pub weight: Option<Weight>,
    pub race: Option<Race>,
    pub card_revision_date: Option<Date>,
    pub under_age_until: UnderAgeUntil,
}

pub struct DecodedView {
    pub issuer_id: u32,
    pub aamva_version: u8,
    pub jurisdiction_version_number: Option<u8>,
    pub document_expiration_date: Option<Date>,
    pub name: Option<NameView>,
    pub document_issue_date: Option<Date>,
    pub date_of_birth: Option<Date>,
    pub sex: Option<Sex>,
    pub eye_color: Option<EyeColor>,
    pub height: Option<Height>,
    pub address: Option<AddressView>,
    pub customer_id_number: Option<Seq<char>>,
    pub document_discriminator: Option<Seq<char>>,
    pub country: Option<IssuerCountry>,
    pub hair_color: Option<HairColor>,
    pub place_of_birth: Option<Seq<char>>,
    pub audit_information: Option<Seq<char>>,
    pub inventory_control_information: Option<Seq<char>>,
    pub weight: Option<Weight>,
    pub race: Option<Race>,
    pub card_revision_date: Option<Date>,
    pub under_age_until: UnderAgeUntil,
}

impl View for DecodedData {
    type V = DecodedView;

    open spec fn view(&self) -> DecodedView {
        DecodedView {
            issuer_id: self.issuer_id,
            aamva_version: self.aamva_version,
            jurisdiction_version_number: self.jurisdiction_version_number,
            document_expiration_date: self.document_expiration_date,
            name: opt_name_view(self.name),
            document_issue_date: self.document_issue_date,
            date_of_birth: self.date_of_birth,
            sex: self.sex,
            eye_color: self.eye_color,
            height: self.height,
            address: opt_address_view(self.address),
            customer_id_number: opt_view(self.customer_id_number),
            document_discriminator: opt_view(self.document_discriminator),
            country: self.country,
            hair_color: self.hair_color,
            place_of_birth: opt_view(self.place_of_birth),
            audit_information: opt_view(self.audit_information),
            inventory_control_information: opt_view(self.inventory_control_information),
            weight: self.weight,
            race: self.race,
            card_revision_date: self.card_revision_date,
            under_age_until: self.under_age_until,
        }
    }
}

pub open spec fn code_field<T>(d: DataView, id: Seq<char>, table: spec_fn(Seq<char>) -> Option<T>) -> Option<T> {
    match upper_field(d, id) {
        Some(c) => table(c),
        None => None,
    }
}

/// Every decoded field of a parsed payload.
pub open spec fn decoded_of(d: DataView) -> DecodedView {
    DecodedView {
        issuer_id: d.header.issuer_id,
        aamva_version: d.header.version_number,
        jurisdiction_version_number: d.header.jurisdiction_version_number,
        document_expiration_date: date_field_of(d, "DBA"@),
        name: name_of(d),
        document_issue_date: date_field_of(d, "DBD"@),
        date_of_birth: date_field_of(d, "DBB"@),
        sex: code_field(d, "DBC"@, |c| sex_of_code(c)),
        eye_color: code_field(d, "DAY"@, |c| eye_color_of_code(c)),
        height: height_of(d),
        address: address_of(d),
        customer_id_number: field(d, "DAQ"@),
        document_discriminator: field(d, "DCF"@),
        country: country_of(d),
        hair_color: code_field(d, "DAZ"@, |c| hair_color_of_code(c)),
        place_of_birth: field(d, "DCI"@),
        audit_information: field(d, "DCJ"@),
        inventory_control_information: field(d, "DCK"@),
        weight: weight_of(d),
        race: code_field(d, "DCL"@, |c| race_of_code(c)),
        card_revision_date: date_field_of(d, "DDB"@),
        under_age_until: under_age_until_of(d),
    }
}

/// How a payload decodes.
pub open spec fn spec_decode(s: Seq<char>) -> Result<DecodedView, ParseError> {
    match spec_parse(s) {
        Ok(d) => Ok(decoded_of(d)),
        Err(e) => Err(e),
    }
}

impl From<Data> for DecodedData {
    /// Decodes every field of a parsed payload.
    fn from(value: Data) -> (r: DecodedData)
        ensures
            r@ == decoded_of(value@),
    {
        DecodedData {
            issuer_id: value.header.issuer_id,
            aamva_version: value.header.version_number,
            jurisdiction_version_number: value.header.jurisdiction_version_number,
            name: value.name(),
            document_expiration_date: value.document_expiration_date(),
            date_of_birth: value.date_of_birth(),
            document_issue_date: value.document_issue_date(),
            sex: value.sex(),
            eye_color: value.eye_color(),
            height: value.height(),
            address: value.address(),
            customer_id_number: value.customer_id_number(),
            document_discriminator: value.document_discriminator(),
            country: value.country(),
            hair_color: value.hair_color(),
            place_of_birth: value.place_of_birth(),
            audit_information: value.audit_information(),
            inventory_control_information: value.inventory_control_information(),
            weight: value.weight(),
            race: value.race(),
            card_revision_date: value.card_revision_date(),
            under_age_until: value.under_age_until(),
        }
    }
}

/// What `from` returns is stated by the view of its result (`decoded_of`), not by a value.
impl vstd::std_specs::convert::FromSpecImpl<Data> for DecodedData {
    open spec fn obeys_from_spec() -> bool {
        false
    }

    open spec fn from_spec(v: Data) -> DecodedData {
        arbitrary()
    }
}

/// Parses a payload and decodes every field of it.
pub fn decode_barcode(input: &str) -> (r: Result<DecodedData, ParseError>)
    ensures
        match spec_decode(input@) {
            Ok(v) => r matches Ok(x) && x@ == v,
            Err(e) => r == Err::<DecodedData, ParseError>(e),
        },
{
    match parse_barcode(input) {
        Ok(data) => Ok(DecodedData::from(data)),
        Err(e) => Err(e),
    }
}


/// Parsing and decoding depend on the payload's characters alone: the same payload parses to
/// the same elements and decodes to the same record every time.
pub proof fn lemma_decode_deterministic(a: &str, b: &str)
    requires
        a@ == b@,
    ensures
        spec_parse(a@) == spec_parse(b@),
        spec_decode(a@) == spec_decode(b@),
{
}

} // verus!
