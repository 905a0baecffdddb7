use aamva::name::filter_empty_str;
use aamva::{
    decode_barcode, parse_barcode, Data, DataElement, Date, EyeColor, HairColor, Header, Height,
    IssuerCountry, IssuerIdentification, Race, Sex, Subfile, SubfileType, Truncation, Weight,
};

const SAMPLE: &str = "@\n\x1e\rANSI 636014090002DL00410165ZC02060011DLDAQD1234567\nDCSSMITH\nDACJOHN\nDADPAUL\nDBB01151990\nDBA01152030\nDBD01152020\nDBC1\nDAYBRO\nDAU070 in\nDAGMAIN ST\nDAISACRAMENTO\nDAJCA\nDAK958140000\nDCGUSA\nDCLW\nDAZBLK\nDDEN\rZCZCAVALUE\r";

const UNITED_STATES: u32 = 636014;
const CANADA: u32 = 636028;

fn elements(pairs: &[(&str, &str)]) -> Vec<DataElement> {
    pairs
        .iter()
        .map(|(id, v)| DataElement {
            id: id.to_string(),
            value: Some(v.to_string()),
        })
        .collect()
}

fn data_with(version: u8, issuer: u32, subfiles: Vec<(SubfileType, &[(&str, &str)])>) -> Data {
    Data {
        header: Header {
            issuer_id: issuer,
            version_number: version,
            jurisdiction_version_number: None,
            number_of_entries: subfiles.len() as u8,
            subfile_designators: vec![],
        },
        subfiles: subfiles
            .into_iter()
            .map(|(t, pairs)| Subfile {
                subfile_type: t,
                elements: elements(pairs),
            })
            .collect(),
    }
}

fn dl(version: u8, pairs: &[(&str, &str)]) -> Data {
    data_with(version, UNITED_STATES, vec![(SubfileType::DL, pairs)])
}

fn date(year: i32, month: u8, day: u8) -> Date {
    Date { year, month, day }
}

#[test]
fn enumerated_codes_decode_in_any_case() {
    assert_eq!(dl(9, &[("DBC", "m")]).sex(), Some(Sex::Male));
    assert_eq!(dl(9, &[("DBC", "2")]).sex(), Some(Sex::Female));
    assert_eq!(dl(9, &[("DBC", "x")]).sex(), Some(Sex::NotSpecified));
    assert_eq!(dl(9, &[("DAY", "blu")]).eye_color(), Some(EyeColor::Blue));
    assert_eq!(dl(9, &[("DAY", "HAZ")]).eye_color(), Some(EyeColor::Hazel));
    assert_eq!(dl(9, &[("DAZ", "red")]).hair_color(), Some(HairColor::RedAuburn));
    assert_eq!(dl(9, &[("DCL", "ap")]).race(), Some(Race::AsianPacificIslander));
    assert_eq!(Data::parse_truncation("t"), Some(Truncation::Truncated));
    assert_eq!(Data::parse_truncation("N"), Some(Truncation::NotTruncated));
}

#[test]
fn unknown_enumerated_codes_are_absent() {
    assert_eq!(dl(9, &[("DBC", "Q")]).sex(), None);
    assert_eq!(dl(9, &[("DAY", "XYZ")]).eye_color(), None);
    assert_eq!(dl(9, &[("DAZ", "ZZZ")]).hair_color(), None);
    assert_eq!(dl(9, &[("DCL", "Z")]).race(), None);
    assert_eq!(Data::parse_truncation("X"), None);
    assert_eq!(dl(9, &[]).sex(), None);
}

#[test]
fn height_encodings() {
    assert_eq!(dl(9, &[("DAU", "070 in")]).height(), Some(Height::Inches(70)));
    assert_eq!(dl(9, &[("DAU", "178 cm")]).height(), Some(Height::Centimeters(178)));
    assert_eq!(dl(9, &[("DAU", "178 CM")]).height(), Some(Height::Centimeters(178)));
    assert_eq!(dl(9, &[("DAU", "510")]).height(), Some(Height::Inches(70)));
    assert_eq!(dl(9, &[("DAU", "5'-10\"")]).height(), Some(Height::Inches(70)));
    assert_eq!(dl(9, &[("DAU", "5-10")]).height(), Some(Height::Inches(70)));
}

#[test]
fn height_malformed_is_absent() {
    assert_eq!(dl(9, &[("DAU", "5 cm")]).height(), None);
    assert_eq!(dl(9, &[("DAU", "abc in")]).height(), None);
    assert_eq!(dl(9, &[("DAU", "5x0")]).height(), None);
    assert_eq!(dl(9, &[("DAU", "9999-1")]).height(), None);
    assert_eq!(dl(9, &[("DAV", "180")]).height(), None);
}

#[test]
fn height_falls_back_on_other_fields() {
    assert_eq!(
        dl(9, &[("DAU", "tall"), ("DAV", "180")]).height(),
        Some(Height::Centimeters(180))
    );
    let data = data_with(
        9,
        UNITED_STATES,
        vec![
            (SubfileType::DL, &[("DAU", "tall")]),
            (SubfileType::JurisdictionSpecific('I'), &[("ZIJ", "6-01")]),
        ],
    );
    assert_eq!(data.height(), Some(Height::Inches(73)));
}

#[test]
fn weight_encodings() {
    let range = |code: &str| dl(9, &[("DCE", code)]).weight();
    assert_eq!(range("0"), Some(Weight::KilogramRange { from: 0, to: 31 }));
    assert_eq!(range("9"), Some(Weight::KilogramRange { from: 146, to: u8::MAX }));
    assert_eq!(range("4"), Some(Weight::KilogramRange { from: 71, to: 86 }));
    assert_eq!(range("10"), None);
    assert_eq!(dl(9, &[("DAW", "180")]).weight(), Some(Weight::Pounds(180)));
    assert_eq!(dl(9, &[("DAW", "+5")]).weight(), Some(Weight::Pounds(5)));
    assert_eq!(dl(9, &[("DAX", "82"), ("DCE", "4")]).weight(), Some(Weight::Kilograms(82)));
    assert_eq!(dl(9, &[("DAW", "heavy"), ("DAX", "82")]).weight(), None);
    assert_eq!(dl(9, &[("DAW", "70000")]).weight(), None);
}

#[test]
fn country_explicit_or_from_height() {
    assert_eq!(dl(9, &[("DCG", "can")]).country(), Some(IssuerCountry::Canada));
    assert_eq!(dl(9, &[("DCG", "MEX")]).country(), Some(IssuerCountry::Mexico));
    assert_eq!(dl(9, &[("DCG", "XYZ"), ("DAU", "070 in")]).country(), None);
    assert_eq!(dl(9, &[("DAU", "070 in")]).country(), Some(IssuerCountry::UnitedStates));
    assert_eq!(dl(9, &[("DAU", "178 cm")]).country(), Some(IssuerCountry::Canada));
    assert_eq!(dl(9, &[]).country(), None);
}

#[test]
fn field_lookup_prefers_dl_then_en_then_id() {
    let data = data_with(
        9,
        UNITED_STATES,
        vec![
            (SubfileType::ID, &[("DAQ", "from id"), ("DCF", "id only")]),
            (SubfileType::EN, &[("DAQ", "from en")]),
            (SubfileType::DL, &[("DCS", "SMITH")]),
        ],
    );
    assert_eq!(data.customer_id_number(), Some("from en".to_string()));
    assert_eq!(data.document_discriminator(), Some("id only".to_string()));
    assert_eq!(data.place_of_birth(), None);
    let absent = Data {
        subfiles: vec![
            Subfile {
                subfile_type: SubfileType::DL,
                elements: vec![DataElement {
                    id: "DAQ".to_string(),
                    value: None,
                }],
            },
            Subfile {
                subfile_type: SubfileType::ID,
                elements: elements(&[("DAQ", "  123  ")]),
            },
        ],
        ..dl(9, &[])
    };
    assert_eq!(absent.customer_id_number(), Some("123".to_string()));
}

#[test]
fn names_up_to_version_one() {
    let n = dl(1, &[("DAB", "SMITH"), ("DAC", "JOHN"), ("DAD", "PAUL"), ("DAE", "JR"), ("DAF", "DR")])
        .name()
        .unwrap();
    assert_eq!((n.family.as_str(), n.first.as_str()), ("SMITH", "JOHN"));
    assert_eq!(n.middle.as_deref(), Some("PAUL"));
    assert_eq!(n.suffix.as_deref(), Some("JR"));
    assert_eq!(n.prefix.as_deref(), Some("DR"));
    assert!(dl(1, &[("DAB", "SMITH")]).name().is_none());

    let n = dl(1, &[("DAA", "SMITH,JOHN,PAUL,JR")]).name().unwrap();
    assert_eq!((n.family.as_str(), n.first.as_str()), ("SMITH", "JOHN"));
    assert_eq!(n.middle.as_deref(), Some("PAUL JR"));
    let n = dl(1, &[("DAA", "SMITH JOHN")]).name().unwrap();
    assert_eq!((n.family.as_str(), n.first.as_str(), n.middle), ("SMITH", "JOHN", None));
    assert!(dl(1, &[("DAA", "SMITH")]).name().is_none());
}

#[test]
fn names_versions_two_and_three() {
    let n = dl(3, &[("DCT", "JOHN,PAUL"), ("DCS", "SMITH")]).name().unwrap();
    assert_eq!((n.family.as_str(), n.first.as_str()), ("SMITH", "JOHN"));
    assert_eq!(n.middle.as_deref(), Some("PAUL"));
    let n = dl(2, &[("DCT", "JOHN PAUL MICHAEL"), ("DCS", "SMITH")]).name().unwrap();
    assert_eq!(n.middle.as_deref(), Some("PAUL MICHAEL"));
    assert!(dl(2, &[("DCT", "JOHN")]).name().is_none());
}

#[test]
fn names_from_version_four() {
    let n = dl(
        9,
        &[
            ("DCS", "SMITH"),
            ("DAC", "JOHN"),
            ("DCU", "III"),
            ("DBN", "SMYTHE"),
            ("DDE", "t"),
            ("DDF", "N"),
            ("DDG", "?"),
        ],
    )
    .name()
    .unwrap();
    assert_eq!(n.suffix.as_deref(), Some("III"));
    assert_eq!(n.alias_family.as_deref(), Some("SMYTHE"));
    assert!(n.prefix.is_none());
    assert!(matches!(n.family_truncation, Some(Truncation::Truncated)));
    assert!(matches!(n.first_truncation, Some(Truncation::NotTruncated)));
    assert!(n.middle_truncation.is_none());
    assert!(dl(9, &[("DCS", "SMITH")]).name().is_none());
}

#[test]
fn dates_prefer_month_first_for_united_states() {
    let us = dl(9, &[]);
    assert_eq!(us.parse_date("01022020", IssuerCountry::UnitedStates), Some(date(2020, 1, 2)));
    assert_eq!(us.parse_date("10111012", IssuerCountry::UnitedStates), Some(date(1012, 10, 11)));
    assert_eq!(us.parse_date("20200102", IssuerCountry::UnitedStates), Some(date(2020, 1, 2)));
    assert_eq!(us.parse_date("20200102", IssuerCountry::Canada), Some(date(2020, 1, 2)));
    assert_eq!(us.parse_date("01022020", IssuerCountry::Canada), None);
    let v1 = dl(1, &[]);
    assert_eq!(v1.parse_date("10111012", IssuerCountry::UnitedStates), Some(date(1011, 10, 12)));
    assert_eq!(us.parse_date("02302020", IssuerCountry::UnitedStates), None);
    assert_eq!(us.parse_date("2020012", IssuerCountry::UnitedStates), None);
    assert_eq!(us.parse_date("2020-01-02", IssuerCountry::UnitedStates), None);
}

#[test]
fn date_fields_follow_issuer_country() {
    let us = data_with(9, UNITED_STATES, vec![(SubfileType::DL, &[("DBB", "01151990")])]);
    assert_eq!(us.date_of_birth(), Some(date(1990, 1, 15)));
    let ca = data_with(9, CANADA, vec![(SubfileType::DL, &[("DBB", "19900115")])]);
    assert_eq!(ca.date_of_birth(), Some(date(1990, 1, 15)));
    let unknown = data_with(9, 123456, vec![(SubfileType::DL, &[("DBA", "01151990")])]);
    assert_eq!(unknown.document_expiration_date(), Some(date(1990, 1, 15)));
    assert_eq!(
        dl(9, &[("DBD", "01152020"), ("DDB", "20090401")]).document_issue_date(),
        Some(date(2020, 1, 15))
    );
    assert_eq!(dl(9, &[("DDB", "04012009")]).card_revision_date(), Some(date(2009, 4, 1)));
}

#[test]
fn age_thresholds_keep_the_calendar_date_across_leap_years() {
    let leap_birth = dl(9, &[("DBB", "03102000")]).under_age_until();
    assert_eq!(leap_birth.under_18_until, Some(date(2018, 3, 10)));
    assert_eq!(leap_birth.under_19_until, Some(date(2019, 3, 10)));
    assert_eq!(leap_birth.under_21_until, Some(date(2021, 3, 10)));
    let plain_birth = dl(9, &[("DBB", "03102003")]).under_age_until();
    assert_eq!(plain_birth.under_21_until, Some(date(2024, 3, 10)));
    let early = dl(9, &[("DBB", "02292000")]).under_age_until();
    assert_eq!(early.under_18_until, Some(date(2018, 3, 1)));
    let explicit = dl(9, &[("DBB", "03102000"), ("DDH", "01012030")]).under_age_until();
    assert_eq!(explicit.under_19_until, Some(date(2030, 1, 1)));
    assert_eq!(dl(9, &[]).under_age_until().under_18_until, None);
}

#[test]
fn date_iso_text() {
    assert_eq!(date(2020, 1, 2).to_iso_string(), "2020-01-02");
    assert_eq!(date(-44, 3, 15).to_iso_string(), "-0044-03-15");
    assert_eq!(date(2020, 3, 1).ordinal(), 61);
    assert_eq!(date(7, 12, 31).to_iso_string(), "0007-12-31");
    assert!(date(2020, 2, 29).is_valid());
    assert!(!date(2021, 2, 29).is_valid());
    assert!(!date(2021, 13, 1).is_valid());
    assert!(!date(10000, 1, 1).is_valid());
}

#[test]
fn data_converts_into_decoded_record() {
    let decoded: aamva::DecodedData = parse_barcode(SAMPLE).unwrap().into();
    assert_eq!(decoded.customer_id_number.as_deref(), Some("D1234567"));
    assert_eq!(decoded.height, Some(Height::Inches(70)));
}

#[test]
fn unicode_white_space_is_trimmed() {
    let data = dl(9, &[("DAU", "\u{3000}070 in\u{a0}"), ("DCS", "\u{2003}SMITH\t")]);
    assert_eq!(data.height(), Some(Height::Inches(70)));
    assert_eq!(data.get_field_owned("DCS"), Some("SMITH".to_string()));
}

#[test]
fn issuer_directory() {
    assert_eq!(IssuerIdentification::from_code(636000), Some(IssuerIdentification::Virginia));
    assert_eq!(IssuerIdentification::from_code(990876), Some(IssuerIdentification::Alberta));
    assert_eq!(IssuerIdentification::from_code(604432), Some(IssuerIdentification::Alberta));
    assert_eq!(IssuerIdentification::from_code(1), None);
    assert_eq!(IssuerIdentification::Alberta.code(), 604432);
    assert_eq!(IssuerIdentification::Quebec.country(), IssuerCountry::Canada);
    assert_eq!(IssuerIdentification::Hidalgo.country(), IssuerCountry::Mexico);
    assert_eq!(IssuerIdentification::Texas.country(), IssuerCountry::UnitedStates);
    assert_eq!(aamva::issuer::country_of_code(999999), IssuerCountry::UnitedStates);
}

#[test]
fn empty_strings_are_filtered() {
    assert_eq!(filter_empty_str(String::new()), None);
    assert_eq!(filter_empty_str("a".to_string()), Some("a".to_string()));
}

#[test]
fn decode_sample_payload() {
    let d = decode_barcode(SAMPLE).unwrap();
    assert_eq!(d.issuer_id, 636014);
    assert_eq!(d.aamva_version, 9);
    assert_eq!(d.jurisdiction_version_number, Some(0));
    let name = d.name.as_ref().unwrap();
    assert_eq!((name.family.as_str(), name.first.as_str()), ("SMITH", "JOHN"));
    assert_eq!(name.middle.as_deref(), Some("PAUL"));
    assert!(matches!(name.family_truncation, Some(Truncation::NotTruncated)));
    assert_eq!(d.date_of_birth, Some(date(1990, 1, 15)));
    assert_eq!(d.document_expiration_date, Some(date(2030, 1, 15)));
    assert_eq!(d.document_issue_date, Some(date(2020, 1, 15)));
    assert_eq!(d.sex, Some(Sex::Male));
    assert_eq!(d.eye_color, Some(EyeColor::Brown));
    assert_eq!(d.hair_color, Some(HairColor::Black));
    assert_eq!(d.race, Some(Race::White));
    assert_eq!(d.height, Some(Height::Inches(70)));
    assert_eq!(d.country, Some(IssuerCountry::UnitedStates));
    assert_eq!(d.customer_id_number.as_deref(), Some("D1234567"));
    let address = d.address.as_ref().unwrap();
    assert_eq!(address.city, "SACRAMENTO");
    assert_eq!(address.postal_code, "958140000");
    assert!(address.address_2.is_none());
    assert_eq!(d.weight, None);
    assert_eq!(d.under_age_until.under_21_until, Some(date(2011, 1, 15)));
}

#[test]
fn decoding_twice_gives_the_same_record() {
    let a = decode_barcode(SAMPLE).unwrap();
    let b = decode_barcode(SAMPLE).unwrap();
    assert_eq!(format!("{a:?}"), format!("{b:?}"));
    let p = parse_barcode(SAMPLE).unwrap();
    let q = parse_barcode(SAMPLE).unwrap();
    assert_eq!(format!("{p:?}"), format!("{q:?}"));
}

#[test]
fn decode_rejects_a_bad_header() {
    assert!(decode_barcode("not a barcode").is_err());
}
