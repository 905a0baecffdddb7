use aamva::subfile::parse_subfile;
use aamva::{
    parse_barcode, parse_data_element, parse_header, DataElement, Header, HeaderField,
    ParseError, SubfileDesignator, SubfileType,
};

const SAMPLE: &str = "@\n\x1e\rANSI 636014090002DL00410165ZC02060011DLDAQD1234567\nDCSSMITH\nDACJOHN\nDADPAUL\nDBB01151990\nDBA01152030\nDBD01152020\nDBC1\nDAYBRO\nDAU070 in\nDAGMAIN ST\nDAISACRAMENTO\nDAJCA\nDAK958140000\nDCGUSA\nDCLW\nDAZBLK\nDDEN\rZCZCAVALUE\r";

fn element(id: &str, value: Option<&str>) -> DataElement {
    DataElement {
        id: id.to_string(),
        value: value.map(|v| v.to_string()),
    }
}

#[test]
fn test_parse_data_element() {
    let cases = [
        (
            (SubfileType::DL, "DAQ0123456789ABC\rtest"),
            ("test", element("DAQ", Some("0123456789ABC"))),
        ),
        (
            (SubfileType::DL, "DAQ0123456789ABC"),
            ("", element("DAQ", Some("0123456789ABC"))),
        ),
    ];

    for ((prefix, input), (rest, expected)) in cases {
        let actual_output = parse_data_element(input, prefix).unwrap();
        assert_eq!(actual_output, (rest.to_string(), expected));
    }
}

#[test]
fn test_parse_header() {
    let input = "@\n\x1e\rAAMVA6360000102DL00390188ZV02270031ANSI ";
    let expected = (
        "ANSI ".to_string(),
        (
            input.to_string(),
            Header {
                issuer_id: 636000,
                version_number: 1,
                number_of_entries: 2,
                jurisdiction_version_number: None,
                subfile_designators: vec![
                    SubfileDesignator {
                        subfile_type: SubfileType::DL,
                        offset: 39,
                        length: 188,
                    },
                    SubfileDesignator {
                        subfile_type: SubfileType::JurisdictionSpecific('V'),
                        offset: 227,
                        length: 31,
                    },
                ],
            },
        ),
    );
    assert_eq!(parse_header(input).unwrap(), expected);
}

#[test]
fn element_with_terminator_and_without_agree() {
    let (_, with) = parse_data_element("DAQ0123456789ABC\r", SubfileType::DL).unwrap();
    let (rest, without) = parse_data_element("DAQ0123456789ABC", SubfileType::DL).unwrap();
    assert_eq!(with, without);
    assert_eq!(with, element("DAQ", Some("0123456789ABC")));
    assert_eq!(rest, "");
}

#[test]
fn element_value_is_trimmed() {
    let (rest, e) = parse_data_element("DCS  SMITH \nDAC", SubfileType::DL).unwrap();
    assert_eq!(e, element("DCS", Some("SMITH")));
    assert_eq!(rest, "DAC");
}

#[test]
fn element_placeholders_are_absent() {
    for input in ["DAHNONE\n", "DAHunavl\n", "DAHnone\n", "DAHUNAVL\n", "DAH   \n", "DAH\n"] {
        let (_, e) = parse_data_element(input, SubfileType::DL).unwrap();
        assert_eq!(e, element("DAH", None), "{input:?}");
    }
}

#[test]
fn element_id_must_be_three_letters() {
    assert!(parse_data_element("D1Q123\n", SubfileType::DL).is_none());
    assert!(parse_data_element("DA", SubfileType::DL).is_none());
    assert!(parse_data_element("", SubfileType::DL).is_none());
}

#[test]
fn element_with_unexpected_prefix_is_kept() {
    let (_, e) = parse_data_element("ZVA42\r", SubfileType::DL).unwrap();
    assert_eq!(e, element("ZVA", Some("42")));
}

#[test]
fn subfile_type_tags() {
    assert_eq!(SubfileType::parse_tag("DL").unwrap(), SubfileType::DL);
    assert_eq!(SubfileType::parse_tag("EN").unwrap(), SubfileType::EN);
    assert_eq!(SubfileType::parse_tag("ID").unwrap(), SubfileType::ID);
    assert_eq!(
        "ZV".parse::<SubfileType>().unwrap(),
        SubfileType::JurisdictionSpecific('V')
    );
    let err = SubfileType::parse_tag("XX").unwrap_err();
    assert_eq!(err.data, "XX");
    assert_eq!(err.message(), "Subfile had unknown type: XX");
    assert!(SubfileType::parse_tag("Z").is_err());
    assert_eq!(SubfileType::JurisdictionSpecific('C').to_tag(), "ZC");
    assert_eq!(SubfileType::EN.to_tag(), "EN");
}

#[test]
fn header_errors_name_the_token_and_position() {
    let cases = [
        ("no indicator", HeaderField::ComplianceIndicator, 0),
        ("@\n\x1e\r", HeaderField::RecordSeparator, 1),
        ("xx@\nAXXXX", HeaderField::FileType, 4),
        ("@ANSI 63A000", HeaderField::IssuerIdentificationNumber, 6),
        ("@ANSI 6360000X", HeaderField::VersionNumber, 12),
        ("@ANSI 63600003x1", HeaderField::JurisdictionVersionNumber, 14),
        ("@ANSI 6360000300", HeaderField::NumberOfEntries, 16),
        ("@ANSI 63600001", HeaderField::NumberOfEntries, 14),
    ];
    for (input, expected, position) in cases {
        let err = parse_header(input).unwrap_err();
        assert_eq!(err, ParseError { expected, position }, "{input:?}");
        assert!(parse_barcode(input).is_err());
    }
    let err = parse_header("@ANSI 6360000X").unwrap_err();
    assert_eq!(err.message(), "expected the AAMVA version number at character 12");
    let err = parse_header("no indicator").unwrap_err();
    assert_eq!(err.message(), "expected the compliance indicator at character 0");
    let err = parse_header("@ANSI 6360000300").unwrap_err();
    assert_eq!(err.message(), "expected the number of entries at character 16");
}

#[test]
fn header_with_jurisdiction_version() {
    let (_, (_, header)) = parse_header("@\n\x1e\rANSI 636014090002DL00410165ZC02060011DL").unwrap();
    assert_eq!(header.issuer_id, 636014);
    assert_eq!(header.version_number, 9);
    assert_eq!(header.jurisdiction_version_number, Some(0));
    assert_eq!(header.number_of_entries, 2);
    assert_eq!(header.subfile_designators.len(), 2);
    assert_eq!(header.subfile_designators[1].offset, 206);
}

#[test]
fn designator_list_stops_at_first_bad_designator() {
    let (rest, (_, header)) = parse_header("@\n\x1e\rANSI 6360000103DL00390188XX00010002ID00010002").unwrap();
    assert_eq!(header.number_of_entries, 3);
    assert_eq!(header.subfile_designators.len(), 1);
    assert_eq!(rest, "XX00010002ID00010002");
}

#[test]
fn south_carolina_offset_is_corrected() {
    let (_, (_, header)) = parse_header("@\n\x1e\rANSI 6360050101DL00300010").unwrap();
    assert_eq!(header.subfile_designators[0].offset, 29);
    let (_, (_, other)) = parse_header("@\n\x1e\rANSI 6360050201DL00300010").unwrap();
    assert_eq!(other.subfile_designators[0].offset, 30);
}

#[test]
fn zero_offset_is_guessed_from_structure() {
    let input = "@\n\x1e\rANSI 6360000101DL00000020DLDAQ123\nDCSSMITH\r";
    let (_, (_, header)) = parse_header(input).unwrap();
    // The boundary match runs from the designator's "DL" over its digits to the subfile's
    // "DL" and "DAQ"; the guess is five characters before its end, where that "DL" begins.
    assert_eq!(header.subfile_designators[0].offset, 29);
    assert_eq!(input.find("DLDAQ"), Some(29));
    assert_eq!(header.subfile_designators[0].length, 20);
}

#[test]
fn garbage_marker_uses_guess_and_whole_length() {
    let input = "@\n\x1e\rANSI 6360000101DLabacDLDAQ123\nDCSSMITH\r";
    let (_, (_, header)) = parse_header(input).unwrap();
    let d = header.subfile_designators[0];
    assert_eq!(d.subfile_type, SubfileType::DL);
    assert_eq!(d.length, input.len() as u32);
    assert_eq!(d.offset, input.find("DLDAQ").unwrap() as u32);
}

#[test]
fn subfile_window_is_clamped() {
    let payload: Vec<char> = "xxDLDAQ123\rDCSSMITH".chars().collect();
    let d = SubfileDesignator {
        subfile_type: SubfileType::DL,
        offset: 2,
        length: 500,
    };
    let sub = parse_subfile(&payload, &d).unwrap();
    assert_eq!(
        sub.elements,
        vec![element("DAQ", Some("123")), element("DCS", Some("SMITH"))]
    );
    let past = SubfileDesignator {
        subfile_type: SubfileType::DL,
        offset: 900,
        length: 10,
    };
    assert!(parse_subfile(&payload, &past).unwrap().elements.is_empty());
}

#[test]
fn subfile_with_bad_element_is_skipped() {
    let payload: Vec<char> = "DAQ123\r12345".chars().collect();
    let d = SubfileDesignator {
        subfile_type: SubfileType::ID,
        offset: 0,
        length: 12,
    };
    assert!(parse_subfile(&payload, &d).is_none());
}

#[test]
fn parse_barcode_reads_each_subfile() {
    let data = parse_barcode(SAMPLE).unwrap();
    assert_eq!(data.header.issuer_id, 636014);
    assert_eq!(data.subfiles.len(), 2);
    let dl = data.subfile(SubfileType::DL).unwrap();
    assert_eq!(dl[0], element("DAQ", Some("D1234567")));
    assert_eq!(dl.len(), 18);
    let zc = data.subfile(SubfileType::JurisdictionSpecific('C')).unwrap();
    assert_eq!(zc, &vec![element("ZCZ", Some("CAVALUE"))]);
    assert_eq!(data.get_field_owned("DCS"), Some("SMITH".to_string()));
    assert_eq!(data.get_field_owned("ZCZ"), None);
}

#[test]
fn later_duplicates_win() {
    let input = "@\n\x1e\rANSI 6360000102DL00390007DL00460009DAQ111\rDLDAQ222\r";
    let data = parse_barcode(input).unwrap();
    assert_eq!(data.subfiles.len(), 2);
    assert_eq!(data.get_field_owned("DAQ"), Some("222".to_string()));
}
