use dxf_header::double::Double;
use dxf_header::error::DxfError;
use dxf_header::header::{Header, Point};
use dxf_header::pair::CodePair;
use dxf_header::policy::{is_valid_read_tag, tag_for_write, VarId};
use dxf_header::source::CodePairSource;
use dxf_header::version::AcadVersion;

fn dbl(v: f64) -> Double {
    Double::from_bits(v.to_bits())
}

fn read_header(pairs: Vec<CodePair>) -> Header {
    let mut source = CodePairSource::from_pairs(pairs);
    Header::read(&mut source).unwrap()
}

fn write_header(header: &Header) -> Vec<CodePair> {
    let mut sink: Vec<CodePair> = Vec::new();
    header.write(&mut sink);
    sink
}

#[test]
fn normalize_is_idempotent() {
    let mut once = Header::default();
    once.default_text_height = dbl(-3.5);
    once.trace_width = dbl(-0.0);
    once.text_style = String::new();
    once.normalize();
    let mut twice = Header::default();
    twice.default_text_height = dbl(-3.5);
    twice.trace_width = dbl(-0.0);
    twice.text_style = String::new();
    twice.normalize();
    twice.normalize();
    assert_eq!(once, twice);
}

#[test]
fn normalize_keeps_valid_values() {
    let mut header = Header::default();
    header.default_text_height = dbl(7.25);
    header.text_style = String::from("MYSTYLE");
    header.normalize();
    assert_eq!(7.25, f64::from_bits(header.default_text_height.bits()));
    assert_eq!("MYSTYLE", header.text_style);
}

#[test]
fn angle_base_scenario() {
    let header = read_header(vec![
        CodePair::new_str(9, "$ANGBASE"),
        CodePair::new_double(50, dbl(55.0)),
    ]);
    assert_eq!(55.0, f64::from_bits(header.angle_zero_direction.bits()));
}

#[test]
fn osmode_scenario_bits() {
    let header = read_header(vec![
        CodePair::new_str(9, "$OSMODE"),
        CodePair::new_i16(70, 12),
    ]);
    // 12 = 4 + 8: the third and fourth lowest bits.
    assert!(header.get_center_snap());
    assert!(header.get_node_snap());
    assert!(!header.get_end_point_snap());
    assert!(!header.get_mid_point_snap());
    assert!(!header.get_quadrant_snap());
}

#[test]
fn flag_set_then_get_round_trip() {
    let mut header = Header::default();
    header.set_tangent_snap(true);
    assert!(header.get_tangent_snap());
    // Every other bit is untouched.
    assert!(!header.get_end_point_snap());
    assert!(!header.get_parallel_snap());
    header.set_node_snap(true);
    assert!(header.get_tangent_snap());
    assert!(header.get_node_snap());
    header.set_tangent_snap(false);
    assert!(!header.get_tangent_snap());
    assert!(header.get_node_snap());
}

#[test]
fn point_with_no_sub_pairs_defaults_to_zero() {
    let header = read_header(vec![CodePair::new_str(9, "$EXTMIN")]);
    assert_eq!(
        Point::new(dbl(0.0), dbl(0.0), dbl(0.0)),
        header.minimum_drawing_extents
    );
}

#[test]
fn read_write_round_trip_preserves_fields() {
    let original = read_header(vec![
        CodePair::new_str(9, "$ACADVER"),
        CodePair::new_str(1, "AC1021"),
        CodePair::new_str(9, "$ANGBASE"),
        CodePair::new_double(50, dbl(55.0)),
        CodePair::new_str(9, "$EXTMIN"),
        CodePair::new_double(10, dbl(1.1)),
        CodePair::new_double(20, dbl(2.2)),
        CodePair::new_double(30, dbl(3.3)),
        CodePair::new_str(9, "$OSMODE"),
        CodePair::new_i16(70, 12),
        CodePair::new_str(9, "$CMLSTYLE"),
        CodePair::new_str(7, "cml"),
        CodePair::new_str(9, "$HIDETEXT"),
        CodePair::new_i16(280, 1),
    ]);
    let pairs = write_header(&original);
    // The enclosing reader would consume the two section-open pairs.
    let body: Vec<CodePair> = pairs.into_iter().skip(2).collect();
    let again = read_header(body);
    assert_eq!(original, again);
}

#[test]
fn unknown_variable_names_are_skipped() {
    let header = read_header(vec![
        CodePair::new_str(9, "$NOSUCHVARIABLE"),
        CodePair::new_i16(70, 42),
        CodePair::new_str(9, "$AUPREC"),
        CodePair::new_i16(70, 5),
    ]);
    assert_eq!(5, header.angle_unit_precision);
}

#[test]
fn unexpected_top_level_pair_is_an_error() {
    let mut source = CodePairSource::from_pairs(vec![CodePair::new_i16(70, 1)]);
    let result = Header::read(&mut source);
    assert!(matches!(result, Err(DxfError::UnexpectedCodePair(_, _))));
}

#[test]
fn wrong_value_type_is_an_error() {
    let mut source = CodePairSource::from_pairs(vec![
        CodePair::new_str(9, "$ANGBASE"),
        CodePair::new_str(50, "not a number"),
    ]);
    let result = Header::read(&mut source);
    assert!(matches!(result, Err(DxfError::WrongValueType(_))));
}

#[test]
fn unknown_tag_under_known_variable_is_an_error() {
    let mut source = CodePairSource::from_pairs(vec![
        CodePair::new_str(9, "$ANGBASE"),
        CodePair::new_double(51, dbl(1.0)),
    ]);
    let result = Header::read(&mut source);
    assert!(matches!(result, Err(DxfError::UnexpectedCodePair(_, _))));
}

#[test]
fn tag_outside_version_band_is_an_error() {
    // $HIDETEXT has no rule below its band; the record still reads as the
    // default version when the pair arrives.
    let mut source = CodePairSource::from_pairs(vec![
        CodePair::new_str(9, "$HIDETEXT"),
        CodePair::new_i16(280, 1),
    ]);
    let result = Header::read(&mut source);
    assert!(matches!(result, Err(DxfError::UnexpectedCodePair(_, _))));
}

#[test]
fn source_fault_propagates() {
    let fault = DxfError::WrongValueType(CodePair::new_i16(70, 9));
    let mut source = CodePairSource::from_items(vec![
        Ok(CodePair::new_str(9, "$AUPREC")),
        Err(fault),
    ]);
    let result = Header::read(&mut source);
    assert!(matches!(result, Err(DxfError::WrongValueType(_))));
}

#[test]
fn new_version_switches_string_decoding() {
    let mut source = CodePairSource::from_pairs(vec![
        CodePair::new_str(9, "$ACADVER"),
        CodePair::new_str(1, "AC1021"),
    ]);
    let header = Header::read(&mut source).unwrap();
    assert_eq!(AcadVersion::R2007, header.version);
    assert!(source.reads_utf8());
}

#[test]
fn old_version_keeps_string_decoding() {
    let mut source = CodePairSource::from_pairs(vec![
        CodePair::new_str(9, "$ACADVER"),
        CodePair::new_str(1, "AC1009"),
    ]);
    let header = Header::read(&mut source).unwrap();
    assert_eq!(AcadVersion::R12, header.version);
    assert!(!source.reads_utf8());
}

#[test]
fn version_strings_parse() {
    assert_eq!(AcadVersion::R9, AcadVersion::parse("AC1004"));
    assert_eq!(AcadVersion::R14, AcadVersion::parse("14.01"));
    assert_eq!(AcadVersion::R2000, AcadVersion::parse("15.06"));
    assert_eq!(AcadVersion::R2018, AcadVersion::parse("AC1032"));
    assert_eq!(AcadVersion::R12, AcadVersion::parse("garbage"));
}

#[test]
fn duration_truncates_toward_zero() {
    let header = read_header(vec![
        CodePair::new_str(9, "$TDINDWG"),
        CodePair::new_double(40, dbl(100.75)),
    ]);
    assert_eq!(100, header.time_in_drawing_seconds());
    let header = read_header(vec![
        CodePair::new_str(9, "$TDINDWG"),
        CodePair::new_double(40, dbl(-3.5)),
    ]);
    assert_eq!(0, header.time_in_drawing_seconds());
}

#[test]
fn write_emits_section_framing() {
    let pairs = write_header(&Header::default());
    assert_eq!(CodePair::new_str(0, "SECTION"), pairs[0]);
    assert_eq!(CodePair::new_str(2, "HEADER"), pairs[1]);
    assert_eq!(CodePair::new_str(0, "ENDSEC"), pairs[pairs.len() - 1]);
}

#[test]
fn integer_where_short_expected_is_an_error() {
    let mut source = CodePairSource::from_pairs(vec![
        CodePair::new_str(9, "$OSMODE"),
        CodePair::new_i32(70, 12),
    ]);
    let result = Header::read(&mut source);
    assert!(matches!(result, Err(DxfError::WrongValueType(_))));
}

#[test]
fn policy_resolves_tags_by_band() {
    assert_eq!(Some(7), tag_for_write(VarId::CmlStyle, AcadVersion::R13));
    assert_eq!(Some(2), tag_for_write(VarId::CmlStyle, AcadVersion::R14));
    assert_eq!(None, tag_for_write(VarId::HideText, AcadVersion::R2000));
    assert_eq!(Some(280), tag_for_write(VarId::HideText, AcadVersion::R2004));
    // Both alias tags read at both bands; the point sub-tags all read.
    assert!(is_valid_read_tag(VarId::CmlStyle, 2, AcadVersion::R13));
    assert!(is_valid_read_tag(VarId::CmlStyle, 7, AcadVersion::R2018));
    assert!(is_valid_read_tag(VarId::ExtMin, 30, AcadVersion::R12));
    assert!(!is_valid_read_tag(VarId::ExtMin, 40, AcadVersion::R12));
    assert!(!is_valid_read_tag(VarId::HideText, 280, AcadVersion::R12));
}

#[test]
fn write_is_deterministic() {
    let mut a = Header::default();
    a.version = AcadVersion::R2013;
    let mut b = Header::default();
    b.version = AcadVersion::R2013;
    assert_eq!(write_header(&a), write_header(&b));
}
