use dxf_header::double::Double;
use dxf_header::enums::{AngleDirection, AngleFormat, AttributeVisibility, UnitFormat};
use dxf_header::header::{Header, Point};
use dxf_header::pair::CodePair;
use dxf_header::source::CodePairSource;
use dxf_header::version::AcadVersion;

fn dbl(v: f64) -> Double {
    Double::from_bits(v.to_bits())
}

fn read_header(pairs: Vec<CodePair>) -> Header {
    let mut source = CodePairSource::from_pairs(pairs);
    Header::read(&mut source).unwrap()
}

fn write_header(header: &Header) -> Vec<CodePair> {
    let mut sink: Vec<CodePair> = Vec::new();
    header.write(&mut sink);
    sink
}

fn contains_subseq(haystack: &[CodePair], needle: &[CodePair]) -> bool {
    if needle.is_empty() {
        return true;
    }
    if haystack.len() < needle.len() {
        return false;
    }
    for start in 0..=(haystack.len() - needle.len()) {
        if (0..needle.len()).all(|k| haystack[start + k] == needle[k]) {
            return true;
        }
    }
    false
}

#[test]
fn empty_header() {
    // The enclosing reader consumes (0, "SECTION") and (2, "HEADER"); the
    // header codec sees the rest and leaves the tag-0 pair in the source.
    let file_pairs = vec![
        CodePair::new_str(0, "SECTION"),
        CodePair::new_str(2, "HEADER"),
        CodePair::new_str(0, "ENDSEC"),
        CodePair::new_str(0, "EOF"),
    ];
    let section_body: Vec<CodePair> = file_pairs.into_iter().skip(2).collect();
    let mut source = CodePairSource::from_pairs(section_body);
    let header = Header::read(&mut source).unwrap();
    assert_eq!(AcadVersion::R12, header.version);
    // The end-of-section pair is still there for the enclosing reader.
    let next = source.next().unwrap().unwrap();
    assert_eq!(0, next.code);
}

#[test]
fn specific_header_values() {
    let header = read_header(vec![
        CodePair::new_str(9, "$ACADMAINTVER"),
        CodePair::new_i16(70, 16),
        CodePair::new_str(9, "$ACADVER"),
        CodePair::new_str(1, "AC1012"),
        CodePair::new_str(9, "$ANGBASE"),
        CodePair::new_double(50, dbl(55.0)),
        CodePair::new_str(9, "$ANGDIR"),
        CodePair::new_i16(70, 1),
        CodePair::new_str(9, "$ATTMODE"),
        CodePair::new_i16(70, 1),
        CodePair::new_str(9, "$AUNITS"),
        CodePair::new_i16(70, 3),
        CodePair::new_str(9, "$AUPREC"),
        CodePair::new_i16(70, 7),
        CodePair::new_str(9, "$CLAYER"),
        CodePair::new_str(8, "<current layer>"),
        CodePair::new_str(9, "$LUNITS"),
        CodePair::new_i16(70, 6),
        CodePair::new_str(9, "$LUPREC"),
        CodePair::new_i16(70, 7),
    ]);
    assert_eq!(16, header.maintenance_version);
    assert_eq!(AcadVersion::R13, header.version);
    assert_eq!(55.0, f64::from_bits(header.angle_zero_direction.bits()));
    assert_eq!(AngleDirection::Clockwise, header.angle_direction);
    assert_eq!(AttributeVisibility::Normal, header.attribute_visibility);
    assert_eq!(AngleFormat::Radians, header.angle_unit_format);
    assert_eq!(7, header.angle_unit_precision);
    assert_eq!("<current layer>", header.current_layer);
    assert_eq!(UnitFormat::Architectural, header.unit_format);
    assert_eq!(7, header.unit_precision);
}

#[test]
fn read_alternate_version() {
    let header = read_header(vec![
        CodePair::new_str(9, "$ACADVER"),
        CodePair::new_str(1, "15.05"),
    ]);
    assert_eq!(AcadVersion::R2000, header.version);
}

#[test]
fn read_invalid_version() {
    let header = read_header(vec![
        CodePair::new_str(9, "$ACADVER"),
        CodePair::new_str(1, "AC3.14159"),
    ]);
    assert_eq!(AcadVersion::R12, header.version);
}

#[test]
fn read_multi_value_variable() {
    let header = read_header(vec![
        CodePair::new_str(9, "$EXTMIN"),
        CodePair::new_double(10, dbl(1.1)),
        CodePair::new_double(20, dbl(2.2)),
        CodePair::new_double(30, dbl(3.3)),
    ]);
    assert_eq!(
        Point::new(dbl(1.1), dbl(2.2), dbl(3.3)),
        header.minimum_drawing_extents
    );
}

#[test]
fn write_multiple_value_variable() {
    let mut header = Header::default();
    header.minimum_drawing_extents = Point::new(dbl(1.1), dbl(2.2), dbl(3.3));
    let pairs = write_header(&header);
    assert!(contains_subseq(
        &pairs,
        &[
            CodePair::new_str(9, "$EXTMIN"),
            CodePair::new_double(10, dbl(1.1)),
            CodePair::new_double(20, dbl(2.2)),
            CodePair::new_double(30, dbl(3.3)),
        ]
    ));
}

#[test]
fn normalize_header() {
    let mut header = Header::default();
    header.default_text_height = dbl(-1.0); // $TEXTSIZE; normalized to 0.2
    header.trace_width = dbl(0.0); // $TRACEWID; normalized to 0.05
    header.text_style = String::new(); // $TEXTSTYLE; normalized to "STANDARD"
    header.current_layer = String::new(); // $CLAYER; normalized to "0"
    header.current_entity_line_type = String::new(); // $CELTYPE; normalized to "BYLAYER"
    header.dimension_style_name = String::new(); // $DIMSTYLE; normalized to "STANDARD"
    header.file_name = String::new(); // $MENU; normalized to "."
    header.normalize();
    assert_eq!(0.2, f64::from_bits(header.default_text_height.bits()));
    assert_eq!(0.05, f64::from_bits(header.trace_width.bits()));
    assert_eq!("STANDARD", header.text_style);
    assert_eq!("0", header.current_layer);
    assert_eq!("BYLAYER", header.current_entity_line_type);
    assert_eq!("STANDARD", header.dimension_style_name);
    assert_eq!(".", header.file_name);
}

#[test]
fn read_header_flags() {
    let header = read_header(vec![
        CodePair::new_str(9, "$OSMODE"),
        CodePair::new_i16(70, 12),
    ]);
    assert!(!header.get_end_point_snap());
    assert!(!header.get_mid_point_snap());
    assert!(header.get_center_snap());
    assert!(header.get_node_snap());
    assert!(!header.get_quadrant_snap());
    assert!(!header.get_intersection_snap());
    assert!(!header.get_insertion_snap());
    assert!(!header.get_perpendicular_snap());
    assert!(!header.get_tangent_snap());
    assert!(!header.get_nearest_snap());
    assert!(!header.get_apparent_intersection_snap());
    assert!(!header.get_extension_snap());
    assert!(!header.get_parallel_snap());
}

#[test]
fn write_header_flags() {
    let mut header = Header::default();
    header.set_end_point_snap(false);
    header.set_mid_point_snap(false);
    header.set_center_snap(true);
    header.set_node_snap(true);
    header.set_quadrant_snap(false);
    header.set_intersection_snap(false);
    header.set_insertion_snap(false);
    header.set_perpendicular_snap(false);
    header.set_tangent_snap(false);
    header.set_nearest_snap(false);
    header.set_apparent_intersection_snap(false);
    header.set_extension_snap(false);
    header.set_parallel_snap(false);
    let pairs = write_header(&header);
    assert!(contains_subseq(
        &pairs,
        &[CodePair::new_str(9, "$OSMODE"), CodePair::new_i16(70, 12)]
    ));
}

#[test]
fn read_variable_with_different_codes() {
    // read $CMLSTYLE as code 7
    let header = read_header(vec![
        CodePair::new_str(9, "$CMLSTYLE"),
        CodePair::new_str(7, "cml-style-7"),
    ]);
    assert_eq!("cml-style-7", header.current_multiline_style);

    // read $CMLSTYLE as code 2
    let header = read_header(vec![
        CodePair::new_str(9, "$CMLSTYLE"),
        CodePair::new_str(2, "cml-style-2"),
    ]);
    assert_eq!("cml-style-2", header.current_multiline_style);
}

#[test]
fn write_variable_with_different_codes() {
    // R13 writes $CMLSTYLE as a code 7
    let mut header = Header::default();
    header.version = AcadVersion::R13;
    header.current_multiline_style = String::from("cml-style-7");
    assert!(contains_subseq(
        &write_header(&header),
        &[
            CodePair::new_str(9, "$CMLSTYLE"),
            CodePair::new_str(7, "cml-style-7"),
        ]
    ));

    // R14+ writes $CMLSTYLE as a code 2
    let mut header = Header::default();
    header.version = AcadVersion::R14;
    header.current_multiline_style = String::from("cml-style-2");
    assert!(contains_subseq(
        &write_header(&header),
        &[
            CodePair::new_str(9, "$CMLSTYLE"),
            CodePair::new_str(2, "cml-style-2"),
        ]
    ));
}

#[test]
fn read_drawing_edit_duration() {
    let header = read_header(vec![
        CodePair::new_str(9, "$TDINDWG"),
        CodePair::new_double(40, dbl(100.0)),
    ]);
    assert_eq!(100, header.time_in_drawing_seconds());
}

#[test]
fn dont_write_suppressed_variables() {
    let mut header = Header::default();
    header.version = AcadVersion::R2004;
    let pairs = write_header(&header);
    let name = CodePair::new_str(9, "$HIDETEXT");
    let mut seen_280 = false;
    for i in 0..pairs.len() - 1 {
        if pairs[i] == name {
            assert_ne!(290, pairs[i + 1].code);
            if pairs[i + 1].code == 280 {
                seen_280 = true;
            }
        }
    }
    assert!(seen_280);

    // Below its version band the variable is omitted entirely.
    let mut header = Header::default();
    header.version = AcadVersion::R2000;
    let pairs = write_header(&header);
    assert!(pairs.iter().all(|p| *p != name));
}
