//! The functional model of the header: the abstract record, and what
//! reading and writing a pair stream mean, stated as pure functions.
//!
//! `Header::read`, `Header::write` and `Header::normalize` are specified
//! against these definitions, and the laws of the codec are proved of them.

use vstd::prelude::*;

use crate::enums::{
    spec_angle_direction_from_i16, spec_angle_direction_to_i16, spec_angle_format_from_i16,
    spec_angle_format_to_i16, spec_attribute_visibility_from_i16, spec_attribute_visibility_to_i16,
    spec_unit_format_from_i16, spec_unit_format_to_i16, AngleDirection, AngleFormat,
    AttributeVisibility, UnitFormat,
};
use crate::error::ErrV;
use crate::pair::{pv_double, pv_short, pv_str, PairV, ValueV};
use crate::policy::{
    spec_is_valid_read_tag, spec_rules, spec_var_from_name, spec_var_name, spec_write_rule, VarId,
    VersionRule,
};
use crate::version::{spec_parse_version, spec_version_rank, spec_version_string, AcadVersion};

verus! {

/// Bit pattern of the double 0.2, the documented default text height.
pub open spec fn default_text_height_bits() -> u64 {
    0x3FC999999999999A
}

/// Bit pattern of the double 0.05, the documented default trace width.
pub open spec fn default_trace_width_bits() -> u64 {
    0x3FA999999999999A
}

/// Abstract value of a 3D point: the bit patterns of its coordinates.
#[verifier::ext_equal]
pub ghost struct PointV {
    pub x: u64,
    pub y: u64,
    pub z: u64,
}

/// Abstract value of the header record.
#[verifier::ext_equal]
pub ghost struct HeaderV {
    pub version: AcadVersion,
    pub maintenance_version: i16,
    pub angle_zero_direction: u64,
    pub angle_direction: AngleDirection,
    pub attribute_visibility: AttributeVisibility,
    pub angle_unit_format: AngleFormat,
    pub angle_unit_precision: i16,
    pub current_entity_line_type: Seq<char>,
    pub current_layer: Seq<char>,
    pub current_multiline_style: Seq<char>,
    pub dimension_style_name: Seq<char>,
    pub minimum_drawing_extents: PointV,
    pub hide_text: bool,
    pub unit_format: UnitFormat,
    pub unit_precision: i16,
    pub file_name: Seq<char>,
    pub object_snap_flags: i16,
    pub time_in_drawing: u64,
    pub default_text_height: u64,
    pub text_style: Seq<char>,
    pub trace_width: u64,
}

/// The record a freshly created document starts from.
pub open spec fn spec_default_header() -> HeaderV {
    HeaderV {
        version: AcadVersion::R12,
        maintenance_version: 0,
        angle_zero_direction: 0,
        angle_direction: AngleDirection::CounterClockwise,
        attribute_visibility: AttributeVisibility::Normal,
        angle_unit_format: AngleFormat::DecimalDegrees,
        angle_unit_precision: 0,
        current_entity_line_type: "BYLAYER"@,
        current_layer: "0"@,
        current_multiline_style: "STANDARD"@,
        dimension_style_name: "STANDARD"@,
        minimum_drawing_extents: PointV { x: 0, y: 0, z: 0 },
        hide_text: false,
        unit_format: UnitFormat::Decimal,
        unit_precision: 4,
        file_name: "."@,
        object_snap_flags: 0,
        time_in_drawing: 0,
        default_text_height: default_text_height_bits(),
        text_style: "STANDARD"@,
        trace_width: default_trace_width_bits(),
    }
}

/// The two's-complement bit image of a 16-bit integer.
pub open spec fn i16_bits(field: i16) -> u16 {
    if field >= 0 {
        field as u16
    } else {
        (field + 0x10000) as u16
    }
}

/// The 16-bit integer whose two's-complement bit image is given.
pub open spec fn bits_i16(x: u16) -> i16 {
    if x <= 0x7fff {
        x as i16
    } else {
        (x - 0x10000) as i16
    }
}

/// Whether a flag field has the masked bit set.
pub open spec fn flag_set(field: i16, mask: u16) -> bool {
    i16_bits(field) & mask != 0
}

/// The flag field with the masked bits forced to `value`, all others kept.
pub open spec fn with_flag(field: i16, mask: u16, value: bool) -> i16 {
    if value {
        bits_i16(i16_bits(field) | mask)
    } else {
        bits_i16(i16_bits(field) & !mask)
    }
}

/// Repair of invalid values to their documented defaults: lengths that must
/// be positive fall back to their defaults, names that must be non-empty
/// fall back to their default literals.  Total, and idempotent.
pub open spec fn spec_normalize(h: HeaderV) -> HeaderV {
    HeaderV {
        default_text_height: if crate::double::dbl_le_zero(h.default_text_height) {
            default_text_height_bits()
        } else {
            h.default_text_height
        },
        trace_width: if crate::double::dbl_le_zero(h.trace_width) {
            default_trace_width_bits()
        } else {
            h.trace_width
        },
        text_style: if h.text_style.len() == 0 {
            "STANDARD"@
        } else {
            h.text_style
        },
        current_layer: if h.current_layer.len() == 0 {
            "0"@
        } else {
            h.current_layer
        },
        current_entity_line_type: if h.current_entity_line_type.len() == 0 {
            "BYLAYER"@
        } else {
            h.current_entity_line_type
        },
        dimension_style_name: if h.dimension_style_name.len() == 0 {
            "STANDARD"@
        } else {
            h.dimension_style_name
        },
        file_name: if h.file_name.len() == 0 {
            "."@
        } else {
            h.file_name
        },
        ..h
    }
}

/// What applying one value pair under a named variable does to the record.
///
/// An unrecognized variable name is skipped (forward compatibility).  For a
/// known variable, a tag that no rule accepts at the record's version is an
/// unexpected-pair error, and a value of the wrong type for the field is a
/// malformed-pair error; otherwise the addressed field is replaced.
pub open spec fn spec_apply_value(h: HeaderV, name: Seq<char>, p: PairV) -> Result<HeaderV, ErrV> {
    match spec_var_from_name(name) {
        None => Ok(h),
        Some(var) => {
            if !spec_is_valid_read_tag(var, p.code, h.version) {
                Err(ErrV::Unexpected(p, name))
            } else {
                match var {
                    VarId::AcadMaintVer => match p.value {
                        ValueV::Short(v) => Ok(HeaderV { maintenance_version: v, ..h }),
                        _ => Err(ErrV::WrongValue(p)),
                    },
                    VarId::AcadVer => match p.value {
                        ValueV::Str(s) => Ok(HeaderV { version: spec_parse_version(s), ..h }),
                        _ => Err(ErrV::WrongValue(p)),
                    },
                    VarId::AngBase => match p.value {
                        ValueV::Double(b) => Ok(HeaderV { angle_zero_direction: b, ..h }),
                        _ => Err(ErrV::WrongValue(p)),
                    },
                    VarId::AngDir => match p.value {
                        ValueV::Short(v) => Ok(
                            HeaderV { angle_direction: spec_angle_direction_from_i16(v), ..h },
                        ),
                        _ => Err(ErrV::WrongValue(p)),
                    },
                    VarId::AttMode => match p.value {
                        ValueV::Short(v) => Ok(
                            HeaderV {
                                attribute_visibility: spec_attribute_visibility_from_i16(v),
                                ..h
                            },
                        ),
                        _ => Err(ErrV::WrongValue(p)),
                    },
                    VarId::AUnits => match p.value {
                        ValueV::Short(v) => Ok(
                            HeaderV { angle_unit_format: spec_angle_format_from_i16(v), ..h },
                        ),
                        _ => Err(ErrV::WrongValue(p)),
                    },
                    VarId::AUPrec => match p.value {
                        ValueV::Short(v) => Ok(HeaderV { angle_unit_precision: v, ..h }),
                        _ => Err(ErrV::WrongValue(p)),
                    },
                    VarId::CeLType => match p.value {
                        ValueV::Str(s) => Ok(HeaderV { current_entity_line_type: s, ..h }),
                        _ => Err(ErrV::WrongValue(p)),
                    },
                    VarId::CLayer => match p.value {
                        ValueV::Str(s) => Ok(HeaderV { current_layer: s, ..h }),
                        _ => Err(ErrV::WrongValue(p)),
                    },
                    VarId::CmlStyle => match p.value {
                        ValueV::Str(s) => Ok(HeaderV { current_multiline_style: s, ..h }),
                        _ => Err(ErrV::WrongValue(p)),
                    },
                    VarId::DimStyle => match p.value {
                        ValueV::Str(s) => Ok(HeaderV { dimension_style_name: s, ..h }),
                        _ => Err(ErrV::WrongValue(p)),
                    },
                    VarId::ExtMin => match p.value {
                        ValueV::Double(b) => {
                            let old_pt = h.minimum_drawing_extents;
                            if p.code == 10 {
                                Ok(
                                    HeaderV {
                                        minimum_drawing_extents: PointV { x: b, ..old_pt },
                                        ..h
                                    },
                                )
                            } else if p.code == 20 {
                                Ok(
                                    HeaderV {
                                        minimum_drawing_extents: PointV { y: b, ..old_pt },
                                        ..h
                                    },
                                )
                            } else {
                                Ok(
                                    HeaderV {
                                        minimum_drawing_extents: PointV { z: b, ..old_pt },
                                        ..h
                                    },
                                )
                            }
                        },
                        _ => Err(ErrV::WrongValue(p)),
                    },
                    VarId::HideText => match p.value {
                        ValueV::Short(v) => Ok(HeaderV { hide_text: v != 0, ..h }),
                        _ => Err(ErrV::WrongValue(p)),
                    },
                    VarId::LUnits => match p.value {
                        ValueV::Short(v) => Ok(
                            HeaderV { unit_format: spec_unit_format_from_i16(v), ..h },
                        ),
                        _ => Err(ErrV::WrongValue(p)),
                    },
                    VarId::LUPrec => match p.value {
                        ValueV::Short(v) => Ok(HeaderV { unit_precision: v, ..h }),
                        _ => Err(ErrV::WrongValue(p)),
                    },
                    VarId::Menu => match p.value {
                        ValueV::Str(s) => Ok(HeaderV { file_name: s, ..h }),
                        _ => Err(ErrV::WrongValue(p)),
                    },
                    VarId::OsMode => match p.value {
                        ValueV::Short(v) => Ok(HeaderV { object_snap_flags: v, ..h }),
                        _ => Err(ErrV::WrongValue(p)),
                    },
                    VarId::TdInDwg => match p.value {
                        ValueV::Double(b) => Ok(HeaderV { time_in_drawing: b, ..h }),
                        _ => Err(ErrV::WrongValue(p)),
                    },
                    VarId::TextSize => match p.value {
                        ValueV::Double(b) => Ok(HeaderV { default_text_height: b, ..h }),
                        _ => Err(ErrV::WrongValue(p)),
                    },
                    VarId::TextStyle => match p.value {
                        ValueV::Str(s) => Ok(HeaderV { text_style: s, ..h }),
                        _ => Err(ErrV::WrongValue(p)),
                    },
                    VarId::TraceWid => match p.value {
                        ValueV::Double(b) => Ok(HeaderV { trace_width: b, ..h }),
                        _ => Err(ErrV::WrongValue(p)),
                    },
                }
            }
        },
    }
}

/// Outcome of reading a pair stream: the record or the error, the items the
/// source still holds afterwards, and whether the extended-decoding switch
/// has been made.
#[verifier::ext_equal]
pub ghost struct ReadOutcome {
    pub result: Result<HeaderV, ErrV>,
    pub remaining: Seq<Result<PairV, ErrV>>,
    pub utf8: bool,
}

/// One pass of the read loop over the items of a source.
///
/// A fault of the producer aborts the read.  A pair with tag 0 ends the
/// section and stays in the source for the enclosing reader.  A pair with
/// tag 9 names the variable the following pairs belong to.  Any other pair
/// is applied to the current variable — an error when none has been named
/// yet.  Immediately after the version variable parses to a new-enough
/// version, string decoding switches to the extended character set.
/// Exhaustion is a non-fatal end of section.
pub open spec fn spec_read_loop(
    items: Seq<Result<PairV, ErrV>>,
    h: HeaderV,
    cur: Option<Seq<char>>,
    utf8: bool,
) -> ReadOutcome
    decreases items.len(),
{
    if items.len() == 0 {
        ReadOutcome { result: Ok(h), remaining: items, utf8 }
    } else {
        match items[0] {
            Err(e) => ReadOutcome { result: Err(e), remaining: items.skip(1), utf8 },
            Ok(p) => {
                if p.code == 0 {
                    ReadOutcome { result: Ok(h), remaining: items, utf8 }
                } else if p.code == 9 {
                    match p.value {
                        ValueV::Str(name) => spec_read_loop(items.skip(1), h, Some(name), utf8),
                        _ => ReadOutcome {
                            result: Err(ErrV::WrongValue(p)),
                            remaining: items.skip(1),
                            utf8,
                        },
                    }
                } else {
                    match cur {
                        None => ReadOutcome {
                            result: Err(ErrV::Unexpected(p, ""@)),
                            remaining: items.skip(1),
                            utf8,
                        },
                        Some(name) => match spec_apply_value(h, name, p) {
                            Err(e) => ReadOutcome {
                                result: Err(e),
                                remaining: items.skip(1),
                                utf8,
                            },
                            Ok(h2) => spec_read_loop(
                                items.skip(1),
                                h2,
                                Some(name),
                                utf8 || (name == "$ACADVER"@ && spec_version_rank(h2.version)
                                    >= spec_version_rank(AcadVersion::R2007)),
                            ),
                        },
                    }
                }
            },
        }
    }
}

/// Reading a whole pair stream, starting from the default record.
pub open spec fn spec_read(items: Seq<Result<PairV, ErrV>>, utf8: bool) -> ReadOutcome {
    spec_read_loop(items, spec_default_header(), None, utf8)
}

/// The value pairs a variable contributes on write, under its winning rule.
pub open spec fn spec_value_pairs(h: HeaderV, var: VarId, rule: VersionRule) -> Seq<PairV> {
    match var {
        VarId::AcadMaintVer => seq![pv_short(rule.tag, h.maintenance_version)],
        VarId::AcadVer => seq![pv_str(rule.tag, spec_version_string(h.version))],
        VarId::AngBase => seq![pv_double(rule.tag, h.angle_zero_direction)],
        VarId::AngDir => seq![
            pv_short(rule.tag, spec_angle_direction_to_i16(h.angle_direction)),
        ],
        VarId::AttMode => seq![
            pv_short(rule.tag, spec_attribute_visibility_to_i16(h.attribute_visibility)),
        ],
        VarId::AUnits => seq![
            pv_short(rule.tag, spec_angle_format_to_i16(h.angle_unit_format)),
        ],
        VarId::AUPrec => seq![pv_short(rule.tag, h.angle_unit_precision)],
        VarId::CeLType => seq![pv_str(rule.tag, h.current_entity_line_type)],
        VarId::CLayer => seq![pv_str(rule.tag, h.current_layer)],
        VarId::CmlStyle => seq![pv_str(rule.tag, h.current_multiline_style)],
        VarId::DimStyle => seq![pv_str(rule.tag, h.dimension_style_name)],
        VarId::ExtMin => seq![
            pv_double(rule.tag, h.minimum_drawing_extents.x),
            pv_double((rule.tag + 10) as u16, h.minimum_drawing_extents.y),
            pv_double((rule.tag + 20) as u16, h.minimum_drawing_extents.z),
        ],
        VarId::HideText => seq![
            pv_short(rule.tag, if h.hide_text { 1 as i16 } else { 0 as i16 }),
        ],
        VarId::LUnits => seq![pv_short(rule.tag, spec_unit_format_to_i16(h.unit_format))],
        VarId::LUPrec => seq![pv_short(rule.tag, h.unit_precision)],
        VarId::Menu => seq![pv_str(rule.tag, h.file_name)],
        VarId::OsMode => seq![pv_short(rule.tag, h.object_snap_flags)],
        VarId::TdInDwg => seq![pv_double(rule.tag, h.time_in_drawing)],
        VarId::TextSize => seq![pv_double(rule.tag, h.default_text_height)],
        VarId::TextStyle => seq![pv_str(rule.tag, h.text_style)],
        VarId::TraceWid => seq![pv_double(rule.tag, h.trace_width)],
    }
}

/// What a variable contributes on write: nothing when it is suppressed at
/// the record's version, else its name pair followed by its value pairs.
pub open spec fn spec_emit_var(h: HeaderV, var: VarId) -> Seq<PairV> {
    match spec_write_rule(var, h.version) {
        None => Seq::empty(),
        Some(rule) => seq![pv_str(9, spec_var_name(var))] + spec_value_pairs(h, var, rule),
    }
}

/// The canonical order variables are written in.
pub open spec fn spec_var_order() -> Seq<VarId> {
    seq![
        VarId::AcadMaintVer,
        VarId::AcadVer,
        VarId::AngBase,
        VarId::AngDir,
        VarId::AttMode,
        VarId::AUnits,
        VarId::AUPrec,
        VarId::CeLType,
        VarId::CLayer,
        VarId::CmlStyle,
        VarId::DimStyle,
        VarId::ExtMin,
        VarId::HideText,
        VarId::LUnits,
        VarId::LUPrec,
        VarId::Menu,
        VarId::OsMode,
        VarId::TdInDwg,
        VarId::TextSize,
        VarId::TextStyle,
        VarId::TraceWid,
    ]
}

/// What a list of variables contributes on write, in order.
pub open spec fn spec_emit_vars(h: HeaderV, vars: Seq<VarId>) -> Seq<PairV>
    decreases vars.len(),
{
    if vars.len() == 0 {
        Seq::empty()
    } else {
        spec_emit_var(h, vars[0]) + spec_emit_vars(h, vars.drop_first())
    }
}

/// The body of the HEADER section written for a record.
pub open spec fn spec_write_body(h: HeaderV) -> Seq<PairV> {
    spec_emit_vars(h, spec_var_order())
}

/// The whole HEADER section written for a record, framing included.
pub open spec fn spec_write_section(h: HeaderV) -> Seq<PairV> {
    seq![pv_str(0, "SECTION"@), pv_str(2, "HEADER"@)] + spec_write_body(h) + seq![
        pv_str(0, "ENDSEC"@),
    ]
}

/// Emission distributes over extending the variable list by one.
pub proof fn lemma_emit_vars_push(h: HeaderV, vars: Seq<VarId>, x: VarId)
    ensures
        spec_emit_vars(h, vars.push(x)) == spec_emit_vars(h, vars) + spec_emit_var(h, x),
    decreases vars.len(),
{
    reveal_with_fuel(spec_emit_vars, 3);
    if vars.len() == 0 {
        assert(vars.push(x)[0] == x);
        assert(vars.push(x).drop_first() =~= Seq::<VarId>::empty());
        assert(spec_emit_vars(h, vars.push(x)) =~= spec_emit_vars(h, vars) + spec_emit_var(h, x));
    } else {
        lemma_emit_vars_push(h, vars.drop_first(), x);
        assert(vars.push(x).drop_first() =~= vars.drop_first().push(x));
        assert(vars.push(x)[0] == vars[0]);
        assert(spec_emit_vars(h, vars.push(x)) == spec_emit_var(h, vars[0]) + (spec_emit_vars(
            h,
            vars.drop_first(),
        ) + spec_emit_var(h, x)));
        assert(spec_emit_var(h, vars[0]) + (spec_emit_vars(h, vars.drop_first()) + spec_emit_var(
            h,
            x,
        )) =~= (spec_emit_var(h, vars[0]) + spec_emit_vars(h, vars.drop_first())) + spec_emit_var(
            h,
            x,
        ));
    }
}

} // verus!
