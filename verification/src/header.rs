//! The header record and its codec: reading a pair stream into the record,
//! writing the record back out, bit-flag accessors, and the normalizer.

use vstd::prelude::*;

use crate::double::{dbl_le_zero, dbl_trunc_u64, Double};
use crate::enums::{AngleDirection, AngleFormat, AttributeVisibility, UnitFormat};
use crate::error::DxfError;
use crate::model::{
    bits_i16, flag_set, i16_bits, spec_apply_value, spec_default_header, spec_emit_var,
    spec_emit_vars, spec_normalize, spec_read_loop, spec_value_pairs, spec_var_order,
    spec_write_body, spec_write_section, with_flag, HeaderV, PointV,
};
use crate::model::lemma_emit_vars_push;
use crate::pair::{CodePair, PairV};
use crate::policy::{
    all_band, is_valid_read_tag, rule_matches, spec_best_rule, spec_rules, spec_write_rule,
    var_from_name, var_name, write_rule, FieldKind, VarId, VersionRule,
};
use crate::source::CodePairSource;
use crate::version::{str_eq, AcadVersion};

verus! {

/// A 3D point: three doubles read and written as consecutive pairs.
#[derive(Clone, Copy, PartialEq, Eq, Structural, Debug)]
pub struct Point {
    pub x: Double,
    pub y: Double,
    pub z: Double,
}

impl View for Point {
    type V = PointV;

    open spec fn view(&self) -> PointV {
        PointV { x: self.x.spec_bits(), y: self.y.spec_bits(), z: self.z.spec_bits() }
    }
}

impl Point {
    pub fn new(x: Double, y: Double, z: Double) -> (r: Point)
        ensures
            r@ == (PointV { x: x.spec_bits(), y: y.spec_bits(), z: z.spec_bits() }),
    {
        Point { x, y, z }
    }

    /// The origin: all coordinates zero.
    pub fn origin() -> (r: Point)
        ensures
            r@ == (PointV { x: 0, y: 0, z: 0 }),
    {
        Point { x: Double::zero(), y: Double::zero(), z: Double::zero() }
    }
}

/// The header record: one instance per document, holding every modeled
/// variable.  The bit-flag field backing the object-snap accessors is kept
/// private so that it can only change through the accessors or through a
/// parsed pair.
#[derive(Debug, PartialEq)]
pub struct Header {
    pub version: AcadVersion,
    pub maintenance_version: i16,
    pub angle_zero_direction: Double,
    pub angle_direction: AngleDirection,
    pub attribute_visibility: AttributeVisibility,
    pub angle_unit_format: AngleFormat,
    pub angle_unit_precision: i16,
    pub current_entity_line_type: String,
    pub current_layer: String,
    pub current_multiline_style: String,
    pub dimension_style_name: String,
    pub minimum_drawing_extents: Point,
    pub hide_text: bool,
    pub unit_format: UnitFormat,
    pub unit_precision: i16,
    pub file_name: String,
    object_snap_flags: i16,
    pub time_in_drawing: Double,
    pub default_text_height: Double,
    pub text_style: String,
    pub trace_width: Double,
}

impl View for Header {
    type V = HeaderV;

    closed spec fn view(&self) -> HeaderV {
        HeaderV {
            version: self.version,
            maintenance_version: self.maintenance_version,
            angle_zero_direction: self.angle_zero_direction.spec_bits(),
            angle_direction: self.angle_direction,
            attribute_visibility: self.attribute_visibility,
            angle_unit_format: self.angle_unit_format,
            angle_unit_precision: self.angle_unit_precision,
            current_entity_line_type: self.current_entity_line_type@,
            current_layer: self.current_layer@,
            current_multiline_style: self.current_multiline_style@,
            dimension_style_name: self.dimension_style_name@,
            minimum_drawing_extents: self.minimum_drawing_extents@,
            hide_text: self.hide_text,
            unit_format: self.unit_format,
            unit_precision: self.unit_precision,
            file_name: self.file_name@,
            object_snap_flags: self.object_snap_flags,
            time_in_drawing: self.time_in_drawing.spec_bits(),
            default_text_height: self.default_text_height.spec_bits(),
            text_style: self.text_style@,
            trace_width: self.trace_width.spec_bits(),
        }
    }
}

impl Default for Header {
    /// The record of a freshly created document: every field at its
    /// documented default.
    fn default() -> (r: Header)
        ensures
            r@ == spec_default_header(),
    {
        Header {
            version: AcadVersion::R12,
            maintenance_version: 0,
            angle_zero_direction: Double::zero(),
            angle_direction: AngleDirection::CounterClockwise,
            attribute_visibility: AttributeVisibility::Normal,
            angle_unit_format: AngleFormat::DecimalDegrees,
            angle_unit_precision: 0,
            current_entity_line_type: "BYLAYER".to_owned(),
            current_layer: "0".to_owned(),
            current_multiline_style: "STANDARD".to_owned(),
            dimension_style_name: "STANDARD".to_owned(),
            minimum_drawing_extents: Point::origin(),
            hide_text: false,
            unit_format: UnitFormat::Decimal,
            unit_precision: 4,
            file_name: ".".to_owned(),
            object_snap_flags: 0,
            time_in_drawing: Double::zero(),
            default_text_height: Double::from_bits(0x3FC999999999999A),
            text_style: "STANDARD".to_owned(),
            trace_width: Double::from_bits(0x3FA999999999999A),
        }
    }
}

/// The two's-complement bit image of a 16-bit integer.
fn i16_to_bits(field: i16) -> (r: u16)
    ensures
        r == i16_bits(field),
{
    if field >= 0 {
        field as u16
    } else {
        ((field as i32) + 0x10000) as u16
    }
}

/// The 16-bit integer whose two's-complement bit image is given.
fn bits_to_i16(x: u16) -> (r: i16)
    ensures
        r == bits_i16(x),
{
    if x <= 0x7fff {
        x as i16
    } else {
        ((x as i32) - 0x10000) as i16
    }
}

/// Whether a flag field has the masked bit set.
fn get_flag(field: i16, mask: u16) -> (r: bool)
    ensures
        r == flag_set(field, mask),
{
    i16_to_bits(field) & mask != 0
}

/// The flag field with the masked bits forced to `value`, all others kept.
fn set_flag(field: i16, mask: u16, value: bool) -> (r: i16)
    ensures
        r == with_flag(field, mask, value),
{
    let bits = i16_to_bits(field);
    if value {
        bits_to_i16(bits | mask)
    } else {
        bits_to_i16(bits & !mask)
    }
}

/// Reset a length that must be positive to its documented default.
fn ensure_positive_or_default(value: &mut Double, default_bits: u64)
    ensures
        final(value).spec_bits() == if dbl_le_zero(old(value).spec_bits()) {
            default_bits
        } else {
            old(value).spec_bits()
        },
{
    if value.is_le_zero() {
        *value = Double::from_bits(default_bits);
    }
}

/// Reset a name that must be non-empty to its documented default.
fn default_if_empty(value: &mut String, default: &str)
    ensures
        final(value)@ == if old(value)@.len() == 0 {
            default@
        } else {
            old(value)@
        },
{
    if value.as_str().is_empty() {
        *value = default.to_owned();
    }
}

/// Abstract values of a sequence of code pairs.
pub open spec fn pairs_view(s: Seq<CodePair>) -> Seq<PairV> {
    s.map_values(|q: CodePair| q@)
}

/// Append one pair to a sink.
fn push_pair(sink: &mut Vec<CodePair>, p: CodePair)
    ensures
        pairs_view(final(sink)@) == pairs_view(old(sink)@).push(p@),
{
    let ghost pv = p@;
    sink.push(p);
    proof {
        assert(pairs_view(sink@) =~= pairs_view(old(sink)@).push(pv));
    }
}

/// The abstract name of the current variable, if one has been named.
spec fn opt_name_view(o: Option<String>) -> Option<Seq<char>> {
    match o {
        Some(s) => Some(s@),
        None => None,
    }
}

impl Header {
    /// Ensure all values are valid: lengths that must be positive and names
    /// that must be non-empty fall back to their documented defaults.
    /// Total and idempotent.
    pub fn normalize(&mut self)
        ensures
            final(self)@ == spec_normalize(old(self)@),
    {
        ensure_positive_or_default(&mut self.default_text_height, 0x3FC999999999999A);
        ensure_positive_or_default(&mut self.trace_width, 0x3FA999999999999A);
        default_if_empty(&mut self.text_style, "STANDARD");
        default_if_empty(&mut self.current_layer, "0");
        default_if_empty(&mut self.current_entity_line_type, "BYLAYER");
        default_if_empty(&mut self.dimension_style_name, "STANDARD");
        default_if_empty(&mut self.file_name, ".");
        proof {
            assert(self@ =~= spec_normalize(old(self)@));
        }
    }

    /// Seconds of editing time, truncated from the stored duration value.
    pub fn time_in_drawing_seconds(&self) -> (r: u64)
        ensures
            r == dbl_trunc_u64(self@.time_in_drawing),
    {
        self.time_in_drawing.trunc_u64()
    }

    /// Apply one value pair to the named variable.
    ///
    /// An unrecognized variable name is skipped.  For a known variable, a
    /// tag no rule accepts at the record's version is an unexpected-pair
    /// error, a value of the wrong type a malformed-pair error; otherwise
    /// the addressed field is replaced and nothing else changes.
    pub fn set_header_value(&mut self, variable: &str, pair: &CodePair) -> (r: Result<
        (),
        DxfError,
    >)
        ensures
            match spec_apply_value(old(self)@, variable@, pair@) {
                Ok(h2) => r is Ok && final(self)@ == h2,
                Err(e) => (r matches Err(err) && err@ == e) && final(self)@ == old(self)@,
            },
    {
        let var = match var_from_name(variable) {
            Some(var) => var,
            None => {
                return Ok(());
            },
        };
        if !is_valid_read_tag(var, pair.code, self.version) {
            return Err(DxfError::UnexpectedCodePair(pair.clone(), variable.to_owned()));
        }
        match var {
            VarId::AcadMaintVer => {
                let v = match pair.assert_i16() {
                    Ok(v) => v,
                    Err(e) => return Err(e),
                };
                self.maintenance_version = v;
            },
            VarId::AcadVer => {
                let s = match pair.assert_string() {
                    Ok(s) => s,
                    Err(e) => return Err(e),
                };
                self.version = AcadVersion::parse(s.as_str());
            },
            VarId::AngBase => {
                let d = match pair.assert_double() {
                    Ok(d) => d,
                    Err(e) => return Err(e),
                };
                self.angle_zero_direction = d;
            },
            VarId::AngDir => {
                let v = match pair.assert_i16() {
                    Ok(v) => v,
                    Err(e) => return Err(e),
                };
                self.angle_direction = AngleDirection::from_i16(v);
            },
            VarId::AttMode => {
                let v = match pair.assert_i16() {
                    Ok(v) => v,
                    Err(e) => return Err(e),
                };
                self.attribute_visibility = AttributeVisibility::from_i16(v);
            },
            VarId::AUnits => {
                let v = match pair.assert_i16() {
                    Ok(v) => v,
                    Err(e) => return Err(e),
                };
                self.angle_unit_format = AngleFormat::from_i16(v);
            },
            VarId::AUPrec => {
                let v = match pair.assert_i16() {
                    Ok(v) => v,
                    Err(e) => return Err(e),
                };
                self.angle_unit_precision = v;
            },
            VarId::CeLType => {
                let s = match pair.assert_string() {
                    Ok(s) => s,
                    Err(e) => return Err(e),
                };
                self.current_entity_line_type = s;
            },
            VarId::CLayer => {
                let s = match pair.assert_string() {
                    Ok(s) => s,
                    Err(e) => return Err(e),
                };
                self.current_layer = s;
            },
            VarId::CmlStyle => {
                let s = match pair.assert_string() {
                    Ok(s) => s,
                    Err(e) => return Err(e),
                };
                self.current_multiline_style = s;
            },
            VarId::DimStyle => {
                let s = match pair.assert_string() {
                    Ok(s) => s,
                    Err(e) => return Err(e),
                };
                self.dimension_style_name = s;
            },
            VarId::ExtMin => {
                let d = match pair.assert_double() {
                    Ok(d) => d,
                    Err(e) => return Err(e),
                };
                if pair.code == 10 {
                    self.minimum_drawing_extents.x = d;
                } else if pair.code == 20 {
                    self.minimum_drawing_extents.y = d;
                } else {
                    self.minimum_drawing_extents.z = d;
                }
            },
            VarId::HideText => {
                let v = match pair.assert_i16() {
                    Ok(v) => v,
                    Err(e) => return Err(e),
                };
                self.hide_text = v != 0;
            },
            VarId::LUnits => {
                let v = match pair.assert_i16() {
                    Ok(v) => v,
                    Err(e) => return Err(e),
                };
                self.unit_format = UnitFormat::from_i16(v);
            },
            VarId::LUPrec => {
                let v = match pair.assert_i16() {
                    Ok(v) => v,
                    Err(e) => return Err(e),
                };
                self.unit_precision = v;
            },
            VarId::Menu => {
                let s = match pair.assert_string() {
                    Ok(s) => s,
                    Err(e) => return Err(e),
                };
                self.file_name = s;
            },
            VarId::OsMode => {
                let v = match pair.assert_i16() {
                    Ok(v) => v,
                    Err(e) => return Err(e),
                };
                self.object_snap_flags = v;
            },
            VarId::TdInDwg => {
                let d = match pair.assert_double() {
                    Ok(d) => d,
                    Err(e) => return Err(e),
                };
                self.time_in_drawing = d;
            },
            VarId::TextSize => {
                let d = match pair.assert_double() {
                    Ok(d) => d,
                    Err(e) => return Err(e),
                };
                self.default_text_height = d;
            },
            VarId::TextStyle => {
                let s = match pair.assert_string() {
                    Ok(s) => s,
                    Err(e) => return Err(e),
                };
                self.text_style = s;
            },
            VarId::TraceWid => {
                let d = match pair.assert_double() {
                    Ok(d) => d,
                    Err(e) => return Err(e),
                };
                self.trace_width = d;
            },
        }
        Ok(())
    }

    /// Read a header record from a pair stream.
    ///
    /// Pairs are pulled until a tag-0 pair (left in the source for the
    /// enclosing section reader) or exhaustion.  A tag-9 pair names the
    /// variable the following pairs belong to; each other pair is applied
    /// to that variable.  Immediately after the version variable parses to
    /// a new-enough version, the source switches to extended string
    /// decoding.  The returned record is not normalized.
    pub fn read(iter: &mut CodePairSource) -> (r: Result<Header, DxfError>)
        ensures
            ({
                let out = spec_read_loop(
                    old(iter)@.items,
                    spec_default_header(),
                    None,
                    old(iter)@.utf8,
                );
                &&& match r {
                    Ok(h) => out.result matches Ok(hv) && h@ == hv,
                    Err(e) => out.result matches Err(ev) && e@ == ev,
                }
                &&& final(iter)@.items == out.remaining
                &&& final(iter)@.utf8 == out.utf8
            }),
    {
        let mut header = Header::default();
        let mut current_variable: Option<String> = None;
        loop
            invariant
                spec_read_loop(old(iter)@.items, spec_default_header(), None, old(iter)@.utf8)
                    == spec_read_loop(
                    iter@.items,
                    header@,
                    opt_name_view(current_variable),
                    iter@.utf8,
                ),
            decreases iter@.items.len(),
        {
            let ghost pre = iter@;
            match iter.next() {
                None => {
                    return Ok(header);
                },
                Some(item) => match item {
                    Err(e) => {
                        return Err(e);
                    },
                    Ok(pair) => {
                        if pair.code == 0 {
                            iter.put_back(Ok(pair));
                            proof {
                                assert(iter@.items =~= pre.items);
                            }
                            return Ok(header);
                        } else if pair.code == 9 {
                            let name = match pair.assert_string() {
                                Ok(s) => s,
                                Err(e) => return Err(e),
                            };
                            current_variable = Some(name);
                        } else {
                            match current_variable {
                                None => {
                                    return Err(
                                        DxfError::UnexpectedCodePair(pair, "".to_owned()),
                                    );
                                },
                                Some(ref name) => {
                                    match header.set_header_value(name.as_str(), &pair) {
                                        Ok(()) => {},
                                        Err(e) => return Err(e),
                                    }
                                    if str_eq(name.as_str(), "$ACADVER") && header.version.at_least(
                                        AcadVersion::R2007,
                                    ) {
                                        iter.read_as_utf8();
                                    }
                                },
                            }
                        }
                    },
                },
            }
        }
    }

    /// Write one variable: nothing when it is suppressed at the record's
    /// version, else the tag-9 name pair followed by the value pairs.
    fn emit_var(&self, var: VarId, sink: &mut Vec<CodePair>)
        ensures
            pairs_view(final(sink)@) == pairs_view(old(sink)@) + spec_emit_var(self@, var),
    {
        let rule = match write_rule(var, self.version) {
            Some(rule) => rule,
            None => {
                proof {
                    assert(pairs_view(sink@) =~= pairs_view(old(sink)@) + spec_emit_var(
                        self@,
                        var,
                    ));
                }
                return ;
            },
        };
        push_pair(sink, CodePair::new_str(9, var_name(var)));
        match var {
            VarId::AcadMaintVer => {
                push_pair(sink, CodePair::new_i16(rule.tag, self.maintenance_version));
            },
            VarId::AcadVer => {
                push_pair(sink, CodePair::new_string(rule.tag, self.version.version_string()));
            },
            VarId::AngBase => {
                push_pair(sink, CodePair::new_double(rule.tag, self.angle_zero_direction));
            },
            VarId::AngDir => {
                push_pair(sink, CodePair::new_i16(rule.tag, self.angle_direction.to_i16()));
            },
            VarId::AttMode => {
                push_pair(sink, CodePair::new_i16(rule.tag, self.attribute_visibility.to_i16()));
            },
            VarId::AUnits => {
                push_pair(sink, CodePair::new_i16(rule.tag, self.angle_unit_format.to_i16()));
            },
            VarId::AUPrec => {
                push_pair(sink, CodePair::new_i16(rule.tag, self.angle_unit_precision));
            },
            VarId::CeLType => {
                push_pair(
                    sink,
                    CodePair::new_string(rule.tag, self.current_entity_line_type.clone()),
                );
            },
            VarId::CLayer => {
                push_pair(sink, CodePair::new_string(rule.tag, self.current_layer.clone()));
            },
            VarId::CmlStyle => {
                push_pair(
                    sink,
                    CodePair::new_string(rule.tag, self.current_multiline_style.clone()),
                );
            },
            VarId::DimStyle => {
                push_pair(
                    sink,
                    CodePair::new_string(rule.tag, self.dimension_style_name.clone()),
                );
            },
            VarId::ExtMin => {
                proof {
                    reveal_with_fuel(spec_best_rule, 3);
                    assert(spec_rules(VarId::ExtMin).drop_last()
                        =~= Seq::<VersionRule>::empty());
                    assert(rule == all_band(10, FieldKind::Point));
                }
                push_pair(sink, CodePair::new_double(rule.tag, self.minimum_drawing_extents.x));
                push_pair(
                    sink,
                    CodePair::new_double(rule.tag + 10, self.minimum_drawing_extents.y),
                );
                push_pair(
                    sink,
                    CodePair::new_double(rule.tag + 20, self.minimum_drawing_extents.z),
                );
            },
            VarId::HideText => {
                let v: i16 = if self.hide_text {
                    1
                } else {
                    0
                };
                push_pair(sink, CodePair::new_i16(rule.tag, v));
            },
            VarId::LUnits => {
                push_pair(sink, CodePair::new_i16(rule.tag, self.unit_format.to_i16()));
            },
            VarId::LUPrec => {
                push_pair(sink, CodePair::new_i16(rule.tag, self.unit_precision));
            },
            VarId::Menu => {
                push_pair(sink, CodePair::new_string(rule.tag, self.file_name.clone()));
            },
            VarId::OsMode => {
                push_pair(sink, CodePair::new_i16(rule.tag, self.object_snap_flags));
            },
            VarId::TdInDwg => {
                push_pair(sink, CodePair::new_double(rule.tag, self.time_in_drawing));
            },
            VarId::TextSize => {
                push_pair(sink, CodePair::new_double(rule.tag, self.default_text_height));
            },
            VarId::TextStyle => {
                push_pair(sink, CodePair::new_string(rule.tag, self.text_style.clone()));
            },
            VarId::TraceWid => {
                push_pair(sink, CodePair::new_double(rule.tag, self.trace_width));
            },
        }
        proof {
            assert(pairs_view(sink@) =~= pairs_view(old(sink)@) + spec_emit_var(self@, var));
        }
    }

    /// Write the variable pairs of the record, in canonical order, honoring
    /// suppression and the per-band canonical tags.
    pub fn write_code_pairs(&self, sink: &mut Vec<CodePair>)
        ensures
            pairs_view(final(sink)@) == pairs_view(old(sink)@) + spec_write_body(self@),
    {
        let order = var_order();
        proof {
            assert(pairs_view(sink@) =~= pairs_view(sink@) + spec_emit_vars(
                self@,
                order@.take(0),
            ));
        }
        let mut i: usize = 0;
        while i < order.len()
            invariant
                i <= order.len(),
                order@ == spec_var_order(),
                pairs_view(sink@) == pairs_view(old(sink)@) + spec_emit_vars(
                    self@,
                    order@.take(i as int),
                ),
            decreases order.len() - i,
        {
            let ghost prefix = order@.take(i as int);
            self.emit_var(order[i], sink);
            proof {
                lemma_emit_vars_push(self@, prefix, order@[i as int]);
                assert(order@.take(i + 1) =~= prefix.push(order@[i as int]));
                assert((pairs_view(old(sink)@) + spec_emit_vars(self@, prefix)) + spec_emit_var(
                    self@,
                    order@[i as int],
                ) =~= pairs_view(old(sink)@) + spec_emit_vars(self@, order@.take(i + 1)));
            }
            i = i + 1;
        }
        proof {
            assert(order@.take(order@.len() as int) =~= order@);
        }
    }

    /// Write the whole HEADER section for the record: the section-open
    /// pairs, the variables in canonical order, and the section close.
    /// Identical records always produce identical pair sequences.
    pub fn write(&self, sink: &mut Vec<CodePair>)
        ensures
            pairs_view(final(sink)@) == pairs_view(old(sink)@) + spec_write_section(self@),
    {
        push_pair(sink, CodePair::new_str(0, "SECTION"));
        push_pair(sink, CodePair::new_str(2, "HEADER"));
        self.write_code_pairs(sink);
        push_pair(sink, CodePair::new_str(0, "ENDSEC"));
        proof {
            assert(pairs_view(sink@) =~= pairs_view(old(sink)@) + spec_write_section(self@));
        }
    }
}

/// The canonical order variables are written in.
fn var_order() -> (r: Vec<VarId>)
    ensures
        r@ == spec_var_order(),
{
    let mut out: Vec<VarId> = Vec::new();
    out.push(VarId::AcadMaintVer);
    out.push(VarId::AcadVer);
    out.push(VarId::AngBase);
    out.push(VarId::AngDir);
    out.push(VarId::AttMode);
    out.push(VarId::AUnits);
    out.push(VarId::AUPrec);
    out.push(VarId::CeLType);
    out.push(VarId::CLayer);
    out.push(VarId::CmlStyle);
    out.push(VarId::DimStyle);
    out.push(VarId::ExtMin);
    out.push(VarId::HideText);
    out.push(VarId::LUnits);
    out.push(VarId::LUPrec);
    out.push(VarId::Menu);
    out.push(VarId::OsMode);
    out.push(VarId::TdInDwg);
    out.push(VarId::TextSize);
    out.push(VarId::TextStyle);
    out.push(VarId::TraceWid);
    proof {
        assert(out@ =~= spec_var_order());
    }
    out
}

impl Header {
    /// Whether the end-point object snap is on.
    pub fn get_end_point_snap(&self) -> (r: bool)
        ensures
            r == flag_set(self@.object_snap_flags, 1),
    {
        get_flag(self.object_snap_flags, 1)
    }

    /// Switch the end-point object snap, leaving every other bit unchanged.
    pub fn set_end_point_snap(&mut self, val: bool)
        ensures
            final(self)@ == (HeaderV {
                object_snap_flags: with_flag(old(self)@.object_snap_flags, 1, val),
                ..old(self)@
            }),
    {
        self.object_snap_flags = set_flag(self.object_snap_flags, 1, val);
    }

    /// Whether the mid-point object snap is on.
    pub fn get_mid_point_snap(&self) -> (r: bool)
        ensures
            r == flag_set(self@.object_snap_flags, 2),
    {
        get_flag(self.object_snap_flags, 2)
    }

    /// Switch the mid-point object snap, leaving every other bit unchanged.
    pub fn set_mid_point_snap(&mut self, val: bool)
        ensures
            final(self)@ == (HeaderV {
                object_snap_flags: with_flag(old(self)@.object_snap_flags, 2, val),
                ..old(self)@
            }),
    {
        self.object_snap_flags = set_flag(self.object_snap_flags, 2, val);
    }

    /// Whether the center object snap is on.
    pub fn get_center_snap(&self) -> (r: bool)
        ensures
            r == flag_set(self@.object_snap_flags, 4),
    {
        get_flag(self.object_snap_flags, 4)
    }

    /// Switch the center object snap, leaving every other bit unchanged.
    pub fn set_center_snap(&mut self, val: bool)
        ensures
            final(self)@ == (HeaderV {
                object_snap_flags: with_flag(old(self)@.object_snap_flags, 4, val),
                ..old(self)@
            }),
    {
        self.object_snap_flags = set_flag(self.object_snap_flags, 4, val);
    }

    /// Whether the node object snap is on.
    pub fn get_node_snap(&self) -> (r: bool)
        ensures
            r == flag_set(self@.object_snap_flags, 8),
    {
        get_flag(self.object_snap_flags, 8)
    }

    /// Switch the node object snap, leaving every other bit unchanged.
    pub fn set_node_snap(&mut self, val: bool)
        ensures
            final(self)@ == (HeaderV {
                object_snap_flags: with_flag(old(self)@.object_snap_flags, 8, val),
                ..old(self)@
            }),
    {
        self.object_snap_flags = set_flag(self.object_snap_flags, 8, val);
    }

    /// Whether the quadrant object snap is on.
    pub fn get_quadrant_snap(&self) -> (r: bool)
        ensures
            r == flag_set(self@.object_snap_flags, 16),
    {
        get_flag(self.object_snap_flags, 16)
    }

    /// Switch the quadrant object snap, leaving every other bit unchanged.
    pub fn set_quadrant_snap(&mut self, val: bool)
        ensures
            final(self)@ == (HeaderV {
                object_snap_flags: with_flag(old(self)@.object_snap_flags, 16, val),
                ..old(self)@
            }),
    {
        self.object_snap_flags = set_flag(self.object_snap_flags, 16, val);
    }

    /// Whether the intersection object snap is on.
    pub fn get_intersection_snap(&self) -> (r: bool)
        ensures
            r == flag_set(self@.object_snap_flags, 32),
    {
        get_flag(self.object_snap_flags, 32)
    }

    /// Switch the intersection object snap, leaving every other bit unchanged.
    pub fn set_intersection_snap(&mut self, val: bool)
        ensures
            final(self)@ == (HeaderV {
                object_snap_flags: with_flag(old(self)@.object_snap_flags, 32, val),
                ..old(self)@
            }),
    {
        self.object_snap_flags = set_flag(self.object_snap_flags, 32, val);
    }

    /// Whether the insertion object snap is on.
    pub fn get_insertion_snap(&self) -> (r: bool)
        ensures
            r == flag_set(self@.object_snap_flags, 64),
    {
        get_flag(self.object_snap_flags, 64)
    }

    /// Switch the insertion object snap, leaving every other bit unchanged.
    pub fn set_insertion_snap(&mut self, val: bool)
        ensures
            final(self)@ == (HeaderV {
                object_snap_flags: with_flag(old(self)@.object_snap_flags, 64, val),
                ..old(self)@
            }),
    {
        self.object_snap_flags = set_flag(self.object_snap_flags, 64, val);
    }

    /// Whether the perpendicular object snap is on.
    pub fn get_perpendicular_snap(&self) -> (r: bool)
        ensures
            r == flag_set(self@.object_snap_flags, 128),
    {
        get_flag(self.object_snap_flags, 128)
    }

    /// Switch the perpendicular object snap, leaving every other bit unchanged.
    pub fn set_perpendicular_snap(&mut self, val: bool)
        ensures
            final(self)@ == (HeaderV {
                object_snap_flags: with_flag(old(self)@.object_snap_flags, 128, val),
                ..old(self)@
            }),
    {
        self.object_snap_flags = set_flag(self.object_snap_flags, 128, val);
    }

    /// Whether the tangent object snap is on.
    pub fn get_tangent_snap(&self) -> (r: bool)
        ensures
            r == flag_set(self@.object_snap_flags, 256),
    {
        get_flag(self.object_snap_flags, 256)
    }

    /// Switch the tangent object snap, leaving every other bit unchanged.
    pub fn set_tangent_snap(&mut self, val: bool)
        ensures
            final(self)@ == (HeaderV {
                object_snap_flags: with_flag(old(self)@.object_snap_flags, 256, val),
                ..old(self)@
            }),
    {
        self.object_snap_flags = set_flag(self.object_snap_flags, 256, val);
    }

    /// Whether the nearest object snap is on.
    pub fn get_nearest_snap(&self) -> (r: bool)
        ensures
            r == flag_set(self@.object_snap_flags, 512),
    {
        get_flag(self.object_snap_flags, 512)
    }

    /// Switch the nearest object snap, leaving every other bit unchanged.
    pub fn set_nearest_snap(&mut self, val: bool)
        ensures
            final(self)@ == (HeaderV {
                object_snap_flags: with_flag(old(self)@.object_snap_flags, 512, val),
                ..old(self)@
            }),
    {
        self.object_snap_flags = set_flag(self.object_snap_flags, 512, val);
    }

    /// Whether the apparent-intersection object snap is on.
    pub fn get_apparent_intersection_snap(&self) -> (r: bool)
        ensures
            r == flag_set(self@.object_snap_flags, 2048),
    {
        get_flag(self.object_snap_flags, 2048)
    }

    /// Switch the apparent-intersection object snap, leaving every other bit unchanged.
    pub fn set_apparent_intersection_snap(&mut self, val: bool)
        ensures
            final(self)@ == (HeaderV {
                object_snap_flags: with_flag(old(self)@.object_snap_flags, 2048, val),
                ..old(self)@
            }),
    {
        self.object_snap_flags = set_flag(self.object_snap_flags, 2048, val);
    }

    /// Whether the extension object snap is on.
    pub fn get_extension_snap(&self) -> (r: bool)
        ensures
            r == flag_set(self@.object_snap_flags, 4096),
    {
        get_flag(self.object_snap_flags, 4096)
    }

    /// Switch the extension object snap, leaving every other bit unchanged.
    pub fn set_extension_snap(&mut self, val: bool)
        ensures
            final(self)@ == (HeaderV {
                object_snap_flags: with_flag(old(self)@.object_snap_flags, 4096, val),
                ..old(self)@
            }),
    {
        self.object_snap_flags = set_flag(self.object_snap_flags, 4096, val);
    }

    /// Whether the parallel object snap is on.
    pub fn get_parallel_snap(&self) -> (r: bool)
        ensures
            r == flag_set(self@.object_snap_flags, 8192),
    {
        get_flag(self.object_snap_flags, 8192)
    }

    /// Switch the parallel object snap, leaving every other bit unchanged.
    pub fn set_parallel_snap(&mut self, val: bool)
        ensures
            final(self)@ == (HeaderV {
                object_snap_flags: with_flag(old(self)@.object_snap_flags, 8192, val),
                ..old(self)@
            }),
    {
        self.object_snap_flags = set_flag(self.object_snap_flags, 8192, val);
    }
}

} // verus!
