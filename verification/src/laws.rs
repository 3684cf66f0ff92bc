//! The laws of the codec: properties relating normalize, read and write,
//! stated over the functional model and proved for every record.

use vstd::prelude::*;

use crate::double::dbl_le_zero;
use crate::error::ErrV;
use crate::model::{
    bits_i16, default_text_height_bits, default_trace_width_bits, flag_set, i16_bits,
    spec_apply_value, spec_default_header, spec_emit_var, spec_emit_vars, spec_normalize,
    spec_read, spec_value_pairs, with_flag, HeaderV, PointV,
};
use crate::pair::{pv_str, PairV};
use crate::policy::{
    all_band, rule_allows_tag, rule_matches, spec_best_rule, spec_rules, spec_tag_for_write,
    spec_var_from_name, spec_var_name, spec_write_rule, FieldKind, VarId, VersionRule,
};
use crate::version::{spec_version_rank, AcadVersion};

verus! {

/// Normalizing twice gives the same record as normalizing once: the values
/// the normalizer installs all pass its own checks.
pub proof fn lemma_normalize_idempotent(h: HeaderV)
    ensures
        spec_normalize(spec_normalize(h)) == spec_normalize(h),
{
    assert(default_text_height_bits() >> 63u64 == 0) by (bit_vector);
    assert(default_trace_width_bits() >> 63u64 == 0) by (bit_vector);
    assert(!dbl_le_zero(default_text_height_bits()));
    assert(!dbl_le_zero(default_trace_width_bits()));
    reveal_strlit("STANDARD");
    reveal_strlit("0");
    reveal_strlit("BYLAYER");
    reveal_strlit(".");
    assert("STANDARD"@.len() == 8);
    assert("0"@.len() == 1);
    assert("BYLAYER"@.len() == 7);
    assert("."@.len() == 1);
    assert(spec_normalize(spec_normalize(h)) =~= spec_normalize(h));
}

/// The two's-complement images are inverse to one another.
pub proof fn lemma_bits_i16_inverse(x: u16)
    ensures
        i16_bits(bits_i16(x)) == x,
{
}

/// Flag round trip: setting a masked bit and reading it back with the same
/// mask returns the value just set, and every bit outside the mask is
/// exactly what it was before the call.
pub proof fn lemma_flag_round_trip(field: i16, mask: u16, value: bool)
    requires
        mask != 0,
    ensures
        flag_set(with_flag(field, mask, value), mask) == value,
        i16_bits(with_flag(field, mask, value)) & !mask == i16_bits(field) & !mask,
        forall|other: u16|
            other & mask == 0 ==> flag_set(with_flag(field, mask, value), other) == flag_set(
                field,
                other,
            ),
{
    let b = i16_bits(field);
    lemma_bits_i16_inverse(b | mask);
    lemma_bits_i16_inverse(b & !mask);
    assert(forall|b: u16, m: u16| m != 0 ==> ((b | m) & m != 0)) by (bit_vector);
    assert(forall|b: u16, m: u16| (b & !m) & m == 0) by (bit_vector);
    assert(forall|b: u16, m: u16| (b | m) & !m == b & !m) by (bit_vector);
    assert(forall|b: u16, m: u16| (b & !m) & !m == b & !m) by (bit_vector);
    assert(forall|b: u16, m: u16, o: u16| o & m == 0 ==> (b | m) & o == b & o) by (bit_vector);
    assert(forall|b: u16, m: u16, o: u16| o & m == 0 ==> (b & !m) & o == b & o) by (bit_vector);
}

/// A record built from zero input pairs is the default record; in
/// particular a point variable with no supplied sub-pairs stays the
/// all-zero point.
pub proof fn lemma_composite_default()
    ensures
        spec_read(seq![Ok::<PairV, ErrV>(pv_str(9, "$EXTMIN"@))], false).result == Ok::<
            HeaderV,
            ErrV,
        >(spec_default_header()),
        spec_default_header().minimum_drawing_extents == (PointV { x: 0, y: 0, z: 0 }),
{
    reveal_with_fuel(crate::model::spec_read_loop, 3);
    let items = seq![Ok::<PairV, ErrV>(pv_str(9, "$EXTMIN"@))];
    assert(items.skip(1) =~= Seq::<Result<PairV, ErrV>>::empty());
}

/// The rules of `$CMLSTYLE`, evaluated: below the band boundary the
/// canonical tag is 7, from it on the canonical tag is 2.
pub proof fn lemma_cmlstyle_write_tag(v: AcadVersion)
    ensures
        spec_version_rank(v) < spec_version_rank(AcadVersion::R14) ==> spec_tag_for_write(
            VarId::CmlStyle,
            v,
        ) == Some(7u16),
        spec_version_rank(v) >= spec_version_rank(AcadVersion::R14) ==> spec_tag_for_write(
            VarId::CmlStyle,
            v,
        ) == Some(2u16),
{
    reveal_with_fuel(spec_best_rule, 4);
    let rules = spec_rules(VarId::CmlStyle);
    let r1 = rules[0];
    let r2 = rules[1];
    assert(rules.drop_last() =~= seq![r1]);
    assert(seq![r1].drop_last() =~= Seq::<VersionRule>::empty());
    assert(spec_version_rank(v) >= 0);
}

/// Version aliasing, read half: a `$CMLSTYLE` value pair is accepted under
/// either of its two legal tags, at every version, and both set the same
/// field to the same value.
pub proof fn lemma_cmlstyle_read_alias(h: HeaderV, s: Seq<char>)
    ensures
        spec_apply_value(h, "$CMLSTYLE"@, pv_str(7, s)) == Ok::<HeaderV, ErrV>(
            HeaderV { current_multiline_style: s, ..h },
        ),
        spec_apply_value(h, "$CMLSTYLE"@, pv_str(2, s)) == Ok::<HeaderV, ErrV>(
            HeaderV { current_multiline_style: s, ..h },
        ),
{
    crate::policy::lemma_var_names_distinct();
    assert(spec_var_from_name(spec_var_name(VarId::CmlStyle)) == Some(VarId::CmlStyle));
    assert(spec_var_name(VarId::CmlStyle) == "$CMLSTYLE"@);
    assert(spec_var_from_name("$CMLSTYLE"@) == Some(VarId::CmlStyle));
    let rules = spec_rules(VarId::CmlStyle);
    let r1 = rules[0];
    let r2 = rules[1];
    assert(spec_version_rank(h.version) >= 0);
    if spec_version_rank(h.version) < spec_version_rank(AcadVersion::R14) {
        assert(rule_matches(r1, h.version));
        assert(rule_allows_tag(r1, 7) && rule_allows_tag(r1, 2));
        assert(crate::policy::spec_is_valid_read_tag(VarId::CmlStyle, 7, h.version));
        assert(crate::policy::spec_is_valid_read_tag(VarId::CmlStyle, 2, h.version));
    } else {
        assert(rule_matches(r2, h.version));
        assert(rule_allows_tag(r2, 7) && rule_allows_tag(r2, 2));
        assert(crate::policy::spec_is_valid_read_tag(VarId::CmlStyle, 7, h.version));
        assert(crate::policy::spec_is_valid_read_tag(VarId::CmlStyle, 2, h.version));
    }
}

/// Version aliasing, write half: what write emits for `$CMLSTYLE` is the
/// name pair followed by exactly one value pair, carrying the canonical tag
/// of the record's version band and never the other tag.
pub proof fn lemma_cmlstyle_write_canonical(h: HeaderV)
    ensures
        spec_version_rank(h.version) < spec_version_rank(AcadVersion::R14) ==> spec_emit_var(
            h,
            VarId::CmlStyle,
        ) == seq![pv_str(9, "$CMLSTYLE"@), pv_str(7, h.current_multiline_style)],
        spec_version_rank(h.version) >= spec_version_rank(AcadVersion::R14) ==> spec_emit_var(
            h,
            VarId::CmlStyle,
        ) == seq![pv_str(9, "$CMLSTYLE"@), pv_str(2, h.current_multiline_style)],
{
    lemma_cmlstyle_write_tag(h.version);
    match spec_write_rule(VarId::CmlStyle, h.version) {
        Some(rule) => {
            assert(spec_emit_var(h, VarId::CmlStyle) =~= seq![
                pv_str(9, "$CMLSTYLE"@),
                pv_str(rule.tag, h.current_multiline_style),
            ]);
        },
        None => {
            assert(false);
        },
    }
}

/// Suppression, in general: a variable with no rule matching the record's
/// version contributes nothing on write — neither its name pair nor any
/// value pair.
pub proof fn lemma_suppressed_var_writes_nothing(h: HeaderV, var: VarId)
    requires
        spec_write_rule(var, h.version) is None,
    ensures
        spec_emit_var(h, var) == Seq::<PairV>::empty(),
{
}

/// Suppression of `$HIDETEXT`: below its band it has no matching rule and
/// is omitted entirely; inside its band it is written under tag 280.
pub proof fn lemma_hidetext_suppressed(h: HeaderV)
    ensures
        spec_version_rank(h.version) < spec_version_rank(AcadVersion::R2004) ==> spec_emit_var(
            h,
            VarId::HideText,
        ) == Seq::<PairV>::empty(),
        spec_version_rank(h.version) >= spec_version_rank(AcadVersion::R2004)
            ==> spec_tag_for_write(VarId::HideText, h.version) == Some(280u16),
{
    reveal_with_fuel(spec_best_rule, 3);
    let rules = spec_rules(VarId::HideText);
    assert(rules.drop_last() =~= Seq::<VersionRule>::empty());
    if spec_version_rank(h.version) < spec_version_rank(AcadVersion::R2004) {
        assert(!rule_matches(rules[0], h.version));
        assert(spec_write_rule(VarId::HideText, h.version) is None);
        lemma_suppressed_var_writes_nothing(h, VarId::HideText);
    }
}

/// Pairs of a written stream, as flawless source items.
pub open spec fn map_ok(ps: Seq<PairV>) -> Seq<Result<PairV, ErrV>> {
    ps.map_values(|p: PairV| Ok::<PairV, ErrV>(p))
}

/// The rule each variable is written under, evaluated from its table.
pub open spec fn expected_write_rule(var: VarId, v: AcadVersion) -> Option<VersionRule> {
    match var {
        VarId::AcadMaintVer => Some(all_band(70, FieldKind::Short)),
        VarId::AcadVer => Some(all_band(1, FieldKind::Text)),
        VarId::AngBase => Some(all_band(50, FieldKind::Double)),
        VarId::AngDir => Some(all_band(70, FieldKind::Short)),
        VarId::AttMode => Some(all_band(70, FieldKind::Short)),
        VarId::AUnits => Some(all_band(70, FieldKind::Short)),
        VarId::AUPrec => Some(all_band(70, FieldKind::Short)),
        VarId::CeLType => Some(all_band(6, FieldKind::Text)),
        VarId::CLayer => Some(all_band(8, FieldKind::Text)),
        VarId::CmlStyle => if spec_version_rank(v) < spec_version_rank(AcadVersion::R14) {
            Some(spec_rules(VarId::CmlStyle)[0])
        } else {
            Some(spec_rules(VarId::CmlStyle)[1])
        },
        VarId::DimStyle => Some(all_band(2, FieldKind::Text)),
        VarId::ExtMin => Some(all_band(10, FieldKind::Point)),
        VarId::HideText => if spec_version_rank(v) >= spec_version_rank(AcadVersion::R2004) {
            Some(spec_rules(VarId::HideText)[0])
        } else {
            None
        },
        VarId::LUnits => Some(all_band(70, FieldKind::Short)),
        VarId::LUPrec => Some(all_band(70, FieldKind::Short)),
        VarId::Menu => Some(all_band(1, FieldKind::Text)),
        VarId::OsMode => Some(all_band(70, FieldKind::Short)),
        VarId::TdInDwg => Some(all_band(40, FieldKind::Double)),
        VarId::TextSize => Some(all_band(40, FieldKind::Double)),
        VarId::TextStyle => Some(all_band(7, FieldKind::Text)),
        VarId::TraceWid => Some(all_band(40, FieldKind::Double)),
    }
}

/// Evaluates the winning rule of each variable from its table.
pub proof fn lemma_write_rule_eval(var: VarId, v: AcadVersion)
    ensures
        spec_write_rule(var, v) == expected_write_rule(var, v),
{
    reveal_with_fuel(spec_best_rule, 4);
    assert(spec_version_rank(v) >= 0);
    let rules = spec_rules(var);
    match var {
        VarId::CmlStyle => {
            assert(rules.drop_last() =~= seq![rules[0]]);
            assert(seq![rules[0]].drop_last() =~= Seq::<VersionRule>::empty());
        },
        _ => {
            assert(rules.drop_last() =~= Seq::<VersionRule>::empty());
        },
    }
}

/// The accumulated record with one variable's field taken from a written
/// record: what reading that variable's emitted pairs back does.
pub open spec fn copy_field(acc: HeaderV, h: HeaderV, var: VarId) -> HeaderV {
    match var {
        VarId::AcadMaintVer => HeaderV { maintenance_version: h.maintenance_version, ..acc },
        VarId::AcadVer => HeaderV { version: h.version, ..acc },
        VarId::AngBase => HeaderV { angle_zero_direction: h.angle_zero_direction, ..acc },
        VarId::AngDir => HeaderV { angle_direction: h.angle_direction, ..acc },
        VarId::AttMode => HeaderV { attribute_visibility: h.attribute_visibility, ..acc },
        VarId::AUnits => HeaderV { angle_unit_format: h.angle_unit_format, ..acc },
        VarId::AUPrec => HeaderV { angle_unit_precision: h.angle_unit_precision, ..acc },
        VarId::CeLType => HeaderV {
            current_entity_line_type: h.current_entity_line_type,
            ..acc
        },
        VarId::CLayer => HeaderV { current_layer: h.current_layer, ..acc },
        VarId::CmlStyle => HeaderV {
            current_multiline_style: h.current_multiline_style,
            ..acc
        },
        VarId::DimStyle => HeaderV { dimension_style_name: h.dimension_style_name, ..acc },
        VarId::ExtMin => HeaderV {
            minimum_drawing_extents: h.minimum_drawing_extents,
            ..acc
        },
        VarId::HideText => HeaderV { hide_text: h.hide_text, ..acc },
        VarId::LUnits => HeaderV { unit_format: h.unit_format, ..acc },
        VarId::LUPrec => HeaderV { unit_precision: h.unit_precision, ..acc },
        VarId::Menu => HeaderV { file_name: h.file_name, ..acc },
        VarId::OsMode => HeaderV { object_snap_flags: h.object_snap_flags, ..acc },
        VarId::TdInDwg => HeaderV { time_in_drawing: h.time_in_drawing, ..acc },
        VarId::TextSize => HeaderV { default_text_height: h.default_text_height, ..acc },
        VarId::TextStyle => HeaderV { text_style: h.text_style, ..acc },
        VarId::TraceWid => HeaderV { trace_width: h.trace_width, ..acc },
    }
}

/// A variable carries the version variable's name only if it is the
/// version variable itself.
pub proof fn lemma_name_is_acadver(var: VarId)
    ensures
        (spec_var_name(var) == "$ACADVER"@) == (var == VarId::AcadVer),
{
    crate::policy::lemma_var_names_distinct();
    assert(spec_var_from_name(spec_var_name(var)) == Some(var));
    assert(spec_var_from_name(spec_var_name(VarId::AcadVer)) == Some(VarId::AcadVer));
}

/// One step of the read loop over a tag-9 name pair: the following pairs
/// belong to the named variable.
pub proof fn lemma_loop_name_step(
    name: Seq<char>,
    rest: Seq<Result<PairV, ErrV>>,
    acc: HeaderV,
    cur: Option<Seq<char>>,
    u: bool,
)
    ensures
        crate::model::spec_read_loop(
            seq![Ok::<PairV, ErrV>(pv_str(9, name))] + rest,
            acc,
            cur,
            u,
        ) == crate::model::spec_read_loop(rest, acc, Some(name), u),
{
    let items = seq![Ok::<PairV, ErrV>(pv_str(9, name))] + rest;
    assert(items[0] == Ok::<PairV, ErrV>(pv_str(9, name)));
    assert(items.skip(1) =~= rest);
}

/// One step of the read loop over a value pair that applies cleanly.
pub proof fn lemma_loop_value_step(
    p: PairV,
    rest: Seq<Result<PairV, ErrV>>,
    acc: HeaderV,
    acc2: HeaderV,
    name: Seq<char>,
    u: bool,
)
    requires
        p.code != 0,
        p.code != 9,
        spec_apply_value(acc, name, p) == Ok::<HeaderV, ErrV>(acc2),
    ensures
        crate::model::spec_read_loop(seq![Ok::<PairV, ErrV>(p)] + rest, acc, Some(name), u)
            == crate::model::spec_read_loop(
            rest,
            acc2,
            Some(name),
            u || (name == "$ACADVER"@ && spec_version_rank(acc2.version) >= spec_version_rank(
                AcadVersion::R2007,
            )),
        ),
{
    let items = seq![Ok::<PairV, ErrV>(p)] + rest;
    assert(items[0] == Ok::<PairV, ErrV>(p));
    assert(items.skip(1) =~= rest);
}

/// Applying the one value pair that write emits for a scalar variable sets
/// exactly that variable's field to the written record's value.
#[verifier::spinoff_prover]
pub proof fn lemma_apply_written_value(h: HeaderV, acc: HeaderV, var: VarId, rule: VersionRule)
    requires
        spec_write_rule(var, h.version) == Some(rule),
        var != VarId::ExtMin,
        var == VarId::HideText ==> acc.version == h.version,
    ensures
        spec_value_pairs(h, var, rule).len() == 1,
        spec_value_pairs(h, var, rule)[0].code != 0,
        spec_value_pairs(h, var, rule)[0].code != 9,
        spec_apply_value(acc, spec_var_name(var), spec_value_pairs(h, var, rule)[0]) == Ok::<
            HeaderV,
            ErrV,
        >(copy_field(acc, h, var)),
        copy_field(acc, h, var).version == (if var == VarId::AcadVer {
            h.version
        } else {
            acc.version
        }),
{
    lemma_write_rule_eval(var, h.version);
    crate::policy::lemma_var_names_distinct();
    assert(spec_var_from_name(spec_var_name(var)) == Some(var));
    crate::version::lemma_version_string_parses(h.version);
    assert(spec_version_rank(acc.version) >= 0);
    assert(crate::enums::spec_angle_direction_from_i16(
        crate::enums::spec_angle_direction_to_i16(h.angle_direction),
    ) == h.angle_direction);
    assert(crate::enums::spec_attribute_visibility_from_i16(
        crate::enums::spec_attribute_visibility_to_i16(h.attribute_visibility),
    ) == h.attribute_visibility);
    assert(crate::enums::spec_angle_format_from_i16(
        crate::enums::spec_angle_format_to_i16(h.angle_unit_format),
    ) == h.angle_unit_format);
    assert(crate::enums::spec_unit_format_from_i16(
        crate::enums::spec_unit_format_to_i16(h.unit_format),
    ) == h.unit_format);
    let vp = spec_value_pairs(h, var, rule)[0];
    let rules = spec_rules(var);
    match var {
        VarId::CmlStyle => {
            if spec_version_rank(acc.version) < spec_version_rank(AcadVersion::R14) {
                assert(rule_matches(rules[0], acc.version) && rule_allows_tag(rules[0], vp.code));
            } else {
                assert(rule_matches(rules[1], acc.version) && rule_allows_tag(rules[1], vp.code));
            }
            assert(crate::policy::spec_is_valid_read_tag(var, vp.code, acc.version));
        },
        _ => {
            assert(rule_matches(rules[0], acc.version) && rule_allows_tag(rules[0], vp.code));
            assert(crate::policy::spec_is_valid_read_tag(var, vp.code, acc.version));
        },
    }
}

/// Applying the three value pairs that write emits for the extents point
/// rebuilds the written point, coordinate by coordinate.
#[verifier::spinoff_prover]
pub proof fn lemma_apply_written_point(h: HeaderV, acc: HeaderV, rule: VersionRule)
    requires
        spec_write_rule(VarId::ExtMin, h.version) == Some(rule),
    ensures
        ({
            let name = spec_var_name(VarId::ExtMin);
            let vps = spec_value_pairs(h, VarId::ExtMin, rule);
            &&& vps.len() == 3
            &&& vps[0].code == 10 && vps[1].code == 20 && vps[2].code == 30
            &&& spec_apply_value(acc, name, vps[0]) matches Ok(a1) && a1.version == acc.version
                && (spec_apply_value(a1, name, vps[1]) matches Ok(a2) && a2.version == acc.version
                && spec_apply_value(a2, name, vps[2]) == Ok::<HeaderV, ErrV>(
                copy_field(acc, h, VarId::ExtMin),
            ))
        }),
{
    lemma_write_rule_eval(VarId::ExtMin, h.version);
    crate::policy::lemma_var_names_distinct();
    assert(spec_var_from_name(spec_var_name(VarId::ExtMin)) == Some(VarId::ExtMin));
    assert(spec_version_rank(acc.version) >= 0);
    let rules = spec_rules(VarId::ExtMin);
    assert(rule_matches(rules[0], acc.version));
    assert(rule_allows_tag(rules[0], 10) && rule_allows_tag(rules[0], 20) && rule_allows_tag(
        rules[0],
        30,
    ));
    assert(crate::policy::spec_is_valid_read_tag(VarId::ExtMin, 10, acc.version));
    assert(crate::policy::spec_is_valid_read_tag(VarId::ExtMin, 20, acc.version));
    assert(crate::policy::spec_is_valid_read_tag(VarId::ExtMin, 30, acc.version));
    let name = spec_var_name(VarId::ExtMin);
    let vps = spec_value_pairs(h, VarId::ExtMin, rule);
    let a1 = spec_apply_value(acc, name, vps[0])->Ok_0;
    let a2 = spec_apply_value(a1, name, vps[1])->Ok_0;
    let a3 = spec_apply_value(a2, name, vps[2])->Ok_0;
    assert(a3.minimum_drawing_extents =~= h.minimum_drawing_extents);
    assert(a3 =~= copy_field(acc, h, VarId::ExtMin));
}

/// Reading back what write emitted for one variable: a suppressed variable
/// leaves the read state alone; any other sets exactly its own field to the
/// written record's value, names itself as the current variable, and — for
/// the version variable parsing to a new-enough version — makes the
/// extended-decoding switch.
#[verifier::spinoff_prover]
pub proof fn lemma_read_emitted_var(
    h: HeaderV,
    acc: HeaderV,
    var: VarId,
    rest: Seq<Result<PairV, ErrV>>,
    cur: Option<Seq<char>>,
    u: bool,
)
    requires
        var == VarId::HideText ==> acc.version == h.version,
    ensures
        spec_write_rule(var, h.version) is None ==> crate::model::spec_read_loop(
            map_ok(spec_emit_var(h, var)) + rest,
            acc,
            cur,
            u,
        ) == crate::model::spec_read_loop(rest, acc, cur, u),
        spec_write_rule(var, h.version) is Some ==> crate::model::spec_read_loop(
            map_ok(spec_emit_var(h, var)) + rest,
            acc,
            cur,
            u,
        ) == crate::model::spec_read_loop(
            rest,
            copy_field(acc, h, var),
            Some(spec_var_name(var)),
            u || (var == VarId::AcadVer && spec_version_rank(h.version) >= spec_version_rank(
                AcadVersion::R2007,
            )),
        ),
{
    match spec_write_rule(var, h.version) {
        None => {
            lemma_write_rule_eval(var, h.version);
            assert(spec_emit_var(h, var) =~= Seq::<PairV>::empty());
            assert(map_ok(spec_emit_var(h, var)) + rest =~= rest);
        },
        Some(rule) => {
            let name = spec_var_name(var);
            let vps = spec_value_pairs(h, var, rule);
            assert(spec_emit_var(h, var) == seq![pv_str(9, name)] + vps);
            lemma_name_is_acadver(var);
            if var == VarId::ExtMin {
                lemma_apply_written_point(h, acc, rule);
                let a1 = spec_apply_value(acc, name, vps[0])->Ok_0;
                let a2 = spec_apply_value(a1, name, vps[1])->Ok_0;
                let tail2 = map_ok(vps.skip(2)) + rest;
                let tail1 = map_ok(vps.skip(1)) + rest;
                assert(map_ok(spec_emit_var(h, var)) + rest =~= seq![
                    Ok::<PairV, ErrV>(pv_str(9, name)),
                ] + (map_ok(vps) + rest));
                lemma_loop_name_step(name, map_ok(vps) + rest, acc, cur, u);
                assert(map_ok(vps) + rest =~= seq![Ok::<PairV, ErrV>(vps[0])] + tail1);
                lemma_loop_value_step(vps[0], tail1, acc, a1, name, u);
                assert(tail1 =~= seq![Ok::<PairV, ErrV>(vps[1])] + tail2);
                lemma_loop_value_step(vps[1], tail2, a1, a2, name, u);
                assert(tail2 =~= seq![Ok::<PairV, ErrV>(vps[2])] + rest);
                lemma_loop_value_step(vps[2], rest, a2, copy_field(acc, h, var), name, u);
            } else {
                lemma_apply_written_value(h, acc, var, rule);
                assert(map_ok(spec_emit_var(h, var)) + rest =~= seq![
                    Ok::<PairV, ErrV>(pv_str(9, name)),
                ] + (map_ok(vps) + rest));
                lemma_loop_name_step(name, map_ok(vps) + rest, acc, cur, u);
                assert(map_ok(vps) + rest =~= seq![Ok::<PairV, ErrV>(vps[0])] + rest);
                lemma_loop_value_step(vps[0], rest, acc, copy_field(acc, h, var), name, u);
            }
        },
    }
}

/// Round trip: reading back the variable pairs that write emitted for a
/// record, at that record's version, reproduces the record's field values.
/// The one field not round-trippable by design is the hidden-text switch,
/// which is suppressed below its version band and then reads back as its
/// default.
#[verifier::rlimit(100)]
#[verifier::spinoff_prover]
pub proof fn lemma_write_read_round_trip(h: HeaderV)
    ensures
        ({
            let stream = map_ok(crate::model::spec_write_body(h)) + seq![
                Ok::<PairV, ErrV>(pv_str(0, "ENDSEC"@)),
            ];
            let out = spec_read(stream, false);
            &&& out.result == Ok::<HeaderV, ErrV>(
                HeaderV {
                    hide_text: h.hide_text && spec_version_rank(h.version) >= spec_version_rank(
                        AcadVersion::R2004,
                    ),
                    ..h
                },
            )
            &&& out.remaining == seq![Ok::<PairV, ErrV>(pv_str(0, "ENDSEC"@))]
            &&& out.utf8 == (spec_version_rank(h.version) >= spec_version_rank(
                AcadVersion::R2007,
            ))
        }),
{
    let order = crate::model::spec_var_order();
    let end = seq![Ok::<PairV, ErrV>(pv_str(0, "ENDSEC"@))];
    let stream = map_ok(crate::model::spec_write_body(h)) + end;
    let uu = spec_version_rank(h.version) >= spec_version_rank(AcadVersion::R2007);
    let s0 = order.skip(0);
    assert(s0 =~= order);
    let items0 = map_ok(spec_emit_vars(h, s0)) + end;
    assert(stream =~= items0);
    let acc0 = spec_default_header();
    let cur0: Option<Seq<char>> = None;
    // AcadMaintVer
    let s1 = order.skip(1);
    assert(s0[0] == VarId::AcadMaintVer);
    assert(s0.drop_first() =~= s1);
    assert(spec_emit_vars(h, s0) == spec_emit_var(h, VarId::AcadMaintVer) + spec_emit_vars(h, s1));
    let items1 = map_ok(spec_emit_vars(h, s1)) + end;
    assert(items0 =~= map_ok(spec_emit_var(h, VarId::AcadMaintVer)) + items1);
    lemma_write_rule_eval(VarId::AcadMaintVer, h.version);
    lemma_read_emitted_var(h, acc0, VarId::AcadMaintVer, items1, cur0, false);
    let acc1 = copy_field(acc0, h, VarId::AcadMaintVer);
    let cur1: Option<Seq<char>> = Some(spec_var_name(VarId::AcadMaintVer));
    assert(crate::model::spec_read_loop(items0, acc0, cur0, false)
        == crate::model::spec_read_loop(items1, acc1, cur1, false));
    // AcadVer
    let s2 = order.skip(2);
    assert(s1[0] == VarId::AcadVer);
    assert(s1.drop_first() =~= s2);
    assert(spec_emit_vars(h, s1) == spec_emit_var(h, VarId::AcadVer) + spec_emit_vars(h, s2));
    let items2 = map_ok(spec_emit_vars(h, s2)) + end;
    assert(items1 =~= map_ok(spec_emit_var(h, VarId::AcadVer)) + items2);
    lemma_write_rule_eval(VarId::AcadVer, h.version);
    lemma_read_emitted_var(h, acc1, VarId::AcadVer, items2, cur1, false);
    let acc2 = copy_field(acc1, h, VarId::AcadVer);
    let cur2: Option<Seq<char>> = Some(spec_var_name(VarId::AcadVer));
    let u2 = false || (VarId::AcadVer == VarId::AcadVer && spec_version_rank(h.version) >= spec_version_rank(AcadVersion::R2007));
    assert(crate::model::spec_read_loop(items1, acc1, cur1, false)
        == crate::model::spec_read_loop(items2, acc2, cur2, u2));
    // AngBase
    let s3 = order.skip(3);
    assert(s2[0] == VarId::AngBase);
    assert(s2.drop_first() =~= s3);
    assert(spec_emit_vars(h, s2) == spec_emit_var(h, VarId::AngBase) + spec_emit_vars(h, s3));
    let items3 = map_ok(spec_emit_vars(h, s3)) + end;
    assert(items2 =~= map_ok(spec_emit_var(h, VarId::AngBase)) + items3);
    lemma_write_rule_eval(VarId::AngBase, h.version);
    lemma_read_emitted_var(h, acc2, VarId::AngBase, items3, cur2, u2);
    let acc3 = copy_field(acc2, h, VarId::AngBase);
    let cur3: Option<Seq<char>> = Some(spec_var_name(VarId::AngBase));
    assert(crate::model::spec_read_loop(items2, acc2, cur2, u2)
        == crate::model::spec_read_loop(items3, acc3, cur3, u2));
    // AngDir
    let s4 = order.skip(4);
    assert(s3[0] == VarId::AngDir);
    assert(s3.drop_first() =~= s4);
    assert(spec_emit_vars(h, s3) == spec_emit_var(h, VarId::AngDir) + spec_emit_vars(h, s4));
    let items4 = map_ok(spec_emit_vars(h, s4)) + end;
    assert(items3 =~= map_ok(spec_emit_var(h, VarId::AngDir)) + items4);
    lemma_write_rule_eval(VarId::AngDir, h.version);
    lemma_read_emitted_var(h, acc3, VarId::AngDir, items4, cur3, u2);
    let acc4 = copy_field(acc3, h, VarId::AngDir);
    let cur4: Option<Seq<char>> = Some(spec_var_name(VarId::AngDir));
    assert(crate::model::spec_read_loop(items3, acc3, cur3, u2)
        == crate::model::spec_read_loop(items4, acc4, cur4, u2));
    // AttMode
    let s5 = order.skip(5);
    assert(s4[0] == VarId::AttMode);
    assert(s4.drop_first() =~= s5);
    assert(spec_emit_vars(h, s4) == spec_emit_var(h, VarId::AttMode) + spec_emit_vars(h, s5));
    let items5 = map_ok(spec_emit_vars(h, s5)) + end;
    assert(items4 =~= map_ok(spec_emit_var(h, VarId::AttMode)) + items5);
    lemma_write_rule_eval(VarId::AttMode, h.version);
    lemma_read_emitted_var(h, acc4, VarId::AttMode, items5, cur4, u2);
    let acc5 = copy_field(acc4, h, VarId::AttMode);
    let cur5: Option<Seq<char>> = Some(spec_var_name(VarId::AttMode));
    assert(crate::model::spec_read_loop(items4, acc4, cur4, u2)
        == crate::model::spec_read_loop(items5, acc5, cur5, u2));
    // AUnits
    let s6 = order.skip(6);
    assert(s5[0] == VarId::AUnits);
    assert(s5.drop_first() =~= s6);
    assert(spec_emit_vars(h, s5) == spec_emit_var(h, VarId::AUnits) + spec_emit_vars(h, s6));
    let items6 = map_ok(spec_emit_vars(h, s6)) + end;
    assert(items5 =~= map_ok(spec_emit_var(h, VarId::AUnits)) + items6);
    lemma_write_rule_eval(VarId::AUnits, h.version);
    lemma_read_emitted_var(h, acc5, VarId::AUnits, items6, cur5, u2);
    let acc6 = copy_field(acc5, h, VarId::AUnits);
    let cur6: Option<Seq<char>> = Some(spec_var_name(VarId::AUnits));
    assert(crate::model::spec_read_loop(items5, acc5, cur5, u2)
        == crate::model::spec_read_loop(items6, acc6, cur6, u2));
    // AUPrec
    let s7 = order.skip(7);
    assert(s6[0] == VarId::AUPrec);
    assert(s6.drop_first() =~= s7);
    assert(spec_emit_vars(h, s6) == spec_emit_var(h, VarId::AUPrec) + spec_emit_vars(h, s7));
    let items7 = map_ok(spec_emit_vars(h, s7)) + end;
    assert(items6 =~= map_ok(spec_emit_var(h, VarId::AUPrec)) + items7);
    lemma_write_rule_eval(VarId::AUPrec, h.version);
    lemma_read_emitted_var(h, acc6, VarId::AUPrec, items7, cur6, u2);
    let acc7 = copy_field(acc6, h, VarId::AUPrec);
    let cur7: Option<Seq<char>> = Some(spec_var_name(VarId::AUPrec));
    assert(crate::model::spec_read_loop(items6, acc6, cur6, u2)
        == crate::model::spec_read_loop(items7, acc7, cur7, u2));
    // CeLType
    let s8 = order.skip(8);
    assert(s7[0] == VarId::CeLType);
    assert(s7.drop_first() =~= s8);
    assert(spec_emit_vars(h, s7) == spec_emit_var(h, VarId::CeLType) + spec_emit_vars(h, s8));
    let items8 = map_ok(spec_emit_vars(h, s8)) + end;
    assert(items7 =~= map_ok(spec_emit_var(h, VarId::CeLType)) + items8);
    lemma_write_rule_eval(VarId::CeLType, h.version);
    lemma_read_emitted_var(h, acc7, VarId::CeLType, items8, cur7, u2);
    let acc8 = copy_field(acc7, h, VarId::CeLType);
    let cur8: Option<Seq<char>> = Some(spec_var_name(VarId::CeLType));
    assert(crate::model::spec_read_loop(items7, acc7, cur7, u2)
        == crate::model::spec_read_loop(items8, acc8, cur8, u2));
    // CLayer
    let s9 = order.skip(9);
    assert(s8[0] == VarId::CLayer);
    assert(s8.drop_first() =~= s9);
    assert(spec_emit_vars(h, s8) == spec_emit_var(h, VarId::CLayer) + spec_emit_vars(h, s9));
    let items9 = map_ok(spec_emit_vars(h, s9)) + end;
    assert(items8 =~= map_ok(spec_emit_var(h, VarId::CLayer)) + items9);
    lemma_write_rule_eval(VarId::CLayer, h.version);
    lemma_read_emitted_var(h, acc8, VarId::CLayer, items9, cur8, u2);
    let acc9 = copy_field(acc8, h, VarId::CLayer);
    let cur9: Option<Seq<char>> = Some(spec_var_name(VarId::CLayer));
    assert(crate::model::spec_read_loop(items8, acc8, cur8, u2)
        == crate::model::spec_read_loop(items9, acc9, cur9, u2));
    // CmlStyle
    let s10 = order.skip(10);
    assert(s9[0] == VarId::CmlStyle);
    assert(s9.drop_first() =~= s10);
    assert(spec_emit_vars(h, s9) == spec_emit_var(h, VarId::CmlStyle) + spec_emit_vars(h, s10));
    let items10 = map_ok(spec_emit_vars(h, s10)) + end;
    assert(items9 =~= map_ok(spec_emit_var(h, VarId::CmlStyle)) + items10);
    lemma_write_rule_eval(VarId::CmlStyle, h.version);
    lemma_read_emitted_var(h, acc9, VarId::CmlStyle, items10, cur9, u2);
    let acc10 = copy_field(acc9, h, VarId::CmlStyle);
    let cur10: Option<Seq<char>> = Some(spec_var_name(VarId::CmlStyle));
    assert(crate::model::spec_read_loop(items9, acc9, cur9, u2)
        == crate::model::spec_read_loop(items10, acc10, cur10, u2));
    // DimStyle
    let s11 = order.skip(11);
    assert(s10[0] == VarId::DimStyle);
    assert(s10.drop_first() =~= s11);
    assert(spec_emit_vars(h, s10) == spec_emit_var(h, VarId::DimStyle) + spec_emit_vars(h, s11));
    let items11 = map_ok(spec_emit_vars(h, s11)) + end;
    assert(items10 =~= map_ok(spec_emit_var(h, VarId::DimStyle)) + items11);
    lemma_write_rule_eval(VarId::DimStyle, h.version);
    lemma_read_emitted_var(h, acc10, VarId::DimStyle, items11, cur10, u2);
    let acc11 = copy_field(acc10, h, VarId::DimStyle);
    let cur11: Option<Seq<char>> = Some(spec_var_name(VarId::DimStyle));
    assert(crate::model::spec_read_loop(items10, acc10, cur10, u2)
        == crate::model::spec_read_loop(items11, acc11, cur11, u2));
    // ExtMin
    let s12 = order.skip(12);
    assert(s11[0] == VarId::ExtMin);
    assert(s11.drop_first() =~= s12);
    assert(spec_emit_vars(h, s11) == spec_emit_var(h, VarId::ExtMin) + spec_emit_vars(h, s12));
    let items12 = map_ok(spec_emit_vars(h, s12)) + end;
    assert(items11 =~= map_ok(spec_emit_var(h, VarId::ExtMin)) + items12);
    lemma_write_rule_eval(VarId::ExtMin, h.version);
    lemma_read_emitted_var(h, acc11, VarId::ExtMin, items12, cur11, u2);
    let acc12 = copy_field(acc11, h, VarId::ExtMin);
    let cur12: Option<Seq<char>> = Some(spec_var_name(VarId::ExtMin));
    assert(crate::model::spec_read_loop(items11, acc11, cur11, u2)
        == crate::model::spec_read_loop(items12, acc12, cur12, u2));
    // HideText
    let s13 = order.skip(13);
    assert(s12[0] == VarId::HideText);
    assert(s12.drop_first() =~= s13);
    assert(spec_emit_vars(h, s12) == spec_emit_var(h, VarId::HideText) + spec_emit_vars(h, s13));
    let items13 = map_ok(spec_emit_vars(h, s13)) + end;
    assert(items12 =~= map_ok(spec_emit_var(h, VarId::HideText)) + items13);
    lemma_write_rule_eval(VarId::HideText, h.version);
    assert(acc12.version == h.version);
    lemma_read_emitted_var(h, acc12, VarId::HideText, items13, cur12, u2);
    let acc13 = if spec_version_rank(h.version) >= spec_version_rank(AcadVersion::R2004) {
        copy_field(acc12, h, VarId::HideText)
    } else {
        acc12
    };
    let cur13: Option<Seq<char>> = if spec_version_rank(h.version) >= spec_version_rank(
        AcadVersion::R2004,
    ) {
        Some(spec_var_name(VarId::HideText))
    } else {
        cur12
    };
    assert(crate::model::spec_read_loop(items12, acc12, cur12, u2)
        == crate::model::spec_read_loop(items13, acc13, cur13, u2));
    // LUnits
    let s14 = order.skip(14);
    assert(s13[0] == VarId::LUnits);
    assert(s13.drop_first() =~= s14);
    assert(spec_emit_vars(h, s13) == spec_emit_var(h, VarId::LUnits) + spec_emit_vars(h, s14));
    let items14 = map_ok(spec_emit_vars(h, s14)) + end;
    assert(items13 =~= map_ok(spec_emit_var(h, VarId::LUnits)) + items14);
    lemma_write_rule_eval(VarId::LUnits, h.version);
    lemma_read_emitted_var(h, acc13, VarId::LUnits, items14, cur13, u2);
    let acc14 = copy_field(acc13, h, VarId::LUnits);
    let cur14: Option<Seq<char>> = Some(spec_var_name(VarId::LUnits));
    assert(crate::model::spec_read_loop(items13, acc13, cur13, u2)
        == crate::model::spec_read_loop(items14, acc14, cur14, u2));
    // LUPrec
    let s15 = order.skip(15);
    assert(s14[0] == VarId::LUPrec);
    assert(s14.drop_first() =~= s15);
    assert(spec_emit_vars(h, s14) == spec_emit_var(h, VarId::LUPrec) + spec_emit_vars(h, s15));
    let items15 = map_ok(spec_emit_vars(h, s15)) + end;
    assert(items14 =~= map_ok(spec_emit_var(h, VarId::LUPrec)) + items15);
    lemma_write_rule_eval(VarId::LUPrec, h.version);
    lemma_read_emitted_var(h, acc14, VarId::LUPrec, items15, cur14, u2);
    let acc15 = copy_field(acc14, h, VarId::LUPrec);
    let cur15: Option<Seq<char>> = Some(spec_var_name(VarId::LUPrec));
    assert(crate::model::spec_read_loop(items14, acc14, cur14, u2)
        == crate::model::spec_read_loop(items15, acc15, cur15, u2));
    // Menu
    let s16 = order.skip(16);
    assert(s15[0] == VarId::Menu);
    assert(s15.drop_first() =~= s16);
    assert(spec_emit_vars(h, s15) == spec_emit_var(h, VarId::Menu) + spec_emit_vars(h, s16));
    let items16 = map_ok(spec_emit_vars(h, s16)) + end;
    assert(items15 =~= map_ok(spec_emit_var(h, VarId::Menu)) + items16);
    lemma_write_rule_eval(VarId::Menu, h.version);
    lemma_read_emitted_var(h, acc15, VarId::Menu, items16, cur15, u2);
    let acc16 = copy_field(acc15, h, VarId::Menu);
    let cur16: Option<Seq<char>> = Some(spec_var_name(VarId::Menu));
    assert(crate::model::spec_read_loop(items15, acc15, cur15, u2)
        == crate::model::spec_read_loop(items16, acc16, cur16, u2));
    // OsMode
    let s17 = order.skip(17);
    assert(s16[0] == VarId::OsMode);
    assert(s16.drop_first() =~= s17);
    assert(spec_emit_vars(h, s16) == spec_emit_var(h, VarId::OsMode) + spec_emit_vars(h, s17));
    let items17 = map_ok(spec_emit_vars(h, s17)) + end;
    assert(items16 =~= map_ok(spec_emit_var(h, VarId::OsMode)) + items17);
    lemma_write_rule_eval(VarId::OsMode, h.version);
    lemma_read_emitted_var(h, acc16, VarId::OsMode, items17, cur16, u2);
    let acc17 = copy_field(acc16, h, VarId::OsMode);
    let cur17: Option<Seq<char>> = Some(spec_var_name(VarId::OsMode));
    assert(crate::model::spec_read_loop(items16, acc16, cur16, u2)
        == crate::model::spec_read_loop(items17, acc17, cur17, u2));
    // TdInDwg
    let s18 = order.skip(18);
    assert(s17[0] == VarId::TdInDwg);
    assert(s17.drop_first() =~= s18);
    assert(spec_emit_vars(h, s17) == spec_emit_var(h, VarId::TdInDwg) + spec_emit_vars(h, s18));
    let items18 = map_ok(spec_emit_vars(h, s18)) + end;
    assert(items17 =~= map_ok(spec_emit_var(h, VarId::TdInDwg)) + items18);
    lemma_write_rule_eval(VarId::TdInDwg, h.version);
    lemma_read_emitted_var(h, acc17, VarId::TdInDwg, items18, cur17, u2);
    let acc18 = copy_field(acc17, h, VarId::TdInDwg);
    let cur18: Option<Seq<char>> = Some(spec_var_name(VarId::TdInDwg));
    assert(crate::model::spec_read_loop(items17, acc17, cur17, u2)
        == crate::model::spec_read_loop(items18, acc18, cur18, u2));
    // TextSize
    let s19 = order.skip(19);
    assert(s18[0] == VarId::TextSize);
    assert(s18.drop_first() =~= s19);
    assert(spec_emit_vars(h, s18) == spec_emit_var(h, VarId::TextSize) + spec_emit_vars(h, s19));
    let items19 = map_ok(spec_emit_vars(h, s19)) + end;
    assert(items18 =~= map_ok(spec_emit_var(h, VarId::TextSize)) + items19);
    lemma_write_rule_eval(VarId::TextSize, h.version);
    lemma_read_emitted_var(h, acc18, VarId::TextSize, items19, cur18, u2);
    let acc19 = copy_field(acc18, h, VarId::TextSize);
    let cur19: Option<Seq<char>> = Some(spec_var_name(VarId::TextSize));
    assert(crate::model::spec_read_loop(items18, acc18, cur18, u2)
        == crate::model::spec_read_loop(items19, acc19, cur19, u2));
    // TextStyle
    let s20 = order.skip(20);
    assert(s19[0] == VarId::TextStyle);
    assert(s19.drop_first() =~= s20);
    assert(spec_emit_vars(h, s19) == spec_emit_var(h, VarId::TextStyle) + spec_emit_vars(h, s20));
    let items20 = map_ok(spec_emit_vars(h, s20)) + end;
    assert(items19 =~= map_ok(spec_emit_var(h, VarId::TextStyle)) + items20);
    lemma_write_rule_eval(VarId::TextStyle, h.version);
    lemma_read_emitted_var(h, acc19, VarId::TextStyle, items20, cur19, u2);
    let acc20 = copy_field(acc19, h, VarId::TextStyle);
    let cur20: Option<Seq<char>> = Some(spec_var_name(VarId::TextStyle));
    assert(crate::model::spec_read_loop(items19, acc19, cur19, u2)
        == crate::model::spec_read_loop(items20, acc20, cur20, u2));
    // TraceWid
    let s21 = order.skip(21);
    assert(s20[0] == VarId::TraceWid);
    assert(s20.drop_first() =~= s21);
    assert(spec_emit_vars(h, s20) == spec_emit_var(h, VarId::TraceWid) + spec_emit_vars(h, s21));
    let items21 = map_ok(spec_emit_vars(h, s21)) + end;
    assert(items20 =~= map_ok(spec_emit_var(h, VarId::TraceWid)) + items21);
    lemma_write_rule_eval(VarId::TraceWid, h.version);
    lemma_read_emitted_var(h, acc20, VarId::TraceWid, items21, cur20, u2);
    let acc21 = copy_field(acc20, h, VarId::TraceWid);
    let cur21: Option<Seq<char>> = Some(spec_var_name(VarId::TraceWid));
    assert(crate::model::spec_read_loop(items20, acc20, cur20, u2)
        == crate::model::spec_read_loop(items21, acc21, cur21, u2));
    // End of the variable pairs: only the section-close pair is left.
    assert(s21 =~= Seq::<VarId>::empty());
    assert(spec_emit_vars(h, s21) =~= Seq::<PairV>::empty());
    assert(items21 =~= end);
    assert(end[0] == Ok::<PairV, ErrV>(pv_str(0, "ENDSEC"@)));
    assert(crate::model::spec_read_loop(end, acc21, cur21, u2) == (crate::model::ReadOutcome {
        result: Ok::<HeaderV, ErrV>(acc21),
        remaining: end,
        utf8: u2,
    }));
    assert(u2 == uu);
    assert(acc21 =~= (HeaderV {
        hide_text: h.hide_text && spec_version_rank(h.version) >= spec_version_rank(
            AcadVersion::R2004,
        ),
        ..h
    }));
}

} // verus!
