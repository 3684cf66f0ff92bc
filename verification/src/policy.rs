//! Version policy: which tags a header variable accepts on read and which
//! single canonical tag it is written with, per version band.
//!
//! Each variable carries an ordered list of rules.  A rule is a version band
//! (inclusive lower bound, optional exclusive upper bound), the canonical
//! tag written inside that band, an optional alias tag also accepted on
//! read, and the field kind.  When several rules match a version, the one
//! whose band starts latest wins; among rules whose bands start at the same
//! version, the one listed first wins.  A variable with no matching rule is
//! suppressed on write, and a pair for it on read is an error.

use vstd::prelude::*;

use crate::version::{spec_version_rank, str_eq, AcadVersion};

verus! {

/// The modeled header variables.
#[derive(Clone, Copy, PartialEq, Eq, Structural, Debug)]
pub enum VarId {
    AcadMaintVer,
    AcadVer,
    AngBase,
    AngDir,
    AttMode,
    AUnits,
    AUPrec,
    CeLType,
    CLayer,
    CmlStyle,
    DimStyle,
    ExtMin,
    HideText,
    LUnits,
    LUPrec,
    Menu,
    OsMode,
    TdInDwg,
    TextSize,
    TextStyle,
    TraceWid,
}

/// How a variable's value travels on the wire.
#[derive(Clone, Copy, PartialEq, Eq, Structural, Debug)]
pub enum FieldKind {
    /// One pair holding a string.
    Text,
    /// One pair holding a 16-bit integer.
    Short,
    /// One pair holding a double.
    Double,
    /// Three consecutive pairs holding the X, Y and Z of a point, tagged
    /// with the base tag and the base tag offset by 10 and by 20.
    Point,
    /// One pair holding a 16-bit integer read as a boolean.
    Boolean,
}

/// One version-band rule of a variable.
#[derive(Clone, Copy, PartialEq, Eq, Structural, Debug)]
pub struct VersionRule {
    /// First version of the band.
    pub lo: AcadVersion,
    /// First version past the band, if the band is bounded.
    pub hi: Option<AcadVersion>,
    /// The canonical tag: the one written inside the band.
    pub tag: u16,
    /// A documented alias tag also accepted on read inside the band.
    pub alias: Option<u16>,
    /// The field kind of the value.
    pub kind: FieldKind,
}

/// Whether a version falls inside a rule's band.
pub open spec fn rule_matches(r: VersionRule, v: AcadVersion) -> bool {
    &&& spec_version_rank(v) >= spec_version_rank(r.lo)
    &&& match r.hi {
        Some(h) => spec_version_rank(v) < spec_version_rank(h),
        None => true,
    }
}

/// Whether a rule accepts a tag on read: the canonical tag, the alias,
/// or for a point the two offset sub-tags.
pub open spec fn rule_allows_tag(r: VersionRule, tag: u16) -> bool {
    ||| tag == r.tag
    ||| (r.alias matches Some(a) && tag == a)
    ||| (r.kind is Point && (tag == r.tag + 10 || tag == r.tag + 20))
}

/// The ordered rule list of a variable.
pub open spec fn spec_rules(var: VarId) -> Seq<VersionRule> {
    match var {
        VarId::AcadMaintVer => seq![all_band(70, FieldKind::Short)],
        VarId::AcadVer => seq![all_band(1, FieldKind::Text)],
        VarId::AngBase => seq![all_band(50, FieldKind::Double)],
        VarId::AngDir => seq![all_band(70, FieldKind::Short)],
        VarId::AttMode => seq![all_band(70, FieldKind::Short)],
        VarId::AUnits => seq![all_band(70, FieldKind::Short)],
        VarId::AUPrec => seq![all_band(70, FieldKind::Short)],
        VarId::CeLType => seq![all_band(6, FieldKind::Text)],
        VarId::CLayer => seq![all_band(8, FieldKind::Text)],
        VarId::CmlStyle => seq![
            VersionRule {
                lo: AcadVersion::R9,
                hi: Some(AcadVersion::R14),
                tag: 7,
                alias: Some(2),
                kind: FieldKind::Text,
            },
            VersionRule {
                lo: AcadVersion::R14,
                hi: None,
                tag: 2,
                alias: Some(7),
                kind: FieldKind::Text,
            },
        ],
        VarId::DimStyle => seq![all_band(2, FieldKind::Text)],
        VarId::ExtMin => seq![all_band(10, FieldKind::Point)],
        VarId::HideText => seq![
            VersionRule {
                lo: AcadVersion::R2004,
                hi: None,
                tag: 280,
                alias: None,
                kind: FieldKind::Boolean,
            },
        ],
        VarId::LUnits => seq![all_band(70, FieldKind::Short)],
        VarId::LUPrec => seq![all_band(70, FieldKind::Short)],
        VarId::Menu => seq![all_band(1, FieldKind::Text)],
        VarId::OsMode => seq![all_band(70, FieldKind::Short)],
        VarId::TdInDwg => seq![all_band(40, FieldKind::Double)],
        VarId::TextSize => seq![all_band(40, FieldKind::Double)],
        VarId::TextStyle => seq![all_band(7, FieldKind::Text)],
        VarId::TraceWid => seq![all_band(40, FieldKind::Double)],
    }
}

/// A rule covering every version, with no alias.
pub open spec fn all_band(tag: u16, kind: FieldKind) -> VersionRule {
    VersionRule { lo: AcadVersion::R9, hi: None, tag, alias: None, kind }
}

/// The winning rule for a version: among the matching rules, the one whose
/// band starts latest; the one listed first among equal starts.
pub open spec fn spec_best_rule(rules: Seq<VersionRule>, v: AcadVersion) -> Option<VersionRule>
    decreases rules.len(),
{
    if rules.len() == 0 {
        None
    } else {
        let prev = spec_best_rule(rules.drop_last(), v);
        let last = rules.last();
        if !rule_matches(last, v) {
            prev
        } else {
            match prev {
                None => Some(last),
                Some(b) => if spec_version_rank(last.lo) > spec_version_rank(b.lo) {
                    Some(last)
                } else {
                    Some(b)
                },
            }
        }
    }
}

/// The rule a variable is written under at a version, if any.
pub open spec fn spec_write_rule(var: VarId, v: AcadVersion) -> Option<VersionRule> {
    spec_best_rule(spec_rules(var), v)
}

/// The canonical tag a variable is written with at a version; `None` means
/// the variable is suppressed.
pub open spec fn spec_tag_for_write(var: VarId, v: AcadVersion) -> Option<u16> {
    match spec_write_rule(var, v) {
        Some(r) => Some(r.tag),
        None => None,
    }
}

/// Whether some rule of the variable accepts the tag on read at the version.
pub open spec fn spec_is_valid_read_tag(var: VarId, tag: u16, v: AcadVersion) -> bool {
    exists|i: int|
        0 <= i < spec_rules(var).len() && rule_matches(#[trigger] spec_rules(var)[i], v)
            && rule_allows_tag(spec_rules(var)[i], tag)
}

/// The ordered rule list of a variable.
pub fn rules_for(var: VarId) -> (r: Vec<VersionRule>)
    ensures
        r@ == spec_rules(var),
{
    let mut out: Vec<VersionRule> = Vec::new();
    match var {
        VarId::AcadMaintVer => out.push(all_band_exec(70, FieldKind::Short)),
        VarId::AcadVer => out.push(all_band_exec(1, FieldKind::Text)),
        VarId::AngBase => out.push(all_band_exec(50, FieldKind::Double)),
        VarId::AngDir => out.push(all_band_exec(70, FieldKind::Short)),
        VarId::AttMode => out.push(all_band_exec(70, FieldKind::Short)),
        VarId::AUnits => out.push(all_band_exec(70, FieldKind::Short)),
        VarId::AUPrec => out.push(all_band_exec(70, FieldKind::Short)),
        VarId::CeLType => out.push(all_band_exec(6, FieldKind::Text)),
        VarId::CLayer => out.push(all_band_exec(8, FieldKind::Text)),
        VarId::CmlStyle => {
            out.push(VersionRule {
                lo: AcadVersion::R9,
                hi: Some(AcadVersion::R14),
                tag: 7,
                alias: Some(2),
                kind: FieldKind::Text,
            });
            out.push(VersionRule {
                lo: AcadVersion::R14,
                hi: None,
                tag: 2,
                alias: Some(7),
                kind: FieldKind::Text,
            });
        },
        VarId::DimStyle => out.push(all_band_exec(2, FieldKind::Text)),
        VarId::ExtMin => out.push(all_band_exec(10, FieldKind::Point)),
        VarId::HideText => {
            out.push(VersionRule {
                lo: AcadVersion::R2004,
                hi: None,
                tag: 280,
                alias: None,
                kind: FieldKind::Boolean,
            });
        },
        VarId::LUnits => out.push(all_band_exec(70, FieldKind::Short)),
        VarId::LUPrec => out.push(all_band_exec(70, FieldKind::Short)),
        VarId::Menu => out.push(all_band_exec(1, FieldKind::Text)),
        VarId::OsMode => out.push(all_band_exec(70, FieldKind::Short)),
        VarId::TdInDwg => out.push(all_band_exec(40, FieldKind::Double)),
        VarId::TextSize => out.push(all_band_exec(40, FieldKind::Double)),
        VarId::TextStyle => out.push(all_band_exec(7, FieldKind::Text)),
        VarId::TraceWid => out.push(all_band_exec(40, FieldKind::Double)),
    }
    proof {
        assert(out@ =~= spec_rules(var));
    }
    out
}

/// A rule covering every version, with no alias.
fn all_band_exec(tag: u16, kind: FieldKind) -> (r: VersionRule)
    ensures
        r == all_band(tag, kind),
{
    VersionRule { lo: AcadVersion::R9, hi: None, tag, alias: None, kind }
}

/// Whether a version falls inside a rule's band.
fn rule_matches_exec(r: &VersionRule, v: AcadVersion) -> (b: bool)
    ensures
        b == rule_matches(*r, v),
{
    v.at_least(r.lo) && match r.hi {
        Some(h) => !v.at_least(h),
        None => true,
    }
}

/// Whether a rule accepts a tag on read.
fn rule_allows_tag_exec(r: &VersionRule, tag: u16) -> (b: bool)
    ensures
        b == rule_allows_tag(*r, tag),
{
    let wide: u32 = tag as u32;
    let base: u32 = r.tag as u32;
    tag == r.tag || (match r.alias {
        Some(a) => tag == a,
        None => false,
    }) || (matches!(r.kind, FieldKind::Point) && (wide == base + 10 || wide == base + 20))
}

/// The rule a variable is written under at a version, if any.
pub fn write_rule(var: VarId, version: AcadVersion) -> (r: Option<VersionRule>)
    ensures
        r == spec_write_rule(var, version),
{
    let rules = rules_for(var);
    let mut best: Option<VersionRule> = None;
    let mut i: usize = 0;
    while i < rules.len()
        invariant
            i <= rules.len(),
            rules@ == spec_rules(var),
            best == spec_best_rule(rules@.take(i as int), version),
        decreases rules.len() - i,
    {
        let r = rules[i];
        proof {
            assert(rules@.take(i + 1).drop_last() =~= rules@.take(i as int));
            assert(rules@.take(i + 1).last() == rules@[i as int]);
        }
        if rule_matches_exec(&r, version) {
            best = match best {
                None => Some(r),
                Some(b) => if r.lo.at_least(b.lo) && !b.lo.at_least(r.lo) {
                    Some(r)
                } else {
                    Some(b)
                },
            };
        }
        i = i + 1;
    }
    proof {
        assert(rules@.take(rules@.len() as int) =~= rules@);
    }
    best
}

/// The canonical tag a variable is written with at a version; `None` means
/// the variable is suppressed.
pub fn tag_for_write(var: VarId, version: AcadVersion) -> (r: Option<u16>)
    ensures
        r == spec_tag_for_write(var, version),
{
    match write_rule(var, version) {
        Some(rule) => Some(rule.tag),
        None => None,
    }
}

/// The `$`-prefixed name of a variable.
pub open spec fn spec_var_name(var: VarId) -> Seq<char> {
    match var {
        VarId::AcadMaintVer => "$ACADMAINTVER"@,
        VarId::AcadVer => "$ACADVER"@,
        VarId::AngBase => "$ANGBASE"@,
        VarId::AngDir => "$ANGDIR"@,
        VarId::AttMode => "$ATTMODE"@,
        VarId::AUnits => "$AUNITS"@,
        VarId::AUPrec => "$AUPREC"@,
        VarId::CeLType => "$CELTYPE"@,
        VarId::CLayer => "$CLAYER"@,
        VarId::CmlStyle => "$CMLSTYLE"@,
        VarId::DimStyle => "$DIMSTYLE"@,
        VarId::ExtMin => "$EXTMIN"@,
        VarId::HideText => "$HIDETEXT"@,
        VarId::LUnits => "$LUNITS"@,
        VarId::LUPrec => "$LUPREC"@,
        VarId::Menu => "$MENU"@,
        VarId::OsMode => "$OSMODE"@,
        VarId::TdInDwg => "$TDINDWG"@,
        VarId::TextSize => "$TEXTSIZE"@,
        VarId::TextStyle => "$TEXTSTYLE"@,
        VarId::TraceWid => "$TRACEWID"@,
    }
}

/// The variable a name denotes, if it is a modeled one.
pub open spec fn spec_var_from_name(s: Seq<char>) -> Option<VarId> {
    if s == "$ACADMAINTVER"@ {
        Some(VarId::AcadMaintVer)
    } else if s == "$ACADVER"@ {
        Some(VarId::AcadVer)
    } else if s == "$ANGBASE"@ {
        Some(VarId::AngBase)
    } else if s == "$ANGDIR"@ {
        Some(VarId::AngDir)
    } else if s == "$ATTMODE"@ {
        Some(VarId::AttMode)
    } else if s == "$AUNITS"@ {
        Some(VarId::AUnits)
    } else if s == "$AUPREC"@ {
        Some(VarId::AUPrec)
    } else if s == "$CELTYPE"@ {
        Some(VarId::CeLType)
    } else if s == "$CLAYER"@ {
        Some(VarId::CLayer)
    } else if s == "$CMLSTYLE"@ {
        Some(VarId::CmlStyle)
    } else if s == "$DIMSTYLE"@ {
        Some(VarId::DimStyle)
    } else if s == "$EXTMIN"@ {
        Some(VarId::ExtMin)
    } else if s == "$HIDETEXT"@ {
        Some(VarId::HideText)
    } else if s == "$LUNITS"@ {
        Some(VarId::LUnits)
    } else if s == "$LUPREC"@ {
        Some(VarId::LUPrec)
    } else if s == "$MENU"@ {
        Some(VarId::Menu)
    } else if s == "$OSMODE"@ {
        Some(VarId::OsMode)
    } else if s == "$TDINDWG"@ {
        Some(VarId::TdInDwg)
    } else if s == "$TEXTSIZE"@ {
        Some(VarId::TextSize)
    } else if s == "$TEXTSTYLE"@ {
        Some(VarId::TextStyle)
    } else if s == "$TRACEWID"@ {
        Some(VarId::TraceWid)
    } else {
        None
    }
}

/// The `$`-prefixed name of a variable.
pub fn var_name(var: VarId) -> (r: &'static str)
    ensures
        r@ == spec_var_name(var),
{
    match var {
        VarId::AcadMaintVer => "$ACADMAINTVER",
        VarId::AcadVer => "$ACADVER",
        VarId::AngBase => "$ANGBASE",
        VarId::AngDir => "$ANGDIR",
        VarId::AttMode => "$ATTMODE",
        VarId::AUnits => "$AUNITS",
        VarId::AUPrec => "$AUPREC",
        VarId::CeLType => "$CELTYPE",
        VarId::CLayer => "$CLAYER",
        VarId::CmlStyle => "$CMLSTYLE",
        VarId::DimStyle => "$DIMSTYLE",
        VarId::ExtMin => "$EXTMIN",
        VarId::HideText => "$HIDETEXT",
        VarId::LUnits => "$LUNITS",
        VarId::LUPrec => "$LUPREC",
        VarId::Menu => "$MENU",
        VarId::OsMode => "$OSMODE",
        VarId::TdInDwg => "$TDINDWG",
        VarId::TextSize => "$TEXTSIZE",
        VarId::TextStyle => "$TEXTSTYLE",
        VarId::TraceWid => "$TRACEWID",
    }
}

/// The variable a name denotes, if it is a modeled one.
pub fn var_from_name(s: &str) -> (r: Option<VarId>)
    ensures
        r == spec_var_from_name(s@),
{
    if str_eq(s, "$ACADMAINTVER") {
        Some(VarId::AcadMaintVer)
    } else if str_eq(s, "$ACADVER") {
        Some(VarId::AcadVer)
    } else if str_eq(s, "$ANGBASE") {
        Some(VarId::AngBase)
    } else if str_eq(s, "$ANGDIR") {
        Some(VarId::AngDir)
    } else if str_eq(s, "$ATTMODE") {
        Some(VarId::AttMode)
    } else if str_eq(s, "$AUNITS") {
        Some(VarId::AUnits)
    } else if str_eq(s, "$AUPREC") {
        Some(VarId::AUPrec)
    } else if str_eq(s, "$CELTYPE") {
        Some(VarId::CeLType)
    } else if str_eq(s, "$CLAYER") {
        Some(VarId::CLayer)
    } else if str_eq(s, "$CMLSTYLE") {
        Some(VarId::CmlStyle)
    } else if str_eq(s, "$DIMSTYLE") {
        Some(VarId::DimStyle)
    } else if str_eq(s, "$EXTMIN") {
        Some(VarId::ExtMin)
    } else if str_eq(s, "$HIDETEXT") {
        Some(VarId::HideText)
    } else if str_eq(s, "$LUNITS") {
        Some(VarId::LUnits)
    } else if str_eq(s, "$LUPREC") {
        Some(VarId::LUPrec)
    } else if str_eq(s, "$MENU") {
        Some(VarId::Menu)
    } else if str_eq(s, "$OSMODE") {
        Some(VarId::OsMode)
    } else if str_eq(s, "$TDINDWG") {
        Some(VarId::TdInDwg)
    } else if str_eq(s, "$TEXTSIZE") {
        Some(VarId::TextSize)
    } else if str_eq(s, "$TEXTSTYLE") {
        Some(VarId::TextStyle)
    } else if str_eq(s, "$TRACEWID") {
        Some(VarId::TraceWid)
    } else {
        None
    }
}

/// Pins apart the character sequences of the modeled variable names.
pub proof fn lemma_var_names_distinct()
    ensures
        forall|var: VarId| #[trigger] spec_var_from_name(spec_var_name(var)) == Some(var),
{
    reveal_strlit("$ACADMAINTVER");
    reveal_strlit("$ACADVER");
    reveal_strlit("$ANGBASE");
    reveal_strlit("$ANGDIR");
    reveal_strlit("$ATTMODE");
    reveal_strlit("$AUNITS");
    reveal_strlit("$AUPREC");
    reveal_strlit("$CELTYPE");
    reveal_strlit("$CLAYER");
    reveal_strlit("$CMLSTYLE");
    reveal_strlit("$DIMSTYLE");
    reveal_strlit("$EXTMIN");
    reveal_strlit("$HIDETEXT");
    reveal_strlit("$LUNITS");
    reveal_strlit("$LUPREC");
    reveal_strlit("$MENU");
    reveal_strlit("$OSMODE");
    reveal_strlit("$TDINDWG");
    reveal_strlit("$TEXTSIZE");
    reveal_strlit("$TEXTSTYLE");
    reveal_strlit("$TRACEWID");
    // Names of equal length differ in one of the first four characters.
    assert("$ACADMAINTVER"@.len() == 13);
    assert("$ACADVER"@.len() == 8 && "$ACADVER"@[1] == 'A' && "$ACADVER"@[2] == 'C');
    assert("$ANGBASE"@.len() == 8 && "$ANGBASE"@[1] == 'A' && "$ANGBASE"@[2] == 'N');
    assert("$ATTMODE"@.len() == 8 && "$ATTMODE"@[1] == 'A' && "$ATTMODE"@[2] == 'T');
    assert("$CELTYPE"@.len() == 8 && "$CELTYPE"@[1] == 'C');
    assert("$TDINDWG"@.len() == 8 && "$TDINDWG"@[1] == 'T');
    assert("$ANGDIR"@.len() == 7 && "$ANGDIR"@[1] == 'A' && "$ANGDIR"@[2] == 'N');
    assert("$AUNITS"@.len() == 7 && "$AUNITS"@[1] == 'A' && "$AUNITS"@[2] == 'U'
        && "$AUNITS"@[3] == 'N');
    assert("$AUPREC"@.len() == 7 && "$AUPREC"@[1] == 'A' && "$AUPREC"@[2] == 'U'
        && "$AUPREC"@[3] == 'P');
    assert("$CLAYER"@.len() == 7 && "$CLAYER"@[1] == 'C');
    assert("$EXTMIN"@.len() == 7 && "$EXTMIN"@[1] == 'E');
    assert("$LUNITS"@.len() == 7 && "$LUNITS"@[1] == 'L' && "$LUNITS"@[3] == 'N');
    assert("$LUPREC"@.len() == 7 && "$LUPREC"@[1] == 'L' && "$LUPREC"@[3] == 'P');
    assert("$OSMODE"@.len() == 7 && "$OSMODE"@[1] == 'O');
    assert("$CMLSTYLE"@.len() == 9 && "$CMLSTYLE"@[1] == 'C');
    assert("$DIMSTYLE"@.len() == 9 && "$DIMSTYLE"@[1] == 'D');
    assert("$HIDETEXT"@.len() == 9 && "$HIDETEXT"@[1] == 'H');
    assert("$TEXTSIZE"@.len() == 9 && "$TEXTSIZE"@[1] == 'T' && "$TEXTSIZE"@[2] == 'E');
    assert("$TRACEWID"@.len() == 9 && "$TRACEWID"@[1] == 'T' && "$TRACEWID"@[2] == 'R');
    assert("$TEXTSTYLE"@.len() == 10);
    assert("$MENU"@.len() == 5);
}

/// Whether a tag is legal on read for a variable at a version.
pub fn is_valid_read_tag(var: VarId, tag: u16, version: AcadVersion) -> (r: bool)
    ensures
        r == spec_is_valid_read_tag(var, tag, version),
{
    let rules = rules_for(var);
    let mut i: usize = 0;
    while i < rules.len()
        invariant
            i <= rules.len(),
            rules@ == spec_rules(var),
            forall|j: int|
                0 <= j < i ==> !(rule_matches(#[trigger] spec_rules(var)[j], version)
                    && rule_allows_tag(spec_rules(var)[j], tag)),
        decreases rules.len() - i,
    {
        let r = rules[i];
        if rule_matches_exec(&r, version) && rule_allows_tag_exec(&r, tag) {
            return true;
        }
        i = i + 1;
    }
    false
}

} // verus!
