//! Drawing format versions and the `$ACADVER` string forms.

use vstd::prelude::*;

verus! {

/// A drawing format version.  Variable tags and suppression rules are
/// decided by bands of these versions.
#[derive(Clone, Copy, PartialEq, Eq, Structural, Debug)]
pub enum AcadVersion {
    R9,
    R10,
    R12,
    R13,
    R14,
    R2000,
    R2004,
    R2007,
    R2010,
    R2013,
    R2018,
}

/// Position of a version in the release order; bands compare these.
pub open spec fn spec_version_rank(v: AcadVersion) -> int {
    match v {
        AcadVersion::R9 => 0,
        AcadVersion::R10 => 1,
        AcadVersion::R12 => 2,
        AcadVersion::R13 => 3,
        AcadVersion::R14 => 4,
        AcadVersion::R2000 => 5,
        AcadVersion::R2004 => 6,
        AcadVersion::R2007 => 7,
        AcadVersion::R2010 => 8,
        AcadVersion::R2013 => 9,
        AcadVersion::R2018 => 10,
    }
}

/// The canonical string written for a version as the `$ACADVER` value.
pub open spec fn spec_version_string(v: AcadVersion) -> Seq<char> {
    match v {
        AcadVersion::R9 => "AC1004"@,
        AcadVersion::R10 => "AC1006"@,
        AcadVersion::R12 => "AC1009"@,
        AcadVersion::R13 => "AC1012"@,
        AcadVersion::R14 => "AC1014"@,
        AcadVersion::R2000 => "AC1015"@,
        AcadVersion::R2004 => "AC1018"@,
        AcadVersion::R2007 => "AC1021"@,
        AcadVersion::R2010 => "AC1024"@,
        AcadVersion::R2013 => "AC1027"@,
        AcadVersion::R2018 => "AC1032"@,
    }
}

/// The version a `$ACADVER` value parses to.  Every version accepts its
/// canonical string; a few accept documented alternate spellings; any
/// unrecognized string falls back to R12 rather than failing the read.
pub open spec fn spec_parse_version(s: Seq<char>) -> AcadVersion {
    if s == "AC1004"@ {
        AcadVersion::R9
    } else if s == "AC1006"@ {
        AcadVersion::R10
    } else if s == "AC1009"@ {
        AcadVersion::R12
    } else if s == "AC1011"@ || s == "AC1012"@ {
        AcadVersion::R13
    } else if s == "AC1014"@ || s == "14"@ || s == "14.01"@ {
        AcadVersion::R14
    } else if s == "AC1015"@ || s == "15.0"@ || s == "15.05"@ || s == "15.06"@ {
        AcadVersion::R2000
    } else if s == "AC1018"@ {
        AcadVersion::R2004
    } else if s == "AC1021"@ {
        AcadVersion::R2007
    } else if s == "AC1024"@ {
        AcadVersion::R2010
    } else if s == "AC1027"@ {
        AcadVersion::R2013
    } else if s == "AC1032"@ {
        AcadVersion::R2018
    } else {
        AcadVersion::R12
    }
}

/// Exact string equality, stated over the abstract character sequences.
pub fn str_eq(a: &str, b: &str) -> (r: bool)
    ensures
        r == (a@ == b@),
{
    a.to_owned() == b.to_owned()
}

impl AcadVersion {
    /// Position of the version in the release order.
    pub fn rank(self) -> (r: u8)
        ensures
            r as int == spec_version_rank(self),
    {
        match self {
            AcadVersion::R9 => 0,
            AcadVersion::R10 => 1,
            AcadVersion::R12 => 2,
            AcadVersion::R13 => 3,
            AcadVersion::R14 => 4,
            AcadVersion::R2000 => 5,
            AcadVersion::R2004 => 6,
            AcadVersion::R2007 => 7,
            AcadVersion::R2010 => 8,
            AcadVersion::R2013 => 9,
            AcadVersion::R2018 => 10,
        }
    }

    /// Whether this version is `other` or a later one.
    pub fn at_least(self, other: AcadVersion) -> (r: bool)
        ensures
            r == (spec_version_rank(self) >= spec_version_rank(other)),
    {
        self.rank() >= other.rank()
    }

    /// The canonical `$ACADVER` value for this version.
    pub fn version_string(self) -> (r: String)
        ensures
            r@ == spec_version_string(self),
    {
        match self {
            AcadVersion::R9 => "AC1004".to_owned(),
            AcadVersion::R10 => "AC1006".to_owned(),
            AcadVersion::R12 => "AC1009".to_owned(),
            AcadVersion::R13 => "AC1012".to_owned(),
            AcadVersion::R14 => "AC1014".to_owned(),
            AcadVersion::R2000 => "AC1015".to_owned(),
            AcadVersion::R2004 => "AC1018".to_owned(),
            AcadVersion::R2007 => "AC1021".to_owned(),
            AcadVersion::R2010 => "AC1024".to_owned(),
            AcadVersion::R2013 => "AC1027".to_owned(),
            AcadVersion::R2018 => "AC1032".to_owned(),
        }
    }

    /// Parse a `$ACADVER` value; unrecognized strings give R12.
    pub fn parse(s: &str) -> (r: AcadVersion)
        ensures
            r == spec_parse_version(s@),
    {
        if str_eq(s, "AC1004") {
            AcadVersion::R9
        } else if str_eq(s, "AC1006") {
            AcadVersion::R10
        } else if str_eq(s, "AC1009") {
            AcadVersion::R12
        } else if str_eq(s, "AC1011") || str_eq(s, "AC1012") {
            AcadVersion::R13
        } else if str_eq(s, "AC1014") || str_eq(s, "14") || str_eq(s, "14.01") {
            AcadVersion::R14
        } else if str_eq(s, "AC1015") || str_eq(s, "15.0") || str_eq(s, "15.05") || str_eq(s, "15.06") {
            AcadVersion::R2000
        } else if str_eq(s, "AC1018") {
            AcadVersion::R2004
        } else if str_eq(s, "AC1021") {
            AcadVersion::R2007
        } else if str_eq(s, "AC1024") {
            AcadVersion::R2010
        } else if str_eq(s, "AC1027") {
            AcadVersion::R2013
        } else if str_eq(s, "AC1032") {
            AcadVersion::R2018
        } else {
            AcadVersion::R12
        }
    }
}

/// Parsing the canonical string of a version gives that version back.
pub proof fn lemma_version_string_parses(v: AcadVersion)
    ensures
        spec_parse_version(spec_version_string(v)) == v,
{
    reveal_strlit("AC1004");
    reveal_strlit("AC1006");
    reveal_strlit("AC1009");
    reveal_strlit("AC1011");
    reveal_strlit("AC1012");
    reveal_strlit("AC1014");
    reveal_strlit("AC1015");
    reveal_strlit("AC1018");
    reveal_strlit("AC1021");
    reveal_strlit("AC1024");
    reveal_strlit("AC1027");
    reveal_strlit("AC1032");
    reveal_strlit("14");
    reveal_strlit("14.01");
    reveal_strlit("15.0");
    reveal_strlit("15.06");
    reveal_strlit("15.05");
    // The canonical strings share a length, so pin the characters that
    // tell them apart; the alternate spellings differ already in length.
    assert("AC1004"@.len() == 6 && "AC1004"@[4] == '0' && "AC1004"@[5] == '4');
    assert("AC1006"@.len() == 6 && "AC1006"@[4] == '0' && "AC1006"@[5] == '6');
    assert("AC1009"@.len() == 6 && "AC1009"@[4] == '0' && "AC1009"@[5] == '9');
    assert("AC1011"@.len() == 6 && "AC1011"@[4] == '1' && "AC1011"@[5] == '1');
    assert("AC1012"@.len() == 6 && "AC1012"@[4] == '1' && "AC1012"@[5] == '2');
    assert("AC1014"@.len() == 6 && "AC1014"@[4] == '1' && "AC1014"@[5] == '4');
    assert("AC1015"@.len() == 6 && "AC1015"@[4] == '1' && "AC1015"@[5] == '5');
    assert("AC1018"@.len() == 6 && "AC1018"@[4] == '1' && "AC1018"@[5] == '8');
    assert("AC1021"@.len() == 6 && "AC1021"@[4] == '2' && "AC1021"@[5] == '1');
    assert("AC1024"@.len() == 6 && "AC1024"@[4] == '2' && "AC1024"@[5] == '4');
    assert("AC1027"@.len() == 6 && "AC1027"@[4] == '2' && "AC1027"@[5] == '7');
    assert("AC1032"@.len() == 6 && "AC1032"@[4] == '3' && "AC1032"@[5] == '2');
    assert("14"@.len() == 2 && "14.01"@.len() == 5 && "15.0"@.len() == 4);
    assert("15.05"@.len() == 5 && "15.06"@.len() == 5);
    assert("15.05"@[1] == '5' && "14.01"@[1] == '4');
}

} // verus!
