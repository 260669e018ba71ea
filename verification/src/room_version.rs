//! Room versions: the small enumeration that gates event-id derivation,
//! redaction and restricted joins.

use vstd::prelude::*;

verus! {

/// A room version that this server can take part in.
#[derive(Clone, Copy, Debug, PartialEq, Eq, Structural)]
pub enum RoomVersion {
    V1,
    V2,
    V3,
    V4,
    V5,
    V6,
    V7,
    V8,
    V9,
    V10,
    V11,
}

/// The version that a version string names, if any.
pub open spec fn version_named(s: Seq<char>) -> Option<RoomVersion> {
    if s == "1"@ {
        Some(RoomVersion::V1)
    } else if s == "2"@ {
        Some(RoomVersion::V2)
    } else if s == "3"@ {
        Some(RoomVersion::V3)
    } else if s == "4"@ {
        Some(RoomVersion::V4)
    } else if s == "5"@ {
        Some(RoomVersion::V5)
    } else if s == "6"@ {
        Some(RoomVersion::V6)
    } else if s == "7"@ {
        Some(RoomVersion::V7)
    } else if s == "8"@ {
        Some(RoomVersion::V8)
    } else if s == "9"@ {
        Some(RoomVersion::V9)
    } else if s == "10"@ {
        Some(RoomVersion::V10)
    } else if s == "11"@ {
        Some(RoomVersion::V11)
    } else {
        None
    }
}

impl RoomVersion {
    /// The number of the version.
    pub open spec fn spec_number(self) -> int {
        match self {
            RoomVersion::V1 => 1,
            RoomVersion::V2 => 2,
            RoomVersion::V3 => 3,
            RoomVersion::V4 => 4,
            RoomVersion::V5 => 5,
            RoomVersion::V6 => 6,
            RoomVersion::V7 => 7,
            RoomVersion::V8 => 8,
            RoomVersion::V9 => 9,
            RoomVersion::V10 => 10,
            RoomVersion::V11 => 11,
        }
    }

    /// Versions 1 and 2 carry the event id inside the event; from version 3
    /// on it is derived from the reference hash.
    pub open spec fn spec_event_id_in_band(self) -> bool {
        self.spec_number() <= 2
    }

    /// From version 8 on a restricted join is countersigned by the server
    /// that authorised it.
    pub open spec fn spec_has_restricted_joins(self) -> bool {
        self.spec_number() >= 8
    }

    pub fn number(self) -> (n: u8)
        ensures
            n == self.spec_number(),
    {
        match self {
            RoomVersion::V1 => 1,
            RoomVersion::V2 => 2,
            RoomVersion::V3 => 3,
            RoomVersion::V4 => 4,
            RoomVersion::V5 => 5,
            RoomVersion::V6 => 6,
            RoomVersion::V7 => 7,
            RoomVersion::V8 => 8,
            RoomVersion::V9 => 9,
            RoomVersion::V10 => 10,
            RoomVersion::V11 => 11,
        }
    }

    pub fn event_id_in_band(self) -> (b: bool)
        ensures
            b == self.spec_event_id_in_band(),
    {
        self.number() <= 2
    }

    pub fn has_restricted_joins(self) -> (b: bool)
        ensures
            b == self.spec_has_restricted_joins(),
    {
        self.number() >= 8
    }

    /// Reads a version string such as `"10"`.
    pub fn parse(s: &str) -> (r: Option<RoomVersion>)
        ensures
            r == version_named(s@),
    {
        let t = s.to_owned();
        if t == "1".to_owned() {
            Some(RoomVersion::V1)
        } else if t == "2".to_owned() {
            Some(RoomVersion::V2)
        } else if t == "3".to_owned() {
            Some(RoomVersion::V3)
        } else if t == "4".to_owned() {
            Some(RoomVersion::V4)
        } else if t == "5".to_owned() {
            Some(RoomVersion::V5)
        } else if t == "6".to_owned() {
            Some(RoomVersion::V6)
        } else if t == "7".to_owned() {
            Some(RoomVersion::V7)
        } else if t == "8".to_owned() {
            Some(RoomVersion::V8)
        } else if t == "9".to_owned() {
            Some(RoomVersion::V9)
        } else if t == "10".to_owned() {
            Some(RoomVersion::V10)
        } else if t == "11".to_owned() {
            Some(RoomVersion::V11)
        } else {
            None
        }
    }

    /// The version string.
    pub fn as_str(self) -> (s: &'static str)
        ensures
            version_named(s@) == Some(self),
    {
        proof {
            reveal_strlit("1");
            reveal_strlit("2");
            reveal_strlit("3");
            reveal_strlit("4");
            reveal_strlit("5");
            reveal_strlit("6");
            reveal_strlit("7");
            reveal_strlit("8");
            reveal_strlit("9");
            reveal_strlit("10");
            reveal_strlit("11");
            assert("1"@.len() == 1 && "1"@[0] == '1');
            assert("2"@.len() == 1 && "2"@[0] == '2');
            assert("3"@.len() == 1 && "3"@[0] == '3');
            assert("4"@.len() == 1 && "4"@[0] == '4');
            assert("5"@.len() == 1 && "5"@[0] == '5');
            assert("6"@.len() == 1 && "6"@[0] == '6');
            assert("7"@.len() == 1 && "7"@[0] == '7');
            assert("8"@.len() == 1 && "8"@[0] == '8');
            assert("9"@.len() == 1 && "9"@[0] == '9');
            assert("10"@.len() == 2 && "10"@[1] == '0');
            assert("11"@.len() == 2 && "11"@[1] == '1');
        }
        match self {
            RoomVersion::V1 => "1",
            RoomVersion::V2 => "2",
            RoomVersion::V3 => "3",
            RoomVersion::V4 => "4",
            RoomVersion::V5 => "5",
            RoomVersion::V6 => "6",
            RoomVersion::V7 => "7",
            RoomVersion::V8 => "8",
            RoomVersion::V9 => "9",
            RoomVersion::V10 => "10",
            RoomVersion::V11 => "11",
        }
    }
}

/// Whether `version` is among `supported`.
pub fn version_supported(supported: &Vec<RoomVersion>, version: RoomVersion) -> (r: bool)
    ensures
        r == supported@.contains(version),
{
    let mut i: usize = 0;
    while i < supported.len()
        invariant
            i <= supported.len(),
            forall|j: int| 0 <= j < i ==> supported@[j] != version,
        decreases supported.len() - i,
    {
        if supported[i] == version {
            return true;
        }
        i = i + 1;
    }
    false
}

} // verus!
