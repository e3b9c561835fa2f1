//! The vocabulary of a motion command: its kinds and the payloads that the
//! robot has on file.

use vstd::prelude::*;
use vstd::string::*;

verus! {

/// What the robot is asked to do.
#[derive(Clone, Copy, Debug, PartialEq, Eq, Structural)]
pub enum CommandType {
    UnsafeMoveL,
    UnsafeMoveJ,
    SafeMoveL,
    SafeMoveJ,
    PickVacuum,
    PlaceVacuum,
}

impl CommandType {
    /// The identifier under which the backend knows this kind of command.
    pub open spec fn wire_name(self) -> Seq<char> {
        match self {
            CommandType::UnsafeMoveL => "unsafe_move_l"@,
            CommandType::UnsafeMoveJ => "unsafe_move_j"@,
            CommandType::SafeMoveL => "safe_move_l"@,
            CommandType::SafeMoveJ => "safe_move_j"@,
            CommandType::PickVacuum => "pick_vacuum"@,
            CommandType::PlaceVacuum => "place_vacuum"@,
        }
    }

    /// All kinds, in the order in which they are offered.
    pub open spec fn all() -> Seq<CommandType> {
        seq![
            CommandType::UnsafeMoveL,
            CommandType::UnsafeMoveJ,
            CommandType::SafeMoveL,
            CommandType::SafeMoveJ,
            CommandType::PickVacuum,
            CommandType::PlaceVacuum,
        ]
    }

    /// Whether the motion is planned in joint space, so that its rates are
    /// angular.
    pub open spec fn in_joint_space(self) -> bool {
        self == CommandType::UnsafeMoveJ || self == CommandType::SafeMoveJ
    }

    pub fn as_str(&self) -> (name: &'static str)
        ensures
            name@ == self.wire_name(),
    {
        match self {
            CommandType::UnsafeMoveL => "unsafe_move_l",
            CommandType::UnsafeMoveJ => "unsafe_move_j",
            CommandType::SafeMoveL => "safe_move_l",
            CommandType::SafeMoveJ => "safe_move_j",
            CommandType::PickVacuum => "pick_vacuum",
            CommandType::PlaceVacuum => "place_vacuum",
        }
    }

    pub fn to_string(&self) -> (name: String)
        ensures
            name@ == self.wire_name(),
    {
        String::from_str(self.as_str())
    }

    pub fn variants() -> (kinds: Vec<CommandType>)
        ensures
            kinds@ == CommandType::all(),
    {
        let mut kinds: Vec<CommandType> = Vec::new();
        kinds.push(CommandType::UnsafeMoveL);
        kinds.push(CommandType::UnsafeMoveJ);
        kinds.push(CommandType::SafeMoveL);
        kinds.push(CommandType::SafeMoveJ);
        kinds.push(CommandType::PickVacuum);
        kinds.push(CommandType::PlaceVacuum);
        assert(kinds@ =~= CommandType::all());
        kinds
    }

    /// The unit shown behind acceleration and velocity for this kind.
    pub fn rate_suffix(&self) -> (unit: &'static str)
        ensures
            unit@ == if self.in_joint_space() {
                " rad/s\u{b2}"@
            } else {
                " m/s\u{b2}"@
            },
    {
        match self {
            CommandType::UnsafeMoveJ | CommandType::SafeMoveJ => " rad/s\u{b2}",
            _ => " m/s\u{b2}",
        }
    }
}

/// No two kinds of command share a wire name.
pub proof fn lemma_command_names_distinct(a: CommandType, b: CommandType)
    requires
        a != b,
    ensures
        a.wire_name() != b.wire_name(),
{
    reveal_strlit("unsafe_move_l");
    reveal_strlit("unsafe_move_j");
    reveal_strlit("safe_move_l");
    reveal_strlit("safe_move_j");
    reveal_strlit("pick_vacuum");
    reveal_strlit("place_vacuum");
    assert("unsafe_move_l"@.len() == 13 && "unsafe_move_l"@[12] == 'l');
    assert("unsafe_move_j"@.len() == 13 && "unsafe_move_j"@[12] == 'j');
    assert("safe_move_l"@.len() == 11 && "safe_move_l"@[0] == 's' && "safe_move_l"@[10] == 'l');
    assert("safe_move_j"@.len() == 11 && "safe_move_j"@[0] == 's' && "safe_move_j"@[10] == 'j');
    assert("pick_vacuum"@.len() == 11 && "pick_vacuum"@[0] == 'p');
    assert("place_vacuum"@.len() == 12);
}

/// A payload whose parameters the robot has on file.
#[derive(Clone, Copy, Debug, PartialEq, Eq, Structural)]
pub enum SavedPayload {
    Gripper,
    Svt,
    Bvt,
    Photoneo,
    Sponge,
    NoPayload,
}

impl SavedPayload {
    /// The identifier under which the backend knows this payload.
    pub open spec fn wire_name(self) -> Seq<char> {
        match self {
            SavedPayload::Gripper => "gripper"@,
            SavedPayload::Svt => "svt"@,
            SavedPayload::Bvt => "bvt"@,
            SavedPayload::Photoneo => "photoneo"@,
            SavedPayload::Sponge => "sponge"@,
            SavedPayload::NoPayload => "none"@,
        }
    }

    /// All payloads, in the order in which they are offered: no payload
    /// first.
    pub open spec fn all() -> Seq<SavedPayload> {
        seq![
            SavedPayload::NoPayload,
            SavedPayload::Gripper,
            SavedPayload::Svt,
            SavedPayload::Bvt,
            SavedPayload::Photoneo,
            SavedPayload::Sponge,
        ]
    }

    pub fn as_str(&self) -> (name: &'static str)
        ensures
            name@ == self.wire_name(),
    {
        match self {
            SavedPayload::Gripper => "gripper",
            SavedPayload::Svt => "svt",
            SavedPayload::Bvt => "bvt",
            SavedPayload::Photoneo => "photoneo",
            SavedPayload::Sponge => "sponge",
            SavedPayload::NoPayload => "none",
        }
    }

    pub fn to_string(&self) -> (name: String)
        ensures
            name@ == self.wire_name(),
    {
        String::from_str(self.as_str())
    }

    pub fn variants() -> (payloads: Vec<SavedPayload>)
        ensures
            payloads@ == SavedPayload::all(),
    {
        let mut payloads: Vec<SavedPayload> = Vec::new();
        payloads.push(SavedPayload::NoPayload);
        payloads.push(SavedPayload::Gripper);
        payloads.push(SavedPayload::Svt);
        payloads.push(SavedPayload::Bvt);
        payloads.push(SavedPayload::Photoneo);
        payloads.push(SavedPayload::Sponge);
        assert(payloads@ =~= SavedPayload::all());
        payloads
    }
}

/// No two saved payloads share a wire name.
pub proof fn lemma_payload_names_distinct(a: SavedPayload, b: SavedPayload)
    requires
        a != b,
    ensures
        a.wire_name() != b.wire_name(),
{
    reveal_strlit("gripper");
    reveal_strlit("svt");
    reveal_strlit("bvt");
    reveal_strlit("photoneo");
    reveal_strlit("sponge");
    reveal_strlit("none");
    assert("gripper"@.len() == 7);
    assert("svt"@.len() == 3 && "svt"@[0] == 's');
    assert("bvt"@.len() == 3 && "bvt"@[0] == 'b');
    assert("photoneo"@.len() == 8);
    assert("sponge"@.len() == 6);
    assert("none"@.len() == 4);
}

} // verus!
