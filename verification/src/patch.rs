//! The state patch that one command writes to the backend, and the table of
//! fields that it is made of.

use crate::scalar::Scalar;
use crate::text::joined;
use vstd::prelude::*;
use vstd::string::*;

verus! {

/// A value that the backend stores under a key.
#[derive(Debug, PartialEq, Eq)]
pub enum PatchValue {
    Bool(bool),
    Float(Scalar),
    Text(String),
    FloatArray(Vec<Scalar>),
}

/// A patch value as plain data.
pub enum PatchValueView {
    Bool(bool),
    Float(Scalar),
    Text(Seq<char>),
    FloatArray(Seq<Scalar>),
}

impl View for PatchValue {
    type V = PatchValueView;

    open spec fn view(&self) -> PatchValueView {
        match self {
            PatchValue::Bool(b) => PatchValueView::Bool(*b),
            PatchValue::Float(x) => PatchValueView::Float(*x),
            PatchValue::Text(t) => PatchValueView::Text(t@),
            PatchValue::FloatArray(xs) => PatchValueView::FloatArray(xs@),
        }
    }
}

/// One write of a patch: a backend key and the value to store under it.
#[derive(Debug, PartialEq, Eq)]
pub struct PatchEntry {
    pub key: String,
    pub value: PatchValue,
}

impl View for PatchEntry {
    type V = (Seq<char>, PatchValueView);

    open spec fn view(&self) -> (Seq<char>, PatchValueView) {
        (self.key@, self.value@)
    }
}

/// One atomic state write: entries in a fixed order, handed to the backend
/// as a whole.
#[derive(Debug, PartialEq, Eq)]
pub struct CommandPatch {
    pub entries: Vec<PatchEntry>,
}

impl View for CommandPatch {
    type V = Seq<(Seq<char>, PatchValueView)>;

    open spec fn view(&self) -> Seq<(Seq<char>, PatchValueView)> {
        Seq::new(self.entries@.len(), |i: int| self.entries@[i]@)
    }
}

impl CommandPatch {
    /// The number of entries.
    pub fn len(&self) -> (n: usize)
        ensures
            n == self@.len(),
    {
        self.entries.len()
    }

    /// The value of the first entry under `key`.
    pub fn get(&self, key: &str) -> (found: Option<&PatchValue>)
        ensures
            match found {
                Some(value) => exists|i: int|
                    0 <= i < self@.len() && self@[i] == (key@, value@) && forall|j: int|
                        0 <= j < i ==> self@[j].0 != key@,
                None => forall|i: int| 0 <= i < self@.len() ==> self@[i].0 != key@,
            },
    {
        let wanted = String::from_str(key);
        let mut i: usize = 0;
        while i < self.entries.len()
            invariant
                i <= self.entries.len(),
                wanted@ == key@,
                forall|j: int| 0 <= j < i ==> self@[j].0 != key@,
            decreases self.entries.len() - i,
        {
            if self.entries[i].key == wanted {
                assert(self@[i as int] == (key@, self.entries[i as int].value@));
                return Some(&self.entries[i].value);
            }
            i += 1;
        }
        None
    }
}

/// A field of the backend state that a command writes.
#[derive(Clone, Copy, Debug, PartialEq, Eq, Structural)]
pub enum Field {
    RequestTrigger,
    CommandType,
    Acceleration,
    Velocity,
    UseExecutionTime,
    ExecutionTime,
    UseBlendRadius,
    BlendRadius,
    UseJointPositions,
    JointPositions,
    UsePreferredJointConfig,
    PreferredJointConfig,
    UsePayload,
    Payload,
    BaseframeId,
    FaceplateId,
    GoalFeatureId,
    TcpId,
    RootFrameId,
    ForceThreshold,
    UseRelativePose,
    RelativePose,
}

impl Field {
    /// All fields, in the order in which a patch lists them.
    pub open spec fn all() -> Seq<Field> {
        seq![
            Field::RequestTrigger,
            Field::CommandType,
            Field::Acceleration,
            Field::Velocity,
            Field::UseExecutionTime,
            Field::ExecutionTime,
            Field::UseBlendRadius,
            Field::BlendRadius,
            Field::UseJointPositions,
            Field::JointPositions,
            Field::UsePreferredJointConfig,
            Field::PreferredJointConfig,
            Field::UsePayload,
            Field::Payload,
            Field::BaseframeId,
            Field::FaceplateId,
            Field::GoalFeatureId,
            Field::TcpId,
            Field::RootFrameId,
            Field::ForceThreshold,
            Field::UseRelativePose,
            Field::RelativePose,
        ]
    }

    /// The name of the field in the backend state, as the backend spells it.
    pub open spec fn name(self) -> Seq<char> {
        match self {
            Field::RequestTrigger => "request_trigger"@,
            Field::CommandType => "command_type"@,
            Field::Acceleration => "accelleration"@,
            Field::Velocity => "velocity"@,
            Field::UseExecutionTime => "use_execution_time"@,
            Field::ExecutionTime => "execution_time"@,
            Field::UseBlendRadius => "use_blend_radius"@,
            Field::BlendRadius => "blend_radius"@,
            Field::UseJointPositions => "use_joint_positions"@,
            Field::JointPositions => "joint_positions"@,
            Field::UsePreferredJointConfig => "use_preferred_joint_config"@,
            Field::PreferredJointConfig => "preferred_joint_config"@,
            Field::UsePayload => "use_payload"@,
            Field::Payload => "payload"@,
            Field::BaseframeId => "baseframe_id"@,
            Field::FaceplateId => "faceplate_id"@,
            Field::GoalFeatureId => "goal_feature_id"@,
            Field::TcpId => "tcp_id"@,
            Field::RootFrameId => "root_frame_id"@,
            Field::ForceThreshold => "force_threshold"@,
            Field::UseRelativePose => "use_relative_pose"@,
            Field::RelativePose => "relative_pose"@,
        }
    }

    pub fn as_str(&self) -> (name: &'static str)
        ensures
            name@ == self.name(),
    {
        match self {
            Field::RequestTrigger => "request_trigger",
            Field::CommandType => "command_type",
            Field::Acceleration => "accelleration",
            Field::Velocity => "velocity",
            Field::UseExecutionTime => "use_execution_time",
            Field::ExecutionTime => "execution_time",
            Field::UseBlendRadius => "use_blend_radius",
            Field::BlendRadius => "blend_radius",
            Field::UseJointPositions => "use_joint_positions",
            Field::JointPositions => "joint_positions",
            Field::UsePreferredJointConfig => "use_preferred_joint_config",
            Field::PreferredJointConfig => "preferred_joint_config",
            Field::UsePayload => "use_payload",
            Field::Payload => "payload",
            Field::BaseframeId => "baseframe_id",
            Field::FaceplateId => "faceplate_id",
            Field::GoalFeatureId => "goal_feature_id",
            Field::TcpId => "tcp_id",
            Field::RootFrameId => "root_frame_id",
            Field::ForceThreshold => "force_threshold",
            Field::UseRelativePose => "use_relative_pose",
            Field::RelativePose => "relative_pose",
        }
    }

    pub fn variants() -> (fields: Vec<Field>)
        ensures
            fields@ == Field::all(),
    {
        let mut fields: Vec<Field> = Vec::new();
        fields.push(Field::RequestTrigger);
        fields.push(Field::CommandType);
        fields.push(Field::Acceleration);
        fields.push(Field::Velocity);
        fields.push(Field::UseExecutionTime);
        fields.push(Field::ExecutionTime);
        fields.push(Field::UseBlendRadius);
        fields.push(Field::BlendRadius);
        fields.push(Field::UseJointPositions);
        fields.push(Field::JointPositions);
        fields.push(Field::UsePreferredJointConfig);
        fields.push(Field::PreferredJointConfig);
        fields.push(Field::UsePayload);
        fields.push(Field::Payload);
        fields.push(Field::BaseframeId);
        fields.push(Field::FaceplateId);
        fields.push(Field::GoalFeatureId);
        fields.push(Field::TcpId);
        fields.push(Field::RootFrameId);
        fields.push(Field::ForceThreshold);
        fields.push(Field::UseRelativePose);
        fields.push(Field::RelativePose);
        assert(fields@ =~= Field::all());
        fields
    }
}

/// The backend key of a robot's field: the robot's identifier, an
/// underscore, the field's name.
pub open spec fn field_key(robot: Seq<char>, field: Field) -> Seq<char> {
    robot + "_"@ + field.name()
}

/// Builds the backend key of a robot's field.
pub fn key_for(robot: &str, field: Field) -> (key: String)
    ensures
        key@ == field_key(robot@, field),
{
    let mut key = joined(robot, "_");
    key.append(field.as_str());
    key
}

/// Every field is listed, and listed once.
pub proof fn lemma_fields_complete(field: Field)
    ensures
        Field::all().len() == 22,
        Field::all().no_duplicates(),
        Field::all().contains(field),
{
    let all = Field::all();
    let i: int = match field {
        Field::RequestTrigger => 0,
        Field::CommandType => 1,
        Field::Acceleration => 2,
        Field::Velocity => 3,
        Field::UseExecutionTime => 4,
        Field::ExecutionTime => 5,
        Field::UseBlendRadius => 6,
        Field::BlendRadius => 7,
        Field::UseJointPositions => 8,
        Field::JointPositions => 9,
        Field::UsePreferredJointConfig => 10,
        Field::PreferredJointConfig => 11,
        Field::UsePayload => 12,
        Field::Payload => 13,
        Field::BaseframeId => 14,
        Field::FaceplateId => 15,
        Field::GoalFeatureId => 16,
        Field::TcpId => 17,
        Field::RootFrameId => 18,
        Field::ForceThreshold => 19,
        Field::UseRelativePose => 20,
        Field::RelativePose => 21,
    };
    assert(all[i] == field);
}

/// No two fields share a name.
pub proof fn lemma_field_names_distinct(a: Field, b: Field)
    requires
        a != b,
    ensures
        a.name() != b.name(),
{
    reveal_strlit("request_trigger");
    reveal_strlit("command_type");
    reveal_strlit("accelleration");
    reveal_strlit("velocity");
    reveal_strlit("use_execution_time");
    reveal_strlit("execution_time");
    reveal_strlit("use_blend_radius");
    reveal_strlit("blend_radius");
    reveal_strlit("use_joint_positions");
    reveal_strlit("joint_positions");
    reveal_strlit("use_preferred_joint_config");
    reveal_strlit("preferred_joint_config");
    reveal_strlit("use_payload");
    reveal_strlit("payload");
    reveal_strlit("baseframe_id");
    reveal_strlit("faceplate_id");
    reveal_strlit("goal_feature_id");
    reveal_strlit("tcp_id");
    reveal_strlit("root_frame_id");
    reveal_strlit("force_threshold");
    reveal_strlit("use_relative_pose");
    reveal_strlit("relative_pose");
    let x = a.name();
    let y = b.name();
    assert(x.len() != y.len() || x[0] != y[0] || x[1] != y[1]) by {
        assert("request_trigger"@.len() == 15 && "request_trigger"@[0] == 'r');
        assert("command_type"@.len() == 12 && "command_type"@[0] == 'c');
        assert("accelleration"@.len() == 13 && "accelleration"@[0] == 'a');
        assert("velocity"@.len() == 8);
        assert("use_execution_time"@.len() == 18);
        assert("execution_time"@.len() == 14);
        assert("use_blend_radius"@.len() == 16);
        assert("blend_radius"@.len() == 12 && "blend_radius"@[0] == 'b' && "blend_radius"@[1]
            == 'l');
        assert("use_joint_positions"@.len() == 19);
        assert("joint_positions"@.len() == 15 && "joint_positions"@[0] == 'j');
        assert("use_preferred_joint_config"@.len() == 26);
        assert("preferred_joint_config"@.len() == 22);
        assert("use_payload"@.len() == 11);
        assert("payload"@.len() == 7);
        assert("baseframe_id"@.len() == 12 && "baseframe_id"@[0] == 'b' && "baseframe_id"@[1]
            == 'a');
        assert("faceplate_id"@.len() == 12 && "faceplate_id"@[0] == 'f');
        assert("goal_feature_id"@.len() == 15 && "goal_feature_id"@[0] == 'g');
        assert("tcp_id"@.len() == 6);
        assert("root_frame_id"@.len() == 13 && "root_frame_id"@[0] == 'r' && "root_frame_id"@[1]
            == 'o');
        assert("force_threshold"@.len() == 15 && "force_threshold"@[0] == 'f');
        assert("use_relative_pose"@.len() == 17);
        assert("relative_pose"@.len() == 13 && "relative_pose"@[0] == 'r' && "relative_pose"@[1]
            == 'e');
    }
}

/// No two fields of one robot share a backend key.
pub proof fn lemma_field_keys_distinct(robot: Seq<char>, a: Field, b: Field)
    requires
        a != b,
    ensures
        field_key(robot, a) != field_key(robot, b),
{
    lemma_field_names_distinct(a, b);
    let prefix = robot + "_"@;
    assert((prefix + a.name()).subrange(prefix.len() as int, (prefix + a.name()).len() as int)
        =~= a.name());
    assert((prefix + b.name()).subrange(prefix.len() as int, (prefix + b.name()).len() as int)
        =~= b.name());
}

} // verus!
