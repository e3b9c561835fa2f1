//! The robot tab: the form of a motion command, the patch built from it and
//! the two operations of the tab, fetching the transform list and sending a
//! command.

use crate::command::{CommandType, SavedPayload};
use crate::keys::{
    names, retain_selection, retained, selected_or_empty, selection_or_empty, sorted_keys,
    strictly_increasing, text_of,
};
use crate::patch::{
    field_key, key_for, lemma_field_keys_distinct, CommandPatch, Field, PatchEntry, PatchValue,
    PatchValueView,
};
use crate::scalar::{Scalar, ONE_BITS, ONE_TENTH_BITS, TWENTY_BITS, ZERO_BITS};
use crate::slot::{thread_name, PollState, PromiseSlot};
use vstd::prelude::*;
use vstd::string::*;

verus! {

/// A payload entered by hand.
#[derive(Clone, Copy, Debug, PartialEq, Eq, Structural)]
pub struct Payload {
    /// Mass in kilograms.
    pub mass: Scalar,
    /// Offsets of the centre of gravity from the tool mount, in metres.
    pub cog_x: Scalar,
    pub cog_y: Scalar,
    pub cog_z: Scalar,
    /// Inertia matrix in kg*m^2, with its origin at the centre of gravity and
    /// its axes aligned with those of the tool flange.
    pub ixx: Scalar,
    pub iyy: Scalar,
    pub izz: Scalar,
    pub ixy: Scalar,
    pub ixz: Scalar,
    pub iyz: Scalar,
}

impl Payload {
    /// The payload of no mass.
    pub open spec fn zeroed() -> Payload {
        let zero = Scalar { bits: ZERO_BITS };
        Payload {
            mass: zero,
            cog_x: zero,
            cog_y: zero,
            cog_z: zero,
            ixx: zero,
            iyy: zero,
            izz: zero,
            ixy: zero,
            ixz: zero,
            iyz: zero,
        }
    }
}

impl Default for Payload {
    fn default() -> (payload: Self)
        ensures
            payload == Payload::zeroed(),
    {
        let zero = Scalar::zero();
        Payload {
            mass: zero,
            cog_x: zero,
            cog_y: zero,
            cog_z: zero,
            ixx: zero,
            iyy: zero,
            izz: zero,
            ixy: zero,
            ixz: zero,
            iyz: zero,
        }
    }
}

/// A selection that a command cannot do without.
#[derive(Clone, Copy, Debug, PartialEq, Eq, Structural)]
pub enum MissingField {
    Baseframe,
    Faceplate,
    GoalFeature,
    Tcp,
}

impl MissingField {
    /// The reason given for a command that was not built.
    pub open spec fn reason(self) -> Seq<char> {
        match self {
            MissingField::Baseframe => "Baseframe not selected"@,
            MissingField::Faceplate => "Faceplate not selected"@,
            MissingField::GoalFeature => "Goal feature not selected"@,
            MissingField::Tcp => "Tcp not selected"@,
        }
    }

    pub fn as_str(&self) -> (reason: &'static str)
        ensures
            reason@ == self.reason(),
    {
        match self {
            MissingField::Baseframe => "Baseframe not selected",
            MissingField::Faceplate => "Faceplate not selected",
            MissingField::GoalFeature => "Goal feature not selected",
            MissingField::Tcp => "Tcp not selected",
        }
    }

    pub fn to_string(&self) -> (reason: String)
        ensures
            reason@ == self.reason(),
    {
        String::from_str(self.as_str())
    }
}

/// What completes a send: nothing on success, the backend's words on
/// failure.
pub type SendResult = Result<(), String>;

/// Why a command was not sent or did not arrive.
#[derive(Debug, PartialEq, Eq)]
pub enum CommandError {
    /// The form lacks a selection: nothing was sent.
    Validation(MissingField),
    /// The backend reported a failure.
    Backend(String),
}

impl CommandError {
    /// The text under which the error is shown.
    pub open spec fn text(self) -> Seq<char> {
        match self {
            CommandError::Validation(missing) => missing.reason(),
            CommandError::Backend(cause) => cause@,
        }
    }

    pub fn to_string(&self) -> (shown: String)
        ensures
            shown@ == self.text(),
    {
        match self {
            CommandError::Validation(missing) => missing.to_string(),
            CommandError::Backend(cause) => cause.clone(),
        }
    }
}

/// State of the robot tab.
pub struct RobotTab {
    pub robot_id_input: String,
    pub get_all_transforms_promise: PromiseSlot<Vec<String>>,
    pub robot_control_promise: PromiseSlot<SendResult>,
    pub transform_keys: Vec<String>,
    pub selected_goal_feature_id: Option<String>,
    pub tcp_keys: Vec<String>,
    pub selected_tcp: Option<String>,
    pub selected_faceplate: Option<String>,
    pub selected_baseframe: Option<String>,
    /// Why the last command was not sent or did not arrive, if it was not.
    pub command_error: Option<CommandError>,
    pub command_type: CommandType,
    pub acceleration: Scalar,
    pub velocity: Scalar,
    pub global_acceleration_scaling: Scalar,
    pub global_velocity_scaling: Scalar,
    pub use_blend_radius: bool,
    pub blend_radius: Scalar,
    pub use_joint_positions: bool,
    pub set_manual_joint_positions: bool,
    pub joint_positions: [Scalar; 6],
    pub use_preferred_joint_config: bool,
    pub preferred_joint_config: [Scalar; 6],
    pub set_manual_joint_config: bool,
    pub use_payload: bool,
    pub set_manual_payload: bool,
    pub saved_payload: SavedPayload,
    pub manual_payload: Payload,
    pub use_execution_time: bool,
    pub execution_time_s: Scalar,
    pub force_threshold: Scalar,
    pub use_relative_pose: bool,
    pub relative_pose: [Scalar; 6],
}

/// The first of the required selections that is not made, in the order
/// baseframe, faceplate, goal feature, TCP.
pub open spec fn first_missing(tab: RobotTab) -> Option<MissingField> {
    if tab.selected_baseframe is None {
        Some(MissingField::Baseframe)
    } else if tab.selected_faceplate is None {
        Some(MissingField::Faceplate)
    } else if tab.selected_goal_feature_id is None {
        Some(MissingField::GoalFeature)
    } else if tab.selected_tcp is None {
        Some(MissingField::Tcp)
    } else {
        None
    }
}

/// The selection that a command needs under the given name.
pub open spec fn required_selection(tab: RobotTab, field: MissingField) -> Option<String> {
    match field {
        MissingField::Baseframe => tab.selected_baseframe,
        MissingField::Faceplate => tab.selected_faceplate,
        MissingField::GoalFeature => tab.selected_goal_feature_id,
        MissingField::Tcp => tab.selected_tcp,
    }
}

/// Nothing is missing exactly when all four required selections are made.
/// What is reported missing is not selected, and where one selection alone
/// is not made, that one is reported.
pub proof fn lemma_missing_field(tab: RobotTab, field: MissingField)
    ensures
        first_missing(tab) is None <==> forall|f: MissingField|
            (#[trigger] required_selection(tab, f)) is Some,
        first_missing(tab) == Some(field) ==> required_selection(tab, field) is None,
        required_selection(tab, field) is None && (forall|f: MissingField|
            f != field ==> (#[trigger] required_selection(tab, f)) is Some) ==> first_missing(tab)
            == Some(field),
{
    if first_missing(tab) is None {
        assert forall|f: MissingField| (#[trigger] required_selection(tab, f)) is Some by {}
    } else {
        let missing = first_missing(tab)->Some_0;
        assert(required_selection(tab, missing) is None);
    }
    if required_selection(tab, field) is None && (forall|f: MissingField|
        f != field ==> (#[trigger] required_selection(tab, f)) is Some) {
        assert(field != MissingField::Baseframe ==> required_selection(
            tab,
            MissingField::Baseframe,
        ) is Some);
        assert(field != MissingField::Faceplate ==> required_selection(
            tab,
            MissingField::Faceplate,
        ) is Some);
        assert(field != MissingField::GoalFeature ==> required_selection(
            tab,
            MissingField::GoalFeature,
        ) is Some);
        assert(field != MissingField::Tcp ==> required_selection(tab, MissingField::Tcp) is Some);
    }
}

/// The value that a command writes to a field.
pub open spec fn field_value(tab: RobotTab, field: Field) -> PatchValueView {
    match field {
        Field::RequestTrigger => PatchValueView::Bool(true),
        Field::CommandType => PatchValueView::Text(tab.command_type.wire_name()),
        Field::Acceleration => PatchValueView::Float(tab.acceleration),
        Field::Velocity => PatchValueView::Float(tab.velocity),
        Field::UseExecutionTime => PatchValueView::Bool(tab.use_execution_time),
        Field::ExecutionTime => PatchValueView::Float(tab.execution_time_s),
        Field::UseBlendRadius => PatchValueView::Bool(tab.use_blend_radius),
        Field::BlendRadius => PatchValueView::Float(tab.blend_radius),
        Field::UseJointPositions => PatchValueView::Bool(tab.use_joint_positions),
        Field::JointPositions => PatchValueView::FloatArray(tab.joint_positions@),
        Field::UsePreferredJointConfig => PatchValueView::Bool(tab.use_preferred_joint_config),
        Field::PreferredJointConfig => PatchValueView::FloatArray(tab.preferred_joint_config@),
        Field::UsePayload => PatchValueView::Bool(tab.use_payload),
        Field::Payload => PatchValueView::Text(tab.saved_payload.wire_name()),
        Field::BaseframeId => PatchValueView::Text(
            selected_or_empty(text_of(tab.selected_baseframe)),
        ),
        Field::FaceplateId => PatchValueView::Text(
            selected_or_empty(text_of(tab.selected_faceplate)),
        ),
        Field::GoalFeatureId => PatchValueView::Text(
            selected_or_empty(text_of(tab.selected_goal_feature_id)),
        ),
        Field::TcpId => PatchValueView::Text(selected_or_empty(text_of(tab.selected_tcp))),
        Field::RootFrameId => PatchValueView::Text("world"@),
        Field::ForceThreshold => PatchValueView::Float(tab.force_threshold),
        Field::UseRelativePose => PatchValueView::Bool(tab.use_relative_pose),
        Field::RelativePose => PatchValueView::FloatArray(tab.relative_pose@),
    }
}

/// The entry that a command holds for a field.
pub open spec fn field_entry(tab: RobotTab, field: Field) -> (Seq<char>, PatchValueView) {
    (field_key(tab.robot_id_input@, field), field_value(tab, field))
}

/// The patch of a command: one entry for each field, in the order of the
/// field table.
pub open spec fn patch_model(tab: RobotTab) -> Seq<(Seq<char>, PatchValueView)> {
    Seq::new(Field::all().len(), |i: int| field_entry(tab, Field::all()[i]))
}

/// A patch holds every field under a key of its own: no two of its entries
/// share a key, and each field's entry stands at the field's place.
pub proof fn lemma_patch_total(tab: RobotTab)
    ensures
        patch_model(tab).len() == 22,
        forall|i: int, j: int|
            0 <= i < j < 22 ==> (#[trigger] patch_model(tab)[i]).0 != (#[trigger] patch_model(
                tab,
            )[j]).0,
        forall|i: int|
            0 <= i < 22 ==> #[trigger] patch_model(tab)[i] == field_entry(tab, Field::all()[i]),
{
    let all = Field::all();
    let patch = patch_model(tab);
    assert forall|i: int, j: int| 0 <= i < j < 22 implies (#[trigger] patch[i]).0 != (
    #[trigger] patch[j]).0 by {
        assert(all[i] != all[j]);
        lemma_field_keys_distinct(tab.robot_id_input@, all[i], all[j]);
    }
}

fn six_values(values: &[Scalar; 6]) -> (out: Vec<Scalar>)
    ensures
        out@ == values@,
{
    let mut out: Vec<Scalar> = Vec::new();
    let mut i: usize = 0;
    while i < 6
        invariant
            i <= 6,
            out@ == values@.take(i as int),
        decreases 6 - i,
    {
        out.push(values[i]);
        assert(out@ =~= values@.take(i + 1));
        i += 1;
    }
    assert(values@.take(6) =~= values@);
    out
}

fn value_for(tab: &RobotTab, field: Field) -> (value: PatchValue)
    ensures
        value@ == field_value(*tab, field),
{
    match field {
        Field::RequestTrigger => PatchValue::Bool(true),
        Field::CommandType => PatchValue::Text(tab.command_type.to_string()),
        Field::Acceleration => PatchValue::Float(tab.acceleration),
        Field::Velocity => PatchValue::Float(tab.velocity),
        Field::UseExecutionTime => PatchValue::Bool(tab.use_execution_time),
        Field::ExecutionTime => PatchValue::Float(tab.execution_time_s),
        Field::UseBlendRadius => PatchValue::Bool(tab.use_blend_radius),
        Field::BlendRadius => PatchValue::Float(tab.blend_radius),
        Field::UseJointPositions => PatchValue::Bool(tab.use_joint_positions),
        Field::JointPositions => PatchValue::FloatArray(six_values(&tab.joint_positions)),
        Field::UsePreferredJointConfig => PatchValue::Bool(tab.use_preferred_joint_config),
        Field::PreferredJointConfig => PatchValue::FloatArray(
            six_values(&tab.preferred_joint_config),
        ),
        Field::UsePayload => PatchValue::Bool(tab.use_payload),
        Field::Payload => PatchValue::Text(tab.saved_payload.to_string()),
        Field::BaseframeId => PatchValue::Text(selection_or_empty(&tab.selected_baseframe)),
        Field::FaceplateId => PatchValue::Text(selection_or_empty(&tab.selected_faceplate)),
        Field::GoalFeatureId => PatchValue::Text(selection_or_empty(&tab.selected_goal_feature_id)),
        Field::TcpId => PatchValue::Text(selection_or_empty(&tab.selected_tcp)),
        Field::RootFrameId => PatchValue::Text(String::from_str("world")),
        Field::ForceThreshold => PatchValue::Float(tab.force_threshold),
        Field::UseRelativePose => PatchValue::Bool(tab.use_relative_pose),
        Field::RelativePose => PatchValue::FloatArray(six_values(&tab.relative_pose)),
    }
}

/// Finds the first required selection that is not made.
pub fn missing_selection(tab: &RobotTab) -> (missing: Option<MissingField>)
    ensures
        missing == first_missing(*tab),
{
    if tab.selected_baseframe.is_none() {
        Some(MissingField::Baseframe)
    } else if tab.selected_faceplate.is_none() {
        Some(MissingField::Faceplate)
    } else if tab.selected_goal_feature_id.is_none() {
        Some(MissingField::GoalFeature)
    } else if tab.selected_tcp.is_none() {
        Some(MissingField::Tcp)
    } else {
        None
    }
}

impl RobotTab {
    /// The tab as it opens: robot `r1`, the usual faceplate and baseframe
    /// selected, a linear move at a tenth of full rate, nothing in flight.
    pub fn new() -> (tab: Self)
        ensures
            tab.robot_id_input@ == "r1"@,
            !tab.get_all_transforms_promise.is_pending(),
            !tab.robot_control_promise.is_pending(),
            tab.transform_keys@.len() == 0,
            tab.selected_goal_feature_id is None,
            tab.tcp_keys@.len() == 0,
            tab.selected_tcp is None,
            text_of(tab.selected_faceplate) == Some("tool0"@),
            text_of(tab.selected_baseframe) == Some("base_link"@),
            tab.command_error is None,
            tab.command_type == CommandType::UnsafeMoveL,
            tab.acceleration.bits == ONE_TENTH_BITS,
            tab.velocity.bits == ONE_TENTH_BITS,
            tab.global_acceleration_scaling.bits == ONE_BITS,
            tab.global_velocity_scaling.bits == ONE_BITS,
            !tab.use_blend_radius,
            tab.blend_radius.bits == ZERO_BITS,
            !tab.use_joint_positions,
            !tab.set_manual_joint_positions,
            forall|i: int| 0 <= i < 6 ==> tab.joint_positions@[i].bits == ZERO_BITS,
            !tab.use_preferred_joint_config,
            forall|i: int| 0 <= i < 6 ==> tab.preferred_joint_config@[i].bits == ZERO_BITS,
            !tab.set_manual_joint_config,
            !tab.use_payload,
            !tab.set_manual_payload,
            tab.saved_payload == SavedPayload::NoPayload,
            tab.manual_payload == Payload::zeroed(),
            !tab.use_execution_time,
            tab.execution_time_s.bits == ZERO_BITS,
            tab.force_threshold.bits == TWENTY_BITS,
            !tab.use_relative_pose,
            forall|i: int| 0 <= i < 6 ==> tab.relative_pose@[i].bits == ZERO_BITS,
            tab.well_formed(),
    {
        let zero = Scalar::zero();
        RobotTab {
            robot_id_input: String::from_str("r1"),
            get_all_transforms_promise: PromiseSlot::new(),
            robot_control_promise: PromiseSlot::new(),
            transform_keys: Vec::new(),
            selected_goal_feature_id: None,
            tcp_keys: Vec::new(),
            selected_tcp: None,
            selected_faceplate: Some(String::from_str("tool0")),
            selected_baseframe: Some(String::from_str("base_link")),
            command_error: None,
            command_type: CommandType::UnsafeMoveL,
            acceleration: Scalar::from_bits(ONE_TENTH_BITS),
            velocity: Scalar::from_bits(ONE_TENTH_BITS),
            global_acceleration_scaling: Scalar::from_bits(ONE_BITS),
            global_velocity_scaling: Scalar::from_bits(ONE_BITS),
            use_blend_radius: false,
            blend_radius: zero,
            use_joint_positions: false,
            set_manual_joint_positions: false,
            joint_positions: [zero, zero, zero, zero, zero, zero],
            use_preferred_joint_config: false,
            preferred_joint_config: [zero, zero, zero, zero, zero, zero],
            set_manual_joint_config: false,
            use_payload: false,
            set_manual_payload: false,
            saved_payload: SavedPayload::NoPayload,
            manual_payload: Payload::default(),
            use_execution_time: false,
            execution_time_s: zero,
            force_threshold: Scalar::from_bits(TWENTY_BITS),
            use_relative_pose: false,
            relative_pose: [zero, zero, zero, zero, zero, zero],
        }
    }

    /// The list of transforms is in display order: strictly increasing, so
    /// that no identifier is listed twice.
    pub open spec fn well_formed(self) -> bool {
        strictly_increasing(names(self.transform_keys@))
    }

    /// Whether `self` is `before` after a fetch that brought `fetched`: the
    /// list holds what was brought, each identifier once and in order; a
    /// selection that is still listed stands, one that is not is dropped;
    /// nothing else but the fetch slot differs.
    pub open spec fn lists(self, before: RobotTab, fetched: Seq<Seq<char>>) -> bool {
        &&& strictly_increasing(names(self.transform_keys@))
        &&& names(self.transform_keys@).no_duplicates()
        &&& forall|k: Seq<char>| names(self.transform_keys@).contains(k) <==> fetched.contains(k)
        &&& text_of(self.selected_goal_feature_id) == retained(
            text_of(before.selected_goal_feature_id),
            fetched,
        )
        &&& text_of(self.selected_tcp) == retained(text_of(before.selected_tcp), fetched)
        &&& text_of(self.selected_faceplate) == retained(
            text_of(before.selected_faceplate),
            fetched,
        )
        &&& text_of(self.selected_baseframe) == retained(
            text_of(before.selected_baseframe),
            fetched,
        )
        &&& self == (RobotTab {
            get_all_transforms_promise: self.get_all_transforms_promise,
            transform_keys: self.transform_keys,
            selected_goal_feature_id: self.selected_goal_feature_id,
            selected_tcp: self.selected_tcp,
            selected_faceplate: self.selected_faceplate,
            selected_baseframe: self.selected_baseframe,
            ..before
        })
    }

    /// Whether `self` is `before` after a send has completed with `result`:
    /// a failure is surfaced, a success leaves no trace.
    pub open spec fn sent(self, before: RobotTab, result: SendResult) -> bool {
        &&& match result {
            Ok(_) => self.command_error == before.command_error,
            Err(cause) => self.command_error == Some(CommandError::Backend(cause)),
        }
        &&& self == (RobotTab {
            robot_control_promise: self.robot_control_promise,
            command_error: self.command_error,
            ..before
        })
    }

    /// After a fetch the list is in display order without duplicates. Of the
    /// four selections, one that the fetch did not bring is unselected and
    /// one that it brought is selected as before.
    pub proof fn lemma_fetch_invalidates(self, before: RobotTab, fetched: Seq<Seq<char>>)
        requires
            self.lists(before, fetched),
        ensures
            self.well_formed(),
            names(self.transform_keys@).no_duplicates(),
            before.selected_goal_feature_id matches Some(key) ==> if fetched.contains(key@) {
                text_of(self.selected_goal_feature_id) == Some(key@)
            } else {
                self.selected_goal_feature_id is None
            },
            before.selected_goal_feature_id is None ==> self.selected_goal_feature_id is None,
            before.selected_tcp matches Some(key) ==> if fetched.contains(key@) {
                text_of(self.selected_tcp) == Some(key@)
            } else {
                self.selected_tcp is None
            },
            before.selected_tcp is None ==> self.selected_tcp is None,
            before.selected_faceplate matches Some(key) ==> if fetched.contains(key@) {
                text_of(self.selected_faceplate) == Some(key@)
            } else {
                self.selected_faceplate is None
            },
            before.selected_faceplate is None ==> self.selected_faceplate is None,
            before.selected_baseframe matches Some(key) ==> if fetched.contains(key@) {
                text_of(self.selected_baseframe) == Some(key@)
            } else {
                self.selected_baseframe is None
            },
            before.selected_baseframe is None ==> self.selected_baseframe is None,
    {
    }

    /// Takes in the identifiers that a fetch brought.
    pub fn process_transforms_result(&mut self, result: &Vec<String>)
        ensures
            final(self).lists(*old(self), names(result@)),
            final(self).get_all_transforms_promise == old(self).get_all_transforms_promise,
    {
        self.transform_keys = sorted_keys(result);
        let goal = self.selected_goal_feature_id.take();
        self.selected_goal_feature_id = retain_selection(goal, &self.transform_keys);
        let tcp = self.selected_tcp.take();
        self.selected_tcp = retain_selection(tcp, &self.transform_keys);
        let faceplate = self.selected_faceplate.take();
        self.selected_faceplate = retain_selection(faceplate, &self.transform_keys);
        let baseframe = self.selected_baseframe.take();
        self.selected_baseframe = retain_selection(baseframe, &self.transform_keys);
    }

    /// Checks on the fetch in flight and takes in its result once it is
    /// there. Tells whether the fetch is still in flight.
    pub fn poll_transforms_promise(&mut self) -> (pending: bool)
        ensures
            !old(self).get_all_transforms_promise.is_pending() ==> !pending && *final(self)
                == *old(self),
            old(self).get_all_transforms_promise.is_pending() ==> (pending && *final(self)
                == *old(self)) || (!pending && !final(self).get_all_transforms_promise.is_pending()
                && exists|fetched: Seq<Seq<char>>| final(self).lists(*old(self), fetched)),
    {
        match self.get_all_transforms_promise.poll() {
            PollState::Ready(fetched) => {
                self.process_transforms_result(&fetched);
                assert(self.lists(*old(self), names(fetched@)));
                false
            },
            PollState::Pending => true,
            PollState::Idle => false,
        }
    }

    /// Starts a fetch of the transform list, unless one is in flight.
    pub fn spawn_transforms_promise<F>(&mut self, fetch: F) -> (spawned: bool) where
        F: FnOnce() -> Vec<String> + Send + 'static,

        requires
            fetch.requires(()),
        ensures
            spawned == !old(self).get_all_transforms_promise.is_pending(),
            final(self).get_all_transforms_promise.is_pending(),
            !spawned ==> *final(self) == *old(self),
            *final(self) == (RobotTab {
                get_all_transforms_promise: final(self).get_all_transforms_promise,
                ..*old(self)
            }),
    {
        proof {
            reveal_strlit("fetcher");
            assert(thread_name("fetcher"@));
        }
        self.get_all_transforms_promise.spawn("fetcher", fetch)
    }

    /// Takes in the completion of a send.
    pub fn absorb_send_result(&mut self, result: SendResult)
        ensures
            final(self).sent(*old(self), result),
            final(self).robot_control_promise == old(self).robot_control_promise,
    {
        match result {
            Ok(_) => {},
            Err(cause) => {
                self.command_error = Some(CommandError::Backend(cause));
            },
        }
    }

    /// Checks on the send in flight and surfaces its failure, if it failed.
    /// Tells whether the send is still in flight.
    pub fn poll_robot_control_promise(&mut self) -> (pending: bool)
        ensures
            !old(self).robot_control_promise.is_pending() ==> !pending && *final(self) == *old(
                self,
            ),
            old(self).robot_control_promise.is_pending() ==> (pending && *final(self) == *old(
                self,
            )) || (!pending && !final(self).robot_control_promise.is_pending() && exists|
                result: SendResult,
            |
                final(self).sent(*old(self), result)),
    {
        match self.robot_control_promise.poll() {
            PollState::Ready(result) => {
                self.absorb_send_result(result);
                assert(self.sent(*old(self), result));
                false
            },
            PollState::Pending => true,
            PollState::Idle => false,
        }
    }

    /// Builds the command that the form describes and starts sending it.
    /// Where a required selection is missing, that is surfaced and the send
    /// slot is not touched. Where a send is in flight already, nothing
    /// happens.
    pub fn spawn_robot_control_promise<F>(&mut self, send: F) -> (spawned: bool) where
        F: FnOnce(CommandPatch) -> SendResult + Send + 'static,

        requires
            forall|patch: CommandPatch| send.requires((patch,)),
        ensures
            spawned == (first_missing(*old(self)) is None && !old(
                self,
            ).robot_control_promise.is_pending()),
            match first_missing(*old(self)) {
                Some(missing) => {
                    &&& final(self).command_error == Some(CommandError::Validation(missing))
                    &&& final(self).robot_control_promise == old(self).robot_control_promise
                },
                None => if spawned {
                    &&& final(self).command_error is None
                    &&& final(self).robot_control_promise.is_pending()
                } else {
                    *final(self) == *old(self)
                },
            },
            *final(self) == (RobotTab {
                robot_control_promise: final(self).robot_control_promise,
                command_error: final(self).command_error,
                ..*old(self)
            }),
    {
        match missing_selection(self) {
            Some(missing) => {
                self.command_error = Some(CommandError::Validation(missing));
                false
            },
            None => {
                if self.robot_control_promise.pending() {
                    false
                } else {
                    let patch = build_patch(self);
                    self.command_error = None;
                    let work = move || -> (result: SendResult)
                        requires
                            send.requires((patch,)),
                        { send(patch) };
                    proof {
                        reveal_strlit("robot_control");
                        assert(thread_name("robot_control"@));
                    }
                    self.robot_control_promise.spawn("robot_control", work)
                }
            },
        }
    }
}

/// Builds the patch of a form that lacks no selection: one entry for each
/// field, in the order of the field table.
fn build_patch(tab: &RobotTab) -> (patch: CommandPatch)
    requires
        first_missing(*tab) is None,
    ensures
        patch@ == patch_model(*tab),
{
    let fields = Field::variants();
    let mut entries: Vec<PatchEntry> = Vec::new();
    let mut i: usize = 0;
    while i < fields.len()
        invariant
            i <= fields.len(),
            fields@ == Field::all(),
            entries@.len() == i,
            forall|j: int|
                0 <= j < i ==> (#[trigger] entries@[j])@ == field_entry(*tab, fields@[j]),
        decreases fields.len() - i,
    {
        let field = fields[i];
        let key = key_for(tab.robot_id_input.as_str(), field);
        let value = value_for(tab, field);
        entries.push(PatchEntry { key, value });
        i += 1;
    }
    let patch = CommandPatch { entries };
    assert(patch@ =~= patch_model(*tab));
    patch
}

/// Builds the patch of the command that the form describes. Where a
/// required selection is missing, no patch is built and the reason names the
/// first one missing.
pub fn robot_command_tab_to_state(tab: &RobotTab) -> (built: Result<CommandPatch, String>)
    ensures
        match built {
            Ok(patch) => first_missing(*tab) is None && patch@ == patch_model(*tab),
            Err(reason) => first_missing(*tab) matches Some(missing) && reason@
                == missing.reason(),
        },
{
    match missing_selection(tab) {
        Some(missing) => Err(missing.to_string()),
        None => Ok(build_patch(tab)),
    }
}

} // verus!
