//! What a lookup reads from the backend and how the three reads are joined
//! into one result.

use crate::scalar::{Scalar, ZERO_BITS};
use crate::text::joined;
use vstd::prelude::*;
use vstd::string::*;

verus! {

/// A displacement in metres.
#[derive(Clone, Copy, Debug, PartialEq, Eq, Structural)]
pub struct Translation {
    pub x: Scalar,
    pub y: Scalar,
    pub z: Scalar,
}

/// A rotation as a quaternion.
#[derive(Clone, Copy, Debug, PartialEq, Eq, Structural)]
pub struct Rotation {
    pub x: Scalar,
    pub y: Scalar,
    pub z: Scalar,
    pub w: Scalar,
}

/// A spatial relation: a displacement and a rotation.
#[derive(Clone, Copy, Debug, PartialEq, Eq, Structural)]
pub struct Transform {
    pub translation: Translation,
    pub rotation: Rotation,
}

/// The relation of a child frame to its parent as the backend reported it.
#[derive(Debug, PartialEq, Eq)]
pub struct TransformRecord {
    pub parent_frame: String,
    pub child_frame: String,
    pub transform: Transform,
    /// When the backend recorded the relation, in nanoseconds since the Unix
    /// epoch.
    pub timestamp: u64,
}

/// The joined result of one lookup: the transform, the joint positions of
/// the robot and the position of the auxiliary axis.
#[derive(Debug, PartialEq, Eq)]
pub struct TelemetrySnapshot {
    pub transform: TransformRecord,
    pub joint_positions: Vec<Scalar>,
    pub auxiliary_position: Scalar,
}

/// What a lookup ends in: a snapshot, or the words of the failure.
pub type LookupResult = Result<TelemetrySnapshot, String>;

/// A value read from the backend state, as far as a lookup looks into it.
#[derive(Debug, PartialEq, Eq)]
pub enum BackendValue {
    /// A known number.
    Float(Scalar),
    /// A known array.
    Array(Vec<BackendValue>),
    /// Anything else: a value of another kind, or one that the backend
    /// holds as unknown.
    Other,
}

/// The number that a value stands for: itself if it is a known number, zero
/// if not.
pub open spec fn number_or_zero(value: BackendValue) -> Scalar {
    match value {
        BackendValue::Float(x) => x,
        _ => Scalar { bits: ZERO_BITS },
    }
}

/// The joint positions that a read of the joint states stands for: one
/// number for each element of a known array, and none where the read
/// failed or brought something else.
pub open spec fn joint_positions_of(reading: Option<BackendValue>) -> Seq<Scalar> {
    match reading {
        Some(BackendValue::Array(items)) => Seq::new(
            items@.len(),
            |i: int| number_or_zero(items@[i]),
        ),
        _ => Seq::empty(),
    }
}

/// The position that a read of the auxiliary axis stands for: zero where
/// the read failed or brought no known number.
pub open spec fn position_of(reading: Option<BackendValue>) -> Scalar {
    match reading {
        Some(value) => number_or_zero(value),
        None => Scalar { bits: ZERO_BITS },
    }
}

/// The backend key under which the auxiliary axis reports its position.
pub fn position_key() -> (key: &'static str)
    ensures
        key@ == "opc_current_position"@,
{
    "opc_current_position"
}

/// The backend key under which a robot reports its joint states.
pub fn joint_states_key(robot_id: &str) -> (key: String)
    ensures
        key@ == robot_id@ + "_joint_states"@,
{
    joined(robot_id, "_joint_states")
}

fn number_of(value: &BackendValue) -> (x: Scalar)
    ensures
        x == number_or_zero(*value),
{
    match value {
        BackendValue::Float(x) => *x,
        _ => Scalar::zero(),
    }
}

/// Reads the position of the auxiliary axis out of what the backend gave.
pub fn get_opc_current_position(reading: &Option<BackendValue>) -> (position: Scalar)
    ensures
        position == position_of(*reading),
{
    match reading {
        Some(value) => number_of(value),
        None => Scalar::zero(),
    }
}

/// Reads the joint positions out of what the backend gave.
pub fn get_joint_states(reading: &Option<BackendValue>) -> (positions: Vec<Scalar>)
    ensures
        positions@ == joint_positions_of(*reading),
{
    match reading {
        Some(BackendValue::Array(items)) => {
            let mut positions: Vec<Scalar> = Vec::new();
            let mut i: usize = 0;
            while i < items.len()
                invariant
                    i <= items.len(),
                    positions@.len() == i,
                    forall|j: int| 0 <= j < i ==> positions@[j] == number_or_zero(items@[j]),
                decreases items.len() - i,
            {
                positions.push(number_of(&items[i]));
                i += 1;
            }
            assert(positions@ =~= joint_positions_of(*reading));
            positions
        },
        _ => {
            let positions: Vec<Scalar> = Vec::new();
            assert(positions@ =~= joint_positions_of(*reading));
            positions
        },
    }
}

/// The words in which a failed transform lookup is reported.
pub open spec fn lookup_failure(cause: Seq<char>) -> Seq<char> {
    "GUI Failed to lookup transform with: "@ + cause
}

/// Passes a transform on and puts a failure into words.
pub fn lookup_transform(outcome: Result<TransformRecord, String>) -> (reported: Result<
    TransformRecord,
    String,
>)
    ensures
        match outcome {
            Ok(record) => reported == Ok::<TransformRecord, String>(record),
            Err(cause) => reported matches Err(words) && words@ == lookup_failure(cause@),
        },
{
    match outcome {
        Ok(record) => Ok(record),
        Err(cause) => Err(joined("GUI Failed to lookup transform with: ", cause.as_str())),
    }
}

/// Joins the three reads of a lookup. The transform decides: without it the
/// lookup fails with the transform's failure, whatever the other two reads
/// brought. The joint states and the position are taken as far as they
/// came: a read that failed or brought something else counts as no joints,
/// or as position zero.
pub fn get_lookup_data(
    transform: Result<TransformRecord, String>,
    joint_states: Option<BackendValue>,
    position: Option<BackendValue>,
) -> (outcome: LookupResult)
    ensures
        match transform {
            Ok(record) => {
                &&& outcome matches Ok(snapshot)
                &&& snapshot.transform == record
                &&& snapshot.joint_positions@ == joint_positions_of(joint_states)
                &&& snapshot.auxiliary_position == position_of(position)
            },
            Err(cause) => outcome == Err::<TelemetrySnapshot, String>(cause),
        },
{
    match transform {
        Ok(record) => Ok(
            TelemetrySnapshot {
                transform: record,
                joint_positions: get_joint_states(&joint_states),
                auxiliary_position: get_opc_current_position(&position),
            },
        ),
        Err(cause) => Err(cause),
    }
}

} // verus!
