//! The document under which a lookup result is shown and saved.

use crate::json::{
    bool_member, is_bool_member, is_number_member, is_numbers_object, is_text_member, members_of,
    number_member, object_member, text_member, JsonMember, JsonValue,
};
use crate::scalar::Scalar;
use crate::telemetry::{Rotation, TelemetrySnapshot, Transform, Translation};
use crate::text::{decimal, decimal_digits, joined, lemma_decimal_injective};
use vstd::prelude::*;
use vstd::string::*;

verus! {

/// The name under which the document lists the joint at position `i`.
pub open spec fn joint_name(i: nat) -> Seq<char> {
    "j"@ + decimal_digits(i)
}

/// One joint of the preferred joint configuration: its name and its value.
#[derive(Debug, PartialEq, Eq)]
pub struct JointEntry {
    pub name: String,
    pub value: Scalar,
}

impl View for JointEntry {
    type V = (Seq<char>, Scalar);

    open spec fn view(&self) -> (Seq<char>, Scalar) {
        (self.name@, self.value)
    }
}

/// The joints of a configuration as plain data.
pub open spec fn joint_entries(joints: Seq<JointEntry>) -> Seq<(Seq<char>, Scalar)> {
    Seq::new(joints.len(), |i: int| joints[i]@)
}

/// The configuration that lists `joints` in their order, each under the
/// name of its position.
pub open spec fn joint_map(joints: Seq<Scalar>) -> Seq<(Seq<char>, Scalar)> {
    Seq::new(joints.len(), |i: int| (joint_name(i as nat), joints[i]))
}

/// No two positions share a joint name.
pub proof fn lemma_joint_names_distinct(i: nat, j: nat)
    requires
        i != j,
    ensures
        joint_name(i) != joint_name(j),
{
    let prefix = "j"@;
    if joint_name(i) == joint_name(j) {
        assert(joint_name(i).subrange(prefix.len() as int, joint_name(i).len() as int)
            =~= decimal_digits(i));
        assert(joint_name(j).subrange(prefix.len() as int, joint_name(j).len() as int)
            =~= decimal_digits(j));
        lemma_decimal_injective(i, j);
    }
}

/// Names the joints of a configuration: `j0`, `j1` and so on, in the order
/// of the values.
pub fn vec_to_joint_map(joints: &Vec<Scalar>) -> (map: Vec<JointEntry>)
    ensures
        joint_entries(map@) == joint_map(joints@),
{
    let mut map: Vec<JointEntry> = Vec::new();
    let mut i: usize = 0;
    while i < joints.len()
        invariant
            i <= joints.len(),
            map@.len() == i,
            forall|k: int|
                0 <= k < i ==> (#[trigger] map@[k])@ == (joint_name(k as nat), joints@[k]),
        decreases joints.len() - i,
    {
        let mut name = String::from_str("j");
        let digits = decimal(i);
        name.append(digits.as_str());
        map.push(JointEntry { name, value: joints[i] });
        i += 1;
    }
    assert(joint_entries(map@) =~= joint_map(joints@));
    map
}

/// What the document says of the lookup beside the transform.
#[derive(Debug, PartialEq, Eq)]
pub struct Metadata {
    pub tcp_id: String,
    pub preferred_joint_configuration: Vec<JointEntry>,
    pub enable_transform: bool,
    pub active_transform: bool,
    pub gantry: Scalar,
}

/// The metadata as plain data.
pub struct MetadataView {
    pub tcp_id: Seq<char>,
    pub preferred_joint_configuration: Seq<(Seq<char>, Scalar)>,
    pub enable_transform: bool,
    pub active_transform: bool,
    pub gantry: Scalar,
}

impl View for Metadata {
    type V = MetadataView;

    open spec fn view(&self) -> MetadataView {
        MetadataView {
            tcp_id: self.tcp_id@,
            preferred_joint_configuration: joint_entries(self.preferred_joint_configuration@),
            enable_transform: self.enable_transform,
            active_transform: self.active_transform,
            gantry: self.gantry,
        }
    }
}

/// The document of one lookup result.
#[derive(Debug, PartialEq, Eq)]
pub struct ExportDocument {
    pub child_frame_id: String,
    pub parent_frame_id: String,
    pub transform: Transform,
    pub metadata: Metadata,
}

/// The document as plain data.
pub struct ExportDocumentView {
    pub child_frame_id: Seq<char>,
    pub parent_frame_id: Seq<char>,
    pub transform: Transform,
    pub metadata: MetadataView,
}

impl View for ExportDocument {
    type V = ExportDocumentView;

    open spec fn view(&self) -> ExportDocumentView {
        ExportDocumentView {
            child_frame_id: self.child_frame_id@,
            parent_frame_id: self.parent_frame_id@,
            transform: self.transform,
            metadata: self.metadata@,
        }
    }
}

/// The document of a lookup from `parent` to `child` that brought
/// `snapshot`: the two frames that the lookup was made for, the transform
/// as the backend gave it, the child frame as tool centre point, the joints
/// as preferred configuration, the transform enabled and not active, the
/// auxiliary position as gantry.
pub open spec fn document_model(
    parent: Seq<char>,
    child: Seq<char>,
    snapshot: TelemetrySnapshot,
) -> ExportDocumentView {
    ExportDocumentView {
        child_frame_id: child,
        parent_frame_id: parent,
        transform: snapshot.transform.transform,
        metadata: MetadataView {
            tcp_id: child,
            preferred_joint_configuration: joint_map(snapshot.joint_positions@),
            enable_transform: true,
            active_transform: false,
            gantry: snapshot.auxiliary_position,
        },
    }
}

/// Builds the document of a lookup from `parent` to `child` that brought
/// `snapshot`.
pub fn export_document(parent: &str, child: &str, snapshot: &TelemetrySnapshot) -> (document:
    ExportDocument)
    ensures
        document@ == document_model(parent@, child@, *snapshot),
{
    ExportDocument {
        child_frame_id: String::from_str(child),
        parent_frame_id: String::from_str(parent),
        transform: snapshot.transform.transform,
        metadata: Metadata {
            tcp_id: String::from_str(child),
            preferred_joint_configuration: vec_to_joint_map(&snapshot.joint_positions),
            enable_transform: true,
            active_transform: false,
            gantry: snapshot.auxiliary_position,
        },
    }
}

/// The components of a displacement under their names, in writing order.
pub open spec fn translation_entries(translation: Translation) -> Seq<(Seq<char>, Scalar)> {
    seq![("x"@, translation.x), ("y"@, translation.y), ("z"@, translation.z)]
}

/// The components of a quaternion under their names, in writing order.
pub open spec fn rotation_entries(rotation: Rotation) -> Seq<(Seq<char>, Scalar)> {
    seq![("x"@, rotation.x), ("y"@, rotation.y), ("z"@, rotation.z), ("w"@, rotation.w)]
}

/// The node lays a transform out: the translation, then the rotation, each
/// an object of its components.
pub open spec fn is_transform_tree(value: JsonValue, transform: Transform) -> bool {
    let members = members_of(value);
    &&& value is Object
    &&& members.len() == 2
    &&& members[0].name@ == "translation"@
    &&& is_numbers_object(members[0].value, translation_entries(transform.translation))
    &&& members[1].name@ == "rotation"@
    &&& is_numbers_object(members[1].value, rotation_entries(transform.rotation))
}

/// The node lays the metadata out: the tool centre point, the preferred
/// joint configuration as an object of its joints in array order, the two
/// flags and the gantry position.
pub open spec fn is_metadata_tree(value: JsonValue, metadata: MetadataView) -> bool {
    let members = members_of(value);
    &&& value is Object
    &&& members.len() == 5
    &&& is_text_member(members[0], "tcp_id"@, metadata.tcp_id)
    &&& members[1].name@ == "preferred_joint_configuration"@
    &&& is_numbers_object(members[1].value, metadata.preferred_joint_configuration)
    &&& is_bool_member(members[2], "enable_transform"@, metadata.enable_transform)
    &&& is_bool_member(members[3], "active_transform"@, metadata.active_transform)
    &&& is_number_member(members[4], "gantry"@, metadata.gantry)
}

/// The node lays a document out in its fixed shape: the child frame, the
/// parent frame, the transform and the metadata, in this order.
pub open spec fn is_document_tree(value: JsonValue, document: ExportDocumentView) -> bool {
    let members = members_of(value);
    &&& value is Object
    &&& members.len() == 4
    &&& is_text_member(members[0], "child_frame_id"@, document.child_frame_id)
    &&& is_text_member(members[1], "parent_frame_id"@, document.parent_frame_id)
    &&& members[2].name@ == "transform"@
    &&& is_transform_tree(members[2].value, document.transform)
    &&& members[3].name@ == "metadata"@
    &&& is_metadata_tree(members[3].value, document.metadata)
}

fn translation_tree(translation: &Translation) -> (tree: Vec<JsonMember>)
    ensures
        is_numbers_object(JsonValue::Object(tree), translation_entries(*translation)),
{
    let mut tree: Vec<JsonMember> = Vec::new();
    tree.push(number_member("x", translation.x));
    tree.push(number_member("y", translation.y));
    tree.push(number_member("z", translation.z));
    tree
}

fn rotation_tree(rotation: &Rotation) -> (tree: Vec<JsonMember>)
    ensures
        is_numbers_object(JsonValue::Object(tree), rotation_entries(*rotation)),
{
    let mut tree: Vec<JsonMember> = Vec::new();
    tree.push(number_member("x", rotation.x));
    tree.push(number_member("y", rotation.y));
    tree.push(number_member("z", rotation.z));
    tree.push(number_member("w", rotation.w));
    tree
}

fn joints_tree(joints: &Vec<JointEntry>) -> (tree: Vec<JsonMember>)
    ensures
        is_numbers_object(JsonValue::Object(tree), joint_entries(joints@)),
{
    let mut tree: Vec<JsonMember> = Vec::new();
    let mut i: usize = 0;
    while i < joints.len()
        invariant
            i <= joints.len(),
            tree@.len() == i,
            forall|k: int|
                0 <= k < i ==> is_number_member(
                    #[trigger] tree@[k],
                    joints@[k].name@,
                    joints@[k].value,
                ),
        decreases joints.len() - i,
    {
        tree.push(number_member(joints[i].name.as_str(), joints[i].value));
        i += 1;
    }
    tree
}

/// Lays a transform out as a tree.
pub fn transform_tree(transform: &Transform) -> (tree: JsonValue)
    ensures
        is_transform_tree(tree, *transform),
{
    let mut members: Vec<JsonMember> = Vec::new();
    members.push(object_member("translation", translation_tree(&transform.translation)));
    members.push(object_member("rotation", rotation_tree(&transform.rotation)));
    JsonValue::Object(members)
}

/// Lays the metadata of a document out as a tree.
pub fn metadata_tree(metadata: &Metadata) -> (tree: JsonValue)
    ensures
        is_metadata_tree(tree, metadata@),
{
    let mut members: Vec<JsonMember> = Vec::new();
    members.push(text_member("tcp_id", metadata.tcp_id.as_str()));
    members.push(
        object_member(
            "preferred_joint_configuration",
            joints_tree(&metadata.preferred_joint_configuration),
        ),
    );
    members.push(bool_member("enable_transform", metadata.enable_transform));
    members.push(bool_member("active_transform", metadata.active_transform));
    members.push(number_member("gantry", metadata.gantry));
    JsonValue::Object(members)
}

/// Lays a document out as the tree that is written out as JSON.
pub fn document_tree(document: &ExportDocument) -> (tree: JsonValue)
    ensures
        is_document_tree(tree, document@),
{
    let mut members: Vec<JsonMember> = Vec::new();
    members.push(text_member("child_frame_id", document.child_frame_id.as_str()));
    members.push(text_member("parent_frame_id", document.parent_frame_id.as_str()));
    let transform = transform_tree(&document.transform);
    members.push(JsonMember { name: String::from_str("transform"), value: transform });
    let metadata = metadata_tree(&document.metadata);
    members.push(JsonMember { name: String::from_str("metadata"), value: metadata });
    JsonValue::Object(members)
}

/// The file name proposed for saving a document.
pub open spec fn file_name_model(document: ExportDocumentView) -> Seq<char> {
    document.parent_frame_id + "_to_"@ + document.child_frame_id + ".json"@
}

/// Proposes a file name for saving a document: the parent frame, `_to_`,
/// the child frame and the extension.
pub fn export_file_name(document: &ExportDocument) -> (name: String)
    ensures
        name@ == file_name_model(document@),
{
    let mut name = joined(document.parent_frame_id.as_str(), "_to_");
    name.append(document.child_frame_id.as_str());
    name.append(".json");
    name
}

} // verus!
