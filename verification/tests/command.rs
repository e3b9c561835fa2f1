use control_panel::command::{CommandType, SavedPayload};
use control_panel::patch::{key_for, CommandPatch, Field, PatchEntry, PatchValue};
use control_panel::scalar::Scalar;

#[test]
fn command_types_have_their_wire_names() {
    assert_eq!(CommandType::UnsafeMoveL.to_string(), "unsafe_move_l");
    assert_eq!(CommandType::UnsafeMoveJ.to_string(), "unsafe_move_j");
    assert_eq!(CommandType::SafeMoveL.to_string(), "safe_move_l");
    assert_eq!(CommandType::SafeMoveJ.to_string(), "safe_move_j");
    assert_eq!(CommandType::PickVacuum.to_string(), "pick_vacuum");
    assert_eq!(CommandType::PlaceVacuum.to_string(), "place_vacuum");
}

#[test]
fn command_type_as_str_agrees_with_to_string() {
    for kind in CommandType::variants() {
        assert_eq!(kind.as_str(), kind.to_string());
    }
}

#[test]
fn command_types_are_offered_in_order() {
    assert_eq!(
        CommandType::variants(),
        vec![
            CommandType::UnsafeMoveL,
            CommandType::UnsafeMoveJ,
            CommandType::SafeMoveL,
            CommandType::SafeMoveJ,
            CommandType::PickVacuum,
            CommandType::PlaceVacuum,
        ]
    );
}

#[test]
fn command_type_names_are_distinct() {
    let kinds = CommandType::variants();
    for a in kinds.iter() {
        for b in kinds.iter() {
            assert_eq!(a == b, a.as_str() == b.as_str());
        }
    }
}

#[test]
fn joint_moves_have_angular_rates() {
    assert_eq!(CommandType::UnsafeMoveL.rate_suffix(), " m/s²");
    assert_eq!(CommandType::UnsafeMoveJ.rate_suffix(), " rad/s²");
    assert_eq!(CommandType::SafeMoveL.rate_suffix(), " m/s²");
    assert_eq!(CommandType::SafeMoveJ.rate_suffix(), " rad/s²");
    assert_eq!(CommandType::PickVacuum.rate_suffix(), " m/s²");
    assert_eq!(CommandType::PlaceVacuum.rate_suffix(), " m/s²");
}

#[test]
fn saved_payloads_have_their_wire_names() {
    assert_eq!(SavedPayload::Gripper.to_string(), "gripper");
    assert_eq!(SavedPayload::Svt.to_string(), "svt");
    assert_eq!(SavedPayload::Bvt.to_string(), "bvt");
    assert_eq!(SavedPayload::Photoneo.to_string(), "photoneo");
    assert_eq!(SavedPayload::Sponge.to_string(), "sponge");
    assert_eq!(SavedPayload::NoPayload.to_string(), "none");
}

#[test]
fn saved_payloads_are_offered_with_none_first() {
    assert_eq!(
        SavedPayload::variants(),
        vec![
            SavedPayload::NoPayload,
            SavedPayload::Gripper,
            SavedPayload::Svt,
            SavedPayload::Bvt,
            SavedPayload::Photoneo,
            SavedPayload::Sponge,
        ]
    );
}

#[test]
fn saved_payload_names_are_distinct() {
    let payloads = SavedPayload::variants();
    for a in payloads.iter() {
        for b in payloads.iter() {
            assert_eq!(a == b, a.as_str() == b.as_str());
        }
    }
}

#[test]
fn fields_are_listed_in_patch_order() {
    let names: Vec<&str> = Field::variants().iter().map(|f| f.as_str()).collect();
    assert_eq!(
        names,
        vec![
            "request_trigger",
            "command_type",
            "accelleration",
            "velocity",
            "use_execution_time",
            "execution_time",
            "use_blend_radius",
            "blend_radius",
            "use_joint_positions",
            "joint_positions",
            "use_preferred_joint_config",
            "preferred_joint_config",
            "use_payload",
            "payload",
            "baseframe_id",
            "faceplate_id",
            "goal_feature_id",
            "tcp_id",
            "root_frame_id",
            "force_threshold",
            "use_relative_pose",
            "relative_pose",
        ]
    );
}

#[test]
fn field_names_are_distinct() {
    let fields = Field::variants();
    assert_eq!(fields.len(), 22);
    for (i, a) in fields.iter().enumerate() {
        for (j, b) in fields.iter().enumerate() {
            assert_eq!(i == j, a.as_str() == b.as_str());
            assert_eq!(i == j, a == b);
        }
    }
}

#[test]
fn keys_carry_the_robot_before_the_field() {
    assert_eq!(key_for("r1", Field::Velocity), "r1_velocity");
    assert_eq!(key_for("r1", Field::Acceleration), "r1_accelleration");
    assert_eq!(key_for("robot_2", Field::TcpId), "robot_2_tcp_id");
    assert_eq!(key_for("", Field::Payload), "_payload");
}

fn sample_patch() -> CommandPatch {
    CommandPatch {
        entries: vec![
            PatchEntry { key: "a".to_string(), value: PatchValue::Bool(true) },
            PatchEntry { key: "b".to_string(), value: PatchValue::Float(Scalar { bits: 7 }) },
            PatchEntry { key: "a".to_string(), value: PatchValue::Text("later".to_string()) },
        ],
    }
}

#[test]
fn patch_reports_its_length() {
    assert_eq!(sample_patch().len(), 3);
    assert_eq!(CommandPatch { entries: Vec::new() }.len(), 0);
}

#[test]
fn patch_get_finds_the_first_entry_under_a_key() {
    let patch = sample_patch();
    assert_eq!(patch.get("a"), Some(&PatchValue::Bool(true)));
    assert_eq!(patch.get("b"), Some(&PatchValue::Float(Scalar { bits: 7 })));
}

#[test]
fn patch_get_finds_nothing_under_an_unknown_key() {
    let patch = sample_patch();
    assert_eq!(patch.get("c"), None);
    assert_eq!(patch.get(""), None);
    assert_eq!(CommandPatch { entries: Vec::new() }.get("a"), None);
}
