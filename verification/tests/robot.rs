use control_panel::command::{CommandType, SavedPayload};
use control_panel::patch::{CommandPatch, Field, PatchValue};
use control_panel::robot::{
    missing_selection, robot_command_tab_to_state, CommandError, MissingField, Payload, RobotTab,
    SendResult,
};
use control_panel::scalar::Scalar;
use control_panel::slot::PromiseSlot;
use std::sync::mpsc::channel;
use std::time::{Duration, Instant};

fn num(x: f64) -> Scalar {
    Scalar { bits: x.to_bits() }
}

fn strings(items: &[&str]) -> Vec<String> {
    items.iter().map(|s| s.to_string()).collect()
}

fn ready_tab() -> RobotTab {
    let mut tab = RobotTab::new();
    tab.selected_goal_feature_id = Some("goal_a".to_string());
    tab.selected_tcp = Some("suction_cup".to_string());
    tab
}

fn wait_until_done(tab: &mut RobotTab) {
    let started = Instant::now();
    while tab.poll_robot_control_promise() {
        assert!(started.elapsed() < Duration::from_secs(10), "the send never finished");
        std::hint::spin_loop();
    }
}

fn wait_until_fetched(tab: &mut RobotTab) {
    let started = Instant::now();
    while tab.poll_transforms_promise() {
        assert!(started.elapsed() < Duration::from_secs(10), "the fetch never finished");
        std::hint::spin_loop();
    }
}

#[test]
fn payload_defaults_to_zero() {
    let payload = Payload::default();
    let zero = num(0.0);
    assert_eq!(payload.mass, zero);
    assert_eq!(payload.cog_x, zero);
    assert_eq!(payload.cog_y, zero);
    assert_eq!(payload.cog_z, zero);
    assert_eq!(payload.ixx, zero);
    assert_eq!(payload.iyy, zero);
    assert_eq!(payload.izz, zero);
    assert_eq!(payload.ixy, zero);
    assert_eq!(payload.ixz, zero);
    assert_eq!(payload.iyz, zero);
}

#[test]
fn robot_tab_opens_with_its_defaults() {
    let tab = RobotTab::new();
    assert_eq!(tab.robot_id_input, "r1");
    assert!(!tab.get_all_transforms_promise.pending());
    assert!(!tab.robot_control_promise.pending());
    assert!(tab.transform_keys.is_empty());
    assert!(tab.tcp_keys.is_empty());
    assert_eq!(tab.selected_goal_feature_id, None);
    assert_eq!(tab.selected_tcp, None);
    assert_eq!(tab.selected_faceplate, Some("tool0".to_string()));
    assert_eq!(tab.selected_baseframe, Some("base_link".to_string()));
    assert_eq!(tab.command_error, None);
    assert_eq!(tab.command_type, CommandType::UnsafeMoveL);
    assert_eq!(f64::from_bits(tab.acceleration.bits), 0.1);
    assert_eq!(f64::from_bits(tab.velocity.bits), 0.1);
    assert_eq!(f64::from_bits(tab.global_acceleration_scaling.bits), 1.0);
    assert_eq!(f64::from_bits(tab.global_velocity_scaling.bits), 1.0);
    assert!(!tab.use_blend_radius);
    assert_eq!(f64::from_bits(tab.blend_radius.bits), 0.0);
    assert!(!tab.use_joint_positions);
    assert!(!tab.set_manual_joint_positions);
    assert_eq!(tab.joint_positions, [num(0.0); 6]);
    assert!(!tab.use_preferred_joint_config);
    assert_eq!(tab.preferred_joint_config, [num(0.0); 6]);
    assert!(!tab.set_manual_joint_config);
    assert!(!tab.use_payload);
    assert!(!tab.set_manual_payload);
    assert_eq!(tab.saved_payload, SavedPayload::NoPayload);
    assert_eq!(tab.manual_payload, Payload::default());
    assert!(!tab.use_execution_time);
    assert_eq!(f64::from_bits(tab.execution_time_s.bits), 0.0);
    assert_eq!(f64::from_bits(tab.force_threshold.bits), 20.0);
    assert!(!tab.use_relative_pose);
    assert_eq!(tab.relative_pose, [num(0.0); 6]);
}

#[test]
fn new_tab_lacks_the_goal_feature() {
    let tab = RobotTab::new();
    assert_eq!(missing_selection(&tab), Some(MissingField::GoalFeature));
    assert_eq!(robot_command_tab_to_state(&tab), Err("Goal feature not selected".to_string()));
}

#[test]
fn missing_baseframe_is_named() {
    let mut tab = ready_tab();
    tab.selected_baseframe = None;
    assert_eq!(robot_command_tab_to_state(&tab), Err("Baseframe not selected".to_string()));
}

#[test]
fn missing_faceplate_is_named() {
    let mut tab = ready_tab();
    tab.selected_faceplate = None;
    assert_eq!(robot_command_tab_to_state(&tab), Err("Faceplate not selected".to_string()));
}

#[test]
fn missing_goal_feature_is_named() {
    let mut tab = ready_tab();
    tab.selected_goal_feature_id = None;
    assert_eq!(robot_command_tab_to_state(&tab), Err("Goal feature not selected".to_string()));
}

#[test]
fn missing_tcp_is_named() {
    let mut tab = ready_tab();
    tab.selected_tcp = None;
    assert_eq!(robot_command_tab_to_state(&tab), Err("Tcp not selected".to_string()));
}

#[test]
fn first_missing_selection_wins() {
    let mut tab = ready_tab();
    tab.selected_tcp = None;
    tab.selected_faceplate = None;
    assert_eq!(missing_selection(&tab), Some(MissingField::Faceplate));
    tab.selected_baseframe = None;
    assert_eq!(missing_selection(&tab), Some(MissingField::Baseframe));
    tab.selected_baseframe = Some("base".to_string());
    tab.selected_faceplate = Some("tool0".to_string());
    tab.selected_goal_feature_id = None;
    assert_eq!(missing_selection(&tab), Some(MissingField::GoalFeature));
    assert_eq!(robot_command_tab_to_state(&tab), Err("Goal feature not selected".to_string()));
}

#[test]
fn missing_field_reasons() {
    assert_eq!(MissingField::Baseframe.to_string(), "Baseframe not selected");
    assert_eq!(MissingField::Faceplate.to_string(), "Faceplate not selected");
    assert_eq!(MissingField::GoalFeature.to_string(), "Goal feature not selected");
    assert_eq!(MissingField::Tcp.to_string(), "Tcp not selected");
    assert_eq!(MissingField::Tcp.as_str(), "Tcp not selected");
}

#[test]
fn complete_form_builds_the_whole_patch() {
    let mut tab = ready_tab();
    tab.robot_id_input = "r7".to_string();
    tab.command_type = CommandType::SafeMoveJ;
    tab.acceleration = num(0.25);
    tab.velocity = num(0.5);
    tab.use_execution_time = true;
    tab.execution_time_s = num(1500.0);
    tab.use_blend_radius = true;
    tab.blend_radius = num(0.02);
    tab.use_joint_positions = true;
    tab.joint_positions = [num(0.1), num(0.2), num(0.3), num(0.4), num(0.5), num(0.6)];
    tab.use_preferred_joint_config = true;
    tab.preferred_joint_config = [num(-1.0), num(-2.0), num(-3.0), num(1.0), num(2.0), num(3.0)];
    tab.use_payload = true;
    tab.saved_payload = SavedPayload::Photoneo;
    tab.selected_baseframe = Some("base".to_string());
    tab.selected_faceplate = Some("flange".to_string());
    tab.force_threshold = num(35.5);
    tab.use_relative_pose = true;
    tab.relative_pose = [num(0.01), num(0.02), num(0.03), num(1.5), num(2.5), num(3.5)];

    let patch = robot_command_tab_to_state(&tab).unwrap();
    let expected: Vec<(&str, PatchValue)> = vec![
        ("r7_request_trigger", PatchValue::Bool(true)),
        ("r7_command_type", PatchValue::Text("safe_move_j".to_string())),
        ("r7_accelleration", PatchValue::Float(num(0.25))),
        ("r7_velocity", PatchValue::Float(num(0.5))),
        ("r7_use_execution_time", PatchValue::Bool(true)),
        ("r7_execution_time", PatchValue::Float(num(1500.0))),
        ("r7_use_blend_radius", PatchValue::Bool(true)),
        ("r7_blend_radius", PatchValue::Float(num(0.02))),
        ("r7_use_joint_positions", PatchValue::Bool(true)),
        (
            "r7_joint_positions",
            PatchValue::FloatArray(vec![
                num(0.1),
                num(0.2),
                num(0.3),
                num(0.4),
                num(0.5),
                num(0.6),
            ]),
        ),
        ("r7_use_preferred_joint_config", PatchValue::Bool(true)),
        (
            "r7_preferred_joint_config",
            PatchValue::FloatArray(vec![
                num(-1.0),
                num(-2.0),
                num(-3.0),
                num(1.0),
                num(2.0),
                num(3.0),
            ]),
        ),
        ("r7_use_payload", PatchValue::Bool(true)),
        ("r7_payload", PatchValue::Text("photoneo".to_string())),
        ("r7_baseframe_id", PatchValue::Text("base".to_string())),
        ("r7_faceplate_id", PatchValue::Text("flange".to_string())),
        ("r7_goal_feature_id", PatchValue::Text("goal_a".to_string())),
        ("r7_tcp_id", PatchValue::Text("suction_cup".to_string())),
        ("r7_root_frame_id", PatchValue::Text("world".to_string())),
        ("r7_force_threshold", PatchValue::Float(num(35.5))),
        ("r7_use_relative_pose", PatchValue::Bool(true)),
        (
            "r7_relative_pose",
            PatchValue::FloatArray(vec![
                num(0.01),
                num(0.02),
                num(0.03),
                num(1.5),
                num(2.5),
                num(3.5),
            ]),
        ),
    ];
    assert_eq!(patch.len(), expected.len());
    for (entry, (key, value)) in patch.entries.iter().zip(expected.iter()) {
        assert_eq!(entry.key, *key);
        assert_eq!(entry.value, *value);
    }
}

#[test]
fn default_form_with_selections_builds_default_values() {
    let patch = robot_command_tab_to_state(&ready_tab()).unwrap();
    assert_eq!(patch.len(), 22);
    assert_eq!(patch.get("r1_request_trigger"), Some(&PatchValue::Bool(true)));
    assert_eq!(patch.get("r1_command_type"), Some(&PatchValue::Text("unsafe_move_l".to_string())));
    assert_eq!(patch.get("r1_accelleration"), Some(&PatchValue::Float(num(0.1))));
    assert_eq!(patch.get("r1_velocity"), Some(&PatchValue::Float(num(0.1))));
    assert_eq!(patch.get("r1_use_execution_time"), Some(&PatchValue::Bool(false)));
    assert_eq!(patch.get("r1_use_payload"), Some(&PatchValue::Bool(false)));
    assert_eq!(patch.get("r1_payload"), Some(&PatchValue::Text("none".to_string())));
    assert_eq!(patch.get("r1_baseframe_id"), Some(&PatchValue::Text("base_link".to_string())));
    assert_eq!(patch.get("r1_faceplate_id"), Some(&PatchValue::Text("tool0".to_string())));
    assert_eq!(patch.get("r1_root_frame_id"), Some(&PatchValue::Text("world".to_string())));
    assert_eq!(patch.get("r1_force_threshold"), Some(&PatchValue::Float(num(20.0))));
    assert_eq!(patch.get("r1_joint_positions"), Some(&PatchValue::FloatArray(vec![num(0.0); 6])));
    assert_eq!(patch.get("r1_global_velocity_scaling"), None);
}

#[test]
fn patch_has_one_entry_for_each_field() {
    let patch = robot_command_tab_to_state(&ready_tab()).unwrap();
    let fields = Field::variants();
    assert_eq!(patch.len(), fields.len());
    for (entry, field) in patch.entries.iter().zip(fields.iter()) {
        assert_eq!(entry.key, format!("r1_{}", field.as_str()));
    }
    for (i, a) in patch.entries.iter().enumerate() {
        for (j, b) in patch.entries.iter().enumerate() {
            assert_eq!(i == j, a.key == b.key);
        }
    }
}

#[test]
fn arrays_keep_their_declared_order() {
    let mut tab = ready_tab();
    tab.joint_positions = [num(6.0), num(5.0), num(4.0), num(3.0), num(2.0), num(1.0)];
    let patch = robot_command_tab_to_state(&tab).unwrap();
    assert_eq!(
        patch.get("r1_joint_positions"),
        Some(&PatchValue::FloatArray(vec![
            num(6.0),
            num(5.0),
            num(4.0),
            num(3.0),
            num(2.0),
            num(1.0)
        ]))
    );
}

#[test]
fn building_does_not_change_what_it_carries() {
    let mut tab = ready_tab();
    tab.velocity = Scalar { bits: f64::NAN.to_bits() };
    tab.acceleration = num(-0.0);
    let patch = robot_command_tab_to_state(&tab).unwrap();
    assert_eq!(
        patch.get("r1_velocity"),
        Some(&PatchValue::Float(Scalar { bits: f64::NAN.to_bits() }))
    );
    assert_eq!(
        patch.get("r1_accelleration"),
        Some(&PatchValue::Float(Scalar { bits: 1u64 << 63 }))
    );
}

#[test]
fn fetched_list_is_sorted_and_drops_stale_selections() {
    let mut tab = ready_tab();
    tab.process_transforms_result(&strings(&["world", "tool0", "goal_a", "tool0"]));
    assert_eq!(tab.transform_keys, strings(&["goal_a", "tool0", "world"]));
    assert_eq!(tab.selected_goal_feature_id, Some("goal_a".to_string()));
    assert_eq!(tab.selected_faceplate, Some("tool0".to_string()));
    assert_eq!(tab.selected_tcp, None);
    assert_eq!(tab.selected_baseframe, None);
    assert_eq!(tab.robot_id_input, "r1");
    assert_eq!(tab.command_type, CommandType::UnsafeMoveL);
}

#[test]
fn empty_list_drops_every_selection() {
    let mut tab = ready_tab();
    tab.process_transforms_result(&Vec::new());
    assert!(tab.transform_keys.is_empty());
    assert_eq!(tab.selected_goal_feature_id, None);
    assert_eq!(tab.selected_tcp, None);
    assert_eq!(tab.selected_faceplate, None);
    assert_eq!(tab.selected_baseframe, None);
}

#[test]
fn robot_tab_fetch_goes_through_the_slot() {
    let mut tab = ready_tab();
    assert!(!tab.poll_transforms_promise());
    assert!(tab.spawn_transforms_promise(|| {
        vec!["tool0".to_string(), "base_link".to_string(), "suction_cup".to_string()]
    }));
    wait_until_fetched(&mut tab);
    assert_eq!(tab.transform_keys, strings(&["base_link", "suction_cup", "tool0"]));
    assert_eq!(tab.selected_goal_feature_id, None);
    assert_eq!(tab.selected_tcp, Some("suction_cup".to_string()));
    assert!(!tab.get_all_transforms_promise.pending());
}

#[test]
fn robot_tab_rejects_a_second_fetch() {
    let (release, gate) = channel::<Vec<String>>();
    let mut tab = RobotTab::new();
    assert!(tab.spawn_transforms_promise(move || gate.recv().unwrap()));
    assert!(!tab.spawn_transforms_promise(|| vec!["intruder".to_string()]));
    assert!(tab.poll_transforms_promise());
    release.send(strings(&["tool0"])).unwrap();
    wait_until_fetched(&mut tab);
    assert_eq!(tab.transform_keys, strings(&["tool0"]));
}

#[test]
fn invalid_form_never_touches_the_send_slot() {
    let (seen, calls) = channel::<usize>();
    let mut tab = RobotTab::new();
    let spawned = tab.spawn_robot_control_promise(move |patch: CommandPatch| {
        seen.send(patch.len()).unwrap();
        Ok(())
    });
    assert!(!spawned);
    assert!(!tab.robot_control_promise.pending());
    assert_eq!(tab.command_error, Some(CommandError::Validation(MissingField::GoalFeature)));
    assert_eq!(tab.command_error.as_ref().unwrap().to_string(), "Goal feature not selected");
    assert!(!tab.poll_robot_control_promise());
    assert!(calls.try_recv().is_err());
}

#[test]
fn valid_form_sends_the_patch_once() {
    let (seen, calls) = channel::<CommandPatch>();
    let mut tab = ready_tab();
    tab.command_error = Some(CommandError::Backend("stale".to_string()));
    let spawned = tab.spawn_robot_control_promise(move |patch: CommandPatch| {
        seen.send(patch).unwrap();
        Ok(())
    });
    assert!(spawned);
    assert_eq!(tab.command_error, None);
    wait_until_done(&mut tab);
    assert!(!tab.robot_control_promise.pending());
    assert_eq!(tab.command_error, None);
    let sent = calls.recv().unwrap();
    assert_eq!(sent, robot_command_tab_to_state(&tab).unwrap());
    assert!(calls.try_recv().is_err());
}

#[test]
fn backend_failure_of_a_send_is_surfaced() {
    let mut tab = ready_tab();
    assert!(tab.spawn_robot_control_promise(|_: CommandPatch| {
        Err("backend unreachable".to_string())
    }));
    wait_until_done(&mut tab);
    assert_eq!(tab.command_error, Some(CommandError::Backend("backend unreachable".to_string())));
    assert_eq!(tab.command_error.as_ref().unwrap().to_string(), "backend unreachable");
    assert!(!tab.robot_control_promise.pending());
}

#[test]
fn send_while_sending_is_rejected() {
    let (release, gate) = channel::<SendResult>();
    let (seen, calls) = channel::<usize>();
    let mut tab = ready_tab();
    assert!(tab.spawn_robot_control_promise(move |_: CommandPatch| gate.recv().unwrap()));
    let second = tab.spawn_robot_control_promise(move |patch: CommandPatch| {
        seen.send(patch.len()).unwrap();
        Ok(())
    });
    assert!(!second);
    assert!(tab.poll_robot_control_promise());
    release.send(Ok(())).unwrap();
    wait_until_done(&mut tab);
    assert!(calls.try_recv().is_err());
    assert_eq!(tab.command_error, None);
}

#[test]
fn absorbing_a_send_result_keeps_or_sets_the_error() {
    let mut tab = ready_tab();
    tab.absorb_send_result(Ok(()));
    assert_eq!(tab.command_error, None);
    tab.absorb_send_result(Err("no route".to_string()));
    assert_eq!(tab.command_error, Some(CommandError::Backend("no route".to_string())));
    tab.absorb_send_result(Ok(()));
    assert_eq!(tab.command_error, Some(CommandError::Backend("no route".to_string())));
}

#[test]
fn send_slot_of_a_new_tab_is_empty() {
    let slot: PromiseSlot<SendResult> = RobotTab::new().robot_control_promise;
    assert!(!slot.pending());
}

#[test]
fn validation_and_backend_errors_differ() {
    let validation = CommandError::Validation(MissingField::Tcp);
    let backend = CommandError::Backend("Tcp not selected".to_string());
    assert_ne!(validation, backend);
    assert_eq!(validation.to_string(), "Tcp not selected");
    assert_eq!(backend.to_string(), "Tcp not selected");
}

#[test]
fn validation_failure_replaces_an_older_error() {
    let mut tab = RobotTab::new();
    tab.command_error = Some(CommandError::Backend("old".to_string()));
    tab.selected_baseframe = None;
    assert!(!tab.spawn_robot_control_promise(|_: CommandPatch| Ok(())));
    assert_eq!(tab.command_error, Some(CommandError::Validation(MissingField::Baseframe)));
}
