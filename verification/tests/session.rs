use solai_coder::session::border_layout;
use solai_coder::session::card_inner_width;
use solai_coder::session::directory_label;
use solai_coder::session::has_yolo_permissions;
use solai_coder::session::metadata_label;
use solai_coder::session::metadata_value_width;
use solai_coder::session::new_session_info;
use solai_coder::session::padded_emoji;
use solai_coder::session::uses_large_logo;
use solai_coder::session::AskForApproval;
use solai_coder::session::ManagedFileSystemPermissions;
use solai_coder::session::NetworkSandboxPolicy;
use solai_coder::session::PermissionProfile;
use solai_coder::session::SessionHeaderHistoryCell;
use solai_coder::session::SessionInfoPart;
use solai_coder::session::SessionStart;
use solai_coder::session::SESSION_HEADER_MAX_INNER_WIDTH;

#[test]
fn card_inner_width_is_capped_and_needs_room_for_borders() {
    assert_eq!(card_inner_width(3, SESSION_HEADER_MAX_INNER_WIDTH), None);
    assert_eq!(card_inner_width(4, SESSION_HEADER_MAX_INNER_WIDTH), Some(0));
    assert_eq!(card_inner_width(40, SESSION_HEADER_MAX_INNER_WIDTH), Some(36));
    assert_eq!(card_inner_width(200, SESSION_HEADER_MAX_INNER_WIDTH), Some(56));
}

#[test]
fn border_layout_pads_every_line_to_the_widest() {
    let lines = vec![vec![3, 4], vec![10], vec![]];
    let layout = border_layout(&lines, None);
    assert_eq!(layout.content_width, 10);
    assert_eq!(layout.rule_width, 12);
    assert_eq!(layout.paddings, vec![3, 0, 10]);
    assert_eq!(layout.bottom_style_index, 4);
}

#[test]
fn border_layout_honours_a_wider_forced_width() {
    let lines = vec![vec![5]];
    let layout = border_layout(&lines, Some(20));
    assert_eq!(layout.content_width, 20);
    assert_eq!(layout.paddings, vec![15]);
    let narrow = border_layout(&lines, Some(2));
    assert_eq!(narrow.content_width, 5);
    let empty = border_layout(&Vec::new(), None);
    assert_eq!(empty.content_width, 0);
    assert_eq!(empty.rule_width, 2);
    assert_eq!(empty.bottom_style_index, 1);
}

#[test]
fn padded_emoji_appends_hair_space() {
    assert_eq!(padded_emoji("🧪"), "🧪\u{200A}");
}

#[test]
fn yolo_needs_no_approvals_and_no_sandbox() {
    assert!(has_yolo_permissions(AskForApproval::Never, &PermissionProfile::Disabled));
    assert!(has_yolo_permissions(
        AskForApproval::Never,
        &PermissionProfile::Managed {
            file_system: ManagedFileSystemPermissions::Unrestricted,
            network: NetworkSandboxPolicy::Enabled,
        }
    ));
    assert!(!has_yolo_permissions(
        AskForApproval::Never,
        &PermissionProfile::Managed {
            file_system: ManagedFileSystemPermissions::Unrestricted,
            network: NetworkSandboxPolicy::Restricted,
        }
    ));
    assert!(!has_yolo_permissions(AskForApproval::OnRequest, &PermissionProfile::Disabled));
}

#[test]
fn header_lines_show_model_effort_and_yolo() {
    let cell = SessionHeaderHistoryCell::new(
        "qwen3-coder:30b".to_string(),
        Some("high".to_string()),
        true,
        "~/work".to_string(),
        "1.2.3".to_string(),
    );
    assert_eq!(cell.model_value(), "qwen3-coder:30b high fast");
    assert_eq!(
        cell.raw_lines(),
        vec![
            "Solai Coder (v1.2.3)".to_string(),
            "model: qwen3-coder:30b high fast".to_string(),
            "directory: ~/work".to_string(),
        ]
    );
    let yolo = cell.with_yolo_mode(true);
    assert_eq!(yolo.raw_lines().len(), 4);
    assert_eq!(yolo.raw_lines()[3], "permissions: YOLO mode");
}

#[test]
fn directory_label_is_home_relative() {
    assert_eq!(directory_label(Some(""), "/home/me", '/'), "~");
    assert_eq!(directory_label(Some("src/app"), "/home/me/src/app", '/'), "~/src/app");
    assert_eq!(directory_label(None, "/opt/project", '/'), "/opt/project");
}

#[test]
fn metadata_label_is_padded_to_ten_columns() {
    assert_eq!(metadata_label("model:"), "  model:     ");
    assert_eq!(metadata_label("directory:"), "  directory: ");
    assert_eq!(metadata_label("permissions:"), "  permissions: ");
    assert_eq!(metadata_value_width(56, 13), 43);
    assert_eq!(metadata_value_width(5, 13), 0);
}

#[test]
fn large_logo_needs_room() {
    assert!(uses_large_logo(45));
    assert!(!uses_large_logo(44));
}

fn start(is_first_event: bool, requested: &str, model: &str) -> SessionStart {
    SessionStart {
        requested_model: requested.to_string(),
        model: model.to_string(),
        reasoning_effort: None,
        show_fast_status: false,
        directory: "~".to_string(),
        version: "0.1.0".to_string(),
        approval_policy: AskForApproval::OnRequest,
        permission_profile: PermissionProfile::Disabled,
        is_first_event,
        show_tooltips: true,
        has_tooltip_override: false,
        tooltip_available: true,
    }
}

#[test]
fn first_event_shows_header_and_help() {
    let info = new_session_info(start(true, "a", "b"));
    assert_eq!(info.parts.len(), 2);
    assert!(matches!(info.parts[0], SessionInfoPart::Header(_)));
    assert!(matches!(info.parts[1], SessionInfoPart::Help));
}

#[test]
fn later_events_show_links_and_model_change() {
    let info = new_session_info(start(false, "requested-model", "used-model"));
    assert_eq!(info.parts.len(), 3);
    assert!(matches!(info.parts[1], SessionInfoPart::Links));
    match &info.parts[2] {
        SessionInfoPart::ModelChanged { requested, used } => {
            assert_eq!(requested, "requested-model");
            assert_eq!(used, "used-model");
        }
        _ => panic!("expected a model change notice"),
    }
    let same = new_session_info(start(false, "m", "m"));
    assert_eq!(same.parts.len(), 2);
}
