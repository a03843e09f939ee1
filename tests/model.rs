use input_setup::{AppListLine, InputStatus, PortType};

fn record(
    kind: Option<PortType>,
    left: Option<&str>,
    right: Option<&str>,
    saved: bool,
) -> AppListLine {
    AppListLine {
        pmx_input_id: 1,
        name: String::from("Mic"),
        selected_port_type: kind,
        selected_left_out_port_path: left.map(String::from),
        selected_right_out_port_path: right.map(String::from),
        saved,
        edit_seq: 0,
    }
}

#[test]
fn unset_type_is_invalid() {
    assert!(!record(None, Some("a"), Some("b"), true).is_valid());
}

#[test]
fn mono_needs_left() {
    assert!(record(Some(PortType::Mono), Some("a"), None, true).is_valid());
    assert!(!record(Some(PortType::Mono), None, Some("b"), true).is_valid());
}

#[test]
fn stereo_needs_left_whatever_right() {
    assert!(!record(Some(PortType::Stereo), None, None, true).is_valid());
    assert!(!record(Some(PortType::Stereo), None, Some("b"), true).is_valid());
    assert!(!record(Some(PortType::Stereo), Some("a"), None, true).is_valid());
    assert!(record(Some(PortType::Stereo), Some("a"), Some("b"), true).is_valid());
}

#[test]
fn unrouted_is_valid_whatever_paths() {
    assert!(record(Some(PortType::Unrouted), None, None, false).is_valid());
    assert!(record(Some(PortType::Unrouted), Some("a"), Some("b"), false).is_valid());
}

#[test]
fn status_has_three_outcomes() {
    assert_eq!(record(None, None, None, true).status(), InputStatus::Invalid);
    assert_eq!(record(Some(PortType::Mono), None, None, true).status(), InputStatus::Invalid);
    assert_eq!(record(Some(PortType::Mono), Some("a"), None, false).status(), InputStatus::ValidUnsaved);
    assert_eq!(record(Some(PortType::Mono), Some("a"), None, true).status(), InputStatus::ValidSaved);
}

#[test]
fn invalid_record_has_no_save() {
    assert!(record(Some(PortType::Stereo), Some("a"), None, false).save_request().is_none());
    assert!(record(None, None, None, false).save_request().is_none());
}

#[test]
fn unrouted_save_drops_paths() {
    let req = record(Some(PortType::Unrouted), Some("a"), Some("b"), false)
        .save_request()
        .unwrap();
    assert_eq!(req.input_type, PortType::Unrouted);
    assert_eq!(req.left_port_path, None);
    assert_eq!(req.right_port_path, None);
    assert_eq!(req.id, 1);
    assert_eq!(req.edit_seq, 0);
}

#[test]
fn selectors_follow_type() {
    assert_eq!(record(Some(PortType::Mono), None, None, true).port_selectors(), (true, false));
    assert_eq!(record(Some(PortType::Stereo), None, None, true).port_selectors(), (true, true));
    assert_eq!(record(Some(PortType::Unrouted), None, None, true).port_selectors(), (false, false));
    assert_eq!(record(None, None, None, true).port_selectors(), (false, false));
}

#[test]
fn labels_and_choices() {
    assert_eq!(PortType::Mono.label(), "Mono");
    assert_eq!(PortType::Stereo.label(), "Stereo");
    assert_eq!(PortType::Unrouted.label(), "None");
    assert_eq!(PortType::all(), vec![PortType::Mono, PortType::Stereo, PortType::Unrouted]);
}

#[test]
fn duplicate_copies_every_field() {
    let r = record(Some(PortType::Stereo), Some("a"), Some("b"), false);
    let d = r.duplicate();
    assert_eq!(d.pmx_input_id, r.pmx_input_id);
    assert_eq!(d.name, r.name);
    assert_eq!(d.selected_port_type, r.selected_port_type);
    assert_eq!(d.selected_left_out_port_path, r.selected_left_out_port_path);
    assert_eq!(d.selected_right_out_port_path, r.selected_right_out_port_path);
    assert_eq!(d.saved, r.saved);
}
