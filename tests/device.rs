use teleop::{contains_xbox, is_xbox_name, select_controller};

#[test]
fn marker_found_in_lowered_name() {
    let v: Vec<char> = "microsoft xbox one".chars().collect();
    assert!(contains_xbox(&v));
    let w: Vec<char> = "xbox".chars().collect();
    assert!(contains_xbox(&w));
}

#[test]
fn marker_absent_in_lowered_name() {
    let v: Vec<char> = "sony dualshock".chars().collect();
    assert!(!contains_xbox(&v));
    assert!(!contains_xbox(&Vec::new()));
    let w: Vec<char> = "xbo".chars().collect();
    assert!(!contains_xbox(&w));
    let u: Vec<char> = "XBOX".chars().collect();
    assert!(!contains_xbox(&u));
}

#[test]
fn name_matches_in_any_case() {
    assert!(is_xbox_name("Xbox Wireless Controller"));
    assert!(is_xbox_name("MICROSOFT X-BOX 360 pad XBOX"));
    assert!(!is_xbox_name("Microsoft X-Box 360 pad"));
    assert!(!is_xbox_name(""));
}

#[test]
fn last_matching_controller_is_selected() {
    let names: Vec<String> = vec![
        "Xbox One".to_string(),
        "Logitech".to_string(),
        "XBOX Elite".to_string(),
        "Keyboard".to_string(),
    ];
    assert_eq!(select_controller(&names), Some(2));
}

#[test]
fn no_matching_controller() {
    let names: Vec<String> = vec!["Logitech".to_string(), "DualSense".to_string()];
    assert_eq!(select_controller(&names), None);
    assert_eq!(select_controller(&Vec::new()), None);
}
