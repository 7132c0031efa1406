use nearby_images::launch::{get_cli_argument_filename, AppData, ArgValue};

#[test]
fn text_argument_is_the_file_name() {
    let state = AppData::from_file_argument(Some(ArgValue::Text("/pics/a.jpg".to_string())));
    assert_eq!(state.cli_argument_filename, Some("/pics/a.jpg".to_string()));
    assert_eq!(get_cli_argument_filename(&state), Some("/pics/a.jpg".to_string()));
}

#[test]
fn other_argument_gives_no_file_name() {
    let state = AppData::from_file_argument(Some(ArgValue::Other));
    assert_eq!(get_cli_argument_filename(&state), None);
}

#[test]
fn missing_argument_gives_no_file_name() {
    let state = AppData::from_file_argument(None);
    assert_eq!(get_cli_argument_filename(&state), None);
}

#[test]
fn file_name_is_returned_unchanged_each_time() {
    let state = AppData { cli_argument_filename: Some("Ünïcode name.PNG".to_string()) };
    assert_eq!(get_cli_argument_filename(&state), Some("Ünïcode name.PNG".to_string()));
    assert_eq!(get_cli_argument_filename(&state), Some("Ünïcode name.PNG".to_string()));
}
