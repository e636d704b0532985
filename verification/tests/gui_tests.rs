use cam_record_sim::gui::{
    format_log_line, parse_camera_id, parse_camera_id_bytes, preview_len,
    recording_choices, select_source, source_from_selection, RecordingList, SelectionError,
};
use cam_record_sim::recorder::CameraSource;

#[test]
fn one_camera_needs_the_first_selection() {
    assert_eq!(select_source(true, Some(2), None), Ok(CameraSource::Single(2)));
    assert_eq!(select_source(true, Some(2), Some(5)), Ok(CameraSource::Single(2)));
    assert_eq!(select_source(true, None, Some(5)), Err(SelectionError::NoCameraSelected));
    assert_eq!(select_source(true, None, None), Err(SelectionError::NoCameraSelected));
}

#[test]
fn two_cameras_need_both_selections() {
    assert_eq!(select_source(false, Some(0), Some(1)), Ok(CameraSource::Dual(0, 1)));
    assert_eq!(select_source(false, Some(4), Some(4)), Ok(CameraSource::Dual(4, 4)));
    assert_eq!(select_source(false, Some(0), None), Err(SelectionError::BothCamerasRequired));
    assert_eq!(select_source(false, None, Some(1)), Err(SelectionError::BothCamerasRequired));
    assert_eq!(select_source(false, None, None), Err(SelectionError::BothCamerasRequired));
}

#[test]
fn selection_errors_have_their_texts() {
    assert_eq!(SelectionError::NoCameraSelected.status(), "Error: No camera selected");
    assert_eq!(SelectionError::BothCamerasRequired.status(), "Error: Select both cameras");
    assert_eq!(
        SelectionError::NoCameraSelected.log_entry(),
        "Error: No camera selected for recording"
    );
    assert_eq!(
        SelectionError::BothCamerasRequired.log_entry(),
        "Error: Both cameras must be selected"
    );
}

#[test]
fn camera_ids_are_plain_decimal_numbers() {
    assert_eq!(parse_camera_id("0"), Some(0));
    assert_eq!(parse_camera_id("7"), Some(7));
    assert_eq!(parse_camera_id("42"), Some(42));
    assert_eq!(parse_camera_id("007"), Some(7));
    assert_eq!(parse_camera_id("+3"), Some(3));
    assert_eq!(parse_camera_id("4294967295"), Some(u32::MAX));
    assert_eq!(parse_camera_id("0004294967295"), Some(u32::MAX));
}

#[test]
fn anything_else_is_no_camera_id() {
    for text in ["", "+", "-1", "-0", "1.0", " 1", "1 ", "0x10", "1_000", "abc", "++1", "1+", "\u{661}", "4294967296", "99999999999999999999999"] {
        assert_eq!(parse_camera_id(text), None, "{:?}", text);
    }
}

#[test]
fn camera_id_agrees_with_the_standard_reading_of_a_number() {
    let samples = [
        "0", "1", "9", "10", "+0", "+12", "-12", "00", "4294967295", "4294967296", "42949672950",
        "", "+", "-", "12a", "a12", " 12", "1 2", "1e3", "18446744073709551616",
    ];
    for text in samples {
        assert_eq!(parse_camera_id(text), text.parse::<u32>().ok(), "{:?}", text);
        assert_eq!(parse_camera_id_bytes(text.as_bytes()), text.parse::<u32>().ok(), "{:?}", text);
    }
}

#[test]
fn bytes_that_are_no_text_are_no_camera_id() {
    assert_eq!(parse_camera_id_bytes(&[0x31, 0xFF]), None);
    assert_eq!(parse_camera_id_bytes(&[0x2B, 0x2B]), None);
    assert_eq!(parse_camera_id_bytes(&[0x39, 0x3A]), None);
    assert_eq!(parse_camera_id_bytes(&[0x2F]), None);
    assert_eq!(parse_camera_id_bytes(&[0x30, 0x39]), Some(9));
}

#[test]
fn selectors_give_a_single_source_for_count_one() {
    assert_eq!(source_from_selection("1", Some("3"), None), Ok(CameraSource::Single(3)));
    assert_eq!(source_from_selection("1", Some("3"), Some("4")), Ok(CameraSource::Single(3)));
    assert_eq!(source_from_selection("1", None, Some("4")), Err(SelectionError::NoCameraSelected));
    assert_eq!(
        source_from_selection("1", Some("front"), None),
        Err(SelectionError::NoCameraSelected)
    );
}

#[test]
fn selectors_give_a_dual_source_for_any_other_count() {
    assert_eq!(source_from_selection("2", Some("0"), Some("1")), Ok(CameraSource::Dual(0, 1)));
    assert_eq!(source_from_selection("", Some("0"), Some("1")), Ok(CameraSource::Dual(0, 1)));
    assert_eq!(source_from_selection("11", Some("0"), Some("1")), Ok(CameraSource::Dual(0, 1)));
    assert_eq!(
        source_from_selection("2", Some("0"), None),
        Err(SelectionError::BothCamerasRequired)
    );
    assert_eq!(
        source_from_selection("2", Some("0"), Some("x")),
        Err(SelectionError::BothCamerasRequired)
    );
}

#[test]
fn preview_shows_the_leading_image_of_a_buffer() {
    assert_eq!(preview_len(921_600, 640, 480), Some(921_600));
    assert_eq!(preview_len(1_000_000, 640, 480), Some(921_600));
    assert_eq!(preview_len(6, 2, 1), Some(6));
    assert_eq!(preview_len(3, 1, 1), Some(3));
}

#[test]
fn preview_shows_nothing_of_a_short_buffer() {
    assert_eq!(preview_len(921_599, 640, 480), None);
    assert_eq!(preview_len(0, 640, 480), None);
    assert_eq!(preview_len(2, 1, 1), None);
}

#[test]
fn preview_shows_nothing_for_dimensions_that_are_not_positive() {
    assert_eq!(preview_len(1_000, 0, 10), None);
    assert_eq!(preview_len(1_000, 10, 0), None);
    assert_eq!(preview_len(1_000, -1, 10), None);
    assert_eq!(preview_len(1_000, 10, -1), None);
    assert_eq!(preview_len(1_000, -2, -2), None);
    assert_eq!(preview_len(0, 0, 0), None);
}

#[test]
fn preview_does_not_wrap_for_huge_dimensions() {
    assert_eq!(preview_len(usize::MAX, i32::MAX, i32::MAX), None);
    assert_eq!(preview_len(usize::MAX, 715_827_883, 1), None);
    assert_eq!(preview_len(usize::MAX, 715_827_882, 1), Some(2_147_483_646));
    assert_eq!(preview_len(12, 65_536, 65_536), None);
}

#[test]
fn log_line_is_time_in_brackets_then_message() {
    assert_eq!(format_log_line("12:34:56", "Detecting cameras..."), "[12:34:56] Detecting cameras...\n");
    assert_eq!(format_log_line("", ""), "[] \n");
    assert_eq!(format_log_line("00:00:00", "a\nb"), "[00:00:00] a\nb\n");
}

#[test]
fn recordings_are_offered_under_their_names() {
    let list = RecordingList::Found(vec![String::from("a.avi"), String::from("b.avi")]);
    let choices = recording_choices(&list);
    assert_eq!(choices.len(), 2);
    assert_eq!(choices[0].id, "a.avi");
    assert_eq!(choices[0].label, "a.avi");
    assert_eq!(choices[1].id, "b.avi");
    assert_eq!(choices[1].label, "b.avi");
}

#[test]
fn no_recordings_are_offered_as_a_single_entry() {
    let choices = recording_choices(&RecordingList::Found(Vec::new()));
    assert_eq!(choices.len(), 1);
    assert_eq!(choices[0].id, "none");
    assert_eq!(choices[0].label, "No recordings");
}

#[test]
fn unreadable_directory_is_offered_as_a_single_entry() {
    let choices = recording_choices(&RecordingList::Unreadable);
    assert_eq!(choices.len(), 1);
    assert_eq!(choices[0].id, "none");
    assert_eq!(choices[0].label, "Error loading");
}
