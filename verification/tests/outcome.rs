use blog_editor::menu::{dispatch, MenuAction};
use blog_editor::outcome::{
    classify_write, WriteOutcome, CREATE_SUCCESS_STATUS, DELETE_SUCCESS_STATUS,
};

#[test]
fn create_succeeds_on_201_only() {
    let ok = classify_write(CREATE_SUCCESS_STATUS, 201, String::new());
    assert!(matches!(ok, WriteOutcome::Success));
    let rejected = classify_write(CREATE_SUCCESS_STATUS, 200, "moved".to_string());
    assert!(matches!(rejected, WriteOutcome::Rejected { status: 200, .. }));
}

#[test]
fn delete_succeeds_on_200_only() {
    let ok = classify_write(DELETE_SUCCESS_STATUS, 200, String::new());
    assert!(matches!(ok, WriteOutcome::Success));
    let rejected = classify_write(DELETE_SUCCESS_STATUS, 404, "not found".to_string());
    assert!(matches!(rejected, WriteOutcome::Rejected { status: 404, .. }));
}

#[test]
fn forbidden_write_reports_literal_body() {
    let body = "{\"error\":\"credentials rejected\"}";
    match classify_write(CREATE_SUCCESS_STATUS, 403, body.to_string()) {
        WriteOutcome::Rejected { status, body: reported } => {
            assert_eq!(status, 403);
            assert_eq!(reported, body);
        }
        WriteOutcome::Success => panic!("403 must not count as success"),
    }
    // The rejection leaves the menu exactly as it was.
    assert_eq!(dispatch("3"), MenuAction::DeleteBlog);
    assert_eq!(dispatch("6"), MenuAction::Exit);
}
