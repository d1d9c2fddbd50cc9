use ota_signer::allowlist::DeviceAllowlist;
use ota_signer::error::{PipelineError, ValidationError};
use ota_signer::upload::{field_action, sanitize_filename, FieldAction, UploadDraft, UploadRequest};

fn allowlist() -> DeviceAllowlist {
    match DeviceAllowlist::parse("DEVICE-1,device-2") {
        Ok(allowlist) => allowlist,
        Err(e) => panic!("{:?}", e),
    }
}

#[test]
fn sanitize_replaces_everything_but_alphanumerics_hyphen_and_underscore() {
    assert_eq!(sanitize_filename("My App (1).ipa"), "My_App__1__ipa");
    assert_eq!(sanitize_filename("a-b_c9"), "a-b_c9");
    assert_eq!(sanitize_filename(""), "");
}

#[test]
fn sanitize_defeats_path_traversal() {
    assert_eq!(sanitize_filename("../../etc/passwd"), "______etc_passwd");
    assert_eq!(sanitize_filename("..\\windows\\x"), "___windows_x");
    assert_eq!(sanitize_filename("/abs"), "_abs");
}

#[test]
fn sanitize_keeps_alphanumerics_of_any_script() {
    assert_eq!(sanitize_filename("café.ipa"), "café_ipa");
    assert_eq!(sanitize_filename("应用 ٣.ipa"), "应用_٣_ipa");
}

#[test]
fn sanitize_is_idempotent() {
    for name in ["My App (1).ipa", "../../etc/passwd", "café.ipa", "a-b_c9", "", "__", "x y\tz\n"] {
        let once = sanitize_filename(name);
        let twice = sanitize_filename(&once);
        assert_eq!(once, twice);
        assert!(once.chars().all(|c| c.is_alphanumeric() || c == '-' || c == '_'));
        assert_eq!(once.chars().count(), name.chars().count());
    }
}

#[test]
fn field_without_name_is_refused() {
    assert_eq!(field_action(None), Err(PipelineError::Validation(ValidationError::UnnamedField)));
}

#[test]
fn fields_are_told_apart_by_name() {
    assert_eq!(field_action(Some("udid")), Ok(FieldAction::ReadUdid));
    assert_eq!(field_action(Some("file")), Ok(FieldAction::ReadFile));
    assert_eq!(field_action(Some("comment")), Ok(FieldAction::Skip));
    assert_eq!(field_action(Some("UDID")), Ok(FieldAction::Skip));
    assert_eq!(field_action(Some("")), Ok(FieldAction::Skip));
    assert_eq!(field_action(Some("file ")), Ok(FieldAction::Skip));
}

#[test]
fn a_new_draft_is_empty() {
    let draft = UploadDraft::new();
    assert_eq!(draft, UploadDraft { udid: None, original_filename: None, file_bytes: None });
}

#[test]
fn udid_is_recorded_in_normal_form() {
    let mut draft = UploadDraft::new();
    draft.record_udid("  device-1\n");
    assert_eq!(draft.udid.as_deref(), Some("DEVICE-1"));
    assert_eq!(draft.original_filename, None);
    assert_eq!(draft.file_bytes, None);
}

#[test]
fn a_later_udid_replaces_an_earlier_one() {
    let mut draft = UploadDraft::new();
    draft.record_udid("first");
    draft.record_udid("second");
    assert_eq!(draft.udid.as_deref(), Some("SECOND"));
}

#[test]
fn file_is_recorded_with_its_name() {
    let mut draft = UploadDraft::new();
    draft.record_file(Some("app.ipa"), vec![1, 2, 3]);
    assert_eq!(draft.original_filename.as_deref(), Some("app.ipa"));
    assert_eq!(draft.file_bytes, Some(vec![1, 2, 3]));
    assert_eq!(draft.udid, None);
}

#[test]
fn a_later_file_without_name_keeps_the_earlier_name() {
    let mut draft = UploadDraft::new();
    draft.record_file(Some("app.ipa"), vec![1]);
    draft.record_file(None, vec![2]);
    assert_eq!(draft.original_filename.as_deref(), Some("app.ipa"));
    assert_eq!(draft.file_bytes, Some(vec![2]));
    draft.record_file(Some("other.ipa"), vec![3]);
    assert_eq!(draft.original_filename.as_deref(), Some("other.ipa"));
    assert_eq!(draft.file_bytes, Some(vec![3]));
}

#[test]
fn upload_without_udid_is_a_validation_error() {
    let mut draft = UploadDraft::new();
    draft.record_file(Some("app.ipa"), vec![1]);
    let outcome = draft.finish(&allowlist());
    assert_eq!(outcome, Err(PipelineError::Validation(ValidationError::MissingUdid)));
}

#[test]
fn upload_from_unauthorized_device_is_forbidden() {
    let mut draft = UploadDraft::new();
    draft.record_udid("device-3");
    draft.record_file(Some("app.ipa"), vec![1]);
    let outcome = draft.finish(&allowlist());
    assert_eq!(outcome, Err(PipelineError::Authorization));
    let error = outcome.unwrap_err();
    assert_eq!(error.status(), 403);
    assert!(error.message().contains("Unauthorized UDID."));
}

#[test]
fn authorization_is_checked_before_the_file() {
    let mut draft = UploadDraft::new();
    draft.record_udid("device-3");
    assert_eq!(draft.finish(&allowlist()), Err(PipelineError::Authorization));
}

#[test]
fn upload_without_file_is_a_validation_error() {
    let mut draft = UploadDraft::new();
    draft.record_udid("device-1");
    let outcome = draft.finish(&allowlist());
    assert_eq!(outcome, Err(PipelineError::Validation(ValidationError::MissingFile)));
}

#[test]
fn upload_without_file_name_is_a_validation_error() {
    let mut draft = UploadDraft::new();
    draft.record_udid("device-1");
    draft.record_file(None, vec![1, 2]);
    let outcome = draft.finish(&allowlist());
    assert_eq!(outcome, Err(PipelineError::Validation(ValidationError::MissingFile)));
}

#[test]
fn a_complete_upload_is_accepted() {
    let mut draft = UploadDraft::new();
    draft.record_file(Some("My App.ipa"), vec![9, 8, 7]);
    draft.record_udid(" Device-2 ");
    let outcome = draft.finish(&allowlist());
    assert_eq!(
        outcome,
        Ok(UploadRequest {
            udid: "DEVICE-2".to_string(),
            original_filename: "My App.ipa".to_string(),
            bytes: vec![9, 8, 7],
        })
    );
}
