use ota_signer::error::SigningError;
use ota_signer::signing::{
    combine_output, interpret_sign_output, judge_run, parse_sign_output, signer_arguments,
    SignResult, SignerOutput, BUNDLE_ID_PATTERN, BUNDLE_VERSION_PATTERN, SIGNER_PROGRAM,
    SUCCESS_MARKER,
};

fn signed(bundle_id: &str, bundle_version: &str) -> SignResult {
    SignResult { bundle_id: bundle_id.to_string(), bundle_version: bundle_version.to_string() }
}

#[test]
fn constants_of_the_signer() {
    assert_eq!(SIGNER_PROGRAM, "/zsign");
    assert_eq!(SUCCESS_MARKER, "Signed OK!");
    assert_eq!(BUNDLE_ID_PATTERN, r"BundleId:\s*(\S+)");
    assert_eq!(BUNDLE_VERSION_PATTERN, r"BundleVer:\s*(\S+)");
}

#[test]
fn arguments_name_profile_key_output_and_input() {
    assert_eq!(
        signer_arguments("/work/a.ipa", "/public/a.ipa", "/keys/app.mobileprovision", "/keys/key.p12"),
        vec![
            "-m".to_string(),
            "/keys/app.mobileprovision".to_string(),
            "-k".to_string(),
            "/keys/key.p12".to_string(),
            "-o".to_string(),
            "/public/a.ipa".to_string(),
            "/work/a.ipa".to_string(),
        ]
    );
}

#[test]
fn output_streams_are_joined_by_a_newline() {
    assert_eq!(combine_output("out", "err"), "out\nerr");
    assert_eq!(combine_output("", "err"), "\nerr");
    assert_eq!(combine_output("out\n", "err"), "out\n\nerr");
}

#[test]
fn empty_standard_error_adds_nothing() {
    assert_eq!(combine_output("out", ""), "out");
    assert_eq!(combine_output("", ""), "");
}

#[test]
fn signed_output_yields_identifier_and_version() {
    assert_eq!(
        parse_sign_output("Signed OK!\nBundleId: com.example.app\nBundleVer: 3.2.1"),
        Ok(signed("com.example.app", "3.2.1"))
    );
}

#[test]
fn output_without_marker_is_a_signing_error() {
    assert_eq!(
        parse_sign_output("BundleId: com.example.app\nBundleVer: 3.2.1"),
        Err(SigningError::NotSigned)
    );
    assert_eq!(parse_sign_output(""), Err(SigningError::NotSigned));
    assert_eq!(parse_sign_output("Signed  OK!"), Err(SigningError::NotSigned));
}

#[test]
fn marker_is_matched_with_its_case() {
    assert_eq!(
        parse_sign_output("signed ok!\nBundleId: a\nBundleVer: 1"),
        Err(SigningError::NotSigned)
    );
    assert_eq!(
        parse_sign_output("SIGNED OK!\nBundleId: a\nBundleVer: 1"),
        Err(SigningError::NotSigned)
    );
}

#[test]
fn marker_may_stand_anywhere() {
    assert_eq!(
        parse_sign_output(">>> BundleVer:1 BundleId:a\n>>> Archive Signed OK! (1.2s)"),
        Ok(signed("a", "1"))
    );
}

#[test]
fn missing_identifier_is_a_signing_error() {
    assert_eq!(parse_sign_output("Signed OK!\nBundleVer: 3.2.1"), Err(SigningError::MissingBundleId));
    assert_eq!(parse_sign_output("Signed OK!"), Err(SigningError::MissingBundleId));
    assert_eq!(
        parse_sign_output("Signed OK!\nBundleId:   \nBundleVer: 1"),
        Ok(signed("BundleVer:", "1"))
    );
    assert_eq!(parse_sign_output("Signed OK!\nBundleId: \n"), Err(SigningError::MissingBundleId));
}

#[test]
fn missing_version_is_a_signing_error() {
    assert_eq!(
        parse_sign_output("Signed OK!\nBundleId: com.example.app"),
        Err(SigningError::MissingBundleVersion)
    );
    assert_eq!(
        parse_sign_output("Signed OK!\nBundleId: com.example.app\nbundlever: 2"),
        Err(SigningError::MissingBundleVersion)
    );
}

#[test]
fn values_end_at_whitespace() {
    assert_eq!(
        parse_sign_output("BundleId:\tcom.example.app extra\nBundleVer:3.2.1\tmore\nSigned OK!"),
        Ok(signed("com.example.app", "3.2.1"))
    );
}

#[test]
fn the_first_occurrence_of_a_value_counts() {
    assert_eq!(
        parse_sign_output("Signed OK!\nBundleId: first\nBundleId: second\nBundleVer: 1\nBundleVer: 2"),
        Ok(signed("first", "1"))
    );
}

#[test]
fn interpretation_by_parts() {
    let id = || Some("com.example.app".to_string());
    let version = || Some("3.2.1".to_string());
    assert_eq!(interpret_sign_output(true, id(), version()), Ok(signed("com.example.app", "3.2.1")));
    assert_eq!(interpret_sign_output(false, id(), version()), Err(SigningError::NotSigned));
    assert_eq!(interpret_sign_output(false, None, None), Err(SigningError::NotSigned));
    assert_eq!(interpret_sign_output(true, None, version()), Err(SigningError::MissingBundleId));
    assert_eq!(interpret_sign_output(true, None, None), Err(SigningError::MissingBundleId));
    assert_eq!(interpret_sign_output(true, id(), None), Err(SigningError::MissingBundleVersion));
}

#[test]
fn a_run_is_judged_by_both_streams() {
    let run = SignerOutput {
        stdout: "BundleId: com.example.app\nBundleVer: 3.2.1".to_string(),
        stderr: ">>> Signed OK!".to_string(),
    };
    assert_eq!(judge_run(Ok(run)), Ok(signed("com.example.app", "3.2.1")));
    let split = SignerOutput { stdout: "Signed".to_string(), stderr: " OK!".to_string() };
    assert_eq!(judge_run(Ok(split)), Err(SigningError::NotSigned));
}

#[test]
fn a_run_that_could_not_be_made_keeps_its_error() {
    assert_eq!(
        judge_run(Err(SigningError::Launch("No such file or directory".to_string()))),
        Err(SigningError::Launch("No such file or directory".to_string()))
    );
    assert_eq!(judge_run(Err(SigningError::TimedOut)), Err(SigningError::TimedOut));
    assert_eq!(
        judge_run(Err(SigningError::InputMissing("/work/a.ipa".to_string()))),
        Err(SigningError::InputMissing("/work/a.ipa".to_string()))
    );
}
