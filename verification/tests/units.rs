use dwg2dxf_gateway::error::ApiError;
use dwg2dxf_gateway::has_dwg_extension;
use dwg2dxf_gateway::ingest::{examine_field, FieldDecision};
use dwg2dxf_gateway::invoke::{classify_run, ConversionOutcome, FailureOrigin, RunReport};
use dwg2dxf_gateway::respond::{home_banner, ReplyBody};
use dwg2dxf_gateway::store::{allocate, Role};
use dwg2dxf_gateway::text::str_contains;

#[test]
fn extension_check_cases() {
    assert!(has_dwg_extension("plan.dwg"));
    assert!(has_dwg_extension("plan.DWG"));
    assert!(has_dwg_extension("plan.dWg"));
    assert!(has_dwg_extension(".dwg"));
    assert!(!has_dwg_extension("plan.dxf"));
    assert!(!has_dwg_extension("plandwg"));
    assert!(!has_dwg_extension("dwg"));
    assert!(!has_dwg_extension(""));
    assert!(!has_dwg_extension("plan.dwg.pdf"));
}

#[test]
fn substring_search_cases() {
    assert!(str_contains("No boundary found in header", "No boundary found"));
    assert!(str_contains("abc", ""));
    assert!(str_contains("abc", "abc"));
    assert!(!str_contains("abc", "abcd"));
    assert!(!str_contains("stream ended early", "No boundary found"));
    assert!(str_contains("xxabyab", "yab"));
}

#[test]
fn field_examination_cases() {
    let file = Some("file".to_string());
    let dwg = Some("a.dwg".to_string());
    assert_eq!(examine_field(&None, &dwg), FieldDecision::Skip);
    assert_eq!(
        examine_field(&Some("data".to_string()), &dwg),
        FieldDecision::Skip
    );
    assert_eq!(examine_field(&file, &None), FieldDecision::MissingFilename);
    assert_eq!(
        examine_field(&file, &Some("a.txt".to_string())),
        FieldDecision::WrongExtension
    );
    assert_eq!(examine_field(&file, &dwg), FieldDecision::AcceptFile);
}

#[test]
fn classification_cases() {
    let out = allocate(Role::Output);
    match classify_run(out, RunReport::LaunchFailed("exec format error".to_string()), true) {
        ConversionOutcome::Failure { origin, message } => {
            assert_eq!(origin, FailureOrigin::ProcessLaunch);
            assert_eq!(message, "exec format error");
        }
        _ => panic!("launch failure must classify as failure"),
    }
    let out = allocate(Role::Output);
    match classify_run(
        out,
        RunReport::Exited { success: false, stderr: "corrupt entity".to_string() },
        true,
    ) {
        ConversionOutcome::Failure { origin, message } => {
            assert_eq!(origin, FailureOrigin::NonzeroExit);
            assert_eq!(message, "corrupt entity");
        }
        _ => panic!("nonzero exit must classify as failure"),
    }
    let out = allocate(Role::Output);
    match classify_run(out, RunReport::Exited { success: true, stderr: String::new() }, false) {
        ConversionOutcome::Failure { origin, message } => {
            assert_eq!(origin, FailureOrigin::MissingOutput);
            assert_eq!(message, "output not produced");
        }
        _ => panic!("missing output must classify as failure"),
    }
    let out = allocate(Role::Output);
    let name = out.name.clone();
    match classify_run(out, RunReport::Exited { success: true, stderr: String::new() }, true) {
        ConversionOutcome::Success(t) => assert_eq!(t.name, name),
        _ => panic!("zero exit with output must classify as success"),
    }
}

#[test]
fn allocation_shapes_names() {
    let input = allocate(Role::Input);
    assert_eq!(input.role, Role::Input);
    assert_eq!(input.id.len(), 36);
    assert_eq!(input.name, format!("{}.dwg", input.id));
    assert!(input
        .id
        .chars()
        .all(|c| c == '-' || c.is_ascii_digit() || ('a'..='f').contains(&c)));
    let output = allocate(Role::Output);
    assert_eq!(output.role, Role::Output);
    assert_eq!(output.name, format!("{}.dxf", output.id));
    assert_ne!(input.name, output.name);
}

#[test]
fn error_rendering() {
    let bad = ApiError::BadRequest("nope".to_string());
    let r = bad.into_response();
    assert_eq!(r.status, 400);
    assert!(r.content_type.is_none());
    assert!(r.content_disposition.is_none());
    match r.body {
        ReplyBody::Text(t) => assert_eq!(t, "nope"),
        ReplyBody::Bytes(_) => panic!("error bodies are text"),
    }
    let ise = ApiError::InternalServerError("broken".to_string());
    let r = ise.into_response();
    assert_eq!(r.status, 500);
    match r.body {
        ReplyBody::Text(t) => assert_eq!(t, "broken"),
        ReplyBody::Bytes(_) => panic!("error bodies are text"),
    }
}

#[test]
fn banner_text() {
    assert_eq!(
        home_banner(),
        "DWG to DXF Converter API\n\nEndpoints:\n- POST /convert - Upload DWG file to convert to DXF"
    );
}
