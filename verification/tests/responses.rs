use issue_autofix::errors::FlowError;
use issue_autofix::generation::{ext_for, fix_from_body, fix_from_text, generation_text_from_body};
use issue_autofix::tracker::{
    branch_exists_from_status, commit_file_from_status, create_branch_from_status,
    latest_commit_from_body, list_issues_from_body,
};

#[test]
fn issues_null_values_is_empty_not_error() {
    let issues = list_issues_from_body("{\"values\": null}").unwrap();
    assert_eq!(issues.len(), 0);
}

#[test]
fn issues_absent_values_is_empty_not_error() {
    let issues = list_issues_from_body("{}").unwrap();
    assert_eq!(issues.len(), 0);
}

#[test]
fn issues_are_decoded_in_order() {
    let body = "{\"values\":[\
        {\"id\":7,\"title\":\"First\",\"content\":{\"raw\":\"body one\"}},\
        {\"id\":9,\"title\":\"Second\",\"content\":{\"raw\":\"body two\"}}]}";
    let issues = list_issues_from_body(body).unwrap();
    assert_eq!(issues.len(), 2);
    assert_eq!(issues[0].id, 7);
    assert_eq!(issues[0].title, "First");
    assert_eq!(issues[0].content.raw, "body one");
    assert_eq!(issues[1].id, 9);
    assert_eq!(issues[1].title, "Second");
}

#[test]
fn issues_malformed_body_is_decode_error() {
    let r = list_issues_from_body("[1, 2");
    assert!(matches!(r, Err(FlowError::Decode(m)) if m == "[1, 2"));
}

#[test]
fn issues_malformed_item_is_decode_error() {
    let body = "{\"values\":[{\"id\":7}]}";
    assert!(matches!(list_issues_from_body(body), Err(FlowError::Decode(_))));
}

#[test]
fn latest_commit_reads_first_hash() {
    let body = "{\"values\":[{\"hash\":\"abc123\"},{\"hash\":\"def456\"}]}";
    assert_eq!(latest_commit_from_body(body).unwrap(), "abc123");
}

#[test]
fn latest_commit_without_hash_is_not_found() {
    assert!(matches!(latest_commit_from_body("{\"values\":[]}"), Err(FlowError::NotFound)));
    assert!(matches!(latest_commit_from_body("{}"), Err(FlowError::NotFound)));
}

#[test]
fn latest_commit_malformed_body_is_decode_error() {
    assert!(matches!(latest_commit_from_body("nonsense"), Err(FlowError::Decode(_))));
}

#[test]
fn branch_existence_by_status() {
    assert_eq!(branch_exists_from_status(200, "").unwrap(), true);
    assert_eq!(branch_exists_from_status(299, "").unwrap(), true);
    assert_eq!(branch_exists_from_status(404, "").unwrap(), false);
    let r = branch_exists_from_status(500, "server broke");
    assert!(matches!(r, Err(FlowError::Network(m)) if m == "server broke"));
}

#[test]
fn branch_creation_by_status() {
    assert!(create_branch_from_status(201, "").is_ok());
    let r = create_branch_from_status(409, "already there");
    assert!(matches!(r, Err(FlowError::Network(m)) if m == "already there"));
}

#[test]
fn commit_outcome_by_status() {
    assert!(commit_file_from_status(200, "").is_ok());
    let r = commit_file_from_status(400, "bad form");
    assert!(matches!(r, Err(FlowError::Network(m)) if m == "400 - bad form"));
}

#[test]
fn generation_text_happy_path_is_trimmed() {
    let body = "{\"candidates\":[{\"content\":{\"parts\":[{\"text\":\"  feature/1-fix  \"}]}}]}";
    assert_eq!(generation_text_from_body(body).unwrap(), "feature/1-fix");
}

#[test]
fn generation_error_message_is_surfaced_verbatim() {
    let body = "{\"error\":{\"message\":\"quota exceeded\"},\"candidates\":[]}";
    let r = generation_text_from_body(body);
    assert!(matches!(r, Err(FlowError::Api(m)) if m == "quota exceeded"));
    let r = fix_from_body(body, "1", "T", "javascript");
    assert!(matches!(r, Err(FlowError::Api(m)) if m == "quota exceeded"));
}

#[test]
fn generation_without_candidates_is_empty_response() {
    let body = "{\"candidates\":[]}";
    assert!(matches!(generation_text_from_body(body), Err(FlowError::EmptyResponse)));
    let body = "{}";
    assert!(matches!(generation_text_from_body(body), Err(FlowError::EmptyResponse)));
}

#[test]
fn generation_with_empty_parts_is_empty_response() {
    let body = "{\"candidates\":[{\"content\":{\"parts\":[]}}]}";
    assert!(matches!(generation_text_from_body(body), Err(FlowError::EmptyResponse)));
}

#[test]
fn generation_malformed_body_is_decode_error() {
    let r = generation_text_from_body("plain text");
    assert!(matches!(r, Err(FlowError::Decode(m)) if m == "plain text"));
    let r = generation_text_from_body("{\"candidates\": 3}");
    assert!(matches!(r, Err(FlowError::Decode(_))));
}

#[test]
fn fix_json_reply_is_taken_verbatim() {
    let (name, content) = fix_from_text(
        "{\"filename\":\"src/a.py\",\"content\":\"print(1)\"}",
        "7",
        "Anything At All",
        "python",
    );
    assert_eq!(name, "src/a.py");
    assert_eq!(content, "print(1)");
}

#[test]
fn fix_json_reply_through_full_body() {
    let body = "{\"candidates\":[{\"content\":{\"parts\":[{\"text\":\
        \"{\\\"filename\\\":\\\"src/a.py\\\",\\\"content\\\":\\\"print(1)\\\"}\"}]}}]}";
    let (name, content) = fix_from_body(body, "7", "Anything", "python").unwrap();
    assert_eq!(name, "src/a.py");
    assert_eq!(content, "print(1)");
}

#[test]
fn fix_fallback_strips_fences_and_synthesizes_name() {
    let body = "{\"candidates\":[{\"content\":{\"parts\":[{\"text\":\
        \" ```\\nconsole.log(1)\\n``` \"}]}}]}";
    let (name, content) = fix_from_body(body, "42", "Fix Login!! Bug", "javascript").unwrap();
    assert_eq!(content, "console.log(1)");
    assert_eq!(name, "src/42-fix-login-bug.js");
}

#[test]
fn fix_fallback_keeps_language_tag_after_fence() {
    let (name, content) = fix_from_text("```js\nconsole.log(1)\n```", "42", "Login", "javascript");
    assert_eq!(content, "js\nconsole.log(1)");
    assert_eq!(name, "src/42-login.js");
}

#[test]
fn fix_fallback_extension_table() {
    let (name, _) = fix_from_text("code", "1", "T", "TypeScript");
    assert!(name.ends_with(".ts"));
    let (name, _) = fix_from_text("code", "1", "T", "PYTHON");
    assert!(name.ends_with(".py"));
    let (name, _) = fix_from_text("code", "1", "T", "rust");
    assert!(name.ends_with(".rs"));
    let (name, _) = fix_from_text("code", "1", "T", "java");
    assert!(name.ends_with(".js"));
}

#[test]
fn extension_selection_lower_cases() {
    assert_eq!(ext_for("TypeScript"), "ts");
    assert_eq!(ext_for("python"), "py");
    assert_eq!(ext_for("Rust"), "rs");
    assert_eq!(ext_for("anything-else"), "js");
}
