use repo_visibility::change::{
    plan_changes, settle, settle_batch, ChangeError, DesiredVisibility, PatchResponse, ValidationError,
    VisibilityChangeRequest,
};
use repo_visibility::paginate::TransportError;

fn answer(name: &str, private: bool) -> Option<Result<PatchResponse, TransportError>> {
    Some(Ok(PatchResponse { name: name.to_string(), private }))
}

#[test]
fn parses_a_well_formed_token() {
    let r = VisibilityChangeRequest::parse("tools:private").unwrap();
    assert_eq!(r.repository_name, "tools");
    assert_eq!(r.desired_visibility, DesiredVisibility::Private);
    let r = VisibilityChangeRequest::parse("site:public:extra").unwrap();
    assert_eq!(r.repository_name, "site");
    assert_eq!(r.desired_visibility, DesiredVisibility::Public);
}

#[test]
fn token_without_separator_is_rejected() {
    assert_eq!(VisibilityChangeRequest::parse("reponame").unwrap_err(), ValidationError::MissingSeparator);
}

#[test]
fn token_with_empty_name_or_bad_visibility_is_rejected() {
    assert_eq!(VisibilityChangeRequest::parse(":public").unwrap_err(), ValidationError::EmptyName);
    assert_eq!(
        VisibilityChangeRequest::parse("x:secret").unwrap_err(),
        ValidationError::UnknownVisibility("secret".to_string())
    );
    assert_eq!(
        VisibilityChangeRequest::parse("x:").unwrap_err(),
        ValidationError::UnknownVisibility(String::new())
    );
}

#[test]
fn malformed_token_does_not_block_the_others() {
    let tokens = vec!["a:public".to_string(), "reponame".to_string(), "b:private".to_string()];
    let plan = plan_changes(&tokens);
    assert_eq!(plan.len(), 3);
    assert!(plan[0].is_ok());
    assert_eq!(plan[1].as_ref().unwrap_err(), &ValidationError::MissingSeparator);
    assert!(plan[2].is_ok());
    let results = settle_batch(&tokens, vec![answer("a", false), None, answer("b", true)]);
    assert_eq!(results.len(), 3);
    assert!(results[0].succeeded);
    assert!(!results[1].succeeded);
    assert_eq!(results[1].repository_name, "reponame");
    assert_eq!(results[1].error, Some(ChangeError::Validation(ValidationError::MissingSeparator)));
    assert!(results[2].succeeded);
    assert_eq!(results[2].now_private, Some(true));
}

#[test]
fn failed_item_in_the_middle_does_not_stop_the_batch() {
    let tokens = vec!["a:private".to_string(), "b:private".to_string(), "c:public".to_string()];
    let decode = TransportError::Decode("expected field `private`".to_string());
    let results = settle_batch(&tokens, vec![answer("a", true), Some(Err(decode.clone())), answer("c", false)]);
    assert_eq!(results.len(), 3);
    assert!(results[0].succeeded);
    assert_eq!(results[0].now_private, Some(true));
    assert!(!results[1].succeeded);
    assert_eq!(results[1].repository_name, "b");
    assert_eq!(results[1].error, Some(ChangeError::Transport(decode)));
    assert!(results[2].succeeded);
    assert_eq!(results[2].repository_name, "c");
    assert_eq!(results[2].reported_name, Some("c".to_string()));
    assert_eq!(results[2].now_private, Some(false));
}

#[test]
fn valid_item_without_answer_is_not_sent() {
    let r = settle("a:public", None);
    assert!(!r.succeeded);
    assert_eq!(r.error, Some(ChangeError::NotSent));
}

#[test]
fn request_path_and_body() {
    let r = VisibilityChangeRequest::parse("tools:private").unwrap();
    assert_eq!(r.path("octo"), "/repos/octo/tools");
    assert_eq!(r.body(), "{\"visibility\":\"private\"}");
    let v: serde_json::Value = serde_json::from_str(&r.body()).unwrap();
    assert_eq!(v["visibility"].as_str().unwrap(), "private");
    let r = VisibilityChangeRequest::parse("site:public").unwrap();
    assert_eq!(r.body(), "{\"visibility\":\"public\"}");
}

#[test]
fn success_keeps_the_name_the_service_reported() {
    let r = settle("tools:private", answer("Tools", true));
    assert!(r.succeeded);
    assert_eq!(r.repository_name, "tools");
    assert_eq!(r.reported_name, Some("Tools".to_string()));
    assert_eq!(r.now_private, Some(true));
    assert_eq!(settle("tools", answer("Tools", true)).reported_name, None);
}
