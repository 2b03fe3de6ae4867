use cedar_playground::authorize;
use cedar_playground::authorize_helper;
use cedar_playground::AuthorizeInput;
use cedar_playground::AuthorizeOutput;
use cedar_playground::AuthorizeOutputResponse;
use cedar_playground::ParseStage;
use cedar_playground::Verdict;

const PERMIT_ALL: &str = "permit(principal, action, resource);";

const AGE_SCHEMA: &str = r#"{"": {
    "entityTypes": {
        "User": {
            "shape": {
                "type": "Record",
                "attributes": {"age": {"type": "Long"}}
            }
        },
        "Photo": {}
    },
    "actions": {
        "view": {
            "appliesTo": {
                "principalTypes": ["User"],
                "resourceTypes": ["Photo"]
            }
        }
    }
}}"#;

fn basic_input(policy_set: &str) -> AuthorizeInput {
    AuthorizeInput::new(
        Some("User::\"alice\"".to_string()),
        Some("Action::\"view\"".to_string()),
        Some("Photo::\"1\"".to_string()),
        "{}".to_string(),
        policy_set.to_string(),
        "[]".to_string(),
        None,
    )
}

fn assert_error_arm(out: &AuthorizeOutput) {
    assert!(out.error.is_some());
    assert!(out.response.is_none());
    assert!(!out.error.as_ref().unwrap().is_empty());
}

#[test]
fn permit_all_allows() {
    let out = authorize(basic_input(PERMIT_ALL));
    assert!(out.error.is_none());
    let response = out.response.expect("success arm expected");
    assert_eq!(response.decision, "ALLOW");
}

#[test]
fn empty_policy_set_denies() {
    let out = authorize(basic_input(""));
    assert!(out.error.is_none());
    let response = out.response.expect("success arm expected");
    assert_eq!(response.decision, "DENY");
}

#[test]
fn empty_policy_set_reports_no_policies() {
    let verdict = authorize_helper(basic_input("")).expect("pipeline should accept the query");
    assert!(!verdict.allow);
    assert!(verdict.reasons.is_empty());
}

#[test]
fn comment_only_policy_set_denies() {
    let out = authorize(basic_input("// no policies here\n"));
    assert!(out.error.is_none());
    let response = out.response.expect("success arm expected");
    assert_eq!(response.decision, "DENY");
}

#[test]
fn permit_all_reports_a_contributing_policy() {
    let verdict =
        authorize_helper(basic_input(PERMIT_ALL)).expect("pipeline should accept the query");
    assert!(verdict.allow);
    assert_eq!(verdict.reasons.len(), 1);
}

#[test]
fn entities_not_json_is_an_error() {
    let mut input = basic_input(PERMIT_ALL);
    input.entities = "not-json".to_string();
    assert_error_arm(&authorize(input));
}

#[test]
fn entity_violating_schema_is_an_error() {
    let mut input = basic_input(PERMIT_ALL);
    input.schema = Some(AGE_SCHEMA.to_string());
    input.entities =
        r#"[{"uid": {"type": "User", "id": "alice"}, "attrs": {}, "parents": []}]"#.to_string();
    assert_error_arm(&authorize(input));
}

#[test]
fn entity_conforming_to_schema_is_accepted() {
    let mut input = basic_input(PERMIT_ALL);
    input.schema = Some(AGE_SCHEMA.to_string());
    input.entities = r#"[{"uid": {"type": "User", "id": "alice"}, "attrs": {"age": 19}, "parents": []}]"#
        .to_string();
    let out = authorize(input);
    assert!(out.error.is_none());
    assert_eq!(out.response.expect("success arm expected").decision, "ALLOW");
}

#[test]
fn omitted_schema_skips_semantic_validation() {
    let mut input = basic_input(PERMIT_ALL);
    input.entities =
        r#"[{"uid": {"type": "User", "id": "alice"}, "attrs": {}, "parents": []}]"#.to_string();
    let out = authorize(input);
    assert!(out.error.is_none());
    assert!(out.response.is_some());
}

#[test]
fn bad_principal_is_an_error() {
    let mut input = basic_input(PERMIT_ALL);
    input.principal = Some("BadFormat".to_string());
    assert_error_arm(&authorize(input));
}

#[test]
fn bad_principal_short_circuits_the_pipeline() {
    let mut input = basic_input(PERMIT_ALL);
    input.principal = Some("BadFormat".to_string());
    input.action = Some("AlsoBad".to_string());
    input.context = "not an object".to_string();
    let e = authorize_helper(input).expect_err("error arm expected");
    assert!(e.stage == ParseStage::Principal);
    assert!(!e.message.is_empty());
}

#[test]
fn malformed_identifiers_are_errors() {
    for bad in ["NoSeparator", "::\"x\"", "User::", "User::\"unterminated", "::"] {
        let mut input = basic_input(PERMIT_ALL);
        input.resource = Some(bad.to_string());
        assert_error_arm(&authorize(input));
    }
}

#[test]
fn context_must_be_a_json_object() {
    let mut input = basic_input(PERMIT_ALL);
    input.context = "[]".to_string();
    let e = authorize_helper(input).expect_err("error arm expected");
    assert!(e.stage == ParseStage::Context);
}

#[test]
fn bad_policy_syntax_is_an_error() {
    let e = authorize_helper(basic_input("permit(")).expect_err("error arm expected");
    assert!(e.stage == ParseStage::PolicySet);
    assert_error_arm(&authorize(basic_input("permit(")));
}

#[test]
fn schema_that_is_not_json_is_an_error() {
    let mut input = basic_input(PERMIT_ALL);
    input.schema = Some("not json".to_string());
    let e = authorize_helper(input).expect_err("error arm expected");
    assert!(e.stage == ParseStage::Schema);
}

#[test]
fn schema_of_the_wrong_shape_is_an_error() {
    let mut input = basic_input(PERMIT_ALL);
    input.schema = Some("[]".to_string());
    let e = authorize_helper(input).expect_err("error arm expected");
    assert!(e.stage == ParseStage::Schema);
}

#[test]
fn exactly_one_arm_is_populated() {
    let mut bad_entities = basic_input(PERMIT_ALL);
    bad_entities.entities = "not-json".to_string();
    let mut bad_principal = basic_input("");
    bad_principal.principal = Some("BadFormat".to_string());
    let unconstrained = AuthorizeInput::new(
        None,
        None,
        None,
        "{}".to_string(),
        "".to_string(),
        "[]".to_string(),
        None,
    );
    for input in [basic_input(PERMIT_ALL), basic_input(""), bad_entities, bad_principal,
        unconstrained] {
        let out = authorize(input);
        assert!(out.response.is_some() != out.error.is_some());
    }
}

#[test]
fn decision_is_one_of_the_two_literals() {
    for policy_set in [PERMIT_ALL, ""] {
        let out = authorize(basic_input(policy_set));
        let decision = out.response.expect("success arm expected").decision;
        assert!(decision == "ALLOW" || decision == "DENY");
    }
}

#[test]
fn unconstrained_query_still_gets_a_decision() {
    let input = AuthorizeInput::new(
        None,
        None,
        None,
        "{}".to_string(),
        PERMIT_ALL.to_string(),
        "[]".to_string(),
        None,
    );
    let out = authorize(input);
    assert!(out.error.is_none());
    assert!(out.response.is_some());
}

#[test]
fn verdict_maps_to_decision_text() {
    let allow = AuthorizeOutputResponse::from_response(Verdict {
        allow: true,
        reasons: vec!["policy0".to_string()],
        diagnostics: "d".to_string(),
    });
    assert_eq!(allow.decision, "ALLOW");
    assert_eq!(allow.diagnostics, "d");
    let deny = AuthorizeOutputResponse::from_response(Verdict {
        allow: false,
        reasons: vec![],
        diagnostics: "e".to_string(),
    });
    assert_eq!(deny.decision, "DENY");
    assert_eq!(deny.diagnostics, "e");
}

#[test]
fn constructor_keeps_every_field() {
    let input = AuthorizeInput::new(
        Some("User::\"alice\"".to_string()),
        None,
        Some("Photo::\"1\"".to_string()),
        "{}".to_string(),
        "p".to_string(),
        "[]".to_string(),
        Some("{}".to_string()),
    );
    assert_eq!(input.principal.as_deref(), Some("User::\"alice\""));
    assert_eq!(input.action, None);
    assert_eq!(input.resource.as_deref(), Some("Photo::\"1\""));
    assert_eq!(input.context, "{}");
    assert_eq!(input.policy_set, "p");
    assert_eq!(input.entities, "[]");
    assert_eq!(input.schema.as_deref(), Some("{}"));
}
