//! Validation-and-dispatch boundary for a single Cedar authorization query.
//!
//! A caller hands over raw text: optional principal, action and resource
//! references, a context, policy-set source, an entity list and an optional
//! schema. The pipeline parses each in a fixed order, stops at the first
//! failure, submits the assembled query to the Cedar engine otherwise, and
//! returns exactly one of a normalized decision or an error message.

use vstd::prelude::*;

pub mod engine;

verus! {

/// The raw, caller-supplied texts of one authorization query. An absent
/// identifier field means "no constraint on this component" and is distinct
/// from a present but malformed one.
pub struct AuthorizeInput {
    pub principal: Option<String>,
    pub action: Option<String>,
    pub resource: Option<String>,
    pub context: String,
    pub policy_set: String,
    pub entities: String,
    pub schema: Option<String>,
}

impl AuthorizeInput {
    pub fn new(
        principal: Option<String>,
        action: Option<String>,
        resource: Option<String>,
        context: String,
        policy_set: String,
        entities: String,
        schema: Option<String>,
    ) -> (r: Self)
        ensures
            r.principal == principal,
            r.action == action,
            r.resource == resource,
            r.context == context,
            r.policy_set == policy_set,
            r.entities == entities,
            r.schema == schema,
    {
        Self { principal, action, resource, context, policy_set, entities, schema }
    }
}

/// The pipeline stage at which a query was rejected, in the order the
/// stages run.
#[derive(Clone, Copy, Debug, PartialEq, Eq, Structural)]
pub enum ParseStage {
    Principal,
    Action,
    Resource,
    Context,
    PolicySet,
    Schema,
    Entities,
}

/// A rejected query: the stage that rejected it and the engine's message.
#[derive(Clone, Debug)]
pub struct PipelineError {
    pub stage: ParseStage,
    pub message: String,
}

/// What the engine decided: whether access is allowed, which policies
/// contributed to the decision, and the engine's textual diagnostics.
#[derive(Clone, Debug)]
pub struct Verdict {
    pub allow: bool,
    pub reasons: Vec<String>,
    pub diagnostics: String,
}

/// The success arm of the caller-facing result: the decision as one of the
/// two literal texts `"ALLOW"` and `"DENY"`, and the engine's diagnostics.
#[derive(Clone, Debug)]
pub struct AuthorizeOutputResponse {
    pub decision: String,
    pub diagnostics: String,
}

/// The caller-facing result. Exactly one of the two fields is populated:
/// `response` on success, `error` with the first failing stage's message
/// otherwise.
#[derive(Clone, Debug)]
pub struct AuthorizeOutput {
    pub response: Option<AuthorizeOutputResponse>,
    pub error: Option<String>,
}

/// An absent identifier field is no constraint; a present one must be a
/// well-formed entity reference.
pub open spec fn uid_field_ok(field: Option<String>) -> bool {
    match field {
        Some(s) => engine::uid_parses(s@),
        None => true,
    }
}

/// The same, for the borrowed form the request builder takes.
pub open spec fn uid_opt_ok(field: Option<&str>) -> bool {
    match field {
        Some(s) => engine::uid_parses(s@),
        None => true,
    }
}

/// The parsed entity references an input's identifier fields stand for;
/// meaningful where each present field parses.
pub open spec fn parsed_uid_field(field: Option<String>) -> Option<cedar_policy::EntityUid> {
    match field {
        Some(s) => Some(engine::uid_of(s@)),
        None => None,
    }
}

/// The same, for the borrowed form the request builder takes.
pub open spec fn parsed_uid_opt(field: Option<&str>) -> Option<cedar_policy::EntityUid> {
    match field {
        Some(s) => Some(engine::uid_of(s@)),
        None => None,
    }
}

/// An absent schema field is no constraint; a present one must be
/// well-formed JSON that satisfies the schema-description shape.
pub open spec fn schema_field_ok(field: Option<String>) -> bool {
    match field {
        Some(s) => engine::json_parses(s@) && engine::schema_ok(engine::json_value_of(s@)),
        None => true,
    }
}

/// The schema an input's schema field stands for; meaningful where
/// `schema_field_ok` holds.
pub open spec fn parsed_schema_field(field: Option<String>) -> Option<cedar_policy::Schema> {
    match field {
        Some(s) => Some(engine::schema_of(engine::json_value_of(s@))),
        None => None,
    }
}

/// Whether the entity stage accepts the input: structural checks only when
/// no schema is supplied, structural checks plus validation against the
/// supplied schema otherwise.
pub open spec fn entities_stage_ok(input: AuthorizeInput) -> bool {
    match input.schema {
        Some(s) => engine::entities_conform(
            input.entities@,
            engine::schema_of(engine::json_value_of(s@)),
        ),
        None => engine::entities_wf(input.entities@),
    }
}

/// The request the pipeline assembles from the input; meaningful where the
/// identifier and context stages accept it.
pub open spec fn parsed_request(input: AuthorizeInput) -> cedar_policy::Request {
    engine::request_of(
        parsed_uid_field(input.principal),
        parsed_uid_field(input.action),
        parsed_uid_field(input.resource),
        engine::context_of(input.context@),
    )
}

/// Whether the engine allows the query the input describes; meaningful
/// where every stage accepts it.
pub open spec fn decision_allows(input: AuthorizeInput) -> bool {
    engine::allow_of(
        parsed_request(input),
        engine::policy_set_of(input.policy_set@),
        engine::entities_of(input.entities@, parsed_schema_field(input.schema)),
    )
}

/// The first stage of the request builder that fails on these inputs, if
/// any, in the order they are tried: principal, action, resource, context.
pub open spec fn request_failure(
    principal: Option<&str>,
    action: Option<&str>,
    resource: Option<&str>,
    context: &str,
) -> Option<ParseStage> {
    if !uid_opt_ok(principal) {
        Some(ParseStage::Principal)
    } else if !uid_opt_ok(action) {
        Some(ParseStage::Action)
    } else if !uid_opt_ok(resource) {
        Some(ParseStage::Resource)
    } else if !engine::context_parses(context@) {
        Some(ParseStage::Context)
    } else {
        None
    }
}

/// The first pipeline stage that rejects this query, if any, in the order
/// the stages run. Every stage is a pure function of the input: the
/// pipeline fails exactly when this is `Some`, and then at this stage.
pub open spec fn first_failure(input: AuthorizeInput) -> Option<ParseStage> {
    if !uid_field_ok(input.principal) {
        Some(ParseStage::Principal)
    } else if !uid_field_ok(input.action) {
        Some(ParseStage::Action)
    } else if !uid_field_ok(input.resource) {
        Some(ParseStage::Resource)
    } else if !engine::context_parses(input.context@) {
        Some(ParseStage::Context)
    } else if !engine::policy_set_parses(input.policy_set@) {
        Some(ParseStage::PolicySet)
    } else if !schema_field_ok(input.schema) {
        Some(ParseStage::Schema)
    } else if !entities_stage_ok(input) {
        Some(ParseStage::Entities)
    } else {
        None
    }
}

/// Composes the optional principal, action and resource references and the
/// context into one typed request. The four parts are tried left to right
/// and the first failure aborts the composition; the composition itself
/// cannot fail once all four parts have parsed.
pub fn build_request(
    principal: Option<&str>,
    action: Option<&str>,
    resource: Option<&str>,
    context: &str,
) -> (r: Result<cedar_policy::Request, PipelineError>)
    ensures
        r is Ok <==> request_failure(principal, action, resource, context) is None,
        r matches Ok(req) ==> req == engine::request_of(
            parsed_uid_opt(principal),
            parsed_uid_opt(action),
            parsed_uid_opt(resource),
            engine::context_of(context@),
        ),
        r matches Err(e) ==> request_failure(principal, action, resource, context) == Some(
            e.stage,
        ) && e.message@.len() > 0,
{
    let p = match principal {
        Some(s) => match engine::parse_entity_uid(s) {
            Ok(uid) => Some(uid),
            Err(message) => {
                return Err(PipelineError { stage: ParseStage::Principal, message });
            },
        },
        None => None,
    };
    let a = match action {
        Some(s) => match engine::parse_entity_uid(s) {
            Ok(uid) => Some(uid),
            Err(message) => {
                return Err(PipelineError { stage: ParseStage::Action, message });
            },
        },
        None => None,
    };
    let r = match resource {
        Some(s) => match engine::parse_entity_uid(s) {
            Ok(uid) => Some(uid),
            Err(message) => {
                return Err(PipelineError { stage: ParseStage::Resource, message });
            },
        },
        None => None,
    };
    let c = match engine::parse_context(context) {
        Ok(c) => c,
        Err(message) => {
            return Err(PipelineError { stage: ParseStage::Context, message });
        },
    };
    Ok(engine::new_request(p, a, r, c))
}

/// Turns schema text into a typed schema: it succeeds exactly when the
/// text is JSON satisfying the schema-description shape, and then returns
/// the schema that JSON describes.
pub fn build_schema(s: &str) -> (r: Result<cedar_policy::Schema, PipelineError>)
    ensures
        r is Ok <==> (engine::json_parses(s@) && engine::schema_ok(engine::json_value_of(s@))),
        r matches Ok(sc) ==> sc == engine::schema_of(engine::json_value_of(s@)),
        r matches Err(e) ==> e.stage == ParseStage::Schema && e.message@.len() > 0,
{
    let json = match engine::parse_json(s) {
        Ok(v) => v,
        Err(message) => {
            return Err(PipelineError { stage: ParseStage::Schema, message });
        },
    };
    match engine::schema_from_json(json) {
        Ok(schema) => Ok(schema),
        Err(message) => Err(PipelineError { stage: ParseStage::Schema, message }),
    }
}

/// Runs the whole pipeline: parses every part of the query in order,
/// stopping at the first failure, and hands the assembled query to the
/// engine, whose verdict it returns. It succeeds exactly when every stage
/// accepts its part, the error names the first failing stage with that
/// stage's message, and a verdict's decision is the engine's on the
/// parsed values.
pub fn authorize_helper(input: AuthorizeInput) -> (r: Result<Verdict, PipelineError>)
    ensures
        r is Ok <==> first_failure(input) is None,
        r matches Err(e) ==> first_failure(input) == Some(e.stage) && e.message@.len() > 0,
        r matches Ok(v) ==> v.allow == decision_allows(input),
        engine::policy_ids(engine::policy_set_of(input.policy_set@)).is_empty() ==> (
        r matches Ok(v) ==> (!v.allow && v.reasons@.len() == 0)),
        input.policy_set@.len() == 0 ==> (r matches Ok(v) ==> (!v.allow && v.reasons@.len()
            == 0)),
{
    let principal: Option<&str> = match &input.principal {
        Some(s) => Some(s.as_str()),
        None => None,
    };
    let action: Option<&str> = match &input.action {
        Some(s) => Some(s.as_str()),
        None => None,
    };
    let resource: Option<&str> = match &input.resource {
        Some(s) => Some(s.as_str()),
        None => None,
    };
    let request = match build_request(principal, action, resource, input.context.as_str()) {
        Ok(q) => q,
        Err(e) => {
            return Err(e);
        },
    };
    let policies = match engine::parse_policy_set(input.policy_set.as_str()) {
        Ok(ps) => ps,
        Err(message) => {
            return Err(PipelineError { stage: ParseStage::PolicySet, message });
        },
    };
    let schema = match &input.schema {
        Some(s) => match build_schema(s.as_str()) {
            Ok(schema) => Some(schema),
            Err(e) => {
                return Err(e);
            },
        },
        None => None,
    };
    let entities = match engine::parse_entities(input.entities.as_str(), schema.as_ref()) {
        Ok(es) => es,
        Err(message) => {
            return Err(PipelineError { stage: ParseStage::Entities, message });
        },
    };
    let authorizer = engine::new_authorizer();
    Ok(engine::evaluate(&authorizer, &request, &policies, &entities))
}

impl AuthorizeOutputResponse {
    /// The decision text is `"ALLOW"` exactly when the verdict allows, and
    /// `"DENY"` otherwise; the diagnostics text is the engine's.
    pub fn from_response(v: Verdict) -> (r: Self)
        ensures
            v.allow ==> r.decision@ == "ALLOW"@,
            !v.allow ==> r.decision@ == "DENY"@,
            r.diagnostics == v.diagnostics,
    {
        let decision = if v.allow {
            "ALLOW".to_string()
        } else {
            "DENY".to_string()
        };
        Self { decision, diagnostics: v.diagnostics }
    }
}

/// The sole boundary operation: runs the pipeline on one query and wraps
/// its outcome. Exactly one of `response` and `error` is populated: the
/// response exactly when every stage accepts its part of the input, the
/// first failing stage's message (never empty) otherwise. A populated
/// response carries `"ALLOW"` exactly when the engine allows the parsed
/// query and `"DENY"` otherwise; when the policy set holds no policies —
/// in particular when its source text is empty — the decision is `"DENY"`,
/// since no policy can permit anything.
pub fn authorize(input: AuthorizeInput) -> (out: AuthorizeOutput)
    ensures
        out.response is Some <==> out.error is None,
        out.response is Some <==> first_failure(input) is None,
        out.error matches Some(m) ==> m@.len() > 0,
        out.response matches Some(r) ==> (r.decision@ == "ALLOW"@ || r.decision@ == "DENY"@),
        out.response matches Some(r) ==> r.decision@ == (if decision_allows(input) {
            "ALLOW"@
        } else {
            "DENY"@
        }),
        engine::policy_ids(engine::policy_set_of(input.policy_set@)).is_empty() ==> (
        out.response matches Some(r) ==> r.decision@ == "DENY"@),
        input.policy_set@.len() == 0 ==> (out.response matches Some(r) ==> r.decision@
            == "DENY"@),
{
    match authorize_helper(input) {
        Ok(v) => AuthorizeOutput {
            response: Some(AuthorizeOutputResponse::from_response(v)),
            error: None,
        },
        Err(e) => AuthorizeOutput { response: None, error: Some(e.message) },
    }
}

} // verus!
