//! The trusted boundary to the Cedar evaluation engine and to the JSON
//! reader.
//!
//! Every function here is `external_body`: its body makes exactly the outside
//! call named in its doc comment, and its contract states what the outside
//! source shows of that call. The `uninterp` spec functions give names to
//! what the outside parsers decide and to the values they return — each is a
//! function of its arguments alone. Nothing in this crate claims to know
//! those decisions on particular texts beyond the few facts stated below.

use vstd::prelude::*;

verus! {

#[verifier::external_type_specification]
#[verifier::external_body]
pub struct ExEntityUid(cedar_policy::EntityUid);

#[verifier::external_type_specification]
#[verifier::external_body]
pub struct ExContext(cedar_policy::Context);

#[verifier::external_type_specification]
#[verifier::external_body]
pub struct ExPolicySet(cedar_policy::PolicySet);

#[verifier::external_type_specification]
#[verifier::external_body]
pub struct ExSchema(cedar_policy::Schema);

#[verifier::external_type_specification]
#[verifier::external_body]
pub struct ExEntities(cedar_policy::Entities);

#[verifier::external_type_specification]
#[verifier::external_body]
pub struct ExRequest(cedar_policy::Request);

#[verifier::external_type_specification]
#[verifier::external_body]
pub struct ExAuthorizer(cedar_policy::Authorizer);

#[verifier::external_type_specification]
#[verifier::external_body]
pub struct ExJsonValue(serde_json::Value);

/// Whether Cedar's entity-reference parser accepts the text as a
/// `Type::"id"` reference; a function of the text alone. The reference
/// grammar is the engine's own: it accepts, for instance, an empty quoted
/// identifier, so no non-emptiness of the parts is assumed here.
pub uninterp spec fn uid_parses(s: Seq<char>) -> bool;

/// The entity reference the parser returns; meaningful where `uid_parses`
/// holds.
pub uninterp spec fn uid_of(s: Seq<char>) -> cedar_policy::EntityUid;

/// Whether Cedar's context parser, run without a schema, accepts the text
/// as a JSON object of attribute values; a function of the text alone.
pub uninterp spec fn context_parses(s: Seq<char>) -> bool;

/// The context the parser returns; meaningful where `context_parses` holds.
pub uninterp spec fn context_of(s: Seq<char>) -> cedar_policy::Context;

/// Whether Cedar's policy parser accepts the text as policy-set source;
/// a function of the text alone.
pub uninterp spec fn policy_set_parses(s: Seq<char>) -> bool;

/// The policy set the parser returns; meaningful where `policy_set_parses`
/// holds.
pub uninterp spec fn policy_set_of(s: Seq<char>) -> cedar_policy::PolicySet;

/// The identifiers of the policies a parsed policy set holds.
pub uninterp spec fn policy_ids(ps: cedar_policy::PolicySet) -> Set<Seq<char>>;

/// Whether the text is well-formed JSON; a function of the text alone.
pub uninterp spec fn json_parses(s: Seq<char>) -> bool;

/// The JSON value the reader returns; meaningful where `json_parses` holds.
pub uninterp spec fn json_value_of(s: Seq<char>) -> serde_json::Value;

/// Whether the JSON value satisfies the schema-description shape; a
/// function of the value alone.
pub uninterp spec fn schema_ok(v: serde_json::Value) -> bool;

/// The schema built from the JSON value; meaningful where `schema_ok`
/// holds.
pub uninterp spec fn schema_of(v: serde_json::Value) -> cedar_policy::Schema;

/// Whether Cedar's entity parser, run without a schema and so with
/// structural checks only, accepts the text as a JSON entity list;
/// a function of the text alone.
pub uninterp spec fn entities_wf(s: Seq<char>) -> bool;

/// Whether Cedar's entity parser, run with the given schema and so with
/// structural checks plus validation against it, accepts the text; a
/// function of the text and the schema alone.
pub uninterp spec fn entities_conform(s: Seq<char>, schema: cedar_policy::Schema) -> bool;

/// The entity store the parser returns, with or without a schema;
/// meaningful where the matching acceptance holds.
pub uninterp spec fn entities_of(s: Seq<char>, schema: Option<cedar_policy::Schema>) -> cedar_policy::Entities;

/// The request composed from the three optional entity references and the
/// context.
pub uninterp spec fn request_of(
    principal: Option<cedar_policy::EntityUid>,
    action: Option<cedar_policy::EntityUid>,
    resource: Option<cedar_policy::EntityUid>,
    context: cedar_policy::Context,
) -> cedar_policy::Request;

/// Whether the engine's decision on the query is Allow; a function of the
/// request, the policies and the entities alone, since every authorizer is
/// built with the same fixed configuration.
pub uninterp spec fn allow_of(
    request: cedar_policy::Request,
    policies: cedar_policy::PolicySet,
    entities: cedar_policy::Entities,
) -> bool;

/// The schema values an optional borrowed schema stands for.
pub open spec fn deref_schema(schema: Option<&cedar_policy::Schema>) -> Option<
    cedar_policy::Schema,
> {
    match schema {
        Some(sc) => Some(*sc),
        None => None,
    }
}

/// Relies on `<cedar_policy::EntityUid as FromStr>::from_str`: a pure
/// parser, so its outcome depends on the text alone; its error text is
/// never empty.
#[verifier::external_body]
pub(crate) fn parse_entity_uid(s: &str) -> (r: Result<cedar_policy::EntityUid, String>)
    ensures
        r is Ok <==> uid_parses(s@),
        r matches Ok(uid) ==> uid == uid_of(s@),
        r matches Err(m) ==> m@.len() > 0,
{
    match s.parse::<cedar_policy::EntityUid>() {
        Ok(uid) => Ok(uid),
        Err(e) => Err(e.to_string()),
    }
}

/// Relies on `cedar_policy::Context::from_json_str` called without a
/// schema: a pure parser, so its outcome depends on the text alone; its
/// error text is never empty.
#[verifier::external_body]
pub(crate) fn parse_context(s: &str) -> (r: Result<cedar_policy::Context, String>)
    ensures
        r is Ok <==> context_parses(s@),
        r matches Ok(c) ==> c == context_of(s@),
        r matches Err(m) ==> m@.len() > 0,
{
    match cedar_policy::Context::from_json_str(s, None) {
        Ok(c) => Ok(c),
        Err(e) => Err(e.to_string()),
    }
}

/// Relies on `<cedar_policy::PolicySet as FromStr>::from_str`: a pure
/// parser, so its outcome depends on the text alone; the empty text parses
/// to a policy set holding no policies; its error text is never empty.
#[verifier::external_body]
pub(crate) fn parse_policy_set(s: &str) -> (r: Result<cedar_policy::PolicySet, String>)
    ensures
        r is Ok <==> policy_set_parses(s@),
        r matches Ok(ps) ==> ps == policy_set_of(s@),
        s@.len() == 0 ==> r is Ok,
        s@.len() == 0 && r is Ok ==> policy_ids(r->Ok_0).is_empty(),
        r matches Err(m) ==> m@.len() > 0,
{
    match s.parse::<cedar_policy::PolicySet>() {
        Ok(ps) => Ok(ps),
        Err(e) => Err(e.to_string()),
    }
}

/// Relies on `serde_json::from_str::<serde_json::Value>`: a pure parser,
/// so its outcome depends on the text alone; its error text is never
/// empty.
#[verifier::external_body]
pub(crate) fn parse_json(s: &str) -> (r: Result<serde_json::Value, String>)
    ensures
        r is Ok <==> json_parses(s@),
        r matches Ok(v) ==> v == json_value_of(s@),
        r matches Err(m) ==> m@.len() > 0,
{
    match serde_json::from_str::<serde_json::Value>(s) {
        Ok(v) => Ok(v),
        Err(e) => Err(e.to_string()),
    }
}

/// Relies on `cedar_policy::Schema::from_json_value`: a pure translation,
/// so its outcome depends on the value alone; its error text is never
/// empty.
#[verifier::external_body]
pub(crate) fn schema_from_json(v: serde_json::Value) -> (r: Result<cedar_policy::Schema, String>)
    ensures
        r is Ok <==> schema_ok(v),
        r matches Ok(sc) ==> sc == schema_of(v),
        r matches Err(m) ==> m@.len() > 0,
{
    match cedar_policy::Schema::from_json_value(v) {
        Ok(schema) => Ok(schema),
        Err(e) => Err(e.to_string()),
    }
}

/// Relies on `cedar_policy::Entities::from_json_str`: a pure parser, so
/// its outcome depends on the text and the optional schema alone. With no
/// schema it runs structural checks only; with a schema it additionally
/// checks each entity against it. Its error text is never empty.
#[verifier::external_body]
pub(crate) fn parse_entities(s: &str, schema: Option<&cedar_policy::Schema>) -> (r: Result<
    cedar_policy::Entities,
    String,
>)
    ensures
        schema is None ==> (r is Ok <==> entities_wf(s@)),
        schema matches Some(sc) ==> (r is Ok <==> entities_conform(s@, *sc)),
        r matches Ok(es) ==> es == entities_of(s@, deref_schema(schema)),
        r matches Err(m) ==> m@.len() > 0,
{
    match cedar_policy::Entities::from_json_str(s, schema) {
        Ok(es) => Ok(es),
        Err(e) => Err(e.to_string()),
    }
}

/// Relies on `cedar_policy::Request::new`: pure composition of the three
/// optional entity references and the context; it cannot fail.
#[verifier::external_body]
pub(crate) fn new_request(
    principal: Option<cedar_policy::EntityUid>,
    action: Option<cedar_policy::EntityUid>,
    resource: Option<cedar_policy::EntityUid>,
    context: cedar_policy::Context,
) -> (r: cedar_policy::Request)
    ensures
        r == request_of(principal, action, resource, context),
{
    cedar_policy::Request::new(principal, action, resource, context)
}

/// Relies on `cedar_policy::Authorizer::new`: builds the engine with its
/// one fixed configuration.
#[verifier::external_body]
pub(crate) fn new_authorizer() -> cedar_policy::Authorizer {
    cedar_policy::Authorizer::new()
}

/// Relies on `cedar_policy::Authorizer::is_authorized`: it always returns
/// a response, never an error; the decision depends on the request, the
/// policies and the entities alone; and when the policy set holds no
/// policies no permit can be satisfied, so the decision is Deny and no
/// policy is reported as contributing to it.
#[verifier::external_body]
pub(crate) fn evaluate(
    authorizer: &cedar_policy::Authorizer,
    request: &cedar_policy::Request,
    policies: &cedar_policy::PolicySet,
    entities: &cedar_policy::Entities,
) -> (r: crate::Verdict)
    ensures
        r.allow == allow_of(*request, *policies, *entities),
        policy_ids(*policies).is_empty() ==> !r.allow && r.reasons@.len() == 0,
{
    let response = authorizer.is_authorized(request, policies, entities);
    let allow = matches!(response.decision(), cedar_policy::Decision::Allow);
    let reasons = response.diagnostics().reason().map(|id| id.to_string()).collect();
    let diagnostics = format!("{:?}", response.diagnostics());
    crate::Verdict { allow, reasons, diagnostics }
}

} // verus!
