//! The keyword classifier: an ordered list of case-insensitive substring
//! rules suggesting a taxonomy class for a free-text log line, paired with a
//! fixed field-mapping suggestion list.

use vstd::prelude::*;
use crate::errors::OcsfError;
use crate::json::{
    JsonValue, JsonModel, jv_model, list_model, fields_model, model_text, model_push,
    model_push_elem, render_json,
};
use crate::outside::lower_of;
use crate::text::contains_seq;

verus! {

#[derive(Debug)]
pub struct MapCustomRequest {
    pub sample_log: String,
    pub suggested_class: Option<String>,
}

#[derive(Debug)]
pub struct MappingRecommendation {
    pub suggested_event_class: String,
    pub confidence: String,
    pub field_mappings: Vec<FieldMapping>,
    pub explanation: String,
}

#[derive(Debug)]
pub struct FieldMapping {
    pub source_field: String,
    pub ocsf_field: String,
    pub transformation: Option<String>,
}

#[derive(Debug)]
pub struct ListExamplesRequest {
    pub event_class: String,
    pub scenario: Option<String>,
}

/// The rule table, evaluated first match wins on the lowercased sample.
pub open spec fn spec_classify(low: Seq<char>) -> Seq<char> {
    if contains_seq(low, "login"@) || contains_seq(low, "auth"@) {
        "authentication"@
    } else if contains_seq(low, "process"@) || contains_seq(low, "exec"@) {
        "process_activity"@
    } else if contains_seq(low, "network"@) || contains_seq(low, "connection"@) {
        "network_activity"@
    } else if contains_seq(low, "file"@) || contains_seq(low, "path"@) {
        "file_activity"@
    } else {
        "unknown"@
    }
}

/// The class a request maps to: a caller's hint is trusted verbatim, else
/// the rule table decides.
pub open spec fn suggested_class_of(req: MapCustomRequest) -> Seq<char> {
    match req.suggested_class {
        Some(s) => s@,
        None => spec_classify(lower_of(req.sample_log@)),
    }
}

/// The fixed explanation text around the suggested class.
pub open spec fn explanation_of(class: Seq<char>) -> Seq<char> {
    "Based on log content analysis, suggested OCSF event class is '"@ + class
        + "'. Map your fields to OCSF attributes for standardization. Confidence is medium - please review and adjust as needed."@
}

/// One row of the static field-mapping list.
pub open spec fn mapping_model(
    source: Seq<char>,
    ocsf: Seq<char>,
    transformation: Option<Seq<char>>,
) -> JsonModel {
    JsonModel::Obj(
        seq![
            ("source_field"@, JsonModel::Text(source)),
            ("ocsf_field"@, JsonModel::Text(ocsf)),
            (
                "transformation"@,
                match transformation {
                    Some(t) => JsonModel::Text(t),
                    None => JsonModel::Null,
                },
            ),
        ],
    )
}

/// The static, input-independent field-mapping list.
pub open spec fn static_mappings_model() -> Seq<JsonModel> {
    seq![
        mapping_model("timestamp"@, "time"@, Some("Convert to ISO 8601 format"@)),
        mapping_model("username"@, "user.name"@, None),
        mapping_model("user_id"@, "user.uid"@, None),
    ]
}

/// The whole recommendation document for a suggested class: the confidence
/// is always `medium` and the mapping list is static.
pub open spec fn recommendation_model(class: Seq<char>) -> JsonModel {
    JsonModel::Obj(
        seq![
            ("suggested_event_class"@, JsonModel::Text(class)),
            ("confidence"@, JsonModel::Text("medium"@)),
            ("field_mappings"@, JsonModel::Arr(static_mappings_model())),
            ("explanation"@, JsonModel::Text(explanation_of(class))),
        ],
    )
}

/// Classifies a sample log line by the rule table.
fn classify(sample: &str) -> (r: String)
    ensures
        r@ == spec_classify(lower_of(sample@)),
{
    let low = crate::outside::to_lower(sample);
    let l = low.as_str();
    if crate::text::str_contains(l, "login") || crate::text::str_contains(l, "auth") {
        String::from_str("authentication")
    } else if crate::text::str_contains(l, "process") || crate::text::str_contains(l, "exec") {
        String::from_str("process_activity")
    } else if crate::text::str_contains(l, "network") || crate::text::str_contains(
        l,
        "connection",
    ) {
        String::from_str("network_activity")
    } else if crate::text::str_contains(l, "file") || crate::text::str_contains(l, "path") {
        String::from_str("file_activity")
    } else {
        String::from_str("unknown")
    }
}

fn field_mapping(source: &str, ocsf: &str, transformation: Option<&str>) -> (r: FieldMapping)
    ensures
        r.source_field@ == source@,
        r.ocsf_field@ == ocsf@,
        match transformation {
            Some(t) => match r.transformation {
                Some(rt) => rt@ == t@,
                None => false,
            },
            None => r.transformation is None,
        },
{
    FieldMapping {
        source_field: source.to_owned(),
        ocsf_field: ocsf.to_owned(),
        transformation: match transformation {
            Some(t) => Some(t.to_owned()),
            None => None,
        },
    }
}

fn mapping_value(m: &FieldMapping) -> (r: JsonValue)
    ensures
        jv_model(r) == mapping_model(
            m.source_field@,
            m.ocsf_field@,
            match m.transformation {
                Some(t) => Some(t@),
                None => None,
            },
        ),
{
    let mut f: Vec<(String, JsonValue)> = Vec::new();
    proof {
        assert(fields_model(f@) =~= Seq::<(Seq<char>, JsonModel)>::empty());
    }
    model_push(&mut f, "source_field", JsonValue::Text(m.source_field.clone()));
    model_push(&mut f, "ocsf_field", JsonValue::Text(m.ocsf_field.clone()));
    model_push(
        &mut f,
        "transformation",
        match &m.transformation {
            Some(t) => JsonValue::Text(t.clone()),
            None => JsonValue::Null,
        },
    );
    let r = JsonValue::Obj(f);
    proof {
        assert(fields_model(f@) =~= mapping_model(
            m.source_field@,
            m.ocsf_field@,
            match m.transformation {
                Some(t) => Some(t@),
                None => None,
            },
        )->Obj_0);
    }
    r
}

/// Builds the recommendation document and serializes it: the suggested
/// class comes from the caller's hint or the rule table, the confidence is
/// always `medium`.
pub fn map_custom_to_ocsf(request: MapCustomRequest) -> (r: String)
    ensures
        r@ == model_text(recommendation_model(suggested_class_of(request)), Seq::<char>::empty()),
{
    let ghost req = request;
    let event_class = match request.suggested_class {
        Some(s) => s,
        None => classify(request.sample_log.as_str()),
    };
    proof {
        assert(event_class@ == suggested_class_of(req));
    }
    let mut explanation = String::from_str(
        "Based on log content analysis, suggested OCSF event class is '",
    );
    explanation.append(event_class.as_str());
    explanation.append(
        "'. Map your fields to OCSF attributes for standardization. Confidence is medium - please review and adjust as needed.",
    );
    let recommendation = MappingRecommendation {
        suggested_event_class: event_class,
        confidence: String::from_str("medium"),
        field_mappings: vec![
            field_mapping("timestamp", "time", Some("Convert to ISO 8601 format")),
            field_mapping("username", "user.name", None),
            field_mapping("user_id", "user.uid", None),
        ],
        explanation,
    };
    let mut mappings: Vec<JsonValue> = Vec::new();
    proof {
        assert(list_model(mappings@) =~= Seq::<JsonModel>::empty());
    }
    model_push_elem(&mut mappings, mapping_value(&recommendation.field_mappings[0]));
    model_push_elem(&mut mappings, mapping_value(&recommendation.field_mappings[1]));
    model_push_elem(&mut mappings, mapping_value(&recommendation.field_mappings[2]));
    proof {
        assert(list_model(mappings@) =~= static_mappings_model());
    }
    let mut f: Vec<(String, JsonValue)> = Vec::new();
    proof {
        assert(fields_model(f@) =~= Seq::<(Seq<char>, JsonModel)>::empty());
    }
    model_push(
        &mut f,
        "suggested_event_class",
        JsonValue::Text(recommendation.suggested_event_class),
    );
    model_push(&mut f, "confidence", JsonValue::Text(recommendation.confidence));
    model_push(&mut f, "field_mappings", JsonValue::Arr(mappings));
    model_push(&mut f, "explanation", JsonValue::Text(recommendation.explanation));
    let v = JsonValue::Obj(f);
    proof {
        assert(fields_model(f@) =~= recommendation_model(suggested_class_of(req))->Obj_0);
    }
    render_json(&v)
}

/// One canned example as a response document.
pub open spec fn example_model(
    class: Seq<char>,
    scenario: Seq<char>,
    description: Seq<char>,
    json: Seq<char>,
) -> JsonModel {
    JsonModel::Obj(
        seq![
            ("event_class"@, JsonModel::Text(class)),
            ("scenario"@, JsonModel::Text(scenario)),
            ("description"@, JsonModel::Text(description)),
            ("json"@, JsonModel::Text(json)),
        ],
    )
}

/// Does the request accept this scenario? No scenario filter accepts all.
pub open spec fn wants_scenario(scenario: Option<String>, name: Seq<char>) -> bool {
    match scenario {
        Some(s) => s@ == name,
        None => true,
    }
}

/// The examples a request lists, in emission order; `None` when the class
/// has no examples at all.
pub open spec fn example_list_model(req: ListExamplesRequest) -> Option<Seq<JsonModel>> {
    if req.event_class@ == "authentication"@ {
        Some(
            (if wants_scenario(req.scenario, "failed_login"@) {
                seq![
                    example_model(
                        "authentication"@,
                        "failed_login"@,
                        "Failed login attempt with invalid credentials"@,
                        crate::event::auth_failure_json(),
                    ),
                ]
            } else {
                Seq::<JsonModel>::empty()
            }) + (if wants_scenario(req.scenario, "successful_login"@) {
                seq![
                    example_model(
                        "authentication"@,
                        "successful_login"@,
                        "User successfully logged in using OAuth2"@,
                        crate::event::auth_success_json(),
                    ),
                ]
            } else {
                Seq::<JsonModel>::empty()
            }),
        )
    } else if req.event_class@ == "process_activity"@ {
        Some(
            if wants_scenario(req.scenario, "process_start"@) {
                seq![
                    example_model(
                        "process_activity"@,
                        "process_start"@,
                        "Process started by systemd"@,
                        crate::event::process_start_json(),
                    ),
                ]
            } else {
                Seq::<JsonModel>::empty()
            },
        )
    } else {
        None
    }
}

fn example_value(e: &crate::event::EventExample) -> (r: JsonValue)
    ensures
        jv_model(r) == example_model(e.event_class@, e.scenario@, e.description@, e.json@),
{
    let mut f: Vec<(String, JsonValue)> = Vec::new();
    proof {
        assert(fields_model(f@) =~= Seq::<(Seq<char>, JsonModel)>::empty());
    }
    model_push(&mut f, "event_class", JsonValue::Text(e.event_class.clone()));
    model_push(&mut f, "scenario", JsonValue::Text(e.scenario.clone()));
    model_push(&mut f, "description", JsonValue::Text(e.description.clone()));
    model_push(&mut f, "json", JsonValue::Text(e.json.clone()));
    let r = JsonValue::Obj(f);
    proof {
        assert(fields_model(f@) =~= example_model(
            e.event_class@,
            e.scenario@,
            e.description@,
            e.json@,
        )->Obj_0);
    }
    r
}

/// Does the request accept this scenario name?
fn scenario_accepts(scenario: &Option<String>, name: &str) -> (r: bool)
    ensures
        r == wants_scenario(*scenario, name@),
{
    match scenario {
        Some(s) => crate::text::str_eq(s.as_str(), name),
        None => true,
    }
}

/// Lists the canned examples for an event class, optionally narrowed to one
/// scenario; a class without examples is an error.
pub fn list_event_examples(request: ListExamplesRequest) -> (r: Result<String, OcsfError>)
    ensures
        match r {
            Ok(s) => match example_list_model(request) {
                Some(ms) => s@ == model_text(JsonModel::Arr(ms), Seq::<char>::empty()),
                None => false,
            },
            Err(e) => e == OcsfError::NoExamples && example_list_model(request) is None,
        },
{
    let ghost req = request;
    let mut examples: Vec<JsonValue> = Vec::new();
    proof {
        assert(list_model(examples@) =~= Seq::<JsonModel>::empty());
    }
    if crate::text::str_eq(request.event_class.as_str(), "authentication") {
        if scenario_accepts(&request.scenario, "failed_login") {
            let e = crate::event::EventExample::authentication_failure();
            model_push_elem(&mut examples, example_value(&e));
        }
        if scenario_accepts(&request.scenario, "successful_login") {
            let e = crate::event::EventExample::authentication_success();
            model_push_elem(&mut examples, example_value(&e));
        }
        proof {
            assert(list_model(examples@) =~= example_list_model(req)->Some_0);
        }
    } else if crate::text::str_eq(request.event_class.as_str(), "process_activity") {
        if scenario_accepts(&request.scenario, "process_start") {
            let e = crate::event::EventExample::process_start();
            model_push_elem(&mut examples, example_value(&e));
        }
        proof {
            assert(list_model(examples@) =~= example_list_model(req)->Some_0);
        }
    } else {
        return Err(OcsfError::NoExamples);
    }
    let v = JsonValue::Arr(examples);
    Ok(render_json(&v))
}

} // verus!
