//! The validation operation: runs the structural check and serializes its
//! report as a JSON response document.

use vstd::prelude::*;
use crate::errors::OcsfError;
use crate::json::{
    JsonValue, JsonModel, jv_model, list_model, fields_model, model_text, model_push,
    model_push_elem, render_json,
};
use crate::outside::json_doc_of;
use crate::validation::{
    ValidationError, ErrorType, validate_event, expected_error_fields,
    validation_message, captured_class, expected_summary, report_matches,
};

verus! {

#[derive(Debug)]
pub struct ValidateEventRequest {
    pub event_json: String,
}

/// One reported error as a response document.
pub open spec fn error_model(field: Seq<char>) -> JsonModel {
    JsonModel::Obj(
        seq![
            ("field"@, JsonModel::Text(field)),
            ("message"@, JsonModel::Text(validation_message(field))),
            ("error_type"@, JsonModel::Text("MissingRequired"@)),
        ],
    )
}

/// The whole report as a response document, determined by the parsed event.
pub open spec fn report_model(doc: JsonValue) -> JsonModel {
    JsonModel::Obj(
        seq![
            ("is_valid"@, JsonModel::Bool(expected_error_fields(doc).len() == 0)),
            (
                "errors"@,
                JsonModel::Arr(
                    expected_error_fields(doc).map_values(|f: Seq<char>| error_model(f)),
                ),
            ),
            ("warnings"@, JsonModel::Arr(Seq::<JsonModel>::empty())),
            (
                "event_class"@,
                match captured_class(doc) {
                    Some(t) => JsonModel::Text(t),
                    None => JsonModel::Null,
                },
            ),
            ("summary"@, JsonModel::Text(expected_summary(doc))),
        ],
    )
}

fn error_value(e: &ValidationError) -> (r: JsonValue)
    requires
        e.message@ == validation_message(e.field@),
        e.error_type == ErrorType::MissingRequired,
    ensures
        jv_model(r) == error_model(e.field@),
{
    let mut f: Vec<(String, JsonValue)> = Vec::new();
    proof {
        assert(fields_model(f@) =~= Seq::<(Seq<char>, JsonModel)>::empty());
    }
    model_push(&mut f, "field", JsonValue::Text(e.field.clone()));
    model_push(&mut f, "message", JsonValue::Text(e.message.clone()));
    model_push(
        &mut f,
        "error_type",
        JsonValue::Text(String::from_str("MissingRequired")),
    );
    let r = JsonValue::Obj(f);
    proof {
        assert(fields_model(f@) =~= error_model(e.field@)->Obj_0);
    }
    r
}

/// Runs the structural check and serializes the report; fails only when the
/// text is not JSON.
pub fn validate_ocsf_event(request: ValidateEventRequest) -> (r: Result<String, OcsfError>)
    ensures
        match r {
            Ok(s) => match json_doc_of(request.event_json@) {
                Some(doc) => s@ == model_text(report_model(doc), Seq::<char>::empty()),
                None => false,
            },
            Err(e) => e == OcsfError::InvalidEventJson && json_doc_of(request.event_json@)
                is None,
        },
{
    let rep = match validate_event(request.event_json.as_str()) {
        Ok(rep) => rep,
        Err(e) => {
            return Err(e);
        },
    };
    let ghost doc = json_doc_of(request.event_json@)->Some_0;
    let n = rep.errors.len();
    let mut errs: Vec<JsonValue> = Vec::new();
    let mut i: usize = 0;
    proof {
        assert(list_model(errs@) =~= Seq::<JsonModel>::empty());
        assert(rep.errors@.map_values(|e: ValidationError| e.field@).len() == n);
    }
    while i < n
        invariant
            i <= n,
            n == rep.errors@.len(),
            report_matches(rep, doc),
            expected_error_fields(doc) == rep.errors@.map_values(|e: ValidationError| e.field@),
            list_model(errs@) == expected_error_fields(doc).take(i as int).map_values(
                |f: Seq<char>| error_model(f),
            ),
        decreases n - i,
    {
        let ev = error_value(&rep.errors[i]);
        model_push_elem(&mut errs, ev);
        proof {
            assert(expected_error_fields(doc)[i as int] == rep.errors@[i as int].field@);
            assert(list_model(errs@) =~= expected_error_fields(doc).take(i + 1).map_values(
                |f: Seq<char>| error_model(f),
            ));
        }
        i = i + 1;
    }
    proof {
        assert(expected_error_fields(doc).take(n as int) =~= expected_error_fields(doc));
    }
    let mut f: Vec<(String, JsonValue)> = Vec::new();
    proof {
        assert(fields_model(f@) =~= Seq::<(Seq<char>, JsonModel)>::empty());
    }
    model_push(&mut f, "is_valid", JsonValue::Bool(rep.is_valid));
    model_push(&mut f, "errors", JsonValue::Arr(errs));
    model_push(&mut f, "warnings", JsonValue::Arr(Vec::new()));
    model_push(
        &mut f,
        "event_class",
        match &rep.event_class {
            Some(c) => JsonValue::Text(c.clone()),
            None => JsonValue::Null,
        },
    );
    model_push(&mut f, "summary", JsonValue::Text(rep.summary.clone()));
    let v = JsonValue::Obj(f);
    proof {
        assert(list_model(Seq::<JsonValue>::empty()) == Seq::<JsonModel>::empty());
        assert(fields_model(f@) =~= report_model(doc)->Obj_0);
    }
    Ok(render_json(&v))
}

} // verus!
