//! The minimal structural check of an event document: a fixed contract on
//! `metadata`, `metadata.event_class`, `metadata.version` and `time`, and
//! nothing more. An invalid document is a successful result whose report
//! says so.

use vstd::prelude::*;
use crate::errors::OcsfError;
use crate::json::{JsonValue, obj_lookup};
use crate::outside::json_doc_of;
use crate::text::dec_str;

verus! {

#[derive(Debug)]
pub struct ValidationReport {
    pub is_valid: bool,
    pub errors: Vec<ValidationError>,
    pub warnings: Vec<ValidationWarning>,
    pub event_class: Option<String>,
    pub summary: String,
}

#[derive(Debug)]
pub struct ValidationError {
    pub field: String,
    pub message: String,
    pub error_type: ErrorType,
}

/// The error taxonomy. Only `MissingRequired` is produced today; the other
/// kinds exist in the taxonomy without a producer.
#[derive(Debug, Clone, Copy, PartialEq, Eq, Structural)]
pub enum ErrorType {
    MissingRequired,
    InvalidType,
    InvalidValue,
    UnknownField,
}

#[derive(Debug)]
pub struct ValidationWarning {
    pub field: String,
    pub message: String,
}

impl ValidationReport {
    /// An empty report.
    pub fn new(is_valid: bool, event_class: Option<String>) -> (r: ValidationReport)
        ensures
            r.is_valid == is_valid,
            r.errors@.len() == 0,
            r.warnings@.len() == 0,
            r.event_class == event_class,
            r.summary@ == if is_valid {
                "Event is valid OCSF"@
            } else {
                "Event has validation errors"@
            },
    {
        let summary = if is_valid {
            String::from_str("Event is valid OCSF")
        } else {
            String::from_str("Event has validation errors")
        };
        ValidationReport { is_valid, errors: Vec::new(), warnings: Vec::new(), event_class, summary }
    }

    /// Records an error; the report is invalid from then on.
    pub fn add_error(&mut self, field: String, message: String, error_type: ErrorType)
        ensures
            final(self).errors@ == old(self).errors@.push(
                (ValidationError { field, message, error_type }),
            ),
            final(self).is_valid == false,
            final(self).warnings == old(self).warnings,
            final(self).event_class == old(self).event_class,
            final(self).summary == old(self).summary,
    {
        self.errors.push(ValidationError { field, message, error_type });
        self.is_valid = false;
    }

    /// Records a warning; validity is unaffected.
    pub fn add_warning(&mut self, field: String, message: String)
        ensures
            final(self).warnings@ == old(self).warnings@.push(
                (ValidationWarning { field, message }),
            ),
            final(self).is_valid == old(self).is_valid,
            final(self).errors == old(self).errors,
            final(self).event_class == old(self).event_class,
            final(self).summary == old(self).summary,
    {
        self.warnings.push(ValidationWarning { field, message });
    }
}

/// The value of a key of a document: `None` when the document is not an
/// object or has no field of that name.
pub open spec fn doc_get(doc: JsonValue, key: Seq<char>) -> Option<JsonValue> {
    match doc {
        JsonValue::Obj(fields) => obj_lookup(fields@, key),
        _ => None,
    }
}

fn doc_get_exec<'a>(doc: &'a JsonValue, key: &str) -> (r: Option<&'a JsonValue>)
    ensures
        match r {
            Some(v) => doc_get(*doc, key@) == Some(*v),
            None => doc_get(*doc, key@) is None,
        },
{
    match doc {
        JsonValue::Obj(fields) => crate::json::obj_get(fields, key),
        _ => None,
    }
}

/// The class name the report captures: `metadata.event_class` when it is a
/// string.
pub open spec fn captured_class(doc: JsonValue) -> Option<Seq<char>> {
    match doc_get(doc, "metadata"@) {
        Some(md) => match doc_get(md, "event_class"@) {
            Some(JsonValue::Text(s)) => Some(s@),
            _ => None,
        },
        None => None,
    }
}

/// The fields reported as missing, in emission order.
pub open spec fn expected_error_fields(doc: JsonValue) -> Seq<Seq<char>> {
    (match doc_get(doc, "metadata"@) {
        Some(md) => (if captured_class(doc) is None {
            seq!["metadata.event_class"@]
        } else {
            Seq::<Seq<char>>::empty()
        }) + (if doc_get(md, "version"@) is None {
            seq!["metadata.version"@]
        } else {
            Seq::<Seq<char>>::empty()
        }),
        None => seq!["metadata"@],
    }) + (if doc_get(doc, "time"@) is None {
        seq!["time"@]
    } else {
        Seq::<Seq<char>>::empty()
    })
}

/// The message attached to each missing field.
pub open spec fn validation_message(field: Seq<char>) -> Seq<char> {
    if field == "metadata"@ {
        "Missing metadata field"@
    } else if field == "metadata.event_class"@ {
        "Missing event_class in metadata"@
    } else if field == "metadata.version"@ {
        "Missing version in metadata"@
    } else {
        "Missing required 'time' field"@
    }
}

/// The report's one-line summary.
pub open spec fn expected_summary(doc: JsonValue) -> Seq<char> {
    if expected_error_fields(doc).len() == 0 {
        "Valid OCSF event of class '"@ + (match captured_class(doc) {
            Some(t) => t,
            None => "unknown"@,
        }) + "'"@
    } else {
        "Validation failed with "@ + dec_str(expected_error_fields(doc).len() as nat)
            + " error(s)"@
    }
}

/// The whole report, determined by the parsed document.
pub open spec fn report_matches(rep: ValidationReport, doc: JsonValue) -> bool {
    &&& rep.errors@.map_values(|e: ValidationError| e.field@) == expected_error_fields(doc)
    &&& forall|k: int|
        0 <= k < rep.errors@.len() ==> (#[trigger] rep.errors@[k]).message@ == validation_message(
            rep.errors@[k].field@,
        ) && rep.errors@[k].error_type == ErrorType::MissingRequired
    &&& rep.warnings@.len() == 0
    &&& rep.is_valid == (expected_error_fields(doc).len() == 0)
    &&& match captured_class(doc) {
        Some(t) => match rep.event_class {
            Some(c) => c@ == t,
            None => false,
        },
        None => rep.event_class is None,
    }
    &&& rep.summary@ == expected_summary(doc)
}

fn mk_error(field: &str, message: &str) -> (r: ValidationError)
    ensures
        r.field@ == field@,
        r.message@ == message@,
        r.error_type == ErrorType::MissingRequired,
{
    ValidationError {
        field: field.to_owned(),
        message: message.to_owned(),
        error_type: ErrorType::MissingRequired,
    }
}

/// Checks a document against the minimal structural contract. Fails only
/// when the text is not JSON; an invalid document is an `Ok` report.
pub fn validate_event(event_json: &str) -> (r: Result<ValidationReport, OcsfError>)
    ensures
        match r {
            Ok(rep) => match json_doc_of(event_json@) {
                Some(doc) => report_matches(rep, doc),
                None => false,
            },
            Err(e) => e == OcsfError::InvalidEventJson && json_doc_of(event_json@) is None,
        },
{
    let parsed = crate::outside::parse_json(event_json);
    let doc = match parsed {
        Some(d) => d,
        None => {
            return Err(OcsfError::InvalidEventJson);
        },
    };
    let mut errors: Vec<ValidationError> = Vec::new();
    let mut event_class: Option<String> = None;
    match doc_get_exec(&doc, "metadata") {
        Some(md) => {
            let captured = match doc_get_exec(md, "event_class") {
                Some(ec) => match ec {
                    JsonValue::Text(s) => Some(s.clone()),
                    _ => None,
                },
                None => None,
            };
            match captured {
                Some(c) => {
                    event_class = Some(c);
                },
                None => {
                    errors.push(
                        mk_error("metadata.event_class", "Missing event_class in metadata"),
                    );
                },
            }
            match doc_get_exec(md, "version") {
                Some(_) => {
                },
                None => {
                    errors.push(mk_error("metadata.version", "Missing version in metadata"));
                },
            }
        },
        None => {
            errors.push(mk_error("metadata", "Missing metadata field"));
        },
    }
    match doc_get_exec(&doc, "time") {
        Some(_) => {
        },
        None => {
            errors.push(mk_error("time", "Missing required 'time' field"));
        },
    }
    proof {
        reveal_strlit("metadata");
        reveal_strlit("metadata.event_class");
        reveal_strlit("metadata.version");
        reveal_strlit("time");
        assert(errors@.map_values(|e: ValidationError| e.field@) =~= expected_error_fields(doc));
        assert forall|k: int| 0 <= k < errors@.len() implies (#[trigger] errors@[k]).message@
            == validation_message(errors@[k].field@) by {
            assert(errors@[k].field@ == expected_error_fields(doc)[k]);
        }
    }
    let is_valid = errors.len() == 0;
    let summary = if is_valid {
        let mut s = String::from_str("Valid OCSF event of class '");
        match &event_class {
            Some(c) => {
                s.append(c.as_str());
            },
            None => {
                s.append("unknown");
            },
        }
        s.append("'");
        s
    } else {
        let mut s = String::from_str("Validation failed with ");
        let count = crate::text::u64_to_string(errors.len() as u64);
        s.append(count.as_str());
        s.append(" error(s)");
        s
    };
    let rep = ValidationReport { is_valid, errors, warnings: Vec::new(), event_class, summary };
    Ok(rep)
}

} // verus!
