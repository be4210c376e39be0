use ocsf_mcp::categories::OcsfCategory;
use ocsf_mcp::errors::OcsfError;
use ocsf_mcp::event::OcsfEvent;
use ocsf_mcp::event_generator::{GenerateEventRequest, generate_ocsf_event};
use ocsf_mcp::json::JsonValue;
use ocsf_mcp::mapper::{
    ListExamplesRequest, MapCustomRequest, list_event_examples, map_custom_to_ocsf,
};
use ocsf_mcp::schema::{Attribute, EventClass, OcsfSchema, get_category_description};
use ocsf_mcp::schema_browser::{BrowseSchemaRequest, browse_ocsf_schema};
use ocsf_mcp::validation::{ErrorType, ValidationReport, validate_event};
use ocsf_mcp::validator::{ValidateEventRequest, validate_ocsf_event};

fn attribute(requirement: Option<&str>) -> Attribute {
    Attribute {
        caption: None,
        description: None,
        data_type: None,
        requirement: requirement.map(|r| r.to_string()),
        type_label: None,
    }
}

fn schema_with_class(class_name: &str, attrs: Vec<(String, Attribute)>) -> OcsfSchema {
    OcsfSchema {
        version: "0.0.1".to_string(),
        classes: vec![(
            class_name.to_string(),
            EventClass {
                uid: 9001,
                name: class_name.to_string(),
                caption: None,
                description: None,
                category: "other".to_string(),
                attributes: attrs,
                extends: None,
            },
        )],
        objects: Vec::new(),
        types: Vec::new(),
        dictionary_attributes: Vec::new(),
    }
}

#[test]
fn generated_event_carries_class_and_category_uids() {
    let request = GenerateEventRequest {
        version: None,
        event_class: "authentication".to_string(),
        required_fields: "{\"user\": {\"name\": \"alice\"}}".to_string(),
        optional_fields: None,
    };
    let out = generate_ocsf_event(request).unwrap();
    let doc: serde_json::Value = serde_json::from_str(&out).unwrap();
    assert_eq!(doc["metadata"]["class_uid"].as_u64().unwrap(), 3002);
    assert_eq!(doc["metadata"]["category_uid"].as_u64().unwrap(), 3);
    assert!(out.contains("alice"));
}

#[test]
fn category_uid_is_class_uid_over_thousand() {
    for class in ["authentication", "process_activity", "file_activity", "network_activity"] {
        let request = GenerateEventRequest {
            version: None,
            event_class: class.to_string(),
            required_fields: "{}".to_string(),
            optional_fields: None,
        };
        let out = generate_ocsf_event(request).unwrap();
        let doc: serde_json::Value = serde_json::from_str(&out).unwrap();
        let class_uid = doc["metadata"]["class_uid"].as_u64().unwrap();
        let category_uid = doc["metadata"]["category_uid"].as_u64().unwrap();
        assert_eq!(class_uid / 1000, category_uid);
    }
}

#[test]
fn generate_unknown_class_fails() {
    let request = GenerateEventRequest {
        version: None,
        event_class: "does_not_exist".to_string(),
        required_fields: "{}".to_string(),
        optional_fields: None,
    };
    assert_eq!(generate_ocsf_event(request).unwrap_err(), OcsfError::EventClassNotFound);
}

#[test]
fn generate_rejects_malformed_structured_source() {
    let request = GenerateEventRequest {
        version: None,
        event_class: "authentication".to_string(),
        required_fields: "{not json".to_string(),
        optional_fields: None,
    };
    assert_eq!(generate_ocsf_event(request).unwrap_err(), OcsfError::InvalidFieldSource);
}

#[test]
fn generate_synthesizes_defaults_for_bare_names() {
    let request = GenerateEventRequest {
        version: None,
        event_class: "authentication".to_string(),
        required_fields: " activity_id , class_uid , type_uid , custom_thing ".to_string(),
        optional_fields: Some("message, user".to_string()),
    };
    let out = generate_ocsf_event(request).unwrap();
    let doc: serde_json::Value = serde_json::from_str(&out).unwrap();
    assert_eq!(doc["activity_id"].as_u64().unwrap(), 1);
    assert_eq!(doc["class_uid"].as_u64().unwrap(), 3002);
    assert_eq!(doc["type_uid"].as_u64().unwrap(), 300201);
    assert_eq!(doc["custom_thing"].as_str().unwrap(), "default_custom_thing");
    assert_eq!(doc["message"].as_str().unwrap(), "Generated OCSF event");
    assert_eq!(doc["user"]["name"].as_str().unwrap(), "example_user");
    assert_eq!(doc["user"]["uid"].as_str().unwrap(), "1001");
}

#[test]
fn generate_injects_time_when_absent() {
    let request = GenerateEventRequest {
        version: None,
        event_class: "network_activity".to_string(),
        required_fields: "{}".to_string(),
        optional_fields: None,
    };
    let out = generate_ocsf_event(request).unwrap();
    let doc: serde_json::Value = serde_json::from_str(&out).unwrap();
    assert!(!doc["time"].as_str().unwrap().is_empty());
    assert_eq!(doc["metadata"]["uid"].as_str().unwrap().len(), 36);
}

#[test]
fn generate_keeps_caller_time() {
    let request = GenerateEventRequest {
        version: None,
        event_class: "authentication".to_string(),
        required_fields: "{\"time\": \"2020-02-02T00:00:00Z\"}".to_string(),
        optional_fields: None,
    };
    let out = generate_ocsf_event(request).unwrap();
    let doc: serde_json::Value = serde_json::from_str(&out).unwrap();
    assert_eq!(doc["time"].as_str().unwrap(), "2020-02-02T00:00:00Z");
}

#[test]
fn generate_optional_overwrites_required() {
    let request = GenerateEventRequest {
        version: None,
        event_class: "authentication".to_string(),
        required_fields: "{\"status\": \"first\"}".to_string(),
        optional_fields: Some("{\"status\": \"second\"}".to_string()),
    };
    let out = generate_ocsf_event(request).unwrap();
    let doc: serde_json::Value = serde_json::from_str(&out).unwrap();
    assert_eq!(doc["status"].as_str().unwrap(), "second");
}

#[test]
fn generate_escapes_field_text() {
    let request = GenerateEventRequest {
        version: None,
        event_class: "authentication".to_string(),
        required_fields: "{\"msg\": \"a\\\"b\\\\c\\nd\"}".to_string(),
        optional_fields: None,
    };
    let out = generate_ocsf_event(request).unwrap();
    let doc: serde_json::Value = serde_json::from_str(&out).unwrap();
    assert_eq!(doc["msg"].as_str().unwrap(), "a\"b\\c\nd");
}

#[test]
fn validate_minimal_valid_event() {
    let report = validate_event(
        "{\"metadata\":{\"event_class\":\"x\",\"version\":\"1\"},\"time\":\"t\"}",
    )
    .unwrap();
    assert!(report.is_valid);
    assert_eq!(report.errors.len(), 0);
    assert_eq!(report.event_class.as_deref(), Some("x"));
    assert_eq!(report.summary, "Valid OCSF event of class 'x'");
}

#[test]
fn validate_empty_object_reports_two_errors() {
    let report = validate_event("{}").unwrap();
    assert!(!report.is_valid);
    assert_eq!(report.errors.len(), 2);
    assert_eq!(report.errors[0].field, "metadata");
    assert_eq!(report.errors[1].field, "time");
    assert!(matches!(report.errors[0].error_type, ErrorType::MissingRequired));
    assert_eq!(report.summary, "Validation failed with 2 error(s)");
}

#[test]
fn validate_missing_metadata_members() {
    let report = validate_event("{\"metadata\":{},\"time\":\"t\"}").unwrap();
    assert!(!report.is_valid);
    assert_eq!(report.errors.len(), 2);
    assert_eq!(report.errors[0].field, "metadata.event_class");
    assert_eq!(report.errors[1].field, "metadata.version");
}

#[test]
fn validate_rejects_non_json() {
    assert_eq!(validate_event("not json").unwrap_err(), OcsfError::InvalidEventJson);
}

#[test]
fn validate_tool_serializes_report() {
    let request = ValidateEventRequest { event_json: "{}".to_string() };
    let out = validate_ocsf_event(request).unwrap();
    let doc: serde_json::Value = serde_json::from_str(&out).unwrap();
    assert!(!doc["is_valid"].as_bool().unwrap());
    assert_eq!(doc["errors"].as_array().unwrap().len(), 2);
    assert!(doc["event_class"].is_null());
}

#[test]
fn map_login_text_to_authentication() {
    let request = MapCustomRequest {
        sample_log: "user login failed".to_string(),
        suggested_class: None,
    };
    let out = map_custom_to_ocsf(request);
    let doc: serde_json::Value = serde_json::from_str(&out).unwrap();
    assert_eq!(doc["suggested_event_class"].as_str().unwrap(), "authentication");
    assert_eq!(doc["confidence"].as_str().unwrap(), "medium");
    assert_eq!(doc["field_mappings"].as_array().unwrap().len(), 3);
}

#[test]
fn map_is_case_insensitive() {
    let request = MapCustomRequest {
        sample_log: "USER LOGIN FAILED".to_string(),
        suggested_class: None,
    };
    let out = map_custom_to_ocsf(request);
    let doc: serde_json::Value = serde_json::from_str(&out).unwrap();
    assert_eq!(doc["suggested_event_class"].as_str().unwrap(), "authentication");
}

#[test]
fn map_rule_order_and_fallback() {
    let cases = [
        ("process exec started", "process_activity"),
        ("network connection opened", "network_activity"),
        ("file path touched", "file_activity"),
        ("nothing matches here", "unknown"),
    ];
    for (sample, expected) in cases {
        let request = MapCustomRequest {
            sample_log: sample.to_string(),
            suggested_class: None,
        };
        let out = map_custom_to_ocsf(request);
        let doc: serde_json::Value = serde_json::from_str(&out).unwrap();
        assert_eq!(doc["suggested_event_class"].as_str().unwrap(), expected);
    }
}

#[test]
fn map_trusts_hint_verbatim() {
    let request = MapCustomRequest {
        sample_log: "user login failed".to_string(),
        suggested_class: Some("my_class".to_string()),
    };
    let out = map_custom_to_ocsf(request);
    let doc: serde_json::Value = serde_json::from_str(&out).unwrap();
    assert_eq!(doc["suggested_event_class"].as_str().unwrap(), "my_class");
}

#[test]
fn examples_for_authentication() {
    let request = ListExamplesRequest {
        event_class: "authentication".to_string(),
        scenario: None,
    };
    let out = list_event_examples(request).unwrap();
    let doc: serde_json::Value = serde_json::from_str(&out).unwrap();
    let arr = doc.as_array().unwrap();
    assert_eq!(arr.len(), 2);
    assert_eq!(arr[0]["scenario"].as_str().unwrap(), "failed_login");
    assert_eq!(arr[1]["scenario"].as_str().unwrap(), "successful_login");
}

#[test]
fn examples_unknown_class_fails() {
    let request = ListExamplesRequest {
        event_class: "registry_activity".to_string(),
        scenario: None,
    };
    assert_eq!(list_event_examples(request).unwrap_err(), OcsfError::NoExamples);
}

#[test]
fn recommended_attribute_counts_as_required() {
    let schema = schema_with_class(
        "custom_event",
        vec![("target_user".to_string(), attribute(Some("recommended")))],
    );
    let attrs = schema.get_required_attributes("custom_event");
    assert_eq!(attrs, vec!["target_user".to_string()]);
}

#[test]
fn optional_attribute_is_not_required() {
    let schema = schema_with_class(
        "custom_event",
        vec![
            ("a".to_string(), attribute(Some("optional"))),
            ("b".to_string(), attribute(Some("required"))),
            ("c".to_string(), attribute(None)),
        ],
    );
    let attrs = schema.get_required_attributes("custom_event");
    assert_eq!(attrs, vec!["b".to_string()]);
}

#[test]
fn required_attributes_of_unknown_class_is_empty() {
    let schema = OcsfSchema::load();
    assert!(schema.get_required_attributes("no_such_class").is_empty());
}

#[test]
fn plain_string_order_sorts_ten_before_two() {
    // "1.10.0" sorts before "1.2.0" in plain string order: expected, not a bug
    assert!(ocsf_mcp::text::str_lt("1.10.0", "1.2.0"));
    assert!(!ocsf_mcp::text::str_lt("1.2.0", "1.10.0"));
}

#[test]
fn newest_stable_version_value() {
    assert_eq!(OcsfSchema::get_newest_stable_version().unwrap(), "1.6.0");
}

#[test]
fn categories_are_sorted_and_complete() {
    let request = BrowseSchemaRequest {
        version: None,
        category: None,
        event_class: None,
        show_attributes: false,
    };
    let out = browse_ocsf_schema(request).unwrap();
    let doc: serde_json::Value = serde_json::from_str(&out).unwrap();
    let cats = doc["categories"].as_array().unwrap();
    let names: Vec<&str> = cats.iter().map(|c| c["name"].as_str().unwrap()).collect();
    assert_eq!(names, vec!["iam", "network", "system"]);
    assert_eq!(cats[2]["event_count"].as_u64().unwrap(), 2);
}

#[test]
fn category_description_fallback() {
    assert_eq!(get_category_description("custom"), "Category: custom");
    assert_eq!(
        get_category_description("iam"),
        "Identity & Access Management - Authentication, authorization, and account management"
    );
}

#[test]
fn event_builder_round_trip() {
    let mut event = OcsfEvent::new("authentication", 3002, 3);
    event.set_field("status".to_string(), JsonValue::Text("success".to_string()));
    event.set_field(
        "status".to_string(),
        JsonValue::Text("failure".to_string()),
    );
    let out = event.to_json();
    let doc: serde_json::Value = serde_json::from_str(&out).unwrap();
    assert_eq!(doc["status"].as_str().unwrap(), "failure");
    assert_eq!(doc["metadata"]["class_uid"].as_u64().unwrap(), 3002);
    assert_eq!(doc["metadata"]["uid"].as_str().unwrap().len(), 36);
}

#[test]
fn validation_report_accumulates() {
    let mut report = ValidationReport::new(true, None);
    assert!(report.is_valid);
    report.add_warning("f".to_string(), "w".to_string());
    assert!(report.is_valid);
    report.add_error("f".to_string(), "m".to_string(), ErrorType::InvalidType);
    assert!(!report.is_valid);
    assert_eq!(report.errors.len(), 1);
    assert_eq!(report.warnings.len(), 1);
}

#[test]
fn decimal_rendering_is_exact() {
    assert_eq!(ocsf_mcp::text::u64_to_string(0), "0");
    assert_eq!(ocsf_mcp::text::u64_to_string(1234567890), "1234567890");
}

#[test]
fn trimming_and_splitting() {
    assert_eq!(ocsf_mcp::text::trim_str("  a b  "), "a b");
    let pieces = ocsf_mcp::text::split_commas_trimmed("a, b ,,c");
    assert_eq!(pieces, vec!["a", "b", "", "c"]);
}

#[test]
fn substring_search() {
    assert!(ocsf_mcp::text::str_contains("hello world", "lo wo"));
    assert!(ocsf_mcp::text::str_contains("abc", ""));
    assert!(!ocsf_mcp::text::str_contains("abc", "abcd"));
}

#[test]
fn category_table_numbers() {
    assert_eq!(OcsfCategory::IdentityAccessManagement.uid(), 3);
    assert_eq!(OcsfCategory::SystemActivity.name(), "System Activity");
    assert_eq!(
        OcsfCategory::NetworkActivity.description(),
        "Network connections and traffic"
    );
}

#[test]
fn browse_class_details_summary() {
    let request = BrowseSchemaRequest {
        version: None,
        category: None,
        event_class: Some("authentication".to_string()),
        show_attributes: true,
    };
    let out = browse_ocsf_schema(request).unwrap();
    let doc: serde_json::Value = serde_json::from_str(&out).unwrap();
    assert_eq!(
        doc["summary"].as_str().unwrap(),
        "Event class 'authentication' (UID: 3002) - 0 required fields"
    );
    assert_eq!(doc["attributes"].as_array().unwrap().len(), 0);
    assert!(doc["categories"].is_null());
    assert!(doc["event_classes"].is_null());
}

#[test]
fn browse_category_lists_its_classes() {
    let request = BrowseSchemaRequest {
        version: None,
        category: Some("system".to_string()),
        event_class: None,
        show_attributes: false,
    };
    let out = browse_ocsf_schema(request).unwrap();
    let doc: serde_json::Value = serde_json::from_str(&out).unwrap();
    assert_eq!(
        doc["summary"].as_str().unwrap(),
        "Category 'system' contains 2 event classes"
    );
    let rows = doc["event_classes"].as_array().unwrap();
    assert_eq!(rows[0]["name"].as_str().unwrap(), "process_activity");
    assert_eq!(rows[0]["uid"].as_u64().unwrap(), 1007);
    assert_eq!(rows[1]["name"].as_str().unwrap(), "file_activity");
    assert_eq!(rows[1]["caption"].as_str().unwrap(), "File Activity");
}

#[test]
fn versions_listing_is_exact() {
    let out = ocsf_mcp::version_tools::list_ocsf_versions(
        ocsf_mcp::version_tools::ListVersionsRequest {},
    );
    let doc: serde_json::Value = serde_json::from_str(&out).unwrap();
    assert_eq!(doc["count"].as_u64().unwrap(), 8);
    let versions = doc["versions"].as_array().unwrap();
    assert_eq!(versions[0].as_str().unwrap(), "1.0.0");
    assert_eq!(versions[7].as_str().unwrap(), "1.7.0-dev");
}

#[test]
fn mapper_explanation_names_the_class() {
    let request = MapCustomRequest {
        sample_log: "a file path".to_string(),
        suggested_class: None,
    };
    let out = map_custom_to_ocsf(request);
    let doc: serde_json::Value = serde_json::from_str(&out).unwrap();
    assert!(doc["explanation"]
        .as_str()
        .unwrap()
        .starts_with("Based on log content analysis, suggested OCSF event class is 'file_activity'."));
}

#[test]
fn error_messages_are_stable() {
    assert_eq!(
        OcsfError::NoStableVersion.message(),
        "No stable OCSF versions found"
    );
    assert_eq!(OcsfError::EventClassNotFound.message(), "Event class not found");
}
