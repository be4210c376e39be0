//! The event document: metadata plus an ordered field bag, and its JSON
//! rendering.

use vstd::prelude::*;
use crate::json::{
    JsonValue, JsonModel, jv_model, fields_model, obj_set, obj_lookup, obj_put, obj_get,
    model_text, model_obj_items, lemma_model_text, lemma_fields_model_len, json_num_u64,
    write_json_value, push_quoted, model_push,
};
use crate::text::dec_str;

verus! {

/// The product block of an event's metadata.
#[derive(Debug, Clone)]
pub struct ProductInfo {
    pub name: String,
    pub vendor_name: String,
    pub version: Option<String>,
}

/// The metadata block every generated event carries.
#[derive(Debug, Clone)]
pub struct EventMetadata {
    pub version: String,
    pub product: Option<ProductInfo>,
    pub uid: String,
    pub event_class: String,
    pub category_uid: u32,
    pub class_uid: u32,
}

/// A generated event: metadata plus the event-specific fields, an ordered
/// map serialized after the metadata block.
#[derive(Debug)]
pub struct OcsfEvent {
    pub metadata: EventMetadata,
    pub fields: Vec<(String, JsonValue)>,
}

/// The ghost mirror of a product block.
pub open spec fn product_model(p: ProductInfo) -> JsonModel {
    JsonModel::Obj(
        seq![
            ("name"@, JsonModel::Text(p.name@)),
            ("vendor_name"@, JsonModel::Text(p.vendor_name@)),
            (
                "version"@,
                match p.version {
                    Some(v) => JsonModel::Text(v@),
                    None => JsonModel::Null,
                },
            ),
        ],
    )
}

/// The ghost mirror of a metadata block.
pub open spec fn metadata_model(m: EventMetadata) -> JsonModel {
    JsonModel::Obj(
        seq![
            ("version"@, JsonModel::Text(m.version@)),
            (
                "product"@,
                match m.product {
                    Some(p) => product_model(p),
                    None => JsonModel::Null,
                },
            ),
            ("uid"@, JsonModel::Text(m.uid@)),
            ("event_class"@, JsonModel::Text(m.event_class@)),
            ("category_uid"@, JsonModel::Num(dec_str(m.category_uid as nat))),
            ("class_uid"@, JsonModel::Num(dec_str(m.class_uid as nat))),
        ],
    )
}

/// The ghost mirror of a whole event document: the metadata block first,
/// then the fields in their stored order.
pub open spec fn event_model(e: OcsfEvent) -> JsonModel {
    JsonModel::Obj(seq![("metadata"@, metadata_model(e.metadata))] + fields_model(e.fields@))
}

/// Builds the JSON value of a product block.
fn product_value(p: &ProductInfo) -> (r: JsonValue)
    ensures
        jv_model(r) == product_model(*p),
{
    let mut f: Vec<(String, JsonValue)> = Vec::new();
    proof {
        assert(fields_model(f@) =~= Seq::<(Seq<char>, JsonModel)>::empty());
    }
    model_push(&mut f, "name", JsonValue::Text(p.name.clone()));
    model_push(
        &mut f,
        "vendor_name",
        JsonValue::Text(p.vendor_name.clone()),
    );
    model_push(
        &mut f,
        "version",
        match &p.version {
            Some(v) => JsonValue::Text(v.clone()),
            None => JsonValue::Null,
        },
    );
    let r = JsonValue::Obj(f);
    proof {
        assert(fields_model(f@) =~= product_model(*p)->Obj_0);
    }
    r
}

/// Builds the JSON value of a metadata block.
fn metadata_value(m: &EventMetadata) -> (r: JsonValue)
    ensures
        jv_model(r) == metadata_model(*m),
{
    let mut f: Vec<(String, JsonValue)> = Vec::new();
    proof {
        assert(fields_model(f@) =~= Seq::<(Seq<char>, JsonModel)>::empty());
    }
    model_push(&mut f, "version", JsonValue::Text(m.version.clone()));
    model_push(
        &mut f,
        "product",
        match &m.product {
            Some(p) => product_value(p),
            None => JsonValue::Null,
        },
    );
    model_push(&mut f, "uid", JsonValue::Text(m.uid.clone()));
    model_push(&mut f, "event_class", JsonValue::Text(m.event_class.clone()));
    model_push(&mut f, "category_uid", json_num_u64(m.category_uid as u64));
    model_push(&mut f, "class_uid", json_num_u64(m.class_uid as u64));
    let r = JsonValue::Obj(f);
    proof {
        assert(fields_model(f@) =~= metadata_model(*m)->Obj_0);
    }
    r
}

impl OcsfEvent {
    /// A fresh event of the given class: default schema version, no product
    /// block, a newly generated random identifier, and no fields yet.
    pub fn new(event_class: &str, class_uid: u32, category_uid: u32) -> (r: OcsfEvent)
        ensures
            r.metadata.version@ == "1.7.0-dev"@,
            r.metadata.product is None,
            r.metadata.uid@.len() == 36,
            r.metadata.event_class@ == event_class@,
            r.metadata.category_uid == category_uid,
            r.metadata.class_uid == class_uid,
            r.fields@.len() == 0,
    {
        OcsfEvent {
            metadata: EventMetadata {
                version: String::from_str("1.7.0-dev"),
                product: None,
                uid: crate::outside::fresh_event_uid(),
                event_class: event_class.to_owned(),
                category_uid,
                class_uid,
            },
            fields: Vec::new(),
        }
    }

    /// Sets a field: a later write to the same name wins, keeping the
    /// field's position.
    pub fn set_field(&mut self, key: String, value: JsonValue)
        ensures
            final(self).metadata == old(self).metadata,
            final(self).fields@ == obj_set(old(self).fields@, key, value),
    {
        obj_put(&mut self.fields, key, value);
    }

    /// Is a field of this name present?
    pub fn has_field(&self, key: &str) -> (r: bool)
        ensures
            r == (obj_lookup(self.fields@, key@) is Some),
    {
        match obj_get(&self.fields, key) {
            Some(_) => true,
            None => false,
        }
    }

    /// Renders the event as indented JSON: the metadata block first, then
    /// each field in stored order.
    pub fn to_json(&self) -> (r: String)
        ensures
            r@ == model_text(event_model(*self), Seq::<char>::empty()),
    {
        let ghost mf = seq![("metadata"@, metadata_model(self.metadata))] + fields_model(
            self.fields@,
        );
        proof {
            lemma_fields_model_len(self.fields@);
        }
        let mut out = String::new();
        out.push('{');
        out.push('\n');
        out.append("  ");
        push_quoted(&mut out, "metadata");
        out.push(':');
        out.push(' ');
        let mv = metadata_value(&self.metadata);
        write_json_value(&mut out, &mv, "  ");
        proof {
            lemma_model_text(mv, "  "@);
            assert(mf.take(1).drop_last() =~= Seq::<(Seq<char>, JsonModel)>::empty());
            assert(mf.take(1).last() == mf[0]);
            assert(model_obj_items(Seq::<(Seq<char>, JsonModel)>::empty(), "  "@)
                == Seq::<char>::empty());
            assert(out@ =~= seq!['{'] + model_obj_items(mf.take(1), "  "@));
        }
        let n = self.fields.len();
        let mut i: usize = 0;
        while i < n
            invariant
                i <= n,
                n == self.fields@.len(),
                mf == seq![("metadata"@, metadata_model(self.metadata))] + fields_model(
                    self.fields@,
                ),
                fields_model(self.fields@).len() == n,
                forall|k: int|
                    0 <= k < n ==> #[trigger] fields_model(self.fields@)[k] == (
                        self.fields@[k].0@,
                        jv_model(self.fields@[k].1),
                    ),
                out@ == seq!['{'] + model_obj_items(mf.take(i + 1), "  "@),
            decreases n - i,
        {
            out.push(',');
            out.push('\n');
            out.append("  ");
            push_quoted(&mut out, self.fields[i].0.as_str());
            out.push(':');
            out.push(' ');
            write_json_value(&mut out, &self.fields[i].1, "  ");
            proof {
                lemma_model_text(self.fields@[i as int].1, "  "@);
                assert(mf.take(i + 2).drop_last() =~= mf.take(i + 1));
                assert(mf.take(i + 2).last() == mf[i + 1]);
                assert(mf[i + 1] == fields_model(self.fields@)[i as int]);
                assert(out@ =~= seq!['{'] + model_obj_items(mf.take(i + 2), "  "@));
            }
            i = i + 1;
        }
        out.push('\n');
        out.push('}');
        proof {
            assert(mf.take(n + 1) =~= mf);
            assert(Seq::<char>::empty() + "  "@ =~= "  "@);
            assert(Seq::<char>::empty() + seq!['\n'] =~= seq!['\n']);
            assert(out@ =~= model_text(event_model(*self), Seq::<char>::empty()));
        }
        out
    }
}

/// A canned example event for learning, with its document as JSON text.
#[derive(Debug)]
pub struct EventExample {
    pub event_class: String,
    pub scenario: String,
    pub description: String,
    pub json: String,
}

/// The document text of the successful-login example.
pub open spec fn auth_success_json() -> Seq<char> {
    r#"{
  "metadata": {
    "version": "1.7.0-dev",
    "event_class": "authentication",
    "category_uid": 3,
    "class_uid": 3002,
    "uid": "123e4567-e89b-12d3-a456-426614174000"
  },
  "time": "2025-01-15T10:30:00Z",
  "user": {
    "name": "john.doe",
    "uid": "1001"
  },
  "auth_protocol": "OAuth2",
  "status": "success",
  "activity_id": 1,
  "activity_name": "Logon"
}"#@
}

/// The document text of the failed-login example.
pub open spec fn auth_failure_json() -> Seq<char> {
    r#"{
  "metadata": {
    "version": "1.7.0-dev",
    "event_class": "authentication",
    "category_uid": 3,
    "class_uid": 3002,
    "uid": "223e4567-e89b-12d3-a456-426614174001"
  },
  "time": "2025-01-15T10:35:00Z",
  "user": {
    "name": "attacker",
    "uid": "unknown"
  },
  "auth_protocol": "LDAP",
  "status": "failure",
  "status_detail": "Invalid credentials",
  "activity_id": 1,
  "activity_name": "Logon",
  "severity": "medium"
}"#@
}

/// The document text of the process-start example.
pub open spec fn process_start_json() -> Seq<char> {
    r#"{
  "metadata": {
    "version": "1.7.0-dev",
    "event_class": "process_activity",
    "category_uid": 1,
    "class_uid": 1007,
    "uid": "323e4567-e89b-12d3-a456-426614174002"
  },
  "time": "2025-01-15T11:00:00Z",
  "process": {
    "name": "nginx",
    "pid": 1234,
    "uid": "501",
    "cmd_line": "/usr/sbin/nginx -c /etc/nginx/nginx.conf"
  },
  "activity_id": 1,
  "activity_name": "Launch",
  "parent_process": {
    "name": "systemd",
    "pid": 1
  }
}"#@
}

impl EventExample {
    pub fn authentication_success() -> (r: EventExample)
        ensures
            r.event_class@ == "authentication"@,
            r.scenario@ == "successful_login"@,
            r.description@ == "User successfully logged in using OAuth2"@,
            r.json@ == auth_success_json(),
    {
        EventExample {
            event_class: String::from_str("authentication"),
            scenario: String::from_str("successful_login"),
            description: String::from_str("User successfully logged in using OAuth2"),
            json: String::from_str(
                r#"{
  "metadata": {
    "version": "1.7.0-dev",
    "event_class": "authentication",
    "category_uid": 3,
    "class_uid": 3002,
    "uid": "123e4567-e89b-12d3-a456-426614174000"
  },
  "time": "2025-01-15T10:30:00Z",
  "user": {
    "name": "john.doe",
    "uid": "1001"
  },
  "auth_protocol": "OAuth2",
  "status": "success",
  "activity_id": 1,
  "activity_name": "Logon"
}"#,
            ),
        }
    }

    pub fn authentication_failure() -> (r: EventExample)
        ensures
            r.event_class@ == "authentication"@,
            r.scenario@ == "failed_login"@,
            r.description@ == "Failed login attempt with invalid credentials"@,
            r.json@ == auth_failure_json(),
    {
        EventExample {
            event_class: String::from_str("authentication"),
            scenario: String::from_str("failed_login"),
            description: String::from_str("Failed login attempt with invalid credentials"),
            json: String::from_str(
                r#"{
  "metadata": {
    "version": "1.7.0-dev",
    "event_class": "authentication",
    "category_uid": 3,
    "class_uid": 3002,
    "uid": "223e4567-e89b-12d3-a456-426614174001"
  },
  "time": "2025-01-15T10:35:00Z",
  "user": {
    "name": "attacker",
    "uid": "unknown"
  },
  "auth_protocol": "LDAP",
  "status": "failure",
  "status_detail": "Invalid credentials",
  "activity_id": 1,
  "activity_name": "Logon",
  "severity": "medium"
}"#,
            ),
        }
    }

    pub fn process_start() -> (r: EventExample)
        ensures
            r.event_class@ == "process_activity"@,
            r.scenario@ == "process_start"@,
            r.description@ == "Process started by systemd"@,
            r.json@ == process_start_json(),
    {
        EventExample {
            event_class: String::from_str("process_activity"),
            scenario: String::from_str("process_start"),
            description: String::from_str("Process started by systemd"),
            json: String::from_str(
                r#"{
  "metadata": {
    "version": "1.7.0-dev",
    "event_class": "process_activity",
    "category_uid": 1,
    "class_uid": 1007,
    "uid": "323e4567-e89b-12d3-a456-426614174002"
  },
  "time": "2025-01-15T11:00:00Z",
  "process": {
    "name": "nginx",
    "pid": 1234,
    "uid": "501",
    "cmd_line": "/usr/sbin/nginx -c /etc/nginx/nginx.conf"
  },
  "activity_id": 1,
  "activity_name": "Launch",
  "parent_process": {
    "name": "systemd",
    "pid": 1
  }
}"#,
            ),
        }
    }
}

} // verus!
