//! Event construction: resolves the target class, normalizes the two field
//! sources (structured JSON object or comma-separated bare names with
//! synthesized defaults), merges them last-write-wins, enforces the
//! category/class number relationship, injects a timestamp when none was
//! given, and serializes the event.

use vstd::prelude::*;
use crate::errors::OcsfError;
use crate::event::OcsfEvent;
use crate::json::{
    JsonValue, JsonModel, jv_model, fields_model, obj_set, model_text, model_push, json_num_u64,
    lemma_fields_model_len,
};
use crate::outside::json_doc_of;
use crate::schema::{OcsfSchema, has_builtin_classes};
use crate::table::{views_of, assoc_lookup};
use crate::text::{dec_str, brace_after_ws, split_comma, trim_seq};

verus! {

#[derive(Debug)]
pub struct GenerateEventRequest {
    pub version: Option<String>,
    pub event_class: String,
    pub required_fields: String,
    pub optional_fields: Option<String>,
}

/// The number of the class stored under this name; every stored document
/// carries the same class table.
pub open spec fn builtin_class_uid(name: Seq<char>) -> Option<u32> {
    if name == "authentication"@ {
        Some(3002u32)
    } else if name == "process_activity"@ {
        Some(1007u32)
    } else if name == "file_activity"@ {
        Some(1001u32)
    } else if name == "network_activity"@ {
        Some(4001u32)
    } else {
        None
    }
}

/// Looking a name up in a built-in class table finds exactly the classes of
/// the fixed table, whose attribute maps are empty.
pub proof fn lemma_builtin_lookup(s: OcsfSchema, name: Seq<char>)
    requires
        has_builtin_classes(s),
    ensures
        match builtin_class_uid(name) {
            Some(u) => match assoc_lookup(s.classes@, name) {
                Some(c) => c.uid == u && c.name@ == name && c.attributes@.len() == 0,
                None => false,
            },
            None => assoc_lookup(s.classes@, name) is None,
        },
{
    let cs = s.classes@;
    assert(cs.drop_first()[0] == cs[1]);
    assert(cs.drop_first().drop_first()[0] == cs[2]);
    assert(cs.drop_first().drop_first().drop_first()[0] == cs[3]);
    assert(cs.drop_first().drop_first().drop_first().drop_first().len() == 0);
    if name != "authentication"@ {
        assert(assoc_lookup(cs, name) == assoc_lookup(cs.drop_first(), name));
        if name != "process_activity"@ {
            assert(assoc_lookup(cs.drop_first(), name) == assoc_lookup(
                cs.drop_first().drop_first(),
                name,
            ));
            if name != "file_activity"@ {
                assert(assoc_lookup(cs.drop_first().drop_first(), name) == assoc_lookup(
                    cs.drop_first().drop_first().drop_first(),
                    name,
                ));
                if name != "network_activity"@ {
                    assert(assoc_lookup(cs.drop_first().drop_first().drop_first(), name)
                        == assoc_lookup(
                        cs.drop_first().drop_first().drop_first().drop_first(),
                        name,
                    ));
                }
            }
        }
    }
}

/// The value synthesized for a bare required-field name.
pub open spec fn required_default_model(name: Seq<char>, uid: u32, time: Seq<char>) -> JsonModel {
    if name == "activity_id"@ {
        JsonModel::Num(dec_str(1))
    } else if name == "category_uid"@ {
        JsonModel::Num(dec_str((uid / 1000) as nat))
    } else if name == "class_uid"@ {
        JsonModel::Num(dec_str(uid as nat))
    } else if name == "severity_id"@ {
        JsonModel::Num(dec_str(1))
    } else if name == "type_uid"@ {
        JsonModel::Num(dec_str(uid as nat * 100 + 1))
    } else if name == "time"@ {
        JsonModel::Text(time)
    } else {
        JsonModel::Text("default_"@ + name)
    }
}

/// The value synthesized for a bare optional-field name.
pub open spec fn optional_default_model(name: Seq<char>) -> JsonModel {
    if name == "message"@ {
        JsonModel::Text("Generated OCSF event"@)
    } else if name == "user"@ {
        JsonModel::Obj(
            seq![
                ("name"@, JsonModel::Text("example_user"@)),
                ("uid"@, JsonModel::Text("1001"@)),
            ],
        )
    } else {
        JsonModel::Text("default_"@ + name)
    }
}

/// The fields a list of bare names yields, empties skipped.
pub open spec fn named_fields_model(
    names: Seq<Seq<char>>,
    required: bool,
    uid: u32,
    time: Seq<char>,
) -> Seq<(Seq<char>, JsonModel)>
    decreases names.len(),
{
    if names.len() == 0 {
        Seq::empty()
    } else {
        named_fields_model(names.drop_last(), required, uid, time) + (if names.last().len() == 0 {
            Seq::<(Seq<char>, JsonModel)>::empty()
        } else {
            seq![
                (
                    names.last(),
                    if required {
                        required_default_model(names.last(), uid, time)
                    } else {
                        optional_default_model(names.last())
                    },
                ),
            ]
        })
    }
}

/// The trimmed pieces of a comma-separated name list.
pub open spec fn name_list(s: Seq<char>) -> Seq<Seq<char>> {
    split_comma(s).map_values(|t: Seq<char>| trim_seq(t))
}

/// A structured-looking source that is not a JSON object: the one way a
/// field source is rejected.
pub open spec fn bad_source(s: Seq<char>) -> bool {
    brace_after_ws(s) && match json_doc_of(s) {
        Some(JsonValue::Obj(f)) => false,
        _ => true,
    }
}

/// What a field source yields: the fields of a structured JSON object, or
/// synthesized defaults for bare names; `None` for a rejected source.
pub open spec fn source_fields_model(s: Seq<char>, required: bool, uid: u32, time: Seq<char>) -> Option<
    Seq<(Seq<char>, JsonModel)>,
> {
    if brace_after_ws(s) {
        match json_doc_of(s) {
            Some(JsonValue::Obj(f)) => Some(fields_model(f@)),
            _ => None,
        }
    } else {
        Some(named_fields_model(name_list(s), required, uid, time))
    }
}

/// Replace-or-append on ghost field tables, mirroring `obj_set`.
pub open spec fn model_set(
    fields: Seq<(Seq<char>, JsonModel)>,
    key: Seq<char>,
    value: JsonModel,
) -> Seq<(Seq<char>, JsonModel)>
    decreases fields.len(),
{
    if fields.len() == 0 {
        seq![(key, value)]
    } else if fields[0].0 == key {
        seq![(key, value)] + fields.drop_first()
    } else {
        seq![fields[0]] + model_set(fields.drop_first(), key, value)
    }
}

/// Writes a whole source into a ghost field table, in order: a later write
/// to the same name wins.
pub open spec fn model_apply(
    acc: Seq<(Seq<char>, JsonModel)>,
    src: Seq<(Seq<char>, JsonModel)>,
) -> Seq<(Seq<char>, JsonModel)>
    decreases src.len(),
{
    if src.len() == 0 {
        acc
    } else {
        model_set(model_apply(acc, src.drop_last()), src.last().0, src.last().1)
    }
}

/// Some field of the table has this name.
pub open spec fn model_has(fields: Seq<(Seq<char>, JsonModel)>, key: Seq<char>) -> bool {
    exists|k: int| 0 <= k < fields.len() && (#[trigger] fields[k]).0 == key
}

/// The metadata block of a generated event.
pub open spec fn generated_metadata_model(
    class_name: Seq<char>,
    uid: u32,
    event_uid: Seq<char>,
) -> JsonModel {
    JsonModel::Obj(
        seq![
            ("version"@, JsonModel::Text("1.7.0-dev"@)),
            ("product"@, JsonModel::Null),
            ("uid"@, JsonModel::Text(event_uid)),
            ("event_class"@, JsonModel::Text(class_name)),
            ("category_uid"@, JsonModel::Num(dec_str((uid / 1000) as nat))),
            ("class_uid"@, JsonModel::Num(dec_str(uid as nat))),
        ],
    )
}

/// A whole generated event document.
pub open spec fn generated_event_model(
    class_name: Seq<char>,
    uid: u32,
    event_uid: Seq<char>,
    fields: Seq<(Seq<char>, JsonModel)>,
) -> JsonModel {
    JsonModel::Obj(seq![("metadata"@, generated_metadata_model(class_name, uid, event_uid))]
        + fields)
}

/// The serialized text of a successful generation, given the fresh event
/// identifier and the timestamp the clock supplied.
pub open spec fn generated_text(req: GenerateEventRequest, u: Seq<char>, t: Seq<char>) -> Seq<
    char,
> {
    match builtin_class_uid(req.event_class@) {
        Some(uid) => match source_fields_model(req.required_fields@, true, uid, t) {
            Some(reqf) => match (match req.optional_fields {
                Some(o) => source_fields_model(o@, false, uid, t),
                None => Some(Seq::<(Seq<char>, JsonModel)>::empty()),
            }) {
                Some(of) => {
                    let merged = model_apply(model_apply(Seq::empty(), reqf), of);
                    let ff = if model_has(merged, "time"@) {
                        merged
                    } else {
                        model_set(merged, "time"@, JsonModel::Text(t))
                    };
                    model_text(
                        generated_event_model(req.event_class@, uid, u, ff),
                        Seq::<char>::empty(),
                    )
                },
                None => Seq::empty(),
            },
            None => Seq::empty(),
        },
        None => Seq::empty(),
    }
}

/// A ghost table splits as first field plus rest.
proof fn lemma_cons_model(e: (String, JsonValue), s: Seq<(String, JsonValue)>)
    ensures
        fields_model(seq![e] + s) == seq![(e.0@, jv_model(e.1))] + fields_model(s),
    decreases s.len(),
{
    if s.len() == 0 {
        assert(s =~= Seq::<(String, JsonValue)>::empty());
        assert(fields_model(s) == Seq::<(Seq<char>, JsonModel)>::empty());
        assert((seq![e] + s).drop_last() =~= s);
        assert((seq![e] + s).last() == e);
        assert(fields_model(seq![e] + s) =~= seq![(e.0@, jv_model(e.1))] + fields_model(s));
    } else {
        assert((seq![e] + s).drop_last() =~= seq![e] + s.drop_last());
        assert((seq![e] + s).last() == s.last());
        lemma_cons_model(e, s.drop_last());
        assert(fields_model(seq![e] + s) =~= seq![(e.0@, jv_model(e.1))] + fields_model(s));
    }
}

/// Setting a field commutes with taking the ghost mirror.
proof fn lemma_set_model(fields: Seq<(String, JsonValue)>, key: String, value: JsonValue)
    ensures
        fields_model(obj_set(fields, key, value)) == model_set(
            fields_model(fields),
            key@,
            jv_model(value),
        ),
    decreases fields.len(),
{
    lemma_fields_model_len(fields);
    if fields.len() == 0 {
        assert(fields =~= Seq::<(String, JsonValue)>::empty());
        assert(fields_model(fields) == Seq::<(Seq<char>, JsonModel)>::empty());
        assert(seq![(key, value)].drop_last() =~= fields);
        assert(seq![(key, value)].last() == (key, value));
        assert(fields_model(seq![(key, value)]) =~= model_set(
            fields_model(fields),
            key@,
            jv_model(value),
        ));
    } else if fields[0].0@ == key@ {
        lemma_cons_model((key, value), fields.drop_first());
        lemma_fields_model_len(fields.drop_first());
        assert(fields_model(fields).drop_first() =~= fields_model(fields.drop_first()));
        assert(fields_model(obj_set(fields, key, value)) =~= model_set(
            fields_model(fields),
            key@,
            jv_model(value),
        ));
    } else {
        lemma_cons_model(fields[0], obj_set(fields.drop_first(), key, value));
        lemma_set_model(fields.drop_first(), key, value);
        lemma_fields_model_len(fields.drop_first());
        assert(fields_model(fields).drop_first() =~= fields_model(fields.drop_first()));
        assert(fields_model(obj_set(fields, key, value)) =~= model_set(
            fields_model(fields),
            key@,
            jv_model(value),
        ));
    }
}

/// Writing a source one field at a time, front first, is writing it whole.
proof fn lemma_apply_cons(
    acc: Seq<(Seq<char>, JsonModel)>,
    e: (Seq<char>, JsonModel),
    rest: Seq<(Seq<char>, JsonModel)>,
)
    ensures
        model_apply(acc, seq![e] + rest) == model_apply(model_set(acc, e.0, e.1), rest),
    decreases rest.len(),
{
    if rest.len() == 0 {
        assert(rest =~= Seq::<(Seq<char>, JsonModel)>::empty());
        assert((seq![e] + rest).drop_last() =~= rest);
        assert((seq![e] + rest).last() == e);
        assert(model_apply(acc, rest) == acc);
        assert(model_apply(acc, seq![e] + rest) == model_set(acc, e.0, e.1));
        assert(model_apply(model_set(acc, e.0, e.1), rest) == model_set(acc, e.0, e.1));
    } else {
        assert((seq![e] + rest).drop_last() =~= seq![e] + rest.drop_last());
        assert((seq![e] + rest).last() == rest.last());
        lemma_apply_cons(acc, e, rest.drop_last());
    }
}

/// The default for one bare required-field name.
fn required_default(name: &str, uid: u32, time_text: &str) -> (r: JsonValue)
    ensures
        jv_model(r) == required_default_model(name@, uid, time_text@),
{
    if crate::text::str_eq(name, "activity_id") {
        json_num_u64(1)
    } else if crate::text::str_eq(name, "category_uid") {
        json_num_u64((uid / 1000) as u64)
    } else if crate::text::str_eq(name, "class_uid") {
        json_num_u64(uid as u64)
    } else if crate::text::str_eq(name, "severity_id") {
        json_num_u64(1)
    } else if crate::text::str_eq(name, "type_uid") {
        json_num_u64((uid as u64) * 100 + 1)
    } else if crate::text::str_eq(name, "time") {
        JsonValue::Text(time_text.to_owned())
    } else {
        let mut s = String::from_str("default_");
        s.append(name);
        JsonValue::Text(s)
    }
}

/// The default for one bare optional-field name.
fn optional_default(name: &str) -> (r: JsonValue)
    ensures
        jv_model(r) == optional_default_model(name@),
{
    if crate::text::str_eq(name, "message") {
        JsonValue::Text(String::from_str("Generated OCSF event"))
    } else if crate::text::str_eq(name, "user") {
        let mut f: Vec<(String, JsonValue)> = Vec::new();
        proof {
            assert(fields_model(f@) =~= Seq::<(Seq<char>, JsonModel)>::empty());
        }
        model_push(&mut f, "name", JsonValue::Text(String::from_str("example_user")));
        model_push(&mut f, "uid", JsonValue::Text(String::from_str("1001")));
        let r = JsonValue::Obj(f);
        proof {
            assert(fields_model(f@) =~= optional_default_model(name@)->Obj_0);
        }
        r
    } else {
        let mut s = String::from_str("default_");
        s.append(name);
        JsonValue::Text(s)
    }
}

/// Normalizes one field source into a field table.
fn parse_source(text: &str, required: bool, uid: u32, time_text: &str) -> (r: Result<
    Vec<(String, JsonValue)>,
    OcsfError,
>)
    ensures
        match r {
            Ok(f) => source_fields_model(text@, required, uid, time_text@) == Some(
                fields_model(f@),
            ),
            Err(e) => e == OcsfError::InvalidFieldSource && bad_source(text@),
        },
{
    if crate::text::starts_with_brace(text) {
        match crate::outside::parse_json(text) {
            Some(v) => match v {
                JsonValue::Obj(f) => Ok(f),
                _ => Err(OcsfError::InvalidFieldSource),
            },
            None => Err(OcsfError::InvalidFieldSource),
        }
    } else {
        let names = crate::text::split_commas_trimmed(text);
        let n = names.len();
        let mut out: Vec<(String, JsonValue)> = Vec::new();
        let mut i: usize = 0;
        proof {
            assert(views_of(names@) =~= name_list(text@));
            assert(fields_model(out@) =~= named_fields_model(
                name_list(text@).take(0),
                required,
                uid,
                time_text@,
            ));
        }
        while i < n
            invariant
                i <= n,
                n == names@.len(),
                views_of(names@) == name_list(text@),
                fields_model(out@) == named_fields_model(
                    name_list(text@).take(i as int),
                    required,
                    uid,
                    time_text@,
                ),
            decreases n - i,
        {
            let name = &names[i];
            if !name.as_str().is_empty() {
                let value = if required {
                    required_default(name.as_str(), uid, time_text)
                } else {
                    optional_default(name.as_str())
                };
                model_push(&mut out, name.as_str(), value);
            }
            proof {
                assert(name_list(text@).take(i + 1).drop_last() =~= name_list(text@).take(
                    i as int,
                ));
                assert(name_list(text@).take(i + 1).last() == name_list(text@)[i as int]);
                assert(name_list(text@)[i as int] == names@[i as int]@);
                assert(fields_model(out@) =~= named_fields_model(
                    name_list(text@).take(i + 1),
                    required,
                    uid,
                    time_text@,
                ));
            }
            i = i + 1;
        }
        proof {
            assert(name_list(text@).take(n as int) =~= name_list(text@));
        }
        Ok(out)
    }
}

/// Writes a whole source into the event, front first.
fn merge_fields(event: &mut OcsfEvent, src: Vec<(String, JsonValue)>)
    ensures
        final(event).metadata == old(event).metadata,
        fields_model(final(event).fields@) == model_apply(
            fields_model(old(event).fields@),
            fields_model(src@),
        ),
{
    let mut src = src;
    let ghost target = model_apply(fields_model(old(event).fields@), fields_model(src@));
    while src.len() > 0
        invariant
            event.metadata == old(event).metadata,
            model_apply(fields_model(event.fields@), fields_model(src@)) == target,
        decreases src@.len(),
    {
        let ghost s_before = src@;
        let e = src.remove(0);
        let ghost prior_fields = event.fields@;
        event.set_field(e.0, e.1);
        proof {
            assert(src@ =~= s_before.drop_first());
            assert(s_before =~= seq![s_before[0]] + s_before.drop_first());
            lemma_cons_model(s_before[0], s_before.drop_first());
            lemma_apply_cons(
                fields_model(prior_fields),
                (s_before[0].0@, jv_model(s_before[0].1)),
                fields_model(s_before.drop_first()),
            );
            lemma_set_model(prior_fields, s_before[0].0, s_before[0].1);
        }
    }
    proof {
        assert(fields_model(src@) =~= Seq::<(Seq<char>, JsonModel)>::empty());
    }
}

/// Builds and serializes an event of the requested class: the category
/// number is always the class number divided by 1000, whatever any field
/// source says, and a missing `time` is filled with the current moment.
pub fn generate_ocsf_event(request: GenerateEventRequest) -> (r: Result<String, OcsfError>)
    ensures
        match r {
            Ok(s) => {
                &&& builtin_class_uid(request.event_class@) is Some
                &&& !bad_source(request.required_fields@)
                &&& match request.optional_fields {
                    Some(o) => !bad_source(o@),
                    None => true,
                }
                &&& exists|u: Seq<char>, t: Seq<char>|
                    u.len() == 36 && t.len() > 0 && s@ == #[trigger] generated_text(
                        request,
                        u,
                        t,
                    )
            },
            Err(e) => {
                ||| (e == OcsfError::EventClassNotFound && builtin_class_uid(
                    request.event_class@,
                ) is None)
                ||| (e == OcsfError::InvalidFieldSource && builtin_class_uid(
                    request.event_class@,
                ) is Some && (bad_source(request.required_fields@) || match request
                    .optional_fields {
                    Some(o) => bad_source(o@),
                    None => false,
                }))
            },
        },
{
    let ghost req = request;
    let schema = match &request.version {
        Some(v) => OcsfSchema::load_version(v.as_str()),
        None => OcsfSchema::load_version("1.7.0-dev"),
    };
    proof {
        lemma_builtin_lookup(schema, request.event_class@);
    }
    let class_uid = match schema.get_event_class(request.event_class.as_str()) {
        Some(ec) => ec.uid,
        None => {
            return Err(OcsfError::EventClassNotFound);
        },
    };
    let time_text = crate::outside::now_rfc3339();
    let ghost t = time_text@;
    let req_fields = match parse_source(
        request.required_fields.as_str(),
        true,
        class_uid,
        time_text.as_str(),
    ) {
        Ok(f) => f,
        Err(e) => {
            return Err(e);
        },
    };
    let opt_fields = match &request.optional_fields {
        Some(o) => match parse_source(o.as_str(), false, class_uid, time_text.as_str()) {
            Ok(f) => f,
            Err(e) => {
                return Err(e);
            },
        },
        None => Vec::new(),
    };
    let ghost reqf = fields_model(req_fields@);
    let ghost optf = fields_model(opt_fields@);
    let mut event = OcsfEvent::new(
        request.event_class.as_str(),
        class_uid,
        crate::category_of_class_uid(class_uid),
    );
    let ghost event_uid = event.metadata.uid@;
    proof {
        assert(fields_model(event.fields@) =~= Seq::<(Seq<char>, JsonModel)>::empty());
    }
    merge_fields(&mut event, req_fields);
    merge_fields(&mut event, opt_fields);
    let ghost merged = fields_model(event.fields@);
    if !event.has_field("time") {
        proof {
            crate::json::lemma_fields_model_len(event.fields@);
            if model_has(merged, "time"@) {
                let k = choose|k: int| 0 <= k < merged.len() && (#[trigger] merged[k]).0
                    == "time"@;
                assert(crate::json::obj_lookup(event.fields@, "time"@) is Some) by {
                    lemma_lookup_from_index(event.fields@, "time"@, k);
                }
            }
        }
        let ghost prior_fields = event.fields@;
        let time_key = String::from_str("time");
        let time_value = JsonValue::Text(time_text);
        proof {
            lemma_set_model(prior_fields, time_key, time_value);
            assert(jv_model(time_value) == JsonModel::Text(t));
        }
        event.set_field(time_key, time_value);
    } else {
        proof {
            lemma_index_from_lookup(event.fields@, "time"@);
            lemma_fields_model_len(event.fields@);
            let k = choose|k: int|
                0 <= k < event.fields@.len() && (#[trigger] event.fields@[k]).0@ == "time"@;
            assert(merged[k].0 == "time"@);
        }
    }
    let out = event.to_json();
    proof {
        let ff = fields_model(event.fields@);
        assert(crate::event::metadata_model(event.metadata)->Obj_0 =~= generated_metadata_model(
            req.event_class@,
            class_uid,
            event_uid,
        )->Obj_0);
        assert(crate::event::metadata_model(event.metadata) == generated_metadata_model(
            req.event_class@,
            class_uid,
            event_uid,
        ));
        assert(crate::event::event_model(event)->Obj_0 =~= generated_event_model(
            req.event_class@,
            class_uid,
            event_uid,
            ff,
        )->Obj_0);
        assert(crate::event::event_model(event) == generated_event_model(
            req.event_class@,
            class_uid,
            event_uid,
            ff,
        ));
        assert(out@ == generated_text(req, event_uid, t));
    }
    Ok(out)
}

/// Every generated event document carries `category_uid == class_uid / 1000`
/// in its metadata block, whatever the field sources held: the builder
/// derives the category number from the resolved class alone.
pub proof fn lemma_category_follows_class(
    class_name: Seq<char>,
    uid: u32,
    event_uid: Seq<char>,
    fields: Seq<(Seq<char>, JsonModel)>,
)
    ensures
        generated_event_model(class_name, uid, event_uid, fields)->Obj_0[0].1->Obj_0[4] == (
            "category_uid"@,
            JsonModel::Num(dec_str((uid / 1000) as nat)),
        ),
        generated_event_model(class_name, uid, event_uid, fields)->Obj_0[0].1->Obj_0[5] == (
            "class_uid"@,
            JsonModel::Num(dec_str(uid as nat)),
        ),
{
}

/// A field found at an index is found by lookup.
proof fn lemma_lookup_from_index(fields: Seq<(String, JsonValue)>, key: Seq<char>, k: int)
    requires
        0 <= k < fields.len(),
        fields[k].0@ == key,
    ensures
        crate::json::obj_lookup(fields, key) is Some,
    decreases k,
{
    if fields[0].0@ != key {
        assert(fields.drop_first()[k - 1] == fields[k]);
        lemma_lookup_from_index(fields.drop_first(), key, k - 1);
    }
}

/// A field found by lookup sits at some index.
proof fn lemma_index_from_lookup(fields: Seq<(String, JsonValue)>, key: Seq<char>)
    requires
        crate::json::obj_lookup(fields, key) is Some,
    ensures
        exists|k: int| 0 <= k < fields.len() && (#[trigger] fields[k]).0@ == key,
    decreases fields.len(),
{
    if fields.len() > 0 && fields[0].0@ != key {
        lemma_index_from_lookup(fields.drop_first(), key);
        let k = choose|k: int|
            0 <= k < fields.drop_first().len() && (#[trigger] fields.drop_first()[k]).0@ == key;
        assert(fields[k + 1].0@ == key);
    }
}

} // verus!
