//! Schema browsing: one operation that, depending on its filters, lists the
//! categories, the classes of one category, or the details of one class,
//! serialized as a JSON response document.

use vstd::prelude::*;
use crate::errors::OcsfError;
use crate::event_generator::builtin_class_uid;
use crate::json::{
    JsonValue, JsonModel, jv_model, list_model, fields_model, model_text, model_push,
    model_push_elem, render_json, json_num_u64,
};
use crate::schema::{
    OcsfSchema, SchemaInfo, CategorySummary, EventClassSummary, AttributeSummary, version_known,
    spec_category_description, builtin_category_present, lemma_builtin_grouping,
    lemma_builtin_classes_in_category, summarizes, classes_in_category, member_keys,
    category_present, required_attr_names,
};
use crate::table::views_of;
use crate::text::{dec_str, lex_lt, lemma_lex_trichotomy};

verus! {

#[derive(Debug)]
pub struct BrowseSchemaRequest {
    pub version: Option<String>,
    pub category: Option<String>,
    pub event_class: Option<String>,
    pub show_attributes: bool,
}

/// The version identifier the loaded schema reports for a request.
pub open spec fn loaded_version_text(version: Option<String>) -> Seq<char> {
    match version {
        Some(v) => if version_known(v@) {
            v@
        } else {
            "1.7.0-dev"@
        },
        None => "1.7.0-dev"@,
    }
}

/// An optional list serializes as an array or as null.
pub open spec fn opt_arr(o: Option<Seq<JsonModel>>) -> JsonModel {
    match o {
        Some(ms) => JsonModel::Arr(ms),
        None => JsonModel::Null,
    }
}

/// The browsing response document.
pub open spec fn schema_info_model(
    summary: Seq<char>,
    categories: Option<Seq<JsonModel>>,
    event_classes: Option<Seq<JsonModel>>,
    attributes: Option<Seq<JsonModel>>,
) -> JsonModel {
    JsonModel::Obj(
        seq![
            ("summary"@, JsonModel::Text(summary)),
            ("categories"@, opt_arr(categories)),
            ("event_classes"@, opt_arr(event_classes)),
            ("attributes"@, opt_arr(attributes)),
        ],
    )
}

/// One category row of the category listing.
pub open spec fn category_summary_model(
    name: Seq<char>,
    description: Seq<char>,
    count: nat,
    classes: Seq<Seq<char>>,
) -> JsonModel {
    JsonModel::Obj(
        seq![
            ("name"@, JsonModel::Text(name)),
            ("description"@, JsonModel::Text(description)),
            ("event_count"@, JsonModel::Num(dec_str(count))),
            (
                "event_classes"@,
                JsonModel::Arr(classes.map_values(|t: Seq<char>| JsonModel::Text(t))),
            ),
        ],
    )
}

/// One class row of a class listing.
pub open spec fn class_summary_model(
    uid: nat,
    name: Seq<char>,
    caption: Seq<char>,
    description: Seq<char>,
    category: Seq<char>,
) -> JsonModel {
    JsonModel::Obj(
        seq![
            ("uid"@, JsonModel::Num(dec_str(uid))),
            ("name"@, JsonModel::Text(name)),
            ("caption"@, JsonModel::Text(caption)),
            ("description"@, JsonModel::Text(description)),
            ("category"@, JsonModel::Text(category)),
        ],
    )
}

/// One attribute row of a class's detail listing.
pub open spec fn attr_summary_model(
    name: Seq<char>,
    data_type: Seq<char>,
    description: Seq<char>,
    required: bool,
) -> JsonModel {
    JsonModel::Obj(
        seq![
            ("name"@, JsonModel::Text(name)),
            ("data_type"@, JsonModel::Text(data_type)),
            ("description"@, JsonModel::Text(description)),
            ("required"@, JsonModel::Bool(required)),
        ],
    )
}

/// How one category row presents itself.
pub open spec fn category_row_model(c: CategorySummary) -> JsonModel {
    category_summary_model(
        c.name@,
        c.description@,
        c.event_count as nat,
        views_of(c.event_classes@),
    )
}

/// How one class row presents itself.
pub open spec fn class_row_model(c: EventClassSummary) -> JsonModel {
    class_summary_model(c.uid as nat, c.name@, c.caption@, c.description@, c.category@)
}

/// How one attribute row presents itself.
pub open spec fn attr_row_model(a: AttributeSummary) -> JsonModel {
    attr_summary_model(a.name@, a.data_type@, a.description@, a.required)
}

/// How a whole browsing result presents itself.
pub open spec fn info_struct_model(info: SchemaInfo) -> JsonModel {
    schema_info_model(
        info.summary@,
        match info.categories {
            Some(cs) => Some(cs@.map_values(|c: CategorySummary| category_row_model(c))),
            None => None,
        },
        match info.event_classes {
            Some(cs) => Some(cs@.map_values(|c: EventClassSummary| class_row_model(c))),
            None => None,
        },
        match info.attributes {
            Some(xs) => Some(xs@.map_values(|a: AttributeSummary| attr_row_model(a))),
            None => None,
        },
    )
}

/// The category rows of every stored document: the three populated
/// categories, sorted by name.
pub open spec fn builtin_categories_model() -> Seq<JsonModel> {
    seq![
        category_summary_model(
            "iam"@,
            spec_category_description("iam"@),
            1,
            seq!["authentication"@],
        ),
        category_summary_model(
            "network"@,
            spec_category_description("network"@),
            1,
            seq!["network_activity"@],
        ),
        category_summary_model(
            "system"@,
            spec_category_description("system"@),
            2,
            seq!["process_activity"@, "file_activity"@],
        ),
    ]
}

/// The class rows each category of a stored document lists.
pub open spec fn builtin_class_summaries(cat: Seq<char>) -> Seq<JsonModel> {
    if cat == "iam"@ {
        seq![
            class_summary_model(
                3002,
                "authentication"@,
                "Authentication"@,
                "User authentication events (login, logout, failed attempts)"@,
                "iam"@,
            ),
        ]
    } else if cat == "system"@ {
        seq![
            class_summary_model(
                1007,
                "process_activity"@,
                "Process Activity"@,
                "Process lifecycle events (start, stop, injection)"@,
                "system"@,
            ),
            class_summary_model(
                1001,
                "file_activity"@,
                "File Activity"@,
                "File system operations"@,
                "system"@,
            ),
        ]
    } else if cat == "network"@ {
        seq![
            class_summary_model(
                4001,
                "network_activity"@,
                "Network Activity"@,
                "Network connections and traffic"@,
                "network"@,
            ),
        ]
    } else {
        Seq::empty()
    }
}

/// The response document of a successful browse.
pub open spec fn browse_model(request: BrowseSchemaRequest) -> JsonModel {
    if request.category is None && request.event_class is None {
        schema_info_model(
            "OCSF v"@ + loaded_version_text(request.version) + " - "@ + dec_str(3)
                + " categories available"@,
            Some(builtin_categories_model()),
            None,
            None,
        )
    } else {
        match request.category {
            Some(cat) => schema_info_model(
                "Category '"@ + cat@ + "' contains "@ + dec_str(
                    builtin_class_summaries(cat@).len() as nat,
                ) + " event classes"@,
                None,
                Some(builtin_class_summaries(cat@)),
                None,
            ),
            None => match request.event_class {
                Some(ec) => schema_info_model(
                    "Event class '"@ + ec@ + "' (UID: "@ + dec_str(
                        match builtin_class_uid(ec@) {
                            Some(u) => u as nat,
                            None => 0,
                        },
                    ) + ") - "@ + dec_str(0) + " required fields"@,
                    None,
                    None,
                    if request.show_attributes {
                        Some(Seq::<JsonModel>::empty())
                    } else {
                        None
                    },
                ),
                None => JsonModel::Null,
            },
        }
    }
}

fn category_value(c: &CategorySummary) -> (r: JsonValue)
    ensures
        jv_model(r) == category_row_model(*c),
{
    let mut f: Vec<(String, JsonValue)> = Vec::new();
    proof {
        assert(fields_model(f@) =~= Seq::<(Seq<char>, JsonModel)>::empty());
    }
    model_push(&mut f, "name", JsonValue::Text(c.name.clone()));
    model_push(&mut f, "description", JsonValue::Text(c.description.clone()));
    model_push(&mut f, "event_count", json_num_u64(c.event_count as u64));
    model_push(&mut f, "event_classes", crate::json::text_array(&c.event_classes));
    let r = JsonValue::Obj(f);
    proof {
        assert(fields_model(f@) =~= category_row_model(*c)->Obj_0);
    }
    r
}

fn class_summary_value(c: &EventClassSummary) -> (r: JsonValue)
    ensures
        jv_model(r) == class_row_model(*c),
{
    let mut f: Vec<(String, JsonValue)> = Vec::new();
    proof {
        assert(fields_model(f@) =~= Seq::<(Seq<char>, JsonModel)>::empty());
    }
    model_push(&mut f, "uid", json_num_u64(c.uid as u64));
    model_push(&mut f, "name", JsonValue::Text(c.name.clone()));
    model_push(&mut f, "caption", JsonValue::Text(c.caption.clone()));
    model_push(&mut f, "description", JsonValue::Text(c.description.clone()));
    model_push(&mut f, "category", JsonValue::Text(c.category.clone()));
    let r = JsonValue::Obj(f);
    proof {
        assert(fields_model(f@) =~= class_row_model(*c)->Obj_0);
    }
    r
}

fn attr_summary_value(a: &AttributeSummary) -> (r: JsonValue)
    ensures
        jv_model(r) == attr_row_model(*a),
{
    let mut f: Vec<(String, JsonValue)> = Vec::new();
    proof {
        assert(fields_model(f@) =~= Seq::<(Seq<char>, JsonModel)>::empty());
    }
    model_push(&mut f, "name", JsonValue::Text(a.name.clone()));
    model_push(&mut f, "data_type", JsonValue::Text(a.data_type.clone()));
    model_push(&mut f, "description", JsonValue::Text(a.description.clone()));
    model_push(&mut f, "required", JsonValue::Bool(a.required));
    let r = JsonValue::Obj(f);
    proof {
        assert(fields_model(f@) =~= attr_row_model(*a)->Obj_0);
    }
    r
}

/// Serializes a browsing result.
pub fn schema_info_value(info: &SchemaInfo) -> (r: JsonValue)
    ensures
        jv_model(r) == info_struct_model(*info),
{
    let mut f: Vec<(String, JsonValue)> = Vec::new();
    proof {
        assert(fields_model(f@) =~= Seq::<(Seq<char>, JsonModel)>::empty());
    }
    model_push(&mut f, "summary", JsonValue::Text(info.summary.clone()));
    let categories: JsonValue = match &info.categories {
        Some(cs) => {
            let mut rows: Vec<JsonValue> = Vec::new();
            let n = cs.len();
            let mut i: usize = 0;
            proof {
                assert(list_model(rows@) =~= cs@.take(0).map_values(
                    |c: CategorySummary| category_row_model(c),
                ));
            }
            while i < n
                invariant
                    i <= n,
                    n == cs@.len(),
                    list_model(rows@) == cs@.take(i as int).map_values(
                        |c: CategorySummary| category_row_model(c),
                    ),
                decreases n - i,
            {
                model_push_elem(&mut rows, category_value(&cs[i]));
                proof {
                    assert(list_model(rows@) =~= cs@.take(i + 1).map_values(
                        |c: CategorySummary| category_row_model(c),
                    ));
                }
                i = i + 1;
            }
            proof {
                assert(cs@.take(n as int) =~= cs@);
            }
            JsonValue::Arr(rows)
        },
        None => JsonValue::Null,
    };
    model_push(&mut f, "categories", categories);
    let event_classes: JsonValue = match &info.event_classes {
        Some(cs) => {
            let mut rows: Vec<JsonValue> = Vec::new();
            let n = cs.len();
            let mut i: usize = 0;
            proof {
                assert(list_model(rows@) =~= cs@.take(0).map_values(
                    |c: EventClassSummary| class_row_model(c),
                ));
            }
            while i < n
                invariant
                    i <= n,
                    n == cs@.len(),
                    list_model(rows@) == cs@.take(i as int).map_values(
                        |c: EventClassSummary| class_row_model(c),
                    ),
                decreases n - i,
            {
                model_push_elem(&mut rows, class_summary_value(&cs[i]));
                proof {
                    assert(list_model(rows@) =~= cs@.take(i + 1).map_values(
                        |c: EventClassSummary| class_row_model(c),
                    ));
                }
                i = i + 1;
            }
            proof {
                assert(cs@.take(n as int) =~= cs@);
            }
            JsonValue::Arr(rows)
        },
        None => JsonValue::Null,
    };
    model_push(&mut f, "event_classes", event_classes);
    let attributes: JsonValue = match &info.attributes {
        Some(xs) => {
            let mut rows: Vec<JsonValue> = Vec::new();
            let n = xs.len();
            let mut i: usize = 0;
            proof {
                assert(list_model(rows@) =~= xs@.take(0).map_values(
                    |a: AttributeSummary| attr_row_model(a),
                ));
            }
            while i < n
                invariant
                    i <= n,
                    n == xs@.len(),
                    list_model(rows@) == xs@.take(i as int).map_values(
                        |a: AttributeSummary| attr_row_model(a),
                    ),
                decreases n - i,
            {
                model_push_elem(&mut rows, attr_summary_value(&xs[i]));
                proof {
                    assert(list_model(rows@) =~= xs@.take(i + 1).map_values(
                        |a: AttributeSummary| attr_row_model(a),
                    ));
                }
                i = i + 1;
            }
            proof {
                assert(xs@.take(n as int) =~= xs@);
            }
            JsonValue::Arr(rows)
        },
        None => JsonValue::Null,
    };
    model_push(&mut f, "attributes", attributes);
    let r = JsonValue::Obj(f);
    proof {
        assert(fields_model(f@) =~= info_struct_model(*info)->Obj_0);
    }
    r
}

/// Builds the attribute rows of a class detail listing: every listed
/// attribute is a required one, presented with a fixed type tag.
fn attr_rows(req_attrs: &Vec<String>, class_name: &str) -> (r: Vec<AttributeSummary>)
    ensures
        r@.len() == req_attrs@.len(),
        forall|k: int|
            0 <= k < r@.len() ==> {
                &&& (#[trigger] r@[k]).name@ == req_attrs@[k]@
                &&& r@[k].data_type@ == "string"@
                &&& r@[k].description@ == "Required field for "@ + class_name@
                &&& r@[k].required
            },
{
    let n = req_attrs.len();
    let mut out: Vec<AttributeSummary> = Vec::new();
    let mut i: usize = 0;
    while i < n
        invariant
            i <= n,
            n == req_attrs@.len(),
            out@.len() == i,
            forall|k: int|
                0 <= k < i ==> {
                    &&& (#[trigger] out@[k]).name@ == req_attrs@[k]@
                    &&& out@[k].data_type@ == "string"@
                    &&& out@[k].description@ == "Required field for "@ + class_name@
                    &&& out@[k].required
                },
        decreases n - i,
    {
        let mut description = String::from_str("Required field for ");
        description.append(class_name);
        out.push(
            AttributeSummary {
                name: req_attrs[i].clone(),
                data_type: String::from_str("string"),
                description,
                required: true,
            },
        );
        i = i + 1;
    }
    out
}

/// Browses a loaded schema: with no filters the category listing, with a
/// category filter that category's classes, with a class filter the class's
/// details; only an unknown class is an error.
pub fn browse_ocsf_schema(request: BrowseSchemaRequest) -> (r: Result<String, OcsfError>)
    ensures
        match r {
            Ok(s) => {
                &&& (request.category is Some || match request.event_class {
                    Some(ec) => builtin_class_uid(ec@) is Some,
                    None => true,
                })
                &&& s@ == model_text(browse_model(request), Seq::<char>::empty())
            },
            Err(e) => {
                &&& e == OcsfError::EventClassNotFound
                &&& request.category is None
                &&& match request.event_class {
                    Some(ec) => builtin_class_uid(ec@) is None,
                    None => false,
                }
            },
        },
{
    let ghost req = request;
    let schema = match &request.version {
        Some(v) => OcsfSchema::load_version(v.as_str()),
        None => OcsfSchema::load_version("1.7.0-dev"),
    };
    if request.category.is_none() && request.event_class.is_none() {
        let categories = schema.list_categories();
        proof {
            lemma_browse_categories(schema, categories@);
        }
        let mut summary = String::from_str("OCSF v");
        summary.append(schema.version.as_str());
        summary.append(" - ");
        let count = crate::text::u64_to_string(categories.len() as u64);
        summary.append(count.as_str());
        summary.append(" categories available");
        proof {
            assert(summary@ =~= "OCSF v"@ + loaded_version_text(req.version) + " - "@ + dec_str(3)
                + " categories available"@);
        }
        let info = SchemaInfo { summary, categories: Some(categories), event_classes: None, attributes: None };
        let v = schema_info_value(&info);
        proof {
            let rows = info.categories->Some_0@;
            assert(rows.map_values(|c: CategorySummary| category_row_model(c))
                =~= builtin_categories_model());
        }
        Ok(render_json(&v))
    } else if request.category.is_some() {
        let cat = match &request.category {
            Some(c) => c,
            None => {
                proof {
                    assert(false);
                }
                return Err(OcsfError::EventClassNotFound);
            },
        };
        let ecs = schema.list_event_classes_for_category(cat.as_str());
        proof {
            lemma_browse_classes(schema, cat@, ecs@);
        }
        let mut summary = String::from_str("Category '");
        summary.append(cat.as_str());
        summary.append("' contains ");
        let count = crate::text::u64_to_string(ecs.len() as u64);
        summary.append(count.as_str());
        summary.append(" event classes");
        proof {
            assert(summary@ =~= "Category '"@ + cat@ + "' contains "@ + dec_str(
                builtin_class_summaries(cat@).len() as nat,
            ) + " event classes"@);
        }
        let info = SchemaInfo { summary, categories: None, event_classes: Some(ecs), attributes: None };
        let v = schema_info_value(&info);
        proof {
            let rows = info.event_classes->Some_0@;
            assert(rows.map_values(|c: EventClassSummary| class_row_model(c))
                =~= builtin_class_summaries(req.category->Some_0@));
        }
        Ok(render_json(&v))
    } else {
        let ec_name = match &request.event_class {
            Some(n) => n,
            None => {
                proof {
                    assert(false);
                }
                return Err(OcsfError::EventClassNotFound);
            },
        };
        proof {
            crate::event_generator::lemma_builtin_lookup(schema, ec_name@);
        }
        let (class_uid, class_name) = match schema.get_event_class(ec_name.as_str()) {
            Some(ec) => (ec.uid, ec.name.clone()),
            None => {
                return Err(OcsfError::EventClassNotFound);
            },
        };
        let req_attrs = schema.get_required_attributes(ec_name.as_str());
        proof {
            assert(required_attr_names(Seq::<(String, crate::schema::Attribute)>::empty())
                == Seq::<Seq<char>>::empty());
            assert(req_attrs@.len() == 0);
        }
        let attributes: Option<Vec<AttributeSummary>> = if request.show_attributes {
            Some(attr_rows(&req_attrs, class_name.as_str()))
        } else {
            None
        };
        let mut summary = String::from_str("Event class '");
        summary.append(class_name.as_str());
        summary.append("' (UID: ");
        let uid_text = crate::text::u64_to_string(class_uid as u64);
        summary.append(uid_text.as_str());
        summary.append(") - ");
        let count = crate::text::u64_to_string(req_attrs.len() as u64);
        summary.append(count.as_str());
        summary.append(" required fields");
        proof {
            assert(summary@ =~= "Event class '"@ + ec_name@ + "' (UID: "@ + dec_str(
                match builtin_class_uid(ec_name@) {
                    Some(u) => u as nat,
                    None => 0,
                },
            ) + ") - "@ + dec_str(0) + " required fields"@);
        }
        let info = SchemaInfo { summary, categories: None, event_classes: None, attributes };
        let v = schema_info_value(&info);
        proof {
            if req.show_attributes {
                let rows = info.attributes->Some_0@;
                assert(rows.map_values(|a: AttributeSummary| attr_row_model(a)) =~= Seq::<
                    JsonModel,
                >::empty());
            }
        }
        Ok(render_json(&v))
    }
}

/// The category listing of a built-in class table is exactly the three
/// fixed rows, in order.
proof fn lemma_browse_categories(s: OcsfSchema, rows: Seq<CategorySummary>)
    requires
        crate::schema::has_builtin_classes(s),
        forall|i: int, j: int|
            0 <= i < j < rows.len() ==> lex_lt((#[trigger] rows[i]).name@, (#[trigger] rows[j]).name@),
        forall|i: int| 0 <= i < rows.len() ==> category_present(s.classes@, (#[trigger] rows[i]).name@),
        forall|cat: Seq<char>|
            #[trigger] category_present(s.classes@, cat) ==> exists|i: int|
                0 <= i < rows.len() && (#[trigger] rows[i]).name@ == cat,
        forall|i: int|
            0 <= i < rows.len() ==> (#[trigger] rows[i]).description@ == spec_category_description(
                rows[i].name@,
            ),
        forall|i: int|
            0 <= i < rows.len() ==> views_of((#[trigger] rows[i]).event_classes@) == member_keys(
                s.classes@,
                rows[i].name@,
            ),
        forall|i: int|
            0 <= i < rows.len() ==> (#[trigger] rows[i]).event_count == member_keys(
                s.classes@,
                rows[i].name@,
            ).len(),
    ensures
        rows.len() == 3,
        rows[0].name@ == "iam"@,
        rows[1].name@ == "network"@,
        rows[2].name@ == "system"@,
        forall|k: int|
            0 <= k < 3 ==> category_row_model(#[trigger] rows[k]) == builtin_categories_model()[k],
{
    reveal_strlit("iam");
    reveal_strlit("system");
    reveal_strlit("network");
    assert("iam"@.len() == 3);
    assert("system"@.len() == 6);
    assert("network"@.len() == 7);
    assert forall|i: int| 0 <= i < rows.len() implies builtin_category_present(
        (#[trigger] rows[i]).name@,
    ) by {
        lemma_builtin_grouping(s, rows[i].name@);
    }
    lemma_builtin_grouping(s, "iam"@);
    lemma_builtin_grouping(s, "network"@);
    lemma_builtin_grouping(s, "system"@);
    assert(category_present(s.classes@, "iam"@));
    assert(category_present(s.classes@, "network"@));
    assert(category_present(s.classes@, "system"@));
    let ia = choose|i: int| 0 <= i < rows.len() && (#[trigger] rows[i]).name@ == "iam"@;
    let ne = choose|i: int| 0 <= i < rows.len() && (#[trigger] rows[i]).name@ == "network"@;
    let sy = choose|i: int| 0 <= i < rows.len() && (#[trigger] rows[i]).name@ == "system"@;
    assert forall|i: int, j: int| 0 <= i < j < rows.len() implies (#[trigger] rows[i]).name@ != (
    #[trigger] rows[j]).name@ by {
        lemma_lex_trichotomy(rows[i].name@, rows[j].name@);
    }
    assert(ia != ne && ia != sy && ne != sy);
    assert(rows.len() >= 3);
    if rows.len() > 3 {
        assert(rows[0].name@ != rows[1].name@ && rows[0].name@ != rows[2].name@ && rows[0].name@
            != rows[3].name@ && rows[1].name@ != rows[2].name@ && rows[1].name@ != rows[3].name@
            && rows[2].name@ != rows[3].name@);
        assert(false);
    }
    proof_lex_category_order();
    assert forall|i: int, j: int| 0 <= i < j < rows.len() implies !lex_lt(
        (#[trigger] rows[j]).name@,
        (#[trigger] rows[i]).name@,
    ) by {
        lemma_lex_trichotomy(rows[i].name@, rows[j].name@);
    }
    assert(rows[0].name@ == "iam"@);
    assert(rows[1].name@ == "network"@);
    assert(rows[2].name@ == "system"@);
    assert(rows[0].event_count == 1 && rows[1].event_count == 1 && rows[2].event_count == 2);
    assert(views_of(rows[0].event_classes@) == seq!["authentication"@]);
    assert(views_of(rows[1].event_classes@) == seq!["network_activity"@]);
    assert(views_of(rows[2].event_classes@) == seq!["process_activity"@, "file_activity"@]);
}

/// The three populated category names in their plain string order.
proof fn proof_lex_category_order()
    ensures
        lex_lt("iam"@, "network"@),
        lex_lt("network"@, "system"@),
        lex_lt("iam"@, "system"@),
{
    reveal_strlit("iam");
    reveal_strlit("system");
    reveal_strlit("network");
    assert("iam"@.len() == 3);
    assert("system"@.len() == 6);
    assert("network"@.len() == 7);
    assert(lex_lt("iam"@, "network"@));
    assert(lex_lt("network"@, "system"@));
    assert(lex_lt("iam"@, "system"@));
}

/// The class listing of one category of a built-in class table is exactly
/// the fixed rows.
proof fn lemma_browse_classes(s: OcsfSchema, cat: Seq<char>, rows: Seq<EventClassSummary>)
    requires
        crate::schema::has_builtin_classes(s),
        rows.len() == classes_in_category(s.classes@, cat).len(),
        forall|k: int|
            0 <= k < rows.len() ==> summarizes(
                #[trigger] rows[k],
                classes_in_category(s.classes@, cat)[k],
            ),
    ensures
        rows.len() == builtin_class_summaries(cat).len(),
        forall|k: int|
            0 <= k < rows.len() ==> class_row_model(#[trigger] rows[k]) == builtin_class_summaries(
                cat,
            )[k],
{
    lemma_builtin_classes_in_category(s, cat);
    lemma_builtin_grouping(s, cat);
    if cat == "iam"@ {
        assert(classes_in_category(s.classes@, cat)[0] == s.classes@[0].1);
    } else if cat == "system"@ {
        assert(classes_in_category(s.classes@, cat)[0] == s.classes@[1].1);
        assert(classes_in_category(s.classes@, cat)[1] == s.classes@[2].1);
    } else if cat == "network"@ {
        assert(classes_in_category(s.classes@, cat)[0] == s.classes@[3].1);
    }
}

} // verus!
