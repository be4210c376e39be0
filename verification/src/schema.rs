//! The versioned OCSF schema repository and its query surface: loading a
//! schema document by version identifier, listing versions, resolving the
//! newest stable version, and the derived per-schema indices.

use vstd::prelude::*;
use crate::errors::OcsfError;
use crate::outside::lower_of;
use crate::table::{views_of, assoc_lookup, strictly_sorted};
use crate::text::{lex_lt, lex_le, contains_seq, lemma_lex_trichotomy, lemma_lex_trans};

verus! {

/// One attribute of an event class, object or dictionary entry.
#[derive(Debug, Clone)]
pub struct Attribute {
    pub caption: Option<String>,
    pub description: Option<String>,
    pub data_type: Option<String>,
    pub requirement: Option<String>,
    pub type_label: Option<String>,
}

/// One event class of a schema document.
#[derive(Debug, Clone)]
pub struct EventClass {
    pub uid: u32,
    pub name: String,
    pub caption: Option<String>,
    pub description: Option<String>,
    pub category: String,
    pub attributes: Vec<(String, Attribute)>,
    pub extends: Option<String>,
}

/// One shared object definition of a schema document.
#[derive(Debug, Clone)]
pub struct Object {
    pub name: String,
    pub caption: Option<String>,
    pub description: Option<String>,
    pub attributes: Vec<(String, Attribute)>,
    pub extends: Option<String>,
}

/// One type definition of a schema document.
#[derive(Debug, Clone)]
pub struct TypeDef {
    pub caption: Option<String>,
    pub description: Option<String>,
}

/// A loaded schema document: name-keyed tables, immutable once loaded.
#[derive(Debug, Clone)]
pub struct OcsfSchema {
    pub version: String,
    pub classes: Vec<(String, EventClass)>,
    pub objects: Vec<(String, Object)>,
    pub types: Vec<(String, TypeDef)>,
    pub dictionary_attributes: Vec<(String, Attribute)>,
}

/// A schema browsing result: exactly one of the three lists is filled.
#[derive(Debug)]
pub struct SchemaInfo {
    pub summary: String,
    pub categories: Option<Vec<CategorySummary>>,
    pub event_classes: Option<Vec<EventClassSummary>>,
    pub attributes: Option<Vec<AttributeSummary>>,
}

#[derive(Debug)]
pub struct CategorySummary {
    pub name: String,
    pub description: String,
    pub event_count: usize,
    pub event_classes: Vec<String>,
}

#[derive(Debug)]
pub struct EventClassSummary {
    pub uid: u32,
    pub name: String,
    pub caption: String,
    pub description: String,
    pub category: String,
}

#[derive(Debug)]
pub struct AttributeSummary {
    pub name: String,
    pub data_type: String,
    pub description: String,
    pub required: bool,
}

/// The version identifiers of the stored schema documents, ascending.
pub open spec fn builtin_version_list() -> Seq<Seq<char>> {
    seq![
        "1.0.0"@,
        "1.1.0"@,
        "1.2.0"@,
        "1.3.0"@,
        "1.4.0"@,
        "1.5.0"@,
        "1.6.0"@,
        "1.7.0-dev"@,
    ]
}

/// A version identifier with a stored schema document.
pub open spec fn version_known(v: Seq<char>) -> bool {
    builtin_version_list().contains(v)
}

/// A stable identifier: its lowercase form names no pre-release stage.
pub open spec fn is_stable_version(v: Seq<char>) -> bool {
    &&& !contains_seq(lower_of(v), "dev"@)
    &&& !contains_seq(lower_of(v), "alpha"@)
    &&& !contains_seq(lower_of(v), "beta"@)
    &&& !contains_seq(lower_of(v), "rc"@)
}

/// One entry of the built-in minimal schema's class table.
pub open spec fn class_entry_is(
    e: (String, EventClass),
    name: Seq<char>,
    uid: u32,
    caption: Seq<char>,
    description: Seq<char>,
    category: Seq<char>,
) -> bool {
    &&& e.0@ == name
    &&& e.1.uid == uid
    &&& e.1.name@ == name
    &&& match e.1.caption {
        Some(c) => c@ == caption,
        None => false,
    }
    &&& match e.1.description {
        Some(d) => d@ == description,
        None => false,
    }
    &&& e.1.category@ == category
    &&& e.1.attributes@.len() == 0
    &&& e.1.extends is None
}

/// The class table every built-in document carries: four classes with empty
/// attribute maps, and nothing else in the document.
pub open spec fn has_builtin_classes(s: OcsfSchema) -> bool {
    &&& s.classes@.len() == 4
    &&& class_entry_is(
        s.classes@[0],
        "authentication"@,
        3002,
        "Authentication"@,
        "User authentication events (login, logout, failed attempts)"@,
        "iam"@,
    )
    &&& class_entry_is(
        s.classes@[1],
        "process_activity"@,
        1007,
        "Process Activity"@,
        "Process lifecycle events (start, stop, injection)"@,
        "system"@,
    )
    &&& class_entry_is(
        s.classes@[2],
        "file_activity"@,
        1001,
        "File Activity"@,
        "File system operations"@,
        "system"@,
    )
    &&& class_entry_is(
        s.classes@[3],
        "network_activity"@,
        4001,
        "Network Activity"@,
        "Network connections and traffic"@,
        "network"@,
    )
    &&& s.objects@.len() == 0
    &&& s.types@.len() == 0
    &&& s.dictionary_attributes@.len() == 0
}

impl OcsfSchema {
    /// The built-in fallback document: four classes, empty attribute maps.
    pub fn minimal_schema() -> (r: OcsfSchema)
        ensures
            has_builtin_classes(r),
            r.version@ == "1.7.0-dev"@,
    {
        let classes: Vec<(String, EventClass)> = vec![
            (
                String::from_str("authentication"),
                EventClass {
                    uid: 3002,
                    name: String::from_str("authentication"),
                    caption: Some(String::from_str("Authentication")),
                    description: Some(
                        String::from_str(
                            "User authentication events (login, logout, failed attempts)",
                        ),
                    ),
                    category: String::from_str("iam"),
                    attributes: Vec::new(),
                    extends: None,
                },
            ),
            (
                String::from_str("process_activity"),
                EventClass {
                    uid: 1007,
                    name: String::from_str("process_activity"),
                    caption: Some(String::from_str("Process Activity")),
                    description: Some(
                        String::from_str("Process lifecycle events (start, stop, injection)"),
                    ),
                    category: String::from_str("system"),
                    attributes: Vec::new(),
                    extends: None,
                },
            ),
            (
                String::from_str("file_activity"),
                EventClass {
                    uid: 1001,
                    name: String::from_str("file_activity"),
                    caption: Some(String::from_str("File Activity")),
                    description: Some(String::from_str("File system operations")),
                    category: String::from_str("system"),
                    attributes: Vec::new(),
                    extends: None,
                },
            ),
            (
                String::from_str("network_activity"),
                EventClass {
                    uid: 4001,
                    name: String::from_str("network_activity"),
                    caption: Some(String::from_str("Network Activity")),
                    description: Some(String::from_str("Network connections and traffic")),
                    category: String::from_str("network"),
                    attributes: Vec::new(),
                    extends: None,
                },
            ),
        ];
        OcsfSchema {
            version: String::from_str("1.7.0-dev"),
            classes,
            objects: Vec::new(),
            types: Vec::new(),
            dictionary_attributes: Vec::new(),
        }
    }

    /// Every stored version identifier, ascending in plain string order and
    /// duplicate-free.
    pub fn list_versions() -> (r: Vec<String>)
        ensures
            r@.len() == builtin_version_list().len(),
            views_of(r@) == builtin_version_list(),
            strictly_sorted(r@),
            forall|i: int, j: int|
                0 <= i < j < r@.len() ==> (#[trigger] r@[i])@ != (#[trigger] r@[j])@,
    {
        let r: Vec<String> = vec![
            String::from_str("1.0.0"),
            String::from_str("1.1.0"),
            String::from_str("1.2.0"),
            String::from_str("1.3.0"),
            String::from_str("1.4.0"),
            String::from_str("1.5.0"),
            String::from_str("1.6.0"),
            String::from_str("1.7.0-dev"),
        ];
        proof {
            assert(views_of(r@) =~= builtin_version_list());
            lemma_builtin_sorted();
            assert forall|i: int, j: int| 0 <= i < j < r@.len() implies lex_lt(
                (#[trigger] r@[i])@,
                (#[trigger] r@[j])@,
            ) by {
                assert(r@[i]@ == builtin_version_list()[i]);
                assert(r@[j]@ == builtin_version_list()[j]);
            }
            assert forall|i: int, j: int| 0 <= i < j < r@.len() implies (#[trigger] r@[i])@ != (
            #[trigger] r@[j])@ by {
                lemma_lex_trichotomy(r@[i]@, r@[j]@);
            }
        }
        r
    }

    /// Is this identifier one of the stored versions?
    fn version_is_known(version: &str) -> (r: bool)
        ensures
            r == version_known(version@),
    {
        let versions = Self::list_versions();
        let n = versions.len();
        let mut i: usize = 0;
        while i < n
            invariant
                i <= n,
                n == versions@.len(),
                views_of(versions@) == builtin_version_list(),
                forall|k: int| 0 <= k < i ==> builtin_version_list()[k] != version@,
            decreases n - i,
        {
            if crate::text::str_eq(versions[i].as_str(), version) {
                proof {
                    assert(builtin_version_list()[i as int] == version@);
                }
                return true;
            }
            proof {
                assert(builtin_version_list()[i as int] == versions@[i as int]@);
            }
            i = i + 1;
        }
        proof {
            if version_known(version@) {
                let k = choose|k: int|
                    0 <= k < builtin_version_list().len() && builtin_version_list()[k] == version@;
                assert(false);
            }
        }
        false
    }

    /// Loads the document stored for `version`; an unknown identifier falls
    /// back to the built-in minimal schema rather than failing.
    pub fn load_version(version: &str) -> (r: OcsfSchema)
        ensures
            has_builtin_classes(r),
            r.classes@.len() > 0,
            version_known(version@) ==> r.version@ == version@,
            !version_known(version@) ==> r.version@ == "1.7.0-dev"@,
    {
        let known = Self::version_is_known(version);
        let mut s = Self::minimal_schema();
        if known {
            s.version = version.to_owned();
        }
        s
    }

    /// Loads the default document.
    pub fn load() -> (r: OcsfSchema)
        ensures
            has_builtin_classes(r),
            r.classes@.len() > 0,
            r.version@ == "1.7.0-dev"@,
    {
        let r = Self::load_version("1.7.0-dev");
        proof {
            assert(builtin_version_list()[7] == "1.7.0-dev"@);
            assert(version_known("1.7.0-dev"@));
        }
        r
    }

    /// The lexicographically last stored version whose identifier names no
    /// pre-release stage; fails when every stored version is a pre-release.
    pub fn get_newest_stable_version() -> (r: Result<String, OcsfError>)
        ensures
            match r {
                Ok(v) => {
                    &&& is_stable_version(v@)
                    &&& version_known(v@)
                    &&& forall|k: int|
                        0 <= k < builtin_version_list().len() && is_stable_version(
                            #[trigger] builtin_version_list()[k],
                        ) ==> lex_le(builtin_version_list()[k], v@)
                },
                Err(e) => {
                    &&& e == OcsfError::NoStableVersion
                    &&& forall|k: int|
                        0 <= k < builtin_version_list().len() ==> !is_stable_version(
                            #[trigger] builtin_version_list()[k],
                        )
                },
            },
    {
        let versions = Self::list_versions();
        let n = versions.len();
        let mut best: Option<String> = None;
        let ghost mut best_at: int = 0;
        let mut i: usize = 0;
        while i < n
            invariant
                i <= n,
                n == versions@.len(),
                views_of(versions@) == builtin_version_list(),
                strictly_sorted(versions@),
                match best {
                    Some(b) => {
                        &&& 0 <= best_at < i
                        &&& b@ == builtin_version_list()[best_at]
                        &&& is_stable_version(b@)
                        &&& forall|k: int|
                            0 <= k < i && is_stable_version(
                                #[trigger] builtin_version_list()[k],
                            ) ==> k <= best_at
                    },
                    None => forall|k: int|
                        0 <= k < i ==> !is_stable_version(#[trigger] builtin_version_list()[k]),
                },
            decreases n - i,
        {
            proof {
                assert(builtin_version_list()[i as int] == versions@[i as int]@);
            }
            if Self::version_is_stable(versions[i].as_str()) {
                best = Some(versions[i].clone());
                proof {
                    best_at = i as int;
                }
            }
            i = i + 1;
        }
        match best {
            Some(b) => {
                proof {
                    assert forall|k: int|
                        0 <= k < builtin_version_list().len() && is_stable_version(
                            #[trigger] builtin_version_list()[k],
                        ) implies lex_le(builtin_version_list()[k], b@) by {
                        assert(builtin_version_list()[k] == versions@[k]@);
                        if k < best_at {
                            assert(lex_lt(versions@[k]@, versions@[best_at]@));
                        }
                    }
                }
                Ok(b)
            },
            None => Err(OcsfError::NoStableVersion),
        }
    }

    /// Does the identifier name no pre-release stage?
    fn version_is_stable(v: &str) -> (r: bool)
        ensures
            r == is_stable_version(v@),
    {
        let low = crate::outside::to_lower(v);
        let l = low.as_str();
        !(crate::text::str_contains(l, "dev") || crate::text::str_contains(l, "alpha")
            || crate::text::str_contains(l, "beta") || crate::text::str_contains(l, "rc"))
    }
}

/// An attribute whose requirement level counts as required: the levels
/// `required` and `recommended` both do, a deliberate policy.
pub open spec fn is_required_level(req: Option<String>) -> bool {
    match req {
        Some(s) => s@ == "required"@ || s@ == "recommended"@,
        None => false,
    }
}

/// The names of a class's attributes whose requirement level counts as
/// required, in stored order.
pub open spec fn required_attr_names(attrs: Seq<(String, Attribute)>) -> Seq<Seq<char>>
    decreases attrs.len(),
{
    if attrs.len() == 0 {
        Seq::empty()
    } else {
        required_attr_names(attrs.drop_last()) + (if is_required_level(
            attrs.last().1.requirement,
        ) {
            seq![attrs.last().0@]
        } else {
            Seq::<Seq<char>>::empty()
        })
    }
}

/// The classes of one category, sentinel `base_event` excluded, stored order.
pub open spec fn classes_in_category(
    classes: Seq<(String, EventClass)>,
    cat: Seq<char>,
) -> Seq<EventClass>
    decreases classes.len(),
{
    if classes.len() == 0 {
        Seq::empty()
    } else {
        classes_in_category(classes.drop_last(), cat) + (if classes.last().1.category@ == cat
            && classes.last().1.name@ != "base_event"@ {
            seq![classes.last().1]
        } else {
            Seq::<EventClass>::empty()
        })
    }
}

/// Every class but the sentinel `base_event`, stored order.
pub open spec fn non_base_classes(classes: Seq<(String, EventClass)>) -> Seq<EventClass>
    decreases classes.len(),
{
    if classes.len() == 0 {
        Seq::empty()
    } else {
        non_base_classes(classes.drop_last()) + (if classes.last().1.name@ != "base_event"@ {
            seq![classes.last().1]
        } else {
            Seq::<EventClass>::empty()
        })
    }
}

/// A summary row presents a class: caption defaults to the class name and
/// description to a fixed text when the schema gives none.
pub open spec fn summarizes(s: EventClassSummary, c: EventClass) -> bool {
    &&& s.uid == c.uid
    &&& s.name@ == c.name@
    &&& s.caption@ == match c.caption {
        Some(x) => x@,
        None => c.name@,
    }
    &&& s.description@ == match c.description {
        Some(x) => x@,
        None => "No description available"@,
    }
    &&& s.category@ == c.category@
}

/// A class entry that counts towards a category listing: keyed by a name
/// other than the sentinel, and tagged with that category.
pub open spec fn is_cat_member(e: (String, EventClass), cat: Seq<char>) -> bool {
    e.0@ != "base_event"@ && e.1.category@ == cat
}

/// The keys of the classes grouped under one category, stored order.
pub open spec fn member_keys(classes: Seq<(String, EventClass)>, cat: Seq<char>) -> Seq<Seq<char>>
    decreases classes.len(),
{
    if classes.len() == 0 {
        Seq::empty()
    } else {
        member_keys(classes.drop_last(), cat) + (if is_cat_member(classes.last(), cat) {
            seq![classes.last().0@]
        } else {
            Seq::<Seq<char>>::empty()
        })
    }
}

/// Some non-sentinel class carries this category tag.
pub open spec fn category_present(classes: Seq<(String, EventClass)>, cat: Seq<char>) -> bool {
    exists|k: int| 0 <= k < classes.len() && is_cat_member(#[trigger] classes[k], cat)
}

/// The fixed description of each known category tag, with a generic fallback.
pub open spec fn spec_category_description(cat: Seq<char>) -> Seq<char> {
    if cat == "system"@ {
        "System Activity - Operating system and device-level events"@
    } else if cat == "findings"@ {
        "Findings - Security findings from scanning, detection, and analysis"@
    } else if cat == "iam"@ {
        "Identity & Access Management - Authentication, authorization, and account management"@
    } else if cat == "network"@ {
        "Network Activity - Network connections and traffic"@
    } else if cat == "discovery"@ {
        "Discovery - Resource and asset discovery"@
    } else if cat == "application"@ {
        "Application Activity - Application-specific events"@
    } else if cat == "remediation"@ {
        "Remediation - Security remediation activities"@
    } else if cat == "other"@ {
        "Other - Miscellaneous events"@
    } else {
        "Category: "@ + cat
    }
}

/// The description of a category tag, from the fixed table.
pub fn get_category_description(category: &str) -> (r: String)
    ensures
        r@ == spec_category_description(category@),
{
    if crate::text::str_eq(category, "system") {
        String::from_str("System Activity - Operating system and device-level events")
    } else if crate::text::str_eq(category, "findings") {
        String::from_str("Findings - Security findings from scanning, detection, and analysis")
    } else if crate::text::str_eq(category, "iam") {
        String::from_str(
            "Identity & Access Management - Authentication, authorization, and account management",
        )
    } else if crate::text::str_eq(category, "network") {
        String::from_str("Network Activity - Network connections and traffic")
    } else if crate::text::str_eq(category, "discovery") {
        String::from_str("Discovery - Resource and asset discovery")
    } else if crate::text::str_eq(category, "application") {
        String::from_str("Application Activity - Application-specific events")
    } else if crate::text::str_eq(category, "remediation") {
        String::from_str("Remediation - Security remediation activities")
    } else if crate::text::str_eq(category, "other") {
        String::from_str("Other - Miscellaneous events")
    } else {
        let mut s = String::from_str("Category: ");
        s.append(category);
        s
    }
}

impl OcsfSchema {
    /// The class stored under `name`, if any.
    pub fn get_event_class<'a>(&'a self, name: &str) -> (r: Option<&'a EventClass>)
        ensures
            match r {
                Some(c) => assoc_lookup(self.classes@, name@) == Some(*c),
                None => assoc_lookup(self.classes@, name@) is None,
            },
    {
        crate::table::assoc_get(&self.classes, name)
    }

    /// The names of the attributes of `event_class` whose requirement level
    /// counts as required; an unknown class yields the empty list.
    pub fn get_required_attributes(&self, event_class: &str) -> (r: Vec<String>)
        ensures
            match assoc_lookup(self.classes@, event_class@) {
                Some(c) => views_of(r@) == required_attr_names(c.attributes@),
                None => r@.len() == 0,
            },
    {
        let found = crate::table::assoc_get(&self.classes, event_class);
        match found {
            None => Vec::new(),
            Some(c) => {
                let n = c.attributes.len();
                let mut out: Vec<String> = Vec::new();
                let mut i: usize = 0;
                proof {
                    assert(c.attributes@.take(0) =~= Seq::<(String, Attribute)>::empty());
                    assert(views_of(out@) =~= required_attr_names(c.attributes@.take(0)));
                }
                while i < n
                    invariant
                        i <= n,
                        n == c.attributes@.len(),
                        views_of(out@) == required_attr_names(c.attributes@.take(i as int)),
                    decreases n - i,
                {
                    let req = match &c.attributes[i].1.requirement {
                        Some(s) => crate::text::str_eq(s.as_str(), "required")
                            || crate::text::str_eq(s.as_str(), "recommended"),
                        None => false,
                    };
                    if req {
                        out.push(c.attributes[i].0.clone());
                    }
                    proof {
                        assert(c.attributes@.take(i + 1).drop_last() =~= c.attributes@.take(
                            i as int,
                        ));
                        assert(c.attributes@.take(i + 1).last() == c.attributes@[i as int]);
                        assert(views_of(out@) =~= required_attr_names(c.attributes@.take(i + 1)));
                    }
                    i = i + 1;
                }
                proof {
                    assert(c.attributes@.take(n as int) =~= c.attributes@);
                }
                out
            },
        }
    }

    /// Summary rows for the classes of one category, exact tag match.
    pub fn list_event_classes_for_category(&self, category: &str) -> (r: Vec<EventClassSummary>)
        ensures
            r@.len() == classes_in_category(self.classes@, category@).len(),
            forall|k: int|
                0 <= k < r@.len() ==> summarizes(
                    #[trigger] r@[k],
                    classes_in_category(self.classes@, category@)[k],
                ),
    {
        let n = self.classes.len();
        let mut out: Vec<EventClassSummary> = Vec::new();
        let mut i: usize = 0;
        proof {
            assert(self.classes@.take(0) =~= Seq::<(String, EventClass)>::empty());
        }
        while i < n
            invariant
                i <= n,
                n == self.classes@.len(),
                out@.len() == classes_in_category(self.classes@.take(i as int), category@).len(),
                forall|k: int|
                    0 <= k < out@.len() ==> summarizes(
                        #[trigger] out@[k],
                        classes_in_category(self.classes@.take(i as int), category@)[k],
                    ),
            decreases n - i,
        {
            let c = &self.classes[i].1;
            if crate::text::str_eq(c.category.as_str(), category) && !crate::text::str_eq(
                c.name.as_str(),
                "base_event",
            ) {
                out.push(summarize_class(c));
            }
            proof {
                assert(self.classes@.take(i + 1).drop_last() =~= self.classes@.take(i as int));
                assert(self.classes@.take(i + 1).last() == self.classes@[i as int]);
            }
            i = i + 1;
        }
        proof {
            assert(self.classes@.take(n as int) =~= self.classes@);
        }
        out
    }

    /// Summary rows for every class but the sentinel.
    pub fn list_all_event_classes(&self) -> (r: Vec<EventClassSummary>)
        ensures
            r@.len() == non_base_classes(self.classes@).len(),
            forall|k: int|
                0 <= k < r@.len() ==> summarizes(
                    #[trigger] r@[k],
                    non_base_classes(self.classes@)[k],
                ),
    {
        let n = self.classes.len();
        let mut out: Vec<EventClassSummary> = Vec::new();
        let mut i: usize = 0;
        proof {
            assert(self.classes@.take(0) =~= Seq::<(String, EventClass)>::empty());
        }
        while i < n
            invariant
                i <= n,
                n == self.classes@.len(),
                out@.len() == non_base_classes(self.classes@.take(i as int)).len(),
                forall|k: int|
                    0 <= k < out@.len() ==> summarizes(
                        #[trigger] out@[k],
                        non_base_classes(self.classes@.take(i as int))[k],
                    ),
            decreases n - i,
        {
            let c = &self.classes[i].1;
            if !crate::text::str_eq(c.name.as_str(), "base_event") {
                out.push(summarize_class(c));
            }
            proof {
                assert(self.classes@.take(i + 1).drop_last() =~= self.classes@.take(i as int));
                assert(self.classes@.take(i + 1).last() == self.classes@[i as int]);
            }
            i = i + 1;
        }
        proof {
            assert(self.classes@.take(n as int) =~= self.classes@);
        }
        out
    }

    /// Groups the classes by category tag: one row per category, rows sorted
    /// by category name, each row carrying the keys of its classes.
    pub fn list_categories(&self) -> (r: Vec<CategorySummary>)
        ensures
            forall|i: int, j: int|
                0 <= i < j < r@.len() ==> lex_lt((#[trigger] r@[i]).name@, (#[trigger] r@[j]).name@),
            forall|i: int|
                0 <= i < r@.len() ==> category_present(self.classes@, (#[trigger] r@[i]).name@),
            forall|cat: Seq<char>|
                #[trigger] category_present(self.classes@, cat) ==> exists|i: int|
                    0 <= i < r@.len() && (#[trigger] r@[i]).name@ == cat,
            forall|i: int|
                0 <= i < r@.len() ==> (#[trigger] r@[i]).description@ == spec_category_description(
                    r@[i].name@,
                ),
            forall|i: int|
                0 <= i < r@.len() ==> views_of((#[trigger] r@[i]).event_classes@) == member_keys(
                    self.classes@,
                    r@[i].name@,
                ),
            forall|i: int|
                0 <= i < r@.len() ==> (#[trigger] r@[i]).event_count == member_keys(
                    self.classes@,
                    r@[i].name@,
                ).len(),
    {
        let n = self.classes.len();
        let mut cats: Vec<String> = Vec::new();
        let mut i: usize = 0;
        proof {
            assert(self.classes@.take(0) =~= Seq::<(String, EventClass)>::empty());
        }
        while i < n
            invariant
                i <= n,
                n == self.classes@.len(),
                crate::table::strictly_sorted(cats@),
                forall|t: Seq<char>|
                    crate::table::has_view(cats@, t) <==> category_present(
                        self.classes@.take(i as int),
                        t,
                    ),
            decreases n - i,
        {
            let ghost prefix = self.classes@.take(i as int);
            let e = &self.classes[i];
            if !crate::text::str_eq(e.0.as_str(), "base_event") {
                crate::table::insert_sorted_distinct(&mut cats, e.1.category.clone());
            }
            proof {
                let next = self.classes@.take(i + 1);
                assert(next.drop_last() =~= prefix);
                assert(next.last() == self.classes@[i as int]);
                assert forall|t: Seq<char>|
                    crate::table::has_view(cats@, t) <==> category_present(next, t) by {
                    if crate::table::has_view(cats@, t) {
                        if category_present(prefix, t) {
                            let k = choose|k: int|
                                0 <= k < prefix.len() && is_cat_member(#[trigger] prefix[k], t);
                            assert(is_cat_member(next[k], t));
                        } else {
                            assert(is_cat_member(next[i as int], t));
                        }
                    }
                    if category_present(next, t) {
                        let k = choose|k: int|
                            0 <= k < next.len() && is_cat_member(#[trigger] next[k], t);
                        if k < i {
                            assert(is_cat_member(prefix[k], t));
                        }
                    }
                }
            }
            i = i + 1;
        }
        proof {
            assert(self.classes@.take(n as int) =~= self.classes@);
        }
        let m = cats.len();
        let mut out: Vec<CategorySummary> = Vec::new();
        let mut j: usize = 0;
        while j < m
            invariant
                j <= m,
                m == cats@.len(),
                crate::table::strictly_sorted(cats@),
                forall|t: Seq<char>|
                    crate::table::has_view(cats@, t) <==> category_present(self.classes@, t),
                out@.len() == j,
                forall|k: int| 0 <= k < j ==> (#[trigger] out@[k]).name@ == cats@[k]@,
                forall|k: int|
                    0 <= k < j ==> (#[trigger] out@[k]).description@ == spec_category_description(
                        cats@[k]@,
                    ),
                forall|k: int|
                    0 <= k < j ==> views_of((#[trigger] out@[k]).event_classes@) == member_keys(
                        self.classes@,
                        cats@[k]@,
                    ),
                forall|k: int|
                    0 <= k < j ==> (#[trigger] out@[k]).event_count == member_keys(
                        self.classes@,
                        cats@[k]@,
                    ).len(),
            decreases m - j,
        {
            let cat = &cats[j];
            let members = self.collect_member_keys(cat.as_str());
            out.push(
                CategorySummary {
                    name: cat.clone(),
                    description: get_category_description(cat.as_str()),
                    event_count: members.len(),
                    event_classes: members,
                },
            );
            j = j + 1;
        }
        proof {
            assert forall|i0: int|
                0 <= i0 < out@.len() implies category_present(
                self.classes@,
                (#[trigger] out@[i0]).name@,
            ) by {
                assert(crate::table::has_view(cats@, cats@[i0]@));
            }
            assert forall|cat: Seq<char>| #[trigger]
                category_present(self.classes@, cat) implies exists|i0: int|
                0 <= i0 < out@.len() && (#[trigger] out@[i0]).name@ == cat by {
                assert(crate::table::has_view(cats@, cat));
                let k = choose|k: int| 0 <= k < cats@.len() && (#[trigger] cats@[k])@ == cat;
                assert(out@[k].name@ == cat);
            }
        }
        out
    }

    /// The keys of the classes carrying one category tag, stored order.
    fn collect_member_keys(&self, cat: &str) -> (r: Vec<String>)
        ensures
            views_of(r@) == member_keys(self.classes@, cat@),
    {
        let n = self.classes.len();
        let mut out: Vec<String> = Vec::new();
        let mut i: usize = 0;
        proof {
            assert(self.classes@.take(0) =~= Seq::<(String, EventClass)>::empty());
            assert(views_of(out@) =~= member_keys(self.classes@.take(0), cat@));
        }
        while i < n
            invariant
                i <= n,
                n == self.classes@.len(),
                views_of(out@) == member_keys(self.classes@.take(i as int), cat@),
            decreases n - i,
        {
            let e = &self.classes[i];
            if !crate::text::str_eq(e.0.as_str(), "base_event") && crate::text::str_eq(
                e.1.category.as_str(),
                cat,
            ) {
                out.push(e.0.clone());
            }
            proof {
                assert(self.classes@.take(i + 1).drop_last() =~= self.classes@.take(i as int));
                assert(self.classes@.take(i + 1).last() == self.classes@[i as int]);
                assert(views_of(out@) =~= member_keys(self.classes@.take(i + 1), cat@));
            }
            i = i + 1;
        }
        proof {
            assert(self.classes@.take(n as int) =~= self.classes@);
        }
        out
    }
}

/// Builds the summary row of one class, applying the caption and description
/// defaults.
fn summarize_class(c: &EventClass) -> (r: EventClassSummary)
    ensures
        summarizes(r, *c),
{
    EventClassSummary {
        uid: c.uid,
        name: c.name.clone(),
        caption: match &c.caption {
            Some(x) => x.clone(),
            None => c.name.clone(),
        },
        description: match &c.description {
            Some(x) => x.clone(),
            None => String::from_str("No description available"),
        },
        category: c.category.clone(),
    }
}

/// The categories a built-in class table populates.
pub open spec fn builtin_category_present(cat: Seq<char>) -> bool {
    cat == "iam"@ || cat == "system"@ || cat == "network"@
}

/// The class keys a built-in class table groups under each category.
pub open spec fn builtin_member_keys(cat: Seq<char>) -> Seq<Seq<char>> {
    if cat == "iam"@ {
        seq!["authentication"@]
    } else if cat == "system"@ {
        seq!["process_activity"@, "file_activity"@]
    } else if cat == "network"@ {
        seq!["network_activity"@]
    } else {
        Seq::empty()
    }
}

/// On a built-in class table the grouping operations take a closed form.
pub proof fn lemma_builtin_grouping(s: OcsfSchema, cat: Seq<char>)
    requires
        has_builtin_classes(s),
    ensures
        category_present(s.classes@, cat) == builtin_category_present(cat),
        member_keys(s.classes@, cat) == builtin_member_keys(cat),
{
    let cs = s.classes@;
    reveal_strlit("authentication");
    reveal_strlit("process_activity");
    reveal_strlit("file_activity");
    reveal_strlit("network_activity");
    reveal_strlit("base_event");
    reveal_strlit("iam");
    reveal_strlit("system");
    reveal_strlit("network");
    assert(cs.take(1).drop_last() =~= cs.take(0));
    assert(cs.take(2).drop_last() =~= cs.take(1));
    assert(cs.take(3).drop_last() =~= cs.take(2));
    assert(cs.take(4).drop_last() =~= cs.take(3));
    assert(cs.take(4) =~= cs);
    assert(cs.take(1).last() == cs[0]);
    assert(cs.take(2).last() == cs[1]);
    assert(cs.take(3).last() == cs[2]);
    assert(cs.take(4).last() == cs[3]);
    assert(member_keys(cs.take(0), cat) == Seq::<Seq<char>>::empty());
    assert(member_keys(cs.take(1), cat) == member_keys(cs.take(0), cat) + (if is_cat_member(
        cs[0],
        cat,
    ) {
        seq![cs[0].0@]
    } else {
        Seq::<Seq<char>>::empty()
    }));
    assert(member_keys(cs.take(2), cat) == member_keys(cs.take(1), cat) + (if is_cat_member(
        cs[1],
        cat,
    ) {
        seq![cs[1].0@]
    } else {
        Seq::<Seq<char>>::empty()
    }));
    assert(member_keys(cs.take(3), cat) == member_keys(cs.take(2), cat) + (if is_cat_member(
        cs[2],
        cat,
    ) {
        seq![cs[2].0@]
    } else {
        Seq::<Seq<char>>::empty()
    }));
    assert(member_keys(cs.take(4), cat) == member_keys(cs.take(3), cat) + (if is_cat_member(
        cs[3],
        cat,
    ) {
        seq![cs[3].0@]
    } else {
        Seq::<Seq<char>>::empty()
    }));
    assert("authentication"@.len() == 14);
    assert("process_activity"@.len() == 16);
    assert("file_activity"@.len() == 13);
    assert("network_activity"@.len() == 16);
    assert("base_event"@.len() == 10);
    assert("authentication"@ != "base_event"@);
    assert("process_activity"@ != "base_event"@);
    assert("file_activity"@ != "base_event"@);
    assert("network_activity"@ != "base_event"@);
    assert("iam"@.len() == 3);
    assert("system"@.len() == 6);
    assert("network"@.len() == 7);
    assert("iam"@ != "system"@ && "iam"@ != "network"@ && "system"@ != "network"@);
    if cat == "iam"@ {
        assert(is_cat_member(cs[0], cat));
        assert(!is_cat_member(cs[1], cat));
        assert(!is_cat_member(cs[2], cat));
        assert(!is_cat_member(cs[3], cat));
        assert(member_keys(cs, cat) =~= builtin_member_keys(cat));
    } else if cat == "system"@ {
        assert(!is_cat_member(cs[0], cat));
        assert(is_cat_member(cs[1], cat));
        assert(is_cat_member(cs[2], cat));
        assert(!is_cat_member(cs[3], cat));
        assert(member_keys(cs, cat) =~= builtin_member_keys(cat));
    } else if cat == "network"@ {
        assert(!is_cat_member(cs[0], cat));
        assert(!is_cat_member(cs[1], cat));
        assert(!is_cat_member(cs[2], cat));
        assert(is_cat_member(cs[3], cat));
        assert(member_keys(cs, cat) =~= builtin_member_keys(cat));
    } else {
        assert(!is_cat_member(cs[0], cat));
        assert(!is_cat_member(cs[1], cat));
        assert(!is_cat_member(cs[2], cat));
        assert(!is_cat_member(cs[3], cat));
        assert(member_keys(cs, cat) =~= builtin_member_keys(cat));
    }
    if category_present(cs, cat) {
        let k = choose|k: int| 0 <= k < cs.len() && is_cat_member(#[trigger] cs[k], cat);
        assert(builtin_category_present(cat));
    }
}

/// On a built-in class table the per-category class listing takes a closed
/// form: the classes in stored order.
pub proof fn lemma_builtin_classes_in_category(s: OcsfSchema, cat: Seq<char>)
    requires
        has_builtin_classes(s),
    ensures
        cat == "iam"@ ==> classes_in_category(s.classes@, cat) == seq![s.classes@[0].1],
        cat == "system"@ ==> classes_in_category(s.classes@, cat) == seq![
            s.classes@[1].1,
            s.classes@[2].1,
        ],
        cat == "network"@ ==> classes_in_category(s.classes@, cat) == seq![s.classes@[3].1],
        !builtin_category_present(cat) ==> classes_in_category(s.classes@, cat) == Seq::<
            EventClass,
        >::empty(),
{
    let cs = s.classes@;
    reveal_strlit("authentication");
    reveal_strlit("process_activity");
    reveal_strlit("file_activity");
    reveal_strlit("network_activity");
    reveal_strlit("base_event");
    assert("authentication"@.len() == 14);
    assert("process_activity"@.len() == 16);
    assert("file_activity"@.len() == 13);
    assert("network_activity"@.len() == 16);
    assert("base_event"@.len() == 10);
    reveal_strlit("iam");
    reveal_strlit("system");
    reveal_strlit("network");
    assert("iam"@.len() == 3);
    assert("system"@.len() == 6);
    assert("network"@.len() == 7);
    assert("iam"@ != "system"@ && "iam"@ != "network"@ && "system"@ != "network"@);
    assert(cs.take(1).drop_last() =~= cs.take(0));
    assert(cs.take(2).drop_last() =~= cs.take(1));
    assert(cs.take(3).drop_last() =~= cs.take(2));
    assert(cs.take(4).drop_last() =~= cs.take(3));
    assert(cs.take(4) =~= cs);
    assert(cs.take(1).last() == cs[0]);
    assert(cs.take(2).last() == cs[1]);
    assert(cs.take(3).last() == cs[2]);
    assert(cs.take(4).last() == cs[3]);
    assert(classes_in_category(cs.take(0), cat) == Seq::<EventClass>::empty());
    assert(classes_in_category(cs.take(1), cat) == classes_in_category(cs.take(0), cat) + (if cs[0].1.category@
        == cat && cs[0].1.name@ != "base_event"@ {
        seq![cs[0].1]
    } else {
        Seq::<EventClass>::empty()
    }));
    assert(classes_in_category(cs.take(2), cat) == classes_in_category(cs.take(1), cat) + (if cs[1].1.category@
        == cat && cs[1].1.name@ != "base_event"@ {
        seq![cs[1].1]
    } else {
        Seq::<EventClass>::empty()
    }));
    assert(classes_in_category(cs.take(3), cat) == classes_in_category(cs.take(2), cat) + (if cs[2].1.category@
        == cat && cs[2].1.name@ != "base_event"@ {
        seq![cs[2].1]
    } else {
        Seq::<EventClass>::empty()
    }));
    assert(classes_in_category(cs.take(4), cat) == classes_in_category(cs.take(3), cat) + (if cs[3].1.category@
        == cat && cs[3].1.name@ != "base_event"@ {
        seq![cs[3].1]
    } else {
        Seq::<EventClass>::empty()
    }));
    if cat == "iam"@ {
        assert(classes_in_category(cs, cat) =~= seq![cs[0].1]);
    } else if cat == "system"@ {
        assert(classes_in_category(cs, cat) =~= seq![cs[1].1, cs[2].1]);
    } else if cat == "network"@ {
        assert(classes_in_category(cs, cat) =~= seq![cs[3].1]);
    } else {
        assert(classes_in_category(cs, cat) =~= Seq::<EventClass>::empty());
    }
}

/// An attribute whose requirement level is `recommended` (or `required`) is
/// always included among a class's required attributes: the two levels
/// deliberately count alike, however many other attributes the class has.
pub proof fn lemma_recommended_counts_as_required(attrs: Seq<(String, Attribute)>, i: int)
    requires
        0 <= i < attrs.len(),
        match attrs[i].1.requirement {
            Some(r) => r@ == "recommended"@ || r@ == "required"@,
            None => false,
        },
    ensures
        required_attr_names(attrs).contains(attrs[i].0@),
    decreases attrs.len(),
{
    if i == attrs.len() - 1 {
        assert(is_required_level(attrs.last().1.requirement));
        let r = required_attr_names(attrs);
        assert(r[r.len() - 1] == attrs[i].0@);
    } else {
        assert(attrs.drop_last()[i] == attrs[i]);
        lemma_recommended_counts_as_required(attrs.drop_last(), i);
        let r0 = required_attr_names(attrs.drop_last());
        let k = choose|k: int| 0 <= k < r0.len() && r0[k] == attrs[i].0@;
        assert(required_attr_names(attrs)[k] == attrs[i].0@);
    }
}

/// The built-in version identifiers ascend in plain string order.
proof fn lemma_builtin_sorted()
    ensures
        forall|i: int, j: int|
            0 <= i < j < builtin_version_list().len() ==> lex_lt(
                #[trigger] builtin_version_list()[i],
                #[trigger] builtin_version_list()[j],
            ),
{
    reveal_strlit("1.0.0");
    reveal_strlit("1.1.0");
    reveal_strlit("1.2.0");
    reveal_strlit("1.3.0");
    reveal_strlit("1.4.0");
    reveal_strlit("1.5.0");
    reveal_strlit("1.6.0");
    reveal_strlit("1.7.0-dev");
    reveal_with_fuel(lex_lt, 5);
    assert(lex_lt("1.0.0"@, "1.1.0"@));
    assert(lex_lt("1.1.0"@, "1.2.0"@));
    assert(lex_lt("1.2.0"@, "1.3.0"@));
    assert(lex_lt("1.3.0"@, "1.4.0"@));
    assert(lex_lt("1.4.0"@, "1.5.0"@));
    assert(lex_lt("1.5.0"@, "1.6.0"@));
    assert(lex_lt("1.6.0"@, "1.7.0-dev"@));
    assert forall|i: int, j: int| 0 <= i < j < builtin_version_list().len() implies lex_lt(
        #[trigger] builtin_version_list()[i],
        #[trigger] builtin_version_list()[j],
    ) by {
        lemma_builtin_span(i, j);
    }
}

proof fn lemma_builtin_span(i: int, j: int)
    requires
        0 <= i < j < builtin_version_list().len(),
        lex_lt(builtin_version_list()[0], builtin_version_list()[1]),
        lex_lt(builtin_version_list()[1], builtin_version_list()[2]),
        lex_lt(builtin_version_list()[2], builtin_version_list()[3]),
        lex_lt(builtin_version_list()[3], builtin_version_list()[4]),
        lex_lt(builtin_version_list()[4], builtin_version_list()[5]),
        lex_lt(builtin_version_list()[5], builtin_version_list()[6]),
        lex_lt(builtin_version_list()[6], builtin_version_list()[7]),
    ensures
        lex_lt(builtin_version_list()[i], builtin_version_list()[j]),
    decreases j - i,
{
    if j > i + 1 {
        lemma_builtin_span(i, j - 1);
        lemma_lex_trans(
            builtin_version_list()[i],
            builtin_version_list()[j - 1],
            builtin_version_list()[j],
        );
    }
}

} // verus!
