//! The document model: a JSON value with an ordered field map, the library's
//! own representation of event documents and operation responses.

use vstd::prelude::*;

verus! {

/// A JSON value. Numbers are carried as their literal decimal text, so the
/// model covers every JSON number without a floating-point type; an object
/// is an ordered list of fields, looked up by the first matching key.
#[derive(Debug)]
pub enum JsonValue {
    Null,
    Bool(bool),
    /// A number, as the text that appears in the document.
    Num(String),
    Text(String),
    Arr(Vec<JsonValue>),
    Obj(Vec<(String, JsonValue)>),
}

/// The value of the first field named `key`, if any.
pub open spec fn obj_lookup(fields: Seq<(String, JsonValue)>, key: Seq<char>) -> Option<JsonValue>
    decreases fields.len(),
{
    if fields.len() == 0 {
        None
    } else if fields[0].0@ == key {
        Some(fields[0].1)
    } else {
        obj_lookup(fields.drop_first(), key)
    }
}

/// `fields` with the first field named `key` replaced, or with `(key, value)`
/// appended when no field has that name: last write wins, position kept.
pub open spec fn obj_set(
    fields: Seq<(String, JsonValue)>,
    key: String,
    value: JsonValue,
) -> Seq<(String, JsonValue)>
    decreases fields.len(),
{
    if fields.len() == 0 {
        seq![(key, value)]
    } else if fields[0].0@ == key@ {
        seq![(key, value)] + fields.drop_first()
    } else {
        seq![fields[0]] + obj_set(fields.drop_first(), key, value)
    }
}

pub proof fn lemma_obj_set_found(
    fields: Seq<(String, JsonValue)>,
    key: String,
    value: JsonValue,
    i: int,
)
    requires
        0 <= i < fields.len(),
        fields[i].0@ == key@,
        forall|k: int| 0 <= k < i ==> (#[trigger] fields[k]).0@ != key@,
    ensures
        obj_set(fields, key, value) == fields.update(i, (key, value)),
    decreases i,
{
    if i == 0 {
        assert(obj_set(fields, key, value) =~= fields.update(0, (key, value)));
    } else {
        assert(forall|k: int|
            0 <= k < i - 1 ==> (#[trigger] fields.drop_first()[k]) == fields[k + 1]);
        assert(fields.drop_first()[i - 1] == fields[i]);
        lemma_obj_set_found(fields.drop_first(), key, value, i - 1);
        assert(obj_set(fields, key, value) =~= fields.update(i, (key, value)));
    }
}

pub proof fn lemma_obj_set_missing(fields: Seq<(String, JsonValue)>, key: String, value: JsonValue)
    requires
        forall|k: int| 0 <= k < fields.len() ==> (#[trigger] fields[k]).0@ != key@,
    ensures
        obj_set(fields, key, value) == fields.push((key, value)),
    decreases fields.len(),
{
    if fields.len() == 0 {
        assert(obj_set(fields, key, value) =~= fields.push((key, value)));
    } else {
        assert(forall|k: int|
            0 <= k < fields.drop_first().len() ==> (#[trigger] fields.drop_first()[k]) == fields[k
                + 1]);
        lemma_obj_set_missing(fields.drop_first(), key, value);
        assert(obj_set(fields, key, value) =~= fields.push((key, value)));
    }
}

/// Looks a field up by name, first match.
pub fn obj_get<'a>(fields: &'a Vec<(String, JsonValue)>, key: &str) -> (r: Option<&'a JsonValue>)
    ensures
        match r {
            Some(v) => obj_lookup(fields@, key@) == Some(*v),
            None => obj_lookup(fields@, key@) is None,
        },
{
    let n = fields.len();
    let mut i: usize = 0;
    proof {
        assert(fields@.skip(0) =~= fields@);
    }
    while i < n
        invariant
            i <= n,
            n == fields@.len(),
            obj_lookup(fields@, key@) == obj_lookup(fields@.skip(i as int), key@),
        decreases n - i,
    {
        if crate::text::str_eq(fields[i].0.as_str(), key) {
            return Some(&fields[i].1);
        }
        proof {
            assert(fields@.skip(i as int).drop_first() =~= fields@.skip(i + 1));
        }
        i = i + 1;
    }
    proof {
        assert(fields@.skip(n as int) =~= Seq::<(String, JsonValue)>::empty());
    }
    None
}

/// Inserts or replaces a field: the ordered map's only mutation.
pub fn obj_put(fields: &mut Vec<(String, JsonValue)>, key: String, value: JsonValue)
    ensures
        final(fields)@ == obj_set(old(fields)@, key, value),
{
    let n = fields.len();
    let mut i: usize = 0;
    while i < n
        invariant
            i <= n,
            n == fields@.len(),
            fields@ == old(fields)@,
            forall|k: int| 0 <= k < i ==> (#[trigger] fields@[k]).0@ != key@,
        decreases n - i,
    {
        if crate::text::str_eq(fields[i].0.as_str(), key.as_str()) {
            proof {
                lemma_obj_set_found(fields@, key, value, i as int);
            }
            fields.set(i, (key, value));
            return ;
        }
        i = i + 1;
    }
    proof {
        lemma_obj_set_missing(fields@, key, value);
    }
    fields.push((key, value));
}

/// The hexadecimal digit characters, as a spec-level table.
pub open spec fn hex_digit(d: int) -> char {
    if d < 10 {
        crate::text::dec_digit(d)
    } else if d == 10 {
        'a'
    } else if d == 11 {
        'b'
    } else if d == 12 {
        'c'
    } else if d == 13 {
        'd'
    } else if d == 14 {
        'e'
    } else {
        'f'
    }
}

/// How one character appears inside a JSON string literal: quote and
/// backslash are escaped, control characters take the `\u00XX` form.
pub open spec fn esc_char(c: char) -> Seq<char> {
    if c == '"' {
        seq!['\\', '"']
    } else if c == '\\' {
        seq!['\\', '\\']
    } else if (c as u32) < 32 {
        seq!['\\', 'u', '0', '0', hex_digit((c as u32) as int / 16), hex_digit(
            (c as u32) as int % 16,
        )]
    } else {
        seq![c]
    }
}

pub open spec fn escape_text(s: Seq<char>) -> Seq<char>
    decreases s.len(),
{
    if s.len() == 0 {
        Seq::empty()
    } else {
        escape_text(s.drop_last()) + esc_char(s.last())
    }
}

/// A JSON string literal: quoted and escaped.
pub open spec fn quoted(s: Seq<char>) -> Seq<char> {
    seq!['"'] + escape_text(s) + seq!['"']
}

/// The indented JSON rendering of a value, with `ind` the indentation of the
/// line the value starts on; members are indented two spaces further.
pub open spec fn json_text(v: JsonValue, ind: Seq<char>) -> Seq<char>
    decreases v,
{
    match v {
        JsonValue::Null => "null"@,
        JsonValue::Bool(b) => if b {
            "true"@
        } else {
            "false"@
        },
        JsonValue::Num(s) => s@,
        JsonValue::Text(s) => quoted(s@),
        JsonValue::Arr(elems) => if elems@.len() == 0 {
            "[]"@
        } else {
            seq!['['] + arr_items(elems@, ind + "  "@) + seq!['\n'] + ind + seq![']']
        },
        JsonValue::Obj(fields) => if fields@.len() == 0 {
            "{}"@
        } else {
            seq!['{'] + obj_items(fields@, ind + "  "@) + seq!['\n'] + ind + seq!['}']
        },
    }
}

/// The members of a non-empty array: each element on its own indented line,
/// separated by commas.
pub open spec fn arr_items(elems: Seq<JsonValue>, ind: Seq<char>) -> Seq<char>
    decreases elems,
{
    if elems.len() == 0 {
        Seq::empty()
    } else {
        arr_items(elems.drop_last(), ind) + (if elems.len() == 1 {
            Seq::<char>::empty()
        } else {
            seq![',']
        }) + seq!['\n'] + ind + json_text(elems.last(), ind)
    }
}

/// The members of a non-empty object: each `"key": value` pair on its own
/// indented line, separated by commas.
pub open spec fn obj_items(fields: Seq<(String, JsonValue)>, ind: Seq<char>) -> Seq<char>
    decreases fields,
{
    if fields.len() == 0 {
        Seq::empty()
    } else {
        obj_items(fields.drop_last(), ind) + (if fields.len() == 1 {
            Seq::<char>::empty()
        } else {
            seq![',']
        }) + seq!['\n'] + ind + quoted(fields.last().0@) + seq![':', ' '] + json_text(
            fields.last().1,
            ind,
        )
    }
}

fn hex_char(d: u32) -> (c: char)
    requires
        d < 16,
    ensures
        c == hex_digit(d as int),
{
    if d == 0 {
        '0'
    } else if d == 1 {
        '1'
    } else if d == 2 {
        '2'
    } else if d == 3 {
        '3'
    } else if d == 4 {
        '4'
    } else if d == 5 {
        '5'
    } else if d == 6 {
        '6'
    } else if d == 7 {
        '7'
    } else if d == 8 {
        '8'
    } else if d == 9 {
        '9'
    } else if d == 10 {
        'a'
    } else if d == 11 {
        'b'
    } else if d == 12 {
        'c'
    } else if d == 13 {
        'd'
    } else if d == 14 {
        'e'
    } else {
        'f'
    }
}

fn push_escaped(out: &mut String, s: &str)
    ensures
        final(out)@ == old(out)@ + escape_text(s@),
{
    let len = s.unicode_len();
    let mut i: usize = 0;
    proof {
        assert(s@.take(0) =~= Seq::<char>::empty());
        assert(old(out)@ + escape_text(s@.take(0)) =~= old(out)@);
    }
    while i < len
        invariant
            i <= len,
            len == s@.len(),
            out@ == old(out)@ + escape_text(s@.take(i as int)),
        decreases len - i,
    {
        let c = s.get_char(i);
        if c == '"' {
            out.push('\\');
            out.push('"');
        } else if c == '\\' {
            out.push('\\');
            out.push('\\');
        } else {
            let u = c as u32;
            if u < 32 {
                out.push('\\');
                out.push('u');
                out.push('0');
                out.push('0');
                out.push(hex_char(u / 16));
                out.push(hex_char(u % 16));
            } else {
                out.push(c);
            }
        }
        proof {
            assert(s@.take(i + 1).drop_last() =~= s@.take(i as int));
            assert(s@.take(i + 1).last() == s@[i as int]);
            assert(out@ =~= old(out)@ + escape_text(s@.take(i + 1)));
        }
        i = i + 1;
    }
    proof {
        assert(s@.take(len as int) =~= s@);
    }
}

pub(crate) fn push_quoted(out: &mut String, s: &str)
    ensures
        final(out)@ == old(out)@ + quoted(s@),
{
    out.push('"');
    push_escaped(out, s);
    out.push('"');
    proof {
        assert(out@ =~= old(out)@ + quoted(s@));
    }
}

/// Writes the indented rendering of `v`, with `ind` the current indentation.
pub fn write_json_value(out: &mut String, v: &JsonValue, ind: &str)
    ensures
        final(out)@ == old(out)@ + json_text(*v, ind@),
    decreases *v,
{
    match v {
        JsonValue::Null => {
            out.append("null");
        },
        JsonValue::Bool(b) => {
            if *b {
                out.append("true");
            } else {
                out.append("false");
            }
        },
        JsonValue::Num(s) => {
            out.append(s.as_str());
        },
        JsonValue::Text(s) => {
            push_quoted(out, s.as_str());
        },
        JsonValue::Arr(elems) => {
            if elems.len() == 0 {
                out.push('[');
                out.push(']');
                proof {
                    assert(out@ =~= old(out)@ + "[]"@) by {
                        reveal_strlit("[]");
                    }
                }
            } else {
                out.push('[');
                let mut deeper = ind.to_owned();
                deeper.append("  ");
                let n = elems.len();
                let mut i: usize = 0;
                proof {
                    assert(out@ =~= old(out)@ + seq!['['] + arr_items(elems@.take(0), deeper@));
                }
                while i < n
                    invariant
                        i <= n,
                        0 < n == elems@.len(),
                        *v == JsonValue::Arr(*elems),
                        deeper@ == ind@ + "  "@,
                        out@ == old(out)@ + seq!['['] + arr_items(elems@.take(i as int), deeper@),
                    decreases n - i,
                {
                    if i > 0 {
                        out.push(',');
                    }
                    out.push('\n');
                    out.append(deeper.as_str());
                    proof {
                        assert(*elems == v->Arr_0);
                        assert(decreases_to!(*v => v->Arr_0));
                        assert(decreases_to!(*elems => elems@));
                        assert(decreases_to!(elems@ => elems@[i as int]));
                    }
                    write_json_value(out, &elems[i], deeper.as_str());
                    proof {
                        assert(elems@.take(i + 1).drop_last() =~= elems@.take(i as int));
                        assert(elems@.take(i + 1).last() == elems@[i as int]);
                        assert(out@ =~= old(out)@ + seq!['['] + arr_items(
                            elems@.take(i + 1),
                            deeper@,
                        ));
                    }
                    i = i + 1;
                }
                out.push('\n');
                out.append(ind);
                out.push(']');
                proof {
                    assert(elems@.take(n as int) =~= elems@);
                    assert(out@ =~= old(out)@ + json_text(*v, ind@));
                }
            }
        },
        JsonValue::Obj(fields) => {
            if fields.len() == 0 {
                out.push('{');
                out.push('}');
                proof {
                    assert(out@ =~= old(out)@ + "{}"@) by {
                        reveal_strlit("{}");
                    }
                }
            } else {
                out.push('{');
                let mut deeper = ind.to_owned();
                deeper.append("  ");
                let n = fields.len();
                let mut i: usize = 0;
                proof {
                    assert(out@ =~= old(out)@ + seq!['{'] + obj_items(fields@.take(0), deeper@));
                }
                while i < n
                    invariant
                        i <= n,
                        0 < n == fields@.len(),
                        *v == JsonValue::Obj(*fields),
                        deeper@ == ind@ + "  "@,
                        out@ == old(out)@ + seq!['{'] + obj_items(fields@.take(i as int), deeper@),
                    decreases n - i,
                {
                    if i > 0 {
                        out.push(',');
                    }
                    out.push('\n');
                    out.append(deeper.as_str());
                    push_quoted(out, fields[i].0.as_str());
                    out.push(':');
                    out.push(' ');
                    proof {
                        assert(*fields == v->Obj_0);
                        assert(decreases_to!(*v => v->Obj_0));
                        assert(decreases_to!(*fields => fields@));
                        assert(decreases_to!(fields@ => fields@[i as int]));
                        assert(decreases_to!(fields@[i as int] => fields@[i as int].1));
                    }
                    write_json_value(out, &fields[i].1, deeper.as_str());
                    proof {
                        assert(fields@.take(i + 1).drop_last() =~= fields@.take(i as int));
                        assert(fields@.take(i + 1).last() == fields@[i as int]);
                        assert(out@ =~= old(out)@ + seq!['{'] + obj_items(
                            fields@.take(i + 1),
                            deeper@,
                        ));
                    }
                    i = i + 1;
                }
                out.push('\n');
                out.append(ind);
                out.push('}');
                proof {
                    assert(fields@.take(n as int) =~= fields@);
                    assert(out@ =~= old(out)@ + json_text(*v, ind@));
                }
            }
        },
    }
}

/// Renders a document as indented JSON text.
pub fn to_json_pretty(v: &JsonValue) -> (r: String)
    ensures
        r@ == json_text(*v, Seq::<char>::empty()),
{
    let mut out = String::new();
    write_json_value(&mut out, v, "");
    proof {
        reveal_strlit("");
        assert(""@ =~= Seq::<char>::empty());
        assert(out@ =~= json_text(*v, Seq::<char>::empty()));
    }
    out
}

/// The ghost mirror of a document: what a `JsonValue` holds, as mathematical
/// sequences. Contracts describe the documents a function builds in this
/// form.
pub enum JsonModel {
    Null,
    Bool(bool),
    Num(Seq<char>),
    Text(Seq<char>),
    Arr(Seq<JsonModel>),
    Obj(Seq<(Seq<char>, JsonModel)>),
}

/// The ghost mirror of a value.
pub open spec fn jv_model(v: JsonValue) -> JsonModel
    decreases v,
{
    match v {
        JsonValue::Null => JsonModel::Null,
        JsonValue::Bool(b) => JsonModel::Bool(b),
        JsonValue::Num(s) => JsonModel::Num(s@),
        JsonValue::Text(s) => JsonModel::Text(s@),
        JsonValue::Arr(elems) => JsonModel::Arr(list_model(elems@)),
        JsonValue::Obj(fields) => JsonModel::Obj(fields_model(fields@)),
    }
}

/// The ghost mirrors of a list of values.
pub open spec fn list_model(elems: Seq<JsonValue>) -> Seq<JsonModel>
    decreases elems,
{
    if elems.len() == 0 {
        Seq::empty()
    } else {
        list_model(elems.drop_last()).push(jv_model(elems.last()))
    }
}

/// The ghost mirrors of an object's fields.
pub open spec fn fields_model(fields: Seq<(String, JsonValue)>) -> Seq<(Seq<char>, JsonModel)>
    decreases fields,
{
    if fields.len() == 0 {
        Seq::empty()
    } else {
        fields_model(fields.drop_last()).push((fields.last().0@, jv_model(fields.last().1)))
    }
}

pub proof fn lemma_list_model_len(elems: Seq<JsonValue>)
    ensures
        list_model(elems).len() == elems.len(),
        forall|i: int| 0 <= i < elems.len() ==> #[trigger] list_model(elems)[i] == jv_model(
            elems[i],
        ),
    decreases elems.len(),
{
    if elems.len() > 0 {
        lemma_list_model_len(elems.drop_last());
        assert(forall|i: int|
            0 <= i < elems.len() - 1 ==> #[trigger] elems.drop_last()[i] == elems[i]);
    }
}

pub proof fn lemma_fields_model_len(fields: Seq<(String, JsonValue)>)
    ensures
        fields_model(fields).len() == fields.len(),
        forall|i: int| 0 <= i < fields.len() ==> #[trigger] fields_model(fields)[i] == (
            fields[i].0@,
            jv_model(fields[i].1),
        ),
    decreases fields.len(),
{
    if fields.len() > 0 {
        lemma_fields_model_len(fields.drop_last());
        assert(forall|i: int|
            0 <= i < fields.len() - 1 ==> #[trigger] fields.drop_last()[i] == fields[i]);
    }
}

/// The indented rendering of a ghost document.
pub open spec fn model_text(m: JsonModel, ind: Seq<char>) -> Seq<char>
    decreases m,
{
    match m {
        JsonModel::Null => "null"@,
        JsonModel::Bool(b) => if b {
            "true"@
        } else {
            "false"@
        },
        JsonModel::Num(s) => s,
        JsonModel::Text(s) => quoted(s),
        JsonModel::Arr(ms) => if ms.len() == 0 {
            "[]"@
        } else {
            seq!['['] + model_arr_items(ms, ind + "  "@) + seq!['\n'] + ind + seq![']']
        },
        JsonModel::Obj(mf) => if mf.len() == 0 {
            "{}"@
        } else {
            seq!['{'] + model_obj_items(mf, ind + "  "@) + seq!['\n'] + ind + seq!['}']
        },
    }
}

pub open spec fn model_arr_items(ms: Seq<JsonModel>, ind: Seq<char>) -> Seq<char>
    decreases ms,
{
    if ms.len() == 0 {
        Seq::empty()
    } else {
        model_arr_items(ms.drop_last(), ind) + (if ms.len() == 1 {
            Seq::<char>::empty()
        } else {
            seq![',']
        }) + seq!['\n'] + ind + model_text(ms.last(), ind)
    }
}

pub open spec fn model_obj_items(mf: Seq<(Seq<char>, JsonModel)>, ind: Seq<char>) -> Seq<char>
    decreases mf,
{
    if mf.len() == 0 {
        Seq::empty()
    } else {
        model_obj_items(mf.drop_last(), ind) + (if mf.len() == 1 {
            Seq::<char>::empty()
        } else {
            seq![',']
        }) + seq!['\n'] + ind + quoted(mf.last().0) + seq![':', ' '] + model_text(
            mf.last().1,
            ind,
        )
    }
}

/// A value renders exactly as its ghost mirror.
pub proof fn lemma_model_text(v: JsonValue, ind: Seq<char>)
    ensures
        json_text(v, ind) == model_text(jv_model(v), ind),
    decreases v,
{
    match v {
        JsonValue::Arr(elems) => {
            lemma_list_model_len(elems@);
            lemma_arr_items_text(elems@, ind + "  "@);
        },
        JsonValue::Obj(fields) => {
            lemma_fields_model_len(fields@);
            lemma_obj_items_text(fields@, ind + "  "@);
        },
        _ => {},
    }
}

proof fn lemma_arr_items_text(elems: Seq<JsonValue>, ind: Seq<char>)
    ensures
        arr_items(elems, ind) == model_arr_items(list_model(elems), ind),
    decreases elems,
{
    if elems.len() > 0 {
        lemma_arr_items_text(elems.drop_last(), ind);
        lemma_model_text(elems.last(), ind);
        lemma_list_model_len(elems);
        assert(list_model(elems).drop_last() =~= list_model(elems.drop_last()));
    }
}

proof fn lemma_obj_items_text(fields: Seq<(String, JsonValue)>, ind: Seq<char>)
    ensures
        obj_items(fields, ind) == model_obj_items(fields_model(fields), ind),
    decreases fields,
{
    if fields.len() > 0 {
        lemma_obj_items_text(fields.drop_last(), ind);
        lemma_model_text(fields.last().1, ind);
        lemma_fields_model_len(fields);
        assert(fields_model(fields).drop_last() =~= fields_model(fields.drop_last()));
    }
}

/// Renders a document as indented JSON text, stated over its ghost mirror.
pub fn render_json(v: &JsonValue) -> (r: String)
    ensures
        r@ == model_text(jv_model(*v), Seq::<char>::empty()),
{
    proof {
        lemma_model_text(*v, Seq::<char>::empty());
    }
    to_json_pretty(v)
}

/// Appends one field to a value table under construction, stated over the
/// table's ghost mirror.
pub fn model_push(f: &mut Vec<(String, JsonValue)>, key: &str, value: JsonValue)
    ensures
        fields_model(final(f)@) == fields_model(old(f)@).push((key@, jv_model(value))),
{
    let entry = (key.to_owned(), value);
    proof {
        assert(old(f)@.push(entry).drop_last() =~= old(f)@);
    }
    f.push(entry);
}

/// Appends one element to an array under construction, stated over the
/// array's ghost mirror.
pub fn model_push_elem(a: &mut Vec<JsonValue>, value: JsonValue)
    ensures
        list_model(final(a)@) == list_model(old(a)@).push(jv_model(value)),
{
    proof {
        assert(old(a)@.push(value).drop_last() =~= old(a)@);
    }
    a.push(value);
}

/// An array of string values.
pub fn text_array(items: &Vec<String>) -> (r: JsonValue)
    ensures
        jv_model(r) == JsonModel::Arr(
            crate::table::views_of(items@).map_values(|t: Seq<char>| JsonModel::Text(t)),
        ),
{
    let n = items.len();
    let mut a: Vec<JsonValue> = Vec::new();
    let mut i: usize = 0;
    proof {
        assert(list_model(a@) =~= Seq::<JsonModel>::empty());
    }
    while i < n
        invariant
            i <= n,
            n == items@.len(),
            list_model(a@) == crate::table::views_of(items@.take(i as int)).map_values(
                |t: Seq<char>| JsonModel::Text(t),
            ),
        decreases n - i,
    {
        model_push_elem(&mut a, JsonValue::Text(items[i].clone()));
        proof {
            assert(list_model(a@) =~= crate::table::views_of(items@.take(i + 1)).map_values(
                |t: Seq<char>| JsonModel::Text(t),
            ));
        }
        i = i + 1;
    }
    proof {
        assert(items@.take(n as int) =~= items@);
    }
    JsonValue::Arr(a)
}

/// The number value whose text is the decimal rendering of `n`.
pub fn json_num_u64(n: u64) -> (r: JsonValue)
    ensures
        match r {
            JsonValue::Num(s) => s@ == crate::text::dec_str(n as nat),
            _ => false,
        },
{
    JsonValue::Num(crate::text::u64_to_string(n))
}

} // verus!
