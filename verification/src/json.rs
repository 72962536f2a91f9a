//! JSON text as the library reads it: parsed by `serde_json`, then looked
//! into by field name and position.
use vstd::prelude::*;
use crate::text::{decimal_i64, parse_i64, same_text};

verus! {

/// The JSON value type of `serde_json`.
#[verifier::external_type_specification]
#[verifier::external_body]
pub struct ExJsonValue(serde_json::Value);

/// A JSON value. A number is held as the text `serde_json` prints for it
/// (integers as their digits); an object as its entries in the order
/// `serde_json` keeps them.
#[derive(Debug)]
pub enum JsonValue {
    Null,
    Bool(bool),
    Number(String),
    Text(String),
    Array(Vec<JsonValue>),
    Object(Vec<(String, JsonValue)>),
}

/// What `serde_json::from_str::<Value>` makes of a text, if it is JSON.
pub uninterp spec fn json_of(text: Seq<char>) -> Option<JsonValue>;

/// Parses JSON text with `serde_json::from_str` into a `serde_json::Value`
/// and converts it one for one; `None` where serde_json reports an error.
/// The contract names the result; what serde_json accepts and how it
/// prints numbers is left unsaid.
#[verifier::external_body]
pub(crate) fn parse_json(text: &str) -> (r: Option<JsonValue>)
    ensures
        r == json_of(text@),
{
    serde_json::from_str::<serde_json::Value>(text).ok().map(|v| json_from(&v))
}

/// Converts a `serde_json::Value` into a `JsonValue`, variant for variant.
#[verifier::external_body]
fn json_from(v: &serde_json::Value) -> JsonValue {
    match v {
        serde_json::Value::Null => JsonValue::Null,
        serde_json::Value::Bool(b) => JsonValue::Bool(*b),
        serde_json::Value::Number(n) => JsonValue::Number(n.to_string()),
        serde_json::Value::String(s) => JsonValue::Text(s.clone()),
        serde_json::Value::Array(a) => JsonValue::Array(a.iter().map(json_from).collect()),
        serde_json::Value::Object(o) => JsonValue::Object(
            o.iter().map(|(k, x)| (k.clone(), json_from(x))).collect(),
        ),
    }
}

/// The value of the first entry named `name`, if any.
pub open spec fn first_value(entries: Seq<(String, JsonValue)>, name: Seq<char>) -> Option<JsonValue>
    decreases entries.len(),
{
    if entries.len() == 0 {
        None
    } else {
        let earlier = first_value(entries.drop_last(), name);
        if earlier is Some {
            earlier
        } else if entries.last().0@ == name {
            Some(entries.last().1)
        } else {
            None
        }
    }
}

/// `v[name]` as `serde_json` reads it: the field of an object, and null
/// for a missing field or a value that is no object.
pub open spec fn field(v: JsonValue, name: Seq<char>) -> JsonValue {
    match v {
        JsonValue::Object(entries) => match first_value(entries@, name) {
            Some(x) => x,
            None => JsonValue::Null,
        },
        _ => JsonValue::Null,
    }
}

/// The text of a string value.
pub open spec fn text_of(v: JsonValue) -> Option<String> {
    match v {
        JsonValue::Text(s) => Some(s),
        _ => None,
    }
}

/// The first item of a list that is not empty.
pub open spec fn first_item(v: JsonValue) -> Option<JsonValue> {
    match v {
        JsonValue::Array(items) => if items.len() > 0 {
            Some(items@[0])
        } else {
            None
        },
        _ => None,
    }
}

/// The items of a list value.
pub open spec fn items(v: JsonValue) -> Option<Seq<JsonValue>> {
    match v {
        JsonValue::Array(xs) => Some(xs@),
        _ => None,
    }
}

/// The value of a boolean.
pub open spec fn bool_of(v: JsonValue) -> Option<bool> {
    match v {
        JsonValue::Bool(b) => Some(b),
        _ => None,
    }
}

/// A value as a cell of a candle row sees it: a number's text, a string's
/// text, or anything else.
#[derive(Clone, Debug)]
pub enum Scalar {
    Number(String),
    Text(String),
    Other,
}

/// The scalar a value stands for.
pub open spec fn scalar(v: JsonValue) -> Scalar {
    match v {
        JsonValue::Number(t) => Scalar::Number(t),
        JsonValue::Text(t) => Scalar::Text(t),
        _ => Scalar::Other,
    }
}

proof fn lemma_first_value_prefix(entries: Seq<(String, JsonValue)>, name: Seq<char>, i: int)
    requires
        0 <= i <= entries.len(),
        first_value(entries.take(i), name) is Some,
    ensures
        first_value(entries, name) == first_value(entries.take(i), name),
    decreases entries.len(),
{
    if i < entries.len() {
        assert(entries.drop_last().take(i) =~= entries.take(i));
        lemma_first_value_prefix(entries.drop_last(), name, i);
    } else {
        assert(entries.take(i) =~= entries);
    }
}

/// Where the first entry named `name` of an object stands, if it has one.
fn field_index(v: &JsonValue, name: &str) -> (r: Option<usize>)
    ensures
        r is None ==> field(*v, name@) == JsonValue::Null,
        r matches Some(i) ==> (*v matches JsonValue::Object(entries) && i < entries.len() && field(
            *v,
            name@,
        ) == entries@[i as int].1),
{
    match v {
        JsonValue::Object(entries) => {
            let mut i: usize = 0;
            while i < entries.len()
                invariant
                    *v == JsonValue::Object(*entries),
                    i <= entries.len(),
                    first_value(entries@.take(i as int), name@) is None,
                decreases entries.len() - i,
            {
                assert(entries@.take(i + 1).drop_last() =~= entries@.take(i as int));
                assert(entries@.take(i + 1).last() == entries@[i as int]);
                if same_text(&entries[i].0, name) {
                    assert(first_value(entries@.take(i + 1), name@) == Some(entries@[i as int].1));
                    proof {
                        lemma_first_value_prefix(entries@, name@, i + 1);
                    }
                    return Some(i);
                }
                i = i + 1;
            }
            assert(entries@.take(entries.len() as int) =~= entries@);
            None
        },
        _ => None,
    }
}

/// `v[name]`, where `v` is an object with such a field; `None` stands for
/// the null that a missing field reads as.
pub(crate) fn get_field<'a>(v: &'a JsonValue, name: &str) -> (r: Option<&'a JsonValue>)
    ensures
        r matches Some(x) ==> *x == field(*v, name@),
        r is None ==> field(*v, name@) == JsonValue::Null,
{
    match field_index(v, name) {
        Some(i) => match v {
            JsonValue::Object(entries) => Some(&entries[i].1),
            _ => None,
        },
        None => None,
    }
}

/// The items of `v[name]`, if it is a list.
pub(crate) fn list_at<'a>(v: &'a JsonValue, name: &str) -> (r: Option<&'a Vec<JsonValue>>)
    ensures
        r matches Some(xs) ==> items(field(*v, name@)) == Some(xs@),
        r is None ==> items(field(*v, name@)) is None,
{
    match get_field(v, name) {
        Some(JsonValue::Array(xs)) => Some(xs),
        _ => None,
    }
}

/// The value of `v[name]`, if it is a boolean.
pub(crate) fn bool_field(v: &JsonValue, name: &str) -> (r: Option<bool>)
    ensures
        r == bool_of(field(*v, name@)),
{
    match get_field(v, name) {
        Some(JsonValue::Bool(b)) => Some(*b),
        _ => None,
    }
}

/// The scalar a value stands for.
fn scalar_of(v: &JsonValue) -> (r: Scalar)
    ensures
        r == scalar(*v),
{
    match v {
        JsonValue::Number(t) => Scalar::Number(t.clone()),
        JsonValue::Text(t) => Scalar::Text(t.clone()),
        _ => Scalar::Other,
    }
}

/// The scalar of `v[name]`.
fn scalar_field(v: &JsonValue, name: &str) -> (r: Scalar)
    ensures
        r == scalar(field(*v, name@)),
{
    match field_index(v, name) {
        Some(i) => match v {
            JsonValue::Object(entries) => scalar_of(&entries[i].1),
            _ => Scalar::Other,
        },
        None => Scalar::Other,
    }
}

/// The text of `v[name]`, if it is a string.
pub(crate) fn text_field(v: &JsonValue, name: &str) -> (r: Option<String>)
    ensures
        r == text_of(field(*v, name@)),
{
    match field_index(v, name) {
        Some(i) => match v {
            JsonValue::Object(entries) => match &entries[i].1 {
                JsonValue::Text(t) => Some(t.clone()),
                _ => None,
            },
            _ => None,
        },
        None => None,
    }
}

/// The integer that a number's text spells, as `i64::from_str` reads it.
/// For a number that `serde_json` holds as an integer within `i64` this
/// is its value; a number it holds as a float prints with a point or an
/// exponent and spells none.
pub fn integer_of(text: &str) -> (r: Option<i64>)
    ensures
        r == decimal_i64(text@),
{
    parse_i64(text)
}

/// The fields of a Bybit kline entry that a candle is read from.
pub open spec fn bybit_kline_fields() -> Seq<Seq<char>> {
    seq!["start"@, "open"@, "high"@, "low"@, "close"@, "volume"@]
}

/// The scalars of `e`'s kline fields, in the order of `bybit_kline_fields`.
pub open spec fn bybit_kline_scalars(e: JsonValue) -> Seq<Scalar> {
    bybit_kline_fields().map_values(|n: Seq<char>| scalar(field(e, n)))
}

/// `topic` is the text of `j`'s topic, and `first` the kline fields of the
/// first entry of its data list, if it has one.
pub open spec fn bybit_fields_match(j: JsonValue, topic: Option<String>, first: Option<Vec<Scalar>>) -> bool {
    &&& topic == text_of(field(j, "topic"@))
    &&& match first_item(field(j, "data"@)) {
        Some(e) => first matches Some(cells) && cells@ == bybit_kline_scalars(e),
        None => first is None,
    }
}

/// What a Bybit stream message says: its topic, if that is text, and the
/// kline fields of the first entry of its data list, if it has one. An
/// error where the message is not JSON.
pub fn bybit_message_fields(msg: &str) -> (r: Result<(Option<String>, Option<Vec<Scalar>>), ()>)
    ensures
        r is Err <==> json_of(msg@) is None,
        r matches Ok(p) ==> (json_of(msg@) matches Some(j) && bybit_fields_match(j, p.0, p.1)),
{
    let j = match parse_json(msg) {
        Some(j) => j,
        None => {
            return Err(());
        },
    };
    let topic = text_field(&j, "topic");
    let first = match field_index(&j, "data") {
        Some(i) => match &j {
            JsonValue::Object(entries) => match &entries[i].1 {
                JsonValue::Array(items) => if items.len() > 0 {
                    let e = &items[0];
                    let mut cells: Vec<Scalar> = Vec::new();
                    cells.push(scalar_field(e, "start"));
                    cells.push(scalar_field(e, "open"));
                    cells.push(scalar_field(e, "high"));
                    cells.push(scalar_field(e, "low"));
                    cells.push(scalar_field(e, "close"));
                    cells.push(scalar_field(e, "volume"));
                    assert(cells@ =~= bybit_kline_scalars(*e));
                    Some(cells)
                } else {
                    None
                },
                _ => None,
            },
            _ => None,
        },
        None => None,
    };
    Ok((topic, first))
}

/// The topic read from a Bybit stream message is the text of its `topic`
/// field, and the cells read are, in order, its first data entry's `start`, `open`, `high`, `low`, `close` and `volume`
/// fields: the tick's time from `start`, its high from `high` and its low
/// from `low`.
pub proof fn bybit_cells_by_field(j: JsonValue, topic: Option<String>, first: Option<Vec<Scalar>>)
    requires
        bybit_fields_match(j, topic, first),
        first is Some,
    ensures
        topic == text_of(field(j, "topic"@)),
        first_item(field(j, "data"@)) matches Some(e) && first matches Some(cells) && cells@.len()
            == 6 && cells@[0] == scalar(field(e, "start"@)) && cells@[1] == scalar(field(e, "open"@))
            && cells@[2] == scalar(field(e, "high"@)) && cells@[3] == scalar(field(e, "low"@))
            && cells@[4] == scalar(field(e, "close"@)) && cells@[5] == scalar(field(e, "volume"@)),
{
}

/// The cells of a list value, `None` for any other value.
pub open spec fn list_scalars(v: JsonValue) -> Option<Seq<Scalar>> {
    match v {
        JsonValue::Array(items) => Some(items@.map_values(|x: JsonValue| scalar(x))),
        _ => None,
    }
}

/// The scalars of a list's items.
pub(crate) fn scalars_of(items: &Vec<JsonValue>) -> (r: Vec<Scalar>)
    ensures
        r@ == items@.map_values(|x: JsonValue| scalar(x)),
{
    let mut r: Vec<Scalar> = Vec::new();
    let mut i: usize = 0;
    while i < items.len()
        invariant
            i <= items.len(),
            r@ =~= items@.take(i as int).map_values(|x: JsonValue| scalar(x)),
        decreases items.len() - i,
    {
        r.push(scalar_of(&items[i]));
        i = i + 1;
    }
    assert(items@.take(items.len() as int) =~= items@);
    r
}

/// `symbol` is the text of the `instId` of `j`'s `arg`, and `row` the
/// cells of the first entry of its data list, if that entry is a list.
pub open spec fn bitget_fields_match(j: JsonValue, symbol: Option<String>, row: Option<Vec<Scalar>>) -> bool {
    &&& symbol == text_of(field(field(j, "arg"@), "instId"@))
    &&& match first_item(field(j, "data"@)) {
        Some(e) => match list_scalars(e) {
            Some(s) => row matches Some(cells) && cells@ == s,
            None => row is None,
        },
        None => row is None,
    }
}

/// The symbol read from a Bitget stream message is the text of the
/// `instId` field of its `arg` object, and the row read is the cells of its
/// first data entry, in order, when that entry is a list of them.
pub proof fn bitget_symbol_and_row(j: JsonValue, symbol: Option<String>, row: Option<Vec<Scalar>>)
    requires
        bitget_fields_match(j, symbol, row),
    ensures
        symbol == text_of(field(field(j, "arg"@), "instId"@)),
        row matches Some(cells) ==> (first_item(field(j, "data"@)) matches Some(e) && list_scalars(e)
            == Some(cells@)),
        row is None ==> (first_item(field(j, "data"@)) matches Some(e) ==> list_scalars(e) is None),
{
}

/// What a Bitget stream message says: the `instId` of its `arg` object, if
/// that is text, and the cells of the first entry of its data list, if that
/// entry is a list. The keep-alive answer "pong" says nothing; any other
/// text that is not JSON is an error.
pub fn bitget_message_fields(msg: &str) -> (r: Result<(Option<String>, Option<Vec<Scalar>>), ()>)
    ensures
        msg@ == "pong"@ ==> (r matches Ok(p) && p.0 is None && p.1 is None),
        msg@ != "pong"@ ==> (r is Err <==> json_of(msg@) is None),
        msg@ != "pong"@ ==> (r matches Ok(p) ==> (json_of(msg@) matches Some(j)
            && bitget_fields_match(j, p.0, p.1))),
{
    if same_text(&String::from_str(msg), "pong") {
        return Ok((None, None));
    }
    let j = match parse_json(msg) {
        Some(j) => j,
        None => {
            return Err(());
        },
    };
    let symbol = match field_index(&j, "arg") {
        Some(i) => match &j {
            JsonValue::Object(entries) => text_field(&entries[i].1, "instId"),
            _ => None,
        },
        None => None,
    };
    let row = match field_index(&j, "data") {
        Some(i) => match &j {
            JsonValue::Object(entries) => match &entries[i].1 {
                JsonValue::Array(items) => if items.len() > 0 {
                    match &items[0] {
                        JsonValue::Array(cells) => Some(scalars_of(cells)),
                        _ => None,
                    }
                } else {
                    None
                },
                _ => None,
            },
            _ => None,
        },
        None => None,
    };
    Ok((symbol, row))
}

} // verus!
