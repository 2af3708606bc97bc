//! The pure parts of the tip analytics: labels and export records.
use vstd::prelude::*;
use vstd::string::StringExecFns;

use crate::text::{int_text, int_to_text, texts};

verus! {

/// The label of a reporting period.
pub open spec fn period_text(start_date: Seq<char>, end_date: Seq<char>) -> Seq<char> {
    start_date + " to "@ + end_date
}

/// The label of the period from `start_date` to `end_date`, as aggregated metrics name it.
pub fn period_label(start_date: &str, end_date: &str) -> (label: String)
    ensures
        label@ == period_text(start_date@, end_date@),
{
    let mut label = String::from_str(start_date);
    label.append(" to ");
    label.append(end_date);
    label
}

/// The header record of the tip CSV export.
pub open spec fn csv_header_texts() -> Seq<Seq<char>> {
    seq!["date"@, "sender"@, "creator"@, "amount"@, "token"@]
}

/// The CSV record of one tip.
pub open spec fn csv_record_texts(
    date: Seq<char>,
    sender: Seq<char>,
    creator: Seq<char>,
    amount: int,
    token: Seq<char>,
) -> Seq<Seq<char>> {
    seq![date, sender, creator, int_text(amount), token]
}

/// The header record of the tip CSV export.
pub fn export_csv_header() -> (fields: Vec<String>)
    ensures
        texts(fields@) == csv_header_texts(),
{
    let mut fields: Vec<String> = Vec::new();
    fields.push(String::from_str("date"));
    fields.push(String::from_str("sender"));
    fields.push(String::from_str("creator"));
    fields.push(String::from_str("amount"));
    fields.push(String::from_str("token"));
    assert(texts(fields@) =~= csv_header_texts());
    fields
}

/// The CSV record of one tip row: its fields in order, the amount in decimal.
pub fn export_csv_record(date: String, sender: String, creator: String, amount: i64, token: String) -> (fields: Vec<
    String,
>)
    ensures
        texts(fields@) == csv_record_texts(date@, sender@, creator@, amount as int, token@),
{
    let ghost (d, s, c, t) = (date@, sender@, creator@, token@);
    let mut fields: Vec<String> = Vec::new();
    fields.push(date);
    fields.push(sender);
    fields.push(creator);
    fields.push(int_to_text(amount as i128));
    fields.push(token);
    assert(texts(fields@) =~= csv_record_texts(d, s, c, amount as int, t));
    fields
}

/// A scalar value of an exported JSON object.
#[derive(Debug, Clone)]
pub enum JsonScalar {
    Text(String),
    Int(i64),
}

/// A JSON scalar as a plain value.
pub enum JsonScalarView {
    Text(Seq<char>),
    Int(int),
}

impl View for JsonScalar {
    type V = JsonScalarView;

    open spec fn view(&self) -> JsonScalarView {
        match self {
            JsonScalar::Text(s) => JsonScalarView::Text(s@),
            JsonScalar::Int(n) => JsonScalarView::Int(*n as int),
        }
    }
}

/// The fields of one JSON object, in insertion order, as plain values.
pub open spec fn object_view(o: Seq<(String, JsonScalar)>) -> Seq<(Seq<char>, JsonScalarView)> {
    o.map_values(|f: (String, JsonScalar)| (f.0@, f.1@))
}

/// The text that `serde_json::to_string_pretty` gives for the array of JSON objects built
/// from these fields (each field a string key mapped to a string or an integer value).
pub uninterp spec fn pretty_json_array(objects: Seq<Seq<(Seq<char>, JsonScalarView)>>) -> Seq<char>;

/// Builds one `serde_json::Value::Object` per field list (`Map::insert` of each key with
/// `Value::String` or `Value::from` of its value) and renders the array of them with
/// `serde_json::to_string_pretty`. serde_json's source shows that serialising a `Value`
/// fails only on a failing `Serialize` impl or a non-string map key, neither of which a
/// `Value` holds, so the error arm is never taken. The contract names the rendered text
/// as a function of the fields alone; the pretty-printing rules are not written out.
#[verifier::external_body]
fn to_pretty_json(objects: &Vec<Vec<(String, JsonScalar)>>) -> (r: String)
    ensures
        r@ == pretty_json_array(objects@.map_values(|o: Vec<(String, JsonScalar)>| object_view(o@))),
{
    let array: Vec<serde_json::Value> = objects.iter().map(|o| {
        let mut map = serde_json::Map::new();
        for (key, value) in o {
            let value = match value {
                JsonScalar::Text(s) => serde_json::Value::String(s.clone()),
                JsonScalar::Int(n) => serde_json::Value::from(*n),
            };
            map.insert(key.clone(), value);
        }
        serde_json::Value::Object(map)
    }).collect();
    match serde_json::to_string_pretty(&array) { Ok(text) => text, Err(_) => String::new() }
}

/// The JSON object of one per-day, per-creator, per-token tip total.
pub open spec fn tip_total_object(row: (String, String, i64, String)) -> Seq<(Seq<char>, JsonScalarView)> {
    seq![
        ("date"@, JsonScalarView::Text(row.0@)),
        ("creator"@, JsonScalarView::Text(row.1@)),
        ("total"@, JsonScalarView::Int(row.2 as int)),
        ("token"@, JsonScalarView::Text(row.3@)),
    ]
}

/// The JSON objects of the tip totals, one per row, in order.
pub open spec fn tip_total_objects(rows: Seq<(String, String, i64, String)>) -> Seq<Seq<(Seq<char>, JsonScalarView)>> {
    rows.map_values(|r: (String, String, i64, String)| tip_total_object(r))
}

/// The JSON object of one top creator.
pub open spec fn top_creator_object(row: (String, i64, i64)) -> Seq<(Seq<char>, JsonScalarView)> {
    seq![
        ("creator"@, JsonScalarView::Text(row.0@)),
        ("total_received"@, JsonScalarView::Int(row.1 as int)),
        ("tip_count"@, JsonScalarView::Int(row.2 as int)),
    ]
}

/// The JSON objects of the top creators, one per row, in order.
pub open spec fn top_creator_objects(rows: Seq<(String, i64, i64)>) -> Seq<Seq<(Seq<char>, JsonScalarView)>> {
    rows.map_values(|r: (String, i64, i64)| top_creator_object(r))
}

fn field(key: &str, value: JsonScalar) -> (f: (String, JsonScalar))
    ensures
        f.0@ == key@,
        f.1 == value,
{
    (String::from_str(key), value)
}

/// The pretty-printed JSON export of tip totals: rows of (date, creator, total, token).
pub fn tip_totals_json(rows: &Vec<(String, String, i64, String)>) -> (r: String)
    ensures
        r@ == pretty_json_array(tip_total_objects(rows@)),
        tip_total_objects(rows@).len() == rows@.len(),
        forall|i: int|
            0 <= i < rows@.len() ==> #[trigger] tip_total_objects(rows@)[i] == seq![
                ("date"@, JsonScalarView::Text(rows@[i].0@)),
                ("creator"@, JsonScalarView::Text(rows@[i].1@)),
                ("total"@, JsonScalarView::Int(rows@[i].2 as int)),
                ("token"@, JsonScalarView::Text(rows@[i].3@)),
            ],
{
    let n = rows.len();
    let mut objects: Vec<Vec<(String, JsonScalar)>> = Vec::new();
    let mut i: usize = 0;
    while i < n
        invariant
            n == rows@.len(),
            i <= n,
            objects@.len() == i,
            forall|j: int| 0 <= j < i ==> #[trigger] object_view(objects@[j]@) == tip_total_object(rows@[j]),
        decreases n - i,
    {
        let row = &rows[i];
        let mut object: Vec<(String, JsonScalar)> = Vec::new();
        object.push(field("date", JsonScalar::Text(row.0.clone())));
        object.push(field("creator", JsonScalar::Text(row.1.clone())));
        object.push(field("total", JsonScalar::Int(row.2)));
        object.push(field("token", JsonScalar::Text(row.3.clone())));
        assert(object_view(object@) =~= tip_total_object(rows@[i as int]));
        objects.push(object);
        i = i + 1;
    }
    assert(objects@.map_values(|o: Vec<(String, JsonScalar)>| object_view(o@)) =~= tip_total_objects(rows@));
    to_pretty_json(&objects)
}

/// The pretty-printed JSON export of top creators: rows of (creator, total received, tip count).
pub fn top_creators_json(rows: &Vec<(String, i64, i64)>) -> (r: String)
    ensures
        r@ == pretty_json_array(top_creator_objects(rows@)),
        top_creator_objects(rows@).len() == rows@.len(),
        forall|i: int|
            0 <= i < rows@.len() ==> #[trigger] top_creator_objects(rows@)[i] == seq![
                ("creator"@, JsonScalarView::Text(rows@[i].0@)),
                ("total_received"@, JsonScalarView::Int(rows@[i].1 as int)),
                ("tip_count"@, JsonScalarView::Int(rows@[i].2 as int)),
            ],
{
    let n = rows.len();
    let mut objects: Vec<Vec<(String, JsonScalar)>> = Vec::new();
    let mut i: usize = 0;
    while i < n
        invariant
            n == rows@.len(),
            i <= n,
            objects@.len() == i,
            forall|j: int| 0 <= j < i ==> #[trigger] object_view(objects@[j]@) == top_creator_object(rows@[j]),
        decreases n - i,
    {
        let row = &rows[i];
        let mut object: Vec<(String, JsonScalar)> = Vec::new();
        object.push(field("creator", JsonScalar::Text(row.0.clone())));
        object.push(field("total_received", JsonScalar::Int(row.1)));
        object.push(field("tip_count", JsonScalar::Int(row.2)));
        assert(object_view(object@) =~= top_creator_object(rows@[i as int]));
        objects.push(object);
        i = i + 1;
    }
    assert(objects@.map_values(|o: Vec<(String, JsonScalar)>| object_view(o@)) =~= top_creator_objects(rows@));
    to_pretty_json(&objects)
}

/// The JSON export of tip totals has one object per row, in row order, each built from
/// that row's date, creator, total and token.
pub proof fn lemma_tip_totals_follow_rows(rows: Seq<(String, String, i64, String)>, i: int)
    requires
        0 <= i < rows.len(),
    ensures
        tip_total_objects(rows).len() == rows.len(),
        tip_total_objects(rows)[i] == seq![
            ("date"@, JsonScalarView::Text(rows[i].0@)),
            ("creator"@, JsonScalarView::Text(rows[i].1@)),
            ("total"@, JsonScalarView::Int(rows[i].2 as int)),
            ("token"@, JsonScalarView::Text(rows[i].3@)),
        ],
{
}

/// The JSON export of top creators has one object per row, in row order (so the database's
/// highest-total-first order is kept), each built from that row's creator, total received
/// and tip count.
pub proof fn lemma_top_creators_follow_rows(rows: Seq<(String, i64, i64)>, i: int)
    requires
        0 <= i < rows.len(),
    ensures
        top_creator_objects(rows).len() == rows.len(),
        top_creator_objects(rows)[i] == seq![
            ("creator"@, JsonScalarView::Text(rows[i].0@)),
            ("total_received"@, JsonScalarView::Int(rows[i].1 as int)),
            ("tip_count"@, JsonScalarView::Int(rows[i].2 as int)),
        ],
{
}

} // verus!
