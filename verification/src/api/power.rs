//! The generic list query: a JSON filter turned into column conditions, a JSON sort
//! turned into sort keys, and JSON values turned into column values.
use vstd::prelude::*;

use crate::api::query::{parse_sort_order, sort_order_of, SortOrder};
use crate::text::str_eq;
use serde_json::Value as V;

verus! {

/// The storage kind of a column.
#[derive(Debug, Clone, Copy, PartialEq, Eq, Structural)]
pub enum ColumnKind {
    Integer,
    BigInteger,
    Boolean,
    Json,
    String,
    Text,
    Char,
    Other,
}

/// A column of the queried table: its name, storage kind, and, for a column that
/// stores an enumeration, the stored integer of each variant name.
#[derive(Debug)]
pub struct ColumnInfo {
    pub name: String,
    pub kind: ColumnKind,
    pub enum_values: Option<Vec<(String, i32)>>,
}

/// A JSON value under a key of a filter or sort object. A number keeps what it
/// reads as a signed and as an unsigned 64-bit integer (`None` where it does not
/// read as one); an array keeps nothing; an object keeps its JSON text.
#[derive(Debug)]
pub enum JsonScalar {
    Null,
    Bool(bool),
    Number(Option<i64>, Option<u64>),
    Str(String),
    Array,
    Object(String),
}

/// An element of an array in a filter: an object with its entries in the order
/// they are walked, or any other value.
#[derive(Debug)]
pub enum JsonMember {
    Object(Vec<(String, JsonScalar)>),
    Other,
}

/// A value under a key of a top-level object: an array with its elements, or
/// any other value.
#[derive(Debug)]
pub enum JsonValue {
    Array(Vec<JsonMember>),
    Leaf(JsonScalar),
}

/// A parsed JSON document: an object with its entries in the order they are
/// walked, an array with its elements, or any other value.
#[derive(Debug)]
pub enum JsonTop {
    Object(Vec<(String, JsonValue)>),
    Array(Vec<JsonMember>),
    Other,
}

/// A column value. `FloatAsGiven` stands for a JSON number with a fraction or
/// exponent, stored as the floating-point number it is.
#[derive(Debug)]
pub enum DbValue {
    Int(i32),
    BigInt(i64),
    BigUnsigned(u64),
    Bool(bool),
    Str(String),
    Json(String),
    FloatAsGiven,
}

/// A JSON text read one level deep: an object's entries with each value's JSON
/// text, an array's elements as JSON texts, another value, or the error of text
/// that is not JSON.
#[derive(Debug)]
pub enum JsonShape {
    Object(Vec<(String, String)>),
    Array(Vec<String>),
    Other,
    Invalid(String),
}

/// What `serde_json::from_str` makes of a text, read one level deep.
pub uninterp spec fn json_shape(text: Seq<char>) -> JsonShape;

/// `serde_json::from_str::<serde_json::Value>`, with an object's values and an
/// array's elements written back as JSON text by `to_string`, and a failure as the
/// error's text.
#[verifier::external_body]
pub(crate) fn json_shape_of(text: &str) -> (r: JsonShape)
    ensures
        r == json_shape(text@),
{
    match serde_json::from_str::<V>(text) {
        Ok(V::Object(m)) => JsonShape::Object(m.into_iter().map(|(k, v)| (k, v.to_string())).collect()),
        Ok(V::Array(a)) => JsonShape::Array(a.into_iter().map(|v| v.to_string()).collect()),
        Ok(_) => JsonShape::Other,
        Err(e) => JsonShape::Invalid(e.to_string()),
    }
}

/// What `serde_json::from_str` makes of a text, read as a `JsonScalar`.
pub uninterp spec fn json_leaf(text: Seq<char>) -> JsonScalar;

/// `serde_json::from_str::<serde_json::Value>`, converted variant for variant into
/// `JsonScalar` (a number as its `as_i64` and `as_u64`, an object as the text
/// given); text that is not JSON reads as `Null`.
#[verifier::external_body]
fn json_leaf_of(text: &str) -> (r: JsonScalar)
    ensures
        r == json_leaf(text@),
{
    match serde_json::from_str::<V>(text) {
        Ok(V::Bool(b)) => JsonScalar::Bool(b),
        Ok(V::Number(n)) => JsonScalar::Number(n.as_i64(), n.as_u64()),
        Ok(V::String(s)) => JsonScalar::Str(s),
        Ok(V::Array(_)) => JsonScalar::Array,
        Ok(V::Object(_)) => JsonScalar::Object(text.to_string()),
        _ => JsonScalar::Null,
    }
}

/// `m` is the array element whose JSON text is `item`: an object keeps its entries
/// in order, each value read as a `JsonScalar`; anything else is `Other`.
pub open spec fn member_matches(m: JsonMember, item: Seq<char>) -> bool {
    match json_shape(item) {
        JsonShape::Object(es) => match m {
            JsonMember::Object(v) => v@.len() == es@.len() && forall|i: int|
                0 <= i < v@.len() ==> (#[trigger] v@[i]).0@ == es@[i].0@ && v@[i].1 == json_leaf(
                    es@[i].1@,
                ),
            JsonMember::Other => false,
        },
        _ => m is Other,
    }
}

/// `ms` are the array elements whose JSON texts are `items`.
pub open spec fn members_match(ms: Seq<JsonMember>, items: Seq<String>) -> bool {
    ms.len() == items.len() && forall|i: int|
        0 <= i < ms.len() ==> member_matches(#[trigger] ms[i], items[i]@)
}

/// `v` is the top-level object value whose JSON text is `text`: an array with its
/// elements, or any other value read as a `JsonScalar`.
pub open spec fn value_matches(v: JsonValue, text: Seq<char>) -> bool {
    match json_shape(text) {
        JsonShape::Array(items) => match v {
            JsonValue::Array(ms) => members_match(ms@, items@),
            JsonValue::Leaf(_) => false,
        },
        _ => v == JsonValue::Leaf(json_leaf(text)),
    }
}

/// `r` is what parsing `text` gives: the parse error; an object with its entries
/// in order; an array with its elements; or any other value.
pub open spec fn parsed_as(r: Result<JsonTop, String>, text: Seq<char>) -> bool {
    match json_shape(text) {
        JsonShape::Invalid(e) => match r {
            Err(m) => m@ == e@,
            Ok(_) => false,
        },
        JsonShape::Object(es) => match r {
            Ok(JsonTop::Object(v)) => v@.len() == es@.len() && forall|i: int|
                0 <= i < v@.len() ==> (#[trigger] v@[i]).0@ == es@[i].0@ && value_matches(
                    v@[i].1,
                    es@[i].1@,
                ),
            _ => false,
        },
        JsonShape::Array(items) => match r {
            Ok(JsonTop::Array(ms)) => members_match(ms@, items@),
            _ => false,
        },
        JsonShape::Other => r matches Ok(JsonTop::Other),
    }
}

fn member_from(item: &String) -> (m: JsonMember)
    ensures
        member_matches(m, item@),
{
    match json_shape_of(item.as_str()) {
        JsonShape::Object(es) => {
            let mut v: Vec<(String, JsonScalar)> = Vec::new();
            let mut i: usize = 0;
            while i < es.len()
                invariant
                    i <= es@.len(),
                    v@.len() == i,
                    forall|k: int|
                        0 <= k < i ==> (#[trigger] v@[k]).0@ == es@[k].0@ && v@[k].1 == json_leaf(
                            es@[k].1@,
                        ),
                decreases es@.len() - i,
            {
                let leaf = json_leaf_of(es[i].1.as_str());
                v.push((es[i].0.clone(), leaf));
                i += 1;
            }
            JsonMember::Object(v)
        },
        _ => JsonMember::Other,
    }
}

fn members_from(items: &Vec<String>) -> (ms: Vec<JsonMember>)
    ensures
        members_match(ms@, items@),
{
    let mut ms: Vec<JsonMember> = Vec::new();
    let mut i: usize = 0;
    while i < items.len()
        invariant
            i <= items@.len(),
            ms@.len() == i,
            forall|k: int| 0 <= k < i ==> member_matches(#[trigger] ms@[k], items@[k]@),
        decreases items@.len() - i,
    {
        ms.push(member_from(&items[i]));
        i += 1;
    }
    ms
}

fn value_from(text: &String) -> (v: JsonValue)
    ensures
        value_matches(v, text@),
{
    match json_shape_of(text.as_str()) {
        JsonShape::Array(items) => JsonValue::Array(members_from(&items)),
        _ => JsonValue::Leaf(json_leaf_of(text.as_str())),
    }
}

/// Parses a JSON text into a `JsonTop`, as `parsed_as` says.
pub fn parse_json(text: &str) -> (r: Result<JsonTop, String>)
    ensures
        parsed_as(r, text@),
{
    match json_shape_of(text) {
        JsonShape::Invalid(e) => Err(e),
        JsonShape::Object(es) => {
            let mut v: Vec<(String, JsonValue)> = Vec::new();
            let mut i: usize = 0;
            while i < es.len()
                invariant
                    i <= es@.len(),
                    v@.len() == i,
                    forall|k: int|
                        0 <= k < i ==> (#[trigger] v@[k]).0@ == es@[k].0@ && value_matches(
                            v@[k].1,
                            es@[k].1@,
                        ),
                decreases es@.len() - i,
            {
                let val = value_from(&es[i].1);
                v.push((es[i].0.clone(), val));
                i += 1;
            }
            Ok(JsonTop::Object(v))
        },
        JsonShape::Array(items) => Ok(JsonTop::Array(members_from(&items))),
        JsonShape::Other => Ok(JsonTop::Other),
    }
}

/// What `str::parse::<i64>` makes of a text, or the text of its error.
pub uninterp spec fn parsed_i64(text: Seq<char>) -> Result<i64, Seq<char>>;

/// `str::parse::<i64>`; a failure gives the error's text.
#[verifier::external_body]
fn parse_i64(text: &str) -> (r: Result<i64, String>)
    ensures
        match r {
            Ok(v) => parsed_i64(text@) == Ok::<i64, Seq<char>>(v),
            Err(m) => parsed_i64(text@) == Err::<i64, Seq<char>>(m@),
        },
{
    text.parse::<i64>().map_err(|e| e.to_string())
}

/// The stored integer of the first variant named `name` in `table`.
pub open spec fn enum_lookup(table: Seq<(String, i32)>, name: Seq<char>) -> Option<i32>
    decreases table.len(),
{
    if table.len() == 0 {
        None
    } else if table[0].0@ == name {
        Some(table[0].1)
    } else {
        enum_lookup(table.drop_first(), name)
    }
}

/// Whether converting `value` for a column of `kind` stops the program: an integer
/// column given a JSON integer is not handled.
pub open spec fn conversion_unhandled(kind: ColumnKind, value: JsonScalar) -> bool {
    kind == ColumnKind::Integer && value matches JsonScalar::Number(Some(_), _)
}

/// The error of a text that is not a 64-bit integer.
pub open spec fn i64_error_text(column: Seq<char>, text: Seq<char>, e: Seq<char>) -> Seq<char> {
    "column:"@ + column + ",值:"@ + text + ",转换成i64错误:"@ + e
}

/// The column value of a JSON value.
/// - An integer column reads a text as an enumeration variant when it stores one
///   (an unknown name is an error), else as a 64-bit integer; a number that reads
///   as a signed 64-bit integer is not handled; it refuses anything else.
/// - A boolean column takes only a boolean.
/// - Any other column takes a number as a signed 64-bit integer when it reads as
///   one, else as an unsigned one, else as the floating-point number it is; a text as a 64-bit integer for a
///   big-integer column and as text otherwise; an object as JSON for a JSON or
///   string column; it refuses the rest.
pub open spec fn json_to_db_value_spec(
    column: ColumnInfo,
    value: JsonScalar,
) -> Result<DbValue, Seq<char>> {
    let name = column.name@;
    match column.kind {
        ColumnKind::Integer => match value {
            JsonScalar::Str(s) => match column.enum_values {
                Some(t) => match enum_lookup(t@, s@) {
                    Some(v) => Ok(DbValue::Int(v)),
                    None => Err("unknown variant `"@ + s@ + "`"@),
                },
                None => match parsed_i64(s@) {
                    Ok(v) => Ok(DbValue::BigInt(v)),
                    Err(e) => Err(i64_error_text(name, s@, e)),
                },
            },
            _ => Err("Integer 数据转化失败,column:"@ + name),
        },
        ColumnKind::Boolean => match value {
            JsonScalar::Bool(b) => Ok(DbValue::Bool(b)),
            _ => Err("数据转化失败,column:"@ + name),
        },
        _ => match value {
            JsonScalar::Number(Some(i), _) => Ok(DbValue::BigInt(i)),
            JsonScalar::Number(None, Some(u)) => Ok(DbValue::BigUnsigned(u)),
            JsonScalar::Number(None, None) => Ok(DbValue::FloatAsGiven),
            JsonScalar::Str(s) => if column.kind == ColumnKind::BigInteger {
                match parsed_i64(s@) {
                    Ok(v) => Ok(DbValue::BigInt(v)),
                    Err(e) => Err(i64_error_text(name, s@, e)),
                }
            } else {
                Ok(DbValue::Str(s))
            },
            JsonScalar::Object(o) => if column.kind == ColumnKind::Json || column.kind
                == ColumnKind::String {
                Ok(DbValue::Json(o))
            } else {
                Err("数据转化失败,column:"@ + name)
            },
            _ => Err("数据转化失败,column:"@ + name),
        },
    }
}

/// `r` is the exec form of the result `s`.
pub open spec fn result_is<T>(r: Result<T, String>, s: Result<T, Seq<char>>) -> bool {
    match r {
        Ok(v) => s == Ok::<T, Seq<char>>(v),
        Err(m) => s == Err::<T, Seq<char>>(m@),
    }
}

fn text_of(parts: &str) -> (s: String)
    ensures
        s@ == parts@,
{
    String::from_str(parts)
}

fn lookup_enum(table: &Vec<(String, i32)>, name: &str) -> (r: Option<i32>)
    ensures
        r == enum_lookup(table@, name@),
{
    let mut i: usize = 0;
    assert(table@.skip(0) =~= table@);
    while i < table.len()
        invariant
            i <= table@.len(),
            enum_lookup(table@, name@) == enum_lookup(table@.skip(i as int), name@),
        decreases table@.len() - i,
    {
        assert(table@.skip(i as int).drop_first() =~= table@.skip(i + 1));
        assert(table@.skip(i as int)[0] == table@[i as int]);
        if str_eq(table[i].0.as_str(), name) {
            return Some(table[i].1);
        }
        i += 1;
    }
    None
}

fn i64_error(column: &str, text: &str, e: String) -> (m: String)
    ensures
        m@ == i64_error_text(column@, text@, e@),
{
    let mut m = text_of("column:");
    m.append(column);
    m.append(",值:");
    m.append(text);
    m.append(",转换成i64错误:");
    m.append(e.as_str());
    proof {
        assert(m@ =~= i64_error_text(column@, text@, e@));
    }
    m
}

fn prefixed(prefix: &str, name: &str) -> (m: String)
    ensures
        m@ == prefix@ + name@,
{
    let mut m = text_of(prefix);
    m.append(name);
    m
}

/// Converts a JSON value for a column, as `json_to_db_value_spec` says. An integer
/// column given a JSON integer is not handled and is left out.
pub fn json_to_db_value(column: &ColumnInfo, value: JsonScalar) -> (r: Result<DbValue, String>)
    requires
        !conversion_unhandled(column.kind, value),
    ensures
        result_is(r, json_to_db_value_spec(*column, value)),
{
    let name = column.name.as_str();
    match column.kind {
        ColumnKind::Integer => match value {
            JsonScalar::Str(s) => match &column.enum_values {
                Some(t) => match lookup_enum(t, s.as_str()) {
                    Some(v) => Ok(DbValue::Int(v)),
                    None => {
                        let mut m = text_of("unknown variant `");
                        m.append(s.as_str());
                        m.append("`");
                        Err(m)
                    },
                },
                None => match parse_i64(s.as_str()) {
                    Ok(v) => Ok(DbValue::BigInt(v)),
                    Err(e) => Err(i64_error(name, s.as_str(), e)),
                },
            },
            _ => Err(prefixed("Integer 数据转化失败,column:", name)),
        },
        ColumnKind::Boolean => match value {
            JsonScalar::Bool(b) => Ok(DbValue::Bool(b)),
            _ => Err(prefixed("数据转化失败,column:", name)),
        },
        _ => match value {
            JsonScalar::Number(Some(i), _) => Ok(DbValue::BigInt(i)),
            JsonScalar::Number(None, Some(u)) => Ok(DbValue::BigUnsigned(u)),
            JsonScalar::Number(None, None) => Ok(DbValue::FloatAsGiven),
            JsonScalar::Str(s) => {
                if column.kind == ColumnKind::BigInteger {
                    match parse_i64(s.as_str()) {
                        Ok(v) => Ok(DbValue::BigInt(v)),
                        Err(e) => Err(i64_error(name, s.as_str(), e)),
                    }
                } else {
                    Ok(DbValue::Str(s))
                }
            },
            JsonScalar::Object(o) => {
                if column.kind == ColumnKind::Json || column.kind == ColumnKind::String {
                    Ok(DbValue::Json(o))
                } else {
                    Err(prefixed("数据转化失败,column:", name))
                }
            },
            _ => Err(prefixed("数据转化失败,column:", name)),
        },
    }
}

/// The index of the first column named `key`, looking from position `start` on.
pub open spec fn column_from(columns: Seq<ColumnInfo>, key: Seq<char>, start: int) -> Option<int>
    decreases columns.len() - start,
{
    if start < 0 || start >= columns.len() {
        None
    } else if columns[start].name@ == key {
        Some(start)
    } else {
        column_from(columns, key, start + 1)
    }
}

proof fn lemma_column_from_range(columns: Seq<ColumnInfo>, key: Seq<char>, start: int)
    ensures
        column_from(columns, key, start) matches Some(i) ==> 0 <= start <= i < columns.len()
            && columns[i].name@ == key,
    decreases columns.len() - start,
{
    if 0 <= start < columns.len() && columns[start].name@ != key {
        lemma_column_from_range(columns, key, start + 1);
    }
}

/// The index of the first column named `key`.
pub open spec fn column_of(columns: Seq<ColumnInfo>, key: Seq<char>) -> Option<int> {
    column_from(columns, key, 0)
}

fn find_column(columns: &Vec<ColumnInfo>, key: &str) -> (r: Option<usize>)
    ensures
        r matches Some(i) ==> column_of(columns@, key@) == Some(i as int) && i < columns@.len(),
        r is None ==> column_of(columns@, key@) is None,
{
    proof {
        lemma_column_from_range(columns@, key@, 0);
    }
    let mut i: usize = 0;
    while i < columns.len()
        invariant
            i <= columns@.len(),
            column_of(columns@, key@) == column_from(columns@, key@, i as int),
        decreases columns@.len() - i,
    {
        if str_eq(columns[i].name.as_str(), key) {
            return Some(i);
        }
        i += 1;
    }
    None
}

/// A condition of the query on the column at an index: the column contains a text
/// (`LIKE` with the pattern given), or equals a value.
#[derive(Debug)]
pub enum FilterCond {
    Like(usize, String),
    Eq(usize, DbValue),
}

/// A condition as the contracts see it.
pub enum FilterSpec {
    Like(int, Seq<char>),
    Eq(int, DbValue),
}

pub open spec fn filter_view(c: FilterCond) -> FilterSpec {
    match c {
        FilterCond::Like(i, p) => FilterSpec::Like(i as int, p@),
        FilterCond::Eq(i, v) => FilterSpec::Eq(i as int, v),
    }
}

pub open spec fn filters_view(v: Seq<FilterCond>) -> Seq<FilterSpec> {
    v.map_values(|c: FilterCond| filter_view(c))
}

/// Whether the column kind holds text.
pub open spec fn is_text_kind(k: ColumnKind) -> bool {
    k == ColumnKind::Text || k == ColumnKind::Char || k == ColumnKind::String
}

/// What one filter entry gives: `None` where the program stops; an error; or, when
/// it goes on, the condition it adds, if any. The key must name a column; an
/// object value adds nothing; another value is converted for the column; a text
/// column takes the value as a `LIKE %value%` condition (nothing for an empty
/// text) and refuses a value that is not text; any other column an equality.
pub open spec fn entry_condition(entry: (String, JsonScalar), columns: Seq<ColumnInfo>) -> Option<
    Result<Option<FilterSpec>, Seq<char>>,
> {
    let key = entry.0@;
    match column_of(columns, key) {
        None => Some(Err("column "@ + key + " not found"@)),
        Some(i) => match entry.1 {
            JsonScalar::Object(_) => Some(Ok(None)),
            v => if conversion_unhandled(columns[i].kind, v) {
                None
            } else {
                match json_to_db_value_spec(columns[i], v) {
                    Err(m) => Some(Err(m)),
                    Ok(dv) => if is_text_kind(columns[i].kind) {
                        match dv {
                            DbValue::Str(s) => if s@.len() == 0 {
                                Some(Ok(None))
                            } else {
                                Some(Ok(Some(FilterSpec::Like(i, "%"@ + s@ + "%"@))))
                            },
                            _ => Some(Err("column "@ + key + " value is not string"@)),
                        }
                    } else {
                        Some(Ok(Some(FilterSpec::Eq(i, dv))))
                    },
                }
            },
        },
    }
}

/// `prefix` followed by what `rest` gives, the first failure or stop winning.
pub open spec fn after_prefix(
    prefix: Seq<FilterSpec>,
    rest: Option<Result<Seq<FilterSpec>, Seq<char>>>,
) -> Option<Result<Seq<FilterSpec>, Seq<char>>> {
    match rest {
        None => None,
        Some(Err(e)) => Some(Err(e)),
        Some(Ok(cs)) => Some(Ok(prefix + cs)),
    }
}

/// The conditions of filter entries, taken in order: `None` where the program
/// stops, the first error, or all conditions.
pub open spec fn entries_conditions(
    entries: Seq<(String, JsonScalar)>,
    columns: Seq<ColumnInfo>,
) -> Option<Result<Seq<FilterSpec>, Seq<char>>>
    decreases entries.len(),
{
    if entries.len() == 0 {
        Some(Ok(Seq::empty()))
    } else {
        match entry_condition(entries[0], columns) {
            None => None,
            Some(Err(e)) => Some(Err(e)),
            Some(Ok(c)) => after_prefix(
                match c {
                    Some(x) => seq![x],
                    None => Seq::empty(),
                },
                entries_conditions(entries.drop_first(), columns),
            ),
        }
    }
}

proof fn lemma_after_prefix_assoc(
    a: Seq<FilterSpec>,
    b: Seq<FilterSpec>,
    rest: Option<Result<Seq<FilterSpec>, Seq<char>>>,
)
    ensures
        after_prefix(a, after_prefix(b, rest)) == after_prefix(a + b, rest),
{
    match rest {
        Some(Ok(cs)) => {
            assert(a + (b + cs) =~= (a + b) + cs);
        },
        _ => {},
    }
}

/// The conditions of filter entries with plain values, as `entries_conditions`
/// gives them; `None` where the program stops (an integer column given a JSON
/// number that reads as a signed integer).
pub fn leaf_conditions(entries: Vec<(String, JsonScalar)>, columns: &Vec<ColumnInfo>) -> (r: Option<
    Result<Vec<FilterCond>, String>,
>)
    ensures
        match r {
            None => entries_conditions(entries@, columns@) is None,
            Some(Ok(cs)) => entries_conditions(entries@, columns@) == Some(
                Ok::<Seq<FilterSpec>, Seq<char>>(filters_view(cs@)),
            ),
            Some(Err(m)) => entries_conditions(entries@, columns@) == Some(
                Err::<Seq<FilterSpec>, Seq<char>>(m@),
            ),
        },
{
    let mut pending = entries;
    let ghost all = pending@;
    let mut out: Vec<FilterCond> = Vec::new();
    assert(after_prefix(filters_view(out@), entries_conditions(pending@, columns@))
        == entries_conditions(all, columns@)) by {
        assert(filters_view(out@) =~= Seq::<FilterSpec>::empty());
        match entries_conditions(all, columns@) {
            Some(Ok(cs)) => {
                assert(Seq::<FilterSpec>::empty() + cs =~= cs);
            },
            _ => {},
        }
    }
    while pending.len() > 0
        invariant
            all == entries@,
            after_prefix(filters_view(out@), entries_conditions(pending@, columns@))
                == entries_conditions(all, columns@),
        decreases pending@.len(),
    {
        let ghost before = pending@;
        let entry = pending.remove(0);
        assert(before.drop_first() =~= pending@);
        assert(entry == before[0]);
        let (key, value) = entry;
        let idx = match find_column(columns, key.as_str()) {
            Some(i) => i,
            None => {
                let m = prefixed_suffixed("column ", key.as_str(), " not found");
                proof {
                    assert(entry_condition(before[0], columns@) == Some(
                        Err::<Option<FilterSpec>, Seq<char>>(m@),
                    ));
                }
                return Some(Err(m));
            },
        };
        let is_object = match &value {
            JsonScalar::Object(_) => true,
            _ => false,
        };
        if !is_object {
            let column = &columns[idx];
            let unhandled = match &value {
                JsonScalar::Number(Some(_), _) => column.kind == ColumnKind::Integer,
                _ => false,
            };
            if unhandled {
                proof {
                    assert(entry_condition(before[0], columns@) is None);
                }
                return None;
            }
            let dv = match json_to_db_value(column, value) {
                Ok(dv) => dv,
                Err(m) => {
                    return Some(Err(m));
                },
            };
            let kind = column.kind;
            if kind == ColumnKind::Text || kind == ColumnKind::Char || kind == ColumnKind::String {
                match dv {
                    DbValue::Str(s) => {
                        match crate::api::query::text_filter_pattern(s.as_str()) {
                            Some(p) => {
                                let ghost o = out@;
                                out.push(FilterCond::Like(idx, p));
                                proof {
                                    assert(filters_view(out@) =~= filters_view(o) + seq![
                                        filter_view(out@.last()),
                                    ]);
                                    lemma_after_prefix_assoc(
                                        filters_view(o),
                                        seq![filter_view(out@.last())],
                                        entries_conditions(pending@, columns@),
                                    );
                                }
                            },
                            None => {
                                proof {
                                    assert(filters_view(out@) + Seq::<FilterSpec>::empty()
                                        =~= filters_view(out@));
                                    lemma_after_prefix_assoc(
                                        filters_view(out@),
                                        Seq::<FilterSpec>::empty(),
                                        entries_conditions(pending@, columns@),
                                    );
                                }
                            },
                        }
                    },
                    _ => {
                        return Some(
                            Err(prefixed_suffixed("column ", key.as_str(), " value is not string")),
                        );
                    },
                }
            } else {
                let ghost o = out@;
                out.push(FilterCond::Eq(idx, dv));
                proof {
                    assert(filters_view(out@) =~= filters_view(o) + seq![
                        filter_view(out@.last()),
                    ]);
                    lemma_after_prefix_assoc(
                        filters_view(o),
                        seq![filter_view(out@.last())],
                        entries_conditions(pending@, columns@),
                    );
                }
            }
        } else {
            proof {
                assert(filters_view(out@) + Seq::<FilterSpec>::empty() =~= filters_view(out@));
                lemma_after_prefix_assoc(
                    filters_view(out@),
                    Seq::<FilterSpec>::empty(),
                    entries_conditions(pending@, columns@),
                );
            }
        }
    }
    proof {
        match entries_conditions(all, columns@) {
            Some(Ok(cs)) => {
                assert(filters_view(out@) + Seq::<FilterSpec>::empty() =~= filters_view(out@));
            },
            _ => {},
        }
    }
    Some(Ok(out))
}

fn prefixed_suffixed(prefix: &str, name: &str, suffix: &str) -> (m: String)
    ensures
        m@ == prefix@ + name@ + suffix@,
{
    let mut m = text_of(prefix);
    m.append(name);
    m.append(suffix);
    m
}

/// The condition groups of filter objects given in an array, one per element, in
/// order: each element must be an object; `None` where the program stops, or the
/// first error.
pub open spec fn members_conditions(ms: Seq<JsonMember>, columns: Seq<ColumnInfo>) -> Option<
    Result<Seq<Seq<FilterSpec>>, Seq<char>>,
>
    decreases ms.len(),
{
    if ms.len() == 0 {
        Some(Ok(Seq::empty()))
    } else {
        let first = match ms[0] {
            JsonMember::Object(es) => entries_conditions(es@, columns),
            JsonMember::Other => Some(Err("filter is not a json object"@)),
        };
        match first {
            None => None,
            Some(Err(e)) => Some(Err(e)),
            Some(Ok(c)) => match members_conditions(ms.drop_first(), columns) {
                None => None,
                Some(Err(e)) => Some(Err(e)),
                Some(Ok(rest)) => Some(Ok(seq![c] + rest)),
            },
        }
    }
}

pub open spec fn groups_view(v: Seq<Vec<FilterCond>>) -> Seq<Seq<FilterSpec>> {
    v.map_values(|g: Vec<FilterCond>| filters_view(g@))
}

/// `prefix` followed by the groups that `rest` gives, the first failure or stop
/// winning.
pub open spec fn groups_after(
    prefix: Seq<Seq<FilterSpec>>,
    rest: Option<Result<Seq<Seq<FilterSpec>>, Seq<char>>>,
) -> Option<Result<Seq<Seq<FilterSpec>>, Seq<char>>> {
    match rest {
        None => None,
        Some(Err(e)) => Some(Err(e)),
        Some(Ok(gs)) => Some(Ok(prefix + gs)),
    }
}

/// The condition groups of the filter objects of an array, as
/// `members_conditions` gives them.
pub fn member_conditions(ms: Vec<JsonMember>, columns: &Vec<ColumnInfo>) -> (r: Option<
    Result<Vec<Vec<FilterCond>>, String>,
>)
    ensures
        match r {
            None => members_conditions(ms@, columns@) is None,
            Some(Ok(gs)) => members_conditions(ms@, columns@) == Some(
                Ok::<Seq<Seq<FilterSpec>>, Seq<char>>(groups_view(gs@)),
            ),
            Some(Err(m)) => members_conditions(ms@, columns@) == Some(
                Err::<Seq<Seq<FilterSpec>>, Seq<char>>(m@),
            ),
        },
{
    let mut pending = ms;
    let ghost all = pending@;
    let mut out: Vec<Vec<FilterCond>> = Vec::new();
    proof {
        assert(groups_view(out@) =~= Seq::<Seq<FilterSpec>>::empty());
        match members_conditions(all, columns@) {
            Some(Ok(gs)) => {
                assert(Seq::<Seq<FilterSpec>>::empty() + gs =~= gs);
            },
            _ => {},
        }
    }
    while pending.len() > 0
        invariant
            all == ms@,
            groups_after(groups_view(out@), members_conditions(pending@, columns@))
                == members_conditions(all, columns@),
        decreases pending@.len(),
    {
        let ghost before = pending@;
        let m = pending.remove(0);
        assert(before.drop_first() =~= pending@);
        assert(m == before[0]);
        let es = match m {
            JsonMember::Object(es) => es,
            JsonMember::Other => {
                return Some(Err(text_of("filter is not a json object")));
            },
        };
        let g = match leaf_conditions(es, columns) {
            None => {
                return None;
            },
            Some(Err(e)) => {
                return Some(Err(e));
            },
            Some(Ok(g)) => g,
        };
        let ghost o = out@;
        out.push(g);
        proof {
            assert(groups_view(out@) =~= groups_view(o).push(filters_view(g@)));
            match members_conditions(pending@, columns@) {
                Some(Ok(rest)) => {
                    assert(groups_view(o) + (seq![filters_view(g@)] + rest) =~= groups_view(out@)
                        + rest);
                },
                _ => {},
            }
        }
    }
    proof {
        match members_conditions(all, columns@) {
            Some(Ok(gs)) => {
                assert(groups_view(out@) + Seq::<Seq<FilterSpec>>::empty() =~= groups_view(out@));
            },
            _ => {},
        }
    }
    Some(Ok(out))
}

/// Whether an entry of a filter object is its `or` group: the key `or` with an
/// array value.
pub open spec fn is_or_group(e: (String, JsonValue)) -> bool {
    e.0@ == "or"@ && e.1 is Array
}

/// A top-level value read as a plain value: an array keeps nothing.
pub open spec fn leaf_of(v: JsonValue) -> JsonScalar {
    match v {
        JsonValue::Array(_) => JsonScalar::Array,
        JsonValue::Leaf(l) => l,
    }
}

/// The entries of a filter object other than its `or` group, with plain values.
pub open spec fn plain_entries(es: Seq<(String, JsonValue)>) -> Seq<(String, JsonScalar)>
    decreases es.len(),
{
    if es.len() == 0 {
        Seq::empty()
    } else if is_or_group(es[0]) {
        plain_entries(es.drop_first())
    } else {
        seq![(es[0].0, leaf_of(es[0].1))] + plain_entries(es.drop_first())
    }
}

/// The elements of the first `or` group of a filter object, if it has one.
pub open spec fn or_members(es: Seq<(String, JsonValue)>) -> Option<Seq<JsonMember>>
    decreases es.len(),
{
    if es.len() == 0 {
        None
    } else if is_or_group(es[0]) {
        match es[0].1 {
            JsonValue::Array(ms) => Some(ms@),
            JsonValue::Leaf(_) => None,
        }
    } else {
        or_members(es.drop_first())
    }
}

fn split_or(es: Vec<(String, JsonValue)>) -> (r: (Vec<(String, JsonScalar)>, Option<Vec<JsonMember>>))
    ensures
        r.0@ == plain_entries(es@),
        match r.1 {
            Some(ms) => or_members(es@) == Some(ms@),
            None => or_members(es@) is None,
        },
{
    let mut pending = es;
    let ghost all = pending@;
    let mut plain: Vec<(String, JsonScalar)> = Vec::new();
    let mut group: Option<Vec<JsonMember>> = None;
    while pending.len() > 0
        invariant
            plain_entries(all) == plain@ + plain_entries(pending@),
            match group {
                Some(ms) => or_members(all) == Some(ms@),
                None => or_members(all) == or_members(pending@),
            },
        decreases pending@.len(),
    {
        let ghost before = pending@;
        let e = pending.remove(0);
        assert(before.drop_first() =~= pending@);
        assert(e == before[0]);
        let (k, v) = e;
        let or_key = str_eq(k.as_str(), "or");
        match v {
            JsonValue::Array(ms) => {
                if or_key {
                    if group.is_none() {
                        group = Some(ms);
                    }
                } else {
                    let ghost p = plain@;
                    plain.push((k, JsonScalar::Array));
                    assert(plain@ + plain_entries(pending@) =~= p + plain_entries(before));
                }
            },
            JsonValue::Leaf(l) => {
                let ghost p = plain@;
                plain.push((k, l));
                assert(plain@ + plain_entries(pending@) =~= p + plain_entries(before));
            },
        }
    }
    assert(plain@ + Seq::<(String, JsonScalar)>::empty() =~= plain@);
    (plain, group)
}

/// The conditions of a filter, in three groups: conditions that must all hold,
/// groups of which at least one must hold in full (the `or` group of an object),
/// and groups that must all hold in full (a filter given as an array of objects).
pub struct FilterGroups {
    pub all: Seq<FilterSpec>,
    pub any: Option<Seq<Seq<FilterSpec>>>,
    pub every: Seq<Seq<FilterSpec>>,
}

/// The conditions of a filter, as the query uses them.
#[derive(Debug)]
pub struct FilterConds {
    /// Conditions that must all hold.
    pub all: Vec<FilterCond>,
    /// Groups of which at least one must hold in full.
    pub any: Option<Vec<Vec<FilterCond>>>,
    /// Groups that must all hold in full.
    pub every: Vec<Vec<FilterCond>>,
}

pub open spec fn filter_conds_view(c: FilterConds) -> FilterGroups {
    FilterGroups {
        all: filters_view(c.all@),
        any: match c.any {
            Some(g) => Some(groups_view(g@)),
            None => None,
        },
        every: groups_view(c.every@),
    }
}

/// The conditions of a parsed filter. An object gives the conditions of its
/// entries, then, when it has a key `or` with an array of objects, one group per
/// object of which at least one must hold. An array of objects gives one group per
/// object, all of which must hold. Anything else is refused.
pub open spec fn conditions_of(v: JsonTop, columns: Seq<ColumnInfo>) -> Option<
    Result<FilterGroups, Seq<char>>,
> {
    match v {
        JsonTop::Object(es) => match entries_conditions(plain_entries(es@), columns) {
            None => None,
            Some(Err(e)) => Some(Err(e)),
            Some(Ok(all)) => match or_members(es@) {
                None => Some(Ok(FilterGroups { all, any: None, every: Seq::empty() })),
                Some(ms) => match members_conditions(ms, columns) {
                    None => None,
                    Some(Err(e)) => Some(Err(e)),
                    Some(Ok(g)) => Some(Ok(FilterGroups { all, any: Some(g), every: Seq::empty() })),
                },
            },
        },
        JsonTop::Array(ms) => match members_conditions(ms@, columns) {
            None => None,
            Some(Err(e)) => Some(Err(e)),
            Some(Ok(g)) => Some(Ok(FilterGroups { all: Seq::empty(), any: None, every: g })),
        },
        JsonTop::Other => Some(Err("filter is not a json object"@)),
    }
}

/// `r` is the exec form of what `conditions_of` gives.
pub open spec fn filter_result_is(
    r: Option<Result<FilterConds, String>>,
    s: Option<Result<FilterGroups, Seq<char>>>,
) -> bool {
    match r {
        None => s is None,
        Some(Ok(c)) => s == Some(Ok::<FilterGroups, Seq<char>>(filter_conds_view(c))),
        Some(Err(m)) => s == Some(Err::<FilterGroups, Seq<char>>(m@)),
    }
}

/// The conditions of a parsed filter, as `conditions_of` gives them; `None` where
/// the program stops (an integer column given a JSON number that reads as a
/// signed integer).
pub fn conditions_from_json(v: JsonTop, columns: &Vec<ColumnInfo>) -> (r: Option<
    Result<FilterConds, String>,
>)
    ensures
        filter_result_is(r, conditions_of(v, columns@)),
{
    match v {
        JsonTop::Object(es) => {
            let (plain, group) = split_or(es);
            let all = match leaf_conditions(plain, columns) {
                None => {
                    return None;
                },
                Some(Err(e)) => {
                    return Some(Err(e));
                },
                Some(Ok(all)) => all,
            };
            match group {
                None => {
                    let r = FilterConds { all, any: None, every: Vec::new() };
                    assert(groups_view(r.every@) =~= Seq::<Seq<FilterSpec>>::empty());
                    Some(Ok(r))
                },
                Some(ms) => match member_conditions(ms, columns) {
                    None => None,
                    Some(Err(e)) => Some(Err(e)),
                    Some(Ok(g)) => {
                        let r = FilterConds { all, any: Some(g), every: Vec::new() };
                        assert(groups_view(r.every@) =~= Seq::<Seq<FilterSpec>>::empty());
                        Some(Ok(r))
                    },
                },
            }
        },
        JsonTop::Array(ms) => match member_conditions(ms, columns) {
            None => None,
            Some(Err(e)) => Some(Err(e)),
            Some(Ok(g)) => {
                let r = FilterConds { all: Vec::new(), any: None, every: g };
                assert(filters_view(r.all@) =~= Seq::<FilterSpec>::empty());
                Some(Ok(r))
            },
        },
        JsonTop::Other => Some(Err(text_of("filter is not a json object"))),
    }
}

/// No conditions at all.
pub open spec fn no_filter() -> FilterGroups {
    FilterGroups { all: Seq::empty(), any: None, every: Seq::empty() }
}

fn empty_filter() -> (r: FilterConds)
    ensures
        filter_conds_view(r) == no_filter(),
{
    let r = FilterConds { all: Vec::new(), any: None, every: Vec::new() };
    assert(filters_view(r.all@) =~= Seq::<FilterSpec>::empty());
    assert(groups_view(r.every@) =~= Seq::<Seq<FilterSpec>>::empty());
    r
}

/// `r` gives the conditions of a filter text: none for a missing or empty filter,
/// the parse error of text that is not JSON, else those of the parsed filter.
pub open spec fn filter_ok(
    r: Option<Result<FilterConds, String>>,
    filter: Option<Seq<char>>,
    columns: Seq<ColumnInfo>,
) -> bool {
    match filter {
        None => filter_result_is(r, Some(Ok(no_filter()))),
        Some(f) => if f.len() == 0 {
            filter_result_is(r, Some(Ok(no_filter())))
        } else {
            exists|p: Result<JsonTop, String>|
                #[trigger] parsed_as(p, f) && match p {
                    Err(e) => filter_result_is(r, Some(Err(e@))),
                    Ok(v) => filter_result_is(r, conditions_of(v, columns)),
                }
        },
    }
}

/// Reads the filter of a list query into conditions, as `filter_ok` says; `None`
/// where the program stops instead (an integer column given a JSON number that
/// reads as a signed integer).
pub fn filter_conditions(filter: Option<&str>, columns: &Vec<ColumnInfo>) -> (r: Option<
    Result<FilterConds, String>,
>)
    ensures
        filter_ok(
            r,
            match filter {
                Some(f) => Some(f@),
                None => None,
            },
            columns@,
        ),
{
    let f = match filter {
        None => {
            return Some(Ok(empty_filter()));
        },
        Some(f) => f,
    };
    if f.unicode_len() == 0 {
        return Some(Ok(empty_filter()));
    }
    let parsed = parse_json(f);
    let ghost p = parsed;
    let r = match parsed {
        Ok(v) => conditions_from_json(v, columns),
        Err(e) => Some(Err(e)),
    };
    assert(parsed_as(p, f@));
    r
}

/// The sort key of one sort entry: the key must name a column and its value must
/// be a direction text.
pub open spec fn entry_order(entry: (String, JsonValue), columns: Seq<ColumnInfo>) -> Result<
    (int, SortOrder),
    Seq<char>,
> {
    let key = entry.0@;
    match column_of(columns, key) {
        None => Err("column "@ + key + " not found"@),
        Some(i) => match entry.1 {
            JsonValue::Leaf(JsonScalar::Str(s)) => match sort_order_of(s@) {
                Some(o) => Ok((i, o)),
                None => Err("order is not asc or desc"@),
            },
            _ => Err("order is not a string"@),
        },
    }
}

/// The sort keys of sort entries, in order, or the first error.
pub open spec fn entries_orders(entries: Seq<(String, JsonValue)>, columns: Seq<ColumnInfo>) -> Result<
    Seq<(int, SortOrder)>,
    Seq<char>,
>
    decreases entries.len(),
{
    if entries.len() == 0 {
        Ok(Seq::empty())
    } else {
        match entry_order(entries[0], columns) {
            Err(e) => Err(e),
            Ok(k) => match entries_orders(entries.drop_first(), columns) {
                Err(e) => Err(e),
                Ok(ks) => Ok(seq![k] + ks),
            },
        }
    }
}

/// The sort keys of a parsed sort: the parse error of text that is not JSON, an
/// error for JSON that is not an object, else those of its entries.
pub open spec fn parsed_orders(p: Result<JsonTop, String>, columns: Seq<ColumnInfo>) -> Result<
    Seq<(int, SortOrder)>,
    Seq<char>,
> {
    match p {
        Err(e) => Err(e@),
        Ok(JsonTop::Object(entries)) => entries_orders(entries@, columns),
        Ok(_) => Err("sort is not a json object"@),
    }
}

/// `r` is the exec form of the sort keys `s`.
pub open spec fn orders_are(r: Result<Vec<(usize, SortOrder)>, String>, s: Result<
    Seq<(int, SortOrder)>,
    Seq<char>,
>) -> bool {
    match r {
        Ok(ks) => s == Ok::<Seq<(int, SortOrder)>, Seq<char>>(orders_view(ks@)),
        Err(m) => s == Err::<Seq<(int, SortOrder)>, Seq<char>>(m@),
    }
}

/// `r` gives the sort keys of a sort text: none for a missing or empty sort, else
/// those of the parsed sort.
pub open spec fn order_ok(
    r: Result<Vec<(usize, SortOrder)>, String>,
    sort: Option<Seq<char>>,
    columns: Seq<ColumnInfo>,
) -> bool {
    match sort {
        None => orders_are(r, Ok(Seq::empty())),
        Some(s) => if s.len() == 0 {
            orders_are(r, Ok(Seq::empty()))
        } else {
            exists|p: Result<JsonTop, String>|
                #[trigger] parsed_as(p, s) && orders_are(r, parsed_orders(p, columns))
        },
    }
}

pub open spec fn orders_view(v: Seq<(usize, SortOrder)>) -> Seq<(int, SortOrder)> {
    v.map_values(|k: (usize, SortOrder)| (k.0 as int, k.1))
}

/// The sort keys of a parsed sort, as `parsed_orders` gives them.
pub fn orders_from_json(p: Result<JsonTop, String>, columns: &Vec<ColumnInfo>) -> (r: Result<
    Vec<(usize, SortOrder)>,
    String,
>)
    ensures
        orders_are(r, parsed_orders(p, columns@)),
{
    let ghost pg = p;
    let entries = match p {
        Err(e) => {
            return Err(e);
        },
        Ok(JsonTop::Other) => {
            return Err(text_of("sort is not a json object"));
        },
        Ok(JsonTop::Array(_)) => {
            return Err(text_of("sort is not a json object"));
        },
        Ok(JsonTop::Object(entries)) => entries,
    };
    assert(parsed_orders(pg, columns@) == entries_orders(entries@, columns@));
    let mut out: Vec<(usize, SortOrder)> = Vec::new();
    let mut i: usize = 0;
    proof {
        assert(entries@.skip(0) =~= entries@);
        assert(orders_view(out@) =~= Seq::<(int, SortOrder)>::empty());
        match entries_orders(entries@, columns@) {
            Ok(ks) => {
                assert(Seq::<(int, SortOrder)>::empty() + ks =~= ks);
            },
            _ => {},
        }
    }
    while i < entries.len()
        invariant
            i <= entries@.len(),
            out@.len() == i,
            pg == p,
            parsed_orders(pg, columns@) == entries_orders(entries@, columns@),
            entries_orders(entries@, columns@) == (match entries_orders(
                entries@.skip(i as int),
                columns@,
            ) {
                Err(e) => Err(e),
                Ok(ks) => Ok::<Seq<(int, SortOrder)>, Seq<char>>(orders_view(out@) + ks),
            }),
        decreases entries@.len() - i,
    {
        let ghost rest = entries@.skip(i as int);
        assert(rest.drop_first() =~= entries@.skip(i + 1));
        let key = &entries[i].0;
        let idx = match find_column(columns, key.as_str()) {
            Some(k) => k,
            None => {
                return Err(prefixed_suffixed("column ", key.as_str(), " not found"));
            },
        };
        let order = match &entries[i].1 {
            JsonValue::Leaf(JsonScalar::Str(s)) => match parse_sort_order(s.as_str()) {
                Ok(o) => o,
                Err(m) => {
                    return Err(text_of(m));
                },
            },
            _ => {
                return Err(text_of("order is not a string"));
            },
        };
        let ghost o = out@;
        out.push((idx, order));
        proof {
            assert(orders_view(out@) =~= orders_view(o) + seq![(idx as int, order)]);
            match entries_orders(entries@.skip(i + 1), columns@) {
                Ok(ks) => {
                    assert(orders_view(o) + (seq![(idx as int, order)] + ks) =~= orders_view(out@)
                        + ks);
                },
                _ => {},
            }
        }
        i += 1;
    }
    proof {
        assert(entries@.skip(i as int) =~= Seq::<(String, JsonValue)>::empty());
        assert(orders_view(out@) + Seq::<(int, SortOrder)>::empty() =~= orders_view(out@));
    }
    Ok(out)
}

/// Reads the sort of a list query into sort keys (column index and direction), as
/// `order_ok` says.
pub fn order_by(sort: Option<&str>, columns: &Vec<ColumnInfo>) -> (r: Result<
    Vec<(usize, SortOrder)>,
    String,
>)
    ensures
        order_ok(
            r,
            match sort {
                Some(t) => Some(t@),
                None => None,
            },
            columns@,
        ),
{
    let t = match sort {
        None => {
            proof {
                assert(orders_view(Seq::<(usize, SortOrder)>::empty()) =~= Seq::<
                    (int, SortOrder),
                >::empty());
            }
            return Ok(Vec::new());
        },
        Some(t) => t,
    };
    if t.unicode_len() == 0 {
        proof {
            assert(orders_view(Seq::<(usize, SortOrder)>::empty()) =~= Seq::<
                (int, SortOrder),
            >::empty());
        }
        return Ok(Vec::new());
    }
    let parsed = parse_json(t);
    let ghost pg = parsed;
    let r = orders_from_json(parsed, columns);
    assert(parsed_as(pg, t@));
    r
}

/// The paging, filter and sort of a list query. The sort is a JSON object keyed
/// by column name; the filter is such an object (where a key `or` may hold an
/// array of such objects, one of which must match) or an array of such objects
/// (all of which must match).
#[derive(Debug)]
pub struct PowerQueryParam {
    pub page_no: Option<u32>,
    pub page_size: Option<u32>,
    pub filter: Option<String>,
    pub sort: Option<String>,
}

impl PowerQueryParam {
    /// The conditions of the query's filter, as `filter_conditions` gives them.
    pub fn get_condition(&self, columns: &Vec<ColumnInfo>) -> (r: Option<Result<FilterConds, String>>)
        ensures
            filter_ok(
                r,
                match self.filter {
                    Some(f) => Some(f@),
                    None => None,
                },
                columns@,
            ),
    {
        let filter = match &self.filter {
            Some(f) => Some(f.as_str()),
            None => None,
        };
        filter_conditions(filter, columns)
    }

    /// The sort keys of the query's sort, as `order_by` gives them.
    pub fn get_order_by(&self, columns: &Vec<ColumnInfo>) -> (r: Result<Vec<(usize, SortOrder)>, String>)
        ensures
            order_ok(
                r,
                match self.sort {
                    Some(t) => Some(t@),
                    None => None,
                },
                columns@,
            ),
    {
        let sort = match &self.sort {
            Some(t) => Some(t.as_str()),
            None => None,
        };
        order_by(sort, columns)
    }
}

} // verus!
