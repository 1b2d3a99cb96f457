//! Search options: the request's JSON shape, its validation, and the
//! construction of the store filter.

use vstd::prelude::*;

use crate::utils::utils::is_blank;
use crate::utils::utils::millis_in_datetime_range;
use crate::utils::utils::parse_rfc3339_millis;
use crate::utils::utils::rfc3339_millis_of;
use crate::utils::utils::spec_is_blank;

verus! {

/// Sort direction requested for a search.
#[derive(Clone, Copy, Debug, PartialEq, Eq, Structural)]
pub enum SortType {
    Ascending,
    Descending,
}

/// A JSON value as the library models it: object fields are kept in
/// order of appearance, looked up by first match.
#[derive(Debug)]
pub enum Value {
    Absent,
    Null,
    Bool(bool),
    Number(i32),
    String(String),
    Object(Vec<(String, Value)>),
    Array(Vec<Value>),
}

/// The mathematical shape of a [`Value`].
pub ghost enum SpecValue {
    Absent,
    Null,
    Bool(bool),
    Number(i32),
    String(Seq<char>),
    Object(Seq<(Seq<char>, SpecValue)>),
    Array(Seq<SpecValue>),
}

/// The model of a [`Value`].
pub open spec fn value_model(v: Value) -> SpecValue
    decreases v,
{
    match v {
        Value::Absent => SpecValue::Absent,
        Value::Null => SpecValue::Null,
        Value::Bool(b) => SpecValue::Bool(b),
        Value::Number(n) => SpecValue::Number(n),
        Value::String(s) => SpecValue::String(s@),
        Value::Object(entries) => SpecValue::Object(entries_model(entries@)),
        Value::Array(items) => SpecValue::Array(items_model(items@)),
    }
}

/// The model of an object's field list.
pub open spec fn entries_model(es: Seq<(String, Value)>) -> Seq<(Seq<char>, SpecValue)>
    decreases es,
{
    if es.len() == 0 {
        Seq::empty()
    } else {
        seq![(es[0].0@, value_model(es[0].1))] + entries_model(es.drop_first())
    }
}

/// The model of an array's item list.
pub open spec fn items_model(items: Seq<Value>) -> Seq<SpecValue>
    decreases items,
{
    if items.len() == 0 {
        Seq::empty()
    } else {
        seq![value_model(items[0])] + items_model(items.drop_first())
    }
}

impl View for Value {
    type V = SpecValue;

    open spec fn view(&self) -> SpecValue {
        value_model(*self)
    }
}

impl DeepView for Value {
    type V = SpecValue;

    open spec fn deep_view(&self) -> SpecValue {
        value_model(*self)
    }
}

/// A validated search request. Timestamps are milliseconds since the
/// epoch.
#[derive(Debug)]
pub struct OptionsRequest {
    pub log_timestamp: Option<i64>,
    pub log_timestamp_start: Option<i64>,
    pub log_timestamp_end: Option<i64>,
    pub log_level: Option<String>,
    pub log_message: Option<String>,
    pub log_data: Option<Value>,
    pub log_data_field: Option<String>,
    pub log_data_value: Option<Option<Value>>,
    pub log_data_fields: Option<Vec<String>>,
    pub log_data_values: Option<Option<Value>>,
    pub log_type: Option<String>,
    pub log_source: Option<String>,
    pub log_source_id: Option<String>,
    pub hog_uuid: Option<String>,
    pub hog_limit: Option<i64>,
    pub hog_sort: Option<SortType>,
    pub hog_partial: Option<bool>,
    pub hog_case_sensitive: Option<bool>,
    pub hog_timestamp: Option<i64>,
    pub hog_timestamp_start: Option<i64>,
    pub hog_timestamp_end: Option<i64>,
}

/// One field-level validation finding.
#[derive(Debug)]
pub struct ApiErrorSchema {
    pub field: String,
    pub message: String,
}

/// The error body handed back when option validation fails.
#[derive(Debug)]
pub struct ErrorResponse {
    pub status_code: u16,
    pub message: String,
    pub errors: Vec<ApiErrorSchema>,
}

/// First value bound to `key` in an object's field list, if any.
pub open spec fn spec_lookup(es: Seq<(Seq<char>, SpecValue)>, key: Seq<char>) -> Option<SpecValue>
    decreases es,
{
    if es.len() == 0 {
        Option::None
    } else if es[0].0 == key {
        Option::Some(es[0].1)
    } else {
        spec_lookup(es.drop_first(), key)
    }
}

/// What `Value::get` returns: a field of an object, nothing otherwise.
pub open spec fn spec_get(v: SpecValue, key: Seq<char>) -> Option<SpecValue> {
    match v {
        SpecValue::Object(es) => spec_lookup(es, key),
        _ => Option::None,
    }
}

/// The model of a field list is pointwise the model of its entries.
pub proof fn lemma_entries_model(es: Seq<(String, Value)>)
    ensures
        entries_model(es).len() == es.len(),
        forall|i: int|
            0 <= i < es.len() ==> entries_model(es)[i] == (es[i].0@, value_model(es[i].1)),
    decreases es,
{
    if es.len() > 0 {
        lemma_entries_model(es.drop_first());
    }
}

/// The model of an item list is pointwise the model of its items.
pub proof fn lemma_items_model(items: Seq<Value>)
    ensures
        items_model(items).len() == items.len(),
        forall|i: int| 0 <= i < items.len() ==> items_model(items)[i] == value_model(items[i]),
    decreases items,
{
    if items.len() > 0 {
        lemma_items_model(items.drop_first());
    }
}

/// Lookup passes over a prefix that does not hold the key.
proof fn lemma_lookup_prefix(es: Seq<(Seq<char>, SpecValue)>, key: Seq<char>, i: int)
    requires
        0 <= i <= es.len(),
        forall|j: int| 0 <= j < i ==> es[j].0 != key,
    ensures
        spec_lookup(es, key) == spec_lookup(es.skip(i), key),
    decreases i,
{
    if i > 0 {
        lemma_lookup_prefix(es, key, i - 1);
        assert(es.skip(i - 1)[0] == es[i - 1]);
        assert(es.skip(i - 1).drop_first() =~= es.skip(i));
    } else {
        assert(es.skip(0) =~= es);
    }
}

/// Exact string comparison, stated over the views.
pub fn str_eq(a: &str, b: &str) -> (r: bool)
    ensures
        r == (a@ == b@),
{
    a.to_owned() == b.to_owned()
}

impl Value {
    /// The field named `key` of an object, by first match; nothing on
    /// any other kind of value.
    pub fn get<'a>(&'a self, key: &str) -> (r: Option<&'a Value>)
        ensures
            match r {
                Option::Some(v) => spec_get(self@, key@) == Option::Some(v@),
                Option::None => spec_get(self@, key@) is None,
            },
    {
        match self {
            Value::Object(entries) => {
                proof {
                    lemma_entries_model(entries@);
                }
                let ghost es_m = entries_model(entries@);
                let mut i: usize = 0;
                while i < entries.len()
                    invariant
                        0 <= i <= entries@.len(),
                        es_m == entries_model(entries@),
                        es_m.len() == entries@.len(),
                        forall|j: int|
                            0 <= j < entries@.len() ==> es_m[j] == (
                            entries@[j].0@,
                            value_model(entries@[j].1),
                            ),
                        self@ == SpecValue::Object(es_m),
                        forall|j: int| 0 <= j < i ==> es_m[j].0 != key@,
                    decreases entries@.len() - i,
                {
                    if str_eq(entries[i].0.as_str(), key) {
                        proof {
                            lemma_lookup_prefix(es_m, key@, i as int);
                            assert(es_m.skip(i as int)[0] == es_m[i as int]);
                        }
                        return Option::Some(&entries[i].1);
                    }
                    i = i + 1;
                }
                proof {
                    lemma_lookup_prefix(es_m, key@, es_m.len() as int);
                    assert(es_m.skip(es_m.len() as int).len() == 0);
                }
                Option::None
            },
            _ => Option::None,
        }
    }

    /// The text of a string value.
    pub fn as_str<'a>(&'a self) -> (r: Option<&'a String>)
        ensures
            match r {
                Option::Some(s) => self@ == SpecValue::String(s@),
                Option::None => !(self@ is String),
            },
    {
        match self {
            Value::String(s) => Option::Some(s),
            _ => Option::None,
        }
    }

    /// The value of a numeric value, widened to 64 bits.
    pub fn as_i64(&self) -> (r: Option<i64>)
        ensures
            match r {
                Option::Some(n) => self@ == SpecValue::Number(n as i32) && i32::MIN <= n
                    <= i32::MAX,
                Option::None => !(self@ is Number),
            },
    {
        match self {
            Value::Number(n) => Option::Some(*n as i64),
            _ => Option::None,
        }
    }

    /// The value of a boolean value.
    pub fn as_bool(&self) -> (r: Option<bool>)
        ensures
            match r {
                Option::Some(b) => self@ == SpecValue::Bool(b),
                Option::None => !(self@ is Bool),
            },
    {
        match self {
            Value::Bool(b) => Option::Some(*b),
            _ => Option::None,
        }
    }

    /// The field list of an object value.
    pub fn as_object<'a>(&'a self) -> (r: Option<&'a Vec<(String, Value)>>)
        ensures
            match r {
                Option::Some(es) => self@ == SpecValue::Object(entries_model(es@)),
                Option::None => !(self@ is Object),
            },
    {
        match self {
            Value::Object(entries) => Option::Some(entries),
            _ => Option::None,
        }
    }

    /// The item list of an array value.
    pub fn as_array<'a>(&'a self) -> (r: Option<&'a Vec<Value>>)
        ensures
            match r {
                Option::Some(items) => self@ == SpecValue::Array(items_model(items@)),
                Option::None => !(self@ is Array),
            },
    {
        match self {
            Value::Array(items) => Option::Some(items),
            _ => Option::None,
        }
    }

    pub fn is_object(&self) -> (r: bool)
        ensures
            r == (self@ is Object),
    {
        match self {
            Value::Object(_) => true,
            _ => false,
        }
    }
}

/// The text of the string field `key` of `req`, when `req` is an
/// object and that field is a string.
pub open spec fn str_field(req: SpecValue, key: Seq<char>) -> Option<Seq<char>> {
    match spec_get(req, key) {
        Option::Some(SpecValue::String(s)) => Option::Some(s),
        _ => Option::None,
    }
}

/// The value of the boolean field `key` of `req`, when present.
pub open spec fn bool_field(req: SpecValue, key: Seq<char>) -> Option<bool> {
    match spec_get(req, key) {
        Option::Some(SpecValue::Bool(b)) => Option::Some(b),
        _ => Option::None,
    }
}

/// The value of the numeric field `key` of `req`, when present,
/// widened to 64 bits.
pub open spec fn i64_field(req: SpecValue, key: Seq<char>) -> Option<i64> {
    match spec_get(req, key) {
        Option::Some(SpecValue::Number(n)) => Option::Some(n as i64),
        _ => Option::None,
    }
}

impl Value {
    /// The text of the string field `key`, copied out.
    pub fn get_str_field(&self, key: &str) -> (r: Option<String>)
        ensures
            r.deep_view() == str_field(self@, key@),
    {
        match self.get(key) {
            Option::Some(v) => match v.as_str() {
                Option::Some(s) => Option::Some(s.clone()),
                Option::None => Option::None,
            },
            Option::None => Option::None,
        }
    }

    /// The value of the boolean field `key`.
    pub fn get_bool_field(&self, key: &str) -> (r: Option<bool>)
        ensures
            r == bool_field(self@, key@),
    {
        match self.get(key) {
            Option::Some(v) => v.as_bool(),
            Option::None => Option::None,
        }
    }

    /// The value of the numeric field `key`, widened to 64 bits.
    pub fn get_i64_field(&self, key: &str) -> (r: Option<i64>)
        ensures
            r == i64_field(self@, key@),
    {
        match self.get(key) {
            Option::Some(v) => v.as_i64(),
            Option::None => Option::None,
        }
    }

    /// The field `key`, copied out whole.
    pub fn get_field_cloned(&self, key: &str) -> (r: Option<Value>)
        ensures
            r.deep_view() == spec_get(self@, key@),
    {
        match self.get(key) {
            Option::Some(v) => Option::Some(v.clone()),
            Option::None => Option::None,
        }
    }
}

/// The milliseconds denoted by the RFC 3339 string field `key` of
/// `req`, when that field is a string and parses.
pub open spec fn ts_field(req: SpecValue, key: Seq<char>) -> Option<i64> {
    match str_field(req, key) {
        Option::Some(s) => rfc3339_millis_of(s),
        Option::None => Option::None,
    }
}

/// The field list of the object field `key` of `req`, when present and
/// an object.
pub open spec fn object_field(req: SpecValue, key: Seq<char>) -> Option<
    Seq<(Seq<char>, SpecValue)>,
> {
    match spec_get(req, key) {
        Option::Some(SpecValue::Object(es)) => Option::Some(es),
        _ => Option::None,
    }
}

/// The string items of an item list, in order, non-strings left out.
pub open spec fn str_items(items: Seq<SpecValue>) -> Seq<Seq<char>>
    decreases items,
{
    if items.len() == 0 {
        Seq::empty()
    } else {
        let rest = str_items(items.drop_first());
        match items[0] {
            SpecValue::String(s) => seq![s] + rest,
            _ => rest,
        }
    }
}

/// Appending one item extends the string items by at most that item.
proof fn lemma_str_items_push(items: Seq<SpecValue>, x: SpecValue)
    ensures
        str_items(items.push(x)) == str_items(items) + (match x {
            SpecValue::String(s) => seq![s],
            _ => Seq::empty(),
        }),
    decreases items,
{
    let tail: Seq<Seq<char>> = match x {
        SpecValue::String(s) => seq![s],
        _ => Seq::empty(),
    };
    if items.len() == 0 {
        assert(items.push(x).drop_first() =~= items);
        assert(str_items(items.push(x)) =~= str_items(items) + tail);
    } else {
        lemma_str_items_push(items.drop_first(), x);
        assert(items.push(x).drop_first() =~= items.drop_first().push(x));
        match items[0] {
            SpecValue::String(s) => {
                assert(str_items(items.push(x)) =~= str_items(items) + tail);
            },
            _ => {},
        }
    }
}

/// The string items of the array field `key` of `req`, when present
/// and an array.
pub open spec fn str_array_field(req: SpecValue, key: Seq<char>) -> Option<Seq<Seq<char>>> {
    match spec_get(req, key) {
        Option::Some(SpecValue::Array(items)) => Option::Some(str_items(items)),
        _ => Option::None,
    }
}

impl Value {
    /// The milliseconds denoted by the RFC 3339 string field `key`,
    /// when it is one.
    pub fn get_timestamp_field(&self, key: &str) -> (r: Option<i64>)
        ensures
            r == ts_field(self@, key@),
            r matches Some(ms) ==> millis_in_datetime_range(ms),
    {
        match self.get_str_field(key) {
            Option::Some(s) => parse_rfc3339_millis(s.as_str()),
            Option::None => Option::None,
        }
    }

    /// The string items of the array field `key`, copied out.
    pub fn get_str_list_field(&self, key: &str) -> (r: Option<Vec<String>>)
        ensures
            r.deep_view() == str_array_field(self@, key@),
    {
        let items = match self.get(key) {
            Option::Some(v) => match v.as_array() {
                Option::Some(items) => items,
                Option::None => {
                    return Option::None;
                },
            },
            Option::None => {
                return Option::None;
            },
        };
        proof {
            lemma_items_model(items@);
        }
        let ghost items_m = items_model(items@);
        let mut out: Vec<String> = Vec::new();
        let mut i: usize = 0;
        while i < items.len()
            invariant
                0 <= i <= items@.len(),
                items_m == items_model(items@),
                items_m.len() == items@.len(),
                forall|j: int| 0 <= j < items@.len() ==> items_m[j] == value_model(items@[j]),
                out.deep_view() == str_items(items_m.take(i as int)),
            decreases items@.len() - i,
        {
            proof {
                assert(items_m.take(i + 1) =~= items_m.take(i as int).push(items_m[i as int]));
                lemma_str_items_push(items_m.take(i as int), items_m[i as int]);
            }
            match items[i].as_str() {
                Option::Some(s) => {
                    out.push(s.clone());
                    proof {
                        assert(out.deep_view() =~= str_items(items_m.take(i + 1)));
                    }
                },
                Option::None => {
                    proof {
                        assert(out.deep_view() =~= str_items(items_m.take(i + 1)));
                    }
                },
            }
            i = i + 1;
        }
        proof {
            assert(items_m.take(items_m.len() as int) =~= items_m);
        }
        Option::Some(out)
    }

    /// The field list of the object field `key`, copied out.
    pub fn get_object_field(&self, key: &str) -> (r: Option<Vec<(String, Value)>>)
        ensures
            match r {
                Option::Some(es) => object_field(self@, key@) == Option::Some(entries_model(es@)),
                Option::None => object_field(self@, key@) is None,
            },
    {
        match self.get(key) {
            Option::Some(v) => match v.as_object() {
                Option::Some(es) => Option::Some(clone_entries(es)),
                Option::None => Option::None,
            },
            Option::None => Option::None,
        }
    }
}

/// Deep copy of an object's field list; the copy has the same model.
pub fn clone_entries(es: &Vec<(String, Value)>) -> (r: Vec<(String, Value)>)
    ensures
        entries_model(r@) == entries_model(es@),
{
    let mut out: Vec<(String, Value)> = Vec::new();
    let mut i: usize = 0;
    while i < es.len()
        invariant
            0 <= i <= es@.len(),
            out@.len() == i,
            forall|j: int|
                0 <= j < i ==> out@[j].0@ == es@[j].0@ && value_model(out@[j].1) == value_model(
                    es@[j].1,
                ),
        decreases es@.len() - i,
    {
        let key = es[i].0.clone();
        let val = es[i].1.clone();
        out.push((key, val));
        i = i + 1;
    }
    proof {
        lemma_entries_model(out@);
        lemma_entries_model(es@);
        assert(entries_model(out@) =~= entries_model(es@));
    }
    out
}

/// Deep copy of a value; the copy has the same model.
fn clone_value(v: &Value) -> (r: Value)
    ensures
        r@ == v@,
    decreases *v,
{
    match v {
        Value::Absent => Value::Absent,
        Value::Null => Value::Null,
        Value::Bool(b) => Value::Bool(*b),
        Value::Number(n) => Value::Number(*n),
        Value::String(s) => Value::String(s.clone()),
        Value::Object(entries) => {
            let mut out: Vec<(String, Value)> = Vec::new();
            let mut i: usize = 0;
            proof {
                lemma_entries_model(entries@);
            }
            while i < entries.len()
                invariant
                    0 <= i <= entries@.len(),
                    *v == Value::Object(*entries),
                    out@.len() == i,
                    forall|j: int|
                        0 <= j < i ==> out@[j].0@ == entries@[j].0@ && value_model(out@[j].1)
                            == value_model(entries@[j].1),
                decreases entries@.len() - i,
            {
                let key = entries[i].0.clone();
                proof {
                    assert(*v == Value::Object(*entries));
                    assert(decreases_to!(*v => (*v)->Object_0));
                    assert((*v)->Object_0 == *entries);
                    assert(decreases_to!(*entries => entries@));
                    assert(decreases_to!(entries@ => entries@[i as int]));
                    assert(decreases_to!(entries@[i as int] => entries@[i as int].1));
                }
                let val = clone_value(&entries[i].1);
                out.push((key, val));
                i = i + 1;
            }
            proof {
                lemma_entries_model(out@);
                assert(entries_model(out@) =~= entries_model(entries@));
            }
            Value::Object(out)
        },
        Value::Array(items) => {
            let mut out: Vec<Value> = Vec::new();
            let mut i: usize = 0;
            proof {
                lemma_items_model(items@);
            }
            while i < items.len()
                invariant
                    0 <= i <= items@.len(),
                    *v == Value::Array(*items),
                    out@.len() == i,
                    forall|j: int|
                        0 <= j < i ==> value_model(out@[j]) == value_model(items@[j]),
                decreases items@.len() - i,
            {
                proof {
                    assert(*v == Value::Array(*items));
                    assert(decreases_to!(*v => (*v)->Array_0));
                    assert((*v)->Array_0 == *items);
                    assert(decreases_to!(*items => items@));
                    assert(decreases_to!(items@ => items@[i as int]));
                }
                let val = clone_value(&items[i]);
                out.push(val);
                i = i + 1;
            }
            proof {
                lemma_items_model(out@);
                assert(items_model(out@) =~= items_model(items@));
            }
            Value::Array(out)
        },
    }
}

impl Clone for Value {
    /// The copy has the same model as the value cloned.
    fn clone(&self) -> (r: Self)
        ensures
            r@ == self@,
    {
        clone_value(self)
    }
}

/// Copy of an optional value; the copy has the same model.
pub fn clone_opt_value(x: &Option<Value>) -> (r: Option<Value>)
    ensures
        r.deep_view() == x.deep_view(),
{
    match x {
        Option::Some(v) => Option::Some(v.clone()),
        Option::None => Option::None,
    }
}

/// Copy of an optional string.
pub fn clone_opt_string(x: &Option<String>) -> (r: Option<String>)
    ensures
        r == *x,
{
    match x {
        Option::Some(s) => Option::Some(s.clone()),
        Option::None => Option::None,
    }
}

} // verus!


verus! {

/// The mathematical shape of an [`OptionsRequest`].
pub ghost struct OptionsRequestView {
    pub log_timestamp: Option<i64>,
    pub log_timestamp_start: Option<i64>,
    pub log_timestamp_end: Option<i64>,
    pub log_level: Option<Seq<char>>,
    pub log_message: Option<Seq<char>>,
    pub log_data: Option<SpecValue>,
    pub log_data_field: Option<Seq<char>>,
    pub log_data_value: Option<Option<SpecValue>>,
    pub log_data_fields: Option<Seq<Seq<char>>>,
    pub log_data_values: Option<Option<SpecValue>>,
    pub log_type: Option<Seq<char>>,
    pub log_source: Option<Seq<char>>,
    pub log_source_id: Option<Seq<char>>,
    pub hog_uuid: Option<Seq<char>>,
    pub hog_limit: Option<i64>,
    pub hog_sort: Option<SortType>,
    pub hog_partial: Option<bool>,
    pub hog_case_sensitive: Option<bool>,
    pub hog_timestamp: Option<i64>,
    pub hog_timestamp_start: Option<i64>,
    pub hog_timestamp_end: Option<i64>,
}

impl View for OptionsRequest {
    type V = OptionsRequestView;

    open spec fn view(&self) -> OptionsRequestView {
        OptionsRequestView {
            log_timestamp: self.log_timestamp,
            log_timestamp_start: self.log_timestamp_start,
            log_timestamp_end: self.log_timestamp_end,
            log_level: self.log_level.deep_view(),
            log_message: self.log_message.deep_view(),
            log_data: self.log_data.deep_view(),
            log_data_field: self.log_data_field.deep_view(),
            log_data_value: self.log_data_value.deep_view(),
            log_data_fields: self.log_data_fields.deep_view(),
            log_data_values: self.log_data_values.deep_view(),
            log_type: self.log_type.deep_view(),
            log_source: self.log_source.deep_view(),
            log_source_id: self.log_source_id.deep_view(),
            hog_uuid: self.hog_uuid.deep_view(),
            hog_limit: self.hog_limit,
            hog_sort: self.hog_sort,
            hog_partial: self.hog_partial,
            hog_case_sensitive: self.hog_case_sensitive,
            hog_timestamp: self.hog_timestamp,
            hog_timestamp_start: self.hog_timestamp_start,
            hog_timestamp_end: self.hog_timestamp_end,
        }
    }
}

/// The findings as pairs of field name and message text.
pub open spec fn findings_view(es: Seq<ApiErrorSchema>) -> Seq<(Seq<char>, Seq<char>)> {
    es.map_values(|e: ApiErrorSchema| (e.field@, e.message@))
}

/// One finding when the string field `key` is present but blank.
pub open spec fn blank_finding(req: SpecValue, key: Seq<char>, message: Seq<char>) -> Seq<
    (Seq<char>, Seq<char>),
> {
    match str_field(req, key) {
        Option::Some(s) => if spec_is_blank(s) {
            seq![(key, message)]
        } else {
            Seq::empty()
        },
        Option::None => Seq::empty(),
    }
}

/// One finding when the timestamp field `key` parses to an instant
/// before the epoch.
pub open spec fn epoch_finding(req: SpecValue, key: Seq<char>, message: Seq<char>) -> Seq<
    (Seq<char>, Seq<char>),
> {
    match ts_field(req, key) {
        Option::Some(ms) => if ms < 0 {
            seq![(key, message)]
        } else {
            Seq::empty()
        },
        Option::None => Seq::empty(),
    }
}

/// The sort direction named by the `hog_sort` field, when it names one.
pub open spec fn sort_field(req: SpecValue) -> Option<SortType> {
    match str_field(req, "hog_sort"@) {
        Option::Some(s) => if s == "ascending"@ {
            Option::Some(SortType::Ascending)
        } else if s == "descending"@ {
            Option::Some(SortType::Descending)
        } else {
            Option::None
        },
        Option::None => Option::None,
    }
}

/// The findings that option validation reports for a request, in
/// report order.
pub open spec fn options_findings(req: SpecValue) -> Seq<(Seq<char>, Seq<char>)> {
    blank_finding(req, "log_level"@, "log_level cannot be empty"@) + blank_finding(
        req,
        "log_message"@,
        "log_message cannot be empty"@,
    ) + (match spec_get(req, "log_data_values"@) {
        Option::Some(v) => if !(v is Object) {
            seq![("log_data"@, "log_data must be a valid JSON object"@)]
        } else {
            Seq::empty()
        },
        Option::None => Seq::empty(),
    }) + blank_finding(req, "log_type"@, "log_type cannot be empty"@) + blank_finding(
        req,
        "log_source"@,
        "log_source cannot be empty"@,
    ) + blank_finding(req, "log_source_id"@, "log_source_id cannot be empty"@) + epoch_finding(
        req,
        "log_timestamp"@,
        "log_timestamp cannot be before epoch"@,
    ) + epoch_finding(req, "log_timestamp_start"@, "log_timestamp_start cannot be before epoch"@)
        + epoch_finding(req, "log_timestamp_end"@, "log_timestamp_end cannot be before epoch"@)
        + blank_finding(req, "hog_uuid"@, "hog_uuid cannot be empty"@) + (match i64_field(
        req,
        "hog_limit"@,
    ) {
        Option::Some(l) => if l <= 0 {
            seq![("hog_limit"@, "hog_limit must be greater than zero"@)]
        } else {
            Seq::empty()
        },
        Option::None => Seq::empty(),
    }) + (match bool_field(req, "hog_partial"@) {
        Option::Some(b) => if !b {
            seq![("hog_partial"@, "hog_partial must be true for this operation"@)]
        } else {
            Seq::empty()
        },
        Option::None => Seq::empty(),
    }) + (match bool_field(req, "hog_case_sensitive"@) {
        Option::Some(b) => if !b {
            seq![("hog_case_sensitive"@, "hog_case_sensitive must be true for this operation"@)]
        } else {
            Seq::empty()
        },
        Option::None => Seq::empty(),
    }) + (match str_field(req, "hog_sort"@) {
        Option::Some(s) => if s != "ascending"@ && s != "descending"@ {
            seq![("hog_sort"@, "hog_sort must be 'ascending' or 'descending'"@)]
        } else {
            Seq::empty()
        },
        Option::None => Seq::empty(),
    }) + blank_finding(req, "hog_sort_field"@, "hog_sort_field cannot be empty"@) + (
    match str_array_field(req, "hog_fields"@) {
        Option::Some(fs) => if fs.len() == 0 {
            seq![("hog_fields"@, "hog_fields cannot be empty"@)]
        } else {
            Seq::empty()
        },
        Option::None => Seq::empty(),
    }) + epoch_finding(req, "hog_timestamp"@, "hog_timestamp cannot be before epoch"@)
        + epoch_finding(req, "hog_timestamp_start"@, "hog_timestamp_start cannot be before epoch"@)
        + epoch_finding(req, "hog_timestamp_end"@, "hog_timestamp_end cannot be before epoch"@) + (
    match object_field(req, "log_data"@) {
        Option::Some(es) => if es.len() == 0 {
            seq![("log_data"@, "log_data cannot be empty"@)]
        } else {
            Seq::empty()
        },
        Option::None => Seq::empty(),
    }) + blank_finding(req, "log_data_field"@, "log_data_field cannot be empty"@) + (
    match object_field(req, "log_data_value"@) {
        Option::Some(es) => if es.len() == 0 {
            seq![("log_data_value"@, "log_data_value cannot be empty"@)]
        } else {
            Seq::empty()
        },
        Option::None => Seq::empty(),
    }) + (match str_array_field(req, "log_data_fields"@) {
        Option::Some(fs) => if fs.len() == 0 {
            seq![("log_data_fields"@, "log_data_fields cannot be empty"@)]
        } else {
            Seq::empty()
        },
        Option::None => Seq::empty(),
    })
}

} // verus!

verus! {

/// Appends one finding exactly when `cond` holds.
fn push_finding_if(errors: &mut Vec<ApiErrorSchema>, cond: bool, key: &str, message: &str)
    ensures
        findings_view(final(errors)@) == findings_view(old(errors)@) + (if cond {
            seq![(key@, message@)]
        } else {
            Seq::empty()
        }),
{
    if cond {
        errors.push(ApiErrorSchema { field: key.to_owned(), message: message.to_owned() });
    }
    proof {
        assert(findings_view(errors@) =~= findings_view(old(errors)@) + (if cond {
            seq![(key@, message@)]
        } else {
            Seq::<(Seq<char>, Seq<char>)>::empty()
        }));
    }
}

/// Collects the findings on the free-text fields and the structured
/// values map, in report order.
fn collect_text_findings(req: &Value, errors: &mut Vec<ApiErrorSchema>)
    ensures
        findings_view(final(errors)@) == findings_view(old(errors)@) + blank_finding(
            req@,
            "log_level"@,
            "log_level cannot be empty"@,
        ) + blank_finding(req@, "log_message"@, "log_message cannot be empty"@) + (match spec_get(
            req@,
            "log_data_values"@,
        ) {
            Option::Some(v) => if !(v is Object) {
                seq![("log_data"@, "log_data must be a valid JSON object"@)]
            } else {
                Seq::empty()
            },
            Option::None => Seq::empty(),
        }) + blank_finding(req@, "log_type"@, "log_type cannot be empty"@) + blank_finding(
            req@,
            "log_source"@,
            "log_source cannot be empty"@,
        ) + blank_finding(req@, "log_source_id"@, "log_source_id cannot be empty"@),
{
    let log_level = req.get_str_field("log_level");
    let c1 = match &log_level {
        Some(lvl) => is_blank(lvl.as_str()),
        None => false,
    };
    let ghost s1 = blank_finding(req@, "log_level"@, "log_level cannot be empty"@);
    proof {
        assert(s1 == if c1 { seq![("log_level"@, "log_level cannot be empty"@)] } else { Seq::empty() });
        assert(Seq::<(Seq<char>, Seq<char>)>::empty() + s1 =~= s1);
    }
    push_finding_if(errors, c1, "log_level", "log_level cannot be empty");

    let log_message = req.get_str_field("log_message");
    let c2 = match &log_message {
        Some(msg) => is_blank(msg.as_str()),
        None => false,
    };
    let ghost s2 = blank_finding(req@, "log_message"@, "log_message cannot be empty"@);
    proof {
        assert(s2 == if c2 { seq![("log_message"@, "log_message cannot be empty"@)] } else { Seq::empty() });
    }
    push_finding_if(errors, c2, "log_message", "log_message cannot be empty");

    let log_data_values = req.get_field_cloned("log_data_values");
    let c3 = match &log_data_values {
        Some(v) => !v.is_object(),
        None => false,
    };
    let ghost s3 = (match spec_get(req@, "log_data_values"@) {
        Option::Some(v) => if !(v is Object) {
            seq![("log_data"@, "log_data must be a valid JSON object"@)]
        } else {
            Seq::<(Seq<char>, Seq<char>)>::empty()
        },
        Option::None => Seq::<(Seq<char>, Seq<char>)>::empty(),
    });
    proof {
        assert(s3 == if c3 { seq![("log_data"@, "log_data must be a valid JSON object"@)] } else { Seq::empty() });
    }
    push_finding_if(errors, c3, "log_data", "log_data must be a valid JSON object");

    let log_type = req.get_str_field("log_type");
    let c4 = match &log_type {
        Some(t) => is_blank(t.as_str()),
        None => false,
    };
    let ghost s4 = blank_finding(req@, "log_type"@, "log_type cannot be empty"@);
    proof {
        assert(s4 == if c4 { seq![("log_type"@, "log_type cannot be empty"@)] } else { Seq::empty() });
    }
    push_finding_if(errors, c4, "log_type", "log_type cannot be empty");

    let log_source = req.get_str_field("log_source");
    let c5 = match &log_source {
        Some(src) => is_blank(src.as_str()),
        None => false,
    };
    let ghost s5 = blank_finding(req@, "log_source"@, "log_source cannot be empty"@);
    proof {
        assert(s5 == if c5 { seq![("log_source"@, "log_source cannot be empty"@)] } else { Seq::empty() });
    }
    push_finding_if(errors, c5, "log_source", "log_source cannot be empty");

    let log_source_id = req.get_str_field("log_source_id");
    let c6 = match &log_source_id {
        Some(src_id) => is_blank(src_id.as_str()),
        None => false,
    };
    let ghost s6 = blank_finding(req@, "log_source_id"@, "log_source_id cannot be empty"@);
    proof {
        assert(s6 == if c6 { seq![("log_source_id"@, "log_source_id cannot be empty"@)] } else { Seq::empty() });
    }
    push_finding_if(errors, c6, "log_source_id", "log_source_id cannot be empty");

}

/// Collects the findings on the log timestamps and the numeric and
/// boolean knobs, in report order.
fn collect_limit_findings(req: &Value, errors: &mut Vec<ApiErrorSchema>)
    ensures
        findings_view(final(errors)@) == findings_view(old(errors)@) + epoch_finding(
            req@,
            "log_timestamp"@,
            "log_timestamp cannot be before epoch"@,
        ) + epoch_finding(req@, "log_timestamp_start"@, "log_timestamp_start cannot be before epoch"@)
            + epoch_finding(req@, "log_timestamp_end"@, "log_timestamp_end cannot be before epoch"@)
            + blank_finding(req@, "hog_uuid"@, "hog_uuid cannot be empty"@) + (match i64_field(
            req@,
            "hog_limit"@,
        ) {
            Option::Some(l) => if l <= 0 {
                seq![("hog_limit"@, "hog_limit must be greater than zero"@)]
            } else {
                Seq::empty()
            },
            Option::None => Seq::empty(),
        }) + (match bool_field(req@, "hog_partial"@) {
            Option::Some(b) => if !b {
                seq![("hog_partial"@, "hog_partial must be true for this operation"@)]
            } else {
                Seq::empty()
            },
            Option::None => Seq::empty(),
        }) + (match bool_field(req@, "hog_case_sensitive"@) {
            Option::Some(b) => if !b {
                seq![("hog_case_sensitive"@, "hog_case_sensitive must be true for this operation"@)]
            } else {
                Seq::empty()
            },
            Option::None => Seq::empty(),
        }),
{
    let log_timestamp = req.get_timestamp_field("log_timestamp");
    let c7 = match &log_timestamp {
        Some(ts) => *ts < 0,
        None => false,
    };
    let ghost s7 = epoch_finding(req@, "log_timestamp"@, "log_timestamp cannot be before epoch"@);
    proof {
        assert(s7 == if c7 { seq![("log_timestamp"@, "log_timestamp cannot be before epoch"@)] } else { Seq::empty() });
    }
    push_finding_if(errors, c7, "log_timestamp", "log_timestamp cannot be before epoch");

    let log_timestamp_start = req.get_timestamp_field("log_timestamp_start");
    let c8 = match &log_timestamp_start {
        Some(ts) => *ts < 0,
        None => false,
    };
    let ghost s8 = epoch_finding(req@, "log_timestamp_start"@, "log_timestamp_start cannot be before epoch"@);
    proof {
        assert(s8 == if c8 { seq![("log_timestamp_start"@, "log_timestamp_start cannot be before epoch"@)] } else { Seq::empty() });
    }
    push_finding_if(errors, c8, "log_timestamp_start", "log_timestamp_start cannot be before epoch");

    let log_timestamp_end = req.get_timestamp_field("log_timestamp_end");
    let c9 = match &log_timestamp_end {
        Some(ts) => *ts < 0,
        None => false,
    };
    let ghost s9 = epoch_finding(req@, "log_timestamp_end"@, "log_timestamp_end cannot be before epoch"@);
    proof {
        assert(s9 == if c9 { seq![("log_timestamp_end"@, "log_timestamp_end cannot be before epoch"@)] } else { Seq::empty() });
    }
    push_finding_if(errors, c9, "log_timestamp_end", "log_timestamp_end cannot be before epoch");

    let hog_uuid = req.get_str_field("hog_uuid");
    let c10 = match &hog_uuid {
        Some(u) => is_blank(u.as_str()),
        None => false,
    };
    let ghost s10 = blank_finding(req@, "hog_uuid"@, "hog_uuid cannot be empty"@);
    proof {
        assert(s10 == if c10 { seq![("hog_uuid"@, "hog_uuid cannot be empty"@)] } else { Seq::empty() });
    }
    push_finding_if(errors, c10, "hog_uuid", "hog_uuid cannot be empty");

    let hog_limit = req.get_i64_field("hog_limit");
    let c11 = match &hog_limit {
        Some(limit) => *limit <= 0,
        None => false,
    };
    let ghost s11 = (match i64_field(req@, "hog_limit"@) {
        Option::Some(l) => if l <= 0 {
            seq![("hog_limit"@, "hog_limit must be greater than zero"@)]
        } else {
            Seq::<(Seq<char>, Seq<char>)>::empty()
        },
        Option::None => Seq::<(Seq<char>, Seq<char>)>::empty(),
    });
    proof {
        assert(s11 == if c11 { seq![("hog_limit"@, "hog_limit must be greater than zero"@)] } else { Seq::empty() });
    }
    push_finding_if(errors, c11, "hog_limit", "hog_limit must be greater than zero");

    let hog_partial = req.get_bool_field("hog_partial");
    let c12 = match &hog_partial {
        Some(partial) => !*partial,
        None => false,
    };
    let ghost s12 = (match bool_field(req@, "hog_partial"@) {
        Option::Some(b) => if !b {
            seq![("hog_partial"@, "hog_partial must be true for this operation"@)]
        } else {
            Seq::<(Seq<char>, Seq<char>)>::empty()
        },
        Option::None => Seq::<(Seq<char>, Seq<char>)>::empty(),
    });
    proof {
        assert(s12 == if c12 { seq![("hog_partial"@, "hog_partial must be true for this operation"@)] } else { Seq::empty() });
    }
    push_finding_if(errors, c12, "hog_partial", "hog_partial must be true for this operation");

    let hog_case_sensitive = req.get_bool_field("hog_case_sensitive");
    let c13 = match &hog_case_sensitive {
        Some(case_sensitive) => !*case_sensitive,
        None => false,
    };
    let ghost s13 = (match bool_field(req@, "hog_case_sensitive"@) {
        Option::Some(b) => if !b {
            seq![("hog_case_sensitive"@, "hog_case_sensitive must be true for this operation"@)]
        } else {
            Seq::<(Seq<char>, Seq<char>)>::empty()
        },
        Option::None => Seq::<(Seq<char>, Seq<char>)>::empty(),
    });
    proof {
        assert(s13 == if c13 { seq![("hog_case_sensitive"@, "hog_case_sensitive must be true for this operation"@)] } else { Seq::empty() });
    }
    push_finding_if(errors, c13, "hog_case_sensitive", "hog_case_sensitive must be true for this operation");

}

/// Collects the findings on the sort and projection fields and the
/// record timestamps, in report order.
fn collect_sort_findings(req: &Value, errors: &mut Vec<ApiErrorSchema>)
    ensures
        findings_view(final(errors)@) == findings_view(old(errors)@) + (match str_field(
            req@,
            "hog_sort"@,
        ) {
            Option::Some(st) => if st != "ascending"@ && st != "descending"@ {
                seq![("hog_sort"@, "hog_sort must be 'ascending' or 'descending'"@)]
            } else {
                Seq::empty()
            },
            Option::None => Seq::empty(),
        }) + blank_finding(req@, "hog_sort_field"@, "hog_sort_field cannot be empty"@) + (
        match str_array_field(req@, "hog_fields"@) {
            Option::Some(fs) => if fs.len() == 0 {
                seq![("hog_fields"@, "hog_fields cannot be empty"@)]
            } else {
                Seq::empty()
            },
            Option::None => Seq::empty(),
        }) + epoch_finding(req@, "hog_timestamp"@, "hog_timestamp cannot be before epoch"@)
            + epoch_finding(req@, "hog_timestamp_start"@, "hog_timestamp_start cannot be before epoch"@)
            + epoch_finding(req@, "hog_timestamp_end"@, "hog_timestamp_end cannot be before epoch"@),
{
    let hog_sort_text = req.get_str_field("hog_sort");
    let c14 = match &hog_sort_text {
        Some(st) => !str_eq(st.as_str(), "ascending") && !str_eq(st.as_str(), "descending"),
        None => false,
    };
    let ghost s14 = (match str_field(req@, "hog_sort"@) {
        Option::Some(st) => if st != "ascending"@ && st != "descending"@ {
            seq![("hog_sort"@, "hog_sort must be 'ascending' or 'descending'"@)]
        } else {
            Seq::<(Seq<char>, Seq<char>)>::empty()
        },
        Option::None => Seq::<(Seq<char>, Seq<char>)>::empty(),
    });
    proof {
        assert(s14 == if c14 { seq![("hog_sort"@, "hog_sort must be 'ascending' or 'descending'"@)] } else { Seq::empty() });
    }
    push_finding_if(errors, c14, "hog_sort", "hog_sort must be 'ascending' or 'descending'");

    let hog_sort_field = req.get_str_field("hog_sort_field");
    let c15 = match &hog_sort_field {
        Some(sf) => is_blank(sf.as_str()),
        None => false,
    };
    let ghost s15 = blank_finding(req@, "hog_sort_field"@, "hog_sort_field cannot be empty"@);
    proof {
        assert(s15 == if c15 { seq![("hog_sort_field"@, "hog_sort_field cannot be empty"@)] } else { Seq::empty() });
    }
    push_finding_if(errors, c15, "hog_sort_field", "hog_sort_field cannot be empty");

    let hog_fields = req.get_str_list_field("hog_fields");
    let c16 = match &hog_fields {
        Some(fields) => fields.len() == 0,
        None => false,
    };
    let ghost s16 = (match str_array_field(req@, "hog_fields"@) {
        Option::Some(fs) => if fs.len() == 0 {
            seq![("hog_fields"@, "hog_fields cannot be empty"@)]
        } else {
            Seq::<(Seq<char>, Seq<char>)>::empty()
        },
        Option::None => Seq::<(Seq<char>, Seq<char>)>::empty(),
    });
    proof {
        assert(s16 == if c16 { seq![("hog_fields"@, "hog_fields cannot be empty"@)] } else { Seq::empty() });
    }
    push_finding_if(errors, c16, "hog_fields", "hog_fields cannot be empty");

    let hog_timestamp = req.get_timestamp_field("hog_timestamp");
    let c17 = match &hog_timestamp {
        Some(ts) => *ts < 0,
        None => false,
    };
    let ghost s17 = epoch_finding(req@, "hog_timestamp"@, "hog_timestamp cannot be before epoch"@);
    proof {
        assert(s17 == if c17 { seq![("hog_timestamp"@, "hog_timestamp cannot be before epoch"@)] } else { Seq::empty() });
    }
    push_finding_if(errors, c17, "hog_timestamp", "hog_timestamp cannot be before epoch");

    let hog_timestamp_start = req.get_timestamp_field("hog_timestamp_start");
    let c18 = match &hog_timestamp_start {
        Some(ts) => *ts < 0,
        None => false,
    };
    let ghost s18 = epoch_finding(req@, "hog_timestamp_start"@, "hog_timestamp_start cannot be before epoch"@);
    proof {
        assert(s18 == if c18 { seq![("hog_timestamp_start"@, "hog_timestamp_start cannot be before epoch"@)] } else { Seq::empty() });
    }
    push_finding_if(errors, c18, "hog_timestamp_start", "hog_timestamp_start cannot be before epoch");

    let hog_timestamp_end = req.get_timestamp_field("hog_timestamp_end");
    let c19 = match &hog_timestamp_end {
        Some(ts) => *ts < 0,
        None => false,
    };
    let ghost s19 = epoch_finding(req@, "hog_timestamp_end"@, "hog_timestamp_end cannot be before epoch"@);
    proof {
        assert(s19 == if c19 { seq![("hog_timestamp_end"@, "hog_timestamp_end cannot be before epoch"@)] } else { Seq::empty() });
    }
    push_finding_if(errors, c19, "hog_timestamp_end", "hog_timestamp_end cannot be before epoch");

}

/// Collects the findings on the structured-data fields, in report
/// order.
fn collect_data_findings(req: &Value, errors: &mut Vec<ApiErrorSchema>)
    ensures
        findings_view(final(errors)@) == findings_view(old(errors)@) + (match object_field(
            req@,
            "log_data"@,
        ) {
            Option::Some(es) => if es.len() == 0 {
                seq![("log_data"@, "log_data cannot be empty"@)]
            } else {
                Seq::empty()
            },
            Option::None => Seq::empty(),
        }) + blank_finding(req@, "log_data_field"@, "log_data_field cannot be empty"@) + (
        match object_field(req@, "log_data_value"@) {
            Option::Some(es) => if es.len() == 0 {
                seq![("log_data_value"@, "log_data_value cannot be empty"@)]
            } else {
                Seq::empty()
            },
            Option::None => Seq::empty(),
        }) + (match str_array_field(req@, "log_data_fields"@) {
            Option::Some(fs) => if fs.len() == 0 {
                seq![("log_data_fields"@, "log_data_fields cannot be empty"@)]
            } else {
                Seq::empty()
            },
            Option::None => Seq::empty(),
        }),
{
    let log_data = req.get_object_field("log_data");
    let c20 = match &log_data {
        Some(data) => data.len() == 0,
        None => false,
    };
    let ghost s20 = (match object_field(req@, "log_data"@) {
        Option::Some(es) => if es.len() == 0 {
            seq![("log_data"@, "log_data cannot be empty"@)]
        } else {
            Seq::<(Seq<char>, Seq<char>)>::empty()
        },
        Option::None => Seq::<(Seq<char>, Seq<char>)>::empty(),
    });
    proof {
        if log_data is Some {
            lemma_entries_model(log_data->Some_0@);
        }
        assert(s20 == if c20 { seq![("log_data"@, "log_data cannot be empty"@)] } else { Seq::empty() });
    }
    push_finding_if(errors, c20, "log_data", "log_data cannot be empty");

    let log_data_field = req.get_str_field("log_data_field");
    let c21 = match &log_data_field {
        Some(field) => is_blank(field.as_str()),
        None => false,
    };
    let ghost s21 = blank_finding(req@, "log_data_field"@, "log_data_field cannot be empty"@);
    proof {
        assert(s21 == if c21 { seq![("log_data_field"@, "log_data_field cannot be empty"@)] } else { Seq::empty() });
    }
    push_finding_if(errors, c21, "log_data_field", "log_data_field cannot be empty");

    let log_data_value = req.get_object_field("log_data_value");
    let c22 = match &log_data_value {
        Some(value) => value.len() == 0,
        None => false,
    };
    let ghost s22 = (match object_field(req@, "log_data_value"@) {
        Option::Some(es) => if es.len() == 0 {
            seq![("log_data_value"@, "log_data_value cannot be empty"@)]
        } else {
            Seq::<(Seq<char>, Seq<char>)>::empty()
        },
        Option::None => Seq::<(Seq<char>, Seq<char>)>::empty(),
    });
    proof {
        if log_data_value is Some {
            lemma_entries_model(log_data_value->Some_0@);
        }
        assert(s22 == if c22 { seq![("log_data_value"@, "log_data_value cannot be empty"@)] } else { Seq::empty() });
    }
    push_finding_if(errors, c22, "log_data_value", "log_data_value cannot be empty");

    let log_data_fields = req.get_str_list_field("log_data_fields");
    let c23 = match &log_data_fields {
        Some(fields) => fields.len() == 0,
        None => false,
    };
    let ghost s23 = (match str_array_field(req@, "log_data_fields"@) {
        Option::Some(fs) => if fs.len() == 0 {
            seq![("log_data_fields"@, "log_data_fields cannot be empty"@)]
        } else {
            Seq::<(Seq<char>, Seq<char>)>::empty()
        },
        Option::None => Seq::<(Seq<char>, Seq<char>)>::empty(),
    });
    proof {
        assert(s23 == if c23 { seq![("log_data_fields"@, "log_data_fields cannot be empty"@)] } else { Seq::empty() });
    }
    push_finding_if(errors, c23, "log_data_fields", "log_data_fields cannot be empty");

}

/// Walks the request field by field and collects the findings, in
/// report order.
fn collect_options_findings(req: &Value) -> (errors: Vec<ApiErrorSchema>)
    ensures
        findings_view(errors@) == options_findings(req@),
{
    let mut errors: Vec<ApiErrorSchema> = Vec::new();
    proof {
        assert(findings_view(errors@) =~= Seq::<(Seq<char>, Seq<char>)>::empty());
        assert(Seq::<(Seq<char>, Seq<char>)>::empty() + blank_finding(
            req@,
            "log_level"@,
            "log_level cannot be empty"@,
        ) =~= blank_finding(req@, "log_level"@, "log_level cannot be empty"@));
    }
    collect_text_findings(req, &mut errors);
    collect_limit_findings(req, &mut errors);
    collect_sort_findings(req, &mut errors);
    collect_data_findings(req, &mut errors);
    proof {
        assert(findings_view(errors@) == options_findings(req@));
    }
    errors
}

/// Validates one search request. The request is accepted exactly when
/// validation reports no finding; the accepted options carry each
/// field's extracted value.
#[verifier::rlimit(100)]
pub fn validate_options(req: &Value) -> (r: Result<OptionsRequest, ErrorResponse>)
    ensures
        r is Ok <==> options_findings(req@).len() == 0,
        r matches Err(resp) ==> resp.status_code == 400 && resp.message@
            == "Validation errors occurred"@ && findings_view(resp.errors@) == options_findings(
            req@,
        ),
        r matches Ok(o) ==> {
            &&& o@.log_level == str_field(req@, "log_level"@)
            &&& o@.log_message == str_field(req@, "log_message"@)
            &&& o@.log_data_values == (match spec_get(req@, "log_data_values"@) {
                Option::Some(v) => Option::Some(Option::Some(v)),
                Option::None => Option::None,
            })
            &&& o@.log_type == str_field(req@, "log_type"@)
            &&& o@.log_source == str_field(req@, "log_source"@)
            &&& o@.log_source_id == str_field(req@, "log_source_id"@)
            &&& o@.log_timestamp == ts_field(req@, "log_timestamp"@)
            &&& o@.log_timestamp_start == ts_field(req@, "log_timestamp_start"@)
            &&& o@.log_timestamp_end == ts_field(req@, "log_timestamp_end"@)
            &&& o@.log_data == (match object_field(req@, "log_data"@) {
                Option::Some(es) => Option::Some(SpecValue::Object(es)),
                Option::None => Option::None,
            })
            &&& o@.log_data_field == str_field(req@, "log_data_field"@)
            &&& o@.log_data_value == (match object_field(req@, "log_data_value"@) {
                Option::Some(es) => Option::Some(Option::Some(SpecValue::Object(es))),
                Option::None => Option::None,
            })
            &&& o@.log_data_fields == str_array_field(req@, "log_data_fields"@)
            &&& o@.hog_uuid == str_field(req@, "hog_uuid"@)
            &&& o@.hog_limit == i64_field(req@, "hog_limit"@)
            &&& o@.hog_partial == bool_field(req@, "hog_partial"@)
            &&& o@.hog_sort == sort_field(req@)
            &&& o@.hog_case_sensitive == bool_field(req@, "hog_case_sensitive"@)
            &&& o@.hog_timestamp == ts_field(req@, "hog_timestamp"@)
            &&& o@.hog_timestamp_start == ts_field(req@, "hog_timestamp_start"@)
            &&& o@.hog_timestamp_end == ts_field(req@, "hog_timestamp_end"@)
        },
{
    let errors = collect_options_findings(req);
    if errors.len() > 0 {
        return Err(
            ErrorResponse {
                status_code: 400,
                message: "Validation errors occurred".to_owned(),
                errors,
            },
        );
    }

    let hog_sort = match req.get_str_field("hog_sort") {
        Some(s) => {
            if str_eq(s.as_str(), "ascending") {
                Some(SortType::Ascending)
            } else if str_eq(s.as_str(), "descending") {
                Some(SortType::Descending)
            } else {
                None
            }
        },
        None => None,
    };

    let options = OptionsRequest {
        log_level: req.get_str_field("log_level"),
        log_message: req.get_str_field("log_message"),
        log_data_values: match req.get_field_cloned("log_data_values") {
            Some(v) => Some(Some(v)),
            None => None,
        },
        log_type: req.get_str_field("log_type"),
        log_source: req.get_str_field("log_source"),
        log_source_id: req.get_str_field("log_source_id"),
        log_timestamp: req.get_timestamp_field("log_timestamp"),
        log_timestamp_start: req.get_timestamp_field("log_timestamp_start"),
        log_timestamp_end: req.get_timestamp_field("log_timestamp_end"),
        log_data: match req.get_object_field("log_data") {
            Some(es) => Some(Value::Object(es)),
            None => None,
        },
        log_data_field: req.get_str_field("log_data_field"),
        log_data_value: match req.get_object_field("log_data_value") {
            Some(es) => Some(Some(Value::Object(es))),
            None => None,
        },
        log_data_fields: req.get_str_list_field("log_data_fields"),
        hog_uuid: req.get_str_field("hog_uuid"),
        hog_limit: req.get_i64_field("hog_limit"),
        hog_partial: req.get_bool_field("hog_partial"),
        hog_sort,
        hog_case_sensitive: req.get_bool_field("hog_case_sensitive"),
        hog_timestamp: req.get_timestamp_field("hog_timestamp"),
        hog_timestamp_start: req.get_timestamp_field("hog_timestamp_start"),
        hog_timestamp_end: req.get_timestamp_field("hog_timestamp_end"),
    };

    Ok(options)
}

} // verus!

verus! {

/// One condition of a store filter.
#[derive(Debug)]
pub enum FilterCond {
    /// Exact text match.
    Text(String),
    /// Case-insensitive pattern match.
    CaseInsensitivePattern(String),
    /// Exact match against a JSON value.
    Json(Value),
    /// Exact match against a point timestamp, in milliseconds.
    Timestamp(i64),
    /// A closed or half-open timestamp range, in milliseconds.
    TimestampRange { gte: Option<i64>, lte: Option<i64> },
    /// Presence (or absence) of the field.
    Exists(bool),
}

/// The mathematical shape of a [`FilterCond`].
pub ghost enum SpecCond {
    Text(Seq<char>),
    CaseInsensitivePattern(Seq<char>),
    Json(SpecValue),
    Timestamp(i64),
    TimestampRange { gte: Option<i64>, lte: Option<i64> },
    Exists(bool),
}

/// The model of a [`FilterCond`].
pub open spec fn cond_model(c: FilterCond) -> SpecCond {
    match c {
        FilterCond::Text(s) => SpecCond::Text(s@),
        FilterCond::CaseInsensitivePattern(s) => SpecCond::CaseInsensitivePattern(s@),
        FilterCond::Json(v) => SpecCond::Json(value_model(v)),
        FilterCond::Timestamp(ms) => SpecCond::Timestamp(ms),
        FilterCond::TimestampRange { gte, lte } => SpecCond::TimestampRange { gte, lte },
        FilterCond::Exists(b) => SpecCond::Exists(b),
    }
}

impl View for FilterCond {
    type V = SpecCond;

    open spec fn view(&self) -> SpecCond {
        cond_model(*self)
    }
}

/// The model of a filter's condition list.
pub open spec fn cond_entries_model(es: Seq<(String, FilterCond)>) -> Seq<(Seq<char>, SpecCond)>
    decreases es,
{
    if es.len() == 0 {
        Seq::empty()
    } else {
        seq![(es[0].0@, cond_model(es[0].1))] + cond_entries_model(es.drop_first())
    }
}

/// The model of a condition list is pointwise the model of its entries.
pub proof fn lemma_cond_entries_model(es: Seq<(String, FilterCond)>)
    ensures
        cond_entries_model(es).len() == es.len(),
        forall|i: int|
            0 <= i < es.len() ==> cond_entries_model(es)[i] == (es[i].0@, cond_model(es[i].1)),
    decreases es,
{
    if es.len() > 0 {
        lemma_cond_entries_model(es.drop_first());
    }
}

/// Binding `key` to `cond` in a document: an existing entry is
/// replaced in place, a new key is appended at the end, as the store's
/// document type does it.
pub open spec fn spec_insert(
    doc: Seq<(Seq<char>, SpecCond)>,
    key: Seq<char>,
    cond: SpecCond,
) -> Seq<(Seq<char>, SpecCond)>
    decreases doc,
{
    if doc.len() == 0 {
        seq![(key, cond)]
    } else if doc[0].0 == key {
        seq![(key, cond)] + doc.drop_first()
    } else {
        seq![doc[0]] + spec_insert(doc.drop_first(), key, cond)
    }
}

/// Insertion passes over a prefix that does not hold the key.
proof fn lemma_spec_insert_skip(doc: Seq<(Seq<char>, SpecCond)>, key: Seq<char>, cond: SpecCond, i: int)
    requires
        0 <= i <= doc.len(),
        forall|j: int| 0 <= j < i ==> doc[j].0 != key,
    ensures
        spec_insert(doc, key, cond) == doc.take(i) + spec_insert(doc.skip(i), key, cond),
    decreases i,
{
    if i == 0 {
        assert(doc.take(0) =~= Seq::empty());
        assert(doc.skip(0) =~= doc);
        assert(doc.take(0) + spec_insert(doc, key, cond) =~= spec_insert(doc, key, cond));
    } else {
        lemma_spec_insert_skip(doc, key, cond, i - 1);
        assert(doc.skip(i - 1)[0] == doc[i - 1]);
        assert(doc.skip(i - 1).drop_first() =~= doc.skip(i));
        assert(doc.take(i - 1) + (seq![doc[i - 1]] + spec_insert(doc.skip(i), key, cond)) =~= doc.take(
            i,
        ) + spec_insert(doc.skip(i), key, cond));
    }
}

/// An ordered document of filter conditions, keyed by field path.
#[derive(Debug)]
pub struct FilterDoc {
    entries: Vec<(String, FilterCond)>,
}

impl View for FilterDoc {
    type V = Seq<(Seq<char>, SpecCond)>;

    closed spec fn view(&self) -> Seq<(Seq<char>, SpecCond)> {
        cond_entries_model(self.entries@)
    }
}

impl FilterDoc {
    pub fn new() -> (r: Self)
        ensures
            r@ == Seq::<(Seq<char>, SpecCond)>::empty(),
    {
        let r = FilterDoc { entries: Vec::new() };
        proof {
            assert(r@ =~= Seq::<(Seq<char>, SpecCond)>::empty());
        }
        r
    }

    pub fn len(&self) -> (n: usize)
        ensures
            n == self@.len(),
    {
        proof {
            lemma_cond_entries_model(self.entries@);
        }
        self.entries.len()
    }

    pub fn is_empty(&self) -> (r: bool)
        ensures
            r == (self@.len() == 0),
    {
        self.len() == 0
    }

    /// The conditions, in document order.
    pub fn entries(&self) -> (r: &Vec<(String, FilterCond)>)
        ensures
            cond_entries_model(r@) == self@,
            r@.len() == self@.len(),
    {
        proof {
            lemma_cond_entries_model(self.entries@);
        }
        &self.entries
    }

    /// Binds `key` to `cond`: replaces the value of an existing key in
    /// place, appends a new key at the end.
    pub fn insert(&mut self, key: String, cond: FilterCond)
        ensures
            final(self)@ == spec_insert(old(self)@, key@, cond@),
    {
        let ghost gkey = key@;
        let ghost gcond = cond_model(cond);
        let ghost m = cond_entries_model(self.entries@);
        proof {
            lemma_cond_entries_model(self.entries@);
        }
        let mut i: usize = 0;
        while i < self.entries.len()
            invariant
                0 <= i <= self.entries@.len(),
                m == cond_entries_model(self.entries@),
                m.len() == self.entries@.len(),
                forall|j: int|
                    0 <= j < self.entries@.len() ==> m[j] == (
                    self.entries@[j].0@,
                    cond_model(self.entries@[j].1),
                    ),
                forall|j: int| 0 <= j < i ==> m[j].0 != gkey,
                self == old(self),
                gkey == key@,
                gcond == cond_model(cond),
            decreases self.entries@.len() - i,
        {
            if str_eq(self.entries[i].0.as_str(), key.as_str()) {
                proof {
                    lemma_spec_insert_skip(m, gkey, gcond, i as int);
                    assert(m.skip(i as int)[0] == m[i as int]);
                    assert(m.skip(i as int).drop_first() =~= m.skip(i + 1));
                }
                self.entries.set(i, (key, cond));
                proof {
                    lemma_cond_entries_model(self.entries@);
                    assert(cond_entries_model(self.entries@) =~= m.take(i as int) + (seq![
                        (gkey, gcond),
                    ] + m.skip(i + 1)));
                }
                return;
            }
            i = i + 1;
        }
        proof {
            lemma_spec_insert_skip(m, gkey, gcond, m.len() as int);
            assert(m.skip(m.len() as int).len() == 0);
        }
        self.entries.push((key, cond));
        proof {
            lemma_cond_entries_model(self.entries@);
            assert(cond_entries_model(self.entries@) =~= m.take(m.len() as int) + seq![
                (gkey, gcond),
            ]);
            assert(m.take(m.len() as int) =~= m);
        }
    }
}

} // verus!

verus! {

/// Binding `key` to `cond` only when a value is present.
pub open spec fn opt_insert_text(
    doc: Seq<(Seq<char>, SpecCond)>,
    key: Seq<char>,
    v: Option<Seq<char>>,
) -> Seq<(Seq<char>, SpecCond)> {
    match v {
        Option::Some(s) => spec_insert(doc, key, SpecCond::Text(s)),
        Option::None => doc,
    }
}

/// Binding each field of a structured-data object under its
/// `log_data.`-prefixed path, in field order.
pub open spec fn spec_insert_entries(
    doc: Seq<(Seq<char>, SpecCond)>,
    es: Seq<(Seq<char>, SpecValue)>,
) -> Seq<(Seq<char>, SpecCond)>
    decreases es,
{
    if es.len() == 0 {
        doc
    } else {
        spec_insert_entries(
            spec_insert(doc, "log_data."@ + es[0].0, SpecCond::Json(es[0].1)),
            es.drop_first(),
        )
    }
}

/// The text and structured-value conditions of the filter, in the
/// order the options are examined.
pub open spec fn filter_text_part(
    o: OptionsRequestView,
    doc: Seq<(Seq<char>, SpecCond)>,
) -> Seq<(Seq<char>, SpecCond)> {
    let d1 = opt_insert_text(doc, "log_level"@, o.log_level);
    let d2 = opt_insert_text(d1, "log_source"@, o.log_source);
    let d3 = opt_insert_text(d2, "log_source_id"@, o.log_source_id);
    let d4 = match o.log_message {
        Option::Some(m) => spec_insert(
            d3,
            "log_message"@,
            if o.hog_partial == Option::Some(true) {
                SpecCond::CaseInsensitivePattern(m)
            } else {
                SpecCond::Text(m)
            },
        ),
        Option::None => d3,
    };
    let d5 = opt_insert_text(d4, "log_type"@, o.log_type);
    let d6 = opt_insert_text(d5, "hog_uuid"@, o.hog_uuid);
    match o.log_data {
        Option::Some(v) => spec_insert(d6, "log_data"@, SpecCond::Json(v)),
        Option::None => d6,
    }
}

/// The timestamp conditions of the filter: a range wins over a point
/// for the log timestamp, while a point `hog_timestamp` overrides a
/// range on the same field.
pub open spec fn filter_time_part(
    o: OptionsRequestView,
    doc: Seq<(Seq<char>, SpecCond)>,
) -> Seq<(Seq<char>, SpecCond)> {
    let d8 = if o.log_timestamp_start is Some || o.log_timestamp_end is Some {
        spec_insert(
            doc,
            "log_timestamp"@,
            SpecCond::TimestampRange { gte: o.log_timestamp_start, lte: o.log_timestamp_end },
        )
    } else {
        match o.log_timestamp {
            Option::Some(ts) => spec_insert(doc, "log_timestamp"@, SpecCond::Timestamp(ts)),
            Option::None => doc,
        }
    };
    let d9 = if o.hog_timestamp_start is Some || o.hog_timestamp_end is Some {
        spec_insert(
            d8,
            "hog_timestamp"@,
            SpecCond::TimestampRange { gte: o.hog_timestamp_start, lte: o.hog_timestamp_end },
        )
    } else {
        d8
    };
    match o.hog_timestamp {
        Option::Some(ts) => spec_insert(d9, "hog_timestamp"@, SpecCond::Timestamp(ts)),
        Option::None => d9,
    }
}

/// The structured-data path conditions of the filter: a field with a
/// value asks for that value, a field alone asks for presence, and a
/// values map is flattened field by field.
pub open spec fn filter_data_part(
    o: OptionsRequestView,
    doc: Seq<(Seq<char>, SpecCond)>,
) -> Seq<(Seq<char>, SpecCond)> {
    let d11 = match o.log_data_value {
        Option::Some(inner) => match o.log_data_field {
            Option::Some(f) => spec_insert(
                doc,
                "log_data."@ + f,
                SpecCond::Json(
                    match inner {
                        Option::Some(v) => v,
                        Option::None => SpecValue::Null,
                    },
                ),
            ),
            Option::None => doc,
        },
        Option::None => match o.log_data_field {
            Option::Some(f) => spec_insert(doc, "log_data."@ + f, SpecCond::Exists(true)),
            Option::None => doc,
        },
    };
    match o.log_data_values {
        Option::Some(Option::Some(SpecValue::Object(es))) => spec_insert_entries(d11, es),
        _ => d11,
    }
}

/// The store filter that a validated search request denotes: one
/// condition per present option, in the order the options are
/// examined.
pub open spec fn build_filter_spec(o: OptionsRequestView) -> Seq<(Seq<char>, SpecCond)> {
    filter_data_part(o, filter_time_part(o, filter_text_part(o, Seq::empty())))
}

/// Adds the text and structured-value conditions.
fn build_filter_text(options: &OptionsRequest, filter: &mut FilterDoc)
    ensures
        final(filter)@ == filter_text_part(options@, old(filter)@),
{
    match &options.log_level {
        Some(log_level) => {
            filter.insert("log_level".to_owned(), FilterCond::Text(log_level.clone()));
        },
        None => {},
    }
    match &options.log_source {
        Some(log_source) => {
            filter.insert("log_source".to_owned(), FilterCond::Text(log_source.clone()));
        },
        None => {},
    }
    match &options.log_source_id {
        Some(log_source_id) => {
            filter.insert("log_source_id".to_owned(), FilterCond::Text(log_source_id.clone()));
        },
        None => {},
    }
    match &options.log_message {
        Some(log_message) => {
            let partial = match options.hog_partial {
                Some(b) => b,
                None => false,
            };
            if partial {
                filter.insert(
                    "log_message".to_owned(),
                    FilterCond::CaseInsensitivePattern(log_message.clone()),
                );
            } else {
                filter.insert("log_message".to_owned(), FilterCond::Text(log_message.clone()));
            }
        },
        None => {},
    }
    match &options.log_type {
        Some(log_type) => {
            filter.insert("log_type".to_owned(), FilterCond::Text(log_type.clone()));
        },
        None => {},
    }
    match &options.hog_uuid {
        Some(hog_uuid) => {
            filter.insert("hog_uuid".to_owned(), FilterCond::Text(hog_uuid.clone()));
        },
        None => {},
    }
    match &options.log_data {
        Some(log_data) => {
            filter.insert("log_data".to_owned(), FilterCond::Json(log_data.clone()));
        },
        None => {},
    }
}

/// Adds the timestamp conditions.
fn build_filter_time(options: &OptionsRequest, filter: &mut FilterDoc)
    ensures
        final(filter)@ == filter_time_part(options@, old(filter)@),
{
    if options.log_timestamp_start.is_some() || options.log_timestamp_end.is_some() {
        filter.insert(
            "log_timestamp".to_owned(),
            FilterCond::TimestampRange {
                gte: options.log_timestamp_start,
                lte: options.log_timestamp_end,
            },
        );
    } else {
        match options.log_timestamp {
            Some(ts) => {
                filter.insert("log_timestamp".to_owned(), FilterCond::Timestamp(ts));
            },
            None => {},
        }
    }
    if options.hog_timestamp_start.is_some() || options.hog_timestamp_end.is_some() {
        filter.insert(
            "hog_timestamp".to_owned(),
            FilterCond::TimestampRange {
                gte: options.hog_timestamp_start,
                lte: options.hog_timestamp_end,
            },
        );
    }
    match options.hog_timestamp {
        Some(ts) => {
            filter.insert("hog_timestamp".to_owned(), FilterCond::Timestamp(ts));
        },
        None => {},
    }
}

/// Adds the structured-data path conditions.
fn build_filter_data(options: &OptionsRequest, filter: &mut FilterDoc)
    ensures
        final(filter)@ == filter_data_part(options@, old(filter)@),
{
    match &options.log_data_value {
        Some(inner) => {
            match &options.log_data_field {
                Some(field) => {
                    let key = ("log_data.".to_owned()).concat(field.as_str());
                    let cond = match inner {
                        Some(v) => FilterCond::Json(v.clone()),
                        None => FilterCond::Json(Value::Null),
                    };
                    filter.insert(key, cond);
                },
                None => {},
            }
        },
        None => {
            match &options.log_data_field {
                Some(field) => {
                    let key = ("log_data.".to_owned()).concat(field.as_str());
                    filter.insert(key, FilterCond::Exists(true));
                },
                None => {},
            }
        },
    }
    let ghost base = filter@;
    match &options.log_data_values {
        Some(Some(ldv)) => {
            match ldv.as_object() {
                Some(entries) => {
                    proof {
                        lemma_entries_model(entries@);
                    }
                    let ghost es_m = entries_model(entries@);
                    proof {
                        assert(es_m.skip(0) =~= es_m);
                    }
                    let mut i: usize = 0;
                    while i < entries.len()
                        invariant
                            0 <= i <= entries@.len(),
                            es_m == entries_model(entries@),
                            es_m.len() == entries@.len(),
                            forall|j: int|
                                0 <= j < entries@.len() ==> es_m[j] == (
                                entries@[j].0@,
                                value_model(entries@[j].1),
                                ),
                            spec_insert_entries(base, es_m) == spec_insert_entries(
                                filter@,
                                es_m.skip(i as int),
                            ),
                        decreases entries@.len() - i,
                    {
                        proof {
                            assert(es_m.skip(i as int)[0] == es_m[i as int]);
                            assert(es_m.skip(i as int).drop_first() =~= es_m.skip(i + 1));
                        }
                        let key = ("log_data.".to_owned()).concat(entries[i].0.as_str());
                        filter.insert(key, FilterCond::Json(entries[i].1.clone()));
                        i = i + 1;
                    }
                    proof {
                        assert(es_m.skip(es_m.len() as int).len() == 0);
                    }
                },
                None => {},
            }
        },
        _ => {},
    }
}

/// Builds the store filter for a validated search request.
pub fn build_filter(options: &OptionsRequest) -> (r: FilterDoc)
    ensures
        r@ == build_filter_spec(options@),
{
    let mut filter = FilterDoc::new();
    build_filter_text(options, &mut filter);
    build_filter_time(options, &mut filter);
    build_filter_data(options, &mut filter);
    filter
}

} // verus!

verus! {

/// One stage of the search aggregation pipeline.
#[derive(Debug)]
pub enum PipelineStage {
    /// Keeps the records whose structured data is present and an object.
    MatchLogDataObject,
    /// Projects the core record fields.
    ProjectRecordFields,
    /// Keeps the records where the value appears among the structured
    /// data's field values.
    MatchValueInLogData(Value),
    /// Keeps the records matching the remaining filter conditions.
    MatchFilter(FilterDoc),
}

/// The mathematical shape of a [`PipelineStage`].
pub ghost enum SpecStage {
    MatchLogDataObject,
    ProjectRecordFields,
    MatchValueInLogData(SpecValue),
    MatchFilter(Seq<(Seq<char>, SpecCond)>),
}

/// The model of a [`PipelineStage`].
pub open spec fn stage_model(s: PipelineStage) -> SpecStage {
    match s {
        PipelineStage::MatchLogDataObject => SpecStage::MatchLogDataObject,
        PipelineStage::ProjectRecordFields => SpecStage::ProjectRecordFields,
        PipelineStage::MatchValueInLogData(v) => SpecStage::MatchValueInLogData(value_model(v)),
        PipelineStage::MatchFilter(f) => SpecStage::MatchFilter(f@),
    }
}

impl View for PipelineStage {
    type V = SpecStage;

    open spec fn view(&self) -> SpecStage {
        stage_model(*self)
    }
}

impl DeepView for PipelineStage {
    type V = SpecStage;

    open spec fn deep_view(&self) -> SpecStage {
        stage_model(*self)
    }
}

/// The same options with the structured-data value criterion taken
/// out, as the pipeline re-applies the rest of the filter.
pub open spec fn options_without_value(o: OptionsRequestView) -> OptionsRequestView {
    OptionsRequestView { log_data_value: Option::None, ..o }
}

/// The aggregation pipeline that searches for `v` among the structured
/// data's field values: the three fixed stages, then the remaining
/// filter conditions when there are any.
pub open spec fn aggregation_pipeline_spec(v: SpecValue, o: OptionsRequestView) -> Seq<SpecStage> {
    let base = seq![
        SpecStage::MatchLogDataObject,
        SpecStage::ProjectRecordFields,
        SpecStage::MatchValueInLogData(v),
    ];
    let extra = build_filter_spec(options_without_value(o));
    if extra.len() > 0 {
        base.push(SpecStage::MatchFilter(extra))
    } else {
        base
    }
}

/// Copy of an optional string list.
pub fn clone_opt_string_vec(x: &Option<Vec<String>>) -> (r: Option<Vec<String>>)
    ensures
        r.deep_view() == x.deep_view(),
{
    match x {
        Some(v) => {
            let mut out: Vec<String> = Vec::new();
            let mut i: usize = 0;
            while i < v.len()
                invariant
                    0 <= i <= v@.len(),
                    out@.len() == i,
                    forall|j: int| 0 <= j < i ==> out@[j]@ == v@[j]@,
                decreases v@.len() - i,
            {
                out.push(v[i].clone());
                i = i + 1;
            }
            proof {
                assert(out.deep_view() =~= v.deep_view());
            }
            Some(out)
        },
        None => None,
    }
}

/// Copy of a doubly optional value; the copy has the same model.
pub fn clone_opt_opt_value(x: &Option<Option<Value>>) -> (r: Option<Option<Value>>)
    ensures
        r.deep_view() == x.deep_view(),
{
    match x {
        Some(inner) => Some(clone_opt_value(inner)),
        None => None,
    }
}

impl OptionsRequest {
    /// The same options, with the structured-data value criterion
    /// taken out.
    pub fn without_value(&self) -> (r: OptionsRequest)
        ensures
            r@ == options_without_value(self@),
    {
        OptionsRequest {
            log_timestamp: self.log_timestamp,
            log_timestamp_start: self.log_timestamp_start,
            log_timestamp_end: self.log_timestamp_end,
            log_level: clone_opt_string(&self.log_level),
            log_message: clone_opt_string(&self.log_message),
            log_data: clone_opt_value(&self.log_data),
            log_data_field: clone_opt_string(&self.log_data_field),
            log_data_value: None,
            log_data_fields: clone_opt_string_vec(&self.log_data_fields),
            log_data_values: clone_opt_opt_value(&self.log_data_values),
            log_type: clone_opt_string(&self.log_type),
            log_source: clone_opt_string(&self.log_source),
            log_source_id: clone_opt_string(&self.log_source_id),
            hog_uuid: clone_opt_string(&self.hog_uuid),
            hog_limit: self.hog_limit,
            hog_sort: self.hog_sort,
            hog_partial: self.hog_partial,
            hog_case_sensitive: self.hog_case_sensitive,
            hog_timestamp: self.hog_timestamp,
            hog_timestamp_start: self.hog_timestamp_start,
            hog_timestamp_end: self.hog_timestamp_end,
        }
    }
}

/// Builds the aggregation pipeline that searches for `value` among the
/// structured data's field values, re-applying the rest of the filter.
pub fn build_log_data_value_aggregation_pipeline(value: &Value, options: &OptionsRequest) -> (r:
    Vec<PipelineStage>)
    ensures
        r.deep_view() == aggregation_pipeline_spec(value@, options@),
{
    let mut pipeline: Vec<PipelineStage> = Vec::new();
    pipeline.push(PipelineStage::MatchLogDataObject);
    pipeline.push(PipelineStage::ProjectRecordFields);
    pipeline.push(PipelineStage::MatchValueInLogData(value.clone()));

    let new_options = options.without_value();
    let extra_match = build_filter(&new_options);

    if !extra_match.is_empty() {
        pipeline.push(PipelineStage::MatchFilter(extra_match));
        proof {
            assert(pipeline.deep_view() =~= aggregation_pipeline_spec(value@, options@));
        }
    } else {
        proof {
            assert(pipeline.deep_view() =~= aggregation_pipeline_spec(value@, options@));
        }
    }
    pipeline
}

} // verus!
