//! JSON documents: reading them and looking fields up.
use crate::codec;
use crate::scan;
use crate::text;
use vstd::prelude::*;

verus! {

/// A JSON document. A record lists its fields by name.
pub enum Json {
    Null,
    Bool(bool),
    /// A whole number from zero up.
    Unsigned(u64),
    /// A whole number below zero.
    Negative(i64),
    /// Any other number, as it is written.
    Fraction(String),
    Text(String),
    List(Vec<Json>),
    Record(Vec<(String, Json)>),
}

/// What a JSON document says.
pub enum JsonView {
    Null,
    Bool(bool),
    Unsigned(u64),
    Negative(i64),
    Fraction(Seq<char>),
    Text(Seq<char>),
    List(Seq<JsonView>),
    Record(Seq<(Seq<char>, JsonView)>),
}

/// What a JSON document says, item by item and field by field.
pub open spec fn tree(j: Json) -> JsonView
    decreases j,
{
    match j {
        Json::Null => JsonView::Null,
        Json::Bool(b) => JsonView::Bool(b),
        Json::Unsigned(n) => JsonView::Unsigned(n),
        Json::Negative(n) => JsonView::Negative(n),
        Json::Fraction(s) => JsonView::Fraction(s@),
        Json::Text(s) => JsonView::Text(s@),
        Json::List(items) => JsonView::List(
            Seq::new(
                items@.len(),
                |i: int|
                    if 0 <= i < items@.len() {
                        tree(items@[i])
                    } else {
                        arbitrary()
                    },
            ),
        ),
        Json::Record(fields) => JsonView::Record(
            Seq::new(
                fields@.len(),
                |i: int|
                    if 0 <= i < fields@.len() {
                        (fields@[i].0@, tree(fields@[i].1))
                    } else {
                        arbitrary()
                    },
            ),
        ),
    }
}

impl View for Json {
    type V = JsonView;

    open spec fn view(&self) -> JsonView {
        tree(*self)
    }
}

/// The fields that a record lists are the ones that it says.
proof fn record_view(fields: Vec<(String, Json)>)
    ensures
        Json::Record(fields)@ is Record,
        Json::Record(fields)@->Record_0.len() == fields@.len(),
        forall|i: int|
            0 <= i < fields@.len() ==> #[trigger] Json::Record(fields)@->Record_0[i] == (
                fields@[i].0@,
                fields@[i].1@,
            ),
{
    let r = Json::Record(fields);
    assert(r@->Record_0.len() == fields@.len());
}

// ---------------------------------------------------------------------------------------------
// Reading
// ---------------------------------------------------------------------------------------------

/// `serde_json::Value`, a JSON document as `serde_json` holds it.
#[verifier::external_type_specification]
#[verifier::external_body]
pub struct ExValue(serde_json::Value);

/// What a `serde_json::Value` holds.
pub uninterp spec fn value_tree(v: serde_json::Value) -> JsonView;

/// The document that `serde_json` reads from a text, where the text is one.
pub uninterp spec fn parsed_text(text: Seq<char>) -> Option<JsonView>;

/// The document that `serde_json` reads from bytes, where the bytes are one.
pub uninterp spec fn parsed_bytes(bytes: Seq<u8>) -> Option<JsonView>;

/// `serde_json::from_str` into a `Value`: the outcome depends on the text alone.
#[verifier::external_body]
fn value_from_text(text: &str) -> (r: Option<serde_json::Value>)
    ensures
        match r {
            Some(v) => parsed_text(text@) == Some(value_tree(v)),
            None => parsed_text(text@) is None,
        },
{
    serde_json::from_str(text).ok()
}

/// `serde_json::from_slice` into a `Value`: the outcome depends on the bytes alone.
#[verifier::external_body]
fn value_from_bytes(bytes: &[u8]) -> (r: Option<serde_json::Value>)
    ensures
        match r {
            Some(v) => parsed_bytes(bytes@) == Some(value_tree(v)),
            None => parsed_bytes(bytes@) is None,
        },
{
    serde_json::from_slice(bytes).ok()
}

/// `serde_json::Value::as_bool`: the truth value, and nothing for any other document.
#[verifier::external_body]
fn value_bool(v: &serde_json::Value) -> (r: Option<bool>)
    ensures
        match r {
            Some(b) => value_tree(*v) == JsonView::Bool(b),
            None => !(value_tree(*v) is Bool),
        },
{
    v.as_bool()
}

/// `serde_json::Value::as_u64`: a whole number from zero up, and nothing for any other document.
#[verifier::external_body]
fn value_unsigned(v: &serde_json::Value) -> (r: Option<u64>)
    ensures
        match r {
            Some(n) => value_tree(*v) == JsonView::Unsigned(n),
            None => !(value_tree(*v) is Unsigned),
        },
{
    v.as_u64()
}

/// `serde_json::Value::as_i64`: a whole number that an `i64` holds, and nothing for any other
/// document. Numbers below zero are kept apart from the others.
#[verifier::external_body]
fn value_signed(v: &serde_json::Value) -> (r: Option<i64>)
    ensures
        match r {
            Some(n) => value_tree(*v) == if n < 0 {
                JsonView::Negative(n)
            } else {
                JsonView::Unsigned(n as u64)
            },
            None => !(value_tree(*v) is Negative),
        },
{
    v.as_i64()
}

/// `serde_json::Value::as_number`, then the number as `serde_json` writes it; nothing for a
/// document that is no number.
#[verifier::external_body]
fn value_number_text(v: &serde_json::Value) -> (r: Option<String>)
    ensures
        match r {
            Some(s) => value_tree(*v) is Unsigned || value_tree(*v) is Negative || value_tree(*v)
                == JsonView::Fraction(s@),
            None => !(value_tree(*v) is Fraction),
        },
{
    v.as_number().map(|n| n.to_string())
}

/// `serde_json::Value::as_str`: the characters of a text, and nothing for any other document.
#[verifier::external_body]
fn value_text(v: &serde_json::Value) -> (r: Option<&str>)
    ensures
        match r {
            Some(s) => value_tree(*v) == JsonView::Text(s@),
            None => !(value_tree(*v) is Text),
        },
{
    v.as_str()
}

/// `serde_json::Value::as_array`: the items of a list, and nothing for any other document.
#[verifier::external_body]
fn value_list(v: &serde_json::Value) -> (r: Option<&Vec<serde_json::Value>>)
    ensures
        match r {
            Some(items) => value_tree(*v) == JsonView::List(
                Seq::new(items@.len(), |i: int| value_tree(items@[i])),
            ),
            None => !(value_tree(*v) is List),
        },
{
    v.as_array()
}

/// `serde_json::Value::as_object`: the fields of a record in the order in which `serde_json` lists
/// them, and nothing for any other document.
#[verifier::external_body]
fn value_fields(v: &serde_json::Value) -> (r: Option<Vec<(String, &serde_json::Value)>>)
    ensures
        match r {
            Some(fields) => value_tree(*v) == JsonView::Record(
                Seq::new(fields@.len(), |i: int| (fields@[i].0@, value_tree(*fields@[i].1))),
            ),
            None => !(value_tree(*v) is Record),
        },
{
    v.as_object().map(|m| m.iter().map(|(k, x)| (k.clone(), x)).collect())
}

/// The document that a `serde_json::Value` holds.
fn json_of(v: &serde_json::Value) -> (r: Json)
    ensures
        r@ == value_tree(*v),
    decreases value_tree(*v),
{
    if let Some(b) = value_bool(v) {
        return Json::Bool(b);
    }
    if let Some(n) = value_unsigned(v) {
        return Json::Unsigned(n);
    }
    if let Some(n) = value_signed(v) {
        return Json::Negative(n);
    }
    if let Some(s) = value_number_text(v) {
        return Json::Fraction(s);
    }
    if let Some(s) = value_text(v) {
        return Json::Text(s.to_owned());
    }
    if let Some(items) = value_list(v) {
        let mut out: Vec<Json> = Vec::new();
        let mut i: usize = 0;
        while i < items.len()
            invariant
                i <= items@.len(),
                out@.len() == i,
                value_tree(*v) == JsonView::List(
                    Seq::new(items@.len(), |i: int| value_tree(items@[i])),
                ),
                forall|j: int| 0 <= j < i ==> (#[trigger] out@[j])@ == value_tree(items@[j]),
            decreases items@.len() - i,
        {
            proof {
                let t = value_tree(*v);
                assert(t->List_0[i as int] == value_tree(items@[i as int]));
                assert(decreases_to!(t => t->List_0));
                assert(decreases_to!(t->List_0 => t->List_0[i as int]));
            }
            out.push(json_of(&items[i]));
            i = i + 1;
        }
        let r = Json::List(out);
        assert(r@->List_0 =~= value_tree(*v)->List_0);
        return r;
    }
    if let Some(fields) = value_fields(v) {
        let mut out: Vec<(String, Json)> = Vec::new();
        let mut i: usize = 0;
        while i < fields.len()
            invariant
                i <= fields@.len(),
                out@.len() == i,
                value_tree(*v) == JsonView::Record(
                    Seq::new(fields@.len(), |i: int| (fields@[i].0@, value_tree(*fields@[i].1))),
                ),
                forall|j: int|
                    0 <= j < i ==> (#[trigger] out@[j]).0@ == fields@[j].0@ && out@[j].1@
                        == value_tree(*fields@[j].1),
            decreases fields@.len() - i,
        {
            proof {
                let t = value_tree(*v);
                assert(t->Record_0[i as int].1 == value_tree(*fields@[i as int].1));
                assert(decreases_to!(t => t->Record_0));
                assert(decreases_to!(t->Record_0 => t->Record_0[i as int]));
                assert(decreases_to!(t->Record_0[i as int] => t->Record_0[i as int].1));
            }
            let name = fields[i].0.clone();
            out.push((name, json_of(fields[i].1)));
            i = i + 1;
        }
        let r = Json::Record(out);
        assert(r@->Record_0 =~= value_tree(*v)->Record_0);
        return r;
    }
    Json::Null
}

/// Reads a JSON document from a text.
pub fn parse(text: &str) -> (r: Option<Json>)
    ensures
        view_of(r) == parsed_text(text@),
{
    match value_from_text(text) {
        Some(v) => Some(json_of(&v)),
        None => None,
    }
}

/// Reads a JSON document from bytes.
pub fn parse_bytes(bytes: &[u8]) -> (r: Option<Json>)
    ensures
        view_of(r) == parsed_bytes(bytes@),
{
    match value_from_bytes(bytes) {
        Some(v) => Some(json_of(&v)),
        None => None,
    }
}

/// What an optional document says.
pub open spec fn view_of(o: Option<Json>) -> Option<JsonView> {
    match o {
        Some(j) => Some(j@),
        None => None,
    }
}

/// What an optional borrowed document says.
pub open spec fn view_at(o: Option<&Json>) -> Option<JsonView> {
    match o {
        Some(j) => Some(j@),
        None => None,
    }
}

// ---------------------------------------------------------------------------------------------
// Looking fields up
// ---------------------------------------------------------------------------------------------

/// The first field of that name.
pub open spec fn lookup(fields: Seq<(Seq<char>, JsonView)>, name: Seq<char>) -> Option<JsonView>
    decreases fields.len(),
{
    if fields.len() == 0 {
        None
    } else if fields[0].0 == name {
        Some(fields[0].1)
    } else {
        lookup(fields.skip(1), name)
    }
}

impl JsonView {
    /// The field of that name; a document that is no record has none.
    pub open spec fn field(self, name: Seq<char>) -> Option<JsonView> {
        match self {
            JsonView::Record(fields) => lookup(fields, name),
            _ => None,
        }
    }

    /// The characters of a text.
    pub open spec fn text(self) -> Option<Seq<char>> {
        match self {
            JsonView::Text(s) => Some(s),
            _ => None,
        }
    }

    /// A truth value.
    pub open spec fn truth(self) -> Option<bool> {
        match self {
            JsonView::Bool(b) => Some(b),
            _ => None,
        }
    }

    /// A whole number from zero up.
    pub open spec fn unsigned(self) -> Option<u64> {
        match self {
            JsonView::Unsigned(n) => Some(n),
            _ => None,
        }
    }

    /// A whole number within the range of `i64`.
    pub open spec fn signed(self) -> Option<i64> {
        match self {
            JsonView::Unsigned(n) => if n <= i64::MAX {
                Some(n as i64)
            } else {
                None
            },
            JsonView::Negative(n) => Some(n),
            _ => None,
        }
    }

    /// The text in the field of that name.
    pub open spec fn text_field(self, name: Seq<char>) -> Option<Seq<char>> {
        match self.field(name) {
            Some(v) => v.text(),
            None => None,
        }
    }

    /// The truth value in the field of that name.
    pub open spec fn truth_field(self, name: Seq<char>) -> Option<bool> {
        match self.field(name) {
            Some(v) => v.truth(),
            None => None,
        }
    }
}

impl Json {
    /// The field of that name; a document that is no record has none.
    pub fn get(&self, name: &str) -> (r: Option<&Json>)
        ensures
            view_at(r) == self@.field(name@),
            r is Some ==> decreases_to!(self => r->0),
    {
        match self {
            Json::Record(fields) => {
                let mut i: usize = 0;
                let ghost all = self@->Record_0;
                proof {
                    record_view(*fields);
                }
                assert(all.skip(0) =~= all);
                while i < fields.len()
                    invariant
                        *self == Json::Record(*fields),
                        i <= fields@.len(),
                        all.len() == fields@.len(),
                        forall|j: int|
                            0 <= j < all.len() ==> #[trigger] all[j] == (
                                fields@[j].0@,
                                fields@[j].1@,
                            ),
                        self@.field(name@) == lookup(all.skip(i as int), name@),
                    decreases fields@.len() - i,
                {
                    proof {
                        assert(all.skip(i as int)[0] == all[i as int]);
                        assert(all.skip(i as int).skip(1) =~= all.skip(i + 1));
                    }
                    if text::same_text(fields[i].0.as_str(), name) {
                        proof {
                            assert(decreases_to!(self => fields@));
                            assert(decreases_to!(fields@ => fields@[i as int]));
                            assert(decreases_to!(fields@[i as int] => fields@[i as int].1));
                        }
                        return Some(&fields[i].1);
                    }
                    i = i + 1;
                }
                None
            },
            _ => None,
        }
    }

    /// The characters of a text.
    pub fn as_str(&self) -> (r: Option<&str>)
        ensures
            text::opt_str(r) == self@.text(),
    {
        match self {
            Json::Text(s) => Some(s.as_str()),
            _ => None,
        }
    }

    /// A truth value.
    pub fn as_bool(&self) -> (r: Option<bool>)
        ensures
            r == self@.truth(),
    {
        match self {
            Json::Bool(b) => Some(*b),
            _ => None,
        }
    }

    /// A whole number from zero up.
    pub fn as_u64(&self) -> (r: Option<u64>)
        ensures
            r == self@.unsigned(),
    {
        match self {
            Json::Unsigned(n) => Some(*n),
            _ => None,
        }
    }

    /// A whole number within the range of `i64`.
    pub fn as_i64(&self) -> (r: Option<i64>)
        ensures
            r == self@.signed(),
    {
        match self {
            Json::Unsigned(n) => if *n <= i64::MAX as u64 {
                Some(*n as i64)
            } else {
                None
            },
            Json::Negative(n) => Some(*n),
            _ => None,
        }
    }

    /// The text in the field of that name.
    pub fn text_of(&self, name: &str) -> (r: Option<&str>)
        ensures
            text::opt_str(r) == self@.text_field(name@),
    {
        match self.get(name) {
            Some(v) => v.as_str(),
            None => None,
        }
    }

    /// The truth value in the field of that name.
    pub fn truth_of(&self, name: &str) -> (r: Option<bool>)
        ensures
            r == self@.truth_field(name@),
    {
        match self.get(name) {
            Some(v) => v.as_bool(),
            None => None,
        }
    }
}

// ---------------------------------------------------------------------------------------------
// Changing fields
// ---------------------------------------------------------------------------------------------

/// What the fields of a record say.
pub open spec fn fields_tree(v: Seq<(String, Json)>) -> Seq<(Seq<char>, JsonView)> {
    Seq::new(v.len(), |i: int| (v[i].0@, tree(v[i].1)))
}

/// What the items of a list say.
pub open spec fn items_tree(v: Seq<Json>) -> Seq<JsonView> {
    Seq::new(v.len(), |i: int| tree(v[i]))
}

/// A record says what its fields say.
pub proof fn record_says(fields: Vec<(String, Json)>)
    ensures
        tree(Json::Record(fields)) == JsonView::Record(fields_tree(fields@)),
{
    assert(tree(Json::Record(fields))->Record_0 =~= fields_tree(fields@));
}

/// A list says what its items say.
pub proof fn list_says(items: Vec<Json>)
    ensures
        tree(Json::List(items)) == JsonView::List(items_tree(items@)),
{
    assert(tree(Json::List(items))->List_0 =~= items_tree(items@));
}

/// Where the first field of that name stands.
pub open spec fn place(fields: Seq<(Seq<char>, JsonView)>, name: Seq<char>) -> Option<int>
    decreases fields.len(),
{
    if fields.len() == 0 {
        None
    } else if fields[0].0 == name {
        Some(0)
    } else {
        match place(fields.skip(1), name) {
            Some(i) => Some(i + 1),
            None => None,
        }
    }
}

/// The fields with another value in the field of that name, which comes last where it is new.
pub open spec fn with_field(
    fields: Seq<(Seq<char>, JsonView)>,
    name: Seq<char>,
    value: JsonView,
) -> Seq<(Seq<char>, JsonView)> {
    match place(fields, name) {
        Some(i) => fields.update(i, (name, value)),
        None => fields.push((name, value)),
    }
}

/// The fields without the field of that name.
pub open spec fn without_field(fields: Seq<(Seq<char>, JsonView)>, name: Seq<char>) -> Seq<
    (Seq<char>, JsonView),
> {
    match place(fields, name) {
        Some(i) => fields.remove(i),
        None => fields,
    }
}

/// The first field of a name is the one that is found under it.
pub proof fn place_is_lookup(fields: Seq<(Seq<char>, JsonView)>, name: Seq<char>)
    ensures
        match place(fields, name) {
            Some(i) => {
                &&& 0 <= i < fields.len() && fields[i].0 == name
                &&& lookup(fields, name) == Some(fields[i].1)
                &&& forall|j: int| 0 <= j < i ==> (#[trigger] fields[j]).0 != name
            },
            None => {
                &&& lookup(fields, name) is None
                &&& forall|j: int| 0 <= j < fields.len() ==> (#[trigger] fields[j]).0 != name
            },
        },
    decreases fields.len(),
{
    if fields.len() > 0 && fields[0].0 != name {
        let rest = fields.skip(1);
        place_is_lookup(rest, name);
        match place(fields, name) {
            Some(i) => {
                assert(rest[i - 1] == fields[i]);
                assert forall|j: int| 0 <= j < i implies (#[trigger] fields[j]).0 != name by {
                    if j > 0 {
                        assert(rest[j - 1] == fields[j]);
                    }
                }
            },
            None => {
                assert forall|j: int| 0 <= j < fields.len() implies (#[trigger] fields[j]).0
                    != name by {
                    if j > 0 {
                        assert(rest[j - 1] == fields[j]);
                    }
                }
            },
        }
    }
}

proof fn place_at(fields: Seq<(Seq<char>, JsonView)>, name: Seq<char>, k: int)
    requires
        0 <= k < fields.len(),
        fields[k].0 == name,
        forall|j: int| 0 <= j < k ==> (#[trigger] fields[j]).0 != name,
    ensures
        place(fields, name) == Some(k),
{
    place_is_lookup(fields, name);
}

/// A field that was written is read back, and the others are as they were.
pub proof fn written_fields_are_read_back(
    fields: Seq<(Seq<char>, JsonView)>,
    name: Seq<char>,
    value: JsonView,
    other: Seq<char>,
)
    requires
        other != name,
    ensures
        lookup(with_field(fields, name, value), name) == Some(value),
        lookup(with_field(fields, name, value), other) == lookup(fields, other),
{
    let after = with_field(fields, name, value);
    place_is_lookup(fields, name);
    place_is_lookup(fields, other);
    place_is_lookup(after, other);
    match place(fields, name) {
        Some(i) => {
            place_at(after, name, i);
            place_is_lookup(after, name);
            match place(fields, other) {
                Some(k) => {
                    assert(after[k] == fields[k]);
                    assert forall|j: int| 0 <= j < k implies (#[trigger] after[j]).0 != other by {
                        assert(fields[j].0 != other);
                    }
                    place_at(after, other, k);
                },
                None => {
                    assert forall|j: int| 0 <= j < after.len() implies (#[trigger] after[j]).0
                        != other by {
                        assert(fields[j].0 != other);
                    }
                },
            }
        },
        None => {
            let i = fields.len() as int;
            assert forall|j: int| 0 <= j < i implies (#[trigger] after[j]).0 != name by {
                assert(fields[j].0 != name);
            }
            place_at(after, name, i);
            place_is_lookup(after, name);
            match place(fields, other) {
                Some(k) => {
                    assert(after[k] == fields[k]);
                    assert forall|j: int| 0 <= j < k implies (#[trigger] after[j]).0 != other by {
                        assert(fields[j].0 != other);
                    }
                    place_at(after, other, k);
                },
                None => {
                    assert forall|j: int| 0 <= j < after.len() implies (#[trigger] after[j]).0
                        != other by {
                        if j < i {
                            assert(fields[j].0 != other);
                        }
                    }
                },
            }
        },
    }
}

/// Taking a field out leaves the others as they were.
pub proof fn dropped_fields_leave_others(
    fields: Seq<(Seq<char>, JsonView)>,
    name: Seq<char>,
    other: Seq<char>,
)
    requires
        other != name,
    ensures
        lookup(without_field(fields, name), other) == lookup(fields, other),
    decreases fields.len(),
{
    if fields.len() > 0 {
        let rest = fields.skip(1);
        place_is_lookup(rest, name);
        if fields[0].0 == name {
            assert(without_field(fields, name) =~= rest);
        } else {
            dropped_fields_leave_others(rest, name, other);
            let after = without_field(fields, name);
            assert(after.skip(1) =~= without_field(rest, name));
            assert(after[0] == fields[0]);
        }
    }
}

/// Where the first field of that name stands.
pub fn find_field(fields: &Vec<(String, Json)>, name: &str) -> (r: Option<usize>)
    ensures
        match r {
            Some(i) => place(fields_tree(fields@), name@) == Some(i as int),
            None => place(fields_tree(fields@), name@) is None,
        },
{
    let ghost all = fields_tree(fields@);
    let mut i: usize = 0;
    while i < fields.len()
        invariant
            i <= fields@.len(),
            all == fields_tree(fields@),
            forall|j: int| 0 <= j < i ==> (#[trigger] all[j]).0 != name@,
        decreases fields@.len() - i,
    {
        assert(all[i as int].0 == fields@[i as int].0@);
        if text::same_text(fields[i].0.as_str(), name) {
            proof {
                place_at(all, name@, i as int);
            }
            return Some(i);
        }
        i = i + 1;
    }
    proof {
        place_is_lookup(all, name@);
    }
    None
}

/// Writes a field.
pub fn set_field(fields: &mut Vec<(String, Json)>, name: &str, value: Json)
    ensures
        fields_tree(final(fields)@) == with_field(fields_tree(old(fields)@), name@, value@),
{
    let ghost before = fields_tree(fields@);
    proof {
        place_is_lookup(before, name@);
    }
    match find_field(fields, name) {
        Some(i) => {
            fields.set(i, (name.to_owned(), value));
        },
        None => {
            fields.push((name.to_owned(), value));
        },
    }
    assert(fields_tree(fields@) =~= with_field(before, name@, value@));
}

/// Takes a field out.
pub fn remove_field(fields: &mut Vec<(String, Json)>, name: &str)
    ensures
        fields_tree(final(fields)@) == without_field(fields_tree(old(fields)@), name@),
{
    let ghost before = fields_tree(fields@);
    proof {
        place_is_lookup(before, name@);
    }
    if let Some(i) = find_field(fields, name) {
        fields.remove(i);
        assert(fields_tree(fields@) =~= before.remove(i as int));
    }
}

// ---------------------------------------------------------------------------------------------
// Writing
// ---------------------------------------------------------------------------------------------

/// A character as it stands in a JSON text: quotes, backslashes and control characters are escaped.
pub open spec fn escaped(c: char) -> Seq<char> {
    if c == '"' || c == '\\' {
        seq!['\\', c]
    } else if c as int == 8 {
        seq!['\\', 'b']
    } else if c == '\t' {
        seq!['\\', 't']
    } else if c == '\n' {
        seq!['\\', 'n']
    } else if c as int == 12 {
        seq!['\\', 'f']
    } else if c == '\r' {
        seq!['\\', 'r']
    } else if (c as int) < 32 {
        seq!['\\', 'u', '0', '0', codec::hex_char(c as int / 16), codec::hex_char(c as int % 16)]
    } else {
        seq![c]
    }
}

/// A text as JSON writes it between its quotes.
pub open spec fn escaped_text(s: Seq<char>) -> Seq<char>
    decreases s.len(),
{
    if s.len() == 0 {
        Seq::empty()
    } else {
        escaped_text(s.drop_last()) + escaped(s.last())
    }
}

/// A text as JSON writes it.
pub open spec fn quoted(s: Seq<char>) -> Seq<char> {
    seq!['"'] + escaped_text(s) + seq!['"']
}

/// A document as JSON writes it, without white space.
pub open spec fn json_text(t: JsonView) -> Seq<char>
    decreases t,
{
    match t {
        JsonView::Null => "null"@,
        JsonView::Bool(b) => if b {
            "true"@
        } else {
            "false"@
        },
        JsonView::Unsigned(n) => scan::decimal(n as nat),
        JsonView::Negative(n) => scan::signed_decimal(n as int),
        JsonView::Fraction(s) => s,
        JsonView::Text(s) => quoted(s),
        JsonView::List(items) => seq!['['] + scan::joined(
            Seq::new(
                items.len(),
                |i: int|
                    if 0 <= i < items.len() {
                        json_text(items[i])
                    } else {
                        Seq::empty()
                    },
            ),
            seq![','],
        ) + seq![']'],
        JsonView::Record(fields) => seq!['{'] + scan::joined(
            Seq::new(
                fields.len(),
                |i: int|
                    if 0 <= i < fields.len() {
                        quoted(fields[i].0) + seq![':'] + json_text(fields[i].1)
                    } else {
                        Seq::empty()
                    },
            ),
            seq![','],
        ) + seq!['}'],
    }
}

/// A document without fractions whose lists and records are nested no deeper than that.
pub open spec fn writable(t: JsonView, depth: nat) -> bool
    decreases depth,
{
    match t {
        JsonView::Fraction(_) => false,
        JsonView::Negative(n) => n < 0,
        JsonView::List(items) => depth > 0 && forall|i: int|
            0 <= i < items.len() ==> writable(#[trigger] items[i], (depth - 1) as nat),
        JsonView::Record(fields) => depth > 0 && forall|i: int|
            0 <= i < fields.len() ==> writable((#[trigger] fields[i]).1, (depth - 1) as nat),
        _ => true,
    }
}

/// A text comes before another one, by the first character in which they differ.
pub open spec fn goes_before(a: Seq<char>, b: Seq<char>) -> bool {
    exists|k: int|
        0 <= k <= a.len() && k < b.len() && #[trigger] a.take(k) == b.take(k) && (k == a.len() || a[k]
            < b[k])
}

/// Names of fields in their order, each of them once.
pub open spec fn names_ascend(fields: Seq<(String, serde_json::Value)>) -> bool {
    forall|i: int|
        0 <= i < fields.len() - 1 ==> goes_before((#[trigger] fields[i]).0@, fields[i + 1].0@)
}

/// `serde_json::Value::from` a text: that text.
#[verifier::external_body]
pub(crate) fn value_of_text(text: &str) -> (r: serde_json::Value)
    ensures
        value_tree(r) == JsonView::Text(text@),
{
    serde_json::Value::from(text)
}

/// `serde_json::Value::from` a `u64`: that number.
#[verifier::external_body]
pub(crate) fn value_of_number(n: u64) -> (r: serde_json::Value)
    ensures
        value_tree(r) == JsonView::Unsigned(n),
{
    serde_json::Value::from(n)
}

/// `serde_json::Value::from` a `bool`: that truth value.
#[verifier::external_body]
pub(crate) fn value_of_bool(b: bool) -> (r: serde_json::Value)
    ensures
        value_tree(r) == JsonView::Bool(b),
{
    serde_json::Value::from(b)
}

/// `serde_json::Value::from` nothing: the document `null`.
#[verifier::external_body]
pub(crate) fn value_of_nothing() -> (r: serde_json::Value)
    ensures
        value_tree(r) == JsonView::Null,
{
    serde_json::Value::from(())
}

/// `serde_json::Value::from` a vector: the list of its items.
#[verifier::external_body]
pub(crate) fn value_of_list(items: Vec<serde_json::Value>) -> (r: serde_json::Value)
    ensures
        value_tree(r) == JsonView::List(
            Seq::new(items@.len(), |i: int| value_tree(items@[i])),
        ),
{
    serde_json::Value::from(items)
}

/// `serde_json::Value::from_iter` on names and documents: the record of these fields. `serde_json` lists
/// the fields of a record by their names, or as they were put in; the two are the same where the names
/// come in their order.
#[verifier::external_body]
pub(crate) fn value_of_record(fields: Vec<(String, serde_json::Value)>) -> (r: serde_json::Value)
    requires
        names_ascend(fields@),
    ensures
        value_tree(r) == JsonView::Record(
            Seq::new(fields@.len(), |i: int| (fields@[i].0@, value_tree(fields@[i].1))),
        ),
{
    serde_json::Value::from_iter(fields)
}

/// What `Display` writes of a `serde_json::Value`: the document without white space, which `serde_json`
/// reads back. Fractions are left out, since a fraction is not always read back as it was; so are
/// documents that are nested too deeply to be read.
#[verifier::external_body]
pub(crate) fn write_value(v: &serde_json::Value) -> (r: String)
    requires
        writable(value_tree(*v), 100),
    ensures
        r@ == json_text(value_tree(*v)),
        parsed_text(r@) == Some(value_tree(*v)),
{
    v.to_string()
}

/// The first field of a name is the one that is found, and a name that no field has is not found.
pub proof fn fields_are_found(fields: Seq<(Seq<char>, JsonView)>, name: Seq<char>, i: int)
    ensures
        0 <= i < fields.len() && fields[i].0 == name && (forall|j: int|
            0 <= j < i ==> (#[trigger] fields[j]).0 != name) ==> lookup(fields, name) == Some(fields[i].1),
        (forall|j: int| 0 <= j < fields.len() ==> (#[trigger] fields[j]).0 != name) ==> lookup(fields, name)
            is None,
    decreases fields.len(),
{
    if fields.len() > 0 {
        let rest = fields.skip(1);
        fields_are_found(rest, name, i - 1);
        if forall|j: int| 0 <= j < fields.len() ==> (#[trigger] fields[j]).0 != name {
            assert forall|j: int| 0 <= j < rest.len() implies (#[trigger] rest[j]).0 != name by {
                assert(rest[j] == fields[j + 1]);
            }
        }
        if 0 < i < fields.len() && (forall|j: int| 0 <= j < i ==> (#[trigger] fields[j]).0 != name) {
            assert(fields[0].0 != name);
            assert(rest[i - 1] == fields[i]);
            assert forall|j: int| 0 <= j < i - 1 implies (#[trigger] rest[j]).0 != name by {
                assert(rest[j] == fields[j + 1]);
            }
        }
    }
}

/// A value is read as what it is, and as nothing else; a number from zero up is a number with a sign as far as
/// one holds it.
pub proof fn values_are_what_they_are(n: u64, k: i64, b: bool, s: Seq<char>)
    ensures
        JsonView::Text(s).text() == Some(s) && JsonView::Text(s).truth() is None && JsonView::Text(
            s,
        ).unsigned() is None && JsonView::Text(s).signed() is None,
        JsonView::Bool(b).truth() == Some(b) && JsonView::Bool(b).text() is None,
        JsonView::Unsigned(n).unsigned() == Some(n) && JsonView::Unsigned(n).text() is None,
        n <= 0x7fff_ffff_ffff_ffff ==> JsonView::Unsigned(n).signed() == Some(n as i64),
        n > 0x7fff_ffff_ffff_ffff ==> JsonView::Unsigned(n).signed() is None,
        JsonView::Negative(k).signed() == Some(k) && JsonView::Negative(k).unsigned() is None,
        JsonView::Null.text() is None && JsonView::Null.truth() is None && JsonView::Null.signed() is None,
{
}

/// Quotes, backslashes and control characters are escaped in a text, and nothing else is.
pub proof fn only_what_must_be_is_escaped(c: char)
    ensures
        c == '"' ==> escaped(c) == seq!['\\', '"'],
        c == '\\' ==> escaped(c) == seq!['\\', '\\'],
        c == '\n' ==> escaped(c) == seq!['\\', 'n'],
        c == '\r' ==> escaped(c) == seq!['\\', 'r'],
        c == '\t' ==> escaped(c) == seq!['\\', 't'],
        c as int >= 32 && c != '"' && c != '\\' ==> escaped(c) == seq![c],
        (c as int) < 32 ==> escaped(c).len() >= 2 && escaped(c)[0] == '\\',
{
}

/// A text is escaped character by character, in order.
pub proof fn texts_are_escaped_in_order(s: Seq<char>, c: char)
    ensures
        escaped_text(s.push(c)) == escaped_text(s) + escaped(c),
        escaped_text(Seq::empty()) == Seq::<char>::empty(),
        quoted(s) == seq!['"'] + escaped_text(s) + seq!['"'],
{
    assert(s.push(c).drop_last() =~= s);
}

/// A text is written in quotes, a number in decimal, and a truth value and nothing by their names.
pub proof fn plain_values_are_written(s: Seq<char>, n: u64, k: i64)
    ensures
        json_text(JsonView::Text(s)) == quoted(s),
        json_text(JsonView::Unsigned(n)) == scan::decimal(n as nat),
        json_text(JsonView::Negative(k)) == scan::signed_decimal(k as int),
        json_text(JsonView::Bool(true)) == "true"@ && json_text(JsonView::Bool(false)) == "false"@,
        json_text(JsonView::Null) == "null"@,
{
}

} // verus!
