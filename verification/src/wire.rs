//! The wire object: a JSON-like value, and named fields looked up by key.

use vstd::prelude::*;

verus! {

/// A value as it travels on the wire.
///
/// An object is a list of named values in the order they were written. A name
/// that occurs twice is read at its first occurrence.
#[derive(Debug, Eq)]
pub enum WireValue {
    /// No value.
    Null,
    /// A truth value.
    Bool(bool),
    /// A number. Numbers on this wire are integers.
    Integer(i64),
    /// Text.
    Text(String),
    /// Values in a row.
    List(Vec<WireValue>),
    /// Values under names.
    Object(Vec<(String, WireValue)>),
}

/// The named values of an object.
pub type WireFields = Vec<(String, WireValue)>;

/// The mathematical content of a wire value.
pub enum WireModel {
    Null,
    Bool(bool),
    Integer(int),
    Text(Seq<char>),
    List(Seq<WireModel>),
    Object(Seq<(Seq<char>, WireModel)>),
}

/// The mathematical content of an object's named values.
pub type FieldsModel = Seq<(Seq<char>, WireModel)>;

/// The content of a wire value.
pub open spec fn wire_model(value: WireValue) -> WireModel
    decreases value,
{
    match value {
        WireValue::Null => WireModel::Null,
        WireValue::Bool(b) => WireModel::Bool(b),
        WireValue::Integer(n) => WireModel::Integer(n as int),
        WireValue::Text(s) => WireModel::Text(s@),
        WireValue::List(items) => WireModel::List(
            Seq::new(
                items@.len(),
                |i: int|
                    if 0 <= i < items@.len() {
                        wire_model(items@[i])
                    } else {
                        WireModel::Null
                    },
            ),
        ),
        WireValue::Object(fields) => WireModel::Object(
            Seq::new(
                fields@.len(),
                |i: int|
                    if 0 <= i < fields@.len() {
                        (fields@[i].0@, wire_model(fields@[i].1))
                    } else {
                        (Seq::empty(), WireModel::Null)
                    },
            ),
        ),
    }
}

impl View for WireValue {
    type V = WireModel;

    open spec fn view(&self) -> WireModel {
        wire_model(*self)
    }
}

/// The content of a row of values, value by value.
pub open spec fn items_model(items: Seq<WireValue>) -> Seq<WireModel> {
    Seq::new(items.len(), |i: int| items[i]@)
}

/// The content of a list of named values, name by name and value by value.
pub open spec fn fields_model(fields: Seq<(String, WireValue)>) -> FieldsModel {
    Seq::new(fields.len(), |i: int| (fields[i].0@, fields[i].1@))
}

/// The value that `fields` holds under `key`: that of the first field so
/// named, if there is one.
pub open spec fn spec_lookup(fields: FieldsModel, key: Seq<char>) -> Option<WireModel>
    decreases fields.len(),
{
    if fields.len() == 0 {
        None
    } else if fields[0].0 == key {
        Some(fields[0].1)
    } else {
        spec_lookup(fields.skip(1), key)
    }
}

impl WireModel {
    /// The text of a text value.
    pub open spec fn text(self) -> Option<Seq<char>> {
        match self {
            WireModel::Text(s) => Some(s),
            _ => None,
        }
    }

    /// The number of an integer value.
    pub open spec fn integer(self) -> Option<int> {
        match self {
            WireModel::Integer(n) => Some(n),
            _ => None,
        }
    }

    /// The named values of an object.
    pub open spec fn fields(self) -> Option<FieldsModel> {
        match self {
            WireModel::Object(fields) => Some(fields),
            _ => None,
        }
    }
}

/// The content of a list is the content of its values.
pub proof fn lemma_list_model(items: Vec<WireValue>)
    ensures
        WireValue::List(items)@ == WireModel::List(items_model(items@)),
{
    assert(WireValue::List(items)@->List_0 =~= items_model(items@));
}

/// The content of an object is the content of its named values.
pub proof fn lemma_object_model(fields: Vec<(String, WireValue)>)
    ensures
        WireValue::Object(fields)@ == WireModel::Object(fields_model(fields@)),
{
    assert(WireValue::Object(fields)@.fields().unwrap() =~= fields_model(fields@));
}

impl PartialEq for WireValue {
    fn eq(&self, other: &Self) -> (equal: bool)
        decreases self,
    {
        match (self, other) {
            (WireValue::Null, WireValue::Null) => true,
            (WireValue::Bool(one), WireValue::Bool(two)) => *one == *two,
            (WireValue::Integer(one), WireValue::Integer(two)) => *one == *two,
            (WireValue::Text(one), WireValue::Text(two)) => *one == *two,
            (WireValue::List(one), WireValue::List(two)) => {
                proof {
                    lemma_list_model(*one);
                    lemma_list_model(*two);
                }
                if one.len() != two.len() {
                    assert(items_model(one@).len() != items_model(two@).len());
                    return false;
                }
                let mut i: usize = 0;
                while i < one.len()
                    invariant
                        i <= one.len(),
                        one.len() == two.len(),
                        self@ == WireModel::List(items_model(one@)),
                        other@ == WireModel::List(items_model(two@)),
                        forall|j: int| 0 <= j < i ==> items_model(one@)[j] == items_model(two@)[j],
                        decreases_to!(self => one),
                    decreases one.len() - i,
                {
                    if !(one[i] == two[i]) {
                        assert(items_model(one@)[i as int] != items_model(two@)[i as int]);
                        return false;
                    }
                    i += 1;
                }
                proof {
                    assert(items_model(one@) =~= items_model(two@));
                }
                true
            },
            (WireValue::Object(one), WireValue::Object(two)) => {
                proof {
                    lemma_object_model(*one);
                    lemma_object_model(*two);
                }
                if one.len() != two.len() {
                    assert(fields_model(one@).len() != fields_model(two@).len());
                    return false;
                }
                let mut i: usize = 0;
                while i < one.len()
                    invariant
                        i <= one.len(),
                        one.len() == two.len(),
                        self@ == WireModel::Object(fields_model(one@)),
                        other@ == WireModel::Object(fields_model(two@)),
                        forall|j: int|
                            0 <= j < i ==> fields_model(one@)[j] == fields_model(two@)[j],
                        decreases_to!(self => one),
                    decreases one.len() - i,
                {
                    if !(one[i].0 == two[i].0 && one[i].1 == two[i].1) {
                        assert(fields_model(one@)[i as int] != fields_model(two@)[i as int]);
                        return false;
                    }
                    i += 1;
                }
                proof {
                    assert(fields_model(one@) =~= fields_model(two@));
                }
                true
            },
            _ => false,
        }
    }
}

impl vstd::std_specs::cmp::PartialEqSpecImpl for WireValue {
    open spec fn obeys_eq_spec() -> bool {
        true
    }

    open spec fn eq_spec(&self, other: &Self) -> bool {
        self@ == other@
    }
}

impl Clone for WireValue {
    fn clone(&self) -> (copy: Self)
        ensures
            copy@ == self@,
        decreases self,
    {
        match self {
            WireValue::Null => WireValue::Null,
            WireValue::Bool(b) => WireValue::Bool(*b),
            WireValue::Integer(n) => WireValue::Integer(*n),
            WireValue::Text(s) => WireValue::Text(s.clone()),
            WireValue::List(items) => {
                let mut copies: Vec<WireValue> = Vec::new();
                let mut i: usize = 0;
                while i < items.len()
                    invariant
                        i <= items.len(),
                        copies.len() == i,
                        forall|j: int|
                            0 <= j < i ==> items_model(copies@)[j] == items_model(items@)[j],
                        decreases_to!(self => items),
                    decreases items.len() - i,
                {
                    copies.push(items[i].clone());
                    i += 1;
                }
                proof {
                    assert(items_model(copies@) =~= items_model(items@));
                    lemma_list_model(*items);
                    lemma_list_model(copies);
                }
                WireValue::List(copies)
            },
            WireValue::Object(fields) => {
                let mut copies: Vec<(String, WireValue)> = Vec::new();
                let mut i: usize = 0;
                while i < fields.len()
                    invariant
                        i <= fields.len(),
                        copies.len() == i,
                        forall|j: int|
                            0 <= j < i ==> fields_model(copies@)[j] == fields_model(fields@)[j],
                        decreases_to!(self => fields),
                    decreases fields.len() - i,
                {
                    copies.push((fields[i].0.clone(), fields[i].1.clone()));
                    i += 1;
                }
                proof {
                    assert(fields_model(copies@) =~= fields_model(fields@));
                    lemma_object_model(*fields);
                    lemma_object_model(copies);
                }
                WireValue::Object(copies)
            },
        }
    }
}

impl WireValue {
    /// The text, if this is a text value.
    pub fn as_text(&self) -> (text: Option<&String>)
        ensures
            self@.text() == match text {
                Some(s) => Some(s@),
                None => None,
            },
    {
        match self {
            WireValue::Text(s) => Some(s),
            _ => None,
        }
    }

    /// The number, if this is an integer value.
    pub fn as_integer(&self) -> (number: Option<i64>)
        ensures
            self@.integer() == match number {
                Some(n) => Some(n as int),
                None => None,
            },
    {
        match self {
            WireValue::Integer(n) => Some(*n),
            _ => None,
        }
    }

    /// The named values, if this is an object.
    pub fn as_object(&self) -> (fields: Option<&WireFields>)
        ensures
            self@.fields() == match fields {
                Some(f) => Some(fields_model(f@)),
                None => None,
            },
    {
        match self {
            WireValue::Object(fields) => {
                proof {
                    lemma_object_model(*fields);
                }
                Some(fields)
            },
            _ => None,
        }
    }
}

/// Finds the value that `fields` holds under `key`.
pub fn lookup<'a>(fields: &'a WireFields, key: &str) -> (found: Option<&'a WireValue>)
    ensures
        spec_lookup(fields_model(fields@), key@) == match found {
            Some(value) => Some(value@),
            None => None,
        },
{
    let wanted = key.to_owned();
    let ghost model = fields_model(fields@);
    let mut i: usize = 0;
    assert(model.skip(0) =~= model);
    while i < fields.len()
        invariant
            i <= fields.len(),
            wanted@ == key@,
            model == fields_model(fields@),
            spec_lookup(model, key@) == spec_lookup(model.skip(i as int), key@),
        decreases fields.len() - i,
    {
        if fields[i].0 == wanted {
            return Some(&fields[i].1);
        }
        assert(model.skip(i as int).skip(1) =~= model.skip(i + 1));
        i += 1;
    }
    None
}

/// A name is found at the first field that bears it.
pub proof fn lemma_lookup_found(fields: FieldsModel, key: Seq<char>, at: int)
    requires
        0 <= at < fields.len(),
        fields[at].0 == key,
        forall|j: int| 0 <= j < at ==> fields[j].0 != key,
    ensures
        spec_lookup(fields, key) == Some(fields[at].1),
    decreases at,
{
    if at > 0 {
        lemma_lookup_found(fields.skip(1), key, at - 1);
    }
}

/// A name that no field bears is not found.
pub proof fn lemma_lookup_absent(fields: FieldsModel, key: Seq<char>)
    requires
        forall|j: int| 0 <= j < fields.len() ==> fields[j].0 != key,
    ensures
        spec_lookup(fields, key) is None,
    decreases fields.len(),
{
    if fields.len() > 0 {
        lemma_lookup_absent(fields.skip(1), key);
    }
}

/// A name is looked up in the front part of a list first, and in the back part
/// only where the front part lacks it.
pub proof fn lemma_lookup_concat(front: FieldsModel, back: FieldsModel, key: Seq<char>)
    ensures
        spec_lookup(front + back, key) == match spec_lookup(front, key) {
            Some(value) => Some(value),
            None => spec_lookup(back, key),
        },
    decreases front.len(),
{
    if front.len() == 0 {
        assert(front + back =~= back);
    } else {
        assert((front + back).skip(1) =~= front.skip(1) + back);
        lemma_lookup_concat(front.skip(1), back, key);
    }
}

/// A field of another name, put anywhere into a list, does not change what
/// the list holds under `key`.
pub proof fn lemma_lookup_passes_over(
    fields: FieldsModel,
    at: int,
    name: Seq<char>,
    value: WireModel,
    key: Seq<char>,
)
    requires
        0 <= at <= fields.len(),
        name != key,
    ensures
        spec_lookup(fields.insert(at, (name, value)), key) == spec_lookup(fields, key),
    decreases at,
{
    let longer = fields.insert(at, (name, value));
    if at == 0 {
        assert(longer.skip(1) =~= fields);
    } else {
        assert(longer.skip(1) =~= fields.skip(1).insert(at - 1, (name, value)));
        lemma_lookup_passes_over(fields.skip(1), at - 1, name, value, key);
    }
}

} // verus!
