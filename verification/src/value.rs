//! The neutral JSON value: null, booleans, numbers, strings, arrays and
//! objects that keep the order in which their keys were inserted.

use vstd::prelude::*;
use crate::engine::{engine_number, engine_numbers_equal};
use crate::keyed::{
    distinct_keys, has_key, key_index, lemma_key_index_unique, lemma_upsert, upsert, value_of,
};

verus! {

/// What a number holds: an integer by its value, a floating point number by
/// the bit pattern of its finite binary64 value.
pub enum NumberView {
    Integer(int),
    Float(u64),
}

/// The mathematical form of a value.
pub enum JsonView {
    Null,
    Bool(bool),
    Number(NumberView),
    String(Seq<char>),
    Array(Seq<JsonView>),
    Object(Seq<(Seq<char>, JsonView)>),
}

/// The number as an unsigned integer, where it is an integer that is not
/// negative and fits.
pub open spec fn whole_number(n: NumberView) -> Option<u64> {
    match n {
        NumberView::Integer(i) => if 0 <= i <= u64::MAX {
            Some(i as u64)
        } else {
            None
        },
        NumberView::Float(_) => None,
    }
}

/// The two bit patterns of zero, which compare equal.
pub open spec fn is_zero_bits(bits: u64) -> bool {
    bits == 0 || bits == 0x8000_0000_0000_0000
}

/// Equality of numbers: integers by value, floating point numbers by value
/// (so that the two zeros are equal), an integer never equal to a floating
/// point number.
pub open spec fn number_equal(a: NumberView, b: NumberView) -> bool {
    match (a, b) {
        (NumberView::Integer(x), NumberView::Integer(y)) => x == y,
        (NumberView::Float(x), NumberView::Float(y)) => x == y || (is_zero_bits(x)
            && is_zero_bits(y)),
        _ => false,
    }
}

/// Structural equality: arrays position by position, objects key by key
/// whatever the order of their entries.
pub open spec fn structurally_equal(a: JsonView, b: JsonView) -> bool
    decreases a, 1int,
{
    match (a, b) {
        (JsonView::Null, JsonView::Null) => true,
        (JsonView::Bool(x), JsonView::Bool(y)) => x == y,
        (JsonView::Number(x), JsonView::Number(y)) => number_equal(x, y),
        (JsonView::String(x), JsonView::String(y)) => x == y,
        (JsonView::Array(x), JsonView::Array(y)) => arrays_equal(x, y),
        (JsonView::Object(x), JsonView::Object(y)) => objects_equal(x, y),
        _ => false,
    }
}

/// Arrays are equal when they are as long as each other and equal at every
/// position.
pub open spec fn arrays_equal(x: Seq<JsonView>, y: Seq<JsonView>) -> bool
    decreases x, 0int,
{
    &&& x.len() == y.len()
    &&& forall|i: int| 0 <= i < x.len() ==> structurally_equal(#[trigger] x[i], y[i])
}

/// Objects are equal when they have the same keys and, under each key,
/// equal values.
pub open spec fn objects_equal(x: Seq<(Seq<char>, JsonView)>, y: Seq<(Seq<char>, JsonView)>) -> bool
    decreases x, 0int,
{
    &&& forall|i: int|
        0 <= i < x.len() ==> has_key(y, (#[trigger] x[i]).0) && structurally_equal(
            x[i].1,
            value_of(y, x[i].0),
        )
    &&& forall|j: int| 0 <= j < y.len() ==> has_key(x, (#[trigger] y[j]).0)
}

/// Structural equality of two arrays is `arrays_equal` of their items.
pub proof fn lemma_equal_arrays(x: Seq<JsonView>, y: Seq<JsonView>)
    ensures
        structurally_equal(JsonView::Array(x), JsonView::Array(y)) == arrays_equal(x, y),
{
    assert(JsonView::Array(x)->Array_0 == x);
    assert(JsonView::Array(y)->Array_0 == y);
}

/// Structural equality of two objects is `objects_equal` of their entries.
pub proof fn lemma_equal_objects(x: Seq<(Seq<char>, JsonView)>, y: Seq<(Seq<char>, JsonView)>)
    ensures
        structurally_equal(JsonView::Object(x), JsonView::Object(y)) == objects_equal(x, y),
{
    assert(JsonView::Object(x)->Object_0 == x);
    assert(JsonView::Object(y)->Object_0 == y);
}

/// Whether every object in a value, at whatever depth, has distinct keys.
pub open spec fn well_formed(v: JsonView) -> bool
    decreases v,
{
    match v {
        JsonView::Array(items) => forall|i: int|
            0 <= i < items.len() ==> well_formed(#[trigger] items[i]),
        JsonView::Object(entries) => {
            &&& distinct_keys(entries)
            &&& forall|i: int| 0 <= i < entries.len() ==> well_formed((#[trigger] entries[i]).1)
        },
        _ => true,
    }
}

/// Every well-formed value is structurally equal to itself.
pub proof fn lemma_equal_reflexive(a: JsonView)
    requires
        well_formed(a),
    ensures
        structurally_equal(a, a),
    decreases a,
{
    match a {
        JsonView::Array(x) => {
            assert(a->Array_0 == x);
            assert forall|i: int| 0 <= i < x.len() implies structurally_equal(
                #[trigger] x[i],
                x[i],
            ) by {
                lemma_equal_reflexive(x[i]);
            }
        },
        JsonView::Object(x) => {
            assert(a->Object_0 == x);
            assert forall|i: int| 0 <= i < x.len() implies has_key(x, (#[trigger] x[i]).0)
                && structurally_equal(x[i].1, value_of(x, x[i].0)) by {
                lemma_key_index_unique(x, i);
                lemma_equal_reflexive(x[i].1);
            }
        },
        _ => {},
    }
}

/// Structural equality does not depend on the side: where `a` equals `b`
/// and `b` is well-formed, `b` equals `a`.
pub proof fn lemma_equal_symmetric(a: JsonView, b: JsonView)
    requires
        well_formed(b),
        structurally_equal(a, b),
    ensures
        structurally_equal(b, a),
    decreases a,
{
    match (a, b) {
        (JsonView::Array(x), JsonView::Array(y)) => {
            assert(a->Array_0 == x && b->Array_0 == y);
            assert forall|i: int| 0 <= i < y.len() implies structurally_equal(
                #[trigger] y[i],
                x[i],
            ) by {
                assert(structurally_equal(x[i], y[i]));
                lemma_equal_symmetric(x[i], y[i]);
            }
        },
        (JsonView::Object(x), JsonView::Object(y)) => {
            assert(a->Object_0 == x && b->Object_0 == y);
            assert forall|j: int| 0 <= j < y.len() implies has_key(x, (#[trigger] y[j]).0)
                && structurally_equal(y[j].1, value_of(x, y[j].0)) by {
                let key = y[j].0;
                assert(has_key(x, key));
                let i = key_index(x, key);
                assert(x[i].0 == key);
                assert(structurally_equal(x[i].1, value_of(y, x[i].0)));
                lemma_key_index_unique(y, j);
                lemma_equal_symmetric(x[i].1, y[j].1);
            }
            assert forall|i: int| 0 <= i < x.len() implies has_key(y, (#[trigger] x[i]).0) by {}
        },
        _ => {},
    }
}

/// Structural equality carries over: where `a` equals `b` and `b` equals
/// `c`, `a` equals `c`.
pub proof fn lemma_equal_transitive(a: JsonView, b: JsonView, c: JsonView)
    requires
        structurally_equal(a, b),
        structurally_equal(b, c),
    ensures
        structurally_equal(a, c),
    decreases a,
{
    match (a, b, c) {
        (JsonView::Array(x), JsonView::Array(y), JsonView::Array(z)) => {
            assert(a->Array_0 == x && b->Array_0 == y && c->Array_0 == z);
            assert forall|i: int| 0 <= i < x.len() implies structurally_equal(
                #[trigger] x[i],
                z[i],
            ) by {
                assert(structurally_equal(x[i], y[i]));
                assert(structurally_equal(y[i], z[i]));
                lemma_equal_transitive(x[i], y[i], z[i]);
            }
        },
        (JsonView::Object(x), JsonView::Object(y), JsonView::Object(z)) => {
            assert(a->Object_0 == x && b->Object_0 == y && c->Object_0 == z);
            assert forall|i: int| 0 <= i < x.len() implies has_key(z, (#[trigger] x[i]).0)
                && structurally_equal(x[i].1, value_of(z, x[i].0)) by {
                let key = x[i].0;
                assert(has_key(y, key));
                let j = key_index(y, key);
                assert(y[j].0 == key);
                assert(structurally_equal(x[i].1, y[j].1));
                assert(structurally_equal(y[j].1, value_of(z, y[j].0)));
                lemma_equal_transitive(x[i].1, y[j].1, value_of(z, key));
            }
            assert forall|l: int| 0 <= l < z.len() implies has_key(x, (#[trigger] z[l]).0) by {
                let key = z[l].0;
                assert(has_key(y, key));
                let j = key_index(y, key);
                assert(y[j].0 == key);
                assert(has_key(x, y[j].0));
            }
        },
        _ => {},
    }
}

/// A JSON object: named values in insertion order, no name twice.
#[derive(Debug)]
pub struct Object {
    entries: Vec<(String, JsonValue)>,
}

/// A JSON value.
#[derive(Debug)]
pub enum JsonValue {
    Null,
    Bool(bool),
    Number(serde_json::Number),
    String(String),
    Array(Vec<JsonValue>),
    Object(Object),
}

impl View for Object {
    type V = Seq<(Seq<char>, JsonView)>;

    closed spec fn view(&self) -> Seq<(Seq<char>, JsonView)>
        decreases self,
    {
        entry_views(self.entries@)
    }
}

/// The views of a run of named values.
pub open spec fn entry_views(entries: Seq<(String, JsonValue)>) -> Seq<(Seq<char>, JsonView)>
    decreases entries,
{
    Seq::new(
        entries.len(),
        |i: int|
            if 0 <= i < entries.len() {
                (entries[i].0@, entries[i].1.view())
            } else {
                (Seq::empty(), JsonView::Null)
            },
    )
}

impl View for JsonValue {
    type V = JsonView;

    open spec fn view(&self) -> JsonView
        decreases self,
    {
        match self {
            JsonValue::Null => JsonView::Null,
            JsonValue::Bool(b) => JsonView::Bool(*b),
            JsonValue::Number(n) => JsonView::Number(engine_number(*n)),
            JsonValue::String(s) => JsonView::String(s@),
            JsonValue::Array(items) => JsonView::Array(views_of(items@)),
            JsonValue::Object(object) => JsonView::Object(object.view()),
        }
    }
}

/// The views of a run of values.
pub open spec fn views_of(items: Seq<JsonValue>) -> Seq<JsonView>
    decreases items,
{
    Seq::new(
        items.len(),
        |i: int|
            if 0 <= i < items.len() {
                items[i].view()
            } else {
                JsonView::Null
            },
    )
}


impl Object {
    /// Every object keeps its keys distinct.
    #[verifier::type_invariant]
    pub open spec fn keys_are_distinct(&self) -> bool {
        distinct_keys(self@)
    }

    /// An object without entries.
    pub fn new() -> (r: Object)
        ensures
            r@ == Seq::<(Seq<char>, JsonView)>::empty(),
    {
        let r = Object { entries: Vec::new() };
        assert(r@ =~= Seq::<(Seq<char>, JsonView)>::empty());
        r
    }

    /// The number of entries.
    pub fn len(&self) -> (n: usize)
        ensures
            n == self@.len(),
    {
        self.entries.len()
    }

    /// The key of the entry at `index`.
    pub(crate) fn key_at(&self, index: usize) -> (key: &String)
        requires
            index < self@.len(),
        ensures
            key@ == self@[index as int].0,
    {
        &self.entries[index].0
    }

    /// The value of the entry at `index`.
    pub(crate) fn value_at(&self, index: usize) -> (value: &JsonValue)
        requires
            index < self@.len(),
        ensures
            value@ == self@[index as int].1,
    {
        &self.entries[index].1
    }

    /// The entry at `index`, counting in insertion order.
    pub fn entry_at(&self, index: usize) -> (r: Option<(&String, &JsonValue)>)
        ensures
            index >= self@.len() ==> r is None,
            index < self@.len() ==> (r matches Some(entry) && entry.0@ == self@[index as int].0
                && entry.1@ == self@[index as int].1),
    {
        if index < self.entries.len() {
            Some((&self.entries[index].0, &self.entries[index].1))
        } else {
            None
        }
    }

    /// Where `key` is stored, if it is.
    pub fn position(&self, key: &str) -> (r: Option<usize>)
        ensures
            r is Some <==> has_key(self@, key@),
            r is Some ==> r->0 == key_index(self@, key@),
    {
        let wanted = key.to_owned();
        let mut i: usize = 0;
        while i < self.entries.len()
            invariant
                i <= self.entries.len(),
                self.entries.len() == self@.len(),
                wanted@ == key@,
                forall|k: int| 0 <= k < i ==> (#[trigger] self@[k]).0 != key@,
            decreases self.entries.len() - i,
        {
            if self.entries[i].0 == wanted {
                proof {
                    use_type_invariant(self);
                    lemma_key_index_unique(self@, i as int);
                }
                return Some(i);
            }
            i += 1;
        }
        None
    }

    /// The value stored under `key`, if there is one.
    pub fn get(&self, key: &str) -> (r: Option<&JsonValue>)
        ensures
            r is Some <==> has_key(self@, key@),
            r is Some ==> r->0@ == value_of(self@, key@),
    {
        match self.position(key) {
            Some(i) => Some(&self.entries[i].1),
            None => None,
        }
    }

    /// Stores `value` under `key`: a key that is present keeps its place and
    /// takes the new value, a new key goes last.
    pub fn insert(&mut self, key: String, value: JsonValue)
        ensures
            final(self)@ == upsert(old(self)@, key@, value@),
            distinct_keys(old(self)@) && distinct_keys(final(self)@),
            has_key(final(self)@, key@) && value_of(final(self)@, key@) == value@,
            final(self)@.len() == old(self)@.len() + (if has_key(old(self)@, key@) {
                0int
            } else {
                1int
            }),
    {
        let ghost before = self@;
        let ghost after = upsert(before, key@, value@);
        proof {
            use_type_invariant(&*self);
            lemma_upsert(before, key@, value@);
        }
        let found = self.position(key.as_str());
        let mut entries: Vec<(String, JsonValue)> = Vec::new();
        std::mem::swap(&mut entries, &mut self.entries);
        match found {
            Some(i) => {
                entries.set(i, (key, value));
            },
            None => {
                entries.push((key, value));
            },
        }
        assert(entry_views(entries@) =~= after);
        self.entries = entries;
    }
}


impl JsonValue {
    /// Whether two values are structurally equal.
    pub fn equals(&self, other: &JsonValue) -> (r: bool)
        ensures
            r == structurally_equal(self@, other@),
        decreases self,
    {
        match (self, other) {
            (JsonValue::Null, JsonValue::Null) => true,
            (JsonValue::Bool(x), JsonValue::Bool(y)) => *x == *y,
            (JsonValue::Number(x), JsonValue::Number(y)) => engine_numbers_equal(x, y),
            (JsonValue::String(x), JsonValue::String(y)) => *x == *y,
            (JsonValue::Array(x), JsonValue::Array(y)) => {
                proof {
                    lemma_equal_arrays(views_of(x@), views_of(y@));
                }
                items_equal(x, y)
            },
            (JsonValue::Object(x), JsonValue::Object(y)) => {
                proof {
                    lemma_equal_objects(x@, y@);
                }
                x.equals(y)
            },
            _ => false,
        }
    }
}

/// Whether two arrays hold structurally equal items at every position.
fn items_equal(x: &Vec<JsonValue>, y: &Vec<JsonValue>) -> (r: bool)
    ensures
        r == arrays_equal(views_of(x@), views_of(y@)),
    decreases x,
{
    if x.len() != y.len() {
        return false;
    }
    let mut i: usize = 0;
    while i < x.len()
        invariant
            i <= x.len(),
            x.len() == y.len(),
            forall|k: int|
                0 <= k < i ==> structurally_equal(#[trigger] views_of(x@)[k], views_of(y@)[k]),
        decreases x.len() - i,
    {
        if !x[i].equals(&y[i]) {
            assert(!structurally_equal(views_of(x@)[i as int], views_of(y@)[i as int]));
            return false;
        }
        i += 1;
    }
    true
}

impl Object {
    /// Whether two objects hold the same keys with structurally equal values.
    pub fn equals(&self, other: &Object) -> (r: bool)
        ensures
            r == objects_equal(self@, other@),
        decreases self,
    {
        proof {
            use_type_invariant(self);
            use_type_invariant(other);
        }
        let mut i: usize = 0;
        while i < self.entries.len()
            invariant
                i <= self.entries.len(),
                self.entries.len() == self@.len(),
                distinct_keys(other@),
                forall|k: int|
                    0 <= k < i ==> has_key(other@, (#[trigger] self@[k]).0) && structurally_equal(
                        self@[k].1,
                        value_of(other@, self@[k].0),
                    ),
            decreases self.entries.len() - i,
        {
            match other.get(self.entries[i].0.as_str()) {
                Some(theirs) => {
                    if !self.entries[i].1.equals(theirs) {
                        assert(!structurally_equal(
                            self@[i as int].1,
                            value_of(other@, self@[i as int].0),
                        ));
                        return false;
                    }
                },
                None => {
                    assert(!has_key(other@, self@[i as int].0));
                    return false;
                },
            }
            i += 1;
        }
        let mut j: usize = 0;
        while j < other.entries.len()
            invariant
                j <= other.entries.len(),
                other.entries.len() == other@.len(),
                forall|k: int|
                    0 <= k < self@.len() ==> has_key(other@, (#[trigger] self@[k]).0)
                        && structurally_equal(self@[k].1, value_of(other@, self@[k].0)),
                forall|k: int| 0 <= k < j ==> has_key(self@, (#[trigger] other@[k]).0),
            decreases other.entries.len() - j,
        {
            if self.position(other.entries[j].0.as_str()).is_none() {
                assert(!has_key(self@, other@[j as int].0));
                return false;
            }
            j += 1;
        }
        true
    }
}

impl Clone for JsonValue {
    /// A copy with the same view.
    fn clone(&self) -> (r: JsonValue)
        ensures
            r@ == self@,
        decreases self,
    {
        match self {
            JsonValue::Null => JsonValue::Null,
            JsonValue::Bool(b) => JsonValue::Bool(*b),
            JsonValue::Number(n) => JsonValue::Number(n.clone()),
            JsonValue::String(s) => JsonValue::String(s.clone()),
            JsonValue::Array(items) => JsonValue::Array(clone_items(items)),
            JsonValue::Object(object) => JsonValue::Object(object.clone()),
        }
    }
}

/// Copies of the items, in their order.
fn clone_items(items: &Vec<JsonValue>) -> (copies: Vec<JsonValue>)
    ensures
        views_of(copies@) == views_of(items@),
    decreases items,
{
    let mut copies: Vec<JsonValue> = Vec::new();
    let mut i: usize = 0;
    while i < items.len()
        invariant
            i <= items.len(),
            copies@.len() == i,
            forall|k: int| 0 <= k < i ==> (#[trigger] copies@[k])@ == items@[k]@,
        decreases items.len() - i,
    {
        copies.push(items[i].clone());
        i += 1;
    }
    assert(views_of(copies@) =~= views_of(items@));
    copies
}

impl Clone for Object {
    /// A copy with the same entries in the same order.
    fn clone(&self) -> (r: Object)
        ensures
            r@ == self@,
        decreases self,
    {
        proof {
            use_type_invariant(self);
        }
        let mut copies: Vec<(String, JsonValue)> = Vec::new();
        let mut i: usize = 0;
        while i < self.entries.len()
            invariant
                i <= self.entries.len(),
                copies@.len() == i,
                forall|k: int|
                    0 <= k < i ==> (#[trigger] copies@[k]).0@ == self.entries@[k].0@
                        && copies@[k].1@ == self.entries@[k].1@,
            decreases self.entries.len() - i,
        {
            copies.push((self.entries[i].0.clone(), self.entries[i].1.clone()));
            i += 1;
        }
        assert(entry_views(copies@) =~= self@);
        Object { entries: copies }
    }
}

impl PartialEq for JsonValue {
    /// `==` is structural equality.
    fn eq(&self, other: &JsonValue) -> (r: bool) {
        self.equals(other)
    }
}

impl vstd::std_specs::cmp::PartialEqSpecImpl for JsonValue {
    open spec fn obeys_eq_spec() -> bool {
        true
    }

    open spec fn eq_spec(&self, other: &JsonValue) -> bool {
        structurally_equal(self@, other@)
    }
}

} // verus!
