//! Dynamic values exchanged between workflows, scripts and callers.
//!
//! A number is held by the bit pattern of its IEEE 754 double, so that the
//! library never computes with floating point; equality of numbers follows
//! IEEE rules on those bits (NaN is unequal to everything, `+0 == -0`).
//! An object is a list of key/value entries read as a map in which a later
//! entry for a key replaces an earlier one.

use vstd::prelude::*;

use crate::number::{i32_f64_bits, int_f64_bits};

verus! {

/// A dynamic value: null, bool, number, string, array or object.
#[derive(Debug)]
pub enum Value {
    Null,
    Bool(bool),
    /// The bit pattern of an IEEE 754 double.
    Number(u64),
    String(String),
    Array(Vec<Value>),
    Object(Vec<(String, Value)>),
}

/// The mathematical content of a [`Value`].
pub enum ValueModel {
    Null,
    Bool(bool),
    Number(u64),
    Str(Seq<char>),
    Array(Seq<ValueModel>),
    Object(Seq<(Seq<char>, ValueModel)>),
}

pub open spec fn value_model(v: Value) -> ValueModel
    decreases v, 0nat,
{
    match v {
        Value::Null => ValueModel::Null,
        Value::Bool(b) => ValueModel::Bool(b),
        Value::Number(n) => ValueModel::Number(n),
        Value::String(s) => ValueModel::Str(s@),
        Value::Array(items) => ValueModel::Array(items_model(items@, items@.len())),
        Value::Object(entries) => ValueModel::Object(entries_model(entries@, entries@.len())),
    }
}

/// The models of the first `n` elements.
pub open spec fn items_model(s: Seq<Value>, n: nat) -> Seq<ValueModel>
    decreases s, n,
{
    if n == 0 || n > s.len() {
        Seq::empty()
    } else {
        items_model(s, (n - 1) as nat).push(value_model(s[n - 1]))
    }
}

/// The models of the first `n` entries.
pub open spec fn entries_model(s: Seq<(String, Value)>, n: nat) -> Seq<(Seq<char>, ValueModel)>
    decreases s, n,
{
    if n == 0 || n > s.len() {
        Seq::empty()
    } else {
        entries_model(s, (n - 1) as nat).push((s[n - 1].0@, value_model(s[n - 1].1)))
    }
}

impl View for Value {
    type V = ValueModel;

    open spec fn view(&self) -> ValueModel {
        value_model(*self)
    }
}

pub proof fn lemma_items_model(s: Seq<Value>, n: nat)
    requires
        n <= s.len(),
    ensures
        items_model(s, n).len() == n,
        forall|i: int| 0 <= i < n ==> #[trigger] items_model(s, n)[i] == s[i]@,
    decreases n,
{
    if n > 0 {
        lemma_items_model(s, (n - 1) as nat);
    }
}

pub proof fn lemma_entries_model(s: Seq<(String, Value)>, n: nat)
    requires
        n <= s.len(),
    ensures
        entries_model(s, n).len() == n,
        forall|i: int|
            0 <= i < n ==> #[trigger] entries_model(s, n)[i] == (s[i].0@, s[i].1@),
    decreases n,
{
    if n > 0 {
        lemma_entries_model(s, (n - 1) as nat);
    }
}

/// The model of a value: its shape, and the models of what it holds.
pub proof fn lemma_value_model(v: Value)
    ensures
        match v {
            Value::Array(items) => v@ matches ValueModel::Array(m) && m.len() == items@.len()
                && forall|i: int| 0 <= i < m.len() ==> #[trigger] m[i] == items@[i]@,
            Value::Object(entries) => v@ matches ValueModel::Object(m) && m.len()
                == entries@.len() && forall|i: int|
                0 <= i < m.len() ==> #[trigger] m[i] == (entries@[i].0@, entries@[i].1@),
            _ => true,
        },
{
    match v {
        Value::Array(items) => lemma_items_model(items@, items@.len()),
        Value::Object(entries) => lemma_entries_model(entries@, entries@.len()),
        _ => {},
    }
}

// ---------------------------------------------------------------------
// Numbers as IEEE 754 bit patterns
// ---------------------------------------------------------------------

pub open spec fn f64_is_nan(bits: u64) -> bool {
    &&& bits & 0x7FF0_0000_0000_0000u64 == 0x7FF0_0000_0000_0000u64
    &&& bits & 0x000F_FFFF_FFFF_FFFFu64 != 0
}

pub open spec fn f64_is_zero(bits: u64) -> bool {
    bits & 0x7FFF_FFFF_FFFF_FFFFu64 == 0
}

/// IEEE 754 equality of two doubles given by their bit patterns.
pub open spec fn f64_eq(a: u64, b: u64) -> bool {
    &&& !f64_is_nan(a)
    &&& !f64_is_nan(b)
    &&& (a == b || (f64_is_zero(a) && f64_is_zero(b)))
}

/// IEEE 754 equality of two doubles given by their bit patterns.
pub fn f64_bits_eq(a: u64, b: u64) -> (r: bool)
    ensures
        r == f64_eq(a, b),
{
    let a_nan = a & 0x7FF0_0000_0000_0000u64 == 0x7FF0_0000_0000_0000u64 && a
        & 0x000F_FFFF_FFFF_FFFFu64 != 0;
    let b_nan = b & 0x7FF0_0000_0000_0000u64 == 0x7FF0_0000_0000_0000u64 && b
        & 0x000F_FFFF_FFFF_FFFFu64 != 0;
    if a_nan || b_nan {
        false
    } else {
        a == b || (a & 0x7FFF_FFFF_FFFF_FFFFu64 == 0 && b & 0x7FFF_FFFF_FFFF_FFFFu64 == 0)
    }
}

// ---------------------------------------------------------------------
// Objects as entry lists
// ---------------------------------------------------------------------

/// The map that a list of entries stands for: a later entry for a key
/// replaces an earlier one.
pub open spec fn entries_map<V>(entries: Seq<(Seq<char>, V)>) -> Map<Seq<char>, V>
    decreases entries.len(),
{
    if entries.len() == 0 {
        Map::empty()
    } else {
        entries_map(entries.drop_last()).insert(entries.last().0, entries.last().1)
    }
}

/// Whether entry `i` is the last entry for its key.
pub open spec fn is_last_for_key<V>(entries: Seq<(Seq<char>, V)>, i: int) -> bool {
    forall|j: int| i < j < entries.len() ==> entries[j].0 != entries[i].0
}

/// The index of the last entry for `key`, or -1 when there is none.
pub open spec fn last_index_of<V>(entries: Seq<(Seq<char>, V)>, key: Seq<char>) -> int
    decreases entries.len(),
{
    if entries.len() == 0 {
        -1
    } else if entries.last().0 == key {
        entries.len() - 1
    } else {
        last_index_of(entries.drop_last(), key)
    }
}

pub proof fn lemma_last_index_of<V>(entries: Seq<(Seq<char>, V)>, key: Seq<char>)
    ensures
        -1 <= last_index_of(entries, key) < entries.len(),
        last_index_of(entries, key) == -1 <==> !entries_map(entries).dom().contains(key),
        last_index_of(entries, key) >= 0 ==> {
            let i = last_index_of(entries, key);
            &&& entries[i].0 == key
            &&& entries_map(entries)[key] == entries[i].1
            &&& is_last_for_key(entries, i)
        },
        last_index_of(entries, key) == -1 ==> forall|j: int|
            0 <= j < entries.len() ==> entries[j].0 != key,
    decreases entries.len(),
{
    if entries.len() > 0 {
        let prefix = entries.drop_last();
        lemma_last_index_of(prefix, key);
        assert forall|j: int| 0 <= j < prefix.len() implies prefix[j] == entries[j] by {}
        if entries.last().0 != key {
            let i = last_index_of(prefix, key);
            if i >= 0 {
                assert forall|j: int| i < j < entries.len() implies entries[j].0
                    != entries[i].0 by {
                    if j < prefix.len() {
                        assert(prefix[j] == entries[j]);
                    }
                }
            }
        }
    }
}

/// The keys of an entry list are the keys that some entry has.
pub proof fn law_entries_keys<V>(entries: Seq<(Seq<char>, V)>, key: Seq<char>)
    ensures
        entries_map(entries).dom().contains(key) <==> exists|j: int|
            0 <= j < entries.len() && entries[j].0 == key,
{
    lemma_last_index_of(entries, key);
    if entries_map(entries).dom().contains(key) {
        let i = last_index_of(entries, key);
        assert(entries[i].0 == key);
    }
}

pub proof fn lemma_is_last_iff<V>(entries: Seq<(Seq<char>, V)>, i: int)
    requires
        0 <= i < entries.len(),
    ensures
        is_last_for_key(entries, i) <==> last_index_of(entries, entries[i].0) == i,
{
    lemma_last_index_of(entries, entries[i].0);
}

/// Replacing the last entry for a key replaces the key's value in the map.
pub proof fn lemma_entries_map_update<V>(s: Seq<(Seq<char>, V)>, i: int, v: V)
    requires
        0 <= i < s.len(),
        is_last_for_key(s, i),
    ensures
        entries_map(s.update(i, (s[i].0, v))) == entries_map(s).insert(s[i].0, v),
    decreases s.len(),
{
    let k = s[i].0;
    let t = s.update(i, (k, v));
    if i == s.len() - 1 {
        assert(t.drop_last() =~= s.drop_last());
        assert(entries_map(t) =~= entries_map(s).insert(k, v));
    } else {
        let p = s.drop_last();
        assert(is_last_for_key(p, i)) by {
            assert forall|j: int| i < j < p.len() implies p[j].0 != p[i].0 by {
                assert(p[j] == s[j]);
            }
        }
        lemma_entries_map_update(p, i, v);
        assert(t.drop_last() =~= p.update(i, (k, v)));
        assert(s.last().0 != k);
        assert(entries_map(t) =~= entries_map(s).insert(k, v));
    }
}

/// Appending an entry sets the key's value in the map.
pub proof fn lemma_entries_map_push<V>(s: Seq<(Seq<char>, V)>, k: Seq<char>, v: V)
    ensures
        entries_map(s.push((k, v))) == entries_map(s).insert(k, v),
{
    assert(s.push((k, v)).drop_last() =~= s);
}

// ---------------------------------------------------------------------
// Equality
// ---------------------------------------------------------------------

/// Equality of values: numbers compare as doubles, arrays element by element,
/// objects as maps (same keys, equal values under each key).
pub open spec fn value_eq(a: ValueModel, b: ValueModel) -> bool
    decreases a, 0nat,
{
    match (a, b) {
        (ValueModel::Null, ValueModel::Null) => true,
        (ValueModel::Bool(x), ValueModel::Bool(y)) => x == y,
        (ValueModel::Number(x), ValueModel::Number(y)) => f64_eq(x, y),
        (ValueModel::Str(x), ValueModel::Str(y)) => x == y,
        (ValueModel::Array(x), ValueModel::Array(y)) => x.len() == y.len() && seq_eq_upto(
            x,
            y,
            x.len(),
        ),
        (ValueModel::Object(x), ValueModel::Object(y)) => {
            &&& entries_map(x).dom() == entries_map(y).dom()
            &&& entries_eq_upto(x, y, x.len())
        },
        _ => false,
    }
}

/// The first `n` elements of `x` equal those of `y`.
pub open spec fn seq_eq_upto(x: Seq<ValueModel>, y: Seq<ValueModel>, n: nat) -> bool
    decreases x, n,
{
    if n == 0 || n > x.len() || n > y.len() {
        n == 0
    } else {
        seq_eq_upto(x, y, (n - 1) as nat) && value_eq(x[n - 1], y[n - 1])
    }
}

/// Every entry among the first `n` of `x` that is the last for its key has an
/// equal value under the same key in `y`.
pub open spec fn entries_eq_upto(
    x: Seq<(Seq<char>, ValueModel)>,
    y: Seq<(Seq<char>, ValueModel)>,
    n: nat,
) -> bool
    decreases x, n,
{
    if n == 0 || n > x.len() {
        n == 0
    } else {
        let i = n - 1;
        let j = last_index_of(y, x[i].0);
        entries_eq_upto(x, y, (n - 1) as nat) && (!is_last_for_key(x, i) || (0 <= j < y.len()
            && value_eq(x[i].1, y[j].1)))
    }
}

pub proof fn lemma_seq_eq_upto(x: Seq<ValueModel>, y: Seq<ValueModel>, n: nat)
    requires
        n <= x.len(),
        n <= y.len(),
    ensures
        seq_eq_upto(x, y, n) <==> forall|k: int| 0 <= k < n ==> value_eq(x[k], y[k]),
    decreases n,
{
    if n > 0 {
        lemma_seq_eq_upto(x, y, (n - 1) as nat);
    }
}

pub proof fn lemma_entries_eq_upto(
    x: Seq<(Seq<char>, ValueModel)>,
    y: Seq<(Seq<char>, ValueModel)>,
    n: nat,
)
    requires
        n <= x.len(),
    ensures
        entries_eq_upto(x, y, n) <==> forall|k: int|
            0 <= k < n && is_last_for_key(x, k) ==> {
                let j = last_index_of(y, x[k].0);
                0 <= j < y.len() && value_eq(x[k].1, y[j].1)
            },
    decreases n,
{
    if n > 0 {
        lemma_entries_eq_upto(x, y, (n - 1) as nat);
    }
}

/// Equality of values is symmetric.
pub proof fn law_value_eq_symmetric(a: ValueModel, b: ValueModel)
    ensures
        value_eq(a, b) == value_eq(b, a),
    decreases a,
{
    match (a, b) {
        (ValueModel::Number(x), ValueModel::Number(y)) => {},
        (ValueModel::Array(x), ValueModel::Array(y)) => {
            if x.len() == y.len() {
                lemma_seq_eq_upto(x, y, x.len());
                lemma_seq_eq_upto(y, x, y.len());
                assert forall|k: int| 0 <= k < x.len() implies value_eq(x[k], y[k]) == value_eq(
                    y[k],
                    x[k],
                ) by {
                    assert(decreases_to!(a => x[k]));
                    law_value_eq_symmetric(x[k], y[k]);
                }
            }
        },
        (ValueModel::Object(x), ValueModel::Object(y)) => {
            if entries_map(x).dom() == entries_map(y).dom() {
                lemma_entries_eq_upto(x, y, x.len());
                lemma_entries_eq_upto(y, x, y.len());
                assert forall|i: int|
                    0 <= i < x.len() && is_last_for_key(x, i) implies #[trigger] value_eq(
                    x[i].1,
                    y[last_index_of(y, x[i].0)].1,
                ) == value_eq(y[last_index_of(y, x[i].0)].1, x[i].1) by {
                    lemma_last_index_of(y, x[i].0);
                    lemma_last_index_of(x, x[i].0);
                    let j = last_index_of(y, x[i].0);
                    if j >= 0 {
                        assert(decreases_to!(a => x[i].1));
                        law_value_eq_symmetric(x[i].1, y[j].1);
                    }
                }
                if entries_eq_upto(x, y, x.len()) {
                    assert forall|k: int| 0 <= k < y.len() && is_last_for_key(y, k) implies {
                        let i = last_index_of(x, y[k].0);
                        0 <= i < x.len() && value_eq(y[k].1, x[i].1)
                    } by {
                        lemma_last_index_of(y, y[k].0);
                        lemma_is_last_iff(y, k);
                        lemma_last_index_of(x, y[k].0);
                        let i = last_index_of(x, y[k].0);
                        assert(i >= 0);
                        lemma_is_last_iff(x, i);
                        assert(value_eq(x[i].1, y[last_index_of(y, x[i].0)].1));
                    }
                }
                if entries_eq_upto(y, x, y.len()) {
                    assert forall|k: int| 0 <= k < x.len() && is_last_for_key(x, k) implies {
                        let j = last_index_of(y, x[k].0);
                        0 <= j < y.len() && value_eq(x[k].1, y[j].1)
                    } by {
                        lemma_last_index_of(x, x[k].0);
                        lemma_is_last_iff(x, k);
                        lemma_last_index_of(y, x[k].0);
                        let j = last_index_of(y, x[k].0);
                        assert(j >= 0);
                        lemma_is_last_iff(y, j);
                        assert(value_eq(y[j].1, x[last_index_of(x, y[j].0)].1));
                    }
                }
            }
        },
        _ => {},
    }
}

/// The index of the last entry whose key is `key`.
#[verifier::loop_isolation(false)]
pub fn find_last_entry(entries: &Vec<(String, Value)>, key: &str) -> (r: Option<usize>)
    ensures
        ({
            let m = entries_model(entries@, entries@.len());
            match r {
                Some(i) => i == last_index_of(m, key@),
                None => last_index_of(m, key@) == -1,
            }
        }),
{
    let ghost m = entries_model(entries@, entries@.len());
    proof {
        lemma_entries_model(entries@, entries@.len());
        lemma_last_index_of(m, key@);
    }
    let mut k = entries.len();
    while k > 0
        invariant
            k <= entries.len(),
            forall|j: int| k <= j < entries.len() ==> m[j].0 != key@,
        decreases k,
    {
        let s: &str = entries[k - 1].0.as_str();
        if str_equal(s, key) {
            proof {
                let i = last_index_of(m, key@);
                assert(m[k - 1].0 == key@);
                assert(i >= 0);
                assert(m[i].0 == key@);
                if i < k - 1 {
                    assert(is_last_for_key(m, i));
                    assert(m[k - 1].0 != m[i].0);
                }
            }
            return Some(k - 1);
        }
        k = k - 1;
    }
    None
}

/// Character-wise equality of two string slices.
pub fn str_equal(a: &str, b: &str) -> (r: bool)
    ensures
        r == (a@ == b@),
{
    let x = String::from_str(a);
    let y = String::from_str(b);
    x == y
}

/// Equality of values as `value_eq` defines it.
#[verifier::loop_isolation(false)]
pub fn values_equal(a: &Value, b: &Value) -> (r: bool)
    ensures
        r == value_eq(a@, b@),
    decreases *a,
{
    proof {
        lemma_value_model(*a);
        lemma_value_model(*b);
    }
    match (a, b) {
        (Value::Null, Value::Null) => true,
        (Value::Bool(x), Value::Bool(y)) => *x == *y,
        (Value::Number(x), Value::Number(y)) => f64_bits_eq(*x, *y),
        (Value::String(x), Value::String(y)) => str_equal(x.as_str(), y.as_str()),
        (Value::Array(x), Value::Array(y)) => {
            let ghost mx = items_model(x@, x@.len());
            let ghost my = items_model(y@, y@.len());
            if x.len() != y.len() {
                return false;
            }
            let n = x.len();
            let mut i: usize = 0;
            while i < n
                invariant
                    n == x.len(),
                    n == y.len(),
                    i <= n,
                    forall|k: int| 0 <= k < i ==> value_eq(mx[k], my[k]),
                decreases n - i,
            {
                proof {
                    assert(decreases_to!(*a => *x));
                    assert(decreases_to!(*x => x@));
                    assert(decreases_to!(x@ => x@[i as int]));
                }
                if !values_equal(&x[i], &y[i]) {
                    proof {
                        lemma_seq_eq_upto(mx, my, n as nat);
                        assert(!value_eq(mx[i as int], my[i as int]));
                    }
                    return false;
                }
                i = i + 1;
            }
            proof {
                lemma_seq_eq_upto(mx, my, n as nat);
            }
            true
        },
        (Value::Object(x), Value::Object(y)) => {
            let ghost mx = entries_model(x@, x@.len());
            let ghost my = entries_model(y@, y@.len());
            // every key of `y` is a key of `x`
            let m = y.len();
            let mut j: usize = 0;
            while j < m
                invariant
                    m == y.len(),
                    j <= m,
                    forall|k: int| 0 <= k < j ==> last_index_of(mx, #[trigger] my[k].0) >= 0,
                decreases m - j,
            {
                let found = find_last_entry(x, y[j].0.as_str());
                if found.is_none() {
                    proof {
                        lemma_last_index_of(mx, my[j as int].0);
                        lemma_last_index_of(my, my[j as int].0);
                    }
                    return false;
                }
                j = j + 1;
            }
            // every key of `x` is a key of `y`, with an equal value under it
            let n = x.len();
            let mut i: usize = 0;
            while i < n
                invariant
                    n == x.len(),
                    m == y.len(),
                    i <= n,
                    forall|k: int| 0 <= k < m ==> last_index_of(mx, #[trigger] my[k].0) >= 0,
                    forall|k: int| 0 <= k < i ==> last_index_of(my, #[trigger] mx[k].0) >= 0,
                    forall|k: int|
                        0 <= k < i && is_last_for_key(mx, k) ==> {
                            let jj = last_index_of(my, mx[k].0);
                            0 <= jj < my.len() && value_eq(mx[k].1, my[jj].1)
                        },
                decreases n - i,
            {
                let key: &str = x[i].0.as_str();
                let found = find_last_entry(y, key);
                match found {
                    None => {
                        proof {
                            lemma_last_index_of(mx, mx[i as int].0);
                            lemma_last_index_of(my, mx[i as int].0);
                        }
                        return false;
                    },
                    Some(jj) => {
                        let own = find_last_entry(x, key);
                        proof {
                            lemma_is_last_iff(mx, i as int);
                            lemma_last_index_of(my, mx[i as int].0);
                        }
                        if own == Some(i) {
                            proof {
                                assert(decreases_to!(*a => *x));
                                assert(decreases_to!(*x => x@));
                                assert(decreases_to!(x@ => x@[i as int]));
                                assert(decreases_to!(x@[i as int] => x@[i as int].1));
                            }
                            if !values_equal(&x[i].1, &y[jj].1) {
                                proof {
                                    lemma_entries_eq_upto(mx, my, n as nat);
                                    assert(is_last_for_key(mx, i as int));
                                    assert(!value_eq(mx[i as int].1, my[jj as int].1));
                                }
                                return false;
                            }
                        }
                    },
                }
                i = i + 1;
            }
            proof {
                lemma_entries_eq_upto(mx, my, n as nat);
                assert forall|k: Seq<char>|
                    entries_map(mx).dom().contains(k) <==> entries_map(my).dom().contains(k) by {
                    lemma_last_index_of(mx, k);
                    lemma_last_index_of(my, k);
                    if entries_map(mx).dom().contains(k) {
                        let ix = last_index_of(mx, k);
                        assert(mx[ix].0 == k);
                        assert(last_index_of(my, mx[ix].0) >= 0);
                    }
                    if entries_map(my).dom().contains(k) {
                        let iy = last_index_of(my, k);
                        assert(my[iy].0 == k);
                        assert(last_index_of(mx, my[iy].0) >= 0);
                    }
                }
                assert(entries_map(mx).dom() =~= entries_map(my).dom());
            }
            true
        },
        _ => false,
    }
}

// ---------------------------------------------------------------------
// Copies and accessors
// ---------------------------------------------------------------------

impl Clone for Value {
    #[verifier::loop_isolation(false)]
    fn clone(&self) -> (r: Self)
        ensures
            r@ == self@,
        decreases *self,
    {
        proof {
            lemma_value_model(*self);
        }
        match self {
            Value::Null => Value::Null,
            Value::Bool(b) => Value::Bool(*b),
            Value::Number(n) => Value::Number(*n),
            Value::String(s) => Value::String(s.clone()),
            Value::Array(items) => {
                let mut out: Vec<Value> = Vec::new();
                let mut i: usize = 0;
                while i < items.len()
                    invariant
                        i <= items.len(),
                        out@.len() == i,
                        forall|k: int| 0 <= k < i ==> #[trigger] out@[k]@ == items@[k]@,
                    decreases items.len() - i,
                {
                    proof {
                        assert(decreases_to!(*self => *items));
                        assert(decreases_to!(*items => items@));
                        assert(decreases_to!(items@ => items@[i as int]));
                    }
                    let item = items[i].clone();
                    out.push(item);
                    i = i + 1;
                }
                let r = Value::Array(out);
                proof {
                    lemma_value_model(r);
                                        assert(r@ == self@) by {
                        if let (ValueModel::Array(p), ValueModel::Array(q)) = (r@, self@) {
                            assert(p =~= q);
                        }
                    }
                }
                r
            },
            Value::Object(entries) => {
                let mut out: Vec<(String, Value)> = Vec::new();
                let mut i: usize = 0;
                while i < entries.len()
                    invariant
                        i <= entries.len(),
                        out@.len() == i,
                        forall|k: int|
                            0 <= k < i ==> #[trigger] out@[k].0@ == entries@[k].0@ && out@[k].1@
                                == entries@[k].1@,
                    decreases entries.len() - i,
                {
                    proof {
                        assert(decreases_to!(*self => *entries));
                        assert(decreases_to!(*entries => entries@));
                        assert(decreases_to!(entries@ => entries@[i as int]));
                        assert(decreases_to!(entries@[i as int] => entries@[i as int].1));
                    }
                    let key = entries[i].0.clone();
                    let val = entries[i].1.clone();
                    out.push((key, val));
                    i = i + 1;
                }
                let r = Value::Object(out);
                proof {
                    lemma_value_model(r);
                    assert(r@ == self@) by {
                        if let (ValueModel::Object(p), ValueModel::Object(q)) = (r@, self@) {
                            assert(p =~= q);
                        }
                    }
                }
                r
            },
        }
    }
}

impl Value {
    /// Whether the value is null.
    pub fn is_null(&self) -> (r: bool)
        ensures
            r == (*self is Null),
    {
        match self {
            Value::Null => true,
            _ => false,
        }
    }

    /// The boolean held, if the value is a bool.
    pub fn as_bool(&self) -> (r: Option<bool>)
        ensures
            r == (match *self {
                Value::Bool(b) => Some(b),
                _ => None::<bool>,
            }),
    {
        match self {
            Value::Bool(b) => Some(*b),
            _ => None,
        }
    }

    /// The bit pattern of the double held, if the value is a number.
    pub fn as_number(&self) -> (r: Option<u64>)
        ensures
            r == (match *self {
                Value::Number(n) => Some(n),
                _ => None::<u64>,
            }),
    {
        match self {
            Value::Number(n) => Some(*n),
            _ => None,
        }
    }

    /// The string held, if the value is a string.
    pub fn as_str(&self) -> (r: Option<&str>)
        ensures
            match *self {
                Value::String(s) => r is Some && r->0@ == s@,
                _ => r is None,
            },
    {
        match self {
            Value::String(s) => Some(s.as_str()),
            _ => None,
        }
    }

    /// The elements held, if the value is an array.
    pub fn as_array(&self) -> (r: Option<&Vec<Value>>)
        ensures
            match *self {
                Value::Array(v) => r == Some(&v),
                _ => r is None,
            },
    {
        match self {
            Value::Array(v) => Some(v),
            _ => None,
        }
    }

    /// The entries held, if the value is an object.
    pub fn as_object(&self) -> (r: Option<&Vec<(String, Value)>>)
        ensures
            match *self {
                Value::Object(e) => r == Some(&e),
                _ => r is None,
            },
    {
        match self {
            Value::Object(e) => Some(e),
            _ => None,
        }
    }

    /// The value under `key`, if the value is an object holding that key.
    pub fn get(&self, key: &str) -> (r: Option<&Value>)
        ensures
            match self@ {
                ValueModel::Object(m) => {
                    &&& r is Some <==> entries_map(m).dom().contains(key@)
                    &&& r is Some ==> r->0@ == entries_map(m)[key@]
                },
                _ => r is None,
            },
    {
        proof {
            lemma_value_model(*self);
        }
        match self {
            Value::Object(e) => {
                proof {
                    lemma_last_index_of(entries_model(e@, e@.len()), key@);
                }
                match find_last_entry(e, key) {
                    Some(i) => Some(&e[i].1),
                    None => None,
                }
            },
            _ => None,
        }
    }
}

impl From<bool> for Value {
    fn from(b: bool) -> (r: Value)
        ensures
            r == Value::Bool(b),
    {
        Value::Bool(b)
    }
}

impl vstd::std_specs::convert::FromSpecImpl<bool> for Value {
    open spec fn obeys_from_spec() -> bool {
        true
    }

    open spec fn from_spec(v: bool) -> Value {
        Value::Bool(v)
    }
}

impl From<String> for Value {
    fn from(s: String) -> (r: Value)
        ensures
            r == Value::String(s),
    {
        Value::String(s)
    }
}

impl vstd::std_specs::convert::FromSpecImpl<String> for Value {
    open spec fn obeys_from_spec() -> bool {
        true
    }

    open spec fn from_spec(v: String) -> Value {
        Value::String(v)
    }
}

impl From<i32> for Value {
    fn from(n: i32) -> (r: Value)
        ensures
            r == Value::Number(int_f64_bits(n as int) as u64),
    {
        Value::Number(i32_f64_bits(n))
    }
}

impl vstd::std_specs::convert::FromSpecImpl<i32> for Value {
    open spec fn obeys_from_spec() -> bool {
        true
    }

    open spec fn from_spec(v: i32) -> Value {
        Value::Number(int_f64_bits(v as int) as u64)
    }
}

impl PartialEq for Value {
    fn eq(&self, other: &Value) -> (r: bool) {
        values_equal(self, other)
    }
}

impl vstd::std_specs::cmp::PartialEqSpecImpl for Value {
    open spec fn obeys_eq_spec() -> bool {
        true
    }

    open spec fn eq_spec(&self, other: &Value) -> bool {
        value_eq(self@, other@)
    }
}

/// What equality of values compares: null equals null; two booleans, two
/// strings, are equal exactly when they are the same; two numbers are equal
/// as doubles (a NaN equals nothing, positive and negative zero are equal,
/// any other two are equal exactly when their bit patterns are); two
/// arrays exactly when they have the same length and equal elements at
/// each position; values of different kinds are never equal.
pub proof fn law_value_equality(a: ValueModel, b: ValueModel)
    ensures
        (a is Null && b is Null) ==> value_eq(a, b),
        (a is Bool && b is Bool) ==> (value_eq(a, b) <==> a->Bool_0 == b->Bool_0),
        (a is Str && b is Str) ==> (value_eq(a, b) <==> a->Str_0 == b->Str_0),
        (a is Number && b is Number) ==> (value_eq(a, b) <==> {
            let x = a->Number_0;
            let y = b->Number_0;
            let x_nan = x & 0x7FF0_0000_0000_0000u64 == 0x7FF0_0000_0000_0000u64 && x
                & 0x000F_FFFF_FFFF_FFFFu64 != 0;
            let y_nan = y & 0x7FF0_0000_0000_0000u64 == 0x7FF0_0000_0000_0000u64 && y
                & 0x000F_FFFF_FFFF_FFFFu64 != 0;
            &&& !x_nan
            &&& !y_nan
            &&& (x == y || (x & 0x7FFF_FFFF_FFFF_FFFFu64 == 0 && y & 0x7FFF_FFFF_FFFF_FFFFu64
                == 0))
        }),
        (a is Array && b is Array) ==> (value_eq(a, b) <==> {
            &&& a->Array_0.len() == b->Array_0.len()
            &&& forall|k: int|
                0 <= k < a->Array_0.len() ==> value_eq(a->Array_0[k], b->Array_0[k])
        }),
        !((a is Null && b is Null) || (a is Bool && b is Bool) || (a is Number && b is Number) || (
        a is Str && b is Str) || (a is Array && b is Array) || (a is Object && b is Object))
            ==> !value_eq(a, b),
{
    if let (ValueModel::Array(x), ValueModel::Array(y)) = (a, b) {
        if x.len() == y.len() {
            lemma_seq_eq_upto(x, y, x.len());
        }
    }
}

} // verus!
