//! Named attributes of a remote state or of a service call.

use vstd::prelude::*;

verus! {

/// A decimal number: `mantissa` divided by ten to the power of `scale`.
#[derive(Debug, Clone, Copy, PartialEq, Eq, Structural)]
pub struct Decimal {
    pub mantissa: i64,
    pub scale: u8,
}

/// The value of one attribute: nothing, a truth value, a whole number, a
/// decimal number or a text. These are the values that the requests built
/// here carry. A value that holds further values, a list or a map, is not
/// among them and cannot be put into a set of attributes.
#[derive(Debug, PartialEq, Eq)]
pub enum Value {
    Null,
    Bool(bool),
    Integer(i64),
    Decimal(Decimal),
    Text(String),
}

/// What a [`Value`] says, with its text as a character sequence.
pub enum ValueView {
    Null,
    Bool(bool),
    Integer(i64),
    Decimal(Decimal),
    Text(Seq<char>),
}

impl View for Value {
    type V = ValueView;

    open spec fn view(&self) -> ValueView {
        match *self {
            Value::Null => ValueView::Null,
            Value::Bool(b) => ValueView::Bool(b),
            Value::Integer(i) => ValueView::Integer(i),
            Value::Decimal(d) => ValueView::Decimal(d),
            Value::Text(s) => ValueView::Text(s@),
        }
    }
}

impl Clone for Value {
    fn clone(&self) -> (copy: Self)
        ensures
            copy@ == self@,
    {
        match self {
            Value::Null => Value::Null,
            Value::Bool(b) => Value::Bool(*b),
            Value::Integer(i) => Value::Integer(*i),
            Value::Decimal(d) => Value::Decimal(*d),
            Value::Text(s) => Value::Text(s.clone()),
        }
    }
}

/// No two entries have the same key.
pub open spec fn keys_distinct(entries: Seq<(String, Value)>) -> bool {
    forall|i: int, j: int|
        0 <= i < j < entries.len() ==> (#[trigger] entries[i]).0@ != (#[trigger] entries[j]).0@
}

/// Whether some entry has the key.
pub open spec fn has_key(entries: Seq<(String, Value)>, key: Seq<char>) -> bool {
    exists|i: int| 0 <= i < entries.len() && (#[trigger] entries[i]).0@ == key
}

/// The position of an entry with the key, where there is one.
pub open spec fn position(entries: Seq<(String, Value)>, key: Seq<char>) -> int {
    choose|i: int| 0 <= i < entries.len() && (#[trigger] entries[i]).0@ == key
}

/// The mapping that the entries stand for.
pub open spec fn mapping(entries: Seq<(String, Value)>) -> Map<Seq<char>, ValueView> {
    Map::new(
        |key: Seq<char>| has_key(entries, key),
        |key: Seq<char>| entries[position(entries, key)].1@,
    )
}

/// A set of attributes: at most one value under each key.
#[derive(Debug)]
pub struct Attributes {
    entries: Vec<(String, Value)>,
}

impl View for Attributes {
    type V = Map<Seq<char>, ValueView>;

    closed spec fn view(&self) -> Map<Seq<char>, ValueView> {
        mapping(self.entries@)
    }
}

impl Attributes {
    #[verifier::type_invariant]
    spec fn well_formed(self) -> bool {
        keys_distinct(self.entries@)
    }

    /// No attributes.
    pub fn new() -> (attributes: Self)
        ensures
            attributes@ == Map::<Seq<char>, ValueView>::empty(),
    {
        let attributes = Attributes { entries: Vec::new() };
        assert(attributes@ =~= Map::<Seq<char>, ValueView>::empty());
        attributes
    }

    /// The position of the entry with the key, if there is one.
    fn find(&self, key: &String) -> (found: Option<usize>)
        ensures
            found is Some <==> has_key(self.entries@, key@),
            found matches Some(i) ==> i < self.entries@.len() && self.entries@[i as int].0@
                == key@,
    {
        let n: usize = self.entries.len();
        let mut i: usize = 0;
        while i < n
            invariant
                n == self.entries@.len(),
                i <= n,
                forall|k: int| 0 <= k < i ==> (#[trigger] self.entries@[k]).0@ != key@,
            decreases n - i,
        {
            if self.entries[i].0 == *key {
                return Some(i);
            }
            i += 1;
        }
        None
    }

    /// Puts `value` under `key`, in place of what was there.
    pub fn set(self, key: &str, value: Value) -> (attributes: Self)
        ensures
            attributes@ == self@.insert(key@, value@),
    {
        proof {
            use_type_invariant(&self);
        }
        let ghost before = self.entries@;
        let key = key.to_owned();
        let found = self.find(&key);
        let mut entries = self.entries;
        match found {
            Some(i) => {
                entries.set(i, (key, value));
            },
            None => {
                entries.push((key, value));
            },
        }
        proof {
            let after = entries@;
            let slot = match found {
                Some(i) => i as int,
                None => after.len() - 1,
            };
            assert(after[slot].0@ == key@);
            assert forall|k: Seq<char>| has_key(after, k) <==> (k == key@ || has_key(before, k)) by {
                if has_key(before, k) {
                    assert(after[position(before, k)].0@ == k);
                }
                if has_key(after, k) && k != key@ {
                    assert(before[position(after, k)].0@ == k);
                }
            }
            assert forall|k: Seq<char>| has_key(after, k) implies (#[trigger] mapping(after)[k])
                == mapping(before).insert(key@, value@)[k] by {
                let p = position(after, k);
                if k != key@ {
                    assert(before[p].0@ == k);
                    assert(p == position(before, k));
                } else {
                    assert(p == slot);
                }
            }
            assert(mapping(after) =~= mapping(before).insert(key@, value@));
        }
        Attributes { entries }
    }

    /// The value under `key`, if there is one.
    pub fn get(&self, key: &str) -> (value: Option<&Value>)
        ensures
            value is Some <==> self@.contains_key(key@),
            value matches Some(v) ==> v@ == self@[key@],
    {
        proof {
            use_type_invariant(self);
        }
        let key = key.to_owned();
        match self.find(&key) {
            Some(i) => {
                proof {
                    let p = position(self.entries@, key@);
                    assert(self.entries@[i as int].0@ == key@);
                    assert(p == i);
                }
                Some(&self.entries[i].1)
            },
            None => None,
        }
    }

    /// The number of attributes.
    pub fn len(&self) -> (n: usize)
        ensures
            n == self@.dom().len(),
            self@.dom().finite(),
    {
        proof {
            use_type_invariant(self);
            domain_size(self.entries@);
        }
        self.entries.len()
    }

    /// Gives up the attributes as pairs of key and value, each key once.
    pub fn into_entries(self) -> (entries: Vec<(String, Value)>)
        ensures
            keys_distinct(entries@),
            mapping(entries@) == self@,
    {
        proof {
            use_type_invariant(&self);
        }
        self.entries
    }
}

/// Entries with distinct keys stand for a mapping with as many keys.
proof fn domain_size(entries: Seq<(String, Value)>)
    requires
        keys_distinct(entries),
    ensures
        mapping(entries).dom().finite(),
        mapping(entries).dom().len() == entries.len(),
    decreases entries.len(),
{
    if entries.len() == 0 {
        assert(mapping(entries).dom() =~= Set::<Seq<char>>::empty());
    } else {
        let earlier = entries.drop_last();
        let key = entries.last().0@;
        assert(keys_distinct(earlier)) by {
            assert forall|i: int, j: int| 0 <= i < j < earlier.len() implies (
            #[trigger] earlier[i]).0@ != (#[trigger] earlier[j]).0@ by {
                assert(entries[i] == earlier[i] && entries[j] == earlier[j]);
            }
        }
        domain_size(earlier);
        assert(entries[entries.len() - 1].0@ == key);
        assert forall|k: Seq<char>| has_key(entries, k) <==> (k == key || has_key(earlier, k)) by {
            if has_key(earlier, k) {
                assert(entries[position(earlier, k)].0@ == k);
            }
            if has_key(entries, k) && k != key {
                assert(earlier[position(entries, k)].0@ == k);
            }
        }
        assert(!has_key(earlier, key)) by {
            if has_key(earlier, key) {
                assert(entries[position(earlier, key)].0@ == key);
            }
        }
        assert(mapping(entries).dom() =~= mapping(earlier).dom().insert(key));
    }
}

} // verus!
