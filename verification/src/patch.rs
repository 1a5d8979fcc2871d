//! A patch of the daemon's configuration: values keyed by distinct names.

use vstd::prelude::*;

use crate::json::field_views;

verus! {

/// No two fields carry the same key.
pub open spec fn keys_distinct(fields: Seq<(Seq<char>, Seq<char>)>) -> bool {
    forall|i: int, j: int| 0 <= i < j < fields.len() ==> fields[i].0 != fields[j].0
}

/// Some field carries the key.
pub open spec fn has_key(fields: Seq<(Seq<char>, Seq<char>)>, key: Seq<char>) -> bool {
    exists|i: int| 0 <= i < fields.len() && #[trigger] fields[i].0 == key
}

/// The place of a field that carries the key.
pub open spec fn key_index(fields: Seq<(Seq<char>, Seq<char>)>, key: Seq<char>) -> int {
    choose|i: int| 0 <= i < fields.len() && #[trigger] fields[i].0 == key
}

/// The fields after a value was set: it takes the place of the value of its
/// key, or the last place where no field had that key.
pub open spec fn with_field(
    fields: Seq<(Seq<char>, Seq<char>)>,
    key: Seq<char>,
    value: Seq<char>,
) -> Seq<(Seq<char>, Seq<char>)> {
    if has_key(fields, key) {
        fields.update(key_index(fields, key), (key, value))
    } else {
        fields.push((key, value))
    }
}

/// Among distinct keys a field is found at its own place.
pub proof fn lemma_key_index_unique(fields: Seq<(Seq<char>, Seq<char>)>, i: int)
    requires
        keys_distinct(fields),
        0 <= i < fields.len(),
    ensures
        has_key(fields, fields[i].0),
        key_index(fields, fields[i].0) == i,
{
    let key = fields[i].0;
    assert(fields[i].0 == key);
    let j = key_index(fields, key);
    assert(0 <= j < fields.len() && fields[j].0 == key);
    if j < i {
        assert(fields[j].0 != fields[i].0);
    } else if i < j {
        assert(fields[i].0 != fields[j].0);
    }
}

/// String values under distinct string keys, in the order in which the keys
/// were first set.
#[derive(Debug)]
pub struct ConfigPatch {
    fields: Vec<(String, String)>,
}

impl ConfigPatch {
    /// The fields in order.
    pub closed spec fn view(&self) -> Seq<(Seq<char>, Seq<char>)> {
        field_views(self.fields@)
    }

    /// The invariant of the type: the keys are distinct.
    pub open spec fn wf(&self) -> bool {
        keys_distinct(self@)
    }

    /// An empty one.
    pub fn new() -> (r: Self)
        ensures
            r.wf(),
            r@ == Seq::<(Seq<char>, Seq<char>)>::empty(),
    {
        let r = ConfigPatch { fields: Vec::new() };
        assert(r@ =~= Seq::<(Seq<char>, Seq<char>)>::empty());
        r
    }

    /// The number of entries.
    pub fn len(&self) -> (n: usize)
        ensures
            n == self@.len(),
    {
        self.fields.len()
    }

    /// The fields, for the encoder.
    pub fn fields(&self) -> (r: &Vec<(String, String)>)
        ensures
            field_views(r@) == self@,
    {
        &self.fields
    }

    /// A place that holds the key.
    fn position(&self, key: &String) -> (r: Option<usize>)
        ensures
            match r {
                Some(i) => i < self@.len() && self@[i as int].0 == key@,
                None => !has_key(self@, key@),
            },
    {
        let mut i: usize = 0;
        while i < self.fields.len()
            invariant
                i <= self.fields.len(),
                forall|k: int| 0 <= k < i ==> self@[k].0 != key@,
            decreases self.fields.len() - i,
        {
            if self.fields[i].0 == *key {
                assert(self@[i as int].0 == key@);
                return Some(i);
            }
            assert(self@[i as int].0 != key@);
            i += 1;
        }
        None
    }

    /// The value under a key.
    pub fn get(&self, key: &String) -> (r: Option<&String>)
        requires
            self.wf(),
        ensures
            r is Some <==> has_key(self@, key@),
            r is Some ==> r.unwrap()@ == self@[key_index(self@, key@)].1,
    {
        match self.position(key) {
            Some(i) => {
                proof {
                    lemma_key_index_unique(self@, i as int);
                }
                Some(&self.fields[i].1)
            },
            None => None,
        }
    }

    /// Sets the value under a key.
    pub fn insert(&mut self, key: String, value: String)
        requires
            old(self).wf(),
        ensures
            final(self).wf(),
            final(self)@ == with_field(old(self)@, key@, value@),
    {
        let ghost before = self@;
        let ghost k = key@;
        let ghost v = value@;
        match self.position(&key) {
            Some(i) => {
                proof {
                    lemma_key_index_unique(before, i as int);
                }
                self.fields.set(i, (key, value));
                assert(self@ =~= before.update(i as int, (k, v)));
            },
            None => {
                self.fields.push((key, value));
                assert(self@ =~= before.push((k, v)));
            },
        }
    }
}

} // verus!
