use vstd::prelude::*;

use crate::error::Error;
use crate::text::str_eq;

verus! {

/// A property-list value: the tagged sum that GrandSlam payloads are made of.
#[derive(Debug)]
pub enum PlistValue {
    Str(String),
    Integer(i64),
    Boolean(bool),
    Data(Vec<u8>),
    /// An ISO-8601 timestamp, kept as its text.
    Date(String),
    Array(Vec<PlistValue>),
    Dict(PlistDict),
}

/// A property-list dictionary: entries in insertion order. A key bound more
/// than once reads as its last binding, as a map that replaces on insert.
#[derive(Debug)]
pub struct PlistDict {
    pub entries: Vec<(String, PlistValue)>,
}

/// The value bound to `k` in a list of entries (its last binding).
pub open spec fn entries_get(es: Seq<(String, PlistValue)>, k: Seq<char>) -> Option<PlistValue>
    decreases es.len(),
{
    if es.len() == 0 {
        None
    } else if es.last().0@ == k {
        Some(es.last().1)
    } else {
        entries_get(es.drop_last(), k)
    }
}

/// The string bound to `k`, if `k` is bound to a string.
pub open spec fn str_at(d: PlistDict, k: Seq<char>) -> Option<Seq<char>> {
    match d.spec_get(k) {
        Some(PlistValue::Str(s)) => Some(s@),
        _ => None,
    }
}

/// The bytes bound to `k`, if `k` is bound to data.
pub open spec fn data_at(d: PlistDict, k: Seq<char>) -> Option<Seq<u8>> {
    match d.spec_get(k) {
        Some(PlistValue::Data(b)) => Some(b@),
        _ => None,
    }
}

/// The integer bound to `k`, if `k` is bound to an integer.
pub open spec fn int_at(d: PlistDict, k: Seq<char>) -> Option<i64> {
    match d.spec_get(k) {
        Some(PlistValue::Integer(i)) => Some(i),
        _ => None,
    }
}

/// The dictionary bound to `k`, if `k` is bound to a dictionary.
pub open spec fn dict_at(d: PlistDict, k: Seq<char>) -> Option<PlistDict> {
    match d.spec_get(k) {
        Some(PlistValue::Dict(s)) => Some(s),
        _ => None,
    }
}

/// The boolean bound to `k`, if `k` is bound to a boolean.
pub open spec fn bool_at(d: PlistDict, k: Seq<char>) -> Option<bool> {
    match d.spec_get(k) {
        Some(PlistValue::Boolean(b)) => Some(b),
        _ => None,
    }
}

impl PlistDict {
    pub open spec fn spec_get(self, k: Seq<char>) -> Option<PlistValue> {
        entries_get(self.entries@, k)
    }

    /// Whether the key list of `self` is exactly `keys`, in order.
    pub open spec fn has_keys(self, keys: Seq<Seq<char>>) -> bool {
        &&& self.entries@.len() == keys.len()
        &&& forall|i: int| 0 <= i < keys.len() ==> #[trigger] self.entries@[i].0@ == keys[i]
    }

    pub fn new() -> (r: PlistDict)
        ensures
            r.entries@.len() == 0,
            forall|k: Seq<char>| r.spec_get(k).is_none(),
    {
        PlistDict { entries: Vec::new() }
    }

    /// Binds `key` to `value`; a later lookup of `key` sees `value`, other keys are untouched.
    pub fn insert(&mut self, key: String, value: PlistValue)
        ensures
            final(self).entries@ == old(self).entries@.push((key, value)),
            final(self).spec_get(key@) == Some(value),
            forall|k: Seq<char>| k != key@ ==> final(self).spec_get(k) == old(self).spec_get(k),
    {
        self.entries.push((key, value));
        proof {
            assert(self.entries@.drop_last() =~= old(self).entries@);
        }
    }

    /// Looks `key` up.
    pub fn get(&self, key: &str) -> (r: Option<&PlistValue>)
        ensures
            match r {
                Some(v) => self.spec_get(key@) == Some(*v),
                None => self.spec_get(key@).is_none(),
            },
    {
        let mut i: usize = self.entries.len();
        assert(self.entries@.subrange(0, i as int) =~= self.entries@);
        while i > 0
            invariant
                i <= self.entries@.len(),
                self.spec_get(key@) == entries_get(self.entries@.subrange(0, i as int), key@),
            decreases i,
        {
            let ghost prefix = self.entries@.subrange(0, i as int);
            assert(prefix.drop_last() =~= self.entries@.subrange(0, i - 1));
            if str_eq(self.entries[i - 1].0.as_str(), key) {
                return Some(&self.entries[i - 1].1);
            }
            i = i - 1;
        }
        None
    }

    pub fn get_str(&self, key: &str) -> (r: Result<&String, Error>)
        ensures
            match str_at(*self, key@) {
                Some(s) => r is Ok && r->Ok_0@ == s,
                None => r is Err && r->Err_0 is ParseProtocol && r->Err_0->ParseProtocol_0@ == key@,
            },
    {
        match self.get(key) {
            Some(PlistValue::Str(s)) => Ok(s),
            _ => Err(Error::ParseProtocol(crate::text::owned(key))),
        }
    }

    pub fn get_data(&self, key: &str) -> (r: Result<&Vec<u8>, Error>)
        ensures
            match data_at(*self, key@) {
                Some(b) => r is Ok && r->Ok_0@ == b,
                None => r is Err && r->Err_0 is ParseProtocol && r->Err_0->ParseProtocol_0@ == key@,
            },
    {
        match self.get(key) {
            Some(PlistValue::Data(b)) => Ok(b),
            _ => Err(Error::ParseProtocol(crate::text::owned(key))),
        }
    }

    pub fn get_signed_integer(&self, key: &str) -> (r: Result<i64, Error>)
        ensures
            match int_at(*self, key@) {
                Some(i) => r == Ok::<i64, Error>(i),
                None => r is Err && r->Err_0 is ParseProtocol && r->Err_0->ParseProtocol_0@ == key@,
            },
    {
        match self.get(key) {
            Some(PlistValue::Integer(i)) => Ok(*i),
            _ => Err(Error::ParseProtocol(crate::text::owned(key))),
        }
    }

    pub fn get_dict(&self, key: &str) -> (r: Result<&PlistDict, Error>)
        ensures
            match dict_at(*self, key@) {
                Some(d) => r is Ok && *r->Ok_0 == d,
                None => r is Err && r->Err_0 is ParseProtocol && r->Err_0->ParseProtocol_0@ == key@,
            },
    {
        match self.get(key) {
            Some(PlistValue::Dict(d)) => Ok(d),
            _ => Err(Error::ParseProtocol(crate::text::owned(key))),
        }
    }

    pub fn get_bool(&self, key: &str) -> (r: Result<bool, Error>)
        ensures
            match bool_at(*self, key@) {
                Some(b) => r == Ok::<bool, Error>(b),
                None => r is Err && r->Err_0 is ParseProtocol && r->Err_0->ParseProtocol_0@ == key@,
            },
    {
        match self.get(key) {
            Some(PlistValue::Boolean(b)) => Ok(*b),
            _ => Err(Error::ParseProtocol(crate::text::owned(key))),
        }
    }
}

/// The dictionary bound to `key`, taken out of `d`.
pub fn take_dict(d: PlistDict, key: &str) -> (r: Result<PlistDict, Error>)
    ensures
        match dict_at(d, key@) {
            Some(v) => r matches Ok(x) && x == v,
            None => r matches Err(Error::ParseProtocol(k)) && k@ == key@,
        },
{
    let mut entries = d.entries;
    let mut i: usize = entries.len();
    assert(entries@.subrange(0, i as int) =~= entries@);
    while i > 0
        invariant
            i <= entries@.len(),
            entries@ == d.entries@,
            dict_at(d, key@) == match entries_get(entries@.subrange(0, i as int), key@) {
                Some(PlistValue::Dict(s)) => Some(s),
                _ => None,
            },
        decreases i,
    {
        let ghost prefix = entries@.subrange(0, i as int);
        assert(prefix.drop_last() =~= entries@.subrange(0, i - 1));
        if str_eq(entries[i - 1].0.as_str(), key) {
            let (_, v) = entries.swap_remove(i - 1);
            return match v {
                PlistValue::Dict(x) => Ok(x),
                _ => Err(Error::ParseProtocol(crate::text::owned(key))),
            };
        }
        i = i - 1;
    }
    Err(Error::ParseProtocol(crate::text::owned(key)))
}

/// Entry `i` of `d` binds `k` to `v`.
pub open spec fn entry_is(d: PlistDict, i: int, k: Seq<char>, v: PlistValue) -> bool {
    0 <= i < d.entries@.len() && d.entries@[i].0@ == k && d.entries@[i].1 == v
}

/// Entry `i` of `d` binds `k` to a string whose characters are `s`.
pub open spec fn str_entry_is(d: PlistDict, i: int, k: Seq<char>, s: Seq<char>) -> bool {
    &&& 0 <= i < d.entries@.len()
    &&& d.entries@[i].0@ == k
    &&& d.entries@[i].1 matches PlistValue::Str(x) && x@ == s
}

/// Entry `i` of `d` binds `k` to a dictionary.
pub open spec fn dict_entry(d: PlistDict, i: int, k: Seq<char>) -> Option<PlistDict> {
    if 0 <= i < d.entries@.len() && d.entries@[i].0@ == k {
        match d.entries@[i].1 {
            PlistValue::Dict(x) => Some(x),
            _ => None,
        }
    } else {
        None
    }
}

/// Appends `k` bound to the string `v`.
pub fn push_str(d: &mut PlistDict, k: &str, v: &str)
    ensures
        final(d).entries@.len() == old(d).entries@.len() + 1,
        forall|i: int| 0 <= i < old(d).entries@.len() ==> final(d).entries@[i] == old(d).entries@[i],
        str_entry_is(*final(d), old(d).entries@.len() as int, k@, v@),
{
    d.insert(crate::text::owned(k), PlistValue::Str(crate::text::owned(v)));
}

/// Appends `k` bound to `v`.
pub fn push_value(d: &mut PlistDict, k: &str, v: PlistValue)
    ensures
        final(d).entries@.len() == old(d).entries@.len() + 1,
        forall|i: int| 0 <= i < old(d).entries@.len() ==> final(d).entries@[i] == old(d).entries@[i],
        entry_is(*final(d), old(d).entries@.len() as int, k@, v),
{
    d.insert(crate::text::owned(k), v);
}

} // verus!
