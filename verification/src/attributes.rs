//! The attribute map: a mutable mapping from UTF-8 byte-string keys to typed
//! scalar values, held by the caller through a nullable handle.
//!
//! A set operation succeeds only when the handle is live and every string
//! argument is well-formed UTF-8; on success it inserts or overwrites the
//! key (last write wins), and on failure it leaves the map untouched.

use vstd::prelude::*;

use crate::utf8::bytes_eq;
use crate::utf8::is_utf8;
use crate::utf8::utf8_valid;

verus! {

/// One typed scalar value of an attribute map.
///
/// A double travels through this boundary as its IEEE-754 bit pattern: the
/// boundary only stores and forwards it, it never computes with it.
#[derive(Debug, PartialEq)]
pub enum AttrValue {
    Int(i64),
    UInt(u64),
    Double(u64),
    Str(Vec<u8>),
    Bool(bool),
}

/// The mathematical value of an [`AttrValue`].
pub enum AttrValueView {
    Int(i64),
    UInt(u64),
    Double(u64),
    Str(Seq<u8>),
    Bool(bool),
}

impl View for AttrValue {
    type V = AttrValueView;

    open spec fn view(&self) -> AttrValueView {
        match self {
            AttrValue::Int(v) => AttrValueView::Int(*v),
            AttrValue::UInt(v) => AttrValueView::UInt(*v),
            AttrValue::Double(v) => AttrValueView::Double(*v),
            AttrValue::Str(v) => AttrValueView::Str(v@),
            AttrValue::Bool(v) => AttrValueView::Bool(*v),
        }
    }
}

struct AttrEntry {
    key: Vec<u8>,
    value: AttrValue,
}

/// A mapping from byte-string keys to typed values, owned as one heap value
/// and referenced by one handle.
pub struct Attributes {
    entries: Vec<AttrEntry>,
}

/// The map described by a sequence of key/value pairs, later pairs winning.
spec fn entries_map(s: Seq<(Seq<u8>, AttrValueView)>) -> Map<Seq<u8>, AttrValueView>
    decreases s.len(),
{
    if s.len() == 0 {
        Map::empty()
    } else {
        entries_map(s.drop_last()).insert(s.last().0, s.last().1)
    }
}

/// No two pairs of `s` share a key.
spec fn unique_keys(s: Seq<(Seq<u8>, AttrValueView)>) -> bool {
    forall|i: int, j: int|
        #![trigger s[i], s[j]]
        0 <= i < j < s.len() ==> s[i].0 != s[j].0
}

impl Attributes {
    spec fn entry_seq(self) -> Seq<(Seq<u8>, AttrValueView)> {
        Seq::new(self.entries@.len(), |i: int| (self.entries@[i].key@, self.entries@[i].value@))
    }

    /// Well-formedness: keys are distinct, and every key and every stored
    /// string value is well-formed UTF-8.
    pub closed spec fn wf(self) -> bool {
        &&& unique_keys(self.entry_seq())
        &&& forall|i: int|
            #![trigger self.entry_seq()[i]]
            0 <= i < self.entry_seq().len() ==> {
                &&& is_utf8(self.entry_seq()[i].0)
                &&& (self.entry_seq()[i].1 matches AttrValueView::Str(v) ==> is_utf8(v))
            }
    }
}

impl View for Attributes {
    type V = Map<Seq<u8>, AttrValueView>;

    closed spec fn view(&self) -> Map<Seq<u8>, AttrValueView> {
        entries_map(self.entry_seq())
    }
}

proof fn lemma_entries_map_not_contains(s: Seq<(Seq<u8>, AttrValueView)>, k: Seq<u8>)
    requires
        forall|i: int| #![trigger s[i]] 0 <= i < s.len() ==> s[i].0 != k,
    ensures
        !entries_map(s).dom().contains(k),
    decreases s.len(),
{
    if s.len() > 0 {
        lemma_entries_map_not_contains(s.drop_last(), k);
    }
}

proof fn lemma_entries_map_at(s: Seq<(Seq<u8>, AttrValueView)>, i: int)
    requires
        unique_keys(s),
        0 <= i < s.len(),
    ensures
        entries_map(s).dom().contains(s[i].0),
        entries_map(s)[s[i].0] == s[i].1,
    decreases s.len(),
{
    if i < s.len() - 1 {
        lemma_entries_map_at(s.drop_last(), i);
    }
}

proof fn lemma_entries_map_update(s: Seq<(Seq<u8>, AttrValueView)>, i: int, v: AttrValueView)
    requires
        unique_keys(s),
        0 <= i < s.len(),
    ensures
        entries_map(s.update(i, (s[i].0, v))) == entries_map(s).insert(s[i].0, v),
    decreases s.len(),
{
    let t = s.update(i, (s[i].0, v));
    if i == s.len() - 1 {
        assert(t.drop_last() =~= s.drop_last());
        assert(entries_map(t) =~= entries_map(s).insert(s[i].0, v));
    } else {
        lemma_entries_map_update(s.drop_last(), i, v);
        assert(t.drop_last() =~= s.drop_last().update(i, (s[i].0, v)));
        assert(entries_map(t) =~= entries_map(s).insert(s[i].0, v));
    }
}

proof fn lemma_entries_map_len(s: Seq<(Seq<u8>, AttrValueView)>)
    requires
        unique_keys(s),
    ensures
        entries_map(s).dom().finite(),
        entries_map(s).dom().len() == s.len(),
    decreases s.len(),
{
    if s.len() > 0 {
        lemma_entries_map_len(s.drop_last());
        lemma_entries_map_not_contains(s.drop_last(), s.last().0);
    }
}

impl Attributes {
    /// The position of `key` among the entries, if it is present.
    fn find_key(&self, key: &Vec<u8>) -> (r: Option<usize>)
        ensures
            match r {
                Some(i) => i < self.entry_seq().len() && self.entry_seq()[i as int].0 == key@,
                None => forall|i: int|
                    #![trigger self.entry_seq()[i]]
                    0 <= i < self.entry_seq().len() ==> self.entry_seq()[i].0 != key@,
            },
    {
        let n = self.entries.len();
        let mut i: usize = 0;
        while i < n
            invariant
                i <= n,
                n == self.entries@.len(),
                forall|j: int|
                    #![trigger self.entry_seq()[j]]
                    0 <= j < i ==> self.entry_seq()[j].0 != key@,
            decreases n - i,
        {
            if bytes_eq(&self.entries[i].key, key) {
                return Some(i);
            }
            i = i + 1;
        }
        None
    }

    /// Inserts or overwrites `key`, so that the map afterwards is the old
    /// map with `key` bound to `value`.
    fn set(&mut self, key: Vec<u8>, value: AttrValue)
        requires
            old(self).wf(),
            is_utf8(key@),
            value@ matches AttrValueView::Str(v) ==> is_utf8(v),
        ensures
            final(self).wf(),
            final(self)@ == old(self)@.insert(key@, value@),
    {
        let ghost s = self.entry_seq();
        match self.find_key(&key) {
            Some(i) => {
                let e = &mut self.entries[i];
                e.value = value;
                proof {
                    let t = self.entry_seq();
                    assert(t =~= s.update(i as int, (s[i as int].0, value@)));
                    lemma_entries_map_update(s, i as int, value@);
                    assert forall|a: int, b: int|
                        #![trigger t[a], t[b]]
                        0 <= a < b < t.len() implies t[a].0 != t[b].0 by {
                        assert(s[a].0 != s[b].0);
                    }
                    assert forall|a: int| #![trigger t[a]] 0 <= a < t.len() implies {
                        &&& is_utf8(t[a].0)
                        &&& (t[a].1 matches AttrValueView::Str(v) ==> is_utf8(v))
                    } by {
                        assert(t[a].0 == s[a].0);
                    }
                }
            }
            None => {
                self.entries.push(AttrEntry { key, value });
                proof {
                    let t = self.entry_seq();
                    assert(t.drop_last() =~= s);
                    assert(t.last() == (key@, value@));
                    assert forall|a: int, b: int|
                        #![trigger t[a], t[b]]
                        0 <= a < b < t.len() implies t[a].0 != t[b].0 by {
                        if b < t.len() - 1 {
                            assert(s[a].0 != s[b].0);
                        } else {
                            assert(s[a].0 != key@);
                        }
                    }
                    assert forall|a: int| #![trigger t[a]] 0 <= a < t.len() implies {
                        &&& is_utf8(t[a].0)
                        &&& (t[a].1 matches AttrValueView::Str(v) ==> is_utf8(v))
                    } by {
                        if a < t.len() - 1 {
                            assert(t[a] == s[a]);
                        }
                    }
                }
            }
        }
    }

    /// How many keys the map holds.
    pub fn len(&self) -> (r: usize)
        requires
            self.wf(),
        ensures
            r == self@.dom().len(),
    {
        proof {
            lemma_entries_map_len(self.entry_seq());
        }
        self.entries.len()
    }

    /// The value stored under `key`, if any.
    pub fn get(&self, key: &Vec<u8>) -> (r: Option<&AttrValue>)
        requires
            self.wf(),
        ensures
            match r {
                Some(v) => self@.dom().contains(key@) && v@ == self@[key@],
                None => !self@.dom().contains(key@),
            },
    {
        match self.find_key(key) {
            Some(i) => {
                proof {
                    lemma_entries_map_at(self.entry_seq(), i as int);
                }
                Some(&self.entries[i].value)
            }
            None => {
                proof {
                    lemma_entries_map_not_contains(self.entry_seq(), key@);
                }
                None
            }
        }
    }
}

/// Creates an empty attribute map; this always succeeds.
pub fn nrt_attributes_new() -> (r: Option<Attributes>)
    ensures
        r matches Some(a) && a.wf() && a@ == Map::<Seq<u8>, AttrValueView>::empty(),
{
    Some(Attributes { entries: Vec::new() })
}

/// Stores `value` under `key`. Fails, leaving the map untouched, when the
/// map handle or the key is null or the key is malformed UTF-8.
fn nrt_attributes_set(attributes: &mut Option<Attributes>, key: Option<Vec<u8>>, value: AttrValue) -> (r: bool)
    requires
        (*old(attributes)) matches Some(a) ==> a.wf(),
        value@ matches AttrValueView::Str(v) ==> is_utf8(v),
    ensures
        r == ((*old(attributes)) is Some && key is Some && is_utf8(key->0@)),
        r ==> ((*final(attributes)) matches Some(a) && a.wf() && a@ == (*old(
            attributes,
        ))->0@.insert(key->0@, value@)),
        !r ==> *final(attributes) == *old(attributes),
{
    match key {
        None => false,
        Some(k) => {
            match attributes {
                None => false,
                Some(a) => {
                    if utf8_valid(&k) {
                        a.set(k, value);
                        true
                    } else {
                        false
                    }
                }
            }
        }
    }
}

/// Stores a signed 64-bit integer under `key`.
pub fn nrt_attributes_set_int(attributes: &mut Option<Attributes>, key: Option<Vec<u8>>, value: i64) -> (r: bool)
    requires
        (*old(attributes)) matches Some(a) ==> a.wf(),
    ensures
        r == ((*old(attributes)) is Some && key is Some && is_utf8(key->0@)),
        r ==> ((*final(attributes)) matches Some(a) && a.wf() && a@ == (*old(
            attributes,
        ))->0@.insert(key->0@, AttrValueView::Int(value))),
        !r ==> *final(attributes) == *old(attributes),
{
    nrt_attributes_set(attributes, key, AttrValue::Int(value))
}

/// Stores an unsigned 64-bit integer under `key`.
pub fn nrt_attributes_set_uint(attributes: &mut Option<Attributes>, key: Option<Vec<u8>>, value: u64) -> (r: bool)
    requires
        (*old(attributes)) matches Some(a) ==> a.wf(),
    ensures
        r == ((*old(attributes)) is Some && key is Some && is_utf8(key->0@)),
        r ==> ((*final(attributes)) matches Some(a) && a.wf() && a@ == (*old(
            attributes,
        ))->0@.insert(key->0@, AttrValueView::UInt(value))),
        !r ==> *final(attributes) == *old(attributes),
{
    nrt_attributes_set(attributes, key, AttrValue::UInt(value))
}

/// Stores a double, given as its IEEE-754 bit pattern, under `key`.
pub fn nrt_attributes_set_double(attributes: &mut Option<Attributes>, key: Option<Vec<u8>>, value_bits: u64) -> (r: bool)
    requires
        (*old(attributes)) matches Some(a) ==> a.wf(),
    ensures
        r == ((*old(attributes)) is Some && key is Some && is_utf8(key->0@)),
        r ==> ((*final(attributes)) matches Some(a) && a.wf() && a@ == (*old(
            attributes,
        ))->0@.insert(key->0@, AttrValueView::Double(value_bits))),
        !r ==> *final(attributes) == *old(attributes),
{
    nrt_attributes_set(attributes, key, AttrValue::Double(value_bits))
}

/// Stores a byte-string value under `key`. Fails as the other set
/// operations do, and also when the value is null or malformed UTF-8.
pub fn nrt_attributes_set_string(attributes: &mut Option<Attributes>, key: Option<Vec<u8>>, value: Option<Vec<u8>>) -> (r: bool)
    requires
        (*old(attributes)) matches Some(a) ==> a.wf(),
    ensures
        r == ((*old(attributes)) is Some && key is Some && is_utf8(key->0@) && value is Some
            && is_utf8(value->0@)),
        r ==> ((*final(attributes)) matches Some(a) && a.wf() && a@ == (*old(
            attributes,
        ))->0@.insert(key->0@, AttrValueView::Str(value->0@))),
        !r ==> *final(attributes) == *old(attributes),
{
    match value {
        None => false,
        Some(v) => {
            if utf8_valid(&v) {
                nrt_attributes_set(attributes, key, AttrValue::Str(v))
            } else {
                false
            }
        }
    }
}

/// Stores a boolean under `key`.
pub fn nrt_attributes_set_bool(attributes: &mut Option<Attributes>, key: Option<Vec<u8>>, value: bool) -> (r: bool)
    requires
        (*old(attributes)) matches Some(a) ==> a.wf(),
    ensures
        r == ((*old(attributes)) is Some && key is Some && is_utf8(key->0@)),
        r ==> ((*final(attributes)) matches Some(a) && a.wf() && a@ == (*old(
            attributes,
        ))->0@.insert(key->0@, AttrValueView::Bool(value))),
        !r ==> *final(attributes) == *old(attributes),
{
    nrt_attributes_set(attributes, key, AttrValue::Bool(value))
}

/// Frees the attribute map and nulls the caller's handle; a safe no-op on a
/// handle that is already null.
pub fn nrt_attributes_destroy(attributes: &mut Option<Attributes>)
    ensures
        (*final(attributes)) is None,
{
    *attributes = None;
}

/// The map that a sequence of successful set operations leaves behind when
/// applied to `m` in order: each successful set of key `k` to value `v`
/// turns the map into `m.insert(k, v)`, as the set operations above ensure.
pub open spec fn apply_sets(
    m: Map<Seq<u8>, AttrValueView>,
    ops: Seq<(Seq<u8>, AttrValueView)>,
) -> Map<Seq<u8>, AttrValueView>
    decreases ops.len(),
{
    if ops.len() == 0 {
        m
    } else {
        apply_sets(m, ops.drop_last()).insert(ops.last().0, ops.last().1)
    }
}

/// The set of distinct keys that a sequence of set operations writes.
pub open spec fn op_keys(ops: Seq<(Seq<u8>, AttrValueView)>) -> Set<Seq<u8>>
    decreases ops.len(),
{
    if ops.len() == 0 {
        Set::empty()
    } else {
        op_keys(ops.drop_last()).insert(ops.last().0)
    }
}

/// Law: last write wins. After any non-empty sequence of successful set
/// operations that all write the same key, the value stored under that key
/// is the value of the last operation.
pub proof fn lemma_last_write_wins(
    m: Map<Seq<u8>, AttrValueView>,
    ops: Seq<(Seq<u8>, AttrValueView)>,
    k: Seq<u8>,
)
    requires
        ops.len() > 0,
        forall|i: int| #![trigger ops[i]] 0 <= i < ops.len() ==> ops[i].0 == k,
    ensures
        apply_sets(m, ops).dom().contains(k),
        apply_sets(m, ops)[k] == ops.last().1,
{
    assert(ops.last().0 == k);
}

proof fn lemma_apply_sets_dom(m: Map<Seq<u8>, AttrValueView>, ops: Seq<(Seq<u8>, AttrValueView)>)
    ensures
        apply_sets(m, ops).dom() == m.dom().union(op_keys(ops)),
    decreases ops.len(),
{
    if ops.len() == 0 {
        assert(apply_sets(m, ops).dom() =~= m.dom().union(op_keys(ops)));
    } else {
        lemma_apply_sets_dom(m, ops.drop_last());
        assert(apply_sets(m, ops).dom() =~= m.dom().union(op_keys(ops)));
    }
}

proof fn lemma_op_keys_len(ops: Seq<(Seq<u8>, AttrValueView)>)
    ensures
        op_keys(ops).finite(),
        op_keys(ops).len() <= ops.len(),
    decreases ops.len(),
{
    if ops.len() > 0 {
        lemma_op_keys_len(ops.drop_last());
        vstd::set::axiom_set_insert_len(op_keys(ops.drop_last()), ops.last().0);
    }
}

/// Law: the key count of a map built by any sequence of successful set
/// operations equals the number of distinct keys written, and so never
/// exceeds the number of set operations.
pub proof fn lemma_key_count(ops: Seq<(Seq<u8>, AttrValueView)>)
    ensures
        apply_sets(Map::empty(), ops).dom().finite(),
        apply_sets(Map::empty(), ops).dom().len() == op_keys(ops).len(),
        apply_sets(Map::empty(), ops).dom().len() <= ops.len(),
{
    lemma_apply_sets_dom(Map::empty(), ops);
    lemma_op_keys_len(ops);
    assert(Map::<Seq<u8>, AttrValueView>::empty().dom().union(op_keys(ops)) =~= op_keys(ops));
}

} // verus!
