//! Dimensional attributes attached to metric events.
//!
//! An [`AttributeSet`] is an immutable, ordered list of key/value deltas.
//! Extending a set only appends deltas; the effective attributes of a set are
//! the *flattened* map in which, on a key collision, the latest-applied delta
//! wins. The spec function [`flat`] is that map.

use vstd::prelude::*;

verus! {

/// A dynamically-typed attribute value: a closed sum of exactly the value
/// kinds an event may carry.
#[derive(Debug, Clone, PartialEq)]
pub enum AttributeValue {
    Text(String),
    Int(i64),
    Flag(bool),
}

impl AttributeValue {
    /// A deep copy that provably equals the original.
    pub fn duplicate(&self) -> (r: AttributeValue)
        ensures
            r == *self,
    {
        match self {
            AttributeValue::Text(s) => AttributeValue::Text(s.clone()),
            AttributeValue::Int(i) => AttributeValue::Int(*i),
            AttributeValue::Flag(b) => AttributeValue::Flag(*b),
        }
    }
}

/// One key/value pair of dimensional context.
#[derive(Debug, Clone, PartialEq)]
pub struct MetricAttribute {
    pub key: String,
    pub value: AttributeValue,
}

impl MetricAttribute {
    /// A deep copy that provably equals the original.
    pub fn duplicate(&self) -> (r: MetricAttribute)
        ensures
            r == *self,
    {
        MetricAttribute { key: self.key.clone(), value: self.value.duplicate() }
    }
}

/// The flattened attribute map of an ordered delta list: every key maps to
/// the value of its latest occurrence.
pub open spec fn flat(entries: Seq<MetricAttribute>) -> Map<Seq<char>, AttributeValue>
    decreases entries.len(),
{
    if entries.len() == 0 {
        Map::empty()
    } else {
        flat(entries.drop_last()).insert(entries.last().key@, entries.last().value)
    }
}

/// No two entries share a key.
pub open spec fn unique_keys(entries: Seq<MetricAttribute>) -> bool {
    forall|i: int, j: int|
        0 <= i < j < entries.len() ==> entries[i].key@ != entries[j].key@
}

/// Appending one pair inserts its key/value into the flattened map.
pub proof fn lemma_flat_push(s: Seq<MetricAttribute>, p: MetricAttribute)
    ensures
        flat(s.push(p)) == flat(s).insert(p.key@, p.value),
{
    assert(s.push(p).drop_last() =~= s);
    assert(s.push(p).last() == p);
}

/// Flattening one more entry of a list inserts that entry's key/value.
pub proof fn lemma_flat_take_step(s: Seq<MetricAttribute>, i: int)
    requires
        0 <= i < s.len(),
    ensures
        flat(s.take(i + 1)) == flat(s.take(i)).insert(s[i].key@, s[i].value),
{
    assert(s.take(i + 1) =~= s.take(i).push(s[i]));
    lemma_flat_push(s.take(i), s[i]);
}

/// Overwriting the one entry that holds a key, in a duplicate-free list,
/// inserts the new value into the flattened map.
pub proof fn lemma_flat_update(s: Seq<MetricAttribute>, j: int, p: MetricAttribute)
    requires
        0 <= j < s.len(),
        s[j].key@ == p.key@,
        unique_keys(s),
    ensures
        flat(s.update(j, p)) == flat(s).insert(p.key@, p.value),
    decreases s.len(),
{
    let t = s.update(j, p);
    if j == s.len() - 1 {
        assert(t.drop_last() =~= s.drop_last());
        assert(t.last() == p);
        assert(flat(s.drop_last()).insert(p.key@, p.value) =~= flat(
            s.drop_last(),
        ).insert(s.last().key@, s.last().value).insert(p.key@, p.value));
    } else {
        let s0 = s.drop_last();
        assert(t.drop_last() =~= s0.update(j, p));
        assert(t.last() == s.last());
        assert forall|a: int, b: int| 0 <= a < b < s0.len() implies s0[a].key@ != s0[b].key@ by {
            assert(s0[a] == s[a]);
            assert(s0[b] == s[b]);
        }
        lemma_flat_update(s0, j, p);
        assert(s.last().key@ != p.key@) by {
            assert(s[j].key@ != s[s.len() - 1].key@);
        }
        assert(flat(s0).insert(p.key@, p.value).insert(s.last().key@, s.last().value) =~= flat(
            s0,
        ).insert(s.last().key@, s.last().value).insert(p.key@, p.value));
    }
}

/// Law: on a key collision the latest-applied delta wins — a list's last
/// entry decides what its key maps to in the flattened attributes.
pub proof fn lemma_latest_wins(entries: Seq<MetricAttribute>)
    requires
        entries.len() > 0,
    ensures
        flat(entries).contains_key(entries.last().key@),
        flat(entries)[entries.last().key@] == entries.last().value,
{
}

/// Law: extension is additive and associative — applying delta batch `d1`
/// and then batch `d2` atop a base list flattens to exactly the attributes of
/// applying the single combined batch `d1 + d2` once.
pub proof fn lemma_extend_additive(
    base: Seq<MetricAttribute>,
    d1: Seq<MetricAttribute>,
    d2: Seq<MetricAttribute>,
)
    ensures
        flat((base + d1) + d2) == flat(base + (d1 + d2)),
{
    assert((base + d1) + d2 =~= base + (d1 + d2));
}

/// An immutable collection of dimensional tags. Construction and extension
/// only ever append deltas; nothing is removed or overwritten in the list
/// itself, so `flat` alone decides collisions (latest wins).
#[derive(Debug, Clone)]
pub struct AttributeSet {
    entries: Vec<MetricAttribute>,
}

impl View for AttributeSet {
    type V = Seq<MetricAttribute>;

    closed spec fn view(&self) -> Seq<MetricAttribute> {
        self.entries@
    }
}

impl AttributeSet {
    /// The empty set: no dimensional context.
    pub fn new() -> (r: AttributeSet)
        ensures
            r@ == Seq::<MetricAttribute>::empty(),
    {
        AttributeSet { entries: Vec::new() }
    }

    /// A set holding exactly the given deltas, in order.
    pub fn from_entries(entries: Vec<MetricAttribute>) -> (r: AttributeSet)
        ensures
            r@ == entries@,
    {
        AttributeSet { entries }
    }

    /// A new set whose deltas are this set's followed by `more`, in order.
    /// Purely additive: the base list is never shortened or edited.
    pub fn extend(&self, more: Vec<MetricAttribute>) -> (r: AttributeSet)
        ensures
            r@ == self@ + more@,
    {
        let mut entries: Vec<MetricAttribute> = Vec::new();
        let mut i: usize = 0;
        while i < self.entries.len()
            invariant
                i <= self.entries.len(),
                entries@ == self.entries@.take(i as int),
            decreases self.entries.len() - i,
        {
            entries.push(self.entries[i].duplicate());
            proof {
                assert(entries@ =~= self.entries@.take(i as int + 1));
            }
            i = i + 1;
        }
        let mut j: usize = 0;
        while j < more.len()
            invariant
                j <= more.len(),
                entries@ == self.entries@ + more@.take(j as int),
            decreases more.len() - j,
        {
            entries.push(more[j].duplicate());
            proof {
                assert(entries@ =~= self.entries@ + more@.take(j as int + 1));
            }
            j = j + 1;
        }
        proof {
            assert(self.entries@.take(self.entries@.len() as int) =~= self.entries@);
            assert(more@.take(more@.len() as int) =~= more@);
        }
        AttributeSet { entries }
    }

    /// How many deltas the set holds.
    pub fn len(&self) -> (n: usize)
        ensures
            n == self@.len(),
    {
        self.entries.len()
    }

    /// The effective attributes of the set, materialized: one pair per key,
    /// holding the latest-applied value, exactly the flattened map of the
    /// delta list.
    pub fn flattened(&self) -> (r: Vec<MetricAttribute>)
        ensures
            flat(r@) == flat(self@),
            unique_keys(r@),
    {
        let mut r: Vec<MetricAttribute> = Vec::new();
        proof {
            assert(self@.take(0) =~= Seq::<MetricAttribute>::empty());
        }
        let mut i: usize = 0;
        while i < self.entries.len()
            invariant
                i <= self.entries.len(),
                flat(r@) == flat(self@.take(i as int)),
                unique_keys(r@),
            decreases self.entries.len() - i,
        {
            let p = self.entries[i].duplicate();
            let ghost r0 = r@;
            match find_key(&r, &p.key) {
                Some(j) => {
                    proof {
                        lemma_flat_update(r0, j as int, p);
                    }
                    r[j] = p;
                    proof {
                        assert forall|a: int, b: int|
                            0 <= a < b < r@.len() implies r@[a].key@ != r@[b].key@ by {
                            if a != j && b != j {
                                assert(r@[a] == r0[a]);
                                assert(r@[b] == r0[b]);
                            }
                        }
                    }
                },
                None => {
                    proof {
                        lemma_flat_push(r0, p);
                    }
                    r.push(p);
                    proof {
                        assert forall|a: int, b: int|
                            0 <= a < b < r@.len() implies r@[a].key@ != r@[b].key@ by {
                            if b != r0.len() {
                                assert(r@[a] == r0[a]);
                                assert(r@[b] == r0[b]);
                            } else {
                                assert(r@[a] == r0[a]);
                            }
                        }
                    }
                },
            }
            proof {
                lemma_flat_take_step(self@, i as int);
            }
            i = i + 1;
        }
        proof {
            assert(self@.take(self@.len() as int) =~= self@);
        }
        r
    }
}

/// The index of the one entry holding `key`, if the list has it.
fn find_key(entries: &Vec<MetricAttribute>, key: &String) -> (idx: Option<usize>)
    ensures
        match idx {
            Some(j) => j < entries@.len() && entries@[j as int].key@ == key@,
            None => forall|jj: int| 0 <= jj < entries@.len() ==> entries@[jj].key@ != key@,
        },
{
    let mut j: usize = 0;
    while j < entries.len()
        invariant
            j <= entries@.len(),
            forall|jj: int| 0 <= jj < j ==> entries@[jj].key@ != key@,
        decreases entries@.len() - j,
    {
        if entries[j].key == *key {
            return Some(j);
        }
        j = j + 1;
    }
    None
}

} // verus!
