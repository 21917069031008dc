//! Write batches: ordered lists of puts that the engine applies as one
//! atomic write, and what a store holds afterwards.

use vstd::prelude::*;
use vstd::string::StringSliceAdditionalSpecFns;

use crate::decimal::{decimal, lemma_numbered_distinct, numbered};

verus! {

/// What a store holds: each key's bytes mapped to its value's bytes.
pub type Contents = Map<Seq<u8>, Seq<u8>>;

/// A store holding `m` after the puts `ops` are applied in order: a later put
/// of a key replaces an earlier one.
pub open spec fn apply_puts(m: Contents, ops: Seq<(Seq<u8>, Seq<u8>)>) -> Contents
    decreases ops.len(),
{
    if ops.len() == 0 {
        m
    } else {
        apply_puts(m, ops.drop_last()).insert(ops.last().0, ops.last().1)
    }
}

/// What a read of `key` returns from a store holding `m`.
pub open spec fn lookup(m: Contents, key: Seq<u8>) -> Option<Seq<u8>> {
    if m.contains_key(key) {
        Some(m[key])
    } else {
        None
    }
}

/// The puts `key_prefix + i` to `value_prefix + i`, for `i` from 0 below `n`.
pub open spec fn numbered_ops(key_prefix: Seq<u8>, value_prefix: Seq<u8>, n: nat) -> Seq<
    (Seq<u8>, Seq<u8>),
> {
    Seq::new(n, |i: int| (key_prefix + decimal(i as nat), value_prefix + decimal(i as nat)))
}

/// An ordered list of puts.
pub struct Batch {
    ops: Vec<(Vec<u8>, Vec<u8>)>,
}

impl View for Batch {
    type V = Seq<(Seq<u8>, Seq<u8>)>;

    closed spec fn view(&self) -> Seq<(Seq<u8>, Seq<u8>)> {
        Seq::new(self.ops@.len(), |i: int| (self.ops@[i].0@, self.ops@[i].1@))
    }
}

impl Batch {
    /// A batch with no puts.
    pub fn new() -> (r: Batch)
        ensures
            r@ == Seq::<(Seq<u8>, Seq<u8>)>::empty(),
    {
        let r = Batch { ops: Vec::new() };
        assert(r@ =~= Seq::<(Seq<u8>, Seq<u8>)>::empty());
        r
    }

    /// Appends a put of `value` under `key`.
    pub fn put(&mut self, key: &[u8], value: &[u8])
        ensures
            final(self)@ == old(self)@.push((key@, value@)),
    {
        let k = vstd::slice::slice_to_vec(key);
        let v = vstd::slice::slice_to_vec(value);
        self.ops.push((k, v));
        assert(final(self)@ =~= old(self)@.push((key@, value@)));
    }

    /// The number of puts.
    pub fn len(&self) -> (r: usize)
        ensures
            r == self@.len(),
    {
        self.ops.len()
    }

    /// The key and the value of the put at position `i`.
    pub fn entry(&self, i: usize) -> (r: (&[u8], &[u8]))
        requires
            i < self@.len(),
        ensures
            r.0@ == self@[i as int].0,
            r.1@ == self@[i as int].1,
    {
        (self.ops[i].0.as_slice(), self.ops[i].1.as_slice())
    }

    /// The batch of `n` numbered puts: for each `i` from 0 below `n`, in
    /// order, `value_prefix` followed by `i` in decimal under `key_prefix`
    /// followed by `i` in decimal.
    pub fn numbered(key_prefix: &str, value_prefix: &str, n: u32) -> (r: Batch)
        ensures
            r@ == numbered_ops(key_prefix.spec_bytes(), value_prefix.spec_bytes(), n as nat),
    {
        let mut b = Batch::new();
        let mut i: u32 = 0;
        while i < n
            invariant
                i <= n,
                b@ == numbered_ops(key_prefix.spec_bytes(), value_prefix.spec_bytes(), i as nat),
            decreases n - i,
        {
            let k = numbered(key_prefix, i);
            let v = numbered(value_prefix, i);
            b.put(k.as_slice(), v.as_slice());
            i = i + 1;
            assert(b@ =~= numbered_ops(
                key_prefix.spec_bytes(),
                value_prefix.spec_bytes(),
                i as nat,
            ));
        }
        b
    }
}

/// After a batch is written, a read of one of its keys returns the value of
/// the last put of that key in the batch.
pub proof fn lemma_batch_read_back(m: Contents, ops: Seq<(Seq<u8>, Seq<u8>)>, i: int)
    requires
        0 <= i < ops.len(),
        forall|j: int| i < j < ops.len() ==> ops[j].0 != ops[i].0,
    ensures
        lookup(apply_puts(m, ops), ops[i].0) == Some(ops[i].1),
    decreases ops.len(),
{
    if i < ops.len() - 1 {
        lemma_batch_read_back(m, ops.drop_last(), i);
    }
}

/// After a batch of `n` numbered puts is written, a read of each of the `n`
/// keys returns its value.
pub proof fn lemma_numbered_batch_read_back(
    m: Contents,
    key_prefix: Seq<u8>,
    value_prefix: Seq<u8>,
    n: nat,
    i: nat,
)
    requires
        i < n,
    ensures
        lookup(apply_puts(m, numbered_ops(key_prefix, value_prefix, n)), key_prefix + decimal(i))
            == Some(value_prefix + decimal(i)),
{
    let ops = numbered_ops(key_prefix, value_prefix, n);
    assert forall|j: int| i < j < ops.len() implies ops[j].0 != ops[i as int].0 by {
        lemma_numbered_distinct(key_prefix, j as nat, i);
    }
    lemma_batch_read_back(m, ops, i as int);
}

} // verus!
