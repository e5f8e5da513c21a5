//! The storage slots that a block has touched, in the order in which they
//! are written out.

use vstd::prelude::*;

verus! {

/// Whether the byte string `a` comes before `b` in the order of the
/// dictionary.
pub open spec fn bytes_lt(a: Seq<u8>, b: Seq<u8>) -> bool
    decreases a.len(),
{
    if b.len() == 0 {
        false
    } else if a.len() == 0 {
        true
    } else if a[0] != b[0] {
        a[0] < b[0]
    } else {
        bytes_lt(a.subrange(1, a.len() as int), b.subrange(1, b.len() as int))
    }
}

/// Whether `a` comes before `b` in the order of the dictionary.
pub fn less_than(a: &[u8], b: &[u8]) -> (r: bool)
    ensures
        r == bytes_lt(a@, b@),
{
    let mut i: usize = 0;
    assert(a@.subrange(0, a@.len() as int) =~= a@);
    assert(b@.subrange(0, b@.len() as int) =~= b@);
    while i < a.len() && i < b.len()
        invariant
            i <= a@.len(),
            i <= b@.len(),
            bytes_lt(a@, b@) == bytes_lt(
                a@.subrange(i as int, a@.len() as int),
                b@.subrange(i as int, b@.len() as int),
            ),
        decreases a.len() - i,
    {
        let ghost ta = a@.subrange(i as int, a@.len() as int);
        let ghost tb = b@.subrange(i as int, b@.len() as int);
        if a[i] != b[i] {
            return a[i] < b[i];
        }
        proof {
            assert(ta.subrange(1, ta.len() as int) =~= a@.subrange(i + 1, a@.len() as int));
            assert(tb.subrange(1, tb.len() as int) =~= b@.subrange(i + 1, b@.len() as int));
        }
        i += 1;
    }
    i < b.len()
}

/// The first place in `keys` that holds a key before `new_key`, or the
/// length of `keys` where none does.
pub open spec fn first_before(keys: Seq<Seq<u8>>, new_key: Seq<u8>) -> int
    decreases keys.len(),
{
    if keys.len() == 0 {
        0
    } else if bytes_lt(keys[0], new_key) {
        0
    } else {
        1 + first_before(keys.subrange(1, keys.len() as int), new_key)
    }
}

/// The place at which the key `new_key` goes into the list of `keys`: the
/// first place that holds a key before `new_key`, and the front where no
/// key is before it.
pub open spec fn place_of(keys: Seq<Seq<u8>>, new_key: Seq<u8>) -> int {
    if first_before(keys, new_key) < keys.len() {
        first_before(keys, new_key)
    } else {
        0
    }
}

/// A slot that was touched: its key and its new value.
#[derive(Clone, Copy)]
pub struct DirtyKeyValue(pub [u8; 32], pub [u8; 32]);

/// The list that comes of putting the first `upto` of `slots`, one after
/// the other, each at its place into the list of those before it.
pub open spec fn placed(slots: Seq<DirtyKeyValue>, upto: int) -> Seq<DirtyKeyValue>
    decreases upto,
{
    if upto <= 0 {
        Seq::empty()
    } else {
        let before = placed(slots, upto - 1);
        before.insert(place_of(keys_of(before), slots[upto - 1].0@), slots[upto - 1])
    }
}

/// The keys of the slots.
pub open spec fn keys_of(l: Seq<DirtyKeyValue>) -> Seq<Seq<u8>> {
    Seq::new(l.len(), |i: int| l[i].0@)
}

/// The slots that were touched in one account.
pub struct DirtyKeyValues(pub Vec<DirtyKeyValue>);

impl DirtyKeyValues {
    /// No slots.
    pub fn new() -> (r: DirtyKeyValues)
        ensures
            r.0@ == Seq::<DirtyKeyValue>::empty(),
    {
        DirtyKeyValues(Vec::new())
    }

    /// The slots, each put at its place into the list of those before it.
    pub fn sort_to_vec(&self) -> (v: Vec<DirtyKeyValue>)
        ensures
            v@ == placed(self.0@, self.0@.len() as int),
    {
        let mut v: Vec<DirtyKeyValue> = Vec::new();
        let mut i: usize = 0;
        while i < self.0.len()
            invariant
                i <= self.0@.len(),
                v@ == placed(self.0@, i as int),
            decreases self.0.len() - i,
        {
            let element = self.0[i];
            let pos = DirtyKeyValues::get_pos(&v, &element.0);
            v.insert(pos, element);
            i += 1;
        }
        v
    }

    /// The place in `l` at which a slot with the key `new_key` goes.
    pub fn get_pos(l: &Vec<DirtyKeyValue>, new_key: &[u8; 32]) -> (r: usize)
        ensures
            r == place_of(keys_of(l@), new_key@),
            r <= l@.len(),
    {
        let mut idx: usize = 0;
        while idx < l.len()
            invariant
                idx <= l@.len(),
                forall|i: int| 0 <= i < idx ==> !bytes_lt(#[trigger] keys_of(l@)[i], new_key@),
            decreases l.len() - idx,
        {
            assert(keys_of(l@)[idx as int] == l@[idx as int].0@);
            if less_than(l[idx].0.as_slice(), new_key.as_slice()) {
                proof {
                    lemma_first_before(keys_of(l@), new_key@, idx as int);
                }
                return idx;
            }
            idx += 1;
        }
        proof {
            lemma_first_before(keys_of(l@), new_key@, idx as int);
        }
        0
    }
}

impl Clone for DirtyKeyValues {
    fn clone(&self) -> (r: DirtyKeyValues)
        ensures
            r.0@ == self.0@,
    {
        let mut slots: Vec<DirtyKeyValue> = Vec::new();
        let mut i: usize = 0;
        while i < self.0.len()
            invariant
                i <= self.0@.len(),
                slots@ == self.0@.subrange(0, i as int),
            decreases self.0.len() - i,
        {
            slots.push(self.0[i]);
            i += 1;
            assert(slots@ =~= self.0@.subrange(0, i as int));
        }
        assert(self.0@.subrange(0, i as int) =~= self.0@);
        DirtyKeyValues(slots)
    }
}

/// The slots that were touched in the account at an address.
pub struct DirtyState(pub [u8; 20], pub DirtyKeyValues);

/// The addresses of the accounts.
pub open spec fn addresses_of(l: Seq<DirtyState>) -> Seq<Seq<u8>> {
    Seq::new(l.len(), |i: int| l[i].0@)
}

/// The slots that were touched, account by account.
pub struct DirtyStates(pub Vec<DirtyState>);

/// The accounts as pairs of address and slots.
pub open spec fn state_views(l: Seq<DirtyState>) -> Seq<(Seq<u8>, Seq<DirtyKeyValue>)> {
    Seq::new(l.len(), |i: int| (l[i].0@, l[i].1.0@))
}

/// The addresses of accounts that are given as pairs.
pub open spec fn first_parts(l: Seq<(Seq<u8>, Seq<DirtyKeyValue>)>) -> Seq<Seq<u8>> {
    Seq::new(l.len(), |i: int| l[i].0)
}

/// The list that comes of putting the first `upto` of `states`, one after
/// the other, each at the place of its address into the list of those
/// before it.
pub open spec fn placed_states(states: Seq<(Seq<u8>, Seq<DirtyKeyValue>)>, upto: int) -> Seq<
    (Seq<u8>, Seq<DirtyKeyValue>),
>
    decreases upto,
{
    if upto <= 0 {
        Seq::empty()
    } else {
        let before = placed_states(states, upto - 1);
        before.insert(place_of(first_parts(before), states[upto - 1].0), states[upto - 1])
    }
}

impl DirtyStates {
    /// No accounts.
    pub fn new() -> (r: DirtyStates)
        ensures
            r.0@ == Seq::<DirtyState>::empty(),
    {
        DirtyStates(Vec::new())
    }

    /// The accounts, each put at the place of its address into the list of
    /// those before it, with the slots that it came with.
    pub fn sort_to_vec(&self) -> (v: Vec<DirtyState>)
        ensures
            state_views(v@) == placed_states(state_views(self.0@), self.0@.len() as int),
    {
        let mut v: Vec<DirtyState> = Vec::new();
        let mut i: usize = 0;
        assert(state_views(v@) =~= Seq::<(Seq<u8>, Seq<DirtyKeyValue>)>::empty());
        while i < self.0.len()
            invariant
                i <= self.0@.len(),
                state_views(v@) == placed_states(state_views(self.0@), i as int),
            decreases self.0.len() - i,
        {
            let ghost before = v@;
            assert(first_parts(state_views(before)) =~= addresses_of(before));
            let pos = DirtyStates::get_pos(&v, &self.0[i].0);
            let state = DirtyState(self.0[i].0, self.0[i].1.clone());
            v.insert(pos, state);
            proof {
                assert(state_views(self.0@)[i as int] == (
                    self.0@[i as int].0@,
                    self.0@[i as int].1.0@,
                ));
                assert(state_views(v@) =~= state_views(before).insert(
                    pos as int,
                    state_views(self.0@)[i as int],
                ));
            }
            i += 1;
        }
        v
    }

    /// The place in `l` at which the account at `new_address` goes.
    pub fn get_pos(l: &Vec<DirtyState>, new_address: &[u8; 20]) -> (r: usize)
        ensures
            r == place_of(addresses_of(l@), new_address@),
            r <= l@.len(),
    {
        let mut idx: usize = 0;
        while idx < l.len()
            invariant
                idx <= l@.len(),
                forall|i: int|
                    0 <= i < idx ==> !bytes_lt(#[trigger] addresses_of(l@)[i], new_address@),
            decreases l.len() - idx,
        {
            assert(addresses_of(l@)[idx as int] == l@[idx as int].0@);
            if less_than(l[idx].0.as_slice(), new_address.as_slice()) {
                proof {
                    lemma_first_before(addresses_of(l@), new_address@, idx as int);
                }
                return idx;
            }
            idx += 1;
        }
        proof {
            lemma_first_before(addresses_of(l@), new_address@, idx as int);
        }
        0
    }
}

/// The place `k` is the first that holds a key before `new_key`.
proof fn lemma_first_before(keys: Seq<Seq<u8>>, new_key: Seq<u8>, k: int)
    requires
        0 <= k <= keys.len(),
        k < keys.len() ==> bytes_lt(keys[k], new_key),
        forall|i: int| 0 <= i < k ==> !bytes_lt(#[trigger] keys[i], new_key),
    ensures
        first_before(keys, new_key) == k,
    decreases keys.len(),
{
    if k > 0 {
        let rest = keys.subrange(1, keys.len() as int);
        assert(!bytes_lt(keys[0], new_key));
        if k < keys.len() {
            assert(rest[k - 1] == keys[k]);
        }
        assert forall|i: int| 0 <= i < k - 1 implies !bytes_lt(#[trigger] rest[i], new_key) by {
            assert(rest[i] == keys[i + 1]);
        }
        lemma_first_before(rest, new_key, k - 1);
    }
}

} // verus!
