//! A key-value program: it keeps a map from `u32` keys to `u32` values and
//! answers each request with a reply.

use std::collections::BTreeMap;
use vstd::prelude::*;
use vstd::std_specs::btree::{increasing_seq, key_obeys_cmp_spec, spec_btree_map_iter};
use vstd::std_specs::iter::IteratorSpec;
use vstd::std_specs::cmp::OrdSpec;

verus! {

/// A request to the key-value program.
#[derive(Clone, Copy, Debug, PartialEq, Eq, Structural)]
pub enum Request {
    /// Store a value under a key.
    Insert(u32, u32),
    /// Remove a key.
    Remove(u32),
    /// List all entries in increasing key order.
    List,
    /// Remove all entries.
    Clear,
}

/// The reply of the key-value program.
#[derive(Clone, Debug, PartialEq, Eq)]
pub enum Reply {
    /// The request could not be decoded.
    Error,
    /// Nothing to report.
    Empty,
    /// The value that a key held before the request.
    Value(Option<u32>),
    /// All entries, in increasing key order.
    List(Vec<(u32, u32)>),
}

/// The program's state.
pub struct KvState {
    map: BTreeMap<u32, u32>,
}

impl View for KvState {
    type V = Map<u32, u32>;

    closed spec fn view(&self) -> Map<u32, u32> {
        self.map@
    }
}

/// `entries` lists the entries of the map `m` in strictly increasing key
/// order.
pub open spec fn is_listing(entries: Seq<(u32, u32)>, m: Map<u32, u32>) -> bool {
    &&& forall|i: int, j: int| 0 <= i < j < entries.len() ==> entries[i].0 < entries[j].0
    &&& forall|i: int| 0 <= i < entries.len() ==> #[trigger] m.contains_key(entries[i].0) && m[entries[i].0]
        == entries[i].1
    &&& forall|k: u32|
        #[trigger] m.contains_key(k) ==> exists|i: int| 0 <= i < entries.len() && entries[i].0 == k
}

/// The value that `k` holds in `m`, if any.
pub open spec fn value_of(m: Map<u32, u32>, k: u32) -> Option<u32> {
    if m.contains_key(k) {
        Some(m[k])
    } else {
        None
    }
}

/// `request`, received while the map is `m`, leaves the map `new_m` and is
/// answered with `reply`.
pub open spec fn step(m: Map<u32, u32>, request: Request, new_m: Map<u32, u32>, reply: Reply) -> bool {
    match request {
        Request::Insert(k, v) => new_m == m.insert(k, v) && reply == Reply::Value(value_of(m, k)),
        Request::Remove(k) => new_m == m.remove(k) && reply == Reply::Value(value_of(m, k)),
        Request::List => new_m == m && (reply matches Reply::List(entries) && is_listing(
            entries@,
            m,
        )),
        Request::Clear => new_m == Map::<u32, u32>::empty() && reply == Reply::Empty,
    }
}

/// Starts the program: an empty map, and the reply `CREATED` to the
/// initialising message.
pub fn init() -> (r: (KvState, Vec<u8>))
    ensures
        r.0@ == Map::<u32, u32>::empty(),
        r.1@ == seq![67u8, 82u8, 69u8, 65u8, 84u8, 69u8, 68u8],
{
    let mut created: Vec<u8> = Vec::new();
    created.push(67u8);
    created.push(82u8);
    created.push(69u8);
    created.push(65u8);
    created.push(84u8);
    created.push(69u8);
    created.push(68u8);
    assert(created@ =~= seq![67u8, 82u8, 69u8, 65u8, 84u8, 69u8, 68u8]);
    (KvState { map: BTreeMap::new() }, created)
}

/// All entries of the map, in increasing key order.
pub fn list(state: &KvState) -> (entries: Vec<(u32, u32)>)
    ensures
        is_listing(entries@, state@),
{
    let ghost s = spec_btree_map_iter(&state.map).remaining();
    proof {
        assert(key_obeys_cmp_spec::<u32>());
    }
    let mut entries: Vec<(u32, u32)> = Vec::new();
    for kv in it: state.map.iter()
        invariant
            it.seq() == s,
            entries@.len() == it.index(),
            forall|i: int| 0 <= i < it.index() ==> entries@[i] == (*s[i].0, *s[i].1),
    {
        entries.push((*kv.0, *kv.1));
    }
    proof {
        let m = state.map@;
        let keys = s.map_values(|kv: (&u32, &u32)| *kv.0);
        assert(increasing_seq(keys));
        assert forall|i: int, j: int| 0 <= i < j < entries@.len() implies entries@[i].0
            < entries@[j].0 by {
            assert(keys[i].cmp_spec(&keys[j]) is Less);
        }
        assert forall|i: int| 0 <= i < entries@.len() implies #[trigger] m.contains_key(
            entries@[i].0,
        ) && m[entries@[i].0] == entries@[i].1 by {
            assert(m.contains_key(*s[i].0));
        }
        assert forall|k: u32| #[trigger] m.contains_key(k) implies exists|i: int|
            0 <= i < entries@.len() && entries@[i].0 == k by {
            assert(s.contains((&k, &m[k])));
            let i = choose|i: int| 0 <= i < s.len() && s[i] == (&k, &m[k]);
            assert(entries@[i].0 == k);
        }
    }
    entries
}

/// Carries out one request.
pub fn process(state: &mut KvState, request: Request) -> (reply: Reply)
    ensures
        step(old(state)@, request, final(state)@, reply),
{
    match request {
        Request::Insert(key, value) => Reply::Value(state.map.insert(key, value)),
        Request::Remove(key) => Reply::Value(state.map.remove(&key)),
        Request::List => Reply::List(list(state)),
        Request::Clear => {
            state.map.clear();
            Reply::Empty
        },
    }
}

/// Answers one incoming message: `request` is what its payload decoded to,
/// or `None` where it did not decode, which is answered with `Reply::Error`
/// and changes nothing.
pub fn handle(state: &mut KvState, request: Option<Request>) -> (reply: Reply)
    ensures
        match request {
            Some(req) => step(old(state)@, req, final(state)@, reply),
            None => final(state)@ == old(state)@ && reply == Reply::Error,
        },
{
    match request {
        Some(req) => process(state, req),
        None => Reply::Error,
    }
}

/// Answers a reply to a message that the program sent; the program sends
/// none, so there is nothing to do.
pub fn handle_reply() {
}

/// A value written under a key is what a removal of the key gives back, and
/// the removal restores the map to its state before the write, less the key.
pub proof fn lemma_remove_after_insert(
    m0: Map<u32, u32>,
    k: u32,
    v: u32,
    m1: Map<u32, u32>,
    r1: Reply,
    m2: Map<u32, u32>,
    r2: Reply,
)
    requires
        step(m0, Request::Insert(k, v), m1, r1),
        step(m1, Request::Remove(k), m2, r2),
    ensures
        r2 == Reply::Value(Some(v)),
        m2 == m0.remove(k),
{
    assert(m2 =~= m0.remove(k));
}

/// Writing a key twice: the second write answers with the first value, and
/// the key holds the second.
pub proof fn lemma_insert_overwrites(
    m0: Map<u32, u32>,
    k: u32,
    v1: u32,
    v2: u32,
    m1: Map<u32, u32>,
    r1: Reply,
    m2: Map<u32, u32>,
    r2: Reply,
)
    requires
        step(m0, Request::Insert(k, v1), m1, r1),
        step(m1, Request::Insert(k, v2), m2, r2),
    ensures
        r2 == Reply::Value(Some(v1)),
        m2.contains_key(k) && m2[k] == v2,
        m2 == m0.insert(k, v2),
{
    assert(m2 =~= m0.insert(k, v2));
}

/// After a write, the listing holds the written entry.
pub proof fn lemma_list_after_insert(
    m0: Map<u32, u32>,
    k: u32,
    v: u32,
    m1: Map<u32, u32>,
    r1: Reply,
    m2: Map<u32, u32>,
    r2: Reply,
)
    requires
        step(m0, Request::Insert(k, v), m1, r1),
        step(m1, Request::List, m2, r2),
    ensures
        r2 matches Reply::List(entries) && exists|i: int|
            0 <= i < entries@.len() && entries@[i] == (k, v),
{
    let entries = r2->List_0;
    assert(m1.contains_key(k));
    let i = choose|i: int| 0 <= i < entries@.len() && entries@[i].0 == k;
    assert(entries@[i] == (k, v));
}

/// After `Clear`, the listing is empty.
pub proof fn lemma_list_after_clear(
    m0: Map<u32, u32>,
    m1: Map<u32, u32>,
    r1: Reply,
    m2: Map<u32, u32>,
    r2: Reply,
)
    requires
        step(m0, Request::Clear, m1, r1),
        step(m1, Request::List, m2, r2),
    ensures
        r2 matches Reply::List(entries) && entries@.len() == 0,
{
    let entries = r2->List_0;
    if entries@.len() > 0 {
        assert(m1.contains_key(entries@[0].0));
    }
}

proof fn lemma_listing_prefix(a: Seq<(u32, u32)>, b: Seq<(u32, u32)>, m: Map<u32, u32>, n: int)
    requires
        is_listing(a, m),
        is_listing(b, m),
        0 <= n <= a.len(),
        n <= b.len(),
    ensures
        forall|i: int| 0 <= i < n ==> a[i] == b[i],
    decreases n,
{
    if n > 0 {
        lemma_listing_prefix(a, b, m, n - 1);
        let i = n - 1;
        assert(m.contains_key(a[i].0));
        let j = choose|j: int| 0 <= j < b.len() && b[j].0 == a[i].0;
        assert(m.contains_key(b[i].0));
        let l = choose|l: int| 0 <= l < a.len() && a[l].0 == b[i].0;
        if j < i {
            assert(a[j].0 < a[i].0);
        }
        if j > i {
            assert(b[i].0 < b[j].0);
            if l < i {
                assert(b[l].0 < b[i].0);
            }
            if l > i {
                assert(a[i].0 < a[l].0);
            }
        }
        assert(a[i].1 == m[a[i].0]);
        assert(b[i].1 == m[b[i].0]);
    }
}

/// A map has exactly one listing: the reply to `List` is determined by the
/// map.
pub proof fn lemma_listing_unique(a: Seq<(u32, u32)>, b: Seq<(u32, u32)>, m: Map<u32, u32>)
    requires
        is_listing(a, m),
        is_listing(b, m),
    ensures
        a == b,
{
    if a.len() <= b.len() {
        lemma_listing_prefix(a, b, m, a.len() as int);
        if a.len() < b.len() {
            let i = a.len() as int;
            assert(m.contains_key(b[i].0));
            let l = choose|l: int| 0 <= l < a.len() && a[l].0 == b[i].0;
            assert(b[l].0 < b[i].0);
        }
    } else {
        lemma_listing_prefix(a, b, m, b.len() as int);
        let i = b.len() as int;
        assert(m.contains_key(a[i].0));
        let l = choose|l: int| 0 <= l < b.len() && b[l].0 == a[i].0;
        assert(a[l].0 < a[i].0);
    }
    assert(a =~= b);
}

} // verus!
