use crate::text::texts;
use vstd::prelude::*;

verus! {

/// Names with their values, in an order.
pub type Bindings = Seq<(Seq<char>, Seq<char>)>;

/// Whether some pair of `p` has the key `k`.
pub open spec fn has_key(p: Bindings, k: Seq<char>) -> bool {
    exists|i: int| 0 <= i < p.len() && (#[trigger] p[i]).0 == k
}

/// A position at which `p` holds the key `k`, where it holds it.
pub open spec fn index_of(p: Bindings, k: Seq<char>) -> int {
    choose|i: int| 0 <= i < p.len() && (#[trigger] p[i]).0 == k
}

/// Whether no key occurs twice in `p`.
pub open spec fn distinct_keys(p: Bindings) -> bool {
    forall|i: int, j: int| 0 <= i < j < p.len() ==> (#[trigger] p[i]).0 != (#[trigger] p[j]).0
}

/// `p` with `k` bound to `v`: a key that `p` holds keeps its place and gets
/// the new value, a new key goes to the end.
pub open spec fn put(p: Bindings, k: Seq<char>, v: Seq<char>) -> Bindings {
    if has_key(p, k) {
        p.update(index_of(p, k), (k, v))
    } else {
        p.push((k, v))
    }
}

/// `base` with every pair of `over` put into it, in the order of `over`.
pub open spec fn put_all(
    base: Bindings,
    over: Bindings,
) -> Bindings
    decreases over.len(),
{
    if over.len() == 0 {
        base
    } else {
        put(put_all(base, over.drop_last()), over.last().0, over.last().1)
    }
}

/// The values of `p`, in order.
pub open spec fn values(p: Bindings) -> Seq<Seq<char>> {
    p.map_values(|e: (Seq<char>, Seq<char>)| e.1)
}

/// `p` with the values `v` in the place of its own, in order.
pub open spec fn with_values(p: Bindings, v: Seq<Seq<char>>) -> Bindings
    recommends
        v.len() == p.len(),
{
    Seq::new(p.len(), |i: int| (p[i].0, v[i]))
}

/// The mapping that the pairs of `p` stand for.
pub open spec fn as_map(p: Bindings) -> Map<Seq<char>, Seq<char>> {
    Map::new(|k: Seq<char>| has_key(p, k), |k: Seq<char>| p[index_of(p, k)].1)
}

/// Among distinct keys a key has one position only.
pub proof fn lemma_index_unique(p: Bindings, i: int)
    requires
        distinct_keys(p),
        0 <= i < p.len(),
    ensures
        has_key(p, p[i].0),
        index_of(p, p[i].0) == i,
{
    let j = index_of(p, p[i].0);
    assert(0 <= j < p.len() && p[j].0 == p[i].0);
    if j < i {
        assert(p[j].0 != p[i].0);
    } else if i < j {
        assert(p[i].0 != p[j].0);
    }
}

/// Putting a pair keeps the keys distinct and binds its key in the mapping,
/// leaving every other key as it was.
pub proof fn lemma_put(p: Bindings, k: Seq<char>, v: Seq<char>)
    requires
        distinct_keys(p),
    ensures
        distinct_keys(put(p, k, v)),
        as_map(put(p, k, v)) == as_map(p).insert(k, v),
        put(p, k, v).len() == if has_key(p, k) {
            p.len()
        } else {
            p.len() + 1
        },
{
    let q = put(p, k, v);
    let at: int = if has_key(p, k) {
        index_of(p, k)
    } else {
        p.len() as int
    };
    assert(0 <= at < q.len() && q[at] == (k, v));
    assert forall|i: int| 0 <= i < q.len() && i != at implies q[i] == p[i] && q[i].0 != k by {
        if has_key(p, k) {
            lemma_index_unique(p, i);
        }
    }
    assert forall|i: int, j: int| 0 <= i < j < q.len() implies q[i].0 != q[j].0 by {
        if i != at && j != at {
            assert(p[i].0 != p[j].0);
        } else if has_key(p, k) {
            assert(p[at].0 == k);
            if i == at {
                assert(p[at].0 != p[j].0);
            } else {
                assert(p[i].0 != p[at].0);
            }
        }
    }
    assert forall|x: Seq<char>| has_key(q, x) <==> (x == k || has_key(p, x)) by {
        if has_key(q, x) {
            let i = index_of(q, x);
            if i != at {
                assert(p[i].0 == x);
            }
        }
        if x == k {
            assert(q[at].0 == x);
        } else if has_key(p, x) {
            let i = index_of(p, x);
            assert(q[i].0 == x);
        }
    }
    assert forall|x: Seq<char>| has_key(q, x) implies #[trigger] as_map(q)[x] == as_map(p).insert(
        k,
        v,
    )[x] by {
        let i = index_of(q, x);
        lemma_index_unique(q, i);
        if x != k {
            assert(i != at);
            lemma_index_unique(p, i);
        } else {
            lemma_index_unique(q, at);
        }
    }
    assert(as_map(q) =~= as_map(p).insert(k, v));
}

/// Putting all pairs of `over` keeps the keys distinct, and in the mapping
/// every key of `over` takes the value that `over` gives it.
pub proof fn lemma_put_all(base: Bindings, over: Bindings)
    requires
        distinct_keys(base),
        distinct_keys(over),
    ensures
        distinct_keys(put_all(base, over)),
        as_map(put_all(base, over)) == as_map(base).union_prefer_right(as_map(over)),
    decreases over.len(),
{
    if over.len() == 0 {
        assert(as_map(over) =~= Map::<Seq<char>, Seq<char>>::empty());
        assert(as_map(base).union_prefer_right(as_map(over)) =~= as_map(base));
    } else {
        let front = over.drop_last();
        let last = over.last();
        lemma_put_all(base, front);
        lemma_put(put_all(base, front), last.0, last.1);
        lemma_put(front, last.0, last.1);
        assert(!has_key(front, last.0)) by {
            if has_key(front, last.0) {
                let i = index_of(front, last.0);
                assert(over[i].0 != over[over.len() - 1].0);
            }
        }
        assert(put(front, last.0, last.1) =~= over);
        assert(as_map(put_all(base, over)) =~= as_map(base).union_prefer_right(as_map(over)));
    }
}

/// New values leave the names as they are, each in its place: no name
/// occurs twice, and the name at a position is bound to the value at that
/// position.
pub proof fn lemma_with_values(p: Bindings, v: Seq<Seq<char>>, k: Seq<char>)
    requires
        distinct_keys(p),
    ensures
        distinct_keys(with_values(p, v)),
        has_key(with_values(p, v), k) <==> has_key(p, k),
        forall|i: int|
            0 <= i < p.len() && (#[trigger] p[i]).0 == k ==> as_map(with_values(p, v))[k] == v[i],
{
    let q = with_values(p, v);
    assert forall|i: int, j: int| 0 <= i < j < q.len() implies (#[trigger] q[i]).0 != (
    #[trigger] q[j]).0 by {
        assert(p[i].0 != p[j].0);
    }
    if has_key(p, k) {
        let i = index_of(p, k);
        assert(q[i].0 == k);
    }
    if has_key(q, k) {
        let i = index_of(q, k);
        assert(p[i].0 == k);
    }
    assert forall|i: int| 0 <= i < p.len() && (#[trigger] p[i]).0 == k implies as_map(q)[k]
        == v[i] by {
        assert(q[i].0 == k);
        lemma_index_unique(q, i);
    }
}

/// Layering: a name that `over` binds has the value of `over`; any other
/// name that `base` binds keeps the value of `base`; no other name is
/// bound.
pub proof fn lemma_layer_precedence(
    base: Bindings,
    over: Bindings,
    k: Seq<char>,
)
    requires
        distinct_keys(base),
        distinct_keys(over),
    ensures
        has_key(put_all(base, over), k) <==> has_key(over, k) || has_key(base, k),
        has_key(over, k) ==> as_map(put_all(base, over))[k] == as_map(over)[k],
        !has_key(over, k) && has_key(base, k) ==> as_map(put_all(base, over))[k] == as_map(base)[k],
{
    lemma_put_all(base, over);
    let m = as_map(base).union_prefer_right(as_map(over));
    assert(m.contains_key(k) <==> has_key(put_all(base, over), k));
}

/// Three layers: the operation's value wins over the step's, and the step's
/// over the ambient one.
pub proof fn lemma_three_layers(
    ambient: Bindings,
    step: Bindings,
    op: Bindings,
    k: Seq<char>,
)
    requires
        distinct_keys(ambient),
        distinct_keys(step),
        distinct_keys(op),
    ensures
        ({
            let env = put_all(put_all(ambient, step), op);
            &&& distinct_keys(env)
            &&& has_key(env, k) <==> has_key(op, k) || has_key(step, k) || has_key(ambient, k)
            &&& has_key(op, k) ==> as_map(env)[k] == as_map(op)[k]
            &&& !has_key(op, k) && has_key(step, k) ==> as_map(env)[k] == as_map(step)[k]
            &&& !has_key(op, k) && !has_key(step, k) && has_key(ambient, k) ==> as_map(env)[k]
                == as_map(ambient)[k]
        }),
{
    lemma_put_all(ambient, step);
    lemma_layer_precedence(ambient, step, k);
    lemma_put_all(put_all(ambient, step), op);
    lemma_layer_precedence(put_all(ambient, step), op, k);
}

/// A mapping from names to values that keeps the order in which the names
/// came: what is walked first was inserted first, and no name occurs twice.
#[derive(Debug)]
pub struct EnvMap {
    entries: Vec<(String, String)>,
}

impl View for EnvMap {
    type V = Map<Seq<char>, Seq<char>>;

    /// The mapping, without the order.
    open spec fn view(&self) -> Map<Seq<char>, Seq<char>> {
        as_map(self.pairs())
    }
}

impl EnvMap {
    /// The names with their values, in the order in which they are walked.
    pub closed spec fn pairs(&self) -> Bindings {
        self.entries@.map_values(|e: (String, String)| (e.0@, e.1@))
    }

    /// No name occurs twice.
    #[verifier::type_invariant]
    pub open spec fn well_formed(&self) -> bool {
        distinct_keys(self.pairs())
    }

    /// An empty mapping.
    pub fn new() -> (m: Self)
        ensures
            m.pairs() == Bindings::empty(),
    {
        let m = EnvMap { entries: Vec::new() };
        assert(m.pairs() =~= Bindings::empty());
        m
    }

    /// The number of names.
    pub fn len(&self) -> (n: usize)
        ensures
            n == self.pairs().len(),
    {
        self.entries.len()
    }

    /// Whether the mapping holds no name.
    pub fn is_empty(&self) -> (b: bool)
        ensures
            b == (self.pairs().len() == 0),
    {
        self.entries.len() == 0
    }

    /// The name and the value at position `i` of the walk, if there is one.
    pub fn entry(&self, i: usize) -> (e: Option<(&String, &String)>)
        ensures
            match e {
                Some((k, v)) => i < self.pairs().len() && (k@, v@) == self.pairs()[i as int],
                None => i >= self.pairs().len(),
            },
    {
        if i < self.entries.len() {
            let e = &self.entries[i];
            Some((&e.0, &e.1))
        } else {
            None
        }
    }

    /// The names with their values, in the order of the walk.
    pub fn to_pairs(&self) -> (out: Vec<(String, String)>)
        ensures
            out@.map_values(|e: (String, String)| (e.0@, e.1@)) == self.pairs(),
    {
        self.clone().entries
    }

    /// The values, in the order of the walk.
    pub fn values(&self) -> (out: Vec<String>)
        ensures
            texts(out@) == values(self.pairs()),
    {
        let mut out: Vec<String> = Vec::new();
        let mut i: usize = 0;
        while i < self.entries.len()
            invariant
                i <= self.entries.len(),
                texts(out@) == values(self.pairs()).take(i as int),
            decreases self.entries.len() - i,
        {
            let ghost before = texts(out@);
            out.push(self.entries[i].1.clone());
            proof {
                assert(texts(out@) =~= before.push(self.pairs()[i as int].1));
                assert(texts(out@) =~= values(self.pairs()).take(i + 1));
            }
            i += 1;
        }
        proof {
            assert(values(self.pairs()).take(self.entries.len() as int) =~= values(self.pairs()));
        }
        out
    }

    /// This mapping with the strings of `texts` from position `from` on in
    /// the place of its values, in order; nothing where `texts` holds too
    /// few from there on.
    pub fn with_values(&self, texts: &Vec<String>, from: usize) -> (out: Option<EnvMap>)
        ensures
            match out {
                Some(m) => from + self.pairs().len() <= texts.len() && m.pairs() == with_values(
                    self.pairs(),
                    crate::text::texts(texts@).subrange(from as int, from + self.pairs().len()),
                ),
                None => from + self.pairs().len() > texts.len(),
            },
    {
        proof {
            use_type_invariant(self);
        }
        let n = self.entries.len();
        if from > texts.len() || n > texts.len() - from {
            return None;
        }
        let ghost want = with_values(
            self.pairs(),
            crate::text::texts(texts@).subrange(from as int, from + n),
        );
        let mut entries: Vec<(String, String)> = Vec::new();
        let mut i: usize = 0;
        while i < n
            invariant
                i <= n,
                n == self.entries.len(),
                from + n <= texts.len(),
                want == with_values(
                    self.pairs(),
                    crate::text::texts(texts@).subrange(from as int, from + n),
                ),
                entries@.map_values(|e: (String, String)| (e.0@, e.1@)) == want.take(i as int),
            decreases n - i,
        {
            let ghost before = entries@.map_values(|e: (String, String)| (e.0@, e.1@));
            entries.push((self.entries[i].0.clone(), texts[from + i].clone()));
            proof {
                assert(want[i as int] == (self.pairs()[i as int].0, texts@[from + i]@));
                assert(entries@.map_values(|e: (String, String)| (e.0@, e.1@)) =~= before.push(
                    want[i as int],
                ));
                assert(entries@.map_values(|e: (String, String)| (e.0@, e.1@)) =~= want.take(
                    i + 1,
                ));
            }
            i += 1;
        }
        proof {
            assert(want.take(n as int) =~= want);
            assert forall|i: int, j: int| 0 <= i < j < want.len() implies (#[trigger] want[i]).0
                != (#[trigger] want[j]).0 by {
                assert(self.pairs()[i].0 != self.pairs()[j].0);
            }
        }
        Some(EnvMap { entries })
    }

    fn find(&self, key: &String) -> (at: Option<usize>)
        ensures
            match at {
                Some(i) => i < self.pairs().len() && self.pairs()[i as int].0 == key@ && i
                    == index_of(self.pairs(), key@) && has_key(self.pairs(), key@),
                None => !has_key(self.pairs(), key@),
            },
    {
        proof {
            use_type_invariant(self);
        }
        let mut i: usize = 0;
        while i < self.entries.len()
            invariant
                i <= self.entries.len(),
                distinct_keys(self.pairs()),
                forall|j: int| 0 <= j < i ==> (#[trigger] self.pairs()[j]).0 != key@,
            decreases self.entries.len() - i,
        {
            if self.entries[i].0 == *key {
                proof {
                    lemma_index_unique(self.pairs(), i as int);
                }
                return Some(i);
            }
            i += 1;
        }
        None
    }

    /// Whether `key` is bound.
    pub fn contains_key(&self, key: &String) -> (b: bool)
        ensures
            b == self@.contains_key(key@),
    {
        self.find(key).is_some()
    }

    /// The value that `key` is bound to, if it is bound.
    pub fn get(&self, key: &String) -> (value: Option<&String>)
        ensures
            match value {
                Some(v) => self@.contains_key(key@) && v@ == self@[key@],
                None => !self@.contains_key(key@),
            },
    {
        match self.find(key) {
            Some(i) => Some(&self.entries[i].1),
            None => None,
        }
    }

    /// Binds `key` to `value`. A name that is bound keeps its place in the
    /// walk; a new name is walked last.
    pub fn insert(&mut self, key: String, value: String)
        ensures
            final(self).pairs() == put(old(self).pairs(), key@, value@),
            final(self)@ == old(self)@.insert(key@, value@),
    {
        proof {
            use_type_invariant(&*self);
            lemma_put(self.pairs(), key@, value@);
        }
        let ghost before = self.pairs();
        let at = self.find(&key);
        let mut entries: Vec<(String, String)> = Vec::new();
        core::mem::swap(&mut self.entries, &mut entries);
        match at {
            Some(i) => {
                entries.set(i, (key, value));
            },
            None => {
                entries.push((key, value));
            },
        }
        proof {
            let after = entries@.map_values(|e: (String, String)| (e.0@, e.1@));
            assert(at is Some ==> after =~= before.update(at->0 as int, (key@, value@)));
            assert(at is None ==> after =~= before.push((key@, value@)));
        }
        core::mem::swap(&mut self.entries, &mut entries);
    }

    /// This mapping with every binding of `over` inserted, in the order of
    /// `over`: where both bind a name, the value of `over` stands.
    pub fn layered(&self, over: &EnvMap) -> (out: EnvMap)
        ensures
            out.pairs() == put_all(self.pairs(), over.pairs()),
            out@ == self@.union_prefer_right(over@),
    {
        proof {
            use_type_invariant(self);
            use_type_invariant(over);
            lemma_put_all(self.pairs(), over.pairs());
        }
        let mut out = self.clone();
        let mut i: usize = 0;
        while i < over.entries.len()
            invariant
                i <= over.entries.len(),
                out.pairs() == put_all(self.pairs(), over.pairs().take(i as int)),
            decreases over.entries.len() - i,
        {
            proof {
                assert(over.pairs().take(i + 1).drop_last() =~= over.pairs().take(i as int));
            }
            let e = &over.entries[i];
            out.insert(e.0.clone(), e.1.clone());
            i += 1;
        }
        proof {
            assert(over.pairs().take(over.entries.len() as int) =~= over.pairs());
        }
        out
    }
}

impl Clone for EnvMap {
    /// A mapping with the same names and values in the same order.
    fn clone(&self) -> (out: Self)
        ensures
            out.pairs() == self.pairs(),
    {
        proof {
            use_type_invariant(self);
        }
        let mut entries: Vec<(String, String)> = Vec::new();
        let mut i: usize = 0;
        while i < self.entries.len()
            invariant
                i <= self.entries.len(),
                entries@.map_values(|e: (String, String)| (e.0@, e.1@)) == self.pairs().take(
                    i as int,
                ),
            decreases self.entries.len() - i,
        {
            let e = &self.entries[i];
            let ghost before = entries@.map_values(|e: (String, String)| (e.0@, e.1@));
            entries.push((e.0.clone(), e.1.clone()));
            proof {
                assert(self.pairs()[i as int] == (e.0@, e.1@));
                assert(entries@.map_values(|e: (String, String)| (e.0@, e.1@)) =~= before.push(
                    (e.0@, e.1@),
                ));
                assert(entries@.map_values(|e: (String, String)| (e.0@, e.1@)) =~= self.pairs().take(
                    i + 1,
                ));
            }
            i += 1;
        }
        proof {
            assert(self.pairs().take(self.entries.len() as int) =~= self.pairs());
        }
        EnvMap { entries }
    }
}

} // verus!
