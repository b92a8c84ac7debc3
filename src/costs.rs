//! Keyed sequences: the cost vector of a request, and the lookup that the
//! registry shares with it.
use vstd::prelude::*;

verus! {

/// The value stored under `k`, searching from the most recent entry.
pub open spec fn lookup<V>(s: Seq<(Seq<char>, V)>, k: Seq<char>) -> Option<V>
    decreases s.len(),
{
    if s.len() == 0 {
        None
    } else if s.last().0 == k {
        Some(s.last().1)
    } else {
        lookup(s.drop_last(), k)
    }
}

/// No key occurs twice.
pub open spec fn unique_keys<V>(s: Seq<(Seq<char>, V)>) -> bool {
    forall|i: int, j: int| 0 <= i < s.len() && 0 <= j < s.len() && i != j ==> s[i].0 != s[j].0
}

pub proof fn lemma_lookup_absent<V>(s: Seq<(Seq<char>, V)>, k: Seq<char>)
    requires
        forall|i: int| 0 <= i < s.len() ==> s[i].0 != k,
    ensures
        lookup(s, k) == None::<V>,
    decreases s.len(),
{
    if s.len() > 0 {
        lemma_lookup_absent(s.drop_last(), k);
    }
}

pub proof fn lemma_lookup_at<V>(s: Seq<(Seq<char>, V)>, i: int)
    requires
        unique_keys(s),
        0 <= i < s.len(),
    ensures
        lookup(s, s[i].0) == Some(s[i].1),
    decreases s.len(),
{
    if i < s.len() - 1 {
        lemma_lookup_at(s.drop_last(), i);
    }
}

pub proof fn lemma_lookup_found<V>(s: Seq<(Seq<char>, V)>, k: Seq<char>)
    requires
        lookup(s, k).is_some(),
    ensures
        exists|i: int| 0 <= i < s.len() && s[i].0 == k && lookup(s, k) == Some(s[i].1),
    decreases s.len(),
{
    if s.last().0 != k {
        lemma_lookup_found(s.drop_last(), k);
        let i = choose|i: int| 0 <= i < s.drop_last().len() && s.drop_last()[i].0 == k && lookup(s.drop_last(), k) == Some(s.drop_last()[i].1);
        assert(s[i] == s.drop_last()[i]);
    } else {
        assert(s[s.len() - 1].0 == k);
    }
}

/// A key is present exactly when some entry carries it.
pub proof fn lemma_lookup_some_iff<V>(s: Seq<(Seq<char>, V)>, k: Seq<char>)
    ensures
        lookup(s, k).is_some() <==> exists|i: int| 0 <= i < s.len() && s[i].0 == k,
{
    if lookup(s, k).is_some() {
        lemma_lookup_found(s, k);
    } else if exists|i: int| 0 <= i < s.len() && s[i].0 == k {
        let i = choose|i: int| 0 <= i < s.len() && s[i].0 == k;
        if !lookup(s, k).is_some() {
            lemma_lookup_none_has_no_key(s, k, i);
        }
    }
}

proof fn lemma_lookup_none_has_no_key<V>(s: Seq<(Seq<char>, V)>, k: Seq<char>, i: int)
    requires
        0 <= i < s.len(),
        s[i].0 == k,
    ensures
        lookup(s, k).is_some(),
    decreases s.len(),
{
    if s.last().0 != k {
        assert(i < s.len() - 1);
        assert(s.drop_last()[i] == s[i]);
        lemma_lookup_none_has_no_key(s.drop_last(), k, i);
    }
}

/// Position of the entry keyed `k` in `keys`, if any.
pub fn position(keys: &Vec<String>, k: &String) -> (r: Option<usize>)
    ensures
        match r {
            Some(i) => i < keys@.len() && keys@[i as int]@ == k@,
            None => forall|i: int| 0 <= i < keys@.len() ==> keys@[i]@ != k@,
        },
{
    let mut i: usize = 0;
    while i < keys.len()
        invariant
            i <= keys@.len(),
            forall|j: int| 0 <= j < i ==> keys@[j]@ != k@,
        decreases keys@.len() - i,
    {
        if keys[i] == *k {
            return Some(i);
        }
        i = i + 1;
    }
    None
}

/// Values keyed by name, each name once, in order of first insertion.
#[derive(Debug)]
pub struct KeyedVec<V> {
    keys: Vec<String>,
    values: Vec<V>,
}

/// The declared cost of one request: a weight per bucket name.
pub type TaskCosts = KeyedVec<u32>;

impl<V: Copy> KeyedVec<V> {
    /// The entries in order of first declaration.
    pub closed spec fn view(&self) -> Seq<(Seq<char>, V)> {
        Seq::new(self.keys@.len(), |i: int| (self.keys@[i]@, self.values@[i]))
    }

    /// Names and values pair up one to one.
    pub closed spec fn paired(&self) -> bool {
        self.keys@.len() == self.values@.len()
    }

    pub open spec fn wf(&self) -> bool {
        &&& self.paired()
        &&& unique_keys(self@)
    }

    pub fn new() -> (r: Self)
        ensures
            r.wf(),
            r@ == Seq::<(Seq<char>, V)>::empty(),
    {
        let r = KeyedVec { keys: Vec::new(), values: Vec::new() };
        assert(r@ =~= Seq::<(Seq<char>, V)>::empty());
        r
    }

    pub fn len(&self) -> (r: usize)
        requires
            self.wf(),
        ensures
            r == self@.len(),
    {
        self.keys.len()
    }

    /// Name and value of the `i`-th entry.
    pub fn entry(&self, i: usize) -> (r: (&String, V))
        requires
            self.wf(),
            i < self@.len(),
        ensures
            r.0@ == self@[i as int].0,
            r.1 == self@[i as int].1,
    {
        (&self.keys[i], self.values[i])
    }

    /// Sets the value for `key`, replacing any value it had.
    pub fn insert(&mut self, key: String, value: V)
        requires
            old(self).wf(),
        ensures
            final(self).wf(),
            lookup(old(self)@, key@).is_some() ==> final(self)@ == old(self)@.update(
                choose|i: int| 0 <= i < old(self)@.len() && old(self)@[i].0 == key@,
                (key@, value),
            ),
            lookup(old(self)@, key@).is_none() ==> final(self)@ == old(self)@.push((key@, value)),
            forall|k: Seq<char>| #[trigger] lookup(final(self)@, k) == if k == key@ {
                Some(value)
            } else {
                lookup(old(self)@, k)
            },
    {
        proof {
            lemma_lookup_some_iff(self@, key@);
        }
        match position(&self.keys, &key) {
            Some(i) => {
                self.values.set(i, value);
                proof {
                    let s = old(self)@;
                    let j = choose|j: int| 0 <= j < s.len() && s[j].0 == key@;
                    assert(s[i as int].0 == key@);
                    assert(j == i);
                    assert(self@ =~= s.update(i as int, (key@, value)));
                    assert forall|k: Seq<char>| #[trigger] lookup(self@, k) == if k == key@ {
                        Some(value)
                    } else {
                        lookup(s, k)
                    } by {
                        lemma_lookup_at(self@, i as int);
                        lemma_lookup_some_iff(s, k);
                        lemma_lookup_some_iff(self@, k);
                        if k != key@ {
                            if lookup(s, k).is_some() {
                                lemma_lookup_found(s, k);
                                let m = choose|m: int| 0 <= m < s.len() && s[m].0 == k && lookup(s, k) == Some(s[m].1);
                                lemma_lookup_at(self@, m);
                            }
                        }
                    }
                }
            },
            None => {
                self.keys.push(key);
                self.values.push(value);
                proof {
                    let s = old(self)@;
                    assert(self@ =~= s.push((key@, value)));
                    assert(self@.drop_last() =~= s);
                }
            },
        }
    }

    /// The value declared for `key`.
    pub fn get(&self, key: &str) -> (r: Option<V>)
        requires
            self.wf(),
        ensures
            r == lookup(self@, key@),
    {
        let k = key.to_string();
        proof {
            lemma_lookup_some_iff(self@, key@);
        }
        match position(&self.keys, &k) {
            Some(i) => {
                proof {
                    lemma_lookup_at(self@, i as int);
                }
                Some(self.values[i])
            },
            None => {
                proof {
                    lemma_lookup_absent(self@, key@);
                }
                None
            },
        }
    }

    /// Replaces the value of the `i`-th entry, keeping its name.
    pub fn set_value(&mut self, i: usize, v: V)
        requires
            old(self).wf(),
            i < old(self)@.len(),
        ensures
            final(self).wf(),
            final(self)@ == old(self)@.update(i as int, (old(self)@[i as int].0, v)),
    {
        self.values.set(i, v);
        assert(self@ =~= old(self)@.update(i as int, (old(self)@[i as int].0, v)));
    }

    /// Index of the entry named `key`.
    pub fn index_of(&self, key: &String) -> (r: Option<usize>)
        requires
            self.wf(),
        ensures
            match r {
                Some(i) => i < self@.len() && self@[i as int].0 == key@,
                None => forall|i: int| 0 <= i < self@.len() ==> self@[i].0 != key@,
            },
    {
        position(&self.keys, key)
    }

    /// An independent copy with the same entries.
    pub fn duplicate(&self) -> (r: Self)
        requires
            self.wf(),
        ensures
            r.wf(),
            r@ == self@,
    {
        let mut keys: Vec<String> = Vec::new();
        let mut values: Vec<V> = Vec::new();
        let mut i: usize = 0;
        while i < self.keys.len()
            invariant
                self.wf(),
                i <= self.keys@.len(),
                keys@.len() == i,
                values@.len() == i,
                forall|j: int| 0 <= j < i ==> keys@[j]@ == self.keys@[j]@,
                forall|j: int| 0 <= j < i ==> values@[j] == self.values@[j],
            decreases self.keys@.len() - i,
        {
            keys.push(self.keys[i].clone());
            values.push(self.values[i]);
            i = i + 1;
        }
        let r = KeyedVec { keys, values };
        assert(r@ =~= self@);
        r
    }
}

} // verus!
