//! The argument map of a session: string keys bound to JSON value texts.
//!
//! The map is kept as a vector of entries with pairwise-distinct keys, so
//! that insertion order is preserved for rendering while lookups behave as a
//! map.  Each value is carried as the JSON text of the argument, which the
//! renderer glue hands to the template engine.

use vstd::prelude::*;

verus! {

/// One binding of the argument map.
#[derive(Debug)]
pub struct ArgEntry {
    pub key: String,
    pub value: String,
}

impl Clone for ArgEntry {
    fn clone(&self) -> (r: Self)
        ensures
            r.key@ == self.key@,
            r.value@ == self.value@,
    {
        ArgEntry { key: self.key.clone(), value: self.value.clone() }
    }
}

/// What an entry sequence binds `k` to: the value at the first entry whose
/// key is `k`, if any.
pub open spec fn alist_get(s: Seq<ArgEntry>, k: Seq<char>) -> Option<Seq<char>>
    decreases s.len(),
{
    if s.len() == 0 {
        None
    } else if s[0].key@ == k {
        Some(s[0].value@)
    } else {
        alist_get(s.drop_first(), k)
    }
}

/// Pairwise-distinct keys.
pub open spec fn alist_wf(s: Seq<ArgEntry>) -> bool {
    forall|i: int, j: int| 0 <= i < j < s.len() ==> s[i].key@ != s[j].key@
}

pub proof fn lemma_alist_get_index(s: Seq<ArgEntry>, i: int)
    requires
        alist_wf(s),
        0 <= i < s.len(),
    ensures
        alist_get(s, s[i].key@) == Some(s[i].value@),
    decreases s.len(),
{
    if i > 0 {
        assert(s[0].key@ != s[i].key@);
        assert(s.drop_first()[i - 1] == s[i]);
        lemma_alist_get_index(s.drop_first(), i - 1);
    }
}

pub proof fn lemma_alist_get_absent(s: Seq<ArgEntry>, k: Seq<char>)
    requires
        forall|i: int| 0 <= i < s.len() ==> s[i].key@ != k,
    ensures
        alist_get(s, k) == None::<Seq<char>>,
    decreases s.len(),
{
    if s.len() > 0 {
        assert(forall|i: int| 0 <= i < s.drop_first().len() ==> s.drop_first()[i] == s[i + 1]);
        lemma_alist_get_absent(s.drop_first(), k);
    }
}

pub proof fn lemma_alist_absent_keys(s: Seq<ArgEntry>, k: Seq<char>)
    requires
        alist_get(s, k) == None::<Seq<char>>,
    ensures
        forall|i: int| 0 <= i < s.len() ==> s[i].key@ != k,
    decreases s.len(),
{
    if s.len() > 0 {
        lemma_alist_absent_keys(s.drop_first(), k);
        assert forall|i: int| 0 <= i < s.len() implies s[i].key@ != k by {
            if i > 0 {
                assert(s.drop_first()[i - 1] == s[i]);
            }
        }
    }
}

/// A string-keyed map of JSON value texts, with insertion order kept.
#[derive(Debug)]
pub struct ArgMap {
    pub entries: Vec<ArgEntry>,
}

impl ArgMap {
    /// Distinct keys: the invariant every operation preserves.
    pub open spec fn wf(&self) -> bool {
        alist_wf(self.entries@)
    }

    /// The bindings, as a mathematical map lookup.
    pub open spec fn spec_get(&self, k: Seq<char>) -> Option<Seq<char>> {
        alist_get(self.entries@, k)
    }

    pub open spec fn spec_entries(&self) -> Seq<ArgEntry> {
        self.entries@
    }

    pub open spec fn spec_len(&self) -> nat {
        self.entries@.len()
    }

    pub fn new() -> (r: Self)
        ensures
            r.wf(),
            r.spec_len() == 0,
            forall|k: Seq<char>| r.spec_get(k) == None::<Seq<char>>,
    {
        ArgMap { entries: Vec::new() }
    }

    pub fn len(&self) -> (r: usize)
        ensures
            r == self.spec_len(),
    {
        self.entries.len()
    }

    pub fn entries(&self) -> (r: &Vec<ArgEntry>)
        ensures
            r@ == self.spec_entries(),
    {
        &self.entries
    }

    /// The index holding `key`, if any.
    fn index_of(&self, key: &str) -> (r: Option<usize>)
        requires
            self.wf(),
        ensures
            match r {
                Some(i) => i < self.spec_len() && self.spec_entries()[i as int].key@ == key@,
                None => self.spec_get(key@) == None::<Seq<char>>,
            },
    {
        let n = self.entries.len();
        let mut i: usize = 0;
        while i < n
            invariant
                n == self.spec_len(),
                i <= n,
                forall|j: int| 0 <= j < i ==> self.spec_entries()[j].key@ != key@,
            decreases n - i,
    {
            if crate::text::str_eq(self.entries[i].key.as_str(), key) {
                return Some(i);
            }
            i += 1;
        }
        proof {
            assert forall|j: int| 0 <= j < self.entries@.len() implies self.entries@[j].key@
                != key@ by {
                assert(self.spec_entries()[j].key@ != key@);
            }
            lemma_alist_get_absent(self.entries@, key@);
        }
        None
    }

    pub fn get(&self, key: &str) -> (r: Option<&String>)
        requires
            self.wf(),
        ensures
            match r {
                Some(v) => self.spec_get(key@) == Some(v@),
                None => self.spec_get(key@) == None::<Seq<char>>,
            },
    {
        match self.index_of(key) {
            Some(i) => {
                proof {
                    lemma_alist_get_index(self.spec_entries(), i as int);
                }
                Some(&self.entries[i].value)
            },
            None => None,
        }
    }

    /// Binds `key` to `value`, replacing any previous binding.
    pub fn insert(&mut self, key: String, value: String)
        requires
            old(self).wf(),
        ensures
            final(self).wf(),
            final(self).spec_get(key@) == Some(value@),
            forall|k: Seq<char>|
                k != key@ ==> final(self).spec_get(k) == old(self).spec_get(k),
    {
        let ghost pre = self.entries@;
        match self.index_of(key.as_str()) {
            Some(i) => {
                let entry = vstd::std_specs::vec::vec_index_mut(&mut self.entries, i);
                entry.value = value;
                proof {
                    let post = self.entries@;
                    assert(post =~= pre.update(i as int, post[i as int]));
                    assert(post[i as int].key@ == key@);
                    assert(alist_wf(post));
                    lemma_alist_get_index(post, i as int);
                    assert forall|k: Seq<char>| k != key@ implies alist_get(post, k) == alist_get(
                        pre,
                        k,
                    ) by {
                        lemma_alist_get_frame(pre, post, i as int, k);
                    }
                }
            },
            None => {
                proof {
                    lemma_alist_absent_keys(pre, key@);
                }
                self.entries.push(ArgEntry { key, value });
                proof {
                    let post = self.entries@;
                    assert(post =~= pre.push(post[post.len() - 1]));
                    assert forall|a: int, b: int|
                        0 <= a < b < post.len() implies post[a].key@ != post[b].key@ by {
                        if b == post.len() - 1 {
                            assert(pre[a].key@ != post[b].key@);
                        }
                    }
                    assert(alist_wf(post));
                    lemma_alist_get_index(post, post.len() - 1);
                    assert forall|k: Seq<char>| k != key@ implies alist_get(post, k) == alist_get(
                        pre,
                        k,
                    ) by {
                        lemma_alist_get_frame(pre, post, post.len() - 1, k);
                    }
                }
            },
        }
    }

    /// Removes the binding of `key`, if one exists.
    pub fn remove(&mut self, key: &str)
        requires
            old(self).wf(),
        ensures
            final(self).wf(),
            final(self).spec_get(key@) == None::<Seq<char>>,
            forall|k: Seq<char>|
                k != key@ ==> final(self).spec_get(k) == old(self).spec_get(k),
    {
        let ghost pre = self.entries@;
        match self.index_of(key) {
            Some(i) => {
                self.entries.remove(i);
                proof {
                    let post = self.entries@;
                    assert(alist_wf(post)) by {
                        assert forall|a: int, b: int|
                            0 <= a < b < post.len() implies post[a].key@ != post[b].key@ by {
                            let a0 = if a < i { a } else { a + 1 };
                            let b0 = if b < i { b } else { b + 1 };
                            assert(post[a] == pre[a0] && post[b] == pre[b0]);
                        }
                    }
                    assert forall|k: Seq<char>|
                        #[trigger] alist_get(post, k) == (if k == key@ {
                            None
                        } else {
                            alist_get(pre, k)
                        }) by {
                        if k == key@ {
                            assert forall|j: int| 0 <= j < post.len() implies post[j].key@ != k by {
                                let j0 = if j < i { j } else { j + 1 };
                                assert(post[j] == pre[j0]);
                                if j0 != i {
                                    assert(pre[j0].key@ != pre[i as int].key@);
                                }
                            }
                            lemma_alist_get_absent(post, k);
                        } else {
                            lemma_alist_get_remove(pre, i as int, k);
                        }
                    }
                }
            },
            None => {},
        }
    }

    /// Drops every binding.
    pub fn clear(&mut self)
        ensures
            final(self).wf(),
            final(self).spec_len() == 0,
            forall|k: Seq<char>| final(self).spec_get(k) == None::<Seq<char>>,
    {
        self.entries.clear();
    }
}

impl Clone for ArgMap {
    fn clone(&self) -> (r: Self)
        ensures
            r.spec_entries().len() == self.spec_entries().len(),
            forall|i: int|
                0 <= i < self.spec_entries().len() ==> r.spec_entries()[i].key@
                    == self.spec_entries()[i].key@ && r.spec_entries()[i].value@
                    == self.spec_entries()[i].value@,
            self.wf() ==> r.wf(),
            self.wf() ==> forall|k: Seq<char>| r.spec_get(k) == self.spec_get(k),
    {
        let n = self.entries.len();
        let mut entries: Vec<ArgEntry> = Vec::new();
        let mut i: usize = 0;
        while i < n
            invariant
                n == self.spec_entries().len(),
                i <= n,
                entries@.len() == i,
                forall|j: int|
                    0 <= j < i ==> entries@[j].key@ == self.spec_entries()[j].key@
                        && entries@[j].value@ == self.spec_entries()[j].value@,
            decreases n - i,
        {
            entries.push(self.entries[i].clone());
            i += 1;
        }
        let r = ArgMap { entries };
        proof {
            if self.wf() {
                assert(alist_wf(r.entries@));
                assert forall|k: Seq<char>| r.spec_get(k) == self.spec_get(k) by {
                    lemma_alist_get_congruent(r.entries@, self.entries@, k);
                }
            }
        }
        r
    }
}

/// Two entry sequences with pointwise-equal keys and values bind alike.
proof fn lemma_alist_get_congruent(a: Seq<ArgEntry>, b: Seq<ArgEntry>, k: Seq<char>)
    requires
        a.len() == b.len(),
        forall|i: int| 0 <= i < a.len() ==> a[i].key@ == b[i].key@ && a[i].value@ == b[i].value@,
    ensures
        alist_get(a, k) == alist_get(b, k),
    decreases a.len(),
{
    if a.len() > 0 {
        assert(forall|i: int|
            0 <= i < a.drop_first().len() ==> a.drop_first()[i] == a[i + 1] && b.drop_first()[i]
                == b[i + 1]);
        lemma_alist_get_congruent(a.drop_first(), b.drop_first(), k);
    }
}

/// Changing or adding the entry at `i` leaves every other key's binding as
/// it was, provided keys are distinct and position `i` holds `post`'s only
/// occurrence of its key.
proof fn lemma_alist_get_frame(pre: Seq<ArgEntry>, post: Seq<ArgEntry>, i: int, k: Seq<char>)
    requires
        alist_wf(pre),
        alist_wf(post),
        0 <= i < post.len(),
        pre.len() == post.len() || pre.len() + 1 == post.len() && i == post.len() - 1,
        forall|j: int| 0 <= j < pre.len() && j != i ==> post[j] == pre[j],
        k != post[i].key@,
        pre.len() == post.len() ==> pre[i].key@ == post[i].key@,
    ensures
        alist_get(post, k) == alist_get(pre, k),
    decreases pre.len(),
{
    if pre.len() == 0 {
        if post.len() > 0 {
            lemma_alist_get_absent(post, k);
        }
    } else if i == 0 {
        // Only the head changed (same key), so both lookups skip or stop alike.
        if pre[0].key@ != k {
            assert(forall|j: int|
                0 <= j < pre.drop_first().len() ==> pre.drop_first()[j] == pre[j + 1]
                    && post.drop_first()[j] == post[j + 1]);
            lemma_alist_get_congruent(pre.drop_first(), post.drop_first(), k);
        }
    } else {
        assert(post[0] == pre[0]);
        if pre[0].key@ != k {
            assert(forall|j: int|
                0 <= j < pre.drop_first().len() ==> pre.drop_first()[j] == pre[j + 1]);
            assert(forall|j: int|
                0 <= j < post.drop_first().len() ==> post.drop_first()[j] == post[j + 1]);
            lemma_alist_get_frame(pre.drop_first(), post.drop_first(), i - 1, k);
        }
    }
}

/// Removing the entry at `i` leaves every other key's binding as it was.
proof fn lemma_alist_get_remove(pre: Seq<ArgEntry>, i: int, k: Seq<char>)
    requires
        alist_wf(pre),
        0 <= i < pre.len(),
        k != pre[i].key@,
    ensures
        alist_get(pre.remove(i), k) == alist_get(pre, k),
    decreases pre.len(),
{
    let post = pre.remove(i);
    if i == 0 {
        assert(post =~= pre.drop_first());
    } else {
        assert(pre[0].key@ == post[0].key@ && pre[0].value@ == post[0].value@);
        if pre[0].key@ != k {
            assert(pre.drop_first().remove(i - 1) =~= post.drop_first());
            lemma_alist_get_remove(pre.drop_first(), i - 1, k);
        }
    }
}

} // verus!
