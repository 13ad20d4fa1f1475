use vstd::prelude::*;
use crate::text::{join2, text_eq};

verus! {

/// Keyed entries, in the order of first assignment.
pub type Entries = Seq<(Seq<char>, Seq<char>)>;

/// Whether each key occurs at most once.
pub open spec fn keys_unique<V>(es: Seq<(Seq<char>, V)>) -> bool {
    forall|i: int, j: int| 0 <= i < es.len() && 0 <= j < es.len() && i != j ==> es[i].0 != es[j].0
}

/// Whether `key` has an entry.
pub open spec fn has_key<V>(es: Seq<(Seq<char>, V)>, key: Seq<char>) -> bool {
    exists|i: int| 0 <= i < es.len() && #[trigger] es[i].0 == key
}

/// The value stored under `key`, if any.
pub open spec fn value_of<V>(es: Seq<(Seq<char>, V)>, key: Seq<char>) -> Option<V> {
    if has_key(es, key) {
        Some(es[choose|i: int| 0 <= i < es.len() && #[trigger] es[i].0 == key].1)
    } else {
        None
    }
}

/// The entries after assigning `value` to `key`: an existing entry is overwritten in place,
/// a new key goes last.
pub open spec fn assign<V>(es: Seq<(Seq<char>, V)>, key: Seq<char>, value: V) -> Seq<(Seq<char>, V)> {
    if has_key(es, key) {
        es.update(choose|i: int| 0 <= i < es.len() && #[trigger] es[i].0 == key, (key, value))
    } else {
        es.push((key, value))
    }
}

/// Whether `$key` starts at position `i` of `t`.
pub open spec fn refers_at(t: Seq<char>, i: int, key: Seq<char>) -> bool {
    0 <= i && i + 1 + key.len() <= t.len() && t.subrange(i, i + 1 + key.len()) == seq!['$'] + key
}

/// The first entry, from index `j` on, whose `$name` starts at position `i` of `t`.
pub open spec fn first_ref(es: Entries, t: Seq<char>, i: int, j: int) -> Option<int>
    decreases es.len() - j,
{
    if j < 0 || j >= es.len() {
        None
    } else if refers_at(t, i, es[j].0) {
        Some(j)
    } else {
        first_ref(es, t, i, j + 1)
    }
}

/// `t` from position `i` on, in one left-to-right pass: each `$name` reference is replaced by
/// the value of `name` (the first entry that matches there), and the inserted value is not
/// scanned again.
pub open spec fn expand_from(es: Entries, t: Seq<char>, i: int) -> Seq<char>
    decreases t.len() - i,
{
    if i < 0 || i >= t.len() {
        Seq::empty()
    } else {
        match first_ref(es, t, i, 0) {
            Some(j) => if 0 <= j < es.len() && refers_at(t, i, es[j].0) {
                es[j].1 + expand_from(es, t, i + 1 + es[j].0.len())
            } else {
                seq![t[i]] + expand_from(es, t, i + 1)
            },
            None => seq![t[i]] + expand_from(es, t, i + 1),
        }
    }
}

proof fn lemma_first_ref(es: Entries, t: Seq<char>, i: int, j: int)
    requires
        0 <= j,
    ensures
        first_ref(es, t, i, j) matches Some(f) ==> j <= f < es.len() && refers_at(t, i, es[f].0),
    decreases es.len() - j,
{
    if j < es.len() && !refers_at(t, i, es[j].0) {
        lemma_first_ref(es, t, i, j + 1);
    }
}

/// Whether `$key` starts at character `i` of `t`, which has `n` characters.
fn refers_at_exec(t: &str, n: usize, i: usize, key: &str) -> (r: bool)
    requires
        n == t@.len(),
        i < n,
    ensures
        r == refers_at(t@, i as int, key@),
{
    let klen = key.unicode_len();
    if klen >= n - i {
        return false;
    }
    let seg = String::from_str(t.substring_char(i, i + 1 + klen));
    let pattern = join2("$", key);
    proof {
        reveal_strlit("$");
        assert("$"@ =~= seq!['$']);
        assert(pattern@ =~= seq!['$'] + key@);
    }
    seg == pattern
}

/// Variables shared by the actions of a run, with the termination request.
#[derive(Debug, Clone)]
pub struct ActionContext {
    pub variables: Vec<(String, String)>,
    /// Set when an action asks the monitor to stop.
    pub should_terminate: bool,
    /// Why termination was asked for.
    pub termination_reason: Option<String>,
}

impl ActionContext {
    pub open spec fn entries(&self) -> Entries {
        self.variables@.map_values(|p: (String, String)| (p.0@, p.1@))
    }

    pub open spec fn wf(&self) -> bool {
        keys_unique(self.entries())
    }

    /// The value of a variable.
    pub open spec fn var(&self, key: Seq<char>) -> Option<Seq<char>> {
        value_of(self.entries(), key)
    }

    pub open spec fn reason(&self) -> Option<Seq<char>> {
        match self.termination_reason {
            Some(r) => Some(r@),
            None => None,
        }
    }

    pub fn new() -> (r: ActionContext)
        ensures
            r.wf(),
            r.entries() == Seq::<(Seq<char>, Seq<char>)>::empty(),
            !r.should_terminate,
            r.termination_reason is None,
    {
        let r = ActionContext { variables: Vec::new(), should_terminate: false, termination_reason: None };
        proof {
            assert(r.entries() =~= Seq::<(Seq<char>, Seq<char>)>::empty());
        }
        r
    }

    fn find(&self, key: &str) -> (r: Option<usize>)
        ensures
            match r {
                Some(i) => i < self.variables@.len() && self.entries()[i as int].0 == key@,
                None => !has_key(self.entries(), key@),
            },
    {
        let n = self.variables.len();
        let mut i: usize = 0;
        while i < n
            invariant
                n == self.variables@.len(),
                i <= n,
                forall|j: int| 0 <= j < i ==> self.entries()[j].0 != key@,
            decreases n - i,
        {
            let same = text_eq(self.variables[i].0.as_str(), key);
            if same {
                return Some(i);
            }
            i = i + 1;
        }
        None
    }

    /// Assigns `value` to `key`.
    pub fn set(&mut self, key: &str, value: &str)
        requires
            old(self).wf(),
        ensures
            final(self).wf(),
            final(self).entries() == assign(old(self).entries(), key@, value@),
            final(self).var(key@) == Some(value@),
            forall|k: Seq<char>| k != key@ ==> #[trigger] final(self).var(k) == old(self).var(k),
            final(self).should_terminate == old(self).should_terminate,
            final(self).termination_reason == old(self).termination_reason,
    {
        let ghost es = self.entries();
        match self.find(key) {
            Some(i) => {
                self.variables.set(i, (String::from_str(key), String::from_str(value)));
                proof {
                    assert(self.entries() =~= es.update(i as int, (key@, value@)));
                }
            },
            None => {
                self.variables.push((String::from_str(key), String::from_str(value)));
                proof {
                    assert(self.entries() =~= es.push((key@, value@)));
                }
            },
        }
        proof {
            let ns = self.entries();
            let idx = choose|i: int| 0 <= i < es.len() && #[trigger] es[i].0 == key@;
            assert(keys_unique(ns));
            assert(has_key(ns, key@)) by {
                if has_key(es, key@) {
                    assert(ns[idx].0 == key@);
                } else {
                    assert(ns[es.len() as int].0 == key@);
                }
            }
            assert forall|k: Seq<char>| k != key@ implies #[trigger] value_of(ns, k) == value_of(es, k) by {
                if has_key(es, k) {
                    let j = choose|j: int| 0 <= j < es.len() && #[trigger] es[j].0 == k;
                    assert(ns[j].0 == k);
                }
                if has_key(ns, k) {
                    let j = choose|j: int| 0 <= j < ns.len() && #[trigger] ns[j].0 == k;
                    assert(es[j].0 == k);
                }
            }
        }
    }

    /// The value of `key`, if set.
    pub fn get(&self, key: &str) -> (r: Option<&str>)
        requires
            self.wf(),
        ensures
            match r {
                Some(v) => self.var(key@) == Some(v@),
                None => self.var(key@) is None,
            },
    {
        match self.find(key) {
            Some(i) => Some(self.variables[i].1.as_str()),
            None => None,
        }
    }

    /// `text` with each `$name` replaced by the value of `name`, in one left-to-right pass;
    /// inserted values are not expanded again.
    pub fn expand(&self, text: &str) -> (r: String)
        ensures
            r@ == expand_from(self.entries(), text@, 0),
    {
        let ghost es = self.entries();
        let ghost t = text@;
        let n = text.unicode_len();
        let m = self.variables.len();
        let mut out = String::new();
        let mut i: usize = 0;
        while i < n
            invariant
                n == t.len(),
                t == text@,
                es == self.entries(),
                m == self.variables@.len(),
                i <= n,
                out@ + expand_from(es, t, i as int) == expand_from(es, t, 0),
            decreases n - i,
        {
            let mut j: usize = 0;
            let mut found: Option<usize> = None;
            while j < m && found.is_none()
                invariant
                    n == t.len(),
                    t == text@,
                    es == self.entries(),
                    m == self.variables@.len(),
                    i < n,
                    j <= m,
                    found is None ==> first_ref(es, t, i as int, 0) == first_ref(es, t, i as int, j as int),
                    found matches Some(f) ==> first_ref(es, t, i as int, 0) == Some(f as int) && f < m,
                decreases m - j + (if found is None { 1int } else { 0int }),
            {
                if refers_at_exec(text, n, i, self.variables[j].0.as_str()) {
                    found = Some(j);
                } else {
                    j = j + 1;
                }
            }
            let ghost before = out@;
            proof {
                lemma_first_ref(es, t, i as int, 0);
            }
            match found {
                Some(f) => {
                    let klen = self.variables[f].0.as_str().unicode_len();
                    out.append(self.variables[f].1.as_str());
                    proof {
                        assert(es[f as int] == (self.variables@[f as int].0@, self.variables@[f as int].1@));
                        assert(expand_from(es, t, i as int) == es[f as int].1 + expand_from(es, t, i + 1 + klen));
                        assert(out@ + expand_from(es, t, i + 1 + klen) =~= before + expand_from(es, t, i as int));
                    }
                    i = i + 1 + klen;
                },
                None => {
                    out.append(text.substring_char(i, i + 1));
                    proof {
                        assert(first_ref(es, t, i as int, m as int) is None);
                        assert(t.subrange(i as int, i + 1) =~= seq![t[i as int]]);
                        assert(expand_from(es, t, i as int) == seq![t[i as int]] + expand_from(es, t, i + 1));
                        assert(out@ + expand_from(es, t, i + 1) =~= before + expand_from(es, t, i as int));
                    }
                    i = i + 1;
                },
            }
        }
        proof {
            assert(out@ + expand_from(es, t, n as int) =~= out@);
        }
        out
    }

    /// Asks the monitor to stop, for `reason`.
    pub fn request_termination(&mut self, reason: &str)
        ensures
            final(self).should_terminate,
            final(self).reason() == Some(reason@),
            final(self).variables == old(self).variables,
    {
        self.should_terminate = true;
        self.termination_reason = Some(String::from_str(reason));
    }

    pub fn is_termination_requested(&self) -> (r: bool)
        ensures
            r == self.should_terminate,
    {
        self.should_terminate
    }
}

} // verus!
