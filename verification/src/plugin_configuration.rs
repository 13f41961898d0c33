use vstd::prelude::*;

use crate::text::{chars_equal, chars_of, str_equal};

verus! {

/// `a` sorts before `b`: compared character by character (by code point),
/// with a proper prefix first. This is the order of `String`'s `Ord`.
pub open spec fn chars_lt(a: Seq<char>, b: Seq<char>) -> bool
    decreases a.len(),
{
    if a.len() == 0 {
        b.len() > 0
    } else if b.len() == 0 {
        false
    } else if a[0] != b[0] {
        a[0] < b[0]
    } else {
        chars_lt(a.drop_first(), b.drop_first())
    }
}

/// No sequence sorts before itself.
pub proof fn lemma_chars_lt_irreflexive(a: Seq<char>)
    ensures
        !chars_lt(a, a),
    decreases a.len(),
{
    if a.len() > 0 {
        lemma_chars_lt_irreflexive(a.drop_first());
    }
}

/// Two different sequences are ordered one way round, and not both ways.
pub proof fn lemma_chars_lt_total(a: Seq<char>, b: Seq<char>)
    ensures
        a != b ==> chars_lt(a, b) || chars_lt(b, a),
        !(chars_lt(a, b) && chars_lt(b, a)),
    decreases a.len(),
{
    if a.len() > 0 && b.len() > 0 && a[0] == b[0] {
        lemma_chars_lt_total(a.drop_first(), b.drop_first());
        if a != b {
            if a.drop_first() == b.drop_first() {
                assert(a =~= seq![a[0]] + a.drop_first());
                assert(b =~= seq![b[0]] + b.drop_first());
            }
        }
    } else if a.len() == 0 && b.len() == 0 {
        assert(a =~= b);
    }
}

/// The order is transitive.
pub proof fn lemma_chars_lt_transitive(a: Seq<char>, b: Seq<char>, c: Seq<char>)
    requires
        chars_lt(a, b),
        chars_lt(b, c),
    ensures
        chars_lt(a, c),
    decreases a.len(),
{
    if a.len() > 0 && b.len() > 0 && c.len() > 0 && a[0] == b[0] && b[0] == c[0] {
        lemma_chars_lt_transitive(a.drop_first(), b.drop_first(), c.drop_first());
    }
}

/// Whether `a` sorts before `b`.
fn chars_less(a: &[char], b: &[char]) -> (r: bool)
    ensures
        r == chars_lt(a@, b@),
{
    let n = a.len();
    let m = b.len();
    let mut i: usize = 0;
    assert(a@.skip(0) =~= a@);
    assert(b@.skip(0) =~= b@);
    while i < n && i < m && a[i] == b[i]
        invariant
            n == a@.len(),
            m == b@.len(),
            i <= n,
            i <= m,
            chars_lt(a@, b@) == chars_lt(a@.skip(i as int), b@.skip(i as int)),
        decreases n - i,
    {
        assert(a@.skip(i as int).drop_first() =~= a@.skip(i + 1));
        assert(b@.skip(i as int).drop_first() =~= b@.skip(i + 1));
        i = i + 1;
    }
    if i == n {
        i < m
    } else if i == m {
        false
    } else {
        a[i] < b[i]
    }
}

/// Entries whose keys strictly increase.
pub open spec fn keys_strictly_sorted(entries: Seq<(Seq<char>, Seq<char>)>) -> bool {
    forall|i: int, j: int|
        0 <= i < j < entries.len() ==> chars_lt(#[trigger] entries[i].0, #[trigger] entries[j].0)
}

/// The value stored under `key`, if any.
pub open spec fn lookup(entries: Seq<(Seq<char>, Seq<char>)>, key: Seq<char>) -> Option<
    Seq<char>,
> {
    if exists|i: int| 0 <= i < entries.len() && #[trigger] entries[i].0 == key {
        Some(entries[choose|i: int| 0 <= i < entries.len() && #[trigger] entries[i].0 == key].1)
    } else {
        None
    }
}

/// In sorted entries, the key at `i` looks up the value at `i`.
pub proof fn lemma_lookup_at(entries: Seq<(Seq<char>, Seq<char>)>, i: int)
    requires
        keys_strictly_sorted(entries),
        0 <= i < entries.len(),
    ensures
        lookup(entries, entries[i].0) == Some(entries[i].1),
{
    let key = entries[i].0;
    let j = choose|j: int| 0 <= j < entries.len() && #[trigger] entries[j].0 == key;
    lemma_chars_lt_irreflexive(key);
    if j < i {
        assert(chars_lt(entries[j].0, entries[i].0));
    } else if j > i {
        assert(chars_lt(entries[i].0, entries[j].0));
    }
}

/// The plugin's key/value configuration, ordered by key as a `BTreeMap`
/// iterates it. It is a key-sorted list rather than a `BTreeMap<String,
/// String>` because vstd's specifications of `BTreeMap` hold only for key
/// types whose ordering is specified, and vstd specifies none for `String`.
pub struct PluginConfiguration {
    entries: Vec<(String, String)>,
}

/// The characters of the keys and values of `entries`.
pub open spec fn entries_view(entries: Seq<(String, String)>) -> Seq<(Seq<char>, Seq<char>)> {
    entries.map_values(|entry: (String, String)| (entry.0@, entry.1@))
}

impl View for PluginConfiguration {
    type V = Seq<(Seq<char>, Seq<char>)>;

    closed spec fn view(&self) -> Seq<(Seq<char>, Seq<char>)> {
        entries_view(self.entries@)
    }
}

impl PluginConfiguration {
    #[verifier::type_invariant]
    closed spec fn well_formed(&self) -> bool {
        keys_strictly_sorted(entries_view(self.entries@))
    }

    /// An empty configuration.
    pub fn new() -> (configuration: Self)
        ensures
            configuration@ == Seq::<(Seq<char>, Seq<char>)>::empty(),
    {
        let configuration = PluginConfiguration { entries: Vec::new() };
        assert(entries_view(configuration.entries@) =~= Seq::<(Seq<char>, Seq<char>)>::empty());
        configuration
    }

    /// The entries in key order.
    pub fn entries(&self) -> (entries: &[(String, String)])
        ensures
            entries_view(entries@) == self@,
            keys_strictly_sorted(self@),
    {
        proof {
            use_type_invariant(self);
        }
        self.entries.as_slice()
    }

    /// Stores `value` under `key`, replacing any value it had; the entries stay
    /// in key order.
    pub fn insert(&mut self, key: String, value: String)
        ensures
            keys_strictly_sorted(final(self)@),
            forall|k: Seq<char>|
                #[trigger] lookup(final(self)@, k) == if k == key@ {
                    Some(value@)
                } else {
                    lookup(old(self)@, k)
                },
    {
        proof {
            use_type_invariant(&*self);
        }
        let mut entries: Vec<(String, String)> = Vec::new();
        std::mem::swap(&mut entries, &mut self.entries);
        let ghost old_view = entries_view(entries@);
        assert(old_view == old(self)@);
        let key_chars = chars_of(key.as_str());
        let n = entries.len();
        let mut i: usize = 0;
        while i < n && chars_less(chars_of(entries[i].0.as_str()).as_slice(), key_chars.as_slice())
            invariant
                n == entries@.len(),
                old_view == entries_view(entries@),
                keys_strictly_sorted(old_view),
                key_chars@ == key@,
                i <= n,
                forall|k: int| 0 <= k < i ==> chars_lt(#[trigger] old_view[k].0, key@),
            decreases n - i,
        {
            i = i + 1;
        }
        let ghost i_ghost = i as int;
        proof {
            assert forall|k: int| i_ghost < k < n implies chars_lt(key@, #[trigger] old_view[k].0) by {
                assert(chars_lt(old_view[i_ghost].0, old_view[k].0));
                assert(!chars_lt(old_view[i_ghost].0, key@));
                lemma_chars_lt_total(old_view[i_ghost].0, key@);
                if old_view[i_ghost].0 != key@ {
                    lemma_chars_lt_transitive(key@, old_view[i_ghost].0, old_view[k].0);
                }
            }
        }
        if i < n && str_equal(entries[i].0.as_str(), key.as_str()) {
            entries.set(i, (key, value));
            proof {
                let new_view = entries_view(entries@);
                assert(new_view =~= old_view.update(i_ghost, (key@, value@)));
                assert(keys_strictly_sorted(new_view));
                assert forall|k: Seq<char>| #[trigger]
                    lookup(new_view, k) == if k == key@ {
                        Some(value@)
                    } else {
                        lookup(old_view, k)
                    } by {
                    lemma_lookup_at(new_view, i_ghost);
                    if k != key@ {
                        if exists|j: int| 0 <= j < new_view.len() && #[trigger] new_view[j].0 == k {
                            let j = choose|j: int| 0 <= j < new_view.len() && #[trigger] new_view[j].0 == k;
                            lemma_lookup_at(new_view, j);
                            lemma_lookup_at(old_view, j);
                        } else {
                            assert forall|j: int| 0 <= j < old_view.len() implies #[trigger] old_view[j].0 != k by {
                                assert(new_view[j].0 == old_view[j].0 || j == i_ghost);
                            }
                        }
                    }
                }
            }
        } else {
            proof {
                if i < n {
                    assert(old_view[i_ghost].0 != key@);
                    lemma_chars_lt_total(old_view[i_ghost].0, key@);
                    assert(chars_lt(key@, old_view[i_ghost].0));
                }
            }
            entries.insert(i, (key, value));
            proof {
                let new_view = entries_view(entries@);
                assert(new_view =~= old_view.insert(i_ghost, (key@, value@)));
                assert forall|a: int, b: int| 0 <= a < b < new_view.len() implies chars_lt(
                    #[trigger] new_view[a].0,
                    #[trigger] new_view[b].0,
                ) by {
                    if b == i_ghost {
                    } else if a == i_ghost {
                    } else if a < i_ghost && b > i_ghost {
                        lemma_chars_lt_transitive(old_view[a].0, key@, old_view[b - 1].0);
                    } else if a > i_ghost {
                        assert(chars_lt(old_view[a - 1].0, old_view[b - 1].0));
                    } else {
                        assert(chars_lt(old_view[a].0, old_view[b].0));
                    }
                }
                assert forall|k: Seq<char>| #[trigger]
                    lookup(new_view, k) == if k == key@ {
                        Some(value@)
                    } else {
                        lookup(old_view, k)
                    } by {
                    lemma_lookup_at(new_view, i_ghost);
                    if k != key@ {
                        if exists|j: int| 0 <= j < new_view.len() && #[trigger] new_view[j].0 == k {
                            let j = choose|j: int| 0 <= j < new_view.len() && #[trigger] new_view[j].0 == k;
                            lemma_lookup_at(new_view, j);
                            if j < i_ghost {
                                lemma_lookup_at(old_view, j);
                            } else {
                                assert(j > i_ghost);
                                lemma_lookup_at(old_view, j - 1);
                            }
                        } else {
                            assert forall|j: int| 0 <= j < old_view.len() implies #[trigger] old_view[j].0 != k by {
                                if j < i_ghost {
                                    assert(new_view[j].0 == old_view[j].0);
                                } else {
                                    assert(new_view[j + 1].0 == old_view[j].0);
                                }
                            }
                        }
                    }
                }
            }
        }
        self.entries = entries;
    }

    /// The value stored under `key`, if any.
    pub fn get(&self, key: &str) -> (value: Option<&String>)
        ensures
            match value {
                Some(v) => lookup(self@, key@) == Some(v@),
                None => lookup(self@, key@) is None,
            },
    {
        proof {
            use_type_invariant(self);
        }
        let ghost view = self@;
        let n = self.entries.len();
        let mut i: usize = 0;
        while i < n
            invariant
                n == self.entries@.len(),
                view == entries_view(self.entries@),
                keys_strictly_sorted(view),
                i <= n,
                forall|k: int| 0 <= k < i ==> #[trigger] view[k].0 != key@,
            decreases n - i,
        {
            if str_equal(self.entries[i].0.as_str(), key) {
                proof {
                    lemma_lookup_at(view, i as int);
                }
                return Some(&self.entries[i].1);
            }
            i = i + 1;
        }
        None
    }
}

} // verus!
