//! The per-provider credential table.

use vstd::prelude::*;

verus! {

/// One stored credential.
#[derive(Debug)]
struct Entry {
    provider: String,
    key: String,
}

/// Secret keys by provider identifier. No provider occurs twice and no stored key is empty.
#[derive(Debug)]
pub struct ApiKeys {
    entries: Vec<Entry>,
}

/// Whether `entries[i]` belongs to `provider`.
spec fn holds_at(entries: Seq<Entry>, provider: Seq<char>, i: int) -> bool {
    0 <= i < entries.len() && entries[i].provider@ == provider
}

/// No provider has two entries.
spec fn distinct(entries: Seq<Entry>) -> bool {
    forall|i: int, j: int|
        0 <= i < j < entries.len() ==> entries[i].provider@ != entries[j].provider@
}

/// The mapping that a duplicate-free list of entries stands for.
spec fn table(entries: Seq<Entry>) -> Map<Seq<char>, Seq<char>> {
    Map::new(
        |p: Seq<char>| exists|i: int| holds_at(entries, p, i),
        |p: Seq<char>| entries[choose|i: int| holds_at(entries, p, i)].key@,
    )
}

/// What a table holds after `key` is stored for `provider`: an empty key removes the
/// provider's entry, any other key replaces or adds it.
pub open spec fn stored(
    keys: Map<Seq<char>, Seq<char>>,
    provider: Seq<char>,
    key: Seq<char>,
) -> Map<Seq<char>, Seq<char>> {
    if key.len() == 0 {
        keys.remove(provider)
    } else {
        keys.insert(provider, key)
    }
}

/// No provider is mapped to the empty key.
pub open spec fn without_empty_keys(keys: Map<Seq<char>, Seq<char>>) -> bool {
    forall|p: Seq<char>| keys.contains_key(p) ==> (#[trigger] keys[p]).len() > 0
}

/// Every entry of a duplicate-free list is what the table holds for its provider.
proof fn lemma_table_entry(entries: Seq<Entry>, i: int)
    requires
        distinct(entries),
        0 <= i < entries.len(),
    ensures
        table(entries).contains_key(entries[i].provider@),
        table(entries)[entries[i].provider@] == entries[i].key@,
{
    let p = entries[i].provider@;
    assert(holds_at(entries, p, i));
    let c = choose|c: int| holds_at(entries, p, c);
    assert(c == i);
}

/// Appending an entry for a provider that has none inserts it into the table.
proof fn lemma_table_push(entries: Seq<Entry>, e: Entry)
    requires
        distinct(entries),
        forall|i: int| !holds_at(entries, e.provider@, i),
    ensures
        distinct(entries.push(e)),
        table(entries.push(e)) == table(entries).insert(e.provider@, e.key@),
{
    let grown = entries.push(e);
    assert(distinct(grown)) by {
        assert forall|i: int, j: int| 0 <= i < j < grown.len() implies grown[i].provider@
            != grown[j].provider@ by {
            if j == entries.len() {
                assert(!holds_at(entries, e.provider@, i));
            }
        }
    }
    let want = table(entries).insert(e.provider@, e.key@);
    assert forall|p: Seq<char>| table(grown).contains_key(p) <==> want.contains_key(p) by {
        if table(grown).contains_key(p) {
            let i = choose|i: int| holds_at(grown, p, i);
            if i < entries.len() {
                assert(holds_at(entries, p, i));
            }
        }
        if want.contains_key(p) {
            if p == e.provider@ {
                assert(holds_at(grown, p, entries.len() as int));
            } else {
                let i = choose|i: int| holds_at(entries, p, i);
                assert(holds_at(grown, p, i));
            }
        }
    }
    assert forall|p: Seq<char>| table(grown).contains_key(p) implies table(grown)[p]
        == want[p] by {
        let i = choose|i: int| holds_at(grown, p, i);
        lemma_table_entry(grown, i);
        if i < entries.len() {
            lemma_table_entry(entries, i);
        }
    }
    assert(table(grown) =~= want);
}

/// Replacing the entry of a provider by another entry of that provider replaces its key in
/// the table.
proof fn lemma_table_update(entries: Seq<Entry>, at: int, e: Entry)
    requires
        distinct(entries),
        0 <= at < entries.len(),
        e.provider@ == entries[at].provider@,
    ensures
        distinct(entries.update(at, e)),
        table(entries.update(at, e)) == table(entries).insert(e.provider@, e.key@),
{
    let changed = entries.update(at, e);
    assert(distinct(changed)) by {
        assert forall|i: int, j: int| 0 <= i < j < changed.len() implies changed[i].provider@
            != changed[j].provider@ by {
            assert(entries[i].provider@ != entries[j].provider@);
        }
    }
    let want = table(entries).insert(e.provider@, e.key@);
    assert forall|p: Seq<char>| table(changed).contains_key(p) <==> want.contains_key(p) by {
        if table(changed).contains_key(p) {
            let i = choose|i: int| holds_at(changed, p, i);
            assert(holds_at(entries, p, i));
        }
        if want.contains_key(p) {
            if p == e.provider@ {
                assert(holds_at(changed, p, at));
            } else {
                let i = choose|i: int| holds_at(entries, p, i);
                assert(holds_at(changed, p, i));
            }
        }
    }
    assert forall|p: Seq<char>| table(changed).contains_key(p) implies table(changed)[p]
        == want[p] by {
        let i = choose|i: int| holds_at(changed, p, i);
        lemma_table_entry(changed, i);
        lemma_table_entry(entries, i);
    }
    assert(table(changed) =~= want);
}

/// Taking an entry out of the list removes its provider from the table.
proof fn lemma_table_remove(entries: Seq<Entry>, at: int)
    requires
        distinct(entries),
        0 <= at < entries.len(),
    ensures
        distinct(entries.remove(at)),
        table(entries.remove(at)) == table(entries).remove(entries[at].provider@),
{
    let rest = entries.remove(at);
    let gone = entries[at].provider@;
    assert forall|i: int| 0 <= i < rest.len() implies rest[i] == entries[if i < at {
        i
    } else {
        i + 1
    }] by {}
    assert(distinct(rest)) by {
        assert forall|i: int, j: int| 0 <= i < j < rest.len() implies rest[i].provider@
            != rest[j].provider@ by {
            let a = if i < at { i } else { i + 1 };
            let b = if j < at { j } else { j + 1 };
            assert(entries[a].provider@ != entries[b].provider@);
        }
    }
    let want = table(entries).remove(gone);
    assert forall|p: Seq<char>| table(rest).contains_key(p) <==> want.contains_key(p) by {
        if table(rest).contains_key(p) {
            let i = choose|i: int| holds_at(rest, p, i);
            let a = if i < at { i } else { i + 1 };
            assert(holds_at(entries, p, a));
            assert(entries[a].provider@ != entries[at].provider@);
        }
        if want.contains_key(p) {
            let a = choose|a: int| holds_at(entries, p, a);
            let i = if a < at { a } else { a - 1 };
            assert(holds_at(rest, p, i));
        }
    }
    assert forall|p: Seq<char>| table(rest).contains_key(p) implies table(rest)[p]
        == want[p] by {
        let i = choose|i: int| holds_at(rest, p, i);
        let a = if i < at { i } else { i + 1 };
        lemma_table_entry(rest, i);
        lemma_table_entry(entries, a);
    }
    assert(table(rest) =~= want);
}

/// A duplicate-free list of entries with non-empty keys stands for a table without empty
/// keys.
proof fn lemma_table_keys_nonempty(entries: Seq<Entry>)
    requires
        distinct(entries),
        forall|i: int| 0 <= i < entries.len() ==> entries[i].key@.len() > 0,
    ensures
        without_empty_keys(table(entries)),
{
    assert forall|p: Seq<char>| table(entries).contains_key(p) implies (#[trigger] table(
        entries,
    )[p]).len() > 0 by {
        let i = choose|i: int| holds_at(entries, p, i);
        lemma_table_entry(entries, i);
    }
}

impl View for ApiKeys {
    type V = Map<Seq<char>, Seq<char>>;

    closed spec fn view(&self) -> Map<Seq<char>, Seq<char>> {
        table(self.entries@)
    }
}

impl ApiKeys {
    #[verifier::type_invariant]
    spec fn well_formed(self) -> bool {
        &&& distinct(self.entries@)
        &&& forall|i: int| 0 <= i < self.entries@.len() ==> self.entries@[i].key@.len() > 0
    }

    /// A table with no credentials.
    pub fn new() -> (keys: ApiKeys)
        ensures
            keys@ == Map::<Seq<char>, Seq<char>>::empty(),
    {
        let keys = ApiKeys { entries: Vec::new() };
        assert(keys@ =~= Map::<Seq<char>, Seq<char>>::empty());
        keys
    }

    /// The position of `provider`'s entry, if it has one.
    fn position(&self, provider: &str) -> (found: Option<usize>)
        ensures
            match found {
                Some(i) => holds_at(self.entries@, provider@, i as int),
                None => forall|i: int| !holds_at(self.entries@, provider@, i),
            },
    {
        let wanted = provider.to_owned();
        let mut i: usize = 0;
        while i < self.entries.len()
            invariant
                i <= self.entries@.len(),
                wanted@ == provider@,
                forall|j: int| 0 <= j < i ==> self.entries@[j].provider@ != provider@,
            decreases self.entries@.len() - i,
        {
            if self.entries[i].provider == wanted {
                return Some(i);
            }
            i += 1;
        }
        None
    }

    /// The key stored for `provider`, if any. A stored key is never empty.
    pub fn get(&self, provider: &str) -> (found: Option<&String>)
        ensures
            match found {
                Some(key) => self@.contains_key(provider@) && key@ == self@[provider@],
                None => !self@.contains_key(provider@),
            },
            without_empty_keys(self@),
    {
        proof {
            use_type_invariant(self);
            lemma_table_keys_nonempty(self.entries@);
        }
        match self.position(provider) {
            Some(i) => {
                proof {
                    lemma_table_entry(self.entries@, i as int);
                }
                Some(&self.entries[i].key)
            },
            None => None,
        }
    }

    /// Whether a key is stored for `provider`.
    pub fn contains(&self, provider: &str) -> (present: bool)
        ensures
            present == self@.contains_key(provider@),
            without_empty_keys(self@),
    {
        proof {
            use_type_invariant(self);
            lemma_table_keys_nonempty(self.entries@);
        }
        self.position(provider).is_some()
    }

    /// Stores `key` for `provider`. An empty `key` removes the provider's entry instead.
    pub fn set(&mut self, provider: &str, key: &str)
        ensures
            final(self)@ == stored(old(self)@, provider@, key@),
            without_empty_keys(final(self)@),
    {
        proof {
            use_type_invariant(&*self);
        }
        let found = self.position(provider);
        let mut entries: Vec<Entry> = Vec::new();
        std::mem::swap(&mut self.entries, &mut entries);
        if key.is_empty() {
            match found {
                Some(i) => {
                    proof {
                        lemma_table_remove(entries@, i as int);
                    }
                    entries.remove(i);
                },
                None => {
                    assert(table(entries@) =~= table(entries@).remove(provider@));
                },
            }
        } else {
            let entry = Entry { provider: provider.to_owned(), key: key.to_owned() };
            match found {
                Some(i) => {
                    proof {
                        lemma_table_update(entries@, i as int, entry);
                    }
                    entries.set(i, entry);
                },
                None => {
                    proof {
                        lemma_table_push(entries@, entry);
                    }
                    entries.push(entry);
                },
            }
        }
        proof {
            lemma_table_keys_nonempty(entries@);
        }
        self.entries = entries;
    }

    /// Every stored credential once, as `(provider, key)` pairs.
    pub fn entries(&self) -> (pairs: Vec<(String, String)>)
        ensures
            forall|i: int|
                0 <= i < pairs@.len() ==> self@.contains_key(#[trigger] pairs@[i].0@)
                    && self@[pairs@[i].0@] == pairs@[i].1@,
            forall|p: Seq<char>|
                self@.contains_key(p) ==> exists|i: int|
                    0 <= i < pairs@.len() && #[trigger] pairs@[i].0@ == p,
            forall|i: int, j: int|
                0 <= i < j < pairs@.len() ==> pairs@[i].0@ != pairs@[j].0@,
            without_empty_keys(self@),
    {
        proof {
            use_type_invariant(self);
            lemma_table_keys_nonempty(self.entries@);
        }
        let mut pairs: Vec<(String, String)> = Vec::new();
        let mut i: usize = 0;
        while i < self.entries.len()
            invariant
                i <= self.entries@.len(),
                pairs@.len() == i,
                forall|j: int|
                    0 <= j < i ==> (#[trigger] pairs@[j]).0@ == self.entries@[j].provider@
                        && pairs@[j].1@ == self.entries@[j].key@,
            decreases self.entries@.len() - i,
        {
            pairs.push((self.entries[i].provider.clone(), self.entries[i].key.clone()));
            i += 1;
        }
        proof {
            assert forall|j: int| 0 <= j < pairs@.len() implies self@.contains_key(
                #[trigger] pairs@[j].0@,
            ) && self@[pairs@[j].0@] == pairs@[j].1@ by {
                lemma_table_entry(self.entries@, j);
            }
            assert forall|p: Seq<char>| self@.contains_key(p) implies exists|j: int|
                0 <= j < pairs@.len() && #[trigger] pairs@[j].0@ == p by {
                let j = choose|j: int| holds_at(self.entries@, p, j);
                assert(pairs@[j].0@ == p);
            }
        }
        pairs
    }
}

impl Clone for ApiKeys {
    /// A table with the same credentials.
    fn clone(&self) -> (copy: ApiKeys)
        ensures
            copy@ == self@,
    {
        proof {
            use_type_invariant(self);
        }
        let mut entries: Vec<Entry> = Vec::new();
        let mut i: usize = 0;
        while i < self.entries.len()
            invariant
                i <= self.entries@.len(),
                entries@.len() == i,
                forall|j: int|
                    0 <= j < i ==> (#[trigger] entries@[j]).provider@ == self.entries@[j].provider@
                        && entries@[j].key@ == self.entries@[j].key@,
            decreases self.entries@.len() - i,
        {
            entries.push(
                Entry {
                    provider: self.entries[i].provider.clone(),
                    key: self.entries[i].key.clone(),
                },
            );
            i += 1;
        }
        proof {
            let a = entries@;
            let b = self.entries@;
            assert forall|p: Seq<char>, j: int| holds_at(a, p, j) <==> holds_at(b, p, j) by {}
            assert forall|p: Seq<char>| #[trigger] table(a).contains_key(p) implies table(a)[p]
                == table(b)[p] by {
                let j = choose|j: int| holds_at(a, p, j);
                let k = choose|k: int| holds_at(b, p, k);
                assert(holds_at(b, p, j));
            }
            assert(table(a) =~= table(b));
        }
        ApiKeys { entries }
    }
}

} // verus!
