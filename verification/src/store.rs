use vstd::prelude::*;

use crate::json::{
    distinct_keys, entries_view, first_key_at, lemma_lookup_first, lemma_lookup_none,
    lemma_lookup_push, lemma_lookup_update, lookup, JsonValue, JsonView,
};

verus! {

/// The map that an object's entries describe: each key to the value that `lookup` finds for it.
pub open spec fn entries_map(entries: Seq<(Seq<char>, JsonView)>) -> Map<Seq<char>, JsonView> {
    Map::new(|k: Seq<char>| lookup(entries, k) is Some, |k: Seq<char>| lookup(entries, k)->0)
}

/// `o` is a JSON object with distinct keys whose members are exactly the entries of `m`.
pub open spec fn represents(o: JsonView, m: Map<Seq<char>, JsonView>) -> bool {
    &&& o is Object
    &&& distinct_keys(o->Object_0)
    &&& forall|k: Seq<char>| #[trigger] lookup(o->Object_0, k) == m.get(k)
}

/// `m` after `writes` are applied in order: a later write of a key replaces an earlier one.
pub open spec fn apply_writes(
    m: Map<Seq<char>, JsonView>,
    writes: Seq<(Seq<char>, JsonView)>,
) -> Map<Seq<char>, JsonView>
    decreases writes.len(),
{
    if writes.len() == 0 {
        m
    } else {
        apply_writes(m, writes.drop_last()).insert(writes.last().0, writes.last().1)
    }
}

/// After a sequence of writes, a written key holds the value of its last write.
pub proof fn lemma_last_write_wins(
    m: Map<Seq<char>, JsonView>,
    writes: Seq<(Seq<char>, JsonView)>,
    i: int,
)
    requires
        0 <= i < writes.len(),
        forall|j: int| i < j < writes.len() ==> writes[j].0 != writes[i].0,
    ensures
        apply_writes(m, writes).get(writes[i].0) == Some(writes[i].1),
    decreases writes.len(),
{
    if i < writes.len() - 1 {
        let rest = writes.drop_last();
        assert(rest[i] == writes[i]);
        assert forall|j: int| i < j < rest.len() implies rest[j].0 != rest[i].0 by {
            assert(rest[j] == writes[j]);
        }
        lemma_last_write_wins(m, rest, i);
    }
}

/// A key that no write mentions keeps the value that it held before.
pub proof fn lemma_unwritten_key_kept(
    m: Map<Seq<char>, JsonView>,
    writes: Seq<(Seq<char>, JsonView)>,
    key: Seq<char>,
)
    requires
        forall|j: int| 0 <= j < writes.len() ==> writes[j].0 != key,
    ensures
        apply_writes(m, writes).get(key) == m.get(key),
    decreases writes.len(),
{
    if writes.len() > 0 {
        let rest = writes.drop_last();
        assert forall|j: int| 0 <= j < rest.len() implies rest[j].0 != key by {
            assert(rest[j] == writes[j]);
        }
        lemma_unwritten_key_kept(m, rest, key);
        assert(writes.last().0 != key);
    }
}

/// What a cell stores is what a later cell loads: when the object handed to the later cell
/// represents the store after the writes, the last write of a key is what it finds there.
pub proof fn lemma_written_value_reaches_next_cell(
    before: Map<Seq<char>, JsonView>,
    writes: Seq<(Seq<char>, JsonView)>,
    i: int,
    handed: JsonView,
)
    requires
        0 <= i < writes.len(),
        forall|j: int| i < j < writes.len() ==> writes[j].0 != writes[i].0,
        represents(handed, apply_writes(before, writes)),
    ensures
        handed.field(writes[i].0) == Some(writes[i].1),
{
    lemma_last_write_wins(before, writes, i);
    assert(lookup(handed->Object_0, writes[i].0) == apply_writes(before, writes).get(writes[i].0));
}

/// The values that cells of a session have stored with `store(key, value)`, by key.
#[derive(Debug)]
pub struct StoredValues {
    entries: Vec<(String, JsonValue)>,
}

impl View for StoredValues {
    type V = Map<Seq<char>, JsonView>;

    closed spec fn view(&self) -> Map<Seq<char>, JsonView> {
        entries_map(entries_view(self.entries@))
    }
}

impl StoredValues {
    #[verifier::type_invariant]
    spec fn keys_distinct(self) -> bool {
        distinct_keys(entries_view(self.entries@))
    }

    /// A store that holds nothing.
    pub fn new() -> (r: StoredValues)
        ensures
            r@ == Map::<Seq<char>, JsonView>::empty(),
    {
        let r = StoredValues { entries: Vec::new() };
        assert(r@ =~= Map::<Seq<char>, JsonView>::empty());
        r
    }

    /// Sets `key` to `value`, replacing what it held.
    pub fn insert(&mut self, key: String, value: JsonValue)
        ensures
            final(self)@ == old(self)@.insert(key@, value@),
    {
        proof {
            use_type_invariant(&*self);
        }
        let ghost old_view = self@;
        let mut entries: Vec<(String, JsonValue)> = Vec::new();
        std::mem::swap(&mut entries, &mut self.entries);
        let ghost ev = entries_view(entries@);
        assert(old_view == entries_map(ev));
        let mut i: usize = 0;
        while i < entries.len()
            invariant
                ev == entries_view(entries@),
                i <= entries.len(),
                forall|j: int| 0 <= j < i ==> ev[j].0 != key@,
            ensures
                ev == entries_view(entries@),
                i <= entries.len(),
                forall|j: int| 0 <= j < i ==> ev[j].0 != key@,
                i < entries.len() ==> ev[i as int].0 == key@,
            decreases entries.len() - i,
        {
            if entries[i].0 == key {
                break;
            }
            i = i + 1;
        }
        let ghost vv = value@;
        let ghost kv = key@;
        if i < entries.len() {
            assert(ev[i as int].0 == key@);
            assert(first_key_at(ev, key@, i as int));
            entries.set(i, (key, value));
            proof {
                let nv = entries_view(entries@);
                assert(nv =~= ev.update(i as int, (kv, vv)));
                assert forall|k: Seq<char>| #[trigger] lookup(nv, k) == (if k == kv { Some(vv) } else { lookup(ev, k) }) by {
                    lemma_lookup_update(ev, i as int, vv, k);
                }
                assert(entries_map(nv) =~= old_view.insert(kv, vv));
                assert(distinct_keys(nv));
            }
        } else {
            proof {
                lemma_lookup_none(ev, kv);
            }
            entries.push((key, value));
            proof {
                let nv = entries_view(entries@);
                assert(nv =~= ev.push((kv, vv)));
                assert forall|k: Seq<char>| #[trigger] lookup(nv, k) == (if lookup(ev, k) is Some { lookup(ev, k) } else if kv == k { Some(vv) } else { None }) by {
                    lemma_lookup_push(ev, (kv, vv), k);
                }
                assert(entries_map(nv) =~= old_view.insert(kv, vv));
                assert(distinct_keys(nv));
            }
        }
        self.entries = entries;
    }

    /// Applies the writes of a finished cell in order, as `extend` on a map does.
    pub fn store_writes(&mut self, writes: Vec<(String, JsonValue)>)
        ensures
            final(self)@ == apply_writes(old(self)@, entries_view(writes@)),
    {
        let ghost start = self@;
        let ghost wv = entries_view(writes@);
        let mut i: usize = 0;
        while i < writes.len()
            invariant
                wv == entries_view(writes@),
                i <= writes.len(),
                self@ == apply_writes(start, wv.take(i as int)),
            decreases writes.len() - i,
        {
            let key = writes[i].0.clone();
            let value = writes[i].1.deep_copy();
            self.insert(key, value);
            proof {
                assert(wv.take(i + 1).drop_last() =~= wv.take(i as int));
                assert(wv.take(i + 1).last() == wv[i as int]);
            }
            i = i + 1;
        }
        assert(wv.take(writes.len() as int) =~= wv);
    }

    /// The value stored under `key`, copied out.
    pub fn get(&self, key: &str) -> (r: Option<JsonValue>)
        ensures
            match r {
                Some(v) => self@.get(key@) == Some(v@),
                None => self@.get(key@) is None,
            },
    {
        proof {
            use_type_invariant(self);
        }
        let ghost ev = entries_view(self.entries@);
        let wanted = key.to_owned();
        let mut i: usize = 0;
        while i < self.entries.len()
            invariant
                ev == entries_view(self.entries@),
                wanted@ == key@,
                i <= self.entries.len(),
                forall|j: int| 0 <= j < i ==> ev[j].0 != key@,
            decreases self.entries.len() - i,
        {
            if self.entries[i].0 == wanted {
                proof {
                    assert(ev[i as int].0 == key@);
                    lemma_lookup_first(ev, key@, i as int);
                }
                return Some(self.entries[i].1.deep_copy());
            }
            i = i + 1;
        }
        proof {
            lemma_lookup_none(ev, key@);
        }
        None
    }

    /// The stored values as one JSON object, the form in which a cell receives them.
    pub fn snapshot(&self) -> (r: JsonValue)
        ensures
            represents(r@, self@),
    {
        proof {
            use_type_invariant(self);
        }
        let ghost ev = entries_view(self.entries@);
        let mut out: Vec<(String, JsonValue)> = Vec::new();
        let mut i: usize = 0;
        while i < self.entries.len()
            invariant
                ev == entries_view(self.entries@),
                i <= self.entries.len(),
                out.len() == i,
                forall|j: int| 0 <= j < i ==> (#[trigger] out@[j]).0@ == ev[j].0 && out@[j].1@ == ev[j].1,
            decreases self.entries.len() - i,
        {
            let key = self.entries[i].0.clone();
            let value = self.entries[i].1.deep_copy();
            out.push((key, value));
            i = i + 1;
        }
        let r = JsonValue::Object(out);
        proof {
            assert(entries_view(out@) =~= ev);
            assert(r@ == JsonView::Object(ev)) by {
                if let JsonView::Object(a) = r@ {
                    assert(a =~= ev);
                }
            }
        }
        r
    }
}

} // verus!
