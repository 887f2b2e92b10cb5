use vstd::prelude::*;

verus! {

broadcast use vstd::std_specs::vec::group_vec_axioms;

/// The mathematical meaning of a JSON value: strings and numbers as character sequences,
/// arrays as sequences, objects as sequences of (key, value) entries.
pub enum JsonView {
    Null,
    Bool(bool),
    Number(Seq<char>),
    Str(Seq<char>),
    Array(Seq<JsonView>),
    Object(Seq<(Seq<char>, JsonView)>),
}

/// The value of the first entry of `entries` whose key is `key`.
pub open spec fn lookup(entries: Seq<(Seq<char>, JsonView)>, key: Seq<char>) -> Option<JsonView>
    decreases entries.len(),
{
    if entries.len() == 0 {
        None
    } else if entries[0].0 == key {
        Some(entries[0].1)
    } else {
        lookup(entries.drop_first(), key)
    }
}

/// No two entries share a key.
pub open spec fn distinct_keys(entries: Seq<(Seq<char>, JsonView)>) -> bool {
    forall|i: int, j: int| 0 <= i < j < entries.len() ==> entries[i].0 != entries[j].0
}

/// `entries` mentions `key` at index `i` and at no earlier index.
pub open spec fn first_key_at(entries: Seq<(Seq<char>, JsonView)>, key: Seq<char>, i: int) -> bool {
    &&& 0 <= i < entries.len()
    &&& entries[i].0 == key
    &&& forall|j: int| 0 <= j < i ==> entries[j].0 != key
}

impl JsonView {
    /// What `value.get(key)` finds: the member `key` of an object, nothing for other values.
    pub open spec fn field(self, key: Seq<char>) -> Option<JsonView> {
        match self {
            JsonView::Object(entries) => lookup(entries, key),
            _ => None,
        }
    }

    /// The text of a string value.
    pub open spec fn as_str(self) -> Option<Seq<char>> {
        match self {
            JsonView::Str(s) => Some(s),
            _ => None,
        }
    }

    /// The member `key` when it is present and is a string.
    pub open spec fn str_field(self, key: Seq<char>) -> Option<Seq<char>> {
        match self.field(key) {
            Some(v) => v.as_str(),
            None => None,
        }
    }
}

/// The entry found by `lookup` is the first one with that key.
pub proof fn lemma_lookup_first(entries: Seq<(Seq<char>, JsonView)>, key: Seq<char>, i: int)
    requires
        first_key_at(entries, key, i),
    ensures
        lookup(entries, key) == Some(entries[i].1),
    decreases entries.len(),
{
    if i > 0 {
        lemma_lookup_first(entries.drop_first(), key, i - 1);
    }
}

/// `lookup` finds nothing exactly when no entry has the key.
pub proof fn lemma_lookup_none(entries: Seq<(Seq<char>, JsonView)>, key: Seq<char>)
    ensures
        lookup(entries, key) is None <==> forall|j: int| 0 <= j < entries.len() ==> entries[j].0 != key,
    decreases entries.len(),
{
    if entries.len() > 0 {
        lemma_lookup_none(entries.drop_first(), key);
        if lookup(entries, key) is None {
            assert forall|j: int| 0 <= j < entries.len() implies entries[j].0 != key by {
                if j > 0 {
                    assert(entries.drop_first()[j - 1] == entries[j]);
                }
            }
        } else if entries[0].0 != key {
            let j = choose|j: int| 0 <= j < entries.drop_first().len() && entries.drop_first()[j].0 == key;
            assert(entries[j + 1].0 == key);
        }
    }
}

/// The entries of an object, each key and value taken by its view.
pub open spec fn entries_view(entries: Seq<(String, JsonValue)>) -> Seq<(Seq<char>, JsonView)> {
    Seq::new(entries.len(), |i: int| (entries[i].0@, entries[i].1@))
}

/// Appending an entry leaves every key that was already present as it was.
pub proof fn lemma_lookup_push(entries: Seq<(Seq<char>, JsonView)>, entry: (Seq<char>, JsonView), key: Seq<char>)
    ensures
        lookup(entries.push(entry), key) == (if lookup(entries, key) is Some {
            lookup(entries, key)
        } else if entry.0 == key {
            Some(entry.1)
        } else {
            None
        }),
    decreases entries.len(),
{
    let pushed = entries.push(entry);
    if entries.len() > 0 {
        assert(pushed[0] == entries[0]);
        assert(pushed.drop_first() =~= entries.drop_first().push(entry));
        lemma_lookup_push(entries.drop_first(), entry, key);
    } else {
        assert(pushed.drop_first() =~= Seq::<(Seq<char>, JsonView)>::empty());
        assert(lookup(pushed.drop_first(), key) is None);
        assert(pushed[0] == entry);
    }
}

/// Replacing the value of the first entry with a key changes what that key finds, and nothing else.
pub proof fn lemma_lookup_update(entries: Seq<(Seq<char>, JsonView)>, i: int, value: JsonView, key: Seq<char>)
    requires
        first_key_at(entries, entries[i].0, i),
    ensures
        lookup(entries.update(i, (entries[i].0, value)), key) == (if key == entries[i].0 {
            Some(value)
        } else {
            lookup(entries, key)
        }),
    decreases entries.len(),
{
    let updated = entries.update(i, (entries[i].0, value));
    if i > 0 {
        let rest = entries.drop_first();
        assert(updated[0] == entries[0]);
        assert(updated.drop_first() =~= rest.update(i - 1, (rest[i - 1].0, value)));
        lemma_lookup_update(rest, i - 1, value, key);
    } else {
        assert(updated.drop_first() =~= entries.drop_first());
    }
}

/// A JSON document as exchanged with the Node bridge, one per line.
/// A number is kept as its decimal text; an object keeps its entries in order, and a member is
/// looked up by the first entry with its key (objects read from a line have distinct keys).
#[derive(Debug, PartialEq)]
pub enum JsonValue {
    Null,
    Bool(bool),
    Number(String),
    String(String),
    Array(Vec<JsonValue>),
    Object(Vec<(String, JsonValue)>),
}

impl JsonValue {
    pub open spec fn view(self) -> JsonView
        decreases self,
    {
        match self {
            JsonValue::Null => JsonView::Null,
            JsonValue::Bool(b) => JsonView::Bool(b),
            JsonValue::Number(n) => JsonView::Number(n@),
            JsonValue::String(s) => JsonView::Str(s@),
            JsonValue::Array(items) => JsonView::Array(
                Seq::new(
                    items.len() as nat,
                    |i: int|
                        if 0 <= i < items.len() {
                            items[i].view()
                        } else {
                            JsonView::Null
                        },
                ),
            ),
            JsonValue::Object(entries) => JsonView::Object(
                Seq::new(
                    entries.len() as nat,
                    |i: int|
                        if 0 <= i < entries.len() {
                            (entries[i].0@, entries[i].1.view())
                        } else {
                            (Seq::empty(), JsonView::Null)
                        },
                ),
            ),
        }
    }
}

impl JsonValue {
    /// The member `key` of an object; nothing for other values.
    pub fn get(&self, key: &str) -> (r: Option<&JsonValue>)
        ensures
            match r {
                Some(v) => self@.field(key@) == Some(v@),
                None => self@.field(key@) is None,
            },
    {
        match self {
            JsonValue::Object(entries) => {
                let wanted = key.to_owned();
                let ghost ev = match self@ {
                    JsonView::Object(e) => e,
                    _ => Seq::empty(),
                };
                let mut i: usize = 0;
                while i < entries.len()
                    invariant
                        *self == JsonValue::Object(*entries),
                        self@ == JsonView::Object(ev),
                        ev.len() == entries.len(),
                        forall|j: int| 0 <= j < entries.len() ==> #[trigger] ev[j] == (entries[j].0@, entries[j].1@),
                        wanted@ == key@,
                        i <= entries.len(),
                        forall|j: int| 0 <= j < i ==> ev[j].0 != key@,
                    decreases entries.len() - i,
                {
                    if entries[i].0 == wanted {
                        proof {
                            assert(ev[i as int].0 == key@);
                            lemma_lookup_first(ev, key@, i as int);
                        }
                        return Some(&entries[i].1);
                    }
                    i = i + 1;
                }
                proof {
                    lemma_lookup_none(ev, key@);
                }
                None
            },
            _ => None,
        }
    }

    /// The text of a string value.
    pub fn as_str(&self) -> (r: Option<&str>)
        ensures
            match r {
                Some(s) => self@.as_str() == Some(s@),
                None => self@.as_str() is None,
            },
    {
        match self {
            JsonValue::String(s) => Some(s.as_str()),
            _ => None,
        }
    }

    /// The member `key` when it is present and is a string, copied out.
    pub fn string_field(&self, key: &str) -> (r: Option<String>)
        ensures
            match r {
                Some(s) => self@.str_field(key@) == Some(s@),
                None => self@.str_field(key@) is None,
            },
    {
        match self.get(key) {
            Some(v) => match v.as_str() {
                Some(s) => Some(s.to_owned()),
                None => None,
            },
            None => None,
        }
    }

    /// An independent copy of this value.
    pub fn deep_copy(&self) -> (r: JsonValue)
        ensures
            r@ == self@,
        decreases self,
    {
        match self {
            JsonValue::Null => JsonValue::Null,
            JsonValue::Bool(b) => JsonValue::Bool(*b),
            JsonValue::Number(n) => JsonValue::Number(n.clone()),
            JsonValue::String(s) => JsonValue::String(s.clone()),
            JsonValue::Array(items) => {
                let mut out: Vec<JsonValue> = Vec::new();
                let mut i: usize = 0;
                while i < items.len()
                    invariant
                        *self == JsonValue::Array(*items),
                        i <= items.len(),
                        out.len() == i,
                        forall|j: int| 0 <= j < i ==> #[trigger] out[j]@ == items[j]@,
                    decreases items.len() - i,
                {
                    assert(decreases_to!(*self => (*self)->Array_0));
                    assert(decreases_to!(*items => items[i as int]));
                    assert(decreases_to!(*self => items[i as int]));
                    let c = items[i].deep_copy();
                    out.push(c);
                    i = i + 1;
                }
                let r = JsonValue::Array(out);
                assert(r@ == self@) by {
                    if let JsonView::Array(a) = r@ {
                        if let JsonView::Array(b) = self@ {
                            assert forall|j: int| 0 <= j < a.len() implies a[j] == b[j] by {
                                assert(a[j] == out[j]@);
                            }
                            assert(a =~= b);
                        }
                    }
                }
                r
            },
            JsonValue::Object(entries) => {
                let mut out: Vec<(String, JsonValue)> = Vec::new();
                let mut i: usize = 0;
                while i < entries.len()
                    invariant
                        *self == JsonValue::Object(*entries),
                        i <= entries.len(),
                        out.len() == i,
                        forall|j: int|
                            0 <= j < i ==> #[trigger] out[j].0@ == entries[j].0@ && out[j].1@
                                == entries[j].1@,
                    decreases entries.len() - i,
                {
                    assert(decreases_to!(*self => (*self)->Object_0));
                    assert(decreases_to!(*entries => entries[i as int]));
                    assert(decreases_to!(entries[i as int] => entries[i as int].1));
                    assert(decreases_to!(*self => entries[i as int].1));
                    let k = entries[i].0.clone();
                    let v = entries[i].1.deep_copy();
                    out.push((k, v));
                    i = i + 1;
                }
                let r = JsonValue::Object(out);
                assert(r@ == self@) by {
                    if let JsonView::Object(a) = r@ {
                        if let JsonView::Object(b) = self@ {
                            assert(a =~= b);
                        }
                    }
                }
                r
            },
        }
    }
}

} // verus!
