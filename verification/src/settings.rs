//! The overlay's settings: values stored under names, each read with the
//! default it takes when it has never been set.
use vstd::prelude::*;

verus! {

/// Settings of one value type, stored under their names.
#[derive(Clone)]
pub struct SettingMap<V> {
    pub entries: Vec<(String, V)>,
}

impl<V: Copy> View for SettingMap<V> {
    type V = Map<Seq<char>, V>;

    /// The settings as a map from name to value.
    open spec fn view(&self) -> Map<Seq<char>, V> {
        Map::new(
            |k: Seq<char>| self.has(k),
            |k: Seq<char>|
                self.entries@[choose|i: int| 0 <= i < self.entries@.len() && (#[trigger] self.entries@[i]).0@ == k].1,
        )
    }
}

impl<V: Copy> SettingMap<V> {
    /// No name is stored twice.
    pub open spec fn wf(&self) -> bool {
        forall|i: int, j: int|
            0 <= i < self.entries@.len() && 0 <= j < self.entries@.len() && i != j
                ==> (#[trigger] self.entries@[i]).0@ != (#[trigger] self.entries@[j]).0@
    }

    /// Whether a name is stored.
    pub open spec fn has(&self, key: Seq<char>) -> bool {
        exists|i: int| 0 <= i < self.entries@.len() && (#[trigger] self.entries@[i]).0@ == key
    }

    /// The entry at `i` is what the map holds under its name.
    proof fn lemma_entry_in_view(&self, i: int)
        requires
            self.wf(),
            0 <= i < self.entries@.len(),
        ensures
            self.view().contains_key(self.entries@[i].0@),
            self.view()[self.entries@[i].0@] == self.entries@[i].1,
    {
        let k = self.entries@[i].0@;
        assert(self.has(k));
        let j = choose|j: int| 0 <= j < self.entries@.len() && (#[trigger] self.entries@[j]).0@ == k;
        assert(j == i);
    }

    /// No setting stored yet.
    pub fn new() -> (r: Self)
        ensures
            r.wf(),
            r.view() == Map::<Seq<char>, V>::empty(),
    {
        let r = SettingMap { entries: Vec::new() };
        assert(r.view() =~= Map::<Seq<char>, V>::empty());
        r
    }

    /// Where `key` is stored, if it is.
    fn position(&self, key: &str) -> (r: Option<usize>)
        requires
            self.wf(),
        ensures
            r matches Some(i) ==> i < self.entries@.len() && self.entries@[i as int].0@ == key@,
            r is None ==> !self.has(key@),
    {
        let wanted = key.to_owned();
        let mut i: usize = 0;
        while i < self.entries.len()
            invariant
                wanted@ == key@,
                i <= self.entries@.len(),
                forall|j: int| 0 <= j < i ==> (#[trigger] self.entries@[j]).0@ != key@,
            decreases self.entries@.len() - i,
        {
            if self.entries[i].0 == wanted {
                return Some(i);
            }
            i = i + 1;
        }
        None
    }

    /// The value stored under `key`, if any.
    pub fn get(&self, key: &str) -> (r: Option<V>)
        requires
            self.wf(),
        ensures
            r is Some <==> self.view().contains_key(key@),
            r matches Some(v) ==> v == self.view()[key@],
    {
        match self.position(key) {
            Some(i) => {
                proof {
                    self.lemma_entry_in_view(i as int);
                }
                Some(self.entries[i].1)
            },
            None => None,
        }
    }

    /// The value stored under `key`; a name never set is first stored with
    /// `default`, which is returned.
    pub fn get_or_insert(&mut self, key: &str, default: V) -> (r: V)
        requires
            old(self).wf(),
        ensures
            final(self).wf(),
            old(self).view().contains_key(key@) ==> r == old(self).view()[key@] && final(self).view() == old(self).view(),
            !old(self).view().contains_key(key@) ==> r == default && final(self).view() == old(self).view().insert(key@, default),
            r == value_or(old(self).view(), key@, default),
            final(self).view() == touched(old(self).view(), key@, default),
    {
        match self.position(key) {
            Some(i) => {
                proof {
                    self.lemma_entry_in_view(i as int);
                }
                self.entries[i].1
            },
            None => {
                self.push_new(key, default);
                default
            },
        }
    }

    /// Stores a name that is not stored yet.
    fn push_new(&mut self, key: &str, value: V)
        requires
            old(self).wf(),
            !old(self).has(key@),
        ensures
            final(self).wf(),
            final(self).view() == old(self).view().insert(key@, value),
    {
        let ghost before = *self;
        self.entries.push((key.to_owned(), value));
        let ghost n = before.entries@.len();
        assert(self.entries@[n as int].0@ == key@);
        assert forall|k: Seq<char>| #[trigger] self.view().contains_key(k) <==> before.view().insert(key@, value).contains_key(k) by {
            if self.has(k) {
                let i = choose|i: int| 0 <= i < self.entries@.len() && (#[trigger] self.entries@[i]).0@ == k;
                if i < n {
                    assert(before.entries@[i].0@ == k);
                    assert(before.has(k));
                }
            }
            if before.has(k) {
                let i = choose|i: int| 0 <= i < before.entries@.len() && (#[trigger] before.entries@[i]).0@ == k;
                assert(self.entries@[i].0@ == k);
            }
            if k == key@ {
                assert(self.has(k));
            }
        }
        assert forall|k: Seq<char>| #[trigger] self.view().contains_key(k) implies self.view()[k] == before.view().insert(key@, value)[k] by {
            let i = choose|i: int| 0 <= i < self.entries@.len() && (#[trigger] self.entries@[i]).0@ == k;
            self.lemma_entry_in_view(i);
            if i < n {
                assert(before.entries@[i] == self.entries@[i]);
                before.lemma_entry_in_view(i);
            }
        }
        assert(self.view() =~= before.view().insert(key@, value));
    }

    /// Stores `value` under `key`, replacing what was stored there.
    pub fn set(&mut self, key: &str, value: V)
        requires
            old(self).wf(),
        ensures
            final(self).wf(),
            final(self).view() == old(self).view().insert(key@, value),
    {
        match self.position(key) {
            Some(i) => {
                let ghost before = *self;
                let name = key.to_owned();
                self.entries.set(i, (name, value));
                assert forall|a: int, b: int|
                    0 <= a < self.entries@.len() && 0 <= b < self.entries@.len() && a != b
                        implies (#[trigger] self.entries@[a]).0@ != (#[trigger] self.entries@[b]).0@ by {
                    assert(before.entries@[a].0@ == self.entries@[a].0@);
                    assert(before.entries@[b].0@ == self.entries@[b].0@);
                }
                assert forall|k: Seq<char>| #[trigger] self.view().contains_key(k) <==> before.view().insert(key@, value).contains_key(k) by {
                    if self.has(k) {
                        let j = choose|j: int| 0 <= j < self.entries@.len() && (#[trigger] self.entries@[j]).0@ == k;
                        assert(before.entries@[j].0@ == k);
                        assert(before.has(k));
                    }
                    if before.has(k) {
                        let j = choose|j: int| 0 <= j < before.entries@.len() && (#[trigger] before.entries@[j]).0@ == k;
                        assert(self.entries@[j].0@ == k);
                    }
                    if k == key@ {
                        assert(self.entries@[i as int].0@ == k);
                    }
                }
                assert forall|k: Seq<char>| #[trigger] self.view().contains_key(k) implies self.view()[k] == before.view().insert(key@, value)[k] by {
                    let j = choose|j: int| 0 <= j < self.entries@.len() && (#[trigger] self.entries@[j]).0@ == k;
                    self.lemma_entry_in_view(j);
                    if j != i {
                        before.lemma_entry_in_view(j);
                    }
                }
                assert(self.view() =~= before.view().insert(key@, value));
            },
            None => {
                self.push_new(key, value);
            },
        }
    }
}

/// What a setting read with a default gives: the stored value, or the
/// default for a name never set.
pub open spec fn value_or<V>(settings: Map<Seq<char>, V>, key: Seq<char>, default: V) -> V {
    if settings.contains_key(key) {
        settings[key]
    } else {
        default
    }
}

/// The settings after a read with a default: a name never set now holds
/// the default; everything else is as it was.
pub open spec fn touched<V>(settings: Map<Seq<char>, V>, key: Seq<char>, default: V) -> Map<Seq<char>, V> {
    if settings.contains_key(key) {
        settings
    } else {
        settings.insert(key, default)
    }
}

/// A setting reads back the value last stored under its name, whatever
/// default it is read with.
pub proof fn lemma_read_after_write<V>(settings: Map<Seq<char>, V>, key: Seq<char>, value: V, default: V)
    ensures
        value_or(settings.insert(key, value), key, default) == value,
{
}

/// Storing under one name leaves every other name's value as it was.
pub proof fn lemma_write_keeps_others<V>(settings: Map<Seq<char>, V>, key: Seq<char>, value: V, other: Seq<char>, default: V)
    requires
        other != key,
    ensures
        value_or(settings.insert(key, value), other, default) == value_or(settings, other, default),
{
}

/// Reading with a default stores that default only for a name never set:
/// reading the same name again, with any default, gives the first read's value.
pub proof fn lemma_first_read_sticks<V>(settings: Map<Seq<char>, V>, key: Seq<char>, first: V, second: V)
    ensures
        value_or(touched(settings, key, first), key, second) == value_or(settings, key, first),
{
}

} // verus!
