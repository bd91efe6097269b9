//! The executable store.
//!
//! Every operation is specified by the function of [`StoreView`] that bears
//! its meaning: [`Database::set`] by `with_entry`, [`Database::delete`] by
//! `without`, [`Database::get_at`] by `visible` and `swept`,
//! [`Database::keys`] by `listing`.

use crate::clock::{now_millis, ClockError};
use crate::distinct::{lemma_append, lemma_filter, lemma_swap_out};
use crate::laws::lemma_remove_absent_key;
use crate::model::{setting, EntryView, StoreView};
use crate::pattern::{contains_str, is_wildcard, selects, wildcard};
use vstd::hash_map::StringHashMap;
use vstd::prelude::*;

verus! {

/// One stored value with its optional deadline, in milliseconds since the
/// Unix epoch.
#[derive(Debug)]
pub struct Entry {
    value: String,
    expires_at: Option<u128>,
}

impl View for Entry {
    type V = EntryView;

    closed spec fn view(&self) -> EntryView {
        EntryView { value: self.value@, expires_at: self.expires_at }
    }
}

impl Entry {
    /// The stored payload.
    pub fn value(&self) -> (value: &String)
        ensures
            value@ == self@.value,
    {
        &self.value
    }

    /// The deadline of the entry, if it has one.
    pub fn expires_at(&self) -> (deadline: Option<u128>)
        ensures
            deadline == self@.expires_at,
    {
        self.expires_at
    }

    /// Tells whether the entry still counts as present at `now`, given in
    /// milliseconds since the Unix epoch. The deadline itself is included.
    pub fn live_at(&self, now: u128) -> (live: bool)
        ensures
            live == self@.live_at(now),
    {
        match self.expires_at {
            Some(deadline) => now <= deadline,
            None => true,
        }
    }
}

/// The store. Entries are kept in a hash map, so that reading and writing
/// a key take constant time. The map cannot be walked, so beside it stands
/// the list of the keys held, which is what [`Database::keys`] walks and
/// what removing a key searches.
pub struct Database {
    data: StringHashMap<Entry>,
    names: Vec<String>,
    config: StringHashMap<String>,
    metadata: StringHashMap<String>,
}

impl View for Database {
    type V = StoreView;

    closed spec fn view(&self) -> StoreView {
        StoreView {
            data: self.data@.map_values(|entry: Entry| entry@),
            config: self.config@.map_values(|value: String| value@),
            metadata: self.metadata@.map_values(|value: String| value@),
        }
    }
}

/// The test that `pattern` puts to a key.
spec fn selected_by(pattern: Seq<char>) -> spec_fn(Seq<char>) -> bool {
    |key: Seq<char>| selects(pattern, key)
}

impl Database {
    /// The store is well formed: the list of names holds each key of the map
    /// once, and nothing else. [`Database::new`] establishes this and every
    /// operation keeps it.
    pub closed spec fn wf(&self) -> bool {
        &&& self.names.deep_view().no_duplicates()
        &&& self.names.deep_view().to_set() == self.data@.dom()
    }

    /// Creates a store that holds nothing.
    pub fn new() -> (store: Database)
        ensures
            store.wf(),
            store@ == StoreView::empty(),
    {
        let store = Database {
            data: StringHashMap::new(),
            names: Vec::new(),
            config: StringHashMap::new(),
            metadata: StringHashMap::new(),
        };
        proof {
            assert(store.names.deep_view().to_set() =~= store.data@.dom());
            assert(store@ =~~= StoreView::empty());
        }
        store
    }

    /// Stores `value` under `key`, with the deadline `expires_at` if one is
    /// given. An entry already held under `key` is replaced as a whole.
    pub fn set(&mut self, key: String, value: String, expires_at: Option<u128>) -> (done: Result<
        (),
        ClockError,
    >)
        requires
            old(self).wf(),
        ensures
            final(self).wf(),
            done is Ok,
            final(self)@ == old(self)@.with_entry(key@, value@, expires_at),
    {
        if !self.data.contains_key(key.as_str()) {
            self.names.push(key.clone());
        }
        self.data.insert(key, Entry { value, expires_at });
        proof {
            let before = old(self).names.deep_view();
            if !old(self).data@.contains_key(key@) {
                assert(self.names.deep_view() =~= before.push(key@));
                lemma_append(before, key@);
            }
            assert(self.names.deep_view().to_set() =~= self.data@.dom());
            assert(self@ =~~= old(self)@.with_entry(key@, value@, expires_at));
        }
        Ok(())
    }

    /// Removes `key` and its entry, if the key is held.
    fn discard(&mut self, key: &String)
        requires
            old(self).wf(),
        ensures
            final(self).wf(),
            final(self)@ == old(self)@.without(key@),
    {
        if self.data.contains_key(key.as_str()) {
            let ghost held = self.names.deep_view();
            let mut at: usize = 0;
            while !(self.names[at] == *key)
                invariant
                    self.names == old(self).names,
                    held == self.names.deep_view(),
                    held.contains(key@),
                    at < self.names.len(),
                    forall|i: int| 0 <= i < at ==> held[i] != key@,
                decreases self.names.len() - at,
            {
                at += 1;
            }
            self.names.swap_remove(at);
            self.data.remove(key.as_str());
            proof {
                assert(self.names.deep_view() =~= held.update(at as int, held.last()).drop_last());
                lemma_swap_out(held, at as int);
            }
        }
        proof {
            assert(self@ =~~= old(self)@.without(key@));
        }
    }

    /// Removes `key` and its entry. A key that is not held is no error: the
    /// store is then left as it was.
    pub fn delete(&mut self, key: String) -> (done: Result<(), ClockError>)
        requires
            old(self).wf(),
        ensures
            final(self).wf(),
            done is Ok,
            final(self)@ == old(self)@.without(key@),
            !old(self)@.data.contains_key(key@) ==> final(self)@ == old(self)@,
    {
        self.discard(&key);
        proof {
            if !old(self)@.data.contains_key(key@) {
                lemma_remove_absent_key(old(self)@, key@);
            }
        }
        Ok(())
    }

    /// Reads `key` as of the instant `now`, given in milliseconds since the
    /// Unix epoch. A live entry yields its value. An entry found expired is
    /// removed on the spot and yields nothing, as does a key that is not held.
    pub fn get_at(&mut self, key: String, now: u128) -> (found: Option<String>)
        requires
            old(self).wf(),
        ensures
            final(self).wf(),
            found.deep_view() == old(self)@.visible(key@, now),
            final(self)@ == old(self)@.swept(key@, now),
    {
        let found = match self.data.get(key.as_str()) {
            Some(entry) => {
                if entry.live_at(now) {
                    Some(entry.value.clone())
                } else {
                    None
                }
            },
            None => { return None; },
        };
        if found.is_none() {
            self.discard(&key);
        }
        found
    }

    /// Reads `key` as of the present. The system clock is read only when
    /// the key is held and carries a deadline; the entry is then judged at
    /// the instant the clock reports, as by [`Database::get_at`]. When the
    /// clock cannot be read the store is left as it was and the failure is
    /// returned.
    pub fn get(&mut self, key: String) -> (found: Result<Option<String>, ClockError>)
        requires
            old(self).wf(),
        ensures
            final(self).wf(),
            match found {
                Ok(value) => exists|now: u128|
                    {
                        &&& value.deep_view() == #[trigger] old(self)@.visible(key@, now)
                        &&& final(self)@ == old(self)@.swept(key@, now)
                    },
                Err(_) => old(self)@.consults_clock(key@) && final(self)@ == old(self)@,
            },
            !old(self)@.consults_clock(key@) ==> {
                &&& found is Ok
                &&& final(self)@ == old(self)@
                &&& forall|now: u128|
                    found->Ok_0.deep_view() == #[trigger] old(self)@.visible(key@, now)
            },
    {
        let timed = match self.data.get(key.as_str()) {
            Some(entry) => entry.expires_at.is_some(),
            None => false,
        };
        if timed {
            match now_millis() {
                Ok(now) => Ok(self.get_at(key, now)),
                Err(failure) => Err(failure),
            }
        } else {
            // Without a deadline the read comes out the same at every instant.
            Ok(self.get_at(key, 0))
        }
    }

    /// Lists the keys that `pattern` selects: every key held if `pattern` is
    /// the wildcard `*`, else the keys that contain `pattern`. Each such key
    /// is listed once, in no particular order. Deadlines are not looked at,
    /// and the store is not changed.
    pub fn keys(&self, pattern: String) -> (listed: Result<Vec<String>, ClockError>)
        requires
            self.wf(),
        ensures
            listed is Ok,
            listed->Ok_0.deep_view().no_duplicates(),
            listed->Ok_0.deep_view().to_set() == self@.listing(pattern@),
    {
        let every = is_wildcard(pattern.as_str());
        let mut found: Vec<String> = Vec::new();
        let ghost held = self.names.deep_view();
        let ghost wanted = selected_by(pattern@);
        let mut at: usize = 0;
        proof {
            reveal(Seq::filter);
        }
        while at < self.names.len()
            invariant
                at <= self.names.len(),
                held == self.names.deep_view(),
                wanted == selected_by(pattern@),
                every == (pattern@ == wildcard()),
                found.deep_view() == held.take(at as int).filter(wanted),
            decreases self.names.len() - at,
        {
            let name = &self.names[at];
            if every || contains_str(name.as_str(), pattern.as_str()) {
                found.push(name.clone());
            }
            proof {
                assert(held.take(at + 1) =~= held.take(at as int).push(name@));
                held.take(at as int).lemma_filter_push(name@, wanted);
            }
            at += 1;
        }
        proof {
            assert(held.take(at as int) =~= held);
            lemma_filter(held, wanted);
        }
        Ok(found)
    }

    /// Looks `key` up without regard to deadlines and without changing the
    /// store: an entry that has expired but was not yet removed is returned.
    pub fn entry(&self, key: &str) -> (found: Option<&Entry>)
        ensures
            match found {
                Some(entry) => self@.data.contains_key(key@) && entry@ == self@.data[key@],
                None => !self@.data.contains_key(key@),
            },
    {
        self.data.get(key)
    }

    /// Reads the configuration setting `name`.
    pub fn config_get(&self, name: &str) -> (found: Option<String>)
        ensures
            found.deep_view() == setting(self@.config, name@),
    {
        match self.config.get(name) {
            Some(value) => Some(value.clone()),
            None => None,
        }
    }

    /// Gives the configuration setting `name` the value `value`. The store
    /// keeps settings for its surroundings and does not act on them.
    pub fn config_set(&mut self, name: String, value: String)
        ensures
            final(self).wf() == old(self).wf(),
            final(self)@ == old(self)@.with_config(name@, value@),
    {
        self.config.insert(name, value);
        proof {
            assert(self@ =~~= old(self)@.with_config(name@, value@));
        }
    }

    /// Reads the metadata item `name`.
    pub fn metadata_get(&self, name: &str) -> (found: Option<String>)
        ensures
            found.deep_view() == setting(self@.metadata, name@),
    {
        match self.metadata.get(name) {
            Some(value) => Some(value.clone()),
            None => None,
        }
    }

    /// Gives the metadata item `name` the value `value`.
    pub fn metadata_set(&mut self, name: String, value: String)
        ensures
            final(self).wf() == old(self).wf(),
            final(self)@ == old(self)@.with_metadata(name@, value@),
    {
        self.metadata.insert(name, value);
        proof {
            assert(self@ =~~= old(self)@.with_metadata(name@, value@));
        }
    }
}

} // verus!
