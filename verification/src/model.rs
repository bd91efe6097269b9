//! The mathematical model of the store: what an entry and a store are, and
//! what each operation makes of them.

use vstd::prelude::*;
use crate::pattern::selects;

verus! {

/// One stored value: the payload, and the last instant at which it still
/// counts as present, in milliseconds since the Unix epoch. Without such an
/// instant the value never expires.
pub struct EntryView {
    pub value: Seq<char>,
    pub expires_at: Option<u128>,
}

impl EntryView {
    /// The entry still counts as present at `now`. The deadline itself is
    /// included: an entry read exactly at its deadline is live.
    pub open spec fn live_at(self, now: u128) -> bool {
        match self.expires_at {
            Some(deadline) => now <= deadline,
            None => true,
        }
    }
}

/// The store: the entries by key, and two auxiliary mappings that the store
/// carries for its surroundings without interpreting them.
#[verifier::ext_equal]
pub struct StoreView {
    pub data: Map<Seq<char>, EntryView>,
    pub config: Map<Seq<char>, Seq<char>>,
    pub metadata: Map<Seq<char>, Seq<char>>,
}

/// What `settings` holds under `name`, if anything.
pub open spec fn setting(settings: Map<Seq<char>, Seq<char>>, name: Seq<char>) -> Option<Seq<char>> {
    if settings.contains_key(name) {
        Some(settings[name])
    } else {
        None
    }
}

impl StoreView {
    /// The store that holds nothing.
    pub open spec fn empty() -> StoreView {
        StoreView { data: Map::empty(), config: Map::empty(), metadata: Map::empty() }
    }

    /// The store after `key` was given a new entry. Whatever `key` held
    /// before, value and deadline alike, is gone.
    pub open spec fn with_entry(
        self,
        key: Seq<char>,
        value: Seq<char>,
        expires_at: Option<u128>,
    ) -> StoreView {
        StoreView { data: self.data.insert(key, EntryView { value, expires_at }), ..self }
    }

    /// The store after `key` was removed.
    pub open spec fn without(self, key: Seq<char>) -> StoreView {
        StoreView { data: self.data.remove(key), ..self }
    }

    /// Reading `key` depends on the time: the key is held and carries a
    /// deadline.
    pub open spec fn consults_clock(self, key: Seq<char>) -> bool {
        self.data.contains_key(key) && self.data[key].expires_at is Some
    }

    /// What a read of `key` at `now` returns: the value of a live entry, and
    /// nothing for a key that is not held or whose entry has expired.
    pub open spec fn visible(self, key: Seq<char>, now: u128) -> Option<Seq<char>> {
        if self.data.contains_key(key) && self.data[key].live_at(now) {
            Some(self.data[key].value)
        } else {
            None
        }
    }

    /// The store after a read of `key` at `now`: an entry found expired is
    /// removed, everything else stays.
    pub open spec fn swept(self, key: Seq<char>, now: u128) -> StoreView {
        if self.data.contains_key(key) && !self.data[key].live_at(now) {
            self.without(key)
        } else {
            self
        }
    }

    /// The store after the configuration setting `name` was given `value`.
    pub open spec fn with_config(self, name: Seq<char>, value: Seq<char>) -> StoreView {
        StoreView { config: self.config.insert(name, value), ..self }
    }

    /// The store after the metadata item `name` was given `value`.
    pub open spec fn with_metadata(self, name: Seq<char>, value: Seq<char>) -> StoreView {
        StoreView { metadata: self.metadata.insert(name, value), ..self }
    }

    /// The keys that `pattern` selects among those held. Expiry plays no
    /// part: a key whose entry has expired but was not yet removed is listed.
    pub open spec fn listing(self, pattern: Seq<char>) -> Set<Seq<char>> {
        Set::new(|key: Seq<char>| self.data.contains_key(key) && selects(pattern, key))
    }
}

} // verus!
