//! Laws of the store. They are stated over the model by which the
//! operations of [`crate::store::Database`] are specified, so they bind the
//! executable store as well.

use crate::model::StoreView;
use crate::pattern::{occurs_in, wildcard};
use vstd::prelude::*;

verus! {

/// A value stored without a deadline is read back at any time, and reading
/// it leaves the store as it is.
pub proof fn lemma_read_back_without_deadline(
    store: StoreView,
    key: Seq<char>,
    value: Seq<char>,
    now: u128,
)
    ensures
        store.with_entry(key, value, None).visible(key, now) == Some(value),
        store.with_entry(key, value, None).swept(key, now) == store.with_entry(key, value, None),
{
}

/// A value stored with a deadline that has passed is not read back, and it
/// stays absent: the read that finds it expired removes it, so a read at any
/// other time finds nothing either and changes nothing.
pub proof fn lemma_past_deadline_reads_absent(
    store: StoreView,
    key: Seq<char>,
    value: Seq<char>,
    deadline: u128,
    now: u128,
    again: u128,
)
    requires
        deadline < now,
    ensures
        store.with_entry(key, value, Some(deadline)).visible(key, now) is None,
        !store.with_entry(key, value, Some(deadline)).swept(key, now).data.contains_key(key),
        store.with_entry(key, value, Some(deadline)).swept(key, now).visible(key, again) is None,
        store.with_entry(key, value, Some(deadline)).swept(key, now).swept(key, again)
            == store.with_entry(key, value, Some(deadline)).swept(key, now),
{
}

/// A value stored with a deadline that lies ahead is read back, and reading
/// it leaves the store as it is.
pub proof fn lemma_future_deadline_reads_value(
    store: StoreView,
    key: Seq<char>,
    value: Seq<char>,
    deadline: u128,
    now: u128,
)
    requires
        now < deadline,
    ensures
        store.with_entry(key, value, Some(deadline)).visible(key, now) == Some(value),
        store.with_entry(key, value, Some(deadline)).swept(key, now) == store.with_entry(
            key,
            value,
            Some(deadline),
        ),
{
}

/// The deadline itself still belongs to the entry's life: a value read at
/// exactly its deadline is returned and kept.
pub proof fn lemma_deadline_is_inclusive(
    store: StoreView,
    key: Seq<char>,
    value: Seq<char>,
    now: u128,
)
    ensures
        store.with_entry(key, value, Some(now)).visible(key, now) == Some(value),
        store.with_entry(key, value, Some(now)).swept(key, now) == store.with_entry(
            key,
            value,
            Some(now),
        ),
{
}

/// Removing a key that is not held leaves the store unchanged.
pub proof fn lemma_remove_absent_key(store: StoreView, key: Seq<char>)
    requires
        !store.data.contains_key(key),
    ensures
        store.without(key) == store,
{
    assert(store.data.remove(key) =~= store.data);
}

/// Removing a key twice is the same as removing it once.
pub proof fn lemma_remove_is_idempotent(store: StoreView, key: Seq<char>)
    ensures
        store.without(key).without(key) == store.without(key),
{
    assert(store.data.remove(key).remove(key) =~= store.data.remove(key));
}

/// The wildcard lists exactly the keys held. Deadlines play no part in it:
/// a key is listed at every instant, also when its entry would be found
/// expired by a read at that instant.
pub proof fn lemma_wildcard_lists_every_key(store: StoreView)
    ensures
        store.listing(wildcard()) == store.data.dom(),
        forall|key: Seq<char>, now: u128|
            store.data.contains_key(key) && !store.data[key].live_at(now)
                ==> #[trigger] store.listing(wildcard()).contains(key) && #[trigger] store.visible(
                key,
                now,
            ) is None,
{
}

/// A key that a read reports absent is not listed afterwards, whatever the
/// pattern: either it was never held, or the read removed it.
pub proof fn lemma_absent_key_is_not_listed(
    store: StoreView,
    key: Seq<char>,
    now: u128,
    pattern: Seq<char>,
)
    requires
        store.visible(key, now) is None,
    ensures
        !store.swept(key, now).data.contains_key(key),
        !store.swept(key, now).listing(pattern).contains(key),
{
}

/// A read touches no key but the one read.
pub proof fn lemma_read_spares_other_keys(
    store: StoreView,
    key: Seq<char>,
    now: u128,
    other: Seq<char>,
)
    requires
        other != key,
    ensures
        store.swept(key, now).data.contains_key(other) == store.data.contains_key(other),
        store.data.contains_key(other) ==> store.swept(key, now).data[other] == store.data[other],
{
}

/// Any other pattern lists exactly the keys held that contain it.
pub proof fn lemma_pattern_lists_keys_containing_it(store: StoreView, pattern: Seq<char>)
    requires
        pattern != wildcard(),
    ensures
        store.listing(pattern) == store.data.dom().filter(
            |key: Seq<char>| occurs_in(pattern, key),
        ),
{
    assert(store.listing(pattern) =~= store.data.dom().filter(
        |key: Seq<char>| occurs_in(pattern, key),
    ));
}

/// Of two writes to one key only the second counts: the store is the same
/// as if the first had not happened, so nothing of the first entry, neither
/// its value nor its deadline, bears on a later read.
pub proof fn lemma_last_write_wins(
    store: StoreView,
    key: Seq<char>,
    first: Seq<char>,
    first_deadline: Option<u128>,
    second: Seq<char>,
    second_deadline: Option<u128>,
    now: u128,
)
    ensures
        store.with_entry(key, first, first_deadline).with_entry(key, second, second_deadline)
            == store.with_entry(key, second, second_deadline),
        store.with_entry(key, first, first_deadline).with_entry(
            key,
            second,
            second_deadline,
        ).visible(key, now) == (if (second_deadline matches Some(deadline) && deadline < now) {
            None
        } else {
            Some(second)
        }),
{
    let twice = store.with_entry(key, first, first_deadline).with_entry(
        key,
        second,
        second_deadline,
    );
    let once = store.with_entry(key, second, second_deadline);
    assert(twice.data =~= once.data);
}

} // verus!
