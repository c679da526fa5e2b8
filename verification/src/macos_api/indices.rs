//! Every display is taken in, every monitor is named by one index, and a preferred index names
//! the monitor that it is preferred for.

use crate::macos_api;
use crate::macos_api::IndexMapView;
use crate::sequences;
use crate::window_manager::MonitorView;
use vstd::prelude::*;

verus! {

/// No two preferences are for the same index or the same monitor.
pub open spec fn are_distinct(preferences: Seq<(usize, Seq<char>)>) -> bool {
    forall|i: int, j: int|
        #![trigger preferences[i], preferences[j]]
        0 <= i < j < preferences.len() ==> preferences[i].0 != preferences[j].0
            && preferences[i].1 != preferences[j].1
}

/// How many of the numbers below `n` are listed.
spec fn listed_below(listed: Seq<usize>, n: int) -> nat
    decreases n,
{
    if n <= 0 {
        0
    } else if listed.contains((n - 1) as usize) {
        listed_below(listed, n - 1) + 1
    } else {
        listed_below(listed, n - 1)
    }
}

/// How many of the numbers below `n` are keys.
spec fn keys_below(map: Map<usize, usize>, n: int) -> nat
    decreases n,
{
    if n <= 0 {
        0
    } else if map.contains_key((n - 1) as usize) {
        keys_below(map, n - 1) + 1
    } else {
        keys_below(map, n - 1)
    }
}

proof fn lemma_unlisted_len(listed: Seq<usize>, n: int)
    requires
        0 <= n,
    ensures
        macos_api::unlisted(listed, n).len() + listed_below(listed, n) == n,
    decreases n,
{
    if n > 0 {
        lemma_unlisted_len(listed, n - 1);
    }
}

proof fn lemma_free_len(map: Map<usize, usize>, n: int)
    requires
        0 <= n,
    ensures
        macos_api::free_indices(map, n).len() + keys_below(map, n) == n,
    decreases n,
{
    if n > 0 {
        lemma_free_len(map, n - 1);
    }
}

proof fn lemma_contains_push(listed: Seq<usize>, x: usize, y: usize)
    ensures
        listed.push(x).contains(y) == (listed.contains(y) || x == y),
{
    if listed.contains(y) {
        let i = choose|i: int| 0 <= i < listed.len() && listed[i] == y;
        assert(listed.push(x)[i] == y);
    }
    assert(listed.push(x)[listed.len() as int] == x);
}

proof fn lemma_listed_push(listed: Seq<usize>, x: usize, n: int)
    requires
        0 <= n <= usize::MAX,
        !listed.contains(x),
    ensures
        listed_below(listed.push(x), n) == listed_below(listed, n) + if x < n {
            1nat
        } else {
            0nat
        },
    decreases n,
{
    if n > 0 {
        lemma_listed_push(listed, x, n - 1);
        lemma_contains_push(listed, x, (n - 1) as usize);
    }
}

proof fn lemma_keys_insert(map: Map<usize, usize>, k: usize, v: usize, n: int)
    requires
        0 <= n <= usize::MAX,
    ensures
        keys_below(map.insert(k, v), n) <= keys_below(map, n) + if k < n {
            1nat
        } else {
            0nat
        },
    decreases n,
{
    if n > 0 {
        lemma_keys_insert(map, k, v, n - 1);
    }
}

/// The monitor that a serial number stands for goes by it.
proof fn lemma_first_has_serial(monitors: Seq<MonitorView>, serial: Seq<char>, from: int)
    requires
        0 <= from,
        monitors.len() <= usize::MAX,
    ensures
        macos_api::first_with_serial(monitors, serial, from) matches Some(m) ==> m
            < monitors.len() && monitors[m as int].serial_number_id == serial,
    decreases monitors.len() - from,
{
    if from < monitors.len() && monitors[from].serial_number_id != serial {
        lemma_first_has_serial(monitors, serial, from + 1);
    }
}

/// What is true of the first `n` preferences: as many indices are taken as monitors are
/// listed, at most; the monitors that are listed are there, once each, and are those that the
/// preferences name.
spec fn counts_agree(
    monitors: Seq<MonitorView>,
    preferences: Seq<(usize, Seq<char>)>,
    n: int,
    limit: int,
) -> bool {
    let listed = macos_api::preferred_monitors(monitors, preferences, n);
    let map = macos_api::preferred_indices(monitors, preferences, n).map;
    &&& keys_below(map, limit) <= listed.len()
    &&& listed_below(listed, monitors.len() as int) == listed.len()
    &&& forall|m: usize| #[trigger]
        listed.contains(m) ==> m < monitors.len() && exists|i: int|
            0 <= i < n && (#[trigger] preferences[i]).1 == monitors[m as int].serial_number_id
}

proof fn lemma_empty_counts(listed: Seq<usize>, map: Map<usize, usize>, n: int)
    requires
        listed.len() == 0,
        map == Map::<usize, usize>::empty(),
    ensures
        listed_below(listed, n) == 0,
        keys_below(map, n) == 0,
    decreases n,
{
    if n > 0 {
        lemma_empty_counts(listed, map, n - 1);
    }
}

proof fn lemma_counts(
    monitors: Seq<MonitorView>,
    preferences: Seq<(usize, Seq<char>)>,
    n: int,
    limit: int,
)
    requires
        are_distinct(preferences),
        0 <= n <= preferences.len(),
        0 <= limit <= usize::MAX,
        monitors.len() <= usize::MAX,
    ensures
        counts_agree(monitors, preferences, n, limit),
    decreases n,
{
    let listed = macos_api::preferred_monitors(monitors, preferences, n);
    let map = macos_api::preferred_indices(monitors, preferences, n).map;
    if n == 0 {
        lemma_empty_counts(listed, map, limit);
        lemma_empty_counts(listed, map, monitors.len() as int);
    } else {
        lemma_counts(monitors, preferences, n - 1, limit);
        let (index, serial) = preferences[n - 1];
        let earlier = macos_api::preferred_monitors(monitors, preferences, n - 1);
        let before = macos_api::preferred_indices(monitors, preferences, n - 1).map;
        lemma_first_has_serial(monitors, serial, 0);
        match macos_api::first_with_serial(monitors, serial, 0) {
            Some(m) => {
                if earlier.contains(m) {
                    let i = choose|i: int|
                        0 <= i < n - 1 && (#[trigger] preferences[i]).1
                            == monitors[m as int].serial_number_id;
                    assert(preferences[i].1 != preferences[n - 1].1);
                    assert(false);
                }
                lemma_listed_push(earlier, m, monitors.len() as int);
                lemma_keys_insert(before, index, m, limit);
                assert forall|x: usize| #[trigger] listed.contains(x) implies x < monitors.len()
                    && exists|i: int|
                    0 <= i < n && (#[trigger] preferences[i]).1
                        == monitors[x as int].serial_number_id by {
                    lemma_contains_push(earlier, m, x);
                    if earlier.contains(x) {
                        let i = choose|i: int|
                            0 <= i < n - 1 && (#[trigger] preferences[i]).1
                                == monitors[x as int].serial_number_id;
                        assert(preferences[i].1 == monitors[x as int].serial_number_id);
                    } else {
                        assert(preferences[n - 1].1 == monitors[x as int].serial_number_id);
                    }
                }
            },
            None => {
                assert forall|x: usize| #[trigger] listed.contains(x) implies x < monitors.len()
                    && exists|i: int|
                    0 <= i < n && (#[trigger] preferences[i]).1
                        == monitors[x as int].serial_number_id by {
                    let i = choose|i: int|
                        0 <= i < n - 1 && (#[trigger] preferences[i]).1
                            == monitors[x as int].serial_number_id;
                    assert(preferences[i].1 == monitors[x as int].serial_number_id);
                }
            },
        }
    }
}

/// There is a free index for every monitor that is not listed.
proof fn lemma_enough_free(monitors: Seq<MonitorView>, preferences: Seq<(usize, Seq<char>)>)
    requires
        are_distinct(preferences),
        monitors.len() <= usize::MAX,
    ensures
        ({
            let n = preferences.len() as int;
            let preferred = macos_api::preferred_indices(monitors, preferences, n);
            let limit = macos_api::index_limit(preferred, monitors.len());
            macos_api::unlisted(
                macos_api::preferred_monitors(monitors, preferences, n),
                monitors.len() as int,
            ).len() <= macos_api::free_indices(preferred.map, limit).len()
        }),
{
    let n = preferences.len() as int;
    let preferred = macos_api::preferred_indices(monitors, preferences, n);
    let listed = macos_api::preferred_monitors(monitors, preferences, n);
    let limit = macos_api::index_limit(preferred, monitors.len());
    lemma_counts(monitors, preferences, n, limit);
    lemma_unlisted_len(listed, monitors.len() as int);
    lemma_free_len(preferred.map, limit);
}

/// A preference that was honoured stays honoured.
proof fn lemma_preference_holds(
    monitors: Seq<MonitorView>,
    preferences: Seq<(usize, Seq<char>)>,
    n: int,
    i: int,
)
    requires
        are_distinct(preferences),
        0 <= i < n <= preferences.len(),
        macos_api::first_with_serial(monitors, preferences[i].1, 0) is Some,
    ensures
        ({
            let map = macos_api::preferred_indices(monitors, preferences, n).map;
            &&& map.contains_key(preferences[i].0)
            &&& Some(map[preferences[i].0]) == macos_api::first_with_serial(
                monitors,
                preferences[i].1,
                0,
            )
        }),
    decreases n,
{
    if i < n - 1 {
        lemma_preference_holds(monitors, preferences, n - 1, i);
        assert(preferences[i].0 != preferences[n - 1].0);
    }
}

/// Free indices are below the limit, are not taken, and differ from one another.
proof fn lemma_free(map: Map<usize, usize>, n: int, i: int, j: int)
    requires
        n <= usize::MAX,
        0 <= i < j < macos_api::free_indices(map, n).len(),
    ensures
        macos_api::free_indices(map, n)[i] < macos_api::free_indices(map, n)[j] < n,
    decreases n,
{
    if n > 0 {
        let earlier = macos_api::free_indices(map, n - 1);
        if j < earlier.len() {
            lemma_free(map, n - 1, i, j);
        } else {
            lemma_free_bound(map, n - 1, i);
        }
    }
}

proof fn lemma_free_bound(map: Map<usize, usize>, n: int, i: int)
    requires
        n <= usize::MAX,
        0 <= i < macos_api::free_indices(map, n).len(),
    ensures
        macos_api::free_indices(map, n)[i] < n,
        !map.contains_key(macos_api::free_indices(map, n)[i]),
    decreases n,
{
    if n > 0 {
        let earlier = macos_api::free_indices(map, n - 1);
        if i < earlier.len() {
            lemma_free_bound(map, n - 1, i);
        }
    }
}

/// Every number below `n` that is not listed is among those that are not listed.
proof fn lemma_unlisted_contains(listed: Seq<usize>, n: int, m: usize)
    requires
        m < n <= usize::MAX,
        !listed.contains(m),
    ensures
        macos_api::unlisted(listed, n).contains(m),
    decreases n,
{
    let all = macos_api::unlisted(listed, n);
    if m == n - 1 {
        assert(all.last() == m);
        assert(all[all.len() - 1] == m);
    } else {
        lemma_unlisted_contains(listed, n - 1, m);
        let earlier = macos_api::unlisted(listed, n - 1);
        let i = choose|i: int| 0 <= i < earlier.len() && earlier[i] == m;
        assert(all[i] == m);
    }
}

/// Giving the remaining monitors free indices leaves the indices that were taken alone, and
/// every one of them keeps the index it got.
proof fn lemma_remaining(
    indices: IndexMapView,
    limit: int,
    remaining: Seq<usize>,
    n: int,
    index: usize,
    j: int,
)
    requires
        limit <= usize::MAX,
        0 <= n <= remaining.len() <= macos_api::free_indices(indices.map, limit).len(),
    ensures
        ({
            let free = macos_api::free_indices(indices.map, limit);
            let map = macos_api::with_remaining(indices, free, remaining, n).map;
            &&& indices.map.contains_key(index) ==> map.contains_key(index) && map[index]
                == indices.map[index]
            &&& 0 <= j < n ==> map.contains_key(free[j]) && map[free[j]] == remaining[j]
        }),
    decreases n,
{
    let free = macos_api::free_indices(indices.map, limit);
    if n > 0 {
        lemma_remaining(indices, limit, remaining, n - 1, index, j);
        lemma_free_bound(indices.map, limit, n - 1);
        if 0 <= j < n - 1 {
            lemma_free(indices.map, limit, j, n - 1);
        }
    }
}

/// An index that is preferred for a monitor that is there names it.
pub proof fn law_preferred_indices_are_honoured(
    monitors: Seq<MonitorView>,
    preferences: Seq<(usize, Seq<char>)>,
    i: int,
)
    requires
        are_distinct(preferences),
        monitors.len() <= usize::MAX,
        0 <= i < preferences.len(),
        macos_api::has_serial(monitors, preferences[i].1),
    ensures
        ({
            let map = macos_api::index_map(monitors, preferences).map;
            &&& map.contains_key(preferences[i].0)
            &&& map[preferences[i].0] < monitors.len()
            &&& monitors[map[preferences[i].0] as int].serial_number_id == preferences[i].1
        }),
{
    let n = preferences.len() as int;
    let preferred = macos_api::preferred_indices(monitors, preferences, n);
    let limit = macos_api::index_limit(preferred, monitors.len());
    let remaining = macos_api::unlisted(
        macos_api::preferred_monitors(monitors, preferences, n),
        monitors.len() as int,
    );
    lemma_first_exists(monitors, preferences[i].1, 0);
    lemma_first_has_serial(monitors, preferences[i].1, 0);
    lemma_preference_holds(monitors, preferences, n, i);
    lemma_enough_free(monitors, preferences);
    lemma_remaining(
        preferred,
        limit,
        remaining,
        remaining.len() as int,
        preferences[i].0,
        0,
    );
}

proof fn lemma_first_exists(monitors: Seq<MonitorView>, serial: Seq<char>, from: int)
    requires
        0 <= from,
        exists|i: int|
            from <= i < monitors.len() && (#[trigger] monitors[i]).serial_number_id == serial,
    ensures
        macos_api::first_with_serial(monitors, serial, from) is Some,
    decreases monitors.len() - from,
{
    let i = choose|i: int|
        from <= i < monitors.len() && (#[trigger] monitors[i]).serial_number_id == serial;
    if monitors[from].serial_number_id != serial {
        assert(from + 1 <= i < monitors.len() && monitors[i].serial_number_id == serial);
        lemma_first_exists(monitors, serial, from + 1);
    }
}

/// Every monitor can be named by some index.
pub proof fn law_every_monitor_has_an_index(
    monitors: Seq<MonitorView>,
    preferences: Seq<(usize, Seq<char>)>,
    m: usize,
)
    requires
        are_distinct(preferences),
        monitors.len() <= usize::MAX,
        m < monitors.len(),
    ensures
        exists|index: usize| #[trigger]
            macos_api::index_map(monitors, preferences).map.contains_key(index)
                && macos_api::index_map(monitors, preferences).map[index] == m,
{
    let n = preferences.len() as int;
    let preferred = macos_api::preferred_indices(monitors, preferences, n);
    let limit = macos_api::index_limit(preferred, monitors.len());
    let listed = macos_api::preferred_monitors(monitors, preferences, n);
    let remaining = macos_api::unlisted(listed, monitors.len() as int);
    let free = macos_api::free_indices(preferred.map, limit);
    let map = macos_api::index_map(monitors, preferences).map;
    lemma_enough_free(monitors, preferences);
    if listed.contains(m) {
        let i = lemma_listed_by(monitors, preferences, n, m);
        lemma_preference_holds(monitors, preferences, n, i);
        lemma_remaining(
            preferred,
            limit,
            remaining,
            remaining.len() as int,
            preferences[i].0,
            0,
        );
        assert(map.contains_key(preferences[i].0) && map[preferences[i].0] == m);
    } else {
        lemma_unlisted_contains(listed, monitors.len() as int, m);
        let j = choose|j: int| 0 <= j < remaining.len() && remaining[j] == m;
        lemma_remaining(preferred, limit, remaining, remaining.len() as int, 0, j);
        assert(map.contains_key(free[j]) && map[free[j]] == m);
    }
}

/// The preference that a monitor is listed for.
proof fn lemma_listed_by(
    monitors: Seq<MonitorView>,
    preferences: Seq<(usize, Seq<char>)>,
    n: int,
    m: usize,
) -> (i: int)
    requires
        0 <= n <= preferences.len(),
        macos_api::preferred_monitors(monitors, preferences, n).contains(m),
    ensures
        0 <= i < n,
        macos_api::first_with_serial(monitors, preferences[i].1, 0) == Some(m),
    decreases n,
{
    if n == 0 {
        0
    } else {
        let earlier = macos_api::preferred_monitors(monitors, preferences, n - 1);
        match macos_api::first_with_serial(monitors, preferences[n - 1].1, 0) {
            Some(found) => {
                lemma_contains_push(earlier, found, m);
                if found == m {
                    n - 1
                } else {
                    lemma_listed_by(monitors, preferences, n - 1, m)
                }
            },
            None => lemma_listed_by(monitors, preferences, n - 1, m),
        }
    }
}

/// What the preferences give an index to is listed, and no two indices are given to the same
/// monitor.
proof fn lemma_preferred_once(
    monitors: Seq<MonitorView>,
    preferences: Seq<(usize, Seq<char>)>,
    n: int,
)
    requires
        are_distinct(preferences),
        0 <= n <= preferences.len(),
        monitors.len() <= usize::MAX,
    ensures
        ({
            let listed = macos_api::preferred_monitors(monitors, preferences, n);
            let map = macos_api::preferred_indices(monitors, preferences, n).map;
            &&& forall|k: usize| #[trigger] map.contains_key(k) ==> listed.contains(map[k])
            &&& forall|k: usize, l: usize|
                #![trigger map.contains_key(k), map.contains_key(l)]
                map.contains_key(k) && map.contains_key(l) && map[k] == map[l] ==> k == l
        }),
    decreases n,
{
    if n > 0 {
        lemma_preferred_once(monitors, preferences, n - 1);
        let (index, serial) = preferences[n - 1];
        let earlier = macos_api::preferred_monitors(monitors, preferences, n - 1);
        let before = macos_api::preferred_indices(monitors, preferences, n - 1).map;
        let listed = macos_api::preferred_monitors(monitors, preferences, n);
        let map = macos_api::preferred_indices(monitors, preferences, n).map;
        lemma_first_has_serial(monitors, serial, 0);
        lemma_counts(monitors, preferences, n - 1, 0);
        if let Some(m) = macos_api::first_with_serial(monitors, serial, 0) {
            if earlier.contains(m) {
                let i = choose|i: int|
                    0 <= i < n - 1 && (#[trigger] preferences[i]).1
                        == monitors[m as int].serial_number_id;
                assert(preferences[i].1 != preferences[n - 1].1);
                assert(false);
            }
            assert forall|k: usize| #[trigger] map.contains_key(k) implies listed.contains(
                map[k],
            ) by {
                lemma_contains_push(earlier, m, map[k]);
                if k != index {
                    assert(before.contains_key(k));
                }
            }
            assert forall|k: usize, l: usize|
                #![trigger map.contains_key(k), map.contains_key(l)]
                map.contains_key(k) && map.contains_key(l) && map[k] == map[l] implies k == l by {
                if k != index {
                    assert(before.contains_key(k) && earlier.contains(before[k]));
                }
                if l != index {
                    assert(before.contains_key(l) && earlier.contains(before[l]));
                }
            }
        }
    }
}

/// What is not listed is below the bound, and stands there once.
proof fn lemma_unlisted_once(listed: Seq<usize>, n: int)
    requires
        n <= usize::MAX,
    ensures
        forall|i: int|
            0 <= i < macos_api::unlisted(listed, n).len() ==> {
                &&& (#[trigger] macos_api::unlisted(listed, n)[i]) < n
                &&& !listed.contains(macos_api::unlisted(listed, n)[i])
            },
        forall|i: int, j: int|
            0 <= i < j < macos_api::unlisted(listed, n).len() ==> (#[trigger] macos_api::unlisted(
                listed,
                n,
            )[i]) < (#[trigger] macos_api::unlisted(listed, n)[j]),
    decreases n,
{
    if n > 0 {
        lemma_unlisted_once(listed, n - 1);
        let earlier = macos_api::unlisted(listed, n - 1);
        let all = macos_api::unlisted(listed, n);
        assert forall|i: int| 0 <= i < all.len() implies (#[trigger] all[i]) < n
            && !listed.contains(all[i]) by {
            if i < earlier.len() {
                assert(all[i] == earlier[i]);
            }
        }
        assert forall|i: int, j: int| 0 <= i < j < all.len() implies (#[trigger] all[i]) < (
        #[trigger] all[j]) by {
            assert(all[i] == earlier[i]);
            if j < earlier.len() {
                assert(all[j] == earlier[j]);
            }
        }
    }
}

/// Every index that the remaining monitors left behind is one that was taken before, for the
/// same monitor, or a free one that one of them got.
proof fn lemma_remaining_came_from(
    indices: IndexMapView,
    limit: int,
    remaining: Seq<usize>,
    n: int,
    index: usize,
)
    requires
        limit <= usize::MAX,
        0 <= n <= remaining.len() <= macos_api::free_indices(indices.map, limit).len(),
        macos_api::with_remaining(
            indices,
            macos_api::free_indices(indices.map, limit),
            remaining,
            n,
        ).map.contains_key(index),
    ensures
        ({
            let free = macos_api::free_indices(indices.map, limit);
            let map = macos_api::with_remaining(indices, free, remaining, n).map;
            ||| indices.map.contains_key(index) && map[index] == indices.map[index]
            ||| exists|j: int|
                0 <= j < n && #[trigger] free[j] == index && map[index] == remaining[j]
        }),
    decreases n,
{
    if n > 0 {
        let free = macos_api::free_indices(indices.map, limit);
        let earlier = macos_api::with_remaining(indices, free, remaining, n - 1).map;
        let map = macos_api::with_remaining(indices, free, remaining, n).map;
        if index == free[n - 1] {
            assert(free[n - 1] == index && map[index] == remaining[n - 1]);
        } else {
            lemma_remaining_came_from(indices, limit, remaining, n - 1, index);
            assert(map[index] == earlier[index]);
        }
    }
}

/// Every index stands for a monitor that is there, and no two indices stand for the same one:
/// with [`law_every_monitor_has_an_index`], the monitors that the indices stand for are all of
/// them, once each.
pub proof fn law_every_monitor_has_one_index(
    monitors: Seq<MonitorView>,
    preferences: Seq<(usize, Seq<char>)>,
    index: usize,
    other: usize,
)
    requires
        are_distinct(preferences),
        monitors.len() <= usize::MAX,
    ensures
        ({
            let map = macos_api::index_map(monitors, preferences).map;
            &&& map.contains_key(index) ==> map[index] < monitors.len()
            &&& map.contains_key(index) && map.contains_key(other) && map[index] == map[other]
                ==> index == other
        }),
{
    let n = preferences.len() as int;
    let preferred = macos_api::preferred_indices(monitors, preferences, n);
    let limit = macos_api::index_limit(preferred, monitors.len());
    let listed = macos_api::preferred_monitors(monitors, preferences, n);
    let remaining = macos_api::unlisted(listed, monitors.len() as int);
    let free = macos_api::free_indices(preferred.map, limit);
    let map = macos_api::index_map(monitors, preferences).map;
    let r = remaining.len() as int;
    lemma_enough_free(monitors, preferences);
    lemma_counts(monitors, preferences, n, 0);
    lemma_preferred_once(monitors, preferences, n);
    lemma_unlisted_once(listed, monitors.len() as int);
    if map.contains_key(index) {
        lemma_remaining_came_from(preferred, limit, remaining, r, index);
    }
    if map.contains_key(other) {
        lemma_remaining_came_from(preferred, limit, remaining, r, other);
    }
}

proof fn lemma_padded(monitors: Seq<MonitorView>, p: usize)
    ensures
        macos_api::padded(monitors, p).len() > p,
        macos_api::padded(monitors, p).len() >= monitors.len(),
        forall|i: int|
            0 <= i < monitors.len() ==> #[trigger] macos_api::padded(monitors, p)[i]
                == monitors[i],
    decreases p + 1 - monitors.len(),
{
    if p >= monitors.len() {
        let more = monitors.push(macos_api::placeholder_monitor());
        lemma_padded(more, p);
        assert forall|i: int| 0 <= i < monitors.len() implies #[trigger] macos_api::padded(
            monitors,
            p,
        )[i] == monitors[i] by {
            assert(macos_api::padded(more, p)[i] == more[i]);
        }
    }
}

proof fn lemma_with_device(
    monitors: Seq<MonitorView>,
    preferences: Seq<(usize, Seq<char>)>,
    device: MonitorView,
    monitor: MonitorView,
)
    ensures
        macos_api::has_serial(
            macos_api::with_device(monitors, preferences, device),
            device.serial_number_id,
        ),
        monitors.contains(monitor) && monitor.serial_number_id != "PLACEHOLDER"@
            ==> macos_api::with_device(monitors, preferences, device).contains(monitor),
{
    let after = macos_api::with_device(monitors, preferences, device);
    if !macos_api::has_serial(monitors, device.serial_number_id) {
        match macos_api::preferred_index(
            preferences,
            preferences.len() as int,
            device.serial_number_id,
        ) {
            Some(p) => {
                lemma_padded(monitors, p);
                let places = macos_api::padded(monitors, p);
                assert(after[p as int] == device);
                if monitors.contains(monitor) && monitor.serial_number_id != "PLACEHOLDER"@ {
                    let i = choose|i: int| 0 <= i < monitors.len() && monitors[i] == monitor;
                    assert(places[i] == monitor);
                    if places[p as int].serial_number_id == "PLACEHOLDER"@ {
                        assert(after[i] == monitor);
                    } else if i < p {
                        assert(after[i] == monitor);
                    } else {
                        assert(after[i + 1] == monitor);
                    }
                }
            },
            None => {
                assert(after[monitors.len() as int] == device);
                if monitors.contains(monitor) {
                    let i = choose|i: int| 0 <= i < monitors.len() && monitors[i] == monitor;
                    assert(after[i] == monitor);
                }
            },
        }
    }
}

proof fn lemma_with_devices(
    monitors: Seq<MonitorView>,
    preferences: Seq<(usize, Seq<char>)>,
    devices: Seq<MonitorView>,
    n: int,
    monitor: MonitorView,
    d: int,
)
    requires
        0 <= n <= devices.len(),
    ensures
        ({
            let after = macos_api::with_devices(monitors, preferences, devices, n);
            &&& monitors.contains(monitor) && monitor.serial_number_id != "PLACEHOLDER"@
                ==> after.contains(monitor)
            &&& 0 <= d < n && devices[d].serial_number_id != "PLACEHOLDER"@
                ==> macos_api::has_serial(after, devices[d].serial_number_id)
        }),
    decreases n,
{
    if n > 0 {
        let earlier = macos_api::with_devices(monitors, preferences, devices, n - 1);
        let after = macos_api::with_devices(monitors, preferences, devices, n);
        lemma_with_devices(monitors, preferences, devices, n - 1, monitor, d);
        lemma_with_device(earlier, preferences, devices[n - 1], monitor);
        if 0 <= d < n - 1 && devices[d].serial_number_id != "PLACEHOLDER"@ {
            let i = choose|i: int|
                0 <= i < earlier.len() && (#[trigger] earlier[i]).serial_number_id
                    == devices[d].serial_number_id;
            assert(earlier.contains(earlier[i]));
            lemma_with_device(earlier, preferences, devices[n - 1], earlier[i]);
            let j = choose|j: int| 0 <= j < after.len() && after[j] == earlier[i];
            assert(after[j].serial_number_id == devices[d].serial_number_id);
        }
    }
}

/// Every display that was found is among the monitors afterwards, and every monitor that was
/// there stays as it was.
pub proof fn law_every_display_is_taken_in(
    monitors: Seq<MonitorView>,
    preferences: Seq<(usize, Seq<char>)>,
    devices: Seq<MonitorView>,
    monitor: MonitorView,
    d: int,
)
    requires
        0 <= d < devices.len(),
        devices[d].serial_number_id != "PLACEHOLDER"@,
        monitors.contains(monitor),
        monitor.serial_number_id != "PLACEHOLDER"@,
    ensures
        macos_api::loaded_monitors(monitors, preferences, devices).contains(monitor),
        macos_api::has_serial(
            macos_api::loaded_monitors(monitors, preferences, devices),
            devices[d].serial_number_id,
        ),
{
    let n = devices.len() as int;
    let all = macos_api::with_devices(monitors, preferences, devices, n);
    let loaded = macos_api::loaded_monitors(monitors, preferences, devices);
    lemma_with_devices(monitors, preferences, devices, n, monitor, d);
    sequences::lemma_filter_contains(all, macos_api::is_real(), monitor);
    let i = choose|i: int|
        0 <= i < all.len() && (#[trigger] all[i]).serial_number_id == devices[d].serial_number_id;
    assert(all.contains(all[i]));
    sequences::lemma_filter_contains(all, macos_api::is_real(), all[i]);
    let j = choose|j: int| 0 <= j < loaded.len() && loaded[j] == all[i];
    assert(loaded[j].serial_number_id == devices[d].serial_number_id);
}

} // verus!
