//! What was written down of a session puts every window back, on its own workspace and in its
//! own slot.

use crate::macos_api::windows;
use crate::macos_api::windows::Claim;
use crate::macos_api::windows::FoundWindowView;
use crate::session;
use crate::session::SessionStateView;
use crate::settings::WindowAttributesView;
use crate::window_manager;
use crate::window_manager::ContainerView;
use crate::window_manager::WindowManagerView;
use crate::window_manager::WorkspaceView;
use vstd::prelude::*;

verus! {

/// A window that was found always goes to a workspace that exists, whatever an earlier session
/// says, if its monitor is showing one.
pub proof fn law_every_window_has_somewhere_to_go(
    wm: WindowManagerView,
    session: Option<SessionStateView>,
    m: usize,
    i: usize,
    found: FoundWindowView,
)
    requires
        m < wm.monitors.len(),
        wm.monitors[m as int].focused() is Some,
    ensures
        ({
            let claim = windows::claim_of(wm, session, m, i, found);
            let (tm, tw) = claim.target;
            &&& windows::is_there(wm, claim.target)
            &&& windows::with_container(
                wm,
                claim.target,
                claim.slot,
                windows::container_for(found),
            ).monitors[tm as int].workspaces[tw as int].shows(found.window.id)
        }),
{
    let claim = windows::claim_of(wm, session, m, i, found);
    lemma_with_container_shows(wm, claim.target, claim.slot, found);
}

proof fn lemma_landing(workspace: WorkspaceView, slot: Option<usize>, container: ContainerView)
    ensures
        0 <= workspace.landing(slot) <= workspace.containers.len(),
        workspace.with_container(slot, container).containers.len() == workspace.containers.len()
            + 1,
        workspace.with_container(slot, container).containers[workspace.landing(slot)] == container,
        forall|c: int|
            0 <= c < workspace.landing(slot) ==> #[trigger] workspace.with_container(
                slot,
                container,
            ).containers[c] == workspace.containers[c],
        forall|c: int|
            workspace.landing(slot) <= c < workspace.containers.len() ==> workspace.with_container(
                slot,
                container,
            ).containers[c + 1] == #[trigger] workspace.containers[c],
{
}

proof fn lemma_with_container_shows(
    wm: WindowManagerView,
    target: (usize, usize),
    slot: Option<usize>,
    found: FoundWindowView,
)
    requires
        windows::is_there(wm, target),
    ensures
        windows::with_container(
            wm,
            target,
            slot,
            windows::container_for(found),
        ).monitors[target.0 as int].workspaces[target.1 as int].shows(found.window.id),
{
    let container = windows::container_for(found);
    let workspace = wm.monitors[target.0 as int].workspaces[target.1 as int];
    let after = workspace.with_container(slot, container);
    lemma_landing(workspace, slot, container);
    assert(container.windows[0].id == found.window.id);
    assert(window_manager::has_id(
        after.containers[workspace.landing(slot)].windows,
        found.window.id,
    ));
}

/// Putting one more container anywhere takes no window off any workspace, and no workspace
/// away.
proof fn lemma_with_container_keeps(
    wm: WindowManagerView,
    target: (usize, usize),
    slot: Option<usize>,
    container: ContainerView,
    place: (usize, usize),
    id: u32,
)
    ensures
        ({
            let after = windows::with_container(wm, target, slot, container);
            &&& windows::is_there(after, place) == windows::is_there(wm, place)
            &&& windows::is_there(wm, place)
                && wm.monitors[place.0 as int].workspaces[place.1 as int].shows(id)
                ==> after.monitors[place.0 as int].workspaces[place.1 as int].shows(id)
        }),
{
    if windows::is_there(wm, target) && windows::is_there(wm, place) {
        let before = wm.monitors[place.0 as int].workspaces[place.1 as int];
        let after = windows::with_container(
            wm,
            target,
            slot,
            container,
        ).monitors[place.0 as int].workspaces[place.1 as int];
        if target == place {
            assert(after == before.with_container(slot, container));
            lemma_landing(before, slot, container);
            if before.shows(id) {
                if exists|c: int|
                    0 <= c < before.containers.len() && window_manager::has_id(
                        (#[trigger] before.containers[c]).windows,
                        id,
                    ) {
                    let c = choose|c: int|
                        0 <= c < before.containers.len() && window_manager::has_id(
                            (#[trigger] before.containers[c]).windows,
                            id,
                        );
                    if c < before.landing(slot) {
                        assert(window_manager::has_id(after.containers[c].windows, id));
                    } else {
                        assert(window_manager::has_id(after.containers[c + 1].windows, id));
                    }
                }
                assert(after.shows(id));
            }
        } else {
            assert(after == before);
        }
    }
}

/// A window that had its turn is on the workspace that it goes to, and stays there.
proof fn lemma_placed_shows(
    wm: WindowManagerView,
    found: Seq<FoundWindowView>,
    order: Seq<Claim>,
    n: int,
    place: (usize, usize),
    k: int,
)
    requires
        0 <= k < order.len(),
        0 <= n <= order.len(),
        windows::is_there(wm, place),
    ensures
        windows::is_there(windows::placed(wm, found, order, n), place),
        k < n && order[k].target == place ==> windows::placed(
            wm,
            found,
            order,
            n,
        ).monitors[place.0 as int].workspaces[place.1 as int].shows(
            found[order[k].found as int].window.id,
        ),
    decreases n,
{
    if n > 0 {
        let id = found[order[k].found as int].window.id;
        let earlier = windows::placed(wm, found, order, n - 1);
        let claim = order[n - 1];
        let container = windows::container_for(found[claim.found as int]);
        lemma_placed_shows(wm, found, order, n - 1, place, k);
        lemma_with_container_keeps(earlier, claim.target, claim.slot, container, place, id);
        if k == n - 1 && claim.target == place {
            lemma_with_container_shows(
                earlier,
                claim.target,
                claim.slot,
                found[claim.found as int],
            );
        }
    }
}

/// Every window is among those that are put in order.
proof fn lemma_in_order(claims: Seq<Claim>, n: int, k: int)
    requires
        0 <= k < n <= claims.len(),
    ensures
        windows::by_slot(claims, n).contains(claims[k]),
    decreases n,
{
    let earlier = windows::by_slot(claims, n - 1);
    let at = windows::turn(earlier, claims[n - 1].slot, 0);
    let all = windows::by_slot(claims, n);
    windows::lemma_turn_in_range(earlier, claims[n - 1].slot, 0);
    if k < n - 1 {
        lemma_in_order(claims, n - 1, k);
        let a = choose|a: int| 0 <= a < earlier.len() && earlier[a] == claims[k];
        if a < at {
            assert(all[a] == claims[k]);
        } else {
            assert(all[a + 1] == claims[k]);
        }
    } else {
        assert(all[at] == claims[k]);
    }
}

/// Which entry of a session a window that was found claims, while nothing has been claimed yet.
pub open spec fn claim_on(session: SessionStateView, found: FoundWindowView) -> Option<int> {
    session::claimed_entry(
        session,
        found.window.id,
        session::or_empty(found.attributes.exe),
        session::or_empty(found.attributes.title),
    )
}

/// No two of the windows that are chosen claim the same entry.
pub open spec fn claims_are_apart(
    session: SessionStateView,
    found: Seq<FoundWindowView>,
    chosen: Seq<(usize, usize)>,
) -> bool {
    &&& forall|k: int| 0 <= k < chosen.len() ==> (#[trigger] chosen[k]).1 < found.len()
    &&& forall|a: int, b: int|
        0 <= a < b < chosen.len() && claim_on(session, found[(#[trigger] chosen[a]).1 as int])
            is Some ==> claim_on(session, found[chosen[a].1 as int]) != claim_on(
            session,
            found[(#[trigger] chosen[b]).1 as int],
        )
}

/// What is left of a session: the entries of it that stood at these places, in their order.
spec fn is_left(session: SessionStateView, left: SessionStateView, origin: Seq<int>) -> bool {
    &&& left.ids_are_current == session.ids_are_current
    &&& left.windows.len() == origin.len()
    &&& forall|a: int|
        0 <= a < origin.len() ==> 0 <= #[trigger] origin[a] < session.windows.len()
            && left.windows[a] == session.windows[origin[a]]
    &&& forall|a: int, b: int|
        0 <= a < b < origin.len() ==> #[trigger] origin[a] < #[trigger] origin[b]
}

/// What a window claims does not depend on whether other windows have claimed theirs.
proof fn lemma_claim_is_stable(
    session: SessionStateView,
    left: SessionStateView,
    origin: Seq<int>,
    found: FoundWindowView,
)
    requires
        is_left(session, left, origin),
        claim_on(session, found) is Some ==> origin.contains(claim_on(session, found)->0),
    ensures
        match claim_on(session, found) {
            Some(e) => claim_on(left, found) matches Some(p) && 0 <= p < origin.len() && origin[p]
                == e,
            None => claim_on(left, found) is None,
        },
{
    let id = found.window.id;
    let exe = session::or_empty(found.attributes.exe);
    let title = session::or_empty(found.attributes.title);
    session::lemma_first_by_id(session.windows, id, exe, 0);
    session::lemma_first_by_title(session.windows, exe, title, 0);
    session::lemma_first_by_id(left.windows, id, exe, 0);
    session::lemma_first_by_title(left.windows, exe, title, 0);
    if let Some(e) = claim_on(session, found) {
        let p = choose|p: int| 0 <= p < origin.len() && origin[p] == e;
        assert(left.windows[p] == session.windows[e]);
        if let Some(q) = claim_on(left, found) {
            assert(left.windows[q] == session.windows[origin[q]]);
            if q < p {
                assert(origin[q] < origin[p]);
            } else if p < q {
                assert(origin[p] < origin[q]);
            }
        }
    }
    assert forall|a: int| 0 <= a < left.windows.len() implies #[trigger] left.windows[a]
        == session.windows[origin[a]] by {
        assert(origin[a] < session.windows.len());
    }
}

/// Once the first `n` windows have looked for their place, all entries but theirs are left.
proof fn lemma_left(
    wm: WindowManagerView,
    session: SessionStateView,
    found: Seq<FoundWindowView>,
    chosen: Seq<(usize, usize)>,
    n: int,
) -> (origin: Seq<int>)
    requires
        0 <= n <= chosen.len(),
        claims_are_apart(session, found, chosen),
    ensures
        windows::claims(wm, Some(session), found, chosen, n).0.len() == n,
        windows::claims(wm, Some(session), found, chosen, n).1 is Some,
        is_left(session, windows::claims(wm, Some(session), found, chosen, n).1->0, origin),
        forall|e: int|
            0 <= e < session.windows.len() && (forall|k: int|
                0 <= k < n ==> claim_on(session, found[(#[trigger] chosen[k]).1 as int]) != Some(
                    e,
                )) ==> #[trigger] origin.contains(e),
    decreases n,
{
    if n == 0 {
        let origin = Seq::new(session.windows.len(), |a: int| a);
        assert forall|e: int| 0 <= e < session.windows.len() implies #[trigger] origin.contains(
            e,
        ) by {
            assert(origin[e] == e);
        }
        origin
    } else {
        let earlier = lemma_left(wm, session, found, chosen, n - 1);
        let left = windows::claims(wm, Some(session), found, chosen, n - 1).1->0;
        let after = windows::claims(wm, Some(session), found, chosen, n).1->0;
        assert(chosen[n - 1].1 < found.len());
        let window = found[chosen[n - 1].1 as int];
        let claimed = claim_on(session, window);
        if let Some(e) = claimed {
            session::lemma_first_by_id(
                session.windows,
                window.window.id,
                session::or_empty(window.attributes.exe),
                0,
            );
            session::lemma_first_by_title(
                session.windows,
                session::or_empty(window.attributes.exe),
                session::or_empty(window.attributes.title),
                0,
            );
            assert(earlier.contains(e)) by {
                assert forall|k: int| 0 <= k < n - 1 implies claim_on(
                    session,
                    found[(#[trigger] chosen[k]).1 as int],
                ) != Some(e) by {
                    assert(chosen[n - 1].1 < found.len());
                }
            }
        }
        lemma_claim_is_stable(session, left, earlier, window);
        let origin = match claim_on(left, window) {
            Some(p) => earlier.remove(p),
            None => earlier,
        };
        if let Some(p) = claim_on(left, window) {
            assert(after.windows == left.windows.remove(p));
            assert forall|a: int| 0 <= a < origin.len() implies 0 <= #[trigger] origin[a]
                < session.windows.len() && after.windows[a] == session.windows[origin[a]] by {
                let x = if a < p {
                    a
                } else {
                    a + 1
                };
                assert(origin[a] == earlier[x]);
                assert(after.windows[a] == left.windows[x]);
            }
            assert forall|a: int, b: int| 0 <= a < b < origin.len() implies #[trigger] origin[a]
                < #[trigger] origin[b] by {
                let x = if a < p {
                    a
                } else {
                    a + 1
                };
                let y = if b < p {
                    b
                } else {
                    b + 1
                };
                assert(origin[a] == earlier[x] && origin[b] == earlier[y]);
            }
        }
        assert forall|e: int|
            0 <= e < session.windows.len() && (forall|k: int|
                0 <= k < n ==> claim_on(session, found[(#[trigger] chosen[k]).1 as int]) != Some(
                    e,
                )) implies #[trigger] origin.contains(e) by {
            assert(earlier.contains(e));
            assert(claim_on(session, found[chosen[n - 1].1 as int]) != Some(e));
            let x = choose|x: int| 0 <= x < earlier.len() && earlier[x] == e;
            if let Some(p) = claim_on(left, window) {
                if x < p {
                    assert(origin[x] == e);
                } else {
                    assert(origin[x - 1] == e);
                }
            } else {
                assert(origin[x] == e);
            }
        }
        origin
    }
}

/// The window that has its turn at `k` goes to the place that it claims.
proof fn lemma_claim_is_its_own(
    wm: WindowManagerView,
    session: SessionStateView,
    found: Seq<FoundWindowView>,
    chosen: Seq<(usize, usize)>,
    n: int,
    k: int,
)
    requires
        0 <= k < n <= chosen.len(),
        claims_are_apart(session, found, chosen),
    ensures
        windows::claims(wm, Some(session), found, chosen, n).0.len() == n,
        windows::claims(wm, Some(session), found, chosen, n).0[k] == windows::claim_of(
            wm,
            Some(session),
            chosen[k].0,
            chosen[k].1,
            found[chosen[k].1 as int],
        ),
    decreases n,
{
    let origin = lemma_left(wm, session, found, chosen, n - 1);
    assert(chosen[n - 1].1 < found.len());
    if k < n - 1 {
        lemma_claim_is_its_own(wm, session, found, chosen, n - 1, k);
    } else {
        let left = windows::claims(wm, Some(session), found, chosen, k).1->0;
        let window = found[chosen[k].1 as int];
        if let Some(e) = claim_on(session, window) {
            session::lemma_first_by_id(
                session.windows,
                window.window.id,
                session::or_empty(window.attributes.exe),
                0,
            );
            session::lemma_first_by_title(
                session.windows,
                session::or_empty(window.attributes.exe),
                session::or_empty(window.attributes.title),
                0,
            );
            assert(origin.contains(e)) by {
                assert forall|a: int| 0 <= a < k implies claim_on(
                    session,
                    found[(#[trigger] chosen[a]).1 as int],
                ) != Some(e) by {
                    assert(chosen[k].1 < found.len());
                }
            }
        }
        lemma_claim_is_stable(session, left, origin, window);
    }
}

/// Every window that has a place in a session is put back there, however many others are put
/// back before and after it, if no two of them claim the same entry and the workspace is there.
/// It does not matter whether they are known by their ids or by their titles.
pub proof fn law_every_window_is_put_back(
    wm: WindowManagerView,
    session: SessionStateView,
    found: Seq<FoundWindowView>,
    chosen: Seq<(usize, usize)>,
    k: int,
)
    requires
        claims_are_apart(session, found, chosen),
        0 <= k < chosen.len(),
        claim_on(session, found[chosen[k].1 as int]) matches Some(e) && windows::is_there(
            wm,
            (session.windows[e].monitor, session.windows[e].workspace),
        ),
    ensures
        ({
            let window = found[chosen[k].1 as int];
            let entry = session.windows[claim_on(session, window)->0];
            windows::settled_windows(
                wm,
                Some(session),
                found,
                chosen,
                chosen.len() as int,
            ).0.monitors[entry.monitor as int].workspaces[entry.workspace as int].shows(
                window.window.id,
            )
        }),
{
    let entry = session.windows[claim_on(session, found[chosen[k].1 as int])->0];
    let n = chosen.len() as int;
    let claims = windows::claims(wm, Some(session), found, chosen, n).0;
    let order = windows::by_slot(claims, claims.len() as int);
    lemma_claim_is_its_own(wm, session, found, chosen, n, k);
    lemma_in_order(claims, claims.len() as int, k);
    let a = choose|a: int| 0 <= a < order.len() && order[a] == claims[k];
    lemma_placed_shows(
        wm,
        found,
        order,
        order.len() as int,
        (entry.monitor, entry.workspace),
        a,
    );
}

/// A window was written down, under its id and its application.
pub open spec fn is_written(session: SessionStateView, found: FoundWindowView) -> bool {
    exists|i: int|
        0 <= i < session.windows.len() && session::matches_id(
            #[trigger] session.windows[i],
            found.window.id,
            session::or_empty(found.attributes.exe),
        )
}

/// The windows that are chosen are told apart by their ids: each is chosen once, and was
/// written down with the application it has or claims nothing.
pub open spec fn are_told_apart_by_id(
    session: SessionStateView,
    found: Seq<FoundWindowView>,
    chosen: Seq<(usize, usize)>,
) -> bool {
    &&& forall|k: int|
        0 <= k < chosen.len() ==> (#[trigger] chosen[k]).1 < found.len() && (is_written(
            session,
            found[chosen[k].1 as int],
        ) || claim_on(session, found[chosen[k].1 as int]) is None)
    &&& forall|a: int, b: int|
        0 <= a < chosen.len() && 0 <= b < chosen.len() && found[(
        #[trigger] chosen[a]).1 as int].window.id == found[(#[trigger] chosen[b]).1 as int].window.id
            ==> a == b
}

proof fn lemma_apart_by_id(
    session: SessionStateView,
    found: Seq<FoundWindowView>,
    chosen: Seq<(usize, usize)>,
)
    requires
        session.ids_are_current,
        are_told_apart_by_id(session, found, chosen),
    ensures
        claims_are_apart(session, found, chosen),
        forall|k: int|
            0 <= k < chosen.len() && claim_on(session, found[(#[trigger] chosen[k]).1 as int])
                is Some ==> session.windows[claim_on(
                session,
                found[chosen[k].1 as int],
            )->0].window_id == found[chosen[k].1 as int].window.id && 0 <= claim_on(
                session,
                found[chosen[k].1 as int],
            )->0 < session.windows.len(),
{
    assert forall|k: int|
        0 <= k < chosen.len() && claim_on(session, found[(#[trigger] chosen[k]).1 as int])
            is Some implies session.windows[claim_on(
        session,
        found[chosen[k].1 as int],
    )->0].window_id == found[chosen[k].1 as int].window.id && 0 <= claim_on(
        session,
        found[chosen[k].1 as int],
    )->0 < session.windows.len() by {
        let window = found[chosen[k].1 as int];
        session::lemma_first_by_id(
            session.windows,
            window.window.id,
            session::or_empty(window.attributes.exe),
            0,
        );
        assert(is_written(session, window));
    }
}

/// Writing a session down and loading it within the same boot puts every window back on its own
/// workspace: every window of the state that was written down shows on the same workspace of
/// the state that is loaded, if its id was written down once, the windows are found again with
/// the applications they had, and the workspace is there.
pub proof fn law_a_restart_puts_every_window_back(
    before: WindowManagerView,
    attributes: Seq<(u32, WindowAttributesView)>,
    boot_uuid: Seq<char>,
    wm: WindowManagerView,
    found: Seq<FoundWindowView>,
    chosen: Seq<(usize, usize)>,
    i: int,
    k: int,
)
    requires
        ({
            let written = session::built(before, attributes, Some(boot_uuid));
            &&& are_told_apart_by_id(written, found, chosen)
            &&& 0 <= i < written.windows.len()
            &&& session::is_written_once(written.windows, written.windows[i].window_id)
            &&& windows::is_there(wm, (written.windows[i].monitor, written.windows[i].workspace))
            &&& 0 <= k < chosen.len()
            &&& session::matches_id(
                written.windows[i],
                found[chosen[k].1 as int].window.id,
                session::or_empty(found[chosen[k].1 as int].attributes.exe),
            )
        }),
    ensures
        ({
            let written = session::built(before, attributes, Some(boot_uuid));
            let entry = written.windows[i];
            windows::settled_windows(
                wm,
                Some(written),
                found,
                chosen,
                chosen.len() as int,
            ).0.monitors[entry.monitor as int].workspaces[entry.workspace as int].shows(
                entry.window_id,
            )
        }),
{
    let written = session::built(before, attributes, Some(boot_uuid));
    let window = found[chosen[k].1 as int];
    lemma_apart_by_id(written, found, chosen);
    session::lemma_first_by_id(
        written.windows,
        window.window.id,
        session::or_empty(window.attributes.exe),
        0,
    );
    let e = claim_on(written, window)->0;
    assert(written.windows[e].window_id == written.windows[i].window_id);
    law_every_window_is_put_back(wm, written, found, chosen, k);
}

/// The windows that are chosen are told apart by their titles: no two of one application have
/// the same.
pub open spec fn are_told_apart_by_title(
    found: Seq<FoundWindowView>,
    chosen: Seq<(usize, usize)>,
) -> bool {
    &&& forall|k: int| 0 <= k < chosen.len() ==> (#[trigger] chosen[k]).1 < found.len()
    &&& forall|a: int, b: int|
        0 <= a < chosen.len() && 0 <= b < chosen.len() && session::or_empty(
            found[(#[trigger] chosen[a]).1 as int].attributes.exe,
        ) == session::or_empty(found[(#[trigger] chosen[b]).1 as int].attributes.exe)
            && session::or_empty(found[chosen[a].1 as int].attributes.title) == session::or_empty(
            found[chosen[b].1 as int].attributes.title,
        ) ==> a == b
}

/// Writing a session down and loading it in another boot puts every window with a title back on
/// its own workspace, whatever its id is by then, if its application and title were written down
/// once, the windows that are found are told apart by theirs, and the workspace is there.
pub proof fn law_a_reboot_puts_every_titled_window_back(
    before: WindowManagerView,
    attributes: Seq<(u32, WindowAttributesView)>,
    boot_uuid: Seq<char>,
    wm: WindowManagerView,
    found: Seq<FoundWindowView>,
    chosen: Seq<(usize, usize)>,
    i: int,
    k: int,
)
    requires
        ({
            let written = session::built(before, attributes, Some(boot_uuid));
            let window = found[chosen[k].1 as int];
            &&& are_told_apart_by_title(found, chosen)
            &&& 0 <= i < written.windows.len()
            &&& written.windows[i].title.len() > 0
            &&& forall|j: int|
                0 <= j < written.windows.len() && j != i ==> !session::matches_title(
                    #[trigger] written.windows[j],
                    written.windows[i].exe,
                    written.windows[i].title,
                )
            &&& windows::is_there(wm, (written.windows[i].monitor, written.windows[i].workspace))
            &&& 0 <= k < chosen.len()
            &&& session::matches_title(
                written.windows[i],
                session::or_empty(window.attributes.exe),
                session::or_empty(window.attributes.title),
            )
        }),
    ensures
        ({
            let written = SessionStateView {
                ids_are_current: false,
                ..session::built(before, attributes, Some(boot_uuid))
            };
            let entry = written.windows[i];
            windows::settled_windows(
                wm,
                Some(written),
                found,
                chosen,
                chosen.len() as int,
            ).0.monitors[entry.monitor as int].workspaces[entry.workspace as int].shows(
                found[chosen[k].1 as int].window.id,
            )
        }),
{
    let written = SessionStateView {
        ids_are_current: false,
        ..session::built(before, attributes, Some(boot_uuid))
    };
    let window = found[chosen[k].1 as int];
    assert forall|a: int, b: int|
        0 <= a < b < chosen.len() && claim_on(written, found[(#[trigger] chosen[a]).1 as int])
            is Some implies claim_on(written, found[chosen[a].1 as int]) != claim_on(
        written,
        found[(#[trigger] chosen[b]).1 as int],
    ) by {
        session::lemma_first_by_title(
            written.windows,
            session::or_empty(found[chosen[a].1 as int].attributes.exe),
            session::or_empty(found[chosen[a].1 as int].attributes.title),
            0,
        );
        session::lemma_first_by_title(
            written.windows,
            session::or_empty(found[chosen[b].1 as int].attributes.exe),
            session::or_empty(found[chosen[b].1 as int].attributes.title),
            0,
        );
    }
    session::lemma_first_by_title(
        written.windows,
        session::or_empty(window.attributes.exe),
        session::or_empty(window.attributes.title),
        0,
    );
    assert(claim_on(written, window) == Some(i));
    law_every_window_is_put_back(wm, written, found, chosen, k);
}

/// What is in order of slots.
proof fn lemma_order(claims: Seq<Claim>, n: int)
    requires
        n <= claims.len(),
    ensures
        forall|a: int, b: int|
            0 <= a < b < windows::by_slot(claims, n).len() ==> !windows::comes_before(
                (#[trigger] windows::by_slot(claims, n)[b]).slot,
                (#[trigger] windows::by_slot(claims, n)[a]).slot,
            ),
    decreases n,
{
    if n > 0 {
        lemma_order(claims, n - 1);
        let earlier = windows::by_slot(claims, n - 1);
        let claim = claims[n - 1];
        let at = windows::turn(earlier, claim.slot, 0);
        let all = windows::by_slot(claims, n);
        windows::lemma_turn_in_range(earlier, claim.slot, 0);
        assert forall|a: int, b: int| 0 <= a < b < all.len() implies !windows::comes_before(
            (#[trigger] all[b]).slot,
            (#[trigger] all[a]).slot,
        ) by {
            assert(all[a] == if a < at {
                earlier[a]
            } else if a == at {
                claim
            } else {
                earlier[a - 1]
            });
            assert(all[b] == if b < at {
                earlier[b]
            } else if b == at {
                claim
            } else {
                earlier[b - 1]
            });
            if b == at {
                assert(!windows::comes_before(claim.slot, earlier[a].slot));
            } else if a == at {
                assert(windows::comes_before(claim.slot, earlier[at].slot));
                assert(b - 1 == at || !windows::comes_before(
                    earlier[b - 1].slot,
                    earlier[at].slot,
                ));
            }
        }
    }
}

/// How many containers a workspace has once `n` windows have had their turn: no fewer than
/// before, and one more for each that goes there.
proof fn lemma_count_grows(
    wm: WindowManagerView,
    found: Seq<FoundWindowView>,
    order: Seq<Claim>,
    n: int,
    later: int,
    place: (usize, usize),
)
    requires
        0 <= n <= later <= order.len(),
        windows::is_there(wm, place),
    ensures
        windows::is_there(windows::placed(wm, found, order, later), place),
        windows::placed(
            wm,
            found,
            order,
            n,
        ).monitors[place.0 as int].workspaces[place.1 as int].containers.len() + (if n < later
            && order[n].target == place {
            1int
        } else {
            0int
        }) <= windows::placed(
            wm,
            found,
            order,
            later,
        ).monitors[place.0 as int].workspaces[place.1 as int].containers.len(),
    decreases later,
{
    if later > 0 {
        let earlier = windows::placed(wm, found, order, later - 1);
        let claim = order[later - 1];
        let container = windows::container_for(found[claim.found as int]);
        if n < later {
            lemma_count_grows(wm, found, order, n, later - 1, place);
        } else {
            lemma_count_grows(wm, found, order, later - 1, later - 1, place);
        }
        lemma_with_container_keeps(earlier, claim.target, claim.slot, container, place, 0);
        if claim.target == place {
            lemma_landing(
                earlier.monitors[place.0 as int].workspaces[place.1 as int],
                claim.slot,
                container,
            );
        }
    }
}

/// A slot is claimed by a window that goes to this workspace.
pub open spec fn is_claimed(order: Seq<Claim>, place: (usize, usize), slot: usize) -> bool {
    exists|a: int|
        0 <= a < order.len() && (#[trigger] order[a]).target == place && order[a].slot == Some(slot)
}

/// By the time that a slot has its turn, all slots before it have been filled.
proof fn lemma_slots_before_are_filled(
    wm: WindowManagerView,
    found: Seq<FoundWindowView>,
    order: Seq<Claim>,
    place: (usize, usize),
    n: int,
    slot: usize,
)
    requires
        windows::is_there(wm, place),
        0 <= n < order.len(),
        order[n].slot == Some(slot),
        forall|a: int, b: int|
            0 <= a < b < order.len() ==> !windows::comes_before(
                (#[trigger] order[b]).slot,
                (#[trigger] order[a]).slot,
            ),
        forall|s: usize| s < slot ==> #[trigger] is_claimed(order, place, s),
    ensures
        windows::placed(
            wm,
            found,
            order,
            n,
        ).monitors[place.0 as int].workspaces[place.1 as int].containers.len() >= slot,
    decreases slot,
{
    if slot > 0 {
        let s = (slot - 1) as usize;
        assert(is_claimed(order, place, s));
        let a = choose|a: int|
            0 <= a < order.len() && (#[trigger] order[a]).target == place && order[a].slot == Some(
                s,
            );
        if a > n {
            assert(!windows::comes_before(order[a].slot, order[n].slot));
            assert(false);
        }
        assert(a < n);
        lemma_slots_before_are_filled(wm, found, order, place, a, s);
        lemma_count_grows(wm, found, order, a, n, place);
    }
}

/// What stands in a slot stays there while later slots are filled.
proof fn lemma_slot_stays(
    wm: WindowManagerView,
    found: Seq<FoundWindowView>,
    order: Seq<Claim>,
    place: (usize, usize),
    n: int,
    later: int,
    slot: usize,
)
    requires
        windows::is_there(wm, place),
        0 <= n < later <= order.len(),
        order[n].target == place,
        order[n].slot == Some(slot),
        windows::placed(
            wm,
            found,
            order,
            n,
        ).monitors[place.0 as int].workspaces[place.1 as int].containers.len() >= slot,
        forall|a: int|
            n < a < order.len() && (#[trigger] order[a]).target == place
                ==> windows::comes_before(Some(slot), order[a].slot),
    ensures
        ({
            let containers = windows::placed(
                wm,
                found,
                order,
                later,
            ).monitors[place.0 as int].workspaces[place.1 as int].containers;
            &&& slot < containers.len()
            &&& containers[slot as int] == windows::container_for(found[order[n].found as int])
        }),
    decreases later,
{
    let earlier = windows::placed(wm, found, order, later - 1);
    let claim = order[later - 1];
    let container = windows::container_for(found[claim.found as int]);
    lemma_count_grows(wm, found, order, 0, later - 1, place);
    let workspace = earlier.monitors[place.0 as int].workspaces[place.1 as int];
    if later - 1 > n {
        lemma_slot_stays(wm, found, order, place, n, later - 1, slot);
    }
    if claim.target == place {
        lemma_landing(workspace, claim.slot, container);
    }
}

/// Slots are dealt out as they were, whatever order the windows are found in: where the windows
/// that go back to a workspace fill every slot up to one, that slot of the workspace holds the
/// window that goes back to it, or the last of those that do.
pub proof fn law_slots_are_dealt_out_as_they_were(
    wm: WindowManagerView,
    session: Option<SessionStateView>,
    found: Seq<FoundWindowView>,
    chosen: Seq<(usize, usize)>,
    n: int,
    slot: usize,
)
    requires
        ({
            let claims = windows::claims(wm, session, found, chosen, chosen.len() as int).0;
            let order = windows::by_slot(claims, claims.len() as int);
            let place = order[n].target;
            &&& 0 <= n < order.len()
            &&& windows::is_there(wm, place)
            &&& order[n].slot == Some(slot)
            &&& forall|s: usize| s < slot ==> #[trigger] is_claimed(order, place, s)
            &&& forall|a: int|
                n < a < order.len() && (#[trigger] order[a]).target == place ==> order[a].slot
                    != Some(slot)
        }),
    ensures
        ({
            let claims = windows::claims(wm, session, found, chosen, chosen.len() as int).0;
            let claim = windows::by_slot(claims, claims.len() as int)[n];
            let (m, w) = claim.target;
            let containers = windows::settled_windows(
                wm,
                session,
                found,
                chosen,
                chosen.len() as int,
            ).0.monitors[m as int].workspaces[w as int].containers;
            &&& slot < containers.len()
            &&& containers[slot as int] == windows::container_for(found[claim.found as int])
        }),
{
    let claims = windows::claims(wm, session, found, chosen, chosen.len() as int).0;
    let order = windows::by_slot(claims, claims.len() as int);
    let place = order[n].target;
    lemma_order(claims, claims.len() as int);
    lemma_slots_before_are_filled(wm, found, order, place, n, slot);
    assert forall|a: int| n < a < order.len() && (#[trigger] order[a]).target
        == place implies windows::comes_before(Some(slot), order[a].slot) by {
        assert(!windows::comes_before(order[a].slot, order[n].slot));
    }
    lemma_slot_stays(wm, found, order, place, n, order.len() as int, slot);
}

} // verus!
