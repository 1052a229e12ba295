//! What holds of a manager over several steps.
use crate::error::{SceneNotFound, UpdateError};
use crate::manager::{switch_finds, switch_loads, unloaded_into, SceneManager};
use crate::registry::keyed_by_name;
use crate::scene::{keeps_name, round_trips, SavedScene, Scene};
use std::time::Duration;
use vstd::prelude::*;

verus! {

/// Whether `post` is `pre` with `scene` registered in its store: what
/// `store_mut().add(scene)` makes of a manager.
pub open spec fn registered<T, P: SavedScene>(
    pre: SceneManager<T, P>,
    scene: P,
    post: SceneManager<T, P>,
) -> bool {
    &&& post.store().scenes() == pre.store().scenes().insert(scene.spec_name(), scene)
    &&& post.current() == pre.current()
}

/// A switch to a name that is not in the store, and that is not the name
/// under which the live scene unloads, fails with that name. The manager is
/// left with the scene that was live, loaded again from its saved form.
pub proof fn law_switch_to_unknown_fails<T, P: SavedScene>(
    pre: SceneManager<T, P>,
    name: Seq<char>,
    post: SceneManager<T, P>,
    result: Result<(), SceneNotFound>,
)
    requires
        !pre.store().scenes().contains_key(name),
        pre.current().spec_unload().spec_name() != name,
        SceneManager::switched(pre, name, post, result),
    ensures
        result matches Err(e) && e.name@ == name,
        *post.current() == pre.current().spec_unload().spec_load(),
{
}

/// A manager that was just made of a starting scene knows that scene's name
/// and no other: a switch to any other name fails with that name.
pub proof fn law_new_manager_knows_only_start<T, P: SavedScene>(
    starting_scene_state: P,
    game_data: T,
    manager: SceneManager<T, P>,
    name: Seq<char>,
    post: SceneManager<T, P>,
    result: Result<(), SceneNotFound>,
)
    requires
        manager.starts_with(starting_scene_state, game_data),
        keeps_name(starting_scene_state),
        name != starting_scene_state.spec_name(),
        SceneManager::switched(manager, name, post, result),
    ensures
        result matches Err(e) && e.name@ == name,
{
    law_switch_to_unknown_fails(manager, name, post, result);
}

/// After a scene has been registered, a switch to its name from a scene of
/// another name succeeds, and the live scene is then the registered one
/// loaded, which unloads under the registered name.
pub proof fn law_switch_to_registered<T, P: SavedScene>(
    pre: SceneManager<T, P>,
    scene: P,
    with_scene: SceneManager<T, P>,
    post: SceneManager<T, P>,
    result: Result<(), SceneNotFound>,
)
    requires
        registered(pre, scene, with_scene),
        pre.current().spec_unload().spec_name() != scene.spec_name(),
        keeps_name(scene),
        SceneManager::switched(with_scene, scene.spec_name(), post, result),
    ensures
        result is Ok,
        *post.current() == scene.spec_load(),
        post.current().spec_unload().spec_name() == scene.spec_name(),
{
}

/// From a scene that unloads as `a`, a switch to another scene and a switch
/// back restore it: both succeed, and the live scene is then `a` loaded,
/// which unloads as `a` again, name and data.
pub proof fn law_switch_there_and_back<T, P: SavedScene>(
    start: SceneManager<T, P>,
    other: Seq<char>,
    there: SceneManager<T, P>,
    there_result: Result<(), SceneNotFound>,
    back: SceneManager<T, P>,
    back_result: Result<(), SceneNotFound>,
)
    requires
        keyed_by_name(start.store().scenes()),
        start.store().scenes().contains_key(other),
        other != start.current().spec_unload().spec_name(),
        round_trips(start.current().spec_unload()),
        keeps_name(start.store().scenes()[other]),
        SceneManager::switched(start, other, there, there_result),
        SceneManager::switched(
            there,
            start.current().spec_unload().spec_name(),
            back,
            back_result,
        ),
    ensures
        there_result is Ok,
        back_result is Ok,
        *back.current() == start.current().spec_unload().spec_load(),
        back.current().spec_unload() == start.current().spec_unload(),
{
    let a = start.current().spec_unload();
    let b = start.store().scenes()[other];
    assert(there.store().scenes()[other] == b);
    assert(*there.current() == b.spec_load());
    assert(back.store().scenes()[a.spec_name()] == a);
}

/// Of two scenes registered under one name the second stays: the store is
/// as if the first had never been registered, and a switch to the name from
/// a scene of another name loads the second.
pub proof fn law_last_registered_wins<T, P: SavedScene>(
    pre: SceneManager<T, P>,
    first: P,
    with_first: SceneManager<T, P>,
    second: P,
    with_second: SceneManager<T, P>,
    post: SceneManager<T, P>,
    result: Result<(), SceneNotFound>,
)
    requires
        first.spec_name() == second.spec_name(),
        registered(pre, first, with_first),
        registered(with_first, second, with_second),
        pre.current().spec_unload().spec_name() != second.spec_name(),
        SceneManager::switched(with_second, second.spec_name(), post, result),
    ensures
        with_second.store().scenes() == pre.store().scenes().insert(second.spec_name(), second),
        result is Ok,
        *post.current() == second.spec_load(),
{
    assert(with_second.store().scenes() =~= pre.store().scenes().insert(
        second.spec_name(),
        second,
    ));
}

/// A frame that starts with a request pending, for a scene that the switch
/// finds, makes the switch before anything else: the scene that was live is
/// unloaded into the store, and the update of that frame is the update of
/// the requested scene, freshly loaded. No request is pending afterwards.
pub proof fn law_update_switches_first<T, P: SavedScene>(
    pre: SceneManager<T, P>,
    name: Seq<char>,
    ctx: <P::Live as Scene>::Context,
    dt: Duration,
    post: SceneManager<T, P>,
    ctx_post: <P::Live as Scene>::Context,
    result: Result<(), UpdateError<<P::Live as Scene>::Error>>,
)
    requires
        pre.pending() == Some(name),
        switch_finds(pre.store().scenes(), *pre.current(), name),
        SceneManager::updated(pre, ctx, dt, post, ctx_post, result),
    ensures
        post.store().scenes() == unloaded_into(pre.store().scenes(), *pre.current()),
        SceneManager::<T, P>::scene_updated(
            switch_loads(pre.store().scenes(), *pre.current(), name).spec_load(),
            ctx,
            dt,
            *post.current(),
            ctx_post,
            result,
        ),
        !(result matches Err(UpdateError::SceneNotFound(_))),
        post.pending() is None,
{
}

/// A frame that starts with a request pending, for a scene that the switch
/// does not find, ends with the failed switch: the result names the scene,
/// the context is untouched, and the scene that was live is live again,
/// loaded from its saved form. The request is not made again.
pub proof fn law_update_stops_at_failed_switch<T, P: SavedScene>(
    pre: SceneManager<T, P>,
    name: Seq<char>,
    ctx: <P::Live as Scene>::Context,
    dt: Duration,
    post: SceneManager<T, P>,
    ctx_post: <P::Live as Scene>::Context,
    result: Result<(), UpdateError<<P::Live as Scene>::Error>>,
)
    requires
        pre.pending() == Some(name),
        !switch_finds(pre.store().scenes(), *pre.current(), name),
        SceneManager::updated(pre, ctx, dt, post, ctx_post, result),
    ensures
        result matches Err(UpdateError::SceneNotFound(e)) && e.name@ == name,
        ctx_post == ctx,
        *post.current() == pre.current().spec_unload().spec_load(),
        post.pending() is None,
{
}

} // verus!
