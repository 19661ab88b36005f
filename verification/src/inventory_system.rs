use vstd::prelude::*;
use crate::components::{
    CombatStats, Entity, InBackpack, Point, Position, SufferDamage, WantsToDropItem,
    WantsToPickupItem, WantsToUseItem,
};
use crate::gamelog::GameLog;
use crate::map::{spec_xy_idx, GameMap};
use crate::text::{
    build_damage_message, build_drink_message, build_drop_message, build_pickup_message,
    damage_message, drink_message, drop_message, pickup_message,
};
use crate::world::{add_damage, spec_alive, World, WorldView};

verus! {

/// The joint state an inventory system acts on: the world and the log.
#[verifier::ext_equal]
pub struct SysState {
    pub w: WorldView,
    pub log: Seq<Seq<char>>,
}

/// One pickup intent resolved: the item leaves world-space, exactly one
/// backpack relation to the collector appears, and the player's pickups are
/// reported in the log.
pub open spec fn pickup_applied(s: SysState, player: int, p: WantsToPickupItem) -> SysState {
    let w = WorldView {
        positions: s.w.positions.remove(p.item as int),
        backpacks: s.w.backpacks.insert(p.item as int, InBackpack { owner: p.collected_by }),
        ..s.w
    };
    let log = if p.collected_by as int == player {
        s.log.push(pickup_message(s.w.names[p.item as int]))
    } else {
        s.log
    };
    SysState { w, log }
}

/// The collection system's walk over the entities from `i` up to `n`, in
/// identity order, resolving each pending pickup intent.
pub open spec fn collection_run_from(s: SysState, player: int, i: int, n: int) -> SysState
    decreases n - i,
{
    if i >= n {
        s
    } else {
        let s2 = if s.w.wants_pickup.contains_key(i) {
            pickup_applied(s, player, s.w.wants_pickup[i])
        } else {
            s
        };
        collection_run_from(s2, player, i + 1, n)
    }
}

/// Every pending pickup intent names an item slot that a store can hold,
/// and the item carries a display name whenever the collector is the
/// player; a missing name is an upstream invariant violation, fatal by
/// design rather than a recoverable condition.
pub open spec fn pickup_intents_ok(w: WorldView, player: int) -> bool {
    forall|e: int| #[trigger] w.wants_pickup.contains_key(e) ==> {
        let p = w.wants_pickup[e];
        &&& p.item < usize::MAX
        &&& (p.collected_by as int == player ==> w.names.contains_key(p.item as int))
    }
}

/// Moves picked-up items from world-space into their collector's
/// inventory.
pub struct ItemCollectionSystem {}

impl ItemCollectionSystem {
    /// Resolve every pending pickup intent, walking the entities in
    /// identity order, then clear the whole intent store: each request is
    /// acted on exactly once per turn.
    pub fn run(world: &mut World, log: &mut GameLog, player_entity: Entity)
        requires
            pickup_intents_ok(old(world)@, player_entity as int),
        ensures
            ({
                let end = collection_run_from(
                    SysState { w: old(world)@, log: old(log)@ },
                    player_entity as int,
                    0,
                    old(world)@.alive.len() as int,
                );
                &&& final(world)@ == (WorldView {
                    wants_pickup: Map::<int, WantsToPickupItem>::empty(),
                    ..end.w
                })
                &&& final(log)@ == end.log
            }),
    {
        let ghost init = SysState { w: old(world)@, log: old(log)@ };
        let ghost player = player_entity as int;
        let n = world.entity_count();
        let mut e: usize = 0;
        while e < n
            invariant
                e <= n,
                n as int == old(world)@.alive.len(),
                pickup_intents_ok(old(world)@, player),
                player == player_entity as int,
                init == (SysState { w: old(world)@, log: old(log)@ }),
                world@.wants_pickup == old(world)@.wants_pickup,
                world@.names == old(world)@.names,
                collection_run_from(
                    SysState { w: world@, log: log@ },
                    player,
                    e as int,
                    n as int,
                ) == collection_run_from(init, player, 0, n as int),
            decreases n - e,
        {
            let ghost pre = SysState { w: world@, log: log@ };
            let p_opt = match world.wants_pickup.get(e) {
                Some(pr) => Some(*pr),
                None => None,
            };
            match p_opt {
                Some(pickup) => {
                    world.positions.remove(pickup.item);
                    world.backpacks.insert(
                        pickup.item,
                        InBackpack { owner: pickup.collected_by },
                    );
                    if pickup.collected_by == player_entity {
                        match world.names.get(pickup.item) {
                            Some(nm) => {
                                let msg = build_pickup_message(nm.name.as_str());
                                proof {
                                    assert(pre.w.names[pickup.item as int] == nm.name@);
                                }
                                log.push(msg);
                            },
                            None => {
                                proof {
                                    assert(false);
                                }
                            },
                        }
                    }
                    proof {
                        let cur = SysState { w: world@, log: log@ };
                        assert(cur =~= pickup_applied(pre, player, pickup));
                        assert(collection_run_from(pre, player, e as int, n as int)
                            == collection_run_from(cur, player, e as int + 1, n as int));
                    }
                },
                None => {
                    proof {
                        let cur = SysState { w: world@, log: log@ };
                        assert(collection_run_from(pre, player, e as int, n as int)
                            == collection_run_from(cur, player, e as int + 1, n as int));
                    }
                },
            }
            e = e + 1;
        }
        world.wants_pickup.clear();
        proof {
            let end = collection_run_from(init, player, 0, n as int);
            assert(world@ =~= (WorldView {
                wants_pickup: Map::<int, WantsToPickupItem>::empty(),
                ..end.w
            }));
        }
    }
}

/// Damage queued against the occupants of one tile, walked from occupant
/// `i` on: every occupant of the tile gets one pending hit of the item's
/// damage, and no other entity is touched; the player's hits are reported
/// in the log, one message per occupant.
pub open spec fn damage_all(
    s: SysState,
    mobs: Seq<Entity>,
    i: int,
    names: Map<int, Seq<char>>,
    player: int,
    user: int,
    item_name: Seq<char>,
    dmg: i32,
) -> SysState
    decreases mobs.len() - i,
{
    if i < 0 || i >= mobs.len() {
        s
    } else {
        let mob = mobs[i] as int;
        let w = WorldView { suffer_damage: add_damage(s.w.suffer_damage, mob, dmg), ..s.w };
        let log = if user == player {
            s.log.push(damage_message(item_name, names[mob], dmg))
        } else {
            s.log
        };
        damage_all(SysState { w, log }, mobs, i + 1, names, player, user, item_name, dmg)
    }
}

/// One use intent resolved, effects in a fixed order: a consumable item is
/// marked destroyed first, idempotently, so that it is destroyed exactly
/// once however many effect branches fire; then a healing payload raises
/// the user's hp by the heal amount, clamped to max_hp; then a damage
/// payload queues damage against every occupant of the resolved target
/// tile. Components are read from the state at entry: destruction only
/// clears the liveness flag, so a consumable's payloads still apply.
pub open spec fn use_applied(
    s: SysState,
    tc: Seq<Seq<Entity>>,
    player: int,
    e: int,
    u: WantsToUseItem,
) -> SysState {
    let item = u.item as int;
    let s1 = if s.w.consumables.contains_key(item) && spec_alive(s.w.alive, item) {
        SysState { w: WorldView { alive: s.w.alive.update(item, false), ..s.w }, log: s.log }
    } else {
        s
    };
    let s2 = if s.w.healing.contains_key(item) {
        let heal = s.w.healing[item].heal_amount;
        let stats = s.w.combat_stats[e];
        let new_hp = vstd::math::min(stats.max_hp as int, stats.hp as int + heal as int);
        let w = WorldView {
            combat_stats: s1.w.combat_stats.insert(e, CombatStats { hp: new_hp as i32, ..stats }),
            ..s1.w
        };
        let log = if e == player {
            s1.log.push(drink_message(s.w.names[item], heal))
        } else {
            s1.log
        };
        SysState { w, log }
    } else {
        s1
    };
    if s.w.inflicts_damage.contains_key(item) {
        let dmg = s.w.inflicts_damage[item].damage;
        let t = u.target->0;
        let idx = spec_xy_idx(t.x as int, t.y as int);
        damage_all(s2, tc[idx], 0, s.w.names, player, e, s.w.names[item], dmg)
    } else {
        s2
    }
}

/// The use system's walk over the entities from `i` up to `n`, in identity
/// order, resolving each pending use intent whose holder is a
/// combat-capable actor; a user without stats is silently not processed.
pub open spec fn use_run_from(
    s: SysState,
    tc: Seq<Seq<Entity>>,
    player: int,
    i: int,
    n: int,
) -> SysState
    decreases n - i,
{
    if i >= n {
        s
    } else {
        let s2 = if s.w.wants_use.contains_key(i) && s.w.combat_stats.contains_key(i) {
            use_applied(s, tc, player, i, s.w.wants_use[i])
        } else {
            s
        };
        use_run_from(s2, tc, player, i + 1, n)
    }
}

/// What the use system demands of its inputs: a healing step must not
/// overflow the user's hp, and a damage item must come with a target point
/// that resolves inside the map; a missing target is an upstream invariant
/// violation and fatal by design, as is a missing display name on anything
/// the player's log line would mention.
pub open spec fn use_intents_ok(w: WorldView, tc: Seq<Seq<Entity>>, player: int) -> bool {
    forall|e: int|
        (#[trigger] w.wants_use.contains_key(e)) && w.combat_stats.contains_key(e) ==> {
            let u = w.wants_use[e];
            let item = u.item as int;
            &&& (w.healing.contains_key(item) ==> {
                let stats = w.combat_stats[e];
                &&& i32::MIN <= stats.hp + w.healing[item].heal_amount <= i32::MAX
                &&& (e == player ==> w.names.contains_key(item))
            })
            &&& (w.inflicts_damage.contains_key(item) ==> {
                let t = u.target->0;
                let idx = spec_xy_idx(t.x as int, t.y as int);
                &&& u.target is Some
                &&& 0 <= t.x
                &&& 0 <= t.y
                &&& idx < tc.len()
                &&& (forall|j: int|
                    0 <= j < tc[idx].len() ==> (#[trigger] tc[idx][j]) < usize::MAX)
                &&& (e == player ==> {
                    &&& w.names.contains_key(item)
                    &&& (forall|j: int|
                        0 <= j < tc[idx].len() ==> w.names.contains_key(
                            #[trigger] tc[idx][j] as int,
                        ))
                })
            })
        }
}

/// Dispatches consumption effects onto target entities and manages the
/// consumable lifecycle.
pub struct ItemUseSystem {}

impl ItemUseSystem {
    /// Resolve every pending use intent, walking the entities in identity
    /// order, then clear the whole intent store.
    pub fn run(world: &mut World, log: &mut GameLog, map: &GameMap, player_entity: Entity)
        requires
            use_intents_ok(old(world)@, map.tile_content.deep_view(), player_entity as int),
        ensures
            ({
                let end = use_run_from(
                    SysState { w: old(world)@, log: old(log)@ },
                    map.tile_content.deep_view(),
                    player_entity as int,
                    0,
                    old(world)@.alive.len() as int,
                );
                &&& final(world)@ == (WorldView {
                    wants_use: Map::<int, WantsToUseItem>::empty(),
                    ..end.w
                })
                &&& final(log)@ == end.log
            }),
    {
        let ghost init = SysState { w: old(world)@, log: old(log)@ };
        let ghost player = player_entity as int;
        let ghost tc = map.tile_content.deep_view();
        let n = world.entity_count();
        let mut e: usize = 0;
        while e < n
            invariant
                e <= n,
                n as int == old(world)@.alive.len(),
                world@.alive.len() == old(world)@.alive.len(),
                use_intents_ok(old(world)@, tc, player),
                player == player_entity as int,
                tc == map.tile_content.deep_view(),
                init == (SysState { w: old(world)@, log: old(log)@ }),
                world@.wants_use == old(world)@.wants_use,
                world@.names == old(world)@.names,
                world@.consumables == old(world)@.consumables,
                world@.healing == old(world)@.healing,
                world@.inflicts_damage == old(world)@.inflicts_damage,
                forall|k: int|
                    e as int <= k ==> #[trigger] world@.combat_stats.contains_key(k) == old(
                        world,
                    )@.combat_stats.contains_key(k),
                forall|k: int|
                    e as int <= k && world@.combat_stats.contains_key(k)
                        ==> #[trigger] world@.combat_stats[k] == old(world)@.combat_stats[k],
                use_run_from(SysState { w: world@, log: log@ }, tc, player, e as int, n as int)
                    == use_run_from(init, tc, player, 0, n as int),
            decreases n - e,
        {
            let ghost pre = SysState { w: world@, log: log@ };
            let u_opt = match world.wants_use.get(e) {
                Some(ur) => Some(*ur),
                None => None,
            };
            let has_stats = world.combat_stats.contains(e);
            match u_opt {
                Some(useitem) if has_stats => {
                    let ghost item = useitem.item as int;
                    // Consumable pre-check: mark a consumable item destroyed,
                    // exactly once, before any effect fires.
                    if world.consumables.contains(useitem.item) && world.is_alive(useitem.item) {
                        world.delete_entity(useitem.item);
                    }
                    let ghost s1 = SysState { w: world@, log: log@ };
                    proof {
                        assert(s1 =~= (if pre.w.consumables.contains_key(item) && spec_alive(
                            pre.w.alive,
                            item,
                        ) {
                            SysState {
                                w: WorldView { alive: pre.w.alive.update(item, false), ..pre.w },
                                log: pre.log,
                            }
                        } else {
                            pre
                        }));
                    }
                    // Healing effect: raise hp by the heal amount, clamped to
                    // max_hp.
                    let healer_opt = match world.healing.get(useitem.item) {
                        Some(h) => Some(*h),
                        None => None,
                    };
                    match healer_opt {
                        Some(healer) => {
                            let stats = match world.combat_stats.get(e) {
                                Some(st) => *st,
                                None => {
                                    proof {
                                        assert(false);
                                    }
                                    CombatStats { max_hp: 0, hp: 0, defense: 0, power: 0 }
                                },
                            };
                            let sum = stats.hp + healer.heal_amount;
                            let new_hp = if stats.max_hp < sum {
                                stats.max_hp
                            } else {
                                sum
                            };
                            world.combat_stats.insert(e, CombatStats { hp: new_hp, ..stats });
                            if e == player_entity {
                                match world.names.get(useitem.item) {
                                    Some(nm) => {
                                        proof {
                                            assert(pre.w.names[item] == nm.name@);
                                        }
                                        let msg = build_drink_message(
                                            nm.name.as_str(),
                                            healer.heal_amount,
                                        );
                                        log.push(msg);
                                    },
                                    None => {
                                        proof {
                                            assert(false);
                                        }
                                    },
                                }
                            }
                        },
                        None => (),
                    }
                    let ghost s2 = SysState { w: world@, log: log@ };
                    proof {
                        assert(s2 =~= (if pre.w.healing.contains_key(item) {
                            let heal = pre.w.healing[item].heal_amount;
                            let stats = pre.w.combat_stats[e as int];
                            let new_hp = vstd::math::min(
                                stats.max_hp as int,
                                stats.hp as int + heal as int,
                            );
                            let w = WorldView {
                                combat_stats: s1.w.combat_stats.insert(
                                    e as int,
                                    CombatStats { hp: new_hp as i32, ..stats },
                                ),
                                ..s1.w
                            };
                            let lg = if e as int == player {
                                s1.log.push(drink_message(pre.w.names[item], heal))
                            } else {
                                s1.log
                            };
                            SysState { w, log: lg }
                        } else {
                            s1
                        }));
                    }
                    // Damage effect: queue damage against every occupant of
                    // the resolved target tile, and no entity elsewhere.
                    let damage_opt = match world.inflicts_damage.get(useitem.item) {
                        Some(d) => Some(*d),
                        None => None,
                    };
                    match damage_opt {
                        Some(damage) => {
                            let target = match useitem.target {
                                Some(t) => t,
                                None => {
                                    proof {
                                        assert(false);
                                    }
                                    Point { x: 0, y: 0 }
                                },
                            };
                            let tc_len = map.tile_content.len();
                            proof {
                                assert(old(world)@.wants_use.contains_key(e as int));
                                assert(old(world)@.wants_use[e as int] == useitem);
                                assert(old(world)@.inflicts_damage.contains_key(item));
                                assert(spec_xy_idx(target.x as int, target.y as int) < tc.len());
                                assert(tc.len() == tc_len as int);
                            }
                            let idx = map.xy_idx(target.x, target.y);
                            let ghost dmg_start = SysState { w: world@, log: log@ };
                            let mobs = &map.tile_content[idx];
                            proof {
                                assert(mobs@ =~= tc[idx as int]);
                            }
                            let mut j: usize = 0;
                            while j < mobs.len()
                                invariant
                                    j <= mobs@.len(),
                                    player == player_entity as int,
                                    item == useitem.item as int,
                                    mobs@ == tc[idx as int],
                                    idx as int == spec_xy_idx(
                                        useitem.target->0.x as int,
                                        useitem.target->0.y as int,
                                    ),
                                    useitem.target is Some,
                                    use_intents_ok(old(world)@, tc, player),
                                    old(world)@.wants_use.contains_key(e as int),
                                    old(world)@.combat_stats.contains_key(e as int),
                                    old(world)@.wants_use[e as int] == useitem,
                                    old(world)@.inflicts_damage.contains_key(item),
                                    dmg_start.w.names == old(world)@.names,
                                    world@ == (WorldView {
                                        suffer_damage: world@.suffer_damage,
                                        ..dmg_start.w
                                    }),
                                    damage_all(
                                        SysState { w: world@, log: log@ },
                                        mobs@,
                                        j as int,
                                        dmg_start.w.names,
                                        player,
                                        e as int,
                                        dmg_start.w.names[item],
                                        damage.damage,
                                    ) == damage_all(
                                        dmg_start,
                                        mobs@,
                                        0,
                                        dmg_start.w.names,
                                        player,
                                        e as int,
                                        dmg_start.w.names[item],
                                        damage.damage,
                                    ),
                                decreases mobs@.len() - j,
                            {
                                let ghost dpre = SysState { w: world@, log: log@ };
                                let mob = mobs[j];
                                proof {
                                    assert(tc[idx as int][j as int] < usize::MAX);
                                }
                                SufferDamage::new_damage(
                                    &mut world.suffer_damage,
                                    mob,
                                    damage.damage,
                                );
                                if e == player_entity {
                                    let mob_nm = match world.names.get(mob) {
                                        Some(nm) => nm,
                                        None => {
                                            proof {
                                                assert(false);
                                            }
                                            world.names.get(mob).unwrap()
                                        },
                                    };
                                    let item_nm = match world.names.get(useitem.item) {
                                        Some(nm) => nm,
                                        None => {
                                            proof {
                                                assert(false);
                                            }
                                            world.names.get(useitem.item).unwrap()
                                        },
                                    };
                                    proof {
                                        assert(dmg_start.w.names[mob as int] == mob_nm.name@);
                                        assert(dmg_start.w.names[item] == item_nm.name@);
                                    }
                                    let msg = build_damage_message(
                                        item_nm.name.as_str(),
                                        mob_nm.name.as_str(),
                                        damage.damage,
                                    );
                                    log.push(msg);
                                }
                                proof {
                                    let cur = SysState { w: world@, log: log@ };
                                    assert(cur.w =~= (WorldView {
                                        suffer_damage: add_damage(
                                            dpre.w.suffer_damage,
                                            mob as int,
                                            damage.damage,
                                        ),
                                        ..dpre.w
                                    }));
                                    assert(damage_all(
                                        dpre,
                                        mobs@,
                                        j as int,
                                        dmg_start.w.names,
                                        player,
                                        e as int,
                                        dmg_start.w.names[item],
                                        damage.damage,
                                    ) == damage_all(
                                        cur,
                                        mobs@,
                                        j as int + 1,
                                        dmg_start.w.names,
                                        player,
                                        e as int,
                                        dmg_start.w.names[item],
                                        damage.damage,
                                    ));
                                }
                                j = j + 1;
                            }
                            proof {
                                let cur = SysState { w: world@, log: log@ };
                                assert(cur == use_applied(pre, tc, player, e as int, useitem));
                            }
                        },
                        None => {
                            proof {
                                let cur = SysState { w: world@, log: log@ };
                                assert(cur == use_applied(pre, tc, player, e as int, useitem));
                            }
                        },
                    }
                    proof {
                        let cur = SysState { w: world@, log: log@ };
                        assert(use_run_from(pre, tc, player, e as int, n as int) == use_run_from(
                            cur,
                            tc,
                            player,
                            e as int + 1,
                            n as int,
                        ));
                    }
                },
                _ => {
                    proof {
                        let cur = SysState { w: world@, log: log@ };
                        assert(use_run_from(pre, tc, player, e as int, n as int) == use_run_from(
                            cur,
                            tc,
                            player,
                            e as int + 1,
                            n as int,
                        ));
                    }
                },
            }
            e = e + 1;
        }
        world.wants_use.clear();
        proof {
            let end = use_run_from(init, tc, player, 0, n as int);
            assert(world@ =~= (WorldView {
                wants_use: Map::<int, WantsToUseItem>::empty(),
                ..end.w
            }));
        }
    }
}

/// One drop intent resolved: the item re-enters world-space at the
/// dropper's current feet, its backpack relation disappears, and the
/// player's drops are reported in the log.
pub open spec fn drop_applied(s: SysState, player: int, e: int, d: WantsToDropItem) -> SysState {
    let pos = s.w.positions[e];
    let w = WorldView {
        positions: s.w.positions.insert(d.item as int, pos),
        backpacks: s.w.backpacks.remove(d.item as int),
        ..s.w
    };
    let log = if e == player {
        s.log.push(drop_message(s.w.names[d.item as int]))
    } else {
        s.log
    };
    SysState { w, log }
}

/// The drop system's walk over the entities from `i` up to `n`, in
/// identity order, resolving each pending drop intent.
pub open spec fn drop_run_from(s: SysState, player: int, i: int, n: int) -> SysState
    decreases n - i,
{
    if i >= n {
        s
    } else {
        let s2 = if s.w.wants_drop.contains_key(i) {
            drop_applied(s, player, i, s.w.wants_drop[i])
        } else {
            s
        };
        drop_run_from(s2, player, i + 1, n)
    }
}

/// Every pending drop intent comes from a dropper that is somewhere in
/// world-space, names an item slot a store can hold, and the item carries a
/// display name whenever the dropper is the player.
pub open spec fn drop_intents_ok(w: WorldView, player: int) -> bool {
    forall|e: int| #[trigger] w.wants_drop.contains_key(e) ==> {
        let d = w.wants_drop[e];
        &&& d.item < usize::MAX
        &&& w.positions.contains_key(e)
        &&& (e == player ==> w.names.contains_key(d.item as int))
    }
}

/// Moves dropped items from their owner's inventory back into world-space.
pub struct ItemDropSystem {}

impl ItemDropSystem {
    /// Resolve every pending drop intent, walking the entities in identity
    /// order, then clear the whole intent store.
    pub fn run(world: &mut World, log: &mut GameLog, player_entity: Entity)
        requires
            drop_intents_ok(old(world)@, player_entity as int),
        ensures
            ({
                let end = drop_run_from(
                    SysState { w: old(world)@, log: old(log)@ },
                    player_entity as int,
                    0,
                    old(world)@.alive.len() as int,
                );
                &&& final(world)@ == (WorldView {
                    wants_drop: Map::<int, WantsToDropItem>::empty(),
                    ..end.w
                })
                &&& final(log)@ == end.log
            }),
    {
        let ghost init = SysState { w: old(world)@, log: old(log)@ };
        let ghost player = player_entity as int;
        let n = world.entity_count();
        let mut e: usize = 0;
        while e < n
            invariant
                e <= n,
                n as int == old(world)@.alive.len(),
                drop_intents_ok(old(world)@, player),
                player == player_entity as int,
                init == (SysState { w: old(world)@, log: old(log)@ }),
                world@.wants_drop == old(world)@.wants_drop,
                world@.names == old(world)@.names,
                forall|k: int|
                    old(world)@.positions.contains_key(k) ==> #[trigger] world@.positions.contains_key(
                        k,
                    ),
                drop_run_from(SysState { w: world@, log: log@ }, player, e as int, n as int)
                    == drop_run_from(init, player, 0, n as int),
            decreases n - e,
        {
            let ghost pre = SysState { w: world@, log: log@ };
            let d_opt = match world.wants_drop.get(e) {
                Some(dr) => Some(*dr),
                None => None,
            };
            match d_opt {
                Some(to_drop) => {
                    let dropper_pos = match world.positions.get(e) {
                        Some(p) => *p,
                        None => {
                            proof {
                                assert(false);
                            }
                            Position { x: 0, y: 0 }
                        },
                    };
                    world.positions.insert(to_drop.item, dropper_pos);
                    world.backpacks.remove(to_drop.item);
                    if e == player_entity {
                        match world.names.get(to_drop.item) {
                            Some(nm) => {
                                let msg = build_drop_message(nm.name.as_str());
                                proof {
                                    assert(pre.w.names[to_drop.item as int] == nm.name@);
                                }
                                log.push(msg);
                            },
                            None => {
                                proof {
                                    assert(false);
                                }
                            },
                        }
                    }
                    proof {
                        let cur = SysState { w: world@, log: log@ };
                        assert(cur =~= drop_applied(pre, player, e as int, to_drop));
                        assert(drop_run_from(pre, player, e as int, n as int) == drop_run_from(
                            cur,
                            player,
                            e as int + 1,
                            n as int,
                        ));
                    }
                },
                None => {
                    proof {
                        let cur = SysState { w: world@, log: log@ };
                        assert(drop_run_from(pre, player, e as int, n as int) == drop_run_from(
                            cur,
                            player,
                            e as int + 1,
                            n as int,
                        ));
                    }
                },
            }
            e = e + 1;
        }
        world.wants_drop.clear();
        proof {
            let end = drop_run_from(init, player, 0, n as int);
            assert(world@ =~= (WorldView {
                wants_drop: Map::<int, WantsToDropItem>::empty(),
                ..end.w
            }));
        }
    }
}

/// Law: picking an item up takes it out of world-space and records exactly
/// one backpack relation, owned by the claimed collector; dropping it
/// again is the exact inverse, putting the item at the dropper's current
/// location and erasing the relation.
pub proof fn lemma_drop_inverts_pickup(s: SysState, player: int, dropper: Entity, item: Entity)
    requires
        s.w.positions.contains_key(dropper as int),
        item != dropper,
    ensures
        ({
            let s1 = pickup_applied(
                s,
                player,
                WantsToPickupItem { collected_by: dropper, item },
            );
            let s2 = drop_applied(s1, player, dropper as int, WantsToDropItem { item });
            &&& !s1.w.positions.contains_key(item as int)
            &&& s1.w.backpacks[item as int] == (InBackpack { owner: dropper })
            &&& s1.w.backpacks.dom() == s.w.backpacks.dom().insert(item as int)
            &&& s2.w.positions == s.w.positions.insert(
                item as int,
                s.w.positions[dropper as int],
            )
            &&& s2.w.backpacks == s.w.backpacks.remove(item as int)
        }),
{
    let s1 = pickup_applied(s, player, WantsToPickupItem { collected_by: dropper, item });
    let s2 = drop_applied(s1, player, dropper as int, WantsToDropItem { item });
    assert(s1.w.backpacks.dom() =~= s.w.backpacks.dom().insert(item as int));
    assert(s2.w.positions =~= s.w.positions.insert(item as int, s.w.positions[dropper as int]));
    assert(s2.w.backpacks =~= s.w.backpacks.remove(item as int));
}

/// Law: using a healing item never raises the user's hp above max_hp, and
/// raises it by exactly the heal amount whenever that fits under max_hp.
pub proof fn lemma_heal_clamped(
    s: SysState,
    tc: Seq<Seq<Entity>>,
    player: int,
    e: int,
    u: WantsToUseItem,
)
    requires
        s.w.healing.contains_key(u.item as int),
        s.w.combat_stats.contains_key(e),
        i32::MIN <= s.w.combat_stats[e].hp + s.w.healing[u.item as int].heal_amount,
    ensures
        ({
            let stats0 = s.w.combat_stats[e];
            let heal = s.w.healing[u.item as int].heal_amount;
            let stats1 = use_applied(s, tc, player, e, u).w.combat_stats[e];
            &&& stats1.hp <= stats0.max_hp
            &&& (stats0.hp + heal <= stats0.max_hp ==> stats1.hp == stats0.hp + heal)
            &&& stats1.max_hp == stats0.max_hp
        }),
{
    let s2 = use_applied(s, tc, player, e, u);
    if s.w.inflicts_damage.contains_key(u.item as int) {
        let t = u.target->0;
        let idx = spec_xy_idx(t.x as int, t.y as int);
        lemma_damage_all_world_frame(
            pre_damage_state(s, tc, player, e, u),
            tc[idx],
            0,
            s.w.names,
            player,
            e,
            s.w.names[u.item as int],
            s.w.inflicts_damage[u.item as int].damage,
        );
    }
}

/// The state `use_applied` reaches just before its damage phase.
pub open spec fn pre_damage_state(
    s: SysState,
    tc: Seq<Seq<Entity>>,
    player: int,
    e: int,
    u: WantsToUseItem,
) -> SysState {
    let item = u.item as int;
    let s1 = if s.w.consumables.contains_key(item) && spec_alive(s.w.alive, item) {
        SysState { w: WorldView { alive: s.w.alive.update(item, false), ..s.w }, log: s.log }
    } else {
        s
    };
    if s.w.healing.contains_key(item) {
        let heal = s.w.healing[item].heal_amount;
        let stats = s.w.combat_stats[e];
        let new_hp = vstd::math::min(stats.max_hp as int, stats.hp as int + heal as int);
        let w = WorldView {
            combat_stats: s1.w.combat_stats.insert(e, CombatStats { hp: new_hp as i32, ..stats }),
            ..s1.w
        };
        let log = if e == player {
            s1.log.push(drink_message(s.w.names[item], heal))
        } else {
            s1.log
        };
        SysState { w, log }
    } else {
        s1
    }
}

/// Queuing damage against a tile's occupants touches nothing in the world
/// but the damage queues (and the log): liveness flags, stats, positions
/// and every other component map come through unchanged.
pub proof fn lemma_damage_all_world_frame(
    s: SysState,
    mobs: Seq<Entity>,
    i: int,
    names: Map<int, Seq<char>>,
    player: int,
    user: int,
    item_name: Seq<char>,
    dmg: i32,
)
    ensures
        ({
            let s2 = damage_all(s, mobs, i, names, player, user, item_name, dmg);
            s2.w == (WorldView { suffer_damage: s2.w.suffer_damage, ..s.w })
        }),
    decreases mobs.len() - i,
{
    if 0 <= i < mobs.len() {
        let mob = mobs[i] as int;
        let w = WorldView { suffer_damage: add_damage(s.w.suffer_damage, mob, dmg), ..s.w };
        let log = if user == player {
            s.log.push(damage_message(item_name, names[mob], dmg))
        } else {
            s.log
        };
        lemma_damage_all_world_frame(
            SysState { w, log },
            mobs,
            i + 1,
            names,
            player,
            user,
            item_name,
            dmg,
        );
    }
}

/// The pending damage queued against an entity, empty when none is.
pub open spec fn queue_of(m: Map<int, Seq<i32>>, k: int) -> Seq<i32> {
    if m.contains_key(k) {
        m[k]
    } else {
        Seq::empty()
    }
}

/// Law: damage lands on the tile's occupants and nowhere else. Every
/// entity's damage queue comes out of the walk as its old queue extended by
/// hits of exactly the item's damage, the queue grows exactly when the
/// entity occupies the tile, and an entity not on the tile keeps its queue
/// untouched.
pub proof fn lemma_damage_all_effect(
    s: SysState,
    mobs: Seq<Entity>,
    i: int,
    names: Map<int, Seq<char>>,
    player: int,
    user: int,
    item_name: Seq<char>,
    dmg: i32,
    m: int,
)
    requires
        0 <= i,
    ensures
        ({
            let s2 = damage_all(s, mobs, i, names, player, user, item_name, dmg);
            let old_q = queue_of(s.w.suffer_damage, m);
            let new_q = queue_of(s2.w.suffer_damage, m);
            &&& new_q.len() >= old_q.len()
            &&& new_q.take(old_q.len() as int) == old_q
            &&& (forall|k: int| old_q.len() <= k < new_q.len() ==> #[trigger] new_q[k] == dmg)
            &&& ((exists|j: int| i <= j < mobs.len() && (#[trigger] mobs[j]) as int == m)
                <==> new_q.len() > old_q.len())
            &&& ((forall|j: int| i <= j < mobs.len() ==> (#[trigger] mobs[j]) as int != m)
                ==> s2.w.suffer_damage.contains_key(m) == s.w.suffer_damage.contains_key(m)
                && new_q == old_q)
        }),
    decreases mobs.len() - i,
{
    if 0 <= i < mobs.len() {
        let mob = mobs[i] as int;
        let w = WorldView { suffer_damage: add_damage(s.w.suffer_damage, mob, dmg), ..s.w };
        let log = if user == player {
            s.log.push(damage_message(item_name, names[mob], dmg))
        } else {
            s.log
        };
        let sm = SysState { w, log };
        assert(damage_all(s, mobs, i, names, player, user, item_name, dmg) == damage_all(
            sm,
            mobs,
            i + 1,
            names,
            player,
            user,
            item_name,
            dmg,
        ));
        lemma_damage_all_effect(sm, mobs, i + 1, names, player, user, item_name, dmg, m);
        let s2 = damage_all(s, mobs, i, names, player, user, item_name, dmg);
        let old_q = queue_of(s.w.suffer_damage, m);
        let mid_q = queue_of(sm.w.suffer_damage, m);
        let new_q = queue_of(s2.w.suffer_damage, m);
        if mob == m {
            assert(sm.w.suffer_damage.contains_key(m));
            assert(mid_q =~= old_q.push(dmg));
            assert(new_q.take(mid_q.len() as int) == mid_q);
            assert(new_q.take(old_q.len() as int) =~= new_q.take(mid_q.len() as int).take(
                old_q.len() as int,
            ));
            assert(mid_q.take(old_q.len() as int) =~= old_q);
            assert(new_q.take(old_q.len() as int) == old_q);
            assert forall|k: int| old_q.len() <= k < new_q.len() implies #[trigger] new_q[k]
                == dmg by {
                if k < mid_q.len() {
                    assert(new_q.take(mid_q.len() as int)[k] == new_q[k]);
                    assert(mid_q[k] == dmg);
                } else {
                    assert(mid_q.len() <= k < new_q.len());
                }
            }
            assert(new_q.len() > old_q.len());
            assert(mobs[i] as int == m);
        } else {
            assert(mid_q == old_q);
            assert(sm.w.suffer_damage.contains_key(m) == s.w.suffer_damage.contains_key(m));
            if exists|j: int| i <= j < mobs.len() && (#[trigger] mobs[j]) as int == m {
                let j = choose|j: int| i <= j < mobs.len() && (#[trigger] mobs[j]) as int == m;
                assert(j != i);
                assert(i + 1 <= j < mobs.len() && mobs[j] as int == m);
            }
            if new_q.len() > old_q.len() {
                let j = choose|j: int|
                    i + 1 <= j < mobs.len() && (#[trigger] mobs[j]) as int == m;
                assert(i <= j < mobs.len() && mobs[j] as int == m);
            }
            if forall|j: int| i <= j < mobs.len() ==> (#[trigger] mobs[j]) as int != m {
                assert(forall|j: int|
                    i + 1 <= j < mobs.len() ==> (#[trigger] mobs[j]) as int != m);
            }
        }
    }
    let s2f = damage_all(s, mobs, i, names, player, user, item_name, dmg);
    let oq = queue_of(s.w.suffer_damage, m);
    let nq = queue_of(s2f.w.suffer_damage, m);
    assert(nq.len() >= oq.len());
    assert(nq.take(oq.len() as int) == oq);
    assert(forall|k: int| oq.len() <= k < nq.len() ==> #[trigger] nq[k] == dmg);
    assert((exists|j: int| i <= j < mobs.len() && (#[trigger] mobs[j]) as int == m) <==> nq.len()
        > oq.len());
    assert((forall|j: int| i <= j < mobs.len() ==> (#[trigger] mobs[j]) as int != m)
        ==> s2f.w.suffer_damage.contains_key(m) == s.w.suffer_damage.contains_key(m) && nq == oq);
}

/// Law: a consumable item is destroyed exactly once per use, before any
/// effect branch fires and however many of them fire: its liveness flag is
/// flipped by that single update and no effect branch touches liveness
/// again; an item that is not consumable is never destroyed by use.
pub proof fn lemma_consumable_destroyed_once(
    s: SysState,
    tc: Seq<Seq<Entity>>,
    player: int,
    e: int,
    u: WantsToUseItem,
)
    ensures
        ({
            let item = u.item as int;
            let s2 = use_applied(s, tc, player, e, u);
            &&& (s.w.consumables.contains_key(item) && spec_alive(s.w.alive, item) ==> s2.w.alive
                == s.w.alive.update(item, false))
            &&& (s.w.consumables.contains_key(item) && spec_alive(s.w.alive, item)
                ==> !spec_alive(s2.w.alive, item))
            &&& (!s.w.consumables.contains_key(item) ==> s2.w.alive == s.w.alive)
        }),
{
    let item = u.item as int;
    if s.w.inflicts_damage.contains_key(item) {
        let t = u.target->0;
        let idx = spec_xy_idx(t.x as int, t.y as int);
        lemma_damage_all_world_frame(
            pre_damage_state(s, tc, player, e, u),
            tc[idx],
            0,
            s.w.names,
            player,
            e,
            s.w.names[item],
            s.w.inflicts_damage[item].damage,
        );
    }
}

} // verus!
