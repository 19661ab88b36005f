use vstd::prelude::*;
use crate::components::{
    AreaOfEffect, BlocksTile, CombatStats, Confusion, Consumable, DefenseBonus, Entity, Equippable,
    InBackpack, InflictsDamage, Item, MeleePowerBonus, Monster, Name, Player, Point, Position,
    ProvidesHealing, Ranged, Renderable, SerializeTag, SufferDamage, Viewshed, WantsToDropItem,
    WantsToPickupItem, WantsToUseItem,
};
use crate::store::Store;

verus! {

/// The ghost image of a `Viewshed`: the component with its tile list as a
/// sequence.
pub struct ViewshedV {
    pub visible_tiles: Seq<Point>,
    pub range: i32,
    pub dirty: bool,
}

/// The ghost image of the whole world: one partial map per component kind,
/// keyed by entity, and the liveness flag of every entity created so far.
/// String- and vector-valued components appear through their views.
#[verifier::ext_equal]
pub struct WorldView {
    pub alive: Seq<bool>,
    pub positions: Map<int, Position>,
    pub renderables: Map<int, Renderable>,
    pub players: Map<int, Player>,
    pub monsters: Map<int, Monster>,
    pub viewsheds: Map<int, ViewshedV>,
    pub names: Map<int, Seq<char>>,
    pub combat_stats: Map<int, CombatStats>,
    pub blocks_tile: Map<int, BlocksTile>,
    pub items: Map<int, Item>,
    pub consumables: Map<int, Consumable>,
    pub ranged: Map<int, Ranged>,
    pub area_of_effect: Map<int, AreaOfEffect>,
    pub healing: Map<int, ProvidesHealing>,
    pub inflicts_damage: Map<int, InflictsDamage>,
    pub confusion: Map<int, Confusion>,
    pub equippable: Map<int, Equippable>,
    pub melee_bonus: Map<int, MeleePowerBonus>,
    pub defense_bonus: Map<int, DefenseBonus>,
    pub suffer_damage: Map<int, Seq<i32>>,
    pub serialize_tags: Map<int, SerializeTag>,
    pub backpacks: Map<int, InBackpack>,
    pub wants_pickup: Map<int, WantsToPickupItem>,
    pub wants_use: Map<int, WantsToUseItem>,
    pub wants_drop: Map<int, WantsToDropItem>,
}

/// Entity `e` has been created and not destroyed.
pub open spec fn spec_alive(alive: Seq<bool>, e: int) -> bool {
    0 <= e < alive.len() && alive[e]
}

/// A plain configuration listing the component bundle of one new entity;
/// absent optional fields leave the corresponding component off.
pub struct EntityConfig {
    pub position: Option<Position>,
    pub renderable: Option<Renderable>,
    pub player: bool,
    pub monster: bool,
    pub viewshed: Option<Viewshed>,
    pub name: Option<Name>,
    pub combat_stats: Option<CombatStats>,
    pub blocks_tile: bool,
    pub item: bool,
    pub consumable: bool,
    pub ranged: Option<Ranged>,
    pub area_of_effect: Option<AreaOfEffect>,
    pub healing: Option<ProvidesHealing>,
    pub inflicts_damage: Option<InflictsDamage>,
    pub confusion: Option<Confusion>,
    pub equippable: Option<Equippable>,
    pub melee_bonus: Option<MeleePowerBonus>,
    pub defense_bonus: Option<DefenseBonus>,
    pub serialize_me: bool,
}

/// The ghost image of an `EntityConfig`.
#[verifier::ext_equal]
pub struct EntityConfigV {
    pub position: Option<Position>,
    pub renderable: Option<Renderable>,
    pub player: bool,
    pub monster: bool,
    pub viewshed: Option<ViewshedV>,
    pub name: Option<Seq<char>>,
    pub combat_stats: Option<CombatStats>,
    pub blocks_tile: bool,
    pub item: bool,
    pub consumable: bool,
    pub ranged: Option<Ranged>,
    pub area_of_effect: Option<AreaOfEffect>,
    pub healing: Option<ProvidesHealing>,
    pub inflicts_damage: Option<InflictsDamage>,
    pub confusion: Option<Confusion>,
    pub equippable: Option<Equippable>,
    pub melee_bonus: Option<MeleePowerBonus>,
    pub defense_bonus: Option<DefenseBonus>,
    pub serialize_me: bool,
}

impl EntityConfig {
    /// A configuration with every component left off.
    pub fn empty() -> (c: EntityConfig)
        ensures
            c@ == EntityConfigV::empty(),
    {
        EntityConfig {
            position: None,
            renderable: None,
            player: false,
            monster: false,
            viewshed: None,
            name: None,
            combat_stats: None,
            blocks_tile: false,
            item: false,
            consumable: false,
            ranged: None,
            area_of_effect: None,
            healing: None,
            inflicts_damage: None,
            confusion: None,
            equippable: None,
            melee_bonus: None,
            defense_bonus: None,
            serialize_me: false,
        }
    }
}

impl EntityConfigV {
    /// The image of a configuration with every component left off.
    pub open spec fn empty() -> EntityConfigV {
        EntityConfigV {
            position: None,
            renderable: None,
            player: false,
            monster: false,
            viewshed: None,
            name: None,
            combat_stats: None,
            blocks_tile: false,
            item: false,
            consumable: false,
            ranged: None,
            area_of_effect: None,
            healing: None,
            inflicts_damage: None,
            confusion: None,
            equippable: None,
            melee_bonus: None,
            defense_bonus: None,
            serialize_me: false,
        }
    }
}

impl View for Viewshed {
    type V = ViewshedV;

    open spec fn view(&self) -> ViewshedV {
        ViewshedV { visible_tiles: self.visible_tiles@, range: self.range, dirty: self.dirty }
    }
}

impl View for EntityConfig {
    type V = EntityConfigV;

    open spec fn view(&self) -> EntityConfigV {
        EntityConfigV {
            position: self.position,
            renderable: self.renderable,
            player: self.player,
            monster: self.monster,
            viewshed: match self.viewshed {
                Some(v) => Some(v@),
                None => None,
            },
            name: match self.name {
                Some(n) => Some(n.name@),
                None => None,
            },
            combat_stats: self.combat_stats,
            blocks_tile: self.blocks_tile,
            item: self.item,
            consumable: self.consumable,
            ranged: self.ranged,
            area_of_effect: self.area_of_effect,
            healing: self.healing,
            inflicts_damage: self.inflicts_damage,
            confusion: self.confusion,
            equippable: self.equippable,
            melee_bonus: self.melee_bonus,
            defense_bonus: self.defense_bonus,
            serialize_me: self.serialize_me,
        }
    }
}

/// The world after creating one entity from the configuration: the new
/// entity is the next index, it is alive, and it carries exactly the
/// components the configuration lists.
pub open spec fn spawned(w: WorldView, c: EntityConfigV) -> WorldView {
    let e = w.alive.len() as int;
    WorldView {
        alive: w.alive.push(true),
        positions: if c.position is Some {
            w.positions.insert(e, c.position->0)
        } else {
            w.positions
        },
        renderables: if c.renderable is Some {
            w.renderables.insert(e, c.renderable->0)
        } else {
            w.renderables
        },
        players: if c.player {
            w.players.insert(e, Player {  })
        } else {
            w.players
        },
        monsters: if c.monster {
            w.monsters.insert(e, Monster {  })
        } else {
            w.monsters
        },
        viewsheds: if c.viewshed is Some {
            w.viewsheds.insert(e, c.viewshed->0)
        } else {
            w.viewsheds
        },
        names: if c.name is Some {
            w.names.insert(e, c.name->0)
        } else {
            w.names
        },
        combat_stats: if c.combat_stats is Some {
            w.combat_stats.insert(e, c.combat_stats->0)
        } else {
            w.combat_stats
        },
        blocks_tile: if c.blocks_tile {
            w.blocks_tile.insert(e, BlocksTile {  })
        } else {
            w.blocks_tile
        },
        items: if c.item {
            w.items.insert(e, Item {  })
        } else {
            w.items
        },
        consumables: if c.consumable {
            w.consumables.insert(e, Consumable {  })
        } else {
            w.consumables
        },
        ranged: if c.ranged is Some {
            w.ranged.insert(e, c.ranged->0)
        } else {
            w.ranged
        },
        area_of_effect: if c.area_of_effect is Some {
            w.area_of_effect.insert(e, c.area_of_effect->0)
        } else {
            w.area_of_effect
        },
        healing: if c.healing is Some {
            w.healing.insert(e, c.healing->0)
        } else {
            w.healing
        },
        inflicts_damage: if c.inflicts_damage is Some {
            w.inflicts_damage.insert(e, c.inflicts_damage->0)
        } else {
            w.inflicts_damage
        },
        confusion: if c.confusion is Some {
            w.confusion.insert(e, c.confusion->0)
        } else {
            w.confusion
        },
        equippable: if c.equippable is Some {
            w.equippable.insert(e, c.equippable->0)
        } else {
            w.equippable
        },
        melee_bonus: if c.melee_bonus is Some {
            w.melee_bonus.insert(e, c.melee_bonus->0)
        } else {
            w.melee_bonus
        },
        defense_bonus: if c.defense_bonus is Some {
            w.defense_bonus.insert(e, c.defense_bonus->0)
        } else {
            w.defense_bonus
        },
        suffer_damage: w.suffer_damage,
        serialize_tags: if c.serialize_me {
            w.serialize_tags.insert(e, SerializeTag {  })
        } else {
            w.serialize_tags
        },
        backpacks: w.backpacks,
        wants_pickup: w.wants_pickup,
        wants_use: w.wants_use,
        wants_drop: w.wants_drop,
    }
}

/// The component storages of the world, one per component kind, plus one
/// liveness flag per created entity.
pub struct World {
    pub alive: Vec<bool>,
    pub positions: Store<Position>,
    pub renderables: Store<Renderable>,
    pub players: Store<Player>,
    pub monsters: Store<Monster>,
    pub viewsheds: Store<Viewshed>,
    pub names: Store<Name>,
    pub combat_stats: Store<CombatStats>,
    pub blocks_tile: Store<BlocksTile>,
    pub items: Store<Item>,
    pub consumables: Store<Consumable>,
    pub ranged: Store<Ranged>,
    pub area_of_effect: Store<AreaOfEffect>,
    pub healing: Store<ProvidesHealing>,
    pub inflicts_damage: Store<InflictsDamage>,
    pub confusion: Store<Confusion>,
    pub equippable: Store<Equippable>,
    pub melee_bonus: Store<MeleePowerBonus>,
    pub defense_bonus: Store<DefenseBonus>,
    pub suffer_damage: Store<SufferDamage>,
    pub serialize_tags: Store<SerializeTag>,
    pub backpacks: Store<InBackpack>,
    pub wants_pickup: Store<WantsToPickupItem>,
    pub wants_use: Store<WantsToUseItem>,
    pub wants_drop: Store<WantsToDropItem>,
}

/// The viewshed storage seen through the components' views.
pub open spec fn viewsheds_view(m: Map<int, Viewshed>) -> Map<int, ViewshedV> {
    m.map_values(|v: Viewshed| v@)
}

/// The name storage seen as the display strings it holds.
pub open spec fn names_view(m: Map<int, Name>) -> Map<int, Seq<char>> {
    m.map_values(|n: Name| n.name@)
}

/// The damage-queue storage seen as the pending hit lists it holds.
pub open spec fn damage_view(m: Map<int, SufferDamage>) -> Map<int, Seq<i32>> {
    m.map_values(|s: SufferDamage| s.amount@)
}

impl View for World {
    type V = WorldView;

    open spec fn view(&self) -> WorldView {
        WorldView {
            alive: self.alive@,
            positions: self.positions@,
            renderables: self.renderables@,
            players: self.players@,
            monsters: self.monsters@,
            viewsheds: viewsheds_view(self.viewsheds@),
            names: names_view(self.names@),
            combat_stats: self.combat_stats@,
            blocks_tile: self.blocks_tile@,
            items: self.items@,
            consumables: self.consumables@,
            ranged: self.ranged@,
            area_of_effect: self.area_of_effect@,
            healing: self.healing@,
            inflicts_damage: self.inflicts_damage@,
            confusion: self.confusion@,
            equippable: self.equippable@,
            melee_bonus: self.melee_bonus@,
            defense_bonus: self.defense_bonus@,
            suffer_damage: damage_view(self.suffer_damage@),
            serialize_tags: self.serialize_tags@,
            backpacks: self.backpacks@,
            wants_pickup: self.wants_pickup@,
            wants_use: self.wants_use@,
            wants_drop: self.wants_drop@,
        }
    }
}

impl WorldView {
    /// The image of a world with no entities.
    pub open spec fn empty() -> WorldView {
        WorldView {
            alive: Seq::empty(),
            positions: Map::empty(),
            renderables: Map::empty(),
            players: Map::empty(),
            monsters: Map::empty(),
            viewsheds: Map::empty(),
            names: Map::empty(),
            combat_stats: Map::empty(),
            blocks_tile: Map::empty(),
            items: Map::empty(),
            consumables: Map::empty(),
            ranged: Map::empty(),
            area_of_effect: Map::empty(),
            healing: Map::empty(),
            inflicts_damage: Map::empty(),
            confusion: Map::empty(),
            equippable: Map::empty(),
            melee_bonus: Map::empty(),
            defense_bonus: Map::empty(),
            suffer_damage: Map::empty(),
            serialize_tags: Map::empty(),
            backpacks: Map::empty(),
            wants_pickup: Map::empty(),
            wants_use: Map::empty(),
            wants_drop: Map::empty(),
        }
    }
}

impl World {
    /// A world with no entities.
    pub fn new() -> (w: World)
        ensures
            w@ == WorldView::empty(),
    {
        let w = World {
            alive: Vec::new(),
            positions: Store::new(),
            renderables: Store::new(),
            players: Store::new(),
            monsters: Store::new(),
            viewsheds: Store::new(),
            names: Store::new(),
            combat_stats: Store::new(),
            blocks_tile: Store::new(),
            items: Store::new(),
            consumables: Store::new(),
            ranged: Store::new(),
            area_of_effect: Store::new(),
            healing: Store::new(),
            inflicts_damage: Store::new(),
            confusion: Store::new(),
            equippable: Store::new(),
            melee_bonus: Store::new(),
            defense_bonus: Store::new(),
            suffer_damage: Store::new(),
            serialize_tags: Store::new(),
            backpacks: Store::new(),
            wants_pickup: Store::new(),
            wants_use: Store::new(),
            wants_drop: Store::new(),
        };
        proof {
            assert(w@ =~= WorldView::empty());
        }
        w
    }

    /// How many entities have ever been created.
    pub fn entity_count(&self) -> (n: usize)
        ensures
            n as int == self@.alive.len(),
    {
        self.alive.len()
    }

    /// Is the entity alive: created and not yet destroyed?
    pub fn is_alive(&self, e: Entity) -> (r: bool)
        ensures
            r == spec_alive(self@.alive, e as int),
    {
        e < self.alive.len() && self.alive[e]
    }

    /// Create one entity carrying exactly the components the configuration
    /// lists; returns its identity.
    #[verifier::rlimit(100)]
    pub fn spawn(&mut self, config: EntityConfig) -> (e: Entity)
        requires
            old(self)@.alive.len() < usize::MAX,
        ensures
            e as int == old(self)@.alive.len(),
            final(self)@ == spawned(old(self)@, config@),
    {
        let e = self.alive.len();
        self.alive.push(true);
        self.positions.insert_opt(e, config.position);
        self.renderables.insert_opt(e, config.renderable);
        self.players.insert_if(e, config.player, Player {  });
        self.monsters.insert_if(e, config.monster, Monster {  });
        self.viewsheds.insert_opt(e, config.viewshed);
        self.names.insert_opt(e, config.name);
        self.combat_stats.insert_opt(e, config.combat_stats);
        self.blocks_tile.insert_if(e, config.blocks_tile, BlocksTile {  });
        self.items.insert_if(e, config.item, Item {  });
        self.consumables.insert_if(e, config.consumable, Consumable {  });
        self.ranged.insert_opt(e, config.ranged);
        self.area_of_effect.insert_opt(e, config.area_of_effect);
        self.healing.insert_opt(e, config.healing);
        self.inflicts_damage.insert_opt(e, config.inflicts_damage);
        self.confusion.insert_opt(e, config.confusion);
        self.equippable.insert_opt(e, config.equippable);
        self.melee_bonus.insert_opt(e, config.melee_bonus);
        self.defense_bonus.insert_opt(e, config.defense_bonus);
        self.serialize_tags.insert_if(e, config.serialize_me, SerializeTag {  });
        proof {
            let target = spawned(old(self)@, config@);
            assert(self@.alive =~= target.alive);
            assert(self@.positions =~= target.positions);
            assert(self@.renderables =~= target.renderables);
            assert(self@.players =~= target.players);
            assert(self@.monsters =~= target.monsters);
            assert(self@.viewsheds =~= target.viewsheds);
            assert(self@.names =~= target.names);
            assert(self@.combat_stats =~= target.combat_stats);
            assert(self@.blocks_tile =~= target.blocks_tile);
            assert(self@.items =~= target.items);
            assert(self@.consumables =~= target.consumables);
            assert(self@.ranged =~= target.ranged);
            assert(self@.area_of_effect =~= target.area_of_effect);
            assert(self@.healing =~= target.healing);
            assert(self@.inflicts_damage =~= target.inflicts_damage);
            assert(self@.confusion =~= target.confusion);
            assert(self@.equippable =~= target.equippable);
            assert(self@.melee_bonus =~= target.melee_bonus);
            assert(self@.defense_bonus =~= target.defense_bonus);
            assert(self@.suffer_damage =~= target.suffer_damage);
            assert(self@.serialize_tags =~= target.serialize_tags);
            assert(self@.backpacks =~= target.backpacks);
            assert(self@.wants_pickup =~= target.wants_pickup);
            assert(self@.wants_use =~= target.wants_use);
            assert(self@.wants_drop =~= target.wants_drop);
            assert(self@ =~= target);
        }
        e
    }

    /// Destroy a live entity. Its components are cleaned up by a later
    /// maintenance pass, outside this core; destruction here only clears
    /// the liveness flag, and a destroyed entity cannot be destroyed again.
    pub fn delete_entity(&mut self, e: Entity)
        requires
            spec_alive(old(self)@.alive, e as int),
        ensures
            final(self)@ == (WorldView {
                alive: old(self)@.alive.update(e as int, false),
                ..old(self)@
            }),
    {
        self.alive[e] = false;
        proof {
            assert(self@ =~= WorldView {
                alive: old(self)@.alive.update(e as int, false),
                ..old(self)@
            });
        }
    }
}

/// The view of a damage queue after adding one hit: appended to the
/// victim's pending damage, or a fresh one-entry queue if none is pending.
pub open spec fn add_damage(m: Map<int, Seq<i32>>, victim: int, amount: i32) -> Map<
    int,
    Seq<i32>,
> {
    if m.contains_key(victim) {
        m.insert(victim, m[victim].push(amount))
    } else {
        m.insert(victim, seq![amount])
    }
}

impl SufferDamage {
    /// Queue one hit against the victim, appending to any damage already
    /// pending against it this turn.
    pub fn new_damage(store: &mut Store<SufferDamage>, victim: Entity, amount: i32)
        requires
            victim < usize::MAX,
        ensures
            (damage_view(final(store)@) == add_damage(
                damage_view(old(store)@),
                victim as int,
                amount,
            )),
    {
        let existing = store.take(victim);
        match existing {
            Some(suffering) => {
                let mut updated = suffering;
                updated.amount.push(amount);
                store.insert(victim, updated);
                proof {
                    assert(store@ == old(store)@.remove(victim as int).insert(
                        victim as int,
                        updated,
                    ));
                    assert(updated.amount@ == damage_view(old(store)@)[victim as int].push(amount));
                    assert forall|k: int|
                        damage_view(store@).contains_key(k) == add_damage(
                            damage_view(old(store)@),
                            victim as int,
                            amount,
                        ).contains_key(k) by {}
                    assert(damage_view(store@) =~= add_damage(
                        damage_view(old(store)@),
                        victim as int,
                        amount,
                    ));
                }
            },
            None => {
                let fresh = SufferDamage { amount: vec![amount] };
                store.insert(victim, fresh);
                proof {
                    assert(fresh.amount@ =~= seq![amount]);
                    assert(damage_view(store@) =~= add_damage(
                        damage_view(old(store)@),
                        victim as int,
                        amount,
                    ));
                }
            },
        }
    }
}

} // verus!
