use dungeon_core::components::{CombatStats, Point, WantsToDropItem, WantsToPickupItem, WantsToUseItem};
use dungeon_core::gamelog::GameLog;
use dungeon_core::inventory_system::{ItemCollectionSystem, ItemDropSystem, ItemUseSystem};
use dungeon_core::map::{GameMap, TileType, MAP_WIDTH};
use dungeon_core::spawner;
use dungeon_core::world::World;

fn empty_map() -> GameMap {
    let cells = MAP_WIDTH * 50;
    GameMap { tiles: vec![TileType::Floor; cells], tile_content: vec![Vec::new(); cells] }
}

#[test]
fn pickup_moves_item_into_backpack() {
    let mut world = World::new();
    let mut log = GameLog::new();
    let player = spawner::player(&mut world, 5, 5);
    let potion = world.entity_count();
    spawner::health_potion(&mut world, 7, 8);

    world.wants_pickup.insert(player, WantsToPickupItem { collected_by: player, item: potion });
    ItemCollectionSystem::run(&mut world, &mut log, player);

    assert!(world.positions.get(potion).is_none());
    let pack = world.backpacks.get(potion).expect("backpack relation missing");
    assert_eq!(pack.owner, player);
    assert!(world.wants_pickup.get(player).is_none());
    assert_eq!(log.entries.last().unwrap(), "You pick up the Health Potion.");
}

#[test]
fn pickup_by_non_player_is_silent() {
    let mut world = World::new();
    let mut log = GameLog::new();
    let player = spawner::player(&mut world, 5, 5);
    let goblin = world.entity_count();
    spawner::goblin(&mut world, 9, 9);
    let potion = world.entity_count();
    spawner::health_potion(&mut world, 7, 8);

    world.wants_pickup.insert(goblin, WantsToPickupItem { collected_by: goblin, item: potion });
    ItemCollectionSystem::run(&mut world, &mut log, player);

    assert!(world.positions.get(potion).is_none());
    assert_eq!(world.backpacks.get(potion).unwrap().owner, goblin);
    assert!(log.entries.is_empty());
}

#[test]
fn drop_restores_position_at_dropper_feet() {
    let mut world = World::new();
    let mut log = GameLog::new();
    let player = spawner::player(&mut world, 3, 4);
    let dagger = world.entity_count();
    spawner::dagger(&mut world, 1, 1);

    world.wants_pickup.insert(player, WantsToPickupItem { collected_by: player, item: dagger });
    ItemCollectionSystem::run(&mut world, &mut log, player);
    assert!(world.positions.get(dagger).is_none());
    assert!(world.backpacks.get(dagger).is_some());

    world.wants_drop.insert(player, WantsToDropItem { item: dagger });
    ItemDropSystem::run(&mut world, &mut log, player);

    let pos = world.positions.get(dagger).expect("dropped item must be somewhere");
    assert_eq!((pos.x, pos.y), (3, 4));
    assert!(world.backpacks.get(dagger).is_none());
    assert!(world.wants_drop.get(player).is_none());
    assert_eq!(log.entries.last().unwrap(), "You drop the Dagger.");
}

#[test]
fn healing_potion_heals_and_is_destroyed() {
    let mut world = World::new();
    let mut log = GameLog::new();
    let map = empty_map();
    let player = spawner::player(&mut world, 5, 5);
    world.combat_stats.insert(player, CombatStats { max_hp: 30, hp: 20, defense: 2, power: 5 });
    let potion = world.entity_count();
    spawner::health_potion(&mut world, 7, 8);

    world.wants_use.insert(player, WantsToUseItem { item: potion, target: None });
    ItemUseSystem::run(&mut world, &mut log, &map, player);

    let stats = world.combat_stats.get(player).unwrap();
    assert_eq!(stats.hp, 28);
    assert!(!world.is_alive(potion), "a used consumable no longer exists");
    assert!(world.wants_use.get(player).is_none());
    assert_eq!(log.entries.last().unwrap(), "You drink the Health Potion, healing 8 hp.");
}

#[test]
fn healing_clamps_at_max_hp() {
    let mut world = World::new();
    let mut log = GameLog::new();
    let map = empty_map();
    let player = spawner::player(&mut world, 5, 5);
    world.combat_stats.insert(player, CombatStats { max_hp: 30, hp: 27, defense: 2, power: 5 });
    let potion = world.entity_count();
    spawner::health_potion(&mut world, 7, 8);

    world.wants_use.insert(player, WantsToUseItem { item: potion, target: None });
    ItemUseSystem::run(&mut world, &mut log, &map, player);

    assert_eq!(world.combat_stats.get(player).unwrap().hp, 30);
}

#[test]
fn damage_scroll_hits_every_occupant_and_no_one_else() {
    let mut world = World::new();
    let mut log = GameLog::new();
    let mut map = empty_map();
    let player = spawner::player(&mut world, 5, 5);
    let orc = world.entity_count();
    spawner::orc(&mut world, 10, 10);
    let goblin = world.entity_count();
    spawner::goblin(&mut world, 10, 10);
    let bystander = world.entity_count();
    spawner::orc(&mut world, 20, 20);
    let scroll = world.entity_count();
    spawner::magic_missile_scroll(&mut world, 5, 5);

    let idx = 10 * MAP_WIDTH + 10;
    map.tile_content[idx] = vec![orc, goblin];
    let bystander_idx = 20 * MAP_WIDTH + 20;
    map.tile_content[bystander_idx] = vec![bystander];

    world.wants_use.insert(
        player,
        WantsToUseItem { item: scroll, target: Some(Point { x: 10, y: 10 }) },
    );
    ItemUseSystem::run(&mut world, &mut log, &map, player);

    assert_eq!(world.suffer_damage.get(orc).unwrap().amount, vec![8]);
    assert_eq!(world.suffer_damage.get(goblin).unwrap().amount, vec![8]);
    assert!(world.suffer_damage.get(bystander).is_none());
    assert!(world.suffer_damage.get(player).is_none());
    assert_eq!(
        log.entries.last().unwrap(),
        "You use Magic Missile Scroll on Goblin, inflicting 8 damage."
    );
    assert_eq!(
        log.entries[log.entries.len() - 2],
        "You use Magic Missile Scroll on Orc, inflicting 8 damage."
    );
}

#[test]
fn consumable_is_destroyed_exactly_once_with_multiple_effects() {
    // An item carrying both a healing and a damage payload fires both
    // branches and is still destroyed exactly once.
    let mut world = World::new();
    let mut log = GameLog::new();
    let mut map = empty_map();
    let player = spawner::player(&mut world, 5, 5);
    world.combat_stats.insert(player, CombatStats { max_hp: 30, hp: 10, defense: 2, power: 5 });
    let orc = world.entity_count();
    spawner::orc(&mut world, 10, 10);
    let scroll = world.entity_count();
    spawner::fireball_scroll(&mut world, 5, 5);
    world.healing.insert(
        scroll,
        dungeon_core::components::ProvidesHealing { heal_amount: 4 },
    );

    let idx = 10 * MAP_WIDTH + 10;
    map.tile_content[idx] = vec![orc];

    world.wants_use.insert(
        player,
        WantsToUseItem { item: scroll, target: Some(Point { x: 10, y: 10 }) },
    );
    assert!(world.is_alive(scroll));
    ItemUseSystem::run(&mut world, &mut log, &map, player);

    assert!(!world.is_alive(scroll));
    assert_eq!(world.combat_stats.get(player).unwrap().hp, 14);
    assert_eq!(world.suffer_damage.get(orc).unwrap().amount, vec![20]);
}

#[test]
fn non_consumable_item_survives_use() {
    let mut world = World::new();
    let mut log = GameLog::new();
    let map = empty_map();
    let player = spawner::player(&mut world, 5, 5);
    let dagger = world.entity_count();
    spawner::dagger(&mut world, 5, 5);

    world.wants_use.insert(player, WantsToUseItem { item: dagger, target: None });
    ItemUseSystem::run(&mut world, &mut log, &map, player);

    assert!(world.is_alive(dagger));
}

#[test]
fn user_without_combat_stats_is_not_processed() {
    let mut world = World::new();
    let mut log = GameLog::new();
    let map = empty_map();
    let player = spawner::player(&mut world, 5, 5);
    let potion = world.entity_count();
    spawner::health_potion(&mut world, 7, 8);
    // The potion itself holds a use intent, but it has no CombatStats, so
    // the join silently skips it; the intent is still cleared.
    world.wants_use.insert(potion, WantsToUseItem { item: potion, target: None });
    ItemUseSystem::run(&mut world, &mut log, &map, player);

    assert!(world.is_alive(potion));
    assert!(world.wants_use.get(potion).is_none());
    assert!(log.entries.is_empty());
}
