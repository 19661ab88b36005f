use bracket_random::prelude::RandomNumberGenerator;
use dungeon_core::map::{GameMap, Rect, TileType, MAP_WIDTH};
use dungeon_core::spawner;
use dungeon_core::world::World;
use std::collections::HashSet;

fn floor_map() -> GameMap {
    let cells = MAP_WIDTH * 50;
    GameMap { tiles: vec![TileType::Floor; cells], tile_content: vec![Vec::new(); cells] }
}

#[test]
fn player_carries_its_full_bundle() {
    let mut world = World::new();
    let player = spawner::player(&mut world, 4, 6);
    let pos = world.positions.get(player).unwrap();
    assert_eq!((pos.x, pos.y), (4, 6));
    assert!(world.players.get(player).is_some());
    let stats = world.combat_stats.get(player).unwrap();
    assert_eq!((stats.max_hp, stats.hp, stats.defense, stats.power), (30, 30, 2, 5));
    assert_eq!(world.names.get(player).unwrap().name, "Player");
    assert!(world.viewsheds.get(player).is_some());
    assert!(world.serialize_tags.get(player).is_some());
    assert!(world.items.get(player).is_none());
}

#[test]
fn monsters_block_tiles_and_items_do_not() {
    let mut world = World::new();
    let goblin = world.entity_count();
    spawner::goblin(&mut world, 1, 1);
    let potion = world.entity_count();
    spawner::health_potion(&mut world, 2, 2);

    assert!(world.blocks_tile.get(goblin).is_some());
    assert!(world.monsters.get(goblin).is_some());
    assert_eq!(world.names.get(goblin).unwrap().name, "Goblin");
    let stats = world.combat_stats.get(goblin).unwrap();
    assert_eq!((stats.max_hp, stats.hp, stats.defense, stats.power), (16, 16, 1, 4));

    assert!(world.blocks_tile.get(potion).is_none(), "items never block movement");
    assert!(world.items.get(potion).is_some());
    assert!(world.consumables.get(potion).is_some());
    assert_eq!(world.healing.get(potion).unwrap().heal_amount, 8);
    assert_eq!(world.names.get(potion).unwrap().name, "Health Potion");
}

#[test]
fn scrolls_carry_their_payloads() {
    let mut world = World::new();
    let mm = world.entity_count();
    spawner::magic_missile_scroll(&mut world, 1, 1);
    let fb = world.entity_count();
    spawner::fireball_scroll(&mut world, 2, 2);
    let cf = world.entity_count();
    spawner::confusion_scroll(&mut world, 3, 3);

    assert_eq!(world.inflicts_damage.get(mm).unwrap().damage, 8);
    assert_eq!(world.ranged.get(mm).unwrap().range, 6);
    assert!(world.area_of_effect.get(mm).is_none());

    assert_eq!(world.inflicts_damage.get(fb).unwrap().damage, 20);
    assert_eq!(world.area_of_effect.get(fb).unwrap().radius, 3);
    assert_eq!(world.names.get(fb).unwrap().name, "Fireball Scroll");

    assert!(world.confusion.get(cf).unwrap().turns == 4);
    assert!(world.inflicts_damage.get(cf).is_none());
}

#[test]
fn equipment_carries_slots_and_bonuses() {
    let mut world = World::new();
    let dagger = world.entity_count();
    spawner::dagger(&mut world, 1, 1);
    let tower = world.entity_count();
    spawner::tower_shield(&mut world, 2, 2);

    assert_eq!(world.melee_bonus.get(dagger).unwrap().power, 2);
    assert!(world.equippable.get(dagger).is_some());
    assert_eq!(world.defense_bonus.get(tower).unwrap().defense, 3);
    assert_eq!(world.names.get(tower).unwrap().name, "Tower Shield");
}

#[test]
fn spawn_count_at_depth_one_is_roll_minus_three() {
    // At depth 1 the spawn count is roll(1,7) - 3: always within [-2, 4],
    // and a non-positive count, which spawns nothing, really occurs.
    let mut saw_nonpositive = false;
    let mut saw_positive = false;
    for seed in 0..100u64 {
        let mut rng = RandomNumberGenerator::seeded(seed);
        let n = spawner::roll_spawn_count(&mut rng, 1);
        assert!((-2..=4).contains(&n), "count {n} out of range");
        if n <= 0 {
            saw_nonpositive = true;
        } else {
            saw_positive = true;
        }
    }
    assert!(saw_nonpositive, "zero spawns must be a reachable outcome");
    assert!(saw_positive);
}

#[test]
fn spawn_count_follows_the_formula_exactly() {
    // Two generators from one seed draw the same dice: the spawn count
    // must be exactly roll(1, 7) + (depth - 1) - 3.
    for seed in 0..20u64 {
        let mut reference = RandomNumberGenerator::seeded(seed);
        let d = reference.roll_dice(1, 7);
        let mut rng = RandomNumberGenerator::seeded(seed);
        let n = spawner::roll_spawn_count(&mut rng, 3);
        assert_eq!(n, d + (3 - 1) - 3);
    }
}

#[test]
fn grid_indices_flatten_row_major() {
    let map = floor_map();
    assert_eq!(map.xy_idx(0, 0), 0);
    assert_eq!(map.xy_idx(5, 5), 5 * MAP_WIDTH + 5);
    assert_eq!(map.xy_idx(79, 2), 2 * MAP_WIDTH + 79);
}

#[test]
fn spawn_room_avoids_collisions_and_reserved_tiles() {
    let room = Rect { x1: 10, y1: 10, x2: 20, y2: 20 };
    for seed in 0..30u64 {
        let mut world = World::new();
        let mut map = floor_map();
        // Reserve a down-staircase inside the room.
        let stairs_idx = 15 * MAP_WIDTH + 15;
        map.tiles[stairs_idx] = TileType::DownStairs;
        let mut rng = RandomNumberGenerator::seeded(seed);
        spawner::spawn_room(&mut world, &room, 1, &map, &mut rng);

        let mut seen = HashSet::new();
        for e in 0..world.entity_count() {
            let pos = world.positions.get(e).expect("every spawned entity has a position");
            assert!(room.x1 < pos.x && pos.x <= room.x2, "x {} outside room", pos.x);
            assert!(room.y1 < pos.y && pos.y <= room.y2, "y {} outside room", pos.y);
            let idx = (pos.y as usize) * MAP_WIDTH + (pos.x as usize);
            assert_ne!(idx, stairs_idx, "spawned on the down-staircase");
            assert!(seen.insert(idx), "two spawns on one grid index");
        }
    }
}

#[test]
fn spawn_room_can_spawn_nothing_at_depth_one() {
    let room = Rect { x1: 10, y1: 10, x2: 20, y2: 20 };
    let mut saw_empty = false;
    for seed in 0..100u64 {
        let mut world = World::new();
        let map = floor_map();
        let mut rng = RandomNumberGenerator::seeded(seed);
        spawner::spawn_room(&mut world, &room, 1, &map, &mut rng);
        if world.entity_count() == 0 {
            saw_empty = true;
        }
    }
    assert!(saw_empty, "a non-positive spawn count must spawn nothing");
}

#[test]
fn deeper_levels_can_spawn_longswords() {
    // The longsword's weight is depth - 1: absent at depth 1, possible
    // deeper down.
    let room = Rect { x1: 2, y1: 2, x2: 40, y2: 40 };
    let mut saw_longsword_deep = false;
    for seed in 0..200u64 {
        let mut world = World::new();
        let map = floor_map();
        let mut rng = RandomNumberGenerator::seeded(seed);
        spawner::spawn_room(&mut world, &room, 1, &map, &mut rng);
        for e in 0..world.entity_count() {
            assert_ne!(
                world.names.get(e).unwrap().name,
                "Longsword",
                "zero-weight archetype at depth 1"
            );
        }
        let mut deep_world = World::new();
        let mut deep_rng = RandomNumberGenerator::seeded(seed);
        spawner::spawn_room(&mut deep_world, &room, 30, &map, &mut deep_rng);
        for e in 0..deep_world.entity_count() {
            if deep_world.names.get(e).unwrap().name == "Longsword" {
                saw_longsword_deep = true;
            }
        }
    }
    assert!(saw_longsword_deep, "longswords should appear at depth 30");
}
