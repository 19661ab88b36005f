use vstd::prelude::*;
use bracket_random::prelude::RandomNumberGenerator;
use vstd::arithmetic::div_mod::lemma_fundamental_div_mod_converse;
use crate::components::{
    AreaOfEffect, ColorName, CombatStats, Confusion, DefenseBonus, Entity, EquipmentSlot,
    Equippable, InflictsDamage, MeleePowerBonus, Name, Position, ProvidesHealing, Ranged,
    Renderable, Viewshed,
};
use crate::map::{spec_xy_idx, GameMap, Rect, TileType, MAP_WIDTH};
use crate::random_table::{
    nonneg_weights, spec_selected, sum_weights, RandomEntry, RandomTable,
};
use crate::rng::roll_dice;
use crate::world::{spawned, EntityConfig, EntityConfigV, ViewshedV, World, WorldView};

verus! {

/// Cap on the dice roll for a room's spawn count.
pub const MAX_MONSTERS: i32 = 4;

/// The deepest dungeon level the depth-scaled spawn weights can be built
/// for without overflowing the table's total weight.
pub const MAX_SPAWN_DEPTH: i32 = 429496723;

/// The spawnable entity archetypes of the catalog.
#[derive(Clone, Copy, PartialEq, Eq, Structural, Debug)]
pub enum SpawnKind {
    Goblin,
    Orc,
    HealthPotion,
    FireballScroll,
    ConfusionScroll,
    MagicMissileScroll,
    Dagger,
    Shield,
    Longsword,
    TowerShield,
}

/// The component bundle of the player actor.
pub open spec fn player_config(x: i32, y: i32) -> EntityConfigV {
    EntityConfigV {
        position: Some(Position { x, y }),
        renderable: Some(
            Renderable { glyph: 25, fg: ColorName::Yellow, bg: ColorName::Black, render_order: 0 },
        ),
        player: true,
        viewshed: Some(ViewshedV { visible_tiles: Seq::empty(), range: 8, dirty: true }),
        name: Some("Player"@),
        combat_stats: Some(CombatStats { max_hp: 30, hp: 30, defense: 2, power: 5 }),
        serialize_me: true,
        ..EntityConfigV::empty()
    }
}

/// The component bundle shared by all hostile actors.
pub open spec fn monster_config(x: i32, y: i32, glyph: u16, fg: ColorName, name: Seq<
    char,
>) -> EntityConfigV {
    EntityConfigV {
        position: Some(Position { x, y }),
        renderable: Some(Renderable { glyph, fg, bg: ColorName::Black, render_order: 1 }),
        monster: true,
        viewshed: Some(ViewshedV { visible_tiles: Seq::empty(), range: 8, dirty: true }),
        name: Some(name),
        blocks_tile: true,
        combat_stats: Some(CombatStats { max_hp: 16, hp: 16, defense: 1, power: 4 }),
        serialize_me: true,
        ..EntityConfigV::empty()
    }
}

/// The component bundle of a health potion item.
pub open spec fn health_potion_config(x: i32, y: i32) -> EntityConfigV {
    EntityConfigV {
        position: Some(Position { x, y }),
        renderable: Some(
            Renderable { glyph: 669, fg: ColorName::Magenta, bg: ColorName::Black, render_order: 2 },
        ),
        name: Some("Health Potion"@),
        item: true,
        consumable: true,
        healing: Some(ProvidesHealing { heal_amount: 8 }),
        serialize_me: true,
        ..EntityConfigV::empty()
    }
}

/// The component bundle shared by all scrolls, before any effect payload.
pub open spec fn base_scroll_config(x: i32, y: i32, name: Seq<char>, fg: ColorName) -> EntityConfigV {
    EntityConfigV {
        position: Some(Position { x, y }),
        renderable: Some(Renderable { glyph: 768, fg, bg: ColorName::Black, render_order: 2 }),
        name: Some(name),
        item: true,
        consumable: true,
        ranged: Some(Ranged { range: 6 }),
        serialize_me: true,
        ..EntityConfigV::empty()
    }
}

/// A magic missile scroll: a base scroll with a damage payload.
pub open spec fn magic_missile_scroll_config(x: i32, y: i32) -> EntityConfigV {
    EntityConfigV {
        inflicts_damage: Some(InflictsDamage { damage: 8 }),
        ..base_scroll_config(x, y, "Magic Missile Scroll"@, ColorName::Cyan)
    }
}

/// A fireball scroll: a base scroll with a damage payload and an area.
pub open spec fn fireball_scroll_config(x: i32, y: i32) -> EntityConfigV {
    EntityConfigV {
        inflicts_damage: Some(InflictsDamage { damage: 20 }),
        area_of_effect: Some(AreaOfEffect { radius: 3 }),
        ..base_scroll_config(x, y, "Fireball Scroll"@, ColorName::Orange)
    }
}

/// A confusion scroll: a base scroll with a confusion payload.
pub open spec fn confusion_scroll_config(x: i32, y: i32) -> EntityConfigV {
    EntityConfigV {
        confusion: Some(Confusion { turns: 4 }),
        ..base_scroll_config(x, y, "Confusion Scroll"@, ColorName::Pink)
    }
}

/// The component bundle of an equippable item.
pub open spec fn equippable_config(
    x: i32,
    y: i32,
    glyph: u16,
    fg: ColorName,
    name: Seq<char>,
    slot: EquipmentSlot,
) -> EntityConfigV {
    EntityConfigV {
        position: Some(Position { x, y }),
        renderable: Some(Renderable { glyph, fg, bg: ColorName::Black, render_order: 2 }),
        name: Some(name),
        item: true,
        equippable: Some(Equippable { slot }),
        serialize_me: true,
        ..EntityConfigV::empty()
    }
}

/// A dagger: a melee weapon with a small power bonus.
pub open spec fn dagger_config(x: i32, y: i32) -> EntityConfigV {
    EntityConfigV {
        melee_bonus: Some(MeleePowerBonus { power: 2 }),
        ..equippable_config(x, y, 330, ColorName::Cyan, "Dagger"@, EquipmentSlot::Melee)
    }
}

/// A shield with a small defense bonus.
pub open spec fn shield_config(x: i32, y: i32) -> EntityConfigV {
    EntityConfigV {
        defense_bonus: Some(DefenseBonus { defense: 2 }),
        ..equippable_config(x, y, 138, ColorName::Cyan, "Shield"@, EquipmentSlot::Shield)
    }
}

/// A longsword: a melee weapon with a larger power bonus.
pub open spec fn longsword_config(x: i32, y: i32) -> EntityConfigV {
    EntityConfigV {
        melee_bonus: Some(MeleePowerBonus { power: 4 }),
        ..equippable_config(x, y, 378, ColorName::Yellow, "Longsword"@, EquipmentSlot::Melee)
    }
}

/// A tower shield with a larger defense bonus.
pub open spec fn tower_shield_config(x: i32, y: i32) -> EntityConfigV {
    EntityConfigV {
        defense_bonus: Some(DefenseBonus { defense: 3 }),
        ..equippable_config(x, y, 187, ColorName::Yellow, "Tower Shield"@, EquipmentSlot::Shield)
    }
}

/// Create the player actor at the given coordinate.
pub fn player(world: &mut World, player_x: i32, player_y: i32) -> (e: Entity)
    requires
        old(world)@.alive.len() < usize::MAX,
    ensures
        e as int == old(world)@.alive.len(),
        final(world)@ == spawned(old(world)@, player_config(player_x, player_y)),
{
    let mut config = EntityConfig::empty();
    config.position = Some(Position { x: player_x, y: player_y });
    config.renderable = Some(
        Renderable { glyph: 25, fg: ColorName::Yellow, bg: ColorName::Black, render_order: 0 },
    );
    config.player = true;
    config.viewshed = Some(Viewshed { visible_tiles: Vec::new(), range: 8, dirty: true });
    config.name = Some(Name { name: "Player".to_owned() });
    config.combat_stats = Some(CombatStats { max_hp: 30, hp: 30, defense: 2, power: 5 });
    config.serialize_me = true;
    proof {
        assert(config@ =~= player_config(player_x, player_y));
    }
    world.spawn(config)
}

/// Create one hostile actor with the shared monster bundle.
fn monster(world: &mut World, x: i32, y: i32, glyph: u16, fg: ColorName, name: &str)
    requires
        old(world)@.alive.len() < usize::MAX,
    ensures
        final(world)@ == spawned(old(world)@, monster_config(x, y, glyph, fg, name@)),
{
    let mut config = EntityConfig::empty();
    config.position = Some(Position { x, y });
    config.renderable = Some(Renderable { glyph, fg, bg: ColorName::Black, render_order: 1 });
    config.monster = true;
    config.viewshed = Some(Viewshed { visible_tiles: Vec::new(), range: 8, dirty: true });
    config.name = Some(Name { name: name.to_owned() });
    config.blocks_tile = true;
    config.combat_stats = Some(CombatStats { max_hp: 16, hp: 16, defense: 1, power: 4 });
    config.serialize_me = true;
    proof {
        assert(config@ =~= monster_config(x, y, glyph, fg, name@));
    }
    world.spawn(config);
}

/// Create an orc.
pub fn orc(world: &mut World, x: i32, y: i32)
    requires
        old(world)@.alive.len() < usize::MAX,
    ensures
        final(world)@ == spawned(
            old(world)@,
            monster_config(x, y, 127, ColorName::Green, "Orc"@),
        ),
{
    monster(world, x, y, 127, ColorName::Green, "Orc");
}

/// Create a goblin.
pub fn goblin(world: &mut World, x: i32, y: i32)
    requires
        old(world)@.alive.len() < usize::MAX,
    ensures
        final(world)@ == spawned(
            old(world)@,
            monster_config(x, y, 123, ColorName::Green, "Goblin"@),
        ),
{
    monster(world, x, y, 123, ColorName::Green, "Goblin");
}

/// Create a health potion item.
pub fn health_potion(world: &mut World, x: i32, y: i32)
    requires
        old(world)@.alive.len() < usize::MAX,
    ensures
        final(world)@ == spawned(old(world)@, health_potion_config(x, y)),
{
    let mut config = EntityConfig::empty();
    config.position = Some(Position { x, y });
    config.renderable = Some(
        Renderable { glyph: 669, fg: ColorName::Magenta, bg: ColorName::Black, render_order: 2 },
    );
    config.name = Some(Name { name: "Health Potion".to_owned() });
    config.item = true;
    config.consumable = true;
    config.healing = Some(ProvidesHealing { heal_amount: 8 });
    config.serialize_me = true;
    proof {
        assert(config@ =~= health_potion_config(x, y));
    }
    world.spawn(config);
}

/// The bundle shared by all scrolls; effect payloads are added by the
/// specific scroll before the entity is created.
fn create_base_scroll(x: i32, y: i32, name: &str, fg: ColorName) -> (c: EntityConfig)
    ensures
        c@ == base_scroll_config(x, y, name@, fg),
{
    let mut config = EntityConfig::empty();
    config.position = Some(Position { x, y });
    config.renderable = Some(Renderable { glyph: 768, fg, bg: ColorName::Black, render_order: 2 });
    config.name = Some(Name { name: name.to_owned() });
    config.item = true;
    config.consumable = true;
    config.ranged = Some(Ranged { range: 6 });
    config.serialize_me = true;
    proof {
        assert(config@ =~= base_scroll_config(x, y, name@, fg));
    }
    config
}

/// Create a magic missile scroll.
pub fn magic_missile_scroll(world: &mut World, x: i32, y: i32)
    requires
        old(world)@.alive.len() < usize::MAX,
    ensures
        final(world)@ == spawned(old(world)@, magic_missile_scroll_config(x, y)),
{
    let mut config = create_base_scroll(x, y, "Magic Missile Scroll", ColorName::Cyan);
    config.inflicts_damage = Some(InflictsDamage { damage: 8 });
    proof {
        assert(config@ =~= magic_missile_scroll_config(x, y));
    }
    world.spawn(config);
}

/// Create a fireball scroll.
pub fn fireball_scroll(world: &mut World, x: i32, y: i32)
    requires
        old(world)@.alive.len() < usize::MAX,
    ensures
        final(world)@ == spawned(old(world)@, fireball_scroll_config(x, y)),
{
    let mut config = create_base_scroll(x, y, "Fireball Scroll", ColorName::Orange);
    config.inflicts_damage = Some(InflictsDamage { damage: 20 });
    config.area_of_effect = Some(AreaOfEffect { radius: 3 });
    proof {
        assert(config@ =~= fireball_scroll_config(x, y));
    }
    world.spawn(config);
}

/// Create a confusion scroll.
pub fn confusion_scroll(world: &mut World, x: i32, y: i32)
    requires
        old(world)@.alive.len() < usize::MAX,
    ensures
        final(world)@ == spawned(old(world)@, confusion_scroll_config(x, y)),
{
    let mut config = create_base_scroll(x, y, "Confusion Scroll", ColorName::Pink);
    config.confusion = Some(Confusion { turns: 4 });
    proof {
        assert(config@ =~= confusion_scroll_config(x, y));
    }
    world.spawn(config);
}

/// Create a dagger.
pub fn dagger(world: &mut World, x: i32, y: i32)
    requires
        old(world)@.alive.len() < usize::MAX,
    ensures
        final(world)@ == spawned(old(world)@, dagger_config(x, y)),
{
    let mut config = EntityConfig::empty();
    config.position = Some(Position { x, y });
    config.renderable = Some(
        Renderable { glyph: 330, fg: ColorName::Cyan, bg: ColorName::Black, render_order: 2 },
    );
    config.name = Some(Name { name: "Dagger".to_owned() });
    config.item = true;
    config.equippable = Some(Equippable { slot: EquipmentSlot::Melee });
    config.melee_bonus = Some(MeleePowerBonus { power: 2 });
    config.serialize_me = true;
    proof {
        assert(config@ =~= dagger_config(x, y));
    }
    world.spawn(config);
}

/// Create a shield.
pub fn shield(world: &mut World, x: i32, y: i32)
    requires
        old(world)@.alive.len() < usize::MAX,
    ensures
        final(world)@ == spawned(old(world)@, shield_config(x, y)),
{
    let mut config = EntityConfig::empty();
    config.position = Some(Position { x, y });
    config.renderable = Some(
        Renderable { glyph: 138, fg: ColorName::Cyan, bg: ColorName::Black, render_order: 2 },
    );
    config.name = Some(Name { name: "Shield".to_owned() });
    config.item = true;
    config.equippable = Some(Equippable { slot: EquipmentSlot::Shield });
    config.defense_bonus = Some(DefenseBonus { defense: 2 });
    config.serialize_me = true;
    proof {
        assert(config@ =~= shield_config(x, y));
    }
    world.spawn(config);
}

/// Create a longsword.
pub fn longsword(world: &mut World, x: i32, y: i32)
    requires
        old(world)@.alive.len() < usize::MAX,
    ensures
        final(world)@ == spawned(old(world)@, longsword_config(x, y)),
{
    let mut config = EntityConfig::empty();
    config.position = Some(Position { x, y });
    config.renderable = Some(
        Renderable { glyph: 378, fg: ColorName::Yellow, bg: ColorName::Black, render_order: 2 },
    );
    config.name = Some(Name { name: "Longsword".to_owned() });
    config.item = true;
    config.equippable = Some(Equippable { slot: EquipmentSlot::Melee });
    config.melee_bonus = Some(MeleePowerBonus { power: 4 });
    config.serialize_me = true;
    proof {
        assert(config@ =~= longsword_config(x, y));
    }
    world.spawn(config);
}

/// Create a tower shield.
pub fn tower_shield(world: &mut World, x: i32, y: i32)
    requires
        old(world)@.alive.len() < usize::MAX,
    ensures
        final(world)@ == spawned(old(world)@, tower_shield_config(x, y)),
{
    let mut config = EntityConfig::empty();
    config.position = Some(Position { x, y });
    config.renderable = Some(
        Renderable { glyph: 187, fg: ColorName::Yellow, bg: ColorName::Black, render_order: 2 },
    );
    config.name = Some(Name { name: "Tower Shield".to_owned() });
    config.item = true;
    config.equippable = Some(Equippable { slot: EquipmentSlot::Shield });
    config.defense_bonus = Some(DefenseBonus { defense: 3 });
    config.serialize_me = true;
    proof {
        assert(config@ =~= tower_shield_config(x, y));
    }
    world.spawn(config);
}

/// The component bundle an archetype tag stands for at a coordinate.
pub open spec fn spawn_kind_config(kind: SpawnKind, x: i32, y: i32) -> EntityConfigV {
    match kind {
        SpawnKind::Goblin => monster_config(x, y, 123, ColorName::Green, "Goblin"@),
        SpawnKind::Orc => monster_config(x, y, 127, ColorName::Green, "Orc"@),
        SpawnKind::HealthPotion => health_potion_config(x, y),
        SpawnKind::FireballScroll => fireball_scroll_config(x, y),
        SpawnKind::ConfusionScroll => confusion_scroll_config(x, y),
        SpawnKind::MagicMissileScroll => magic_missile_scroll_config(x, y),
        SpawnKind::Dagger => dagger_config(x, y),
        SpawnKind::Shield => shield_config(x, y),
        SpawnKind::Longsword => longsword_config(x, y),
        SpawnKind::TowerShield => tower_shield_config(x, y),
    }
}

/// Law: every archetype's bundle is tagged for persistence tracking, and
/// no item archetype ever blocks movement: blocking is actor-only.
pub proof fn lemma_archetype_bundles_wf(kind: SpawnKind, x: i32, y: i32)
    ensures
        spawn_kind_config(kind, x, y).serialize_me,
        spawn_kind_config(kind, x, y).item ==> !spawn_kind_config(kind, x, y).blocks_tile,
{
}

/// Create the entity an archetype tag stands for, dispatching to its
/// factory.
pub fn spawn_named(world: &mut World, kind: SpawnKind, x: i32, y: i32)
    requires
        old(world)@.alive.len() < usize::MAX,
    ensures
        final(world)@ == spawned(old(world)@, spawn_kind_config(kind, x, y)),
{
    match kind {
        SpawnKind::Goblin => goblin(world, x, y),
        SpawnKind::Orc => orc(world, x, y),
        SpawnKind::HealthPotion => health_potion(world, x, y),
        SpawnKind::FireballScroll => fireball_scroll(world, x, y),
        SpawnKind::ConfusionScroll => confusion_scroll(world, x, y),
        SpawnKind::MagicMissileScroll => magic_missile_scroll(world, x, y),
        SpawnKind::Dagger => dagger(world, x, y),
        SpawnKind::Shield => shield(world, x, y),
        SpawnKind::Longsword => longsword(world, x, y),
        SpawnKind::TowerShield => tower_shield(world, x, y),
    }
}

/// The entries of the depth-scaled spawn catalog, in insertion order.
/// Depth-scaled weights can reach zero at shallow depths; such an entry
/// still contributes to the total weight and can never be selected.
pub open spec fn room_table_entries(map_depth: int) -> Seq<RandomEntry<SpawnKind>> {
    seq![
        RandomEntry { value: SpawnKind::Goblin, weight: 10i32 },
        RandomEntry { value: SpawnKind::Orc, weight: (1 + map_depth) as i32 },
        RandomEntry { value: SpawnKind::HealthPotion, weight: 7i32 },
        RandomEntry { value: SpawnKind::FireballScroll, weight: (2 + map_depth) as i32 },
        RandomEntry { value: SpawnKind::ConfusionScroll, weight: (2 + map_depth) as i32 },
        RandomEntry { value: SpawnKind::MagicMissileScroll, weight: 4i32 },
        RandomEntry { value: SpawnKind::Dagger, weight: 3i32 },
        RandomEntry { value: SpawnKind::Shield, weight: 3i32 },
        RandomEntry { value: SpawnKind::Longsword, weight: (map_depth - 1) as i32 },
        RandomEntry { value: SpawnKind::TowerShield, weight: (map_depth - 1) as i32 },
    ]
}

/// Build the spawn catalog for a dungeon depth.
pub fn room_table(map_depth: i32) -> (t: RandomTable<SpawnKind>)
    requires
        1 <= map_depth <= MAX_SPAWN_DEPTH,
    ensures
        t.spec_entries() == room_table_entries(map_depth as int),
        t.wf(),
        nonneg_weights(t.spec_entries()),
        t.spec_total() == 30 + 5 * map_depth,
{
    let t = RandomTable::<SpawnKind>::new()
        .add(SpawnKind::Goblin, 10)
        .add(SpawnKind::Orc, 1 + map_depth)
        .add(SpawnKind::HealthPotion, 7)
        .add(SpawnKind::FireballScroll, 2 + map_depth)
        .add(SpawnKind::ConfusionScroll, 2 + map_depth)
        .add(SpawnKind::MagicMissileScroll, 4)
        .add(SpawnKind::Dagger, 3)
        .add(SpawnKind::Shield, 3)
        .add(SpawnKind::Longsword, map_depth - 1)
        .add(SpawnKind::TowerShield, map_depth - 1);
    proof {
        assert(t.spec_entries() =~= room_table_entries(map_depth as int));
    }
    t
}

/// The spawn count a die roll of `d` yields at a depth: the roll, shifted
/// up by the depth past the first level and down by 3.
pub open spec fn spawn_count_formula(d: int, map_depth: int) -> int {
    d + (map_depth - 1) - 3
}

/// Roll the number of spawn attempts for one room: a die of
/// `MAX_MONSTERS + 3` sides, shifted down by 3 and up by the depth past the
/// first level. At depth 1 the count is the roll minus 3, which can be zero
/// or negative: a non-positive count spawns nothing.
pub fn roll_spawn_count(rng: &mut RandomNumberGenerator, map_depth: i32) -> (n: i32)
    requires
        1 <= map_depth <= MAX_SPAWN_DEPTH,
    ensures
        exists|d: int|
            1 <= d <= MAX_MONSTERS + 3 && n as int == #[trigger] spawn_count_formula(
                d,
                map_depth as int,
            ),
        n <= map_depth + 3,
{
    let r = roll_dice(rng, 1, MAX_MONSTERS + 3);
    let n = r + (map_depth - 1) - 3;
    proof {
        assert(1 <= r as int <= MAX_MONSTERS + 3 && n as int == spawn_count_formula(
            r as int,
            map_depth as int,
        ));
    }
    n
}

/// One reserved spawn point is acceptable: its grid index lies strictly
/// inside the room, is not a down-staircase tile, and its archetype, or the
/// absence of one, is what the catalog's walk selects for some roll.
pub open spec fn spawn_point_ok(
    p: (usize, Option<SpawnKind>),
    room: Rect,
    tiles: Seq<TileType>,
    entries: Seq<RandomEntry<SpawnKind>>,
) -> bool {
    let idx = p.0 as int;
    let w = MAP_WIDTH as int;
    &&& idx < tiles.len()
    &&& tiles[idx] != TileType::DownStairs
    &&& room.x1 < idx % w
    &&& idx % w <= room.x2
    &&& room.y1 < idx / w
    &&& idx / w <= room.y2
    &&& (exists|d: int|
        0 <= d < sum_weights(entries) && p.1 == #[trigger] spec_selected(entries, d))
}

/// A whole reservation plan is acceptable: no grid index is reserved
/// twice, and every reserved point is acceptable on its own.
pub open spec fn spawn_plan_ok(
    plan: Seq<(usize, Option<SpawnKind>)>,
    room: Rect,
    tiles: Seq<TileType>,
    entries: Seq<RandomEntry<SpawnKind>>,
) -> bool {
    &&& (forall|a: int, b: int|
        0 <= a < b < plan.len() ==> (#[trigger] plan[a]).0 != (#[trigger] plan[b]).0)
    &&& (forall|k: int| 0 <= k < plan.len() ==> spawn_point_ok(#[trigger] plan[k], room, tiles, entries))
}

/// The world after materializing the plan from entry `i` on: every entry
/// whose archetype is present becomes one entity at the entry's
/// coordinate, and an archetype-less entry spawns nothing.
pub open spec fn materialized(
    w: WorldView,
    plan: Seq<(usize, Option<SpawnKind>)>,
    i: int,
) -> WorldView
    decreases plan.len() - i,
{
    if i < 0 || i >= plan.len() {
        w
    } else {
        let idx = plan[i].0 as int;
        let wid = MAP_WIDTH as int;
        let w2 = match plan[i].1 {
            Some(kind) => spawned(
                w,
                spawn_kind_config(kind, (idx % wid) as i32, (idx / wid) as i32),
            ),
            None => w,
        };
        materialized(w2, plan, i + 1)
    }
}

/// Has a spawn already been reserved at this grid index?
fn plan_contains(plan: &Vec<(usize, Option<SpawnKind>)>, idx: usize) -> (r: bool)
    ensures
        r == exists|k: int| 0 <= k < plan@.len() && (#[trigger] plan@[k]).0 == idx,
{
    let mut i: usize = 0;
    let mut found = false;
    while i < plan.len()
        invariant
            i <= plan@.len(),
            found == exists|k: int| 0 <= k < i as int && (#[trigger] plan@[k]).0 == idx,
        decreases plan@.len() - i,
    {
        if plan[i].0 == idx {
            found = true;
        }
        i = i + 1;
    }
    found
}

/// Populate one room: roll a spawn count, reserve up to that many distinct
/// acceptable points, retrying each at most 20 times, and then create one
/// entity for every reserved point whose catalog roll selected an
/// archetype. The world afterwards is the old world with exactly some
/// acceptable plan materialized, and the plan never reserves the same
/// index twice nor a down-staircase tile.
pub fn spawn_room(
    world: &mut World,
    room: &Rect,
    map_depth: i32,
    map: &GameMap,
    rng: &mut RandomNumberGenerator,
)
    requires
        1 <= map_depth <= MAX_SPAWN_DEPTH,
        map.wf(),
        0 <= room.x1,
        room.x1 < room.x2,
        (room.x2 as int) < MAP_WIDTH as int,
        0 <= room.y1,
        room.y1 < room.y2,
        room.y2 < i32::MAX,
        spec_xy_idx(room.x2 as int, room.y2 as int) < map.tiles@.len(),
        old(world)@.alive.len() + map_depth as int + 3 <= usize::MAX,
    ensures
        exists|plan: Seq<(usize, Option<SpawnKind>)>|
            {
                &&& spawn_plan_ok(plan, *room, map.tiles@, room_table_entries(map_depth as int))
                &&& plan.len() <= map_depth as int + 3
                &&& final(world)@ == #[trigger] materialized(old(world)@, plan, 0)
            },
{
    let spawn_table = room_table(map_depth);
    let mut spawn_points: Vec<(usize, Option<SpawnKind>)> = Vec::new();
    let tiles_len = map.tiles.len();
    let num_spawns = roll_spawn_count(rng, map_depth);
    let mut s: i32 = 0;
    while s < num_spawns
        invariant
            1 <= map_depth <= MAX_SPAWN_DEPTH,
            map.wf(),
            0 <= room.x1,
            room.x1 < room.x2,
            (room.x2 as int) < MAP_WIDTH as int,
            0 <= room.y1,
            room.y1 < room.y2,
            room.y2 < i32::MAX,
            spec_xy_idx(room.x2 as int, room.y2 as int) < map.tiles@.len(),
            tiles_len as int == map.tiles@.len(),
            spawn_table.wf(),
            nonneg_weights(spawn_table.spec_entries()),
            spawn_table.spec_entries() == room_table_entries(map_depth as int),
            spawn_table.spec_total() == 30 + 5 * map_depth,
            num_spawns <= map_depth + 3,
            0 <= s,
            s <= num_spawns || s == 0,
            spawn_points@.len() <= s,
            spawn_plan_ok(
                spawn_points@,
                *room,
                map.tiles@,
                room_table_entries(map_depth as int),
            ),
            world@ == old(world)@,
        decreases num_spawns - s,
    {
        let mut tries: i32 = 0;
        let mut placed = false;
        let ghost len0 = spawn_points@.len();
        while tries < 20 && !placed
            invariant
                1 <= map_depth <= MAX_SPAWN_DEPTH,
                map.wf(),
                0 <= room.x1,
                room.x1 < room.x2,
                (room.x2 as int) < MAP_WIDTH as int,
                0 <= room.y1,
                room.y1 < room.y2,
                room.y2 < i32::MAX,
                spec_xy_idx(room.x2 as int, room.y2 as int) < map.tiles@.len(),
                tiles_len as int == map.tiles@.len(),
                spawn_table.wf(),
                nonneg_weights(spawn_table.spec_entries()),
                spawn_table.spec_entries() == room_table_entries(map_depth as int),
                spawn_table.spec_total() == 30 + 5 * map_depth,
                0 <= tries <= 20,
                spawn_points@.len() == len0 + (if placed {
                    1int
                } else {
                    0int
                }),
                spawn_plan_ok(
                    spawn_points@,
                    *room,
                    map.tiles@,
                    room_table_entries(map_depth as int),
                ),
                world@ == old(world)@,
            decreases 20 - tries, (if placed {
                0int
            } else {
                1int
            }),
        {
            let x = room.x1 + roll_dice(rng, 1, room.x2 - room.x1);
            let y = room.y1 + roll_dice(rng, 1, room.y2 - room.y1);
            let idx = map.xy_idx(x, y);
            if plan_contains(&spawn_points, idx) {
                // A spawn is already reserved at this location: try again.
                tries = tries + 1;
            } else if map.tiles[idx] == TileType::DownStairs {
                // Never spawn on a down-staircase tile.
                tries = tries + 1;
            } else {
                let rolled = spawn_table.roll(rng);
                proof {
                    lemma_fundamental_div_mod_converse(
                        idx as int,
                        MAP_WIDTH as int,
                        y as int,
                        x as int,
                    );
                    assert(spawn_point_ok(
                        (idx, rolled),
                        *room,
                        map.tiles@,
                        room_table_entries(map_depth as int),
                    ));
                }
                spawn_points.push((idx, rolled));
                placed = true;
            }
        }
        s = s + 1;
    }
    let ghost plan = spawn_points@;
    proof {
        assert(plan.len() <= map_depth as int + 3);
    }
    let mut i: usize = 0;
    while i < spawn_points.len()
        invariant
            i <= spawn_points@.len(),
            spawn_points@ == plan,
            spawn_plan_ok(plan, *room, map.tiles@, room_table_entries(map_depth as int)),
            plan.len() <= map_depth as int + 3,
            old(world)@.alive.len() + map_depth as int + 3 <= usize::MAX,
            world@.alive.len() <= old(world)@.alive.len() + i,
            materialized(world@, plan, i as int) == materialized(old(world)@, plan, 0),
        decreases plan.len() - i,
    {
        let ghost wpre = world@;
        let (idx, kind_opt) = spawn_points[i];
        match kind_opt {
            Some(kind) => {
                proof {
                    assert(spawn_point_ok(
                        plan[i as int],
                        *room,
                        map.tiles@,
                        room_table_entries(map_depth as int),
                    ));
                }
                let x = (idx % MAP_WIDTH) as i32;
                let y = (idx / MAP_WIDTH) as i32;
                spawn_named(world, kind, x, y);
                proof {
                    assert(x as int == idx as int % (MAP_WIDTH as int));
                    assert(y as int == idx as int / (MAP_WIDTH as int));
                    assert(materialized(wpre, plan, i as int) == materialized(
                        world@,
                        plan,
                        i as int + 1,
                    ));
                }
            },
            None => {
                proof {
                    assert(materialized(wpre, plan, i as int) == materialized(
                        world@,
                        plan,
                        i as int + 1,
                    ));
                }
            },
        }
        i = i + 1;
    }
    proof {
        assert(spawn_plan_ok(plan, *room, map.tiles@, room_table_entries(map_depth as int))
            && plan.len() <= map_depth as int + 3 && world@ == materialized(
            old(world)@,
            plan,
            0,
        ));
    }
}

} // verus!
