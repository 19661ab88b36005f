use vstd::prelude::*;

verus! {

/// An entity is an opaque identity: all of its state lives in components
/// attached to it through the world's stores.
pub type Entity = usize;

/// An integer grid coordinate in world-space.
#[derive(Clone, Copy, PartialEq, Eq, Structural, Debug)]
pub struct Position {
    pub x: i32,
    pub y: i32,
}

/// A point on the map, used for targeting.
#[derive(Clone, Copy, PartialEq, Eq, Structural, Debug)]
pub struct Point {
    pub x: i32,
    pub y: i32,
}

/// A symbolic colour, resolved to concrete channel values by the renderer.
#[derive(Clone, Copy, PartialEq, Eq, Structural, Debug)]
pub enum ColorName {
    Yellow,
    Black,
    Green,
    Magenta,
    Cyan,
    Orange,
    Pink,
}

/// How an entity is drawn: a glyph, foreground and background colours, and
/// a drawing layer (lower orders are drawn first).
#[derive(Clone, Copy, PartialEq, Eq, Structural, Debug)]
pub struct Renderable {
    pub glyph: u16,
    pub fg: ColorName,
    pub bg: ColorName,
    pub render_order: i32,
}

/// Marks the distinguished player entity.
#[derive(Clone, Copy, PartialEq, Eq, Structural, Debug)]
pub struct Player {}

/// Marks a hostile actor.
#[derive(Clone, Copy, PartialEq, Eq, Structural, Debug)]
pub struct Monster {}

/// What an actor can currently see.
#[derive(Clone, Debug)]
pub struct Viewshed {
    pub visible_tiles: Vec<Point>,
    pub range: i32,
    pub dirty: bool,
}

/// A display name; every item archetype carries one.
#[derive(Clone, Debug)]
pub struct Name {
    pub name: String,
}

/// Mutable vital stats of a combat-capable actor.
#[derive(Clone, Copy, PartialEq, Eq, Structural, Debug)]
pub struct CombatStats {
    pub max_hp: i32,
    pub hp: i32,
    pub defense: i32,
    pub power: i32,
}

/// Marks an actor that blocks movement through its tile.
#[derive(Clone, Copy, PartialEq, Eq, Structural, Debug)]
pub struct BlocksTile {}

/// Marks an entity as a pickupable item.
#[derive(Clone, Copy, PartialEq, Eq, Structural, Debug)]
pub struct Item {}

/// Marks an item as destroyed after a successful use.
#[derive(Clone, Copy, PartialEq, Eq, Structural, Debug)]
pub struct Consumable {}

/// An item that needs a target point within the given range.
#[derive(Clone, Copy, PartialEq, Eq, Structural, Debug)]
pub struct Ranged {
    pub range: i32,
}

/// An item whose effect covers all occupants within the given radius.
#[derive(Clone, Copy, PartialEq, Eq, Structural, Debug)]
pub struct AreaOfEffect {
    pub radius: i32,
}

/// Effect payload: using the item heals its user.
#[derive(Clone, Copy, PartialEq, Eq, Structural, Debug)]
pub struct ProvidesHealing {
    pub heal_amount: i32,
}

/// Effect payload: using the item damages the occupants of the target tile.
#[derive(Clone, Copy, PartialEq, Eq, Structural, Debug)]
pub struct InflictsDamage {
    pub damage: i32,
}

/// Effect payload: the victim is confused for the given number of turns.
#[derive(Clone, Copy, PartialEq, Eq, Structural, Debug)]
pub struct Confusion {
    pub turns: i32,
}

/// The slot an equippable item occupies.
#[derive(Clone, Copy, PartialEq, Eq, Structural, Debug)]
pub enum EquipmentSlot {
    Melee,
    Shield,
}

/// Marks an item that can be equipped, and where.
#[derive(Clone, Copy, PartialEq, Eq, Structural, Debug)]
pub struct Equippable {
    pub slot: EquipmentSlot,
}

/// Bonus to attack power while equipped.
#[derive(Clone, Copy, PartialEq, Eq, Structural, Debug)]
pub struct MeleePowerBonus {
    pub power: i32,
}

/// Bonus to defense while equipped.
#[derive(Clone, Copy, PartialEq, Eq, Structural, Debug)]
pub struct DefenseBonus {
    pub defense: i32,
}

/// Damage queued against an entity, one entry per pending hit; the
/// damage-resolution stage (outside this core) drains it.
#[derive(Clone, Debug)]
pub struct SufferDamage {
    pub amount: Vec<i32>,
}

/// Marks an entity for persistence tracking.
#[derive(Clone, Copy, PartialEq, Eq, Structural, Debug)]
pub struct SerializeTag {}

/// Relation: the item entity is held in the owner's inventory.
#[derive(Clone, Copy, PartialEq, Eq, Structural, Debug)]
pub struct InBackpack {
    pub owner: Entity,
}

/// One-shot intent: an actor wants to pick an item up off the floor.
#[derive(Clone, Copy, PartialEq, Eq, Structural, Debug)]
pub struct WantsToPickupItem {
    pub collected_by: Entity,
    pub item: Entity,
}

/// One-shot intent: an actor wants to use an item, optionally at a target.
#[derive(Clone, Copy, PartialEq, Eq, Structural, Debug)]
pub struct WantsToUseItem {
    pub item: Entity,
    pub target: Option<Point>,
}

/// One-shot intent: an actor wants to drop an item at its feet.
#[derive(Clone, Copy, PartialEq, Eq, Structural, Debug)]
pub struct WantsToDropItem {
    pub item: Entity,
}

} // verus!
