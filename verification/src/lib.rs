pub mod components;
pub mod gamelog;
pub mod inventory_system;
pub mod map;
pub mod random_table;
pub mod rng;
pub mod spawner;
pub mod store;
pub mod text;
pub mod world;
