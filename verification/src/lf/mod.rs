pub mod ai;
pub mod effect;
pub mod global;
pub mod livingobject;
pub mod match_game;
pub mod network;
pub mod scene;
pub mod soundpack;
pub mod stage;
pub mod transistor;
pub mod util_lf;
pub mod character_ids;
pub mod character;
pub mod manager;
pub mod character_tu;
