//! Little Fighter 2 engine library: the frame, combo, recording, stage, sound and path logic.
pub mod core_engine;
pub mod lf;
pub mod text;

pub use core_engine::animator;
pub use core_engine::combodec;
pub use core_engine::controller;
pub use core_engine::controller_recorder;
pub use core_engine::network_sync;
pub use core_engine::resourcemap;
pub use core_engine::sprite;
pub use core_engine::strmap;
pub use core_engine::support;
pub use core_engine::util;
pub use lf::ai;
pub use lf::character;
pub use lf::character_ids;
pub use lf::character_tu;
pub use lf::effect;
pub use lf::global;
pub use lf::livingobject;
pub use lf::manager;
pub use lf::match_game;
pub use lf::network;
pub use lf::scene;
pub use lf::soundpack;
pub use lf::stage;
pub use lf::transistor;
pub use lf::util_lf;
