pub mod animator;
pub mod combodec;
pub mod controller;
pub mod controller_recorder;
pub mod network_sync;
pub mod resourcemap;
pub mod sprite;
pub mod strmap;
pub mod support;
pub mod util;
