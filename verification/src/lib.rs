//! Fanwaave desktop core: the configuration admission rules, the drag-and-drop
//! lifecycle requests of the desktop shell, and the cross-platform parity contract.

pub mod parity_contract_v1;
pub mod env_map;
pub mod config;
pub mod dnd;
pub mod native_dnd;
