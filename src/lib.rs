//! Update-application engine of a self-updating launcher: archive entry
//! classification, binary patching, archive application onto an
//! installation tree, download bookkeeping and the version-chain loop.

pub mod entry;
pub mod patcher;
pub mod install_tree;
pub mod processor;
pub mod archive;
pub mod download;
pub mod manifest;
pub mod updater;
