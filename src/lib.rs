pub mod version;
pub mod payload;
pub mod paths;
pub mod install;
pub mod updater;
