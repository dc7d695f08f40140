//! Device session and command orchestration for an Android device bridge tool: parsing of
//! its listings, the command line of each device action, the device registry with its
//! selection, the log capture session and the install pipeline.
pub mod adb;
pub mod device;
pub mod executor;
pub mod install;
pub mod packages;
pub mod registry;
pub mod stream;
pub mod text;
