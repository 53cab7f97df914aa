//! Binding core for a vendor-supplied video module with a fixed, undocumented
//! C calling convention.
//!
//! The native module exports four entry points, looked up by ordinal. This
//! crate holds everything about that boundary that can be reasoned about as
//! plain data: the lifecycle of the loaded module handle, the aggregation of
//! symbol-resolution results, the byte-exact layout of the two structures
//! exchanged with the module, and the controller state machine that sequences
//! open, set-resolution, version query and close. The actual loading and the
//! raw calls are performed by a thin unverified driver that feeds every
//! native return code back into the functions here.

pub mod controller;
pub mod errors;
pub mod layout;
pub mod library_handle;
pub mod version;

pub use controller::{AmVideo, ControllerState, FunctionTable};
pub use errors::{ConstructionError, FunctionGetError, LoadError, NativeCallError, VersionError};
pub use layout::{AmVideoContext, AmVideoMode, AmVideoResolution, AmVideoSetting};
pub use library_handle::LibraryHandle;
