//! Error types for the binding layer.
//!
//! Construction failures (load, symbol resolution) carry enough context to
//! name the module or symbol and the operating-system code that the native
//! loader reported. Operational failures carry the vendor module's return
//! code verbatim.

use vstd::prelude::*;

verus! {

/// The native loader could not load the module at `path`.
#[derive(Debug, Clone)]
pub struct LoadError {
    /// The module path or identifier that was handed to the loader.
    pub path: String,
    /// The operating-system error code reported by the loader.
    pub os_code: i32,
}

/// A single entry point could not be resolved from the loaded module.
#[derive(Debug, Clone)]
pub struct FunctionGetError {
    /// The symbol name of the entry point, kept for diagnostics.
    pub name: String,
    /// The operating-system error code reported by the lookup.
    pub os_code: i32,
}

impl FunctionGetError {
    /// The symbol name this resolution failure is about.
    pub fn name(&self) -> (r: &str)
        ensures
            r@ == self.name@,
    {
        self.name.as_str()
    }
}

/// Controller construction failed: one or more required entry points were
/// missing. `missing` lists the name of every entry point that could not be
/// resolved, in the order the entry points are required, not just the first.
#[derive(Debug, Clone)]
pub struct ConstructionError {
    /// The names of all missing entry points.
    pub missing: Vec<String>,
}

/// A vendor entry point returned a nonzero code; the code is kept verbatim.
#[derive(Debug, Clone, Copy, PartialEq, Eq, Structural)]
pub struct NativeCallError(pub usize);

/// Failure of the firmware-version query: either the native call itself
/// failed, or the bytes it produced were not valid text. The two causes are
/// reported separately.
#[derive(Debug, Clone, Copy, PartialEq, Eq, Structural)]
pub enum VersionError {
    /// The native call returned this nonzero code.
    Native(usize),
    /// The native call succeeded but its bytes do not decode as text.
    Decode,
}

} // verus!
