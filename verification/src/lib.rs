//! A byte-code lifting and disassembly front end around an external
//! processor-specification engine.
//!
//! The library covers everything around the engine itself: the catalog of
//! compressed architecture specifications and its memoizing store, the
//! configurator that maps an architecture selection to a specification name
//! and a table of configuration variables, the memory image that supplies
//! bytes to the engine on demand, and the sinks that accumulate the engine's
//! results in order.

use vstd::prelude::*;

pub mod builder;
pub mod store;
pub mod emit;
pub mod image;
pub mod model;

verus! {

/// The errors this library reports.
///
/// `UnknownArchitecture`: a requested architecture name is not in the store's
/// catalog. `UnsupportedConfiguration`: a structurally valid selection has no
/// catalog entry. `CorruptEmbeddedSpecification`: a catalog entry failed to
/// decompress or is not valid text — a packaging defect, never caller error.
/// `EngineConstructionError`: the external engine rejected a specification
/// document at construction time.
#[derive(Clone, Copy, Debug, PartialEq, Eq, Structural)]
pub enum SleighError {
    UnknownArchitecture,
    UnsupportedConfiguration,
    CorruptEmbeddedSpecification,
    EngineConstructionError,
}

} // verus!
