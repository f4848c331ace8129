//! Registry construction and context projection for declarative game-content
//! descriptions: custom and stock entity identifiers, insertion-ordered
//! registries of identifiers, entity records and model paths, a recursive
//! transformation from a nested source tree into those registries, and a
//! projection of the registries into a template-ready context value.

pub mod context;
pub mod ids;
pub mod laws;
pub mod registries;
pub mod strutil;
pub mod transform;
pub mod units;
pub mod yarp_data;
