//! The packaging policy of a tool that bundles a language runtime with the
//! resources it needs: the settings, the decision on each resource, the
//! callbacks that may override it, and the named options through which a
//! configuration language reads and writes the settings.

pub mod assoc;
pub mod attributes;
pub mod chain;
pub mod derive;
pub mod environment;
pub mod location;
pub mod policy;
pub mod policy_value;
pub mod resource;
pub mod text;
pub mod value;
