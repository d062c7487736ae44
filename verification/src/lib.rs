//! A verified storybook pipeline: annotated component declarations are
//! turned into typed argument schemas, descriptor artifacts for an external
//! preview tool, and a runtime registry that resolves render requests into
//! plain UI trees for the external browser bridge.

pub mod attrs;
pub mod components;
pub mod emit;
pub mod lorem;
pub mod registry;
pub mod schema;
pub mod strutil;
pub mod value;
pub mod vnode;
