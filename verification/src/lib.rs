//! A declarative router for component-tree terminal applications.
//!
//! An application declares a set of named routes, each backed by a child
//! component, and switches the visible child by name at run time.

pub mod builder;
pub mod router;
pub mod template;
pub mod text;

pub use builder::{Registration, RouterBuilder, TemplateSource, ROUTER_COMPONENT};
pub use router::{Router, RouterState};
pub use template::NAVIGATE;
