//! Binding declarations for component interfaces that are described in a
//! C-like interface definition language.
//!
//! The work is done in two steps. The builders (`from_pest` on each type) take
//! a parse tree, given as plain [`Node`] values, and build a typed syntax tree:
//! a [`Document`] of [`Interface`]s with their [`Method`]s, enumerations and
//! structures. The renderer (`render` on each type) appends the text of the
//! declarations to a string. Every function states what it returns over the
//! mathematical value (the view) of its arguments.

pub mod casing;
pub mod document;
pub mod interface;
pub mod method;
pub mod parameter;
pub mod text;
pub mod tree;
pub mod typedefs;
pub mod types;

pub use crate::casing::camel_to_snake;
pub use crate::document::Document;
pub use crate::interface::Interface;
pub use crate::method::Method;
pub use crate::parameter::Parameter;
pub use crate::tree::{Node, NodeKind};
pub use crate::typedefs::{Field, TypedefEnum, TypedefStruct, Variant};
pub use crate::types::{Modifier, Type};
