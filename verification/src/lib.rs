//! An abstract syntax tree for a lightweight markup language, with its
//! encoding to and from a tagged, self-describing value.
//!
//! A document is a [`Doc`] of [`Block`]s, which hold [`Inline`]s; any node
//! at all is an [`AstNode`]. Every node carries a [`Meta`] and is classified
//! by [`Node::node_type`]. Every node has a view, its mathematical value,
//! and the contracts of `encode` and `decode` are stated over views: the
//! view of an encoded node is a function of the view of the node, and
//! decoding inverts it (`lemma_roundtrip` of each view).
//!
//! - [`value`]: the encoded form, a tree of objects, arrays and scalars.
//! - [`attributes`]: attributes and source spans.
//! - [`inline`], [`block`], [`document`], [`node`]: the nodes.
//! - [`traverse`]: the classification of nodes.
//! - [`string_map`]: the map that keeps attributes, references and
//!   footnotes.
//! - [`names`], [`text`], [`error`]: what the others share.
pub mod attributes;
pub mod block;
pub mod document;
pub mod error;
pub mod inline;
pub mod names;
pub mod node;
pub mod string_map;
pub mod text;
pub mod traverse;
pub mod value;

pub use attributes::{Attributes, HasAttributes, HasMeta, Meta, MetaView, Pos, SourceLoc};
pub use block::Block;
pub use document::{Doc, DocView, Footnote, FootnoteView, Reference, ReferenceView};
pub use error::{Error, ErrorView};
pub use inline::Inline;
pub use node::{new_document, AstNode, AstNodeView};
pub use string_map::StringMap;
pub use traverse::{Node, NodeType};
pub use value::{Value, ValueView};
