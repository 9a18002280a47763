//! Any node of the tree, for those who do not know beforehand which kind
//! of node a value holds.
use crate::attributes::{lemma_flatten_keeps, HasMeta, Meta};
use crate::block::{
    Block, BlockView, Caption, CaptionView, Cell, CellView, Definition, DefinitionListItem,
    DefinitionListItemView, DefinitionView, ListItem, ListItemView, Row, RowView, TaskListItem,
    TaskListItemView, Term, TermView,
};
use crate::document::{Doc, DocView, Footnote, FootnoteView, Reference, ReferenceView};
use crate::error::{agrees, wrong_variant, Error, ErrorView};
use crate::inline::{Inline, InlineView};
use crate::names::lemma_names;
use crate::traverse::{Node, NodeType};
use crate::value::{same, unexpected_tag, Value, ValueView};
use vstd::prelude::*;
use vstd::std_specs::convert::{FromSpecImpl, TryFromSpecImpl};

verus! {

/// Any node of the tree.
#[derive(Debug, PartialEq, Eq)]
pub enum AstNode {
    Doc(Doc),
    Block(Block),
    Inline(Inline),
    ListItem(ListItem),
    TaskListItem(TaskListItem),
    DefinitionListItem(DefinitionListItem),
    Term(Term),
    Definition(Definition),
    Row(Row),
    Cell(Cell),
    Caption(Caption),
    Footnote(Footnote),
    Reference(Reference),
}

/// The mathematical value of an [`AstNode`].
pub enum AstNodeView {
    Doc(DocView),
    Block(BlockView),
    Inline(InlineView),
    ListItem(ListItemView),
    TaskListItem(TaskListItemView),
    DefinitionListItem(DefinitionListItemView),
    Term(TermView),
    Definition(DefinitionView),
    Row(RowView),
    Cell(CellView),
    Caption(CaptionView),
    Footnote(FootnoteView),
    Reference(ReferenceView),
}

impl View for AstNode {
    type V = AstNodeView;

    open spec fn view(&self) -> AstNodeView {
        match self {
            AstNode::Doc(x) => AstNodeView::Doc(x@),
            AstNode::Block(x) => AstNodeView::Block(x@),
            AstNode::Inline(x) => AstNodeView::Inline(x@),
            AstNode::ListItem(x) => AstNodeView::ListItem(x@),
            AstNode::TaskListItem(x) => AstNodeView::TaskListItem(x@),
            AstNode::DefinitionListItem(x) => AstNodeView::DefinitionListItem(x@),
            AstNode::Term(x) => AstNodeView::Term(x@),
            AstNode::Definition(x) => AstNodeView::Definition(x@),
            AstNode::Row(x) => AstNodeView::Row(x@),
            AstNode::Cell(x) => AstNodeView::Cell(x@),
            AstNode::Caption(x) => AstNodeView::Caption(x@),
            AstNode::Footnote(x) => AstNodeView::Footnote(x@),
            AstNode::Reference(x) => AstNodeView::Reference(x@),
        }
    }
}

impl AstNodeView {
    /// The encoded node: that of the variant.
    pub open spec fn encode(self) -> ValueView {
        match self {
            AstNodeView::Doc(x) => x.encode(),
            AstNodeView::Block(x) => x.encode(),
            AstNodeView::Inline(x) => x.encode(),
            AstNodeView::ListItem(x) => x.encode(),
            AstNodeView::TaskListItem(x) => x.encode(),
            AstNodeView::DefinitionListItem(x) => x.encode(),
            AstNodeView::Term(x) => x.encode(),
            AstNodeView::Definition(x) => x.encode(),
            AstNodeView::Row(x) => x.encode(),
            AstNodeView::Cell(x) => x.encode(),
            AstNodeView::Caption(x) => x.encode(),
            AstNodeView::Footnote(x) => x.encode(),
            AstNodeView::Reference(x) => x.encode(),
        }
    }

    /// The node that an encoded value holds: the kind of node that its
    /// discriminator names, decoded as such. A discriminator that names
    /// no node is a failure.
    pub open spec fn decode(v: ValueView) -> Result<AstNodeView, ErrorView> {
        match v.tag() {
            Err(e) => Err(e),
            Ok(t) => if t == "doc"@ {
                match DocView::decode(v) {
                    Ok(x) => Ok(AstNodeView::Doc(x)),
                    Err(e) => Err(e),
                }
            } else if BlockView::has_tag(t) {
                match BlockView::decode(v) {
                    Ok(x) => Ok(AstNodeView::Block(x)),
                    Err(e) => Err(e),
                }
            } else if InlineView::has_tag(t) {
                match InlineView::decode(v) {
                    Ok(x) => Ok(AstNodeView::Inline(x)),
                    Err(e) => Err(e),
                }
            } else if t == "list_item"@ {
                match ListItemView::decode(v) {
                    Ok(x) => Ok(AstNodeView::ListItem(x)),
                    Err(e) => Err(e),
                }
            } else if t == "task_list_item"@ {
                match TaskListItemView::decode(v) {
                    Ok(x) => Ok(AstNodeView::TaskListItem(x)),
                    Err(e) => Err(e),
                }
            } else if t == "definition_list_item"@ {
                match DefinitionListItemView::decode(v) {
                    Ok(x) => Ok(AstNodeView::DefinitionListItem(x)),
                    Err(e) => Err(e),
                }
            } else if t == "term"@ {
                match TermView::decode(v) {
                    Ok(x) => Ok(AstNodeView::Term(x)),
                    Err(e) => Err(e),
                }
            } else if t == "definition"@ {
                match DefinitionView::decode(v) {
                    Ok(x) => Ok(AstNodeView::Definition(x)),
                    Err(e) => Err(e),
                }
            } else if t == "row"@ {
                match RowView::decode(v) {
                    Ok(x) => Ok(AstNodeView::Row(x)),
                    Err(e) => Err(e),
                }
            } else if t == "cell"@ {
                match CellView::decode(v) {
                    Ok(x) => Ok(AstNodeView::Cell(x)),
                    Err(e) => Err(e),
                }
            } else if t == "caption"@ {
                match CaptionView::decode(v) {
                    Ok(x) => Ok(AstNodeView::Caption(x)),
                    Err(e) => Err(e),
                }
            } else if t == "footnote"@ {
                match FootnoteView::decode(v) {
                    Ok(x) => Ok(AstNodeView::Footnote(x)),
                    Err(e) => Err(e),
                }
            } else if t == "reference"@ {
                match ReferenceView::decode(v) {
                    Ok(x) => Ok(AstNodeView::Reference(x)),
                    Err(e) => Err(e),
                }
            } else {
                Err(unexpected_tag(t))
            },
        }
    }

    /// Decoding gives the node back where it holds a [`DocView`].
    proof fn lemma_roundtrip_doc(x: DocView)
        ensures
            AstNodeView::decode(AstNodeView::Doc(x).encode()) == Ok::<AstNodeView, ErrorView>(
                AstNodeView::Doc(x),
            ),
    {
        lemma_names();
        x.lemma_roundtrip();
        lemma_flatten_keeps(x.meta, x.fields(), "tag"@);
    }

    /// Decoding gives the node back where it holds a [`BlockView`].
    proof fn lemma_roundtrip_block(x: BlockView)
        ensures
            AstNodeView::decode(AstNodeView::Block(x).encode()) == Ok::<AstNodeView, ErrorView>(
                AstNodeView::Block(x),
            ),
    {
        lemma_names();
        x.lemma_roundtrip();
        x.lemma_tag();
    }

    /// Decoding gives the node back where it holds an [`InlineView`].
    proof fn lemma_roundtrip_inline(x: InlineView)
        ensures
            AstNodeView::decode(AstNodeView::Inline(x).encode()) == Ok::<AstNodeView, ErrorView>(
                AstNodeView::Inline(x),
            ),
    {
        lemma_names();
        x.lemma_roundtrip();
        x.lemma_tag();
    }

    /// Decoding gives the node back where it holds a [`ListItemView`].
    proof fn lemma_roundtrip_list_item(x: ListItemView)
        ensures
            AstNodeView::decode(AstNodeView::ListItem(x).encode()) == Ok::<AstNodeView, ErrorView>(
                AstNodeView::ListItem(x),
            ),
    {
        lemma_names();
        x.lemma_roundtrip();
        lemma_flatten_keeps(x.meta, x.fields(), "tag"@);
    }

    /// Decoding gives the node back where it holds a [`TaskListItemView`].
    proof fn lemma_roundtrip_task_list_item(x: TaskListItemView)
        ensures
            AstNodeView::decode(AstNodeView::TaskListItem(x).encode()) == Ok::<AstNodeView, ErrorView>(
                AstNodeView::TaskListItem(x),
            ),
    {
        lemma_names();
        x.lemma_roundtrip();
        lemma_flatten_keeps(x.meta, x.fields(), "tag"@);
    }

    /// Decoding gives the node back where it holds a [`DefinitionListItemView`].
    proof fn lemma_roundtrip_definition_list_item(x: DefinitionListItemView)
        ensures
            AstNodeView::decode(AstNodeView::DefinitionListItem(x).encode()) == Ok::<AstNodeView, ErrorView>(
                AstNodeView::DefinitionListItem(x),
            ),
    {
        lemma_names();
        x.lemma_roundtrip();
        lemma_flatten_keeps(x.meta, x.fields(), "tag"@);
    }

    /// Decoding gives the node back where it holds a [`TermView`].
    proof fn lemma_roundtrip_term(x: TermView)
        ensures
            AstNodeView::decode(AstNodeView::Term(x).encode()) == Ok::<AstNodeView, ErrorView>(
                AstNodeView::Term(x),
            ),
    {
        lemma_names();
        x.lemma_roundtrip();
        lemma_flatten_keeps(x.meta, x.fields(), "tag"@);
    }

    /// Decoding gives the node back where it holds a [`DefinitionView`].
    proof fn lemma_roundtrip_definition(x: DefinitionView)
        ensures
            AstNodeView::decode(AstNodeView::Definition(x).encode()) == Ok::<AstNodeView, ErrorView>(
                AstNodeView::Definition(x),
            ),
    {
        lemma_names();
        x.lemma_roundtrip();
        lemma_flatten_keeps(x.meta, x.fields(), "tag"@);
    }

    /// Decoding gives the node back where it holds a [`RowView`].
    proof fn lemma_roundtrip_row(x: RowView)
        ensures
            AstNodeView::decode(AstNodeView::Row(x).encode()) == Ok::<AstNodeView, ErrorView>(
                AstNodeView::Row(x),
            ),
    {
        lemma_names();
        x.lemma_roundtrip();
        lemma_flatten_keeps(x.meta, x.fields(), "tag"@);
    }

    /// Decoding gives the node back where it holds a [`CellView`].
    proof fn lemma_roundtrip_cell(x: CellView)
        ensures
            AstNodeView::decode(AstNodeView::Cell(x).encode()) == Ok::<AstNodeView, ErrorView>(
                AstNodeView::Cell(x),
            ),
    {
        lemma_names();
        x.lemma_roundtrip();
        lemma_flatten_keeps(x.meta, x.fields(), "tag"@);
    }

    /// Decoding gives the node back where it holds a [`CaptionView`].
    proof fn lemma_roundtrip_caption(x: CaptionView)
        ensures
            AstNodeView::decode(AstNodeView::Caption(x).encode()) == Ok::<AstNodeView, ErrorView>(
                AstNodeView::Caption(x),
            ),
    {
        lemma_names();
        x.lemma_roundtrip();
        lemma_flatten_keeps(x.meta, x.fields(), "tag"@);
    }

    /// Decoding gives the node back where it holds a [`FootnoteView`].
    proof fn lemma_roundtrip_footnote(x: FootnoteView)
        ensures
            AstNodeView::decode(AstNodeView::Footnote(x).encode()) == Ok::<AstNodeView, ErrorView>(
                AstNodeView::Footnote(x),
            ),
    {
        lemma_names();
        x.lemma_roundtrip();
        lemma_flatten_keeps(x.meta, x.fields(), "tag"@);
    }

    /// Decoding gives the node back where it holds a [`ReferenceView`].
    proof fn lemma_roundtrip_reference(x: ReferenceView)
        ensures
            AstNodeView::decode(AstNodeView::Reference(x).encode()) == Ok::<AstNodeView, ErrorView>(
                AstNodeView::Reference(x),
            ),
    {
        lemma_names();
        x.lemma_roundtrip();
        lemma_flatten_keeps(x.meta, x.fields(), "tag"@);
    }

    /// Decoding the encoded node gives the node back, whatever node it is.
    pub proof fn lemma_roundtrip(self)
        ensures
            AstNodeView::decode(self.encode()) == Ok::<AstNodeView, ErrorView>(self),
    {
        match self {
            AstNodeView::Doc(x) => {
                AstNodeView::lemma_roundtrip_doc(x);
            },
            AstNodeView::Block(x) => {
                AstNodeView::lemma_roundtrip_block(x);
            },
            AstNodeView::Inline(x) => {
                AstNodeView::lemma_roundtrip_inline(x);
            },
            AstNodeView::ListItem(x) => {
                AstNodeView::lemma_roundtrip_list_item(x);
            },
            AstNodeView::TaskListItem(x) => {
                AstNodeView::lemma_roundtrip_task_list_item(x);
            },
            AstNodeView::DefinitionListItem(x) => {
                AstNodeView::lemma_roundtrip_definition_list_item(x);
            },
            AstNodeView::Term(x) => {
                AstNodeView::lemma_roundtrip_term(x);
            },
            AstNodeView::Definition(x) => {
                AstNodeView::lemma_roundtrip_definition(x);
            },
            AstNodeView::Row(x) => {
                AstNodeView::lemma_roundtrip_row(x);
            },
            AstNodeView::Cell(x) => {
                AstNodeView::lemma_roundtrip_cell(x);
            },
            AstNodeView::Caption(x) => {
                AstNodeView::lemma_roundtrip_caption(x);
            },
            AstNodeView::Footnote(x) => {
                AstNodeView::lemma_roundtrip_footnote(x);
            },
            AstNodeView::Reference(x) => {
                AstNodeView::lemma_roundtrip_reference(x);
            },
        }
    }
}

impl AstNode {
    /// Encodes the node that the value holds.
    pub fn encode(&self) -> (v: Value)
        ensures
            v@ == self@.encode(),
            v.unambiguous(),
    {
        match self {
            AstNode::Doc(x) => x.encode(),
            AstNode::Block(x) => x.encode(),
            AstNode::Inline(x) => x.encode(),
            AstNode::ListItem(x) => x.encode(),
            AstNode::TaskListItem(x) => x.encode(),
            AstNode::DefinitionListItem(x) => x.encode(),
            AstNode::Term(x) => x.encode(),
            AstNode::Definition(x) => x.encode(),
            AstNode::Row(x) => x.encode(),
            AstNode::Cell(x) => x.encode(),
            AstNode::Caption(x) => x.encode(),
            AstNode::Footnote(x) => x.encode(),
            AstNode::Reference(x) => x.encode(),
        }
    }

    /// Decodes the node that the discriminator of the value names.
    pub fn decode(v: &Value) -> (r: Result<AstNode, Error>)
        ensures
            agrees(r, AstNodeView::decode(v@)),
    {
        let t = v.tag()?;
        if same(t, "doc") {
            Ok(AstNode::Doc(Doc::decode(v)?))
        } else if Block::is_tag(t) {
            Ok(AstNode::Block(Block::decode(v)?))
        } else if Inline::is_tag(t) {
            Ok(AstNode::Inline(Inline::decode(v)?))
        } else if same(t, "list_item") {
            Ok(AstNode::ListItem(ListItem::decode(v)?))
        } else if same(t, "task_list_item") {
            Ok(AstNode::TaskListItem(TaskListItem::decode(v)?))
        } else if same(t, "definition_list_item") {
            Ok(AstNode::DefinitionListItem(DefinitionListItem::decode(v)?))
        } else if same(t, "term") {
            Ok(AstNode::Term(Term::decode(v)?))
        } else if same(t, "definition") {
            Ok(AstNode::Definition(Definition::decode(v)?))
        } else if same(t, "row") {
            Ok(AstNode::Row(Row::decode(v)?))
        } else if same(t, "cell") {
            Ok(AstNode::Cell(Cell::decode(v)?))
        } else if same(t, "caption") {
            Ok(AstNode::Caption(Caption::decode(v)?))
        } else if same(t, "footnote") {
            Ok(AstNode::Footnote(Footnote::decode(v)?))
        } else if same(t, "reference") {
            Ok(AstNode::Reference(Reference::decode(v)?))
        } else {
            Err(Value::unexpected_tag(t.as_str()))
        }
    }
}

impl Node for AstNode {
    open spec fn spec_node_type(&self) -> NodeType {
        match self {
            AstNode::Doc(x) => x.spec_node_type(),
            AstNode::Block(x) => x.spec_node_type(),
            AstNode::Inline(x) => x.spec_node_type(),
            AstNode::ListItem(x) => x.spec_node_type(),
            AstNode::TaskListItem(x) => x.spec_node_type(),
            AstNode::DefinitionListItem(x) => x.spec_node_type(),
            AstNode::Term(x) => x.spec_node_type(),
            AstNode::Definition(x) => x.spec_node_type(),
            AstNode::Row(x) => x.spec_node_type(),
            AstNode::Cell(x) => x.spec_node_type(),
            AstNode::Caption(x) => x.spec_node_type(),
            AstNode::Footnote(x) => x.spec_node_type(),
            AstNode::Reference(x) => x.spec_node_type(),
        }
    }

    fn node_type(&self) -> (t: NodeType) {
        match self {
            AstNode::Doc(x) => x.node_type(),
            AstNode::Block(x) => x.node_type(),
            AstNode::Inline(x) => x.node_type(),
            AstNode::ListItem(x) => x.node_type(),
            AstNode::TaskListItem(x) => x.node_type(),
            AstNode::DefinitionListItem(x) => x.node_type(),
            AstNode::Term(x) => x.node_type(),
            AstNode::Definition(x) => x.node_type(),
            AstNode::Row(x) => x.node_type(),
            AstNode::Cell(x) => x.node_type(),
            AstNode::Caption(x) => x.node_type(),
            AstNode::Footnote(x) => x.node_type(),
            AstNode::Reference(x) => x.node_type(),
        }
    }
}

impl HasMeta for AstNode {
    open spec fn spec_meta(&self) -> Meta {
        match self {
            AstNode::Doc(x) => x.spec_meta(),
            AstNode::Block(x) => x.spec_meta(),
            AstNode::Inline(x) => x.spec_meta(),
            AstNode::ListItem(x) => x.spec_meta(),
            AstNode::TaskListItem(x) => x.spec_meta(),
            AstNode::DefinitionListItem(x) => x.spec_meta(),
            AstNode::Term(x) => x.spec_meta(),
            AstNode::Definition(x) => x.spec_meta(),
            AstNode::Row(x) => x.spec_meta(),
            AstNode::Cell(x) => x.spec_meta(),
            AstNode::Caption(x) => x.spec_meta(),
            AstNode::Footnote(x) => x.spec_meta(),
            AstNode::Reference(x) => x.spec_meta(),
        }
    }

    open spec fn with_meta(&self, meta: Meta) -> AstNode {
        match self {
            AstNode::Doc(x) => AstNode::Doc(x.with_meta(meta)),
            AstNode::Block(x) => AstNode::Block(x.with_meta(meta)),
            AstNode::Inline(x) => AstNode::Inline(x.with_meta(meta)),
            AstNode::ListItem(x) => AstNode::ListItem(x.with_meta(meta)),
            AstNode::TaskListItem(x) => AstNode::TaskListItem(x.with_meta(meta)),
            AstNode::DefinitionListItem(x) => AstNode::DefinitionListItem(x.with_meta(meta)),
            AstNode::Term(x) => AstNode::Term(x.with_meta(meta)),
            AstNode::Definition(x) => AstNode::Definition(x.with_meta(meta)),
            AstNode::Row(x) => AstNode::Row(x.with_meta(meta)),
            AstNode::Cell(x) => AstNode::Cell(x.with_meta(meta)),
            AstNode::Caption(x) => AstNode::Caption(x.with_meta(meta)),
            AstNode::Footnote(x) => AstNode::Footnote(x.with_meta(meta)),
            AstNode::Reference(x) => AstNode::Reference(x.with_meta(meta)),
        }
    }

    fn meta(&self) -> (r: &Meta) {
        match self {
            AstNode::Doc(x) => x.meta(),
            AstNode::Block(x) => x.meta(),
            AstNode::Inline(x) => x.meta(),
            AstNode::ListItem(x) => x.meta(),
            AstNode::TaskListItem(x) => x.meta(),
            AstNode::DefinitionListItem(x) => x.meta(),
            AstNode::Term(x) => x.meta(),
            AstNode::Definition(x) => x.meta(),
            AstNode::Row(x) => x.meta(),
            AstNode::Cell(x) => x.meta(),
            AstNode::Caption(x) => x.meta(),
            AstNode::Footnote(x) => x.meta(),
            AstNode::Reference(x) => x.meta(),
        }
    }

    fn meta_mut(&mut self) -> (r: &mut Meta) {
        match self {
            AstNode::Doc(x) => x.meta_mut(),
            AstNode::Block(x) => x.meta_mut(),
            AstNode::Inline(x) => x.meta_mut(),
            AstNode::ListItem(x) => x.meta_mut(),
            AstNode::TaskListItem(x) => x.meta_mut(),
            AstNode::DefinitionListItem(x) => x.meta_mut(),
            AstNode::Term(x) => x.meta_mut(),
            AstNode::Definition(x) => x.meta_mut(),
            AstNode::Row(x) => x.meta_mut(),
            AstNode::Cell(x) => x.meta_mut(),
            AstNode::Caption(x) => x.meta_mut(),
            AstNode::Footnote(x) => x.meta_mut(),
            AstNode::Reference(x) => x.meta_mut(),
        }
    }
}

impl Clone for AstNode {
    fn clone(&self) -> (r: AstNode)
        ensures
            r@ == self@,
    {
        match self {
            AstNode::Doc(x) => AstNode::Doc(x.clone()),
            AstNode::Block(x) => AstNode::Block(x.clone()),
            AstNode::Inline(x) => AstNode::Inline(x.clone()),
            AstNode::ListItem(x) => AstNode::ListItem(x.clone()),
            AstNode::TaskListItem(x) => AstNode::TaskListItem(x.clone()),
            AstNode::DefinitionListItem(x) => AstNode::DefinitionListItem(x.clone()),
            AstNode::Term(x) => AstNode::Term(x.clone()),
            AstNode::Definition(x) => AstNode::Definition(x.clone()),
            AstNode::Row(x) => AstNode::Row(x.clone()),
            AstNode::Cell(x) => AstNode::Cell(x.clone()),
            AstNode::Caption(x) => AstNode::Caption(x.clone()),
            AstNode::Footnote(x) => AstNode::Footnote(x.clone()),
            AstNode::Reference(x) => AstNode::Reference(x.clone()),
        }
    }
}

impl From<Doc> for AstNode {
    fn from(v: Doc) -> (r: AstNode) {
        AstNode::Doc(v)
    }
}

impl FromSpecImpl<Doc> for AstNode {
    open spec fn obeys_from_spec() -> bool {
        true
    }

    open spec fn from_spec(v: Doc) -> AstNode {
        AstNode::Doc(v)
    }
}

impl TryFrom<AstNode> for Doc {
    type Error = Error;

    /// The node inside, where the value is of this kind; else the failure
    /// "wrong variant".
    fn try_from(v: AstNode) -> (r: Result<Doc, Error>)
        ensures
            match v {
                AstNode::Doc(x) => r == Ok::<Doc, Error>(x),
                _ => r is Err && r->Err_0@ == wrong_variant(),
            },
    {
        match v {
            AstNode::Doc(x) => Ok(x),
            _ => Err(Error::general("wrong variant")),
        }
    }
}

impl TryFromSpecImpl<AstNode> for Doc {
    // A failure holds a string, which only executable code can make: the
    // contract stands on `try_from` itself.
    open spec fn obeys_try_from_spec() -> bool {
        false
    }

    open spec fn try_from_spec(v: AstNode) -> Result<Doc, Error> {
        match v {
            AstNode::Doc(x) => Ok(x),
            _ => Err(arbitrary()),
        }
    }
}

impl From<Block> for AstNode {
    fn from(v: Block) -> (r: AstNode) {
        AstNode::Block(v)
    }
}

impl FromSpecImpl<Block> for AstNode {
    open spec fn obeys_from_spec() -> bool {
        true
    }

    open spec fn from_spec(v: Block) -> AstNode {
        AstNode::Block(v)
    }
}

impl TryFrom<AstNode> for Block {
    type Error = Error;

    /// The node inside, where the value is of this kind; else the failure
    /// "wrong variant".
    fn try_from(v: AstNode) -> (r: Result<Block, Error>)
        ensures
            match v {
                AstNode::Block(x) => r == Ok::<Block, Error>(x),
                _ => r is Err && r->Err_0@ == wrong_variant(),
            },
    {
        match v {
            AstNode::Block(x) => Ok(x),
            _ => Err(Error::general("wrong variant")),
        }
    }
}

impl TryFromSpecImpl<AstNode> for Block {
    // A failure holds a string, which only executable code can make: the
    // contract stands on `try_from` itself.
    open spec fn obeys_try_from_spec() -> bool {
        false
    }

    open spec fn try_from_spec(v: AstNode) -> Result<Block, Error> {
        match v {
            AstNode::Block(x) => Ok(x),
            _ => Err(arbitrary()),
        }
    }
}

impl From<Inline> for AstNode {
    fn from(v: Inline) -> (r: AstNode) {
        AstNode::Inline(v)
    }
}

impl FromSpecImpl<Inline> for AstNode {
    open spec fn obeys_from_spec() -> bool {
        true
    }

    open spec fn from_spec(v: Inline) -> AstNode {
        AstNode::Inline(v)
    }
}

impl TryFrom<AstNode> for Inline {
    type Error = Error;

    /// The node inside, where the value is of this kind; else the failure
    /// "wrong variant".
    fn try_from(v: AstNode) -> (r: Result<Inline, Error>)
        ensures
            match v {
                AstNode::Inline(x) => r == Ok::<Inline, Error>(x),
                _ => r is Err && r->Err_0@ == wrong_variant(),
            },
    {
        match v {
            AstNode::Inline(x) => Ok(x),
            _ => Err(Error::general("wrong variant")),
        }
    }
}

impl TryFromSpecImpl<AstNode> for Inline {
    // A failure holds a string, which only executable code can make: the
    // contract stands on `try_from` itself.
    open spec fn obeys_try_from_spec() -> bool {
        false
    }

    open spec fn try_from_spec(v: AstNode) -> Result<Inline, Error> {
        match v {
            AstNode::Inline(x) => Ok(x),
            _ => Err(arbitrary()),
        }
    }
}

impl From<ListItem> for AstNode {
    fn from(v: ListItem) -> (r: AstNode) {
        AstNode::ListItem(v)
    }
}

impl FromSpecImpl<ListItem> for AstNode {
    open spec fn obeys_from_spec() -> bool {
        true
    }

    open spec fn from_spec(v: ListItem) -> AstNode {
        AstNode::ListItem(v)
    }
}

impl TryFrom<AstNode> for ListItem {
    type Error = Error;

    /// The node inside, where the value is of this kind; else the failure
    /// "wrong variant".
    fn try_from(v: AstNode) -> (r: Result<ListItem, Error>)
        ensures
            match v {
                AstNode::ListItem(x) => r == Ok::<ListItem, Error>(x),
                _ => r is Err && r->Err_0@ == wrong_variant(),
            },
    {
        match v {
            AstNode::ListItem(x) => Ok(x),
            _ => Err(Error::general("wrong variant")),
        }
    }
}

impl TryFromSpecImpl<AstNode> for ListItem {
    // A failure holds a string, which only executable code can make: the
    // contract stands on `try_from` itself.
    open spec fn obeys_try_from_spec() -> bool {
        false
    }

    open spec fn try_from_spec(v: AstNode) -> Result<ListItem, Error> {
        match v {
            AstNode::ListItem(x) => Ok(x),
            _ => Err(arbitrary()),
        }
    }
}

impl From<TaskListItem> for AstNode {
    fn from(v: TaskListItem) -> (r: AstNode) {
        AstNode::TaskListItem(v)
    }
}

impl FromSpecImpl<TaskListItem> for AstNode {
    open spec fn obeys_from_spec() -> bool {
        true
    }

    open spec fn from_spec(v: TaskListItem) -> AstNode {
        AstNode::TaskListItem(v)
    }
}

impl TryFrom<AstNode> for TaskListItem {
    type Error = Error;

    /// The node inside, where the value is of this kind; else the failure
    /// "wrong variant".
    fn try_from(v: AstNode) -> (r: Result<TaskListItem, Error>)
        ensures
            match v {
                AstNode::TaskListItem(x) => r == Ok::<TaskListItem, Error>(x),
                _ => r is Err && r->Err_0@ == wrong_variant(),
            },
    {
        match v {
            AstNode::TaskListItem(x) => Ok(x),
            _ => Err(Error::general("wrong variant")),
        }
    }
}

impl TryFromSpecImpl<AstNode> for TaskListItem {
    // A failure holds a string, which only executable code can make: the
    // contract stands on `try_from` itself.
    open spec fn obeys_try_from_spec() -> bool {
        false
    }

    open spec fn try_from_spec(v: AstNode) -> Result<TaskListItem, Error> {
        match v {
            AstNode::TaskListItem(x) => Ok(x),
            _ => Err(arbitrary()),
        }
    }
}

impl From<DefinitionListItem> for AstNode {
    fn from(v: DefinitionListItem) -> (r: AstNode) {
        AstNode::DefinitionListItem(v)
    }
}

impl FromSpecImpl<DefinitionListItem> for AstNode {
    open spec fn obeys_from_spec() -> bool {
        true
    }

    open spec fn from_spec(v: DefinitionListItem) -> AstNode {
        AstNode::DefinitionListItem(v)
    }
}

impl TryFrom<AstNode> for DefinitionListItem {
    type Error = Error;

    /// The node inside, where the value is of this kind; else the failure
    /// "wrong variant".
    fn try_from(v: AstNode) -> (r: Result<DefinitionListItem, Error>)
        ensures
            match v {
                AstNode::DefinitionListItem(x) => r == Ok::<DefinitionListItem, Error>(x),
                _ => r is Err && r->Err_0@ == wrong_variant(),
            },
    {
        match v {
            AstNode::DefinitionListItem(x) => Ok(x),
            _ => Err(Error::general("wrong variant")),
        }
    }
}

impl TryFromSpecImpl<AstNode> for DefinitionListItem {
    // A failure holds a string, which only executable code can make: the
    // contract stands on `try_from` itself.
    open spec fn obeys_try_from_spec() -> bool {
        false
    }

    open spec fn try_from_spec(v: AstNode) -> Result<DefinitionListItem, Error> {
        match v {
            AstNode::DefinitionListItem(x) => Ok(x),
            _ => Err(arbitrary()),
        }
    }
}

impl From<Term> for AstNode {
    fn from(v: Term) -> (r: AstNode) {
        AstNode::Term(v)
    }
}

impl FromSpecImpl<Term> for AstNode {
    open spec fn obeys_from_spec() -> bool {
        true
    }

    open spec fn from_spec(v: Term) -> AstNode {
        AstNode::Term(v)
    }
}

impl TryFrom<AstNode> for Term {
    type Error = Error;

    /// The node inside, where the value is of this kind; else the failure
    /// "wrong variant".
    fn try_from(v: AstNode) -> (r: Result<Term, Error>)
        ensures
            match v {
                AstNode::Term(x) => r == Ok::<Term, Error>(x),
                _ => r is Err && r->Err_0@ == wrong_variant(),
            },
    {
        match v {
            AstNode::Term(x) => Ok(x),
            _ => Err(Error::general("wrong variant")),
        }
    }
}

impl TryFromSpecImpl<AstNode> for Term {
    // A failure holds a string, which only executable code can make: the
    // contract stands on `try_from` itself.
    open spec fn obeys_try_from_spec() -> bool {
        false
    }

    open spec fn try_from_spec(v: AstNode) -> Result<Term, Error> {
        match v {
            AstNode::Term(x) => Ok(x),
            _ => Err(arbitrary()),
        }
    }
}

impl From<Definition> for AstNode {
    fn from(v: Definition) -> (r: AstNode) {
        AstNode::Definition(v)
    }
}

impl FromSpecImpl<Definition> for AstNode {
    open spec fn obeys_from_spec() -> bool {
        true
    }

    open spec fn from_spec(v: Definition) -> AstNode {
        AstNode::Definition(v)
    }
}

impl TryFrom<AstNode> for Definition {
    type Error = Error;

    /// The node inside, where the value is of this kind; else the failure
    /// "wrong variant".
    fn try_from(v: AstNode) -> (r: Result<Definition, Error>)
        ensures
            match v {
                AstNode::Definition(x) => r == Ok::<Definition, Error>(x),
                _ => r is Err && r->Err_0@ == wrong_variant(),
            },
    {
        match v {
            AstNode::Definition(x) => Ok(x),
            _ => Err(Error::general("wrong variant")),
        }
    }
}

impl TryFromSpecImpl<AstNode> for Definition {
    // A failure holds a string, which only executable code can make: the
    // contract stands on `try_from` itself.
    open spec fn obeys_try_from_spec() -> bool {
        false
    }

    open spec fn try_from_spec(v: AstNode) -> Result<Definition, Error> {
        match v {
            AstNode::Definition(x) => Ok(x),
            _ => Err(arbitrary()),
        }
    }
}

impl From<Row> for AstNode {
    fn from(v: Row) -> (r: AstNode) {
        AstNode::Row(v)
    }
}

impl FromSpecImpl<Row> for AstNode {
    open spec fn obeys_from_spec() -> bool {
        true
    }

    open spec fn from_spec(v: Row) -> AstNode {
        AstNode::Row(v)
    }
}

impl TryFrom<AstNode> for Row {
    type Error = Error;

    /// The node inside, where the value is of this kind; else the failure
    /// "wrong variant".
    fn try_from(v: AstNode) -> (r: Result<Row, Error>)
        ensures
            match v {
                AstNode::Row(x) => r == Ok::<Row, Error>(x),
                _ => r is Err && r->Err_0@ == wrong_variant(),
            },
    {
        match v {
            AstNode::Row(x) => Ok(x),
            _ => Err(Error::general("wrong variant")),
        }
    }
}

impl TryFromSpecImpl<AstNode> for Row {
    // A failure holds a string, which only executable code can make: the
    // contract stands on `try_from` itself.
    open spec fn obeys_try_from_spec() -> bool {
        false
    }

    open spec fn try_from_spec(v: AstNode) -> Result<Row, Error> {
        match v {
            AstNode::Row(x) => Ok(x),
            _ => Err(arbitrary()),
        }
    }
}

impl From<Cell> for AstNode {
    fn from(v: Cell) -> (r: AstNode) {
        AstNode::Cell(v)
    }
}

impl FromSpecImpl<Cell> for AstNode {
    open spec fn obeys_from_spec() -> bool {
        true
    }

    open spec fn from_spec(v: Cell) -> AstNode {
        AstNode::Cell(v)
    }
}

impl TryFrom<AstNode> for Cell {
    type Error = Error;

    /// The node inside, where the value is of this kind; else the failure
    /// "wrong variant".
    fn try_from(v: AstNode) -> (r: Result<Cell, Error>)
        ensures
            match v {
                AstNode::Cell(x) => r == Ok::<Cell, Error>(x),
                _ => r is Err && r->Err_0@ == wrong_variant(),
            },
    {
        match v {
            AstNode::Cell(x) => Ok(x),
            _ => Err(Error::general("wrong variant")),
        }
    }
}

impl TryFromSpecImpl<AstNode> for Cell {
    // A failure holds a string, which only executable code can make: the
    // contract stands on `try_from` itself.
    open spec fn obeys_try_from_spec() -> bool {
        false
    }

    open spec fn try_from_spec(v: AstNode) -> Result<Cell, Error> {
        match v {
            AstNode::Cell(x) => Ok(x),
            _ => Err(arbitrary()),
        }
    }
}

impl From<Caption> for AstNode {
    fn from(v: Caption) -> (r: AstNode) {
        AstNode::Caption(v)
    }
}

impl FromSpecImpl<Caption> for AstNode {
    open spec fn obeys_from_spec() -> bool {
        true
    }

    open spec fn from_spec(v: Caption) -> AstNode {
        AstNode::Caption(v)
    }
}

impl TryFrom<AstNode> for Caption {
    type Error = Error;

    /// The node inside, where the value is of this kind; else the failure
    /// "wrong variant".
    fn try_from(v: AstNode) -> (r: Result<Caption, Error>)
        ensures
            match v {
                AstNode::Caption(x) => r == Ok::<Caption, Error>(x),
                _ => r is Err && r->Err_0@ == wrong_variant(),
            },
    {
        match v {
            AstNode::Caption(x) => Ok(x),
            _ => Err(Error::general("wrong variant")),
        }
    }
}

impl TryFromSpecImpl<AstNode> for Caption {
    // A failure holds a string, which only executable code can make: the
    // contract stands on `try_from` itself.
    open spec fn obeys_try_from_spec() -> bool {
        false
    }

    open spec fn try_from_spec(v: AstNode) -> Result<Caption, Error> {
        match v {
            AstNode::Caption(x) => Ok(x),
            _ => Err(arbitrary()),
        }
    }
}

impl From<Footnote> for AstNode {
    fn from(v: Footnote) -> (r: AstNode) {
        AstNode::Footnote(v)
    }
}

impl FromSpecImpl<Footnote> for AstNode {
    open spec fn obeys_from_spec() -> bool {
        true
    }

    open spec fn from_spec(v: Footnote) -> AstNode {
        AstNode::Footnote(v)
    }
}

impl TryFrom<AstNode> for Footnote {
    type Error = Error;

    /// The node inside, where the value is of this kind; else the failure
    /// "wrong variant".
    fn try_from(v: AstNode) -> (r: Result<Footnote, Error>)
        ensures
            match v {
                AstNode::Footnote(x) => r == Ok::<Footnote, Error>(x),
                _ => r is Err && r->Err_0@ == wrong_variant(),
            },
    {
        match v {
            AstNode::Footnote(x) => Ok(x),
            _ => Err(Error::general("wrong variant")),
        }
    }
}

impl TryFromSpecImpl<AstNode> for Footnote {
    // A failure holds a string, which only executable code can make: the
    // contract stands on `try_from` itself.
    open spec fn obeys_try_from_spec() -> bool {
        false
    }

    open spec fn try_from_spec(v: AstNode) -> Result<Footnote, Error> {
        match v {
            AstNode::Footnote(x) => Ok(x),
            _ => Err(arbitrary()),
        }
    }
}

impl From<Reference> for AstNode {
    fn from(v: Reference) -> (r: AstNode) {
        AstNode::Reference(v)
    }
}

impl FromSpecImpl<Reference> for AstNode {
    open spec fn obeys_from_spec() -> bool {
        true
    }

    open spec fn from_spec(v: Reference) -> AstNode {
        AstNode::Reference(v)
    }
}

impl TryFrom<AstNode> for Reference {
    type Error = Error;

    /// The node inside, where the value is of this kind; else the failure
    /// "wrong variant".
    fn try_from(v: AstNode) -> (r: Result<Reference, Error>)
        ensures
            match v {
                AstNode::Reference(x) => r == Ok::<Reference, Error>(x),
                _ => r is Err && r->Err_0@ == wrong_variant(),
            },
    {
        match v {
            AstNode::Reference(x) => Ok(x),
            _ => Err(Error::general("wrong variant")),
        }
    }
}

impl TryFromSpecImpl<AstNode> for Reference {
    // A failure holds a string, which only executable code can make: the
    // contract stands on `try_from` itself.
    open spec fn obeys_try_from_spec() -> bool {
        false
    }

    open spec fn try_from_spec(v: AstNode) -> Result<Reference, Error> {
        match v {
            AstNode::Reference(x) => Ok(x),
            _ => Err(arbitrary()),
        }
    }
}

/// Create a document root node.
pub fn new_document() -> (r: AstNode)
    ensures
        r@ == AstNodeView::Doc(DocView::empty()),
{
    AstNode::Doc(Doc::default())
}

/// Whatever node is encoded, decoding what was written succeeds and gives a
/// node of the same value: of all that meets the contracts of `encode` and
/// `decode`, nothing else can come out.
pub proof fn lemma_decode_inverts_encode(
    node: AstNode,
    encoded: Value,
    decoded: Result<AstNode, Error>,
)
    requires
        encoded@ == node@.encode(),
        agrees(decoded, AstNodeView::decode(encoded@)),
    ensures
        decoded is Ok,
        decoded->Ok_0@ == node@,
{
    node@.lemma_roundtrip();
}

} // verus!
