//! The block nodes: paragraphs, headings, containers of blocks, lists and
//! tables.
pub mod list;
pub mod table;

pub use list::{
    BulletList, BulletListStyle, BulletListView, CheckboxStatus, Definition, DefinitionList,
    DefinitionListItem, DefinitionListItemView, DefinitionListView, DefinitionView,
    DeserDefinitionListItem, FenceStyle, ListItem, ListItemView, NumberStyle, OrderedList,
    OrderedListStyle, OrderedListView, TaskList, TaskListItem, TaskListItemView, TaskListView, Term,
    TermView,
};
pub use table::{
    Alignment, CapOrRowView, Caption, CaptionView, Cell, CellView, DeserCapOrRow, DeserTable, Row,
    RowView, SerCapOrRow, SerTable, Table, TableChildrenView, TableView,
};

use crate::attributes::{lemma_flatten_keeps, lemma_meta_roundtrip, HasMeta, Meta, MetaView};
use crate::error::{agrees, wrong_variant, Error, ErrorView};
use crate::inline::{Inline, InlineView};
use crate::names::lemma_names;
use crate::traverse::{Node, NodeType};
use crate::value::{
    collect, lemma_collect_err, lemma_collect_ok, not_an_object, same, tagged, text_or_null,
    text_view, unexpected_tag, Value, ValueView,
};
use vstd::prelude::*;
use vstd::std_specs::convert::{FromSpecImpl, TryFromSpecImpl};

verus! {

/// A block of the document.
#[derive(Debug, PartialEq, Eq)]
pub enum Block {
    Para(Para),
    Heading(Heading),
    ThematicBreak(ThematicBreak),
    Section(Section),
    Div(Div),
    CodeBlock(CodeBlock),
    RawBlock(RawBlock),
    BlockQuote(BlockQuote),
    OrderedList(OrderedList),
    BulletList(BulletList),
    TaskList(TaskList),
    DefinitionList(DefinitionList),
    Table(Table),
}

/// The mathematical value of a [`Block`].
pub enum BlockView {
    Para(ParaView),
    Heading(HeadingView),
    ThematicBreak(ThematicBreakView),
    Section(SectionView),
    Div(DivView),
    CodeBlock(CodeBlockView),
    RawBlock(RawBlockView),
    BlockQuote(BlockQuoteView),
    OrderedList(OrderedListView),
    BulletList(BulletListView),
    TaskList(TaskListView),
    DefinitionList(DefinitionListView),
    Table(TableView),
}

impl View for Block {
    type V = BlockView;

    open spec fn view(&self) -> BlockView
        decreases self,
    {
        match self {
            Block::Para(x) => BlockView::Para(x@),
            Block::Heading(x) => BlockView::Heading(x@),
            Block::ThematicBreak(x) => BlockView::ThematicBreak(x@),
            Block::Section(x) => BlockView::Section(x@),
            Block::Div(x) => BlockView::Div(x@),
            Block::CodeBlock(x) => BlockView::CodeBlock(x@),
            Block::RawBlock(x) => BlockView::RawBlock(x@),
            Block::BlockQuote(x) => BlockView::BlockQuote(x@),
            Block::OrderedList(x) => BlockView::OrderedList(x@),
            Block::BulletList(x) => BlockView::BulletList(x@),
            Block::TaskList(x) => BlockView::TaskList(x@),
            Block::DefinitionList(x) => BlockView::DefinitionList(x@),
            Block::Table(x) => BlockView::Table(x@),
        }
    }
}

impl BlockView {
    /// The encoded node: that of the variant.
    pub open spec fn encode(self) -> ValueView
        decreases self, 0int,
    {
        match self {
            BlockView::Para(x) => x.encode(),
            BlockView::Heading(x) => x.encode(),
            BlockView::ThematicBreak(x) => x.encode(),
            BlockView::Section(x) => x.encode(),
            BlockView::Div(x) => x.encode(),
            BlockView::CodeBlock(x) => x.encode(),
            BlockView::RawBlock(x) => x.encode(),
            BlockView::BlockQuote(x) => x.encode(),
            BlockView::OrderedList(x) => x.encode(),
            BlockView::BulletList(x) => x.encode(),
            BlockView::TaskList(x) => x.encode(),
            BlockView::DefinitionList(x) => x.encode(),
            BlockView::Table(x) => x.encode(),
        }
    }

    /// Whether `tag` names a variant.
    pub open spec fn has_tag(tag: Seq<char>) -> bool {
        tag == "para"@
        || tag == "heading"@
        || tag == "thematic_break"@
        || tag == "section"@
        || tag == "div"@
        || tag == "code_block"@
        || tag == "raw_block"@
        || tag == "block_quote"@
        || tag == "ordered_list"@
        || tag == "bullet_list"@
        || tag == "task_list"@
        || tag == "definition_list"@
        || tag == "table"@
    }

    /// The node that an encoded value holds: the variant that its
    /// discriminator names, decoded as such. A discriminator that names
    /// no variant is a failure.
    pub open spec fn decode(v: ValueView) -> Result<BlockView, ErrorView>
        decreases v, 1int,
    {
        match v.tag() {
            Err(e) => Err(e),
            Ok(t) => if t == "para"@ {
                match ParaView::decode(v) {
                    Ok(x) => Ok(BlockView::Para(x)),
                    Err(e) => Err(e),
                }
            } else if t == "heading"@ {
                match HeadingView::decode(v) {
                    Ok(x) => Ok(BlockView::Heading(x)),
                    Err(e) => Err(e),
                }
            } else if t == "thematic_break"@ {
                match ThematicBreakView::decode(v) {
                    Ok(x) => Ok(BlockView::ThematicBreak(x)),
                    Err(e) => Err(e),
                }
            } else if t == "section"@ {
                match SectionView::decode(v) {
                    Ok(x) => Ok(BlockView::Section(x)),
                    Err(e) => Err(e),
                }
            } else if t == "div"@ {
                match DivView::decode(v) {
                    Ok(x) => Ok(BlockView::Div(x)),
                    Err(e) => Err(e),
                }
            } else if t == "code_block"@ {
                match CodeBlockView::decode(v) {
                    Ok(x) => Ok(BlockView::CodeBlock(x)),
                    Err(e) => Err(e),
                }
            } else if t == "raw_block"@ {
                match RawBlockView::decode(v) {
                    Ok(x) => Ok(BlockView::RawBlock(x)),
                    Err(e) => Err(e),
                }
            } else if t == "block_quote"@ {
                match BlockQuoteView::decode(v) {
                    Ok(x) => Ok(BlockView::BlockQuote(x)),
                    Err(e) => Err(e),
                }
            } else if t == "ordered_list"@ {
                match OrderedListView::decode(v) {
                    Ok(x) => Ok(BlockView::OrderedList(x)),
                    Err(e) => Err(e),
                }
            } else if t == "bullet_list"@ {
                match BulletListView::decode(v) {
                    Ok(x) => Ok(BlockView::BulletList(x)),
                    Err(e) => Err(e),
                }
            } else if t == "task_list"@ {
                match TaskListView::decode(v) {
                    Ok(x) => Ok(BlockView::TaskList(x)),
                    Err(e) => Err(e),
                }
            } else if t == "definition_list"@ {
                match DefinitionListView::decode(v) {
                    Ok(x) => Ok(BlockView::DefinitionList(x)),
                    Err(e) => Err(e),
                }
            } else if t == "table"@ {
                match TableView::decode(v) {
                    Ok(x) => Ok(BlockView::Table(x)),
                    Err(e) => Err(e),
                }
            } else {
                Err(unexpected_tag(t))
            },
        }
    }

    /// The discriminator of the encoded node names its variant.
    pub proof fn lemma_tag(self)
        ensures
            self.encode().tag() is Ok,
            BlockView::has_tag(self.encode().tag()->Ok_0),
    {
        lemma_names();
        match self {
            BlockView::Para(x) => {
                lemma_flatten_keeps(x.meta, x.fields(), "tag"@);
            },
            BlockView::Heading(x) => {
                lemma_flatten_keeps(x.meta, x.fields(), "tag"@);
            },
            BlockView::ThematicBreak(x) => {
                lemma_flatten_keeps(x.meta, x.fields(), "tag"@);
            },
            BlockView::Section(x) => {
                lemma_flatten_keeps(x.meta, x.fields(), "tag"@);
            },
            BlockView::Div(x) => {
                lemma_flatten_keeps(x.meta, x.fields(), "tag"@);
            },
            BlockView::CodeBlock(x) => {
                lemma_flatten_keeps(x.meta, x.fields(), "tag"@);
            },
            BlockView::RawBlock(x) => {
                lemma_flatten_keeps(x.meta, x.fields(), "tag"@);
            },
            BlockView::BlockQuote(x) => {
                lemma_flatten_keeps(x.meta, x.fields(), "tag"@);
            },
            BlockView::OrderedList(x) => {
                lemma_flatten_keeps(x.meta, x.fields(), "tag"@);
            },
            BlockView::BulletList(x) => {
                lemma_flatten_keeps(x.meta, x.fields(), "tag"@);
            },
            BlockView::TaskList(x) => {
                lemma_flatten_keeps(x.meta, x.fields(), "tag"@);
            },
            BlockView::DefinitionList(x) => {
                lemma_flatten_keeps(x.meta, x.fields(), "tag"@);
            },
            BlockView::Table(x) => {
                lemma_flatten_keeps(x.meta, x.fields(), "tag"@);
            },
        }
    }

    /// Decoding the encoded node gives the node back.
    pub proof fn lemma_roundtrip(self)
        ensures
            BlockView::decode(self.encode()) == Ok::<BlockView, ErrorView>(self),
        decreases self,
    {
        lemma_names();
        match self {
            BlockView::Para(x) => {
                x.lemma_roundtrip();
                lemma_flatten_keeps(x.meta, x.fields(), "tag"@);
            },
            BlockView::Heading(x) => {
                x.lemma_roundtrip();
                lemma_flatten_keeps(x.meta, x.fields(), "tag"@);
            },
            BlockView::ThematicBreak(x) => {
                x.lemma_roundtrip();
                lemma_flatten_keeps(x.meta, x.fields(), "tag"@);
            },
            BlockView::Section(x) => {
                x.lemma_roundtrip();
                lemma_flatten_keeps(x.meta, x.fields(), "tag"@);
            },
            BlockView::Div(x) => {
                x.lemma_roundtrip();
                lemma_flatten_keeps(x.meta, x.fields(), "tag"@);
            },
            BlockView::CodeBlock(x) => {
                x.lemma_roundtrip();
                lemma_flatten_keeps(x.meta, x.fields(), "tag"@);
            },
            BlockView::RawBlock(x) => {
                x.lemma_roundtrip();
                lemma_flatten_keeps(x.meta, x.fields(), "tag"@);
            },
            BlockView::BlockQuote(x) => {
                x.lemma_roundtrip();
                lemma_flatten_keeps(x.meta, x.fields(), "tag"@);
            },
            BlockView::OrderedList(x) => {
                x.lemma_roundtrip();
                lemma_flatten_keeps(x.meta, x.fields(), "tag"@);
            },
            BlockView::BulletList(x) => {
                x.lemma_roundtrip();
                lemma_flatten_keeps(x.meta, x.fields(), "tag"@);
            },
            BlockView::TaskList(x) => {
                x.lemma_roundtrip();
                lemma_flatten_keeps(x.meta, x.fields(), "tag"@);
            },
            BlockView::DefinitionList(x) => {
                x.lemma_roundtrip();
                lemma_flatten_keeps(x.meta, x.fields(), "tag"@);
            },
            BlockView::Table(x) => {
                x.lemma_roundtrip();
                lemma_flatten_keeps(x.meta, x.fields(), "tag"@);
            },
        }
    }
}

impl Block {
    /// Encodes the node that the value holds.
    pub fn encode(&self) -> (v: Value)
        ensures
            v@ == self@.encode(),
            v.unambiguous(),
        decreases self,
    {
        match self {
            Block::Para(x) => x.encode(),
            Block::Heading(x) => x.encode(),
            Block::ThematicBreak(x) => x.encode(),
            Block::Section(x) => x.encode(),
            Block::Div(x) => x.encode(),
            Block::CodeBlock(x) => x.encode(),
            Block::RawBlock(x) => x.encode(),
            Block::BlockQuote(x) => x.encode(),
            Block::OrderedList(x) => x.encode(),
            Block::BulletList(x) => x.encode(),
            Block::TaskList(x) => x.encode(),
            Block::DefinitionList(x) => x.encode(),
            Block::Table(x) => x.encode(),
        }
    }

    /// Whether `tag` names a variant.
    pub fn is_tag(tag: &String) -> (b: bool)
        ensures
            b == BlockView::has_tag(tag@),
    {
        same(tag, "para")
        || same(tag, "heading")
        || same(tag, "thematic_break")
        || same(tag, "section")
        || same(tag, "div")
        || same(tag, "code_block")
        || same(tag, "raw_block")
        || same(tag, "block_quote")
        || same(tag, "ordered_list")
        || same(tag, "bullet_list")
        || same(tag, "task_list")
        || same(tag, "definition_list")
        || same(tag, "table")
    }

    /// Decodes the variant that the discriminator of the value names.
    pub fn decode(v: &Value) -> (r: Result<Block, Error>)
        ensures
            agrees(r, BlockView::decode(v@)),
        decreases v@, 1int,
    {
        let t = v.tag()?;
        if same(t, "para") {
            Ok(Block::Para(Para::decode(v)?))
        } else if same(t, "heading") {
            Ok(Block::Heading(Heading::decode(v)?))
        } else if same(t, "thematic_break") {
            Ok(Block::ThematicBreak(ThematicBreak::decode(v)?))
        } else if same(t, "section") {
            Ok(Block::Section(Section::decode(v)?))
        } else if same(t, "div") {
            Ok(Block::Div(Div::decode(v)?))
        } else if same(t, "code_block") {
            Ok(Block::CodeBlock(CodeBlock::decode(v)?))
        } else if same(t, "raw_block") {
            Ok(Block::RawBlock(RawBlock::decode(v)?))
        } else if same(t, "block_quote") {
            Ok(Block::BlockQuote(BlockQuote::decode(v)?))
        } else if same(t, "ordered_list") {
            Ok(Block::OrderedList(OrderedList::decode(v)?))
        } else if same(t, "bullet_list") {
            Ok(Block::BulletList(BulletList::decode(v)?))
        } else if same(t, "task_list") {
            Ok(Block::TaskList(TaskList::decode(v)?))
        } else if same(t, "definition_list") {
            Ok(Block::DefinitionList(DefinitionList::decode(v)?))
        } else if same(t, "table") {
            Ok(Block::Table(Table::decode(v)?))
        } else {
            Err(Value::unexpected_tag(t.as_str()))
        }
    }
}

impl BlockView {
    /// The encoded blocks, in order.
    pub open spec fn encode_all(s: Seq<BlockView>) -> Seq<ValueView>
        decreases s, 0int,
    {
        Seq::new(
            s.len(),
            |i: int|
                if 0 <= i < s.len() {
                    s[i].encode()
                } else {
                    ValueView::Null
                },
        )
    }

    /// What each of the values decodes to.
    pub open spec fn decode_each(s: Seq<ValueView>) -> Seq<Result<BlockView, ErrorView>>
        decreases s, 0int,
    {
        Seq::new(
            s.len(),
            |i: int|
                if 0 <= i < s.len() {
                    BlockView::decode(s[i])
                } else {
                    Err(not_an_object())
                },
        )
    }

    /// The blocks that the values hold, or the failure of the first value
    /// that holds none.
    pub open spec fn decode_all(s: Seq<ValueView>) -> Result<Seq<BlockView>, ErrorView>
        decreases s, 1int,
    {
        collect(BlockView::decode_each(s))
    }

    /// Decoding the encoded blocks gives them back.
    pub proof fn lemma_roundtrip_all(s: Seq<BlockView>)
        ensures
            BlockView::decode_all(BlockView::encode_all(s)) == Ok::<Seq<BlockView>, ErrorView>(s),
        decreases s,
    {
        let rs = BlockView::decode_each(BlockView::encode_all(s));
        assert forall|i: int| 0 <= i < rs.len() implies (#[trigger] rs[i]) == Ok::<
            BlockView,
            ErrorView,
        >(s[i]) by {
            s[i].lemma_roundtrip();
        }
        lemma_collect_ok(rs, s);
    }
}

impl Block {
    /// The blocks of a list, each by its view.
    pub open spec fn views(s: Seq<Block>) -> Seq<BlockView>
        decreases s,
    {
        Seq::new(
            s.len(),
            |i: int|
                if 0 <= i < s.len() {
                    s[i]@
                } else {
                    arbitrary()
                },
        )
    }

    /// A copy of the list.
    pub fn clone_all(items: &Vec<Block>) -> (r: Vec<Block>)
        ensures
            Block::views(r@) == Block::views(items@),
        decreases items,
    {
        let mut out: Vec<Block> = Vec::new();
        let mut i: usize = 0;
        while i < items.len()
            invariant
                i <= items.len(),
                out.len() == i,
                forall|j: int| 0 <= j < i ==> (#[trigger] out@[j])@ == items@[j]@,
            decreases items.len() - i,
        {
            let item = items[i].clone();
            out.push(item);
            i = i + 1;
        }
        assert(Block::views(out@) =~= Block::views(items@));
        out
    }

    /// Encodes each of the blocks.
    pub fn encode_all(items: &Vec<Block>) -> (r: Vec<Value>)
        ensures
            Value::views(r@) == BlockView::encode_all(Block::views(items@)),
            Value::all_unambiguous(r@),
        decreases items,
    {
        let mut out: Vec<Value> = Vec::new();
        let mut i: usize = 0;
        while i < items.len()
            invariant
                i <= items.len(),
                out.len() == i,
                forall|j: int| 0 <= j < i ==> (#[trigger] out@[j])@ == items@[j]@.encode(),
                forall|j: int| 0 <= j < i ==> (#[trigger] out@[j]).unambiguous(),
            decreases items.len() - i,
        {
            let item = items[i].encode();
            out.push(item);
            i = i + 1;
        }
        assert(Value::views(out@) =~= BlockView::encode_all(Block::views(items@)));
        out
    }

    /// Decodes each of the values, and stops at the first that fails.
    pub fn decode_all(items: &Vec<Value>) -> (r: Result<Vec<Block>, Error>)
        ensures
            match BlockView::decode_all(Value::views(items@)) {
                Ok(x) => r is Ok && Block::views(r->Ok_0@) == x,
                Err(e) => r is Err && r->Err_0@ == e,
            },
        decreases Value::views(items@), 1int,
    {
        let ghost s = Value::views(items@);
        let ghost rs = BlockView::decode_each(s);
        let mut out: Vec<Block> = Vec::new();
        let mut i: usize = 0;
        while i < items.len()
            invariant
                i <= items.len(),
                out.len() == i,
                s == Value::views(items@),
                rs == BlockView::decode_each(s),
                forall|j: int|
                    0 <= j < i ==> (#[trigger] rs[j]) == Ok::<BlockView, ErrorView>(out@[j]@),
            decreases items.len() - i,
        {
            assert(s[i as int] == items[i as int]@);
            match Block::decode(&items[i]) {
                Ok(x) => {
                    out.push(x);
                },
                Err(e) => {
                    proof {
                        lemma_collect_err(rs, i as int);
                    }
                    return Err(e);
                },
            }
            i = i + 1;
        }
        proof {
            lemma_collect_ok(rs, Block::views(out@));
        }
        Ok(out)
    }
}

impl Node for Block {
    open spec fn spec_node_type(&self) -> NodeType {
        match self {
            Block::Para(x) => x.spec_node_type(),
            Block::Heading(x) => x.spec_node_type(),
            Block::ThematicBreak(x) => x.spec_node_type(),
            Block::Section(x) => x.spec_node_type(),
            Block::Div(x) => x.spec_node_type(),
            Block::CodeBlock(x) => x.spec_node_type(),
            Block::RawBlock(x) => x.spec_node_type(),
            Block::BlockQuote(x) => x.spec_node_type(),
            Block::OrderedList(x) => x.spec_node_type(),
            Block::BulletList(x) => x.spec_node_type(),
            Block::TaskList(x) => x.spec_node_type(),
            Block::DefinitionList(x) => x.spec_node_type(),
            Block::Table(x) => x.spec_node_type(),
        }
    }

    fn node_type(&self) -> (t: NodeType) {
        match self {
            Block::Para(x) => x.node_type(),
            Block::Heading(x) => x.node_type(),
            Block::ThematicBreak(x) => x.node_type(),
            Block::Section(x) => x.node_type(),
            Block::Div(x) => x.node_type(),
            Block::CodeBlock(x) => x.node_type(),
            Block::RawBlock(x) => x.node_type(),
            Block::BlockQuote(x) => x.node_type(),
            Block::OrderedList(x) => x.node_type(),
            Block::BulletList(x) => x.node_type(),
            Block::TaskList(x) => x.node_type(),
            Block::DefinitionList(x) => x.node_type(),
            Block::Table(x) => x.node_type(),
        }
    }
}

impl HasMeta for Block {
    open spec fn spec_meta(&self) -> Meta {
        match self {
            Block::Para(x) => x.spec_meta(),
            Block::Heading(x) => x.spec_meta(),
            Block::ThematicBreak(x) => x.spec_meta(),
            Block::Section(x) => x.spec_meta(),
            Block::Div(x) => x.spec_meta(),
            Block::CodeBlock(x) => x.spec_meta(),
            Block::RawBlock(x) => x.spec_meta(),
            Block::BlockQuote(x) => x.spec_meta(),
            Block::OrderedList(x) => x.spec_meta(),
            Block::BulletList(x) => x.spec_meta(),
            Block::TaskList(x) => x.spec_meta(),
            Block::DefinitionList(x) => x.spec_meta(),
            Block::Table(x) => x.spec_meta(),
        }
    }

    open spec fn with_meta(&self, meta: Meta) -> Block {
        match self {
            Block::Para(x) => Block::Para(x.with_meta(meta)),
            Block::Heading(x) => Block::Heading(x.with_meta(meta)),
            Block::ThematicBreak(x) => Block::ThematicBreak(x.with_meta(meta)),
            Block::Section(x) => Block::Section(x.with_meta(meta)),
            Block::Div(x) => Block::Div(x.with_meta(meta)),
            Block::CodeBlock(x) => Block::CodeBlock(x.with_meta(meta)),
            Block::RawBlock(x) => Block::RawBlock(x.with_meta(meta)),
            Block::BlockQuote(x) => Block::BlockQuote(x.with_meta(meta)),
            Block::OrderedList(x) => Block::OrderedList(x.with_meta(meta)),
            Block::BulletList(x) => Block::BulletList(x.with_meta(meta)),
            Block::TaskList(x) => Block::TaskList(x.with_meta(meta)),
            Block::DefinitionList(x) => Block::DefinitionList(x.with_meta(meta)),
            Block::Table(x) => Block::Table(x.with_meta(meta)),
        }
    }

    fn meta(&self) -> (r: &Meta) {
        match self {
            Block::Para(x) => x.meta(),
            Block::Heading(x) => x.meta(),
            Block::ThematicBreak(x) => x.meta(),
            Block::Section(x) => x.meta(),
            Block::Div(x) => x.meta(),
            Block::CodeBlock(x) => x.meta(),
            Block::RawBlock(x) => x.meta(),
            Block::BlockQuote(x) => x.meta(),
            Block::OrderedList(x) => x.meta(),
            Block::BulletList(x) => x.meta(),
            Block::TaskList(x) => x.meta(),
            Block::DefinitionList(x) => x.meta(),
            Block::Table(x) => x.meta(),
        }
    }

    fn meta_mut(&mut self) -> (r: &mut Meta) {
        match self {
            Block::Para(x) => x.meta_mut(),
            Block::Heading(x) => x.meta_mut(),
            Block::ThematicBreak(x) => x.meta_mut(),
            Block::Section(x) => x.meta_mut(),
            Block::Div(x) => x.meta_mut(),
            Block::CodeBlock(x) => x.meta_mut(),
            Block::RawBlock(x) => x.meta_mut(),
            Block::BlockQuote(x) => x.meta_mut(),
            Block::OrderedList(x) => x.meta_mut(),
            Block::BulletList(x) => x.meta_mut(),
            Block::TaskList(x) => x.meta_mut(),
            Block::DefinitionList(x) => x.meta_mut(),
            Block::Table(x) => x.meta_mut(),
        }
    }
}

impl Clone for Block {
    fn clone(&self) -> (r: Block)
        ensures
            r@ == self@,
        decreases self,
    {
        match self {
            Block::Para(x) => Block::Para(x.clone()),
            Block::Heading(x) => Block::Heading(x.clone()),
            Block::ThematicBreak(x) => Block::ThematicBreak(x.clone()),
            Block::Section(x) => Block::Section(x.clone()),
            Block::Div(x) => Block::Div(x.clone()),
            Block::CodeBlock(x) => Block::CodeBlock(x.clone()),
            Block::RawBlock(x) => Block::RawBlock(x.clone()),
            Block::BlockQuote(x) => Block::BlockQuote(x.clone()),
            Block::OrderedList(x) => Block::OrderedList(x.clone()),
            Block::BulletList(x) => Block::BulletList(x.clone()),
            Block::TaskList(x) => Block::TaskList(x.clone()),
            Block::DefinitionList(x) => Block::DefinitionList(x.clone()),
            Block::Table(x) => Block::Table(x.clone()),
        }
    }
}

impl From<Para> for Block {
    fn from(v: Para) -> (r: Block) {
        Block::Para(v)
    }
}

impl FromSpecImpl<Para> for Block {
    open spec fn obeys_from_spec() -> bool {
        true
    }

    open spec fn from_spec(v: Para) -> Block {
        Block::Para(v)
    }
}

impl TryFrom<Block> for Para {
    type Error = Error;

    /// The node inside, where the value is of this kind; else the failure
    /// "wrong variant".
    fn try_from(v: Block) -> (r: Result<Para, Error>)
        ensures
            match v {
                Block::Para(x) => r == Ok::<Para, Error>(x),
                _ => r is Err && r->Err_0@ == wrong_variant(),
            },
    {
        match v {
            Block::Para(x) => Ok(x),
            _ => Err(Error::general("wrong variant")),
        }
    }
}

impl TryFromSpecImpl<Block> for Para {
    // A failure holds a string, which only executable code can make: the
    // contract stands on `try_from` itself.
    open spec fn obeys_try_from_spec() -> bool {
        false
    }

    open spec fn try_from_spec(v: Block) -> Result<Para, Error> {
        match v {
            Block::Para(x) => Ok(x),
            _ => Err(arbitrary()),
        }
    }
}

impl From<Heading> for Block {
    fn from(v: Heading) -> (r: Block) {
        Block::Heading(v)
    }
}

impl FromSpecImpl<Heading> for Block {
    open spec fn obeys_from_spec() -> bool {
        true
    }

    open spec fn from_spec(v: Heading) -> Block {
        Block::Heading(v)
    }
}

impl TryFrom<Block> for Heading {
    type Error = Error;

    /// The node inside, where the value is of this kind; else the failure
    /// "wrong variant".
    fn try_from(v: Block) -> (r: Result<Heading, Error>)
        ensures
            match v {
                Block::Heading(x) => r == Ok::<Heading, Error>(x),
                _ => r is Err && r->Err_0@ == wrong_variant(),
            },
    {
        match v {
            Block::Heading(x) => Ok(x),
            _ => Err(Error::general("wrong variant")),
        }
    }
}

impl TryFromSpecImpl<Block> for Heading {
    // A failure holds a string, which only executable code can make: the
    // contract stands on `try_from` itself.
    open spec fn obeys_try_from_spec() -> bool {
        false
    }

    open spec fn try_from_spec(v: Block) -> Result<Heading, Error> {
        match v {
            Block::Heading(x) => Ok(x),
            _ => Err(arbitrary()),
        }
    }
}

impl From<ThematicBreak> for Block {
    fn from(v: ThematicBreak) -> (r: Block) {
        Block::ThematicBreak(v)
    }
}

impl FromSpecImpl<ThematicBreak> for Block {
    open spec fn obeys_from_spec() -> bool {
        true
    }

    open spec fn from_spec(v: ThematicBreak) -> Block {
        Block::ThematicBreak(v)
    }
}

impl TryFrom<Block> for ThematicBreak {
    type Error = Error;

    /// The node inside, where the value is of this kind; else the failure
    /// "wrong variant".
    fn try_from(v: Block) -> (r: Result<ThematicBreak, Error>)
        ensures
            match v {
                Block::ThematicBreak(x) => r == Ok::<ThematicBreak, Error>(x),
                _ => r is Err && r->Err_0@ == wrong_variant(),
            },
    {
        match v {
            Block::ThematicBreak(x) => Ok(x),
            _ => Err(Error::general("wrong variant")),
        }
    }
}

impl TryFromSpecImpl<Block> for ThematicBreak {
    // A failure holds a string, which only executable code can make: the
    // contract stands on `try_from` itself.
    open spec fn obeys_try_from_spec() -> bool {
        false
    }

    open spec fn try_from_spec(v: Block) -> Result<ThematicBreak, Error> {
        match v {
            Block::ThematicBreak(x) => Ok(x),
            _ => Err(arbitrary()),
        }
    }
}

impl From<Section> for Block {
    fn from(v: Section) -> (r: Block) {
        Block::Section(v)
    }
}

impl FromSpecImpl<Section> for Block {
    open spec fn obeys_from_spec() -> bool {
        true
    }

    open spec fn from_spec(v: Section) -> Block {
        Block::Section(v)
    }
}

impl TryFrom<Block> for Section {
    type Error = Error;

    /// The node inside, where the value is of this kind; else the failure
    /// "wrong variant".
    fn try_from(v: Block) -> (r: Result<Section, Error>)
        ensures
            match v {
                Block::Section(x) => r == Ok::<Section, Error>(x),
                _ => r is Err && r->Err_0@ == wrong_variant(),
            },
    {
        match v {
            Block::Section(x) => Ok(x),
            _ => Err(Error::general("wrong variant")),
        }
    }
}

impl TryFromSpecImpl<Block> for Section {
    // A failure holds a string, which only executable code can make: the
    // contract stands on `try_from` itself.
    open spec fn obeys_try_from_spec() -> bool {
        false
    }

    open spec fn try_from_spec(v: Block) -> Result<Section, Error> {
        match v {
            Block::Section(x) => Ok(x),
            _ => Err(arbitrary()),
        }
    }
}

impl From<Div> for Block {
    fn from(v: Div) -> (r: Block) {
        Block::Div(v)
    }
}

impl FromSpecImpl<Div> for Block {
    open spec fn obeys_from_spec() -> bool {
        true
    }

    open spec fn from_spec(v: Div) -> Block {
        Block::Div(v)
    }
}

impl TryFrom<Block> for Div {
    type Error = Error;

    /// The node inside, where the value is of this kind; else the failure
    /// "wrong variant".
    fn try_from(v: Block) -> (r: Result<Div, Error>)
        ensures
            match v {
                Block::Div(x) => r == Ok::<Div, Error>(x),
                _ => r is Err && r->Err_0@ == wrong_variant(),
            },
    {
        match v {
            Block::Div(x) => Ok(x),
            _ => Err(Error::general("wrong variant")),
        }
    }
}

impl TryFromSpecImpl<Block> for Div {
    // A failure holds a string, which only executable code can make: the
    // contract stands on `try_from` itself.
    open spec fn obeys_try_from_spec() -> bool {
        false
    }

    open spec fn try_from_spec(v: Block) -> Result<Div, Error> {
        match v {
            Block::Div(x) => Ok(x),
            _ => Err(arbitrary()),
        }
    }
}

impl From<CodeBlock> for Block {
    fn from(v: CodeBlock) -> (r: Block) {
        Block::CodeBlock(v)
    }
}

impl FromSpecImpl<CodeBlock> for Block {
    open spec fn obeys_from_spec() -> bool {
        true
    }

    open spec fn from_spec(v: CodeBlock) -> Block {
        Block::CodeBlock(v)
    }
}

impl TryFrom<Block> for CodeBlock {
    type Error = Error;

    /// The node inside, where the value is of this kind; else the failure
    /// "wrong variant".
    fn try_from(v: Block) -> (r: Result<CodeBlock, Error>)
        ensures
            match v {
                Block::CodeBlock(x) => r == Ok::<CodeBlock, Error>(x),
                _ => r is Err && r->Err_0@ == wrong_variant(),
            },
    {
        match v {
            Block::CodeBlock(x) => Ok(x),
            _ => Err(Error::general("wrong variant")),
        }
    }
}

impl TryFromSpecImpl<Block> for CodeBlock {
    // A failure holds a string, which only executable code can make: the
    // contract stands on `try_from` itself.
    open spec fn obeys_try_from_spec() -> bool {
        false
    }

    open spec fn try_from_spec(v: Block) -> Result<CodeBlock, Error> {
        match v {
            Block::CodeBlock(x) => Ok(x),
            _ => Err(arbitrary()),
        }
    }
}

impl From<RawBlock> for Block {
    fn from(v: RawBlock) -> (r: Block) {
        Block::RawBlock(v)
    }
}

impl FromSpecImpl<RawBlock> for Block {
    open spec fn obeys_from_spec() -> bool {
        true
    }

    open spec fn from_spec(v: RawBlock) -> Block {
        Block::RawBlock(v)
    }
}

impl TryFrom<Block> for RawBlock {
    type Error = Error;

    /// The node inside, where the value is of this kind; else the failure
    /// "wrong variant".
    fn try_from(v: Block) -> (r: Result<RawBlock, Error>)
        ensures
            match v {
                Block::RawBlock(x) => r == Ok::<RawBlock, Error>(x),
                _ => r is Err && r->Err_0@ == wrong_variant(),
            },
    {
        match v {
            Block::RawBlock(x) => Ok(x),
            _ => Err(Error::general("wrong variant")),
        }
    }
}

impl TryFromSpecImpl<Block> for RawBlock {
    // A failure holds a string, which only executable code can make: the
    // contract stands on `try_from` itself.
    open spec fn obeys_try_from_spec() -> bool {
        false
    }

    open spec fn try_from_spec(v: Block) -> Result<RawBlock, Error> {
        match v {
            Block::RawBlock(x) => Ok(x),
            _ => Err(arbitrary()),
        }
    }
}

impl From<BlockQuote> for Block {
    fn from(v: BlockQuote) -> (r: Block) {
        Block::BlockQuote(v)
    }
}

impl FromSpecImpl<BlockQuote> for Block {
    open spec fn obeys_from_spec() -> bool {
        true
    }

    open spec fn from_spec(v: BlockQuote) -> Block {
        Block::BlockQuote(v)
    }
}

impl TryFrom<Block> for BlockQuote {
    type Error = Error;

    /// The node inside, where the value is of this kind; else the failure
    /// "wrong variant".
    fn try_from(v: Block) -> (r: Result<BlockQuote, Error>)
        ensures
            match v {
                Block::BlockQuote(x) => r == Ok::<BlockQuote, Error>(x),
                _ => r is Err && r->Err_0@ == wrong_variant(),
            },
    {
        match v {
            Block::BlockQuote(x) => Ok(x),
            _ => Err(Error::general("wrong variant")),
        }
    }
}

impl TryFromSpecImpl<Block> for BlockQuote {
    // A failure holds a string, which only executable code can make: the
    // contract stands on `try_from` itself.
    open spec fn obeys_try_from_spec() -> bool {
        false
    }

    open spec fn try_from_spec(v: Block) -> Result<BlockQuote, Error> {
        match v {
            Block::BlockQuote(x) => Ok(x),
            _ => Err(arbitrary()),
        }
    }
}

impl From<OrderedList> for Block {
    fn from(v: OrderedList) -> (r: Block) {
        Block::OrderedList(v)
    }
}

impl FromSpecImpl<OrderedList> for Block {
    open spec fn obeys_from_spec() -> bool {
        true
    }

    open spec fn from_spec(v: OrderedList) -> Block {
        Block::OrderedList(v)
    }
}

impl TryFrom<Block> for OrderedList {
    type Error = Error;

    /// The node inside, where the value is of this kind; else the failure
    /// "wrong variant".
    fn try_from(v: Block) -> (r: Result<OrderedList, Error>)
        ensures
            match v {
                Block::OrderedList(x) => r == Ok::<OrderedList, Error>(x),
                _ => r is Err && r->Err_0@ == wrong_variant(),
            },
    {
        match v {
            Block::OrderedList(x) => Ok(x),
            _ => Err(Error::general("wrong variant")),
        }
    }
}

impl TryFromSpecImpl<Block> for OrderedList {
    // A failure holds a string, which only executable code can make: the
    // contract stands on `try_from` itself.
    open spec fn obeys_try_from_spec() -> bool {
        false
    }

    open spec fn try_from_spec(v: Block) -> Result<OrderedList, Error> {
        match v {
            Block::OrderedList(x) => Ok(x),
            _ => Err(arbitrary()),
        }
    }
}

impl From<BulletList> for Block {
    fn from(v: BulletList) -> (r: Block) {
        Block::BulletList(v)
    }
}

impl FromSpecImpl<BulletList> for Block {
    open spec fn obeys_from_spec() -> bool {
        true
    }

    open spec fn from_spec(v: BulletList) -> Block {
        Block::BulletList(v)
    }
}

impl TryFrom<Block> for BulletList {
    type Error = Error;

    /// The node inside, where the value is of this kind; else the failure
    /// "wrong variant".
    fn try_from(v: Block) -> (r: Result<BulletList, Error>)
        ensures
            match v {
                Block::BulletList(x) => r == Ok::<BulletList, Error>(x),
                _ => r is Err && r->Err_0@ == wrong_variant(),
            },
    {
        match v {
            Block::BulletList(x) => Ok(x),
            _ => Err(Error::general("wrong variant")),
        }
    }
}

impl TryFromSpecImpl<Block> for BulletList {
    // A failure holds a string, which only executable code can make: the
    // contract stands on `try_from` itself.
    open spec fn obeys_try_from_spec() -> bool {
        false
    }

    open spec fn try_from_spec(v: Block) -> Result<BulletList, Error> {
        match v {
            Block::BulletList(x) => Ok(x),
            _ => Err(arbitrary()),
        }
    }
}

impl From<TaskList> for Block {
    fn from(v: TaskList) -> (r: Block) {
        Block::TaskList(v)
    }
}

impl FromSpecImpl<TaskList> for Block {
    open spec fn obeys_from_spec() -> bool {
        true
    }

    open spec fn from_spec(v: TaskList) -> Block {
        Block::TaskList(v)
    }
}

impl TryFrom<Block> for TaskList {
    type Error = Error;

    /// The node inside, where the value is of this kind; else the failure
    /// "wrong variant".
    fn try_from(v: Block) -> (r: Result<TaskList, Error>)
        ensures
            match v {
                Block::TaskList(x) => r == Ok::<TaskList, Error>(x),
                _ => r is Err && r->Err_0@ == wrong_variant(),
            },
    {
        match v {
            Block::TaskList(x) => Ok(x),
            _ => Err(Error::general("wrong variant")),
        }
    }
}

impl TryFromSpecImpl<Block> for TaskList {
    // A failure holds a string, which only executable code can make: the
    // contract stands on `try_from` itself.
    open spec fn obeys_try_from_spec() -> bool {
        false
    }

    open spec fn try_from_spec(v: Block) -> Result<TaskList, Error> {
        match v {
            Block::TaskList(x) => Ok(x),
            _ => Err(arbitrary()),
        }
    }
}

impl From<DefinitionList> for Block {
    fn from(v: DefinitionList) -> (r: Block) {
        Block::DefinitionList(v)
    }
}

impl FromSpecImpl<DefinitionList> for Block {
    open spec fn obeys_from_spec() -> bool {
        true
    }

    open spec fn from_spec(v: DefinitionList) -> Block {
        Block::DefinitionList(v)
    }
}

impl TryFrom<Block> for DefinitionList {
    type Error = Error;

    /// The node inside, where the value is of this kind; else the failure
    /// "wrong variant".
    fn try_from(v: Block) -> (r: Result<DefinitionList, Error>)
        ensures
            match v {
                Block::DefinitionList(x) => r == Ok::<DefinitionList, Error>(x),
                _ => r is Err && r->Err_0@ == wrong_variant(),
            },
    {
        match v {
            Block::DefinitionList(x) => Ok(x),
            _ => Err(Error::general("wrong variant")),
        }
    }
}

impl TryFromSpecImpl<Block> for DefinitionList {
    // A failure holds a string, which only executable code can make: the
    // contract stands on `try_from` itself.
    open spec fn obeys_try_from_spec() -> bool {
        false
    }

    open spec fn try_from_spec(v: Block) -> Result<DefinitionList, Error> {
        match v {
            Block::DefinitionList(x) => Ok(x),
            _ => Err(arbitrary()),
        }
    }
}

impl From<Table> for Block {
    fn from(v: Table) -> (r: Block) {
        Block::Table(v)
    }
}

impl FromSpecImpl<Table> for Block {
    open spec fn obeys_from_spec() -> bool {
        true
    }

    open spec fn from_spec(v: Table) -> Block {
        Block::Table(v)
    }
}

impl TryFrom<Block> for Table {
    type Error = Error;

    /// The node inside, where the value is of this kind; else the failure
    /// "wrong variant".
    fn try_from(v: Block) -> (r: Result<Table, Error>)
        ensures
            match v {
                Block::Table(x) => r == Ok::<Table, Error>(x),
                _ => r is Err && r->Err_0@ == wrong_variant(),
            },
    {
        match v {
            Block::Table(x) => Ok(x),
            _ => Err(Error::general("wrong variant")),
        }
    }
}

impl TryFromSpecImpl<Block> for Table {
    // A failure holds a string, which only executable code can make: the
    // contract stands on `try_from` itself.
    open spec fn obeys_try_from_spec() -> bool {
        false
    }

    open spec fn try_from_spec(v: Block) -> Result<Table, Error> {
        match v {
            Block::Table(x) => Ok(x),
            _ => Err(arbitrary()),
        }
    }
}

/// A paragraph.
#[derive(Debug, PartialEq, Eq)]
pub struct Para {
    pub children: Vec<Inline>,
    pub meta: Meta,
}

/// The mathematical value of a [`Para`].
pub struct ParaView {
    pub children: Seq<InlineView>,
    pub meta: MetaView,
}

impl View for Para {
    type V = ParaView;

    open spec fn view(&self) -> ParaView
    {
        ParaView {
            children: Inline::views(self.children@),
            meta: self.meta@,
        }
    }
}

impl ParaView {
    /// The fields of the encoded node, before its metadata joins them.
    pub open spec fn fields(self) -> Map<Seq<char>, ValueView>
    {
        tagged("para"@).insert(
            "children"@,
            ValueView::Array(InlineView::encode_all(self.children)),
        )
    }

    /// The encoded node: its discriminator, its fields and its metadata.
    pub open spec fn encode(self) -> ValueView
    {
        ValueView::Object(self.meta.flatten(self.fields()))
    }

    /// The node that an encoded value holds, or why it holds none.
    pub open spec fn decode(v: ValueView) -> Result<ParaView, ErrorView>
    {
        match v.expect_tag("para"@) {
            Err(e) => Err(e),
            Ok(_) => match (match v.array("children"@) {
                Err(e) => Err(e),
                Ok(items) => InlineView::decode_all(items),
            }) {
                Err(e) => Err(e),
                Ok(children) => match MetaView::decode(v) {
                    Err(e) => Err(e),
                    Ok(meta) => Ok(ParaView { children, meta }),
                },
            },
        }
    }

    /// Decoding the encoded node gives the node back.
    pub proof fn lemma_roundtrip(self)
        ensures
            ParaView::decode(self.encode()) == Ok::<ParaView, ErrorView>(self),
    {
        lemma_names();
        let base = self.fields();
        lemma_flatten_keeps(self.meta, base, "tag"@);
        lemma_flatten_keeps(self.meta, base, "children"@);
        lemma_meta_roundtrip(self.meta, base);
        InlineView::lemma_roundtrip_all(self.children);
    }
}

impl Para {
    /// A node with the given content and no metadata.
    pub fn new(children: Vec<Inline>) -> (r: Para)
        ensures
            r.children == children,
            r.meta@ == MetaView::empty(),
    {
        Para { children, meta: Meta::default() }
    }

    /// Encodes the node. No object of the result has two fields of one
    /// name.
    pub fn encode(&self) -> (v: Value)
        ensures
            v@ == self@.encode(),
            v.unambiguous(),
    {
        proof {
            lemma_names();
        }
        let mut fields = Value::tagged("para");
        Value::put(&mut fields, "children", Value::Array(Inline::encode_all(&self.children)));
        self.meta.flatten(&mut fields);
        Value::Object(fields)
    }

    /// Decodes a node of this kind. The value must be an object with the
    /// discriminator `para` and each field of the node; the first thing
    /// found wrong is the failure.
    pub fn decode(v: &Value) -> (r: Result<Para, Error>)
        ensures
            agrees(r, ParaView::decode(v@)),
    {
        v.expect_tag("para")?;
        let children = Inline::decode_all(v.array_field("children")?)?;
        let meta = Meta::decode(v)?;
        Ok(Para { children, meta })
    }
}

impl Node for Para {
    open spec fn spec_node_type(&self) -> NodeType {
        NodeType::Branch(self.children@.len() as usize)
    }

    fn node_type(&self) -> (t: NodeType) {
        NodeType::Branch(self.children.len())
    }
}

impl HasMeta for Para {
    open spec fn spec_meta(&self) -> Meta {
        self.meta
    }

    open spec fn with_meta(&self, meta: Meta) -> Para {
        Para { meta, ..*self }
    }

    fn meta(&self) -> (r: &Meta) {
        &self.meta
    }

    fn meta_mut(&mut self) -> (r: &mut Meta) {
        &mut self.meta
    }
}

impl Clone for Para {
    fn clone(&self) -> (r: Para)
        ensures
            r@ == self@,
    {
        let children = Inline::clone_all(&self.children);
        let meta = self.meta.clone();
        Para { children, meta }
    }
}

/// A heading and its level, which counts from 1.
#[derive(Debug, PartialEq, Eq)]
pub struct Heading {
    pub level: u64,
    pub children: Vec<Inline>,
    pub meta: Meta,
}

/// The mathematical value of a [`Heading`].
pub struct HeadingView {
    pub level: u64,
    pub children: Seq<InlineView>,
    pub meta: MetaView,
}

impl View for Heading {
    type V = HeadingView;

    open spec fn view(&self) -> HeadingView
    {
        HeadingView {
            level: self.level,
            children: Inline::views(self.children@),
            meta: self.meta@,
        }
    }
}

impl HeadingView {
    /// The fields of the encoded node, before its metadata joins them.
    pub open spec fn fields(self) -> Map<Seq<char>, ValueView>
    {
        tagged("heading"@).insert(
            "level"@,
            ValueView::Number(self.level),
        ).insert(
            "children"@,
            ValueView::Array(InlineView::encode_all(self.children)),
        )
    }

    /// The encoded node: its discriminator, its fields and its metadata.
    pub open spec fn encode(self) -> ValueView
    {
        ValueView::Object(self.meta.flatten(self.fields()))
    }

    /// The node that an encoded value holds, or why it holds none.
    pub open spec fn decode(v: ValueView) -> Result<HeadingView, ErrorView>
    {
        match v.expect_tag("heading"@) {
            Err(e) => Err(e),
            Ok(_) => match v.number("level"@) {
                Err(e) => Err(e),
                Ok(level) => match (match v.array("children"@) {
                    Err(e) => Err(e),
                    Ok(items) => InlineView::decode_all(items),
                }) {
                    Err(e) => Err(e),
                    Ok(children) => match MetaView::decode(v) {
                        Err(e) => Err(e),
                        Ok(meta) => Ok(HeadingView { level, children, meta }),
                    },
                },
            },
        }
    }

    /// Decoding the encoded node gives the node back.
    pub proof fn lemma_roundtrip(self)
        ensures
            HeadingView::decode(self.encode()) == Ok::<HeadingView, ErrorView>(self),
    {
        lemma_names();
        let base = self.fields();
        lemma_flatten_keeps(self.meta, base, "tag"@);
        lemma_flatten_keeps(self.meta, base, "level"@);
        lemma_flatten_keeps(self.meta, base, "children"@);
        lemma_meta_roundtrip(self.meta, base);
        InlineView::lemma_roundtrip_all(self.children);
    }
}

impl Heading {
    /// A node with the given content and no metadata.
    pub fn new(level: u64, children: Vec<Inline>) -> (r: Heading)
        ensures
            r.level == level,
            r.children == children,
            r.meta@ == MetaView::empty(),
    {
        Heading { level, children, meta: Meta::default() }
    }

    /// Encodes the node. No object of the result has two fields of one
    /// name.
    pub fn encode(&self) -> (v: Value)
        ensures
            v@ == self@.encode(),
            v.unambiguous(),
    {
        proof {
            lemma_names();
        }
        let mut fields = Value::tagged("heading");
        Value::put(&mut fields, "level", Value::Number(self.level));
        Value::put(&mut fields, "children", Value::Array(Inline::encode_all(&self.children)));
        self.meta.flatten(&mut fields);
        Value::Object(fields)
    }

    /// Decodes a node of this kind. The value must be an object with the
    /// discriminator `heading` and each field of the node; the first thing
    /// found wrong is the failure.
    pub fn decode(v: &Value) -> (r: Result<Heading, Error>)
        ensures
            agrees(r, HeadingView::decode(v@)),
    {
        v.expect_tag("heading")?;
        let level = v.number_field("level")?;
        let children = Inline::decode_all(v.array_field("children")?)?;
        let meta = Meta::decode(v)?;
        Ok(Heading { level, children, meta })
    }
}

impl Node for Heading {
    open spec fn spec_node_type(&self) -> NodeType {
        NodeType::Branch(self.children@.len() as usize)
    }

    fn node_type(&self) -> (t: NodeType) {
        NodeType::Branch(self.children.len())
    }
}

impl HasMeta for Heading {
    open spec fn spec_meta(&self) -> Meta {
        self.meta
    }

    open spec fn with_meta(&self, meta: Meta) -> Heading {
        Heading { meta, ..*self }
    }

    fn meta(&self) -> (r: &Meta) {
        &self.meta
    }

    fn meta_mut(&mut self) -> (r: &mut Meta) {
        &mut self.meta
    }
}

impl Clone for Heading {
    fn clone(&self) -> (r: Heading)
        ensures
            r@ == self@,
    {
        let level = self.level;
        let children = Inline::clone_all(&self.children);
        let meta = self.meta.clone();
        Heading { level, children, meta }
    }
}

/// A break between themes.
#[derive(Debug, PartialEq, Eq)]
pub struct ThematicBreak {
    pub meta: Meta,
}

/// The mathematical value of a [`ThematicBreak`].
pub struct ThematicBreakView {
    pub meta: MetaView,
}

impl View for ThematicBreak {
    type V = ThematicBreakView;

    open spec fn view(&self) -> ThematicBreakView
    {
        ThematicBreakView {
            meta: self.meta@,
        }
    }
}

impl ThematicBreakView {
    /// The fields of the encoded node, before its metadata joins them.
    pub open spec fn fields(self) -> Map<Seq<char>, ValueView>
    {
        tagged("thematic_break"@)
    }

    /// The encoded node: its discriminator, its fields and its metadata.
    pub open spec fn encode(self) -> ValueView
    {
        ValueView::Object(self.meta.flatten(self.fields()))
    }

    /// The node that an encoded value holds, or why it holds none.
    pub open spec fn decode(v: ValueView) -> Result<ThematicBreakView, ErrorView>
    {
        match v.expect_tag("thematic_break"@) {
            Err(e) => Err(e),
            Ok(_) => match MetaView::decode(v) {
                Err(e) => Err(e),
                Ok(meta) => Ok(ThematicBreakView { meta }),
            },
        }
    }

    /// Decoding the encoded node gives the node back.
    pub proof fn lemma_roundtrip(self)
        ensures
            ThematicBreakView::decode(self.encode()) == Ok::<ThematicBreakView, ErrorView>(self),
    {
        lemma_names();
        let base = self.fields();
        lemma_flatten_keeps(self.meta, base, "tag"@);
        lemma_meta_roundtrip(self.meta, base);
    }
}

impl ThematicBreak {
    /// A node with the given content and no metadata.
    pub fn new() -> (r: ThematicBreak)
        ensures
            r.meta@ == MetaView::empty(),
    {
        ThematicBreak { meta: Meta::default() }
    }

    /// Encodes the node. No object of the result has two fields of one
    /// name.
    pub fn encode(&self) -> (v: Value)
        ensures
            v@ == self@.encode(),
            v.unambiguous(),
    {
        proof {
            lemma_names();
        }
        let mut fields = Value::tagged("thematic_break");
        self.meta.flatten(&mut fields);
        Value::Object(fields)
    }

    /// Decodes a node of this kind. The value must be an object with the
    /// discriminator `thematic_break` and each field of the node; the first thing
    /// found wrong is the failure.
    pub fn decode(v: &Value) -> (r: Result<ThematicBreak, Error>)
        ensures
            agrees(r, ThematicBreakView::decode(v@)),
    {
        v.expect_tag("thematic_break")?;
        let meta = Meta::decode(v)?;
        Ok(ThematicBreak { meta })
    }
}

impl Node for ThematicBreak {
    open spec fn spec_node_type(&self) -> NodeType {
        NodeType::Leaf
    }

    fn node_type(&self) -> (t: NodeType) {
        NodeType::Leaf
    }
}

impl HasMeta for ThematicBreak {
    open spec fn spec_meta(&self) -> Meta {
        self.meta
    }

    open spec fn with_meta(&self, meta: Meta) -> ThematicBreak {
        ThematicBreak { meta, ..*self }
    }

    fn meta(&self) -> (r: &Meta) {
        &self.meta
    }

    fn meta_mut(&mut self) -> (r: &mut Meta) {
        &mut self.meta
    }
}

impl Clone for ThematicBreak {
    fn clone(&self) -> (r: ThematicBreak)
        ensures
            r@ == self@,
    {
        let meta = self.meta.clone();
        ThematicBreak { meta }
    }
}

/// A section of the document.
#[derive(Debug, PartialEq, Eq)]
pub struct Section {
    pub children: Vec<Block>,
    pub meta: Meta,
}

/// The mathematical value of a [`Section`].
pub struct SectionView {
    pub children: Seq<BlockView>,
    pub meta: MetaView,
}

impl View for Section {
    type V = SectionView;

    open spec fn view(&self) -> SectionView
        decreases self,
    {
        SectionView {
            children: Block::views(self.children@),
            meta: self.meta@,
        }
    }
}

impl SectionView {
    /// The fields of the encoded node, before its metadata joins them.
    pub open spec fn fields(self) -> Map<Seq<char>, ValueView>
        decreases self, 0int,
    {
        tagged("section"@).insert(
            "children"@,
            ValueView::Array(BlockView::encode_all(self.children)),
        )
    }

    /// The encoded node: its discriminator, its fields and its metadata.
    pub open spec fn encode(self) -> ValueView
        decreases self, 1int,
    {
        ValueView::Object(self.meta.flatten(self.fields()))
    }

    /// The node that an encoded value holds, or why it holds none.
    pub open spec fn decode(v: ValueView) -> Result<SectionView, ErrorView>
        decreases v, 0int,
    {
        match v.expect_tag("section"@) {
            Err(e) => Err(e),
            Ok(_) => match (match v.array("children"@) {
                Err(e) => Err(e),
                Ok(items) => BlockView::decode_all(items),
            }) {
                Err(e) => Err(e),
                Ok(children) => match MetaView::decode(v) {
                    Err(e) => Err(e),
                    Ok(meta) => Ok(SectionView { children, meta }),
                },
            },
        }
    }

    /// Decoding the encoded node gives the node back.
    pub proof fn lemma_roundtrip(self)
        ensures
            SectionView::decode(self.encode()) == Ok::<SectionView, ErrorView>(self),
        decreases self,
    {
        lemma_names();
        let base = self.fields();
        lemma_flatten_keeps(self.meta, base, "tag"@);
        lemma_flatten_keeps(self.meta, base, "children"@);
        lemma_meta_roundtrip(self.meta, base);
        BlockView::lemma_roundtrip_all(self.children);
    }
}

impl Section {
    /// A node with the given content and no metadata.
    pub fn new(children: Vec<Block>) -> (r: Section)
        ensures
            r.children == children,
            r.meta@ == MetaView::empty(),
    {
        Section { children, meta: Meta::default() }
    }

    /// Encodes the node. No object of the result has two fields of one
    /// name.
    pub fn encode(&self) -> (v: Value)
        ensures
            v@ == self@.encode(),
            v.unambiguous(),
        decreases self,
    {
        proof {
            lemma_names();
        }
        let mut fields = Value::tagged("section");
        Value::put(&mut fields, "children", Value::Array(Block::encode_all(&self.children)));
        self.meta.flatten(&mut fields);
        Value::Object(fields)
    }

    /// Decodes a node of this kind. The value must be an object with the
    /// discriminator `section` and each field of the node; the first thing
    /// found wrong is the failure.
    pub fn decode(v: &Value) -> (r: Result<Section, Error>)
        ensures
            agrees(r, SectionView::decode(v@)),
        decreases v@, 0int,
    {
        v.expect_tag("section")?;
        let children = Block::decode_all(v.array_field("children")?)?;
        let meta = Meta::decode(v)?;
        Ok(Section { children, meta })
    }
}

impl Node for Section {
    open spec fn spec_node_type(&self) -> NodeType {
        NodeType::Branch(self.children@.len() as usize)
    }

    fn node_type(&self) -> (t: NodeType) {
        NodeType::Branch(self.children.len())
    }
}

impl HasMeta for Section {
    open spec fn spec_meta(&self) -> Meta {
        self.meta
    }

    open spec fn with_meta(&self, meta: Meta) -> Section {
        Section { meta, ..*self }
    }

    fn meta(&self) -> (r: &Meta) {
        &self.meta
    }

    fn meta_mut(&mut self) -> (r: &mut Meta) {
        &mut self.meta
    }
}

impl Clone for Section {
    fn clone(&self) -> (r: Section)
        ensures
            r@ == self@,
        decreases self,
    {
        let children = Block::clone_all(&self.children);
        let meta = self.meta.clone();
        Section { children, meta }
    }
}

/// Blocks that only carry attributes.
#[derive(Debug, PartialEq, Eq)]
pub struct Div {
    pub children: Vec<Block>,
    pub meta: Meta,
}

/// The mathematical value of a [`Div`].
pub struct DivView {
    pub children: Seq<BlockView>,
    pub meta: MetaView,
}

impl View for Div {
    type V = DivView;

    open spec fn view(&self) -> DivView
        decreases self,
    {
        DivView {
            children: Block::views(self.children@),
            meta: self.meta@,
        }
    }
}

impl DivView {
    /// The fields of the encoded node, before its metadata joins them.
    pub open spec fn fields(self) -> Map<Seq<char>, ValueView>
        decreases self, 0int,
    {
        tagged("div"@).insert(
            "children"@,
            ValueView::Array(BlockView::encode_all(self.children)),
        )
    }

    /// The encoded node: its discriminator, its fields and its metadata.
    pub open spec fn encode(self) -> ValueView
        decreases self, 1int,
    {
        ValueView::Object(self.meta.flatten(self.fields()))
    }

    /// The node that an encoded value holds, or why it holds none.
    pub open spec fn decode(v: ValueView) -> Result<DivView, ErrorView>
        decreases v, 0int,
    {
        match v.expect_tag("div"@) {
            Err(e) => Err(e),
            Ok(_) => match (match v.array("children"@) {
                Err(e) => Err(e),
                Ok(items) => BlockView::decode_all(items),
            }) {
                Err(e) => Err(e),
                Ok(children) => match MetaView::decode(v) {
                    Err(e) => Err(e),
                    Ok(meta) => Ok(DivView { children, meta }),
                },
            },
        }
    }

    /// Decoding the encoded node gives the node back.
    pub proof fn lemma_roundtrip(self)
        ensures
            DivView::decode(self.encode()) == Ok::<DivView, ErrorView>(self),
        decreases self,
    {
        lemma_names();
        let base = self.fields();
        lemma_flatten_keeps(self.meta, base, "tag"@);
        lemma_flatten_keeps(self.meta, base, "children"@);
        lemma_meta_roundtrip(self.meta, base);
        BlockView::lemma_roundtrip_all(self.children);
    }
}

impl Div {
    /// A node with the given content and no metadata.
    pub fn new(children: Vec<Block>) -> (r: Div)
        ensures
            r.children == children,
            r.meta@ == MetaView::empty(),
    {
        Div { children, meta: Meta::default() }
    }

    /// Encodes the node. No object of the result has two fields of one
    /// name.
    pub fn encode(&self) -> (v: Value)
        ensures
            v@ == self@.encode(),
            v.unambiguous(),
        decreases self,
    {
        proof {
            lemma_names();
        }
        let mut fields = Value::tagged("div");
        Value::put(&mut fields, "children", Value::Array(Block::encode_all(&self.children)));
        self.meta.flatten(&mut fields);
        Value::Object(fields)
    }

    /// Decodes a node of this kind. The value must be an object with the
    /// discriminator `div` and each field of the node; the first thing
    /// found wrong is the failure.
    pub fn decode(v: &Value) -> (r: Result<Div, Error>)
        ensures
            agrees(r, DivView::decode(v@)),
        decreases v@, 0int,
    {
        v.expect_tag("div")?;
        let children = Block::decode_all(v.array_field("children")?)?;
        let meta = Meta::decode(v)?;
        Ok(Div { children, meta })
    }
}

impl Node for Div {
    open spec fn spec_node_type(&self) -> NodeType {
        NodeType::Branch(self.children@.len() as usize)
    }

    fn node_type(&self) -> (t: NodeType) {
        NodeType::Branch(self.children.len())
    }
}

impl HasMeta for Div {
    open spec fn spec_meta(&self) -> Meta {
        self.meta
    }

    open spec fn with_meta(&self, meta: Meta) -> Div {
        Div { meta, ..*self }
    }

    fn meta(&self) -> (r: &Meta) {
        &self.meta
    }

    fn meta_mut(&mut self) -> (r: &mut Meta) {
        &mut self.meta
    }
}

impl Clone for Div {
    fn clone(&self) -> (r: Div)
        ensures
            r@ == self@,
        decreases self,
    {
        let children = Block::clone_all(&self.children);
        let meta = self.meta.clone();
        Div { children, meta }
    }
}

/// A block of code, with its language where one is given.
#[derive(Debug, PartialEq, Eq)]
pub struct CodeBlock {
    pub lang: Option<String>,
    pub text: String,
    pub meta: Meta,
}

/// The mathematical value of a [`CodeBlock`].
pub struct CodeBlockView {
    pub lang: Option<Seq<char>>,
    pub text: Seq<char>,
    pub meta: MetaView,
}

impl View for CodeBlock {
    type V = CodeBlockView;

    open spec fn view(&self) -> CodeBlockView
    {
        CodeBlockView {
            lang: text_view(self.lang),
            text: self.text@,
            meta: self.meta@,
        }
    }
}

impl CodeBlockView {
    /// The fields of the encoded node, before its metadata joins them.
    pub open spec fn fields(self) -> Map<Seq<char>, ValueView>
    {
        tagged("code_block"@).insert(
            "lang"@,
            text_or_null(self.lang),
        ).insert(
            "text"@,
            ValueView::Text(self.text),
        )
    }

    /// The encoded node: its discriminator, its fields and its metadata.
    pub open spec fn encode(self) -> ValueView
    {
        ValueView::Object(self.meta.flatten(self.fields()))
    }

    /// The node that an encoded value holds, or why it holds none.
    pub open spec fn decode(v: ValueView) -> Result<CodeBlockView, ErrorView>
    {
        match v.expect_tag("code_block"@) {
            Err(e) => Err(e),
            Ok(_) => match v.optional_text("lang"@) {
                Err(e) => Err(e),
                Ok(lang) => match v.text("text"@) {
                    Err(e) => Err(e),
                    Ok(text) => match MetaView::decode(v) {
                        Err(e) => Err(e),
                        Ok(meta) => Ok(CodeBlockView { lang, text, meta }),
                    },
                },
            },
        }
    }

    /// Decoding the encoded node gives the node back.
    pub proof fn lemma_roundtrip(self)
        ensures
            CodeBlockView::decode(self.encode()) == Ok::<CodeBlockView, ErrorView>(self),
    {
        lemma_names();
        let base = self.fields();
        lemma_flatten_keeps(self.meta, base, "tag"@);
        lemma_flatten_keeps(self.meta, base, "lang"@);
        lemma_flatten_keeps(self.meta, base, "text"@);
        lemma_meta_roundtrip(self.meta, base);
    }
}

impl CodeBlock {
    /// A node with the given content and no metadata.
    pub fn new(lang: Option<String>, text: String) -> (r: CodeBlock)
        ensures
            r.lang == lang,
            r.text == text,
            r.meta@ == MetaView::empty(),
    {
        CodeBlock { lang, text, meta: Meta::default() }
    }

    /// Encodes the node. No object of the result has two fields of one
    /// name.
    pub fn encode(&self) -> (v: Value)
        ensures
            v@ == self@.encode(),
            v.unambiguous(),
    {
        proof {
            lemma_names();
        }
        let mut fields = Value::tagged("code_block");
        Value::put(&mut fields, "lang", Value::text_or_null(&self.lang));
        Value::put(&mut fields, "text", Value::Text(self.text.clone()));
        self.meta.flatten(&mut fields);
        Value::Object(fields)
    }

    /// Decodes a node of this kind. The value must be an object with the
    /// discriminator `code_block` and each field of the node; the first thing
    /// found wrong is the failure.
    pub fn decode(v: &Value) -> (r: Result<CodeBlock, Error>)
        ensures
            agrees(r, CodeBlockView::decode(v@)),
    {
        v.expect_tag("code_block")?;
        let lang = v.optional_text_field("lang")?;
        let text = v.text_field("text")?.clone();
        let meta = Meta::decode(v)?;
        Ok(CodeBlock { lang, text, meta })
    }
}

impl Node for CodeBlock {
    open spec fn spec_node_type(&self) -> NodeType {
        NodeType::Leaf
    }

    fn node_type(&self) -> (t: NodeType) {
        NodeType::Leaf
    }
}

impl HasMeta for CodeBlock {
    open spec fn spec_meta(&self) -> Meta {
        self.meta
    }

    open spec fn with_meta(&self, meta: Meta) -> CodeBlock {
        CodeBlock { meta, ..*self }
    }

    fn meta(&self) -> (r: &Meta) {
        &self.meta
    }

    fn meta_mut(&mut self) -> (r: &mut Meta) {
        &mut self.meta
    }
}

impl Clone for CodeBlock {
    fn clone(&self) -> (r: CodeBlock)
        ensures
            r@ == self@,
    {
        let lang = self.lang.clone();
        let text = self.text.clone();
        let meta = self.meta.clone();
        CodeBlock { lang, text, meta }
    }
}

/// A block passed through to one output format.
#[derive(Debug, PartialEq, Eq)]
pub struct RawBlock {
    pub format: String,
    pub text: String,
    pub meta: Meta,
}

/// The mathematical value of a [`RawBlock`].
pub struct RawBlockView {
    pub format: Seq<char>,
    pub text: Seq<char>,
    pub meta: MetaView,
}

impl View for RawBlock {
    type V = RawBlockView;

    open spec fn view(&self) -> RawBlockView
    {
        RawBlockView {
            format: self.format@,
            text: self.text@,
            meta: self.meta@,
        }
    }
}

impl RawBlockView {
    /// The fields of the encoded node, before its metadata joins them.
    pub open spec fn fields(self) -> Map<Seq<char>, ValueView>
    {
        tagged("raw_block"@).insert(
            "format"@,
            ValueView::Text(self.format),
        ).insert(
            "text"@,
            ValueView::Text(self.text),
        )
    }

    /// The encoded node: its discriminator, its fields and its metadata.
    pub open spec fn encode(self) -> ValueView
    {
        ValueView::Object(self.meta.flatten(self.fields()))
    }

    /// The node that an encoded value holds, or why it holds none.
    pub open spec fn decode(v: ValueView) -> Result<RawBlockView, ErrorView>
    {
        match v.expect_tag("raw_block"@) {
            Err(e) => Err(e),
            Ok(_) => match v.text("format"@) {
                Err(e) => Err(e),
                Ok(format) => match v.text("text"@) {
                    Err(e) => Err(e),
                    Ok(text) => match MetaView::decode(v) {
                        Err(e) => Err(e),
                        Ok(meta) => Ok(RawBlockView { format, text, meta }),
                    },
                },
            },
        }
    }

    /// Decoding the encoded node gives the node back.
    pub proof fn lemma_roundtrip(self)
        ensures
            RawBlockView::decode(self.encode()) == Ok::<RawBlockView, ErrorView>(self),
    {
        lemma_names();
        let base = self.fields();
        lemma_flatten_keeps(self.meta, base, "tag"@);
        lemma_flatten_keeps(self.meta, base, "format"@);
        lemma_flatten_keeps(self.meta, base, "text"@);
        lemma_meta_roundtrip(self.meta, base);
    }
}

impl RawBlock {
    /// A node with the given content and no metadata.
    pub fn new(format: String, text: String) -> (r: RawBlock)
        ensures
            r.format == format,
            r.text == text,
            r.meta@ == MetaView::empty(),
    {
        RawBlock { format, text, meta: Meta::default() }
    }

    /// Encodes the node. No object of the result has two fields of one
    /// name.
    pub fn encode(&self) -> (v: Value)
        ensures
            v@ == self@.encode(),
            v.unambiguous(),
    {
        proof {
            lemma_names();
        }
        let mut fields = Value::tagged("raw_block");
        Value::put(&mut fields, "format", Value::Text(self.format.clone()));
        Value::put(&mut fields, "text", Value::Text(self.text.clone()));
        self.meta.flatten(&mut fields);
        Value::Object(fields)
    }

    /// Decodes a node of this kind. The value must be an object with the
    /// discriminator `raw_block` and each field of the node; the first thing
    /// found wrong is the failure.
    pub fn decode(v: &Value) -> (r: Result<RawBlock, Error>)
        ensures
            agrees(r, RawBlockView::decode(v@)),
    {
        v.expect_tag("raw_block")?;
        let format = v.text_field("format")?.clone();
        let text = v.text_field("text")?.clone();
        let meta = Meta::decode(v)?;
        Ok(RawBlock { format, text, meta })
    }
}

impl Node for RawBlock {
    open spec fn spec_node_type(&self) -> NodeType {
        NodeType::Leaf
    }

    fn node_type(&self) -> (t: NodeType) {
        NodeType::Leaf
    }
}

impl HasMeta for RawBlock {
    open spec fn spec_meta(&self) -> Meta {
        self.meta
    }

    open spec fn with_meta(&self, meta: Meta) -> RawBlock {
        RawBlock { meta, ..*self }
    }

    fn meta(&self) -> (r: &Meta) {
        &self.meta
    }

    fn meta_mut(&mut self) -> (r: &mut Meta) {
        &mut self.meta
    }
}

impl Clone for RawBlock {
    fn clone(&self) -> (r: RawBlock)
        ensures
            r@ == self@,
    {
        let format = self.format.clone();
        let text = self.text.clone();
        let meta = self.meta.clone();
        RawBlock { format, text, meta }
    }
}

/// Quoted blocks.
#[derive(Debug, PartialEq, Eq)]
pub struct BlockQuote {
    pub children: Vec<Block>,
    pub meta: Meta,
}

/// The mathematical value of a [`BlockQuote`].
pub struct BlockQuoteView {
    pub children: Seq<BlockView>,
    pub meta: MetaView,
}

impl View for BlockQuote {
    type V = BlockQuoteView;

    open spec fn view(&self) -> BlockQuoteView
        decreases self,
    {
        BlockQuoteView {
            children: Block::views(self.children@),
            meta: self.meta@,
        }
    }
}

impl BlockQuoteView {
    /// The fields of the encoded node, before its metadata joins them.
    pub open spec fn fields(self) -> Map<Seq<char>, ValueView>
        decreases self, 0int,
    {
        tagged("block_quote"@).insert(
            "children"@,
            ValueView::Array(BlockView::encode_all(self.children)),
        )
    }

    /// The encoded node: its discriminator, its fields and its metadata.
    pub open spec fn encode(self) -> ValueView
        decreases self, 1int,
    {
        ValueView::Object(self.meta.flatten(self.fields()))
    }

    /// The node that an encoded value holds, or why it holds none.
    pub open spec fn decode(v: ValueView) -> Result<BlockQuoteView, ErrorView>
        decreases v, 0int,
    {
        match v.expect_tag("block_quote"@) {
            Err(e) => Err(e),
            Ok(_) => match (match v.array("children"@) {
                Err(e) => Err(e),
                Ok(items) => BlockView::decode_all(items),
            }) {
                Err(e) => Err(e),
                Ok(children) => match MetaView::decode(v) {
                    Err(e) => Err(e),
                    Ok(meta) => Ok(BlockQuoteView { children, meta }),
                },
            },
        }
    }

    /// Decoding the encoded node gives the node back.
    pub proof fn lemma_roundtrip(self)
        ensures
            BlockQuoteView::decode(self.encode()) == Ok::<BlockQuoteView, ErrorView>(self),
        decreases self,
    {
        lemma_names();
        let base = self.fields();
        lemma_flatten_keeps(self.meta, base, "tag"@);
        lemma_flatten_keeps(self.meta, base, "children"@);
        lemma_meta_roundtrip(self.meta, base);
        BlockView::lemma_roundtrip_all(self.children);
    }
}

impl BlockQuote {
    /// A node with the given content and no metadata.
    pub fn new(children: Vec<Block>) -> (r: BlockQuote)
        ensures
            r.children == children,
            r.meta@ == MetaView::empty(),
    {
        BlockQuote { children, meta: Meta::default() }
    }

    /// Encodes the node. No object of the result has two fields of one
    /// name.
    pub fn encode(&self) -> (v: Value)
        ensures
            v@ == self@.encode(),
            v.unambiguous(),
        decreases self,
    {
        proof {
            lemma_names();
        }
        let mut fields = Value::tagged("block_quote");
        Value::put(&mut fields, "children", Value::Array(Block::encode_all(&self.children)));
        self.meta.flatten(&mut fields);
        Value::Object(fields)
    }

    /// Decodes a node of this kind. The value must be an object with the
    /// discriminator `block_quote` and each field of the node; the first thing
    /// found wrong is the failure.
    pub fn decode(v: &Value) -> (r: Result<BlockQuote, Error>)
        ensures
            agrees(r, BlockQuoteView::decode(v@)),
        decreases v@, 0int,
    {
        v.expect_tag("block_quote")?;
        let children = Block::decode_all(v.array_field("children")?)?;
        let meta = Meta::decode(v)?;
        Ok(BlockQuote { children, meta })
    }
}

impl Node for BlockQuote {
    open spec fn spec_node_type(&self) -> NodeType {
        NodeType::Branch(self.children@.len() as usize)
    }

    fn node_type(&self) -> (t: NodeType) {
        NodeType::Branch(self.children.len())
    }
}

impl HasMeta for BlockQuote {
    open spec fn spec_meta(&self) -> Meta {
        self.meta
    }

    open spec fn with_meta(&self, meta: Meta) -> BlockQuote {
        BlockQuote { meta, ..*self }
    }

    fn meta(&self) -> (r: &Meta) {
        &self.meta
    }

    fn meta_mut(&mut self) -> (r: &mut Meta) {
        &mut self.meta
    }
}

impl Clone for BlockQuote {
    fn clone(&self) -> (r: BlockQuote)
        ensures
            r@ == self@,
        decreases self,
    {
        let children = Block::clone_all(&self.children);
        let meta = self.meta.clone();
        BlockQuote { children, meta }
    }
}

} // verus!
