//! The list families: bullet lists, ordered lists, task lists and
//! definition lists.
pub mod definition;
pub mod ordered;

pub use definition::{
    Definition, DefinitionList, DefinitionListItem, DefinitionListItemView, DefinitionListView,
    DefinitionView, DeserDefinitionListItem, Term, TermView,
};
pub use ordered::{FenceStyle, NumberStyle, OrderedList, OrderedListStyle, OrderedListView};

use crate::attributes::{lemma_flatten_keeps, lemma_meta_roundtrip, HasMeta, Meta, MetaView};
use crate::block::{Block, BlockView};
use crate::error::{agrees, Error, ErrorView};
use crate::names::lemma_names;
use crate::text::str_eq;
use crate::traverse::{Node, NodeType};
use crate::value::{
    collect, lemma_collect_err, lemma_collect_ok, not_an_object, tagged, unknown_variant, Value,
    ValueView,
};
use vstd::prelude::*;

verus! {

/// A list whose items are marked by a bullet.
#[derive(Debug, PartialEq, Eq)]
pub struct BulletList {
    pub tight: bool,
    pub style: BulletListStyle,
    pub children: Vec<ListItem>,
    pub meta: Meta,
}

/// The mathematical value of a [`BulletList`].
pub struct BulletListView {
    pub tight: bool,
    pub style: BulletListStyle,
    pub children: Seq<ListItemView>,
    pub meta: MetaView,
}

impl View for BulletList {
    type V = BulletListView;

    open spec fn view(&self) -> BulletListView
        decreases self,
    {
        BulletListView {
            tight: self.tight,
            style: self.style,
            children: ListItem::views(self.children@),
            meta: self.meta@,
        }
    }
}

impl BulletListView {
    /// The fields of the encoded node, before its metadata joins them.
    pub open spec fn fields(self) -> Map<Seq<char>, ValueView>
        decreases self, 0int,
    {
        tagged("bullet_list"@).insert(
            "tight"@,
            ValueView::Bool(self.tight),
        ).insert(
            "style"@,
            ValueView::Text(self.style.text()),
        ).insert(
            "children"@,
            ValueView::Array(ListItemView::encode_all(self.children)),
        )
    }

    /// The encoded node: its discriminator, its fields and its metadata.
    pub open spec fn encode(self) -> ValueView
        decreases self, 1int,
    {
        ValueView::Object(self.meta.flatten(self.fields()))
    }

    /// The node that an encoded value holds, or why it holds none.
    pub open spec fn decode(v: ValueView) -> Result<BulletListView, ErrorView>
        decreases v, 0int,
    {
        match v.expect_tag("bullet_list"@) {
            Err(e) => Err(e),
            Ok(_) => match v.boolean("tight"@) {
                Err(e) => Err(e),
                Ok(tight) => match (match v.text("style"@) {
                    Err(e) => Err(e),
                    Ok(t) => BulletListStyle::parse(t),
                }) {
                    Err(e) => Err(e),
                    Ok(style) => match (match v.array("children"@) {
                        Err(e) => Err(e),
                        Ok(items) => ListItemView::decode_all(items),
                    }) {
                        Err(e) => Err(e),
                        Ok(children) => match MetaView::decode(v) {
                            Err(e) => Err(e),
                            Ok(meta) => Ok(BulletListView { tight, style, children, meta }),
                        },
                    },
                },
            },
        }
    }

    /// Decoding the encoded node gives the node back.
    pub proof fn lemma_roundtrip(self)
        ensures
            BulletListView::decode(self.encode()) == Ok::<BulletListView, ErrorView>(self),
        decreases self,
    {
        lemma_names();
        let base = self.fields();
        lemma_flatten_keeps(self.meta, base, "tag"@);
        lemma_flatten_keeps(self.meta, base, "tight"@);
        lemma_flatten_keeps(self.meta, base, "style"@);
        lemma_flatten_keeps(self.meta, base, "children"@);
        lemma_meta_roundtrip(self.meta, base);
        BulletListStyle::lemma_roundtrip(self.style);
        ListItemView::lemma_roundtrip_all(self.children);
    }
}

impl BulletList {
    /// A node with the given content and no metadata.
    pub fn new(tight: bool, style: BulletListStyle, children: Vec<ListItem>) -> (r: BulletList)
        ensures
            r.tight == tight,
            r.style == style,
            r.children == children,
            r.meta@ == MetaView::empty(),
    {
        BulletList { tight, style, children, meta: Meta::default() }
    }

    /// Encodes the node. No object of the result has two fields of one
    /// name.
    pub fn encode(&self) -> (v: Value)
        ensures
            v@ == self@.encode(),
            v.unambiguous(),
        decreases self,
    {
        proof {
            lemma_names();
        }
        let mut fields = Value::tagged("bullet_list");
        Value::put(&mut fields, "tight", Value::Bool(self.tight));
        Value::put(&mut fields, "style", Value::text(self.style.as_str()));
        Value::put(&mut fields, "children", Value::Array(ListItem::encode_all(&self.children)));
        self.meta.flatten(&mut fields);
        Value::Object(fields)
    }

    /// Decodes a node of this kind. The value must be an object with the
    /// discriminator `bullet_list` and each field of the node; the first thing
    /// found wrong is the failure.
    pub fn decode(v: &Value) -> (r: Result<BulletList, Error>)
        ensures
            agrees(r, BulletListView::decode(v@)),
        decreases v@, 0int,
    {
        v.expect_tag("bullet_list")?;
        let tight = v.bool_field("tight")?;
        let style = BulletListStyle::from_text(v.text_field("style")?.as_str())?;
        let children = ListItem::decode_all(v.array_field("children")?)?;
        let meta = Meta::decode(v)?;
        Ok(BulletList { tight, style, children, meta })
    }
}

impl Node for BulletList {
    open spec fn spec_node_type(&self) -> NodeType {
        NodeType::Branch(self.children@.len() as usize)
    }

    fn node_type(&self) -> (t: NodeType) {
        NodeType::Branch(self.children.len())
    }
}

impl HasMeta for BulletList {
    open spec fn spec_meta(&self) -> Meta {
        self.meta
    }

    open spec fn with_meta(&self, meta: Meta) -> BulletList {
        BulletList { meta, ..*self }
    }

    fn meta(&self) -> (r: &Meta) {
        &self.meta
    }

    fn meta_mut(&mut self) -> (r: &mut Meta) {
        &mut self.meta
    }
}

impl Clone for BulletList {
    fn clone(&self) -> (r: BulletList)
        ensures
            r@ == self@,
        decreases self,
    {
        let tight = self.tight;
        let style = self.style;
        let children = ListItem::clone_all(&self.children);
        let meta = self.meta.clone();
        BulletList { tight, style, children, meta }
    }
}

/// An item of a bullet list or an ordered list.
#[derive(Debug, PartialEq, Eq)]
pub struct ListItem {
    pub children: Vec<Block>,
    pub meta: Meta,
}

/// The mathematical value of a [`ListItem`].
pub struct ListItemView {
    pub children: Seq<BlockView>,
    pub meta: MetaView,
}

impl View for ListItem {
    type V = ListItemView;

    open spec fn view(&self) -> ListItemView
        decreases self,
    {
        ListItemView {
            children: Block::views(self.children@),
            meta: self.meta@,
        }
    }
}

impl ListItemView {
    /// The fields of the encoded node, before its metadata joins them.
    pub open spec fn fields(self) -> Map<Seq<char>, ValueView>
        decreases self, 0int,
    {
        tagged("list_item"@).insert(
            "children"@,
            ValueView::Array(BlockView::encode_all(self.children)),
        )
    }

    /// The encoded node: its discriminator, its fields and its metadata.
    pub open spec fn encode(self) -> ValueView
        decreases self, 1int,
    {
        ValueView::Object(self.meta.flatten(self.fields()))
    }

    /// The node that an encoded value holds, or why it holds none.
    pub open spec fn decode(v: ValueView) -> Result<ListItemView, ErrorView>
        decreases v, 0int,
    {
        match v.expect_tag("list_item"@) {
            Err(e) => Err(e),
            Ok(_) => match (match v.array("children"@) {
                Err(e) => Err(e),
                Ok(items) => BlockView::decode_all(items),
            }) {
                Err(e) => Err(e),
                Ok(children) => match MetaView::decode(v) {
                    Err(e) => Err(e),
                    Ok(meta) => Ok(ListItemView { children, meta }),
                },
            },
        }
    }

    /// Decoding the encoded node gives the node back.
    pub proof fn lemma_roundtrip(self)
        ensures
            ListItemView::decode(self.encode()) == Ok::<ListItemView, ErrorView>(self),
        decreases self,
    {
        lemma_names();
        let base = self.fields();
        lemma_flatten_keeps(self.meta, base, "tag"@);
        lemma_flatten_keeps(self.meta, base, "children"@);
        lemma_meta_roundtrip(self.meta, base);
        BlockView::lemma_roundtrip_all(self.children);
    }
}

impl ListItem {
    /// A node with the given content and no metadata.
    pub fn new(children: Vec<Block>) -> (r: ListItem)
        ensures
            r.children == children,
            r.meta@ == MetaView::empty(),
    {
        ListItem { children, meta: Meta::default() }
    }

    /// Encodes the node. No object of the result has two fields of one
    /// name.
    pub fn encode(&self) -> (v: Value)
        ensures
            v@ == self@.encode(),
            v.unambiguous(),
        decreases self,
    {
        proof {
            lemma_names();
        }
        let mut fields = Value::tagged("list_item");
        Value::put(&mut fields, "children", Value::Array(Block::encode_all(&self.children)));
        self.meta.flatten(&mut fields);
        Value::Object(fields)
    }

    /// Decodes a node of this kind. The value must be an object with the
    /// discriminator `list_item` and each field of the node; the first thing
    /// found wrong is the failure.
    pub fn decode(v: &Value) -> (r: Result<ListItem, Error>)
        ensures
            agrees(r, ListItemView::decode(v@)),
        decreases v@, 0int,
    {
        v.expect_tag("list_item")?;
        let children = Block::decode_all(v.array_field("children")?)?;
        let meta = Meta::decode(v)?;
        Ok(ListItem { children, meta })
    }
}

impl Node for ListItem {
    open spec fn spec_node_type(&self) -> NodeType {
        NodeType::Branch(self.children@.len() as usize)
    }

    fn node_type(&self) -> (t: NodeType) {
        NodeType::Branch(self.children.len())
    }
}

impl HasMeta for ListItem {
    open spec fn spec_meta(&self) -> Meta {
        self.meta
    }

    open spec fn with_meta(&self, meta: Meta) -> ListItem {
        ListItem { meta, ..*self }
    }

    fn meta(&self) -> (r: &Meta) {
        &self.meta
    }

    fn meta_mut(&mut self) -> (r: &mut Meta) {
        &mut self.meta
    }
}

impl Clone for ListItem {
    fn clone(&self) -> (r: ListItem)
        ensures
            r@ == self@,
        decreases self,
    {
        let children = Block::clone_all(&self.children);
        let meta = self.meta.clone();
        ListItem { children, meta }
    }
}

impl ListItemView {
    /// The encoded items, in order.
    pub open spec fn encode_all(s: Seq<ListItemView>) -> Seq<ValueView>
        decreases s, 0int,
    {
        Seq::new(
            s.len(),
            |i: int|
                if 0 <= i < s.len() {
                    s[i].encode()
                } else {
                    ValueView::Null
                },
        )
    }

    /// What each of the values decodes to.
    pub open spec fn decode_each(s: Seq<ValueView>) -> Seq<Result<ListItemView, ErrorView>>
        decreases s, 0int,
    {
        Seq::new(
            s.len(),
            |i: int|
                if 0 <= i < s.len() {
                    ListItemView::decode(s[i])
                } else {
                    Err(not_an_object())
                },
        )
    }

    /// The items that the values hold, or the failure of the first value
    /// that holds none.
    pub open spec fn decode_all(s: Seq<ValueView>) -> Result<Seq<ListItemView>, ErrorView>
        decreases s, 1int,
    {
        collect(ListItemView::decode_each(s))
    }

    /// Decoding the encoded items gives them back.
    pub proof fn lemma_roundtrip_all(s: Seq<ListItemView>)
        ensures
            ListItemView::decode_all(ListItemView::encode_all(s))
                == Ok::<Seq<ListItemView>, ErrorView>(s),
        decreases s,
    {
        let rs = ListItemView::decode_each(ListItemView::encode_all(s));
        assert forall|i: int| 0 <= i < rs.len() implies (#[trigger] rs[i]) == Ok::<
            ListItemView,
            ErrorView,
        >(s[i]) by {
            s[i].lemma_roundtrip();
        }
        lemma_collect_ok(rs, s);
    }
}

impl ListItem {
    /// The items of a list, each by its view.
    pub open spec fn views(s: Seq<ListItem>) -> Seq<ListItemView>
        decreases s,
    {
        Seq::new(
            s.len(),
            |i: int|
                if 0 <= i < s.len() {
                    s[i]@
                } else {
                    arbitrary()
                },
        )
    }

    /// A copy of the list.
    pub fn clone_all(items: &Vec<ListItem>) -> (r: Vec<ListItem>)
        ensures
            ListItem::views(r@) == ListItem::views(items@),
        decreases items,
    {
        let mut out: Vec<ListItem> = Vec::new();
        let mut i: usize = 0;
        while i < items.len()
            invariant
                i <= items.len(),
                out.len() == i,
                forall|j: int| 0 <= j < i ==> (#[trigger] out@[j])@ == items@[j]@,
            decreases items.len() - i,
        {
            let item = items[i].clone();
            out.push(item);
            i = i + 1;
        }
        assert(ListItem::views(out@) =~= ListItem::views(items@));
        out
    }

    /// Encodes each of the items.
    pub fn encode_all(items: &Vec<ListItem>) -> (r: Vec<Value>)
        ensures
            Value::views(r@) == ListItemView::encode_all(ListItem::views(items@)),
            Value::all_unambiguous(r@),
        decreases items,
    {
        let mut out: Vec<Value> = Vec::new();
        let mut i: usize = 0;
        while i < items.len()
            invariant
                i <= items.len(),
                out.len() == i,
                forall|j: int| 0 <= j < i ==> (#[trigger] out@[j])@ == items@[j]@.encode(),
                forall|j: int| 0 <= j < i ==> (#[trigger] out@[j]).unambiguous(),
            decreases items.len() - i,
        {
            let item = items[i].encode();
            out.push(item);
            i = i + 1;
        }
        assert(Value::views(out@) =~= ListItemView::encode_all(ListItem::views(items@)));
        out
    }

    /// Decodes each of the values, and stops at the first that fails.
    pub fn decode_all(items: &Vec<Value>) -> (r: Result<Vec<ListItem>, Error>)
        ensures
            match ListItemView::decode_all(Value::views(items@)) {
                Ok(x) => r is Ok && ListItem::views(r->Ok_0@) == x,
                Err(e) => r is Err && r->Err_0@ == e,
            },
        decreases Value::views(items@), 1int,
    {
        let ghost s = Value::views(items@);
        let ghost rs = ListItemView::decode_each(s);
        let mut out: Vec<ListItem> = Vec::new();
        let mut i: usize = 0;
        while i < items.len()
            invariant
                i <= items.len(),
                out.len() == i,
                s == Value::views(items@),
                rs == ListItemView::decode_each(s),
                forall|j: int|
                    0 <= j < i ==> (#[trigger] rs[j]) == Ok::<ListItemView, ErrorView>(out@[j]@),
            decreases items.len() - i,
        {
            assert(s[i as int] == items[i as int]@);
            match ListItem::decode(&items[i]) {
                Ok(x) => {
                    out.push(x);
                },
                Err(e) => {
                    proof {
                        lemma_collect_err(rs, i as int);
                    }
                    return Err(e);
                },
            }
            i = i + 1;
        }
        proof {
            lemma_collect_ok(rs, ListItem::views(out@));
        }
        Ok(out)
    }
}

/// A list of tasks.
#[derive(Debug, PartialEq, Eq)]
pub struct TaskList {
    pub tight: bool,
    pub children: Vec<TaskListItem>,
    pub meta: Meta,
}

/// The mathematical value of a [`TaskList`].
pub struct TaskListView {
    pub tight: bool,
    pub children: Seq<TaskListItemView>,
    pub meta: MetaView,
}

impl View for TaskList {
    type V = TaskListView;

    open spec fn view(&self) -> TaskListView
        decreases self,
    {
        TaskListView {
            tight: self.tight,
            children: TaskListItem::views(self.children@),
            meta: self.meta@,
        }
    }
}

impl TaskListView {
    /// The fields of the encoded node, before its metadata joins them.
    pub open spec fn fields(self) -> Map<Seq<char>, ValueView>
        decreases self, 0int,
    {
        tagged("task_list"@).insert(
            "tight"@,
            ValueView::Bool(self.tight),
        ).insert(
            "children"@,
            ValueView::Array(TaskListItemView::encode_all(self.children)),
        )
    }

    /// The encoded node: its discriminator, its fields and its metadata.
    pub open spec fn encode(self) -> ValueView
        decreases self, 1int,
    {
        ValueView::Object(self.meta.flatten(self.fields()))
    }

    /// The node that an encoded value holds, or why it holds none.
    pub open spec fn decode(v: ValueView) -> Result<TaskListView, ErrorView>
        decreases v, 0int,
    {
        match v.expect_tag("task_list"@) {
            Err(e) => Err(e),
            Ok(_) => match v.boolean("tight"@) {
                Err(e) => Err(e),
                Ok(tight) => match (match v.array("children"@) {
                    Err(e) => Err(e),
                    Ok(items) => TaskListItemView::decode_all(items),
                }) {
                    Err(e) => Err(e),
                    Ok(children) => match MetaView::decode(v) {
                        Err(e) => Err(e),
                        Ok(meta) => Ok(TaskListView { tight, children, meta }),
                    },
                },
            },
        }
    }

    /// Decoding the encoded node gives the node back.
    pub proof fn lemma_roundtrip(self)
        ensures
            TaskListView::decode(self.encode()) == Ok::<TaskListView, ErrorView>(self),
        decreases self,
    {
        lemma_names();
        let base = self.fields();
        lemma_flatten_keeps(self.meta, base, "tag"@);
        lemma_flatten_keeps(self.meta, base, "tight"@);
        lemma_flatten_keeps(self.meta, base, "children"@);
        lemma_meta_roundtrip(self.meta, base);
        TaskListItemView::lemma_roundtrip_all(self.children);
    }
}

impl TaskList {
    /// A node with the given content and no metadata.
    pub fn new(tight: bool, children: Vec<TaskListItem>) -> (r: TaskList)
        ensures
            r.tight == tight,
            r.children == children,
            r.meta@ == MetaView::empty(),
    {
        TaskList { tight, children, meta: Meta::default() }
    }

    /// Encodes the node. No object of the result has two fields of one
    /// name.
    pub fn encode(&self) -> (v: Value)
        ensures
            v@ == self@.encode(),
            v.unambiguous(),
        decreases self,
    {
        proof {
            lemma_names();
        }
        let mut fields = Value::tagged("task_list");
        Value::put(&mut fields, "tight", Value::Bool(self.tight));
        Value::put(&mut fields, "children", Value::Array(TaskListItem::encode_all(&self.children)));
        self.meta.flatten(&mut fields);
        Value::Object(fields)
    }

    /// Decodes a node of this kind. The value must be an object with the
    /// discriminator `task_list` and each field of the node; the first thing
    /// found wrong is the failure.
    pub fn decode(v: &Value) -> (r: Result<TaskList, Error>)
        ensures
            agrees(r, TaskListView::decode(v@)),
        decreases v@, 0int,
    {
        v.expect_tag("task_list")?;
        let tight = v.bool_field("tight")?;
        let children = TaskListItem::decode_all(v.array_field("children")?)?;
        let meta = Meta::decode(v)?;
        Ok(TaskList { tight, children, meta })
    }
}

impl Node for TaskList {
    open spec fn spec_node_type(&self) -> NodeType {
        NodeType::Branch(self.children@.len() as usize)
    }

    fn node_type(&self) -> (t: NodeType) {
        NodeType::Branch(self.children.len())
    }
}

impl HasMeta for TaskList {
    open spec fn spec_meta(&self) -> Meta {
        self.meta
    }

    open spec fn with_meta(&self, meta: Meta) -> TaskList {
        TaskList { meta, ..*self }
    }

    fn meta(&self) -> (r: &Meta) {
        &self.meta
    }

    fn meta_mut(&mut self) -> (r: &mut Meta) {
        &mut self.meta
    }
}

impl Clone for TaskList {
    fn clone(&self) -> (r: TaskList)
        ensures
            r@ == self@,
        decreases self,
    {
        let tight = self.tight;
        let children = TaskListItem::clone_all(&self.children);
        let meta = self.meta.clone();
        TaskList { tight, children, meta }
    }
}

/// A task: its checkbox and its content.
#[derive(Debug, PartialEq, Eq)]
pub struct TaskListItem {
    pub checkbox: CheckboxStatus,
    pub children: Vec<Block>,
    pub meta: Meta,
}

/// The mathematical value of a [`TaskListItem`].
pub struct TaskListItemView {
    pub checkbox: CheckboxStatus,
    pub children: Seq<BlockView>,
    pub meta: MetaView,
}

impl View for TaskListItem {
    type V = TaskListItemView;

    open spec fn view(&self) -> TaskListItemView
        decreases self,
    {
        TaskListItemView {
            checkbox: self.checkbox,
            children: Block::views(self.children@),
            meta: self.meta@,
        }
    }
}

impl TaskListItemView {
    /// The fields of the encoded node, before its metadata joins them.
    pub open spec fn fields(self) -> Map<Seq<char>, ValueView>
        decreases self, 0int,
    {
        tagged("task_list_item"@).insert(
            "checkbox"@,
            ValueView::Text(self.checkbox.text()),
        ).insert(
            "children"@,
            ValueView::Array(BlockView::encode_all(self.children)),
        )
    }

    /// The encoded node: its discriminator, its fields and its metadata.
    pub open spec fn encode(self) -> ValueView
        decreases self, 1int,
    {
        ValueView::Object(self.meta.flatten(self.fields()))
    }

    /// The node that an encoded value holds, or why it holds none.
    pub open spec fn decode(v: ValueView) -> Result<TaskListItemView, ErrorView>
        decreases v, 0int,
    {
        match v.expect_tag("task_list_item"@) {
            Err(e) => Err(e),
            Ok(_) => match (match v.text("checkbox"@) {
                Err(e) => Err(e),
                Ok(t) => CheckboxStatus::parse(t),
            }) {
                Err(e) => Err(e),
                Ok(checkbox) => match (match v.array("children"@) {
                    Err(e) => Err(e),
                    Ok(items) => BlockView::decode_all(items),
                }) {
                    Err(e) => Err(e),
                    Ok(children) => match MetaView::decode(v) {
                        Err(e) => Err(e),
                        Ok(meta) => Ok(TaskListItemView { checkbox, children, meta }),
                    },
                },
            },
        }
    }

    /// Decoding the encoded node gives the node back.
    pub proof fn lemma_roundtrip(self)
        ensures
            TaskListItemView::decode(self.encode()) == Ok::<TaskListItemView, ErrorView>(self),
        decreases self,
    {
        lemma_names();
        let base = self.fields();
        lemma_flatten_keeps(self.meta, base, "tag"@);
        lemma_flatten_keeps(self.meta, base, "checkbox"@);
        lemma_flatten_keeps(self.meta, base, "children"@);
        lemma_meta_roundtrip(self.meta, base);
        CheckboxStatus::lemma_roundtrip(self.checkbox);
        BlockView::lemma_roundtrip_all(self.children);
    }
}

impl TaskListItem {
    /// A node with the given content and no metadata.
    pub fn new(checkbox: CheckboxStatus, children: Vec<Block>) -> (r: TaskListItem)
        ensures
            r.checkbox == checkbox,
            r.children == children,
            r.meta@ == MetaView::empty(),
    {
        TaskListItem { checkbox, children, meta: Meta::default() }
    }

    /// Encodes the node. No object of the result has two fields of one
    /// name.
    pub fn encode(&self) -> (v: Value)
        ensures
            v@ == self@.encode(),
            v.unambiguous(),
        decreases self,
    {
        proof {
            lemma_names();
        }
        let mut fields = Value::tagged("task_list_item");
        Value::put(&mut fields, "checkbox", Value::text(self.checkbox.as_str()));
        Value::put(&mut fields, "children", Value::Array(Block::encode_all(&self.children)));
        self.meta.flatten(&mut fields);
        Value::Object(fields)
    }

    /// Decodes a node of this kind. The value must be an object with the
    /// discriminator `task_list_item` and each field of the node; the first thing
    /// found wrong is the failure.
    pub fn decode(v: &Value) -> (r: Result<TaskListItem, Error>)
        ensures
            agrees(r, TaskListItemView::decode(v@)),
        decreases v@, 0int,
    {
        v.expect_tag("task_list_item")?;
        let checkbox = CheckboxStatus::from_text(v.text_field("checkbox")?.as_str())?;
        let children = Block::decode_all(v.array_field("children")?)?;
        let meta = Meta::decode(v)?;
        Ok(TaskListItem { checkbox, children, meta })
    }
}

impl Node for TaskListItem {
    open spec fn spec_node_type(&self) -> NodeType {
        NodeType::Branch(self.children@.len() as usize)
    }

    fn node_type(&self) -> (t: NodeType) {
        NodeType::Branch(self.children.len())
    }
}

impl HasMeta for TaskListItem {
    open spec fn spec_meta(&self) -> Meta {
        self.meta
    }

    open spec fn with_meta(&self, meta: Meta) -> TaskListItem {
        TaskListItem { meta, ..*self }
    }

    fn meta(&self) -> (r: &Meta) {
        &self.meta
    }

    fn meta_mut(&mut self) -> (r: &mut Meta) {
        &mut self.meta
    }
}

impl Clone for TaskListItem {
    fn clone(&self) -> (r: TaskListItem)
        ensures
            r@ == self@,
        decreases self,
    {
        let checkbox = self.checkbox;
        let children = Block::clone_all(&self.children);
        let meta = self.meta.clone();
        TaskListItem { checkbox, children, meta }
    }
}

impl TaskListItemView {
    /// The encoded items, in order.
    pub open spec fn encode_all(s: Seq<TaskListItemView>) -> Seq<ValueView>
        decreases s, 0int,
    {
        Seq::new(
            s.len(),
            |i: int|
                if 0 <= i < s.len() {
                    s[i].encode()
                } else {
                    ValueView::Null
                },
        )
    }

    /// What each of the values decodes to.
    pub open spec fn decode_each(s: Seq<ValueView>) -> Seq<Result<TaskListItemView, ErrorView>>
        decreases s, 0int,
    {
        Seq::new(
            s.len(),
            |i: int|
                if 0 <= i < s.len() {
                    TaskListItemView::decode(s[i])
                } else {
                    Err(not_an_object())
                },
        )
    }

    /// The items that the values hold, or the failure of the first value
    /// that holds none.
    pub open spec fn decode_all(s: Seq<ValueView>) -> Result<Seq<TaskListItemView>, ErrorView>
        decreases s, 1int,
    {
        collect(TaskListItemView::decode_each(s))
    }

    /// Decoding the encoded items gives them back.
    pub proof fn lemma_roundtrip_all(s: Seq<TaskListItemView>)
        ensures
            TaskListItemView::decode_all(TaskListItemView::encode_all(s))
                == Ok::<Seq<TaskListItemView>, ErrorView>(s),
        decreases s,
    {
        let rs = TaskListItemView::decode_each(TaskListItemView::encode_all(s));
        assert forall|i: int| 0 <= i < rs.len() implies (#[trigger] rs[i]) == Ok::<
            TaskListItemView,
            ErrorView,
        >(s[i]) by {
            s[i].lemma_roundtrip();
        }
        lemma_collect_ok(rs, s);
    }
}

impl TaskListItem {
    /// The items of a list, each by its view.
    pub open spec fn views(s: Seq<TaskListItem>) -> Seq<TaskListItemView>
        decreases s,
    {
        Seq::new(
            s.len(),
            |i: int|
                if 0 <= i < s.len() {
                    s[i]@
                } else {
                    arbitrary()
                },
        )
    }

    /// A copy of the list.
    pub fn clone_all(items: &Vec<TaskListItem>) -> (r: Vec<TaskListItem>)
        ensures
            TaskListItem::views(r@) == TaskListItem::views(items@),
        decreases items,
    {
        let mut out: Vec<TaskListItem> = Vec::new();
        let mut i: usize = 0;
        while i < items.len()
            invariant
                i <= items.len(),
                out.len() == i,
                forall|j: int| 0 <= j < i ==> (#[trigger] out@[j])@ == items@[j]@,
            decreases items.len() - i,
        {
            let item = items[i].clone();
            out.push(item);
            i = i + 1;
        }
        assert(TaskListItem::views(out@) =~= TaskListItem::views(items@));
        out
    }

    /// Encodes each of the items.
    pub fn encode_all(items: &Vec<TaskListItem>) -> (r: Vec<Value>)
        ensures
            Value::views(r@) == TaskListItemView::encode_all(TaskListItem::views(items@)),
            Value::all_unambiguous(r@),
        decreases items,
    {
        let mut out: Vec<Value> = Vec::new();
        let mut i: usize = 0;
        while i < items.len()
            invariant
                i <= items.len(),
                out.len() == i,
                forall|j: int| 0 <= j < i ==> (#[trigger] out@[j])@ == items@[j]@.encode(),
                forall|j: int| 0 <= j < i ==> (#[trigger] out@[j]).unambiguous(),
            decreases items.len() - i,
        {
            let item = items[i].encode();
            out.push(item);
            i = i + 1;
        }
        assert(Value::views(out@) =~= TaskListItemView::encode_all(TaskListItem::views(items@)));
        out
    }

    /// Decodes each of the values, and stops at the first that fails.
    pub fn decode_all(items: &Vec<Value>) -> (r: Result<Vec<TaskListItem>, Error>)
        ensures
            match TaskListItemView::decode_all(Value::views(items@)) {
                Ok(x) => r is Ok && TaskListItem::views(r->Ok_0@) == x,
                Err(e) => r is Err && r->Err_0@ == e,
            },
        decreases Value::views(items@), 1int,
    {
        let ghost s = Value::views(items@);
        let ghost rs = TaskListItemView::decode_each(s);
        let mut out: Vec<TaskListItem> = Vec::new();
        let mut i: usize = 0;
        while i < items.len()
            invariant
                i <= items.len(),
                out.len() == i,
                s == Value::views(items@),
                rs == TaskListItemView::decode_each(s),
                forall|j: int|
                    0 <= j < i ==> (#[trigger] rs[j]) == Ok::<TaskListItemView, ErrorView>(
                        out@[j]@,
                    ),
            decreases items.len() - i,
        {
            assert(s[i as int] == items[i as int]@);
            match TaskListItem::decode(&items[i]) {
                Ok(x) => {
                    out.push(x);
                },
                Err(e) => {
                    proof {
                        lemma_collect_err(rs, i as int);
                    }
                    return Err(e);
                },
            }
            i = i + 1;
        }
        proof {
            lemma_collect_ok(rs, TaskListItem::views(out@));
        }
        Ok(out)
    }
}

/// The character that marks the items of a bullet list.
#[derive(Debug, Clone, Copy, PartialEq, Eq, Hash, Structural)]
pub enum BulletListStyle {
    Plus,
    Dash,
    Asterisk,
}

impl BulletListStyle {
    /// The text that stands for the value in the encoded form.
    pub open spec fn text(self) -> Seq<char> {
        match self {
            BulletListStyle::Plus => "+"@,
            BulletListStyle::Dash => "-"@,
            BulletListStyle::Asterisk => "*"@,
        }
    }

    /// The value that a text stands for; a text that stands for none is a
    /// failure.
    pub open spec fn parse(t: Seq<char>) -> Result<BulletListStyle, ErrorView> {
        if t == "+"@ {
            Ok(BulletListStyle::Plus)
        } else if t == "-"@ {
            Ok(BulletListStyle::Dash)
        } else if t == "*"@ {
            Ok(BulletListStyle::Asterisk)
        } else {
            Err(unknown_variant(t))
        }
    }

    /// Each value comes back from its text.
    pub proof fn lemma_roundtrip(self)
        ensures
            BulletListStyle::parse(self.text()) == Ok::<BulletListStyle, ErrorView>(self),
    {
        lemma_names();
    }

    /// The text that stands for the value in the encoded form.
    pub fn as_str(&self) -> (s: &'static str)
        ensures
            s@ == self.text(),
    {
        match self {
            BulletListStyle::Plus => "+",
            BulletListStyle::Dash => "-",
            BulletListStyle::Asterisk => "*",
        }
    }

    /// The value that a text stands for.
    pub fn from_text(t: &str) -> (r: Result<BulletListStyle, Error>)
        ensures
            match BulletListStyle::parse(t@) {
                Ok(x) => r == Ok::<BulletListStyle, Error>(x),
                Err(e) => r is Err && r->Err_0@ == e,
            },
    {
        if str_eq(t, "+") {
            Ok(BulletListStyle::Plus)
        } else if str_eq(t, "-") {
            Ok(BulletListStyle::Dash)
        } else if str_eq(t, "*") {
            Ok(BulletListStyle::Asterisk)
        } else {
            Err(Value::unknown_variant(t))
        }
    }
}

/// Whether the checkbox of a task is ticked.
#[derive(Debug, Clone, Copy, PartialEq, Eq, Structural)]
pub enum CheckboxStatus {
    Checked,
    Unchecked,
}

impl CheckboxStatus {
    /// The text that stands for the value in the encoded form.
    pub open spec fn text(self) -> Seq<char> {
        match self {
            CheckboxStatus::Checked => "checked"@,
            CheckboxStatus::Unchecked => "unchecked"@,
        }
    }

    /// The value that a text stands for; a text that stands for none is a
    /// failure.
    pub open spec fn parse(t: Seq<char>) -> Result<CheckboxStatus, ErrorView> {
        if t == "checked"@ {
            Ok(CheckboxStatus::Checked)
        } else if t == "unchecked"@ {
            Ok(CheckboxStatus::Unchecked)
        } else {
            Err(unknown_variant(t))
        }
    }

    /// Each value comes back from its text.
    pub proof fn lemma_roundtrip(self)
        ensures
            CheckboxStatus::parse(self.text()) == Ok::<CheckboxStatus, ErrorView>(self),
    {
        lemma_names();
    }

    /// The text that stands for the value in the encoded form.
    pub fn as_str(&self) -> (s: &'static str)
        ensures
            s@ == self.text(),
    {
        match self {
            CheckboxStatus::Checked => "checked",
            CheckboxStatus::Unchecked => "unchecked",
        }
    }

    /// The value that a text stands for.
    pub fn from_text(t: &str) -> (r: Result<CheckboxStatus, Error>)
        ensures
            match CheckboxStatus::parse(t@) {
                Ok(x) => r == Ok::<CheckboxStatus, Error>(x),
                Err(e) => r is Err && r->Err_0@ == e,
            },
    {
        if str_eq(t, "checked") {
            Ok(CheckboxStatus::Checked)
        } else if str_eq(t, "unchecked") {
            Ok(CheckboxStatus::Unchecked)
        } else {
            Err(Value::unknown_variant(t))
        }
    }
}

impl CheckboxStatus {
    /// Whether the checkbox is ticked.
    pub fn is_checked(&self) -> (b: bool)
        ensures
            b == (*self is Checked),
    {
        match self {
            CheckboxStatus::Checked => true,
            CheckboxStatus::Unchecked => false,
        }
    }
}

} // verus!
