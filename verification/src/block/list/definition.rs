//! Definition lists.
use crate::attributes::{lemma_flatten_keeps, lemma_meta_roundtrip, HasMeta, Meta, MetaView};
use crate::block::{Block, BlockView};
use crate::error::{agrees, Error, ErrorView};
use crate::inline::{Inline, InlineView};
use crate::names::lemma_names;
use crate::traverse::{Node, NodeType};
use crate::value::{
    collect, lemma_collect_err, lemma_collect_ok, not_an_object, same, tagged, Value, ValueView,
};
use vstd::prelude::*;
use vstd::std_specs::convert::FromSpecImpl;

verus! {

/// A list of terms with their definitions.
#[derive(Debug, PartialEq, Eq)]
pub struct DefinitionList {
    pub children: Vec<DefinitionListItem>,
    pub meta: Meta,
}

/// The mathematical value of a [`DefinitionList`].
pub struct DefinitionListView {
    pub children: Seq<DefinitionListItemView>,
    pub meta: MetaView,
}

impl View for DefinitionList {
    type V = DefinitionListView;

    open spec fn view(&self) -> DefinitionListView
        decreases self,
    {
        DefinitionListView {
            children: DefinitionListItem::views(self.children@),
            meta: self.meta@,
        }
    }
}

impl DefinitionListView {
    /// The fields of the encoded node, before its metadata joins them.
    pub open spec fn fields(self) -> Map<Seq<char>, ValueView>
        decreases self, 0int,
    {
        tagged("definition_list"@).insert(
            "children"@,
            ValueView::Array(DefinitionListItemView::encode_all(self.children)),
        )
    }

    /// The encoded node: its discriminator, its fields and its metadata.
    pub open spec fn encode(self) -> ValueView
        decreases self, 1int,
    {
        ValueView::Object(self.meta.flatten(self.fields()))
    }

    /// The node that an encoded value holds, or why it holds none.
    pub open spec fn decode(v: ValueView) -> Result<DefinitionListView, ErrorView>
        decreases v, 0int,
    {
        match v.expect_tag("definition_list"@) {
            Err(e) => Err(e),
            Ok(_) => match (match v.array("children"@) {
                Err(e) => Err(e),
                Ok(items) => DefinitionListItemView::decode_all(items),
            }) {
                Err(e) => Err(e),
                Ok(children) => match MetaView::decode(v) {
                    Err(e) => Err(e),
                    Ok(meta) => Ok(DefinitionListView { children, meta }),
                },
            },
        }
    }

    /// Decoding the encoded node gives the node back.
    pub proof fn lemma_roundtrip(self)
        ensures
            DefinitionListView::decode(self.encode()) == Ok::<DefinitionListView, ErrorView>(self),
        decreases self,
    {
        lemma_names();
        let base = self.fields();
        lemma_flatten_keeps(self.meta, base, "tag"@);
        lemma_flatten_keeps(self.meta, base, "children"@);
        lemma_meta_roundtrip(self.meta, base);
        DefinitionListItemView::lemma_roundtrip_all(self.children);
    }
}

impl DefinitionList {
    /// A node with the given content and no metadata.
    pub fn new(children: Vec<DefinitionListItem>) -> (r: DefinitionList)
        ensures
            r.children == children,
            r.meta@ == MetaView::empty(),
    {
        DefinitionList { children, meta: Meta::default() }
    }

    /// Encodes the node. No object of the result has two fields of one
    /// name.
    pub fn encode(&self) -> (v: Value)
        ensures
            v@ == self@.encode(),
            v.unambiguous(),
        decreases self,
    {
        proof {
            lemma_names();
        }
        let mut fields = Value::tagged("definition_list");
        Value::put(
            &mut fields,
            "children",
            Value::Array(DefinitionListItem::encode_all(&self.children)),
        );
        self.meta.flatten(&mut fields);
        Value::Object(fields)
    }

    /// Decodes a node of this kind. The value must be an object with the
    /// discriminator `definition_list` and each field of the node; the first thing
    /// found wrong is the failure.
    pub fn decode(v: &Value) -> (r: Result<DefinitionList, Error>)
        ensures
            agrees(r, DefinitionListView::decode(v@)),
        decreases v@, 0int,
    {
        v.expect_tag("definition_list")?;
        let children = DefinitionListItem::decode_all(v.array_field("children")?)?;
        let meta = Meta::decode(v)?;
        Ok(DefinitionList { children, meta })
    }
}

impl Node for DefinitionList {
    open spec fn spec_node_type(&self) -> NodeType {
        NodeType::Branch(self.children@.len() as usize)
    }

    fn node_type(&self) -> (t: NodeType) {
        NodeType::Branch(self.children.len())
    }
}

impl HasMeta for DefinitionList {
    open spec fn spec_meta(&self) -> Meta {
        self.meta
    }

    open spec fn with_meta(&self, meta: Meta) -> DefinitionList {
        DefinitionList { meta, ..*self }
    }

    fn meta(&self) -> (r: &Meta) {
        &self.meta
    }

    fn meta_mut(&mut self) -> (r: &mut Meta) {
        &mut self.meta
    }
}

impl Clone for DefinitionList {
    fn clone(&self) -> (r: DefinitionList)
        ensures
            r@ == self@,
        decreases self,
    {
        let children = DefinitionListItem::clone_all(&self.children);
        let meta = self.meta.clone();
        DefinitionList { children, meta }
    }
}

/// The term of a definition list item.
#[derive(Debug, PartialEq, Eq)]
pub struct Term {
    pub children: Vec<Inline>,
    pub meta: Meta,
}

/// The mathematical value of a [`Term`].
pub struct TermView {
    pub children: Seq<InlineView>,
    pub meta: MetaView,
}

impl View for Term {
    type V = TermView;

    open spec fn view(&self) -> TermView
    {
        TermView {
            children: Inline::views(self.children@),
            meta: self.meta@,
        }
    }
}

impl TermView {
    /// The fields of the encoded node, before its metadata joins them.
    pub open spec fn fields(self) -> Map<Seq<char>, ValueView>
    {
        tagged("term"@).insert(
            "children"@,
            ValueView::Array(InlineView::encode_all(self.children)),
        )
    }

    /// The encoded node: its discriminator, its fields and its metadata.
    pub open spec fn encode(self) -> ValueView
    {
        ValueView::Object(self.meta.flatten(self.fields()))
    }

    /// The node that an encoded value holds, or why it holds none.
    pub open spec fn decode(v: ValueView) -> Result<TermView, ErrorView>
    {
        match v.expect_tag("term"@) {
            Err(e) => Err(e),
            Ok(_) => match (match v.array("children"@) {
                Err(e) => Err(e),
                Ok(items) => InlineView::decode_all(items),
            }) {
                Err(e) => Err(e),
                Ok(children) => match MetaView::decode(v) {
                    Err(e) => Err(e),
                    Ok(meta) => Ok(TermView { children, meta }),
                },
            },
        }
    }

    /// Decoding the encoded node gives the node back.
    pub proof fn lemma_roundtrip(self)
        ensures
            TermView::decode(self.encode()) == Ok::<TermView, ErrorView>(self),
    {
        lemma_names();
        let base = self.fields();
        lemma_flatten_keeps(self.meta, base, "tag"@);
        lemma_flatten_keeps(self.meta, base, "children"@);
        lemma_meta_roundtrip(self.meta, base);
        InlineView::lemma_roundtrip_all(self.children);
    }
}

impl Term {
    /// A node with the given content and no metadata.
    pub fn new(children: Vec<Inline>) -> (r: Term)
        ensures
            r.children == children,
            r.meta@ == MetaView::empty(),
    {
        Term { children, meta: Meta::default() }
    }

    /// Encodes the node. No object of the result has two fields of one
    /// name.
    pub fn encode(&self) -> (v: Value)
        ensures
            v@ == self@.encode(),
            v.unambiguous(),
    {
        proof {
            lemma_names();
        }
        let mut fields = Value::tagged("term");
        Value::put(&mut fields, "children", Value::Array(Inline::encode_all(&self.children)));
        self.meta.flatten(&mut fields);
        Value::Object(fields)
    }

    /// Decodes a node of this kind. The value must be an object with the
    /// discriminator `term` and each field of the node; the first thing
    /// found wrong is the failure.
    pub fn decode(v: &Value) -> (r: Result<Term, Error>)
        ensures
            agrees(r, TermView::decode(v@)),
    {
        v.expect_tag("term")?;
        let children = Inline::decode_all(v.array_field("children")?)?;
        let meta = Meta::decode(v)?;
        Ok(Term { children, meta })
    }
}

impl Node for Term {
    open spec fn spec_node_type(&self) -> NodeType {
        NodeType::Branch(self.children@.len() as usize)
    }

    fn node_type(&self) -> (t: NodeType) {
        NodeType::Branch(self.children.len())
    }
}

impl HasMeta for Term {
    open spec fn spec_meta(&self) -> Meta {
        self.meta
    }

    open spec fn with_meta(&self, meta: Meta) -> Term {
        Term { meta, ..*self }
    }

    fn meta(&self) -> (r: &Meta) {
        &self.meta
    }

    fn meta_mut(&mut self) -> (r: &mut Meta) {
        &mut self.meta
    }
}

impl Clone for Term {
    fn clone(&self) -> (r: Term)
        ensures
            r@ == self@,
    {
        let children = Inline::clone_all(&self.children);
        let meta = self.meta.clone();
        Term { children, meta }
    }
}

/// The definition of a definition list item.
#[derive(Debug, PartialEq, Eq)]
pub struct Definition {
    pub children: Vec<Block>,
    pub meta: Meta,
}

/// The mathematical value of a [`Definition`].
pub struct DefinitionView {
    pub children: Seq<BlockView>,
    pub meta: MetaView,
}

impl View for Definition {
    type V = DefinitionView;

    open spec fn view(&self) -> DefinitionView
        decreases self,
    {
        DefinitionView {
            children: Block::views(self.children@),
            meta: self.meta@,
        }
    }
}

impl DefinitionView {
    /// The fields of the encoded node, before its metadata joins them.
    pub open spec fn fields(self) -> Map<Seq<char>, ValueView>
        decreases self, 0int,
    {
        tagged("definition"@).insert(
            "children"@,
            ValueView::Array(BlockView::encode_all(self.children)),
        )
    }

    /// The encoded node: its discriminator, its fields and its metadata.
    pub open spec fn encode(self) -> ValueView
        decreases self, 1int,
    {
        ValueView::Object(self.meta.flatten(self.fields()))
    }

    /// The node that an encoded value holds, or why it holds none.
    pub open spec fn decode(v: ValueView) -> Result<DefinitionView, ErrorView>
        decreases v, 0int,
    {
        match v.expect_tag("definition"@) {
            Err(e) => Err(e),
            Ok(_) => match (match v.array("children"@) {
                Err(e) => Err(e),
                Ok(items) => BlockView::decode_all(items),
            }) {
                Err(e) => Err(e),
                Ok(children) => match MetaView::decode(v) {
                    Err(e) => Err(e),
                    Ok(meta) => Ok(DefinitionView { children, meta }),
                },
            },
        }
    }

    /// Decoding the encoded node gives the node back.
    pub proof fn lemma_roundtrip(self)
        ensures
            DefinitionView::decode(self.encode()) == Ok::<DefinitionView, ErrorView>(self),
        decreases self,
    {
        lemma_names();
        let base = self.fields();
        lemma_flatten_keeps(self.meta, base, "tag"@);
        lemma_flatten_keeps(self.meta, base, "children"@);
        lemma_meta_roundtrip(self.meta, base);
        BlockView::lemma_roundtrip_all(self.children);
    }
}

impl Definition {
    /// A node with the given content and no metadata.
    pub fn new(children: Vec<Block>) -> (r: Definition)
        ensures
            r.children == children,
            r.meta@ == MetaView::empty(),
    {
        Definition { children, meta: Meta::default() }
    }

    /// Encodes the node. No object of the result has two fields of one
    /// name.
    pub fn encode(&self) -> (v: Value)
        ensures
            v@ == self@.encode(),
            v.unambiguous(),
        decreases self,
    {
        proof {
            lemma_names();
        }
        let mut fields = Value::tagged("definition");
        Value::put(&mut fields, "children", Value::Array(Block::encode_all(&self.children)));
        self.meta.flatten(&mut fields);
        Value::Object(fields)
    }

    /// Decodes a node of this kind. The value must be an object with the
    /// discriminator `definition` and each field of the node; the first thing
    /// found wrong is the failure.
    pub fn decode(v: &Value) -> (r: Result<Definition, Error>)
        ensures
            agrees(r, DefinitionView::decode(v@)),
        decreases v@, 0int,
    {
        v.expect_tag("definition")?;
        let children = Block::decode_all(v.array_field("children")?)?;
        let meta = Meta::decode(v)?;
        Ok(Definition { children, meta })
    }
}

impl Node for Definition {
    open spec fn spec_node_type(&self) -> NodeType {
        NodeType::Branch(self.children@.len() as usize)
    }

    fn node_type(&self) -> (t: NodeType) {
        NodeType::Branch(self.children.len())
    }
}

impl HasMeta for Definition {
    open spec fn spec_meta(&self) -> Meta {
        self.meta
    }

    open spec fn with_meta(&self, meta: Meta) -> Definition {
        Definition { meta, ..*self }
    }

    fn meta(&self) -> (r: &Meta) {
        &self.meta
    }

    fn meta_mut(&mut self) -> (r: &mut Meta) {
        &mut self.meta
    }
}

impl Clone for Definition {
    fn clone(&self) -> (r: Definition)
        ensures
            r@ == self@,
        decreases self,
    {
        let children = Block::clone_all(&self.children);
        let meta = self.meta.clone();
        Definition { children, meta }
    }
}

/// An item of a definition list: one term and its one definition. In the
/// encoded form the two are a pair under the name `children`.
#[derive(Debug, PartialEq, Eq)]
pub struct DefinitionListItem {
    pub term: Term,
    pub definition: Definition,
    pub meta: Meta,
}

/// The mathematical value of a [`DefinitionListItem`].
pub struct DefinitionListItemView {
    pub term: TermView,
    pub definition: DefinitionView,
    pub meta: MetaView,
}

impl View for DefinitionListItem {
    type V = DefinitionListItemView;

    open spec fn view(&self) -> DefinitionListItemView
        decreases self,
    {
        DefinitionListItemView { term: self.term@, definition: self.definition@, meta: self.meta@ }
    }
}

/// An item of a definition list as it was read: its children as a pair.
#[derive(Debug, PartialEq, Eq)]
pub struct DeserDefinitionListItem {
    pub children: (Term, Definition),
    pub meta: Meta,
}

impl From<DeserDefinitionListItem> for DefinitionListItem {
    fn from(value: DeserDefinitionListItem) -> (r: DefinitionListItem) {
        DefinitionListItem {
            term: value.children.0, definition: value.children.1, meta: value.meta,
        }
    }
}

impl FromSpecImpl<DeserDefinitionListItem> for DefinitionListItem {
    open spec fn obeys_from_spec() -> bool {
        true
    }

    open spec fn from_spec(value: DeserDefinitionListItem) -> DefinitionListItem {
        DefinitionListItem {
            term: value.children.0, definition: value.children.1, meta: value.meta,
        }
    }
}

/// The failure for an item whose children are not a term and a definition.
pub open spec fn pair_expected() -> ErrorView {
    ErrorView::General("children must be a term and a definition"@)
}

/// Whether the values are a pair of an encoded term and an encoded
/// definition, by their number and their discriminators.
pub open spec fn is_pair(items: Seq<ValueView>) -> bool {
    &&& items.len() == 2
    &&& items[0].tag() == Ok::<Seq<char>, ErrorView>("term"@)
    &&& items[1].tag() == Ok::<Seq<char>, ErrorView>("definition"@)
}

impl DefinitionListItemView {
    /// The fields of the encoded item, before its metadata joins them: the
    /// children are the term and the definition, in this order.
    pub open spec fn fields(self) -> Map<Seq<char>, ValueView>
        decreases self, 0int,
    {
        tagged("definition_list_item"@).insert(
            "children"@,
            ValueView::Array(seq![self.term.encode(), self.definition.encode()]),
        )
    }

    /// The encoded item: its discriminator, its pair of children and its
    /// metadata.
    pub open spec fn encode(self) -> ValueView
        decreases self, 1int,
    {
        ValueView::Object(self.meta.flatten(self.fields()))
    }

    /// The item that an encoded value holds, or why it holds none. Children
    /// that are not exactly a term followed by a definition are a failure.
    pub open spec fn decode(v: ValueView) -> Result<DefinitionListItemView, ErrorView>
        decreases v, 0int,
    {
        match v.expect_tag("definition_list_item"@) {
            Err(e) => Err(e),
            Ok(_) => match v.array("children"@) {
                Err(e) => Err(e),
                Ok(items) => if !is_pair(items) {
                    Err(pair_expected())
                } else {
                    match TermView::decode(items[0]) {
                        Err(e) => Err(e),
                        Ok(term) => match DefinitionView::decode(items[1]) {
                            Err(e) => Err(e),
                            Ok(definition) => match MetaView::decode(v) {
                                Err(e) => Err(e),
                                Ok(meta) => Ok(DefinitionListItemView { term, definition, meta }),
                            },
                        },
                    }
                },
            },
        }
    }

    /// Decoding the encoded item gives the item back.
    pub proof fn lemma_roundtrip(self)
        ensures
            DefinitionListItemView::decode(self.encode()) == Ok::<DefinitionListItemView, ErrorView>(
                self,
            ),
        decreases self,
    {
        lemma_names();
        let base = self.fields();
        lemma_flatten_keeps(self.meta, base, "tag"@);
        lemma_flatten_keeps(self.meta, base, "children"@);
        lemma_meta_roundtrip(self.meta, base);
        self.term.lemma_roundtrip();
        self.definition.lemma_roundtrip();
        lemma_flatten_keeps(self.term.meta, self.term.fields(), "tag"@);
        lemma_flatten_keeps(self.definition.meta, self.definition.fields(), "tag"@);
    }
}

impl DeserDefinitionListItem {
    /// Reads the pair of children and the metadata of an encoded item.
    pub fn decode(v: &Value) -> (r: Result<DeserDefinitionListItem, Error>)
        ensures
            match DefinitionListItemView::decode(v@) {
                Ok(item) => r is Ok && r->Ok_0.children.0@ == item.term && r->Ok_0.children.1@
                    == item.definition && r->Ok_0.meta@ == item.meta,
                Err(e) => r is Err && r->Err_0@ == e,
            },
        decreases v@, 0int,
    {
        v.expect_tag("definition_list_item")?;
        let items = v.array_field("children")?;
        let ghost views = Value::views(items@);
        if items.len() != 2 {
            return Err(Error::general("children must be a term and a definition"));
        }
        assert(views[0] == items@[0]@ && views[1] == items@[1]@);
        let first_is_term = match items[0].tag() {
            Ok(t) => same(t, "term"),
            Err(_) => false,
        };
        let second_is_definition = match items[1].tag() {
            Ok(t) => same(t, "definition"),
            Err(_) => false,
        };
        if !first_is_term || !second_is_definition {
            return Err(Error::general("children must be a term and a definition"));
        }
        let term = Term::decode(&items[0])?;
        let definition = Definition::decode(&items[1])?;
        let meta = Meta::decode(v)?;
        Ok(DeserDefinitionListItem { children: (term, definition), meta })
    }
}

impl DefinitionListItem {
    /// An item with the given term and definition and no metadata.
    pub fn new(term: Term, definition: Definition) -> (r: DefinitionListItem)
        ensures
            r.term == term,
            r.definition == definition,
            r.meta@ == MetaView::empty(),
    {
        DefinitionListItem { term, definition, meta: Meta::default() }
    }

    /// Encodes the item. No object of the result has two fields of one
    /// name.
    pub fn encode(&self) -> (v: Value)
        ensures
            v@ == self@.encode(),
            v.unambiguous(),
        decreases self,
    {
        proof {
            lemma_names();
        }
        let mut pair: Vec<Value> = Vec::new();
        pair.push(self.term.encode());
        pair.push(self.definition.encode());
        assert(Value::views(pair@) =~= seq![self@.term.encode(), self@.definition.encode()]);
        let mut fields = Value::tagged("definition_list_item");
        Value::put(&mut fields, "children", Value::Array(pair));
        self.meta.flatten(&mut fields);
        Value::Object(fields)
    }

    /// Decodes an item: reads its pair of children, and makes the item of
    /// them.
    pub fn decode(v: &Value) -> (r: Result<DefinitionListItem, Error>)
        ensures
            agrees(r, DefinitionListItemView::decode(v@)),
        decreases v@, 1int,
    {
        Ok(DefinitionListItem::from(DeserDefinitionListItem::decode(v)?))
    }
}

impl Node for DefinitionListItem {
    open spec fn spec_node_type(&self) -> NodeType {
        NodeType::Branch(2)
    }

    fn node_type(&self) -> (t: NodeType) {
        NodeType::Branch(2)
    }
}

impl HasMeta for DefinitionListItem {
    open spec fn spec_meta(&self) -> Meta {
        self.meta
    }

    open spec fn with_meta(&self, meta: Meta) -> DefinitionListItem {
        DefinitionListItem { meta, ..*self }
    }

    fn meta(&self) -> (r: &Meta) {
        &self.meta
    }

    fn meta_mut(&mut self) -> (r: &mut Meta) {
        &mut self.meta
    }
}

impl Clone for DefinitionListItem {
    fn clone(&self) -> (r: DefinitionListItem)
        ensures
            r@ == self@,
        decreases self,
    {
        let term = self.term.clone();
        let definition = self.definition.clone();
        let meta = self.meta.clone();
        DefinitionListItem { term, definition, meta }
    }
}

impl DefinitionListItemView {
    /// The encoded items, in order.
    pub open spec fn encode_all(s: Seq<DefinitionListItemView>) -> Seq<ValueView>
        decreases s, 0int,
    {
        Seq::new(
            s.len(),
            |i: int|
                if 0 <= i < s.len() {
                    s[i].encode()
                } else {
                    ValueView::Null
                },
        )
    }

    /// What each of the values decodes to.
    pub open spec fn decode_each(s: Seq<ValueView>) -> Seq<Result<DefinitionListItemView, ErrorView>>
        decreases s, 0int,
    {
        Seq::new(
            s.len(),
            |i: int|
                if 0 <= i < s.len() {
                    DefinitionListItemView::decode(s[i])
                } else {
                    Err(not_an_object())
                },
        )
    }

    /// The items that the values hold, or the failure of the first value
    /// that holds none.
    pub open spec fn decode_all(s: Seq<ValueView>) -> Result<Seq<DefinitionListItemView>, ErrorView>
        decreases s, 1int,
    {
        collect(DefinitionListItemView::decode_each(s))
    }

    /// Decoding the encoded items gives them back.
    pub proof fn lemma_roundtrip_all(s: Seq<DefinitionListItemView>)
        ensures
            DefinitionListItemView::decode_all(DefinitionListItemView::encode_all(s))
                == Ok::<Seq<DefinitionListItemView>, ErrorView>(s),
        decreases s,
    {
        let rs = DefinitionListItemView::decode_each(DefinitionListItemView::encode_all(s));
        assert forall|i: int| 0 <= i < rs.len() implies (#[trigger] rs[i]) == Ok::<
            DefinitionListItemView,
            ErrorView,
        >(s[i]) by {
            s[i].lemma_roundtrip();
        }
        lemma_collect_ok(rs, s);
    }
}

impl DefinitionListItem {
    /// The items of a list, each by its view.
    pub open spec fn views(s: Seq<DefinitionListItem>) -> Seq<DefinitionListItemView>
        decreases s,
    {
        Seq::new(
            s.len(),
            |i: int|
                if 0 <= i < s.len() {
                    s[i]@
                } else {
                    arbitrary()
                },
        )
    }

    /// A copy of the list.
    pub fn clone_all(items: &Vec<DefinitionListItem>) -> (r: Vec<DefinitionListItem>)
        ensures
            DefinitionListItem::views(r@) == DefinitionListItem::views(items@),
        decreases items,
    {
        let mut out: Vec<DefinitionListItem> = Vec::new();
        let mut i: usize = 0;
        while i < items.len()
            invariant
                i <= items.len(),
                out.len() == i,
                forall|j: int| 0 <= j < i ==> (#[trigger] out@[j])@ == items@[j]@,
            decreases items.len() - i,
        {
            let item = items[i].clone();
            out.push(item);
            i = i + 1;
        }
        assert(DefinitionListItem::views(out@) =~= DefinitionListItem::views(items@));
        out
    }

    /// Encodes each of the items.
    pub fn encode_all(items: &Vec<DefinitionListItem>) -> (r: Vec<Value>)
        ensures
            Value::views(r@) == DefinitionListItemView::encode_all(
                DefinitionListItem::views(items@),
            ),
            Value::all_unambiguous(r@),
        decreases items,
    {
        let mut out: Vec<Value> = Vec::new();
        let mut i: usize = 0;
        while i < items.len()
            invariant
                i <= items.len(),
                out.len() == i,
                forall|j: int| 0 <= j < i ==> (#[trigger] out@[j])@ == items@[j]@.encode(),
                forall|j: int| 0 <= j < i ==> (#[trigger] out@[j]).unambiguous(),
            decreases items.len() - i,
        {
            let item = items[i].encode();
            out.push(item);
            i = i + 1;
        }
        assert(Value::views(out@)
            =~= DefinitionListItemView::encode_all(DefinitionListItem::views(items@)));
        out
    }

    /// Decodes each of the values, and stops at the first that fails.
    pub fn decode_all(items: &Vec<Value>) -> (r: Result<Vec<DefinitionListItem>, Error>)
        ensures
            match DefinitionListItemView::decode_all(Value::views(items@)) {
                Ok(x) => r is Ok && DefinitionListItem::views(r->Ok_0@) == x,
                Err(e) => r is Err && r->Err_0@ == e,
            },
        decreases Value::views(items@), 1int,
    {
        let ghost s = Value::views(items@);
        let ghost rs = DefinitionListItemView::decode_each(s);
        let mut out: Vec<DefinitionListItem> = Vec::new();
        let mut i: usize = 0;
        while i < items.len()
            invariant
                i <= items.len(),
                out.len() == i,
                s == Value::views(items@),
                rs == DefinitionListItemView::decode_each(s),
                forall|j: int|
                    0 <= j < i ==> (#[trigger] rs[j]) == Ok::<DefinitionListItemView, ErrorView>(
                        out@[j]@,
                    ),
            decreases items.len() - i,
        {
            assert(s[i as int] == items[i as int]@);
            match DefinitionListItem::decode(&items[i]) {
                Ok(x) => {
                    out.push(x);
                },
                Err(e) => {
                    proof {
                        lemma_collect_err(rs, i as int);
                    }
                    return Err(e);
                },
            }
            i = i + 1;
        }
        proof {
            lemma_collect_ok(rs, DefinitionListItem::views(out@));
        }
        Ok(out)
    }
}

} // verus!
