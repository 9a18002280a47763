//! The root of the tree, and what it keeps by label.
use crate::attributes::{lemma_flatten_keeps, lemma_meta_roundtrip, HasMeta, Meta, MetaView};
use crate::block::{Block, BlockView};
use crate::error::{agrees, Error, ErrorView};
use crate::names::lemma_names;
use crate::string_map::{distinct_keys, pairs_map, StringMap};
use crate::traverse::{Node, NodeType};
use crate::value::{invalid_type, lemma_fields_dom, tagged, Value, ValueView};
use vstd::prelude::*;

verus! {

/// A link destination that has a label.
#[derive(Debug, PartialEq, Eq)]
pub struct Reference {
    pub label: String,
    pub destination: String,
    pub meta: Meta,
}

/// The mathematical value of a [`Reference`].
pub struct ReferenceView {
    pub label: Seq<char>,
    pub destination: Seq<char>,
    pub meta: MetaView,
}

impl View for Reference {
    type V = ReferenceView;

    open spec fn view(&self) -> ReferenceView
    {
        ReferenceView {
            label: self.label@,
            destination: self.destination@,
            meta: self.meta@,
        }
    }
}

impl ReferenceView {
    /// The fields of the encoded node, before its metadata joins them.
    pub open spec fn fields(self) -> Map<Seq<char>, ValueView>
    {
        tagged("reference"@).insert(
            "label"@,
            ValueView::Text(self.label),
        ).insert(
            "destination"@,
            ValueView::Text(self.destination),
        )
    }

    /// The encoded node: its discriminator, its fields and its metadata.
    pub open spec fn encode(self) -> ValueView
    {
        ValueView::Object(self.meta.flatten(self.fields()))
    }

    /// The node that an encoded value holds, or why it holds none.
    pub open spec fn decode(v: ValueView) -> Result<ReferenceView, ErrorView>
    {
        match v.expect_tag("reference"@) {
            Err(e) => Err(e),
            Ok(_) => match v.text("label"@) {
                Err(e) => Err(e),
                Ok(label) => match v.text("destination"@) {
                    Err(e) => Err(e),
                    Ok(destination) => match MetaView::decode(v) {
                        Err(e) => Err(e),
                        Ok(meta) => Ok(ReferenceView { label, destination, meta }),
                    },
                },
            },
        }
    }

    /// Decoding the encoded node gives the node back.
    pub proof fn lemma_roundtrip(self)
        ensures
            ReferenceView::decode(self.encode()) == Ok::<ReferenceView, ErrorView>(self),
    {
        lemma_names();
        let base = self.fields();
        lemma_flatten_keeps(self.meta, base, "tag"@);
        lemma_flatten_keeps(self.meta, base, "label"@);
        lemma_flatten_keeps(self.meta, base, "destination"@);
        lemma_meta_roundtrip(self.meta, base);
    }
}

impl Reference {
    /// A node with the given content and no metadata.
    pub fn new(label: String, destination: String) -> (r: Reference)
        ensures
            r.label == label,
            r.destination == destination,
            r.meta@ == MetaView::empty(),
    {
        Reference { label, destination, meta: Meta::default() }
    }

    /// Encodes the node. No object of the result has two fields of one
    /// name.
    pub fn encode(&self) -> (v: Value)
        ensures
            v@ == self@.encode(),
            v.unambiguous(),
    {
        proof {
            lemma_names();
        }
        let mut fields = Value::tagged("reference");
        Value::put(&mut fields, "label", Value::Text(self.label.clone()));
        Value::put(&mut fields, "destination", Value::Text(self.destination.clone()));
        self.meta.flatten(&mut fields);
        Value::Object(fields)
    }

    /// Decodes a node of this kind. The value must be an object with the
    /// discriminator `reference` and each field of the node; the first thing
    /// found wrong is the failure.
    pub fn decode(v: &Value) -> (r: Result<Reference, Error>)
        ensures
            agrees(r, ReferenceView::decode(v@)),
    {
        v.expect_tag("reference")?;
        let label = v.text_field("label")?.clone();
        let destination = v.text_field("destination")?.clone();
        let meta = Meta::decode(v)?;
        Ok(Reference { label, destination, meta })
    }
}

impl Node for Reference {
    open spec fn spec_node_type(&self) -> NodeType {
        NodeType::Leaf
    }

    fn node_type(&self) -> (t: NodeType) {
        NodeType::Leaf
    }
}

impl HasMeta for Reference {
    open spec fn spec_meta(&self) -> Meta {
        self.meta
    }

    open spec fn with_meta(&self, meta: Meta) -> Reference {
        Reference { meta, ..*self }
    }

    fn meta(&self) -> (r: &Meta) {
        &self.meta
    }

    fn meta_mut(&mut self) -> (r: &mut Meta) {
        &mut self.meta
    }
}

impl Clone for Reference {
    fn clone(&self) -> (r: Reference)
        ensures
            r@ == self@,
    {
        let label = self.label.clone();
        let destination = self.destination.clone();
        let meta = self.meta.clone();
        Reference { label, destination, meta }
    }
}

impl ReferenceView {
    /// The encoded table of references: an object with one field for each
    /// label.
    pub open spec fn encode_map(m: Map<Seq<char>, ReferenceView>) -> ValueView {
        ValueView::Object(Map::new(|k: Seq<char>| m.contains_key(k), |k: Seq<char>| m[k].encode()))
    }

    /// The table of references that the value of the field `key` holds: the
    /// value is an object, and each of its fields decodes.
    pub open spec fn decode_map(v: ValueView, key: Seq<char>) -> Result<
        Map<Seq<char>, ReferenceView>,
        ErrorView,
    > {
        match v {
            ValueView::Object(m) => if forall|k: Seq<char>| #[trigger]
                m.contains_key(k) ==> ReferenceView::decode(m[k]) is Ok {
                Ok(
                    Map::new(
                        |k: Seq<char>| m.contains_key(k),
                        |k: Seq<char>| ReferenceView::decode(m[k])->Ok_0,
                    ),
                )
            } else {
                Err(invalid_type(key))
            },
            _ => Err(invalid_type(key)),
        }
    }

    /// A table of references comes back from its encoded form.
    pub proof fn lemma_roundtrip_map(m: Map<Seq<char>, ReferenceView>, key: Seq<char>)
        ensures
            ReferenceView::decode_map(ReferenceView::encode_map(m), key) == Ok::<
                Map<Seq<char>, ReferenceView>,
                ErrorView,
            >(m),
    {
        assert forall|k: Seq<char>| #[trigger] m.contains_key(k) implies ReferenceView::decode(
            m[k].encode(),
        ) == Ok::<ReferenceView, ErrorView>(m[k]) by {
            m[k].lemma_roundtrip();
        }
        let e = ReferenceView::encode_map(m)->Object_0;
        assert forall|k: Seq<char>| #[trigger] e.contains_key(k) implies ReferenceView::decode(
            e[k],
        ) is Ok by {
            assert(m.contains_key(k));
        }
        assert(ReferenceView::decode_map(ReferenceView::encode_map(m), key)->Ok_0 =~= m);
    }
}

impl Reference {
    /// The references of a table, each by its view.
    pub open spec fn map_view(m: Map<Seq<char>, Reference>) -> Map<Seq<char>, ReferenceView> {
        Map::new(|k: Seq<char>| m.contains_key(k), |k: Seq<char>| m[k]@)
    }

    /// Encodes a table of references.
    pub fn encode_map(map: &StringMap<Reference>) -> (v: Value)
        ensures
            v@ == ReferenceView::encode_map(Reference::map_view(map@)),
            v.unambiguous(),
    {
        let entries = map.entries();
        let mut fields: Vec<(String, Value)> = Vec::new();
        let mut i: usize = 0;
        assert(entries@.take(0) =~= Seq::<(String, Reference)>::empty());
        assert(Value::fields(fields@) =~= ReferenceView::encode_map(
            Reference::map_view(pairs_map(entries@.take(0))),
        )->Object_0);
        while i < entries.len()
            invariant
                i <= entries@.len(),
                fields@.len() == i,
                distinct_keys(entries@),
                forall|j: int| 0 <= j < i ==> (#[trigger] fields@[j]).0@ == entries@[j].0@,
                forall|j: int| 0 <= j < i ==> (#[trigger] fields@[j]).1.unambiguous(),
                ValueView::Object(Value::fields(fields@)) == ReferenceView::encode_map(
                    Reference::map_view(pairs_map(entries@.take(i as int))),
                ),
            decreases entries@.len() - i,
        {
            proof {
                let t = entries@.take(i as int + 1);
                assert(t.drop_last() =~= entries@.take(i as int));
                assert(t.last() == entries@[i as int]);
                assert(pairs_map(t) == pairs_map(t.drop_last()).insert(t.last().0@, t.last().1));
            }
            let ghost before = fields@;
            fields.push((entries[i].0.clone(), entries[i].1.encode()));
            proof {
                let t = entries@.take(i as int + 1);
                assert(fields@.drop_last() =~= before);
                assert(Value::fields(fields@) == Value::fields(fields@.drop_last()).insert(
                    fields@.last().0@,
                    fields@.last().1@,
                ));
                assert(Value::fields(fields@) =~= ReferenceView::encode_map(
                    Reference::map_view(pairs_map(t)),
                )->Object_0);
            }
            i = i + 1;
        }
        assert(entries@.take(i as int) =~= entries@);
        proof {
            assert forall|a: int, b: int| 0 <= a < b < fields@.len() implies (
            #[trigger] fields@[a]).0@ != (#[trigger] fields@[b]).0@ by {
                assert(entries@[a].0@ != entries@[b].0@);
            }
            assert(Value::plain(fields@));
        }
        Value::Object(fields)
    }

    /// Decodes the table of references held by `v`, the value of the field
    /// `key`.
    pub fn decode_map(v: &Value, key: &str) -> (r: Result<StringMap<Reference>, Error>)
        ensures
            match ReferenceView::decode_map(v@, key@) {
                Ok(m) => r is Ok && Reference::map_view(r->Ok_0@) == m,
                Err(e) => r is Err && r->Err_0@ == e,
            },
    {
        match v {
            Value::Object(fields) => {
                let ghost m = Value::fields(fields@);
                let mut out: StringMap<Reference> = StringMap::new();
                let mut i: usize = 0;
                while i < fields.len()
                    invariant
                        i <= fields@.len(),
                        *v == Value::Object(*fields),
                        m == Value::fields(fields@),
                        forall|k: Seq<char>| #[trigger]
                            out@.contains_key(k) <==> exists|j: int|
                                0 <= j < i && (#[trigger] fields@[j]).0@ == k,
                        forall|k: Seq<char>| #[trigger]
                            out@.contains_key(k) ==> m.contains_key(k) && ReferenceView::decode(
                                m[k],
                            )
                                == Ok::<ReferenceView, ErrorView>(out@[k]@),
                    decreases fields@.len() - i,
                {
                    let name = &fields[i].0;
                    proof {
                        lemma_fields_dom(fields@, name@);
                    }
                    let found = match v.lookup(name.as_str()) {
                        Ok(Some(f)) => Reference::decode(f),
                        _ => Err(Value::invalid_type(key)),
                    };
                    match found {
                        Ok(x) => {
                            let ghost before = out@;
                            out.insert(name.clone(), x);
                            proof {
                                assert forall|k: Seq<char>| #[trigger]
                                    out@.contains_key(k) <==> exists|j: int|
                                        0 <= j < i + 1 && (#[trigger] fields@[j]).0@ == k by {
                                    if out@.contains_key(k) {
                                        if before.contains_key(k) {
                                            let j = choose|j: int|
                                                0 <= j < i && (#[trigger] fields@[j]).0@ == k;
                                            assert(0 <= j < i + 1 && fields@[j].0@ == k);
                                        } else {
                                            assert(fields@[i as int].0@ == k);
                                        }
                                    }
                                    if exists|j: int|
                                        0 <= j < i + 1 && (#[trigger] fields@[j]).0@ == k {
                                        let j = choose|j: int|
                                            0 <= j < i + 1 && (#[trigger] fields@[j]).0@ == k;
                                        if j < i {
                                            assert(before.contains_key(k));
                                        }
                                    }
                                }
                            }
                        },
                        Err(_) => {
                            assert(m.contains_key(name@)
                                && !(ReferenceView::decode(m[name@]) is Ok));
                            return Err(Value::invalid_type(key));
                        },
                    }
                    i = i + 1;
                }
                proof {
                    assert forall|k: Seq<char>| #[trigger] m.contains_key(k) implies ReferenceView::decode(
                        m[k],
                    ) is Ok && out@.contains_key(k) by {
                        lemma_fields_dom(fields@, k);
                        let j = choose|j: int|
                            0 <= j < fields@.len() && (#[trigger] fields@[j]).0@ == k;
                        assert(out@.contains_key(k));
                    }
                    assert(Reference::map_view(out@) =~= ReferenceView::decode_map(v@, key@)->Ok_0);
                }
                Ok(out)
            },
            _ => Err(Value::invalid_type(key)),
        }
    }
}

/// A footnote and its label.
#[derive(Debug, PartialEq, Eq)]
pub struct Footnote {
    pub label: String,
    pub children: Vec<Block>,
    pub meta: Meta,
}

/// The mathematical value of a [`Footnote`].
pub struct FootnoteView {
    pub label: Seq<char>,
    pub children: Seq<BlockView>,
    pub meta: MetaView,
}

impl View for Footnote {
    type V = FootnoteView;

    open spec fn view(&self) -> FootnoteView
    {
        FootnoteView {
            label: self.label@,
            children: Block::views(self.children@),
            meta: self.meta@,
        }
    }
}

impl FootnoteView {
    /// The fields of the encoded node, before its metadata joins them.
    pub open spec fn fields(self) -> Map<Seq<char>, ValueView>
    {
        tagged("footnote"@).insert(
            "label"@,
            ValueView::Text(self.label),
        ).insert(
            "children"@,
            ValueView::Array(BlockView::encode_all(self.children)),
        )
    }

    /// The encoded node: its discriminator, its fields and its metadata.
    pub open spec fn encode(self) -> ValueView
    {
        ValueView::Object(self.meta.flatten(self.fields()))
    }

    /// The node that an encoded value holds, or why it holds none.
    pub open spec fn decode(v: ValueView) -> Result<FootnoteView, ErrorView>
    {
        match v.expect_tag("footnote"@) {
            Err(e) => Err(e),
            Ok(_) => match v.text("label"@) {
                Err(e) => Err(e),
                Ok(label) => match (match v.array("children"@) {
                    Err(e) => Err(e),
                    Ok(items) => BlockView::decode_all(items),
                }) {
                    Err(e) => Err(e),
                    Ok(children) => match MetaView::decode(v) {
                        Err(e) => Err(e),
                        Ok(meta) => Ok(FootnoteView { label, children, meta }),
                    },
                },
            },
        }
    }

    /// Decoding the encoded node gives the node back.
    pub proof fn lemma_roundtrip(self)
        ensures
            FootnoteView::decode(self.encode()) == Ok::<FootnoteView, ErrorView>(self),
    {
        lemma_names();
        let base = self.fields();
        lemma_flatten_keeps(self.meta, base, "tag"@);
        lemma_flatten_keeps(self.meta, base, "label"@);
        lemma_flatten_keeps(self.meta, base, "children"@);
        lemma_meta_roundtrip(self.meta, base);
        BlockView::lemma_roundtrip_all(self.children);
    }
}

impl Footnote {
    /// A node with the given content and no metadata.
    pub fn new(label: String, children: Vec<Block>) -> (r: Footnote)
        ensures
            r.label == label,
            r.children == children,
            r.meta@ == MetaView::empty(),
    {
        Footnote { label, children, meta: Meta::default() }
    }

    /// Encodes the node. No object of the result has two fields of one
    /// name.
    pub fn encode(&self) -> (v: Value)
        ensures
            v@ == self@.encode(),
            v.unambiguous(),
    {
        proof {
            lemma_names();
        }
        let mut fields = Value::tagged("footnote");
        Value::put(&mut fields, "label", Value::Text(self.label.clone()));
        Value::put(&mut fields, "children", Value::Array(Block::encode_all(&self.children)));
        self.meta.flatten(&mut fields);
        Value::Object(fields)
    }

    /// Decodes a node of this kind. The value must be an object with the
    /// discriminator `footnote` and each field of the node; the first thing
    /// found wrong is the failure.
    pub fn decode(v: &Value) -> (r: Result<Footnote, Error>)
        ensures
            agrees(r, FootnoteView::decode(v@)),
    {
        v.expect_tag("footnote")?;
        let label = v.text_field("label")?.clone();
        let children = Block::decode_all(v.array_field("children")?)?;
        let meta = Meta::decode(v)?;
        Ok(Footnote { label, children, meta })
    }
}

impl Node for Footnote {
    open spec fn spec_node_type(&self) -> NodeType {
        NodeType::Branch(self.children@.len() as usize)
    }

    fn node_type(&self) -> (t: NodeType) {
        NodeType::Branch(self.children.len())
    }
}

impl HasMeta for Footnote {
    open spec fn spec_meta(&self) -> Meta {
        self.meta
    }

    open spec fn with_meta(&self, meta: Meta) -> Footnote {
        Footnote { meta, ..*self }
    }

    fn meta(&self) -> (r: &Meta) {
        &self.meta
    }

    fn meta_mut(&mut self) -> (r: &mut Meta) {
        &mut self.meta
    }
}

impl Clone for Footnote {
    fn clone(&self) -> (r: Footnote)
        ensures
            r@ == self@,
    {
        let label = self.label.clone();
        let children = Block::clone_all(&self.children);
        let meta = self.meta.clone();
        Footnote { label, children, meta }
    }
}

impl FootnoteView {
    /// The encoded table of footnotes: an object with one field for each
    /// label.
    pub open spec fn encode_map(m: Map<Seq<char>, FootnoteView>) -> ValueView {
        ValueView::Object(Map::new(|k: Seq<char>| m.contains_key(k), |k: Seq<char>| m[k].encode()))
    }

    /// The table of footnotes that the value of the field `key` holds: the
    /// value is an object, and each of its fields decodes.
    pub open spec fn decode_map(v: ValueView, key: Seq<char>) -> Result<
        Map<Seq<char>, FootnoteView>,
        ErrorView,
    > {
        match v {
            ValueView::Object(m) => if forall|k: Seq<char>| #[trigger]
                m.contains_key(k) ==> FootnoteView::decode(m[k]) is Ok {
                Ok(
                    Map::new(
                        |k: Seq<char>| m.contains_key(k),
                        |k: Seq<char>| FootnoteView::decode(m[k])->Ok_0,
                    ),
                )
            } else {
                Err(invalid_type(key))
            },
            _ => Err(invalid_type(key)),
        }
    }

    /// A table of footnotes comes back from its encoded form.
    pub proof fn lemma_roundtrip_map(m: Map<Seq<char>, FootnoteView>, key: Seq<char>)
        ensures
            FootnoteView::decode_map(FootnoteView::encode_map(m), key) == Ok::<
                Map<Seq<char>, FootnoteView>,
                ErrorView,
            >(m),
    {
        assert forall|k: Seq<char>| #[trigger] m.contains_key(k) implies FootnoteView::decode(
            m[k].encode(),
        ) == Ok::<FootnoteView, ErrorView>(m[k]) by {
            m[k].lemma_roundtrip();
        }
        let e = FootnoteView::encode_map(m)->Object_0;
        assert forall|k: Seq<char>| #[trigger] e.contains_key(k) implies FootnoteView::decode(
            e[k],
        ) is Ok by {
            assert(m.contains_key(k));
        }
        assert(FootnoteView::decode_map(FootnoteView::encode_map(m), key)->Ok_0 =~= m);
    }
}

impl Footnote {
    /// The footnotes of a table, each by its view.
    pub open spec fn map_view(m: Map<Seq<char>, Footnote>) -> Map<Seq<char>, FootnoteView> {
        Map::new(|k: Seq<char>| m.contains_key(k), |k: Seq<char>| m[k]@)
    }

    /// Encodes a table of footnotes.
    pub fn encode_map(map: &StringMap<Footnote>) -> (v: Value)
        ensures
            v@ == FootnoteView::encode_map(Footnote::map_view(map@)),
            v.unambiguous(),
    {
        let entries = map.entries();
        let mut fields: Vec<(String, Value)> = Vec::new();
        let mut i: usize = 0;
        assert(entries@.take(0) =~= Seq::<(String, Footnote)>::empty());
        assert(Value::fields(fields@) =~= FootnoteView::encode_map(
            Footnote::map_view(pairs_map(entries@.take(0))),
        )->Object_0);
        while i < entries.len()
            invariant
                i <= entries@.len(),
                fields@.len() == i,
                distinct_keys(entries@),
                forall|j: int| 0 <= j < i ==> (#[trigger] fields@[j]).0@ == entries@[j].0@,
                forall|j: int| 0 <= j < i ==> (#[trigger] fields@[j]).1.unambiguous(),
                ValueView::Object(Value::fields(fields@)) == FootnoteView::encode_map(
                    Footnote::map_view(pairs_map(entries@.take(i as int))),
                ),
            decreases entries@.len() - i,
        {
            proof {
                let t = entries@.take(i as int + 1);
                assert(t.drop_last() =~= entries@.take(i as int));
                assert(t.last() == entries@[i as int]);
                assert(pairs_map(t) == pairs_map(t.drop_last()).insert(t.last().0@, t.last().1));
            }
            let ghost before = fields@;
            fields.push((entries[i].0.clone(), entries[i].1.encode()));
            proof {
                let t = entries@.take(i as int + 1);
                assert(fields@.drop_last() =~= before);
                assert(Value::fields(fields@) == Value::fields(fields@.drop_last()).insert(
                    fields@.last().0@,
                    fields@.last().1@,
                ));
                assert(Value::fields(fields@) =~= FootnoteView::encode_map(
                    Footnote::map_view(pairs_map(t)),
                )->Object_0);
            }
            i = i + 1;
        }
        assert(entries@.take(i as int) =~= entries@);
        proof {
            assert forall|a: int, b: int| 0 <= a < b < fields@.len() implies (
            #[trigger] fields@[a]).0@ != (#[trigger] fields@[b]).0@ by {
                assert(entries@[a].0@ != entries@[b].0@);
            }
            assert(Value::plain(fields@));
        }
        Value::Object(fields)
    }

    /// Decodes the table of footnotes held by `v`, the value of the field
    /// `key`.
    pub fn decode_map(v: &Value, key: &str) -> (r: Result<StringMap<Footnote>, Error>)
        ensures
            match FootnoteView::decode_map(v@, key@) {
                Ok(m) => r is Ok && Footnote::map_view(r->Ok_0@) == m,
                Err(e) => r is Err && r->Err_0@ == e,
            },
    {
        match v {
            Value::Object(fields) => {
                let ghost m = Value::fields(fields@);
                let mut out: StringMap<Footnote> = StringMap::new();
                let mut i: usize = 0;
                while i < fields.len()
                    invariant
                        i <= fields@.len(),
                        *v == Value::Object(*fields),
                        m == Value::fields(fields@),
                        forall|k: Seq<char>| #[trigger]
                            out@.contains_key(k) <==> exists|j: int|
                                0 <= j < i && (#[trigger] fields@[j]).0@ == k,
                        forall|k: Seq<char>| #[trigger]
                            out@.contains_key(k) ==> m.contains_key(k) && FootnoteView::decode(m[k])
                                == Ok::<FootnoteView, ErrorView>(out@[k]@),
                    decreases fields@.len() - i,
                {
                    let name = &fields[i].0;
                    proof {
                        lemma_fields_dom(fields@, name@);
                    }
                    let found = match v.lookup(name.as_str()) {
                        Ok(Some(f)) => Footnote::decode(f),
                        _ => Err(Value::invalid_type(key)),
                    };
                    match found {
                        Ok(x) => {
                            let ghost before = out@;
                            out.insert(name.clone(), x);
                            proof {
                                assert forall|k: Seq<char>| #[trigger]
                                    out@.contains_key(k) <==> exists|j: int|
                                        0 <= j < i + 1 && (#[trigger] fields@[j]).0@ == k by {
                                    if out@.contains_key(k) {
                                        if before.contains_key(k) {
                                            let j = choose|j: int|
                                                0 <= j < i && (#[trigger] fields@[j]).0@ == k;
                                            assert(0 <= j < i + 1 && fields@[j].0@ == k);
                                        } else {
                                            assert(fields@[i as int].0@ == k);
                                        }
                                    }
                                    if exists|j: int|
                                        0 <= j < i + 1 && (#[trigger] fields@[j]).0@ == k {
                                        let j = choose|j: int|
                                            0 <= j < i + 1 && (#[trigger] fields@[j]).0@ == k;
                                        if j < i {
                                            assert(before.contains_key(k));
                                        }
                                    }
                                }
                            }
                        },
                        Err(_) => {
                            assert(m.contains_key(name@)
                                && !(FootnoteView::decode(m[name@]) is Ok));
                            return Err(Value::invalid_type(key));
                        },
                    }
                    i = i + 1;
                }
                proof {
                    assert forall|k: Seq<char>| #[trigger] m.contains_key(k) implies FootnoteView::decode(
                        m[k],
                    ) is Ok && out@.contains_key(k) by {
                        lemma_fields_dom(fields@, k);
                        let j = choose|j: int|
                            0 <= j < fields@.len() && (#[trigger] fields@[j]).0@ == k;
                        assert(out@.contains_key(k));
                    }
                    assert(Footnote::map_view(out@) =~= FootnoteView::decode_map(v@, key@)->Ok_0);
                }
                Ok(out)
            },
            _ => Err(Value::invalid_type(key)),
        }
    }
}

/// The root of a document: its blocks, and its references and footnotes by label.
#[derive(Debug, PartialEq, Eq)]
pub struct Doc {
    pub references: StringMap<Reference>,
    pub auto_references: StringMap<Reference>,
    pub footnotes: StringMap<Footnote>,
    pub children: Vec<Block>,
    pub meta: Meta,
}

/// The mathematical value of a [`Doc`].
pub struct DocView {
    pub references: Map<Seq<char>, ReferenceView>,
    pub auto_references: Map<Seq<char>, ReferenceView>,
    pub footnotes: Map<Seq<char>, FootnoteView>,
    pub children: Seq<BlockView>,
    pub meta: MetaView,
}

impl View for Doc {
    type V = DocView;

    open spec fn view(&self) -> DocView
    {
        DocView {
            references: Reference::map_view(self.references@),
            auto_references: Reference::map_view(self.auto_references@),
            footnotes: Footnote::map_view(self.footnotes@),
            children: Block::views(self.children@),
            meta: self.meta@,
        }
    }
}

impl DocView {
    /// The fields of the encoded node, before its metadata joins them.
    pub open spec fn fields(self) -> Map<Seq<char>, ValueView>
    {
        tagged("doc"@).insert(
            "references"@,
            ReferenceView::encode_map(self.references),
        ).insert(
            "autoReferences"@,
            ReferenceView::encode_map(self.auto_references),
        ).insert(
            "footnotes"@,
            FootnoteView::encode_map(self.footnotes),
        ).insert(
            "children"@,
            ValueView::Array(BlockView::encode_all(self.children)),
        )
    }

    /// The encoded node: its discriminator, its fields and its metadata.
    pub open spec fn encode(self) -> ValueView
    {
        ValueView::Object(self.meta.flatten(self.fields()))
    }

    /// The node that an encoded value holds, or why it holds none.
    pub open spec fn decode(v: ValueView) -> Result<DocView, ErrorView>
    {
        match v.expect_tag("doc"@) {
            Err(e) => Err(e),
            Ok(_) => match (match v.field("references"@) {
                Err(e) => Err(e),
                Ok(f) => ReferenceView::decode_map(f, "references"@),
            }) {
                Err(e) => Err(e),
                Ok(references) => match (match v.field("autoReferences"@) {
                    Err(e) => Err(e),
                    Ok(f) => ReferenceView::decode_map(f, "autoReferences"@),
                }) {
                    Err(e) => Err(e),
                    Ok(auto_references) => match (match v.field("footnotes"@) {
                        Err(e) => Err(e),
                        Ok(f) => FootnoteView::decode_map(f, "footnotes"@),
                    }) {
                        Err(e) => Err(e),
                        Ok(footnotes) => match (match v.array("children"@) {
                            Err(e) => Err(e),
                            Ok(items) => BlockView::decode_all(items),
                        }) {
                            Err(e) => Err(e),
                            Ok(children) => match MetaView::decode(v) {
                                Err(e) => Err(e),
                                Ok(meta) => Ok(
                                    DocView {
                                        references, auto_references, footnotes, children, meta,
                                    },
                                ),
                            },
                        },
                    },
                },
            },
        }
    }

    /// Decoding the encoded node gives the node back.
    pub proof fn lemma_roundtrip(self)
        ensures
            DocView::decode(self.encode()) == Ok::<DocView, ErrorView>(self),
    {
        lemma_names();
        let base = self.fields();
        lemma_flatten_keeps(self.meta, base, "tag"@);
        lemma_flatten_keeps(self.meta, base, "references"@);
        lemma_flatten_keeps(self.meta, base, "autoReferences"@);
        lemma_flatten_keeps(self.meta, base, "footnotes"@);
        lemma_flatten_keeps(self.meta, base, "children"@);
        lemma_meta_roundtrip(self.meta, base);
        ReferenceView::lemma_roundtrip_map(self.references, "references"@);
        ReferenceView::lemma_roundtrip_map(self.auto_references, "autoReferences"@);
        FootnoteView::lemma_roundtrip_map(self.footnotes, "footnotes"@);
        BlockView::lemma_roundtrip_all(self.children);
    }
}

impl Doc {
    /// A node with the given content and no metadata.
    pub fn new(
        references: StringMap<Reference>,
        auto_references: StringMap<Reference>,
        footnotes: StringMap<Footnote>,
        children: Vec<Block>,
    ) -> (r: Doc)
        ensures
            r.references == references,
            r.auto_references == auto_references,
            r.footnotes == footnotes,
            r.children == children,
            r.meta@ == MetaView::empty(),
    {
        Doc { references, auto_references, footnotes, children, meta: Meta::default() }
    }

    /// Encodes the node. No object of the result has two fields of one
    /// name.
    pub fn encode(&self) -> (v: Value)
        ensures
            v@ == self@.encode(),
            v.unambiguous(),
    {
        proof {
            lemma_names();
        }
        let mut fields = Value::tagged("doc");
        Value::put(&mut fields, "references", Reference::encode_map(&self.references));
        Value::put(&mut fields, "autoReferences", Reference::encode_map(&self.auto_references));
        Value::put(&mut fields, "footnotes", Footnote::encode_map(&self.footnotes));
        Value::put(&mut fields, "children", Value::Array(Block::encode_all(&self.children)));
        self.meta.flatten(&mut fields);
        Value::Object(fields)
    }

    /// Decodes a node of this kind. The value must be an object with the
    /// discriminator `doc` and each field of the node; the first thing
    /// found wrong is the failure.
    pub fn decode(v: &Value) -> (r: Result<Doc, Error>)
        ensures
            agrees(r, DocView::decode(v@)),
    {
        v.expect_tag("doc")?;
        let references = Reference::decode_map(v.field("references")?, "references")?;
        let auto_references = Reference::decode_map(v.field("autoReferences")?, "autoReferences")?;
        let footnotes = Footnote::decode_map(v.field("footnotes")?, "footnotes")?;
        let children = Block::decode_all(v.array_field("children")?)?;
        let meta = Meta::decode(v)?;
        Ok(Doc { references, auto_references, footnotes, children, meta })
    }
}

impl Node for Doc {
    open spec fn spec_node_type(&self) -> NodeType {
        NodeType::Root(self.children@.len() as usize)
    }

    fn node_type(&self) -> (t: NodeType) {
        NodeType::Root(self.children.len())
    }
}

impl HasMeta for Doc {
    open spec fn spec_meta(&self) -> Meta {
        self.meta
    }

    open spec fn with_meta(&self, meta: Meta) -> Doc {
        Doc { meta, ..*self }
    }

    fn meta(&self) -> (r: &Meta) {
        &self.meta
    }

    fn meta_mut(&mut self) -> (r: &mut Meta) {
        &mut self.meta
    }
}

impl Clone for Doc {
    fn clone(&self) -> (r: Doc)
        ensures
            r@ == self@,
    {
        let references = self.references.clone();
        let auto_references = self.auto_references.clone();
        let footnotes = self.footnotes.clone();
        let children = Block::clone_all(&self.children);
        assert(Reference::map_view(references@) =~= Reference::map_view(self.references@));
        assert(Reference::map_view(auto_references@)
            =~= Reference::map_view(self.auto_references@));
        assert(Footnote::map_view(footnotes@) =~= Footnote::map_view(self.footnotes@));
        let meta = self.meta.clone();
        Doc { references, auto_references, footnotes, children, meta }
    }
}

impl DocView {
    /// The document that holds nothing.
    pub open spec fn empty() -> DocView {
        DocView {
            references: Map::empty(),
            auto_references: Map::empty(),
            footnotes: Map::empty(),
            children: Seq::empty(),
            meta: MetaView::empty(),
        }
    }
}

impl Default for Doc {
    fn default() -> (r: Doc)
        ensures
            r@ == DocView::empty(),
    {
        let r = Doc {
            references: StringMap::new(),
            auto_references: StringMap::new(),
            footnotes: StringMap::new(),
            children: Vec::new(),
            meta: Meta::default(),
        };
        assert(r@.references =~= Map::<Seq<char>, ReferenceView>::empty());
        assert(r@.auto_references =~= Map::<Seq<char>, ReferenceView>::empty());
        assert(r@.footnotes =~= Map::<Seq<char>, FootnoteView>::empty());
        assert(r@.children =~= Seq::<BlockView>::empty());
        r
    }
}

} // verus!
