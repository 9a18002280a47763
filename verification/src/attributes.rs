//! The metadata that every node carries: explicit and automatic attributes
//! and the place of the node in the source.
use crate::error::{Error, ErrorView};
use crate::names::lemma_names;
use crate::string_map::{distinct_keys, pairs_map, StringMap};
use crate::value::{invalid_type, lemma_fields_dom, not_an_object, Value, ValueView};
use vstd::prelude::*;

verus! {

/// A map from attribute names to attribute values.
pub type Attributes = StringMap<String>;

/// The attributes of a map of strings, each value by its view.
pub open spec fn texts(m: Map<Seq<char>, String>) -> Map<Seq<char>, Seq<char>> {
    Map::new(|k: Seq<char>| m.contains_key(k), |k: Seq<char>| m[k]@)
}

/// A place in the source text.
#[derive(Debug, Copy, Clone, PartialEq, Eq, Structural)]
pub struct SourceLoc {
    pub line: u64,
    pub col: u64,
    pub offset: u64,
}

/// The stretch of source text that a node was read from.
#[derive(Debug, Clone, Copy, PartialEq, Eq, Structural)]
pub struct Pos {
    pub start: SourceLoc,
    pub end: SourceLoc,
}

impl SourceLoc {
    /// The encoded place: an object of three numbers.
    pub open spec fn spec_encode(self) -> ValueView {
        ValueView::Object(
            Map::<Seq<char>, ValueView>::empty().insert("line"@, ValueView::Number(self.line)).insert(
                "col"@,
                ValueView::Number(self.col),
            ).insert("offset"@, ValueView::Number(self.offset)),
        )
    }

    /// The place that an encoded value holds.
    pub open spec fn spec_decode(v: ValueView) -> Result<SourceLoc, ErrorView> {
        match v.number("line"@) {
            Err(e) => Err(e),
            Ok(line) => match v.number("col"@) {
                Err(e) => Err(e),
                Ok(col) => match v.number("offset"@) {
                    Err(e) => Err(e),
                    Ok(offset) => Ok(SourceLoc { line, col, offset }),
                },
            },
        }
    }

    /// Encodes the place.
    pub fn encode(&self) -> (v: Value)
        ensures
            v@ == self.spec_encode(),
            v.unambiguous(),
    {
        proof {
            lemma_names();
        }
        let mut fields: Vec<(String, Value)> = Vec::new();
        assert(Value::fields(fields@) == Map::<Seq<char>, ValueView>::empty());
        Value::put(&mut fields, "line", Value::Number(self.line));
        Value::put(&mut fields, "col", Value::Number(self.col));
        Value::put(&mut fields, "offset", Value::Number(self.offset));
        Value::Object(fields)
    }

    /// Decodes a place: an object with the numbers `line`, `col` and
    /// `offset`.
    pub fn decode(v: &Value) -> (r: Result<SourceLoc, Error>)
        ensures
            match SourceLoc::spec_decode(v@) {
                Ok(loc) => r == Ok::<SourceLoc, Error>(loc),
                Err(e) => r is Err && r->Err_0@ == e,
            },
    {
        let line = v.number_field("line")?;
        let col = v.number_field("col")?;
        let offset = v.number_field("offset")?;
        Ok(SourceLoc { line, col, offset })
    }
}

impl Pos {
    /// The encoded span: an object of its two ends.
    pub open spec fn spec_encode(self) -> ValueView {
        ValueView::Object(
            Map::<Seq<char>, ValueView>::empty().insert("start"@, self.start.spec_encode()).insert(
                "end"@,
                self.end.spec_encode(),
            ),
        )
    }

    /// The span that an encoded value holds.
    pub open spec fn spec_decode(v: ValueView) -> Result<Pos, ErrorView> {
        match v.field("start"@) {
            Err(e) => Err(e),
            Ok(s) => match SourceLoc::spec_decode(s) {
                Err(e) => Err(e),
                Ok(start) => match v.field("end"@) {
                    Err(e) => Err(e),
                    Ok(e) => match SourceLoc::spec_decode(e) {
                        Err(e) => Err(e),
                        Ok(end) => Ok(Pos { start, end }),
                    },
                },
            },
        }
    }

    /// Encodes the span.
    pub fn encode(&self) -> (v: Value)
        ensures
            v@ == self.spec_encode(),
            v.unambiguous(),
    {
        proof {
            lemma_names();
        }
        let mut fields: Vec<(String, Value)> = Vec::new();
        assert(Value::fields(fields@) == Map::<Seq<char>, ValueView>::empty());
        Value::put(&mut fields, "start", self.start.encode());
        Value::put(&mut fields, "end", self.end.encode());
        Value::Object(fields)
    }

    /// Decodes a span: an object with the places `start` and `end`.
    pub fn decode(v: &Value) -> (r: Result<Pos, Error>)
        ensures
            match Pos::spec_decode(v@) {
                Ok(pos) => r == Ok::<Pos, Error>(pos),
                Err(e) => r is Err && r->Err_0@ == e,
            },
    {
        let start = SourceLoc::decode(v.field("start")?)?;
        let end = SourceLoc::decode(v.field("end")?)?;
        Ok(Pos { start, end })
    }
}

/// The encoded attribute map: an object with one text per attribute.
pub open spec fn encode_attributes(m: Map<Seq<char>, Seq<char>>) -> ValueView {
    ValueView::Object(
        Map::new(|k: Seq<char>| m.contains_key(k), |k: Seq<char>| ValueView::Text(m[k])),
    )
}

/// The attribute map that the value of the field `key` holds: the value is
/// an object, and each of its fields a text.
pub open spec fn decode_attributes(v: ValueView, key: Seq<char>) -> Result<
    Map<Seq<char>, Seq<char>>,
    ErrorView,
> {
    match v {
        ValueView::Object(m) => if forall|k: Seq<char>| m.contains_key(k) ==> (#[trigger] m[k]) is Text {
            Ok(Map::new(|k: Seq<char>| m.contains_key(k), |k: Seq<char>| m[k]->Text_0))
        } else {
            Err(invalid_type(key))
        },
        _ => Err(invalid_type(key)),
    }
}

/// An attribute map comes back from its encoded form.
pub proof fn lemma_attributes_roundtrip(m: Map<Seq<char>, Seq<char>>, key: Seq<char>)
    ensures
        decode_attributes(encode_attributes(m), key) == Ok::<Map<Seq<char>, Seq<char>>, ErrorView>(
            m,
        ),
{
    assert(decode_attributes(encode_attributes(m), key)->Ok_0 =~= m);
}

/// Encodes an attribute map.
pub fn attributes_to_value(attributes: &Attributes) -> (v: Value)
    ensures
        v@ == encode_attributes(texts(attributes@)),
        v.unambiguous(),
{
    let entries = attributes.entries();
    let mut fields: Vec<(String, Value)> = Vec::new();
    let mut i: usize = 0;
    assert(entries@.take(0) =~= Seq::<(String, String)>::empty());
    assert(Value::fields(fields@) =~= encode_attributes(texts(pairs_map(entries@.take(0))))->Object_0);
    while i < entries.len()
        invariant
            i <= entries@.len(),
            fields@.len() == i,
            distinct_keys(entries@),
            forall|j: int| 0 <= j < i ==> (#[trigger] fields@[j]).0@ == entries@[j].0@,
            forall|j: int| 0 <= j < i ==> (#[trigger] fields@[j]).1 is Text,
            ValueView::Object(Value::fields(fields@)) == encode_attributes(
                texts(pairs_map(entries@.take(i as int))),
            ),
        decreases entries@.len() - i,
    {
        proof {
            let t = entries@.take(i as int + 1);
            assert(t.drop_last() =~= entries@.take(i as int));
            assert(t.last() == entries@[i as int]);
            assert(pairs_map(t) == pairs_map(t.drop_last()).insert(t.last().0@, t.last().1));
        }
        let ghost before = fields@;
        fields.push((entries[i].0.clone(), Value::Text(entries[i].1.clone())));
        proof {
            let t = entries@.take(i as int + 1);
            assert(fields@.drop_last() =~= before);
            assert(Value::fields(fields@) == Value::fields(fields@.drop_last()).insert(
                fields@.last().0@,
                fields@.last().1@,
            ));
            assert(Value::fields(fields@) =~= encode_attributes(texts(pairs_map(t)))->Object_0);
        }
        i = i + 1;
    }
    assert(entries@.take(i as int) =~= entries@);
    proof {
        assert forall|a: int, b: int| 0 <= a < b < fields@.len() implies (#[trigger] fields@[a]).0@
            != (#[trigger] fields@[b]).0@ by {
            assert(entries@[a].0@ != entries@[b].0@);
        }
        assert forall|a: int| 0 <= a < fields@.len() implies (#[trigger] fields@[a]).1.unambiguous() by {
            assert(fields@[a].1 is Text);
        }
        assert(Value::plain(fields@));
    }
    Value::Object(fields)
}

/// Decodes the attribute map held by `v`, the value of the field `key`.
pub fn attributes_from_value(v: &Value, key: &str) -> (r: Result<Attributes, Error>)
    ensures
        match decode_attributes(v@, key@) {
            Ok(m) => r is Ok && texts(r->Ok_0@) == m,
            Err(e) => r is Err && r->Err_0@ == e,
        },
{
    match v {
        Value::Object(fields) => {
            let ghost m = Value::fields(fields@);
            let mut out: Attributes = StringMap::new();
            let mut i: usize = 0;
            while i < fields.len()
                invariant
                    i <= fields@.len(),
                    *v == Value::Object(*fields),
                    m == Value::fields(fields@),
                    forall|k: Seq<char>| #[trigger]
                        out@.contains_key(k) <==> exists|j: int|
                            0 <= j < i && (#[trigger] fields@[j]).0@ == k,
                    forall|k: Seq<char>| #[trigger]
                        out@.contains_key(k) ==> m.contains_key(k) && m[k] == ValueView::Text(
                            out@[k]@,
                        ),
                decreases fields@.len() - i,
            {
                let name = &fields[i].0;
                proof {
                    lemma_fields_dom(fields@, name@);
                }
                match v.lookup(name.as_str()) {
                    Ok(Some(Value::Text(t))) => {
                        let ghost before = out@;
                        out.insert(name.clone(), t.clone());
                        proof {
                            assert forall|k: Seq<char>| #[trigger]
                                out@.contains_key(k) <==> exists|j: int|
                                    0 <= j < i + 1 && (#[trigger] fields@[j]).0@ == k by {
                                if out@.contains_key(k) {
                                    if before.contains_key(k) {
                                        let j = choose|j: int|
                                            0 <= j < i && (#[trigger] fields@[j]).0@ == k;
                                        assert(0 <= j < i + 1 && fields@[j].0@ == k);
                                    } else {
                                        assert(fields@[i as int].0@ == k);
                                    }
                                }
                                if exists|j: int|
                                    0 <= j < i + 1 && (#[trigger] fields@[j]).0@ == k {
                                    let j = choose|j: int|
                                        0 <= j < i + 1 && (#[trigger] fields@[j]).0@ == k;
                                    if j < i {
                                        assert(before.contains_key(k));
                                    }
                                }
                            }
                        }
                    },
                    _ => {
                        assert(!(m[name@] is Text));
                        return Err(Value::invalid_type(key));
                    },
                }
                i = i + 1;
            }
            proof {
                assert forall|k: Seq<char>| m.contains_key(k) implies (#[trigger] m[k]) is Text by {
                    lemma_fields_dom(fields@, k);
                    let j = choose|j: int| 0 <= j < fields@.len() && (#[trigger] fields@[j]).0@ == k;
                    assert(out@.contains_key(k));
                }
                assert forall|k: Seq<char>| m.contains_key(k) <==> out@.contains_key(k) by {
                    lemma_fields_dom(fields@, k);
                    if m.contains_key(k) {
                        let j = choose|j: int|
                            0 <= j < fields@.len() && (#[trigger] fields@[j]).0@ == k;
                        assert(out@.contains_key(k));
                    }
                }
                assert(texts(out@) =~= decode_attributes(v@, key@)->Ok_0);
            }
            Ok(out)
        },
        _ => Err(Value::invalid_type(key)),
    }
}

/// What every node carries besides its content.
#[derive(Debug, PartialEq, Eq)]
pub struct Meta {
    attributes: Attributes,
    auto_attributes: Attributes,
    pos: Option<Pos>,
}

/// The mathematical value of a [`Meta`].
pub struct MetaView {
    /// The attributes that the author set.
    pub attributes: Map<Seq<char>, Seq<char>>,
    /// The attributes that the system derived.
    pub auto_attributes: Map<Seq<char>, Seq<char>>,
    /// The source span, where one is known.
    pub pos: Option<Pos>,
}

impl View for Meta {
    type V = MetaView;

    closed spec fn view(&self) -> MetaView {
        MetaView {
            attributes: texts(self.attributes@),
            auto_attributes: texts(self.auto_attributes@),
            pos: self.pos,
        }
    }
}

impl MetaView {
    /// No attribute and no span.
    pub open spec fn empty() -> MetaView {
        MetaView { attributes: Map::empty(), auto_attributes: Map::empty(), pos: None }
    }

    /// The value of the attribute `key`: the explicit one where there is
    /// one, else the automatic one.
    pub open spec fn lookup(self, key: Seq<char>) -> Option<Seq<char>> {
        if self.attributes.contains_key(key) {
            Some(self.attributes[key])
        } else if self.auto_attributes.contains_key(key) {
            Some(self.auto_attributes[key])
        } else {
            None
        }
    }

    /// The fields of `base` and, beside them, those of the metadata: each
    /// attribute map that is not empty, and the span if there is one.
    pub open spec fn flatten(self, base: Map<Seq<char>, ValueView>) -> Map<Seq<char>, ValueView> {
        let a = if self.attributes == Map::<Seq<char>, Seq<char>>::empty() {
            base
        } else {
            base.insert("attributes"@, encode_attributes(self.attributes))
        };
        let b = if self.auto_attributes == Map::<Seq<char>, Seq<char>>::empty() {
            a
        } else {
            a.insert("autoAttributes"@, encode_attributes(self.auto_attributes))
        };
        match self.pos {
            Some(pos) => b.insert("pos"@, pos.spec_encode()),
            None => b,
        }
    }

    /// The metadata among the fields of an encoded node. An attribute map
    /// that is absent is empty; a span that is absent or null is none.
    pub open spec fn decode(v: ValueView) -> Result<MetaView, ErrorView> {
        match v {
            ValueView::Object(m) => match (if m.contains_key("attributes"@) {
                decode_attributes(m["attributes"@], "attributes"@)
            } else {
                Ok(Map::empty())
            }) {
                Err(e) => Err(e),
                Ok(attributes) => match (if m.contains_key("autoAttributes"@) {
                    decode_attributes(m["autoAttributes"@], "autoAttributes"@)
                } else {
                    Ok(Map::empty())
                }) {
                    Err(e) => Err(e),
                    Ok(auto_attributes) => match v.optional("pos"@) {
                        Err(e) => Err(e),
                        Ok(None) => Ok(MetaView { attributes, auto_attributes, pos: None }),
                        Ok(Some(p)) => match Pos::spec_decode(p) {
                            Err(e) => Err(e),
                            Ok(pos) => Ok(MetaView { attributes, auto_attributes, pos: Some(pos) }),
                        },
                    },
                },
            },
            _ => Err(not_an_object()),
        }
    }
}

impl Meta {
    /// Metadata with the given parts.
    pub fn new(attributes: Attributes, auto_attributes: Attributes, pos: Option<Pos>) -> (r: Meta)
        ensures
            r@ == (MetaView {
                attributes: texts(attributes@),
                auto_attributes: texts(auto_attributes@),
                pos,
            }),
    {
        Meta { attributes, auto_attributes, pos }
    }

    /// Adds the fields of the metadata to those of a node. Plain fields
    /// that use none of the names of the metadata stay plain.
    pub fn flatten(&self, fields: &mut Vec<(String, Value)>)
        ensures
            Value::fields(final(fields)@) == self@.flatten(Value::fields(old(fields)@)),
            Value::plain(old(fields)@) && has_no_meta_key(Value::fields(old(fields)@))
                ==> Value::plain(final(fields)@),
    {
        proof {
            lemma_names();
        }
        if !self.attributes.is_empty() {
            Value::put(fields, "attributes", attributes_to_value(&self.attributes));
        } else {
            assert(texts(self.attributes@) =~= Map::<Seq<char>, Seq<char>>::empty());
        }
        if !self.auto_attributes.is_empty() {
            Value::put(fields, "autoAttributes", attributes_to_value(&self.auto_attributes));
        } else {
            assert(texts(self.auto_attributes@) =~= Map::<Seq<char>, Seq<char>>::empty());
        }
        proof {
            if texts(self.attributes@) == Map::<Seq<char>, Seq<char>>::empty() {
                assert forall|k: Seq<char>| !self.attributes@.contains_key(k) by {
                    assert(!texts(self.attributes@).contains_key(k));
                }
                assert(self.attributes@ =~= Map::<Seq<char>, String>::empty());
            }
            if texts(self.auto_attributes@) == Map::<Seq<char>, Seq<char>>::empty() {
                assert forall|k: Seq<char>| !self.auto_attributes@.contains_key(k) by {
                    assert(!texts(self.auto_attributes@).contains_key(k));
                }
                assert(self.auto_attributes@ =~= Map::<Seq<char>, String>::empty());
            }
        }
        match &self.pos {
            Some(pos) => {
                Value::put(fields, "pos", pos.encode());
            },
            None => {},
        }
    }

    /// Reads the metadata from the fields of an encoded node.
    pub fn decode(v: &Value) -> (r: Result<Meta, Error>)
        ensures
            match MetaView::decode(v@) {
                Ok(m) => r is Ok && r->Ok_0@ == m,
                Err(e) => r is Err && r->Err_0@ == e,
            },
    {
        let attributes = match v.lookup("attributes")? {
            Some(a) => attributes_from_value(a, "attributes")?,
            None => {
                let a: Attributes = StringMap::new();
                assert(texts(a@) =~= Map::<Seq<char>, Seq<char>>::empty());
                a
            },
        };
        let auto_attributes = match v.lookup("autoAttributes")? {
            Some(a) => attributes_from_value(a, "autoAttributes")?,
            None => {
                let a: Attributes = StringMap::new();
                assert(texts(a@) =~= Map::<Seq<char>, Seq<char>>::empty());
                a
            },
        };
        let pos = match v.optional("pos")? {
            Some(p) => Some(Pos::decode(p)?),
            None => None,
        };
        Ok(Meta { attributes, auto_attributes, pos })
    }
}

impl Default for Meta {
    fn default() -> (r: Meta)
        ensures
            r@ == MetaView::empty(),
    {
        let attributes: Attributes = StringMap::new();
        let auto_attributes: Attributes = StringMap::new();
        assert(texts(attributes@) =~= Map::<Seq<char>, Seq<char>>::empty());
        assert(texts(auto_attributes@) =~= Map::<Seq<char>, Seq<char>>::empty());
        Meta { attributes, auto_attributes, pos: None }
    }
}

impl Clone for Meta {
    fn clone(&self) -> (r: Meta)
        ensures
            r@ == self@,
    {
        let attributes = self.attributes.clone();
        let auto_attributes = self.auto_attributes.clone();
        assert(texts(attributes@) =~= texts(self.attributes@));
        assert(texts(auto_attributes@) =~= texts(self.auto_attributes@));
        Meta { attributes, auto_attributes, pos: self.pos }
    }
}

/// No field of the map has one of the names under which metadata is kept.
pub open spec fn has_no_meta_key(m: Map<Seq<char>, ValueView>) -> bool {
    !m.contains_key("attributes"@) && !m.contains_key("autoAttributes"@) && !m.contains_key("pos"@)
}

/// Whether `key` names one of the fields that hold metadata.
pub open spec fn is_meta_key(key: Seq<char>) -> bool {
    key == "attributes"@ || key == "autoAttributes"@ || key == "pos"@
}

/// Flattening the metadata leaves every other field as it was.
pub proof fn lemma_flatten_keeps(meta: MetaView, base: Map<Seq<char>, ValueView>, key: Seq<char>)
    requires
        !is_meta_key(key),
    ensures
        meta.flatten(base).contains_key(key) == base.contains_key(key),
        meta.flatten(base)[key] == base[key],
{
}

/// Metadata comes back from the fields it was flattened into, where the
/// node's own fields use none of its names.
pub proof fn lemma_meta_roundtrip(meta: MetaView, base: Map<Seq<char>, ValueView>)
    requires
        has_no_meta_key(base),
    ensures
        MetaView::decode(ValueView::Object(meta.flatten(base))) == Ok::<MetaView, ErrorView>(meta),
{
    lemma_names();
    lemma_attributes_roundtrip(meta.attributes, "attributes"@);
    lemma_attributes_roundtrip(meta.auto_attributes, "autoAttributes"@);
    match meta.pos {
        Some(pos) => {
            lemma_pos_roundtrip(pos);
        },
        None => {},
    }
}

/// A span comes back from its encoded form.
pub proof fn lemma_pos_roundtrip(pos: Pos)
    ensures
        Pos::spec_decode(pos.spec_encode()) == Ok::<Pos, ErrorView>(pos),
{
    lemma_names();
}

/// What gives access to a node's metadata as a whole.
pub trait HasMeta: Sized {
    /// The metadata of the node.
    spec fn spec_meta(&self) -> Meta;

    /// The node with other metadata.
    spec fn with_meta(&self, meta: Meta) -> Self;

    fn meta(&self) -> (r: &Meta)
        ensures
            *r == self.spec_meta(),
    ;

    fn meta_mut(&mut self) -> (r: &mut Meta)
        ensures
            *r == old(self).spec_meta(),
            final(self).spec_meta() == *final(r),
            *final(self) == old(self).with_meta(*final(r)),
    ;
}

/// Access to the attributes and the source span of a node.
pub trait HasAttributes: Sized {
    /// The metadata of the node, as a mathematical value.
    spec fn meta_view(&self) -> MetaView;

    /// `after` is this node but for its metadata.
    spec fn rest_kept(&self, after: &Self) -> bool;

    /// Get a reference to the attributes.
    fn attributes(&self) -> (r: &Attributes)
        ensures
            texts(r@) == self.meta_view().attributes,
    ;

    /// Get a mutable reference to the attributes.
    fn attributes_mut(&mut self) -> (r: &mut Attributes)
        ensures
            texts(r@) == old(self).meta_view().attributes,
            final(self).meta_view() == (MetaView {
                attributes: texts(final(r)@),
                ..old(self).meta_view()
            }),
            old(self).rest_kept(final(self)),
    ;

    /// Get a reference to the automatic attributes.
    fn auto_attributes(&self) -> (r: &Attributes)
        ensures
            texts(r@) == self.meta_view().auto_attributes,
    ;

    /// Get an optional reference to the position.
    fn pos(&self) -> (r: Option<&Pos>)
        ensures
            match r {
                Some(p) => self.meta_view().pos == Some(*p),
                None => self.meta_view().pos is None,
            },
    ;

    /// Get a mutable reference to the optional position (so the position can be removed entirely).
    fn pos_mut(&mut self) -> (r: &mut Option<Pos>)
        ensures
            *r == old(self).meta_view().pos,
            final(self).meta_view() == (MetaView { pos: *final(r), ..old(self).meta_view() }),
            old(self).rest_kept(final(self)),
    ;

    /// Look up a key in the explicit attributes, then the automatic attributes if not found.
    fn get_attribute(&self, key: &str) -> (r: Option<&str>)
        ensures
            match self.meta_view().lookup(key@) {
                Some(t) => r is Some && r->Some_0@ == t,
                None => r is None,
            },
    {
        match self.attributes().get(key) {
            Some(s) => Some(s.as_str()),
            None => match self.auto_attributes().get(key) {
                Some(s) => Some(s.as_str()),
                None => None,
            },
        }
    }
}

impl<T: HasMeta> HasAttributes for T {
    open spec fn meta_view(&self) -> MetaView {
        self.spec_meta()@
    }

    open spec fn rest_kept(&self, after: &Self) -> bool {
        *after == self.with_meta(after.spec_meta())
    }

    fn attributes(&self) -> (r: &Attributes) {
        self.meta().attributes()
    }

    fn attributes_mut(&mut self) -> (r: &mut Attributes) {
        self.meta_mut().attributes_mut()
    }

    fn auto_attributes(&self) -> (r: &Attributes) {
        self.meta().auto_attributes()
    }

    fn pos(&self) -> (r: Option<&Pos>) {
        self.meta().pos()
    }

    fn pos_mut(&mut self) -> (r: &mut Option<Pos>) {
        self.meta_mut().pos_mut()
    }
}

impl HasAttributes for Meta {
    open spec fn meta_view(&self) -> MetaView {
        self@
    }

    open spec fn rest_kept(&self, after: &Self) -> bool {
        true
    }

    fn attributes(&self) -> (r: &Attributes) {
        assert(self.meta_view().attributes == texts(self.attributes@));
        &self.attributes
    }

    fn attributes_mut(&mut self) -> (r: &mut Attributes) {
        &mut self.attributes
    }

    fn auto_attributes(&self) -> (r: &Attributes) {
        &self.auto_attributes
    }

    fn pos(&self) -> (r: Option<&Pos>) {
        self.pos.as_ref()
    }

    fn pos_mut(&mut self) -> (r: &mut Option<Pos>) {
        &mut self.pos
    }
}

} // verus!
