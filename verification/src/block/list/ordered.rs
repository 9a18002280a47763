//! Ordered lists and their style.
use crate::attributes::{lemma_flatten_keeps, lemma_meta_roundtrip, HasMeta, Meta, MetaView};
use crate::block::list::{ListItem, ListItemView};
use crate::error::{agrees, Error, ErrorView};
use crate::names::lemma_names;
use crate::text::joined;
use crate::traverse::{Node, NodeType};
use crate::value::{number_or_null, tagged, Value, ValueView};
use vstd::prelude::*;
use vstd::string::StringExecFns;

verus! {

/// A numbered list.
#[derive(Debug, PartialEq, Eq)]
pub struct OrderedList {
    pub style: OrderedListStyle,
    pub tight: bool,
    pub start: Option<u64>,
    pub children: Vec<ListItem>,
    pub meta: Meta,
}

/// The mathematical value of an [`OrderedList`].
pub struct OrderedListView {
    pub style: OrderedListStyle,
    pub tight: bool,
    pub start: Option<u64>,
    pub children: Seq<ListItemView>,
    pub meta: MetaView,
}

impl View for OrderedList {
    type V = OrderedListView;

    open spec fn view(&self) -> OrderedListView
        decreases self,
    {
        OrderedListView {
            style: self.style,
            tight: self.tight,
            start: self.start,
            children: ListItem::views(self.children@),
            meta: self.meta@,
        }
    }
}

impl OrderedListView {
    /// The fields of the encoded node, before its metadata joins them.
    pub open spec fn fields(self) -> Map<Seq<char>, ValueView>
        decreases self, 0int,
    {
        tagged("ordered_list"@).insert(
            "style"@,
            ValueView::Text(self.style.text()),
        ).insert(
            "tight"@,
            ValueView::Bool(self.tight),
        ).insert(
            "start"@,
            number_or_null(self.start),
        ).insert(
            "children"@,
            ValueView::Array(ListItemView::encode_all(self.children)),
        )
    }

    /// The encoded node: its discriminator, its fields and its metadata.
    pub open spec fn encode(self) -> ValueView
        decreases self, 1int,
    {
        ValueView::Object(self.meta.flatten(self.fields()))
    }

    /// The node that an encoded value holds, or why it holds none.
    pub open spec fn decode(v: ValueView) -> Result<OrderedListView, ErrorView>
        decreases v, 0int,
    {
        match v.expect_tag("ordered_list"@) {
            Err(e) => Err(e),
            Ok(_) => match (match v.text("style"@) {
                Err(e) => Err(e),
                Ok(t) => OrderedListStyle::parse(t),
            }) {
                Err(e) => Err(e),
                Ok(style) => match v.boolean("tight"@) {
                    Err(e) => Err(e),
                    Ok(tight) => match v.optional_number("start"@) {
                        Err(e) => Err(e),
                        Ok(start) => match (match v.array("children"@) {
                            Err(e) => Err(e),
                            Ok(items) => ListItemView::decode_all(items),
                        }) {
                            Err(e) => Err(e),
                            Ok(children) => match MetaView::decode(v) {
                                Err(e) => Err(e),
                                Ok(meta) => Ok(
                                    OrderedListView { style, tight, start, children, meta },
                                ),
                            },
                        },
                    },
                },
            },
        }
    }

    /// Decoding the encoded node gives the node back.
    pub proof fn lemma_roundtrip(self)
        ensures
            OrderedListView::decode(self.encode()) == Ok::<OrderedListView, ErrorView>(self),
        decreases self,
    {
        lemma_names();
        let base = self.fields();
        lemma_flatten_keeps(self.meta, base, "tag"@);
        lemma_flatten_keeps(self.meta, base, "style"@);
        lemma_flatten_keeps(self.meta, base, "tight"@);
        lemma_flatten_keeps(self.meta, base, "start"@);
        lemma_flatten_keeps(self.meta, base, "children"@);
        lemma_meta_roundtrip(self.meta, base);
        OrderedListStyle::lemma_roundtrip(self.style);
        ListItemView::lemma_roundtrip_all(self.children);
    }
}

impl OrderedList {
    /// A node with the given content and no metadata.
    pub fn new(
        style: OrderedListStyle,
        tight: bool,
        start: Option<u64>,
        children: Vec<ListItem>,
    ) -> (r: OrderedList)
        ensures
            r.style == style,
            r.tight == tight,
            r.start == start,
            r.children == children,
            r.meta@ == MetaView::empty(),
    {
        OrderedList { style, tight, start, children, meta: Meta::default() }
    }

    /// Encodes the node. No object of the result has two fields of one
    /// name.
    pub fn encode(&self) -> (v: Value)
        ensures
            v@ == self@.encode(),
            v.unambiguous(),
        decreases self,
    {
        proof {
            lemma_names();
        }
        let mut fields = Value::tagged("ordered_list");
        Value::put(&mut fields, "style", Value::Text(self.style.to_string()));
        Value::put(&mut fields, "tight", Value::Bool(self.tight));
        Value::put(&mut fields, "start", Value::number_or_null(&self.start));
        Value::put(&mut fields, "children", Value::Array(ListItem::encode_all(&self.children)));
        self.meta.flatten(&mut fields);
        Value::Object(fields)
    }

    /// Decodes a node of this kind. The value must be an object with the
    /// discriminator `ordered_list` and each field of the node; the first thing
    /// found wrong is the failure.
    pub fn decode(v: &Value) -> (r: Result<OrderedList, Error>)
        ensures
            agrees(r, OrderedListView::decode(v@)),
        decreases v@, 0int,
    {
        v.expect_tag("ordered_list")?;
        let style = OrderedListStyle::from_str(v.text_field("style")?.as_str())?;
        let tight = v.bool_field("tight")?;
        let start = v.optional_number_field("start")?;
        let children = ListItem::decode_all(v.array_field("children")?)?;
        let meta = Meta::decode(v)?;
        Ok(OrderedList { style, tight, start, children, meta })
    }
}

impl Node for OrderedList {
    open spec fn spec_node_type(&self) -> NodeType {
        NodeType::Branch(self.children@.len() as usize)
    }

    fn node_type(&self) -> (t: NodeType) {
        NodeType::Branch(self.children.len())
    }
}

impl HasMeta for OrderedList {
    open spec fn spec_meta(&self) -> Meta {
        self.meta
    }

    open spec fn with_meta(&self, meta: Meta) -> OrderedList {
        OrderedList { meta, ..*self }
    }

    fn meta(&self) -> (r: &Meta) {
        &self.meta
    }

    fn meta_mut(&mut self) -> (r: &mut Meta) {
        &mut self.meta
    }
}

impl Clone for OrderedList {
    fn clone(&self) -> (r: OrderedList)
        ensures
            r@ == self@,
        decreases self,
    {
        let style = self.style;
        let tight = self.tight;
        let start = self.start;
        let children = ListItem::clone_all(&self.children);
        let meta = self.meta.clone();
        OrderedList { style, tight, start, children, meta }
    }
}

/// How the items of an ordered list are numbered.
#[derive(Debug, Clone, Copy, PartialEq, Eq, Structural)]
pub enum NumberStyle {
    Arabic,
    LowerAlpha,
    UpperAlpha,
    LowerRoman,
    UpperRoman,
}

/// What stands around the number of an item.
#[derive(Debug, Clone, Copy, PartialEq, Eq, Structural)]
pub enum FenceStyle {
    Dot,
    RightParen,
    BothParen,
}

/// The style of an ordered list: how its items are numbered and fenced. Its
/// encoded form is a text of two or three characters, such as `1.`, `a)` or
/// `(I)`.
#[derive(Debug, Clone, Copy, PartialEq, Eq, Structural)]
pub struct OrderedListStyle {
    pub number: NumberStyle,
    pub fence: FenceStyle,
}

impl NumberStyle {
    /// The character that stands for the way of numbering.
    pub open spec fn mark(self) -> char {
        match self {
            NumberStyle::Arabic => '1',
            NumberStyle::LowerAlpha => 'a',
            NumberStyle::UpperAlpha => 'A',
            NumberStyle::LowerRoman => 'i',
            NumberStyle::UpperRoman => 'I',
        }
    }

    /// The way of numbering that a character stands for, if it stands for
    /// one.
    pub open spec fn of_mark(c: char) -> Option<NumberStyle> {
        if c == '1' {
            Some(NumberStyle::Arabic)
        } else if c == 'a' {
            Some(NumberStyle::LowerAlpha)
        } else if c == 'A' {
            Some(NumberStyle::UpperAlpha)
        } else if c == 'i' {
            Some(NumberStyle::LowerRoman)
        } else if c == 'I' {
            Some(NumberStyle::UpperRoman)
        } else {
            None
        }
    }

    fn mark_str(&self) -> (s: &'static str)
        ensures
            s@ == seq![self.mark()],
    {
        proof {
            reveal_strlit("1");
            reveal_strlit("a");
            reveal_strlit("A");
            reveal_strlit("i");
            reveal_strlit("I");
        }
        let s = match self {
            NumberStyle::Arabic => "1",
            NumberStyle::LowerAlpha => "a",
            NumberStyle::UpperAlpha => "A",
            NumberStyle::LowerRoman => "i",
            NumberStyle::UpperRoman => "I",
        };
        assert(s@ =~= seq![self.mark()]);
        s
    }

    fn from_mark(c: char) -> (r: Option<NumberStyle>)
        ensures
            r == NumberStyle::of_mark(c),
    {
        if c == '1' {
            Some(NumberStyle::Arabic)
        } else if c == 'a' {
            Some(NumberStyle::LowerAlpha)
        } else if c == 'A' {
            Some(NumberStyle::UpperAlpha)
        } else if c == 'i' {
            Some(NumberStyle::LowerRoman)
        } else if c == 'I' {
            Some(NumberStyle::UpperRoman)
        } else {
            None
        }
    }
}

impl OrderedListStyle {
    /// The canonical text of the style: an opening parenthesis where the
    /// number is fenced on both sides, the mark of the numbering, and a dot
    /// or a closing parenthesis.
    pub open spec fn text(self) -> Seq<char> {
        match self.fence {
            FenceStyle::Dot => seq![self.number.mark(), '.'],
            FenceStyle::RightParen => seq![self.number.mark(), ')'],
            FenceStyle::BothParen => seq!['(', self.number.mark(), ')'],
        }
    }

    /// The style that a text begins with. An opening parenthesis must be
    /// followed by a mark and a closing parenthesis; without it, a mark must
    /// be followed by a dot or a closing parenthesis. What follows the
    /// style in the text is not looked at.
    pub open spec fn style_of(s: Seq<char>) -> Option<OrderedListStyle> {
        if s.len() >= 1 && s[0] == '(' {
            if s.len() >= 3 && s[2] == ')' {
                match NumberStyle::of_mark(s[1]) {
                    Some(number) => Some(OrderedListStyle { number, fence: FenceStyle::BothParen }),
                    None => None,
                }
            } else {
                None
            }
        } else if s.len() >= 2 {
            match NumberStyle::of_mark(s[0]) {
                Some(number) => if s[1] == '.' {
                    Some(OrderedListStyle { number, fence: FenceStyle::Dot })
                } else if s[1] == ')' {
                    Some(OrderedListStyle { number, fence: FenceStyle::RightParen })
                } else {
                    None
                },
                None => None,
            }
        } else {
            None
        }
    }

    /// The failure for a text that holds no style; it quotes the text.
    pub open spec fn invalid(s: Seq<char>) -> ErrorView {
        ErrorView::General("invalid ordered list style '"@ + s + "'"@)
    }

    /// The style that a text holds, or the failure that quotes the text.
    pub open spec fn parse(s: Seq<char>) -> Result<OrderedListStyle, ErrorView> {
        match OrderedListStyle::style_of(s) {
            Some(style) => Ok(style),
            None => Err(OrderedListStyle::invalid(s)),
        }
    }

    /// Every style comes back from its canonical text.
    pub proof fn lemma_roundtrip(self)
        ensures
            OrderedListStyle::parse(self.text()) == Ok::<OrderedListStyle, ErrorView>(self),
            2 <= self.text().len() <= 3,
    {
    }

    /// A text holds a style exactly when it begins with the canonical text
    /// of that style.
    pub proof fn lemma_holds_canonical_text(s: Seq<char>, style: OrderedListStyle)
        ensures
            OrderedListStyle::parse(s) == Ok::<OrderedListStyle, ErrorView>(style)
                <==> style.text().is_prefix_of(s),
    {
        let t = style.text();
        if t.is_prefix_of(s) {
            assert(forall|i: int| 0 <= i < t.len() ==> s[i] == s.subrange(0, t.len() as int)[i]);
            assert(s[0] == t[0] && s[1] == t[1]);
            if style.fence == FenceStyle::BothParen {
                assert(s[2] == t[2]);
            }
        }
        if OrderedListStyle::parse(s) == Ok::<OrderedListStyle, ErrorView>(style) {
            assert(t =~= s.subrange(0, t.len() as int));
        }
    }

    /// The style with the given numbering and fence.
    pub fn new(number: NumberStyle, fence: FenceStyle) -> (r: OrderedListStyle)
        ensures
            r == (OrderedListStyle { number, fence }),
    {
        OrderedListStyle { number, fence }
    }

    /// The canonical text of the style.
    pub fn to_string(&self) -> (s: String)
        ensures
            s@ == self.text(),
    {
        proof {
            reveal_strlit("(");
            reveal_strlit(")");
            reveal_strlit(".");
            reveal_strlit("");
        }
        let open = match self.fence {
            FenceStyle::BothParen => "(",
            _ => "",
        };
        let close = match self.fence {
            FenceStyle::Dot => ".",
            _ => ")",
        };
        let s = open.to_owned().concat(self.number.mark_str()).concat(close);
        assert(s@ =~= self.text());
        s
    }

    /// Reads a style from the start of a text.
    pub fn from_str(s: &str) -> (r: Result<OrderedListStyle, Error>)
        ensures
            match OrderedListStyle::parse(s@) {
                Ok(style) => r == Ok::<OrderedListStyle, Error>(style),
                Err(e) => r is Err && r->Err_0@ == e,
            },
    {
        let mut chars = s.chars();
        let mut c = match chars.next() {
            Some(c) => c,
            None => {
                return Err(OrderedListStyle::invalid_error(s));
            },
        };
        let starts_paren = if c == '(' {
            c = match chars.next() {
                Some(c) => c,
                None => {
                    return Err(OrderedListStyle::invalid_error(s));
                },
            };
            true
        } else {
            false
        };
        let number = match NumberStyle::from_mark(c) {
            Some(number) => number,
            None => {
                return Err(OrderedListStyle::invalid_error(s));
            },
        };
        let last = match chars.next() {
            Some(c) => c,
            None => {
                return Err(OrderedListStyle::invalid_error(s));
            },
        };
        let fence = if last == ')' {
            if starts_paren {
                FenceStyle::BothParen
            } else {
                FenceStyle::RightParen
            }
        } else if last == '.' && !starts_paren {
            FenceStyle::Dot
        } else {
            return Err(OrderedListStyle::invalid_error(s));
        };
        Ok(OrderedListStyle { number, fence })
    }

    fn invalid_error(s: &str) -> (e: Error)
        ensures
            e@ == OrderedListStyle::invalid(s@),
    {
        Error::General(joined("invalid ordered list style '", s, "'"))
    }
}

impl core::str::FromStr for OrderedListStyle {
    type Err = Error;

    /// Reads a style from the start of a text, as the function of the same
    /// name on the type does.
    fn from_str(s: &str) -> (r: Result<OrderedListStyle, Error>)
        ensures
            match OrderedListStyle::parse(s@) {
                Ok(style) => r == Ok::<OrderedListStyle, Error>(style),
                Err(e) => r is Err && r->Err_0@ == e,
            },
    {
        OrderedListStyle::from_str(s)
    }
}

} // verus!
