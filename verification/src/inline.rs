//! The inline nodes: text, breaks, and the spans that hold other inline
//! nodes.
use crate::attributes::{lemma_flatten_keeps, lemma_meta_roundtrip, HasMeta, Meta, MetaView};
use crate::error::{agrees, wrong_variant, Error, ErrorView};
use crate::names::lemma_names;
use crate::text::str_eq;
use crate::traverse::{Node, NodeType};
use crate::value::{
    collect, lemma_collect_err, lemma_collect_ok, not_an_object, same, tagged, text_or_null,
    text_view, unexpected_tag, unknown_variant, Value, ValueView,
};
use vstd::prelude::*;
use vstd::std_specs::convert::{FromSpecImpl, TryFromSpecImpl};

verus! {

/// A node within a line of text.
#[derive(Debug, PartialEq, Eq)]
pub enum Inline {
    Str(Str),
    SoftBreak(SoftBreak),
    HardBreak(HardBreak),
    NonBreakingSpace(NonBreakingSpace),
    Symb(Symb),
    Verbatim(Verbatim),
    RawInline(RawInline),
    InlineMath(InlineMath),
    DisplayMath(DisplayMath),
    Url(Url),
    Email(Email),
    FootnoteReference(FootnoteReference),
    SmartPunctuation(SmartPunctuation),
    Emph(Emph),
    Strong(Strong),
    Link(Link),
    Image(Image),
    Span(Span),
    Mark(Mark),
    Superscript(Superscript),
    Subscript(Subscript),
    Insert(Insert),
    Delete(Delete),
    DoubleQuoted(DoubleQuoted),
    SingleQuoted(SingleQuoted),
}

/// The mathematical value of an [`Inline`].
pub enum InlineView {
    Str(StrView),
    SoftBreak(SoftBreakView),
    HardBreak(HardBreakView),
    NonBreakingSpace(NonBreakingSpaceView),
    Symb(SymbView),
    Verbatim(VerbatimView),
    RawInline(RawInlineView),
    InlineMath(InlineMathView),
    DisplayMath(DisplayMathView),
    Url(UrlView),
    Email(EmailView),
    FootnoteReference(FootnoteReferenceView),
    SmartPunctuation(SmartPunctuationView),
    Emph(EmphView),
    Strong(StrongView),
    Link(LinkView),
    Image(ImageView),
    Span(SpanView),
    Mark(MarkView),
    Superscript(SuperscriptView),
    Subscript(SubscriptView),
    Insert(InsertView),
    Delete(DeleteView),
    DoubleQuoted(DoubleQuotedView),
    SingleQuoted(SingleQuotedView),
}

impl View for Inline {
    type V = InlineView;

    open spec fn view(&self) -> InlineView
        decreases self,
    {
        match self {
            Inline::Str(x) => InlineView::Str(x@),
            Inline::SoftBreak(x) => InlineView::SoftBreak(x@),
            Inline::HardBreak(x) => InlineView::HardBreak(x@),
            Inline::NonBreakingSpace(x) => InlineView::NonBreakingSpace(x@),
            Inline::Symb(x) => InlineView::Symb(x@),
            Inline::Verbatim(x) => InlineView::Verbatim(x@),
            Inline::RawInline(x) => InlineView::RawInline(x@),
            Inline::InlineMath(x) => InlineView::InlineMath(x@),
            Inline::DisplayMath(x) => InlineView::DisplayMath(x@),
            Inline::Url(x) => InlineView::Url(x@),
            Inline::Email(x) => InlineView::Email(x@),
            Inline::FootnoteReference(x) => InlineView::FootnoteReference(x@),
            Inline::SmartPunctuation(x) => InlineView::SmartPunctuation(x@),
            Inline::Emph(x) => InlineView::Emph(x@),
            Inline::Strong(x) => InlineView::Strong(x@),
            Inline::Link(x) => InlineView::Link(x@),
            Inline::Image(x) => InlineView::Image(x@),
            Inline::Span(x) => InlineView::Span(x@),
            Inline::Mark(x) => InlineView::Mark(x@),
            Inline::Superscript(x) => InlineView::Superscript(x@),
            Inline::Subscript(x) => InlineView::Subscript(x@),
            Inline::Insert(x) => InlineView::Insert(x@),
            Inline::Delete(x) => InlineView::Delete(x@),
            Inline::DoubleQuoted(x) => InlineView::DoubleQuoted(x@),
            Inline::SingleQuoted(x) => InlineView::SingleQuoted(x@),
        }
    }
}

impl InlineView {
    /// The encoded node: that of the variant.
    pub open spec fn encode(self) -> ValueView
        decreases self, 0int,
    {
        match self {
            InlineView::Str(x) => x.encode(),
            InlineView::SoftBreak(x) => x.encode(),
            InlineView::HardBreak(x) => x.encode(),
            InlineView::NonBreakingSpace(x) => x.encode(),
            InlineView::Symb(x) => x.encode(),
            InlineView::Verbatim(x) => x.encode(),
            InlineView::RawInline(x) => x.encode(),
            InlineView::InlineMath(x) => x.encode(),
            InlineView::DisplayMath(x) => x.encode(),
            InlineView::Url(x) => x.encode(),
            InlineView::Email(x) => x.encode(),
            InlineView::FootnoteReference(x) => x.encode(),
            InlineView::SmartPunctuation(x) => x.encode(),
            InlineView::Emph(x) => x.encode(),
            InlineView::Strong(x) => x.encode(),
            InlineView::Link(x) => x.encode(),
            InlineView::Image(x) => x.encode(),
            InlineView::Span(x) => x.encode(),
            InlineView::Mark(x) => x.encode(),
            InlineView::Superscript(x) => x.encode(),
            InlineView::Subscript(x) => x.encode(),
            InlineView::Insert(x) => x.encode(),
            InlineView::Delete(x) => x.encode(),
            InlineView::DoubleQuoted(x) => x.encode(),
            InlineView::SingleQuoted(x) => x.encode(),
        }
    }

    /// Whether `tag` names a variant.
    pub open spec fn has_tag(tag: Seq<char>) -> bool {
        tag == "str"@
        || tag == "soft_break"@
        || tag == "hard_break"@
        || tag == "non_breaking_space"@
        || tag == "symb"@
        || tag == "verbatim"@
        || tag == "raw_inline"@
        || tag == "inline_math"@
        || tag == "display_math"@
        || tag == "url"@
        || tag == "email"@
        || tag == "footnote_reference"@
        || tag == "smart_punctuation"@
        || tag == "emph"@
        || tag == "strong"@
        || tag == "link"@
        || tag == "image"@
        || tag == "span"@
        || tag == "mark"@
        || tag == "superscript"@
        || tag == "subscript"@
        || tag == "insert"@
        || tag == "delete"@
        || tag == "double_quoted"@
        || tag == "single_quoted"@
    }

    /// The node that an encoded value holds: the variant that its
    /// discriminator names, decoded as such. A discriminator that names
    /// no variant is a failure.
    pub open spec fn decode(v: ValueView) -> Result<InlineView, ErrorView>
        decreases v, 1int,
    {
        match v.tag() {
            Err(e) => Err(e),
            Ok(t) => if t == "str"@ {
                match StrView::decode(v) {
                    Ok(x) => Ok(InlineView::Str(x)),
                    Err(e) => Err(e),
                }
            } else if t == "soft_break"@ {
                match SoftBreakView::decode(v) {
                    Ok(x) => Ok(InlineView::SoftBreak(x)),
                    Err(e) => Err(e),
                }
            } else if t == "hard_break"@ {
                match HardBreakView::decode(v) {
                    Ok(x) => Ok(InlineView::HardBreak(x)),
                    Err(e) => Err(e),
                }
            } else if t == "non_breaking_space"@ {
                match NonBreakingSpaceView::decode(v) {
                    Ok(x) => Ok(InlineView::NonBreakingSpace(x)),
                    Err(e) => Err(e),
                }
            } else if t == "symb"@ {
                match SymbView::decode(v) {
                    Ok(x) => Ok(InlineView::Symb(x)),
                    Err(e) => Err(e),
                }
            } else if t == "verbatim"@ {
                match VerbatimView::decode(v) {
                    Ok(x) => Ok(InlineView::Verbatim(x)),
                    Err(e) => Err(e),
                }
            } else if t == "raw_inline"@ {
                match RawInlineView::decode(v) {
                    Ok(x) => Ok(InlineView::RawInline(x)),
                    Err(e) => Err(e),
                }
            } else if t == "inline_math"@ {
                match InlineMathView::decode(v) {
                    Ok(x) => Ok(InlineView::InlineMath(x)),
                    Err(e) => Err(e),
                }
            } else if t == "display_math"@ {
                match DisplayMathView::decode(v) {
                    Ok(x) => Ok(InlineView::DisplayMath(x)),
                    Err(e) => Err(e),
                }
            } else if t == "url"@ {
                match UrlView::decode(v) {
                    Ok(x) => Ok(InlineView::Url(x)),
                    Err(e) => Err(e),
                }
            } else if t == "email"@ {
                match EmailView::decode(v) {
                    Ok(x) => Ok(InlineView::Email(x)),
                    Err(e) => Err(e),
                }
            } else if t == "footnote_reference"@ {
                match FootnoteReferenceView::decode(v) {
                    Ok(x) => Ok(InlineView::FootnoteReference(x)),
                    Err(e) => Err(e),
                }
            } else if t == "smart_punctuation"@ {
                match SmartPunctuationView::decode(v) {
                    Ok(x) => Ok(InlineView::SmartPunctuation(x)),
                    Err(e) => Err(e),
                }
            } else if t == "emph"@ {
                match EmphView::decode(v) {
                    Ok(x) => Ok(InlineView::Emph(x)),
                    Err(e) => Err(e),
                }
            } else if t == "strong"@ {
                match StrongView::decode(v) {
                    Ok(x) => Ok(InlineView::Strong(x)),
                    Err(e) => Err(e),
                }
            } else if t == "link"@ {
                match LinkView::decode(v) {
                    Ok(x) => Ok(InlineView::Link(x)),
                    Err(e) => Err(e),
                }
            } else if t == "image"@ {
                match ImageView::decode(v) {
                    Ok(x) => Ok(InlineView::Image(x)),
                    Err(e) => Err(e),
                }
            } else if t == "span"@ {
                match SpanView::decode(v) {
                    Ok(x) => Ok(InlineView::Span(x)),
                    Err(e) => Err(e),
                }
            } else if t == "mark"@ {
                match MarkView::decode(v) {
                    Ok(x) => Ok(InlineView::Mark(x)),
                    Err(e) => Err(e),
                }
            } else if t == "superscript"@ {
                match SuperscriptView::decode(v) {
                    Ok(x) => Ok(InlineView::Superscript(x)),
                    Err(e) => Err(e),
                }
            } else if t == "subscript"@ {
                match SubscriptView::decode(v) {
                    Ok(x) => Ok(InlineView::Subscript(x)),
                    Err(e) => Err(e),
                }
            } else if t == "insert"@ {
                match InsertView::decode(v) {
                    Ok(x) => Ok(InlineView::Insert(x)),
                    Err(e) => Err(e),
                }
            } else if t == "delete"@ {
                match DeleteView::decode(v) {
                    Ok(x) => Ok(InlineView::Delete(x)),
                    Err(e) => Err(e),
                }
            } else if t == "double_quoted"@ {
                match DoubleQuotedView::decode(v) {
                    Ok(x) => Ok(InlineView::DoubleQuoted(x)),
                    Err(e) => Err(e),
                }
            } else if t == "single_quoted"@ {
                match SingleQuotedView::decode(v) {
                    Ok(x) => Ok(InlineView::SingleQuoted(x)),
                    Err(e) => Err(e),
                }
            } else {
                Err(unexpected_tag(t))
            },
        }
    }

    /// The discriminator of the encoded node names its variant.
    pub proof fn lemma_tag(self)
        ensures
            self.encode().tag() is Ok,
            InlineView::has_tag(self.encode().tag()->Ok_0),
    {
        lemma_names();
        match self {
            InlineView::Str(x) => {
                lemma_flatten_keeps(x.meta, x.fields(), "tag"@);
            },
            InlineView::SoftBreak(x) => {
                lemma_flatten_keeps(x.meta, x.fields(), "tag"@);
            },
            InlineView::HardBreak(x) => {
                lemma_flatten_keeps(x.meta, x.fields(), "tag"@);
            },
            InlineView::NonBreakingSpace(x) => {
                lemma_flatten_keeps(x.meta, x.fields(), "tag"@);
            },
            InlineView::Symb(x) => {
                lemma_flatten_keeps(x.meta, x.fields(), "tag"@);
            },
            InlineView::Verbatim(x) => {
                lemma_flatten_keeps(x.meta, x.fields(), "tag"@);
            },
            InlineView::RawInline(x) => {
                lemma_flatten_keeps(x.meta, x.fields(), "tag"@);
            },
            InlineView::InlineMath(x) => {
                lemma_flatten_keeps(x.meta, x.fields(), "tag"@);
            },
            InlineView::DisplayMath(x) => {
                lemma_flatten_keeps(x.meta, x.fields(), "tag"@);
            },
            InlineView::Url(x) => {
                lemma_flatten_keeps(x.meta, x.fields(), "tag"@);
            },
            InlineView::Email(x) => {
                lemma_flatten_keeps(x.meta, x.fields(), "tag"@);
            },
            InlineView::FootnoteReference(x) => {
                lemma_flatten_keeps(x.meta, x.fields(), "tag"@);
            },
            InlineView::SmartPunctuation(x) => {
                lemma_flatten_keeps(x.meta, x.fields(), "tag"@);
            },
            InlineView::Emph(x) => {
                lemma_flatten_keeps(x.meta, x.fields(), "tag"@);
            },
            InlineView::Strong(x) => {
                lemma_flatten_keeps(x.meta, x.fields(), "tag"@);
            },
            InlineView::Link(x) => {
                lemma_flatten_keeps(x.meta, x.fields(), "tag"@);
            },
            InlineView::Image(x) => {
                lemma_flatten_keeps(x.meta, x.fields(), "tag"@);
            },
            InlineView::Span(x) => {
                lemma_flatten_keeps(x.meta, x.fields(), "tag"@);
            },
            InlineView::Mark(x) => {
                lemma_flatten_keeps(x.meta, x.fields(), "tag"@);
            },
            InlineView::Superscript(x) => {
                lemma_flatten_keeps(x.meta, x.fields(), "tag"@);
            },
            InlineView::Subscript(x) => {
                lemma_flatten_keeps(x.meta, x.fields(), "tag"@);
            },
            InlineView::Insert(x) => {
                lemma_flatten_keeps(x.meta, x.fields(), "tag"@);
            },
            InlineView::Delete(x) => {
                lemma_flatten_keeps(x.meta, x.fields(), "tag"@);
            },
            InlineView::DoubleQuoted(x) => {
                lemma_flatten_keeps(x.meta, x.fields(), "tag"@);
            },
            InlineView::SingleQuoted(x) => {
                lemma_flatten_keeps(x.meta, x.fields(), "tag"@);
            },
        }
    }

    /// Decoding the encoded node gives the node back.
    pub proof fn lemma_roundtrip(self)
        ensures
            InlineView::decode(self.encode()) == Ok::<InlineView, ErrorView>(self),
        decreases self,
    {
        lemma_names();
        match self {
            InlineView::Str(x) => {
                x.lemma_roundtrip();
                lemma_flatten_keeps(x.meta, x.fields(), "tag"@);
            },
            InlineView::SoftBreak(x) => {
                x.lemma_roundtrip();
                lemma_flatten_keeps(x.meta, x.fields(), "tag"@);
            },
            InlineView::HardBreak(x) => {
                x.lemma_roundtrip();
                lemma_flatten_keeps(x.meta, x.fields(), "tag"@);
            },
            InlineView::NonBreakingSpace(x) => {
                x.lemma_roundtrip();
                lemma_flatten_keeps(x.meta, x.fields(), "tag"@);
            },
            InlineView::Symb(x) => {
                x.lemma_roundtrip();
                lemma_flatten_keeps(x.meta, x.fields(), "tag"@);
            },
            InlineView::Verbatim(x) => {
                x.lemma_roundtrip();
                lemma_flatten_keeps(x.meta, x.fields(), "tag"@);
            },
            InlineView::RawInline(x) => {
                x.lemma_roundtrip();
                lemma_flatten_keeps(x.meta, x.fields(), "tag"@);
            },
            InlineView::InlineMath(x) => {
                x.lemma_roundtrip();
                lemma_flatten_keeps(x.meta, x.fields(), "tag"@);
            },
            InlineView::DisplayMath(x) => {
                x.lemma_roundtrip();
                lemma_flatten_keeps(x.meta, x.fields(), "tag"@);
            },
            InlineView::Url(x) => {
                x.lemma_roundtrip();
                lemma_flatten_keeps(x.meta, x.fields(), "tag"@);
            },
            InlineView::Email(x) => {
                x.lemma_roundtrip();
                lemma_flatten_keeps(x.meta, x.fields(), "tag"@);
            },
            InlineView::FootnoteReference(x) => {
                x.lemma_roundtrip();
                lemma_flatten_keeps(x.meta, x.fields(), "tag"@);
            },
            InlineView::SmartPunctuation(x) => {
                x.lemma_roundtrip();
                lemma_flatten_keeps(x.meta, x.fields(), "tag"@);
            },
            InlineView::Emph(x) => {
                x.lemma_roundtrip();
                lemma_flatten_keeps(x.meta, x.fields(), "tag"@);
            },
            InlineView::Strong(x) => {
                x.lemma_roundtrip();
                lemma_flatten_keeps(x.meta, x.fields(), "tag"@);
            },
            InlineView::Link(x) => {
                x.lemma_roundtrip();
                lemma_flatten_keeps(x.meta, x.fields(), "tag"@);
            },
            InlineView::Image(x) => {
                x.lemma_roundtrip();
                lemma_flatten_keeps(x.meta, x.fields(), "tag"@);
            },
            InlineView::Span(x) => {
                x.lemma_roundtrip();
                lemma_flatten_keeps(x.meta, x.fields(), "tag"@);
            },
            InlineView::Mark(x) => {
                x.lemma_roundtrip();
                lemma_flatten_keeps(x.meta, x.fields(), "tag"@);
            },
            InlineView::Superscript(x) => {
                x.lemma_roundtrip();
                lemma_flatten_keeps(x.meta, x.fields(), "tag"@);
            },
            InlineView::Subscript(x) => {
                x.lemma_roundtrip();
                lemma_flatten_keeps(x.meta, x.fields(), "tag"@);
            },
            InlineView::Insert(x) => {
                x.lemma_roundtrip();
                lemma_flatten_keeps(x.meta, x.fields(), "tag"@);
            },
            InlineView::Delete(x) => {
                x.lemma_roundtrip();
                lemma_flatten_keeps(x.meta, x.fields(), "tag"@);
            },
            InlineView::DoubleQuoted(x) => {
                x.lemma_roundtrip();
                lemma_flatten_keeps(x.meta, x.fields(), "tag"@);
            },
            InlineView::SingleQuoted(x) => {
                x.lemma_roundtrip();
                lemma_flatten_keeps(x.meta, x.fields(), "tag"@);
            },
        }
    }
}

impl Inline {
    /// Encodes the node that the value holds.
    pub fn encode(&self) -> (v: Value)
        ensures
            v@ == self@.encode(),
            v.unambiguous(),
        decreases self,
    {
        match self {
            Inline::Str(x) => x.encode(),
            Inline::SoftBreak(x) => x.encode(),
            Inline::HardBreak(x) => x.encode(),
            Inline::NonBreakingSpace(x) => x.encode(),
            Inline::Symb(x) => x.encode(),
            Inline::Verbatim(x) => x.encode(),
            Inline::RawInline(x) => x.encode(),
            Inline::InlineMath(x) => x.encode(),
            Inline::DisplayMath(x) => x.encode(),
            Inline::Url(x) => x.encode(),
            Inline::Email(x) => x.encode(),
            Inline::FootnoteReference(x) => x.encode(),
            Inline::SmartPunctuation(x) => x.encode(),
            Inline::Emph(x) => x.encode(),
            Inline::Strong(x) => x.encode(),
            Inline::Link(x) => x.encode(),
            Inline::Image(x) => x.encode(),
            Inline::Span(x) => x.encode(),
            Inline::Mark(x) => x.encode(),
            Inline::Superscript(x) => x.encode(),
            Inline::Subscript(x) => x.encode(),
            Inline::Insert(x) => x.encode(),
            Inline::Delete(x) => x.encode(),
            Inline::DoubleQuoted(x) => x.encode(),
            Inline::SingleQuoted(x) => x.encode(),
        }
    }

    /// Whether `tag` names a variant.
    pub fn is_tag(tag: &String) -> (b: bool)
        ensures
            b == InlineView::has_tag(tag@),
    {
        same(tag, "str")
        || same(tag, "soft_break")
        || same(tag, "hard_break")
        || same(tag, "non_breaking_space")
        || same(tag, "symb")
        || same(tag, "verbatim")
        || same(tag, "raw_inline")
        || same(tag, "inline_math")
        || same(tag, "display_math")
        || same(tag, "url")
        || same(tag, "email")
        || same(tag, "footnote_reference")
        || same(tag, "smart_punctuation")
        || same(tag, "emph")
        || same(tag, "strong")
        || same(tag, "link")
        || same(tag, "image")
        || same(tag, "span")
        || same(tag, "mark")
        || same(tag, "superscript")
        || same(tag, "subscript")
        || same(tag, "insert")
        || same(tag, "delete")
        || same(tag, "double_quoted")
        || same(tag, "single_quoted")
    }

    /// Decodes the variant that the discriminator of the value names.
    pub fn decode(v: &Value) -> (r: Result<Inline, Error>)
        ensures
            agrees(r, InlineView::decode(v@)),
        decreases v@, 1int,
    {
        let t = v.tag()?;
        if same(t, "str") {
            Ok(Inline::Str(Str::decode(v)?))
        } else if same(t, "soft_break") {
            Ok(Inline::SoftBreak(SoftBreak::decode(v)?))
        } else if same(t, "hard_break") {
            Ok(Inline::HardBreak(HardBreak::decode(v)?))
        } else if same(t, "non_breaking_space") {
            Ok(Inline::NonBreakingSpace(NonBreakingSpace::decode(v)?))
        } else if same(t, "symb") {
            Ok(Inline::Symb(Symb::decode(v)?))
        } else if same(t, "verbatim") {
            Ok(Inline::Verbatim(Verbatim::decode(v)?))
        } else if same(t, "raw_inline") {
            Ok(Inline::RawInline(RawInline::decode(v)?))
        } else if same(t, "inline_math") {
            Ok(Inline::InlineMath(InlineMath::decode(v)?))
        } else if same(t, "display_math") {
            Ok(Inline::DisplayMath(DisplayMath::decode(v)?))
        } else if same(t, "url") {
            Ok(Inline::Url(Url::decode(v)?))
        } else if same(t, "email") {
            Ok(Inline::Email(Email::decode(v)?))
        } else if same(t, "footnote_reference") {
            Ok(Inline::FootnoteReference(FootnoteReference::decode(v)?))
        } else if same(t, "smart_punctuation") {
            Ok(Inline::SmartPunctuation(SmartPunctuation::decode(v)?))
        } else if same(t, "emph") {
            Ok(Inline::Emph(Emph::decode(v)?))
        } else if same(t, "strong") {
            Ok(Inline::Strong(Strong::decode(v)?))
        } else if same(t, "link") {
            Ok(Inline::Link(Link::decode(v)?))
        } else if same(t, "image") {
            Ok(Inline::Image(Image::decode(v)?))
        } else if same(t, "span") {
            Ok(Inline::Span(Span::decode(v)?))
        } else if same(t, "mark") {
            Ok(Inline::Mark(Mark::decode(v)?))
        } else if same(t, "superscript") {
            Ok(Inline::Superscript(Superscript::decode(v)?))
        } else if same(t, "subscript") {
            Ok(Inline::Subscript(Subscript::decode(v)?))
        } else if same(t, "insert") {
            Ok(Inline::Insert(Insert::decode(v)?))
        } else if same(t, "delete") {
            Ok(Inline::Delete(Delete::decode(v)?))
        } else if same(t, "double_quoted") {
            Ok(Inline::DoubleQuoted(DoubleQuoted::decode(v)?))
        } else if same(t, "single_quoted") {
            Ok(Inline::SingleQuoted(SingleQuoted::decode(v)?))
        } else {
            Err(Value::unexpected_tag(t.as_str()))
        }
    }
}

impl InlineView {
    /// The encoded inline nodes, in order.
    pub open spec fn encode_all(s: Seq<InlineView>) -> Seq<ValueView>
        decreases s, 0int,
    {
        Seq::new(
            s.len(),
            |i: int|
                if 0 <= i < s.len() {
                    s[i].encode()
                } else {
                    ValueView::Null
                },
        )
    }

    /// What each of the values decodes to.
    pub open spec fn decode_each(s: Seq<ValueView>) -> Seq<Result<InlineView, ErrorView>>
        decreases s, 0int,
    {
        Seq::new(
            s.len(),
            |i: int|
                if 0 <= i < s.len() {
                    InlineView::decode(s[i])
                } else {
                    Err(not_an_object())
                },
        )
    }

    /// The inline nodes that the values hold, or the failure of the first value
    /// that holds none.
    pub open spec fn decode_all(s: Seq<ValueView>) -> Result<Seq<InlineView>, ErrorView>
        decreases s, 1int,
    {
        collect(InlineView::decode_each(s))
    }

    /// Decoding the encoded inline nodes gives them back.
    pub proof fn lemma_roundtrip_all(s: Seq<InlineView>)
        ensures
            InlineView::decode_all(InlineView::encode_all(s)) == Ok::<Seq<InlineView>, ErrorView>(
                s,
            ),
        decreases s,
    {
        let rs = InlineView::decode_each(InlineView::encode_all(s));
        assert forall|i: int| 0 <= i < rs.len() implies (#[trigger] rs[i]) == Ok::<
            InlineView,
            ErrorView,
        >(s[i]) by {
            s[i].lemma_roundtrip();
        }
        lemma_collect_ok(rs, s);
    }
}

impl Inline {
    /// The inline nodes of a list, each by its view.
    pub open spec fn views(s: Seq<Inline>) -> Seq<InlineView>
        decreases s,
    {
        Seq::new(
            s.len(),
            |i: int|
                if 0 <= i < s.len() {
                    s[i]@
                } else {
                    arbitrary()
                },
        )
    }

    /// A copy of the list.
    pub fn clone_all(items: &Vec<Inline>) -> (r: Vec<Inline>)
        ensures
            Inline::views(r@) == Inline::views(items@),
        decreases items,
    {
        let mut out: Vec<Inline> = Vec::new();
        let mut i: usize = 0;
        while i < items.len()
            invariant
                i <= items.len(),
                out.len() == i,
                forall|j: int| 0 <= j < i ==> (#[trigger] out@[j])@ == items@[j]@,
            decreases items.len() - i,
        {
            let item = items[i].clone();
            out.push(item);
            i = i + 1;
        }
        assert(Inline::views(out@) =~= Inline::views(items@));
        out
    }

    /// Encodes each of the inline nodes.
    pub fn encode_all(items: &Vec<Inline>) -> (r: Vec<Value>)
        ensures
            Value::views(r@) == InlineView::encode_all(Inline::views(items@)),
            Value::all_unambiguous(r@),
        decreases items,
    {
        let mut out: Vec<Value> = Vec::new();
        let mut i: usize = 0;
        while i < items.len()
            invariant
                i <= items.len(),
                out.len() == i,
                forall|j: int| 0 <= j < i ==> (#[trigger] out@[j])@ == items@[j]@.encode(),
                forall|j: int| 0 <= j < i ==> (#[trigger] out@[j]).unambiguous(),
            decreases items.len() - i,
        {
            let item = items[i].encode();
            out.push(item);
            i = i + 1;
        }
        assert(Value::views(out@) =~= InlineView::encode_all(Inline::views(items@)));
        out
    }

    /// Decodes each of the values, and stops at the first that fails.
    pub fn decode_all(items: &Vec<Value>) -> (r: Result<Vec<Inline>, Error>)
        ensures
            match InlineView::decode_all(Value::views(items@)) {
                Ok(x) => r is Ok && Inline::views(r->Ok_0@) == x,
                Err(e) => r is Err && r->Err_0@ == e,
            },
        decreases Value::views(items@), 1int,
    {
        let ghost s = Value::views(items@);
        let ghost rs = InlineView::decode_each(s);
        let mut out: Vec<Inline> = Vec::new();
        let mut i: usize = 0;
        while i < items.len()
            invariant
                i <= items.len(),
                out.len() == i,
                s == Value::views(items@),
                rs == InlineView::decode_each(s),
                forall|j: int|
                    0 <= j < i ==> (#[trigger] rs[j]) == Ok::<InlineView, ErrorView>(out@[j]@),
            decreases items.len() - i,
        {
            assert(s[i as int] == items[i as int]@);
            match Inline::decode(&items[i]) {
                Ok(x) => {
                    out.push(x);
                },
                Err(e) => {
                    proof {
                        lemma_collect_err(rs, i as int);
                    }
                    return Err(e);
                },
            }
            i = i + 1;
        }
        proof {
            lemma_collect_ok(rs, Inline::views(out@));
        }
        Ok(out)
    }
}

impl Node for Inline {
    open spec fn spec_node_type(&self) -> NodeType {
        match self {
            Inline::Str(x) => x.spec_node_type(),
            Inline::SoftBreak(x) => x.spec_node_type(),
            Inline::HardBreak(x) => x.spec_node_type(),
            Inline::NonBreakingSpace(x) => x.spec_node_type(),
            Inline::Symb(x) => x.spec_node_type(),
            Inline::Verbatim(x) => x.spec_node_type(),
            Inline::RawInline(x) => x.spec_node_type(),
            Inline::InlineMath(x) => x.spec_node_type(),
            Inline::DisplayMath(x) => x.spec_node_type(),
            Inline::Url(x) => x.spec_node_type(),
            Inline::Email(x) => x.spec_node_type(),
            Inline::FootnoteReference(x) => x.spec_node_type(),
            Inline::SmartPunctuation(x) => x.spec_node_type(),
            Inline::Emph(x) => x.spec_node_type(),
            Inline::Strong(x) => x.spec_node_type(),
            Inline::Link(x) => x.spec_node_type(),
            Inline::Image(x) => x.spec_node_type(),
            Inline::Span(x) => x.spec_node_type(),
            Inline::Mark(x) => x.spec_node_type(),
            Inline::Superscript(x) => x.spec_node_type(),
            Inline::Subscript(x) => x.spec_node_type(),
            Inline::Insert(x) => x.spec_node_type(),
            Inline::Delete(x) => x.spec_node_type(),
            Inline::DoubleQuoted(x) => x.spec_node_type(),
            Inline::SingleQuoted(x) => x.spec_node_type(),
        }
    }

    fn node_type(&self) -> (t: NodeType) {
        match self {
            Inline::Str(x) => x.node_type(),
            Inline::SoftBreak(x) => x.node_type(),
            Inline::HardBreak(x) => x.node_type(),
            Inline::NonBreakingSpace(x) => x.node_type(),
            Inline::Symb(x) => x.node_type(),
            Inline::Verbatim(x) => x.node_type(),
            Inline::RawInline(x) => x.node_type(),
            Inline::InlineMath(x) => x.node_type(),
            Inline::DisplayMath(x) => x.node_type(),
            Inline::Url(x) => x.node_type(),
            Inline::Email(x) => x.node_type(),
            Inline::FootnoteReference(x) => x.node_type(),
            Inline::SmartPunctuation(x) => x.node_type(),
            Inline::Emph(x) => x.node_type(),
            Inline::Strong(x) => x.node_type(),
            Inline::Link(x) => x.node_type(),
            Inline::Image(x) => x.node_type(),
            Inline::Span(x) => x.node_type(),
            Inline::Mark(x) => x.node_type(),
            Inline::Superscript(x) => x.node_type(),
            Inline::Subscript(x) => x.node_type(),
            Inline::Insert(x) => x.node_type(),
            Inline::Delete(x) => x.node_type(),
            Inline::DoubleQuoted(x) => x.node_type(),
            Inline::SingleQuoted(x) => x.node_type(),
        }
    }
}

impl HasMeta for Inline {
    open spec fn spec_meta(&self) -> Meta {
        match self {
            Inline::Str(x) => x.spec_meta(),
            Inline::SoftBreak(x) => x.spec_meta(),
            Inline::HardBreak(x) => x.spec_meta(),
            Inline::NonBreakingSpace(x) => x.spec_meta(),
            Inline::Symb(x) => x.spec_meta(),
            Inline::Verbatim(x) => x.spec_meta(),
            Inline::RawInline(x) => x.spec_meta(),
            Inline::InlineMath(x) => x.spec_meta(),
            Inline::DisplayMath(x) => x.spec_meta(),
            Inline::Url(x) => x.spec_meta(),
            Inline::Email(x) => x.spec_meta(),
            Inline::FootnoteReference(x) => x.spec_meta(),
            Inline::SmartPunctuation(x) => x.spec_meta(),
            Inline::Emph(x) => x.spec_meta(),
            Inline::Strong(x) => x.spec_meta(),
            Inline::Link(x) => x.spec_meta(),
            Inline::Image(x) => x.spec_meta(),
            Inline::Span(x) => x.spec_meta(),
            Inline::Mark(x) => x.spec_meta(),
            Inline::Superscript(x) => x.spec_meta(),
            Inline::Subscript(x) => x.spec_meta(),
            Inline::Insert(x) => x.spec_meta(),
            Inline::Delete(x) => x.spec_meta(),
            Inline::DoubleQuoted(x) => x.spec_meta(),
            Inline::SingleQuoted(x) => x.spec_meta(),
        }
    }

    open spec fn with_meta(&self, meta: Meta) -> Inline {
        match self {
            Inline::Str(x) => Inline::Str(x.with_meta(meta)),
            Inline::SoftBreak(x) => Inline::SoftBreak(x.with_meta(meta)),
            Inline::HardBreak(x) => Inline::HardBreak(x.with_meta(meta)),
            Inline::NonBreakingSpace(x) => Inline::NonBreakingSpace(x.with_meta(meta)),
            Inline::Symb(x) => Inline::Symb(x.with_meta(meta)),
            Inline::Verbatim(x) => Inline::Verbatim(x.with_meta(meta)),
            Inline::RawInline(x) => Inline::RawInline(x.with_meta(meta)),
            Inline::InlineMath(x) => Inline::InlineMath(x.with_meta(meta)),
            Inline::DisplayMath(x) => Inline::DisplayMath(x.with_meta(meta)),
            Inline::Url(x) => Inline::Url(x.with_meta(meta)),
            Inline::Email(x) => Inline::Email(x.with_meta(meta)),
            Inline::FootnoteReference(x) => Inline::FootnoteReference(x.with_meta(meta)),
            Inline::SmartPunctuation(x) => Inline::SmartPunctuation(x.with_meta(meta)),
            Inline::Emph(x) => Inline::Emph(x.with_meta(meta)),
            Inline::Strong(x) => Inline::Strong(x.with_meta(meta)),
            Inline::Link(x) => Inline::Link(x.with_meta(meta)),
            Inline::Image(x) => Inline::Image(x.with_meta(meta)),
            Inline::Span(x) => Inline::Span(x.with_meta(meta)),
            Inline::Mark(x) => Inline::Mark(x.with_meta(meta)),
            Inline::Superscript(x) => Inline::Superscript(x.with_meta(meta)),
            Inline::Subscript(x) => Inline::Subscript(x.with_meta(meta)),
            Inline::Insert(x) => Inline::Insert(x.with_meta(meta)),
            Inline::Delete(x) => Inline::Delete(x.with_meta(meta)),
            Inline::DoubleQuoted(x) => Inline::DoubleQuoted(x.with_meta(meta)),
            Inline::SingleQuoted(x) => Inline::SingleQuoted(x.with_meta(meta)),
        }
    }

    fn meta(&self) -> (r: &Meta) {
        match self {
            Inline::Str(x) => x.meta(),
            Inline::SoftBreak(x) => x.meta(),
            Inline::HardBreak(x) => x.meta(),
            Inline::NonBreakingSpace(x) => x.meta(),
            Inline::Symb(x) => x.meta(),
            Inline::Verbatim(x) => x.meta(),
            Inline::RawInline(x) => x.meta(),
            Inline::InlineMath(x) => x.meta(),
            Inline::DisplayMath(x) => x.meta(),
            Inline::Url(x) => x.meta(),
            Inline::Email(x) => x.meta(),
            Inline::FootnoteReference(x) => x.meta(),
            Inline::SmartPunctuation(x) => x.meta(),
            Inline::Emph(x) => x.meta(),
            Inline::Strong(x) => x.meta(),
            Inline::Link(x) => x.meta(),
            Inline::Image(x) => x.meta(),
            Inline::Span(x) => x.meta(),
            Inline::Mark(x) => x.meta(),
            Inline::Superscript(x) => x.meta(),
            Inline::Subscript(x) => x.meta(),
            Inline::Insert(x) => x.meta(),
            Inline::Delete(x) => x.meta(),
            Inline::DoubleQuoted(x) => x.meta(),
            Inline::SingleQuoted(x) => x.meta(),
        }
    }

    fn meta_mut(&mut self) -> (r: &mut Meta) {
        match self {
            Inline::Str(x) => x.meta_mut(),
            Inline::SoftBreak(x) => x.meta_mut(),
            Inline::HardBreak(x) => x.meta_mut(),
            Inline::NonBreakingSpace(x) => x.meta_mut(),
            Inline::Symb(x) => x.meta_mut(),
            Inline::Verbatim(x) => x.meta_mut(),
            Inline::RawInline(x) => x.meta_mut(),
            Inline::InlineMath(x) => x.meta_mut(),
            Inline::DisplayMath(x) => x.meta_mut(),
            Inline::Url(x) => x.meta_mut(),
            Inline::Email(x) => x.meta_mut(),
            Inline::FootnoteReference(x) => x.meta_mut(),
            Inline::SmartPunctuation(x) => x.meta_mut(),
            Inline::Emph(x) => x.meta_mut(),
            Inline::Strong(x) => x.meta_mut(),
            Inline::Link(x) => x.meta_mut(),
            Inline::Image(x) => x.meta_mut(),
            Inline::Span(x) => x.meta_mut(),
            Inline::Mark(x) => x.meta_mut(),
            Inline::Superscript(x) => x.meta_mut(),
            Inline::Subscript(x) => x.meta_mut(),
            Inline::Insert(x) => x.meta_mut(),
            Inline::Delete(x) => x.meta_mut(),
            Inline::DoubleQuoted(x) => x.meta_mut(),
            Inline::SingleQuoted(x) => x.meta_mut(),
        }
    }
}

impl Clone for Inline {
    fn clone(&self) -> (r: Inline)
        ensures
            r@ == self@,
        decreases self,
    {
        match self {
            Inline::Str(x) => Inline::Str(x.clone()),
            Inline::SoftBreak(x) => Inline::SoftBreak(x.clone()),
            Inline::HardBreak(x) => Inline::HardBreak(x.clone()),
            Inline::NonBreakingSpace(x) => Inline::NonBreakingSpace(x.clone()),
            Inline::Symb(x) => Inline::Symb(x.clone()),
            Inline::Verbatim(x) => Inline::Verbatim(x.clone()),
            Inline::RawInline(x) => Inline::RawInline(x.clone()),
            Inline::InlineMath(x) => Inline::InlineMath(x.clone()),
            Inline::DisplayMath(x) => Inline::DisplayMath(x.clone()),
            Inline::Url(x) => Inline::Url(x.clone()),
            Inline::Email(x) => Inline::Email(x.clone()),
            Inline::FootnoteReference(x) => Inline::FootnoteReference(x.clone()),
            Inline::SmartPunctuation(x) => Inline::SmartPunctuation(x.clone()),
            Inline::Emph(x) => Inline::Emph(x.clone()),
            Inline::Strong(x) => Inline::Strong(x.clone()),
            Inline::Link(x) => Inline::Link(x.clone()),
            Inline::Image(x) => Inline::Image(x.clone()),
            Inline::Span(x) => Inline::Span(x.clone()),
            Inline::Mark(x) => Inline::Mark(x.clone()),
            Inline::Superscript(x) => Inline::Superscript(x.clone()),
            Inline::Subscript(x) => Inline::Subscript(x.clone()),
            Inline::Insert(x) => Inline::Insert(x.clone()),
            Inline::Delete(x) => Inline::Delete(x.clone()),
            Inline::DoubleQuoted(x) => Inline::DoubleQuoted(x.clone()),
            Inline::SingleQuoted(x) => Inline::SingleQuoted(x.clone()),
        }
    }
}

impl From<Str> for Inline {
    fn from(v: Str) -> (r: Inline) {
        Inline::Str(v)
    }
}

impl FromSpecImpl<Str> for Inline {
    open spec fn obeys_from_spec() -> bool {
        true
    }

    open spec fn from_spec(v: Str) -> Inline {
        Inline::Str(v)
    }
}

impl TryFrom<Inline> for Str {
    type Error = Error;

    /// The node inside, where the value is of this kind; else the failure
    /// "wrong variant".
    fn try_from(v: Inline) -> (r: Result<Str, Error>)
        ensures
            match v {
                Inline::Str(x) => r == Ok::<Str, Error>(x),
                _ => r is Err && r->Err_0@ == wrong_variant(),
            },
    {
        match v {
            Inline::Str(x) => Ok(x),
            _ => Err(Error::general("wrong variant")),
        }
    }
}

impl TryFromSpecImpl<Inline> for Str {
    // A failure holds a string, which only executable code can make: the
    // contract stands on `try_from` itself.
    open spec fn obeys_try_from_spec() -> bool {
        false
    }

    open spec fn try_from_spec(v: Inline) -> Result<Str, Error> {
        match v {
            Inline::Str(x) => Ok(x),
            _ => Err(arbitrary()),
        }
    }
}

impl From<SoftBreak> for Inline {
    fn from(v: SoftBreak) -> (r: Inline) {
        Inline::SoftBreak(v)
    }
}

impl FromSpecImpl<SoftBreak> for Inline {
    open spec fn obeys_from_spec() -> bool {
        true
    }

    open spec fn from_spec(v: SoftBreak) -> Inline {
        Inline::SoftBreak(v)
    }
}

impl TryFrom<Inline> for SoftBreak {
    type Error = Error;

    /// The node inside, where the value is of this kind; else the failure
    /// "wrong variant".
    fn try_from(v: Inline) -> (r: Result<SoftBreak, Error>)
        ensures
            match v {
                Inline::SoftBreak(x) => r == Ok::<SoftBreak, Error>(x),
                _ => r is Err && r->Err_0@ == wrong_variant(),
            },
    {
        match v {
            Inline::SoftBreak(x) => Ok(x),
            _ => Err(Error::general("wrong variant")),
        }
    }
}

impl TryFromSpecImpl<Inline> for SoftBreak {
    // A failure holds a string, which only executable code can make: the
    // contract stands on `try_from` itself.
    open spec fn obeys_try_from_spec() -> bool {
        false
    }

    open spec fn try_from_spec(v: Inline) -> Result<SoftBreak, Error> {
        match v {
            Inline::SoftBreak(x) => Ok(x),
            _ => Err(arbitrary()),
        }
    }
}

impl From<HardBreak> for Inline {
    fn from(v: HardBreak) -> (r: Inline) {
        Inline::HardBreak(v)
    }
}

impl FromSpecImpl<HardBreak> for Inline {
    open spec fn obeys_from_spec() -> bool {
        true
    }

    open spec fn from_spec(v: HardBreak) -> Inline {
        Inline::HardBreak(v)
    }
}

impl TryFrom<Inline> for HardBreak {
    type Error = Error;

    /// The node inside, where the value is of this kind; else the failure
    /// "wrong variant".
    fn try_from(v: Inline) -> (r: Result<HardBreak, Error>)
        ensures
            match v {
                Inline::HardBreak(x) => r == Ok::<HardBreak, Error>(x),
                _ => r is Err && r->Err_0@ == wrong_variant(),
            },
    {
        match v {
            Inline::HardBreak(x) => Ok(x),
            _ => Err(Error::general("wrong variant")),
        }
    }
}

impl TryFromSpecImpl<Inline> for HardBreak {
    // A failure holds a string, which only executable code can make: the
    // contract stands on `try_from` itself.
    open spec fn obeys_try_from_spec() -> bool {
        false
    }

    open spec fn try_from_spec(v: Inline) -> Result<HardBreak, Error> {
        match v {
            Inline::HardBreak(x) => Ok(x),
            _ => Err(arbitrary()),
        }
    }
}

impl From<NonBreakingSpace> for Inline {
    fn from(v: NonBreakingSpace) -> (r: Inline) {
        Inline::NonBreakingSpace(v)
    }
}

impl FromSpecImpl<NonBreakingSpace> for Inline {
    open spec fn obeys_from_spec() -> bool {
        true
    }

    open spec fn from_spec(v: NonBreakingSpace) -> Inline {
        Inline::NonBreakingSpace(v)
    }
}

impl TryFrom<Inline> for NonBreakingSpace {
    type Error = Error;

    /// The node inside, where the value is of this kind; else the failure
    /// "wrong variant".
    fn try_from(v: Inline) -> (r: Result<NonBreakingSpace, Error>)
        ensures
            match v {
                Inline::NonBreakingSpace(x) => r == Ok::<NonBreakingSpace, Error>(x),
                _ => r is Err && r->Err_0@ == wrong_variant(),
            },
    {
        match v {
            Inline::NonBreakingSpace(x) => Ok(x),
            _ => Err(Error::general("wrong variant")),
        }
    }
}

impl TryFromSpecImpl<Inline> for NonBreakingSpace {
    // A failure holds a string, which only executable code can make: the
    // contract stands on `try_from` itself.
    open spec fn obeys_try_from_spec() -> bool {
        false
    }

    open spec fn try_from_spec(v: Inline) -> Result<NonBreakingSpace, Error> {
        match v {
            Inline::NonBreakingSpace(x) => Ok(x),
            _ => Err(arbitrary()),
        }
    }
}

impl From<Symb> for Inline {
    fn from(v: Symb) -> (r: Inline) {
        Inline::Symb(v)
    }
}

impl FromSpecImpl<Symb> for Inline {
    open spec fn obeys_from_spec() -> bool {
        true
    }

    open spec fn from_spec(v: Symb) -> Inline {
        Inline::Symb(v)
    }
}

impl TryFrom<Inline> for Symb {
    type Error = Error;

    /// The node inside, where the value is of this kind; else the failure
    /// "wrong variant".
    fn try_from(v: Inline) -> (r: Result<Symb, Error>)
        ensures
            match v {
                Inline::Symb(x) => r == Ok::<Symb, Error>(x),
                _ => r is Err && r->Err_0@ == wrong_variant(),
            },
    {
        match v {
            Inline::Symb(x) => Ok(x),
            _ => Err(Error::general("wrong variant")),
        }
    }
}

impl TryFromSpecImpl<Inline> for Symb {
    // A failure holds a string, which only executable code can make: the
    // contract stands on `try_from` itself.
    open spec fn obeys_try_from_spec() -> bool {
        false
    }

    open spec fn try_from_spec(v: Inline) -> Result<Symb, Error> {
        match v {
            Inline::Symb(x) => Ok(x),
            _ => Err(arbitrary()),
        }
    }
}

impl From<Verbatim> for Inline {
    fn from(v: Verbatim) -> (r: Inline) {
        Inline::Verbatim(v)
    }
}

impl FromSpecImpl<Verbatim> for Inline {
    open spec fn obeys_from_spec() -> bool {
        true
    }

    open spec fn from_spec(v: Verbatim) -> Inline {
        Inline::Verbatim(v)
    }
}

impl TryFrom<Inline> for Verbatim {
    type Error = Error;

    /// The node inside, where the value is of this kind; else the failure
    /// "wrong variant".
    fn try_from(v: Inline) -> (r: Result<Verbatim, Error>)
        ensures
            match v {
                Inline::Verbatim(x) => r == Ok::<Verbatim, Error>(x),
                _ => r is Err && r->Err_0@ == wrong_variant(),
            },
    {
        match v {
            Inline::Verbatim(x) => Ok(x),
            _ => Err(Error::general("wrong variant")),
        }
    }
}

impl TryFromSpecImpl<Inline> for Verbatim {
    // A failure holds a string, which only executable code can make: the
    // contract stands on `try_from` itself.
    open spec fn obeys_try_from_spec() -> bool {
        false
    }

    open spec fn try_from_spec(v: Inline) -> Result<Verbatim, Error> {
        match v {
            Inline::Verbatim(x) => Ok(x),
            _ => Err(arbitrary()),
        }
    }
}

impl From<RawInline> for Inline {
    fn from(v: RawInline) -> (r: Inline) {
        Inline::RawInline(v)
    }
}

impl FromSpecImpl<RawInline> for Inline {
    open spec fn obeys_from_spec() -> bool {
        true
    }

    open spec fn from_spec(v: RawInline) -> Inline {
        Inline::RawInline(v)
    }
}

impl TryFrom<Inline> for RawInline {
    type Error = Error;

    /// The node inside, where the value is of this kind; else the failure
    /// "wrong variant".
    fn try_from(v: Inline) -> (r: Result<RawInline, Error>)
        ensures
            match v {
                Inline::RawInline(x) => r == Ok::<RawInline, Error>(x),
                _ => r is Err && r->Err_0@ == wrong_variant(),
            },
    {
        match v {
            Inline::RawInline(x) => Ok(x),
            _ => Err(Error::general("wrong variant")),
        }
    }
}

impl TryFromSpecImpl<Inline> for RawInline {
    // A failure holds a string, which only executable code can make: the
    // contract stands on `try_from` itself.
    open spec fn obeys_try_from_spec() -> bool {
        false
    }

    open spec fn try_from_spec(v: Inline) -> Result<RawInline, Error> {
        match v {
            Inline::RawInline(x) => Ok(x),
            _ => Err(arbitrary()),
        }
    }
}

impl From<InlineMath> for Inline {
    fn from(v: InlineMath) -> (r: Inline) {
        Inline::InlineMath(v)
    }
}

impl FromSpecImpl<InlineMath> for Inline {
    open spec fn obeys_from_spec() -> bool {
        true
    }

    open spec fn from_spec(v: InlineMath) -> Inline {
        Inline::InlineMath(v)
    }
}

impl TryFrom<Inline> for InlineMath {
    type Error = Error;

    /// The node inside, where the value is of this kind; else the failure
    /// "wrong variant".
    fn try_from(v: Inline) -> (r: Result<InlineMath, Error>)
        ensures
            match v {
                Inline::InlineMath(x) => r == Ok::<InlineMath, Error>(x),
                _ => r is Err && r->Err_0@ == wrong_variant(),
            },
    {
        match v {
            Inline::InlineMath(x) => Ok(x),
            _ => Err(Error::general("wrong variant")),
        }
    }
}

impl TryFromSpecImpl<Inline> for InlineMath {
    // A failure holds a string, which only executable code can make: the
    // contract stands on `try_from` itself.
    open spec fn obeys_try_from_spec() -> bool {
        false
    }

    open spec fn try_from_spec(v: Inline) -> Result<InlineMath, Error> {
        match v {
            Inline::InlineMath(x) => Ok(x),
            _ => Err(arbitrary()),
        }
    }
}

impl From<DisplayMath> for Inline {
    fn from(v: DisplayMath) -> (r: Inline) {
        Inline::DisplayMath(v)
    }
}

impl FromSpecImpl<DisplayMath> for Inline {
    open spec fn obeys_from_spec() -> bool {
        true
    }

    open spec fn from_spec(v: DisplayMath) -> Inline {
        Inline::DisplayMath(v)
    }
}

impl TryFrom<Inline> for DisplayMath {
    type Error = Error;

    /// The node inside, where the value is of this kind; else the failure
    /// "wrong variant".
    fn try_from(v: Inline) -> (r: Result<DisplayMath, Error>)
        ensures
            match v {
                Inline::DisplayMath(x) => r == Ok::<DisplayMath, Error>(x),
                _ => r is Err && r->Err_0@ == wrong_variant(),
            },
    {
        match v {
            Inline::DisplayMath(x) => Ok(x),
            _ => Err(Error::general("wrong variant")),
        }
    }
}

impl TryFromSpecImpl<Inline> for DisplayMath {
    // A failure holds a string, which only executable code can make: the
    // contract stands on `try_from` itself.
    open spec fn obeys_try_from_spec() -> bool {
        false
    }

    open spec fn try_from_spec(v: Inline) -> Result<DisplayMath, Error> {
        match v {
            Inline::DisplayMath(x) => Ok(x),
            _ => Err(arbitrary()),
        }
    }
}

impl From<Url> for Inline {
    fn from(v: Url) -> (r: Inline) {
        Inline::Url(v)
    }
}

impl FromSpecImpl<Url> for Inline {
    open spec fn obeys_from_spec() -> bool {
        true
    }

    open spec fn from_spec(v: Url) -> Inline {
        Inline::Url(v)
    }
}

impl TryFrom<Inline> for Url {
    type Error = Error;

    /// The node inside, where the value is of this kind; else the failure
    /// "wrong variant".
    fn try_from(v: Inline) -> (r: Result<Url, Error>)
        ensures
            match v {
                Inline::Url(x) => r == Ok::<Url, Error>(x),
                _ => r is Err && r->Err_0@ == wrong_variant(),
            },
    {
        match v {
            Inline::Url(x) => Ok(x),
            _ => Err(Error::general("wrong variant")),
        }
    }
}

impl TryFromSpecImpl<Inline> for Url {
    // A failure holds a string, which only executable code can make: the
    // contract stands on `try_from` itself.
    open spec fn obeys_try_from_spec() -> bool {
        false
    }

    open spec fn try_from_spec(v: Inline) -> Result<Url, Error> {
        match v {
            Inline::Url(x) => Ok(x),
            _ => Err(arbitrary()),
        }
    }
}

impl From<Email> for Inline {
    fn from(v: Email) -> (r: Inline) {
        Inline::Email(v)
    }
}

impl FromSpecImpl<Email> for Inline {
    open spec fn obeys_from_spec() -> bool {
        true
    }

    open spec fn from_spec(v: Email) -> Inline {
        Inline::Email(v)
    }
}

impl TryFrom<Inline> for Email {
    type Error = Error;

    /// The node inside, where the value is of this kind; else the failure
    /// "wrong variant".
    fn try_from(v: Inline) -> (r: Result<Email, Error>)
        ensures
            match v {
                Inline::Email(x) => r == Ok::<Email, Error>(x),
                _ => r is Err && r->Err_0@ == wrong_variant(),
            },
    {
        match v {
            Inline::Email(x) => Ok(x),
            _ => Err(Error::general("wrong variant")),
        }
    }
}

impl TryFromSpecImpl<Inline> for Email {
    // A failure holds a string, which only executable code can make: the
    // contract stands on `try_from` itself.
    open spec fn obeys_try_from_spec() -> bool {
        false
    }

    open spec fn try_from_spec(v: Inline) -> Result<Email, Error> {
        match v {
            Inline::Email(x) => Ok(x),
            _ => Err(arbitrary()),
        }
    }
}

impl From<FootnoteReference> for Inline {
    fn from(v: FootnoteReference) -> (r: Inline) {
        Inline::FootnoteReference(v)
    }
}

impl FromSpecImpl<FootnoteReference> for Inline {
    open spec fn obeys_from_spec() -> bool {
        true
    }

    open spec fn from_spec(v: FootnoteReference) -> Inline {
        Inline::FootnoteReference(v)
    }
}

impl TryFrom<Inline> for FootnoteReference {
    type Error = Error;

    /// The node inside, where the value is of this kind; else the failure
    /// "wrong variant".
    fn try_from(v: Inline) -> (r: Result<FootnoteReference, Error>)
        ensures
            match v {
                Inline::FootnoteReference(x) => r == Ok::<FootnoteReference, Error>(x),
                _ => r is Err && r->Err_0@ == wrong_variant(),
            },
    {
        match v {
            Inline::FootnoteReference(x) => Ok(x),
            _ => Err(Error::general("wrong variant")),
        }
    }
}

impl TryFromSpecImpl<Inline> for FootnoteReference {
    // A failure holds a string, which only executable code can make: the
    // contract stands on `try_from` itself.
    open spec fn obeys_try_from_spec() -> bool {
        false
    }

    open spec fn try_from_spec(v: Inline) -> Result<FootnoteReference, Error> {
        match v {
            Inline::FootnoteReference(x) => Ok(x),
            _ => Err(arbitrary()),
        }
    }
}

impl From<SmartPunctuation> for Inline {
    fn from(v: SmartPunctuation) -> (r: Inline) {
        Inline::SmartPunctuation(v)
    }
}

impl FromSpecImpl<SmartPunctuation> for Inline {
    open spec fn obeys_from_spec() -> bool {
        true
    }

    open spec fn from_spec(v: SmartPunctuation) -> Inline {
        Inline::SmartPunctuation(v)
    }
}

impl TryFrom<Inline> for SmartPunctuation {
    type Error = Error;

    /// The node inside, where the value is of this kind; else the failure
    /// "wrong variant".
    fn try_from(v: Inline) -> (r: Result<SmartPunctuation, Error>)
        ensures
            match v {
                Inline::SmartPunctuation(x) => r == Ok::<SmartPunctuation, Error>(x),
                _ => r is Err && r->Err_0@ == wrong_variant(),
            },
    {
        match v {
            Inline::SmartPunctuation(x) => Ok(x),
            _ => Err(Error::general("wrong variant")),
        }
    }
}

impl TryFromSpecImpl<Inline> for SmartPunctuation {
    // A failure holds a string, which only executable code can make: the
    // contract stands on `try_from` itself.
    open spec fn obeys_try_from_spec() -> bool {
        false
    }

    open spec fn try_from_spec(v: Inline) -> Result<SmartPunctuation, Error> {
        match v {
            Inline::SmartPunctuation(x) => Ok(x),
            _ => Err(arbitrary()),
        }
    }
}

impl From<Emph> for Inline {
    fn from(v: Emph) -> (r: Inline) {
        Inline::Emph(v)
    }
}

impl FromSpecImpl<Emph> for Inline {
    open spec fn obeys_from_spec() -> bool {
        true
    }

    open spec fn from_spec(v: Emph) -> Inline {
        Inline::Emph(v)
    }
}

impl TryFrom<Inline> for Emph {
    type Error = Error;

    /// The node inside, where the value is of this kind; else the failure
    /// "wrong variant".
    fn try_from(v: Inline) -> (r: Result<Emph, Error>)
        ensures
            match v {
                Inline::Emph(x) => r == Ok::<Emph, Error>(x),
                _ => r is Err && r->Err_0@ == wrong_variant(),
            },
    {
        match v {
            Inline::Emph(x) => Ok(x),
            _ => Err(Error::general("wrong variant")),
        }
    }
}

impl TryFromSpecImpl<Inline> for Emph {
    // A failure holds a string, which only executable code can make: the
    // contract stands on `try_from` itself.
    open spec fn obeys_try_from_spec() -> bool {
        false
    }

    open spec fn try_from_spec(v: Inline) -> Result<Emph, Error> {
        match v {
            Inline::Emph(x) => Ok(x),
            _ => Err(arbitrary()),
        }
    }
}

impl From<Strong> for Inline {
    fn from(v: Strong) -> (r: Inline) {
        Inline::Strong(v)
    }
}

impl FromSpecImpl<Strong> for Inline {
    open spec fn obeys_from_spec() -> bool {
        true
    }

    open spec fn from_spec(v: Strong) -> Inline {
        Inline::Strong(v)
    }
}

impl TryFrom<Inline> for Strong {
    type Error = Error;

    /// The node inside, where the value is of this kind; else the failure
    /// "wrong variant".
    fn try_from(v: Inline) -> (r: Result<Strong, Error>)
        ensures
            match v {
                Inline::Strong(x) => r == Ok::<Strong, Error>(x),
                _ => r is Err && r->Err_0@ == wrong_variant(),
            },
    {
        match v {
            Inline::Strong(x) => Ok(x),
            _ => Err(Error::general("wrong variant")),
        }
    }
}

impl TryFromSpecImpl<Inline> for Strong {
    // A failure holds a string, which only executable code can make: the
    // contract stands on `try_from` itself.
    open spec fn obeys_try_from_spec() -> bool {
        false
    }

    open spec fn try_from_spec(v: Inline) -> Result<Strong, Error> {
        match v {
            Inline::Strong(x) => Ok(x),
            _ => Err(arbitrary()),
        }
    }
}

impl From<Link> for Inline {
    fn from(v: Link) -> (r: Inline) {
        Inline::Link(v)
    }
}

impl FromSpecImpl<Link> for Inline {
    open spec fn obeys_from_spec() -> bool {
        true
    }

    open spec fn from_spec(v: Link) -> Inline {
        Inline::Link(v)
    }
}

impl TryFrom<Inline> for Link {
    type Error = Error;

    /// The node inside, where the value is of this kind; else the failure
    /// "wrong variant".
    fn try_from(v: Inline) -> (r: Result<Link, Error>)
        ensures
            match v {
                Inline::Link(x) => r == Ok::<Link, Error>(x),
                _ => r is Err && r->Err_0@ == wrong_variant(),
            },
    {
        match v {
            Inline::Link(x) => Ok(x),
            _ => Err(Error::general("wrong variant")),
        }
    }
}

impl TryFromSpecImpl<Inline> for Link {
    // A failure holds a string, which only executable code can make: the
    // contract stands on `try_from` itself.
    open spec fn obeys_try_from_spec() -> bool {
        false
    }

    open spec fn try_from_spec(v: Inline) -> Result<Link, Error> {
        match v {
            Inline::Link(x) => Ok(x),
            _ => Err(arbitrary()),
        }
    }
}

impl From<Image> for Inline {
    fn from(v: Image) -> (r: Inline) {
        Inline::Image(v)
    }
}

impl FromSpecImpl<Image> for Inline {
    open spec fn obeys_from_spec() -> bool {
        true
    }

    open spec fn from_spec(v: Image) -> Inline {
        Inline::Image(v)
    }
}

impl TryFrom<Inline> for Image {
    type Error = Error;

    /// The node inside, where the value is of this kind; else the failure
    /// "wrong variant".
    fn try_from(v: Inline) -> (r: Result<Image, Error>)
        ensures
            match v {
                Inline::Image(x) => r == Ok::<Image, Error>(x),
                _ => r is Err && r->Err_0@ == wrong_variant(),
            },
    {
        match v {
            Inline::Image(x) => Ok(x),
            _ => Err(Error::general("wrong variant")),
        }
    }
}

impl TryFromSpecImpl<Inline> for Image {
    // A failure holds a string, which only executable code can make: the
    // contract stands on `try_from` itself.
    open spec fn obeys_try_from_spec() -> bool {
        false
    }

    open spec fn try_from_spec(v: Inline) -> Result<Image, Error> {
        match v {
            Inline::Image(x) => Ok(x),
            _ => Err(arbitrary()),
        }
    }
}

impl From<Span> for Inline {
    fn from(v: Span) -> (r: Inline) {
        Inline::Span(v)
    }
}

impl FromSpecImpl<Span> for Inline {
    open spec fn obeys_from_spec() -> bool {
        true
    }

    open spec fn from_spec(v: Span) -> Inline {
        Inline::Span(v)
    }
}

impl TryFrom<Inline> for Span {
    type Error = Error;

    /// The node inside, where the value is of this kind; else the failure
    /// "wrong variant".
    fn try_from(v: Inline) -> (r: Result<Span, Error>)
        ensures
            match v {
                Inline::Span(x) => r == Ok::<Span, Error>(x),
                _ => r is Err && r->Err_0@ == wrong_variant(),
            },
    {
        match v {
            Inline::Span(x) => Ok(x),
            _ => Err(Error::general("wrong variant")),
        }
    }
}

impl TryFromSpecImpl<Inline> for Span {
    // A failure holds a string, which only executable code can make: the
    // contract stands on `try_from` itself.
    open spec fn obeys_try_from_spec() -> bool {
        false
    }

    open spec fn try_from_spec(v: Inline) -> Result<Span, Error> {
        match v {
            Inline::Span(x) => Ok(x),
            _ => Err(arbitrary()),
        }
    }
}

impl From<Mark> for Inline {
    fn from(v: Mark) -> (r: Inline) {
        Inline::Mark(v)
    }
}

impl FromSpecImpl<Mark> for Inline {
    open spec fn obeys_from_spec() -> bool {
        true
    }

    open spec fn from_spec(v: Mark) -> Inline {
        Inline::Mark(v)
    }
}

impl TryFrom<Inline> for Mark {
    type Error = Error;

    /// The node inside, where the value is of this kind; else the failure
    /// "wrong variant".
    fn try_from(v: Inline) -> (r: Result<Mark, Error>)
        ensures
            match v {
                Inline::Mark(x) => r == Ok::<Mark, Error>(x),
                _ => r is Err && r->Err_0@ == wrong_variant(),
            },
    {
        match v {
            Inline::Mark(x) => Ok(x),
            _ => Err(Error::general("wrong variant")),
        }
    }
}

impl TryFromSpecImpl<Inline> for Mark {
    // A failure holds a string, which only executable code can make: the
    // contract stands on `try_from` itself.
    open spec fn obeys_try_from_spec() -> bool {
        false
    }

    open spec fn try_from_spec(v: Inline) -> Result<Mark, Error> {
        match v {
            Inline::Mark(x) => Ok(x),
            _ => Err(arbitrary()),
        }
    }
}

impl From<Superscript> for Inline {
    fn from(v: Superscript) -> (r: Inline) {
        Inline::Superscript(v)
    }
}

impl FromSpecImpl<Superscript> for Inline {
    open spec fn obeys_from_spec() -> bool {
        true
    }

    open spec fn from_spec(v: Superscript) -> Inline {
        Inline::Superscript(v)
    }
}

impl TryFrom<Inline> for Superscript {
    type Error = Error;

    /// The node inside, where the value is of this kind; else the failure
    /// "wrong variant".
    fn try_from(v: Inline) -> (r: Result<Superscript, Error>)
        ensures
            match v {
                Inline::Superscript(x) => r == Ok::<Superscript, Error>(x),
                _ => r is Err && r->Err_0@ == wrong_variant(),
            },
    {
        match v {
            Inline::Superscript(x) => Ok(x),
            _ => Err(Error::general("wrong variant")),
        }
    }
}

impl TryFromSpecImpl<Inline> for Superscript {
    // A failure holds a string, which only executable code can make: the
    // contract stands on `try_from` itself.
    open spec fn obeys_try_from_spec() -> bool {
        false
    }

    open spec fn try_from_spec(v: Inline) -> Result<Superscript, Error> {
        match v {
            Inline::Superscript(x) => Ok(x),
            _ => Err(arbitrary()),
        }
    }
}

impl From<Subscript> for Inline {
    fn from(v: Subscript) -> (r: Inline) {
        Inline::Subscript(v)
    }
}

impl FromSpecImpl<Subscript> for Inline {
    open spec fn obeys_from_spec() -> bool {
        true
    }

    open spec fn from_spec(v: Subscript) -> Inline {
        Inline::Subscript(v)
    }
}

impl TryFrom<Inline> for Subscript {
    type Error = Error;

    /// The node inside, where the value is of this kind; else the failure
    /// "wrong variant".
    fn try_from(v: Inline) -> (r: Result<Subscript, Error>)
        ensures
            match v {
                Inline::Subscript(x) => r == Ok::<Subscript, Error>(x),
                _ => r is Err && r->Err_0@ == wrong_variant(),
            },
    {
        match v {
            Inline::Subscript(x) => Ok(x),
            _ => Err(Error::general("wrong variant")),
        }
    }
}

impl TryFromSpecImpl<Inline> for Subscript {
    // A failure holds a string, which only executable code can make: the
    // contract stands on `try_from` itself.
    open spec fn obeys_try_from_spec() -> bool {
        false
    }

    open spec fn try_from_spec(v: Inline) -> Result<Subscript, Error> {
        match v {
            Inline::Subscript(x) => Ok(x),
            _ => Err(arbitrary()),
        }
    }
}

impl From<Insert> for Inline {
    fn from(v: Insert) -> (r: Inline) {
        Inline::Insert(v)
    }
}

impl FromSpecImpl<Insert> for Inline {
    open spec fn obeys_from_spec() -> bool {
        true
    }

    open spec fn from_spec(v: Insert) -> Inline {
        Inline::Insert(v)
    }
}

impl TryFrom<Inline> for Insert {
    type Error = Error;

    /// The node inside, where the value is of this kind; else the failure
    /// "wrong variant".
    fn try_from(v: Inline) -> (r: Result<Insert, Error>)
        ensures
            match v {
                Inline::Insert(x) => r == Ok::<Insert, Error>(x),
                _ => r is Err && r->Err_0@ == wrong_variant(),
            },
    {
        match v {
            Inline::Insert(x) => Ok(x),
            _ => Err(Error::general("wrong variant")),
        }
    }
}

impl TryFromSpecImpl<Inline> for Insert {
    // A failure holds a string, which only executable code can make: the
    // contract stands on `try_from` itself.
    open spec fn obeys_try_from_spec() -> bool {
        false
    }

    open spec fn try_from_spec(v: Inline) -> Result<Insert, Error> {
        match v {
            Inline::Insert(x) => Ok(x),
            _ => Err(arbitrary()),
        }
    }
}

impl From<Delete> for Inline {
    fn from(v: Delete) -> (r: Inline) {
        Inline::Delete(v)
    }
}

impl FromSpecImpl<Delete> for Inline {
    open spec fn obeys_from_spec() -> bool {
        true
    }

    open spec fn from_spec(v: Delete) -> Inline {
        Inline::Delete(v)
    }
}

impl TryFrom<Inline> for Delete {
    type Error = Error;

    /// The node inside, where the value is of this kind; else the failure
    /// "wrong variant".
    fn try_from(v: Inline) -> (r: Result<Delete, Error>)
        ensures
            match v {
                Inline::Delete(x) => r == Ok::<Delete, Error>(x),
                _ => r is Err && r->Err_0@ == wrong_variant(),
            },
    {
        match v {
            Inline::Delete(x) => Ok(x),
            _ => Err(Error::general("wrong variant")),
        }
    }
}

impl TryFromSpecImpl<Inline> for Delete {
    // A failure holds a string, which only executable code can make: the
    // contract stands on `try_from` itself.
    open spec fn obeys_try_from_spec() -> bool {
        false
    }

    open spec fn try_from_spec(v: Inline) -> Result<Delete, Error> {
        match v {
            Inline::Delete(x) => Ok(x),
            _ => Err(arbitrary()),
        }
    }
}

impl From<DoubleQuoted> for Inline {
    fn from(v: DoubleQuoted) -> (r: Inline) {
        Inline::DoubleQuoted(v)
    }
}

impl FromSpecImpl<DoubleQuoted> for Inline {
    open spec fn obeys_from_spec() -> bool {
        true
    }

    open spec fn from_spec(v: DoubleQuoted) -> Inline {
        Inline::DoubleQuoted(v)
    }
}

impl TryFrom<Inline> for DoubleQuoted {
    type Error = Error;

    /// The node inside, where the value is of this kind; else the failure
    /// "wrong variant".
    fn try_from(v: Inline) -> (r: Result<DoubleQuoted, Error>)
        ensures
            match v {
                Inline::DoubleQuoted(x) => r == Ok::<DoubleQuoted, Error>(x),
                _ => r is Err && r->Err_0@ == wrong_variant(),
            },
    {
        match v {
            Inline::DoubleQuoted(x) => Ok(x),
            _ => Err(Error::general("wrong variant")),
        }
    }
}

impl TryFromSpecImpl<Inline> for DoubleQuoted {
    // A failure holds a string, which only executable code can make: the
    // contract stands on `try_from` itself.
    open spec fn obeys_try_from_spec() -> bool {
        false
    }

    open spec fn try_from_spec(v: Inline) -> Result<DoubleQuoted, Error> {
        match v {
            Inline::DoubleQuoted(x) => Ok(x),
            _ => Err(arbitrary()),
        }
    }
}

impl From<SingleQuoted> for Inline {
    fn from(v: SingleQuoted) -> (r: Inline) {
        Inline::SingleQuoted(v)
    }
}

impl FromSpecImpl<SingleQuoted> for Inline {
    open spec fn obeys_from_spec() -> bool {
        true
    }

    open spec fn from_spec(v: SingleQuoted) -> Inline {
        Inline::SingleQuoted(v)
    }
}

impl TryFrom<Inline> for SingleQuoted {
    type Error = Error;

    /// The node inside, where the value is of this kind; else the failure
    /// "wrong variant".
    fn try_from(v: Inline) -> (r: Result<SingleQuoted, Error>)
        ensures
            match v {
                Inline::SingleQuoted(x) => r == Ok::<SingleQuoted, Error>(x),
                _ => r is Err && r->Err_0@ == wrong_variant(),
            },
    {
        match v {
            Inline::SingleQuoted(x) => Ok(x),
            _ => Err(Error::general("wrong variant")),
        }
    }
}

impl TryFromSpecImpl<Inline> for SingleQuoted {
    // A failure holds a string, which only executable code can make: the
    // contract stands on `try_from` itself.
    open spec fn obeys_try_from_spec() -> bool {
        false
    }

    open spec fn try_from_spec(v: Inline) -> Result<SingleQuoted, Error> {
        match v {
            Inline::SingleQuoted(x) => Ok(x),
            _ => Err(arbitrary()),
        }
    }
}

/// The punctuation marks that are written plainly and set with care.
#[derive(Debug, Clone, Copy, PartialEq, Eq, Structural)]
pub enum SmartPunctuationType {
    LeftSingleQuote,
    RightSingleQuote,
    LeftDoubleQuote,
    RightDoubleQuote,
    Ellipses,
    EmDash,
    EnDash,
}

impl SmartPunctuationType {
    /// The text that stands for the value in the encoded form.
    pub open spec fn text(self) -> Seq<char> {
        match self {
            SmartPunctuationType::LeftSingleQuote => "left_single_quote"@,
            SmartPunctuationType::RightSingleQuote => "right_single_quote"@,
            SmartPunctuationType::LeftDoubleQuote => "left_double_quote"@,
            SmartPunctuationType::RightDoubleQuote => "right_double_quote"@,
            SmartPunctuationType::Ellipses => "ellipses"@,
            SmartPunctuationType::EmDash => "em_dash"@,
            SmartPunctuationType::EnDash => "en_dash"@,
        }
    }

    /// The value that a text stands for; a text that stands for none is a
    /// failure.
    pub open spec fn parse(t: Seq<char>) -> Result<SmartPunctuationType, ErrorView> {
        if t == "left_single_quote"@ {
            Ok(SmartPunctuationType::LeftSingleQuote)
        } else if t == "right_single_quote"@ {
            Ok(SmartPunctuationType::RightSingleQuote)
        } else if t == "left_double_quote"@ {
            Ok(SmartPunctuationType::LeftDoubleQuote)
        } else if t == "right_double_quote"@ {
            Ok(SmartPunctuationType::RightDoubleQuote)
        } else if t == "ellipses"@ {
            Ok(SmartPunctuationType::Ellipses)
        } else if t == "em_dash"@ {
            Ok(SmartPunctuationType::EmDash)
        } else if t == "en_dash"@ {
            Ok(SmartPunctuationType::EnDash)
        } else {
            Err(unknown_variant(t))
        }
    }

    /// Each value comes back from its text.
    pub proof fn lemma_roundtrip(self)
        ensures
            SmartPunctuationType::parse(self.text()) == Ok::<SmartPunctuationType, ErrorView>(self),
    {
        lemma_names();
    }

    /// The text that stands for the value in the encoded form.
    pub fn as_str(&self) -> (s: &'static str)
        ensures
            s@ == self.text(),
    {
        match self {
            SmartPunctuationType::LeftSingleQuote => "left_single_quote",
            SmartPunctuationType::RightSingleQuote => "right_single_quote",
            SmartPunctuationType::LeftDoubleQuote => "left_double_quote",
            SmartPunctuationType::RightDoubleQuote => "right_double_quote",
            SmartPunctuationType::Ellipses => "ellipses",
            SmartPunctuationType::EmDash => "em_dash",
            SmartPunctuationType::EnDash => "en_dash",
        }
    }

    /// The value that a text stands for.
    pub fn from_text(t: &str) -> (r: Result<SmartPunctuationType, Error>)
        ensures
            match SmartPunctuationType::parse(t@) {
                Ok(x) => r == Ok::<SmartPunctuationType, Error>(x),
                Err(e) => r is Err && r->Err_0@ == e,
            },
    {
        if str_eq(t, "left_single_quote") {
            Ok(SmartPunctuationType::LeftSingleQuote)
        } else if str_eq(t, "right_single_quote") {
            Ok(SmartPunctuationType::RightSingleQuote)
        } else if str_eq(t, "left_double_quote") {
            Ok(SmartPunctuationType::LeftDoubleQuote)
        } else if str_eq(t, "right_double_quote") {
            Ok(SmartPunctuationType::RightDoubleQuote)
        } else if str_eq(t, "ellipses") {
            Ok(SmartPunctuationType::Ellipses)
        } else if str_eq(t, "em_dash") {
            Ok(SmartPunctuationType::EmDash)
        } else if str_eq(t, "en_dash") {
            Ok(SmartPunctuationType::EnDash)
        } else {
            Err(Value::unknown_variant(t))
        }
    }
}

/// A run of text.
#[derive(Debug, PartialEq, Eq)]
pub struct Str {
    pub text: String,
    pub meta: Meta,
}

/// The mathematical value of a [`Str`].
pub struct StrView {
    pub text: Seq<char>,
    pub meta: MetaView,
}

impl View for Str {
    type V = StrView;

    open spec fn view(&self) -> StrView
    {
        StrView {
            text: self.text@,
            meta: self.meta@,
        }
    }
}

impl StrView {
    /// The fields of the encoded node, before its metadata joins them.
    pub open spec fn fields(self) -> Map<Seq<char>, ValueView>
    {
        tagged("str"@).insert(
            "text"@,
            ValueView::Text(self.text),
        )
    }

    /// The encoded node: its discriminator, its fields and its metadata.
    pub open spec fn encode(self) -> ValueView
    {
        ValueView::Object(self.meta.flatten(self.fields()))
    }

    /// The node that an encoded value holds, or why it holds none.
    pub open spec fn decode(v: ValueView) -> Result<StrView, ErrorView>
    {
        match v.expect_tag("str"@) {
            Err(e) => Err(e),
            Ok(_) => match v.text("text"@) {
                Err(e) => Err(e),
                Ok(text) => match MetaView::decode(v) {
                    Err(e) => Err(e),
                    Ok(meta) => Ok(StrView { text, meta }),
                },
            },
        }
    }

    /// Decoding the encoded node gives the node back.
    pub proof fn lemma_roundtrip(self)
        ensures
            StrView::decode(self.encode()) == Ok::<StrView, ErrorView>(self),
    {
        lemma_names();
        let base = self.fields();
        lemma_flatten_keeps(self.meta, base, "tag"@);
        lemma_flatten_keeps(self.meta, base, "text"@);
        lemma_meta_roundtrip(self.meta, base);
    }
}

impl Str {
    /// A node with the given content and no metadata.
    pub fn new(text: String) -> (r: Str)
        ensures
            r.text == text,
            r.meta@ == MetaView::empty(),
    {
        Str { text, meta: Meta::default() }
    }

    /// Encodes the node. No object of the result has two fields of one
    /// name.
    pub fn encode(&self) -> (v: Value)
        ensures
            v@ == self@.encode(),
            v.unambiguous(),
    {
        proof {
            lemma_names();
        }
        let mut fields = Value::tagged("str");
        Value::put(&mut fields, "text", Value::Text(self.text.clone()));
        self.meta.flatten(&mut fields);
        Value::Object(fields)
    }

    /// Decodes a node of this kind. The value must be an object with the
    /// discriminator `str` and each field of the node; the first thing
    /// found wrong is the failure.
    pub fn decode(v: &Value) -> (r: Result<Str, Error>)
        ensures
            agrees(r, StrView::decode(v@)),
    {
        v.expect_tag("str")?;
        let text = v.text_field("text")?.clone();
        let meta = Meta::decode(v)?;
        Ok(Str { text, meta })
    }
}

impl Node for Str {
    open spec fn spec_node_type(&self) -> NodeType {
        NodeType::Leaf
    }

    fn node_type(&self) -> (t: NodeType) {
        NodeType::Leaf
    }
}

impl HasMeta for Str {
    open spec fn spec_meta(&self) -> Meta {
        self.meta
    }

    open spec fn with_meta(&self, meta: Meta) -> Str {
        Str { meta, ..*self }
    }

    fn meta(&self) -> (r: &Meta) {
        &self.meta
    }

    fn meta_mut(&mut self) -> (r: &mut Meta) {
        &mut self.meta
    }
}

impl Clone for Str {
    fn clone(&self) -> (r: Str)
        ensures
            r@ == self@,
    {
        let text = self.text.clone();
        let meta = self.meta.clone();
        Str { text, meta }
    }
}

/// A line ending that does not break the line.
#[derive(Debug, PartialEq, Eq)]
pub struct SoftBreak {
    pub meta: Meta,
}

/// The mathematical value of a [`SoftBreak`].
pub struct SoftBreakView {
    pub meta: MetaView,
}

impl View for SoftBreak {
    type V = SoftBreakView;

    open spec fn view(&self) -> SoftBreakView
    {
        SoftBreakView {
            meta: self.meta@,
        }
    }
}

impl SoftBreakView {
    /// The fields of the encoded node, before its metadata joins them.
    pub open spec fn fields(self) -> Map<Seq<char>, ValueView>
    {
        tagged("soft_break"@)
    }

    /// The encoded node: its discriminator, its fields and its metadata.
    pub open spec fn encode(self) -> ValueView
    {
        ValueView::Object(self.meta.flatten(self.fields()))
    }

    /// The node that an encoded value holds, or why it holds none.
    pub open spec fn decode(v: ValueView) -> Result<SoftBreakView, ErrorView>
    {
        match v.expect_tag("soft_break"@) {
            Err(e) => Err(e),
            Ok(_) => match MetaView::decode(v) {
                Err(e) => Err(e),
                Ok(meta) => Ok(SoftBreakView { meta }),
            },
        }
    }

    /// Decoding the encoded node gives the node back.
    pub proof fn lemma_roundtrip(self)
        ensures
            SoftBreakView::decode(self.encode()) == Ok::<SoftBreakView, ErrorView>(self),
    {
        lemma_names();
        let base = self.fields();
        lemma_flatten_keeps(self.meta, base, "tag"@);
        lemma_meta_roundtrip(self.meta, base);
    }
}

impl SoftBreak {
    /// A node with the given content and no metadata.
    pub fn new() -> (r: SoftBreak)
        ensures
            r.meta@ == MetaView::empty(),
    {
        SoftBreak { meta: Meta::default() }
    }

    /// Encodes the node. No object of the result has two fields of one
    /// name.
    pub fn encode(&self) -> (v: Value)
        ensures
            v@ == self@.encode(),
            v.unambiguous(),
    {
        proof {
            lemma_names();
        }
        let mut fields = Value::tagged("soft_break");
        self.meta.flatten(&mut fields);
        Value::Object(fields)
    }

    /// Decodes a node of this kind. The value must be an object with the
    /// discriminator `soft_break` and each field of the node; the first thing
    /// found wrong is the failure.
    pub fn decode(v: &Value) -> (r: Result<SoftBreak, Error>)
        ensures
            agrees(r, SoftBreakView::decode(v@)),
    {
        v.expect_tag("soft_break")?;
        let meta = Meta::decode(v)?;
        Ok(SoftBreak { meta })
    }
}

impl Node for SoftBreak {
    open spec fn spec_node_type(&self) -> NodeType {
        NodeType::Leaf
    }

    fn node_type(&self) -> (t: NodeType) {
        NodeType::Leaf
    }
}

impl HasMeta for SoftBreak {
    open spec fn spec_meta(&self) -> Meta {
        self.meta
    }

    open spec fn with_meta(&self, meta: Meta) -> SoftBreak {
        SoftBreak { meta, ..*self }
    }

    fn meta(&self) -> (r: &Meta) {
        &self.meta
    }

    fn meta_mut(&mut self) -> (r: &mut Meta) {
        &mut self.meta
    }
}

impl Clone for SoftBreak {
    fn clone(&self) -> (r: SoftBreak)
        ensures
            r@ == self@,
    {
        let meta = self.meta.clone();
        SoftBreak { meta }
    }
}

/// A line ending that breaks the line.
#[derive(Debug, PartialEq, Eq)]
pub struct HardBreak {
    pub meta: Meta,
}

/// The mathematical value of a [`HardBreak`].
pub struct HardBreakView {
    pub meta: MetaView,
}

impl View for HardBreak {
    type V = HardBreakView;

    open spec fn view(&self) -> HardBreakView
    {
        HardBreakView {
            meta: self.meta@,
        }
    }
}

impl HardBreakView {
    /// The fields of the encoded node, before its metadata joins them.
    pub open spec fn fields(self) -> Map<Seq<char>, ValueView>
    {
        tagged("hard_break"@)
    }

    /// The encoded node: its discriminator, its fields and its metadata.
    pub open spec fn encode(self) -> ValueView
    {
        ValueView::Object(self.meta.flatten(self.fields()))
    }

    /// The node that an encoded value holds, or why it holds none.
    pub open spec fn decode(v: ValueView) -> Result<HardBreakView, ErrorView>
    {
        match v.expect_tag("hard_break"@) {
            Err(e) => Err(e),
            Ok(_) => match MetaView::decode(v) {
                Err(e) => Err(e),
                Ok(meta) => Ok(HardBreakView { meta }),
            },
        }
    }

    /// Decoding the encoded node gives the node back.
    pub proof fn lemma_roundtrip(self)
        ensures
            HardBreakView::decode(self.encode()) == Ok::<HardBreakView, ErrorView>(self),
    {
        lemma_names();
        let base = self.fields();
        lemma_flatten_keeps(self.meta, base, "tag"@);
        lemma_meta_roundtrip(self.meta, base);
    }
}

impl HardBreak {
    /// A node with the given content and no metadata.
    pub fn new() -> (r: HardBreak)
        ensures
            r.meta@ == MetaView::empty(),
    {
        HardBreak { meta: Meta::default() }
    }

    /// Encodes the node. No object of the result has two fields of one
    /// name.
    pub fn encode(&self) -> (v: Value)
        ensures
            v@ == self@.encode(),
            v.unambiguous(),
    {
        proof {
            lemma_names();
        }
        let mut fields = Value::tagged("hard_break");
        self.meta.flatten(&mut fields);
        Value::Object(fields)
    }

    /// Decodes a node of this kind. The value must be an object with the
    /// discriminator `hard_break` and each field of the node; the first thing
    /// found wrong is the failure.
    pub fn decode(v: &Value) -> (r: Result<HardBreak, Error>)
        ensures
            agrees(r, HardBreakView::decode(v@)),
    {
        v.expect_tag("hard_break")?;
        let meta = Meta::decode(v)?;
        Ok(HardBreak { meta })
    }
}

impl Node for HardBreak {
    open spec fn spec_node_type(&self) -> NodeType {
        NodeType::Leaf
    }

    fn node_type(&self) -> (t: NodeType) {
        NodeType::Leaf
    }
}

impl HasMeta for HardBreak {
    open spec fn spec_meta(&self) -> Meta {
        self.meta
    }

    open spec fn with_meta(&self, meta: Meta) -> HardBreak {
        HardBreak { meta, ..*self }
    }

    fn meta(&self) -> (r: &Meta) {
        &self.meta
    }

    fn meta_mut(&mut self) -> (r: &mut Meta) {
        &mut self.meta
    }
}

impl Clone for HardBreak {
    fn clone(&self) -> (r: HardBreak)
        ensures
            r@ == self@,
    {
        let meta = self.meta.clone();
        HardBreak { meta }
    }
}

/// A space at which the line may not break.
#[derive(Debug, PartialEq, Eq)]
pub struct NonBreakingSpace {
    pub meta: Meta,
}

/// The mathematical value of a [`NonBreakingSpace`].
pub struct NonBreakingSpaceView {
    pub meta: MetaView,
}

impl View for NonBreakingSpace {
    type V = NonBreakingSpaceView;

    open spec fn view(&self) -> NonBreakingSpaceView
    {
        NonBreakingSpaceView {
            meta: self.meta@,
        }
    }
}

impl NonBreakingSpaceView {
    /// The fields of the encoded node, before its metadata joins them.
    pub open spec fn fields(self) -> Map<Seq<char>, ValueView>
    {
        tagged("non_breaking_space"@)
    }

    /// The encoded node: its discriminator, its fields and its metadata.
    pub open spec fn encode(self) -> ValueView
    {
        ValueView::Object(self.meta.flatten(self.fields()))
    }

    /// The node that an encoded value holds, or why it holds none.
    pub open spec fn decode(v: ValueView) -> Result<NonBreakingSpaceView, ErrorView>
    {
        match v.expect_tag("non_breaking_space"@) {
            Err(e) => Err(e),
            Ok(_) => match MetaView::decode(v) {
                Err(e) => Err(e),
                Ok(meta) => Ok(NonBreakingSpaceView { meta }),
            },
        }
    }

    /// Decoding the encoded node gives the node back.
    pub proof fn lemma_roundtrip(self)
        ensures
            NonBreakingSpaceView::decode(self.encode()) == Ok::<NonBreakingSpaceView, ErrorView>(
                self,
            ),
    {
        lemma_names();
        let base = self.fields();
        lemma_flatten_keeps(self.meta, base, "tag"@);
        lemma_meta_roundtrip(self.meta, base);
    }
}

impl NonBreakingSpace {
    /// A node with the given content and no metadata.
    pub fn new() -> (r: NonBreakingSpace)
        ensures
            r.meta@ == MetaView::empty(),
    {
        NonBreakingSpace { meta: Meta::default() }
    }

    /// Encodes the node. No object of the result has two fields of one
    /// name.
    pub fn encode(&self) -> (v: Value)
        ensures
            v@ == self@.encode(),
            v.unambiguous(),
    {
        proof {
            lemma_names();
        }
        let mut fields = Value::tagged("non_breaking_space");
        self.meta.flatten(&mut fields);
        Value::Object(fields)
    }

    /// Decodes a node of this kind. The value must be an object with the
    /// discriminator `non_breaking_space` and each field of the node; the first thing
    /// found wrong is the failure.
    pub fn decode(v: &Value) -> (r: Result<NonBreakingSpace, Error>)
        ensures
            agrees(r, NonBreakingSpaceView::decode(v@)),
    {
        v.expect_tag("non_breaking_space")?;
        let meta = Meta::decode(v)?;
        Ok(NonBreakingSpace { meta })
    }
}

impl Node for NonBreakingSpace {
    open spec fn spec_node_type(&self) -> NodeType {
        NodeType::Leaf
    }

    fn node_type(&self) -> (t: NodeType) {
        NodeType::Leaf
    }
}

impl HasMeta for NonBreakingSpace {
    open spec fn spec_meta(&self) -> Meta {
        self.meta
    }

    open spec fn with_meta(&self, meta: Meta) -> NonBreakingSpace {
        NonBreakingSpace { meta, ..*self }
    }

    fn meta(&self) -> (r: &Meta) {
        &self.meta
    }

    fn meta_mut(&mut self) -> (r: &mut Meta) {
        &mut self.meta
    }
}

impl Clone for NonBreakingSpace {
    fn clone(&self) -> (r: NonBreakingSpace)
        ensures
            r@ == self@,
    {
        let meta = self.meta.clone();
        NonBreakingSpace { meta }
    }
}

/// A symbol, named by its alias.
#[derive(Debug, PartialEq, Eq)]
pub struct Symb {
    pub alias: String,
    pub meta: Meta,
}

/// The mathematical value of a [`Symb`].
pub struct SymbView {
    pub alias: Seq<char>,
    pub meta: MetaView,
}

impl View for Symb {
    type V = SymbView;

    open spec fn view(&self) -> SymbView
    {
        SymbView {
            alias: self.alias@,
            meta: self.meta@,
        }
    }
}

impl SymbView {
    /// The fields of the encoded node, before its metadata joins them.
    pub open spec fn fields(self) -> Map<Seq<char>, ValueView>
    {
        tagged("symb"@).insert(
            "alias"@,
            ValueView::Text(self.alias),
        )
    }

    /// The encoded node: its discriminator, its fields and its metadata.
    pub open spec fn encode(self) -> ValueView
    {
        ValueView::Object(self.meta.flatten(self.fields()))
    }

    /// The node that an encoded value holds, or why it holds none.
    pub open spec fn decode(v: ValueView) -> Result<SymbView, ErrorView>
    {
        match v.expect_tag("symb"@) {
            Err(e) => Err(e),
            Ok(_) => match v.text("alias"@) {
                Err(e) => Err(e),
                Ok(alias) => match MetaView::decode(v) {
                    Err(e) => Err(e),
                    Ok(meta) => Ok(SymbView { alias, meta }),
                },
            },
        }
    }

    /// Decoding the encoded node gives the node back.
    pub proof fn lemma_roundtrip(self)
        ensures
            SymbView::decode(self.encode()) == Ok::<SymbView, ErrorView>(self),
    {
        lemma_names();
        let base = self.fields();
        lemma_flatten_keeps(self.meta, base, "tag"@);
        lemma_flatten_keeps(self.meta, base, "alias"@);
        lemma_meta_roundtrip(self.meta, base);
    }
}

impl Symb {
    /// A node with the given content and no metadata.
    pub fn new(alias: String) -> (r: Symb)
        ensures
            r.alias == alias,
            r.meta@ == MetaView::empty(),
    {
        Symb { alias, meta: Meta::default() }
    }

    /// Encodes the node. No object of the result has two fields of one
    /// name.
    pub fn encode(&self) -> (v: Value)
        ensures
            v@ == self@.encode(),
            v.unambiguous(),
    {
        proof {
            lemma_names();
        }
        let mut fields = Value::tagged("symb");
        Value::put(&mut fields, "alias", Value::Text(self.alias.clone()));
        self.meta.flatten(&mut fields);
        Value::Object(fields)
    }

    /// Decodes a node of this kind. The value must be an object with the
    /// discriminator `symb` and each field of the node; the first thing
    /// found wrong is the failure.
    pub fn decode(v: &Value) -> (r: Result<Symb, Error>)
        ensures
            agrees(r, SymbView::decode(v@)),
    {
        v.expect_tag("symb")?;
        let alias = v.text_field("alias")?.clone();
        let meta = Meta::decode(v)?;
        Ok(Symb { alias, meta })
    }
}

impl Node for Symb {
    open spec fn spec_node_type(&self) -> NodeType {
        NodeType::Leaf
    }

    fn node_type(&self) -> (t: NodeType) {
        NodeType::Leaf
    }
}

impl HasMeta for Symb {
    open spec fn spec_meta(&self) -> Meta {
        self.meta
    }

    open spec fn with_meta(&self, meta: Meta) -> Symb {
        Symb { meta, ..*self }
    }

    fn meta(&self) -> (r: &Meta) {
        &self.meta
    }

    fn meta_mut(&mut self) -> (r: &mut Meta) {
        &mut self.meta
    }
}

impl Clone for Symb {
    fn clone(&self) -> (r: Symb)
        ensures
            r@ == self@,
    {
        let alias = self.alias.clone();
        let meta = self.meta.clone();
        Symb { alias, meta }
    }
}

/// Inline text that is taken as it stands.
#[derive(Debug, PartialEq, Eq)]
pub struct Verbatim {
    pub text: String,
    pub meta: Meta,
}

/// The mathematical value of a [`Verbatim`].
pub struct VerbatimView {
    pub text: Seq<char>,
    pub meta: MetaView,
}

impl View for Verbatim {
    type V = VerbatimView;

    open spec fn view(&self) -> VerbatimView
    {
        VerbatimView {
            text: self.text@,
            meta: self.meta@,
        }
    }
}

impl VerbatimView {
    /// The fields of the encoded node, before its metadata joins them.
    pub open spec fn fields(self) -> Map<Seq<char>, ValueView>
    {
        tagged("verbatim"@).insert(
            "text"@,
            ValueView::Text(self.text),
        )
    }

    /// The encoded node: its discriminator, its fields and its metadata.
    pub open spec fn encode(self) -> ValueView
    {
        ValueView::Object(self.meta.flatten(self.fields()))
    }

    /// The node that an encoded value holds, or why it holds none.
    pub open spec fn decode(v: ValueView) -> Result<VerbatimView, ErrorView>
    {
        match v.expect_tag("verbatim"@) {
            Err(e) => Err(e),
            Ok(_) => match v.text("text"@) {
                Err(e) => Err(e),
                Ok(text) => match MetaView::decode(v) {
                    Err(e) => Err(e),
                    Ok(meta) => Ok(VerbatimView { text, meta }),
                },
            },
        }
    }

    /// Decoding the encoded node gives the node back.
    pub proof fn lemma_roundtrip(self)
        ensures
            VerbatimView::decode(self.encode()) == Ok::<VerbatimView, ErrorView>(self),
    {
        lemma_names();
        let base = self.fields();
        lemma_flatten_keeps(self.meta, base, "tag"@);
        lemma_flatten_keeps(self.meta, base, "text"@);
        lemma_meta_roundtrip(self.meta, base);
    }
}

impl Verbatim {
    /// A node with the given content and no metadata.
    pub fn new(text: String) -> (r: Verbatim)
        ensures
            r.text == text,
            r.meta@ == MetaView::empty(),
    {
        Verbatim { text, meta: Meta::default() }
    }

    /// Encodes the node. No object of the result has two fields of one
    /// name.
    pub fn encode(&self) -> (v: Value)
        ensures
            v@ == self@.encode(),
            v.unambiguous(),
    {
        proof {
            lemma_names();
        }
        let mut fields = Value::tagged("verbatim");
        Value::put(&mut fields, "text", Value::Text(self.text.clone()));
        self.meta.flatten(&mut fields);
        Value::Object(fields)
    }

    /// Decodes a node of this kind. The value must be an object with the
    /// discriminator `verbatim` and each field of the node; the first thing
    /// found wrong is the failure.
    pub fn decode(v: &Value) -> (r: Result<Verbatim, Error>)
        ensures
            agrees(r, VerbatimView::decode(v@)),
    {
        v.expect_tag("verbatim")?;
        let text = v.text_field("text")?.clone();
        let meta = Meta::decode(v)?;
        Ok(Verbatim { text, meta })
    }
}

impl Node for Verbatim {
    open spec fn spec_node_type(&self) -> NodeType {
        NodeType::Leaf
    }

    fn node_type(&self) -> (t: NodeType) {
        NodeType::Leaf
    }
}

impl HasMeta for Verbatim {
    open spec fn spec_meta(&self) -> Meta {
        self.meta
    }

    open spec fn with_meta(&self, meta: Meta) -> Verbatim {
        Verbatim { meta, ..*self }
    }

    fn meta(&self) -> (r: &Meta) {
        &self.meta
    }

    fn meta_mut(&mut self) -> (r: &mut Meta) {
        &mut self.meta
    }
}

impl Clone for Verbatim {
    fn clone(&self) -> (r: Verbatim)
        ensures
            r@ == self@,
    {
        let text = self.text.clone();
        let meta = self.meta.clone();
        Verbatim { text, meta }
    }
}

/// Inline content passed through to one output format.
#[derive(Debug, PartialEq, Eq)]
pub struct RawInline {
    pub format: String,
    pub text: String,
    pub meta: Meta,
}

/// The mathematical value of a [`RawInline`].
pub struct RawInlineView {
    pub format: Seq<char>,
    pub text: Seq<char>,
    pub meta: MetaView,
}

impl View for RawInline {
    type V = RawInlineView;

    open spec fn view(&self) -> RawInlineView
    {
        RawInlineView {
            format: self.format@,
            text: self.text@,
            meta: self.meta@,
        }
    }
}

impl RawInlineView {
    /// The fields of the encoded node, before its metadata joins them.
    pub open spec fn fields(self) -> Map<Seq<char>, ValueView>
    {
        tagged("raw_inline"@).insert(
            "format"@,
            ValueView::Text(self.format),
        ).insert(
            "text"@,
            ValueView::Text(self.text),
        )
    }

    /// The encoded node: its discriminator, its fields and its metadata.
    pub open spec fn encode(self) -> ValueView
    {
        ValueView::Object(self.meta.flatten(self.fields()))
    }

    /// The node that an encoded value holds, or why it holds none.
    pub open spec fn decode(v: ValueView) -> Result<RawInlineView, ErrorView>
    {
        match v.expect_tag("raw_inline"@) {
            Err(e) => Err(e),
            Ok(_) => match v.text("format"@) {
                Err(e) => Err(e),
                Ok(format) => match v.text("text"@) {
                    Err(e) => Err(e),
                    Ok(text) => match MetaView::decode(v) {
                        Err(e) => Err(e),
                        Ok(meta) => Ok(RawInlineView { format, text, meta }),
                    },
                },
            },
        }
    }

    /// Decoding the encoded node gives the node back.
    pub proof fn lemma_roundtrip(self)
        ensures
            RawInlineView::decode(self.encode()) == Ok::<RawInlineView, ErrorView>(self),
    {
        lemma_names();
        let base = self.fields();
        lemma_flatten_keeps(self.meta, base, "tag"@);
        lemma_flatten_keeps(self.meta, base, "format"@);
        lemma_flatten_keeps(self.meta, base, "text"@);
        lemma_meta_roundtrip(self.meta, base);
    }
}

impl RawInline {
    /// A node with the given content and no metadata.
    pub fn new(format: String, text: String) -> (r: RawInline)
        ensures
            r.format == format,
            r.text == text,
            r.meta@ == MetaView::empty(),
    {
        RawInline { format, text, meta: Meta::default() }
    }

    /// Encodes the node. No object of the result has two fields of one
    /// name.
    pub fn encode(&self) -> (v: Value)
        ensures
            v@ == self@.encode(),
            v.unambiguous(),
    {
        proof {
            lemma_names();
        }
        let mut fields = Value::tagged("raw_inline");
        Value::put(&mut fields, "format", Value::Text(self.format.clone()));
        Value::put(&mut fields, "text", Value::Text(self.text.clone()));
        self.meta.flatten(&mut fields);
        Value::Object(fields)
    }

    /// Decodes a node of this kind. The value must be an object with the
    /// discriminator `raw_inline` and each field of the node; the first thing
    /// found wrong is the failure.
    pub fn decode(v: &Value) -> (r: Result<RawInline, Error>)
        ensures
            agrees(r, RawInlineView::decode(v@)),
    {
        v.expect_tag("raw_inline")?;
        let format = v.text_field("format")?.clone();
        let text = v.text_field("text")?.clone();
        let meta = Meta::decode(v)?;
        Ok(RawInline { format, text, meta })
    }
}

impl Node for RawInline {
    open spec fn spec_node_type(&self) -> NodeType {
        NodeType::Leaf
    }

    fn node_type(&self) -> (t: NodeType) {
        NodeType::Leaf
    }
}

impl HasMeta for RawInline {
    open spec fn spec_meta(&self) -> Meta {
        self.meta
    }

    open spec fn with_meta(&self, meta: Meta) -> RawInline {
        RawInline { meta, ..*self }
    }

    fn meta(&self) -> (r: &Meta) {
        &self.meta
    }

    fn meta_mut(&mut self) -> (r: &mut Meta) {
        &mut self.meta
    }
}

impl Clone for RawInline {
    fn clone(&self) -> (r: RawInline)
        ensures
            r@ == self@,
    {
        let format = self.format.clone();
        let text = self.text.clone();
        let meta = self.meta.clone();
        RawInline { format, text, meta }
    }
}

/// Mathematics within a line.
#[derive(Debug, PartialEq, Eq)]
pub struct InlineMath {
    pub text: String,
    pub meta: Meta,
}

/// The mathematical value of an [`InlineMath`].
pub struct InlineMathView {
    pub text: Seq<char>,
    pub meta: MetaView,
}

impl View for InlineMath {
    type V = InlineMathView;

    open spec fn view(&self) -> InlineMathView
    {
        InlineMathView {
            text: self.text@,
            meta: self.meta@,
        }
    }
}

impl InlineMathView {
    /// The fields of the encoded node, before its metadata joins them.
    pub open spec fn fields(self) -> Map<Seq<char>, ValueView>
    {
        tagged("inline_math"@).insert(
            "text"@,
            ValueView::Text(self.text),
        )
    }

    /// The encoded node: its discriminator, its fields and its metadata.
    pub open spec fn encode(self) -> ValueView
    {
        ValueView::Object(self.meta.flatten(self.fields()))
    }

    /// The node that an encoded value holds, or why it holds none.
    pub open spec fn decode(v: ValueView) -> Result<InlineMathView, ErrorView>
    {
        match v.expect_tag("inline_math"@) {
            Err(e) => Err(e),
            Ok(_) => match v.text("text"@) {
                Err(e) => Err(e),
                Ok(text) => match MetaView::decode(v) {
                    Err(e) => Err(e),
                    Ok(meta) => Ok(InlineMathView { text, meta }),
                },
            },
        }
    }

    /// Decoding the encoded node gives the node back.
    pub proof fn lemma_roundtrip(self)
        ensures
            InlineMathView::decode(self.encode()) == Ok::<InlineMathView, ErrorView>(self),
    {
        lemma_names();
        let base = self.fields();
        lemma_flatten_keeps(self.meta, base, "tag"@);
        lemma_flatten_keeps(self.meta, base, "text"@);
        lemma_meta_roundtrip(self.meta, base);
    }
}

impl InlineMath {
    /// A node with the given content and no metadata.
    pub fn new(text: String) -> (r: InlineMath)
        ensures
            r.text == text,
            r.meta@ == MetaView::empty(),
    {
        InlineMath { text, meta: Meta::default() }
    }

    /// Encodes the node. No object of the result has two fields of one
    /// name.
    pub fn encode(&self) -> (v: Value)
        ensures
            v@ == self@.encode(),
            v.unambiguous(),
    {
        proof {
            lemma_names();
        }
        let mut fields = Value::tagged("inline_math");
        Value::put(&mut fields, "text", Value::Text(self.text.clone()));
        self.meta.flatten(&mut fields);
        Value::Object(fields)
    }

    /// Decodes a node of this kind. The value must be an object with the
    /// discriminator `inline_math` and each field of the node; the first thing
    /// found wrong is the failure.
    pub fn decode(v: &Value) -> (r: Result<InlineMath, Error>)
        ensures
            agrees(r, InlineMathView::decode(v@)),
    {
        v.expect_tag("inline_math")?;
        let text = v.text_field("text")?.clone();
        let meta = Meta::decode(v)?;
        Ok(InlineMath { text, meta })
    }
}

impl Node for InlineMath {
    open spec fn spec_node_type(&self) -> NodeType {
        NodeType::Leaf
    }

    fn node_type(&self) -> (t: NodeType) {
        NodeType::Leaf
    }
}

impl HasMeta for InlineMath {
    open spec fn spec_meta(&self) -> Meta {
        self.meta
    }

    open spec fn with_meta(&self, meta: Meta) -> InlineMath {
        InlineMath { meta, ..*self }
    }

    fn meta(&self) -> (r: &Meta) {
        &self.meta
    }

    fn meta_mut(&mut self) -> (r: &mut Meta) {
        &mut self.meta
    }
}

impl Clone for InlineMath {
    fn clone(&self) -> (r: InlineMath)
        ensures
            r@ == self@,
    {
        let text = self.text.clone();
        let meta = self.meta.clone();
        InlineMath { text, meta }
    }
}

/// Mathematics set off from the text.
#[derive(Debug, PartialEq, Eq)]
pub struct DisplayMath {
    pub text: String,
    pub meta: Meta,
}

/// The mathematical value of a [`DisplayMath`].
pub struct DisplayMathView {
    pub text: Seq<char>,
    pub meta: MetaView,
}

impl View for DisplayMath {
    type V = DisplayMathView;

    open spec fn view(&self) -> DisplayMathView
    {
        DisplayMathView {
            text: self.text@,
            meta: self.meta@,
        }
    }
}

impl DisplayMathView {
    /// The fields of the encoded node, before its metadata joins them.
    pub open spec fn fields(self) -> Map<Seq<char>, ValueView>
    {
        tagged("display_math"@).insert(
            "text"@,
            ValueView::Text(self.text),
        )
    }

    /// The encoded node: its discriminator, its fields and its metadata.
    pub open spec fn encode(self) -> ValueView
    {
        ValueView::Object(self.meta.flatten(self.fields()))
    }

    /// The node that an encoded value holds, or why it holds none.
    pub open spec fn decode(v: ValueView) -> Result<DisplayMathView, ErrorView>
    {
        match v.expect_tag("display_math"@) {
            Err(e) => Err(e),
            Ok(_) => match v.text("text"@) {
                Err(e) => Err(e),
                Ok(text) => match MetaView::decode(v) {
                    Err(e) => Err(e),
                    Ok(meta) => Ok(DisplayMathView { text, meta }),
                },
            },
        }
    }

    /// Decoding the encoded node gives the node back.
    pub proof fn lemma_roundtrip(self)
        ensures
            DisplayMathView::decode(self.encode()) == Ok::<DisplayMathView, ErrorView>(self),
    {
        lemma_names();
        let base = self.fields();
        lemma_flatten_keeps(self.meta, base, "tag"@);
        lemma_flatten_keeps(self.meta, base, "text"@);
        lemma_meta_roundtrip(self.meta, base);
    }
}

impl DisplayMath {
    /// A node with the given content and no metadata.
    pub fn new(text: String) -> (r: DisplayMath)
        ensures
            r.text == text,
            r.meta@ == MetaView::empty(),
    {
        DisplayMath { text, meta: Meta::default() }
    }

    /// Encodes the node. No object of the result has two fields of one
    /// name.
    pub fn encode(&self) -> (v: Value)
        ensures
            v@ == self@.encode(),
            v.unambiguous(),
    {
        proof {
            lemma_names();
        }
        let mut fields = Value::tagged("display_math");
        Value::put(&mut fields, "text", Value::Text(self.text.clone()));
        self.meta.flatten(&mut fields);
        Value::Object(fields)
    }

    /// Decodes a node of this kind. The value must be an object with the
    /// discriminator `display_math` and each field of the node; the first thing
    /// found wrong is the failure.
    pub fn decode(v: &Value) -> (r: Result<DisplayMath, Error>)
        ensures
            agrees(r, DisplayMathView::decode(v@)),
    {
        v.expect_tag("display_math")?;
        let text = v.text_field("text")?.clone();
        let meta = Meta::decode(v)?;
        Ok(DisplayMath { text, meta })
    }
}

impl Node for DisplayMath {
    open spec fn spec_node_type(&self) -> NodeType {
        NodeType::Leaf
    }

    fn node_type(&self) -> (t: NodeType) {
        NodeType::Leaf
    }
}

impl HasMeta for DisplayMath {
    open spec fn spec_meta(&self) -> Meta {
        self.meta
    }

    open spec fn with_meta(&self, meta: Meta) -> DisplayMath {
        DisplayMath { meta, ..*self }
    }

    fn meta(&self) -> (r: &Meta) {
        &self.meta
    }

    fn meta_mut(&mut self) -> (r: &mut Meta) {
        &mut self.meta
    }
}

impl Clone for DisplayMath {
    fn clone(&self) -> (r: DisplayMath)
        ensures
            r@ == self@,
    {
        let text = self.text.clone();
        let meta = self.meta.clone();
        DisplayMath { text, meta }
    }
}

/// A bare address.
#[derive(Debug, PartialEq, Eq)]
pub struct Url {
    pub text: String,
    pub meta: Meta,
}

/// The mathematical value of an [`Url`].
pub struct UrlView {
    pub text: Seq<char>,
    pub meta: MetaView,
}

impl View for Url {
    type V = UrlView;

    open spec fn view(&self) -> UrlView
    {
        UrlView {
            text: self.text@,
            meta: self.meta@,
        }
    }
}

impl UrlView {
    /// The fields of the encoded node, before its metadata joins them.
    pub open spec fn fields(self) -> Map<Seq<char>, ValueView>
    {
        tagged("url"@).insert(
            "text"@,
            ValueView::Text(self.text),
        )
    }

    /// The encoded node: its discriminator, its fields and its metadata.
    pub open spec fn encode(self) -> ValueView
    {
        ValueView::Object(self.meta.flatten(self.fields()))
    }

    /// The node that an encoded value holds, or why it holds none.
    pub open spec fn decode(v: ValueView) -> Result<UrlView, ErrorView>
    {
        match v.expect_tag("url"@) {
            Err(e) => Err(e),
            Ok(_) => match v.text("text"@) {
                Err(e) => Err(e),
                Ok(text) => match MetaView::decode(v) {
                    Err(e) => Err(e),
                    Ok(meta) => Ok(UrlView { text, meta }),
                },
            },
        }
    }

    /// Decoding the encoded node gives the node back.
    pub proof fn lemma_roundtrip(self)
        ensures
            UrlView::decode(self.encode()) == Ok::<UrlView, ErrorView>(self),
    {
        lemma_names();
        let base = self.fields();
        lemma_flatten_keeps(self.meta, base, "tag"@);
        lemma_flatten_keeps(self.meta, base, "text"@);
        lemma_meta_roundtrip(self.meta, base);
    }
}

impl Url {
    /// A node with the given content and no metadata.
    pub fn new(text: String) -> (r: Url)
        ensures
            r.text == text,
            r.meta@ == MetaView::empty(),
    {
        Url { text, meta: Meta::default() }
    }

    /// Encodes the node. No object of the result has two fields of one
    /// name.
    pub fn encode(&self) -> (v: Value)
        ensures
            v@ == self@.encode(),
            v.unambiguous(),
    {
        proof {
            lemma_names();
        }
        let mut fields = Value::tagged("url");
        Value::put(&mut fields, "text", Value::Text(self.text.clone()));
        self.meta.flatten(&mut fields);
        Value::Object(fields)
    }

    /// Decodes a node of this kind. The value must be an object with the
    /// discriminator `url` and each field of the node; the first thing
    /// found wrong is the failure.
    pub fn decode(v: &Value) -> (r: Result<Url, Error>)
        ensures
            agrees(r, UrlView::decode(v@)),
    {
        v.expect_tag("url")?;
        let text = v.text_field("text")?.clone();
        let meta = Meta::decode(v)?;
        Ok(Url { text, meta })
    }
}

impl Node for Url {
    open spec fn spec_node_type(&self) -> NodeType {
        NodeType::Leaf
    }

    fn node_type(&self) -> (t: NodeType) {
        NodeType::Leaf
    }
}

impl HasMeta for Url {
    open spec fn spec_meta(&self) -> Meta {
        self.meta
    }

    open spec fn with_meta(&self, meta: Meta) -> Url {
        Url { meta, ..*self }
    }

    fn meta(&self) -> (r: &Meta) {
        &self.meta
    }

    fn meta_mut(&mut self) -> (r: &mut Meta) {
        &mut self.meta
    }
}

impl Clone for Url {
    fn clone(&self) -> (r: Url)
        ensures
            r@ == self@,
    {
        let text = self.text.clone();
        let meta = self.meta.clone();
        Url { text, meta }
    }
}

/// A bare mail address.
#[derive(Debug, PartialEq, Eq)]
pub struct Email {
    pub text: String,
    pub meta: Meta,
}

/// The mathematical value of an [`Email`].
pub struct EmailView {
    pub text: Seq<char>,
    pub meta: MetaView,
}

impl View for Email {
    type V = EmailView;

    open spec fn view(&self) -> EmailView
    {
        EmailView {
            text: self.text@,
            meta: self.meta@,
        }
    }
}

impl EmailView {
    /// The fields of the encoded node, before its metadata joins them.
    pub open spec fn fields(self) -> Map<Seq<char>, ValueView>
    {
        tagged("email"@).insert(
            "text"@,
            ValueView::Text(self.text),
        )
    }

    /// The encoded node: its discriminator, its fields and its metadata.
    pub open spec fn encode(self) -> ValueView
    {
        ValueView::Object(self.meta.flatten(self.fields()))
    }

    /// The node that an encoded value holds, or why it holds none.
    pub open spec fn decode(v: ValueView) -> Result<EmailView, ErrorView>
    {
        match v.expect_tag("email"@) {
            Err(e) => Err(e),
            Ok(_) => match v.text("text"@) {
                Err(e) => Err(e),
                Ok(text) => match MetaView::decode(v) {
                    Err(e) => Err(e),
                    Ok(meta) => Ok(EmailView { text, meta }),
                },
            },
        }
    }

    /// Decoding the encoded node gives the node back.
    pub proof fn lemma_roundtrip(self)
        ensures
            EmailView::decode(self.encode()) == Ok::<EmailView, ErrorView>(self),
    {
        lemma_names();
        let base = self.fields();
        lemma_flatten_keeps(self.meta, base, "tag"@);
        lemma_flatten_keeps(self.meta, base, "text"@);
        lemma_meta_roundtrip(self.meta, base);
    }
}

impl Email {
    /// A node with the given content and no metadata.
    pub fn new(text: String) -> (r: Email)
        ensures
            r.text == text,
            r.meta@ == MetaView::empty(),
    {
        Email { text, meta: Meta::default() }
    }

    /// Encodes the node. No object of the result has two fields of one
    /// name.
    pub fn encode(&self) -> (v: Value)
        ensures
            v@ == self@.encode(),
            v.unambiguous(),
    {
        proof {
            lemma_names();
        }
        let mut fields = Value::tagged("email");
        Value::put(&mut fields, "text", Value::Text(self.text.clone()));
        self.meta.flatten(&mut fields);
        Value::Object(fields)
    }

    /// Decodes a node of this kind. The value must be an object with the
    /// discriminator `email` and each field of the node; the first thing
    /// found wrong is the failure.
    pub fn decode(v: &Value) -> (r: Result<Email, Error>)
        ensures
            agrees(r, EmailView::decode(v@)),
    {
        v.expect_tag("email")?;
        let text = v.text_field("text")?.clone();
        let meta = Meta::decode(v)?;
        Ok(Email { text, meta })
    }
}

impl Node for Email {
    open spec fn spec_node_type(&self) -> NodeType {
        NodeType::Leaf
    }

    fn node_type(&self) -> (t: NodeType) {
        NodeType::Leaf
    }
}

impl HasMeta for Email {
    open spec fn spec_meta(&self) -> Meta {
        self.meta
    }

    open spec fn with_meta(&self, meta: Meta) -> Email {
        Email { meta, ..*self }
    }

    fn meta(&self) -> (r: &Meta) {
        &self.meta
    }

    fn meta_mut(&mut self) -> (r: &mut Meta) {
        &mut self.meta
    }
}

impl Clone for Email {
    fn clone(&self) -> (r: Email)
        ensures
            r@ == self@,
    {
        let text = self.text.clone();
        let meta = self.meta.clone();
        Email { text, meta }
    }
}

/// A reference to a footnote, by its label.
#[derive(Debug, PartialEq, Eq)]
pub struct FootnoteReference {
    pub text: String,
    pub meta: Meta,
}

/// The mathematical value of a [`FootnoteReference`].
pub struct FootnoteReferenceView {
    pub text: Seq<char>,
    pub meta: MetaView,
}

impl View for FootnoteReference {
    type V = FootnoteReferenceView;

    open spec fn view(&self) -> FootnoteReferenceView
    {
        FootnoteReferenceView {
            text: self.text@,
            meta: self.meta@,
        }
    }
}

impl FootnoteReferenceView {
    /// The fields of the encoded node, before its metadata joins them.
    pub open spec fn fields(self) -> Map<Seq<char>, ValueView>
    {
        tagged("footnote_reference"@).insert(
            "text"@,
            ValueView::Text(self.text),
        )
    }

    /// The encoded node: its discriminator, its fields and its metadata.
    pub open spec fn encode(self) -> ValueView
    {
        ValueView::Object(self.meta.flatten(self.fields()))
    }

    /// The node that an encoded value holds, or why it holds none.
    pub open spec fn decode(v: ValueView) -> Result<FootnoteReferenceView, ErrorView>
    {
        match v.expect_tag("footnote_reference"@) {
            Err(e) => Err(e),
            Ok(_) => match v.text("text"@) {
                Err(e) => Err(e),
                Ok(text) => match MetaView::decode(v) {
                    Err(e) => Err(e),
                    Ok(meta) => Ok(FootnoteReferenceView { text, meta }),
                },
            },
        }
    }

    /// Decoding the encoded node gives the node back.
    pub proof fn lemma_roundtrip(self)
        ensures
            FootnoteReferenceView::decode(self.encode()) == Ok::<FootnoteReferenceView, ErrorView>(
                self,
            ),
    {
        lemma_names();
        let base = self.fields();
        lemma_flatten_keeps(self.meta, base, "tag"@);
        lemma_flatten_keeps(self.meta, base, "text"@);
        lemma_meta_roundtrip(self.meta, base);
    }
}

impl FootnoteReference {
    /// A node with the given content and no metadata.
    pub fn new(text: String) -> (r: FootnoteReference)
        ensures
            r.text == text,
            r.meta@ == MetaView::empty(),
    {
        FootnoteReference { text, meta: Meta::default() }
    }

    /// Encodes the node. No object of the result has two fields of one
    /// name.
    pub fn encode(&self) -> (v: Value)
        ensures
            v@ == self@.encode(),
            v.unambiguous(),
    {
        proof {
            lemma_names();
        }
        let mut fields = Value::tagged("footnote_reference");
        Value::put(&mut fields, "text", Value::Text(self.text.clone()));
        self.meta.flatten(&mut fields);
        Value::Object(fields)
    }

    /// Decodes a node of this kind. The value must be an object with the
    /// discriminator `footnote_reference` and each field of the node; the first thing
    /// found wrong is the failure.
    pub fn decode(v: &Value) -> (r: Result<FootnoteReference, Error>)
        ensures
            agrees(r, FootnoteReferenceView::decode(v@)),
    {
        v.expect_tag("footnote_reference")?;
        let text = v.text_field("text")?.clone();
        let meta = Meta::decode(v)?;
        Ok(FootnoteReference { text, meta })
    }
}

impl Node for FootnoteReference {
    open spec fn spec_node_type(&self) -> NodeType {
        NodeType::Leaf
    }

    fn node_type(&self) -> (t: NodeType) {
        NodeType::Leaf
    }
}

impl HasMeta for FootnoteReference {
    open spec fn spec_meta(&self) -> Meta {
        self.meta
    }

    open spec fn with_meta(&self, meta: Meta) -> FootnoteReference {
        FootnoteReference { meta, ..*self }
    }

    fn meta(&self) -> (r: &Meta) {
        &self.meta
    }

    fn meta_mut(&mut self) -> (r: &mut Meta) {
        &mut self.meta
    }
}

impl Clone for FootnoteReference {
    fn clone(&self) -> (r: FootnoteReference)
        ensures
            r@ == self@,
    {
        let text = self.text.clone();
        let meta = self.meta.clone();
        FootnoteReference { text, meta }
    }
}

/// A punctuation mark and the text it was written as.
#[derive(Debug, PartialEq, Eq)]
pub struct SmartPunctuation {
    pub punc_type: SmartPunctuationType,
    pub text: String,
    pub meta: Meta,
}

/// The mathematical value of a [`SmartPunctuation`].
pub struct SmartPunctuationView {
    pub punc_type: SmartPunctuationType,
    pub text: Seq<char>,
    pub meta: MetaView,
}

impl View for SmartPunctuation {
    type V = SmartPunctuationView;

    open spec fn view(&self) -> SmartPunctuationView
    {
        SmartPunctuationView {
            punc_type: self.punc_type,
            text: self.text@,
            meta: self.meta@,
        }
    }
}

impl SmartPunctuationView {
    /// The fields of the encoded node, before its metadata joins them.
    pub open spec fn fields(self) -> Map<Seq<char>, ValueView>
    {
        tagged("smart_punctuation"@).insert(
            "type"@,
            ValueView::Text(self.punc_type.text()),
        ).insert(
            "text"@,
            ValueView::Text(self.text),
        )
    }

    /// The encoded node: its discriminator, its fields and its metadata.
    pub open spec fn encode(self) -> ValueView
    {
        ValueView::Object(self.meta.flatten(self.fields()))
    }

    /// The node that an encoded value holds, or why it holds none.
    pub open spec fn decode(v: ValueView) -> Result<SmartPunctuationView, ErrorView>
    {
        match v.expect_tag("smart_punctuation"@) {
            Err(e) => Err(e),
            Ok(_) => match (match v.text("type"@) {
                Err(e) => Err(e),
                Ok(t) => SmartPunctuationType::parse(t),
            }) {
                Err(e) => Err(e),
                Ok(punc_type) => match v.text("text"@) {
                    Err(e) => Err(e),
                    Ok(text) => match MetaView::decode(v) {
                        Err(e) => Err(e),
                        Ok(meta) => Ok(SmartPunctuationView { punc_type, text, meta }),
                    },
                },
            },
        }
    }

    /// Decoding the encoded node gives the node back.
    pub proof fn lemma_roundtrip(self)
        ensures
            SmartPunctuationView::decode(self.encode()) == Ok::<SmartPunctuationView, ErrorView>(
                self,
            ),
    {
        lemma_names();
        let base = self.fields();
        lemma_flatten_keeps(self.meta, base, "tag"@);
        lemma_flatten_keeps(self.meta, base, "type"@);
        lemma_flatten_keeps(self.meta, base, "text"@);
        lemma_meta_roundtrip(self.meta, base);
        SmartPunctuationType::lemma_roundtrip(self.punc_type);
    }
}

impl SmartPunctuation {
    /// A node with the given content and no metadata.
    pub fn new(punc_type: SmartPunctuationType, text: String) -> (r: SmartPunctuation)
        ensures
            r.punc_type == punc_type,
            r.text == text,
            r.meta@ == MetaView::empty(),
    {
        SmartPunctuation { punc_type, text, meta: Meta::default() }
    }

    /// Encodes the node. No object of the result has two fields of one
    /// name.
    pub fn encode(&self) -> (v: Value)
        ensures
            v@ == self@.encode(),
            v.unambiguous(),
    {
        proof {
            lemma_names();
        }
        let mut fields = Value::tagged("smart_punctuation");
        Value::put(&mut fields, "type", Value::text(self.punc_type.as_str()));
        Value::put(&mut fields, "text", Value::Text(self.text.clone()));
        self.meta.flatten(&mut fields);
        Value::Object(fields)
    }

    /// Decodes a node of this kind. The value must be an object with the
    /// discriminator `smart_punctuation` and each field of the node; the first thing
    /// found wrong is the failure.
    pub fn decode(v: &Value) -> (r: Result<SmartPunctuation, Error>)
        ensures
            agrees(r, SmartPunctuationView::decode(v@)),
    {
        v.expect_tag("smart_punctuation")?;
        let punc_type = SmartPunctuationType::from_text(v.text_field("type")?.as_str())?;
        let text = v.text_field("text")?.clone();
        let meta = Meta::decode(v)?;
        Ok(SmartPunctuation { punc_type, text, meta })
    }
}

impl Node for SmartPunctuation {
    open spec fn spec_node_type(&self) -> NodeType {
        NodeType::Leaf
    }

    fn node_type(&self) -> (t: NodeType) {
        NodeType::Leaf
    }
}

impl HasMeta for SmartPunctuation {
    open spec fn spec_meta(&self) -> Meta {
        self.meta
    }

    open spec fn with_meta(&self, meta: Meta) -> SmartPunctuation {
        SmartPunctuation { meta, ..*self }
    }

    fn meta(&self) -> (r: &Meta) {
        &self.meta
    }

    fn meta_mut(&mut self) -> (r: &mut Meta) {
        &mut self.meta
    }
}

impl Clone for SmartPunctuation {
    fn clone(&self) -> (r: SmartPunctuation)
        ensures
            r@ == self@,
    {
        let punc_type = self.punc_type;
        let text = self.text.clone();
        let meta = self.meta.clone();
        SmartPunctuation { punc_type, text, meta }
    }
}

/// Emphasised content.
#[derive(Debug, PartialEq, Eq)]
pub struct Emph {
    pub children: Vec<Inline>,
    pub meta: Meta,
}

/// The mathematical value of an [`Emph`].
pub struct EmphView {
    pub children: Seq<InlineView>,
    pub meta: MetaView,
}

impl View for Emph {
    type V = EmphView;

    open spec fn view(&self) -> EmphView
        decreases self,
    {
        EmphView {
            children: Inline::views(self.children@),
            meta: self.meta@,
        }
    }
}

impl EmphView {
    /// The fields of the encoded node, before its metadata joins them.
    pub open spec fn fields(self) -> Map<Seq<char>, ValueView>
        decreases self, 0int,
    {
        tagged("emph"@).insert(
            "children"@,
            ValueView::Array(InlineView::encode_all(self.children)),
        )
    }

    /// The encoded node: its discriminator, its fields and its metadata.
    pub open spec fn encode(self) -> ValueView
        decreases self, 1int,
    {
        ValueView::Object(self.meta.flatten(self.fields()))
    }

    /// The node that an encoded value holds, or why it holds none.
    pub open spec fn decode(v: ValueView) -> Result<EmphView, ErrorView>
        decreases v, 0int,
    {
        match v.expect_tag("emph"@) {
            Err(e) => Err(e),
            Ok(_) => match (match v.array("children"@) {
                Err(e) => Err(e),
                Ok(items) => InlineView::decode_all(items),
            }) {
                Err(e) => Err(e),
                Ok(children) => match MetaView::decode(v) {
                    Err(e) => Err(e),
                    Ok(meta) => Ok(EmphView { children, meta }),
                },
            },
        }
    }

    /// Decoding the encoded node gives the node back.
    pub proof fn lemma_roundtrip(self)
        ensures
            EmphView::decode(self.encode()) == Ok::<EmphView, ErrorView>(self),
        decreases self,
    {
        lemma_names();
        let base = self.fields();
        lemma_flatten_keeps(self.meta, base, "tag"@);
        lemma_flatten_keeps(self.meta, base, "children"@);
        lemma_meta_roundtrip(self.meta, base);
        InlineView::lemma_roundtrip_all(self.children);
    }
}

impl Emph {
    /// A node with the given content and no metadata.
    pub fn new(children: Vec<Inline>) -> (r: Emph)
        ensures
            r.children == children,
            r.meta@ == MetaView::empty(),
    {
        Emph { children, meta: Meta::default() }
    }

    /// Encodes the node. No object of the result has two fields of one
    /// name.
    pub fn encode(&self) -> (v: Value)
        ensures
            v@ == self@.encode(),
            v.unambiguous(),
        decreases self,
    {
        proof {
            lemma_names();
        }
        let mut fields = Value::tagged("emph");
        Value::put(&mut fields, "children", Value::Array(Inline::encode_all(&self.children)));
        self.meta.flatten(&mut fields);
        Value::Object(fields)
    }

    /// Decodes a node of this kind. The value must be an object with the
    /// discriminator `emph` and each field of the node; the first thing
    /// found wrong is the failure.
    pub fn decode(v: &Value) -> (r: Result<Emph, Error>)
        ensures
            agrees(r, EmphView::decode(v@)),
        decreases v@, 0int,
    {
        v.expect_tag("emph")?;
        let children = Inline::decode_all(v.array_field("children")?)?;
        let meta = Meta::decode(v)?;
        Ok(Emph { children, meta })
    }
}

impl Node for Emph {
    open spec fn spec_node_type(&self) -> NodeType {
        NodeType::Branch(self.children@.len() as usize)
    }

    fn node_type(&self) -> (t: NodeType) {
        NodeType::Branch(self.children.len())
    }
}

impl HasMeta for Emph {
    open spec fn spec_meta(&self) -> Meta {
        self.meta
    }

    open spec fn with_meta(&self, meta: Meta) -> Emph {
        Emph { meta, ..*self }
    }

    fn meta(&self) -> (r: &Meta) {
        &self.meta
    }

    fn meta_mut(&mut self) -> (r: &mut Meta) {
        &mut self.meta
    }
}

impl Clone for Emph {
    fn clone(&self) -> (r: Emph)
        ensures
            r@ == self@,
        decreases self,
    {
        let children = Inline::clone_all(&self.children);
        let meta = self.meta.clone();
        Emph { children, meta }
    }
}

/// Strongly emphasised content.
#[derive(Debug, PartialEq, Eq)]
pub struct Strong {
    pub children: Vec<Inline>,
    pub meta: Meta,
}

/// The mathematical value of a [`Strong`].
pub struct StrongView {
    pub children: Seq<InlineView>,
    pub meta: MetaView,
}

impl View for Strong {
    type V = StrongView;

    open spec fn view(&self) -> StrongView
        decreases self,
    {
        StrongView {
            children: Inline::views(self.children@),
            meta: self.meta@,
        }
    }
}

impl StrongView {
    /// The fields of the encoded node, before its metadata joins them.
    pub open spec fn fields(self) -> Map<Seq<char>, ValueView>
        decreases self, 0int,
    {
        tagged("strong"@).insert(
            "children"@,
            ValueView::Array(InlineView::encode_all(self.children)),
        )
    }

    /// The encoded node: its discriminator, its fields and its metadata.
    pub open spec fn encode(self) -> ValueView
        decreases self, 1int,
    {
        ValueView::Object(self.meta.flatten(self.fields()))
    }

    /// The node that an encoded value holds, or why it holds none.
    pub open spec fn decode(v: ValueView) -> Result<StrongView, ErrorView>
        decreases v, 0int,
    {
        match v.expect_tag("strong"@) {
            Err(e) => Err(e),
            Ok(_) => match (match v.array("children"@) {
                Err(e) => Err(e),
                Ok(items) => InlineView::decode_all(items),
            }) {
                Err(e) => Err(e),
                Ok(children) => match MetaView::decode(v) {
                    Err(e) => Err(e),
                    Ok(meta) => Ok(StrongView { children, meta }),
                },
            },
        }
    }

    /// Decoding the encoded node gives the node back.
    pub proof fn lemma_roundtrip(self)
        ensures
            StrongView::decode(self.encode()) == Ok::<StrongView, ErrorView>(self),
        decreases self,
    {
        lemma_names();
        let base = self.fields();
        lemma_flatten_keeps(self.meta, base, "tag"@);
        lemma_flatten_keeps(self.meta, base, "children"@);
        lemma_meta_roundtrip(self.meta, base);
        InlineView::lemma_roundtrip_all(self.children);
    }
}

impl Strong {
    /// A node with the given content and no metadata.
    pub fn new(children: Vec<Inline>) -> (r: Strong)
        ensures
            r.children == children,
            r.meta@ == MetaView::empty(),
    {
        Strong { children, meta: Meta::default() }
    }

    /// Encodes the node. No object of the result has two fields of one
    /// name.
    pub fn encode(&self) -> (v: Value)
        ensures
            v@ == self@.encode(),
            v.unambiguous(),
        decreases self,
    {
        proof {
            lemma_names();
        }
        let mut fields = Value::tagged("strong");
        Value::put(&mut fields, "children", Value::Array(Inline::encode_all(&self.children)));
        self.meta.flatten(&mut fields);
        Value::Object(fields)
    }

    /// Decodes a node of this kind. The value must be an object with the
    /// discriminator `strong` and each field of the node; the first thing
    /// found wrong is the failure.
    pub fn decode(v: &Value) -> (r: Result<Strong, Error>)
        ensures
            agrees(r, StrongView::decode(v@)),
        decreases v@, 0int,
    {
        v.expect_tag("strong")?;
        let children = Inline::decode_all(v.array_field("children")?)?;
        let meta = Meta::decode(v)?;
        Ok(Strong { children, meta })
    }
}

impl Node for Strong {
    open spec fn spec_node_type(&self) -> NodeType {
        NodeType::Branch(self.children@.len() as usize)
    }

    fn node_type(&self) -> (t: NodeType) {
        NodeType::Branch(self.children.len())
    }
}

impl HasMeta for Strong {
    open spec fn spec_meta(&self) -> Meta {
        self.meta
    }

    open spec fn with_meta(&self, meta: Meta) -> Strong {
        Strong { meta, ..*self }
    }

    fn meta(&self) -> (r: &Meta) {
        &self.meta
    }

    fn meta_mut(&mut self) -> (r: &mut Meta) {
        &mut self.meta
    }
}

impl Clone for Strong {
    fn clone(&self) -> (r: Strong)
        ensures
            r@ == self@,
        decreases self,
    {
        let children = Inline::clone_all(&self.children);
        let meta = self.meta.clone();
        Strong { children, meta }
    }
}

/// A link, by destination or by reference label.
#[derive(Debug, PartialEq, Eq)]
pub struct Link {
    pub destination: Option<String>,
    pub reference: Option<String>,
    pub children: Vec<Inline>,
    pub meta: Meta,
}

/// The mathematical value of a [`Link`].
pub struct LinkView {
    pub destination: Option<Seq<char>>,
    pub reference: Option<Seq<char>>,
    pub children: Seq<InlineView>,
    pub meta: MetaView,
}

impl View for Link {
    type V = LinkView;

    open spec fn view(&self) -> LinkView
        decreases self,
    {
        LinkView {
            destination: text_view(self.destination),
            reference: text_view(self.reference),
            children: Inline::views(self.children@),
            meta: self.meta@,
        }
    }
}

impl LinkView {
    /// The fields of the encoded node, before its metadata joins them.
    pub open spec fn fields(self) -> Map<Seq<char>, ValueView>
        decreases self, 0int,
    {
        tagged("link"@).insert(
            "destination"@,
            text_or_null(self.destination),
        ).insert(
            "reference"@,
            text_or_null(self.reference),
        ).insert(
            "children"@,
            ValueView::Array(InlineView::encode_all(self.children)),
        )
    }

    /// The encoded node: its discriminator, its fields and its metadata.
    pub open spec fn encode(self) -> ValueView
        decreases self, 1int,
    {
        ValueView::Object(self.meta.flatten(self.fields()))
    }

    /// The node that an encoded value holds, or why it holds none.
    pub open spec fn decode(v: ValueView) -> Result<LinkView, ErrorView>
        decreases v, 0int,
    {
        match v.expect_tag("link"@) {
            Err(e) => Err(e),
            Ok(_) => match v.optional_text("destination"@) {
                Err(e) => Err(e),
                Ok(destination) => match v.optional_text("reference"@) {
                    Err(e) => Err(e),
                    Ok(reference) => match (match v.array("children"@) {
                        Err(e) => Err(e),
                        Ok(items) => InlineView::decode_all(items),
                    }) {
                        Err(e) => Err(e),
                        Ok(children) => match MetaView::decode(v) {
                            Err(e) => Err(e),
                            Ok(meta) => Ok(LinkView { destination, reference, children, meta }),
                        },
                    },
                },
            },
        }
    }

    /// Decoding the encoded node gives the node back.
    pub proof fn lemma_roundtrip(self)
        ensures
            LinkView::decode(self.encode()) == Ok::<LinkView, ErrorView>(self),
        decreases self,
    {
        lemma_names();
        let base = self.fields();
        lemma_flatten_keeps(self.meta, base, "tag"@);
        lemma_flatten_keeps(self.meta, base, "destination"@);
        lemma_flatten_keeps(self.meta, base, "reference"@);
        lemma_flatten_keeps(self.meta, base, "children"@);
        lemma_meta_roundtrip(self.meta, base);
        InlineView::lemma_roundtrip_all(self.children);
    }
}

impl Link {
    /// A node with the given content and no metadata.
    pub fn new(
        destination: Option<String>,
        reference: Option<String>,
        children: Vec<Inline>,
    ) -> (r: Link)
        ensures
            r.destination == destination,
            r.reference == reference,
            r.children == children,
            r.meta@ == MetaView::empty(),
    {
        Link { destination, reference, children, meta: Meta::default() }
    }

    /// Encodes the node. No object of the result has two fields of one
    /// name.
    pub fn encode(&self) -> (v: Value)
        ensures
            v@ == self@.encode(),
            v.unambiguous(),
        decreases self,
    {
        proof {
            lemma_names();
        }
        let mut fields = Value::tagged("link");
        Value::put(&mut fields, "destination", Value::text_or_null(&self.destination));
        Value::put(&mut fields, "reference", Value::text_or_null(&self.reference));
        Value::put(&mut fields, "children", Value::Array(Inline::encode_all(&self.children)));
        self.meta.flatten(&mut fields);
        Value::Object(fields)
    }

    /// Decodes a node of this kind. The value must be an object with the
    /// discriminator `link` and each field of the node; the first thing
    /// found wrong is the failure.
    pub fn decode(v: &Value) -> (r: Result<Link, Error>)
        ensures
            agrees(r, LinkView::decode(v@)),
        decreases v@, 0int,
    {
        v.expect_tag("link")?;
        let destination = v.optional_text_field("destination")?;
        let reference = v.optional_text_field("reference")?;
        let children = Inline::decode_all(v.array_field("children")?)?;
        let meta = Meta::decode(v)?;
        Ok(Link { destination, reference, children, meta })
    }
}

impl Node for Link {
    open spec fn spec_node_type(&self) -> NodeType {
        NodeType::Branch(self.children@.len() as usize)
    }

    fn node_type(&self) -> (t: NodeType) {
        NodeType::Branch(self.children.len())
    }
}

impl HasMeta for Link {
    open spec fn spec_meta(&self) -> Meta {
        self.meta
    }

    open spec fn with_meta(&self, meta: Meta) -> Link {
        Link { meta, ..*self }
    }

    fn meta(&self) -> (r: &Meta) {
        &self.meta
    }

    fn meta_mut(&mut self) -> (r: &mut Meta) {
        &mut self.meta
    }
}

impl Clone for Link {
    fn clone(&self) -> (r: Link)
        ensures
            r@ == self@,
        decreases self,
    {
        let destination = self.destination.clone();
        let reference = self.reference.clone();
        let children = Inline::clone_all(&self.children);
        let meta = self.meta.clone();
        Link { destination, reference, children, meta }
    }
}

/// An image, by destination or by reference label.
#[derive(Debug, PartialEq, Eq)]
pub struct Image {
    pub destination: Option<String>,
    pub reference: Option<String>,
    pub children: Vec<Inline>,
    pub meta: Meta,
}

/// The mathematical value of an [`Image`].
pub struct ImageView {
    pub destination: Option<Seq<char>>,
    pub reference: Option<Seq<char>>,
    pub children: Seq<InlineView>,
    pub meta: MetaView,
}

impl View for Image {
    type V = ImageView;

    open spec fn view(&self) -> ImageView
        decreases self,
    {
        ImageView {
            destination: text_view(self.destination),
            reference: text_view(self.reference),
            children: Inline::views(self.children@),
            meta: self.meta@,
        }
    }
}

impl ImageView {
    /// The fields of the encoded node, before its metadata joins them.
    pub open spec fn fields(self) -> Map<Seq<char>, ValueView>
        decreases self, 0int,
    {
        tagged("image"@).insert(
            "destination"@,
            text_or_null(self.destination),
        ).insert(
            "reference"@,
            text_or_null(self.reference),
        ).insert(
            "children"@,
            ValueView::Array(InlineView::encode_all(self.children)),
        )
    }

    /// The encoded node: its discriminator, its fields and its metadata.
    pub open spec fn encode(self) -> ValueView
        decreases self, 1int,
    {
        ValueView::Object(self.meta.flatten(self.fields()))
    }

    /// The node that an encoded value holds, or why it holds none.
    pub open spec fn decode(v: ValueView) -> Result<ImageView, ErrorView>
        decreases v, 0int,
    {
        match v.expect_tag("image"@) {
            Err(e) => Err(e),
            Ok(_) => match v.optional_text("destination"@) {
                Err(e) => Err(e),
                Ok(destination) => match v.optional_text("reference"@) {
                    Err(e) => Err(e),
                    Ok(reference) => match (match v.array("children"@) {
                        Err(e) => Err(e),
                        Ok(items) => InlineView::decode_all(items),
                    }) {
                        Err(e) => Err(e),
                        Ok(children) => match MetaView::decode(v) {
                            Err(e) => Err(e),
                            Ok(meta) => Ok(ImageView { destination, reference, children, meta }),
                        },
                    },
                },
            },
        }
    }

    /// Decoding the encoded node gives the node back.
    pub proof fn lemma_roundtrip(self)
        ensures
            ImageView::decode(self.encode()) == Ok::<ImageView, ErrorView>(self),
        decreases self,
    {
        lemma_names();
        let base = self.fields();
        lemma_flatten_keeps(self.meta, base, "tag"@);
        lemma_flatten_keeps(self.meta, base, "destination"@);
        lemma_flatten_keeps(self.meta, base, "reference"@);
        lemma_flatten_keeps(self.meta, base, "children"@);
        lemma_meta_roundtrip(self.meta, base);
        InlineView::lemma_roundtrip_all(self.children);
    }
}

impl Image {
    /// A node with the given content and no metadata.
    pub fn new(
        destination: Option<String>,
        reference: Option<String>,
        children: Vec<Inline>,
    ) -> (r: Image)
        ensures
            r.destination == destination,
            r.reference == reference,
            r.children == children,
            r.meta@ == MetaView::empty(),
    {
        Image { destination, reference, children, meta: Meta::default() }
    }

    /// Encodes the node. No object of the result has two fields of one
    /// name.
    pub fn encode(&self) -> (v: Value)
        ensures
            v@ == self@.encode(),
            v.unambiguous(),
        decreases self,
    {
        proof {
            lemma_names();
        }
        let mut fields = Value::tagged("image");
        Value::put(&mut fields, "destination", Value::text_or_null(&self.destination));
        Value::put(&mut fields, "reference", Value::text_or_null(&self.reference));
        Value::put(&mut fields, "children", Value::Array(Inline::encode_all(&self.children)));
        self.meta.flatten(&mut fields);
        Value::Object(fields)
    }

    /// Decodes a node of this kind. The value must be an object with the
    /// discriminator `image` and each field of the node; the first thing
    /// found wrong is the failure.
    pub fn decode(v: &Value) -> (r: Result<Image, Error>)
        ensures
            agrees(r, ImageView::decode(v@)),
        decreases v@, 0int,
    {
        v.expect_tag("image")?;
        let destination = v.optional_text_field("destination")?;
        let reference = v.optional_text_field("reference")?;
        let children = Inline::decode_all(v.array_field("children")?)?;
        let meta = Meta::decode(v)?;
        Ok(Image { destination, reference, children, meta })
    }
}

impl Node for Image {
    open spec fn spec_node_type(&self) -> NodeType {
        NodeType::Branch(self.children@.len() as usize)
    }

    fn node_type(&self) -> (t: NodeType) {
        NodeType::Branch(self.children.len())
    }
}

impl HasMeta for Image {
    open spec fn spec_meta(&self) -> Meta {
        self.meta
    }

    open spec fn with_meta(&self, meta: Meta) -> Image {
        Image { meta, ..*self }
    }

    fn meta(&self) -> (r: &Meta) {
        &self.meta
    }

    fn meta_mut(&mut self) -> (r: &mut Meta) {
        &mut self.meta
    }
}

impl Clone for Image {
    fn clone(&self) -> (r: Image)
        ensures
            r@ == self@,
        decreases self,
    {
        let destination = self.destination.clone();
        let reference = self.reference.clone();
        let children = Inline::clone_all(&self.children);
        let meta = self.meta.clone();
        Image { destination, reference, children, meta }
    }
}

/// Content that only carries attributes.
#[derive(Debug, PartialEq, Eq)]
pub struct Span {
    pub children: Vec<Inline>,
    pub meta: Meta,
}

/// The mathematical value of a [`Span`].
pub struct SpanView {
    pub children: Seq<InlineView>,
    pub meta: MetaView,
}

impl View for Span {
    type V = SpanView;

    open spec fn view(&self) -> SpanView
        decreases self,
    {
        SpanView {
            children: Inline::views(self.children@),
            meta: self.meta@,
        }
    }
}

impl SpanView {
    /// The fields of the encoded node, before its metadata joins them.
    pub open spec fn fields(self) -> Map<Seq<char>, ValueView>
        decreases self, 0int,
    {
        tagged("span"@).insert(
            "children"@,
            ValueView::Array(InlineView::encode_all(self.children)),
        )
    }

    /// The encoded node: its discriminator, its fields and its metadata.
    pub open spec fn encode(self) -> ValueView
        decreases self, 1int,
    {
        ValueView::Object(self.meta.flatten(self.fields()))
    }

    /// The node that an encoded value holds, or why it holds none.
    pub open spec fn decode(v: ValueView) -> Result<SpanView, ErrorView>
        decreases v, 0int,
    {
        match v.expect_tag("span"@) {
            Err(e) => Err(e),
            Ok(_) => match (match v.array("children"@) {
                Err(e) => Err(e),
                Ok(items) => InlineView::decode_all(items),
            }) {
                Err(e) => Err(e),
                Ok(children) => match MetaView::decode(v) {
                    Err(e) => Err(e),
                    Ok(meta) => Ok(SpanView { children, meta }),
                },
            },
        }
    }

    /// Decoding the encoded node gives the node back.
    pub proof fn lemma_roundtrip(self)
        ensures
            SpanView::decode(self.encode()) == Ok::<SpanView, ErrorView>(self),
        decreases self,
    {
        lemma_names();
        let base = self.fields();
        lemma_flatten_keeps(self.meta, base, "tag"@);
        lemma_flatten_keeps(self.meta, base, "children"@);
        lemma_meta_roundtrip(self.meta, base);
        InlineView::lemma_roundtrip_all(self.children);
    }
}

impl Span {
    /// A node with the given content and no metadata.
    pub fn new(children: Vec<Inline>) -> (r: Span)
        ensures
            r.children == children,
            r.meta@ == MetaView::empty(),
    {
        Span { children, meta: Meta::default() }
    }

    /// Encodes the node. No object of the result has two fields of one
    /// name.
    pub fn encode(&self) -> (v: Value)
        ensures
            v@ == self@.encode(),
            v.unambiguous(),
        decreases self,
    {
        proof {
            lemma_names();
        }
        let mut fields = Value::tagged("span");
        Value::put(&mut fields, "children", Value::Array(Inline::encode_all(&self.children)));
        self.meta.flatten(&mut fields);
        Value::Object(fields)
    }

    /// Decodes a node of this kind. The value must be an object with the
    /// discriminator `span` and each field of the node; the first thing
    /// found wrong is the failure.
    pub fn decode(v: &Value) -> (r: Result<Span, Error>)
        ensures
            agrees(r, SpanView::decode(v@)),
        decreases v@, 0int,
    {
        v.expect_tag("span")?;
        let children = Inline::decode_all(v.array_field("children")?)?;
        let meta = Meta::decode(v)?;
        Ok(Span { children, meta })
    }
}

impl Node for Span {
    open spec fn spec_node_type(&self) -> NodeType {
        NodeType::Branch(self.children@.len() as usize)
    }

    fn node_type(&self) -> (t: NodeType) {
        NodeType::Branch(self.children.len())
    }
}

impl HasMeta for Span {
    open spec fn spec_meta(&self) -> Meta {
        self.meta
    }

    open spec fn with_meta(&self, meta: Meta) -> Span {
        Span { meta, ..*self }
    }

    fn meta(&self) -> (r: &Meta) {
        &self.meta
    }

    fn meta_mut(&mut self) -> (r: &mut Meta) {
        &mut self.meta
    }
}

impl Clone for Span {
    fn clone(&self) -> (r: Span)
        ensures
            r@ == self@,
        decreases self,
    {
        let children = Inline::clone_all(&self.children);
        let meta = self.meta.clone();
        Span { children, meta }
    }
}

/// Highlighted content.
#[derive(Debug, PartialEq, Eq)]
pub struct Mark {
    pub children: Vec<Inline>,
    pub meta: Meta,
}

/// The mathematical value of a [`Mark`].
pub struct MarkView {
    pub children: Seq<InlineView>,
    pub meta: MetaView,
}

impl View for Mark {
    type V = MarkView;

    open spec fn view(&self) -> MarkView
        decreases self,
    {
        MarkView {
            children: Inline::views(self.children@),
            meta: self.meta@,
        }
    }
}

impl MarkView {
    /// The fields of the encoded node, before its metadata joins them.
    pub open spec fn fields(self) -> Map<Seq<char>, ValueView>
        decreases self, 0int,
    {
        tagged("mark"@).insert(
            "children"@,
            ValueView::Array(InlineView::encode_all(self.children)),
        )
    }

    /// The encoded node: its discriminator, its fields and its metadata.
    pub open spec fn encode(self) -> ValueView
        decreases self, 1int,
    {
        ValueView::Object(self.meta.flatten(self.fields()))
    }

    /// The node that an encoded value holds, or why it holds none.
    pub open spec fn decode(v: ValueView) -> Result<MarkView, ErrorView>
        decreases v, 0int,
    {
        match v.expect_tag("mark"@) {
            Err(e) => Err(e),
            Ok(_) => match (match v.array("children"@) {
                Err(e) => Err(e),
                Ok(items) => InlineView::decode_all(items),
            }) {
                Err(e) => Err(e),
                Ok(children) => match MetaView::decode(v) {
                    Err(e) => Err(e),
                    Ok(meta) => Ok(MarkView { children, meta }),
                },
            },
        }
    }

    /// Decoding the encoded node gives the node back.
    pub proof fn lemma_roundtrip(self)
        ensures
            MarkView::decode(self.encode()) == Ok::<MarkView, ErrorView>(self),
        decreases self,
    {
        lemma_names();
        let base = self.fields();
        lemma_flatten_keeps(self.meta, base, "tag"@);
        lemma_flatten_keeps(self.meta, base, "children"@);
        lemma_meta_roundtrip(self.meta, base);
        InlineView::lemma_roundtrip_all(self.children);
    }
}

impl Mark {
    /// A node with the given content and no metadata.
    pub fn new(children: Vec<Inline>) -> (r: Mark)
        ensures
            r.children == children,
            r.meta@ == MetaView::empty(),
    {
        Mark { children, meta: Meta::default() }
    }

    /// Encodes the node. No object of the result has two fields of one
    /// name.
    pub fn encode(&self) -> (v: Value)
        ensures
            v@ == self@.encode(),
            v.unambiguous(),
        decreases self,
    {
        proof {
            lemma_names();
        }
        let mut fields = Value::tagged("mark");
        Value::put(&mut fields, "children", Value::Array(Inline::encode_all(&self.children)));
        self.meta.flatten(&mut fields);
        Value::Object(fields)
    }

    /// Decodes a node of this kind. The value must be an object with the
    /// discriminator `mark` and each field of the node; the first thing
    /// found wrong is the failure.
    pub fn decode(v: &Value) -> (r: Result<Mark, Error>)
        ensures
            agrees(r, MarkView::decode(v@)),
        decreases v@, 0int,
    {
        v.expect_tag("mark")?;
        let children = Inline::decode_all(v.array_field("children")?)?;
        let meta = Meta::decode(v)?;
        Ok(Mark { children, meta })
    }
}

impl Node for Mark {
    open spec fn spec_node_type(&self) -> NodeType {
        NodeType::Branch(self.children@.len() as usize)
    }

    fn node_type(&self) -> (t: NodeType) {
        NodeType::Branch(self.children.len())
    }
}

impl HasMeta for Mark {
    open spec fn spec_meta(&self) -> Meta {
        self.meta
    }

    open spec fn with_meta(&self, meta: Meta) -> Mark {
        Mark { meta, ..*self }
    }

    fn meta(&self) -> (r: &Meta) {
        &self.meta
    }

    fn meta_mut(&mut self) -> (r: &mut Meta) {
        &mut self.meta
    }
}

impl Clone for Mark {
    fn clone(&self) -> (r: Mark)
        ensures
            r@ == self@,
        decreases self,
    {
        let children = Inline::clone_all(&self.children);
        let meta = self.meta.clone();
        Mark { children, meta }
    }
}

/// Raised content.
#[derive(Debug, PartialEq, Eq)]
pub struct Superscript {
    pub children: Vec<Inline>,
    pub meta: Meta,
}

/// The mathematical value of a [`Superscript`].
pub struct SuperscriptView {
    pub children: Seq<InlineView>,
    pub meta: MetaView,
}

impl View for Superscript {
    type V = SuperscriptView;

    open spec fn view(&self) -> SuperscriptView
        decreases self,
    {
        SuperscriptView {
            children: Inline::views(self.children@),
            meta: self.meta@,
        }
    }
}

impl SuperscriptView {
    /// The fields of the encoded node, before its metadata joins them.
    pub open spec fn fields(self) -> Map<Seq<char>, ValueView>
        decreases self, 0int,
    {
        tagged("superscript"@).insert(
            "children"@,
            ValueView::Array(InlineView::encode_all(self.children)),
        )
    }

    /// The encoded node: its discriminator, its fields and its metadata.
    pub open spec fn encode(self) -> ValueView
        decreases self, 1int,
    {
        ValueView::Object(self.meta.flatten(self.fields()))
    }

    /// The node that an encoded value holds, or why it holds none.
    pub open spec fn decode(v: ValueView) -> Result<SuperscriptView, ErrorView>
        decreases v, 0int,
    {
        match v.expect_tag("superscript"@) {
            Err(e) => Err(e),
            Ok(_) => match (match v.array("children"@) {
                Err(e) => Err(e),
                Ok(items) => InlineView::decode_all(items),
            }) {
                Err(e) => Err(e),
                Ok(children) => match MetaView::decode(v) {
                    Err(e) => Err(e),
                    Ok(meta) => Ok(SuperscriptView { children, meta }),
                },
            },
        }
    }

    /// Decoding the encoded node gives the node back.
    pub proof fn lemma_roundtrip(self)
        ensures
            SuperscriptView::decode(self.encode()) == Ok::<SuperscriptView, ErrorView>(self),
        decreases self,
    {
        lemma_names();
        let base = self.fields();
        lemma_flatten_keeps(self.meta, base, "tag"@);
        lemma_flatten_keeps(self.meta, base, "children"@);
        lemma_meta_roundtrip(self.meta, base);
        InlineView::lemma_roundtrip_all(self.children);
    }
}

impl Superscript {
    /// A node with the given content and no metadata.
    pub fn new(children: Vec<Inline>) -> (r: Superscript)
        ensures
            r.children == children,
            r.meta@ == MetaView::empty(),
    {
        Superscript { children, meta: Meta::default() }
    }

    /// Encodes the node. No object of the result has two fields of one
    /// name.
    pub fn encode(&self) -> (v: Value)
        ensures
            v@ == self@.encode(),
            v.unambiguous(),
        decreases self,
    {
        proof {
            lemma_names();
        }
        let mut fields = Value::tagged("superscript");
        Value::put(&mut fields, "children", Value::Array(Inline::encode_all(&self.children)));
        self.meta.flatten(&mut fields);
        Value::Object(fields)
    }

    /// Decodes a node of this kind. The value must be an object with the
    /// discriminator `superscript` and each field of the node; the first thing
    /// found wrong is the failure.
    pub fn decode(v: &Value) -> (r: Result<Superscript, Error>)
        ensures
            agrees(r, SuperscriptView::decode(v@)),
        decreases v@, 0int,
    {
        v.expect_tag("superscript")?;
        let children = Inline::decode_all(v.array_field("children")?)?;
        let meta = Meta::decode(v)?;
        Ok(Superscript { children, meta })
    }
}

impl Node for Superscript {
    open spec fn spec_node_type(&self) -> NodeType {
        NodeType::Branch(self.children@.len() as usize)
    }

    fn node_type(&self) -> (t: NodeType) {
        NodeType::Branch(self.children.len())
    }
}

impl HasMeta for Superscript {
    open spec fn spec_meta(&self) -> Meta {
        self.meta
    }

    open spec fn with_meta(&self, meta: Meta) -> Superscript {
        Superscript { meta, ..*self }
    }

    fn meta(&self) -> (r: &Meta) {
        &self.meta
    }

    fn meta_mut(&mut self) -> (r: &mut Meta) {
        &mut self.meta
    }
}

impl Clone for Superscript {
    fn clone(&self) -> (r: Superscript)
        ensures
            r@ == self@,
        decreases self,
    {
        let children = Inline::clone_all(&self.children);
        let meta = self.meta.clone();
        Superscript { children, meta }
    }
}

/// Lowered content.
#[derive(Debug, PartialEq, Eq)]
pub struct Subscript {
    pub children: Vec<Inline>,
    pub meta: Meta,
}

/// The mathematical value of a [`Subscript`].
pub struct SubscriptView {
    pub children: Seq<InlineView>,
    pub meta: MetaView,
}

impl View for Subscript {
    type V = SubscriptView;

    open spec fn view(&self) -> SubscriptView
        decreases self,
    {
        SubscriptView {
            children: Inline::views(self.children@),
            meta: self.meta@,
        }
    }
}

impl SubscriptView {
    /// The fields of the encoded node, before its metadata joins them.
    pub open spec fn fields(self) -> Map<Seq<char>, ValueView>
        decreases self, 0int,
    {
        tagged("subscript"@).insert(
            "children"@,
            ValueView::Array(InlineView::encode_all(self.children)),
        )
    }

    /// The encoded node: its discriminator, its fields and its metadata.
    pub open spec fn encode(self) -> ValueView
        decreases self, 1int,
    {
        ValueView::Object(self.meta.flatten(self.fields()))
    }

    /// The node that an encoded value holds, or why it holds none.
    pub open spec fn decode(v: ValueView) -> Result<SubscriptView, ErrorView>
        decreases v, 0int,
    {
        match v.expect_tag("subscript"@) {
            Err(e) => Err(e),
            Ok(_) => match (match v.array("children"@) {
                Err(e) => Err(e),
                Ok(items) => InlineView::decode_all(items),
            }) {
                Err(e) => Err(e),
                Ok(children) => match MetaView::decode(v) {
                    Err(e) => Err(e),
                    Ok(meta) => Ok(SubscriptView { children, meta }),
                },
            },
        }
    }

    /// Decoding the encoded node gives the node back.
    pub proof fn lemma_roundtrip(self)
        ensures
            SubscriptView::decode(self.encode()) == Ok::<SubscriptView, ErrorView>(self),
        decreases self,
    {
        lemma_names();
        let base = self.fields();
        lemma_flatten_keeps(self.meta, base, "tag"@);
        lemma_flatten_keeps(self.meta, base, "children"@);
        lemma_meta_roundtrip(self.meta, base);
        InlineView::lemma_roundtrip_all(self.children);
    }
}

impl Subscript {
    /// A node with the given content and no metadata.
    pub fn new(children: Vec<Inline>) -> (r: Subscript)
        ensures
            r.children == children,
            r.meta@ == MetaView::empty(),
    {
        Subscript { children, meta: Meta::default() }
    }

    /// Encodes the node. No object of the result has two fields of one
    /// name.
    pub fn encode(&self) -> (v: Value)
        ensures
            v@ == self@.encode(),
            v.unambiguous(),
        decreases self,
    {
        proof {
            lemma_names();
        }
        let mut fields = Value::tagged("subscript");
        Value::put(&mut fields, "children", Value::Array(Inline::encode_all(&self.children)));
        self.meta.flatten(&mut fields);
        Value::Object(fields)
    }

    /// Decodes a node of this kind. The value must be an object with the
    /// discriminator `subscript` and each field of the node; the first thing
    /// found wrong is the failure.
    pub fn decode(v: &Value) -> (r: Result<Subscript, Error>)
        ensures
            agrees(r, SubscriptView::decode(v@)),
        decreases v@, 0int,
    {
        v.expect_tag("subscript")?;
        let children = Inline::decode_all(v.array_field("children")?)?;
        let meta = Meta::decode(v)?;
        Ok(Subscript { children, meta })
    }
}

impl Node for Subscript {
    open spec fn spec_node_type(&self) -> NodeType {
        NodeType::Branch(self.children@.len() as usize)
    }

    fn node_type(&self) -> (t: NodeType) {
        NodeType::Branch(self.children.len())
    }
}

impl HasMeta for Subscript {
    open spec fn spec_meta(&self) -> Meta {
        self.meta
    }

    open spec fn with_meta(&self, meta: Meta) -> Subscript {
        Subscript { meta, ..*self }
    }

    fn meta(&self) -> (r: &Meta) {
        &self.meta
    }

    fn meta_mut(&mut self) -> (r: &mut Meta) {
        &mut self.meta
    }
}

impl Clone for Subscript {
    fn clone(&self) -> (r: Subscript)
        ensures
            r@ == self@,
        decreases self,
    {
        let children = Inline::clone_all(&self.children);
        let meta = self.meta.clone();
        Subscript { children, meta }
    }
}

/// Content marked as inserted.
#[derive(Debug, PartialEq, Eq)]
pub struct Insert {
    pub children: Vec<Inline>,
    pub meta: Meta,
}

/// The mathematical value of an [`Insert`].
pub struct InsertView {
    pub children: Seq<InlineView>,
    pub meta: MetaView,
}

impl View for Insert {
    type V = InsertView;

    open spec fn view(&self) -> InsertView
        decreases self,
    {
        InsertView {
            children: Inline::views(self.children@),
            meta: self.meta@,
        }
    }
}

impl InsertView {
    /// The fields of the encoded node, before its metadata joins them.
    pub open spec fn fields(self) -> Map<Seq<char>, ValueView>
        decreases self, 0int,
    {
        tagged("insert"@).insert(
            "children"@,
            ValueView::Array(InlineView::encode_all(self.children)),
        )
    }

    /// The encoded node: its discriminator, its fields and its metadata.
    pub open spec fn encode(self) -> ValueView
        decreases self, 1int,
    {
        ValueView::Object(self.meta.flatten(self.fields()))
    }

    /// The node that an encoded value holds, or why it holds none.
    pub open spec fn decode(v: ValueView) -> Result<InsertView, ErrorView>
        decreases v, 0int,
    {
        match v.expect_tag("insert"@) {
            Err(e) => Err(e),
            Ok(_) => match (match v.array("children"@) {
                Err(e) => Err(e),
                Ok(items) => InlineView::decode_all(items),
            }) {
                Err(e) => Err(e),
                Ok(children) => match MetaView::decode(v) {
                    Err(e) => Err(e),
                    Ok(meta) => Ok(InsertView { children, meta }),
                },
            },
        }
    }

    /// Decoding the encoded node gives the node back.
    pub proof fn lemma_roundtrip(self)
        ensures
            InsertView::decode(self.encode()) == Ok::<InsertView, ErrorView>(self),
        decreases self,
    {
        lemma_names();
        let base = self.fields();
        lemma_flatten_keeps(self.meta, base, "tag"@);
        lemma_flatten_keeps(self.meta, base, "children"@);
        lemma_meta_roundtrip(self.meta, base);
        InlineView::lemma_roundtrip_all(self.children);
    }
}

impl Insert {
    /// A node with the given content and no metadata.
    pub fn new(children: Vec<Inline>) -> (r: Insert)
        ensures
            r.children == children,
            r.meta@ == MetaView::empty(),
    {
        Insert { children, meta: Meta::default() }
    }

    /// Encodes the node. No object of the result has two fields of one
    /// name.
    pub fn encode(&self) -> (v: Value)
        ensures
            v@ == self@.encode(),
            v.unambiguous(),
        decreases self,
    {
        proof {
            lemma_names();
        }
        let mut fields = Value::tagged("insert");
        Value::put(&mut fields, "children", Value::Array(Inline::encode_all(&self.children)));
        self.meta.flatten(&mut fields);
        Value::Object(fields)
    }

    /// Decodes a node of this kind. The value must be an object with the
    /// discriminator `insert` and each field of the node; the first thing
    /// found wrong is the failure.
    pub fn decode(v: &Value) -> (r: Result<Insert, Error>)
        ensures
            agrees(r, InsertView::decode(v@)),
        decreases v@, 0int,
    {
        v.expect_tag("insert")?;
        let children = Inline::decode_all(v.array_field("children")?)?;
        let meta = Meta::decode(v)?;
        Ok(Insert { children, meta })
    }
}

impl Node for Insert {
    open spec fn spec_node_type(&self) -> NodeType {
        NodeType::Branch(self.children@.len() as usize)
    }

    fn node_type(&self) -> (t: NodeType) {
        NodeType::Branch(self.children.len())
    }
}

impl HasMeta for Insert {
    open spec fn spec_meta(&self) -> Meta {
        self.meta
    }

    open spec fn with_meta(&self, meta: Meta) -> Insert {
        Insert { meta, ..*self }
    }

    fn meta(&self) -> (r: &Meta) {
        &self.meta
    }

    fn meta_mut(&mut self) -> (r: &mut Meta) {
        &mut self.meta
    }
}

impl Clone for Insert {
    fn clone(&self) -> (r: Insert)
        ensures
            r@ == self@,
        decreases self,
    {
        let children = Inline::clone_all(&self.children);
        let meta = self.meta.clone();
        Insert { children, meta }
    }
}

/// Content marked as deleted.
#[derive(Debug, PartialEq, Eq)]
pub struct Delete {
    pub children: Vec<Inline>,
    pub meta: Meta,
}

/// The mathematical value of a [`Delete`].
pub struct DeleteView {
    pub children: Seq<InlineView>,
    pub meta: MetaView,
}

impl View for Delete {
    type V = DeleteView;

    open spec fn view(&self) -> DeleteView
        decreases self,
    {
        DeleteView {
            children: Inline::views(self.children@),
            meta: self.meta@,
        }
    }
}

impl DeleteView {
    /// The fields of the encoded node, before its metadata joins them.
    pub open spec fn fields(self) -> Map<Seq<char>, ValueView>
        decreases self, 0int,
    {
        tagged("delete"@).insert(
            "children"@,
            ValueView::Array(InlineView::encode_all(self.children)),
        )
    }

    /// The encoded node: its discriminator, its fields and its metadata.
    pub open spec fn encode(self) -> ValueView
        decreases self, 1int,
    {
        ValueView::Object(self.meta.flatten(self.fields()))
    }

    /// The node that an encoded value holds, or why it holds none.
    pub open spec fn decode(v: ValueView) -> Result<DeleteView, ErrorView>
        decreases v, 0int,
    {
        match v.expect_tag("delete"@) {
            Err(e) => Err(e),
            Ok(_) => match (match v.array("children"@) {
                Err(e) => Err(e),
                Ok(items) => InlineView::decode_all(items),
            }) {
                Err(e) => Err(e),
                Ok(children) => match MetaView::decode(v) {
                    Err(e) => Err(e),
                    Ok(meta) => Ok(DeleteView { children, meta }),
                },
            },
        }
    }

    /// Decoding the encoded node gives the node back.
    pub proof fn lemma_roundtrip(self)
        ensures
            DeleteView::decode(self.encode()) == Ok::<DeleteView, ErrorView>(self),
        decreases self,
    {
        lemma_names();
        let base = self.fields();
        lemma_flatten_keeps(self.meta, base, "tag"@);
        lemma_flatten_keeps(self.meta, base, "children"@);
        lemma_meta_roundtrip(self.meta, base);
        InlineView::lemma_roundtrip_all(self.children);
    }
}

impl Delete {
    /// A node with the given content and no metadata.
    pub fn new(children: Vec<Inline>) -> (r: Delete)
        ensures
            r.children == children,
            r.meta@ == MetaView::empty(),
    {
        Delete { children, meta: Meta::default() }
    }

    /// Encodes the node. No object of the result has two fields of one
    /// name.
    pub fn encode(&self) -> (v: Value)
        ensures
            v@ == self@.encode(),
            v.unambiguous(),
        decreases self,
    {
        proof {
            lemma_names();
        }
        let mut fields = Value::tagged("delete");
        Value::put(&mut fields, "children", Value::Array(Inline::encode_all(&self.children)));
        self.meta.flatten(&mut fields);
        Value::Object(fields)
    }

    /// Decodes a node of this kind. The value must be an object with the
    /// discriminator `delete` and each field of the node; the first thing
    /// found wrong is the failure.
    pub fn decode(v: &Value) -> (r: Result<Delete, Error>)
        ensures
            agrees(r, DeleteView::decode(v@)),
        decreases v@, 0int,
    {
        v.expect_tag("delete")?;
        let children = Inline::decode_all(v.array_field("children")?)?;
        let meta = Meta::decode(v)?;
        Ok(Delete { children, meta })
    }
}

impl Node for Delete {
    open spec fn spec_node_type(&self) -> NodeType {
        NodeType::Branch(self.children@.len() as usize)
    }

    fn node_type(&self) -> (t: NodeType) {
        NodeType::Branch(self.children.len())
    }
}

impl HasMeta for Delete {
    open spec fn spec_meta(&self) -> Meta {
        self.meta
    }

    open spec fn with_meta(&self, meta: Meta) -> Delete {
        Delete { meta, ..*self }
    }

    fn meta(&self) -> (r: &Meta) {
        &self.meta
    }

    fn meta_mut(&mut self) -> (r: &mut Meta) {
        &mut self.meta
    }
}

impl Clone for Delete {
    fn clone(&self) -> (r: Delete)
        ensures
            r@ == self@,
        decreases self,
    {
        let children = Inline::clone_all(&self.children);
        let meta = self.meta.clone();
        Delete { children, meta }
    }
}

/// Content in double quotes.
#[derive(Debug, PartialEq, Eq)]
pub struct DoubleQuoted {
    pub children: Vec<Inline>,
    pub meta: Meta,
}

/// The mathematical value of a [`DoubleQuoted`].
pub struct DoubleQuotedView {
    pub children: Seq<InlineView>,
    pub meta: MetaView,
}

impl View for DoubleQuoted {
    type V = DoubleQuotedView;

    open spec fn view(&self) -> DoubleQuotedView
        decreases self,
    {
        DoubleQuotedView {
            children: Inline::views(self.children@),
            meta: self.meta@,
        }
    }
}

impl DoubleQuotedView {
    /// The fields of the encoded node, before its metadata joins them.
    pub open spec fn fields(self) -> Map<Seq<char>, ValueView>
        decreases self, 0int,
    {
        tagged("double_quoted"@).insert(
            "children"@,
            ValueView::Array(InlineView::encode_all(self.children)),
        )
    }

    /// The encoded node: its discriminator, its fields and its metadata.
    pub open spec fn encode(self) -> ValueView
        decreases self, 1int,
    {
        ValueView::Object(self.meta.flatten(self.fields()))
    }

    /// The node that an encoded value holds, or why it holds none.
    pub open spec fn decode(v: ValueView) -> Result<DoubleQuotedView, ErrorView>
        decreases v, 0int,
    {
        match v.expect_tag("double_quoted"@) {
            Err(e) => Err(e),
            Ok(_) => match (match v.array("children"@) {
                Err(e) => Err(e),
                Ok(items) => InlineView::decode_all(items),
            }) {
                Err(e) => Err(e),
                Ok(children) => match MetaView::decode(v) {
                    Err(e) => Err(e),
                    Ok(meta) => Ok(DoubleQuotedView { children, meta }),
                },
            },
        }
    }

    /// Decoding the encoded node gives the node back.
    pub proof fn lemma_roundtrip(self)
        ensures
            DoubleQuotedView::decode(self.encode()) == Ok::<DoubleQuotedView, ErrorView>(self),
        decreases self,
    {
        lemma_names();
        let base = self.fields();
        lemma_flatten_keeps(self.meta, base, "tag"@);
        lemma_flatten_keeps(self.meta, base, "children"@);
        lemma_meta_roundtrip(self.meta, base);
        InlineView::lemma_roundtrip_all(self.children);
    }
}

impl DoubleQuoted {
    /// A node with the given content and no metadata.
    pub fn new(children: Vec<Inline>) -> (r: DoubleQuoted)
        ensures
            r.children == children,
            r.meta@ == MetaView::empty(),
    {
        DoubleQuoted { children, meta: Meta::default() }
    }

    /// Encodes the node. No object of the result has two fields of one
    /// name.
    pub fn encode(&self) -> (v: Value)
        ensures
            v@ == self@.encode(),
            v.unambiguous(),
        decreases self,
    {
        proof {
            lemma_names();
        }
        let mut fields = Value::tagged("double_quoted");
        Value::put(&mut fields, "children", Value::Array(Inline::encode_all(&self.children)));
        self.meta.flatten(&mut fields);
        Value::Object(fields)
    }

    /// Decodes a node of this kind. The value must be an object with the
    /// discriminator `double_quoted` and each field of the node; the first thing
    /// found wrong is the failure.
    pub fn decode(v: &Value) -> (r: Result<DoubleQuoted, Error>)
        ensures
            agrees(r, DoubleQuotedView::decode(v@)),
        decreases v@, 0int,
    {
        v.expect_tag("double_quoted")?;
        let children = Inline::decode_all(v.array_field("children")?)?;
        let meta = Meta::decode(v)?;
        Ok(DoubleQuoted { children, meta })
    }
}

impl Node for DoubleQuoted {
    open spec fn spec_node_type(&self) -> NodeType {
        NodeType::Branch(self.children@.len() as usize)
    }

    fn node_type(&self) -> (t: NodeType) {
        NodeType::Branch(self.children.len())
    }
}

impl HasMeta for DoubleQuoted {
    open spec fn spec_meta(&self) -> Meta {
        self.meta
    }

    open spec fn with_meta(&self, meta: Meta) -> DoubleQuoted {
        DoubleQuoted { meta, ..*self }
    }

    fn meta(&self) -> (r: &Meta) {
        &self.meta
    }

    fn meta_mut(&mut self) -> (r: &mut Meta) {
        &mut self.meta
    }
}

impl Clone for DoubleQuoted {
    fn clone(&self) -> (r: DoubleQuoted)
        ensures
            r@ == self@,
        decreases self,
    {
        let children = Inline::clone_all(&self.children);
        let meta = self.meta.clone();
        DoubleQuoted { children, meta }
    }
}

/// Content in single quotes.
#[derive(Debug, PartialEq, Eq)]
pub struct SingleQuoted {
    pub children: Vec<Inline>,
    pub meta: Meta,
}

/// The mathematical value of a [`SingleQuoted`].
pub struct SingleQuotedView {
    pub children: Seq<InlineView>,
    pub meta: MetaView,
}

impl View for SingleQuoted {
    type V = SingleQuotedView;

    open spec fn view(&self) -> SingleQuotedView
        decreases self,
    {
        SingleQuotedView {
            children: Inline::views(self.children@),
            meta: self.meta@,
        }
    }
}

impl SingleQuotedView {
    /// The fields of the encoded node, before its metadata joins them.
    pub open spec fn fields(self) -> Map<Seq<char>, ValueView>
        decreases self, 0int,
    {
        tagged("single_quoted"@).insert(
            "children"@,
            ValueView::Array(InlineView::encode_all(self.children)),
        )
    }

    /// The encoded node: its discriminator, its fields and its metadata.
    pub open spec fn encode(self) -> ValueView
        decreases self, 1int,
    {
        ValueView::Object(self.meta.flatten(self.fields()))
    }

    /// The node that an encoded value holds, or why it holds none.
    pub open spec fn decode(v: ValueView) -> Result<SingleQuotedView, ErrorView>
        decreases v, 0int,
    {
        match v.expect_tag("single_quoted"@) {
            Err(e) => Err(e),
            Ok(_) => match (match v.array("children"@) {
                Err(e) => Err(e),
                Ok(items) => InlineView::decode_all(items),
            }) {
                Err(e) => Err(e),
                Ok(children) => match MetaView::decode(v) {
                    Err(e) => Err(e),
                    Ok(meta) => Ok(SingleQuotedView { children, meta }),
                },
            },
        }
    }

    /// Decoding the encoded node gives the node back.
    pub proof fn lemma_roundtrip(self)
        ensures
            SingleQuotedView::decode(self.encode()) == Ok::<SingleQuotedView, ErrorView>(self),
        decreases self,
    {
        lemma_names();
        let base = self.fields();
        lemma_flatten_keeps(self.meta, base, "tag"@);
        lemma_flatten_keeps(self.meta, base, "children"@);
        lemma_meta_roundtrip(self.meta, base);
        InlineView::lemma_roundtrip_all(self.children);
    }
}

impl SingleQuoted {
    /// A node with the given content and no metadata.
    pub fn new(children: Vec<Inline>) -> (r: SingleQuoted)
        ensures
            r.children == children,
            r.meta@ == MetaView::empty(),
    {
        SingleQuoted { children, meta: Meta::default() }
    }

    /// Encodes the node. No object of the result has two fields of one
    /// name.
    pub fn encode(&self) -> (v: Value)
        ensures
            v@ == self@.encode(),
            v.unambiguous(),
        decreases self,
    {
        proof {
            lemma_names();
        }
        let mut fields = Value::tagged("single_quoted");
        Value::put(&mut fields, "children", Value::Array(Inline::encode_all(&self.children)));
        self.meta.flatten(&mut fields);
        Value::Object(fields)
    }

    /// Decodes a node of this kind. The value must be an object with the
    /// discriminator `single_quoted` and each field of the node; the first thing
    /// found wrong is the failure.
    pub fn decode(v: &Value) -> (r: Result<SingleQuoted, Error>)
        ensures
            agrees(r, SingleQuotedView::decode(v@)),
        decreases v@, 0int,
    {
        v.expect_tag("single_quoted")?;
        let children = Inline::decode_all(v.array_field("children")?)?;
        let meta = Meta::decode(v)?;
        Ok(SingleQuoted { children, meta })
    }
}

impl Node for SingleQuoted {
    open spec fn spec_node_type(&self) -> NodeType {
        NodeType::Branch(self.children@.len() as usize)
    }

    fn node_type(&self) -> (t: NodeType) {
        NodeType::Branch(self.children.len())
    }
}

impl HasMeta for SingleQuoted {
    open spec fn spec_meta(&self) -> Meta {
        self.meta
    }

    open spec fn with_meta(&self, meta: Meta) -> SingleQuoted {
        SingleQuoted { meta, ..*self }
    }

    fn meta(&self) -> (r: &Meta) {
        &self.meta
    }

    fn meta_mut(&mut self) -> (r: &mut Meta) {
        &mut self.meta
    }
}

impl Clone for SingleQuoted {
    fn clone(&self) -> (r: SingleQuoted)
        ensures
            r@ == self@,
        decreases self,
    {
        let children = Inline::clone_all(&self.children);
        let meta = self.meta.clone();
        SingleQuoted { children, meta }
    }
}

} // verus!
