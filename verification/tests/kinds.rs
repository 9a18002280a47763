//! One node of every kind, written and read back.
use djot_ast::block::{
    Alignment, Block, BlockQuote, BulletList, BulletListStyle, Caption, Cell, CheckboxStatus,
    CodeBlock, Definition, DefinitionList, DefinitionListItem, Div, FenceStyle, Heading, ListItem,
    NumberStyle, OrderedList, OrderedListStyle, Para, RawBlock, Row, Section, Table, TaskList,
    TaskListItem, Term, ThematicBreak,
};
use djot_ast::document::{Doc, Footnote, Reference};
use djot_ast::inline::{
    Delete, DisplayMath, DoubleQuoted, Email, Emph, FootnoteReference, HardBreak, Image, Inline,
    InlineMath, Insert, Link, Mark, NonBreakingSpace, RawInline, SingleQuoted, SmartPunctuation,
    SmartPunctuationType, SoftBreak, Span, Str, Strong, Subscript, Superscript, Symb, Url, Verbatim,
};
use djot_ast::node::AstNode;
use djot_ast::{Node, NodeType, Value};

fn from_json(j: &serde_json::Value) -> Value {
    match j {
        serde_json::Value::Null => Value::Null,
        serde_json::Value::Bool(b) => Value::Bool(*b),
        serde_json::Value::Number(n) => Value::Number(n.as_u64().expect("a whole number")),
        serde_json::Value::String(s) => Value::Text(s.clone()),
        serde_json::Value::Array(a) => Value::Array(a.iter().map(from_json).collect()),
        serde_json::Value::Object(m) => {
            Value::Object(m.iter().map(|(k, v)| (k.clone(), from_json(v))).collect())
        }
    }
}

fn to_json(v: &Value) -> serde_json::Value {
    match v {
        Value::Null => serde_json::Value::Null,
        Value::Bool(b) => serde_json::Value::Bool(*b),
        Value::Number(n) => serde_json::Value::Number(serde_json::Number::from(*n)),
        Value::Text(s) => serde_json::Value::String(s.clone()),
        Value::Array(a) => serde_json::Value::Array(a.iter().map(to_json).collect()),
        Value::Object(fields) => {
            let mut m = serde_json::Map::new();
            for (k, v) in fields {
                m.insert(k.clone(), to_json(v));
            }
            serde_json::Value::Object(m)
        }
    }
}

/// The node is written as the text, and the text is read as the node.
fn check(node: AstNode, json: &str) {
    let encoded = node.encode();
    assert_eq!(serde_json::to_string(&to_json(&encoded)).unwrap(), json);
    let parsed = from_json(&serde_json::from_str::<serde_json::Value>(json).unwrap());
    assert_eq!(parsed, encoded);
    assert_eq!(AstNode::decode(&parsed), Ok(node));
}

fn inline(node: Inline, json: &str) {
    assert_eq!(Inline::decode(&node.encode()), Ok(node.clone()));
    check(AstNode::Inline(node), json);
}

fn block(node: Block, json: &str) {
    assert_eq!(Block::decode(&node.encode()), Ok(node.clone()));
    check(AstNode::Block(node), json);
}

fn s(text: &str) -> String {
    text.to_string()
}

fn x() -> Vec<Inline> {
    vec![Inline::Str(Str::new(s("x")))]
}

fn p() -> Vec<Block> {
    vec![Block::Para(Para::new(x()))]
}

const X: &str = r#"[{"tag":"str","text":"x"}]"#;
const P: &str = r#"[{"tag":"para","children":[{"tag":"str","text":"x"}]}]"#;

fn with(template: &str) -> String {
    template.replace("$X", X).replace("$P", P)
}

#[test]
fn inline_leaves() {
    inline(Inline::Str(Str::new(s("x"))), r#"{"tag":"str","text":"x"}"#);
    inline(Inline::SoftBreak(SoftBreak::new()), r#"{"tag":"soft_break"}"#);
    inline(Inline::HardBreak(HardBreak::new()), r#"{"tag":"hard_break"}"#);
    inline(
        Inline::NonBreakingSpace(NonBreakingSpace::new()),
        r#"{"tag":"non_breaking_space"}"#,
    );
    inline(Inline::Symb(Symb::new(s("smile"))), r#"{"tag":"symb","alias":"smile"}"#);
    inline(Inline::Verbatim(Verbatim::new(s("v"))), r#"{"tag":"verbatim","text":"v"}"#);
    inline(
        Inline::RawInline(RawInline::new(s("html"), s("<b>"))),
        r#"{"tag":"raw_inline","format":"html","text":"<b>"}"#,
    );
    inline(Inline::InlineMath(InlineMath::new(s("e"))), r#"{"tag":"inline_math","text":"e"}"#);
    inline(Inline::DisplayMath(DisplayMath::new(s("e"))), r#"{"tag":"display_math","text":"e"}"#);
    inline(Inline::Url(Url::new(s("u"))), r#"{"tag":"url","text":"u"}"#);
    inline(Inline::Email(Email::new(s("m"))), r#"{"tag":"email","text":"m"}"#);
    inline(
        Inline::FootnoteReference(FootnoteReference::new(s("1"))),
        r#"{"tag":"footnote_reference","text":"1"}"#,
    );
}

#[test]
fn smart_punctuation_of_every_kind() {
    let kinds = [
        (SmartPunctuationType::LeftSingleQuote, "left_single_quote"),
        (SmartPunctuationType::RightSingleQuote, "right_single_quote"),
        (SmartPunctuationType::LeftDoubleQuote, "left_double_quote"),
        (SmartPunctuationType::RightDoubleQuote, "right_double_quote"),
        (SmartPunctuationType::Ellipses, "ellipses"),
        (SmartPunctuationType::EmDash, "em_dash"),
        (SmartPunctuationType::EnDash, "en_dash"),
    ];
    for (kind, name) in kinds {
        assert_eq!(kind.as_str(), name);
        assert_eq!(SmartPunctuationType::from_text(name), Ok(kind));
        inline(
            Inline::SmartPunctuation(SmartPunctuation::new(kind, s("'"))),
            &format!(r#"{{"tag":"smart_punctuation","type":"{}","text":"'"}}"#, name),
        );
    }
}

#[test]
fn inline_containers() {
    inline(Inline::Emph(Emph::new(x())), &with(r#"{"tag":"emph","children":$X}"#));
    inline(Inline::Strong(Strong::new(x())), &with(r#"{"tag":"strong","children":$X}"#));
    inline(Inline::Span(Span::new(x())), &with(r#"{"tag":"span","children":$X}"#));
    inline(Inline::Mark(Mark::new(x())), &with(r#"{"tag":"mark","children":$X}"#));
    inline(
        Inline::Superscript(Superscript::new(x())),
        &with(r#"{"tag":"superscript","children":$X}"#),
    );
    inline(Inline::Subscript(Subscript::new(x())), &with(r#"{"tag":"subscript","children":$X}"#));
    inline(Inline::Insert(Insert::new(x())), &with(r#"{"tag":"insert","children":$X}"#));
    inline(Inline::Delete(Delete::new(x())), &with(r#"{"tag":"delete","children":$X}"#));
    inline(
        Inline::DoubleQuoted(DoubleQuoted::new(x())),
        &with(r#"{"tag":"double_quoted","children":$X}"#),
    );
    inline(
        Inline::SingleQuoted(SingleQuoted::new(x())),
        &with(r#"{"tag":"single_quoted","children":$X}"#),
    );
    inline(
        Inline::Link(Link::new(Some(s("d")), None, x())),
        &with(r#"{"tag":"link","destination":"d","reference":null,"children":$X}"#),
    );
    inline(
        Inline::Image(Image::new(None, Some(s("r")), x())),
        &with(r#"{"tag":"image","destination":null,"reference":"r","children":$X}"#),
    );
}

#[test]
fn blocks() {
    block(Block::Para(Para::new(x())), &with(r#"{"tag":"para","children":$X}"#));
    block(
        Block::Heading(Heading::new(3, x())),
        &with(r#"{"tag":"heading","level":3,"children":$X}"#),
    );
    block(Block::ThematicBreak(ThematicBreak::new()), r#"{"tag":"thematic_break"}"#);
    block(Block::Section(Section::new(p())), &with(r#"{"tag":"section","children":$P}"#));
    block(Block::Div(Div::new(p())), &with(r#"{"tag":"div","children":$P}"#));
    block(
        Block::CodeBlock(CodeBlock::new(Some(s("rs")), s("c"))),
        r#"{"tag":"code_block","lang":"rs","text":"c"}"#,
    );
    block(
        Block::RawBlock(RawBlock::new(s("html"), s("<hr>"))),
        r#"{"tag":"raw_block","format":"html","text":"<hr>"}"#,
    );
    block(Block::BlockQuote(BlockQuote::new(p())), &with(r#"{"tag":"block_quote","children":$P}"#));
}

#[test]
fn lists() {
    let styles = [
        (BulletListStyle::Plus, "+"),
        (BulletListStyle::Dash, "-"),
        (BulletListStyle::Asterisk, "*"),
    ];
    for (style, mark) in styles {
        block(
            Block::BulletList(BulletList::new(true, style, vec![ListItem::new(p())])),
            &with(&format!(
                r#"{{"tag":"bullet_list","tight":true,"style":"{}","children":[{{"tag":"list_item","children":$P}}]}}"#,
                mark
            )),
        );
    }
    block(
        Block::OrderedList(OrderedList::new(
            OrderedListStyle::new(NumberStyle::UpperAlpha, FenceStyle::RightParen),
            false,
            Some(2),
            vec![ListItem::new(p())],
        )),
        &with(
            r#"{"tag":"ordered_list","style":"A)","tight":false,"start":2,"children":[{"tag":"list_item","children":$P}]}"#,
        ),
    );
    for (status, name) in [(CheckboxStatus::Checked, "checked"), (CheckboxStatus::Unchecked, "unchecked")] {
        block(
            Block::TaskList(TaskList::new(false, vec![TaskListItem::new(status, p())])),
            &with(&format!(
                r#"{{"tag":"task_list","tight":false,"children":[{{"tag":"task_list_item","checkbox":"{}","children":$P}}]}}"#,
                name
            )),
        );
    }
    block(
        Block::DefinitionList(DefinitionList::new(vec![DefinitionListItem::new(
            Term::new(x()),
            Definition::new(p()),
        )])),
        &with(
            r#"{"tag":"definition_list","children":[{"tag":"definition_list_item","children":[{"tag":"term","children":$X},{"tag":"definition","children":$P}]}]}"#,
        ),
    );
}

#[test]
fn tables() {
    for (align, name) in [
        (Alignment::Default, "default"),
        (Alignment::Left, "left"),
        (Alignment::Right, "right"),
        (Alignment::Center, "center"),
    ] {
        block(
            Block::Table(Table::new(
                Caption::new(x()),
                vec![Row::new(true, vec![Cell::new(false, align, x())])],
            )),
            &with(&format!(
                r#"{{"tag":"table","children":[{{"tag":"caption","children":$X}},{{"tag":"row","head":true,"children":[{{"tag":"cell","head":false,"align":"{}","children":$X}}]}}]}}"#,
                name
            )),
        );
    }
}

#[test]
fn parts_of_lists_and_tables() {
    check(AstNode::ListItem(ListItem::new(p())), &with(r#"{"tag":"list_item","children":$P}"#));
    check(
        AstNode::TaskListItem(TaskListItem::new(CheckboxStatus::Unchecked, p())),
        &with(r#"{"tag":"task_list_item","checkbox":"unchecked","children":$P}"#),
    );
    check(
        AstNode::DefinitionListItem(DefinitionListItem::new(Term::new(x()), Definition::new(p()))),
        &with(
            r#"{"tag":"definition_list_item","children":[{"tag":"term","children":$X},{"tag":"definition","children":$P}]}"#,
        ),
    );
    check(AstNode::Term(Term::new(x())), &with(r#"{"tag":"term","children":$X}"#));
    check(AstNode::Definition(Definition::new(p())), &with(r#"{"tag":"definition","children":$P}"#));
    check(
        AstNode::Row(Row::new(false, vec![])),
        r#"{"tag":"row","head":false,"children":[]}"#,
    );
    check(
        AstNode::Cell(Cell::new(true, Alignment::Left, x())),
        &with(r#"{"tag":"cell","head":true,"align":"left","children":$X}"#),
    );
    check(AstNode::Caption(Caption::new(x())), &with(r#"{"tag":"caption","children":$X}"#));
}

#[test]
fn document_and_what_it_keeps() {
    check(
        AstNode::Footnote(Footnote::new(s("n"), p())),
        &with(r#"{"tag":"footnote","label":"n","children":$P}"#),
    );
    check(
        AstNode::Reference(Reference::new(s("r"), s("d"))),
        r#"{"tag":"reference","label":"r","destination":"d"}"#,
    );
    let mut doc = Doc::default();
    doc.children = p();
    doc.auto_references.insert(s("a"), Reference::new(s("a"), s("#a")));
    check(
        AstNode::Doc(doc),
        &with(
            r##"{"tag":"doc","references":{},"autoReferences":{"a":{"tag":"reference","label":"a","destination":"#a"}},"footnotes":{},"children":$P}"##,
        ),
    );
}

#[test]
fn every_kind_is_classified() {
    assert_eq!(Inline::SoftBreak(SoftBreak::new()).node_type(), NodeType::Leaf);
    assert_eq!(Inline::Link(Link::new(None, None, x())).node_type(), NodeType::Branch(1));
    assert_eq!(Block::CodeBlock(CodeBlock::new(None, s("c"))).node_type(), NodeType::Leaf);
    assert_eq!(
        Block::OrderedList(OrderedList::new(
            OrderedListStyle::new(NumberStyle::Arabic, FenceStyle::Dot),
            true,
            None,
            vec![ListItem::new(p()), ListItem::new(p())],
        ))
        .node_type(),
        NodeType::Branch(2)
    );
    assert_eq!(AstNode::Row(Row::new(false, vec![Cell::default()])).node_type(), NodeType::Branch(1));
    assert_eq!(AstNode::Cell(Cell::default()).node_type(), NodeType::Branch(0));
    assert_eq!(AstNode::Caption(Caption::new(x())).node_type(), NodeType::Branch(1));
    assert_eq!(AstNode::Term(Term::new(x())).node_type(), NodeType::Branch(1));
}
