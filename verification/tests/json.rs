//! The encoding, held against JSON text.
use djot_ast::attributes::{Attributes, HasAttributes, Meta, Pos, SourceLoc};
use djot_ast::block::{
    Block, BulletList, BulletListStyle, Caption, Cell, CheckboxStatus, CodeBlock, Definition,
    DefinitionList, DefinitionListItem, FenceStyle, Heading, ListItem, NumberStyle, OrderedList,
    OrderedListStyle, Para, Row, Section, Table, TaskList, TaskListItem, Term, ThematicBreak,
};
use djot_ast::block::Alignment;
use djot_ast::document::{Doc, Footnote, Reference};
use djot_ast::inline::{
    Emph, Inline, Link, SmartPunctuation, SmartPunctuationType, SoftBreak, Str, Strong,
};
use djot_ast::node::AstNode;
use djot_ast::{Error, Value};

fn from_json(j: &serde_json::Value) -> Value {
    match j {
        serde_json::Value::Null => Value::Null,
        serde_json::Value::Bool(b) => Value::Bool(*b),
        serde_json::Value::Number(n) => Value::Number(n.as_u64().expect("a whole number")),
        serde_json::Value::String(s) => Value::Text(s.clone()),
        serde_json::Value::Array(a) => Value::Array(a.iter().map(from_json).collect()),
        serde_json::Value::Object(m) => {
            Value::Object(m.iter().map(|(k, v)| (k.clone(), from_json(v))).collect())
        }
    }
}

fn to_json(v: &Value) -> serde_json::Value {
    match v {
        Value::Null => serde_json::Value::Null,
        Value::Bool(b) => serde_json::Value::Bool(*b),
        Value::Number(n) => serde_json::Value::Number(serde_json::Number::from(*n)),
        Value::Text(s) => serde_json::Value::String(s.clone()),
        Value::Array(a) => serde_json::Value::Array(a.iter().map(to_json).collect()),
        Value::Object(fields) => {
            let mut m = serde_json::Map::new();
            for (k, v) in fields {
                m.insert(k.clone(), to_json(v));
            }
            serde_json::Value::Object(m)
        }
    }
}

fn parse(text: &str) -> Value {
    from_json(&serde_json::from_str::<serde_json::Value>(text).unwrap())
}

fn print(v: &Value) -> String {
    serde_json::to_string(&to_json(v)).unwrap()
}

fn text(s: &str) -> Inline {
    Inline::Str(Str::new(s.to_string()))
}

fn para(s: &str) -> Block {
    Block::Para(Para::new(vec![text(s)]))
}

fn wrapper(msg: &str) -> Error {
    Error::Wrapper(msg.to_string())
}

fn general(msg: &str) -> Error {
    Error::General(msg.to_string())
}

#[test]
fn test_tag_definition() {
    let s = r#"{"tag":"definition","children":[]}"#;
    let def: Definition = Definition::decode(&parse(s)).unwrap();
    let s2 = print(&def.encode());
    assert_eq!(s, s2);
}

#[test]
fn document_scenario() {
    let mut doc = Doc::default();
    doc.children.push(para("hi"));
    doc.footnotes
        .insert("1".to_string(), Footnote::new("1".to_string(), vec![para("note")]));
    doc.references.insert(
        "r".to_string(),
        Reference::new("r".to_string(), "https://example.org".to_string()),
    );
    let encoded = doc.encode();
    assert_eq!(
        print(&encoded),
        concat_all(&[
            r#"{"tag":"doc","#,
            r#""references":{"r":{"tag":"reference","label":"r","destination":"https://example.org"}},"#,
            r#""autoReferences":{},"#,
            r#""footnotes":{"1":{"tag":"footnote","label":"1","children":[{"tag":"para","children":[{"tag":"str","text":"note"}]}]}},"#,
            r#""children":[{"tag":"para","children":[{"tag":"str","text":"hi"}]}]}"#,
        ])
    );
    let json = to_json(&encoded);
    assert_eq!(json["tag"], serde_json::Value::String("doc".to_string()));
    assert_eq!(json["children"].as_array().unwrap().len(), 1);
    assert_eq!(json["children"][0]["tag"], serde_json::Value::String("para".to_string()));
    assert!(json["footnotes"]["1"].is_object());
    assert!(json["references"]["r"].is_object());
    assert_eq!(Doc::decode(&encoded), Ok(doc.clone()));
    assert_eq!(AstNode::decode(&encoded), Ok(AstNode::Doc(doc)));
}

fn concat_all(parts: &[&str]) -> String {
    parts.concat()
}

#[test]
fn new_document_is_an_empty_root() {
    let node = djot_ast::new_document();
    assert_eq!(node, AstNode::Doc(Doc::default()));
    assert_eq!(
        print(&node.encode()),
        r#"{"tag":"doc","references":{},"autoReferences":{},"footnotes":{},"children":[]}"#
    );
}

#[test]
fn table_without_children_fails() {
    let v = parse(r#"{"tag":"table","children":[]}"#);
    assert_eq!(Table::decode(&v), Err(general("children must start with a caption")));
}

#[test]
fn table_without_caption_fails() {
    let v = parse(
        r#"{"tag":"table","children":[{"tag":"row","head":false,"children":[]},{"tag":"row","head":false,"children":[]}]}"#,
    );
    assert_eq!(Table::decode(&v), Err(general("children must start with a caption")));
}

#[test]
fn table_with_two_captions_fails() {
    let v = parse(
        r#"{"tag":"table","children":[{"tag":"caption","children":[]},{"tag":"caption","children":[]}]}"#,
    );
    assert_eq!(Table::decode(&v), Err(general("children other than first must be rows")));
}

#[test]
fn table_with_caption_and_rows_decodes() {
    let s = concat_all(&[
        r#"{"tag":"table","children":[{"tag":"caption","children":[{"tag":"str","text":"c"}]},"#,
        r#"{"tag":"row","head":true,"children":[{"tag":"cell","head":true,"align":"left","children":[]}]},"#,
        r#"{"tag":"row","head":false,"children":[]}]}"#,
    ]);
    let table = Table::decode(&parse(&s)).unwrap();
    assert_eq!(table.caption, Caption::new(vec![text("c")]));
    assert_eq!(table.rows.len(), 2);
    assert_eq!(table.rows[0], Row::new(true, vec![Cell::new(true, Alignment::Left, vec![])]));
    assert_eq!(table.rows[1], Row::new(false, vec![]));
    assert_eq!(print(&table.encode()), s);
}

#[test]
fn table_child_of_another_kind_fails() {
    let v = parse(r#"{"tag":"table","children":[{"tag":"caption","children":[]},{"tag":"para","children":[]}]}"#);
    assert_eq!(Table::decode(&v), Err(wrapper("unexpected tag `para`")));
}

#[test]
fn definition_list_item_round_trips() {
    let s = concat_all(&[
        r#"{"tag":"definition_list_item","children":[{"tag":"term","children":[{"tag":"str","text":"t"}]},"#,
        r#"{"tag":"definition","children":[{"tag":"para","children":[{"tag":"str","text":"d"}]}]}]}"#,
    ]);
    let item = DefinitionListItem::decode(&parse(&s)).unwrap();
    assert_eq!(
        item,
        DefinitionListItem::new(Term::new(vec![text("t")]), Definition::new(vec![para("d")]))
    );
    assert_eq!(print(&item.encode()), s);
}

#[test]
fn definition_list_item_with_one_child_fails() {
    let v = parse(r#"{"tag":"definition_list_item","children":[{"tag":"term","children":[]}]}"#);
    assert_eq!(
        DefinitionListItem::decode(&v),
        Err(general("children must be a term and a definition"))
    );
}

#[test]
fn definition_list_item_with_three_children_fails() {
    let v = parse(
        r#"{"tag":"definition_list_item","children":[{"tag":"term","children":[]},{"tag":"definition","children":[]},{"tag":"definition","children":[]}]}"#,
    );
    assert_eq!(
        DefinitionListItem::decode(&v),
        Err(general("children must be a term and a definition"))
    );
}

#[test]
fn definition_list_item_in_wrong_order_fails() {
    let v = parse(
        r#"{"tag":"definition_list_item","children":[{"tag":"definition","children":[]},{"tag":"term","children":[]}]}"#,
    );
    assert_eq!(
        DefinitionListItem::decode(&v),
        Err(general("children must be a term and a definition"))
    );
}

#[test]
fn definition_list_item_keeps_its_metadata() {
    let mut item =
        DefinitionListItem::new(Term::new(vec![text("t")]), Definition::new(vec![para("d")]));
    item.attributes_mut().insert("id".to_string(), "x".to_string());
    let encoded = item.encode();
    assert_eq!(DefinitionListItem::decode(&encoded), Ok(item));
}

#[test]
fn metadata_is_flattened_beside_the_fields() {
    let mut attributes = Attributes::new();
    attributes.insert("id".to_string(), "a".to_string());
    let mut auto = Attributes::new();
    auto.insert("class".to_string(), "c".to_string());
    let pos = Pos {
        start: SourceLoc { line: 1, col: 2, offset: 3 },
        end: SourceLoc { line: 4, col: 5, offset: 6 },
    };
    let mut node = Str::new("hi".to_string());
    node.meta = Meta::new(attributes, auto, Some(pos));
    let s = concat_all(&[
        r#"{"tag":"str","text":"hi","attributes":{"id":"a"},"autoAttributes":{"class":"c"},"#,
        r#""pos":{"start":{"line":1,"col":2,"offset":3},"end":{"line":4,"col":5,"offset":6}}}"#,
    ]);
    assert_eq!(print(&node.encode()), s);
    assert_eq!(Str::decode(&parse(&s)), Ok(node));
}

#[test]
fn cleared_span_is_left_out() {
    let s = r#"{"tag":"str","text":"hi","pos":{"start":{"line":1,"col":1,"offset":0},"end":{"line":1,"col":2,"offset":1}}}"#;
    let mut node = Str::decode(&parse(s)).unwrap();
    assert_eq!(
        node.pos(),
        Some(&Pos {
            start: SourceLoc { line: 1, col: 1, offset: 0 },
            end: SourceLoc { line: 1, col: 2, offset: 1 },
        })
    );
    *node.pos_mut() = None;
    assert_eq!(node.pos(), None);
    assert_eq!(print(&node.encode()), r#"{"tag":"str","text":"hi"}"#);
}

#[test]
fn a_null_span_is_no_span() {
    let node = Str::decode(&parse(r#"{"tag":"str","text":"hi","pos":null}"#)).unwrap();
    assert_eq!(node.pos(), None);
}

#[test]
fn empty_attribute_maps_are_left_out() {
    let node = Str::decode(&parse(r#"{"tag":"str","text":"hi","attributes":{},"autoAttributes":{}}"#))
        .unwrap();
    assert!(node.attributes().is_empty());
    assert!(node.auto_attributes().is_empty());
    assert_eq!(print(&node.encode()), r#"{"tag":"str","text":"hi"}"#);
}

#[test]
fn an_attribute_that_is_no_text_fails() {
    let v = parse(r#"{"tag":"str","text":"hi","attributes":{"id":1}}"#);
    assert_eq!(Str::decode(&v), Err(wrapper("invalid type for field `attributes`")));
    let v = parse(r#"{"tag":"str","text":"hi","autoAttributes":[]}"#);
    assert_eq!(Str::decode(&v), Err(wrapper("invalid type for field `autoAttributes`")));
}

#[test]
fn unknown_fields_are_passed_over() {
    let node = Str::decode(&parse(r#"{"tag":"str","text":"hi","extra":[1,2]}"#)).unwrap();
    assert_eq!(node, Str::new("hi".to_string()));
}

#[test]
fn a_later_field_counts_where_a_name_occurs_twice() {
    let v = Value::Object(vec![
        ("tag".to_string(), Value::Text("str".to_string())),
        ("text".to_string(), Value::Number(1)),
        ("text".to_string(), Value::Text("hi".to_string())),
    ]);
    assert_eq!(Str::decode(&v), Ok(Str::new("hi".to_string())));
}

#[test]
fn missing_field_is_reported_by_name() {
    let v = parse(r#"{"tag":"para"}"#);
    assert_eq!(Para::decode(&v), Err(wrapper("missing field `children`")));
    assert_eq!(Block::decode(&v), Err(wrapper("missing field `children`")));
    let v = parse(r#"{"children":[]}"#);
    assert_eq!(Para::decode(&v), Err(wrapper("missing field `tag`")));
    assert_eq!(AstNode::decode(&v), Err(wrapper("missing field `tag`")));
}

#[test]
fn field_of_wrong_type_is_reported_by_name() {
    let v = parse(r#"{"tag":"str","text":7}"#);
    assert_eq!(Str::decode(&v), Err(wrapper("invalid type for field `text`")));
    let v = parse(r#"{"tag":"heading","level":"one","children":[]}"#);
    assert_eq!(Heading::decode(&v), Err(wrapper("invalid type for field `level`")));
    let v = parse(r#"{"tag":"para","children":{}}"#);
    assert_eq!(Para::decode(&v), Err(wrapper("invalid type for field `children`")));
    let v = parse(r#"{"tag":7}"#);
    assert_eq!(Inline::decode(&v), Err(wrapper("invalid type for field `tag`")));
}

#[test]
fn a_value_that_is_no_object_fails() {
    assert_eq!(Inline::decode(&parse("[]")), Err(wrapper("expected an object")));
    assert_eq!(Str::decode(&parse("\"str\"")), Err(wrapper("expected an object")));
    assert_eq!(AstNode::decode(&Value::Null), Err(wrapper("expected an object")));
}

#[test]
fn unknown_discriminator_fails() {
    let v = parse(r#"{"tag":"bogus","children":[]}"#);
    assert_eq!(Inline::decode(&v), Err(wrapper("unexpected tag `bogus`")));
    assert_eq!(Block::decode(&v), Err(wrapper("unexpected tag `bogus`")));
    assert_eq!(AstNode::decode(&v), Err(wrapper("unexpected tag `bogus`")));
    let v = parse(r#"{"tag":"str","text":"x"}"#);
    assert_eq!(Block::decode(&v), Err(wrapper("unexpected tag `str`")));
    assert_eq!(Para::decode(&v), Err(wrapper("unexpected tag `str`")));
}

#[test]
fn the_first_failing_child_is_reported() {
    let v = parse(
        r#"{"tag":"para","children":[{"tag":"str","text":"ok"},{"tag":"nope"},{"tag":"str"}]}"#,
    );
    assert_eq!(Para::decode(&v), Err(wrapper("unexpected tag `nope`")));
}

#[test]
fn any_node_is_told_by_its_discriminator() {
    let v = parse(r#"{"tag":"para","children":[{"tag":"str","text":"hi"}]}"#);
    assert_eq!(AstNode::decode(&v), Ok(AstNode::Block(para("hi"))));
    let v = parse(r#"{"tag":"emph","children":[{"tag":"str","text":"hi"}]}"#);
    assert_eq!(
        AstNode::decode(&v),
        Ok(AstNode::Inline(Inline::Emph(Emph::new(vec![text("hi")]))))
    );
    let v = parse(r#"{"tag":"list_item","children":[]}"#);
    assert_eq!(AstNode::decode(&v), Ok(AstNode::ListItem(ListItem::new(vec![]))));
    let v = parse(r#"{"tag":"cell","head":false,"align":"center","children":[]}"#);
    assert_eq!(
        AstNode::decode(&v),
        Ok(AstNode::Cell(Cell::new(false, Alignment::Center, vec![])))
    );
    let v = parse(r#"{"tag":"reference","label":"a","destination":"b"}"#);
    assert_eq!(
        AstNode::decode(&v),
        Ok(AstNode::Reference(Reference::new("a".to_string(), "b".to_string())))
    );
}

#[test]
fn blocks_encode_with_their_fields_in_order() {
    assert_eq!(
        print(&Heading::new(2, vec![text("h")]).encode()),
        r#"{"tag":"heading","level":2,"children":[{"tag":"str","text":"h"}]}"#
    );
    assert_eq!(print(&ThematicBreak::new().encode()), r#"{"tag":"thematic_break"}"#);
    assert_eq!(
        print(&CodeBlock::new(None, "x".to_string()).encode()),
        r#"{"tag":"code_block","lang":null,"text":"x"}"#
    );
    assert_eq!(
        print(&CodeBlock::new(Some("rust".to_string()), "x".to_string()).encode()),
        r#"{"tag":"code_block","lang":"rust","text":"x"}"#
    );
    assert_eq!(
        print(&Section::new(vec![para("p")]).encode()),
        r#"{"tag":"section","children":[{"tag":"para","children":[{"tag":"str","text":"p"}]}]}"#
    );
}

#[test]
fn an_absent_optional_field_is_none() {
    let v = parse(r#"{"tag":"code_block","text":"x"}"#);
    assert_eq!(CodeBlock::decode(&v), Ok(CodeBlock::new(None, "x".to_string())));
    let v = parse(r#"{"tag":"link","destination":"d","children":[]}"#);
    assert_eq!(Link::decode(&v), Ok(Link::new(Some("d".to_string()), None, vec![])));
    let v = parse(r#"{"tag":"link","destination":3,"children":[]}"#);
    assert_eq!(Link::decode(&v), Err(wrapper("invalid type for field `destination`")));
}

#[test]
fn lists_encode_their_style_as_text() {
    let item = ListItem::new(vec![para("i")]);
    let ordered = OrderedList::new(
        OrderedListStyle::new(NumberStyle::LowerRoman, FenceStyle::BothParen),
        true,
        Some(3),
        vec![item.clone()],
    );
    let s = r#"{"tag":"ordered_list","style":"(i)","tight":true,"start":3,"children":[{"tag":"list_item","children":[{"tag":"para","children":[{"tag":"str","text":"i"}]}]}]}"#;
    assert_eq!(print(&ordered.encode()), s);
    assert_eq!(OrderedList::decode(&parse(s)), Ok(ordered));
    let bullets = BulletList::new(false, BulletListStyle::Dash, vec![item]);
    let s = r#"{"tag":"bullet_list","tight":false,"style":"-","children":[{"tag":"list_item","children":[{"tag":"para","children":[{"tag":"str","text":"i"}]}]}]}"#;
    assert_eq!(print(&bullets.encode()), s);
    assert_eq!(Block::decode(&parse(s)), Ok(Block::BulletList(bullets)));
    let tasks = TaskList::new(true, vec![TaskListItem::new(CheckboxStatus::Checked, vec![])]);
    let s = r#"{"tag":"task_list","tight":true,"children":[{"tag":"task_list_item","checkbox":"checked","children":[]}]}"#;
    assert_eq!(print(&tasks.encode()), s);
    assert_eq!(TaskList::decode(&parse(s)), Ok(tasks));
}

#[test]
fn ordered_list_without_start_encodes_null() {
    let list = OrderedList::new(
        OrderedListStyle::new(NumberStyle::Arabic, FenceStyle::Dot),
        false,
        None,
        vec![],
    );
    let s = r#"{"tag":"ordered_list","style":"1.","tight":false,"start":null,"children":[]}"#;
    assert_eq!(print(&list.encode()), s);
    assert_eq!(OrderedList::decode(&parse(s)), Ok(list));
}

#[test]
fn a_malformed_style_fails_the_list() {
    let v = parse(r#"{"tag":"ordered_list","style":"x.","tight":false,"children":[]}"#);
    assert_eq!(OrderedList::decode(&v), Err(general("invalid ordered list style 'x.'")));
    assert_eq!(Block::decode(&v), Err(general("invalid ordered list style 'x.'")));
}

#[test]
fn an_unknown_enumerated_text_fails() {
    let v = parse(r#"{"tag":"bullet_list","tight":false,"style":"~","children":[]}"#);
    assert_eq!(BulletList::decode(&v), Err(wrapper("unknown variant `~`")));
    let v = parse(r#"{"tag":"task_list_item","checkbox":"maybe","children":[]}"#);
    assert_eq!(TaskListItem::decode(&v), Err(wrapper("unknown variant `maybe`")));
    let v = parse(r#"{"tag":"cell","head":false,"align":"middle","children":[]}"#);
    assert_eq!(Cell::decode(&v), Err(wrapper("unknown variant `middle`")));
}

#[test]
fn smart_punctuation_names_its_kind_under_type() {
    let node = SmartPunctuation::new(SmartPunctuationType::EmDash, "---".to_string());
    let s = r#"{"tag":"smart_punctuation","type":"em_dash","text":"---"}"#;
    assert_eq!(print(&node.encode()), s);
    assert_eq!(Inline::decode(&parse(s)), Ok(Inline::SmartPunctuation(node)));
}

#[test]
fn nested_inlines_round_trip() {
    let node = Inline::Strong(Strong::new(vec![
        Inline::Emph(Emph::new(vec![text("a"), Inline::SoftBreak(SoftBreak::new()), text("b")])),
        Inline::Link(Link::new(None, Some("ref".to_string()), vec![text("c")])),
    ]));
    let encoded = node.encode();
    assert_eq!(
        print(&encoded),
        concat_all(&[
            r#"{"tag":"strong","children":[{"tag":"emph","children":[{"tag":"str","text":"a"},{"tag":"soft_break"},{"tag":"str","text":"b"}]},"#,
            r#"{"tag":"link","destination":null,"reference":"ref","children":[{"tag":"str","text":"c"}]}]}"#,
        ])
    );
    assert_eq!(Inline::decode(&encoded), Ok(node));
}

#[test]
fn definition_list_round_trips_through_any_node() {
    let list = DefinitionList::new(vec![
        DefinitionListItem::new(Term::new(vec![text("t1")]), Definition::new(vec![para("d1")])),
        DefinitionListItem::new(Term::new(vec![]), Definition::new(vec![])),
    ]);
    let node = AstNode::Block(Block::DefinitionList(list));
    assert_eq!(AstNode::decode(&node.encode()), Ok(node));
}

#[test]
fn a_table_in_a_document_round_trips() {
    let table = Table::new(
        Caption::new(vec![text("cap")]),
        vec![
            Row::new(true, vec![Cell::new(true, Alignment::Default, vec![text("h")])]),
            Row::new(false, vec![Cell::new(false, Alignment::Right, vec![text("1")])]),
        ],
    );
    let mut doc = Doc::default();
    doc.children.push(Block::Table(table));
    doc.auto_references
        .insert("a".to_string(), Reference::new("a".to_string(), "#a".to_string()));
    let node = AstNode::Doc(doc);
    assert_eq!(AstNode::decode(&node.encode()), Ok(node));
}

#[test]
fn a_table_entry_that_does_not_decode_fails_the_document() {
    let v = parse(
        r#"{"tag":"doc","references":{"r":{"tag":"footnote","label":"r","children":[]}},"autoReferences":{},"footnotes":{},"children":[]}"#,
    );
    assert_eq!(Doc::decode(&v), Err(wrapper("invalid type for field `references`")));
    let v = parse(r#"{"tag":"doc","references":{},"autoReferences":{},"children":[]}"#);
    assert_eq!(Doc::decode(&v), Err(wrapper("missing field `footnotes`")));
}

fn no_name_twice(v: &Value) -> bool {
    match v {
        Value::Array(items) => items.iter().all(no_name_twice),
        Value::Object(fields) => {
            fields.iter().enumerate().all(|(i, (name, value))| {
                no_name_twice(value) && fields[..i].iter().all(|(other, _)| other != name)
            })
        }
        _ => true,
    }
}

#[test]
fn no_object_is_written_with_a_name_twice() {
    let mut attributes = Attributes::new();
    attributes.insert("tag".to_string(), "x".to_string());
    attributes.insert("children".to_string(), "y".to_string());
    attributes.insert("pos".to_string(), "z".to_string());
    let pos = Pos {
        start: SourceLoc { line: 1, col: 1, offset: 0 },
        end: SourceLoc { line: 1, col: 1, offset: 0 },
    };
    let mut p = Para::new(vec![text("a"), text("b")]);
    p.meta = Meta::new(attributes.clone(), attributes, Some(pos));
    let mut doc = Doc::default();
    doc.children.push(Block::Para(p.clone()));
    doc.footnotes
        .insert("tag".to_string(), Footnote::new("tag".to_string(), vec![Block::Para(p)]));
    let encoded = doc.encode();
    assert!(no_name_twice(&encoded));
    assert!(!no_name_twice(&Value::Object(vec![
        ("a".to_string(), Value::Null),
        ("a".to_string(), Value::Null),
    ])));
    assert_eq!(Doc::decode(&encoded), Ok(doc));
}
