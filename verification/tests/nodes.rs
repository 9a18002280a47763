//! Classification, metadata and the conversions between a node and the
//! unions that hold it.
use djot_ast::attributes::{Attributes, HasAttributes, Meta, Pos, SourceLoc};
use djot_ast::block::{
    Alignment, Block, Caption, Cell, CheckboxStatus, Definition, DefinitionListItem, DeserCapOrRow,
    DeserDefinitionListItem, DeserTable, Para, Row, Section, SerCapOrRow, SerTable, Table, Term,
    ThematicBreak,
};
use djot_ast::document::{Doc, Footnote, Reference};
use djot_ast::inline::{Emph, Inline, Str};
use djot_ast::node::AstNode;
use djot_ast::{Error, Node, NodeType, StringMap};

fn text(s: &str) -> Inline {
    Inline::Str(Str::new(s.to_string()))
}

fn para(s: &str) -> Block {
    Block::Para(Para::new(vec![text(s)]))
}

#[test]
fn node_type_counts() {
    assert_eq!(NodeType::Root(3).n_children(), 3);
    assert_eq!(NodeType::Branch(7).n_children(), 7);
    assert_eq!(NodeType::Slab.n_children(), 1);
    assert_eq!(NodeType::Leaf.n_children(), 0);
    assert!(NodeType::Root(0).is_root());
    assert!(!NodeType::Branch(0).is_root());
    assert!(NodeType::Leaf.is_leaf());
    assert!(!NodeType::Slab.is_leaf());
    assert!(!NodeType::Branch(0).is_leaf());
}

#[test]
fn section_is_classified_by_its_children_as_they_stand() {
    let mut section = Section::new(vec![]);
    assert_eq!(section.node_type(), NodeType::Branch(0));
    section.children.push(para("a"));
    assert_eq!(section.node_type(), NodeType::Branch(1));
    for s in ["b", "c", "d", "e"] {
        section.children.push(para(s));
    }
    assert_eq!(section.node_type(), NodeType::Branch(5));
    section.children.pop();
    assert_eq!(section.node_type(), NodeType::Branch(4));
    section.children.clear();
    assert_eq!(section.node_type(), NodeType::Branch(0));
}

#[test]
fn unions_classify_as_what_they_hold() {
    assert_eq!(text("x").node_type(), NodeType::Leaf);
    assert_eq!(Inline::Emph(Emph::new(vec![text("x"), text("y")])).node_type(), NodeType::Branch(2));
    assert_eq!(para("x").node_type(), NodeType::Branch(1));
    assert_eq!(Block::ThematicBreak(ThematicBreak::new()).node_type(), NodeType::Leaf);
    assert_eq!(AstNode::Block(para("x")).node_type(), NodeType::Branch(1));
    assert_eq!(AstNode::Inline(text("x")).node_type(), NodeType::Leaf);
    let mut doc = Doc::default();
    assert_eq!(doc.node_type(), NodeType::Root(0));
    doc.children.push(para("x"));
    doc.children.push(para("y"));
    assert_eq!(AstNode::Doc(doc).node_type(), NodeType::Root(2));
    assert_eq!(
        Reference::new("a".to_string(), "b".to_string()).node_type(),
        NodeType::Leaf
    );
    assert_eq!(Footnote::new("a".to_string(), vec![para("n")]).node_type(), NodeType::Branch(1));
}

#[test]
fn definition_list_item_has_two_children() {
    let item = DefinitionListItem::new(Term::new(vec![]), Definition::new(vec![]));
    assert_eq!(item.node_type(), NodeType::Branch(2));
}

#[test]
fn table_counts_its_caption_and_its_rows() {
    let mut table = Table::new(Caption::new(vec![]), vec![]);
    assert_eq!(table.node_type(), NodeType::Branch(1));
    table.rows.push(Row::new(false, vec![]));
    table.rows.push(Row::new(false, vec![]));
    assert_eq!(Block::Table(table).node_type(), NodeType::Branch(3));
}

#[test]
fn explicit_attributes_come_before_automatic_ones() {
    let mut explicit = Attributes::new();
    explicit.insert("id".to_string(), "a".to_string());
    let mut automatic = Attributes::new();
    automatic.insert("id".to_string(), "b".to_string());
    automatic.insert("class".to_string(), "c".to_string());
    let meta = Meta::new(explicit, automatic, None);
    assert_eq!(meta.get_attribute("id"), Some("a"));
    assert_eq!(meta.get_attribute("class"), Some("c"));
    assert_eq!(meta.get_attribute("title"), None);
    assert_eq!(meta.auto_attributes().get("id"), Some(&"b".to_string()));
    let mut node = Str::new("x".to_string());
    node.meta = meta;
    assert_eq!(node.get_attribute("id"), Some("a"));
    assert_eq!(node.get_attribute("class"), Some("c"));
    assert_eq!(Inline::Str(node.clone()).get_attribute("class"), Some("c"));
    assert_eq!(AstNode::Inline(Inline::Str(node)).get_attribute("id"), Some("a"));
}

#[test]
fn explicit_attributes_are_set_through_the_node() {
    let mut node = para("x");
    assert_eq!(node.get_attribute("id"), None);
    assert_eq!(node.attributes_mut().insert("id".to_string(), "one".to_string()), None);
    assert_eq!(node.get_attribute("id"), Some("one"));
    assert_eq!(
        node.attributes_mut().insert("id".to_string(), "two".to_string()),
        Some("one".to_string())
    );
    assert_eq!(node.get_attribute("id"), Some("two"));
    assert_eq!(node.attributes().len(), 1);
    assert_eq!(node.attributes_mut().remove("id"), Some("two".to_string()));
    assert_eq!(node.get_attribute("id"), None);
    assert!(node.attributes().is_empty());
    assert!(node.auto_attributes().is_empty());
    assert_eq!(node, para("x"));
}

#[test]
fn the_span_can_be_set_and_cleared() {
    let pos = Pos {
        start: SourceLoc { line: 1, col: 1, offset: 0 },
        end: SourceLoc { line: 2, col: 3, offset: 9 },
    };
    let mut node = AstNode::Block(para("x"));
    assert_eq!(node.pos(), None);
    *node.pos_mut() = Some(pos);
    assert_eq!(node.pos(), Some(&pos));
    *node.pos_mut() = None;
    assert_eq!(node.pos(), None);
}

#[test]
fn string_map_is_a_map() {
    let mut m: StringMap<u32> = StringMap::new();
    assert!(m.is_empty());
    assert_eq!(m.insert("a".to_string(), 1), None);
    assert_eq!(m.insert("b".to_string(), 2), None);
    assert_eq!(m.insert("a".to_string(), 3), Some(1));
    assert_eq!(m.len(), 2);
    assert_eq!(m.get("a"), Some(&3));
    assert_eq!(m.get("b"), Some(&2));
    assert_eq!(m.get("c"), None);
    assert!(m.contains_key("b"));
    assert!(!m.contains_key("c"));
    assert_eq!(m.remove("c"), None);
    assert_eq!(m.remove("a"), Some(3));
    assert_eq!(m.len(), 1);
    assert_eq!(m.entries(), &vec![("b".to_string(), 2)]);
}

#[test]
fn string_maps_are_equal_whatever_the_order_of_insertion() {
    let mut a: StringMap<u32> = StringMap::new();
    a.insert("x".to_string(), 1);
    a.insert("y".to_string(), 2);
    let mut b: StringMap<u32> = StringMap::new();
    b.insert("y".to_string(), 2);
    b.insert("x".to_string(), 1);
    assert_eq!(a, b);
    assert_eq!(a, a.clone());
    b.insert("x".to_string(), 3);
    assert_ne!(a, b);
    b.remove("x");
    assert_ne!(a, b);
    b.insert("z".to_string(), 1);
    assert_ne!(a, b);
}

#[test]
fn a_node_goes_into_its_union_and_back() {
    let p = Para::new(vec![text("x")]);
    let block = Block::from(p.clone());
    assert_eq!(block, Block::Para(p.clone()));
    assert_eq!(Para::try_from(block.clone()), Ok(p.clone()));
    let node: AstNode = block.clone().into();
    assert_eq!(node, AstNode::Block(block.clone()));
    assert_eq!(Block::try_from(node), Ok(block));
    let s = Str::new("x".to_string());
    let inline: Inline = s.clone().into();
    assert_eq!(Str::try_from(inline), Ok(s));
}

#[test]
fn narrowing_to_another_kind_fails() {
    let wrong = Error::General("wrong variant".to_string());
    assert_eq!(Section::try_from(para("x")), Err(wrong.clone()));
    assert_eq!(Emph::try_from(text("x")), Err(wrong.clone()));
    assert_eq!(Doc::try_from(AstNode::Block(para("x"))), Err(wrong.clone()));
    assert_eq!(Inline::try_from(AstNode::Block(para("x"))), Err(wrong.clone()));
    assert_eq!(wrong.message(), "general error: wrong variant");
}

#[test]
fn errors_show_their_kind_and_their_message() {
    assert_eq!(Error::general("m").message(), "general error: m");
    assert_eq!(Error::wrapper("m").message(), "wrapped error: m");
    assert_eq!(Error::general("m"), Error::General("m".to_string()));
}

#[test]
fn checkbox_status() {
    assert!(CheckboxStatus::Checked.is_checked());
    assert!(!CheckboxStatus::Unchecked.is_checked());
}

#[test]
fn a_list_of_children_makes_a_table_only_with_the_caption_first() {
    let caption = Caption::new(vec![text("c")]);
    let row = Row::new(false, vec![]);
    let children = DeserTable {
        children: vec![
            DeserCapOrRow::Caption(caption.clone()),
            DeserCapOrRow::Row(row.clone()),
            DeserCapOrRow::Row(row.clone()),
        ],
        meta: Meta::default(),
    };
    assert!(children.misplaced().is_empty());
    let table = Table::try_from(children).unwrap();
    assert_eq!(table, Table::new(caption.clone(), vec![row.clone(), row.clone()]));

    let children = DeserTable {
        children: vec![
            DeserCapOrRow::Caption(caption.clone()),
            DeserCapOrRow::Caption(caption.clone()),
            DeserCapOrRow::Row(row.clone()),
            DeserCapOrRow::Caption(caption.clone()),
        ],
        meta: Meta::default(),
    };
    assert_eq!(children.misplaced(), vec![1, 3]);
    assert_eq!(
        Table::try_from(children),
        Err(Error::General("children other than first must be rows".to_string()))
    );

    let children = DeserTable {
        children: vec![DeserCapOrRow::Row(row.clone()), DeserCapOrRow::Caption(caption)],
        meta: Meta::default(),
    };
    assert_eq!(children.misplaced(), vec![1]);
    assert_eq!(
        Table::try_from(children),
        Err(Error::General("children must start with a caption".to_string()))
    );

    let children = DeserTable { children: vec![], meta: Meta::default() };
    assert_eq!(
        Table::try_from(children),
        Err(Error::General("children must start with a caption".to_string()))
    );
}

#[test]
fn defaults_are_empty() {
    assert_eq!(Caption::default(), Caption::new(vec![]));
    assert_eq!(Row::default(), Row::new(false, vec![]));
    assert_eq!(Cell::default(), Cell::new(false, Alignment::Default, vec![]));
    assert_eq!(Alignment::default(), Alignment::Default);
    assert_eq!(Meta::default(), Meta::new(Attributes::new(), Attributes::new(), None));
    let doc = Doc::default();
    assert!(doc.references.is_empty() && doc.auto_references.is_empty());
    assert!(doc.footnotes.is_empty() && doc.children.is_empty());
}

#[test]
fn a_table_is_written_as_its_caption_and_then_its_rows() {
    let caption = Caption::new(vec![text("c")]);
    let rows = vec![Row::new(true, vec![]), Row::new(false, vec![])];
    let table = Table::new(caption.clone(), rows.clone());
    let written = SerTable::from(&table);
    assert_eq!(written.children.len(), 3);
    assert!(matches!(written.children[0], SerCapOrRow::Caption(c) if *c == caption));
    assert!(matches!(written.children[1], SerCapOrRow::Row(r) if *r == rows[0]));
    assert!(matches!(written.children[2], SerCapOrRow::Row(r) if *r == rows[1]));
    assert_eq!(*written.meta, Meta::default());
}

#[test]
fn a_pair_of_children_makes_a_definition_list_item() {
    let term = Term::new(vec![text("t")]);
    let definition = Definition::new(vec![para("d")]);
    let read = DeserDefinitionListItem {
        children: (term.clone(), definition.clone()),
        meta: Meta::default(),
    };
    assert_eq!(DefinitionListItem::from(read), DefinitionListItem::new(term, definition));
}

#[test]
fn clones_are_equal_to_what_they_copy() {
    let mut section = Section::new(vec![para("a"), Block::Section(Section::new(vec![para("b")]))]);
    section.attributes_mut().insert("id".to_string(), "s".to_string());
    let node = AstNode::Block(Block::Section(section));
    assert_eq!(node.clone(), node);
    let e = Error::general("m");
    assert_eq!(e.clone(), e);
}
