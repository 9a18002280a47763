//! Tables. A table holds its caption apart from its rows; in the encoded
//! form the caption is the first of its children.
use crate::attributes::{lemma_flatten_keeps, lemma_meta_roundtrip, HasMeta, Meta, MetaView};
use crate::error::{agrees, Error, ErrorView};
use crate::inline::{Inline, InlineView};
use crate::names::lemma_names;
use crate::text::str_eq;
use crate::traverse::{Node, NodeType};
use crate::value::{
    collect, lemma_collect_err, lemma_collect_ok, not_an_object, same, tagged, unexpected_tag,
    unknown_variant, Value, ValueView,
};
use vstd::prelude::*;
use vstd::std_specs::convert::{FromSpecImpl, TryFromSpecImpl};

verus! {

/// A table: its caption and its rows. In the encoded form the two are one
/// list of children, the caption first.
#[derive(Debug, PartialEq, Eq)]
pub struct Table {
    pub caption: Caption,
    pub rows: Vec<Row>,
    pub meta: Meta,
}

/// The mathematical value of a [`Table`].
pub struct TableView {
    pub caption: CaptionView,
    pub rows: Seq<RowView>,
    pub meta: MetaView,
}

impl View for Table {
    type V = TableView;

    open spec fn view(&self) -> TableView {
        TableView { caption: self.caption@, rows: Row::views(self.rows@), meta: self.meta@ }
    }
}

/// One child of an encoded table, as it was read.
#[derive(Debug, PartialEq, Eq)]
pub enum DeserCapOrRow {
    Caption(Caption),
    Row(Row),
}

/// One child of a table, as it is written.
#[derive(Debug)]
pub enum SerCapOrRow<'a> {
    Caption(&'a Caption),
    Row(&'a Row),
}

/// The mathematical value of a child of an encoded table.
pub enum CapOrRowView {
    Caption(CaptionView),
    Row(RowView),
}

impl View for DeserCapOrRow {
    type V = CapOrRowView;

    open spec fn view(&self) -> CapOrRowView {
        match self {
            DeserCapOrRow::Caption(c) => CapOrRowView::Caption(c@),
            DeserCapOrRow::Row(r) => CapOrRowView::Row(r@),
        }
    }
}

impl<'a> View for SerCapOrRow<'a> {
    type V = CapOrRowView;

    open spec fn view(&self) -> CapOrRowView {
        match self {
            SerCapOrRow::Caption(c) => CapOrRowView::Caption(c@),
            SerCapOrRow::Row(r) => CapOrRowView::Row(r@),
        }
    }
}

/// An encoded table as it was read: any list of captions and rows.
#[derive(Debug, PartialEq, Eq)]
pub struct DeserTable {
    pub children: Vec<DeserCapOrRow>,
    pub meta: Meta,
}

/// A table as it is written: the caption and the rows as one list.
#[derive(Debug)]
pub struct SerTable<'a> {
    pub children: Vec<SerCapOrRow<'a>>,
    pub meta: &'a Meta,
}

/// The mathematical value of an encoded table.
pub struct TableChildrenView {
    pub children: Seq<CapOrRowView>,
    pub meta: MetaView,
}

impl View for DeserTable {
    type V = TableChildrenView;

    open spec fn view(&self) -> TableChildrenView {
        TableChildrenView { children: DeserCapOrRow::views(self.children@), meta: self.meta@ }
    }
}

impl<'a> View for SerTable<'a> {
    type V = TableChildrenView;

    open spec fn view(&self) -> TableChildrenView {
        TableChildrenView { children: SerCapOrRow::views(self.children@), meta: self.meta@ }
    }
}

impl CapOrRowView {
    /// The encoded child: the caption or the row, with its discriminator.
    pub open spec fn encode(self) -> ValueView {
        match self {
            CapOrRowView::Caption(c) => c.encode(),
            CapOrRowView::Row(r) => r.encode(),
        }
    }

    /// The child that an encoded value holds: a caption or a row, as its
    /// discriminator says.
    pub open spec fn decode(v: ValueView) -> Result<CapOrRowView, ErrorView> {
        match v.tag() {
            Err(e) => Err(e),
            Ok(t) => if t == "caption"@ {
                match CaptionView::decode(v) {
                    Ok(c) => Ok(CapOrRowView::Caption(c)),
                    Err(e) => Err(e),
                }
            } else if t == "row"@ {
                match RowView::decode(v) {
                    Ok(r) => Ok(CapOrRowView::Row(r)),
                    Err(e) => Err(e),
                }
            } else {
                Err(unexpected_tag(t))
            },
        }
    }

    /// Decoding the encoded child gives the child back.
    pub proof fn lemma_roundtrip(self)
        ensures
            CapOrRowView::decode(self.encode()) == Ok::<CapOrRowView, ErrorView>(self),
    {
        lemma_names();
        match self {
            CapOrRowView::Caption(c) => {
                c.lemma_roundtrip();
                lemma_flatten_keeps(c.meta, c.fields(), "tag"@);
            },
            CapOrRowView::Row(r) => {
                r.lemma_roundtrip();
                lemma_flatten_keeps(r.meta, r.fields(), "tag"@);
            },
        }
    }

    /// The encoded children, in order.
    pub open spec fn encode_all(s: Seq<CapOrRowView>) -> Seq<ValueView> {
        Seq::new(s.len(), |i: int| s[i].encode())
    }

    /// What each of the values decodes to.
    pub open spec fn decode_each(s: Seq<ValueView>) -> Seq<Result<CapOrRowView, ErrorView>> {
        Seq::new(s.len(), |i: int| CapOrRowView::decode(s[i]))
    }

    /// The children that the values hold, or the failure of the first value
    /// that holds none.
    pub open spec fn decode_all(s: Seq<ValueView>) -> Result<Seq<CapOrRowView>, ErrorView> {
        collect(CapOrRowView::decode_each(s))
    }

    /// Decoding the encoded children gives them back.
    pub proof fn lemma_roundtrip_all(s: Seq<CapOrRowView>)
        ensures
            CapOrRowView::decode_all(CapOrRowView::encode_all(s)) == Ok::<
                Seq<CapOrRowView>,
                ErrorView,
            >(s),
    {
        let rs = CapOrRowView::decode_each(CapOrRowView::encode_all(s));
        assert forall|i: int| 0 <= i < rs.len() implies (#[trigger] rs[i]) == Ok::<
            CapOrRowView,
            ErrorView,
        >(s[i]) by {
            s[i].lemma_roundtrip();
        }
        lemma_collect_ok(rs, s);
    }
}

impl DeserCapOrRow {
    /// The children of a list, each by its view.
    pub open spec fn views(s: Seq<DeserCapOrRow>) -> Seq<CapOrRowView> {
        Seq::new(s.len(), |i: int| s[i]@)
    }

    /// Decodes a caption or a row, as the discriminator says.
    pub fn decode(v: &Value) -> (r: Result<DeserCapOrRow, Error>)
        ensures
            agrees(r, CapOrRowView::decode(v@)),
    {
        let t = v.tag()?;
        if same(t, "caption") {
            Ok(DeserCapOrRow::Caption(Caption::decode(v)?))
        } else if same(t, "row") {
            Ok(DeserCapOrRow::Row(Row::decode(v)?))
        } else {
            Err(Value::unexpected_tag(t.as_str()))
        }
    }

    /// Decodes each of the values, and stops at the first that fails.
    pub fn decode_all(items: &Vec<Value>) -> (r: Result<Vec<DeserCapOrRow>, Error>)
        ensures
            match CapOrRowView::decode_all(Value::views(items@)) {
                Ok(x) => r is Ok && DeserCapOrRow::views(r->Ok_0@) == x,
                Err(e) => r is Err && r->Err_0@ == e,
            },
    {
        let ghost s = Value::views(items@);
        let ghost rs = CapOrRowView::decode_each(s);
        let mut out: Vec<DeserCapOrRow> = Vec::new();
        let mut i: usize = 0;
        while i < items.len()
            invariant
                i <= items.len(),
                out.len() == i,
                s == Value::views(items@),
                rs == CapOrRowView::decode_each(s),
                forall|j: int|
                    0 <= j < i ==> (#[trigger] rs[j]) == Ok::<CapOrRowView, ErrorView>(out@[j]@),
            decreases items.len() - i,
        {
            assert(s[i as int] == items[i as int]@);
            match DeserCapOrRow::decode(&items[i]) {
                Ok(x) => {
                    out.push(x);
                },
                Err(e) => {
                    proof {
                        lemma_collect_err(rs, i as int);
                    }
                    return Err(e);
                },
            }
            i = i + 1;
        }
        proof {
            lemma_collect_ok(rs, DeserCapOrRow::views(out@));
        }
        Ok(out)
    }
}

impl<'a> SerCapOrRow<'a> {
    /// The children of a list, each by its view.
    pub open spec fn views(s: Seq<SerCapOrRow<'a>>) -> Seq<CapOrRowView> {
        Seq::new(s.len(), |i: int| s[i]@)
    }

    /// Encodes the child.
    pub fn encode(&self) -> (v: Value)
        ensures
            v@ == self@.encode(),
            v.unambiguous(),
    {
        match self {
            SerCapOrRow::Caption(c) => c.encode(),
            SerCapOrRow::Row(r) => r.encode(),
        }
    }

    /// Encodes each of the children.
    pub fn encode_all(items: &Vec<SerCapOrRow<'a>>) -> (r: Vec<Value>)
        ensures
            Value::views(r@) == CapOrRowView::encode_all(SerCapOrRow::views(items@)),
            Value::all_unambiguous(r@),
    {
        let mut out: Vec<Value> = Vec::new();
        let mut i: usize = 0;
        while i < items.len()
            invariant
                i <= items.len(),
                out.len() == i,
                forall|j: int| 0 <= j < i ==> (#[trigger] out@[j])@ == items@[j]@.encode(),
                forall|j: int| 0 <= j < i ==> (#[trigger] out@[j]).unambiguous(),
            decreases items.len() - i,
        {
            let item = items[i].encode();
            out.push(item);
            i = i + 1;
        }
        assert(Value::views(out@) =~= CapOrRowView::encode_all(SerCapOrRow::views(items@)));
        out
    }
}

/// The failure for a table whose first child is no caption, or that has no
/// child.
pub open spec fn caption_missing() -> ErrorView {
    ErrorView::General("children must start with a caption"@)
}

/// The failure for a table with a child after the first that is no row.
pub open spec fn row_expected() -> ErrorView {
    ErrorView::General("children other than first must be rows"@)
}

impl TableChildrenView {
    /// The fields of the encoded table, before its metadata joins them.
    pub open spec fn fields(self) -> Map<Seq<char>, ValueView> {
        tagged("table"@).insert(
            "children"@,
            ValueView::Array(CapOrRowView::encode_all(self.children)),
        )
    }

    /// The encoded table: its discriminator, its children and its metadata.
    pub open spec fn encode(self) -> ValueView {
        ValueView::Object(self.meta.flatten(self.fields()))
    }

    /// The list of children that an encoded value holds, or why it holds
    /// none. Which children they are is not looked at here.
    pub open spec fn decode(v: ValueView) -> Result<TableChildrenView, ErrorView> {
        match v.expect_tag("table"@) {
            Err(e) => Err(e),
            Ok(_) => match v.array("children"@) {
                Err(e) => Err(e),
                Ok(items) => match CapOrRowView::decode_all(items) {
                    Err(e) => Err(e),
                    Ok(children) => match MetaView::decode(v) {
                        Err(e) => Err(e),
                        Ok(meta) => Ok(TableChildrenView { children, meta }),
                    },
                },
            },
        }
    }

    /// Decoding the encoded list gives the list back.
    pub proof fn lemma_roundtrip(self)
        ensures
            TableChildrenView::decode(self.encode()) == Ok::<TableChildrenView, ErrorView>(self),
    {
        lemma_names();
        let base = self.fields();
        lemma_flatten_keeps(self.meta, base, "tag"@);
        lemma_flatten_keeps(self.meta, base, "children"@);
        lemma_meta_roundtrip(self.meta, base);
        CapOrRowView::lemma_roundtrip_all(self.children);
    }

    /// The children of a table as one list: the caption, then the rows.
    pub open spec fn of_table(table: TableView) -> TableChildrenView {
        TableChildrenView {
            children: seq![CapOrRowView::Caption(table.caption)] + Seq::new(
                table.rows.len(),
                |i: int| CapOrRowView::Row(table.rows[i]),
            ),
            meta: table.meta,
        }
    }

    /// The places, after the first, of the children that are no rows.
    pub open spec fn misplaced(self) -> Set<int> {
        Set::new(|i: int| 1 <= i < self.children.len() && !(self.children[i] is Row))
    }

    /// The table that a list of children makes. The first child must be
    /// the caption, and every other child a row.
    pub open spec fn to_table(self) -> Result<TableView, ErrorView> {
        if self.children.len() == 0 || !(self.children[0] is Caption) {
            Err(caption_missing())
        } else if exists|i: int| 1 <= i < self.children.len() && !(#[trigger] self.children[i] is Row) {
            Err(row_expected())
        } else {
            Ok(
                TableView {
                    caption: self.children[0]->Caption_0,
                    rows: Seq::new(
                        (self.children.len() - 1) as nat,
                        |i: int| self.children[i + 1]->Row_0,
                    ),
                    meta: self.meta,
                },
            )
        }
    }

    /// The list of children of a table makes that table again.
    pub proof fn lemma_of_table(table: TableView)
        ensures
            TableChildrenView::of_table(table).to_table() == Ok::<TableView, ErrorView>(table),
    {
        let c = TableChildrenView::of_table(table);
        assert(c.to_table()->Ok_0.rows =~= table.rows);
    }
}

impl TableView {
    /// The fields of the encoded table, before its metadata joins them.
    pub open spec fn fields(self) -> Map<Seq<char>, ValueView> {
        TableChildrenView::of_table(self).fields()
    }

    /// The encoded table: its children are the caption, then the rows.
    pub open spec fn encode(self) -> ValueView {
        TableChildrenView::of_table(self).encode()
    }

    /// The table that an encoded value holds, or why it holds none.
    pub open spec fn decode(v: ValueView) -> Result<TableView, ErrorView> {
        match TableChildrenView::decode(v) {
            Err(e) => Err(e),
            Ok(children) => children.to_table(),
        }
    }

    /// Decoding the encoded table gives the table back.
    pub proof fn lemma_roundtrip(self)
        ensures
            TableView::decode(self.encode()) == Ok::<TableView, ErrorView>(self),
    {
        TableChildrenView::of_table(self).lemma_roundtrip();
        TableChildrenView::lemma_of_table(self);
    }
}

impl DeserTable {
    /// Reads the list of children and the metadata of an encoded table.
    pub fn decode(v: &Value) -> (r: Result<DeserTable, Error>)
        ensures
            agrees(r, TableChildrenView::decode(v@)),
    {
        v.expect_tag("table")?;
        let children = DeserCapOrRow::decode_all(v.array_field("children")?)?;
        let meta = Meta::decode(v)?;
        Ok(DeserTable { children, meta })
    }

    /// The places, after the first, of every child that is no row, in
    /// rising order: one for each child that keeps the list from being a
    /// table.
    pub fn misplaced(&self) -> (r: Vec<usize>)
        ensures
            forall|k: int| 0 <= k < r@.len() ==> self@.misplaced().contains(
                #[trigger] r@[k] as int,
            ),
            forall|i: int|
                self@.misplaced().contains(i) ==> exists|k: int|
                    0 <= k < r@.len() && #[trigger] r@[k] == i,
            forall|a: int, b: int| 0 <= a < b < r@.len() ==> r@[a] < r@[b],
    {
        let mut out: Vec<usize> = Vec::new();
        let mut i: usize = 1;
        while i < self.children.len()
            invariant
                1 <= i,
                forall|k: int|
                    0 <= k < out@.len() ==> self@.misplaced().contains(#[trigger] out@[k] as int)
                        && out@[k] < i,
                forall|j: int|
                    self@.misplaced().contains(j) && j < i ==> exists|k: int|
                        0 <= k < out@.len() && #[trigger] out@[k] == j,
                forall|a: int, b: int| 0 <= a < b < out@.len() ==> out@[a] < out@[b],
            decreases self.children.len() - i,
        {
            let ghost before = out@;
            match &self.children[i] {
                DeserCapOrRow::Row(_) => {},
                _ => {
                    out.push(i);
                    assert(out@[out@.len() - 1] == i);
                },
            }
            proof {
                assert forall|j: int| self@.misplaced().contains(j) && j < i + 1 implies exists|
                    k: int,
                |
                    0 <= k < out@.len() && #[trigger] out@[k] == j by {
                    if j < i {
                        let k = choose|k: int| 0 <= k < before.len() && #[trigger] before[k] == j;
                        assert(out@[k] == j);
                    } else {
                        assert(out@[out@.len() - 1] == j);
                    }
                }
            }
            i = i + 1;
        }
        out
    }
}

impl TryFrom<DeserTable> for Table {
    type Error = Error;

    /// Makes a table of a list of children. The first child must be the
    /// caption, else the failure is "children must start with a caption";
    /// every other child must be a row, else the failure is "children other
    /// than first must be rows".
    fn try_from(value: DeserTable) -> (r: Result<Table, Error>)
        ensures
            agrees(r, value@.to_table()),
    {
        let ghost all = value.children@;
        let DeserTable { children, meta } = value;
        let mut caption: Option<Caption> = None;
        let mut rows: Vec<Row> = Vec::new();
        for child in it: children.into_iter()
            invariant
                it.seq() == all,
                value.children@ == all,
                it.index() == 0 ==> caption is None && rows@.len() == 0,
                it.index() > 0 ==> caption is Some && all[0] == DeserCapOrRow::Caption(
                    caption->Some_0,
                ) && rows@.len() == it.index() - 1,
                forall|j: int| 0 <= j < rows@.len() ==> all[j + 1] == DeserCapOrRow::Row(rows@[j]),
        {
            match child {
                DeserCapOrRow::Caption(c) => {
                    if caption.is_none() {
                        caption = Some(c);
                    } else {
                        assert(!(DeserCapOrRow::views(all)[it.index()] is Row));
                        return Err(Error::general("children other than first must be rows"));
                    }
                },
                DeserCapOrRow::Row(row) => {
                    if caption.is_none() {
                        assert(!(DeserCapOrRow::views(all)[0] is Caption));
                        return Err(Error::general("children must start with a caption"));
                    } else {
                        rows.push(row);
                    }
                },
            }
        }
        match caption {
            Some(caption) => {
                let table = Table { caption, rows, meta };
                proof {
                    let c = DeserCapOrRow::views(all);
                    assert forall|i: int| 1 <= i < c.len() implies #[trigger] c[i] is Row by {
                        assert(all[(i - 1) + 1] == DeserCapOrRow::Row(rows@[i - 1]));
                    }
                    assert(table@.rows =~= value@.to_table()->Ok_0.rows);
                }
                Ok(table)
            },
            None => Err(Error::general("children must start with a caption")),
        }
    }
}

impl TryFromSpecImpl<DeserTable> for Table {
    // A failure holds a string, which only executable code can make: the
    // contract stands on `try_from` itself.
    open spec fn obeys_try_from_spec() -> bool {
        false
    }

    open spec fn try_from_spec(value: DeserTable) -> Result<Table, Error> {
        Err(arbitrary())
    }
}

impl<'a> From<&'a Table> for SerTable<'a> {
    /// The table as it is written: the caption, then each row.
    fn from(value: &'a Table) -> (r: SerTable<'a>)
        ensures
            r@ == TableChildrenView::of_table(value@),
    {
        let mut children: Vec<SerCapOrRow<'a>> = Vec::new();
        children.push(SerCapOrRow::Caption(&value.caption));
        let mut i: usize = 0;
        while i < value.rows.len()
            invariant
                i <= value.rows@.len(),
                children@.len() == i + 1,
                children@[0]@ == CapOrRowView::Caption(value.caption@),
                forall|j: int|
                    1 <= j <= i ==> (#[trigger] children@[j])@ == CapOrRowView::Row(
                        value.rows@[j - 1]@,
                    ),
            decreases value.rows@.len() - i,
        {
            children.push(SerCapOrRow::Row(&value.rows[i]));
            i = i + 1;
        }
        let r = SerTable { children, meta: &value.meta };
        assert(r@.children =~= TableChildrenView::of_table(value@).children);
        r
    }
}

impl<'a> FromSpecImpl<&'a Table> for SerTable<'a> {
    // The result holds a vector, which only executable code can make: the
    // contract stands on `from` itself.
    open spec fn obeys_from_spec() -> bool {
        false
    }

    open spec fn from_spec(value: &'a Table) -> SerTable<'a> {
        arbitrary()
    }
}

impl<'a> SerTable<'a> {
    /// Encodes the table. No object of the result has two fields of one
    /// name.
    pub fn encode(&self) -> (v: Value)
        ensures
            v@ == self@.encode(),
            v.unambiguous(),
    {
        proof {
            lemma_names();
        }
        let mut fields = Value::tagged("table");
        Value::put(&mut fields, "children", Value::Array(SerCapOrRow::encode_all(&self.children)));
        self.meta.flatten(&mut fields);
        Value::Object(fields)
    }
}

impl Table {
    /// A table with the given caption and rows and no metadata.
    pub fn new(caption: Caption, rows: Vec<Row>) -> (r: Table)
        ensures
            r.caption == caption,
            r.rows == rows,
            r.meta@ == MetaView::empty(),
    {
        Table { caption, rows, meta: Meta::default() }
    }

    /// Encodes the table: its children are the caption, then the rows. No
    /// object of the result has two fields of one name.
    pub fn encode(&self) -> (v: Value)
        ensures
            v@ == self@.encode(),
            v.unambiguous(),
    {
        SerTable::from(self).encode()
    }

    /// Decodes a table: reads the list of its children, and makes a table
    /// of them if the caption comes first and only rows follow.
    pub fn decode(v: &Value) -> (r: Result<Table, Error>)
        ensures
            agrees(r, TableView::decode(v@)),
    {
        Table::try_from(DeserTable::decode(v)?)
    }
}

impl Node for Table {
    /// A branch over the caption and the rows. (A count that `usize` cannot
    /// hold would be given as its greatest value; no list of rows is that
    /// long.)
    open spec fn spec_node_type(&self) -> NodeType {
        if self.rows@.len() < usize::MAX {
            NodeType::Branch((self.rows@.len() + 1) as usize)
        } else {
            NodeType::Branch(usize::MAX)
        }
    }

    fn node_type(&self) -> (t: NodeType) {
        match self.rows.len().checked_add(1) {
            Some(n) => NodeType::Branch(n),
            None => NodeType::Branch(usize::MAX),
        }
    }
}

impl HasMeta for Table {
    open spec fn spec_meta(&self) -> Meta {
        self.meta
    }

    open spec fn with_meta(&self, meta: Meta) -> Table {
        Table { meta, ..*self }
    }

    fn meta(&self) -> (r: &Meta) {
        &self.meta
    }

    fn meta_mut(&mut self) -> (r: &mut Meta) {
        &mut self.meta
    }
}

impl Clone for Table {
    fn clone(&self) -> (r: Table)
        ensures
            r@ == self@,
    {
        let caption = self.caption.clone();
        let rows = Row::clone_all(&self.rows);
        let meta = self.meta.clone();
        Table { caption, rows, meta }
    }
}

/// How the content of a cell is aligned.
#[derive(Debug, Clone, Copy, PartialEq, Eq, Structural)]
pub enum Alignment {
    Default,
    Left,
    Right,
    Center,
}

impl Alignment {
    /// The text that stands for the value in the encoded form.
    pub open spec fn text(self) -> Seq<char> {
        match self {
            Alignment::Default => "default"@,
            Alignment::Left => "left"@,
            Alignment::Right => "right"@,
            Alignment::Center => "center"@,
        }
    }

    /// The value that a text stands for; a text that stands for none is a
    /// failure.
    pub open spec fn parse(t: Seq<char>) -> Result<Alignment, ErrorView> {
        if t == "default"@ {
            Ok(Alignment::Default)
        } else if t == "left"@ {
            Ok(Alignment::Left)
        } else if t == "right"@ {
            Ok(Alignment::Right)
        } else if t == "center"@ {
            Ok(Alignment::Center)
        } else {
            Err(unknown_variant(t))
        }
    }

    /// Each value comes back from its text.
    pub proof fn lemma_roundtrip(self)
        ensures
            Alignment::parse(self.text()) == Ok::<Alignment, ErrorView>(self),
    {
        lemma_names();
    }

    /// The text that stands for the value in the encoded form.
    pub fn as_str(&self) -> (s: &'static str)
        ensures
            s@ == self.text(),
    {
        match self {
            Alignment::Default => "default",
            Alignment::Left => "left",
            Alignment::Right => "right",
            Alignment::Center => "center",
        }
    }

    /// The value that a text stands for.
    pub fn from_text(t: &str) -> (r: Result<Alignment, Error>)
        ensures
            match Alignment::parse(t@) {
                Ok(x) => r == Ok::<Alignment, Error>(x),
                Err(e) => r is Err && r->Err_0@ == e,
            },
    {
        if str_eq(t, "default") {
            Ok(Alignment::Default)
        } else if str_eq(t, "left") {
            Ok(Alignment::Left)
        } else if str_eq(t, "right") {
            Ok(Alignment::Right)
        } else if str_eq(t, "center") {
            Ok(Alignment::Center)
        } else {
            Err(Value::unknown_variant(t))
        }
    }
}

impl Default for Alignment {
    fn default() -> (r: Alignment)
        ensures
            r == Alignment::Default,
    {
        Alignment::Default
    }
}

/// The caption of a table.
#[derive(Debug, PartialEq, Eq)]
pub struct Caption {
    pub children: Vec<Inline>,
    pub meta: Meta,
}

/// The mathematical value of a [`Caption`].
pub struct CaptionView {
    pub children: Seq<InlineView>,
    pub meta: MetaView,
}

impl View for Caption {
    type V = CaptionView;

    open spec fn view(&self) -> CaptionView
    {
        CaptionView {
            children: Inline::views(self.children@),
            meta: self.meta@,
        }
    }
}

impl CaptionView {
    /// The fields of the encoded node, before its metadata joins them.
    pub open spec fn fields(self) -> Map<Seq<char>, ValueView>
    {
        tagged("caption"@).insert(
            "children"@,
            ValueView::Array(InlineView::encode_all(self.children)),
        )
    }

    /// The encoded node: its discriminator, its fields and its metadata.
    pub open spec fn encode(self) -> ValueView
    {
        ValueView::Object(self.meta.flatten(self.fields()))
    }

    /// The node that an encoded value holds, or why it holds none.
    pub open spec fn decode(v: ValueView) -> Result<CaptionView, ErrorView>
    {
        match v.expect_tag("caption"@) {
            Err(e) => Err(e),
            Ok(_) => match (match v.array("children"@) {
                Err(e) => Err(e),
                Ok(items) => InlineView::decode_all(items),
            }) {
                Err(e) => Err(e),
                Ok(children) => match MetaView::decode(v) {
                    Err(e) => Err(e),
                    Ok(meta) => Ok(CaptionView { children, meta }),
                },
            },
        }
    }

    /// Decoding the encoded node gives the node back.
    pub proof fn lemma_roundtrip(self)
        ensures
            CaptionView::decode(self.encode()) == Ok::<CaptionView, ErrorView>(self),
    {
        lemma_names();
        let base = self.fields();
        lemma_flatten_keeps(self.meta, base, "tag"@);
        lemma_flatten_keeps(self.meta, base, "children"@);
        lemma_meta_roundtrip(self.meta, base);
        InlineView::lemma_roundtrip_all(self.children);
    }
}

impl Caption {
    /// A node with the given content and no metadata.
    pub fn new(children: Vec<Inline>) -> (r: Caption)
        ensures
            r.children == children,
            r.meta@ == MetaView::empty(),
    {
        Caption { children, meta: Meta::default() }
    }

    /// Encodes the node. No object of the result has two fields of one
    /// name.
    pub fn encode(&self) -> (v: Value)
        ensures
            v@ == self@.encode(),
            v.unambiguous(),
    {
        proof {
            lemma_names();
        }
        let mut fields = Value::tagged("caption");
        Value::put(&mut fields, "children", Value::Array(Inline::encode_all(&self.children)));
        self.meta.flatten(&mut fields);
        Value::Object(fields)
    }

    /// Decodes a node of this kind. The value must be an object with the
    /// discriminator `caption` and each field of the node; the first thing
    /// found wrong is the failure.
    pub fn decode(v: &Value) -> (r: Result<Caption, Error>)
        ensures
            agrees(r, CaptionView::decode(v@)),
    {
        v.expect_tag("caption")?;
        let children = Inline::decode_all(v.array_field("children")?)?;
        let meta = Meta::decode(v)?;
        Ok(Caption { children, meta })
    }
}

impl Node for Caption {
    open spec fn spec_node_type(&self) -> NodeType {
        NodeType::Branch(self.children@.len() as usize)
    }

    fn node_type(&self) -> (t: NodeType) {
        NodeType::Branch(self.children.len())
    }
}

impl HasMeta for Caption {
    open spec fn spec_meta(&self) -> Meta {
        self.meta
    }

    open spec fn with_meta(&self, meta: Meta) -> Caption {
        Caption { meta, ..*self }
    }

    fn meta(&self) -> (r: &Meta) {
        &self.meta
    }

    fn meta_mut(&mut self) -> (r: &mut Meta) {
        &mut self.meta
    }
}

impl Clone for Caption {
    fn clone(&self) -> (r: Caption)
        ensures
            r@ == self@,
    {
        let children = Inline::clone_all(&self.children);
        let meta = self.meta.clone();
        Caption { children, meta }
    }
}

impl Default for Caption {
    fn default() -> (r: Caption)
        ensures
            r@ == (CaptionView {
                children: Seq::empty(),
                meta: MetaView::empty(),
            }),
    {
        let r = Caption { children: Vec::new(), meta: Meta::default() };
        assert(r@.children =~= Seq::empty());
        r
    }
}

/// A cell of a table row.
#[derive(Debug, PartialEq, Eq)]
pub struct Cell {
    pub head: bool,
    pub align: Alignment,
    pub children: Vec<Inline>,
    pub meta: Meta,
}

/// The mathematical value of a [`Cell`].
pub struct CellView {
    pub head: bool,
    pub align: Alignment,
    pub children: Seq<InlineView>,
    pub meta: MetaView,
}

impl View for Cell {
    type V = CellView;

    open spec fn view(&self) -> CellView
    {
        CellView {
            head: self.head,
            align: self.align,
            children: Inline::views(self.children@),
            meta: self.meta@,
        }
    }
}

impl CellView {
    /// The fields of the encoded node, before its metadata joins them.
    pub open spec fn fields(self) -> Map<Seq<char>, ValueView>
    {
        tagged("cell"@).insert(
            "head"@,
            ValueView::Bool(self.head),
        ).insert(
            "align"@,
            ValueView::Text(self.align.text()),
        ).insert(
            "children"@,
            ValueView::Array(InlineView::encode_all(self.children)),
        )
    }

    /// The encoded node: its discriminator, its fields and its metadata.
    pub open spec fn encode(self) -> ValueView
    {
        ValueView::Object(self.meta.flatten(self.fields()))
    }

    /// The node that an encoded value holds, or why it holds none.
    pub open spec fn decode(v: ValueView) -> Result<CellView, ErrorView>
    {
        match v.expect_tag("cell"@) {
            Err(e) => Err(e),
            Ok(_) => match v.boolean("head"@) {
                Err(e) => Err(e),
                Ok(head) => match (match v.text("align"@) {
                    Err(e) => Err(e),
                    Ok(t) => Alignment::parse(t),
                }) {
                    Err(e) => Err(e),
                    Ok(align) => match (match v.array("children"@) {
                        Err(e) => Err(e),
                        Ok(items) => InlineView::decode_all(items),
                    }) {
                        Err(e) => Err(e),
                        Ok(children) => match MetaView::decode(v) {
                            Err(e) => Err(e),
                            Ok(meta) => Ok(CellView { head, align, children, meta }),
                        },
                    },
                },
            },
        }
    }

    /// Decoding the encoded node gives the node back.
    pub proof fn lemma_roundtrip(self)
        ensures
            CellView::decode(self.encode()) == Ok::<CellView, ErrorView>(self),
    {
        lemma_names();
        let base = self.fields();
        lemma_flatten_keeps(self.meta, base, "tag"@);
        lemma_flatten_keeps(self.meta, base, "head"@);
        lemma_flatten_keeps(self.meta, base, "align"@);
        lemma_flatten_keeps(self.meta, base, "children"@);
        lemma_meta_roundtrip(self.meta, base);
        Alignment::lemma_roundtrip(self.align);
        InlineView::lemma_roundtrip_all(self.children);
    }
}

impl Cell {
    /// A node with the given content and no metadata.
    pub fn new(head: bool, align: Alignment, children: Vec<Inline>) -> (r: Cell)
        ensures
            r.head == head,
            r.align == align,
            r.children == children,
            r.meta@ == MetaView::empty(),
    {
        Cell { head, align, children, meta: Meta::default() }
    }

    /// Encodes the node. No object of the result has two fields of one
    /// name.
    pub fn encode(&self) -> (v: Value)
        ensures
            v@ == self@.encode(),
            v.unambiguous(),
    {
        proof {
            lemma_names();
        }
        let mut fields = Value::tagged("cell");
        Value::put(&mut fields, "head", Value::Bool(self.head));
        Value::put(&mut fields, "align", Value::text(self.align.as_str()));
        Value::put(&mut fields, "children", Value::Array(Inline::encode_all(&self.children)));
        self.meta.flatten(&mut fields);
        Value::Object(fields)
    }

    /// Decodes a node of this kind. The value must be an object with the
    /// discriminator `cell` and each field of the node; the first thing
    /// found wrong is the failure.
    pub fn decode(v: &Value) -> (r: Result<Cell, Error>)
        ensures
            agrees(r, CellView::decode(v@)),
    {
        v.expect_tag("cell")?;
        let head = v.bool_field("head")?;
        let align = Alignment::from_text(v.text_field("align")?.as_str())?;
        let children = Inline::decode_all(v.array_field("children")?)?;
        let meta = Meta::decode(v)?;
        Ok(Cell { head, align, children, meta })
    }
}

impl Node for Cell {
    open spec fn spec_node_type(&self) -> NodeType {
        NodeType::Branch(self.children@.len() as usize)
    }

    fn node_type(&self) -> (t: NodeType) {
        NodeType::Branch(self.children.len())
    }
}

impl HasMeta for Cell {
    open spec fn spec_meta(&self) -> Meta {
        self.meta
    }

    open spec fn with_meta(&self, meta: Meta) -> Cell {
        Cell { meta, ..*self }
    }

    fn meta(&self) -> (r: &Meta) {
        &self.meta
    }

    fn meta_mut(&mut self) -> (r: &mut Meta) {
        &mut self.meta
    }
}

impl Clone for Cell {
    fn clone(&self) -> (r: Cell)
        ensures
            r@ == self@,
    {
        let head = self.head;
        let align = self.align;
        let children = Inline::clone_all(&self.children);
        let meta = self.meta.clone();
        Cell { head, align, children, meta }
    }
}

impl CellView {
    /// The encoded cells, in order.
    pub open spec fn encode_all(s: Seq<CellView>) -> Seq<ValueView>
    {
        Seq::new(
            s.len(),
            |i: int|
                if 0 <= i < s.len() {
                    s[i].encode()
                } else {
                    ValueView::Null
                },
        )
    }

    /// What each of the values decodes to.
    pub open spec fn decode_each(s: Seq<ValueView>) -> Seq<Result<CellView, ErrorView>>
    {
        Seq::new(
            s.len(),
            |i: int|
                if 0 <= i < s.len() {
                    CellView::decode(s[i])
                } else {
                    Err(not_an_object())
                },
        )
    }

    /// The cells that the values hold, or the failure of the first value
    /// that holds none.
    pub open spec fn decode_all(s: Seq<ValueView>) -> Result<Seq<CellView>, ErrorView>
    {
        collect(CellView::decode_each(s))
    }

    /// Decoding the encoded cells gives them back.
    pub proof fn lemma_roundtrip_all(s: Seq<CellView>)
        ensures
            CellView::decode_all(CellView::encode_all(s)) == Ok::<Seq<CellView>, ErrorView>(s),
    {
        let rs = CellView::decode_each(CellView::encode_all(s));
        assert forall|i: int| 0 <= i < rs.len() implies (#[trigger] rs[i]) == Ok::<
            CellView,
            ErrorView,
        >(s[i]) by {
            s[i].lemma_roundtrip();
        }
        lemma_collect_ok(rs, s);
    }
}

impl Cell {
    /// The cells of a list, each by its view.
    pub open spec fn views(s: Seq<Cell>) -> Seq<CellView>
    {
        Seq::new(
            s.len(),
            |i: int|
                if 0 <= i < s.len() {
                    s[i]@
                } else {
                    arbitrary()
                },
        )
    }

    /// A copy of the list.
    pub fn clone_all(items: &Vec<Cell>) -> (r: Vec<Cell>)
        ensures
            Cell::views(r@) == Cell::views(items@),
    {
        let mut out: Vec<Cell> = Vec::new();
        let mut i: usize = 0;
        while i < items.len()
            invariant
                i <= items.len(),
                out.len() == i,
                forall|j: int| 0 <= j < i ==> (#[trigger] out@[j])@ == items@[j]@,
            decreases items.len() - i,
        {
            let item = items[i].clone();
            out.push(item);
            i = i + 1;
        }
        assert(Cell::views(out@) =~= Cell::views(items@));
        out
    }

    /// Encodes each of the cells.
    pub fn encode_all(items: &Vec<Cell>) -> (r: Vec<Value>)
        ensures
            Value::views(r@) == CellView::encode_all(Cell::views(items@)),
            Value::all_unambiguous(r@),
    {
        let mut out: Vec<Value> = Vec::new();
        let mut i: usize = 0;
        while i < items.len()
            invariant
                i <= items.len(),
                out.len() == i,
                forall|j: int| 0 <= j < i ==> (#[trigger] out@[j])@ == items@[j]@.encode(),
                forall|j: int| 0 <= j < i ==> (#[trigger] out@[j]).unambiguous(),
            decreases items.len() - i,
        {
            let item = items[i].encode();
            out.push(item);
            i = i + 1;
        }
        assert(Value::views(out@) =~= CellView::encode_all(Cell::views(items@)));
        out
    }

    /// Decodes each of the values, and stops at the first that fails.
    pub fn decode_all(items: &Vec<Value>) -> (r: Result<Vec<Cell>, Error>)
        ensures
            match CellView::decode_all(Value::views(items@)) {
                Ok(x) => r is Ok && Cell::views(r->Ok_0@) == x,
                Err(e) => r is Err && r->Err_0@ == e,
            },
    {
        let ghost s = Value::views(items@);
        let ghost rs = CellView::decode_each(s);
        let mut out: Vec<Cell> = Vec::new();
        let mut i: usize = 0;
        while i < items.len()
            invariant
                i <= items.len(),
                out.len() == i,
                s == Value::views(items@),
                rs == CellView::decode_each(s),
                forall|j: int|
                    0 <= j < i ==> (#[trigger] rs[j]) == Ok::<CellView, ErrorView>(out@[j]@),
            decreases items.len() - i,
        {
            assert(s[i as int] == items[i as int]@);
            match Cell::decode(&items[i]) {
                Ok(x) => {
                    out.push(x);
                },
                Err(e) => {
                    proof {
                        lemma_collect_err(rs, i as int);
                    }
                    return Err(e);
                },
            }
            i = i + 1;
        }
        proof {
            lemma_collect_ok(rs, Cell::views(out@));
        }
        Ok(out)
    }
}

impl Default for Cell {
    fn default() -> (r: Cell)
        ensures
            r@ == (CellView {
                head: false,
                align: Alignment::Default,
                children: Seq::empty(),
                meta: MetaView::empty(),
            }),
    {
        let r = Cell {
            head: false, align: Alignment::Default, children: Vec::new(), meta: Meta::default(),
        };
        assert(r@.children =~= Seq::empty());
        r
    }
}

/// A row of a table.
#[derive(Debug, PartialEq, Eq)]
pub struct Row {
    pub head: bool,
    pub children: Vec<Cell>,
    pub meta: Meta,
}

/// The mathematical value of a [`Row`].
pub struct RowView {
    pub head: bool,
    pub children: Seq<CellView>,
    pub meta: MetaView,
}

impl View for Row {
    type V = RowView;

    open spec fn view(&self) -> RowView
    {
        RowView {
            head: self.head,
            children: Cell::views(self.children@),
            meta: self.meta@,
        }
    }
}

impl RowView {
    /// The fields of the encoded node, before its metadata joins them.
    pub open spec fn fields(self) -> Map<Seq<char>, ValueView>
    {
        tagged("row"@).insert(
            "head"@,
            ValueView::Bool(self.head),
        ).insert(
            "children"@,
            ValueView::Array(CellView::encode_all(self.children)),
        )
    }

    /// The encoded node: its discriminator, its fields and its metadata.
    pub open spec fn encode(self) -> ValueView
    {
        ValueView::Object(self.meta.flatten(self.fields()))
    }

    /// The node that an encoded value holds, or why it holds none.
    pub open spec fn decode(v: ValueView) -> Result<RowView, ErrorView>
    {
        match v.expect_tag("row"@) {
            Err(e) => Err(e),
            Ok(_) => match v.boolean("head"@) {
                Err(e) => Err(e),
                Ok(head) => match (match v.array("children"@) {
                    Err(e) => Err(e),
                    Ok(items) => CellView::decode_all(items),
                }) {
                    Err(e) => Err(e),
                    Ok(children) => match MetaView::decode(v) {
                        Err(e) => Err(e),
                        Ok(meta) => Ok(RowView { head, children, meta }),
                    },
                },
            },
        }
    }

    /// Decoding the encoded node gives the node back.
    pub proof fn lemma_roundtrip(self)
        ensures
            RowView::decode(self.encode()) == Ok::<RowView, ErrorView>(self),
    {
        lemma_names();
        let base = self.fields();
        lemma_flatten_keeps(self.meta, base, "tag"@);
        lemma_flatten_keeps(self.meta, base, "head"@);
        lemma_flatten_keeps(self.meta, base, "children"@);
        lemma_meta_roundtrip(self.meta, base);
        CellView::lemma_roundtrip_all(self.children);
    }
}

impl Row {
    /// A node with the given content and no metadata.
    pub fn new(head: bool, children: Vec<Cell>) -> (r: Row)
        ensures
            r.head == head,
            r.children == children,
            r.meta@ == MetaView::empty(),
    {
        Row { head, children, meta: Meta::default() }
    }

    /// Encodes the node. No object of the result has two fields of one
    /// name.
    pub fn encode(&self) -> (v: Value)
        ensures
            v@ == self@.encode(),
            v.unambiguous(),
    {
        proof {
            lemma_names();
        }
        let mut fields = Value::tagged("row");
        Value::put(&mut fields, "head", Value::Bool(self.head));
        Value::put(&mut fields, "children", Value::Array(Cell::encode_all(&self.children)));
        self.meta.flatten(&mut fields);
        Value::Object(fields)
    }

    /// Decodes a node of this kind. The value must be an object with the
    /// discriminator `row` and each field of the node; the first thing
    /// found wrong is the failure.
    pub fn decode(v: &Value) -> (r: Result<Row, Error>)
        ensures
            agrees(r, RowView::decode(v@)),
    {
        v.expect_tag("row")?;
        let head = v.bool_field("head")?;
        let children = Cell::decode_all(v.array_field("children")?)?;
        let meta = Meta::decode(v)?;
        Ok(Row { head, children, meta })
    }
}

impl Node for Row {
    open spec fn spec_node_type(&self) -> NodeType {
        NodeType::Branch(self.children@.len() as usize)
    }

    fn node_type(&self) -> (t: NodeType) {
        NodeType::Branch(self.children.len())
    }
}

impl HasMeta for Row {
    open spec fn spec_meta(&self) -> Meta {
        self.meta
    }

    open spec fn with_meta(&self, meta: Meta) -> Row {
        Row { meta, ..*self }
    }

    fn meta(&self) -> (r: &Meta) {
        &self.meta
    }

    fn meta_mut(&mut self) -> (r: &mut Meta) {
        &mut self.meta
    }
}

impl Clone for Row {
    fn clone(&self) -> (r: Row)
        ensures
            r@ == self@,
    {
        let head = self.head;
        let children = Cell::clone_all(&self.children);
        let meta = self.meta.clone();
        Row { head, children, meta }
    }
}

impl Row {
    /// The rows of a list, each by its view.
    pub open spec fn views(s: Seq<Row>) -> Seq<RowView>
    {
        Seq::new(
            s.len(),
            |i: int|
                if 0 <= i < s.len() {
                    s[i]@
                } else {
                    arbitrary()
                },
        )
    }

    /// A copy of the list.
    pub fn clone_all(items: &Vec<Row>) -> (r: Vec<Row>)
        ensures
            Row::views(r@) == Row::views(items@),
    {
        let mut out: Vec<Row> = Vec::new();
        let mut i: usize = 0;
        while i < items.len()
            invariant
                i <= items.len(),
                out.len() == i,
                forall|j: int| 0 <= j < i ==> (#[trigger] out@[j])@ == items@[j]@,
            decreases items.len() - i,
        {
            let item = items[i].clone();
            out.push(item);
            i = i + 1;
        }
        assert(Row::views(out@) =~= Row::views(items@));
        out
    }
}

impl Default for Row {
    fn default() -> (r: Row)
        ensures
            r@ == (RowView {
                head: false,
                children: Seq::empty(),
                meta: MetaView::empty(),
            }),
    {
        let r = Row { head: false, children: Vec::new(), meta: Meta::default() };
        assert(r@.children =~= Seq::empty());
        r
    }
}

} // verus!
