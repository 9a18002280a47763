//! The encoded form of a node: a tree of tagged objects, arrays and scalars,
//! as a JSON text holds it.
use crate::error::{Error, ErrorView};
use crate::string_map::distinct_keys;
use crate::text::{joined, str_eq};
use vstd::prelude::*;

verus! {

/// An encoded value. An object is a list of named fields; where a name
/// occurs twice, the later field counts.
#[derive(Debug, PartialEq, Eq)]
pub enum Value {
    Null,
    Bool(bool),
    Number(u64),
    Text(String),
    Array(Vec<Value>),
    Object(Vec<(String, Value)>),
}

/// The mathematical value of a [`Value`]: an object is a map from names to
/// values.
pub enum ValueView {
    Null,
    Bool(bool),
    Number(u64),
    Text(Seq<char>),
    Array(Seq<ValueView>),
    Object(Map<Seq<char>, ValueView>),
}

impl View for Value {
    type V = ValueView;

    open spec fn view(&self) -> ValueView
        decreases self,
    {
        match self {
            Value::Null => ValueView::Null,
            Value::Bool(b) => ValueView::Bool(*b),
            Value::Number(n) => ValueView::Number(*n),
            Value::Text(t) => ValueView::Text(t@),
            Value::Array(a) => ValueView::Array(Value::views(a@)),
            Value::Object(o) => ValueView::Object(Value::fields(o@)),
        }
    }
}

impl Clone for Value {
    fn clone(&self) -> (r: Value)
        ensures
            r@ == self@,
        decreases self,
    {
        match self {
            Value::Null => Value::Null,
            Value::Bool(b) => Value::Bool(*b),
            Value::Number(n) => Value::Number(*n),
            Value::Text(t) => Value::Text(t.clone()),
            Value::Array(a) => Value::Array(Value::clone_all(a)),
            Value::Object(o) => Value::Object(Value::clone_fields(o)),
        }
    }
}

/// The failure for a value that should be an object and is not.
pub open spec fn not_an_object() -> ErrorView {
    ErrorView::Wrapper("expected an object"@)
}

/// The failure for an object that lacks the field `key`.
pub open spec fn missing_field(key: Seq<char>) -> ErrorView {
    ErrorView::Wrapper("missing field `"@ + key + "`"@)
}

/// The failure for a field `key` whose value has the wrong type.
pub open spec fn invalid_type(key: Seq<char>) -> ErrorView {
    ErrorView::Wrapper("invalid type for field `"@ + key + "`"@)
}

/// The failure for a tag that does not name the expected node.
pub open spec fn unexpected_tag(tag: Seq<char>) -> ErrorView {
    ErrorView::Wrapper("unexpected tag `"@ + tag + "`"@)
}

/// The failure for a text that stands for no value of an
/// enumeration.
pub open spec fn unknown_variant(text: Seq<char>) -> ErrorView {
    ErrorView::Wrapper("unknown variant `"@ + text + "`"@)
}

/// The view of an optional string.
pub open spec fn text_view(t: Option<String>) -> Option<Seq<char>> {
    match t {
        Some(t) => Some(t@),
        None => None,
    }
}

/// An object that holds only the discriminator.
pub open spec fn tagged(tag: Seq<char>) -> Map<Seq<char>, ValueView> {
    Map::<Seq<char>, ValueView>::empty().insert("tag"@, ValueView::Text(tag))
}

/// The encoding of an optional text: the text, or null.
pub open spec fn text_or_null(t: Option<Seq<char>>) -> ValueView {
    match t {
        Some(t) => ValueView::Text(t),
        None => ValueView::Null,
    }
}

/// The encoding of an optional number: the number, or null.
pub open spec fn number_or_null(n: Option<u64>) -> ValueView {
    match n {
        Some(n) => ValueView::Number(n),
        None => ValueView::Null,
    }
}

impl ValueView {
    /// The field `key` of an object.
    pub open spec fn field(self, key: Seq<char>) -> Result<ValueView, ErrorView> {
        match self {
            ValueView::Object(m) => if m.contains_key(key) {
                Ok(m[key])
            } else {
                Err(missing_field(key))
            },
            _ => Err(not_an_object()),
        }
    }

    /// The field `key` of an object, where it is there and not null.
    pub open spec fn optional(self, key: Seq<char>) -> Result<Option<ValueView>, ErrorView> {
        match self {
            ValueView::Object(m) => if m.contains_key(key) && !(m[key] is Null) {
                Ok(Some(m[key]))
            } else {
                Ok(None)
            },
            _ => Err(not_an_object()),
        }
    }

    /// The text in the field `key`.
    pub open spec fn text(self, key: Seq<char>) -> Result<Seq<char>, ErrorView> {
        match self.field(key) {
            Ok(ValueView::Text(t)) => Ok(t),
            Ok(_) => Err(invalid_type(key)),
            Err(e) => Err(e),
        }
    }

    /// The number in the field `key`.
    pub open spec fn number(self, key: Seq<char>) -> Result<u64, ErrorView> {
        match self.field(key) {
            Ok(ValueView::Number(n)) => Ok(n),
            Ok(_) => Err(invalid_type(key)),
            Err(e) => Err(e),
        }
    }

    /// The truth value in the field `key`.
    pub open spec fn boolean(self, key: Seq<char>) -> Result<bool, ErrorView> {
        match self.field(key) {
            Ok(ValueView::Bool(b)) => Ok(b),
            Ok(_) => Err(invalid_type(key)),
            Err(e) => Err(e),
        }
    }

    /// The items of the array in the field `key`.
    pub open spec fn array(self, key: Seq<char>) -> Result<Seq<ValueView>, ErrorView> {
        match self.field(key) {
            Ok(ValueView::Array(a)) => Ok(a),
            Ok(_) => Err(invalid_type(key)),
            Err(e) => Err(e),
        }
    }

    /// The text in the field `key`, or none where the field is absent or null.
    pub open spec fn optional_text(self, key: Seq<char>) -> Result<Option<Seq<char>>, ErrorView> {
        match self.optional(key) {
            Ok(Some(ValueView::Text(t))) => Ok(Some(t)),
            Ok(Some(_)) => Err(invalid_type(key)),
            Ok(None) => Ok(None),
            Err(e) => Err(e),
        }
    }

    /// The number in the field `key`, or none where the field is absent or
    /// null.
    pub open spec fn optional_number(self, key: Seq<char>) -> Result<Option<u64>, ErrorView> {
        match self.optional(key) {
            Ok(Some(ValueView::Number(n))) => Ok(Some(n)),
            Ok(Some(_)) => Err(invalid_type(key)),
            Ok(None) => Ok(None),
            Err(e) => Err(e),
        }
    }

    /// The discriminator of an object.
    pub open spec fn tag(self) -> Result<Seq<char>, ErrorView> {
        self.text("tag"@)
    }

    /// Succeeds on an object whose discriminator is `tag`.
    pub open spec fn expect_tag(self, tag: Seq<char>) -> Result<(), ErrorView> {
        match self.tag() {
            Ok(t) => if t == tag {
                Ok(())
            } else {
                Err(unexpected_tag(t))
            },
            Err(e) => Err(e),
        }
    }
}

/// The first failure among `rs`, or every success in order.
#[verifier::opaque]
pub open spec fn collect<T>(rs: Seq<Result<T, ErrorView>>) -> Result<Seq<T>, ErrorView> {
    if forall|i: int| 0 <= i < rs.len() ==> (#[trigger] rs[i]) is Ok {
        Ok(Seq::new(rs.len(), |i: int| rs[i]->Ok_0))
    } else {
        let bad = choose|i: int|
            0 <= i < rs.len() && (#[trigger] rs[i]) is Err && forall|j: int|
                0 <= j < i ==> (#[trigger] rs[j]) is Ok;
        Err(rs[bad]->Err_0)
    }
}

/// Where every result is a success, `collect` gives the successes.
pub proof fn lemma_collect_ok<T>(rs: Seq<Result<T, ErrorView>>, xs: Seq<T>)
    requires
        xs.len() == rs.len(),
        forall|i: int| 0 <= i < rs.len() ==> (#[trigger] rs[i]) == Ok::<T, ErrorView>(xs[i]),
    ensures
        collect(rs) == Ok::<Seq<T>, ErrorView>(xs),
{
    reveal(collect);
    assert(collect(rs)->Ok_0 =~= xs);
}

/// Where the result at `at` is the first failure, `collect` gives it.
pub proof fn lemma_collect_err<T>(rs: Seq<Result<T, ErrorView>>, at: int)
    requires
        0 <= at < rs.len(),
        rs[at] is Err,
        forall|j: int| 0 <= j < at ==> (#[trigger] rs[j]) is Ok,
    ensures
        collect(rs) == Err::<Seq<T>, ErrorView>(rs[at]->Err_0),
{
    reveal(collect);
    let bad = choose|i: int|
        0 <= i < rs.len() && (#[trigger] rs[i]) is Err && forall|j: int|
            0 <= j < i ==> (#[trigger] rs[j]) is Ok;
    if bad < at {
        assert(rs[bad] is Ok);
    }
    if at < bad {
        assert(rs[at] is Ok);
    }
}

/// The keys of the map of a field list are the names in the list.
pub proof fn lemma_fields_dom(s: Seq<(String, Value)>, key: Seq<char>)
    ensures
        Value::fields(s).contains_key(key) <==> exists|i: int|
            0 <= i < s.len() && (#[trigger] s[i]).0@ == key,
    decreases s.len(),
{
    if s.len() > 0 {
        let t = s.drop_last();
        lemma_fields_dom(t, key);
        assert(Value::fields(s) == Value::fields(t).insert(s.last().0@, s.last().1@));
        if exists|i: int| 0 <= i < s.len() && (#[trigger] s[i]).0@ == key {
            let i = choose|i: int| 0 <= i < s.len() && (#[trigger] s[i]).0@ == key;
            if i < s.len() - 1 {
                assert(t[i] == s[i]);
            }
        }
        if exists|i: int| 0 <= i < t.len() && (#[trigger] t[i]).0@ == key {
            let i = choose|i: int| 0 <= i < t.len() && (#[trigger] t[i]).0@ == key;
            assert(s[i] == t[i]);
        }
    }
}

impl Value {
    /// The values of a list, each by its view.
    pub open spec fn views(s: Seq<Value>) -> Seq<ValueView>
        decreases s,
    {
        Seq::new(
            s.len(),
            |i: int|
                if 0 <= i < s.len() {
                    s[i]@
                } else {
                    ValueView::Null
                },
        )
    }

    /// No object within the value has two fields of one name: the value
    /// can be written as a text in which no name occurs twice in an object.
    pub open spec fn unambiguous(&self) -> bool
        decreases self,
    {
        match self {
            Value::Array(a) => Value::all_unambiguous(a@),
            Value::Object(o) => Value::plain(o@),
            _ => true,
        }
    }

    /// Each value of the list is unambiguous.
    pub open spec fn all_unambiguous(s: Seq<Value>) -> bool
        decreases s,
    {
        forall|i: int| 0 <= i < s.len() ==> (#[trigger] s[i]).unambiguous()
    }

    /// The names of the fields are pairwise distinct, and each value is
    /// unambiguous.
    pub open spec fn plain(s: Seq<(String, Value)>) -> bool
        decreases s,
    {
        &&& distinct_keys(s)
        &&& forall|i: int| 0 <= i < s.len() ==> (#[trigger] s[i]).1.unambiguous()
    }

    /// The map that a list of fields stands for.
    pub open spec fn fields(s: Seq<(String, Value)>) -> Map<Seq<char>, ValueView>
        decreases s,
    {
        if s.len() == 0 {
            Map::empty()
        } else {
            Value::fields(s.drop_last()).insert(s.last().0@, s.last().1@)
        }
    }

    /// A copy of the list.
    pub fn clone_all(items: &Vec<Value>) -> (r: Vec<Value>)
        ensures
            Value::views(r@) == Value::views(items@),
        decreases items,
    {
        let mut out: Vec<Value> = Vec::new();
        let mut i: usize = 0;
        while i < items.len()
            invariant
                i <= items.len(),
                out.len() == i,
                forall|j: int| 0 <= j < i ==> (#[trigger] out@[j])@ == items@[j]@,
            decreases items.len() - i,
        {
            let item = items[i].clone();
            out.push(item);
            i = i + 1;
        }
        assert(Value::views(out@) =~= Value::views(items@));
        out
    }

    /// A copy of the field list.
    pub fn clone_fields(fields: &Vec<(String, Value)>) -> (r: Vec<(String, Value)>)
        ensures
            Value::fields(r@) == Value::fields(fields@),
        decreases fields,
    {
        let mut out: Vec<(String, Value)> = Vec::new();
        let mut i: usize = 0;
        assert(fields@.take(0) =~= out@);
        while i < fields.len()
            invariant
                i <= fields.len(),
                Value::fields(out@) == Value::fields(fields@.take(i as int)),
            decreases fields.len() - i,
        {
            let name = fields[i].0.clone();
            let value = fields[i].1.clone();
            let ghost before = out@;
            out.push((name, value));
            proof {
                let t = fields@.take(i as int + 1);
                assert(t.drop_last() =~= fields@.take(i as int));
                assert(Value::fields(t) == Value::fields(t.drop_last()).insert(
                    t.last().0@,
                    t.last().1@,
                ));
                assert(out@.drop_last() =~= before);
                assert(Value::fields(out@) == Value::fields(out@.drop_last()).insert(
                    out@.last().0@,
                    out@.last().1@,
                ));
            }
            i = i + 1;
        }
        assert(fields@.take(i as int) =~= fields@);
        out
    }

    /// A text value.
    pub fn text(s: &str) -> (v: Value)
        ensures
            v@ == ValueView::Text(s@),
    {
        Value::Text(s.to_owned())
    }

    /// The text, or null where there is none.
    pub fn text_or_null(t: &Option<String>) -> (v: Value)
        ensures
            v@ == text_or_null(text_view(*t)),
    {
        match t {
            Some(t) => Value::Text(t.clone()),
            None => Value::Null,
        }
    }

    /// The number, or null where there is none.
    pub fn number_or_null(n: &Option<u64>) -> (v: Value)
        ensures
            v@ == number_or_null(*n),
    {
        match n {
            Some(n) => Value::Number(*n),
            None => Value::Null,
        }
    }

    /// A field list that holds only the discriminator.
    pub fn tagged(tag: &str) -> (fields: Vec<(String, Value)>)
        ensures
            Value::fields(fields@) == tagged(tag@),
            Value::plain(fields@),
    {
        let mut fields: Vec<(String, Value)> = Vec::new();
        Value::put(&mut fields, "tag", Value::text(tag));
        fields
    }

    /// Appends a field, which replaces an earlier one of the same name.
    /// Where the name is new and the value unambiguous, plain fields stay
    /// plain.
    pub fn put(fields: &mut Vec<(String, Value)>, key: &str, value: Value)
        ensures
            Value::fields(final(fields)@) == Value::fields(old(fields)@).insert(key@, value@),
            Value::plain(old(fields)@) && value.unambiguous() && !Value::fields(
                old(fields)@,
            ).contains_key(key@) ==> Value::plain(final(fields)@),
    {
        proof {
            lemma_fields_dom(fields@, key@);
        }
        fields.push((key.to_owned(), value));
        proof {
            let before = old(fields)@;
            let after = fields@;
            if Value::plain(before) && value.unambiguous() && !Value::fields(before).contains_key(
                key@,
            ) {
                assert forall|i: int, j: int| 0 <= i < j < after.len() implies (
                #[trigger] after[i]).0@ != (#[trigger] after[j]).0@ by {
                    assert(after[i] == before[i]);
                    if j < before.len() {
                        assert(after[j] == before[j]);
                    }
                }
                assert forall|i: int| 0 <= i < after.len() implies (
                #[trigger] after[i]).1.unambiguous() by {
                    if i < before.len() {
                        assert(after[i] == before[i]);
                    }
                }
            }
        }
        assert(fields@.drop_last() =~= old(fields)@);
        assert(Value::fields(fields@) == Value::fields(fields@.drop_last()).insert(
            fields@.last().0@,
            fields@.last().1@,
        ));
    }

    /// The value of the last field named `key`, if this is an object that
    /// has one.
    pub fn lookup(&self, key: &str) -> (r: Result<Option<&Value>, Error>)
        ensures
            match self@ {
                ValueView::Object(m) => match r {
                    Ok(Some(f)) => m.contains_key(key@) && f@ == m[key@],
                    Ok(None) => !m.contains_key(key@),
                    Err(_) => false,
                },
                _ => r is Err && r->Err_0@ == not_an_object(),
            },
    {
        match self {
            Value::Object(fields) => {
                let mut i: usize = fields.len();
                assert(fields@.take(i as int) =~= fields@);
                while i > 0
                    invariant
                        i <= fields.len(),
                        *self == Value::Object(*fields),
                        Value::fields(fields@).contains_key(key@) <==> Value::fields(
                            fields@.take(i as int),
                        ).contains_key(key@),
                        Value::fields(fields@).contains_key(key@) ==> Value::fields(fields@)[key@]
                            == Value::fields(fields@.take(i as int))[key@],
                    decreases i,
                {
                    proof {
                        let t = fields@.take(i as int);
                        assert(t.drop_last() =~= fields@.take(i as int - 1));
                        assert(t.last() == fields@[i as int - 1]);
                        assert(Value::fields(t) == Value::fields(t.drop_last()).insert(
                            t.last().0@,
                            t.last().1@,
                        ));
                    }
                    i = i - 1;
                    if same(&fields[i].0, key) {
                        return Ok(Some(&fields[i].1));
                    }
                }
                assert(fields@.take(0) =~= Seq::<(String, Value)>::empty());
                Ok(None)
            },
            _ => Err(Error::wrapper("expected an object")),
        }
    }

    /// The field `key` of an object; it is a failure if the value is no object
    /// or has no such field.
    pub fn field(&self, key: &str) -> (r: Result<&Value, Error>)
        ensures
            match self@.field(key@) {
                Ok(f) => r is Ok && r->Ok_0@ == f,
                Err(e) => r is Err && r->Err_0@ == e,
            },
    {
        match self.lookup(key)? {
            Some(f) => Ok(f),
            None => Err(Error::Wrapper(joined("missing field `", key, "`"))),
        }
    }

    /// The field `key` of an object, where it is there and not null.
    pub fn optional(&self, key: &str) -> (r: Result<Option<&Value>, Error>)
        ensures
            match self@.optional(key@) {
                Ok(Some(f)) => r is Ok && r->Ok_0 is Some && r->Ok_0->Some_0@ == f,
                Ok(None) => r is Ok && r->Ok_0 is None,
                Err(e) => r is Err && r->Err_0@ == e,
            },
    {
        match self.lookup(key)? {
            Some(Value::Null) => Ok(None),
            Some(f) => Ok(Some(f)),
            None => Ok(None),
        }
    }

    /// The failure for a field of the wrong type.
    pub fn invalid_type(key: &str) -> (e: Error)
        ensures
            e@ == invalid_type(key@),
    {
        Error::Wrapper(joined("invalid type for field `", key, "`"))
    }

    /// The failure for a text that stands for no value of an enumeration.
    pub fn unknown_variant(text: &str) -> (e: Error)
        ensures
            e@ == unknown_variant(text@),
    {
        Error::Wrapper(joined("unknown variant `", text, "`"))
    }

    /// The failure for a tag that does not name the expected node.
    pub fn unexpected_tag(tag: &str) -> (e: Error)
        ensures
            e@ == unexpected_tag(tag@),
    {
        Error::Wrapper(joined("unexpected tag `", tag, "`"))
    }

    /// The text in the field `key`.
    pub fn text_field(&self, key: &str) -> (r: Result<&String, Error>)
        ensures
            match self@.text(key@) {
                Ok(t) => r is Ok && r->Ok_0@ == t,
                Err(e) => r is Err && r->Err_0@ == e,
            },
    {
        match self.field(key)? {
            Value::Text(t) => Ok(t),
            _ => Err(Value::invalid_type(key)),
        }
    }

    /// The number in the field `key`.
    pub fn number_field(&self, key: &str) -> (r: Result<u64, Error>)
        ensures
            match self@.number(key@) {
                Ok(n) => r == Ok::<u64, Error>(n),
                Err(e) => r is Err && r->Err_0@ == e,
            },
    {
        match self.field(key)? {
            Value::Number(n) => Ok(*n),
            _ => Err(Value::invalid_type(key)),
        }
    }

    /// The truth value in the field `key`.
    pub fn bool_field(&self, key: &str) -> (r: Result<bool, Error>)
        ensures
            match self@.boolean(key@) {
                Ok(b) => r == Ok::<bool, Error>(b),
                Err(e) => r is Err && r->Err_0@ == e,
            },
    {
        match self.field(key)? {
            Value::Bool(b) => Ok(*b),
            _ => Err(Value::invalid_type(key)),
        }
    }

    /// The items of the array in the field `key`.
    pub fn array_field(&self, key: &str) -> (r: Result<&Vec<Value>, Error>)
        ensures
            match self@.array(key@) {
                Ok(a) => r is Ok && Value::views(r->Ok_0@) == a,
                Err(e) => r is Err && r->Err_0@ == e,
            },
    {
        match self.field(key)? {
            Value::Array(a) => Ok(a),
            _ => Err(Value::invalid_type(key)),
        }
    }

    /// The text in the field `key`, or none where the field is absent or null.
    pub fn optional_text_field(&self, key: &str) -> (r: Result<Option<String>, Error>)
        ensures
            match self@.optional_text(key@) {
                Ok(t) => r is Ok && text_view(r->Ok_0) == t,
                Err(e) => r is Err && r->Err_0@ == e,
            },
    {
        match self.optional(key)? {
            Some(Value::Text(t)) => Ok(Some(t.clone())),
            Some(_) => Err(Value::invalid_type(key)),
            None => Ok(None),
        }
    }

    /// The number in the field `key`, or none where the field is absent or
    /// null.
    pub fn optional_number_field(&self, key: &str) -> (r: Result<Option<u64>, Error>)
        ensures
            match self@.optional_number(key@) {
                Ok(n) => r == Ok::<Option<u64>, Error>(n),
                Err(e) => r is Err && r->Err_0@ == e,
            },
    {
        match self.optional(key)? {
            Some(Value::Number(n)) => Ok(Some(*n)),
            Some(_) => Err(Value::invalid_type(key)),
            None => Ok(None),
        }
    }

    /// The discriminator of an object.
    pub fn tag(&self) -> (r: Result<&String, Error>)
        ensures
            match self@.tag() {
                Ok(t) => r is Ok && r->Ok_0@ == t,
                Err(e) => r is Err && r->Err_0@ == e,
            },
    {
        self.text_field("tag")
    }

    /// Succeeds on an object whose discriminator is `tag`.
    pub fn expect_tag(&self, tag: &str) -> (r: Result<(), Error>)
        ensures
            match self@.expect_tag(tag@) {
                Ok(_) => r is Ok,
                Err(e) => r is Err && r->Err_0@ == e,
            },
    {
        let found = self.tag()?;
        if same(found, tag) {
            Ok(())
        } else {
            Err(Value::unexpected_tag(found.as_str()))
        }
    }
}

/// Whether a string is the given text.
pub fn same(s: &String, text: &str) -> (b: bool)
    ensures
        b == (s@ == text@),
{
    str_eq(s.as_str(), text)
}

} // verus!
