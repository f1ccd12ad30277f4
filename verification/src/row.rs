//! Rows as the store hands them out: named columns, each holding a typed value
//! that may be null.

use vstd::prelude::*;

verus! {

/// A point in time without a zone: whole seconds since the start of 1970 and
/// the nanoseconds into that second. A later time has the greater pair.
#[derive(Clone, Copy, Debug, PartialEq, Eq)]
pub struct Timestamp {
    pub secs: i64,
    pub nanos: u32,
}

impl Timestamp {
    /// `self` is no earlier than `other`.
    pub open spec fn at_or_after(self, other: Timestamp) -> bool {
        self.secs > other.secs || (self.secs == other.secs && self.nanos >= other.nanos)
    }
}

impl View for Timestamp {
    type V = Timestamp;

    open spec fn view(&self) -> Timestamp {
        *self
    }
}

impl DeepView for Timestamp {
    type V = Timestamp;

    open spec fn deep_view(&self) -> Timestamp {
        *self
    }
}

/// `a` sorts no later than `b` where the newest comes first. A missing time
/// sorts before every other, as the store sorts a null in descending order.
pub open spec fn newest_first(a: Option<Timestamp>, b: Option<Timestamp>) -> bool {
    match (a, b) {
        (None, _) => true,
        (Some(_), None) => false,
        (Some(x), Some(y)) => x.at_or_after(y),
    }
}

/// What one column of a row holds. `None` is the store's null; the column's
/// type is known also then.
#[derive(Clone, Debug, PartialEq, Eq)]
pub enum Value {
    /// A column of a text type.
    Text(Option<String>),
    /// A column of the type timestamp without time zone.
    Timestamp(Option<Timestamp>),
    /// A column of any type that no record of this service reads.
    Other,
}

/// The view of a `Value`.
pub enum ValueView {
    Text(Option<Seq<char>>),
    Timestamp(Option<Timestamp>),
    Other,
}

impl View for Value {
    type V = ValueView;

    open spec fn view(&self) -> ValueView {
        match self {
            Value::Text(t) => ValueView::Text(t.deep_view()),
            Value::Timestamp(t) => ValueView::Timestamp(*t),
            Value::Other => ValueView::Other,
        }
    }
}

impl DeepView for Value {
    type V = ValueView;

    open spec fn deep_view(&self) -> ValueView {
        self@
    }
}

/// One column of a row: its name and what it holds.
#[derive(Clone, Debug, PartialEq, Eq)]
pub struct Column {
    pub name: String,
    pub value: Value,
}

/// The view of a `Column`.
pub struct ColumnView {
    pub name: Seq<char>,
    pub value: ValueView,
}

impl View for Column {
    type V = ColumnView;

    open spec fn view(&self) -> ColumnView {
        ColumnView { name: self.name@, value: self.value@ }
    }
}

impl DeepView for Column {
    type V = ColumnView;

    open spec fn deep_view(&self) -> ColumnView {
        self@
    }
}

/// A row of a result: its columns in the order in which the store gave them.
#[derive(Clone, Debug, PartialEq, Eq)]
pub struct Row {
    pub columns: Vec<Column>,
}

impl View for Row {
    type V = Seq<ColumnView>;

    open spec fn view(&self) -> Seq<ColumnView> {
        self.columns.deep_view()
    }
}

impl DeepView for Row {
    type V = Seq<ColumnView>;

    open spec fn deep_view(&self) -> Seq<ColumnView> {
        self@
    }
}

/// `i` is the first column of `row` that bears `name`.
pub open spec fn is_first_named(row: Seq<ColumnView>, name: Seq<char>, i: int) -> bool {
    &&& 0 <= i < row.len()
    &&& row[i].name == name
    &&& forall|j: int| 0 <= j < i ==> row[j].name != name
}

/// The index of the first column of `row` that bears `name`, if one does.
pub open spec fn position(row: Seq<ColumnView>, name: Seq<char>) -> Option<int> {
    if exists|i: int| is_first_named(row, name, i) {
        Some(choose|i: int| is_first_named(row, name, i))
    } else {
        None
    }
}

/// What the first column of `row` that bears `name` holds, if one does.
pub open spec fn value_of(row: Seq<ColumnView>, name: Seq<char>) -> Option<ValueView> {
    match position(row, name) {
        Some(i) => Some(row[i].value),
        None => None,
    }
}

/// The text that `row` holds under `name`: `None` where it has no such
/// column, where the column is not of a text type, and where it holds null.
pub open spec fn text_of(row: Seq<ColumnView>, name: Seq<char>) -> Option<Seq<char>> {
    match value_of(row, name) {
        Some(ValueView::Text(Some(t))) => Some(t),
        _ => None,
    }
}

/// The text or null that `row` holds under `name`: `None` where it has no
/// such column and where the column is not of a text type.
pub open spec fn optional_text_of(row: Seq<ColumnView>, name: Seq<char>) -> Option<
    Option<Seq<char>>,
> {
    match value_of(row, name) {
        Some(ValueView::Text(t)) => Some(t),
        _ => None,
    }
}

/// The time or null that `row` holds under `name`: `None` where it has no
/// such column and where the column is not a timestamp.
pub open spec fn optional_timestamp_of(row: Seq<ColumnView>, name: Seq<char>) -> Option<
    Option<Timestamp>,
> {
    match value_of(row, name) {
        Some(ValueView::Timestamp(t)) => Some(t),
        _ => None,
    }
}

/// The first column that bears a name is the only index that answers its
/// description.
pub proof fn lemma_position_is(row: Seq<ColumnView>, name: Seq<char>, i: int)
    requires
        is_first_named(row, name, i),
    ensures
        position(row, name) == Some(i),
        value_of(row, name) == Some(row[i].value),
{
    let k = choose|k: int| is_first_named(row, name, k);
    assert(is_first_named(row, name, k));
    if k < i {
        assert(row[k].name != name);
    }
    if i < k {
        assert(row[i].name != name);
    }
}

/// A row none of whose columns bears a name has no position for it.
pub proof fn lemma_position_none(row: Seq<ColumnView>, name: Seq<char>)
    requires
        forall|j: int| 0 <= j < row.len() ==> row[j].name != name,
    ensures
        position(row, name) is None,
        value_of(row, name) is None,
{
    if exists|i: int| is_first_named(row, name, i) {
        let i = choose|i: int| is_first_named(row, name, i);
        assert(row[i].name != name);
    }
}

impl Row {
    /// The value of the first column named `name`; `None` where the row has no
    /// such column.
    pub fn get(&self, name: &str) -> (r: Option<&Value>)
        ensures
            r.deep_view() == value_of(self@, name@),
    {
        let wanted = String::from_str(name);
        let mut i: usize = 0;
        while i < self.columns.len()
            invariant
                i <= self.columns.len(),
                wanted@ == name@,
                forall|j: int| 0 <= j < i ==> self@[j].name != name@,
            decreases self.columns.len() - i,
        {
            if self.columns[i].name == wanted {
                proof {
                    lemma_position_is(self@, name@, i as int);
                }
                return Some(&self.columns[i].value);
            }
            i += 1;
        }
        proof {
            lemma_position_none(self@, name@);
        }
        None
    }

    /// The text under `name`, which must be there and not null.
    pub fn text(&self, name: &str) -> (r: Option<String>)
        ensures
            r.deep_view() == text_of(self@, name@),
    {
        match self.get(name) {
            Some(Value::Text(Some(t))) => Some(t.clone()),
            _ => None,
        }
    }

    /// The text under `name`, which may be null.
    pub fn optional_text(&self, name: &str) -> (r: Option<Option<String>>)
        ensures
            r.deep_view() == optional_text_of(self@, name@),
    {
        match self.get(name) {
            Some(Value::Text(Some(t))) => Some(Some(t.clone())),
            Some(Value::Text(None)) => Some(None),
            _ => None,
        }
    }

    /// The time under `name`, which may be null.
    pub fn optional_timestamp(&self, name: &str) -> (r: Option<Option<Timestamp>>)
        ensures
            r == optional_timestamp_of(self@, name@),
    {
        match self.get(name) {
            Some(Value::Timestamp(t)) => Some(*t),
            _ => None,
        }
    }
}

} // verus!
