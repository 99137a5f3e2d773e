//! Source cells, target columns and the coercion rules between them.

use vstd::prelude::*;

verus! {

/// The type a target column declares.
#[derive(Clone, Copy, Debug, PartialEq, Eq, Structural)]
pub enum TargetType {
    Boolean,
    SmallInt,
    Int,
    /// 64-bit integer.
    Integer,
    Real,
    Double,
    Numeric,
    Text,
    Date,
    Timestamp,
    TimestampTz,
    Json,
    Uuid,
    Other,
}

/// A column that the query engine asks for.
#[derive(Debug)]
pub struct Column {
    /// 1-based position of the column in the table.
    pub position: u32,
    pub name: String,
    pub kind: TargetType,
}

/// A typed value of a target row.
#[derive(Debug)]
pub enum Cell {
    Integer(i64),
    Text(String),
}

/// What a source cell holds, as far as coercion reads it.
#[derive(Debug)]
pub enum SourceValue {
    /// A JSON number, converted to an integer by truncation toward zero
    /// (saturating at the bounds of `i64`).
    Number(i64),
    /// A JSON string.
    Text(String),
    /// `null`, a boolean, an array or an object.
    Other,
}

/// One source record, in the shape the remote document gave it.
#[derive(Debug)]
pub enum Record {
    /// `{"c": [cell, ...]}`: cells addressed by position. An entry is `None`
    /// where the cell is `null` or has no `"v"` member, else the value of `"v"`.
    Positional(Vec<Option<SourceValue>>),
    /// A JSON object: cells addressed by member name.
    Keyed(Vec<(String, SourceValue)>),
}

/// Whether a coercion rule is defined for the type.
pub open spec fn has_coercion(t: TargetType) -> bool {
    t is Integer || t is Text
}

/// Whether the source value has the JSON kind that the target type reads.
pub open spec fn kind_matches(t: TargetType, v: SourceValue) -> bool {
    (t is Integer && v is Number) || (t is Text && v is Text)
}

/// Whether a cell is of the target type.
pub open spec fn cell_has_type(c: Cell, t: TargetType) -> bool {
    (c is Integer && t is Integer) || (c is Text && t is Text)
}

/// The cell that a present source value gives under a type with a coercion rule.
pub open spec fn coerce(t: TargetType, v: SourceValue) -> Option<Cell> {
    match v {
        SourceValue::Number(i) => if t is Integer {
            Some(Cell::Integer(i))
        } else {
            None
        },
        SourceValue::Text(s) => if t is Text {
            Some(Cell::Text(s))
        } else {
            None
        },
        SourceValue::Other => None,
    }
}

/// Index of the first member named `name`, if any.
pub open spec fn member_index<V>(members: Seq<(String, V)>, name: Seq<char>) -> Option<int> {
    if exists|i: int| 0 <= i < members.len() && #[trigger] members[i].0@ == name {
        Some(choose|i: int| 0 <= i < members.len() && #[trigger] members[i].0@ == name
            && forall|j: int| 0 <= j < i ==> members[j].0@ != name)
    } else {
        None
    }
}

/// The source value that a column addresses in a record, if there is one.
pub open spec fn source_cell(r: Record, c: Column) -> Option<SourceValue> {
    match r {
        Record::Positional(cells) => if 1 <= c.position && c.position - 1 < cells@.len() {
            cells@[c.position - 1]
        } else {
            None
        },
        Record::Keyed(members) => match member_index(members@, c.name@) {
            Some(i) => Some(members@[i].1),
            None => None,
        },
    }
}

/// The target cell for a column with a coercion rule: absent where the source
/// cell is missing or of another JSON kind.
pub open spec fn cell_for(r: Record, c: Column) -> Option<Cell> {
    match source_cell(r, c) {
        Some(v) => coerce(c.kind, v),
        None => None,
    }
}

/// The target row that a record gives for the requested columns, in their order.
pub open spec fn row_for(r: Record, cols: Seq<Column>) -> Seq<Option<Cell>> {
    Seq::new(cols.len(), |i: int| cell_for(r, cols[i]))
}

/// Under a type with a coercion rule, a present source value of the matching
/// JSON kind gives a present cell of that type, and one of another kind gives
/// an absent cell.
pub proof fn lemma_coercion_by_kind(r: Record, cols: Seq<Column>, i: int)
    requires
        0 <= i < cols.len(),
        has_coercion(cols[i].kind),
        source_cell(r, cols[i]) is Some,
    ensures
        kind_matches(cols[i].kind, source_cell(r, cols[i])->Some_0) ==> (row_for(r, cols)[i] matches Some(c)
            && cell_has_type(c, cols[i].kind)),
        !kind_matches(cols[i].kind, source_cell(r, cols[i])->Some_0) ==> row_for(r, cols)[i] is None,
{
}

/// Whether every requested column has a coercion rule.
pub open spec fn all_supported(cols: Seq<Column>) -> bool {
    forall|i: int| 0 <= i < cols.len() ==> has_coercion(#[trigger] cols[i].kind)
}

/// `j` is the first requested column without a coercion rule.
pub open spec fn first_unsupported(cols: Seq<Column>, j: int) -> bool {
    &&& 0 <= j < cols.len()
    &&& !has_coercion(cols[j].kind)
    &&& forall|k: int| 0 <= k < j ==> has_coercion(#[trigger] cols[k].kind)
}

} // verus!

verus! {

impl TargetType {
    /// Whether a coercion rule is defined for this type.
    pub fn has_coercion(&self) -> (r: bool)
        ensures
            r == has_coercion(*self),
    {
        match self {
            TargetType::Integer => true,
            TargetType::Text => true,
            _ => false,
        }
    }
}

impl SourceValue {
    /// The cell this value gives under type `t`.
    pub fn coerce(&self, t: TargetType) -> (r: Option<Cell>)
        ensures
            r == coerce(t, *self),
    {
        match self {
            SourceValue::Number(i) => match t {
                TargetType::Integer => Some(Cell::Integer(*i)),
                _ => None,
            },
            SourceValue::Text(s) => match t {
                TargetType::Text => Some(Cell::Text(s.clone())),
                _ => None,
            },
            SourceValue::Other => None,
        }
    }
}

/// The first member named `name`, if any.
pub fn find_member<'a, V>(members: &'a Vec<(String, V)>, name: &String) -> (r: Option<&'a V>)
    ensures
        match member_index(members@, name@) {
            Some(i) => r == Some(&members@[i].1),
            None => r is None,
        },
{
    let mut i: usize = 0;
    while i < members.len()
        invariant
            0 <= i <= members@.len(),
            forall|j: int| 0 <= j < i ==> members@[j].0@ != name@,
        decreases members@.len() - i,
    {
        if members[i].0 == *name {
            assert(members@[i as int].0@ == name@);
            assert(member_index(members@, name@) == Some(i as int)) by {
                let c = choose|c: int| 0 <= c < members@.len() && #[trigger] members@[c].0@ == name@
                    && forall|j: int| 0 <= j < c ==> members@[j].0@ != name@;
                assert(0 <= i < members@.len() && members@[i as int].0@ == name@
                    && forall|j: int| 0 <= j < i ==> members@[j].0@ != name@);
            }
            return Some(&members[i].1);
        }
        i += 1;
    }
    None
}

impl Record {
    /// The source value that `c` addresses in this record, if there is one.
    pub fn source_cell(&self, c: &Column) -> (r: Option<&SourceValue>)
        ensures
            match source_cell(*self, *c) {
                Some(v) => r == Some(&v),
                None => r is None,
            },
    {
        match self {
            Record::Positional(cells) => {
                if 1 <= c.position && ((c.position - 1) as usize) < cells.len() {
                    match &cells[(c.position - 1) as usize] {
                        Some(v) => Some(v),
                        None => None,
                    }
                } else {
                    None
                }
            },
            Record::Keyed(members) => find_member(members, &c.name),
        }
    }

    /// The target cell for a column with a coercion rule.
    pub fn cell_for(&self, c: &Column) -> (r: Option<Cell>)
        ensures
            r == cell_for(*self, *c),
    {
        match self.source_cell(c) {
            Some(v) => v.coerce(c.kind),
            None => None,
        }
    }
}

} // verus!
