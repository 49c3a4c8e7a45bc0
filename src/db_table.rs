use vstd::prelude::*;

verus! {

/// The category of a table row.
#[derive(Debug, Clone, Copy, PartialEq, Eq, Structural, Default)]
pub enum Category {
    #[default]
    A,
    B,
    C,
    D,
    E,
}

/// The category that row `index` of a generated table gets: they go round in order.
pub open spec fn category_for(index: usize) -> Category {
    let k = index % 5;
    if k == 0 {
        Category::A
    } else if k == 1 {
        Category::B
    } else if k == 2 {
        Category::C
    } else if k == 3 {
        Category::D
    } else {
        Category::E
    }
}

impl Category {
    /// Every category, in order.
    pub fn all() -> (r: Vec<Category>)
        ensures
            r@ == seq![Category::A, Category::B, Category::C, Category::D, Category::E],
    {
        vec![Category::A, Category::B, Category::C, Category::D, Category::E]
    }

    /// The category's name: its letter.
    pub fn label(&self) -> (r: &'static str)
        ensures
            r@ == match *self {
                Category::A => "A"@,
                Category::B => "B"@,
                Category::C => "C"@,
                Category::D => "D"@,
                Category::E => "E"@,
            },
    {
        match self {
            Category::A => "A",
            Category::B => "B",
            Category::C => "C",
            Category::D => "D",
            Category::E => "E",
        }
    }
}

/// The columns of the table.
#[derive(Debug, Clone, Copy, PartialEq, Eq, Structural, Default)]
pub enum ColumnKind {
    #[default]
    Index,
    Category,
    Enabled,
    Notes,
    Delete,
}

impl ColumnKind {
    /// The text at the head of the column.
    pub fn header(&self) -> (r: &'static str)
        ensures
            r@ == match *self {
                ColumnKind::Index => "Index"@,
                ColumnKind::Category => "Category"@,
                ColumnKind::Enabled => "Enabled"@,
                ColumnKind::Notes => "Notes"@,
                ColumnKind::Delete => ""@,
            },
    {
        match self {
            ColumnKind::Index => "Index",
            ColumnKind::Category => "Category",
            ColumnKind::Enabled => "Enabled",
            ColumnKind::Notes => "Notes",
            ColumnKind::Delete => "",
        }
    }
}

/// The text cell of a row.
#[derive(Debug, Clone, Default)]
pub struct DBCell {
    pub cell: String,
}

/// A row of the table.
#[derive(Debug, Clone, Default)]
pub struct DBRow {
    pub data: DBCell,
    pub category: Category,
    pub is_enabled: bool,
}

impl DBRow {
    /// Row `index` of a generated table: an empty cell, the categories in
    /// turn, and every other row enabled, starting with the first.
    pub fn generate(index: usize) -> (r: DBRow)
        ensures
            r.data.cell@ == Seq::<char>::empty(),
            r.category == category_for(index),
            r.is_enabled == (index % 2 == 0),
    {
        let k = index % 5;
        let category = if k == 0 {
            Category::A
        } else if k == 1 {
            Category::B
        } else if k == 2 {
            Category::C
        } else if k == 3 {
            Category::D
        } else {
            Category::E
        };
        DBRow { data: DBCell { cell: String::new() }, category, is_enabled: index % 2 == 0 }
    }
}

/// How many of `rows` are enabled.
pub open spec fn enabled_count(rows: Seq<DBRow>) -> nat
    decreases rows.len(),
{
    if rows.len() == 0 {
        0
    } else {
        enabled_count(rows.drop_last()) + if rows.last().is_enabled {
            1nat
        } else {
            0nat
        }
    }
}

/// The number of enabled rows, shown at the foot of the table.
pub fn total_enabled(rows: &[DBRow]) -> (r: usize)
    ensures
        r == enabled_count(rows@),
{
    let mut count: usize = 0;
    let mut i: usize = 0;
    while i < rows.len()
        invariant
            i <= rows@.len(),
            count == enabled_count(rows@.subrange(0, i as int)),
            count <= i,
        decreases rows@.len() - i,
    {
        assert(rows@.subrange(0, i + 1).drop_last() =~= rows@.subrange(0, i as int));
        if rows[i].is_enabled {
            count = count + 1;
        }
        i = i + 1;
    }
    assert(rows@.subrange(0, i as int) =~= rows@);
    count
}

/// Sets the category of row `index`; an index past the end changes nothing.
pub fn set_category(rows: &mut Vec<DBRow>, index: usize, category: Category)
    ensures
        final(rows)@.len() == old(rows)@.len(),
        forall|i: int|
            0 <= i < old(rows)@.len() ==> #[trigger] final(rows)@[i] == if i == index {
                DBRow { category, ..old(rows)@[i] }
            } else {
                old(rows)@[i]
            },
{
    if index < rows.len() {
        rows[index].category = category;
    }
}

/// Sets whether row `index` is enabled; an index past the end changes nothing.
pub fn set_enabled(rows: &mut Vec<DBRow>, index: usize, is_enabled: bool)
    ensures
        final(rows)@.len() == old(rows)@.len(),
        forall|i: int|
            0 <= i < old(rows)@.len() ==> #[trigger] final(rows)@[i] == if i == index {
                DBRow { is_enabled, ..old(rows)@[i] }
            } else {
                old(rows)@[i]
            },
{
    if index < rows.len() {
        rows[index].is_enabled = is_enabled;
    }
}

/// Sets the notes of row `index`; an index past the end changes nothing.
pub fn set_notes(rows: &mut Vec<DBRow>, index: usize, notes: String)
    ensures
        final(rows)@.len() == old(rows)@.len(),
        forall|i: int|
            0 <= i < old(rows)@.len() ==> #[trigger] final(rows)@[i] == if i == index {
                DBRow { data: DBCell { cell: notes }, ..old(rows)@[i] }
            } else {
                old(rows)@[i]
            },
{
    if index < rows.len() {
        rows[index].data.cell = notes;
    }
}

/// Removes row `index`; the rows after it move up by one.
pub fn delete_row(rows: &mut Vec<DBRow>, index: usize)
    requires
        index < old(rows)@.len(),
    ensures
        final(rows)@ == old(rows)@.remove(index as int),
{
    rows.remove(index);
}

} // verus!
