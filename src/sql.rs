//! The statements that persist the table in a relational store. Column
//! names come only from the fixed attribute list, never from input.
use vstd::prelude::*;

use crate::columns::{Column, ATTRIBUTE_COUNT};

verus! {

/// `", " + name + suffix` for each of the first `k` attributes, in table order.
pub open spec fn column_list(k: int, suffix: Seq<char>) -> Seq<char>
    decreases k,
{
    if k <= 0 {
        Seq::empty()
    } else {
        column_list(k - 1, suffix) + ", "@ + Column::at(k - 1).name_of() + suffix
    }
}

/// `", ?"` repeated `k` times.
pub open spec fn more_placeholders(k: int) -> Seq<char>
    decreases k,
{
    if k <= 0 {
        Seq::empty()
    } else {
        more_placeholders(k - 1) + ", ?"@
    }
}

pub open spec fn create_table_text() -> Seq<char> {
    "CREATE TABLE IF NOT EXISTS Eucarinogammarus (id INTEGER PRIMARY KEY"@ + column_list(
        ATTRIBUTE_COUNT as int,
        " TEXT"@,
    ) + ")"@
}

pub open spec fn select_all_text() -> Seq<char> {
    "SELECT id"@ + column_list(ATTRIBUTE_COUNT as int, ""@) + " FROM Eucarinogammarus ORDER BY id"@
}

pub open spec fn insert_text() -> Seq<char> {
    "INSERT INTO Eucarinogammarus (id"@ + column_list(ATTRIBUTE_COUNT as int, ""@) + ") VALUES (?"@
        + more_placeholders(ATTRIBUTE_COUNT as int) + ")"@
}

pub open spec fn update_text(c: Column) -> Seq<char> {
    "UPDATE Eucarinogammarus SET "@ + c.name_of() + " = ?1 WHERE id = ?2"@
}

pub open spec fn delete_text() -> Seq<char> {
    "DELETE FROM Eucarinogammarus WHERE id = ?1"@
}

/// Appends `", " + name + suffix` for every attribute to `s`.
fn push_column_list(s: &mut String, suffix: &str)
    ensures
        final(s)@ == old(s)@ + column_list(ATTRIBUTE_COUNT as int, suffix@),
{
    let ghost start = s@;
    let mut i: usize = 0;
    assert(start == start + column_list(0, suffix@));
    while i < ATTRIBUTE_COUNT
        invariant
            i <= ATTRIBUTE_COUNT,
            s@ == start + column_list(i as int, suffix@),
        decreases ATTRIBUTE_COUNT - i,
    {
        let ghost before = s@;
        let c = Column::from_index(i);
        s.append(", ");
        s.append(c.name());
        s.append(suffix);
        assert(s@ == before + ", "@ + c.name_of() + suffix@);
        assert(start + column_list(i + 1, suffix@) == start + column_list(i as int, suffix@) + ", "@
            + c.name_of() + suffix@);
        i = i + 1;
    }
}

/// The statement that creates the table, with an integer key `id` and one
/// text column per attribute, unless it exists.
pub fn create_table_sql() -> (r: String)
    ensures
        r@ == create_table_text(),
{
    let mut s = String::from_str("CREATE TABLE IF NOT EXISTS Eucarinogammarus (id INTEGER PRIMARY KEY");
    push_column_list(&mut s, " TEXT");
    s.append(")");
    s
}

/// The query for every row, identifier first and then the attributes in
/// table order, by increasing identifier.
pub fn select_all_sql() -> (r: String)
    ensures
        r@ == select_all_text(),
{
    let mut s = String::from_str("SELECT id");
    push_column_list(&mut s, "");
    s.append(" FROM Eucarinogammarus ORDER BY id");
    s
}

/// The statement that inserts one row: the identifier, then the attributes
/// in table order, as positional parameters.
pub fn insert_sql() -> (r: String)
    ensures
        r@ == insert_text(),
{
    let mut s = String::from_str("INSERT INTO Eucarinogammarus (id");
    push_column_list(&mut s, "");
    s.append(") VALUES (?");
    let ghost start = s@;
    assert(start == start + more_placeholders(0));
    let mut i: usize = 0;
    while i < ATTRIBUTE_COUNT
        invariant
            i <= ATTRIBUTE_COUNT,
            s@ == start + more_placeholders(i as int),
        decreases ATTRIBUTE_COUNT - i,
    {
        s.append(", ?");
        assert(start + more_placeholders(i + 1) == start + more_placeholders(i as int) + ", ?"@);
        i = i + 1;
    }
    s.append(")");
    s
}

/// The statement that sets attribute `c` (parameter 1) of the row with
/// identifier parameter 2.
pub fn update_sql(c: Column) -> (r: String)
    ensures
        r@ == update_text(c),
{
    let mut s = String::from_str("UPDATE Eucarinogammarus SET ");
    s.append(c.name());
    s.append(" = ?1 WHERE id = ?2");
    s
}

/// The statement that removes the row with identifier parameter 1.
pub fn delete_sql() -> (r: String)
    ensures
        r@ == delete_text(),
{
    String::from_str("DELETE FROM Eucarinogammarus WHERE id = ?1")
}

} // verus!
