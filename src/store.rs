use crate::item::Item;
use crate::time::{format_rfc3339, now, rfc3339_text, Timestamp};
use crate::utils::{join_spec, join_with, views};
use core::cmp::Ordering;
use vstd::prelude::*;

verus! {

/// The statement that makes the garments table where it is missing.
pub const SCHEMA: &'static str = "CREATE TABLE IF NOT EXISTS garments ( id INTEGER PRIMARY KEY AUTOINCREMENT, name TEXT NOT NULL, description TEXT NOT NULL DEFAULT '', count INTEGER NOT NULL DEFAULT 0, total INTEGER NOT NULL DEFAULT 0, wear TEXT, wash TEXT, color TEXT NOT NULL DEFAULT '#000000', tags TEXT NOT NULL DEFAULT '' )";

/// What a listing can be sorted by.
#[derive(Clone, Copy, Debug, PartialEq, Eq, Structural)]
pub enum SortItems {
    Name,
    Count,
    Wear,
    Wash,
}

/// An `ORDER BY` clause: a column and the direction in which the store
/// sorts it.
#[derive(Clone, Copy, Debug, PartialEq, Eq, Structural)]
pub struct OrderClause {
    pub column: SortItems,
    pub ascending: bool,
}

/// A value bound to a `?` of a statement.
#[derive(Clone, Debug)]
pub enum Value {
    Integer(i64),
    Text(String),
    Null,
}

impl Value {
    pub open spec fn is_text(self, s: Seq<char>) -> bool {
        self matches Value::Text(t) && t@ == s
    }
}

/// A statement for the store, with the values for its `?` in order.
#[derive(Clone, Debug)]
pub struct Statement {
    pub sql: String,
    pub params: Vec<Value>,
}

pub open spec fn is_time_column(c: SortItems) -> bool {
    c is Wear || c is Wash
}

/// The clause for a listing. A time sorted "ascending" shows the most
/// recent first, which is the store's descending order of that column, so
/// the direction is turned round for the two time columns.
pub open spec fn order_clause_spec(order: Option<SortItems>, ascending: bool) -> Option<
    OrderClause,
> {
    match order {
        Some(c) => Some(
            OrderClause {
                column: c,
                ascending: if is_time_column(c) {
                    !ascending
                } else {
                    ascending
                },
            },
        ),
        None => None,
    }
}

/// The clause that the store is asked to sort by.
pub fn order_clause(order: Option<SortItems>, ascending: bool) -> (r: Option<OrderClause>)
    ensures
        r == order_clause_spec(order, ascending),
{
    match order {
        Some(c) => {
            let flip = matches!(c, SortItems::Wear | SortItems::Wash);
            Some(OrderClause { column: c, ascending: if flip { !ascending } else { ascending } })
        },
        None => None,
    }
}

pub open spec fn column_sql(c: SortItems) -> Seq<char> {
    match c {
        SortItems::Name => "name"@,
        SortItems::Count => "count"@,
        SortItems::Wear => "datetime(wear)"@,
        SortItems::Wash => "datetime(wash)"@,
    }
}

fn column_text(c: SortItems) -> (r: &'static str)
    ensures
        r@ == column_sql(c),
{
    match c {
        SortItems::Name => "name",
        SortItems::Count => "count",
        SortItems::Wear => "datetime(wear)",
        SortItems::Wash => "datetime(wash)",
    }
}

pub open spec fn list_sql(clause: Option<OrderClause>) -> Seq<char> {
    match clause {
        None => "SELECT * FROM garments"@,
        Some(c) => "SELECT * FROM garments"@ + " ORDER BY "@ + column_sql(c.column) + if c.ascending {
            " ASC"@
        } else {
            " DESC"@
        },
    }
}

/// The statement that lists every item, sorted as asked.
pub fn get_all(order: Option<SortItems>, ascending: bool) -> (r: Statement)
    ensures
        r.sql@ == list_sql(order_clause_spec(order, ascending)),
        r.params@.len() == 0,
{
    let mut sql = String::from_str("SELECT * FROM garments");
    match order_clause(order, ascending) {
        Some(c) => {
            sql.append(" ORDER BY ");
            sql.append(column_text(c.column));
            sql.append(if c.ascending { " ASC" } else { " DESC" });
        },
        None => {},
    }
    Statement { sql, params: Vec::new() }
}

/// The listing that the home page asks for: ascending unless `descending`
/// is given as true.
pub fn home_listing(sort: Option<SortItems>, descending: Option<bool>) -> (r: Statement)
    ensures
        r.sql@ == list_sql(order_clause_spec(sort, descending != Some(true))),
        r.params@.len() == 0,
{
    let ascending = match descending {
        Some(d) => !d,
        None => true,
    };
    get_all(sort, ascending)
}

pub open spec fn tags_text(item: Item) -> Seq<char> {
    join_spec(views(item.tags@), ","@)
}

pub open spec fn insert_sql() -> Seq<char> {
    "INSERT INTO garments ( name, description, color, tags ) VALUES ( ?, ?, ?, ? )"@
}

pub open spec fn select_one_sql() -> Seq<char> {
    "SELECT * FROM garments WHERE id = ?"@
}

pub open spec fn update_sql() -> Seq<char> {
    "UPDATE garments SET color = ?, name = ?, description = ?, tags = ? WHERE id = ?"@
}

pub open spec fn delete_sql() -> Seq<char> {
    "DELETE FROM garments WHERE id = ?"@
}

pub open spec fn wear_sql() -> Seq<char> {
    "UPDATE garments SET count = count + 1, total = total + 1, wear = ? WHERE id = ?"@
}

pub open spec fn wash_sql() -> Seq<char> {
    "UPDATE garments SET count = 0, wash = ? WHERE id = ?"@
}

/// The statement that adds an item: its name, description, color and
/// comma-joined tags; the store assigns the rest.
pub fn new_item(item: &Item) -> (r: Statement)
    ensures
        r.sql@ == insert_sql(),
        r.params@.len() == 4,
        r.params@[0].is_text(item.name@),
        r.params@[1].is_text(item.description@),
        r.params@[2].is_text(item.color@),
        r.params@[3].is_text(tags_text(*item)),
{
    let params = vec![
        Value::Text(item.name.clone()),
        Value::Text(item.description.clone()),
        Value::Text(item.color.clone()),
        Value::Text(join_with(item.tags.as_slice(), ",")),
    ];
    Statement {
        sql: String::from_str(
            "INSERT INTO garments ( name, description, color, tags ) VALUES ( ?, ?, ?, ? )",
        ),
        params,
    }
}

/// The statement that reads the item with this id.
pub fn get_item(id: usize) -> (r: Statement)
    ensures
        r.sql@ == select_one_sql(),
        r.params@ == seq![Value::Integer(id as i64)],
{
    Statement {
        sql: String::from_str("SELECT * FROM garments WHERE id = ?"),
        params: vec![Value::Integer(id as i64)],
    }
}

/// The statement that overwrites the name, description, color and tags of
/// the item with `item.id`.
pub fn update_item(item: &Item) -> (r: Statement)
    ensures
        r.sql@ == update_sql(),
        r.params@.len() == 5,
        r.params@[0].is_text(item.color@),
        r.params@[1].is_text(item.name@),
        r.params@[2].is_text(item.description@),
        r.params@[3].is_text(tags_text(*item)),
        r.params@[4] == Value::Integer(item.id as i64),
{
    let params = vec![
        Value::Text(item.color.clone()),
        Value::Text(item.name.clone()),
        Value::Text(item.description.clone()),
        Value::Text(join_with(item.tags.as_slice(), ",")),
        Value::Integer(item.id as i64),
    ];
    Statement {
        sql: String::from_str(
            "UPDATE garments SET color = ?, name = ?, description = ?, tags = ? WHERE id = ?",
        ),
        params,
    }
}

/// The statement that removes the item with this id.
pub fn delete_item(id: usize) -> (r: Statement)
    ensures
        r.sql@ == delete_sql(),
        r.params@ == seq![Value::Integer(id as i64)],
{
    Statement {
        sql: String::from_str("DELETE FROM garments WHERE id = ?"),
        params: vec![Value::Integer(id as i64)],
    }
}

/// How an instant is stored: its RFC 3339 text, or null where it has none.
pub open spec fn is_time(v: Value, at: Timestamp) -> bool {
    match rfc3339_text(at.secs, at.nanos) {
        Some(s) => v.is_text(s),
        None => v is Null,
    }
}

fn time_value(at: Timestamp) -> (r: Value)
    ensures
        is_time(r, at),
{
    match format_rfc3339(at) {
        Some(s) => Value::Text(s),
        None => Value::Null,
    }
}

/// The statement that logs a wear at `at`: one more on both counters, and
/// `at` as the last wear, in one step.
pub fn log_wear_at(id: usize, at: Timestamp) -> (r: Statement)
    ensures
        r.sql@ == wear_sql(),
        r.params@.len() == 2,
        is_time(r.params@[0], at),
        r.params@[1] == Value::Integer(id as i64),
{
    Statement {
        sql: String::from_str(
            "UPDATE garments SET count = count + 1, total = total + 1, wear = ? WHERE id = ?",
        ),
        params: vec![time_value(at), Value::Integer(id as i64)],
    }
}

/// The statement that logs a wash at `at`: the count since the last wash
/// back to zero, and `at` as the last wash, in one step.
pub fn log_wash_at(id: usize, at: Timestamp) -> (r: Statement)
    ensures
        r.sql@ == wash_sql(),
        r.params@.len() == 2,
        is_time(r.params@[0], at),
        r.params@[1] == Value::Integer(id as i64),
{
    Statement {
        sql: String::from_str("UPDATE garments SET count = 0, wash = ? WHERE id = ?"),
        params: vec![time_value(at), Value::Integer(id as i64)],
    }
}

/// The statement that logs a wear now.
pub fn log_wear(id: usize) -> (r: Statement)
    ensures
        r.sql@ == wear_sql(),
        r.params@.len() == 2,
        exists|at: Timestamp| is_time(#[trigger] r.params@[0], at),
        r.params@[1] == Value::Integer(id as i64),
{
    let at = now();
    log_wear_at(id, at)
}

/// The statement that logs a wash now.
pub fn log_wash(id: usize) -> (r: Statement)
    ensures
        r.sql@ == wash_sql(),
        r.params@.len() == 2,
        exists|at: Timestamp| is_time(#[trigger] r.params@[0], at),
        r.params@[1] == Value::Integer(id as i64),
{
    let at = now();
    log_wash_at(id, at)
}

/// How the store orders two texts: code point by code point, a prefix
/// first.
pub open spec fn text_order(a: Seq<char>, b: Seq<char>) -> Ordering
    decreases a.len(),
{
    if a.len() == 0 {
        if b.len() == 0 {
            Ordering::Equal
        } else {
            Ordering::Less
        }
    } else if b.len() == 0 {
        Ordering::Greater
    } else if (a[0] as u32) < (b[0] as u32) {
        Ordering::Less
    } else if (a[0] as u32) > (b[0] as u32) {
        Ordering::Greater
    } else {
        text_order(a.drop_first(), b.drop_first())
    }
}

pub open spec fn int_order(a: int, b: int) -> Ordering {
    if a < b {
        Ordering::Less
    } else if a > b {
        Ordering::Greater
    } else {
        Ordering::Equal
    }
}

/// How the store orders two stored times under `datetime(..)`: by the whole
/// second, an absent time first.
pub open spec fn time_order(a: Option<Timestamp>, b: Option<Timestamp>) -> Ordering {
    match (a, b) {
        (Some(x), Some(y)) => int_order(x.secs as int, y.secs as int),
        (Some(_), None) => Ordering::Greater,
        (None, Some(_)) => Ordering::Less,
        (None, None) => Ordering::Equal,
    }
}

/// How the store orders two rows by a column.
pub open spec fn key_order(a: Item, b: Item, c: SortItems) -> Ordering {
    match c {
        SortItems::Name => text_order(a.name@, b.name@),
        SortItems::Count => int_order(a.count as int, b.count as int),
        SortItems::Wear => time_order(a.last_wear, b.last_wear),
        SortItems::Wash => time_order(a.last_wash, b.last_wash),
    }
}

/// The rows come in the order that a clause asks of the store; without a
/// clause any order is the store's own.
pub open spec fn sorted_by(items: Seq<Item>, clause: Option<OrderClause>) -> bool {
    match clause {
        None => true,
        Some(c) => forall|i: int, j: int|
            0 <= i < j < items.len() ==> if c.ascending {
                key_order(items[i], items[j], c.column) != Ordering::Greater
            } else {
                key_order(items[i], items[j], c.column) != Ordering::Less
            },
    }
}

/// A listing by last wear that is asked for ascending comes most recently
/// worn first; one asked for descending comes least recently worn first.
pub proof fn lemma_wear_listing(items: Seq<Item>, ascending: bool)
    requires
        sorted_by(items, order_clause_spec(Some(SortItems::Wear), ascending)),
    ensures
        forall|i: int, j: int|
            0 <= i < j < items.len() ==> if ascending {
                time_order(items[i].last_wear, items[j].last_wear) != Ordering::Less
            } else {
                time_order(items[i].last_wear, items[j].last_wear) != Ordering::Greater
            },
{
    let c = OrderClause { column: SortItems::Wear, ascending: !ascending };
    assert(order_clause_spec(Some(SortItems::Wear), ascending) == Some(c));
    assert forall|i: int, j: int| 0 <= i < j < items.len() implies if ascending {
        time_order(items[i].last_wear, items[j].last_wear) != Ordering::Less
    } else {
        time_order(items[i].last_wear, items[j].last_wear) != Ordering::Greater
    } by {
        assert(key_order(items[i], items[j], c.column) == time_order(
            items[i].last_wear,
            items[j].last_wear,
        ));
    }
}

/// The rows with this id.
pub open spec fn rows_with_id(rows: Seq<Item>, id: usize) -> nat
    decreases rows.len(),
{
    if rows.len() == 0 {
        0
    } else {
        rows_with_id(rows.drop_last(), id) + if rows.last().id == id {
            1nat
        } else {
            0nat
        }
    }
}

/// The rows without this id, in order.
pub open spec fn without_id(rows: Seq<Item>, id: usize) -> Seq<Item>
    decreases rows.len(),
{
    if rows.len() == 0 {
        rows
    } else {
        let init = without_id(rows.drop_last(), id);
        if rows.last().id == id {
            init
        } else {
            init.push(rows.last())
        }
    }
}

/// A row after a wear at `at`.
pub open spec fn worn(r: Item, at: Timestamp) -> Item {
    Item {
        count: (r.count + 1) as usize,
        total_count: (r.total_count + 1) as usize,
        last_wear: Some(at),
        ..r
    }
}

/// A row after a wash at `at`.
pub open spec fn washed(r: Item, at: Timestamp) -> Item {
    Item { count: 0, last_wash: Some(at), ..r }
}

/// A row after an edit that carries `e`'s name, description, color and
/// tags.
pub open spec fn edited(r: Item, e: Item) -> Item {
    Item { name: e.name, description: e.description, color: e.color, tags: e.tags, ..r }
}

/// The table after `log_wear_at(id, at)`, and the rows it reports.
pub open spec fn log_wear_effect(rows: Seq<Item>, id: usize, at: Timestamp) -> (Seq<Item>, nat) {
    (rows.map_values(|r: Item| if r.id == id { worn(r, at) } else { r }), rows_with_id(rows, id))
}

/// The table after `log_wash_at(id, at)`, and the rows it reports.
pub open spec fn log_wash_effect(rows: Seq<Item>, id: usize, at: Timestamp) -> (Seq<Item>, nat) {
    (rows.map_values(|r: Item| if r.id == id { washed(r, at) } else { r }), rows_with_id(rows, id))
}

/// The table after `update_item(e)`, and the rows it reports.
pub open spec fn update_effect(rows: Seq<Item>, e: Item) -> (Seq<Item>, nat) {
    (rows.map_values(|r: Item| if r.id == e.id { edited(r, e) } else { r }), rows_with_id(rows, e.id))
}

/// The table after `delete_item(id)`, and the rows it reports.
pub open spec fn delete_effect(rows: Seq<Item>, id: usize) -> (Seq<Item>, nat) {
    (without_id(rows, id), rows_with_id(rows, id))
}

/// A wear adds one to both counters of the row and stamps its last wear,
/// leaving its last wash; a wash sets the count since the last wash to zero
/// and stamps the last wash, leaving the lifetime count and the last wear.
/// Rows with another id stay as they were.
pub proof fn lemma_wear_and_wash(rows: Seq<Item>, i: int, at: Timestamp)
    requires
        0 <= i < rows.len(),
        rows[i].count < usize::MAX,
        rows[i].total_count < usize::MAX,
    ensures
        ({
            let r = log_wear_effect(rows, rows[i].id, at).0[i];
            &&& r.count == rows[i].count + 1
            &&& r.total_count == rows[i].total_count + 1
            &&& r.last_wear == Some(at)
            &&& r.last_wash == rows[i].last_wash
            &&& r.id == rows[i].id
        }),
        ({
            let r = log_wash_effect(rows, rows[i].id, at).0[i];
            &&& r.count == 0
            &&& r.total_count == rows[i].total_count
            &&& r.last_wash == Some(at)
            &&& r.last_wear == rows[i].last_wear
            &&& r.id == rows[i].id
        }),
        forall|j: int|
            0 <= j < rows.len() && rows[j].id != rows[i].id ==> log_wear_effect(
                rows,
                rows[i].id,
                at,
            ).0[j] == rows[j] && log_wash_effect(rows, rows[i].id, at).0[j] == rows[j],
{
}

proof fn lemma_absent_rows(rows: Seq<Item>, id: usize)
    requires
        forall|k: int| 0 <= k < rows.len() ==> (#[trigger] rows[k]).id != id,
    ensures
        rows_with_id(rows, id) == 0,
        without_id(rows, id) == rows,
    decreases rows.len(),
{
    if rows.len() > 0 {
        let init = rows.drop_last();
        assert forall|k: int| 0 <= k < init.len() implies (#[trigger] init[k]).id != id by {
            assert(init[k] == rows[k]);
        }
        lemma_absent_rows(init, id);
        assert(rows.last() == rows[rows.len() - 1]);
        assert(init.push(rows.last()) =~= rows);
    }
}

/// Updating or deleting an id that no row has reports no row and leaves the
/// table as it was.
pub proof fn lemma_absent_id(rows: Seq<Item>, e: Item, id: usize)
    requires
        forall|k: int| 0 <= k < rows.len() ==> (#[trigger] rows[k]).id != e.id,
        forall|k: int| 0 <= k < rows.len() ==> (#[trigger] rows[k]).id != id,
    ensures
        update_effect(rows, e) == (rows, 0nat),
        delete_effect(rows, id) == (rows, 0nat),
{
    lemma_absent_rows(rows, e.id);
    lemma_absent_rows(rows, id);
    assert(update_effect(rows, e).0 =~= rows);
}

} // verus!
