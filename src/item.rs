use crate::time::{parse_rfc3339, rfc3339_instant, stamp_of, Timestamp};
use crate::utils::{default_color, default_color_spec, split_comma, tags_of, views};
use vstd::prelude::*;

verus! {

/// One tracked garment.
#[derive(Clone, Debug)]
pub struct Item {
    /// Assigned by the store when the item is made.
    pub id: usize,
    pub name: String,
    pub description: String,
    /// Wears since the last wash.
    pub count: usize,
    /// Wears in all.
    pub total_count: usize,
    pub last_wear: Option<Timestamp>,
    pub last_wash: Option<Timestamp>,
    pub color: String,
    pub tags: Vec<String>,
}

/// One row of the garments table, as the store hands it back.
#[derive(Clone, Debug)]
pub struct Row {
    pub id: i64,
    pub name: String,
    pub description: String,
    pub count: i64,
    pub total: i64,
    /// RFC 3339 text, or none.
    pub wear: Option<String>,
    /// RFC 3339 text, or none.
    pub wash: Option<String>,
    pub color: String,
    /// The tags with commas between them.
    pub tags: String,
}

/// The instant that a stored time denotes; a text that does not read as
/// one counts as no time.
pub open spec fn stored_time(s: Option<String>) -> Option<Timestamp> {
    match s {
        Some(s) => stamp_of(rfc3339_instant(s@)),
        None => None,
    }
}

fn read_time(s: &Option<String>) -> (r: Option<Timestamp>)
    ensures
        r == stored_time(*s),
{
    match s {
        Some(s) => parse_rfc3339(s.as_str()),
        None => None,
    }
}

impl Item {
    /// The item that a row of the store holds.
    pub fn from_row(row: &Row) -> (r: Item)
        ensures
            r.id == row.id as usize,
            r.name@ == row.name@,
            r.description@ == row.description@,
            r.count == row.count as usize,
            r.total_count == row.total as usize,
            r.last_wear == stored_time(row.wear),
            r.last_wash == stored_time(row.wash),
            r.color@ == row.color@,
            views(r.tags@) == tags_of(row.tags@),
    {
        Item {
            id: row.id as usize,
            name: row.name.clone(),
            description: row.description.clone(),
            count: row.count as usize,
            total_count: row.total as usize,
            last_wear: read_time(&row.wear),
            last_wash: read_time(&row.wash),
            color: row.color.clone(),
            tags: split_comma(row.tags.as_str()),
        }
    }

    /// A new item as a form describes it: no id yet, never worn or washed,
    /// black where no color was given, and the tags read from their
    /// comma-separated text.
    pub fn from_form(name: String, description: String, color: Option<String>, tags: &str) -> (r:
        Item)
        ensures
            r.id == 0,
            r.name == name,
            r.description == description,
            r.count == 0,
            r.total_count == 0,
            r.last_wear is None,
            r.last_wash is None,
            color matches Some(c) ==> r.color == c,
            color is None ==> r.color@ == default_color_spec(),
            views(r.tags@) == tags_of(tags@),
    {
        let color = match color {
            Some(c) => c,
            None => default_color(),
        };
        Item {
            id: 0,
            name,
            description,
            count: 0,
            total_count: 0,
            last_wear: None,
            last_wash: None,
            color,
            tags: split_comma(tags),
        }
    }
}

} // verus!
