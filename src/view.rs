use crate::item::Item;
use crate::store::SortItems;
use crate::time::{
    format_rfc3339, now, relative_spec, relative_time, rfc3339_text, text_view, Timestamp,
};
use crate::utils::{join_comma, join_spec, views};
use vstd::prelude::*;

verus! {

/// What the list page shows of one item.
#[derive(Clone, Debug)]
pub struct ItemView {
    pub key: usize,
    pub name: String,
    pub description: String,
    pub count: usize,
    pub total_count: usize,
    pub has_wear: bool,
    /// The last wear in RFC 3339.
    pub wear: Option<String>,
    /// How long ago the last wear was, in words.
    pub wear_fmt: Option<String>,
    pub has_wash: bool,
    /// The last wash in RFC 3339.
    pub wash: Option<String>,
    /// How long ago the last wash was, in words.
    pub wash_fmt: Option<String>,
    pub color: String,
    /// The tags with ", " between them.
    pub tags: String,
}

/// What the edit form shows of one item.
#[derive(Clone, Debug)]
pub struct EditView {
    pub key: usize,
    pub name: String,
    pub description: String,
    pub color: String,
    pub tags: String,
}

/// What the list page shows.
#[derive(Clone, Debug)]
pub struct IndexView {
    pub items: Vec<ItemView>,
    pub num_items: usize,
    pub sort: Option<SortItems>,
    pub descending: Option<bool>,
}

/// The RFC 3339 text of an optional instant.
pub open spec fn time_text(t: Option<Timestamp>) -> Option<Seq<char>> {
    match t {
        Some(t) => rfc3339_text(t.secs, t.nanos),
        None => None,
    }
}

/// How long before `now` an optional instant was, in words.
pub open spec fn ago_text(t: Option<Timestamp>, now: Timestamp) -> Option<Seq<char>> {
    match t {
        Some(t) => Some(relative_spec(t, now)),
        None => None,
    }
}

fn format_time(t: Option<Timestamp>) -> (r: Option<String>)
    ensures
        text_view(r) == time_text(t),
{
    match t {
        Some(t) => format_rfc3339(t),
        None => None,
    }
}

fn format_ago(t: Option<Timestamp>, now: Timestamp) -> (r: Option<String>)
    ensures
        text_view(r) == ago_text(t, now),
{
    match t {
        Some(t) => Some(relative_time(t, now)),
        None => None,
    }
}

/// The list page's view of an item, seen at `now`.
pub fn item_view(item: &Item, now: Timestamp) -> (r: ItemView)
    ensures
        r.key == item.id,
        r.name@ == item.name@,
        r.description@ == item.description@,
        r.count == item.count,
        r.total_count == item.total_count,
        r.has_wear == item.last_wear is Some,
        text_view(r.wear) == time_text(item.last_wear),
        text_view(r.wear_fmt) == ago_text(item.last_wear, now),
        r.has_wash == item.last_wash is Some,
        text_view(r.wash) == time_text(item.last_wash),
        text_view(r.wash_fmt) == ago_text(item.last_wash, now),
        r.color@ == item.color@,
        r.tags@ == join_spec(views(item.tags@), ", "@),
{
    ItemView {
        key: item.id,
        name: item.name.clone(),
        description: item.description.clone(),
        count: item.count,
        total_count: item.total_count,
        has_wear: item.last_wear.is_some(),
        wear: format_time(item.last_wear),
        wear_fmt: format_ago(item.last_wear, now),
        has_wash: item.last_wash.is_some(),
        wash: format_time(item.last_wash),
        wash_fmt: format_ago(item.last_wash, now),
        color: item.color.clone(),
        tags: join_comma(item.tags.as_slice()),
    }
}

/// The edit form's view of an item.
pub fn edit_view(item: &Item) -> (r: EditView)
    ensures
        r.key == item.id,
        r.name@ == item.name@,
        r.description@ == item.description@,
        r.color@ == item.color@,
        r.tags@ == join_spec(views(item.tags@), ", "@),
{
    EditView {
        key: item.id,
        name: item.name.clone(),
        description: item.description.clone(),
        color: item.color.clone(),
        tags: join_comma(item.tags.as_slice()),
    }
}

/// The list page for these items, in their order, seen at `now`.
pub fn index_view(
    items: &[Item],
    sort: Option<SortItems>,
    descending: Option<bool>,
    now: Timestamp,
) -> (r: IndexView)
    ensures
        r.items@.len() == items@.len(),
        forall|i: int|
            0 <= i < items@.len() ==> {
                let v = #[trigger] r.items@[i];
                let it = items@[i];
                &&& v.key == it.id
                &&& v.name@ == it.name@
                &&& v.description@ == it.description@
                &&& v.count == it.count
                &&& v.total_count == it.total_count
                &&& v.has_wear == it.last_wear is Some
                &&& text_view(v.wear) == time_text(it.last_wear)
                &&& text_view(v.wear_fmt) == ago_text(it.last_wear, now)
                &&& v.has_wash == it.last_wash is Some
                &&& text_view(v.wash) == time_text(it.last_wash)
                &&& text_view(v.wash_fmt) == ago_text(it.last_wash, now)
                &&& v.color@ == it.color@
                &&& v.tags@ == join_spec(views(it.tags@), ", "@)
            },
        r.num_items == items@.len(),
        r.sort == sort,
        r.descending == descending,
{
    let mut views_out: Vec<ItemView> = Vec::new();
    let mut i: usize = 0;
    while i < items.len()
        invariant
            i <= items@.len(),
            views_out@.len() == i,
            forall|k: int|
                0 <= k < i ==> {
                    let v = #[trigger] views_out@[k];
                    let it = items@[k];
                    &&& v.key == it.id
                    &&& v.name@ == it.name@
                    &&& v.description@ == it.description@
                    &&& v.count == it.count
                    &&& v.total_count == it.total_count
                    &&& v.has_wear == it.last_wear is Some
                    &&& text_view(v.wear) == time_text(it.last_wear)
                    &&& text_view(v.wear_fmt) == ago_text(it.last_wear, now)
                    &&& v.has_wash == it.last_wash is Some
                    &&& text_view(v.wash) == time_text(it.last_wash)
                    &&& text_view(v.wash_fmt) == ago_text(it.last_wash, now)
                    &&& v.color@ == it.color@
                    &&& v.tags@ == join_spec(views(it.tags@), ", "@)
                },
        decreases items@.len() - i,
    {
        let v = item_view(&items[i], now);
        views_out.push(v);
        i = i + 1;
    }
    let n = views_out.len();
    IndexView { items: views_out, num_items: n, sort, descending }
}

/// The list page for these items, seen now.
pub fn home_page(items: &[Item], sort: Option<SortItems>, descending: Option<bool>) -> (r:
    IndexView)
    ensures
        r.items@.len() == items@.len(),
        forall|i: int|
            0 <= i < items@.len() ==> {
                let v = #[trigger] r.items@[i];
                let it = items@[i];
                &&& v.key == it.id
                &&& v.name@ == it.name@
                &&& v.description@ == it.description@
                &&& v.count == it.count
                &&& v.total_count == it.total_count
                &&& v.has_wear == it.last_wear is Some
                &&& text_view(v.wear) == time_text(it.last_wear)
                &&& (v.wear_fmt is Some) == (it.last_wear is Some)
                &&& v.has_wash == it.last_wash is Some
                &&& text_view(v.wash) == time_text(it.last_wash)
                &&& (v.wash_fmt is Some) == (it.last_wash is Some)
                &&& v.color@ == it.color@
                &&& v.tags@ == join_spec(views(it.tags@), ", "@)
            },
        r.num_items == items@.len(),
        r.sort == sort,
        r.descending == descending,
{
    index_view(items, sort, descending, now())
}

} // verus!
