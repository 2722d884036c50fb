use wear::store::{delete_item, get_all, get_item, home_listing, log_wash_at, log_wear_at, new_item, update_item};
use wear::view::{edit_view, index_view, item_view};
use wear::{Item, SortItems, Timestamp, Value};

fn sql_for(order: Option<SortItems>, ascending: bool) -> String {
    get_all(order, ascending).sql
}

fn shirt() -> Item {
    Item {
        id: 7,
        name: "Blue Shirt".into(),
        description: "linen".into(),
        count: 3,
        total_count: 12,
        last_wear: Some(Timestamp { secs: 1_577_836_800, nanos: 0 }),
        last_wash: None,
        color: "#0000ff".into(),
        tags: vec!["casual".into(), "cotton".into()],
    }
}

fn text(v: &Value) -> &str {
    match v {
        Value::Text(s) => s,
        other => panic!("not text: {:?}", other),
    }
}

fn integer(v: &Value) -> i64 {
    match v {
        Value::Integer(i) => *i,
        other => panic!("not an integer: {:?}", other),
    }
}

#[test]
fn listing_without_order_uses_natural_order() {
    assert_eq!(sql_for(None, true), "SELECT * FROM garments");
    assert_eq!(sql_for(None, false), "SELECT * FROM garments");
}

#[test]
fn listing_by_name_and_count_keeps_direction() {
    assert_eq!(sql_for(Some(SortItems::Name), true), "SELECT * FROM garments ORDER BY name ASC");
    assert_eq!(sql_for(Some(SortItems::Name), false), "SELECT * FROM garments ORDER BY name DESC");
    assert_eq!(sql_for(Some(SortItems::Count), true), "SELECT * FROM garments ORDER BY count ASC");
    assert_eq!(sql_for(Some(SortItems::Count), false), "SELECT * FROM garments ORDER BY count DESC");
}

#[test]
fn listing_by_time_turns_direction_round() {
    assert_eq!(sql_for(Some(SortItems::Wear), true), "SELECT * FROM garments ORDER BY datetime(wear) DESC");
    assert_eq!(sql_for(Some(SortItems::Wear), false), "SELECT * FROM garments ORDER BY datetime(wear) ASC");
    assert_eq!(sql_for(Some(SortItems::Wash), true), "SELECT * FROM garments ORDER BY datetime(wash) DESC");
    assert_eq!(sql_for(Some(SortItems::Wash), false), "SELECT * FROM garments ORDER BY datetime(wash) ASC");
}

#[test]
fn home_listing_is_ascending_unless_descending_is_true() {
    assert_eq!(home_listing(Some(SortItems::Name), None).sql, "SELECT * FROM garments ORDER BY name ASC");
    assert_eq!(home_listing(Some(SortItems::Name), Some(false)).sql, "SELECT * FROM garments ORDER BY name ASC");
    assert_eq!(home_listing(Some(SortItems::Name), Some(true)).sql, "SELECT * FROM garments ORDER BY name DESC");
    assert_eq!(home_listing(Some(SortItems::Wear), Some(true)).sql, "SELECT * FROM garments ORDER BY datetime(wear) ASC");
}

#[test]
fn insert_binds_fields_and_joined_tags() {
    let s = new_item(&shirt());
    assert_eq!(s.sql, "INSERT INTO garments ( name, description, color, tags ) VALUES ( ?, ?, ?, ? )");
    assert_eq!(s.params.len(), 4);
    assert_eq!(text(&s.params[0]), "Blue Shirt");
    assert_eq!(text(&s.params[1]), "linen");
    assert_eq!(text(&s.params[2]), "#0000ff");
    assert_eq!(text(&s.params[3]), "casual,cotton");
}

#[test]
fn update_binds_id_last() {
    let s = update_item(&shirt());
    assert_eq!(s.sql, "UPDATE garments SET color = ?, name = ?, description = ?, tags = ? WHERE id = ?");
    assert_eq!(text(&s.params[0]), "#0000ff");
    assert_eq!(text(&s.params[1]), "Blue Shirt");
    assert_eq!(text(&s.params[2]), "linen");
    assert_eq!(text(&s.params[3]), "casual,cotton");
    assert_eq!(integer(&s.params[4]), 7);
}

#[test]
fn select_and_delete_bind_the_id() {
    let s = get_item(42);
    assert_eq!(s.sql, "SELECT * FROM garments WHERE id = ?");
    assert_eq!(integer(&s.params[0]), 42);
    let d = delete_item(9);
    assert_eq!(d.sql, "DELETE FROM garments WHERE id = ?");
    assert_eq!(integer(&d.params[0]), 9);
}

#[test]
fn wear_and_wash_bind_rfc3339_time() {
    let at = Timestamp { secs: 1_577_836_800, nanos: 0 };
    let w = log_wear_at(5, at);
    assert_eq!(w.sql, "UPDATE garments SET count = count + 1, total = total + 1, wear = ? WHERE id = ?");
    assert_eq!(text(&w.params[0]), "2020-01-01T00:00:00+00:00");
    assert_eq!(integer(&w.params[1]), 5);
    let c = log_wash_at(5, Timestamp { secs: 1_577_836_800, nanos: 500_000_000 });
    assert_eq!(c.sql, "UPDATE garments SET count = 0, wash = ? WHERE id = ?");
    assert_eq!(text(&c.params[0]), "2020-01-01T00:00:00.500+00:00");
}

#[test]
fn time_beyond_range_is_bound_as_null() {
    let w = log_wear_at(5, Timestamp { secs: i64::MAX, nanos: 0 });
    assert!(matches!(w.params[0], Value::Null));
}

#[test]
fn item_view_formats_fields() {
    let now = Timestamp { secs: 1_577_836_800 + 3 * 3600, nanos: 0 };
    let v = item_view(&shirt(), now);
    assert_eq!(v.key, 7);
    assert_eq!(v.count, 3);
    assert_eq!(v.total_count, 12);
    assert!(v.has_wear);
    assert_eq!(v.wear.as_deref(), Some("2020-01-01T00:00:00+00:00"));
    assert_eq!(v.wear_fmt.as_deref(), Some("3 hours ago"));
    assert!(!v.has_wash);
    assert_eq!(v.wash, None);
    assert_eq!(v.wash_fmt, None);
    assert_eq!(v.tags, "casual, cotton");
}

#[test]
fn edit_view_joins_tags() {
    let v = edit_view(&shirt());
    assert_eq!(v.key, 7);
    assert_eq!(v.name, "Blue Shirt");
    assert_eq!(v.color, "#0000ff");
    assert_eq!(v.tags, "casual, cotton");
}

#[test]
fn index_view_keeps_order_and_count() {
    let mut other = shirt();
    other.id = 8;
    other.name = "Red Scarf".into();
    let now = Timestamp { secs: 1_577_836_800, nanos: 0 };
    let v = index_view(&[shirt(), other], Some(SortItems::Name), Some(true), now);
    assert_eq!(v.num_items, 2);
    assert_eq!(v.items[0].name, "Blue Shirt");
    assert_eq!(v.items[1].name, "Red Scarf");
    assert_eq!(v.sort, Some(SortItems::Name));
    assert_eq!(v.descending, Some(true));
    assert_eq!(v.items[0].wear_fmt.as_deref(), Some("right now"));
}
