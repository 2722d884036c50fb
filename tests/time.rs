use wear::time::{decimal, relative_time};
use wear::{Item, Row, Timestamp};

const HOUR: i64 = 3600;
const DAY: i64 = 24 * HOUR;

fn ago(secs: i64) -> String {
    let now = Timestamp { secs: 1_700_000_000, nanos: 500 };
    relative_time(Timestamp { secs: now.secs - secs, nanos: 500 }, now)
}

#[test]
fn decimal_writes_digits() {
    assert_eq!(decimal(0), "0");
    assert_eq!(decimal(7), "7");
    assert_eq!(decimal(1234), "1234");
    assert_eq!(decimal(u64::MAX), u64::MAX.to_string());
}

#[test]
fn relative_time_buckets() {
    assert_eq!(ago(0), "right now");
    assert_eq!(ago(HOUR - 1), "right now");
    assert_eq!(ago(HOUR), "1 hours ago");
    assert_eq!(ago(3 * HOUR + 59), "3 hours ago");
    assert_eq!(ago(DAY - 1), "23 hours ago");
    assert_eq!(ago(DAY), "1 days ago");
    assert_eq!(ago(6 * DAY + 23 * HOUR), "6 days ago");
    assert_eq!(ago(7 * DAY), "1 weeks ago");
    assert_eq!(ago(48 * DAY), "6 weeks ago");
    assert_eq!(ago(49 * DAY), "a while ago");
    assert_eq!(ago(-5 * DAY), "right now");
}

#[test]
fn relative_time_counts_nanoseconds() {
    let now = Timestamp { secs: 10 * HOUR, nanos: 0 };
    let just_under = Timestamp { secs: 9 * HOUR, nanos: 1 };
    assert_eq!(relative_time(just_under, now), "right now");
}

fn row(wear: Option<&str>, wash: Option<&str>, tags: &str) -> Row {
    Row {
        id: 4,
        name: "Blue Shirt".into(),
        description: "".into(),
        count: 2,
        total: 9,
        wear: wear.map(String::from),
        wash: wash.map(String::from),
        color: "#0000ff".into(),
        tags: tags.into(),
    }
}

#[test]
fn from_row_reads_times_and_tags() {
    let item = Item::from_row(&row(Some("2020-01-01T00:00:00Z"), Some("2020-01-01T01:00:00.25+01:00"), "casual,cotton"));
    assert_eq!(item.id, 4);
    assert_eq!(item.count, 2);
    assert_eq!(item.total_count, 9);
    assert_eq!(item.last_wear, Some(Timestamp { secs: 1_577_836_800, nanos: 0 }));
    assert_eq!(item.last_wash, Some(Timestamp { secs: 1_577_836_800, nanos: 250_000_000 }));
    assert_eq!(item.color, "#0000ff");
    assert_eq!(item.tags, vec!["casual".to_string(), "cotton".to_string()]);
}

#[test]
fn from_row_treats_bad_times_as_absent() {
    let item = Item::from_row(&row(Some("yesterday"), None, ""));
    assert_eq!(item.last_wear, None);
    assert_eq!(item.last_wash, None);
    assert_eq!(item.tags, vec![String::new()]);
}

#[test]
fn from_form_fills_defaults() {
    let item = Item::from_form("Coat".into(), "warm".into(), None, " winter ,wool");
    assert_eq!(item.id, 0);
    assert_eq!(item.count, 0);
    assert_eq!(item.total_count, 0);
    assert_eq!(item.last_wear, None);
    assert_eq!(item.last_wash, None);
    assert_eq!(item.color, "#000000");
    assert_eq!(item.tags, vec!["winter".to_string(), "wool".to_string()]);
    let red = Item::from_form("Hat".into(), "".into(), Some("#ff0000".into()), "");
    assert_eq!(red.color, "#ff0000");
}
