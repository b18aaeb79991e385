use valihuuto::cursor::{cursor_key, get_last_checked_date, update_last_checked_date, CursorError};
use valihuuto::feed::{get_feed, select_new_entries, FeedEntry, FeedError};
use valihuuto::memos::edit_memo;
use valihuuto::time::Timestamp;

fn feed(items: &[(&str, Option<&str>)]) -> String {
    let mut s = String::from("<?xml version=\"1.0\"?><rss version=\"2.0\"><channel><title>F</title><link>http://f</link><description>d</description>");
    for (title, date) in items {
        s.push_str("<item><title>");
        s.push_str(title);
        s.push_str("</title><link>http://f/");
        s.push_str(title);
        s.push_str("</link><description>about ");
        s.push_str(title);
        s.push_str("</description>");
        if let Some(d) = date {
            s.push_str("<pubDate>");
            s.push_str(d);
            s.push_str("</pubDate>");
        }
        s.push_str("</item>");
    }
    s.push_str("</channel></rss>");
    s
}

// 2024-01-01T00:00:00Z
const NEW_YEAR: i64 = 1704067200;

#[test]
fn get_feed_keeps_entries_strictly_after_the_cursor_in_feed_order() {
    let doc = feed(&[
        ("c", Some("Wed, 03 Jan 2024 10:00:00 +0000")),
        ("old", Some("Sun, 31 Dec 2023 23:59:59 +0000")),
        ("same", Some("Mon, 01 Jan 2024 00:00:00 GMT")),
        ("a", Some("Mon, 01 Jan 2024 00:00:01 +0000")),
        ("nodate", None),
        ("bad", Some("yesterday")),
        ("b", Some("Mon, 01 Jan 2024 02:00:00 +0200")),
        ("d", Some("Mon, 01 Jan 2024 03:00:00 +0200")),
    ]);
    let cursor = Timestamp::new(NEW_YEAR, 0, 0);
    let kept = get_feed(doc.as_bytes(), &cursor).unwrap();
    let titles: Vec<&str> = kept.iter().map(|e| e.title.as_deref().unwrap()).collect();
    assert_eq!(titles, vec!["c", "a", "d"]);
    assert_eq!(kept[1].link.as_deref(), Some("http://f/a"));
    assert_eq!(kept[1].description.as_deref(), Some("about a"));
    assert_eq!(kept[1].pub_date.as_deref(), Some("Mon, 01 Jan 2024 00:00:01 +0000"));
}

#[test]
fn get_feed_compares_instants_not_offsets() {
    let doc = feed(&[("x", Some("Mon, 01 Jan 2024 00:30:00 +0100"))]);
    let cursor = Timestamp::new(NEW_YEAR - 3600, 0, 7200);
    let kept = get_feed(doc.as_bytes(), &cursor).unwrap();
    assert_eq!(kept.len(), 1);
    let later = Timestamp::new(NEW_YEAR - 1800, 0, -3600);
    assert!(get_feed(doc.as_bytes(), &later).unwrap().is_empty());
}

#[test]
fn get_feed_rejects_what_is_no_feed() {
    let cursor = Timestamp::new(0, 0, 0);
    assert_eq!(get_feed(b"not a feed", &cursor), Err(FeedError::Parse));
    assert_eq!(get_feed(b"", &cursor), Err(FeedError::Parse));
}

#[test]
fn select_new_entries_drops_unreadable_dates() {
    let e = |d: Option<&str>| FeedEntry { title: None, link: None, description: None, pub_date: d.map(String::from) };
    let all = vec![e(None), e(Some("")), e(Some("Tue, 02 Jan 2024 00:00:00 +0000"))];
    let kept = select_new_entries(&all, &Timestamp::new(NEW_YEAR, 0, 0));
    assert_eq!(kept, vec![e(Some("Tue, 02 Jan 2024 00:00:00 +0000"))]);
}

#[test]
fn timestamps_order_by_seconds_then_nanoseconds() {
    let a = Timestamp::new(10, 5, 0);
    assert!(Timestamp::new(11, 0, 0).is_after(&a));
    assert!(Timestamp::new(10, 6, 3600).is_after(&a));
    assert!(!Timestamp::new(10, 5, 3600).is_after(&a));
    assert!(!Timestamp::new(9, 999, 0).is_after(&a));
    assert_eq!(a.day_before(), Some(Timestamp::new(10 - 86400, 5, 0)));
    assert_eq!(Timestamp::new(i64::MIN + 86399, 0, 0).day_before(), None);
    assert_eq!(Timestamp::new(i64::MIN + 86400, 0, 0).day_before(), Some(Timestamp::new(i64::MIN, 0, 0)));
}

#[test]
fn one_new_entry_with_two_shouts_gives_three_publishes() {
    let doc = feed(&[
        ("old", Some("Sun, 31 Dec 2023 23:59:59 +0000")),
        ("PTK 1", Some("Tue, 02 Jan 2024 12:00:00 +0000")),
    ]);
    let kept = get_feed(doc.as_bytes(), &Timestamp::new(NEW_YEAR, 0, 0)).unwrap();
    assert_eq!(kept.len(), 1);
    let transcript = "{\"rowData\":[[\"a\",\"[Hyvä!] ja [Loistavaa!]\"]]}";
    let publication = edit_memo(&kept[0], transcript.to_string(), 99).unwrap();
    assert_eq!(publication.messages.len(), 3);
    assert_eq!(
        publication.messages[0].body,
        "{\"description\":\"about PTK 1\",\"link\":\"http://f/PTK 1\",\"title\":\"PTK 1\"}"
    );
    assert_eq!(publication.messages[1].body, "Hyvä!");
    assert_eq!(publication.messages[2].body, "Loistavaa!");
    assert!(publication.messages.iter().all(|m| m.group_id == "memo_shout_group"));
}

#[test]
fn cursor_is_read_from_the_store() {
    let now = Timestamp::new(NEW_YEAR + 1000, 0, 0);
    assert_eq!(
        get_last_checked_date(Some("2024-01-01T00:00:00+00:00"), &now),
        Ok(Timestamp::new(NEW_YEAR, 0, 0))
    );
    assert_eq!(
        get_last_checked_date(Some("2024-01-01T02:00:00.5+02:00"), &now),
        Ok(Timestamp::new(NEW_YEAR, 500_000_000, 7200))
    );
    assert_eq!(get_last_checked_date(Some("last week"), &now), Err(CursorError::Unreadable));
}

#[test]
fn missing_cursor_defaults_to_one_day_before_now() {
    let now = Timestamp::new(NEW_YEAR, 250, 0);
    assert_eq!(get_last_checked_date(None, &now), Ok(Timestamp::new(NEW_YEAR - 86400, 250, 0)));
    let floor = Timestamp::new(i64::MIN, 0, 0);
    assert_eq!(get_last_checked_date(None, &floor), Err(CursorError::OutOfRange));
}

#[test]
fn cursor_is_written_as_rfc3339() {
    let w = update_last_checked_date(&Timestamp::new(NEW_YEAR, 0, 0)).unwrap();
    assert_eq!(w.value, "2024-01-01T00:00:00+00:00");
    assert_eq!(w.key, cursor_key());
    assert_eq!(w.key.table, "Valihuuto");
    assert_eq!(w.key.key_name, "id");
    assert_eq!(w.key.key_value, "1");
    assert_eq!(w.key.attribute, "lastchecked");
    assert_eq!(w.update_expression, "SET lastchecked = :date");
    assert_eq!(w.value_name, ":date");
    let east = update_last_checked_date(&Timestamp::new(NEW_YEAR, 0, 7200)).unwrap();
    assert_eq!(east.value, "2024-01-01T02:00:00+02:00");
}

#[test]
fn cursor_out_of_range_is_not_written() {
    assert_eq!(update_last_checked_date(&Timestamp::new(i64::MAX, 0, 0)).err(), Some(CursorError::OutOfRange));
    assert_eq!(update_last_checked_date(&Timestamp::new(0, 0, 86400)).err(), Some(CursorError::OutOfRange));
}

#[test]
fn written_cursor_reads_back() {
    let t = Timestamp::new(NEW_YEAR + 5, 0, 0);
    let w = update_last_checked_date(&t).unwrap();
    assert_eq!(get_last_checked_date(Some(w.value.as_str()), &Timestamp::new(0, 0, 0)), Ok(t));
}
