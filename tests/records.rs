use coto::records::{
    map_projects, map_sections, map_tasks, RawProject, RawSection, RawTask, RawValue, RecordError,
};
use coto::text::{i64_text, parse_number, u64_text};

fn text(s: &str) -> RawValue {
    RawValue::Text(s.to_string())
}

fn raw_task(id: RawValue, section: RawValue, order: RawValue) -> RawTask {
    RawTask {
        id,
        project_id: RawValue::Int(7),
        section_id: section,
        order,
        content: text("write report"),
        priority: RawValue::Int(4),
        created: text("2020-01-01"),
        due_date: RawValue::Null,
    }
}

#[test]
fn projects_keep_count_and_order() {
    let raw = vec![
        RawProject { id: RawValue::Int(101), name: text("Inbox"), shared: RawValue::Flag(false) },
        RawProject { id: text("abc"), name: RawValue::Null, shared: RawValue::Flag(true) },
    ];
    let ps = map_projects(&raw).unwrap();
    assert_eq!(ps.len(), 2);
    assert_eq!(ps[0].id, "101");
    assert_eq!(ps[0].name, "Inbox");
    assert!(!ps[0].is_shared);
    assert_eq!(ps[1].id, "abc");
    assert_eq!(ps[1].name, "");
    assert!(ps[1].is_shared);
}

#[test]
fn empty_input_maps_to_empty_output() {
    let raw: Vec<RawProject> = Vec::new();
    assert_eq!(map_projects(&raw).unwrap().len(), 0);
}

#[test]
fn missing_id_is_malformed() {
    let raw = vec![
        RawProject { id: RawValue::Int(1), name: text("a"), shared: RawValue::Absent },
        RawProject { id: RawValue::Absent, name: text("b"), shared: RawValue::Absent },
        RawProject { id: RawValue::Null, name: text("c"), shared: RawValue::Absent },
    ];
    assert_eq!(map_projects(&raw), Err(RecordError::MalformedRecord { position: 1 }));
}

#[test]
fn empty_text_id_still_maps() {
    let raw = vec![RawSection { id: text(""), project_id: RawValue::Int(1), name: text("s") }];
    let ss = map_sections(&raw).unwrap();
    assert_eq!(ss.len(), 1);
    assert_eq!(ss[0].id, "");
}

#[test]
fn untypeable_id_is_malformed() {
    let raw = vec![
        raw_task(text("a"), RawValue::Null, RawValue::Absent),
        raw_task(RawValue::Flag(true), RawValue::Null, RawValue::Absent),
    ];
    assert_eq!(map_tasks(&raw), Err(RecordError::MalformedRecord { position: 1 }));
    let raw = vec![RawProject { id: RawValue::Other, name: text("x"), shared: RawValue::Absent }];
    assert_eq!(map_projects(&raw), Err(RecordError::MalformedRecord { position: 0 }));
}

#[test]
fn text_encodings_are_normalised() {
    let mut t = raw_task(RawValue::Int(1), text(""), RawValue::Absent);
    t.priority = text("3");
    let mut u = raw_task(RawValue::Int(2), text("44"), RawValue::Absent);
    u.priority = text("7");
    let mut w = raw_task(RawValue::Int(3), RawValue::Absent, RawValue::Absent);
    w.priority = text("high");
    let ts = map_tasks(&vec![t, u, w]).unwrap();
    assert_eq!(ts[0].priority, 3);
    assert_eq!(ts[0].section_id, "");
    assert_eq!(ts[1].priority, 1);
    assert_eq!(ts[1].section_id, "44");
    let zero = map_tasks(&vec![raw_task(RawValue::Int(9), text("0"), RawValue::Absent)]).unwrap();
    assert_eq!(zero[0].section_id, "0");
    assert_eq!(ts[2].priority, 1);

    let flag = |v: RawValue| {
        map_projects(&vec![RawProject { id: RawValue::Int(1), name: text("p"), shared: v }]).unwrap()[0].is_shared
    };
    assert!(flag(text("true")));
    assert!(flag(text("1")));
    assert!(!flag(text("0")));
    assert!(!flag(text("false")));
    assert!(flag(RawValue::Int(2)));
    assert!(!flag(RawValue::Null));
}

#[test]
fn sections_take_numeric_ids_as_text() {
    let raw = vec![RawSection { id: RawValue::Int(-12), project_id: RawValue::Int(99), name: text("Today") }];
    let ss = map_sections(&raw).unwrap();
    assert_eq!(ss[0].id, "-12");
    assert_eq!(ss[0].project_id, "99");
    assert_eq!(ss[0].name, "Today");
}

#[test]
fn task_fields_are_normalised() {
    let mut with_due = raw_task(RawValue::Int(5), RawValue::Int(33), RawValue::Int(2));
    with_due.due_date = text("2021-03-04");
    with_due.priority = RawValue::Int(9);
    let raw = vec![
        raw_task(RawValue::Int(4), RawValue::Null, text("null")),
        with_due,
        raw_task(text("t"), RawValue::Int(0), RawValue::Absent),
    ];
    let ts = map_tasks(&raw).unwrap();
    assert_eq!(ts.len(), 3);
    assert_eq!(ts[0].section_id, "0");
    assert_eq!(ts[0].due_date, None);
    assert_eq!(ts[0].native_order, "null");
    assert_eq!(ts[0].priority, 4);
    assert_eq!(ts[0].project_id, "7");
    assert_eq!(ts[1].section_id, "33");
    assert_eq!(ts[1].due_date, Some("2021-03-04".to_string()));
    assert_eq!(ts[1].native_order, "2");
    assert_eq!(ts[1].priority, 1);
    assert_eq!(ts[2].section_id, "0");
    assert_eq!(ts[2].native_order, "");
    assert_eq!(ts[2].content, "write report");
}

#[test]
fn numbers_render_in_decimal() {
    assert_eq!(u64_text(0), "0");
    assert_eq!(u64_text(1234567890), "1234567890");
    assert_eq!(i64_text(-5), "-5");
    assert_eq!(i64_text(i64::MIN), "-9223372036854775808");
    assert_eq!(i64_text(i64::MAX), "9223372036854775807");
}

#[test]
fn numbers_parse_from_digits_only() {
    assert_eq!(parse_number("42", 0), Some(42));
    assert_eq!(parse_number("P042", 1), Some(42));
    assert_eq!(parse_number("", 0), None);
    assert_eq!(parse_number("4a", 0), None);
    assert_eq!(parse_number("-4", 0), None);
    assert_eq!(parse_number("9223372036854775807", 0), Some(9223372036854775807));
    assert_eq!(parse_number("9223372036854775808", 0), None);
}
