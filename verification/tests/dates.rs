use osars::utils::calendar::{leap_year, month_length};
use osars::utils::date_serde::{deserialize, serialize};
use osars::{Error, Lesson, Schedule, Timestamp};

fn midnight(year: i32, month: u32, day: u32) -> Timestamp {
    Timestamp { year, month, day, hour: 0, minute: 0, second: 0 }
}

#[test]
fn decode_gives_midnight_utc() {
    assert_eq!(deserialize("2025-11-15"), Ok(midnight(2025, 11, 15)));
    assert_eq!(deserialize("0000-01-01"), Ok(midnight(0, 1, 1)));
    assert_eq!(deserialize("9999-12-31"), Ok(midnight(9999, 12, 31)));
    assert_eq!(deserialize("2024-02-29"), Ok(midnight(2024, 2, 29)));
    assert_eq!(deserialize("2000-02-29"), Ok(midnight(2000, 2, 29)));
}

#[test]
fn encode_drops_the_time_of_day() {
    let late = Timestamp { year: 2025, month: 11, day: 15, hour: 23, minute: 59, second: 58 };
    assert_eq!(serialize(&late), Ok(String::from("2025-11-15")));
    assert_eq!(serialize(&midnight(7, 3, 9)), Ok(String::from("0007-03-09")));
    assert_eq!(deserialize(&serialize(&late).unwrap()), Ok(midnight(2025, 11, 15)));
}

#[test]
fn decode_then_encode_gives_the_text_back() {
    for text in ["2025-11-15", "1970-01-01", "0001-02-03", "2024-02-29", "9999-12-31", "2023-10-09"] {
        let date = deserialize(text).unwrap();
        assert_eq!(serialize(&date), Ok(String::from(text)));
    }
}

#[test]
fn decode_rejects_what_is_not_a_date() {
    for text in [
        "15-11-2025", "", "2025-13-40", "2025-00-10", "2025-11-00", "2025-11-31", "2023-02-29",
        "1900-02-29", "2025-1-05", "2025-11-5", "2025/11/15", "2025-11-15 ", " 2025-11-15",
        "2025-11-15T00:00:00Z", "+2025-11-15", "20251115", "2025-11-1５", "abcd-ef-gh", "2025_11_15",
    ] {
        assert_eq!(deserialize(text), Err(Error::MalformedDate(String::from(text))));
    }
}

#[test]
fn encode_rejects_what_has_no_wire_form() {
    assert!(matches!(serialize(&midnight(10000, 1, 1)), Err(Error::MalformedDate(_))));
    assert!(matches!(serialize(&midnight(-1, 1, 1)), Err(Error::MalformedDate(_))));
    assert!(matches!(serialize(&midnight(2025, 13, 1)), Err(Error::MalformedDate(_))));
    assert!(matches!(serialize(&midnight(2025, 2, 30)), Err(Error::MalformedDate(_))));
    let bad_time = Timestamp { year: 2025, month: 1, day: 1, hour: 24, minute: 0, second: 0 };
    assert!(matches!(serialize(&bad_time), Err(Error::MalformedDate(_))));
}

#[test]
fn calendar_month_lengths() {
    assert!(leap_year(2024));
    assert!(leap_year(2000));
    assert!(!leap_year(1900));
    assert!(!leap_year(2025));
    assert_eq!(month_length(2025, 1), 31);
    assert_eq!(month_length(2025, 2), 28);
    assert_eq!(month_length(2024, 2), 29);
    assert_eq!(month_length(2025, 4), 30);
    assert_eq!(month_length(2025, 12), 31);
    assert_eq!(month_length(2025, 0), 0);
    assert_eq!(month_length(2025, 13), 0);
}

#[test]
fn timestamp_construction_checks_the_fields() {
    assert_eq!(Timestamp::new(2025, 11, 15, 8, 30, 0), Some(Timestamp {
        year: 2025, month: 11, day: 15, hour: 8, minute: 30, second: 0,
    }));
    assert_eq!(Timestamp::new(2025, 11, 31, 0, 0, 0), None);
    assert_eq!(Timestamp::new(2025, 11, 15, 24, 0, 0), None);
    assert_eq!(Timestamp::new(2025, 11, 15, 0, 60, 0), None);
    assert_eq!(Timestamp::new(2025, 11, 15, 0, 0, 60), None);
    assert_eq!(Timestamp::midnight(2025, 11, 15), Some(midnight(2025, 11, 15)));
    assert_eq!(Timestamp::midnight(2025, 2, 29), None);
    assert!(midnight(2024, 2, 29).is_valid());
    assert!(!midnight(2023, 2, 29).is_valid());
}

#[test]
fn next_day_steps_over_month_and_year_ends() {
    assert_eq!(midnight(2025, 11, 15).next_day(), midnight(2025, 11, 16));
    assert_eq!(midnight(2025, 11, 30).next_day(), midnight(2025, 12, 1));
    assert_eq!(midnight(2025, 12, 31).next_day(), midnight(2026, 1, 1));
    assert_eq!(midnight(2024, 2, 28).next_day(), midnight(2024, 2, 29));
    assert_eq!(midnight(2023, 2, 28).next_day(), midnight(2023, 3, 1));
    let evening = Timestamp { year: 2025, month: 1, day: 31, hour: 22, minute: 5, second: 7 };
    assert_eq!(evening.next_day(), Timestamp { year: 2025, month: 2, day: 1, hour: 22, minute: 5, second: 7 });
}

#[test]
fn schedule_date_reads_as_midnight_utc() {
    let body = r#"[{"group_id":34,"date":"2025-11-15","lessons":[{"lesson_id":1,"group_id":34,"order":1,"title":"Math","teacher":"T","cabinet":"101"}]}]"#;
    let value: serde_json::Value = serde_json::from_str(body).unwrap();
    let first = &value[0];
    let lesson = &first["lessons"][0];
    let schedule = Schedule::new(
        first["group_id"].as_u64().unwrap() as u32,
        String::from(first["date"].as_str().unwrap()),
        vec![Lesson {
            lesson_id: lesson["lesson_id"].as_u64().unwrap() as u32,
            group_id: lesson["group_id"].as_u64().unwrap() as u32,
            order: lesson["order"].as_u64().unwrap() as u32,
            title: String::from(lesson["title"].as_str().unwrap()),
            teacher: String::from(lesson["teacher"].as_str().unwrap()),
            cabinet: String::from(lesson["cabinet"].as_str().unwrap()),
        }],
    )
    .unwrap();
    assert_eq!(schedule.group_id, 34);
    assert_eq!(schedule.date, "2025-11-15");
    assert_eq!(schedule.day(), Ok(midnight(2025, 11, 15)));
    assert_eq!(schedule.lessons[0].order, 1);
    let broken = Schedule { group_id: 34, date: String::from("15.11.2025"), lessons: vec![] };
    assert_eq!(broken.day(), Err(Error::MalformedDate(String::from("15.11.2025"))));
}

#[test]
fn schedule_with_another_date_form_is_refused() {
    for date in ["2025-11-15T00:00:00Z", "15.11.2025", "20251115", ""] {
        let made = Schedule::new(34, String::from(date), vec![]);
        assert!(matches!(made, Err(Error::MalformedDate(ref text)) if text == date));
    }
}
