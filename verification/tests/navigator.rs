use chrono::Datelike;
use osars::{Client, Error, Method, Timestamp, Week};

fn wire(now: chrono::DateTime<chrono::Utc>) -> String {
    format!("{:04}-{:02}-{:02}", now.year(), now.month(), now.day())
}

#[test]
fn paths_of_every_level() {
    let client = Client::new("http://h");
    assert_eq!(client.colleges().path(), "/colleges");
    assert_eq!(client.colleges().college(12).path(), "/colleges/12");
    assert_eq!(client.colleges().college(12).campuses().path(), "/colleges/12/campuses");
    assert_eq!(client.colleges().college(12).campus(7).path(), "/campuses/7");
    assert_eq!(client.colleges().college(12).campuses().campus(7).path(), "/campuses/7");
    assert_eq!(client.colleges().college(12).campus(7).groups().path(), "/campuses/7/groups");
    assert_eq!(client.colleges().college(12).campus(7).group(34).path(), "/groups/34");
    assert_eq!(client.groups(7).path(), "/campuses/7/groups");
    assert_eq!(client.groups(7).group(34).path(), "/groups/34");
    assert_eq!(client.groups(7).group(34).schedules().path(), Ok(String::from("/groups/34/schedules")));
    assert_eq!(client.schedule(34).path(), Ok(String::from("/groups/34/schedules")));
}

#[test]
fn identifiers_are_written_in_decimal() {
    let client = Client::new("http://h");
    assert_eq!(client.colleges().college(0).path(), "/colleges/0");
    assert_eq!(client.colleges().college(9).path(), "/colleges/9");
    assert_eq!(client.colleges().college(10).path(), "/colleges/10");
    assert_eq!(client.colleges().college(1203).path(), "/colleges/1203");
    assert_eq!(client.colleges().college(u32::MAX).path(), "/colleges/4294967295");
}

#[test]
fn terminal_requests_are_plain_gets() {
    let client = Client::new("https://api.example.com");
    let request = client.colleges().college(1).get();
    assert_eq!(request.method, Method::Get);
    assert_eq!(request.url, "https://api.example.com/colleges/1");
    assert_eq!(request.body, None);
    assert_eq!(request.authorization, None);
    assert_eq!(client.colleges().college(1).campuses().send().url, "https://api.example.com/colleges/1/campuses");
    assert_eq!(client.groups(2).send().url, "https://api.example.com/campuses/2/groups");
    assert_eq!(client.groups(2).group(3).get().url, "https://api.example.com/groups/3");
    assert_eq!(client.colleges().send().url, "https://api.example.com/colleges");
}

#[test]
fn name_filter_is_percent_encoded_and_omitted_when_unset() {
    let client = Client::new("http://h");
    assert_eq!(client.colleges().college(1).campuses().path(), "/colleges/1/campuses");
    assert_eq!(
        client.colleges().college(1).campuses().name("Main Campus").path(),
        "/colleges/1/campuses?name=Main%20Campus"
    );
    assert_eq!(
        client.colleges().college(1).campuses().name("a&b=c/d?e~f_g-h.i").path(),
        "/colleges/1/campuses?name=a%26b%3Dc%2Fd%3Fe~f_g-h.i"
    );
    assert_eq!(
        client.colleges().name("Тех").path(),
        "/colleges?name=%D0%A2%D0%B5%D1%85"
    );
    assert_eq!(client.colleges().name("Tech").send().url, "http://h/colleges?name=Tech");
}

#[test]
fn empty_name_filter_is_not_sent() {
    let client = Client::new("http://h");
    assert_eq!(client.colleges().name("").path(), "/colleges");
    assert_eq!(client.colleges().college(1).campuses().name("").path(), "/colleges/1/campuses");
}

#[test]
fn schedule_for_an_explicit_date() {
    let client = Client::new("http://h");
    let request = client.groups(1).group(34).date("2025-11-15").send().unwrap();
    assert_eq!(request.method, Method::Get);
    assert_eq!(request.url, "http://h/groups/34/schedules?date=2025-11-15");
    assert_eq!(
        client.schedule(34).date("2025-11-15").path(),
        Ok(String::from("/groups/34/schedules?date=2025-11-15"))
    );
}

#[test]
fn schedule_for_a_malformed_date_gives_no_request() {
    let client = Client::new("http://h");
    assert_eq!(
        client.schedule(34).date("15-11-2025").send(),
        Err(Error::MalformedDate(String::from("15-11-2025")))
    );
    assert_eq!(
        client.schedule(34).date("2025-11-15&x=1").path(),
        Err(Error::MalformedDate(String::from("2025-11-15&x=1")))
    );
    let far = Timestamp { year: 12000, month: 1, day: 1, hour: 0, minute: 0, second: 0 };
    assert!(matches!(client.schedule(34).on(far).send(), Err(Error::MalformedDate(_))));
}

#[test]
fn schedule_for_a_timestamp_uses_its_day() {
    let client = Client::new("http://h");
    let noon = Timestamp { year: 2025, month: 3, day: 4, hour: 12, minute: 0, second: 0 };
    assert_eq!(
        client.schedule(34).on(noon).path(),
        Ok(String::from("/groups/34/schedules?date=2025-03-04"))
    );
}

#[test]
fn schedule_for_a_relative_week() {
    let client = Client::new("http://h");
    assert_eq!(
        client.schedule(5).week(Week::Previus).path(),
        Ok(String::from("/groups/5/schedules?week=previous"))
    );
    assert_eq!(
        client.groups(1).group(5).week(Week::Current).path(),
        Ok(String::from("/groups/5/schedules?week=current"))
    );
    assert_eq!(
        client.schedule(5).week(Week::Next).send().unwrap().url,
        "http://h/groups/5/schedules?week=next"
    );
    assert_eq!(Week::Next.as_str(), "next");
}

#[test]
fn chain_to_today_selects_the_current_utc_day() {
    let client = Client::new("http://h");
    let before = wire(chrono::Utc::now());
    let path = client.colleges().college(1).campus(1).group(34).schedules().today().path().unwrap();
    let after = wire(chrono::Utc::now());
    assert!(
        path == format!("/groups/34/schedules?date={}", before)
            || path == format!("/groups/34/schedules?date={}", after)
    );
    assert!(path.starts_with("/groups/34/schedules?date="));
}

#[test]
fn today_and_tomorrow_shortcuts_agree_with_the_clock() {
    let client = Client::new("http://h");
    let before = chrono::Utc::now();
    let today = client.today(34).path().unwrap();
    let tomorrow = client.tomorrow(34).path().unwrap();
    let via_group = client.groups(1).group(34).tomorrow().path().unwrap();
    let after = chrono::Utc::now();
    let day = chrono::Duration::days(1);
    assert!(
        today == format!("/groups/34/schedules?date={}", wire(before))
            || today == format!("/groups/34/schedules?date={}", wire(after))
    );
    assert!(
        tomorrow == format!("/groups/34/schedules?date={}", wire(before + day))
            || tomorrow == format!("/groups/34/schedules?date={}", wire(after + day))
    );
    assert!(
        via_group == format!("/groups/34/schedules?date={}", wire(before + day))
            || via_group == format!("/groups/34/schedules?date={}", wire(after + day))
    );
    assert_ne!(today, tomorrow);
}
