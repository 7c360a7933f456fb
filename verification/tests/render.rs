use tasklog::decimal::{push_decimal, push_two_digits};
use tasklog::render::{push_block, push_blocks, push_timestamp, render};
use tasklog::template::split_template;
use tasklog::task::Task;
use tasklog::time::Time;

fn stamp(hours: u32, minutes: u32, seconds: u32, days: u32, months: u32, years: u32) -> Time {
    Time { seconds, minutes, hours, days, months, years }
}

fn sample_task() -> Task {
    Task::new(String::from("T"), String::from("C"), stamp(1, 2, 3, 4, 5, 2024))
}

const SAMPLE_BLOCK: &str = "<li style=\"border: 1px solid black; padding: 10px; margin: 10px;\">
            <h2>T</h2>
            <p>C</p>
            <p>Created at 01:02:03 on 04/05/2024.</p>
            </li>";

fn decimal_of(n: u32) -> String {
    let mut out = String::new();
    push_decimal(&mut out, n);
    out
}

fn two_digits_of(n: u32) -> String {
    let mut out = String::new();
    push_two_digits(&mut out, n);
    out
}

fn split(template: &str) -> (String, String) {
    split_template(template)
}

#[test]
fn single_marker_splits_into_prefix_and_suffix() {
    assert_eq!(render("A@@@B", &[]), "AB");
    assert_eq!(split("A@@@B"), (String::from("A"), String::from("B")));
}

#[test]
fn every_marker_is_dropped_and_the_last_segment_is_the_suffix() {
    assert_eq!(render("A@@@B@@@C", &[]), "ABC");
    assert_eq!(split("A@@@B@@@C"), (String::from("AB"), String::from("C")));
}

#[test]
fn blocks_stand_between_prefix_and_suffix() {
    let tasks = vec![sample_task()];
    assert_eq!(render("A@@@B@@@C", &tasks), format!("AB{}C", SAMPLE_BLOCK));
    assert_eq!(render("<ul>@@@</ul>", &tasks), format!("<ul>{}</ul>", SAMPLE_BLOCK));
}

#[test]
fn template_without_marker_is_all_prefix() {
    assert_eq!(split("plain"), (String::from("plain"), String::new()));
    assert_eq!(render("plain", &[]), "plain");
    let tasks = vec![sample_task()];
    assert_eq!(render("plain", &tasks), format!("plain{}", SAMPLE_BLOCK));
}

#[test]
fn empty_template_renders_blocks_alone() {
    assert_eq!(split(""), (String::new(), String::new()));
    assert_eq!(render("", &[]), "");
    let tasks = vec![sample_task(), sample_task()];
    assert_eq!(render("", &tasks), format!("{}{}", SAMPLE_BLOCK, SAMPLE_BLOCK));
}

#[test]
fn empty_task_list_renders_prefix_and_suffix() {
    let (prefix, suffix) = split("<html>@@@</html>");
    assert_eq!(render("<html>@@@</html>", &[]), format!("{}{}", prefix, suffix));
    assert_eq!(render("<html>@@@</html>", &[]), "<html></html>");
}

#[test]
fn markers_at_the_edges_leave_empty_segments() {
    assert_eq!(split("@@@"), (String::new(), String::new()));
    assert_eq!(split("a@@@"), (String::from("a"), String::new()));
    assert_eq!(split("@@@a"), (String::new(), String::from("a")));
    assert_eq!(split("a@@@@@@b"), (String::from("a"), String::from("b")));
}

#[test]
fn markers_are_found_from_the_left_and_do_not_overlap() {
    assert_eq!(split("@@@@"), (String::new(), String::from("@")));
    assert_eq!(split("@@@@@"), (String::new(), String::from("@@")));
    assert_eq!(split("a@@@@b"), (String::from("a"), String::from("@b")));
    assert_eq!(split("@@@@@@@"), (String::new(), String::from("@")));
}

#[test]
fn shorter_runs_of_at_signs_are_ordinary_text() {
    assert_eq!(split("@"), (String::from("@"), String::new()));
    assert_eq!(split("@@"), (String::from("@@"), String::new()));
    assert_eq!(split("a@b@@c"), (String::from("a@b@@c"), String::new()));
    assert_eq!(split("a@@b@@@c@d@@"), (String::from("a@@b"), String::from("c@d@@")));
    assert_eq!(split("x@@@y@@"), (String::from("x"), String::from("y@@")));
}

#[test]
fn split_with_a_marker_agrees_with_the_standard_split_and_join() {
    let templates = [
        "@@@",
        "@@@@",
        "a@@@b@@@@c@@",
        "@@a@@@",
        "head@@@mid@@@tail",
        "\u{e9}@@@\u{fc}\u{1f600}@@@@",
        "@@@@@@@@@",
        "<html>\n<body><ul>\n@@@\n</ul></body>\n</html>\n",
    ];
    for template in templates {
        let mut parts: Vec<&str> = template.split("@@@").collect();
        let last = parts.pop().unwrap_or_default();
        let expected = (parts.join(""), String::from(last));
        assert_eq!(split(template), expected, "template {:?}", template);
    }
}

#[test]
fn text_beyond_ascii_passes_through() {
    assert_eq!(
        split("\u{e9}t\u{e9}@@@\u{65e5}\u{672c}"),
        (String::from("\u{e9}t\u{e9}"), String::from("\u{65e5}\u{672c}"))
    );
}

#[test]
fn task_block_is_formatted_with_padded_timestamp() {
    let mut out = String::new();
    push_block(&mut out, &sample_task());
    assert!(out.contains("Created at 01:02:03 on 04/05/2024."));
    assert_eq!(out, SAMPLE_BLOCK);
}

#[test]
fn task_block_is_appended_to_what_is_there() {
    let mut out = String::from("before");
    push_block(&mut out, &sample_task());
    assert_eq!(out, format!("before{}", SAMPLE_BLOCK));
}

#[test]
fn title_and_content_are_not_escaped() {
    let task = Task::new(
        String::from("<b>bold</b>"),
        String::from("a & b @@@ c"),
        stamp(23, 59, 59, 31, 12, 1999),
    );
    let mut out = String::new();
    push_block(&mut out, &task);
    assert!(out.contains("<h2><b>bold</b></h2>"));
    assert!(out.contains("<p>a & b @@@ c</p>"));
    assert!(out.contains("Created at 23:59:59 on 31/12/1999."));
}

#[test]
fn blocks_follow_the_order_of_the_tasks() {
    let first = Task::new(String::from("one"), String::from("1"), stamp(0, 0, 0, 1, 1, 0));
    let second = Task::new(String::from("two"), String::from("2"), stamp(10, 20, 30, 15, 6, 987));
    let mut each = String::new();
    push_block(&mut each, &first);
    push_block(&mut each, &second);
    let mut all = String::new();
    push_blocks(&mut all, &[first.clone(), second.clone()]);
    assert_eq!(all, each);
    assert!(all.find("<h2>one</h2>").unwrap() < all.find("<h2>two</h2>").unwrap());
    assert!(all.contains("Created at 00:00:00 on 01/01/0."));
    assert!(all.contains("Created at 10:20:30 on 15/06/987."));
    assert_eq!(render("[@@@]", &[first, second]), format!("[{}]", each));
}

#[test]
fn timestamp_is_written_as_time_on_date() {
    let mut out = String::new();
    push_timestamp(&mut out, &stamp(1, 2, 3, 4, 5, 2024));
    assert_eq!(out, "01:02:03 on 04/05/2024");
    let mut out = String::new();
    push_timestamp(&mut out, &stamp(23, 0, 59, 31, 12, 12345));
    assert_eq!(out, "23:00:59 on 31/12/12345");
}

#[test]
fn timestamp_agrees_with_the_standard_formatter() {
    let times = [
        stamp(0, 0, 0, 1, 1, 0),
        stamp(9, 10, 11, 9, 10, 99),
        stamp(123, 7, 100, 0, 4000, u32::MAX),
    ];
    for t in times {
        let mut out = String::new();
        push_timestamp(&mut out, &t);
        let expected = format!(
            "{:02}:{:02}:{:02} on {:02}/{:02}/{}",
            t.hours, t.minutes, t.seconds, t.days, t.months, t.years
        );
        assert_eq!(out, expected);
    }
}

#[test]
fn decimal_writes_every_digit() {
    assert_eq!(decimal_of(0), "0");
    assert_eq!(decimal_of(7), "7");
    assert_eq!(decimal_of(10), "10");
    assert_eq!(decimal_of(2024), "2024");
    assert_eq!(decimal_of(1234567890), "1234567890");
    assert_eq!(decimal_of(u32::MAX), "4294967295");
}

#[test]
fn decimal_appends_to_what_is_there() {
    let mut out = String::from("year ");
    push_decimal(&mut out, 1970);
    assert_eq!(out, "year 1970");
}

#[test]
fn two_digits_pads_below_ten_only() {
    assert_eq!(two_digits_of(0), "00");
    assert_eq!(two_digits_of(9), "09");
    assert_eq!(two_digits_of(10), "10");
    assert_eq!(two_digits_of(59), "59");
    assert_eq!(two_digits_of(100), "100");
    for n in 0..200 {
        assert_eq!(two_digits_of(n), format!("{:02}", n));
    }
}

#[test]
fn every_digit_is_written_as_itself() {
    let digits: Vec<String> = (0..10).map(decimal_of).collect();
    assert_eq!(digits.concat(), "0123456789");
    assert_eq!(decimal_of(9876543), "9876543");
    assert_eq!(decimal_of(1020304050), "1020304050");
}
