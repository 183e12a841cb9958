use dotclock::config::{default_mode, default_order, default_true, order_or_default, Args, ClockConfig, Format, Mode, mode_of};
use dotclock::instant::{FixedOffset, Moment};
use dotclock::render::{field_of, render, DotClock, Field};

fn at(year: i32, month: u8, day: u8, hour: u8, minute: u8, second: u8) -> Moment {
    Moment {
        year,
        month,
        day,
        hour,
        minute,
        second,
        offset: FixedOffset { hours: 0, minutes: 0, seconds: 0 },
    }
}

fn config(order: &[&str], show_date: bool, show_time: bool) -> ClockConfig {
    ClockConfig {
        format: Format::new(order.iter().map(|s| s.to_string()).collect()),
        show_date,
        show_time,
        offset: None,
        mode: "cli".to_string(),
    }
}

#[test]
fn time_only_default_order() {
    let mut c = ClockConfig::default();
    c.show_date = false;
    let line = render(&at(2024, 3, 7, 14, 5, 9), &c);
    assert_eq!(line, "\u{280E}\u{2805}\u{2809}\n");
    assert_eq!(line.chars().count(), 4);
}

#[test]
fn literal_separator_between_fields() {
    let c = config(&["hour", ":", "minute"], true, true);
    assert_eq!(render(&at(2024, 3, 7, 14, 5, 9), &c), "\u{280E}:\u{2805}\n");
}

#[test]
fn full_default_line() {
    let c = ClockConfig::default();
    let line = render(&at(2024, 3, 7, 14, 5, 9), &c);
    assert_eq!(line, "\u{2802}\u{2804}\u{2803}\u{2807}\u{280E}\u{2805}\u{2809}\n");
}

#[test]
fn date_only_line() {
    let c = config(&["day", "/", "month", "/", "year", "hour"], true, false);
    assert_eq!(render(&at(1999, 12, 31, 23, 59, 59), &c), "\u{281F}/\u{280C}/\u{2809}\u{2809}\n");
}

#[test]
fn nothing_shown_is_just_a_line_feed() {
    let c = config(&[], false, false);
    assert_eq!(render(&at(2024, 1, 1, 0, 0, 0), &c), "\n");
}

#[test]
fn unknown_tokens_pass_through() {
    let c = config(&["Year", "at ", "second"], true, true);
    assert_eq!(render(&at(2024, 1, 1, 0, 0, 42), &c), "Yearat \u{282A}\n");
}

#[test]
fn field_names() {
    assert_eq!(field_of(&"year".to_string()), Some(Field::Year));
    assert_eq!(field_of(&"second".to_string()), Some(Field::Second));
    assert_eq!(field_of(&"hours".to_string()), None);
}

#[test]
fn empty_order_falls_back_to_default() {
    assert_eq!(order_or_default(Vec::new()), default_order());
    assert_eq!(Format::new(Vec::new()).order, vec!["year", "month", "day", "hour", "minute", "second"]);
    assert_eq!(order_or_default(vec![":".to_string()]), vec![":".to_string()]);
}

#[test]
fn defaults() {
    assert!(default_true());
    assert_eq!(default_mode(), "cli");
    let c = ClockConfig::default();
    assert!(c.show_date && c.show_time);
    assert_eq!(c.offset, None);
    assert_eq!(c.mode, "cli");
    assert_eq!(c.format.order, default_order());
}

#[test]
fn merge_prefers_arguments() {
    let base = ClockConfig::default();
    let args = Args {
        mode: Some("tui".to_string()),
        once: true,
        show_date: Some(false),
        show_time: None,
        offset: Some("+05".to_string()),
    };
    let m = base.merge_args(&args);
    assert!(!m.show_date);
    assert!(m.show_time);
    assert_eq!(m.offset, Some("+05".to_string()));
    assert_eq!(m.mode, "tui");
    assert_eq!(m.format.order, default_order());
}

#[test]
fn merge_keeps_configured_values() {
    let mut base = config(&["hour"], false, true);
    base.offset = Some("+01".to_string());
    let args = Args { mode: None, once: false, show_date: None, show_time: Some(false), offset: None };
    let m = base.merge_args(&args);
    assert!(!m.show_date);
    assert!(!m.show_time);
    assert_eq!(m.offset, Some("+01".to_string()));
    assert_eq!(m.mode, "cli");
    assert_eq!(m.format.order, vec!["hour".to_string()]);
}

#[test]
fn mode_selection() {
    assert_eq!(mode_of(&"tui".to_string()), Some(Mode::Tui));
    assert_eq!(mode_of(&"cli".to_string()), Some(Mode::Cli));
    assert_eq!(mode_of(&"other".to_string()), None);
    assert_eq!(mode_of(&"".to_string()), None);
}

#[test]
fn single_shot_renders_one_line() {
    let c = ClockConfig::default();
    let line = DotClock::new(&c).display();
    assert!(line.ends_with('\n'));
    assert_eq!(line.lines().count(), 1);
    assert_eq!(line.chars().count(), 8);
    assert!(line.chars().take(7).all(|ch| ('\u{2800}'..='\u{28FF}').contains(&ch)));
}
