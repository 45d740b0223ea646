use weather_display::{
    classify, format_temperature, format_updated, get_icon, layout_for, resolve, Action, ClockTime,
    Event, Glyph, MainLoop, Phase, PollOutcome, RunState, ShutdownFlag, WeatherSnapshot, BACKGROUND,
    BLANK, FOREGROUND, IDLE_MS, SIGINT, SIGTERM,
};

fn snapshot(code: &str, temp: f64, desc: &str) -> WeatherSnapshot {
    WeatherSnapshot {
        code: code.to_string(),
        temperature: temp as i8,
        description: desc.to_string(),
    }
}

#[test]
fn known_codes_map_to_their_glyphs() {
    let table: Vec<(&str, &str)> = vec![
        ("01d", "\u{f0599}"),
        ("01n", "\u{f0594}"),
        ("02d", "\u{f0595}"),
        ("02n", "\u{f0595}"),
        ("03d", "\u{f0590}"),
        ("03n", "\u{f0590}"),
        ("04d", "\u{f0590}"),
        ("04n", "\u{f0590}"),
        ("09d", "\u{f0597}"),
        ("09n", "\u{f0597}"),
        ("10d", "\u{e304}"),
        ("10b", "\u{e304}"),
        ("11d", "\u{e31c}"),
        ("11n", "\u{e31c}"),
        ("13d", "\u{f0598}"),
        ("13n", "\u{f0598}"),
        ("50d", "\u{f0591}"),
        ("50n", "\u{f0591}"),
    ];
    for (code, glyph) in table {
        assert_eq!(get_icon(&code.to_string()), glyph, "code {}", code);
    }
}

#[test]
fn unknown_codes_map_to_sentinel() {
    for code in ["99z", "", "10n", "01", "01dd", "\u{f0599}"] {
        assert_eq!(resolve(code), Glyph::Unknown);
        assert_eq!(get_icon(&code.to_string()), "X");
    }
}

#[test]
fn drizzle_code_gives_drizzle_glyph() {
    assert_eq!(resolve("10d"), Glyph::Drizzle);
    assert_eq!(get_icon(&"10d".to_string()), Glyph::Drizzle.symbol());
}

#[test]
fn flag_stays_stopping_after_repeated_signals() {
    let mut flag = ShutdownFlag::new();
    assert!(flag.is_running());
    flag.on_signal(10);
    assert!(flag.is_running());
    flag.on_signal(SIGTERM);
    assert_eq!(flag.state(), RunState::Stopping);
    for sig in [SIGINT, SIGTERM, 1, 10, SIGINT] {
        flag.on_signal(sig);
        assert_eq!(flag.state(), RunState::Stopping);
        assert!(!flag.is_running());
    }
}

#[test]
fn interrupt_stops_flag() {
    let mut flag = ShutdownFlag::new();
    flag.on_signal(SIGINT);
    assert!(!flag.is_running());
}

#[test]
fn pending_outcome_sleeps_without_render() {
    let mut lp = MainLoop::new();
    assert!(matches!(lp.step(Event::Flag(RunState::Running)), Action::Poll));
    let a = lp.step(Event::Polled(PollOutcome::Pending));
    assert!(matches!(a, Action::Sleep(500)));
    assert_eq!(IDLE_MS, 500);
    assert_eq!(lp.phase(), Phase::Checking);
}

#[test]
fn failed_outcome_reports_without_render() {
    let mut lp = MainLoop::new();
    lp.step(Event::Flag(RunState::Running));
    let a = lp.step(Event::Polled(classify(Some(Err("network unreachable".to_string())))));
    match a {
        Action::Report(m) => assert_eq!(m, "network unreachable"),
        other => panic!("expected a report, got {:?}", other),
    }
}

#[test]
fn fresh_temperature_is_truncated() {
    let s = snapshot("01d", 21.7, "clear sky");
    assert_eq!(s.temperature, 21);
    assert_eq!(format_temperature(s.temperature), "21\u{b0}");
    let l = layout_for(&s, &ClockTime { hour: 9, minute: 3 });
    assert_eq!(l.draws[1].text, "21\u{b0}");
}

#[test]
fn temperature_edges() {
    assert_eq!(format_temperature(0), "0\u{b0}");
    assert_eq!(format_temperature(-4), "-4\u{b0}");
    assert_eq!(format_temperature(-128), "-128\u{b0}");
    assert_eq!(format_temperature(127), "127\u{b0}");
    assert_eq!(format_temperature((-3.9f64) as i8), "-3\u{b0}");
}

#[test]
fn updated_caption_uses_twelve_hour_clock() {
    let cases = [
        (0u8, 0u8, "Updated: 12:00 AM"),
        (0, 5, "Updated: 12:05 AM"),
        (9, 30, "Updated: 9:30 AM"),
        (12, 0, "Updated: 12:00 PM"),
        (13, 7, "Updated: 1:07 PM"),
        (23, 59, "Updated: 11:59 PM"),
    ];
    for (h, m, want) in cases {
        let t = ClockTime::from_hm(h, m).unwrap();
        assert_eq!(format_updated(&t), want);
    }
}

#[test]
fn clock_time_rejects_out_of_range() {
    assert!(ClockTime::from_hm(24, 0).is_none());
    assert!(ClockTime::from_hm(0, 60).is_none());
    assert_eq!(ClockTime::from_hm(23, 59), Some(ClockTime { hour: 23, minute: 59 }));
}

#[test]
fn layout_has_four_draws_in_order() {
    let s = snapshot("10d", 14.2, "light rain");
    let l = layout_for(&s, &ClockTime { hour: 14, minute: 45 });
    assert_eq!(l.background, BACKGROUND);
    assert_eq!(l.background, 0xe0d0ff);
    assert_eq!(l.foreground, FOREGROUND);
    assert_eq!(l.draws.len(), 4);
    let got: Vec<(String, i16, i16, u16)> =
        l.draws.iter().map(|d| (d.text.clone(), d.x, d.y, d.size)).collect();
    assert_eq!(
        got,
        vec![
            ("\u{e304}".to_string(), 30, -5, 128),
            ("14\u{b0}".to_string(), 128, 15, 80),
            ("light rain".to_string(), 30, 105, 48),
            ("Updated: 2:45 PM".to_string(), 128, 85, 20),
        ]
    );
}

#[test]
fn classify_sorts_three_ways() {
    assert!(matches!(classify(None), PollOutcome::Pending));
    assert!(matches!(classify(Some(Ok(snapshot("01n", 3.0, "clear")))), PollOutcome::Fresh(_)));
    assert!(matches!(classify(Some(Err("401 Unauthorized".to_string()))), PollOutcome::Failed(_)));
}

#[test]
fn fresh_outcome_renders_with_time_now() {
    let mut lp = MainLoop::new();
    lp.step(Event::Flag(RunState::Running));
    match lp.step(Event::Polled(PollOutcome::Fresh(snapshot("13n", -2.5, "snow")))) {
        Action::Render(l) => {
            assert_eq!(l.draws[0].text, "\u{f0598}");
            assert_eq!(l.draws[1].text, "-2\u{b0}");
            assert!(l.draws[3].text.starts_with("Updated: "));
            assert!(l.draws[3].text.ends_with(" AM") || l.draws[3].text.ends_with(" PM"));
        }
        other => panic!("expected a render, got {:?}", other),
    }
}

#[test]
fn renders_once_then_tears_down() {
    let mut flag = ShutdownFlag::new();
    let mut lp = MainLoop::new();
    let mut renders = 0;
    let mut teardowns = 0;
    let mut outcomes = vec![PollOutcome::Fresh(snapshot("02d", 18.0, "few clouds"))];
    let mut event = Event::Flag(flag.state());
    for _ in 0..10 {
        match lp.step(event) {
            Action::Poll => {
                let o = outcomes.pop().unwrap_or(PollOutcome::Pending);
                event = Event::Polled(o);
            }
            Action::Render(_) => {
                renders += 1;
                flag.on_signal(SIGTERM);
                event = Event::Flag(flag.state());
            }
            Action::Teardown(c) => {
                assert_eq!(c, BLANK);
                teardowns += 1;
                event = Event::Flag(flag.state());
            }
            Action::Halt => break,
            other => panic!("unexpected {:?}", other),
        }
    }
    assert_eq!(renders, 1);
    assert_eq!(teardowns, 1);
    assert_eq!(lp.phase(), Phase::Terminated);
    assert!(matches!(lp.step(Event::Flag(RunState::Running)), Action::Halt));
}
