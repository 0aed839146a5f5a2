use paperwatch::clock::{Moment, Weekday};
use paperwatch::paper::Paper;
use paperwatch::scheduler::Scheduler;
use paperwatch::settings::RawSettings;
use paperwatch::trigger::{Action, Outcome, Phase, TriggerState};

fn wed(hour: u32, minute: u32) -> Moment {
    Moment { weekday: Weekday::Wed, hour, minute }
}

fn settings(time: &str, weekday: &str) -> RawSettings {
    RawSettings {
        keyword: Some(vec!["graphene".to_string()]),
        email: Some("reader@example.org".to_string()),
        time: Some(time.to_string()),
        weekday: Some(weekday.to_string()),
        id: Some("crawler".to_string()),
        password: Some("SECRET-REDACTED".to_string()),
    }
}

fn paper(href: &str) -> Paper {
    Paper {
        keyword: "graphene".to_string(),
        title: "A title".to_string(),
        journal: "A journal".to_string(),
        href: href.to_string(),
    }
}

#[test]
fn one_cycle_for_ticks_every_second_around_the_target() {
    let target = wed(8, 0);
    let mut state = TriggerState::new();
    let mut cycles = 0;
    let mut notifies = 0;
    // 07:59:58 up to 08:01:02, one tick a second
    for second in (7 * 3600 + 59 * 60 + 58)..=(8 * 3600 + 60 + 2) {
        let now = wed(second / 3600, (second / 60) % 60);
        let (next, action) = state.poll(now, target);
        state = next;
        match action {
            Action::RunCycle => cycles += 1,
            Action::Notify => notifies += 1,
            Action::NoOp => {}
        }
    }
    assert_eq!(cycles, 1);
    assert_eq!(notifies, 59);
    assert_eq!(state, TriggerState { last_fired: None, sent: false });
}

#[test]
fn one_cycle_whatever_the_poll_interval() {
    for interval in [1u32, 7, 13, 59] {
        let target = wed(8, 0);
        let mut state = TriggerState::new();
        let mut cycles = 0;
        let mut second = 7 * 3600 + 58 * 60;
        while second < 8 * 3600 + 180 {
            let (next, action) = state.poll(wed(second / 3600, (second / 60) % 60), target);
            state = next;
            if action == Action::RunCycle {
                cycles += 1;
            }
            second += interval;
        }
        assert_eq!(cycles, 1, "interval {}", interval);
    }
}

#[test]
fn the_same_minute_a_week_later_fires_again() {
    let target = wed(8, 0);
    let state = TriggerState::new();
    let (state, a1) = state.poll(wed(8, 0), target);
    let (state, a2) = state.poll(wed(8, 1), target);
    let (state, a3) = state.poll(wed(8, 0), target);
    assert_eq!((a1, a2, a3), (Action::RunCycle, Action::NoOp, Action::RunCycle));
    assert_eq!(state.last_fired, Some(wed(8, 0)));
}

#[test]
fn phases() {
    let target = wed(8, 0);
    let idle = TriggerState::new();
    assert_eq!(idle.current_phase(&wed(7, 59), &target), Phase::Idle);
    assert_eq!(idle.current_phase(&wed(8, 0), &target), Phase::Armed);
    let (fired, _) = idle.poll(wed(8, 0), target);
    assert_eq!(fired.current_phase(&wed(8, 0), &target), Phase::Fired);
    assert_eq!(fired.current_phase(&wed(8, 1), &target), Phase::Idle);
    let thu = Moment { weekday: Weekday::Thu, hour: 8, minute: 0 };
    assert_eq!(idle.current_phase(&thu, &target), Phase::Idle);
}

#[test]
fn changing_the_target_within_the_minute_starts_no_second_cycle() {
    let mut s = Scheduler::default();
    s.configure(&settings("08:00", "Wed")).unwrap();
    assert_eq!(s.poll(wed(8, 0)), Action::RunCycle);
    s.configure(&settings("09:30", "Wed")).unwrap();
    assert_eq!(s.poll(wed(8, 0)), Action::Notify);
    s.configure(&settings("08:00", "Wed")).unwrap();
    assert_eq!(s.poll(wed(8, 0)), Action::Notify);
    assert_eq!(s.poll(wed(8, 1)), Action::NoOp);
    assert_eq!(s.poll(wed(9, 30)), Action::NoOp);
    s.configure(&settings("09:30", "Wed")).unwrap();
    assert_eq!(s.poll(wed(9, 30)), Action::RunCycle);
}

#[test]
fn a_refused_reload_keeps_the_trigger_on_its_target() {
    let mut s = Scheduler::default();
    s.configure(&settings("08:00", "Wed")).unwrap();
    assert!(s.configure(&settings("25:00", "Thu")).is_err());
    assert_eq!(s.target(), wed(8, 0));
    assert_eq!(s.poll(wed(8, 0)), Action::RunCycle);
}

#[test]
fn five_failed_sends_then_one_that_goes_through() {
    let mut state = TriggerState::new();
    let target = wed(8, 0);
    state = state.poll(wed(8, 0), target).0;
    for _ in 0..5 {
        assert!(state.send_wanted());
        assert!(matches!(state.maybe_notify(false), Outcome::Failed));
        assert!(!state.sent);
    }
    assert!(matches!(state.maybe_notify(true), Outcome::Delivered(_)));
    assert!(state.sent);
    for delivered in [true, false, true] {
        assert!(!state.send_wanted());
        assert!(matches!(state.maybe_notify(delivered), Outcome::AlreadySent));
        assert!(state.sent);
        assert_eq!(state.poll(wed(8, 0), target).1, Action::NoOp);
    }
    // the window closes
    state = state.poll(wed(8, 1), target).0;
    assert!(!state.sent);
    assert!(matches!(state.maybe_notify(true), Outcome::NotDue));
    assert!(!state.sent);
}

#[test]
fn the_table_is_rotated_only_after_a_send_went_through() {
    let mut s = Scheduler::default();
    s.configure(&settings("08:00", "Wed")).unwrap();
    assert_eq!(s.poll(wed(8, 0)), Action::RunCycle);
    s.write(&paper("https://example.org/a")).unwrap();
    let mut rotations = 0;
    let mut attempts = 0;
    // the transport fails twice, then succeeds
    for delivered in [false, false, true] {
        assert_eq!(s.poll(wed(8, 0)), Action::Notify);
        let mail = s.send_email().unwrap();
        assert_eq!(
            String::from_utf8(mail.body).unwrap(),
            "keyword,title,journal,href\ngraphene,A title,A journal,https://example.org/a\n"
        );
        attempts += 1;
        match s.maybe_notify(delivered) {
            Outcome::Delivered(permit) => {
                assert_eq!(attempts, 3);
                s.new_buffer(permit);
                rotations += 1;
            }
            Outcome::Failed => assert_eq!(rotations, 0),
            other => panic!("unexpected outcome {:?}", other),
        }
    }
    assert_eq!(rotations, 1);
    assert_eq!(s.poll(wed(8, 0)), Action::NoOp);
    assert!(s.send_email().is_none());
    // the next table starts with its header again
    let bytes = s.write(&paper("https://example.org/b")).unwrap();
    assert!(String::from_utf8(bytes).unwrap().starts_with("keyword,title,journal,href\n"));
}

#[test]
fn an_unsent_notification_is_dropped_when_the_minute_is_over() {
    let mut s = Scheduler::default();
    s.configure(&settings("08:00", "Wed")).unwrap();
    assert_eq!(s.poll(wed(8, 0)), Action::RunCycle);
    assert!(matches!(s.maybe_notify(false), Outcome::Failed));
    assert_eq!(s.poll(wed(8, 1)), Action::NoOp);
    assert!(s.send_email().is_none());
    assert!(matches!(s.maybe_notify(true), Outcome::NotDue));
    assert_eq!(s.state(), TriggerState { last_fired: None, sent: false });
}

#[test]
fn the_mail_names_sender_recipient_and_attachment() {
    let mut s = Scheduler::default();
    s.configure(&settings("08:00", "Wed")).unwrap();
    s.poll(wed(8, 0));
    let mail = s.send_email().unwrap();
    assert_eq!(mail.from, "Crawler <crawler@naver.com>");
    assert_eq!(mail.to, "reader@example.org");
    assert_eq!(mail.subject, "SMTP Test");
    assert_eq!(mail.relay, "smtp.naver.com");
    assert_eq!(mail.user, "crawler");
    assert_eq!(mail.password, "SECRET-REDACTED");
    assert_eq!(mail.file_name, "Papers.csv");
    assert_eq!(mail.content_type, "text/csv");
    assert!(mail.body.is_empty());
}

#[test]
fn the_clock_gives_a_minute_of_the_week() {
    let mut s = Scheduler::default();
    let (action, now) = s.tick();
    assert!(now.hour < 24 && now.minute < 60);
    let due = now == s.target();
    assert_eq!(action == Action::RunCycle, due);
    assert_eq!(s.state().last_fired.is_some(), due);
    assert_eq!(s.is_now(&now), due);
    assert!(s.is_now(&wed(8, 0)));
    assert!(!s.is_now(&wed(8, 1)));
}

#[test]
fn moments_are_checked() {
    assert_eq!(Moment::new(Weekday::Mon, 23, 59), Some(Moment { weekday: Weekday::Mon, hour: 23, minute: 59 }));
    assert_eq!(Moment::new(Weekday::Mon, 24, 0), None);
    assert_eq!(Moment::new(Weekday::Mon, 0, 60), None);
    assert!(wed(8, 0).same_minute(&wed(8, 0)));
    assert!(!wed(8, 0).same_minute(&wed(8, 1)));
}
