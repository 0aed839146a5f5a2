use paperwatch::clock::Weekday;
use paperwatch::log::PaperLog;
use paperwatch::paper::Paper;
use paperwatch::storage::Storage;
use paperwatch::trigger::{Outcome, TriggerState};
use paperwatch::clock::Moment;

fn paper(keyword: &str, title: &str, href: &str) -> Paper {
    Paper {
        keyword: keyword.to_string(),
        title: title.to_string(),
        journal: "Carbon".to_string(),
        href: href.to_string(),
    }
}

fn offer(store: &mut Storage, p: &Paper) -> bool {
    store.insert((p.keyword.clone(), p.href.clone()), p.clone())
}

fn permit() -> paperwatch::trigger::RotationPermit {
    let now = Moment { weekday: Weekday::Wed, hour: 8, minute: 0 };
    let mut state = TriggerState::new().poll(now, now).0;
    match state.maybe_notify(true) {
        Outcome::Delivered(p) => p,
        other => panic!("unexpected outcome {:?}", other),
    }
}

#[test]
fn a_fresh_store_knows_nothing() {
    let store = Storage::new();
    assert!(!store.contains_key("https://example.org/a"));
    assert!(store.keyword_from_settings().is_empty());
    assert_eq!(store.time_from_settings(), (8, 0, Weekday::Wed));
}

#[test]
fn the_answer_for_an_href_is_the_same_throughout_a_cycle() {
    let mut store = Storage::new();
    let a = paper("graphene", "First sighting", "https://example.org/a");
    let again = paper("nanotube", "Second sighting", "https://example.org/a");
    assert!(offer(&mut store, &a));
    assert!(offer(&mut store, &again));
    assert!(!store.contains_key("https://example.org/a"));
    store.update(vec!["graphene".to_string(), "nanotube".to_string()]);
    assert!(store.contains_key("https://example.org/a"));
    assert!(!offer(&mut store, &a));
    assert!(!offer(&mut store, &again));
}

#[test]
fn a_committed_paper_is_never_new_again() {
    let mut store = Storage::new();
    let a = paper("graphene", "A", "https://example.org/a");
    let b = paper("graphene", "B", "https://example.org/b");
    assert!(offer(&mut store, &a));
    store.update(vec!["graphene".to_string()]);
    // second cycle: a is known, b is new, also under another term
    assert!(!offer(&mut store, &paper("perovskite", "A", "https://example.org/a")));
    assert!(offer(&mut store, &b));
    store.update(vec!["perovskite".to_string()]);
    // third cycle, which does not see a at all
    assert!(!offer(&mut store, &b));
    store.update(vec![]);
    // fourth cycle: a is still known
    assert!(!offer(&mut store, &a));
    assert!(store.contains_key("https://example.org/a"));
    assert!(store.contains_key("https://example.org/b"));
}

#[test]
fn an_empty_commit_forgets_nothing() {
    let mut store = Storage::new();
    assert!(offer(&mut store, &paper("graphene", "A", "https://example.org/a")));
    store.update(vec!["graphene".to_string()]);
    store.update(vec!["graphene".to_string()]);
    assert!(store.contains_key("https://example.org/a"));
}

#[test]
fn scoped_novelty_asks_for_a_new_term_too() {
    let mut store = Storage::new().with_keyword_scoped_novelty(true);
    let a = paper("graphene", "A", "https://example.org/a");
    let b = paper("graphene", "B", "https://example.org/b");
    let c = paper("perovskite", "C", "https://example.org/c");
    assert!(offer(&mut store, &a));
    store.update(vec!["graphene".to_string()]);
    // graphene was searched in the last cycle: nothing under it is new
    assert!(!offer(&mut store, &b));
    // perovskite was not
    assert!(offer(&mut store, &c));
    // a known paper is not new under a new term either
    assert!(!offer(&mut store, &paper("perovskite", "A", "https://example.org/a")));
}

#[test]
fn accepted_papers_are_logged_once_and_in_order() {
    let mut store = Storage::new();
    let known = paper("graphene", "Known", "https://example.org/known");
    assert!(offer(&mut store, &known));
    store.update(vec!["graphene".to_string()]);

    let a = paper("graphene", "A", "https://example.org/a");
    let b = paper("graphene", "B", "https://example.org/b");
    let first = store.accept(a).unwrap().unwrap();
    assert_eq!(
        String::from_utf8(first).unwrap(),
        "keyword,title,journal,href\ngraphene,A,Carbon,https://example.org/a\n"
    );
    assert_eq!(store.accept(known).unwrap(), None);
    let second = store.accept(b).unwrap().unwrap();
    assert_eq!(String::from_utf8(second).unwrap(), "graphene,B,Carbon,https://example.org/b\n");
    assert_eq!(
        String::from_utf8(store.send_email().body).unwrap(),
        "keyword,title,journal,href\n\
         graphene,A,Carbon,https://example.org/a\n\
         graphene,B,Carbon,https://example.org/b\n"
    );
}

#[test]
fn rows_are_quoted_as_csv_asks() {
    let mut store = Storage::new();
    let p = paper("solid state", "Fast, \"cheap\" and\nstable", "https://example.org/q?a=1,2");
    let bytes = store.write_to_file(&p).unwrap();
    assert_eq!(
        String::from_utf8(bytes).unwrap(),
        "keyword,title,journal,href\n\
         solid state,\"Fast, \"\"cheap\"\" and\nstable\",Carbon,\"https://example.org/q?a=1,2\"\n"
    );
}

#[test]
fn a_new_table_starts_empty_and_with_its_header() {
    let mut store = Storage::new();
    store.write_to_file(&paper("graphene", "A", "https://example.org/a")).unwrap();
    assert!(!store.send_email().body.is_empty());
    store.new_file_handle(permit());
    assert!(store.send_email().body.is_empty());
    let bytes = store.write_to_file(&paper("graphene", "B", "https://example.org/b")).unwrap();
    assert_eq!(
        String::from_utf8(bytes).unwrap(),
        "keyword,title,journal,href\ngraphene,B,Carbon,https://example.org/b\n"
    );
}

#[test]
fn the_log_on_its_own() {
    let mut log = PaperLog::new();
    assert!(log.is_fresh());
    assert!(log.snapshot().is_empty());
    let added = log.record(&b"h\n".to_vec(), &b"r1\n".to_vec());
    assert_eq!(added, b"h\nr1\n".to_vec());
    let added = log.record(&b"h\n".to_vec(), &b"r2\n".to_vec());
    assert_eq!(added, b"r2\n".to_vec());
    assert_eq!(log.snapshot(), b"h\nr1\nr2\n".to_vec());
    assert!(!log.is_fresh());
    log.rotate(permit());
    assert!(log.is_fresh());
    assert!(log.snapshot().is_empty());
    let bytes = log.append(&paper("k", "t", "h")).unwrap();
    assert_eq!(String::from_utf8(bytes).unwrap(), "keyword,title,journal,href\nk,t,Carbon,h\n");
}

#[test]
fn the_later_offer_of_an_href_wins_in_staging() {
    let mut store = Storage::new();
    let old = paper("graphene", "Old title", "https://example.org/a");
    let new = paper("graphene", "New title", "https://example.org/a");
    assert!(offer(&mut store, &old));
    assert!(offer(&mut store, &new));
    store.update(vec!["graphene".to_string()]);
    assert!(store.contains_key("https://example.org/a"));
    assert!(!store.contains_key("https://example.org/b"));
}

#[test]
fn the_mail_of_a_store_carries_its_table() {
    let store = Storage::new();
    let mail = store.send_email();
    assert_eq!(mail.from, "Crawler <@naver.com>");
    assert_eq!(mail.to, "");
    assert_eq!(mail.file_name, "Papers.csv");
    assert!(mail.body.is_empty());
}

#[test]
fn a_page_of_papers_is_accepted_in_order() {
    let mut store = Storage::new();
    assert!(offer(&mut store, &paper("graphene", "Known", "https://example.org/known")));
    store.update(vec!["graphene".to_string()]);
    let page = vec![
        paper("graphene", "A", "https://example.org/a"),
        paper("graphene", "Known", "https://example.org/known"),
        paper("graphene", "B", "https://example.org/b"),
        paper("graphene", "A again", "https://example.org/a"),
    ];
    let added = store.accept_all(&page);
    let expected = "keyword,title,journal,href\n\
                    graphene,A,Carbon,https://example.org/a\n\
                    graphene,B,Carbon,https://example.org/b\n\
                    graphene,A again,Carbon,https://example.org/a\n";
    assert_eq!(String::from_utf8(added).unwrap(), expected);
    assert_eq!(String::from_utf8(store.send_email().body).unwrap(), expected);
    assert!(store.accept_all(&vec![]).is_empty());
    store.update(vec!["graphene".to_string()]);
    assert!(store.accept_all(&page).is_empty());
}
