use trance::inhibit::{InhibitCheck, InhibitorState, LOGIND_CACHE_MILLIS};
use trance::monitor::{extract_field, InhibitEvent, MonitorParser};

#[test]
fn add_remove_and_list() {
    let mut st = InhibitorState::new();
    assert_eq!(st.is_inhibited(0), InhibitCheck::QueryLogind);
    let c1 = st.add("firefox".into(), "video".into(), ":1.10".into()).unwrap();
    let c2 = st.add("mpv".into(), "movie".into(), ":1.11".into()).unwrap();
    assert_eq!((c1, c2), (1, 2));
    assert_eq!(st.is_inhibited(0), InhibitCheck::Known(true));
    assert!(!st.remove_for_client(c1, ":1.11"));
    assert!(st.remove_for_client(c1, ":1.10"));
    assert_eq!(st.list(), vec![(2, "mpv".to_string(), "movie".to_string())]);
    st.remove_client(":1.11");
    assert!(st.list().is_empty());
}

#[test]
fn external_cookie_is_added_once() {
    let mut st = InhibitorState::new();
    st.add_with_cookie("app".into(), "why".into(), ":1.2".into(), 77);
    st.add_with_cookie("app".into(), "why".into(), ":1.2".into(), 77);
    assert_eq!(st.list().len(), 1);
    st.add_with_cookie("app".into(), "why".into(), ":1.3".into(), 77);
    assert_eq!(st.list().len(), 2);
    st.remove_client(":1.2");
    assert_eq!(st.list(), vec![(77, "app".to_string(), "why".to_string())]);
}

#[test]
fn logind_answer_is_cached() {
    let mut st = InhibitorState::new();
    assert!(st.record_logind(true, 1_000));
    assert_eq!(st.is_inhibited(1_000 + LOGIND_CACHE_MILLIS - 1), InhibitCheck::Known(true));
    assert_eq!(st.is_inhibited(1_000 + LOGIND_CACHE_MILLIS), InhibitCheck::QueryLogind);
    // A clock that went backwards keeps the cached answer.
    assert_eq!(st.is_inhibited(10), InhibitCheck::Known(true));
}

#[test]
fn client_limit_is_enforced() {
    let mut st = InhibitorState::new();
    for i in 0..32u32 {
        assert_eq!(st.add("a".into(), "b".into(), ":1.1".into()), Ok(i + 1));
    }
    assert!(st.add("a".into(), "b".into(), ":1.1".into()).is_err());
    assert_eq!(st.add("a".into(), "b".into(), ":1.2".into()), Ok(33));
}

#[test]
fn fields_of_monitor_lines() {
    let line = "method call time=1.0 sender=:1.42 -> destination=org.freedesktop.ScreenSaver serial=17 path=/ScreenSaver; interface=org.freedesktop.ScreenSaver; member=Inhibit";
    assert_eq!(extract_field(line, "sender=").as_deref(), Some(":1.42"));
    assert_eq!(extract_field(line, "serial=").as_deref(), Some("17"));
    assert_eq!(extract_field(line, "interface=").as_deref(), Some("org.freedesktop.ScreenSaver"));
    assert_eq!(extract_field(line, "missing="), None);
}

#[test]
fn monitor_parser_pairs_inhibit_with_reply() {
    let mut p = MonitorParser::new();
    let lines = [
        "method call time=1.0 sender=:1.42 -> destination=org.freedesktop.ScreenSaver serial=17 path=/ScreenSaver; interface=org.freedesktop.ScreenSaver; member=Inhibit",
        "   string \"Firefox\"",
        "   string \"video playing\"",
        "method return time=1.1 sender=:1.5 -> destination=:1.42 serial=99 reply_serial=17",
    ];
    for l in lines.iter() {
        assert!(p.feed_line(l).is_none());
    }
    match p.feed_line("   uint32 1234") {
        Some(InhibitEvent::Add { application_name, reason, client, cookie }) => {
            assert_eq!(application_name, "Firefox");
            assert_eq!(reason, "video playing");
            assert_eq!(client, ":1.42");
            assert_eq!(cookie, 1234);
        },
        _ => panic!("expected an inhibitor"),
    }
    // The same reply cannot be used twice.
    assert!(p.feed_line("   uint32 1234").is_none());
}

#[test]
fn monitor_parser_uninhibit() {
    let mut p = MonitorParser::new();
    assert!(p
        .feed_line("method call time=2.0 sender=:1.42 -> destination=org.freedesktop.ScreenSaver serial=18 path=/ScreenSaver; interface=org.freedesktop.ScreenSaver; member=UnInhibit")
        .is_none());
    match p.feed_line("   uint32 1234") {
        Some(InhibitEvent::Remove { cookie, client }) => {
            assert_eq!(cookie, 1234);
            assert_eq!(client, ":1.42");
        },
        _ => panic!("expected a removal"),
    }
    // A sender that is not a unique bus name is ignored.
    assert!(p
        .feed_line("method call time=2.0 sender=org.example -> destination=org.freedesktop.ScreenSaver serial=19 path=/ScreenSaver; interface=org.freedesktop.ScreenSaver; member=UnInhibit")
        .is_none());
    assert!(p.feed_line("   uint32 5").is_none());
}
