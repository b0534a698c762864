use logging_sink::{Data, Emission, Logging, LoggingEvents, Severity};

fn text(s: &str) -> String {
    String::from(s)
}

#[test]
fn sending_an_info_event_gives_one_whole_call() {
    let event = LoggingEvents::Info(Data::full(
        text("net"),
        text("connected"),
        text("net::handshake"),
        text("handshake.src"),
        42,
    ));
    let e = Logging::new().send(&event);
    assert_eq!(e.severity, Severity::Info);
    assert_eq!(e.target, "net");
    assert_eq!(e.message, "connected");
    assert_eq!(e.module, Some("net::handshake"));
    assert_eq!(e.file, Some("handshake.src"));
    assert_eq!(e.line, Some(42));
}

#[test]
fn sending_an_error_event_without_location_gives_a_bare_call() {
    let event = LoggingEvents::Error(Data::plain(text("sys"), text("boot")));
    let expected = Emission {
        severity: Severity::Error,
        target: "sys",
        module: None,
        file: None,
        line: None,
        message: "boot",
    };
    assert_eq!(Logging::new().send(&event), expected);
}

#[test]
fn trace_sent_before_warning_comes_before_it() {
    let sink = Logging::new();
    let first = LoggingEvents::Trace(Data::plain(text("sys"), text("starting")));
    let second = LoggingEvents::Warning(Data::plain(text("sys"), text("slow start")));
    let mut seen = Vec::new();
    seen.push(sink.send(&first));
    seen.push(sink.send(&second));
    assert_eq!(seen.len(), 2);
    assert_eq!(seen[0].severity, Severity::Trace);
    assert_eq!(seen[0].message, "starting");
    assert_eq!(seen[1].severity, Severity::Warn);
    assert_eq!(seen[1].message, "slow start");
}

#[test]
fn calls_come_in_the_order_of_the_events() {
    let sink = Logging::new();
    let mut events = Vec::new();
    for i in 0..20u32 {
        let record = Data::full(text("seq"), format!("message {}", i), text("seq::run"), text("run.src"), i);
        events.push(match i % 5 {
            0 => LoggingEvents::Debug(record),
            1 => LoggingEvents::Info(record),
            2 => LoggingEvents::Warning(record),
            3 => LoggingEvents::Error(record),
            _ => LoggingEvents::Trace(record),
        });
    }
    let mut seen = Vec::new();
    for event in events.iter() {
        seen.push(sink.send(event));
    }
    assert_eq!(seen.len(), events.len());
    for (i, e) in seen.iter().enumerate() {
        assert_eq!(e.line, Some(i as u32));
        assert_eq!(e.message, format!("message {}", i));
        assert_eq!(*e, events[i].log());
    }
}

#[test]
fn what_was_sent_before_changes_nothing() {
    let sink = Logging::new();
    let event = LoggingEvents::Debug(Data::plain(text("sys"), text("tick")));
    let other = LoggingEvents::Error(Data::plain(text("sys"), text("tock")));
    let before = sink.send(&event);
    let _ = sink.send(&other);
    let after = sink.send(&event);
    assert_eq!(before, after);
}

#[test]
fn any_two_sinks_do_the_same() {
    let a = Logging::new();
    let b = Logging::new();
    let c = a.clone();
    let event = LoggingEvents::Info(Data::plain(text("sys"), text("boot")));
    assert_eq!(a.send(&event), b.send(&event));
    assert_eq!(a.send(&event), c.send(&event));
}

#[test]
fn sending_is_the_same_as_logging_the_event() {
    let event = LoggingEvents::Warning(Data::full(text("disk"), text("nearly full"), text("disk::watch"), text("watch.src"), 7));
    assert_eq!(Logging::new().send(&event), event.log());
}

#[test]
fn every_event_without_location_can_be_sent() {
    let sink = Logging::new();
    let events = vec![
        LoggingEvents::Debug(Data::plain(text(""), text(""))),
        LoggingEvents::Info(Data::plain(text(""), text(""))),
        LoggingEvents::Warning(Data::plain(text(""), text(""))),
        LoggingEvents::Error(Data::plain(text(""), text(""))),
        LoggingEvents::Trace(Data::plain(text(""), text(""))),
    ];
    let expected = vec![Severity::Debug, Severity::Info, Severity::Warn, Severity::Error, Severity::Trace];
    for (event, severity) in events.iter().zip(expected.iter()) {
        let e = sink.send(event);
        assert_eq!(e.severity, *severity);
        assert_eq!(e.target, "");
        assert_eq!(e.message, "");
        assert_eq!(e.module, None);
        assert_eq!(e.file, None);
        assert_eq!(e.line, None);
    }
}
