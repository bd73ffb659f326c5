use trusttunnel_keenetic::logger::{
    enabled, format_line, init, needs_rotation, parse_level, rotation_plan, FileOp, Level,
    LevelFilter,
};
use trusttunnel_keenetic::config::LogSettings;
use trusttunnel_keenetic::logs::{
    get_combined_logs, global_buffer, syslog_command, syslog_lines, syslog_shortfall, LogBuffer,
};

fn lines(v: &[&str]) -> Vec<String> {
    v.iter().map(|s| s.to_string()).collect()
}

#[test]
fn buffer_keeps_the_most_recent_lines() {
    let mut b = LogBuffer::new(3);
    assert_eq!(b.len(), 0);
    assert_eq!(b.max_lines(), 3);
    for l in ["a", "b", "c", "d", "e"] {
        b.push(l.to_string());
    }
    assert_eq!(b.len(), 3);
    assert_eq!(b.get_recent(10), lines(&["c", "d", "e"]));
    assert_eq!(b.get_recent(3), lines(&["c", "d", "e"]));
    assert_eq!(b.get_recent(2), lines(&["d", "e"]));
    assert_eq!(b.get_recent(0), lines(&[]));
}

#[test]
fn buffer_without_room_keeps_nothing() {
    let mut b = LogBuffer::new(0);
    b.push("a".to_string());
    assert_eq!(b.len(), 0);
    assert!(b.get_recent(5).is_empty());
}

#[test]
fn global_buffer_holds_500_lines() {
    let mut b = global_buffer();
    assert_eq!(b.len(), 0);
    assert_eq!(b.max_lines(), 500);
    for i in 0..600 {
        b.push(i.to_string());
    }
    assert_eq!(b.len(), 500);
    assert_eq!(b.get_recent(1), lines(&["599"]));
    assert_eq!(b.get_recent(500)[0], "100");
}

#[test]
fn syslog_is_asked_for_what_is_missing() {
    let mut b = LogBuffer::new(10);
    b.push("x".to_string());
    b.push("y".to_string());
    assert_eq!(syslog_shortfall(&b, 5), 3);
    assert_eq!(syslog_shortfall(&b, 2), 0);
    assert_eq!(syslog_shortfall(&b, 1), 0);
    assert_eq!(
        syslog_command(3),
        "logread 2>/dev/null | grep -i trusttunnel | tail -n 3"
    );
    assert_eq!(syslog_lines("a\n\nb\r\n\r\nc"), lines(&["a", "b", "c"]));
    assert!(syslog_lines("").is_empty());
}

#[test]
fn combined_logs_put_syslog_first() {
    let mut b = LogBuffer::new(10);
    b.push("x".to_string());
    b.push("y".to_string());
    assert_eq!(get_combined_logs(&b, 5, &lines(&["s1", "s2"])), lines(&["s1", "s2", "x", "y"]));
    assert_eq!(get_combined_logs(&b, 5, &lines(&["s1", "s2", "s3"])), lines(&["s1", "s2", "s3", "x", "y"]));
    assert_eq!(
        get_combined_logs(&b, 5, &lines(&["s1", "s2", "s3", "s4"])),
        lines(&["s1", "s2", "s3", "s4", "x"])
    );
    assert_eq!(get_combined_logs(&b, 2, &lines(&["s1"])), lines(&["x", "y"]));
    assert_eq!(get_combined_logs(&b, 1, &lines(&["s1"])), lines(&["y"]));
    assert_eq!(get_combined_logs(&b, 0, &lines(&["s1"])), lines(&[]));
    assert_eq!(get_combined_logs(&b, 5, &lines(&[])), lines(&["x", "y"]));
}

#[test]
fn levels_are_parsed() {
    assert_eq!(parse_level("off"), LevelFilter::Off);
    assert_eq!(parse_level("ERROR"), LevelFilter::Error);
    assert_eq!(parse_level("Warn"), LevelFilter::Warn);
    assert_eq!(parse_level("warning"), LevelFilter::Warn);
    assert_eq!(parse_level("info"), LevelFilter::Info);
    assert_eq!(parse_level("debug"), LevelFilter::Debug);
    assert_eq!(parse_level("TRACE"), LevelFilter::Trace);
    assert_eq!(parse_level("verbose"), LevelFilter::Info);
    assert_eq!(parse_level(""), LevelFilter::Info);
    assert_eq!(parse_level(" info"), LevelFilter::Info);
}

#[test]
fn filter_lets_the_more_severe_pass() {
    assert!(enabled(Level::Error, LevelFilter::Error));
    assert!(!enabled(Level::Warn, LevelFilter::Error));
    assert!(enabled(Level::Info, LevelFilter::Info));
    assert!(!enabled(Level::Debug, LevelFilter::Info));
    assert!(enabled(Level::Trace, LevelFilter::Trace));
    assert!(!enabled(Level::Error, LevelFilter::Off));
}

#[test]
fn log_lines_are_formatted() {
    assert_eq!(format_line(1700000000, Level::Warn, "disk full"), "[1700000000] WARN disk full");
    assert_eq!(format_line(0, Level::Error, ""), "[0] ERROR ");
    assert_eq!(format_line(1, Level::Info, "x"), "[1] INFO x");
    assert_eq!(format_line(1, Level::Debug, "x"), "[1] DEBUG x");
    assert_eq!(format_line(1, Level::Trace, "x"), "[1] TRACE x");
}

#[test]
fn logger_plan_follows_the_settings() {
    let plan = init(&LogSettings::default());
    assert_eq!(plan.level, LevelFilter::Info);
    let file = plan.file.unwrap();
    assert_eq!(file.path, "/var/log/trusttunnel-keenetic/trusttunnel-keenetic.log");
    assert_eq!(file.rotate_size, 512 * 1024);
    assert_eq!(file.rotate_keep, 1);

    let s = LogSettings { level: "debug".into(), rotate_size: 10, rotate_keep: 4, ..Default::default() };
    let plan = init(&s);
    assert_eq!(plan.level, LevelFilter::Debug);
    assert_eq!(plan.file.unwrap().rotate_size, 1024);

    let s = LogSettings { file_enabled: false, ..Default::default() };
    assert!(init(&s).file.is_none());
}

#[test]
fn rotation_is_due_when_the_file_would_grow_too_large() {
    assert!(!needs_rotation(1, 1024, 1000, 23));
    assert!(needs_rotation(1, 1024, 1000, 24));
    assert!(!needs_rotation(0, 1024, 5000, 24));
    assert!(needs_rotation(3, 1024, u64::MAX, 0));
    assert!(!needs_rotation(3, u64::MAX, u64::MAX, 10));
}

fn show(op: &FileOp) -> String {
    match op {
        FileOp::Remove(p) => format!("rm {}", p),
        FileOp::Rename { from, to } => format!("mv {} {}", from, to),
        FileOp::Truncate(p) => format!("new {}", p),
    }
}

#[test]
fn rotation_shifts_the_archives() {
    let plan: Vec<String> = rotation_plan("/l/a.log", 3).iter().map(show).collect();
    assert_eq!(
        plan,
        vec![
            "rm /l/a.log.3",
            "mv /l/a.log.2 /l/a.log.3",
            "mv /l/a.log.1 /l/a.log.2",
            "mv /l/a.log /l/a.log.1",
            "new /l/a.log",
        ]
    );
    let plan: Vec<String> = rotation_plan("a", 1).iter().map(show).collect();
    assert_eq!(plan, vec!["rm a.1", "mv a a.1", "new a"]);
    let plan: Vec<String> = rotation_plan("a", 0).iter().map(show).collect();
    assert_eq!(plan, vec!["new a"]);
}
