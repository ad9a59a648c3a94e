use ngmp_server::{init, Level, LevelFilter};

#[test]
fn logger_filters_levels() {
    let l = init(LevelFilter::Info, false);
    assert!(l.enabled(Level::Error));
    assert!(l.enabled(Level::Info));
    assert!(!l.enabled(Level::Debug));
    let off = init(LevelFilter::Off, true);
    assert!(!off.enabled(Level::Error));
}

#[test]
fn logger_pads_targets() {
    let mut l = init(LevelFilter::Trace, false);
    assert_eq!(l.log(Level::Info, "server::net", "up").unwrap(), "[INFO]   server::net  up");
    assert_eq!(l.log(Level::Error, "srv", "down").unwrap(), "[ERROR]  srv          down");
    assert_eq!(l.max_target_len, 11);
    let mut quiet = init(LevelFilter::Warn, false);
    assert!(quiet.log(Level::Info, "x", "y").is_none());
    assert_eq!(quiet.max_target_len, 0);
}

#[test]
fn logger_colours() {
    let mut l = init(LevelFilter::Trace, true);
    assert_eq!(l.log(Level::Warn, "t", "m").unwrap(), "\x1b[0;33m[WARN]\x1b[0;37m   t  m");
}
