use isolate_host::logger::{enabled, init_logger, label, max_level, render, Level, Tone};

#[test]
fn records_up_to_info_pass() {
    assert!(enabled(Level::Error));
    assert!(enabled(Level::Warn));
    assert!(enabled(Level::Info));
    assert!(!enabled(Level::Debug));
    assert!(!enabled(Level::Trace));
}

#[test]
fn labels_follow_the_level() {
    assert_eq!(label(Level::Error), ("ERROR", Tone::Red));
    assert_eq!(label(Level::Warn), ("WARN", Tone::Yellow));
    assert_eq!(label(Level::Info), ("INFO", Tone::Blue));
    assert_eq!(label(Level::Debug), ("INFO", Tone::Blue));
}

#[test]
fn render_paints_the_label_when_colour_is_on() {
    colored::control::set_override(true);
    assert_eq!(
        render(Level::Error, "boom"),
        Some(String::from("\x1b[31mERROR\x1b[0m boom"))
    );
    assert_eq!(
        render(Level::Warn, "careful"),
        Some(String::from("\x1b[33mWARN\x1b[0m careful"))
    );
    assert_eq!(
        render(Level::Info, "hello"),
        Some(String::from("\x1b[34mINFO\x1b[0m hello"))
    );
}

#[test]
fn render_leaves_the_label_plain_when_colour_is_off() {
    colored::control::set_override(false);
    assert_eq!(render(Level::Error, "boom"), Some(String::from("ERROR boom")));
    assert_eq!(render(Level::Info, ""), Some(String::from("INFO ")));
}

#[test]
fn render_drops_what_does_not_pass() {
    assert_eq!(render(Level::Debug, "noise"), None);
    assert_eq!(render(Level::Trace, "noise"), None);
}

#[test]
fn init_logger_raises_the_maximum_level() {
    log::set_max_level(log::LevelFilter::Off);
    assert!(init_logger(Ok(())).is_ok());
    assert_eq!(log::max_level(), log::LevelFilter::Info);
    assert_eq!(max_level(), Level::Info);
}
