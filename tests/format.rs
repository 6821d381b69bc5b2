use logger::{file_path_for, format_line, log_dir, Channel, Logger};

const CHANNELS: [Channel; 6] = [
    Channel::Warning,
    Channel::Information,
    Channel::Error,
    Channel::Panic,
    Channel::Fatal,
    Channel::Connection,
];

fn stamp_of(path: &str, channel: Channel) -> String {
    let prefix = format!("logs/{}_", channel.file_name());
    assert!(path.starts_with(&prefix), "{}", path);
    assert!(path.ends_with(".log"), "{}", path);
    path[prefix.len()..path.len() - 4].to_string()
}

fn is_stamp_shape(s: &str, pattern: &str) -> bool {
    s.len() == pattern.len()
        && s.chars().zip(pattern.chars()).all(|(c, p)| if p == 'd' { c.is_ascii_digit() } else { c == p })
}

#[test]
fn file_names_and_tags() {
    let names: Vec<&str> = CHANNELS.iter().map(|c| c.file_name()).collect();
    assert_eq!(names, vec!["warnings", "informations", "errors", "panics", "fatals", "conection"]);
    let tags: Vec<&str> = CHANNELS.iter().map(|c| c.tag()).collect();
    assert_eq!(tags, vec!["WARN!", "INFO!", "ERROR!", "FATAL!", "FATAL!", "CONNECTION!"]);
    assert_eq!(log_dir(), "logs");
}

#[test]
fn file_path_is_exact() {
    assert_eq!(
        file_path_for(Channel::Warning, "2024-01-02_03-04-05"),
        "logs/warnings_2024-01-02_03-04-05.log"
    );
    assert_eq!(file_path_for(Channel::Connection, ""), "logs/conection_.log");
}

#[test]
fn line_is_exact() {
    assert_eq!(
        format_line("WARN!", "This is a warning message", "path/to/file", "Some additional information", "2024-01-02 03:04:05"),
        "[ WARN! ] Path: path/to/file | Message: This is a warning message | Body: Some additional information, 2024-01-02 03:04:05 "
    );
    assert_eq!(format_line("", "", "", "", ""), "[  ] Path:  | Message:  | Body: ,  ");
}

#[test]
fn with_stamp_names_every_file() {
    let logger = Logger::with_stamp("2024-01-02_03-04-05");
    assert_eq!(logger.log_file(Channel::Information), "logs/informations_2024-01-02_03-04-05.log");
    assert_eq!(logger.log_file(Channel::Error), "logs/errors_2024-01-02_03-04-05.log");
    assert_eq!(logger.log_file(Channel::Panic), "logs/panics_2024-01-02_03-04-05.log");
    assert_eq!(logger.log_file(Channel::Fatal), "logs/fatals_2024-01-02_03-04-05.log");
    assert_eq!(logger.log_file(Channel::Connection), "logs/conection_2024-01-02_03-04-05.log");
    assert_eq!(logger.log_file(Channel::Warning), "logs/warnings_2024-01-02_03-04-05.log");
}

#[test]
fn one_construction_shares_one_stamp() {
    let logger = Logger::new();
    let stamps: Vec<String> = CHANNELS.iter().map(|c| stamp_of(logger.log_file(*c), *c)).collect();
    assert!(stamps.iter().all(|s| *s == stamps[0]));
    assert!(is_stamp_shape(&stamps[0], "dddd-dd-dd_dd-dd-dd"), "{}", stamps[0]);
}

#[test]
fn different_stamps_give_different_files() {
    let a = Logger::with_stamp("2024-01-02_03-04-05");
    let b = Logger::with_stamp("2024-01-02_03-04-06");
    for c in CHANNELS {
        for d in CHANNELS {
            assert_ne!(a.log_file(c), b.log_file(d));
            if c != d {
                assert_ne!(a.log_file(c), a.log_file(d));
            }
        }
    }
}

#[test]
fn entry_at_is_exact() {
    let logger = Logger::with_stamp("s");
    let e = logger.entry_at(Channel::Error, "msg", "/a/b", "{}", "2024-01-02 03:04:05");
    assert_eq!(e.file, "logs/errors_s.log");
    assert_eq!(e.line, "[ ERROR! ] Path: /a/b | Message: msg | Body: {}, 2024-01-02 03:04:05 ");
}

#[test]
fn warning_entry_holds_the_message() {
    let logger = Logger::new();
    let e = logger.warn_logger("This is a warning message", "path/to/file", "Some additional information");
    let head = "[ WARN! ] Path: path/to/file | Message: This is a warning message | Body: Some additional information, ";
    assert!(e.line.starts_with(head));
    assert!(e.line.ends_with(' '));
    let stamp = &e.line[head.len()..e.line.len() - 1];
    assert!(is_stamp_shape(stamp, "dddd-dd-dd dd:dd:dd"), "{}", stamp);
    assert_eq!(&e.file, logger.log_file(Channel::Warning));
}

#[test]
fn each_method_writes_its_own_tag_and_file() {
    let logger = Logger::with_stamp("t");
    let entries = vec![
        (logger.warn_logger("m", "p", "b"), "WARN!", "logs/warnings_t.log"),
        (logger.info_logger("m", "p", "b"), "INFO!", "logs/informations_t.log"),
        (logger.error_logger("m", "p", "b"), "ERROR!", "logs/errors_t.log"),
        (logger.panic_logger("m", "p", "b"), "FATAL!", "logs/panics_t.log"),
        (logger.fatal_logger("m", "p", "b"), "FATAL!", "logs/fatals_t.log"),
        (logger.connection_logger("m", "p", "b"), "CONNECTION!", "logs/conection_t.log"),
    ];
    for (e, tag, file) in entries {
        assert!(e.line.starts_with(&format!("[ {} ] Path: p | Message: m | Body: b, ", tag)), "{}", e.line);
        assert_eq!(e.file, file);
    }
}

#[test]
fn panic_and_fatal_share_the_fatal_tag() {
    let logger = Logger::with_stamp("same");
    let p = logger.entry_at(Channel::Panic, "boom", "x", "y", "2024-01-02 03:04:05");
    let f = logger.entry_at(Channel::Fatal, "boom", "x", "y", "2024-01-02 03:04:05");
    assert_eq!(p.line, f.line);
    assert!(p.line.starts_with("[ FATAL! ]"));
    assert_ne!(p.file, f.file);
}
