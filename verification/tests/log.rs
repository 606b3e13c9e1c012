use xal_log::level::{ColourLogLevel, Level, LevelFilter};
use xal_log::logger::{Metadata, Record, XalLogger};
use xal_log::sink::{BufferSink, PutChar, Write, XalWriter};

fn collected(writer: &XalWriter<BufferSink>) -> String {
    writer.out.chars.iter().collect()
}

#[test]
fn format() {
    let mut writer = XalWriter::new(BufferSink::new());
    let record = Record::builder()
        .level(Level::Info)
        .target("partition")
        .file(Some("main.rs"))
        .line(Some(33))
        .args("test")
        .build();
    assert!(xal_log::logger::write(&mut writer, &record).is_ok());
    assert_eq!(
        collected(&writer),
        "partition: \u{1b}[39m\u{1b}[32mINFO\u{1b}[39m test\n",
    );
}

#[test]
fn format_every_severity() {
    let cases = [
        (Level::Error, "net: \u{1b}[39m\u{1b}[31mERROR\u{1b}[39m boom\n"),
        (Level::Warn, "net: \u{1b}[39m\u{1b}[33mWARN\u{1b}[39m boom\n"),
        (Level::Info, "net: \u{1b}[39m\u{1b}[32mINFO\u{1b}[39m boom\n"),
        (Level::Debug, "net: \u{1b}[39m\u{1b}[34mDEBUG\u{1b}[39m boom\n"),
        (Level::Trace, "net: \u{1b}[39m\u{1b}[35mTRACE\u{1b}[39m boom\n"),
    ];
    for (level, expected) in cases {
        let mut writer = XalWriter::new(BufferSink::new());
        let record = Record::builder().level(level).target("net").args("boom").build();
        assert!(xal_log::logger::write(&mut writer, &record).is_ok());
        assert_eq!(collected(&writer), expected);
    }
}

#[test]
fn format_empty_target_and_message() {
    let mut writer = XalWriter::new(BufferSink::new());
    let record = Record::builder().level(Level::Error).build();
    assert!(xal_log::logger::write(&mut writer, &record).is_ok());
    assert_eq!(collected(&writer), ": \u{1b}[39m\u{1b}[31mERROR\u{1b}[39m \n");
}

#[test]
fn colour_table() {
    assert_eq!(ColourLogLevel(Level::Error).as_colour_code(), "\u{1b}[31m");
    assert_eq!(ColourLogLevel(Level::Warn).as_colour_code(), "\u{1b}[33m");
    assert_eq!(ColourLogLevel(Level::Info).as_colour_code(), "\u{1b}[32m");
    assert_eq!(ColourLogLevel(Level::Debug).as_colour_code(), "\u{1b}[34m");
    assert_eq!(ColourLogLevel(Level::Trace).as_colour_code(), "\u{1b}[35m");
    assert_eq!(ColourLogLevel::reset_colour(), "\u{1b}[39m");
}

#[test]
fn colour_codes_distinct() {
    let levels = [Level::Error, Level::Warn, Level::Info, Level::Debug, Level::Trace];
    for a in levels {
        for b in levels {
            if a != b {
                assert_ne!(
                    ColourLogLevel::from(a).as_colour_code(),
                    ColourLogLevel::from(b).as_colour_code(),
                );
            }
        }
    }
}

#[test]
fn level_names() {
    assert_eq!(Level::Error.as_str(), "ERROR");
    assert_eq!(Level::Warn.as_str(), "WARN");
    assert_eq!(Level::Info.as_str(), "INFO");
    assert_eq!(Level::Debug.as_str(), "DEBUG");
    assert_eq!(Level::Trace.as_str(), "TRACE");
}

fn metadata(level: Level) -> Metadata {
    Metadata { level, target: String::from("gate") }
}

#[test]
fn gate_strictly_more_severe_passes() {
    let logger = XalLogger;
    assert!(logger.enabled(&metadata(Level::Error), LevelFilter::Info));
    assert!(logger.enabled(&metadata(Level::Warn), LevelFilter::Info));
    assert!(logger.enabled(&metadata(Level::Debug), LevelFilter::Trace));
}

#[test]
fn gate_boundary_is_rejected() {
    let logger = XalLogger;
    assert!(!logger.enabled(&metadata(Level::Info), LevelFilter::Info));
    assert!(!logger.enabled(&metadata(Level::Error), LevelFilter::Error));
    assert!(!logger.enabled(&metadata(Level::Trace), LevelFilter::Trace));
}

#[test]
fn gate_less_severe_is_rejected() {
    let logger = XalLogger;
    assert!(!logger.enabled(&metadata(Level::Debug), LevelFilter::Info));
    assert!(!logger.enabled(&metadata(Level::Trace), LevelFilter::Error));
}

#[test]
fn gate_off_rejects_everything() {
    let logger = XalLogger;
    for level in [Level::Error, Level::Warn, Level::Info, Level::Debug, Level::Trace] {
        assert!(!logger.enabled(&metadata(level), LevelFilter::Off));
    }
}

#[test]
fn write_str_preserves_character_order() {
    let mut writer = XalWriter::new(BufferSink::new());
    assert!(writer.write_str("abc").is_ok());
    assert!(writer.write_str("").is_ok());
    assert!(writer.write_str("d\u{1b}e").is_ok());
    assert_eq!(writer.out.chars, vec!['a', 'b', 'c', 'd', '\u{1b}', 'e']);
}

#[test]
fn write_char_appends_one_character() {
    let mut writer = XalWriter::new(BufferSink::new());
    assert!(writer.write_char('x').is_ok());
    assert!(writer.write_char('\n').is_ok());
    assert_eq!(writer.out.chars, vec!['x', '\n']);
}

#[test]
fn buffer_sink_records_in_order() {
    let mut sink = BufferSink::new();
    sink.put_char('h');
    sink.put_char('i');
    assert_eq!(sink.chars, vec!['h', 'i']);
}

#[test]
fn log_emits_and_never_fails() {
    let logger = XalLogger;
    let mut writer = XalWriter::new(BufferSink::new());
    let record = Record::builder().level(Level::Warn).target("core").args("careful").build();
    logger.log(&record, &mut writer);
    assert_eq!(collected(&writer), "core: \u{1b}[39m\u{1b}[33mWARN\u{1b}[39m careful\n");
    logger.flush();
}

#[test]
fn formatting_twice_is_identical() {
    let record = Record::builder().level(Level::Debug).target("io").args("twice").build();
    let mut first = XalWriter::new(BufferSink::new());
    let mut second = XalWriter::new(BufferSink::new());
    assert!(xal_log::logger::write(&mut first, &record).is_ok());
    assert!(xal_log::logger::write(&mut second, &record).is_ok());
    assert_eq!(first.out.chars, second.out.chars);

    let mut twice = XalWriter::new(BufferSink::new());
    assert!(xal_log::logger::write(&mut twice, &record).is_ok());
    let once = twice.out.chars.len();
    assert!(xal_log::logger::write(&mut twice, &record).is_ok());
    assert_eq!(twice.out.chars[..once], twice.out.chars[once..]);
}

#[test]
fn builder_defaults_and_setters() {
    let record = Record::builder().build();
    assert_eq!(record.target, "");
    assert_eq!(record.level, Level::Info);
    assert_eq!(record.message, "");
    assert_eq!(record.file, None);
    assert_eq!(record.line, None);

    let record = Record::builder()
        .target("disk")
        .level(Level::Trace)
        .args("spinning")
        .file(Some("drv.rs"))
        .line(Some(7))
        .build();
    assert_eq!(record.target, "disk");
    assert_eq!(record.level, Level::Trace);
    assert_eq!(record.message, "spinning");
    assert_eq!(record.file.as_deref(), Some("drv.rs"));
    assert_eq!(record.line, Some(7));
}
