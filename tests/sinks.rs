use mod_logger::{ConsoleStream, ErrorKind, Level, LogDestination, LogStream, LoggerParams};
use std::cell::RefCell;
use std::rc::Rc;

#[derive(Debug, Clone, PartialEq)]
enum Op {
    Write(Vec<u8>),
    Flush,
    Drop,
}

struct Recorder {
    ops: Rc<RefCell<Vec<Op>>>,
}

impl LogStream for Recorder {
    fn write_bytes(&mut self, bytes: &[u8]) {
        self.ops.borrow_mut().push(Op::Write(bytes.to_vec()));
    }
    fn flush(&mut self) {
        self.ops.borrow_mut().push(Op::Flush);
    }
}

impl Drop for Recorder {
    fn drop(&mut self) {
        self.ops.borrow_mut().push(Op::Drop);
    }
}

fn recorder() -> (Recorder, Rc<RefCell<Vec<Op>>>) {
    let ops = Rc::new(RefCell::new(Vec::new()));
    (Recorder { ops: ops.clone() }, ops)
}

fn quiet(level: Level) -> LoggerParams<Recorder> {
    let mut p = LoggerParams::new(level);
    p.set_timestamp(false);
    p
}

#[test]
fn new_state_defaults() {
    let p: LoggerParams<Recorder> = LoggerParams::new(Level::Warn);
    assert_eq!(*p.get_log_dest(), LogDestination::Stderr);
    assert!(p.log_stream().is_none());
    assert!(p.log_buffer().is_none());
    assert!(p.timestamp());
    assert!(!p.millis());
    assert!(!p.color());
    assert!(!p.brief_info());
    assert_eq!(*p.max_level(), Level::Warn);
}

#[test]
fn flags_are_set() {
    let mut p = quiet(Level::Info);
    p.set_color(true);
    p.set_brief_info(true);
    p.set_millis(true);
    p.set_timestamp(true);
    assert!(p.color() && p.brief_info() && p.millis() && p.timestamp());
}

#[test]
fn buffer_survives_stream_round_trip() {
    let mut p = quiet(Level::Info);
    p.set_log_dest(&LogDestination::Buffer, None).unwrap();
    assert_eq!(p.write_line("0123456789"), None);
    let (r, _ops) = recorder();
    p.set_log_dest(&LogDestination::Stream, Some(r)).unwrap();
    p.set_log_dest(&LogDestination::Buffer, None).unwrap();
    assert_eq!(p.retrieve_log_buffer(), Some(b"0123456789".to_vec()));
    assert_eq!(p.retrieve_log_buffer(), Some(Vec::new()));
}

#[test]
fn buffer_kept_across_console_switch_but_not_retrievable_there() {
    let mut p = quiet(Level::Info);
    p.set_log_dest(&LogDestination::BufferStdout, None).unwrap();
    assert_eq!(p.write_line("abc"), Some(ConsoleStream::Stdout));
    p.set_log_dest(&LogDestination::Stdout, None).unwrap();
    assert_eq!(p.retrieve_log_buffer(), None);
    assert_eq!(p.log_buffer(), Some(&b"abc".to_vec()));
    p.set_log_dest(&LogDestination::BufferStderr, None).unwrap();
    assert_eq!(p.write_line("de"), Some(ConsoleStream::Stderr));
    assert_eq!(p.retrieve_log_buffer(), Some(b"abcde".to_vec()));
}

#[test]
fn retrieve_without_buffer_destination() {
    let mut p = quiet(Level::Info);
    assert_eq!(p.retrieve_log_buffer(), None);
}

#[test]
fn stream_flushed_once_before_release() {
    let mut p = quiet(Level::Info);
    let (r, ops) = recorder();
    p.set_log_dest(&LogDestination::StreamStderr, Some(r)).unwrap();
    assert_eq!(p.write_line("one\n"), Some(ConsoleStream::Stderr));
    p.set_log_dest(&LogDestination::Buffer, None).unwrap();
    assert_eq!(p.write_line("two\n"), None);
    assert_eq!(*ops.borrow(), vec![Op::Write(b"one\n".to_vec()), Op::Flush, Op::Drop]);
    assert!(p.log_stream().is_none());
}

#[test]
fn stream_replaced_by_another_stream() {
    let mut p = quiet(Level::Info);
    let (r1, ops1) = recorder();
    let (r2, ops2) = recorder();
    p.set_log_dest(&LogDestination::Stream, Some(r1)).unwrap();
    p.set_log_dest(&LogDestination::StreamStdout, Some(r2)).unwrap();
    assert_eq!(p.write_line("x"), Some(ConsoleStream::Stdout));
    assert_eq!(*ops1.borrow(), vec![Op::Flush, Op::Drop]);
    assert_eq!(*ops2.borrow(), vec![Op::Write(b"x".to_vec())]);
}

#[test]
fn stream_destination_needs_a_stream() {
    let mut p = quiet(Level::Info);
    p.set_log_dest(&LogDestination::Buffer, None).unwrap();
    let e = p.set_log_dest(&LogDestination::Stream, None).unwrap_err();
    assert_eq!(e.kind(), ErrorKind::InvParam);
    assert_eq!(*p.get_log_dest(), LogDestination::Buffer);
}

#[test]
fn flush_reports_console_and_flushes_stream() {
    let mut p = quiet(Level::Info);
    assert_eq!(p.flush(), Some(ConsoleStream::Stderr));
    let (r, ops) = recorder();
    p.set_log_dest(&LogDestination::Stream, Some(r)).unwrap();
    assert_eq!(p.flush(), None);
    assert_eq!(*ops.borrow(), vec![Op::Flush]);
    p.set_log_dest(&LogDestination::Stdout, None).unwrap();
    assert_eq!(p.flush(), Some(ConsoleStream::Stdout));
}

#[test]
fn debug_record_dropped_under_info() {
    let mut p = quiet(Level::Info);
    p.set_log_dest(&LogDestination::Buffer, None).unwrap();
    assert!(p.emit(Level::Debug, Some("app::db"), None, "hidden").is_none());
    assert_eq!(p.log_buffer(), Some(&Vec::new()));
    let e = p.emit(Level::Info, Some("app::db"), None, "shown").unwrap();
    assert_eq!(e.line, "INFO  [app::db] shown\n");
    assert_eq!(e.console, None);
    assert_eq!(p.retrieve_log_buffer(), Some(b"INFO  [app::db] shown\n".to_vec()));
}

#[test]
fn emit_uses_module_override_and_tag() {
    let mut p = quiet(Level::Error);
    p.set_mod_level("db", Level::Trace);
    p.set_log_dest(&LogDestination::BufferStdout, None).unwrap();
    let e = p.emit(Level::Trace, Some("myexe::db::pool"), Some("myexe"), "deep").unwrap();
    assert_eq!(e.line, "TRACE [myexe::db::pool] deep\n");
    assert_eq!(e.console, Some(ConsoleStream::Stdout));
    assert!(p.emit(Level::Trace, Some("other::db"), Some("myexe"), "no").is_none());
    assert!(p.emit(Level::Warn, None, None, "no").is_none());
    let e = p.emit(Level::Error, None, None, "yes").unwrap();
    assert_eq!(e.line, "ERROR [undefined] yes\n");
}

#[test]
fn emit_brief_info_and_padding() {
    let mut p = quiet(Level::Trace);
    p.set_brief_info(true);
    p.set_log_dest(&LogDestination::Buffer, None).unwrap();
    assert_eq!(p.emit(Level::Info, Some("m"), None, "hi").unwrap().line, "INFO  hi\n");
    assert_eq!(p.emit(Level::Warn, Some("m"), None, "w").unwrap().line, "WARN  [m] w\n");
    assert_eq!(p.emit(Level::Debug, Some("m"), None, "d").unwrap().line, "DEBUG [m] d\n");
}

#[test]
fn emit_writes_to_stream() {
    let mut p = quiet(Level::Info);
    let (r, ops) = recorder();
    p.set_log_dest(&LogDestination::Stream, Some(r)).unwrap();
    let e = p.emit(Level::Warn, Some("s"), None, "to file").unwrap();
    assert_eq!(e.console, None);
    assert_eq!(*ops.borrow(), vec![Op::Write(b"WARN  [s] to file\n".to_vec())]);
}

#[test]
fn emit_with_timestamp() {
    let mut p = quiet(Level::Info);
    p.set_timestamp(true);
    let e = p.emit(Level::Info, Some("t"), None, "m").unwrap();
    assert_eq!(e.console, Some(ConsoleStream::Stderr));
    assert!(e.line.ends_with(" INFO  [t] m\n"));
    assert_eq!(e.line.len(), "2024-01-01 00:00:00 ".len() + "INFO  [t] m\n".len());
    p.set_millis(true);
    let e = p.emit(Level::Info, Some("t"), None, "m").unwrap();
    assert_eq!(e.line.len(), "2024-01-01 00:00:00.000 ".len() + "INFO  [t] m\n".len());
    assert_eq!(&e.line[19..20], ".");
}

#[test]
fn plain_line_round_trip() {
    let mut p = quiet(Level::Trace);
    p.set_log_dest(&LogDestination::Buffer, None).unwrap();
    let cases = [
        (Level::Error, "a::b", "disk full"),
        (Level::Warn, "x", "[not a module]"),
        (Level::Trace, "deep::er::path", ""),
        (Level::Info, "m", "multi word message"),
    ];
    for (level, module, message) in cases.iter() {
        let line = p.emit(*level, Some(module), None, message).unwrap().line;
        let (head, rest) = line.split_at(5);
        assert_eq!(Level::from_name(head.trim_end()), Some(*level));
        let rest = rest.strip_prefix(" [").unwrap().strip_suffix('\n').unwrap();
        let close = rest.find("] ").unwrap();
        assert_eq!(&rest[..close], *module);
        assert_eq!(&rest[close + 2..], *message);
    }
}
