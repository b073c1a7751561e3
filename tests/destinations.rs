use std::str::FromStr;
use mod_logger::LogDestination::{
    Buffer, BufferStderr, BufferStdout, Stderr, Stdout, Stream, StreamStderr, StreamStdout,
};
use mod_logger::{ConsoleStream, ErrorKind, LogDestination};

const ALL: [(&str, LogDestination); 8] = [
    ("stdout", LogDestination::Stdout),
    ("stderr", LogDestination::Stderr),
    ("stream", LogDestination::Stream),
    ("streamstdout", LogDestination::StreamStdout),
    ("streamstderr", LogDestination::StreamStderr),
    ("buffer", LogDestination::Buffer),
    ("bufferstdout", LogDestination::BufferStdout),
    ("bufferstderr", LogDestination::BufferStderr),
];

#[test]
fn every_name_parses_in_any_case() {
    for (name, dest) in ALL.iter() {
        assert_eq!(LogDestination::from_name(name).unwrap(), *dest);
        assert_eq!(LogDestination::from_name(&name.to_uppercase()).unwrap(), *dest);
        assert_eq!(name.parse::<LogDestination>().unwrap(), *dest);
        assert_eq!(dest.name(), *name);
    }
    assert_eq!(LogDestination::from_name("BufferStdOut").unwrap(), LogDestination::BufferStdout);
}

#[test]
fn unknown_name_is_an_invalid_parameter() {
    for bad in ["", "file", "std out", "stdout ", "buffers"] {
        let e = LogDestination::from_name(bad).unwrap_err();
        assert_eq!(e.kind(), ErrorKind::InvParam);
    }
}

#[test]
fn destination_groups() {
    let streams: Vec<LogDestination> = ALL.iter().map(|p| p.1).filter(|d| d.is_stream_dest()).collect();
    assert_eq!(streams, vec![Stream, StreamStdout, StreamStderr]);
    let buffers: Vec<LogDestination> = ALL.iter().map(|p| p.1).filter(|d| d.is_buffer_dest()).collect();
    assert_eq!(buffers, vec![Buffer, BufferStdout, BufferStderr]);
    let outs: Vec<LogDestination> = ALL.iter().map(|p| p.1).filter(|d| d.is_stdout()).collect();
    assert_eq!(outs, vec![Stdout, StreamStdout, BufferStdout]);
    let errs: Vec<LogDestination> = ALL.iter().map(|p| p.1).filter(|d| d.is_stderr()).collect();
    assert_eq!(errs, vec![Stderr, StreamStderr, BufferStderr]);
}

#[test]
fn stream_variant_keeps_console_affinity() {
    assert_eq!(Stdout.stream_variant(), StreamStdout);
    assert_eq!(BufferStdout.stream_variant(), StreamStdout);
    assert_eq!(Stderr.stream_variant(), StreamStderr);
    assert_eq!(BufferStderr.stream_variant(), StreamStderr);
    assert_eq!(Buffer.stream_variant(), Stream);
    assert_eq!(Stream.stream_variant(), Stream);
}

#[test]
fn console_of_each_destination() {
    assert_eq!(Stdout.console(), Some(ConsoleStream::Stdout));
    assert_eq!(StreamStdout.console(), Some(ConsoleStream::Stdout));
    assert_eq!(BufferStdout.console(), Some(ConsoleStream::Stdout));
    assert_eq!(Stderr.console(), Some(ConsoleStream::Stderr));
    assert_eq!(StreamStderr.console(), Some(ConsoleStream::Stderr));
    assert_eq!(BufferStderr.console(), Some(ConsoleStream::Stderr));
    assert_eq!(Stream.console(), None);
    assert_eq!(Buffer.console(), None);
}

#[test]
fn from_str_examples() {
    assert_eq!(LogDestination::from_str("StreamStderr").unwrap(), StreamStderr);
    assert_eq!(LogDestination::from_str("BUFFER").unwrap(), Buffer);
    assert_eq!(LogDestination::from_str("file").unwrap_err().kind(), ErrorKind::InvParam);
}
