//! The logger's state: severities, destination and sinks, decoration flags.
use crate::destination::{console_of, ConsoleStream, LogDestination};
use crate::error::{Error, ErrorKind};
use crate::level::{lemma_rank_injective, Level};
use crate::mod_levels::{effective_level, is_most_verbose, resolve_override, ModLevels};
use crate::record::{
    format_record, lemma_plain_line_round_trip, level_color_code, line_body, parse_line, LineParts, module_names, opt_view, paint_for_level, painted,
    shows_module, spec_module_name, spec_module_tag,
};
use crate::timestamp::{timestamp_prefix, timestamp_text, LocalTime};
use vstd::prelude::*;
use vstd::utf8::encode_utf8;

verus! {

/// An output stream that the logger can be attached to, such as a file.
pub trait LogStream {
    /// Writes `bytes` to the stream. A failure is the stream's own concern:
    /// logging never fails its caller.
    fn write_bytes(&mut self, bytes: &[u8]);

    /// Flushes what the stream holds back.
    fn flush(&mut self);
}

/// One operation of the logger on its streams, in the order made.
pub enum SinkEvent {
    /// A stream was attached.
    Attached,
    /// These bytes were written to the attached stream.
    Wrote(Seq<u8>),
    /// The attached stream was flushed.
    Flushed,
    /// The attached stream was released.
    Detached,
}

/// The model of the logger's state.
pub struct ParamsView<S> {
    pub dest: LogDestination,
    pub stream: Option<S>,
    pub buffer: Option<Seq<u8>>,
    pub default_level: Level,
    pub overrides: Map<Seq<char>, Level>,
    pub max_level: Level,
    pub color: bool,
    pub brief_info: bool,
    pub timestamp: bool,
    pub millis: bool,
    pub initialised: bool,
    /// Every operation made on the attached streams so far.
    pub events: Seq<SinkEvent>,
}

impl<S> ParamsView<S> {
    /// What holds of every state the logger can reach.
    pub open spec fn well_formed(self) -> bool {
        &&& self.overrides.dom().finite()
        &&& is_most_verbose(self.max_level, self.default_level, self.overrides)
        &&& (self.stream is Some <==> self.dest.spec_is_stream_dest())
        &&& (self.dest.spec_is_buffer_dest() ==> self.buffer is Some)
    }

    /// The severity in force for records from module `tag`.
    pub open spec fn level_for(self, tag: Seq<char>) -> Level {
        effective_level(self.default_level, self.overrides, tag)
    }
}

/// `post` is `pre` after writing `bytes` to the sinks of `pre`'s
/// destination: appended to the buffer of a buffer destination, written to
/// the stream of a stream destination.
pub open spec fn wrote_line<S>(pre: ParamsView<S>, post: ParamsView<S>, bytes: Seq<u8>) -> bool {
    &&& post.buffer == (if pre.dest.spec_is_buffer_dest() && pre.buffer is Some {
        Some(pre.buffer.unwrap() + bytes)
    } else {
        pre.buffer
    })
    &&& post.events == (if pre.dest.spec_is_stream_dest() && pre.stream is Some {
        pre.events.push(SinkEvent::Wrote(bytes))
    } else {
        pre.events
    })
    &&& (post.stream is Some <==> pre.stream is Some)
    &&& post == (ParamsView { buffer: post.buffer, events: post.events, stream: post.stream, ..pre })
}

/// `post` is `pre` after a successful switch to `dest` with `stream`: the
/// attached stream, if any, flushed and then released; the new stream
/// attached for a stream destination; an empty buffer allocated for a buffer
/// destination only when none exists.
pub open spec fn switched_dest<S>(pre: ParamsView<S>, post: ParamsView<S>, dest: LogDestination, stream: Option<S>) -> bool {
    post == (ParamsView {
        dest,
        stream: if dest.spec_is_stream_dest() {
            stream
        } else {
            None
        },
        buffer: if dest.spec_is_buffer_dest() && pre.buffer is None {
            Some(Seq::<u8>::empty())
        } else {
            pre.buffer
        },
        events: pre.events + (if pre.stream is Some {
            seq![SinkEvent::Flushed, SinkEvent::Detached]
        } else {
            Seq::empty()
        }) + (if dest.spec_is_stream_dest() {
            seq![SinkEvent::Attached]
        } else {
            Seq::empty()
        }),
        ..pre
    })
}

/// `post` is `pre` after retrieving the buffer, which gave `out`: under a
/// buffer destination its contents, leaving it empty; otherwise nothing,
/// with no change.
pub open spec fn retrieved<S>(pre: ParamsView<S>, post: ParamsView<S>, out: Option<Seq<u8>>) -> bool {
    if pre.dest.spec_is_buffer_dest() {
        &&& out is Some
        &&& pre.buffer == out
        &&& post == (ParamsView { buffer: Some(Seq::<u8>::empty()), ..pre })
    } else {
        out is None && post == pre
    }
}

/// The logger's state.
pub struct LoggerParams<S> {
    log_dest: LogDestination,
    log_stream: Option<S>,
    log_buffer: Option<Vec<u8>>,
    default_level: Level,
    mod_level: ModLevels,
    max_level: Level,
    color: bool,
    brief_info: bool,
    timestamp: bool,
    millis: bool,
    initialised: bool,
    events: Ghost<Seq<SinkEvent>>,
}

impl<S> View for LoggerParams<S> {
    type V = ParamsView<S>;

    closed spec fn view(&self) -> ParamsView<S> {
        ParamsView {
            dest: self.log_dest,
            stream: self.log_stream,
            buffer: match self.log_buffer {
                Some(b) => Some(b@),
                None => None,
            },
            default_level: self.default_level,
            overrides: self.mod_level@,
            max_level: self.max_level,
            color: self.color,
            brief_info: self.brief_info,
            timestamp: self.timestamp,
            millis: self.millis,
            initialised: self.initialised,
            events: self.events@,
        }
    }
}

/// Two severities that are both the most verbose among the same default and
/// overrides are the same: an incrementally kept maximum and one computed
/// from scratch always agree.
pub proof fn lemma_most_verbose_unique(a: Level, b: Level, default: Level, m: Map<Seq<char>, Level>)
    requires
        is_most_verbose(a, default, m),
        is_most_verbose(b, default, m),
    ensures
        a == b,
{
    if b != default {
        let k = choose|k: Seq<char>| #[trigger] m.contains_key(k) && m[k] == b;
        assert(m.contains_key(k));
    }
    if a != default {
        let k = choose|k: Seq<char>| #[trigger] m.contains_key(k) && m[k] == a;
        assert(m.contains_key(k));
    }
    lemma_rank_injective(a, b);
}

/// Whatever sequence of operations built it, the logger's most verbose
/// severity is the most verbose among its current default and its current
/// overrides.
pub proof fn lemma_max_level_consistent<S>(p: &LoggerParams<S>)
    requires
        p.wf(),
    ensures
        is_most_verbose(p@.max_level, p@.default_level, p@.overrides),
        p@.well_formed(),
{
}

impl<S> LoggerParams<S> {
    pub closed spec fn wf(&self) -> bool {
        &&& self.mod_level.wf()
        &&& self@.well_formed()
    }

    /// A logger state with default severity `log_level`, no overrides,
    /// output to stderr, timestamps on, colours, brief mode and milliseconds
    /// off.
    pub fn new(log_level: Level) -> (r: LoggerParams<S>)
        ensures
            r.wf(),
            r@ == (ParamsView::<S> {
                dest: LogDestination::Stderr,
                stream: None,
                buffer: None,
                default_level: log_level,
                overrides: Map::empty(),
                max_level: log_level,
                color: false,
                brief_info: false,
                timestamp: true,
                millis: false,
                initialised: false,
                events: Seq::empty(),
            }),
    {
        let mod_level = ModLevels::new();
        proof {
            mod_level.lemma_len_finite();
        }
        LoggerParams {
            log_dest: LogDestination::Stderr,
            log_stream: None,
            log_buffer: None,
            default_level: log_level,
            mod_level,
            max_level: log_level,
            color: false,
            brief_info: false,
            timestamp: true,
            millis: false,
            initialised: false,
            events: Ghost(Seq::empty()),
        }
    }

    /// Marks the state as initialised; returns whether it already was.
    pub fn initialised(&mut self) -> (r: bool)
        requires
            old(self).wf(),
        ensures
            final(self).wf(),
            r == old(self)@.initialised,
            final(self)@ == (ParamsView { initialised: true, ..old(self)@ }),
    {
        if self.initialised {
            true
        } else {
            self.initialised = true;
            false
        }
    }

    fn recalculate_max_level(&mut self)
        requires
            old(self).mod_level.wf(),
            old(self)@.overrides.dom().finite(),
            old(self)@.stream is Some <==> old(self)@.dest.spec_is_stream_dest(),
            old(self)@.dest.spec_is_buffer_dest() ==> old(self)@.buffer is Some,
        ensures
            final(self).wf(),
            final(self)@ == (ParamsView { max_level: final(self)@.max_level, ..old(self)@ }),
    {
        self.max_level = self.mod_level.most_verbose(self.default_level);
    }

    /// The most verbose severity in force anywhere.
    pub fn max_level(&self) -> (r: &Level)
        ensures
            *r == self@.max_level,
    {
        &self.max_level
    }

    /// The override that applies to `module`, found along the `::`
    /// hierarchy from the module itself up to its outermost ancestor.
    pub fn get_mod_level(&self, module: &str) -> (r: Option<Level>)
        requires
            self.wf(),
        ensures
            r == resolve_override(self@.overrides, module@),
    {
        self.mod_level.resolve(module)
    }

    /// The severity in force for records from `module`: its override, else
    /// the default.
    pub fn level_for(&self, module: &str) -> (r: Level)
        requires
            self.wf(),
        ensures
            r == self@.level_for(module@),
    {
        match self.get_mod_level(module) {
            Some(l) => l,
            None => self.default_level,
        }
    }

    pub fn set_color(&mut self, color: bool)
        requires
            old(self).wf(),
        ensures
            final(self).wf(),
            final(self)@ == (ParamsView { color, ..old(self)@ }),
    {
        self.color = color;
    }

    pub fn color(&self) -> (r: bool)
        ensures
            r == self@.color,
    {
        self.color
    }

    pub fn set_brief_info(&mut self, val: bool)
        requires
            old(self).wf(),
        ensures
            final(self).wf(),
            final(self)@ == (ParamsView { brief_info: val, ..old(self)@ }),
    {
        self.brief_info = val;
    }

    pub fn brief_info(&self) -> (r: bool)
        ensures
            r == self@.brief_info,
    {
        self.brief_info
    }

    pub fn set_timestamp(&mut self, val: bool)
        requires
            old(self).wf(),
        ensures
            final(self).wf(),
            final(self)@ == (ParamsView { timestamp: val, ..old(self)@ }),
    {
        self.timestamp = val;
    }

    pub fn timestamp(&self) -> (r: bool)
        ensures
            r == self@.timestamp,
    {
        self.timestamp
    }

    pub fn set_millis(&mut self, val: bool)
        requires
            old(self).wf(),
        ensures
            final(self).wf(),
            final(self)@ == (ParamsView { millis: val, ..old(self)@ }),
    {
        self.millis = val;
    }

    pub fn millis(&self) -> (r: bool)
        ensures
            r == self@.millis,
    {
        self.millis
    }

    /// Sets the override of `module` and returns the new most verbose
    /// severity, recomputed over all overrides only when the new level is
    /// less verbose than the old maximum.
    pub fn set_mod_level(&mut self, module: &str, level: Level) -> (r: Level)
        requires
            old(self).wf(),
        ensures
            final(self).wf(),
            final(self)@ == (ParamsView {
                overrides: old(self)@.overrides.insert(module@, level),
                max_level: r,
                ..old(self)@
            }),
            is_most_verbose(r, old(self)@.default_level, old(self)@.overrides.insert(module@, level)),
    {
        self.mod_level.insert(module, level);
        proof {
            self.mod_level.lemma_len_finite();
        }
        if level.verbosity() > self.max_level.verbosity() {
            self.max_level = level;
            proof {
                assert(self.mod_level@.contains_key(module@));
            }
        } else if level.verbosity() < self.max_level.verbosity() {
            self.recalculate_max_level();
        } else {
            proof {
                lemma_rank_injective(level, self.max_level);
                assert(self.mod_level@.contains_key(module@));
            }
        }
        self.max_level
    }

    /// Sets every override of `mod_config`, replacing earlier ones of the
    /// same modules, and recomputes the most verbose severity.
    pub fn set_mod_config(&mut self, mod_config: &ModLevels) -> (r: Level)
        requires
            old(self).wf(),
            mod_config.wf(),
        ensures
            final(self).wf(),
            final(self)@ == (ParamsView {
                overrides: old(self)@.overrides.union_prefer_right(mod_config@),
                max_level: r,
                ..old(self)@
            }),
    {
        self.mod_level.merge(mod_config);
        proof {
            self.mod_level.lemma_len_finite();
        }
        self.recalculate_max_level();
        self.max_level
    }

    /// Sets the default severity and returns the new most verbose severity,
    /// recomputed over all overrides only when the new default is less
    /// verbose than the old maximum.
    pub fn set_default_level(&mut self, level: Level) -> (r: Level)
        requires
            old(self).wf(),
        ensures
            final(self).wf(),
            final(self)@ == (ParamsView { default_level: level, max_level: r, ..old(self)@ }),
            is_most_verbose(r, level, old(self)@.overrides),
    {
        self.default_level = level;
        if level.verbosity() >= self.max_level.verbosity() {
            self.max_level = level;
        } else {
            self.recalculate_max_level();
        }
        self.max_level
    }

    pub fn get_default_level(&self) -> (r: Level)
        ensures
            r == self@.default_level,
    {
        self.default_level
    }

    pub fn get_log_dest(&self) -> (r: &LogDestination)
        ensures
            *r == self@.dest,
    {
        &self.log_dest
    }

    /// The attached stream, if any.
    pub fn log_stream(&self) -> (r: Option<&S>)
        ensures
            match r {
                Some(s) => self@.stream == Some(*s),
                None => self@.stream is None,
            },
    {
        match &self.log_stream {
            Some(s) => Some(s),
            None => None,
        }
    }

    /// The memory buffer, if one is allocated.
    pub fn log_buffer(&self) -> (r: Option<&Vec<u8>>)
        ensures
            match r {
                Some(b) => self@.buffer == Some(b@),
                None => self@.buffer is None,
            },
    {
        match &self.log_buffer {
            Some(b) => Some(b),
            None => None,
        }
    }

    /// Takes the contents of the memory buffer and leaves it empty, when the
    /// destination is a buffer destination; otherwise returns nothing and
    /// keeps any buffered content for a later return to a buffer
    /// destination.
    pub fn retrieve_log_buffer(&mut self) -> (r: Option<Vec<u8>>)
        requires
            old(self).wf(),
        ensures
            final(self).wf(),
            retrieved(
                old(self)@,
                final(self)@,
                match r {
                    Some(b) => Some(b@),
                    None => None,
                },
            ),
    {
        if self.log_dest.is_buffer_dest() {
            match self.log_buffer.take() {
                Some(b) => {
                    self.log_buffer = Some(Vec::new());
                    Some(b)
                },
                None => {
                    self.log_buffer = Some(Vec::new());
                    None
                },
            }
        } else {
            None
        }
    }
}

/// A line that passed the level check: the text written, and the console
/// that the caller still has to write it to, if any.
pub struct Emitted {
    pub line: String,
    pub console: Option<ConsoleStream>,
}

/// `ts` is a timestamp prefix: empty when timestamps are off, else the
/// text of some local time, with milliseconds when `millis` is set.
pub open spec fn is_timestamp_prefix(ts: Seq<char>, timestamp: bool, millis: bool) -> bool {
    if timestamp {
        exists|t: LocalTime| t.wf() && ts == #[trigger] timestamp_text(t, millis)
    } else {
        ts.len() == 0
    }
}

/// `line` is `body` after a timestamp prefix, painted in the colour of
/// `level` when colours are on.
pub open spec fn renders(
    line: Seq<char>,
    body: Seq<char>,
    level: Level,
    timestamp: bool,
    millis: bool,
    color: bool,
) -> bool {
    exists|ts: Seq<char>|
        {
            &&& is_timestamp_prefix(ts, timestamp, millis)
            &&& (if color {
                painted(#[trigger] (ts + body), level_color_code(level), line)
            } else {
                line == #[trigger] (ts + body)
            })
        }
}

impl<S: LogStream> LoggerParams<S> {
    // Every call on the attached stream goes through `stream_flush` or
    // `stream_write`, which record it in `events`.
    fn stream_flush(&mut self)
        ensures
            final(self).mod_level == old(self).mod_level,
            final(self)@.stream is Some <==> old(self)@.stream is Some,
            final(self)@ == (ParamsView {
                stream: final(self)@.stream,
                events: if old(self)@.stream is Some {
                    old(self)@.events.push(SinkEvent::Flushed)
                } else {
                    old(self)@.events
                },
                ..old(self)@
            }),
    {
        match &mut self.log_stream {
            Some(s) => {
                s.flush();
                self.events = Ghost(self.events@.push(SinkEvent::Flushed));
            },
            None => {},
        }
    }

    fn stream_write(&mut self, bytes: &[u8])
        ensures
            final(self).mod_level == old(self).mod_level,
            final(self)@.stream is Some <==> old(self)@.stream is Some,
            final(self)@ == (ParamsView {
                stream: final(self)@.stream,
                events: if old(self)@.stream is Some {
                    old(self)@.events.push(SinkEvent::Wrote(bytes@))
                } else {
                    old(self)@.events
                },
                ..old(self)@
            }),
    {
        match &mut self.log_stream {
            Some(s) => {
                s.write_bytes(bytes);
                self.events = Ghost(self.events@.push(SinkEvent::Wrote(bytes@)));
            },
            None => {},
        }
    }

    /// Flushes the attached stream of a stream destination and returns the
    /// console that the caller has to flush, if any.
    pub fn flush(&mut self) -> (r: Option<ConsoleStream>)
        requires
            old(self).wf(),
        ensures
            final(self).wf(),
            r == console_of(old(self)@.dest),
            final(self)@.stream is Some <==> old(self)@.stream is Some,
            final(self)@ == (ParamsView {
                stream: final(self)@.stream,
                events: if old(self)@.dest.spec_is_stream_dest() {
                    old(self)@.events.push(SinkEvent::Flushed)
                } else {
                    old(self)@.events
                },
                ..old(self)@
            }),
    {
        if self.log_dest.is_stream_dest() {
            self.stream_flush();
        }
        self.log_dest.console()
    }

    /// Switches to destination `dest`. A stream destination needs a stream,
    /// else the call fails with an invalid parameter and changes nothing.
    /// Otherwise the attached stream, if any, is flushed and released before
    /// the new one is attached; a buffer destination allocates an empty
    /// buffer only when none exists, so buffered content that was not
    /// retrieved is kept across switches.
    pub fn set_log_dest(&mut self, dest: &LogDestination, stream: Option<S>) -> (r: Result<(), Error>)
        requires
            old(self).wf(),
        ensures
            final(self).wf(),
            r is Err <==> (dest.spec_is_stream_dest() && stream is None),
            r matches Err(e) ==> e.spec_kind() == ErrorKind::InvParam && final(self)@ == old(self)@,
            r is Ok ==> switched_dest(old(self)@, final(self)@, *dest, stream),
    {
        if dest.is_stream_dest() && stream.is_none() {
            return Err(Error::with_context(ErrorKind::InvParam, "no stream given for a stream log destination"));
        }
        let ghost e0 = self@.events;
        let had_stream = self.log_stream.is_some();
        self.stream_flush();
        self.log_stream = None;
        if had_stream {
            self.events = Ghost(self.events@.push(SinkEvent::Detached));
        }
        let ghost e1 = self.events@;
        if dest.is_stream_dest() {
            self.log_stream = stream;
            self.events = Ghost(self.events@.push(SinkEvent::Attached));
        } else if dest.is_buffer_dest() {
            if self.log_buffer.is_none() {
                self.log_buffer = Some(Vec::new());
            }
        }
        self.log_dest = *dest;
        proof {
            if had_stream {
                assert(e1 =~= e0 + seq![SinkEvent::Flushed, SinkEvent::Detached]);
            } else {
                assert(e1 =~= e0 + Seq::<SinkEvent>::empty());
            }
            if dest.spec_is_stream_dest() {
                assert(self.events@ =~= e1 + seq![SinkEvent::Attached]);
            } else {
                assert(self.events@ =~= e1 + Seq::<SinkEvent>::empty());
            }
        }
        Ok(())
    }

    /// Writes `line` to the sinks of the current destination: the stream of a
    /// stream destination, the buffer of a buffer destination. Returns the
    /// console that the caller has to write the line to: the named console
    /// of a console or paired destination.
    pub fn write_line(&mut self, line: &str) -> (r: Option<ConsoleStream>)
        requires
            old(self).wf(),
        ensures
            final(self).wf(),
            r == console_of(old(self)@.dest),
            wrote_line(old(self)@, final(self)@, encode_utf8(line@)),
    {
        let bytes = line.as_bytes();
        match self.log_dest {
            LogDestination::Stdout => Some(ConsoleStream::Stdout),
            LogDestination::Stderr => Some(ConsoleStream::Stderr),
            LogDestination::Stream | LogDestination::StreamStdout | LogDestination::StreamStderr => {
                self.stream_write(bytes);
                self.log_dest.console()
            },
            LogDestination::Buffer | LogDestination::BufferStdout | LogDestination::BufferStderr => {
                match &mut self.log_buffer {
                    Some(b) => {
                        b.extend_from_slice(bytes);
                        proof {
                            assert(b@ =~= old(self)@.buffer.unwrap() + bytes@);
                        }
                    },
                    None => {},
                }
                self.log_dest.console()
            },
        }
    }
}

impl<S: LogStream> LoggerParams<S> {
    /// Emits a record of severity `level` with `message` from module `path`,
    /// for an executable named `exe`. The record is dropped, with no effect,
    /// when `level` is more verbose than the severity in force for its module
    /// tag. Otherwise its line is formatted, painted when colours are on, and
    /// written as `write_line` does.
    pub fn emit(&mut self, level: Level, path: Option<&str>, exe: Option<&str>, message: &str) -> (r: Option<Emitted>)
        requires
            old(self).wf(),
        ensures
            final(self).wf(),
            r is Some <==> level.rank() <= old(self)@.level_for(
                spec_module_tag(opt_view(path), opt_view(exe)),
            ).rank(),
            r is None ==> final(self)@ == old(self)@,
            r matches Some(e) ==> {
                &&& e.console == console_of(old(self)@.dest)
                &&& wrote_line(old(self)@, final(self)@, encode_utf8(e.line@))
                &&& renders(
                    e.line@,
                    line_body(
                        level,
                        spec_module_name(opt_view(path)),
                        message@,
                        shows_module(level, old(self)@.brief_info),
                    ),
                    level,
                    old(self)@.timestamp,
                    old(self)@.millis,
                    old(self)@.color,
                )
            },
    {
        let (mod_name, mod_tag) = module_names(path, exe);
        let effective = self.level_for(mod_tag.as_str());
        if level.verbosity() > effective.verbosity() {
            return None;
        }
        let ts = timestamp_prefix(self.timestamp, self.millis);
        let plain = format_record(ts.as_str(), level, mod_name.as_str(), message, self.brief_info);
        let line = if self.color {
            paint_for_level(plain.as_str(), level)
        } else {
            plain
        };
        proof {
            let body = line_body(level, mod_name@, message@, shows_module(level, self.brief_info));
            assert(plain@ == ts@ + body);
            assert(is_timestamp_prefix(ts@, self.timestamp, self.millis));
        }
        let console = self.write_line(line.as_str());
        Some(Emitted { line, console })
    }
}

/// Buffered content survives a switch from a buffer destination to a stream
/// destination and back: bytes written under the buffer destination are
/// still there, after what was buffered before, when the buffer is
/// retrieved.
pub proof fn lemma_buffer_survives_stream_round_trip<S>(
    p0: ParamsView<S>,
    p1: ParamsView<S>,
    p2: ParamsView<S>,
    p3: ParamsView<S>,
    p4: ParamsView<S>,
    bytes: Seq<u8>,
    stream_dest: LogDestination,
    stream: S,
    buffer_dest: LogDestination,
    out: Option<Seq<u8>>,
)
    requires
        p0.well_formed(),
        p0.dest.spec_is_buffer_dest(),
        stream_dest.spec_is_stream_dest(),
        buffer_dest.spec_is_buffer_dest(),
        wrote_line(p0, p1, bytes),
        switched_dest(p1, p2, stream_dest, Some(stream)),
        switched_dest(p2, p3, buffer_dest, None),
        retrieved(p3, p4, out),
    ensures
        out == Some(p0.buffer.unwrap() + bytes),
        p4.buffer == Some(Seq::<u8>::empty()),
{
}

/// Switching from a stream destination to any other destination flushes the
/// stream exactly once and then releases it, and no later line is written
/// to it.
pub proof fn lemma_stream_flushed_before_release<S>(
    pre: ParamsView<S>,
    post: ParamsView<S>,
    dest: LogDestination,
    stream: Option<S>,
    next: ParamsView<S>,
    bytes: Seq<u8>,
)
    requires
        pre.well_formed(),
        pre.dest.spec_is_stream_dest(),
        !dest.spec_is_stream_dest(),
        switched_dest(pre, post, dest, stream),
        wrote_line(post, next, bytes),
    ensures
        post.events == pre.events + seq![SinkEvent::Flushed, SinkEvent::Detached],
        post.stream is None,
        next.events == post.events,
{
    assert(post.events =~= pre.events + seq![SinkEvent::Flushed, SinkEvent::Detached]);
}

/// A line that `emit` wrote with timestamps and colours off reads back as
/// the level, module and message of its record, under the conditions of
/// `lemma_plain_line_round_trip`.
pub proof fn lemma_emitted_line_round_trip(
    line: Seq<char>,
    level: Level,
    module: Seq<char>,
    message: Seq<char>,
    brief: bool,
    millis: bool,
)
    requires
        renders(line, line_body(level, module, message, shows_module(level, brief)), level, false, millis, false),
        !module.contains(']'),
        !shows_module(level, brief) ==> !(message.len() > 0 && message[0] == '['),
    ensures
        parse_line(line) == Some(
            LineParts {
                level,
                module: if shows_module(level, brief) {
                    Some(module)
                } else {
                    None
                },
                message,
            },
        ),
{
    let body = line_body(level, module, message, shows_module(level, brief));
    let ts = choose|ts: Seq<char>|
        {
            &&& is_timestamp_prefix(ts, false, millis)
            &&& (if false {
                painted(#[trigger] (ts + body), level_color_code(level), line)
            } else {
                line == #[trigger] (ts + body)
            })
        };
    assert(ts + body =~= body);
    lemma_plain_line_round_trip(level, module, message, brief);
}

} // verus!
