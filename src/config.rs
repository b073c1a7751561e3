//! Logger configuration: built by calls or from the values of a
//! configuration file, then applied to the logger's state.
use crate::destination::{dest_named, LogDestination};
use crate::error::{Error, ErrorKind};
use crate::level::{level_named, Level};
use crate::mod_levels::ModLevels;
use crate::params::{switched_dest, LogStream, LoggerParams, ParamsView};
use vstd::prelude::*;

verus! {

/// The default severity of a new configuration.
pub const DEFAULT_LOG_LEVEL: Level = Level::Info;

/// The destination of a new configuration; never a stream destination.
pub const DEFAULT_LOG_DEST: LogDestination = LogDestination::Stderr;

/// The model of a configuration.
pub struct LogConfigView {
    pub default_level: Level,
    pub mod_level: Map<Seq<char>, Level>,
    pub log_dest: LogDestination,
    pub log_stream: Option<Seq<char>>,
    pub color: bool,
    pub brief_info: bool,
}

/// The logger configuration parameters.
pub struct LogConfig {
    default_level: Level,
    mod_level: ModLevels,
    log_dest: LogDestination,
    log_stream: Option<String>,
    color: bool,
    brief_info: bool,
}

impl View for LogConfig {
    type V = LogConfigView;

    closed spec fn view(&self) -> LogConfigView {
        LogConfigView {
            default_level: self.default_level,
            mod_level: self.mod_level@,
            log_dest: self.log_dest,
            log_stream: match &self.log_stream {
                Some(s) => Some(s@),
                None => None,
            },
            color: self.color,
            brief_info: self.brief_info,
        }
    }
}

impl LogConfig {
    /// The overrides are well formed, and a stream destination comes with
    /// the name of its stream.
    pub closed spec fn wf(&self) -> bool {
        &&& self.mod_level.wf()
        &&& (self.log_dest.spec_is_stream_dest() ==> self.log_stream is Some)
    }

    pub fn get_default_level(&self) -> (r: Level)
        ensures
            r == self@.default_level,
    {
        self.default_level
    }

    pub fn get_mod_level(&self) -> (r: &ModLevels)
        ensures
            r@ == self@.mod_level,
            self.wf() ==> r.wf(),
    {
        &self.mod_level
    }

    pub fn get_log_dest(&self) -> (r: &LogDestination)
        ensures
            *r == self@.log_dest,
    {
        &self.log_dest
    }

    /// The file name of the stream of a stream destination.
    pub fn get_log_stream(&self) -> (r: Option<&str>)
        ensures
            match r {
                Some(s) => self@.log_stream == Some(s@),
                None => self@.log_stream is None,
            },
    {
        match &self.log_stream {
            Some(s) => Some(s.as_str()),
            None => None,
        }
    }

    pub fn is_color(&self) -> (r: bool)
        ensures
            r == self@.color,
    {
        self.color
    }

    pub fn is_brief_info(&self) -> (r: bool)
        ensures
            r == self@.brief_info,
    {
        self.brief_info
    }
}

/// The values of a configuration file, each optional.
pub struct LogConfigFile {
    pub default_level: Option<String>,
    pub mod_level: Option<Vec<(String, String)>>,
    pub log_dest: Option<String>,
    pub log_stream: Option<String>,
    pub color: Option<bool>,
    pub brief_info: Option<bool>,
}

/// Every level name in `v` names a level.
pub open spec fn all_levels_named(v: Seq<(String, String)>) -> bool {
    forall|i: int| 0 <= i < v.len() ==> (#[trigger] level_named(v[i].1@)) is Some
}

/// The overrides that `v` sets, a later entry for a module replacing an
/// earlier one.
pub open spec fn named_levels_map(v: Seq<(String, String)>) -> Map<Seq<char>, Level>
    decreases v.len(),
{
    if v.len() == 0 {
        Map::empty()
    } else {
        named_levels_map(v.drop_last()).insert(v.last().0@, level_named(v.last().1@).unwrap())
    }
}

/// What reading the values of a configuration file gives: the first failure
/// among an unknown default level (an upstream error), an unknown module
/// level, an unknown destination, and a stream destination without a stream
/// (each an invalid parameter); else the configuration that the values set
/// over the defaults.
pub open spec fn config_file_outcome(f: LogConfigFile) -> Result<LogConfigView, ErrorKind> {
    let dest = match f.log_dest {
        Some(d) => dest_named(d@),
        None => Some(DEFAULT_LOG_DEST),
    };
    if f.default_level matches Some(s) && level_named(s@) is None {
        Err(ErrorKind::Upstream)
    } else if f.mod_level matches Some(v) && !all_levels_named(v@) {
        Err(ErrorKind::InvParam)
    } else if dest is None {
        Err(ErrorKind::InvParam)
    } else if dest.unwrap().spec_is_stream_dest() && f.log_stream is None {
        Err(ErrorKind::InvParam)
    } else {
        Ok(
            LogConfigView {
                default_level: match f.default_level {
                    Some(s) => level_named(s@).unwrap(),
                    None => DEFAULT_LOG_LEVEL,
                },
                mod_level: match f.mod_level {
                    Some(v) => named_levels_map(v@),
                    None => Map::empty(),
                },
                log_dest: dest.unwrap(),
                log_stream: if dest.unwrap().spec_is_stream_dest() {
                    Some(f.log_stream.unwrap()@)
                } else {
                    None
                },
                color: match f.color {
                    Some(c) => c,
                    None => false,
                },
                brief_info: match f.brief_info {
                    Some(b) => b,
                    None => false,
                },
            },
        )
    }
}

/// Builds a `LogConfig`.
pub struct LogConfigBuilder {
    inner: LogConfig,
}

impl View for LogConfigBuilder {
    type V = LogConfigView;

    closed spec fn view(&self) -> LogConfigView {
        self.inner@
    }
}

impl LogConfigBuilder {
    pub closed spec fn wf(&self) -> bool {
        self.inner.wf()
    }

    /// A builder with the defaults: severity `Info`, no overrides, output to
    /// stderr, no stream, colours and brief mode off.
    pub fn new() -> (r: LogConfigBuilder)
        ensures
            r.wf(),
            r@ == (LogConfigView {
                default_level: DEFAULT_LOG_LEVEL,
                mod_level: Map::empty(),
                log_dest: DEFAULT_LOG_DEST,
                log_stream: None,
                color: false,
                brief_info: false,
            }),
    {
        LogConfigBuilder {
            inner: LogConfig {
                default_level: DEFAULT_LOG_LEVEL,
                mod_level: ModLevels::new(),
                log_dest: DEFAULT_LOG_DEST,
                log_stream: None,
                color: false,
                brief_info: false,
            },
        }
    }

    /// Reads the values of a configuration file over the defaults, as
    /// `config_file_outcome` describes.
    pub fn from_config_file(file: &LogConfigFile) -> (r: Result<LogConfigBuilder, Error>)
        ensures
            match r {
                Ok(b) => b.wf() && config_file_outcome(*file) == Ok::<LogConfigView, ErrorKind>(b@),
                Err(e) => config_file_outcome(*file) == Err::<LogConfigView, ErrorKind>(e.spec_kind()),
            },
    {
        let mut builder = LogConfigBuilder::new();
        match &file.default_level {
            Some(s) => match Level::from_name(s.as_str()) {
                Some(l) => {
                    builder.inner.default_level = l;
                },
                None => {
                    return Err(Error::with_context(ErrorKind::Upstream, "Invalid log level"));
                },
            },
            None => {},
        }
        match &file.mod_level {
            Some(v) => {
                let mut i: usize = 0;
                while i < v.len()
                    invariant
                        i <= v@.len(),
                        file.mod_level == Some(*v),
                        builder.wf(),
                        builder.inner.mod_level@ == named_levels_map(v@.take(i as int)),
                        builder.inner.log_dest == DEFAULT_LOG_DEST,
                        file.default_level matches Some(s) ==> level_named(s@) == Some(
                            builder.inner.default_level,
                        ),
                        file.default_level is None ==> builder.inner.default_level == DEFAULT_LOG_LEVEL,
                        builder.inner.log_stream is None,
                        builder.inner.color == false,
                        builder.inner.brief_info == false,
                        forall|j: int| 0 <= j < i ==> (#[trigger] level_named(v@[j].1@)) is Some,
                    decreases v@.len() - i,
                {
                    match Level::from_name(v[i].1.as_str()) {
                        Some(l) => {
                            builder.inner.mod_level.insert(v[i].0.as_str(), l);
                            proof {
                                assert(v@.take(i + 1).drop_last() =~= v@.take(i as int));
                            }
                        },
                        None => {
                            proof {
                                assert(!all_levels_named(v@));
                            }
                            return Err(Error::with_context(ErrorKind::InvParam, "Invalid log level"));
                        },
                    }
                    i = i + 1;
                }
                proof {
                    assert(v@.take(v@.len() as int) =~= v@);
                }
            },
            None => {},
        }
        match &file.log_dest {
            Some(d) => {
                let dest = LogDestination::from_name(d.as_str())?;
                if dest.is_stream_dest() {
                    match &file.log_stream {
                        Some(s) => {
                            builder.inner.log_stream = Some(s.clone());
                        },
                        None => {
                            return Err(
                                Error::with_context(
                                    ErrorKind::InvParam,
                                    "Missing log stream parameter for a stream log destination",
                                ),
                            );
                        },
                    }
                }
                builder.inner.log_dest = dest;
            },
            None => {},
        }
        match file.color {
            Some(c) => {
                builder.inner.color = c;
            },
            None => {},
        }
        match file.brief_info {
            Some(b) => {
                builder.inner.brief_info = b;
            },
            None => {},
        }
        proof {
            let out = config_file_outcome(*file);
            assert(out is Ok);
            let v = out->Ok_0;
            assert(v.default_level == builder@.default_level);
            assert(v.mod_level == builder@.mod_level);
            assert(v.log_dest == builder@.log_dest);
            assert(v.log_stream == builder@.log_stream);
            assert(v == builder@);
        }
        Ok(builder)
    }
}

impl LogConfigBuilder {
    /// Sets the default severity.
    pub fn set_default_level(&mut self, level: Level) -> (r: &mut LogConfigBuilder)
        requires
            old(self).wf(),
        ensures
            r.wf(),
            r@ == (LogConfigView { default_level: level, ..old(self)@ }),
            *final(self) == *final(r),
    {
        self.inner.default_level = level;
        self
    }

    /// Sets the severity of a module, written
    /// `<module>[::<submodule>[::<submodule>]]`.
    pub fn set_mod_level(&mut self, module: &str, level: Level) -> (r: &mut LogConfigBuilder)
        requires
            old(self).wf(),
        ensures
            r.wf(),
            r@ == (LogConfigView { mod_level: old(self)@.mod_level.insert(module@, level), ..old(self)@ }),
            *final(self) == *final(r),
    {
        self.inner.mod_level.insert(module, level);
        self
    }

    /// Sets the destination. A stream destination needs the file name of its
    /// stream, else the call fails with an invalid parameter and changes
    /// nothing; for other destinations `file` is not used.
    pub fn set_log_dest(&mut self, dest: LogDestination, file: Option<&str>) -> (r: Result<&mut LogConfigBuilder, Error>)
        requires
            old(self).wf(),
        ensures
            r is Err <==> dest.spec_is_stream_dest() && file is None,
            r matches Err(e) ==> e.spec_kind() == ErrorKind::InvParam && *final(self) == *old(self),
            r matches Ok(b) ==> {
                &&& b.wf()
                &&& b@ == (LogConfigView {
                    log_dest: dest,
                    log_stream: if dest.spec_is_stream_dest() {
                        Some(file.unwrap()@)
                    } else {
                        old(self)@.log_stream
                    },
                    ..old(self)@
                })
                &&& *final(self) == *final(b)
            },
    {
        if dest.is_stream_dest() {
            match file {
                Some(f) => {
                    self.inner.log_stream = Some(f.to_owned());
                },
                None => {
                    return Err(
                        Error::with_context(
                            ErrorKind::InvParam,
                            "Missing parameter stream for a stream log destination",
                        ),
                    );
                },
            }
        }
        self.inner.log_dest = dest;
        Ok(self)
    }

    /// Enables or disables brief mode: `Info` lines without their module.
    pub fn set_brief_info(&mut self, val: bool)
        requires
            old(self).wf(),
        ensures
            final(self).wf(),
            final(self)@ == (LogConfigView { brief_info: val, ..old(self)@ }),
    {
        self.inner.brief_info = val;
    }

    /// Enables or disables coloured output.
    pub fn set_color(&mut self, val: bool)
        requires
            old(self).wf(),
        ensures
            final(self).wf(),
            final(self)@ == (LogConfigView { color: val, ..old(self)@ }),
    {
        self.inner.color = val;
    }

    /// The configuration built.
    pub fn build(&self) -> (r: &LogConfig)
        ensures
            r@ == self@,
            self.wf() ==> r.wf(),
    {
        &self.inner
    }
}

impl Default for LogConfigBuilder {
    fn default() -> (r: LogConfigBuilder)
        ensures
            r.wf(),
            r@ == (LogConfigView {
                default_level: DEFAULT_LOG_LEVEL,
                mod_level: Map::empty(),
                log_dest: DEFAULT_LOG_DEST,
                log_stream: None,
                color: false,
                brief_info: false,
            }),
    {
        LogConfigBuilder::new()
    }
}

impl<S: LogStream> LoggerParams<S> {
    /// Applies a configuration: its default severity, its overrides merged
    /// over the current ones, its destination with `stream` (the opened
    /// stream of a stream destination), its colour and brief flags. The
    /// severities are applied first; a stream destination without `stream`
    /// then fails with an invalid parameter and leaves the rest unchanged.
    pub fn apply_log_config(&mut self, config: &LogConfig, stream: Option<S>) -> (r: Result<(), Error>)
        requires
            old(self).wf(),
            config.wf(),
        ensures
            final(self).wf(),
            r is Err <==> config@.log_dest.spec_is_stream_dest() && stream is None,
            final(self)@.default_level == config@.default_level,
            final(self)@.overrides == old(self)@.overrides.union_prefer_right(config@.mod_level),
            r matches Err(e) ==> e.spec_kind() == ErrorKind::InvParam && final(self)@ == (ParamsView {
                default_level: final(self)@.default_level,
                overrides: final(self)@.overrides,
                max_level: final(self)@.max_level,
                ..old(self)@
            }),
            r is Ok ==> {
                let levels_set = ParamsView {
                    default_level: final(self)@.default_level,
                    overrides: final(self)@.overrides,
                    max_level: final(self)@.max_level,
                    ..old(self)@
                };
                let flags_kept = ParamsView {
                    color: old(self)@.color,
                    brief_info: old(self)@.brief_info,
                    ..final(self)@
                };
                &&& final(self)@.color == config@.color
                &&& final(self)@.brief_info == config@.brief_info
                &&& if config@.log_dest != old(self)@.dest || config@.log_dest.spec_is_stream_dest() {
                    switched_dest(levels_set, flags_kept, config@.log_dest, stream)
                } else {
                    flags_kept == levels_set
                }
            },
    {
        self.set_default_level(config.get_default_level());
        self.set_mod_config(config.get_mod_level());
        let dest = *config.get_log_dest();
        if dest != *self.get_log_dest() || dest.is_stream_dest() {
            self.set_log_dest(&dest, stream)?;
        }
        self.set_color(config.is_color());
        self.set_brief_info(config.is_brief_info());
        Ok(())
    }
}

} // verus!
