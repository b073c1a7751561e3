use mod_logger::record::{crate_prefix, module_names};
use mod_logger::{Level, LogStream, LoggerParams, ModLevels};

struct NullStream;

impl LogStream for NullStream {
    fn write_bytes(&mut self, _bytes: &[u8]) {}
    fn flush(&mut self) {}
}

fn params(default: Level) -> LoggerParams<NullStream> {
    LoggerParams::new(default)
}

#[test]
fn hierarchical_resolution() {
    let mut p = params(Level::Error);
    p.set_mod_level("a", Level::Warn);
    p.set_mod_level("a::b", Level::Debug);
    assert_eq!(p.get_mod_level("a::b::c"), Some(Level::Debug));
    assert_eq!(p.level_for("a::b::c"), Level::Debug);
    assert_eq!(p.level_for("a::x"), Level::Warn);
    assert_eq!(p.level_for("z"), Level::Error);
    assert_eq!(p.get_mod_level("z"), None);
}

#[test]
fn resolution_edge_cases() {
    let mut p = params(Level::Info);
    p.set_mod_level("a", Level::Trace);
    assert_eq!(p.level_for(""), Level::Info);
    assert_eq!(p.level_for("ab"), Level::Info);
    assert_eq!(p.level_for("a:b"), Level::Info);
    assert_eq!(p.level_for("a:::b"), Level::Info);
    assert_eq!(p.level_for("a::::b"), Level::Trace);
    assert_eq!(p.level_for("a::"), Level::Trace);
    assert_eq!(p.level_for("b::a"), Level::Info);
}

#[test]
fn max_level_follows_every_change() {
    let mut p = params(Level::Info);
    assert_eq!(*p.max_level(), Level::Info);
    assert_eq!(p.set_mod_level("a", Level::Trace), Level::Trace);
    assert_eq!(p.set_mod_level("b", Level::Debug), Level::Trace);
    assert_eq!(p.set_mod_level("a", Level::Warn), Level::Debug);
    assert_eq!(p.set_mod_level("b", Level::Error), Level::Info);
    assert_eq!(p.set_default_level(Level::Error), Level::Warn);
    assert_eq!(p.set_default_level(Level::Debug), Level::Debug);
    assert_eq!(p.set_mod_level("c", Level::Debug), Level::Debug);
    assert_eq!(p.set_default_level(Level::Error), Level::Debug);
    assert_eq!(*p.max_level(), Level::Debug);
    assert_eq!(p.get_default_level(), Level::Error);
}

#[test]
fn bulk_merge_last_writer_wins() {
    let mut p = params(Level::Warn);
    p.set_mod_level("a", Level::Trace);
    let mut m = ModLevels::new();
    m.insert("a", Level::Error);
    m.insert("b", Level::Info);
    m.insert("b", Level::Debug);
    assert_eq!(m.len(), 2);
    assert_eq!(m.get("b"), Some(Level::Debug));
    assert_eq!(p.set_mod_config(&m), Level::Debug);
    assert_eq!(p.level_for("a"), Level::Error);
    assert_eq!(p.level_for("b::c"), Level::Debug);
}

#[test]
fn mod_levels_map() {
    let mut m = ModLevels::new();
    assert_eq!(m.len(), 0);
    assert_eq!(m.get("x"), None);
    m.insert("x::y", Level::Warn);
    assert_eq!(m.resolve("x::y::z"), Some(Level::Warn));
    assert_eq!(m.resolve("x"), None);
    assert_eq!(m.most_verbose(Level::Error), Level::Warn);
    assert_eq!(m.most_verbose(Level::Trace), Level::Trace);
    let mut n = ModLevels::new();
    n.insert("q", Level::Info);
    m.merge(&n);
    assert_eq!(m.len(), 2);
    assert_eq!(m.get("q"), Some(Level::Info));
}

#[test]
fn level_names() {
    assert_eq!(Level::from_name("info"), Some(Level::Info));
    assert_eq!(Level::from_name("TRACE"), Some(Level::Trace));
    assert_eq!(Level::from_name("wArN"), Some(Level::Warn));
    assert_eq!(Level::from_name("error"), Some(Level::Error));
    assert_eq!(Level::from_name("Debug"), Some(Level::Debug));
    assert_eq!(Level::from_name("off"), None);
    assert_eq!(Level::from_name(""), None);
    assert_eq!(Level::from_name("warning"), None);
    assert_eq!("Trace".parse::<Level>().unwrap(), Level::Trace);
    assert!("verbose".parse::<Level>().is_err());
    assert_eq!(Level::Warn.as_str(), "WARN");
    assert_eq!(Level::Trace.verbosity(), 5);
    assert_eq!(Level::Error.verbosity(), 1);
}

#[test]
fn initialised_is_test_and_set() {
    let mut p = params(Level::Info);
    assert!(!p.initialised());
    assert!(p.initialised());
    assert!(p.initialised());
}

#[test]
fn module_names_strip_the_executable_crate() {
    let (name, tag) = module_names(Some("myexe::net::io"), Some("myexe"));
    assert_eq!(name, "myexe::net::io");
    assert_eq!(tag, "net::io");
    let (name, tag) = module_names(Some("myexe"), Some("myexe"));
    assert_eq!(name, "myexe");
    assert_eq!(tag, "main");
    let (name, tag) = module_names(Some("other::x"), Some("myexe"));
    assert_eq!(name, "other::x");
    assert_eq!(tag, "other::x");
    let (name, tag) = module_names(Some("a::b"), None);
    assert_eq!((name.as_str(), tag.as_str()), ("a::b", "a::b"));
    let (name, tag) = module_names(None, Some("myexe"));
    assert_eq!((name.as_str(), tag.as_str()), ("undefined", "undefined"));
}

#[test]
fn crate_prefix_grammar() {
    assert_eq!(crate_prefix("a::b::c"), Some(("a", "b::c")));
    assert_eq!(crate_prefix("a::"), Some(("a", "")));
    assert_eq!(crate_prefix("::a"), None);
    assert_eq!(crate_prefix("a:b::c"), None);
    assert_eq!(crate_prefix("abc"), None);
    assert_eq!(crate_prefix("a::b\nc"), None);
    assert_eq!(crate_prefix("é::ü"), Some(("é", "ü")));
}
