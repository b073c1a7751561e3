//! Turning a log record into an output line.
use crate::level::Level;
use colored::Colorize;
use vstd::prelude::*;

verus! {

/// The index of the first `:` of `s` at or after `i`, or -1.
pub open spec fn first_colon_from(s: Seq<char>, i: int) -> int
    decreases s.len() - i,
{
    if i < 0 || i >= s.len() {
        -1
    } else if s[i] == ':' {
        i
    } else {
        first_colon_from(s, i + 1)
    }
}

/// A module path of the form `head::rest` where `head` is not empty and holds
/// no `:`, and `rest` holds no line break: its `head` and `rest`.
pub open spec fn split_crate_prefix(path: Seq<char>) -> Option<(Seq<char>, Seq<char>)> {
    let i = first_colon_from(path, 0);
    if i > 0 && i + 1 < path.len() && path[i + 1] == ':' && !path.skip(i + 2).contains('\n') {
        Some((path.take(i), path.skip(i + 2)))
    } else {
        None
    }
}

/// The module name shown in a line for a record from `path`.
pub open spec fn spec_module_name(path: Option<Seq<char>>) -> Seq<char> {
    match path {
        Some(p) => p,
        None => "undefined"@,
    }
}

/// The module tag under which the level of a record from `path` is looked
/// up: the path without the executable's own crate prefix, `main` for the
/// executable's root module, `undefined` without a path.
pub open spec fn spec_module_tag(path: Option<Seq<char>>, exe: Option<Seq<char>>) -> Seq<char> {
    match path {
        None => "undefined"@,
        Some(p) => match exe {
            None => p,
            Some(e) => match split_crate_prefix(p) {
                Some((head, rest)) => if head == e {
                    rest
                } else {
                    p
                },
                None => if p == e {
                    "main"@
                } else {
                    p
                },
            },
        },
    }
}

/// The level name, padded with spaces to five characters.
pub open spec fn padded_name(l: Level) -> Seq<char> {
    if l.spec_name().len() < 5 {
        l.spec_name() + " "@
    } else {
        l.spec_name()
    }
}

/// The text of a line after its timestamp: the padded level name, the module
/// in brackets unless it is left out, the message and a line break.
pub open spec fn line_body(level: Level, module: Seq<char>, message: Seq<char>, show_module: bool) -> Seq<char> {
    if show_module {
        padded_name(level) + " ["@ + module + "] "@ + message + "\n"@
    } else {
        padded_name(level) + " "@ + message + "\n"@
    }
}

/// Brief mode leaves the module out of `Info` lines.
pub open spec fn shows_module(level: Level, brief: bool) -> bool {
    !(brief && level == Level::Info)
}

/// The index of the first `:` of `s` at or after `i`.
fn find_colon(s: &str, i: usize) -> (r: Option<usize>)
    requires
        i <= s@.len(),
    ensures
        match r {
            Some(j) => j as int == first_colon_from(s@, i as int),
            None => first_colon_from(s@, i as int) == -1,
        },
{
    let n = s.unicode_len();
    let mut j = i;
    while j < n
        invariant
            i <= j <= n,
            n == s@.len(),
            first_colon_from(s@, i as int) == first_colon_from(s@, j as int),
        decreases n - j,
    {
        if s.get_char(j) == ':' {
            return Some(j);
        }
        j = j + 1;
    }
    None
}

/// `s` holds no line break at or after `i`.
fn no_newline_from(s: &str, i: usize) -> (r: bool)
    requires
        i <= s@.len(),
    ensures
        r == !s@.skip(i as int).contains('\n'),
{
    let n = s.unicode_len();
    let mut j = i;
    while j < n
        invariant
            i <= j <= n,
            n == s@.len(),
            forall|k: int| i <= k < j ==> s@[k] != '\n',
        decreases n - j,
    {
        if s.get_char(j) == '\n' {
            assert(s@.skip(i as int)[j - i] == '\n');
            return false;
        }
        j = j + 1;
    }
    assert forall|k: int| 0 <= k < s@.skip(i as int).len() implies s@.skip(i as int)[k] != '\n' by {
        assert(s@.skip(i as int)[k] == s@[k + i]);
    }
    true
}

/// Splits `head::rest` as `split_crate_prefix` describes.
pub fn crate_prefix(path: &str) -> (r: Option<(&str, &str)>)
    ensures
        match r {
            Some((h, t)) => split_crate_prefix(path@) == Some((h@, t@)),
            None => split_crate_prefix(path@) is None,
        },
{
    let n = path.unicode_len();
    match find_colon(path, 0) {
        Some(i) => {
            if i > 0 && n > 0 && i < n - 1 && path.get_char(i + 1) == ':' && no_newline_from(path, i + 2) {
                Some((path.substring_char(0, i), path.substring_char(i + 2, n)))
            } else {
                None
            }
        },
        None => None,
    }
}

/// The module name and the module tag of a record from `path`, for an
/// executable named `exe`.
pub fn module_names(path: Option<&str>, exe: Option<&str>) -> (r: (String, String))
    ensures
        r.0@ == spec_module_name(opt_view(path)),
        r.1@ == spec_module_tag(opt_view(path), opt_view(exe)),
{
    match path {
        None => (String::from_str("undefined"), String::from_str("undefined")),
        Some(p) => match exe {
            None => (p.to_owned(), p.to_owned()),
            Some(e) => match crate_prefix(p) {
                Some((head, rest)) => {
                    if head.to_owned() == e.to_owned() {
                        (p.to_owned(), rest.to_owned())
                    } else {
                        (p.to_owned(), p.to_owned())
                    }
                },
                None => {
                    if p.to_owned() == e.to_owned() {
                        (p.to_owned(), String::from_str("main"))
                    } else {
                        (p.to_owned(), p.to_owned())
                    }
                },
            },
        },
    }
}

/// The view of an optional string.
pub open spec fn opt_view(s: Option<&str>) -> Option<Seq<char>> {
    match s {
        Some(t) => Some(t@),
        None => None,
    }
}

/// A log line: the timestamp followed by the line body.
pub fn format_record(timestamp: &str, level: Level, module: &str, message: &str, brief: bool) -> (r: String)
    ensures
        r@ == timestamp@ + line_body(level, module@, message@, shows_module(level, brief)),
{
    let mut s = timestamp.to_owned();
    s.append(level.as_str());
    if level.as_str().unicode_len() < 5 {
        s.append(" ");
    }
    let show = !(brief && level == Level::Info);
    if show {
        s.append(" [");
        s.append(module);
        s.append("] ");
    } else {
        s.append(" ");
    }
    s.append(message);
    s.append("\n");
    proof {
        let ts = timestamp@;
        let b = line_body(level, module@, message@, show);
        assert(s@ =~= ts + b);
    }
    s
}

/// The escape sequence that starts text in the colour of SGR code `code`.
pub open spec fn ansi_open(code: Seq<char>) -> Seq<char> {
    "\u{1b}["@ + code + "m"@
}

/// The escape sequence that resets all attributes.
pub open spec fn ansi_reset() -> Seq<char> {
    "\u{1b}[0m"@
}

/// What painting `s` in colour `code` may give: `s` itself when the
/// environment asks for no colour, else `s` between the colour's escape
/// sequence and a reset; where `s` already holds escape sequences, resets
/// inside it may be followed by the colour again.
pub open spec fn painted(s: Seq<char>, code: Seq<char>, r: Seq<char>) -> bool {
    ||| r == s
    ||| r == ansi_open(code) + s + ansi_reset()
    ||| (s.contains('\u{1b}') && ansi_open(code).is_prefix_of(r) && ansi_reset().is_suffix_of(r))
}

/// The SGR foreground code of the colour of each level.
pub open spec fn level_color_code(l: Level) -> Seq<char> {
    match l {
        Level::Error => "31"@,
        Level::Warn => "33"@,
        Level::Info => "32"@,
        Level::Debug => "36"@,
        Level::Trace => "34"@,
    }
}

/// Relies on `colored::Colorize::red` and the `Display` of its result: the
/// text unchanged when colouring is off (environment or terminal), else the
/// text after `ESC[31m` and before `ESC[0m`.
#[verifier::external_body]
fn paint_red(s: &str) -> (r: String)
    ensures
        painted(s@, "31"@, r@),
{
    s.red().to_string()
}

/// Relies on `colored::Colorize::yellow` and the `Display` of its result, as
/// `paint_red` does, with code 33.
#[verifier::external_body]
fn paint_yellow(s: &str) -> (r: String)
    ensures
        painted(s@, "33"@, r@),
{
    s.yellow().to_string()
}

/// Relies on `colored::Colorize::green` and the `Display` of its result, as
/// `paint_red` does, with code 32.
#[verifier::external_body]
fn paint_green(s: &str) -> (r: String)
    ensures
        painted(s@, "32"@, r@),
{
    s.green().to_string()
}

/// Relies on `colored::Colorize::cyan` and the `Display` of its result, as
/// `paint_red` does, with code 36.
#[verifier::external_body]
fn paint_cyan(s: &str) -> (r: String)
    ensures
        painted(s@, "36"@, r@),
{
    s.cyan().to_string()
}

/// Relies on `colored::Colorize::blue` and the `Display` of its result, as
/// `paint_red` does, with code 34.
#[verifier::external_body]
fn paint_blue(s: &str) -> (r: String)
    ensures
        painted(s@, "34"@, r@),
{
    s.blue().to_string()
}

/// Paints a line in the colour of its level.
pub fn paint_for_level(line: &str, level: Level) -> (r: String)
    ensures
        painted(line@, level_color_code(level), r@),
{
    match level {
        Level::Error => paint_red(line),
        Level::Warn => paint_yellow(line),
        Level::Info => paint_green(line),
        Level::Debug => paint_cyan(line),
        Level::Trace => paint_blue(line),
    }
}

/// The level whose padded name is `s`, if any.
pub open spec fn level_of_padded(s: Seq<char>) -> Option<Level> {
    if s == padded_name(Level::Error) {
        Some(Level::Error)
    } else if s == padded_name(Level::Warn) {
        Some(Level::Warn)
    } else if s == padded_name(Level::Info) {
        Some(Level::Info)
    } else if s == padded_name(Level::Debug) {
        Some(Level::Debug)
    } else if s == padded_name(Level::Trace) {
        Some(Level::Trace)
    } else {
        None
    }
}

/// The index of the first `c` of `s` at or after `i`, or -1.
pub open spec fn first_index_from(s: Seq<char>, c: char, i: int) -> int
    decreases s.len() - i,
{
    if i < 0 || i >= s.len() {
        -1
    } else if s[i] == c {
        i
    } else {
        first_index_from(s, c, i + 1)
    }
}

/// The parts of a line read back: its level, its module when the line shows
/// one, and its message.
pub struct LineParts {
    pub level: Level,
    pub module: Option<Seq<char>>,
    pub message: Seq<char>,
}

/// Reads a line without timestamp or colour: a padded level name and a
/// space, then `[module] ` when the next character is `[`, then the message
/// up to the final line break.
pub open spec fn parse_line(line: Seq<char>) -> Option<LineParts> {
    if line.len() >= 7 && line.last() == '\n' && level_of_padded(line.take(5)) is Some && line[5] == ' ' {
        let level = level_of_padded(line.take(5)).unwrap();
        let rest = line.subrange(6, line.len() - 1);
        if rest.len() > 0 && rest[0] == '[' {
            let j = first_index_from(rest, ']', 1);
            if 1 <= j && j + 1 < rest.len() && rest[j + 1] == ' ' {
                Some(LineParts { level, module: Some(rest.subrange(1, j)), message: rest.skip(j + 2) })
            } else {
                None
            }
        } else {
            Some(LineParts { level, module: None, message: rest })
        }
    } else {
        None
    }
}

proof fn lemma_padded_name(l: Level)
    ensures
        padded_name(l).len() == 5,
        level_of_padded(padded_name(l)) == Some(l),
{
    reveal_strlit("ERROR");
    reveal_strlit("WARN");
    reveal_strlit("INFO");
    reveal_strlit("DEBUG");
    reveal_strlit("TRACE");
    reveal_strlit(" ");
    assert(padded_name(Level::Error) =~= seq!['E', 'R', 'R', 'O', 'R']);
    assert(padded_name(Level::Warn) =~= seq!['W', 'A', 'R', 'N', ' ']);
    assert(padded_name(Level::Info) =~= seq!['I', 'N', 'F', 'O', ' ']);
    assert(padded_name(Level::Debug) =~= seq!['D', 'E', 'B', 'U', 'G']);
    assert(padded_name(Level::Trace) =~= seq!['T', 'R', 'A', 'C', 'E']);
}

proof fn lemma_first_index_past(s: Seq<char>, c: char, i: int, j: int)
    requires
        0 <= i <= j < s.len(),
        s[j] == c,
        forall|k: int| i <= k < j ==> s[k] != c,
    ensures
        first_index_from(s, c, i) == j,
    decreases j - i,
{
    if i < j {
        lemma_first_index_past(s, c, i + 1, j);
    }
}

/// A line formatted without timestamp and colour reads back as the level,
/// module and message it was formatted from, for a module that holds no
/// `]`; in brief mode, an `Info` line reads back without a module when its
/// message does not start with `[`.
pub proof fn lemma_plain_line_round_trip(level: Level, module: Seq<char>, message: Seq<char>, brief: bool)
    requires
        !module.contains(']'),
        !shows_module(level, brief) ==> !(message.len() > 0 && message[0] == '['),
    ensures
        parse_line(line_body(level, module, message, shows_module(level, brief))) == Some(
            LineParts {
                level,
                module: if shows_module(level, brief) {
                    Some(module)
                } else {
                    None
                },
                message,
            },
        ),
{
    lemma_padded_name(level);
    reveal_strlit(" [");
    reveal_strlit("] ");
    reveal_strlit(" ");
    reveal_strlit("\n");
    let show = shows_module(level, brief);
    let line = line_body(level, module, message, show);
    let p = padded_name(level);
    assert(line.take(5) =~= p);
    if show {
        assert(line =~= p + seq![' ', '['] + module + seq![']', ' '] + message + seq!['\n']);
        let rest = line.subrange(6, line.len() - 1);
        assert(rest =~= seq!['['] + module + seq![']', ' '] + message);
        let j: int = module.len() as int + 1;
        assert forall|k: int| 1 <= k < j implies rest[k] != ']' by {
            assert(rest[k] == module[k - 1]);
        }
        lemma_first_index_past(rest, ']', 1, j);
        assert(rest.subrange(1, j) =~= module);
        assert(rest.skip(j + 2) =~= message);
    } else {
        assert(line =~= p + seq![' '] + message + seq!['\n']);
        let rest = line.subrange(6, line.len() - 1);
        assert(rest =~= message);
    }
}

} // verus!
