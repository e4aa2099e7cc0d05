//! Setting up a search from what the caller was given.

use vstd::prelude::*;
use vstd::string::StringExecFns;
use crate::pattern::{regex_compiles, ConfigError, Pattern};

verus! {

/// The first positional value, with what the filesystem says of it.
#[derive(Clone, Debug)]
pub struct PatternArg {
    pub text: String,
    /// Whether something exists at the path that `text` spells.
    pub is_path: bool,
}

/// Where the walk is to start, as far as the second positional value and the
/// filesystem tell.
#[derive(Clone, Debug)]
pub enum RootArg {
    /// A path was given and nothing exists there.
    Missing,
    /// A path was given; this is its canonical form.
    Resolved(String),
    /// No path was given; this is the working directory.
    WorkingDir(String),
}

/// Everything that is fixed for one run.
#[derive(Debug)]
pub struct SearchConfig {
    pub root: String,
    pub pattern: Pattern,
    pub detail: bool,
    pub json: bool,
    pub hidden: bool,
}

/// What a search is set up with, before the pattern is compiled.
#[derive(Clone, Debug, PartialEq, Eq)]
pub struct Plan {
    pub root: String,
    /// The text to compile, `None` where every name is to match.
    pub source: Option<String>,
}

/// Whether the first positional value names the root rather than a pattern.
pub open spec fn names_root(pattern: Option<PatternArg>) -> bool {
    pattern is Some && pattern->Some_0.is_path
}

/// The root of the walk: the first positional value where it is an existing
/// path, else the second in its canonical form, else the working directory.
pub open spec fn planned_root(pattern: Option<PatternArg>, root: RootArg) -> Seq<char> {
    if names_root(pattern) {
        pattern->Some_0.text@
    } else {
        match root {
            RootArg::Missing => Seq::empty(),
            RootArg::Resolved(p) => p@,
            RootArg::WorkingDir(p) => p@,
        }
    }
}

/// The pattern text: the first positional value, unless it is an existing path.
pub open spec fn planned_source(pattern: Option<PatternArg>) -> Option<Seq<char>> {
    if pattern is Some && !pattern->Some_0.is_path {
        Some(pattern->Some_0.text@)
    } else {
        None
    }
}

/// The error that setting up ends in, if any. A missing root is found first.
pub open spec fn setup_error(pattern: Option<PatternArg>, root: RootArg) -> Option<ConfigError> {
    if root is Missing {
        Some(ConfigError::InvalidPath)
    } else if planned_source(pattern) is Some && !regex_compiles(planned_source(pattern)->Some_0) {
        Some(ConfigError::InvalidPattern)
    } else {
        None
    }
}

/// Decides the root and the pattern text from the two positional values.
/// Fails, with `InvalidPath`, exactly where a root was given that does not
/// exist.
pub fn plan(pattern: &Option<PatternArg>, root: &RootArg) -> (r: Result<Plan, ConfigError>)
    ensures
        match r {
            Ok(p) => {
                &&& !(root is Missing)
                &&& p.root@ == planned_root(*pattern, *root)
                &&& (p.source is Some) == (planned_source(*pattern) is Some)
                &&& (p.source is Some ==> p.source->Some_0@ == planned_source(*pattern)->Some_0)
            },
            Err(e) => root is Missing && e == ConfigError::InvalidPath,
        },
{
    let given = match root {
        RootArg::Missing => { return Err(ConfigError::InvalidPath); },
        RootArg::Resolved(p) => p,
        RootArg::WorkingDir(p) => p,
    };
    match pattern {
        Some(arg) => {
            if arg.is_path {
                Ok(Plan { root: arg.text.clone(), source: None })
            } else {
                Ok(Plan { root: given.clone(), source: Some(arg.text.clone()) })
            }
        },
        None => Ok(Plan { root: given.clone(), source: None }),
    }
}

/// Sets up a search. It fails with `InvalidPath` where a root was given that
/// does not exist, with `InvalidPattern` where the root is in order and the
/// pattern text does not compile, and not otherwise. The pattern text `.*`
/// compiles, and the search then takes every name, as it does with no
/// pattern.
pub fn configure(
    pattern: &Option<PatternArg>,
    root: &RootArg,
    detail: bool,
    json: bool,
    hidden: bool,
) -> (r: Result<SearchConfig, ConfigError>)
    ensures
        match r {
            Ok(c) => {
                &&& setup_error(*pattern, *root) is None
                &&& c.root@ == planned_root(*pattern, *root)
                &&& c.pattern.source() == planned_source(*pattern)
                &&& c.detail == detail
                &&& c.json == json
                &&& c.hidden == hidden
            },
            Err(e) => setup_error(*pattern, *root) == Some(e),
        },
        planned_source(*pattern) == Some(".*"@) ==> match r {
            Ok(c) => c.pattern.accepts_all(),
            Err(e) => root is Missing,
        },
{
    let p = match plan(pattern, root) {
        Ok(p) => p,
        Err(e) => { return Err(e); },
    };
    let compiled = match &p.source {
        Some(text) => match Pattern::compile(text.as_str()) {
            Ok(c) => c,
            Err(e) => { return Err(e); },
        },
        None => Pattern::everything(),
    };
    Ok(SearchConfig { root: p.root, pattern: compiled, detail, json, hidden })
}

impl ConfigError {
    /// The diagnostic for the error.
    pub open spec fn diagnostic_text(self) -> Seq<char> {
        match self {
            ConfigError::InvalidPath => "Invalid directory path!"@,
            ConfigError::InvalidPattern => "Invalid RegEx!\n"@,
        }
    }

    /// The diagnostic to print for the error.
    pub fn diagnostic(&self) -> (text: &'static str)
        ensures
            text@ == self.diagnostic_text(),
    {
        match self {
            ConfigError::InvalidPath => "Invalid directory path!",
            ConfigError::InvalidPattern => "Invalid RegEx!\n",
        }
    }
}

/// Puts the usage text, as the caller rendered it, on the output.
pub fn print_help(usage: &str, out: &mut Vec<String>)
    ensures
        final(out)@.len() == old(out)@.len() + 1,
        final(out)@.subrange(0, old(out)@.len() as int) == old(out)@,
        final(out)@.last()@ == usage@,
{
    let ghost before = out@;
    out.push(String::from_str(usage));
    assert(out@.subrange(0, before.len() as int) =~= before);
}

/// All that is printed where setting up fails: the diagnostic, then the usage
/// text.
pub fn report_error(error: ConfigError, usage: &str) -> (out: Vec<String>)
    ensures
        out@.len() == 2,
        out@[0]@ == error.diagnostic_text(),
        out@[1]@ == usage@,
{
    let mut out: Vec<String> = Vec::new();
    out.push(String::from_str(error.diagnostic()));
    print_help(usage, &mut out);
    assert(out@[0] == out@.subrange(0, 1)[0]);
    out
}

} // verus!
