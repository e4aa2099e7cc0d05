//! The name pattern and the matcher.

use vstd::prelude::*;
use crate::entry::{admits, Entry, EntryView};

verus! {

/// `regex::Regex`, a compiled expression. Nothing inside it is read here.
#[verifier::external_type_specification]
#[verifier::external_body]
pub struct ExRegex(regex::Regex);

/// `regex::Error`, why a text did not compile. Nothing inside it is read here.
#[verifier::external_type_specification]
#[verifier::external_body]
pub struct ExRegexError(regex::Error);

/// The text that a compiled expression was built from.
pub uninterp spec fn regex_source(re: regex::Regex) -> Seq<char>;

/// Whether a compiled expression was built under the default configuration:
/// its text alone then says what it finds.
pub uninterp spec fn regex_plain(re: regex::Regex) -> bool;

/// Whether `source` compiles as a regular expression under the default
/// configuration.
pub uninterp spec fn regex_compiles(source: Seq<char>) -> bool;

/// Whether the expression written as `source`, compiled under the default
/// configuration, has a match anywhere in `text`.
pub uninterp spec fn regex_finds(source: Seq<char>, text: Seq<char>) -> bool;

/// `regex::RegexBuilder::new(source).build()`: compiles `source` with the
/// default configuration. Trusted: it succeeds exactly on the texts that
/// `regex_compiles` names, and the compiled expression keeps `source` as its
/// text and is one built under the default configuration. Trusted too, of
/// the one text `.*`: it compiles, and what it compiles to finds a match in
/// every text. By the crate's syntax `.` is any character but a new line and
/// `x*` is zero or more of `x`, so the expression matches the empty string,
/// which every text holds at its start.
#[verifier::external_body]
fn build_regex(source: &str) -> (built: Result<regex::Regex, regex::Error>)
    ensures
        built is Ok <==> regex_compiles(source@),
        built is Ok ==> regex_source(built->Ok_0) == source@,
        built is Ok ==> regex_plain(built->Ok_0),
        source@ == ".*"@ ==> built is Ok,
        source@ == ".*"@ && built is Ok ==> forall|text: Seq<char>|
            regex_finds(regex_source(built->Ok_0), text),
{
    regex::RegexBuilder::new(source).build()
}

/// `regex::Regex::is_match`: an unanchored search of `text`. Trusted, and
/// only of an expression built under the default configuration: the answer
/// is the one that `regex_finds` names for the expression's text.
#[verifier::external_body]
fn regex_is_match(re: &regex::Regex, text: &str) -> (found: bool)
    requires
        regex_plain(*re),
    ensures
        found == regex_finds(regex_source(*re), text@),
{
    re.is_match(text)
}

/// Why a search could not be set up.
#[derive(Clone, Copy, Debug, PartialEq, Eq, Structural)]
pub enum ConfigError {
    /// A root path was given and nothing exists there.
    InvalidPath,
    /// The pattern text is not a regular expression.
    InvalidPattern,
}

/// The rule that base names are tested against: a regular expression that
/// is searched for anywhere in the name, or the rule that takes every name.
/// A value is made by `everything` and `compile` alone, so an expression in
/// it is always one that `compile` built.
#[derive(Debug)]
pub struct Pattern {
    compiled: Option<regex::Regex>,
}

impl Pattern {
    #[verifier::type_invariant]
    spec fn built_here(self) -> bool {
        match self.compiled {
            Some(re) => regex_plain(re),
            None => true,
        }
    }

    /// The text of the pattern, or `None` for the rule that takes every name.
    pub closed spec fn source(&self) -> Option<Seq<char>> {
        match self.compiled {
            Some(re) => Some(regex_source(re)),
            None => None,
        }
    }

    /// Whether `name` satisfies the pattern.
    pub open spec fn accepts(&self, name: Seq<char>) -> bool {
        match self.source() {
            None => true,
            Some(s) => regex_finds(s, name),
        }
    }

    /// The pattern that stands in when none is given.
    pub fn everything() -> (p: Pattern)
        ensures
            p.source() is None,
            p.accepts_all(),
    {
        Pattern { compiled: None }
    }

    /// Whether the pattern accepts every name, as the rule does that stands
    /// in when no pattern is given.
    pub open spec fn accepts_all(&self) -> bool {
        forall|name: Seq<char>| self.accepts(name)
    }

    /// Compiles `source`. Fails with `InvalidPattern`, and only with it,
    /// exactly where the text is not a regular expression. The text `.*` is
    /// one, and its pattern accepts every name.
    pub fn compile(source: &str) -> (r: Result<Pattern, ConfigError>)
        ensures
            r is Ok <==> regex_compiles(source@),
            r is Ok ==> r->Ok_0.source() == Some(source@),
            r is Err ==> r->Err_0 == ConfigError::InvalidPattern,
            source@ == ".*"@ ==> r is Ok && r->Ok_0.accepts_all(),
    {
        match build_regex(source) {
            Ok(re) => Ok(Pattern { compiled: Some(re) }),
            Err(_) => Err(ConfigError::InvalidPattern),
        }
    }

    /// Tells whether this is the rule that takes every name.
    pub fn takes_everything(&self) -> (all: bool)
        ensures
            all == (self.source() is None),
    {
        self.compiled.is_none()
    }

    /// Tests a base name against the pattern.
    pub fn is_match(&self, name: &str) -> (found: bool)
        ensures
            found == self.accepts(name@),
    {
        proof {
            use_type_invariant(self);
        }
        match &self.compiled {
            Some(re) => regex_is_match(re, name),
            None => true,
        }
    }
}

/// Whether an entry is reported: it is admitted under the hidden-entry policy,
/// its name is text, and that text satisfies the pattern.
pub open spec fn selected(entry: EntryView, pattern: Pattern, include_hidden: bool) -> bool {
    &&& entry.admitted(include_hidden)
    &&& entry.name is Some
    &&& pattern.accepts(entry.name->Some_0)
}

/// The matcher. The hidden-entry policy is applied first: the pattern is not
/// consulted for an entry that the policy excludes.
pub fn matches(entry: &Entry, pattern: &Pattern, include_hidden: bool) -> (included: bool)
    ensures
        included == selected(entry@, *pattern, include_hidden),
{
    if !admits(entry, include_hidden) {
        return false;
    }
    match &entry.name {
        Some(n) => pattern.is_match(n.as_str()),
        None => false,
    }
}

/// A hidden entry is never reported while hidden entries are not asked for,
/// whatever the pattern says of its name.
pub proof fn lemma_hidden_excluded(entry: EntryView, pattern: Pattern)
    requires
        entry.is_hidden(),
    ensures
        !selected(entry, pattern, false),
{
}

/// When hidden entries are asked for, the hidden-entry policy excludes
/// nothing: an entry is reported exactly when its name is text that satisfies
/// the pattern.
pub proof fn lemma_hidden_included(entry: EntryView, pattern: Pattern)
    ensures
        selected(entry, pattern, true) == (entry.name is Some && pattern.accepts(
            entry.name->Some_0,
        )),
{
}

/// Two patterns that accept the same names select the same entries. So a
/// run with no pattern given and a run with a pattern that accepts every
/// name, such as `.*`, select alike.
pub proof fn lemma_like_patterns_select_alike(
    entry: EntryView,
    first: Pattern,
    second: Pattern,
    include_hidden: bool,
)
    requires
        forall|name: Seq<char>| first.accepts(name) == second.accepts(name),
    ensures
        selected(entry, first, include_hidden) == selected(entry, second, include_hidden),
{
}

/// With no pattern given, every entry that the hidden-entry policy admits and
/// whose name is text is reported.
pub proof fn lemma_no_pattern_selects_all(entry: EntryView, pattern: Pattern, include_hidden: bool)
    requires
        pattern.source() is None,
    ensures
        selected(entry, pattern, include_hidden) == (entry.admitted(include_hidden)
            && entry.name is Some),
{
}

} // verus!
