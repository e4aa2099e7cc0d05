//! The run itself: each visit of the walk becomes lines to print or items of
//! the document that is handed over at the end.

use vstd::prelude::*;
use crate::config::SearchConfig;
use crate::detail::{
    detail_lines, detail_records, print_detailed, push_json_detailed, record_views, texts,
    RecordView, ResultRecord,
};
use crate::entry::{Entry, EntryView, Stat};
use crate::pattern::selected;

verus! {

/// `serde_json::Error`, why a value was not written. Nothing inside it is
/// read here.
#[verifier::external_type_specification]
#[verifier::external_body]
pub struct ExJsonError(serde_json::Error);

/// The JSON text of a list of strings.
pub uninterp spec fn json_list(items: Seq<Seq<char>>) -> Seq<char>;

/// `serde_json::to_string` on a list of strings. Trusted: it succeeds, and
/// the text depends on the strings alone; `json_list` names it. It is
/// documented to fail only where a value's own way of being written fails or
/// a map has keys that are not strings. A list of strings is written as a
/// sequence of strings into a buffer in memory, and has neither. Trusted too:
/// the text of the empty list is `[]`, the opening bracket and the closing
/// one, which is all that the serialiser writes for a sequence of length 0.
#[verifier::external_body]
fn serialize_list(items: &Vec<String>) -> (r: Result<String, serde_json::Error>)
    ensures
        r is Ok,
        r->Ok_0@ == json_list(texts(items@)),
        items@.len() == 0 ==> r->Ok_0@ == "[]"@,
{
    serde_json::to_string(items)
}

/// One step of the walk, as the walker reports it.
#[derive(Clone, Debug, PartialEq, Eq)]
pub enum Event {
    /// A node was visited. `stat` is what the filesystem answers when asked
    /// for the node's metadata, `None` where it fails.
    Visited { entry: Entry, stat: Option<Stat> },
    /// A node could not be read; the walk goes on behind it.
    Unreadable { message: String },
}

/// What the caller is to do after a visit.
#[derive(Clone, Debug, PartialEq, Eq)]
pub enum Action {
    /// Nothing: go on with the walk.
    Proceed,
    /// Print this line, then go on.
    Print(String),
    /// Ask the filesystem for the entry's metadata and hand it to `inspect`.
    Stat,
}

/// The structured document of a run.
#[derive(Clone, Debug, PartialEq, Eq)]
pub enum Document {
    /// Without detail: the paths of the reported entries.
    Paths(Vec<String>),
    /// With detail: their records.
    Records(Vec<ResultRecord>),
}

/// A run in progress: the configuration and what has been gathered for the
/// structured document.
#[derive(Debug)]
pub struct Search {
    pub config: SearchConfig,
    pub paths: Vec<String>,
    pub records: Vec<ResultRecord>,
}

/// All that a finished run gives: the lines printed on the way, in order, and
/// the document in structured mode.
#[derive(Clone, Debug, PartialEq, Eq)]
pub struct Report {
    pub printed: Vec<String>,
    pub document: Option<Document>,
}

impl SearchConfig {
    /// Whether an entry is reported under this configuration.
    pub open spec fn selects(&self, entry: EntryView) -> bool {
        selected(entry, self.pattern, self.hidden)
    }

    /// The path that a visit adds to the document: that of a reported entry,
    /// in structured mode without detail.
    pub open spec fn listed_at(&self, entry: EntryView) -> Seq<Seq<char>> {
        if self.selects(entry) && self.json && !self.detail {
            seq![entry.path]
        } else {
            Seq::empty()
        }
    }

    /// The lines printed for one step of the walk. Structured mode prints
    /// nothing on the way, not even the walker's failures.
    pub open spec fn printed(&self, event: Event) -> Seq<Seq<char>> {
        match event {
            Event::Visited { entry, stat } => {
                if !self.selects(entry@) || self.json {
                    Seq::empty()
                } else if self.detail {
                    detail_lines(entry@, stat)
                } else {
                    seq![entry@.path]
                }
            },
            Event::Unreadable { message } => {
                if self.json {
                    Seq::empty()
                } else {
                    seq![message@]
                }
            },
        }
    }

    /// The paths that one step of the walk adds to the document.
    pub open spec fn listed(&self, event: Event) -> Seq<Seq<char>> {
        match event {
            Event::Visited { entry, stat } => self.listed_at(entry@),
            Event::Unreadable { message } => Seq::empty(),
        }
    }

    /// The records that one step of the walk adds to the document.
    pub open spec fn recorded(&self, event: Event) -> Seq<RecordView> {
        match event {
            Event::Visited { entry, stat } => {
                if self.selects(entry@) && self.json && self.detail {
                    detail_records(entry@, stat)
                } else {
                    Seq::empty()
                }
            },
            Event::Unreadable { message } => Seq::empty(),
        }
    }
}

/// What a whole walk gathers, in order, where `each` tells what one step adds.
pub open spec fn gather<T>(each: spec_fn(Event) -> Seq<T>, events: Seq<Event>) -> Seq<T>
    decreases events.len(),
{
    if events.len() == 0 {
        Seq::empty()
    } else {
        gather(each, events.drop_last()) + each(events.last())
    }
}

/// The lines printed over a whole walk, in order.
pub open spec fn printed_all(config: SearchConfig, events: Seq<Event>) -> Seq<Seq<char>> {
    gather(|e: Event| config.printed(e), events)
}

/// The paths that a whole walk puts into the document, in order.
pub open spec fn listed_all(config: SearchConfig, events: Seq<Event>) -> Seq<Seq<char>> {
    gather(|e: Event| config.listed(e), events)
}

/// The records that a whole walk puts into the document, in order.
pub open spec fn recorded_all(config: SearchConfig, events: Seq<Event>) -> Seq<RecordView> {
    gather(|e: Event| config.recorded(e), events)
}

impl Search {
    /// Starts a run: nothing has been gathered yet.
    pub fn new(config: SearchConfig) -> (search: Search)
        ensures
            search.config == config,
            search.paths@.len() == 0,
            search.records@.len() == 0,
    {
        Search { config, paths: Vec::new(), records: Vec::new() }
    }

    /// Takes one visited entry. An entry that is not reported leaves no
    /// trace. A reported one is, without detail, handed back to be printed or
    /// added to the document; with detail its metadata is asked for.
    pub fn visit(&mut self, entry: &Entry) -> (action: Action)
        ensures
            final(self).config == old(self).config,
            final(self).records == old(self).records,
            texts(final(self).paths@) == texts(old(self).paths@) + old(self).config.listed_at(
                entry@,
            ),
            match action {
                Action::Proceed => !old(self).config.selects(entry@) || (old(self).config.json
                    && !old(self).config.detail),
                Action::Print(line) => {
                    &&& old(self).config.selects(entry@)
                    &&& !old(self).config.json
                    &&& !old(self).config.detail
                    &&& line@ == entry@.path
                },
                Action::Stat => old(self).config.selects(entry@) && old(self).config.detail,
            },
    {
        let ghost before = texts(self.paths@);
        assert(before + Seq::<Seq<char>>::empty() =~= before);
        if !crate::pattern::matches(entry, &self.config.pattern, self.config.hidden) {
            return Action::Proceed;
        }
        if self.config.detail {
            return Action::Stat;
        }
        if self.config.json {
            self.paths.push(entry.path.clone());
            assert(texts(self.paths@) =~= before + seq![entry@.path]);
            Action::Proceed
        } else {
            Action::Print(entry.path.clone())
        }
    }

    /// Takes the metadata of a reported entry, `None` where the filesystem
    /// did not answer. Structured mode adds the entry's record to the
    /// document; text mode returns the lines to print. An entry without
    /// metadata leaves no trace.
    pub fn inspect(&mut self, entry: &Entry, stat: Option<Stat>) -> (lines: Vec<String>)
        ensures
            final(self).config == old(self).config,
            final(self).paths == old(self).paths,
            record_views(final(self).records@) == record_views(old(self).records@) + (if old(
                self,
            ).config.json {
                detail_records(entry@, stat)
            } else {
                Seq::empty()
            }),
            texts(lines@) == (if old(self).config.json {
                Seq::empty()
            } else {
                detail_lines(entry@, stat)
            }),
    {
        if self.config.json {
            push_json_detailed(entry, stat, &mut self.records);
            let lines: Vec<String> = Vec::new();
            assert(texts(lines@) =~= Seq::<Seq<char>>::empty());
            lines
        } else {
            assert(record_views(self.records@) + Seq::<RecordView>::empty() =~= record_views(
                self.records@,
            ));
            print_detailed(entry, stat)
        }
    }

    /// Takes a failure of the walker: its message is printed in text mode and
    /// dropped in structured mode.
    pub fn failure(&self, message: &String) -> (line: Option<String>)
        ensures
            match line {
                Some(l) => !self.config.json && l@ == message@,
                None => self.config.json,
            },
    {
        if self.config.json {
            None
        } else {
            Some(message.clone())
        }
    }

    /// Takes one step of the walk whose metadata is already at hand, and
    /// returns the lines to print for it.
    pub fn feed(&mut self, event: &Event) -> (lines: Vec<String>)
        ensures
            final(self).config == old(self).config,
            texts(final(self).paths@) == texts(old(self).paths@) + old(self).config.listed(*event),
            record_views(final(self).records@) == record_views(old(self).records@) + old(
                self,
            ).config.recorded(*event),
            texts(lines@) == old(self).config.printed(*event),
    {
        let ghost paths_before = texts(self.paths@);
        let ghost records_before = record_views(self.records@);
        assert(paths_before + Seq::<Seq<char>>::empty() =~= paths_before);
        assert(records_before + Seq::<RecordView>::empty() =~= records_before);
        let mut lines: Vec<String> = Vec::new();
        assert(texts(lines@) =~= Seq::<Seq<char>>::empty());
        match event {
            Event::Visited { entry, stat } => {
                match self.visit(entry) {
                    Action::Proceed => lines,
                    Action::Print(line) => {
                        lines.push(line);
                        assert(texts(lines@) =~= seq![entry@.path]);
                        lines
                    },
                    Action::Stat => self.inspect(entry, *stat),
                }
            },
            Event::Unreadable { message } => {
                match self.failure(message) {
                    Some(line) => {
                        lines.push(line);
                        assert(texts(lines@) =~= seq![message@]);
                        lines
                    },
                    None => lines,
                }
            },
        }
    }

    /// Ends the run and hands over the document: none in text mode, else the
    /// paths or, with detail, the records.
    pub fn finish(self) -> (document: Option<Document>)
        ensures
            match document {
                None => !self.config.json,
                Some(Document::Paths(p)) => self.config.json && !self.config.detail && p
                    == self.paths,
                Some(Document::Records(r)) => self.config.json && self.config.detail && r
                    == self.records,
            },
    {
        if !self.config.json {
            None
        } else if self.config.detail {
            Some(Document::Records(self.records))
        } else {
            Some(Document::Paths(self.paths))
        }
    }
}

/// Writes a list of paths as one JSON document. Every list has one: the
/// result is never `None`. The document of the empty list is `[]`.
pub fn paths_json(paths: &Vec<String>) -> (text: Option<String>)
    ensures
        text is Some,
        text->Some_0@ == json_list(texts(paths@)),
        paths@.len() == 0 ==> text->Some_0@ == "[]"@,
{
    match serialize_list(paths) {
        Ok(t) => Some(t),
        Err(_) => None,
    }
}

/// Runs a search over a walk that was gathered beforehand.
pub fn run(config: SearchConfig, events: &Vec<Event>) -> (report: Report)
    ensures
        texts(report.printed@) == printed_all(config, events@),
        match report.document {
            None => !config.json,
            Some(Document::Paths(p)) => config.json && !config.detail && texts(p@) == listed_all(
                config,
                events@,
            ),
            Some(Document::Records(r)) => config.json && config.detail && record_views(r@)
                == recorded_all(config, events@),
        },
{
    let ghost fixed = config;
    let mut search = Search::new(config);
    let mut printed: Vec<String> = Vec::new();
    assert(texts(printed@) =~= Seq::<Seq<char>>::empty());
    assert(texts(search.paths@) =~= Seq::<Seq<char>>::empty());
    assert(record_views(search.records@) =~= Seq::<RecordView>::empty());
    let mut i: usize = 0;
    while i < events.len()
        invariant
            i <= events@.len(),
            search.config == fixed,
            texts(printed@) == printed_all(fixed, events@.take(i as int)),
            texts(search.paths@) == listed_all(fixed, events@.take(i as int)),
            record_views(search.records@) == recorded_all(fixed, events@.take(i as int)),
        decreases events@.len() - i,
    {
        let ghost before = texts(printed@);
        let mut lines = search.feed(&events[i]);
        let ghost added = texts(lines@);
        printed.append(&mut lines);
        proof {
            assert(texts(printed@) =~= before + added);
            let next = events@.take(i + 1);
            assert(next.drop_last() =~= events@.take(i as int));
            assert(next.last() == events@[i as int]);
        }
        i += 1;
    }
    assert(events@.take(i as int) =~= events@);
    Report { printed, document: search.finish() }
}

} // verus!
