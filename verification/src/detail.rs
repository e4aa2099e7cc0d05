//! What is told of a reported entry beyond its path: the block of lines for
//! text output and the record for the structured document.

use vstd::prelude::*;
use vstd::string::StringExecFns;
use crate::entry::{Entry, EntryView, NodeKind, Stat};

verus! {

/// The size in words, in decimal units, as `humansize` writes it.
pub uninterp spec fn human_size(bytes: u64) -> Seq<char>;

/// The RFC 2822 text, in UTC, of the moment `secs` seconds from the Unix epoch.
pub uninterp spec fn rfc2822_text(secs: i64) -> Seq<char>;

/// The text in the form that `{:?}` gives a string: quoted and escaped.
pub uninterp spec fn debug_text(text: Seq<char>) -> Seq<char>;

/// The moments that RFC 2822 can express: the years 0 to 9999, from
/// 0000-01-01 00:00:00 UTC to 9999-12-31 23:59:59 UTC.
pub open spec fn representable(secs: i64) -> bool {
    -62_167_219_200 <= secs <= 253_402_300_799
}

/// `humansize::format_size` with `humansize::DECIMAL`. Trusted: the text
/// depends on the number alone, and `human_size` names it.
#[verifier::external_body]
fn size_in_words(bytes: u64) -> (text: String)
    ensures
        text@ == human_size(bytes),
{
    humansize::format_size(bytes, humansize::DECIMAL)
}

/// `chrono::DateTime::<Utc>::from_timestamp` followed by
/// `chrono::DateTime::to_rfc2822`. Trusted: within the years 0 to 9999 the
/// first returns a value and the second does not panic, and the text depends
/// on the number of seconds alone; `rfc2822_text` names it.
#[verifier::external_body]
fn rfc2822_of(secs: i64) -> (text: String)
    requires
        representable(secs),
    ensures
        text@ == rfc2822_text(secs),
{
    chrono::DateTime::<chrono::Utc>::from_timestamp(secs, 0).unwrap().to_rfc2822()
}

/// `format!("{:?}", text)`: the `Debug` form of a string. Trusted: it depends
/// on the text alone, and `debug_text` names it.
#[verifier::external_body]
fn quoted(text: &str) -> (q: String)
    ensures
        q@ == debug_text(text@),
{
    format!("{:?}", text)
}

/// The texts that a vector of strings holds.
pub open spec fn texts(lines: Seq<String>) -> Seq<Seq<char>> {
    lines.map_values(|s: String| s@)
}

/// The word for a kind in text output.
pub open spec fn kind_word(kind: NodeKind) -> Seq<char> {
    match kind {
        NodeKind::File => "file"@,
        NodeKind::Directory => "directory"@,
    }
}

/// A time as it stands in the detail block.
pub open spec fn time_field(secs: i64) -> Seq<char> {
    debug_text(rfc2822_text(secs))
}

/// Whether a time can stand in the detail block: an absent one can, by being
/// left out; a present one where RFC 2822 can express it.
pub open spec fn shown(time: Option<i64>) -> bool {
    match time {
        Some(secs) => representable(secs),
        None => true,
    }
}

/// The line of the detail block for one time: none where the time is absent.
pub open spec fn time_lines(label: Seq<char>, time: Option<i64>) -> Seq<Seq<char>> {
    match time {
        Some(secs) => seq![label + time_field(secs)],
        None => Seq::empty(),
    }
}

/// The block of lines that text output gives for a reported entry: the path,
/// the kind, the name, the size, and a line for each time that the platform
/// told. It is `None` where the entry has no name in text or one of its times
/// lies outside what RFC 2822 can express.
pub open spec fn detail_block(entry: EntryView, stat: Stat) -> Option<Seq<Seq<char>>> {
    if entry.name is Some && shown(stat.modified) && shown(stat.accessed) && shown(stat.created) {
        Some(
            seq![
                "\n"@ + entry.path,
                "\tFiletype: "@ + kind_word(stat.kind),
                "\tName: "@ + entry.name->Some_0,
                "\tSize: "@ + human_size(stat.size),
            ] + time_lines("\tModified: "@, stat.modified) + time_lines(
                "\tAccessed: "@,
                stat.accessed,
            ) + time_lines("\tCreated: "@, stat.created),
        )
    } else {
        None
    }
}

/// The lines printed for a reported entry in detailed text output: its block,
/// or nothing where the metadata could not be had or the block does not exist.
pub open spec fn detail_lines(entry: EntryView, stat: Option<Stat>) -> Seq<Seq<char>> {
    match stat {
        Some(s) => match detail_block(entry, s) {
            Some(block) => block,
            None => Seq::empty(),
        },
        None => Seq::empty(),
    }
}

/// Renders a time as RFC 2822 text, where RFC 2822 can express it.
pub fn format_system_time(secs: i64) -> (text: Option<String>)
    ensures
        text is Some <==> representable(secs),
        text is Some ==> text->Some_0@ == rfc2822_text(secs),
{
    if -62_167_219_200 <= secs && secs <= 253_402_300_799 {
        Some(rfc2822_of(secs))
    } else {
        None
    }
}

fn labelled(label: &str, value: &str) -> (line: String)
    ensures
        line@ == label@ + value@,
{
    String::from_str(label).concat(value)
}

fn word_of(kind: NodeKind) -> (word: &'static str)
    ensures
        word@ == kind_word(kind),
{
    match kind {
        NodeKind::File => "file",
        NodeKind::Directory => "directory",
    }
}

/// Renders a time for the block. The outer `None` says that the time cannot
/// be shown, the inner one that there is no time to show.
fn rendered(time: Option<i64>) -> (r: Option<Option<String>>)
    ensures
        r is Some <==> shown(time),
        r is Some ==> (r->Some_0 is Some <==> time is Some),
        r is Some && time is Some ==> r->Some_0->Some_0@ == rfc2822_text(time->Some_0),
{
    match time {
        None => Some(None),
        Some(secs) => match format_system_time(secs) {
            Some(text) => Some(Some(text)),
            None => None,
        },
    }
}

fn push_time(
    lines: &mut Vec<String>,
    label: &str,
    text: &Option<String>,
    Ghost(time): Ghost<Option<i64>>,
)
    requires
        text is Some <==> time is Some,
        text is Some ==> text->Some_0@ == rfc2822_text(time->Some_0),
    ensures
        texts(final(lines)@) == texts(old(lines)@) + time_lines(label@, time),
{
    let ghost before = texts(lines@);
    match text {
        Some(t) => {
            let q = quoted(t.as_str());
            lines.push(labelled(label, q.as_str()));
            assert(texts(lines@) =~= before + time_lines(label@, time));
        },
        None => {
            assert(texts(lines@) =~= before + time_lines(label@, time));
        },
    }
}

/// The lines to print for a reported entry in detailed text output. `stat` is
/// what the filesystem answered, `None` where it did not.
pub fn print_detailed(entry: &Entry, stat: Option<Stat>) -> (lines: Vec<String>)
    ensures
        texts(lines@) == detail_lines(entry@, stat),
{
    let mut lines: Vec<String> = Vec::new();
    assert(texts(lines@) =~= Seq::<Seq<char>>::empty());
    let stat = match stat {
        Some(s) => s,
        None => { return lines; },
    };
    let name = match &entry.name {
        Some(n) => n,
        None => { return lines; },
    };
    let modified = match rendered(stat.modified) {
        Some(t) => t,
        None => { return lines; },
    };
    let accessed = match rendered(stat.accessed) {
        Some(t) => t,
        None => { return lines; },
    };
    let created = match rendered(stat.created) {
        Some(t) => t,
        None => { return lines; },
    };
    let size = size_in_words(stat.size);
    lines.push(labelled("\n", entry.path.as_str()));
    lines.push(labelled("\tFiletype: ", word_of(stat.kind)));
    lines.push(labelled("\tName: ", name.as_str()));
    lines.push(labelled("\tSize: ", size.as_str()));
    assert(texts(lines@) =~= seq![
        "\n"@ + entry@.path,
        "\tFiletype: "@ + kind_word(stat.kind),
        "\tName: "@ + entry@.name->Some_0,
        "\tSize: "@ + human_size(stat.size),
    ]);
    push_time(&mut lines, "\tModified: ", &modified, Ghost(stat.modified));
    push_time(&mut lines, "\tAccessed: ", &accessed, Ghost(stat.accessed));
    push_time(&mut lines, "\tCreated: ", &created, Ghost(stat.created));
    lines
}

/// The projection of a reported entry into the structured document.
#[derive(Clone, Debug, PartialEq, Eq)]
pub struct ResultRecord {
    pub filetype: String,
    pub name: String,
    pub path: String,
    pub size: u64,
    pub modified: Option<u64>,
    pub accessed: Option<u64>,
    pub created: Option<u64>,
}

/// The mathematical value of a [`ResultRecord`].
pub struct RecordView {
    pub filetype: Seq<char>,
    pub name: Seq<char>,
    pub path: Seq<char>,
    pub size: u64,
    pub modified: Option<u64>,
    pub accessed: Option<u64>,
    pub created: Option<u64>,
}

impl View for ResultRecord {
    type V = RecordView;

    open spec fn view(&self) -> RecordView {
        RecordView {
            filetype: self.filetype@,
            name: self.name@,
            path: self.path@,
            size: self.size,
            modified: self.modified,
            accessed: self.accessed,
            created: self.created,
        }
    }
}

/// The values of the records that a vector holds.
pub open spec fn record_views(records: Seq<ResultRecord>) -> Seq<RecordView> {
    records.map_values(|r: ResultRecord| r@)
}

/// Whether a time can stand in a record: an absent one can, by being absent
/// there too; a present one where it does not lie before the epoch.
pub open spec fn recordable(time: Option<i64>) -> bool {
    match time {
        Some(secs) => secs >= 0,
        None => true,
    }
}

/// A time as it stands in a record.
pub open spec fn record_time(time: Option<i64>) -> Option<u64>
    recommends
        recordable(time),
{
    match time {
        Some(secs) => Some(secs as u64),
        None => None,
    }
}

/// The record of a reported entry: its kind in words and its size as the
/// metadata give them, its name and path, and each time that the platform
/// told. It is `None` where the entry has no name in text or one of its times
/// lies before the epoch: a record's times are never negative.
pub open spec fn record_of(entry: EntryView, stat: Stat) -> Option<RecordView> {
    if entry.name is Some && recordable(stat.modified) && recordable(stat.accessed) && recordable(
        stat.created,
    ) {
        Some(
            RecordView {
                filetype: kind_word(stat.kind),
                name: entry.name->Some_0,
                path: entry.path,
                size: stat.size,
                modified: record_time(stat.modified),
                accessed: record_time(stat.accessed),
                created: record_time(stat.created),
            },
        )
    } else {
        None
    }
}

/// The records that a reported entry adds to the document: its record, or
/// nothing where the metadata could not be had or the record does not exist.
pub open spec fn detail_records(entry: EntryView, stat: Option<Stat>) -> Seq<RecordView> {
    match stat {
        Some(s) => match record_of(entry, s) {
            Some(r) => seq![r],
            None => Seq::empty(),
        },
        None => Seq::empty(),
    }
}

fn recorded_time(time: Option<i64>) -> (r: Option<Option<u64>>)
    ensures
        r is Some <==> recordable(time),
        r is Some ==> r->Some_0 == record_time(time),
{
    match time {
        None => Some(None),
        Some(secs) => if secs >= 0 {
            Some(Some(secs as u64))
        } else {
            None
        },
    }
}

impl ResultRecord {
    /// Builds the record of an entry from its metadata.
    pub fn project(entry: &Entry, stat: &Stat) -> (record: Option<ResultRecord>)
        ensures
            match record {
                Some(r) => record_of(entry@, *stat) == Some(r@),
                None => record_of(entry@, *stat) is None,
            },
    {
        let name = match &entry.name {
            Some(n) => n,
            None => { return None; },
        };
        let modified = match recorded_time(stat.modified) {
            Some(t) => t,
            None => { return None; },
        };
        let accessed = match recorded_time(stat.accessed) {
            Some(t) => t,
            None => { return None; },
        };
        let created = match recorded_time(stat.created) {
            Some(t) => t,
            None => { return None; },
        };
        Some(
            ResultRecord {
                filetype: String::from_str(word_of(stat.kind)),
                name: name.clone(),
                path: entry.path.clone(),
                size: stat.size,
                modified,
                accessed,
                created,
            },
        )
    }
}

/// The block and the record of an entry show the same kind: the word in the
/// record is the one on the block's second line.
pub proof fn lemma_block_and_record_show_one_kind(entry: EntryView, stat: Stat)
    requires
        detail_block(entry, stat) is Some,
        record_of(entry, stat) is Some,
    ensures
        detail_block(entry, stat)->Some_0[1] == "\tFiletype: "@ + record_of(
            entry,
            stat,
        )->Some_0.filetype,
        record_of(entry, stat)->Some_0.filetype == kind_word(stat.kind),
{
}

/// A time that the platform does not tell is no failure: the block and the
/// record exist as they would without it. The block has no line for it, and
/// in the record it is absent.
pub proof fn lemma_absent_creation_time_is_left_out(entry: EntryView, stat: Stat)
    requires
        stat.created is None,
        entry.name is Some,
    ensures
        detail_block(entry, stat) is Some <==> shown(stat.modified) && shown(stat.accessed),
        detail_block(entry, stat) is Some ==> detail_block(entry, stat)->Some_0 == seq![
            "\n"@ + entry.path,
            "\tFiletype: "@ + kind_word(stat.kind),
            "\tName: "@ + entry.name->Some_0,
            "\tSize: "@ + human_size(stat.size),
        ] + time_lines("\tModified: "@, stat.modified) + time_lines(
            "\tAccessed: "@,
            stat.accessed,
        ),
        record_of(entry, stat) is Some <==> recordable(stat.modified) && recordable(
            stat.accessed,
        ),
        record_of(entry, stat) is Some ==> record_of(entry, stat)->Some_0.created is None,
{
    if detail_block(entry, stat) is Some {
        assert(detail_block(entry, stat)->Some_0 =~= seq![
            "\n"@ + entry.path,
            "\tFiletype: "@ + kind_word(stat.kind),
            "\tName: "@ + entry.name->Some_0,
            "\tSize: "@ + human_size(stat.size),
        ] + time_lines("\tModified: "@, stat.modified) + time_lines(
            "\tAccessed: "@,
            stat.accessed,
        ));
    }
}

/// Appends the record of a reported entry to the accumulated document. `stat`
/// is what the filesystem answered, `None` where it did not; the entry is then
/// left out, as it is where no record exists for it.
pub fn push_json_detailed(
    entry: &Entry,
    stat: Option<Stat>,
    json_paths_detailed: &mut Vec<ResultRecord>,
)
    ensures
        record_views(final(json_paths_detailed)@) == record_views(old(json_paths_detailed)@)
            + detail_records(entry@, stat),
{
    let ghost before = record_views(json_paths_detailed@);
    if let Some(s) = stat {
        if let Some(record) = ResultRecord::project(entry, &s) {
            json_paths_detailed.push(record);
            assert(record_views(json_paths_detailed@) =~= before + seq![record@]);
            return;
        }
    }
    assert(record_views(json_paths_detailed@) =~= before + Seq::<RecordView>::empty());
}

} // verus!
