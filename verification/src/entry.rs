//! What the walker hands over for one visited node, and the hidden-name rule.

use vstd::prelude::*;
use vstd::string::StrSliceExecFns;

verus! {

/// The two kinds of node that a report tells apart.
#[derive(Clone, Copy, Debug, PartialEq, Eq, Structural)]
pub enum NodeKind {
    File,
    Directory,
}

/// One visited node. `name` is `None` where the base name is not valid text.
/// What kind of node it is comes with its metadata, in [`Stat`].
#[derive(Clone, Debug, PartialEq, Eq)]
pub struct Entry {
    pub path: String,
    pub name: Option<String>,
}

/// The mathematical value of an [`Entry`].
pub struct EntryView {
    pub path: Seq<char>,
    pub name: Option<Seq<char>>,
}

impl View for Entry {
    type V = EntryView;

    open spec fn view(&self) -> EntryView {
        EntryView {
            path: self.path@,
            name: match self.name {
                Some(n) => Some(n@),
                None => None,
            },
        }
    }
}

/// What the filesystem tells of a node when asked for its metadata: the
/// kind and the size of the node that the path resolves to, and three times
/// in whole seconds relative to the Unix epoch. A time is `None` where the
/// platform does not tell it.
#[derive(Clone, Copy, Debug, PartialEq, Eq)]
pub struct Stat {
    pub kind: NodeKind,
    pub size: u64,
    pub modified: Option<i64>,
    pub accessed: Option<i64>,
    pub created: Option<i64>,
}

/// A moment as the system clock tells it: `secs` seconds and `nanos`
/// nanoseconds from the Unix epoch, before it where `before` holds.
#[derive(Clone, Copy, Debug, PartialEq, Eq)]
pub struct Moment {
    pub before: bool,
    pub secs: u64,
    pub nanos: u32,
}

/// Whole seconds from the Unix epoch to a moment, rounded towards the past.
/// The moment lies `secs` seconds and `nanos` nanoseconds from the epoch:
/// before it where `before` holds, after it otherwise.
pub open spec fn floor_seconds(before: bool, secs: u64, nanos: u32) -> int {
    if !before {
        secs as int
    } else if nanos > 0 {
        -(secs as int) - 1
    } else {
        -(secs as int)
    }
}

/// Computes `floor_seconds`, where a [`Stat`] can hold it.
pub fn epoch_seconds(before: bool, secs: u64, nanos: u32) -> (r: Option<i64>)
    ensures
        r is Some <==> i64::MIN <= floor_seconds(before, secs, nanos) <= i64::MAX,
        r is Some ==> r->Some_0 == floor_seconds(before, secs, nanos),
{
    if !before {
        if secs <= 9_223_372_036_854_775_807 {
            Some(secs as i64)
        } else {
            None
        }
    } else {
        let extra: u64 = if nanos > 0 {
            1
        } else {
            0
        };
        if secs > 9_223_372_036_854_775_808 - extra {
            None
        } else if secs + extra == 9_223_372_036_854_775_808 {
            Some(i64::MIN)
        } else {
            Some(-((secs + extra) as i64))
        }
    }
}

impl Moment {
    /// The moment in whole seconds, rounded towards the past.
    pub open spec fn seconds(self) -> int {
        floor_seconds(self.before, self.secs, self.nanos)
    }

    /// Whether the whole seconds fit into a [`Stat`].
    pub open spec fn fits(self) -> bool {
        i64::MIN <= self.seconds() <= i64::MAX
    }
}

/// Whether a time that the platform may not tell can stand in a [`Stat`]: an
/// absent one can, a present one where its seconds fit.
pub open spec fn moment_fits(moment: Option<Moment>) -> bool {
    match moment {
        Some(m) => m.fits(),
        None => true,
    }
}

/// The time as it stands in a [`Stat`]: absent where the platform did not
/// tell it, else its whole seconds.
pub open spec fn stat_time(moment: Option<Moment>) -> Option<i64>
    recommends
        moment_fits(moment),
{
    match moment {
        Some(m) => Some(m.seconds() as i64),
        None => None,
    }
}

fn time_of(moment: Option<Moment>) -> (r: Option<Option<i64>>)
    ensures
        r is Some <==> moment_fits(moment),
        r is Some ==> r->Some_0 == stat_time(moment),
{
    match moment {
        None => Some(None),
        Some(m) => match epoch_seconds(m.before, m.secs, m.nanos) {
            Some(s) => Some(Some(s)),
            None => None,
        },
    }
}

impl Stat {
    /// Puts together the metadata of a node from what the filesystem told. A
    /// time that the platform does not tell stays absent. A time that is told
    /// but does not fit leaves no metadata at all: the node is then treated
    /// as one whose metadata could not be had.
    pub fn assemble(
        kind: NodeKind,
        size: u64,
        modified: Option<Moment>,
        accessed: Option<Moment>,
        created: Option<Moment>,
    ) -> (stat: Option<Stat>)
        ensures
            stat is Some <==> moment_fits(modified) && moment_fits(accessed) && moment_fits(
                created,
            ),
            stat is Some ==> stat->Some_0 == (Stat {
                kind,
                size,
                modified: stat_time(modified),
                accessed: stat_time(accessed),
                created: stat_time(created),
            }),
    {
        let m = match time_of(modified) {
            Some(t) => t,
            None => { return None; },
        };
        let a = match time_of(accessed) {
            Some(t) => t,
            None => { return None; },
        };
        let c = match time_of(created) {
            Some(t) => t,
            None => { return None; },
        };
        Some(Stat { kind, size, modified: m, accessed: a, created: c })
    }
}

/// A name is hidden when it begins with a dot.
pub open spec fn hidden_name(name: Seq<char>) -> bool {
    name.len() > 0 && name[0] == '.'
}

impl EntryView {
    /// An entry is hidden when its name is text and that text is a hidden name.
    pub open spec fn is_hidden(self) -> bool {
        match self.name {
            Some(n) => hidden_name(n),
            None => false,
        }
    }

    /// The walker yields an entry, and descends into it, unless it is hidden
    /// and hidden entries were not asked for.
    pub open spec fn admitted(self, include_hidden: bool) -> bool {
        include_hidden || !self.is_hidden()
    }
}

/// Tells whether `name` begins with a dot.
pub fn is_hidden_name(name: &str) -> (hidden: bool)
    ensures
        hidden == hidden_name(name@),
{
    !name.is_empty() && name.get_char(0) == '.'
}

/// Tells whether the entry is hidden. An entry whose name is not text is not.
pub fn is_hidden(entry: &Entry) -> (hidden: bool)
    ensures
        hidden == entry@.is_hidden(),
{
    match &entry.name {
        Some(n) => is_hidden_name(n.as_str()),
        None => false,
    }
}

/// The predicate that the walker applies to every node before it yields it or
/// descends into it.
pub fn admits(entry: &Entry, include_hidden: bool) -> (keep: bool)
    ensures
        keep == entry@.admitted(include_hidden),
{
    include_hidden || !is_hidden(entry)
}

} // verus!
