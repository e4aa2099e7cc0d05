//! What holds of whole walks, whatever the tree and the pattern.

use vstd::prelude::*;
use vstd::seq_lib::{
    lemma_multiset_commutative, to_multiset_contains, to_multiset_len, to_multiset_remove,
};
use crate::config::SearchConfig;
use crate::detail::RecordView;
use crate::search::{gather, listed_all, printed_all, recorded_all, Event};

verus! {

/// Whether the walk's step `j` is a visit of an entry that the configuration
/// selects and whose path is `path`.
pub open spec fn reports_at(
    config: SearchConfig,
    events: Seq<Event>,
    j: int,
    path: Seq<char>,
) -> bool {
    &&& 0 <= j < events.len()
    &&& match events[j] {
        Event::Visited { entry, stat } => config.selects(entry@) && entry@.path == path,
        Event::Unreadable { message } => false,
    }
}

/// Whether the walk's step `j` is a visit of an entry that the configuration
/// selects.
pub open spec fn selected_at(config: SearchConfig, events: Seq<Event>, j: int) -> bool {
    match events[j] {
        Event::Visited { entry, stat } => config.selects(entry@),
        Event::Unreadable { message } => false,
    }
}

/// Whether the walk's step `j` is a visit of an entry that the configuration
/// does not select.
pub open spec fn silent_at(config: SearchConfig, events: Seq<Event>, j: int) -> bool {
    match events[j] {
        Event::Visited { entry, stat } => !config.selects(entry@),
        Event::Unreadable { message } => false,
    }
}

/// Every path in the document of a structured run without detail is the path
/// of an entry that the walk visited and that the configuration selects.
pub proof fn lemma_listed_paths_were_visited(config: SearchConfig, events: Seq<Event>, i: int)
    requires
        0 <= i < listed_all(config, events).len(),
    ensures
        exists|j: int| reports_at(config, events, j, listed_all(config, events)[i]),
    decreases events.len(),
{
    let path = listed_all(config, events)[i];
    let rest = events.drop_last();
    if i < listed_all(config, rest).len() {
        lemma_listed_paths_were_visited(config, rest, i);
        let j = choose|j: int| reports_at(config, rest, j, listed_all(config, rest)[i]);
        assert(reports_at(config, events, j, path));
    } else {
        assert(reports_at(config, events, events.len() - 1, path));
    }
}

/// In a structured run without detail, the path of every visited entry that
/// the configuration selects is in the document.
pub proof fn lemma_selected_entries_are_listed(
    config: SearchConfig,
    events: Seq<Event>,
    j: int,
    path: Seq<char>,
)
    requires
        config.json,
        !config.detail,
        reports_at(config, events, j, path),
    ensures
        listed_all(config, events).contains(path),
    decreases events.len(),
{
    let rest = events.drop_last();
    let all = listed_all(config, events);
    if j == events.len() - 1 {
        assert(all[all.len() - 1] == path);
    } else {
        assert(reports_at(config, rest, j, path));
        lemma_selected_entries_are_listed(config, rest, j, path);
        let listed = listed_all(config, rest);
        let i = choose|i: int| 0 <= i < listed.len() && listed[i] == path;
        assert(all[i] == path);
    }
}

/// A walk on which no visited entry is selected, the walk of nothing among
/// them, leaves the document empty.
pub proof fn lemma_nothing_selected_nothing_listed(config: SearchConfig, events: Seq<Event>)
    requires
        forall|j: int| 0 <= j < events.len() ==> !selected_at(config, events, j),
    ensures
        listed_all(config, events) == Seq::<Seq<char>>::empty(),
        recorded_all(config, events) == Seq::<RecordView>::empty(),
    decreases events.len(),
{
    if events.len() > 0 {
        let rest = events.drop_last();
        assert forall|j: int| 0 <= j < rest.len() implies !selected_at(config, rest, j) by {
            assert(!selected_at(config, events, j));
        }
        lemma_nothing_selected_nothing_listed(config, rest);
        assert(!selected_at(config, events, events.len() - 1));
        assert(listed_all(config, events) =~= Seq::<Seq<char>>::empty());
        assert(recorded_all(config, events) =~= Seq::<RecordView>::empty());
    }
}

/// A walk on which no visited entry is selected and nothing is unreadable
/// prints nothing.
pub proof fn lemma_nothing_selected_nothing_printed(config: SearchConfig, events: Seq<Event>)
    requires
        forall|j: int| 0 <= j < events.len() ==> silent_at(config, events, j),
    ensures
        printed_all(config, events) == Seq::<Seq<char>>::empty(),
    decreases events.len(),
{
    if events.len() > 0 {
        let rest = events.drop_last();
        assert forall|j: int| 0 <= j < rest.len() implies silent_at(config, rest, j) by {
            assert(silent_at(config, events, j));
        }
        lemma_nothing_selected_nothing_printed(config, rest);
        assert(silent_at(config, events, events.len() - 1));
        assert(printed_all(config, events) =~= Seq::<Seq<char>>::empty());
    }
}

/// Structured mode prints nothing while the walk goes on, whatever is visited
/// and whatever fails: all it gives is the document at the end.
pub proof fn lemma_structured_mode_prints_nothing(config: SearchConfig, events: Seq<Event>)
    requires
        config.json,
    ensures
        printed_all(config, events) == Seq::<Seq<char>>::empty(),
    decreases events.len(),
{
    if events.len() > 0 {
        lemma_structured_mode_prints_nothing(config, events.drop_last());
        assert(printed_all(config, events) =~= Seq::<Seq<char>>::empty());
    }
}

/// Text mode puts nothing into a document.
pub proof fn lemma_text_mode_gathers_nothing(config: SearchConfig, events: Seq<Event>)
    requires
        !config.json,
    ensures
        listed_all(config, events) == Seq::<Seq<char>>::empty(),
        recorded_all(config, events) == Seq::<RecordView>::empty(),
    decreases events.len(),
{
    if events.len() > 0 {
        lemma_text_mode_gathers_nothing(config, events.drop_last());
        assert(listed_all(config, events) =~= Seq::<Seq<char>>::empty());
        assert(recorded_all(config, events) =~= Seq::<RecordView>::empty());
    }
}

/// The visit of a hidden entry leaves no trace while hidden entries are not
/// asked for: nothing is printed for it and nothing enters the document.
pub proof fn lemma_hidden_entry_leaves_no_trace(config: SearchConfig, event: Event)
    requires
        !config.hidden,
        event matches Event::Visited { entry, stat } && entry@.is_hidden(),
    ensures
        config.printed(event) == Seq::<Seq<char>>::empty(),
        config.listed(event) == Seq::<Seq<char>>::empty(),
        config.recorded(event) == Seq::<RecordView>::empty(),
{
}

/// With no pattern given, structured output without detail lists the path of
/// every visited entry that the hidden-entry policy admits and whose name is
/// text.
pub proof fn lemma_no_pattern_lists_every_admitted_entry(config: SearchConfig, event: Event)
    requires
        config.pattern.source() is None,
        config.json,
        !config.detail,
        event matches Event::Visited { entry, stat } && entry@.admitted(config.hidden)
            && entry@.name is Some,
    ensures
        config.listed(event) == seq![event->entry@.path],
{
}

/// Whether two configurations differ at most in patterns that accept the
/// same names.
pub open spec fn alike(first: SearchConfig, second: SearchConfig) -> bool {
    &&& first.detail == second.detail
    &&& first.json == second.json
    &&& first.hidden == second.hidden
    &&& forall|name: Seq<char>| first.pattern.accepts(name) == second.pattern.accepts(name)
}

/// Two runs over the same walk whose patterns accept the same names give the
/// same output. A run with no pattern given therefore gives what a run gives
/// whose pattern accepts every name, as the pattern `.*` does.
pub proof fn lemma_like_patterns_report_alike(
    first: SearchConfig,
    second: SearchConfig,
    events: Seq<Event>,
)
    requires
        alike(first, second),
    ensures
        printed_all(first, events) == printed_all(second, events),
        listed_all(first, events) == listed_all(second, events),
        recorded_all(first, events) == recorded_all(second, events),
    decreases events.len(),
{
    if events.len() > 0 {
        lemma_like_patterns_report_alike(first, second, events.drop_last());
        let last = events.last();
        match last {
            Event::Visited { entry, stat } => {
                assert(first.pattern.accepts(entry@.name->Some_0) == second.pattern.accepts(
                    entry@.name->Some_0,
                ));
                assert(first.selects(entry@) == second.selects(entry@));
            },
            Event::Unreadable { message } => {},
        }
        assert(first.printed(last) == second.printed(last));
        assert(first.listed(last) == second.listed(last));
        assert(first.recorded(last) == second.recorded(last));
    }
}

/// Taking one step out of a walk takes out of what is gathered just what that
/// step adds.
proof fn lemma_gather_remove<T>(each: spec_fn(Event) -> Seq<T>, events: Seq<Event>, k: int)
    requires
        0 <= k < events.len(),
    ensures
        gather(each, events).to_multiset() == gather(each, events.remove(k)).to_multiset().add(
            each(events[k]).to_multiset(),
        ),
    decreases events.len(),
{
    let rest = events.drop_last();
    lemma_multiset_commutative(gather(each, rest), each(events.last()));
    if k == events.len() - 1 {
        assert(events.remove(k) =~= rest);
    } else {
        let cut = events.remove(k);
        assert(cut.drop_last() =~= rest.remove(k));
        assert(cut.last() == events.last());
        lemma_gather_remove(each, rest, k);
        lemma_multiset_commutative(gather(each, rest.remove(k)), each(events.last()));
        assert(gather(each, events).to_multiset() =~= gather(each, cut).to_multiset().add(
            each(events[k]).to_multiset(),
        ));
    }
}

/// What is gathered over two walks with the same steps is the same, up to
/// order.
proof fn lemma_gather_any_order<T>(
    each: spec_fn(Event) -> Seq<T>,
    first: Seq<Event>,
    second: Seq<Event>,
)
    requires
        first.to_multiset() == second.to_multiset(),
    ensures
        gather(each, first).to_multiset() == gather(each, second).to_multiset(),
    decreases first.len(),
{
    to_multiset_len(first);
    to_multiset_len(second);
    if first.len() > 0 {
        let x = first.last();
        assert(first.contains(x));
        to_multiset_contains(first, x);
        to_multiset_contains(second, x);
        let k = choose|k: int| 0 <= k < second.len() && second[k] == x;
        let rest = first.drop_last();
        assert(rest =~= first.remove(first.len() - 1));
        to_multiset_remove(first, first.len() - 1);
        to_multiset_remove(second, k);
        lemma_gather_any_order(each, rest, second.remove(k));
        lemma_gather_remove(each, second, k);
        lemma_multiset_commutative(gather(each, rest), each(x));
    }
}

/// Two walks that take the same steps report the same, up to order: walking
/// an unchanged tree again changes neither what is printed nor what the
/// document holds.
pub proof fn lemma_same_steps_same_results(
    config: SearchConfig,
    first: Seq<Event>,
    second: Seq<Event>,
)
    requires
        first.to_multiset() == second.to_multiset(),
    ensures
        printed_all(config, first).to_multiset() == printed_all(config, second).to_multiset(),
        listed_all(config, first).to_multiset() == listed_all(config, second).to_multiset(),
        recorded_all(config, first).to_multiset() == recorded_all(config, second).to_multiset(),
{
    lemma_gather_any_order(|e: Event| config.printed(e), first, second);
    lemma_gather_any_order(|e: Event| config.listed(e), first, second);
    lemma_gather_any_order(|e: Event| config.recorded(e), first, second);
}

} // verus!
