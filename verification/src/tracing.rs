//! Reading a trace of events: which calls were traced, and how long each of
//! them took.
//!
//! A traced call leaves two events in the trace. The details of the first
//! hold the word `Enter`, the number of the call as their second word and
//! the name of the call as their fifth; the details of the second hold the
//! word `Exit` and the same number as their second word.

use std::collections::HashSet;
use vstd::prelude::*;
use crate::text::concat2;
use crate::text::chars_of;
use crate::text::contains;
use crate::text::find;
use crate::text::occurs_at;
use crate::text::spec_contains;
use crate::text::spec_split_whitespace;
use crate::text::split_whitespace;
use crate::text::str_eq;
use crate::text::text_of;
use crate::text::views;

verus! {

/// One event of a trace.
#[derive(Debug)]
pub struct EventInformation {
    pub pid: i32,
    pub cpu: i32,
    pub name: String,
    pub time_stamp: u64,
    pub details: String,
}

/// A trace: its events in the order in which they happened, and the names
/// of the calls that were found in it, each name once.
#[derive(Debug)]
pub struct EventData {
    pub event_names: Vec<String>,
    pub stats: Vec<EventInformation>,
}

/// How long one call took.
#[derive(Debug, PartialEq)]
pub struct LatencyInformation {
    pub event_name: String,
    pub enter_index: usize,
    pub exit_index: usize,
    pub latency: u64,
}

/// How long the calls of a trace took: call by call, and name by name.
#[derive(Debug)]
pub struct LatencyData {
    /// One entry for each call that was entered and left, in the order in
    /// which the calls were entered.
    pub stats: Vec<LatencyInformation>,
    /// For each name of a call the times that calls of that name took, in
    /// the same order. Each name stands once.
    pub histogram: Vec<(String, Vec<u64>)>,
}

/// A [`LatencyInformation`] with its name as a sequence.
pub struct LatencyView {
    pub event_name: Seq<char>,
    pub enter_index: int,
    pub exit_index: int,
    pub latency: int,
}

impl View for LatencyInformation {
    type V = LatencyView;

    open spec fn view(&self) -> LatencyView {
        LatencyView {
            event_name: self.event_name@,
            enter_index: self.enter_index as int,
            exit_index: self.exit_index as int,
            latency: self.latency as int,
        }
    }
}

/// Whether the details of an event say that a call was entered.
pub open spec fn is_enter(details: Seq<char>) -> bool {
    spec_contains(details, "Enter"@)
}

/// Whether the details of an event say that a call was left.
pub open spec fn is_exit(details: Seq<char>) -> bool {
    spec_contains(details, "Exit"@)
}

/// The word of `details` at place `k`, counted from 0.
pub open spec fn word(details: Seq<char>, k: int) -> Seq<char> {
    spec_split_whitespace(details)[k]
}

/// Whether every event of the trace that enters a call names the call, and
/// every event that enters or leaves one holds its number.
pub open spec fn well_formed_trace(stats: Seq<EventInformation>) -> bool {
    forall|i: int|
        0 <= i < stats.len() ==> {
            &&& is_enter(#[trigger] stats[i].details@) ==> spec_split_whitespace(
                stats[i].details@,
            ).len() >= 5
            &&& is_exit(stats[i].details@) ==> spec_split_whitespace(stats[i].details@).len() >= 2
        }
}

/// Whether the time of the trace never runs backwards.
pub open spec fn in_order_of_time(stats: Seq<EventInformation>) -> bool {
    forall|i: int, j: int|
        0 <= i <= j < stats.len() ==> stats[i].time_stamp <= stats[j].time_stamp
}

/// Whether `name` is the name of a call that one of the first `upto`
/// events enters.
pub open spec fn names_call(stats: Seq<EventInformation>, upto: int, name: Seq<char>) -> bool {
    exists|i: int|
        0 <= i < upto && i < stats.len() && is_enter(#[trigger] stats[i].details@) && word(
            stats[i].details@,
            4,
        ) == name
}

/// Whether `names` holds the names of the calls that the first `upto`
/// events enter, each of them once.
pub open spec fn holds_names(names: Seq<String>, stats: Seq<EventInformation>, upto: int) -> bool {
    &&& forall|k: int| 0 <= k < names.len() ==> names_call(stats, upto, #[trigger] names[k]@)
    &&& forall|name: Seq<char>| #[trigger]
        names_call(stats, upto, name) ==> exists|k: int|
            0 <= k < names.len() && #[trigger] names[k]@ == name
    &&& forall|k: int, l: int|
        0 <= k < l < names.len() ==> (#[trigger] names[k])@ != (#[trigger] names[l])@
}

/// The place of `name` in `names`, if it stands there.
pub fn position(names: &Vec<String>, name: &str) -> (at: Option<usize>)
    ensures
        match at {
            Some(k) => k < names@.len() && names@[k as int]@ == name@,
            None => forall|k: int| 0 <= k < names@.len() ==> (#[trigger] names@[k])@ != name@,
        },
{
    let mut k: usize = 0;
    while k < names.len()
        invariant
            k <= names@.len(),
            forall|l: int| 0 <= l < k ==> (#[trigger] names@[l])@ != name@,
        decreases names@.len() - k,
    {
        if str_eq(names[k].as_str(), name) {
            return Some(k);
        }
        k += 1;
    }
    None
}

impl EventData {
    /// Finds the names of the calls that the trace enters, and keeps them
    /// in `event_names`, each once.
    pub fn populate_event_names(&mut self)
        requires
            well_formed_trace(old(self).stats@),
        ensures
            final(self).stats == old(self).stats,
            holds_names(final(self).event_names@, final(self).stats@, final(self).stats@.len() as int),
    {
        let mut event_names: Vec<String> = Vec::new();
        let n = self.stats.len();
        let mut i: usize = 0;
        while i < n
            invariant
                n == self.stats@.len(),
                i <= n,
                self.stats == old(self).stats,
                well_formed_trace(self.stats@),
                holds_names(event_names@, self.stats@, i as int),
            decreases n - i,
        {
            let ghost before = event_names@;
            let ghost stats = self.stats@;
            let stat = &self.stats[i];
            if contains(stat.details.as_str(), "Enter") {
                let split = split_whitespace(stat.details.as_str());
                assert(views(split@).len() == split@.len());
                assert(views(split@)[4] == split@[4]@);
                let name = &split[4];
                let ghost text = name@;
                assert(text == word(stats[i as int].details@, 4));
                if position(&event_names, name.as_str()).is_none() {
                    event_names.push(name.clone());
                    proof {
                        let after = event_names@;
                        assert(after[before.len() as int]@ == text);
                        assert forall|k: int| 0 <= k < after.len() implies names_call(
                            stats,
                            i + 1,
                            #[trigger] after[k]@,
                        ) by {
                            if k < before.len() {
                                assert(after[k] == before[k]);
                                assert(names_call(stats, i as int, before[k]@));
                                let w = choose|w: int|
                                    0 <= w < i && w < stats.len() && is_enter(
                                        #[trigger] stats[w].details@,
                                    ) && word(stats[w].details@, 4) == before[k]@;
                                assert(is_enter(stats[w].details@));
                            } else {
                                assert(is_enter(stats[i as int].details@));
                            }
                        }
                        assert forall|name: Seq<char>| #[trigger]
                            names_call(stats, i + 1, name) implies exists|k: int|
                            0 <= k < after.len() && #[trigger] after[k]@ == name by {
                            let w = choose|w: int|
                                0 <= w < i + 1 && w < stats.len() && is_enter(
                                    #[trigger] stats[w].details@,
                                ) && word(stats[w].details@, 4) == name;
                            if w < i {
                                assert(is_enter(stats[w].details@));
                                assert(names_call(stats, i as int, name));
                                let k = choose|k: int|
                                    0 <= k < before.len() && #[trigger] before[k]@ == name;
                                assert(after[k]@ == name);
                            } else {
                                assert(after[before.len() as int]@ == name);
                            }
                        }
                        assert forall|k: int, l: int| 0 <= k < l < after.len() implies (
                        #[trigger] after[k])@ != (#[trigger] after[l])@ by {
                            if l < before.len() {
                                assert(after[k] == before[k] && after[l] == before[l]);
                            } else {
                                assert(after[k] == before[k]);
                            }
                        }
                    }
                } else {
                    proof {
                        lemma_names_grow(before, stats, i as int);
                        assert forall|name: Seq<char>| #[trigger]
                            names_call(stats, i + 1, name) implies exists|k: int|
                            0 <= k < before.len() && #[trigger] before[k]@ == name by {
                            let w = choose|w: int|
                                0 <= w < i + 1 && w < stats.len() && is_enter(
                                    #[trigger] stats[w].details@,
                                ) && word(stats[w].details@, 4) == name;
                            if w < i {
                                assert(is_enter(stats[w].details@));
                                assert(names_call(stats, i as int, name));
                            }
                        }
                    }
                }
            } else {
                proof {
                    lemma_names_grow(before, stats, i as int);
                    assert forall|name: Seq<char>| #[trigger]
                        names_call(stats, i + 1, name) implies exists|k: int|
                        0 <= k < before.len() && #[trigger] before[k]@ == name by {
                        let w = choose|w: int|
                            0 <= w < i + 1 && w < stats.len() && is_enter(
                                #[trigger] stats[w].details@,
                            ) && word(stats[w].details@, 4) == name;
                        assert(w < i);
                        assert(is_enter(stats[w].details@));
                        assert(names_call(stats, i as int, name));
                    }
                }
            }
            i += 1;
        }
        self.event_names = event_names;
    }
}

/// A name that one of the first `upto` events gives to a call is one that
/// one of the first `upto + 1` events gives.
pub proof fn lemma_names_grow(names: Seq<String>, stats: Seq<EventInformation>, upto: int)
    requires
        forall|k: int| 0 <= k < names.len() ==> names_call(stats, upto, #[trigger] names[k]@),
    ensures
        forall|k: int| 0 <= k < names.len() ==> names_call(stats, upto + 1, #[trigger] names[k]@),
{
    assert forall|k: int| 0 <= k < names.len() implies names_call(
        stats,
        upto + 1,
        #[trigger] names[k]@,
    ) by {
        assert(names_call(stats, upto, names[k]@));
        let w = choose|w: int|
            0 <= w < upto && w < stats.len() && is_enter(#[trigger] stats[w].details@) && word(
                stats[w].details@,
                4,
            ) == names[k]@;
        assert(is_enter(stats[w].details@));
    }
}

/// Whether event `j` leaves the call that event `i` enters: its details
/// hold `Exit` and the number of that call.
pub open spec fn leaves(stats: Seq<EventInformation>, i: int, j: int) -> bool {
    is_exit(stats[j].details@) && word(stats[j].details@, 1) == word(stats[i].details@, 1)
}

/// The first event from `from` on that leaves the call that event `i`
/// enters, if there is one.
pub open spec fn first_exit(stats: Seq<EventInformation>, i: int, from: int) -> Option<int>
    decreases stats.len() - from,
{
    if from < 0 || from >= stats.len() {
        None
    } else if leaves(stats, i, from) {
        Some(from)
    } else {
        first_exit(stats, i, from + 1)
    }
}

/// The calls that the first `upto` events enter and that the trace leaves
/// again, in the order in which they were entered, each with the time between
/// the two events.
pub open spec fn spec_latency_stats(stats: Seq<EventInformation>, upto: int) -> Seq<LatencyView>
    decreases upto,
{
    if upto <= 0 {
        Seq::empty()
    } else {
        let earlier = spec_latency_stats(stats, upto - 1);
        let i = upto - 1;
        if is_enter(stats[i].details@) && first_exit(stats, i, i + 1) is Some {
            let j = first_exit(stats, i, i + 1)->0;
            earlier.push(
                LatencyView {
                    event_name: word(stats[i].details@, 4),
                    enter_index: i,
                    exit_index: j,
                    latency: stats[j].time_stamp - stats[i].time_stamp,
                },
            )
        } else {
            earlier
        }
    }
}

/// The times that the calls named `name` took, in the order of `calls`.
pub open spec fn latencies_of(calls: Seq<LatencyView>, name: Seq<char>) -> Seq<int>
    decreases calls.len(),
{
    if calls.len() == 0 {
        Seq::empty()
    } else {
        let earlier = latencies_of(calls.drop_last(), name);
        if calls.last().event_name == name {
            earlier.push(calls.last().latency)
        } else {
            earlier
        }
    }
}

/// The views of `calls`.
pub open spec fn latency_views(calls: Seq<LatencyInformation>) -> Seq<LatencyView> {
    Seq::new(calls.len(), |i: int| calls[i]@)
}

/// `times` as integers.
pub open spec fn as_ints(times: Seq<u64>) -> Seq<int> {
    Seq::new(times.len(), |i: int| times[i] as int)
}

/// Whether `histogram` orders the times of `calls` by name: each name of a
/// call stands in it once, with the times of the calls of that name.
pub open spec fn is_histogram_of(histogram: Seq<(String, Vec<u64>)>, calls: Seq<LatencyView>) -> bool {
    &&& forall|k: int|
        0 <= k < histogram.len() ==> as_ints((#[trigger] histogram[k]).1@) == latencies_of(
            calls,
            histogram[k].0@,
        ) && histogram[k].1@.len() > 0
    &&& forall|c: int|
        0 <= c < calls.len() ==> exists|k: int|
            0 <= k < histogram.len() && (#[trigger] histogram[k]).0@ == (
            #[trigger] calls[c]).event_name
    &&& forall|k: int, l: int|
        0 <= k < l < histogram.len() ==> (#[trigger] histogram[k]).0@ != (
        #[trigger] histogram[l]).0@
}

/// No call of `calls` is named `name` where no time is kept for that name.
pub proof fn lemma_latencies_of_absent(calls: Seq<LatencyView>, name: Seq<char>)
    requires
        forall|c: int| 0 <= c < calls.len() ==> (#[trigger] calls[c]).event_name != name,
    ensures
        latencies_of(calls, name) =~= Seq::<int>::empty(),
    decreases calls.len(),
{
    if calls.len() > 0 {
        assert(calls.last() == calls[calls.len() - 1]);
        assert forall|c: int| 0 <= c < calls.drop_last().len() implies (
        #[trigger] calls.drop_last()[c]).event_name != name by {
            assert(calls.drop_last()[c] == calls[c]);
        }
        lemma_latencies_of_absent(calls.drop_last(), name);
    }
}

/// The index of the name `name` in `histogram`, if it stands there.
fn histogram_position(histogram: &Vec<(String, Vec<u64>)>, name: &str) -> (at: Option<usize>)
    ensures
        match at {
            Some(k) => k < histogram@.len() && histogram@[k as int].0@ == name@,
            None => forall|k: int|
                0 <= k < histogram@.len() ==> (#[trigger] histogram@[k]).0@ != name@,
        },
{
    let mut k: usize = 0;
    while k < histogram.len()
        invariant
            k <= histogram@.len(),
            forall|l: int| 0 <= l < k ==> (#[trigger] histogram@[l]).0@ != name@,
        decreases histogram@.len() - k,
    {
        if str_eq(histogram[k].0.as_str(), name) {
            return Some(k);
        }
        k += 1;
    }
    None
}

/// `times` with `time` at its end.
fn with_time(times: &Vec<u64>, time: u64) -> (out: Vec<u64>)
    ensures
        out@ == times@.push(time),
{
    let mut out: Vec<u64> = Vec::new();
    let mut i: usize = 0;
    while i < times.len()
        invariant
            i <= times@.len(),
            out@ == times@.subrange(0, i as int),
        decreases times@.len() - i,
    {
        out.push(times[i]);
        assert(out@ =~= times@.subrange(0, i + 1));
        i += 1;
    }
    assert(times@.subrange(0, i as int) =~= times@);
    out.push(time);
    out
}

/// Keeps in `histogram` that a call named `name` took `time`.
fn record(
    histogram: &mut Vec<(String, Vec<u64>)>,
    name: &String,
    time: u64,
    Ghost(calls): Ghost<Seq<LatencyView>>,
    Ghost(call): Ghost<LatencyView>,
)
    requires
        is_histogram_of(old(histogram)@, calls),
        call.event_name == name@,
        call.latency == time,
    ensures
        is_histogram_of(final(histogram)@, calls.push(call)),
{
    let ghost before = histogram@;
    let ghost after_calls = calls.push(call);
    assert(after_calls.drop_last() =~= calls);
    assert(after_calls.last() == call);
    match histogram_position(histogram, name.as_str()) {
        Some(k) => {
            let times = with_time(&histogram[k].1, time);
            let key = histogram[k].0.clone();
            histogram.set(k, (key, times));
            proof {
                let after = histogram@;
                assert forall|m: int| 0 <= m < after.len() implies as_ints(
                    (#[trigger] after[m]).1@,
                ) == latencies_of(after_calls, after[m].0@) && after[m].1@.len() > 0 by {
                    if m == k {
                        assert(as_ints(before[m].1@) == latencies_of(calls, before[m].0@));
                        assert(as_ints(after[m].1@) =~= as_ints(before[m].1@).push(time as int));
                    } else {
                        assert(after[m] == before[m]);
                        assert(before[m].0@ != before[k as int].0@);
                        assert(as_ints(before[m].1@) == latencies_of(calls, before[m].0@));
                    }
                }
                assert forall|c: int| 0 <= c < after_calls.len() implies exists|m: int|
                    0 <= m < after.len() && (#[trigger] after[m]).0@ == (
                    #[trigger] after_calls[c]).event_name by {
                    if c < calls.len() {
                        assert(after_calls[c] == calls[c]);
                        let m = choose|m: int|
                            0 <= m < before.len() && (#[trigger] before[m]).0@
                                == calls[c].event_name;
                        assert(after[m].0@ == before[m].0@);
                    } else {
                        assert(after[k as int].0@ == call.event_name);
                    }
                }
                assert forall|m: int, l: int| 0 <= m < l < after.len() implies (
                #[trigger] after[m]).0@ != (#[trigger] after[l]).0@ by {
                    assert(after[m].0@ == before[m].0@);
                    assert(after[l].0@ == before[l].0@);
                }
            }
        },
        None => {
            let mut times: Vec<u64> = Vec::new();
            times.push(time);
            histogram.push((name.clone(), times));
            proof {
                let after = histogram@;
                assert forall|c: int| 0 <= c < calls.len() implies (
                #[trigger] calls[c]).event_name != name@ by {
                    let m = choose|m: int|
                        0 <= m < before.len() && (#[trigger] before[m]).0@ == calls[c].event_name;
                    assert(before[m].0@ != name@);
                }
                lemma_latencies_of_absent(calls, name@);
                assert forall|m: int| 0 <= m < after.len() implies as_ints(
                    (#[trigger] after[m]).1@,
                ) == latencies_of(after_calls, after[m].0@) && after[m].1@.len() > 0 by {
                    if m < before.len() {
                        assert(after[m] == before[m]);
                        assert(before[m].0@ != name@);
                        assert(as_ints(before[m].1@) == latencies_of(calls, before[m].0@));
                    } else {
                        assert(as_ints(after[m].1@) =~= Seq::<int>::empty().push(time as int));
                    }
                }
                assert forall|c: int| 0 <= c < after_calls.len() implies exists|m: int|
                    0 <= m < after.len() && (#[trigger] after[m]).0@ == (
                    #[trigger] after_calls[c]).event_name by {
                    if c < calls.len() {
                        assert(after_calls[c] == calls[c]);
                        let m = choose|m: int|
                            0 <= m < before.len() && (#[trigger] before[m]).0@
                                == calls[c].event_name;
                        assert(after[m] == before[m]);
                    } else {
                        assert(after[before.len() as int].0@ == call.event_name);
                    }
                }
                assert forall|m: int, l: int| 0 <= m < l < after.len() implies (
                #[trigger] after[m]).0@ != (#[trigger] after[l]).0@ by {
                    if l < before.len() {
                        assert(after[m] == before[m] && after[l] == before[l]);
                    } else {
                        assert(after[m] == before[m]);
                    }
                }
            }
        },
    }
}

impl EventData {
    /// The first event after `i` that leaves the call that event `i`
    /// enters, where `enter_id` is the number of that call.
    fn find_exit(&self, i: usize, enter_id: &str) -> (at: Option<usize>)
        requires
            i < self.stats@.len(),
            well_formed_trace(self.stats@),
            enter_id@ == word(self.stats@[i as int].details@, 1),
        ensures
            match at {
                Some(j) => first_exit(self.stats@, i as int, i + 1) == Some(j as int) && i < j
                    < self.stats@.len(),
                None => first_exit(self.stats@, i as int, i + 1) is None,
            },
    {
        let n = self.stats.len();
        let mut j: usize = i + 1;
        while j < n
            invariant
                n == self.stats@.len(),
                i < j <= n,
                well_formed_trace(self.stats@),
                enter_id@ == word(self.stats@[i as int].details@, 1),
                first_exit(self.stats@, i as int, i + 1) == first_exit(
                    self.stats@,
                    i as int,
                    j as int,
                ),
            decreases n - j,
        {
            let details = self.stats[j].details.as_str();
            if contains(details, "Exit") {
                assert(is_exit(self.stats@[j as int].details@));
                let split_exit = split_whitespace(details);
                assert(views(split_exit@).len() == split_exit@.len());
                assert(views(split_exit@)[1] == split_exit@[1]@);
                if str_eq(enter_id, split_exit[1].as_str()) {
                    return Some(j);
                }
            }
            j += 1;
        }
        None
    }

    /// How long the calls of the trace took.
    ///
    /// A call counts where the trace enters it and leaves it again: the
    /// first event after the entry that holds `Exit` and the number of the
    /// call is where it is left.
    pub fn calculate_latency_data(&self) -> (latency_data: LatencyData)
        requires
            well_formed_trace(self.stats@),
            in_order_of_time(self.stats@),
        ensures
            latency_views(latency_data.stats@) == spec_latency_stats(
                self.stats@,
                self.stats@.len() as int,
            ),
            is_histogram_of(latency_data.histogram@, latency_views(latency_data.stats@)),
    {
        let mut stats: Vec<LatencyInformation> = Vec::new();
        let mut histogram: Vec<(String, Vec<u64>)> = Vec::new();
        let n = self.stats.len();
        let mut i: usize = 0;
        assert(latency_views(stats@) =~= spec_latency_stats(self.stats@, 0));
        while i < n
            invariant
                n == self.stats@.len(),
                i <= n,
                well_formed_trace(self.stats@),
                in_order_of_time(self.stats@),
                latency_views(stats@) == spec_latency_stats(self.stats@, i as int),
                is_histogram_of(histogram@, latency_views(stats@)),
            decreases n - i,
        {
            let details = self.stats[i].details.as_str();
            if contains(details, "Enter") {
                assert(is_enter(self.stats@[i as int].details@));
                let split_enter = split_whitespace(details);
                assert(views(split_enter@).len() == split_enter@.len());
                assert(views(split_enter@)[1] == split_enter@[1]@);
                assert(views(split_enter@)[4] == split_enter@[4]@);
                let event_name = &split_enter[4];
                let enter_id = &split_enter[1];
                match self.find_exit(i, enter_id.as_str()) {
                    Some(j) => {
                        let time = self.stats[j].time_stamp - self.stats[i].time_stamp;
                        let element = LatencyInformation {
                            event_name: event_name.clone(),
                            enter_index: i,
                            exit_index: j,
                            latency: time,
                        };
                        let ghost calls = latency_views(stats@);
                        let ghost call = element@;
                        record(&mut histogram, event_name, time, Ghost(calls), Ghost(call));
                        stats.push(element);
                        assert(latency_views(stats@) =~= calls.push(call));
                    },
                    None => {},
                }
            }
            i += 1;
        }
        LatencyData { stats, histogram }
    }
}

/// The text in the details of an event that enters a call named `name`.
pub open spec fn enter_text(name: Seq<char>) -> Seq<char> {
    "Enter: "@ + name
}

/// The text in the details of an event that leaves a call named `name`.
pub open spec fn exit_text(name: Seq<char>) -> Seq<char> {
    "Exit: "@ + name
}

/// Whether event `j` leaves the call named `name` that event `i` enters:
/// its details hold the text of such an exit and the number of that call.
pub open spec fn leaves_named(stats: Seq<EventInformation>, name: Seq<char>, i: int, j: int) -> bool {
    spec_contains(stats[j].details@, exit_text(name)) && word(stats[j].details@, 1) == word(
        stats[i].details@,
        1,
    )
}

/// The first event from `from` on that leaves the call named `name` that
/// event `i` enters, if there is one.
pub open spec fn first_named_exit(
    stats: Seq<EventInformation>,
    name: Seq<char>,
    i: int,
    from: int,
) -> Option<int>
    decreases stats.len() - from,
{
    if from < 0 || from >= stats.len() {
        None
    } else if leaves_named(stats, name, i, from) {
        Some(from)
    } else {
        first_named_exit(stats, name, i, from + 1)
    }
}

/// The time that the call took that event `i` enters, if event `i` enters
/// a call named `name` that the trace leaves again.
pub open spec fn named_call_time(stats: Seq<EventInformation>, name: Seq<char>, i: int) -> Option<
    int,
> {
    if spec_contains(stats[i].details@, enter_text(name)) {
        match first_named_exit(stats, name, i, i + 1) {
            Some(j) => Some(stats[j].time_stamp - stats[i].time_stamp),
            None => None,
        }
    } else {
        None
    }
}

/// How many calls named `name` the first `upto` events enter and the trace
/// leaves again, and how long they took together.
pub open spec fn named_total(stats: Seq<EventInformation>, name: Seq<char>, upto: int) -> (int, int)
    decreases upto,
{
    if upto <= 0 {
        (0, 0)
    } else {
        let earlier = named_total(stats, name, upto - 1);
        match named_call_time(stats, name, upto - 1) {
            Some(time) => (earlier.0 + 1, earlier.1 + time),
            None => earlier,
        }
    }
}

/// Count and total time of the calls named `name` are not negative, and
/// the count is at most `upto`.
pub proof fn lemma_named_total_bounds(stats: Seq<EventInformation>, name: Seq<char>, upto: int)
    requires
        in_order_of_time(stats),
        0 <= upto <= stats.len(),
    ensures
        0 <= named_total(stats, name, upto).0 <= upto,
        0 <= named_total(stats, name, upto).1,
    decreases upto,
{
    if upto > 0 {
        lemma_named_total_bounds(stats, name, upto - 1);
        let i = upto - 1;
        if named_call_time(stats, name, i) is Some {
            lemma_first_named_exit(stats, name, i, i + 1);
        }
    }
}

/// The exit that is found lies behind `from`, inside the trace.
pub proof fn lemma_first_named_exit(stats: Seq<EventInformation>, name: Seq<char>, i: int, from: int)
    requires
        0 <= from,
    ensures
        first_named_exit(stats, name, i, from) matches Some(j) ==> from <= j < stats.len()
            && leaves_named(stats, name, i, j),
    decreases stats.len() - from,
{
    if from < stats.len() && !leaves_named(stats, name, i, from) {
        lemma_first_named_exit(stats, name, i, from + 1);
    }
}

/// A text that holds `first + second` holds `first`.
pub proof fn lemma_contains_prefix(hay: Seq<char>, first: Seq<char>, second: Seq<char>)
    requires
        spec_contains(hay, first + second),
    ensures
        spec_contains(hay, first),
{
    let at = choose|at: int| occurs_at(hay, first + second, at);
    assert(hay.subrange(at, at + first.len()) =~= (first + second).subrange(0, first.len() as int));
    assert((first + second).subrange(0, first.len() as int) =~= first);
    assert(occurs_at(hay, first, at));
}

/// Whether the times of the calls of each name in `names` can be averaged:
/// the trace enters and leaves at least one call of that name, and the times
/// of all of them together fit in 64 bits.
pub open spec fn can_average(stats: Seq<EventInformation>, names: Seq<String>) -> bool {
    forall|k: int|
        0 <= k < names.len() ==> named_total(stats, (#[trigger] names[k])@, stats.len() as int).0
            > 0 && named_total(stats, names[k]@, stats.len() as int).1 <= u64::MAX
}

impl EventData {
    /// The first event after `i` that leaves the call named by `exit` that
    /// event `i` enters, where `enter_id` is the number of that call.
    fn find_named_exit(&self, i: usize, exit: &str, enter_id: &str, Ghost(name): Ghost<Seq<char>>) -> (at:
        Option<usize>)
        requires
            i < self.stats@.len(),
            well_formed_trace(self.stats@),
            exit@ == exit_text(name),
            enter_id@ == word(self.stats@[i as int].details@, 1),
        ensures
            match at {
                Some(j) => first_named_exit(self.stats@, name, i as int, i + 1) == Some(j as int)
                    && i < j < self.stats@.len(),
                None => first_named_exit(self.stats@, name, i as int, i + 1) is None,
            },
    {
        let n = self.stats.len();
        let mut j: usize = i + 1;
        while j < n
            invariant
                n == self.stats@.len(),
                i < j <= n,
                well_formed_trace(self.stats@),
                exit@ == exit_text(name),
                enter_id@ == word(self.stats@[i as int].details@, 1),
                first_named_exit(self.stats@, name, i as int, i + 1) == first_named_exit(
                    self.stats@,
                    name,
                    i as int,
                    j as int,
                ),
            decreases n - j,
        {
            let details = self.stats[j].details.as_str();
            if contains(details, exit) {
                proof {
                    reveal_strlit("Exit");
                    reveal_strlit(": ");
                    reveal_strlit("Exit: ");
                    assert("Exit"@ + (": "@ + name) =~= exit_text(name));
                    lemma_contains_prefix(details@, "Exit"@, ": "@ + name);
                    assert(is_exit(self.stats@[j as int].details@));
                }
                let split_exit = split_whitespace(details);
                assert(views(split_exit@).len() == split_exit@.len());
                assert(views(split_exit@)[1] == split_exit@[1]@);
                if str_eq(enter_id, split_exit[1].as_str()) {
                    return Some(j);
                }
            }
            j += 1;
        }
        None
    }

    /// How many calls named `event` the trace enters and leaves again, and
    /// how long they took together; or `None` where the times together do not
    /// fit in 64 bits.
    pub fn named_totals(&self, event: &str) -> (totals: Option<(u64, u64)>)
        requires
            well_formed_trace(self.stats@),
            in_order_of_time(self.stats@),
        ensures
            match totals {
                Some((count, sum_time)) => (count as int, sum_time as int) == named_total(
                    self.stats@,
                    event@,
                    self.stats@.len() as int,
                ),
                None => named_total(self.stats@, event@, self.stats@.len() as int).1 > u64::MAX,
            },
    {
        let ghost name = event@;
        let n = self.stats.len();
        let mut count: u64 = 0;
        let mut sum_time: u64 = 0;
        let enter = concat2("Enter: ", event);
        let exit = concat2("Exit: ", event);
        let mut i: usize = 0;
        while i < n
            invariant
                n == self.stats@.len(),
                i <= n,
                name == event@,
                well_formed_trace(self.stats@),
                in_order_of_time(self.stats@),
                enter@ == enter_text(name),
                exit@ == exit_text(name),
                (count as int, sum_time as int) == named_total(self.stats@, name, i as int),
            decreases n - i,
        {
            proof {
                lemma_named_total_bounds(self.stats@, name, i + 1);
                lemma_named_total_grows(self.stats@, name, i + 1, n as int);
            }
            let details = self.stats[i].details.as_str();
            if contains(details, enter.as_str()) {
                proof {
                    reveal_strlit("Enter");
                    reveal_strlit(": ");
                    reveal_strlit("Enter: ");
                    assert("Enter"@ + (": "@ + name) =~= enter_text(name));
                    lemma_contains_prefix(details@, "Enter"@, ": "@ + name);
                    assert(is_enter(self.stats@[i as int].details@));
                }
                let split_enter = split_whitespace(details);
                assert(views(split_enter@).len() == split_enter@.len());
                assert(views(split_enter@)[1] == split_enter@[1]@);
                let enter_id = &split_enter[1];
                match self.find_named_exit(i, exit.as_str(), enter_id.as_str(), Ghost(name)) {
                    Some(j) => {
                        let time = self.stats[j].time_stamp - self.stats[i].time_stamp;
                        if time > u64::MAX - sum_time {
                            return None;
                        }
                        sum_time += time;
                        count += 1;
                    },
                    None => {},
                }
            }
            i += 1;
        }
        Some((count, sum_time))
    }

    /// Whether the times of the calls of each name in `event_names` can be
    /// averaged.
    pub fn is_averageable(&self) -> (b: bool)
        requires
            well_formed_trace(self.stats@),
            in_order_of_time(self.stats@),
        ensures
            b == can_average(self.stats@, self.event_names@),
    {
        let mut k: usize = 0;
        while k < self.event_names.len()
            invariant
                k <= self.event_names@.len(),
                well_formed_trace(self.stats@),
                in_order_of_time(self.stats@),
                forall|m: int|
                    0 <= m < k ==> named_total(
                        self.stats@,
                        (#[trigger] self.event_names@[m])@,
                        self.stats@.len() as int,
                    ).0 > 0 && named_total(
                        self.stats@,
                        self.event_names@[m]@,
                        self.stats@.len() as int,
                    ).1 <= u64::MAX,
            decreases self.event_names@.len() - k,
        {
            match self.named_totals(self.event_names[k].as_str()) {
                Some((count, _)) => {
                    if count == 0 {
                        return false;
                    }
                },
                None => {
                    return false;
                },
            }
            k += 1;
        }
        true
    }

    /// For each name in `event_names`, in their order: the mean time of
    /// the calls of that name, in whole units, and how many there were.
    ///
    /// A call of a name counts where the trace enters it and leaves it
    /// again: the first event after the entry that holds the text of an exit
    /// of that name and the number of the call is where it is left.
    pub fn calculate_function_time(&self) -> (values: Vec<(String, (u64, u64))>)
        requires
            well_formed_trace(self.stats@),
            in_order_of_time(self.stats@),
            can_average(self.stats@, self.event_names@),
        ensures
            values@.len() == self.event_names@.len(),
            forall|k: int|
                0 <= k < values@.len() ==> {
                    let total = named_total(
                        self.stats@,
                        self.event_names@[k]@,
                        self.stats@.len() as int,
                    );
                    &&& (#[trigger] values@[k]).0@ == self.event_names@[k]@
                    &&& values@[k].1.1 == total.0
                    &&& values@[k].1.0 == total.1 / total.0
                },
    {
        let mut values: Vec<(String, (u64, u64))> = Vec::new();
        let mut k: usize = 0;
        while k < self.event_names.len()
            invariant
                k <= self.event_names@.len(),
                well_formed_trace(self.stats@),
                in_order_of_time(self.stats@),
                can_average(self.stats@, self.event_names@),
                values@.len() == k,
                forall|m: int|
                    0 <= m < k ==> {
                        let total = named_total(
                            self.stats@,
                            self.event_names@[m]@,
                            self.stats@.len() as int,
                        );
                        &&& (#[trigger] values@[m]).0@ == self.event_names@[m]@
                        &&& values@[m].1.1 == total.0
                        &&& values@[m].1.0 == total.1 / total.0
                    },
            decreases self.event_names@.len() - k,
        {
            let event = &self.event_names[k];
            match self.named_totals(event.as_str()) {
                Some((count, sum_time)) => {
                    let latency = sum_time / count;
                    values.push((event.clone(), (latency, count)));
                },
                None => unreached(),
            }
            k += 1;
        }
        values
    }
}

/// Count and total time of the calls of a name only grow with the trace.
pub proof fn lemma_named_total_grows(
    stats: Seq<EventInformation>,
    name: Seq<char>,
    upto: int,
    end: int,
)
    requires
        in_order_of_time(stats),
        0 <= upto <= end <= stats.len(),
    ensures
        named_total(stats, name, upto).0 <= named_total(stats, name, end).0,
        named_total(stats, name, upto).1 <= named_total(stats, name, end).1,
    decreases end - upto,
{
    if upto < end {
        lemma_named_total_grows(stats, name, upto, end - 1);
        let i = end - 1;
        if named_call_time(stats, name, i) is Some {
            lemma_first_named_exit(stats, name, i, i + 1);
        }
    }
}

/// Time that never runs backwards from one event to the next never runs
/// backwards at all.
pub proof fn lemma_in_order_by_steps(stats: Seq<EventInformation>, i: int, j: int)
    requires
        forall|k: int|
            0 <= k && k + 1 < stats.len() ==> (#[trigger] stats[k]).time_stamp <= stats[k
                + 1].time_stamp,
        0 <= i <= j < stats.len(),
    ensures
        stats[i].time_stamp <= stats[j].time_stamp,
    decreases j - i,
{
    if i < j {
        lemma_in_order_by_steps(stats, i, j - 1);
        assert(stats[j - 1].time_stamp <= stats[j - 1 + 1].time_stamp);
    }
}

impl EventData {
    /// Whether every event of the trace that enters a call names the call,
    /// and every event that enters or leaves one holds its number.
    pub fn is_well_formed(&self) -> (b: bool)
        ensures
            b == well_formed_trace(self.stats@),
    {
        let mut i: usize = 0;
        while i < self.stats.len()
            invariant
                i <= self.stats@.len(),
                well_formed_trace(self.stats@.subrange(0, i as int)),
            decreases self.stats@.len() - i,
        {
            let details = self.stats[i].details.as_str();
            let words = split_whitespace(details);
            assert(views(words@).len() == words@.len());
            if (contains(details, "Enter") && words.len() < 5) || (contains(details, "Exit")
                && words.len() < 2) {
                return false;
            }
            proof {
                let seen = self.stats@.subrange(0, i as int);
                let next = self.stats@.subrange(0, i + 1);
                assert forall|k: int| 0 <= k < next.len() implies {
                    &&& is_enter(#[trigger] next[k].details@) ==> spec_split_whitespace(
                        next[k].details@,
                    ).len() >= 5
                    &&& is_exit(next[k].details@) ==> spec_split_whitespace(next[k].details@).len()
                        >= 2
                } by {
                    if k < i {
                        assert(next[k] == seen[k]);
                    }
                }
            }
            i += 1;
        }
        assert(self.stats@.subrange(0, i as int) =~= self.stats@);
        true
    }

    /// Whether the time of the trace never runs backwards.
    pub fn is_in_order_of_time(&self) -> (b: bool)
        ensures
            b == in_order_of_time(self.stats@),
    {
        if self.stats.len() == 0 {
            return true;
        }
        let last = self.stats.len() - 1;
        let mut i: usize = 0;
        while i < last
            invariant
                last == self.stats@.len() - 1,
                i <= last,
                forall|k: int|
                    0 <= k < i ==> (#[trigger] self.stats@[k]).time_stamp <= self.stats@[k
                        + 1].time_stamp,
            decreases last - i,
        {
            if self.stats[i].time_stamp > self.stats[i + 1].time_stamp {
                return false;
            }
            i += 1;
        }
        proof {
            assert forall|a: int, b: int| 0 <= a <= b < self.stats@.len() implies self.stats@[a].time_stamp
                <= self.stats@[b].time_stamp by {
                lemma_in_order_by_steps(self.stats@, a, b);
            }
        }
        true
    }
}

/// One layer of a flame graph: a call, how long it took, and the calls
/// that were made inside it.
#[derive(Debug, PartialEq)]
pub struct LayerData {
    pub name: String,
    pub value: u64,
    pub children: Vec<LayerData>,
}

/// A [`LayerData`] with its name and its children as sequences.
pub struct LayerView {
    pub name: Seq<char>,
    pub value: int,
    pub children: Seq<LayerView>,
}

/// The view of a layer.
pub open spec fn layer_view(layer: LayerData) -> LayerView
    decreases layer,
{
    LayerView {
        name: layer.name@,
        value: layer.value as int,
        children: Seq::new(
            layer.children@.len(),
            |i: int|
                if 0 <= i < layer.children@.len() {
                    layer_view(layer.children@[i])
                } else {
                    arbitrary()
                },
        ),
    }
}

/// The views of `layers`.
pub open spec fn layer_views(layers: Seq<LayerData>) -> Seq<LayerView> {
    Seq::new(layers.len(), |i: int| layer_view(layers[i]))
}

/// The first place from `from` on at which `needle` stands in `hay`.
pub open spec fn spec_find_from(hay: Seq<char>, needle: Seq<char>, from: int) -> Option<int>
    decreases hay.len() - from,
{
    if from < 0 || from + needle.len() > hay.len() {
        None
    } else if occurs_at(hay, needle, from) {
        Some(from)
    } else if from >= hay.len() {
        None
    } else {
        spec_find_from(hay, needle, from + 1)
    }
}

/// What `spec_find_from` finds is the first place at or behind `from`.
pub proof fn lemma_find_from(hay: Seq<char>, needle: Seq<char>, from: int)
    requires
        0 <= from,
    ensures
        match spec_find_from(hay, needle, from) {
            Some(p) => from <= p && occurs_at(hay, needle, p) && forall|q: int|
                from <= q < p ==> !occurs_at(hay, needle, q),
            None => forall|q: int| from <= q ==> !occurs_at(hay, needle, q),
        },
    decreases hay.len() - from,
{
    if from + needle.len() <= hay.len() && !occurs_at(hay, needle, from) {
        if from < hay.len() {
            lemma_find_from(hay, needle, from + 1);
        } else {
            assert(hay.subrange(from, from + needle.len()) =~= needle);
        }
    }
    if from + needle.len() > hay.len() {
        assert forall|q: int| from <= q implies !occurs_at(hay, needle, q) by {}
    }
}

/// The name of the system call in the name of an event that enters one:
/// what follows `enter` and one more character. No name (`Some(None)`) where
/// the event enters no system call, and nothing at all (`None`) where `enter`
/// is not followed by a character of one byte.
pub open spec fn spec_syscall_name(name: Seq<char>) -> Option<Option<Seq<char>>> {
    match spec_find_from(name, "enter"@, 0) {
        None => Some(None),
        Some(k) => if k + 5 < name.len() && (name[k + 5] as u32) < 128 {
            Some(Some(name.subrange(k + 6, name.len() as int)))
        } else {
            None
        },
    }
}

/// The name of the system call in the name of an event.
pub fn syscall_name(name: &str) -> (r: Option<Option<String>>)
    ensures
        match r {
            None => spec_syscall_name(name@) is None,
            Some(None) => spec_syscall_name(name@) == Some(None::<Seq<char>>),
            Some(Some(syscall)) => spec_syscall_name(name@) == Some(Some(syscall@)),
        },
{
    let chars = chars_of(name);
    let enter = chars_of("enter");
    proof {
        reveal_strlit("enter");
        lemma_find_from(name@, "enter"@, 0);
    }
    match find(&chars, &enter) {
        None => {
            proof {
                if spec_find_from(name@, "enter"@, 0) is Some {
                    let p = spec_find_from(name@, "enter"@, 0)->0;
                    assert(occurs_at(name@, "enter"@, p));
                    assert(crate::text::spec_contains(name@, "enter"@));
                }
            }
            Some(None)
        },
        Some(k) => {
            proof {
                let found = spec_find_from(name@, "enter"@, 0);
                if found is None {
                    assert(!occurs_at(name@, "enter"@, k as int));
                } else {
                    let p = found->0;
                    if p < k {
                        assert(!occurs_at(name@, "enter"@, p));
                    } else if k < p {
                        assert(!occurs_at(name@, "enter"@, k as int));
                    }
                }
            }
            assert(occurs_at(chars@, enter@, k as int));
            assert(k + 5 <= chars@.len());
            let n = chars.len();
            if n - k > 5 && (chars[k + 5] as u32) < 128 {
                Some(Some(text_of(&chars, k + 6, n)))
            } else {
                None
            }
        },
    }
}

/// Whether event `j` leaves the system call whose exit is named
/// `exit_name` in the process `pid`.
pub open spec fn leaves_syscall(
    stats: Seq<EventInformation>,
    exit_name: Seq<char>,
    pid: i32,
    j: int,
) -> bool {
    stats[j].pid == pid && spec_contains(stats[j].name@, exit_name)
}

/// The first event from `from` on and before `exit` that leaves the system
/// call.
pub open spec fn first_syscall_exit(
    stats: Seq<EventInformation>,
    exit_name: Seq<char>,
    pid: i32,
    from: int,
    exit: int,
) -> Option<int>
    decreases exit - from,
{
    if from < 0 || from >= exit || from >= stats.len() {
        None
    } else if leaves_syscall(stats, exit_name, pid, from) {
        Some(from)
    } else {
        first_syscall_exit(stats, exit_name, pid, from + 1, exit)
    }
}

/// The exit that is found lies between `from` and `exit`.
pub proof fn lemma_first_syscall_exit(
    stats: Seq<EventInformation>,
    exit_name: Seq<char>,
    pid: i32,
    from: int,
    exit: int,
)
    requires
        0 <= from,
    ensures
        first_syscall_exit(stats, exit_name, pid, from, exit) matches Some(j) ==> from <= j < exit
            && j < stats.len(),
    decreases exit - from,
{
    if from < exit && from < stats.len() && !leaves_syscall(stats, exit_name, pid, from) {
        lemma_first_syscall_exit(stats, exit_name, pid, from + 1, exit);
    }
}

/// Whether the events between `enter` and `exit` can be laid out in
/// layers: the name of each says which system call it enters, if any; each is
/// followed by another event; and the time does not run backwards.
pub open spec fn can_layer(stats: Seq<EventInformation>, exit: int) -> bool {
    &&& exit < stats.len()
    &&& in_order_of_time(stats)
    &&& forall|i: int| 0 <= i < exit ==> spec_syscall_name((#[trigger] stats[i]).name@) is Some
}

/// The layers of the events of the process `pid` from `i` on and before
/// `exit`, inside the call that event `enter` enters, and the events that were
/// used for them. `seen` are the events that were used before.
///
/// An event that enters a system call makes one layer with the first event
/// that leaves that system call, if there is one; the events between the two
/// make the layers below it. Any other event makes a layer of its own that
/// lasts until the next event.
pub open spec fn spec_layers(
    stats: Seq<EventInformation>,
    enter: int,
    exit: int,
    pid: i32,
    i: int,
    seen: Set<int>,
) -> (Seq<LayerView>, Set<int>)
    decreases exit - enter, exit - i,
{
    if i <= enter || i >= exit || i >= stats.len() {
        (Seq::empty(), seen)
    } else if seen.contains(i) || stats[i].pid != pid {
        spec_layers(stats, enter, exit, pid, i + 1, seen)
    } else {
        match spec_syscall_name(stats[i].name@) {
            Some(Some(syscall)) => {
                let seen = seen.insert(i);
                match first_syscall_exit(stats, "sys_exit_"@ + syscall, pid, i + 1, exit) {
                    Some(j) => if i < j < exit {
                        let below = spec_layers(stats, i, j, pid, i + 1, seen.insert(j));
                        let rest = spec_layers(stats, enter, exit, pid, i + 1, below.1);
                        (
                            seq![
                                LayerView {
                                    name: "sys_"@ + syscall,
                                    value: stats[j].time_stamp - stats[i].time_stamp,
                                    children: below.0,
                                },
                            ] + rest.0,
                            rest.1,
                        )
                    } else {
                        // Never taken: the exit lies behind the entry and
                        // before the end.
                        (Seq::empty(), seen)
                    },
                    None => spec_layers(stats, enter, exit, pid, i + 1, seen),
                }
            },
            _ => {
                let rest = spec_layers(stats, enter, exit, pid, i + 1, seen.insert(i));
                (
                    seq![
                        LayerView {
                            name: stats[i].name@,
                            value: stats[i + 1].time_stamp - stats[i].time_stamp,
                            children: Seq::empty(),
                        },
                    ] + rest.0,
                    rest.1,
                )
            },
        }
    }
}

/// The numbers in `v`, as a set of integers.
pub open spec fn index_set(v: Set<usize>) -> Set<int> {
    Set::new(|i: int| 0 <= i <= usize::MAX && v.contains(i as usize))
}

/// One more number in the set is one more integer in the set.
pub proof fn lemma_index_set_insert(v: Set<usize>, i: usize)
    ensures
        index_set(v.insert(i)) == index_set(v).insert(i as int),
{
    assert(index_set(v.insert(i)) =~= index_set(v).insert(i as int));
}

/// Whether `i` is in `index_counter`.
fn counted(index_counter: &HashSet<usize>, i: usize) -> (b: bool)
    ensures
        b == index_set(index_counter@).contains(i as int),
{
    broadcast use vstd::std_specs::hash::group_hash_axioms;

    index_counter.contains(&i)
}

/// Puts `i` into `index_counter`.
fn count(index_counter: &mut HashSet<usize>, i: usize)
    ensures
        final(index_counter)@ == old(index_counter)@.insert(i),
{
    broadcast use vstd::std_specs::hash::group_hash_axioms;

    let _ = index_counter.insert(i);
}

/// The view of a layer with the children `children`.
proof fn lemma_layer_view(layer: LayerData)
    ensures
        layer_view(layer).children == layer_views(layer.children@),
{
    assert(layer_view(layer).children =~= layer_views(layer.children@));
}

impl EventData {
    /// The first event from `from` on and before `exit_index` that leaves
    /// the system call whose exit is named `exit_name` in the process `pid`.
    fn find_syscall_exit(&self, exit_name: &str, pid: i32, from: usize, exit_index: usize) -> (at:
        Option<usize>)
        requires
            exit_index <= self.stats@.len(),
        ensures
            match at {
                Some(j) => first_syscall_exit(
                    self.stats@,
                    exit_name@,
                    pid,
                    from as int,
                    exit_index as int,
                ) == Some(j as int) && from <= j < exit_index,
                None => first_syscall_exit(
                    self.stats@,
                    exit_name@,
                    pid,
                    from as int,
                    exit_index as int,
                ) is None,
            },
    {
        let mut j: usize = from;
        while j < exit_index
            invariant
                from <= j,
                exit_index <= self.stats@.len(),
                first_syscall_exit(self.stats@, exit_name@, pid, from as int, exit_index as int)
                    == first_syscall_exit(self.stats@, exit_name@, pid, j as int, exit_index as int),
            decreases exit_index - j,
        {
            if self.stats[j].pid == pid && contains(self.stats[j].name.as_str(), exit_name) {
                return Some(j);
            }
            j += 1;
        }
        None
    }

    /// Lays the events of the process `pid` between the events
    /// `enter_index` and `exit_index` out in layers, and puts the layers at
    /// the end of `layer_data`. `index_counter` holds the events that are used
    /// up; those that are used here are added to it.
    pub fn create_layer(
        &self,
        enter_index: usize,
        exit_index: usize,
        pid: i32,
        layer_data: &mut Vec<LayerData>,
        index_counter: &mut HashSet<usize>,
    )
        requires
            can_layer(self.stats@, exit_index as int),
        ensures
            ({
                let layers = spec_layers(
                    self.stats@,
                    enter_index as int,
                    exit_index as int,
                    pid,
                    enter_index + 1,
                    index_set(old(index_counter)@),
                );
                &&& layer_views(final(layer_data)@) == layer_views(old(layer_data)@) + layers.0
                &&& index_set(final(index_counter)@) == layers.1
            }),
        decreases exit_index - enter_index,
    {
        let ghost stats = self.stats@;
        let ghost total = spec_layers(
            stats,
            enter_index as int,
            exit_index as int,
            pid,
            enter_index + 1,
            index_set(index_counter@),
        );
        if enter_index >= exit_index {
            assert(layer_views(layer_data@) + Seq::<LayerView>::empty() =~= layer_views(
                layer_data@,
            ));
            return ;
        }
        let mut i: usize = enter_index + 1;
        while i < exit_index
            invariant
                stats == self.stats@,
                can_layer(stats, exit_index as int),
                enter_index < i <= exit_index,
                layer_views(layer_data@) + spec_layers(
                    stats,
                    enter_index as int,
                    exit_index as int,
                    pid,
                    i as int,
                    index_set(index_counter@),
                ).0 == layer_views(old(layer_data)@) + total.0,
                spec_layers(
                    stats,
                    enter_index as int,
                    exit_index as int,
                    pid,
                    i as int,
                    index_set(index_counter@),
                ).1 == total.1,
            decreases exit_index - i,
        {
            let ghost seen = index_set(index_counter@);
            let ghost done = layer_views(layer_data@);
            let ghost here = spec_layers(
                stats,
                enter_index as int,
                exit_index as int,
                pid,
                i as int,
                seen,
            );
            if counted(index_counter, i) || self.stats[i].pid != pid {
                i += 1;
                continue ;
            }
            assert(spec_syscall_name(stats[i as int].name@) is Some);
            match syscall_name(self.stats[i].name.as_str()) {
                Some(Some(syscall)) => {
                    proof {
                        lemma_index_set_insert(index_counter@, i);
                    }
                    count(index_counter, i);
                    let name = concat2("sys_", syscall.as_str());
                    let exit_name = concat2("sys_exit_", syscall.as_str());
                    proof {
                        lemma_first_syscall_exit(
                            stats,
                            exit_name@,
                            pid,
                            i + 1,
                            exit_index as int,
                        );
                    }
                    match self.find_syscall_exit(exit_name.as_str(), pid, i + 1, exit_index) {
                        Some(j) => {
                            proof {
                                lemma_index_set_insert(index_counter@, j);
                            }
                            count(index_counter, j);
                            let layer_time = self.stats[j].time_stamp - self.stats[i].time_stamp;
                            let mut new_layer: Vec<LayerData> = Vec::new();
                            let ghost below = spec_layers(
                                stats,
                                i as int,
                                j as int,
                                pid,
                                i + 1,
                                index_set(index_counter@),
                            );
                            self.create_layer(i, j, pid, &mut new_layer, index_counter);
                            assert(layer_views(new_layer@) =~= below.0);
                            let data = LayerData { name, value: layer_time, children: new_layer };
                            proof {
                                lemma_layer_view(data);
                                let rest = spec_layers(
                                    stats,
                                    enter_index as int,
                                    exit_index as int,
                                    pid,
                                    i + 1,
                                    below.1,
                                );
                                assert(here.0 == seq![layer_view(data)] + rest.0);
                                assert(layer_views(layer_data@.push(data)) =~= done + seq![
                                    layer_view(data),
                                ]);
                                assert(done + (seq![layer_view(data)] + rest.0) =~= (done + seq![
                                    layer_view(data),
                                ]) + rest.0);
                            }
                            layer_data.push(data);
                        },
                        None => {},
                    }
                },
                Some(None) => {
                    let data = LayerData {
                        name: self.stats[i].name.clone(),
                        value: self.stats[i + 1].time_stamp - self.stats[i].time_stamp,
                        children: Vec::new(),
                    };
                    proof {
                        lemma_index_set_insert(index_counter@, i);
                        lemma_layer_view(data);
                        let rest = spec_layers(
                            stats,
                            enter_index as int,
                            exit_index as int,
                            pid,
                            i + 1,
                            seen.insert(i as int),
                        );
                        assert(layer_view(data).children =~= Seq::<LayerView>::empty());
                        assert(here.0 == seq![layer_view(data)] + rest.0);
                        assert(layer_views(layer_data@.push(data)) =~= done + seq![layer_view(data)]);
                        assert(done + (seq![layer_view(data)] + rest.0) =~= (done + seq![
                            layer_view(data),
                        ]) + rest.0);
                    }
                    count(index_counter, i);
                    layer_data.push(data);
                },
                None => unreached(),
            }
            i += 1;
        }
        assert(layer_views(layer_data@) + Seq::<LayerView>::empty() =~= layer_views(layer_data@));
    }
}

/// `sorted` with `layer` put behind the last layer that took at least as
/// long.
pub open spec fn spec_insert_by_value(sorted: Seq<LayerView>, layer: LayerView) -> Seq<LayerView>
    decreases sorted.len(),
{
    if sorted.len() == 0 {
        seq![layer]
    } else if sorted.last().value >= layer.value {
        sorted.push(layer)
    } else {
        spec_insert_by_value(sorted.drop_last(), layer).push(sorted.last())
    }
}

/// `layers` in the order of their values, the greatest first; layers of one
/// value keep their order.
pub open spec fn spec_sort_by_value(layers: Seq<LayerView>) -> Seq<LayerView>
    decreases layers.len(),
{
    if layers.len() == 0 {
        Seq::empty()
    } else {
        spec_insert_by_value(spec_sort_by_value(layers.drop_last()), layers.last())
    }
}

/// Whether the values of `layers` never rise.
pub open spec fn descending(layers: Seq<LayerView>) -> bool {
    forall|i: int, j: int| 0 <= i <= j < layers.len() ==> layers[i].value >= layers[j].value
}

/// Putting a layer into a list whose values never rise gives such a list,
/// one longer, that holds the layer and what the list held.
pub proof fn lemma_insert_by_value(sorted: Seq<LayerView>, layer: LayerView)
    requires
        descending(sorted),
    ensures
        descending(spec_insert_by_value(sorted, layer)),
        spec_insert_by_value(sorted, layer).len() == sorted.len() + 1,
        forall|i: int|
            0 <= i < sorted.len() + 1 ==> (#[trigger] spec_insert_by_value(sorted, layer)[i])
                == layer || sorted.contains(spec_insert_by_value(sorted, layer)[i]),
    decreases sorted.len(),
{
    let out = spec_insert_by_value(sorted, layer);
    if sorted.len() == 0 {
    } else if sorted.last().value >= layer.value {
        assert forall|i: int| 0 <= i < sorted.len() + 1 implies (#[trigger] out[i]) == layer
            || sorted.contains(out[i]) by {
            if i < sorted.len() {
                assert(out[i] == sorted[i]);
            }
        }
        assert forall|i: int, j: int| 0 <= i <= j < out.len() implies out[i].value
            >= out[j].value by {
            if j == sorted.len() && i < j {
                assert(sorted[i].value >= sorted[sorted.len() - 1].value);
            }
        }
    } else {
        let shorter = sorted.drop_last();
        assert forall|i: int, j: int| 0 <= i <= j < shorter.len() implies shorter[i].value
            >= shorter[j].value by {
            assert(shorter[i] == sorted[i] && shorter[j] == sorted[j]);
        }
        lemma_insert_by_value(shorter, layer);
        let inner = spec_insert_by_value(shorter, layer);
        assert(out == inner.push(sorted.last()));
        assert forall|i: int| 0 <= i < sorted.len() + 1 implies (#[trigger] out[i]) == layer
            || sorted.contains(out[i]) by {
            if i < inner.len() {
                assert(out[i] == inner[i]);
                if inner[i] != layer {
                    assert(shorter.contains(inner[i]));
                    let k = choose|k: int| 0 <= k < shorter.len() && shorter[k] == inner[i];
                    assert(sorted[k] == inner[i]);
                }
            } else {
                assert(out[i] == sorted[sorted.len() - 1]);
            }
        }
        assert forall|i: int, j: int| 0 <= i <= j < out.len() implies out[i].value
            >= out[j].value by {
            if j == out.len() - 1 && i < j {
                assert(out[i] == inner[i]);
                if inner[i] != layer {
                    assert(shorter.contains(inner[i]));
                    let k = choose|k: int| 0 <= k < shorter.len() && shorter[k] == inner[i];
                    assert(sorted[k].value >= sorted[sorted.len() - 1].value);
                }
            } else if j < out.len() - 1 {
                assert(out[i] == inner[i] && out[j] == inner[j]);
            }
        }
    }
}

/// The sorted list holds as many layers as the list, and its values never
/// rise.
pub proof fn lemma_sort_by_value(layers: Seq<LayerView>)
    ensures
        descending(spec_sort_by_value(layers)),
        spec_sort_by_value(layers).len() == layers.len(),
    decreases layers.len(),
{
    if layers.len() > 0 {
        lemma_sort_by_value(layers.drop_last());
        lemma_insert_by_value(spec_sort_by_value(layers.drop_last()), layers.last());
    }
}

/// Puts `layer` into `sorted` behind the last layer that took at least as
/// long.
fn insert_by_value(sorted: &mut Vec<LayerData>, layer: LayerData)
    ensures
        layer_views(final(sorted)@) == spec_insert_by_value(
            layer_views(old(sorted)@),
            layer_view(layer),
        ),
{
    let ghost before = sorted@;
    let mut p: usize = sorted.len();
    proof {
        assert(before.subrange(0, before.len() as int) =~= before);
        assert(layer_views(before.subrange(before.len() as int, before.len() as int))
            =~= Seq::<LayerView>::empty());
        assert(spec_insert_by_value(layer_views(before), layer_view(layer)) + Seq::<
            LayerView,
        >::empty() =~= spec_insert_by_value(layer_views(before), layer_view(layer)));
    }
    while p > 0 && sorted[p - 1].value < layer.value
        invariant
            p <= sorted@.len(),
            sorted@ == before,
            spec_insert_by_value(layer_views(before), layer_view(layer)) == spec_insert_by_value(
                layer_views(before.subrange(0, p as int)),
                layer_view(layer),
            ) + layer_views(before.subrange(p as int, before.len() as int)),
        decreases p,
    {
        proof {
            let head = layer_views(before.subrange(0, p as int));
            let shorter = layer_views(before.subrange(0, p - 1));
            assert(head.drop_last() =~= shorter);
            assert(head.last() == layer_view(before[p - 1]));
            assert(spec_insert_by_value(head, layer_view(layer)) == spec_insert_by_value(
                shorter,
                layer_view(layer),
            ).push(head.last()));
            assert(seq![head.last()] + layer_views(before.subrange(p as int, before.len() as int))
                =~= layer_views(before.subrange(p - 1, before.len() as int)));
            assert(spec_insert_by_value(shorter, layer_view(layer)).push(head.last()) + layer_views(
                before.subrange(p as int, before.len() as int),
            ) =~= spec_insert_by_value(shorter, layer_view(layer)) + layer_views(
                before.subrange(p - 1, before.len() as int),
            ));
        }
        p -= 1;
    }
    proof {
        let head = layer_views(before.subrange(0, p as int));
        assert(spec_insert_by_value(head, layer_view(layer)) =~= head.push(layer_view(layer))) by {
            if p > 0 {
                assert(head.last() == layer_view(before[p - 1]));
            }
        }
    }
    sorted.insert(p, layer);
    assert(layer_views(sorted@) =~= layer_views(before.subrange(0, p as int)).push(
        layer_view(layer),
    ) + layer_views(before.subrange(p as int, before.len() as int)));
    assert(layer_views(before.subrange(0, 0)) =~= Seq::<LayerView>::empty());
    assert(before.subrange(0, before.len() as int) =~= before);
}

/// `layers` in the order of their values, the greatest first; layers of one
/// value keep their order.
pub fn sort_by_value(layers: Vec<LayerData>) -> (sorted: Vec<LayerData>)
    ensures
        layer_views(sorted@) == spec_sort_by_value(layer_views(layers@)),
{
    let mut rest = layers;
    let mut sorted: Vec<LayerData> = Vec::new();
    let ghost all = rest@;
    let ghost mut taken: int = 0;
    assert(all.subrange(0, 0) =~= Seq::<LayerData>::empty());
    assert(layer_views(sorted@) =~= spec_sort_by_value(layer_views(all.subrange(0, 0))));
    while rest.len() > 0
        invariant
            0 <= taken <= all.len(),
            rest@ == all.subrange(taken, all.len() as int),
            layer_views(sorted@) == spec_sort_by_value(layer_views(all.subrange(0, taken))),
        decreases rest@.len(),
    {
        let layer = rest.remove(0);
        proof {
            let next = layer_views(all.subrange(0, taken + 1));
            assert(layer == all[taken]);
            assert(next.drop_last() =~= layer_views(all.subrange(0, taken)));
            assert(next.last() == layer_view(layer));
            assert(rest@ =~= all.subrange(taken + 1, all.len() as int));
            taken = taken + 1;
        }
        insert_by_value(&mut sorted, layer);
    }
    assert(all.subrange(0, all.len() as int) =~= all);
    sorted
}

/// The layers of the calls `calls`: one for each call, with the layers of
/// the events between its entry and its exit below it.
pub open spec fn spec_root_layers(stats: Seq<EventInformation>, calls: Seq<LatencyView>) -> Seq<
    LayerView,
>
    decreases calls.len(),
{
    if calls.len() == 0 {
        Seq::empty()
    } else {
        let call = calls.last();
        spec_root_layers(stats, calls.drop_last()).push(
            LayerView {
                name: call.event_name,
                value: call.latency,
                children: spec_layers(
                    stats,
                    call.enter_index,
                    call.exit_index,
                    stats[call.enter_index].pid,
                    call.enter_index + 1,
                    Set::empty(),
                ).0,
            },
        )
    }
}

/// The calls of `calls` whose name holds `filter`, or all of them without
/// a filter.
pub open spec fn spec_filter_calls(calls: Seq<LatencyView>, filter: Option<Seq<char>>) -> Seq<
    LatencyView,
>
    decreases calls.len(),
{
    if calls.len() == 0 {
        Seq::empty()
    } else {
        let earlier = spec_filter_calls(calls.drop_last(), filter);
        if filter is None || spec_contains(calls.last().event_name, filter->0) {
            earlier.push(calls.last())
        } else {
            earlier
        }
    }
}

/// The first `count` of `layers` where there are as many, and else all of
/// them.
pub open spec fn spec_top(layers: Seq<LayerView>, count: Option<u64>) -> Seq<LayerView> {
    match count {
        Some(n) => {
            let sorted = spec_sort_by_value(layers);
            if n <= sorted.len() {
                sorted.subrange(0, n as int)
            } else {
                sorted
            }
        },
        None => layers,
    }
}

/// The text of a filter, if there is one.
pub open spec fn filter_view(filter: &Option<String>) -> Option<Seq<char>> {
    match filter {
        Some(f) => Some(f@),
        None => None,
    }
}

impl LatencyData {
    /// Whether the calls can be laid out in layers over the events of
    /// `eventdata`: each call lies inside the trace, and the events up to its
    /// exit can be laid out.
    pub open spec fn can_layer_over(&self, stats: Seq<EventInformation>) -> bool {
        forall|c: int|
            0 <= c < self.stats@.len() ==> (#[trigger] self.stats@[c]).enter_index < stats.len()
                && can_layer(stats, self.stats@[c].exit_index as int)
    }

    /// The outermost layers of a flame graph: one for each call whose name
    /// holds `function_filter`, or for each call without a filter, with the
    /// events of its process between its entry and its exit laid out below
    /// it. With `count_filter` the layers are sorted, the longest first, and
    /// only so many are kept where there are as many.
    pub fn calculate_root_layer_events(
        &self,
        eventdata: &EventData,
        function_filter: Option<String>,
        count_filter: Option<u64>,
    ) -> (base_layer_data: Vec<LayerData>)
        requires
            self.can_layer_over(eventdata.stats@),
        ensures
            layer_views(base_layer_data@) == spec_top(
                spec_root_layers(
                    eventdata.stats@,
                    spec_filter_calls(latency_views(self.stats@), filter_view(&function_filter)),
                ),
                count_filter,
            ),
    {
        let ghost filter = filter_view(&function_filter);
        let ghost stats = eventdata.stats@;
        let mut base_layer_data: Vec<LayerData> = Vec::new();
        let mut c: usize = 0;
        assert(latency_views(self.stats@.subrange(0, 0)) =~= Seq::<LatencyView>::empty());
        assert(layer_views(base_layer_data@) =~= Seq::<LayerView>::empty());
        while c < self.stats.len()
            invariant
                c <= self.stats@.len(),
                stats == eventdata.stats@,
                self.can_layer_over(stats),
                filter == filter_view(&function_filter),
                layer_views(base_layer_data@) == spec_root_layers(
                    stats,
                    spec_filter_calls(latency_views(self.stats@.subrange(0, c as int)), filter),
                ),
            decreases self.stats@.len() - c,
        {
            let stat = &self.stats[c];
            let ghost seen_calls = latency_views(self.stats@.subrange(0, c as int));
            let ghost next_calls = latency_views(self.stats@.subrange(0, c + 1));
            proof {
                assert(next_calls.drop_last() =~= seen_calls);
                assert(next_calls.last() == stat@);
            }
            let keep = match &function_filter {
                Some(f) => contains(stat.event_name.as_str(), f.as_str()),
                None => true,
            };
            if keep {
                let mut layer_data: Vec<LayerData> = Vec::new();
                let mut index_counter: HashSet<usize> = HashSet::new();
                let pid = eventdata.stats[stat.enter_index].pid;
                assert(index_set(index_counter@) =~= Set::<int>::empty());
                eventdata.create_layer(
                    stat.enter_index,
                    stat.exit_index,
                    pid,
                    &mut layer_data,
                    &mut index_counter,
                );
                let data = LayerData {
                    name: stat.event_name.clone(),
                    value: stat.latency,
                    children: layer_data,
                };
                proof {
                    lemma_layer_view(data);
                    let kept = spec_filter_calls(seen_calls, filter);
                    assert(spec_filter_calls(next_calls, filter) == kept.push(stat@));
                    assert(spec_filter_calls(next_calls, filter).drop_last() =~= kept);
                    assert(layer_views(Seq::<LayerData>::empty()) + layer_view(data).children
                        =~= layer_view(data).children);
                    assert(layer_views(base_layer_data@.push(data)) =~= layer_views(
                        base_layer_data@,
                    ).push(layer_view(data)));
                }
                base_layer_data.push(data);
            }
            c += 1;
        }
        assert(self.stats@.subrange(0, c as int) =~= self.stats@);
        if let Some(count_filter) = count_filter {
            base_layer_data = sort_by_value(base_layer_data);
            if count_filter <= base_layer_data.len() as u64 {
                base_layer_data.truncate(count_filter as usize);
                assert(layer_views(base_layer_data@) =~= spec_sort_by_value(
                    spec_root_layers(
                        stats,
                        spec_filter_calls(latency_views(self.stats@), filter),
                    ),
                ).subrange(0, count_filter as int));
            }
        }
        base_layer_data
    }
}

impl EventData {
    /// Whether the events up to `exit_index` can be laid out in layers.
    pub fn is_layerable(&self, exit_index: usize) -> (b: bool)
        ensures
            b == can_layer(self.stats@, exit_index as int),
    {
        if exit_index >= self.stats.len() || !self.is_in_order_of_time() {
            return false;
        }
        let mut i: usize = 0;
        while i < exit_index
            invariant
                i <= exit_index < self.stats@.len(),
                forall|k: int|
                    0 <= k < i ==> spec_syscall_name((#[trigger] self.stats@[k]).name@) is Some,
            decreases exit_index - i,
        {
            if syscall_name(self.stats[i].name.as_str()).is_none() {
                return false;
            }
            i += 1;
        }
        true
    }
}

impl LatencyData {
    /// Whether the calls can be laid out in layers over the events of
    /// `eventdata`.
    pub fn is_layerable_over(&self, eventdata: &EventData) -> (b: bool)
        ensures
            b == self.can_layer_over(eventdata.stats@),
    {
        let mut c: usize = 0;
        while c < self.stats.len()
            invariant
                c <= self.stats@.len(),
                forall|k: int|
                    0 <= k < c ==> (#[trigger] self.stats@[k]).enter_index < eventdata.stats@.len()
                        && can_layer(eventdata.stats@, self.stats@[k].exit_index as int),
            decreases self.stats@.len() - c,
        {
            if self.stats[c].enter_index >= eventdata.stats.len() || !eventdata.is_layerable(
                self.stats[c].exit_index,
            ) {
                return false;
            }
            c += 1;
        }
        true
    }
}

} // verus!
