//! Paged reads of a session's event log.
//!
//! Sequences count from one, so a read from the start names no sequence at
//! all. A page that holds fewer entries than the limit is the last one.

use vstd::prelude::*;

use crate::devicerail::wire::{LogEvent, LogPayload, WireActionOutcome};
use crate::text::same_text;

verus! {

/// How many entries a page holds at most, which is what the daemon allows.
pub const SCAN_PAGE_LIMIT: u32 = 1000;

/// The greatest sequence: the greatest integer that every JSON reader holds
/// exactly.
pub const MAX_SEQUENCE: u64 = 9_007_199_254_740_991;

/// `EventSequence::new` of `devicerail-client`: a number from one to the
/// greatest exact JSON integer is a sequence, and any other is none.
#[verifier::external_body]
fn event_sequence(value: u64) -> (r: Option<u64>)
    ensures
        r == (if 0 < value <= MAX_SEQUENCE {
            Some(value)
        } else {
            None
        }),
{
    match devicerail_client::protocol::EventSequence::new(value) {
        Some(sequence) => Some(sequence.get()),
        None => None,
    }
}

/// The sequence after which a read that has consumed `last` goes on.
pub open spec fn floor_of(last: u64) -> Option<u64> {
    if 0 < last <= MAX_SEQUENCE {
        Some(last)
    } else {
        None
    }
}

/// The sequence after which a read that has consumed `last` goes on.
pub fn floor_after(last: u64) -> (r: Option<u64>)
    ensures
        r == floor_of(last),
{
    event_sequence(last)
}

/// What the log says of one action.
#[derive(Debug, PartialEq, Eq)]
pub enum CallFate {
    /// It reached this terminal.
    Completed(WireActionOutcome),
    /// It started, and no terminal is on record.
    StartedNoTerminal,
    /// There is no trace of it.
    NoTrace,
}

/// Whether an entry says that the action started.
pub open spec fn starts(event: LogEvent, call_id: Seq<char>) -> bool {
    event.payload matches LogPayload::ActionStarted { call_id: id } && id@ == call_id
}

/// The terminal of the action, if the entry holds it.
pub open spec fn terminal_in(event: LogEvent, call_id: Seq<char>) -> Option<WireActionOutcome> {
    match event.payload {
        LogPayload::ActionCompleted { call_id: id, outcome } => if id@ == call_id {
            Some(outcome)
        } else {
            None
        },
        _ => None,
    }
}

/// The first terminal of the action in the log.
pub open spec fn first_terminal(events: Seq<LogEvent>, call_id: Seq<char>) -> Option<
    WireActionOutcome,
>
    decreases events.len(),
{
    if events.len() == 0 {
        None
    } else {
        match first_terminal(events.drop_last(), call_id) {
            Some(outcome) => Some(outcome),
            None => terminal_in(events.last(), call_id),
        }
    }
}

/// Whether the log says that the action started.
pub open spec fn has_start(events: Seq<LogEvent>, call_id: Seq<char>) -> bool {
    exists|i: int| 0 <= i < events.len() && #[trigger] starts(events[i], call_id)
}

/// What a whole log says of an action: its first terminal, else whether it
/// started.
pub open spec fn fate_of(events: Seq<LogEvent>, call_id: Seq<char>) -> CallFate {
    match first_terminal(events, call_id) {
        Some(outcome) => CallFate::Completed(outcome),
        None => if has_start(events, call_id) {
            CallFate::StartedNoTerminal
        } else {
            CallFate::NoTrace
        },
    }
}

/// A search for one action, page by page.
#[derive(Debug, PartialEq, Eq)]
pub struct CallScan {
    /// Action id.
    pub call_id: String,
    /// The sequence after which the next page starts.
    pub after: Option<u64>,
    /// Whether a start has been seen.
    pub started: bool,
}

/// What a page made of a search.
#[derive(Debug, PartialEq, Eq)]
pub enum ScanStep {
    /// The search is over.
    Done(CallFate),
    /// The next page is needed.
    More(CallScan),
}

/// Whether a page is the last one.
pub open spec fn is_last_page(page: Seq<LogEvent>) -> bool {
    page.len() < SCAN_PAGE_LIMIT
}

/// The sequence after which a read goes on once it has this page.
pub open spec fn after_page(after: Option<u64>, page: Seq<LogEvent>) -> Option<u64> {
    if page.len() == 0 {
        after
    } else {
        Some(page.last().sequence)
    }
}

/// What a page makes of a search that has or has not seen a start.
pub open spec fn scan_page(started: bool, page: Seq<LogEvent>, call_id: Seq<char>) -> Option<
    CallFate,
> {
    match first_terminal(page, call_id) {
        Some(outcome) => Some(CallFate::Completed(outcome)),
        None => if !is_last_page(page) {
            None
        } else if started || has_start(page, call_id) {
            Some(CallFate::StartedNoTerminal)
        } else {
            Some(CallFate::NoTrace)
        },
    }
}

/// A page goes before the rest of the log.
proof fn lemma_first_terminal_prefix(a: Seq<LogEvent>, b: Seq<LogEvent>, call_id: Seq<char>)
    ensures
        first_terminal(a + b, call_id) == (match first_terminal(a, call_id) {
            Some(outcome) => Some(outcome),
            None => first_terminal(b, call_id),
        }),
    decreases b.len(),
{
    if b.len() == 0 {
        assert(a + b =~= a);
    } else {
        lemma_first_terminal_prefix(a, b.drop_last(), call_id);
        assert((a + b).drop_last() =~= a + b.drop_last());
        assert((a + b).last() == b.last());
    }
}

proof fn lemma_start_prefix(a: Seq<LogEvent>, b: Seq<LogEvent>, call_id: Seq<char>)
    ensures
        has_start(a + b, call_id) == (has_start(a, call_id) || has_start(b, call_id)),
{
    let all = a + b;
    if has_start(a, call_id) {
        let i = choose|i: int| 0 <= i < a.len() && #[trigger] starts(a[i], call_id);
        assert(starts(all[i], call_id));
    }
    if has_start(b, call_id) {
        let i = choose|i: int| 0 <= i < b.len() && #[trigger] starts(b[i], call_id);
        assert(starts(all[a.len() + i], call_id));
    }
    if has_start(all, call_id) {
        let i = choose|i: int| 0 <= i < all.len() && #[trigger] starts(all[i], call_id);
        if i < a.len() {
            assert(starts(a[i], call_id));
        } else {
            assert(starts(b[i - a.len()], call_id));
        }
    }
}

impl CallScan {
    /// A search that goes on after `floor`.
    pub fn begin(call_id: String, floor: Option<u64>) -> (r: CallScan)
        ensures
            r == (CallScan { call_id, after: floor, started: false }),
    {
        CallScan { call_id, after: floor, started: false }
    }

    /// Takes the next page: a terminal ends the search, and so does the last
    /// page.
    pub fn take_page(self, page: Vec<LogEvent>) -> (r: ScanStep)
        ensures
            r == (match scan_page(self.started, page@, self.call_id@) {
                Some(fate) => ScanStep::Done(fate),
                None => ScanStep::More(
                    CallScan {
                        after: after_page(self.after, page@),
                        started: self.started || has_start(page@, self.call_id@),
                        ..self
                    },
                ),
            }),
    {
        let ghost all = page@;
        let ghost id = self.call_id@;
        let mut entries = page;
        let mut started = self.started;
        let mut after = self.after;
        let mut i: usize = 0;
        assert(all.take(0) =~= Seq::empty());
        while i < entries.len()
            invariant
                id == self.call_id@,
                all == page@,
                entries@ == all,
                i <= all.len(),
                first_terminal(all.take(i as int), id) is None,
                started == (self.started || has_start(all.take(i as int), id)),
                after == after_page(self.after, all.take(i as int)),
            decreases all.len() - i,
        {
            let ghost event = all[i as int];
            proof {
                assert(all.take(i + 1).drop_last() =~= all.take(i as int));
                assert(all.take(i + 1) =~= all.take(i as int) + seq![event]);
                lemma_start_prefix(all.take(i as int), seq![event], id);
                lemma_first_terminal_prefix(all.take(i + 1), all.skip(i + 1), id);
                assert(all.take(i + 1) + all.skip(i + 1) =~= all);
                assert(seq![event][0] == event);
                if starts(event, id) {
                    assert(has_start(seq![event], id));
                }
            }
            let completes = match &entries[i].payload {
                LogPayload::ActionStarted { call_id } => {
                    if same_text(call_id.as_str(), self.call_id.as_str()) {
                        started = true;
                    }
                    false
                },
                LogPayload::ActionCompleted { call_id, outcome: _ } => same_text(
                    call_id.as_str(),
                    self.call_id.as_str(),
                ),
                LogPayload::Other => false,
            };
            if completes {
                match entries.remove(i).payload {
                    LogPayload::ActionCompleted { call_id: _, outcome } => {
                        return ScanStep::Done(CallFate::Completed(outcome));
                    },
                    _ => {
                        vstd::pervasive::unreached::<()>()
                    },
                }
            }
            after = Some(entries[i].sequence);
            i = i + 1;
        }
        let full = entries.len() >= SCAN_PAGE_LIMIT as usize;
        assert(all.take(i as int) =~= all);
        if full {
            ScanStep::More(CallScan { call_id: self.call_id, after, started })
        } else if started {
            ScanStep::Done(CallFate::StartedNoTerminal)
        } else {
            ScanStep::Done(CallFate::NoTrace)
        }
    }
}

/// The whole log that a list of pages makes up.
pub open spec fn log_of(pages: Seq<Seq<LogEvent>>) -> Seq<LogEvent>
    decreases pages.len(),
{
    if pages.len() == 0 {
        Seq::empty()
    } else {
        pages.first() + log_of(pages.skip(1))
    }
}

/// Whether pages follow one another to the end of the log: each is full but
/// for the last one.
pub open spec fn reaches_the_end(pages: Seq<Seq<LogEvent>>) -> bool {
    &&& pages.len() > 0
    &&& is_last_page(pages.last())
    &&& forall|i: int| 0 <= i < pages.len() - 1 ==> !is_last_page(#[trigger] pages[i])
}

/// What a search makes of a list of pages, one after the other.
pub open spec fn scan_pages(started: bool, pages: Seq<Seq<LogEvent>>, call_id: Seq<char>) -> Option<
    CallFate,
>
    decreases pages.len(),
{
    if pages.len() == 0 {
        None
    } else {
        match scan_page(started, pages.first(), call_id) {
            Some(fate) => Some(fate),
            None => scan_pages(
                started || has_start(pages.first(), call_id),
                pages.skip(1),
                call_id,
            ),
        }
    }
}

proof fn lemma_pages(started: bool, pages: Seq<Seq<LogEvent>>, call_id: Seq<char>)
    requires
        reaches_the_end(pages),
    ensures
        scan_pages(started, pages, call_id) == Some(
            match first_terminal(log_of(pages), call_id) {
                Some(outcome) => CallFate::Completed(outcome),
                None => if started || has_start(log_of(pages), call_id) {
                    CallFate::StartedNoTerminal
                } else {
                    CallFate::NoTrace
                },
            },
        ),
    decreases pages.len(),
{
    let page = pages.first();
    let rest = pages.skip(1);
    lemma_first_terminal_prefix(page, log_of(rest), call_id);
    lemma_start_prefix(page, log_of(rest), call_id);
    if rest.len() == 0 {
        assert(page + log_of(rest) =~= page);
    } else {
        assert(!is_last_page(pages[0]));
        assert(rest.last() == pages.last());
        assert forall|i: int| 0 <= i < rest.len() - 1 implies !is_last_page(#[trigger] rest[i]) by {
            assert(rest[i] == pages[i + 1]);
        }
        lemma_pages(started || has_start(page, call_id), rest, call_id);
    }
}

/// A search over pages that reach the end of the log tells what the whole log
/// says of the action: the first terminal unchanged, and no trace only where
/// there is none.
pub proof fn law_scan_tells_the_fate(pages: Seq<Seq<LogEvent>>, call_id: Seq<char>)
    requires
        reaches_the_end(pages),
    ensures
        scan_pages(false, pages, call_id) == Some(fate_of(log_of(pages), call_id)),
{
    lemma_pages(false, pages, call_id);
}

/// Without a trace no entry names the action.
pub proof fn law_no_trace_means_no_entry(events: Seq<LogEvent>, call_id: Seq<char>, i: int)
    requires
        fate_of(events, call_id) == CallFate::NoTrace,
        0 <= i < events.len(),
    ensures
        !starts(events[i], call_id),
        terminal_in(events[i], call_id) is None,
    decreases events.len(),
{
    if i < events.len() - 1 {
        assert(events.drop_last()[i] == events[i]);
        assert(!has_start(events.drop_last(), call_id)) by {
            lemma_start_prefix(events.drop_last(), seq![events.last()], call_id);
            assert(events.drop_last() + seq![events.last()] =~= events);
        }
        law_no_trace_means_no_entry(events.drop_last(), call_id, i);
    }
}

/// What a page made of a read to the end of the log.
#[derive(Debug, PartialEq, Eq)]
pub enum CursorStep {
    /// The end is reached; the latest sequence.
    Done(Option<u64>),
    /// The next page starts after this sequence.
    More(Option<u64>),
}

/// The highest sequence of `after` and the events of a page.
pub open spec fn highest(after: Option<u64>, page: Seq<LogEvent>) -> Option<u64>
    decreases page.len(),
{
    if page.len() == 0 {
        after
    } else {
        match highest(after, page.drop_last()) {
            Some(seen) if seen > page.last().sequence => Some(seen),
            _ => Some(page.last().sequence),
        }
    }
}

/// Takes the next page of a read to the end of the log: the highest sequence
/// that was seen goes on.
pub fn latest_sequence(after: Option<u64>, page: &Vec<LogEvent>) -> (r: CursorStep)
    ensures
        r == (if is_last_page(page@) {
            CursorStep::Done(highest(after, page@))
        } else {
            CursorStep::More(highest(after, page@))
        }),
{
    let mut latest = after;
    let mut i: usize = 0;
    assert(page@.take(0) =~= Seq::empty());
    while i < page.len()
        invariant
            i <= page@.len(),
            latest == highest(after, page@.take(i as int)),
        decreases page@.len() - i,
    {
        assert(page@.take(i + 1).drop_last() =~= page@.take(i as int));
        let sequence: u64 = page[i].sequence;
        latest =
        match latest {
            Some(seen) if seen > sequence => Some(seen),
            _ => Some(sequence),
        };
        i = i + 1;
    }
    assert(page@.take(i as int) =~= page@);
    if page.len() < SCAN_PAGE_LIMIT as usize {
        CursorStep::Done(latest)
    } else {
        CursorStep::More(latest)
    }
}

/// The highest sequence of a list of pages, read after `after`.
pub open spec fn latest_after(after: Option<u64>, pages: Seq<Seq<LogEvent>>) -> Option<u64>
    decreases pages.len(),
{
    if pages.len() == 0 {
        after
    } else {
        latest_after(highest(after, pages.first()), pages.skip(1))
    }
}

proof fn lemma_highest_joined(after: Option<u64>, a: Seq<LogEvent>, b: Seq<LogEvent>)
    ensures
        highest(after, a + b) == highest(highest(after, a), b),
    decreases b.len(),
{
    if b.len() == 0 {
        assert(a + b =~= a);
    } else {
        lemma_highest_joined(after, a, b.drop_last());
        assert((a + b).drop_last() =~= a + b.drop_last());
        assert((a + b).last() == b.last());
    }
}

/// A read to the end gives the highest sequence of the whole log, or stays
/// where it was when there is none.
pub proof fn law_latest_is_the_highest(after: Option<u64>, pages: Seq<Seq<LogEvent>>)
    ensures
        latest_after(after, pages) == highest(after, log_of(pages)),
    decreases pages.len(),
{
    if pages.len() > 0 {
        law_latest_is_the_highest(highest(after, pages.first()), pages.skip(1));
        lemma_highest_joined(after, pages.first(), log_of(pages.skip(1)));
    }
}

/// The highest sequence is one of those that were seen, and none of them is
/// higher.
pub proof fn law_highest_bounds_the_log(after: Option<u64>, events: Seq<LogEvent>)
    ensures
        highest(after, events) is None <==> after is None && events.len() == 0,
        after matches Some(from) ==> highest(after, events) matches Some(h) && h >= from,
        forall|i: int|
            0 <= i < events.len() ==> (highest(after, events) matches Some(h) && h >= (
            #[trigger] events[i]).sequence),
        highest(after, events) == after || exists|i: int|
            0 <= i < events.len() && highest(after, events) == Some(
                (#[trigger] events[i]).sequence,
            ),
    decreases events.len(),
{
    if events.len() > 0 {
        let front = events.drop_last();
        law_highest_bounds_the_log(after, front);
        assert(forall|i: int| 0 <= i < front.len() ==> #[trigger] front[i] == events[i]);
        assert forall|i: int| 0 <= i < events.len() implies (highest(after, events) matches Some(h)
            && h >= (#[trigger] events[i]).sequence) by {
            if i < front.len() {
                assert(front[i] == events[i]);
            }
        }
        if highest(after, events) == Some(events.last().sequence) {
            assert(events[events.len() - 1].sequence == events.last().sequence);
        } else if highest(after, front) != after {
            let i = choose|i: int|
                0 <= i < front.len() && highest(after, front) == Some(
                    (#[trigger] front[i]).sequence,
                );
            assert(front[i] == events[i]);
        }
    }
}

} // verus!
