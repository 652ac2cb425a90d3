//! The log of server events that the terminal shows.

use std::collections::VecDeque;

use vstd::prelude::*;

verus! {

/// How many events the log keeps.
pub const MAX_EVENTS: usize = 32;

/// The latest server events, the oldest first.
pub struct TuiEvents {
    events: VecDeque<String>,
}

/// The last entries of a log, as many as it keeps.
pub open spec fn latest(entries: Seq<Seq<char>>) -> Seq<Seq<char>> {
    if entries.len() <= MAX_EVENTS {
        entries
    } else {
        entries.subrange(entries.len() - MAX_EVENTS, entries.len() as int)
    }
}

/// Lines of text with a line break between any two.
pub open spec fn joined(lines: Seq<Seq<char>>) -> Seq<char>
    decreases lines.len(),
{
    if lines.len() == 0 {
        Seq::empty()
    } else if lines.len() == 1 {
        lines[0]
    } else {
        joined(lines.drop_last()) + "\n"@ + lines.last()
    }
}

/// A log as one text, an event to a line, or a note that there is none.
pub open spec fn events_shown(events: Seq<Seq<char>>) -> Seq<char> {
    if events.len() == 0 {
        "No events yet"@
    } else {
        joined(events)
    }
}

impl View for TuiEvents {
    type V = Seq<Seq<char>>;

    closed spec fn view(&self) -> Seq<Seq<char>> {
        self.events@.map_values(|event: String| event@)
    }
}

impl TuiEvents {
    /// The log never exceeds its bound.
    pub open spec fn wf(self) -> bool {
        self@.len() <= MAX_EVENTS
    }

    /// An empty log.
    pub fn new() -> (log: TuiEvents)
        ensures
            log@ == Seq::<Seq<char>>::empty(),
            log.wf(),
    {
        let log = TuiEvents { events: VecDeque::new() };
        assert(log@ =~= Seq::<Seq<char>>::empty());
        log
    }

    /// Adds an event and lets the oldest ones go that no longer fit.
    pub fn tui_event(&mut self, message: String)
        ensures
            final(self)@ == latest(old(self)@.push(message@)),
            final(self).wf(),
    {
        self.events.push_back(message);
        let ghost all = self@;
        assert(all =~= old(self)@.push(message@));
        while self.events.len() > MAX_EVENTS
            invariant
                self@.len() <= all.len(),
                self@ =~= all.subrange(all.len() - self@.len(), all.len() as int),
                all.len() > MAX_EVENTS ==> self@.len() >= MAX_EVENTS,
                all.len() <= MAX_EVENTS ==> self@.len() == all.len(),
            decreases self.events@.len(),
        {
            let ghost before = self@;
            let _ = self.events.pop_front();
            assert(self@ =~= before.subrange(1, before.len() as int));
        }
    }

    /// The log as one text, an event to a line, or a note that there is none.
    pub fn text(&self) -> (text: String)
        ensures
            text@ == events_shown(self@),
    {
        if self.events.len() == 0 {
            return "No events yet".to_owned();
        }
        let mut text = String::new();
        let mut i: usize = 0;
        while i < self.events.len()
            invariant
                i <= self.events@.len(),
                self@.len() == self.events@.len(),
                text@ == joined(self@.take(i as int)),
            decreases self.events@.len() - i,
        {
            if i > 0 {
                text.append("\n");
            }
            text.append(self.events[i].as_str());
            proof {
                let next = self@.take(i + 1);
                assert(next.drop_last() =~= self@.take(i as int));
                assert(next.last() == self.events@[i as int]@);
                assert(text@ =~= joined(next));
            }
            i += 1;
        }
        assert(self@.take(i as int) =~= self@);
        text
    }
}

} // verus!
