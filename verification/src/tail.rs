//! The tail loop's decisions. The driver owns the open file and reads it;
//! every read hands an event here, and the returned action says whether to
//! sleep, discard, emit a classified line, or emit a diagnostic and stop.

use vstd::prelude::*;

use crate::logs::{classify_model, read_error_model, classify_line, read_error_message};

verus! {

/// What one read of the tailed file produced.
pub enum TailEvent {
    /// The read returned no new data.
    NoData,
    /// The read returned one appended line.
    Line { text: String },
    /// The read failed, with the I/O error's text.
    ReadFailed { error: String },
}

/// The mathematical model of a tail event.
pub enum TailEventModel {
    NoData,
    Line { text: Seq<char> },
    ReadFailed { error: Seq<char> },
}

impl View for TailEvent {
    type V = TailEventModel;

    open spec fn view(&self) -> TailEventModel {
        match self {
            TailEvent::NoData => TailEventModel::NoData,
            TailEvent::Line { text } => TailEventModel::Line { text: text@ },
            TailEvent::ReadFailed { error } => TailEventModel::ReadFailed { error: error@ },
        }
    }
}

/// What the loop does in response to one event.
pub enum TailAction {
    /// Wait one polling interval, then read again.
    Sleep,
    /// Discard the line and read again.
    Skip,
    /// Deliver `line` to the subscriber, then read again.
    Emit { line: String },
    /// Deliver `diagnostic`, then terminate the loop for good.
    Stop { diagnostic: String },
}

/// The mathematical model of a tail action.
pub enum TailActionModel {
    Sleep,
    Skip,
    Emit { line: Seq<char> },
    Stop { diagnostic: Seq<char> },
}

impl View for TailAction {
    type V = TailActionModel;

    open spec fn view(&self) -> TailActionModel {
        match self {
            TailAction::Sleep => TailActionModel::Sleep,
            TailAction::Skip => TailActionModel::Skip,
            TailAction::Emit { line } => TailActionModel::Emit { line: line@ },
            TailAction::Stop { diagnostic } => TailActionModel::Stop { diagnostic: diagnostic@ },
        }
    }
}

/// The loop's decision on one event: no data means sleep and poll again; a
/// line is emitted exactly when its classification keeps it; a read failure
/// emits its diagnostic and terminates.
pub open spec fn tail_step_model(ev: TailEventModel) -> TailActionModel {
    match ev {
        TailEventModel::NoData => TailActionModel::Sleep,
        TailEventModel::Line { text } => match classify_model(text) {
            Some(line) => TailActionModel::Emit { line },
            None => TailActionModel::Skip,
        },
        TailEventModel::ReadFailed { error } => TailActionModel::Stop {
            diagnostic: read_error_model(error),
        },
    }
}

/// Decides the loop's next action from one read event.
pub fn tail_step(event: TailEvent) -> (a: TailAction)
    ensures
        a@ == tail_step_model(event@),
{
    match event {
        TailEvent::NoData => TailAction::Sleep,
        TailEvent::Line { text } => match classify_line(text.as_str()) {
            Some(line) => TailAction::Emit { line },
            None => TailAction::Skip,
        },
        TailEvent::ReadFailed { error } => TailAction::Stop {
            diagnostic: read_error_message(error.as_str()),
        },
    }
}

/// The models of a sequence of tail events.
pub open spec fn event_models(s: Seq<TailEvent>) -> Seq<TailEventModel> {
    s.map_values(|e: TailEvent| e@)
}

/// The views of a sequence of strings.
pub open spec fn string_models(s: Seq<String>) -> Seq<Seq<char>> {
    s.map_values(|x: String| x@)
}

/// Everything the loop emits over a sequence of read events: each kept
/// line in order, cut off at the first read failure, whose diagnostic is
/// the final emission.
pub open spec fn tail_emissions(evs: Seq<TailEventModel>) -> Seq<Seq<char>>
    decreases evs.len(),
{
    if evs.len() == 0 {
        Seq::empty()
    } else {
        match tail_step_model(evs[0]) {
            TailActionModel::Emit { line } => seq![line] + tail_emissions(evs.drop_first()),
            TailActionModel::Stop { diagnostic } => seq![diagnostic],
            _ => tail_emissions(evs.drop_first()),
        }
    }
}

/// Runs the loop's decisions over a pre-collected sequence of events and
/// collects what is emitted, stopping at the first read failure.
pub fn run_tail(events: Vec<TailEvent>) -> (out: Vec<String>)
    ensures
        string_models(out@) == tail_emissions(event_models(events@)),
{
    let ghost all = event_models(events@);
    let mut out: Vec<String> = Vec::new();
    let mut rest = events;
    loop
        invariant
            tail_emissions(all) == string_models(out@) + tail_emissions(event_models(rest@)),
        ensures
            tail_emissions(all) == string_models(out@) + tail_emissions(event_models(rest@)),
            rest@.len() == 0,
        decreases rest@.len(),
    {
        if rest.len() == 0 {
            break;
        }
        let ghost prev = rest@;
        let ghost prev_out = out@;
        let ev = rest.remove(0);
        proof {
            assert(event_models(rest@) =~= event_models(prev).drop_first());
            assert(ev@ == event_models(prev)[0]);
        }
        match tail_step(ev) {
            TailAction::Sleep => {},
            TailAction::Skip => {},
            TailAction::Emit { line } => {
                out.push(line);
                proof {
                    assert(string_models(out@) =~= string_models(prev_out).push(line@));
                    assert(string_models(prev_out) + seq![line@] + tail_emissions(
                        event_models(rest@),
                    ) =~= string_models(out@) + tail_emissions(event_models(rest@)));
                }
            },
            TailAction::Stop { diagnostic } => {
                out.push(diagnostic);
                proof {
                    assert(string_models(out@) =~= string_models(prev_out).push(diagnostic@));
                    assert(tail_emissions(all) =~= string_models(out@));
                }
                rest.clear();
                proof {
                    assert(event_models(rest@) =~= Seq::<TailEventModel>::empty());
                }
                break;
            },
        }
    }
    proof {
        assert(event_models(rest@) =~= Seq::<TailEventModel>::empty());
        assert(string_models(out@) + tail_emissions(event_models(rest@)) =~= string_models(out@));
    }
    out
}

/// Once a read fails, the loop is over: every event after the first read
/// failure contributes nothing to what is emitted.
pub proof fn lemma_no_emission_after_read_failure(evs: Seq<TailEventModel>, k: int)
    requires
        0 <= k < evs.len(),
        evs[k] is ReadFailed,
        forall|j: int| 0 <= j < k ==> !(evs[j] is ReadFailed),
    ensures
        tail_emissions(evs) == tail_emissions(evs.take(k + 1)),
    decreases k,
{
    let cut = evs.take(k + 1);
    assert(cut[0] == evs[0]);
    if k == 0 {
        assert(evs[0] is ReadFailed);
    } else {
        assert(!(evs[0] is ReadFailed));
        let rest = evs.drop_first();
        assert(cut.drop_first() =~= rest.take(k));
        assert(forall|j: int| 0 <= j < k - 1 ==> rest[j] == evs[j + 1]);
        assert(rest[k - 1] == evs[k]);
        lemma_no_emission_after_read_failure(rest, k - 1);
    }
}

} // verus!
