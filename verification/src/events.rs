//! The merged event stream's vocabulary, and the input loop's per-iteration
//! decision: which of the four raced conditions was serviced and what single
//! event, if any, it enqueues.

use vstd::prelude::*;
use crate::metrics::DataCollected;

verus! {

/// A decoded key press or release.
#[derive(Clone, Copy, PartialEq, Eq, Structural, Debug)]
pub struct KeyInput {
    pub code: u32,
    pub modifiers: u8,
    pub is_press: bool,
}

/// A decoded mouse action at a cell position.
#[derive(Clone, Copy, PartialEq, Eq, Structural, Debug)]
pub struct MouseInput {
    pub kind: u8,
    pub column: u16,
    pub row: u16,
    pub modifiers: u8,
}

/// A raw terminal event, already decoded into plain values.
#[derive(Clone, Debug)]
pub enum RawInput {
    Key(KeyInput),
    Mouse(MouseInput),
    Resize(u16, u16),
    FocusGained,
    FocusLost,
    Paste(String),
}

/// What one poll of the raw input source yielded: an event, a decode
/// failure, or the end of the source.
#[derive(Clone, Debug)]
pub enum RawPoll {
    Input(RawInput),
    Failed,
    Exhausted,
}

/// One entry of the merged stream. Exactly one variant per queue entry.
#[derive(Clone, Debug)]
pub enum Event {
    Init,
    Quit,
    Error,
    Closed,
    Tick,
    Render,
    FocusGained,
    FocusLost,
    Paste(String),
    Key(KeyInput),
    Mouse(MouseInput),
    Resize(u16, u16),
    DataUpdate(Box<DataCollected>),
}

/// Which of the input loop's four raced conditions won one iteration.
#[derive(Clone, Debug)]
pub enum InputBranch {
    Cancelled,
    Raw(RawPoll),
    TickFired,
    RenderFired,
}

/// What the iteration does for the winning branch: leave the loop, enqueue
/// one event, or go round again without enqueuing.
#[derive(Clone, Debug)]
pub enum InputStep {
    Stop,
    Emit(Event),
    Continue,
}

/// The input loop's decision table. Cancellation stops the loop; a decode
/// failure surfaces as an `Error` event; a key event is forwarded only when
/// it is a press; timers enqueue their own marker events.
pub open spec fn input_step_spec(b: InputBranch) -> InputStep {
    match b {
        InputBranch::Cancelled => InputStep::Stop,
        InputBranch::TickFired => InputStep::Emit(Event::Tick),
        InputBranch::RenderFired => InputStep::Emit(Event::Render),
        InputBranch::Raw(poll) => match poll {
            RawPoll::Exhausted => InputStep::Continue,
            RawPoll::Failed => InputStep::Emit(Event::Error),
            RawPoll::Input(raw) => match raw {
                RawInput::Key(k) => if k.is_press {
                    InputStep::Emit(Event::Key(k))
                } else {
                    InputStep::Continue
                },
                RawInput::Mouse(m) => InputStep::Emit(Event::Mouse(m)),
                RawInput::Resize(cols, rows) => InputStep::Emit(Event::Resize(cols, rows)),
                RawInput::FocusGained => InputStep::Emit(Event::FocusGained),
                RawInput::FocusLost => InputStep::Emit(Event::FocusLost),
                RawInput::Paste(text) => InputStep::Emit(Event::Paste(text)),
            },
        },
    }
}

/// Decide one iteration of the input loop.
pub fn input_step(b: InputBranch) -> (s: InputStep)
    ensures
        s == input_step_spec(b),
{
    match b {
        InputBranch::Cancelled => InputStep::Stop,
        InputBranch::TickFired => InputStep::Emit(Event::Tick),
        InputBranch::RenderFired => InputStep::Emit(Event::Render),
        InputBranch::Raw(poll) => match poll {
            RawPoll::Exhausted => InputStep::Continue,
            RawPoll::Failed => InputStep::Emit(Event::Error),
            RawPoll::Input(raw) => match raw {
                RawInput::Key(k) => if k.is_press {
                    InputStep::Emit(Event::Key(k))
                } else {
                    InputStep::Continue
                },
                RawInput::Mouse(m) => InputStep::Emit(Event::Mouse(m)),
                RawInput::Resize(cols, rows) => InputStep::Emit(Event::Resize(cols, rows)),
                RawInput::FocusGained => InputStep::Emit(Event::FocusGained),
                RawInput::FocusLost => InputStep::Emit(Event::FocusLost),
                RawInput::Paste(text) => InputStep::Emit(Event::Paste(text)),
            },
        },
    }
}

/// The events the input loop enqueues, in order, for a run of branch
/// outcomes; the run ends early at the first cancellation.
pub open spec fn input_emissions(bs: Seq<InputBranch>) -> Seq<Event>
    decreases bs.len(),
{
    if bs.len() == 0 {
        Seq::<Event>::empty()
    } else {
        match input_step_spec(bs[0]) {
            InputStep::Stop => Seq::<Event>::empty(),
            InputStep::Emit(e) => seq![e] + input_emissions(bs.skip(1)),
            InputStep::Continue => input_emissions(bs.skip(1)),
        }
    }
}

/// How many events the first `n` branches of a run enqueue.
pub open spec fn emitted_count(bs: Seq<InputBranch>, n: int) -> int
    decreases bs.len(),
{
    if n <= 0 || bs.len() == 0 {
        0
    } else {
        (match input_step_spec(bs[0]) {
            InputStep::Emit(_) => 1int,
            _ => 0int,
        }) + emitted_count(bs.skip(1), n - 1)
    }
}

/// If no branch before `n` is a cancellation and branch `n` emits `e`, then
/// `e` stands in the emitted sequence exactly at position
/// `emitted_count(bs, n)`.
proof fn lemma_emitted_at(bs: Seq<InputBranch>, n: int, e: Event)
    requires
        0 <= n < bs.len(),
        forall|k: int| 0 <= k < n ==> !(#[trigger] bs[k] is Cancelled),
        input_step_spec(bs[n]) == InputStep::Emit(e),
    ensures
        0 <= emitted_count(bs, n) < input_emissions(bs).len(),
        input_emissions(bs)[emitted_count(bs, n)] == e,
    decreases n,
{
    lemma_emitted_count_nondecreasing(bs, 0, n);
    if n == 0 {
        assert(input_emissions(bs)[0] == e);
    } else {
        let tail = bs.skip(1);
        assert(forall|k: int| 0 <= k < n - 1 ==> #[trigger] tail[k] == bs[k + 1]);
        assert(tail[n - 1] == bs[n]);
        lemma_emitted_at(tail, n - 1, e);
        match input_step_spec(bs[0]) {
            InputStep::Stop => {
                assert(bs[0] is Cancelled);
            },
            InputStep::Emit(e0) => {
                assert(emitted_count(bs, n) == 1 + emitted_count(tail, n - 1));
                assert(input_emissions(bs)[emitted_count(bs, n)] == input_emissions(
                    tail,
                )[emitted_count(tail, n - 1)]);
            },
            InputStep::Continue => {
                assert(emitted_count(bs, n) == emitted_count(tail, n - 1));
            },
        }
    }
}

proof fn lemma_emitted_count_step(bs: Seq<InputBranch>, n: int)
    requires
        0 <= n < bs.len(),
    ensures
        emitted_count(bs, n + 1) == emitted_count(bs, n) + (match input_step_spec(bs[n]) {
            InputStep::Emit(_) => 1int,
            _ => 0int,
        }),
    decreases n,
{
    let tail = bs.skip(1);
    let c0 = (match input_step_spec(bs[0]) {
        InputStep::Emit(_) => 1int,
        _ => 0int,
    });
    assert(emitted_count(bs, n + 1) == c0 + emitted_count(tail, n));
    if n > 0 {
        assert(emitted_count(bs, n) == c0 + emitted_count(tail, n - 1));
        assert(tail[n - 1] == bs[n]);
        lemma_emitted_count_step(tail, n - 1);
    } else {
        assert(emitted_count(bs, n) == 0);
        assert(emitted_count(tail, 0) == 0);
    }
}

proof fn lemma_emitted_count_nondecreasing(bs: Seq<InputBranch>, a: int, b: int)
    requires
        0 <= a <= b,
    ensures
        emitted_count(bs, a) <= emitted_count(bs, b),
    decreases b - a,
{
    if a < b {
        lemma_emitted_count_nondecreasing(bs, a, b - 1);
        if b - 1 < bs.len() {
            lemma_emitted_count_step(bs, b - 1);
        } else {
            lemma_emitted_count_saturates(bs, b - 1);
        }
    }
}

proof fn lemma_emitted_count_saturates(bs: Seq<InputBranch>, n: int)
    requires
        n >= bs.len(),
    ensures
        emitted_count(bs, n + 1) == emitted_count(bs, n),
    decreases bs.len(),
{
    if bs.len() > 0 && n >= 1 {
        lemma_emitted_count_saturates(bs.skip(1), n - 1);
    }
}

/// Ordering-within-a-producer law: if, in one run of the input loop, the
/// tick timer's branch is serviced strictly before the render timer's
/// branch and the loop is not cancelled up to that point, then that
/// iteration's `Tick` stands in the enqueued sequence strictly before that
/// iteration's `Render` — at positions `emitted_count(bs, i)` and
/// `emitted_count(bs, j)` exactly. The queue itself is insertion-ordered, so
/// the consumer observes them in the same order.
pub proof fn lemma_same_producer_order(bs: Seq<InputBranch>, i: int, j: int)
    requires
        0 <= i < j < bs.len(),
        bs[i] is TickFired,
        bs[j] is RenderFired,
        forall|k: int| 0 <= k < j ==> !(#[trigger] bs[k] is Cancelled),
    ensures
        0 <= emitted_count(bs, i) < emitted_count(bs, j) < input_emissions(bs).len(),
        input_emissions(bs)[emitted_count(bs, i)] == Event::Tick,
        input_emissions(bs)[emitted_count(bs, j)] == Event::Render,
{
    lemma_emitted_at(bs, i, Event::Tick);
    lemma_emitted_at(bs, j, Event::Render);
    lemma_emitted_count_step(bs, i);
    lemma_emitted_count_nondecreasing(bs, i + 1, j);
}

} // verus!
