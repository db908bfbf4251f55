//! The step bar of a document's detail page: each step done, current or
//! still to come, and the line before each step drawn as completed or not.
use vstd::prelude::*;

verus! {

/// How one step of the bar is drawn.
#[derive(PartialEq, Eq, Structural, Clone, Copy, Debug)]
pub enum StepState {
    Done,
    Current,
    Todo,
    /// Greyed out: the document left the flow (cancelled or expired).
    Muted,
}

/// A step bar: the state of each step, and for each step after the first
/// whether the line leading to it is drawn as completed (`lines[i - 1]` for
/// step `i`).
#[derive(Clone, Debug)]
pub struct StepBar {
    pub steps: Vec<StepState>,
    pub lines: Vec<bool>,
}

/// The state of step `i` when the document stands at step `current`.
pub open spec fn step_state(i: int, current: int, muted: bool) -> StepState {
    if muted {
        StepState::Muted
    } else if i < current {
        StepState::Done
    } else if i == current {
        StepState::Current
    } else {
        StepState::Todo
    }
}

/// Whether the line leading to step `i` is drawn as completed.
pub open spec fn line_done(i: int, current: int, muted_lines: bool) -> bool {
    i <= current && !muted_lines
}

/// The bar of `n` steps standing at `current`; `muted_steps` greys out every
/// step and `muted_lines` every line.
pub open spec fn bar_of(b: StepBar, n: int, current: int, muted_steps: bool, muted_lines: bool) -> bool {
    &&& b.steps@.len() == n
    &&& b.lines@.len() == n - 1
    &&& forall|i: int| 0 <= i < n ==> #[trigger] b.steps@[i] == step_state(i, current, muted_steps)
    &&& forall|i: int| 1 <= i < n ==> #[trigger] b.lines@[i - 1] == line_done(i, current, muted_lines)
}

pub fn step_bar(n: usize, current: usize, muted_steps: bool, muted_lines: bool) -> (b: StepBar)
    requires
        1 <= n,
        current < n,
    ensures
        bar_of(b, n as int, current as int, muted_steps, muted_lines),
{
    let mut steps: Vec<StepState> = Vec::new();
    let mut lines: Vec<bool> = Vec::new();
    let mut i: usize = 0;
    while i < n
        invariant
            i <= n,
            current < n,
            steps@.len() == i,
            lines@.len() == if i == 0 {
                0
            } else {
                i - 1
            },
            forall|j: int| 0 <= j < i ==> #[trigger] steps@[j] == step_state(j, current as int, muted_steps),
            forall|j: int| 1 <= j < i ==> #[trigger] lines@[j - 1] == line_done(j, current as int, muted_lines),
        decreases n - i,
    {
        if i > 0 {
            lines.push(i <= current && !muted_lines);
        }
        let s = if muted_steps {
            StepState::Muted
        } else if i < current {
            StepState::Done
        } else if i == current {
            StepState::Current
        } else {
            StepState::Todo
        };
        steps.push(s);
        i = i + 1;
    }
    StepBar { steps, lines }
}

/// In a bar that is not greyed out, exactly one step is current, every step
/// before it is done, every step after it is still to come, and the lines
/// up to it are completed while those after it are not.
pub proof fn lemma_one_current_step(b: StepBar, n: int, current: int, muted_lines: bool)
    requires
        0 <= current < n,
        bar_of(b, n, current, false, muted_lines),
    ensures
        b.steps@[current] == StepState::Current,
        forall|i: int| 0 <= i < n && b.steps@[i] == StepState::Current ==> i == current,
        forall|i: int| 0 <= i < current ==> b.steps@[i] == StepState::Done,
        forall|i: int| current < i < n ==> b.steps@[i] == StepState::Todo,
        !muted_lines ==> forall|i: int| 1 <= i < n ==> (#[trigger] b.lines@[i - 1] <==> i <= current),
{
    assert(b.steps@[current] == step_state(current, current, false));
    assert forall|i: int| 0 <= i < n && b.steps@[i] == StepState::Current implies i == current by {
        assert(b.steps@[i] == step_state(i, current, false));
    }
    assert forall|i: int| 0 <= i < current implies b.steps@[i] == StepState::Done by {
        assert(b.steps@[i] == step_state(i, current, false));
    }
    assert forall|i: int| current < i < n implies b.steps@[i] == StepState::Todo by {
        assert(b.steps@[i] == step_state(i, current, false));
    }
    if !muted_lines {
        assert forall|i: int| 1 <= i < n implies (#[trigger] b.lines@[i - 1] <==> i <= current) by {
            assert(b.lines@[i - 1] == line_done(i, current, false));
        }
    }
}

/// In a greyed-out bar no step is current or done.
pub proof fn lemma_muted_bar(b: StepBar, n: int, current: int, muted_lines: bool)
    requires
        0 <= current < n,
        bar_of(b, n, current, true, muted_lines),
    ensures
        forall|i: int| 0 <= i < n ==> b.steps@[i] == StepState::Muted,
{
    assert forall|i: int| 0 <= i < n implies b.steps@[i] == StepState::Muted by {
        assert(b.steps@[i] == step_state(i, current, true));
    }
}

} // verus!
