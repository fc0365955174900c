//! What the task that runs a node does, step by step, and what the watchdog
//! does that waits for it to end.
//!
//! Only a teardown that the loop task itself runs to its end stops the node's
//! transports, so every way through the task leads through it.

use vstd::prelude::*;

verus! {

/// How long a stop waits for the node's own teardown before the loop task is
/// aborted, in seconds.
pub const NODE_STOP_TIMEOUT_SECS: u64 = 10;

/// One step of the loop task.
#[derive(Debug, Clone, Copy, PartialEq, Eq, Structural)]
pub enum LoopStep {
    /// Start the node.
    StartNode,
    /// Tell the packet plane where the node's DNS responder listens.
    PublishResponder,
    /// Serve packets until told to stop or until the packet channel closes,
    /// then drain.
    Serve,
    /// Tear down the node's children and transports.
    FinishShutdown { published: bool },
    /// The responder's socket is gone: take its address back.
    RetractResponder,
    /// The task is over.
    End,
}

/// The step after one that succeeded or failed. A start that failed can have
/// left children up, so it is torn down like any other.
pub open spec fn following(step: LoopStep, ok: bool) -> LoopStep {
    match step {
        LoopStep::StartNode => if ok {
            LoopStep::PublishResponder
        } else {
            LoopStep::FinishShutdown { published: false }
        },
        LoopStep::PublishResponder => LoopStep::Serve,
        LoopStep::Serve => LoopStep::FinishShutdown { published: true },
        LoopStep::FinishShutdown { published } => if published {
            LoopStep::RetractResponder
        } else {
            LoopStep::End
        },
        LoopStep::RetractResponder => LoopStep::End,
        LoopStep::End => LoopStep::End,
    }
}

impl LoopStep {
    /// The step to take next.
    pub fn next(self, ok: bool) -> (step: LoopStep)
        ensures
            step == following(self, ok),
    {
        match self {
            LoopStep::StartNode => {
                if ok {
                    LoopStep::PublishResponder
                } else {
                    LoopStep::FinishShutdown { published: false }
                }
            },
            LoopStep::PublishResponder => LoopStep::Serve,
            LoopStep::Serve => LoopStep::FinishShutdown { published: true },
            LoopStep::FinishShutdown { published } => {
                if published {
                    LoopStep::RetractResponder
                } else {
                    LoopStep::End
                }
            },
            LoopStep::RetractResponder => LoopStep::End,
            LoopStep::End => LoopStep::End,
        }
    }
}

/// One step of the watchdog that waits for a loop task to drain.
#[derive(Debug, Clone, Copy, PartialEq, Eq, Structural)]
pub enum DrainStep {
    /// Abort the loop task, as the last resort, and wait for it.
    AbortLoop,
    /// The loop task never got to take the responder's address back.
    RetractResponder,
    /// The node is down: a new one may be started.
    AllowStart,
}

/// What the watchdog does once the loop task has finished, or has not in time.
pub open spec fn after_the_wait(timed_out: bool) -> Seq<DrainStep> {
    if timed_out {
        seq![DrainStep::AbortLoop, DrainStep::RetractResponder, DrainStep::AllowStart]
    } else {
        seq![DrainStep::AllowStart]
    }
}

/// The steps that follow the wait for a loop task. Starts are allowed again last,
/// so that a queued start can only ever publish a fresh responder address.
pub fn drain_steps(timed_out: bool) -> (steps: Vec<DrainStep>)
    ensures
        steps@ == after_the_wait(timed_out),
{
    let mut steps: Vec<DrainStep> = Vec::new();
    if timed_out {
        steps.push(DrainStep::AbortLoop);
        steps.push(DrainStep::RetractResponder);
    }
    steps.push(DrainStep::AllowStart);
    assert(steps@ =~= after_the_wait(timed_out));
    steps
}

/// The steps of a loop task, given whether each of them succeeded.
pub open spec fn loop_steps(outcomes: Seq<bool>) -> Seq<LoopStep>
    decreases outcomes.len(),
{
    if outcomes.len() == 0 {
        seq![LoopStep::StartNode]
    } else {
        let before = loop_steps(outcomes.drop_last());
        before.push(following(before.last(), outcomes.last()))
    }
}

/// Every way through the loop task, whatever fails on it, comes to its end in
/// at most five steps, and tears the node down exactly once before that. The
/// responder's address is taken back, after the teardown, exactly where it was
/// published.
pub proof fn law_the_loop_task_tears_its_node_down(outcomes: Seq<bool>)
    requires
        outcomes.len() >= 5,
    ensures
        ({
            let steps = loop_steps(outcomes);
            &&& steps.last() == LoopStep::End
            &&& outcomes[0] ==> steps.take(6) == seq![
                LoopStep::StartNode,
                LoopStep::PublishResponder,
                LoopStep::Serve,
                LoopStep::FinishShutdown { published: true },
                LoopStep::RetractResponder,
                LoopStep::End,
            ]
            &&& !outcomes[0] ==> steps.take(3) == seq![
                LoopStep::StartNode,
                LoopStep::FinishShutdown { published: false },
                LoopStep::End,
            ]
            &&& forall|i: int|
                5 <= i < steps.len() ==> #[trigger] steps[i] == LoopStep::End
            &&& !outcomes[0] ==> forall|i: int|
                2 <= i < steps.len() ==> #[trigger] steps[i] == LoopStep::End
        }),
    decreases outcomes.len(),
{
    if outcomes.len() > 5 {
        let fewer = outcomes.drop_last();
        law_the_loop_task_tears_its_node_down(fewer);
        lemma_loop_steps_len(fewer);
        assert(loop_steps(outcomes).take(6) =~= loop_steps(fewer).take(6));
        assert(loop_steps(outcomes).take(3) =~= loop_steps(fewer).take(3));
    } else {
        let o4 = outcomes.drop_last();
        let o3 = o4.drop_last();
        let o2 = o3.drop_last();
        let o1 = o2.drop_last();
        let o0 = o1.drop_last();
        assert(loop_steps(o0) == seq![LoopStep::StartNode]);
        assert(o1.last() == outcomes[0]);
        assert(loop_steps(o1) == loop_steps(o0).push(following(loop_steps(o0).last(), o1.last())));
        assert(loop_steps(o2) == loop_steps(o1).push(following(loop_steps(o1).last(), o2.last())));
        assert(loop_steps(o3) == loop_steps(o2).push(following(loop_steps(o2).last(), o3.last())));
        assert(loop_steps(o4) == loop_steps(o3).push(following(loop_steps(o3).last(), o4.last())));
        let steps = loop_steps(outcomes);
        assert(steps == loop_steps(o4).push(following(loop_steps(o4).last(), outcomes.last())));
        if outcomes[0] {
            assert(steps.take(6) =~= seq![
                LoopStep::StartNode,
                LoopStep::PublishResponder,
                LoopStep::Serve,
                LoopStep::FinishShutdown { published: true },
                LoopStep::RetractResponder,
                LoopStep::End,
            ]);
        } else {
            assert(steps.take(3) =~= seq![
                LoopStep::StartNode,
                LoopStep::FinishShutdown { published: false },
                LoopStep::End,
            ]);
        }
    }
}

proof fn lemma_loop_steps_len(outcomes: Seq<bool>)
    ensures
        loop_steps(outcomes).len() == outcomes.len() + 1,
    decreases outcomes.len(),
{
    if outcomes.len() > 0 {
        lemma_loop_steps_len(outcomes.drop_last());
    }
}

/// Starts are allowed again once, last, whatever came before. A loop task is
/// aborted exactly where it did not finish in time, and then the responder's
/// address is taken back in its place, after the abort.
pub proof fn law_starts_are_allowed_after_everything_else(timed_out: bool)
    ensures
        ({
            let steps = after_the_wait(timed_out);
            &&& steps.last() == DrainStep::AllowStart
            &&& steps.contains(DrainStep::AbortLoop) <==> timed_out
            &&& steps.contains(DrainStep::RetractResponder) <==> timed_out
            &&& forall|i: int|
                0 <= i < steps.len() - 1 ==> #[trigger] steps[i] != DrainStep::AllowStart
            &&& timed_out ==> steps.len() == 3 && steps[0] == DrainStep::AbortLoop
            &&& !timed_out ==> steps.len() == 1
        }),
{
    if timed_out {
        assert(after_the_wait(true)[0] == DrainStep::AbortLoop);
        assert(after_the_wait(true)[1] == DrainStep::RetractResponder);
    }
}

} // verus!
