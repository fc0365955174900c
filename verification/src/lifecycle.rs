//! When the mesh node is built, started, drained and replaced.
//!
//! There is one radio, so there must never be two nodes driving it. A stopped
//! node is not gone at once: its loop task drains, tears the transports down
//! and only then completes. [`Lifecycle`] holds what is known of the node and
//! its loop task, refuses to start a second node while the first is still
//! draining, and remembers a start that came too early.

use vstd::prelude::*;

verus! {

/// What is known of the node and of the task that runs it.
#[derive(Debug, Clone, Copy, PartialEq, Eq, Structural)]
pub struct Lifecycle {
    /// There is a task runtime to run a node on.
    pub has_runtime: bool,
    /// A built node is at hand, not yet moved into a loop task.
    pub node_held: bool,
    /// The node runs.
    pub node_running: bool,
    /// The loop task that runs the node is at hand.
    pub loop_task: bool,
    /// The signal that asks the loop task to drain has not been used.
    pub shutdown_armed: bool,
    /// The node may be asked for its peers and be handed new ones.
    pub node_live: bool,
    /// A loop task was told to drain and has not finished.
    pub stopping: bool,
    /// A start came while a node was draining and waits for it.
    pub start_pending: bool,
    /// A start waits for the node that it asked for to be built.
    pub building: bool,
}

/// What a request to start the node comes to.
#[derive(Debug, Clone, Copy, PartialEq, Eq, Structural)]
pub enum StartOutcome {
    /// A node runs already.
    AlreadyRunning,
    /// The previous node is still draining: the start waits for it.
    Queued,
    /// There is no node at hand: one has to be built.
    BuildNode,
    /// A node is being built for an earlier start.
    AwaitingBuild,
    /// A node could not be built.
    BuildFailed,
    /// There is nothing to run the node on, and it is given up.
    NoRuntime,
    /// The node at hand moves into a new loop task.
    SpawnLoop,
}

/// What a request to stop the node comes to.
#[derive(Debug, Clone, Copy, PartialEq, Eq, Structural)]
pub struct StopOutcome {
    /// The loop task is told to drain.
    pub signal: bool,
    /// The drain has to be waited for.
    pub drain: bool,
}

impl Lifecycle {
    /// What holds between any two requests.
    pub open spec fn wf(self) -> bool {
        &&& self.loop_task == self.node_running
        &&& self.shutdown_armed == self.node_running
        &&& self.node_live == self.node_running
        &&& self.node_running ==> self.has_runtime && !self.stopping && !self.start_pending
            && !self.node_held
        &&& self.stopping ==> self.has_runtime && !self.node_held
        &&& self.start_pending ==> !self.node_held
        &&& self.building ==> !self.node_running && !self.stopping && !self.node_held
            && !self.start_pending
    }

    /// Right after startup: a node is built and has not been started.
    pub open spec fn constructed() -> Lifecycle {
        Lifecycle {
            has_runtime: true,
            node_held: true,
            node_running: false,
            loop_task: false,
            shutdown_armed: false,
            node_live: false,
            stopping: false,
            start_pending: false,
            building: false,
        }
    }

    /// After a startup that failed: no node and nothing to run one on.
    pub open spec fn failed() -> Lifecycle {
        Lifecycle { has_runtime: false, node_held: false, ..Lifecycle::constructed() }
    }

    /// Whether a loop task finished without having been told to.
    pub open spec fn exited(self, loop_finished: bool) -> bool {
        self.node_running && self.loop_task && loop_finished
    }

    /// A loop task that finished on its own has torn its node down: the node
    /// counts as stopped.
    pub open spec fn settled(self, loop_finished: bool) -> Lifecycle {
        if self.exited(loop_finished) {
            Lifecycle {
                node_running: false,
                loop_task: false,
                shutdown_armed: false,
                node_live: false,
                ..self
            }
        } else {
            self
        }
    }

    /// The node at hand is used: it moves into a loop task where there is a
    /// runtime for one, and is given up where there is none.
    pub open spec fn launched(self) -> Lifecycle {
        if self.has_runtime {
            Lifecycle {
                node_held: false,
                node_running: true,
                loop_task: true,
                shutdown_armed: true,
                node_live: true,
                building: false,
                ..self
            }
        } else {
            Lifecycle { node_held: false, building: false, ..self }
        }
    }

    pub open spec fn launch_outcome(self) -> StartOutcome {
        if self.has_runtime {
            StartOutcome::SpawnLoop
        } else {
            StartOutcome::NoRuntime
        }
    }

    pub open spec fn start_outcome(self, loop_finished: bool) -> StartOutcome {
        let s = self.settled(loop_finished);
        if s.node_running {
            StartOutcome::AlreadyRunning
        } else if s.stopping {
            StartOutcome::Queued
        } else if s.building {
            StartOutcome::AwaitingBuild
        } else if !s.node_held {
            StartOutcome::BuildNode
        } else {
            s.launch_outcome()
        }
    }

    pub open spec fn after_start(self, loop_finished: bool) -> Lifecycle {
        let s = self.settled(loop_finished);
        match self.start_outcome(loop_finished) {
            StartOutcome::AlreadyRunning => s,
            StartOutcome::Queued => Lifecycle { start_pending: true, ..s },
            StartOutcome::AwaitingBuild => s,
            StartOutcome::BuildNode => Lifecycle { start_pending: false, building: true, ..s },
            _ => Lifecycle { start_pending: false, ..s }.launched(),
        }
    }

    /// Whether a start waits for a node to be built.
    pub open spec fn wants_node(self) -> bool {
        self.building
    }

    pub open spec fn built_outcome(self, ok: bool) -> StartOutcome {
        if ok {
            self.launch_outcome()
        } else {
            StartOutcome::BuildFailed
        }
    }

    pub open spec fn after_built(self, ok: bool) -> Lifecycle {
        if ok {
            self.launched()
        } else {
            Lifecycle { building: false, ..self }
        }
    }

    pub open spec fn stop_outcome(self) -> StopOutcome {
        StopOutcome { signal: self.shutdown_armed, drain: self.loop_task && self.has_runtime }
    }

    /// After a stop nothing runs and no start waits, neither for a drain nor for
    /// a node to be built. A drain that is under way stays under way.
    pub open spec fn after_stop(self) -> Lifecycle {
        Lifecycle {
            node_running: false,
            loop_task: false,
            shutdown_armed: false,
            node_live: false,
            stopping: self.stopping || self.stop_outcome().drain,
            start_pending: false,
            building: false,
            ..self
        }
    }

    pub open spec fn after_drained(self) -> Lifecycle {
        Lifecycle { stopping: false, ..self }
    }

    /// Whether a start that waited can go ahead.
    pub open spec fn pending_start_is_due(self) -> bool {
        self.start_pending && !self.stopping
    }

    pub open spec fn after_poll(self) -> Lifecycle {
        if self.pending_start_is_due() {
            self.after_start(false)
        } else {
            self
        }
    }

    /// A node is built and has not been started.
    pub fn new_constructed() -> (l: Lifecycle)
        ensures
            l == Lifecycle::constructed(),
            l.wf(),
    {
        Lifecycle {
            has_runtime: true,
            node_held: true,
            node_running: false,
            loop_task: false,
            shutdown_armed: false,
            node_live: false,
            stopping: false,
            start_pending: false,
            building: false,
        }
    }

    /// There is no node and nothing to run one on.
    pub fn new_failed() -> (l: Lifecycle)
        ensures
            l == Lifecycle::failed(),
            l.wf(),
    {
        Lifecycle {
            has_runtime: false,
            node_held: false,
            node_running: false,
            loop_task: false,
            shutdown_armed: false,
            node_live: false,
            stopping: false,
            start_pending: false,
            building: false,
        }
    }

    fn launch(&mut self) -> (outcome: StartOutcome)
        ensures
            *final(self) == old(self).launched(),
            outcome == old(self).launch_outcome(),
    {
        self.node_held = false;
        self.building = false;
        if !self.has_runtime {
            return StartOutcome::NoRuntime;
        }
        self.node_live = true;
        self.loop_task = true;
        self.shutdown_armed = true;
        self.node_running = true;
        StartOutcome::SpawnLoop
    }

    /// A request to start the node. `loop_finished` says whether the loop task
    /// at hand has finished: one that did so on its own (the node could not
    /// start, or its packet channel closed) no longer counts as running.
    ///
    /// A second node is never started while the previous one's transports are
    /// up: the start is queued, and [`Lifecycle::poll_pending_start`] replays
    /// it. After [`StartOutcome::BuildNode`] the start goes on in
    /// [`Lifecycle::node_built`].
    pub fn start(&mut self, loop_finished: bool) -> (outcome: StartOutcome)
        requires
            old(self).wf(),
        ensures
            *final(self) == old(self).after_start(loop_finished),
            outcome == old(self).start_outcome(loop_finished),
            final(self).wf(),
            outcome == StartOutcome::BuildNode ==> final(self).wants_node(),
    {
        if self.node_running && self.loop_task && loop_finished {
            self.loop_task = false;
            self.shutdown_armed = false;
            self.node_running = false;
            self.node_live = false;
        }
        if self.node_running {
            return StartOutcome::AlreadyRunning;
        }
        if self.stopping {
            self.start_pending = true;
            return StartOutcome::Queued;
        }
        if self.building {
            return StartOutcome::AwaitingBuild;
        }
        self.start_pending = false;
        if !self.node_held {
            self.building = true;
            return StartOutcome::BuildNode;
        }
        self.launch()
    }

    /// The node that a start waited for was built, or could not be.
    pub fn node_built(&mut self, ok: bool) -> (outcome: StartOutcome)
        requires
            old(self).wf(),
            old(self).wants_node(),
        ensures
            *final(self) == old(self).after_built(ok),
            outcome == old(self).built_outcome(ok),
            final(self).wf(),
    {
        if !ok {
            self.building = false;
            return StartOutcome::BuildFailed;
        }
        self.launch()
    }

    /// A request to stop the node. It never waits for the teardown: the loop
    /// task is told to drain, and [`Lifecycle::drained`] says when it is done.
    /// An explicit stop cancels a start that was queued or that waits for a node
    /// to be built.
    pub fn stop(&mut self) -> (outcome: StopOutcome)
        requires
            old(self).wf(),
        ensures
            *final(self) == old(self).after_stop(),
            outcome == old(self).stop_outcome(),
            final(self).wf(),
    {
        self.start_pending = false;
        self.building = false;
        let signal: bool = self.shutdown_armed;
        self.shutdown_armed = false;
        let drain: bool = self.loop_task && self.has_runtime;
        self.loop_task = false;
        if drain {
            self.stopping = true;
        }
        self.node_live = false;
        self.node_running = false;
        StopOutcome { signal, drain }
    }

    /// The loop task that was told to drain has finished: its transports are
    /// down, and a new node may claim the radio.
    pub fn drained(&mut self)
        requires
            old(self).wf(),
        ensures
            *final(self) == old(self).after_drained(),
            final(self).wf(),
    {
        self.stopping = false;
    }

    /// Replays a start that waited for a node to drain, once that is down.
    pub fn poll_pending_start(&mut self) -> (outcome: Option<StartOutcome>)
        requires
            old(self).wf(),
        ensures
            *final(self) == old(self).after_poll(),
            outcome == (if old(self).pending_start_is_due() {
                Some(old(self).start_outcome(false))
            } else {
                None
            }),
            final(self).wf(),
            outcome == Some(StartOutcome::BuildNode) ==> final(self).wants_node(),
    {
        if self.start_pending && !self.stopping {
            Some(self.start(false))
        } else {
            None
        }
    }
}

/// Something that happens to the node, asked for or reported.
pub enum LifecycleEvent {
    Start { loop_finished: bool },
    NodeBuilt { ok: bool },
    Stop,
    Drained,
    Poll,
}

/// The lifecycle together with the number of nodes whose loop task has been
/// started and not yet been seen to finish.
pub struct World {
    pub lifecycle: Lifecycle,
    pub nodes_up: int,
}

/// How many nodes a lifecycle accounts for: the running one and the draining
/// one.
pub open spec fn accounted_for(l: Lifecycle) -> int {
    (if l.node_running {
        1int
    } else {
        0
    }) + (if l.stopping {
        1int
    } else {
        0
    })
}

impl World {
    pub open spec fn wf(self) -> bool {
        &&& self.lifecycle.wf()
        &&& self.nodes_up == accounted_for(self.lifecycle)
    }

    /// A build is reported only where a start waits for it, and a drain only
    /// where one is under way.
    pub open spec fn possible(self, event: LifecycleEvent) -> bool {
        match event {
            LifecycleEvent::NodeBuilt { ok } => self.lifecycle.wants_node(),
            LifecycleEvent::Drained => self.lifecycle.stopping,
            _ => true,
        }
    }

    /// How many loop tasks an event starts.
    pub open spec fn spawns(self, event: LifecycleEvent) -> int {
        let spawned = match event {
            LifecycleEvent::Start { loop_finished } => self.lifecycle.start_outcome(loop_finished)
                == StartOutcome::SpawnLoop,
            LifecycleEvent::NodeBuilt { ok } => self.lifecycle.built_outcome(ok)
                == StartOutcome::SpawnLoop,
            LifecycleEvent::Poll => self.lifecycle.pending_start_is_due()
                && self.lifecycle.start_outcome(false) == StartOutcome::SpawnLoop,
            _ => false,
        };
        if spawned {
            1
        } else {
            0
        }
    }

    /// How many loop tasks an event shows to have finished.
    pub open spec fn finishes(self, event: LifecycleEvent) -> int {
        let finished = match event {
            LifecycleEvent::Start { loop_finished } => self.lifecycle.exited(loop_finished),
            LifecycleEvent::Drained => true,
            _ => false,
        };
        if finished {
            1
        } else {
            0
        }
    }

    pub open spec fn next(self, event: LifecycleEvent) -> World {
        World {
            lifecycle: match event {
                LifecycleEvent::Start { loop_finished } => self.lifecycle.after_start(
                    loop_finished,
                ),
                LifecycleEvent::NodeBuilt { ok } => self.lifecycle.after_built(ok),
                LifecycleEvent::Stop => self.lifecycle.after_stop(),
                LifecycleEvent::Drained => self.lifecycle.after_drained(),
                LifecycleEvent::Poll => self.lifecycle.after_poll(),
            },
            nodes_up: self.nodes_up - self.finishes(event) + self.spawns(event),
        }
    }

    /// The world after a history of events.
    pub open spec fn after(self, events: Seq<LifecycleEvent>) -> World
        decreases events.len(),
    {
        if events.len() == 0 {
            self
        } else {
            self.after(events.drop_last()).next(events.last())
        }
    }

    /// Whether each event of a history could happen where it stands.
    pub open spec fn possible_history(self, events: Seq<LifecycleEvent>) -> bool {
        forall|i: int|
            0 <= i < events.len() ==> #[trigger] self.after(events.take(i)).possible(events[i])
    }
}

/// One event keeps the account of nodes, and a loop task is started only where
/// no other node is up.
pub proof fn law_a_node_starts_alone(world: World, event: LifecycleEvent)
    requires
        world.wf(),
        world.possible(event),
    ensures
        world.next(event).wf(),
        world.spawns(event) == 1 ==> world.nodes_up - world.finishes(event) == 0,
{
}

/// After any history of starts, builds, stops, drains and polls, from any sound
/// state on, at most one node is up, running or draining.
pub proof fn law_never_two_nodes(world: World, events: Seq<LifecycleEvent>)
    requires
        world.wf(),
        world.possible_history(events),
    ensures
        world.after(events).wf(),
        0 <= world.after(events).nodes_up <= 1,
    decreases events.len(),
{
    if events.len() > 0 {
        let before = events.drop_last();
        assert(before =~= events.take(events.len() - 1));
        assert forall|i: int| 0 <= i < before.len() implies #[trigger] world.after(
            before.take(i),
        ).possible(before[i]) by {
            assert(before.take(i) =~= events.take(i));
        }
        law_never_two_nodes(world, before);
        law_a_node_starts_alone(world.after(before), events.last());
    }
}

/// A start is never lost. Where it does not run a node at once it is queued, or
/// waits for a node to be built, or there is nothing to run one on.
pub proof fn law_a_start_is_never_lost(l: Lifecycle, loop_finished: bool)
    requires
        l.wf(),
    ensures
        ({
            let after = l.after_start(loop_finished);
            ||| after.node_running
            ||| (after.start_pending && after.stopping)
            ||| after.wants_node()
            ||| (l.start_outcome(loop_finished) == StartOutcome::NoRuntime && !l.has_runtime)
        }),
{
}

/// A start that comes while the previous node drains is queued, and neither it
/// nor any number of polls starts a node before the drain is over.
pub proof fn law_a_start_during_a_drain_waits(l: Lifecycle, loop_finished: bool)
    requires
        l.wf(),
        l.stopping,
    ensures
        l.start_outcome(loop_finished) == StartOutcome::Queued,
        !l.after_start(loop_finished).node_running,
        l.after_start(loop_finished).start_pending,
        l.after_start(loop_finished).stopping,
        !l.after_start(loop_finished).pending_start_is_due(),
        l.after_start(loop_finished).after_poll() == l.after_start(loop_finished),
{
}

/// Off and on again, at once: the start waits out the drain, the next poll asks
/// for a node, and once that is built exactly one node runs, with nothing left
/// draining and no start left waiting.
pub proof fn law_an_off_on_cycle_leaves_one_node(l: Lifecycle, loop_finished: bool)
    requires
        l.wf(),
        l.node_running,
    ensures
        ({
            let off = l.after_stop();
            let on = off.after_start(loop_finished);
            let down = on.after_drained();
            let polled = down.after_poll();
            let up = polled.after_built(true);
            &&& off.stopping
            &&& !off.node_running
            &&& on.start_pending
            &&& !on.node_running
            &&& down.pending_start_is_due()
            &&& down.start_outcome(false) == StartOutcome::BuildNode
            &&& polled.wants_node()
            &&& polled.built_outcome(true) == StartOutcome::SpawnLoop
            &&& up.node_running
            &&& !up.stopping
            &&& !up.start_pending
            &&& accounted_for(up) == 1
        }),
{
}

/// A stop releases the loop task and its signal, cancels a start that is queued
/// or waits for a node to be built, and does not end a drain that is under way:
/// a second stop changes nothing.
pub proof fn law_a_stop_is_final(l: Lifecycle)
    requires
        l.wf(),
    ensures
        ({
            let after = l.after_stop();
            &&& !after.node_running && !after.loop_task && !after.shutdown_armed
                && !after.node_live
            &&& !after.start_pending
            &&& !after.wants_node()
            &&& after.stopping == (l.node_running || l.stopping)
            &&& after.after_stop() == after
            &&& !after.after_drained().stopping
            &&& after.after_drained().after_poll() == after.after_drained()
        }),
{
}

/// Whether no node runs and no start waits for anything.
pub open spec fn is_off(l: Lifecycle) -> bool {
    !l.node_running && !l.start_pending && !l.wants_node()
}

/// After a stop only a new start brings a node up: no drain that ends, no poll
/// and no build, in whatever number and order, does.
pub proof fn law_a_stopped_node_stays_off(world: World, events: Seq<LifecycleEvent>)
    requires
        world.wf(),
        (World { lifecycle: world.lifecycle.after_stop(), ..world }).possible_history(events),
        forall|i: int| 0 <= i < events.len() ==> !(#[trigger] events[i] is Start),
    ensures
        is_off((World { lifecycle: world.lifecycle.after_stop(), ..world }).after(events).lifecycle),
    decreases events.len(),
{
    if events.len() > 0 {
        let stopped = World { lifecycle: world.lifecycle.after_stop(), ..world };
        let before = events.drop_last();
        assert(before =~= events.take(events.len() - 1));
        assert forall|i: int| 0 <= i < before.len() implies #[trigger] stopped.after(
            before.take(i),
        ).possible(before[i]) by {
            assert(before.take(i) =~= events.take(i));
        }
        assert forall|i: int| 0 <= i < before.len() implies !(#[trigger] before[i] is Start) by {
            assert(before[i] == events[i]);
        }
        law_a_stopped_node_stays_off(world, before);
        assert(stopped.after(before).possible(events.last()));
    }
}

/// A loop task that ended on its own does not block the next start: it is taken
/// for stopped, and a node is asked for.
pub proof fn law_an_exited_loop_is_replaced(l: Lifecycle)
    requires
        l.wf(),
        l.node_running,
    ensures
        l.start_outcome(true) == StartOutcome::BuildNode,
        l.after_start(true).wants_node(),
        l.after_start(true).after_built(true).node_running,
        l.start_outcome(false) == StartOutcome::AlreadyRunning,
        l.after_start(false) == l,
{
}

/// What a start comes to, in every sound state. A node that runs, one that is
/// being built and one that drains are left as they are, the last with the start
/// remembered. A node at hand runs where there is a runtime and is given up where
/// there is none. Where there is no node, one is asked for.
pub proof fn law_what_a_start_comes_to(l: Lifecycle, loop_finished: bool)
    requires
        l.wf(),
    ensures
        ({
            let after = l.after_start(loop_finished);
            let outcome = l.start_outcome(loop_finished);
            &&& after.has_runtime == l.has_runtime
            &&& l.node_running && !loop_finished ==> outcome == StartOutcome::AlreadyRunning
                && after == l
            &&& l.stopping ==> outcome == StartOutcome::Queued && after.start_pending
                && after.stopping && !after.node_running && !after.building
            &&& l.building ==> outcome == StartOutcome::AwaitingBuild && after == l
            &&& l.node_held && l.has_runtime ==> outcome == StartOutcome::SpawnLoop
                && after.node_running && !after.node_held
            &&& l.node_held && !l.has_runtime ==> outcome == StartOutcome::NoRuntime
                && !after.node_running && !after.node_held && !after.building
                && !after.start_pending
            &&& (l.node_running && loop_finished) || (!l.node_running && !l.stopping && !l.building
                && !l.node_held) ==> outcome == StartOutcome::BuildNode && after.building
                && !after.node_running
            &&& after.wf()
        }),
{
}

/// What a stop, the end of a drain, a poll and a build come to, in every sound
/// state. A stop tells a running node, and no other, to drain, and waits for it.
/// The end of a drain changes that alone. A poll starts where a start waits and
/// nothing drains, and does nothing elsewhere. A build that a start waits for
/// brings the node up, or leaves none.
pub proof fn law_what_the_other_events_come_to(l: Lifecycle)
    requires
        l.wf(),
    ensures
        l.stop_outcome().signal == l.node_running,
        l.stop_outcome().drain == l.node_running,
        l.after_stop().stopping == (l.node_running || l.stopping),
        l.after_stop().has_runtime == l.has_runtime,
        l.after_stop().node_held == l.node_held,
        !l.after_stop().node_running,
        !l.after_stop().start_pending,
        !l.after_stop().building,
        l.after_stop().wf(),
        l.after_drained() == (Lifecycle { stopping: false, ..l }),
        l.pending_start_is_due() == (l.start_pending && !l.stopping),
        l.pending_start_is_due() ==> {
            &&& l.start_outcome(false) == StartOutcome::BuildNode
            &&& l.after_poll() == (Lifecycle { start_pending: false, building: true, ..l })
        },
        !l.pending_start_is_due() ==> l.after_poll() == l,
        l.wants_node() == l.building,
        l.building ==> {
            &&& l.after_built(true).node_running == l.has_runtime
            &&& l.built_outcome(true) == (if l.has_runtime {
                StartOutcome::SpawnLoop
            } else {
                StartOutcome::NoRuntime
            })
            &&& l.built_outcome(false) == StartOutcome::BuildFailed
            &&& !l.after_built(true).building
            &&& !l.after_built(true).stopping
            &&& !l.after_built(true).start_pending
            &&& !l.after_built(true).node_held
            &&& l.after_built(true).has_runtime == l.has_runtime
            &&& l.after_built(true).wf()
            &&& l.after_built(false) == (Lifecycle { building: false, ..l })
        },
{
}

/// In a sound state a node that runs has its loop task and its signal and may be
/// asked for its peers, and a node that does not run has none of these.
pub proof fn law_a_running_node_has_its_task(l: Lifecycle)
    requires
        l.wf(),
    ensures
        l.loop_task == l.node_running,
        l.shutdown_armed == l.node_running,
        l.node_live == l.node_running,
        !(l.node_running && l.stopping),
        !(l.building && (l.node_running || l.stopping)),
        Lifecycle::constructed().wf(),
        Lifecycle::constructed().has_runtime && Lifecycle::constructed().node_held,
        Lifecycle::failed().wf(),
        !Lifecycle::failed().has_runtime && !Lifecycle::failed().node_held,
{
}

} // verus!
