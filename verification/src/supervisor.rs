//! The supervisor that runs the four services as one unit. Its state
//! machine numbers every start: a start first performs the stop
//! transition unconditionally (a no-op when nothing runs), writes the new
//! target and token into the shared state, and only then brings up the
//! next generation — so at most one generation is ever live and the fixed
//! ports are never bound twice. The task handles themselves, and the
//! cancelling and awaiting of them, live with the runtime outside; they
//! follow these transitions.

use crate::context::{ConnectionContext, LookupData};
use vstd::prelude::*;

verus! {

/// The supervisor's state: how many generations were ever started and
/// which one, if any, is live. `running` being a single optional value is
/// what makes "at most one generation live" structural.
pub struct ServerSupervisor {
    /// The number of start transitions taken; also the next generation
    /// id.
    pub started: u64,
    /// The generation currently live, if any.
    pub running: Option<u64>,
}

/// The stop transition: no generation is live afterwards.
pub open spec fn stop_all_spec(s: ServerSupervisor) -> ServerSupervisor {
    ServerSupervisor { started: s.started, running: None }
}

/// The start transition: the previous generation (if any) is gone and
/// exactly the new one is live.
pub open spec fn start_all_spec(s: ServerSupervisor) -> ServerSupervisor
    recommends
        s.started < u64::MAX,
{
    ServerSupervisor { started: (s.started + 1) as u64, running: Some(s.started) }
}

impl ServerSupervisor {
    /// A fresh supervisor: nothing started yet.
    pub fn new() -> (r: ServerSupervisor)
        ensures
            r.started == 0,
            r.running == None::<u64>,
    {
        ServerSupervisor { started: 0, running: None }
    }

    /// Stops the running generation, if any, and clears the shared
    /// connection state. The caller cancels and awaits the generation's
    /// tasks before the ports are considered free again.
    pub fn stop_all(&mut self, ctx: &ConnectionContext)
        requires
            ctx.wf(),
        ensures
            *final(self) == stop_all_spec(*old(self)),
    {
        self.running = None;
        ctx.clear();
    }

    /// Starts a new generation: stops the previous one first —
    /// unconditionally, so the fixed ports are never bound by two
    /// generations at once — then writes the new target and token into
    /// the shared state, and records the new generation as live. Answers
    /// the new generation's id; the caller launches the four services
    /// under it.
    pub fn start_all(
        &mut self,
        ctx: &ConnectionContext,
        target: LookupData,
        token: Option<String>,
    ) -> (generation: u64)
        requires
            ctx.wf(),
            target.wf(),
            old(self).started < u64::MAX,
        ensures
            *final(self) == start_all_spec(*old(self)),
            generation == old(self).started,
            final(self).running == Some(generation),
    {
        self.stop_all(ctx);
        ctx.write_target(target);
        if let Some(tok) = token {
            ctx.write_token(tok);
        }
        let generation = self.started;
        self.started = self.started + 1;
        self.running = Some(generation);
        generation
    }
}

/// Law: two starts in a row leave exactly one generation live — the
/// second — and it differs from the one the first start brought up, so a
/// request issued after the second start is served by the second
/// generation alone.
pub proof fn lemma_double_start_one_generation(s: ServerSupervisor)
    requires
        s.started + 2 <= u64::MAX,
    ensures
        ({
            let once = start_all_spec(s);
            let twice = start_all_spec(once);
            &&& twice.running == Some(once.started)
            &&& twice.running != once.running
            &&& twice.running is Some
        }),
{
}

/// Law: a stop is idempotent and a start behaves the same whether or not
/// a stop came just before it — the start's own unconditional stop
/// already covers it.
pub proof fn lemma_start_after_stop(s: ServerSupervisor)
    requires
        s.started < u64::MAX,
    ensures
        stop_all_spec(stop_all_spec(s)) == stop_all_spec(s),
        start_all_spec(stop_all_spec(s)) == start_all_spec(s),
{
}

} // verus!
