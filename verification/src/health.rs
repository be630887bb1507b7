//! The flag by which the event thread learns that the render thread died.

use vstd::prelude::*;

verus! {

/// The flag after one more thing was learned of the render thread: that it
/// still runs or ended in order (`sound`), or that it ended abnormally.
pub open spec fn observed(healthy: bool, sound: bool) -> bool {
    healthy && sound
}

/// The flag after a sequence of such observations.
pub open spec fn observed_all(healthy: bool, observations: Seq<bool>) -> bool
    decreases observations.len(),
{
    if observations.len() == 0 {
        healthy
    } else {
        observed(observed_all(healthy, observations.drop_last()), observations.last())
    }
}

/// The flag is up exactly if it was up at first and nothing abnormal was
/// observed since.
pub proof fn lemma_observed_all(healthy: bool, observations: Seq<bool>)
    ensures
        observed_all(healthy, observations) == (healthy && forall|i: int|
            0 <= i < observations.len() ==> observations[i]),
    decreases observations.len(),
{
    if observations.len() > 0 {
        let earlier = observations.drop_last();
        lemma_observed_all(healthy, earlier);
        if healthy && forall|i: int| 0 <= i < earlier.len() ==> earlier[i] {
            if observations.last() {
                assert forall|i: int| 0 <= i < observations.len() implies observations[i] by {
                    if i < earlier.len() {
                        assert(earlier[i]);
                    }
                }
            }
        } else if healthy {
            let i = choose|i: int| 0 <= i < earlier.len() && !earlier[i];
            assert(!observations[i]);
        }
    }
}

/// Once down, the flag never comes up again: if it is up after some
/// observations, it was up after every shorter run of them.
pub proof fn lemma_never_recovers(healthy: bool, observations: Seq<bool>, sooner: int, later: int)
    requires
        0 <= sooner <= later <= observations.len(),
        observed_all(healthy, observations.take(later)),
    ensures
        observed_all(healthy, observations.take(sooner)),
{
    lemma_observed_all(healthy, observations.take(later));
    lemma_observed_all(healthy, observations.take(sooner));
    assert forall|i: int| 0 <= i < observations.take(sooner).len() implies observations.take(
        sooner,
    )[i] by {
        assert(observations.take(later)[i]);
    }
}

/// A flag that starts up goes down exactly once, at the first abnormal end
/// that is observed: it is up until then and down ever after.
pub proof fn lemma_goes_down_once(observations: Seq<bool>, fault: int, seen: int)
    requires
        0 <= fault < observations.len(),
        !observations[fault],
        forall|i: int| 0 <= i < fault ==> observations[i],
        0 <= seen <= observations.len(),
    ensures
        observed_all(true, observations.take(seen)) == (seen <= fault),
{
    lemma_observed_all(true, observations.take(seen));
    if seen > fault {
        assert(!observations.take(seen)[fault]);
    }
}

/// Whether the render thread is still believed to be alive.
pub struct RenderThreadHealth {
    healthy: bool,
}

impl View for RenderThreadHealth {
    type V = bool;

    closed spec fn view(&self) -> bool {
        self.healthy
    }
}

impl RenderThreadHealth {
    /// The flag at the start of the process: up.
    pub fn new() -> (health: RenderThreadHealth)
        ensures
            health@,
    {
        RenderThreadHealth { healthy: true }
    }

    /// Whether the flag is up.
    pub fn is_healthy(&self) -> (healthy: bool)
        ensures
            healthy == self@,
    {
        self.healthy
    }

    /// Takes the flag down. Doing so again changes nothing.
    pub fn mark_unhealthy(&mut self)
        ensures
            final(self)@ == observed(old(self)@, false),
            !final(self)@,
    {
        self.healthy = false;
    }

    /// Records how the render thread ended: the flag goes down if it did not
    /// end in order, and is left as it was if it did.
    pub fn record_exit(&mut self, in_order: bool)
        ensures
            final(self)@ == observed(old(self)@, in_order),
    {
        if !in_order {
            self.mark_unhealthy();
        }
    }
}

} // verus!
