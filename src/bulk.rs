//! Bulk SET and GET over the relay protocol: which writes a SET issues, in
//! which order, and how a SET stops at its first failed write.
use vstd::prelude::*;
use crate::protocol::{
    command_spec,
    reads_on,
    register_address,
    relay_command,
    RELAY_CMD_OFF,
    RELAY_CMD_ON,
};

verus! {

/// One register write: `value` into register `address`.
#[derive(Clone, Copy, Debug, PartialEq, Eq, Structural)]
pub struct RelayWrite {
    pub address: u16,
    pub value: u16,
}

/// The writes of one phase of a SET: for each relay whose target is `on`, in
/// ascending order, the write that drives it to `on`.
pub open spec fn phase_writes(state: Seq<bool>, on: bool) -> Seq<RelayWrite>
    decreases state.len(),
{
    if state.len() == 0 {
        Seq::empty()
    } else {
        let earlier = phase_writes(state.drop_last(), on);
        if state.last() == on {
            earlier.push(RelayWrite { address: state.len() as u16, value: command_spec(on) })
        } else {
            earlier
        }
    }
}

/// The writes of a whole SET: every OFF write, then every ON write.
pub open spec fn set_plan_spec(state: Seq<bool>) -> Seq<RelayWrite> {
    phase_writes(state, false) + phase_writes(state, true)
}

/// Appends the writes of one phase to `plan`.
fn push_phase(plan: &mut Vec<RelayWrite>, state: &[bool], on: bool)
    requires
        state@.len() < u16::MAX,
    ensures
        final(plan)@ == old(plan)@ + phase_writes(state@, on),
{
    let mut i: usize = 0;
    while i < state.len()
        invariant
            state@.len() < u16::MAX,
            i <= state@.len(),
            plan@ == old(plan)@ + phase_writes(state@.take(i as int), on),
        decreases state@.len() - i,
    {
        assert(state@.take(i + 1).drop_last() =~= state@.take(i as int));
        if state[i] == on {
            plan.push(RelayWrite { address: register_address(i), value: relay_command(on) });
        }
        i += 1;
    }
    assert(state@.take(i as int) =~= state@);
}

/// The writes that a SET of `state` issues, in order: first the OFF writes,
/// then the ON writes, each phase by ascending relay.
pub fn set_plan(state: &[bool]) -> (r: Vec<RelayWrite>)
    requires
        state@.len() < u16::MAX,
    ensures
        r@ == set_plan_spec(state@),
{
    let mut r: Vec<RelayWrite> = Vec::new();
    push_phase(&mut r, state, false);
    push_phase(&mut r, state, true);
    r
}

/// Each write of a phase drives a relay whose target is `on`, with the code for
/// `on`, and the addresses rise strictly.
pub proof fn lemma_phase_writes(state: Seq<bool>, on: bool)
    requires
        state.len() < u16::MAX,
    ensures
        forall|k: int|
            0 <= k < phase_writes(state, on).len() ==> {
                let w = #[trigger] phase_writes(state, on)[k];
                &&& 1 <= w.address <= state.len()
                &&& state[w.address - 1] == on
                &&& w.value == command_spec(on)
            },
        forall|j: int, k: int|
            0 <= j < k < phase_writes(state, on).len() ==> #[trigger] phase_writes(state, on)[j].address
                < #[trigger] phase_writes(state, on)[k].address,
        forall|i: int|
            0 <= i < state.len() && state[i] == on ==> exists|k: int|
                0 <= k < phase_writes(state, on).len() && #[trigger] phase_writes(state, on)[k].address
                    == i + 1,
    decreases state.len(),
{
    if state.len() > 0 {
        let s0 = state.drop_last();
        lemma_phase_writes(s0, on);
        let p0 = phase_writes(s0, on);
        let p = phase_writes(state, on);
        assert forall|i: int| 0 <= i < state.len() && state[i] == on implies exists|k: int|
            0 <= k < p.len() && #[trigger] p[k].address == i + 1 by {
            if i < s0.len() {
                assert(s0[i] == on);
                let k = choose|k: int| 0 <= k < p0.len() && #[trigger] p0[k].address == i + 1;
                assert(p[k] == p0[k]);
            } else {
                assert(p[p.len() - 1].address == i + 1);
            }
        }
    }
}

/// Ordering of a SET: every OFF write comes before every ON write, and within
/// each phase the relays are visited in ascending order.
pub proof fn lemma_off_before_on(state: Seq<bool>)
    requires
        state.len() < u16::MAX,
    ensures
        forall|j: int, k: int|
            0 <= j < k < set_plan_spec(state).len() && #[trigger] set_plan_spec(state)[k].value
                == RELAY_CMD_OFF ==> #[trigger] set_plan_spec(state)[j].value == RELAY_CMD_OFF,
        forall|j: int, k: int|
            0 <= j < k < set_plan_spec(state).len() && #[trigger] set_plan_spec(state)[j].value
                == #[trigger] set_plan_spec(state)[k].value ==> set_plan_spec(state)[j].address
                < set_plan_spec(state)[k].address,
        forall|k: int|
            0 <= k < set_plan_spec(state).len() ==> {
                let w = #[trigger] set_plan_spec(state)[k];
                &&& 1 <= w.address <= state.len()
                &&& w.value == command_spec(state[w.address - 1])
            },
{
    lemma_phase_writes(state, false);
    lemma_phase_writes(state, true);
    let off = phase_writes(state, false);
    let on = phase_writes(state, true);
    let plan = set_plan_spec(state);
    assert forall|k: int| 0 <= k < plan.len() implies (#[trigger] plan[k]).value == (if k
        < off.len() {
        RELAY_CMD_OFF
    } else {
        RELAY_CMD_ON
    }) && (k < off.len() ==> plan[k] == off[k]) && (k >= off.len() ==> plan[k] == on[k
        - off.len()]) by {
        if k < off.len() {
            assert(plan[k] == off[k]);
        } else {
            assert(plan[k] == on[k - off.len()]);
        }
    }
    assert forall|j: int, k: int|
        0 <= j < k < plan.len() && #[trigger] plan[j].value
            == #[trigger] plan[k].value implies plan[j].address < plan[k].address by {
        if k < off.len() {
            assert(off[j].address < off[k].address);
        } else if j >= off.len() {
            assert(on[j - off.len()].address < on[k - off.len()].address);
        }
    }
}

/// A register bank as the board keeps it: a write of the ON code stores 1, a
/// write of the OFF code stores 0, any other write leaves the register alone.
pub open spec fn device_write(regs: Seq<u16>, w: RelayWrite) -> Seq<u16> {
    if w.address < regs.len() && w.value == RELAY_CMD_ON {
        regs.update(w.address as int, 1)
    } else if w.address < regs.len() && w.value == RELAY_CMD_OFF {
        regs.update(w.address as int, 0)
    } else {
        regs
    }
}

/// The register bank after a sequence of writes, in order.
pub open spec fn device_apply(regs: Seq<u16>, writes: Seq<RelayWrite>) -> Seq<u16>
    decreases writes.len(),
{
    if writes.len() == 0 {
        regs
    } else {
        device_write(device_apply(regs, writes.drop_last()), writes.last())
    }
}

/// The relay states that a GET of `n` relays reads from a register bank.
pub open spec fn device_read(regs: Seq<u16>, n: nat) -> Seq<bool> {
    regs.subrange(1, n + 1 as int).map_values(|v: u16| reads_on(v))
}

proof fn lemma_apply_concat(regs: Seq<u16>, a: Seq<RelayWrite>, b: Seq<RelayWrite>)
    ensures
        device_apply(regs, a + b) == device_apply(device_apply(regs, a), b),
    decreases b.len(),
{
    if b.len() > 0 {
        assert((a + b).drop_last() =~= a + b.drop_last());
        lemma_apply_concat(regs, a, b.drop_last());
    }
}

proof fn lemma_apply_phase(regs: Seq<u16>, state: Seq<bool>, on: bool)
    requires
        state.len() < u16::MAX,
        state.len() < regs.len(),
    ensures
        device_apply(regs, phase_writes(state, on)).len() == regs.len(),
        forall|k: int|
            0 <= k < regs.len() ==> #[trigger] device_apply(regs, phase_writes(state, on))[k] == if 1
                <= k <= state.len() && state[k - 1] == on {
                if on {
                    1u16
                } else {
                    0u16
                }
            } else {
                regs[k]
            },
    decreases state.len(),
{
    if state.len() > 0 {
        let s0 = state.drop_last();
        lemma_apply_phase(regs, s0, on);
        let p0 = phase_writes(s0, on);
        if state.last() == on {
            assert(phase_writes(state, on).drop_last() =~= p0);
        }
    }
}

/// Round trip: against a board that keeps what it is written, a SET of any
/// state of `n` relays followed by a GET of `n` relays reads that state back.
pub proof fn lemma_set_then_get(state: Seq<bool>, regs: Seq<u16>)
    requires
        state.len() < u16::MAX,
        state.len() < regs.len(),
    ensures
        device_read(device_apply(regs, set_plan_spec(state)), state.len()) == state,
{
    let off = phase_writes(state, false);
    let on = phase_writes(state, true);
    lemma_apply_concat(regs, off, on);
    lemma_apply_phase(regs, state, false);
    let mid = device_apply(regs, off);
    lemma_apply_phase(mid, state, true);
    let fin = device_apply(mid, on);
    assert(device_read(fin, state.len()) =~= state);
}

/// A SET in progress. It hands out the writes of the plan one at a time; the
/// caller performs each and reports whether it succeeded. The first failure
/// ends the run: the writes already made stay made, and nothing more is handed
/// out.
pub struct SetRun {
    plan: Vec<RelayWrite>,
    attempted: usize,
    failed: bool,
}

impl SetRun {
    /// Every write of the run, in order.
    pub closed spec fn plan(&self) -> Seq<RelayWrite> {
        self.plan@
    }

    /// How many writes have been handed out and reported on.
    pub closed spec fn attempted(&self) -> nat {
        self.attempted as nat
    }

    /// Whether a write has failed.
    pub closed spec fn failed(&self) -> bool {
        self.failed
    }

    pub closed spec fn wf(&self) -> bool {
        self.attempted <= self.plan@.len()
    }

    /// The writes made so far, the failed one included.
    pub open spec fn issued(&self) -> Seq<RelayWrite> {
        self.plan().take(self.attempted() as int)
    }

    /// The write to make next, if the run goes on.
    pub open spec fn pending(&self) -> Option<RelayWrite> {
        if self.failed() || self.attempted() >= self.plan().len() {
            None
        } else {
            Some(self.plan()[self.attempted() as int])
        }
    }

    /// Starts a SET of `state`.
    pub fn new(state: &[bool]) -> (r: SetRun)
        requires
            state@.len() < u16::MAX,
        ensures
            r.wf(),
            r.plan() == set_plan_spec(state@),
            r.attempted() == 0,
            !r.failed(),
    {
        SetRun { plan: set_plan(state), attempted: 0, failed: false }
    }

    /// The write to make next, or `None` once the run has ended.
    pub fn next_write(&self) -> (r: Option<RelayWrite>)
        requires
            self.wf(),
        ensures
            r == self.pending(),
    {
        if self.failed || self.attempted >= self.plan.len() {
            None
        } else {
            Some(self.plan[self.attempted])
        }
    }

    /// Reports the outcome of the pending write.
    pub fn record(&mut self, ok: bool)
        requires
            old(self).wf(),
            old(self).pending() is Some,
        ensures
            final(self).wf(),
            final(self).plan() == old(self).plan(),
            final(self).attempted() == old(self).attempted() + 1,
            final(self).failed() == !ok,
            final(self).issued() == old(self).issued().push(old(self).pending()->0),
    {
        proof {
            assert(self.plan@.take(self.attempted + 1) =~= self.plan@.take(
                self.attempted as int,
            ).push(self.plan@[self.attempted as int]));
        }
        let n = self.plan.len();
        assert(self.attempted < n);
        self.attempted = self.attempted + 1;
        if !ok {
            self.failed = true;
        }
    }

    /// True once the run has ended, whether by success or by failure.
    pub fn is_finished(&self) -> (r: bool)
        requires
            self.wf(),
        ensures
            r == (self.pending() is None),
    {
        self.failed || self.attempted >= self.plan.len()
    }

    /// True when every write of the plan was made and none failed.
    pub fn succeeded(&self) -> (r: bool)
        requires
            self.wf(),
        ensures
            r == (!self.failed() && self.attempted() == self.plan().len()),
    {
        !self.failed && self.attempted == self.plan.len()
    }
}

/// Abort on failure: once a write of a SET has failed, the run hands out no
/// further write, and what it issued is the plan up to and including the
/// failed write: no later write of the plan is attempted.
pub proof fn lemma_abort_on_failure(before: SetRun, after: SetRun)
    requires
        before.wf(),
        before.pending() is Some,
        after.wf(),
        after.plan() == before.plan(),
        after.attempted() == before.attempted() + 1,
        after.failed(),
    ensures
        after.pending() is None,
        after.issued() == before.issued().push(before.pending()->0),
        after.issued() == after.plan().take(before.attempted() + 1 as int),
{
    assert(before.plan().take(before.attempted() + 1 as int) =~= before.issued().push(
        before.pending()->0,
    ));
}

} // verus!
