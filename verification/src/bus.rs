//! Bus operations, the plans made of them, and the routines that carry plans out.

use vstd::prelude::*;

verus! {

/// One operation on the bus of the target.
#[derive(Clone, Copy, Debug, PartialEq, Eq, Structural)]
pub enum BusOp {
    /// Read the register at `addr`; the reply is its value.
    Read { addr: u32 },
    /// Write `val` to the register at `addr`.
    Write { addr: u32, val: u32 },
    /// Let about `micros` microseconds pass.
    Delay { micros: u32 },
    /// Write dirty data-cache lines back and drop every data-cache line.
    CleanInvalidateDcache,
    /// Drop every instruction-cache line.
    InvalidateIcache,
}

/// What a routine asks for when it is resumed.
#[derive(Debug, PartialEq, Eq)]
pub enum Step<T> {
    /// Perform this operation, then resume with its reply.
    Do(BusOp),
    /// The routine is over, with this result.
    Finish(T),
}

/// A course of bus operations that ends in an `R`.
///
/// After `Do(op, next)` comes `next(reply)`, where `reply` is what a read
/// returned. A plan may therefore branch on every reply.
pub enum Plan<R> {
    Return(R),
    Do(BusOp, spec_fn(u32) -> Plan<R>),
}

/// `first`, and then what `rest` makes of its result.
///
/// A proof that follows a routine over several operations unfolds this with
/// `reveal_with_fuel`.
pub open spec fn chain<A, B>(first: Plan<A>, rest: spec_fn(A) -> Plan<B>) -> Plan<B>
    decreases first,
{
    match first {
        Plan::Return(a) => rest(a),
        Plan::Do(op, next) => Plan::Do(op, |reply: u32| chain(next(reply), rest)),
    }
}

/// An operation that took place, with the reply it got.
pub struct Event {
    pub op: BusOp,
    pub reply: u32,
}

/// How the hardware answers: the value that a read of the given register returns
/// after the given history.
pub type Device = spec_fn(Seq<Event>, u32) -> u32;

/// What `device` replies to `op` after `history`. Only a read has a reply of its own.
pub open spec fn reply_to(device: Device, history: Seq<Event>, op: BusOp) -> u32 {
    match op {
        BusOp::Read { addr } => device(history, addr),
        _ => 0,
    }
}

/// `history`, extended by `op` and what `device` replies to it.
pub open spec fn record(device: Device, history: Seq<Event>, op: BusOp) -> Seq<Event> {
    history.push(Event { op, reply: reply_to(device, history, op) })
}

/// The history when `plan` is over, and its result, on `device`, after `history`.
pub open spec fn run<R>(plan: Plan<R>, device: Device, history: Seq<Event>) -> (Seq<Event>, R)
    decreases plan,
{
    match plan {
        Plan::Return(r) => (history, r),
        Plan::Do(op, next) => run(
            next(reply_to(device, history, op)),
            device,
            record(device, history, op),
        ),
    }
}

/// A state machine that carries out a plan, one bus operation at a time.
pub trait Routine: Sized {
    type Output;

    /// What is left to do when the routine is resumed with `reply`.
    spec fn plan(self, reply: u32) -> Plan<Self::Output>;

    /// Takes the reply to the operation that was asked for last (it does not
    /// matter for a fresh routine, nor after an operation that is no read) and
    /// says what comes next.
    fn resume(&mut self, reply: u32) -> (step: Step<Self::Output>)
        ensures
            match step {
                Step::Do(op) => match old(self).plan(reply) {
                    Plan::Do(first, next) => {
                        &&& op == first
                        &&& forall|r: u32|
                            #![trigger next(r)]
                            #![trigger final(self).plan(r)]
                            next(r) == final(self).plan(r)
                    },
                    Plan::Return(_) => false,
                },
                Step::Finish(result) => old(self).plan(reply) == Plan::Return(result),
            },
    ;
}

/// A plan that is chained from two runs as the first and, from where that ends,
/// as what the second part makes of its result.
pub proof fn lemma_run_chain<A, B>(
    first: Plan<A>,
    rest: spec_fn(A) -> Plan<B>,
    device: Device,
    history: Seq<Event>,
)
    ensures
        run(chain(first, rest), device, history) == ({
            let (end, a) = run(first, device, history);
            run(rest(a), device, end)
        }),
    decreases first,
{
    match first {
        Plan::Return(_) => {},
        Plan::Do(op, next) => {
            lemma_run_chain(
                next(reply_to(device, history, op)),
                rest,
                device,
                record(device, history, op),
            );
        },
    }
}

/// A plan adds to the history and takes nothing back.
pub proof fn lemma_run_extends<R>(plan: Plan<R>, device: Device, history: Seq<Event>)
    ensures
        ({
            let end = run(plan, device, history).0;
            &&& history.len() <= end.len()
            &&& forall|i: int| 0 <= i < history.len() ==> end[i] == history[i]
        }),
    decreases plan,
{
    match plan {
        Plan::Return(_) => {},
        Plan::Do(op, next) => {
            lemma_run_extends(
                next(reply_to(device, history, op)),
                device,
                record(device, history, op),
            );
        },
    }
}

/// `step` and `after` are what one call of [`Routine::resume`] on `before` may give.
pub open spec fn resumed<M: Routine>(
    before: M,
    reply: u32,
    step: Step<M::Output>,
    after: M,
) -> bool {
    match step {
        Step::Do(op) => match before.plan(reply) {
            Plan::Do(first, next) => {
                &&& op == first
                &&& forall|r: u32|
                    #![trigger next(r)]
                    #![trigger after.plan(r)]
                    next(r) == after.plan(r)
            },
            Plan::Return(_) => false,
        },
        Step::Finish(result) => before.plan(reply) == Plan::Return(result),
    }
}

/// Resumes `routine`, in terms of [`resumed`]: so every drive of a routine is one
/// that the laws on [`driven`] speak of.
pub fn advance<M: Routine>(routine: &mut M, reply: u32) -> (step: Step<M::Output>)
    ensures
        resumed(*old(routine), reply, step, *final(routine)),
{
    routine.resume(reply)
}

/// The routine goes through `states` while it is resumed, `steps` are its answers so
/// far, and every operation is performed on `device`. It is not resumed once it has
/// finished; it need not have finished yet.
pub open spec fn driven<M: Routine>(
    states: Seq<M>,
    steps: Seq<Step<M::Output>>,
    device: Device,
    history: Seq<Event>,
    reply: u32,
) -> bool
    decreases steps.len(),
{
    &&& states.len() == steps.len() + 1
    &&& steps.len() > 0 ==> {
        &&& resumed(states[0], reply, steps[0], states[1])
        &&& match steps[0] {
            Step::Finish(_) => steps.len() == 1,
            Step::Do(op) => driven(
                states.drop_first(),
                steps.drop_first(),
                device,
                record(device, history, op),
                reply_to(device, history, op),
            ),
        }
    }
}

/// The history after every operation of `steps` was performed on `device`.
pub open spec fn performed<T>(
    steps: Seq<Step<T>>,
    device: Device,
    history: Seq<Event>,
) -> Seq<Event>
    decreases steps.len(),
{
    if steps.len() == 0 {
        history
    } else {
        match steps[0] {
            Step::Finish(_) => history,
            Step::Do(op) => performed(steps.drop_first(), device, record(device, history, op)),
        }
    }
}

/// A routine that is resumed until it finishes has run its plan: it performed the
/// operations of the plan, and its result is that of the plan. So what holds of
/// [`run`] holds of the routine on the hardware.
pub proof fn law_driven_routine_runs_its_plan<M: Routine>(
    states: Seq<M>,
    steps: Seq<Step<M::Output>>,
    device: Device,
    history: Seq<Event>,
    reply: u32,
)
    requires
        driven(states, steps, device, history, reply),
        steps.len() > 0,
        steps.last() is Finish,
    ensures
        run(states[0].plan(reply), device, history) == (
            performed(steps, device, history),
            steps.last()->Finish_0,
        ),
    decreases steps.len(),
{
    match steps[0] {
        Step::Finish(_) => {},
        Step::Do(op) => {
            law_driven_routine_runs_its_plan(
                states.drop_first(),
                steps.drop_first(),
                device,
                record(device, history, op),
                reply_to(device, history, op),
            );
        },
    }
}

/// A routine never outlasts its plan: however often it has been resumed, finished or
/// not, it has asked for no more operations than its plan holds, and those that were
/// performed are the first of the plan. So a routine whose plan is bounded cannot go
/// on for ever.
pub proof fn law_driven_routine_keeps_to_its_plan<M: Routine>(
    states: Seq<M>,
    steps: Seq<Step<M::Output>>,
    device: Device,
    history: Seq<Event>,
    reply: u32,
)
    requires
        driven(states, steps, device, history, reply),
    ensures
        ({
            let end = run(states[0].plan(reply), device, history).0;
            let now = performed(steps, device, history);
            &&& history.len() + steps.len() <= end.len() + 1
            &&& now.len() <= end.len()
            &&& forall|i: int| 0 <= i < now.len() ==> now[i] == end[i]
        }),
    decreases steps.len(),
{
    lemma_run_extends(states[0].plan(reply), device, history);
    if steps.len() > 0 {
        if let Step::Do(op) = steps[0] {
            law_driven_routine_keeps_to_its_plan(
                states.drop_first(),
                steps.drop_first(),
                device,
                record(device, history, op),
                reply_to(device, history, op),
            );
        }
    }
}

} // verus!
