//! State machines that work through the hardware abstraction layer.
//!
//! A machine names the call that is next; the caller makes it and hands
//! the reply back, until no call is pending or a reply is fatal. What a
//! machine does with a sequence of replies is a function of its state and
//! of the replies alone.

use crate::fatal::Fatal;
use crate::hal::{HalCall, HalReply};
use vstd::prelude::*;

verus! {

/// A machine that alternates calls into the hardware abstraction layer
/// with decisions on what came back.
pub trait Machine: Sized {
    /// The state of the machine as a plain value.
    type State;

    /// The state that the machine is in.
    spec fn model(&self) -> Self::State;

    /// The call that the machine is waiting for in a state, if any.
    spec fn call_in(state: Self::State) -> Option<HalCall>;

    /// What the machine makes of a reply in a state: the state it goes on
    /// in, or the failure that ends it.
    spec fn step(state: Self::State, reply: HalReply) -> Result<Self::State, Fatal>;

    /// The call to make next, or none where nothing is left to do.
    fn pending(&self) -> (call: Option<HalCall>)
        ensures
            call == Self::call_in(self.model()),
    ;

    /// Takes the reply to the pending call and moves on, or fails for good.
    fn reply(self, reply: &HalReply) -> (r: Result<Self, Fatal>)
        ensures
            Self::step(self.model(), *reply) == match r {
                Ok(next) => Ok::<Self::State, Fatal>(next.model()),
                Err(f) => Err::<Self::State, Fatal>(f),
            },
    ;
}

/// The state of the machine that a step gave, or the failure.
pub open spec fn outcome<M: Machine>(r: Result<M, Fatal>) -> Result<M::State, Fatal> {
    match r {
        Ok(machine) => Ok(machine.model()),
        Err(f) => Err(f),
    }
}

/// Where a machine stands after the replies from `from` on: the state it
/// has reached, or the failure that ended it.
pub open spec fn run_from<M: Machine>(state: M::State, replies: Seq<HalReply>, from: int) -> Result<
    M::State,
    Fatal,
>
    decreases replies.len() - from,
{
    if 0 <= from < replies.len() {
        match M::step(state, replies[from]) {
            Ok(next) => run_from::<M>(next, replies, from + 1),
            Err(f) => Err(f),
        }
    } else {
        Ok(state)
    }
}

/// The calls that a machine has made once the replies from `from` on are
/// used up: one for each reply, as long as a call is pending and none has
/// failed.
pub open spec fn calls_from<M: Machine>(state: M::State, replies: Seq<HalReply>, from: int) -> Seq<
    HalCall,
>
    decreases replies.len() - from,
{
    if 0 <= from < replies.len() && M::call_in(state) is Some {
        seq![M::call_in(state)->0] + match M::step(state, replies[from]) {
            Ok(next) => calls_from::<M>(next, replies, from + 1),
            Err(f) => Seq::<HalCall>::empty(),
        }
    } else {
        Seq::<HalCall>::empty()
    }
}

/// Hands a machine the replies of a recorded session, one after the other,
/// up to the first that is fatal.
pub fn replay<M: Machine>(machine: M, replies: &[HalReply]) -> (r: Result<M, Fatal>)
    ensures
        outcome(r) == run_from::<M>(machine.model(), replies@, 0),
{
    let ghost start = machine.model();
    let mut current = machine;
    let mut i: usize = 0;
    while i < replies.len()
        invariant
            i <= replies.len(),
            start == machine.model(),
            run_from::<M>(start, replies@, 0) == run_from::<M>(current.model(), replies@, i as int),
        decreases replies.len() - i,
    {
        let ghost before = current.model();
        match current.reply(&replies[i]) {
            Ok(next) => {
                assert(run_from::<M>(before, replies@, i as int) == run_from::<M>(
                    next.model(),
                    replies@,
                    i + 1,
                ));
                current = next;
            },
            Err(f) => {
                return Err(f);
            },
        }
        i = i + 1;
    }
    Ok(current)
}

} // verus!
