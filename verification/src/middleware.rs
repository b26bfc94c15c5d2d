//! Middlewares: asked in order, until one objects.

use vstd::prelude::*;

verus! {

/// What a middleware says to a message.
#[derive(Debug, Clone, Copy, PartialEq, Eq, Structural)]
pub enum MiddlewareResult {
    /// It may be handed on to the application
    Continue,
    /// It may not
    Stop,
}

/// What to do next with a chain of middlewares.
#[derive(Debug, Clone, Copy, PartialEq, Eq, Structural)]
pub enum ChainStep {
    /// Ask this one
    Ask(usize),
    /// None objects
    Pass,
    /// One objects; the others are not asked
    Stop,
}

/// Where a chain of so many middlewares stands after these answers, of which
/// each says whether that middleware agrees.
pub open spec fn chain_after(count: nat, answers: Seq<bool>) -> ChainStep {
    if answers.contains(false) {
        ChainStep::Stop
    } else if answers.len() >= count {
        ChainStep::Pass
    } else {
        ChainStep::Ask(answers.len() as usize)
    }
}

/// A chain of middlewares that is being asked.
#[derive(Debug)]
pub struct MiddlewareChain {
    count: usize,
    asked: usize,
}

impl MiddlewareChain {
    /// How many middlewares there are.
    pub closed spec fn count(&self) -> nat {
        self.count as nat
    }

    /// How many of them have agreed.
    pub closed spec fn agreed(&self) -> nat {
        self.asked as nat
    }

    /// The first step with so many middlewares.
    pub fn start(count: usize) -> (r: (MiddlewareChain, ChainStep))
        ensures
            r.0.count() == count,
            r.0.agreed() == 0,
            r.1 == chain_after(count as nat, Seq::empty()),
    {
        let chain = MiddlewareChain { count, asked: 0 };
        if count == 0 {
            (chain, ChainStep::Pass)
        } else {
            (chain, ChainStep::Ask(0))
        }
    }

    /// The step after the next middleware has answered whether it agrees.
    fn answer(&mut self, agrees: bool) -> (step: ChainStep)
        requires
            old(self).agreed() < old(self).count(),
        ensures
            final(self).count() == old(self).count(),
            final(self).agreed() == if agrees {
                old(self).agreed() + 1
            } else {
                old(self).agreed()
            },
            step == if !agrees {
                ChainStep::Stop
            } else if old(self).agreed() + 1 >= old(self).count() {
                ChainStep::Pass
            } else {
                ChainStep::Ask((old(self).agreed() + 1) as usize)
            },
    {
        if !agrees {
            return ChainStep::Stop;
        }
        self.asked = self.asked + 1;
        if self.asked >= self.count {
            ChainStep::Pass
        } else {
            ChainStep::Ask(self.asked)
        }
    }

    /// The step after a middleware has said whether it allows a connection.
    pub fn on_connect_answer(&mut self, allowed: bool) -> (step: ChainStep)
        requires
            old(self).agreed() < old(self).count(),
        ensures
            final(self).count() == old(self).count(),
            final(self).agreed() == if allowed {
                old(self).agreed() + 1
            } else {
                old(self).agreed()
            },
            step == if !allowed {
                ChainStep::Stop
            } else if old(self).agreed() + 1 >= old(self).count() {
                ChainStep::Pass
            } else {
                ChainStep::Ask((old(self).agreed() + 1) as usize)
            },
    {
        self.answer(allowed)
    }

    /// The step after a middleware has said what to do with a message.
    pub fn on_message_answer(&mut self, result: MiddlewareResult) -> (step: ChainStep)
        requires
            old(self).agreed() < old(self).count(),
        ensures
            final(self).count() == old(self).count(),
            final(self).agreed() == if result == MiddlewareResult::Continue {
                old(self).agreed() + 1
            } else {
                old(self).agreed()
            },
            step == if result == MiddlewareResult::Stop {
                ChainStep::Stop
            } else if old(self).agreed() + 1 >= old(self).count() {
                ChainStep::Pass
            } else {
                ChainStep::Ask((old(self).agreed() + 1) as usize)
            },
    {
        match result {
            MiddlewareResult::Continue => self.answer(true),
            MiddlewareResult::Stop => self.answer(false),
        }
    }
}

/// After agreement from all that were asked, one more answer decides: an
/// objection stops the chain, the last agreement passes it, any other asks the
/// next.
pub proof fn lemma_chain_step(count: nat, answers: Seq<bool>, agrees: bool)
    requires
        count <= usize::MAX,
        answers.len() < count,
        !answers.contains(false),
    ensures
        chain_after(count, answers.push(agrees)) == if !agrees {
            ChainStep::Stop
        } else if answers.len() + 1 >= count {
            ChainStep::Pass
        } else {
            ChainStep::Ask((answers.len() + 1) as usize)
        },
{
    let after = answers.push(agrees);
    if !agrees {
        assert(after[answers.len() as int] == false);
    } else if after.contains(false) {
        let i = choose|i: int| 0 <= i < after.len() && after[i] == false;
        assert(answers[i] == false);
    }
}

/// A message or a connection passes only if every middleware agrees, and an
/// objection stops it whatever the others would say.
pub proof fn lemma_chain_verdict(count: nat, answers: Seq<bool>)
    requires
        count <= usize::MAX,
        answers.len() <= count,
    ensures
        chain_after(count, answers) == ChainStep::Pass ==> answers.len() == count && forall|i: int|
            0 <= i < count ==> #[trigger] answers[i],
        (exists|i: int| 0 <= i < answers.len() && !#[trigger] answers[i]) ==> chain_after(
            count,
            answers,
        ) == ChainStep::Stop,
{
    if exists|i: int| 0 <= i < answers.len() && !#[trigger] answers[i] {
        let i = choose|i: int| 0 <= i < answers.len() && !#[trigger] answers[i];
        assert(answers[i] == false);
    }
    if chain_after(count, answers) == ChainStep::Pass {
        assert forall|i: int| 0 <= i < count implies #[trigger] answers[i] by {
            if !answers[i] {
                assert(answers[i] == false);
            }
        }
    }
}

} // verus!
