//! The calls of normal control on its policy.

use vstd::prelude::*;
use crate::config::ValidatedConfig;
use crate::control_cycle::{CompleteSampleSet, ControlPolicy};
use crate::demand::FanOutputs;
use crate::trace::{CallOn, Effect, Trace};

verus! {

/// A call of normal control on its policy, with what was asked and what came back.
#[allow(inconsistent_fields)]
pub enum PolicyCall {
    Sample {
        answer: Result<CompleteSampleSet, String>,
    },
    Propose {
        config: ValidatedConfig,
        sample: CompleteSampleSet,
        answer: Result<FanOutputs, String>,
    },
    Commit,
}

impl<E: ControlPolicy + ?Sized> CallOn<E> for PolicyCall {
    open spec fn came(self, before: &E, after: &E) -> bool {
        after.history() == before.history().push(self)
    }
}

impl Effect for PolicyCall {
    open spec fn acts(self) -> bool {
        match self {
            PolicyCall::Sample { .. } => true,
            PolicyCall::Propose { .. } => true,
            PolicyCall::Commit => true,
        }
    }
}

impl<'a, E: ControlPolicy + ?Sized> Trace<'a, E, PolicyCall> {
    /// Calls `sample`.
    pub(crate) fn sample(&mut self, policy: &mut E) -> (answer: Result<CompleteSampleSet, String>)
        requires
            old(self).follows(&*old(policy)),
        ensures
            final(self).follows(&*final(policy)),
            final(self).start() == old(self).start(),
            final(self).calls() == old(self).calls().push(PolicyCall::Sample { answer }),
    {
        let ghost before = &*policy;
        let answer = policy.sample();
        self.add(Ghost(before), Ghost(PolicyCall::Sample { answer }), policy);
        answer
    }

    /// Calls `propose`.
    pub(crate) fn propose(
        &mut self,
        policy: &mut E,
        config: &ValidatedConfig,
        sample: CompleteSampleSet,
    ) -> (answer: Result<FanOutputs, String>)
        requires
            old(self).follows(&*old(policy)),
        ensures
            final(self).follows(&*final(policy)),
            final(self).start() == old(self).start(),
            final(self).calls() == old(self).calls().push(
                PolicyCall::Propose { config: *config, sample, answer },
            ),
    {
        let ghost before = &*policy;
        let answer = policy.propose(config, sample);
        self.add(
            Ghost(before),
            Ghost(PolicyCall::Propose { config: *config, sample, answer }),
            policy,
        );
        answer
    }

    /// Calls `commit`.
    pub(crate) fn commit(&mut self, policy: &mut E) -> (answer: ())
        requires
            old(self).follows(&*old(policy)),
        ensures
            final(self).follows(&*final(policy)),
            final(self).start() == old(self).start(),
            final(self).calls() == old(self).calls().push(PolicyCall::Commit),
    {
        let ghost before = &*policy;
        let answer = policy.commit();
        self.add(Ghost(before), Ghost(PolicyCall::Commit), policy);
        answer
    }
}

} // verus!
