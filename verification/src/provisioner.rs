//! The entry of the provisioning step: read the profile once, then follow
//! the development or the release path to its end.

use crate::config::{BuildConfig, BuildProfile};
use crate::dev;
use crate::plan::{plan_for, Plan, PlanModel};
use crate::protocol::{
    answers, Action, Directive, DirectiveModel, Outcome, OutcomeModel, Step, StepModel,
};
use crate::release;
use vstd::prelude::*;

verus! {

/// The work that a build of `profile` can ask for.
pub open spec fn awaits(profile: BuildProfile, action: Action) -> bool {
    match profile {
        BuildProfile::Development => dev::awaits(action),
        BuildProfile::Release => release::awaits(action),
    }
}

/// How a run opens.
pub open spec fn first_step(plan: PlanModel) -> StepModel {
    match plan.profile {
        BuildProfile::Development => dev::first_step(),
        BuildProfile::Release => release::first_step(),
    }
}

/// What a run decides once `action` has had `outcome`.
pub open spec fn next_step(plan: PlanModel, action: Action, outcome: OutcomeModel) -> StepModel {
    match plan.profile {
        BuildProfile::Development => dev::next_step(plan, action, outcome),
        BuildProfile::Release => release::next_step(plan, action, outcome),
    }
}

/// The work that is outstanding once `directive` is given: the work it
/// asks for, and none where it ends the run.
pub open spec fn outstanding(directive: DirectiveModel) -> Option<Action> {
    match directive {
        DirectiveModel::Perform(action) => Some(action),
        _ => None,
    }
}

/// A run asks only for work of its own profile: none of the toolchain's in
/// a development build, no placeholder in a release build.
pub proof fn asks_within_profile(plan: PlanModel, action: Action, outcome: OutcomeModel)
    requires
        awaits(plan.profile, action),
    ensures
        first_step(plan).directive matches DirectiveModel::Perform(first) && awaits(
            plan.profile,
            first,
        ),
        next_step(plan, action, outcome).directive matches DirectiveModel::Perform(then)
            ==> awaits(plan.profile, then),
{
}

/// Whether a build of `profile` can ask for `action`.
pub fn awaited(profile: BuildProfile, action: Action) -> (yes: bool)
    ensures
        yes == awaits(profile, action),
{
    match profile {
        BuildProfile::Development => dev::awaited(action),
        BuildProfile::Release => release::awaited(action),
    }
}

/// Opens the run that `plan` describes.
pub fn begin(plan: &Plan) -> (step: Step)
    ensures
        step@ == first_step(plan@),
{
    match plan.profile {
        BuildProfile::Development => dev::begin(),
        BuildProfile::Release => release::begin(),
    }
}

/// Decides what follows `action`, now that it has had `outcome`.
pub fn advance(plan: &Plan, action: Action, outcome: &Outcome) -> (step: Step)
    requires
        awaits(plan.profile, action),
        answers(action, outcome@),
    ensures
        step@ == next_step(plan@, action, outcome@),
{
    match plan.profile {
        BuildProfile::Development => dev::next(plan, action, outcome),
        BuildProfile::Release => release::next(plan, action, outcome),
    }
}

/// A run in progress: its plan, and the work it is waiting for.
pub struct Provisioner {
    plan: Plan,
    pending: Option<Action>,
}

impl Provisioner {
    #[verifier::type_invariant]
    spec fn sound(self) -> bool {
        self.pending matches Some(action) ==> awaits(self.plan.profile, action)
    }

    /// The plan that the run follows.
    pub closed spec fn plan_model(&self) -> PlanModel {
        self.plan@
    }

    /// The work that the run waits for; none once it has ended.
    pub closed spec fn awaited_action(&self) -> Option<Action> {
        self.pending
    }

    /// Plans the build that `config` describes and opens its run.
    pub fn start(config: &BuildConfig) -> (opened: (Provisioner, Step))
        ensures
            opened.0.plan_model() == plan_for(config@),
            opened.1@ == first_step(plan_for(config@)),
            opened.0.awaited_action() == outstanding(opened.1@.directive),
    {
        let plan = Plan::new(config);
        let step = begin(&plan);
        let pending = match &step.directive {
            Directive::Perform(action) => Some(*action),
            _ => None,
        };
        (Provisioner { plan, pending }, step)
    }

    /// The plan that the run follows.
    pub fn plan(&self) -> (plan: &Plan)
        ensures
            plan@ == self.plan_model(),
    {
        &self.plan
    }

    /// The work that the run waits for; none once it has ended.
    pub fn pending(&self) -> (pending: Option<Action>)
        ensures
            pending == self.awaited_action(),
    {
        self.pending
    }

    /// Takes the outcome of the awaited work and decides what follows.
    /// Where no work is awaited, or `outcome` is no answer to it, nothing
    /// is decided and the run stays as it is.
    pub fn advance(&mut self, outcome: &Outcome) -> (decided: Option<Step>)
        ensures
            final(self).plan_model() == old(self).plan_model(),
            match old(self).awaited_action() {
                Some(action) if answers(action, outcome@) => {
                    &&& decided matches Some(step)
                    &&& step@ == next_step(old(self).plan_model(), action, outcome@)
                    &&& final(self).awaited_action() == outstanding(step@.directive)
                },
                _ => decided is None && final(self).awaited_action() == old(self).awaited_action(),
            },
    {
        proof {
            use_type_invariant(&*self);
        }
        match self.pending {
            Some(action) => {
                if outcome.answers(action) {
                    let step = advance(&self.plan, action, outcome);
                    proof {
                        asks_within_profile(self.plan@, action, outcome@);
                    }
                    self.pending = match &step.directive {
                        Directive::Perform(then) => Some(*then),
                        _ => None,
                    };
                    Some(step)
                } else {
                    None
                }
            },
            None => None,
        }
    }
}

} // verus!
