//! The module contract: every simulated program exposes a stable name, a
//! one-line signature for listings, and a planner that turns the run inputs
//! into a script of output stages. The host drives the script through a
//! `ScriptRunner`, polling the shared exit signal at every stage boundary, so
//! a planned run observes cancellation exactly as the contract asks.

use vstd::prelude::*;

use crate::engine::Script;

verus! {

/// Per-run ingredients that a module cannot draw for itself: the immutable
/// word lists it samples from, how many items to simulate, and numbers
/// already drawn from the clustering distribution (the host owns that
/// sampler, since it works in floating point).
pub struct PlanInputs {
    /// The candidate name pool the module picks from, without repetition.
    pub candidates: Vec<String>,
    /// A secondary pool (image tags); empty where a module has no use for it.
    pub tags: Vec<String>,
    /// How many items (packages, images) the run simulates.
    pub count: usize,
    /// Samples from the clustering distribution, consumed in order.
    pub clustered: Vec<u64>,
}

pub trait Module {
    /// Stable identifier, unique across variants, used for selection.
    spec fn spec_name(&self) -> Seq<char>;

    /// One-line description of the simulated command.
    spec fn spec_signature(&self) -> Seq<char>;

    /// What the module asks of its run inputs.
    spec fn inputs_ok(&self, inputs: &PlanInputs) -> bool;

    /// The shape every script planned from `inputs` has.
    spec fn plan_ok(&self, inputs: &PlanInputs, s: Script) -> bool;

    fn name(&self) -> (r: String)
        ensures
            r@ == self.spec_name(),
    ;

    fn signature(&self) -> (r: String)
        ensures
            r@ == self.spec_signature(),
    ;

    /// Builds the randomized script of one run. The host emits it through a
    /// `ScriptRunner`, which polls the exit signal at the boundaries the
    /// script marks.
    fn plan(&self, inputs: &PlanInputs) -> (s: Script)
        requires
            self.inputs_ok(inputs),
        ensures
            self.plan_ok(inputs, s),
    ;
}

} // verus!
