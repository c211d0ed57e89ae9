//! An iterative agent core: free-text instructions are resolved into
//! structured goals, decomposed into ordered task plans, and applied to a
//! versioned world state through a fixed six-phase transformation pipeline,
//! with a convergence policy deciding when the loop stops.

use vstd::prelude::*;

pub mod agent;
pub mod command;
pub mod intent;
pub mod requirements;
pub mod text;
pub mod transformation;
pub mod world;

pub use agent::UnifiedAgent;
pub use command::{CommandStack, ExecutionPlan};
pub use intent::{Goal, IntentResolver};
pub use requirements::{Requirement, RequirementsEngineer, RequirementsSpecification};
pub use transformation::{TransformationPhase, WorldTransformer};
pub use world::World;

use crate::world::WorldView;

verus! {

/// The ways a run can fail. Resolution refuses empty instructions and,
/// when charter enforcement is on, instructions that delegate the final
/// decision away from a human.
#[derive(Clone, Copy, Debug, PartialEq, Eq, Structural)]
pub enum AgentError {
    /// The instruction was empty after trimming.
    EmptyInput,
    /// The instruction asks for automatic decisions without a human involved.
    CharterViolation,
}

impl AgentError {
    /// A human-readable description of the error.
    pub fn message(&self) -> (r: String)
        ensures
            *self == AgentError::EmptyInput ==> r@ == "empty input: no goal can be resolved"@,
            *self == AgentError::CharterViolation ==> r@
                == "憲章違反: 最終判断は人間が行う必要があります"@,
    {
        match self {
            AgentError::EmptyInput => "empty input: no goal can be resolved".to_owned(),
            AgentError::CharterViolation => "憲章違反: 最終判断は人間が行う必要があります".to_owned(),
        }
    }
}

/// The outcome of one full run: the world as it was handed in, the world
/// after the final iteration, how many iterations completed, and whether
/// the convergence test was met.
#[derive(Debug, Clone)]
pub struct AgentResult {
    pub initial_world: World,
    pub final_world: World,
    pub iterations: usize,
    pub converged: bool,
}

/// An `AgentResult`, as a mathematical value.
#[verifier::ext_equal]
pub ghost struct AgentResultView {
    pub initial_world: WorldView,
    pub final_world: WorldView,
    pub iterations: nat,
    pub converged: bool,
}

impl View for AgentResult {
    type V = AgentResultView;

    open spec fn view(&self) -> AgentResultView {
        AgentResultView {
            initial_world: self.initial_world@,
            final_world: self.final_world@,
            iterations: self.iterations as nat,
            converged: self.converged,
        }
    }
}

} // verus!
