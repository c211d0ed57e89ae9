//! The agent loop: each iteration resolves the original instruction into a
//! goal, decomposes it into a plan, applies the plan to the world, and then
//! tests for convergence. The loop stops as soon as it converges, and never
//! runs more than the configured number of iterations.

use vstd::prelude::*;

use crate::command::{decompose_spec, CommandStack};
use crate::intent::{resolve_spec, GoalView, IntentResolver};
use crate::text::{dec3_string, push_dec};
use crate::transformation::{
    executed_entries, integration_summary, plan_decision, plan_learning, WorldTransformer,
};
use crate::world::{World, WorldView};
use crate::{AgentError, AgentResult, AgentResultView};

verus! {

/// The convergence test after `iterations` completed iterations, on the
/// world those iterations produced. Either the logs alone suffice (at least
/// two history entries and one learning per iteration), or the score
/// `min(1, history / (3 * iterations))` reaches the threshold, which is
/// given in thousandths.
pub open spec fn converged_spec(w: WorldView, iterations: nat, threshold_milli: u32) -> bool {
    let h = w.context.history.len();
    let l = w.knowledge.learnings.len();
    ||| (h >= 2 * iterations && l >= iterations)
    ||| (threshold_milli <= 1000 && 1000 * h >= 3 * iterations * threshold_milli)
}

/// `base` repeated `n` times, in order.
pub open spec fn repeated_entries(base: Seq<Seq<char>>, n: nat) -> Seq<Seq<char>>
    decreases n,
{
    if n == 0 {
        Seq::empty()
    } else {
        repeated_entries(base, (n - 1) as nat) + base
    }
}

/// After `iterations` completed iterations on the fixed `input`, the world
/// has grown by exactly the per-iteration effects of the plan the input
/// determines: the history gained that plan's entries once per iteration;
/// every appended learning records the plan at its iteration's version, and
/// every appended decision records the plan, when the transformer enforces
/// the charter; and the metadata holds the last iteration's integration
/// summary.
pub open spec fn growth_ok(
    agent: UnifiedAgent,
    input: Seq<char>,
    w0: WorldView,
    w: WorldView,
    iterations: nat,
) -> bool {
    resolve_spec(agent.intent_resolver.enforce_charter, input) matches Ok(g) && {
        let plan = decompose_spec(g);
        let learnings0 = w0.knowledge.learnings.len() as int;
        &&& w.context.history.len() == w0.context.history.len() + iterations * plan.tasks.len()
        &&& w.context.history == w0.context.history + repeated_entries(
            executed_entries(plan),
            iterations,
        )
        &&& w.knowledge.learnings.len() == w0.knowledge.learnings.len() + iterations
        &&& forall|j: int|
            learnings0 <= j < w.knowledge.learnings.len() ==> plan_learning(
                #[trigger] w.knowledge.learnings[j],
                plan,
                (w0.version + (j - learnings0)) as nat,
            )
        &&& w.knowledge.decisions.len() == w0.knowledge.decisions.len() + (
        if agent.world_transformer.enforce_charter {
            iterations as int
        } else {
            0
        })
        &&& (agent.world_transformer.enforce_charter ==> forall|j: int|
            w0.knowledge.decisions.len() <= j < w.knowledge.decisions.len() ==> plan_decision(
                #[trigger] w.knowledge.decisions[j],
                plan,
            ))
        &&& (iterations >= 1 ==> w.metadata == w0.metadata.insert(
            "last_integration"@,
            integration_summary(plan, (w0.version + iterations - 1) as nat),
        ))
    }
}

/// Everything a successful run promises. The returned initial world is the
/// one handed in; the loop ran at most `max_iterations` times; the version
/// advanced by exactly one per iteration; history, learnings and decisions
/// only grew, by a fixed amount per iteration of the (input-determined)
/// plan; the principles and the rest of the context never changed; a
/// claimed convergence really met the convergence test, and a reported
/// non-convergence really failed it at the final iteration.
pub open spec fn run_ok(
    agent: UnifiedAgent,
    input: Seq<char>,
    w0: WorldView,
    res: AgentResultView,
) -> bool {
    let resolved = resolve_spec(agent.intent_resolver.enforce_charter, input);
    &&& res.initial_world == w0
    &&& res.iterations <= agent.max_iterations
    &&& res.final_world.version == w0.version + res.iterations
    &&& w0.context.history.is_prefix_of(res.final_world.context.history)
    &&& w0.knowledge.learnings.is_prefix_of(res.final_world.knowledge.learnings)
    &&& w0.knowledge.decisions.is_prefix_of(res.final_world.knowledge.decisions)
    &&& res.final_world.knowledge.principles == w0.knowledge.principles
    &&& res.final_world.context.working_directory == w0.context.working_directory
    &&& res.final_world.context.environment == w0.context.environment
    &&& res.final_world.filesystem == w0.filesystem
    &&& (res.converged ==> res.iterations >= 1 && converged_spec(
        res.final_world,
        res.iterations,
        agent.convergence_threshold,
    ))
    &&& (!res.converged && res.iterations >= 1 ==> !converged_spec(
        res.final_world,
        res.iterations,
        agent.convergence_threshold,
    ))
    &&& (!res.converged ==> res.iterations == agent.max_iterations)
    &&& (agent.max_iterations == 0 ==> res.final_world == w0 && res.iterations == 0
        && !res.converged)
    &&& (res.iterations >= 1 ==> growth_ok(agent, input, w0, res.final_world, res.iterations))
}

/// The line `status` renders: both configuration values, the threshold
/// shown as a decimal fraction.
pub open spec fn status_line(max_iterations: nat, threshold_milli: nat) -> Seq<char> {
    "UnifiedAgent { max_iterations: "@ + crate::text::dec_str(max_iterations)
        + ", convergence_threshold: "@ + crate::text::dec_str(threshold_milli / 1000) + "."@
        + crate::text::dec3_str(threshold_milli % 1000) + " }"@
}

/// Runs the resolve–plan–transform–check loop over one world.
pub struct UnifiedAgent {
    pub intent_resolver: IntentResolver,
    pub command_stack: CommandStack,
    pub world_transformer: WorldTransformer,
    /// The loop bound: no run performs more iterations than this.
    pub max_iterations: usize,
    /// The convergence threshold, in thousandths: 800 stands for 0.8.
    pub convergence_threshold: u32,
}

impl UnifiedAgent {
    /// An agent with charter enforcement on; the threshold is given in
    /// thousandths.
    pub fn new(max_iterations: usize, convergence_threshold: u32) -> (r: Self)
        ensures
            r.max_iterations == max_iterations,
            r.convergence_threshold == convergence_threshold,
            r.intent_resolver.enforce_charter,
            r.world_transformer.enforce_charter,
    {
        UnifiedAgent {
            intent_resolver: IntentResolver::default(),
            command_stack: CommandStack::default(),
            world_transformer: WorldTransformer::default(),
            max_iterations,
            convergence_threshold,
        }
    }

    /// Runs the loop on `input` over `initial_world`. A successful result
    /// satisfies `run_ok`; a failed run returns exactly the resolution
    /// error, and only when at least one iteration was attempted. The
    /// caller leaves room for the version counter to advance once per
    /// iteration without overflowing the machine word.
    pub fn run(&self, input: &str, initial_world: World) -> (r: Result<AgentResult, AgentError>)
        requires
            initial_world.version + self.max_iterations <= usize::MAX,
        ensures
            match r {
                Ok(res) => run_ok(*self, input@, initial_world@, res@),
                Err(e) => self.max_iterations > 0 && resolve_spec(
                    self.intent_resolver.enforce_charter,
                    input@,
                ) == Err::<GoalView, AgentError>(e),
            },
    {
        let ghost w0 = initial_world@;
        let mut world = initial_world.snapshot();
        let mut iterations: usize = 0;
        let mut converged = false;
        while iterations < self.max_iterations && !converged
            invariant
                iterations <= self.max_iterations,
                w0.version + self.max_iterations <= usize::MAX,
                world@.version == w0.version + iterations,
                world@.filesystem == w0.filesystem,
                world@.context.working_directory == w0.context.working_directory,
                world@.context.environment == w0.context.environment,
                world@.knowledge.principles == w0.knowledge.principles,
                w0.context.history.is_prefix_of(world@.context.history),
                w0.knowledge.learnings.is_prefix_of(world@.knowledge.learnings),
                w0.knowledge.decisions.is_prefix_of(world@.knowledge.decisions),
                iterations == 0 ==> world@ == w0,
                converged ==> iterations >= 1 && converged_spec(
                    world@,
                    iterations as nat,
                    self.convergence_threshold,
                ),
                !converged && iterations >= 1 ==> !converged_spec(
                    world@,
                    iterations as nat,
                    self.convergence_threshold,
                ),
                iterations >= 1 ==> growth_ok(*self, input@, w0, world@, iterations as nat),
            decreases self.max_iterations - iterations,
        {
            let ghost k_prev = iterations as nat;
            let ghost w_prev = world@;
            iterations += 1;
            let goal = match self.intent_resolver.resolve(input) {
                Ok(g) => g,
                Err(e) => {
                    return Err(e);
                },
            };
            let plan = match self.command_stack.decompose(goal) {
                Ok(p) => p,
                Err(e) => {
                    return Err(e);
                },
            };
            let ghost plan_view = plan@;
            world = match self.world_transformer.apply(plan, world) {
                Ok(w) => w,
                Err(e) => {
                    return Err(e);
                },
            };
            converged = self.check_convergence(&world, iterations);
            proof {
                let len0 = w0.context.history.len() as int;
                assert(world@.context.history.take(len0) =~= w_prev.context.history.take(len0));
                assert(world@.knowledge.learnings.drop_last().take(
                    w0.knowledge.learnings.len() as int,
                ) =~= world@.knowledge.learnings.take(w0.knowledge.learnings.len() as int));
                if self.world_transformer.enforce_charter {
                    assert(world@.knowledge.decisions.drop_last().take(
                        w0.knowledge.decisions.len() as int,
                    ) =~= world@.knowledge.decisions.take(w0.knowledge.decisions.len() as int));
                }
                assert(world@.context.history.len() == w_prev.context.history.len()
                    + plan_view.tasks.len());
                assert(k_prev * plan_view.tasks.len() + plan_view.tasks.len() == (k_prev + 1)
                    * plan_view.tasks.len()) by (nonlinear_arith);
                let entries = executed_entries(plan_view);
                if k_prev == 0 {
                    assert(w_prev.context.history =~= w0.context.history + repeated_entries(
                        entries,
                        0,
                    ));
                }
                assert(world@.context.history =~= w0.context.history + repeated_entries(
                    entries,
                    k_prev + 1,
                ));
                let learnings0 = w0.knowledge.learnings.len() as int;
                let learnings1 = world@.knowledge.learnings.len() as int;
                assert forall|j: int| learnings0 <= j < learnings1 implies plan_learning(
                    #[trigger] world@.knowledge.learnings[j],
                    plan_view,
                    (w0.version + (j - learnings0)) as nat,
                ) by {
                    if j < learnings1 - 1 {
                        assert(world@.knowledge.learnings[j] == w_prev.knowledge.learnings[j]);
                    } else {
                        assert(world@.knowledge.learnings[j]
                            == world@.knowledge.learnings.last());
                    }
                }
                if self.world_transformer.enforce_charter {
                    let decisions0 = w0.knowledge.decisions.len() as int;
                    let decisions1 = world@.knowledge.decisions.len() as int;
                    assert forall|j: int| decisions0 <= j < decisions1 implies plan_decision(
                        #[trigger] world@.knowledge.decisions[j],
                        plan_view,
                    ) by {
                        if j < decisions1 - 1 {
                            assert(world@.knowledge.decisions[j]
                                == w_prev.knowledge.decisions[j]);
                        } else {
                            assert(world@.knowledge.decisions[j]
                                == world@.knowledge.decisions.last());
                        }
                    }
                }
                assert(world@.metadata =~= w0.metadata.insert(
                    "last_integration"@,
                    integration_summary(plan_view, w0.version + k_prev),
                ));
            }
        }
        Ok(AgentResult { initial_world, final_world: world, iterations, converged })
    }

    /// The convergence test, exactly as `converged_spec` states it.
    fn check_convergence(&self, world: &World, iterations: usize) -> (r: bool)
        requires
            iterations >= 1,
        ensures
            r == converged_spec(world@, iterations as nat, self.convergence_threshold),
    {
        let history_length = world.context.history.len();
        let learning_count = world.knowledge.learnings.len();
        if (history_length as u128) >= 2 * (iterations as u128) && (learning_count as u128)
            >= (iterations as u128) {
            return true;
        }
        proof {
            assert(3 * (iterations as int) * (self.convergence_threshold as int)
                <= u128::MAX) by (nonlinear_arith)
                requires
                    iterations <= usize::MAX,
                    self.convergence_threshold <= u32::MAX,
            ;
        }
        self.convergence_threshold <= 1000 && 1000 * (history_length as u128) >= 3 * (iterations
            as u128) * (self.convergence_threshold as u128)
    }

    /// The agent's configuration, as one line of text.
    pub fn status(&self) -> (r: String)
        ensures
            r@ == status_line(self.max_iterations as nat, self.convergence_threshold as nat),
    {
        let mut r = "UnifiedAgent { max_iterations: ".to_owned();
        push_dec(&mut r, self.max_iterations as u64);
        r.append(", convergence_threshold: ");
        push_dec(&mut r, (self.convergence_threshold / 1000) as u64);
        r.append(".");
        let frac = dec3_string((self.convergence_threshold % 1000) as u64);
        r.append(frac.as_str());
        r.append(" }");
        proof {
            assert(r@ =~= status_line(self.max_iterations as nat, self.convergence_threshold as nat));
        }
        r
    }
}

impl Default for UnifiedAgent {
    /// An agent allowing ten iterations with a threshold of 0.8.
    fn default() -> (r: Self)
        ensures
            r.max_iterations == 10,
            r.convergence_threshold == 800,
            r.intent_resolver.enforce_charter,
            r.world_transformer.enforce_charter,
    {
        UnifiedAgent::new(10, 800)
    }
}

} // verus!

