//! The topology engine's decisions.  A run starts at the start node and
//! moves along edges by the ports the executed nodes name; the caller
//! executes each node (see `executors::execute_local` and the split
//! executors), waits for DTMF or speech when asked, hangs up or transfers,
//! and reports back.  At most `MAX_STEPS` nodes are executed in one run, so
//! a loop in the topology cannot hold a call forever.
use vstd::prelude::*;
use crate::ivr::json::{JsonValue, JsonView};
use crate::ivr::types::{
    lemma_node_index_range, opt_str_view, vars_set, IvrExecutionContext, NodeExecuteResult,
    ResultView, TopologyGraph,
};
use crate::text::{push_str, string_from};

verus! {

/// Nodes one run may execute at most.
pub const MAX_STEPS: u32 = 1000;

/// Where a run stands: the node it is at and how many nodes it executed.
pub struct IvrRun {
    pub current_id: String,
    pub steps: u32,
}

/// What the caller does next.
pub enum EngineAction {
    /// Execute node `node_id`, then report its result to `after_node`.
    Execute { node_id: String },
    /// Collect DTMF digits, then report them to `after_dtmf`.
    CollectDtmf { max_digits: u8, timeout_secs: u32, terminator: Option<char> },
    /// Recognise speech, then report the text to `after_asr`.
    RecognizeSpeech { timeout_secs: u32 },
    /// Hang the call up; the run is over.
    Hangup { reason: String },
    /// Transfer the call; the run is over.
    Transfer { target: String, transfer_type: String },
    /// Nothing more to do; the run is over.
    Finish,
}

pub enum ActionView {
    Execute(Seq<char>),
    CollectDtmf(u8, u32, Option<char>),
    RecognizeSpeech(u32),
    Hangup(Seq<char>),
    Transfer(Seq<char>, Seq<char>),
    Finish,
}

impl View for EngineAction {
    type V = ActionView;

    open spec fn view(&self) -> ActionView {
        match self {
            EngineAction::Execute { node_id } => ActionView::Execute(node_id@),
            EngineAction::CollectDtmf { max_digits, timeout_secs, terminator } =>
                ActionView::CollectDtmf(*max_digits, *timeout_secs, *terminator),
            EngineAction::RecognizeSpeech { timeout_secs } => ActionView::RecognizeSpeech(
                *timeout_secs,
            ),
            EngineAction::Hangup { reason } => ActionView::Hangup(reason@),
            EngineAction::Transfer { target, transfer_type } => ActionView::Transfer(
                target@,
                transfer_type@,
            ),
            EngineAction::Finish => ActionView::Finish,
        }
    }
}

/// The node reached from `id` through `port`: the edge's target, when that
/// node exists.
pub open spec fn next_id(g: TopologyGraph, id: Seq<char>, port: Seq<char>) -> Option<Seq<char>> {
    match g.target_of(id, port) {
        Some(t) => if g.node_of(t) is Some {
            Some(t)
        } else {
            None
        },
        None => None,
    }
}

/// The action on arriving at node `id` with `steps` nodes executed: the
/// run ends where the node does not exist, hangs up once `MAX_STEPS` nodes
/// were executed, and executes the node otherwise.
pub open spec fn arrive(g: TopologyGraph, id: Seq<char>, steps: u32) -> ActionView {
    if g.node_of(id) is None {
        ActionView::Finish
    } else if steps >= MAX_STEPS {
        ActionView::Hangup("IVR Step Limit Exceeded"@)
    } else {
        ActionView::Execute(id)
    }
}

/// The step count after arriving at `id`.
pub open spec fn arrive_steps(g: TopologyGraph, id: Seq<char>, steps: u32) -> u32 {
    if g.node_of(id) is Some && steps < MAX_STEPS {
        (steps + 1) as u32
    } else {
        steps
    }
}

/// The context is the same but for the node it is at.
pub open spec fn same_but_position(a: IvrExecutionContext, b: IvrExecutionContext) -> bool {
    &&& a.call_id == b.call_id
    &&& a.caller_id == b.caller_id
    &&& a.did == b.did
    &&& a.variables == b.variables
    &&& a.loop_counters == b.loop_counters
    &&& a.collected_dtmf == b.collected_dtmf
    &&& a.last_webhook_response == b.last_webhook_response
}

/// The run moved to node `n`, its step count as `arrive_steps` says, and
/// the context records `n` as the current node.
pub open spec fn moved(
    g: TopologyGraph,
    n: Seq<char>,
    run0: IvrRun,
    run1: IvrRun,
    ctx0: IvrExecutionContext,
    ctx1: IvrExecutionContext,
) -> bool {
    &&& run1.current_id@ == n
    &&& run1.steps == arrive_steps(g, n, run0.steps)
    &&& opt_str_view(ctx1.current_node_id) == Some(n)
    &&& same_but_position(ctx1, ctx0)
}

/// Step counts only grow when a node is to be executed, by one, and never
/// past `MAX_STEPS`.
pub open spec fn counts_steps(run0: IvrRun, run1: IvrRun, a: ActionView) -> bool {
    if a is Execute {
        run1.steps == run0.steps + 1 && run1.steps <= MAX_STEPS
    } else {
        run1.steps == run0.steps
    }
}

impl IvrRun {
    /// Arrival at node `id`.
    fn arrive_at(&mut self, g: &TopologyGraph) -> (r: EngineAction)
        ensures
            r@ == arrive(*g, old(self).current_id@, old(self).steps),
            final(self).current_id == old(self).current_id,
            final(self).steps == arrive_steps(*g, old(self).current_id@, old(self).steps),
    {
        match g.get_node(self.current_id.as_str()) {
            None => EngineAction::Finish,
            Some(_) => {
                if self.steps >= MAX_STEPS {
                    EngineAction::Hangup { reason: string_from("IVR Step Limit Exceeded") }
                } else {
                    self.steps = self.steps + 1;
                    EngineAction::Execute { node_id: self.current_id.clone() }
                }
            },
        }
    }

    /// Moves along the edge leaving the current node through `port`, when
    /// it leads to a node.
    fn follow(&mut self, g: &TopologyGraph, context: &mut IvrExecutionContext, port: &str) -> (r:
        Option<EngineAction>)
        ensures
            match next_id(*g, old(self).current_id@, port@) {
                Some(n) => r matches Some(a) && a@ == arrive(*g, n, old(self).steps) && moved(
                    *g,
                    n,
                    *old(self),
                    *final(self),
                    *old(context),
                    *final(context),
                ),
                None => r is None && *final(self) == *old(self) && *final(context) == *old(context),
            },
    {
        match g.next_node(self.current_id.as_str(), port) {
            Some(next) => {
                proof {
                    lemma_node_index_range(g.nodes@, g.target_of(self.current_id@, port@)->0, g.nodes@.len() as int);
                }
                context.current_node_id = Some(next.id.clone());
                self.current_id = next.id.clone();
                Some(self.arrive_at(g))
            },
            None => None,
        }
    }

    /// Starts a run at the topology's start node; without one the call is
    /// hung up.
    pub fn begin(g: &TopologyGraph, context: &mut IvrExecutionContext) -> (r: (IvrRun, EngineAction))
        ensures
            match opt_str_view(g.start_node_id) {
                None => r.1@ == ActionView::Hangup("IVR No Start Node"@) && *final(context)
                    == *old(context),
                Some(s) => {
                    &&& r.0.current_id@ == s
                    &&& r.0.steps == arrive_steps(*g, s, 0)
                    &&& r.1@ == arrive(*g, s, 0)
                    &&& opt_str_view(final(context).current_node_id) == Some(s)
                    &&& same_but_position(*final(context), *old(context))
                },
            },
            r.0.steps <= 1,
            counts_steps(IvrRun { current_id: r.0.current_id, steps: 0 }, r.0, r.1@),
    {
        match &g.start_node_id {
            None => {
                let run = IvrRun { current_id: String::new(), steps: 0 };
                (run, EngineAction::Hangup { reason: string_from("IVR No Start Node") })
            },
            Some(start) => {
                context.current_node_id = Some(start.clone());
                let mut run = IvrRun { current_id: start.clone(), steps: 0 };
                let action = run.arrive_at(g);
                (run, action)
            },
        }
    }

    /// The next action once the current node's result is known: follow the
    /// named port (the run ends where it leads nowhere), hang up, transfer,
    /// or wait for DTMF or speech; after an error, follow port `error`, or
    /// hang up where there is none.
    pub fn after_node(
        &mut self,
        g: &TopologyGraph,
        context: &mut IvrExecutionContext,
        result: NodeExecuteResult,
    ) -> (r: EngineAction)
        ensures
            ({
                let cur = old(self).current_id@;
                match result@ {
                    ResultView::Continue(port) => match next_id(*g, cur, port) {
                        Some(n) => r@ == arrive(*g, n, old(self).steps) && moved(
                            *g,
                            n,
                            *old(self),
                            *final(self),
                            *old(context),
                            *final(context),
                        ),
                        None => r@ == ActionView::Finish && *final(self) == *old(self)
                            && *final(context) == *old(context),
                    },
                    ResultView::Error(_) => match next_id(*g, cur, "error"@) {
                        Some(n) => r@ == arrive(*g, n, old(self).steps) && moved(
                            *g,
                            n,
                            *old(self),
                            *final(self),
                            *old(context),
                            *final(context),
                        ),
                        None => r@ == ActionView::Hangup("IVR Node Error"@) && *final(self)
                            == *old(self) && *final(context) == *old(context),
                    },
                    _ => *final(self) == *old(self) && *final(context) == *old(context) && match result@ {
                        ResultView::Hangup(reason) => r@ == ActionView::Hangup(reason),
                        ResultView::Transfer(t, k) => r@ == ActionView::Transfer(t, k),
                        ResultView::WaitForDtmf(d, t, term) => r@ == ActionView::CollectDtmf(d, t, term),
                        ResultView::WaitForAsr(t) => r@ == ActionView::RecognizeSpeech(t),
                        _ => false,
                    },
                }
            }),
            old(self).steps <= MAX_STEPS ==> counts_steps(*old(self), *final(self), r@),
    {
        match result {
            NodeExecuteResult::Continue { port } => match self.follow(g, context, port.as_str()) {
                Some(a) => a,
                None => EngineAction::Finish,
            },
            NodeExecuteResult::Hangup { reason } => EngineAction::Hangup { reason },
            NodeExecuteResult::Transfer { target, transfer_type } => EngineAction::Transfer {
                target,
                transfer_type,
            },
            NodeExecuteResult::WaitForDtmf { max_digits, timeout_secs, terminator } =>
                EngineAction::CollectDtmf { max_digits, timeout_secs, terminator },
            NodeExecuteResult::WaitForAsr { timeout_secs } => EngineAction::RecognizeSpeech {
                timeout_secs,
            },
            NodeExecuteResult::Error { .. } => match self.follow(g, context, "error") {
                Some(a) => a,
                None => EngineAction::Hangup { reason: string_from("IVR Node Error") },
            },
        }
    }

    /// The next action once DTMF digits were collected: they are kept in the
    /// context, and the run follows port `key_<digits>`, else `default`;
    /// it ends where neither leads anywhere.
    pub fn after_dtmf(&mut self, g: &TopologyGraph, context: &mut IvrExecutionContext, dtmf: String) -> (r:
        EngineAction)
        ensures
            final(context).collected_dtmf@ == dtmf@,
            ({
                let cur = old(self).current_id@;
                let mid = IvrExecutionContext { collected_dtmf: dtmf, ..*old(context) };
                match next_id(*g, cur, "key_"@ + dtmf@) {
                    Some(n) => r@ == arrive(*g, n, old(self).steps) && moved(
                        *g,
                        n,
                        *old(self),
                        *final(self),
                        mid,
                        *final(context),
                    ),
                    None => match next_id(*g, cur, "default"@) {
                        Some(n) => r@ == arrive(*g, n, old(self).steps) && moved(
                            *g,
                            n,
                            *old(self),
                            *final(self),
                            mid,
                            *final(context),
                        ),
                        None => r@ == ActionView::Finish && *final(self) == *old(self)
                            && *final(context) == mid,
                    },
                }
            }),
            old(self).steps <= MAX_STEPS ==> counts_steps(*old(self), *final(self), r@),
    {
        let mut port = string_from("key_");
        push_str(&mut port, dtmf.as_str());
        context.collected_dtmf = dtmf;
        match self.follow(g, context, port.as_str()) {
            Some(a) => a,
            None => match self.follow(g, context, "default") {
                Some(a) => a,
                None => EngineAction::Finish,
            },
        }
    }

    /// The next action once speech was recognised: the text becomes the
    /// variable `asr_result` and the run follows port `default`, ending
    /// where it leads nowhere.
    pub fn after_asr(&mut self, g: &TopologyGraph, context: &mut IvrExecutionContext, text: String) -> (r:
        EngineAction)
        ensures
            final(context).vars() == vars_set(old(context).vars(), "asr_result"@, JsonView::Str(text@)),
            final(context).call_id == old(context).call_id,
            final(context).caller_id == old(context).caller_id,
            final(context).did == old(context).did,
            final(context).loop_counters == old(context).loop_counters,
            final(context).collected_dtmf == old(context).collected_dtmf,
            final(context).last_webhook_response == old(context).last_webhook_response,
            match next_id(*g, old(self).current_id@, "default"@) {
                Some(n) => r@ == arrive(*g, n, old(self).steps) && final(self).current_id@ == n
                    && final(self).steps == arrive_steps(*g, n, old(self).steps) && opt_str_view(
                    final(context).current_node_id,
                ) == Some(n),
                None => r@ == ActionView::Finish && *final(self) == *old(self)
                    && final(context).current_node_id == old(context).current_node_id,
            },
            old(self).steps <= MAX_STEPS ==> counts_steps(*old(self), *final(self), r@),
    {
        context.set_var("asr_result", JsonValue::String(text));
        match self.follow(g, context, "default") {
            Some(a) => a,
            None => EngineAction::Finish,
        }
    }
}

/// How many of the actions execute a node.
pub open spec fn execute_count(actions: Seq<ActionView>) -> nat
    decreases actions.len(),
{
    if actions.len() == 0 {
        0
    } else {
        execute_count(actions.drop_last()) + if actions.last() is Execute {
            1nat
        } else {
            0nat
        }
    }
}

/// However the caller reports results, DTMF or speech, a run executes at
/// most `MAX_STEPS` nodes: along any sequence of steps that each count as
/// `counts_steps` says (`begin`, `after_node`, `after_dtmf`, `after_asr`),
/// the step count is the number of nodes executed and never exceeds the
/// limit.
pub proof fn lemma_run_executes_at_most_max_steps(runs: Seq<IvrRun>, actions: Seq<ActionView>)
    requires
        runs.len() == actions.len() + 1,
        runs[0].steps == 0,
        forall|i: int| 0 <= i < actions.len() ==> counts_steps(runs[i], #[trigger] runs[i + 1], actions[i]),
    ensures
        execute_count(actions) == runs.last().steps,
        runs.last().steps <= MAX_STEPS,
    decreases actions.len(),
{
    if actions.len() > 0 {
        let n = actions.len() - 1;
        let prefix_runs = runs.drop_last();
        let prefix_actions = actions.drop_last();
        assert forall|i: int| 0 <= i < prefix_actions.len() implies counts_steps(
            prefix_runs[i],
            #[trigger] prefix_runs[i + 1],
            prefix_actions[i],
        ) by {
            assert(counts_steps(runs[i], runs[i + 1], actions[i]));
        }
        lemma_run_executes_at_most_max_steps(prefix_runs, prefix_actions);
        assert(counts_steps(runs[n], runs[n + 1], actions[n]));
        assert(prefix_runs.last() == runs[n]);
    }
}

} // verus!
