//! Configuration of the automation VM, and the context each run starts in.

use vstd::prelude::*;

use crate::context::{Context, RetryConfig};
use crate::error::RpaError;
use crate::finder::StrategyType;
use crate::instruction::Instruction;
use crate::value::{
    entries_map, entries_model, lemma_entries_map_push, lemma_entries_model, Value, ValueModel,
};

verus! {

/// Provides workflows by name (from plugins, the file system, ...).
pub trait WorkflowProvider {
    /// The name of this provider.
    fn name(&self) -> &str;

    /// The instructions of the workflow with the given name.
    fn get_workflow(&self, name: &str) -> Result<Vec<Instruction>, RpaError>;

    /// The names of the workflows this provider has.
    fn list_workflows(&self) -> Vec<String>;
}

/// The order in which perception strategies are tried.
#[derive(Debug, Clone)]
pub enum FindStrategy {
    /// The default order: UI Automation, then text, then image.
    Sequential,
    /// A custom order.
    Custom(Vec<StrategyType>),
}

/// Configuration of the VM.
#[derive(Debug, Clone)]
pub struct VmConfig {
    pub retry: RetryConfig,
    pub default_timeout_ms: u64,
    pub find_strategy: FindStrategy,
}

impl Default for VmConfig {
    fn default() -> (r: Self)
        ensures
            r.retry == RetryConfig::default_spec(),
            r.default_timeout_ms == 30_000,
            r.find_strategy is Sequential,
    {
        VmConfig {
            retry: RetryConfig::default(),
            default_timeout_ms: 30_000,
            find_strategy: FindStrategy::Sequential,
        }
    }
}

/// The context a run of instructions starts in: no variables, an empty call
/// stack, and the VM's retry configuration.
pub fn run_context(config: &VmConfig) -> (r: Context)
    ensures
        r.vars_map() == Map::<Seq<char>, ValueModel>::empty(),
        r.call_stack@.len() == 0,
        r.retry_config == config.retry,
{
    let mut ctx = Context::new();
    ctx.retry_config = config.retry;
    ctx
}

/// The context a run of workflow `name` starts in: its arguments as
/// variables, the workflow on the call stack, and the VM's retry
/// configuration.
pub fn workflow_context(name: String, args: Vec<(String, Value)>, config: &VmConfig) -> (r: Context)
    ensures
        r.vars_map() == entries_map(entries_model(args@, args@.len())),
        r.call_stack@ == seq![name],
        r.retry_config == config.retry,
{
    let mut ctx = Context::new();
    let ghost entries = args@;
    let mut rest = args;
    // `rest` is consumed from the front by reversing it first
    let mut reversed: Vec<(String, Value)> = Vec::new();
    while rest.len() > 0
        invariant
            reversed@.len() + rest@.len() == entries.len(),
            forall|i: int| 0 <= i < rest@.len() ==> #[trigger] rest@[i] == entries[i],
            forall|i: int|
                0 <= i < reversed@.len() ==> #[trigger] reversed@[i] == entries[entries.len() - 1
                    - i],
        decreases rest@.len(),
    {
        let e = rest.pop().unwrap();
        reversed.push(e);
    }
    let mut k: usize = 0;
    let n = reversed.len();
    while reversed.len() > 0
        invariant
            n == entries.len(),
            reversed@.len() + k == n,
            forall|i: int|
                0 <= i < reversed@.len() ==> #[trigger] reversed@[i] == entries[entries.len() - 1
                    - i],
            ctx.vars_map() == entries_map(entries_model(entries, k as nat)),
            ctx.call_stack@.len() == 0,
            ctx.retry_config == RetryConfig::default_spec(),
        decreases reversed@.len(),
    {
        let ghost last = reversed@.last();
        assert(last == entries[k as int]);
        let (key, value) = reversed.pop().unwrap();
        proof {
            lemma_entries_map_push(entries_model(entries, k as nat), key@, value@);
            lemma_entries_model(entries, (k + 1) as nat);
            lemma_entries_model(entries, k as nat);
            assert(entries_model(entries, (k + 1) as nat) =~= entries_model(entries, k as nat).push(
                (key@, value@),
            ));
        }
        ctx.set_var(key, value);
        k = k + 1;
    }
    ctx.push_call(name);
    ctx.retry_config = config.retry;
    assert(ctx.call_stack@ =~= seq![name]);
    ctx
}

} // verus!
