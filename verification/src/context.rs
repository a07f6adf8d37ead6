//! Execution context: variables, workflow call stack, retry configuration.

use vstd::prelude::*;

use crate::value::{
    entries_map, entries_model, find_last_entry, lemma_entries_map_push, lemma_entries_map_update,
    lemma_entries_model, lemma_last_index_of, Value, ValueModel,
};

verus! {

/// How retry delays grow.
#[derive(Debug, Clone, Copy, PartialEq, Eq, Structural)]
pub enum BackoffStrategy {
    /// The same delay before every retry.
    Fixed,
    /// `delay_ms * attempt`.
    Linear,
    /// `delay_ms * base^attempt`; the base is the bit pattern of an IEEE 754
    /// double.
    Exponential { base: u64 },
}

/// The bit pattern of the double 2.0.
pub const TWO_F64_BITS: u64 = 0x4000_0000_0000_0000u64;

/// How often and how long to wait before retrying a failed operation.
#[derive(Debug, Clone, Copy, PartialEq, Eq, Structural)]
pub struct RetryConfig {
    pub max_retries: u32,
    pub delay_ms: u64,
    pub backoff: BackoffStrategy,
}

impl Default for RetryConfig {
    fn default() -> (r: Self)
        ensures
            r == (RetryConfig {
                max_retries: 3,
                delay_ms: 1000,
                backoff: BackoffStrategy::Exponential { base: TWO_F64_BITS },
            }),
    {
        RetryConfig {
            max_retries: 3,
            delay_ms: 1000,
            backoff: BackoffStrategy::Exponential { base: TWO_F64_BITS },
        }
    }
}

impl RetryConfig {
    /// The delay before retry `attempt` (counted from 0) for the fixed and
    /// linear strategies. The exponential strategy multiplies by a power of a
    /// floating-point base, which this library does not compute: for it the
    /// result is `None`.
    pub fn delay_for_attempt(&self, attempt: u32) -> (r: Option<u64>)
        requires
            self.backoff is Linear ==> self.delay_ms * attempt <= u64::MAX,
        ensures
            match self.backoff {
                BackoffStrategy::Fixed => r == Some(self.delay_ms),
                BackoffStrategy::Linear => r == Some((self.delay_ms * attempt) as u64),
                BackoffStrategy::Exponential { .. } => r is None,
            },
    {
        match self.backoff {
            BackoffStrategy::Fixed => Some(self.delay_ms),
            BackoffStrategy::Linear => Some(self.delay_ms * (attempt as u64)),
            BackoffStrategy::Exponential { .. } => None,
        }
    }
}

/// The state that instructions read and write.
#[derive(Debug)]
pub struct Context {
    /// Variables, as entries of which a later one replaces an earlier one
    /// with the same name.
    pub vars: Vec<(String, Value)>,
    /// Names of the workflows being run, innermost last.
    pub call_stack: Vec<String>,
    /// Retry configuration of this run.
    pub retry_config: RetryConfig,
}

impl Default for Context {
    fn default() -> (r: Self)
        ensures
            r.vars@.len() == 0,
            r.call_stack@.len() == 0,
            r.retry_config == RetryConfig::default_spec(),
    {
        Context { vars: Vec::new(), call_stack: Vec::new(), retry_config: RetryConfig::default() }
    }
}

impl RetryConfig {
    /// The default retry configuration: three retries, one second apart,
    /// doubling.
    pub open spec fn default_spec() -> RetryConfig {
        RetryConfig {
            max_retries: 3,
            delay_ms: 1000,
            backoff: BackoffStrategy::Exponential { base: TWO_F64_BITS },
        }
    }
}

impl Context {
    /// The variables as a map from names to values.
    pub open spec fn vars_map(&self) -> Map<Seq<char>, ValueModel> {
        entries_map(entries_model(self.vars@, self.vars@.len()))
    }

    /// A context with no variables, an empty call stack and the default
    /// retry configuration.
    pub fn new() -> (r: Self)
        ensures
            r.vars_map() == Map::<Seq<char>, ValueModel>::empty(),
            r.vars@.len() == 0,
            r.call_stack@.len() == 0,
            r.retry_config == RetryConfig::default_spec(),
    {
        let r = Context::default();
        assert(r.vars_map() =~= Map::<Seq<char>, ValueModel>::empty());
        r
    }

    /// Sets a variable.
    pub fn set_var(&mut self, name: String, value: Value)
        ensures
            final(self).vars_map() == old(self).vars_map().insert(name@, value@),
            final(self).call_stack == old(self).call_stack,
            final(self).retry_config == old(self).retry_config,
    {
        let ghost m = entries_model(self.vars@, self.vars@.len());
        let ghost k = name@;
        let ghost v = value@;
        proof {
            lemma_entries_model(self.vars@, self.vars@.len());
        }
        match find_last_entry(&self.vars, name.as_str()) {
            Some(i) => {
                proof {
                    lemma_last_index_of(m, k);
                }
                self.vars.set(i, (name, value));
                proof {
                    lemma_entries_model(self.vars@, self.vars@.len());
                    lemma_entries_map_update(m, i as int, v);
                    assert(entries_model(self.vars@, self.vars@.len()) =~= m.update(
                        i as int,
                        (k, v),
                    ));
                }
            },
            None => {
                self.vars.push((name, value));
                proof {
                    lemma_entries_model(self.vars@, self.vars@.len());
                    lemma_entries_map_push(m, k, v);
                    assert(entries_model(self.vars@, self.vars@.len()) =~= m.push((k, v)));
                }
            },
        }
    }

    /// The value of a variable, if it is set.
    pub fn get_var(&self, name: &str) -> (r: Option<&Value>)
        ensures
            r is Some <==> self.vars_map().dom().contains(name@),
            r is Some ==> r->0@ == self.vars_map()[name@],
    {
        let ghost m = entries_model(self.vars@, self.vars@.len());
        proof {
            lemma_entries_model(self.vars@, self.vars@.len());
            lemma_last_index_of(m, name@);
        }
        match find_last_entry(&self.vars, name) {
            Some(i) => Some(&self.vars[i].1),
            None => None,
        }
    }

    /// Pushes a workflow name onto the call stack.
    pub fn push_call(&mut self, workflow: String)
        ensures
            final(self).call_stack@ == old(self).call_stack@.push(workflow),
            final(self).vars == old(self).vars,
            final(self).retry_config == old(self).retry_config,
    {
        self.call_stack.push(workflow);
    }

    /// Pops the innermost workflow name from the call stack.
    pub fn pop_call(&mut self) -> (r: Option<String>)
        ensures
            old(self).call_stack@.len() == 0 ==> r is None && final(self).call_stack@ == old(
                self,
            ).call_stack@,
            old(self).call_stack@.len() > 0 ==> r == Some(old(self).call_stack@.last())
                && final(self).call_stack@ == old(self).call_stack@.drop_last(),
            final(self).vars == old(self).vars,
            final(self).retry_config == old(self).retry_config,
    {
        self.call_stack.pop()
    }
}

/// A variable reads back as the value last set to it, and setting one
/// variable leaves every other variable as it was.
pub proof fn law_get_after_set(
    vars: Map<Seq<char>, ValueModel>,
    name: Seq<char>,
    value: ValueModel,
    other: Seq<char>,
)
    requires
        other != name,
    ensures
        vars.insert(name, value).dom().contains(name),
        vars.insert(name, value)[name] == value,
        vars.insert(name, value).dom().contains(other) == vars.dom().contains(other),
        vars.dom().contains(other) ==> vars.insert(name, value)[other] == vars[other],
{
}

/// The call stack is last in, first out: popping after a push returns the
/// pushed name and restores the stack.
pub proof fn law_call_stack_lifo(stack: Seq<String>, workflow: String)
    ensures
        stack.push(workflow).len() > 0,
        stack.push(workflow).last() == workflow,
        stack.push(workflow).drop_last() == stack,
{
    assert(stack.push(workflow).drop_last() =~= stack);
}

} // verus!
