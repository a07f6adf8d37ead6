//! Evaluation of conditions.
//!
//! Conditions on variables are decided by the context. Conditions on the
//! screen (an element exists, an element is visible) and script expressions
//! are decided outside: the executor asks for a probe of each, in the order
//! in which they occur in the condition, and evaluates the condition with
//! the answers.

use vstd::prelude::*;

use crate::context::Context;
use crate::element::Rect;
use crate::instruction::Condition;
use crate::target::Target;
use crate::value::{f64_is_nan, f64_is_zero, value_eq, values_equal, Value, ValueModel};

verus! {

/// A question about the screen or a script that a condition depends on.
#[derive(Debug)]
pub enum ProbeQuery {
    /// Can an element matching the target be found?
    Exists(Target),
    /// Can an element matching the target be found, with a non-empty area?
    Visible(Target),
    /// The value of a script expression.
    Expression(String),
}

impl Clone for ProbeQuery {
    fn clone(&self) -> (r: Self)
        ensures
            r == *self,
    {
        match self {
            ProbeQuery::Exists(t) => ProbeQuery::Exists(t.clone()),
            ProbeQuery::Visible(t) => ProbeQuery::Visible(t.clone()),
            ProbeQuery::Expression(js) => ProbeQuery::Expression(js.clone()),
        }
    }
}

/// The question that a condition decided outside asks.
pub open spec fn query_of(c: Condition) -> ProbeQuery {
    match c {
        Condition::ElementExists { target } => ProbeQuery::Exists(target),
        Condition::ElementVisible { target } => ProbeQuery::Visible(target),
        Condition::Expression { js } => ProbeQuery::Expression(js),
        _ => ProbeQuery::Expression(arbitrary()),
    }
}

/// The questions a condition depends on, in the order in which they occur.
pub open spec fn probes_of(c: Condition) -> Seq<ProbeQuery>
    decreases c, 0nat,
{
    match c {
        Condition::ElementExists { .. } => seq![query_of(c)],
        Condition::ElementVisible { .. } => seq![query_of(c)],
        Condition::Expression { .. } => seq![query_of(c)],
        Condition::And(cs) => probes_all(cs@, cs@.len()),
        Condition::Or(cs) => probes_all(cs@, cs@.len()),
        Condition::Not(inner) => probes_of(*inner),
        _ => Seq::empty(),
    }
}

/// The questions the first `n` conditions depend on, in order.
pub open spec fn probes_all(cs: Seq<Condition>, n: nat) -> Seq<ProbeQuery>
    decreases cs, n,
{
    if n == 0 || n > cs.len() {
        Seq::empty()
    } else {
        probes_all(cs, (n - 1) as nat) + probes_of(cs[n - 1])
    }
}

/// JavaScript truthiness of a value: null, false, zero, NaN and the empty
/// string are false, everything else true.
pub open spec fn truthy(v: ValueModel) -> bool {
    match v {
        ValueModel::Null => false,
        ValueModel::Bool(b) => b,
        ValueModel::Number(bits) => !f64_is_zero(bits) && !f64_is_nan(bits),
        ValueModel::Str(s) => s.len() > 0,
        _ => true,
    }
}

/// JavaScript truthiness of a value.
pub fn value_truthy(v: &Value) -> (r: bool)
    ensures
        r == truthy(v@),
{
    proof {
        crate::value::lemma_value_model(*v);
    }
    match v {
        Value::Null => false,
        Value::Bool(b) => *b,
        Value::Number(bits) => {
            let x = *bits;
            let zero = x & 0x7FFF_FFFF_FFFF_FFFFu64 == 0;
            let nan = x & 0x7FF0_0000_0000_0000u64 == 0x7FF0_0000_0000_0000u64 && x
                & 0x000F_FFFF_FFFF_FFFFu64 != 0;
            !zero && !nan
        },
        Value::String(s) => !string_is_empty(s),
        _ => true,
    }
}

fn string_is_empty(s: &String) -> (r: bool)
    ensures
        r == (s@.len() == 0),
{
    s.as_str().is_empty()
}

/// Whether an element found for a visibility question has an area.
pub open spec fn has_area(r: Rect) -> bool {
    r.width > 0 && r.height > 0
}

/// Whether a condition holds for the given variables and the answers to its
/// questions, the first of which is `answers[at]`.
pub open spec fn cond_holds(
    c: Condition,
    vars: Map<Seq<char>, ValueModel>,
    answers: Seq<bool>,
    at: int,
) -> bool
    decreases c, 0nat,
{
    match c {
        Condition::VarEquals { var, value } => vars.dom().contains(var@) && value_eq(
            vars[var@],
            value@,
        ),
        Condition::VarNotEmpty { var } => vars.dom().contains(var@) && !(vars[var@] is Null),
        Condition::ElementExists { .. } => answers[at],
        Condition::ElementVisible { .. } => answers[at],
        Condition::Expression { .. } => answers[at],
        Condition::And(cs) => all_hold(cs@, vars, answers, at, cs@.len()),
        Condition::Or(cs) => any_holds(cs@, vars, answers, at, cs@.len()),
        Condition::Not(inner) => !cond_holds(*inner, vars, answers, at),
    }
}

/// The first `n` conditions all hold, each with its own answers.
pub open spec fn all_hold(
    cs: Seq<Condition>,
    vars: Map<Seq<char>, ValueModel>,
    answers: Seq<bool>,
    at: int,
    n: nat,
) -> bool
    decreases cs, n,
{
    if n == 0 || n > cs.len() {
        true
    } else {
        all_hold(cs, vars, answers, at, (n - 1) as nat) && cond_holds(
            cs[n - 1],
            vars,
            answers,
            at + probes_all(cs, (n - 1) as nat).len(),
        )
    }
}

/// One of the first `n` conditions holds, each with its own answers.
pub open spec fn any_holds(
    cs: Seq<Condition>,
    vars: Map<Seq<char>, ValueModel>,
    answers: Seq<bool>,
    at: int,
    n: nat,
) -> bool
    decreases cs, n,
{
    if n == 0 || n > cs.len() {
        false
    } else {
        any_holds(cs, vars, answers, at, (n - 1) as nat) || cond_holds(
            cs[n - 1],
            vars,
            answers,
            at + probes_all(cs, (n - 1) as nat).len(),
        )
    }
}

pub proof fn lemma_all_hold(
    cs: Seq<Condition>,
    vars: Map<Seq<char>, ValueModel>,
    answers: Seq<bool>,
    at: int,
    n: nat,
)
    requires
        n <= cs.len(),
    ensures
        all_hold(cs, vars, answers, at, n) <==> forall|k: int|
            0 <= k < n ==> cond_holds(cs[k], vars, answers, at + probes_all(cs, k as nat).len()),
    decreases n,
{
    if n > 0 {
        lemma_all_hold(cs, vars, answers, at, (n - 1) as nat);
    }
}

pub proof fn lemma_any_holds(
    cs: Seq<Condition>,
    vars: Map<Seq<char>, ValueModel>,
    answers: Seq<bool>,
    at: int,
    n: nat,
)
    requires
        n <= cs.len(),
    ensures
        any_holds(cs, vars, answers, at, n) <==> exists|k: int|
            0 <= k < n && cond_holds(cs[k], vars, answers, at + probes_all(cs, k as nat).len()),
    decreases n,
{
    if n > 0 {
        lemma_any_holds(cs, vars, answers, at, (n - 1) as nat);
        let k = n - 1;
        if cond_holds(cs[k], vars, answers, at + probes_all(cs, k as nat).len()) {
            assert(exists|j: int|
                0 <= j < n && cond_holds(cs[j], vars, answers, at + probes_all(cs, j as nat).len()))
                by {
                assert(0 <= k < n);
            }
        }
    }
}

proof fn lemma_probes_all_grow(cs: Seq<Condition>, k: nat, n: nat)
    requires
        k <= n <= cs.len(),
    ensures
        probes_all(cs, k).len() <= probes_all(cs, n).len(),
    decreases n,
{
    if k < n {
        lemma_probes_all_grow(cs, k, (n - 1) as nat);
    }
}

/// Appends the questions a condition depends on, in order.
#[verifier::loop_isolation(false)]
pub fn collect_probes(c: &Condition, out: &mut Vec<ProbeQuery>)
    ensures
        final(out)@ == old(out)@ + probes_of(*c),
    decreases *c,
{
    match c {
        Condition::ElementExists { target } => {
            out.push(ProbeQuery::Exists(target.clone()));
        },
        Condition::ElementVisible { target } => {
            out.push(ProbeQuery::Visible(target.clone()));
        },
        Condition::Expression { js } => {
            out.push(ProbeQuery::Expression(js.clone()));
        },
        Condition::And(cs) => {
            let ghost start = out@;
            let n = cs.len();
            let mut i: usize = 0;
            while i < n
                invariant
                    n == cs@.len(),
                    i <= n,
                    out@ == start + probes_all(cs@, i as nat),
                decreases n - i,
            {
                proof {
                    assert(decreases_to!(*c => *cs));
                    assert(decreases_to!(*cs => cs@));
                    assert(decreases_to!(cs@ => cs@[i as int]));
                }
                collect_probes(&cs[i], out);
                i = i + 1;
                assert(out@ =~= start + probes_all(cs@, i as nat));
            }
        },
        Condition::Or(cs) => {
            let ghost start = out@;
            let n = cs.len();
            let mut i: usize = 0;
            while i < n
                invariant
                    n == cs@.len(),
                    i <= n,
                    out@ == start + probes_all(cs@, i as nat),
                decreases n - i,
            {
                proof {
                    assert(decreases_to!(*c => *cs));
                    assert(decreases_to!(*cs => cs@));
                    assert(decreases_to!(cs@ => cs@[i as int]));
                }
                collect_probes(&cs[i], out);
                i = i + 1;
                assert(out@ =~= start + probes_all(cs@, i as nat));
            }
        },
        Condition::Not(inner) => {
            let c2: &Condition = &**inner;
            collect_probes(c2, out);
        },
        _ => {
            assert(out@ =~= old(out)@ + probes_of(*c));
        },
    }
}

/// The questions a condition depends on, in order.
pub fn condition_probes(c: &Condition) -> (r: Vec<ProbeQuery>)
    ensures
        r@ == probes_of(*c),
{
    let mut r: Vec<ProbeQuery> = Vec::new();
    collect_probes(c, &mut r);
    assert(r@ =~= probes_of(*c));
    r
}

/// Evaluates a condition whose answers start at `answers[at]`; also gives
/// the position just past its answers.
#[verifier::loop_isolation(false)]
fn eval_at(condition: &Condition, ctx: &Context, answers: &Vec<bool>, at: usize) -> (r: (
    bool,
    usize,
))
    requires
        at + probes_of(*condition).len() <= answers@.len(),
    ensures
        r.0 == cond_holds(*condition, ctx.vars_map(), answers@, at as int),
        r.1 == at + probes_of(*condition).len(),
    decreases *condition,
{
    let ghost vars = ctx.vars_map();
    match condition {
        Condition::VarEquals { var, value } => {
            let b = match ctx.get_var(var.as_str()) {
                Some(v) => values_equal(v, value),
                None => false,
            };
            (b, at)
        },
        Condition::VarNotEmpty { var } => {
            let b = match ctx.get_var(var.as_str()) {
                Some(v) => !v.is_null(),
                None => false,
            };
            (b, at)
        },
        Condition::ElementExists { .. } => {
            assert(probes_of(*condition).len() == 1);
            assert(at < answers.len());
            (answers[at], at + 1)
        },
        Condition::ElementVisible { .. } => {
            assert(probes_of(*condition).len() == 1);
            assert(at < answers.len());
            (answers[at], at + 1)
        },
        Condition::Expression { .. } => {
            assert(probes_of(*condition).len() == 1);
            assert(at < answers.len());
            (answers[at], at + 1)
        },
        Condition::And(cs) => {
            let n = cs.len();
            let mut i: usize = 0;
            let mut pos: usize = at;
            let mut all = true;
            while i < n
                invariant
                    n == cs.len(),
                    i <= n,
                    pos == at + probes_all(cs@, i as nat).len(),
                    all == (forall|k: int|
                        0 <= k < i ==> cond_holds(
                            cs@[k],
                            vars,
                            answers@,
                            at + probes_all(cs@, k as nat).len(),
                        )),
                decreases n - i,
            {
                proof {
                    assert(decreases_to!(*condition => *cs));
                    assert(decreases_to!(*cs => cs@));
                    assert(decreases_to!(cs@ => cs@[i as int]));
                    lemma_probes_all_grow(cs@, (i + 1) as nat, n as nat);
                }
                let (b, next) = eval_at(&cs[i], ctx, answers, pos);
                all = all && b;
                pos = next;
                i = i + 1;
            }
            proof {
                lemma_all_hold(cs@, vars, answers@, at as int, n as nat);
            }
            (all, pos)
        },
        Condition::Or(cs) => {
            let n = cs.len();
            let mut i: usize = 0;
            let mut pos: usize = at;
            let mut any = false;
            while i < n
                invariant
                    n == cs.len(),
                    i <= n,
                    pos == at + probes_all(cs@, i as nat).len(),
                    any == (exists|k: int|
                        0 <= k < i && cond_holds(
                            cs@[k],
                            vars,
                            answers@,
                            at + probes_all(cs@, k as nat).len(),
                        )),
                decreases n - i,
            {
                proof {
                    assert(decreases_to!(*condition => *cs));
                    assert(decreases_to!(*cs => cs@));
                    assert(decreases_to!(cs@ => cs@[i as int]));
                    lemma_probes_all_grow(cs@, (i + 1) as nat, n as nat);
                }
                let (b, next) = eval_at(&cs[i], ctx, answers, pos);
                proof {
                    if b {
                        assert(0 <= i < i + 1 && cond_holds(
                            cs@[i as int],
                            vars,
                            answers@,
                            at + probes_all(cs@, i as nat).len(),
                        ));
                    }
                }
                any = any || b;
                pos = next;
                i = i + 1;
            }
            proof {
                lemma_any_holds(cs@, vars, answers@, at as int, n as nat);
            }
            (any, pos)
        },
        Condition::Not(inner) => {
            let c: &Condition = &**inner;
            let (b, next) = eval_at(c, ctx, answers, at);
            (!b, next)
        },
    }
}

/// Evaluates a condition against the variables of a context and the
/// answers to its questions, in order.
pub fn evaluate_condition(condition: &Condition, ctx: &Context, answers: &Vec<bool>) -> (r: bool)
    requires
        probes_of(*condition).len() <= answers@.len(),
    ensures
        r == cond_holds(*condition, ctx.vars_map(), answers@, 0),
{
    eval_at(condition, ctx, answers, 0).0
}

/// Connectives behave as in logic: a conjunction holds iff each part does,
/// a disjunction iff some part does, and a double negation is the
/// condition itself; each part reads its own answers, in order.
pub proof fn law_connectives(
    cs: Seq<Condition>,
    c: Condition,
    vars: Map<Seq<char>, ValueModel>,
    answers: Seq<bool>,
    at: int,
)
    ensures
        all_hold(cs, vars, answers, at, cs.len()) <==> forall|k: int|
            0 <= k < cs.len() ==> cond_holds(cs[k], vars, answers, at + probes_all(cs, k as nat).len()),
        any_holds(cs, vars, answers, at, cs.len()) <==> exists|k: int|
            0 <= k < cs.len() && cond_holds(cs[k], vars, answers, at + probes_all(cs, k as nat).len()),
        cond_holds(Condition::Not(Box::new(Condition::Not(Box::new(c)))), vars, answers, at)
            == cond_holds(c, vars, answers, at),
{
    assert(all_hold(cs, vars, answers, at, cs.len()) <==> forall|k: int|
        0 <= k < cs.len() ==> cond_holds(cs[k], vars, answers, at + probes_all(cs, k as nat).len()))
        by {
        lemma_all_hold(cs, vars, answers, at, cs.len());
    }
    assert(any_holds(cs, vars, answers, at, cs.len()) <==> exists|k: int|
        0 <= k < cs.len() && cond_holds(cs[k], vars, answers, at + probes_all(cs, k as nat).len()))
        by {
        lemma_any_holds(cs, vars, answers, at, cs.len());
    }
    let once = Condition::Not(Box::new(c));
    assert(cond_holds(once, vars, answers, at) == !cond_holds(c, vars, answers, at));
    assert(cond_holds(Condition::Not(Box::new(once)), vars, answers, at) == !cond_holds(
        once,
        vars,
        answers,
        at,
    ));
}

/// What truthiness gives: null, `false`, the empty string, zero (either
/// sign) and NaN are false; `true`, any other number, any other string,
/// and every array and object are true.
pub proof fn law_truthiness(v: ValueModel)
    ensures
        v is Null ==> !truthy(v),
        v is Bool ==> (truthy(v) <==> v->Bool_0),
        v is Str ==> (truthy(v) <==> v->Str_0.len() > 0),
        v is Number ==> (truthy(v) <==> {
            let x = v->Number_0;
            &&& x & 0x7FFF_FFFF_FFFF_FFFFu64 != 0
            &&& !(x & 0x7FF0_0000_0000_0000u64 == 0x7FF0_0000_0000_0000u64 && x
                & 0x000F_FFFF_FFFF_FFFFu64 != 0)
        }),
        (v is Array || v is Object) ==> truthy(v),
{
}

/// A comparison with a variable holds exactly when the variable is set to
/// an equal value; a non-empty test exactly when the variable is set to
/// something other than null; neither reads the answers.
pub proof fn law_variable_conditions(
    var: String,
    value: Value,
    vars: Map<Seq<char>, ValueModel>,
    answers: Seq<bool>,
    at: int,
)
    ensures
        cond_holds(Condition::VarEquals { var, value }, vars, answers, at) <==> (vars.dom().contains(
            var@,
        ) && value_eq(vars[var@], value@)),
        cond_holds(Condition::VarNotEmpty { var }, vars, answers, at) <==> (vars.dom().contains(
            var@,
        ) && !(vars[var@] is Null)),
        probes_of(Condition::VarEquals { var, value }).len() == 0,
        probes_of(Condition::VarNotEmpty { var }).len() == 0,
{
}

/// A condition on the screen or on a script holds exactly when its own
/// answer says so, and asks exactly one question: whether an element
/// matching its target exists, is visible, or the script's value.
pub proof fn law_outside_conditions(target: Target, js: String, answers: Seq<bool>, at: int)
    ensures
        cond_holds(Condition::ElementExists { target }, Map::empty(), answers, at) == answers[at],
        cond_holds(Condition::ElementVisible { target }, Map::empty(), answers, at) == answers[at],
        cond_holds(Condition::Expression { js }, Map::empty(), answers, at) == answers[at],
        probes_of(Condition::ElementExists { target }) == seq![ProbeQuery::Exists(target)],
        probes_of(Condition::ElementVisible { target }) == seq![ProbeQuery::Visible(target)],
        probes_of(Condition::Expression { js }) == seq![ProbeQuery::Expression(js)],
{
    assert(probes_of(Condition::ElementExists { target }) =~= seq![ProbeQuery::Exists(target)]);
    assert(probes_of(Condition::ElementVisible { target }) =~= seq![ProbeQuery::Visible(target)]);
    assert(probes_of(Condition::Expression { js }) =~= seq![ProbeQuery::Expression(js)]);
}

} // verus!
