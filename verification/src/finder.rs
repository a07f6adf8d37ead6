//! The fallback chain of perception strategies used to find an element.
//!
//! The strategies that apply to a target are tried in a fixed order; for
//! each one the first registered perceptor of that kind is asked, and the
//! first success wins. A position target needs no perceptor at all.

use vstd::prelude::*;

use crate::element::{Element, Rect};
use crate::error::{error_text, RpaError, RpaErrorView};
use crate::fmt::{push_signed_decimal, push_str, signed_decimal, string_of};
use crate::target::Target;

verus! {

/// The kind of a perception strategy.
#[derive(Debug, Clone, Copy, PartialEq, Eq, Structural)]
pub enum StrategyType {
    UIA,
    Text,
    Image,
    Position,
    Window,
    Ocr,
}

pub open spec fn strategy_name(s: StrategyType) -> Seq<char> {
    match s {
        StrategyType::UIA => "UIA"@,
        StrategyType::Text => "Text"@,
        StrategyType::Image => "Image"@,
        StrategyType::Position => "Position"@,
        StrategyType::Window => "Window"@,
        StrategyType::Ocr => "Ocr"@,
    }
}

impl StrategyType {
    /// The name of the strategy.
    pub fn name(&self) -> (r: &'static str)
        ensures
            r@ == strategy_name(*self),
    {
        match self {
            StrategyType::UIA => "UIA",
            StrategyType::Text => "Text",
            StrategyType::Image => "Image",
            StrategyType::Position => "Position",
            StrategyType::Window => "Window",
            StrategyType::Ocr => "Ocr",
        }
    }
}

/// The strategies that apply to a target, in the order they are tried.
pub open spec fn applicable_order(target: Target) -> Seq<StrategyType> {
    match target {
        Target::UIA { .. } => seq![StrategyType::UIA, StrategyType::Text, StrategyType::Image],
        Target::Text { .. } => seq![StrategyType::Text, StrategyType::UIA, StrategyType::Image],
        Target::Image { .. } => seq![StrategyType::Image, StrategyType::UIA, StrategyType::Text],
        Target::Position { .. } => seq![],
        Target::Window { .. } => seq![StrategyType::Window],
        Target::Region { .. } => seq![StrategyType::Window],
    }
}

/// The strategies that apply to a target, in the order they are tried.
pub fn applicable_strategies(target: &Target) -> (r: Vec<StrategyType>)
    ensures
        r@ == applicable_order(*target),
{
    let mut r: Vec<StrategyType> = Vec::new();
    match target {
        Target::UIA { .. } => {
            r.push(StrategyType::UIA);
            r.push(StrategyType::Text);
            r.push(StrategyType::Image);
        },
        Target::Text { .. } => {
            r.push(StrategyType::Text);
            r.push(StrategyType::UIA);
            r.push(StrategyType::Image);
        },
        Target::Image { .. } => {
            r.push(StrategyType::Image);
            r.push(StrategyType::UIA);
            r.push(StrategyType::Text);
        },
        Target::Position { .. } => {},
        Target::Window { .. } => {
            r.push(StrategyType::Window);
        },
        Target::Region { .. } => {
            r.push(StrategyType::Window);
        },
    }
    assert(r@ =~= applicable_order(*target));
    r
}

/// The index of the first of the first `n` registered strategies of kind
/// `s`, or -1.
pub open spec fn first_index(registered: Seq<StrategyType>, s: StrategyType, n: nat) -> int
    decreases n,
{
    if n == 0 || n > registered.len() {
        -1
    } else {
        let i = first_index(registered, s, (n - 1) as nat);
        if i >= 0 {
            i
        } else if registered[n - 1] == s {
            n - 1
        } else {
            -1
        }
    }
}

pub proof fn lemma_first_index(registered: Seq<StrategyType>, s: StrategyType, n: nat)
    requires
        n <= registered.len(),
    ensures
        -1 <= first_index(registered, s, n) < n,
        first_index(registered, s, n) >= 0 ==> registered[first_index(registered, s, n)] == s,
        forall|j: int|
            0 <= j < n && (first_index(registered, s, n) == -1 || j < first_index(
                registered,
                s,
                n,
            )) ==> registered[j] != s,
    decreases n,
{
    if n > 0 {
        lemma_first_index(registered, s, (n - 1) as nat);
    }
}

/// For the first `n` strategies of `order` that are registered, the index of
/// the first registered perceptor of that kind, in order.
pub open spec fn find_plan(registered: Seq<StrategyType>, order: Seq<StrategyType>, n: nat) -> Seq<
    usize,
>
    decreases n,
{
    if n == 0 || n > order.len() {
        Seq::empty()
    } else {
        let p = find_plan(registered, order, (n - 1) as nat);
        let i = first_index(registered, order[n - 1], registered.len());
        if i >= 0 {
            p.push(i as usize)
        } else {
            p
        }
    }
}

pub proof fn lemma_find_plan_bounds(registered: Seq<StrategyType>, order: Seq<StrategyType>, n: nat)
    requires
        n <= order.len(),
    ensures
        forall|k: int|
            0 <= k < find_plan(registered, order, n).len() ==> #[trigger] find_plan(
                registered,
                order,
                n,
            )[k] < registered.len(),
    decreases n,
{
    if n > 0 {
        lemma_find_plan_bounds(registered, order, (n - 1) as nat);
        lemma_first_index(registered, order[n - 1], registered.len());
        let p = find_plan(registered, order, (n - 1) as nat);
        let i = first_index(registered, order[n - 1], registered.len());
        if i >= 0 {
            assert forall|k: int| 0 <= k < p.push(i as usize).len() implies #[trigger] p.push(
                i as usize,
            )[k] < registered.len() by {
                if k < p.len() {
                    assert(p.push(i as usize)[k] == p[k]);
                }
            }
        }
    }
}

/// Whether a perceptor of kind `s` is registered.
pub open spec fn has_registered(registered: Seq<StrategyType>, s: StrategyType) -> bool {
    first_index(registered, s, registered.len()) >= 0
}

/// The perceptor asked for strategy `s`: the first registered one of its kind.
pub open spec fn registered_index(registered: Seq<StrategyType>, s: StrategyType) -> usize {
    first_index(registered, s, registered.len()) as usize
}

proof fn lemma_find_plan_filter(registered: Seq<StrategyType>, order: Seq<StrategyType>, n: nat)
    requires
        n <= order.len(),
    ensures
        find_plan(registered, order, n) == order.take(n as int).filter(
            |s: StrategyType| has_registered(registered, s),
        ).map_values(|s: StrategyType| registered_index(registered, s)),
    decreases n,
{
    reveal(Seq::filter);
    let p = |s: StrategyType| has_registered(registered, s);
    let f = |s: StrategyType| registered_index(registered, s);
    if n == 0 {
        assert(order.take(0).filter(p) =~= Seq::<StrategyType>::empty());
        assert(order.take(0).filter(p).map_values(f) =~= Seq::<usize>::empty());
    } else {
        lemma_find_plan_filter(registered, order, (n - 1) as nat);
        let t = order.take(n as int);
        assert(t.drop_last() =~= order.take(n - 1));
        assert(t.last() == order[n - 1]);
        let sub = order.take(n - 1).filter(p);
        if p(order[n - 1]) {
            assert(t.filter(p) == sub.push(order[n - 1]));
            assert(sub.push(order[n - 1]).map_values(f) =~= sub.map_values(f).push(
                f(order[n - 1]),
            ));
        } else {
            assert(t.filter(p) == sub);
        }
    }
}

/// The fallback chain: the perceptors asked for a target are, in the order
/// in which the strategies that apply to it are tried, the first registered
/// perceptor of each such strategy; a strategy with no registered perceptor
/// is skipped, and no other perceptor is asked.
pub proof fn law_fallback_chain(registered: Seq<StrategyType>, target: Target)
    requires
        registered.len() <= usize::MAX,
    ensures
        ({
            let order = applicable_order(target);
            let tried = order.filter(|s: StrategyType| has_registered(registered, s));
            let plan = find_plan(registered, order, order.len());
            &&& plan == tried.map_values(|s: StrategyType| registered_index(registered, s))
            &&& forall|k: int|
                0 <= k < plan.len() ==> registered[#[trigger] plan[k] as int] == tried[k]
                    && forall|j: int| 0 <= j < plan[k] ==> registered[j] != tried[k]
        }),
{
    let order = applicable_order(target);
    let p = |s: StrategyType| has_registered(registered, s);
    let tried = order.filter(p);
    lemma_find_plan_filter(registered, order, order.len());
    assert(order.take(order.len() as int) =~= order);
    let plan = find_plan(registered, order, order.len());
    assert forall|k: int| 0 <= k < plan.len() implies registered[#[trigger] plan[k] as int]
        == tried[k] && forall|j: int| 0 <= j < plan[k] ==> registered[j] != tried[k] by {
        order.lemma_filter_pred(p, k);
        lemma_first_index(registered, tried[k], registered.len());
    }
}

/// The first registered perceptor of kind `s`.
fn first_registered(registered: &Vec<StrategyType>, s: StrategyType) -> (r: Option<usize>)
    ensures
        match r {
            Some(i) => i == first_index(registered@, s, registered@.len()),
            None => first_index(registered@, s, registered@.len()) == -1,
        },
{
    let n = registered.len();
    let mut i: usize = 0;
    while i < n
        invariant
            n == registered@.len(),
            i <= n,
            first_index(registered@, s, i as nat) == -1,
        decreases n - i,
    {
        if registered[i] == s {
            assert(first_index(registered@, s, (i + 1) as nat) == i);
            proof {
                lemma_first_index_stable(registered@, s, (i + 1) as nat, n as nat);
            }
            return Some(i);
        }
        i = i + 1;
    }
    None
}

proof fn lemma_first_index_stable(registered: Seq<StrategyType>, s: StrategyType, m: nat, n: nat)
    requires
        m <= n <= registered.len(),
        first_index(registered, s, m) >= 0,
    ensures
        first_index(registered, s, n) == first_index(registered, s, m),
    decreases n - m,
{
    if n > m {
        lemma_first_index_stable(registered, s, m, (n - 1) as nat);
    }
}

/// The element that a position target stands for: a 1x1 rectangle at the
/// position, with id `pos_<x>_<y>`.
pub open spec fn position_element_spec(x: i32, y: i32, e: Element) -> bool {
    &&& e.id@ == "pos_"@ + signed_decimal(x as int) + "_"@ + signed_decimal(y as int)
    &&& e.bounds == Rect { x, y, width: 1, height: 1 }
    &&& e.text is None
    &&& e.element_type is Some && e.element_type->0@ == "position"@
    &&& e.platform_handle is None
    &&& e.process_id is None
    &&& e.process_name is None
    &&& e.window_title is None
}

/// The element that a position target stands for.
pub fn position_element(x: i32, y: i32) -> (r: Element)
    ensures
        position_element_spec(x, y, r),
{
    let mut id = string_of("pos_");
    push_signed_decimal(&mut id, x as i64);
    push_str(&mut id, "_");
    push_signed_decimal(&mut id, y as i64);
    Element {
        id,
        bounds: Rect::new(x, y, 1, 1),
        text: None,
        element_type: Some(string_of("position")),
        platform_handle: None,
        process_id: None,
        process_name: None,
        window_title: None,
    }
}

/// The error of a search for all matches in which every perceptor failed;
/// `target_debug` is the target's debug description.
pub fn find_all_failed_error(target_debug: &str) -> (e: RpaError)
    ensures
        e@ == RpaErrorView::ElementNotFound(
            "All strategies failed for find_all on target "@ + target_debug@,
        ),
{
    let mut m = string_of("All strategies failed for find_all on target ");
    push_str(&mut m, target_debug);
    RpaError::ElementNotFound(m)
}

/// One search along the fallback chain for a target that is not a
/// position: which perceptor to ask next, and the note on the last failure.
pub struct FindSession {
    /// Kinds of the registered perceptors, in registration order.
    registered: Vec<StrategyType>,
    /// Indices of the perceptors to ask, in order.
    plan: Vec<usize>,
    /// How many of them have failed.
    failed: usize,
    /// "<strategy>: <error message>" for the last failure.
    last_error: String,
}

impl FindSession {
    pub closed spec fn registered(&self) -> Seq<StrategyType> {
        self.registered@
    }

    pub closed spec fn plan(&self) -> Seq<usize> {
        self.plan@
    }

    pub closed spec fn failed(&self) -> nat {
        self.failed as nat
    }

    pub closed spec fn last_error_text(&self) -> Seq<char> {
        self.last_error@
    }

    pub closed spec fn wf(&self) -> bool {
        &&& self.failed <= self.plan@.len()
        &&& forall|k: int| 0 <= k < self.plan@.len() ==> #[trigger] self.plan@[k]
            < self.registered@.len()
    }

    /// Starts a search among perceptors of the given kinds.
    pub fn start(registered: &Vec<StrategyType>, target: &Target) -> (r: FindSession)
        ensures
            r.wf(),
            r.registered() == registered@,
            r.plan() == find_plan(
                registered@,
                applicable_order(*target),
                applicable_order(*target).len(),
            ),
            r.failed() == 0,
            r.last_error_text() == Seq::<char>::empty(),
    {
        let order = applicable_strategies(target);
        let mut plan: Vec<usize> = Vec::new();
        let mut k: usize = 0;
        while k < order.len()
            invariant
                k <= order@.len(),
                order@ == applicable_order(*target),
                plan@ == find_plan(registered@, order@, k as nat),
            decreases order.len() - k,
        {
            match first_registered(registered, order[k]) {
                Some(i) => plan.push(i),
                None => {},
            }
            k = k + 1;
        }
        proof {
            lemma_find_plan_bounds(registered@, order@, order@.len());
        }
        let mut copy: Vec<StrategyType> = Vec::new();
        let mut j: usize = 0;
        while j < registered.len()
            invariant
                j <= registered@.len(),
                copy@ == registered@.subrange(0, j as int),
            decreases registered.len() - j,
        {
            copy.push(registered[j]);
            j = j + 1;
            assert(copy@ =~= registered@.subrange(0, j as int));
        }
        assert(copy@ =~= registered@);
        FindSession { registered: copy, plan, failed: 0, last_error: String::new() }
    }

    /// The index of the perceptor to ask next, if any remains.
    pub fn next_entry(&self) -> (r: Option<usize>)
        requires
            self.wf(),
        ensures
            self.failed() < self.plan().len() ==> r == Some(self.plan()[self.failed() as int]),
            self.failed() >= self.plan().len() ==> r is None,
    {
        if self.failed < self.plan.len() {
            Some(self.plan[self.failed])
        } else {
            None
        }
    }

    /// Records that the perceptor asked last failed with `err`.
    pub fn record_failure(&mut self, err: &RpaError)
        requires
            old(self).wf(),
            old(self).failed() < old(self).plan().len(),
        ensures
            final(self).wf(),
            final(self).registered() == old(self).registered(),
            final(self).plan() == old(self).plan(),
            final(self).failed() == old(self).failed() + 1,
            final(self).last_error_text() == strategy_name(
                old(self).registered()[old(self).plan()[old(self).failed() as int] as int],
            ) + ": "@ + error_text(*err),
    {
        let plan_len = self.plan.len();
        let kind = self.registered[self.plan[self.failed]];
        let mut note = string_of(kind.name());
        push_str(&mut note, ": ");
        let msg = err.message();
        push_str(&mut note, msg.as_str());
        self.last_error = note;
        self.failed = self.failed + 1;
    }

    /// The error of a search in which every perceptor failed; `target_debug`
    /// is the target's debug description.
    pub fn exhausted_error(&self, target_debug: &str) -> (e: RpaError)
        ensures
            e@ == RpaErrorView::ElementNotFound(
                "All strategies failed for target "@ + target_debug@ + ". Last error: "@
                    + self.last_error_text(),
            ),
    {
        let mut m = string_of("All strategies failed for target ");
        push_str(&mut m, target_debug);
        push_str(&mut m, ". Last error: ");
        push_str(&mut m, self.last_error.as_str());
        RpaError::ElementNotFound(m)
    }

    /// The note on the last failure: "<strategy>: <error message>", empty
    /// before any failure.
    pub fn last_error(&self) -> (r: &str)
        ensures
            r@ == self.last_error_text(),
    {
        self.last_error.as_str()
    }
}

/// The fallback order of each kind of target: an element described for UI
/// Automation is tried by UI Automation, then text, then image matching; a
/// text by text, UI Automation, image; an image by image, UI Automation,
/// text; a window, and a region of a window, by the window strategy alone;
/// a position needs no perceptor. Each strategy is named as `{:?}` prints
/// it.
pub proof fn law_strategy_orders(t: Target)
    ensures
        t is UIA ==> applicable_order(t) == seq![
            StrategyType::UIA,
            StrategyType::Text,
            StrategyType::Image,
        ],
        t is Text ==> applicable_order(t) == seq![
            StrategyType::Text,
            StrategyType::UIA,
            StrategyType::Image,
        ],
        t is Image ==> applicable_order(t) == seq![
            StrategyType::Image,
            StrategyType::UIA,
            StrategyType::Text,
        ],
        t is Position ==> applicable_order(t).len() == 0,
        t is Window ==> applicable_order(t) == seq![StrategyType::Window],
        t is Region ==> applicable_order(t) == seq![StrategyType::Window],
        strategy_name(StrategyType::UIA) == "UIA"@,
        strategy_name(StrategyType::Text) == "Text"@,
        strategy_name(StrategyType::Image) == "Image"@,
        strategy_name(StrategyType::Position) == "Position"@,
        strategy_name(StrategyType::Window) == "Window"@,
        strategy_name(StrategyType::Ocr) == "Ocr"@,
{
}

/// A search asks the registered perceptors whose kind applies to the
/// target, the first registered of each kind, in the target's fallback
/// order; with a window perceptor registered, a region of a window is
/// searched by it.
pub proof fn law_region_searched_by_window(registered: Seq<StrategyType>, t: Target, i: int)
    requires
        t is Region || t is Window,
        0 <= i < registered.len(),
        registered[i] == StrategyType::Window,
        forall|j: int| 0 <= j < i ==> registered[j] != StrategyType::Window,
    ensures
        find_plan(registered, applicable_order(t), applicable_order(t).len()) == seq![i as usize],
{
    let order = applicable_order(t);
    assert(order == seq![StrategyType::Window]);
    lemma_first_index(registered, StrategyType::Window, registered.len());
    assert(find_plan(registered, order, 0) == Seq::<usize>::empty());
    assert(first_index(registered, StrategyType::Window, registered.len()) == i) by {
        let f = first_index(registered, StrategyType::Window, registered.len());
        if f != i {
            if f < i {
                assert(registered[f] == StrategyType::Window);
            }
        }
    }
}

} // verus!
