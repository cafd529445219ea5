//! The counter view: a non-negative count with increment and decrement
//! actions, and a pure rendering of the count and its two buttons.
//!
//! Decrement clamps at zero, so the count after a run of operations is not
//! simply the sum of their effects; the laws at the end of this module pin
//! down what does hold of every operation sequence.

use vstd::prelude::*;
use crate::color;
use crate::text::{decimal_chars, push_decimal};
use vstd::string::StringExecFns;

verus! {

/// One user action on the counter.
#[derive(Clone, Copy)]
pub enum CounterOp {
    Increment,
    Decrement,
}

/// The count after one operation: increment adds one, decrement subtracts one
/// but stops at zero.
pub open spec fn apply_op(count: nat, op: CounterOp) -> nat {
    match op {
        CounterOp::Increment => count + 1,
        CounterOp::Decrement => if count > 0 {
            (count - 1) as nat
        } else {
            0
        },
    }
}

/// The count after a whole sequence of operations, starting from `start`.
pub open spec fn count_from(start: nat, ops: Seq<CounterOp>) -> nat
    decreases ops.len(),
{
    if ops.len() == 0 {
        start
    } else {
        count_from(apply_op(start, ops[0]), ops.skip(1))
    }
}

/// The count after a whole sequence of operations, starting from zero.
pub open spec fn count_after(ops: Seq<CounterOp>) -> nat {
    count_from(0, ops)
}

/// How many of the operations are increments.
pub open spec fn increments(ops: Seq<CounterOp>) -> nat
    decreases ops.len(),
{
    if ops.len() == 0 {
        0
    } else {
        (if ops[0] is Increment {
            1nat
        } else {
            0nat
        }) + increments(ops.skip(1))
    }
}

/// How many of the operations are decrements.
pub open spec fn decrements(ops: Seq<CounterOp>) -> nat
    decreases ops.len(),
{
    if ops.len() == 0 {
        0
    } else {
        (if ops[0] is Decrement {
            1nat
        } else {
            0nat
        }) + decrements(ops.skip(1))
    }
}

/// Increments minus decrements: what the count would change by if decrement
/// never clamped.
pub open spec fn net_change(ops: Seq<CounterOp>) -> int {
    increments(ops) - decrements(ops)
}

/// The counter view's state: a count that never goes below zero.
pub struct Counter {
    count: usize,
}

/// What one button of the counter screen shows and does.
pub struct CounterButton {
    pub label: String,
    pub color: u32,
    pub action: CounterOp,
}

/// The counter view's whole screen, as plain values: the count label and the
/// two buttons.
pub struct CounterScreen {
    pub count_text: String,
    pub count_color: u32,
    pub decrement_button: CounterButton,
    pub increment_button: CounterButton,
}

/// The text of the count label for a given count.
pub open spec fn count_label(count: nat) -> Seq<char> {
    "Count: "@ + decimal_chars(count)
}

impl View for Counter {
    type V = nat;

    closed spec fn view(&self) -> nat {
        self.count as nat
    }
}

impl Counter {
    /// A fresh counter starts at zero.
    pub fn new() -> (counter: Counter)
        ensures
            counter@ == 0,
    {
        Counter { count: 0 }
    }

    /// The current count.
    pub fn count(&self) -> (n: usize)
        ensures
            n == self@,
    {
        self.count
    }

    /// Adds one to the count.
    pub fn increment(&mut self)
        requires
            old(self)@ < usize::MAX,
        ensures
            final(self)@ == old(self)@ + 1,
            final(self)@ == apply_op(old(self)@, CounterOp::Increment),
    {
        self.count = self.count + 1;
    }

    /// Subtracts one from the count, unless it is already zero: then the call
    /// changes nothing.
    pub fn decrement(&mut self)
        ensures
            final(self)@ == if old(self)@ > 0 {
                (old(self)@ - 1) as nat
            } else {
                0
            },
            final(self)@ == apply_op(old(self)@, CounterOp::Decrement),
    {
        if self.count > 0 {
            self.count = self.count - 1;
        }
    }

    /// Performs one operation: the executable form of `apply_op`.
    pub fn apply(&mut self, op: CounterOp)
        requires
            op is Increment ==> old(self)@ < usize::MAX,
        ensures
            final(self)@ == apply_op(old(self)@, op),
    {
        match op {
            CounterOp::Increment => self.increment(),
            CounterOp::Decrement => self.decrement(),
        }
    }

    /// Renders the state to a screen: the label `"Count: {count}"` in white,
    /// a red button that decrements and a green button that increments.
    pub fn render(&self) -> (screen: CounterScreen)
        ensures
            screen.count_text@ == count_label(self@),
            screen.count_color == color::WHITE,
            screen.decrement_button.label@ == "Decrement"@,
            screen.decrement_button.color == color::RED,
            screen.decrement_button.action is Decrement,
            screen.increment_button.label@ == "Increment"@,
            screen.increment_button.color == color::GREEN,
            screen.increment_button.action is Increment,
    {
        let mut count_text = String::from_str("Count: ");
        push_decimal(&mut count_text, self.count);
        CounterScreen {
            count_text,
            count_color: color::WHITE,
            decrement_button: CounterButton {
                label: String::from_str("Decrement"),
                color: color::RED,
                action: CounterOp::Decrement,
            },
            increment_button: CounterButton {
                label: String::from_str("Increment"),
                color: color::GREEN,
                action: CounterOp::Increment,
            },
        }
    }
}

/// The largest net change over the suffixes of `ops` (the empty suffix
/// included, so this is never negative).
spec fn best_suffix(ops: Seq<CounterOp>) -> int
    decreases ops.len(),
{
    if ops.len() == 0 {
        0
    } else {
        vstd::math::max(net_change(ops), best_suffix(ops.skip(1)))
    }
}

proof fn lemma_best_suffix_bounds(ops: Seq<CounterOp>)
    ensures
        best_suffix(ops) >= 0,
        best_suffix(ops) >= net_change(ops),
    decreases ops.len(),
{
    if ops.len() > 0 {
        lemma_best_suffix_bounds(ops.skip(1));
    }
}

/// The count after any run of operations equals the larger of `start` plus
/// the run's net change and the best suffix's net change: clamping at zero
/// forgets exactly the part of the run that a too-deep decrement ate.
proof fn lemma_count_from_best(start: nat, ops: Seq<CounterOp>)
    ensures
        count_from(start, ops) == vstd::math::max(start + net_change(ops), best_suffix(ops)),
    decreases ops.len(),
{
    if ops.len() > 0 {
        let rest = ops.skip(1);
        lemma_count_from_best(apply_op(start, ops[0]), rest);
        lemma_best_suffix_bounds(rest);
    }
}

/// The count never goes negative, whatever the operations: it is at least the
/// net of increments minus decrements, at least zero, and at most the number
/// of increments.
pub proof fn lemma_count_never_negative(ops: Seq<CounterOp>)
    ensures
        count_after(ops) >= 0,
        count_after(ops) >= net_change(ops),
        count_after(ops) <= increments(ops),
{
    lemma_count_from_best(0, ops);
    lemma_best_suffix_bounds(ops);
    lemma_count_from_le_increments(0, ops);
}

proof fn lemma_count_from_le_increments(start: nat, ops: Seq<CounterOp>)
    ensures
        count_from(start, ops) <= start + increments(ops),
    decreases ops.len(),
{
    if ops.len() > 0 {
        lemma_count_from_le_increments(apply_op(start, ops[0]), ops.skip(1));
    }
}

/// The count equals `max(0, increments - decrements)` for every run of
/// operations in which no suffix's net change exceeds that bound — that is,
/// for every run whose clamping losses are balanced out nowhere. (A run such
/// as increment, decrement, decrement, increment breaks the bound: its net
/// change is zero but the clamped decrement leaves the count at one.)
pub proof fn lemma_count_equals_clamped_net(ops: Seq<CounterOp>)
    requires
        forall|i: int|
            0 <= i <= ops.len() ==> net_change(ops.skip(i)) <= vstd::math::max(
                0,
                net_change(ops),
            ),
    ensures
        count_after(ops) == vstd::math::max(0, net_change(ops)),
{
    lemma_count_from_best(0, ops);
    lemma_best_suffix_bounds(ops);
    lemma_best_suffix_le(ops, vstd::math::max(0, net_change(ops)));
}

proof fn lemma_best_suffix_le(ops: Seq<CounterOp>, bound: int)
    requires
        bound >= 0,
        forall|i: int| 0 <= i <= ops.len() ==> net_change(ops.skip(i)) <= bound,
    ensures
        best_suffix(ops) <= bound,
    decreases ops.len(),
{
    if ops.len() > 0 {
        let rest = ops.skip(1);
        assert forall|i: int| 0 <= i <= rest.len() implies net_change(rest.skip(i)) <= bound by {
            assert(rest.skip(i) =~= ops.skip(i + 1));
            assert(net_change(ops.skip(i + 1)) <= bound);
        }
        lemma_best_suffix_le(rest, bound);
        assert(net_change(ops.skip(0)) <= bound);
        assert(ops.skip(0) =~= ops);
    }
}

/// Once the count is zero, decrements alone leave it at zero, however many
/// are applied.
pub proof fn lemma_decrement_idempotent_at_zero(ops: Seq<CounterOp>)
    requires
        forall|i: int| 0 <= i < ops.len() ==> ops[i] is Decrement,
    ensures
        count_after(ops) == 0,
    decreases ops.len(),
{
    if ops.len() > 0 {
        let rest = ops.skip(1);
        assert(count_after(ops) == count_from(0, rest));
        assert(forall|i: int| 0 <= i < rest.len() ==> rest[i] is Decrement);
        lemma_decrement_idempotent_at_zero(rest);
    }
}

} // verus!
