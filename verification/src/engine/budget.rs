//! The complexity budget and the threshold gate of convergence.
//!
//! Amounts are counted in thousandths (a complexity of `1000` is one).
use vstd::prelude::*;

verus! {

/// The complexity budget: the constant `k` of `a × k × m`, the largest
/// complexity allowed and the complexity so far, all in thousandths.
#[derive(Debug, Clone, Copy)]
pub struct ComplexityBudget {
    /// The constant (one by default).
    pub k: u64,
    /// The largest complexity allowed (one hundred by default).
    pub max_complexity: u64,
    /// The complexity so far.
    pub current_complexity: u64,
}

impl ComplexityBudget {
    /// The default budget: `k` one, at most one hundred, nothing spent.
    pub fn new() -> (b: Self)
        ensures
            b.k == 1000,
            b.max_complexity == 100_000,
            b.current_complexity == 0,
    {
        ComplexityBudget { k: 1000, max_complexity: 100_000, current_complexity: 0 }
    }

    /// A budget with the given constant and limit, nothing spent.
    pub fn new_with(k: u64, max_complexity: u64) -> (b: Self)
        ensures
            b.k == k,
            b.max_complexity == max_complexity,
            b.current_complexity == 0,
    {
        ComplexityBudget { k, max_complexity, current_complexity: 0 }
    }

    /// The complexity `a × k × m` (layers `a`, branches `m`), in
    /// thousandths.
    pub fn calculate(&self, a: i32, m: i32) -> (c: i128)
        ensures
            c == a * self.k * m,
    {
        assert(-0x4000_0000_0000_0000 <= a * m <= 0x4000_0000_0000_0000) by (nonlinear_arith)
            requires
                -0x8000_0000 <= a < 0x8000_0000,
                -0x8000_0000 <= m < 0x8000_0000,
        ;
        let am: i64 = (a as i64) * (m as i64);
        let k = self.k;
        assert(-0x4000_0000_0000_0000 * 0x1_0000_0000_0000_0000 <= am * k <= 0x4000_0000_0000_0000 * 0x1_0000_0000_0000_0000) by (nonlinear_arith)
            requires
                -0x4000_0000_0000_0000 <= am <= 0x4000_0000_0000_0000,
                0 <= k < 0x1_0000_0000_0000_0000,
        ;
        assert(a * k * m == (a * m) * k) by (nonlinear_arith);
        (am as i128) * (k as i128)
    }

    /// Whether more was spent than allowed.
    pub fn is_over_budget(&self) -> (b: bool)
        ensures
            b == (self.current_complexity > self.max_complexity),
    {
        self.current_complexity > self.max_complexity
    }

    /// Spends an amount (stopping at the largest `u64`).
    pub fn add_complexity(&mut self, amount: u64)
        ensures
            final(self).current_complexity == (if old(self).current_complexity + amount > u64::MAX {
                u64::MAX as int
            } else {
                old(self).current_complexity + amount
            }),
            final(self).k == old(self).k,
            final(self).max_complexity == old(self).max_complexity,
    {
        self.current_complexity = self.current_complexity.saturating_add(amount);
    }

    /// Gives an amount back, down to nothing.
    pub fn remove_complexity(&mut self, amount: u64)
        ensures
            final(self).current_complexity == (if old(self).current_complexity >= amount {
                old(self).current_complexity - amount
            } else {
                0
            }),
            final(self).k == old(self).k,
            final(self).max_complexity == old(self).max_complexity,
    {
        self.current_complexity = self.current_complexity.saturating_sub(amount);
    }

    /// Forgets what was spent.
    pub fn reset(&mut self)
        ensures
            final(self).current_complexity == 0,
            final(self).k == old(self).k,
            final(self).max_complexity == old(self).max_complexity,
    {
        self.current_complexity = 0;
    }

    /// What is left to spend, nothing when over budget.
    pub fn remaining(&self) -> (r: u64)
        ensures
            r == (if self.max_complexity >= self.current_complexity {
                self.max_complexity - self.current_complexity
            } else {
                0
            }),
    {
        self.max_complexity.saturating_sub(self.current_complexity)
    }

    /// Whether an amount still fits the budget.
    pub fn can_add(&self, amount: u64) -> (b: bool)
        ensures
            b == (self.current_complexity + amount <= self.max_complexity),
    {
        (self.current_complexity as u128) + (amount as u128) <= (self.max_complexity as u128)
    }
}

impl Default for ComplexityBudget {
    fn default() -> (b: Self)
        ensures
            b.k == 1000,
            b.max_complexity == 100_000,
            b.current_complexity == 0,
    {
        ComplexityBudget::new()
    }
}

/// A threshold gate, which decides convergence: weights of confidence, quantity and
/// depth, and a threshold, all in thousandths.
#[derive(Debug, Clone, Copy)]
pub struct ThresholdGate {
    /// Weight of the confidence (0.6 by default).
    pub confidence_weight: u32,
    /// Weight of the quantity (0.3).
    pub quantity_weight: u32,
    /// Weight of the depth (0.1).
    pub depth_weight: u32,
    /// The threshold (fifty by default).
    pub threshold: u64,
}

/// A confidence above which convergence is due: 0.8.
pub open spec fn high_confidence() -> int {
    800
}

impl ThresholdGate {
    /// The default gate: weights 0.6, 0.3 and 0.1, threshold fifty.
    pub open spec fn new_spec() -> ThresholdGate {
        ThresholdGate { confidence_weight: 600, quantity_weight: 300, depth_weight: 100, threshold: 50_000 }
    }

    /// A gate with the given threshold and confidence weight.
    pub open spec fn new_with_spec(threshold: u64, confidence_weight: u32) -> ThresholdGate {
        ThresholdGate { confidence_weight, quantity_weight: 300, depth_weight: 100, threshold }
    }

    /// The default gate.
    pub fn new() -> (g: Self)
        ensures
            g == Self::new_spec(),
            g.confidence_weight == 600,
            g.quantity_weight == 300,
            g.depth_weight == 100,
            g.threshold == 50_000,
    {
        ThresholdGate { confidence_weight: 600, quantity_weight: 300, depth_weight: 100, threshold: 50_000 }
    }

    /// A gate with the given threshold and confidence weight.
    pub fn new_with(threshold: u64, confidence_weight: u32) -> (g: Self)
        ensures
            g == Self::new_with_spec(threshold, confidence_weight),
            g.confidence_weight == confidence_weight,
            g.quantity_weight == 300,
            g.depth_weight == 100,
            g.threshold == threshold,
    {
        ThresholdGate { confidence_weight, quantity_weight: 300, depth_weight: 100, threshold }
    }

    /// Convergence is due when the complexity is over the threshold or the
    /// confidence over 0.8.
    pub fn should_converge(&self, complexity: u64, confidence: u32) -> (b: bool)
        ensures
            b == (complexity > self.threshold || confidence > high_confidence()),
    {
        complexity > self.threshold || confidence > 800
    }

    /// The convergence score: the weighted sum of confidence (in
    /// thousandths), quantity and depth, in millionths.
    pub fn convergence_score(&self, confidence: u32, quantity: i32, depth: i32) -> (s: i128)
        ensures
            s == self.confidence_weight * confidence + self.quantity_weight * quantity * 1000
                + self.depth_weight * depth * 1000,
    {
        let cw = self.confidence_weight;
        let qw = self.quantity_weight;
        let dw = self.depth_weight;
        assert(0 <= cw * confidence <= 0xffff_ffff * 0xffff_ffff) by (nonlinear_arith)
            requires
                cw <= 0xffff_ffff,
                confidence <= 0xffff_ffff,
        ;
        assert(-0x8000_0000 * 0xffff_ffff <= qw * quantity <= 0x8000_0000 * 0xffff_ffff) by (nonlinear_arith)
            requires
                qw <= 0xffff_ffff,
                -0x8000_0000 <= quantity < 0x8000_0000,
        ;
        assert(-0x8000_0000 * 0xffff_ffff <= dw * depth <= 0x8000_0000 * 0xffff_ffff) by (nonlinear_arith)
            requires
                dw <= 0xffff_ffff,
                -0x8000_0000 <= depth < 0x8000_0000,
        ;
        let a: i128 = (cw as i128) * (confidence as i128);
        let b: i128 = (qw as i128) * (quantity as i128);
        let c: i128 = (dw as i128) * (depth as i128);
        a + b * 1000 + c * 1000
    }

    /// Whether a score (in millionths) is under the threshold.
    pub fn should_prune_by_score(&self, score: i128) -> (b: bool)
        ensures
            b == (score < self.threshold * 1000),
    {
        score < (self.threshold as i128) * 1000
    }
}

impl Default for ThresholdGate {
    fn default() -> (g: Self)
        ensures
            g.confidence_weight == 600,
            g.quantity_weight == 300,
            g.depth_weight == 100,
            g.threshold == 50_000,
    {
        ThresholdGate::new()
    }
}

} // verus!
