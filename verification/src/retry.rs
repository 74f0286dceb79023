//! Retry policies: how often a step is tried again, and after what delay.

use crate::duration;
use crate::duration::Duration;
use vstd::arithmetic::power2;
use vstd::prelude::*;

verus! {

/// Configures automatic retry behavior for a step.
///
/// A step closure that fails with a retryable error runs again according to
/// this policy. Permanent errors bypass retries entirely.
#[derive(Debug)]
pub struct RetryPolicy {
    pub(crate) max_retries: u32,
    pub(crate) backoff: Backoff,
}

/// The delay before each retry.
#[derive(Debug)]
pub(crate) enum Backoff {
    Fixed(Duration),
    Exponential { base: Duration, max: Duration },
}

/// What a [`RetryPolicy`] says, spans in nanoseconds.
pub struct PolicyView {
    pub max_retries: nat,
    pub backoff: BackoffView,
}

/// The delay schedule of a policy, spans in nanoseconds.
pub enum BackoffView {
    Fixed(nat),
    Exponential { base: nat, max: nat },
}

impl View for RetryPolicy {
    type V = PolicyView;

    closed spec fn view(&self) -> PolicyView {
        PolicyView {
            max_retries: self.max_retries as nat,
            backoff: match self.backoff {
                Backoff::Fixed(d) => BackoffView::Fixed(d@),
                Backoff::Exponential { base, max } => BackoffView::Exponential {
                    base: base@,
                    max: max@,
                },
            },
        }
    }
}

/// The delay before retry number `attempt` (from 0), in nanoseconds: that of
/// an exponential policy doubles with each attempt, up to the cap.
pub open spec fn delay(policy: PolicyView, attempt: nat) -> nat {
    match policy.backoff {
        BackoffView::Fixed(d) => d,
        BackoffView::Exponential { base, max } => duration::shorter(
            base * power2::pow2(attempt),
            max,
        ),
    }
}

impl Clone for RetryPolicy {
    fn clone(&self) -> (r: Self)
        ensures
            r == *self,
    {
        RetryPolicy {
            max_retries: self.max_retries,
            backoff: match self.backoff {
                Backoff::Fixed(d) => Backoff::Fixed(d),
                Backoff::Exponential { base, max } => Backoff::Exponential { base, max },
            },
        }
    }
}

impl RetryPolicy {
    /// Creates a policy with a fixed delay between attempts.
    #[must_use]
    pub fn fixed(max_retries: u32, delay: Duration) -> (p: Self)
        ensures
            p@ == (PolicyView {
                max_retries: max_retries as nat,
                backoff: BackoffView::Fixed(delay@),
            }),
    {
        Self { max_retries, backoff: Backoff::Fixed(delay) }
    }

    /// Creates a policy with exponential backoff.
    ///
    /// Delay doubles each attempt: `base`, `2*base`, `4*base`, etc., capped at
    /// 30 seconds. Use [`with_max_delay`](Self::with_max_delay) to change the
    /// cap.
    #[must_use]
    pub fn exponential(max_retries: u32, base: Duration) -> (p: Self)
        ensures
            p@ == (PolicyView {
                max_retries: max_retries as nat,
                backoff: BackoffView::Exponential { base: base@, max: 30_000_000_000 },
            }),
    {
        Self {
            max_retries,
            backoff: Backoff::Exponential { base, max: Duration::from_secs(30) },
        }
    }

    /// Sets the maximum delay for exponential backoff.
    ///
    /// Has no effect on fixed-delay policies.
    #[must_use]
    pub fn with_max_delay(self, max: Duration) -> (p: Self)
        ensures
            p@ == (match self@.backoff {
                BackoffView::Fixed(_) => self@,
                BackoffView::Exponential { base, .. } => PolicyView {
                    backoff: BackoffView::Exponential { base, max: max@ },
                    ..self@
                },
            }),
    {
        match self.backoff {
            Backoff::Fixed(d) => self,
            Backoff::Exponential { base, max: _ } => RetryPolicy {
                max_retries: self.max_retries,
                backoff: Backoff::Exponential { base, max },
            },
        }
    }

    /// How many times a failed attempt is followed by another.
    #[must_use]
    pub fn max_retries(&self) -> (n: u32)
        ensures
            n == self@.max_retries,
    {
        self.max_retries
    }

    /// Returns the delay before the given retry attempt (0-indexed).
    #[must_use]
    pub fn delay_for(&self, attempt: u32) -> (d: Duration)
        ensures
            d@ == delay(self@, attempt as nat),
    {
        match self.backoff {
            Backoff::Fixed(d) => d,
            Backoff::Exponential { base, max } => {
                let ghost policy = self@;
                let zero = Duration::from_secs(0);
                let mut d = base.min(max);
                proof {
                    first_delay_is_base(policy);
                }
                let mut n: u32 = 0;
                while n < attempt && d != max && d != zero
                    invariant
                        n <= attempt,
                        policy.backoff == (BackoffView::Exponential { base: base@, max: max@ }),
                        d@ == delay(policy, n as nat),
                        zero@ == 0,
                        max@ <= duration::MAX_NANOS,
                    decreases attempt - n,
                {
                    proof {
                        delay_doubles(policy, n as nat);
                    }
                    d = d.saturating_mul(2).min(max);
                    n = n + 1;
                }
                proof {
                    if n < attempt {
                        delay_settles(policy, n as nat, attempt as nat);
                    }
                }
                d
            },
        }
    }
}

/// No delay of an exponential policy is longer than its cap.
pub proof fn delay_within_cap(policy: PolicyView, attempt: nat)
    requires
        policy.backoff is Exponential,
    ensures
        delay(policy, attempt) <= policy.backoff->max,
{
}

/// The first delay of an exponential policy is its base delay, up to the cap.
pub proof fn first_delay_is_base(policy: PolicyView)
    requires
        policy.backoff is Exponential,
    ensures
        delay(policy, 0) == duration::shorter(policy.backoff->base, policy.backoff->max),
{
    power2::lemma2_to64();
    assert(policy.backoff->base * power2::pow2(0) == policy.backoff->base) by (nonlinear_arith)
        requires
            power2::pow2(0) == 1,
    ;
}

/// Each delay of an exponential policy is twice the one before, up to the cap.
pub proof fn delay_doubles(policy: PolicyView, attempt: nat)
    requires
        policy.backoff is Exponential,
    ensures
        delay(policy, attempt + 1) == duration::shorter(
            2 * delay(policy, attempt),
            policy.backoff->max,
        ),
{
    power2::lemma_pow2_unfold(attempt + 1);
    let base = policy.backoff->base;
    let p = power2::pow2(attempt);
    assert(base * (2 * p) == 2 * (base * p)) by (nonlinear_arith);
}

/// A delay that has reached the cap, or is zero, stays as it is.
proof fn delay_settles(policy: PolicyView, i: nat, j: nat)
    requires
        policy.backoff is Exponential,
        i <= j,
        delay(policy, i) == policy.backoff->max || delay(policy, i) == 0,
    ensures
        delay(policy, j) == delay(policy, i),
{
    delay_is_monotone(policy, i, j);
    let base = policy.backoff->base;
    if delay(policy, i) != policy.backoff->max {
        power2::lemma_pow2_pos(i);
        assert(base == 0) by (nonlinear_arith)
            requires
                base * power2::pow2(i) == 0,
                power2::pow2(i) > 0,
        ;
    }
}

/// Delays never get shorter from one attempt to a later one.
pub proof fn delay_is_monotone(policy: PolicyView, i: nat, j: nat)
    requires
        i <= j,
    ensures
        delay(policy, i) <= delay(policy, j),
{
    if policy.backoff is Exponential && i < j {
        power2::lemma_pow2_strictly_increases(i, j);
        let base = policy.backoff->base;
        let (p, q) = (power2::pow2(i), power2::pow2(j));
        assert(base * p <= base * q) by (nonlinear_arith)
            requires
                p <= q,
        ;
    }
}

/// A fixed policy has the same delay before every attempt.
pub proof fn fixed_delay_never_changes(policy: PolicyView, d: nat, attempt: nat)
    requires
        policy.backoff == BackoffView::Fixed(d),
    ensures
        delay(policy, attempt) == d,
{
}

/// The delay of an exponential policy is the base doubled once for each attempt
/// before, until it reaches the cap; how many retries the policy allows does
/// not matter to it.
pub proof fn exponential_delay_is_exact(policy: PolicyView, base: nat, max: nat, attempt: nat)
    requires
        policy.backoff == (BackoffView::Exponential { base, max }),
    ensures
        base * power2::pow2(attempt) <= max ==> delay(policy, attempt) == base * power2::pow2(
            attempt,
        ),
        base * power2::pow2(attempt) >= max ==> delay(policy, attempt) == max,
{
}

} // verus!
