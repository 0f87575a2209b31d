//! Scheduling metadata for a single learnable item under the SM-2 spaced
//! repetition algorithm.
//!
//! An [`Item`] carries the two numbers SM-2 needs: the count of consecutive
//! successful reviews since the last lapse, and the easiness factor that
//! governs how fast review intervals grow. After each review, graded by a
//! quality score from 0 (complete blackout) to 5 (perfect recall),
//! [`Item::review`] produces the updated state, and [`Item::interval`]
//! reports how many days should pass before the item is due again.
//!
//! Easiness factors are kept in hundredths (`250` stands for 2.5). Every
//! easiness update SM-2 performs moves the factor by a whole number of
//! hundredths, so this fixed-point representation is exact, and the interval
//! formula `ceil(6 * ef^(repetitions - 2))` becomes exact integer
//! arithmetic: `ceil(6 * e^n / 100^n)` for a factor of `e` hundredths.
//!
//! Two SM-2 subtleties are preserved faithfully:
//! - a failed review resets the repetition count to 1, not 0: the item
//!   counts as freshly learned once, so its next interval is one day;
//! - the 1.3 floor on the easiness factor is applied when a stored factor
//!   is *read* by a review, not when one is written, so an item restored
//!   with a factor below 1.3 reports that factor verbatim, and `interval`
//!   uses it verbatim, until the next review clamps what it reads.

use vstd::prelude::*;
use vstd::arithmetic::power::*;

verus! {

/// Floor applied to the easiness factor when a review reads it, in
/// hundredths (1.3).
pub const EF_FLOOR: u64 = 130;

/// Easiness factor of a freshly created item, in hundredths (2.5).
pub const EF_DEFAULT: u64 = 250;

/// A quality score outside the SM-2 domain was supplied; the offending
/// value is carried for diagnostics. Scores run from 0 to 5 inclusive, so
/// with an unsigned score only the upper bound can be violated.
#[derive(Debug, Clone, Copy, PartialEq, Eq, Structural)]
pub enum Error {
    QualityAboveFiveError(u8),
}

/// A validated SM-2 quality score. Construction via [`Quality::new`]
/// admits exactly the integers 0 through 5:
/// - 0: complete blackout (total failure);
/// - 1: incorrect, but the correct answer was recognized once shown;
/// - 2: incorrect, but the correct answer felt easy in hindsight;
/// - 3: correct, recalled with serious difficulty;
/// - 4: correct, recalled after hesitation;
/// - 5: perfect, immediate recall.
///
/// Scores 0-2 count as failures (they reset the repetition count), 3-5 as
/// successes (they advance it).
#[derive(Debug, Clone, Copy, PartialEq, Eq, Structural)]
pub struct Quality {
    value: u8,
}

impl Quality {
    /// The validated score this `Quality` carries.
    pub closed spec fn spec_value(self) -> u8 {
        self.value
    }

    /// A quality is valid when its score lies in the SM-2 domain 0-5.
    /// Every `Quality` built by [`Quality::new`] is valid.
    pub open spec fn is_valid(self) -> bool {
        self.spec_value() <= 5
    }

    /// Validate a raw score: succeeds exactly on 0 through 5, and rejects
    /// anything above with an error carrying the offending value.
    pub fn new(raw: u8) -> (r: Result<Quality, Error>)
        ensures
            r is Ok <==> raw <= 5,
            (raw <= 5 ==> (r matches Ok(q) && q.is_valid() && q.spec_value() == raw)),
            (raw > 5 ==> r == Err::<Quality, Error>(Error::QualityAboveFiveError(raw))),
    {
        if raw > 5 {
            Err(Error::QualityAboveFiveError(raw))
        } else {
            Ok(Quality { value: raw })
        }
    }

    /// Get the validated score, an integer from 0 to 5.
    pub fn value(&self) -> (v: u8)
        ensures
            v == self.spec_value(),
    {
        self.value
    }
}

/// The scheduling state of one learnable item: its consecutive-success
/// count and its easiness factor in hundredths.
#[derive(Debug, Clone, Copy, PartialEq, Eq, Structural)]
pub struct Item {
    /// Consecutive successful reviews since the last lapse.
    repetitions: usize,
    /// Easiness factor in hundredths; may legally sit below `EF_FLOOR`
    /// until the next review clamps the value it reads.
    efactor: u64,
}

/// The easiness factor a review works from: the stored factor, clamped to
/// the 1.3 floor at the moment it is read.
pub open spec fn ef_floored(ef: int) -> int {
    if ef < EF_FLOOR as int {
        EF_FLOOR as int
    } else {
        ef
    }
}

/// Change a review of quality `q` makes to the (floored) easiness factor,
/// in hundredths: 100 times the SM-2 polynomial
/// `0.1 - (5 - q) * (0.08 + (5 - q) * 0.02)`.
pub open spec fn ef_delta(q: int) -> int {
    10 - (5 - q) * 8 - (5 - q) * (5 - q) * 2
}

/// Easiness factor stored after reviewing an item whose stored factor is
/// `ef`, with quality `q`: the floor is applied to the value read, the
/// polynomial adjustment to the result. The outcome itself may lie below
/// the floor and is stored unclamped.
pub open spec fn next_efactor(ef: int, q: int) -> int {
    ef_floored(ef) + ef_delta(q)
}

/// Repetition count after a review of quality `q`: a failure (0-2)
/// restarts the learning cycle at 1, a success (3-5) advances the count.
pub open spec fn next_repetitions(reps: int, q: int) -> int {
    if q <= 2 {
        1
    } else {
        reps + 1
    }
}

/// Ceiling of `a / b` for non-negative `a` and positive `b`.
pub open spec fn div_ceil(a: int, b: int) -> int {
    (a + b - 1) / b
}

/// Days until an item with `reps` repetitions and an easiness factor of
/// `ef` hundredths is next due: two fixed onboarding intervals, then
/// geometric growth `ceil(6 * (ef / 100)^(reps - 2))`, computed on the
/// stored factor verbatim (no floor here; only reviews clamp).
pub open spec fn interval_days(reps: int, ef: int) -> int {
    if reps == 0 {
        0
    } else if reps == 1 {
        1
    } else if reps == 2 {
        6
    } else {
        div_ceil(6 * pow(ef, (reps - 2) as nat), pow(100, (reps - 2) as nat))
    }
}

/// The interval computation for `reps` repetitions and an easiness factor
/// of `ef` hundredths fits the machine: the two exact powers and the
/// ceiling division's numerator fit in 128 bits, and the resulting day
/// count fits in `usize`. The two fixed onboarding intervals need no
/// arithmetic at all. Every state a realistic review history reaches
/// satisfies this; it excludes only day counts and intermediate products
/// beyond what 128-bit integers can carry exactly.
pub open spec fn interval_computable(reps: int, ef: int) -> bool {
    reps <= 2 || {
        let e = (reps - 2) as nat;
        &&& pow(100, e) <= u128::MAX
        &&& 6 * pow(ef, e) + pow(100, e) - 1 <= u128::MAX
        &&& interval_days(reps, ef) <= usize::MAX
    }
}

/// A non-negative base raised to any power stays non-negative.
proof fn lemma_pow_nonneg(b: int, e: nat)
    requires
        b >= 0,
    ensures
        pow(b, e) >= 0,
{
    if b > 0 {
        lemma_pow_positive(b, e);
    } else if e == 0 {
        lemma_pow0(b);
    } else {
        lemma0_pow(e);
    }
}

/// Exact exponentiation: `base` to the power `exp` when the result fits in
/// 128 bits, and `None` exactly when it does not.
fn checked_pow(base: u64, exp: usize) -> (r: Option<u128>)
    ensures
        (r matches Some(v) ==> v as int == pow(base as int, exp as nat)),
        r is Some <==> pow(base as int, exp as nat) <= u128::MAX,
{
    let wide: u128 = base as u128;
    let mut r: u128 = 1;
    let mut i: usize = 0;
    proof {
        lemma_pow0(base as int);
    }
    while i < exp
        invariant
            i <= exp,
            wide == base as u128,
            r as int == pow(base as int, i as nat),
        decreases exp - i,
    {
        proof {
            lemma_pow_adds(base as int, i as nat, 1);
            lemma_pow1(base as int);
            assert(pow(base as int, (i + 1) as nat) == (r as int) * (base as int));
            if base == 0 {
                assert((r as int) * (base as int) == 0) by (nonlinear_arith)
                    requires
                        base as int == 0,
                ;
            }
        }
        r = match r.checked_mul(wide) {
            Some(v) => v,
            None => {
                // The partial product already exceeds 128 bits; with a
                // positive base the full power is at least as large.
                proof {
                    lemma_pow_increases(base as nat, (i + 1) as nat, exp as nat);
                }
                return None;
            },
        };
        i = i + 1;
    }
    Some(r)
}

impl Item {
    /// Consecutive successful reviews since the last lapse.
    pub closed spec fn spec_repetitions(self) -> usize {
        self.repetitions
    }

    /// Stored easiness factor, in hundredths.
    pub closed spec fn spec_efactor(self) -> u64 {
        self.efactor
    }

    /// Return an `Item` with the given number of repetitions and easiness
    /// factor (in hundredths), verbatim: restoring previously computed
    /// state performs no validation, which is why the 1.3 floor is
    /// enforced lazily by `review` rather than here.
    pub fn new(repetitions: usize, efactor: u64) -> (item: Item)
        ensures
            item.spec_repetitions() == repetitions,
            item.spec_efactor() == efactor,
    {
        Item { repetitions, efactor }
    }

    /// Get the number of repetitions of this `Item`.
    pub fn repetitions(&self) -> (n: usize)
        ensures
            n == self.spec_repetitions(),
    {
        self.repetitions
    }

    /// Get the easiness factor of this `Item`, in hundredths. A factor
    /// below `EF_FLOOR` is reported verbatim: the floor is applied only
    /// when a review reads the value.
    pub fn efactor(&self) -> (ef: u64)
        ensures
            ef == self.spec_efactor(),
    {
        self.efactor
    }

    /// The interval when the exact computation fits the machine, and
    /// `None` exactly when it does not: the total form of
    /// [`Item::interval`], for callers that cannot rule the edge out in
    /// advance.
    pub fn try_interval(&self) -> (r: Option<usize>)
        ensures
            r is Some <==> interval_computable(
                self.spec_repetitions() as int,
                self.spec_efactor() as int,
            ),
            (r matches Some(days) ==> days as int == interval_days(
                self.spec_repetitions() as int,
                self.spec_efactor() as int,
            )),
    {
        if self.repetitions == 0 {
            Some(0)
        } else if self.repetitions == 1 {
            Some(1)
        } else if self.repetitions == 2 {
            Some(6)
        } else {
            let e: usize = self.repetitions - 2;
            proof {
                lemma_pow_positive(100, e as nat);
                lemma_pow_nonneg(self.efactor as int, e as nat);
            }
            let p = match checked_pow(self.efactor, e) {
                Some(p) => p,
                None => {
                    return None;
                },
            };
            let q = match checked_pow(100, e) {
                Some(q) => q,
                None => {
                    return None;
                },
            };
            let num = match p.checked_mul(6) {
                Some(num) => num,
                None => {
                    return None;
                },
            };
            let total = match num.checked_add(q - 1) {
                Some(total) => total,
                None => {
                    return None;
                },
            };
            let days_wide: u128 = total / q;
            if days_wide > usize::MAX as u128 {
                return None;
            }
            Some(days_wide as usize)
        }
    }

    /// Returns the current interval of the `Item`: the number of days
    /// after the previous review at which it next falls due. Repetition
    /// counts 0, 1 and 2 take the fixed SM-2 onboarding intervals 0, 1 and
    /// 6; from the third repetition on the interval is
    /// `ceil(6 * (ef / 100)^(repetitions - 2))` on the stored factor
    /// verbatim, computed exactly in integers.
    ///
    /// The precondition asks only that the exact computation fit the
    /// machine's 128-bit intermediates and `usize` result; callers that
    /// cannot guarantee that use [`Item::try_interval`].
    pub fn interval(&self) -> (days: usize)
        requires
            interval_computable(self.spec_repetitions() as int, self.spec_efactor() as int),
        ensures
            days as int == interval_days(self.spec_repetitions() as int, self.spec_efactor() as int),
    {
        match self.try_interval() {
            Some(days) => days,
            None => {
                // Unreachable: the precondition is exactly the condition
                // under which try_interval succeeds.
                proof {
                    assert(false);
                }
                0
            },
        }
    }

    /// Easiness factor after a review of the given quality: the stored
    /// factor clamped to the floor, plus the SM-2 polynomial adjustment.
    fn new_efactor(&self, quality: Quality) -> (ef: u64)
        requires
            quality.is_valid(),
            quality.spec_value() == 5 ==> self.spec_efactor() <= u64::MAX - 10,
        ensures
            ef as int == next_efactor(self.spec_efactor() as int, quality.spec_value() as int),
    {
        let floored = if self.efactor < EF_FLOOR {
            EF_FLOOR
        } else {
            self.efactor
        };
        let d: u64 = (5 - quality.value()) as u64;
        proof {
            assert((d as int) * (d as int) <= 25 && (1 <= d ==> 1 <= (d as int) * (d as int)))
                by (nonlinear_arith)
                requires
                    d <= 5,
            ;
        }
        let penalty: u64 = 8 * d + 2 * (d * d);
        floored - penalty + 10
    }

    /// Repetition count after a review of the given quality: 1 after a
    /// failure (quality 0-2), one more than before after a success (3-5).
    fn new_repetitions(&self, quality: Quality) -> (n: usize)
        requires
            quality.is_valid(),
            quality.spec_value() >= 3 ==> self.spec_repetitions() < usize::MAX,
        ensures
            n as int == next_repetitions(self.spec_repetitions() as int, quality.spec_value() as int),
    {
        if quality.value() <= 2 {
            1
        } else {
            self.repetitions + 1
        }
    }

    /// Returns the `Item` as it stands after a review with the given
    /// validated quality. This form cannot fail: validation already
    /// happened when the `Quality` was built.
    ///
    /// The preconditions are machine limits only: a success must leave the
    /// repetition count representable, and a perfect score must leave the
    /// easiness factor representable.
    pub fn review_with(&self, quality: Quality) -> (reviewed: Item)
        requires
            quality.is_valid(),
            quality.spec_value() >= 3 ==> self.spec_repetitions() < usize::MAX,
            quality.spec_value() == 5 ==> self.spec_efactor() <= u64::MAX - 10,
        ensures
            reviewed.spec_repetitions() as int == next_repetitions(
                self.spec_repetitions() as int,
                quality.spec_value() as int,
            ),
            reviewed.spec_efactor() as int == next_efactor(
                self.spec_efactor() as int,
                quality.spec_value() as int,
            ),
    {
        Item { repetitions: self.new_repetitions(quality), efactor: self.new_efactor(quality) }
    }

    /// Returns a new `Item` based on the given quality, an integer between
    /// 0 and 5 (see [`Quality`] for the meaning of each score). A quality
    /// above 5 is rejected with an error carrying the offending value, and
    /// the item is left untouched; otherwise the review succeeds, resets
    /// the repetition count to 1 on a failing score (0-2) and advances it
    /// by one on a passing score (3-5), and applies the SM-2 easiness
    /// update to the stored factor read through the 1.3 floor.
    pub fn review(&self, quality: u8) -> (r: Result<Item, Error>)
        requires
            3 <= quality <= 5 ==> self.spec_repetitions() < usize::MAX,
            quality == 5 ==> self.spec_efactor() <= u64::MAX - 10,
        ensures
            r is Ok <==> quality <= 5,
            (quality <= 5 ==> (r matches Ok(it)
                && it.spec_repetitions() as int == next_repetitions(
                    self.spec_repetitions() as int,
                    quality as int,
                )
                && it.spec_efactor() as int == next_efactor(
                    self.spec_efactor() as int,
                    quality as int,
                ))),
            (quality > 5 ==> r == Err::<Item, Error>(Error::QualityAboveFiveError(quality))),
    {
        match Quality::new(quality) {
            Ok(q) => Ok(self.review_with(q)),
            Err(e) => Err(e),
        }
    }

    /// In-place convenience form of [`Item::review`]: on a valid quality
    /// the item is overwritten with the reviewed state; an invalid quality
    /// is rejected before any state is touched, so the item is left
    /// exactly as it was.
    pub fn review_in_place(&mut self, quality: u8) -> (r: Result<(), Error>)
        requires
            3 <= quality <= 5 ==> old(self).spec_repetitions() < usize::MAX,
            quality == 5 ==> old(self).spec_efactor() <= u64::MAX - 10,
        ensures
            r is Ok <==> quality <= 5,
            quality <= 5 ==> final(self).spec_repetitions() as int == next_repetitions(
                old(self).spec_repetitions() as int,
                quality as int,
            ),
            quality <= 5 ==> final(self).spec_efactor() as int == next_efactor(
                old(self).spec_efactor() as int,
                quality as int,
            ),
            (quality > 5 ==> *final(self) == *old(self) && r == Err::<(), Error>(
                Error::QualityAboveFiveError(quality),
            )),
    {
        match self.review(quality) {
            Ok(reviewed) => {
                *self = reviewed;
                Ok(())
            },
            Err(e) => Err(e),
        }
    }
}

/// A lapse resets the cycle: reviewing any item with a failing quality
/// (0-2) leaves exactly one repetition, whatever the prior count.
pub proof fn lemma_lapse_resets(reps: int, q: int)
    requires
        0 <= q <= 2,
    ensures
        next_repetitions(reps, q) == 1,
{
}

/// A success advances the cycle: reviewing any item with a passing quality
/// (3-5) leaves exactly one repetition more than before.
pub proof fn lemma_success_advances(reps: int, q: int)
    requires
        3 <= q <= 5,
    ensures
        next_repetitions(reps, q) == reps + 1,
{
}

/// The easiness floor acts on the value read: a review of an item whose
/// stored factor sits at or below the floor proceeds exactly as if the
/// stored factor were the floor itself.
pub proof fn lemma_ef_floor_on_read(ef: int, q: int)
    requires
        ef <= EF_FLOOR as int,
    ensures
        next_efactor(ef, q) == next_efactor(EF_FLOOR as int, q),
{
}

/// The onboarding intervals are fixed and independent of the easiness
/// factor: no repetitions means due now, one repetition means one day,
/// two repetitions mean six days.
pub proof fn lemma_interval_onboarding(ef: int)
    ensures
        interval_days(0, ef) == 0,
        interval_days(1, ef) == 1,
        interval_days(2, ef) == 6,
{
}

impl Default for Item {
    /// Return a fresh `Item`: no successful reviews yet, easiness factor
    /// at the canonical SM-2 starting value of 2.5.
    fn default() -> (item: Item)
        ensures
            item.spec_repetitions() == 0,
            item.spec_efactor() == EF_DEFAULT,
    {
        Item { repetitions: 0, efactor: EF_DEFAULT }
    }
}

} // verus!
