//! Generic analog input support.
//!
//! Samples are held in fixed point: `ANALOG_MAX` steps stand for a
//! full-scale reading of one, so the closed range
//! `ANALOG_MIN ..= ANALOG_MAX` stands for the normalized interval from
//! minus one to one.

use vstd::prelude::*;

verus! {

/// The minimum value of an analog input, in fixed-point steps.
pub const ANALOG_MIN: i32 = -1_000_000;

/// The maximum value of an analog input, in fixed-point steps.
pub const ANALOG_MAX: i32 = 1_000_000;

/// The largest positive value of a signed 16-bit raw sample.
pub const RAW_SAMPLE_MAX: i32 = 0x7fff;

/// Clamps an arbitrary fixed-point reading into the analog range.
pub open spec fn clamp_fixed(x: int) -> int {
    if x < ANALOG_MIN as int {
        ANALOG_MIN as int
    } else if x > ANALOG_MAX as int {
        ANALOG_MAX as int
    } else {
        x
    }
}

/// The magnitude of a fixed-point value.
pub open spec fn fixed_abs(x: int) -> int {
    if x < 0 {
        -x
    } else {
        x
    }
}

/// Whether two fixed-point values point in opposite directions.
/// Zero counts as positive.
pub open spec fn opposite_signs(a: int, b: int) -> bool {
    (a < 0) != (b < 0)
}

/// The normalized value that a signed 16-bit sample stands for: the
/// sample divided by `RAW_SAMPLE_MAX`, scaled into fixed point and
/// clamped into the analog range.
pub open spec fn i16_to_fixed(x: int) -> int {
    if x >= 0 {
        clamp_fixed(x * (ANALOG_MAX as int) / (RAW_SAMPLE_MAX as int))
    } else {
        clamp_fixed(-((-x) * (ANALOG_MAX as int) / (RAW_SAMPLE_MAX as int)))
    }
}

/// One analog sample, always within the analog range.
#[derive(Clone, Copy, Debug, PartialEq, Eq, Structural)]
pub struct AnalogInputValue {
    raw: i32,
}

impl View for AnalogInputValue {
    type V = int;

    closed spec fn view(&self) -> int {
        self.raw as int
    }
}

impl AnalogInputValue {
    #[verifier::type_invariant]
    spec fn range_inv(self) -> bool {
        ANALOG_MIN as int <= self.raw as int <= ANALOG_MAX as int
    }

    /// Builds a value from a raw fixed-point reading, clamping it into
    /// the analog range.
    pub fn from_fixed(raw: i64) -> (v: Self)
        ensures
            v@ == clamp_fixed(raw as int),
    {
        let clamped: i32 = if raw < ANALOG_MIN as i64 {
            ANALOG_MIN
        } else if raw > ANALOG_MAX as i64 {
            ANALOG_MAX
        } else {
            raw as i32
        };
        AnalogInputValue { raw: clamped }
    }

    /// Builds a value from a signed 16-bit sample: the sample is divided
    /// by the largest positive 16-bit value (in fixed point) and clamped
    /// into the analog range.
    pub fn from_i16(sample: i16) -> (v: Self)
        ensures
            v@ == i16_to_fixed(sample as int),
    {
        let wide: i64 = sample as i64;
        let mag: i64 = if wide < 0 {
            -wide
        } else {
            wide
        };
        proof {
            assert(mag as int * (ANALOG_MAX as int) <= 32768 * (ANALOG_MAX as int))
                by (nonlinear_arith)
                requires
                    0 <= mag as int <= 32768,
            ;
        }
        let scaled: i64 = mag * (ANALOG_MAX as i64) / (RAW_SAMPLE_MAX as i64);
        let signed: i64 = if wide < 0 {
            -scaled
        } else {
            scaled
        };
        Self::from_fixed(signed)
    }

    /// Reads the sample back as its fixed-point scalar; a lossless
    /// passthrough.
    pub fn to_fixed(self) -> (r: i32)
        ensures
            r as int == self@,
    {
        self.raw
    }
}

impl Default for AnalogInputValue {
    /// The neutral sample.
    fn default() -> (v: Self)
        ensures
            v@ == 0,
    {
        AnalogInputValue { raw: 0 }
    }
}

/// A sample's magnitude, used only for comparisons against a configured
/// threshold.
#[derive(Clone, Copy, Debug, PartialEq, Eq, Structural)]
struct Deadzone {
    magnitude: i32,
}

impl Deadzone {
    #[verifier::type_invariant]
    spec fn range_inv(self) -> bool {
        0 <= self.magnitude as int <= ANALOG_MAX as int
    }

    /// The magnitude of a sample: its absolute value.
    fn of(value: AnalogInputValue) -> (d: Self)
        ensures
            d.magnitude as int == fixed_abs(value@),
    {
        proof {
            use_type_invariant(&value);
        }
        let raw: i32 = value.to_fixed();
        let magnitude: i32 = if raw < 0 {
            -raw
        } else {
            raw
        };
        Deadzone { magnitude }
    }
}

/// The default analog deadzone threshold, a tenth of full scale.
pub const DEFAULT_DEADZONE: i32 = 100_000;

/// The default digital deadzone threshold, half of full scale.
pub const DEFAULT_DEADZONE_DIGITAL: i32 = 500_000;

/// Membership of the key being set in the activated set of one threshold,
/// after a `set` call: `prev` is the previously recorded sample (if any),
/// `new` the new sample, `d` the threshold, and `was` the membership
/// before the call.
pub open spec fn activated_after_set(prev: Option<int>, new: int, d: int, was: bool) -> bool {
    match prev {
        None => if fixed_abs(new) >= d {
            true
        } else {
            was
        },
        Some(p) => if fixed_abs(new) < d {
            false
        } else {
            fixed_abs(p) < d || opposite_signs(new, p) || was
        },
    }
}

/// Membership of the key being set in the deactivated set of one
/// threshold, after a `set` call, with the parameters of
/// `activated_after_set`.
pub open spec fn deactivated_after_set(prev: Option<int>, new: int, d: int, was: bool) -> bool {
    match prev {
        None => if fixed_abs(new) >= d {
            false
        } else {
            was
        },
        Some(p) => if fixed_abs(new) < d {
            fixed_abs(p) >= d || was
        } else {
            false
        },
    }
}

/// Container for analog inputs: the last sample recorded per key, the four
/// transition sets of the current tick, and the two configured deadzone
/// thresholds.
#[derive(Debug)]
pub struct AnalogInput<T> {
    inputs: std::collections::HashMap<T, AnalogInputValue>,

    just_activated: std::collections::HashSet<T>,
    just_deactivated: std::collections::HashSet<T>,
    deadzone: Deadzone,

    just_activated_digital: std::collections::HashSet<T>,
    just_deactivated_digital: std::collections::HashSet<T>,
    deadzone_digital: Deadzone,
}

impl<T> AnalogInput<T> {
    /// The recorded samples, as fixed-point scalars.
    pub closed spec fn values(self) -> Map<T, int> {
        self.inputs@.map_values(|v: AnalogInputValue| v@)
    }

    /// Keys that left the analog deadzone during the current tick.
    pub closed spec fn activated(self) -> Set<T> {
        self.just_activated@
    }

    /// Keys that entered the analog deadzone during the current tick.
    pub closed spec fn deactivated(self) -> Set<T> {
        self.just_deactivated@
    }

    /// Keys that left the digital deadzone during the current tick.
    pub closed spec fn activated_digital(self) -> Set<T> {
        self.just_activated_digital@
    }

    /// Keys that entered the digital deadzone during the current tick.
    pub closed spec fn deactivated_digital(self) -> Set<T> {
        self.just_deactivated_digital@
    }

    /// The analog deadzone threshold.
    pub closed spec fn deadzone(self) -> int {
        self.deadzone.magnitude as int
    }

    /// The digital deadzone threshold.
    pub closed spec fn deadzone_digital(self) -> int {
        self.deadzone_digital.magnitude as int
    }

    /// The sample recorded for `k`, if any.
    pub open spec fn sample(self, k: T) -> Option<int> {
        if self.values().dom().contains(k) {
            Some(self.values()[k])
        } else {
            None
        }
    }

    /// Invariants of the container: the key type fits the hash-map model,
    /// a key is never in both sets of one threshold pair, every recorded
    /// sample is within the analog range, and so are the thresholds.
    pub open spec fn wf(self) -> bool {
        &&& vstd::std_specs::hash::obeys_key_model::<T>()
        &&& forall|k: T| #[trigger]
            self.activated().contains(k) ==> !self.deactivated().contains(k)
        &&& forall|k: T| #[trigger]
            self.activated_digital().contains(k) ==> !self.deactivated_digital().contains(k)
        &&& forall|k: T| #[trigger]
            self.values().dom().contains(k) ==> ANALOG_MIN as int <= self.values()[k]
                <= ANALOG_MAX as int
        &&& 0 <= self.deadzone() <= ANALOG_MAX as int
        &&& 0 <= self.deadzone_digital() <= ANALOG_MAX as int
    }

    /// The value that `value` reports for `k`: the recorded sample when
    /// its magnitude exceeds the analog deadzone, zero otherwise.
    pub open spec fn value_spec(self, k: T) -> int {
        if self.values().dom().contains(k) && fixed_abs(self.values()[k]) > self.deadzone() {
            self.values()[k]
        } else {
            0
        }
    }

    /// The value that `value_digital` reports for `k`: full scale with the
    /// sample's sign when its magnitude exceeds the digital deadzone, zero
    /// otherwise.
    pub open spec fn value_digital_spec(self, k: T) -> int {
        if self.values().dom().contains(k) && fixed_abs(self.values()[k])
            > self.deadzone_digital() {
            if self.values()[k] < 0 {
                ANALOG_MIN as int
            } else {
                ANALOG_MAX as int
            }
        } else {
            0
        }
    }
}

impl<T> AnalogInput<T> where T: core::hash::Hash + Eq {
    /// Gets the value of an analog input, as a fixed-point scalar.
    ///
    /// Returns zero if the input is within the analog deadzone, or if it
    /// has not been read yet.
    pub fn value(&self, input: T) -> (r: i32)
        requires
            self.wf(),
        ensures
            r as int == self.value_spec(input),
    {
        match self.inputs.get(&input) {
            Some(v) => {
                let magnitude = Deadzone::of(*v);
                if magnitude.magnitude > self.deadzone.magnitude {
                    v.to_fixed()
                } else {
                    0
                }
            },
            None => 0,
        }
    }

    /// Checks if an analog input just left the analog deadzone; if so,
    /// reports its current value.
    pub fn just_activated(&self, input: T) -> (r: Option<i32>)
        requires
            self.wf(),
        ensures
            match r {
                Some(v) => self.activated().contains(input) && v as int == self.value_spec(input),
                None => !self.activated().contains(input),
            },
    {
        if self.just_activated.contains(&input) {
            Some(self.value(input))
        } else {
            None
        }
    }

    /// Checks if an analog input just entered the analog deadzone.
    pub fn just_deactivated(&self, input: T) -> (r: bool)
        requires
            self.wf(),
        ensures
            r == self.deactivated().contains(input),
    {
        self.just_deactivated.contains(&input)
    }

    /// Converts an analog input to a digital value.
    ///
    /// Returns either `ANALOG_MIN` or `ANALOG_MAX` when the input is
    /// outside the digital deadzone, and zero otherwise.
    pub fn value_digital(&self, input: T) -> (r: i32)
        requires
            self.wf(),
        ensures
            r as int == self.value_digital_spec(input),
    {
        match self.inputs.get(&input) {
            Some(v) => {
                let magnitude = Deadzone::of(*v);
                if magnitude.magnitude > self.deadzone_digital.magnitude {
                    if v.to_fixed() < 0 {
                        ANALOG_MIN
                    } else {
                        ANALOG_MAX
                    }
                } else {
                    0
                }
            },
            None => 0,
        }
    }

    /// Checks if an analog input just left the digital deadzone; if so,
    /// reports its current digital value.
    pub fn just_activated_digital(&self, input: T) -> (r: Option<i32>)
        requires
            self.wf(),
        ensures
            match r {
                Some(v) => self.activated_digital().contains(input) && v as int
                    == self.value_digital_spec(input),
                None => !self.activated_digital().contains(input),
            },
    {
        if self.just_activated_digital.contains(&input) {
            Some(self.value_digital(input))
        } else {
            None
        }
    }

    /// Checks if an analog input just entered the digital deadzone.
    pub fn just_deactivated_digital(&self, input: T) -> (r: bool)
        requires
            self.wf(),
        ensures
            r == self.deactivated_digital().contains(input),
    {
        self.just_deactivated_digital.contains(&input)
    }
}

impl<T> AnalogInput<T> {
    /// How the container state after `set(input, v)` relates to the state
    /// before: the sample is recorded, the thresholds are kept, and for
    /// each threshold the membership of `input` in the transition sets is
    /// recomputed while every other key's membership is kept.
    pub open spec fn set_post(pre: Self, post: Self, input: T, v: int) -> bool {
        &&& post.values() == pre.values().insert(input, v)
        &&& post.deadzone() == pre.deadzone()
        &&& post.deadzone_digital() == pre.deadzone_digital()
        &&& forall|k: T| #[trigger]
            post.activated().contains(k) == (if k == input {
                activated_after_set(
                    pre.sample(input),
                    v,
                    pre.deadzone(),
                    pre.activated().contains(input),
                )
            } else {
                pre.activated().contains(k)
            })
        &&& forall|k: T| #[trigger]
            post.deactivated().contains(k) == (if k == input {
                deactivated_after_set(
                    pre.sample(input),
                    v,
                    pre.deadzone(),
                    pre.deactivated().contains(input),
                )
            } else {
                pre.deactivated().contains(k)
            })
        &&& forall|k: T| #[trigger]
            post.activated_digital().contains(k) == (if k == input {
                activated_after_set(
                    pre.sample(input),
                    v,
                    pre.deadzone_digital(),
                    pre.activated_digital().contains(input),
                )
            } else {
                pre.activated_digital().contains(k)
            })
        &&& forall|k: T| #[trigger]
            post.deactivated_digital().contains(k) == (if k == input {
                deactivated_after_set(
                    pre.sample(input),
                    v,
                    pre.deadzone_digital(),
                    pre.deactivated_digital().contains(input),
                )
            } else {
                pre.deactivated_digital().contains(k)
            })
    }

    /// How the container state after `update` relates to the state before:
    /// the samples and thresholds are kept and all four transition sets
    /// are empty.
    pub open spec fn update_post(pre: Self, post: Self) -> bool {
        &&& post.values() == pre.values()
        &&& post.deadzone() == pre.deadzone()
        &&& post.deadzone_digital() == pre.deadzone_digital()
        &&& post.activated() == Set::<T>::empty()
        &&& post.deactivated() == Set::<T>::empty()
        &&& post.activated_digital() == Set::<T>::empty()
        &&& post.deactivated_digital() == Set::<T>::empty()
    }
}

impl<T> AnalogInput<T> where T: core::hash::Hash + Copy + Eq {
    /// Records a new sample for `input`, overwriting any previous value,
    /// and recomputes the transition-set membership of `input` against
    /// both thresholds.
    pub fn set(&mut self, input: T, value: AnalogInputValue)
        requires
            old(self).wf(),
        ensures
            final(self).wf(),
            Self::set_post(*old(self), *final(self), input, value@),
    {
        proof {
            use_type_invariant(&value);
            use_type_invariant(&self.deadzone);
            use_type_invariant(&self.deadzone_digital);
        }
        let old_value = self.inputs.insert(input, value);
        let v: i32 = value.to_fixed();
        let deadzone: i32 = self.deadzone.magnitude;
        let deadzone_digital: i32 = self.deadzone_digital.magnitude;
        let new_mag: i32 = if v < 0 {
            -v
        } else {
            v
        };

        match old_value {
            Some(old_value) => {
                proof {
                    use_type_invariant(&old_value);
                }
                let ov: i32 = old_value.to_fixed();
                let old_mag: i32 = if ov < 0 {
                    -ov
                } else {
                    ov
                };
                let flipped: bool = (v < 0) != (ov < 0);

                if new_mag < deadzone {
                    self.just_activated.remove(&input);
                    if old_mag >= deadzone {
                        self.just_deactivated.insert(input);
                    }
                } else {
                    self.just_deactivated.remove(&input);
                    // An analog input may completely pass through the
                    // deadzone between updates: both samples exceed the
                    // deadzone but with opposite signs, which still counts
                    // as a fresh activation edge.
                    if old_mag < deadzone || flipped {
                        self.just_activated.insert(input);
                    }
                }

                if new_mag < deadzone_digital {
                    self.just_activated_digital.remove(&input);
                    if old_mag >= deadzone_digital {
                        self.just_deactivated_digital.insert(input);
                    }
                } else {
                    self.just_deactivated_digital.remove(&input);
                    if old_mag < deadzone_digital || flipped {
                        self.just_activated_digital.insert(input);
                    }
                }
            },
            None => {
                if new_mag >= deadzone {
                    self.just_activated.insert(input);
                    self.just_deactivated.remove(&input);
                }
                if new_mag >= deadzone_digital {
                    self.just_activated_digital.insert(input);
                    self.just_deactivated_digital.remove(&input);
                }
            },
        }
        proof {
            assert(self.values() =~= old(self).values().insert(input, value@));
            assert forall|k: T| #[trigger] self.values().dom().contains(k) implies ANALOG_MIN
                as int <= self.values()[k] <= ANALOG_MAX as int by {
                if k != input {
                    assert(old(self).values().dom().contains(k));
                }
            }
            assert forall|k: T| #[trigger]
                self.activated().contains(k) implies !self.deactivated().contains(k) by {
                if k != input {
                    assert(old(self).activated().contains(k));
                }
            }
            assert forall|k: T| #[trigger]
                self.activated_digital().contains(k) implies !self.deactivated_digital().contains(
                k,
            ) by {
                if k != input {
                    assert(old(self).activated_digital().contains(k));
                }
            }
        }
    }

    /// Clears all four transition sets, starting a new tick. The recorded
    /// samples are untouched.
    pub fn update(&mut self)
        requires
            old(self).wf(),
        ensures
            final(self).wf(),
            Self::update_post(*old(self), *final(self)),
    {
        self.just_activated.clear();
        self.just_deactivated.clear();
        self.just_activated_digital.clear();
        self.just_deactivated_digital.clear();
    }
}

impl<T> Default for AnalogInput<T> {
    /// A fresh container: no recorded samples, empty transition sets, and
    /// the default deadzone thresholds.
    fn default() -> (r: Self)
        ensures
            r.values() == Map::<T, int>::empty(),
            r.activated() == Set::<T>::empty(),
            r.deactivated() == Set::<T>::empty(),
            r.activated_digital() == Set::<T>::empty(),
            r.deactivated_digital() == Set::<T>::empty(),
            r.deadzone() == DEFAULT_DEADZONE as int,
            r.deadzone_digital() == DEFAULT_DEADZONE_DIGITAL as int,
            vstd::std_specs::hash::obeys_key_model::<T>() ==> r.wf(),
    {
        let r = AnalogInput {
            inputs: std::collections::HashMap::new(),

            just_activated: std::collections::HashSet::new(),
            just_deactivated: std::collections::HashSet::new(),
            deadzone: Deadzone { magnitude: DEFAULT_DEADZONE },

            just_activated_digital: std::collections::HashSet::new(),
            just_deactivated_digital: std::collections::HashSet::new(),
            deadzone_digital: Deadzone { magnitude: DEFAULT_DEADZONE_DIGITAL },
        };
        proof {
            assert(r.values() =~= Map::<T, int>::empty());
        }
        r
    }
}

/// The reported values always lie within the analog range: `value` and
/// `value_digital` never report anything outside it, for any key.
pub proof fn lemma_reported_values_in_range<T>(a: AnalogInput<T>, k: T)
    requires
        a.wf(),
    ensures
        ANALOG_MIN as int <= a.value_spec(k) <= ANALOG_MAX as int,
        ANALOG_MIN as int <= a.value_digital_spec(k) <= ANALOG_MAX as int,
{
}

/// Calling `update` twice in a row with no intervening `set` leaves every
/// query result unchanged: the second call clears transition sets that are
/// already empty and touches nothing else.
pub proof fn lemma_update_idempotent<T>(s0: AnalogInput<T>, s1: AnalogInput<T>, s2: AnalogInput<T>)
    requires
        AnalogInput::update_post(s0, s1),
        AnalogInput::update_post(s1, s2),
    ensures
        forall|k: T| s1.value_spec(k) == s2.value_spec(k),
        forall|k: T| s1.value_digital_spec(k) == s2.value_digital_spec(k),
        s1.activated() == s2.activated(),
        s1.deactivated() == s2.deactivated(),
        s1.activated_digital() == s2.activated_digital(),
        s1.deactivated_digital() == s2.deactivated_digital(),
{
}

/// After `update`, all four transition queries are inactive for every key
/// until the next `set`.
pub proof fn lemma_update_clears_transitions<T>(pre: AnalogInput<T>, post: AnalogInput<T>, k: T)
    requires
        AnalogInput::update_post(pre, post),
    ensures
        !post.activated().contains(k),
        !post.deactivated().contains(k),
        !post.activated_digital().contains(k),
        !post.deactivated_digital().contains(k),
{
}

/// A key that has never been set reads as neutral: both the analog and the
/// digital value are zero.
pub proof fn lemma_unread_key_neutral<T>(a: AnalogInput<T>, k: T)
    requires
        !a.values().dom().contains(k),
    ensures
        a.value_spec(k) == 0,
        a.value_digital_spec(k) == 0,
{
}

/// Within one tick a key is never in both the activated and the
/// deactivated set of the same threshold pair.
pub proof fn lemma_transition_sets_exclusive<T>(a: AnalogInput<T>, k: T)
    requires
        a.wf(),
    ensures
        !(a.activated().contains(k) && a.deactivated().contains(k)),
        !(a.activated_digital().contains(k) && a.deactivated_digital().contains(k)),
{
}

} // verus!
