//! Burst-click profiles and the limits a stored profile must respect.

use vstd::prelude::*;
use crate::key_id::KeyId;

verus! {

/// The profile layout this version writes.
pub const CURRENT_SCHEMA_VERSION: u32 = 1;

/// Shortest interval between two bursts, in milliseconds.
pub const MIN_INTERVAL_MS: u32 = 1;

/// Longest interval between two bursts, in milliseconds.
pub const MAX_INTERVAL_MS: u32 = 60000;

/// Most rules a profile holds.
pub const MAX_RULES: usize = 64;

/// How a rule fires its target.
#[derive(Debug, Clone, Copy, PartialEq, Eq, Structural)]
pub enum BurstMode {
    /// Fires while the trigger is held.
    Hold,
    /// The trigger switches firing on and off.
    Toggle,
}

/// One burst rule: pressing `trigger_key` fires `target_key` every
/// `interval_ms` milliseconds.
pub struct BurstRule {
    pub id: String,
    pub enabled: bool,
    pub trigger_key: KeyId,
    pub target_key: KeyId,
    pub mode: BurstMode,
    pub stop_key: Option<KeyId>,
    pub interval_ms: u32,
    pub group: Option<String>,
}

/// Descriptive data of a profile.
pub struct ProfileMeta {
    pub name: String,
    pub created_at: u64,
    pub updated_at: u64,
    pub app_version: String,
}

/// Global hotkeys of a profile.
pub struct Hotkeys {}

/// Advanced settings of a profile.
pub struct Advanced {}

impl Default for Hotkeys {
    fn default() -> (r: Hotkeys)
        ensures
            r == (Hotkeys {}),
    {
        Hotkeys {}
    }
}

impl Default for Advanced {
    fn default() -> (r: Advanced)
        ensures
            r == (Advanced {}),
    {
        Advanced {}
    }
}

/// A stored set of burst rules.
pub struct Profile {
    pub schema_version: u32,
    pub meta: ProfileMeta,
    pub rules: Vec<BurstRule>,
    pub hotkeys: Hotkeys,
    pub advanced: Advanced,
}

/// Why a profile is refused.
#[derive(Debug, Clone, Copy, PartialEq, Eq, Structural)]
pub enum ProfileError {
    /// More than [`MAX_RULES`] rules.
    TooManyRules,
    /// A rule's interval lies outside
    /// [`MIN_INTERVAL_MS`]`..=`[`MAX_INTERVAL_MS`]; holds that interval.
    InvalidInterval(u32),
    /// With the DD driver, a toggle rule whose target is also its trigger
    /// or its stop key: the driver cannot tell its own key presses apart.
    ToggleTargetOverlap,
}

/// An interval a rule may use.
pub open spec fn interval_ok(ms: u32) -> bool {
    MIN_INTERVAL_MS <= ms && ms <= MAX_INTERVAL_MS
}

/// The interval of the first rule whose interval is out of bounds.
pub open spec fn first_bad_interval(rules: Seq<BurstRule>) -> Option<u32>
    decreases rules.len(),
{
    if rules.len() == 0 {
        None
    } else if !interval_ok(rules[0].interval_ms) {
        Some(rules[0].interval_ms)
    } else {
        first_bad_interval(rules.drop_first())
    }
}

/// The verdict on a profile: too many rules first, then the first rule
/// with an interval out of bounds.
pub open spec fn validate_spec(p: &Profile) -> Result<(), ProfileError> {
    if p.rules@.len() > MAX_RULES {
        Err(ProfileError::TooManyRules)
    } else {
        match first_bad_interval(p.rules@) {
            Some(ms) => Err(ProfileError::InvalidInterval(ms)),
            None => Ok(()),
        }
    }
}

/// A toggle rule whose target is also its trigger or its stop key.
pub open spec fn toggle_overlaps(r: BurstRule) -> bool {
    &&& r.mode == BurstMode::Toggle
    &&& (r.target_key == r.trigger_key || r.stop_key == Some(r.target_key))
}

/// The first fault among the rules, in order: an interval out of bounds,
/// or, when targets must be distinct, a toggle rule that overlaps.
pub open spec fn first_rule_error(rules: Seq<BurstRule>, distinct_target: bool) -> Option<ProfileError>
    decreases rules.len(),
{
    if rules.len() == 0 {
        None
    } else if !interval_ok(rules[0].interval_ms) {
        Some(ProfileError::InvalidInterval(rules[0].interval_ms))
    } else if distinct_target && toggle_overlaps(rules[0]) {
        Some(ProfileError::ToggleTargetOverlap)
    } else {
        first_rule_error(rules.drop_first(), distinct_target)
    }
}

/// The verdict on a profile when `distinct_target` (the DD driver's input
/// mode) may or may not be in force: too many rules first, then the first
/// faulty rule.
pub open spec fn validate_with_spec(p: &Profile, distinct_target: bool) -> Result<(), ProfileError> {
    if p.rules@.len() > MAX_RULES {
        Err(ProfileError::TooManyRules)
    } else {
        match first_rule_error(p.rules@, distinct_target) {
            Some(e) => Err(e),
            None => Ok(()),
        }
    }
}

fn overlaps(r: &BurstRule) -> (b: bool)
    ensures
        b == toggle_overlaps(*r),
{
    let toggle = match r.mode {
        BurstMode::Toggle => true,
        BurstMode::Hold => false,
    };
    let on_stop = match r.stop_key {
        Some(k) => k == r.target_key,
        None => false,
    };
    toggle && (r.target_key == r.trigger_key || on_stop)
}

impl Profile {
    /// Checks the limits of a profile; with `distinct_target`, as the DD
    /// driver needs, a toggle rule's target may not be its trigger or stop
    /// key either.
    pub fn validate_with(&self, distinct_target: bool) -> (r: Result<(), ProfileError>)
        ensures
            r == validate_with_spec(self, distinct_target),
    {
        if self.rules.len() > MAX_RULES {
            return Err(ProfileError::TooManyRules);
        }
        let mut i: usize = 0;
        assert(self.rules@.skip(0) =~= self.rules@);
        while i < self.rules.len()
            invariant
                i <= self.rules.len(),
                self.rules.len() <= MAX_RULES,
                first_rule_error(self.rules@, distinct_target) == first_rule_error(
                    self.rules@.skip(i as int),
                    distinct_target,
                ),
            decreases self.rules.len() - i,
        {
            assert(self.rules@.skip(i as int).drop_first() =~= self.rules@.skip(i + 1));
            let rule = &self.rules[i];
            assert(self.rules@.skip(i as int)[0] == self.rules@[i as int]);
            let ms = rule.interval_ms;
            if ms < MIN_INTERVAL_MS || ms > MAX_INTERVAL_MS {
                return Err(ProfileError::InvalidInterval(ms));
            }
            if distinct_target && overlaps(rule) {
                return Err(ProfileError::ToggleTargetOverlap);
            }
            i = i + 1;
        }
        Ok(())
    }

    /// Checks the limits of a profile outside the DD driver's mode.
    pub fn validate(&self) -> (r: Result<(), ProfileError>)
        ensures
            r == validate_spec(self),
    {
        proof {
            lemma_first_rule_error_lenient(self.rules@);
        }
        self.validate_with(false)
    }
}

proof fn lemma_first_rule_error_lenient(rules: Seq<BurstRule>)
    ensures
        first_rule_error(rules, false) == match first_bad_interval(rules) {
            Some(ms) => Some(ProfileError::InvalidInterval(ms)),
            None => None::<ProfileError>,
        },
    decreases rules.len(),
{
    if rules.len() > 0 {
        lemma_first_rule_error_lenient(rules.drop_first());
    }
}

proof fn lemma_first_rule_error_none(rules: Seq<BurstRule>, distinct_target: bool)
    ensures
        first_rule_error(rules, distinct_target) is None ==> forall|i: int|
            0 <= i < rules.len() ==> interval_ok(#[trigger] rules[i].interval_ms) && !(
            distinct_target && toggle_overlaps(rules[i])),
    decreases rules.len(),
{
    if rules.len() > 0 {
        lemma_first_rule_error_none(rules.drop_first(), distinct_target);
        if first_rule_error(rules, distinct_target) is None {
            assert forall|i: int| 0 < i < rules.len() implies #[trigger] rules[i] == rules.drop_first()[i
                - 1] by {}
        }
    }
}

/// With the DD driver, an accepted profile has no toggle rule whose target
/// is its own trigger or stop key, and all its intervals are in bounds.
pub proof fn dd_mode_rejects_overlapping_toggles(p: &Profile)
    ensures
        validate_with_spec(p, true) is Ok ==> forall|i: int|
            0 <= i < p.rules@.len() ==> !toggle_overlaps(#[trigger] p.rules@[i]) && interval_ok(
                p.rules@[i].interval_ms,
            ),
{
    lemma_first_rule_error_none(p.rules@, true);
}

/// Outside the DD driver's mode the verdict is that of [`validate_spec`].
pub proof fn lenient_mode_is_plain_validation(p: &Profile)
    ensures
        validate_with_spec(p, false) == validate_spec(p),
{
    lemma_first_rule_error_lenient(p.rules@);
}

proof fn lemma_first_bad_interval(rules: Seq<BurstRule>)
    ensures
        first_bad_interval(rules) is None <==> forall|i: int|
            0 <= i < rules.len() ==> interval_ok(#[trigger] rules[i].interval_ms),
        first_bad_interval(rules) matches Some(ms) ==> !interval_ok(ms),
    decreases rules.len(),
{
    if rules.len() > 0 {
        lemma_first_bad_interval(rules.drop_first());
        if interval_ok(rules[0].interval_ms) {
            assert forall|i: int| 0 < i < rules.len() implies #[trigger] rules[i].interval_ms
                == rules.drop_first()[i - 1].interval_ms by {}
        }
    }
}

/// A profile is accepted exactly when it has at most [`MAX_RULES`] rules
/// and every interval lies within bounds; a reported interval is out of
/// bounds.
pub proof fn validate_accepts_exactly_bounded_profiles(p: &Profile)
    ensures
        validate_spec(p) is Ok <==> (p.rules@.len() <= MAX_RULES && forall|i: int|
            0 <= i < p.rules@.len() ==> interval_ok(#[trigger] p.rules@[i].interval_ms)),
        validate_spec(p) matches Err(ProfileError::InvalidInterval(ms)) ==> !interval_ok(ms),
{
    lemma_first_bad_interval(p.rules@);
}

proof fn lemma_first_bad_same_intervals(a: Seq<BurstRule>, b: Seq<BurstRule>)
    requires
        a.len() == b.len(),
        forall|i: int| 0 <= i < a.len() ==> #[trigger] a[i].interval_ms == b[i].interval_ms,
    ensures
        first_bad_interval(a) == first_bad_interval(b),
    decreases a.len(),
{
    if a.len() > 0 {
        assert forall|i: int| 0 <= i < a.len() - 1 implies #[trigger] a.drop_first()[i].interval_ms
            == b.drop_first()[i].interval_ms by {
            assert(a[i + 1].interval_ms == b[i + 1].interval_ms);
        }
        lemma_first_bad_same_intervals(a.drop_first(), b.drop_first());
    }
}

/// Outside the DD driver's mode the verdict reads only the number of rules
/// and their intervals: keys, modes (a toggle whose target is its own
/// trigger too), names and groups never make a profile invalid.
pub proof fn validate_reads_only_intervals(p: &Profile, q: &Profile)
    requires
        p.rules@.len() == q.rules@.len(),
        forall|i: int|
            0 <= i < p.rules@.len() ==> #[trigger] p.rules@[i].interval_ms == q.rules@[i].interval_ms,
    ensures
        validate_spec(p) == validate_spec(q),
{
    lemma_first_bad_same_intervals(p.rules@, q.rules@);
}

} // verus!
