//! Application settings: the default install location and background refresh.
//!
//! Saved settings are normalised: the location is trimmed, the interval must lie
//! in `1..=1440` minutes, and the refresh targets are kept once each, in their
//! canonical order.
use vstd::prelude::*;

use crate::filesystem::WriteTextError;
use crate::text::{decimal, decimal_chars, string_from, string_of, trim, trimmed_chars};

verus! {

/// The persisted application settings.
#[derive(Debug, Clone, PartialEq, Eq)]
pub struct AppSettings {
    pub default_install_location: String,
    pub background_refresh: BackgroundRefreshSettings,
}

/// How often and what the user interface refreshes in the background.
#[derive(Debug, Clone, PartialEq, Eq)]
pub struct BackgroundRefreshSettings {
    pub interval_minutes: u16,
    pub targets: Vec<BackgroundRefreshTarget>,
}

/// A view the user interface can refresh in the background.
#[derive(Debug, Clone, Copy, PartialEq, Eq, Structural)]
pub enum BackgroundRefreshTarget {
    Distros,
    SystemOverviewStorage,
    WslVersion,
    OnlineDistros,
}

/// Saving settings failed.
#[derive(Debug, Clone, PartialEq, Eq)]
pub enum SettingsWriteError {
    EmptyDefaultInstallLocation,
    InvalidBackgroundRefreshInterval { value: u16 },
    EmptyBackgroundRefreshTargets,
    CreateDirectory { path: String, source: String },
    /// The settings could not be serialised; holds the rendered cause.
    Serialize(String),
    Write { path: String, source: String },
}

pub open spec fn default_refresh_interval() -> u16 {
    15
}

pub open spec fn min_refresh_interval() -> u16 {
    1
}

pub open spec fn max_refresh_interval() -> u16 {
    1440
}

/// The refresh targets in their canonical order.
pub open spec fn target_order() -> Seq<BackgroundRefreshTarget> {
    seq![
        BackgroundRefreshTarget::Distros,
        BackgroundRefreshTarget::SystemOverviewStorage,
        BackgroundRefreshTarget::WslVersion,
        BackgroundRefreshTarget::OnlineDistros,
    ]
}

/// The targets refreshed by default.
pub open spec fn default_targets() -> Seq<BackgroundRefreshTarget> {
    seq![
        BackgroundRefreshTarget::Distros,
        BackgroundRefreshTarget::SystemOverviewStorage,
        BackgroundRefreshTarget::WslVersion,
    ]
}

/// The members of `order` that `requested` holds, in the order of `order`, once each.
pub open spec fn keep_requested(
    order: Seq<BackgroundRefreshTarget>,
    requested: Seq<BackgroundRefreshTarget>,
) -> Seq<BackgroundRefreshTarget>
    decreases order.len(),
{
    if order.len() == 0 {
        Seq::empty()
    } else {
        let prev = keep_requested(order.drop_last(), requested);
        if requested.contains(order.last()) {
            prev.push(order.last())
        } else {
            prev
        }
    }
}

/// The requested targets in canonical order, once each.
pub open spec fn canonical_targets(requested: Seq<BackgroundRefreshTarget>) -> Seq<BackgroundRefreshTarget> {
    keep_requested(target_order(), requested)
}

/// The class of a settings validation failure.
pub enum SettingsRejection {
    EmptyLocation,
    InvalidInterval(u16),
    EmptyTargets,
}

/// Settings as plain values: location, interval and targets.
pub type SettingsValue = (Seq<char>, u16, Seq<BackgroundRefreshTarget>);

/// The normalised background refresh, or why it is refused.
pub open spec fn normalized_refresh(
    interval: u16,
    targets: Seq<BackgroundRefreshTarget>,
) -> Result<(u16, Seq<BackgroundRefreshTarget>), SettingsRejection> {
    if interval < min_refresh_interval() || interval > max_refresh_interval() {
        Err(SettingsRejection::InvalidInterval(interval))
    } else if canonical_targets(targets).len() == 0 {
        Err(SettingsRejection::EmptyTargets)
    } else {
        Ok((interval, canonical_targets(targets)))
    }
}

/// The normalised settings, or why they are refused.
pub open spec fn normalized_settings(s: SettingsValue) -> Result<SettingsValue, SettingsRejection> {
    if trim(s.0).len() == 0 {
        Err(SettingsRejection::EmptyLocation)
    } else {
        match normalized_refresh(s.1, s.2) {
            Ok(r) => Ok((trim(s.0), r.0, r.1)),
            Err(e) => Err(e),
        }
    }
}

impl AppSettings {
    pub open spec fn value(&self) -> SettingsValue {
        (self.default_install_location@, self.background_refresh.interval_minutes, self.background_refresh.targets@)
    }
}

/// The rejection a settings error reports, for validation errors.
pub open spec fn rejection_of(e: SettingsWriteError) -> Option<SettingsRejection> {
    match e {
        SettingsWriteError::EmptyDefaultInstallLocation => Some(SettingsRejection::EmptyLocation),
        SettingsWriteError::InvalidBackgroundRefreshInterval { value } => Some(SettingsRejection::InvalidInterval(value)),
        SettingsWriteError::EmptyBackgroundRefreshTargets => Some(SettingsRejection::EmptyTargets),
        _ => None,
    }
}

impl Default for BackgroundRefreshSettings {
    fn default() -> (r: BackgroundRefreshSettings)
        ensures
            r.interval_minutes == default_refresh_interval(),
            r.targets@ == default_targets(),
    {
        let mut targets: Vec<BackgroundRefreshTarget> = Vec::new();
        targets.push(BackgroundRefreshTarget::Distros);
        targets.push(BackgroundRefreshTarget::SystemOverviewStorage);
        targets.push(BackgroundRefreshTarget::WslVersion);
        assert(targets@ =~= default_targets());
        BackgroundRefreshSettings { interval_minutes: 15, targets }
    }
}

/// The settings used when none are saved, or the saved ones cannot be read.
pub fn default_app_settings(default_install_location: &str) -> (r: AppSettings)
    ensures
        r.default_install_location@ == default_install_location@,
        r.background_refresh.interval_minutes == default_refresh_interval(),
        r.background_refresh.targets@ == default_targets(),
{
    AppSettings {
        default_install_location: string_from(default_install_location),
        background_refresh: BackgroundRefreshSettings::default(),
    }
}

/// The refresh targets in their canonical order.
pub fn ordered_background_refresh_targets() -> (r: Vec<BackgroundRefreshTarget>)
    ensures
        r@ == target_order(),
{
    let mut r: Vec<BackgroundRefreshTarget> = Vec::new();
    r.push(BackgroundRefreshTarget::Distros);
    r.push(BackgroundRefreshTarget::SystemOverviewStorage);
    r.push(BackgroundRefreshTarget::WslVersion);
    r.push(BackgroundRefreshTarget::OnlineDistros);
    assert(r@ =~= target_order());
    r
}

/// Whether the target is among the given ones.
pub fn contains_target(targets: &Vec<BackgroundRefreshTarget>, target: BackgroundRefreshTarget) -> (b: bool)
    ensures
        b == targets@.contains(target),
{
    let mut i: usize = 0;
    while i < targets.len()
        invariant
            i <= targets.len(),
            forall|k: int| 0 <= k < i ==> targets@[k] != target,
        decreases targets.len() - i,
    {
        if targets[i] == target {
            assert(targets@[i as int] == target);
            return true;
        }
        i += 1;
    }
    false
}

/// Validates the interval and keeps the requested targets once each, in canonical order.
pub fn normalize_background_refresh(settings: BackgroundRefreshSettings) -> (r: Result<BackgroundRefreshSettings, SettingsWriteError>)
    ensures
        match r {
            Ok(s) => normalized_refresh(settings.interval_minutes, settings.targets@) == Ok::<(u16, Seq<BackgroundRefreshTarget>), SettingsRejection>((s.interval_minutes, s.targets@)),
            Err(e) => rejection_of(e) matches Some(j) && normalized_refresh(settings.interval_minutes, settings.targets@) == Err::<(u16, Seq<BackgroundRefreshTarget>), SettingsRejection>(j),
        },
{
    if settings.interval_minutes < 1 || settings.interval_minutes > 1440 {
        return Err(SettingsWriteError::InvalidBackgroundRefreshInterval { value: settings.interval_minutes });
    }
    let order = ordered_background_refresh_targets();
    let mut targets: Vec<BackgroundRefreshTarget> = Vec::new();
    let mut i: usize = 0;
    while i < order.len()
        invariant
            i <= order.len(),
            order@ == target_order(),
            targets@ == keep_requested(order@.take(i as int), settings.targets@),
        decreases order.len() - i,
    {
        assert(order@.take(i + 1).drop_last() =~= order@.take(i as int));
        assert(order@.take(i + 1).last() == order@[i as int]);
        if contains_target(&settings.targets, order[i]) {
            targets.push(order[i]);
        }
        i += 1;
    }
    assert(order@.take(order.len() as int) =~= order@);
    if targets.len() == 0 {
        return Err(SettingsWriteError::EmptyBackgroundRefreshTargets);
    }
    Ok(BackgroundRefreshSettings { interval_minutes: settings.interval_minutes, targets })
}

/// The settings as they are saved: the location trimmed and the refresh normalised.
pub fn normalize_app_settings(settings: AppSettings) -> (r: Result<AppSettings, SettingsWriteError>)
    ensures
        match r {
            Ok(s) => normalized_settings(settings.value()) == Ok::<SettingsValue, SettingsRejection>(s.value()),
            Err(e) => rejection_of(e) matches Some(j) && normalized_settings(settings.value()) == Err::<SettingsValue, SettingsRejection>(j),
        },
{
    let trimmed = trimmed_chars(settings.default_install_location.as_str());
    if trimmed.len() == 0 {
        return Err(SettingsWriteError::EmptyDefaultInstallLocation);
    }
    let background_refresh = normalize_background_refresh(settings.background_refresh)?;
    Ok(AppSettings { default_install_location: string_of(&trimmed), background_refresh })
}

impl SettingsWriteError {
    /// The message of the error.
    pub fn to_message(&self) -> (s: String)
        ensures
            s@ == settings_error_text(*self),
    {
        match self {
            SettingsWriteError::EmptyDefaultInstallLocation => string_from("Default install location cannot be empty."),
            SettingsWriteError::InvalidBackgroundRefreshInterval { value } => {
                let mut s = string_from("Background refresh interval must be between 1 and 1440 minutes, got ");
                let digits = decimal_chars(*value as u64);
                s.append(string_of(&digits).as_str());
                s.append(".");
                s
            },
            SettingsWriteError::EmptyBackgroundRefreshTargets => string_from("Background refresh targets cannot be empty."),
            SettingsWriteError::CreateDirectory { path, source } => {
                let mut s = string_from("failed to create settings directory ");
                s.append(path.as_str());
                s.append(": ");
                s.append(source.as_str());
                s
            },
            SettingsWriteError::Serialize(source) => {
                let mut s = string_from("failed to serialize settings: ");
                s.append(source.as_str());
                s
            },
            SettingsWriteError::Write { path, source } => {
                let mut s = string_from("failed to write settings file ");
                s.append(path.as_str());
                s.append(": ");
                s.append(source.as_str());
                s
            },
        }
    }
}

/// The message of a settings error.
pub open spec fn settings_error_text(e: SettingsWriteError) -> Seq<char> {
    match e {
        SettingsWriteError::EmptyDefaultInstallLocation => "Default install location cannot be empty."@,
        SettingsWriteError::InvalidBackgroundRefreshInterval { value } => "Background refresh interval must be between 1 and 1440 minutes, got "@ + decimal(value as nat) + "."@,
        SettingsWriteError::EmptyBackgroundRefreshTargets => "Background refresh targets cannot be empty."@,
        SettingsWriteError::CreateDirectory { path, source } => "failed to create settings directory "@ + path@ + ": "@ + source@,
        SettingsWriteError::Serialize(source) => "failed to serialize settings: "@ + source@,
        SettingsWriteError::Write { path, source } => "failed to write settings file "@ + path@ + ": "@ + source@,
    }
}

impl From<WriteTextError> for SettingsWriteError {
    fn from(error: WriteTextError) -> (r: SettingsWriteError) {
        match error {
            WriteTextError::CreateDirectory { path, source } => SettingsWriteError::CreateDirectory { path, source },
            WriteTextError::Write { path, source } => SettingsWriteError::Write { path, source },
        }
    }
}

impl vstd::std_specs::convert::FromSpecImpl<WriteTextError> for SettingsWriteError {
    open spec fn obeys_from_spec() -> bool {
        true
    }

    open spec fn from_spec(error: WriteTextError) -> SettingsWriteError {
        match error {
            WriteTextError::CreateDirectory { path, source } => SettingsWriteError::CreateDirectory { path, source },
            WriteTextError::Write { path, source } => SettingsWriteError::Write { path, source },
        }
    }
}

// ---------------------------------------------------------------------------
// Normalising saved settings again changes nothing
// ---------------------------------------------------------------------------
proof fn lemma_keep_requested_contains(
    order: Seq<BackgroundRefreshTarget>,
    requested: Seq<BackgroundRefreshTarget>,
    x: BackgroundRefreshTarget,
)
    ensures
        keep_requested(order, requested).contains(x) <==> (order.contains(x) && requested.contains(x)),
    decreases order.len(),
{
    if order.len() > 0 {
        lemma_keep_requested_contains(order.drop_last(), requested, x);
        let prev = keep_requested(order.drop_last(), requested);
        assert(order =~= order.drop_last().push(order.last()));
        if order.contains(x) && x != order.last() {
            let k = choose|k: int| 0 <= k < order.len() && order[k] == x;
            assert(order.drop_last()[k] == x);
        }
        if order.drop_last().contains(x) {
            let k = choose|k: int| 0 <= k < order.drop_last().len() && order.drop_last()[k] == x;
            assert(order[k] == x);
        }
        if requested.contains(order.last()) {
            assert(prev.push(order.last()).contains(x) <==> (prev.contains(x) || x == order.last())) by {
                if prev.push(order.last()).contains(x) && x != order.last() {
                    let k = choose|k: int| 0 <= k < prev.len() + 1 && prev.push(order.last())[k] == x;
                    assert(prev[k] == x);
                }
                if prev.contains(x) {
                    let k = choose|k: int| 0 <= k < prev.len() && prev[k] == x;
                    assert(prev.push(order.last())[k] == x);
                }
                assert(prev.push(order.last())[prev.len() as int] == order.last());
            }
        }
    }
}

proof fn lemma_keep_requested_stable(
    order: Seq<BackgroundRefreshTarget>,
    a: Seq<BackgroundRefreshTarget>,
    b: Seq<BackgroundRefreshTarget>,
)
    requires
        forall|x: BackgroundRefreshTarget| order.contains(x) ==> (a.contains(x) <==> b.contains(x)),
    ensures
        keep_requested(order, a) == keep_requested(order, b),
    decreases order.len(),
{
    if order.len() > 0 {
        assert forall|x: BackgroundRefreshTarget| order.drop_last().contains(x) implies (a.contains(x) <==> b.contains(x)) by {
            let k = choose|k: int| 0 <= k < order.drop_last().len() && order.drop_last()[k] == x;
            assert(order[k] == x);
        }
        lemma_keep_requested_stable(order.drop_last(), a, b);
        assert(order[order.len() - 1] == order.last());
    }
}

proof fn lemma_keep_requested_unique(order: Seq<BackgroundRefreshTarget>, requested: Seq<BackgroundRefreshTarget>)
    requires
        order.no_duplicates(),
    ensures
        keep_requested(order, requested).no_duplicates(),
    decreases order.len(),
{
    if order.len() > 0 {
        let init = order.drop_last();
        assert(init.no_duplicates()) by {
            assert forall|i: int, j: int| 0 <= i < init.len() && 0 <= j < init.len() && i != j implies init[i] != init[j] by {
                assert(init[i] == order[i] && init[j] == order[j]);
            }
        }
        lemma_keep_requested_unique(init, requested);
        let prev = keep_requested(init, requested);
        if requested.contains(order.last()) {
            lemma_keep_requested_contains(init, requested, order.last());
            if init.contains(order.last()) {
                let k = choose|k: int| 0 <= k < init.len() && init[k] == order.last();
                assert(order[k] == order[order.len() - 1]);
            }
            let next = prev.push(order.last());
            assert forall|i: int, j: int| 0 <= i < next.len() && 0 <= j < next.len() && i != j implies next[i] != next[j] by {
                if i < prev.len() && j < prev.len() {
                    assert(next[i] == prev[i] && next[j] == prev[j]);
                } else if i < prev.len() {
                    assert(next[i] == prev[i]);
                    assert(prev.contains(prev[i]));
                } else if j < prev.len() {
                    assert(next[j] == prev[j]);
                    assert(prev.contains(prev[j]));
                }
            }
        }
    }
}

/// The normalised refresh targets are exactly the requested ones, each once.
pub proof fn lemma_canonical_targets_exact(requested: Seq<BackgroundRefreshTarget>)
    ensures
        forall|x: BackgroundRefreshTarget| canonical_targets(requested).contains(x) <==> requested.contains(x),
        canonical_targets(requested).no_duplicates(),
{
    let order = target_order();
    assert forall|x: BackgroundRefreshTarget| canonical_targets(requested).contains(x) <==> requested.contains(x) by {
        lemma_keep_requested_contains(order, requested, x);
        match x {
            BackgroundRefreshTarget::Distros => assert(order[0] == x),
            BackgroundRefreshTarget::SystemOverviewStorage => assert(order[1] == x),
            BackgroundRefreshTarget::WslVersion => assert(order[2] == x),
            BackgroundRefreshTarget::OnlineDistros => assert(order[3] == x),
        }
    }
    assert(order.no_duplicates());
    lemma_keep_requested_unique(order, requested);
}

/// Normalising settings that were already normalised gives them back unchanged.
pub proof fn lemma_normalize_idempotent(s: SettingsValue)
    requires
        normalized_settings(s) is Ok,
    ensures
        normalized_settings(normalized_settings(s)->Ok_0) == normalized_settings(s),
{
    let n = normalized_settings(s)->Ok_0;
    crate::text::lemma_trim_idempotent(s.0);
    let k = canonical_targets(s.2);
    assert forall|x: BackgroundRefreshTarget| target_order().contains(x) implies (k.contains(x) <==> s.2.contains(x)) by {
        lemma_keep_requested_contains(target_order(), s.2, x);
    }
    lemma_keep_requested_stable(target_order(), k, s.2);
}

/// The settings rules: a blank install location is refused first; then an
/// interval outside 1 to 1440 minutes is refused with its value; then an empty
/// target list is refused; otherwise the location is saved trimmed, the interval
/// as given, and the requested targets each once.
pub proof fn lemma_settings_rules(location: Seq<char>, interval: u16, targets: Seq<BackgroundRefreshTarget>)
    ensures
        trim(location).len() == 0 ==> normalized_settings((location, interval, targets)) == Err::<
            SettingsValue,
            SettingsRejection,
        >(SettingsRejection::EmptyLocation),
        trim(location).len() > 0 && (interval < 1 || interval > 1440) ==> normalized_settings(
            (location, interval, targets),
        ) == Err::<SettingsValue, SettingsRejection>(SettingsRejection::InvalidInterval(interval)),
        trim(location).len() > 0 && 1 <= interval <= 1440 && targets.len() == 0 ==> normalized_settings(
            (location, interval, targets),
        ) == Err::<SettingsValue, SettingsRejection>(SettingsRejection::EmptyTargets),
        trim(location).len() > 0 && 1 <= interval <= 1440 && targets.len() > 0 ==> (normalized_settings(
            (location, interval, targets),
        ) matches Ok((l, i, t)) && l == trim(location) && i == interval && t.no_duplicates() && (forall|
            x: BackgroundRefreshTarget,
        | t.contains(x) <==> targets.contains(x))),
{
    lemma_canonical_targets_exact(targets);
    let c = canonical_targets(targets);
    if targets.len() == 0 {
        if c.len() > 0 {
            assert(c.contains(c[0]));
            assert(targets.contains(c[0]));
            assert(false);
        }
    } else {
        assert(targets.contains(targets[0]));
        assert(c.contains(targets[0]));
    }
}

} // verus!
