//! Metadata of the distros Microsoft publishes, and the freshness of its cache.
//!
//! Modern entries come first; a legacy entry is dropped when a modern entry has
//! the same name, ignoring ASCII case. Blank download URLs count as missing.
use vstd::prelude::*;

use crate::aggregation::{key_chars, key_views, name_key};
use crate::command_error::{non_empty_text, opt_view};
use crate::filesystem::WriteTextError;
use crate::text::{ascii_lower, chars_eq, string_from, string_of, trim, trimmed_chars};

verus! {

/// Metadata of an installable distro.
#[derive(Debug, Clone, PartialEq, Eq)]
pub struct DistroMetadata {
    pub name: String,
    pub friendly_name: String,
    pub amd64_url: Option<String>,
    pub arm64_url: Option<String>,
    pub modern: bool,
}

/// When the published metadata was last downloaded, and from where.
#[derive(Debug, Clone, PartialEq, Eq)]
pub struct DistroMetadataCache {
    pub source_url: String,
    pub last_success_at_ms: u64,
}

/// A modern distribution entry of the published file.
#[derive(Debug, Clone, PartialEq, Eq)]
pub struct ModernDistribution {
    pub name: String,
    pub friendly_name: String,
    pub amd64_url: Option<ArchitectureDownload>,
    pub arm64_url: Option<ArchitectureDownload>,
}

/// The download of one architecture.
#[derive(Debug, Clone, PartialEq, Eq)]
pub struct ArchitectureDownload {
    pub url: Option<String>,
}

/// A legacy distribution entry of the published file.
#[derive(Debug, Clone, PartialEq, Eq)]
pub struct LegacyDistribution {
    pub name: String,
    pub friendly_name: String,
    pub amd64_package_url: Option<String>,
    pub arm64_package_url: Option<String>,
}

/// `DistroMetadata` with its text as character sequences.
pub struct DistroMetadataView {
    pub name: Seq<char>,
    pub friendly_name: Seq<char>,
    pub amd64_url: Option<Seq<char>>,
    pub arm64_url: Option<Seq<char>>,
    pub modern: bool,
}

impl View for DistroMetadata {
    type V = DistroMetadataView;

    open spec fn view(&self) -> DistroMetadataView {
        DistroMetadataView {
            name: self.name@,
            friendly_name: self.friendly_name@,
            amd64_url: opt_view(self.amd64_url),
            arm64_url: opt_view(self.arm64_url),
            modern: self.modern,
        }
    }
}

/// A download URL, or `None` when it is missing or blank.
pub open spec fn optional_url(url: Option<String>) -> Option<Seq<char>> {
    match url {
        Some(u) => non_empty_text(u@),
        None => None,
    }
}

/// The URL of an architecture download, or `None` when it is missing or blank.
pub open spec fn download_url(d: Option<ArchitectureDownload>) -> Option<Seq<char>> {
    match d {
        Some(a) => optional_url(a.url),
        None => None,
    }
}

pub open spec fn modern_metadata(m: ModernDistribution) -> DistroMetadataView {
    DistroMetadataView {
        name: m.name@,
        friendly_name: m.friendly_name@,
        amd64_url: download_url(m.amd64_url),
        arm64_url: download_url(m.arm64_url),
        modern: true,
    }
}

pub open spec fn legacy_metadata(l: LegacyDistribution) -> DistroMetadataView {
    DistroMetadataView {
        name: l.name@,
        friendly_name: l.friendly_name@,
        amd64_url: optional_url(l.amd64_package_url),
        arm64_url: optional_url(l.arm64_package_url),
        modern: false,
    }
}

/// Some modern entry has the name key `k`.
pub open spec fn modern_has_key(modern: Seq<ModernDistribution>, k: Seq<char>) -> bool {
    exists|i: int| 0 <= i < modern.len() && name_key(modern[i].name@) == k
}

/// The legacy entries without a modern counterpart, in order, among the first `n`.
pub open spec fn legacy_kept(
    modern: Seq<ModernDistribution>,
    legacy: Seq<LegacyDistribution>,
    n: int,
) -> Seq<DistroMetadataView>
    decreases n,
{
    if n <= 0 {
        Seq::empty()
    } else {
        let prev = legacy_kept(modern, legacy, n - 1);
        if modern_has_key(modern, name_key(legacy[n - 1].name@)) {
            prev
        } else {
            prev.push(legacy_metadata(legacy[n - 1]))
        }
    }
}

/// The metadata of the published file: modern entries, then legacy ones without a
/// modern counterpart.
pub open spec fn published_metadata(
    modern: Seq<ModernDistribution>,
    legacy: Seq<LegacyDistribution>,
) -> Seq<DistroMetadataView> {
    modern.map_values(|m: ModernDistribution| modern_metadata(m)) + legacy_kept(
        modern,
        legacy,
        legacy.len() as int,
    )
}

pub open spec fn metadata_views(v: Seq<DistroMetadata>) -> Seq<DistroMetadataView> {
    v.map_values(|m: DistroMetadata| m@)
}

/// A download URL, or `None` when it is blank.
pub fn normalize_optional_string(value: &str) -> (r: Option<String>)
    ensures
        opt_view(r) == non_empty_text(value@),
{
    let trimmed = trimmed_chars(value);
    if trimmed.len() == 0 {
        None
    } else {
        Some(string_of(&trimmed))
    }
}

fn optional_url_of(url: &Option<String>) -> (r: Option<String>)
    ensures
        opt_view(r) == optional_url(*url),
{
    match url {
        Some(u) => normalize_optional_string(u.as_str()),
        None => None,
    }
}

fn download_url_of(d: &Option<ArchitectureDownload>) -> (r: Option<String>)
    ensures
        opt_view(r) == download_url(*d),
{
    match d {
        Some(a) => optional_url_of(&a.url),
        None => None,
    }
}

/// The metadata of a modern entry.
pub fn map_modern_distribution(value: &ModernDistribution) -> (r: DistroMetadata)
    ensures
        r@ == modern_metadata(*value),
        r.name@ == value.name@,
        r.friendly_name@ == value.friendly_name@,
        r.modern,
        opt_view(r.amd64_url) == match value.amd64_url {
            Some(a) => match a.url {
                Some(u) => if trim(u@).len() == 0 {
                    None
                } else {
                    Some(trim(u@))
                },
                None => None,
            },
            None => None,
        },
        opt_view(r.arm64_url) == match value.arm64_url {
            Some(a) => match a.url {
                Some(u) => if trim(u@).len() == 0 {
                    None
                } else {
                    Some(trim(u@))
                },
                None => None,
            },
            None => None,
        },
{
    DistroMetadata {
        name: value.name.clone(),
        friendly_name: value.friendly_name.clone(),
        amd64_url: download_url_of(&value.amd64_url),
        arm64_url: download_url_of(&value.arm64_url),
        modern: true,
    }
}

/// The metadata of a legacy entry.
pub fn map_legacy_distribution(value: &LegacyDistribution) -> (r: DistroMetadata)
    ensures
        r@ == legacy_metadata(*value),
        r.name@ == value.name@,
        r.friendly_name@ == value.friendly_name@,
        !r.modern,
        opt_view(r.amd64_url) == match value.amd64_package_url {
            Some(u) => if trim(u@).len() == 0 {
                None
            } else {
                Some(trim(u@))
            },
            None => None,
        },
        opt_view(r.arm64_url) == match value.arm64_package_url {
            Some(u) => if trim(u@).len() == 0 {
                None
            } else {
                Some(trim(u@))
            },
            None => None,
        },
{
    DistroMetadata {
        name: value.name.clone(),
        friendly_name: value.friendly_name.clone(),
        amd64_url: optional_url_of(&value.amd64_package_url),
        arm64_url: optional_url_of(&value.arm64_package_url),
        modern: false,
    }
}

/// The key under which modern and legacy names are matched.
pub fn normalize_distro_name_key(value: &String) -> (r: Vec<char>)
    ensures
        r@ == name_key(value@),
{
    key_chars(value)
}

/// The metadata of the published file (see the module documentation).
pub fn collect_distribution_metadata(
    modern: &Vec<ModernDistribution>,
    legacy: &Vec<LegacyDistribution>,
) -> (r: Vec<DistroMetadata>)
    ensures
        metadata_views(r@) == published_metadata(modern@, legacy@),
{
    let mut entries: Vec<DistroMetadata> = Vec::new();
    let mut modern_names: Vec<Vec<char>> = Vec::new();
    let mut i: usize = 0;
    while i < modern.len()
        invariant
            i <= modern.len(),
            entries.len() == i,
            modern_names.len() == i,
            forall|k: int| 0 <= k < i ==> #[trigger] entries@[k]@ == modern_metadata(modern@[k]),
            forall|k: int| 0 <= k < i ==> #[trigger] modern_names@[k]@ == name_key(modern@[k].name@),
        decreases modern.len() - i,
    {
        entries.push(map_modern_distribution(&modern[i]));
        modern_names.push(normalize_distro_name_key(&modern[i].name));
        i += 1;
    }
    let ghost head = entries@;
    assert(metadata_views(head) =~= modern@.map_values(|m: ModernDistribution| modern_metadata(m)));
    let mut j: usize = 0;
    while j < legacy.len()
        invariant
            j <= legacy.len(),
            modern_names.len() == modern.len(),
            forall|k: int| 0 <= k < modern.len() ==> #[trigger] modern_names@[k]@ == name_key(modern@[k].name@),
            metadata_views(head) == modern@.map_values(|m: ModernDistribution| modern_metadata(m)),
            metadata_views(entries@) == metadata_views(head) + legacy_kept(modern@, legacy@, j as int),
        decreases legacy.len() - j,
    {
        let key = normalize_distro_name_key(&legacy[j].name);
        let mut found = false;
        let mut m: usize = 0;
        while m < modern_names.len()
            invariant
                m <= modern_names.len() == modern.len(),
                forall|k: int| 0 <= k < modern.len() ==> #[trigger] modern_names@[k]@ == name_key(modern@[k].name@),
                found == (exists|k: int| 0 <= k < m && name_key(modern@[k].name@) == key@),
            decreases modern_names.len() - m,
        {
            if chars_eq(&modern_names[m], &key) {
                found = true;
            }
            m += 1;
        }
        let ghost before = entries@;
        if !found {
            entries.push(map_legacy_distribution(&legacy[j]));
            assert(metadata_views(entries@) =~= metadata_views(before).push(legacy_metadata(legacy@[j as int])));
        }
        assert(metadata_views(entries@) =~= metadata_views(head) + legacy_kept(modern@, legacy@, j + 1));
        j += 1;
    }
    entries
}

proof fn lemma_legacy_kept_members(modern: Seq<ModernDistribution>, legacy: Seq<LegacyDistribution>, n: int)
    requires
        0 <= n <= legacy.len(),
    ensures
        forall|k: int|
            0 <= k < legacy_kept(modern, legacy, n).len() ==> exists|j: int|
                0 <= j < n && #[trigger] legacy_kept(modern, legacy, n)[k] == legacy_metadata(legacy[j])
                    && !modern_has_key(modern, name_key(legacy[j].name@)),
        forall|j: int|
            0 <= j < n && !modern_has_key(modern, name_key(legacy[j].name@)) ==> legacy_kept(modern, legacy, n).contains(
                legacy_metadata(#[trigger] legacy[j]),
            ),
    decreases n,
{
    if n > 0 {
        lemma_legacy_kept_members(modern, legacy, n - 1);
        let prev = legacy_kept(modern, legacy, n - 1);
        let cur = legacy_kept(modern, legacy, n);
        if !modern_has_key(modern, name_key(legacy[n - 1].name@)) {
            assert(cur == prev.push(legacy_metadata(legacy[n - 1])));
            assert forall|k: int| 0 <= k < cur.len() implies exists|j: int|
                0 <= j < n && #[trigger] cur[k] == legacy_metadata(legacy[j]) && !modern_has_key(
                    modern,
                    name_key(legacy[j].name@),
                ) by {
                if k < prev.len() {
                    assert(cur[k] == prev[k]);
                    let j = choose|j: int|
                        0 <= j < n - 1 && #[trigger] prev[k] == legacy_metadata(legacy[j]) && !modern_has_key(
                            modern,
                            name_key(legacy[j].name@),
                        );
                    assert(0 <= j < n && cur[k] == legacy_metadata(legacy[j]));
                } else {
                    assert(cur[k] == legacy_metadata(legacy[n - 1]));
                }
            }
            assert forall|j: int| 0 <= j < n && !modern_has_key(modern, name_key(legacy[j].name@)) implies cur.contains(
                legacy_metadata(#[trigger] legacy[j]),
            ) by {
                if j < n - 1 {
                    assert(prev.contains(legacy_metadata(legacy[j])));
                    let w = choose|w: int| 0 <= w < prev.len() && prev[w] == legacy_metadata(legacy[j]);
                    assert(cur[w] == prev[w]);
                } else {
                    assert(cur[prev.len() as int] == legacy_metadata(legacy[j]));
                }
            }
        } else {
            assert forall|j: int| 0 <= j < n && !modern_has_key(modern, name_key(legacy[j].name@)) implies cur.contains(
                legacy_metadata(#[trigger] legacy[j]),
            ) by {
                if j == n - 1 {
                    assert(false);
                }
            }
        }
    }
}

/// The published metadata lists every modern distribution first, in order, each
/// with its own name and friendly name and marked modern; after them come legacy
/// distributions, each with its own name and friendly name, marked not modern,
/// whose name matches no modern name ignoring ASCII case; and every legacy
/// distribution whose name matches no modern name ignoring ASCII case is listed.
pub proof fn lemma_published_metadata_entries(modern: Seq<ModernDistribution>, legacy: Seq<LegacyDistribution>)
    ensures
        published_metadata(modern, legacy).len() >= modern.len(),
        forall|i: int|
            0 <= i < modern.len() ==> (#[trigger] published_metadata(modern, legacy)[i]).name == modern[i].name@
                && published_metadata(modern, legacy)[i].friendly_name == modern[i].friendly_name@
                && published_metadata(modern, legacy)[i].modern,
        forall|k: int|
            modern.len() <= k < published_metadata(modern, legacy).len() ==> exists|j: int|
                0 <= j < legacy.len() && (#[trigger] published_metadata(modern, legacy)[k]).name == legacy[j].name@
                    && published_metadata(modern, legacy)[k].friendly_name == legacy[j].friendly_name@
                    && !published_metadata(modern, legacy)[k].modern && (forall|i: int|
                    0 <= i < modern.len() ==> ascii_lower(#[trigger] modern[i].name@) != ascii_lower(legacy[j].name@)),
        forall|j: int|
            #![trigger legacy[j]]
            0 <= j < legacy.len() && (forall|i: int|
                0 <= i < modern.len() ==> ascii_lower(#[trigger] modern[i].name@) != ascii_lower(legacy[j].name@))
                ==> exists|k: int|
                modern.len() <= k < published_metadata(modern, legacy).len() && (#[trigger] published_metadata(
                    modern,
                    legacy,
                )[k]).name == legacy[j].name@ && published_metadata(modern, legacy)[k].friendly_name
                    == legacy[j].friendly_name@ && !published_metadata(modern, legacy)[k].modern,
{
    let p = published_metadata(modern, legacy);
    let head = modern.map_values(|m: ModernDistribution| modern_metadata(m));
    let tail = legacy_kept(modern, legacy, legacy.len() as int);
    lemma_legacy_kept_members(modern, legacy, legacy.len() as int);
    assert forall|i: int| 0 <= i < modern.len() implies (#[trigger] p[i]).name == modern[i].name@
        && p[i].friendly_name == modern[i].friendly_name@ && p[i].modern by {
        assert(p[i] == head[i]);
    }
    assert forall|k: int| modern.len() <= k < p.len() implies exists|j: int|
        0 <= j < legacy.len() && (#[trigger] p[k]).name == legacy[j].name@ && p[k].friendly_name
            == legacy[j].friendly_name@ && !p[k].modern && (forall|i: int|
            0 <= i < modern.len() ==> ascii_lower(#[trigger] modern[i].name@) != ascii_lower(legacy[j].name@)) by {
        let t = k - modern.len();
        assert(p[k] == tail[t]);
        let j = choose|j: int|
            0 <= j < legacy.len() && #[trigger] tail[t] == legacy_metadata(legacy[j]) && !modern_has_key(
                modern,
                name_key(legacy[j].name@),
            );
        assert forall|i: int| 0 <= i < modern.len() implies ascii_lower(#[trigger] modern[i].name@) != ascii_lower(
            legacy[j].name@,
        ) by {
            if ascii_lower(modern[i].name@) == ascii_lower(legacy[j].name@) {
                assert(name_key(modern[i].name@) == name_key(legacy[j].name@));
            }
        }
    }
    assert forall|j: int|
        #![trigger legacy[j]]
        0 <= j < legacy.len() && (forall|i: int|
            0 <= i < modern.len() ==> ascii_lower(#[trigger] modern[i].name@) != ascii_lower(legacy[j].name@))
            implies exists|k: int|
            modern.len() <= k < p.len() && (#[trigger] p[k]).name == legacy[j].name@ && p[k].friendly_name
                == legacy[j].friendly_name@ && !p[k].modern by {
        if modern_has_key(modern, name_key(legacy[j].name@)) {
            let i = choose|i: int| 0 <= i < modern.len() && name_key(modern[i].name@) == name_key(legacy[j].name@);
            assert(ascii_lower(modern[i].name@) == ascii_lower(legacy[j].name@));
        }
        assert(tail.contains(legacy_metadata(legacy[j])));
        let w = choose|w: int| 0 <= w < tail.len() && tail[w] == legacy_metadata(legacy[j]);
        assert(p[modern.len() + w] == tail[w]);
    }
}

/// The address the published metadata is downloaded from.
pub open spec fn distribution_info_url_text() -> Seq<char> {
    "https://raw.githubusercontent.com/microsoft/WSL/master/distributions/DistributionInfo.json"@
}

/// The address the published metadata is downloaded from.
pub fn distribution_info_url() -> (s: &'static str)
    ensures
        s@ == distribution_info_url_text(),
{
    "https://raw.githubusercontent.com/microsoft/WSL/master/distributions/DistributionInfo.json"
}

/// How long downloaded metadata stays fresh: 24 hours, in milliseconds.
pub open spec fn refresh_interval_ms() -> int {
    86_400_000
}

/// The cache is fresh: it comes from the published address and was written less
/// than the refresh interval ago (a clock that went back counts as no time passed).
pub open spec fn cache_is_fresh(cache: Option<DistroMetadataCache>, now_ms: u64) -> bool {
    match cache {
        Some(c) => c.source_url@ == distribution_info_url_text() && (if now_ms >= c.last_success_at_ms {
            now_ms - c.last_success_at_ms
        } else {
            0
        }) < refresh_interval_ms(),
        None => false,
    }
}

/// Whether the cached metadata is fresh enough to skip a download; `None` stands
/// for a cache manifest that is missing or cannot be read.
pub fn is_cache_fresh(cache: &Option<DistroMetadataCache>, now_ms: u64) -> (b: bool)
    ensures
        b == cache_is_fresh(*cache, now_ms),
{
    match cache {
        Some(c) => {
            let same_source = crate::text::str_eq(c.source_url.as_str(), distribution_info_url());
            let elapsed = now_ms.saturating_sub(c.last_success_at_ms);
            same_source && elapsed < 86_400_000
        },
        None => false,
    }
}

/// The cache manifest recorded after a successful download at `now_ms`.
pub fn cache_after_download(now_ms: u64) -> (c: DistroMetadataCache)
    ensures
        c.source_url@ == distribution_info_url_text(),
        c.last_success_at_ms == now_ms,
{
    DistroMetadataCache { source_url: string_from(distribution_info_url()), last_success_at_ms: now_ms }
}

/// Metadata downloaded from the published address stays fresh until the refresh
/// interval has passed: up to, and not including, the download time plus 24 hours
/// (and at every earlier clock reading).
pub proof fn lemma_download_fresh_for_refresh_interval(cache: DistroMetadataCache, now_ms: u64)
    requires
        cache.source_url@ == distribution_info_url_text(),
    ensures
        cache_is_fresh(Some(cache), now_ms) <==> now_ms < cache.last_success_at_ms + refresh_interval_ms(),
{
}

/// What a refresh of the published metadata does next.
#[derive(Debug, Clone, Copy, PartialEq, Eq, Structural)]
pub enum RefreshStep {
    /// Return the cached metadata.
    UseCache,
    /// Download the published file.
    Download,
    /// Write the downloaded file and its cache manifest.
    WriteCache,
    /// Return the downloaded metadata.
    UseDownload,
}

/// The first step of a refresh: a fresh cache is used as it is, else the
/// published file is downloaded.
pub fn refresh_first_step(cache_fresh: bool) -> (s: RefreshStep)
    ensures
        s == if cache_fresh {
            RefreshStep::UseCache
        } else {
            RefreshStep::Download
        },
{
    if cache_fresh {
        RefreshStep::UseCache
    } else {
        RefreshStep::Download
    }
}

/// The step after a download: `parsed_entries` is the number of entries the
/// downloaded file gave (zero when it did not parse), or `None` when the download
/// failed. Only a download with entries is written to the cache.
pub fn refresh_after_download(parsed_entries: Option<usize>) -> (s: RefreshStep)
    ensures
        s == match parsed_entries {
            Some(n) => if n > 0 {
                RefreshStep::WriteCache
            } else {
                RefreshStep::UseCache
            },
            None => RefreshStep::UseCache,
        },
{
    match parsed_entries {
        Some(n) => if n > 0 {
            RefreshStep::WriteCache
        } else {
            RefreshStep::UseCache
        },
        None => RefreshStep::UseCache,
    }
}

/// The step after writing the cache: the download is returned only when it was
/// written, else the cached metadata is.
pub fn refresh_after_write(written: bool) -> (s: RefreshStep)
    ensures
        s == if written {
            RefreshStep::UseDownload
        } else {
            RefreshStep::UseCache
        },
{
    if written {
        RefreshStep::UseDownload
    } else {
        RefreshStep::UseCache
    }
}

/// The message of a failed metadata cache write.
pub fn format_write_error(error: &WriteTextError) -> (s: String)
    ensures
        s@ == match error {
            WriteTextError::CreateDirectory { path, source } => "failed to create distro metadata directory "@ + path@ + ": "@ + source@,
            WriteTextError::Write { path, source } => "failed to write distro metadata file "@ + path@ + ": "@ + source@,
        },
{
    match error {
        WriteTextError::CreateDirectory { path, source } => {
            let mut s = string_from("failed to create distro metadata directory ");
            s.append(path.as_str());
            s.append(": ");
            s.append(source.as_str());
            s
        },
        WriteTextError::Write { path, source } => {
            let mut s = string_from("failed to write distro metadata file ");
            s.append(path.as_str());
            s.append(": ");
            s.append(source.as_str());
            s
        },
    }
}

/// The message of a failed long-task history write.
pub fn format_long_task_history_write_error(error: &WriteTextError) -> (s: String)
    ensures
        s@ == match error {
            WriteTextError::CreateDirectory { path, source } => "failed to create long task history directory "@ + path@ + ": "@ + source@,
            WriteTextError::Write { path, source } => "failed to write long task history file "@ + path@ + ": "@ + source@,
        },
{
    match error {
        WriteTextError::CreateDirectory { path, source } => {
            let mut s = string_from("failed to create long task history directory ");
            s.append(path.as_str());
            s.append(": ");
            s.append(source.as_str());
            s
        },
        WriteTextError::Write { path, source } => {
            let mut s = string_from("failed to write long task history file ");
            s.append(path.as_str());
            s.append(": ");
            s.append(source.as_str());
            s
        },
    }
}

} // verus!
