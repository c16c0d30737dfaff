//! Releases of the enhancement runtime, as the upstream index lists them.

use vstd::prelude::*;

verus! {

/// A downloadable file of a release.
pub struct GitHubReleaseAsset {
    pub browser_download_url: String,
    pub name: String,
}

/// One release of the upstream index.
pub struct GitHubRelease {
    pub tag_name: String,
    pub id: i64,
    pub assets: Vec<GitHubReleaseAsset>,
    pub prerelease: bool,
    pub draft: bool,
    pub published_at: String,
}

/// The releases that the update channels draw from.
pub struct LatestRelease {
    pub latest: Option<GitHubRelease>,
    pub prerelease: Option<GitHubRelease>,
    pub latest_not_recent: Option<GitHubRelease>,
}

/// An asset with its texts as sequences of characters.
pub struct GitHubReleaseAssetView {
    pub browser_download_url: Seq<char>,
    pub name: Seq<char>,
}

/// A release with its texts as sequences of characters.
pub struct GitHubReleaseView {
    pub tag_name: Seq<char>,
    pub id: i64,
    pub assets: Seq<GitHubReleaseAssetView>,
    pub prerelease: bool,
    pub draft: bool,
    pub published_at: Seq<char>,
}

impl View for GitHubReleaseAsset {
    type V = GitHubReleaseAssetView;

    open spec fn view(&self) -> GitHubReleaseAssetView {
        GitHubReleaseAssetView { browser_download_url: self.browser_download_url@, name: self.name@ }
    }
}

impl View for GitHubRelease {
    type V = GitHubReleaseView;

    open spec fn view(&self) -> GitHubReleaseView {
        GitHubReleaseView {
            tag_name: self.tag_name@,
            id: self.id,
            assets: Seq::new(self.assets.len() as nat, |i: int| self.assets[i]@),
            prerelease: self.prerelease,
            draft: self.draft,
            published_at: self.published_at@,
        }
    }
}

/// The releases of a list, each by its view.
pub open spec fn release_views(releases: Seq<GitHubRelease>) -> Seq<GitHubReleaseView> {
    Seq::new(releases.len(), |i: int| releases[i]@)
}

/// The view of a release that may be absent.
pub open spec fn optional_view(release: Option<GitHubRelease>) -> Option<GitHubReleaseView> {
    match release {
        Some(r) => Some(r@),
        None => None,
    }
}

/// The instant that a timestamp text denotes, in nanoseconds since the Unix
/// epoch, as `jiff::Timestamp` parses it; nothing where it refuses the text.
pub uninterp spec fn timestamp_nanos(text: Seq<char>) -> Option<int>;

/// Parses a timestamp.
///
/// Trusted: calls `str::parse` for `jiff::Timestamp`, then
/// `Timestamp::as_nanosecond`. The result is named, not described: it is the
/// instant that the parser reads from this text, or nothing where it refuses
/// the text.
#[verifier::external_body]
pub(crate) fn parse_timestamp(text: &str) -> (instant: Option<i128>)
    ensures
        match instant {
            Some(nanos) => timestamp_nanos(text@) == Some(nanos as int),
            None => timestamp_nanos(text@) is None,
        },
{
    match text.parse::<jiff::Timestamp>() {
        Ok(timestamp) => Some(timestamp.as_nanosecond()),
        Err(_) => None,
    }
}

/// Why no release could be selected.
#[derive(Clone, Copy, Debug, PartialEq, Eq, Structural)]
pub enum ReleaseError {
    /// Two releases had to be compared and one of their dates is no
    /// timestamp.
    CannotParseDate,
}

/// The releases selected so far, by their places in the list.
pub struct Picked {
    pub latest: Option<int>,
    pub prerelease: Option<int>,
}

/// The release that is kept of the one picked so far and release `i`:
/// release `i` where none was picked, or where it was published after the
/// one picked; to tell, the instants of both must be known.
pub open spec fn newer_of(current: Option<int>, instants: Seq<Option<int>>, i: int) -> Result<
    Option<int>,
    ReleaseError,
> {
    match current {
        None => Ok(Some(i)),
        Some(c) => match (instants[i], instants[c]) {
            (Some(new), Some(old)) => Ok(
                if new > old {
                    Some(i)
                } else {
                    Some(c)
                },
            ),
            _ => Err(ReleaseError::CannotParseDate),
        },
    }
}

/// The selection after release `i` has been looked at, `instants` holding
/// for each release the instant of its publication, where its date is a
/// timestamp.
///
/// A prerelease becomes the prerelease picked where none was picked, or
/// where it was published after the one picked. A draft that is no
/// prerelease changes nothing. Any other release becomes the latest on the
/// same terms. Where two releases have to be compared, both dates must be
/// timestamps.
pub open spec fn pick_next(picked: Picked, releases: Seq<GitHubReleaseView>, instants: Seq<Option<int>>, i: int) -> Result<
    Picked,
    ReleaseError,
> {
    let release = releases[i];
    if release.prerelease {
        match newer_of(picked.prerelease, instants, i) {
            Ok(prerelease) => Ok(Picked { latest: picked.latest, prerelease }),
            Err(e) => Err(e),
        }
    } else if release.draft {
        Ok(picked)
    } else {
        match newer_of(picked.latest, instants, i) {
            Ok(latest) => Ok(Picked { latest, prerelease: picked.prerelease }),
            Err(e) => Err(e),
        }
    }
}

/// The selection after the first `n` releases of a list.
pub open spec fn pick(releases: Seq<GitHubReleaseView>, instants: Seq<Option<int>>, n: int) -> Result<
    Picked,
    ReleaseError,
>
    decreases n,
{
    if n <= 0 {
        Ok(Picked { latest: None, prerelease: None })
    } else {
        match pick(releases, instants, n - 1) {
            Ok(picked) => pick_next(picked, releases, instants, n - 1),
            Err(e) => Err(e),
        }
    }
}

/// The instants at which the releases of a list were published, each as its
/// date denotes it.
pub open spec fn published_instants(releases: Seq<GitHubReleaseView>) -> Seq<Option<int>> {
    Seq::new(releases.len(), |i: int| timestamp_nanos(releases[i].published_at))
}

/// The first `n` of a list of instants; an instant that the list does not
/// hold counts as unknown.
pub open spec fn instants_of(instants: Seq<Option<i128>>, n: nat) -> Seq<Option<int>> {
    Seq::new(
        n,
        |i: int|
            if i < instants.len() {
                match instants[i] {
                    Some(nanos) => Some(nanos as int),
                    None => None,
                }
            } else {
                None
            },
    )
}

/// Whether a release is neither a draft nor a prerelease.
pub open spec fn is_stable(release: GitHubReleaseView) -> bool {
    !release.prerelease && !release.draft
}

/// Whether release `i` was published no later than release `picked`, and
/// the instants of both are known.
pub open spec fn not_newer(instants: Seq<Option<int>>, i: int, picked: int) -> bool {
    match (instants[i], instants[picked]) {
        (Some(a), Some(b)) => a <= b,
        _ => false,
    }
}

/// What a selection says of the first `n` releases of the list it was made
/// from.
///
/// The latest is a release that is neither draft nor prerelease, and no
/// other such release was published after it. The prerelease is a
/// prerelease, and no other prerelease was published after it. Each is
/// absent only where the list holds none of its kind.
pub open spec fn picked_from(picked: Picked, releases: Seq<GitHubReleaseView>, instants: Seq<Option<int>>, n: int) -> bool {
    &&& picked.latest matches Some(i) ==> 0 <= i < n && is_stable(releases[i]) && forall|j: int|
        0 <= j < n && is_stable(#[trigger] releases[j]) && j != i ==> not_newer(instants, j, i)
    &&& picked.latest is None ==> forall|j: int| 0 <= j < n ==> !is_stable(#[trigger] releases[j])
    &&& picked.prerelease matches Some(i) ==> 0 <= i < n && releases[i].prerelease && forall|j: int|
        0 <= j < n && (#[trigger] releases[j]).prerelease && j != i ==> not_newer(instants, j, i)
    &&& picked.prerelease is None ==> forall|j: int|
        0 <= j < n ==> !(#[trigger] releases[j]).prerelease
}

/// The selection made from the first `n` releases names the most recent
/// release of each kind: the latest is the newest release that is neither
/// draft nor prerelease, the prerelease is the newest prerelease, wherever
/// in the list they stand.
pub proof fn lemma_pick_names_releases(releases: Seq<GitHubReleaseView>, instants: Seq<Option<int>>, n: int)
    requires
        0 <= n <= releases.len(),
    ensures
        pick(releases, instants, n) matches Ok(picked) ==> picked_from(picked, releases, instants, n),
    decreases n,
{
    if n > 0 {
        lemma_pick_names_releases(releases, instants, n - 1);
    }
}

/// Of two releases of one kind that were published at one instant, the one
/// listed first is picked: a release takes the place of the one picked only
/// where it was published after it.
pub proof fn lemma_pick_keeps_the_first_of_equals(releases: Seq<GitHubReleaseView>, instants: Seq<
    Option<int>,
>, n: int, j: int)
    requires
        0 <= j < n <= releases.len(),
    ensures
        pick(releases, instants, n) matches Ok(picked) ==> {
            &&& picked.latest matches Some(i) ==> (i > j && is_stable(releases[j])
                ==> instants[j] != instants[i])
            &&& picked.prerelease matches Some(i) ==> (i > j && releases[j].prerelease
                ==> instants[j] != instants[i])
        },
    decreases n,
{
    if n > j + 1 {
        lemma_pick_keeps_the_first_of_equals(releases, instants, n - 1, j);
    }
    lemma_pick_names_releases(releases, instants, n - 1);
}

/// The selection fails exactly where a comparison was needed and an instant
/// was unknown: where the list holds two releases of one kind and the
/// instant of one of them is unknown.
pub proof fn lemma_pick_fails_on_unknown_instants(releases: Seq<GitHubReleaseView>, instants: Seq<
    Option<int>,
>, n: int)
    requires
        0 <= n <= releases.len(),
    ensures
        pick(releases, instants, n) is Err <==> exists|a: int, b: int|
            0 <= a < b < n && same_kind(#[trigger] releases[a], #[trigger] releases[b]) && (
            instants[a] is None || instants[b] is None),
    decreases n,
{
    if n > 0 {
        lemma_pick_fails_on_unknown_instants(releases, instants, n - 1);
        lemma_pick_names_releases(releases, instants, n - 1);
        let before = pick(releases, instants, n - 1);
        if before is Err {
            let (a, b) = choose|a: int, b: int|
                0 <= a < b < n - 1 && same_kind(#[trigger] releases[a], #[trigger] releases[b]) && (
                instants[a] is None || instants[b] is None);
            assert(0 <= a < b < n && same_kind(releases[a], releases[b]));
        } else {
            let picked = before->Ok_0;
            let i = n - 1;
            if pick(releases, instants, n) is Err {
                let c = if releases[i].prerelease {
                    picked.prerelease->0
                } else {
                    picked.latest->0
                };
                assert(0 <= c < i < n && same_kind(releases[c], releases[i]));
                if instants[c] is None || instants[i] is None {
                } else {
                    assert(false);
                }
            } else {
                if exists|a: int, b: int|
                    0 <= a < b < n && same_kind(#[trigger] releases[a], #[trigger] releases[b]) && (
                    instants[a] is None || instants[b] is None) {
                    let (a, b) = choose|a: int, b: int|
                        0 <= a < b < n && same_kind(#[trigger] releases[a], #[trigger] releases[b])
                            && (instants[a] is None || instants[b] is None);
                    if b < n - 1 {
                        assert(0 <= a < b < n - 1 && same_kind(releases[a], releases[b]));
                        assert(false);
                    } else {
                        // Release `a` is of the kind of the last one, so one of that kind was
                        // picked before; it was compared with the last one, and release `a` was
                        // compared on the way to it.
                        let c = if releases[i].prerelease {
                            picked.prerelease->0
                        } else {
                            picked.latest->0
                        };
                        if releases[i].prerelease {
                            assert(releases[a].prerelease);
                            assert(picked.prerelease is Some);
                        } else {
                            assert(is_stable(releases[a]));
                            assert(picked.latest is Some);
                        }
                        assert(instants[c] is Some && instants[i] is Some);
                        if a != c {
                            assert(not_newer(instants, a, c));
                        }
                        assert(false);
                    }
                }
            }
        }
    }
}

/// Whether two releases are both prereleases, or both neither draft nor
/// prerelease.
pub open spec fn same_kind(a: GitHubReleaseView, b: GitHubReleaseView) -> bool {
    (a.prerelease && b.prerelease) || (is_stable(a) && is_stable(b))
}

impl GitHubReleaseAsset {
    /// A copy of the asset.
    pub fn duplicate(&self) -> (copy: GitHubReleaseAsset)
        ensures
            copy@ == self@,
    {
        GitHubReleaseAsset {
            browser_download_url: self.browser_download_url.clone(),
            name: self.name.clone(),
        }
    }
}

impl GitHubRelease {
    /// A copy of the release.
    pub fn duplicate(&self) -> (copy: GitHubRelease)
        ensures
            copy@ == self@,
    {
        let mut assets: Vec<GitHubReleaseAsset> = Vec::new();
        let mut i: usize = 0;
        while i < self.assets.len()
            invariant
                i <= self.assets.len(),
                assets.len() == i,
                forall|k: int| 0 <= k < i ==> assets[k]@ == self.assets[k]@,
            decreases self.assets.len() - i,
        {
            assets.push(self.assets[i].duplicate());
            i += 1;
        }
        let copy = GitHubRelease {
            tag_name: self.tag_name.clone(),
            id: self.id,
            assets,
            prerelease: self.prerelease,
            draft: self.draft,
            published_at: self.published_at.clone(),
        };
        assert(copy@.assets =~= self@.assets);
        copy
    }
}

/// The release at a picked place, if any.
pub open spec fn release_at(releases: Seq<GitHubReleaseView>, place: Option<int>) -> Option<
    GitHubReleaseView,
> {
    match place {
        Some(i) => Some(releases[i]),
        None => None,
    }
}

/// The place of a release that may be absent, as a number without bound.
pub open spec fn place_of(place: Option<usize>) -> Option<int> {
    match place {
        Some(k) => Some(k as int),
        None => None,
    }
}

/// Keeps, of the release picked so far and release `i`, the one published
/// later; an instant that the list does not hold counts as unknown.
fn newer(current: Option<usize>, instants: &Vec<Option<i128>>, i: usize, Ghost(n): Ghost<nat>) -> (kept: Result<
    Option<usize>,
    ReleaseError,
>)
    requires
        i < n,
        current matches Some(c) ==> c < i,
    ensures
        match kept {
            Ok(k) => newer_of(place_of(current), instants_of(instants@, n), i as int) == Ok::<
                Option<int>,
                ReleaseError,
            >(place_of(k)) && (k matches Some(p) ==> p <= i),
            Err(e) => newer_of(place_of(current), instants_of(instants@, n), i as int) == Err::<
                Option<int>,
                ReleaseError,
            >(e),
        },
{
    match current {
        None => Ok(Some(i)),
        Some(c) => {
            let new = if i < instants.len() {
                instants[i]
            } else {
                None
            };
            let old = if c < instants.len() {
                instants[c]
            } else {
                None
            };
            match (new, old) {
                (Some(new), Some(old)) => Ok(
                    if new > old {
                        Some(i)
                    } else {
                        Some(c)
                    },
                ),
                _ => Err(ReleaseError::CannotParseDate),
            }
        },
    }
}

/// Selects, from the releases of the upstream index in the order it lists
/// them, those that the update channels draw from, `instants` holding for
/// each release the instant of its publication in nanoseconds, where its
/// date is a timestamp.
///
/// The latest release is the newest that is neither draft nor prerelease; the
/// prerelease is the newest prerelease. The selection fails where two
/// releases of one kind have to be compared and the instant of one of them
/// is unknown.
pub fn select_releases(releases: &Vec<GitHubRelease>, instants: &Vec<Option<i128>>) -> (selected: Result<
    LatestRelease,
    ReleaseError,
>)
    ensures
        match selected {
            Ok(found) => pick(
                release_views(releases@),
                instants_of(instants@, releases@.len()),
                releases.len() as int,
            ) matches Ok(picked) && {
                &&& optional_view(found.latest) == release_at(release_views(releases@), picked.latest)
                &&& optional_view(found.latest_not_recent) == optional_view(found.latest)
                &&& optional_view(found.prerelease) == release_at(
                    release_views(releases@),
                    picked.prerelease,
                )
            },
            Err(e) => pick(
                release_views(releases@),
                instants_of(instants@, releases@.len()),
                releases.len() as int,
            ) == Err::<Picked, ReleaseError>(e),
        },
{
    let ghost views = release_views(releases@);
    let ghost known = instants_of(instants@, releases@.len());
    let mut latest: Option<usize> = None;
    let mut prerelease: Option<usize> = None;
    let mut i: usize = 0;
    while i < releases.len()
        invariant
            i <= releases.len(),
            views == release_views(releases@),
            known == instants_of(instants@, releases@.len()),
            latest matches Some(k) ==> k < i,
            prerelease matches Some(k) ==> k < i,
            pick(views, known, i as int) == Ok::<Picked, ReleaseError>(
                Picked { latest: place_of(latest), prerelease: place_of(prerelease) },
            ),
        decreases releases.len() - i,
    {
        let release = &releases[i];
        assert(views[i as int] == release@);
        if release.prerelease {
            match newer(prerelease, instants, i, Ghost(releases@.len())) {
                Ok(kept) => {
                    prerelease = kept;
                },
                Err(e) => {
                    proof {
                        lemma_pick_error_stays(views, known, i + 1, releases.len() as int);
                    }
                    return Err(e);
                },
            }
        } else if !release.draft {
            match newer(latest, instants, i, Ghost(releases@.len())) {
                Ok(kept) => {
                    latest = kept;
                },
                Err(e) => {
                    proof {
                        lemma_pick_error_stays(views, known, i + 1, releases.len() as int);
                    }
                    return Err(e);
                },
            }
        }
        i += 1;
    }
    let latest_release = match latest {
        Some(k) => Some(releases[k].duplicate()),
        None => None,
    };
    let latest_not_recent = match latest {
        Some(k) => Some(releases[k].duplicate()),
        None => None,
    };
    let prerelease_release = match prerelease {
        Some(k) => Some(releases[k].duplicate()),
        None => None,
    };
    Ok(LatestRelease { latest: latest_release, prerelease: prerelease_release, latest_not_recent })
}

/// Selects, from the releases of the upstream index in the order it lists
/// them, those that the update channels draw from, each release counting as
/// published at the instant that its date denotes.
pub fn find_last_release(releases: &Vec<GitHubRelease>) -> (selected: Result<LatestRelease, ReleaseError>)
    ensures
        match selected {
            Ok(found) => pick(
                release_views(releases@),
                published_instants(release_views(releases@)),
                releases.len() as int,
            ) matches Ok(picked) && {
                &&& optional_view(found.latest) == release_at(release_views(releases@), picked.latest)
                &&& optional_view(found.latest_not_recent) == optional_view(found.latest)
                &&& optional_view(found.prerelease) == release_at(
                    release_views(releases@),
                    picked.prerelease,
                )
            },
            Err(e) => pick(
                release_views(releases@),
                published_instants(release_views(releases@)),
                releases.len() as int,
            ) == Err::<Picked, ReleaseError>(e),
        },
{
    let mut instants: Vec<Option<i128>> = Vec::new();
    let mut i: usize = 0;
    while i < releases.len()
        invariant
            i <= releases.len(),
            instants.len() == i,
            forall|k: int|
                0 <= k < i ==> (match #[trigger] instants[k] {
                    Some(nanos) => timestamp_nanos(releases[k].published_at@) == Some(nanos as int),
                    None => timestamp_nanos(releases[k].published_at@) is None,
                }),
        decreases releases.len() - i,
    {
        instants.push(parse_timestamp(releases[i].published_at.as_str()));
        i += 1;
    }
    assert(instants_of(instants@, releases@.len()) =~= published_instants(release_views(releases@)));
    select_releases(releases, &instants)
}

/// Once the selection has failed, it stays failed however many more
/// releases are looked at.
pub proof fn lemma_pick_error_stays(releases: Seq<GitHubReleaseView>, instants: Seq<Option<int>>, n: int, m: int)
    requires
        0 <= n <= m,
        pick(releases, instants, n) is Err,
    ensures
        pick(releases, instants, m) == pick(releases, instants, n),
    decreases m - n,
{
    if n < m {
        lemma_pick_error_stays(releases, instants, n, m - 1);
    }
}

} // verus!
