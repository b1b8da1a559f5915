//! Choice of the one asset of a release to install.
//!
//! Resolution reads two things of each asset, both decided by its name:
//! whether it suits this host, and which packaging format it has. Over
//! those it is a pure rule, stated here on indices into the asset list.

use crate::classify::{
    arch_compatible, format_of, format_of_name, is_arch_name, is_linux_name, linux_compatible,
    names_other_system,
};
use crate::models::{InstallType, ReleaseAsset};
use crate::paths::{join_path, joined_path};
use crate::text::to_lowercase;
use vstd::prelude::*;

verus! {

/// What resolution reads of one asset.
#[derive(Debug, Clone, Copy, PartialEq, Eq, Structural)]
pub struct Candidate {
    /// The asset may run on Linux and suits the host's architecture.
    pub compatible: bool,
    /// The packaging format of the asset, if its name shows one.
    pub format: Option<InstallType>,
}

/// What resolution looks for among the candidates.
#[derive(Debug, Clone, Copy, PartialEq, Eq, Structural)]
pub enum Wanted {
    /// Any compatible asset.
    Any,
    /// A compatible asset whose format is exactly the given one; `None`
    /// asks for an asset without a recognized format.
    Format(Option<InstallType>),
}

impl Wanted {
    /// The candidate is one of those looked for.
    pub open spec fn admits(self, candidate: Candidate) -> bool {
        candidate.compatible && match self {
            Wanted::Any => true,
            Wanted::Format(format) => candidate.format == format,
        }
    }

    /// Whether the candidate is one of those looked for.
    pub fn test(&self, candidate: &Candidate) -> (admitted: bool)
        ensures
            admitted == self.admits(*candidate),
    {
        candidate.compatible && match self {
            Wanted::Any => true,
            Wanted::Format(format) => same_format(&candidate.format, format),
        }
    }
}

/// Whether two optional formats are the same.
pub fn same_format(a: &Option<InstallType>, b: &Option<InstallType>) -> (same: bool)
    ensures
        same == (*a == *b),
{
    match (a, b) {
        (Some(x), Some(y)) => *x == *y,
        (None, None) => true,
        _ => false,
    }
}

/// The candidate at `i` is looked for, and none before it is.
pub open spec fn is_first(candidates: Seq<Candidate>, wanted: Wanted, i: int) -> bool {
    &&& 0 <= i < candidates.len()
    &&& wanted.admits(candidates[i])
    &&& forall|j: int| 0 <= j < i ==> !wanted.admits(#[trigger] candidates[j])
}

/// The index of the first candidate that is looked for, in the order of the
/// list.
pub open spec fn first(candidates: Seq<Candidate>, wanted: Wanted) -> Option<int> {
    if exists|i: int| is_first(candidates, wanted, i) {
        Some(choose|i: int| is_first(candidates, wanted, i))
    } else {
        None
    }
}

/// The first candidate of the best format that any compatible candidate
/// has, trying the formats of `InstallType::priority()` from `rank` on.
pub open spec fn first_by_priority(candidates: Seq<Candidate>, rank: int) -> Option<int>
    decreases InstallType::priority().len() - rank,
{
    if 0 <= rank < InstallType::priority().len() {
        match first(candidates, Wanted::Format(Some(InstallType::priority()[rank]))) {
            Some(i) => Some(i),
            None => first_by_priority(candidates, rank + 1),
        }
    } else {
        None
    }
}

/// The index of the asset to install: the first compatible one of the
/// preferred format if there is such; else the first one of the best format
/// that a compatible asset has; else the first compatible one; and none
/// where no asset is compatible.
pub open spec fn selection(candidates: Seq<Candidate>, preferred: Option<InstallType>) -> Option<
    int,
> {
    if preferred is Some && first(candidates, Wanted::Format(preferred)) is Some {
        first(candidates, Wanted::Format(preferred))
    } else if first_by_priority(candidates, 0) is Some {
        first_by_priority(candidates, 0)
    } else {
        first(candidates, Wanted::Any)
    }
}

/// What resolution reads of `asset` on a host of architecture `arch`.
pub open spec fn candidate_of(asset: ReleaseAsset, arch: Seq<char>) -> Candidate {
    Candidate {
        compatible: linux_compatible(asset.lower_name()) && arch_compatible(
            asset.lower_name(),
            arch,
        ),
        format: format_of(asset.lower_name()),
    }
}

/// What resolution reads of each of `assets`, in their order.
pub open spec fn candidates_of(assets: Seq<ReleaseAsset>, arch: Seq<char>) -> Seq<Candidate> {
    Seq::new(assets.len(), |i: int| candidate_of(assets[i], arch))
}

/// What resolution reads of `asset` on a host of architecture `arch`.
pub fn candidate_for(asset: &ReleaseAsset, arch: &str) -> (candidate: Candidate)
    ensures
        candidate == candidate_of(*asset, arch@),
{
    let name_lower = to_lowercase(asset.name.as_str());
    let lower = name_lower.as_str();
    Candidate {
        compatible: is_linux_name(lower) && is_arch_name(lower, arch),
        format: format_of_name(lower),
    }
}

/// What resolution reads of each of `assets`, in their order.
pub fn candidates_for(assets: &[ReleaseAsset], arch: &str) -> (candidates: Vec<Candidate>)
    ensures
        candidates@ == candidates_of(assets@, arch@),
{
    let mut candidates: Vec<Candidate> = Vec::new();
    let mut i: usize = 0;
    while i < assets.len()
        invariant
            i <= assets.len(),
            candidates@.len() == i,
            forall|j: int| 0 <= j < i ==> candidates@[j] == candidate_of(assets@[j], arch@),
        decreases assets.len() - i,
    {
        candidates.push(candidate_for(&assets[i], arch));
        i += 1;
    }
    candidates
}

/// There is at most one first candidate, so `first` is the index that
/// satisfies `is_first`, and is none where nothing is looked for.
pub proof fn lemma_first_unique(candidates: Seq<Candidate>, wanted: Wanted, i: int)
    requires
        is_first(candidates, wanted, i),
    ensures
        first(candidates, wanted) == Some(i),
{
}

/// The index of the first candidate that is looked for.
pub fn find_first(candidates: &Vec<Candidate>, wanted: Wanted) -> (found: Option<usize>)
    ensures
        match found {
            Some(i) => first(candidates@, wanted) == Some(i as int),
            None => first(candidates@, wanted) is None,
        },
{
    let mut i: usize = 0;
    while i < candidates.len()
        invariant
            i <= candidates.len(),
            forall|j: int| 0 <= j < i ==> !wanted.admits(#[trigger] candidates@[j]),
        decreases candidates.len() - i,
    {
        if wanted.test(&candidates[i]) {
            proof {
                lemma_first_unique(candidates@, wanted, i as int);
            }
            return Some(i);
        }
        i += 1;
    }
    None
}

/// The formats in the order in which installation prefers them.
pub fn priority_order() -> (order: [InstallType; 7])
    ensures
        order@ == InstallType::priority(),
{
    let order = [
        InstallType::Deb,
        InstallType::Rpm,
        InstallType::AppImage,
        InstallType::Flatpak,
        InstallType::Snap,
        InstallType::Binary,
        InstallType::Source,
    ];
    order
}

/// The index of the candidate to install.
pub fn select(candidates: &Vec<Candidate>, preferred: Option<InstallType>) -> (chosen: Option<
    usize,
>)
    ensures
        match chosen {
            Some(i) => selection(candidates@, preferred) == Some(i as int),
            None => selection(candidates@, preferred) is None,
        },
{
    if preferred.is_some() {
        let hit = find_first(candidates, Wanted::Format(preferred));
        if hit.is_some() {
            return hit;
        }
    }
    let order = priority_order();
    let mut rank: usize = 0;
    while rank < order.len()
        invariant
            rank <= 7,
            order@ == InstallType::priority(),
            order@.len() == 7,
            preferred is Some ==> first(candidates@, Wanted::Format(preferred)) is None,
            first_by_priority(candidates@, 0) == first_by_priority(candidates@, rank as int),
        decreases 7 - rank,
    {
        let hit = find_first(candidates, Wanted::Format(Some(order[rank])));
        if hit.is_some() {
            return hit;
        }
        rank += 1;
    }
    find_first(candidates, Wanted::Any)
}

/// Why no asset of a release can be installed.
#[derive(Debug, Clone, Copy, PartialEq, Eq, Structural)]
pub enum ResolveError {
    /// No asset may run on Linux and suits the host's architecture.
    NoCompatibleAsset,
    /// The asset that was chosen has a name that shows no format.
    UnrecognizedFormat,
}

impl ResolveError {
    /// What is said of the error.
    pub open spec fn message(self) -> Seq<char> {
        match self {
            ResolveError::NoCompatibleAsset => "No compatible package found"@,
            ResolveError::UnrecognizedFormat => "Unknown package type"@,
        }
    }

    /// What is said of the error.
    pub fn describe(&self) -> (message: &'static str)
        ensures
            message@ == self.message(),
    {
        match self {
            ResolveError::NoCompatibleAsset => "No compatible package found",
            ResolveError::UnrecognizedFormat => "Unknown package type",
        }
    }
}

/// What is to be installed: the asset, the format it is installed as, and
/// the path to which it is downloaded first.
#[derive(Debug)]
pub struct InstallPlan<'a> {
    pub asset: &'a ReleaseAsset,
    pub install_type: InstallType,
    pub dest: String,
}

/// `plan` installs the asset at index `i` of `assets`, as the format that
/// its name shows, by way of the directory `downloads`.
pub open spec fn plans_asset(
    plan: InstallPlan,
    assets: Seq<ReleaseAsset>,
    arch: Seq<char>,
    downloads: Seq<char>,
    i: int,
) -> bool {
    &&& 0 <= i < assets.len()
    &&& *plan.asset == assets[i]
    &&& candidate_of(assets[i], arch).format == Some(plan.install_type)
    &&& plan.dest@ == joined_path(downloads, assets[i].name@)
}

fn plan_for<'a>(
    assets: &'a [ReleaseAsset],
    candidates: &Vec<Candidate>,
    i: usize,
    downloads_dir: &str,
) -> (plan: Option<InstallPlan<'a>>)
    requires
        i < assets@.len(),
        candidates@.len() == assets@.len(),
    ensures
        match plan {
            Some(p) => candidates@[i as int].format == Some(p.install_type) && *p.asset
                == assets@[i as int] && p.dest@ == joined_path(
                downloads_dir@,
                assets@[i as int].name@,
            ),
            None => candidates@[i as int].format is None,
        },
{
    match candidates[i].format {
        Some(install_type) => Some(
            InstallPlan {
                asset: &assets[i],
                install_type,
                dest: join_path(downloads_dir, assets[i].name.as_str()),
            },
        ),
        None => None,
    }
}

/// What to install of a release, on a host of architecture `arch` that
/// keeps its downloads in `downloads_dir`: the asset that resolution
/// selects, if its name shows a format.
pub fn plan_install<'a>(
    assets: &'a [ReleaseAsset],
    preferred_type: Option<InstallType>,
    arch: &str,
    downloads_dir: &str,
) -> (plan: Result<InstallPlan<'a>, ResolveError>)
    ensures
        match selection(candidates_of(assets@, arch@), preferred_type) {
            None => plan == Err::<InstallPlan, ResolveError>(ResolveError::NoCompatibleAsset),
            Some(i) => match candidate_of(assets@[i], arch@).format {
                None => plan == Err::<InstallPlan, ResolveError>(
                    ResolveError::UnrecognizedFormat,
                ),
                Some(_) => plan matches Ok(p) && plans_asset(
                    p,
                    assets@,
                    arch@,
                    downloads_dir@,
                    i,
                ),
            },
        },
{
    let candidates = candidates_for(assets, arch);
    proof {
        lemma_selection_is_compatible(candidates@, preferred_type);
    }
    match select(&candidates, preferred_type) {
        None => Err(ResolveError::NoCompatibleAsset),
        Some(i) => match plan_for(assets, &candidates, i, downloads_dir) {
            Some(plan) => Ok(plan),
            None => Err(ResolveError::UnrecognizedFormat),
        },
    }
}

/// What to install of a release when a format was asked for by name: the
/// first compatible asset whose format is the one that the name parsed to.
/// A name that parsed to no format finds nothing to install.
pub fn plan_install_of_type<'a>(
    assets: &'a [ReleaseAsset],
    requested: Option<InstallType>,
    arch: &str,
    downloads_dir: &str,
) -> (plan: Option<InstallPlan<'a>>)
    ensures
        match first(candidates_of(assets@, arch@), Wanted::Format(requested)) {
            Some(i) => if requested is Some {
                plan matches Some(p) && plans_asset(p, assets@, arch@, downloads_dir@, i)
            } else {
                plan is None
            },
            None => plan is None,
        },
{
    let candidates = candidates_for(assets, arch);
    proof {
        lemma_first_is_first(candidates@, Wanted::Format(requested));
    }
    match find_first(&candidates, Wanted::Format(requested)) {
        Some(i) => plan_for(assets, &candidates, i, downloads_dir),
        None => None,
    }
}

/// A package that a release offers to this host.
#[derive(Debug)]
pub struct PackageOption {
    pub install_type: InstallType,
    pub filename: String,
    pub size: u64,
    pub url: String,
}

/// A package as text.
pub struct PackageOptionView {
    pub install_type: InstallType,
    pub filename: Seq<char>,
    pub size: u64,
    pub url: Seq<char>,
}

impl View for PackageOption {
    type V = PackageOptionView;

    open spec fn view(&self) -> PackageOptionView {
        PackageOptionView {
            install_type: self.install_type,
            filename: self.filename@,
            size: self.size,
            url: self.url@,
        }
    }
}

/// The packages of a list as text.
pub open spec fn packages_view(packages: Seq<PackageOption>) -> Seq<PackageOptionView> {
    Seq::new(packages.len(), |i: int| packages[i]@)
}

/// The package that `asset` offers to a host of architecture `arch`, if it
/// is compatible and its name shows a format.
pub open spec fn package_of(asset: ReleaseAsset, arch: Seq<char>) -> Option<PackageOptionView> {
    let candidate = candidate_of(asset, arch);
    if candidate.compatible && candidate.format is Some {
        Some(
            PackageOptionView {
                install_type: candidate.format->0,
                filename: asset.name@,
                size: asset.size,
                url: asset.browser_download_url@,
            },
        )
    } else {
        None
    }
}

/// The packages that `assets` offer to a host of architecture `arch`, in
/// the order of the assets.
pub open spec fn packages_of(assets: Seq<ReleaseAsset>, arch: Seq<char>) -> Seq<PackageOptionView>
    decreases assets.len(),
{
    if assets.len() == 0 {
        Seq::empty()
    } else {
        packages_of(assets.drop_last(), arch) + match package_of(assets.last(), arch) {
            Some(package) => seq![package],
            None => Seq::empty(),
        }
    }
}

/// The packages that a release offers to a host of architecture `arch`.
pub fn available_packages(assets: &[ReleaseAsset], arch: &str) -> (packages: Vec<PackageOption>)
    ensures
        packages_view(packages@) == packages_of(assets@, arch@),
{
    let mut packages: Vec<PackageOption> = Vec::new();
    let mut i: usize = 0;
    while i < assets.len()
        invariant
            i <= assets.len(),
            packages_view(packages@) == packages_of(assets@.take(i as int), arch@),
        decreases assets.len() - i,
    {
        let asset = &assets[i];
        let candidate = candidate_for(asset, arch);
        proof {
            let upto = assets@.take(i + 1);
            assert(upto.drop_last() == assets@.take(i as int));
        }
        if candidate.compatible {
            if let Some(install_type) = candidate.format {
                packages.push(
                    PackageOption {
                        install_type,
                        filename: asset.name.clone(),
                        size: asset.size,
                        url: asset.browser_download_url.clone(),
                    },
                );
            }
        }
        i += 1;
    }
    assert(assets@.take(assets@.len() as int) == assets@);
    packages
}

/// The place of a format in the order of preference, the best being 0.
pub open spec fn rank_of(format: InstallType) -> int {
    match format {
        InstallType::Deb => 0,
        InstallType::Rpm => 1,
        InstallType::AppImage => 2,
        InstallType::Flatpak => 3,
        InstallType::Snap => 4,
        InstallType::Binary => 5,
        InstallType::Source => 6,
    }
}

/// `rank_of` is the index of a format in `InstallType::priority()`, which
/// holds every format once.
pub proof fn lemma_rank_is_priority_index(format: InstallType)
    ensures
        0 <= rank_of(format) < InstallType::priority().len(),
        InstallType::priority()[rank_of(format)] == format,
        InstallType::priority().len() == 7,
{
}

/// Where some candidate up to `i` is looked for, there is a first one, at
/// or before `i`.
pub proof fn lemma_first_exists(candidates: Seq<Candidate>, wanted: Wanted, i: int)
    requires
        0 <= i < candidates.len(),
        wanted.admits(candidates[i]),
    ensures
        first(candidates, wanted) is Some,
        0 <= first(candidates, wanted)->0 <= i,
        is_first(candidates, wanted, first(candidates, wanted)->0),
    decreases i,
{
    if exists|j: int| 0 <= j < i && wanted.admits(#[trigger] candidates[j]) {
        let j = choose|j: int| 0 <= j < i && wanted.admits(#[trigger] candidates[j]);
        lemma_first_exists(candidates, wanted, j);
    } else {
        lemma_first_unique(candidates, wanted, i);
    }
}

/// What `first` finds is looked for and comes before every other candidate
/// that is; it finds nothing only where nothing is looked for.
pub proof fn lemma_first_is_first(candidates: Seq<Candidate>, wanted: Wanted)
    ensures
        match first(candidates, wanted) {
            Some(i) => is_first(candidates, wanted, i),
            None => forall|j: int|
                0 <= j < candidates.len() ==> !wanted.admits(#[trigger] candidates[j]),
        },
{
    if first(candidates, wanted) is None {
        assert forall|j: int| 0 <= j < candidates.len() implies !wanted.admits(
            #[trigger] candidates[j],
        ) by {
            if wanted.admits(candidates[j]) {
                lemma_first_exists(candidates, wanted, j);
            }
        }
    }
}

/// What the walk down the order of preference finds, from `rank` on: the
/// first candidate of some format of rank `rank` or worse, no compatible
/// candidate having a format ranked between `rank` and that one; and
/// nothing only where no compatible candidate has a format of rank `rank`
/// or worse.
pub proof fn lemma_first_by_priority(candidates: Seq<Candidate>, rank: int)
    requires
        0 <= rank <= 7,
    ensures
        match first_by_priority(candidates, rank) {
            Some(i) => {
                &&& 0 <= i < candidates.len()
                &&& candidates[i].compatible
                &&& candidates[i].format is Some
                &&& rank <= rank_of(candidates[i].format->0)
                &&& is_first(candidates, Wanted::Format(candidates[i].format), i)
                &&& forall|j: int|
                    0 <= j < candidates.len() && (#[trigger] candidates[j]).compatible
                        && candidates[j].format is Some && rank <= rank_of(candidates[j].format->0)
                        ==> rank_of(candidates[i].format->0) <= rank_of(candidates[j].format->0)
            },
            None => forall|j: int|
                0 <= j < candidates.len() && (#[trigger] candidates[j]).compatible
                    && candidates[j].format is Some ==> rank_of(candidates[j].format->0) < rank,
        },
    decreases 7 - rank,
{
    if rank < 7 {
        let format = InstallType::priority()[rank];
        let wanted = Wanted::Format(Some(format));
        lemma_first_is_first(candidates, wanted);
        lemma_first_by_priority(candidates, rank + 1);
        if first(candidates, wanted) is None {
            assert forall|j: int|
                0 <= j < candidates.len() && (#[trigger] candidates[j]).compatible
                    && candidates[j].format is Some implies rank_of(candidates[j].format->0)
                != rank by {
                if rank_of(candidates[j].format->0) == rank {
                    lemma_rank_is_priority_index(candidates[j].format->0);
                }
            }
        }
    }
}

/// Whatever is selected is a compatible asset of the list, and the first of
/// its format among the compatible ones: among equals the order of the list
/// decides.
pub proof fn lemma_selection_is_compatible(
    candidates: Seq<Candidate>,
    preferred: Option<InstallType>,
)
    ensures
        match selection(candidates, preferred) {
            Some(i) => {
                &&& 0 <= i < candidates.len()
                &&& candidates[i].compatible
                &&& forall|j: int|
                    0 <= j < i && (#[trigger] candidates[j]).compatible ==> candidates[j].format
                        != candidates[i].format
            },
            None => true,
        },
{
    lemma_first_is_first(candidates, Wanted::Format(preferred));
    lemma_first_is_first(candidates, Wanted::Any);
    lemma_first_by_priority(candidates, 0);
    if selection(candidates, preferred) is Some {
        let i = selection(candidates, preferred)->0;
        if preferred is Some && first(candidates, Wanted::Format(preferred)) is Some {
        } else if first_by_priority(candidates, 0) is Some {
            assert forall|j: int| 0 <= j < i && (#[trigger] candidates[j]).compatible implies
                candidates[j].format != candidates[i].format by {
                assert(!Wanted::Format(candidates[i].format).admits(candidates[j]));
            }
        } else {
            assert forall|j: int| 0 <= j < i && (#[trigger] candidates[j]).compatible implies
                candidates[j].format != candidates[i].format by {
                assert(!Wanted::Any.admits(candidates[j]));
            }
        }
    }
}

/// Nothing is selected exactly where no asset of the list is compatible.
pub proof fn lemma_selection_is_none(candidates: Seq<Candidate>, preferred: Option<InstallType>)
    ensures
        selection(candidates, preferred) is None <==> forall|j: int|
            0 <= j < candidates.len() ==> !(#[trigger] candidates[j]).compatible,
{
    lemma_first_is_first(candidates, Wanted::Format(preferred));
    lemma_first_is_first(candidates, Wanted::Any);
    lemma_first_by_priority(candidates, 0);
    lemma_selection_is_compatible(candidates, preferred);
    if selection(candidates, preferred) is None {
        assert forall|j: int| 0 <= j < candidates.len() implies !(
        #[trigger] candidates[j]).compatible by {
            assert(!Wanted::Any.admits(candidates[j]));
        }
    }
}

/// The preferred format is sticky: where a compatible asset has it, the
/// first such asset is selected, whatever else the release offers.
pub proof fn lemma_preferred_format_wins(
    candidates: Seq<Candidate>,
    preferred: InstallType,
    i: int,
)
    requires
        0 <= i < candidates.len(),
        candidates[i].compatible,
        candidates[i].format == Some(preferred),
    ensures
        selection(candidates, Some(preferred)) is Some,
        candidates[selection(candidates, Some(preferred))->0].format == Some(preferred),
        selection(candidates, Some(preferred))->0 <= i,
{
    lemma_first_exists(candidates, Wanted::Format(Some(preferred)), i);
}

/// Without a preferred format among the compatible assets, the order of
/// preference decides: the selected asset has a format wherever some
/// compatible asset has one, and no compatible asset has a better one.
pub proof fn lemma_best_format_wins(candidates: Seq<Candidate>, preferred: Option<InstallType>)
    requires
        preferred is Some ==> forall|j: int|
            0 <= j < candidates.len() && (#[trigger] candidates[j]).compatible
                ==> candidates[j].format != preferred,
    ensures
        selection(candidates, preferred) == selection(candidates, None),
        forall|j: int|
            0 <= j < candidates.len() && (#[trigger] candidates[j]).compatible
                && candidates[j].format is Some ==> {
                let chosen = candidates[selection(candidates, preferred)->0];
                &&& selection(candidates, preferred) is Some
                &&& chosen.format is Some
                &&& rank_of(chosen.format->0) <= rank_of(candidates[j].format->0)
            },
{
    lemma_first_is_first(candidates, Wanted::Format(preferred));
    lemma_first_by_priority(candidates, 0);
}

/// An asset whose name marks it for Windows or macOS is never selected,
/// whatever its architecture and format.
pub proof fn lemma_other_system_is_excluded(
    assets: Seq<ReleaseAsset>,
    arch: Seq<char>,
    preferred: Option<InstallType>,
    i: int,
)
    requires
        0 <= i < assets.len(),
        names_other_system(assets[i].lower_name()),
    ensures
        selection(candidates_of(assets, arch), preferred) != Some(i),
{
    lemma_selection_is_compatible(candidates_of(assets, arch), preferred);
}

} // verus!
