//! Installs the packages named by a manifest: manifest text is parsed into
//! package specifications, each package's outer archive is fetched, unpacked
//! through two archive layers into an installation tree, and the per-package
//! outcomes are merged into a single install report.
//!
//! All decisions and data transformations live here, verified. The
//! surrounding process performs the transfers, file writes and task
//! scheduling, hands this library plain values, and carries its results
//! out: each package's pipeline is a pure function from the fetched bytes
//! to the files to place and the outcome to report, so pipelines may run
//! concurrently in any order, and the report is built from their outcomes
//! in whatever order they completed.

use vstd::prelude::*;

pub mod archive;
pub mod download;
pub mod gem_version;
pub mod parser;
pub mod text;
pub mod unpack_gem;
pub mod unpack_tar_gz;

use crate::archive::{gunzip_of, untar_of, ExtractError, FileEntry};
use crate::download::{gem_stem, spec_gem_stem, FetchError};
use crate::parser::{Gem, GemModel};
use crate::text::{join_path, spec_join};
use crate::unpack_gem::{spec_unpack_gem, unpack_gem};
use crate::unpack_tar_gz::{spec_unpack_tar_gz, unpack_tar_gz};

verus! {

/// Why one package's pipeline stopped: its fetch failed, or one of its two
/// extraction stages failed.
#[derive(Clone, Copy, Debug, PartialEq, Eq, Structural)]
pub enum InstallError {
    Fetch(FetchError),
    Extract(ExtractError),
}

/// An embedded manifest found while installing a package: the package's
/// name and where the manifest now lies in the installed tree.
#[derive(Debug)]
pub struct FindGemFileInfo {
    pub gem_name: String,
    pub gemfile_path: String,
}

/// Mathematical value of a [`FindGemFileInfo`].
#[verifier::ext_equal]
pub struct FindGemFileInfoModel {
    pub gem_name: Seq<char>,
    pub gemfile_path: Seq<char>,
}

impl View for FindGemFileInfo {
    type V = FindGemFileInfoModel;

    open spec fn view(&self) -> FindGemFileInfoModel {
        FindGemFileInfoModel { gem_name: self.gem_name@, gemfile_path: self.gemfile_path@ }
    }
}

impl DeepView for FindGemFileInfo {
    type V = FindGemFileInfoModel;

    open spec fn deep_view(&self) -> FindGemFileInfoModel {
        self@
    }
}

/// A package whose pipeline failed, and why.
#[derive(Debug)]
pub struct FailedGemInfo {
    pub gem_name: String,
    pub error: InstallError,
}

/// Mathematical value of a [`FailedGemInfo`].
#[verifier::ext_equal]
pub struct FailedGemInfoModel {
    pub gem_name: Seq<char>,
    pub error: InstallError,
}

impl View for FailedGemInfo {
    type V = FailedGemInfoModel;

    open spec fn view(&self) -> FailedGemInfoModel {
        FailedGemInfoModel { gem_name: self.gem_name@, error: self.error }
    }
}

impl DeepView for FailedGemInfo {
    type V = FailedGemInfoModel;

    open spec fn deep_view(&self) -> FailedGemInfoModel {
        self@
    }
}

/// The install report: the packages installed, the embedded manifests found
/// in them, and the packages whose pipelines failed.
#[derive(Debug)]
pub struct InstallInfo {
    pub install_gems: Vec<String>,
    pub find_gemfiles: Vec<FindGemFileInfo>,
    pub failed_gems: Vec<FailedGemInfo>,
}

/// Mathematical value of an [`InstallInfo`].
#[verifier::ext_equal]
pub struct InstallInfoModel {
    pub install_gems: Seq<Seq<char>>,
    pub find_gemfiles: Seq<FindGemFileInfoModel>,
    pub failed_gems: Seq<FailedGemInfoModel>,
}

impl View for InstallInfo {
    type V = InstallInfoModel;

    open spec fn view(&self) -> InstallInfoModel {
        InstallInfoModel {
            install_gems: self.install_gems.deep_view(),
            find_gemfiles: self.find_gemfiles.deep_view(),
            failed_gems: self.failed_gems.deep_view(),
        }
    }
}

/// How one package's pipeline ended: installed, with its files and a
/// possibly discovered embedded manifest; or failed, with the error.
#[derive(Debug)]
pub enum GemOutcome {
    Installed { gem_name: String, gemfile_path: Option<String>, files: Vec<FileEntry> },
    Failed { gem_name: String, error: InstallError },
}

/// Mathematical value of a [`GemOutcome`].
#[verifier::ext_equal]
pub enum GemOutcomeModel {
    Installed {
        gem_name: Seq<char>,
        gemfile_path: Option<Seq<char>>,
        files: Seq<(Seq<char>, Seq<u8>)>,
    },
    Failed { gem_name: Seq<char>, error: InstallError },
}

impl View for GemOutcome {
    type V = GemOutcomeModel;

    open spec fn view(&self) -> GemOutcomeModel {
        match self {
            GemOutcome::Installed { gem_name, gemfile_path, files } => GemOutcomeModel::Installed {
                gem_name: gem_name@,
                gemfile_path: gemfile_path.deep_view(),
                files: files.deep_view(),
            },
            GemOutcome::Failed { gem_name, error } => GemOutcomeModel::Failed {
                gem_name: gem_name@,
                error: *error,
            },
        }
    }
}

impl DeepView for GemOutcome {
    type V = GemOutcomeModel;

    open spec fn deep_view(&self) -> GemOutcomeModel {
        self@
    }
}

/// The package name an outcome reports on.
pub open spec fn spec_outcome_name(o: GemOutcomeModel) -> Seq<char> {
    match o {
        GemOutcomeModel::Installed { gem_name, .. } => gem_name,
        GemOutcomeModel::Failed { gem_name, .. } => gem_name,
    }
}

/// A fetch result reduced to its mathematical value.
pub open spec fn spec_bytes_result(r: Result<Vec<u8>, FetchError>) -> Result<Seq<u8>, FetchError> {
    match r {
        Ok(b) => Ok(b@),
        Err(e) => Err(e),
    }
}

/// What one package's pipeline yields from its fetched outer archive: the
/// fetch error, the first extraction error, or the installed files and the
/// discovered manifest, under the name `name-version`.
pub open spec fn spec_install_single(
    gem: GemModel,
    fetched: Result<Seq<u8>, FetchError>,
    install_directory: Seq<char>,
) -> GemOutcomeModel {
    let stem = spec_gem_stem(gem);
    match fetched {
        Err(e) => GemOutcomeModel::Failed { gem_name: stem, error: InstallError::Fetch(e) },
        Ok(outer) => match spec_unpack_gem(outer) {
            Err(e) => GemOutcomeModel::Failed { gem_name: stem, error: InstallError::Extract(e) },
            Ok(inner) => match spec_unpack_tar_gz(inner, spec_join(install_directory, stem)) {
                Err(e) => GemOutcomeModel::Failed {
                    gem_name: stem,
                    error: InstallError::Extract(e),
                },
                Ok(unpacked) => GemOutcomeModel::Installed {
                    gem_name: stem,
                    gemfile_path: unpacked.1,
                    files: unpacked.0,
                },
            },
        },
    }
}

/// Runs one package's extraction pipeline on its fetched outer archive: the
/// outer container is unpacked, the inner archive found inside is inflated
/// and unpacked, and the package's files are assigned their destinations
/// under `install_directory/name-version`. A failure at any stage becomes
/// this package's failed outcome and touches no other package.
pub fn install_single_gem(
    gem: &Gem,
    fetched: Result<Vec<u8>, FetchError>,
    install_directory: &str,
) -> (r: GemOutcome)
    ensures
        r@ == spec_install_single(gem@, spec_bytes_result(fetched), install_directory@),
{
    let stem = gem_stem(gem);
    let bytes = match fetched {
        Ok(b) => b,
        Err(e) => {
            return GemOutcome::Failed { gem_name: stem, error: InstallError::Fetch(e) };
        },
    };
    let inner = match unpack_gem(&bytes) {
        Ok(x) => x,
        Err(e) => {
            return GemOutcome::Failed { gem_name: stem, error: InstallError::Extract(e) };
        },
    };
    let target_dir = join_path(install_directory, stem.as_str());
    match unpack_tar_gz(&inner, target_dir.as_str()) {
        Ok(out) => GemOutcome::Installed {
            gem_name: stem,
            gemfile_path: out.gemfile_path,
            files: out.files,
        },
        Err(e) => GemOutcome::Failed { gem_name: stem, error: InstallError::Extract(e) },
    }
}

/// The report built from per-package outcomes, in the order the pipelines
/// completed: each installed package contributes its name (and its embedded
/// manifest, when one was found), each failed package its name and error.
pub open spec fn spec_report(outcomes: Seq<GemOutcomeModel>) -> InstallInfoModel
    decreases outcomes.len(),
{
    if outcomes.len() == 0 {
        InstallInfoModel {
            install_gems: Seq::empty(),
            find_gemfiles: Seq::empty(),
            failed_gems: Seq::empty(),
        }
    } else {
        let r = spec_report(outcomes.drop_last());
        match outcomes.last() {
            GemOutcomeModel::Installed { gem_name, gemfile_path, files } => InstallInfoModel {
                install_gems: r.install_gems.push(gem_name),
                find_gemfiles: match gemfile_path {
                    Some(p) => r.find_gemfiles.push(
                        FindGemFileInfoModel { gem_name, gemfile_path: p },
                    ),
                    None => r.find_gemfiles,
                },
                failed_gems: r.failed_gems,
            },
            GemOutcomeModel::Failed { gem_name, error } => InstallInfoModel {
                install_gems: r.install_gems,
                find_gemfiles: r.find_gemfiles,
                failed_gems: r.failed_gems.push(FailedGemInfoModel { gem_name, error }),
            },
        }
    }
}

/// Merges the per-package outcomes, taken in completion order, into the
/// install report. Exactly the installed packages appear under
/// `install_gems`, exactly the failures under `failed_gems`, and every
/// discovered manifest under `find_gemfiles`.
pub fn install_gems(outcomes: &Vec<GemOutcome>) -> (r: InstallInfo)
    ensures
        r@ == spec_report(outcomes.deep_view()),
{
    let ghost all = outcomes.deep_view();
    let mut installed: Vec<String> = Vec::new();
    let mut gemfiles: Vec<FindGemFileInfo> = Vec::new();
    let mut failed: Vec<FailedGemInfo> = Vec::new();
    let mut i: usize = 0;
    proof {
        assert(all.take(0) =~= Seq::<GemOutcomeModel>::empty());
        assert(spec_report(all.take(0)) =~~= (InstallInfoModel {
            install_gems: installed.deep_view(),
            find_gemfiles: gemfiles.deep_view(),
            failed_gems: failed.deep_view(),
        }));
    }
    while i < outcomes.len()
        invariant
            i <= outcomes.len(),
            outcomes.deep_view() == all,
            spec_report(all.take(i as int)) == (InstallInfoModel {
                install_gems: installed.deep_view(),
                find_gemfiles: gemfiles.deep_view(),
                failed_gems: failed.deep_view(),
            }),
        decreases outcomes.len() - i,
    {
        proof {
            assert(all.take(i as int + 1).drop_last() =~= all.take(i as int));
            assert(all.take(i as int + 1).last() == all[i as int]);
            assert(all[i as int] == outcomes@[i as int]@);
        }
        match &outcomes[i] {
            GemOutcome::Installed { gem_name, gemfile_path, files: _ } => {
                let ghost prev_installed = installed.deep_view();
                let ghost prev_gemfiles = gemfiles.deep_view();
                let name = gem_name.clone();
                installed.push(name);
                proof {
                    assert(installed.deep_view() =~~= prev_installed.push(gem_name@));
                }
                match gemfile_path {
                    Some(p) => {
                        let info = FindGemFileInfo {
                            gem_name: gem_name.clone(),
                            gemfile_path: p.clone(),
                        };
                        let ghost info_model = info@;
                        gemfiles.push(info);
                        proof {
                            assert(gemfiles.deep_view() =~~= prev_gemfiles.push(info_model));
                        }
                    },
                    None => {},
                }
                proof {
                    assert(spec_report(all.take(i as int + 1)) =~~= (InstallInfoModel {
                        install_gems: installed.deep_view(),
                        find_gemfiles: gemfiles.deep_view(),
                        failed_gems: failed.deep_view(),
                    }));
                }
            },
            GemOutcome::Failed { gem_name, error } => {
                let ghost prev_failed = failed.deep_view();
                let info = FailedGemInfo { gem_name: gem_name.clone(), error: *error };
                let ghost info_model = info@;
                failed.push(info);
                proof {
                    assert(failed.deep_view() =~~= prev_failed.push(info_model));
                    assert(spec_report(all.take(i as int + 1)) =~~= (InstallInfoModel {
                        install_gems: installed.deep_view(),
                        find_gemfiles: gemfiles.deep_view(),
                        failed_gems: failed.deep_view(),
                    }));
                }
            },
        }
        i = i + 1;
    }
    proof {
        assert(all.take(outcomes@.len() as int) =~= all);
    }
    InstallInfo { install_gems: installed, find_gemfiles: gemfiles, failed_gems: failed }
}

/// A run in which every pipeline succeeded is recorded completely and in
/// completion order: one installed entry per outcome, carrying its name.
pub proof fn lemma_all_installed_report(outcomes: Seq<GemOutcomeModel>)
    requires
        forall|i: int| 0 <= i < outcomes.len() ==> outcomes[i] is Installed,
    ensures
        spec_report(outcomes).install_gems.len() == outcomes.len(),
        forall|i: int|
            0 <= i < outcomes.len() ==> spec_report(outcomes).install_gems[i]
                == spec_outcome_name(outcomes[i]),
    decreases outcomes.len(),
{
    if outcomes.len() > 0 {
        assert(forall|i: int|
            0 <= i < outcomes.drop_last().len() ==> outcomes.drop_last()[i] == outcomes[i]);
        lemma_all_installed_report(outcomes.drop_last());
    }
}

/// Installing N independent, valid packages concurrently records exactly N
/// entries — none missing, none duplicated — whatever order the pipelines
/// completed in: the installed names are, as a set, exactly the outcome
/// names, and pairwise distinct names stay pairwise distinct.
pub proof fn lemma_concurrent_install_exact(outcomes: Seq<GemOutcomeModel>)
    requires
        forall|i: int| 0 <= i < outcomes.len() ==> outcomes[i] is Installed,
        forall|i: int, j: int|
            0 <= i < j < outcomes.len() ==> spec_outcome_name(outcomes[i]) != spec_outcome_name(
                outcomes[j],
            ),
    ensures
        spec_report(outcomes).install_gems.len() == outcomes.len(),
        forall|i: int, j: int|
            0 <= i < j < outcomes.len() ==> spec_report(outcomes).install_gems[i] != spec_report(
                outcomes,
            ).install_gems[j],
        spec_report(outcomes).install_gems.to_set() == outcomes.map_values(
            |o: GemOutcomeModel| spec_outcome_name(o),
        ).to_set(),
{
    lemma_all_installed_report(outcomes);
    assert(spec_report(outcomes).install_gems =~= outcomes.map_values(
        |o: GemOutcomeModel| spec_outcome_name(o),
    ));
}

proof fn lemma_installed_name_carries_over(
    o1: Seq<GemOutcomeModel>,
    o2: Seq<GemOutcomeModel>,
    x: Seq<char>,
)
    requires
        forall|i: int| 0 <= i < o1.len() ==> o1[i] is Installed,
        forall|i: int| 0 <= i < o2.len() ==> o2[i] is Installed,
        o1.to_multiset() == o2.to_multiset(),
        spec_report(o1).install_gems.to_set().contains(x),
    ensures
        spec_report(o2).install_gems.to_set().contains(x),
{
    broadcast use vstd::seq_lib::group_to_multiset_ensures;

    lemma_all_installed_report(o1);
    lemma_all_installed_report(o2);
    let names1 = spec_report(o1).install_gems;
    assert(names1.contains(x));
    let i = choose|i: int| 0 <= i < names1.len() && names1[i] == x;
    assert(o1.contains(o1[i]));
    assert(o2.to_multiset().count(o1[i]) > 0);
    assert(o2.contains(o1[i]));
    let j = choose|j: int| 0 <= j < o2.len() && o2[j] == o1[i];
    assert(spec_report(o2).install_gems[j] == x);
    assert(spec_report(o2).install_gems.contains(x));
}

/// The recorded set of installed names does not depend on the order the
/// pipelines completed in: any two completion orders of the same successful
/// outcomes record exactly the same installed names.
pub proof fn lemma_report_order_independent(o1: Seq<GemOutcomeModel>, o2: Seq<GemOutcomeModel>)
    requires
        forall|i: int| 0 <= i < o1.len() ==> o1[i] is Installed,
        forall|i: int| 0 <= i < o2.len() ==> o2[i] is Installed,
        o1.to_multiset() == o2.to_multiset(),
    ensures
        spec_report(o1).install_gems.to_set() == spec_report(o2).install_gems.to_set(),
{
    assert forall|x: Seq<char>|
        spec_report(o1).install_gems.to_set().contains(x)
            implies spec_report(o2).install_gems.to_set().contains(x) by {
        lemma_installed_name_carries_over(o1, o2, x);
    }
    assert forall|x: Seq<char>|
        spec_report(o2).install_gems.to_set().contains(x)
            implies spec_report(o1).install_gems.to_set().contains(x) by {
        lemma_installed_name_carries_over(o2, o1, x);
    }
    assert(spec_report(o1).install_gems.to_set() =~= spec_report(o2).install_gems.to_set());
}

/// The contents of an installation directory, as a map from each file's
/// path to its bytes, after the files are written in order: a later write
/// to the same path wins.
pub open spec fn spec_write_files(files: Seq<(Seq<char>, Seq<u8>)>) -> Map<Seq<char>, Seq<u8>>
    decreases files.len(),
{
    if files.len() == 0 {
        Map::empty()
    } else {
        spec_write_files(files.drop_last()).insert(files.last().0, files.last().1)
    }
}

/// A package's installation resets its directory before writing: whatever
/// the directory held before, afterwards it holds exactly the extracted
/// files.
pub open spec fn spec_dir_after_install(
    prev: Map<Seq<char>, Seq<u8>>,
    files: Seq<(Seq<char>, Seq<u8>)>,
) -> Map<Seq<char>, Seq<u8>> {
    spec_write_files(files)
}

/// Running a package's pipeline twice on the same inputs leaves the install
/// directory exactly as one run does: the pipeline is a function of its
/// inputs, and the destructive reset before each extraction erases whatever
/// an earlier run left.
pub proof fn lemma_install_twice_same_contents(
    gem: GemModel,
    fetched: Result<Seq<u8>, FetchError>,
    install_directory: Seq<char>,
    prev: Map<Seq<char>, Seq<u8>>,
)
    ensures
        spec_install_single(gem, fetched, install_directory) matches GemOutcomeModel::Installed {
            files,
            ..
        } ==> spec_dir_after_install(spec_dir_after_install(prev, files), files)
            == spec_dir_after_install(prev, files),
{
}

pub proof fn lemma_write_files_last_wins(files: Seq<(Seq<char>, Seq<u8>)>, i: int)
    requires
        0 <= i < files.len(),
    ensures
        spec_write_files(files).contains_key(files[i].0),
        (forall|j: int| i < j < files.len() ==> files[j].0 != files[i].0) ==> spec_write_files(
            files,
        )[files[i].0] == files[i].1,
    decreases files.len(),
{
    if i < files.len() - 1 {
        assert(files.drop_last()[i] == files[i]);
        lemma_write_files_last_wins(files.drop_last(), i);
        assert(forall|j: int|
            i < j < files.drop_last().len() ==> files.drop_last()[j] == files[j]);
    }
}

pub proof fn lemma_join_injective(dir: Seq<char>, a: Seq<char>, b: Seq<char>)
    requires
        spec_join(dir, a) == spec_join(dir, b),
    ensures
        a == b,
{
    assert(spec_join(dir, a).len() == dir.len() + 1 + a.len());
    assert(spec_join(dir, b).len() == dir.len() + 1 + b.len());
    assert forall|k: int| 0 <= k < a.len() implies a[k] == b[k] by {
        assert(spec_join(dir, a)[dir.len() + 1 + k] == a[k]);
        assert(spec_join(dir, b)[dir.len() + 1 + k] == b[k]);
    }
    assert(a =~= b);
}

/// Round trip through both archive layers: when the outer archive unpacks
/// to an inner archive whose tar stream holds `entries`, the installed tree
/// holds every entry's bytes, byte for byte, at its expected destination
/// under the install directory (for a path repeated in the tar, the last
/// occurrence wins, as when the entries are written in order).
pub proof fn lemma_extract_round_trip(
    outer: Seq<u8>,
    dir: Seq<char>,
    inner: Seq<u8>,
    tar_bytes: Seq<u8>,
    entries: Seq<(Seq<char>, Seq<u8>)>,
    i: int,
)
    requires
        spec_unpack_gem(outer) == Ok::<Seq<u8>, ExtractError>(inner),
        gunzip_of(inner) == Some(tar_bytes),
        untar_of(tar_bytes) == Some(entries),
        0 <= i < entries.len(),
        forall|j: int| i < j < entries.len() ==> entries[j].0 != entries[i].0,
    ensures
        spec_unpack_tar_gz(inner, dir) is Ok,
        spec_write_files(spec_unpack_tar_gz(inner, dir)->Ok_0.0).contains_key(
            spec_join(dir, entries[i].0),
        ),
        spec_write_files(spec_unpack_tar_gz(inner, dir)->Ok_0.0)[spec_join(dir, entries[i].0)]
            == entries[i].1,
{
    let files = spec_unpack_tar_gz(inner, dir)->Ok_0.0;
    assert(files.len() == entries.len());
    assert(files[i].0 == spec_join(dir, entries[i].0) && files[i].1 == entries[i].1);
    assert forall|j: int| i < j < files.len() implies files[j].0 != files[i].0 by {
        if files[j].0 == files[i].0 {
            lemma_join_injective(dir, entries[j].0, entries[i].0);
        }
    }
    lemma_write_files_last_wins(files, i);
}

} // verus!
