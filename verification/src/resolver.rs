//! The cache resolver: given a provider, decide which local file is the
//! authoritative "latest" copy of its data. Remote mode plans around the
//! remotely reported version and the state of the cache; offline-scan mode
//! ranks what the cache directory already holds, ignoring every file that
//! does not follow the source's naming convention.

use vstd::prelude::*;
use vstd::pervasive::unreached;

use crate::errors::DownloadError;
use crate::errors::FetchError;
use crate::errors::ResolveError;
use crate::naming;
use crate::provider::DataProvider;
use crate::storage::join_path;
use crate::storage::joined_path_spec;
use crate::versioning::VersionOrder;
use crate::versioning::lemma_lex_le_refl;
use crate::versioning::lemma_lex_le_total;
use crate::versioning::lemma_lex_le_trans;
use crate::versioning::lex_le;
use crate::versioning::lex_le_str;

verus! {

/// The version a conforming file name carries.
pub open spec fn spec_version_of(p: DataProvider, name: Seq<char>) -> Seq<char> {
    naming::extract_version_spec(
        p.spec_src_name(),
        p.spec_file_type(),
        p.spec_versioner(),
        name,
    ).unwrap()
}

/// The conformance test, as a predicate value for filtering.
pub open spec fn conform_pred(p: DataProvider) -> spec_fn(Seq<char>) -> bool {
    |name: Seq<char>| p.spec_conforms(name)
}

/// The entries of a directory listing that follow the source's convention,
/// in listing order.
pub open spec fn conforming_entries(p: DataProvider, entries: Seq<Seq<char>>) -> Seq<Seq<char>> {
    entries.filter(conform_pred(p))
}

/// Unfolds `filter` over one appended element.
proof fn lemma_filter_push<A>(s: Seq<A>, pred: spec_fn(A) -> bool, x: A)
    ensures
        s.push(x).filter(pred) == if pred(x) {
            s.filter(pred).push(x)
        } else {
            s.filter(pred)
        },
{
    reveal(Seq::filter);
    assert(s.push(x).drop_last() =~= s);
}

/// Keeps exactly the entries that follow the source's convention, in
/// listing order; no unrelated entry ever fails the scan.
pub fn matching_entries(p: &DataProvider, entries: &Vec<String>) -> (r: Vec<String>)
    ensures
        r.deep_view() == conforming_entries(*p, entries.deep_view()),
{
    let mut out: Vec<String> = Vec::new();
    proof {
        reveal(Seq::filter);
        assert(entries.deep_view().subrange(0, 0) =~= Seq::<Seq<char>>::empty());
    }
    let mut i: usize = 0;
    while i < entries.len()
        invariant
            0 <= i <= entries@.len(),
            entries.deep_view().len() == entries@.len(),
            out.deep_view() == conforming_entries(*p, entries.deep_view().subrange(0, i as int)),
        decreases entries@.len() - i,
    {
        let ghost old_out = out.deep_view();
        let ghost prefix = entries.deep_view().subrange(0, i as int);
        let name = &entries[i];
        proof {
            assert(entries.deep_view()[i as int] == entries@[i as int]@);
        }
        let keep = match p.parse_version(name.as_str()) {
            Ok(_) => true,
            Err(_) => false,
        };
        if keep {
            out.push(name.clone());
        }
        proof {
            lemma_filter_push(prefix, conform_pred(*p), entries.deep_view()[i as int]);
            assert(entries.deep_view().subrange(0, i + 1) =~= prefix.push(
                entries.deep_view()[i as int],
            ));
            if keep {
                assert(out.deep_view() =~= old_out.push(name@));
            }
        }
        i += 1;
    }
    proof {
        assert(entries.deep_view().subrange(0, entries.deep_view().len() as int) =~= entries
            .deep_view());
    }
    out
}

/// Parses the version of a name known to conform.
pub(crate) fn version_of(p: &DataProvider, name: &str) -> (r: String)
    requires
        p.spec_conforms(name@),
    ensures
        r@ == spec_version_of(*p, name@),
{
    match p.parse_version(name) {
        Ok(v) => v,
        Err(_) => unreached(),
    }
}

/// Picks the entry carrying the latest version under lexicographic order:
/// its version ranks no earlier than every listed entry's version.
pub fn select_latest(p: &DataProvider, names: &Vec<String>) -> (r: String)
    requires
        names@.len() > 0,
        forall|k: int|
            0 <= k < names.deep_view().len() ==> p.spec_conforms(#[trigger] names.deep_view()[k]),
    ensures
        names.deep_view().contains(r@),
        p.spec_conforms(r@),
        forall|k: int|
            0 <= k < names.deep_view().len() ==> lex_le(
                spec_version_of(*p, #[trigger] names.deep_view()[k]),
                spec_version_of(*p, r@),
            ),
{
    proof {
        assert(names.deep_view()[0] == names@[0]@);
    }
    let mut best: String = names[0].clone();
    let mut best_version: String = version_of(p, best.as_str());
    proof {
        lemma_lex_le_refl(best_version@);
    }
    let mut i: usize = 1;
    while i < names.len()
        invariant
            1 <= i <= names@.len(),
            names.deep_view().len() == names@.len(),
            forall|k: int|
                0 <= k < names.deep_view().len() ==> p.spec_conforms(
                    #[trigger] names.deep_view()[k],
                ),
            names.deep_view().contains(best@),
            p.spec_conforms(best@),
            best_version@ == spec_version_of(*p, best@),
            forall|k: int|
                0 <= k < i ==> lex_le(
                    spec_version_of(*p, #[trigger] names.deep_view()[k]),
                    best_version@,
                ),
        decreases names@.len() - i,
    {
        let cand = &names[i];
        proof {
            assert(names.deep_view()[i as int] == names@[i as int]@);
        }
        let cand_version = version_of(p, cand.as_str());
        if lex_le_str(best_version.as_str(), cand_version.as_str()) {
            proof {
                assert forall|k: int| 0 <= k < i implies lex_le(
                    spec_version_of(*p, #[trigger] names.deep_view()[k]),
                    cand_version@,
                ) by {
                    lemma_lex_le_trans(
                        spec_version_of(*p, names.deep_view()[k]),
                        best_version@,
                        cand_version@,
                    );
                }
                lemma_lex_le_refl(cand_version@);
            }
            best = cand.clone();
            best_version = cand_version;
        } else {
            proof {
                lemma_lex_le_total(best_version@, cand_version@);
            }
        }
        i += 1;
    }
    best
}

/// Offline-scan resolution: among the directory's entries, exactly the
/// conforming ones count; with none of them the cache holds no local data;
/// with several and no declared order no file may silently win.
pub fn offline_scan(p: &DataProvider, entries: &Vec<String>) -> (r: Result<String, ResolveError>)
    ensures
        ({
            let conf = conforming_entries(*p, entries.deep_view());
            match r {
                Ok(name) => {
                    &&& conf.contains(name@)
                    &&& p.spec_conforms(name@)
                    &&& forall|k: int|
                        0 <= k < conf.len() ==> lex_le(
                            spec_version_of(*p, #[trigger] conf[k]),
                            spec_version_of(*p, name@),
                        )
                },
                Err(e) => match e {
                    ResolveError::NoLocalData => conf.len() == 0,
                    ResolveError::AmbiguousOrNoComparator => p.spec_versioner().spec_comparator()
                        is None && conf.len() > 1,
                    _ => false,
                },
            }
        }),
{
    let matched = matching_entries(p, entries);
    if matched.len() == 0 {
        return Err(ResolveError::NoLocalData);
    }
    proof {
        assert forall|k: int| 0 <= k < matched.deep_view().len() implies p.spec_conforms(
            #[trigger] matched.deep_view()[k],
        ) by {
            entries.deep_view().lemma_filter_pred(conform_pred(*p), k);
        }
    }
    let versioner = p.get_versioner();
    match versioner.comparator() {
        Some(VersionOrder::Lexicographic) => {
            let best = select_latest(p, &matched);
            Ok(best)
        },
        None => {
            if matched.len() == 1 {
                proof {
                    assert(matched.deep_view()[0] == matched@[0]@);
                    lemma_lex_le_refl(spec_version_of(*p, matched.deep_view()[0]));
                }
                Ok(matched[0].clone())
            } else {
                Err(ResolveError::AmbiguousOrNoComparator)
            }
        },
    }
}

/// A remote-mode resolution plan: the version the source reported, the
/// canonical file name it resolves to, and whether a download is owed.
pub struct RemotePlan {
    pub version: String,
    pub file_name: String,
    pub needs_download: bool,
}

/// What a remote-mode plan holds once the source reported `version`: the
/// canonical file name for that version, and a download exactly when the
/// caller asked for a refresh or the cache misses.
pub open spec fn remote_plan_spec(
    p: DataProvider,
    version: Seq<char>,
    cached_exists: bool,
    refresh: bool,
    plan: RemotePlan,
) -> bool {
    &&& plan.version@ == version
    &&& plan.file_name@ == naming::canonical_name_spec(
        p.spec_src_name(),
        version,
        p.spec_file_type(),
    )
    &&& plan.needs_download == (refresh || !cached_exists)
}

/// Remote-mode resolution, first step: turns the remotely discovered
/// version — or its failure — into a plan. A fetch failure resolves
/// nothing; a reported version resolves to its canonical file name, with a
/// download owed exactly when `refresh` is set or no cached copy exists.
pub fn plan_remote(
    p: &DataProvider,
    remote_version: Result<String, FetchError>,
    cached_exists: bool,
    refresh: bool,
) -> (r: Result<RemotePlan, ResolveError>)
    ensures
        match remote_version {
            Ok(v) => r matches Ok(plan) && remote_plan_spec(*p, v@, cached_exists, refresh, plan),
            Err(e) => r matches Err(err) && err == ResolveError::Fetch(e),
        },
{
    match remote_version {
        Ok(v) => {
            let file_name = p.file_name(v.as_str());
            Ok(RemotePlan { version: v, file_name, needs_download: refresh || !cached_exists })
        },
        Err(e) => Err(ResolveError::Fetch(e)),
    }
}

/// Remote-mode resolution, last step: a completed (or skipped) transfer
/// resolves to the planned file's path inside the source's cache directory;
/// a failed transfer propagates as a download failure and resolves to no
/// path at all.
pub fn finish_remote(plan: &RemotePlan, dir_path: &str, download_outcome: Result<
    (),
    DownloadError,
>) -> (r: Result<String, ResolveError>)
    ensures
        match download_outcome {
            Ok(u) => r matches Ok(path) && path@ == joined_path_spec(dir_path@, plan.file_name@),
            Err(e) => r matches Err(err) && err == ResolveError::Download(e),
        },
{
    match download_outcome {
        Ok(_) => Ok(join_path(dir_path, plan.file_name.as_str())),
        Err(e) => Err(ResolveError::Download(e)),
    }
}

/// Remote-mode resolution is idempotent: once a first resolution has put
/// the file for the reported version in place, a second plan made with the
/// same reported version, the cached copy now present and no refresh asked
/// names the very same file and owes no download.
pub proof fn lemma_remote_resolution_idempotent(
    p: DataProvider,
    version: Seq<char>,
    first_cached: bool,
    first: RemotePlan,
    second: RemotePlan,
)
    requires
        remote_plan_spec(p, version, first_cached, false, first),
        remote_plan_spec(p, version, true, false, second),
    ensures
        second.file_name@ == first.file_name@,
        !second.needs_download,
{
}

/// Offline resolution is deterministic: at most one file of the cache
/// directory is ever treated as the authoritative latest. Any two
/// conforming entries whose versions both rank no earlier than every
/// conforming entry's version are the same entry.
pub proof fn lemma_offline_selection_deterministic(
    p: DataProvider,
    entries: Seq<Seq<char>>,
    a: Seq<char>,
    b: Seq<char>,
)
    requires
        conforming_entries(p, entries).contains(a),
        conforming_entries(p, entries).contains(b),
        forall|k: int|
            0 <= k < conforming_entries(p, entries).len() ==> lex_le(
                spec_version_of(p, #[trigger] conforming_entries(p, entries)[k]),
                spec_version_of(p, a),
            ),
        forall|k: int|
            0 <= k < conforming_entries(p, entries).len() ==> lex_le(
                spec_version_of(p, #[trigger] conforming_entries(p, entries)[k]),
                spec_version_of(p, b),
            ),
    ensures
        a == b,
{
    let conf = conforming_entries(p, entries);
    let ia = choose|i: int| 0 <= i < conf.len() && conf[i] == a;
    let ib = choose|i: int| 0 <= i < conf.len() && conf[i] == b;
    entries.lemma_filter_pred(conform_pred(p), ia);
    entries.lemma_filter_pred(conform_pred(p), ib);
    crate::versioning::lemma_lex_le_antisymmetric(spec_version_of(p, a), spec_version_of(p, b));
    naming::lemma_conforming_name_is_canonical(
        p.spec_src_name(),
        p.spec_file_type(),
        p.spec_versioner(),
        a,
    );
    naming::lemma_conforming_name_is_canonical(
        p.spec_src_name(),
        p.spec_file_type(),
        p.spec_versioner(),
        b,
    );
}

/// Remote resolution is deterministic: two plans made from the same
/// reported version and the same cache state agree in every part.
pub proof fn lemma_remote_plan_deterministic(
    p: DataProvider,
    version: Seq<char>,
    cached_exists: bool,
    refresh: bool,
    plan1: RemotePlan,
    plan2: RemotePlan,
)
    requires
        remote_plan_spec(p, version, cached_exists, refresh, plan1),
        remote_plan_spec(p, version, cached_exists, refresh, plan2),
    ensures
        plan1.version@ == plan2.version@,
        plan1.file_name@ == plan2.file_name@,
        plan1.needs_download == plan2.needs_download,
{
}

/// A refresh always forces the fetch/download cycle, whatever the cache
/// already held.
pub proof fn lemma_refresh_forces_download(
    p: DataProvider,
    version: Seq<char>,
    cached_exists: bool,
    plan: RemotePlan,
)
    requires
        remote_plan_spec(p, version, cached_exists, true, plan),
    ensures
        plan.needs_download,
{
}

} // verus!
