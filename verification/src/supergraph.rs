//! Supergraph configurations at their three resolution depths, and the
//! error-aggregating fan-out that moves a configuration from one depth to the
//! next.
//!
//! Resolution never stops at the first failing subgraph: every per-subgraph
//! error is collected, and a configuration resolves only when the error list
//! is empty.  Federation versions are reconciled at the end: an unspecified
//! version is inferred from the subgraphs, and a pinned first-tier version is
//! rejected with the full list of second-tier subgraphs.

use vstd::prelude::*;

use crate::effects::{FetchRemoteSubgraph, IntrospectSubgraph, ReadFile, ResolveFilePath};
use crate::errors::{ResolveSubgraphError, ResolveSupergraphConfigError};
use crate::federation::{sdl_is_fed_two, FederationVersion};
use crate::graph_ref::graph_ref_parts;
use crate::name_map::{entries_view, entry_names, NameMap};
use crate::subgraph::{FullyResolvedSubgraph, LazilyResolvedSubgraph, SchemaSource,
    SubgraphConfig, UnresolvedSubgraph};

verus! {

/// The errors of a sequence of per-subgraph outcomes, in input order.
pub open spec fn error_list<T>(s: Seq<Result<T, ResolveSubgraphError>>) -> Seq<
    ResolveSubgraphError,
>
    decreases s.len(),
{
    if s.len() == 0 {
        Seq::empty()
    } else {
        error_list(s.drop_last()) + (match s.last() {
            Ok(_) => Seq::<ResolveSubgraphError>::empty(),
            Err(e) => seq![e],
        })
    }
}

/// How many of a sequence of per-subgraph outcomes failed.
pub open spec fn failure_count<T>(s: Seq<Result<T, ResolveSubgraphError>>) -> int
    decreases s.len(),
{
    if s.len() == 0 {
        0
    } else {
        failure_count(s.drop_last()) + (if s.last() is Err {
            1int
        } else {
            0int
        })
    }
}

/// The outcomes of a sequence of named per-subgraph results.
pub open spec fn result_values<T>(s: Seq<(String, Result<T, ResolveSubgraphError>)>) -> Seq<
    Result<T, ResolveSubgraphError>,
> {
    s.map_values(|p: (String, Result<T, ResolveSubgraphError>)| p.1)
}

/// Resolving K subgraphs of which M fail aggregates exactly M errors: the
/// error list holds one entry per failing outcome, never just the first.
pub proof fn lemma_errors_aggregate<T>(s: Seq<Result<T, ResolveSubgraphError>>)
    ensures
        error_list(s).len() == failure_count(s),
    decreases s.len(),
{
    if s.len() > 0 {
        lemma_errors_aggregate(s.drop_last());
    }
}

/// A registry-sourced schema whose reference is ill-formed: the one failure
/// the library itself decides, before any capability is asked.
pub open spec fn has_invalid_remote_ref(s: SchemaSource) -> bool {
    s matches SchemaSource::Subgraph { graphref, .. } && graph_ref_parts(graphref@) is None
}

/// A registry-sourced schema whose ill-formed reference is exactly `g`.
pub open spec fn invalid_remote_ref_is(s: SchemaSource, g: String) -> bool {
    s matches SchemaSource::Subgraph { graphref, .. } && graphref == g && graph_ref_parts(g@)
        is None
}

/// Every subgraph's schema is inline SDL: nothing outside the library decides
/// its resolution.
pub open spec fn all_inline(s: Seq<(Seq<char>, UnresolvedSubgraph)>) -> bool {
    forall|i: int| 0 <= i < s.len() ==> (#[trigger] s[i]).1.schema is Sdl
}

/// No inline schema carries a `link` directive on a top-level schema
/// definition or extension.
pub open spec fn no_inline_fed_two(s: Seq<(Seq<char>, UnresolvedSubgraph)>) -> bool {
    forall|i: int|
        0 <= i < s.len() ==> match (#[trigger] s[i]).1.schema {
            SchemaSource::Sdl { sdl } => !sdl_is_fed_two(sdl@),
            _ => true,
        }
}

/// An error is aggregated exactly when some outcome failed with it.
pub proof fn lemma_error_list_membership<T>(s: Seq<Result<T, ResolveSubgraphError>>)
    ensures
        forall|e: ResolveSubgraphError|
            #[trigger] error_list(s).contains(e) <==> exists|i: int|
                0 <= i < s.len() && s[i] == Err::<T, ResolveSubgraphError>(e),
    decreases s.len(),
{
    if s.len() > 0 {
        lemma_error_list_membership(s.drop_last());
        let d = s.drop_last();
        assert forall|e: ResolveSubgraphError|
            #[trigger] error_list(s).contains(e) <==> exists|i: int|
                0 <= i < s.len() && s[i] == Err::<T, ResolveSubgraphError>(e) by {
            if error_list(s).contains(e) {
                if error_list(d).contains(e) {
                    let i = choose|i: int|
                        0 <= i < d.len() && d[i] == Err::<T, ResolveSubgraphError>(e);
                    assert(s[i] == Err::<T, ResolveSubgraphError>(e));
                } else {
                    let j = choose|j: int|
                        0 <= j < error_list(s).len() && error_list(s)[j] == e;
                    if j < error_list(d).len() {
                        assert(error_list(s)[j] == error_list(d)[j]);
                        assert(error_list(d).contains(e));
                    } else {
                        assert(s.last() == Err::<T, ResolveSubgraphError>(e));
                        assert(s[s.len() - 1] == Err::<T, ResolveSubgraphError>(e));
                    }
                }
            }
            if exists|i: int| 0 <= i < s.len() && s[i] == Err::<T, ResolveSubgraphError>(e) {
                let i = choose|i: int|
                    0 <= i < s.len() && s[i] == Err::<T, ResolveSubgraphError>(e);
                if i < s.len() - 1 {
                    assert(d[i] == Err::<T, ResolveSubgraphError>(e));
                    assert(error_list(d).contains(e));
                    let j = choose|j: int|
                        0 <= j < error_list(d).len() && error_list(d)[j] == e;
                    assert(error_list(s)[j] == e);
                } else {
                    assert(error_list(s).last() == e);
                }
            }
        }
    }
}

/// A run with no failing outcome aggregates no error at all.
pub proof fn lemma_no_failures_no_errors<T>(s: Seq<Result<T, ResolveSubgraphError>>)
    requires
        forall|i: int| 0 <= i < s.len() ==> s[i] is Ok,
    ensures
        error_list(s).len() == 0,
    decreases s.len(),
{
    if s.len() > 0 {
        assert(forall|i: int| 0 <= i < s.drop_last().len() ==> s.drop_last()[i] is Ok);
        lemma_no_failures_no_errors(s.drop_last());
    }
}

/// Splits named per-subgraph outcomes into all successes or all failures:
/// succeeds with every entry, in order and under its name, exactly when no
/// outcome failed; fails with exactly the failing outcomes' errors, in order,
/// otherwise.
pub fn collect_resolved<T: View>(results: Vec<(String, Result<T, ResolveSubgraphError>)>) -> (r:
    Result<Vec<(String, T)>, Vec<ResolveSubgraphError>>)
    ensures
        match r {
            Ok(entries) => error_list(result_values(results@)).len() == 0 && entries@.len()
                == results@.len() && forall|i: int|
                0 <= i < results@.len() ==> entries@[i].0 == results@[i].0 && results@[i].1
                    == Ok::<T, ResolveSubgraphError>(entries@[i].1),
            Err(errs) => errs@ == error_list(result_values(results@)) && errs@.len() > 0,
        },
{
    let ghost s0 = results@;
    let mut rest = results;
    let mut entries: Vec<(String, T)> = Vec::new();
    let mut errs: Vec<ResolveSubgraphError> = Vec::new();
    while rest.len() > 0
        invariant
            rest@ =~= s0.skip(s0.len() - rest@.len()),
            rest@.len() <= s0.len(),
            errs@ == error_list(result_values(s0.take(s0.len() - rest@.len()))),
            errs@.len() == 0 ==> entries@.len() == s0.len() - rest@.len() && forall|i: int|
                0 <= i < entries@.len() ==> entries@[i].0 == s0[i].0 && s0[i].1 == Ok::<
                    T,
                    ResolveSubgraphError,
                >(entries@[i].1),
        decreases rest@.len(),
    {
        let ghost k = s0.len() - rest@.len();
        let ghost prev = rest@;
        let (name, outcome) = rest.remove(0);
        proof {
            assert(s0.skip(k)[0] == s0[k]);
            assert(rest@ =~= s0.skip(k + 1));
            assert(s0.take(k + 1).drop_last() =~= s0.take(k));
            assert(s0.take(k + 1).last() == s0[k]);
            assert(result_values(s0.take(k + 1)).drop_last() =~= result_values(s0.take(k)));
            assert(result_values(s0.take(k + 1)).last() == s0[k].1);
        }
        match outcome {
            Ok(v) => {
                if errs.len() == 0 {
                    entries.push((name, v));
                }
            }
            Err(e) => {
                errs.push(e);
            }
        }
    }
    proof {
        assert(s0.take(s0.len() as int) =~= s0);
    }
    if errs.len() == 0 {
        Ok(entries)
    } else {
        Err(errs)
    }
}

/// The names of the second-tier subgraphs of a configuration, in name order.
pub open spec fn fed_two_names(s: Seq<(Seq<char>, FullyResolvedSubgraph)>) -> Seq<Seq<char>>
    decreases s.len(),
{
    if s.len() == 0 {
        Seq::empty()
    } else {
        fed_two_names(s.drop_last()) + (if s.last().1.is_fed_two {
            seq![s.last().0]
        } else {
            Seq::<Seq<char>>::empty()
        })
    }
}

/// The version a configuration gets when the caller specifies none: the
/// second tier when any subgraph is on it, the first otherwise.
pub open spec fn inferred_version(s: Seq<(Seq<char>, FullyResolvedSubgraph)>) -> FederationVersion {
    if fed_two_names(s).len() > 0 {
        FederationVersion::LatestFedTwo
    } else {
        FederationVersion::LatestFedOne
    }
}

/// The second-tier name list is empty exactly when no subgraph is on the
/// second tier, and it holds exactly the names of the second-tier subgraphs.
pub proof fn lemma_fed_two_names(s: Seq<(Seq<char>, FullyResolvedSubgraph)>)
    ensures
        fed_two_names(s).len() > 0 <==> exists|i: int|
            0 <= i < s.len() && s[i].1.is_fed_two,
        forall|n: Seq<char>|
            fed_two_names(s).contains(n) <==> exists|i: int|
                0 <= i < s.len() && s[i].0 == n && #[trigger] s[i].1.is_fed_two,
    decreases s.len(),
{
    if s.len() > 0 {
        lemma_fed_two_names(s.drop_last());
        let d = s.drop_last();
        assert forall|i: int| 0 <= i < d.len() implies d[i] == s[i] by {}
        if fed_two_names(s).len() > 0 {
            if fed_two_names(d).len() > 0 {
                let i = choose|i: int| 0 <= i < d.len() && d[i].1.is_fed_two;
                assert(s[i].1.is_fed_two);
            } else {
                assert(s.last().1.is_fed_two);
                assert(s[s.len() - 1].1.is_fed_two);
            }
        }
        if exists|i: int| 0 <= i < s.len() && s[i].1.is_fed_two {
            let i = choose|i: int| 0 <= i < s.len() && s[i].1.is_fed_two;
            if i < s.len() - 1 {
                assert(d[i].1.is_fed_two);
            }
        }
        assert forall|n: Seq<char>|
            fed_two_names(s).contains(n) <==> exists|i: int|
                0 <= i < s.len() && s[i].0 == n && #[trigger] s[i].1.is_fed_two by {
            if fed_two_names(s).contains(n) {
                if fed_two_names(d).contains(n) {
                    let i = choose|i: int|
                        0 <= i < d.len() && d[i].0 == n && #[trigger] d[i].1.is_fed_two;
                    assert(s[i].0 == n && s[i].1.is_fed_two);
                } else {
                    let j = choose|j: int|
                        0 <= j < fed_two_names(s).len() && fed_two_names(s)[j] == n;
                    if j < fed_two_names(d).len() {
                        assert(fed_two_names(d).contains(n));
                    } else {
                        assert(s.last().0 == n && s.last().1.is_fed_two);
                        assert(s[s.len() - 1].0 == n && s[s.len() - 1].1.is_fed_two);
                    }
                }
            }
            if exists|i: int| 0 <= i < s.len() && s[i].0 == n && #[trigger] s[i].1.is_fed_two {
                let i = choose|i: int|
                    0 <= i < s.len() && s[i].0 == n && #[trigger] s[i].1.is_fed_two;
                if i < s.len() - 1 {
                    assert(d[i].0 == n && d[i].1.is_fed_two);
                    assert(fed_two_names(d).contains(n));
                    let j = choose|j: int|
                        0 <= j < fed_two_names(d).len() && fed_two_names(d)[j] == n;
                    assert(fed_two_names(s)[j] == n);
                } else {
                    assert(fed_two_names(s).last() == n);
                }
            }
        }
    }
}

/// When the caller specifies no federation version, the inferred version is
/// the second tier exactly when some subgraph's schema carries a `link`
/// directive on a top-level schema definition or extension, and the first
/// tier when none does.
pub proof fn lemma_inferred_federation_version(s: Seq<(Seq<char>, FullyResolvedSubgraph)>)
    requires
        forall|i: int|
            0 <= i < s.len() ==> (#[trigger] s[i]).1.is_fed_two == sdl_is_fed_two(
                s[i].1.schema@,
            ),
    ensures
        inferred_version(s) == (if exists|i: int|
            0 <= i < s.len() && sdl_is_fed_two((#[trigger] s[i]).1.schema@) {
            FederationVersion::LatestFedTwo
        } else {
            FederationVersion::LatestFedOne
        }),
{
    lemma_fed_two_names(s);
    if exists|i: int| 0 <= i < s.len() && s[i].1.is_fed_two {
        let i = choose|i: int| 0 <= i < s.len() && s[i].1.is_fed_two;
        assert(sdl_is_fed_two(s[i].1.schema@));
    }
    if exists|i: int| 0 <= i < s.len() && sdl_is_fed_two((#[trigger] s[i]).1.schema@) {
        let i = choose|i: int| 0 <= i < s.len() && sdl_is_fed_two((#[trigger] s[i]).1.schema@);
        assert(s[i].1.is_fed_two);
    }
}

/// Collects the names of the second-tier subgraphs, in name order.
fn collect_fed_two_names(subgraphs: &NameMap<FullyResolvedSubgraph>) -> (r: Vec<String>)
    ensures
        r@.map_values(|n: String| n@) == fed_two_names(subgraphs@),
{
    let ghost s = subgraphs@;
    let n = subgraphs.len();
    let mut out: Vec<String> = Vec::new();
    let mut i: usize = 0;
    while i < n
        invariant
            0 <= i <= n,
            n == s.len(),
            s == subgraphs@,
            out@.map_values(|m: String| m@) == fed_two_names(s.take(i as int)),
        decreases n - i,
    {
        let entry = subgraphs.get_at(i);
        proof {
            assert(s.take(i + 1).drop_last() =~= s.take(i as int));
            assert(s.take(i + 1).last() == s[i as int]);
        }
        if entry.1.is_fed_two {
            out.push(entry.0.clone());
            proof {
                assert(out@.map_values(|m: String| m@) =~= fed_two_names(s.take(i + 1)));
            }
        } else {
            proof {
                assert(out@.map_values(|m: String| m@) =~= fed_two_names(s.take(i + 1)));
            }
        }
        i = i + 1;
    }
    proof {
        assert(s.take(n as int) =~= s);
    }
    out
}

/// Reconciles the caller's federation version with the resolved subgraphs:
/// an unspecified version is inferred; a specified second-tier version is
/// accepted as is; a specified first-tier version is accepted only when no
/// subgraph is on the second tier, and otherwise rejected naming exactly the
/// second-tier subgraphs.
pub fn reconcile_federation_version(
    specified: Option<FederationVersion>,
    subgraphs: &NameMap<FullyResolvedSubgraph>,
) -> (r: Result<FederationVersion, ResolveSupergraphConfigError>)
    ensures
        match specified {
            None => r == Ok::<FederationVersion, ResolveSupergraphConfigError>(
                inferred_version(subgraphs@),
            ),
            Some(v) => {
                if v is LatestFedTwo || fed_two_names(subgraphs@).len() == 0 {
                    r == Ok::<FederationVersion, ResolveSupergraphConfigError>(v)
                } else {
                    r matches Err(ResolveSupergraphConfigError::FederationVersionMismatch {
                        specified_federation_version,
                        subgraph_names,
                    }) && specified_federation_version == v && subgraph_names@.map_values(
                        |n: String| n@,
                    ) == fed_two_names(subgraphs@)
                }
            },
        },
{
    let fed_two = collect_fed_two_names(subgraphs);
    proof {
        assert(fed_two@.map_values(|n: String| n@).len() == fed_two@.len());
    }
    match specified {
        None => {
            if fed_two.len() > 0 {
                Ok(FederationVersion::LatestFedTwo)
            } else {
                Ok(FederationVersion::LatestFedOne)
            }
        }
        Some(v) => {
            if v.is_fed_two() || fed_two.len() == 0 {
                Ok(v)
            } else {
                Err(
                    ResolveSupergraphConfigError::FederationVersionMismatch {
                        specified_federation_version: v,
                        subgraph_names: fed_two,
                    },
                )
            }
        }
    }
}

/// A supergraph configuration as loaded from its external form.
pub struct SupergraphConfig {
    pub subgraphs: NameMap<SubgraphConfig>,
    pub federation_version: Option<FederationVersion>,
}

/// A supergraph configuration before any resolution.
pub struct UnresolvedSupergraphConfig {
    pub origin_path: Option<String>,
    pub subgraphs: NameMap<UnresolvedSubgraph>,
    pub federation_version: Option<FederationVersion>,
}

/// A supergraph configuration whose file paths have been fixed against the
/// configuration root.
pub struct LazilyResolvedSupergraphConfig {
    pub origin_path: Option<String>,
    pub subgraphs: NameMap<LazilyResolvedSubgraph>,
    pub federation_version: Option<FederationVersion>,
}

/// A supergraph configuration resolved down to SDL text, with a reconciled
/// federation version.
pub struct FullyResolvedSupergraphConfig {
    pub subgraphs: NameMap<FullyResolvedSubgraph>,
    pub federation_version: FederationVersion,
}

impl UnresolvedSupergraphConfig {
    /// Builds the unresolved stage from loaded configuration entries, pairing
    /// every entry with the name it is stored under.
    pub fn new(
        origin_path: Option<String>,
        subgraphs: NameMap<SubgraphConfig>,
        federation_version: Option<FederationVersion>,
    ) -> (r: UnresolvedSupergraphConfig)
        requires
            subgraphs.wf(),
        ensures
            r.origin_path == origin_path,
            r.federation_version == federation_version,
            r.subgraphs.wf(),
            r.subgraphs@.len() == subgraphs@.len(),
            forall|i: int|
                0 <= i < subgraphs@.len() ==> (#[trigger] r.subgraphs@[i]).0 == subgraphs@[i].0
                    && r.subgraphs@[i].1.name@ == subgraphs@[i].0 && r.subgraphs@[i].1.schema
                    == subgraphs@[i].1.schema && r.subgraphs@[i].1.routing_url
                    == subgraphs@[i].1.routing_url,
    {
        let ghost s0 = subgraphs@;
        let mut rest = subgraphs.into_entries();
        let mut out: Vec<(String, UnresolvedSubgraph)> = Vec::new();
        while rest.len() > 0
            invariant
                entries_view(rest@) =~= s0.skip(s0.len() - rest@.len()),
                rest@.len() <= s0.len(),
                out@.len() == s0.len() - rest@.len(),
                forall|i: int|
                    0 <= i < out@.len() ==> (#[trigger] out@[i]).0@ == s0[i].0 && out@[i].1.name@
                        == s0[i].0 && out@[i].1.schema == s0[i].1.schema && out@[i].1.routing_url
                        == s0[i].1.routing_url,
            decreases rest@.len(),
        {
            let ghost k = s0.len() - rest@.len();
            let ghost prev = rest@;
            let (name, config) = rest.remove(0);
            proof {
                assert(entries_view(prev)[0] == s0.skip(k)[0]);
                assert(s0.skip(k)[0] == s0[k]);
                assert(name@ == s0[k].0 && config == s0[k].1);
                assert(rest@ =~= prev.skip(1));
                crate::name_map::lemma_entries_view_skip(prev, rest@, s0, k);
            }
            let key = name.clone();
            out.push((key, UnresolvedSubgraph::new(name, config)));
        }
        proof {
            assert(entry_names(entries_view(out@)) =~= entry_names(s0));
        }
        let map = NameMap::from_sorted(out);
        UnresolvedSupergraphConfig { origin_path, subgraphs: map, federation_version }
    }
}

impl LazilyResolvedSupergraphConfig {
    /// Resolves a whole configuration lazily: every file-backed subgraph has
    /// its path fixed against the configuration root; all per-subgraph
    /// failures are aggregated, and the configuration resolves only when
    /// there are none.
    pub fn resolve<P: ResolveFilePath>(
        resolve_file_path_impl: &P,
        supergraph_config_root: &String,
        unresolved_supergraph_config: UnresolvedSupergraphConfig,
    ) -> (r: Result<LazilyResolvedSupergraphConfig, Vec<ResolveSubgraphError>>)
        requires
            unresolved_supergraph_config.subgraphs.wf(),
        ensures
            match r {
                Ok(cfg) => {
                    &&& cfg.origin_path == unresolved_supergraph_config.origin_path
                    &&& cfg.federation_version == unresolved_supergraph_config.federation_version
                    &&& cfg.subgraphs.wf()
                    &&& cfg.subgraphs@.len() == unresolved_supergraph_config.subgraphs@.len()
                    &&& forall|i: int|
                        0 <= i < cfg.subgraphs@.len() ==> (#[trigger] cfg.subgraphs@[i]).0
                            == unresolved_supergraph_config.subgraphs@[i].0
                    &&& forall|i: int|
                        0 <= i < cfg.subgraphs@.len()
                            ==> match unresolved_supergraph_config.subgraphs@[i].1.schema {
                            SchemaSource::File { .. } => (#[trigger] cfg.subgraphs@[i]).1.schema
                                matches SchemaSource::File { .. } && cfg.subgraphs@[i].1.routing_url
                                == unresolved_supergraph_config.subgraphs@[i].1.routing_url,
                            _ => cfg.subgraphs@[i].1 == (LazilyResolvedSubgraph {
                                routing_url:
                                    unresolved_supergraph_config.subgraphs@[i].1.routing_url,
                                schema: unresolved_supergraph_config.subgraphs@[i].1.schema,
                            }),
                        }
                },
                Err(errs) => 1 <= errs@.len()
                    <= unresolved_supergraph_config.subgraphs@.len(),
            },
            // Success is owed when nothing outside the library decides: only
            // file-backed subgraphs touch the path-resolution capability.
            (forall|i: int|
                0 <= i < unresolved_supergraph_config.subgraphs@.len() ==> !((
                #[trigger] unresolved_supergraph_config.subgraphs@[i]).1.schema matches
                    SchemaSource::File { .. })) ==> r is Ok,
    {
        let ghost s0 = unresolved_supergraph_config.subgraphs@;
        let mut rest = unresolved_supergraph_config.subgraphs.into_entries();
        let mut results: Vec<(String, Result<LazilyResolvedSubgraph, ResolveSubgraphError>)> =
            Vec::new();
        while rest.len() > 0
            invariant
                entries_view(rest@) =~= s0.skip(s0.len() - rest@.len()),
                rest@.len() <= s0.len(),
                results@.len() == s0.len() - rest@.len(),
                forall|i: int|
                    0 <= i < results@.len() ==> (#[trigger] results@[i]).0@ == s0[i].0
                        && match s0[i].1.schema {
                        SchemaSource::File { .. } => match results@[i].1 {
                            Ok(l) => l.routing_url == s0[i].1.routing_url && l.schema matches
                                SchemaSource::File { .. },
                            Err(_) => true,
                        },
                        _ => results@[i].1 == Ok::<LazilyResolvedSubgraph, ResolveSubgraphError>(
                            LazilyResolvedSubgraph {
                                routing_url: s0[i].1.routing_url,
                                schema: s0[i].1.schema,
                            },
                        ),
                    },
            decreases rest@.len(),
        {
            let ghost k = s0.len() - rest@.len();
            let ghost prev = rest@;
            let (name, unresolved) = rest.remove(0);
            proof {
                assert(entries_view(prev)[0] == s0.skip(k)[0]);
                assert(s0.skip(k)[0] == s0[k]);
                assert(name@ == s0[k].0 && unresolved == s0[k].1);
                assert(rest@ =~= prev.skip(1));
                crate::name_map::lemma_entries_view_skip(prev, rest@, s0, k);
            }
            let outcome = LazilyResolvedSubgraph::resolve(
                resolve_file_path_impl,
                supergraph_config_root,
                unresolved,
            );
            results.push((name, outcome));
        }
        let ghost rs = results@;
        match collect_resolved(results) {
            Ok(entries) => {
                proof {
                    assert(entry_names(entries_view(entries@)) =~= entry_names(s0));
                }
                let map = NameMap::from_sorted(entries);
                Ok(
                    LazilyResolvedSupergraphConfig {
                        origin_path: unresolved_supergraph_config.origin_path,
                        subgraphs: map,
                        federation_version: unresolved_supergraph_config.federation_version,
                    },
                )
            }
            Err(errs) => {
                proof {
                    crate::supergraph::lemma_errors_aggregate(result_values(rs));
                    lemma_failure_count_bound(result_values(rs));
                    if forall|i: int|
                        0 <= i < s0.len() ==> !((#[trigger] s0[i]).1.schema matches
                            SchemaSource::File { .. }) {
                        assert forall|i: int|
                            0 <= i < result_values(rs).len() implies result_values(rs)[i]
                            is Ok by {
                            assert(result_values(rs)[i] == rs[i].1);
                            assert(!(s0[i].1.schema matches SchemaSource::File { .. }));
                        }
                        lemma_no_failures_no_errors(result_values(rs));
                    }
                }
                Err(errs)
            }
        }
    }

    /// Resolves a whole lazily resolved configuration down to SDL text,
    /// aggregating all per-subgraph failures.
    pub fn extract_subgraphs_as_sdls<I: IntrospectSubgraph, F: FetchRemoteSubgraph, R: ReadFile>(
        self,
        introspect_subgraph_impl: &I,
        fetch_remote_subgraph_impl: &F,
        read_file_impl: &R,
    ) -> (r: Result<NameMap<FullyResolvedSubgraph>, Vec<ResolveSubgraphError>>)
        requires
            self.subgraphs.wf(),
        ensures
            match r {
                Ok(map) => {
                    &&& map.wf()
                    &&& map@.len() == self.subgraphs@.len()
                    &&& forall|i: int|
                        0 <= i < map@.len() ==> (#[trigger] map@[i]).0 == self.subgraphs@[i].0
                    &&& forall|i: int|
                        0 <= i < map@.len() ==> (#[trigger] map@[i]).1.is_fed_two == sdl_is_fed_two(
                            map@[i].1.schema@,
                        )
                    &&& forall|i: int|
                        0 <= i < map@.len()
                            ==> match self.subgraphs@[i].1.schema {
                            SchemaSource::Sdl { sdl } => (#[trigger] map@[i]).1
                                == (FullyResolvedSubgraph {
                                routing_url: None,
                                schema: sdl,
                                is_fed_two: sdl_is_fed_two(sdl@),
                            }),
                            SchemaSource::File { .. } => (#[trigger] map@[i]).1.routing_url
                                == self.subgraphs@[i].1.routing_url,
                            SchemaSource::SubgraphIntrospection { subgraph_url, .. } => (
                            #[trigger] map@[i]).1.routing_url == (
                            match self.subgraphs@[i].1.routing_url {
                                Some(u) => Some(u),
                                None => Some(subgraph_url),
                            }),
                            SchemaSource::Subgraph { .. } => self.subgraphs@[i].1.routing_url
                                is Some ==> (#[trigger] map@[i]).1.routing_url
                                == self.subgraphs@[i].1.routing_url,
                        }
                },
                Err(errs) => 1 <= errs@.len() <= self.subgraphs@.len(),
            },
            // Success is owed when nothing outside the library decides: a
            // configuration of inline schemas alone always resolves.
            (forall|i: int|
                0 <= i < self.subgraphs@.len() ==> (#[trigger] self.subgraphs@[i]).1.schema
                    is Sdl) ==> r is Ok,
            // The one failure the library itself decides, an ill-formed
            // registry reference, is certain, and the aggregated list holds
            // an invalid-reference error exactly for the ill-formed
            // references among the sources.
            (exists|i: int|
                0 <= i < self.subgraphs@.len() && has_invalid_remote_ref(
                    (#[trigger] self.subgraphs@[i]).1.schema,
                )) ==> r is Err,
            r matches Err(errs) ==> forall|g: String|
                #[trigger] errs@.contains(ResolveSubgraphError::InvalidGraphRef { graph_ref: g })
                    <==> exists|i: int|
                    0 <= i < self.subgraphs@.len() && invalid_remote_ref_is(
                        (#[trigger] self.subgraphs@[i]).1.schema,
                        g,
                    ),
    {
        let ghost s0 = self.subgraphs@;
        let mut rest = self.subgraphs.into_entries();
        let mut results: Vec<(String, Result<FullyResolvedSubgraph, ResolveSubgraphError>)> =
            Vec::new();
        while rest.len() > 0
            invariant
                entries_view(rest@) =~= s0.skip(s0.len() - rest@.len()),
                rest@.len() <= s0.len(),
                results@.len() == s0.len() - rest@.len(),
                forall|i: int|
                    0 <= i < results@.len() ==> (#[trigger] results@[i]).0@ == s0[i].0
                        && match results@[i].1 {
                        Ok(f) => f.is_fed_two == sdl_is_fed_two(f.schema@)
                            && match s0[i].1.schema {
                            SchemaSource::Sdl { sdl } => results@[i].1 == Ok::<
                                FullyResolvedSubgraph,
                                ResolveSubgraphError,
                            >(FullyResolvedSubgraph {
                                routing_url: None,
                                schema: sdl,
                                is_fed_two: sdl_is_fed_two(sdl@),
                            }),
                            SchemaSource::File { .. } => f.routing_url == s0[i].1.routing_url,
                            SchemaSource::SubgraphIntrospection { subgraph_url, .. } => f
                                .routing_url == (match s0[i].1.routing_url {
                                Some(u) => Some(u),
                                None => Some(subgraph_url),
                            }),
                            SchemaSource::Subgraph { .. } => s0[i].1.routing_url is Some ==> f
                                .routing_url == s0[i].1.routing_url,
                        },
                        Err(_) => true,
                    },
                forall|i: int|
                    0 <= i < results@.len() ==> ((#[trigger] s0[i]).1.schema matches
                        SchemaSource::Sdl { .. } ==> results@[i].1 is Ok),
                forall|i: int|
                    0 <= i < results@.len() ==> match (#[trigger] s0[i]).1.schema {
                        SchemaSource::Subgraph { graphref, .. } => graph_ref_parts(graphref@)
                            is None ==> results@[i].1 == Err::<
                            FullyResolvedSubgraph,
                            ResolveSubgraphError,
                        >(ResolveSubgraphError::InvalidGraphRef { graph_ref: graphref }),
                        _ => true,
                    },
                forall|i: int|
                    0 <= i < results@.len() ==> ((#[trigger] results@[i]).1 matches Err(
                        ResolveSubgraphError::InvalidGraphRef { graph_ref },
                    ) ==> invalid_remote_ref_is(s0[i].1.schema, graph_ref)),
            decreases rest@.len(),
        {
            let ghost k = s0.len() - rest@.len();
            let ghost prev = rest@;
            let (name, lazy) = rest.remove(0);
            proof {
                assert(entries_view(prev)[0] == s0.skip(k)[0]);
                assert(s0.skip(k)[0] == s0[k]);
                assert(name@ == s0[k].0 && lazy == s0[k].1);
                assert(rest@ =~= prev.skip(1));
                crate::name_map::lemma_entries_view_skip(prev, rest@, s0, k);
            }
            let subgraph_name = name.clone();
            let outcome = FullyResolvedSubgraph::fully_resolve(
                introspect_subgraph_impl,
                fetch_remote_subgraph_impl,
                read_file_impl,
                lazy,
                subgraph_name,
            );
            results.push((name, outcome));
        }
        let ghost rs = results@;
        proof {
            lemma_error_list_membership(result_values(rs));
            assert forall|i: int|
                0 <= i < rs.len() implies #[trigger] result_values(rs)[i] == rs[i].1 by {}
        }
        match collect_resolved(results) {
            Ok(entries) => {
                proof {
                    assert(entry_names(entries_view(entries@)) =~= entry_names(s0));
                    // A bad registry reference would have failed its entry,
                    // and a failing entry forbids the success case.
                    if exists|i: int|
                        0 <= i < s0.len() && has_invalid_remote_ref((#[trigger] s0[i]).1.schema) {
                        let i = choose|i: int|
                            0 <= i < s0.len() && has_invalid_remote_ref(
                                (#[trigger] s0[i]).1.schema,
                            );
                        match s0[i].1.schema {
                            SchemaSource::Subgraph { graphref, .. } => {
                                assert(rs[i].1 == Err::<FullyResolvedSubgraph,
                                    ResolveSubgraphError,
                                >(ResolveSubgraphError::InvalidGraphRef { graph_ref: graphref }));
                                assert(result_values(rs)[i] == rs[i].1);
                                assert(error_list(result_values(rs)).contains(
                                    ResolveSubgraphError::InvalidGraphRef { graph_ref: graphref },
                                ));
                            }
                            _ => {}
                        }
                    }
                }
                Ok(NameMap::from_sorted(entries))
            }
            Err(errs) => {
                proof {
                    crate::supergraph::lemma_errors_aggregate(result_values(rs));
                    lemma_failure_count_bound(result_values(rs));
                    // All-inline configurations never reach this branch.
                    if forall|i: int|
                        0 <= i < s0.len() ==> (#[trigger] s0[i]).1.schema is Sdl {
                        assert forall|i: int|
                            0 <= i < result_values(rs).len() implies result_values(rs)[i]
                            is Ok by {
                            assert(s0[i].1.schema is Sdl);
                        }
                        lemma_no_failures_no_errors(result_values(rs));
                    }
                    // The aggregated invalid-reference errors are exactly the
                    // ill-formed references among the sources.
                    assert forall|g: String|
                        #[trigger] errs@.contains(
                            ResolveSubgraphError::InvalidGraphRef { graph_ref: g },
                        ) <==> exists|i: int|
                            0 <= i < s0.len() && invalid_remote_ref_is(
                                (#[trigger] s0[i]).1.schema,
                                g,
                            ) by {
                        let e = ResolveSubgraphError::InvalidGraphRef { graph_ref: g };
                        if errs@.contains(e) {
                            let i = choose|i: int|
                                0 <= i < result_values(rs).len() && result_values(rs)[i] == Err::<
                                    FullyResolvedSubgraph,
                                    ResolveSubgraphError,
                                >(e);
                            assert(rs[i].1 == Err::<FullyResolvedSubgraph,
                                ResolveSubgraphError,
                            >(e));
                            assert(invalid_remote_ref_is(s0[i].1.schema, g));
                        }
                        if exists|i: int|
                            0 <= i < s0.len() && invalid_remote_ref_is(
                                (#[trigger] s0[i]).1.schema,
                                g,
                            ) {
                            let i = choose|i: int|
                                0 <= i < s0.len() && invalid_remote_ref_is(
                                    (#[trigger] s0[i]).1.schema,
                                    g,
                                );
                            match s0[i].1.schema {
                                SchemaSource::Subgraph { graphref, .. } => {
                                    assert(graphref == g);
                                    assert(rs[i].1 == Err::<FullyResolvedSubgraph,
                                        ResolveSubgraphError,
                                    >(e));
                                    assert(result_values(rs)[i] == rs[i].1);
                                    assert(error_list(result_values(rs)).contains(e));
                                }
                                _ => {}
                            }
                        }
                    }
                }
                Err(errs)
            }
        }
    }

    /// Lowers the configuration back to its external form: every subgraph
    /// keeps its source and routing URL, and the federation version is kept
    /// as it stands.
    pub fn into_supergraph_config(self) -> (r: SupergraphConfig)
        requires
            self.subgraphs.wf(),
        ensures
            r.federation_version == self.federation_version,
            r.subgraphs.wf(),
            r.subgraphs@.len() == self.subgraphs@.len(),
            forall|i: int|
                0 <= i < self.subgraphs@.len() ==> (#[trigger] r.subgraphs@[i]).0
                    == self.subgraphs@[i].0 && r.subgraphs@[i].1 == (SubgraphConfig {
                    routing_url: self.subgraphs@[i].1.routing_url,
                    schema: self.subgraphs@[i].1.schema,
                }),
    {
        let ghost s0 = self.subgraphs@;
        let mut rest = self.subgraphs.into_entries();
        let mut out: Vec<(String, SubgraphConfig)> = Vec::new();
        while rest.len() > 0
            invariant
                entries_view(rest@) =~= s0.skip(s0.len() - rest@.len()),
                rest@.len() <= s0.len(),
                out@.len() == s0.len() - rest@.len(),
                forall|i: int|
                    0 <= i < out@.len() ==> (#[trigger] out@[i]).0@ == s0[i].0 && out@[i].1
                        == (SubgraphConfig {
                        routing_url: s0[i].1.routing_url,
                        schema: s0[i].1.schema,
                    }),
            decreases rest@.len(),
        {
            let ghost k = s0.len() - rest@.len();
            let ghost prev = rest@;
            let (name, lazy) = rest.remove(0);
            proof {
                assert(entries_view(prev)[0] == s0.skip(k)[0]);
                assert(s0.skip(k)[0] == s0[k]);
                assert(name@ == s0[k].0 && lazy == s0[k].1);
                assert(rest@ =~= prev.skip(1));
                crate::name_map::lemma_entries_view_skip(prev, rest@, s0, k);
            }
            out.push((name, SubgraphConfig::from(lazy)));
        }
        proof {
            assert(entry_names(entries_view(out@)) =~= entry_names(s0));
        }
        SupergraphConfig {
            subgraphs: NameMap::from_sorted(out),
            federation_version: self.federation_version,
        }
    }

    /// The subgraphs, for callers that only read them.
    pub fn subgraphs(&self) -> (r: &NameMap<LazilyResolvedSubgraph>)
        ensures
            r == &self.subgraphs,
    {
        &self.subgraphs
    }

    /// The federation version the configuration carries, still optional at
    /// this stage.
    pub fn federation_version(&self) -> (r: &Option<FederationVersion>)
        ensures
            r == &self.federation_version,
    {
        &self.federation_version
    }

    /// The path the configuration was loaded from, if any.
    pub fn origin_path(&self) -> (r: &Option<String>)
        ensures
            r == &self.origin_path,
    {
        &self.origin_path
    }
}

/// At most one failure is aggregated per outcome.
proof fn lemma_failure_count_bound<T>(s: Seq<Result<T, ResolveSubgraphError>>)
    ensures
        failure_count(s) <= s.len(),
        0 <= failure_count(s),
    decreases s.len(),
{
    if s.len() > 0 {
        lemma_failure_count_bound(s.drop_last());
    }
}

impl FullyResolvedSupergraphConfig {
    /// Resolves a whole configuration down to SDL text in one step and
    /// reconciles its federation version: all per-subgraph failures are
    /// aggregated, and a pinned first-tier version fails when any subgraph is
    /// on the second tier, naming exactly the second-tier subgraphs.
    pub fn resolve<I: IntrospectSubgraph, F: FetchRemoteSubgraph, R: ReadFile, P: ResolveFilePath>(
        introspect_subgraph_impl: &I,
        fetch_remote_subgraph_impl: &F,
        read_file_impl: &R,
        resolve_file_path_impl: &P,
        supergraph_config_root: Option<&String>,
        unresolved_supergraph_config: UnresolvedSupergraphConfig,
    ) -> (r: Result<FullyResolvedSupergraphConfig, ResolveSupergraphConfigError>)
        requires
            unresolved_supergraph_config.subgraphs.wf(),
        ensures
            match r {
                Ok(cfg) => {
                    &&& cfg.subgraphs.wf()
                    &&& cfg.subgraphs@.len() == unresolved_supergraph_config.subgraphs@.len()
                    &&& forall|i: int|
                        0 <= i < cfg.subgraphs@.len() ==> (#[trigger] cfg.subgraphs@[i]).0
                            == unresolved_supergraph_config.subgraphs@[i].0
                    &&& forall|i: int|
                        0 <= i < cfg.subgraphs@.len() ==> (#[trigger] cfg.subgraphs@[i]).1
                            .is_fed_two == sdl_is_fed_two(cfg.subgraphs@[i].1.schema@)
                    &&& cfg.federation_version == (
                    match unresolved_supergraph_config.federation_version {
                        None => inferred_version(cfg.subgraphs@),
                        Some(v) => v,
                    })
                    &&& (unresolved_supergraph_config.federation_version matches Some(v) && v
                        is LatestFedOne ==> fed_two_names(cfg.subgraphs@).len() == 0)
                },
                Err(e) => match e {
                    ResolveSupergraphConfigError::ResolveSubgraphs(errs) => 1 <= errs@.len()
                        <= unresolved_supergraph_config.subgraphs@.len(),
                    ResolveSupergraphConfigError::FederationVersionMismatch {
                        specified_federation_version,
                        ..
                    } => unresolved_supergraph_config.federation_version == Some(
                        specified_federation_version,
                    ) && specified_federation_version is LatestFedOne,
                },
            },
            // Success is owed when nothing outside the library decides: all
            // schemas inline, and a version that cannot be contradicted --
            // absent, second-tier, or first-tier over schemas none of which
            // carries a `link` directive.
            all_inline(unresolved_supergraph_config.subgraphs@) && (
            match unresolved_supergraph_config.federation_version {
                None => true,
                Some(v) => v is LatestFedTwo || no_inline_fed_two(
                    unresolved_supergraph_config.subgraphs@,
                ),
            }) ==> r is Ok,
            // The two failures the library itself decides are certain: a
            // file-backed subgraph with no configuration root, and an
            // ill-formed registry reference; and the aggregated list holds
            // them exactly for the inputs that provoke them.
            (supergraph_config_root is None && exists|i: int|
                0 <= i < unresolved_supergraph_config.subgraphs@.len() && (
                #[trigger] unresolved_supergraph_config.subgraphs@[i]).1.schema matches
                    SchemaSource::File { .. }) ==> (r matches Err(
                ResolveSupergraphConfigError::ResolveSubgraphs(errs),
            ) && errs@.contains(ResolveSubgraphError::SupergraphConfigMissing)),
            r matches Err(ResolveSupergraphConfigError::ResolveSubgraphs(errs)) ==> (errs@
                .contains(ResolveSubgraphError::SupergraphConfigMissing) <==> (
            supergraph_config_root is None && exists|i: int|
                0 <= i < unresolved_supergraph_config.subgraphs@.len() && (
                #[trigger] unresolved_supergraph_config.subgraphs@[i]).1.schema matches
                    SchemaSource::File { .. })),
            (exists|i: int|
                0 <= i < unresolved_supergraph_config.subgraphs@.len() && has_invalid_remote_ref(
                    (#[trigger] unresolved_supergraph_config.subgraphs@[i]).1.schema,
                )) ==> r matches Err(ResolveSupergraphConfigError::ResolveSubgraphs(_)),
            r matches Err(ResolveSupergraphConfigError::ResolveSubgraphs(errs)) ==> forall|
                g: String,
            |
                #[trigger] errs@.contains(ResolveSubgraphError::InvalidGraphRef { graph_ref: g })
                    <==> exists|i: int|
                    0 <= i < unresolved_supergraph_config.subgraphs@.len()
                        && invalid_remote_ref_is(
                        (#[trigger] unresolved_supergraph_config.subgraphs@[i]).1.schema,
                        g,
                    ),
    {
        let ghost s0 = unresolved_supergraph_config.subgraphs@;
        let mut rest = unresolved_supergraph_config.subgraphs.into_entries();
        let mut results: Vec<(String, Result<FullyResolvedSubgraph, ResolveSubgraphError>)> =
            Vec::new();
        while rest.len() > 0
            invariant
                entries_view(rest@) =~= s0.skip(s0.len() - rest@.len()),
                rest@.len() <= s0.len(),
                results@.len() == s0.len() - rest@.len(),
                forall|i: int|
                    0 <= i < results@.len() ==> (#[trigger] results@[i]).0@ == s0[i].0
                        && match results@[i].1 {
                        Ok(f) => f.is_fed_two == sdl_is_fed_two(f.schema@),
                        Err(_) => true,
                    },
                forall|i: int|
                    0 <= i < results@.len() ==> match (#[trigger] s0[i]).1.schema {
                        SchemaSource::Sdl { sdl } => results@[i].1 == Ok::<
                            FullyResolvedSubgraph,
                            ResolveSubgraphError,
                        >(FullyResolvedSubgraph {
                            routing_url: None,
                            schema: sdl,
                            is_fed_two: sdl_is_fed_two(sdl@),
                        }),
                        SchemaSource::File { .. } => {
                            &&& supergraph_config_root is None ==> results@[i].1 == Err::<
                                FullyResolvedSubgraph,
                                ResolveSubgraphError,
                            >(ResolveSubgraphError::SupergraphConfigMissing)
                            &&& supergraph_config_root is Some ==> (results@[i].1 matches Err(e)
                                ==> ((e matches ResolveSubgraphError::Fs { .. }) || (e matches
                                ResolveSubgraphError::FileResolution { .. })))
                        },
                        SchemaSource::SubgraphIntrospection { .. } => results@[i].1 matches Err(e)
                            ==> e matches ResolveSubgraphError::IntrospectionError { .. },
                        SchemaSource::Subgraph { graphref, .. } => {
                            &&& graph_ref_parts(graphref@) is None ==> results@[i].1 == Err::<
                                FullyResolvedSubgraph,
                                ResolveSubgraphError,
                            >(ResolveSubgraphError::InvalidGraphRef { graph_ref: graphref })
                            &&& graph_ref_parts(graphref@) is Some ==> (results@[i].1 matches Err(
                                e,
                            ) ==> e matches ResolveSubgraphError::FetchRemoteSdlError { .. })
                        },
                    },
            decreases rest@.len(),
        {
            let ghost k = s0.len() - rest@.len();
            let ghost prev = rest@;
            let (name, unresolved) = rest.remove(0);
            proof {
                assert(entries_view(prev)[0] == s0.skip(k)[0]);
                assert(s0.skip(k)[0] == s0[k]);
                assert(name@ == s0[k].0 && unresolved == s0[k].1);
                assert(rest@ =~= prev.skip(1));
                crate::name_map::lemma_entries_view_skip(prev, rest@, s0, k);
            }
            let outcome = FullyResolvedSubgraph::resolve(
                introspect_subgraph_impl,
                fetch_remote_subgraph_impl,
                read_file_impl,
                resolve_file_path_impl,
                supergraph_config_root,
                unresolved,
            );
            results.push((name, outcome));
        }
        let ghost rs = results@;
        proof {
            lemma_error_list_membership(result_values(rs));
            assert forall|i: int|
                0 <= i < rs.len() implies #[trigger] result_values(rs)[i] == rs[i].1 by {}
        }
        match collect_resolved(results) {
            Ok(entries) => {
                proof {
                    assert(entry_names(entries_view(entries@)) =~= entry_names(s0));
                    // The certain failures did not arise, so their provoking
                    // inputs are absent.
                    if exists|i: int|
                        0 <= i < s0.len() && has_invalid_remote_ref((#[trigger] s0[i]).1.schema) {
                        let i = choose|i: int|
                            0 <= i < s0.len() && has_invalid_remote_ref(
                                (#[trigger] s0[i]).1.schema,
                            );
                        match s0[i].1.schema {
                            SchemaSource::Subgraph { graphref, .. } => {
                                assert(result_values(rs)[i] == rs[i].1);
                                assert(error_list(result_values(rs)).contains(
                                    ResolveSubgraphError::InvalidGraphRef { graph_ref: graphref },
                                ));
                            }
                            _ => {}
                        }
                    }
                    if supergraph_config_root is None && exists|i: int|
                        0 <= i < s0.len() && (#[trigger] s0[i]).1.schema matches
                            SchemaSource::File { .. } {
                        let i = choose|i: int|
                            0 <= i < s0.len() && (#[trigger] s0[i]).1.schema matches
                                SchemaSource::File { .. };
                        assert(result_values(rs)[i] == rs[i].1);
                        assert(error_list(result_values(rs)).contains(
                            ResolveSubgraphError::SupergraphConfigMissing,
                        ));
                    }
                }
                let map = NameMap::from_sorted(entries);
                match reconcile_federation_version(
                    unresolved_supergraph_config.federation_version,
                    &map,
                ) {
                    Ok(version) => Ok(
                        FullyResolvedSupergraphConfig {
                            subgraphs: map,
                            federation_version: version,
                        },
                    ),
                    Err(e) => {
                        proof {
                            // A rejected version needs a second-tier subgraph,
                            // which an all-inline, link-free configuration
                            // cannot supply.
                            if all_inline(s0) && (
                            match unresolved_supergraph_config.federation_version {
                                None => true,
                                Some(v) => v is LatestFedTwo || no_inline_fed_two(s0),
                            }) {
                                lemma_fed_two_names(map@);
                                assert(fed_two_names(map@).len() > 0);
                                let i = choose|i: int|
                                    0 <= i < map@.len() && map@[i].1.is_fed_two;
                                assert(map@[i].1 == entries_view(entries@)[i].1);
                                assert(entries_view(entries@)[i].1 == entries@[i].1@);
                                assert(rs[i].1 == Ok::<
                                    FullyResolvedSubgraph,
                                    ResolveSubgraphError,
                                >(entries@[i].1));
                                assert(s0[i].1.schema is Sdl);
                                match s0[i].1.schema {
                                    SchemaSource::Sdl { sdl } => {
                                        assert(map@[i].1.is_fed_two == sdl_is_fed_two(sdl@));
                                        assert(!sdl_is_fed_two(sdl@));
                                    }
                                    _ => {}
                                }
                                assert(false);
                            }
                        }
                        Err(e)
                    }
                }
            }
            Err(errs) => {
                proof {
                    crate::supergraph::lemma_errors_aggregate(result_values(rs));
                    lemma_failure_count_bound(result_values(rs));
                    // All-inline configurations never reach this branch.
                    if forall|i: int|
                        0 <= i < s0.len() ==> (#[trigger] s0[i]).1.schema is Sdl {
                        assert forall|i: int|
                            0 <= i < result_values(rs).len() implies result_values(rs)[i]
                            is Ok by {
                            assert(s0[i].1.schema is Sdl);
                        }
                        lemma_no_failures_no_errors(result_values(rs));
                    }
                    // The missing-root error is aggregated exactly when a
                    // file-backed subgraph met an absent configuration root.
                    assert(errs@.contains(ResolveSubgraphError::SupergraphConfigMissing) <==> (
                    supergraph_config_root is None && exists|i: int|
                        0 <= i < s0.len() && (#[trigger] s0[i]).1.schema matches
                            SchemaSource::File { .. })) by {
                        if errs@.contains(ResolveSubgraphError::SupergraphConfigMissing) {
                            let i = choose|i: int|
                                0 <= i < result_values(rs).len() && result_values(rs)[i] == Err::<
                                    FullyResolvedSubgraph,
                                    ResolveSubgraphError,
                                >(ResolveSubgraphError::SupergraphConfigMissing);
                            assert(rs[i].1 == Err::<FullyResolvedSubgraph,
                                ResolveSubgraphError,
                            >(ResolveSubgraphError::SupergraphConfigMissing));
                            assert(s0[i].1.schema matches SchemaSource::File { .. }
                                && supergraph_config_root is None);
                        }
                        if supergraph_config_root is None && exists|i: int|
                            0 <= i < s0.len() && (#[trigger] s0[i]).1.schema matches
                                SchemaSource::File { .. } {
                            let i = choose|i: int|
                                0 <= i < s0.len() && (#[trigger] s0[i]).1.schema matches
                                    SchemaSource::File { .. };
                            assert(result_values(rs)[i] == rs[i].1);
                            assert(error_list(result_values(rs)).contains(
                                ResolveSubgraphError::SupergraphConfigMissing,
                            ));
                        }
                    }
                    // The aggregated invalid-reference errors are exactly the
                    // ill-formed references among the sources.
                    assert forall|g: String|
                        #[trigger] errs@.contains(
                            ResolveSubgraphError::InvalidGraphRef { graph_ref: g },
                        ) <==> exists|i: int|
                            0 <= i < s0.len() && invalid_remote_ref_is(
                                (#[trigger] s0[i]).1.schema,
                                g,
                            ) by {
                        let e = ResolveSubgraphError::InvalidGraphRef { graph_ref: g };
                        if errs@.contains(e) {
                            let i = choose|i: int|
                                0 <= i < result_values(rs).len() && result_values(rs)[i] == Err::<
                                    FullyResolvedSubgraph,
                                    ResolveSubgraphError,
                                >(e);
                            assert(rs[i].1 == Err::<FullyResolvedSubgraph,
                                ResolveSubgraphError,
                            >(e));
                            assert(invalid_remote_ref_is(s0[i].1.schema, g));
                        }
                        if exists|i: int|
                            0 <= i < s0.len() && invalid_remote_ref_is(
                                (#[trigger] s0[i]).1.schema,
                                g,
                            ) {
                            let i = choose|i: int|
                                0 <= i < s0.len() && invalid_remote_ref_is(
                                    (#[trigger] s0[i]).1.schema,
                                    g,
                                );
                            match s0[i].1.schema {
                                SchemaSource::Subgraph { graphref, .. } => {
                                    assert(graphref == g);
                                    assert(result_values(rs)[i] == rs[i].1);
                                    assert(error_list(result_values(rs)).contains(e));
                                }
                                _ => {}
                            }
                        }
                    }
                }
                Err(ResolveSupergraphConfigError::ResolveSubgraphs(errs))
            }
        }
    }

    /// The resolved subgraphs.
    pub fn subgraphs(&self) -> (r: &NameMap<FullyResolvedSubgraph>)
        ensures
            r == &self.subgraphs,
    {
        &self.subgraphs
    }

    /// The reconciled federation version, never absent at this stage.
    pub fn federation_version(&self) -> (r: &FederationVersion)
        ensures
            r == &self.federation_version,
    {
        &self.federation_version
    }
}

} // verus!
