//! Subgraph watchers: the per-source machines that decide when a schema
//! change is emitted.
//!
//! Every schema source is watched through one of three behaviours.  A file
//! watcher forwards every write notification, duplicates included.  An
//! introspection watcher polls on an interval and suppresses an emission when
//! the polled SDL equals the one last seen.  A one-shot watcher (inline SDL,
//! or a remote subgraph fetched from the registry) emits its single change the
//! first time it is polled and nothing ever after, after which its channel
//! closes.  The waiting itself (file notifications, timers, requests) happens
//! outside; these machines take what arrived and decide what is emitted.

use vstd::prelude::*;

use crate::effects::FetchRemoteSubgraph;
use crate::errors::RoverError;
use crate::graph_ref::{graph_ref_parts, GraphRef};
use crate::subgraph::SchemaSource;

verus! {

/// A change to a subgraph's SDL, the unit every watcher emits.
pub struct WatchedSdlChange {
    pub sdl: String,
}

impl WatchedSdlChange {
    /// The changed SDL text.
    pub fn sdl(&self) -> (r: &String)
        ensures
            r == &self.sdl,
    {
        &self.sdl
    }
}

/// Watches one schema file for writes.
pub struct FileWatcher {
    pub path: String,
}

impl FileWatcher {
    /// Watches the given path.
    pub fn new(path: String) -> (r: FileWatcher)
        ensures
            r == (FileWatcher { path }),
    {
        FileWatcher { path }
    }

    /// Every write notification is forwarded as a change carrying the file's
    /// contents, even when the contents did not change: file watching does not
    /// deduplicate.
    pub fn on_write(&self, contents: String) -> (r: WatchedSdlChange)
        ensures
            r == (WatchedSdlChange { sdl: contents }),
    {
        WatchedSdlChange { sdl: contents }
    }
}

/// Polls a subgraph's introspection endpoint on a fixed interval.
pub struct SubgraphIntrospection {
    pub endpoint: String,
    pub headers: Vec<(String, String)>,
    pub polling_interval: u64,
    /// The SDL seen by the previous poll, for duplicate suppression.
    pub last_sdl: Option<String>,
}

/// What one introspection poll does to the watcher: the state after the poll,
/// and the emission, which is suppressed when the polled SDL equals the one
/// last seen.
pub open spec fn introspection_step(s: SubgraphIntrospection, sdl: String) -> (
    SubgraphIntrospection,
    Option<WatchedSdlChange>,
) {
    let next = SubgraphIntrospection {
        endpoint: s.endpoint,
        headers: s.headers,
        polling_interval: s.polling_interval,
        last_sdl: Some(sdl),
    };
    match s.last_sdl {
        Some(prev) => if prev@ == sdl@ {
            (next, None)
        } else {
            (next, Some(WatchedSdlChange { sdl }))
        },
        None => (next, Some(WatchedSdlChange { sdl })),
    }
}

impl SubgraphIntrospection {
    /// Polls the given endpoint with the given headers on the given interval,
    /// in milliseconds; nothing has been seen yet.
    pub fn new(endpoint: String, headers: Option<Vec<(String, String)>>, polling_interval: u64)
        -> (r: SubgraphIntrospection)
        ensures
            r.endpoint == endpoint,
            r.polling_interval == polling_interval,
            r.last_sdl is None,
            match headers {
                Some(h) => r.headers == h,
                None => r.headers@ == Seq::<(String, String)>::empty(),
            },
    {
        let headers = match headers {
            Some(h) => h,
            None => Vec::new(),
        };
        SubgraphIntrospection { endpoint, headers, polling_interval, last_sdl: None }
    }

    /// Takes one poll result: remembers it, and emits a change only when it
    /// differs from the SDL the previous poll returned.
    pub fn on_poll(&mut self, sdl: String) -> (r: Option<WatchedSdlChange>)
        ensures
            *final(self) == introspection_step(*old(self), sdl).0,
            r == introspection_step(*old(self), sdl).1,
    {
        let changed = match &self.last_sdl {
            Some(prev) => !(*prev == sdl),
            None => true,
        };
        self.last_sdl = Some(sdl.clone());
        if changed {
            Some(WatchedSdlChange { sdl })
        } else {
            None
        }
    }
}

/// Two consecutive polls that return the same text emit at most one change:
/// the second emission is always suppressed.
pub proof fn lemma_introspection_suppresses_duplicates(
    s: SubgraphIntrospection,
    sdl1: String,
    sdl2: String,
)
    requires
        sdl1@ == sdl2@,
    ensures
        introspection_step(introspection_step(s, sdl1).0, sdl2).1 is None,
{
}

/// Fetches a subgraph's SDL from the registry, once.
pub struct RemoteSchema {
    pub graphref: String,
    pub subgraph: String,
}

impl RemoteSchema {
    /// Fetches the given subgraph of the given graph variant.
    pub fn new(graphref: String, subgraph: String) -> (r: RemoteSchema)
        ensures
            r == (RemoteSchema { graphref, subgraph }),
    {
        RemoteSchema { graphref, subgraph }
    }

    /// Performs the single registry lookup: an ill-formed reference is
    /// rejected; otherwise the registry's answer decides.
    pub fn run<F: FetchRemoteSubgraph>(&self, fetch_remote_subgraph_impl: &F) -> (r: Result<
        String,
        RoverError,
    >)
        ensures
            graph_ref_parts(self.graphref@) is None ==> r is Err,
            r is Ok ==> graph_ref_parts(self.graphref@) is Some,
    {
        match GraphRef::parse(self.graphref.as_str()) {
            None => Err(RoverError::new(self.graphref.clone())),
            Some(parsed) => {
                match fetch_remote_subgraph_impl.fetch_remote_subgraph(
                    &parsed,
                    self.subgraph.as_str(),
                ) {
                    Ok(remote) => Ok(remote.schema),
                    Err(cause) => Err(RoverError::new(cause)),
                }
            }
        }
    }
}

/// Emits inline SDL text, once.
pub struct Sdl {
    pub sdl: String,
}

impl Sdl {
    /// Emits the given text.
    pub fn new(sdl: String) -> (r: Sdl)
        ensures
            r == (Sdl { sdl }),
    {
        Sdl { sdl }
    }

    /// Hands the inline text out.
    pub fn run(&self) -> (r: String)
        ensures
            r == self.sdl,
    {
        self.sdl.clone()
    }
}

/// A fetch that happens at most once: an in-place schema (inline SDL, or a
/// registry reference) is not watched; its value is produced a single time.
pub enum NonRepeatingFetch {
    RemoteSchema(RemoteSchema),
    Sdl(Sdl),
}

impl NonRepeatingFetch {
    /// Produces the single value: inline SDL is returned as is, a registry
    /// reference is looked up through the injected capability.
    pub fn run<F: FetchRemoteSubgraph>(&self, fetch_remote_subgraph_impl: &F) -> (r: Result<
        String,
        RoverError,
    >)
        ensures
            match self {
                NonRepeatingFetch::Sdl(s) => r == Ok::<String, RoverError>(s.sdl),
                NonRepeatingFetch::RemoteSchema(remote) => {
                    &&& graph_ref_parts(remote.graphref@) is None ==> r is Err
                    &&& r is Ok ==> graph_ref_parts(remote.graphref@) is Some
                },
            },
    {
        match self {
            NonRepeatingFetch::RemoteSchema(runner) => runner.run(fetch_remote_subgraph_impl),
            NonRepeatingFetch::Sdl(runner) => Ok(runner.run()),
        }
    }
}

/// A one-shot watcher session over its whole life: once its single value is
/// in hand, the first poll emits it and every later poll emits nothing; a
/// spent session corresponds to a closed channel.
pub struct OneShotSession {
    pub sdl: String,
    pub emitted: bool,
}

/// What one poll does to a one-shot session.
pub open spec fn one_shot_step(s: OneShotSession) -> (OneShotSession, Option<WatchedSdlChange>) {
    if s.emitted {
        (s, None)
    } else {
        (OneShotSession { sdl: s.sdl, emitted: true }, Some(WatchedSdlChange { sdl: s.sdl }))
    }
}

/// How many changes `n` polls of a one-shot session emit.
pub open spec fn one_shot_emission_count(s: OneShotSession, n: nat) -> int
    decreases n,
{
    if n == 0 {
        0
    } else {
        one_shot_emission_count(one_shot_step(s).0, (n - 1) as nat) + (if one_shot_step(s).1
            is Some {
            1int
        } else {
            0int
        })
    }
}

impl OneShotSession {
    /// Wraps the fetched value; nothing has been emitted yet.
    pub fn new(sdl: String) -> (r: OneShotSession)
        ensures
            r == (OneShotSession { sdl, emitted: false }),
    {
        OneShotSession { sdl, emitted: false }
    }

    /// Polls the session: the single change comes out the first time, and
    /// never again.
    pub fn next_change(&mut self) -> (r: Option<WatchedSdlChange>)
        ensures
            *final(self) == one_shot_step(*old(self)).0,
            r == one_shot_step(*old(self)).1,
    {
        if self.emitted {
            None
        } else {
            self.emitted = true;
            Some(WatchedSdlChange { sdl: self.sdl.clone() })
        }
    }
}

/// A spent one-shot session never emits again.
proof fn lemma_one_shot_spent(s: OneShotSession, n: nat)
    requires
        s.emitted,
    ensures
        one_shot_emission_count(s, n) == 0,
    decreases n,
{
    if n > 0 {
        lemma_one_shot_spent(one_shot_step(s).0, (n - 1) as nat);
    }
}

/// A one-shot watcher emits exactly one change over its whole life, however
/// often it is polled.
pub proof fn lemma_one_shot_emits_once(sdl: String, n: nat)
    requires
        n >= 1,
    ensures
        one_shot_emission_count(OneShotSession { sdl, emitted: false }, n) == 1,
{
    let fresh = OneShotSession { sdl, emitted: false };
    lemma_one_shot_spent(one_shot_step(fresh).0, (n - 1) as nat);
}

/// A watcher error for schema sources that cannot be watched, carrying the
/// offending source.
#[derive(Debug, PartialEq, Eq)]
pub struct UnsupportedSchemaSource(pub SchemaSource);

/// The behaviour attached to a subgraph: file watching, introspection
/// polling, or a one-shot fetch for in-place schemas.
pub enum SubgraphWatcherKind {
    /// Watch a file on disk.
    File(FileWatcher),
    /// Poll an endpoint via introspection.
    Introspect(SubgraphIntrospection),
    /// Produce the schema a single time: inline SDL, or one registry lookup.
    Once(NonRepeatingFetch),
}

/// A subgraph watcher: normalizes the four schema sources behind one "watch"
/// capability, so composition learns of changes the same way whatever the
/// backend.
pub struct SubgraphWatcher {
    pub watcher: SubgraphWatcherKind,
}

impl SubgraphWatcher {
    /// Derives the right watcher from a schema source: files are watched,
    /// introspection endpoints are polled on the given interval in
    /// milliseconds, and registry references and inline SDL are produced
    /// once.  Every source kind is supported.
    pub fn from_schema_source(
        schema_source: SchemaSource,
        introspection_polling_interval: u64,
    ) -> (r: Result<SubgraphWatcher, UnsupportedSchemaSource>)
        ensures
            match schema_source {
                SchemaSource::File { file } => r == Ok::<SubgraphWatcher, UnsupportedSchemaSource>(
                    SubgraphWatcher {
                        watcher: SubgraphWatcherKind::File(FileWatcher { path: file }),
                    },
                ),
                SchemaSource::SubgraphIntrospection { subgraph_url, introspection_headers } => r
                    matches Ok(w) && w.watcher matches SubgraphWatcherKind::Introspect(s)
                    && s.endpoint == subgraph_url && s.polling_interval
                    == introspection_polling_interval && s.last_sdl is None && (
                match introspection_headers {
                    Some(h) => s.headers == h,
                    None => s.headers@ == Seq::<(String, String)>::empty(),
                }),
                SchemaSource::Subgraph { graphref, subgraph } => r == Ok::<
                    SubgraphWatcher,
                    UnsupportedSchemaSource,
                >(SubgraphWatcher {
                    watcher: SubgraphWatcherKind::Once(
                        NonRepeatingFetch::RemoteSchema(RemoteSchema { graphref, subgraph }),
                    ),
                }),
                SchemaSource::Sdl { sdl } => r == Ok::<SubgraphWatcher, UnsupportedSchemaSource>(
                    SubgraphWatcher {
                        watcher: SubgraphWatcherKind::Once(NonRepeatingFetch::Sdl(Sdl { sdl })),
                    },
                ),
            },
    {
        match schema_source {
            SchemaSource::File { file } => Ok(
                SubgraphWatcher { watcher: SubgraphWatcherKind::File(FileWatcher::new(file)) },
            ),
            SchemaSource::SubgraphIntrospection { subgraph_url, introspection_headers } => Ok(
                SubgraphWatcher {
                    watcher: SubgraphWatcherKind::Introspect(
                        SubgraphIntrospection::new(
                            subgraph_url,
                            introspection_headers,
                            introspection_polling_interval,
                        ),
                    ),
                },
            ),
            SchemaSource::Subgraph { graphref, subgraph } => Ok(
                SubgraphWatcher {
                    watcher: SubgraphWatcherKind::Once(
                        NonRepeatingFetch::RemoteSchema(RemoteSchema::new(graphref, subgraph)),
                    ),
                },
            ),
            SchemaSource::Sdl { sdl } => Ok(
                SubgraphWatcher {
                    watcher: SubgraphWatcherKind::Once(NonRepeatingFetch::Sdl(Sdl::new(sdl))),
                },
            ),
        }
    }

    /// The kind of watcher in use.
    pub fn watcher(&self) -> (r: &SubgraphWatcherKind)
        ensures
            r == &self.watcher,
    {
        &self.watcher
    }
}

} // verus!
