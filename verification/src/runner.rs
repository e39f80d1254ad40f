//! The composition runner: one ordered event stream out of many watchers.
//!
//! The runner owns the live fully resolved configuration and a phase: idle,
//! or composing with at most one queued follow-up.  Watched changes update
//! the configuration and start a composition cycle; changes that arrive while
//! a cycle runs coalesce into exactly one follow-up cycle.  Every cycle emits
//! `Started` strictly before its terminal `Success` or `Error` event, and
//! subgraph additions and removals are emitted before the `Started` of the
//! cycle that incorporates them.
//!
//! The runner is a machine from state and message to events, next state and
//! an optional request to invoke the composition process; performing that
//! invocation, and waiting on the watchers, happens outside.

use vstd::prelude::*;

use crate::federation::{schema_contains_link_directive, sdl_is_fed_two, FederationVersion};
use crate::name_map::{find_name, has_name, NameMap};
use crate::subgraph::{FullyResolvedSubgraph, SchemaSource};
use crate::supergraph::FullyResolvedSupergraphConfig;

verus! {

/// A successful composition: the supergraph SDL, the federation version it
/// was composed under, and the composition process's hints.
#[derive(Debug, PartialEq, Eq)]
pub struct CompositionSuccess {
    pub supergraph_sdl: String,
    pub federation_version: FederationVersion,
    pub hints: Vec<String>,
}

/// A failed composition cycle.
#[derive(Debug, PartialEq, Eq)]
pub enum CompositionError {
    /// The composition process ran and reported schema build errors.
    Build { source: Vec<String> },
    /// The composition process could not run at all.
    Infrastructure { cause: String },
}

/// A subgraph joined the live configuration.
#[derive(Debug, PartialEq, Eq)]
pub struct CompositionSubgraphAdded {
    pub name: String,
    pub schema_source: SchemaSource,
}

/// A subgraph left the live configuration.
#[derive(Debug, PartialEq, Eq)]
pub struct CompositionSubgraphRemoved {
    pub name: String,
}

/// What the runner emits to its consumer, in order.
#[derive(Debug, PartialEq, Eq)]
pub enum CompositionEvent {
    /// A composition cycle began.
    Started,
    /// The cycle's terminal event: composition succeeded.
    Success(CompositionSuccess),
    /// The cycle's terminal event: composition failed.
    Error(CompositionError),
    /// Emitted before the `Started` of the cycle that incorporates it.
    SubgraphAdded(CompositionSubgraphAdded),
    /// Emitted before the `Started` of the cycle that incorporates it.
    SubgraphRemoved(CompositionSubgraphRemoved),
}

/// How an invocation of the composition process ended.
#[derive(Debug, PartialEq, Eq)]
pub enum CompositionOutcome {
    /// The process composed a supergraph.
    Success { supergraph_sdl: String, federation_version: FederationVersion, hints: Vec<String> },
    /// The process ran and reported build errors.
    BuildErrors { errors: Vec<String> },
    /// The process could not run: a missing binary, or a crash.
    Failed { cause: String },
}

/// What arrives on the runner's merged input stream.
#[derive(Debug, PartialEq, Eq)]
pub enum RunnerMessage {
    /// A subgraph watcher, or a supergraph-config change, delivered new SDL
    /// for one subgraph.
    SubgraphChanged { name: String, sdl: String },
    /// A supergraph-config change removed one subgraph.
    SubgraphRemoved { name: String },
    /// The running composition invocation finished.
    CompositionDone { outcome: CompositionOutcome },
}

/// The runner's phase in the composition cycle.
#[derive(Clone, Copy, Debug, PartialEq, Eq, Structural)]
pub enum RunnerPhase {
    /// No composition is running.
    Idle,
    /// A composition is running; `queued` records whether a change arrived
    /// meanwhile, asking for exactly one follow-up cycle.
    Composing { queued: bool },
}

/// A request to invoke the composition process on the current subgraphs'
/// SDLs, in name order.
pub struct CompositionAction {
    pub subgraph_sdls: Vec<(String, String)>,
}

/// The ghost summary of a runner that the event stream's laws speak of: the
/// phase and the set of live subgraph names.
pub struct RunnerModel {
    pub phase: RunnerPhase,
    pub names: Set<Seq<char>>,
}

/// The set of names a configuration holds.
pub open spec fn names_of(s: Seq<(Seq<char>, FullyResolvedSubgraph)>) -> Set<Seq<char>> {
    Set::new(|n: Seq<char>| has_name(s, n))
}

/// The name-to-SDL pairs a configuration holds, in name order.
pub open spec fn sdl_pairs(s: Seq<(Seq<char>, FullyResolvedSubgraph)>) -> Seq<
    (Seq<char>, String),
> {
    s.map_values(|p: (Seq<char>, FullyResolvedSubgraph)| (p.0, p.1.schema))
}

/// The terminal event a finished invocation produces.
pub open spec fn terminal_event(outcome: CompositionOutcome) -> CompositionEvent {
    match outcome {
        CompositionOutcome::Success { supergraph_sdl, federation_version, hints } =>
            CompositionEvent::Success(
            CompositionSuccess { supergraph_sdl, federation_version, hints },
        ),
        CompositionOutcome::BuildErrors { errors } => CompositionEvent::Error(
            CompositionError::Build { source: errors },
        ),
        CompositionOutcome::Failed { cause } => CompositionEvent::Error(
            CompositionError::Infrastructure { cause },
        ),
    }
}

/// The phase after a change arrives: an idle runner starts a cycle, a
/// composing runner queues exactly one follow-up.
pub open spec fn begin_cycle_phase(p: RunnerPhase) -> RunnerPhase {
    match p {
        RunnerPhase::Idle => RunnerPhase::Composing { queued: false },
        RunnerPhase::Composing { .. } => RunnerPhase::Composing { queued: true },
    }
}

/// The runner's next model state for one message.
pub open spec fn step_model(m: RunnerModel, message: RunnerMessage) -> RunnerModel {
    match message {
        RunnerMessage::SubgraphChanged { name, .. } => RunnerModel {
            phase: begin_cycle_phase(m.phase),
            names: m.names.insert(name@),
        },
        RunnerMessage::SubgraphRemoved { name } => if m.names.contains(name@) {
            RunnerModel { phase: begin_cycle_phase(m.phase), names: m.names.remove(name@) }
        } else {
            m
        },
        RunnerMessage::CompositionDone { .. } => match m.phase {
            RunnerPhase::Idle => m,
            RunnerPhase::Composing { queued } => RunnerModel {
                phase: if queued {
                    RunnerPhase::Composing { queued: false }
                } else {
                    RunnerPhase::Idle
                },
                names: m.names,
            },
        },
    }
}

/// The events the runner emits for one message, in emission order.
pub open spec fn step_model_events(m: RunnerModel, message: RunnerMessage) -> Seq<
    CompositionEvent,
> {
    match message {
        RunnerMessage::SubgraphChanged { name, sdl } => (if m.names.contains(name@) {
            Seq::<CompositionEvent>::empty()
        } else {
            seq![
                CompositionEvent::SubgraphAdded(
                    CompositionSubgraphAdded { name, schema_source: SchemaSource::Sdl { sdl } },
                ),
            ]
        }) + (if m.phase is Idle {
            seq![CompositionEvent::Started]
        } else {
            Seq::<CompositionEvent>::empty()
        }),
        RunnerMessage::SubgraphRemoved { name } => if m.names.contains(name@) {
            seq![CompositionEvent::SubgraphRemoved(CompositionSubgraphRemoved { name })] + (
            if m.phase is Idle {
                seq![CompositionEvent::Started]
            } else {
                Seq::<CompositionEvent>::empty()
            })
        } else {
            Seq::<CompositionEvent>::empty()
        },
        RunnerMessage::CompositionDone { outcome } => match m.phase {
            RunnerPhase::Idle => Seq::<CompositionEvent>::empty(),
            RunnerPhase::Composing { queued } => seq![terminal_event(outcome)] + (if queued {
                seq![CompositionEvent::Started]
            } else {
                Seq::<CompositionEvent>::empty()
            }),
        },
    }
}

/// Whether handling the message asks for a composition invocation.
pub open spec fn starts_composition(m: RunnerModel, message: RunnerMessage) -> bool {
    match message {
        RunnerMessage::SubgraphChanged { .. } => m.phase is Idle,
        RunnerMessage::SubgraphRemoved { name } => m.phase is Idle && m.names.contains(name@),
        RunnerMessage::CompositionDone { .. } => m.phase matches RunnerPhase::Composing {
            queued: true,
        },
    }
}

/// The model after a whole message sequence.
pub open spec fn run_model(m: RunnerModel, msgs: Seq<RunnerMessage>) -> RunnerModel
    decreases msgs.len(),
{
    if msgs.len() == 0 {
        m
    } else {
        run_model(step_model(m, msgs[0]), msgs.skip(1))
    }
}

/// The whole trace a message sequence emits, in emission order.
pub open spec fn run_events(m: RunnerModel, msgs: Seq<RunnerMessage>) -> Seq<CompositionEvent>
    decreases msgs.len(),
{
    if msgs.len() == 0 {
        Seq::empty()
    } else {
        step_model_events(m, msgs[0]) + run_events(step_model(m, msgs[0]), msgs.skip(1))
    }
}

/// A cycle's end: a `Success` or an `Error`.
pub open spec fn is_terminal(e: CompositionEvent) -> bool {
    e is Success || e is Error
}

/// How many cycles a trace has started.
pub open spec fn count_started(t: Seq<CompositionEvent>) -> int
    decreases t.len(),
{
    if t.len() == 0 {
        0
    } else {
        count_started(t.drop_last()) + (if t.last() is Started {
            1int
        } else {
            0int
        })
    }
}

/// How many cycles a trace has finished.
pub open spec fn count_terminal(t: Seq<CompositionEvent>) -> int
    decreases t.len(),
{
    if t.len() == 0 {
        0
    } else {
        count_terminal(t.drop_last()) + (if is_terminal(t.last()) {
            1int
        } else {
            0int
        })
    }
}

/// The cycles a phase still owes a terminal event for.
pub open spec fn phase_debt(p: RunnerPhase) -> int {
    match p {
        RunnerPhase::Idle => 0,
        RunnerPhase::Composing { .. } => 1,
    }
}

/// The counts of a one-event trace.
proof fn lemma_count_single(e: CompositionEvent)
    ensures
        count_started(seq![e]) == (if e is Started {
            1int
        } else {
            0int
        }),
        count_terminal(seq![e]) == (if is_terminal(e) {
            1int
        } else {
            0int
        }),
{
    assert(seq![e].drop_last() =~= Seq::<CompositionEvent>::empty());
    assert(count_started(Seq::<CompositionEvent>::empty()) == 0);
    assert(count_terminal(Seq::<CompositionEvent>::empty()) == 0);
}

/// Counts distribute over concatenation.
proof fn lemma_count_concat(a: Seq<CompositionEvent>, b: Seq<CompositionEvent>)
    ensures
        count_started(a + b) == count_started(a) + count_started(b),
        count_terminal(a + b) == count_terminal(a) + count_terminal(b),
    decreases b.len(),
{
    if b.len() == 0 {
        assert(a + b =~= a);
    } else {
        assert((a + b).drop_last() =~= a + b.drop_last());
        assert((a + b).last() == b.last());
        lemma_count_concat(a, b.drop_last());
    }
}

/// One step's events change the start/finish balance by exactly the change
/// of the phase's debt.
proof fn lemma_step_balance(m: RunnerModel, message: RunnerMessage)
    ensures
        count_started(step_model_events(m, message)) - count_terminal(
            step_model_events(m, message),
        ) == phase_debt(step_model(m, message).phase) - phase_debt(m.phase),
{
    let t = step_model_events(m, message);
    match message {
        RunnerMessage::SubgraphChanged { name, sdl } => {
            let added = if m.names.contains(name@) {
                Seq::<CompositionEvent>::empty()
            } else {
                seq![
                    CompositionEvent::SubgraphAdded(
                        CompositionSubgraphAdded {
                            name,
                            schema_source: SchemaSource::Sdl { sdl },
                        },
                    ),
                ]
            };
            let started = if m.phase is Idle {
                seq![CompositionEvent::Started]
            } else {
                Seq::<CompositionEvent>::empty()
            };
            if added.len() > 0 {
                lemma_count_single(added[0]);
            }
            lemma_count_single(CompositionEvent::Started);
            lemma_count_concat(added, started);
        }
        RunnerMessage::SubgraphRemoved { name } => {
            if m.names.contains(name@) {
                let removed = seq![
                    CompositionEvent::SubgraphRemoved(CompositionSubgraphRemoved { name }),
                ];
                let started = if m.phase is Idle {
                    seq![CompositionEvent::Started]
                } else {
                    Seq::<CompositionEvent>::empty()
                };
                lemma_count_single(removed[0]);
                lemma_count_single(CompositionEvent::Started);
                lemma_count_concat(removed, started);
            }
        }
        RunnerMessage::CompositionDone { outcome } => {
            match m.phase {
                RunnerPhase::Idle => {}
                RunnerPhase::Composing { queued } => {
                    let term = seq![terminal_event(outcome)];
                    let started = if queued {
                        seq![CompositionEvent::Started]
                    } else {
                        Seq::<CompositionEvent>::empty()
                    };
                    lemma_count_single(term[0]);
                    lemma_count_single(CompositionEvent::Started);
                    lemma_count_concat(term, started);
                }
            }
        }
    }
}

/// Over a whole run, the start/finish balance equals the change of the
/// phase's debt: every started cycle but at most the running one has
/// finished.
pub proof fn lemma_run_balance(m: RunnerModel, msgs: Seq<RunnerMessage>)
    ensures
        count_started(run_events(m, msgs)) - count_terminal(run_events(m, msgs)) == phase_debt(
            run_model(m, msgs).phase,
        ) - phase_debt(m.phase),
    decreases msgs.len(),
{
    if msgs.len() > 0 {
        lemma_step_balance(m, msgs[0]);
        lemma_run_balance(step_model(m, msgs[0]), msgs.skip(1));
        lemma_count_concat(
            step_model_events(m, msgs[0]),
            run_events(step_model(m, msgs[0]), msgs.skip(1)),
        );
    }
}

/// `Started` precedes the matching terminal: at every terminal event,
/// strictly more cycles have started than have finished before it.
pub open spec fn started_precedes_terminal(t: Seq<CompositionEvent>) -> bool {
    forall|i: int|
        0 <= i < t.len() && is_terminal(#[trigger] t[i]) ==> count_terminal(t.take(i))
            < count_started(t.take(i))
}

/// A prefix of a concatenation is a prefix of the head, or the head plus a
/// prefix of the tail.
proof fn lemma_take_concat(a: Seq<CompositionEvent>, b: Seq<CompositionEvent>, i: int)
    requires
        0 <= i <= a.len() + b.len(),
    ensures
        i <= a.len() ==> (a + b).take(i) == a.take(i),
        i > a.len() ==> (a + b).take(i) == a + b.take(i - a.len()),
{
    if i <= a.len() {
        assert((a + b).take(i) =~= a.take(i));
    } else {
        assert((a + b).take(i) =~= a + b.take(i - a.len()));
    }
}

/// Extending a trace whose terminals are all matched with a block whose
/// terminals are matched too keeps every terminal matched.
proof fn lemma_extend_precedes(t: Seq<CompositionEvent>, block: Seq<CompositionEvent>)
    requires
        started_precedes_terminal(t),
        forall|j: int|
            0 <= j < block.len() && is_terminal(#[trigger] block[j]) ==> count_terminal(t)
                + count_terminal(block.take(j)) < count_started(t) + count_started(block.take(j)),
    ensures
        started_precedes_terminal(t + block),
{
    let w = t + block;
    assert forall|i: int|
        0 <= i < w.len() && is_terminal(#[trigger] w[i]) implies count_terminal(w.take(i))
        < count_started(w.take(i)) by {
        lemma_take_concat(t, block, i);
        if i < t.len() {
            assert(w[i] == t[i]);
            assert(is_terminal(t[i]));
        } else {
            let j = i - t.len();
            assert(w[i] == block[j]);
            assert(is_terminal(block[j]));
            assert(w.take(i) =~= t + block.take(j));
            lemma_count_concat(t, block.take(j));
        }
    }
}

/// No event of a change's block is a terminal, and a finished invocation's
/// block starts with the terminal and may follow with one `Started`; in
/// either case the block keeps every terminal matched.
proof fn lemma_step_precedes(m: RunnerModel, message: RunnerMessage, t: Seq<CompositionEvent>)
    requires
        started_precedes_terminal(t),
        count_started(t) - count_terminal(t) == phase_debt(m.phase),
    ensures
        started_precedes_terminal(t + step_model_events(m, message)),
{
    let block = step_model_events(m, message);
    assert forall|j: int|
        0 <= j < block.len() && is_terminal(#[trigger] block[j]) implies count_terminal(t)
        + count_terminal(block.take(j)) < count_started(t) + count_started(block.take(j)) by {
        match message {
            RunnerMessage::SubgraphChanged { .. } => {
                assert(!is_terminal(block[j]));
            }
            RunnerMessage::SubgraphRemoved { .. } => {
                assert(!is_terminal(block[j]));
            }
            RunnerMessage::CompositionDone { outcome } => {
                match m.phase {
                    RunnerPhase::Idle => {}
                    RunnerPhase::Composing { queued } => {
                        // Only the leading terminal event is terminal; the
                        // running cycle's `Started` is already in `t`.
                        assert(j == 0);
                        assert(block.take(0) =~= Seq::<CompositionEvent>::empty());
                        assert(phase_debt(m.phase) == 1);
                    }
                }
            }
        }
    }
    lemma_extend_precedes(t, block);
}

/// The invariant behind the ordering law: a balanced, matched trace stays
/// balanced and matched over any further messages.
proof fn lemma_trace_invariant(
    m: RunnerModel,
    msgs: Seq<RunnerMessage>,
    t: Seq<CompositionEvent>,
)
    requires
        started_precedes_terminal(t),
        count_started(t) - count_terminal(t) == phase_debt(m.phase),
    ensures
        started_precedes_terminal(t + run_events(m, msgs)),
    decreases msgs.len(),
{
    if msgs.len() == 0 {
        assert(t + run_events(m, msgs) =~= t);
    } else {
        let block = step_model_events(m, msgs[0]);
        let m2 = step_model(m, msgs[0]);
        lemma_step_precedes(m, msgs[0], t);
        lemma_step_balance(m, msgs[0]);
        lemma_count_concat(t, block);
        lemma_trace_invariant(m2, msgs.skip(1), t + block);
        assert((t + block) + run_events(m2, msgs.skip(1)) =~= t + run_events(m, msgs));
    }
}

/// `Started` always precedes the matching cycle's `Success` or `Error`: in
/// any trace from an idle runner, every terminal event is preceded by
/// strictly more `Started` events than terminal events.
pub proof fn lemma_started_precedes_terminal(m: RunnerModel, msgs: Seq<RunnerMessage>)
    requires
        m.phase is Idle,
    ensures
        started_precedes_terminal(run_events(m, msgs)),
{
    let empty = Seq::<CompositionEvent>::empty();
    lemma_trace_invariant(m, msgs, empty);
    assert(empty + run_events(m, msgs) =~= run_events(m, msgs));
}

/// Two changes that arrive while a composition runs coalesce into exactly
/// one follow-up `Started`-to-terminal cycle, not two: once the running cycle
/// finishes, one `Started` is emitted; once the follow-up finishes, the
/// runner is idle with no further cycle queued.
pub proof fn lemma_changes_coalesce(
    m: RunnerModel,
    name1: String,
    sdl1: String,
    name2: String,
    sdl2: String,
    outcome1: CompositionOutcome,
    outcome2: CompositionOutcome,
)
    requires
        m.phase == (RunnerPhase::Composing { queued: false }),
    ensures
        ({
            let msgs = seq![
                RunnerMessage::SubgraphChanged { name: name1, sdl: sdl1 },
                RunnerMessage::SubgraphChanged { name: name2, sdl: sdl2 },
                RunnerMessage::CompositionDone { outcome: outcome1 },
                RunnerMessage::CompositionDone { outcome: outcome2 },
            ];
            &&& count_started(run_events(m, msgs)) == 1
            &&& count_terminal(run_events(m, msgs)) == 2
            &&& run_model(m, msgs).phase is Idle
        }),
{
    let msgs = seq![
        RunnerMessage::SubgraphChanged { name: name1, sdl: sdl1 },
        RunnerMessage::SubgraphChanged { name: name2, sdl: sdl2 },
        RunnerMessage::CompositionDone { outcome: outcome1 },
        RunnerMessage::CompositionDone { outcome: outcome2 },
    ];
    let m1 = step_model(m, msgs[0]);
    let m2 = step_model(m1, msgs[1]);
    let m3 = step_model(m2, msgs[2]);
    let m4 = step_model(m3, msgs[3]);
    assert(m1.phase == (RunnerPhase::Composing { queued: true }));
    assert(m2.phase == (RunnerPhase::Composing { queued: true }));
    assert(m3.phase == (RunnerPhase::Composing { queued: false }));
    assert(m4.phase is Idle);
    let tail1 = msgs.skip(1);
    let tail2 = tail1.skip(1);
    let tail3 = tail2.skip(1);
    let tail4 = tail3.skip(1);
    assert(tail1[0] == msgs[1]);
    assert(tail1.skip(1) =~= tail2);
    assert(tail2[0] == msgs[2]);
    assert(tail2.skip(1) =~= tail3);
    assert(tail3[0] == msgs[3]);
    assert(tail3.skip(1) =~= tail4);
    assert(tail4.len() == 0);
    assert(run_model(m, msgs) == run_model(m1, tail1));
    assert(run_model(m1, tail1) == run_model(m2, tail2));
    assert(run_model(m2, tail2) == run_model(m3, tail3));
    assert(run_model(m3, tail3) == run_model(m4, tail4));
    assert(run_model(m4, tail4) == m4);
    let b1 = step_model_events(m, msgs[0]);
    let b2 = step_model_events(m1, msgs[1]);
    let b3 = step_model_events(m2, msgs[2]);
    let b4 = step_model_events(m3, msgs[3]);
    assert(run_events(m4, tail4) =~= Seq::<CompositionEvent>::empty());
    assert(run_events(m3, tail3) == b4 + run_events(m4, tail4));
    assert(run_events(m2, tail2) == b3 + run_events(m3, tail3));
    assert(run_events(m1, tail1) == b2 + run_events(m2, tail2));
    assert(run_events(m, msgs) == b1 + run_events(m1, tail1));
    assert(b4 + Seq::<CompositionEvent>::empty() =~= b4);
    lemma_count_concat(b3, b4);
    lemma_count_concat(b2, b3 + b4);
    lemma_count_concat(b1, b2 + (b3 + b4));
    assert(run_events(m, msgs) == b1 + (b2 + (b3 + b4)));
    // Neither change emits a terminal event or a `Started`; the running
    // cycle's finish carries its terminal and the single follow-up `Started`;
    // the follow-up's finish carries only its terminal.
    lemma_step_balance(m, msgs[0]);
    lemma_step_balance(m1, msgs[1]);
    lemma_block_no_terminal(m, msgs[0]);
    lemma_block_no_terminal(m1, msgs[1]);
    assert(count_started(b1) == 0 && count_started(b2) == 0);
    assert(count_started(b3) == 1 && count_terminal(b3) == 1) by {
        assert(b3 == seq![terminal_event(outcome1)] + seq![CompositionEvent::Started]);
        lemma_count_single(terminal_event(outcome1));
        lemma_count_single(CompositionEvent::Started);
        lemma_count_concat(seq![terminal_event(outcome1)], seq![CompositionEvent::Started]);
    }
    assert(count_started(b4) == 0 && count_terminal(b4) == 1) by {
        assert(b4 == seq![terminal_event(outcome2)] + Seq::<CompositionEvent>::empty());
        assert(b4 =~= seq![terminal_event(outcome2)]);
        lemma_count_single(terminal_event(outcome2));
    }
}

/// A change message emits no terminal event.
proof fn lemma_block_no_terminal(m: RunnerModel, message: RunnerMessage)
    requires
        message matches RunnerMessage::SubgraphChanged { .. } || message matches
            RunnerMessage::SubgraphRemoved { .. },
    ensures
        count_terminal(step_model_events(m, message)) == 0,
{
    let block = step_model_events(m, message);
    match message {
        RunnerMessage::SubgraphChanged { name, sdl } => {
            let added = if m.names.contains(name@) {
                Seq::<CompositionEvent>::empty()
            } else {
                seq![
                    CompositionEvent::SubgraphAdded(
                        CompositionSubgraphAdded {
                            name,
                            schema_source: SchemaSource::Sdl { sdl },
                        },
                    ),
                ]
            };
            let started = if m.phase is Idle {
                seq![CompositionEvent::Started]
            } else {
                Seq::<CompositionEvent>::empty()
            };
            if added.len() > 0 {
                lemma_count_single(added[0]);
            }
            lemma_count_single(CompositionEvent::Started);
            lemma_count_concat(added, started);
        }
        RunnerMessage::SubgraphRemoved { name } => {
            if m.names.contains(name@) {
                let removed = seq![
                    CompositionEvent::SubgraphRemoved(CompositionSubgraphRemoved { name }),
                ];
                let started = if m.phase is Idle {
                    seq![CompositionEvent::Started]
                } else {
                    Seq::<CompositionEvent>::empty()
                };
                lemma_count_single(removed[0]);
                lemma_count_single(CompositionEvent::Started);
                lemma_count_concat(removed, started);
            }
        }
        RunnerMessage::CompositionDone { .. } => {}
    }
}

/// The names among a list of name-and-SDL pairs.
pub open spec fn pair_names(s: Seq<(String, String)>) -> Seq<Seq<char>> {
    s.map_values(|p: (String, String)| p.0@)
}

/// The live names that a new configuration no longer holds, in name order.
pub open spec fn removed_names(
    live: Seq<(Seq<char>, FullyResolvedSubgraph)>,
    new_names: Seq<Seq<char>>,
) -> Seq<Seq<char>>
    decreases live.len(),
{
    if live.len() == 0 {
        Seq::empty()
    } else {
        removed_names(live.drop_last(), new_names) + (if new_names.contains(live.last().0) {
            Seq::<Seq<char>>::empty()
        } else {
            seq![live.last().0]
        })
    }
}

/// Whether `name` occurs among the new pairs.
fn pairs_contain(new_subgraphs: &Vec<(String, String)>, name: &str) -> (r: bool)
    ensures
        r == pair_names(new_subgraphs@).contains(name@),
{
    let n = new_subgraphs.len();
    let mut i: usize = 0;
    while i < n
        invariant
            0 <= i <= n,
            n == new_subgraphs@.len(),
            forall|j: int| 0 <= j < i ==> pair_names(new_subgraphs@)[j] != name@,
        decreases n - i,
    {
        if crate::names::str_eq(new_subgraphs[i].0.as_str(), name) {
            proof {
                assert(pair_names(new_subgraphs@)[i as int] == name@);
            }
            return true;
        }
        i = i + 1;
    }
    proof {
        if pair_names(new_subgraphs@).contains(name@) {
            let j = choose|j: int|
                0 <= j < pair_names(new_subgraphs@).len() && pair_names(new_subgraphs@)[j]
                    == name@;
            assert(pair_names(new_subgraphs@)[j] != name@);
        }
    }
    false
}

/// Turns a changed supergraph configuration into the runner's messages: one
/// removal for every live subgraph the new configuration no longer names, in
/// name order, then one change per new entry, in the given order.  Fed to
/// [`Runner::handle_message`] one by one, the removals and additions are
/// emitted before the `Started` of the cycle that incorporates them.
pub fn config_update_messages(
    live: &NameMap<FullyResolvedSubgraph>,
    new_subgraphs: Vec<(String, String)>,
) -> (r: Vec<RunnerMessage>)
    ensures
        ({
            let removed = removed_names(live@, pair_names(new_subgraphs@));
            &&& r@.len() == removed.len() + new_subgraphs@.len()
            &&& forall|i: int|
                0 <= i < removed.len() ==> ((#[trigger] r@[i]) matches
                    RunnerMessage::SubgraphRemoved { name } && name@ == removed[i])
            &&& forall|j: int|
                0 <= j < new_subgraphs@.len() ==> r@[removed.len() + j]
                    == (RunnerMessage::SubgraphChanged {
                    name: (#[trigger] new_subgraphs@[j]).0,
                    sdl: new_subgraphs@[j].1,
                })
        }),
{
    let ghost s = live@;
    let ghost new_names = pair_names(new_subgraphs@);
    let mut out: Vec<RunnerMessage> = Vec::new();
    let n = live.len();
    let mut i: usize = 0;
    while i < n
        invariant
            0 <= i <= n,
            n == s.len(),
            s == live@,
            new_names == pair_names(new_subgraphs@),
            out@.len() == removed_names(s.take(i as int), new_names).len(),
            forall|k: int|
                0 <= k < out@.len() ==> ((#[trigger] out@[k]) matches
                    RunnerMessage::SubgraphRemoved { name } && name@ == removed_names(
                    s.take(i as int),
                    new_names,
                )[k]),
        decreases n - i,
    {
        let entry = live.get_at(i);
        proof {
            assert(s.take(i + 1).drop_last() =~= s.take(i as int));
            assert(s.take(i + 1).last() == s[i as int]);
        }
        if !pairs_contain(&new_subgraphs, entry.0.as_str()) {
            out.push(RunnerMessage::SubgraphRemoved { name: entry.0.clone() });
        }
        i = i + 1;
    }
    proof {
        assert(s.take(n as int) =~= s);
    }
    let ghost removed = removed_names(s, new_names);
    let ghost pairs0 = new_subgraphs@;
    let mut rest = new_subgraphs;
    while rest.len() > 0
        invariant
            rest@.len() <= pairs0.len(),
            rest@ =~= pairs0.skip(pairs0.len() - rest@.len()),
            new_names == pair_names(pairs0),
            removed == removed_names(s, new_names),
            out@.len() == removed.len() + pairs0.len() - rest@.len(),
            forall|k: int|
                0 <= k < removed.len() ==> ((#[trigger] out@[k]) matches
                    RunnerMessage::SubgraphRemoved { name } && name@ == removed[k]),
            forall|j: int|
                0 <= j < pairs0.len() - rest@.len() ==> out@[removed.len() + j]
                    == (RunnerMessage::SubgraphChanged {
                    name: (#[trigger] pairs0[j]).0,
                    sdl: pairs0[j].1,
                }),
        decreases rest@.len(),
    {
        let ghost k = pairs0.len() - rest@.len();
        let ghost prev = rest@;
        let (name, sdl) = rest.remove(0);
        proof {
            assert(prev[0] == pairs0.skip(k)[0]);
            assert(pairs0.skip(k)[0] == pairs0[k]);
            assert(rest@ =~= prev.skip(1));
            assert(rest@ =~= pairs0.skip(k + 1));
        }
        out.push(RunnerMessage::SubgraphChanged { name, sdl });
    }
    out
}

/// The composition runner's live state.
pub struct Runner {
    pub phase: RunnerPhase,
    pub subgraphs: NameMap<FullyResolvedSubgraph>,
}

impl Runner {
    /// The live configuration stays well formed.
    pub open spec fn wf(&self) -> bool {
        self.subgraphs.wf()
    }

    /// The ghost summary the trace laws speak of.
    pub open spec fn model(&self) -> RunnerModel {
        RunnerModel { phase: self.phase, names: names_of(self.subgraphs@) }
    }

    /// Starts an idle runner on a fully resolved configuration.
    pub fn new(config: FullyResolvedSupergraphConfig) -> (r: Runner)
        requires
            config.subgraphs.wf(),
        ensures
            r.wf(),
            r.phase is Idle,
            r.subgraphs@ == config.subgraphs@,
    {
        Runner { phase: RunnerPhase::Idle, subgraphs: config.subgraphs }
    }

    /// Snapshots the live subgraphs' SDLs for a composition invocation.
    fn composition_action(&self) -> (r: CompositionAction)
        ensures
            r.subgraph_sdls@.map_values(|p: (String, String)| (p.0@, p.1)) == sdl_pairs(
                self.subgraphs@,
            ),
    {
        let ghost s = self.subgraphs@;
        let n = self.subgraphs.len();
        let mut out: Vec<(String, String)> = Vec::new();
        let mut i: usize = 0;
        while i < n
            invariant
                0 <= i <= n,
                n == s.len(),
                s == self.subgraphs@,
                out@.len() == i,
                forall|j: int|
                    0 <= j < i ==> (#[trigger] out@[j]).0@ == s[j].0 && out@[j].1 == s[j].1.schema,
            decreases n - i,
        {
            let entry = self.subgraphs.get_at(i);
            out.push((entry.0.clone(), entry.1.schema.clone()));
            i = i + 1;
        }
        proof {
            assert(out@.map_values(|p: (String, String)| (p.0@, p.1)) =~= sdl_pairs(s));
        }
        CompositionAction { subgraph_sdls: out }
    }

    /// Handles one message of the merged stream: updates the live
    /// configuration, moves the phase, and returns the emitted events along
    /// with the composition invocation to perform, if one is due.
    pub fn handle_message(&mut self, message: RunnerMessage) -> (r: (
        Vec<CompositionEvent>,
        Option<CompositionAction>,
    ))
        requires
            old(self).wf(),
        ensures
            final(self).wf(),
            r.0@ == step_model_events(old(self).model(), message),
            final(self).phase == step_model(old(self).model(), message).phase,
            names_of(final(self).subgraphs@) == step_model(old(self).model(), message).names,
            r.1 is Some <==> starts_composition(old(self).model(), message),
            r.1 matches Some(a) ==> a.subgraph_sdls@.map_values(|p: (String, String)| (p.0@, p.1))
                == sdl_pairs(final(self).subgraphs@),
            message matches RunnerMessage::SubgraphChanged { name, sdl } ==> find_name(
                final(self).subgraphs@,
                name@,
            ) == Some(
                FullyResolvedSubgraph {
                    routing_url: match find_name(old(self).subgraphs@, name@) {
                        Some(prev) => prev.routing_url,
                        None => None,
                    },
                    schema: sdl,
                    is_fed_two: sdl_is_fed_two(sdl@),
                },
            ) && (forall|n: Seq<char>|
                n != name@ ==> find_name(final(self).subgraphs@, n) == find_name(
                    old(self).subgraphs@,
                    n,
                )),
            message matches RunnerMessage::SubgraphRemoved { name } ==> !has_name(
                final(self).subgraphs@,
                name@,
            ) && (forall|n: Seq<char>|
                n != name@ ==> find_name(final(self).subgraphs@, n) == find_name(
                    old(self).subgraphs@,
                    n,
                )),
            message matches RunnerMessage::CompositionDone { .. } ==> final(self).subgraphs@
                == old(self).subgraphs@,
    {
        let ghost m0 = old(self).model();
        match message {
            RunnerMessage::SubgraphChanged { name, sdl } => {
                let was_present = self.subgraphs.contains_name(name.as_str());
                let routing_url = match self.subgraphs.get(name.as_str()) {
                    Some(prev) => match &prev.routing_url {
                        Some(u) => Some(u.clone()),
                        None => None,
                    },
                    None => None,
                };
                let is_fed_two = schema_contains_link_directive(sdl.as_str());
                let entry = FullyResolvedSubgraph { routing_url, schema: sdl.clone(), is_fed_two };
                self.subgraphs.insert(name.clone(), entry);
                proof {
                    assert(names_of(self.subgraphs@) =~= m0.names.insert(name@));
                }
                let mut events: Vec<CompositionEvent> = Vec::new();
                if !was_present {
                    events.push(
                        CompositionEvent::SubgraphAdded(
                            CompositionSubgraphAdded {
                                name,
                                schema_source: SchemaSource::Sdl { sdl },
                            },
                        ),
                    );
                }
                match self.phase {
                    RunnerPhase::Idle => {
                        events.push(CompositionEvent::Started);
                        self.phase = RunnerPhase::Composing { queued: false };
                        let action = self.composition_action();
                        proof {
                            assert(events@ =~= step_model_events(
                                m0,
                                RunnerMessage::SubgraphChanged { name, sdl },
                            ));
                        }
                        (events, Some(action))
                    }
                    RunnerPhase::Composing { .. } => {
                        self.phase = RunnerPhase::Composing { queued: true };
                        proof {
                            assert(events@ =~= step_model_events(
                                m0,
                                RunnerMessage::SubgraphChanged { name, sdl },
                            ));
                        }
                        (events, None)
                    }
                }
            }
            RunnerMessage::SubgraphRemoved { name } => {
                let was_present = self.subgraphs.contains_name(name.as_str());
                if !was_present {
                    proof {
                        assert(Seq::<CompositionEvent>::empty() =~= step_model_events(
                            m0,
                            RunnerMessage::SubgraphRemoved { name },
                        ));
                    }
                    (Vec::new(), None)
                } else {
                    self.subgraphs.remove(name.as_str());
                    proof {
                        assert(names_of(self.subgraphs@) =~= m0.names.remove(name@));
                    }
                    let mut events: Vec<CompositionEvent> = Vec::new();
                    events.push(
                        CompositionEvent::SubgraphRemoved(CompositionSubgraphRemoved { name }),
                    );
                    match self.phase {
                        RunnerPhase::Idle => {
                            events.push(CompositionEvent::Started);
                            self.phase = RunnerPhase::Composing { queued: false };
                            let action = self.composition_action();
                            proof {
                                assert(events@ =~= step_model_events(
                                    m0,
                                    RunnerMessage::SubgraphRemoved { name },
                                ));
                            }
                            (events, Some(action))
                        }
                        RunnerPhase::Composing { .. } => {
                            self.phase = RunnerPhase::Composing { queued: true };
                            proof {
                                assert(events@ =~= step_model_events(
                                    m0,
                                    RunnerMessage::SubgraphRemoved { name },
                                ));
                            }
                            (events, None)
                        }
                    }
                }
            }
            RunnerMessage::CompositionDone { outcome } => {
                match self.phase {
                    RunnerPhase::Idle => {
                        proof {
                            assert(Seq::<CompositionEvent>::empty() =~= step_model_events(
                                m0,
                                RunnerMessage::CompositionDone { outcome },
                            ));
                        }
                        (Vec::new(), None)
                    }
                    RunnerPhase::Composing { queued } => {
                        let mut events: Vec<CompositionEvent> = Vec::new();
                        let terminal = match outcome {
                            CompositionOutcome::Success {
                                supergraph_sdl,
                                federation_version,
                                hints,
                            } => CompositionEvent::Success(
                                CompositionSuccess {
                                    supergraph_sdl,
                                    federation_version,
                                    hints,
                                },
                            ),
                            CompositionOutcome::BuildErrors { errors } => CompositionEvent::Error(
                                CompositionError::Build { source: errors },
                            ),
                            CompositionOutcome::Failed { cause } => CompositionEvent::Error(
                                CompositionError::Infrastructure { cause },
                            ),
                        };
                        events.push(terminal);
                        if queued {
                            events.push(CompositionEvent::Started);
                            self.phase = RunnerPhase::Composing { queued: false };
                            let action = self.composition_action();
                            proof {
                                assert(events@ =~= step_model_events(
                                    m0,
                                    RunnerMessage::CompositionDone { outcome },
                                ));
                            }
                            (events, Some(action))
                        } else {
                            self.phase = RunnerPhase::Idle;
                            proof {
                                assert(events@ =~= step_model_events(
                                    m0,
                                    RunnerMessage::CompositionDone { outcome },
                                ));
                            }
                            (events, None)
                        }
                    }
                }
            }
        }
    }
}

} // verus!
