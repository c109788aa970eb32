//! The decisions of configuring the network: in which order sessions are opened, ports
//! are edited, candidates are committed and sessions are closed, and which ports have failed.
//!
//! A [`ConfigurationRun`] makes the decisions and does none of the work. Whoever drives it asks
//! for the next [`SessionAction`], carries it out on the network, and records whether it
//! succeeded, until the run is finished.

use crate::cnc::storage::select::contains_id;
use crate::cnc::topology::node_with_id;
use crate::cnc::types::scheduling::{
    Config, ConfigModel, PortConfiguration, PortConfigurationModel, Schedule, ScheduleModel,
};
use crate::cnc::types::topology::{
    SSHConfigurationParams, SSHConfigurationParamsModel, Topology, TopologyModel,
};
use crate::cnc::types::tsn_types::{GroupInterfaceId, GroupInterfaceIdModel};
use crate::cnc::types::{
    ConfigurationResult, ConfigurationResultModel, FailedInterface, FailedInterfaceModel,
    FailedInterfaces, FailedInterfacesModel,
};
use vstd::prelude::*;

verus! {

/// The ids of `ids` in their order, each only where it occurs first.
pub open spec fn without_repeats(ids: Seq<Seq<char>>) -> Seq<Seq<char>>
    decreases ids.len(),
{
    if ids.len() == 0 {
        Seq::empty()
    } else {
        let before = without_repeats(ids.drop_last());
        if before.contains(ids.last()) {
            before
        } else {
            before.push(ids.last())
        }
    }
}

/// `without_repeats` holds the ids of the list and no others, and none twice.
pub proof fn lemma_without_repeats(ids: Seq<Seq<char>>)
    ensures
        without_repeats(ids).no_duplicates(),
        forall|id: Seq<char>| without_repeats(ids).contains(id) <==> ids.contains(id),
    decreases ids.len(),
{
    if ids.len() > 0 {
        let front = ids.drop_last();
        lemma_without_repeats(front);
        let before = without_repeats(front);
        let after = without_repeats(ids);
        assert forall|id: Seq<char>| after.contains(id) <==> ids.contains(id) by {
            if ids.contains(id) {
                let i = choose|i: int| 0 <= i < ids.len() && ids[i] == id;
                if i < front.len() {
                    assert(front[i] == id);
                    assert(front.contains(id));
                    assert(before.contains(id));
                    let j = choose|j: int| 0 <= j < before.len() && before[j] == id;
                    assert(after[j] == id);
                } else {
                    if before.contains(id) {
                    } else {
                        assert(after[after.len() - 1] == id);
                    }
                }
            }
            if after.contains(id) {
                let j = choose|j: int| 0 <= j < after.len() && after[j] == id;
                if j < before.len() {
                    assert(before[j] == id);
                    assert(front.contains(id));
                    let i = choose|i: int| 0 <= i < front.len() && front[i] == id;
                    assert(ids[i] == id);
                } else {
                    assert(ids[ids.len() - 1] == id);
                }
            }
        }
    }
}

/// Copies the ids of `ids`, each only where it occurs first.
pub fn copy_without_repeats(ids: &Vec<String>) -> (r: Vec<String>)
    ensures
        r.deep_view() == without_repeats(ids.deep_view()),
{
    let ghost all = ids.deep_view();
    let mut out: Vec<String> = Vec::new();
    let mut i: usize = 0;
    proof {
        assert(out.deep_view() =~= without_repeats(all.take(0)));
    }
    while i < ids.len()
        invariant
            i <= ids.len(),
            all == ids.deep_view(),
            out.deep_view() == without_repeats(all.take(i as int)),
        decreases ids.len() - i,
    {
        let ghost before = out.deep_view();
        proof {
            assert(all.take(i + 1).drop_last() =~= all.take(i as int));
            assert(all.take(i + 1).last() == all[i as int]);
        }
        if !contains_id(&out, &ids[i]) {
            out.push(ids[i].clone());
            proof {
                assert(out.deep_view() =~= before.push(all[i as int]));
            }
        }
        i += 1;
    }
    proof {
        assert(all.take(i as int) =~= all);
    }
    out
}

/// The record of the failure of the port that `config` configures.
pub open spec fn failure_of(config: ConfigModel) -> FailedInterfaceModel {
    FailedInterfaceModel {
        interface: GroupInterfaceIdModel {
            mac_address: config.port.mac_address,
            interface_name: config.port.name,
        },
        node_id: config.node_id,
        affected_streams: without_repeats(config.affected_streams),
    }
}

/// Builds the record of the failure of the port that `config` configures.
pub fn new_failure(config: &Config) -> (r: FailedInterface)
    ensures
        r.deep_view() == failure_of(config.deep_view()),
{
    FailedInterface {
        interface: GroupInterfaceId {
            mac_address: config.port.mac_address.clone(),
            interface_name: config.port.name.clone(),
        },
        node_id: config.node_id,
        affected_streams: copy_without_repeats(&config.affected_streams),
    }
}

/// How a Bridge is reached, for each configuration of a schedule: the parameters of the first
/// station of the topology that has the configuration's node id, where it has any.
pub open spec fn targets_of(topology: TopologyModel, configs: Seq<ConfigModel>) -> Seq<
    Option<SSHConfigurationParamsModel>,
> {
    Seq::new(
        configs.len(),
        |i: int|
            match node_with_id(topology.nodes, configs[i].node_id) {
                Some(node) => node.configuration_params,
                None => None,
            },
    )
}

/// Where a run stands.
#[derive(Clone, Copy, Debug, PartialEq, Eq, Structural)]
pub enum RunStage {
    /// Ports are being edited; `next` of the run is the configuration in work.
    Editing,
    /// The candidate of the session with this position is to be committed.
    Committing(usize),
    /// The session with this position is to be closed.
    Closing(usize),
    /// Nothing is left to do.
    Finished,
}

/// What the driver of a run has to do next.
#[derive(Debug)]
pub enum SessionAction {
    /// Open a session to the Bridge `node_id` and exchange `<hello>`.
    Connect { node_id: u32, params: SSHConfigurationParams },
    /// Edit the candidate of the Bridge `node_id` so that it holds `port`.
    EditPort { node_id: u32, port: PortConfiguration },
    /// Commit the candidate of the Bridge `node_id`.
    Commit { node_id: u32 },
    /// Close the session to the Bridge `node_id`. A failure to do so is passed over.
    Close { node_id: u32 },
    /// The run is finished: take its result.
    Finished,
}

/// What a [`SessionAction`] holds, as a mathematical value.
pub enum SessionActionModel {
    Connect { node_id: u32, params: SSHConfigurationParamsModel },
    EditPort { node_id: u32, port: PortConfigurationModel },
    Commit { node_id: u32 },
    Close { node_id: u32 },
    Finished,
}

impl DeepView for SessionAction {
    type V = SessionActionModel;

    open spec fn deep_view(&self) -> SessionActionModel {
        match self {
            SessionAction::Connect { node_id, params } => SessionActionModel::Connect {
                node_id: *node_id,
                params: params.deep_view(),
            },
            SessionAction::EditPort { node_id, port } => SessionActionModel::EditPort {
                node_id: *node_id,
                port: port.deep_view(),
            },
            SessionAction::Commit { node_id } => SessionActionModel::Commit { node_id: *node_id },
            SessionAction::Close { node_id } => SessionActionModel::Close { node_id: *node_id },
            SessionAction::Finished => SessionActionModel::Finished,
        }
    }
}

/// The state of a run, as a mathematical value.
pub struct RunModel {
    /// The configurations to write, in the order of the schedule.
    pub configs: Seq<ConfigModel>,
    /// How the Bridge of each configuration is reached, if it can be.
    pub targets: Seq<Option<SSHConfigurationParamsModel>>,
    /// The configuration in work while ports are edited.
    pub next: int,
    /// The Bridges to which a session is open, in the order in which they were opened.
    pub sessions: Seq<u32>,
    /// The positions of the configurations that were edited into a candidate.
    pub edited: Seq<usize>,
    /// The ports that have failed so far: those for which no session could be opened, those
    /// whose edit failed, and those that were edited on a Bridge whose commit failed.
    pub failed: Seq<FailedInterfaceModel>,
    /// The ports that were edited but are not in effect because the run did not commit.
    pub uncommitted: Seq<FailedInterfaceModel>,
    /// Whether candidates are committed: decided when the last port was edited.
    pub commit: bool,
    /// Where the run stands.
    pub stage: RunStage,
}

/// Whether the state of a run is in order: positions are in range, and the stage fits the rest.
pub open spec fn run_valid(s: RunModel) -> bool {
    &&& s.targets.len() == s.configs.len()
    &&& 0 <= s.next <= s.configs.len() <= usize::MAX
    &&& forall|e: int| 0 <= e < s.edited.len() ==> 0 <= #[trigger] s.edited[e] < s.configs.len()
    &&& s.sessions.len() <= s.next + (if s.stage == RunStage::Editing && s.sessions.contains(
        s.configs[s.next].node_id,
    ) {
        1int
    } else {
        0int
    })
    &&& match s.stage {
        RunStage::Editing => s.next < s.configs.len() && (s.sessions.contains(
            s.configs[s.next].node_id,
        ) || s.targets[s.next] is Some),
        RunStage::Committing(i) => s.next == s.configs.len() && i < s.sessions.len() && s.commit,
        RunStage::Closing(i) => s.next == s.configs.len() && i < s.sessions.len(),
        RunStage::Finished => s.next == s.configs.len(),
    }
}

/// Whether the configuration in work needs no action to fail: no session is open to its Bridge
/// and the Bridge cannot be reached.
pub open spec fn unreachable(s: RunModel) -> bool {
    s.next < s.configs.len() && !s.sessions.contains(s.configs[s.next].node_id) && s.targets[s.next]
        is None
}

/// The stage in which the sessions are wound up, from the session at position `i` on.
pub open spec fn winding_up(s: RunModel, i: int) -> RunStage {
    if i >= s.sessions.len() {
        RunStage::Finished
    } else if s.commit {
        RunStage::Committing(i as usize)
    } else {
        RunStage::Closing(i as usize)
    }
}

/// The failure of the configuration at the position `e`.
pub open spec fn failure_at(configs: Seq<ConfigModel>) -> spec_fn(usize) -> FailedInterfaceModel {
    |e: usize| failure_of(configs[e as int])
}

/// The state after everything was done that needs no action, while ports are edited: each
/// configuration in work whose Bridge cannot be reached has failed, and after the last
/// configuration the run decides whether to commit: only if no port has failed. If it does
/// not commit, the ports that were edited are noted as uncommitted; they have not failed.
pub open spec fn settled(s: RunModel) -> RunModel
    decreases s.configs.len() - s.next,
{
    if s.next >= s.configs.len() {
        let commit = s.failed.len() == 0;
        let uncommitted = if commit {
            s.uncommitted
        } else {
            s.uncommitted + s.edited.map_values(failure_at(s.configs))
        };
        let done = RunModel { commit, uncommitted, ..s };
        RunModel { stage: winding_up(done, 0), ..done }
    } else if unreachable(s) {
        settled(
            RunModel {
                failed: s.failed.push(failure_of(s.configs[s.next])),
                next: s.next + 1,
                ..s
            },
        )
    } else {
        RunModel { stage: RunStage::Editing, ..s }
    }
}

/// The state in which a run starts.
pub open spec fn run_start(topology: TopologyModel, schedule: ScheduleModel) -> RunModel {
    settled(
        RunModel {
            configs: schedule.configs,
            targets: targets_of(topology, schedule.configs),
            next: 0,
            sessions: Seq::empty(),
            edited: Seq::empty(),
            failed: Seq::empty(),
            uncommitted: Seq::empty(),
            commit: false,
            stage: RunStage::Editing,
        },
    )
}

/// What a run in the state `s` has come to so far.
pub open spec fn result_of(s: RunModel) -> ConfigurationResultModel {
    ConfigurationResultModel {
        failed_interfaces: FailedInterfacesModel { interfaces: s.failed },
        uncommitted_interfaces: FailedInterfacesModel { interfaces: s.uncommitted },
    }
}

/// What is to be done next in the state `s`.
pub open spec fn action_of(s: RunModel) -> SessionActionModel {
    match s.stage {
        RunStage::Editing => {
            let config = s.configs[s.next];
            if s.sessions.contains(config.node_id) {
                SessionActionModel::EditPort { node_id: config.node_id, port: config.port }
            } else {
                SessionActionModel::Connect {
                    node_id: config.node_id,
                    params: s.targets[s.next]->0,
                }
            }
        },
        RunStage::Committing(i) => SessionActionModel::Commit { node_id: s.sessions[i as int] },
        RunStage::Closing(i) => SessionActionModel::Close { node_id: s.sessions[i as int] },
        RunStage::Finished => SessionActionModel::Finished,
    }
}

/// The failures of the configurations that were edited into the candidate of the Bridge
/// `node_id`, in the order in which they were edited.
pub open spec fn failures_of_node(
    configs: Seq<ConfigModel>,
    edited: Seq<usize>,
    node_id: u32,
) -> Seq<FailedInterfaceModel>
    decreases edited.len(),
{
    if edited.len() == 0 {
        Seq::empty()
    } else {
        let before = failures_of_node(configs, edited.drop_last(), node_id);
        if configs[edited.last() as int].node_id == node_id {
            before.push(failure_of(configs[edited.last() as int]))
        } else {
            before
        }
    }
}

/// The state after the action of the state `s` was carried out and succeeded (`ok`) or failed.
///
/// While ports are edited: a session that was opened is entered, and the same configuration
/// stays in work; a port that was edited is noted; a failure of either makes the port of the
/// configuration in work a failed one. When candidates are committed: a failure makes every
/// port that was edited on that Bridge a failed one; the session is closed next in any case.
pub open spec fn recorded(s: RunModel, ok: bool) -> RunModel {
    match s.stage {
        RunStage::Editing => {
            let config = s.configs[s.next];
            if !ok {
                settled(RunModel {
                    failed: s.failed.push(failure_of(config)),
                    next: s.next + 1,
                    ..s
                })
            } else if s.sessions.contains(config.node_id) {
                settled(RunModel { edited: s.edited.push(s.next as usize), next: s.next + 1, ..s })
            } else {
                RunModel { sessions: s.sessions.push(config.node_id), ..s }
            }
        },
        RunStage::Committing(i) => {
            let failed = if ok {
                s.failed
            } else {
                s.failed + failures_of_node(s.configs, s.edited, s.sessions[i as int])
            };
            RunModel { failed, stage: RunStage::Closing(i), ..s }
        },
        RunStage::Closing(i) => RunModel { stage: winding_up(s, i + 1), ..s },
        RunStage::Finished => s,
    }
}

/// The state after the actions of the run were carried out with the outcomes `outcomes`, one
/// after the other.
pub open spec fn after(s: RunModel, outcomes: Seq<bool>) -> RunModel
    decreases outcomes.len(),
{
    if outcomes.len() == 0 {
        s
    } else {
        recorded(after(s, outcomes.drop_last()), outcomes.last())
    }
}

/// Settling keeps a state in order, and a port that has failed stays failed.
pub proof fn lemma_settled_valid(s: RunModel)
    requires
        s.targets.len() == s.configs.len(),
        0 <= s.next <= s.configs.len() <= usize::MAX,
        forall|e: int| 0 <= e < s.edited.len() ==> 0 <= #[trigger] s.edited[e] < s.configs.len(),
        s.sessions.len() <= s.next,
    ensures
        run_valid(settled(s)),
        settled(s).failed.len() >= s.failed.len(),
        settled(s).configs == s.configs,
        s.failed.len() > 0 ==> !settled(s).commit || settled(s).stage == RunStage::Editing,
        settled(s).stage != RunStage::Editing ==> settled(s).commit == (settled(s).failed.len()
            == 0),
        settled(s).stage == RunStage::Editing ==> settled(s).commit == s.commit,
    decreases s.configs.len() - s.next,
{
    if s.next < s.configs.len() && unreachable(s) {
        lemma_settled_valid(
            RunModel {
                failed: s.failed.push(failure_of(s.configs[s.next])),
                next: s.next + 1,
                ..s
            },
        );
    }
}

/// Recording an outcome keeps a state in order.
pub proof fn lemma_recorded_valid(s: RunModel, ok: bool)
    requires
        run_valid(s),
    ensures
        run_valid(recorded(s, ok)),
        recorded(s, ok).failed.len() >= s.failed.len(),
{
    match s.stage {
        RunStage::Editing => {
            let config = s.configs[s.next];
            if !ok {
                lemma_settled_valid(
                    RunModel { failed: s.failed.push(failure_of(config)), next: s.next + 1, ..s },
                );
            } else if s.sessions.contains(config.node_id) {
                let t = RunModel { edited: s.edited.push(s.next as usize), next: s.next + 1, ..s };
                assert forall|e: int| 0 <= e < t.edited.len() implies 0 <= #[trigger] t.edited[e]
                    < t.configs.len() by {
                    if e < s.edited.len() {
                        assert(t.edited[e] == s.edited[e]);
                    }
                }
                lemma_settled_valid(t);
            } else {
                let t = recorded(s, ok);
                assert(t.sessions[t.sessions.len() - 1] == config.node_id);
            }
        },
        _ => {},
    }
}

/// Whether a run that is in the state `s` will not commit any more: a port has failed, and the
/// run still edits ports or has decided not to commit.
pub open spec fn commit_ruled_out(s: RunModel) -> bool {
    &&& run_valid(s)
    &&& s.failed.len() > 0
    &&& s.stage == RunStage::Editing || !s.commit
}

/// A run in which committing is ruled out stays so, whatever the outcome of its next action.
pub proof fn lemma_commit_stays_ruled_out(s: RunModel, ok: bool)
    requires
        commit_ruled_out(s),
    ensures
        commit_ruled_out(recorded(s, ok)),
{
    lemma_recorded_valid(s, ok);
    match s.stage {
        RunStage::Editing => {
            let config = s.configs[s.next];
            if !ok {
                lemma_settled_valid(
                    RunModel { failed: s.failed.push(failure_of(config)), next: s.next + 1, ..s },
                );
            } else if s.sessions.contains(config.node_id) {
                let t = RunModel { edited: s.edited.push(s.next as usize), next: s.next + 1, ..s };
                assert forall|e: int| 0 <= e < t.edited.len() implies 0 <= #[trigger] t.edited[e]
                    < t.configs.len() by {
                    if e < s.edited.len() {
                        assert(t.edited[e] == s.edited[e]);
                    }
                }
                lemma_settled_valid(t);
            }
        },
        _ => {},
    }
}

/// All or nothing. If opening a session or editing a port fails, the run has at least one
/// failed port from then on, and it never asks for a commit again, whatever the outcomes of
/// the actions that follow: a configuration that is not complete is not committed.
pub proof fn lemma_all_or_nothing(s: RunModel, outcomes: Seq<bool>)
    requires
        run_valid(s),
        action_of(s) is Connect || action_of(s) is EditPort,
    ensures
        after(recorded(s, false), outcomes).failed.len() > 0,
        !(action_of(after(recorded(s, false), outcomes)) is Commit),
        commit_ruled_out(after(recorded(s, false), outcomes)),
    decreases outcomes.len(),
{
    if outcomes.len() == 0 {
        let config = s.configs[s.next];
        lemma_settled_valid(
            RunModel { failed: s.failed.push(failure_of(config)), next: s.next + 1, ..s },
        );
    } else {
        lemma_all_or_nothing(s, outcomes.drop_last());
        lemma_commit_stays_ruled_out(
            after(recorded(s, false), outcomes.drop_last()),
            outcomes.last(),
        );
    }
}

/// The failures of the configurations before the position `next` that are not among `edited`,
/// in the order of the schedule.
pub open spec fn failures_before(configs: Seq<ConfigModel>, edited: Seq<usize>, next: int) -> Seq<
    FailedInterfaceModel,
>
    decreases next,
{
    if next <= 0 {
        Seq::empty()
    } else {
        let before = failures_before(configs, edited, next - 1);
        if edited.contains((next - 1) as usize) {
            before
        } else {
            before.push(failure_of(configs[next - 1]))
        }
    }
}

/// Whether the failed ports of a run are exactly the ports of the configurations handled so
/// far whose session could not be opened or whose edit failed: one record for each of them,
/// in the order of the schedule, and none for a configuration that was edited.
pub open spec fn fails_exactly(s: RunModel) -> bool {
    &&& s.failed == failures_before(s.configs, s.edited, s.next)
    &&& forall|e: int| 0 <= e < s.edited.len() ==> #[trigger] s.edited[e] < s.next
}

/// Whether an edited position is among `edited` does not change for positions before `next`
/// when `next` itself is added.
pub proof fn lemma_failures_before_push(configs: Seq<ConfigModel>, edited: Seq<usize>, next: int, n: int)
    requires
        0 <= n <= next <= usize::MAX,
    ensures
        failures_before(configs, edited.push(next as usize), n) == failures_before(
            configs,
            edited,
            n,
        ),
    decreases n,
{
    if n > 0 {
        lemma_failures_before_push(configs, edited, next, n - 1);
        let longer = edited.push(next as usize);
        let at = (n - 1) as usize;
        if edited.contains(at) {
            let i = choose|i: int| 0 <= i < edited.len() && edited[i] == at;
            assert(longer[i] == at);
        }
        if longer.contains(at) {
            let i = choose|i: int| 0 <= i < longer.len() && longer[i] == at;
            assert(i < edited.len());
            assert(edited[i] == at);
        }
    }
}

/// Settling keeps the failed ports exact.
pub proof fn lemma_settled_fails_exactly(s: RunModel)
    requires
        s.targets.len() == s.configs.len(),
        0 <= s.next <= s.configs.len() <= usize::MAX,
        fails_exactly(s),
    ensures
        fails_exactly(settled(s)),
    decreases s.configs.len() - s.next,
{
    if s.next < s.configs.len() && unreachable(s) {
        let t = RunModel { failed: s.failed.push(failure_of(s.configs[s.next])), next: s.next + 1, ..s };
        assert(!s.edited.contains(s.next as usize));
        lemma_settled_fails_exactly(t);
    }
}

/// While ports are edited, the failed ports stay exact: a session that cannot be opened and
/// an edit that fails add the record of their port, and a success adds none. A commit that is
/// skipped adds none either.
pub proof fn lemma_recorded_fails_exactly(s: RunModel, ok: bool)
    requires
        run_valid(s),
        s.stage == RunStage::Editing,
        fails_exactly(s),
    ensures
        fails_exactly(recorded(s, ok)),
{
    let config = s.configs[s.next];
    assert(!s.edited.contains(s.next as usize));
    if !ok {
        lemma_settled_fails_exactly(
            RunModel { failed: s.failed.push(failure_of(config)), next: s.next + 1, ..s },
        );
    } else if s.sessions.contains(config.node_id) {
        let t = RunModel { edited: s.edited.push(s.next as usize), next: s.next + 1, ..s };
        lemma_failures_before_push(s.configs, s.edited, s.next, s.next);
        assert(t.edited[t.edited.len() - 1] == s.next as usize);
        assert(t.edited.contains(s.next as usize));
        assert forall|e: int| 0 <= e < t.edited.len() implies #[trigger] t.edited[e] < t.next by {
            if e < s.edited.len() {
                assert(t.edited[e] == s.edited[e]);
            }
        }
        lemma_settled_fails_exactly(t);
    }
}

/// A run starts with the failed ports exact.
pub proof fn lemma_run_start_fails_exactly(topology: TopologyModel, schedule: ScheduleModel)
    requires
        schedule.configs.len() <= usize::MAX,
    ensures
        fails_exactly(run_start(topology, schedule)),
{
    lemma_settled_fails_exactly(
        RunModel {
            configs: schedule.configs,
            targets: targets_of(topology, schedule.configs),
            next: 0,
            sessions: Seq::empty(),
            edited: Seq::empty(),
            failed: Seq::empty(),
            uncommitted: Seq::empty(),
            commit: false,
            stage: RunStage::Editing,
        },
    );
}

/// An upper bound on the number of actions that a run in the state `s` still asks for.
pub open spec fn steps_left(s: RunModel) -> int {
    match s.stage {
        RunStage::Editing => 5 * (s.configs.len() - s.next) + 2 * s.sessions.len() - (if s.sessions.contains(
            s.configs[s.next].node_id,
        ) {
            3int
        } else {
            0int
        }),
        RunStage::Committing(i) => 2 * (s.sessions.len() - i),
        RunStage::Closing(i) => 2 * (s.sessions.len() - i) - 1,
        RunStage::Finished => 0,
    }
}

/// Settling leaves no more to do than one connection, one edit, one commit and one close for
/// each configuration that is left, and a commit and a close for each session that is open.
pub proof fn lemma_settled_steps(s: RunModel)
    requires
        s.targets.len() == s.configs.len(),
        0 <= s.next <= s.configs.len() <= usize::MAX,
        forall|e: int| 0 <= e < s.edited.len() ==> 0 <= #[trigger] s.edited[e] < s.configs.len(),
        s.sessions.len() <= s.next,
    ensures
        0 <= steps_left(settled(s)) <= 5 * (s.configs.len() - s.next) + 2 * s.sessions.len(),
        settled(s).sessions == s.sessions,
    decreases s.configs.len() - s.next,
{
    if s.next < s.configs.len() && unreachable(s) {
        lemma_settled_steps(
            RunModel {
                failed: s.failed.push(failure_of(s.configs[s.next])),
                next: s.next + 1,
                ..s
            },
        );
    }
}

/// Every run comes to an end: each outcome that is recorded leaves fewer actions to ask for,
/// so that a driver that carries out one action after the other reaches the end of the run.
pub proof fn lemma_run_progress(s: RunModel, ok: bool)
    requires
        run_valid(s),
        s.stage != RunStage::Finished,
    ensures
        0 <= steps_left(recorded(s, ok)) < steps_left(s),
{
    if s.stage == RunStage::Editing {
        let config = s.configs[s.next];
        if !ok {
            lemma_settled_steps(
                RunModel { failed: s.failed.push(failure_of(config)), next: s.next + 1, ..s },
            );
        } else if s.sessions.contains(config.node_id) {
            let t = RunModel { edited: s.edited.push(s.next as usize), next: s.next + 1, ..s };
            assert forall|e: int| 0 <= e < t.edited.len() implies 0 <= #[trigger] t.edited[e]
                < t.configs.len() by {
                if e < s.edited.len() {
                    assert(t.edited[e] == s.edited[e]);
                }
            }
            lemma_settled_steps(t);
        } else {
            let t = recorded(s, ok);
            assert(t.sessions[t.sessions.len() - 1] == config.node_id);
        }
    }
}

/// A run asks for at most five actions for each configuration of its schedule.
pub proof fn lemma_run_length(topology: TopologyModel, schedule: ScheduleModel)
    requires
        schedule.configs.len() <= usize::MAX,
    ensures
        0 <= steps_left(run_start(topology, schedule)) <= 5 * schedule.configs.len(),
{
    lemma_settled_steps(
        RunModel {
            configs: schedule.configs,
            targets: targets_of(topology, schedule.configs),
            next: 0,
            sessions: Seq::empty(),
            edited: Seq::empty(),
            failed: Seq::empty(),
            uncommitted: Seq::empty(),
            commit: false,
            stage: RunStage::Editing,
        },
    );
}

/// The Bridges whose sessions a run was asked to close while its actions were carried out with
/// the outcomes `outcomes`, in the order in which it asked.
pub open spec fn closed(s: RunModel, outcomes: Seq<bool>) -> Seq<u32>
    decreases outcomes.len(),
{
    if outcomes.len() == 0 {
        Seq::empty()
    } else {
        let before = closed(s, outcomes.drop_last());
        match action_of(after(s, outcomes.drop_last())) {
            SessionActionModel::Close { node_id } => before.push(node_id),
            _ => before,
        }
    }
}

/// Whether the sessions `done` are the ones that a run in the state `s` has asked to close so
/// far: none while ports are edited, then one after the other in the order in which they were
/// opened, and all of them at the end.
pub open spec fn closed_so_far(s: RunModel, done: Seq<u32>) -> bool {
    match s.stage {
        RunStage::Editing => done == Seq::<u32>::empty(),
        RunStage::Committing(i) => done == s.sessions.take(i as int),
        RunStage::Closing(i) => done == s.sessions.take(i as int),
        RunStage::Finished => done == s.sessions,
    }
}

/// Settling, which asks for no action, keeps what was closed so far in step with the run.
pub proof fn lemma_settled_closed(s: RunModel)
    requires
        s.targets.len() == s.configs.len(),
        0 <= s.next <= s.configs.len() <= usize::MAX,
    ensures
        closed_so_far(settled(s), Seq::empty()),
    decreases s.configs.len() - s.next,
{
    if s.next < s.configs.len() && unreachable(s) {
        lemma_settled_closed(
            RunModel {
                failed: s.failed.push(failure_of(s.configs[s.next])),
                next: s.next + 1,
                ..s
            },
        );
    } else if s.next >= s.configs.len() {
        assert(s.sessions.take(0) =~= Seq::<u32>::empty());
        if s.sessions.len() == 0 {
            assert(s.sessions =~= Seq::<u32>::empty());
        }
    }
}

/// Every session is closed. A run that has come to its end, whatever the outcomes of its
/// actions were, has asked to close each session that was opened, once and in the order in
/// which they were opened.
pub proof fn lemma_every_session_is_closed(
    topology: TopologyModel,
    schedule: ScheduleModel,
    outcomes: Seq<bool>,
)
    requires
        schedule.configs.len() <= usize::MAX,
    ensures
        run_valid(after(run_start(topology, schedule), outcomes)),
        closed_so_far(
            after(run_start(topology, schedule), outcomes),
            closed(run_start(topology, schedule), outcomes),
        ),
        after(run_start(topology, schedule), outcomes).stage == RunStage::Finished ==> closed(
            run_start(topology, schedule),
            outcomes,
        ) == after(run_start(topology, schedule), outcomes).sessions,
    decreases outcomes.len(),
{
    let first = RunModel {
        configs: schedule.configs,
        targets: targets_of(topology, schedule.configs),
        next: 0,
        sessions: Seq::empty(),
        edited: Seq::empty(),
        failed: Seq::empty(),
        uncommitted: Seq::empty(),
        commit: false,
        stage: RunStage::Editing,
    };
    let start = run_start(topology, schedule);
    if outcomes.len() == 0 {
        lemma_settled_valid(first);
        lemma_settled_closed(first);
    } else {
        lemma_every_session_is_closed(topology, schedule, outcomes.drop_last());
        let s = after(start, outcomes.drop_last());
        let done = closed(start, outcomes.drop_last());
        let ok = outcomes.last();
        lemma_recorded_valid(s, ok);
        match s.stage {
            RunStage::Editing => {
                let config = s.configs[s.next];
                if !ok {
                    lemma_settled_closed(
                        RunModel {
                            failed: s.failed.push(failure_of(config)),
                            next: s.next + 1,
                            ..s
                        },
                    );
                } else if s.sessions.contains(config.node_id) {
                    lemma_settled_closed(
                        RunModel { edited: s.edited.push(s.next as usize), next: s.next + 1, ..s },
                    );
                }
            },
            RunStage::Committing(i) => {},
            RunStage::Closing(i) => {
                assert(s.sessions.take(i + 1)
                    =~= s.sessions.take(i as int).push(s.sessions[i as int]));
                if i + 1 >= s.sessions.len() {
                    assert(s.sessions.take(i + 1) =~= s.sessions);
                }
            },
            RunStage::Finished => {},
        }
    }
}

/// Says whether a session to the Bridge `node_id` is among `sessions`.
fn has_session(sessions: &Vec<u32>, node_id: u32) -> (r: bool)
    ensures
        r == sessions@.contains(node_id),
{
    let mut i: usize = 0;
    while i < sessions.len()
        invariant
            i <= sessions.len(),
            forall|j: int| 0 <= j < i ==> sessions@[j] != node_id,
        decreases sessions.len() - i,
    {
        if sessions[i] == node_id {
            return true;
        }
        i += 1;
    }
    false
}

/// One run of configuring the network with a schedule.
pub struct ConfigurationRun {
    configs: Vec<Config>,
    targets: Vec<Option<SSHConfigurationParams>>,
    next: usize,
    sessions: Vec<u32>,
    edited: Vec<usize>,
    failed: Vec<FailedInterface>,
    uncommitted: Vec<FailedInterface>,
    commit: bool,
    stage: RunStage,
}

impl ConfigurationRun {
    /// The state of the run.
    pub closed spec fn model(&self) -> RunModel {
        RunModel {
            configs: self.configs.deep_view(),
            targets: self.targets.deep_view(),
            next: self.next as int,
            sessions: self.sessions@,
            edited: self.edited@,
            failed: self.failed.deep_view(),
            uncommitted: self.uncommitted.deep_view(),
            commit: self.commit,
            stage: self.stage,
        }
    }

    /// Whether the state of the run is in order. Every run that [`ConfigurationRun::new`] makes
    /// is, and stays so.
    pub open spec fn valid(&self) -> bool {
        run_valid(self.model())
    }

    /// Carries out what needs no action while ports are edited.
    fn settle(&mut self)
        requires
            old(self).targets.len() == old(self).configs.len(),
            old(self).next <= old(self).configs.len(),
            forall|e: int|
                0 <= e < old(self).edited.len() ==> 0 <= #[trigger] old(self).edited@[e] < old(
                    self).configs.len(),
        ensures
            final(self).model() == settled(old(self).model()),
    {
        let ghost start = self.model();
        while self.next < self.configs.len() && !has_session(
            &self.sessions,
            self.configs[self.next].node_id,
        ) && self.targets[self.next].is_none()
            invariant
                self.targets.len() == self.configs.len(),
                self.next <= self.configs.len(),
                settled(start) == settled(self.model()),
                self.edited@ == start.edited,
                self.configs.deep_view() == start.configs,
            decreases self.configs.len() - self.next,
        {
            let ghost before = self.model();
            let failure = new_failure(&self.configs[self.next]);
            self.failed.push(failure);
            self.next += 1;
            proof {
                assert(unreachable(before));
                assert(self.failed.deep_view() =~= before.failed.push(
                    failure_of(before.configs[before.next]),
                ));
            }
        }
        let ghost settling = self.model();
        if self.next >= self.configs.len() {
            self.commit = self.failed.len() == 0;
            if !self.commit {
                let ghost known = self.uncommitted.deep_view();
                let ghost all = self.edited@;
                let ghost f = failure_at(self.configs.deep_view());
                let mut e: usize = 0;
                proof {
                    assert(known + all.take(0).map_values(f) =~= known);
                }
                while e < self.edited.len()
                    invariant
                        e <= self.edited.len(),
                        all == self.edited@,
                        f == failure_at(self.configs.deep_view()),
                        forall|n: int|
                            0 <= n < self.edited.len() ==> 0 <= #[trigger] self.edited@[n]
                                < self.configs.len(),
                        self.uncommitted.deep_view() == known + all.take(e as int).map_values(f),
                        self.failed.deep_view() == settling.failed,
                        self.configs.deep_view() == settling.configs,
                        self.targets.deep_view() == settling.targets,
                        self.next == settling.next,
                        self.sessions@ == settling.sessions,
                        self.edited@ == settling.edited,
                        !self.commit,
                    decreases self.edited.len() - e,
                {
                    let ghost so_far = self.uncommitted.deep_view();
                    assert(0 <= self.edited@[e as int] < self.configs.len());
                    let failure = new_failure(&self.configs[self.edited[e]]);
                    self.uncommitted.push(failure);
                    proof {
                        assert(self.uncommitted.deep_view() =~= so_far.push(f(all[e as int])));
                        assert(all.take(e + 1) =~= all.take(e as int).push(all[e as int]));
                        all.take(e as int).lemma_push_map_commute(f, all[e as int]);
                        assert(self.uncommitted.deep_view() =~= known + all.take(e + 1).map_values(
                            f,
                        ));
                    }
                    e += 1;
                }
                proof {
                    assert(all.take(e as int) =~= all);
                }
            }
            self.stage = if self.sessions.len() == 0 {
                RunStage::Finished
            } else if self.commit {
                RunStage::Committing(0)
            } else {
                RunStage::Closing(0)
            };
        } else {
            self.stage = RunStage::Editing;
            proof {
                assert(!unreachable(self.model()));
            }
        }
    }

    /// A run that writes `schedule` to the Bridges of `topology`.
    pub fn new(topology: &Topology, schedule: &Schedule) -> (r: Self)
        ensures
            r.model() == run_start(topology.deep_view(), schedule.deep_view()),
            r.valid(),
    {
        let configs = schedule.configs.clone();
        proof {
            assert(configs.deep_view() =~= schedule.deep_view().configs);
        }
        let ghost wanted = targets_of(topology.deep_view(), configs.deep_view());
        let mut targets: Vec<Option<SSHConfigurationParams>> = Vec::new();
        let mut i: usize = 0;
        while i < configs.len()
            invariant
                i <= configs.len(),
                wanted == targets_of(topology.deep_view(), configs.deep_view()),
                targets.len() == i,
                forall|j: int| 0 <= j < i ==> #[trigger] targets.deep_view()[j] == wanted[j],
            decreases configs.len() - i,
        {
            let ghost before = targets.deep_view();
            let target = match topology.get_node_from_id(configs[i].node_id) {
                Some(node) => node.configuration_params,
                None => None,
            };
            targets.push(target);
            proof {
                assert(targets.deep_view() =~= before.push(wanted[i as int]));
            }
            i += 1;
        }
        proof {
            assert(targets.deep_view() =~= wanted);
        }
        let mut r = ConfigurationRun {
            configs,
            targets,
            next: 0,
            sessions: Vec::new(),
            edited: Vec::new(),
            failed: Vec::new(),
            uncommitted: Vec::new(),
            commit: false,
            stage: RunStage::Editing,
        };
        proof {
            assert(r.failed.deep_view() =~= Seq::<FailedInterfaceModel>::empty());
            assert(r.uncommitted.deep_view() =~= Seq::<FailedInterfaceModel>::empty());
        }
        let ghost first = r.model();
        r.settle();
        proof {
            lemma_settled_valid(first);
        }
        r
    }

    /// Says whether nothing is left to do.
    pub fn is_finished(&self) -> (r: bool)
        ensures
            r == (self.model().stage == RunStage::Finished),
    {
        match self.stage {
            RunStage::Finished => true,
            _ => false,
        }
    }

    /// What is to be done next.
    pub fn next_action(&self) -> (r: SessionAction)
        requires
            self.valid(),
        ensures
            r.deep_view() == action_of(self.model()),
    {
        match self.stage {
            RunStage::Editing => {
                let config = &self.configs[self.next];
                if has_session(&self.sessions, config.node_id) {
                    SessionAction::EditPort { node_id: config.node_id, port: config.port.clone() }
                } else {
                    match &self.targets[self.next] {
                        Some(params) => {
                            SessionAction::Connect {
                                node_id: config.node_id,
                                params: params.clone(),
                            }
                        },
                        None => SessionAction::Finished,
                    }
                }
            },
            RunStage::Committing(i) => SessionAction::Commit { node_id: self.sessions[i] },
            RunStage::Closing(i) => SessionAction::Close { node_id: self.sessions[i] },
            RunStage::Finished => SessionAction::Finished,
        }
    }

    /// Takes note of the outcome of the action that [`ConfigurationRun::next_action`] asked
    /// for: whether it succeeded.
    pub fn record(&mut self, ok: bool)
        requires
            old(self).valid(),
        ensures
            final(self).model() == recorded(old(self).model(), ok),
            final(self).valid(),
    {
        proof {
            lemma_recorded_valid(self.model(), ok);
        }
        let ghost before = self.model();
        match self.stage {
            RunStage::Editing => {
                let node_id = self.configs[self.next].node_id;
                if !ok {
                    let failure = new_failure(&self.configs[self.next]);
                    self.failed.push(failure);
                    self.next += 1;
                    proof {
                        assert(self.failed.deep_view() =~= before.failed.push(
                            failure_of(before.configs[before.next]),
                        ));
                    }
                    self.settle();
                } else if has_session(&self.sessions, node_id) {
                    self.edited.push(self.next);
                    self.next += 1;
                    proof {
                        assert forall|e: int| 0 <= e < self.edited.len() implies 0
                            <= #[trigger] self.edited@[e] < self.configs.len() by {
                            if e < before.edited.len() {
                                assert(self.edited@[e] == before.edited[e]);
                            }
                        }
                    }
                    self.settle();
                } else {
                    self.sessions.push(node_id);
                }
            },
            RunStage::Committing(i) => {
                if !ok {
                    let node_id = self.sessions[i];
                    let ghost start = self.failed.deep_view();
                    let mut e: usize = 0;
                    proof {
                        assert(self.edited@.take(0) =~= Seq::<usize>::empty());
                        assert(start + failures_of_node(
                            before.configs,
                            self.edited@.take(0),
                            node_id,
                        ) =~= start);
                    }
                    while e < self.edited.len()
                        invariant
                            e <= self.edited.len(),
                            self.configs.deep_view() == before.configs,
                            self.targets.deep_view() == before.targets,
                            self.next == before.next,
                            self.sessions@ == before.sessions,
                            self.edited@ == before.edited,
                            self.commit == before.commit,
                            self.stage == before.stage,
                            self.uncommitted.deep_view() == before.uncommitted,
                            forall|n: int|
                                0 <= n < self.edited.len() ==> 0 <= #[trigger] self.edited@[n]
                                    < self.configs.len(),
                            self.failed.deep_view() == start + failures_of_node(
                                before.configs,
                                before.edited.take(e as int),
                                node_id,
                            ),
                        decreases self.edited.len() - e,
                    {
                        let ghost so_far = self.failed.deep_view();
                        let position = self.edited[e];
                        proof {
                            assert(before.edited.take(e + 1).drop_last() =~= before.edited.take(
                                e as int,
                            ));
                            assert(before.edited.take(e + 1).last() == position);
                            assert(0 <= self.edited@[e as int] < self.configs.len());
                        }
                        if self.configs[position].node_id == node_id {
                            let failure = new_failure(&self.configs[position]);
                            self.failed.push(failure);
                            proof {
                                assert(self.failed.deep_view() =~= so_far.push(
                                    failure_of(before.configs[position as int]),
                                ));
                                assert(self.failed.deep_view() =~= start + failures_of_node(
                                    before.configs,
                                    before.edited.take(e + 1),
                                    node_id,
                                ));
                            }
                        }
                        e += 1;
                    }
                    proof {
                        assert(before.edited.take(e as int) =~= before.edited);
                    }
                }
                self.stage = RunStage::Closing(i);
            },
            RunStage::Closing(i) => {
                assert(i < self.sessions.len());
                self.stage = if i + 1 >= self.sessions.len() {
                    RunStage::Finished
                } else if self.commit {
                    RunStage::Committing(i + 1)
                } else {
                    RunStage::Closing(i + 1)
                };
            },
            RunStage::Finished => {},
        }
    }

    /// The ports that have failed so far, in the order in which they failed: those for which
    /// no session could be opened, those whose edit failed, and those that were edited on a
    /// Bridge whose commit failed.
    pub fn failed_interfaces(&self) -> (r: FailedInterfaces)
        ensures
            r.deep_view().interfaces == self.model().failed,
    {
        let interfaces = self.failed.clone();
        proof {
            assert(interfaces.deep_view() =~= self.failed.deep_view());
        }
        FailedInterfaces { interfaces }
    }

    /// The ports that were edited but are not in effect because the run did not commit, in
    /// the order in which they were edited. There are none before the last port was edited,
    /// and none in a run that commits.
    pub fn uncommitted_interfaces(&self) -> (r: FailedInterfaces)
        ensures
            r.deep_view().interfaces == self.model().uncommitted,
    {
        let interfaces = self.uncommitted.clone();
        proof {
            assert(interfaces.deep_view() =~= self.uncommitted.deep_view());
        }
        FailedInterfaces { interfaces }
    }

    /// What the run has come to so far: the ports that have failed and the ports that are
    /// uncommitted.
    pub fn result(&self) -> (r: ConfigurationResult)
        ensures
            r.deep_view() == result_of(self.model()),
    {
        ConfigurationResult {
            failed_interfaces: self.failed_interfaces(),
            uncommitted_interfaces: self.uncommitted_interfaces(),
        }
    }
}

} // verus!
