//! A southbound for trials: Bridges that answer as a script says.
//!
//! The mock carries a run of [`ConfigurationRun`] through to its end, as a southbound that
//! talks to real Bridges does, and keeps every action that the run asked for.

use crate::cnc::southbound::configure::{
    action_of, after, commit_ruled_out, lemma_all_or_nothing, lemma_commit_stays_ruled_out,
    lemma_recorded_valid, lemma_run_progress, recorded, result_of, run_start, run_valid,
    steps_left, ConfigurationRun, RunModel, RunStage, SessionAction, SessionActionModel,
};
use crate::cnc::southbound::SouthboundAdapterInterface;
use crate::cnc::types::lldp_types::RemoteSystemsData;
use crate::cnc::types::scheduling::{Schedule, ScheduleModel};
use crate::cnc::types::topology::{Port, SSHConfigurationParams, Topology, TopologyModel};
use crate::cnc::types::{ConfigurationResult, ConfigurationResultModel};
use vstd::prelude::*;

verus! {

/// Which actions fail: the Bridges to which no session can be opened, the Bridges on which
/// every edit fails, and the Bridges on which the commit fails.
pub struct Script {
    pub unreachable: Seq<u32>,
    pub failing_edits: Seq<u32>,
    pub failing_commits: Seq<u32>,
}

/// Whether the action `action` succeeds under the script. Closing a session always does.
pub open spec fn succeeds(script: Script, action: SessionActionModel) -> bool {
    match action {
        SessionActionModel::Connect { node_id, .. } => !script.unreachable.contains(node_id),
        SessionActionModel::EditPort { node_id, .. } => !script.failing_edits.contains(node_id),
        SessionActionModel::Commit { node_id } => !script.failing_commits.contains(node_id),
        SessionActionModel::Close { .. } => true,
        SessionActionModel::Finished => true,
    }
}

/// Whether the action is the opening of a session or the edit of a port.
pub open spec fn opens_or_edits(action: SessionActionModel) -> bool {
    action is Connect || action is EditPort
}

/// The action that a run asks for after its first `n` actions had the outcomes `outcomes`.
pub open spec fn action_at(start: RunModel, outcomes: Seq<bool>, n: int) -> SessionActionModel {
    action_of(after(start, outcomes.take(n)))
}

/// The actions that a run asks for while its actions have the outcomes `outcomes`.
pub open spec fn actions_of(start: RunModel, outcomes: Seq<bool>) -> Seq<SessionActionModel> {
    Seq::new(outcomes.len(), |n: int| action_at(start, outcomes, n))
}

/// Whether `outcomes` are the outcomes that the script gives the actions of a run, one after
/// the other.
pub open spec fn outcomes_follow(script: Script, start: RunModel, outcomes: Seq<bool>) -> bool {
    forall|n: int|
        0 <= n < outcomes.len() ==> #[trigger] outcomes[n] == succeeds(
            script,
            action_at(start, outcomes, n),
        )
}

/// A run that has left the editing of ports does not come back to it.
pub proof fn lemma_editing_is_over(start: RunModel, outcomes: Seq<bool>, a: int, b: int)
    requires
        0 <= a <= b <= outcomes.len(),
        after(start, outcomes.take(a)).stage != RunStage::Editing,
    ensures
        after(start, outcomes.take(b)).stage != RunStage::Editing,
    decreases b - a,
{
    if a < b {
        lemma_editing_is_over(start, outcomes, a, b - 1);
        assert(outcomes.take(b).drop_last() =~= outcomes.take(b - 1));
    }
}

/// The states of a run are in order, and after the opening of a session or the edit of a port
/// has failed at the position `i`, a commit is ruled out in every state that follows.
pub proof fn lemma_states_after_failure(start: RunModel, outcomes: Seq<bool>, i: int, k: int)
    requires
        run_valid(start),
        0 <= i < outcomes.len(),
        0 <= k <= outcomes.len(),
        opens_or_edits(action_at(start, outcomes, i)),
        !outcomes[i],
    ensures
        run_valid(after(start, outcomes.take(k))),
        k > i ==> commit_ruled_out(after(start, outcomes.take(k))),
    decreases k,
{
    if k > 0 {
        lemma_states_after_failure(start, outcomes, i, k - 1);
        let s = after(start, outcomes.take(k - 1));
        assert(outcomes.take(k).drop_last() =~= outcomes.take(k - 1));
        assert(outcomes.take(k).last() == outcomes[k - 1]);
        lemma_recorded_valid(s, outcomes[k - 1]);
        if k - 1 == i {
            lemma_all_or_nothing(s, Seq::empty());
        } else if k - 1 > i {
            lemma_commit_stays_ruled_out(s, outcomes[k - 1]);
        }
    } else {
        assert(outcomes.take(0) =~= Seq::<bool>::empty());
    }
}

/// All or nothing, over a whole run. If the opening of a session or the edit of a port fails,
/// the run asks for no commit, neither before nor after, and it ends with a failed port.
pub proof fn lemma_no_commit_in_a_failed_run(start: RunModel, outcomes: Seq<bool>, i: int, j: int)
    requires
        run_valid(start),
        0 <= i < outcomes.len(),
        0 <= j < outcomes.len(),
        opens_or_edits(action_at(start, outcomes, i)),
        !outcomes[i],
    ensures
        !(actions_of(start, outcomes)[j] is Commit),
        after(start, outcomes).failed.len() > 0,
{
    lemma_states_after_failure(start, outcomes, i, outcomes.len() as int);
    assert(outcomes.take(outcomes.len() as int) =~= outcomes);
    lemma_states_after_failure(start, outcomes, i, j);
    if j < i {
        if action_at(start, outcomes, j) is Commit {
            lemma_editing_is_over(start, outcomes, j, i);
        }
    }
}

/// Says whether `id` is among `ids`.
fn names(ids: &Vec<u32>, id: u32) -> (r: bool)
    ensures
        r == ids@.contains(id),
{
    let mut i: usize = 0;
    while i < ids.len()
        invariant
            i <= ids.len(),
            forall|j: int| 0 <= j < i ==> ids@[j] != id,
        decreases ids.len() - i,
    {
        if ids[i] == id {
            return true;
        }
        i += 1;
    }
    false
}

/// A southbound whose Bridges answer as its script says.
pub struct MockSouthbound {
    unreachable: Vec<u32>,
    failing_edits: Vec<u32>,
    failing_commits: Vec<u32>,
    actions: Vec<SessionAction>,
}

impl MockSouthbound {
    /// The script of the mock.
    pub closed spec fn script(&self) -> Script {
        Script {
            unreachable: self.unreachable@,
            failing_edits: self.failing_edits@,
            failing_commits: self.failing_commits@,
        }
    }

    /// The actions that the mock was asked to carry out so far, oldest first.
    pub closed spec fn carried_out(&self) -> Seq<SessionActionModel> {
        self.actions.deep_view()
    }

    /// A mock with the given script: no session can be opened to the Bridges of `unreachable`,
    /// every edit fails on the Bridges of `failing_edits`, and the commit fails on the Bridges
    /// of `failing_commits`.
    pub fn new(unreachable: Vec<u32>, failing_edits: Vec<u32>, failing_commits: Vec<u32>) -> (r:
        Self)
        ensures
            r.script() == (Script {
                unreachable: unreachable@,
                failing_edits: failing_edits@,
                failing_commits: failing_commits@,
            }),
            r.carried_out() == Seq::<SessionActionModel>::empty(),
    {
        let r = MockSouthbound { unreachable, failing_edits, failing_commits, actions: Vec::new() };
        proof {
            assert(r.actions.deep_view() =~= Seq::<SessionActionModel>::empty());
        }
        r
    }

    /// The actions that the mock was asked to carry out so far, oldest first.
    pub fn actions(&self) -> (r: &Vec<SessionAction>)
        ensures
            r.deep_view() == self.carried_out(),
    {
        &self.actions
    }

    /// Whether `outcomes` are the outcomes of the run that writes `schedule` to the Bridges of
    /// `topology` under the script of the mock, carried through to its end, with `result` what
    /// the run came to and `after` the mock with the actions of the run added to those it had
    /// carried out.
    pub open spec fn ran(
        &self,
        topology: TopologyModel,
        schedule: ScheduleModel,
        outcomes: Seq<bool>,
        result: ConfigurationResultModel,
        after_it: &Self,
    ) -> bool {
        let start = run_start(topology, schedule);
        &&& outcomes_follow(self.script(), start, outcomes)
        &&& after(start, outcomes).stage == RunStage::Finished
        &&& result == result_of(after(start, outcomes))
        &&& after_it.script() == self.script()
        &&& after_it.carried_out() == self.carried_out() + actions_of(start, outcomes)
    }
}

impl SouthboundAdapterInterface for MockSouthbound {
    /// The mock answers with what the run under its script comes to.
    open spec fn may_configure(
        &self,
        topology: TopologyModel,
        schedule: ScheduleModel,
        result: ConfigurationResultModel,
        after_it: &Self,
    ) -> bool {
        exists|outcomes: Seq<bool>| #[trigger] self.ran(topology, schedule, outcomes, result, after_it)
    }

    /// Carries the run that writes `schedule` to the Bridges of `topology` through to its end,
    /// with the outcomes of the script. If the opening of a session or the edit of a port
    /// failed in it, the mock was asked for no commit in this run, and the result names a
    /// failed port.
    fn configure_network(&mut self, topology: &Topology, schedule: &Schedule) -> (r:
        ConfigurationResult)
        ensures
            final(self).carried_out().len() >= old(self).carried_out().len(),
            (exists|i: int|
                old(self).carried_out().len() <= i < final(self).carried_out().len()
                    && opens_or_edits(#[trigger] final(self).carried_out()[i]) && !succeeds(
                    old(self).script(),
                    final(self).carried_out()[i],
                )) ==> r.deep_view().failed_interfaces.interfaces.len() > 0 && forall|j: int|
                old(self).carried_out().len() <= j < final(self).carried_out().len() ==> !(
                #[trigger] final(self).carried_out()[j] is Commit),
    {
        let mut run = ConfigurationRun::new(topology, schedule);
        let ghost start = run.model();
        let ghost mut outcomes: Seq<bool> = Seq::empty();
        let ghost before = self.actions.deep_view();
        proof {
            assert(before + actions_of(start, outcomes) =~= before);
        }
        while !run.is_finished()
            invariant
                run.valid(),
                run_valid(start),
                start == run_start(topology.deep_view(), schedule.deep_view()),
                run.model() == after(start, outcomes),
                outcomes_follow(old(self).script(), start, outcomes),
                self.script() == old(self).script(),
                before == old(self).carried_out(),
                self.actions.deep_view() == before + actions_of(start, outcomes),
            decreases steps_left(run.model()),
        {
            let action = run.next_action();
            let ok = match &action {
                SessionAction::Connect { node_id, .. } => !names(&self.unreachable, *node_id),
                SessionAction::EditPort { node_id, .. } => !names(&self.failing_edits, *node_id),
                SessionAction::Commit { node_id } => !names(&self.failing_commits, *node_id),
                SessionAction::Close { .. } => true,
                SessionAction::Finished => true,
            };
            let ghost asked = action.deep_view();
            let ghost log = self.actions.deep_view();
            self.actions.push(action);
            proof {
                lemma_run_progress(run.model(), ok);
            }
            run.record(ok);
            proof {
                let longer = outcomes.push(ok);
                assert(longer.drop_last() =~= outcomes);
                assert(longer.take(outcomes.len() as int) =~= outcomes);
                assert forall|n: int| 0 <= n < longer.len() implies #[trigger] longer[n]
                    == succeeds(old(self).script(), action_at(start, longer, n)) by {
                    if n < outcomes.len() {
                        assert(longer.take(n) =~= outcomes.take(n));
                    }
                }
                assert(actions_of(start, longer) =~= actions_of(start, outcomes).push(asked)) by {
                    assert forall|n: int| 0 <= n < outcomes.len() implies action_at(
                        start,
                        longer,
                        n,
                    ) == action_at(start, outcomes, n) by {
                        assert(longer.take(n) =~= outcomes.take(n));
                    }
                }
                assert(self.actions.deep_view() =~= log.push(asked));
                outcomes = longer;
            }
        }
        let r = run.result();
        proof {
            assert(old(self).ran(
                topology.deep_view(),
                schedule.deep_view(),
                outcomes,
                r.deep_view(),
                self,
            ));
            let actions = actions_of(start, outcomes);
            let n = before.len() as int;
            if exists|i: int|
                n <= i < self.carried_out().len() && opens_or_edits(
                    #[trigger] self.carried_out()[i],
                ) && !succeeds(old(self).script(), self.carried_out()[i]) {
                let i = choose|i: int|
                    n <= i < self.carried_out().len() && opens_or_edits(
                        #[trigger] self.carried_out()[i],
                    ) && !succeeds(old(self).script(), self.carried_out()[i]);
                assert(self.carried_out()[i] == actions[i - n]);
                assert forall|j: int| n <= j < self.carried_out().len() implies !(
                #[trigger] self.carried_out()[j] is Commit) by {
                    assert(self.carried_out()[j] == actions[j - n]);
                    lemma_no_commit_in_a_failed_run(start, outcomes, i - n, j - n);
                }
                lemma_no_commit_in_a_failed_run(start, outcomes, i - n, i - n);
            }
        }
        r
    }

    /// The mock knows no ports.
    fn retrieve_station_capibilities(&mut self, config_params: SSHConfigurationParams) -> (r: Vec<
        Port,
    >)
        ensures
            r.len() == 0,
            final(self).script() == old(self).script(),
            final(self).carried_out() == old(self).carried_out(),
    {
        Vec::new()
    }

    /// The mock knows no neighbours.
    fn retrieve_lldp(&mut self, config_params: SSHConfigurationParams) -> (r: Vec<
        RemoteSystemsData,
    >)
        ensures
            r.len() == 0,
            final(self).script() == old(self).script(),
            final(self).carried_out() == old(self).carried_out(),
    {
        Vec::new()
    }
}

} // verus!
