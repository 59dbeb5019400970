//! Failover across the nodes of a cluster.
//!
//! A cluster-wide operation is run on the nodes one at a time, in order. The
//! first node that succeeds gives the result, and no later node is tried. When
//! every node fails, the per-node errors are joined into one report.
//!
//! The running of the operation itself (an awaited network call) stays with
//! the caller: `AnyNodeSweep` says which node to try next and, once the sweep
//! is over, what the whole operation returns.
use vstd::prelude::*;

use crate::connection::{Connection, ServerConnection};
use crate::error::ConnectionError;
use crate::text::{push_char, push_text};

verus! {

/// What one node answered when the operation was run on it.
pub enum NodeOutcome<R> {
    Succeeded(R),
    /// The node failed; the text is the error's display form.
    Failed(String),
}

/// What the caller must do next.
pub enum SweepAction<R> {
    /// Run the operation on the node at this index of the topology.
    Attempt(usize),
    /// The sweep is over, with this result for the whole operation.
    Finish(Result<R, ConnectionError>),
}

/// The mathematical reading of a `SweepAction`.
pub enum Decision<R> {
    Attempt(int),
    Return(R),
    AllFailed(Seq<char>),
}

/// The state of a sweep: the node addresses, the errors of the nodes tried
/// so far, and whether the sweep is over.
pub struct SweepModel {
    pub addresses: Seq<Seq<char>>,
    pub errors: Seq<Seq<char>>,
    pub finished: bool,
}

/// One line of the failure report: `- <address>: <error>`.
pub open spec fn failure_line(address: Seq<char>, error: Seq<char>) -> Seq<char> {
    seq!['-', ' '] + address + seq![':', ' '] + error
}

/// The failure lines of the first `errors.len()` nodes, in order.
pub open spec fn failure_lines(addresses: Seq<Seq<char>>, errors: Seq<Seq<char>>) -> Seq<Seq<char>> {
    Seq::new(errors.len(), |i: int| failure_line(addresses[i], errors[i]))
}

/// The lines joined with a newline between each two.
pub open spec fn join_lines(lines: Seq<Seq<char>>) -> Seq<char>
    decreases lines.len(),
{
    if lines.len() == 0 {
        Seq::empty()
    } else if lines.len() == 1 {
        lines[0]
    } else {
        join_lines(lines.drop_last()) + seq!['\n'] + lines.last()
    }
}

/// The text of the error reported when every node has failed.
pub open spec fn failure_report(addresses: Seq<Seq<char>>, errors: Seq<Seq<char>>) -> Seq<char> {
    join_lines(failure_lines(addresses, errors))
}

pub open spec fn decision_of<R>(a: SweepAction<R>) -> Decision<R> {
    match a {
        SweepAction::Attempt(i) => Decision::Attempt(i as int),
        SweepAction::Finish(Ok(v)) => Decision::Return(v),
        SweepAction::Finish(Err(e)) => Decision::AllFailed(e.text()),
    }
}

/// A fresh sweep over the given addresses.
pub open spec fn model_start(addresses: Seq<Seq<char>>) -> SweepModel {
    SweepModel { addresses, errors: Seq::empty(), finished: addresses.len() == 0 }
}

/// The first decision of a fresh sweep: try the first node or, with no node
/// at all, fail with an empty report.
pub open spec fn first_decision<R>(addresses: Seq<Seq<char>>) -> Decision<R> {
    if addresses.len() == 0 {
        Decision::AllFailed(Seq::empty())
    } else {
        Decision::Attempt(0)
    }
}

/// The effect of the answer of the node now being tried.
pub open spec fn model_step<R>(m: SweepModel, outcome: NodeOutcome<R>) -> (SweepModel, Decision<R>) {
    match outcome {
        NodeOutcome::Succeeded(v) => (SweepModel { finished: true, ..m }, Decision::Return(v)),
        NodeOutcome::Failed(e) => {
            let errors = m.errors.push(e@);
            if errors.len() < m.addresses.len() {
                (SweepModel { errors, ..m }, Decision::Attempt(errors.len() as int))
            } else {
                (
                    SweepModel { errors, finished: true, ..m },
                    Decision::AllFailed(failure_report(m.addresses, errors)),
                )
            }
        },
    }
}

/// A sweep that is trying node `m.errors.len()` and, from there on, gets
/// `answers[i]` from node `i` when it tries it: the final decision and the
/// number of nodes tried in all. It is meant for a sweep still running over
/// an answer for each node; on anything else it gives the first decision of a
/// fresh sweep and no node run.
pub open spec fn run_from<R>(m: SweepModel, answers: Seq<NodeOutcome<R>>) -> (Decision<R>, nat)
    decreases m.addresses.len() - m.errors.len(),
{
    if m.finished || m.errors.len() >= m.addresses.len() || answers.len() < m.addresses.len() {
        (first_decision(m.addresses), 0)
    } else {
        let (next, d) = model_step(m, answers[m.errors.len() as int]);
        if d is Attempt {
            run_from(next, answers)
        } else {
            (d, m.errors.len() + 1)
        }
    }
}

/// A whole operation over the addresses, where node `i` answers `answers[i]`
/// when it is tried: what the operation returns and how many nodes were run.
pub open spec fn dispatch<R>(addresses: Seq<Seq<char>>, answers: Seq<NodeOutcome<R>>) -> (Decision<R>, nat) {
    if addresses.len() == 0 {
        (first_decision(addresses), 0)
    } else {
        run_from(model_start(addresses), answers)
    }
}

/// The error text of each answer (empty for a success).
pub open spec fn error_texts<R>(answers: Seq<NodeOutcome<R>>) -> Seq<Seq<char>> {
    answers.map_values(|o: NodeOutcome<R>|
        match o {
            NodeOutcome::Failed(e) => e@,
            NodeOutcome::Succeeded(_) => Seq::empty(),
        })
}

proof fn lemma_run_until_success<R>(m: SweepModel, answers: Seq<NodeOutcome<R>>, k: int)
    requires
        !m.finished,
        m.errors.len() <= k < m.addresses.len(),
        answers.len() == m.addresses.len(),
        forall|j: int| m.errors.len() <= j < k ==> #[trigger] answers[j] is Failed,
        answers[k] is Succeeded,
    ensures
        run_from(m, answers) == (Decision::Return(answers[k]->Succeeded_0), (k + 1) as nat),
    decreases k - m.errors.len(),
{
    let j = m.errors.len() as int;
    if j < k {
        assert(answers[j] is Failed);
        let (next, d) = model_step(m, answers[j]);
        lemma_run_until_success(next, answers, k);
    }
}

proof fn lemma_run_all_fail<R>(m: SweepModel, answers: Seq<NodeOutcome<R>>)
    requires
        !m.finished,
        m.errors.len() < m.addresses.len(),
        answers.len() == m.addresses.len(),
        forall|j: int| m.errors.len() <= j < answers.len() ==> #[trigger] answers[j] is Failed,
        m.errors == error_texts(answers).take(m.errors.len() as int),
    ensures
        run_from(m, answers) == (
            Decision::<R>::AllFailed(failure_report(m.addresses, error_texts(answers))),
            m.addresses.len(),
        ),
    decreases m.addresses.len() - m.errors.len(),
{
    let j = m.errors.len() as int;
    assert(answers[j] is Failed);
    let (next, d) = model_step(m, answers[j]);
    assert(next.errors =~= error_texts(answers).take(j + 1));
    if j + 1 < m.addresses.len() {
        lemma_run_all_fail(next, answers);
    } else {
        assert(next.errors =~= error_texts(answers));
    }
}

/// When the first `k` nodes fail and node `k` succeeds, the operation returns
/// the value of node `k`, and exactly `k + 1` nodes have been run: no node
/// after it is ever tried.
pub proof fn lemma_first_success_wins<R>(
    addresses: Seq<Seq<char>>,
    answers: Seq<NodeOutcome<R>>,
    k: int,
)
    requires
        answers.len() == addresses.len(),
        0 <= k < addresses.len(),
        forall|j: int| 0 <= j < k ==> #[trigger] answers[j] is Failed,
        answers[k] is Succeeded,
    ensures
        dispatch(addresses, answers) == (Decision::Return(answers[k]->Succeeded_0), (k + 1) as nat),
{
    lemma_run_until_success(model_start(addresses), answers, k);
}

/// When every node fails, every node is run once, and the operation fails
/// with a report of one line per node, in order, each line naming the node's
/// address and its error.
pub proof fn lemma_all_nodes_failed<R>(addresses: Seq<Seq<char>>, answers: Seq<NodeOutcome<R>>)
    requires
        addresses.len() > 0,
        answers.len() == addresses.len(),
        forall|j: int| 0 <= j < answers.len() ==> #[trigger] answers[j] is Failed,
    ensures
        dispatch(addresses, answers) == (
            Decision::<R>::AllFailed(join_lines(failure_lines(addresses, error_texts(answers)))),
            addresses.len(),
        ),
        failure_lines(addresses, error_texts(answers)).len() == addresses.len(),
        forall|i: int|
            0 <= i < addresses.len() ==> #[trigger] failure_lines(addresses, error_texts(answers))[i]
                == failure_line(addresses[i], answers[i]->Failed_0@),
{
    assert(model_start(addresses).errors =~= error_texts(answers).take(0));
    lemma_run_all_fail(model_start(addresses), answers);
}

/// With a single node, the operation is a direct call: its success is
/// returned, and its failure gives a report of that node's line alone.
pub proof fn lemma_single_node<R>(address: Seq<char>, answer: NodeOutcome<R>)
    ensures
        answer is Succeeded ==> dispatch(seq![address], seq![answer]) == (
            Decision::Return(answer->Succeeded_0),
            1nat,
        ),
        answer is Failed ==> dispatch(seq![address], seq![answer]) == (
            Decision::<R>::AllFailed(failure_line(address, answer->Failed_0@)),
            1nat,
        ),
{
    let answers = seq![answer];
    if answer is Succeeded {
        lemma_first_success_wins(seq![address], answers, 0);
    } else {
        lemma_all_nodes_failed(seq![address], answers);
    }
}

/// When the first node succeeds, it is the only node that is run.
pub proof fn lemma_first_node_success_runs_one<R>(
    addresses: Seq<Seq<char>>,
    answers: Seq<NodeOutcome<R>>,
)
    requires
        addresses.len() > 0,
        answers.len() == addresses.len(),
        answers[0] is Succeeded,
    ensures
        dispatch(addresses, answers).1 == 1,
        dispatch(addresses, answers).0 == Decision::Return(answers[0]->Succeeded_0),
{
    lemma_first_success_wins(addresses, answers, 0);
}

/// Two operations over the same nodes whose nodes all fail, with the same
/// errors, report the same failure: a sweep keeps nothing from an earlier one.
pub proof fn lemma_failures_repeat<R>(
    addresses: Seq<Seq<char>>,
    first: Seq<NodeOutcome<R>>,
    second: Seq<NodeOutcome<R>>,
)
    requires
        addresses.len() > 0,
        first.len() == addresses.len(),
        second.len() == addresses.len(),
        forall|j: int| 0 <= j < first.len() ==> #[trigger] first[j] is Failed,
        forall|j: int| 0 <= j < second.len() ==> #[trigger] second[j] is Failed,
        error_texts(first) == error_texts(second),
    ensures
        dispatch(addresses, first) == dispatch(addresses, second),
        dispatch(addresses, first).1 == addresses.len(),
        dispatch(addresses, first).0 is AllFailed,
{
    lemma_all_nodes_failed(addresses, first);
    lemma_all_nodes_failed(addresses, second);
}

/// The state of one cluster-wide operation: which nodes have been tried and
/// how each of them failed.
pub struct AnyNodeSweep {
    addresses: Vec<String>,
    errors: Vec<String>,
    finished: bool,
}

impl AnyNodeSweep {
    pub closed spec fn model(&self) -> SweepModel {
        SweepModel {
            addresses: self.addresses@.map_values(|s: String| s@),
            errors: self.errors@.map_values(|s: String| s@),
            finished: self.finished,
        }
    }

    /// The sweep is consistent: it has tried fewer nodes than there are, or
    /// is over.
    pub open spec fn wf(&self) -> bool {
        &&& self.model().errors.len() <= self.model().addresses.len()
        &&& !self.model().finished ==> self.model().errors.len() < self.model().addresses.len()
    }

    /// A fresh sweep over the nodes of `connection`, in their order.
    pub fn new(connection: &Connection) -> (r: AnyNodeSweep)
        ensures
            r.wf(),
            r.model() == model_start(connection.addresses()),
    {
        let nodes: &Vec<ServerConnection> = connection.connections();
        let mut addresses: Vec<String> = Vec::new();
        let mut i: usize = 0;
        while i < nodes.len()
            invariant
                i <= nodes@.len(),
                addresses@.len() == i,
                forall|j: int| 0 <= j < i ==> #[trigger] addresses@[j]@ == nodes@[j].address_view(),
            decreases nodes@.len() - i,
        {
            let a = nodes[i].address();
            addresses.push(a.to_owned());
            i = i + 1;
        }
        assert(addresses@.map_values(|s: String| s@) =~= nodes@.map_values(
            |c: ServerConnection| c.address_view(),
        ));
        let finished = addresses.len() == 0;
        let r = AnyNodeSweep { addresses, errors: Vec::new(), finished };
        assert(r.model().errors =~= Seq::<Seq<char>>::empty());
        r
    }

    /// What to do first: try the first node, or with no node at all report
    /// an empty failure.
    pub fn start<R>(&self) -> (r: SweepAction<R>)
        requires
            self.wf(),
            self.model().errors.len() == 0,
        ensures
            decision_of(r) == first_decision::<R>(self.model().addresses),
    {
        if self.addresses.len() == 0 {
            let empty = String::new();
            SweepAction::Finish(Err(ConnectionError::ClusterAllNodesFailed(empty)))
        } else {
            SweepAction::Attempt(0)
        }
    }

    /// Whether the sweep is over.
    pub fn is_finished(&self) -> (r: bool)
        ensures
            r == self.model().finished,
    {
        self.finished
    }

    /// The index of the node being tried.
    pub fn current(&self) -> (r: usize)
        ensures
            r == self.model().errors.len(),
    {
        self.errors.len()
    }

    /// Takes the answer of the node being tried and says what to do next:
    /// return its value, try the next node, or report the failure of all.
    pub fn step<R>(&mut self, outcome: NodeOutcome<R>) -> (r: SweepAction<R>)
        requires
            old(self).wf(),
            !old(self).model().finished,
        ensures
            final(self).wf(),
            (final(self).model(), decision_of(r)) == model_step(old(self).model(), outcome),
    {
        match outcome {
            NodeOutcome::Succeeded(v) => {
                self.finished = true;
                SweepAction::Finish(Ok(v))
            },
            NodeOutcome::Failed(e) => {
                self.errors.push(e);
                assert(self.model().errors =~= old(self).model().errors.push(e@));
                if self.errors.len() < self.addresses.len() {
                    SweepAction::Attempt(self.errors.len())
                } else {
                    self.finished = true;
                    let text = self.report();
                    SweepAction::Finish(Err(ConnectionError::ClusterAllNodesFailed(text)))
                }
            },
        }
    }

    /// The report of the failures so far: one line per node tried.
    fn report(&self) -> (r: String)
        requires
            self.model().errors.len() <= self.model().addresses.len(),
        ensures
            r@ == failure_report(self.model().addresses, self.model().errors),
    {
        let ghost lines = failure_lines(self.model().addresses, self.model().errors);
        let mut text = String::new();
        let mut i: usize = 0;
        while i < self.errors.len()
            invariant
                i <= self.errors@.len(),
                self.errors@.len() <= self.addresses@.len(),
                lines == failure_lines(self.model().addresses, self.model().errors),
                text@ == join_lines(lines.take(i as int)),
            decreases self.errors@.len() - i,
        {
            let ghost before = text@;
            if i > 0 {
                push_char(&mut text, '\n');
            }
            push_char(&mut text, '-');
            push_char(&mut text, ' ');
            push_text(&mut text, self.addresses[i].as_str());
            push_char(&mut text, ':');
            push_char(&mut text, ' ');
            push_text(&mut text, self.errors[i].as_str());
            proof {
                let next = lines.take(i + 1);
                assert(next.drop_last() =~= lines.take(i as int));
                assert(lines[i as int] == failure_line(
                    self.model().addresses[i as int],
                    self.model().errors[i as int],
                ));
                if i == 0 {
                    assert(text@ =~= lines[0]);
                } else {
                    assert(text@ =~= before + seq!['\n'] + lines[i as int]);
                }
            }
            i = i + 1;
        }
        assert(lines.take(i as int) =~= lines);
        text
    }
}

} // verus!
