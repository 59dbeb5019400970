//! Client-side managers for a clustered database: the user manager runs each
//! account operation on any node of the cluster, trying the nodes in order
//! until one succeeds; the logic manager queues rule requests on an open
//! transaction stream.

mod cluster;
mod connection;
mod error;
mod logic;
mod text;
mod user;

pub use cluster::{
    decision_of, dispatch, error_texts, failure_line, failure_lines, failure_report, first_decision,
    join_lines, lemma_all_nodes_failed, lemma_failures_repeat, lemma_first_node_success_runs_one,
    lemma_first_success_wins, lemma_single_node, model_start, model_step, run_from, AnyNodeSweep,
    Decision, NodeOutcome, SweepAction, SweepModel,
};
pub use connection::{Connection, ServerConnection};
pub use error::ConnectionError;
pub use logic::{LogicManager, Rule, RuleRequest, TransactionStream};
pub use user::{User, UserManager};
