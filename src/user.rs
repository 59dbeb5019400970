use vstd::prelude::*;

use crate::cluster::{model_start, AnyNodeSweep};
use crate::connection::Connection;

verus! {

/// An account of the database.
#[derive(Clone, Debug)]
pub struct User {
    pub username: String,
    pub password_expiry_seconds: Option<i64>,
}

/// Manages the accounts of the database. Every operation on them runs on any
/// node of the cluster (see `AnyNodeSweep`).
#[derive(Clone, Debug)]
pub struct UserManager {
    connection: Connection,
}

impl UserManager {
    pub closed spec fn connection_view(&self) -> Connection {
        self.connection
    }

    pub fn new(connection: Connection) -> (r: UserManager)
        ensures
            r.connection_view() == connection,
    {
        UserManager { connection }
    }

    pub fn connection(&self) -> (r: &Connection)
        ensures
            *r == self.connection_view(),
    {
        &self.connection
    }

    /// A fresh sweep for one operation over every node of the connection.
    pub fn run_any_node(&self) -> (r: AnyNodeSweep)
        ensures
            r.wf(),
            r.model() == model_start(self.connection_view().addresses()),
    {
        AnyNodeSweep::new(&self.connection)
    }
}

} // verus!
