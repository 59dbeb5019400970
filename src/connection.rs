use vstd::prelude::*;

verus! {

/// A connection to one member of the cluster, known by its address.
#[derive(Clone, Debug)]
pub struct ServerConnection {
    address: String,
}

impl ServerConnection {
    pub closed spec fn address_view(&self) -> Seq<char> {
        self.address@
    }

    pub fn new(address: String) -> (r: ServerConnection)
        ensures
            r.address_view() == address@,
    {
        ServerConnection { address }
    }

    /// The address that identifies this node in diagnostics.
    pub fn address(&self) -> (r: &str)
        ensures
            r@ == self.address_view(),
    {
        self.address.as_str()
    }
}

/// The connections to the members of a cluster, in the order in which
/// cluster-wide operations try them, and the name of the signed-in user.
#[derive(Clone, Debug)]
pub struct Connection {
    server_connections: Vec<ServerConnection>,
    username: Option<String>,
}

impl Connection {
    /// The addresses of the nodes, in order.
    pub closed spec fn addresses(&self) -> Seq<Seq<char>> {
        self.server_connections@.map_values(|c: ServerConnection| c.address_view())
    }

    pub closed spec fn username_view(&self) -> Option<Seq<char>> {
        match self.username {
            Some(u) => Some(u@),
            None => None,
        }
    }

    pub fn new(server_connections: Vec<ServerConnection>, username: Option<String>) -> (r: Connection)
        ensures
            r.addresses() == server_connections@.map_values(|c: ServerConnection| c.address_view()),
            r.username_view() == (match username {
                Some(u) => Some(u@),
                None => None::<Seq<char>>,
            }),
    {
        Connection { server_connections, username }
    }

    pub fn server_count(&self) -> (r: usize)
        ensures
            r == self.addresses().len(),
    {
        self.server_connections.len()
    }

    /// The node connections, in the order in which they are tried.
    pub fn connections(&self) -> (r: &Vec<ServerConnection>)
        ensures
            r@.map_values(|c: ServerConnection| c.address_view()) == self.addresses(),
    {
        &self.server_connections
    }

    pub fn username(&self) -> (r: Option<&str>)
        ensures
            match r {
                Some(u) => self.username_view() == Some(u@),
                None => self.username_view() is None,
            },
    {
        match &self.username {
            Some(u) => Some(u.as_str()),
            None => None,
        }
    }
}

} // verus!
