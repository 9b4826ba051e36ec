use vstd::prelude::*;

verus! {

/// The service's start-up options.
#[derive(Debug)]
pub struct CliOptions {
    /// The address the server listens on.
    pub host: String,
    /// The port the server listens on.
    pub port: u16,
    /// The store's contact points, separated by commas.
    pub cassandra_nodes: String,
    pub cassandra_user: String,
    pub cassandra_password: String,
}

} // verus!
