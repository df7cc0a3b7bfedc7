use vstd::prelude::*;

use crate::environment::{Environment, Server};

verus! {

/// Where the remote shell goes: `user@host` and the port.
pub struct Connection {
    pub target: String,
    pub port: i64,
}

/// `c` is the connection that `s` resolves to.
pub open spec fn resolves_to(s: Server, c: Connection) -> bool {
    &&& c.target@ == s.username@ + "@"@ + s.server@
    &&& c.port == s.port
}

/// The connection for a server: its user and host joined by `@`, and its port.
/// Neither part is checked or escaped.
pub fn resolve(server: &Server) -> (r: Connection)
    ensures
        resolves_to(*server, r),
{
    let mut target = server.username.clone();
    target.append("@");
    target.append(server.server.as_str());
    Connection { target, port: server.port }
}

/// The connection for the server that the operator picked from an environment.
pub fn resolve_choice(env: &Environment, index: usize) -> (r: Connection)
    requires
        env.wf(),
        index < env.names@.len(),
    ensures
        resolves_to(env.servers@[index as int], r),
{
    resolve(&env.servers[index])
}

} // verus!
