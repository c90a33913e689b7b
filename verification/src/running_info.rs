//! The running-info snapshot of a session.
//!
//! The snapshot is put together from three queries to the engine, asked in
//! the order routes, node info, peers. Each function here takes the reply
//! to one query and either carries on or ends the whole call with a
//! `Query` error. What has been collected so far travels in a value that
//! only the next step accepts, so a failed query leaves nothing behind:
//! there is no partial snapshot.
//!
//! `P` is the payload of a reply, handed through as it came.

use crate::error::Error;
use vstd::prelude::*;

verus! {

/// What the snapshot reads from the engine's node info.
#[derive(Debug, PartialEq, Eq)]
pub struct NodeFacts {
    pub node_id: String,
    pub ipv4: Option<String>,
    pub ipv6: Option<String>,
    pub version: String,
}

/// The `network_info` member of the snapshot.
#[derive(Debug, PartialEq, Eq)]
pub struct NetworkInfo {
    pub node_id: String,
    pub ipv4: Option<String>,
    pub ipv6: Option<String>,
    pub version: String,
}

/// The snapshot of a running session.
#[derive(Debug, PartialEq, Eq)]
pub struct RunningInfo<P> {
    pub routes: P,
    pub node_info: P,
    pub peers: P,
    pub network_info: NetworkInfo,
}

/// The state of a snapshot once the routes are known.
pub struct RoutesKnown<P> {
    routes: P,
}

/// The state of a snapshot once the routes and the node info are known.
pub struct NodeKnown<P> {
    routes: P,
    node_info: P,
    network_info: NetworkInfo,
}

impl<P> RoutesKnown<P> {
    /// The routes collected.
    pub closed spec fn routes(self) -> P {
        self.routes
    }
}

impl<P> NodeKnown<P> {
    /// The routes collected.
    pub closed spec fn routes(self) -> P {
        self.routes
    }

    /// The node info collected.
    pub closed spec fn node_info(self) -> P {
        self.node_info
    }

    /// The network info derived from the node info.
    pub closed spec fn network_info(self) -> NetworkInfo {
        self.network_info
    }
}

/// True if `info` is what the snapshot says of a node with these facts:
/// the facts themselves where the engine knows its node, and empty texts
/// with no addresses where it does not.
pub open spec fn describes(info: NetworkInfo, node: Option<NodeFacts>) -> bool {
    match node {
        Some(facts) => {
            &&& info.node_id == facts.node_id
            &&& info.ipv4 == facts.ipv4
            &&& info.ipv6 == facts.ipv6
            &&& info.version == facts.version
        },
        None => {
            &&& info.node_id@ == Seq::<char>::empty()
            &&& info.ipv4 is None
            &&& info.ipv6 is None
            &&& info.version@ == Seq::<char>::empty()
        },
    }
}

/// The query service that a session exposed, or `NoService` if it exposed
/// none.
pub fn require_query_service<S>(service: Option<S>) -> (r: Result<S, Error>)
    ensures
        r == match service {
            Some(service) => Ok::<S, Error>(service),
            None => Err::<S, Error>(Error::NoService),
        },
{
    match service {
        Some(service) => Ok(service),
        None => Err(Error::NoService),
    }
}

/// Derives the `network_info` member from the node facts.
pub fn network_info(node: Option<NodeFacts>) -> (info: NetworkInfo)
    ensures
        describes(info, node),
{
    match node {
        Some(facts) => NetworkInfo {
            node_id: facts.node_id,
            ipv4: facts.ipv4,
            ipv6: facts.ipv6,
            version: facts.version,
        },
        None => NetworkInfo {
            node_id: String::new(),
            ipv4: None,
            ipv6: None,
            version: String::new(),
        },
    }
}

/// Takes the reply to the routes query, the first of the three.
pub fn on_routes<P>(reply: Result<P, String>) -> (r: Result<RoutesKnown<P>, Error>)
    ensures
        match reply {
            Ok(routes) => r is Ok && r->Ok_0.routes() == routes,
            Err(detail) => r == Err::<RoutesKnown<P>, Error>(Error::Query(detail)),
        },
{
    match reply {
        Ok(routes) => Ok(RoutesKnown { routes }),
        Err(detail) => Err(Error::Query(detail)),
    }
}

/// Takes the reply to the node-info query: the payload, and the facts of
/// the node if the engine knows it.
pub fn on_node_info<P>(known: RoutesKnown<P>, reply: Result<(P, Option<NodeFacts>), String>) -> (r:
    Result<NodeKnown<P>, Error>)
    ensures
        match reply {
            Ok((node_info, node)) => {
                &&& r is Ok
                &&& r->Ok_0.routes() == known.routes()
                &&& r->Ok_0.node_info() == node_info
                &&& describes(r->Ok_0.network_info(), node)
            },
            Err(detail) => r == Err::<NodeKnown<P>, Error>(Error::Query(detail)),
        },
{
    match reply {
        Ok((node_info, node)) => Ok(
            NodeKnown { routes: known.routes, node_info, network_info: network_info(node) },
        ),
        Err(detail) => Err(Error::Query(detail)),
    }
}

/// Takes the reply to the peers query, the last of the three, and
/// completes the snapshot.
pub fn on_peers<P>(known: NodeKnown<P>, reply: Result<P, String>) -> (r: Result<
    RunningInfo<P>,
    Error,
>)
    ensures
        match reply {
            Ok(peers) => r == Ok::<RunningInfo<P>, Error>(
                RunningInfo {
                    routes: known.routes(),
                    node_info: known.node_info(),
                    peers,
                    network_info: known.network_info(),
                },
            ),
            Err(detail) => r == Err::<RunningInfo<P>, Error>(Error::Query(detail)),
        },
{
    match reply {
        Ok(peers) => Ok(
            RunningInfo {
                routes: known.routes,
                node_info: known.node_info,
                peers,
                network_info: known.network_info,
            },
        ),
        Err(detail) => Err(Error::Query(detail)),
    }
}

} // verus!
