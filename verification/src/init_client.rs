//! The flow that makes a session of a new connection.
//!
//! The caller builds the connection and runs discovery on it; what is decided
//! here is what comes of the outcome: the session's identifier, its place in
//! the registry and the response.

use crate::details::{homeserver_login_details, ServerDiscovery};
use crate::error::ClientBuildError;
use crate::messages::ClientCreated;
use crate::registry::SessionRegistry;
use vstd::prelude::*;

verus! {

/// `uuid::Uuid::new_v4`, rendered as text by `String::from`: a random
/// identifier in the hyphenated form, which is 36 characters long. Nothing
/// is said of which identifier it is: that is left to chance.
#[verifier::external_body]
fn random_id() -> (id: String)
    ensures
        id@.len() == 36,
{
    String::from(uuid::Uuid::new_v4())
}

/// Whether `created` tells of a session under `id` on the homeserver that
/// `discovery` describes.
pub open spec fn announces(created: ClientCreated, id: Seq<char>, discovery: ServerDiscovery) -> bool {
    &&& created.id@ == id
    &&& created.supports_oidc_login == discovery.supports_oidc_login()
    &&& created.supports_password_login == discovery.supports_password_login()
    &&& created.url@ == discovery.homeserver@
}

/// Registers `client` as a session under `id` and makes the response that
/// tells of it. A session that was registered under `id` before is gone.
pub fn register<C>(
    clients: &mut SessionRegistry<C>,
    id: String,
    client: C,
    discovery: ServerDiscovery,
) -> (created: ClientCreated)
    ensures
        announces(created, id@, discovery),
        final(clients)@ == old(clients)@.insert(id@, client),
{
    let details = homeserver_login_details(discovery);
    let created = ClientCreated {
        id: id.clone(),
        supports_oidc_login: details.supports_oidc_login,
        supports_password_login: details.supports_password_login,
        url: details.url,
    };
    let _ = clients.insert(id, client);
    created
}

/// Concludes a request for a connection. Where the connection was built, it
/// becomes a session under a random identifier, and the response tells of it.
/// Where it was not, there is no session and no response: the request goes
/// unanswered.
pub fn init_client<C>(
    clients: &mut SessionRegistry<C>,
    connection: Result<(C, ServerDiscovery), ClientBuildError>,
) -> (created: Option<ClientCreated>)
    ensures
        match connection {
            Ok((client, discovery)) => {
                &&& created matches Some(response)
                &&& response.id@.len() == 36
                &&& announces(response, response.id@, discovery)
                &&& final(clients)@ == old(clients)@.insert(response.id@, client)
            },
            Err(_) => created is None && final(clients)@ == old(clients)@,
        },
{
    match connection {
        Ok((client, discovery)) => Some(register(clients, random_id(), client, discovery)),
        Err(_) => None,
    }
}

/// The registry after one session has been registered for each of `ids`, in
/// their order, the session under `ids[k]` with `clients[k]`.
pub open spec fn after_registering<C>(
    registry: Map<Seq<char>, C>,
    ids: Seq<Seq<char>>,
    clients: Seq<C>,
) -> Map<Seq<char>, C>
    decreases ids.len(),
{
    if ids.len() == 0 {
        registry
    } else {
        after_registering(registry, ids.drop_last(), clients.drop_last()).insert(
            ids.last(),
            clients.last(),
        )
    }
}

/// Where the identifiers that are drawn differ from one another, so do the
/// identifiers in the responses: `responses[k]` tells of the session that
/// was registered under `ids[k]` with `clients[k]`, one session after
/// another. The registry then holds each of these sessions with its own
/// connection, and of the sessions that it held before all but those under
/// one of `ids`.
pub proof fn lemma_session_ids_are_unique<C>(
    registry: Map<Seq<char>, C>,
    ids: Seq<Seq<char>>,
    clients: Seq<C>,
    discoveries: Seq<ServerDiscovery>,
    responses: Seq<ClientCreated>,
)
    requires
        ids.no_duplicates(),
        clients.len() == ids.len(),
        discoveries.len() == ids.len(),
        responses.len() == ids.len(),
        forall|k: int| 0 <= k < ids.len() ==> announces(#[trigger] responses[k], ids[k], discoveries[k]),
    ensures
        forall|i: int, j: int|
            0 <= i < j < responses.len() ==> (#[trigger] responses[i]).id@ != (
            #[trigger] responses[j]).id@,
        forall|k: int|
            0 <= k < ids.len() ==> {
                &&& after_registering(registry, ids, clients).contains_key(#[trigger] ids[k])
                &&& after_registering(registry, ids, clients)[ids[k]] == clients[k]
            },
        forall|id: Seq<char>|
            !ids.contains(id) ==> {
                &&& #[trigger] after_registering(registry, ids, clients).contains_key(id)
                    == registry.contains_key(id)
                &&& registry.contains_key(id) ==> after_registering(registry, ids, clients)[id]
                    == registry[id]
            },
    decreases ids.len(),
{
    if ids.len() > 0 {
        let n = ids.len() - 1;
        let earlier = ids.drop_last();
        lemma_session_ids_are_unique(
            registry,
            earlier,
            clients.drop_last(),
            discoveries.drop_last(),
            responses.drop_last(),
        );
        assert forall|k: int| 0 <= k < ids.len() implies {
            &&& after_registering(registry, ids, clients).contains_key(#[trigger] ids[k])
            &&& after_registering(registry, ids, clients)[ids[k]] == clients[k]
        } by {
            if k < n {
                assert(earlier[k] == ids[k]);
                assert(clients.drop_last()[k] == clients[k]);
            }
        }
        assert forall|id: Seq<char>| !ids.contains(id) implies {
            &&& #[trigger] after_registering(registry, ids, clients).contains_key(id)
                == registry.contains_key(id)
            &&& registry.contains_key(id) ==> after_registering(registry, ids, clients)[id]
                == registry[id]
        } by {
            assert(ids[n] != id);
            if earlier.contains(id) {
                let k = earlier.index_of(id);
                assert(ids[k] == id);
            }
            assert(after_registering(registry, earlier, clients.drop_last()).contains_key(id)
                == registry.contains_key(id));
        }
    }
    assert forall|i: int, j: int| 0 <= i < j < responses.len() implies (#[trigger] responses[i]).id@
        != (#[trigger] responses[j]).id@ by {
        assert(announces(responses[i], ids[i], discoveries[i]));
        assert(announces(responses[j], ids[j], discoveries[j]));
    }
}

} // verus!
