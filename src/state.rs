use vstd::prelude::*;

use std::collections::HashMap;

use crate::communicator::Error;
use crate::server::{
    connect_begun, connect_finished, lemma_info_id, send_begun, send_finished, Server, ServerInfo,
};

verus! {

broadcast use {
    vstd::std_specs::hash::group_hash_axioms,
    vstd::std_specs::hash::axiom_u128_obeys_hash_table_key_model,
    vstd::std_specs::hash::axiom_random_state_builds_valid_hashers,
};

/// One connected client: its identity, display attributes and the server it
/// is attached to, if any.
#[derive(Debug)]
pub struct Client {
    pub uuid: u128,
    pub name: String,
    pub hue: u16,
    pub server: Option<u128>,
}

impl Client {
    /// A field-by-field copy.
    pub fn copied(&self) -> (r: Client)
        ensures
            r == *self,
    {
        Client { uuid: self.uuid, name: self.name.clone(), hue: self.hue, server: self.server }
    }
}

/// The shared registry: connected clients keyed by id, configured servers in
/// the order they were registered, and the number of connections accepted.
pub struct State<C> {
    clients: HashMap<u128, Client>,
    servers: Vec<Server<C>>,
    count: u64,
}

/// Every server is well formed, and no two share an id.
pub open spec fn servers_wf<C>(servers: Seq<Server<C>>) -> bool {
    &&& forall|i: int| 0 <= i < servers.len() ==> (#[trigger] servers[i]).wf()
    &&& forall|i: int, j: int|
        0 <= i < j < servers.len() ==> (#[trigger] servers[i]).id_view()
            != (#[trigger] servers[j]).id_view()
}

/// How many ids `accept_client` draws before it gives up.
pub const ACCEPT_ATTEMPTS: u64 = 4;

/// The snapshots of a sequence of servers, in order.
pub open spec fn infos_of<C>(servers: Seq<Server<C>>) -> Seq<ServerInfo> {
    servers.map_values(|s: Server<C>| s.info_view())
}

impl<C> State<C> {
    pub closed spec fn clients_view(&self) -> Map<u128, Client> {
        self.clients@
    }

    pub closed spec fn servers_view(&self) -> Seq<Server<C>> {
        self.servers@
    }

    pub closed spec fn count_view(&self) -> u64 {
        self.count
    }

    /// Position of the server with id `id` (meaningful when `has_server(id)`).
    pub open spec fn server_index(&self, id: u128) -> int {
        choose|i: int| 0 <= i < self.servers_view().len() && self.servers_view()[i].id_view() == id
    }

    pub open spec fn has_server(&self, id: u128) -> bool {
        exists|i: int| 0 <= i < self.servers_view().len() && self.servers_view()[i].id_view() == id
    }

    /// Every client is filed under its own id, and the servers are well formed.
    pub open spec fn wf(&self) -> bool {
        &&& forall|k: u128| #[trigger]
            self.clients_view().contains_key(k) ==> self.clients_view()[k].uuid == k
        &&& servers_wf(self.servers_view())
    }

    /// An empty registry.
    pub fn new() -> (r: State<C>)
        ensures
            r.wf(),
            r.clients_view() == Map::<u128, Client>::empty(),
            r.servers_view() == Seq::<Server<C>>::empty(),
            r.count_view() == 0,
    {
        State { clients: HashMap::new(), servers: Vec::new(), count: 0 }
    }

    pub fn count(&self) -> (r: u64)
        ensures
            r == self.count_view(),
    {
        self.count
    }

    /// Files `client` under its id, replacing any client already filed there.
    pub fn insert_client(&mut self, client: Client)
        requires
            old(self).wf(),
        ensures
            final(self).wf(),
            final(self).clients_view() == old(self).clients_view().insert(client.uuid, client),
            final(self).servers_view() == old(self).servers_view(),
            final(self).count_view() == old(self).count_view(),
    {
        let id = client.uuid;
        self.clients.insert(id, client);
        assert forall|k: u128| #[trigger] self.clients@.contains_key(k) implies self.clients@[k].uuid
            == k by {
            if k != id {
                assert(old(self).clients@.contains_key(k));
            }
        }
    }

    /// Removes the client filed under `id`, returning it.
    pub fn remove_client(&mut self, id: u128) -> (r: Option<Client>)
        requires
            old(self).wf(),
        ensures
            final(self).wf(),
            final(self).clients_view() == old(self).clients_view().remove(id),
            final(self).servers_view() == old(self).servers_view(),
            final(self).count_view() == old(self).count_view(),
            r == old(self).clients_view().get(id),
    {
        let r = self.clients.remove(&id);
        assert forall|k: u128| #[trigger] self.clients@.contains_key(k) implies self.clients@[k].uuid
            == k by {
            assert(old(self).clients@.contains_key(k));
        }
        r
    }

    /// A copy of the client filed under `id`.
    pub fn client(&self, id: u128) -> (r: Option<Client>)
        ensures
            r == self.clients_view().get(id),
    {
        match self.clients.get(&id) {
            Some(c) => Some(c.copied()),
            None => None,
        }
    }

    /// Whether `id` is free: no client is filed under it and no server has it.
    pub open spec fn id_is_free(&self, id: u128) -> bool {
        !self.clients_view().contains_key(id) && !self.has_server(id)
    }

    /// Registers a newly accepted connection under the drawn `id` and `hue`.
    /// When `id` is already taken by a client or a server nothing changes and
    /// the result is `None`. Otherwise the client is filed, the connection
    /// count goes up by one (it stays at its maximum once there), and a copy
    /// of the client is returned.
    pub fn accept_client_with(&mut self, id: u128, name: String, hue: u16) -> (r: Option<Client>)
        requires
            old(self).wf(),
        ensures
            final(self).wf(),
            r is Some == old(self).id_is_free(id),
            r matches Some(c) ==> c == (Client { uuid: id, name, hue, server: None })
                && final(self).clients_view() == old(self).clients_view().insert(id, c)
                && final(self).count_view() == if old(self).count_view() < u64::MAX {
                (old(self).count_view() + 1) as u64
            } else {
                old(self).count_view()
            },
            r is None ==> final(self).clients_view() == old(self).clients_view()
                && final(self).count_view() == old(self).count_view(),
            final(self).servers_view() == old(self).servers_view(),
    {
        if self.clients.contains_key(&id) {
            return None;
        }
        if self.find_server(id).is_some() {
            return None;
        }
        let client = Client { uuid: id, name, hue, server: None };
        let r = client.copied();
        self.insert_client(client);
        self.count = self.count.saturating_add(1);
        Some(r)
    }

    /// Registers a newly accepted connection: a client with a freshly drawn
    /// id, the given name and a random hue; see `accept_client_with`. An id
    /// that is already taken is drawn again, up to `ACCEPT_ATTEMPTS` times in
    /// all; if every draw was taken, nothing changes and the result is `None`.
    pub fn accept_client(&mut self, name: String) -> (r: Option<Client>)
        requires
            old(self).wf(),
        ensures
            final(self).wf(),
            r matches Some(c) ==> old(self).id_is_free(c.uuid) && c.name@ == name@ && c.server is None
                && final(self).clients_view() == old(self).clients_view().insert(c.uuid, c)
                && final(self).count_view() == if old(self).count_view() < u64::MAX {
                (old(self).count_view() + 1) as u64
            } else {
                old(self).count_view()
            },
            r is None ==> final(self).clients_view() == old(self).clients_view()
                && final(self).count_view() == old(self).count_view(),
            final(self).servers_view() == old(self).servers_view(),
    {
        let mut attempt: u64 = 0;
        while attempt < ACCEPT_ATTEMPTS
            invariant
                self.wf(),
                self.clients_view() == old(self).clients_view(),
                self.servers_view() == old(self).servers_view(),
                self.count_view() == old(self).count_view(),
            decreases ACCEPT_ATTEMPTS - attempt,
        {
            let id = crate::ids::fresh_id();
            let hue = crate::ids::random_hue();
            let ghost before = *self;
            match self.accept_client_with(id, name.clone(), hue) {
                Some(c) => {
                    assert(before.has_server(id) == old(self).has_server(id));
                    return Some(c);
                },
                None => {},
            }
            attempt = attempt + 1;
        }
        None
    }

    /// Position of the server with id `id`, if one is registered.
    pub fn find_server(&self, id: u128) -> (r: Option<usize>)
        requires
            self.wf(),
        ensures
            r is Some == self.has_server(id),
            r matches Some(i) ==> i == self.server_index(id) && i < self.servers_view().len()
                && self.servers_view()[i as int].id_view() == id,
    {
        let mut i: usize = 0;
        while i < self.servers.len()
            invariant
                self.wf(),
                i <= self.servers@.len(),
                forall|j: int| 0 <= j < i ==> (#[trigger] self.servers@[j]).id_view() != id,
            decreases self.servers@.len() - i,
        {
            if self.servers[i].id() == id {
                assert(self.has_server(id));
                let ghost k = self.server_index(id);
                assert(k == i as int) by {
                    if k != i as int {
                        if k < i {
                            assert(self.servers@[k].id_view() != id);
                        } else {
                            assert(self.servers@[i as int].id_view() != self.servers@[k].id_view());
                        }
                    }
                }
                return Some(i);
            }
            i = i + 1;
        }
        None
    }

    /// The server with id `id`, if one is registered.
    pub fn server(&self, id: u128) -> (r: Option<&Server<C>>)
        requires
            self.wf(),
        ensures
            r is Some == self.has_server(id),
            r matches Some(s) ==> *s == self.servers_view()[self.server_index(id)],
    {
        match self.find_server(id) {
            Some(i) => Some(&self.servers[i]),
            None => None,
        }
    }

    /// Registers `server`. One already registered under the same id is
    /// replaced in place; otherwise the new one goes last.
    pub fn insert_server(&mut self, server: Server<C>)
        requires
            old(self).wf(),
            server.wf(),
        ensures
            final(self).wf(),
            old(self).has_server(server.id_view()) ==> final(self).servers_view()
                == old(self).servers_view().update(old(self).server_index(server.id_view()), server),
            !old(self).has_server(server.id_view()) ==> final(self).servers_view()
                == old(self).servers_view().push(server),
            final(self).clients_view() == old(self).clients_view(),
            final(self).count_view() == old(self).count_view(),
    {
        let ghost id = server.id_view();
        match self.find_server(server.id()) {
            Some(i) => {
                self.servers.set(i, server);
                assert(servers_wf(self.servers@)) by {
                    assert forall|a: int, b: int|
                        0 <= a < b < self.servers@.len() implies (#[trigger] self.servers@[a]).id_view()
                        != (#[trigger] self.servers@[b]).id_view() by {
                        assert(old(self).servers@[a].id_view() != old(self).servers@[b].id_view());
                    }
                }
            },
            None => {
                self.servers.push(server);
                assert(servers_wf(self.servers@)) by {
                    assert forall|a: int, b: int|
                        0 <= a < b < self.servers@.len() implies (#[trigger] self.servers@[a]).id_view()
                        != (#[trigger] self.servers@[b]).id_view() by {
                        if b < old(self).servers@.len() {
                            assert(old(self).servers@[a].id_view() != old(self).servers@[b].id_view());
                        } else {
                            assert(old(self).servers@[a].id_view() != id);
                        }
                    }
                    assert forall|a: int| 0 <= a < self.servers@.len() implies (#[trigger] self.servers@[a]).wf() by {
                        if a < old(self).servers@.len() {
                            assert(old(self).servers@[a].wf());
                        }
                    }
                }
            },
        }
    }

    /// The snapshots of all registered servers, in registration order.
    pub fn server_infos(&self) -> (r: Vec<ServerInfo>)
        ensures
            r@ == infos_of(self.servers_view()),
            self.wf() ==> forall|i: int|
                0 <= i < r@.len() ==> #[trigger] r@[i].id == self.servers_view()[i].id_view(),
    {
        let mut out: Vec<ServerInfo> = Vec::new();
        let mut i: usize = 0;
        while i < self.servers.len()
            invariant
                i <= self.servers@.len(),
                out@ =~= infos_of(self.servers@.subrange(0, i as int)),
            decreases self.servers@.len() - i,
        {
            out.push(self.servers[i].info());
            assert(self.servers@.subrange(0, i + 1) =~= self.servers@.subrange(0, i as int).push(
                self.servers@[i as int],
            ));
            i = i + 1;
        }
        assert(self.servers@.subrange(0, i as int) =~= self.servers@);
        proof {
            if self.wf() {
                assert forall|k: int| 0 <= k < out@.len() implies #[trigger] out@[k].id
                    == self.servers_view()[k].id_view() by {
                    assert(self.servers_view()[k].wf());
                    lemma_info_id(self.servers_view()[k]);
                }
            }
        }
        out
    }

    /// `begin_connect` on the server with id `id`; `None` if there is none.
    pub fn begin_connect(&mut self, id: u128) -> (r: Option<Option<Result<(), Error>>>)
        requires
            old(self).wf(),
        ensures
            final(self).wf(),
            r is Some == old(self).has_server(id),
            r matches Some(d) ==> {
                let i = old(self).server_index(id);
                &&& final(self).servers_view() == old(self).servers_view().update(
                    i,
                    final(self).servers_view()[i],
                )
                &&& d is None == old(self).servers_view()[i].has_communicator()
                &&& (d matches Some(res) ==> res is Ok)
                &&& connect_begun(old(self).servers_view()[i], final(self).servers_view()[i], d is None)
            },
            r is None ==> final(self).servers_view() == old(self).servers_view(),
            final(self).clients_view() == old(self).clients_view(),
            final(self).count_view() == old(self).count_view(),
    {
        match self.find_server(id) {
            Some(i) => {
                let d = self.servers[i].begin_connect();
                proof { self.lemma_one_changed(*old(self), i as int); }
                Some(d)
            },
            None => None,
        }
    }

    /// `finish_connect` on the server with id `id`; `None` if there is none,
    /// or if it has no communicator.
    pub fn finish_connect(&mut self, id: u128, connected: bool) -> (r: Option<Result<(), Error>>)
        requires
            old(self).wf(),
        ensures
            final(self).wf(),
            r is Some == (old(self).has_server(id) && old(self).servers_view()[old(
                self,
            ).server_index(id)].has_communicator()),
            r matches Some(res) ==> {
                let i = old(self).server_index(id);
                &&& final(self).servers_view() == old(self).servers_view().update(
                    i,
                    final(self).servers_view()[i],
                )
                &&& connect_finished(
                    old(self).servers_view()[i],
                    final(self).servers_view()[i],
                    connected,
                    res,
                )
            },
            r is None ==> final(self).servers_view() == old(self).servers_view(),
            final(self).clients_view() == old(self).clients_view(),
            final(self).count_view() == old(self).count_view(),
    {
        match self.find_server(id) {
            Some(i) => {
                if self.servers[i].communicator().is_none() {
                    return None;
                }
                let res = self.servers[i].finish_connect(connected);
                proof { self.lemma_one_changed(*old(self), i as int); }
                Some(res)
            },
            None => None,
        }
    }

    /// `begin_send_cmd` on the server with id `id`; `None` if there is none.
    pub fn begin_send_cmd(&mut self, id: u128, cmd: String) -> (r: Option<Option<String>>)
        requires
            old(self).wf(),
        ensures
            final(self).wf(),
            r is Some == old(self).has_server(id),
            r matches Some(a) ==> {
                let i = old(self).server_index(id);
                &&& final(self).servers_view() == old(self).servers_view().update(
                    i,
                    final(self).servers_view()[i],
                )
                &&& a is None == old(self).servers_view()[i].has_communicator()
                &&& send_begun(old(self).servers_view()[i], final(self).servers_view()[i], cmd@, a)
            },
            r is None ==> final(self).servers_view() == old(self).servers_view(),
            final(self).clients_view() == old(self).clients_view(),
            final(self).count_view() == old(self).count_view(),
    {
        match self.find_server(id) {
            Some(i) => {
                let a = self.servers[i].begin_send_cmd(cmd);
                proof { self.lemma_one_changed(*old(self), i as int); }
                Some(a)
            },
            None => None,
        }
    }

    /// `finish_send_cmd` on the server with id `id`; `None` if there is none.
    pub fn finish_send_cmd(&mut self, id: u128, response: String) -> (r: Option<String>)
        requires
            old(self).wf(),
        ensures
            final(self).wf(),
            r is Some == old(self).has_server(id),
            r matches Some(s) ==> {
                let i = old(self).server_index(id);
                &&& s@ == response@
                &&& final(self).servers_view() == old(self).servers_view().update(
                    i,
                    final(self).servers_view()[i],
                )
                &&& send_finished(old(self).servers_view()[i], final(self).servers_view()[i], response@)
            },
            r is None ==> final(self).servers_view() == old(self).servers_view(),
            final(self).clients_view() == old(self).clients_view(),
            final(self).count_view() == old(self).count_view(),
    {
        match self.find_server(id) {
            Some(i) => {
                let s = self.servers[i].finish_send_cmd(response);
                proof { self.lemma_one_changed(*old(self), i as int); }
                Some(s)
            },
            None => None,
        }
    }

    /// A registry that differs from a well-formed one only in the server at
    /// `i`, which kept its id and is still well formed, is well formed.
    proof fn lemma_one_changed(&self, before: State<C>, i: int)
        requires
            before.wf(),
            0 <= i < before.servers_view().len(),
            self.clients_view() == before.clients_view(),
            self.servers_view().len() == before.servers_view().len(),
            forall|j: int| 0 <= j < self.servers_view().len() && j != i ==> self.servers_view()[j] == before.servers_view()[j],
            self.servers_view()[i].wf(),
            self.servers_view()[i].id_view() == before.servers_view()[i].id_view(),
        ensures
            self.wf(),
            self.servers_view() == before.servers_view().update(i, self.servers_view()[i]),
    {
        assert(self.servers_view() =~= before.servers_view().update(i, self.servers_view()[i]));
        assert forall|a: int, b: int|
            0 <= a < b < self.servers_view().len() implies (#[trigger] self.servers_view()[a]).id_view()
            != (#[trigger] self.servers_view()[b]).id_view() by {
            assert(before.servers_view()[a].id_view() != before.servers_view()[b].id_view());
        }
        assert forall|a: int| 0 <= a < self.servers_view().len() implies (#[trigger] self.servers_view()[a]).wf() by {
            if a != i {
                assert(before.servers_view()[a].wf());
            }
        }
    }
}

/// In a well-formed registry a lookup sees either nothing or a whole entry:
/// the client filed under an id carries that id, and the server found for an
/// id carries it and is well formed. Every mutating operation keeps the
/// registry well formed.
pub proof fn lemma_lookups_see_whole_entries<C>(state: State<C>, id: u128)
    requires
        state.wf(),
    ensures
        state.clients_view().contains_key(id) ==> state.clients_view()[id].uuid == id,
        state.has_server(id) ==> {
            let i = state.server_index(id);
            &&& 0 <= i < state.servers_view().len()
            &&& state.servers_view()[i].id_view() == id
            &&& state.servers_view()[i].wf()
        },
{
}

} // verus!
