//! The table of connected clients: at most one client under each name.

use crate::client::Client;
use crate::client::ClientView;
use vstd::prelude::*;

verus! {

/// Whether a client is registered under the given name.
pub open spec fn registered(clients: Seq<ClientView>, identity: Seq<char>) -> bool {
    exists|i: int| 0 <= i < clients.len() && (#[trigger] clients[i]).username == identity
}

/// No two clients share a name.
pub open spec fn distinct(clients: Seq<ClientView>) -> bool {
    forall|i: int, j: int|
        0 <= i < j < clients.len() ==> (#[trigger] clients[i]).username != (
        #[trigger] clients[j]).username
}

/// The names of the clients, in the order of the table.
pub open spec fn identities(clients: Seq<ClientView>) -> Seq<Seq<char>> {
    clients.map_values(|c: ClientView| c.username)
}

/// The texts of a list of strings.
pub open spec fn texts(names: Seq<String>) -> Seq<Seq<char>> {
    names.map_values(|name: String| name@)
}

/// The views of a list of clients.
pub open spec fn views(clients: Seq<Client>) -> Seq<ClientView> {
    clients.map_values(|c: Client| c@)
}

/// The table after a newcomer asked to be let in: it stands at the end if
/// its name was free, and nothing has changed if it was taken.
pub open spec fn after_new_client(clients: Seq<ClientView>, client: ClientView) -> Seq<ClientView> {
    if registered(clients, client.username) {
        clients
    } else {
        clients.push(client)
    }
}

/// The table without the client of the given name.
pub open spec fn after_drop(clients: Seq<ClientView>, identity: Seq<char>) -> Seq<ClientView> {
    clients.filter(|c: ClientView| c.username != identity)
}

/// The clients that stay when those named in `failed` are removed.
pub open spec fn kept(clients: Seq<ClientView>, failed: Seq<Seq<char>>) -> Seq<ClientView> {
    clients.filter(|c: ClientView| !failed.contains(c.username))
}

/// The clients that leave when those named in `failed` are removed.
pub open spec fn pruned(clients: Seq<ClientView>, failed: Seq<Seq<char>>) -> Seq<ClientView> {
    clients.filter(|c: ClientView| failed.contains(c.username))
}

/// Whoever is in a filtered table was in the table before.
proof fn lemma_filter_registered(
    clients: Seq<ClientView>,
    keep: spec_fn(ClientView) -> bool,
    identity: Seq<char>,
)
    requires
        registered(clients.filter(keep), identity),
    ensures
        registered(clients, identity),
{
    let out = clients.filter(keep);
    let i = choose|i: int| 0 <= i < out.len() && (#[trigger] out[i]).username == identity;
    assert(out.contains(out[i]));
    clients.lemma_filter_contains_rev(keep, out[i]);
    let k = choose|k: int| 0 <= k < clients.len() && clients[k] == out[i];
    assert(clients[k].username == identity);
}

/// Filtering a table in which no name occurs twice leaves such a table.
proof fn lemma_filter_distinct(clients: Seq<ClientView>, keep: spec_fn(ClientView) -> bool)
    requires
        distinct(clients),
    ensures
        distinct(clients.filter(keep)),
    decreases clients.len(),
{
    reveal(Seq::filter);
    if clients.len() > 0 {
        let front = clients.drop_last();
        let last = clients.last();
        lemma_filter_distinct(front, keep);
        if keep(last) {
            let out = clients.filter(keep);
            assert(out == front.filter(keep).push(last));
            assert forall|i: int, j: int| 0 <= i < j < out.len() implies (#[trigger] out[i]).username != (
            #[trigger] out[j]).username by {
                if j == out.len() - 1 {
                    if out[i].username == last.username {
                        assert(front.filter(keep)[i].username == last.username);
                        lemma_filter_registered(front, keep, last.username);
                        let k = choose|k: int|
                            0 <= k < front.len() && (#[trigger] front[k]).username == last.username;
                        assert(clients[k].username == clients[clients.len() - 1].username);
                    }
                } else {
                    assert(out[i] == front.filter(keep)[i]);
                    assert(out[j] == front.filter(keep)[j]);
                }
            }
        }
    }
}

/// A filter that everyone passes changes nothing.
proof fn lemma_filter_all(clients: Seq<ClientView>, keep: spec_fn(ClientView) -> bool)
    requires
        forall|i: int| 0 <= i < clients.len() ==> keep(#[trigger] clients[i]),
    ensures
        clients.filter(keep) == clients,
    decreases clients.len(),
{
    reveal(Seq::filter);
    if clients.len() > 0 {
        let front = clients.drop_last();
        assert forall|i: int| 0 <= i < front.len() implies keep(#[trigger] front[i]) by {
            assert(front[i] == clients[i]);
        }
        lemma_filter_all(front, keep);
        assert(front.push(clients.last()) =~= clients);
    }
}

/// A second client under a name that is taken is turned away, and the table
/// is as it was: the first client is still registered.
pub proof fn lemma_duplicate_rejected(clients: Seq<ClientView>, first: ClientView, second: ClientView)
    requires
        second.username == first.username,
    ensures
        registered(after_new_client(clients, first), first.username),
        after_new_client(after_new_client(clients, first), second) == after_new_client(clients, first),
{
    let once = after_new_client(clients, first);
    if !registered(clients, first.username) {
        assert(once[clients.len() as int].username == first.username);
    }
}

/// Whatever is done to a table in which no name occurs twice, no name
/// occurs twice in it afterwards.
pub proof fn lemma_names_stay_distinct(
    clients: Seq<ClientView>,
    client: ClientView,
    identity: Seq<char>,
    failed: Seq<Seq<char>>,
)
    requires
        distinct(clients),
    ensures
        distinct(after_new_client(clients, client)),
        distinct(after_drop(clients, identity)),
        distinct(kept(clients, failed)),
{
    let after = after_new_client(clients, client);
    if !registered(clients, client.username) {
        assert forall|i: int, j: int| 0 <= i < j < after.len() implies (#[trigger] after[i]).username != (
        #[trigger] after[j]).username by {
            if j == clients.len() {
                assert(clients[i].username != client.username);
            } else {
                assert(clients[i].username != clients[j].username);
            }
        }
    }
    lemma_filter_distinct(clients, |c: ClientView| c.username != identity);
    lemma_filter_distinct(clients, |c: ClientView| !failed.contains(c.username));
}

/// Where the write to one client fails, exactly that client leaves the
/// table. The others stay, in their order, and are the ones the next
/// broadcast goes to.
pub proof fn lemma_prune_one(clients: Seq<ClientView>, k: int)
    requires
        distinct(clients),
        0 <= k < clients.len(),
    ensures
        kept(clients, seq![clients[k].username]) == clients.remove(k),
        pruned(clients, seq![clients[k].username]) == seq![clients[k]],
        identities(kept(clients, seq![clients[k].username])) == identities(clients).remove(k),
    decreases clients.len(),
{
    reveal(Seq::filter);
    let failed = seq![clients[k].username];
    let stays = |c: ClientView| !failed.contains(c.username);
    let goes = |c: ClientView| failed.contains(c.username);
    let front = clients.drop_last();
    let last = clients.last();
    assert(failed[0] == clients[k].username);
    assert forall|i: int| 0 <= i < clients.len() implies (stays(#[trigger] clients[i]) <==> i != k) by {
        if i < k {
            assert(clients[i].username != clients[k].username);
        } else if k < i {
            assert(clients[k].username != clients[i].username);
        }
    }
    if k == clients.len() - 1 {
        assert forall|i: int| 0 <= i < front.len() implies stays(#[trigger] front[i]) by {
            assert(front[i] == clients[i]);
        }
        lemma_filter_all(front, stays);
        assert(front =~= clients.remove(k));
        assert forall|i: int| 0 <= i < front.len() implies !goes(#[trigger] front[i]) by {
            assert(front[i] == clients[i]);
            assert(stays(clients[i]));
        }
        lemma_filter_none(front, goes);
        assert(front.filter(goes).push(last) =~= seq![clients[k]]);
    } else {
        assert(front[k] == clients[k]);
        lemma_prune_one(front, k);
        assert(stays(clients[clients.len() - 1]));
        assert(front.remove(k).push(last) =~= clients.remove(k));
    }
    assert(identities(clients.remove(k)) =~= identities(clients).remove(k));
}

/// A filter that nobody passes leaves nothing.
proof fn lemma_filter_none(clients: Seq<ClientView>, keep: spec_fn(ClientView) -> bool)
    requires
        forall|i: int| 0 <= i < clients.len() ==> !keep(#[trigger] clients[i]),
    ensures
        clients.filter(keep) == Seq::<ClientView>::empty(),
    decreases clients.len(),
{
    reveal(Seq::filter);
    if clients.len() > 0 {
        let front = clients.drop_last();
        assert forall|i: int| 0 <= i < front.len() implies !keep(#[trigger] front[i]) by {
            assert(front[i] == clients[i]);
        }
        lemma_filter_none(front, keep);
    }
}

/// Dropping a name twice is dropping it once, and dropping a name that is
/// not in the table changes nothing.
pub proof fn lemma_drop_idempotent(clients: Seq<ClientView>, identity: Seq<char>)
    ensures
        !registered(after_drop(clients, identity), identity),
        after_drop(after_drop(clients, identity), identity) == after_drop(clients, identity),
        !registered(clients, identity) ==> after_drop(clients, identity) == clients,
{
    let stays = |c: ClientView| c.username != identity;
    let once = clients.filter(stays);
    assert forall|i: int| 0 <= i < once.len() implies stays(#[trigger] once[i]) by {
        clients.lemma_filter_pred(stays, i);
    }
    lemma_filter_all(once, stays);
    if registered(once, identity) {
        let i = choose|i: int| 0 <= i < once.len() && (#[trigger] once[i]).username == identity;
        assert(stays(once[i]));
    }
    if !registered(clients, identity) {
        assert forall|i: int| 0 <= i < clients.len() implies stays(#[trigger] clients[i]) by {
            if clients[i].username == identity {
                assert(registered(clients, identity));
            }
        }
        lemma_filter_all(clients, stays);
    }
}

/// Whether a name stands in a list of names.
fn listed(names: &Vec<String>, name: &String) -> (res: bool)
    ensures
        res == texts(names@).contains(name@),
{
    let mut i: usize = 0;
    while i < names.len()
        invariant
            i <= names.len(),
            forall|k: int| 0 <= k < i ==> texts(names@)[k] != name@,
        decreases names.len() - i,
    {
        if names[i] == *name {
            assert(texts(names@)[i as int] == name@);
            return true;
        }
        i += 1;
    }
    false
}

/// The clients that are connected, in the order in which they were let in.
/// No two of them share a name.
pub struct ClientRegistry {
    clients: Vec<Client>,
}

impl View for ClientRegistry {
    type V = Seq<ClientView>;

    closed spec fn view(&self) -> Seq<ClientView> {
        views(self.clients@)
    }
}

impl ClientRegistry {
    #[verifier::type_invariant]
    pub open spec fn well_formed(self) -> bool {
        distinct(self@)
    }

    /// A table with nobody in it.
    pub fn new() -> (clients: Self)
        ensures
            clients@ == Seq::<ClientView>::empty(),
    {
        let clients = Self { clients: Vec::new() };
        assert(clients@ =~= Seq::<ClientView>::empty());
        clients
    }

    /// How many clients are registered.
    pub fn len(&self) -> (len: usize)
        ensures
            len == self@.len(),
            distinct(self@),
    {
        proof {
            use_type_invariant(self);
        }
        self.clients.len()
    }

    /// Whether a client is registered under the given name.
    pub fn contains(&self, identity: &String) -> (res: bool)
        ensures
            res == registered(self@, identity@),
    {
        let mut i: usize = 0;
        while i < self.clients.len()
            invariant
                i <= self.clients.len(),
                forall|k: int| 0 <= k < i ==> (#[trigger] self@[k]).username != identity@,
            decreases self.clients.len() - i,
        {
            if *self.clients[i].identity() == *identity {
                assert(self@[i as int].username == identity@);
                return true;
            }
            i += 1;
        }
        false
    }

    /// Lets a newcomer in under its name, unless the name is taken: then the
    /// table stays as it is and the newcomer is handed back.
    pub fn new_client(&mut self, client: Client) -> (res: Result<(), Client>)
        ensures
            final(self)@ == after_new_client(old(self)@, client@),
            distinct(final(self)@),
            registered(old(self)@, client@.username) ==> res is Err && res->Err_0@ == client@,
            !registered(old(self)@, client@.username) ==> res is Ok,
    {
        proof {
            use_type_invariant(&*self);
        }
        if self.contains(client.identity()) {
            Err(client)
        } else {
            let ghost before = self@;
            let ghost newcomer = client@;
            let mut all: Vec<Client> = Vec::new();
            std::mem::swap(&mut self.clients, &mut all);
            all.push(client);
            proof {
                let after = views(all@);
                assert(after =~= before.push(newcomer));
                assert forall|i: int, j: int| 0 <= i < j < after.len() implies (#[trigger] after[i]).username
                    != (#[trigger] after[j]).username by {
                    if j == before.len() {
                        assert(before[i].username != newcomer.username);
                    } else {
                        assert(before[i].username != before[j].username);
                    }
                }
            }
            self.clients = all;
            Ok(())
        }
    }

    /// The names of the registered clients, in the order of the table.
    pub fn targets(&self) -> (names: Vec<String>)
        ensures
            texts(names@) == identities(self@),
    {
        let mut names: Vec<String> = Vec::new();
        let mut i: usize = 0;
        while i < self.clients.len()
            invariant
                i <= self.clients.len(),
                texts(names@) == identities(self@).take(i as int),
            decreases self.clients.len() - i,
        {
            let ghost before = names@;
            let name = self.clients[i].identity().clone();
            names.push(name);
            proof {
                assert(name@ == self@[i as int].username);
                assert(texts(names@) =~= texts(before).push(name@));
                assert(identities(self@).take(i + 1) =~= identities(self@).take(i as int).push(name@));
            }
            i += 1;
        }
        assert(identities(self@).take(i as int) =~= identities(self@));
        names
    }

    /// Removes the clients whose names are listed and hands them out; the
    /// others stay, in their order.
    pub fn prune(&mut self, failed: &Vec<String>) -> (removed: Vec<Client>)
        ensures
            final(self)@ == kept(old(self)@, texts(failed@)),
            views(removed@) == pruned(old(self)@, texts(failed@)),
            distinct(final(self)@),
    {
        proof {
            use_type_invariant(&*self);
        }
        let ghost stays = |c: ClientView| !texts(failed@).contains(c.username);
        let ghost goes = |c: ClientView| texts(failed@).contains(c.username);
        let mut staying: Vec<Client> = Vec::new();
        let mut removed: Vec<Client> = Vec::new();
        let mut i: usize = 0;
        proof {
            reveal(Seq::filter);
            assert(views(staying@) =~= self@.take(0).filter(stays));
            assert(views(removed@) =~= self@.take(0).filter(goes));
        }
        while i < self.clients.len()
            invariant
                i <= self.clients.len(),
                self@ == old(self)@,
                self@.len() == self.clients.len(),
                stays == |c: ClientView| !texts(failed@).contains(c.username),
                goes == |c: ClientView| texts(failed@).contains(c.username),
                views(staying@) == self@.take(i as int).filter(stays),
                views(removed@) == self@.take(i as int).filter(goes),
            decreases self.clients.len() - i,
        {
            let client = self.clients[i].clone();
            proof {
                assert(client@ == self@[i as int]);
                assert(self@.take(i + 1) =~= self@.take(i as int).push(client@));
                self@.take(i as int).lemma_filter_push(client@, stays);
                self@.take(i as int).lemma_filter_push(client@, goes);
            }
            let ghost staying_before = views(staying@);
            let ghost removed_before = views(removed@);
            if listed(failed, client.identity()) {
                removed.push(client);
                assert(views(removed@) =~= removed_before.push(client@));
            } else {
                staying.push(client);
                assert(views(staying@) =~= staying_before.push(client@));
            }
            i += 1;
        }
        proof {
            assert(self@.take(i as int) =~= self@);
            lemma_filter_distinct(self@, stays);
        }
        self.clients = staying;
        removed
    }

    /// Removes the client of the given name, if there is one, and hands it
    /// out. Where there is none, nothing happens.
    pub fn drop_client(&mut self, identity: &String) -> (res: Option<Client>)
        ensures
            final(self)@ == after_drop(old(self)@, identity@),
            distinct(final(self)@),
            registered(old(self)@, identity@) <==> res is Some,
            res matches Some(client) ==> client@.username == identity@ && old(self)@.contains(client@),
    {
        proof {
            use_type_invariant(&*self);
        }
        let ghost stays = |c: ClientView| c.username != identity@;
        let mut staying: Vec<Client> = Vec::new();
        let mut removed: Option<Client> = None;
        let mut i: usize = 0;
        proof {
            reveal(Seq::filter);
            assert(views(staying@) =~= self@.take(0).filter(stays));
        }
        while i < self.clients.len()
            invariant
                i <= self.clients.len(),
                self@ == old(self)@,
                self@.len() == self.clients.len(),
                stays == |c: ClientView| c.username != identity@,
                views(staying@) == self@.take(i as int).filter(stays),
                registered(self@.take(i as int), identity@) <==> removed is Some,
                removed matches Some(client) ==> client@.username == identity@ && self@.contains(
                    client@,
                ),
            decreases self.clients.len() - i,
        {
            let client = self.clients[i].clone();
            proof {
                assert(client@ == self@[i as int]);
                assert(self@.take(i + 1) =~= self@.take(i as int).push(client@));
                self@.take(i as int).lemma_filter_push(client@, stays);
                if registered(self@.take(i as int), identity@) {
                    let k = choose|k: int|
                        0 <= k < i && (#[trigger] self@.take(i as int)[k]).username == identity@;
                    assert(self@.take(i + 1)[k].username == identity@);
                }
                if registered(self@.take(i + 1), identity@) && client@.username != identity@ {
                    let k = choose|k: int|
                        0 <= k < i + 1 && (#[trigger] self@.take(i + 1)[k]).username == identity@;
                    assert(self@.take(i as int)[k].username == identity@);
                }
            }
            let ghost staying_before = views(staying@);
            if *client.identity() == *identity {
                proof {
                    assert(self@.take(i + 1)[i as int].username == identity@);
                }
                removed = Some(client);
            } else {
                staying.push(client);
                assert(views(staying@) =~= staying_before.push(client@));
            }
            i += 1;
        }
        proof {
            assert(self@.take(i as int) =~= self@);
            lemma_filter_distinct(self@, stays);
        }
        self.clients = staying;
        removed
    }

    /// Removes every client and hands them all out.
    pub fn clear(&mut self) -> (removed: Vec<Client>)
        ensures
            final(self)@ == Seq::<ClientView>::empty(),
            views(removed@) == old(self)@,
    {
        let mut removed: Vec<Client> = Vec::new();
        std::mem::swap(&mut self.clients, &mut removed);
        proof {
            assert(self@ =~= Seq::<ClientView>::empty());
            assert(views(removed@) =~= old(self)@);
        }
        removed
    }
}

} // verus!
