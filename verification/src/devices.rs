//! The devices of a conversation, user by user.

use vstd::prelude::*;
use crate::assoc::{distinct_keys, first_is_position_of, position_after_push, position_after_update,
    position_of, position_of_is_first};
use crate::text::{copy_strings, same_text};

verus! {

/// One user and the client ids known for that user, in the order in which
/// they were learnt. A client id may occur more than once.
#[derive(Debug, PartialEq, Eq)]
pub struct UserClients {
    pub user: String,
    pub clients: Vec<String>,
}

impl DeepView for UserClients {
    type V = (Seq<char>, Seq<Seq<char>>);

    open spec fn deep_view(&self) -> (Seq<char>, Seq<Seq<char>>) {
        (self.user@, self.clients.deep_view())
    }
}

impl Clone for UserClients {
    fn clone(&self) -> (r: Self)
        ensures
            r.deep_view() == self.deep_view(),
    {
        UserClients { user: self.user.clone(), clients: copy_strings(&self.clients) }
    }
}

/// `entries` after `client` has been appended to the clients of `user`: to
/// the user's entry where there is one, else to a new entry at the end.
pub open spec fn with_client(
    entries: Seq<(Seq<char>, Seq<Seq<char>>)>,
    user: Seq<char>,
    client: Seq<char>,
) -> Seq<(Seq<char>, Seq<Seq<char>>)> {
    match position_of(entries, user) {
        Some(i) => entries.update(i, (user, entries[i].1.push(client))),
        None => entries.push((user, seq![client])),
    }
}

/// `entries` after the clients of `user` have been set to `clients`.
pub open spec fn with_user(
    entries: Seq<(Seq<char>, Seq<Seq<char>>)>,
    user: Seq<char>,
    clients: Seq<Seq<char>>,
) -> Seq<(Seq<char>, Seq<Seq<char>>)> {
    match position_of(entries, user) {
        Some(i) => entries.update(i, (user, clients)),
        None => entries.push((user, clients)),
    }
}

/// Setting the clients of a user gives no user a second entry.
pub proof fn with_user_keeps_distinct(
    entries: Seq<(Seq<char>, Seq<Seq<char>>)>,
    user: Seq<char>,
    clients: Seq<Seq<char>>,
)
    ensures
        distinct_keys(entries) ==> distinct_keys(with_user(entries, user, clients)),
        position_of(with_user(entries, user, clients), user).is_some(),
        with_user(entries, user, clients)[position_of(
            with_user(entries, user, clients),
            user,
        ).unwrap()].1 == clients,
{
    let after = with_user(entries, user, clients);
    position_of_is_first(entries, user);
    match position_of(entries, user) {
        Some(i) => {
            assert(after == entries.update(i, (entries[i].0, clients)));
            position_after_update(entries, i, clients, user);
            if distinct_keys(entries) {
                assert forall|a: int, b: int| 0 <= a < b < after.len() implies after[a].0 != after[b].0 by {
                    assert(entries[a].0 != entries[b].0);
                }
            }
        },
        None => {
            position_after_push(entries, (user, clients), user);
            if distinct_keys(entries) {
                assert forall|a: int, b: int| 0 <= a < b < after.len() implies after[a].0 != after[b].0 by {
                    if b < entries.len() {
                        assert(entries[a].0 != entries[b].0);
                    } else {
                        assert(entries[a].0 != user);
                    }
                }
            }
        },
    }
}

/// Whether `client` is among the clients that `entries` holds for `user`.
pub open spec fn knows(
    entries: Seq<(Seq<char>, Seq<Seq<char>>)>,
    user: Seq<char>,
    client: Seq<char>,
) -> bool {
    match position_of(entries, user) {
        Some(i) => entries[i].1.contains(client),
        None => false,
    }
}

/// After a client has been appended for a user, that device is known, and
/// every other device is known exactly if it was known before. Where no user
/// had two entries, none has two afterwards.
pub proof fn knows_after_append(
    entries: Seq<(Seq<char>, Seq<Seq<char>>)>,
    user: Seq<char>,
    client: Seq<char>,
    other_user: Seq<char>,
    other_client: Seq<char>,
)
    ensures
        knows(with_client(entries, user, client), other_user, other_client) == (knows(
            entries,
            other_user,
            other_client,
        ) || (other_user == user && other_client == client)),
        distinct_keys(entries) ==> distinct_keys(with_client(entries, user, client)),
{
    let after = with_client(entries, user, client);
    position_of_is_first(entries, user);
    position_of_is_first(entries, other_user);
    match position_of(entries, user) {
        Some(i) => {
            let clients = entries[i].1.push(client);
            assert(after == entries.update(i, (entries[i].0, clients)));
            position_after_update(entries, i, clients, other_user);
            if other_user == user {
                assert(after[i].1 == clients);
                assert(clients[entries[i].1.len() as int] == client);
                if entries[i].1.contains(other_client) {
                    let k = choose|k: int| 0 <= k < entries[i].1.len() && entries[i].1[k] == other_client;
                    assert(clients[k] == other_client);
                }
                if clients.contains(other_client) && other_client != client {
                    let k = choose|k: int| 0 <= k < clients.len() && clients[k] == other_client;
                    assert(entries[i].1[k] == other_client);
                }
            } else {
                match position_of(entries, other_user) {
                    Some(k) => {
                        assert(after[k] == entries[k]);
                    },
                    None => {},
                }
            }
            if distinct_keys(entries) {
                assert forall|a: int, b: int| 0 <= a < b < after.len() implies after[a].0 != after[b].0 by {
                    assert(entries[a].0 != entries[b].0);
                }
            }
        },
        None => {
            let single = seq![client];
            position_after_push(entries, (user, single), other_user);
            if other_user == user {
                assert(after[entries.len() as int].1 == single);
                assert(single[0] == client);
            } else {
                match position_of(entries, other_user) {
                    Some(k) => {
                        assert(after[k] == entries[k]);
                    },
                    None => {},
                }
            }
            if distinct_keys(entries) {
                assert forall|a: int, b: int| 0 <= a < b < after.len() implies after[a].0 != after[b].0 by {
                    if b < entries.len() {
                        assert(entries[a].0 != entries[b].0);
                    } else {
                        assert(entries[a].0 != user);
                    }
                }
            }
        },
    }
}

/// The devices of a conversation: for each user the client ids, users in the
/// order in which they were first seen.
#[derive(Debug, PartialEq, Eq)]
pub struct DeviceMap {
    entries: Vec<UserClients>,
}

impl View for DeviceMap {
    type V = Seq<(Seq<char>, Seq<Seq<char>>)>;

    closed spec fn view(&self) -> Seq<(Seq<char>, Seq<Seq<char>>)> {
        self.entries.deep_view()
    }
}

impl Clone for DeviceMap {
    fn clone(&self) -> (r: Self)
        ensures
            r@ == self@,
    {
        let mut out: Vec<UserClients> = Vec::new();
        let mut i: usize = 0;
        while i < self.entries.len()
            invariant
                i <= self.entries.len(),
                out.len() == i,
                forall|j: int| 0 <= j < i ==> out[j].deep_view() == self.entries[j].deep_view(),
            decreases self.entries.len() - i,
        {
            let e = self.entries[i].clone();
            out.push(e);
            i = i + 1;
        }
        assert(out.deep_view() =~= self.entries.deep_view());
        DeviceMap { entries: out }
    }
}

impl DeviceMap {
    /// The map without any user.
    pub fn new() -> (r: Self)
        ensures
            r@ == Seq::<(Seq<char>, Seq<Seq<char>>)>::empty(),
    {
        let r = DeviceMap { entries: Vec::new() };
        assert(r.entries.deep_view() =~= Seq::empty());
        r
    }

    /// The number of users.
    pub fn len(&self) -> (n: usize)
        ensures
            n == self@.len(),
    {
        self.entries.len()
    }

    /// Whether the map holds no user.
    pub fn is_empty(&self) -> (r: bool)
        ensures
            r == (self@.len() == 0),
    {
        self.entries.len() == 0
    }

    /// The user at position `i`.
    pub fn user_at(&self, i: usize) -> (r: &str)
        requires
            i < self@.len(),
        ensures
            r@ == self@[i as int].0,
    {
        self.entries[i].user.as_str()
    }

    /// The clients of the user at position `i`.
    pub fn clients_at(&self, i: usize) -> (r: &Vec<String>)
        requires
            i < self@.len(),
        ensures
            r.deep_view() == self@[i as int].1,
    {
        &self.entries[i].clients
    }

    /// Where the entry of `user` stands.
    pub fn position(&self, user: &str) -> (r: Option<usize>)
        ensures
            match r {
                Some(i) => position_of(self@, user@) == Some(i as int) && i < self@.len()
                    && self@[i as int].0 == user@,
                None => position_of(self@, user@).is_none(),
            },
    {
        let mut i: usize = 0;
        while i < self.entries.len()
            invariant
                i <= self.entries.len(),
                forall|j: int| 0 <= j < i ==> self@[j].0 != user@,
            decreases self.entries.len() - i,
        {
            if same_text(self.entries[i].user.as_str(), user) {
                proof {
                    first_is_position_of(self@, user@, i as int);
                }
                return Some(i);
            }
            i = i + 1;
        }
        proof {
            position_of_is_first(self@, user@);
        }
        None
    }

    /// The clients known for `user`, if the user has an entry.
    pub fn get(&self, user: &str) -> (r: Option<&Vec<String>>)
        ensures
            match r {
                Some(c) => position_of(self@, user@).is_some() && c.deep_view()
                    == self@[position_of(self@, user@).unwrap()].1,
                None => position_of(self@, user@).is_none(),
            },
    {
        match self.position(user) {
            Some(i) => Some(&self.entries[i].clients),
            None => None,
        }
    }

    /// Sets the clients of `user`, in the user's entry where there is one,
    /// else in a new entry at the end.
    pub fn insert(&mut self, user: &str, clients: Vec<String>)
        ensures
            final(self)@ == with_user(old(self)@, user@, clients.deep_view()),
            distinct_keys(old(self)@) ==> distinct_keys(final(self)@),
    {
        proof {
            with_user_keeps_distinct(self@, user@, clients.deep_view());
        }
        match self.position(user) {
            Some(i) => {
                self.entries[i].clients = clients;
                assert(self.entries.deep_view() =~= with_user(old(self)@, user@, clients.deep_view()));
            },
            None => {
                let e = UserClients { user: user.to_owned(), clients };
                self.entries.push(e);
                assert(self.entries.deep_view() =~= with_user(old(self)@, user@, clients.deep_view()));
            },
        }
    }

    /// Appends `client` to the clients of `user`; a user without an entry
    /// gets one at the end.
    pub fn append_client(&mut self, user: &str, client: &str)
        ensures
            final(self)@ == with_client(old(self)@, user@, client@),
            distinct_keys(old(self)@) ==> distinct_keys(final(self)@),
    {
        proof {
            knows_after_append(self@, user@, client@, user@, client@);
        }
        match self.position(user) {
            Some(i) => {
                self.entries[i].clients.push(client.to_owned());
                assert(self.entries[i as int].clients.deep_view() =~= old(self)@[i as int].1.push(client@));
                assert(self.entries.deep_view() =~= with_client(old(self)@, user@, client@));
            },
            None => {
                let mut clients: Vec<String> = Vec::new();
                clients.push(client.to_owned());
                assert(clients.deep_view() =~= seq![client@]);
                let e = UserClients { user: user.to_owned(), clients };
                self.entries.push(e);
                assert(self.entries.deep_view() =~= with_client(old(self)@, user@, client@));
            },
        }
    }
}

} // verus!
