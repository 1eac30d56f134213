//! The ciphertexts of one message, user by user and client by client.

use vstd::prelude::*;
use crate::assoc::{distinct_keys, first_is_position_of, position_after_push, position_after_update,
    position_of, position_of_is_first};
use crate::text::same_text;

verus! {

/// The ciphertext for one client.
#[derive(Clone, Debug, PartialEq, Eq)]
pub struct ClientCipher {
    pub client: String,
    pub text: String,
}

impl DeepView for ClientCipher {
    type V = (Seq<char>, Seq<char>);

    open spec fn deep_view(&self) -> (Seq<char>, Seq<char>) {
        (self.client@, self.text@)
    }
}

/// The ciphertexts for the clients of one user.
#[derive(Clone, Debug, PartialEq, Eq)]
pub struct UserCiphers {
    pub user: String,
    pub clients: Vec<ClientCipher>,
}

impl DeepView for UserCiphers {
    type V = (Seq<char>, Seq<(Seq<char>, Seq<char>)>);

    open spec fn deep_view(&self) -> (Seq<char>, Seq<(Seq<char>, Seq<char>)>) {
        (self.user@, self.clients.deep_view())
    }
}

/// `entries` after the ciphertext `text` for `client` of `user` has been
/// added: a ciphertext that is already there for that client stays.
pub open spec fn with_cipher(
    entries: Seq<(Seq<char>, Seq<(Seq<char>, Seq<char>)>)>,
    user: Seq<char>,
    client: Seq<char>,
    text: Seq<char>,
) -> Seq<(Seq<char>, Seq<(Seq<char>, Seq<char>)>)> {
    match position_of(entries, user) {
        Some(i) => match position_of(entries[i].1, client) {
            Some(_) => entries,
            None => entries.update(i, (user, entries[i].1.push((client, text)))),
        },
        None => entries.push((user, seq![(client, text)])),
    }
}

/// The ciphertext that `entries` holds for `client` of `user`.
pub open spec fn cipher_for(
    entries: Seq<(Seq<char>, Seq<(Seq<char>, Seq<char>)>)>,
    user: Seq<char>,
    client: Seq<char>,
) -> Option<Seq<char>> {
    match position_of(entries, user) {
        Some(i) => match position_of(entries[i].1, client) {
            Some(j) => Some(entries[i].1[j].1),
            None => None,
        },
        None => None,
    }
}

/// No user has two entries, and no client has two among those of one user.
pub open spec fn well_keyed(entries: Seq<(Seq<char>, Seq<(Seq<char>, Seq<char>)>)>) -> bool {
    &&& distinct_keys(entries)
    &&& forall|i: int| 0 <= i < entries.len() ==> distinct_keys(#[trigger] entries[i].1)
}

/// Adding a ciphertext gives no user and no client a second entry.
pub proof fn with_cipher_keeps_keys(
    entries: Seq<(Seq<char>, Seq<(Seq<char>, Seq<char>)>)>,
    user: Seq<char>,
    client: Seq<char>,
    text: Seq<char>,
)
    requires
        well_keyed(entries),
    ensures
        well_keyed(with_cipher(entries, user, client, text)),
{
    let after = with_cipher(entries, user, client, text);
    position_of_is_first(entries, user);
    match position_of(entries, user) {
        Some(i) => {
            position_of_is_first(entries[i].1, client);
            match position_of(entries[i].1, client) {
                Some(_) => {},
                None => {
                    let clients = entries[i].1.push((client, text));
                    assert(distinct_keys(clients)) by {
                        assert forall|a: int, b: int| 0 <= a < b < clients.len() implies clients[a].0
                            != clients[b].0 by {
                            if b < entries[i].1.len() {
                                assert(entries[i].1[a].0 != entries[i].1[b].0);
                            } else {
                                assert(entries[i].1[a].0 != client);
                            }
                        }
                    }
                    assert forall|a: int, b: int| 0 <= a < b < after.len() implies after[a].0 != after[b].0 by {
                        assert(entries[a].0 != entries[b].0);
                    }
                    assert forall|k: int| 0 <= k < after.len() implies distinct_keys(
                        #[trigger] after[k].1,
                    ) by {
                        if k != i {
                            assert(after[k].1 == entries[k].1);
                        }
                    }
                },
            }
        },
        None => {
            let single = seq![(client, text)];
            assert(distinct_keys(single));
            assert forall|a: int, b: int| 0 <= a < b < after.len() implies after[a].0 != after[b].0 by {
                if b < entries.len() {
                    assert(entries[a].0 != entries[b].0);
                } else {
                    assert(entries[a].0 != user);
                }
            }
            assert forall|k: int| 0 <= k < after.len() implies distinct_keys(#[trigger] after[k].1) by {
                if k < entries.len() {
                    assert(after[k].1 == entries[k].1);
                }
            }
        },
    }
}

/// After a ciphertext has been added for a device, that device has the
/// ciphertext it had before, or the new one where it had none; every other
/// device has what it had.
pub proof fn cipher_after_add(
    entries: Seq<(Seq<char>, Seq<(Seq<char>, Seq<char>)>)>,
    user: Seq<char>,
    client: Seq<char>,
    text: Seq<char>,
    other_user: Seq<char>,
    other_client: Seq<char>,
)
    ensures
        cipher_for(with_cipher(entries, user, client, text), other_user, other_client) == if other_user
            == user && other_client == client {
            match cipher_for(entries, user, client) {
                Some(t) => Some(t),
                None => Some(text),
            }
        } else {
            cipher_for(entries, other_user, other_client)
        },
{
    let after = with_cipher(entries, user, client, text);
    position_of_is_first(entries, user);
    position_of_is_first(entries, other_user);
    match position_of(entries, user) {
        Some(i) => {
            position_of_is_first(entries[i].1, client);
            position_of_is_first(entries[i].1, other_client);
            match position_of(entries[i].1, client) {
                Some(_) => {},
                None => {
                    let clients = entries[i].1.push((client, text));
                    assert(after == entries.update(i, (entries[i].0, clients)));
                    position_after_update(entries, i, clients, other_user);
                    position_after_push(entries[i].1, (client, text), other_client);
                    if other_user == user {
                        assert(after[i].1 == clients);
                    } else {
                        match position_of(entries, other_user) {
                            Some(k) => {
                                assert(after[k] == entries[k]);
                            },
                            None => {},
                        }
                    }
                },
            }
        },
        None => {
            let single = seq![(client, text)];
            position_after_push(entries, (user, single), other_user);
            position_after_push(Seq::<(Seq<char>, Seq<char>)>::empty(), (client, text), other_client);
            assert(Seq::<(Seq<char>, Seq<char>)>::empty().push((client, text)) =~= single);
            if other_user == user {
                assert(after[entries.len() as int].1 == single);
            } else {
                match position_of(entries, other_user) {
                    Some(k) => {
                        assert(after[k] == entries[k]);
                    },
                    None => {},
                }
            }
        },
    }
}

/// For each user the ciphertexts for that user's clients; users and clients
/// in the order in which they were added, each at most once.
#[derive(Clone, Debug, PartialEq, Eq)]
pub struct Recipients {
    entries: Vec<UserCiphers>,
}

impl View for Recipients {
    type V = Seq<(Seq<char>, Seq<(Seq<char>, Seq<char>)>)>;

    closed spec fn view(&self) -> Seq<(Seq<char>, Seq<(Seq<char>, Seq<char>)>)> {
        self.entries.deep_view()
    }
}

fn client_position(clients: &Vec<ClientCipher>, client: &str) -> (r: Option<usize>)
    ensures
        match r {
            Some(i) => position_of(clients.deep_view(), client@) == Some(i as int) && i
                < clients.len(),
            None => position_of(clients.deep_view(), client@).is_none(),
        },
{
    let mut i: usize = 0;
    while i < clients.len()
        invariant
            i <= clients.len(),
            forall|j: int| 0 <= j < i ==> clients.deep_view()[j].0 != client@,
        decreases clients.len() - i,
    {
        if same_text(clients[i].client.as_str(), client) {
            proof {
                first_is_position_of(clients.deep_view(), client@, i as int);
            }
            return Some(i);
        }
        i = i + 1;
    }
    proof {
        position_of_is_first(clients.deep_view(), client@);
    }
    None
}

impl Recipients {
    /// No ciphertext for anyone.
    pub fn new() -> (r: Self)
        ensures
            r@ == Seq::<(Seq<char>, Seq<(Seq<char>, Seq<char>)>)>::empty(),
    {
        let r = Recipients { entries: Vec::new() };
        assert(r.entries.deep_view() =~= Seq::empty());
        r
    }

    /// The number of users.
    pub fn len(&self) -> (n: usize)
        ensures
            n == self@.len(),
    {
        self.entries.len()
    }

    /// Whether there is no ciphertext for anyone.
    pub fn is_empty(&self) -> (r: bool)
        ensures
            r == (self@.len() == 0),
    {
        self.entries.len() == 0
    }

    /// The user at position `i`.
    pub fn user_at(&self, i: usize) -> (r: &str)
        requires
            i < self@.len(),
        ensures
            r@ == self@[i as int].0,
    {
        self.entries[i].user.as_str()
    }

    /// The ciphertexts for the user at position `i`.
    pub fn ciphers_at(&self, i: usize) -> (r: &Vec<ClientCipher>)
        requires
            i < self@.len(),
        ensures
            r.deep_view() == self@[i as int].1,
    {
        &self.entries[i].clients
    }

    /// Where the entry of `user` stands.
    pub fn position(&self, user: &str) -> (r: Option<usize>)
        ensures
            match r {
                Some(i) => position_of(self@, user@) == Some(i as int) && i < self@.len()
                    && self@[i as int].0 == user@,
                None => position_of(self@, user@).is_none(),
            },
    {
        let mut i: usize = 0;
        while i < self.entries.len()
            invariant
                i <= self.entries.len(),
                forall|j: int| 0 <= j < i ==> self@[j].0 != user@,
            decreases self.entries.len() - i,
        {
            if same_text(self.entries[i].user.as_str(), user) {
                proof {
                    first_is_position_of(self@, user@, i as int);
                }
                return Some(i);
            }
            i = i + 1;
        }
        proof {
            position_of_is_first(self@, user@);
        }
        None
    }

    /// The ciphertext for `client` of `user`, if there is one.
    pub fn get(&self, user: &str, client: &str) -> (r: Option<&str>)
        ensures
            match r {
                Some(t) => cipher_for(self@, user@, client@) == Some(t@),
                None => cipher_for(self@, user@, client@).is_none(),
            },
    {
        match self.position(user) {
            Some(i) => match client_position(&self.entries[i].clients, client) {
                Some(j) => Some(self.entries[i].clients[j].text.as_str()),
                None => None,
            },
            None => None,
        }
    }

    /// Adds the ciphertext for `client` of `user`, unless there is one for
    /// that client already.
    pub fn add(&mut self, user: &str, client: &str, text: String)
        ensures
            final(self)@ == with_cipher(old(self)@, user@, client@, text@),
            well_keyed(old(self)@) ==> well_keyed(final(self)@),
    {
        proof {
            if well_keyed(self@) {
                with_cipher_keeps_keys(self@, user@, client@, text@);
            }
        }
        match self.position(user) {
            Some(i) => {
                match client_position(&self.entries[i].clients, client) {
                    Some(_) => {},
                    None => {
                        let c = ClientCipher { client: client.to_owned(), text };
                        self.entries[i].clients.push(c);
                        assert(self.entries[i as int].clients.deep_view() =~= old(self)@[i as int].1.push(
                            (client@, text@),
                        ));
                        assert(self.entries.deep_view() =~= with_cipher(
                            old(self)@,
                            user@,
                            client@,
                            text@,
                        ));
                    },
                }
            },
            None => {
                let mut clients: Vec<ClientCipher> = Vec::new();
                clients.push(ClientCipher { client: client.to_owned(), text });
                assert(clients.deep_view() =~= seq![(client@, text@)]);
                let e = UserCiphers { user: user.to_owned(), clients };
                self.entries.push(e);
                assert(self.entries.deep_view() =~= with_cipher(old(self)@, user@, client@, text@));
            },
        }
    }
}

} // verus!
