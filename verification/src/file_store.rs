//! Where a bot's store keeps what: the identity, the prekeys and the
//! sessions, each in a file of its own under the bot's directory.

use vstd::prelude::*;
use vstd::string::*;
use crate::text::join2;
use crate::utils::{push_path, pushed_path};

verus! {

/// The decimal digit for a number below ten.
pub open spec fn digit_of(d: nat) -> char {
    if d == 0 {
        '0'
    } else if d == 1 {
        '1'
    } else if d == 2 {
        '2'
    } else if d == 3 {
        '3'
    } else if d == 4 {
        '4'
    } else if d == 5 {
        '5'
    } else if d == 6 {
        '6'
    } else if d == 7 {
        '7'
    } else if d == 8 {
        '8'
    } else {
        '9'
    }
}

/// The number in decimal, without leading zeros.
pub open spec fn decimal(n: nat) -> Seq<char>
    decreases n,
{
    if n < 10 {
        seq![digit_of(n)]
    } else {
        decimal(n / 10).push(digit_of(n % 10))
    }
}

/// The name of the file that holds the prekey with the id.
pub open spec fn prekey_file(id: u16) -> Seq<char> {
    decimal(id as nat) + ".pkid"@
}

fn digit_text(d: u16) -> (r: &'static str)
    requires
        d < 10,
    ensures
        r@ == seq![digit_of(d as nat)],
{
    proof {
        reveal_strlit("0");
        reveal_strlit("1");
        reveal_strlit("2");
        reveal_strlit("3");
        reveal_strlit("4");
        reveal_strlit("5");
        reveal_strlit("6");
        reveal_strlit("7");
        reveal_strlit("8");
        reveal_strlit("9");
    }
    let r = if d == 0 {
        "0"
    } else if d == 1 {
        "1"
    } else if d == 2 {
        "2"
    } else if d == 3 {
        "3"
    } else if d == 4 {
        "4"
    } else if d == 5 {
        "5"
    } else if d == 6 {
        "6"
    } else if d == 7 {
        "7"
    } else if d == 8 {
        "8"
    } else {
        "9"
    };
    assert(r@ =~= seq![digit_of(d as nat)]);
    r
}

/// The number in decimal.
pub fn decimal_text(n: u16) -> (r: String)
    ensures
        r@ == decimal(n as nat),
    decreases n,
{
    if n < 10 {
        digit_text(n).to_owned()
    } else {
        let mut s = decimal_text(n / 10);
        s.append(digit_text(n % 10));
        assert(s@ =~= decimal(n as nat));
        s
    }
}

/// The files of one bot.
#[derive(Clone, Debug, PartialEq, Eq)]
pub struct FileStore {
    path: String,
    bot_id: String,
}

impl FileStore {
    /// The directory of the bot.
    pub closed spec fn dir(&self) -> Seq<char> {
        self.path@
    }

    /// The id of the bot.
    pub closed spec fn bot(&self) -> Seq<char> {
        self.bot_id@
    }

    /// The store of the bot with the given id under the given directory.
    pub fn new(path: &str, id: String) -> (r: FileStore)
        ensures
            r.dir() == pushed_path(path@, id@),
            r.bot() == id@,
    {
        FileStore { path: push_path(path, id.as_str()), bot_id: id }
    }

    /// The file that holds the identity of the bot.
    pub fn identity_path(&self) -> (r: String)
        ensures
            r@ == pushed_path(self.dir(), "identity.id"@),
    {
        push_path(self.path.as_str(), "identity.id")
    }

    /// The file that holds the session with the given name.
    pub fn session_path(&self, id: &str) -> (r: String)
        ensures
            r@ == pushed_path(self.dir(), id@),
    {
        push_path(self.path.as_str(), id)
    }

    /// The file that holds the prekey with the given id.
    pub fn prekey_path(&self, id: u16) -> (r: String)
        ensures
            r@ == pushed_path(self.dir(), prekey_file(id)),
    {
        let name = join2(decimal_text(id).as_str(), ".pkid");
        push_path(self.path.as_str(), name.as_str())
    }
}

} // verus!
