//! A connected peer, as the relay knows it: a name and an address.

use crate::text::strip_control;
use crate::text::without_control;
use vstd::prelude::*;
use vstd::string::StrSliceExecFns;
use vstd::string::StringExecFns;

verus! {

/// Most characters that a name may have in the framed protocol.
pub const MAX_USERNAME_LEN: usize = 32;

/// Most characters that a name may have where it is asked for as a plain line.
pub const MAX_LINE_USERNAME_LEN: usize = 16;

/// The name that a piece of free text stands for: the text without its
/// control codes, unless nothing is left of it or it has more characters than
/// the bound.
pub open spec fn checked_username(text: Seq<char>, bound: nat) -> Option<Seq<char>> {
    let name = strip_control(text);
    if name.len() == 0 || name.len() > bound {
        None
    } else {
        Some(name)
    }
}

/// Strips the control codes from a text and accepts what is left as a name if
/// it has at least one character and no more than `bound`.
pub fn validate_username(text: &str, bound: usize) -> (res: Option<String>)
    ensures
        res is Some <==> checked_username(text@, bound as nat) is Some,
        res matches Some(name) ==> checked_username(text@, bound as nat) == Some(name@),
{
    let name = without_control(text);
    let len = name.as_str().unicode_len();
    if len == 0 || len > bound {
        None
    } else {
        Some(name)
    }
}

/// What is known of a client, as plain mathematical values.
pub struct ClientView {
    pub username: Seq<char>,
    pub ip: Seq<char>,
}

/// A connected peer. Its name is its identity in the registry.
#[derive(Debug, PartialEq, Eq)]
pub struct Client {
    username: String,
    ip: String,
}

impl View for Client {
    type V = ClientView;

    closed spec fn view(&self) -> ClientView {
        ClientView { username: self.username@, ip: self.ip@ }
    }
}

impl Clone for Client {
    fn clone(&self) -> (client: Self)
        ensures
            client@ == self@,
    {
        Client { username: self.username.clone(), ip: self.ip.clone() }
    }
}

impl Client {
    /// A client at the given address, under the name every newcomer has.
    pub fn new(ip: String) -> (client: Self)
        ensures
            client@ == (ClientView { username: "Guest"@, ip: ip@ }),
    {
        Self { username: String::from_str("Guest"), ip }
    }

    /// The address that the client connected from.
    pub fn ip(&self) -> (ip: &str)
        ensures
            ip@ == self@.ip,
    {
        self.ip.as_str()
    }

    /// The name as the key under which the registry files this client.
    pub fn identity(&self) -> (identity: &String)
        ensures
            identity@ == self@.username,
    {
        &self.username
    }

    /// The name of the client.
    pub fn username(&self) -> (username: &str)
        ensures
            username@ == self@.username,
    {
        self.username.as_str()
    }

    /// Takes a new name if the text gives a valid one, and says which name it
    /// took; else the client keeps the name it had.
    pub fn set_username(&mut self, username: String) -> (res: Option<&str>)
        ensures
            final(self)@.ip == old(self)@.ip,
            match checked_username(username@, MAX_USERNAME_LEN as nat) {
                Some(name) => final(self)@.username == name && res is Some && res->Some_0@ == name,
                None => final(self)@.username == old(self)@.username && res is None,
            },
    {
        match validate_username(username.as_str(), MAX_USERNAME_LEN) {
            Some(name) => {
                self.username = name;
                Some(self.username.as_str())
            },
            None => None,
        }
    }
}

} // verus!
