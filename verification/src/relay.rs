//! The relay: it takes one message at a time and keeps the table of clients.
//! What has to be written to a socket, or closed, it hands to its caller.

use crate::client::Client;
use crate::client::ClientView;
use crate::error::SBMPError;
use crate::registry::after_drop;
use crate::registry::after_new_client;
use crate::registry::identities;
use crate::registry::registered;
use crate::registry::texts;
use crate::registry::views;
use crate::registry::ClientRegistry;
use crate::write::encode_text;
use crate::write::framed_text;
use crate::write::encoded_text;
use vstd::prelude::*;
use vstd::utf8::is_ascii_chars_encode_utf8;

verus! {

/// What the connections tell the relay.
#[derive(Debug, PartialEq, Eq)]
pub enum Message {
    /// A text to pass on to everyone who is registered.
    Broadcast(String),
    /// A peer that has given its name and asks to be let in.
    NewClient(Client),
    /// The connection of this name has ended.
    Drop(String),
}

/// What the relay asks of its caller after a message.
#[derive(Debug, PartialEq, Eq)]
pub enum Effect {
    /// The newcomer is registered; nothing is to be done.
    Registered,
    /// The name is taken: the newcomer is to be sent the notice and closed.
    Rejected { client: Client, notice: Vec<u8> },
    /// The client that left the table, if there was one, is to be closed.
    Dropped(Option<Client>),
    /// The frame is to be written to each of the named clients. Those whose
    /// write fails are then to be reported to [`ClientRegistry::prune`].
    Deliver { frame: Vec<u8>, to: Vec<String> },
    /// The text fits no frame, so no client could be written to: all of them
    /// have left the table and are to be closed.
    Undeliverable(Vec<Client>),
}

/// What a newcomer is told when its name is taken.
pub open spec fn name_taken_text() -> Seq<char> {
    "INFO: This username is already on the server"@
}

/// What a newcomer is told when its name is taken.
pub fn name_taken() -> (text: &'static str)
    ensures
        text@ == name_taken_text(),
{
    "INFO: This username is already on the server"
}

/// The notice that a name is taken fits a frame.
pub proof fn lemma_name_taken_fits()
    ensures
        encoded_text(name_taken_text()) is Ok,
{
    reveal_strlit("INFO: This username is already on the server");
    is_ascii_chars_encode_utf8(name_taken_text());
}

/// What a newcomer does to the table and asks of the caller: it is let in at
/// the end of the table, or, where its name is taken, handed back with the
/// notice to send it, and the table stays as it was.
pub open spec fn newcomer_handled(
    before: Seq<ClientView>,
    client: ClientView,
    after: Seq<ClientView>,
    effect: Effect,
) -> bool {
    &&& after == after_new_client(before, client)
    &&& if registered(before, client.username) {
        &&& effect matches Effect::Rejected { client: rejected, notice }
        &&& rejected@ == client
        &&& Ok::<Seq<u8>, SBMPError>(notice@) == encoded_text(name_taken_text())
    } else {
        effect is Registered
    }
}

/// What the end of a connection does to the table and asks of the caller:
/// the client of that name leaves the table and is handed out, if there is
/// one.
pub open spec fn drop_handled(
    before: Seq<ClientView>,
    identity: Seq<char>,
    after: Seq<ClientView>,
    effect: Effect,
) -> bool {
    &&& after == after_drop(before, identity)
    &&& effect matches Effect::Dropped(gone)
    &&& gone is Some <==> registered(before, identity)
    &&& gone matches Some(client) ==> client@.username == identity && before.contains(client@)
}

/// What a text does to the table and asks of the caller: its frame is to be
/// written to everyone in the table, which stays as it is; or, where the
/// text fits no frame, everyone leaves the table and is handed out.
pub open spec fn text_handled(
    before: Seq<ClientView>,
    text: Seq<char>,
    after: Seq<ClientView>,
    effect: Effect,
) -> bool {
    match encoded_text(text) {
        Ok(bytes) => {
            &&& after == before
            &&& effect matches Effect::Deliver { frame, to }
            &&& frame@ == bytes
            &&& texts(to@) == identities(before)
        },
        Err(_) => {
            &&& after == Seq::<ClientView>::empty()
            &&& effect matches Effect::Undeliverable(gone)
            &&& views(gone@) == before
        },
    }
}

/// What one message does to the table, and what it asks of the caller.
pub open spec fn handled(before: Seq<ClientView>, msg: Message, after: Seq<ClientView>, effect: Effect) -> bool {
    match msg {
        Message::NewClient(client) => newcomer_handled(before, client@, after, effect),
        Message::Drop(identity) => drop_handled(before, identity@, after, effect),
        Message::Broadcast(text) => text_handled(before, text@, after, effect),
    }
}

/// Lets a newcomer in, or turns it away with a notice if its name is taken.
pub fn new_client(clients: &mut ClientRegistry, client: Client) -> (effect: Effect)
    ensures
        newcomer_handled(old(clients)@, client@, final(clients)@, effect),
{
    match clients.new_client(client) {
        Ok(()) => Effect::Registered,
        Err(client) => {
            proof {
                lemma_name_taken_fits();
            }
            Effect::Rejected { client, notice: framed_text(name_taken()) }
        },
    }
}

/// Prepares a text for everyone who is registered at this moment. If the
/// text fits no frame, every write of it fails, and everyone is removed.
pub fn new_message(msg: &str, clients: &mut ClientRegistry) -> (effect: Effect)
    ensures
        text_handled(old(clients)@, msg@, final(clients)@, effect),
{
    match encode_text(msg) {
        Ok(frame) => Effect::Deliver { frame, to: clients.targets() },
        Err(_) => Effect::Undeliverable(clients.clear()),
    }
}

/// Handles one message: the only way in which the table ever changes, apart
/// from the pruning that follows a delivery.
pub fn server(clients: &mut ClientRegistry, msg: Message) -> (effect: Effect)
    ensures
        handled(old(clients)@, msg, final(clients)@, effect),
{
    match msg {
        Message::Broadcast(text) => new_message(text.as_str(), clients),
        Message::Drop(username) => Effect::Dropped(clients.drop_client(&username)),
        Message::NewClient(client) => new_client(clients, client),
    }
}

} // verus!
