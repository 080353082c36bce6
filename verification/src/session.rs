//! One connection, from the first prompt to the last notice, as a state
//! machine. The caller does what a [`Command`] says (it writes, reads, or
//! hands a message to the relay) and reports how that went as an [`Event`].

use crate::client::checked_username;
use crate::client::Client;
use crate::client::ClientView;
use crate::client::MAX_USERNAME_LEN;
use crate::content::ContentType;
use crate::error::SBMPError;
use crate::frame::Frame;
use crate::frame::FrameView;
use crate::relay::Message;
use crate::text::spelled;
use crate::text::text_of;
use crate::write::framed_text;
use crate::write::encoded_text;
use vstd::prelude::*;
use vstd::utf8::is_ascii_chars_encode_utf8;

verus! {

/// How a connection ended.
#[derive(Clone, Copy, Debug, PartialEq, Eq, Structural)]
pub enum ConnectionEnd {
    /// The peer left, or was turned away, or sent what cannot be passed on.
    Normal,
    /// The relay no longer takes messages.
    ReceiverDropped,
}

/// Why a frame holds no name.
#[derive(Clone, Copy, Debug, PartialEq, Eq, Structural)]
pub enum Invalid {
    /// The frame is not of content type UTF8.
    ContentType,
    /// The payload is not valid UTF-8.
    Encoding,
    /// Without its control codes the text is empty or too long.
    Username,
}

/// Why a peer was not let in.
#[derive(Clone, Copy, Debug, PartialEq, Eq, Structural)]
pub enum ClientError {
    /// No frame with a name arrived: the stream failed, or what it carried
    /// was no frame.
    IO(SBMPError),
    /// A frame arrived, but what it holds is not a name.
    Validation(Invalid),
}

/// The text that a frame passes on, if its payload is valid UTF-8.
pub open spec fn frame_text(frame: FrameView) -> Option<Seq<char>> {
    spelled(frame.payload)
}

/// The payload of a frame as text, if it is valid UTF-8.
pub fn text_of_frame(frame: Frame) -> (res: Option<String>)
    ensures
        res is Some <==> frame_text(frame@) is Some,
        res matches Some(text) ==> frame_text(frame@) == Some(text@),
{
    text_of(frame.get_payload())
}

/// The name that the answer to the prompt gives, or why it gives none. The
/// content type is judged first, then the encoding, then the name itself.
pub open spec fn name_in(frame: FrameView) -> Result<Seq<char>, Invalid> {
    if frame.header.content_type != ContentType::UTF8 {
        Err(Invalid::ContentType)
    } else {
        match spelled(frame.payload) {
            None => Err(Invalid::Encoding),
            Some(text) => match checked_username(text, MAX_USERNAME_LEN as nat) {
                Some(name) => Ok(name),
                None => Err(Invalid::Username),
            },
        }
    }
}

/// What becomes of a client once the answer to the prompt is in.
pub open spec fn logged_in(client: ClientView, answer: Result<Frame, SBMPError>) -> Result<
    ClientView,
    ClientError,
> {
    match answer {
        Err(e) => Err(ClientError::IO(e)),
        Ok(frame) => match name_in(frame@) {
            Ok(name) => Ok(ClientView { username: name, ip: client.ip }),
            Err(why) => Err(ClientError::Validation(why)),
        },
    }
}

/// A result with the client, if there is one, replaced by its view.
pub open spec fn client_result_view(res: Result<Client, ClientError>) -> Result<ClientView, ClientError> {
    match res {
        Ok(client) => Ok(client@),
        Err(e) => Err(e),
    }
}

/// Gives a client the name that it sent in answer to the prompt.
pub fn login(client: Client, answer: Result<Frame, SBMPError>) -> (res: Result<Client, ClientError>)
    ensures
        client_result_view(res) == logged_in(client@, answer),
{
    let frame = match answer {
        Ok(frame) => frame,
        Err(e) => {
            return Err(ClientError::IO(e));
        },
    };
    match *frame.get().0.content_type() {
        ContentType::UTF8 => {},
        ContentType::Binary => {
            return Err(ClientError::Validation(Invalid::ContentType));
        },
    }
    let username = match text_of_frame(frame) {
        Some(username) => username,
        None => {
            return Err(ClientError::Validation(Invalid::Encoding));
        },
    };
    let mut client = client;
    if client.set_username(username).is_none() {
        return Err(ClientError::Validation(Invalid::Username));
    }
    Ok(client)
}

/// What a peer is told before its connection is closed, where it is told
/// anything.
pub open spec fn notice_of(error: ClientError) -> Option<Seq<char>> {
    match error {
        ClientError::IO(_) => None,
        ClientError::Validation(Invalid::ContentType) => Some(
            "ERROR: login: content type should be UTF8"@,
        ),
        ClientError::Validation(Invalid::Encoding) => Some("Username invalid: bad encoding"@),
        ClientError::Validation(Invalid::Username) => Some(
            "Username should have 1 to 32 characters"@,
        ),
    }
}

impl ClientError {
    /// What the peer is told before its connection is closed, where it is
    /// told anything.
    pub fn notice(&self) -> (text: Option<&'static str>)
        ensures
            text is Some <==> notice_of(*self) is Some,
            text matches Some(t) ==> notice_of(*self) == Some(t@),
    {
        match self {
            ClientError::IO(_) => None,
            ClientError::Validation(Invalid::ContentType) => Some(
                "ERROR: login: content type should be UTF8",
            ),
            ClientError::Validation(Invalid::Encoding) => Some("Username invalid: bad encoding"),
            ClientError::Validation(Invalid::Username) => Some(
                "Username should have 1 to 32 characters",
            ),
        }
    }
}

/// The prompt and every notice fit a frame.
pub proof fn lemma_notices_fit(error: ClientError)
    ensures
        encoded_text("Type your username: "@) is Ok,
        notice_of(error) matches Some(text) ==> encoded_text(text) is Ok,
{
    reveal_strlit("Type your username: ");
    is_ascii_chars_encode_utf8("Type your username: "@);
    reveal_strlit("ERROR: login: content type should be UTF8");
    is_ascii_chars_encode_utf8("ERROR: login: content type should be UTF8"@);
    reveal_strlit("Username invalid: bad encoding");
    is_ascii_chars_encode_utf8("Username invalid: bad encoding"@);
    reveal_strlit("Username should have 1 to 32 characters");
    is_ascii_chars_encode_utf8("Username should have 1 to 32 characters"@);
}

/// Where a connection stands.
#[derive(Clone, Copy, Debug, PartialEq, Eq, Structural)]
pub enum Stage {
    /// The prompt for a name is being written.
    Prompting,
    /// The frame with the name is being read.
    AwaitingName,
    /// A notice is being written to a peer that is turned away.
    Refusing,
    /// The relay is being told of the newcomer.
    Registering,
    /// The next frame is being read.
    Reading,
    /// A text is being handed to the relay.
    Forwarding,
    /// The relay is being told that the connection has ended.
    Leaving(ConnectionEnd),
    /// Nothing is left to do.
    Done(ConnectionEnd),
}

/// What the caller reports.
#[derive(Debug, PartialEq, Eq)]
pub enum Event {
    /// The bytes of the last command were written, or they were not.
    Written(bool),
    /// A frame was read, or reading failed.
    FrameRead(Result<Frame, SBMPError>),
    /// The relay took the message of the last command, or it is gone.
    Sent(bool),
}

/// What the caller is to do next.
#[derive(Debug, PartialEq, Eq)]
pub enum Command {
    /// Write these bytes to the peer and report `Written`.
    Write(Vec<u8>),
    /// Read one frame from the peer and report `FrameRead`.
    Read,
    /// Hand this message to the relay and report `Sent`.
    Send(Message),
    /// Stop: the connection has ended in this way.
    Finish(ConnectionEnd),
}

/// A session, as plain mathematical values.
pub struct SessionView {
    pub stage: Stage,
    pub client: ClientView,
}

/// The state of one connection.
#[derive(Debug)]
pub struct Session {
    stage: Stage,
    client: Client,
}

impl View for Session {
    type V = SessionView;

    closed spec fn view(&self) -> SessionView {
        SessionView { stage: self.stage, client: self.client@ }
    }
}

/// Whether a command is to write the frame of the given text.
pub open spec fn writes(command: Command, text: Seq<char>) -> bool {
    command matches Command::Write(bytes) && Ok::<Seq<u8>, SBMPError>(bytes@) == encoded_text(text)
}

/// One step of a connection: where it stood, what was reported, where it
/// stands now and what it asks for.
///
/// A report of another kind than the one that was asked for counts as a
/// failure of what was asked for.
pub open spec fn stepped(before: SessionView, event: Event, after: SessionView, command: Command) -> bool {
    match before.stage {
        Stage::Prompting => {
            &&& after.client == before.client
            &&& if event == Event::Written(true) {
                after.stage == Stage::AwaitingName && command == Command::Read
            } else {
                after.stage == Stage::Done(ConnectionEnd::Normal) && command == Command::Finish(
                    ConnectionEnd::Normal,
                )
            }
        },
        Stage::AwaitingName => match event {
            Event::FrameRead(answer) => match logged_in(before.client, answer) {
                Ok(client) => {
                    &&& after.client == client
                    &&& after.stage == Stage::Registering
                    &&& command matches Command::Send(Message::NewClient(newcomer))
                    &&& newcomer@ == client
                },
                Err(error) => {
                    &&& after.client == before.client
                    &&& match notice_of(error) {
                        Some(text) => after.stage == Stage::Refusing && writes(command, text),
                        None => after.stage == Stage::Done(ConnectionEnd::Normal) && command
                            == Command::Finish(ConnectionEnd::Normal),
                    }
                },
            },
            _ => {
                &&& after.client == before.client
                &&& after.stage == Stage::Done(ConnectionEnd::Normal)
                &&& command == Command::Finish(ConnectionEnd::Normal)
            },
        },
        Stage::Refusing => {
            &&& after.client == before.client
            &&& after.stage == Stage::Done(ConnectionEnd::Normal)
            &&& command == Command::Finish(ConnectionEnd::Normal)
        },
        Stage::Registering => {
            &&& after.client == before.client
            &&& if event == Event::Sent(true) {
                after.stage == Stage::Reading && command == Command::Read
            } else {
                after.stage == Stage::Done(ConnectionEnd::ReceiverDropped) && command
                    == Command::Finish(ConnectionEnd::ReceiverDropped)
            }
        },
        Stage::Reading => {
            &&& after.client == before.client
            &&& if event matches Event::FrameRead(Ok(frame)) && frame_text(frame@) is Some {
                &&& after.stage == Stage::Forwarding
                &&& command matches Command::Send(Message::Broadcast(text))
                &&& Some(text@) == frame_text(event->FrameRead_0->Ok_0@)
            } else {
                &&& after.stage == Stage::Leaving(ConnectionEnd::Normal)
                &&& command matches Command::Send(Message::Drop(name))
                &&& name@ == before.client.username
            }
        },
        Stage::Forwarding => {
            &&& after.client == before.client
            &&& if event == Event::Sent(true) {
                after.stage == Stage::Reading && command == Command::Read
            } else {
                &&& after.stage == Stage::Leaving(ConnectionEnd::ReceiverDropped)
                &&& command matches Command::Send(Message::Drop(name))
                &&& name@ == before.client.username
            }
        },
        Stage::Leaving(end) => {
            &&& after.client == before.client
            &&& after.stage == Stage::Done(end)
            &&& command == Command::Finish(end)
        },
        Stage::Done(end) => {
            &&& after.client == before.client
            &&& after.stage == Stage::Done(end)
            &&& command == Command::Finish(end)
        },
    }
}

/// Whether a command tells the relay that a connection has ended.
pub open spec fn is_drop(command: Command) -> bool {
    command matches Command::Send(Message::Drop(_))
}

/// Whether the relay has been told of the client, and not yet of its end.
pub open spec fn is_registered(stage: Stage) -> bool {
    stage == Stage::Reading || stage == Stage::Forwarding
}

/// Every client that the relay was told of is matched by one notice of its
/// end, and nobody else is.
///
/// The notice is sent on the step that leaves the read loop, and on no
/// other; it names the client of this session; a session that is in the
/// read loop cannot end without that step; and after it nothing but the end
/// follows.
pub proof fn lemma_one_drop(before: SessionView, event: Event, after: SessionView, command: Command)
    requires
        stepped(before, event, after, command),
    ensures
        is_drop(command) <==> after.stage is Leaving,
        is_drop(command) <==> is_registered(before.stage) && !is_registered(after.stage),
        command matches Command::Send(Message::Drop(name)) ==> name@ == before.client.username,
        is_registered(before.stage) ==> !(after.stage is Done),
        before.stage is Leaving ==> after.stage is Done,
        before.stage is Done ==> after == before,
        !(before.stage is AwaitingName) ==> after.client == before.client,
{
}

impl Session {
    /// Opens the session of a client that has just connected: the first
    /// thing to do is to write the prompt for its name.
    pub fn start(client: Client) -> (opened: (Self, Command))
        ensures
            opened.0@ == (SessionView { stage: Stage::Prompting, client: client@ }),
            writes(opened.1, "Type your username: "@),
    {
        proof {
            lemma_notices_fit(ClientError::Validation(Invalid::Username));
        }
        (Session { stage: Stage::Prompting, client }, Command::Write(framed_text("Type your username: ")))
    }

    /// Where the session stands.
    pub fn stage(&self) -> (stage: Stage)
        ensures
            stage == self@.stage,
    {
        self.stage
    }

    /// The client of this session, under the name it has so far.
    pub fn client(&self) -> (client: &Client)
        ensures
            client@ == self@.client,
    {
        &self.client
    }

    fn finish(&mut self, end: ConnectionEnd) -> (command: Command)
        ensures
            final(self)@ == (SessionView { stage: Stage::Done(end), client: old(self)@.client }),
            command == Command::Finish(end),
    {
        self.stage = Stage::Done(end);
        Command::Finish(end)
    }

    fn leave(&mut self, end: ConnectionEnd) -> (command: Command)
        ensures
            final(self)@ == (SessionView { stage: Stage::Leaving(end), client: old(self)@.client }),
            command matches Command::Send(Message::Drop(name)) && name@ == old(self)@.client.username,
    {
        self.stage = Stage::Leaving(end);
        Command::Send(Message::Drop(self.client.identity().clone()))
    }

    fn read_next(&mut self) -> (command: Command)
        ensures
            final(self)@ == (SessionView { stage: Stage::Reading, client: old(self)@.client }),
            command == Command::Read,
    {
        self.stage = Stage::Reading;
        Command::Read
    }

    /// Takes the report of what the last command came to, and says what to
    /// do next.
    pub fn step(&mut self, event: Event) -> (command: Command)
        ensures
            stepped(old(self)@, event, final(self)@, command),
    {
        match self.stage {
            Stage::Prompting => match event {
                Event::Written(true) => {
                    self.stage = Stage::AwaitingName;
                    Command::Read
                },
                _ => self.finish(ConnectionEnd::Normal),
            },
            Stage::AwaitingName => match event {
                Event::FrameRead(answer) => match login(self.client.clone(), answer) {
                    Ok(client) => {
                        self.client = client.clone();
                        self.stage = Stage::Registering;
                        Command::Send(Message::NewClient(client))
                    },
                    Err(error) => match error.notice() {
                        Some(text) => {
                            proof {
                                lemma_notices_fit(error);
                            }
                            self.stage = Stage::Refusing;
                            Command::Write(framed_text(text))
                        },
                        None => self.finish(ConnectionEnd::Normal),
                    },
                },
                _ => self.finish(ConnectionEnd::Normal),
            },
            Stage::Refusing => self.finish(ConnectionEnd::Normal),
            Stage::Registering => match event {
                Event::Sent(true) => self.read_next(),
                _ => self.finish(ConnectionEnd::ReceiverDropped),
            },
            Stage::Reading => match event {
                Event::FrameRead(Ok(frame)) => match text_of_frame(frame) {
                    Some(text) => {
                        self.stage = Stage::Forwarding;
                        Command::Send(Message::Broadcast(text))
                    },
                    None => self.leave(ConnectionEnd::Normal),
                },
                _ => self.leave(ConnectionEnd::Normal),
            },
            Stage::Forwarding => match event {
                Event::Sent(true) => self.read_next(),
                _ => self.leave(ConnectionEnd::ReceiverDropped),
            },
            Stage::Leaving(end) => self.finish(end),
            Stage::Done(end) => self.finish(end),
        }
    }
}

} // verus!
