//! What the bot does on each gateway event, as a pure decision: the caller
//! hands in the event as plain values and performs the actions that come back.
use vstd::prelude::*;

verus! {

/// The text sent into every newly created channel.
pub const GREETING: &'static str = "Hello, World!";

/// The character a message must begin with to be taken as a command.
pub const COMMAND_PREFIX: char = '!';

/// A gateway event, reduced to what the decisions read.
pub enum GatewayEvent {
    /// The connection is up; `user_name` is the bot's own display name.
    Ready { user_name: String },
    /// A channel was created; `descriptor` is a printable dump of it.
    ChannelCreated { channel_id: u64, descriptor: String },
    /// A message arrived in a channel.
    MessageCreated { author_is_bot: bool, content: String, channel_id: u64 },
}

/// A side effect for the caller to carry out, in the order given.
pub enum Action {
    /// Print a line on the console.
    Log { line: String },
    /// Send `text` into the channel.
    Send { channel_id: u64, text: String },
    /// Fetch the channel object; a failure ends the handling of the event.
    ResolveChannel { channel_id: u64 },
}

/// Whether `s` begins with the command prefix.
pub open spec fn has_command_prefix(s: Seq<char>) -> bool {
    s.len() > 0 && s[0] == COMMAND_PREFIX
}

/// Whether a message from an author of that kind, with that text, is acted on.
pub open spec fn message_accepted(author_is_bot: bool, content: Seq<char>) -> bool {
    !author_is_bot && has_command_prefix(content)
}

/// The console line announcing a live connection.
pub open spec fn ready_text(user_name: Seq<char>) -> Seq<char> {
    user_name + " is connected!"@
}

/// The console line describing a new channel.
pub open spec fn created_text(descriptor: Seq<char>) -> Seq<char> {
    "Created channel "@ + descriptor
}

/// `a` is a console line with text `t`.
pub open spec fn is_log(a: Action, t: Seq<char>) -> bool {
    a matches Action::Log { line } && line@ == t
}

/// `a` sends text `t` into channel `c`.
pub open spec fn is_send(a: Action, c: u64, t: Seq<char>) -> bool {
    a matches Action::Send { channel_id, text } && channel_id == c && text@ == t
}

/// `a` resolves channel `c`.
pub open spec fn is_resolve(a: Action, c: u64) -> bool {
    a matches Action::ResolveChannel { channel_id } && channel_id == c
}

/// Decides whether a message is acted on: its author is no bot and its text
/// begins with the command prefix.
pub fn accepts_message(author_is_bot: bool, content: &str) -> (r: bool)
    ensures
        r == message_accepted(author_is_bot, content@),
{
    if author_is_bot {
        return false;
    }
    if content.is_empty() {
        return false;
    }
    content.get_char(0) == COMMAND_PREFIX
}

/// The line logged when the connection is ready.
pub fn ready_line(user_name: &str) -> (r: String)
    ensures
        r@ == ready_text(user_name@),
{
    let line = String::from_str(user_name);
    line.concat(" is connected!")
}

/// Reacts to the ready event: one console line that names the bot.
pub fn on_ready(user_name: &str) -> (r: Vec<Action>)
    ensures
        r@.len() == 1,
        is_log(r@[0], ready_text(user_name@)),
{
    let mut r: Vec<Action> = Vec::new();
    r.push(Action::Log { line: ready_line(user_name) });
    r
}

/// Reacts to a new channel: a console line with its dump, then the greeting
/// sent into it.
pub fn on_channel_created(channel_id: u64, descriptor: &str) -> (r: Vec<Action>)
    ensures
        r@.len() == 2,
        is_log(r@[0], created_text(descriptor@)),
        is_send(r@[1], channel_id, GREETING@),
{
    let line = String::from_str("Created channel ").concat(descriptor);
    let mut r: Vec<Action> = Vec::new();
    r.push(Action::Log { line });
    r.push(Action::Send { channel_id, text: String::from_str(GREETING) });
    r
}

/// Reacts to a message. A message from a bot, or one whose text does not
/// begin with the command prefix, gets no action at all; any other message
/// has its channel resolved, and nothing more.
pub fn on_message(author_is_bot: bool, content: &str, channel_id: u64) -> (r: Vec<Action>)
    ensures
        author_is_bot ==> r@.len() == 0,
        !has_command_prefix(content@) ==> r@.len() == 0,
        message_accepted(author_is_bot, content@) ==> r@.len() == 1 && is_resolve(
            r@[0],
            channel_id,
        ),
{
    let mut r: Vec<Action> = Vec::new();
    if accepts_message(author_is_bot, content) {
        r.push(Action::ResolveChannel { channel_id });
    }
    r
}

/// Dispatches an event to its reaction.
pub fn handle_event(event: &GatewayEvent) -> (r: Vec<Action>)
    ensures
        *event matches GatewayEvent::Ready { user_name } ==> r@.len() == 1 && is_log(
            r@[0],
            ready_text(user_name@),
        ),
        *event matches GatewayEvent::ChannelCreated { channel_id, descriptor } ==> r@.len() == 2
            && is_log(r@[0], created_text(descriptor@)) && is_send(r@[1], channel_id, GREETING@),
        *event matches GatewayEvent::MessageCreated { author_is_bot, content, channel_id } ==> {
            &&& (!message_accepted(author_is_bot, content@) ==> r@.len() == 0)
            &&& (message_accepted(author_is_bot, content@) ==> r@.len() == 1 && is_resolve(
                r@[0],
                channel_id,
            ))
        },
{
    match event {
        GatewayEvent::Ready { user_name } => on_ready(user_name.as_str()),
        GatewayEvent::ChannelCreated { channel_id, descriptor } => on_channel_created(
            *channel_id,
            descriptor.as_str(),
        ),
        GatewayEvent::MessageCreated { author_is_bot, content, channel_id } => on_message(
            *author_is_bot,
            content.as_str(),
            *channel_id,
        ),
    }
}

} // verus!
