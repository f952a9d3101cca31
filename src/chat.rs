//! The request sent to a chat-completion endpoint, and its JSON body.
use vstd::prelude::*;

verus! {

/// What `serde_json::to_string` writes for a string: the JSON string token,
/// quoted and escaped.
pub uninterp spec fn json_string_of(s: Seq<char>) -> Seq<char>;

/// Relies on serde_json::to_string for the quoting and escaping of a string.
/// Serialising a `str` cannot fail, so the error arm is never taken.
#[verifier::external_body]
fn json_string(s: &str) -> (r: String)
    ensures
        r@ == json_string_of(s@),
{
    serde_json::to_string(s).unwrap_or_default()
}

/// One turn of a conversation: who speaks, and what is said.
pub struct ChatMessage {
    role: String,
    content: String,
}

/// A conversation, in turn order, addressed to one model.
pub struct ChatRequest {
    model: String,
    messages: Vec<ChatMessage>,
}

/// A turn as values: its role, then its content.
pub type MessageView = (Seq<char>, Seq<char>);

/// A request as values: its model, then its turns in order.
pub type RequestView = (Seq<char>, Seq<MessageView>);

impl View for ChatMessage {
    type V = MessageView;

    closed spec fn view(&self) -> MessageView {
        (self.role@, self.content@)
    }
}

impl View for ChatRequest {
    type V = RequestView;

    closed spec fn view(&self) -> RequestView {
        (self.model@, self.messages@.map_values(|m: ChatMessage| m@))
    }
}

/// The JSON object of one turn, `role` written before `content`.
pub open spec fn message_json(m: MessageView) -> Seq<char> {
    "{\"role\":"@ + json_string_of(m.0) + ",\"content\":"@ + json_string_of(m.1) + "}"@
}

/// The turns' objects, in order, separated by commas.
pub open spec fn messages_json(ms: Seq<MessageView>) -> Seq<char>
    decreases ms.len(),
{
    if ms.len() == 0 {
        Seq::empty()
    } else if ms.len() == 1 {
        message_json(ms[0])
    } else {
        messages_json(ms.drop_last()) + ","@ + message_json(ms.last())
    }
}

/// The body of a request: an object with `model` written before `messages`.
pub open spec fn request_json(r: RequestView) -> Seq<char> {
    "{\"model\":"@ + json_string_of(r.0) + ",\"messages\":["@ + messages_json(r.1) + "]}"@
}

impl ChatMessage {
    pub fn new(role: &str, content: &str) -> (r: ChatMessage)
        ensures
            r@ == (role@, content@),
    {
        ChatMessage { role: String::from_str(role), content: String::from_str(content) }
    }

    pub fn role(&self) -> (r: &str)
        ensures
            r@ == self@.0,
    {
        self.role.as_str()
    }

    pub fn content(&self) -> (r: &str)
        ensures
            r@ == self@.1,
    {
        self.content.as_str()
    }

    /// The JSON object of this turn.
    pub fn to_json(&self) -> (r: String)
        ensures
            r@ == message_json(self@),
    {
        let mut out = String::from_str("{\"role\":");
        let role = json_string(self.role.as_str());
        out.append(role.as_str());
        out.append(",\"content\":");
        let content = json_string(self.content.as_str());
        out.append(content.as_str());
        out.append("}");
        out
    }
}

impl ChatRequest {
    /// A request for `model` holding `messages`, their order kept.
    pub fn new(model: &str, messages: Vec<ChatMessage>) -> (r: ChatRequest)
        ensures
            r@ == (model@, messages@.map_values(|m: ChatMessage| m@)),
    {
        ChatRequest { model: String::from_str(model), messages }
    }

    pub fn model(&self) -> (r: &str)
        ensures
            r@ == self@.0,
    {
        self.model.as_str()
    }

    pub fn messages(&self) -> (r: &[ChatMessage])
        ensures
            r@.map_values(|m: ChatMessage| m@) == self@.1,
    {
        self.messages.as_slice()
    }

    /// The JSON body of this request: `model` first, then the turns in
    /// their order, each with `role` before `content`.
    pub fn to_json(&self) -> (r: String)
        ensures
            r@ == request_json(self@),
    {
        let mut out = String::from_str("{\"model\":");
        let model = json_string(self.model.as_str());
        out.append(model.as_str());
        out.append(",\"messages\":[");
        let ghost ms = self@.1;
        let mut list = String::new();
        let n = self.messages.len();
        let mut i: usize = 0;
        while i < n
            invariant
                n == self.messages@.len(),
                ms == self@.1,
                i <= n,
                list@ == messages_json(ms.take(i as int)),
            decreases n - i,
        {
            let part = self.messages[i].to_json();
            proof {
                assert(ms.take(i as int + 1).drop_last() == ms.take(i as int));
                assert(ms.take(i as int + 1).last() == self.messages@[i as int]@);
            }
            if i > 0 {
                list.append(",");
            }
            list.append(part.as_str());
            i = i + 1;
        }
        proof {
            assert(ms.take(n as int) == ms);
        }
        out.append(list.as_str());
        out.append("]}");
        out
    }
}

} // verus!
