//! The request that is posted to the chat-completion endpoint: a model and the
//! turns of the conversation so far.

use vstd::prelude::*;
use vstd::string::*;

verus! {

/// Who speaks in a turn of the conversation.
#[derive(Debug, Clone, Copy, PartialEq, Eq)]
pub enum Role {
    User,
    Assistant,
    System,
}

/// The name under which a role goes over the wire.
pub open spec fn role_name(role: Role) -> Seq<char> {
    match role {
        Role::User => "user"@,
        Role::Assistant => "assistant"@,
        Role::System => "system"@,
    }
}

impl Role {
    /// The name under which the role goes over the wire.
    pub fn name(self) -> (r: &'static str)
        ensures
            r@ == role_name(self),
    {
        match self {
            Role::User => "user",
            Role::Assistant => "assistant",
            Role::System => "system",
        }
    }
}

/// One turn of the conversation.
#[derive(Debug, Clone, PartialEq, Eq)]
pub struct GptMessage {
    pub role: String,
    pub content: String,
}

/// The mathematical content of a [`GptMessage`].
pub ghost struct GptMessageView {
    pub role: Seq<char>,
    pub content: Seq<char>,
}

impl View for GptMessage {
    type V = GptMessageView;

    open spec fn view(&self) -> GptMessageView {
        GptMessageView { role: self.role@, content: self.content@ }
    }
}

/// The body of a chat-completion request.
#[derive(Debug, Clone, PartialEq, Eq)]
pub struct GptRequest {
    pub model: String,
    pub messages: Vec<GptMessage>,
}

/// The mathematical content of a [`GptRequest`].
pub ghost struct GptRequestView {
    pub model: Seq<char>,
    pub messages: Seq<GptMessageView>,
}

impl View for GptRequest {
    type V = GptRequestView;

    open spec fn view(&self) -> GptRequestView {
        GptRequestView {
            model: self.model@,
            messages: self.messages@.map_values(|m: GptMessage| m@),
        }
    }
}

/// The model that a prompt is put to.
pub open spec fn default_model() -> Seq<char> {
    "gpt-3.5-turbo"@
}

impl GptMessage {
    /// A turn in which `role` says `content`.
    pub fn new(role: Role, content: String) -> (r: GptMessage)
        ensures
            r@ == (GptMessageView { role: role_name(role), content: content@ }),
    {
        GptMessage { role: String::from_str(role.name()), content }
    }

    /// The role is one that the endpoint knows.
    pub open spec fn has_known_role(&self) -> bool {
        exists|role: Role| self.role@ == #[trigger] role_name(role)
    }
}

impl GptRequest {
    /// The request that puts one prompt of the user to the default model: a
    /// conversation of a single turn, in which the user says `prompt`.
    pub fn prompt(prompt: String) -> (r: GptRequest)
        ensures
            r@ == (GptRequestView {
                model: default_model(),
                messages: seq![GptMessageView { role: role_name(Role::User), content: prompt@ }],
            }),
            r.messages@.len() == 1,
            r.messages@[0].has_known_role(),
    {
        let mut messages: Vec<GptMessage> = Vec::new();
        messages.push(GptMessage::new(Role::User, prompt));
        let r = GptRequest { model: String::from_str("gpt-3.5-turbo"), messages };
        proof {
            assert(r@.messages =~= seq![
                GptMessageView { role: role_name(Role::User), content: prompt@ },
            ]);
        }
        r
    }
}

} // verus!
