//! Conversation messages and the transcript they form.

use vstd::prelude::*;
use crate::text::{concat2, owned, str_eq};

verus! {

#[derive(Clone, Copy, Debug, PartialEq, Eq, Structural)]
pub enum Role {
    System,
    User,
    Assistant,
}

#[derive(Clone, Debug)]
pub struct Message {
    pub role: Role,
    pub content: String,
}

pub type MessageView = (Role, Seq<char>);

impl Message {
    pub open spec fn view(self) -> MessageView {
        (self.role, self.content@)
    }

    pub fn new(role: Role, content: String) -> (r: Message)
        ensures
            r.view() == (role, content@),
    {
        Message { role, content }
    }

    /// A copy with the same role and text.
    pub fn duplicate(&self) -> (r: Message)
        ensures
            r.view() == self.view(),
    {
        Message { role: self.role, content: owned(self.content.as_str()) }
    }
}

pub open spec fn transcript_view(ms: Seq<Message>) -> Seq<MessageView> {
    ms.map_values(|m: Message| m.view())
}

pub proof fn lemma_transcript_push(ms: Seq<Message>, m: Message)
    ensures
        transcript_view(ms.push(m)) == transcript_view(ms).push(m.view()),
{
    assert(transcript_view(ms.push(m)) =~= transcript_view(ms).push(m.view()));
}

/// The message that carries the project's instructions file ahead of the
/// first request.
pub open spec fn preamble_text(content: Seq<char>) -> Seq<char> {
    "[read_file path: 'AGENTS.md']\n"@ + content
}

pub fn preamble_message(content: &str) -> (r: String)
    ensures
        r@ == preamble_text(content@),
{
    concat2("[read_file path: 'AGENTS.md']\n", content)
}

/// The transcript a run starts from: the stored one when continuing, else
/// the preamble, if any; then the user's request.
pub open spec fn opening_transcript(
    stored: Seq<MessageView>,
    continuing: bool,
    preamble: Option<Seq<char>>,
    request: Seq<char>,
) -> Seq<MessageView> {
    if continuing {
        stored.push((Role::User, request))
    } else {
        match preamble {
            Some(p) => seq![(Role::User, preamble_text(p)), (Role::User, request)],
            None => seq![(Role::User, request)],
        }
    }
}

/// Builds the transcript a run starts from.
pub fn opening(stored: Vec<Message>, continuing: bool, preamble: Option<String>, request: String) -> (r: Vec<Message>)
    ensures
        transcript_view(r@) == opening_transcript(
            transcript_view(stored@),
            continuing,
            match preamble {
                Some(p) => Some(p@),
                None => None,
            },
            request@,
        ),
{
    let mut r: Vec<Message>;
    if continuing {
        r = stored;
    } else {
        r = Vec::new();
        match preamble {
            Some(p) => {
                r.push(Message::new(Role::User, preamble_message(p.as_str())));
            },
            None => {},
        }
    }
    let ghost before = r@;
    r.push(Message::new(Role::User, request));
    proof {
        lemma_transcript_push(before, r@.last());
        assert(r@ == before.push(r@.last()));
    }
    assert(transcript_view(r@) =~= opening_transcript(
        transcript_view(stored@),
        continuing,
        match preamble {
            Some(p) => Some(p@),
            None => None,
        },
        request@,
    ));
    r
}

pub open spec fn role_text(r: Role) -> Seq<char> {
    match r {
        Role::System => "system"@,
        Role::User => "user"@,
        Role::Assistant => "assistant"@,
    }
}

pub open spec fn role_of_text(s: Seq<char>) -> Option<Role> {
    if s == "system"@ {
        Some(Role::System)
    } else if s == "user"@ {
        Some(Role::User)
    } else if s == "assistant"@ {
        Some(Role::Assistant)
    } else {
        None
    }
}

/// The name a role is stored under.
pub fn role_name(r: Role) -> (s: &'static str)
    ensures
        s@ == role_text(r),
{
    match r {
        Role::System => "system",
        Role::User => "user",
        Role::Assistant => "assistant",
    }
}

/// The role stored under a name, if any.
pub fn role_named(s: &str) -> (r: Option<Role>)
    ensures
        r == role_of_text(s@),
{
    if str_eq(s, "system") {
        Some(Role::System)
    } else if str_eq(s, "user") {
        Some(Role::User)
    } else if str_eq(s, "assistant") {
        Some(Role::Assistant)
    } else {
        None
    }
}

/// A stored role reads back as the same role.
pub proof fn lemma_role_round_trip(r: Role)
    ensures
        role_of_text(role_text(r)) == Some(r),
{
    reveal_strlit("system");
    reveal_strlit("user");
    reveal_strlit("assistant");
    assert("system"@.len() == 6 && "user"@.len() == 4 && "assistant"@.len() == 9);
}

} // verus!
