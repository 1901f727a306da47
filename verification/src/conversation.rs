//! Conversation turns, histories and the request sent to the completion
//! backend.

use vstd::prelude::*;
use vstd::string::StringExecFns;

verus! {

/// How many of the most recent turns of a history go into a request.
pub const CONTEXT_TURNS: usize = 10;

/// How many of the most recent turns survive a truncation.
pub const RETAINED_TURNS: usize = 4;

/// Who speaks in a turn.
#[derive(Clone, Copy, Debug, PartialEq, Eq, Structural)]
pub enum Role {
    System,
    User,
    Assistant,
}

impl Role {
    /// The tag under which the backend knows this role.
    pub open spec fn tag(self) -> Seq<char> {
        match self {
            Role::System => "system"@,
            Role::User => "user"@,
            Role::Assistant => "assistant"@,
        }
    }

    /// The tag under which the backend knows this role.
    pub fn as_str(&self) -> (tag: &'static str)
        ensures
            tag@ == self.tag(),
    {
        match self {
            Role::System => "system",
            Role::User => "user",
            Role::Assistant => "assistant",
        }
    }
}

/// What a turn says: the model of a `ConversationTurn`.
pub struct Turn {
    pub role: Role,
    pub content: Seq<char>,
}

/// One role-tagged message of a conversation. Its role and content are fixed
/// when it is made.
#[derive(Debug, PartialEq, Eq)]
pub struct ConversationTurn {
    role: Role,
    content: String,
}

impl View for ConversationTurn {
    type V = Turn;

    closed spec fn view(&self) -> Turn {
        Turn { role: self.role, content: self.content@ }
    }
}

impl Clone for ConversationTurn {
    fn clone(&self) -> (copy: Self)
        ensures
            copy@ == self@,
    {
        ConversationTurn { role: self.role, content: self.content.clone() }
    }
}

impl ConversationTurn {
    pub fn new(role: Role, content: String) -> (turn: Self)
        ensures
            turn@ == (Turn { role, content: content@ }),
    {
        ConversationTurn { role, content }
    }

    /// A turn spoken by the user.
    pub fn user(content: &str) -> (turn: Self)
        ensures
            turn@ == (Turn { role: Role::User, content: content@ }),
    {
        ConversationTurn { role: Role::User, content: content.to_owned() }
    }

    /// A turn spoken by the assistant.
    pub fn assistant(content: &str) -> (turn: Self)
        ensures
            turn@ == (Turn { role: Role::Assistant, content: content@ }),
    {
        ConversationTurn { role: Role::Assistant, content: content.to_owned() }
    }

    pub fn role(&self) -> (role: Role)
        ensures
            role == self@.role,
    {
        self.role
    }

    pub fn content(&self) -> (content: &str)
        ensures
            content@ == self@.content,
    {
        self.content.as_str()
    }
}

/// The turns that a sequence of `ConversationTurn` values stands for.
pub open spec fn turns(history: Seq<ConversationTurn>) -> Seq<Turn> {
    history.map_values(|turn: ConversationTurn| turn@)
}

/// The `keep` most recent items of `history`, oldest first; all of it where
/// it holds no more than `keep`.
pub open spec fn recent<T>(history: Seq<T>, keep: nat) -> Seq<T> {
    if history.len() <= keep {
        history
    } else {
        history.subrange(history.len() - keep, history.len() as int)
    }
}

/// What `recent` keeps: as many items as `history` has, up to `keep`, and
/// item for item the tail of `history` in its order.
pub proof fn lemma_recent_is_tail<T>(history: Seq<T>, keep: nat)
    ensures
        recent(history, keep).len() == if history.len() <= keep {
            history.len()
        } else {
            keep
        },
        recent(history, keep).len() <= keep,
        forall|i: int|
            0 <= i < recent(history, keep).len() ==> #[trigger] recent(history, keep)[i]
                == history[history.len() - recent(history, keep).len() + i],
{
}

/// A copy of the `keep` most recent turns of `history`, oldest first.
pub fn recent_turns(history: &Vec<ConversationTurn>, keep: usize) -> (tail: Vec<ConversationTurn>)
    ensures
        turns(tail@) == recent(turns(history@), keep as nat),
{
    let start: usize = if history.len() <= keep {
        0
    } else {
        history.len() - keep
    };
    let mut tail: Vec<ConversationTurn> = Vec::new();
    let mut at: usize = start;
    while at < history.len()
        invariant
            start <= at <= history.len(),
            tail.len() == at - start,
            forall|i: int| 0 <= i < tail.len() ==> tail@[i]@ == history@[start + i]@,
        decreases history.len() - at,
    {
        tail.push(history[at].clone());
        at += 1;
    }
    assert(turns(tail@) =~= recent(turns(history@), keep as nat));
    tail
}

/// The instruction that opens every request, naming the bot.
pub open spec fn system_instruction(bot_name: Seq<char>) -> Seq<char> {
    "您是一个名为"@ + bot_name + "的有用助手，以Markdown格式提供简洁的答案"@
}

/// The request for one message: the system instruction, then the most recent
/// `CONTEXT_TURNS` turns of the history, then the message as the user's turn.
pub open spec fn outbound_request(bot_name: Seq<char>, history: Seq<Turn>, message: Seq<char>) -> Seq<
    Turn,
> {
    seq![Turn { role: Role::System, content: system_instruction(bot_name) }] + recent(
        history,
        CONTEXT_TURNS as nat,
    ) + seq![Turn { role: Role::User, content: message }]
}

/// The shape of a request: the system instruction first, the new user turn
/// last, and between them the `min(|history|, CONTEXT_TURNS)` most recent
/// turns of the history in their order.
pub proof fn lemma_request_shape(bot_name: Seq<char>, history: Seq<Turn>, message: Seq<char>)
    ensures
        ({
            let request = outbound_request(bot_name, history, message);
            let prior = if history.len() <= CONTEXT_TURNS {
                history.len()
            } else {
                CONTEXT_TURNS as nat
            };
            &&& request.len() == prior + 2
            &&& request[0] == (Turn { role: Role::System, content: system_instruction(bot_name) })
            &&& request[request.len() - 1] == (Turn { role: Role::User, content: message })
            &&& forall|i: int|
                0 <= i < prior ==> #[trigger] request[1 + i] == history[history.len() - prior + i]
        }),
{
}

/// Builds the request for `message` from a snapshot of the user's recent
/// turns.
pub fn assemble_request(bot_name: &str, context: Vec<ConversationTurn>, message: &str) -> (request:
    Vec<ConversationTurn>)
    ensures
        turns(request@) == seq![Turn { role: Role::System, content: system_instruction(bot_name@) }]
            + turns(context@) + seq![Turn { role: Role::User, content: message@ }],
{
    let instruction = String::from_str("您是一个名为").concat(bot_name).concat(
        "的有用助手，以Markdown格式提供简洁的答案",
    );
    let mut request: Vec<ConversationTurn> = Vec::new();
    request.push(ConversationTurn::new(Role::System, instruction));
    let ghost given = context@;
    let mut rest = context;
    request.append(&mut rest);
    request.push(ConversationTurn::user(message));
    assert(turns(request@) =~= seq![
        Turn { role: Role::System, content: system_instruction(bot_name@) },
    ] + turns(given) + seq![Turn { role: Role::User, content: message@ }]);
    request
}

} // verus!
