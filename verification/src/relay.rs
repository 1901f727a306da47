//! The relay engine: which posts the bot answers, and the steps by which one
//! frame of the event stream is worked off against the session store.
//!
//! The engine does no I/O. It hands out a `Step` that says what to do next
//! (post a reply, ask the backend) and is resumed with what that gave.

use crate::conversation::{
    assemble_request, outbound_request, turns, ConversationTurn, Role, Turn, CONTEXT_TURNS,
    RETAINED_TURNS,
};
use crate::frame::{decode, decoded, DecodeError, InboundEvent, InboundEventView, Posted, PostedView};
use crate::most::{Most, MostView};
use crate::session::{appended, cleared, ensured, history_of, truncated, SessionStore};
use crate::text::{contains, has_substring, same_text};
use vstd::prelude::*;
use vstd::string::StringExecFns;

verus! {

/// What the relay does with a posted message.
#[derive(Clone, Copy, Debug, PartialEq, Eq, Structural)]
pub enum Verdict {
    /// The bot wrote it, or it is not addressed to the bot.
    Ignored,
    /// It asks to forget the conversation.
    ClearContext,
    /// It is a message for the backend.
    Converse,
}

/// How the work on a frame ended.
#[derive(Clone, Copy, Debug, PartialEq, Eq, Structural)]
pub enum Outcome {
    /// The platform acknowledged the handshake.
    Connected,
    /// The frame called for nothing.
    Ignored,
    /// The user's history was emptied and the user told so.
    Cleared,
    /// The backend's text was stored and posted.
    Answered,
    /// The backend signalled an overflow; the history was cut down and the
    /// user told so.
    Truncated,
    /// The backend call failed and the user was told why.
    BackendFailed,
}

/// The token by which a message mentions the bot.
pub open spec fn mention_token(bot_name: Seq<char>) -> Seq<char> {
    "@"@ + bot_name
}

/// The phrase that asks the bot to forget the conversation.
pub open spec fn control_phrase() -> Seq<char> {
    "clear ctx"@
}

/// What the bot answers to the control phrase.
pub open spec fn cleared_notice() -> Seq<char> {
    "已清空上下文信息"@
}

/// What the bot answers at once to a message for the backend.
pub open spec fn processing_notice() -> Seq<char> {
    "正在处理中..."@
}

/// What the bot answers when the backend signals an overflow.
pub open spec fn truncation_notice() -> Seq<char> {
    "上下文过长，已截断两次对话前的上下文，请重新提问，你也可以发送 'clear ctx' 来清空上下文"@
}

/// Whether a post is addressed to the bot: its text mentions the bot, or the
/// name of its channel holds the bot's user identifier, as the names of
/// direct-message channels do.
pub open spec fn addressed(bot: MostView, post: PostedView) -> bool {
    has_substring(post.message, mention_token(bot.bot_name)) || has_substring(
        post.channel_name,
        bot.user_id,
    )
}

/// What the relay does with a post.
pub open spec fn verdict_of(bot: MostView, post: PostedView) -> Verdict {
    if post.user_id == bot.user_id {
        Verdict::Ignored
    } else if !addressed(bot, post) {
        Verdict::Ignored
    } else if has_substring(post.message, control_phrase()) {
        Verdict::ClearContext
    } else {
        Verdict::Converse
    }
}

/// A message to post into the thread of the post that it answers.
#[derive(Debug, PartialEq, Eq)]
pub struct Reply {
    pub channel_id: String,
    pub message: String,
    /// The post that the thread hangs under.
    pub root_id: String,
}

pub struct ReplyView {
    pub channel_id: Seq<char>,
    pub message: Seq<char>,
    pub root_id: Seq<char>,
}

impl View for Reply {
    type V = ReplyView;

    open spec fn view(&self) -> ReplyView {
        ReplyView { channel_id: self.channel_id@, message: self.message@, root_id: self.root_id@ }
    }
}

/// The reply with `message` to `post`: into the same channel, under the post.
pub open spec fn reply_to(post: PostedView, message: Seq<char>) -> ReplyView {
    ReplyView { channel_id: post.channel_id, message, root_id: post.post_id }
}

/// What came of the effect that a `Step` asked for.
#[derive(Debug, PartialEq, Eq)]
pub enum Completion {
    /// The reply was posted.
    Posted,
    /// The reply could not be posted, for the reason given.
    PostFailed(String),
    /// The backend call failed, for the reason given.
    BackendFailed(String),
    /// The backend answered with nothing usable: its sign that the context
    /// is too long.
    Overflow,
    /// The backend answered with this text.
    Generated(String),
}

pub enum CompletionView {
    Posted,
    PostFailed(Seq<char>),
    BackendFailed(Seq<char>),
    Overflow,
    Generated(Seq<char>),
}

impl View for Completion {
    type V = CompletionView;

    open spec fn view(&self) -> CompletionView {
        match self {
            Completion::Posted => CompletionView::Posted,
            Completion::PostFailed(reason) => CompletionView::PostFailed(reason@),
            Completion::BackendFailed(reason) => CompletionView::BackendFailed(reason@),
            Completion::Overflow => CompletionView::Overflow,
            Completion::Generated(text) => CompletionView::Generated(text@),
        }
    }
}

/// What a call of the backend gave, as a completion: the reason of a failed
/// call, the overflow signal for an answer without content, the text of any
/// other answer.
pub open spec fn backend_completion(answer: Result<Option<Seq<char>>, Seq<char>>) -> CompletionView {
    match answer {
        Err(reason) => CompletionView::BackendFailed(reason),
        Ok(None) => CompletionView::Overflow,
        Ok(Some(text)) => CompletionView::Generated(text),
    }
}

impl Completion {
    /// The completion for what a call of the backend gave: `Err` with the
    /// reason where the call failed, `Ok(None)` where the backend answered
    /// without content, `Ok(Some(text))` where it answered with text.
    pub fn from_backend(answer: Result<Option<String>, String>) -> (completion: Completion)
        ensures
            completion@ == backend_completion(
                match answer {
                    Err(reason) => Err(reason@),
                    Ok(None) => Ok(None),
                    Ok(Some(text)) => Ok(Some(text@)),
                },
            ),
    {
        match answer {
            Err(reason) => Completion::BackendFailed(reason),
            Ok(None) => Completion::Overflow,
            Ok(Some(text)) => Completion::Generated(text),
        }
    }
}

/// Why the work on a frame failed.
#[derive(Debug, PartialEq, Eq)]
pub enum RelayError {
    /// The frame did not decode.
    Decode(DecodeError),
    /// A reply could not be posted, for the reason given.
    Post(String),
    /// The engine was resumed with something it was not waiting for.
    Unexpected,
}

pub enum RelayErrorView {
    Decode(DecodeError),
    Post(Seq<char>),
    Unexpected,
}

impl View for RelayError {
    type V = RelayErrorView;

    open spec fn view(&self) -> RelayErrorView {
        match self {
            RelayError::Decode(error) => RelayErrorView::Decode(*error),
            RelayError::Post(reason) => RelayErrorView::Post(reason@),
            RelayError::Unexpected => RelayErrorView::Unexpected,
        }
    }
}

/// What the work on a frame is waiting for.
#[derive(Debug, PartialEq, Eq)]
pub enum Pending {
    /// The posting of the notice that the message is being worked on.
    Acknowledgment(Posted),
    /// The backend's answer to the message.
    Generation(Posted),
    /// The posting of the last reply, after which the work ends as given.
    Reply(Outcome),
}

pub enum PendingView {
    Acknowledgment(PostedView),
    Generation(PostedView),
    Reply(Outcome),
}

impl View for Pending {
    type V = PendingView;

    open spec fn view(&self) -> PendingView {
        match self {
            Pending::Acknowledgment(post) => PendingView::Acknowledgment(post@),
            Pending::Generation(post) => PendingView::Generation(post@),
            Pending::Reply(outcome) => PendingView::Reply(*outcome),
        }
    }
}

/// What to do next for a frame.
#[derive(Debug, PartialEq, Eq)]
pub enum Step {
    /// Post `reply`, then resume with `then` and what the posting gave.
    Post { reply: Reply, then: Pending },
    /// Send `request` to the backend, then resume with `then` and what the
    /// backend gave.
    Generate { request: Vec<ConversationTurn>, then: Pending },
    /// Nothing: the work has ended.
    Done(Result<Outcome, RelayError>),
}

pub enum StepView {
    Post { reply: ReplyView, then: PendingView },
    Generate { request: Seq<Turn>, then: PendingView },
    Done(Result<Outcome, RelayErrorView>),
}

impl View for Step {
    type V = StepView;

    open spec fn view(&self) -> StepView {
        match self {
            Step::Post { reply, then } => StepView::Post { reply: reply@, then: then@ },
            Step::Generate { request, then } => StepView::Generate {
                request: turns(request@),
                then: then@,
            },
            Step::Done(Ok(outcome)) => StepView::Done(Ok(*outcome)),
            Step::Done(Err(error)) => StepView::Done(Err(error@)),
        }
    }
}

/// The session store after a step, and the step.
pub struct Transition {
    pub sessions: Map<Seq<char>, Seq<Turn>>,
    pub step: StepView,
}

/// The end of the work, with the store as it was.
pub open spec fn finished(
    sessions: Map<Seq<char>, Seq<Turn>>,
    result: Result<Outcome, RelayErrorView>,
) -> Transition {
    Transition { sessions, step: StepView::Done(result) }
}

/// The first step for an event.
///
/// A handshake acknowledgment and an event of no interest end the work, and
/// so does a post that the bot wrote or that is not addressed to it. The
/// control phrase empties the author's history and has the bot say so. Any
/// other post is acknowledged at once; the store stays as it is.
pub open spec fn dispatched(
    bot: MostView,
    event: InboundEventView,
    sessions: Map<Seq<char>, Seq<Turn>>,
) -> Transition {
    match event {
        InboundEventView::Hello => finished(sessions, Ok(Outcome::Connected)),
        InboundEventView::Other => finished(sessions, Ok(Outcome::Ignored)),
        InboundEventView::Posted(post) => match verdict_of(bot, post) {
            Verdict::Ignored => finished(sessions, Ok(Outcome::Ignored)),
            Verdict::ClearContext => Transition {
                sessions: cleared(sessions, post.user_id),
                step: StepView::Post {
                    reply: reply_to(post, cleared_notice()),
                    then: PendingView::Reply(Outcome::Cleared),
                },
            },
            Verdict::Converse => Transition {
                sessions,
                step: StepView::Post {
                    reply: reply_to(post, processing_notice()),
                    then: PendingView::Acknowledgment(post),
                },
            },
        },
    }
}

/// The first step for a frame: that for the event it decodes to, or the end
/// of the work where it does not decode.
pub open spec fn started(bot: MostView, text: Seq<char>, sessions: Map<Seq<char>, Seq<Turn>>) -> Transition {
    match decoded(text) {
        Ok(event) => dispatched(bot, event, sessions),
        Err(error) => finished(sessions, Err(RelayErrorView::Decode(error))),
    }
}

/// The two turns that an answered message adds to the history.
pub open spec fn exchange(message: Seq<char>, answer: Seq<char>) -> Seq<Turn> {
    seq![
        Turn { role: Role::User, content: message },
        Turn { role: Role::Assistant, content: answer },
    ]
}

/// The step after an effect has completed.
///
/// Once the acknowledgment is posted, the author gets an entry if there is
/// none and the request goes to the backend. A backend failure is posted as
/// the reply and leaves the store alone; an overflow cuts the author's
/// history down to its `RETAINED_TURNS` most recent turns and posts the
/// notice; an answer is appended to the history after the message and
/// posted. A reply that cannot be posted ends the work with that error, and
/// so does a completion that was not waited for.
pub open spec fn resumed(
    bot: MostView,
    pending: PendingView,
    completion: CompletionView,
    sessions: Map<Seq<char>, Seq<Turn>>,
) -> Transition {
    match (pending, completion) {
        (PendingView::Acknowledgment(post), CompletionView::Posted) => {
            let sessions = ensured(sessions, post.user_id);
            Transition {
                sessions,
                step: StepView::Generate {
                    request: outbound_request(
                        bot.bot_name,
                        history_of(sessions, post.user_id),
                        post.message,
                    ),
                    then: PendingView::Generation(post),
                },
            }
        },
        (PendingView::Generation(post), CompletionView::BackendFailed(reason)) => Transition {
            sessions,
            step: StepView::Post {
                reply: reply_to(post, reason),
                then: PendingView::Reply(Outcome::BackendFailed),
            },
        },
        (PendingView::Generation(post), CompletionView::Overflow) => Transition {
            sessions: truncated(sessions, post.user_id, RETAINED_TURNS as nat),
            step: StepView::Post {
                reply: reply_to(post, truncation_notice()),
                then: PendingView::Reply(Outcome::Truncated),
            },
        },
        (PendingView::Generation(post), CompletionView::Generated(answer)) => Transition {
            sessions: appended(sessions, post.user_id, exchange(post.message, answer)),
            step: StepView::Post {
                reply: reply_to(post, answer),
                then: PendingView::Reply(Outcome::Answered),
            },
        },
        (PendingView::Reply(outcome), CompletionView::Posted) => finished(sessions, Ok(outcome)),
        (PendingView::Acknowledgment(_), CompletionView::PostFailed(reason)) => finished(
            sessions,
            Err(RelayErrorView::Post(reason)),
        ),
        (PendingView::Reply(_), CompletionView::PostFailed(reason)) => finished(
            sessions,
            Err(RelayErrorView::Post(reason)),
        ),
        _ => finished(sessions, Err(RelayErrorView::Unexpected)),
    }
}

/// The relay engine: the bot's account and the key of the backend.
#[derive(Debug, PartialEq, Eq)]
pub struct MostGPT {
    most: Most,
    gpt_api_key: String,
}

pub struct MostGPTView {
    pub most: MostView,
    pub gpt_api_key: Seq<char>,
}

impl View for MostGPT {
    type V = MostGPTView;

    closed spec fn view(&self) -> MostGPTView {
        MostGPTView { most: self.most@, gpt_api_key: self.gpt_api_key@ }
    }
}

/// The reply with `message` to `post`.
fn reply(post: &Posted, message: String) -> (reply: Reply)
    ensures
        reply@ == reply_to(post@, message@),
{
    Reply { channel_id: post.channel_id.clone(), message, root_id: post.post_id.clone() }
}

impl MostGPT {
    pub fn new(most: Most, gpt_api_key: &str) -> (engine: Self)
        ensures
            engine@ == (MostGPTView { most: most@, gpt_api_key: gpt_api_key@ }),
    {
        MostGPT { most, gpt_api_key: gpt_api_key.to_owned() }
    }

    pub fn most(&self) -> (most: &Most)
        ensures
            most@ == self@.most,
    {
        &self.most
    }

    pub fn gpt_api_key(&self) -> (key: &str)
        ensures
            key@ == self@.gpt_api_key,
    {
        self.gpt_api_key.as_str()
    }

    /// What the relay does with `post`.
    pub fn verdict(&self, post: &Posted) -> (verdict: Verdict)
        ensures
            verdict == verdict_of(self@.most, post@),
    {
        if same_text(post.user_id.as_str(), self.most.user_id()) {
            return Verdict::Ignored;
        }
        let token = String::from_str("@").concat(self.most.bot_name());
        let mentioned = contains(post.message.as_str(), token.as_str());
        if !mentioned && !contains(post.channel_name.as_str(), self.most.user_id()) {
            return Verdict::Ignored;
        }
        if contains(post.message.as_str(), "clear ctx") {
            Verdict::ClearContext
        } else {
            Verdict::Converse
        }
    }

    /// Takes the first step for a decoded event.
    pub fn dispatch(&self, event: InboundEvent, session: &mut SessionStore) -> (step: Step)
        ensures
            (Transition { sessions: final(session)@, step: step@ }) == dispatched(
                self@.most,
                event@,
                old(session)@,
            ),
    {
        match event {
            InboundEvent::Hello => Step::Done(Ok(Outcome::Connected)),
            InboundEvent::Other => Step::Done(Ok(Outcome::Ignored)),
            InboundEvent::Posted(post) => match self.verdict(&post) {
                Verdict::Ignored => Step::Done(Ok(Outcome::Ignored)),
                Verdict::ClearContext => {
                    session.clear(post.user_id.as_str());
                    Step::Post {
                        reply: reply(&post, "已清空上下文信息".to_owned()),
                        then: Pending::Reply(Outcome::Cleared),
                    }
                },
                Verdict::Converse => Step::Post {
                    reply: reply(&post, "正在处理中...".to_owned()),
                    then: Pending::Acknowledgment(post),
                },
            },
        }
    }

    /// Takes the first step for one frame of the event stream: decodes it
    /// and dispatches the event. A frame that does not decode ends the work
    /// with the decoding error and leaves the store as it is.
    pub fn process_text(&self, text: &str, session: &mut SessionStore) -> (step: Step)
        ensures
            (Transition { sessions: final(session)@, step: step@ }) == started(
                self@.most,
                text@,
                old(session)@,
            ),
    {
        match decode(text) {
            Ok(event) => self.dispatch(event, session),
            Err(error) => Step::Done(Err(RelayError::Decode(error))),
        }
    }

    /// Takes the step after the effect that the last step asked for has
    /// completed.
    pub fn resume(&self, pending: Pending, completion: Completion, session: &mut SessionStore) -> (step:
        Step)
        ensures
            (Transition { sessions: final(session)@, step: step@ }) == resumed(
                self@.most,
                pending@,
                completion@,
                old(session)@,
            ),
    {
        match (pending, completion) {
            (Pending::Acknowledgment(post), Completion::Posted) => {
                session.ensure(post.user_id.as_str());
                let context = session.snapshot(post.user_id.as_str(), CONTEXT_TURNS);
                let request = assemble_request(
                    self.most.bot_name(),
                    context,
                    post.message.as_str(),
                );
                Step::Generate { request, then: Pending::Generation(post) }
            },
            (Pending::Generation(post), Completion::BackendFailed(reason)) => Step::Post {
                reply: reply(&post, reason),
                then: Pending::Reply(Outcome::BackendFailed),
            },
            (Pending::Generation(post), Completion::Overflow) => {
                session.truncate(post.user_id.as_str(), RETAINED_TURNS);
                Step::Post {
                    reply: reply(
                        &post,
                        "上下文过长，已截断两次对话前的上下文，请重新提问，你也可以发送 'clear ctx' 来清空上下文".to_owned(),
                    ),
                    then: Pending::Reply(Outcome::Truncated),
                }
            },
            (Pending::Generation(post), Completion::Generated(answer)) => {
                let mut turns_added: Vec<ConversationTurn> = Vec::new();
                turns_added.push(ConversationTurn::user(post.message.as_str()));
                turns_added.push(ConversationTurn::assistant(answer.as_str()));
                assert(turns(turns_added@) =~= exchange(post@.message, answer@));
                session.append(post.user_id.as_str(), turns_added);
                Step::Post { reply: reply(&post, answer), then: Pending::Reply(Outcome::Answered) }
            },
            (Pending::Reply(outcome), Completion::Posted) => Step::Done(Ok(outcome)),
            (Pending::Acknowledgment(_), Completion::PostFailed(reason)) => Step::Done(
                Err(RelayError::Post(reason)),
            ),
            (Pending::Reply(_), Completion::PostFailed(reason)) => Step::Done(
                Err(RelayError::Post(reason)),
            ),
            _ => Step::Done(Err(RelayError::Unexpected)),
        }
    }
}

} // verus!
