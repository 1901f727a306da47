//! What holds of the relay for every bot, post and session store.

use crate::conversation::{recent, system_instruction, Role, Turn, CONTEXT_TURNS, RETAINED_TURNS};
use crate::frame::{InboundEventView, PostedView};
use crate::most::MostView;
use crate::relay::{
    addressed, cleared_notice, control_phrase, dispatched, exchange, finished, mention_token,
    resumed, truncation_notice, CompletionView, Outcome, PendingView, StepView,
};
use crate::session::{history_of, truncated};
use crate::text::has_substring;
use vstd::prelude::*;

verus! {

/// The smaller of two lengths.
pub open spec fn at_most(length: nat, limit: nat) -> nat {
    if length <= limit {
        length
    } else {
        limit
    }
}

/// The request that follows the acknowledgment holds the system instruction
/// first, then the `min(|H|, CONTEXT_TURNS)` most recent turns of the
/// author's stored history `H` in their order, then the message as the
/// user's turn. Building it takes nothing from the stored history, however
/// long that is, and leaves every other user's history alone.
pub proof fn law_request_holds_recent_context(
    bot: MostView,
    post: PostedView,
    sessions: Map<Seq<char>, Seq<Turn>>,
)
    ensures
        ({
            let history = history_of(sessions, post.user_id);
            let prior = at_most(history.len(), CONTEXT_TURNS as nat);
            let next = resumed(
                bot,
                PendingView::Acknowledgment(post),
                CompletionView::Posted,
                sessions,
            );
            &&& next.step matches StepView::Generate { request, then }
            &&& then == PendingView::Generation(post)
            &&& request.len() == prior + 2
            &&& request[0] == (Turn { role: Role::System, content: system_instruction(bot.bot_name) })
            &&& request[request.len() - 1] == (Turn { role: Role::User, content: post.message })
            &&& forall|i: int|
                0 <= i < prior ==> #[trigger] request[1 + i] == history[history.len() - prior + i]
            &&& next.sessions.contains_key(post.user_id)
            &&& forall|user: Seq<char>| #[trigger]
                history_of(next.sessions, user) == history_of(sessions, user)
        }),
{
}

/// After a truncation the user's history holds at most `keep` turns: the
/// `min(|H|, keep)` most recent ones of the history `H` from before, in
/// their order. Every other user's history stays as it was.
pub proof fn law_truncation_keeps_most_recent(
    sessions: Map<Seq<char>, Seq<Turn>>,
    user: Seq<char>,
    keep: nat,
)
    ensures
        ({
            let before = history_of(sessions, user);
            let after = history_of(truncated(sessions, user, keep), user);
            &&& after.len() == at_most(before.len(), keep)
            &&& after.len() <= keep
            &&& forall|i: int|
                0 <= i < after.len() ==> #[trigger] after[i] == before[before.len() - after.len()
                    + i]
            &&& forall|other: Seq<char>|
                other != user ==> #[trigger] history_of(truncated(sessions, user, keep), other)
                    == history_of(sessions, other)
        }),
{
}

/// The control phrase, in a post that is addressed to the bot and not its
/// own, leaves the author with an empty history and has the bot post the
/// confirmation. Nothing that follows asks the backend: whatever comes of
/// the posting, the work ends.
pub proof fn law_clear_empties_history(
    bot: MostView,
    post: PostedView,
    sessions: Map<Seq<char>, Seq<Turn>>,
)
    requires
        post.user_id != bot.user_id,
        addressed(bot, post),
        has_substring(post.message, control_phrase()),
    ensures
        ({
            let first = dispatched(bot, InboundEventView::Posted(post), sessions);
            &&& history_of(first.sessions, post.user_id).len() == 0
            &&& first.step matches StepView::Post { reply, then }
            &&& reply.message == cleared_notice()
            &&& reply.channel_id == post.channel_id
            &&& reply.root_id == post.post_id
            &&& then == PendingView::Reply(Outcome::Cleared)
            &&& forall|completion: CompletionView, later: Map<Seq<char>, Seq<Turn>>|
                {
                    let last = #[trigger] resumed(bot, then, completion, later);
                    last.step is Done && last.sessions == later
                }
        }),
{
}

/// A post that the bot wrote itself ends the work at once: no reply, no
/// request, and the store as it was.
pub proof fn law_own_posts_are_ignored(
    bot: MostView,
    post: PostedView,
    sessions: Map<Seq<char>, Seq<Turn>>,
)
    requires
        post.user_id == bot.user_id,
    ensures
        dispatched(bot, InboundEventView::Posted(post), sessions) == finished(
            sessions,
            Ok(Outcome::Ignored),
        ),
{
}

/// A post that does not mention the bot, in a channel whose name does not
/// hold the bot's user identifier, ends the work at once: no reply, no
/// request, and the store as it was.
pub proof fn law_unaddressed_posts_are_ignored(
    bot: MostView,
    post: PostedView,
    sessions: Map<Seq<char>, Seq<Turn>>,
)
    requires
        !has_substring(post.message, mention_token(bot.bot_name)),
        !has_substring(post.channel_name, bot.user_id),
    ensures
        dispatched(bot, InboundEventView::Posted(post), sessions) == finished(
            sessions,
            Ok(Outcome::Ignored),
        ),
{
}

/// An answer of the backend is posted as the reply, and the author's history
/// grows by the message and the answer, in that order.
pub proof fn law_answer_is_appended(
    bot: MostView,
    post: PostedView,
    answer: Seq<char>,
    sessions: Map<Seq<char>, Seq<Turn>>,
)
    ensures
        ({
            let next = resumed(
                bot,
                PendingView::Generation(post),
                CompletionView::Generated(answer),
                sessions,
            );
            &&& history_of(next.sessions, post.user_id) == history_of(sessions, post.user_id)
                + exchange(post.message, answer)
            &&& next.step matches StepView::Post { reply, then }
            &&& reply.message == answer
            &&& then == PendingView::Reply(Outcome::Answered)
        }),
{
}

/// An overflow has the bot post the truncation notice and cuts the author's
/// history down to its `RETAINED_TURNS` most recent turns; neither the
/// message nor an answer is appended.
pub proof fn law_overflow_truncates(
    bot: MostView,
    post: PostedView,
    sessions: Map<Seq<char>, Seq<Turn>>,
)
    ensures
        ({
            let next = resumed(
                bot,
                PendingView::Generation(post),
                CompletionView::Overflow,
                sessions,
            );
            &&& history_of(next.sessions, post.user_id) == recent(
                history_of(sessions, post.user_id),
                RETAINED_TURNS as nat,
            )
            &&& history_of(next.sessions, post.user_id).len() <= RETAINED_TURNS
            &&& next.step matches StepView::Post { reply, then }
            &&& reply.message == truncation_notice()
            &&& then == PendingView::Reply(Outcome::Truncated)
        }),
{
}

/// A failure of the backend call is posted as the reply, with the reason as
/// its text, and the store stays as it was.
pub proof fn law_backend_failure_is_reported(
    bot: MostView,
    post: PostedView,
    reason: Seq<char>,
    sessions: Map<Seq<char>, Seq<Turn>>,
)
    ensures
        ({
            let next = resumed(
                bot,
                PendingView::Generation(post),
                CompletionView::BackendFailed(reason),
                sessions,
            );
            &&& next.sessions == sessions
            &&& next.step matches StepView::Post { reply, then }
            &&& reply.message == reason
            &&& then == PendingView::Reply(Outcome::BackendFailed)
        }),
{
}

/// The author of the post that a pending step belongs to, where it still
/// belongs to one.
pub open spec fn author_of(pending: PendingView) -> Option<Seq<char>> {
    match pending {
        PendingView::Acknowledgment(post) => Some(post.user_id),
        PendingView::Generation(post) => Some(post.user_id),
        PendingView::Reply(_) => None,
    }
}

/// No first step loses an entry of the store, and none touches the history
/// of anybody but the author of the post.
pub proof fn law_dispatch_keeps_entries(
    bot: MostView,
    post: PostedView,
    sessions: Map<Seq<char>, Seq<Turn>>,
)
    ensures
        ({
            let next = dispatched(bot, InboundEventView::Posted(post), sessions);
            &&& forall|user: Seq<char>|
                sessions.contains_key(user) ==> #[trigger] next.sessions.contains_key(user)
            &&& forall|user: Seq<char>|
                user != post.user_id ==> #[trigger] history_of(next.sessions, user) == history_of(
                    sessions,
                    user,
                )
        }),
{
}

/// No later step loses an entry of the store, and none touches the history
/// of anybody but the author of the post. So steps taken for several frames
/// in any order leave every user's entry in place, whatever they were
/// resumed with.
pub proof fn law_resume_keeps_entries(
    bot: MostView,
    pending: PendingView,
    completion: CompletionView,
    sessions: Map<Seq<char>, Seq<Turn>>,
)
    ensures
        ({
            let next = resumed(bot, pending, completion, sessions);
            &&& forall|user: Seq<char>|
                sessions.contains_key(user) ==> #[trigger] next.sessions.contains_key(user)
            &&& forall|user: Seq<char>|
                author_of(pending) != Some(user) ==> #[trigger] history_of(next.sessions, user)
                    == history_of(sessions, user)
        }),
{
}

/// Every message that the bot posts for a post goes into that post's
/// channel, as a reply under that post.
pub proof fn law_replies_are_threaded(
    bot: MostView,
    post: PostedView,
    completion: CompletionView,
    sessions: Map<Seq<char>, Seq<Turn>>,
)
    ensures
        dispatched(bot, InboundEventView::Posted(post), sessions).step matches StepView::Post {
            reply,
            ..
        } ==> reply.channel_id == post.channel_id && reply.root_id == post.post_id,
        resumed(bot, PendingView::Generation(post), completion, sessions).step matches StepView::Post {
            reply,
            ..
        } ==> reply.channel_id == post.channel_id && reply.root_id == post.post_id,
{
}

} // verus!
