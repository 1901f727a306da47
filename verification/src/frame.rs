//! Decoding of the frames of the event stream into inbound events.

use crate::json::{as_integer, as_text, json_of, json_text, member, parse, Json};
use crate::text::same_text;
use vstd::prelude::*;

verus! {

/// Why a frame could not be decoded.
#[derive(Clone, Copy, Debug, PartialEq, Eq, Structural)]
pub enum DecodeError {
    /// The frame is not a JSON document.
    Malformed,
    /// A `posted` frame carries no post as a string.
    MissingPost,
    /// The post carried by a `posted` frame is not a JSON document.
    MalformedPost,
    MissingUserId,
    MissingChannelId,
    MissingChannelName,
    MissingMessage,
    MissingPostId,
}

impl DecodeError {
    /// A description of the error for a log.
    pub fn message(&self) -> (text: &'static str)
        ensures
            text@ == self.description(),
    {
        match self {
            DecodeError::Malformed => "Malformed frame",
            DecodeError::MissingPost => "No post found",
            DecodeError::MalformedPost => "Malformed post",
            DecodeError::MissingUserId => "No user ID found",
            DecodeError::MissingChannelId => "No channel ID found",
            DecodeError::MissingChannelName => "No channel_name found",
            DecodeError::MissingMessage => "No message text found",
            DecodeError::MissingPostId => "No post id found",
        }
    }

    pub open spec fn description(self) -> Seq<char> {
        match self {
            DecodeError::Malformed => "Malformed frame"@,
            DecodeError::MissingPost => "No post found"@,
            DecodeError::MalformedPost => "Malformed post"@,
            DecodeError::MissingUserId => "No user ID found"@,
            DecodeError::MissingChannelId => "No channel ID found"@,
            DecodeError::MissingChannelName => "No channel_name found"@,
            DecodeError::MissingMessage => "No message text found"@,
            DecodeError::MissingPostId => "No post id found"@,
        }
    }
}

/// The characters of a string that may be absent.
pub open spec fn text_view(text: Option<String>) -> Option<Seq<char>> {
    match text {
        Some(text) => Some(text@),
        None => None,
    }
}

/// The fields that the relay reads from the outer payload of a frame, each
/// absent where the payload has no such field of the expected type.
#[derive(Debug, PartialEq, Eq)]
pub struct Envelope {
    pub seq: Option<i64>,
    pub event: Option<String>,
    /// The post, itself a JSON text, under `data.post`.
    pub post: Option<String>,
    pub sender_name: Option<String>,
    pub channel_name: Option<String>,
}

pub struct EnvelopeView {
    pub seq: Option<i64>,
    pub event: Option<Seq<char>>,
    pub post: Option<Seq<char>>,
    pub sender_name: Option<Seq<char>>,
    pub channel_name: Option<Seq<char>>,
}

impl View for Envelope {
    type V = EnvelopeView;

    open spec fn view(&self) -> EnvelopeView {
        EnvelopeView {
            seq: self.seq,
            event: text_view(self.event),
            post: text_view(self.post),
            sender_name: text_view(self.sender_name),
            channel_name: text_view(self.channel_name),
        }
    }
}

/// The fields that the relay reads from the post of a `posted` frame.
#[derive(Debug, PartialEq, Eq)]
pub struct PostBody {
    pub user_id: Option<String>,
    pub channel_id: Option<String>,
    pub message: Option<String>,
    pub id: Option<String>,
}

pub struct PostBodyView {
    pub user_id: Option<Seq<char>>,
    pub channel_id: Option<Seq<char>>,
    pub message: Option<Seq<char>>,
    pub id: Option<Seq<char>>,
}

impl View for PostBody {
    type V = PostBodyView;

    open spec fn view(&self) -> PostBodyView {
        PostBodyView {
            user_id: text_view(self.user_id),
            channel_id: text_view(self.channel_id),
            message: text_view(self.message),
            id: text_view(self.id),
        }
    }
}

/// A message that somebody posted into a channel.
#[derive(Debug, PartialEq, Eq)]
pub struct Posted {
    pub post_id: String,
    pub user_id: String,
    pub channel_id: String,
    pub channel_name: String,
    pub message: String,
    pub sender_name: String,
}

pub struct PostedView {
    pub post_id: Seq<char>,
    pub user_id: Seq<char>,
    pub channel_id: Seq<char>,
    pub channel_name: Seq<char>,
    pub message: Seq<char>,
    pub sender_name: Seq<char>,
}

impl View for Posted {
    type V = PostedView;

    open spec fn view(&self) -> PostedView {
        PostedView {
            post_id: self.post_id@,
            user_id: self.user_id@,
            channel_id: self.channel_id@,
            channel_name: self.channel_name@,
            message: self.message@,
            sender_name: self.sender_name@,
        }
    }
}

/// What a frame tells the relay.
#[derive(Debug, PartialEq, Eq)]
pub enum InboundEvent {
    /// The platform acknowledges the handshake.
    Hello,
    Posted(Posted),
    /// Anything else; the relay has no use for it.
    Other,
}

pub enum InboundEventView {
    Hello,
    Posted(PostedView),
    Other,
}

impl View for InboundEvent {
    type V = InboundEventView;

    open spec fn view(&self) -> InboundEventView {
        match self {
            InboundEvent::Hello => InboundEventView::Hello,
            InboundEvent::Posted(posted) => InboundEventView::Posted(posted@),
            InboundEvent::Other => InboundEventView::Other,
        }
    }
}

/// The kind of a frame, by its sequence number and event tag.
#[derive(Clone, Copy, Debug, PartialEq, Eq, Structural)]
pub enum FrameKind {
    Hello,
    Posted,
    Other,
}

/// The envelope that a document holds.
pub open spec fn envelope_of(document: Json) -> EnvelopeView {
    EnvelopeView {
        seq: document.member("seq"@).as_integer(),
        event: document.member("event"@).as_text(),
        post: document.member("data"@).member("post"@).as_text(),
        sender_name: document.member("data"@).member("sender_name"@).as_text(),
        channel_name: document.member("data"@).member("channel_name"@).as_text(),
    }
}

/// The post fields that a document holds.
pub open spec fn post_body_of(document: Json) -> PostBodyView {
    PostBodyView {
        user_id: document.member("user_id"@).as_text(),
        channel_id: document.member("channel_id"@).as_text(),
        message: document.member("message"@).as_text(),
        id: document.member("id"@).as_text(),
    }
}

/// A frame with sequence number 1 and the tag `hello` acknowledges the
/// handshake; one with the tag `posted` carries a post; every other frame is
/// of no interest.
pub open spec fn kind_of(envelope: EnvelopeView) -> FrameKind {
    if envelope.seq == Some(1i64) && envelope.event == Some("hello"@) {
        FrameKind::Hello
    } else if envelope.event == Some("posted"@) {
        FrameKind::Posted
    } else {
        FrameKind::Other
    }
}

/// The name under which a sender without a display name goes.
pub open spec fn unnamed_sender() -> Seq<char> {
    "none"@
}

/// The posted message that an envelope and its post make, or the first
/// required field that is missing: the author, the channel, the channel's
/// name, the message text, the post's identifier, looked for in that order.
pub open spec fn posted_of(envelope: EnvelopeView, post: PostBodyView) -> Result<
    PostedView,
    DecodeError,
> {
    if post.user_id is None {
        Err(DecodeError::MissingUserId)
    } else if post.channel_id is None {
        Err(DecodeError::MissingChannelId)
    } else if envelope.channel_name is None {
        Err(DecodeError::MissingChannelName)
    } else if post.message is None {
        Err(DecodeError::MissingMessage)
    } else if post.id is None {
        Err(DecodeError::MissingPostId)
    } else {
        Ok(
            PostedView {
                post_id: post.id->0,
                user_id: post.user_id->0,
                channel_id: post.channel_id->0,
                channel_name: envelope.channel_name->0,
                message: post.message->0,
                sender_name: match envelope.sender_name {
                    Some(name) => name,
                    None => unnamed_sender(),
                },
            },
        )
    }
}

/// The event that an envelope stands for, given what reading its post gave
/// where it carries one.
pub open spec fn event_of(envelope: EnvelopeView, post: Option<Json>) -> Result<
    InboundEventView,
    DecodeError,
> {
    match kind_of(envelope) {
        FrameKind::Hello => Ok(InboundEventView::Hello),
        FrameKind::Other => Ok(InboundEventView::Other),
        FrameKind::Posted => if envelope.post is None {
            Err(DecodeError::MissingPost)
        } else {
            match post {
                None => Err(DecodeError::MalformedPost),
                Some(document) => match posted_of(envelope, post_body_of(document)) {
                    Ok(posted) => Ok(InboundEventView::Posted(posted)),
                    Err(error) => Err(error),
                },
            }
        },
    }
}

/// The event that the frame `text` decodes to, or the reason why it does not
/// decode.
pub open spec fn decoded(text: Seq<char>) -> Result<InboundEventView, DecodeError> {
    match json_text(text) {
        None => Err(DecodeError::Malformed),
        Some(document) => {
            let envelope = envelope_of(document);
            event_of(
                envelope,
                match envelope.post {
                    Some(inner) => json_text(inner),
                    None => None,
                },
            )
        },
    }
}

/// The string under `key` of `value`, where it has one.
fn text_member(value: &serde_json::Value, key: &str) -> (text: Option<String>)
    ensures
        text_view(text) == json_of(*value).member(key@).as_text(),
{
    match as_text(member(value, key)) {
        Some(found) => Some(found.to_owned()),
        None => None,
    }
}

/// Reads the envelope of a frame. Fails with `Malformed` exactly where the
/// frame is not a JSON document.
pub fn read_envelope(text: &str) -> (envelope: Result<Envelope, DecodeError>)
    ensures
        match json_text(text@) {
            Some(document) => envelope matches Ok(read) && read@ == envelope_of(document),
            None => envelope == Err::<Envelope, DecodeError>(DecodeError::Malformed),
        },
{
    match parse(text) {
        Ok(document) => {
            let data = member(&document, "data");
            Ok(
                Envelope {
                    seq: as_integer(member(&document, "seq")),
                    event: text_member(&document, "event"),
                    post: text_member(data, "post"),
                    sender_name: text_member(data, "sender_name"),
                    channel_name: text_member(data, "channel_name"),
                },
            )
        },
        Err(_) => Err(DecodeError::Malformed),
    }
}

/// Reads the post that a `posted` frame carries. Fails with `MalformedPost`
/// exactly where the text is not a JSON document.
pub fn read_post(text: &str) -> (post: Result<PostBody, DecodeError>)
    ensures
        match json_text(text@) {
            Some(document) => post matches Ok(read) && read@ == post_body_of(document),
            None => post == Err::<PostBody, DecodeError>(DecodeError::MalformedPost),
        },
{
    match parse(text) {
        Ok(document) => Ok(
            PostBody {
                user_id: text_member(&document, "user_id"),
                channel_id: text_member(&document, "channel_id"),
                message: text_member(&document, "message"),
                id: text_member(&document, "id"),
            },
        ),
        Err(_) => Err(DecodeError::MalformedPost),
    }
}

impl Envelope {
    /// The kind of the frame.
    pub fn kind(&self) -> (kind: FrameKind)
        ensures
            kind == kind_of(self@),
    {
        match &self.event {
            Some(event) => {
                if same_text(event.as_str(), "hello") {
                    match self.seq {
                        Some(seq) => {
                            if seq == 1 {
                                return FrameKind::Hello;
                            }
                        },
                        None => {},
                    }
                }
                if same_text(event.as_str(), "posted") {
                    FrameKind::Posted
                } else {
                    FrameKind::Other
                }
            },
            None => FrameKind::Other,
        }
    }
}

/// Puts the posted message together from the envelope and the post of a
/// `posted` frame, or names the first required field that is missing.
pub fn posted(envelope: Envelope, post: PostBody) -> (event: Result<Posted, DecodeError>)
    ensures
        match event {
            Ok(posted) => posted_of(envelope@, post@) == Ok::<PostedView, DecodeError>(posted@),
            Err(error) => posted_of(envelope@, post@) == Err::<PostedView, DecodeError>(error),
        },
{
    let user_id = match post.user_id {
        Some(user_id) => user_id,
        None => return Err(DecodeError::MissingUserId),
    };
    let channel_id = match post.channel_id {
        Some(channel_id) => channel_id,
        None => return Err(DecodeError::MissingChannelId),
    };
    let channel_name = match envelope.channel_name {
        Some(channel_name) => channel_name,
        None => return Err(DecodeError::MissingChannelName),
    };
    let message = match post.message {
        Some(message) => message,
        None => return Err(DecodeError::MissingMessage),
    };
    let post_id = match post.id {
        Some(post_id) => post_id,
        None => return Err(DecodeError::MissingPostId),
    };
    let sender_name = match envelope.sender_name {
        Some(sender_name) => sender_name,
        None => "none".to_owned(),
    };
    Ok(Posted { post_id, user_id, channel_id, channel_name, message, sender_name })
}

/// Decodes one frame of the event stream.
pub fn decode(text: &str) -> (event: Result<InboundEvent, DecodeError>)
    ensures
        match event {
            Ok(decoded_event) => decoded(text@) == Ok::<InboundEventView, DecodeError>(
                decoded_event@,
            ),
            Err(error) => decoded(text@) == Err::<InboundEventView, DecodeError>(error),
        },
{
    let envelope = match read_envelope(text) {
        Ok(envelope) => envelope,
        Err(error) => return Err(error),
    };
    match envelope.kind() {
        FrameKind::Hello => Ok(InboundEvent::Hello),
        FrameKind::Other => Ok(InboundEvent::Other),
        FrameKind::Posted => {
            let post = match &envelope.post {
                Some(inner) => match read_post(inner.as_str()) {
                    Ok(post) => post,
                    Err(error) => return Err(error),
                },
                None => return Err(DecodeError::MissingPost),
            };
            match posted(envelope, post) {
                Ok(posted) => Ok(InboundEvent::Posted(posted)),
                Err(error) => Err(error),
            }
        },
    }
}

} // verus!
