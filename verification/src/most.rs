//! The bot's account on the chat platform: its credentials, its identity and
//! the requests that it sends to the platform's REST interface.

use crate::json::{as_text, json_text, member, parse, Json};
use crate::text::same_text;
use vstd::prelude::*;
use vstd::string::StringExecFns;

verus! {

/// Why the bot's identity could not be read.
#[derive(Clone, Copy, Debug, PartialEq, Eq, Structural)]
pub enum IdentityError {
    /// The platform's answer is not a JSON document.
    Malformed,
    /// The answer names no user identifier.
    NoId,
}

impl IdentityError {
    /// A description of the error for a log.
    pub fn message(&self) -> (text: &'static str)
        ensures
            text@ == self.description(),
    {
        match self {
            IdentityError::Malformed => "Malformed user",
            IdentityError::NoId => "No id found",
        }
    }

    pub open spec fn description(self) -> Seq<char> {
        match self {
            IdentityError::Malformed => "Malformed user"@,
            IdentityError::NoId => "No id found"@,
        }
    }
}

/// A request that posts a message into a channel: where to send it, the
/// token that authorises it, and the three fields of its body.
#[derive(Debug, PartialEq, Eq)]
pub struct PostRequest {
    pub url: String,
    pub bearer: String,
    pub channel_id: String,
    pub message: String,
    /// The post that the message replies to.
    pub root_id: String,
}

pub struct PostRequestView {
    pub url: Seq<char>,
    pub bearer: Seq<char>,
    pub channel_id: Seq<char>,
    pub message: Seq<char>,
    pub root_id: Seq<char>,
}

impl View for PostRequest {
    type V = PostRequestView;

    open spec fn view(&self) -> PostRequestView {
        PostRequestView {
            url: self.url@,
            bearer: self.bearer@,
            channel_id: self.channel_id@,
            message: self.message@,
            root_id: self.root_id@,
        }
    }
}

/// The bot's account. Its user identifier is empty until `me` has read it.
#[derive(Debug, PartialEq, Eq)]
pub struct Most {
    bot_token: String,
    base_url: String,
    user_id: String,
    bot_name: String,
}

pub struct MostView {
    pub bot_token: Seq<char>,
    pub base_url: Seq<char>,
    pub user_id: Seq<char>,
    pub bot_name: Seq<char>,
}

impl View for Most {
    type V = MostView;

    closed spec fn view(&self) -> MostView {
        MostView {
            bot_token: self.bot_token@,
            base_url: self.base_url@,
            user_id: self.user_id@,
            bot_name: self.bot_name@,
        }
    }
}

impl Clone for Most {
    fn clone(&self) -> (copy: Self)
        ensures
            copy@ == self@,
    {
        Most {
            bot_token: self.bot_token.clone(),
            base_url: self.base_url.clone(),
            user_id: self.user_id.clone(),
            bot_name: self.bot_name.clone(),
        }
    }
}

/// The address under which the platform tells a user who they are.
pub open spec fn me_address(base_url: Seq<char>) -> Seq<char> {
    base_url + "api/v4/users/me"@
}

/// The address under which the platform takes posts.
pub open spec fn posts_address(base_url: Seq<char>) -> Seq<char> {
    base_url + "api/v4/posts"@
}

/// The user identifier that the platform's answer names.
pub open spec fn identity_of(document: Json) -> Option<Seq<char>> {
    document.member("id"@).as_text()
}

/// The address of the platform's event stream for a base address with the
/// given scheme and host: secure for `https`, plain for `http`, none for any
/// other scheme.
pub open spec fn websocket_address(scheme: Seq<char>, host: Seq<char>) -> Option<Seq<char>> {
    if scheme == "https"@ {
        Some("wss://"@ + host + "/api/v4/websocket"@)
    } else if scheme == "http"@ {
        Some("ws://"@ + host + "/api/v4/websocket"@)
    } else {
        None
    }
}

/// The address of the platform's event stream, or `None` where the scheme of
/// the base address is neither `https` nor `http`.
pub fn websocket_url(scheme: &str, host: &str) -> (url: Option<String>)
    ensures
        match url {
            Some(address) => websocket_address(scheme@, host@) == Some(address@),
            None => websocket_address(scheme@, host@) is None,
        },
{
    if same_text(scheme, "https") {
        Some(String::from_str("wss://").concat(host).concat("/api/v4/websocket"))
    } else if same_text(scheme, "http") {
        Some(String::from_str("ws://").concat(host).concat("/api/v4/websocket"))
    } else {
        None
    }
}

impl Most {
    /// An account whose identity is not known yet.
    pub fn new(bot_token: &str, base_url: &str, bot_name: &str) -> (most: Self)
        ensures
            most@ == (MostView {
                bot_token: bot_token@,
                base_url: base_url@,
                user_id: Seq::empty(),
                bot_name: bot_name@,
            }),
    {
        Most {
            bot_token: bot_token.to_owned(),
            base_url: base_url.to_owned(),
            user_id: String::new(),
            bot_name: bot_name.to_owned(),
        }
    }

    pub fn bot_token(&self) -> (token: &str)
        ensures
            token@ == self@.bot_token,
    {
        self.bot_token.as_str()
    }

    pub fn base_url(&self) -> (url: &str)
        ensures
            url@ == self@.base_url,
    {
        self.base_url.as_str()
    }

    pub fn user_id(&self) -> (id: &str)
        ensures
            id@ == self@.user_id,
    {
        self.user_id.as_str()
    }

    pub fn bot_name(&self) -> (name: &str)
        ensures
            name@ == self@.bot_name,
    {
        self.bot_name.as_str()
    }

    /// The address to ask for the bot's own identity.
    pub fn me_url(&self) -> (url: String)
        ensures
            url@ == me_address(self@.base_url),
    {
        self.base_url.clone().concat("api/v4/users/me")
    }

    /// Takes the identifier that the platform's answer gave, or fails with
    /// `NoId` where it gave none. A failure leaves the account as it is.
    pub fn identify(&mut self, id: Option<&str>) -> (done: Result<(), IdentityError>)
        ensures
            match id {
                Some(user_id) => done is Ok && final(self)@ == (MostView {
                    user_id: user_id@,
                    ..old(self)@
                }),
                None => done == Err::<(), IdentityError>(IdentityError::NoId) && final(self)@
                    == old(self)@,
            },
    {
        match id {
            Some(user_id) => {
                self.user_id = user_id.to_owned();
                Ok(())
            },
            None => Err(IdentityError::NoId),
        }
    }

    /// Reads the bot's identity from `body`, the platform's answer to a
    /// request to `me_url`. Fails with `Malformed` where the body is not a
    /// JSON document, with `NoId` where the document has no string under
    /// `id`; a failure leaves the account as it is.
    pub fn me(&mut self, body: &str) -> (done: Result<(), IdentityError>)
        ensures
            match json_text(body@) {
                None => done == Err::<(), IdentityError>(IdentityError::Malformed) && final(self)@
                    == old(self)@,
                Some(document) => match identity_of(document) {
                    Some(user_id) => done is Ok && final(self)@ == (MostView {
                        user_id,
                        ..old(self)@
                    }),
                    None => done == Err::<(), IdentityError>(IdentityError::NoId) && final(self)@
                        == old(self)@,
                },
            },
    {
        match parse(body) {
            Ok(document) => self.identify(as_text(member(&document, "id"))),
            Err(_) => Err(IdentityError::Malformed),
        }
    }

    /// The request that posts `message` into the channel `channel_id` as a
    /// reply to the post `root_id`.
    pub fn posts(&self, channel_id: &str, message: &str, root_id: &str) -> (request: PostRequest)
        ensures
            request@ == (PostRequestView {
                url: posts_address(self@.base_url),
                bearer: self@.bot_token,
                channel_id: channel_id@,
                message: message@,
                root_id: root_id@,
            }),
    {
        PostRequest {
            url: self.base_url.clone().concat("api/v4/posts"),
            bearer: self.bot_token.clone(),
            channel_id: channel_id.to_owned(),
            message: message.to_owned(),
            root_id: root_id.to_owned(),
        }
    }
}

} // verus!
