//! Notifications: the destination settings, and the requests that carry
//! each message to the messaging endpoint. Sending them is the caller's
//! part; a failed send is only logged.
use vstd::prelude::*;

verus! {

/// Where notifications go: a bot token and a chat id, fixed for the run.
pub struct NotifyConfig {
    pub bot_token: String,
    pub chat_id: String,
}

/// A setting that is needed before any watch starts and was not given.
#[derive(PartialEq, Eq, Structural, Clone, Copy, Debug)]
pub enum ConfigError {
    MissingToken,
    MissingChatId,
}

impl NotifyConfig {
    /// The settings from the values given for the token and the chat id.
    /// A missing token is reported first.
    pub fn from_values(bot_token: Option<String>, chat_id: Option<String>) -> (r: Result<
        NotifyConfig,
        ConfigError,
    >)
        ensures
            bot_token is None ==> r == Err::<NotifyConfig, ConfigError>(ConfigError::MissingToken),
            bot_token is Some && chat_id is None ==> r == Err::<NotifyConfig, ConfigError>(
                ConfigError::MissingChatId,
            ),
            bot_token is Some && chat_id is Some ==> r is Ok && r->Ok_0.bot_token
                == bot_token->Some_0 && r->Ok_0.chat_id == chat_id->Some_0,
    {
        match bot_token {
            None => Err(ConfigError::MissingToken),
            Some(t) => match chat_id {
                None => Err(ConfigError::MissingChatId),
                Some(c) => Ok(NotifyConfig { bot_token: t, chat_id: c }),
            },
        }
    }
}

/// One form-encoded POST: to `url`, with the fields `chat_id` and `text`.
pub struct Request {
    pub url: String,
    pub chat_id: String,
    pub text: String,
}

/// What a request holds: its url, its chat id and its text.
pub struct RequestView {
    pub url: Seq<char>,
    pub chat_id: Seq<char>,
    pub text: Seq<char>,
}

impl View for Request {
    type V = RequestView;

    open spec fn view(&self) -> RequestView {
        RequestView { url: self.url@, chat_id: self.chat_id@, text: self.text@ }
    }
}

/// The address of the send-message method for the bot `token`.
pub open spec fn endpoint(token: Seq<char>) -> Seq<char> {
    "https://api.telegram.org/bot"@ + token + "/sendMessage"@
}

/// The request that carries `message` to the destination `config`.
pub open spec fn request_for(config: NotifyConfig, message: Seq<char>) -> RequestView {
    RequestView { url: endpoint(config.bot_token@), chat_id: config.chat_id@, text: message }
}

/// The requests waiting after `message` is queued behind `queue`: every
/// message is queued, the same one again too.
pub open spec fn queued(queue: Seq<RequestView>, config: NotifyConfig, message: Seq<char>) -> Seq<
    RequestView,
> {
    queue.push(request_for(config, message))
}

/// Sends nothing itself: it queues one request per message, for the
/// caller to take and send in order.
pub struct Notifier {
    pub config: NotifyConfig,
    pub pending: Vec<Request>,
}

impl Notifier {
    /// The requests waiting to be sent, oldest first.
    pub open spec fn queue(&self) -> Seq<RequestView> {
        self.pending@.map_values(|r: Request| r@)
    }

    pub fn new(config: NotifyConfig) -> (r: Notifier)
        ensures
            r.config == config,
            r.queue() == Seq::<RequestView>::empty(),
    {
        let r = Notifier { config, pending: Vec::new() };
        assert(r.queue() =~= Seq::<RequestView>::empty());
        r
    }

    /// The request that carries `message`.
    pub fn request(&self, message: &str) -> (r: Request)
        ensures
            r@ == request_for(self.config, message@),
    {
        let mut url = String::from_str("https://api.telegram.org/bot");
        url.append(self.config.bot_token.as_str());
        url.append("/sendMessage");
        Request { url, chat_id: self.config.chat_id.clone(), text: String::from_str(message) }
    }

    /// Queues one request for `message`, whatever was queued before.
    pub fn notify(&mut self, message: &str)
        ensures
            final(self).config == old(self).config,
            final(self).queue() == queued(old(self).queue(), old(self).config, message@),
    {
        let r = self.request(message);
        self.pending.push(r);
        assert(self.queue() =~= queued(old(self).queue(), old(self).config, message@));
    }

    /// Hands out the waiting requests, oldest first, and empties the queue.
    pub fn take_pending(&mut self) -> (r: Vec<Request>)
        ensures
            final(self).config == old(self).config,
            r@.map_values(|q: Request| q@) == old(self).queue(),
            final(self).queue() == Seq::<RequestView>::empty(),
    {
        let mut r: Vec<Request> = Vec::new();
        core::mem::swap(&mut r, &mut self.pending);
        assert(self.queue() =~= Seq::<RequestView>::empty());
        r
    }
}

/// Notifying twice with one message queues two requests, equal to each
/// other: nothing is merged or held back.
pub proof fn lemma_repeat_is_sent_twice(
    queue: Seq<RequestView>,
    config: NotifyConfig,
    message: Seq<char>,
)
    ensures
        ({
            let twice = queued(queued(queue, config, message), config, message);
            &&& twice.len() == queue.len() + 2
            &&& twice.subrange(0, queue.len() as int) == queue
            &&& twice[queue.len() as int] == request_for(config, message)
            &&& twice[queue.len() + 1int] == request_for(config, message)
        }),
{
    let twice = queued(queued(queue, config, message), config, message);
    assert(twice.subrange(0, queue.len() as int) =~= queue);
}

} // verus!
