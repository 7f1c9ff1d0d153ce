//! Telegram notifications: when one is sent, what request carries it, and
//! how a failed delivery is retried.
use vstd::prelude::*;
use vstd::string::*;

use crate::config::TelegramConfig;

verus! {

/// The pause, in milliseconds, between two delivery attempts of one message.
pub const RETRY_PAUSE_MS: u64 = 1000;

pub const TELEGRAM_API_PREFIX: &'static str = "https://api.telegram.org/bot";

pub const TELEGRAM_SEND_SUFFIX: &'static str = "/sendMessage";

pub const PAYLOAD_HEAD: &'static str = "{\"chat_id\":";

pub const PAYLOAD_MID: &'static str = ",\"parse_mode\":\"HTML\",\"text\":";

pub const PAYLOAD_TAIL: &'static str = "}";

/// A lowercase hexadecimal digit for `d < 16`.
pub open spec fn hex_digit(d: int) -> char {
    if d < 10 {
        crate::text::digit_char(d as nat)
    } else if d == 10 {
        'a'
    } else if d == 11 {
        'b'
    } else if d == 12 {
        'c'
    } else if d == 13 {
        'd'
    } else if d == 14 {
        'e'
    } else {
        'f'
    }
}

/// What one character becomes inside a JSON string.
pub open spec fn json_char(c: char) -> Seq<char> {
    if c == '"' {
        seq!['\\', '"']
    } else if c == '\\' {
        seq!['\\', '\\']
    } else if c == '\n' {
        seq!['\\', 'n']
    } else if c == '\r' {
        seq!['\\', 'r']
    } else if c == '\t' {
        seq!['\\', 't']
    } else if (c as u32) == 8 {
        seq!['\\', 'b']
    } else if (c as u32) == 12 {
        seq!['\\', 'f']
    } else if (c as u32) < 32 {
        seq!['\\', 'u', '0', '0', hex_digit((c as u32) as int / 16), hex_digit((c as u32) as int % 16)]
    } else {
        seq![c]
    }
}

/// The characters of a text, each escaped for a JSON string.
pub open spec fn json_escape(s: Seq<char>) -> Seq<char>
    decreases s.len(),
{
    if s.len() == 0 {
        Seq::empty()
    } else {
        json_escape(s.drop_last()) + json_char(s.last())
    }
}

/// A text written as a JSON string literal.
pub open spec fn json_string(s: Seq<char>) -> Seq<char> {
    seq!['"'] + json_escape(s) + seq!['"']
}

/// The address of the bot's `sendMessage` method.
pub open spec fn telegram_url_of(token: Seq<char>) -> Seq<char> {
    TELEGRAM_API_PREFIX@ + token + TELEGRAM_SEND_SUFFIX@
}

/// The JSON body of a message: the chat, HTML parse mode and the text, keys
/// in sorted order.
pub open spec fn payload_of(chat_id: Seq<char>, text: Seq<char>) -> Seq<char> {
    PAYLOAD_HEAD@ + json_string(chat_id) + PAYLOAD_MID@ + json_string(text) + PAYLOAD_TAIL@
}

/// `serde_json::to_string` on a text: the text as a JSON string literal,
/// quotes around it, `"` and `\` and the control characters below 0x20
/// escaped (short forms for backspace, form feed, line feed, carriage return
/// and tab, `\u00xx` with lowercase hex for the rest), everything else as it
/// is. Serialising a `str` into memory cannot fail.
#[verifier::external_body]
fn json_string_literal(s: &str) -> (r: String)
    ensures
        r@ == json_string(s@),
{
    match serde_json::to_string(s) {
        Ok(t) => t,
        Err(_) => String::new(),
    }
}

/// One HTTP request to Telegram: where it goes and its JSON body.
pub struct TelegramRequest {
    pub url: String,
    pub body: String,
}

/// The Telegram notifier: whether it is on, and the bot and chat it uses.
pub struct Notifier {
    enabled: bool,
    bot_token: String,
    chat_id: String,
}

/// How one delivery attempt went.
#[derive(Debug, Clone, Copy, PartialEq, Eq, Structural)]
pub enum DeliveryOutcome {
    /// Telegram answered with a success status.
    Delivered,
    /// Telegram answered with another status.
    Refused,
    /// The request did not get an answer.
    Unreachable,
}

/// What to do after a delivery attempt.
#[derive(Debug, Clone, Copy, PartialEq, Eq, Structural)]
pub enum RetryAction {
    /// No more attempts for this message.
    Stop,
    /// Wait [`RETRY_PAUSE_MS`], then make attempt number `attempt`.
    PauseThenRetry { attempt: u32 },
}

/// The step after attempt `attempt` of `retries + 1`: stop on delivery or
/// after the last attempt, else pause and try the next one.
pub open spec fn retry_step(attempt: u32, retries: u32, outcome: DeliveryOutcome) -> RetryAction {
    if outcome == DeliveryOutcome::Delivered {
        RetryAction::Stop
    } else if attempt < retries {
        RetryAction::PauseThenRetry { attempt: (attempt + 1) as u32 }
    } else {
        RetryAction::Stop
    }
}

/// How many attempts a message gets from attempt `a` on, when attempt `i`
/// goes as `outcomes[i]`.
pub open spec fn attempts_from(a: u32, retries: u32, outcomes: Seq<DeliveryOutcome>) -> nat
    decreases retries - a,
{
    if a > retries {
        0
    } else {
        match retry_step(a, retries, outcomes[a as int]) {
            RetryAction::Stop => 1,
            RetryAction::PauseThenRetry { attempt } => if attempt > a {
                1 + attempts_from(attempt, retries, outcomes)
            } else {
                1
            },
        }
    }
}

impl Notifier {
    /// Whether notifications are sent at all.
    pub closed spec fn is_enabled(self) -> bool {
        self.enabled
    }

    /// The bot token.
    pub closed spec fn token(self) -> Seq<char> {
        self.bot_token@
    }

    /// The chat that receives the messages.
    pub closed spec fn chat(self) -> Seq<char> {
        self.chat_id@
    }

    /// A notifier for the Telegram settings.
    pub fn new(config: &TelegramConfig) -> (r: Self)
        ensures
            r.is_enabled() == config.enabled,
            r.token() == config.bot_token@,
            r.chat() == config.chat_id@,
    {
        Notifier {
            enabled: config.enabled,
            bot_token: config.bot_token.clone(),
            chat_id: config.chat_id.clone(),
        }
    }

    /// Whether notifications are sent at all.
    pub fn enabled(&self) -> (r: bool)
        ensures
            r == self.is_enabled(),
    {
        self.enabled
    }

    /// The request that sends `message`, or `None` when notifications are off.
    pub fn request_for(&self, message: &str) -> (r: Option<TelegramRequest>)
        ensures
            match r {
                Some(req) => self.is_enabled() && req.url@ == telegram_url_of(self.token())
                    && req.body@ == payload_of(self.chat(), message@),
                None => !self.is_enabled(),
            },
    {
        if !self.enabled {
            return None;
        }
        let url = telegram_url(self.bot_token.as_str());
        let body = message_payload(self.chat_id.as_str(), message);
        Some(TelegramRequest { url, body })
    }
}

/// The address of the bot's `sendMessage` method.
pub fn telegram_url(token: &str) -> (r: String)
    ensures
        r@ == telegram_url_of(token@),
{
    let mut r = String::from_str(TELEGRAM_API_PREFIX);
    r.append(token);
    r.append(TELEGRAM_SEND_SUFFIX);
    r
}

/// The JSON body that sends `text` to `chat_id` as HTML.
pub fn message_payload(chat_id: &str, text: &str) -> (r: String)
    ensures
        r@ == payload_of(chat_id@, text@),
{
    let chat = json_string_literal(chat_id);
    let msg = json_string_literal(text);
    let mut r = String::from_str(PAYLOAD_HEAD);
    r.append(chat.as_str());
    r.append(PAYLOAD_MID);
    r.append(msg.as_str());
    r.append(PAYLOAD_TAIL);
    r
}

/// Decides what follows attempt `attempt` (counted from 0) of a delivery
/// allowed `retries` retries.
pub fn after_attempt(attempt: u32, retries: u32, outcome: DeliveryOutcome) -> (r: RetryAction)
    requires
        attempt <= retries,
    ensures
        r == retry_step(attempt, retries, outcome),
        outcome == DeliveryOutcome::Delivered ==> r == RetryAction::Stop,
{
    match outcome {
        DeliveryOutcome::Delivered => RetryAction::Stop,
        _ => {
            if attempt < retries {
                RetryAction::PauseThenRetry { attempt: attempt + 1 }
            } else {
                RetryAction::Stop
            }
        },
    }
}

/// A message gets at most `retries + 1` attempts, and none after the first
/// one that is delivered: when attempt `k` is the first delivery, exactly
/// `k + 1` attempts are made.
pub proof fn lemma_retry_attempts(a: u32, retries: u32, outcomes: Seq<DeliveryOutcome>)
    requires
        a <= retries,
    ensures
        attempts_from(a, retries, outcomes) <= retries - a + 1,
        forall|k: int|
            a <= k <= retries && outcomes[k] == DeliveryOutcome::Delivered && (forall|j: int|
                a <= j < k ==> outcomes[j] != DeliveryOutcome::Delivered) ==> attempts_from(
                a,
                retries,
                outcomes,
            ) == k - a + 1,
        (forall|j: int| a <= j <= retries ==> outcomes[j] != DeliveryOutcome::Delivered)
            ==> attempts_from(a, retries, outcomes) == retries - a + 1,
    decreases retries - a,
{
    if a < retries && outcomes[a as int] != DeliveryOutcome::Delivered {
        lemma_retry_attempts((a + 1) as u32, retries, outcomes);
    }
}

/// A delivered message is never sent again, on any attempt, the last one
/// included; a retry always names the next attempt and stays within the
/// allowed retries; the last attempt is always followed by a stop.
pub proof fn lemma_retry_step_answers(attempt: u32, retries: u32, outcome: DeliveryOutcome)
    requires
        attempt <= retries,
    ensures
        outcome == DeliveryOutcome::Delivered ==> retry_step(attempt, retries, outcome)
            == RetryAction::Stop,
        attempt == retries ==> retry_step(attempt, retries, outcome) == RetryAction::Stop,
        match retry_step(attempt, retries, outcome) {
            RetryAction::PauseThenRetry { attempt: next } => next == attempt + 1 && next
                <= retries && outcome != DeliveryOutcome::Delivered,
            RetryAction::Stop => outcome == DeliveryOutcome::Delivered || attempt == retries,
        },
{
}

} // verus!
