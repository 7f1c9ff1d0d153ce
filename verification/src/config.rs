//! The bot's settings, the rules a usable configuration obeys, and the
//! autofill script that is built from them once at startup.
use std::sync::Arc;
use vstd::prelude::*;
use vstd::string::*;

use crate::error::{AppError, ErrorView};
use crate::text::{
    contains_char, contains_text, escape_quotes, escape_single_quotes, has_infix, join_with,
    lemma_escape_len, quote_count, same_text,
};

verus! {

#[derive(Debug)]
pub struct Config {
    pub target: TargetConfig,
    pub buyer: BuyerConfig,
    pub payment: PaymentConfig,
    pub monitor: MonitorConfig,
    pub browser: BrowserConfig,
    pub telegram: TelegramConfig,
    pub speed: SpeedConfig,
    pub selectors: SelectorsConfig,
}

#[derive(Debug)]
pub struct TargetConfig {
    pub url: String,
    pub ticket_category: String,
    pub quantity: u32,
    pub max_price: u64,
}

#[derive(Debug)]
pub struct BuyerConfig {
    pub name: String,
    pub email: String,
    pub phone: String,
    pub id_number: String,
}

#[derive(Debug)]
pub struct PaymentConfig {
    pub method: String,
}

#[derive(Debug)]
pub struct MonitorConfig {
    pub poll_interval_ms: u64,
    pub start_time: String,
    pub pre_warm_seconds: u64,
}

#[derive(Debug)]
pub struct BrowserConfig {
    pub chrome_path: Option<String>,
    pub headless: bool,
    pub user_data_dir: Option<String>,
}

#[derive(Debug)]
pub struct TelegramConfig {
    pub enabled: bool,
    pub bot_token: String,
    pub chat_id: String,
}

#[derive(Debug)]
pub struct SpeedConfig {
    pub parallel_tabs: u32,
    pub pre_connect: bool,
}

#[derive(Debug)]
pub struct SelectorsConfig {
    pub buy_button: String,
    pub ticket_category_selector: String,
    pub quantity_input: String,
    pub name_input: String,
    pub email_input: String,
    pub phone_input: String,
    pub id_input: String,
    pub payment_virtual_account: String,
    pub payment_credit_card: String,
    pub payment_gopay: String,
    pub payment_bliblipay: String,
    pub submit_button: String,
    pub captcha_indicator: String,
    pub success_indicator: String,
}

/// The smallest polling interval, in milliseconds, that a configuration may ask for.
pub const MIN_POLL_INTERVAL_MS: u64 = 50;

/// The placeholder that the example configuration carries for the bot token.
pub const BOT_TOKEN_PLACEHOLDER: &'static str = "YOUR_BOT_TOKEN_HERE";

/// The placeholder that the example configuration carries for the chat id.
pub const CHAT_ID_PLACEHOLDER: &'static str = "YOUR_CHAT_ID_HERE";

/// The payment methods that checkout knows how to select, in the order listed to users.
pub open spec fn payment_methods() -> Seq<Seq<char>> {
    seq!["virtual_account"@, "credit_card"@, "gopay"@, "bliblipay"@]
}

/// The first rule that a configuration breaks, as the text that reports it,
/// checked in a fixed order; `None` when it breaks none.
pub open spec fn first_problem(c: Config) -> Option<Seq<char>> {
    if c.target.url@.len() == 0 {
        Some("target.url cannot be empty"@)
    } else if !has_infix(c.target.url@, "tiket.com"@) {
        Some("target.url must be a tiket.com URL"@)
    } else if c.target.quantity == 0 {
        Some("target.quantity must be > 0"@)
    } else if c.buyer.name@.len() == 0 {
        Some("buyer.name cannot be empty"@)
    } else if c.buyer.email@.len() == 0 || !c.buyer.email@.contains('@') {
        Some("buyer.email must be a valid email"@)
    } else if c.buyer.phone@.len() == 0 {
        Some("buyer.phone cannot be empty"@)
    } else if c.monitor.poll_interval_ms < MIN_POLL_INTERVAL_MS {
        Some("monitor.poll_interval_ms minimum is 50"@)
    } else if c.telegram.enabled && (c.telegram.bot_token@.len() == 0
        || c.telegram.bot_token@ == BOT_TOKEN_PLACEHOLDER@) {
        Some("telegram.bot_token must be set when telegram is enabled"@)
    } else if c.telegram.enabled && (c.telegram.chat_id@.len() == 0 || c.telegram.chat_id@
        == CHAT_ID_PLACEHOLDER@) {
        Some("telegram.chat_id must be set when telegram is enabled"@)
    } else if !payment_methods().contains(c.payment.method@) {
        Some("payment.method must be one of: "@ + join_with(payment_methods(), ", "@))
    } else {
        None
    }
}

/// What validating a configuration gives: success, or the first broken rule
/// as a configuration error.
pub open spec fn validation(c: Config) -> Result<(), ErrorView> {
    match first_problem(c) {
        None => Ok(()),
        Some(m) => Err(ErrorView::Config(m)),
    }
}

/// Every rule that a configuration must satisfy, all together.
pub open spec fn is_usable(c: Config) -> bool {
    &&& c.target.url@.len() > 0
    &&& has_infix(c.target.url@, "tiket.com"@)
    &&& c.target.quantity > 0
    &&& c.buyer.name@.len() > 0
    &&& c.buyer.email@.contains('@')
    &&& c.buyer.phone@.len() > 0
    &&& c.monitor.poll_interval_ms >= MIN_POLL_INTERVAL_MS
    &&& c.telegram.enabled ==> c.telegram.bot_token@.len() > 0 && c.telegram.bot_token@
        != BOT_TOKEN_PLACEHOLDER@
    &&& c.telegram.enabled ==> c.telegram.chat_id@.len() > 0 && c.telegram.chat_id@
        != CHAT_ID_PLACEHOLDER@
    &&& payment_methods().contains(c.payment.method@)
}

pub const AUTOFILL_HEAD: &'static str = "(() => {\n    const set = (sel, val) => {\n        const el = document.querySelector(sel);\n        if(el) {\n            const nativeSetter = Object.getOwnPropertyDescriptor(window.HTMLInputElement.prototype, 'value').set;\n            nativeSetter.call(el, val);\n            el.dispatchEvent(new Event('input', {bubbles:true}));\n            el.dispatchEvent(new Event('change', {bubbles:true}));\n            el.dispatchEvent(new Event('blur', {bubbles:true}));\n        }\n    };\n    set('";

pub const AUTOFILL_ARG_SEP: &'static str = "', '";

pub const AUTOFILL_NEXT_SET: &'static str = "');\n    set('";

pub const AUTOFILL_TAIL: &'static str = "');\n})();";

/// One `set(selector, value)` line's arguments, both quote-escaped.
pub open spec fn autofill_pair(sel: Seq<char>, val: Seq<char>) -> Seq<char> {
    escape_quotes(sel) + AUTOFILL_ARG_SEP@ + escape_quotes(val)
}

/// The autofill script: one function that sets the name, email, phone and id
/// fields, each addressed by its selector, in that order.
pub open spec fn autofill_script(c: Config) -> Seq<char> {
    AUTOFILL_HEAD@ + autofill_pair(c.selectors.name_input@, c.buyer.name@) + AUTOFILL_NEXT_SET@
        + autofill_pair(c.selectors.email_input@, c.buyer.email@) + AUTOFILL_NEXT_SET@
        + autofill_pair(c.selectors.phone_input@, c.buyer.phone@) + AUTOFILL_NEXT_SET@
        + autofill_pair(c.selectors.id_input@, c.buyer.id_number@) + AUTOFILL_TAIL@
}

/// Another handle on shared settings (`Arc::clone`).
#[verifier::external_body]
pub(crate) fn share<T>(a: &Arc<T>) -> (r: Arc<T>)
    ensures
        *r == **a,
{
    Arc::clone(a)
}

/// The length of a value once quote-escaped.
pub open spec fn escaped_len(v: Seq<char>) -> nat {
    v.len() + quote_count(v)
}

/// The autofill script is its fixed text plus each of the eight values with
/// one extra character per single quote in it.
pub proof fn lemma_autofill_script_len(c: Config)
    ensures
        autofill_script(c).len() == AUTOFILL_HEAD@.len() + 4 * AUTOFILL_ARG_SEP@.len() + 3
            * AUTOFILL_NEXT_SET@.len() + AUTOFILL_TAIL@.len() + escaped_len(
            c.selectors.name_input@,
        ) + escaped_len(c.buyer.name@) + escaped_len(c.selectors.email_input@) + escaped_len(
            c.buyer.email@,
        ) + escaped_len(c.selectors.phone_input@) + escaped_len(c.buyer.phone@) + escaped_len(
            c.selectors.id_input@,
        ) + escaped_len(c.buyer.id_number@),
{
    lemma_escape_len(c.selectors.name_input@);
    lemma_escape_len(c.buyer.name@);
    lemma_escape_len(c.selectors.email_input@);
    lemma_escape_len(c.buyer.email@);
    lemma_escape_len(c.selectors.phone_input@);
    lemma_escape_len(c.buyer.phone@);
    lemma_escape_len(c.selectors.id_input@);
    lemma_escape_len(c.buyer.id_number@);
}

/// Appends `v` with its single quotes escaped.
pub(crate) fn append_escaped(r: &mut String, v: &str)
    ensures
        final(r)@ == old(r)@ + escape_quotes(v@),
{
    let e = escape_single_quotes(v);
    r.append(e.as_str());
}

/// The accepted payment methods.
pub fn accepted_payment_methods() -> (v: Vec<&'static str>)
    ensures
        v@.map_values(|s: &str| s@) == payment_methods(),
{
    let mut v: Vec<&'static str> = Vec::new();
    v.push("virtual_account");
    v.push("credit_card");
    v.push("gopay");
    v.push("bliblipay");
    assert(v@.map_values(|s: &str| s@) =~= payment_methods());
    v
}

/// The texts of `parts` joined with `sep` between neighbours.
pub fn join_texts(parts: &Vec<&str>, sep: &str) -> (r: String)
    ensures
        r@ == join_with(parts@.map_values(|s: &str| s@), sep@),
{
    let ghost views = parts@.map_values(|s: &str| s@);
    let mut r = String::new();
    let n: usize = parts.len();
    for i in 0..n
        invariant
            n == parts@.len(),
            views == parts@.map_values(|s: &str| s@),
            r@ == join_with(views.take(i as int), sep@),
    {
        assert(views.take(i + 1).drop_last() =~= views.take(i as int));
        if i != 0 {
            r.append(sep);
        }
        r.append(parts[i]);
    }
    assert(views.take(n as int) =~= views);
    r
}

/// Whether `m` is one of the accepted payment methods.
pub fn is_accepted_payment_method(m: &str) -> (r: bool)
    ensures
        r == payment_methods().contains(m@),
{
    let methods = accepted_payment_methods();
    let ghost views = methods@.map_values(|s: &str| s@);
    let n: usize = methods.len();
    for i in 0..n
        invariant
            n == methods@.len(),
            views == methods@.map_values(|s: &str| s@),
            views == payment_methods(),
            forall|k: int| 0 <= k < i ==> views[k] != m@,
    {
        if same_text(methods[i], m) {
            assert(views[i as int] == m@);
            return true;
        }
    }
    assert forall|k: int| 0 <= k < views.len() implies views[k] != m@ by {}
    false
}

impl Config {
    /// Checks the configuration's rules in order and reports the first one
    /// that fails.
    pub fn validate(&self) -> (r: Result<(), AppError>)
        ensures
            crate::error::unit_result_view(r) == validation(*self),
    {
        if self.target.url.as_str().is_empty() {
            return Err(AppError::Config(String::from_str("target.url cannot be empty")));
        }
        if !contains_text(self.target.url.as_str(), "tiket.com") {
            return Err(AppError::Config(String::from_str("target.url must be a tiket.com URL")));
        }
        if self.target.quantity == 0 {
            return Err(AppError::Config(String::from_str("target.quantity must be > 0")));
        }
        if self.buyer.name.as_str().is_empty() {
            return Err(AppError::Config(String::from_str("buyer.name cannot be empty")));
        }
        if self.buyer.email.as_str().is_empty() || !contains_char(self.buyer.email.as_str(), '@') {
            return Err(AppError::Config(String::from_str("buyer.email must be a valid email")));
        }
        if self.buyer.phone.as_str().is_empty() {
            return Err(AppError::Config(String::from_str("buyer.phone cannot be empty")));
        }
        if self.monitor.poll_interval_ms < MIN_POLL_INTERVAL_MS {
            return Err(
                AppError::Config(String::from_str("monitor.poll_interval_ms minimum is 50")),
            );
        }
        if self.telegram.enabled {
            if self.telegram.bot_token.as_str().is_empty() || same_text(
                self.telegram.bot_token.as_str(),
                BOT_TOKEN_PLACEHOLDER,
            ) {
                return Err(
                    AppError::Config(
                        String::from_str("telegram.bot_token must be set when telegram is enabled"),
                    ),
                );
            }
            if self.telegram.chat_id.as_str().is_empty() || same_text(
                self.telegram.chat_id.as_str(),
                CHAT_ID_PLACEHOLDER,
            ) {
                return Err(
                    AppError::Config(
                        String::from_str("telegram.chat_id must be set when telegram is enabled"),
                    ),
                );
            }
        }
        if !is_accepted_payment_method(self.payment.method.as_str()) {
            let methods = accepted_payment_methods();
            let mut m = String::from_str("payment.method must be one of: ");
            let listed = join_texts(&methods, ", ");
            m.append(listed.as_str());
            return Err(AppError::Config(m));
        }
        Ok(())
    }

    /// Builds the script that fills all buyer fields in one evaluation.
    pub fn build_autofill_js(&self) -> (r: String)
        ensures
            r@ == autofill_script(*self),
    {
        let mut r = String::from_str(AUTOFILL_HEAD);
        append_escaped(&mut r, self.selectors.name_input.as_str());
        r.append(AUTOFILL_ARG_SEP);
        append_escaped(&mut r, self.buyer.name.as_str());
        r.append(AUTOFILL_NEXT_SET);
        append_escaped(&mut r, self.selectors.email_input.as_str());
        r.append(AUTOFILL_ARG_SEP);
        append_escaped(&mut r, self.buyer.email.as_str());
        r.append(AUTOFILL_NEXT_SET);
        append_escaped(&mut r, self.selectors.phone_input.as_str());
        r.append(AUTOFILL_ARG_SEP);
        append_escaped(&mut r, self.buyer.phone.as_str());
        r.append(AUTOFILL_NEXT_SET);
        append_escaped(&mut r, self.selectors.id_input.as_str());
        r.append(AUTOFILL_ARG_SEP);
        append_escaped(&mut r, self.buyer.id_number.as_str());
        r.append(AUTOFILL_TAIL);
        assert(r@ =~= autofill_script(*self));
        r
    }
}

/// A configuration passes validation exactly when it obeys every rule.
pub proof fn lemma_validation_accepts_exactly_usable(c: Config)
    ensures
        validation(c) is Ok <==> is_usable(c),
{
}

} // verus!
