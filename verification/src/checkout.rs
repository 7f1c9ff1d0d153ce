//! The checkout sequence: its steps in order, the pauses between them, the
//! CAPTCHA wait, and the scripts the steps run.
use std::sync::Arc;
use vstd::prelude::*;
use vstd::string::*;

use crate::autofill::{AutoFill, SELECTOR_LIST_HEAD};
use crate::browser::{click_js, click_script};
use crate::config::{append_escaped, share, Config};
use crate::error::{AppError, ErrorView};
use crate::notification::Notifier;
use crate::text::{decimal, decimal_text, escape_quotes};

verus! {

/// The number of numbered steps that checkout announces.
pub const NUMBERED_STEPS: u64 = 8;

/// The pause, in milliseconds, between two CAPTCHA checks.
pub const CAPTCHA_RECHECK_MS: u64 = 500;

/// The wait, in milliseconds, before the result of checkout is read.
pub const RESULT_SETTLE_MS: u64 = 3000;

pub const CAPTCHA_MESSAGE: &'static str = "⚠️ CAPTCHA DETECTED! Solve it NOW!";

pub const CHECKOUT_FAILED_MESSAGE: &'static str = "❌ Checkout may have failed — check browser!";

pub const CAPTCHA_TAIL: &'static str = "'.split(', ');\n                for (const s of selectors) {\n                    const el = document.querySelector(s.trim());\n                    if (el) return true;\n                }\n                return false;\n            })()";

pub const SUCCESS_TAIL: &'static str = "'.split(', ');\n                for (const s of selectors) {\n                    const el = document.querySelector(s.trim());\n                    if (el) return true;\n                }\n                // Also check page content\n                const body = document.body.innerText.toLowerCase();\n                return body.includes('berhasil') || body.includes('success') || body.includes('terima kasih');\n            })()";

/// The script that clicks the first button or link whose text mentions
/// paying, confirming or proceeding.
pub const CONFIRM_JS: &'static str = "(() => {\n            const btns = document.querySelectorAll('button, a');\n            for (const btn of btns) {\n                const text = btn.textContent.toLowerCase();\n                if (text.includes('bayar') || text.includes('confirm') || text.includes('pay') || text.includes('proceed')) {\n                    btn.click();\n                    return true;\n                }\n            }\n            return false;\n        })()";

/// The script that tells whether some element among the comma-separated
/// CAPTCHA selectors `sel` is present.
pub open spec fn captcha_script(sel: Seq<char>) -> Seq<char> {
    SELECTOR_LIST_HEAD@ + escape_quotes(sel) + CAPTCHA_TAIL@
}

/// The script that tells whether the purchase went through: a success
/// element among `sel` is present, or the page text says so.
pub open spec fn success_script(sel: Seq<char>) -> Seq<char> {
    SELECTOR_LIST_HEAD@ + escape_quotes(sel) + SUCCESS_TAIL@
}

/// One step of checkout.
#[derive(Debug, Clone, Copy, PartialEq, Eq, Structural)]
pub enum CheckoutStep {
    ClickBuy,
    SelectTicket,
    SetQuantity,
    FillBuyer,
    HandleCaptcha,
    Submit,
    SelectPayment,
    Confirm,
    CheckResult,
}

/// The position of a step in the sequence, from 0.
pub open spec fn step_index(s: CheckoutStep) -> nat {
    match s {
        CheckoutStep::ClickBuy => 0,
        CheckoutStep::SelectTicket => 1,
        CheckoutStep::SetQuantity => 2,
        CheckoutStep::FillBuyer => 3,
        CheckoutStep::HandleCaptcha => 4,
        CheckoutStep::Submit => 5,
        CheckoutStep::SelectPayment => 6,
        CheckoutStep::Confirm => 7,
        CheckoutStep::CheckResult => 8,
    }
}

/// The step that follows a finished step, if any.
pub open spec fn next_step_of(s: CheckoutStep) -> Option<CheckoutStep> {
    match s {
        CheckoutStep::ClickBuy => Some(CheckoutStep::SelectTicket),
        CheckoutStep::SelectTicket => Some(CheckoutStep::SetQuantity),
        CheckoutStep::SetQuantity => Some(CheckoutStep::FillBuyer),
        CheckoutStep::FillBuyer => Some(CheckoutStep::HandleCaptcha),
        CheckoutStep::HandleCaptcha => Some(CheckoutStep::Submit),
        CheckoutStep::Submit => Some(CheckoutStep::SelectPayment),
        CheckoutStep::SelectPayment => Some(CheckoutStep::Confirm),
        CheckoutStep::Confirm => Some(CheckoutStep::CheckResult),
        CheckoutStep::CheckResult => None,
    }
}

/// The pause, in milliseconds, after a step finishes and before the next one.
pub open spec fn pause_after_of(s: CheckoutStep) -> u64 {
    match s {
        CheckoutStep::ClickBuy => 300,
        CheckoutStep::SelectTicket => 200,
        CheckoutStep::SetQuantity => 200,
        CheckoutStep::FillBuyer => 200,
        CheckoutStep::HandleCaptcha => 0,
        CheckoutStep::Submit => 500,
        CheckoutStep::SelectPayment => 300,
        CheckoutStep::Confirm => 0,
        CheckoutStep::CheckResult => 0,
    }
}

/// The whole sequence, in the order it runs.
pub open spec fn checkout_sequence() -> Seq<CheckoutStep> {
    seq![
        CheckoutStep::ClickBuy,
        CheckoutStep::SelectTicket,
        CheckoutStep::SetQuantity,
        CheckoutStep::FillBuyer,
        CheckoutStep::HandleCaptcha,
        CheckoutStep::Submit,
        CheckoutStep::SelectPayment,
        CheckoutStep::Confirm,
        CheckoutStep::CheckResult,
    ]
}

/// The sum of the pauses after the first `k` steps of the sequence.
pub open spec fn pauses_through(k: nat) -> int
    decreases k,
{
    if k == 0 {
        0
    } else {
        pauses_through((k - 1) as nat) + pause_after_of(checkout_sequence()[k - 1])
    }
}

/// What checkout does after a step ends.
#[derive(Debug)]
pub enum CheckoutAction {
    /// Wait `pause_ms` milliseconds (none when 0), then run `next`.
    Continue { pause_ms: u64, next: CheckoutStep },
    /// Every step has run.
    Finished,
    /// The step failed: checkout stops with its error.
    Abort(AppError),
}

/// The decision after `step` ended with `outcome`.
pub open spec fn advance_of(step: CheckoutStep, outcome: Result<(), ErrorView>) -> Result<
    Option<(u64, CheckoutStep)>,
    ErrorView,
> {
    match outcome {
        Err(e) => Err(e),
        Ok(()) => match next_step_of(step) {
            Some(n) => Ok(Some((pause_after_of(step), n))),
            None => Ok(None),
        },
    }
}

/// The value of an action, in the shape of [`advance_of`].
pub open spec fn action_view(a: CheckoutAction) -> Result<Option<(u64, CheckoutStep)>, ErrorView> {
    match a {
        CheckoutAction::Continue { pause_ms, next } => Ok(Some((pause_ms, next))),
        CheckoutAction::Finished => Ok(None),
        CheckoutAction::Abort(e) => Err(e@),
    }
}

/// The step checkout starts with.
pub fn first_step() -> (r: CheckoutStep)
    ensures
        r == checkout_sequence()[0],
{
    CheckoutStep::ClickBuy
}

/// Decides what follows a step that ended with `outcome`.
pub fn advance(step: CheckoutStep, outcome: Result<(), AppError>) -> (r: CheckoutAction)
    ensures
        action_view(r) == advance_of(step, crate::error::unit_result_view(outcome)),
{
    match outcome {
        Err(e) => CheckoutAction::Abort(e),
        Ok(()) => {
            let (pause_ms, next) = match step {
                CheckoutStep::ClickBuy => (300, CheckoutStep::SelectTicket),
                CheckoutStep::SelectTicket => (200, CheckoutStep::SetQuantity),
                CheckoutStep::SetQuantity => (200, CheckoutStep::FillBuyer),
                CheckoutStep::FillBuyer => (200, CheckoutStep::HandleCaptcha),
                CheckoutStep::HandleCaptcha => (0, CheckoutStep::Submit),
                CheckoutStep::Submit => (500, CheckoutStep::SelectPayment),
                CheckoutStep::SelectPayment => (300, CheckoutStep::Confirm),
                CheckoutStep::Confirm => (0, CheckoutStep::CheckResult),
                CheckoutStep::CheckResult => {
                    return CheckoutAction::Finished;
                },
            };
            CheckoutAction::Continue { pause_ms, next }
        },
    }
}

/// The announced number of a step, `[k/8]`; the final result check has none.
pub open spec fn step_label_of(s: CheckoutStep) -> Option<Seq<char>> {
    if step_index(s) < NUMBERED_STEPS {
        Some(seq!['['] + decimal(step_index(s) + 1) + seq!['/'] + decimal(NUMBERED_STEPS as nat)
            + seq![']'])
    } else {
        None
    }
}

/// The announced number of a step, `[k/8]`.
pub fn step_label(step: CheckoutStep) -> (r: Option<String>)
    ensures
        match r {
            Some(l) => step_label_of(step) == Some(l@),
            None => step_label_of(step) is None,
        },
{
    let k: u64 = match step {
        CheckoutStep::ClickBuy => 1,
        CheckoutStep::SelectTicket => 2,
        CheckoutStep::SetQuantity => 3,
        CheckoutStep::FillBuyer => 4,
        CheckoutStep::HandleCaptcha => 5,
        CheckoutStep::Submit => 6,
        CheckoutStep::SelectPayment => 7,
        CheckoutStep::Confirm => 8,
        CheckoutStep::CheckResult => {
            return None;
        },
    };
    let mut l = String::new();
    crate::text::push_char(&mut l, '[');
    let num = decimal_text(k);
    l.append(num.as_str());
    crate::text::push_char(&mut l, '/');
    let total = decimal_text(NUMBERED_STEPS);
    l.append(total.as_str());
    crate::text::push_char(&mut l, ']');
    assert(l@ =~= seq!['['] + decimal(k as nat) + seq!['/'] + decimal(NUMBERED_STEPS as nat)
        + seq![']']);
    Some(l)
}

/// What the CAPTCHA step does after a check.
#[derive(Debug, Clone, Copy, PartialEq, Eq, Structural)]
pub enum CaptchaAction {
    /// No CAPTCHA at the first look: go on at once.
    Clear,
    /// A CAPTCHA at the first look: alert the user, then check again after
    /// [`CAPTCHA_RECHECK_MS`].
    Alert,
    /// Still there: check again after [`CAPTCHA_RECHECK_MS`].
    Recheck,
    /// Gone after the user solved it: go on.
    Solved,
}

/// The CAPTCHA decision for a check, the first one or a later one.
pub open spec fn captcha_step_of(first_check: bool, present: bool) -> CaptchaAction {
    if first_check {
        if present {
            CaptchaAction::Alert
        } else {
            CaptchaAction::Clear
        }
    } else if present {
        CaptchaAction::Recheck
    } else {
        CaptchaAction::Solved
    }
}

/// Decides what follows a CAPTCHA check.
pub fn captcha_step(first_check: bool, present: bool) -> (r: CaptchaAction)
    ensures
        r == captcha_step_of(first_check, present),
{
    if first_check {
        if present {
            CaptchaAction::Alert
        } else {
            CaptchaAction::Clear
        }
    } else if present {
        CaptchaAction::Recheck
    } else {
        CaptchaAction::Solved
    }
}

/// The checkout runner: its settings, its form filler and its notifier.
pub struct Checkout {
    config: Arc<Config>,
    autofill: AutoFill,
    notifier: Arc<Notifier>,
}

impl Checkout {
    /// The settings this checkout works from.
    pub closed spec fn settings(self) -> Config {
        *self.config
    }

    /// The notifier this checkout reports to.
    pub closed spec fn reporter(self) -> Notifier {
        *self.notifier
    }

    /// The form filler this checkout uses.
    pub closed spec fn filler(self) -> AutoFill {
        self.autofill
    }

    /// A checkout for the settings, with a form filler built from them.
    pub fn new(config: Arc<Config>, notifier: Arc<Notifier>) -> (r: Self)
        ensures
            r.settings() == *config,
            r.reporter() == *notifier,
            r.filler().settings() == *config,
    {
        let autofill = AutoFill::new(share(&config));
        Checkout { config, autofill, notifier }
    }

    /// The settings this checkout works from.
    pub fn config(&self) -> (r: &Config)
        ensures
            *r == self.settings(),
    {
        &self.config
    }

    /// The form filler this checkout uses.
    pub fn autofill(&self) -> (r: &AutoFill)
        ensures
            *r == self.filler(),
    {
        &self.autofill
    }

    /// The notifier this checkout reports to.
    pub fn notifier(&self) -> (r: &Notifier)
        ensures
            *r == self.reporter(),
    {
        &self.notifier
    }

    /// The script of step 1: click the buy button.
    pub fn buy_click_js(&self) -> (r: String)
        ensures
            r@ == click_script(self.settings().selectors.buy_button@),
    {
        click_js(self.config.selectors.buy_button.as_str())
    }

    /// The script of step 6: click the submit button.
    pub fn submit_click_js(&self) -> (r: String)
        ensures
            r@ == click_script(self.settings().selectors.submit_button@),
    {
        click_js(self.config.selectors.submit_button.as_str())
    }

    /// The script of step 5: is a CAPTCHA showing?
    pub fn captcha_js(&self) -> (r: String)
        ensures
            r@ == captcha_script(self.settings().selectors.captcha_indicator@),
    {
        let mut r = String::from_str(SELECTOR_LIST_HEAD);
        append_escaped(&mut r, self.config.selectors.captcha_indicator.as_str());
        r.append(CAPTCHA_TAIL);
        r
    }

    /// The script of the final check: did the purchase go through?
    pub fn success_js(&self) -> (r: String)
        ensures
            r@ == success_script(self.settings().selectors.success_indicator@),
    {
        let mut r = String::from_str(SELECTOR_LIST_HEAD);
        append_escaped(&mut r, self.config.selectors.success_indicator.as_str());
        r.append(SUCCESS_TAIL);
        r
    }
}

/// Checkout runs its nine steps in a fixed order, each once: it starts with
/// the buy click, each step that succeeds leads to the next one in the
/// sequence, and it finishes right after the result check.
pub proof fn lemma_steps_run_in_order()
    ensures
        checkout_sequence().len() == 9,
        forall|i: int| 0 <= i < 9 ==> step_index(#[trigger] checkout_sequence()[i]) == i,
        forall|i: int|
            0 <= i < 8 ==> advance_of(#[trigger] checkout_sequence()[i], Ok(())) == Ok::<
                Option<(u64, CheckoutStep)>,
                ErrorView,
            >(Some((pause_after_of(checkout_sequence()[i]), checkout_sequence()[i + 1]))),
        advance_of(checkout_sequence()[8], Ok(())) == Ok::<Option<(u64, CheckoutStep)>, ErrorView>(
            None,
        ),
{
    assert(checkout_sequence()[0] == CheckoutStep::ClickBuy);
}

/// A failed step stops checkout with that step's error; no later step runs.
pub proof fn lemma_failure_aborts(step: CheckoutStep, e: ErrorView)
    ensures
        advance_of(step, Err(e)) == Err::<Option<(u64, CheckoutStep)>, ErrorView>(e),
{
}

/// A checkout that runs to the end pauses 1.7 seconds in all between steps.
pub proof fn lemma_total_pause()
    ensures
        pauses_through(9) == 1700,
{
    let q = checkout_sequence();
    assert(pauses_through(0) == 0);
    assert(pauses_through(1) == 300) by {
        assert(q[0] == CheckoutStep::ClickBuy);
    }
    assert(pauses_through(2) == 500) by {
        assert(q[1] == CheckoutStep::SelectTicket);
    }
    assert(pauses_through(3) == 700) by {
        assert(q[2] == CheckoutStep::SetQuantity);
    }
    assert(pauses_through(4) == 900) by {
        assert(q[3] == CheckoutStep::FillBuyer);
    }
    assert(pauses_through(5) == 900) by {
        assert(q[4] == CheckoutStep::HandleCaptcha);
    }
    assert(pauses_through(6) == 1400) by {
        assert(q[5] == CheckoutStep::Submit);
    }
    assert(pauses_through(7) == 1700) by {
        assert(q[6] == CheckoutStep::SelectPayment);
    }
    assert(pauses_through(8) == 1700) by {
        assert(q[7] == CheckoutStep::Confirm);
    }
    assert(pauses_through(9) == 1700) by {
        assert(q[8] == CheckoutStep::CheckResult);
    }
}

/// Once a CAPTCHA is seen, checkout keeps waiting while it stays and goes
/// on as soon as it is gone; without one it goes on at once.
pub proof fn lemma_captcha_waits_until_gone(present: bool)
    ensures
        captcha_step_of(true, present) == (if present {
            CaptchaAction::Alert
        } else {
            CaptchaAction::Clear
        }),
        captcha_step_of(false, present) == (if present {
            CaptchaAction::Recheck
        } else {
            CaptchaAction::Solved
        }),
{
}

} // verus!
