//! The form-filling scripts that checkout runs in the page, and how their
//! answers are read.
use std::sync::Arc;
use vstd::prelude::*;
use vstd::string::*;

use crate::config::{append_escaped, autofill_script, validation, Config};
use crate::error::{AppError, ErrorView};
use crate::text::{contains_text, decimal, decimal_text, escape_quotes, has_infix, same_text};

verus! {

pub const TICKET_HEAD: &'static str = "(() => {\n                const containers = document.querySelectorAll('";

pub const TICKET_MID: &'static str = "');\n                for (const el of containers) {\n                    if (el.textContent.includes('";

pub const TICKET_TAIL: &'static str = "')) {\n                        el.click();\n                        return true;\n                    }\n                }\n                // Fallback: click first available\n                if (containers.length > 0) {\n                    containers[0].click();\n                    return 'fallback';\n                }\n                return false;\n            })()";

pub const QUANTITY_HEAD: &'static str = "(() => {\n                const el = document.querySelector('";

pub const QUANTITY_MID: &'static str = "');\n                if (el) {\n                    if (el.tagName === 'SELECT') {\n                        el.value = '";

pub const QUANTITY_SETTER: &'static str = "';\n                        el.dispatchEvent(new Event('change', {bubbles:true}));\n                    } else {\n                        const nativeSetter = Object.getOwnPropertyDescriptor(window.HTMLInputElement.prototype, 'value').set;\n                        nativeSetter.call(el, '";

pub const QUANTITY_TAIL: &'static str = "');\n                        el.dispatchEvent(new Event('input', {bubbles:true}));\n                        el.dispatchEvent(new Event('change', {bubbles:true}));\n                    }\n                    return true;\n                }\n                return false;\n            })()";

pub const SELECTOR_LIST_HEAD: &'static str = "(() => {\n                const selectors = '";

pub const PAYMENT_TAIL: &'static str = "'.split(', ');\n                for (const s of selectors) {\n                    const el = document.querySelector(s.trim());\n                    if (el) {\n                        el.click();\n                        return true;\n                    }\n                }\n                return false;\n            })()";

/// The script that clicks the first element of `sel` whose text includes
/// `cat`, else the first element of `sel`; values quote-escaped.
pub open spec fn ticket_script(sel: Seq<char>, cat: Seq<char>) -> Seq<char> {
    TICKET_HEAD@ + escape_quotes(sel) + TICKET_MID@ + escape_quotes(cat) + TICKET_TAIL@
}

/// The script that writes the quantity `qty` into the element of `sel`.
pub open spec fn quantity_script(sel: Seq<char>, qty: nat) -> Seq<char> {
    QUANTITY_HEAD@ + escape_quotes(sel) + QUANTITY_MID@ + decimal(qty) + QUANTITY_SETTER@
        + decimal(qty) + QUANTITY_TAIL@
}

/// The script that clicks the first present element among the
/// comma-separated selectors `sel`.
pub open spec fn payment_script(sel: Seq<char>) -> Seq<char> {
    SELECTOR_LIST_HEAD@ + escape_quotes(sel) + PAYMENT_TAIL@
}

/// The selector of the configured payment method, or the checkout error
/// naming a method that checkout does not know.
pub open spec fn payment_selection(c: Config) -> Result<Seq<char>, ErrorView> {
    if c.payment.method@ == "virtual_account"@ {
        Ok(c.selectors.payment_virtual_account@)
    } else if c.payment.method@ == "credit_card"@ {
        Ok(c.selectors.payment_credit_card@)
    } else if c.payment.method@ == "gopay"@ {
        Ok(c.selectors.payment_gopay@)
    } else if c.payment.method@ == "bliblipay"@ {
        Ok(c.selectors.payment_bliblipay@)
    } else {
        Err(ErrorView::Checkout("Unknown payment method: "@ + c.payment.method@))
    }
}

/// How the page answered the ticket-selection script.
#[derive(Debug, Clone, Copy, PartialEq, Eq, Structural)]
pub enum TicketPick {
    /// No element of the category selector was present.
    NotFound,
    /// No element mentioned the category; the first one was clicked.
    Fallback,
    /// An element mentioning the category was clicked.
    Selected,
}

/// The reading of the selection script's answer text: one that mentions
/// `false` means nothing was found, else one that mentions `fallback` means
/// the first element was taken.
pub open spec fn ticket_pick_of(answer: Seq<char>) -> TicketPick {
    if has_infix(answer, "false"@) {
        TicketPick::NotFound
    } else if has_infix(answer, "fallback"@) {
        TicketPick::Fallback
    } else {
        TicketPick::Selected
    }
}

/// Reads the answer of the ticket-selection script.
pub fn read_ticket_pick(answer: &str) -> (r: TicketPick)
    ensures
        r == ticket_pick_of(answer@),
{
    if contains_text(answer, "false") {
        TicketPick::NotFound
    } else if contains_text(answer, "fallback") {
        TicketPick::Fallback
    } else {
        TicketPick::Selected
    }
}

/// Reads the answer of the payment script: whether a payment element was clicked.
pub fn read_payment_clicked(answer: &str) -> (r: bool)
    ensures
        r == !has_infix(answer@, "false"@),
{
    !contains_text(answer, "false")
}

/// The form filler: the settings it works from and the autofill script,
/// built once when it is made.
pub struct AutoFill {
    config: Arc<Config>,
    fill_js: String,
}

impl AutoFill {
    #[verifier::type_invariant]
    spec fn script_matches_settings(self) -> bool {
        self.fill_js@ == autofill_script(*self.config)
    }

    /// The settings this filler works from.
    pub closed spec fn settings(self) -> Config {
        *self.config
    }

    /// Builds the filler and its autofill script from the settings.
    pub fn new(config: Arc<Config>) -> (r: Self)
        ensures
            r.settings() == *config,
    {
        let fill_js = config.build_autofill_js();
        AutoFill { config, fill_js }
    }

    /// The settings this filler works from.
    pub fn config(&self) -> (r: &Config)
        ensures
            *r == self.settings(),
    {
        &self.config
    }

    /// The prebuilt script that fills all buyer fields at once.
    pub fn fill_js(&self) -> (r: &str)
        ensures
            r@ == autofill_script(self.settings()),
    {
        proof {
            use_type_invariant(self);
        }
        self.fill_js.as_str()
    }

    /// The script that picks the configured ticket category.
    pub fn select_ticket_js(&self) -> (r: String)
        ensures
            r@ == ticket_script(
                self.settings().selectors.ticket_category_selector@,
                self.settings().target.ticket_category@,
            ),
    {
        let mut r = String::from_str(TICKET_HEAD);
        append_escaped(&mut r, self.config.selectors.ticket_category_selector.as_str());
        r.append(TICKET_MID);
        append_escaped(&mut r, self.config.target.ticket_category.as_str());
        r.append(TICKET_TAIL);
        r
    }

    /// The script that sets the configured ticket quantity.
    pub fn set_quantity_js(&self) -> (r: String)
        ensures
            r@ == quantity_script(
                self.settings().selectors.quantity_input@,
                self.settings().target.quantity as nat,
            ),
    {
        let qty = decimal_text(self.config.target.quantity as u64);
        let mut r = String::from_str(QUANTITY_HEAD);
        append_escaped(&mut r, self.config.selectors.quantity_input.as_str());
        r.append(QUANTITY_MID);
        r.append(qty.as_str());
        r.append(QUANTITY_SETTER);
        r.append(qty.as_str());
        r.append(QUANTITY_TAIL);
        r
    }

    /// The selector of the configured payment method.
    pub fn payment_selector(&self) -> (r: Result<String, AppError>)
        ensures
            match r {
                Ok(s) => payment_selection(self.settings()) == Ok::<Seq<char>, ErrorView>(s@),
                Err(e) => payment_selection(self.settings()) == Err::<Seq<char>, ErrorView>(e@),
            },
    {
        let method = self.config.payment.method.as_str();
        if same_text(method, "virtual_account") {
            Ok(self.config.selectors.payment_virtual_account.clone())
        } else if same_text(method, "credit_card") {
            Ok(self.config.selectors.payment_credit_card.clone())
        } else if same_text(method, "gopay") {
            Ok(self.config.selectors.payment_gopay.clone())
        } else if same_text(method, "bliblipay") {
            Ok(self.config.selectors.payment_bliblipay.clone())
        } else {
            let mut m = String::from_str("Unknown payment method: ");
            m.append(method);
            Err(AppError::Checkout(m))
        }
    }

    /// The script that clicks the configured payment method, or the error of
    /// an unknown method.
    pub fn select_payment_js(&self) -> (r: Result<String, AppError>)
        ensures
            match r {
                Ok(s) => payment_selection(self.settings()) is Ok && s@ == payment_script(
                    payment_selection(self.settings())->Ok_0,
                ),
                Err(e) => payment_selection(self.settings()) == Err::<Seq<char>, ErrorView>(e@),
            },
    {
        match self.payment_selector() {
            Ok(sel) => {
                let mut r = String::from_str(SELECTOR_LIST_HEAD);
                append_escaped(&mut r, sel.as_str());
                r.append(PAYMENT_TAIL);
                Ok(r)
            },
            Err(e) => Err(e),
        }
    }
}

/// A configuration that passes validation always has a payment selector:
/// checkout never stops on an unknown payment method.
pub proof fn lemma_valid_config_selects_payment(c: Config)
    requires
        validation(c) is Ok,
    ensures
        payment_selection(c) is Ok,
{
    assert(crate::config::payment_methods()[0] == "virtual_account"@);
    assert(crate::config::payment_methods()[1] == "credit_card"@);
    assert(crate::config::payment_methods()[2] == "gopay"@);
    assert(crate::config::payment_methods()[3] == "bliblipay"@);
}

} // verus!
