use tiket_war_bot::config::{
    BrowserConfig, BuyerConfig, Config, MonitorConfig, PaymentConfig, SelectorsConfig,
    SpeedConfig, TargetConfig, TelegramConfig,
};
use tiket_war_bot::error::AppError;

fn sample() -> Config {
    Config {
        target: TargetConfig {
            url: "https://www.tiket.com/to-do/konser-x".to_string(),
            ticket_category: "CAT 1".to_string(),
            quantity: 2,
            max_price: 1_500_000,
        },
        buyer: BuyerConfig {
            name: "Budi Santoso".to_string(),
            email: "budi@example.com".to_string(),
            phone: "081234567890".to_string(),
            id_number: "3171234567890001".to_string(),
        },
        payment: PaymentConfig { method: "gopay".to_string() },
        monitor: MonitorConfig {
            poll_interval_ms: 100,
            start_time: "2025-01-01T10:00:00+07:00".to_string(),
            pre_warm_seconds: 30,
        },
        browser: BrowserConfig { chrome_path: None, headless: false, user_data_dir: None },
        telegram: TelegramConfig {
            enabled: false,
            bot_token: "YOUR_BOT_TOKEN_HERE".to_string(),
            chat_id: "YOUR_CHAT_ID_HERE".to_string(),
        },
        speed: SpeedConfig { parallel_tabs: 1, pre_connect: true },
        selectors: SelectorsConfig {
            buy_button: "button.buy, a.buy".to_string(),
            ticket_category_selector: ".category".to_string(),
            quantity_input: "input[name='qty']".to_string(),
            name_input: "#name".to_string(),
            email_input: "#email".to_string(),
            phone_input: "#phone".to_string(),
            id_input: "#ktp".to_string(),
            payment_virtual_account: ".pay-bank".to_string(),
            payment_credit_card: ".pay-card".to_string(),
            payment_gopay: ".pay-gopay".to_string(),
            payment_bliblipay: ".pay-blibli".to_string(),
            submit_button: "#submit".to_string(),
            captcha_indicator: ".g-recaptcha, iframe[src*='captcha']".to_string(),
            success_indicator: ".success".to_string(),
        },
    }
}

fn config_error(c: &Config) -> String {
    match c.validate() {
        Err(AppError::Config(m)) => m,
        Err(e) => panic!("unexpected error kind: {}", e.message()),
        Ok(()) => panic!("expected a config error"),
    }
}

#[test]
fn sample_config_is_valid() {
    assert!(sample().validate().is_ok());
}

#[test]
fn empty_url_is_refused() {
    let mut c = sample();
    c.target.url = String::new();
    assert_eq!(config_error(&c), "target.url cannot be empty");
}

#[test]
fn foreign_url_is_refused() {
    let mut c = sample();
    c.target.url = "https://example.com/event".to_string();
    assert_eq!(config_error(&c), "target.url must be a tiket.com URL");
}

#[test]
fn zero_quantity_is_refused() {
    let mut c = sample();
    c.target.quantity = 0;
    assert_eq!(config_error(&c), "target.quantity must be > 0");
}

#[test]
fn empty_name_is_refused() {
    let mut c = sample();
    c.buyer.name = String::new();
    assert_eq!(config_error(&c), "buyer.name cannot be empty");
}

#[test]
fn email_without_at_is_refused() {
    let mut c = sample();
    c.buyer.email = "budi.example.com".to_string();
    assert_eq!(config_error(&c), "buyer.email must be a valid email");
    c.buyer.email = String::new();
    assert_eq!(config_error(&c), "buyer.email must be a valid email");
}

#[test]
fn empty_phone_is_refused() {
    let mut c = sample();
    c.buyer.phone = String::new();
    assert_eq!(config_error(&c), "buyer.phone cannot be empty");
}

#[test]
fn fast_polling_is_refused() {
    let mut c = sample();
    c.monitor.poll_interval_ms = 49;
    assert_eq!(config_error(&c), "monitor.poll_interval_ms minimum is 50");
    c.monitor.poll_interval_ms = 50;
    assert!(c.validate().is_ok());
}

#[test]
fn telegram_placeholders_are_refused_when_enabled() {
    let mut c = sample();
    c.telegram.enabled = true;
    assert_eq!(config_error(&c), "telegram.bot_token must be set when telegram is enabled");
    c.telegram.bot_token = "123:abc".to_string();
    assert_eq!(config_error(&c), "telegram.chat_id must be set when telegram is enabled");
    c.telegram.chat_id = String::new();
    assert_eq!(config_error(&c), "telegram.chat_id must be set when telegram is enabled");
    c.telegram.chat_id = "987654".to_string();
    assert!(c.validate().is_ok());
}

#[test]
fn unknown_payment_method_is_refused() {
    let mut c = sample();
    for bad in ["qris", "bank_transfer", "cash", "", "GOPAY"] {
        c.payment.method = bad.to_string();
        assert_eq!(
            config_error(&c),
            "payment.method must be one of: virtual_account, credit_card, gopay, bliblipay"
        );
    }
    for good in ["virtual_account", "credit_card", "gopay", "bliblipay"] {
        c.payment.method = good.to_string();
        assert!(c.validate().is_ok());
    }
}

#[test]
fn first_broken_rule_is_reported() {
    let mut c = sample();
    c.target.quantity = 0;
    c.buyer.phone = String::new();
    c.payment.method = "cash".to_string();
    assert_eq!(config_error(&c), "target.quantity must be > 0");
}

#[test]
fn config_error_message_reads_with_kind() {
    let mut c = sample();
    c.buyer.name = String::new();
    let e = c.validate().unwrap_err();
    assert_eq!(e.message(), "Config error: buyer.name cannot be empty");
}

#[test]
fn autofill_script_matches_template() {
    let mut c = sample();
    c.buyer.name = "O'Brien".to_string();
    let js = c.build_autofill_js();
    let expected = format!(
        r#"(() => {{
    const set = (sel, val) => {{
        const el = document.querySelector(sel);
        if(el) {{
            const nativeSetter = Object.getOwnPropertyDescriptor(window.HTMLInputElement.prototype, 'value').set;
            nativeSetter.call(el, val);
            el.dispatchEvent(new Event('input', {{bubbles:true}}));
            el.dispatchEvent(new Event('change', {{bubbles:true}}));
            el.dispatchEvent(new Event('blur', {{bubbles:true}}));
        }}
    }};
    set('{name_sel}', '{name}');
    set('{email_sel}', '{email}');
    set('{phone_sel}', '{phone}');
    set('{id_sel}', '{id_number}');
}})();"#,
        name_sel = "#name",
        name = "O\\'Brien",
        email_sel = "#email",
        email = "budi@example.com",
        phone_sel = "#phone",
        phone = "081234567890",
        id_sel = "#ktp",
        id_number = "3171234567890001",
    );
    assert_eq!(js, expected);
    assert!(js.contains("set('#name', 'O\\'Brien');"));
}

#[test]
fn autofill_script_escapes_selectors() {
    let mut c = sample();
    c.selectors.id_input = "input[name='ktp']".to_string();
    let js = c.build_autofill_js();
    assert!(js.contains("set('input[name=\\'ktp\\']', '3171234567890001');"));
}

#[test]
fn validation_passes_with_unicode_values() {
    let mut c = sample();
    c.buyer.name = "Siti Nurhaliza ✓".to_string();
    c.target.url = "https://tiket.com/é".to_string();
    assert!(c.validate().is_ok());
}

#[test]
fn autofill_length_grows_by_values_and_their_quotes() {
    let mut c = sample();
    c.buyer.name = "O'Brien 'Jr'".to_string();
    c.selectors.id_input = "input[name='ktp']".to_string();
    let values = [
        c.selectors.name_input.clone(),
        c.buyer.name.clone(),
        c.selectors.email_input.clone(),
        c.buyer.email.clone(),
        c.selectors.phone_input.clone(),
        c.buyer.phone.clone(),
        c.selectors.id_input.clone(),
        c.buyer.id_number.clone(),
    ];
    let mut empty = sample();
    empty.selectors.name_input = String::new();
    empty.buyer.name = String::new();
    empty.selectors.email_input = String::new();
    empty.buyer.email = String::new();
    empty.selectors.phone_input = String::new();
    empty.buyer.phone = String::new();
    empty.selectors.id_input = String::new();
    empty.buyer.id_number = String::new();
    let extra: usize = values.iter().map(|v| v.chars().count() + v.matches('\'').count()).sum();
    assert_eq!(
        c.build_autofill_js().chars().count(),
        empty.build_autofill_js().chars().count() + extra
    );
}
