use std::sync::Arc;

use tiket_war_bot::checkout::{
    advance, captcha_step, first_step, step_label, CaptchaAction, CheckoutAction, CheckoutStep,
    CONFIRM_JS,
};
use tiket_war_bot::config::{
    BrowserConfig, BuyerConfig, Config, MonitorConfig, PaymentConfig, SelectorsConfig,
    SpeedConfig, TargetConfig, TelegramConfig,
};
use tiket_war_bot::error::AppError;
use tiket_war_bot::monitor::{
    clock_text, countdown_step, ClockInstant, CountdownAction, Monitor, PollOutcome,
    WatchAction, WatchState,
};
use tiket_war_bot::notification::{
    after_attempt, message_payload, telegram_url, DeliveryOutcome, Notifier, RetryAction,
};

fn config_with(start: &str, pre_warm: u64) -> Config {
    Config {
        target: TargetConfig {
            url: "https://www.tiket.com/x".to_string(),
            ticket_category: "A".to_string(),
            quantity: 1,
            max_price: 1,
        },
        buyer: BuyerConfig {
            name: "N".to_string(),
            email: "a@b".to_string(),
            phone: "1".to_string(),
            id_number: "2".to_string(),
        },
        payment: PaymentConfig { method: "credit_card".to_string() },
        monitor: MonitorConfig {
            poll_interval_ms: 100,
            start_time: start.to_string(),
            pre_warm_seconds: pre_warm,
        },
        browser: BrowserConfig { chrome_path: None, headless: false, user_data_dir: None },
        telegram: TelegramConfig {
            enabled: true,
            bot_token: "123:ABC".to_string(),
            chat_id: "-10042".to_string(),
        },
        speed: SpeedConfig { parallel_tabs: 1, pre_connect: false },
        selectors: SelectorsConfig {
            buy_button: "b".to_string(),
            ticket_category_selector: "c".to_string(),
            quantity_input: "q".to_string(),
            name_input: "n".to_string(),
            email_input: "e".to_string(),
            phone_input: "p".to_string(),
            id_input: "i".to_string(),
            payment_virtual_account: "pb".to_string(),
            payment_credit_card: ".pay-card".to_string(),
            payment_gopay: "pq".to_string(),
            payment_bliblipay: ".pay-blibli".to_string(),
            submit_button: "s".to_string(),
            captcha_indicator: "cap".to_string(),
            success_indicator: "ok".to_string(),
        },
    }
}

#[test]
fn countdown_splits_remaining_time() {
    assert_eq!(
        countdown_step(3725, 30),
        CountdownAction::Tick { hours: 1, minutes: 2, seconds: 5, pre_warm_banner: false }
    );
    assert_eq!(
        countdown_step(30, 30),
        CountdownAction::Tick { hours: 0, minutes: 0, seconds: 30, pre_warm_banner: true }
    );
    assert_eq!(countdown_step(0, 30), CountdownAction::WarTime);
    assert_eq!(countdown_step(-5, 30), CountdownAction::WarTime);
}

#[test]
fn countdown_reads_huge_pre_warm_as_signed() {
    // u64::MAX read as i64 is -1: never equal to a positive count.
    assert_eq!(
        countdown_step(1, u64::MAX),
        CountdownAction::Tick { hours: 0, minutes: 0, seconds: 1, pre_warm_banner: false }
    );
}

#[test]
fn clock_text_is_zero_padded() {
    assert_eq!(clock_text(1, 2, 5), "01:02:05");
    assert_eq!(clock_text(123, 59, 0), "123:59:00");
    assert_eq!(clock_text(0, 0, 9), format!("{:02}:{:02}:{:02}", 0, 0, 9));
}

#[test]
fn start_time_is_parsed() {
    let c = Arc::new(config_with("2025-01-01T10:00:00+07:00", 30));
    let n = Arc::new(Notifier::new(&c.telegram));
    let m = Monitor::new(c, n);
    let start = m.start_time().ok().unwrap();
    assert_eq!(start, ClockInstant { secs: 1_735_700_400, nanos: 0 });
    let now = ClockInstant { secs: 1_735_700_400 - 3725, nanos: 250_000_000 };
    assert_eq!(
        m.countdown(start, now),
        Some(CountdownAction::Tick { hours: 1, minutes: 2, seconds: 4, pre_warm_banner: false })
    );
    let later = ClockInstant { secs: 1_735_700_401, nanos: 0 };
    assert_eq!(m.countdown(start, later), Some(CountdownAction::WarTime));
}

#[test]
fn bad_start_time_is_a_monitor_error() {
    let c = Arc::new(config_with("tomorrow morning", 30));
    let n = Arc::new(Notifier::new(&c.telegram));
    let m = Monitor::new(c, n);
    match m.start_time() {
        Err(AppError::Monitor(msg)) => {
            let detail = chrono::DateTime::parse_from_rfc3339("tomorrow morning")
                .unwrap_err()
                .to_string();
            assert_eq!(msg, format!("Invalid start_time format: {}", detail));
        }
        _ => panic!("expected a monitor error"),
    }
}

#[test]
fn watch_counts_polls_and_detects() {
    let mut w = WatchState::new();
    for _ in 0..99 {
        match w.on_poll(PollOutcome::Unavailable) {
            WatchAction::KeepPolling { show_progress, .. } => assert!(!show_progress),
            _ => panic!("expected to keep polling"),
        }
    }
    assert_eq!(
        w.on_poll(PollOutcome::Unavailable),
        WatchAction::KeepPolling { attempt: 100, show_progress: true }
    );
    assert_eq!(w.on_poll(PollOutcome::Available), WatchAction::TicketDetected { attempt: 101 });
    assert_eq!(w.attempts(), 101);
}

#[test]
fn watch_reloads_on_every_fiftieth_failure() {
    let mut w = WatchState::new();
    for _ in 0..49 {
        w.on_poll(PollOutcome::Unavailable);
    }
    assert_eq!(w.on_poll(PollOutcome::Failed), WatchAction::Retry { attempt: 50, reload_page: true });
    assert_eq!(w.on_poll(PollOutcome::Failed), WatchAction::Retry { attempt: 51, reload_page: false });
}

#[test]
fn checkout_steps_run_in_order() {
    let mut step = first_step();
    let mut seen = vec![step];
    let mut total_pause = 0u64;
    loop {
        match advance(step, Ok(())) {
            CheckoutAction::Continue { pause_ms, next } => {
                total_pause += pause_ms;
                step = next;
                seen.push(step);
            }
            CheckoutAction::Finished => break,
            CheckoutAction::Abort(_) => panic!("no step failed"),
        }
    }
    assert_eq!(
        seen,
        vec![
            CheckoutStep::ClickBuy,
            CheckoutStep::SelectTicket,
            CheckoutStep::SetQuantity,
            CheckoutStep::FillBuyer,
            CheckoutStep::HandleCaptcha,
            CheckoutStep::Submit,
            CheckoutStep::SelectPayment,
            CheckoutStep::Confirm,
            CheckoutStep::CheckResult,
        ]
    );
    assert_eq!(total_pause, 1700);
}

#[test]
fn checkout_pauses_follow_steps() {
    match advance(CheckoutStep::Submit, Ok(())) {
        CheckoutAction::Continue { pause_ms, next } => {
            assert_eq!(pause_ms, 500);
            assert_eq!(next, CheckoutStep::SelectPayment);
        }
        _ => panic!("expected to continue"),
    }
}

#[test]
fn failed_step_aborts_checkout() {
    match advance(CheckoutStep::SetQuantity, Err(AppError::Browser("JS eval failed: x".to_string()))) {
        CheckoutAction::Abort(AppError::Browser(m)) => assert_eq!(m, "JS eval failed: x"),
        _ => panic!("expected an abort"),
    }
}

#[test]
fn step_labels_are_numbered() {
    assert_eq!(step_label(CheckoutStep::ClickBuy), Some("[1/8]".to_string()));
    assert_eq!(step_label(CheckoutStep::Confirm), Some("[8/8]".to_string()));
    assert_eq!(step_label(CheckoutStep::CheckResult), None);
}

#[test]
fn captcha_waits_until_solved() {
    assert_eq!(captcha_step(true, false), CaptchaAction::Clear);
    assert_eq!(captcha_step(true, true), CaptchaAction::Alert);
    assert_eq!(captcha_step(false, true), CaptchaAction::Recheck);
    assert_eq!(captcha_step(false, false), CaptchaAction::Solved);
}

#[test]
fn confirm_script_looks_for_pay_buttons() {
    assert!(CONFIRM_JS.contains("text.includes('bayar')"));
    assert!(CONFIRM_JS.starts_with("(() => {\n            const btns"));
}

#[test]
fn telegram_request_is_built_when_enabled() {
    let c = config_with("2025-01-01T10:00:00+07:00", 30);
    let n = Notifier::new(&c.telegram);
    let req = n.request_for("Tiket \"A\" <b>siap</b>\n").unwrap();
    assert_eq!(req.url, "https://api.telegram.org/bot123:ABC/sendMessage");
    let mut map = serde_json::Map::new();
    map.insert("chat_id".to_string(), serde_json::Value::String("-10042".to_string()));
    map.insert(
        "text".to_string(),
        serde_json::Value::String("Tiket \"A\" <b>siap</b>\n".to_string()),
    );
    map.insert("parse_mode".to_string(), serde_json::Value::String("HTML".to_string()));
    let expected = serde_json::to_string(&serde_json::Value::Object(map)).unwrap();
    assert_eq!(req.body, expected);
}

#[test]
fn telegram_request_is_skipped_when_disabled() {
    let mut c = config_with("2025-01-01T10:00:00+07:00", 30);
    c.telegram.enabled = false;
    let n = Notifier::new(&c.telegram);
    assert!(!n.enabled());
    assert!(n.request_for("hello").is_none());
}

#[test]
fn payload_escapes_control_characters() {
    assert_eq!(
        message_payload("7", "a\u{1}b\\c\t"),
        "{\"chat_id\":\"7\",\"parse_mode\":\"HTML\",\"text\":\"a\\u0001b\\\\c\\t\"}"
    );
    assert_eq!(telegram_url("T"), "https://api.telegram.org/botT/sendMessage");
}

#[test]
fn retries_stop_on_delivery_or_exhaustion() {
    assert_eq!(after_attempt(0, 3, DeliveryOutcome::Delivered), RetryAction::Stop);
    assert_eq!(
        after_attempt(0, 3, DeliveryOutcome::Refused),
        RetryAction::PauseThenRetry { attempt: 1 }
    );
    assert_eq!(
        after_attempt(2, 3, DeliveryOutcome::Unreachable),
        RetryAction::PauseThenRetry { attempt: 3 }
    );
    assert_eq!(after_attempt(3, 3, DeliveryOutcome::Refused), RetryAction::Stop);
    assert_eq!(after_attempt(0, 0, DeliveryOutcome::Unreachable), RetryAction::Stop);
}

fn attempts_made(retries: u32, outcomes: &[DeliveryOutcome]) -> usize {
    let mut attempt: u32 = 0;
    let mut made = 0;
    loop {
        made += 1;
        match after_attempt(attempt, retries, outcomes[attempt as usize]) {
            RetryAction::Stop => return made,
            RetryAction::PauseThenRetry { attempt: next } => attempt = next,
        }
    }
}

#[test]
fn retries_make_at_most_retries_plus_one_attempts() {
    let (d, r, u) = (DeliveryOutcome::Delivered, DeliveryOutcome::Refused, DeliveryOutcome::Unreachable);
    assert_eq!(attempts_made(3, &[r, u, r, r]), 4);
    assert_eq!(attempts_made(3, &[r, d, r, r]), 2);
    assert_eq!(attempts_made(0, &[u]), 1);
    assert_eq!(attempts_made(5, &[d; 6]), 1);
}
