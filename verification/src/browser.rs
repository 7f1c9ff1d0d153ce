//! How Chrome is started for the bot, and the small scripts and addresses
//! the browser layer uses.
use vstd::prelude::*;
use vstd::string::*;

use crate::config::{append_escaped, BrowserConfig, Config};
use crate::text::escape_quotes;

verus! {

/// The page that warms up the connection before the war starts.
pub const WARM_UP_URL: &'static str = "https://www.tiket.com";

/// The page a new tab opens on.
pub const BLANK_PAGE_URL: &'static str = "about:blank";

/// How long, in milliseconds, the warm-up page is given to load.
pub const WARM_UP_SETTLE_MS: u64 = 2000;

/// The flag that runs Chrome without a window.
pub const HEADLESS_ARG: &'static str = "--headless=new";

/// The prefix of the flag that names Chrome's profile directory.
pub const USER_DATA_DIR_PREFIX: &'static str = "--user-data-dir=";

pub const CLICK_HEAD: &'static str = "(() => { const el = document.querySelector('";

pub const CLICK_TAIL: &'static str = "'); if(el) { el.click(); return true; } return false; })()";

/// The flags Chrome always gets, in order.
pub open spec fn base_args() -> Seq<Seq<char>> {
    seq![
        "--no-first-run"@,
        "--no-default-browser-check"@,
        "--disable-extensions"@,
        "--disable-background-networking"@,
        "--disable-background-timer-throttling"@,
        "--disable-backgrounding-occluded-windows"@,
        "--disable-breakpad"@,
        "--disable-component-update"@,
        "--disable-default-apps"@,
        "--disable-dev-shm-usage"@,
        "--disable-hang-monitor"@,
        "--disable-ipc-flooding-protection"@,
        "--disable-popup-blocking"@,
        "--disable-prompt-on-repost"@,
        "--disable-renderer-backgrounding"@,
        "--disable-sync"@,
        "--disable-translate"@,
        "--metrics-recording-only"@,
        "--no-first-run"@,
        "--safebrowsing-disable-auto-update"@,
        "--password-store=basic"@,
        "--use-mock-keychain"@,
        "--enable-features=NetworkService,NetworkServiceInProcess"@,
        "--disable-features=TranslateUI"@,
    ]
}

/// A present, non-empty optional setting.
pub open spec fn given(o: Option<String>) -> bool {
    o matches Some(s) && s@.len() > 0
}

/// Every flag Chrome is started with: the base flags, then the headless flag
/// when asked for, then the profile directory when one is given.
pub open spec fn launch_args_of(b: BrowserConfig) -> Seq<Seq<char>> {
    base_args() + (if b.headless {
        seq![HEADLESS_ARG@]
    } else {
        Seq::empty()
    }) + (if given(b.user_data_dir) {
        seq![USER_DATA_DIR_PREFIX@ + b.user_data_dir->Some_0@]
    } else {
        Seq::empty()
    })
}

/// The script that clicks the element of `sel`, quote-escaped.
pub open spec fn click_script(sel: Seq<char>) -> Seq<char> {
    CLICK_HEAD@ + escape_quotes(sel) + CLICK_TAIL@
}

fn base_arg_list() -> (v: Vec<&'static str>)
    ensures
        v@.map_values(|s: &str| s@) == base_args(),
{
    let mut v: Vec<&'static str> = Vec::new();
    v.push("--no-first-run");
    v.push("--no-default-browser-check");
    v.push("--disable-extensions");
    v.push("--disable-background-networking");
    v.push("--disable-background-timer-throttling");
    v.push("--disable-backgrounding-occluded-windows");
    v.push("--disable-breakpad");
    v.push("--disable-component-update");
    v.push("--disable-default-apps");
    v.push("--disable-dev-shm-usage");
    v.push("--disable-hang-monitor");
    v.push("--disable-ipc-flooding-protection");
    v.push("--disable-popup-blocking");
    v.push("--disable-prompt-on-repost");
    v.push("--disable-renderer-backgrounding");
    v.push("--disable-sync");
    v.push("--disable-translate");
    v.push("--metrics-recording-only");
    v.push("--no-first-run");
    v.push("--safebrowsing-disable-auto-update");
    v.push("--password-store=basic");
    v.push("--use-mock-keychain");
    v.push("--enable-features=NetworkService,NetworkServiceInProcess");
    v.push("--disable-features=TranslateUI");
    assert(v@.map_values(|s: &str| s@) =~= base_args());
    v
}

/// The flags to start Chrome with for these browser settings.
pub fn launch_args(b: &BrowserConfig) -> (r: Vec<String>)
    ensures
        r@.map_values(|s: String| s@) == launch_args_of(*b),
{
    let base = base_arg_list();
    let mut r: Vec<String> = Vec::new();
    let n: usize = base.len();
    for i in 0..n
        invariant
            n == base@.len(),
            base@.map_values(|s: &str| s@) == base_args(),
            r@.map_values(|s: String| s@) == base_args().take(i as int),
    {
        let ghost before = r@;
        r.push(String::from_str(base[i]));
        assert(r@.map_values(|s: String| s@) =~= before.map_values(|s: String| s@).push(
            base@[i as int]@,
        ));
        assert(base_args().take(i + 1) =~= base_args().take(i as int).push(base_args()[i as int]));
    }
    assert(base_args().take(n as int) =~= base_args());
    let ghost after_base = r@;
    if b.headless {
        r.push(String::from_str(HEADLESS_ARG));
    }
    let ghost after_headless = r@;
    assert(after_headless.map_values(|s: String| s@) =~= base_args() + (if b.headless {
        seq![HEADLESS_ARG@]
    } else {
        Seq::empty()
    })) by {
        if b.headless {
            assert(after_headless.map_values(|s: String| s@) =~= after_base.map_values(
                |s: String| s@,
            ).push(HEADLESS_ARG@));
        }
    }
    match &b.user_data_dir {
        Some(dir) => {
            if !dir.as_str().is_empty() {
                let mut flag = String::from_str(USER_DATA_DIR_PREFIX);
                flag.append(dir.as_str());
                r.push(flag);
                assert(r@.map_values(|s: String| s@) =~= after_headless.map_values(
                    |s: String| s@,
                ).push(USER_DATA_DIR_PREFIX@ + dir@));
            }
        },
        None => {},
    }
    assert(r@.map_values(|s: String| s@) =~= launch_args_of(*b));
    r
}

/// The Chrome executable to start, when a non-empty path is configured.
pub fn chrome_executable(b: &BrowserConfig) -> (r: Option<String>)
    ensures
        match r {
            Some(p) => given(b.chrome_path) && p@ == b.chrome_path->Some_0@,
            None => !given(b.chrome_path),
        },
{
    match &b.chrome_path {
        Some(p) => {
            if p.as_str().is_empty() {
                None
            } else {
                Some(p.clone())
            }
        },
        None => None,
    }
}

/// The script that clicks the element matching `selector`.
pub fn click_js(selector: &str) -> (r: String)
    ensures
        r@ == click_script(selector@),
{
    let mut r = String::from_str(CLICK_HEAD);
    append_escaped(&mut r, selector);
    r.append(CLICK_TAIL);
    r
}

/// The page the war is fought on.
pub fn target_url(config: &Config) -> (r: &str)
    ensures
        r@ == config.target.url@,
{
    config.target.url.as_str()
}

/// Chrome always gets the 24 base flags first; after them comes the
/// headless flag exactly when headless mode is asked for, and the profile flag
/// `--user-data-dir=<dir>` exactly when a non-empty profile directory is
/// given, whatever the headless setting is.
pub proof fn lemma_launch_flags(b: BrowserConfig)
    ensures
        launch_args_of(b).subrange(0, 24) == base_args(),
        launch_args_of(b).len() == 24 + (if b.headless {
            1int
        } else {
            0int
        }) + (if given(b.user_data_dir) {
            1int
        } else {
            0int
        }),
        b.headless ==> launch_args_of(b)[24] == HEADLESS_ARG@,
        given(b.user_data_dir) ==> launch_args_of(b).last() == USER_DATA_DIR_PREFIX@
            + b.user_data_dir->Some_0@,
        given(b.user_data_dir) ==> launch_args_of(b).contains(
            USER_DATA_DIR_PREFIX@ + b.user_data_dir->Some_0@,
        ),
{
    let a = launch_args_of(b);
    assert(a.subrange(0, 24) =~= base_args());
    if given(b.user_data_dir) {
        assert(a[a.len() - 1] == USER_DATA_DIR_PREFIX@ + b.user_data_dir->Some_0@);
    }
}

/// Two settings that differ only in headless mode get the same profile flag:
/// either both flag lists end with it or neither holds an extra flag for it.
pub proof fn lemma_profile_independent_of_headless(b1: BrowserConfig, b2: BrowserConfig)
    requires
        b1.user_data_dir == b2.user_data_dir,
    ensures
        given(b1.user_data_dir) ==> launch_args_of(b1).last() == launch_args_of(b2).last(),
        launch_args_of(b1).len() - (if b1.headless {
            1int
        } else {
            0int
        }) == launch_args_of(b2).len() - (if b2.headless {
            1int
        } else {
            0int
        }),
{
    lemma_launch_flags(b1);
    lemma_launch_flags(b2);
}

} // verus!
