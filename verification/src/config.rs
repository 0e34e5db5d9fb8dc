//! Settings, with the defaults used when no configuration file is given.
use vstd::prelude::*;

use crate::text::copy_str;

verus! {

/// Timing of the interface.
pub struct AppConfig {
    pub tick_rate_ms: u64,
    pub auto_refresh_minutes: u64,
}

/// Which subreddit to follow.
pub struct RedditConfig {
    pub subreddit: String,
    pub fetch_limit: u32,
    pub trusted_users: Vec<String>,
}

/// Where Scryfall is and how often it may be asked.
pub struct ScryfallConfig {
    pub api_url: String,
    pub rate_limit_ms: u64,
}

/// Filtering of posts and cards.  `min_authenticity_score` is in hundredths.
pub struct FilterConfig {
    pub min_authenticity_score: u8,
    pub dedup_hash_threshold: u32,
    pub hide_fake_by_default: bool,
}

/// Display options.
pub struct DisplayConfig {
    pub confidence_colors: bool,
    pub show_thumbnails: bool,
}

/// All settings.
pub struct Config {
    pub app: AppConfig,
    pub reddit: RedditConfig,
    pub scryfall: ScryfallConfig,
    pub filter: FilterConfig,
    pub display: DisplayConfig,
}

impl Default for AppConfig {
    /// A 250 ms tick and no automatic refresh.
    fn default() -> (r: Self)
        ensures
            r.tick_rate_ms == 250,
            r.auto_refresh_minutes == 0,
    {
        AppConfig { tick_rate_ms: 250, auto_refresh_minutes: 0 }
    }
}

impl Default for RedditConfig {
    /// r/magicTCG, 25 posts per fetch, no trusted users.
    fn default() -> (r: Self)
        ensures
            r.subreddit@ == "magicTCG"@,
            r.fetch_limit == 25,
            r.trusted_users@.len() == 0,
    {
        RedditConfig { subreddit: copy_str("magicTCG"), fetch_limit: 25, trusted_users: Vec::new() }
    }
}

impl Default for ScryfallConfig {
    /// The public API, 100 ms between requests.
    fn default() -> (r: Self)
        ensures
            r.api_url@ == "https://api.scryfall.com"@,
            r.rate_limit_ms == 100,
    {
        ScryfallConfig { api_url: copy_str("https://api.scryfall.com"), rate_limit_ms: 100 }
    }
}

impl Default for FilterConfig {
    /// Posts below 30 hundredths are dropped; fakes are hidden.
    fn default() -> (r: Self)
        ensures
            r.min_authenticity_score == 30,
            r.dedup_hash_threshold == 10,
            r.hide_fake_by_default,
    {
        FilterConfig { min_authenticity_score: 30, dedup_hash_threshold: 10, hide_fake_by_default: true }
    }
}

impl Default for DisplayConfig {
    /// Colored confidence levels, no thumbnails.
    fn default() -> (r: Self)
        ensures
            r.confidence_colors,
            !r.show_thumbnails,
    {
        DisplayConfig { confidence_colors: true, show_thumbnails: false }
    }
}

/// Every section holds its defaults.
pub open spec fn is_default_config(c: Config) -> bool {
    &&& c.app.tick_rate_ms == 250
    &&& c.app.auto_refresh_minutes == 0
    &&& c.reddit.subreddit@ == "magicTCG"@
    &&& c.reddit.fetch_limit == 25
    &&& c.reddit.trusted_users@.len() == 0
    &&& c.scryfall.api_url@ == "https://api.scryfall.com"@
    &&& c.scryfall.rate_limit_ms == 100
    &&& c.filter.min_authenticity_score == 30
    &&& c.filter.dedup_hash_threshold == 10
    &&& c.filter.hide_fake_by_default
    &&& c.display.confidence_colors
    &&& !c.display.show_thumbnails
}

impl Default for Config {
    /// Every section with its defaults.
    fn default() -> (r: Self)
        ensures
            is_default_config(r),
    {
        Config {
            app: AppConfig::default(),
            reddit: RedditConfig::default(),
            scryfall: ScryfallConfig::default(),
            filter: FilterConfig::default(),
            display: DisplayConfig::default(),
        }
    }
}

impl Config {
    /// The settings to run with: those read from the configuration file, or
    /// the defaults when it could not be read or parsed.  Never fails.
    pub fn or_default(loaded: Option<Config>) -> (r: Config)
        ensures
            match loaded {
                Some(c) => r == c,
                None => is_default_config(r),
            },
    {
        match loaded {
            Some(c) => c,
            None => Config::default(),
        }
    }
}

} // verus!
