//! Attribute keys that wallets and explorers agree on.

use vstd::prelude::*;

verus! {

pub const TWITTER: &'static str = "twitter";

pub const TELEGRAM: &'static str = "telegram";

pub const WEBSITE: &'static str = "website";

pub const DISCORD: &'static str = "discord";

pub const COINGECKO: &'static str = "coingecko";

pub const WHITEPAPER: &'static str = "whitepaper";

pub const AUDIT: &'static str = "audit";

pub const CATEGORY: &'static str = "category";

pub const TAGS: &'static str = "tags";

} // verus!
