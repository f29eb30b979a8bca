//! Health-check records for the setup doctor, and the checks that are pure
//! functions of the configuration. Checks that reach the network, the file
//! system or the search collaborator run at the edge and only their verdicts
//! are recorded here.
use vstd::prelude::*;

verus! {

use crate::config::Config;

pub enum CheckStatus {
    Pass,
    Warning,
    Error,
}

/// One line of the doctor's report.
pub struct CheckResult {
    pub name: String,
    pub status: CheckStatus,
    pub message: String,
}

impl CheckResult {
    pub fn ok(name: &str, message: &str) -> (r: CheckResult)
        ensures
            r.name@ == name@,
            r.status is Pass,
            r.message@ == message@,
    {
        CheckResult {
            name: String::from_str(name),
            status: CheckStatus::Pass,
            message: String::from_str(message),
        }
    }

    pub fn warning(name: &str, message: &str) -> (r: CheckResult)
        ensures
            r.name@ == name@,
            r.status is Warning,
            r.message@ == message@,
    {
        CheckResult {
            name: String::from_str(name),
            status: CheckStatus::Warning,
            message: String::from_str(message),
        }
    }

    pub fn error(name: &str, message: &str) -> (r: CheckResult)
        ensures
            r.name@ == name@,
            r.status is Error,
            r.message@ == message@,
    {
        CheckResult {
            name: String::from_str(name),
            status: CheckStatus::Error,
            message: String::from_str(message),
        }
    }

    /// The mark drawn next to the check.
    pub fn icon(&self) -> (r: &'static str)
        ensures
            self.status is Pass ==> r@ == "✓"@,
            self.status is Warning ==> r@ == "⚠"@,
            self.status is Error ==> r@ == "✗"@,
    {
        match self.status {
            CheckStatus::Pass => "✓",
            CheckStatus::Warning => "⚠",
            CheckStatus::Error => "✗",
        }
    }

    /// The terminal colour code for the check: green, yellow or red.
    pub fn color(&self) -> (r: &'static str)
        ensures
            self.status is Pass ==> r@ == "\u{1b}[32m"@,
            self.status is Warning ==> r@ == "\u{1b}[33m"@,
            self.status is Error ==> r@ == "\u{1b}[31m"@,
    {
        match self.status {
            CheckStatus::Pass => "\u{1b}[32m",
            CheckStatus::Warning => "\u{1b}[33m",
            CheckStatus::Error => "\u{1b}[31m",
        }
    }
}

/// The desktop-presence extension check: enabled with an application
/// identifier passes; enabled without one still passes, with a note.
pub fn check_discord(config: &Config) -> (r: CheckResult)
    ensures
        r.status is Pass,
        r.name@ == "Discord"@,
        config.extensions.discord.app_id is Some ==> r.message@ == "Extension enabled with app ID"@,
        config.extensions.discord.app_id is None ==> r.message@
            == "Enabled but no app_id configured"@,
{
    if config.extensions.discord.app_id.is_some() {
        CheckResult::ok("Discord", "Extension enabled with app ID")
    } else {
        CheckResult::ok("Discord", "Enabled but no app_id configured")
    }
}

/// The watch-history sync check: needs a client identifier, works best with
/// an access token.
pub fn check_trakt(config: &Config) -> (r: CheckResult)
    ensures
        r.name@ == "Trakt"@,
        config.extensions.trakt.client_id is None ==> r.status is Error,
        config.extensions.trakt.client_id is Some && config.extensions.trakt.access_token is None
            ==> r.status is Warning,
        config.extensions.trakt.client_id is Some && config.extensions.trakt.access_token is Some
            ==> r.status is Pass,
{
    if config.extensions.trakt.client_id.is_none() {
        return CheckResult::error("Trakt", "Enabled but no client_id configured");
    }
    if config.extensions.trakt.access_token.is_none() {
        return CheckResult::warning("Trakt", "No access_token - run auth flow to enable scrobbling");
    }
    CheckResult::ok("Trakt", "Configured with access token")
}

} // verus!
