//! The run's command-line options as plain values, and the validation of
//! the top-level parameters. Argument parsing itself lives outside the
//! library and hands over this struct.

use crate::text::has_substring;
use crate::text::contains_substring;
use vstd::prelude::*;

verus! {

/// The report rendering the user asked for.
#[derive(Debug, Clone, Copy, PartialEq, Eq, Structural)]
pub enum OutputFormat {
    Text,
    Json,
    Csv,
    Html,
}

impl OutputFormat {
    /// The format's command-line name.
    pub fn label(&self) -> (s: &'static str)
        ensures
            s@ == spec_format_label(*self),
    {
        match self {
            OutputFormat::Text => "text",
            OutputFormat::Json => "json",
            OutputFormat::Csv => "csv",
            OutputFormat::Html => "html",
        }
    }
}

/// The command-line name of each format.
pub open spec fn spec_format_label(f: OutputFormat) -> Seq<char> {
    match f {
        OutputFormat::Text => "text"@,
        OutputFormat::Json => "json"@,
        OutputFormat::Csv => "csv"@,
        OutputFormat::Html => "html"@,
    }
}

/// Every option of one run.
#[derive(Debug, Clone)]
pub struct Cli {
    pub username: Option<String>,
    pub file: Option<String>,
    pub variations: bool,
    pub scrape_emails: bool,
    pub rotate_ua: bool,
    pub rate_limit: Option<u64>,
    pub email: Option<String>,
    pub output: Option<String>,
    pub format: OutputFormat,
    pub proxy: Option<String>,
    pub tor: bool,
    pub timeout: u64,
    pub max_concurrent: usize,
    pub nsfw: bool,
    pub print_all: bool,
    pub print_found: bool,
    pub local: bool,
    pub site: Option<Vec<String>>,
    pub verbose: bool,
    pub list_sites: bool,
}

/// Why a run's parameters are refused.
#[derive(Debug, Clone, Copy, PartialEq, Eq, Structural)]
pub enum CliError {
    TimeoutOutOfRange,
    ConcurrencyOutOfRange,
    TorWithProxy,
    ConflictingTargets,
    MissingTarget,
    UsernameLength,
    EmailFormat,
}

impl CliError {
    /// The message printed for each refusal.
    pub fn message(&self) -> &'static str {
        match self {
            CliError::TimeoutOutOfRange => "Error: Timeout must be between 1 and 300 seconds.",
            CliError::ConcurrencyOutOfRange => "Error: Max concurrent must be between 1 and 100.",
            CliError::TorWithProxy => "Error: Cannot use both --tor and --proxy at the same time.",
            CliError::ConflictingTargets => "Error: Cannot use --username/--file and --email at the same time",
            CliError::MissingTarget => "Error: Please specify either --username, --file, or --email",
            CliError::UsernameLength => "Error: Username must be between 1 and 50 characters",
            CliError::EmailFormat => "Error: Invalid email format",
        }
    }
}

/// The first refusal a run's parameters earn, checked in a fixed order:
/// the timeout range, the concurrency range, the Tor/proxy conflict, a
/// username or file given together with an email, no target at all, a
/// username of zero or more than fifty characters, an email without `@`.
pub open spec fn spec_validate(c: Cli) -> Result<(), CliError> {
    if !(1 <= c.timeout <= 300) {
        Err(CliError::TimeoutOutOfRange)
    } else if !(1 <= c.max_concurrent <= 100) {
        Err(CliError::ConcurrencyOutOfRange)
    } else if c.tor && c.proxy is Some {
        Err(CliError::TorWithProxy)
    } else if (c.username is Some || c.file is Some) && c.email is Some {
        Err(CliError::ConflictingTargets)
    } else if c.username is None && c.file is None && c.email is None {
        Err(CliError::MissingTarget)
    } else if c.username matches Some(u) && (u@.len() == 0 || u@.len() > 50) {
        Err(CliError::UsernameLength)
    } else if c.email matches Some(e) && !has_substring(e@, "@"@) {
        Err(CliError::EmailFormat)
    } else {
        Ok(())
    }
}

impl Cli {
    /// Checks the run's parameters; the result names the first check that
    /// fails, if any.
    pub fn validate(&self) -> (r: Result<(), CliError>)
        ensures
            r == spec_validate(*self),
    {
        if self.timeout < 1 || self.timeout > 300 {
            return Err(CliError::TimeoutOutOfRange);
        }
        if self.max_concurrent < 1 || self.max_concurrent > 100 {
            return Err(CliError::ConcurrencyOutOfRange);
        }
        if self.tor && self.proxy.is_some() {
            return Err(CliError::TorWithProxy);
        }
        if (self.username.is_some() || self.file.is_some()) && self.email.is_some() {
            return Err(CliError::ConflictingTargets);
        }
        if self.username.is_none() && self.file.is_none() && self.email.is_none() {
            return Err(CliError::MissingTarget);
        }
        match &self.username {
            Some(u) => {
                let len = u.as_str().unicode_len();
                if len == 0 || len > 50 {
                    return Err(CliError::UsernameLength);
                }
            },
            None => {},
        }
        match &self.email {
            Some(e) => {
                if !contains_substring(e.as_str(), "@") {
                    return Err(CliError::EmailFormat);
                }
            },
            None => {},
        }
        Ok(())
    }
}

} // verus!
