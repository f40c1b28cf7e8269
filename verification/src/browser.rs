//! Opening a product's page in the desktop's browser.

use vstd::prelude::*;
use vstd::string::StringExecFns;
use crate::error::{numbered, plain, ErrorLabel, NotifyError};
use crate::product::Product;

verus! {

/// The kind of operating system the notifier runs on.
#[derive(Debug, Clone, Copy, PartialEq, Eq, Structural)]
pub enum Platform {
    Windows,
    MacOs,
    Other,
}

/// A program to start, with its arguments.
#[derive(Debug, Clone, PartialEq, Eq)]
pub struct BrowserCommand {
    pub program: String,
    pub arguments: Vec<String>,
}

/// Whether a command line is the one that opens `page` on a platform.
pub open spec fn opens_page(command: &BrowserCommand, platform: Platform, page: Seq<char>) -> bool {
    match platform {
        Platform::Windows => {
            &&& command.program@ == "cmd"@
            &&& command.arguments@.len() == 3
            &&& command.arguments@[0]@ == "/C"@
            &&& command.arguments@[1]@ == "start"@
            &&& command.arguments@[2]@ == page
        },
        Platform::MacOs => {
            &&& command.program@ == "open"@
            &&& command.arguments@.len() == 1
            &&& command.arguments@[0]@ == page
        },
        Platform::Other => false,
    }
}

impl Product {
    /// The command that opens the product's page in a browser. On Windows
    /// and on macOS a product without a page gives `NoPage`; elsewhere there
    /// is nothing to run, and that is no failure.
    pub fn open_in_browser(&self, platform: Platform) -> (launch: Result<Option<BrowserCommand>, NotifyError>)
        ensures
            match launch {
                Ok(None) => platform == Platform::Other,
                Ok(Some(command)) => self@.details is Some && opens_page(
                    &command,
                    platform,
                    self@.details->Some_0.page,
                ),
                Err(e) => platform != Platform::Other && self@.details is None && e@ == plain(
                    ErrorLabel::NoPage,
                ),
            },
    {
        match platform {
            Platform::Other => Ok(None),
            Platform::Windows => match self.get_url() {
                Ok(url) => {
                    let mut arguments: Vec<String> = Vec::new();
                    arguments.push(String::from_str("/C"));
                    arguments.push(String::from_str("start"));
                    arguments.push(String::from_str(url));
                    Ok(Some(BrowserCommand { program: String::from_str("cmd"), arguments }))
                },
                Err(_) => Err(NotifyError::NoPage),
            },
            Platform::MacOs => match self.get_url() {
                Ok(url) => {
                    let mut arguments: Vec<String> = Vec::new();
                    arguments.push(String::from_str(url));
                    Ok(Some(BrowserCommand { program: String::from_str("open"), arguments }))
                },
                Err(_) => Err(NotifyError::NoPage),
            },
        }
    }
}

/// What the end of a launched command means: success, and the exit code 1
/// that a desktop's opener gives although the page did open, are in order;
/// any other end is a failure with its code, 0 where there is none.
pub fn command_outcome(success: bool, code: Option<i32>) -> (outcome: Result<(), NotifyError>)
    ensures
        match outcome {
            Ok(_) => success || code == Some(1i32),
            Err(e) => !success && code != Some(1i32) && e@ == numbered(
                ErrorLabel::CommandResult,
                match code {
                    Some(c) => c as int,
                    None => 0,
                },
            ),
        },
{
    let accepted = match code {
        Some(c) => c == 1,
        None => false,
    };
    if success || accepted {
        Ok(())
    } else {
        let reported: i32 = match code {
            Some(c) => c,
            None => 0,
        };
        Err(NotifyError::CommandResult(reported))
    }
}

} // verus!
