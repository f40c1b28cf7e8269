//! What can go wrong in a polling cycle, as plain values.

use vstd::prelude::*;
use vstd::string::StringExecFns;

verus! {

/// The failures of the notifier. Failures that come from the network, the
/// mail server or the operating system carry the message or the number that
/// the program around the library read off them.
#[derive(Debug, PartialEq, Eq)]
pub enum NotifyError {
    TlsCreation,
    ImapConnection(String),
    ImapLogin,
    MailboxLoad,
    EmailFetch,
    TwilioSend(String),
    ConfigUpdate,
    ConfigLoad(String),
    ConfigParse(String),
    NoneCSSSelector,
    NonePage,
    WebRequestFailed(String),
    NoProductFound,
    HTMLParseFailed,
    NoPage,
    RateLimit,
    WebClient(u16),
    WebServer(u16),
    BadStatus(u16),
    PageDecompression(String),
    IOEncoding(String),
    ClientBuild,
    ProxyNotRunning,
    CommandErr(String),
    CommandResult(i32),
    FileIOError(String),
}

/// Which failure an error is, without what it carries.
#[derive(Debug, Clone, Copy, PartialEq, Eq, Structural)]
pub enum ErrorLabel {
    TlsCreation,
    ImapConnection,
    ImapLogin,
    MailboxLoad,
    EmailFetch,
    TwilioSend,
    ConfigUpdate,
    ConfigLoad,
    ConfigParse,
    NoneCSSSelector,
    NonePage,
    WebRequestFailed,
    NoProductFound,
    HTMLParseFailed,
    NoPage,
    RateLimit,
    WebClient,
    WebServer,
    BadStatus,
    PageDecompression,
    IOEncoding,
    ClientBuild,
    ProxyNotRunning,
    CommandErr,
    CommandResult,
    FileIOError,
}

/// What an error carries besides its label.
pub enum Payload {
    Nothing,
    Message(Seq<char>),
    Number(int),
}

/// The mathematical value of a `NotifyError`.
pub struct ErrorView {
    pub label: ErrorLabel,
    pub payload: Payload,
}

/// An error that carries nothing.
pub open spec fn plain(label: ErrorLabel) -> ErrorView {
    ErrorView { label, payload: Payload::Nothing }
}

/// An error that carries a message.
pub open spec fn worded(label: ErrorLabel, message: Seq<char>) -> ErrorView {
    ErrorView { label, payload: Payload::Message(message) }
}

/// An error that carries a status or an exit code.
pub open spec fn numbered(label: ErrorLabel, number: int) -> ErrorView {
    ErrorView { label, payload: Payload::Number(number) }
}

impl View for NotifyError {
    type V = ErrorView;

    open spec fn view(&self) -> ErrorView {
        match self {
            NotifyError::TlsCreation => plain(ErrorLabel::TlsCreation),
            NotifyError::ImapConnection(message) => worded(ErrorLabel::ImapConnection, message@),
            NotifyError::ImapLogin => plain(ErrorLabel::ImapLogin),
            NotifyError::MailboxLoad => plain(ErrorLabel::MailboxLoad),
            NotifyError::EmailFetch => plain(ErrorLabel::EmailFetch),
            NotifyError::TwilioSend(message) => worded(ErrorLabel::TwilioSend, message@),
            NotifyError::ConfigUpdate => plain(ErrorLabel::ConfigUpdate),
            NotifyError::ConfigLoad(message) => worded(ErrorLabel::ConfigLoad, message@),
            NotifyError::ConfigParse(message) => worded(ErrorLabel::ConfigParse, message@),
            NotifyError::NoneCSSSelector => plain(ErrorLabel::NoneCSSSelector),
            NotifyError::NonePage => plain(ErrorLabel::NonePage),
            NotifyError::WebRequestFailed(message) => worded(ErrorLabel::WebRequestFailed, message@),
            NotifyError::NoProductFound => plain(ErrorLabel::NoProductFound),
            NotifyError::HTMLParseFailed => plain(ErrorLabel::HTMLParseFailed),
            NotifyError::NoPage => plain(ErrorLabel::NoPage),
            NotifyError::RateLimit => plain(ErrorLabel::RateLimit),
            NotifyError::WebClient(number) => numbered(ErrorLabel::WebClient, *number as int),
            NotifyError::WebServer(number) => numbered(ErrorLabel::WebServer, *number as int),
            NotifyError::BadStatus(number) => numbered(ErrorLabel::BadStatus, *number as int),
            NotifyError::PageDecompression(message) => worded(ErrorLabel::PageDecompression, message@),
            NotifyError::IOEncoding(message) => worded(ErrorLabel::IOEncoding, message@),
            NotifyError::ClientBuild => plain(ErrorLabel::ClientBuild),
            NotifyError::ProxyNotRunning => plain(ErrorLabel::ProxyNotRunning),
            NotifyError::CommandErr(message) => worded(ErrorLabel::CommandErr, message@),
            NotifyError::CommandResult(number) => numbered(ErrorLabel::CommandResult, *number as int),
            NotifyError::FileIOError(message) => worded(ErrorLabel::FileIOError, message@),
        }
    }
}

impl Clone for NotifyError {
    fn clone(&self) -> (copy: Self)
        ensures
            copy@ == self@,
    {
        match self {
            NotifyError::TlsCreation => NotifyError::TlsCreation,
            NotifyError::ImapConnection(message) => NotifyError::ImapConnection(message.clone()),
            NotifyError::ImapLogin => NotifyError::ImapLogin,
            NotifyError::MailboxLoad => NotifyError::MailboxLoad,
            NotifyError::EmailFetch => NotifyError::EmailFetch,
            NotifyError::TwilioSend(message) => NotifyError::TwilioSend(message.clone()),
            NotifyError::ConfigUpdate => NotifyError::ConfigUpdate,
            NotifyError::ConfigLoad(message) => NotifyError::ConfigLoad(message.clone()),
            NotifyError::ConfigParse(message) => NotifyError::ConfigParse(message.clone()),
            NotifyError::NoneCSSSelector => NotifyError::NoneCSSSelector,
            NotifyError::NonePage => NotifyError::NonePage,
            NotifyError::WebRequestFailed(message) => NotifyError::WebRequestFailed(message.clone()),
            NotifyError::NoProductFound => NotifyError::NoProductFound,
            NotifyError::HTMLParseFailed => NotifyError::HTMLParseFailed,
            NotifyError::NoPage => NotifyError::NoPage,
            NotifyError::RateLimit => NotifyError::RateLimit,
            NotifyError::WebClient(number) => NotifyError::WebClient(*number),
            NotifyError::WebServer(number) => NotifyError::WebServer(*number),
            NotifyError::BadStatus(number) => NotifyError::BadStatus(*number),
            NotifyError::PageDecompression(message) => NotifyError::PageDecompression(message.clone()),
            NotifyError::IOEncoding(message) => NotifyError::IOEncoding(message.clone()),
            NotifyError::ClientBuild => NotifyError::ClientBuild,
            NotifyError::ProxyNotRunning => NotifyError::ProxyNotRunning,
            NotifyError::CommandErr(message) => NotifyError::CommandErr(message.clone()),
            NotifyError::CommandResult(number) => NotifyError::CommandResult(*number),
            NotifyError::FileIOError(message) => NotifyError::FileIOError(message.clone()),
        }
    }
}

/// The name under which a failure is reported.
pub open spec fn label_text(label: ErrorLabel) -> Seq<char> {
    match label {
        ErrorLabel::TlsCreation => "TlsCreation"@,
        ErrorLabel::ImapConnection => "ImapConnection"@,
        ErrorLabel::ImapLogin => "ImapLogin"@,
        ErrorLabel::MailboxLoad => "MailboxLoad"@,
        ErrorLabel::EmailFetch => "EmailFetch"@,
        ErrorLabel::TwilioSend => "TwilioSend"@,
        ErrorLabel::ConfigUpdate => "ConfigUpdate"@,
        ErrorLabel::ConfigLoad => "ConfigLoad"@,
        ErrorLabel::ConfigParse => "ConfigParse"@,
        ErrorLabel::NoneCSSSelector => "NoneCSSSelector"@,
        ErrorLabel::NonePage => "NonePage"@,
        ErrorLabel::WebRequestFailed => "WebRequestFailed"@,
        ErrorLabel::NoProductFound => "NoProductFound"@,
        ErrorLabel::HTMLParseFailed => "HTMLParseFailed"@,
        ErrorLabel::NoPage => "NoPage"@,
        ErrorLabel::RateLimit => "RateLimit"@,
        ErrorLabel::WebClient => "WebClient"@,
        ErrorLabel::WebServer => "WebServer"@,
        ErrorLabel::BadStatus => "BadStatus"@,
        ErrorLabel::PageDecompression => "PageDecompression"@,
        ErrorLabel::IOEncoding => "IOEncoding"@,
        ErrorLabel::ClientBuild => "ClientBuild"@,
        ErrorLabel::ProxyNotRunning => "ProxyNotRunning"@,
        ErrorLabel::CommandErr => "CommandErr"@,
        ErrorLabel::CommandResult => "CommandResult"@,
        ErrorLabel::FileIOError => "FileIOError"@,
    }
}

impl ErrorLabel {
    /// The name under which the failure is reported.
    pub fn name(self) -> (name: &'static str)
        ensures
            name@ == label_text(self),
    {
        match self {
            ErrorLabel::TlsCreation => "TlsCreation",
            ErrorLabel::ImapConnection => "ImapConnection",
            ErrorLabel::ImapLogin => "ImapLogin",
            ErrorLabel::MailboxLoad => "MailboxLoad",
            ErrorLabel::EmailFetch => "EmailFetch",
            ErrorLabel::TwilioSend => "TwilioSend",
            ErrorLabel::ConfigUpdate => "ConfigUpdate",
            ErrorLabel::ConfigLoad => "ConfigLoad",
            ErrorLabel::ConfigParse => "ConfigParse",
            ErrorLabel::NoneCSSSelector => "NoneCSSSelector",
            ErrorLabel::NonePage => "NonePage",
            ErrorLabel::WebRequestFailed => "WebRequestFailed",
            ErrorLabel::NoProductFound => "NoProductFound",
            ErrorLabel::HTMLParseFailed => "HTMLParseFailed",
            ErrorLabel::NoPage => "NoPage",
            ErrorLabel::RateLimit => "RateLimit",
            ErrorLabel::WebClient => "WebClient",
            ErrorLabel::WebServer => "WebServer",
            ErrorLabel::BadStatus => "BadStatus",
            ErrorLabel::PageDecompression => "PageDecompression",
            ErrorLabel::IOEncoding => "IOEncoding",
            ErrorLabel::ClientBuild => "ClientBuild",
            ErrorLabel::ProxyNotRunning => "ProxyNotRunning",
            ErrorLabel::CommandErr => "CommandErr",
            ErrorLabel::CommandResult => "CommandResult",
            ErrorLabel::FileIOError => "FileIOError",
        }
    }
}

/// The numeral of a digit.
pub open spec fn digit_text(digit: int) -> Seq<char> {
    if digit == 0 {
        "0"@
    } else if digit == 1 {
        "1"@
    } else if digit == 2 {
        "2"@
    } else if digit == 3 {
        "3"@
    } else if digit == 4 {
        "4"@
    } else if digit == 5 {
        "5"@
    } else if digit == 6 {
        "6"@
    } else if digit == 7 {
        "7"@
    } else if digit == 8 {
        "8"@
    } else {
        "9"@
    }
}

/// A natural number written in decimal, without leading zeros.
pub open spec fn decimal_text(number: nat) -> Seq<char>
    decreases number,
{
    if number < 10 {
        digit_text(number as int)
    } else {
        decimal_text(number / 10) + digit_text((number % 10) as int)
    }
}

/// An integer written in decimal, with a minus sign where it is negative.
pub open spec fn number_text(number: int) -> Seq<char> {
    if number < 0 {
        "-"@ + decimal_text((-number) as nat)
    } else {
        decimal_text(number as nat)
    }
}

/// The line that reports an error: its name, then what it carries.
pub open spec fn description(error: ErrorView) -> Seq<char> {
    match error.payload {
        Payload::Nothing => label_text(error.label),
        Payload::Message(message) => label_text(error.label) + ": "@ + message,
        Payload::Number(number) => label_text(error.label) + ": "@ + number_text(number),
    }
}

fn digit(value: u64) -> (numeral: &'static str)
    requires
        value < 10,
    ensures
        numeral@ == digit_text(value as int),
{
    if value == 0 {
        "0"
    } else if value == 1 {
        "1"
    } else if value == 2 {
        "2"
    } else if value == 3 {
        "3"
    } else if value == 4 {
        "4"
    } else if value == 5 {
        "5"
    } else if value == 6 {
        "6"
    } else if value == 7 {
        "7"
    } else if value == 8 {
        "8"
    } else {
        "9"
    }
}

/// Writes a natural number in decimal.
pub fn decimal(number: u64) -> (text: String)
    ensures
        text@ == decimal_text(number as nat),
    decreases number,
{
    if number < 10 {
        String::from_str(digit(number))
    } else {
        decimal(number / 10).concat(digit(number % 10))
    }
}

/// Writes an integer in decimal.
pub fn number(value: i64) -> (text: String)
    ensures
        text@ == number_text(value as int),
{
    if value < 0 {
        let magnitude: u64 = (-(value as i128)) as u64;
        String::from_str("-").concat(decimal(magnitude).as_str())
    } else {
        decimal(value as u64)
    }
}

impl NotifyError {
    /// Which failure this is.
    pub fn label(&self) -> (label: ErrorLabel)
        ensures
            label == self@.label,
    {
        match self {
            NotifyError::TlsCreation => ErrorLabel::TlsCreation,
            NotifyError::ImapConnection(_) => ErrorLabel::ImapConnection,
            NotifyError::ImapLogin => ErrorLabel::ImapLogin,
            NotifyError::MailboxLoad => ErrorLabel::MailboxLoad,
            NotifyError::EmailFetch => ErrorLabel::EmailFetch,
            NotifyError::TwilioSend(_) => ErrorLabel::TwilioSend,
            NotifyError::ConfigUpdate => ErrorLabel::ConfigUpdate,
            NotifyError::ConfigLoad(_) => ErrorLabel::ConfigLoad,
            NotifyError::ConfigParse(_) => ErrorLabel::ConfigParse,
            NotifyError::NoneCSSSelector => ErrorLabel::NoneCSSSelector,
            NotifyError::NonePage => ErrorLabel::NonePage,
            NotifyError::WebRequestFailed(_) => ErrorLabel::WebRequestFailed,
            NotifyError::NoProductFound => ErrorLabel::NoProductFound,
            NotifyError::HTMLParseFailed => ErrorLabel::HTMLParseFailed,
            NotifyError::NoPage => ErrorLabel::NoPage,
            NotifyError::RateLimit => ErrorLabel::RateLimit,
            NotifyError::WebClient(_) => ErrorLabel::WebClient,
            NotifyError::WebServer(_) => ErrorLabel::WebServer,
            NotifyError::BadStatus(_) => ErrorLabel::BadStatus,
            NotifyError::PageDecompression(_) => ErrorLabel::PageDecompression,
            NotifyError::IOEncoding(_) => ErrorLabel::IOEncoding,
            NotifyError::ClientBuild => ErrorLabel::ClientBuild,
            NotifyError::ProxyNotRunning => ErrorLabel::ProxyNotRunning,
            NotifyError::CommandErr(_) => ErrorLabel::CommandErr,
            NotifyError::CommandResult(_) => ErrorLabel::CommandResult,
            NotifyError::FileIOError(_) => ErrorLabel::FileIOError,
        }
    }

    /// The line that reports the error.
    pub fn describe(&self) -> (line: String)
        ensures
            line@ == description(self@),
    {
        let name = String::from_str(self.label().name());
        match self {
            NotifyError::ImapConnection(message)
            | NotifyError::TwilioSend(message)
            | NotifyError::ConfigLoad(message)
            | NotifyError::ConfigParse(message)
            | NotifyError::WebRequestFailed(message)
            | NotifyError::PageDecompression(message)
            | NotifyError::IOEncoding(message)
            | NotifyError::CommandErr(message)
            | NotifyError::FileIOError(message) => name.concat(": ").concat(message.as_str()),
            NotifyError::WebClient(status)
            | NotifyError::WebServer(status)
            | NotifyError::BadStatus(status) => name.concat(": ").concat(number(*status as i64).as_str()),
            NotifyError::CommandResult(code) => name.concat(": ").concat(number(*code as i64).as_str()),
            _ => name,
        }
    }
}

} // verus!
