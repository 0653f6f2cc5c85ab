//! Errors surfaced by all operations.

use std::time::Duration;

use vstd::prelude::*;

use crate::duration::{debug_text, duration_debug, duration_nanos};
use crate::text::{hex_text, push_hex, push_signed, signed_text};

verus! {

broadcast use vstd::string::group_string_axioms;

/// An error of the operating system, boxed inside [`Error::Os`].
pub type BoxedOsError = Box<OsError>;

/// Error variants surfaced by all operations.
///
/// `AdapterNotFound` and `NoStoredCredentials` carry the printable form
/// of the `AdapterId` / `Ssid` rather than the typed values.
#[derive(Debug)]
pub enum Error {
    NoAdapter,
    AdapterNotFound(String),
    SsidNotInRange,
    AuthenticationFailed,
    NoStoredCredentials(String),
    Timeout(Duration),
    PermissionDenied(&'static str),
    UserCancelled,
    Unsupported(&'static str),
    Os(BoxedOsError),
}

/// What the operating system, or the path to it, reported.
#[derive(Debug)]
pub enum OsError {
    /// A description.
    Message(String),
    /// A Win32 function and the status it returned.
    Win32(Win32Error),
    /// A `WLAN_REASON_CODE`.
    WlanReason(WlanReasonError),
    /// An `NSError`.
    Ns(NsErrorWrapper),
    /// A completion block went away without being called.
    BlockDropped(BlockChannelDropped),
    /// An error of this library, seen from a layer that knows only OS errors.
    Library(Error),
}

/// A non-zero Win32 status, with the function that returned it.
#[derive(Debug)]
pub struct Win32Error {
    /// Name of the function that returned the error (e.g. `"WlanOpenHandle"`).
    pub function: &'static str,
    /// Raw `WIN32_ERROR` code.
    pub code: u32,
}

impl Win32Error {
    /// The message for people, such as `WlanOpenHandle: 0x00000005`.
    pub open spec fn text(self) -> Seq<char> {
        self.function@ + ": 0x"@ + hex_text(self.code as nat, 8, false)
    }

    pub fn to_string(&self) -> (r: String)
        ensures
            r@ == self.text(),
    {
        let mut out = self.function.to_owned();
        out.push_str(": 0x");
        push_hex(&mut out, self.code, 8, false);
        out
    }
}

/// A `WLAN_REASON_CODE` without a typed counterpart.
#[derive(Debug)]
pub struct WlanReasonError(pub u32);

impl WlanReasonError {
    /// The message for people, such as `WLAN_REASON_CODE 0x00038003`.
    pub open spec fn text(self) -> Seq<char> {
        "WLAN_REASON_CODE 0x"@ + hex_text(self.0 as nat, 8, true)
    }

    pub fn to_string(&self) -> (r: String)
        ensures
            r@ == self.text(),
    {
        let mut out = String::new();
        out.push_str("WLAN_REASON_CODE 0x");
        push_hex(&mut out, self.0, 8, true);
        out
    }
}

/// What an `NSError` says.
#[derive(Debug)]
pub struct NsErrorWrapper {
    pub domain: String,
    pub code: i64,
    pub description: String,
}

/// What an [`NsErrorWrapper`] says, as plain values.
pub struct NsErrorView {
    pub domain: Seq<char>,
    pub code: int,
    pub description: Seq<char>,
}

impl View for NsErrorWrapper {
    type V = NsErrorView;

    open spec fn view(&self) -> NsErrorView {
        NsErrorView { domain: self.domain@, code: self.code as int, description: self.description@ }
    }
}

impl NsErrorWrapper {
    /// The message for people.
    pub open spec fn text(self) -> Seq<char> {
        self.description@ + " (domain="@ + self.domain@ + ", code="@ + signed_text(self.code as int)
            + ")"@
    }

    pub fn to_string(&self) -> (r: String)
        ensures
            r@ == self.text(),
    {
        let mut out = self.description.clone();
        out.push_str(" (domain=");
        out.push_str(self.domain.as_str());
        out.push_str(", code=");
        push_signed(&mut out, self.code);
        out.push_str(")");
        out
    }
}

/// A completion block that was dropped before it was called; holds the name of
/// the operation.
#[derive(Debug)]
pub struct BlockChannelDropped(pub &'static str);

impl BlockChannelDropped {
    /// The message for people.
    pub open spec fn text(self) -> Seq<char> {
        "ios completion block channel dropped (op: "@ + self.0@ + ")"@
    }

    pub fn to_string(&self) -> (r: String)
        ensures
            r@ == self.text(),
    {
        let mut out = String::new();
        out.push_str("ios completion block channel dropped (op: ");
        out.push_str(self.0);
        out.push_str(")");
        out
    }
}

/// What an [`Error`] says, with texts as sequences of characters.
pub enum ErrorView {
    NoAdapter,
    AdapterNotFound(Seq<char>),
    SsidNotInRange,
    AuthenticationFailed,
    NoStoredCredentials(Seq<char>),
    Timeout(Duration),
    PermissionDenied(Seq<char>),
    UserCancelled,
    Unsupported(Seq<char>),
    Os(OsErrorView),
}

/// What an [`OsError`] says.
pub enum OsErrorView {
    Message(Seq<char>),
    Win32 { function: Seq<char>, code: u32 },
    WlanReason(u32),
    Ns(NsErrorView),
    BlockDropped(Seq<char>),
    Library(Box<ErrorView>),
}

/// What an error says.
pub open spec fn error_view(e: Error) -> ErrorView
    decreases e,
{
    match e {
        Error::NoAdapter => ErrorView::NoAdapter,
        Error::AdapterNotFound(id) => ErrorView::AdapterNotFound(id@),
        Error::SsidNotInRange => ErrorView::SsidNotInRange,
        Error::AuthenticationFailed => ErrorView::AuthenticationFailed,
        Error::NoStoredCredentials(ssid) => ErrorView::NoStoredCredentials(ssid@),
        Error::Timeout(d) => ErrorView::Timeout(d),
        Error::PermissionDenied(what) => ErrorView::PermissionDenied(what@),
        Error::UserCancelled => ErrorView::UserCancelled,
        Error::Unsupported(what) => ErrorView::Unsupported(what@),
        Error::Os(os) => ErrorView::Os(os_error_view(*os)),
    }
}

/// What an OS error says.
pub open spec fn os_error_view(e: OsError) -> OsErrorView
    decreases e,
{
    match e {
        OsError::Message(text) => OsErrorView::Message(text@),
        OsError::Win32(w) => OsErrorView::Win32 { function: w.function@, code: w.code },
        OsError::WlanReason(r) => OsErrorView::WlanReason(r.0),
        OsError::Ns(n) => OsErrorView::Ns(n@),
        OsError::BlockDropped(b) => OsErrorView::BlockDropped(b.0@),
        OsError::Library(inner) => OsErrorView::Library(Box::new(error_view(inner))),
    }
}

impl View for Error {
    type V = ErrorView;

    open spec fn view(&self) -> ErrorView {
        error_view(*self)
    }
}

/// The error of a result, if it is one.
pub open spec fn failure<T>(r: Result<T, Error>) -> Option<ErrorView> {
    match r {
        Ok(_) => None,
        Err(e) => Some(e@),
    }
}

/// The message of an error for people.
pub open spec fn error_text(e: Error) -> Seq<char>
    decreases e,
{
    match e {
        Error::NoAdapter => "no wifi adapter found"@,
        Error::AdapterNotFound(id) => "adapter "@ + id@ + " not found"@,
        Error::SsidNotInRange => "ssid not in range or not visible"@,
        Error::AuthenticationFailed => "authentication failed (wrong password or unsupported security)"@,
        Error::NoStoredCredentials(ssid) => "no stored credentials for ssid "@ + ssid@,
        Error::Timeout(d) => "operation timed out after "@ + duration_debug(duration_nanos(d)),
        Error::PermissionDenied(what) => "permission denied: "@ + what@,
        Error::UserCancelled => "operation cancelled by user"@,
        Error::Unsupported(what) => "operation not supported on this platform: "@ + what@,
        Error::Os(os) => "internal os error: "@ + os_error_text(*os),
    }
}

/// The message of an OS error for people.
pub open spec fn os_error_text(e: OsError) -> Seq<char>
    decreases e,
{
    match e {
        OsError::Message(text) => text@,
        OsError::Win32(w) => w.text(),
        OsError::WlanReason(r) => r.text(),
        OsError::Ns(n) => n.text(),
        OsError::BlockDropped(b) => b.text(),
        OsError::Library(inner) => error_text(inner),
    }
}

fn joined(head: &str, tail: &str) -> (r: String)
    ensures
        r@ == head@ + tail@,
{
    let mut out = head.to_owned();
    out.push_str(tail);
    out
}

impl Error {
    /// The message for people.
    pub fn to_string(&self) -> (r: String)
        ensures
            r@ == error_text(*self),
        decreases self,
    {
        match self {
            Error::NoAdapter => "no wifi adapter found".to_owned(),
            Error::AdapterNotFound(id) => {
                let mut out = joined("adapter ", id.as_str());
                out.push_str(" not found");
                out
            },
            Error::SsidNotInRange => "ssid not in range or not visible".to_owned(),
            Error::AuthenticationFailed => {
                "authentication failed (wrong password or unsupported security)".to_owned()
            },
            Error::NoStoredCredentials(ssid) => joined(
                "no stored credentials for ssid ",
                ssid.as_str(),
            ),
            Error::Timeout(d) => joined("operation timed out after ", debug_text(d).as_str()),
            Error::PermissionDenied(what) => joined("permission denied: ", what),
            Error::UserCancelled => "operation cancelled by user".to_owned(),
            Error::Unsupported(what) => joined("operation not supported on this platform: ", what),
            Error::Os(os) => joined("internal os error: ", os.to_string().as_str()),
        }
    }
}

impl OsError {
    /// The message for people.
    pub fn to_string(&self) -> (r: String)
        ensures
            r@ == os_error_text(*self),
        decreases self,
    {
        match self {
            OsError::Message(text) => text.clone(),
            OsError::Win32(w) => w.to_string(),
            OsError::WlanReason(r) => r.to_string(),
            OsError::Ns(n) => n.to_string(),
            OsError::BlockDropped(b) => b.to_string(),
            OsError::Library(inner) => inner.to_string(),
        }
    }
}

/// An OS error that is a description.
pub fn os_message(text: &str) -> (r: Error)
    ensures
        r@ == ErrorView::Os(OsErrorView::Message(text@)),
{
    Error::Os(Box::new(OsError::Message(text.to_owned())))
}

/// Each error is seen as what it is, with all that it carries.
pub proof fn error_views_are_faithful(
    text: String,
    what: &'static str,
    code: u32,
    ns: NsErrorWrapper,
    limit: Duration,
    inner: Error,
)
    ensures
        Error::NoAdapter@ == ErrorView::NoAdapter,
        Error::AdapterNotFound(text)@ == ErrorView::AdapterNotFound(text@),
        Error::SsidNotInRange@ == ErrorView::SsidNotInRange,
        Error::AuthenticationFailed@ == ErrorView::AuthenticationFailed,
        Error::NoStoredCredentials(text)@ == ErrorView::NoStoredCredentials(text@),
        Error::Timeout(limit)@ == ErrorView::Timeout(limit),
        Error::PermissionDenied(what)@ == ErrorView::PermissionDenied(what@),
        Error::UserCancelled@ == ErrorView::UserCancelled,
        Error::Unsupported(what)@ == ErrorView::Unsupported(what@),
        os_error_view(OsError::Message(text)) == OsErrorView::Message(text@),
        os_error_view(OsError::Win32(Win32Error { function: what, code })) == (OsErrorView::Win32 {
            function: what@,
            code,
        }),
        os_error_view(OsError::WlanReason(WlanReasonError(code))) == OsErrorView::WlanReason(code),
        os_error_view(OsError::Ns(ns)) == OsErrorView::Ns(
            NsErrorView { domain: ns.domain@, code: ns.code as int, description: ns.description@ },
        ),
        os_error_view(OsError::BlockDropped(BlockChannelDropped(what))) == OsErrorView::BlockDropped(
            what@,
        ),
        os_error_view(OsError::Library(inner)) == OsErrorView::Library(Box::new(inner@)),
{
    reveal_with_fuel(error_view, 2);
    reveal_with_fuel(os_error_view, 2);
}

/// An OS error is seen as the error that it holds.
pub proof fn os_errors_are_seen_through(os: OsError)
    ensures
        Error::Os(Box::new(os))@ == ErrorView::Os(os_error_view(os)),
{
    reveal_with_fuel(error_view, 2);
    reveal_with_fuel(os_error_view, 2);
}

/// A result fails exactly when it is an error, with what the error says.
pub proof fn failures_are_errors<T>(r: Result<T, Error>)
    ensures
        r is Ok ==> failure(r) is None,
        r is Err ==> failure(r) == Some(r->Err_0@),
{
}

/// The message of each error, with what it carries.
pub proof fn errors_print_what_they_carry(
    text: String,
    what: &'static str,
    code: u32,
    ns: NsErrorWrapper,
    limit: Duration,
    os: OsError,
    inner: Error,
)
    ensures
        error_text(Error::NoAdapter) == "no wifi adapter found"@,
        error_text(Error::AdapterNotFound(text)) == "adapter "@ + text@ + " not found"@,
        error_text(Error::SsidNotInRange) == "ssid not in range or not visible"@,
        error_text(Error::AuthenticationFailed)
            == "authentication failed (wrong password or unsupported security)"@,
        error_text(Error::NoStoredCredentials(text)) == "no stored credentials for ssid "@ + text@,
        error_text(Error::Timeout(limit)) == "operation timed out after "@ + duration_debug(
            duration_nanos(limit),
        ),
        error_text(Error::PermissionDenied(what)) == "permission denied: "@ + what@,
        error_text(Error::UserCancelled) == "operation cancelled by user"@,
        error_text(Error::Unsupported(what)) == "operation not supported on this platform: "@ + what@,
        error_text(Error::Os(Box::new(os))) == "internal os error: "@ + os_error_text(os),
        os_error_text(OsError::Message(text)) == text@,
        os_error_text(OsError::Win32(Win32Error { function: what, code })) == what@ + ": 0x"@
            + hex_text(code as nat, 8, false),
        os_error_text(OsError::WlanReason(WlanReasonError(code))) == "WLAN_REASON_CODE 0x"@
            + hex_text(code as nat, 8, true),
        os_error_text(OsError::Ns(ns)) == ns.description@ + " (domain="@ + ns.domain@ + ", code="@
            + signed_text(ns.code as int) + ")"@,
        os_error_text(OsError::BlockDropped(BlockChannelDropped(what)))
            == "ios completion block channel dropped (op: "@ + what@ + ")"@,
        os_error_text(OsError::Library(inner)) == error_text(inner),
{
    reveal_with_fuel(error_text, 2);
    reveal_with_fuel(os_error_text, 2);
}

} // verus!
