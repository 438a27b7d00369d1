//! The diagnostic record.

use crate::app_code::AppCode;
use crate::fingerprint::{fingerprint, fingerprint_spec};
use vstd::prelude::*;
use vstd::string::StringExecFns;

verus! {

/// What one error value comes to once it is classified: an application code,
/// the taxonomy's code for the variant, the message meant for clients, the
/// full message, and the fingerprint of the full message.
///
/// A record is well formed ([`ErrorInfoView::wf`]) when `hash` is the
/// fingerprint of `server_msg`. The constructors build well-formed records.
pub struct ErrorInfo<T> {
    pub app_code: T,
    pub code: String,
    pub client_msg: String,
    pub server_msg: String,
    pub hash: String,
}

/// An error type whose values can be turned into records.
pub trait ToErrorInfo {
    /// The type that application codes are read into.
    type T: AppCode;

    /// The record of this error value.
    fn to_error_info(&self) -> ErrorInfo<Self::T>;
}

/// A record as a mathematical value.
pub struct ErrorInfoView<T> {
    pub app_code: T,
    pub code: Seq<char>,
    pub client_msg: Seq<char>,
    pub server_msg: Seq<char>,
    pub hash: Seq<char>,
}

/// The application code text did not read as a code of the target type.
#[derive(Debug, PartialEq, Eq)]
pub struct AppCodeError {
    /// The text that was declared as the application code.
    pub app_code: String,
}

impl<T> View for ErrorInfo<T> {
    type V = ErrorInfoView<T>;

    open spec fn view(&self) -> ErrorInfoView<T> {
        ErrorInfoView {
            app_code: self.app_code,
            code: self.code@,
            client_msg: self.client_msg@,
            server_msg: self.server_msg@,
            hash: self.hash@,
        }
    }
}

/// A code, a message body and a fingerprint laid out as one line:
/// the code, a colon and a space, the body, a hyphen, the fingerprint.
pub open spec fn rendering(code: Seq<char>, body: Seq<char>, hash: Seq<char>) -> Seq<char> {
    code + seq![':', ' '] + body + seq!['-'] + hash
}

/// Whether `needle` occurs in `hay` as a run of consecutive characters.
pub open spec fn occurs_in(needle: Seq<char>, hay: Seq<char>) -> bool {
    exists|i: int|
        0 <= i && i + needle.len() <= hay.len() && #[trigger] hay.subrange(i, i + needle.len())
            == needle
}

/// The record made of a parsed application code, the declared code and
/// client message, and the rendered message.
pub open spec fn record_spec<T>(
    app_code: T,
    code: Seq<char>,
    client_msg: Seq<char>,
    server_msg: Seq<char>,
) -> ErrorInfoView<T> {
    ErrorInfoView { app_code, code, client_msg, server_msg, hash: fingerprint_spec(server_msg) }
}

impl<T> ErrorInfoView<T> {
    /// The fingerprint is that of the full message.
    pub open spec fn wf(self) -> bool {
        self.hash == fingerprint_spec(self.server_msg)
    }

    /// The message that may be shown to a client: the declared client message
    /// or, where none is declared, the full message.
    pub open spec fn client_body(self) -> Seq<char> {
        if self.client_msg.len() == 0 {
            self.server_msg
        } else {
            self.client_msg
        }
    }

    /// The line shown to a client.
    pub open spec fn client_rendering(self) -> Seq<char> {
        rendering(self.code, self.client_body(), self.hash)
    }

    /// The line written to the log.
    pub open spec fn log_rendering(self) -> Seq<char> {
        rendering(self.code, self.server_msg, self.hash)
    }
}

impl<T> ErrorInfo<T> {
    /// Builds the record for an application code that is already parsed.
    pub fn from_app_code(app_code: T, code: &str, client_msg: &str, server_msg: String) -> (info:
        Self)
        ensures
            info@ == record_spec(app_code, code@, client_msg@, server_msg@),
            info@.wf(),
    {
        let hash = fingerprint(server_msg.as_str());
        ErrorInfo {
            app_code,
            code: String::from_str(code),
            client_msg: String::from_str(client_msg),
            server_msg,
            hash,
        }
    }

    /// The message that may be shown to a client: the declared client message
    /// or, where that is empty, the full message.
    pub fn client_msg(&self) -> (msg: &str)
        ensures
            msg@ == self@.client_body(),
    {
        if self.client_msg.as_str().is_empty() {
            self.server_msg.as_str()
        } else {
            self.client_msg.as_str()
        }
    }

    /// The line shown to a client: `code: message-fingerprint`, the message
    /// being [`ErrorInfo::client_msg`].
    pub fn to_string(&self) -> (line: String)
        ensures
            line@ == self@.client_rendering(),
    {
        render(self.code.as_str(), self.client_msg(), self.hash.as_str())
    }

    /// The line written to the log: `code: message-fingerprint`, the message
    /// being the full one.
    pub fn to_log_string(&self) -> (line: String)
        ensures
            line@ == self@.log_rendering(),
    {
        render(self.code.as_str(), self.server_msg.as_str(), self.hash.as_str())
    }
}

impl<T: AppCode> ErrorInfo<T> {
    /// Builds the record for a variant's declared application code, code and
    /// client message and for the rendered message of the error value.
    ///
    /// The application code must read as a `T`: a declaration whose code does
    /// not is a defect of the taxonomy, and no record is built from it.
    pub fn new(app_code: &str, code: &str, client_msg: &str, server_msg: String) -> (info: Self)
        requires
            T::parse_spec(app_code@) is Some,
        ensures
            info@ == record_spec(T::parse_spec(app_code@)->0, code@, client_msg@, server_msg@),
            info@.wf(),
    {
        match T::parse(app_code) {
            Some(parsed) => ErrorInfo::from_app_code(parsed, code, client_msg, server_msg),
            None => vstd::pervasive::unreached(),
        }
    }

    /// Builds the record as [`ErrorInfo::new`] does where the application
    /// code reads as a `T`, and reports the text where it does not.
    pub fn try_new(app_code: &str, code: &str, client_msg: &str, server_msg: String) -> (built:
        Result<Self, AppCodeError>)
        ensures
            match built {
                Ok(info) => T::parse_spec(app_code@) is Some && info@ == record_spec(
                    T::parse_spec(app_code@)->0,
                    code@,
                    client_msg@,
                    server_msg@,
                ) && info@.wf(),
                Err(e) => T::parse_spec(app_code@) is None && e.app_code@ == app_code@,
            },
    {
        match T::parse(app_code) {
            Some(parsed) => Ok(ErrorInfo::from_app_code(parsed, code, client_msg, server_msg)),
            None => Err(AppCodeError { app_code: String::from_str(app_code) }),
        }
    }
}

/// Lays a code, a message body and a fingerprint out as one line.
fn render(code: &str, body: &str, hash: &str) -> (line: String)
    ensures
        line@ == rendering(code@, body@, hash@),
{
    let mut line = String::from_str(code);
    line.append(": ");
    line.append(body);
    line.append("-");
    line.append(hash);
    proof {
        reveal_strlit(": ");
        reveal_strlit("-");
    }
    line
}

/// Equal messages have equal fingerprints: two well-formed records that hold
/// the same full message hold the same hash, whenever and wherever each was
/// built.
pub proof fn lemma_same_message_same_hash<T, U>(a: ErrorInfoView<T>, b: ErrorInfoView<U>)
    requires
        a.wf(),
        b.wf(),
        a.server_msg == b.server_msg,
    ensures
        a.hash == b.hash,
{
}

/// The line for the client and the line for the log carry the same code and
/// the same fingerprint: each starts with the code, a colon and a space, and
/// each ends with a hyphen and the hash.
pub proof fn lemma_renderings_share_code_and_hash<T>(info: ErrorInfoView<T>)
    ensures
        (info.code + seq![':', ' ']).is_prefix_of(info.client_rendering()),
        (info.code + seq![':', ' ']).is_prefix_of(info.log_rendering()),
        (seq!['-'] + info.hash).is_suffix_of(info.client_rendering()),
        (seq!['-'] + info.hash).is_suffix_of(info.log_rendering()),
{
}

/// Where a client message is declared, the line for the client is made of the
/// code, the client message and the fingerprint, and of nothing else. So the
/// full message does not occur in that line, unless it happens to occur in
/// the text that these three make up.
pub proof fn lemma_client_rendering_hides_server_msg<T>(info: ErrorInfoView<T>)
    requires
        info.client_msg.len() > 0,
        !occurs_in(info.server_msg, rendering(info.code, info.client_msg, info.hash)),
    ensures
        info.client_rendering() == rendering(info.code, info.client_msg, info.hash),
        !occurs_in(info.server_msg, info.client_rendering()),
{
}

} // verus!
