//! The response envelope, the error kinds of the service, and reading a
//! single attribute out of a stored item.

use crate::item::{AttrValue, AttrView, Item};
use crate::status::{internal_server_error_code, not_found_code};
use vstd::prelude::*;

verus! {

/// The envelope of every answer: the data, a message (empty when none is
/// given), the HTTP status as a number and whether the request succeeded.
pub struct AppResponse<T> {
    pub data: T,
    pub message: String,
    pub status: i32,
    pub success: bool,
}

/// The message an envelope carries for an optional message.
pub open spec fn message_text(message: Option<Seq<char>>) -> Seq<char> {
    match message {
        Some(m) => m,
        None => Seq::empty(),
    }
}

pub open spec fn opt_view(message: Option<String>) -> Option<Seq<char>> {
    match message {
        Some(m) => Some(m@),
        None => None,
    }
}

impl<T> AppResponse<T> {
    /// Wraps `data` in an envelope; a missing message becomes the empty
    /// string.
    pub fn new(data: T, message: Option<String>, status: i32, success: bool) -> (r: AppResponse<T>)
        ensures
            r.data == data,
            r.message@ == message_text(opt_view(message)),
            r.status == status,
            r.success == success,
    {
        AppResponse {
            data,
            message: match message {
                Some(msg) => msg,
                None => String::new(),
            },
            status,
            success,
        }
    }
}

/// The two kinds of failure the service reports.
#[derive(Debug)]
pub enum AppErrorType {
    DbError(String),
    NotFoundError(String),
}

pub enum AppErrorView {
    DbError(Seq<char>),
    NotFoundError(Seq<char>),
}

impl View for AppErrorType {
    type V = AppErrorView;

    open spec fn view(&self) -> AppErrorView {
        match self {
            AppErrorType::DbError(s) => AppErrorView::DbError(s@),
            AppErrorType::NotFoundError(s) => AppErrorView::NotFoundError(s@),
        }
    }
}

/// What a client is told of an error: the text of a not-found error, and
/// a fixed sentence for a database error, whose text is not shown.
pub open spec fn error_message(e: AppErrorView) -> Seq<char> {
    match e {
        AppErrorView::NotFoundError(s) => s,
        AppErrorView::DbError(_) => "An error occured"@,
    }
}

/// The HTTP status of an error: 404 for not found, 500 for a database error.
pub open spec fn error_status(e: AppErrorView) -> int {
    match e {
        AppErrorView::NotFoundError(_) => 404,
        AppErrorView::DbError(_) => 500,
    }
}

impl AppErrorType {
    /// The message shown to the client for this error.
    pub fn message(&self) -> (r: String)
        ensures
            r@ == error_message(self@),
    {
        match self {
            AppErrorType::NotFoundError(s) => s.clone(),
            AppErrorType::DbError(_) => String::from_str("An error occured"),
        }
    }

    /// The HTTP status code of this error.
    pub fn status_code(&self) -> (r: u16)
        ensures
            r == error_status(self@),
    {
        match self {
            AppErrorType::DbError(_) => internal_server_error_code(),
            AppErrorType::NotFoundError(_) => not_found_code(),
        }
    }

    /// The body of the answer to a failed request: no data, the error's
    /// message, its status, and `success` false.
    pub fn error_response(&self) -> (r: AppResponse<()>)
        ensures
            r.message@ == error_message(self@),
            r.status == error_status(self@),
            !r.success,
    {
        let code = self.status_code();
        AppResponse { data: (), message: self.message(), status: code as i32, success: false }
    }

    /// The error that a failed database call becomes, given the text of
    /// the database's error: every such failure is reported as not found,
    /// with that text.
    pub fn from_db_failure(text: String) -> (r: AppErrorType)
        ensures
            r@ == AppErrorView::NotFoundError(text@),
    {
        AppErrorType::NotFoundError(text)
    }
}

/// What reading the string attribute `key` of an item gives: nothing when
/// the item has no such attribute, an error when the attribute is not a
/// string, and the string otherwise.
pub open spec fn str_field(m: Map<Seq<char>, AttrView>, key: Seq<char>) -> Result<Option<Seq<char>>, ()> {
    if m.contains_key(key) {
        match m[key] {
            AttrView::S(s) => Ok(Some(s)),
            _ => Err(()),
        }
    } else {
        Ok(None)
    }
}

/// What reading the string-set attribute `key` of an item gives.
pub open spec fn strs_field(m: Map<Seq<char>, AttrView>, key: Seq<char>) -> Result<Option<Seq<Seq<char>>>, ()> {
    if m.contains_key(key) {
        match m[key] {
            AttrView::Ss(v) => Ok(Some(v)),
            _ => Err(()),
        }
    } else {
        Ok(None)
    }
}

pub open spec fn str_result_view(r: Result<Option<String>, ()>) -> Result<Option<Seq<char>>, ()> {
    match r {
        Ok(Some(s)) => Ok(Some(s@)),
        Ok(None) => Ok(None),
        Err(()) => Err(()),
    }
}

pub open spec fn strs_result_view(r: Result<Option<Vec<String>>, ()>) -> Result<Option<Seq<Seq<char>>>, ()> {
    match r {
        Ok(Some(v)) => Ok(Some(v.deep_view())),
        Ok(None) => Ok(None),
        Err(()) => Err(()),
    }
}

/// Reads the string attribute `key` of `item`.
pub fn item_to_value(key: &str, item: &Item) -> (r: Result<Option<String>, ()>)
    ensures
        str_result_view(r) == str_field(item@, key@),
{
    match item.get(key) {
        Some(value) => {
            match value {
                AttrValue::S(value) => Ok(Some(value.clone())),
                _ => Err(()),
            }
        },
        None => Ok(None),
    }
}

/// Reads the string-set attribute `key` of `item`.
pub fn item_to_vector(key: &str, item: &Item) -> (r: Result<Option<Vec<String>>, ()>)
    ensures
        strs_result_view(r) == strs_field(item@, key@),
{
    match item.get(key) {
        Some(value) => {
            match value {
                AttrValue::Ss(value) => Ok(Some(crate::models::copy_strings(value))),
                _ => Err(()),
            }
        },
        None => Ok(None),
    }
}

} // verus!
