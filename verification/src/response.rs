//! The reply sent back to the user interface for each request.

use vstd::prelude::*;

verus! {

/// A reply: a status code, the data, and a message.
pub struct Response<'a, T> {
    pub code: usize,
    pub data: T,
    pub msg: &'a str,
}

/// The message of a success reply that names none.
pub open spec fn default_ok_msg() -> Seq<char> {
    "操作成功"@
}

/// The message of a failure reply that names none.
pub open spec fn default_fail_msg() -> Seq<char> {
    "操作失败"@
}

/// The given message, or `default` where none is given.
pub open spec fn msg_or(msg: Option<&str>, default: Seq<char>) -> Seq<char> {
    match msg {
        Some(m) => m@,
        None => default,
    }
}

impl<'a, T> Response<'a, T> {
    /// Whether this is the success reply for `data` and `msg`: code 200, the
    /// data, and the message or the default success message.
    pub open spec fn is_ok_of(&self, data: T, msg: Option<&'a str>) -> bool {
        &&& self.code == 200
        &&& self.data == data
        &&& self.msg@ == msg_or(msg, default_ok_msg())
    }

    /// Whether this is the failure reply for `data` and `msg`: code 300, the
    /// data, and the message or the default failure message.
    pub open spec fn is_fail_of(&self, data: T, msg: Option<&'a str>) -> bool {
        &&& self.code == 300
        &&& self.data == data
        &&& self.msg@ == msg_or(msg, default_fail_msg())
    }

    /// A reply with the given code, data and message.
    pub fn new(code: usize, data: T, msg: &'a str) -> (r: Self)
        ensures
            r.code == code,
            r.data == data,
            r.msg == msg,
    {
        Response { code, data, msg }
    }

    /// The success reply.
    pub fn ok(data: T, msg: Option<&'a str>) -> (r: Self)
        ensures
            r.is_ok_of(data, msg),
    {
        let m = match msg {
            Some(m) => m,
            None => "操作成功",
        };
        Response { code: 200, data, msg: m }
    }

    /// The failure reply.
    pub fn fail(data: T, msg: Option<&'a str>) -> (r: Self)
        ensures
            r.is_fail_of(data, msg),
    {
        let m = match msg {
            Some(m) => m,
            None => "操作失败",
        };
        Response { code: 300, data, msg: m }
    }
}

/// The reply to a handler's result: a success becomes the success reply
/// with its data and the default message (sent as JSON), a failure the text
/// of its error (sent as it is).
pub fn reply_for<'a, T>(result: Result<T, String>) -> (reply: Result<Response<'a, T>, String>)
    ensures
        match result {
            Ok(data) => (reply matches Ok(r) && r.is_ok_of(data, None)),
            Err(text) => (reply matches Err(t) && t == text),
        },
{
    match result {
        Ok(data) => Ok(Response::ok(data, None)),
        Err(text) => Err(text),
    }
}

} // verus!
