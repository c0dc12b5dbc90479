//! From a status flag to a resource or a diagnostic.
//!
//! Compiling a shader and linking a program end the same way: the driver
//! reports a status flag, and where the flag is not set it holds an info
//! log, whose length and bytes it gives on request.

use crate::error::{Error, ErrorView};
use crate::text::decode;
use vstd::prelude::*;
use vstd::utf8::*;

verus! {

/// The kind of driver object that an operation builds.
#[derive(Clone, Copy, Debug, PartialEq, Eq, Structural)]
pub enum Object {
    Shader,
    Program,
}

/// The driver's name for a shader's compile status.
pub const COMPILE_STATUS: u32 = 0x8B81;

/// The driver's name for a program's link status.
pub const LINK_STATUS: u32 = 0x8B82;

/// The driver's name for the length of an object's info log.
pub const INFO_LOG_LENGTH: u32 = 0x8B84;

/// Whether a status flag, as the driver's integer query reports it, is set.
pub open spec fn is_set(status: i32) -> bool {
    status == 1
}

/// `gl::TRUE`, the driver's boolean true, as the signed integer in which a
/// status query answers: the number 1.
#[verifier::external_body]
fn driver_true() -> (flag: i32)
    ensures
        flag == 1,
{
    i32::from(gl::TRUE)
}

/// `gl::COMPILE_STATUS`: the number 0x8B81.
#[verifier::external_body]
fn driver_compile_status() -> (name: u32)
    ensures
        name == COMPILE_STATUS,
{
    gl::COMPILE_STATUS
}

/// `gl::LINK_STATUS`: the number 0x8B82.
#[verifier::external_body]
fn driver_link_status() -> (name: u32)
    ensures
        name == LINK_STATUS,
{
    gl::LINK_STATUS
}

/// `gl::INFO_LOG_LENGTH`: the number 0x8B84.
#[verifier::external_body]
fn driver_info_log_length() -> (name: u32)
    ensures
        name == INFO_LOG_LENGTH,
{
    gl::INFO_LOG_LENGTH
}

/// Tests a status flag against the driver's true.
pub fn status_is_set(status: i32) -> (set: bool)
    ensures
        set == is_set(status),
{
    status == driver_true()
}

/// A question that the driver answers with one integer: the value of
/// `parameter` for the object `id`, asked of a shader or of a program as
/// `object` says.
#[derive(Clone, Copy, Debug, PartialEq, Eq, Structural)]
pub struct Query {
    pub object: Object,
    pub id: u32,
    pub parameter: u32,
}

/// The name under which the driver holds the status of an object of this
/// kind.
pub open spec fn status_name(object: Object) -> u32 {
    match object {
        Object::Shader => COMPILE_STATUS,
        Object::Program => LINK_STATUS,
    }
}

/// The question for the status of the object `id`, once the driver has
/// compiled or linked it.
pub fn status_query(object: Object, id: u32) -> (query: Query)
    ensures
        query == (Query { object, id, parameter: status_name(object) }),
{
    let parameter: u32 = match object {
        Object::Shader => driver_compile_status(),
        Object::Program => driver_link_status(),
    };
    Query { object, id, parameter }
}

/// A driver object whose status flag was not set. It is no resource: all
/// that is left to do with it is to fetch its info log and turn the log
/// into the error.
#[derive(Debug, PartialEq, Eq, Structural)]
pub struct Failure {
    pub object: Object,
    pub id: u32,
}

/// The error that a failed object's info log stands for: the log's text as
/// a compile or a link error, or an encoding error where the log is no
/// UTF-8.
pub open spec fn diagnosis(object: Object, log: Seq<u8>) -> ErrorView {
    if !valid_utf8(log) {
        ErrorView::Encoding
    } else {
        match object {
            Object::Shader => ErrorView::Compile(decode_utf8(log)),
            Object::Program => ErrorView::Link(decode_utf8(log)),
        }
    }
}

impl Failure {
    /// The question for the length of the failed object's info log.
    pub fn log_length_query(&self) -> (query: Query)
        ensures
            query == (Query {
                object: self.object,
                id: self.id,
                parameter: INFO_LOG_LENGTH,
            }),
    {
        Query { object: self.object, id: self.id, parameter: driver_info_log_length() }
    }

    /// The buffer for the info log, once the driver has told the log's
    /// length: `length` bytes, all zero. The driver writes the log into it.
    pub fn log_buffer(&self, length: i32) -> (buffer: Vec<u8>)
        requires
            0 <= length,
        ensures
            buffer@ == Seq::new(length as nat, |i: int| 0u8),
    {
        let mut buffer: Vec<u8> = Vec::new();
        let mut n: i32 = 0;
        while n < length
            invariant
                0 <= n <= length,
                buffer@ == Seq::new(n as nat, |i: int| 0u8),
            decreases length - n,
        {
            buffer.push(0u8);
            n += 1;
            assert(buffer@ == Seq::new(n as nat, |i: int| 0u8));
        }
        buffer
    }

    /// The error, once the driver has filled the buffer. The whole buffer
    /// is decoded, as long as the driver said the log was.
    pub fn into_error(self, log: &[u8]) -> (e: Error)
        ensures
            e@ == diagnosis(self.object, log@),
    {
        match decode(log) {
            Ok(text) => match self.object {
                Object::Shader => Error::Compile(text),
                Object::Program => Error::Link(text),
            },
            Err(e) => e,
        }
    }
}

} // verus!
