//! Shaders: one stage's source text, compiled by the driver.

use crate::error::{Error, ErrorView};
use crate::status::{status_is_set, is_set, Failure, Object};
use crate::text::{driver_bytes, terminator_free};
use vstd::prelude::*;
use vstd::string::*;

verus! {

/// A compiled shader. A value exists only for a driver object whose compile
/// status was set.
#[derive(Debug, PartialEq, Eq, Structural)]
pub struct Shader {
    pub id: u32,
}

/// What the driver is asked to compile: create a shader object for the
/// stage, upload the source, compile it, and report the object's id and
/// its compile status.
#[derive(Debug)]
pub struct CompileRequest {
    pub shader_type: u32,
    pub source: Vec<u8>,
}

impl Shader {
    /// Prepares the compilation of `source_code` for the stage
    /// `shader_type`. Source that holds the terminator byte never reaches
    /// the driver: it is an encoding error. All other source is handed on
    /// byte for byte.
    pub fn from_str(shader_type: u32, source_code: &str) -> (r: Result<CompileRequest, Error>)
        ensures
            r is Ok <==> terminator_free(source_code.spec_bytes()),
            r matches Ok(request) ==> request.shader_type == shader_type && request.source@
                == source_code.spec_bytes(),
            r matches Err(e) ==> e@ == ErrorView::Encoding,
    {
        match driver_bytes(source_code) {
            Ok(source) => Ok(CompileRequest { shader_type, source }),
            Err(e) => Err(e),
        }
    }

    /// Decides on the compile status that the driver reported for the
    /// object `id`: the shader where the flag is set, with no look at the
    /// log; else the failed object, whose log tells why.
    pub fn from_status(id: u32, status: i32) -> (r: Result<Shader, Failure>)
        ensures
            r is Ok <==> is_set(status),
            r matches Ok(shader) ==> shader.id == id,
            r matches Err(failure) ==> failure.object == Object::Shader && failure.id == id,
    {
        if status_is_set(status) {
            Ok(Shader { id })
        } else {
            Err(Failure { object: Object::Shader, id })
        }
    }
}

} // verus!
