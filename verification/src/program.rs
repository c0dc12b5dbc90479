//! Programs: shaders linked into one executable pipeline.

use crate::driver::Command;
use crate::error::{Error, ErrorView};
use crate::shader::Shader;
use crate::status::{status_is_set, is_set, Failure, Object};
use vstd::prelude::*;

verus! {

/// A linked program. A value exists only for a driver object whose link
/// status was set.
#[derive(Debug, PartialEq, Eq, Structural)]
pub struct Program {
    pub id: u32,
}

/// What is to be linked: the ids of the shaders, in the order in which
/// they are attached. The driver is first asked to create a program object;
/// [`LinkRequest::steps`] says what is done with it.
#[derive(Debug)]
pub struct LinkRequest {
    pub shaders: Vec<u32>,
}

/// One step of linking: an order that the driver answers with nothing.
#[derive(Clone, Copy, Debug, PartialEq, Eq, Structural)]
pub enum LinkStep {
    /// Attach the shader object `shader` to the program object `program`.
    AttachShader { program: u32, shader: u32 },
    /// Link what is attached to the program object `program`.
    LinkProgram { program: u32 },
}

/// The steps that link `shaders` into `program`: one attachment for each
/// shader, in the order of the list, and then the linking.
pub open spec fn link_steps(program: u32, shaders: Seq<u32>) -> Seq<LinkStep> {
    Seq::new(shaders.len(), |i: int| LinkStep::AttachShader { program, shader: shaders[i] }).push(
        LinkStep::LinkProgram { program },
    )
}

/// The ids of `shaders`, in their order.
pub open spec fn shader_ids(shaders: Seq<&Shader>) -> Seq<u32> {
    Seq::new(shaders.len(), |i: int| shaders[i].id)
}

impl LinkRequest {
    /// The steps to take once the driver has created the program object
    /// `program`: the shaders are attached in the order of the list, and
    /// linked. The object's status is asked for after the last step.
    pub fn steps(&self, program: u32) -> (steps: Vec<LinkStep>)
        ensures
            steps@ == link_steps(program, self.shaders@),
    {
        let mut steps: Vec<LinkStep> = Vec::new();
        let mut i: usize = 0;
        while i < self.shaders.len()
            invariant
                i <= self.shaders@.len(),
                steps@ == Seq::new(
                    i as nat,
                    |k: int| LinkStep::AttachShader { program, shader: self.shaders@[k] },
                ),
            decreases self.shaders@.len() - i,
        {
            steps.push(LinkStep::AttachShader { program, shader: self.shaders[i] });
            i += 1;
            assert(steps@ == Seq::new(
                i as nat,
                |k: int| LinkStep::AttachShader { program, shader: self.shaders@[k] },
            ));
        }
        steps.push(LinkStep::LinkProgram { program });
        steps
    }
}

impl Program {
    /// Prepares the linking of `shaders`. An empty list is refused here,
    /// before the driver is asked for anything; any other list is handed
    /// on as the shaders' ids, in the order given.
    pub fn from_shaders(shaders: Vec<&Shader>) -> (r: Result<LinkRequest, Error>)
        ensures
            r is Ok <==> shaders@.len() > 0,
            r matches Ok(request) ==> request.shaders@ == shader_ids(shaders@),
            r matches Err(e) ==> e@ == ErrorView::Link("no shaders to link"@),
    {
        if shaders.len() == 0 {
            return Err(Error::Link("no shaders to link".to_owned()));
        }
        let mut ids: Vec<u32> = Vec::new();
        let mut i: usize = 0;
        while i < shaders.len()
            invariant
                i <= shaders@.len(),
                ids@ == shader_ids(shaders@.subrange(0, i as int)),
            decreases shaders@.len() - i,
        {
            ids.push(shaders[i].id);
            i += 1;
            assert(ids@ == shader_ids(shaders@.subrange(0, i as int)));
        }
        assert(shaders@.subrange(0, i as int) == shaders@);
        Ok(LinkRequest { shaders: ids })
    }

    /// Decides on the link status that the driver reported for the object
    /// `id`: the program where the flag is set; else the failed object,
    /// whose log tells why.
    pub fn from_status(id: u32, status: i32) -> (r: Result<Program, Failure>)
        ensures
            r is Ok <==> is_set(status),
            r matches Ok(program) ==> program.id == id,
            r matches Err(failure) ==> failure.object == Object::Program && failure.id == id,
    {
        if status_is_set(status) {
            Ok(Program { id })
        } else {
            Err(Failure { object: Object::Program, id })
        }
    }

    /// The command that makes this program the driver's current one.
    pub fn use_program(&self) -> (command: Command)
        ensures
            command == (Command::UseProgram { program: self.id }),
    {
        Command::UseProgram { program: self.id }
    }
}

} // verus!
