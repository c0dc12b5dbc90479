//! Uniforms: named inputs of a linked program.

use crate::driver::{lemma_after_all_two, Command, DriverState, NOT_FOUND};
use crate::error::{Error, ErrorView};
use crate::program::Program;
use crate::text::{driver_bytes, terminator_free};
use vstd::prelude::*;
use vstd::string::*;

verus! {

/// The slot of a named uniform in one program. It borrows the program, so
/// it cannot outlive it, and never changes once made.
#[derive(Debug)]
pub struct UniformLoc<'a> {
    program: &'a Program,
    loc_id: i32,
}

/// What the driver is asked to resolve: the slot of the uniform `name` in
/// `program`.
#[derive(Debug)]
pub struct UniformQuery<'a> {
    pub program: &'a Program,
    pub name: Vec<u8>,
}

/// The commands of one write of a float: make the program current, then
/// write to the slot.
pub open spec fn float_write(program: u32, location: i32, bits: u32) -> Seq<Command> {
    seq![Command::UseProgram { program }, Command::Uniform1f { location, bits }]
}

/// The commands of one write of three floats: make the program current,
/// then write to the slot.
pub open spec fn vec3_write(program: u32, location: i32, v: Seq<u32>) -> Seq<Command>
    recommends
        v.len() == 3,
{
    seq![
        Command::UseProgram { program },
        Command::Uniform3fv { location, x: v[0], y: v[1], z: v[2] },
    ]
}

impl<'a> UniformQuery<'a> {
    /// The location, once the driver has answered with `slot`. Every
    /// answer is taken as it is: [`NOT_FOUND`] is a location like any
    /// other, and no error.
    pub fn resolve(self, slot: i32) -> (loc: UniformLoc<'a>)
        ensures
            loc.program() == self.program,
            loc.slot() == slot,
    {
        UniformLoc { program: self.program, loc_id: slot }
    }
}

impl<'a> UniformLoc<'a> {
    /// The program that the location belongs to.
    pub closed spec fn program(&self) -> &'a Program {
        self.program
    }

    /// The slot that the driver gave.
    pub closed spec fn slot(&self) -> i32 {
        self.loc_id
    }

    /// Prepares the resolution of `name` in `program`. A name that holds
    /// the terminator byte is an encoding error; nothing else fails.
    pub fn from_program(program: &'a Program, name: &str) -> (r: Result<UniformQuery<'a>, Error>)
        ensures
            r is Ok <==> terminator_free(name.spec_bytes()),
            r matches Ok(query) ==> query.program == program && query.name@ == name.spec_bytes(),
            r matches Err(e) ==> e@ == ErrorView::Encoding,
    {
        match driver_bytes(name) {
            Ok(bytes) => Ok(UniformQuery { program, name: bytes }),
            Err(e) => Err(e),
        }
    }

    /// The slot that the driver gave.
    pub fn loc_id(&self) -> (slot: i32)
        ensures
            slot == self.slot(),
    {
        self.loc_id
    }

    /// Whether the driver found the name in the program.
    pub fn is_found(&self) -> (found: bool)
        ensures
            found == (self.slot() != NOT_FOUND),
    {
        self.loc_id != NOT_FOUND
    }

    /// The commands that write three floats, given as their bits: the
    /// program is made current whatever was current before, then the
    /// value is written to the slot.
    pub fn assign_3fv(&self, v: [u32; 3]) -> (commands: Vec<Command>)
        ensures
            commands@ == vec3_write(self.program().id, self.slot(), v@),
    {
        let mut commands: Vec<Command> = Vec::new();
        commands.push(self.program.use_program());
        commands.push(Command::Uniform3fv { location: self.loc_id, x: v[0], y: v[1], z: v[2] });
        assert(commands@ =~= vec3_write(self.program().id, self.slot(), v@));
        commands
    }

    /// The commands that write one float, given as its bits: the program
    /// is made current whatever was current before, then the value is
    /// written to the slot.
    pub fn assign_f32(&self, f: u32) -> (commands: Vec<Command>)
        ensures
            commands@ == float_write(self.program().id, self.slot(), f),
    {
        let mut commands: Vec<Command> = Vec::new();
        commands.push(self.program.use_program());
        commands.push(Command::Uniform1f { location: self.loc_id, bits: f });
        assert(commands@ =~= float_write(self.program().id, self.slot(), f));
        commands
    }
}

/// A second, identical write of a float leaves the driver as the first
/// left it.
pub proof fn lemma_float_write_idempotent(state: DriverState, program: u32, location: i32, bits: u32)
    ensures
        state.after_all(float_write(program, location, bits)).after_all(
            float_write(program, location, bits),
        ) == state.after_all(float_write(program, location, bits)),
{
    let once = state.after_all(float_write(program, location, bits));
    lemma_after_all_two(
        state,
        Command::UseProgram { program },
        Command::Uniform1f { location, bits },
    );
    lemma_after_all_two(
        once,
        Command::UseProgram { program },
        Command::Uniform1f { location, bits },
    );
    let twice = once.after_all(float_write(program, location, bits));
    assert(twice.uniforms =~= once.uniforms);
}

/// A second, identical write of three floats leaves the driver as the
/// first left it.
pub proof fn lemma_vec3_write_idempotent(state: DriverState, program: u32, location: i32, v: Seq<u32>)
    ensures
        state.after_all(vec3_write(program, location, v)).after_all(
            vec3_write(program, location, v),
        ) == state.after_all(vec3_write(program, location, v)),
{
    let once = state.after_all(vec3_write(program, location, v));
    let write = Command::Uniform3fv { location, x: v[0], y: v[1], z: v[2] };
    lemma_after_all_two(state, Command::UseProgram { program }, write);
    lemma_after_all_two(once, Command::UseProgram { program }, write);
    let twice = once.after_all(vec3_write(program, location, v));
    assert(twice.uniforms =~= once.uniforms);
}

/// A write to the slot of a name that was not found changes no uniform:
/// all that it leaves behind is the program made current.
pub proof fn lemma_write_to_not_found(state: DriverState, program: u32, bits: u32, v: Seq<u32>)
    ensures
        state.after_all(float_write(program, NOT_FOUND, bits)) == state.after(
            Command::UseProgram { program },
        ),
        state.after_all(vec3_write(program, NOT_FOUND, v)) == state.after(
            Command::UseProgram { program },
        ),
        state.after(Command::UseProgram { program }).uniforms == state.uniforms,
{
    lemma_after_all_two(
        state,
        Command::UseProgram { program },
        Command::Uniform1f { location: NOT_FOUND, bits },
    );
    lemma_after_all_two(
        state,
        Command::UseProgram { program },
        Command::Uniform3fv { location: NOT_FOUND, x: v[0], y: v[1], z: v[2] },
    );
}

} // verus!
