//! Commands to the driver, and what they do to its state.
//!
//! Once a program is linked, the driver is only told things: which program
//! is current, and what a uniform holds. [`Command`] is one such order as
//! a plain value, and [`DriverState`] says what the orders mean: the part
//! of the driver's state that they change, and how.

use vstd::prelude::*;

verus! {

/// The slot that the driver gives for a name that a program does not hold.
pub const NOT_FOUND: i32 = -1;

/// An order to the driver that it answers with nothing. A float travels as
/// its bits.
#[derive(Clone, Copy, Debug, PartialEq, Eq, Structural)]
pub enum Command {
    /// Make `program` the current program.
    UseProgram { program: u32 },
    /// Write one float to the slot `location` of the current program.
    Uniform1f { location: i32, bits: u32 },
    /// Write three floats to the slot `location` of the current program.
    Uniform3fv { location: i32, x: u32, y: u32, z: u32 },
}

/// What a uniform holds, each float as its bits.
pub enum Value {
    Float(u32),
    Vec3(u32, u32, u32),
}

/// The state of the driver that commands change: the current program, and
/// for each program and slot written so far the value last written.
pub struct DriverState {
    pub current: u32,
    pub uniforms: Map<(u32, i32), Value>,
}

impl DriverState {
    /// The state with `value` written to `location` of the current
    /// program. The driver ignores a write to [`NOT_FOUND`].
    pub open spec fn write(self, location: i32, value: Value) -> DriverState {
        if location == NOT_FOUND {
            self
        } else {
            DriverState {
                current: self.current,
                uniforms: self.uniforms.insert((self.current, location), value),
            }
        }
    }

    /// The state after one command.
    pub open spec fn after(self, command: Command) -> DriverState {
        match command {
            Command::UseProgram { program } => DriverState {
                current: program,
                uniforms: self.uniforms,
            },
            Command::Uniform1f { location, bits } => self.write(location, Value::Float(bits)),
            Command::Uniform3fv { location, x, y, z } => self.write(location, Value::Vec3(x, y, z)),
        }
    }

    /// The state after a run of commands, the first of them first.
    pub open spec fn after_all(self, commands: Seq<Command>) -> DriverState
        decreases commands.len(),
    {
        if commands.len() == 0 {
            self
        } else {
            self.after_all(commands.drop_last()).after(commands.last())
        }
    }
}

/// A run of two commands is the first of them, then the second.
pub proof fn lemma_after_all_two(state: DriverState, first: Command, second: Command)
    ensures
        state.after_all(seq![first, second]) == state.after(first).after(second),
{
    let both = seq![first, second];
    assert(both.drop_last() =~= seq![first]);
    assert(seq![first].drop_last() =~= Seq::<Command>::empty());
    reveal_with_fuel(DriverState::after_all, 3);
}

/// The program made current last is the current one, whatever was current
/// before; making a program current changes no uniform.
pub proof fn lemma_last_use_wins(state: DriverState, earlier: u32, later: u32)
    ensures
        state.after(Command::UseProgram { program: earlier }).after(
            Command::UseProgram { program: later },
        ) == state.after(Command::UseProgram { program: later }),
        state.after(Command::UseProgram { program: later }).current == later,
        state.after(Command::UseProgram { program: later }).uniforms == state.uniforms,
{
}

} // verus!
