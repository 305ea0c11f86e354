//! Values of shader uniforms.

use crate::command::Command;
use vstd::prelude::*;

verus! {

/// The value of a float uniform of one to four components.
///
/// Each component is the bit pattern of an IEEE 754 single precision number.
#[derive(Clone, Copy, Debug, PartialEq, Eq, Structural)]
pub enum UniformValue {
    Float(u32),
    Vec2(u32, u32),
    Vec3(u32, u32, u32),
    Vec4(u32, u32, u32, u32),
}

impl UniformValue {
    /// The command that sets the uniform at `location` to this value.
    pub open spec fn spec_command(self, location: i32) -> Command {
        match self {
            UniformValue::Float(x) => Command::Uniform1f { location, x },
            UniformValue::Vec2(x, y) => Command::Uniform2f { location, x, y },
            UniformValue::Vec3(x, y, z) => Command::Uniform3f { location, x, y, z },
            UniformValue::Vec4(x, y, z, w) => Command::Uniform4f { location, x, y, z, w },
        }
    }

    /// The command that sets the uniform at `location` to this value.
    pub fn command(&self, location: i32) -> (command: Command)
        ensures
            command == self.spec_command(location),
    {
        match *self {
            UniformValue::Float(x) => Command::Uniform1f { location, x },
            UniformValue::Vec2(x, y) => Command::Uniform2f { location, x, y },
            UniformValue::Vec3(x, y, z) => Command::Uniform3f { location, x, y, z },
            UniformValue::Vec4(x, y, z, w) => Command::Uniform4f { location, x, y, z, w },
        }
    }
}

} // verus!
