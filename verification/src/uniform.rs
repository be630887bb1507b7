//! Bindings of named uniform variables of a linked program.

use vstd::prelude::*;
use crate::shader::Shader;

verus! {

/// The location that the driver gives for a name that the program does not
/// have. A write to it changes nothing and is no error.
pub const NOT_FOUND: i32 = -1;

/// The shape of a value that a uniform variable takes.
#[derive(Clone, Copy, Debug, PartialEq, Eq, Structural)]
pub enum UniformShape {
    Scalar,
    Vec2,
    Vec3,
    Vec4,
    Mat2,
    Mat4,
}

impl UniformShape {
    /// Whether the shape is that of a matrix.
    pub open spec fn is_matrix(self) -> bool {
        self == UniformShape::Mat2 || self == UniformShape::Mat4
    }
}

/// An upload to hand to the driver: where the value goes, how many values
/// of the shape there are, and whether a matrix is to be transposed on the
/// way.
#[derive(Clone, Copy, Debug, PartialEq, Eq, Structural)]
pub struct UniformWrite {
    pub program_id: u32,
    pub location: i32,
    pub shape: UniformShape,
    pub count: i32,
    pub transpose: u8,
}

/// A named uniform variable of a program, resolved to its location.
#[derive(Clone, Copy, Debug, PartialEq, Eq, Structural)]
pub struct ShaderUniform {
    location: i32,
    program_id: u32,
}

impl ShaderUniform {
    /// The location of the variable, `NOT_FOUND` if the program has none of
    /// that name.
    pub closed spec fn spec_location(&self) -> i32 {
        self.location
    }

    /// The program that the variable belongs to.
    pub closed spec fn spec_program_id(&self) -> u32 {
        self.program_id
    }

    /// The upload of one value of `shape` to this variable: none for a
    /// variable that the program does not have.
    pub open spec fn write_of(&self, shape: UniformShape, transpose: bool) -> Option<UniformWrite> {
        if self.spec_location() == NOT_FOUND {
            None
        } else {
            Some(
                UniformWrite {
                    program_id: self.spec_program_id(),
                    location: self.spec_location(),
                    shape,
                    count: 1,
                    transpose: if shape.is_matrix() && transpose {
                        1
                    } else {
                        0
                    },
                },
            )
        }
    }

    /// The binding of a variable of `program`, given the location that the
    /// driver answered for its name. Any answer makes a binding.
    pub fn new(program: &Shader, location: i32) -> (uniform: ShaderUniform)
        ensures
            uniform.spec_program_id() == program.program_id,
            uniform.spec_location() == location,
    {
        ShaderUniform { location, program_id: program.program_id }
    }

    /// The location of the variable.
    #[verifier::when_used_as_spec(spec_location)]
    pub fn location(&self) -> (location: i32)
        ensures
            location == self.spec_location(),
    {
        self.location
    }

    /// The program that the variable belongs to.
    #[verifier::when_used_as_spec(spec_program_id)]
    pub fn program_id(&self) -> (id: u32)
        ensures
            id == self.spec_program_id(),
    {
        self.program_id
    }

    /// Whether the program has the variable.
    pub fn is_resolved(&self) -> (resolved: bool)
        ensures
            resolved == (self.spec_location() != NOT_FOUND),
    {
        self.location != NOT_FOUND
    }

    /// The upload that writes one value of `shape` to the variable, at once
    /// and by itself. For a variable that the program does not have there is
    /// none: the write is dropped. `transpose` counts for matrices only.
    pub fn update(&self, shape: UniformShape, transpose: bool) -> (write: Option<UniformWrite>)
        ensures
            write == self.write_of(shape, transpose),
            self.spec_location() == NOT_FOUND ==> write is None,
    {
        if !self.is_resolved() {
            return None;
        }
        let matrix = match shape {
            UniformShape::Mat2 => true,
            UniformShape::Mat4 => true,
            _ => false,
        };
        let flag: u8 = if matrix && transpose {
            1
        } else {
            0
        };
        Some(
            UniformWrite {
                program_id: self.program_id,
                location: self.location,
                shape,
                count: 1,
                transpose: flag,
            },
        )
    }

    /// The upload of one number.
    pub fn update1f(&self) -> (write: Option<UniformWrite>)
        ensures
            write == self.write_of(UniformShape::Scalar, false),
    {
        self.update(UniformShape::Scalar, false)
    }

    /// The upload of one vector of two numbers.
    pub fn update2f(&self) -> (write: Option<UniformWrite>)
        ensures
            write == self.write_of(UniformShape::Vec2, false),
    {
        self.update(UniformShape::Vec2, false)
    }

    /// The upload of one vector of three numbers.
    pub fn update3f(&self) -> (write: Option<UniformWrite>)
        ensures
            write == self.write_of(UniformShape::Vec3, false),
    {
        self.update(UniformShape::Vec3, false)
    }

    /// The upload of one vector of four numbers.
    pub fn update4f(&self) -> (write: Option<UniformWrite>)
        ensures
            write == self.write_of(UniformShape::Vec4, false),
    {
        self.update(UniformShape::Vec4, false)
    }

    /// The upload of one matrix of two rows and columns, transposed on the
    /// way if `transpose` says so.
    pub fn updatefmat2(&self, transpose: bool) -> (write: Option<UniformWrite>)
        ensures
            write == self.write_of(UniformShape::Mat2, transpose),
    {
        self.update(UniformShape::Mat2, transpose)
    }

    /// The upload of one matrix of four rows and columns, transposed on the
    /// way if `transpose` says so.
    pub fn updatefmat4(&self, transpose: bool) -> (write: Option<UniformWrite>)
        ensures
            write == self.write_of(UniformShape::Mat4, transpose),
    {
        self.update(UniformShape::Mat4, transpose)
    }
}

} // verus!
