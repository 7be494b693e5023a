//! Device buffer classification enums and their wire values.
//!
//! The device API identifies buffer kinds, usage hints and component types
//! by fixed numeric codes from the OpenGL registry.  The enums here are the
//! library's own; each maps to its registry value through a verified
//! function, and the application layer hands those values to the device.

use vstd::prelude::*;

verus! {

/// The binding target of a device buffer object.
#[derive(Debug, Clone, Copy, PartialEq, Eq, Structural)]
pub enum BufferType {
    Array,
    ElementArray,
    Texture,
}

/// The usage hint given to the device when a buffer is filled.
#[derive(Debug, Clone, Copy, PartialEq, Eq, Structural)]
pub enum DrawType {
    Stream,
    Static,
    Dynamic,
}

/// The component type of a vertex attribute.
#[derive(Debug, Clone, Copy, PartialEq, Eq, Structural)]
pub enum ObjectType {
    Float,
    Int,
}

/// The OpenGL registry code for a buffer binding target.
pub open spec fn spec_buffer_type_gl(b: BufferType) -> u32 {
    match b {
        BufferType::Array => 0x8892,
        BufferType::ElementArray => 0x8893,
        BufferType::Texture => 0x8C2A,
    }
}

/// The OpenGL registry code for a usage hint.
pub open spec fn spec_draw_type_gl(d: DrawType) -> u32 {
    match d {
        DrawType::Stream => 0x88E0,
        DrawType::Static => 0x88E4,
        DrawType::Dynamic => 0x88E8,
    }
}

/// The OpenGL registry code for an attribute component type.
pub open spec fn spec_object_type_gl(o: ObjectType) -> u32 {
    match o {
        ObjectType::Float => 0x1406,
        ObjectType::Int => 0x1404,
    }
}

impl BufferType {
    /// The numeric code the device API uses for this binding target.
    pub fn as_gl_enum(&self) -> (r: u32)
        ensures
            r == spec_buffer_type_gl(*self),
    {
        match self {
            BufferType::Array => 0x8892,
            BufferType::ElementArray => 0x8893,
            BufferType::Texture => 0x8C2A,
        }
    }
}

impl DrawType {
    /// The numeric code the device API uses for this usage hint.
    pub fn as_gl_enum(&self) -> (r: u32)
        ensures
            r == spec_draw_type_gl(*self),
    {
        match self {
            DrawType::Stream => 0x88E0,
            DrawType::Static => 0x88E4,
            DrawType::Dynamic => 0x88E8,
        }
    }
}

impl ObjectType {
    /// The numeric code the device API uses for this component type.
    pub fn as_gl_enum(&self) -> (r: u32)
        ensures
            r == spec_object_type_gl(*self),
    {
        match self {
            ObjectType::Float => 0x1406,
            ObjectType::Int => 0x1404,
        }
    }
}

} // verus!
