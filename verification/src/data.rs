//! GPU object bookkeeping: buffer kinds, polygon modes and the framebuffer
//! completeness rule.
//!
//! A framebuffer that reports anything but the complete status after its
//! attachments are set up must never be rendered into: construction fails
//! loudly instead.

use vstd::prelude::*;

verus! {

/// The status value a complete framebuffer reports.
pub const FRAMEBUFFER_COMPLETE: u32 = 0x8CD5;

/// The buffer binding targets the meshes use.
#[derive(Debug, Clone, Copy, PartialEq, Eq, Structural)]
pub enum BufferType {
    Array,
    ElementArray,
}

impl BufferType {
    /// The GPU constant of the binding target.
    pub fn gl_value(&self) -> (r: u32)
        ensures
            r == match self {
                BufferType::Array => 0x8892u32,
                BufferType::ElementArray => 0x8893u32,
            },
    {
        match self {
            BufferType::Array => 0x8892,
            BufferType::ElementArray => 0x8893,
        }
    }
}

/// How polygons rasterize.
#[derive(Debug, Clone, Copy, PartialEq, Eq, Structural)]
pub enum PolygonMode {
    Point,
    Line,
    Fill,
}

impl PolygonMode {
    /// The GPU constant of the mode.
    pub fn gl_value(&self) -> (r: u32)
        ensures
            r == match self {
                PolygonMode::Point => 0x1B00u32,
                PolygonMode::Line => 0x1B01u32,
                PolygonMode::Fill => 0x1B02u32,
            },
    {
        match self {
            PolygonMode::Point => 0x1B00,
            PolygonMode::Line => 0x1B01,
            PolygonMode::Fill => 0x1B02,
        }
    }
}

/// An incomplete framebuffer, carrying the status it reported.
#[derive(Debug, Clone, Copy, PartialEq, Eq, Structural)]
pub struct IncompleteFramebuffer {
    pub status: u32,
}

/// Whether a reported framebuffer status is the complete one.
pub fn framebuffer_complete(status: u32) -> (r: bool)
    ensures
        r == (status == FRAMEBUFFER_COMPLETE),
{
    status == FRAMEBUFFER_COMPLETE
}

/// Accept a framebuffer only on the complete status: `Ok` exactly on the
/// complete constant, and the error carries the offending status, so setup
/// can fail loudly rather than render into an incomplete target.
pub fn require_complete(status: u32) -> (r: Result<(), IncompleteFramebuffer>)
    ensures
        r is Ok <==> status == FRAMEBUFFER_COMPLETE,
        r is Err ==> r->Err_0 == (IncompleteFramebuffer { status }),
{
    if status == FRAMEBUFFER_COMPLETE {
        Ok(())
    } else {
        Err(IncompleteFramebuffer { status })
    }
}

} // verus!
