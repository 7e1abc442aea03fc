//! The render command stream.
//!
//! Scene composition does not issue draw calls itself: it produces an
//! ordered list of render commands, and the thin GPU layer executes them
//! one by one.  The ordering rules of the frame (shadow maps before the
//! opaque pass, the skybox under a relaxed depth test, each outline redraw
//! immediately after its object while the stencil mark is fresh) are thereby
//! facts about a sequence, stated and proved in the composition functions.

use vstd::prelude::*;

use crate::algebra::{Mat4w, Vec3w, Vec4w};

verus! {

/// One step of a frame, as the GPU layer executes it.
#[derive(Clone, Copy, Debug)]
pub enum RenderCmd {
    /// Set the viewport to the given size.
    SetViewport { width: u32, height: u32 },
    /// Cull front faces (shadow-pass peter-panning mitigation).
    CullFront,
    /// Cull back faces again.
    CullBack,
    /// Disable the stencil test.
    DisableStencil,
    /// Enable the stencil test.
    EnableStencil,
    /// Disable face culling.
    DisableCull,
    /// Enable face culling.
    EnableCull,
    /// Pass depth tests on equality, so far-plane geometry still draws.
    DepthLessOrEqual,
    /// The strict default depth test.
    DepthLess,
    /// Begin the outline redraw: color only where the stencil mark is
    /// missing, stencil writes off, depth test off.
    StencilOutlineBegin,
    /// End the outline redraw: restore stencil writes and the depth test.
    StencilOutlineEnd,
    /// Store the projection matrix in the shared uniform buffer.
    SetUboProjection(Mat4w),
    /// Store the view matrix in the shared uniform buffer.
    SetUboView(Mat4w),
    /// Store the model matrix in the shared uniform buffer.
    SetUboModel(Mat4w),
    /// Make the given shader program current.
    UseProgram(u32),
    /// Push the whole lighting set into the current program's uniforms.
    SetLightingUniforms,
    /// Push the camera position into the current program's uniforms.
    SetViewPos(Vec3w),
    /// Push the light-space matrix for shadow lookups.
    SetLightSpace(Mat4w),
    /// Bind the shadow map texture for the fragment shader.
    BindShadowMap,
    /// Re-upload the instance records of the given scene object.
    UploadInstances { object: usize },
    /// Draw the given scene object with that many instances.
    DrawObject { object: usize, instances: usize },
    /// Draw the given scene object once, for its outline silhouette.
    DrawOutline { object: usize },
    /// Draw the given skybox.
    DrawSkybox { skybox: usize },
    /// Push the outline color into the current program's uniforms.
    SetOutlineColor(Vec3w),
    /// Reset the shared texture-unit counter for a top-level draw.
    ResetTexUnits,
    /// Bind the given framebuffer for drawing.
    BindFramebuffer { fbo: u32 },
    /// Bind the default (visible) framebuffer.
    BindDefaultFramebuffer,
    /// Restore the viewport saved before the shadow pass.
    RestoreViewport,
    /// Set the clear color and clear the color, depth and stencil buffers.
    ClearBuffers { color: Vec4w },
    /// Set the clear color and clear the color buffer alone.
    ClearColorOnly { color: Vec4w },
    /// Disable the depth test for a screen-space draw.
    DisableDepth,
    /// Enable the depth test again.
    EnableDepth,
    /// Bind the shared uniform buffer to its binding point.
    BindUboBase,
    /// Push the gamma exponent into the current program's uniforms.
    SetGamma(u32),
    /// Bind a screen's color texture for the post-process shader.
    BindScreenTexture { texture: u32 },
    /// Push the multisample count into the current program's uniforms.
    SetSampleCount { samples: u32 },
    /// Toggle the edge-detection filter in the post-process shader.
    SetSobel(bool),
    /// Toggle multisample-aware resolution in the post-process shader.
    SetMsaa(bool),
    /// Re-upload a screen canvas's instance records.
    UploadCanvas,
    /// Draw a screen canvas with that many instances.
    DrawCanvas { instances: usize },
}

} // verus!
