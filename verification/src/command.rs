//! What the core hands to the GPU layer: uniform writes and render commands.
//!
//! A command that carries a uniform name is generic in how the name is held:
//! recorded commands own a `String`, and their views hold the name as a
//! sequence of characters.

use vstd::prelude::*;
use crate::math::{Matrix4f, Scalar, Vector3f};
use crate::material::{ShaderProgram, Texture};

verus! {

/// A block of vertex and index data that lives on the GPU, known by its handle.
#[derive(Clone, Copy, PartialEq, Eq, Structural, Debug)]
pub struct MeshBuffer {
    pub id: u64,
}

/// What an offscreen target stores.
#[derive(Clone, Copy, PartialEq, Eq, Structural, Debug)]
pub enum TextureAttachment {
    Color,
    Depth,
}

/// A viewport in pixels: origin and extent.
#[derive(Clone, Copy, PartialEq, Eq, Structural, Debug)]
pub struct Rect {
    pub x: u32,
    pub y: u32,
    pub width: u32,
    pub height: u32,
}

/// An offscreen render target of fixed size.
#[derive(Clone, Copy, PartialEq, Eq, Structural, Debug)]
pub struct RenderTexture {
    pub texture: Texture,
    pub width: u32,
    pub height: u32,
    pub attachment: TextureAttachment,
}

impl RenderTexture {
    /// A target of the given size that renders into `texture`.
    pub fn new(texture: Texture, width: u32, height: u32, attachment: TextureAttachment) -> (r:
        RenderTexture)
        ensures
            r == (RenderTexture { texture, width, height, attachment }),
    {
        RenderTexture { texture, width, height, attachment }
    }

    /// The target's content as a texture that a material can sample.
    pub fn as_texture(&self) -> (r: Texture)
        ensures
            r == self.texture,
    {
        self.texture
    }

    pub open spec fn spec_full_rect(self) -> Rect {
        Rect { x: 0, y: 0, width: self.width, height: self.height }
    }

    /// The viewport that covers the whole target.
    pub fn full_rect(&self) -> (r: Rect)
        ensures
            r == self.spec_full_rect(),
    {
        Rect { x: 0, y: 0, width: self.width, height: self.height }
    }
}

/// One of the frame's buffers.
#[derive(Clone, Copy, PartialEq, Eq, Structural, Debug)]
pub enum BufferBit {
    Color,
    Depth,
}

/// A switch of the GPU pipeline.
#[derive(Clone, Copy, PartialEq, Eq, Structural, Debug)]
pub enum Flag {
    DepthTest,
}

/// The value written to a uniform.
#[derive(Clone, Copy, PartialEq, Eq, Structural, Debug)]
pub enum UniformValue {
    Float(Scalar),
    Vector3(Vector3f),
    Matrix4(Matrix4f),
    /// The texture unit that a sampler reads.
    Sampler(usize),
    /// The camera's view matrix times the model matrix of the object at this
    /// place in the object list.
    ModelView(usize),
    /// The transpose of the inverse of the model matrix of the object at this
    /// place in the object list.
    Normal(usize),
}

/// A write of `value` to the uniform `name` of the current program.
#[derive(PartialEq, Eq, Debug)]
pub struct Uniform<N> {
    pub name: N,
    pub value: UniformValue,
}

impl View for Uniform<String> {
    type V = Uniform<Seq<char>>;

    open spec fn view(&self) -> Uniform<Seq<char>> {
        Uniform { name: self.name@, value: self.value }
    }
}

/// The views of a list of uniform writes.
pub open spec fn uniform_views(writes: Seq<Uniform<String>>) -> Seq<Uniform<Seq<char>>> {
    Seq::new(writes.len(), |i: int| writes[i]@)
}

/// One step of a frame, in the order in which the GPU layer performs it.
#[derive(PartialEq, Eq, Debug)]
pub enum RenderCommand<N> {
    /// Sets the colour that `Clear(BufferBit::Color)` fills with.
    ClearColor { r: Scalar, g: Scalar, b: Scalar, a: Scalar },
    Clear(BufferBit),
    Enable(Flag),
    Viewport(Rect),
    /// Redirects drawing into an offscreen target.
    BindFramebuffer(RenderTexture),
    /// Directs drawing back to the default framebuffer.
    UnbindFramebuffer,
    /// Prepares the program, if it is not yet, and makes it current.
    UseProgram(ShaderProgram),
    BindTexture { unit: usize, texture: Texture },
    SetUniform(Uniform<N>),
    /// Binds the vertex and index data behind `buffer` against the current
    /// program.
    BindBuffer { buffer: MeshBuffer },
    /// Draws the surface whose data is behind `buffer`, as it was bound last.
    Draw { buffer: MeshBuffer },
}

impl View for RenderCommand<String> {
    type V = RenderCommand<Seq<char>>;

    open spec fn view(&self) -> RenderCommand<Seq<char>> {
        match *self {
            RenderCommand::ClearColor { r, g, b, a } => RenderCommand::ClearColor { r, g, b, a },
            RenderCommand::Clear(bit) => RenderCommand::Clear(bit),
            RenderCommand::Enable(flag) => RenderCommand::Enable(flag),
            RenderCommand::Viewport(rect) => RenderCommand::Viewport(rect),
            RenderCommand::BindFramebuffer(target) => RenderCommand::BindFramebuffer(target),
            RenderCommand::UnbindFramebuffer => RenderCommand::UnbindFramebuffer,
            RenderCommand::UseProgram(program) => RenderCommand::UseProgram(program),
            RenderCommand::BindTexture { unit, texture } => RenderCommand::BindTexture {
                unit,
                texture,
            },
            RenderCommand::SetUniform(u) => RenderCommand::SetUniform(u@),
            RenderCommand::BindBuffer { buffer } => RenderCommand::BindBuffer { buffer },
            RenderCommand::Draw { buffer } => RenderCommand::Draw { buffer },
        }
    }
}

/// The views of a list of commands.
pub open spec fn command_views(commands: Seq<RenderCommand<String>>) -> Seq<
    RenderCommand<Seq<char>>,
> {
    Seq::new(commands.len(), |i: int| commands[i]@)
}

/// The write of `value` to the uniform `name`, as a value of specifications.
pub open spec fn uniform(name: Seq<char>, value: UniformValue) -> Uniform<Seq<char>> {
    Uniform { name, value }
}

/// The command that writes `value` to the uniform `name`, as a value of
/// specifications.
pub open spec fn set_uniform(name: Seq<char>, value: UniformValue) -> RenderCommand<Seq<char>> {
    RenderCommand::SetUniform(Uniform { name, value })
}

} // verus!
