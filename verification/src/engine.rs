//! The render engine: the object list, the active camera, and the frame that
//! one pass over the objects records.

use vstd::prelude::*;
use vstd::string::*;
use crate::command::{
    command_views, set_uniform, BufferBit, Flag, Rect, RenderCommand, Uniform, UniformValue,
};
use crate::material::{Material, MaterialParam, ShaderProgram};
use crate::math::{Isometry3f, Scalar, ONE_BITS};
use crate::scene::{
    Camera, Component, ComponentData, ComponentKind, ComponentView, GameObject, GameObjectView,
    Mesh, SurfaceView,
};

verus! {

/// Bit pattern of `0.2`, the grey that a frame is cleared to.
pub const FRAME_GREY_BITS: u32 = 0x3E4C_CCCD;

/// Bit pattern of `0.5`, the grey that the canvas starts with.
pub const CANVAS_GREY_BITS: u32 = 0x3F00_0000;

/// Bit pattern of `0.9`, the opacity that the canvas starts with.
pub const CANVAS_ALPHA_BITS: u32 = 0x3F66_6666;

/// The place `i` of `s` begins a run: it is the first place, or it holds
/// another value than the place before it.
pub open spec fn starts_run<T>(s: Seq<T>, i: int) -> bool {
    i == 0 || s[i - 1] != s[i]
}

/// The number of maximal runs of equal neighbours in `s`: of places that
/// begin a run.
pub open spec fn runs<T>(s: Seq<T>) -> nat
    decreases s.len(),
{
    if s.len() == 0 {
        0
    } else {
        runs(s.drop_last()) + if starts_run(s, s.len() - 1) {
            1nat
        } else {
            0nat
        }
    }
}

/// The program of each object, in drawing order.
pub open spec fn programs(objects: Seq<GameObjectView>) -> Seq<ShaderProgram> {
    Seq::new(objects.len(), |i: int| objects[i].material().program)
}

/// The mesh identity of each object, in drawing order.
pub open spec fn mesh_ids(objects: Seq<GameObjectView>) -> Seq<u64> {
    Seq::new(objects.len(), |i: int| objects[i].mesh_id())
}

/// Every object has a material and a mesh.
pub open spec fn all_drawable(objects: Seq<GameObjectView>) -> bool {
    forall|i: int| 0 <= i < objects.len() ==> (#[trigger] objects[i]).drawable()
}

/// The number of texture rows among the first `n` rows.
pub open spec fn textures_before(rows: Seq<(Seq<char>, MaterialParam)>, n: nat) -> nat
    decreases n,
{
    if n == 0 {
        0
    } else {
        textures_before(rows, (n - 1) as nat) + if rows[n - 1].1 is Texture {
            1nat
        } else {
            0nat
        }
    }
}

/// The commands that bind one row: a texture goes to the texture unit `unit`
/// and its sampler is pointed there; a number or a matrix is written to the
/// uniform of the row's name.
pub open spec fn row_commands(row: (Seq<char>, MaterialParam), unit: nat) -> Seq<
    RenderCommand<Seq<char>>,
> {
    match row.1 {
        MaterialParam::Texture(texture) => seq![
            RenderCommand::BindTexture { unit: unit as usize, texture },
            set_uniform(row.0, UniformValue::Sampler(unit as usize)),
        ],
        MaterialParam::Float(x) => seq![set_uniform(row.0, UniformValue::Float(x))],
        MaterialParam::Matrix(m) => seq![set_uniform(row.0, UniformValue::Matrix4(m))],
    }
}

/// The commands that bind the first `n` rows, in table order. Textures take
/// successive texture units, from zero.
pub open spec fn material_commands(rows: Seq<(Seq<char>, MaterialParam)>, n: nat) -> Seq<
    RenderCommand<Seq<char>>,
>
    decreases n,
{
    if n == 0 {
        Seq::empty()
    } else {
        material_commands(rows, (n - 1) as nat) + row_commands(
            rows[n - 1],
            textures_before(rows, (n - 1) as nat),
        )
    }
}

/// The commands that upload the matrices of the object at place `i`.
pub open spec fn transform_commands(i: int, camera: Camera) -> Seq<RenderCommand<Seq<char>>> {
    seq![
        set_uniform("uMVMatrix"@, UniformValue::ModelView(i as usize)),
        set_uniform("uPMatrix"@, UniformValue::Matrix4(camera.p)),
        set_uniform("uNMatrix"@, UniformValue::Normal(i as usize)),
    ]
}

/// One bind per surface, in order.
pub open spec fn bind_commands(surfaces: Seq<SurfaceView>) -> Seq<RenderCommand<Seq<char>>> {
    Seq::new(surfaces.len(), |k: int| RenderCommand::BindBuffer { buffer: surfaces[k].buffer })
}

/// One draw per surface, in order.
pub open spec fn draw_commands(surfaces: Seq<SurfaceView>) -> Seq<RenderCommand<Seq<char>>> {
    Seq::new(surfaces.len(), |k: int| RenderCommand::Draw { buffer: surfaces[k].buffer })
}

/// The commands that set up the material of the object at place `i`: its
/// program is made current where the place begins a run of programs, then
/// every row is bound.
pub open spec fn setup_commands(objects: Seq<GameObjectView>, i: int) -> Seq<
    RenderCommand<Seq<char>>,
> {
    let material = objects[i].material();
    (if starts_run(programs(objects), i) {
        seq![RenderCommand::UseProgram(material.program)]
    } else {
        Seq::empty()
    }) + material_commands(material.params, material.params.len())
}

/// The commands that draw the object at place `i` once its material is set
/// up: its matrices are uploaded, the buffers of its mesh are bound where the
/// place begins a run of mesh identities, then every surface is drawn.
pub open spec fn draw_object_commands(objects: Seq<GameObjectView>, i: int, camera: Camera) -> Seq<
    RenderCommand<Seq<char>>,
> {
    transform_commands(i, camera) + (if starts_run(mesh_ids(objects), i) {
        bind_commands(objects[i].mesh().surfaces)
    } else {
        Seq::empty()
    }) + draw_commands(objects[i].mesh().surfaces)
}

/// The commands for the object at place `i`.
pub open spec fn object_commands(objects: Seq<GameObjectView>, i: int, camera: Camera) -> Seq<
    RenderCommand<Seq<char>>,
> {
    setup_commands(objects, i) + draw_object_commands(objects, i, camera)
}

/// The commands for the first `n` objects, in list order.
pub open spec fn objects_commands(objects: Seq<GameObjectView>, camera: Camera, n: nat) -> Seq<
    RenderCommand<Seq<char>>,
>
    decreases n,
{
    if n == 0 {
        Seq::empty()
    } else {
        objects_commands(objects, camera, (n - 1) as nat) + object_commands(
            objects,
            n - 1,
            camera,
        )
    }
}

/// The commands that clear a frame.
pub open spec fn clear_commands() -> Seq<RenderCommand<Seq<char>>> {
    seq![
        RenderCommand::Clear(BufferBit::Color),
        RenderCommand::Clear(BufferBit::Depth),
        RenderCommand::ClearColor {
            r: Scalar { bits: FRAME_GREY_BITS },
            g: Scalar { bits: FRAME_GREY_BITS },
            b: Scalar { bits: FRAME_GREY_BITS },
            a: Scalar { bits: ONE_BITS },
        },
    ]
}

/// The viewport that covers a canvas of `size`.
pub open spec fn full_viewport(size: (u32, u32)) -> Rect {
    Rect { x: 0, y: 0, width: size.0, height: size.1 }
}

/// The commands that redirect a pass as `camera` asks.
pub open spec fn redirect_commands(camera: Camera) -> Seq<RenderCommand<Seq<char>>> {
    (match camera.render_texture {
        Some(target) => seq![RenderCommand::BindFramebuffer(target)],
        None => Seq::empty(),
    }) + (match camera.rect {
        Some(rect) => seq![RenderCommand::Viewport(rect)],
        None => Seq::empty(),
    })
}

/// The commands that undo what `redirect_commands(camera)` did.
pub open spec fn restore_commands(camera: Camera, size: (u32, u32)) -> Seq<
    RenderCommand<Seq<char>>,
> {
    (match camera.render_texture {
        Some(_) => seq![RenderCommand::UnbindFramebuffer],
        None => Seq::empty(),
    }) + (match camera.rect {
        Some(_) => seq![RenderCommand::Viewport(full_viewport(size))],
        None => Seq::empty(),
    })
}

/// The commands of one frame. Without a camera the frame is cleared and
/// nothing is drawn. With one, the pass is redirected as the camera asks,
/// the frame is cleared, every object is drawn in list order, and the
/// redirection is undone.
pub open spec fn frame_commands(
    objects: Seq<GameObjectView>,
    camera: Option<Camera>,
    size: (u32, u32),
) -> Seq<RenderCommand<Seq<char>>> {
    match camera {
        None => clear_commands(),
        Some(camera) => redirect_commands(camera) + clear_commands() + objects_commands(
            objects,
            camera,
            objects.len(),
        ) + restore_commands(camera, size),
    }
}

/// What is bound on the GPU while a frame is recorded, and how often it
/// changed.
#[derive(Debug)]
pub struct EngineContext {
    /// The identity of the mesh component that was drawn last.
    pub mesh: Option<u64>,
    pub switch_mesh: usize,
    pub switch_prog: usize,
    pub current_prog: Option<ShaderProgram>,
}

impl EngineContext {
    pub open spec fn spec_new() -> EngineContext {
        EngineContext { mesh: None, switch_mesh: 0, switch_prog: 0, current_prog: None }
    }

    /// The context at the start of a frame: nothing is bound.
    pub fn new() -> (r: EngineContext)
        ensures
            r == EngineContext::spec_new(),
    {
        EngineContext { mesh: None, switch_mesh: 0, switch_prog: 0, current_prog: None }
    }

    pub open spec fn spec_need_prepare_program(self, prog: ShaderProgram) -> bool {
        self.current_prog != Some(prog)
    }

    /// Whether `prog` has to be made current: no program is, or another one.
    pub fn need_prepare_program(&self, prog: &ShaderProgram) -> (r: bool)
        ensures
            r == self.spec_need_prepare_program(*prog),
    {
        match self.current_prog {
            None => true,
            Some(current) => current.id != prog.id,
        }
    }

    pub open spec fn spec_need_bind_mesh(self, mesh: u64) -> bool {
        self.mesh != Some(mesh)
    }

    /// Whether the mesh with identity `mesh` has to be bound: none is, or
    /// another one.
    pub fn need_bind_mesh(&self, mesh: u64) -> (r: bool)
        ensures
            r == self.spec_need_bind_mesh(mesh),
    {
        match self.mesh {
            None => true,
            Some(current) => current != mesh,
        }
    }
}

/// A recorded frame: its commands in order, and how often the program and
/// the mesh were switched.
#[derive(Debug)]
pub struct Frame {
    pub commands: Vec<RenderCommand<String>>,
    pub switch_prog: usize,
    pub switch_mesh: usize,
}

/// Why a scene cannot be drawn.
#[derive(Clone, Copy, PartialEq, Eq, Structural, Debug)]
pub enum SceneError {
    /// The object at this place has no material.
    MissingMaterial { object: usize },
    /// The object at this place has a material and no mesh.
    MissingMesh { object: usize },
}

/// The name of a game object in the engine's list: its place.
#[derive(Clone, Copy, PartialEq, Eq, Structural, Debug)]
pub struct Handle {
    pub index: usize,
}

fn push_command(commands: &mut Vec<RenderCommand<String>>, command: RenderCommand<String>)
    ensures
        command_views(final(commands)@) == command_views(old(commands)@).push(command@),
{
    commands.push(command);
}

fn push_uniform(commands: &mut Vec<RenderCommand<String>>, name: String, value: UniformValue)
    ensures
        command_views(final(commands)@) == command_views(old(commands)@).push(
            set_uniform(name@, value),
        ),
{
    push_command(commands, RenderCommand::SetUniform(Uniform { name, value }));
}

/// A sequence has at most as many runs as places, and one at least unless
/// it is empty.
pub proof fn lemma_runs_bounds<T>(s: Seq<T>)
    ensures
        runs(s) <= s.len(),
        s.len() > 0 ==> runs(s) >= 1,
    decreases s.len(),
{
    if s.len() > 0 {
        lemma_runs_bounds(s.drop_last());
    }
}

/// One more place adds a run exactly when it begins one.
pub proof fn lemma_runs_step<T>(s: Seq<T>, i: int)
    requires
        0 <= i < s.len(),
    ensures
        runs(s.take(i + 1)) == runs(s.take(i)) + if starts_run(s, i) {
            1nat
        } else {
            0nat
        },
{
    assert(s.take(i + 1).drop_last() =~= s.take(i));
}

/// A sequence of equal values that is not empty is one run.
pub proof fn lemma_runs_of_equal<T>(s: Seq<T>)
    requires
        s.len() > 0,
        forall|i: int| 0 <= i < s.len() ==> #[trigger] s[i] == s[0],
    ensures
        runs(s) == 1,
    decreases s.len(),
{
    if s.len() > 1 {
        let front = s.drop_last();
        lemma_runs_of_equal(front);
    } else {
        assert(runs(s.drop_last()) == 0);
    }
}

/// Objects that share one program and one mesh identity are drawn with one
/// switch of program and one bind of mesh, however many they are.
pub proof fn lemma_shared_state_is_bound_once(objects: Seq<GameObjectView>)
    requires
        objects.len() > 0,
        forall|i: int|
            0 <= i < objects.len() ==> (#[trigger] objects[i]).material().program
                == objects[0].material().program,
        forall|i: int|
            0 <= i < objects.len() ==> (#[trigger] objects[i]).mesh_id() == objects[0].mesh_id(),
    ensures
        runs(programs(objects)) == 1,
        runs(mesh_ids(objects)) == 1,
{
    lemma_runs_of_equal(programs(objects));
    lemma_runs_of_equal(mesh_ids(objects));
}

/// The source of identity tokens: each token is handed out once, in
/// increasing order, from 1.
#[derive(Debug)]
pub struct ComponentIds {
    next: u64,
}

impl ComponentIds {
    /// The token that is handed out next.
    pub closed spec fn peek(self) -> u64 {
        self.next
    }

    /// A source that starts at 1.
    pub fn new() -> (r: ComponentIds)
        ensures
            r.peek() == 1,
    {
        ComponentIds { next: 1 }
    }

    /// Whether a token is left.
    pub fn has_next(&self) -> (r: bool)
        ensures
            r == (self.peek() < u64::MAX),
    {
        self.next < u64::MAX
    }

    /// Hands out the next token.
    pub fn take(&mut self) -> (r: u64)
        requires
            old(self).peek() < u64::MAX,
        ensures
            r == old(self).peek(),
            final(self).peek() == old(self).peek() + 1,
    {
        let r = self.next;
        self.next = self.next + 1;
        r
    }
}

/// The render engine: the objects in creation order and the active camera.
#[derive(Debug)]
pub struct Engine {
    pub main_camera: Option<Camera>,
    pub objects: Vec<GameObject>,
    /// Width and height of the canvas in pixels.
    pub size: (u32, u32),
    pub ids: ComponentIds,
}

impl Engine {
    /// The objects as plain values, in list order.
    pub open spec fn object_views(self) -> Seq<GameObjectView> {
        Seq::new(self.objects@.len(), |i: int| self.objects@[i]@)
    }

    /// The identity token that the next new component gets.
    pub open spec fn next_id(self) -> u64 {
        self.ids.peek()
    }

    /// A frame can be drawn: without a camera always, with one where every
    /// object has a material and a mesh.
    pub open spec fn renderable(self) -> bool {
        self.main_camera is Some ==> all_drawable(self.object_views())
    }

    /// `h` names an object of the list.
    pub open spec fn holds(self, h: Handle) -> bool {
        h.index < self.objects@.len()
    }

    /// An engine for a canvas of `size`, without camera or objects. The
    /// first component it makes gets the identity token 1.
    pub fn new(size: (u32, u32)) -> (r: Engine)
        ensures
            r.main_camera is None,
            r.objects@ == Seq::<GameObject>::empty(),
            r.size == size,
            r.next_id() == 1,
    {
        Engine { main_camera: None, objects: Vec::new(), size, ids: ComponentIds::new() }
    }

    /// The commands that prepare a fresh canvas.
    pub open spec fn startup_commands(size: (u32, u32)) -> Seq<RenderCommand<Seq<char>>> {
        seq![
            RenderCommand::ClearColor {
                r: Scalar { bits: CANVAS_GREY_BITS },
                g: Scalar { bits: CANVAS_GREY_BITS },
                b: Scalar { bits: CANVAS_GREY_BITS },
                a: Scalar { bits: CANVAS_ALPHA_BITS },
            },
            RenderCommand::Enable(Flag::DepthTest),
            RenderCommand::Clear(BufferBit::Color),
            RenderCommand::Clear(BufferBit::Depth),
            RenderCommand::Viewport(full_viewport(size)),
        ]
    }

    /// The commands that prepare a fresh canvas for this engine: the clear
    /// colour is set, depth testing is switched on, both buffers are cleared
    /// and the viewport is set to the whole canvas.
    pub fn startup(&self) -> (r: Vec<RenderCommand<String>>)
        ensures
            command_views(r@) == Engine::startup_commands(self.size),
    {
        let mut r: Vec<RenderCommand<String>> = Vec::new();
        let grey = Scalar::from_bits(CANVAS_GREY_BITS);
        r.push(
            RenderCommand::ClearColor {
                r: grey,
                g: grey,
                b: grey,
                a: Scalar::from_bits(CANVAS_ALPHA_BITS),
            },
        );
        r.push(RenderCommand::Enable(Flag::DepthTest));
        r.push(RenderCommand::Clear(BufferBit::Color));
        r.push(RenderCommand::Clear(BufferBit::Depth));
        r.push(
            RenderCommand::Viewport(
                Rect { x: 0, y: 0, width: self.size.0, height: self.size.1 },
            ),
        );
        r
    }

    fn push_clear(commands: &mut Vec<RenderCommand<String>>)
        ensures
            command_views(final(commands)@) == command_views(old(commands)@) + clear_commands(),
    {
        let grey = Scalar::from_bits(FRAME_GREY_BITS);
        push_command(commands, RenderCommand::Clear(BufferBit::Color));
        push_command(commands, RenderCommand::Clear(BufferBit::Depth));
        push_command(
            commands,
            RenderCommand::ClearColor { r: grey, g: grey, b: grey, a: Scalar::one() },
        );
    }

    /// The commands that clear a frame: the colour buffer, the depth buffer,
    /// then the clear colour is set to an opaque dark grey.
    pub fn clear(&self) -> (r: Vec<RenderCommand<String>>)
        ensures
            command_views(r@) == clear_commands(),
    {
        let mut r: Vec<RenderCommand<String>> = Vec::new();
        Engine::push_clear(&mut r);
        r
    }

    /// Makes the program of `material` current unless it is, and binds every
    /// row of its table.
    fn setup_material(
        ctx: &mut EngineContext,
        material: &Material,
        commands: &mut Vec<RenderCommand<String>>,
    )
        requires
            old(ctx).switch_prog < usize::MAX,
        ensures
            final(ctx).current_prog == Some(material@.program),
            final(ctx).mesh == old(ctx).mesh,
            final(ctx).switch_mesh == old(ctx).switch_mesh,
            final(ctx).switch_prog == old(ctx).switch_prog + if old(
                ctx,
            ).spec_need_prepare_program(material@.program) {
                1nat
            } else {
                0nat
            },
            command_views(final(commands)@) == command_views(old(commands)@) + (if old(
                ctx,
            ).spec_need_prepare_program(material@.program) {
                seq![RenderCommand::UseProgram(material@.program)]
            } else {
                Seq::empty()
            }) + material_commands(material@.params, material@.params.len()),
    {
        let program = material.program();
        let need_prepare = ctx.need_prepare_program(&program);
        if need_prepare {
            push_command(commands, RenderCommand::UseProgram(program));
            ctx.current_prog = Some(program);
            ctx.switch_prog += 1;
        }
        let ghost base = command_views(commands@);
        let ghost rows = material@.params;
        let n = material.len();
        let mut unit: usize = 0;
        let mut k: usize = 0;
        while k < n
            invariant
                k <= n,
                n == rows.len(),
                rows == material@.params,
                unit == textures_before(rows, k as nat),
                unit <= k,
                command_views(commands@) == base + material_commands(rows, k as nat),
            decreases n - k,
        {
            let row = material.param(k);
            let name = row.name.clone();
            match row.value {
                MaterialParam::Texture(texture) => {
                    push_command(commands, RenderCommand::BindTexture { unit, texture });
                    push_uniform(commands, name, UniformValue::Sampler(unit));
                    unit += 1;
                },
                MaterialParam::Float(x) => {
                    push_uniform(commands, name, UniformValue::Float(x));
                },
                MaterialParam::Matrix(m) => {
                    push_uniform(commands, name, UniformValue::Matrix4(m));
                },
            }
            k += 1;
        }
    }

    fn push_binds(commands: &mut Vec<RenderCommand<String>>, mesh: &Mesh)
        ensures
            command_views(final(commands)@) == command_views(old(commands)@) + bind_commands(
                mesh@.surfaces,
            ),
    {
        let ghost base = command_views(commands@);
        let ghost surfaces = mesh@.surfaces;
        let n = mesh.surfaces.len();
        let mut k: usize = 0;
        while k < n
            invariant
                k <= n,
                n == mesh.surfaces.len(),
                surfaces == mesh@.surfaces,
                command_views(commands@) == base + bind_commands(surfaces).take(k as int),
            decreases n - k,
        {
            push_command(commands, RenderCommand::BindBuffer { buffer: mesh.surfaces[k].buffer });
            k += 1;
        }
    }

    fn push_draws(commands: &mut Vec<RenderCommand<String>>, mesh: &Mesh)
        ensures
            command_views(final(commands)@) == command_views(old(commands)@) + draw_commands(
                mesh@.surfaces,
            ),
    {
        let ghost base = command_views(commands@);
        let ghost surfaces = mesh@.surfaces;
        let n = mesh.surfaces.len();
        let mut k: usize = 0;
        while k < n
            invariant
                k <= n,
                n == mesh.surfaces.len(),
                surfaces == mesh@.surfaces,
                command_views(commands@) == base + draw_commands(surfaces).take(k as int),
            decreases n - k,
        {
            push_command(commands, RenderCommand::Draw { buffer: mesh.surfaces[k].buffer });
            k += 1;
        }
    }

    /// Uploads the matrices of the object at place `index`, binds the
    /// buffers of its mesh unless that mesh was drawn last, and draws every
    /// surface.
    fn render_object(
        ctx: &mut EngineContext,
        commands: &mut Vec<RenderCommand<String>>,
        index: usize,
        object: &GameObject,
        camera: &Camera,
    )
        requires
            object@.has(ComponentKind::Mesh),
            old(ctx).switch_mesh < usize::MAX,
        ensures
            final(ctx).current_prog == old(ctx).current_prog,
            final(ctx).switch_prog == old(ctx).switch_prog,
            final(ctx).mesh == old(ctx).mesh,
            final(ctx).switch_mesh == old(ctx).switch_mesh + if old(ctx).spec_need_bind_mesh(
                object@.mesh_id(),
            ) {
                1nat
            } else {
                0nat
            },
            command_views(final(commands)@) == command_views(old(commands)@) + transform_commands(
                index as int,
                *camera,
            ) + (if old(ctx).spec_need_bind_mesh(object@.mesh_id()) {
                bind_commands(object@.mesh().surfaces)
            } else {
                Seq::empty()
            }) + draw_commands(object@.mesh().surfaces),
    {
        push_uniform(commands, String::from_str("uMVMatrix"), UniformValue::ModelView(index));
        push_uniform(commands, String::from_str("uPMatrix"), UniformValue::Matrix4(camera.p));
        push_uniform(commands, String::from_str("uNMatrix"), UniformValue::Normal(index));

        let (mesh, id) = object.mesh().unwrap();
        let need_bind = ctx.need_bind_mesh(id);
        if need_bind {
            Engine::push_binds(commands, mesh);
            ctx.switch_mesh += 1;
        }
        Engine::push_draws(commands, mesh);
    }

    /// Records one frame.
    ///
    /// The frame is cleared. Without a camera nothing else happens. With one,
    /// the objects are drawn in list order: an object's program is made
    /// current only where it differs from the program of the object before
    /// it, the buffers of its mesh are bound only where the mesh's identity
    /// differs from that of the mesh of the object before it. The counters
    /// say how often either happened: once for every maximal run of equal
    /// neighbours.
    pub fn render(&self) -> (frame: Frame)
        requires
            self.renderable(),
        ensures
            command_views(frame.commands@) == frame_commands(
                self.object_views(),
                self.main_camera,
                self.size,
            ),
            frame.switch_prog == if self.main_camera is Some {
                runs(programs(self.object_views()))
            } else {
                0
            },
            frame.switch_mesh == if self.main_camera is Some {
                runs(mesh_ids(self.object_views()))
            } else {
                0
            },
    {
        let mut commands: Vec<RenderCommand<String>> = Vec::new();
        let mut ctx = EngineContext::new();
        let ghost views = self.object_views();
        match self.main_camera {
            None => {
                Engine::push_clear(&mut commands);
            },
            Some(camera) => {
                if let Some(target) = camera.render_texture {
                    push_command(&mut commands, RenderCommand::BindFramebuffer(target));
                }
                if let Some(rect) = camera.rect {
                    push_command(&mut commands, RenderCommand::Viewport(rect));
                }
                Engine::push_clear(&mut commands);
                let ghost head = command_views(commands@);

                let n = self.objects.len();
                let mut i: usize = 0;
                while i < n
                    invariant
                        i <= n,
                        n == self.objects.len(),
                        views == self.object_views(),
                        all_drawable(views),
                        ctx.current_prog == if i == 0 {
                            None
                        } else {
                            Some(programs(views)[i - 1])
                        },
                        ctx.mesh == if i == 0 {
                            None
                        } else {
                            Some(mesh_ids(views)[i - 1])
                        },
                        ctx.switch_prog == runs(programs(views).take(i as int)),
                        ctx.switch_mesh == runs(mesh_ids(views).take(i as int)),
                        command_views(commands@) == head + objects_commands(
                            views,
                            camera,
                            i as nat,
                        ),
                    decreases n - i,
                {
                    let object = &self.objects[i];
                    let ghost before = command_views(commands@);
                    proof {
                        lemma_runs_bounds(programs(views).take(i as int));
                        lemma_runs_bounds(mesh_ids(views).take(i as int));
                        lemma_runs_step(programs(views), i as int);
                        lemma_runs_step(mesh_ids(views), i as int);
                    }
                    let material = object.material().unwrap();
                    Engine::setup_material(&mut ctx, material, &mut commands);
                    Engine::render_object(&mut ctx, &mut commands, i, object, &camera);
                    let (_, id) = object.mesh().unwrap();
                    ctx.mesh = Some(id);
                    assert(command_views(commands@) =~= before + object_commands(
                        views,
                        i as int,
                        camera,
                    ));
                    i += 1;
                }
                assert(programs(views).take(n as int) =~= programs(views));
                assert(mesh_ids(views).take(n as int) =~= mesh_ids(views));
                if let Some(_target) = camera.render_texture {
                    push_command(&mut commands, RenderCommand::UnbindFramebuffer);
                }
                if let Some(_rect) = camera.rect {
                    push_command(
                        &mut commands,
                        RenderCommand::Viewport(
                            Rect { x: 0, y: 0, width: self.size.0, height: self.size.1 },
                        ),
                    );
                }
            },
        }
        Frame { commands, switch_prog: ctx.switch_prog, switch_mesh: ctx.switch_mesh }
    }

    /// The first object that cannot be drawn, with what it lacks; a missing
    /// material is reported before a missing mesh.
    pub open spec fn first_fault(objects: Seq<GameObjectView>, fault: SceneError) -> bool {
        match fault {
            SceneError::MissingMaterial { object } => {
                &&& object < objects.len()
                &&& all_drawable(objects.take(object as int))
                &&& !objects[object as int].has(ComponentKind::Material)
            },
            SceneError::MissingMesh { object } => {
                &&& object < objects.len()
                &&& all_drawable(objects.take(object as int))
                &&& objects[object as int].has(ComponentKind::Material)
                &&& !objects[object as int].has(ComponentKind::Mesh)
            },
        }
    }

    /// Tells whether every object can be drawn, and if not, which is the
    /// first that cannot and what it lacks.
    pub fn validate(&self) -> (r: Result<(), SceneError>)
        ensures
            r is Ok <==> all_drawable(self.object_views()),
            r is Err ==> Engine::first_fault(self.object_views(), r->Err_0),
    {
        let ghost views = self.object_views();
        let n = self.objects.len();
        let mut i: usize = 0;
        while i < n
            invariant
                i <= n,
                n == self.objects.len(),
                views == self.object_views(),
                all_drawable(views.take(i as int)),
            decreases n - i,
        {
            let object = &self.objects[i];
            assert(views[i as int] == object@);
            if object.material().is_none() {
                return Err(SceneError::MissingMaterial { object: i });
            }
            if object.mesh().is_none() {
                return Err(SceneError::MissingMesh { object: i });
            }
            i += 1;
        }
        assert(views.take(n as int) =~= views);
        Ok(())
    }

    /// Records one frame where the scene can be drawn, and says what is
    /// missing where it cannot.
    pub fn try_render(&self) -> (r: Result<Frame, SceneError>)
        ensures
            r is Ok <==> self.renderable(),
            r is Ok ==> {
                let frame = r->Ok_0;
                &&& command_views(frame.commands@) == frame_commands(
                    self.object_views(),
                    self.main_camera,
                    self.size,
                )
                &&& frame.switch_prog == if self.main_camera is Some {
                    runs(programs(self.object_views()))
                } else {
                    0
                }
                &&& frame.switch_mesh == if self.main_camera is Some {
                    runs(mesh_ids(self.object_views()))
                } else {
                    0
                }
            },
            r is Err ==> Engine::first_fault(self.object_views(), r->Err_0),
    {
        if self.main_camera.is_none() {
            return Ok(self.render());
        }
        match self.validate() {
            Ok(()) => Ok(self.render()),
            Err(fault) => Err(fault),
        }
    }

    /// Whether `h` names an object of the list.
    pub fn contains(&self, h: Handle) -> (r: bool)
        ensures
            r == self.holds(h),
    {
        h.index < self.objects.len()
    }

    /// The object that `h` names, if it names one.
    pub fn object(&self, h: Handle) -> (r: Option<&GameObject>)
        ensures
            r is Some <==> self.holds(h),
            r is Some ==> *r.unwrap() == self.objects[h.index as int],
    {
        if h.index < self.objects.len() {
            Some(&self.objects[h.index])
        } else {
            None
        }
    }

    /// The object that `h` names, for changing it in place.
    pub fn object_mut(&mut self, h: Handle) -> (r: &mut GameObject)
        requires
            old(self).holds(h),
        ensures
            *r == old(self).objects[h.index as int],
            final(self).objects@ == old(self).objects@.update(h.index as int, *final(r)),
            final(self).main_camera == old(self).main_camera,
            final(self).size == old(self).size,
            final(self).ids == old(self).ids,
    {
        &mut self.objects[h.index]
    }

    /// The object that a new game object at `transform` is: active, without
    /// components.
    pub open spec fn fresh_object(transform: Isometry3f) -> GameObjectView {
        GameObjectView { transform, components: Seq::empty(), active: true }
    }

    /// Appends a new game object at `transform` to the list and names it.
    pub fn new_gameobject(&mut self, transform: &Isometry3f) -> (h: Handle)
        ensures
            h.index == old(self).objects@.len(),
            final(self).holds(h),
            final(self).object_views() == old(self).object_views().push(
                Engine::fresh_object(*transform),
            ),
            final(self).main_camera == old(self).main_camera,
            final(self).size == old(self).size,
            final(self).ids == old(self).ids,
    {
        let h = Handle { index: self.objects.len() };
        let object = GameObject::new(*transform);
        self.objects.push(object);
        h
    }

    /// Hands out the next identity token: each call gives a token that no
    /// earlier call gave.
    pub fn next_component_id(&mut self) -> (id: u64)
        requires
            old(self).next_id() < u64::MAX,
        ensures
            id == old(self).next_id(),
            final(self).next_id() == id + 1,
            final(self).objects == old(self).objects,
            final(self).main_camera == old(self).main_camera,
            final(self).size == old(self).size,
    {
        self.ids.take()
    }

    /// Makes a component of `data` with the next identity token.
    pub fn new_component(&mut self, data: ComponentData) -> (c: Component)
        requires
            old(self).next_id() < u64::MAX,
        ensures
            c@.id == old(self).next_id(),
            c.spec_data() == data,
            final(self).next_id() == old(self).next_id() + 1,
            final(self).objects == old(self).objects,
            final(self).main_camera == old(self).main_camera,
            final(self).size == old(self).size,
    {
        let id = self.ids.take();
        Component::new(id, data)
    }

    /// The list with `component` appended to the components of the object at `index`.
    pub open spec fn with_component(
        objects: Seq<GameObjectView>,
        index: int,
        component: ComponentView,
    ) -> Seq<GameObjectView> {
        objects.update(
            index,
            GameObjectView {
                components: objects[index].components.push(component),
                ..objects[index]
            },
        )
    }

    /// Makes a component of `data` with the next identity token and appends
    /// it to the components of the object that `h` names.
    pub fn add_component(&mut self, h: Handle, data: ComponentData) -> (id: u64)
        requires
            old(self).holds(h),
            old(self).next_id() < u64::MAX,
        ensures
            id == old(self).next_id(),
            final(self).next_id() == id + 1,
            final(self).object_views() == Engine::with_component(
                old(self).object_views(),
                h.index as int,
                ComponentView { id, data: data@ },
            ),
            final(self).objects@.len() == old(self).objects@.len(),
            final(self).main_camera == old(self).main_camera,
            final(self).size == old(self).size,
    {
        let component = self.new_component(data);
        proof {
            broadcast use Component::lemma_view;

        }
        let id = component.id();
        let object = &mut self.objects[h.index];
        object.add_component(component);
        id
    }

    /// Appends the component `c`, with the identity token it has, to the
    /// components of the object that `h` names.
    pub fn attach(&mut self, h: Handle, c: Component)
        requires
            old(self).holds(h),
        ensures
            final(self).object_views() == Engine::with_component(
                old(self).object_views(),
                h.index as int,
                c@,
            ),
            final(self).objects@.len() == old(self).objects@.len(),
            final(self).main_camera == old(self).main_camera,
            final(self).size == old(self).size,
            final(self).ids == old(self).ids,
    {
        let object = &mut self.objects[h.index];
        object.add_component(c);
    }

    /// Removes every object. The names of the removed objects name nothing
    /// until new objects take their places.
    pub fn reset(&mut self)
        ensures
            final(self).object_views() == Seq::<GameObjectView>::empty(),
            final(self).objects@.len() == 0,
            final(self).main_camera == old(self).main_camera,
            final(self).size == old(self).size,
            final(self).ids == old(self).ids,
    {
        self.objects.clear();
    }

    /// Removes every object, then registers one new object at the identity
    /// pose that carries a new component of `root`.
    pub fn reset_with_root(&mut self, root: ComponentData) -> (h: Handle)
        requires
            old(self).next_id() < u64::MAX,
        ensures
            h.index == 0,
            final(self).objects@.len() == 1,
            final(self).object_views() == seq![
                GameObjectView {
                    transform: Isometry3f::spec_identity(),
                    components: seq![ComponentView { id: old(self).next_id(), data: root@ }],
                    active: true,
                },
            ],
            final(self).next_id() == old(self).next_id() + 1,
            final(self).main_camera == old(self).main_camera,
            final(self).size == old(self).size,
    {
        self.reset();
        let h = self.new_gameobject(&Isometry3f::identity());
        self.add_component(h, root);
        assert(self.object_views() =~= seq![
            GameObjectView {
                transform: Isometry3f::spec_identity(),
                components: seq![ComponentView { id: old(self).next_id(), data: root@ }],
                active: true,
            },
        ]);
        h
    }
}

/// After a reset the list is empty, and it holds exactly one object once one
/// object is registered; attaching components to that object adds none.
pub proof fn lemma_reset_then_register(transform: Isometry3f, component: ComponentView)
    ensures
        Seq::<GameObjectView>::empty().len() == 0,
        Seq::<GameObjectView>::empty().push(Engine::fresh_object(transform)).len() == 1,
        Engine::with_component(
            Seq::<GameObjectView>::empty().push(Engine::fresh_object(transform)),
            0,
            component,
        ).len() == 1,
{
}

} // verus!
