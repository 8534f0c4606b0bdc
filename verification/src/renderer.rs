//! The sprite batch renderer.
//!
//! Quads accumulate per atlas name into vertex batches; a flush hands the
//! non-empty batches out as draw commands together with the camera and
//! viewport uniforms, and empties every batch in place. All values are
//! exact rationals; the host converts them to floating point when it talks
//! to the GPU.
use vstd::prelude::*;

use crate::atlas::Texture;
use crate::atlas::TextureV;
use crate::geom::Vec2;
use crate::geom::Vec2V;
use crate::geom::Vec3;
use crate::geom::Vec3V;
use crate::rational::rv_add;
use crate::rational::rv_half;
use crate::rational::rv_neg;
use crate::rational::rv_small;
use crate::rational::rv_sub;
use crate::rational::rv_int;
use crate::rational::rv_round;
use crate::rational::Rat;
use crate::rational::RatV;
use crate::viewport::logical_axis;
use crate::viewport::ortho_params;
use crate::viewport::spec_logical_axis;
use crate::viewport::spec_ortho;
use crate::viewport::spec_world_translation;
use crate::viewport::ui_translation;
use crate::viewport::world_translation;
use crate::viewport::OrthoParams;
use crate::viewport::VIEWPORT_MAX;

verus! {

/// Largest number of quads one batch may hold; the shared index buffer is
/// generated once for this many quads.
pub const MAX_QUADS: usize = 11000;

/// The mathematical value of a [`Vertex`].
pub struct VertexV {
    pub x: RatV,
    pub y: RatV,
    pub z: RatV,
    pub tint_r: RatV,
    pub tint_g: RatV,
    pub tint_b: RatV,
    pub u: RatV,
    pub v: RatV,
}

/// One corner of a quad: position (with depth), tint and texture
/// coordinates.
#[derive(Clone, Copy, Debug, PartialEq, Eq, Structural)]
pub struct Vertex {
    pub x: Rat,
    pub y: Rat,
    pub z: Rat,
    pub tint_r: Rat,
    pub tint_g: Rat,
    pub tint_b: Rat,
    pub u: Rat,
    pub v: Rat,
}

impl View for Vertex {
    type V = VertexV;

    open spec fn view(&self) -> VertexV {
        VertexV {
            x: self.x@,
            y: self.y@,
            z: self.z@,
            tint_r: self.tint_r@,
            tint_g: self.tint_g@,
            tint_b: self.tint_b@,
            u: self.u@,
            v: self.v@,
        }
    }
}

/// The four corners of an axis-aligned quad centered horizontally on
/// `pos.x` with its bottom edge at `pos.y`, in the order bottom-left,
/// bottom-right, top-left, top-right. The texture's vertical axis is
/// flipped: its top row maps to the quad's top edge.
pub open spec fn spec_quad_vertices(
    pos: Vec2V,
    size: Vec2V,
    tex: TextureV,
    depth: RatV,
    tint: Vec3V,
) -> Seq<VertexV> {
    let left = rv_sub(pos.x, rv_half(size.x));
    let right = rv_add(pos.x, rv_half(size.x));
    let top = rv_add(pos.y, size.y);
    let u1 = rv_add(tex.start.x, tex.size.x);
    let v1 = rv_add(tex.start.y, tex.size.y);
    seq![
        VertexV {
            x: left,
            y: pos.y,
            z: depth,
            tint_r: tint.x,
            tint_g: tint.y,
            tint_b: tint.z,
            u: tex.start.x,
            v: v1,
        },
        VertexV {
            x: right,
            y: pos.y,
            z: depth,
            tint_r: tint.x,
            tint_g: tint.y,
            tint_b: tint.z,
            u: u1,
            v: v1,
        },
        VertexV {
            x: left,
            y: top,
            z: depth,
            tint_r: tint.x,
            tint_g: tint.y,
            tint_b: tint.z,
            u: tex.start.x,
            v: tex.start.y,
        },
        VertexV {
            x: right,
            y: top,
            z: depth,
            tint_r: tint.x,
            tint_g: tint.y,
            tint_b: tint.z,
            u: u1,
            v: tex.start.y,
        },
    ]
}

/// The mathematical value of a batch: an atlas name and its pending
/// vertices.
pub struct BatchV {
    pub name: Seq<char>,
    pub verts: Seq<VertexV>,
}

struct Batch {
    name: String,
    verts: Vec<Vertex>,
}

impl View for Batch {
    type V = BatchV;

    closed spec fn view(&self) -> BatchV {
        BatchV { name: self.name@, verts: self.verts@.map_values(|v: Vertex| v@) }
    }
}

/// True iff some batch carries this atlas name.
pub open spec fn spec_has_batch(batches: Seq<BatchV>, name: Seq<char>) -> bool {
    exists|i: int| 0 <= i < batches.len() && batches[i].name == name
}

/// Batch names are unique, and every batch holds whole quads within the
/// index buffer's capacity.
pub open spec fn spec_batches_wf(batches: Seq<BatchV>) -> bool {
    &&& forall|i: int, j: int|
        0 <= i < j < batches.len() ==> batches[i].name != batches[j].name
    &&& forall|i: int|
        0 <= i < batches.len() ==> (#[trigger] batches[i].verts.len()) % 4 == 0
            && batches[i].verts.len() <= 4 * MAX_QUADS
}

/// One `draw_quad` call on the batch list: the four vertices are appended
/// to the batch of the texture's atlas, which is created at the end of the
/// list on its first use. A quad that would overflow the batch's capacity
/// is dropped.
pub open spec fn spec_draw_quad(
    r: RendererV,
    pos: Vec2V,
    size: Vec2V,
    tex: TextureV,
    depth: RatV,
    tint: Vec3V,
) -> RendererV {
    let vs = spec_quad_vertices(pos, size, tex, depth, tint);
    if spec_has_batch(r.batches, tex.name) {
        RendererV {
            batches: Seq::new(
                r.batches.len(),
                |i: int|
                    if r.batches[i].name == tex.name && r.batches[i].verts.len() + 4 <= 4
                        * MAX_QUADS {
                        BatchV { name: r.batches[i].name, verts: r.batches[i].verts + vs }
                    } else {
                        r.batches[i]
                    },
            ),
            ..r
        }
    } else {
        RendererV { batches: r.batches.push(BatchV { name: tex.name, verts: vs }), ..r }
    }
}

/// Six indices per quad slot: two triangles over the slot's four vertices.
pub open spec fn spec_quad_indices_ok(s: Seq<u16>, p: int) -> bool {
    &&& s[6 * p + 0] == 4 * p + 0
    &&& s[6 * p + 1] == 4 * p + 1
    &&& s[6 * p + 2] == 4 * p + 2
    &&& s[6 * p + 3] == 4 * p + 2
    &&& s[6 * p + 4] == 4 * p + 3
    &&& s[6 * p + 5] == 4 * p + 1
}

/// The atlas name of the UI layer, which is drawn in screen space, exempt
/// from the camera translation.
pub open spec fn spec_ui_name() -> Seq<char> {
    "ui"@
}

/// The mathematical value of a [`DrawCommand`].
pub struct DrawCommandV {
    pub name: Seq<char>,
    pub verts: Seq<VertexV>,
    pub quad_count: int,
    pub is_ui: bool,
}

/// One pending draw call: the vertices of one atlas's batch, the number of
/// quads they form, and whether the batch is the screen-space UI layer.
#[derive(Debug)]
pub struct DrawCommand {
    pub atlas_name: String,
    pub vertices: Vec<Vertex>,
    pub quad_count: usize,
    pub is_ui: bool,
}

impl View for DrawCommand {
    type V = DrawCommandV;

    open spec fn view(&self) -> DrawCommandV {
        DrawCommandV {
            name: self.atlas_name@,
            verts: self.vertices@.map_values(|v: Vertex| v@),
            quad_count: self.quad_count as int,
            is_ui: self.is_ui,
        }
    }
}

/// The draw command of one batch.
pub open spec fn spec_command_of(b: BatchV) -> DrawCommandV {
    DrawCommandV {
        name: b.name,
        verts: b.verts,
        quad_count: (b.verts.len() / 4) as int,
        is_ui: b.name == spec_ui_name(),
    }
}

/// The draw commands of a flush: one per non-empty batch, in batch order.
pub open spec fn spec_commands(batches: Seq<BatchV>) -> Seq<DrawCommandV>
    decreases batches.len(),
{
    if batches.len() == 0 {
        Seq::empty()
    } else {
        let rest = spec_commands(batches.drop_last());
        if batches.last().verts.len() > 0 {
            rest.push(spec_command_of(batches.last()))
        } else {
            rest
        }
    }
}

/// The batch list after a flush: every batch emptied in place, names and
/// order kept.
pub open spec fn spec_cleared(batches: Seq<BatchV>) -> Seq<BatchV> {
    Seq::new(
        batches.len(),
        |i: int| BatchV { name: batches[i].name, verts: Seq::empty() },
    )
}

/// Everything one frame's flush hands to the GPU host: the per-batch draw
/// commands and the frame's uniforms.
pub struct FrameOutput {
    pub commands: Vec<DrawCommand>,
    pub ortho: OrthoParams,
    pub world_translation: Vec3,
    pub ui_translation: Vec3,
    pub fire_pos: Vec2,
    pub fire_heat: Rat,
    pub selected_program: usize,
}

/// The mathematical value of a [`Renderer`].
pub struct RendererV {
    pub batches: Seq<BatchV>,
    pub indices: Seq<u16>,
    pub viewport_w: int,
    pub viewport_h: int,
    pub camera_x: int,
    pub camera_y: int,
    pub fire_pos: Vec2V,
    pub fire_heat: RatV,
    pub program_count: int,
    pub selected_program: int,
}

/// Accumulates per-texture vertex batches and the per-frame camera and
/// viewport state.
pub struct Renderer {
    batches: Vec<Batch>,
    indices: Vec<u16>,
    viewport_w: u32,
    viewport_h: u32,
    camera_x: i64,
    camera_y: i64,
    fire_pos: Vec2,
    fire_heat: Rat,
    program_count: usize,
    selected_program: usize,
}

spec fn spec_batches_view(batches: Seq<Batch>) -> Seq<BatchV> {
    batches.map_values(|b: Batch| b@)
}

impl View for Renderer {
    type V = RendererV;

    closed spec fn view(&self) -> RendererV {
        RendererV {
            batches: spec_batches_view(self.batches@),
            indices: self.indices@,
            viewport_w: self.viewport_w as int,
            viewport_h: self.viewport_h as int,
            camera_x: self.camera_x as int,
            camera_y: self.camera_y as int,
            fire_pos: self.fire_pos@,
            fire_heat: self.fire_heat@,
            program_count: self.program_count as int,
            selected_program: self.selected_program as int,
        }
    }
}

fn find_batch(batches: &Vec<Batch>, name: &String) -> (r: Option<usize>)
    ensures
        match r {
            Some(i) => i < batches@.len() && batches@[i as int]@.name == name@,
            None => forall|i: int| 0 <= i < batches@.len() ==> batches@[i]@.name != name@,
        },
{
    let n = batches.len();
    let mut i: usize = 0;
    while i < n
        invariant
            i <= n,
            n == batches@.len(),
            forall|j: int| 0 <= j < i ==> batches@[j]@.name != name@,
        decreases n - i,
    {
        if batches[i].name == *name {
            return Some(i);
        }
        i = i + 1;
    }
    None
}

impl Renderer {
    pub open spec fn wf(&self) -> bool {
        &&& spec_batches_wf(self@.batches)
        &&& self@.indices.len() == 6 * MAX_QUADS
        &&& forall|p: int| 0 <= p < MAX_QUADS ==> spec_quad_indices_ok(self@.indices, p)
        &&& 0 <= self@.viewport_w <= 16384
        &&& 0 <= self@.viewport_h <= 16384
        &&& -0x100_0000_0000 <= self@.camera_x <= 0x100_0000_0000
        &&& -0x100_0000_0000 <= self@.camera_y <= 0x100_0000_0000
        &&& rv_small(self@.fire_pos.x)
        &&& rv_small(self@.fire_pos.y)
        &&& rv_small(self@.fire_heat)
        &&& (self@.selected_program < self@.program_count || (self@.program_count == 0
            && self@.selected_program == 0))
    }

    /// A fresh renderer: no batches, no programs, camera at the origin, and
    /// the shared static index buffer generated for [`MAX_QUADS`] quads.
    pub fn new() -> (r: Renderer)
        ensures
            r.wf(),
            r@.batches.len() == 0,
            r@.viewport_w == 0,
            r@.viewport_h == 0,
            r@.camera_x == 0,
            r@.camera_y == 0,
            r@.fire_pos.x == rv_int(0),
            r@.fire_pos.y == rv_int(0),
            r@.fire_heat == rv_int(0),
            r@.program_count == 0,
            r@.selected_program == 0,
    {
        let mut indices: Vec<u16> = Vec::new();
        let mut q: usize = 0;
        while q < MAX_QUADS
            invariant
                q <= MAX_QUADS,
                indices@.len() == 6 * q,
                forall|p: int| 0 <= p < q ==> spec_quad_indices_ok(indices@, p),
            decreases MAX_QUADS - q,
        {
            let ghost prev = indices@;
            let offset: u16 = (4 * q) as u16;
            indices.push(offset);
            indices.push(offset + 1);
            indices.push(offset + 2);
            indices.push(offset + 2);
            indices.push(offset + 3);
            indices.push(offset + 1);
            proof {
                assert(indices@ =~= prev + seq![
                    offset,
                    (offset + 1) as u16,
                    (offset + 2) as u16,
                    (offset + 2) as u16,
                    (offset + 3) as u16,
                    (offset + 1) as u16,
                ]);
                assert(spec_quad_indices_ok(indices@, q as int));
                assert forall|p: int| 0 <= p < q implies spec_quad_indices_ok(indices@, p) by {
                    assert(spec_quad_indices_ok(prev, p));
                }
            }
            q = q + 1;
        }
        Renderer {
            batches: Vec::new(),
            indices,
            viewport_w: 0,
            viewport_h: 0,
            camera_x: 0,
            camera_y: 0,
            fire_pos: Vec2 { x: Rat::from_int(0), y: Rat::from_int(0) },
            fire_heat: Rat::from_int(0),
            program_count: 0,
            selected_program: 0,
        }
    }

    /// Appends one quad to the batch of `texture`'s atlas name.
    pub fn draw_quad_with_depth_and_tint(
        &mut self,
        pos: Vec2,
        size: Vec2,
        texture: &Texture,
        depth: Rat,
        tint: Vec3,
    )
        requires
            old(self).wf(),
            pos.small(),
            size.small(),
            texture.wf(),
            depth.small(),
            tint.small(),
        ensures
            final(self).wf(),
            final(self)@ == spec_draw_quad(old(self)@, pos@, size@, texture@, depth@, tint@),
    {
        let left = pos.x.sub_half(size.x);
        let right = pos.x.add_half(size.x);
        let top = pos.y.add(size.y);
        let u1 = texture.start.x.add(texture.size.x);
        let v1 = texture.start.y.add(texture.size.y);
        let vert0 = Vertex {
            x: left,
            y: pos.y,
            z: depth,
            tint_r: tint.x,
            tint_g: tint.y,
            tint_b: tint.z,
            u: texture.start.x,
            v: v1,
        };
        let vert1 = Vertex {
            x: right,
            y: pos.y,
            z: depth,
            tint_r: tint.x,
            tint_g: tint.y,
            tint_b: tint.z,
            u: u1,
            v: v1,
        };
        let vert2 = Vertex {
            x: left,
            y: top,
            z: depth,
            tint_r: tint.x,
            tint_g: tint.y,
            tint_b: tint.z,
            u: texture.start.x,
            v: texture.start.y,
        };
        let vert3 = Vertex {
            x: right,
            y: top,
            z: depth,
            tint_r: tint.x,
            tint_g: tint.y,
            tint_b: tint.z,
            u: u1,
            v: texture.start.y,
        };
        let ghost vs = spec_quad_vertices(pos@, size@, texture@, depth@, tint@);
        proof {
            assert(seq![vert0@, vert1@, vert2@, vert3@] =~= vs);
        }
        match find_batch(&self.batches, &texture.texture_name) {
            Some(i) => {
                let ghost oldb = self@.batches;
                let ghost oldvec = self.batches@;
                proof {
                    assert(oldb[i as int] == oldvec[i as int]@);
                    assert(spec_has_batch(oldb, texture@.name)) by {
                        assert((i as int) < oldb.len() && oldb[i as int].name == texture@.name);
                    }
                }
                let mut b = self.batches.remove(i);
                if b.verts.len() <= 4 * MAX_QUADS - 4 {
                    b.verts.push(vert0);
                    b.verts.push(vert1);
                    b.verts.push(vert2);
                    b.verts.push(vert3);
                    proof {
                        assert(b@.verts =~= oldb[i as int].verts + vs);
                    }
                }
                self.batches.insert(i, b);
                proof {
                    let newb = spec_draw_quad(
                        old(self)@,
                        pos@,
                        size@,
                        texture@,
                        depth@,
                        tint@,
                    ).batches;
                    assert(self.batches@ =~= oldvec.update(i as int, self.batches@[i as int]));
                    assert forall|j: int|
                        0 <= j < oldb.len() && j != i implies oldb[j].name != texture@.name by {
                        if j < i {
                            assert(oldb[j].name != oldb[i as int].name);
                        } else {
                            assert(oldb[i as int].name != oldb[j].name);
                        }
                    }
                    assert forall|j: int| 0 <= j < newb.len() implies self@.batches[j]
                        == newb[j] by {
                        assert(self@.batches[j] == self.batches@[j]@);
                        if j != i {
                            assert(self.batches@[j] == oldvec[j]);
                        }
                    }
                    assert(self@.batches =~= newb);
                }
            },
            None => {
                let mut verts: Vec<Vertex> = Vec::new();
                verts.push(vert0);
                verts.push(vert1);
                verts.push(vert2);
                verts.push(vert3);
                let b = Batch { name: texture.texture_name.clone(), verts };
                proof {
                    assert(b@.verts =~= vs);
                }
                self.batches.push(b);
                proof {
                    let newb = spec_draw_quad(
                        old(self)@,
                        pos@,
                        size@,
                        texture@,
                        depth@,
                        tint@,
                    ).batches;
                    assert(!spec_has_batch(old(self)@.batches, texture@.name));
                    assert(self@.batches =~= newb);
                }
            },
        }
    }

    /// [`Renderer::draw_quad_with_depth_and_tint`] with the default depth
    /// `-pos.y`, so in a top-down world farther-away quads sit deeper.
    pub fn draw_quad_with_tint(&mut self, pos: Vec2, size: Vec2, texture: &Texture, tint: Vec3)
        requires
            old(self).wf(),
            pos.small(),
            size.small(),
            texture.wf(),
            tint.small(),
        ensures
            final(self).wf(),
            final(self)@ == spec_draw_quad(
                old(self)@,
                pos@,
                size@,
                texture@,
                rv_neg(pos@.y),
                tint@,
            ),
    {
        let depth = pos.y.neg();
        self.draw_quad_with_depth_and_tint(pos, size, texture, depth, tint);
    }

    /// [`Renderer::draw_quad_with_depth_and_tint`] with the neutral white
    /// tint.
    pub fn draw_quad_with_depth(&mut self, pos: Vec2, size: Vec2, texture: &Texture, depth: Rat)
        requires
            old(self).wf(),
            pos.small(),
            size.small(),
            texture.wf(),
            depth.small(),
        ensures
            final(self).wf(),
            final(self)@ == spec_draw_quad(
                old(self)@,
                pos@,
                size@,
                texture@,
                depth@,
                crate::geom::spec_white(),
            ),
    {
        self.draw_quad_with_depth_and_tint(pos, size, texture, depth, Vec3::white());
    }

    /// Stores the raw pixel size of the drawing surface, consumed by the
    /// next flush.
    pub fn set_viewport(&mut self, width: u32, height: u32)
        requires
            old(self).wf(),
            1 <= width <= VIEWPORT_MAX,
            1 <= height <= VIEWPORT_MAX,
        ensures
            final(self).wf(),
            final(self)@ == (RendererV {
                viewport_w: width as int,
                viewport_h: height as int,
                ..old(self)@
            }),
    {
        self.viewport_w = width;
        self.viewport_h = height;
    }

    /// The logical visible size derived from the current surface size: its
    /// axes hold the surface's aspect ratio and its area the reference
    /// area, each axis being the integer square root at scale
    /// [`VIEW_SCALE`](crate::viewport::VIEW_SCALE) of the exact radicand.
    pub fn get_viewport(&self) -> (r: (Rat, Rat))
        requires
            self.wf(),
            1 <= self@.viewport_w,
            1 <= self@.viewport_h,
        ensures
            r.0@ == spec_logical_axis(self@.viewport_w, self@.viewport_h),
            r.1@ == spec_logical_axis(self@.viewport_h, self@.viewport_w),
            crate::viewport::spec_is_isqrt(
                r.0@.n,
                crate::viewport::spec_axis_radicand(self@.viewport_w, self@.viewport_h),
            ),
            crate::viewport::spec_is_isqrt(
                r.1@.n,
                crate::viewport::spec_axis_radicand(self@.viewport_h, self@.viewport_w),
            ),
            rv_small(r.0@),
            rv_small(r.1@),
            0 <= r.0@.n < 0x1000_0000,
            0 <= r.1@.n < 0x1000_0000,
    {
        let w = logical_axis(self.viewport_w, self.viewport_h);
        let h = logical_axis(self.viewport_h, self.viewport_w);
        (w, h)
    }

    /// Moves the camera; the position is rounded to whole world units
    /// before use, which avoids sub-pixel shimmer.
    pub fn set_camera(&mut self, camera: Vec2)
        requires
            old(self).wf(),
            camera.small(),
        ensures
            final(self).wf(),
            final(self)@ == (RendererV {
                camera_x: rv_round(camera@.x),
                camera_y: rv_round(camera@.y),
                ..old(self)@
            }),
    {
        self.camera_x = camera.x.round();
        self.camera_y = camera.y.round();
    }

    /// The camera position, in whole world units.
    pub fn get_camera(&self) -> (r: (i64, i64))
        ensures
            r.0 == self@.camera_x,
            r.1 == self@.camera_y,
    {
        (self.camera_x, self.camera_y)
    }

    /// Stores the fire position handed to the shader as a uniform.
    pub fn set_fire_pos(&mut self, fire_pos: Vec2)
        requires
            old(self).wf(),
            fire_pos.small(),
        ensures
            final(self).wf(),
            final(self)@ == (RendererV { fire_pos: fire_pos@, ..old(self)@ }),
    {
        self.fire_pos = fire_pos;
    }

    /// Stores the fire heat handed to the shader as a uniform.
    pub fn set_fire_heat(&mut self, fire_heat: Rat)
        requires
            old(self).wf(),
            fire_heat.small(),
        ensures
            final(self).wf(),
            final(self)@ == (RendererV { fire_heat: fire_heat@, ..old(self)@ }),
    {
        self.fire_heat = fire_heat;
    }

    /// Allots the next program slot in the registry; the host keeps the
    /// compiled program under the returned id. Programs are immutable once
    /// created.
    pub fn register_program(&mut self) -> (id: usize)
        requires
            old(self).wf(),
            old(self)@.program_count < usize::MAX,
        ensures
            final(self).wf(),
            id == old(self)@.program_count,
            final(self)@ == (RendererV {
                program_count: old(self)@.program_count + 1,
                ..old(self)@
            }),
    {
        let id = self.program_count;
        self.program_count = self.program_count + 1;
        id
    }

    /// Selects which registered program the draw path binds; the program
    /// itself is untouched.
    pub fn select_program(&mut self, id: usize)
        requires
            old(self).wf(),
            id < old(self)@.program_count,
        ensures
            final(self).wf(),
            final(self)@ == (RendererV { selected_program: id as int, ..old(self)@ }),
    {
        self.selected_program = id;
    }

    /// The shared static index buffer: six indices per quad slot, two
    /// triangles over the slot's four vertices, generated once for
    /// [`MAX_QUADS`] quads.
    pub fn index_data(&self) -> (r: &Vec<u16>)
        requires
            self.wf(),
        ensures
            r@ == self@.indices,
            r@.len() == 6 * MAX_QUADS,
            forall|p: int| 0 <= p < MAX_QUADS ==> spec_quad_indices_ok(r@, p),
    {
        &self.indices
    }

    /// Hands out one draw command per non-empty batch, in the batches'
    /// stable insertion order, together with the frame's uniforms, and
    /// empties every batch in place. A later flush with no intervening
    /// draw therefore submits no geometry.
    pub fn flush(&mut self) -> (out: FrameOutput)
        requires
            old(self).wf(),
            1 <= old(self)@.viewport_w,
            1 <= old(self)@.viewport_h,
            old(self)@.program_count >= 1,
        ensures
            final(self).wf(),
            final(self)@ == (RendererV {
                batches: spec_cleared(old(self)@.batches),
                ..old(self)@
            }),
            out.commands@.map_values(|c: DrawCommand| c@) == spec_commands(old(self)@.batches),
            out.ortho@ == spec_ortho(
                spec_logical_axis(old(self)@.viewport_w, old(self)@.viewport_h),
                spec_logical_axis(old(self)@.viewport_h, old(self)@.viewport_w),
            ),
            out.world_translation@ == spec_world_translation(
                old(self)@.camera_x,
                old(self)@.camera_y,
                spec_logical_axis(old(self)@.viewport_h, old(self)@.viewport_w),
            ),
            out.ui_translation@ == (Vec3V { x: rv_int(0), y: rv_int(0), z: rv_int(0) }),
            out.fire_pos@ == old(self)@.fire_pos,
            out.fire_heat@ == old(self)@.fire_heat,
            out.selected_program == old(self)@.selected_program,
    {
        let (w, h) = self.get_viewport();
        let ortho = ortho_params(w, h);
        let wt = world_translation(self.camera_x, self.camera_y, h);
        let uit = ui_translation();

        let ui_name: String = "ui".to_owned();
        let mut cmds: Vec<DrawCommand> = Vec::new();
        let n = self.batches.len();
        let mut i: usize = 0;
        while i < n
            invariant
                i <= n,
                n == old(self)@.batches.len(),
                self.batches@.len() == n,
                ui_name@ == spec_ui_name(),
                forall|j: int| i <= j < n ==> self.batches@[j]@ == old(self)@.batches[j],
                forall|j: int|
                    0 <= j < i ==> self.batches@[j]@ == (BatchV {
                        name: old(self)@.batches[j].name,
                        verts: Seq::<VertexV>::empty(),
                    }),
                cmds@.map_values(|c: DrawCommand| c@) == spec_commands(
                    old(self)@.batches.take(i as int),
                ),
                self.indices@ == old(self)@.indices,
                self.viewport_w == old(self).viewport_w,
                self.viewport_h == old(self).viewport_h,
                self.camera_x == old(self).camera_x,
                self.camera_y == old(self).camera_y,
                self.fire_pos == old(self).fire_pos,
                self.fire_heat == old(self).fire_heat,
                self.program_count == old(self).program_count,
                self.selected_program == old(self).selected_program,
            decreases n - i,
        {
            let ghost pre = self.batches@;
            let ghost prev_cmds = cmds@;
            let empty_batch = self.batches[i].verts.len() == 0;
            if !empty_batch {
                let b = self.batches.remove(i);
                let Batch { name, verts } = b;
                let fresh_name = name.clone();
                let is_ui = name == ui_name;
                let quad_count = verts.len() / 4;
                cmds.push(
                    DrawCommand { atlas_name: name, vertices: verts, quad_count, is_ui },
                );
                self.batches.insert(i, Batch { name: fresh_name, verts: Vec::new() });
                proof {
                    assert(self.batches@ =~= pre.update(i as int, self.batches@[i as int]));
                    assert(self.batches@[i as int]@.verts =~= Seq::<VertexV>::empty());
                    assert(self.batches@[i as int]@ == (BatchV {
                        name: old(self)@.batches[i as int].name,
                        verts: Seq::<VertexV>::empty(),
                    }));
                }
            }
            proof {
                let obs = old(self)@.batches;
                assert(obs.take(i + 1).drop_last() =~= obs.take(i as int));
                assert(obs.take(i + 1).last() == obs[i as int]);
                if empty_batch {
                    assert(obs[i as int].verts.len() == 0);
                    assert(self.batches@[i as int]@.verts =~= Seq::<VertexV>::empty());
                    assert(self.batches@[i as int]@ == (BatchV {
                        name: obs[i as int].name,
                        verts: Seq::<VertexV>::empty(),
                    }));
                    assert(cmds@.map_values(|c: DrawCommand| c@) =~= spec_commands(
                        obs.take(i + 1),
                    ));
                } else {
                    assert(cmds@.map_values(|c: DrawCommand| c@) =~= prev_cmds.map_values(
                        |c: DrawCommand| c@,
                    ).push(cmds@.last()@));
                    assert(cmds@.last()@ == spec_command_of(obs[i as int]));
                    assert(cmds@.map_values(|c: DrawCommand| c@) =~= spec_commands(
                        obs.take(i + 1),
                    ));
                }
            }
            i = i + 1;
        }
        proof {
            assert(old(self)@.batches.take(n as int) =~= old(self)@.batches);
            assert(self@.batches =~= spec_cleared(old(self)@.batches));
        }
        FrameOutput {
            commands: cmds,
            ortho,
            world_translation: wt,
            ui_translation: uit,
            fire_pos: self.fire_pos,
            fire_heat: self.fire_heat,
            selected_program: self.selected_program,
        }
    }

    /// Appends one quad with the default depth `-pos.y` and the neutral
    /// white tint.
    pub fn draw_quad(&mut self, pos: Vec2, size: Vec2, texture: &Texture)
        requires
            old(self).wf(),
            pos.small(),
            size.small(),
            texture.wf(),
        ensures
            final(self).wf(),
            final(self)@ == spec_draw_quad(
                old(self)@,
                pos@,
                size@,
                texture@,
                rv_neg(pos@.y),
                crate::geom::spec_white(),
            ),
    {
        let depth = pos.y.neg();
        self.draw_quad_with_depth_and_tint(pos, size, texture, depth, Vec3::white());
    }
}

// Batching laws.

/// Two quads drawn for the same atlas name append exactly eight vertices
/// (two times four) to that atlas's batch and touch no other batch.
pub proof fn lemma_two_quads_extend_batch_by_eight(
    r: RendererV,
    i: int,
    pos1: Vec2V,
    size1: Vec2V,
    tex: TextureV,
    depth1: RatV,
    tint1: Vec3V,
    pos2: Vec2V,
    size2: Vec2V,
    depth2: RatV,
    tint2: Vec3V,
)
    requires
        spec_batches_wf(r.batches),
        0 <= i < r.batches.len(),
        r.batches[i].name == tex.name,
        r.batches[i].verts.len() + 8 <= 4 * MAX_QUADS,
    ensures
        ({
            let r1 = spec_draw_quad(r, pos1, size1, tex, depth1, tint1);
            let r2 = spec_draw_quad(r1, pos2, size2, tex, depth2, tint2);
            &&& r2.batches.len() == r.batches.len()
            &&& r2.batches[i].verts.len() == r.batches[i].verts.len() + 8
            &&& forall|j: int|
                0 <= j < r.batches.len() && j != i ==> r2.batches[j] == r.batches[j]
        }),
{
    let r1 = spec_draw_quad(r, pos1, size1, tex, depth1, tint1);
    let r2 = spec_draw_quad(r1, pos2, size2, tex, depth2, tint2);
    assert(spec_has_batch(r.batches, tex.name));
    assert(forall|j: int|
        0 <= j < r.batches.len() && j != i ==> r.batches[j].name != tex.name);
    assert(r1.batches[i].verts.len() == r.batches[i].verts.len() + 4);
    assert(spec_has_batch(r1.batches, tex.name));
    assert(r2.batches[i].verts.len() == r1.batches[i].verts.len() + 4);
}

/// Two quads drawn for an atlas name no batch carries yet create one batch
/// at the end of the list holding exactly their eight vertices, and touch
/// no other batch.
pub proof fn lemma_two_quads_create_batch_of_eight(
    r: RendererV,
    pos1: Vec2V,
    size1: Vec2V,
    tex: TextureV,
    depth1: RatV,
    tint1: Vec3V,
    pos2: Vec2V,
    size2: Vec2V,
    depth2: RatV,
    tint2: Vec3V,
)
    requires
        spec_batches_wf(r.batches),
        !spec_has_batch(r.batches, tex.name),
    ensures
        ({
            let r1 = spec_draw_quad(r, pos1, size1, tex, depth1, tint1);
            let r2 = spec_draw_quad(r1, pos2, size2, tex, depth2, tint2);
            &&& r2.batches.len() == r.batches.len() + 1
            &&& r2.batches.last().name == tex.name
            &&& r2.batches.last().verts.len() == 8
            &&& forall|j: int| 0 <= j < r.batches.len() ==> r2.batches[j] == r.batches[j]
        }),
{
    let r1 = spec_draw_quad(r, pos1, size1, tex, depth1, tint1);
    let r2 = spec_draw_quad(r1, pos2, size2, tex, depth2, tint2);
    let k = r.batches.len() as int;
    assert(r1.batches[k].name == tex.name);
    assert(spec_has_batch(r1.batches, tex.name));
    assert(r2.batches[k].verts.len() == 8);
}

/// A flush empties every batch, so a second flush with no draw in between
/// submits no geometry at all.
pub proof fn lemma_flush_after_flush_submits_nothing(batches: Seq<BatchV>)
    ensures
        spec_commands(spec_cleared(batches)).len() == 0,
    decreases batches.len(),
{
    let cleared = spec_cleared(batches);
    if batches.len() > 0 {
        assert(cleared.drop_last() =~= spec_cleared(batches.drop_last()));
        lemma_flush_after_flush_submits_nothing(batches.drop_last());
    }
}

/// Every vertex of a quad drawn with the default depth carries the depth
/// `-pos.y`.
pub proof fn lemma_default_depth(pos: Vec2V, size: Vec2V, tex: TextureV, tint: Vec3V)
    ensures
        forall|k: int|
            0 <= k < 4 ==> #[trigger] spec_quad_vertices(pos, size, tex, rv_neg(pos.y), tint)[k].z
                == rv_neg(pos.y),
{
}

} // verus!
