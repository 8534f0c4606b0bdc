//! The frame driver: one engine object owning the input trackers and the
//! renderer, with one method per phase of a frame.
//!
//! A host scheduler runs the loop: it feeds platform events into
//! [`Engine::keys`] and [`Engine::mouse`] between frames, and on each frame
//! signal calls [`Engine::begin_frame`], lets the world tick read the input
//! and draw, then calls [`Engine::post_tick`] and [`Engine::end_frame`] and
//! hands the returned frame output to the GPU. Keeping the loop outside
//! makes a frame deterministic and drivable by any scheduler.
use vstd::prelude::*;

use crate::key::spec_frame_transition;
use crate::key::spec_initial_keys;
use crate::key::KeyManager;
use crate::mouse::ms_drain;
use crate::mouse::spec_initial_mouse_state;
use crate::mouse::MouseManager;
use crate::renderer::FrameOutput;
use crate::renderer::Renderer;
use crate::renderer::RendererV;
use crate::renderer::spec_cleared;
use crate::renderer::spec_commands;
use crate::viewport::spec_logical_axis;
use crate::viewport::spec_ortho;
use crate::viewport::spec_world_translation;
use crate::viewport::VIEWPORT_MAX;

verus! {

/// The engine: per-frame input state and the batch renderer, driven one
/// frame phase at a time.
pub struct Engine {
    pub keys: KeyManager,
    pub mouse: MouseManager,
    pub renderer: Renderer,
}

impl Engine {
    pub open spec fn wf(&self) -> bool {
        self.keys.wf() && self.mouse.wf() && self.renderer.wf()
    }

    pub fn new() -> (r: Engine)
        ensures
            r.wf(),
            r.keys@ =~= spec_initial_keys(),
            r.mouse@.events.len() == 0,
            r.mouse@.state == spec_initial_mouse_state(),
            r.mouse@.dropped == 0,
            r.renderer@.batches.len() == 0,
            r.renderer@.program_count == 0,
    {
        Engine { keys: KeyManager::new(), mouse: MouseManager::new(), renderer: Renderer::new() }
    }

    /// Starts a frame: records the surface's current pixel size and
    /// reduces the queued pointer events into the per-frame pointer state.
    /// Runs before the world tick reads the input.
    pub fn begin_frame(&mut self, surface_w: u32, surface_h: u32)
        requires
            old(self).wf(),
            1 <= surface_w <= VIEWPORT_MAX,
            1 <= surface_h <= VIEWPORT_MAX,
        ensures
            final(self).wf(),
            final(self).renderer@ == (RendererV {
                viewport_w: surface_w as int,
                viewport_h: surface_h as int,
                ..old(self).renderer@
            }),
            final(self).mouse@.state == ms_drain(
                old(self).mouse@.state,
                old(self).mouse@.events,
            ),
            final(self).mouse@.events.len() == 0,
            final(self).mouse@.dropped == old(self).mouse@.dropped,
            final(self).keys == old(self).keys,
    {
        self.renderer.set_viewport(surface_w, surface_h);
        self.mouse.pre_tick_process_mouse_state();
    }

    /// The end-of-frame input transition, run exactly once per frame after
    /// the world tick has read the input: key edges tick over to their
    /// steady states.
    pub fn post_tick(&mut self)
        requires
            old(self).wf(),
        ensures
            final(self).wf(),
            final(self).keys@ =~= spec_frame_transition(old(self).keys@),
            final(self).mouse == old(self).mouse,
            final(self).renderer == old(self).renderer,
    {
        self.keys.post_tick_update_key_states();
    }

    /// Ends a frame: flushes the renderer, handing out the draw commands
    /// and uniforms of everything drawn since the last flush.
    pub fn end_frame(&mut self) -> (out: FrameOutput)
        requires
            old(self).wf(),
            1 <= old(self).renderer@.viewport_w,
            1 <= old(self).renderer@.viewport_h,
            old(self).renderer@.program_count >= 1,
        ensures
            final(self).wf(),
            final(self).renderer@ == (RendererV {
                batches: spec_cleared(old(self).renderer@.batches),
                ..old(self).renderer@
            }),
            out.commands@.map_values(|c: crate::renderer::DrawCommand| c@) == spec_commands(
                old(self).renderer@.batches,
            ),
            out.ortho@ == spec_ortho(
                spec_logical_axis(
                    old(self).renderer@.viewport_w,
                    old(self).renderer@.viewport_h,
                ),
                spec_logical_axis(
                    old(self).renderer@.viewport_h,
                    old(self).renderer@.viewport_w,
                ),
            ),
            out.world_translation@ == spec_world_translation(
                old(self).renderer@.camera_x,
                old(self).renderer@.camera_y,
                spec_logical_axis(
                    old(self).renderer@.viewport_h,
                    old(self).renderer@.viewport_w,
                ),
            ),
            out.selected_program == old(self).renderer@.selected_program,
            final(self).keys == old(self).keys,
            final(self).mouse == old(self).mouse,
    {
        self.renderer.flush()
    }
}

} // verus!

