//! Renderer state and per-frame decisions.
//!
//! The GPU device, surface, pipelines and buffers live in the
//! unverified shell; this module owns everything the shell decides
//! with: the surface size (with the zero-size resize guard), the
//! wireframe toggle and its capability fallback, the surface-format
//! preference, the policy for surface errors during a frame, the draw
//! ranges of each pass, the current mesh and the camera. Each decision
//! is a function from plain values to plain values with an exact
//! contract, and the shell performs what it returns.

use vstd::prelude::*;
use crate::camera::{Camera, CameraInput, camera_wf, initial_camera, step_input,
    input_in_bounds, auto_fit_spec};
use crate::mesh::{Mesh, MeshSource, LoadError, mesh_wf, loaded_from, validate_spec,
    bbox_min_spec, bbox_max_spec};
use crate::performance::{PerformanceMonitor, PerformanceStats, initial_monitor,
    monitor_wf, stats_spec};

verus! {

/// Which compiled pipeline a pass runs with.
#[derive(Clone, Copy, Debug, PartialEq, Eq, Structural)]
pub enum PipelineKind {
    Solid,
    Wireframe,
}

/// What surface acquisition reported, reduced to what the policy needs.
#[derive(Clone, Copy, Debug, PartialEq, Eq, Structural)]
pub enum SurfaceErrorKind {
    /// The surface was lost and must be rebuilt.
    Lost,
    /// The surface no longer matches the window.
    Outdated,
    /// The device is out of memory.
    OutOfMemory,
    /// Acquisition timed out.
    Timeout,
    /// Any other acquisition failure.
    Other,
}

/// What the frame loop does about a surface error.
#[derive(Clone, Copy, Debug, PartialEq, Eq, Structural)]
pub enum FrameAction {
    /// Reconfigure the surface at the current size and skip the frame.
    ReconfigureAndSkip,
    /// Terminate the application.
    Terminate,
    /// Log, drop this frame, and retry normally next frame.
    SkipFrame,
}

/// What a pressed character key asks of the application.
#[derive(Clone, Copy, Debug, PartialEq, Eq, Structural)]
pub enum UiCommand {
    /// Open the file dialog and load the chosen model.
    OpenModel,
    /// Flip the wireframe display mode.
    ToggleWireframe,
    /// Flip the detailed-statistics readout.
    ToggleStatsDetail,
    /// Quit the application.
    Quit,
    /// Nothing bound to this key.
    Ignore,
}

/// What the 3D pass draws, decided fresh each frame. The placeholder
/// keeps the screen from ever being blank before a model is loaded.
#[derive(Clone, Debug, PartialEq)]
pub enum DrawPlan {
    /// The built-in three-vertex placeholder triangle.
    Placeholder,
    /// The mesh, as one indexed draw over the full index range.
    MeshIndexed { index_count: u32 },
    /// The mesh in wireframe, as one indexed draw per whole triangle.
    MeshWireframe { ranges: Vec<(u32, u32)> },
    /// A mesh without an index buffer, drawn straight off its
    /// vertices.
    MeshUnindexed { vertex_count: u32 },
}

/// The verified half of the renderer: surface geometry, display-mode
/// flags, the mesh, the camera, and the performance monitor.
#[derive(Clone, Debug, PartialEq)]
pub struct Renderer {
    pub surface_width: u32,
    pub surface_height: u32,
    pub wireframe_mode: bool,
    pub wireframe_supported: bool,
    pub has_mesh: bool,
    pub mesh: Mesh,
    pub camera: Camera,
    pub monitor: PerformanceMonitor,
}

/// Renderer invariant: its camera, mesh and monitor invariants.
pub open spec fn renderer_wf(r: Renderer) -> bool {
    &&& camera_wf(r.camera)
    &&& mesh_wf(r.mesh)
    &&& monitor_wf(r.monitor)
}

/// The renderer after flipping the wireframe toggle.
pub open spec fn toggled_spec(r: Renderer) -> Renderer {
    Renderer { wireframe_mode: !r.wireframe_mode, ..r }
}

/// Which pipeline the next pass uses: wireframe only when both asked
/// for and supported, solid otherwise.
pub open spec fn active_pipeline_spec(r: Renderer) -> PipelineKind {
    if r.wireframe_mode && r.wireframe_supported {
        PipelineKind::Wireframe
    } else {
        PipelineKind::Solid
    }
}

/// The frame-loop policy for surface errors: lost or outdated surfaces
/// are reconfigured and the frame skipped, exhausted device memory is
/// fatal, anything else drops the frame and retries next time.
pub open spec fn surface_error_action_spec(e: SurfaceErrorKind) -> FrameAction {
    match e {
        SurfaceErrorKind::Lost => FrameAction::ReconfigureAndSkip,
        SurfaceErrorKind::Outdated => FrameAction::ReconfigureAndSkip,
        SurfaceErrorKind::OutOfMemory => FrameAction::Terminate,
        SurfaceErrorKind::Timeout => FrameAction::SkipFrame,
        SurfaceErrorKind::Other => FrameAction::SkipFrame,
    }
}

/// The renderer after a resize request: unchanged for a zero-area
/// request, otherwise with the surface and the camera's aspect source
/// at exactly the new size.
pub open spec fn resized_spec(r: Renderer, width: u32, height: u32) -> Renderer {
    if width == 0 || height == 0 {
        r
    } else {
        Renderer {
            surface_width: width,
            surface_height: height,
            camera: Camera { viewport_width: width, viewport_height: height, ..r.camera },
            ..r
        }
    }
}

/// Applying the same resize twice gives exactly the state one
/// application gives.
pub proof fn lemma_resize_idempotent(r: Renderer, width: u32, height: u32)
    ensures
        resized_spec(resized_spec(r, width, height), width, height)
            == resized_spec(r, width, height),
{
}

/// Toggling wireframe twice restores the renderer exactly.
pub proof fn lemma_toggle_wireframe_involutive(r: Renderer)
    ensures
        toggled_spec(toggled_spec(r)) == r,
{
}

/// On a device without the wireframe capability every frame renders
/// with the solid pipeline, whatever the toggle says.
pub proof fn lemma_unsupported_wireframe_renders_solid(r: Renderer)
    requires
        !r.wireframe_supported,
    ensures
        active_pipeline_spec(r) == PipelineKind::Solid,
{
}

/// The policy for a pressed character key.
pub fn key_command(key: char) -> (c: UiCommand)
    ensures
        c == (match key {
            'o' | 'O' => UiCommand::OpenModel,
            'w' | 'W' => UiCommand::ToggleWireframe,
            'p' | 'P' => UiCommand::ToggleStatsDetail,
            'q' | 'Q' => UiCommand::Quit,
            _ => UiCommand::Ignore,
        }),
{
    match key {
        'o' | 'O' => UiCommand::OpenModel,
        'w' | 'W' => UiCommand::ToggleWireframe,
        'p' | 'P' => UiCommand::ToggleStatsDetail,
        'q' | 'Q' => UiCommand::Quit,
        _ => UiCommand::Ignore,
    }
}

/// What to do when acquiring the frame's surface image failed.
pub fn surface_error_action(e: SurfaceErrorKind) -> (a: FrameAction)
    ensures
        a == surface_error_action_spec(e),
{
    match e {
        SurfaceErrorKind::Lost => FrameAction::ReconfigureAndSkip,
        SurfaceErrorKind::Outdated => FrameAction::ReconfigureAndSkip,
        SurfaceErrorKind::OutOfMemory => FrameAction::Terminate,
        SurfaceErrorKind::Timeout => FrameAction::SkipFrame,
        SurfaceErrorKind::Other => FrameAction::SkipFrame,
    }
}

/// Pick the surface format: the first sRGB-encoded one if the surface
/// offers any, else the first offered. `srgb_flags[i]` says whether
/// format `i` is sRGB-encoded.
pub fn select_surface_format(srgb_flags: &Vec<bool>) -> (idx: usize)
    requires
        srgb_flags@.len() > 0,
    ensures
        idx < srgb_flags@.len(),
        (exists|j: int| 0 <= j < srgb_flags@.len() && #[trigger] srgb_flags@[j]) ==> {
            &&& srgb_flags@[idx as int]
            &&& forall|j: int| 0 <= j < idx ==> !#[trigger] srgb_flags@[j]
        },
        (forall|j: int| 0 <= j < srgb_flags@.len() ==> !#[trigger] srgb_flags@[j])
            ==> idx == 0,
{
    let n = srgb_flags.len();
    let mut i: usize = 0;
    while i < n
        invariant
            n == srgb_flags@.len(),
            i <= n,
            forall|j: int| 0 <= j < i ==> !#[trigger] srgb_flags@[j],
        decreases n - i,
    {
        if srgb_flags[i] {
            return i;
        }
        i = i + 1;
    }
    0
}

/// The index ranges the wireframe pass draws: one `(start, end)` pair
/// per whole triangle, covering indices `3k` through `3k + 3`.
pub fn wireframe_draw_ranges(num_indices: u32) -> (r: Vec<(u32, u32)>)
    ensures
        r@.len() == num_indices as int / 3,
        forall|k: int| 0 <= k < r@.len() ==> {
            &&& (#[trigger] r@[k]).0 == 3 * k
            &&& r@[k].1 == 3 * k + 3
        },
{
    let triangles = num_indices / 3;
    let mut r: Vec<(u32, u32)> = Vec::new();
    let mut t: u32 = 0;
    while t < triangles
        invariant
            triangles == num_indices / 3,
            t <= triangles,
            r@.len() == t,
            forall|k: int| 0 <= k < t ==> {
                &&& (#[trigger] r@[k]).0 == 3 * k
                &&& r@[k].1 == 3 * k + 3
            },
        decreases triangles - t,
    {
        r.push((3 * t, 3 * t + 3));
        t = t + 1;
    }
    r
}

impl Renderer {
    /// A renderer over a fresh surface: solid mode, no mesh yet (the
    /// shell draws its built-in placeholder triangle), default camera,
    /// monitor started now. Whether the device supports a wireframe
    /// pipeline is probed once by the shell and fixed here.
    pub fn new(width: u32, height: u32, wireframe_supported: bool, now_micros: u64)
        -> (r: Renderer)
        ensures
            r.surface_width == width,
            r.surface_height == height,
            !r.wireframe_mode,
            r.wireframe_supported == wireframe_supported,
            !r.has_mesh,
            r.mesh.vertices@.len() == 0,
            r.mesh.indices@.len() == 0,
            r.mesh.num_indices == 0,
            r.camera == initial_camera(width, height),
            r.monitor == initial_monitor(now_micros),
            renderer_wf(r),
    {
        Renderer {
            surface_width: width,
            surface_height: height,
            wireframe_mode: false,
            wireframe_supported,
            has_mesh: false,
            mesh: Mesh::new(),
            camera: Camera::new(width, height),
            monitor: PerformanceMonitor::new(now_micros),
        }
    }

    /// Replace the scene with a parsed source. On success the new mesh
    /// is in place and the camera is auto-fitted to its bounding box;
    /// on rejection everything stays exactly as it was.
    pub fn load_mesh(&mut self, src: &MeshSource) -> (r: Result<(), LoadError>)
        requires
            renderer_wf(*old(self)),
        ensures
            renderer_wf(*final(self)),
            match validate_spec(*src) {
                Some(e) => r == Err::<(), LoadError>(e) && *final(self) == *old(self),
                None => {
                    &&& r == Ok::<(), LoadError>(())
                    &&& loaded_from(final(self).mesh, *src)
                    &&& final(self).has_mesh
                    &&& final(self).camera == auto_fit_spec(
                        old(self).camera,
                        bbox_min_spec(final(self).mesh.vertices@,
                            final(self).mesh.vertices@.len() as int),
                        bbox_max_spec(final(self).mesh.vertices@,
                            final(self).mesh.vertices@.len() as int),
                    )
                    &&& final(self).surface_width == old(self).surface_width
                    &&& final(self).surface_height == old(self).surface_height
                    &&& final(self).wireframe_mode == old(self).wireframe_mode
                    &&& final(self).wireframe_supported == old(self).wireframe_supported
                    &&& final(self).monitor == old(self).monitor
                },
            },
    {
        match self.mesh.load_from_arrays(src) {
            Err(e) => Err(e),
            Ok(()) => {
                self.has_mesh = true;
                match self.mesh.bounding_box() {
                    Some((bounds_min, bounds_max)) => {
                        self.camera.auto_fit_to_model(bounds_min, bounds_max);
                    },
                    None => {},
                }
                Ok(())
            },
        }
    }

    /// Feed a window event to the camera.
    pub fn handle_input(&mut self, e: &CameraInput)
        requires
            renderer_wf(*old(self)),
            input_in_bounds(*e),
        ensures
            renderer_wf(*final(self)),
            *final(self) == (Renderer {
                camera: step_input(old(self).camera, *e),
                ..*old(self)
            }),
    {
        self.camera.handle_input(e);
    }

    /// Flip the wireframe display mode. Flipping twice restores the
    /// renderer exactly.
    pub fn toggle_wireframe(&mut self)
        ensures
            *final(self) == toggled_spec(*old(self)),
    {
        self.wireframe_mode = !self.wireframe_mode;
    }

    /// Adopt a new surface size. A zero-area request (a minimized
    /// window) changes nothing at all; a real one updates the stored
    /// surface configuration and the camera's aspect source to exactly
    /// the new width and height.
    pub fn resize(&mut self, width: u32, height: u32)
        ensures
            *final(self) == resized_spec(*old(self), width, height),
            width == 0 || height == 0 ==> *final(self) == *old(self),
    {
        if width > 0 && height > 0 {
            self.surface_width = width;
            self.surface_height = height;
            self.camera.viewport_width = width;
            self.camera.viewport_height = height;
        }
    }

    /// The pipeline the next pass runs with: wireframe only when both
    /// selected and supported by the device.
    pub fn active_pipeline(&self) -> (p: PipelineKind)
        ensures
            p == active_pipeline_spec(*self),
            !self.wireframe_supported ==> p == PipelineKind::Solid,
    {
        if self.wireframe_mode && self.wireframe_supported {
            PipelineKind::Wireframe
        } else {
            PipelineKind::Solid
        }
    }

    /// Decide what the 3D pass draws this frame: the placeholder
    /// triangle while no mesh is loaded, the full indexed range in
    /// solid mode, one range per whole triangle in wireframe mode, and
    /// a plain vertex-order draw for a mesh that carries no indices.
    pub fn draw_plan(&self) -> (p: DrawPlan)
        requires
            mesh_wf(self.mesh),
        ensures
            !self.has_mesh ==> p == DrawPlan::Placeholder,
            self.has_mesh && self.mesh.indices@.len() == 0 ==> p == (DrawPlan::MeshUnindexed {
                vertex_count: self.mesh.vertices@.len() as u32,
            }),
            self.has_mesh && self.mesh.indices@.len() > 0
                && active_pipeline_spec(*self) == PipelineKind::Wireframe
                ==> (p matches DrawPlan::MeshWireframe { ranges }
                    && ranges@.len() == self.mesh.num_indices as int / 3
                    && (forall|k: int| 0 <= k < ranges@.len() ==> {
                        &&& (#[trigger] ranges@[k]).0 == 3 * k
                        &&& ranges@[k].1 == 3 * k + 3
                    })),
            self.has_mesh && self.mesh.indices@.len() > 0
                && active_pipeline_spec(*self) == PipelineKind::Solid
                ==> p == (DrawPlan::MeshIndexed { index_count: self.mesh.num_indices }),
    {
        if !self.has_mesh {
            DrawPlan::Placeholder
        } else if self.mesh.indices.len() == 0 {
            DrawPlan::MeshUnindexed { vertex_count: self.mesh.vertices.len() as u32 }
        } else if self.active_pipeline() == PipelineKind::Wireframe {
            DrawPlan::MeshWireframe { ranges: wireframe_draw_ranges(self.mesh.num_indices) }
        } else {
            DrawPlan::MeshIndexed { index_count: self.mesh.num_indices }
        }
    }

    /// The overlay's performance snapshot.
    pub fn get_performance_stats(&self) -> (r: PerformanceStats)
        ensures
            r == stats_spec(self.monitor),
    {
        self.monitor.get_stats()
    }
}

} // verus!
