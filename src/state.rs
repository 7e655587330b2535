use vstd::prelude::*;
use crate::camera::{CameraController, Key};
use crate::texture::at_least_one;
use crate::instance::{grid_instance, instance_grid, Instance, Rotation, NUM_INSTANCE_PER_ROW};
use crate::vertex::{mesh_index_seq, mesh_indices};

verus! {

/// What a redraw does first: nothing while the surface is unconfigured, else
/// acquire the next presentable image.
#[derive(Clone, Copy, Debug, PartialEq, Eq, Structural)]
pub enum FrameStep {
    Skip,
    Acquire,
}

/// How acquiring the next presentable image went.
#[derive(Clone, Copy, Debug, PartialEq, Eq, Structural)]
pub enum Acquired {
    Ready,
    Lost,
    Outdated,
    Timeout,
    OutOfMemory,
    Other,
}

/// What to do with the frame once acquisition has been tried.
#[derive(Clone, Copy, Debug, PartialEq, Eq, Structural)]
pub enum FrameAction {
    /// Record one indexed draw of `index_count` indices and `instance_count`
    /// instances, submit it and present the image.
    Draw { index_count: u32, instance_count: u32 },
    /// Reconfigure the surface to `width` x `height`, rebuild the depth
    /// texture to match, and drop this frame.
    Reconfigure { width: u32, height: u32 },
    /// Drop this frame without any GPU work.
    Skip,
    /// Report the acquisition error and drop this frame.
    Report,
}

/// A request to the window that a key press makes.
#[derive(Clone, Copy, Debug, PartialEq, Eq, Structural)]
pub enum WindowCommand {
    Nothing,
    Exit,
    EnterFullscreen,
    LeaveFullscreen,
}

/// The scene's frame state: the configured surface size, whether the surface
/// has been configured yet, the number of mesh indices, the placed instances
/// and the camera controller.
#[derive(Debug)]
pub struct State {
    pub width: u32,
    pub height: u32,
    pub configured: bool,
    pub num_indices: u32,
    pub instances: Vec<Instance>,
    pub camera_controller: CameraController,
}

/// The window request made by `key` going down (`is_pressed`) or up.
pub open spec fn command_of(key: Key, is_pressed: bool) -> WindowCommand {
    if !is_pressed {
        WindowCommand::Nothing
    } else {
        match key {
            Key::Escape => WindowCommand::Exit,
            Key::KeyF => WindowCommand::EnterFullscreen,
            Key::KeyE => WindowCommand::LeaveFullscreen,
            _ => WindowCommand::Nothing,
        }
    }
}

/// Whether a resize to `width` x `height` is taken: both sides at least 1.
pub open spec fn usable_size(width: u32, height: u32) -> bool {
    width >= 1 && height >= 1
}

impl State {
    /// `self` after a resize to `width` x `height`: a size with a zero side
    /// changes nothing; any other becomes the stored size, and the surface
    /// counts as configured.
    pub open spec fn resized(self, width: u32, height: u32) -> State {
        if usable_size(width, height) {
            State { width, height, configured: true, ..self }
        } else {
            self
        }
    }

    /// The state for a surface of `width` x `height`, not yet configured,
    /// drawing the fixed mesh at every cell of the instance grid.
    pub fn new(width: u32, height: u32) -> (r: Self)
        ensures
            r.width == width,
            r.height == height,
            !r.configured,
            r.num_indices == mesh_index_seq().len(),
            r.instances@.len() == NUM_INSTANCE_PER_ROW * NUM_INSTANCE_PER_ROW,
            forall|i: int| 0 <= i < r.instances@.len() ==> #[trigger] r.instances@[i] == grid_instance(i),
            forall|i: int|
                0 <= i < r.instances@.len() && (#[trigger] r.instances@[i]).position.is_zero()
                    ==> r.instances@[i].rotation == Rotation::Identity,
            r.camera_controller == CameraController::released(),
    {
        let indices = mesh_indices();
        State {
            width,
            height,
            configured: false,
            num_indices: indices.len() as u32,
            instances: instance_grid(),
            camera_controller: CameraController::new(),
        }
    }

    /// Takes a new surface size. A size with a zero side (a minimised
    /// window) changes nothing and returns false. Otherwise the stored size
    /// becomes `width` x `height`, the surface counts as configured, and the
    /// result is true: the caller reconfigures the surface and rebuilds the
    /// depth texture at that size.
    pub fn resize(&mut self, width: u32, height: u32) -> (r: bool)
        ensures
            r == usable_size(width, height),
            *final(self) == old(self).resized(width, height),
    {
        if width >= 1 && height >= 1 {
            self.width = width;
            self.height = height;
            self.configured = true;
            true
        } else {
            false
        }
    }

    /// The first step of a redraw: no GPU work until the surface has been
    /// configured.
    pub fn render(&self) -> (r: FrameStep)
        ensures
            r == (if self.configured { FrameStep::Acquire } else { FrameStep::Skip }),
    {
        if self.configured {
            FrameStep::Acquire
        } else {
            FrameStep::Skip
        }
    }

    /// The rest of a redraw, given how acquisition went. A ready image is
    /// drawn with every index and every instance (their count must fit a
    /// `u32`). A lost or outdated surface
    /// is resized to the window's current `window_width` x `window_height`
    /// and the frame dropped. Any other failure is reported and the frame
    /// dropped, with the state unchanged.
    pub fn finish_frame(&mut self, acquired: Acquired, window_width: u32, window_height: u32) -> (r:
        FrameAction)
        requires
            old(self).configured,
            old(self).instances@.len() <= u32::MAX,
        ensures
            acquired == Acquired::Ready ==> r == (FrameAction::Draw {
                index_count: old(self).num_indices,
                instance_count: old(self).instances@.len() as u32,
            }) && *final(self) == *old(self),
            (acquired == Acquired::Lost || acquired == Acquired::Outdated) ==> {
                &&& *final(self) == old(self).resized(window_width, window_height)
                &&& r == if usable_size(window_width, window_height) {
                    FrameAction::Reconfigure { width: window_width, height: window_height }
                } else {
                    FrameAction::Skip
                }
            },
            (acquired == Acquired::Timeout || acquired == Acquired::OutOfMemory || acquired
                == Acquired::Other) ==> r == FrameAction::Report && *final(self) == *old(self),
    {
        match acquired {
            Acquired::Ready => FrameAction::Draw {
                index_count: self.num_indices,
                instance_count: self.instances.len() as u32,
            },
            Acquired::Lost | Acquired::Outdated => {
                if self.resize(window_width, window_height) {
                    FrameAction::Reconfigure { width: window_width, height: window_height }
                } else {
                    FrameAction::Skip
                }
            },
            _ => FrameAction::Report,
        }
    }

    /// Hands a key event to the camera controller and returns what it asks
    /// of the window: on a key going down, Escape exits, F enters borderless
    /// fullscreen and E leaves it.
    pub fn handle_key(&mut self, key: Key, is_pressed: bool) -> (r: WindowCommand)
        ensures
            r == command_of(key, is_pressed),
            *final(self) == (State {
                camera_controller: old(self).camera_controller.after_key(key, is_pressed),
                ..*old(self)
            }),
    {
        self.camera_controller.handle_key(key, is_pressed);
        if !is_pressed {
            return WindowCommand::Nothing;
        }
        match key {
            Key::Escape => WindowCommand::Exit,
            Key::KeyF => WindowCommand::EnterFullscreen,
            Key::KeyE => WindowCommand::LeaveFullscreen,
            _ => WindowCommand::Nothing,
        }
    }
}

/// A resize with a zero side leaves the whole state, stored size and
/// `configured` flag included, as it was. Any other resize stores exactly the
/// new size, marks the surface configured, and the depth target rebuilt for
/// the stored size (`depth_extent`) has that same size.
pub proof fn lemma_resize(s: State, width: u32, height: u32)
    ensures
        !usable_size(width, height) ==> s.resized(width, height) == s,
        usable_size(width, height) ==> {
            let t = s.resized(width, height);
            &&& t.configured
            &&& t.width == width && t.height == height
            &&& at_least_one(t.width) == width && at_least_one(t.height) == height
        },
{
}

/// Index of the surface format to use: the first sRGB one in the list
/// (`srgb[i]` tells whether format `i` is sRGB), else the first.
pub fn surface_format_index(srgb: &Vec<bool>) -> (r: usize)
    requires
        srgb@.len() > 0,
    ensures
        r < srgb@.len(),
        forall|i: int| 0 <= i < r ==> !#[trigger] srgb@[i],
        srgb@[r as int] || (r == 0 && forall|i: int| 0 <= i < srgb@.len() ==> !#[trigger] srgb@[i]),
{
    let mut i: usize = 0;
    while i < srgb.len()
        invariant
            i <= srgb@.len(),
            forall|j: int| 0 <= j < i ==> !#[trigger] srgb@[j],
        decreases srgb@.len() - i,
    {
        if srgb[i] {
            return i;
        }
        i = i + 1;
    }
    0
}

#[verifier::external_type_specification]
#[verifier::external_body]
pub struct ExTextureFormat(wgpu::TextureFormat);

/// Whether `format` applies the sRGB transfer function.
pub uninterp spec fn srgb_format(format: wgpu::TextureFormat) -> bool;

/// Relies on wgpu's `TextureFormat::is_srgb`: whether the format applies the
/// sRGB transfer function, which depends on the format alone.
#[verifier::external_body]
fn format_is_srgb(format: &wgpu::TextureFormat) -> (r: bool)
    ensures
        r == srgb_format(*format),
{
    format.is_srgb()
}

/// The colour format to configure the surface with, out of those it
/// offers: the first sRGB one, else the first one.
pub fn choose_surface_format(formats: &Vec<wgpu::TextureFormat>) -> (r: wgpu::TextureFormat)
    requires
        formats@.len() > 0,
    ensures
        exists|k: int|
            {
                &&& 0 <= k < formats@.len()
                &&& r == formats@[k]
                &&& forall|j: int| 0 <= j < k ==> !srgb_format(#[trigger] formats@[j])
                &&& srgb_format(formats@[k]) || (k == 0 && forall|j: int|
                    0 <= j < formats@.len() ==> !srgb_format(#[trigger] formats@[j]))
            },
{
    let mut srgb: Vec<bool> = Vec::new();
    let mut i: usize = 0;
    while i < formats.len()
        invariant
            i <= formats@.len(),
            srgb@.len() == i,
            forall|j: int| 0 <= j < i ==> #[trigger] srgb@[j] == srgb_format(formats@[j]),
        decreases formats@.len() - i,
    {
        srgb.push(format_is_srgb(&formats[i]));
        i = i + 1;
    }
    let k = surface_format_index(&srgb);
    assert forall|j: int| 0 <= j < k implies !srgb_format(#[trigger] formats@[j]) by {
        assert(!srgb@[j]);
    }
    assert(srgb_format(formats@[k as int]) || (k == 0 && forall|j: int|
        0 <= j < formats@.len() ==> !srgb_format(#[trigger] formats@[j]))) by {
        if !srgb@[k as int] {
            assert forall|j: int| 0 <= j < formats@.len() implies !srgb_format(
                #[trigger] formats@[j],
            ) by {
                assert(!srgb@[j]);
            }
        }
    }
    formats[k]
}

} // verus!
