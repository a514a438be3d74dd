//! The two moments of a frame at which the host calls in.

use crate::bytes::{is_layout_u32, BufferWrite};
use crate::demo_type::DemoType;
use crate::manager::{demo_commands, paint_commands, DemoManager, OffscreenPass};
use crate::render_pass::{Owner, RenderPass};
use crate::workspace::Workspace;
use vstd::prelude::*;

verus! {

/// What has to happen before the frame is painted.
pub struct PreparedFrame {
    /// The buffer write to queue first, if the active showcase needs one.
    pub write: Option<BufferWrite>,
    /// The pass to record and submit after it.
    pub offscreen: OffscreenPass,
}

impl PreparedFrame {
    /// Whether this is the preparation of a frame that shows `workspace`.
    pub open spec fn prepares(&self, workspace: &Workspace) -> bool {
        &&& self.write is Some <==> workspace.kind() == DemoType::Triangle
        &&& self.write matches Some(w) ==> {
            &&& w.owner == Owner::Triangle
            &&& w.offset == 0
            &&& is_layout_u32(w.data@, workspace.params().color@)
        }
        &&& self.offscreen.depth == workspace.kind().needs_depth()
        &&& self.offscreen.pass@ == demo_commands(workspace.kind())
    }
}

/// Adapter between the host's per-frame callbacks and the manager. It has
/// no state of its own.
pub struct RenderBridge {}

impl RenderBridge {
    /// The bridge; every one is like every other.
    pub fn new() -> (bridge: RenderBridge)
        ensures
            bridge == (RenderBridge {  }),
    {
        RenderBridge {  }
    }

    /// First moment of a frame: stage the active showcase's parameters,
    /// then record its offscreen pass. Without a manager there is nothing
    /// to prepare; with one there is exactly one frame.
    pub fn prepare(&self, demo_manager: Option<&DemoManager>, workspace: &Workspace) -> (frames: Vec<
        PreparedFrame,
    >)
        ensures
            demo_manager is None ==> frames@.len() == 0,
            demo_manager is Some ==> frames@.len() == 1 && frames@[0].prepares(workspace),
    {
        let Some(demo_manager) = demo_manager else {
            return Vec::new();
        };
        let write = demo_manager.update(workspace);
        let offscreen = demo_manager.draw_pre(workspace);
        vec![PreparedFrame { write, offscreen }]
    }

    /// Second moment of a frame: record into the frame's own pass. Without
    /// a manager nothing is recorded.
    pub fn paint(
        &self,
        demo_manager: Option<&DemoManager>,
        workspace: &Workspace,
        render_pass: &mut RenderPass,
    )
        ensures
            demo_manager is None ==> final(render_pass)@ == old(render_pass)@,
            demo_manager is Some ==> final(render_pass)@ == old(render_pass)@ + paint_commands(
                workspace.kind(),
            ),
    {
        let Some(demo_manager) = demo_manager else {
            return ;
        };
        demo_manager.draw(workspace, render_pass);
    }
}

impl Default for RenderBridge {
    fn default() -> (bridge: RenderBridge)
        ensures
            bridge == (RenderBridge {  }),
    {
        RenderBridge::new()
    }
}

} // verus!
