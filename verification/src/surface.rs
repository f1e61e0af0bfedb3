//! The life of an embedded surface and what is owed to its renderer on
//! each frame.
//!
//! A surface is attached once, when the host node is ready, and destroyed
//! once, when the node leaves the tree; it is never attached again. This
//! module decides; the caller owns the renderer and carries the decisions
//! out. Requests that reach a surface which is not attached are answered
//! with `None` and nothing is to be done.

use crate::config::SurfaceConfig;
use crate::geometry::{bounds_of, compute_bounds, Bounds, Layout, Point};
use vstd::prelude::*;

verus! {

/// The stage of a surface's life.
#[derive(Clone, Copy, Debug, PartialEq, Eq, Structural)]
pub enum Lifecycle {
    /// No renderer has been created yet.
    Uninitialized,
    /// The renderer exists.
    Attached,
    /// The renderer has been released.
    Destroyed,
}

/// What has to be done in one frame, in this order.
#[derive(Clone, Copy, Debug, PartialEq, Eq, Structural)]
pub struct FrameWork {
    /// Hand the focus back to the host.
    pub return_focus: bool,
    /// Move the renderer to this rectangle.
    pub bounds: Option<Bounds>,
    /// Let the renderer's own event queue run dry.
    pub pump_events: bool,
}

/// What has to be done after the host has shown or hidden the control, in
/// this order.
#[derive(Clone, Copy, Debug, PartialEq, Eq, Structural)]
pub struct VisibilityWork {
    /// Show or hide the renderer.
    pub visible: bool,
    /// Then move the renderer to this rectangle.
    pub bounds: Bounds,
}

/// What is known of a surface.
#[derive(Clone, Copy, Debug, PartialEq, Eq, Structural)]
pub struct SurfaceState {
    pub lifecycle: Lifecycle,
    /// Cover the whole viewport instead of the control's rectangle.
    pub full_window: bool,
    /// Hand the focus back to the host on every frame.
    pub return_focus: bool,
    /// Whether the renderer's event queue has to be pumped by the host's
    /// frame loop on this platform.
    pub pump_events: bool,
    /// The position of the control when its rectangle was last pushed
    /// because the control had moved.
    pub last_position: Point,
    /// Whether the renderer was last told to show itself.
    pub visible: bool,
}

impl SurfaceState {
    /// The work of a frame for a surface in this state.
    pub open spec fn frame_work(self, layout: Layout) -> FrameWork {
        if self.lifecycle == Lifecycle::Attached {
            FrameWork {
                return_focus: self.return_focus,
                bounds: if layout.control.position != self.last_position {
                    Some(bounds_of(self.full_window, layout))
                } else {
                    None
                },
                pump_events: self.pump_events,
            }
        } else {
            FrameWork { return_focus: false, bounds: None, pump_events: false }
        }
    }
}

/// A surface. At most one renderer ever belongs to it: the one created
/// when it is attached. Its state changes through the methods below and
/// in no other way.
#[derive(Clone, Copy, Debug)]
pub struct Surface {
    state: SurfaceState,
}

impl View for Surface {
    type V = SurfaceState;

    closed spec fn view(&self) -> SurfaceState {
        self.state
    }
}

impl Surface {
    /// A surface for a host node that is not ready yet. Its settings are
    /// read when it is attached; until then they stand at `false`.
    pub fn new(pump_events: bool) -> (surface: Surface)
        ensures
            surface@ == (SurfaceState {
                lifecycle: Lifecycle::Uninitialized,
                full_window: false,
                return_focus: false,
                pump_events,
                last_position: Point { x: 0, y: 0 },
                visible: true,
            }),
    {
        Surface {
            state: SurfaceState {
                lifecycle: Lifecycle::Uninitialized,
                full_window: false,
                return_focus: false,
                pump_events,
                last_position: Point { x: 0, y: 0 },
                visible: true,
            },
        }
    }

    /// What is known of the surface.
    pub fn state(&self) -> (state: SurfaceState)
        ensures
            state == self@,
    {
        self.state
    }

    /// The host node is ready: the surface takes its settings, becomes
    /// attached, and the rectangle for its new renderer comes back. A
    /// surface that has been attached before, whether it still is or has
    /// been destroyed, is left as it is, settings included, and gets
    /// nothing.
    pub fn attach(&mut self, config: &SurfaceConfig, layout: &Layout) -> (bounds: Option<Bounds>)
        ensures
            final(self)@.lifecycle == old(self)@.lifecycle.after(NodeEvent::Ready),
            old(self)@.lifecycle == Lifecycle::Uninitialized ==> {
                &&& final(self)@ == (SurfaceState {
                    lifecycle: Lifecycle::Attached,
                    full_window: config.full_window_size,
                    return_focus: config.allow_interactions_without_focus,
                    ..old(self)@
                })
                &&& bounds == Some(bounds_of(config.full_window_size, *layout))
            },
            old(self)@.lifecycle != Lifecycle::Uninitialized ==> {
                &&& final(self)@ == old(self)@
                &&& bounds is None
            },
    {
        match self.state.lifecycle {
            Lifecycle::Uninitialized => {
                self.state.lifecycle = Lifecycle::Attached;
                self.state.full_window = config.full_window_size;
                self.state.return_focus = config.allow_interactions_without_focus;
                Some(compute_bounds(self.state.full_window, layout))
            },
            _ => None,
        }
    }

    /// The host node leaves the tree: an attached surface is destroyed and
    /// its renderer is to be released. The answer says whether there is a
    /// renderer to release.
    pub fn detach(&mut self) -> (release: bool)
        ensures
            final(self)@ == (SurfaceState {
                lifecycle: old(self)@.lifecycle.after(NodeEvent::Removed),
                ..old(self)@
            }),
            release == (old(self)@.lifecycle == Lifecycle::Attached),
    {
        match self.state.lifecycle {
            Lifecycle::Attached => {
                self.state.lifecycle = Lifecycle::Destroyed;
                true
            },
            _ => false,
        }
    }

    /// One frame of the host. The rectangle is pushed only when the
    /// control has moved since it was last pushed for that reason.
    pub fn process(&mut self, layout: &Layout) -> (work: FrameWork)
        ensures
            work == old(self)@.frame_work(*layout),
            final(self)@ == (SurfaceState {
                last_position: if old(self)@.lifecycle == Lifecycle::Attached {
                    layout.control.position
                } else {
                    old(self)@.last_position
                },
                ..old(self)@
            }),
    {
        match self.state.lifecycle {
            Lifecycle::Attached => {
                let moved = layout.control.position.x != self.state.last_position.x
                    || layout.control.position.y != self.state.last_position.y;
                let bounds = if moved {
                    self.state.last_position = layout.control.position;
                    Some(compute_bounds(self.state.full_window, layout))
                } else {
                    None
                };
                FrameWork {
                    return_focus: self.state.return_focus,
                    bounds,
                    pump_events: self.state.pump_events,
                }
            },
            _ => FrameWork { return_focus: false, bounds: None, pump_events: false },
        }
    }

    /// The host asks for the rectangle to be pushed again, after the
    /// control or the viewport has changed its size.
    pub fn resize(&self, layout: &Layout) -> (bounds: Option<Bounds>)
        ensures
            bounds == if self@.lifecycle == Lifecycle::Attached {
                Some(bounds_of(self@.full_window, *layout))
            } else {
                None
            },
    {
        match self.state.lifecycle {
            Lifecycle::Attached => Some(compute_bounds(self.state.full_window, layout)),
            _ => None,
        }
    }

    /// The host has shown or hidden the control: the renderer is to be
    /// shown or hidden, and its rectangle pushed after that.
    pub fn update_visibility(&mut self, visible: bool, layout: &Layout) -> (work: Option<
        VisibilityWork,
    >)
        ensures
            old(self)@.lifecycle == Lifecycle::Attached ==> {
                &&& work == Some(
                    VisibilityWork { visible, bounds: bounds_of(old(self)@.full_window, *layout) },
                )
                &&& final(self)@ == (SurfaceState { visible, ..old(self)@ })
            },
            old(self)@.lifecycle != Lifecycle::Attached ==> work is None && final(self)@ == old(
                self,
            )@,
    {
        match self.state.lifecycle {
            Lifecycle::Attached => {
                self.state.visible = visible;
                Some(
                    VisibilityWork {
                        visible,
                        bounds: compute_bounds(self.state.full_window, layout),
                    },
                )
            },
            _ => None,
        }
    }

    /// The host asks for the renderer to be shown or hidden, without a new
    /// rectangle. The answer is what to tell the renderer; a surface that
    /// is not attached has none to tell.
    pub fn set_visible(&mut self, visible: bool) -> (show: Option<bool>)
        ensures
            old(self)@.lifecycle == Lifecycle::Attached ==> {
                &&& show == Some(visible)
                &&& final(self)@ == (SurfaceState { visible, ..old(self)@ })
            },
            old(self)@.lifecycle != Lifecycle::Attached ==> show is None && final(self)@ == old(
                self,
            )@,
    {
        match self.state.lifecycle {
            Lifecycle::Attached => {
                self.state.visible = visible;
                Some(visible)
            },
            _ => None,
        }
    }

    /// Whether a request to the renderer can be carried out: only while
    /// the surface is attached. In every other stage such requests are
    /// dropped without an error.
    pub fn is_attached(&self) -> (attached: bool)
        ensures
            attached == (self@.lifecycle == Lifecycle::Attached),
    {
        match self.state.lifecycle {
            Lifecycle::Attached => true,
            _ => false,
        }
    }
}

/// What the host reports of its node.
#[derive(Clone, Copy, Debug, PartialEq, Eq, Structural)]
pub enum NodeEvent {
    /// The node is ready.
    Ready,
    /// The node has left the tree.
    Removed,
}

impl Lifecycle {
    /// The stage after an event.
    pub open spec fn after(self, event: NodeEvent) -> Lifecycle {
        match (self, event) {
            (Lifecycle::Uninitialized, NodeEvent::Ready) => Lifecycle::Attached,
            (Lifecycle::Attached, NodeEvent::Removed) => Lifecycle::Destroyed,
            _ => self,
        }
    }

    /// The stage after a run of events, oldest first.
    pub open spec fn after_all(self, events: Seq<NodeEvent>) -> Lifecycle
        decreases events.len(),
    {
        if events.len() == 0 {
            self
        } else {
            self.after_all(events.drop_last()).after(events.last())
        }
    }

    /// How far a life has advanced.
    pub open spec fn rank(self) -> nat {
        match self {
            Lifecycle::Uninitialized => 0,
            Lifecycle::Attached => 1,
            Lifecycle::Destroyed => 2,
        }
    }
}

/// A life only advances: whatever the host reports, and however often, a
/// surface never returns to an earlier stage. So a surface that has been
/// destroyed stays destroyed, and a surface is attached at most once.
pub proof fn lemma_life_only_advances(stage: Lifecycle, events: Seq<NodeEvent>)
    ensures
        stage.after_all(events).rank() >= stage.rank(),
        stage == Lifecycle::Destroyed ==> stage.after_all(events) == Lifecycle::Destroyed,
    decreases events.len(),
{
    if events.len() > 0 {
        lemma_life_only_advances(stage, events.drop_last());
    }
}

} // verus!
