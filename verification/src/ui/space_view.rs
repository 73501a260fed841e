use vstd::prelude::*;
use crate::celestial::position::Position2D;

verus! {

/// How a universe is laid out on the screen: as a galaxy of all its nodes, or
/// as the time line of one node and what evolved from it.
#[derive(Clone, Copy, Debug, PartialEq, Eq, Structural)]
pub enum ViewMode {
    Galaxy,
    Timeline,
}

/// Where the time line starts, and how far its nodes are apart, in
/// thousandths.
pub const TIMELINE_START: i128 = 100000;

pub const TIMELINE_STEP: i128 = 150000;

/// The view of a universe from afar: how large it is drawn, in thousandths,
/// how far it was dragged, the node whose time line is shown, and the layout.
pub struct SpaceView {
    pub scale: i128,
    pub offset: Position2D,
    pub selected_node: Option<String>,
    pub view_mode: ViewMode,
}

impl ViewMode {
    /// The mode after the time line was asked for: the time line needs a
    /// selected node, without one the mode stays.
    pub fn to_timeline(self, has_selection: bool) -> (mode: ViewMode)
        ensures
            mode == if has_selection {
                ViewMode::Timeline
            } else {
                self
            },
    {
        if has_selection {
            ViewMode::Timeline
        } else {
            self
        }
    }
}

impl SpaceView {
    pub fn new() -> (view: Self)
        ensures
            view.scale == 1000,
            view.offset == (Position2D { x: 0, y: 0 }),
            view.selected_node is None,
            view.view_mode == ViewMode::Galaxy,
    {
        Self { scale: 1000, offset: Position2D::new(0, 0), selected_node: None, view_mode: ViewMode::Galaxy }
    }

    /// The button of the galaxy.
    pub fn show_galaxy(&mut self)
        ensures
            *final(self) == (SpaceView { view_mode: ViewMode::Galaxy, ..*old(self) }),
    {
        self.view_mode = ViewMode::Galaxy;
    }

    /// The button of the time line, which needs a selected node.
    pub fn show_timeline(&mut self)
        ensures
            *final(self) == (SpaceView {
                view_mode: if old(self).selected_node is Some {
                    ViewMode::Timeline
                } else {
                    old(self).view_mode
                },
                ..*old(self)
            }),
    {
        self.view_mode = self.view_mode.to_timeline(self.selected_node.is_some());
    }

    /// A drag of the galaxy by `delta`.
    pub fn drag(&mut self, delta: Position2D)
        ensures
            *final(self) == (SpaceView { offset: old(self).offset.moved_by(delta), ..*old(self) }),
    {
        self.offset = self.offset.plus(delta);
    }

    /// A click on a node of the galaxy: the node is selected, and its time
    /// line is shown.
    pub fn click_node(&mut self, id: String)
        ensures
            *final(self) == (SpaceView {
                selected_node: Some(id),
                view_mode: ViewMode::Timeline,
                ..*old(self)
            }),
    {
        self.selected_node = Some(id);
        self.view_mode = ViewMode::Timeline;
    }

    /// How far from the left the node number `index` of the time line
    /// stands, before the view is dragged.
    pub fn timeline_x(index: u32) -> (x: i128)
        ensures
            x == TIMELINE_START + index * TIMELINE_STEP,
    {
        TIMELINE_START + index as i128 * TIMELINE_STEP
    }
}

} // verus!
