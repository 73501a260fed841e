use vstd::prelude::*;
use crate::celestial::node::Node;
use crate::celestial::node_type::NodeType;

verus! {

/// What the window in which a node is edited asks for. A colour is red,
/// green, blue and alpha as bytes; a size is in thousandths.
#[derive(Debug)]
pub enum EditorAction {
    UpdateTitle(String),
    UpdateDescription(String),
    CreateEvolutionLayer,
    UpdateColor([u8; 4]),
    UpdateSize(u32),
}

/// The least and the largest size that the window lets a node have, in
/// thousandths.
pub const LEAST_SIZE: u32 = 5000;

pub const LARGEST_SIZE: u32 = 50000;

/// The window in which a node is edited.
pub struct NodeEditor {
    pub show_editor: bool,
    pub editing_node: Option<String>,
    pub title: String,
    pub description: String,
    pub show_color_picker: bool,
    pub size_edit_mode: bool,
    pub temp_size: u32,
}

/// The colour in which a node of a kind is drawn unless it has a colour of
/// its own: that of the star, the planet, the satellite or the asteroid,
/// by the tier on which the kind starts out.
pub open spec fn usual_paint(kind: NodeType) -> Seq<u8> {
    if kind.home_layer() == 0 {
        seq![255u8, 223u8, 186u8, 255u8]
    } else if kind.home_layer() == 1 {
        seq![186u8, 223u8, 255u8, 255u8]
    } else if kind.home_layer() == 2 {
        seq![200u8, 200u8, 200u8, 255u8]
    } else {
        seq![169u8, 169u8, 169u8, 255u8]
    }
}

/// The size at which a node of a kind is drawn unless it has a size of its
/// own, in thousandths.
pub open spec fn usual_size(kind: NodeType) -> int {
    if kind.home_layer() == 0 {
        20000
    } else if kind.home_layer() == 1 {
        15000
    } else if kind.home_layer() == 2 {
        8000
    } else {
        5000
    }
}

/// A size held within what the window lets a node have.
pub open spec fn held_size(size: int) -> int {
    if size < LEAST_SIZE {
        LEAST_SIZE as int
    } else if size > LARGEST_SIZE {
        LARGEST_SIZE as int
    } else {
        size
    }
}

impl NodeEditor {
    pub fn new() -> (editor: Self)
        ensures
            !editor.show_editor,
            editor.editing_node is None,
            editor.title@.len() == 0,
            editor.description@.len() == 0,
            !editor.show_color_picker,
            !editor.size_edit_mode,
            editor.temp_size == 0,
    {
        Self {
            show_editor: false,
            editing_node: None,
            title: String::new(),
            description: String::new(),
            show_color_picker: false,
            size_edit_mode: false,
            temp_size: 0,
        }
    }

    /// The button of the colour: it shows the colour picker, or hides it.
    pub fn toggle_color_picker(&mut self)
        ensures
            *final(self) == (NodeEditor { show_color_picker: !old(self).show_color_picker, ..*old(self) }),
    {
        self.show_color_picker = !self.show_color_picker;
    }

    /// The button of the size: it shows the slider, or hides it, and sets
    /// the slider to the size of the node.
    pub fn toggle_size_edit(&mut self, node: &Node)
        ensures
            *final(self) == (NodeEditor {
                size_edit_mode: !old(self).size_edit_mode,
                temp_size: final(self).temp_size,
                ..*old(self)
            }),
            final(self).temp_size == match node.custom_size {
                Some(size) => size as int,
                None => usual_size(node.node_type),
            },
    {
        self.size_edit_mode = !self.size_edit_mode;
        self.temp_size = match node.custom_size {
            Some(size) => size,
            None => self.get_default_size(&node.node_type),
        };
    }

    /// The colour that the window shows for a node: its own, or the usual
    /// one of its kind.
    pub fn shown_color(&self, node: &Node) -> (rgba: [u8; 4])
        ensures
            rgba@ == match node.custom_color_rgba {
                Some(own) => own@,
                None => usual_paint(node.node_type),
            },
    {
        match node.get_color() {
            Some(own) => own,
            None => self.get_default_color(&node.node_type),
        }
    }

    /// What a move of the slider to `size` asks for: the size held within
    /// what the window lets a node have, which the slider then shows.
    /// Nothing while the slider is hidden.
    pub fn slide_size(&mut self, size: u32) -> (action: Option<EditorAction>)
        ensures
            old(self).size_edit_mode ==> {
                &&& action matches Some(EditorAction::UpdateSize(chosen))
                &&& chosen == held_size(size as int)
                &&& *final(self) == (NodeEditor { temp_size: chosen, ..*old(self) })
            },
            !old(self).size_edit_mode ==> action is None && *final(self) == *old(self),
    {
        if !self.size_edit_mode {
            return None;
        }
        let chosen: u32 = if size < LEAST_SIZE {
            LEAST_SIZE
        } else if size > LARGEST_SIZE {
            LARGEST_SIZE
        } else {
            size
        };
        self.temp_size = chosen;
        Some(EditorAction::UpdateSize(chosen))
    }

    pub fn get_default_color(&self, node_type: &NodeType) -> (rgba: [u8; 4])
        ensures
            rgba@ == usual_paint(*node_type),
    {
        let rgba: [u8; 4] = match node_type.cake_layer() {
            0 => [255, 223, 186, 255],
            1 => [186, 223, 255, 255],
            2 => [200, 200, 200, 255],
            _ => [169, 169, 169, 255],
        };
        rgba
    }

    pub fn get_default_size(&self, node_type: &NodeType) -> (size: u32)
        ensures
            size == usual_size(*node_type),
    {
        match node_type.cake_layer() {
            0 => 20000,
            1 => 15000,
            2 => 8000,
            _ => 5000,
        }
    }
}

} // verus!
