//! What the property panel offers for the active showcase.

use crate::demo_type::DemoType;
use crate::workspace::Workspace;
use vstd::prelude::*;

verus! {

/// One row of the panel.
#[derive(Clone, Copy, Debug, PartialEq, Eq)]
pub enum PanelItem {
    /// A labelled editor for the triangle's colour.
    ColorEdit(&'static str),
    /// A line of text.
    Label(&'static str),
}

/// The panel that reflects the parameters of the active showcase.
pub struct PropertyPanel {}

impl PropertyPanel {
    /// Whether `items` are the rows shown while `kind` is active: the
    /// colour editor for the triangle, a note for the fractal, nothing for
    /// the others.
    pub open spec fn shows(items: Seq<PanelItem>, kind: DemoType) -> bool {
        match kind {
            DemoType::Triangle => items.len() == 1 && (items[0] matches PanelItem::ColorEdit(label)
                && label@ == "Color"@),
            DemoType::Mandelbrot => items.len() == 1 && (items[0] matches PanelItem::Label(text)
                && text@ == "Nothing"@),
            _ => items.len() == 0,
        }
    }

    /// The panel; it keeps nothing between frames.
    pub fn new() -> (panel: PropertyPanel)
        ensures
            panel == (PropertyPanel {  }),
    {
        PropertyPanel {  }
    }

    /// The rows to show for the showcase that is active in `workspace`.
    pub fn draw(&self, workspace: &Workspace) -> (items: Vec<PanelItem>)
        ensures
            Self::shows(items@, workspace.kind()),
    {
        match workspace.get_current_demo_type() {
            DemoType::Triangle => Self::draw_triangle_properties(),
            DemoType::Mandelbrot => Self::draw_mandelbrot_properties(),
            DemoType::Model3d => Vec::new(),
            DemoType::Physics => Vec::new(),
            DemoType::Tetris => Vec::new(),
        }
    }

    fn draw_triangle_properties() -> (items: Vec<PanelItem>)
        ensures
            Self::shows(items@, DemoType::Triangle),
    {
        vec![PanelItem::ColorEdit("Color")]
    }

    fn draw_mandelbrot_properties() -> (items: Vec<PanelItem>)
        ensures
            Self::shows(items@, DemoType::Mandelbrot),
    {
        vec![PanelItem::Label("Nothing")]
    }
}

} // verus!
