//! The small slice of the widget toolkit that the builders in this crate
//! touch.
//!
//! Widget layout, drawing and message routing are the business of the UI
//! toolkit and stay outside this crate; a [`Widget`] here carries only the
//! visual state the verified builders read and write.  Lengths are whole
//! layout units.

use vstd::prelude::*;

verus! {

/// An RGBA colour.
#[derive(Clone, Copy, Debug, PartialEq, Eq, Structural)]
pub struct Color {
    /// Red channel.
    pub red: u8,
    /// Green channel.
    pub green: u8,
    /// Blue channel.
    pub blue: u8,
    /// Alpha channel.
    pub alpha: u8,
}

/// How a region is painted.
#[derive(Clone, Copy, Debug, PartialEq, Eq, Structural)]
pub enum Brush {
    /// A single solid colour.
    Solid(Color),
}

/// The brush a border falls back to when its builder sets no foreground.
pub open spec fn spec_brush_primary() -> Brush {
    Brush::Solid(Color { red: 80, green: 80, blue: 80, alpha: 255 })
}

/// The toolkit's primary brush: an opaque mid grey.
pub fn brush_primary() -> (brush: Brush)
    ensures
        brush == spec_brush_primary(),
{
    Brush::Solid(Color { red: 80, green: 80, blue: 80, alpha: 255 })
}

/// A margin, one width per side, in whole layout units.
#[derive(Clone, Copy, Debug, PartialEq, Eq, Structural)]
pub struct Thickness {
    /// Width of the left side.
    pub left: u32,
    /// Width of the right side.
    pub right: u32,
    /// Width of the top side.
    pub top: u32,
    /// Width of the bottom side.
    pub bottom: u32,
}

impl Thickness {
    /// The same width on every side.
    pub fn uniform(value: u32) -> (thickness: Self)
        ensures
            thickness == (Thickness { left: value, right: value, top: value, bottom: value }),
    {
        Thickness { left: value, right: value, top: value, bottom: value }
    }
}

/// Direction in which a container lays its children out.
#[derive(Clone, Copy, Debug, PartialEq, Eq, Structural)]
pub enum Orientation {
    /// Top to bottom.
    Vertical,
    /// Left to right.
    Horizontal,
}

/// The base state every widget shares, reduced to what the builders here
/// decide: the paint of the widget itself and of the area behind it.
#[derive(Clone, Copy, Debug, PartialEq, Eq, Structural)]
pub struct Widget {
    /// Paint of the widget's own strokes, when one was chosen.
    pub foreground: Option<Brush>,
    /// Paint of the area behind the widget, when one was chosen.
    pub background: Option<Brush>,
}

/// Accumulates the base state of a widget under construction.
#[derive(Clone, Copy, Debug, PartialEq, Eq, Structural)]
pub struct WidgetBuilder {
    /// The chosen foreground, if any.
    pub foreground: Option<Brush>,
    /// The chosen background, if any.
    pub background: Option<Brush>,
}

impl WidgetBuilder {
    /// The widget this builder currently describes.
    pub open spec fn spec_build(self) -> Widget {
        Widget { foreground: self.foreground, background: self.background }
    }

    /// A builder with nothing chosen.
    pub fn new() -> (builder: Self)
        ensures
            builder.foreground is None,
            builder.background is None,
    {
        WidgetBuilder { foreground: None, background: None }
    }

    /// Chooses the foreground brush.
    pub fn with_foreground(self, brush: Brush) -> (builder: Self)
        ensures
            builder == (WidgetBuilder { foreground: Some(brush), ..self }),
    {
        WidgetBuilder { foreground: Some(brush), ..self }
    }

    /// Chooses the background brush.
    pub fn with_background(self, brush: Brush) -> (builder: Self)
        ensures
            builder == (WidgetBuilder { background: Some(brush), ..self }),
    {
        WidgetBuilder { background: Some(brush), ..self }
    }

    /// Finishes the base widget.
    pub fn build(self) -> (widget: Widget)
        ensures
            widget == self.spec_build(),
    {
        Widget { foreground: self.foreground, background: self.background }
    }
}

/// A finished node of the user interface.
pub enum UiNode {
    /// A border widget.
    Border(crate::border::Border),
    /// A stack panel widget.
    StackPanel(crate::stack_panel::StackPanel),
}

/// A handle to a node registered in a [`BuildContext`].
#[derive(Clone, Copy, Debug, PartialEq, Eq, Structural)]
pub struct WidgetHandle {
    /// Position of the node in its build context.
    pub index: usize,
}

/// The user interface under construction: the nodes registered so far, in
/// registration order.
pub struct BuildContext {
    nodes: Vec<UiNode>,
}

impl View for BuildContext {
    type V = Seq<UiNode>;

    closed spec fn view(&self) -> Seq<UiNode> {
        self.nodes@
    }
}

impl BuildContext {
    /// A context with no nodes yet.
    pub fn new() -> (ctx: Self)
        ensures
            ctx@ == Seq::<UiNode>::empty(),
    {
        BuildContext { nodes: Vec::new() }
    }

    /// Registers a node and hands back its handle.
    pub fn add_node(&mut self, node: UiNode) -> (handle: WidgetHandle)
        ensures
            final(self)@ == old(self)@.push(node),
            handle.index == old(self)@.len(),
    {
        let index = self.nodes.len();
        self.nodes.push(node);
        WidgetHandle { index }
    }

    /// How many nodes were registered.
    pub fn len(&self) -> (length: usize)
        ensures
            length == self@.len(),
    {
        self.nodes.len()
    }

    /// The node a handle names.
    pub fn node(&self, handle: WidgetHandle) -> (node: &UiNode)
        requires
            handle.index < self@.len(),
        ensures
            *node == self@[handle.index as int],
    {
        &self.nodes[handle.index]
    }
}

} // verus!
