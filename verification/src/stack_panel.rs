//! The stack panel widget: a container that orders its children linearly,
//! top-to-bottom or left-to-right, and its builder.

use crate::widget::{BuildContext, Orientation, UiNode, Widget, WidgetBuilder, WidgetHandle};
use vstd::prelude::*;

verus! {

/// Stack-panel-specific messages.
#[derive(Clone, Copy, Debug, PartialEq, Eq, Structural)]
pub enum StackPanelMessage {
    /// Changes the orientation of the stack panel.
    Orientation(Orientation),
}

/// A stack panel widget: base widget state plus the direction its children
/// are stacked in.
#[derive(Clone, Copy, Debug, PartialEq, Eq, Structural)]
pub struct StackPanel {
    /// Base widget of the stack panel.
    pub widget: Widget,
    /// Current orientation of the stack panel.
    pub orientation: Orientation,
}

/// Stack panel builder.
#[derive(Clone, Copy, Debug, PartialEq, Eq, Structural)]
pub struct StackPanelBuilder {
    /// Builder of the base widget.
    pub widget_builder: WidgetBuilder,
    /// The chosen orientation, if any.
    pub orientation: Option<Orientation>,
}

impl StackPanelBuilder {
    /// The stack panel this builder currently describes; vertical when no
    /// orientation was chosen.
    pub open spec fn spec_build(self) -> StackPanel {
        StackPanel {
            widget: self.widget_builder.spec_build(),
            orientation: match self.orientation {
                Some(orientation) => orientation,
                None => Orientation::Vertical,
            },
        }
    }

    /// A stack panel builder over the given base widget builder.
    pub fn new(widget_builder: WidgetBuilder) -> (builder: Self)
        ensures
            builder == (StackPanelBuilder { widget_builder, orientation: None }),
    {
        StackPanelBuilder { widget_builder, orientation: None }
    }

    /// Chooses the orientation of the stack panel.
    pub fn with_orientation(self, orientation: Orientation) -> (builder: Self)
        ensures
            builder == (StackPanelBuilder { orientation: Some(orientation), ..self }),
    {
        StackPanelBuilder { orientation: Some(orientation), ..self }
    }

    /// Finishes stack panel building, adds the panel to the user interface
    /// and returns its handle.
    pub fn build(self, ctx: &mut BuildContext) -> (handle: WidgetHandle)
        ensures
            final(ctx)@ == old(ctx)@.push(UiNode::StackPanel(self.spec_build())),
            handle.index == old(ctx)@.len(),
    {
        let orientation = match self.orientation {
            Some(orientation) => orientation,
            None => Orientation::Vertical,
        };
        let stack_panel = StackPanel { widget: self.widget_builder.build(), orientation };
        ctx.add_node(UiNode::StackPanel(stack_panel))
    }
}

} // verus!
