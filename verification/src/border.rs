//! The border widget: a stylised, static frame around a child widget, and its
//! builder.

use crate::widget::{
    brush_primary, spec_brush_primary, BuildContext, Thickness, UiNode, Widget, WidgetBuilder,
    WidgetHandle,
};
use vstd::prelude::*;

verus! {

/// A border widget: base widget state plus a stroke thickness per side.
#[derive(Clone, Copy, Debug, PartialEq, Eq, Structural)]
pub struct Border {
    /// Base widget of the border.
    pub widget: Widget,
    /// Stroke thickness for each side of the border.
    pub stroke_thickness: Thickness,
}

/// Border-specific messages.
#[derive(Clone, Copy, Debug, PartialEq, Eq, Structural)]
pub enum BorderMessage {
    /// Sets the stroke thickness at runtime.
    StrokeThickness(Thickness),
}

/// Border builder.
#[derive(Clone, Copy, Debug, PartialEq, Eq, Structural)]
pub struct BorderBuilder {
    /// Builder of the base widget.
    pub widget_builder: WidgetBuilder,
    /// Stroke thickness for each side; one unit per side when not chosen.
    pub stroke_thickness: Thickness,
}

impl BorderBuilder {
    /// The border this builder currently describes: the base widget, with the
    /// toolkit's primary brush as foreground where none was chosen.
    pub open spec fn spec_build_border(self) -> Border {
        Border {
            widget: Widget {
                foreground: if self.widget_builder.foreground is Some {
                    self.widget_builder.foreground
                } else {
                    Some(spec_brush_primary())
                },
                background: self.widget_builder.background,
            },
            stroke_thickness: self.stroke_thickness,
        }
    }

    /// A border builder over the given base widget builder, with a one-unit
    /// stroke on every side.
    pub fn new(widget_builder: WidgetBuilder) -> (builder: Self)
        ensures
            builder.widget_builder == widget_builder,
            builder.stroke_thickness == (Thickness { left: 1, right: 1, top: 1, bottom: 1 }),
    {
        BorderBuilder { widget_builder, stroke_thickness: Thickness::uniform(1) }
    }

    /// Chooses the stroke thickness for each side of the border.
    pub fn with_stroke_thickness(self, stroke_thickness: Thickness) -> (builder: Self)
        ensures
            builder == (BorderBuilder { stroke_thickness, ..self }),
    {
        BorderBuilder { stroke_thickness, ..self }
    }

    /// Creates the border widget without adding it to the user interface.
    pub fn build_border(self) -> (border: Border)
        ensures
            border == self.spec_build_border(),
    {
        let mut widget_builder = self.widget_builder;
        if widget_builder.foreground.is_none() {
            widget_builder.foreground = Some(brush_primary());
        }
        Border { widget: widget_builder.build(), stroke_thickness: self.stroke_thickness }
    }

    /// Finishes border building and adds the border to the user interface.
    pub fn build(self, ctx: &mut BuildContext) -> (handle: WidgetHandle)
        ensures
            final(ctx)@ == old(ctx)@.push(UiNode::Border(self.spec_build_border())),
            handle.index == old(ctx)@.len(),
    {
        let border = self.build_border();
        ctx.add_node(UiNode::Border(border))
    }
}

} // verus!
