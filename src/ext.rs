use vstd::prelude::*;

use crate::composite::Composite;
use crate::modified::Modified;
use crate::modifier::{ModifierNode, Scalar, Vec2};
use crate::overlay::Overlay;
use crate::scroll_view::ScrollView;
use crate::stack::{ForEach, Stack};
use crate::text::Text;
use crate::toggle::Toggle;
use crate::view::AnyView;

verus! {

/// Builders that put a view under an overlay or decorate it with one
/// modifier each.
pub trait ViewExt: Sized {
    fn overlay<O>(self, overlayed: O) -> (r: Overlay<Self, O>)
        ensures
            r.wrapped == self,
            r.overlayed == overlayed,
    {
        Overlay::new(self, overlayed)
    }

    fn modifier(self, modifier: ModifierNode) -> (r: Modified<Self>)
        ensures
            r.wrapped == self,
            r.modifier == modifier,
    {
        Modified::new(self, modifier)
    }

    fn position(self, position: Vec2) -> (r: Modified<Self>)
        ensures
            r.wrapped == self,
            r.modifier == (ModifierNode::Position { position }),
    {
        self.modifier(ModifierNode::Position { position })
    }

    fn offset(self, delta: Vec2) -> (r: Modified<Self>)
        ensures
            r.wrapped == self,
            r.modifier == (ModifierNode::Offset { delta }),
    {
        self.modifier(ModifierNode::Offset { delta })
    }

    fn opacity(self, opacity: Scalar) -> (r: Modified<Self>)
        ensures
            r.wrapped == self,
            r.modifier == (ModifierNode::Opacity { opacity }),
    {
        self.modifier(ModifierNode::Opacity { opacity })
    }

    fn help(self, text: String) -> (r: Modified<Self>)
        ensures
            r.wrapped == self,
            r.modifier == (ModifierNode::Help { text }),
    {
        self.modifier(ModifierNode::Help { text })
    }

    fn navigation_title(self, title: String) -> (r: Modified<Self>)
        ensures
            r.wrapped == self,
            r.modifier == (ModifierNode::NavigationTitle { title }),
    {
        self.modifier(ModifierNode::NavigationTitle { title })
    }

    fn navigation_subtitle(self, subtitle: String) -> (r: Modified<Self>)
        ensures
            r.wrapped == self,
            r.modifier == (ModifierNode::NavigationSubtitle { subtitle }),
    {
        self.modifier(ModifierNode::NavigationSubtitle { subtitle })
    }

    fn blur(self, radius: Scalar) -> (r: Modified<Self>)
        ensures
            r.wrapped == self,
            r.modifier == (ModifierNode::Blur { radius }),
    {
        self.modifier(ModifierNode::Blur { radius })
    }

    fn corner_radius(self, radius: Scalar) -> (r: Modified<Self>)
        ensures
            r.wrapped == self,
            r.modifier == (ModifierNode::CornerRadius { radius }),
    {
        self.modifier(ModifierNode::CornerRadius { radius })
    }

    fn z_index(self, z_index: Scalar) -> (r: Modified<Self>)
        ensures
            r.wrapped == self,
            r.modifier == (ModifierNode::ZIndex { z_index }),
    {
        self.modifier(ModifierNode::ZIndex { z_index })
    }

    fn hidden(self, is_hidden: bool) -> (r: Modified<Self>)
        ensures
            r.wrapped == self,
            r.modifier == (ModifierNode::Hidden { is_hidden }),
    {
        self.modifier(ModifierNode::Hidden { is_hidden })
    }

    fn disabled(self, is_disabled: bool) -> (r: Modified<Self>)
        ensures
            r.wrapped == self,
            r.modifier == (ModifierNode::Disabled { is_disabled }),
    {
        self.modifier(ModifierNode::Disabled { is_disabled })
    }

    fn grayscale(self, intensity: Scalar) -> (r: Modified<Self>)
        ensures
            r.wrapped == self,
            r.modifier == (ModifierNode::Grayscale { intensity }),
    {
        self.modifier(ModifierNode::Grayscale { intensity })
    }

    fn brightness(self, amount: Scalar) -> (r: Modified<Self>)
        ensures
            r.wrapped == self,
            r.modifier == (ModifierNode::Brightness { amount }),
    {
        self.modifier(ModifierNode::Brightness { amount })
    }

    fn contrast(self, amount: Scalar) -> (r: Modified<Self>)
        ensures
            r.wrapped == self,
            r.modifier == (ModifierNode::Contrast { amount }),
    {
        self.modifier(ModifierNode::Contrast { amount })
    }

    fn saturation(self, amount: Scalar) -> (r: Modified<Self>)
        ensures
            r.wrapped == self,
            r.modifier == (ModifierNode::Saturation { amount }),
    {
        self.modifier(ModifierNode::Saturation { amount })
    }

    fn clipped(self) -> (r: Modified<Self>)
        ensures
            r.wrapped == self,
            r.modifier == (ModifierNode::Clipped {}),
    {
        self.modifier(ModifierNode::Clipped {})
    }
}

impl ViewExt for AnyView {}

impl ViewExt for Composite {}

impl ViewExt for Text {}

impl ViewExt for Toggle {}

impl ViewExt for Stack {}

impl ViewExt for ForEach {}

impl ViewExt for ScrollView<AnyView> {}

impl ViewExt for Modified<AnyView> {}

impl ViewExt for Overlay<AnyView, AnyView> {}

} // verus!
