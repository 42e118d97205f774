use vstd::prelude::*;

verus! {

/// A real-valued styling parameter, held as the bit pattern of its IEEE 754
/// double so that it travels through the library unchanged.
#[derive(Clone, Copy, Debug, PartialEq, Eq, Hash, Structural)]
pub struct Scalar {
    pub bits: u64,
}

/// A two-dimensional vector of styling parameters.
#[derive(Clone, Copy, Debug, PartialEq, Eq, Hash, Structural)]
pub struct Vec2 {
    pub x: Scalar,
    pub y: Scalar,
}

/// A rendered modifier: a decoration of an already rendered node.
#[derive(Clone, Debug, PartialEq)]
pub enum ModifierNode {
    Position { position: Vec2 },
    Offset { delta: Vec2 },
    Opacity { opacity: Scalar },
    Help { text: String },
    NavigationTitle { title: String },
    NavigationSubtitle { subtitle: String },
    Blur { radius: Scalar },
    CornerRadius { radius: Scalar },
    ZIndex { z_index: Scalar },
    Hidden { is_hidden: bool },
    Disabled { is_disabled: bool },
    Grayscale { intensity: Scalar },
    Brightness { amount: Scalar },
    Contrast { amount: Scalar },
    Saturation { amount: Scalar },
    Clipped {},
}

impl ModifierNode {
    /// An equal copy of this modifier.
    pub fn duplicate(&self) -> (r: ModifierNode)
        ensures
            r == *self,
    {
        match self {
            ModifierNode::Position { position } => ModifierNode::Position { position: *position },
            ModifierNode::Offset { delta } => ModifierNode::Offset { delta: *delta },
            ModifierNode::Opacity { opacity } => ModifierNode::Opacity { opacity: *opacity },
            ModifierNode::Help { text } => ModifierNode::Help { text: text.clone() },
            ModifierNode::NavigationTitle { title } => ModifierNode::NavigationTitle {
                title: title.clone(),
            },
            ModifierNode::NavigationSubtitle { subtitle } => ModifierNode::NavigationSubtitle {
                subtitle: subtitle.clone(),
            },
            ModifierNode::Blur { radius } => ModifierNode::Blur { radius: *radius },
            ModifierNode::CornerRadius { radius } => ModifierNode::CornerRadius { radius: *radius },
            ModifierNode::ZIndex { z_index } => ModifierNode::ZIndex { z_index: *z_index },
            ModifierNode::Hidden { is_hidden } => ModifierNode::Hidden { is_hidden: *is_hidden },
            ModifierNode::Disabled { is_disabled } => ModifierNode::Disabled {
                is_disabled: *is_disabled,
            },
            ModifierNode::Grayscale { intensity } => ModifierNode::Grayscale {
                intensity: *intensity,
            },
            ModifierNode::Brightness { amount } => ModifierNode::Brightness { amount: *amount },
            ModifierNode::Contrast { amount } => ModifierNode::Contrast { amount: *amount },
            ModifierNode::Saturation { amount } => ModifierNode::Saturation { amount: *amount },
            ModifierNode::Clipped {} => ModifierNode::Clipped {},
        }
    }
}

} // verus!
