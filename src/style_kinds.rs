//! The closed sets of values that a style field can take.
use vstd::prelude::*;
use crate::units::Hsla;

verus! {

#[verifier::external_type_specification]
pub struct ExOverflow(taffy::style::Overflow);

/// How a box is placed relative to the normal flow.
#[derive(Clone, Copy, Debug, PartialEq, Eq, Structural)]
pub enum Position {
    Static,
    Relative,
    Absolute,
}

/// How a box lays out its children.
#[derive(Clone, Copy, Debug, PartialEq, Eq, Structural)]
pub enum Display {
    Block,
    Flex,
    /// No box at all: the element takes no space.
    Absent,
}

/// Whether a box is painted. A hidden box still takes its space.
#[derive(Clone, Copy, Debug, PartialEq, Eq, Structural)]
pub enum Visibility {
    Visible,
    Hidden,
}

/// The pointer shape shown over a box.
#[derive(Clone, Copy, Debug, PartialEq, Eq, Structural)]
pub enum CursorStyle {
    Arrow,
    IBeam,
    Crosshair,
    ClosedHand,
    OpenHand,
    PointingHand,
    ResizeLeft,
    ResizeRight,
    ResizeLeftRight,
    ResizeUp,
    ResizeDown,
    ResizeUpDown,
    DisappearingItem,
    IBeamCursorForVerticalLayout,
    OperationNotAllowed,
    DragLink,
    DragCopy,
    ContextualMenu,
}

/// The main axis of a flex container.
#[derive(Clone, Copy, Debug, PartialEq, Eq, Structural)]
pub enum FlexDirection {
    Row,
    Column,
    RowReverse,
    ColumnReverse,
}

/// How flex items sit on the cross axis.
#[derive(Clone, Copy, Debug, PartialEq, Eq, Structural)]
pub enum AlignItems {
    Start,
    End,
    FlexStart,
    FlexEnd,
    Center,
    Baseline,
    Stretch,
}

/// How flex items share the main axis.
#[derive(Clone, Copy, Debug, PartialEq, Eq, Structural)]
pub enum JustifyContent {
    Start,
    End,
    FlexStart,
    FlexEnd,
    Center,
    Stretch,
    SpaceBetween,
    SpaceEvenly,
    SpaceAround,
}

/// Whether text wraps at white space.
#[derive(Clone, Copy, Debug, PartialEq, Eq, Structural)]
pub enum WhiteSpace {
    Normal,
    Nowrap,
}

/// What a box's background is painted with.
#[derive(Clone, Copy, Debug, PartialEq, Eq, Structural)]
pub enum Fill {
    Color(Hsla),
}

impl Fill {
    /// A fill of one colour.
    pub fn color(c: Hsla) -> (r: Fill)
        ensures
            r == Fill::Color(c),
    {
        Fill::Color(c)
    }
}

/// A line drawn under text.
#[derive(Clone, Copy, Debug, PartialEq, Eq, Structural)]
pub struct UnderlineStyle {
    /// The line's colour; `None` draws it in the text's colour.
    pub color: Option<Hsla>,
    /// A wavy line rather than a straight one.
    pub wavy: bool,
    pub thickness: crate::units::Pixels,
}

impl UnderlineStyle {
    /// The underline that is made when one of its parts is first set: no
    /// colour of its own, straight, of zero thickness.
    pub open spec fn initial() -> UnderlineStyle {
        UnderlineStyle { color: None, wavy: false, thickness: crate::units::Pixels(0) }
    }

    /// See [`UnderlineStyle::initial`].
    pub fn new() -> (r: UnderlineStyle)
        ensures
            r == UnderlineStyle::initial(),
    {
        UnderlineStyle { color: None, wavy: false, thickness: crate::units::Pixels(0) }
    }
}

/// What one style layer says of the text decoration: that there is none, or
/// which underline is drawn.
#[derive(Clone, Copy, Debug, PartialEq, Eq, Structural)]
pub enum Decoration {
    Cleared,
    Underline(UnderlineStyle),
}

} // verus!
