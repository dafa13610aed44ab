//! Partial style records: every field is either set at this layer or left
//! to the layers below.
use vstd::prelude::*;
use taffy::style::Overflow;
use crate::units::{AbsoluteLength, DefiniteLength, Hsla, Length, Pixels};
use crate::shadow::{BoxShadow, ShadowList};
use crate::style_kinds::{
    AlignItems, CursorStyle, Decoration, Display, Fill, FlexDirection, JustifyContent, Position,
    UnderlineStyle, Visibility, WhiteSpace,
};

verus! {

/// The text part of a style layer.
#[derive(Debug, PartialEq)]
pub struct TextStyleRefinement {
    pub color: Option<Hsla>,
    pub background_color: Option<Hsla>,
    pub font_family: Option<String>,
    pub font_size: Option<AbsoluteLength>,
    pub line_height: Option<DefiniteLength>,
    pub white_space: Option<WhiteSpace>,
    pub underline: Option<Decoration>,
}

/// One style layer.
#[derive(Debug, PartialEq)]
pub struct StyleRefinement {
    pub z_index: Option<u32>,
    pub width: Option<Length>,
    pub height: Option<Length>,
    pub position: Option<Position>,
    pub display: Option<Display>,
    pub visibility: Option<Visibility>,
    pub overflow_x: Option<Overflow>,
    pub overflow_y: Option<Overflow>,
    pub mouse_cursor: Option<CursorStyle>,
    pub flex_direction: Option<FlexDirection>,
    /// In thousandths.
    pub flex_grow: Option<i32>,
    /// In thousandths.
    pub flex_shrink: Option<i32>,
    pub flex_basis: Option<Length>,
    pub align_items: Option<AlignItems>,
    pub justify_content: Option<JustifyContent>,
    pub background: Option<Fill>,
    pub border_color: Option<Hsla>,
    pub box_shadow: Option<ShadowList>,
    pub text: TextStyleRefinement,
}

/// One change to one field of a style layer; the underline's three parts are
/// changed one at a time.
pub enum StyleEdit {
    ZIndex(u32),
    Width(Length),
    Height(Length),
    Position(Position),
    Display(Display),
    Visibility(Visibility),
    OverflowX(Overflow),
    OverflowY(Overflow),
    Cursor(CursorStyle),
    FlexDirection(FlexDirection),
    FlexGrow(i32),
    FlexShrink(i32),
    FlexBasis(Length),
    AlignItems(AlignItems),
    JustifyContent(JustifyContent),
    Background(Fill),
    BorderColor(Hsla),
    BoxShadow(ShadowList),
    TextColor(Hsla),
    TextBackground(Hsla),
    FontFamily(String),
    FontSize(AbsoluteLength),
    LineHeight(DefiniteLength),
    WhiteSpace(WhiteSpace),
    UnderlineColor(Hsla),
    UnderlineWavy(bool),
    UnderlineThickness(Pixels),
    /// Removes the decoration, overriding any from lower layers.
    NoDecoration,
}

/// The fields of a style layer. The underline is one field: it is replaced
/// as a whole between layers.
#[derive(Clone, Copy, Debug, PartialEq, Eq, Structural)]
pub enum StyleField {
    ZIndex,
    Width,
    Height,
    Position,
    Display,
    Visibility,
    OverflowX,
    OverflowY,
    Cursor,
    FlexDirection,
    FlexGrow,
    FlexShrink,
    FlexBasis,
    AlignItems,
    JustifyContent,
    Background,
    BorderColor,
    BoxShadow,
    TextColor,
    TextBackground,
    FontFamily,
    FontSize,
    LineHeight,
    WhiteSpace,
    Underline,
}

/// The field that an edit changes.
pub open spec fn edit_field(e: StyleEdit) -> StyleField {
    match e {
        StyleEdit::ZIndex(_) => StyleField::ZIndex,
        StyleEdit::Width(_) => StyleField::Width,
        StyleEdit::Height(_) => StyleField::Height,
        StyleEdit::Position(_) => StyleField::Position,
        StyleEdit::Display(_) => StyleField::Display,
        StyleEdit::Visibility(_) => StyleField::Visibility,
        StyleEdit::OverflowX(_) => StyleField::OverflowX,
        StyleEdit::OverflowY(_) => StyleField::OverflowY,
        StyleEdit::Cursor(_) => StyleField::Cursor,
        StyleEdit::FlexDirection(_) => StyleField::FlexDirection,
        StyleEdit::FlexGrow(_) => StyleField::FlexGrow,
        StyleEdit::FlexShrink(_) => StyleField::FlexShrink,
        StyleEdit::FlexBasis(_) => StyleField::FlexBasis,
        StyleEdit::AlignItems(_) => StyleField::AlignItems,
        StyleEdit::JustifyContent(_) => StyleField::JustifyContent,
        StyleEdit::Background(_) => StyleField::Background,
        StyleEdit::BorderColor(_) => StyleField::BorderColor,
        StyleEdit::BoxShadow(_) => StyleField::BoxShadow,
        StyleEdit::TextColor(_) => StyleField::TextColor,
        StyleEdit::TextBackground(_) => StyleField::TextBackground,
        StyleEdit::FontFamily(_) => StyleField::FontFamily,
        StyleEdit::FontSize(_) => StyleField::FontSize,
        StyleEdit::LineHeight(_) => StyleField::LineHeight,
        StyleEdit::WhiteSpace(_) => StyleField::WhiteSpace,
        _ => StyleField::Underline,
    }
}

/// Which part of the underline an edit of it changes: its colour (0), its
/// wave (1), its thickness (2), or the whole of it (3).
pub open spec fn underline_part(e: StyleEdit) -> nat {
    match e {
        StyleEdit::UnderlineColor(_) => 0,
        StyleEdit::UnderlineWavy(_) => 1,
        StyleEdit::UnderlineThickness(_) => 2,
        _ => 3,
    }
}

/// Two edits made by the same setter, with arguments that may differ.
pub open spec fn same_setter(e1: StyleEdit, e2: StyleEdit) -> bool {
    &&& edit_field(e1) == edit_field(e2)
    &&& (edit_field(e1) == StyleField::Underline ==> underline_part(e1) == underline_part(e2))
}

/// Two edits that change nothing in common: different fields, or different
/// parts of the underline (removing the decoration touches all of them).
pub open spec fn disjoint_edits(e1: StyleEdit, e2: StyleEdit) -> bool {
    ||| edit_field(e1) != edit_field(e2)
    ||| {
        &&& underline_part(e1) != underline_part(e2)
        &&& underline_part(e1) != 3
        &&& underline_part(e2) != 3
    }
}

impl TextStyleRefinement {
    /// A text layer that sets nothing.
    pub open spec fn unset() -> TextStyleRefinement {
        TextStyleRefinement {
            color: None,
            background_color: None,
            font_family: None,
            font_size: None,
            line_height: None,
            white_space: None,
            underline: None,
        }
    }

    /// See [`TextStyleRefinement::unset`].
    pub fn new() -> (r: TextStyleRefinement)
        ensures
            r == TextStyleRefinement::unset(),
    {
        TextStyleRefinement {
            color: None,
            background_color: None,
            font_family: None,
            font_size: None,
            line_height: None,
            white_space: None,
            underline: None,
        }
    }

    /// The underline that an edit of one of its parts starts from: the one
    /// this layer draws, or a new one if it draws none.
    pub open spec fn underline_base(self) -> UnderlineStyle {
        match self.underline {
            Some(Decoration::Underline(u)) => u,
            _ => UnderlineStyle::initial(),
        }
    }

    /// See [`TextStyleRefinement::underline_base`].
    pub fn current_underline(&self) -> (r: UnderlineStyle)
        ensures
            r == self.underline_base(),
    {
        match self.underline {
            Some(Decoration::Underline(u)) => u,
            _ => UnderlineStyle::new(),
        }
    }
}

impl StyleRefinement {
    /// A layer that sets nothing.
    pub open spec fn unset() -> StyleRefinement {
        StyleRefinement {
            z_index: None,
            width: None,
            height: None,
            position: None,
            display: None,
            visibility: None,
            overflow_x: None,
            overflow_y: None,
            mouse_cursor: None,
            flex_direction: None,
            flex_grow: None,
            flex_shrink: None,
            flex_basis: None,
            align_items: None,
            justify_content: None,
            background: None,
            border_color: None,
            box_shadow: None,
            text: TextStyleRefinement::unset(),
        }
    }

    /// See [`StyleRefinement::unset`].
    pub fn new() -> (r: StyleRefinement)
        ensures
            r == StyleRefinement::unset(),
    {
        StyleRefinement {
            z_index: None,
            width: None,
            height: None,
            position: None,
            display: None,
            visibility: None,
            overflow_x: None,
            overflow_y: None,
            mouse_cursor: None,
            flex_direction: None,
            flex_grow: None,
            flex_shrink: None,
            flex_basis: None,
            align_items: None,
            justify_content: None,
            background: None,
            border_color: None,
            box_shadow: None,
            text: TextStyleRefinement::new(),
        }
    }

    /// This layer with its text part replaced by `t`.
    pub open spec fn with_text(self, t: TextStyleRefinement) -> StyleRefinement {
        StyleRefinement { text: t, ..self }
    }

    /// This layer with the underline `u` drawn.
    pub open spec fn with_underline(self, u: UnderlineStyle) -> StyleRefinement {
        self.with_text(
            TextStyleRefinement { underline: Some(Decoration::Underline(u)), ..self.text },
        )
    }

    /// This layer after the edit `e`: the edited field is set to the edit's
    /// value and every other field is kept. An edit of one part of the
    /// underline starts from [`TextStyleRefinement::underline_base`].
    pub open spec fn edited(self, e: StyleEdit) -> StyleRefinement {
        let t = self.text;
        let u = t.underline_base();
        match e {
            StyleEdit::ZIndex(v) => StyleRefinement { z_index: Some(v), ..self },
            StyleEdit::Width(v) => StyleRefinement { width: Some(v), ..self },
            StyleEdit::Height(v) => StyleRefinement { height: Some(v), ..self },
            StyleEdit::Position(v) => StyleRefinement { position: Some(v), ..self },
            StyleEdit::Display(v) => StyleRefinement { display: Some(v), ..self },
            StyleEdit::Visibility(v) => StyleRefinement { visibility: Some(v), ..self },
            StyleEdit::OverflowX(v) => StyleRefinement { overflow_x: Some(v), ..self },
            StyleEdit::OverflowY(v) => StyleRefinement { overflow_y: Some(v), ..self },
            StyleEdit::Cursor(v) => StyleRefinement { mouse_cursor: Some(v), ..self },
            StyleEdit::FlexDirection(v) => StyleRefinement { flex_direction: Some(v), ..self },
            StyleEdit::FlexGrow(v) => StyleRefinement { flex_grow: Some(v), ..self },
            StyleEdit::FlexShrink(v) => StyleRefinement { flex_shrink: Some(v), ..self },
            StyleEdit::FlexBasis(v) => StyleRefinement { flex_basis: Some(v), ..self },
            StyleEdit::AlignItems(v) => StyleRefinement { align_items: Some(v), ..self },
            StyleEdit::JustifyContent(v) => StyleRefinement { justify_content: Some(v), ..self },
            StyleEdit::Background(v) => StyleRefinement { background: Some(v), ..self },
            StyleEdit::BorderColor(v) => StyleRefinement { border_color: Some(v), ..self },
            StyleEdit::BoxShadow(v) => StyleRefinement { box_shadow: Some(v), ..self },
            StyleEdit::TextColor(v) => self.with_text(TextStyleRefinement { color: Some(v), ..t }),
            StyleEdit::TextBackground(v) => self.with_text(
                TextStyleRefinement { background_color: Some(v), ..t },
            ),
            StyleEdit::FontFamily(v) => self.with_text(
                TextStyleRefinement { font_family: Some(v), ..t },
            ),
            StyleEdit::FontSize(v) => self.with_text(
                TextStyleRefinement { font_size: Some(v), ..t },
            ),
            StyleEdit::LineHeight(v) => self.with_text(
                TextStyleRefinement { line_height: Some(v), ..t },
            ),
            StyleEdit::WhiteSpace(v) => self.with_text(
                TextStyleRefinement { white_space: Some(v), ..t },
            ),
            StyleEdit::UnderlineColor(v) => self.with_underline(
                UnderlineStyle { color: Some(v), ..u },
            ),
            StyleEdit::UnderlineWavy(v) => self.with_underline(UnderlineStyle { wavy: v, ..u }),
            StyleEdit::UnderlineThickness(v) => self.with_underline(
                UnderlineStyle { thickness: v, ..u },
            ),
            StyleEdit::NoDecoration => self.with_text(
                TextStyleRefinement { underline: Some(Decoration::Cleared), ..t },
            ),
        }
    }

    /// Makes the edit `e` in place.
    pub fn apply(&mut self, e: StyleEdit)
        ensures
            *final(self) == old(self).edited(e),
    {
        match e {
            StyleEdit::ZIndex(v) => self.z_index = Some(v),
            StyleEdit::Width(v) => self.width = Some(v),
            StyleEdit::Height(v) => self.height = Some(v),
            StyleEdit::Position(v) => self.position = Some(v),
            StyleEdit::Display(v) => self.display = Some(v),
            StyleEdit::Visibility(v) => self.visibility = Some(v),
            StyleEdit::OverflowX(v) => self.overflow_x = Some(v),
            StyleEdit::OverflowY(v) => self.overflow_y = Some(v),
            StyleEdit::Cursor(v) => self.mouse_cursor = Some(v),
            StyleEdit::FlexDirection(v) => self.flex_direction = Some(v),
            StyleEdit::FlexGrow(v) => self.flex_grow = Some(v),
            StyleEdit::FlexShrink(v) => self.flex_shrink = Some(v),
            StyleEdit::FlexBasis(v) => self.flex_basis = Some(v),
            StyleEdit::AlignItems(v) => self.align_items = Some(v),
            StyleEdit::JustifyContent(v) => self.justify_content = Some(v),
            StyleEdit::Background(v) => self.background = Some(v),
            StyleEdit::BorderColor(v) => self.border_color = Some(v),
            StyleEdit::BoxShadow(v) => self.box_shadow = Some(v),
            StyleEdit::TextColor(v) => self.text.color = Some(v),
            StyleEdit::TextBackground(v) => self.text.background_color = Some(v),
            StyleEdit::FontFamily(v) => self.text.font_family = Some(v),
            StyleEdit::FontSize(v) => self.text.font_size = Some(v),
            StyleEdit::LineHeight(v) => self.text.line_height = Some(v),
            StyleEdit::WhiteSpace(v) => self.text.white_space = Some(v),
            StyleEdit::UnderlineColor(v) => {
                let mut u = self.text.current_underline();
                u.color = Some(v);
                self.text.underline = Some(Decoration::Underline(u));
            },
            StyleEdit::UnderlineWavy(v) => {
                let mut u = self.text.current_underline();
                u.wavy = v;
                self.text.underline = Some(Decoration::Underline(u));
            },
            StyleEdit::UnderlineThickness(v) => {
                let mut u = self.text.current_underline();
                u.thickness = v;
                self.text.underline = Some(Decoration::Underline(u));
            },
            StyleEdit::NoDecoration => self.text.underline = Some(Decoration::Cleared),
        }
    }
}

/// Setting a field twice with the same setter leaves the record as setting it
/// once with the second value would: the last write wins.
pub proof fn last_write_wins(s: StyleRefinement, e1: StyleEdit, e2: StyleEdit)
    requires
        same_setter(e1, e2),
    ensures
        s.edited(e1).edited(e2) == s.edited(e2),
{
}

/// Edits of different fields can be made in either order with the same
/// result.
pub proof fn disjoint_edits_commute(s: StyleRefinement, e1: StyleEdit, e2: StyleEdit)
    requires
        disjoint_edits(e1, e2),
    ensures
        s.edited(e1).edited(e2) == s.edited(e2).edited(e1),
{
}

/// Setting one part of the underline on a layer that has none makes a whole
/// underline: the other parts take their initial values (no colour of its
/// own, straight, zero thickness).
pub proof fn underline_made_on_first_touch(s: StyleRefinement, e: StyleEdit)
    requires
        s.text.underline is None,
        underline_part(e) < 3,
    ensures
        s.edited(e).text.underline == Some(
            Decoration::Underline(
                match e {
                    StyleEdit::UnderlineColor(c) => UnderlineStyle {
                        color: Some(c),
                        ..UnderlineStyle::initial()
                    },
                    StyleEdit::UnderlineWavy(w) => UnderlineStyle {
                        wavy: w,
                        ..UnderlineStyle::initial()
                    },
                    StyleEdit::UnderlineThickness(t) => UnderlineStyle {
                        thickness: t,
                        ..UnderlineStyle::initial()
                    },
                    _ => UnderlineStyle::initial(),
                },
            ),
        ),
{
}

impl StyleRefinement {
    /// This layer is `before` with its shadows set to a list holding `items`,
    /// and nothing else changed.
    pub open spec fn shadows_set_from(self, before: StyleRefinement, items: Seq<BoxShadow>) -> bool {
        &&& self.box_shadow is Some
        &&& self.box_shadow.unwrap()@ == items
        &&& self == StyleRefinement { box_shadow: self.box_shadow, ..before }
    }
}

} // verus!
