//! The chained builder through which callers fill in a style layer.
use vstd::prelude::*;
use taffy::style::Overflow;
use crate::units::{
    px, relative, rems, AbsoluteLength, DefiniteLength, Hsla, Length, Pixels, Rems,
};
use crate::shadow::{
    extra_large_shadows, huge_shadows, large_shadows, medium_shadows, small_shadows, ShadowList,
};
use crate::style_kinds::{
    AlignItems, CursorStyle, Display, Fill, FlexDirection, JustifyContent, Position, Visibility,
    WhiteSpace,
};
use crate::refinement::{StyleEdit, StyleRefinement, TextStyleRefinement};

verus! {

/// Something that carries a style layer. Each method changes the named
/// field or fields of the layer and hands the carrier back, so that calls
/// chain; a later call to the same field wins.
pub trait Styled: Sized {
    /// The style layer carried.
    spec fn style_of(&self) -> StyleRefinement;

    /// The style layer carried, to change in place.
    fn style(&mut self) -> (r: &mut StyleRefinement)
        ensures
            *r == old(self).style_of(),
            final(self).style_of() == *final(r),
    ;

    /// The text part of the style layer carried, to change in place.
    fn text_style(&mut self) -> (r: &mut TextStyleRefinement)
        ensures
            *r == old(self).style_of().text,
            final(self).style_of() == old(self).style_of().with_text(*final(r)),
    {
        let s = self.style();
        &mut s.text
    }

    /// Sets the stacking order.
    fn z_index(self, z_index: u32) -> (r: Self)
        ensures
            r.style_of() == self.style_of().edited(StyleEdit::ZIndex(z_index)),
    {
        let mut this = self;
        this.style().apply(StyleEdit::ZIndex(z_index));
        this
    }

    /// Sets the width and height to the whole of the enclosing box.
    fn full(self) -> (r: Self)
        ensures
            r.style_of() == self.style_of()
                .edited(StyleEdit::Width(Length::Definite(DefiniteLength::Fraction(1000))))
                .edited(StyleEdit::Height(Length::Definite(DefiniteLength::Fraction(1000)))),
    {
        let mut this = self;
        this.style().apply(StyleEdit::Width(relative(1000).length()));
        this.style().apply(StyleEdit::Height(relative(1000).length()));
        this
    }

    /// Positions the element `relative`.
    fn relative(self) -> (r: Self)
        ensures
            r.style_of() == self.style_of().edited(StyleEdit::Position(Position::Relative)),
    {
        let mut this = self;
        this.style().apply(StyleEdit::Position(Position::Relative));
        this
    }

    /// Positions the element `absolute`.
    fn absolute(self) -> (r: Self)
        ensures
            r.style_of() == self.style_of().edited(StyleEdit::Position(Position::Absolute)),
    {
        let mut this = self;
        this.style().apply(StyleEdit::Position(Position::Absolute));
        this
    }

    /// Lays the element out as a `block` box.
    fn block(self) -> (r: Self)
        ensures
            r.style_of() == self.style_of().edited(StyleEdit::Display(Display::Block)),
    {
        let mut this = self;
        this.style().apply(StyleEdit::Display(Display::Block));
        this
    }

    /// Lays the element out as a `flex` box.
    fn flex(self) -> (r: Self)
        ensures
            r.style_of() == self.style_of().edited(StyleEdit::Display(Display::Flex)),
    {
        let mut this = self;
        this.style().apply(StyleEdit::Display(Display::Flex));
        this
    }

    /// Makes the element visible.
    fn visible(self) -> (r: Self)
        ensures
            r.style_of() == self.style_of().edited(StyleEdit::Visibility(Visibility::Visible)),
    {
        let mut this = self;
        this.style().apply(StyleEdit::Visibility(Visibility::Visible));
        this
    }

    /// Hides the element; it still takes its space.
    fn invisible(self) -> (r: Self)
        ensures
            r.style_of() == self.style_of().edited(StyleEdit::Visibility(Visibility::Hidden)),
    {
        let mut this = self;
        this.style().apply(StyleEdit::Visibility(Visibility::Hidden));
        this
    }

    /// Clips what overflows the element on both axes.
    fn overflow_hidden(self) -> (r: Self)
        ensures
            r.style_of() == self.style_of()
                .edited(StyleEdit::OverflowX(Overflow::Hidden))
                .edited(StyleEdit::OverflowY(Overflow::Hidden)),
    {
        let mut this = self;
        this.style().apply(StyleEdit::OverflowX(Overflow::Hidden));
        this.style().apply(StyleEdit::OverflowY(Overflow::Hidden));
        this
    }

    /// Clips what overflows the element horizontally.
    fn overflow_hidden_x(self) -> (r: Self)
        ensures
            r.style_of() == self.style_of().edited(StyleEdit::OverflowX(Overflow::Hidden)),
    {
        let mut this = self;
        this.style().apply(StyleEdit::OverflowX(Overflow::Hidden));
        this
    }

    /// Clips what overflows the element vertically.
    fn overflow_hidden_y(self) -> (r: Self)
        ensures
            r.style_of() == self.style_of().edited(StyleEdit::OverflowY(Overflow::Hidden)),
    {
        let mut this = self;
        this.style().apply(StyleEdit::OverflowY(Overflow::Hidden));
        this
    }

    /// Sets the pointer shape shown over the element.
    fn cursor(self, cursor: CursorStyle) -> (r: Self)
        ensures
            r.style_of() == self.style_of().edited(StyleEdit::Cursor(cursor)),
    {
        let mut this = self;
        this.style().apply(StyleEdit::Cursor(cursor));
        this
    }

    /// Shows the `default` pointer over the element.
    fn cursor_default(self) -> (r: Self)
        ensures
            r.style_of() == self.style_of().edited(StyleEdit::Cursor(CursorStyle::Arrow)),
    {
        let mut this = self;
        this.style().apply(StyleEdit::Cursor(CursorStyle::Arrow));
        this
    }

    /// Shows the `pointer` pointer over the element.
    fn cursor_pointer(self) -> (r: Self)
        ensures
            r.style_of() == self.style_of().edited(StyleEdit::Cursor(CursorStyle::PointingHand)),
    {
        let mut this = self;
        this.style().apply(StyleEdit::Cursor(CursorStyle::PointingHand));
        this
    }

    /// Shows the `text` pointer over the element.
    fn cursor_text(self) -> (r: Self)
        ensures
            r.style_of() == self.style_of().edited(StyleEdit::Cursor(CursorStyle::IBeam)),
    {
        let mut this = self;
        this.style().apply(StyleEdit::Cursor(CursorStyle::IBeam));
        this
    }

    /// Shows the `move` pointer over the element.
    fn cursor_move(self) -> (r: Self)
        ensures
            r.style_of() == self.style_of().edited(StyleEdit::Cursor(CursorStyle::ClosedHand)),
    {
        let mut this = self;
        this.style().apply(StyleEdit::Cursor(CursorStyle::ClosedHand));
        this
    }

    /// Shows the `not-allowed` pointer over the element.
    fn cursor_not_allowed(self) -> (r: Self)
        ensures
            r.style_of() == self.style_of()
                .edited(StyleEdit::Cursor(CursorStyle::OperationNotAllowed)),
    {
        let mut this = self;
        this.style().apply(StyleEdit::Cursor(CursorStyle::OperationNotAllowed));
        this
    }

    /// Shows the `context-menu` pointer over the element.
    fn cursor_context_menu(self) -> (r: Self)
        ensures
            r.style_of() == self.style_of().edited(StyleEdit::Cursor(CursorStyle::ContextualMenu)),
    {
        let mut this = self;
        this.style().apply(StyleEdit::Cursor(CursorStyle::ContextualMenu));
        this
    }

    /// Shows the `crosshair` pointer over the element.
    fn cursor_crosshair(self) -> (r: Self)
        ensures
            r.style_of() == self.style_of().edited(StyleEdit::Cursor(CursorStyle::Crosshair)),
    {
        let mut this = self;
        this.style().apply(StyleEdit::Cursor(CursorStyle::Crosshair));
        this
    }

    /// Shows the `vertical-text` pointer over the element.
    fn cursor_vertical_text(self) -> (r: Self)
        ensures
            r.style_of() == self.style_of()
                .edited(StyleEdit::Cursor(CursorStyle::IBeamCursorForVerticalLayout)),
    {
        let mut this = self;
        this.style().apply(StyleEdit::Cursor(CursorStyle::IBeamCursorForVerticalLayout));
        this
    }

    /// Shows the `alias` pointer over the element.
    fn cursor_alias(self) -> (r: Self)
        ensures
            r.style_of() == self.style_of().edited(StyleEdit::Cursor(CursorStyle::DragLink)),
    {
        let mut this = self;
        this.style().apply(StyleEdit::Cursor(CursorStyle::DragLink));
        this
    }

    /// Shows the `copy` pointer over the element.
    fn cursor_copy(self) -> (r: Self)
        ensures
            r.style_of() == self.style_of().edited(StyleEdit::Cursor(CursorStyle::DragCopy)),
    {
        let mut this = self;
        this.style().apply(StyleEdit::Cursor(CursorStyle::DragCopy));
        this
    }

    /// Shows the `no-drop` pointer over the element.
    fn cursor_no_drop(self) -> (r: Self)
        ensures
            r.style_of() == self.style_of()
                .edited(StyleEdit::Cursor(CursorStyle::OperationNotAllowed)),
    {
        let mut this = self;
        this.style().apply(StyleEdit::Cursor(CursorStyle::OperationNotAllowed));
        this
    }

    /// Shows the `grab` pointer over the element.
    fn cursor_grab(self) -> (r: Self)
        ensures
            r.style_of() == self.style_of().edited(StyleEdit::Cursor(CursorStyle::OpenHand)),
    {
        let mut this = self;
        this.style().apply(StyleEdit::Cursor(CursorStyle::OpenHand));
        this
    }

    /// Shows the `grabbing` pointer over the element.
    fn cursor_grabbing(self) -> (r: Self)
        ensures
            r.style_of() == self.style_of().edited(StyleEdit::Cursor(CursorStyle::ClosedHand)),
    {
        let mut this = self;
        this.style().apply(StyleEdit::Cursor(CursorStyle::ClosedHand));
        this
    }

    /// Shows the `col-resize` pointer over the element.
    fn cursor_col_resize(self) -> (r: Self)
        ensures
            r.style_of() == self.style_of().edited(StyleEdit::Cursor(CursorStyle::ResizeLeftRight)),
    {
        let mut this = self;
        this.style().apply(StyleEdit::Cursor(CursorStyle::ResizeLeftRight));
        this
    }

    /// Shows the `row-resize` pointer over the element.
    fn cursor_row_resize(self) -> (r: Self)
        ensures
            r.style_of() == self.style_of().edited(StyleEdit::Cursor(CursorStyle::ResizeUpDown)),
    {
        let mut this = self;
        this.style().apply(StyleEdit::Cursor(CursorStyle::ResizeUpDown));
        this
    }

    /// Shows the `n-resize` pointer over the element.
    fn cursor_n_resize(self) -> (r: Self)
        ensures
            r.style_of() == self.style_of().edited(StyleEdit::Cursor(CursorStyle::ResizeUp)),
    {
        let mut this = self;
        this.style().apply(StyleEdit::Cursor(CursorStyle::ResizeUp));
        this
    }

    /// Shows the `e-resize` pointer over the element.
    fn cursor_e_resize(self) -> (r: Self)
        ensures
            r.style_of() == self.style_of().edited(StyleEdit::Cursor(CursorStyle::ResizeRight)),
    {
        let mut this = self;
        this.style().apply(StyleEdit::Cursor(CursorStyle::ResizeRight));
        this
    }

    /// Shows the `s-resize` pointer over the element.
    fn cursor_s_resize(self) -> (r: Self)
        ensures
            r.style_of() == self.style_of().edited(StyleEdit::Cursor(CursorStyle::ResizeDown)),
    {
        let mut this = self;
        this.style().apply(StyleEdit::Cursor(CursorStyle::ResizeDown));
        this
    }

    /// Shows the `w-resize` pointer over the element.
    fn cursor_w_resize(self) -> (r: Self)
        ensures
            r.style_of() == self.style_of().edited(StyleEdit::Cursor(CursorStyle::ResizeLeft)),
    {
        let mut this = self;
        this.style().apply(StyleEdit::Cursor(CursorStyle::ResizeLeft));
        this
    }

    /// Lets text wrap at white space.
    fn whitespace_normal(self) -> (r: Self)
        ensures
            r.style_of() == self.style_of().edited(StyleEdit::WhiteSpace(WhiteSpace::Normal)),
    {
        let mut this = self;
        this.style().apply(StyleEdit::WhiteSpace(WhiteSpace::Normal));
        this
    }

    /// Keeps text on one line.
    fn whitespace_nowrap(self) -> (r: Self)
        ensures
            r.style_of() == self.style_of().edited(StyleEdit::WhiteSpace(WhiteSpace::Nowrap)),
    {
        let mut this = self;
        this.style().apply(StyleEdit::WhiteSpace(WhiteSpace::Nowrap));
        this
    }

    /// Lays flex items out in columns.
    fn flex_col(self) -> (r: Self)
        ensures
            r.style_of() == self.style_of().edited(StyleEdit::FlexDirection(FlexDirection::Column)),
    {
        let mut this = self;
        this.style().apply(StyleEdit::FlexDirection(FlexDirection::Column));
        this
    }

    /// Lays flex items out in columns, last first.
    fn flex_col_reverse(self) -> (r: Self)
        ensures
            r.style_of() == self.style_of()
                .edited(StyleEdit::FlexDirection(FlexDirection::ColumnReverse)),
    {
        let mut this = self;
        this.style().apply(StyleEdit::FlexDirection(FlexDirection::ColumnReverse));
        this
    }

    /// Lays flex items out in rows.
    fn flex_row(self) -> (r: Self)
        ensures
            r.style_of() == self.style_of().edited(StyleEdit::FlexDirection(FlexDirection::Row)),
    {
        let mut this = self;
        this.style().apply(StyleEdit::FlexDirection(FlexDirection::Row));
        this
    }

    /// Lays flex items out in rows, last first.
    fn flex_row_reverse(self) -> (r: Self)
        ensures
            r.style_of() == self.style_of()
                .edited(StyleEdit::FlexDirection(FlexDirection::RowReverse)),
    {
        let mut this = self;
        this.style().apply(StyleEdit::FlexDirection(FlexDirection::RowReverse));
        this
    }

    /// Lets the item grow and shrink as needed, ignoring its own size.
    fn flex_1(self) -> (r: Self)
        ensures
            r.style_of() == self.style_of()
                .edited(StyleEdit::FlexGrow(1000))
                .edited(StyleEdit::FlexShrink(1000))
                .edited(StyleEdit::FlexBasis(Length::Definite(DefiniteLength::Fraction(0)))),
    {
        let mut this = self;
        this.style().apply(StyleEdit::FlexGrow(1000));
        this.style().apply(StyleEdit::FlexShrink(1000));
        this.style().apply(StyleEdit::FlexBasis(relative(0).length()));
        this
    }

    /// Lets the item grow and shrink from its own size.
    fn flex_auto(self) -> (r: Self)
        ensures
            r.style_of() == self.style_of()
                .edited(StyleEdit::FlexGrow(1000))
                .edited(StyleEdit::FlexShrink(1000))
                .edited(StyleEdit::FlexBasis(Length::Auto)),
    {
        let mut this = self;
        this.style().apply(StyleEdit::FlexGrow(1000));
        this.style().apply(StyleEdit::FlexShrink(1000));
        this.style().apply(StyleEdit::FlexBasis(Length::Auto));
        this
    }

    /// Lets the item shrink but not grow, from its own size.
    fn flex_initial(self) -> (r: Self)
        ensures
            r.style_of() == self.style_of()
                .edited(StyleEdit::FlexGrow(0))
                .edited(StyleEdit::FlexShrink(1000))
                .edited(StyleEdit::FlexBasis(Length::Auto)),
    {
        let mut this = self;
        this.style().apply(StyleEdit::FlexGrow(0));
        this.style().apply(StyleEdit::FlexShrink(1000));
        this.style().apply(StyleEdit::FlexBasis(Length::Auto));
        this
    }

    /// Keeps the item from growing or shrinking.
    fn flex_none(self) -> (r: Self)
        ensures
            r.style_of() == self.style_of()
                .edited(StyleEdit::FlexGrow(0))
                .edited(StyleEdit::FlexShrink(0)),
    {
        let mut this = self;
        this.style().apply(StyleEdit::FlexGrow(0));
        this.style().apply(StyleEdit::FlexShrink(0));
        this
    }

    /// Lets the item grow into the space left.
    fn flex_grow(self) -> (r: Self)
        ensures
            r.style_of() == self.style_of().edited(StyleEdit::FlexGrow(1000)),
    {
        let mut this = self;
        this.style().apply(StyleEdit::FlexGrow(1000));
        this
    }

    /// Places flex items at the start of the cross axis.
    fn items_start(self) -> (r: Self)
        ensures
            r.style_of() == self.style_of().edited(StyleEdit::AlignItems(AlignItems::FlexStart)),
    {
        let mut this = self;
        this.style().apply(StyleEdit::AlignItems(AlignItems::FlexStart));
        this
    }

    /// Places flex items at the end of the cross axis.
    fn items_end(self) -> (r: Self)
        ensures
            r.style_of() == self.style_of().edited(StyleEdit::AlignItems(AlignItems::FlexEnd)),
    {
        let mut this = self;
        this.style().apply(StyleEdit::AlignItems(AlignItems::FlexEnd));
        this
    }

    /// Places flex items in the middle of the cross axis.
    fn items_center(self) -> (r: Self)
        ensures
            r.style_of() == self.style_of().edited(StyleEdit::AlignItems(AlignItems::Center)),
    {
        let mut this = self;
        this.style().apply(StyleEdit::AlignItems(AlignItems::Center));
        this
    }

    /// Places flex items on the main axis with equal space between them.
    fn justify_between(self) -> (r: Self)
        ensures
            r.style_of() == self.style_of()
                .edited(StyleEdit::JustifyContent(JustifyContent::SpaceBetween)),
    {
        let mut this = self;
        this.style().apply(StyleEdit::JustifyContent(JustifyContent::SpaceBetween));
        this
    }

    /// Places flex items on the main axis in the middle.
    fn justify_center(self) -> (r: Self)
        ensures
            r.style_of() == self.style_of()
                .edited(StyleEdit::JustifyContent(JustifyContent::Center)),
    {
        let mut this = self;
        this.style().apply(StyleEdit::JustifyContent(JustifyContent::Center));
        this
    }

    /// Places flex items on the main axis at the start.
    fn justify_start(self) -> (r: Self)
        ensures
            r.style_of() == self.style_of()
                .edited(StyleEdit::JustifyContent(JustifyContent::Start)),
    {
        let mut this = self;
        this.style().apply(StyleEdit::JustifyContent(JustifyContent::Start));
        this
    }

    /// Places flex items on the main axis at the end.
    fn justify_end(self) -> (r: Self)
        ensures
            r.style_of() == self.style_of().edited(StyleEdit::JustifyContent(JustifyContent::End)),
    {
        let mut this = self;
        this.style().apply(StyleEdit::JustifyContent(JustifyContent::End));
        this
    }

    /// Places flex items on the main axis with equal space around each.
    fn justify_around(self) -> (r: Self)
        ensures
            r.style_of() == self.style_of()
                .edited(StyleEdit::JustifyContent(JustifyContent::SpaceAround)),
    {
        let mut this = self;
        this.style().apply(StyleEdit::JustifyContent(JustifyContent::SpaceAround));
        this
    }

    /// Sets the background fill.
    fn bg(self, fill: Fill) -> (r: Self)
        ensures
            r.style_of() == self.style_of().edited(StyleEdit::Background(fill)),
    {
        let mut this = self;
        this.style().apply(StyleEdit::Background(fill));
        this
    }

    /// Sets the border colour.
    fn border_color(self, border_color: Hsla) -> (r: Self)
        ensures
            r.style_of() == self.style_of().edited(StyleEdit::BorderColor(border_color)),
    {
        let mut this = self;
        this.style().apply(StyleEdit::BorderColor(border_color));
        this
    }

    /// Replaces the box shadows with `shadows`.
    fn shadow(self, shadows: ShadowList) -> (r: Self)
        ensures
            r.style_of() == self.style_of().edited(StyleEdit::BoxShadow(shadows)),
    {
        let mut this = self;
        this.style().apply(StyleEdit::BoxShadow(shadows));
        this
    }

    /// Removes the box shadows, whatever lower layers say.
    fn shadow_none(self) -> (r: Self)
        ensures
            r.style_of().shadows_set_from(self.style_of(), Seq::empty()),
    {
        let mut this = self;
        this.style().apply(StyleEdit::BoxShadow(ShadowList::new()));
        this
    }

    /// Replaces the box shadows with the small preset.
    fn shadow_sm(self) -> (r: Self)
        ensures
            r.style_of().shadows_set_from(self.style_of(), small_shadows()),
    {
        let mut this = self;
        this.style().apply(StyleEdit::BoxShadow(ShadowList::small()));
        this
    }

    /// Replaces the box shadows with the medium preset.
    fn shadow_md(self) -> (r: Self)
        ensures
            r.style_of().shadows_set_from(self.style_of(), medium_shadows()),
    {
        let mut this = self;
        this.style().apply(StyleEdit::BoxShadow(ShadowList::medium()));
        this
    }

    /// Replaces the box shadows with the large preset.
    fn shadow_lg(self) -> (r: Self)
        ensures
            r.style_of().shadows_set_from(self.style_of(), large_shadows()),
    {
        let mut this = self;
        this.style().apply(StyleEdit::BoxShadow(ShadowList::large()));
        this
    }

    /// Replaces the box shadows with the extra-large preset.
    fn shadow_xl(self) -> (r: Self)
        ensures
            r.style_of().shadows_set_from(self.style_of(), extra_large_shadows()),
    {
        let mut this = self;
        this.style().apply(StyleEdit::BoxShadow(ShadowList::extra_large()));
        this
    }

    /// Replaces the box shadows with the doubly extra-large preset.
    fn shadow_2xl(self) -> (r: Self)
        ensures
            r.style_of().shadows_set_from(self.style_of(), huge_shadows()),
    {
        let mut this = self;
        this.style().apply(StyleEdit::BoxShadow(ShadowList::huge()));
        this
    }

    /// Sets the text colour.
    fn text_color(self, color: Hsla) -> (r: Self)
        ensures
            r.style_of() == self.style_of().edited(StyleEdit::TextColor(color)),
    {
        let mut this = self;
        this.style().apply(StyleEdit::TextColor(color));
        this
    }

    /// Sets the colour behind the text.
    fn text_bg(self, bg: Hsla) -> (r: Self)
        ensures
            r.style_of() == self.style_of().edited(StyleEdit::TextBackground(bg)),
    {
        let mut this = self;
        this.style().apply(StyleEdit::TextBackground(bg));
        this
    }

    /// Sets the font size.
    fn text_size(self, size: AbsoluteLength) -> (r: Self)
        ensures
            r.style_of() == self.style_of().edited(StyleEdit::FontSize(size)),
    {
        let mut this = self;
        this.style().apply(StyleEdit::FontSize(size));
        this
    }

    /// Sets the font size to 0.750 times the root font size.
    fn text_xs(self) -> (r: Self)
        ensures
            r.style_of() == self.style_of()
                .edited(StyleEdit::FontSize(AbsoluteLength::Rems(Rems(750)))),
    {
        let mut this = self;
        this.style().apply(StyleEdit::FontSize(rems(750).absolute()));
        this
    }

    /// Sets the font size to 0.875 times the root font size.
    fn text_sm(self) -> (r: Self)
        ensures
            r.style_of() == self.style_of()
                .edited(StyleEdit::FontSize(AbsoluteLength::Rems(Rems(875)))),
    {
        let mut this = self;
        this.style().apply(StyleEdit::FontSize(rems(875).absolute()));
        this
    }

    /// Sets the font size to 1.000 times the root font size.
    fn text_base(self) -> (r: Self)
        ensures
            r.style_of() == self.style_of()
                .edited(StyleEdit::FontSize(AbsoluteLength::Rems(Rems(1000)))),
    {
        let mut this = self;
        this.style().apply(StyleEdit::FontSize(rems(1000).absolute()));
        this
    }

    /// Sets the font size to 1.125 times the root font size.
    fn text_lg(self) -> (r: Self)
        ensures
            r.style_of() == self.style_of()
                .edited(StyleEdit::FontSize(AbsoluteLength::Rems(Rems(1125)))),
    {
        let mut this = self;
        this.style().apply(StyleEdit::FontSize(rems(1125).absolute()));
        this
    }

    /// Sets the font size to 1.250 times the root font size.
    fn text_xl(self) -> (r: Self)
        ensures
            r.style_of() == self.style_of()
                .edited(StyleEdit::FontSize(AbsoluteLength::Rems(Rems(1250)))),
    {
        let mut this = self;
        this.style().apply(StyleEdit::FontSize(rems(1250).absolute()));
        this
    }

    /// Sets the font size to 1.500 times the root font size.
    fn text_2xl(self) -> (r: Self)
        ensures
            r.style_of() == self.style_of()
                .edited(StyleEdit::FontSize(AbsoluteLength::Rems(Rems(1500)))),
    {
        let mut this = self;
        this.style().apply(StyleEdit::FontSize(rems(1500).absolute()));
        this
    }

    /// Sets the font size to 1.875 times the root font size.
    fn text_3xl(self) -> (r: Self)
        ensures
            r.style_of() == self.style_of()
                .edited(StyleEdit::FontSize(AbsoluteLength::Rems(Rems(1875)))),
    {
        let mut this = self;
        this.style().apply(StyleEdit::FontSize(rems(1875).absolute()));
        this
    }

    /// Draws no decoration, whatever lower layers say.
    fn text_decoration_none(self) -> (r: Self)
        ensures
            r.style_of() == self.style_of().edited(StyleEdit::NoDecoration),
    {
        let mut this = self;
        this.style().apply(StyleEdit::NoDecoration);
        this
    }

    /// Sets the underline's colour, making an underline if there is none.
    fn text_decoration_color(self, color: Hsla) -> (r: Self)
        ensures
            r.style_of() == self.style_of().edited(StyleEdit::UnderlineColor(color)),
    {
        let mut this = self;
        this.style().apply(StyleEdit::UnderlineColor(color));
        this
    }

    /// Makes the underline straight, making one if there is none.
    fn text_decoration_solid(self) -> (r: Self)
        ensures
            r.style_of() == self.style_of().edited(StyleEdit::UnderlineWavy(false)),
    {
        let mut this = self;
        this.style().apply(StyleEdit::UnderlineWavy(false));
        this
    }

    /// Makes the underline wavy, making one if there is none.
    fn text_decoration_wavy(self) -> (r: Self)
        ensures
            r.style_of() == self.style_of().edited(StyleEdit::UnderlineWavy(true)),
    {
        let mut this = self;
        this.style().apply(StyleEdit::UnderlineWavy(true));
        this
    }

    /// Sets the underline's thickness to 0 pixels, making one if there is none.
    fn text_decoration_0(self) -> (r: Self)
        ensures
            r.style_of() == self.style_of().edited(StyleEdit::UnderlineThickness(Pixels(0))),
    {
        let mut this = self;
        this.style().apply(StyleEdit::UnderlineThickness(px(0)));
        this
    }

    /// Sets the underline's thickness to 1 pixels, making one if there is none.
    fn text_decoration_1(self) -> (r: Self)
        ensures
            r.style_of() == self.style_of().edited(StyleEdit::UnderlineThickness(Pixels(1000))),
    {
        let mut this = self;
        this.style().apply(StyleEdit::UnderlineThickness(px(1)));
        this
    }

    /// Sets the underline's thickness to 2 pixels, making one if there is none.
    fn text_decoration_2(self) -> (r: Self)
        ensures
            r.style_of() == self.style_of().edited(StyleEdit::UnderlineThickness(Pixels(2000))),
    {
        let mut this = self;
        this.style().apply(StyleEdit::UnderlineThickness(px(2)));
        this
    }

    /// Sets the underline's thickness to 4 pixels, making one if there is none.
    fn text_decoration_4(self) -> (r: Self)
        ensures
            r.style_of() == self.style_of().edited(StyleEdit::UnderlineThickness(Pixels(4000))),
    {
        let mut this = self;
        this.style().apply(StyleEdit::UnderlineThickness(px(4)));
        this
    }

    /// Sets the underline's thickness to 8 pixels, making one if there is none.
    fn text_decoration_8(self) -> (r: Self)
        ensures
            r.style_of() == self.style_of().edited(StyleEdit::UnderlineThickness(Pixels(8000))),
    {
        let mut this = self;
        this.style().apply(StyleEdit::UnderlineThickness(px(8)));
        this
    }

    /// Sets the font family.
    fn font(self, family_name: String) -> (r: Self)
        ensures
            r.style_of() == self.style_of().edited(StyleEdit::FontFamily(family_name)),
    {
        let mut this = self;
        this.style().apply(StyleEdit::FontFamily(family_name));
        this
    }

    /// Sets the line height.
    fn line_height(self, line_height: DefiniteLength) -> (r: Self)
        ensures
            r.style_of() == self.style_of().edited(StyleEdit::LineHeight(line_height)),
    {
        let mut this = self;
        this.style().apply(StyleEdit::LineHeight(line_height));
        this
    }
}

impl Styled for StyleRefinement {
    open spec fn style_of(&self) -> StyleRefinement {
        *self
    }

    fn style(&mut self) -> (r: &mut StyleRefinement) {
        self
    }
}

} // verus!
