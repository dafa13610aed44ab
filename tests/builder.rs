use styled::cascade::{resolve_layers, Style, TextStyle};
use styled::refinement::{StyleEdit, StyleRefinement};
use styled::shadow::{BoxShadow, ShadowList};
use styled::style_kinds::{
    AlignItems, CursorStyle, Decoration, Display, Fill, FlexDirection, JustifyContent, Position,
    UnderlineStyle, Visibility, WhiteSpace,
};
use styled::styled::Styled;
use styled::units::{
    hsla, point, px, relative, rems, AbsoluteLength, DefiniteLength, Length, Pixels, Rems,
};
use taffy::style::Overflow;

fn shadow(alpha: i32, y: i32, blur: i32, spread: i32) -> BoxShadow {
    BoxShadow {
        color: hsla(0, 0, 0, alpha),
        offset: point(px(0), px(y)),
        blur_radius: px(blur),
        spread_radius: px(spread),
    }
}

fn resolve_root(layers: Vec<StyleRefinement>) -> Style {
    resolve_layers(&layers, &TextStyle::root())
}

#[test]
fn units_are_thousandths() {
    assert_eq!(px(2), Pixels(2000));
    assert_eq!(px(-12), Pixels(-12000));
    assert_eq!(rems(875), Rems(875));
    assert_eq!(relative(1000), DefiniteLength::Fraction(1000));
    assert_eq!(px(3).absolute().definite().length(), Length::Definite(DefiniteLength::Absolute(AbsoluteLength::Pixels(Pixels(3000)))));
}

#[test]
fn same_setter_twice_keeps_last_value() {
    let twice = StyleRefinement::new().z_index(1).z_index(7);
    let once = StyleRefinement::new().z_index(7);
    assert_eq!(twice, once);
    let twice = StyleRefinement::new().cursor_pointer().cursor_text();
    assert_eq!(twice, StyleRefinement::new().cursor_text());
    let twice = StyleRefinement::new().text_decoration_1().text_decoration_8();
    assert_eq!(twice, StyleRefinement::new().text_decoration_8());
}

#[test]
fn disjoint_setters_commute() {
    let a = StyleRefinement::new().flex().text_xl().cursor_grab();
    let b = StyleRefinement::new().cursor_grab().text_xl().flex();
    assert_eq!(a, b);
    let a = StyleRefinement::new().text_decoration_wavy().text_decoration_2();
    let b = StyleRefinement::new().text_decoration_2().text_decoration_wavy();
    assert_eq!(a, b);
}

#[test]
fn grouped_setters() {
    let s = StyleRefinement::new().full();
    assert_eq!(s.width, Some(Length::Definite(DefiniteLength::Fraction(1000))));
    assert_eq!(s.height, Some(Length::Definite(DefiniteLength::Fraction(1000))));
    let s = StyleRefinement::new().overflow_hidden();
    assert_eq!(s.overflow_x, Some(Overflow::Hidden));
    assert_eq!(s.overflow_y, Some(Overflow::Hidden));
    let s = StyleRefinement::new().flex_1();
    assert_eq!((s.flex_grow, s.flex_shrink), (Some(1000), Some(1000)));
    assert_eq!(s.flex_basis, Some(Length::Definite(DefiniteLength::Fraction(0))));
    let s = StyleRefinement::new().flex_auto();
    assert_eq!((s.flex_grow, s.flex_shrink, s.flex_basis), (Some(1000), Some(1000), Some(Length::Auto)));
    let s = StyleRefinement::new().flex_initial();
    assert_eq!((s.flex_grow, s.flex_shrink, s.flex_basis), (Some(0), Some(1000), Some(Length::Auto)));
    let s = StyleRefinement::new().flex_1().flex_none();
    assert_eq!((s.flex_grow, s.flex_shrink), (Some(0), Some(0)));
    assert_eq!(s.flex_basis, Some(Length::Definite(DefiniteLength::Fraction(0))));
    let s = StyleRefinement::new().flex_grow();
    assert_eq!((s.flex_grow, s.flex_shrink, s.flex_basis), (Some(1000), None, None));
}

#[test]
fn single_field_setters() {
    let s = StyleRefinement::new()
        .relative()
        .block()
        .invisible()
        .overflow_hidden_x()
        .flex_col_reverse()
        .items_center()
        .justify_between()
        .whitespace_nowrap()
        .bg(Fill::color(hsla(1, 2, 3, 4)))
        .border_color(hsla(5, 6, 7, 8))
        .text_color(hsla(9, 9, 9, 9))
        .text_bg(hsla(8, 8, 8, 8))
        .font("Mono".to_string())
        .line_height(relative(1500))
        .text_size(px(14).absolute());
    assert_eq!(s.position, Some(Position::Relative));
    assert_eq!(s.display, Some(Display::Block));
    assert_eq!(s.visibility, Some(Visibility::Hidden));
    assert_eq!(s.overflow_x, Some(Overflow::Hidden));
    assert_eq!(s.overflow_y, None);
    assert_eq!(s.flex_direction, Some(FlexDirection::ColumnReverse));
    assert_eq!(s.align_items, Some(AlignItems::Center));
    assert_eq!(s.justify_content, Some(JustifyContent::SpaceBetween));
    assert_eq!(s.text.white_space, Some(WhiteSpace::Nowrap));
    assert_eq!(s.background, Some(Fill::Color(hsla(1, 2, 3, 4))));
    assert_eq!(s.border_color, Some(hsla(5, 6, 7, 8)));
    assert_eq!(s.text.color, Some(hsla(9, 9, 9, 9)));
    assert_eq!(s.text.background_color, Some(hsla(8, 8, 8, 8)));
    assert_eq!(s.text.font_family, Some("Mono".to_string()));
    assert_eq!(s.text.line_height, Some(DefiniteLength::Fraction(1500)));
    assert_eq!(s.text.font_size, Some(AbsoluteLength::Pixels(Pixels(14000))));
    assert_eq!(s.z_index, None);
    assert_eq!(s.mouse_cursor, None);
}

#[test]
fn cursor_table() {
    let cases: Vec<(StyleRefinement, CursorStyle)> = vec![
        (StyleRefinement::new().cursor_default(), CursorStyle::Arrow),
        (StyleRefinement::new().cursor_pointer(), CursorStyle::PointingHand),
        (StyleRefinement::new().cursor_text(), CursorStyle::IBeam),
        (StyleRefinement::new().cursor_move(), CursorStyle::ClosedHand),
        (StyleRefinement::new().cursor_not_allowed(), CursorStyle::OperationNotAllowed),
        (StyleRefinement::new().cursor_context_menu(), CursorStyle::ContextualMenu),
        (StyleRefinement::new().cursor_crosshair(), CursorStyle::Crosshair),
        (StyleRefinement::new().cursor_vertical_text(), CursorStyle::IBeamCursorForVerticalLayout),
        (StyleRefinement::new().cursor_alias(), CursorStyle::DragLink),
        (StyleRefinement::new().cursor_copy(), CursorStyle::DragCopy),
        (StyleRefinement::new().cursor_no_drop(), CursorStyle::OperationNotAllowed),
        (StyleRefinement::new().cursor_grab(), CursorStyle::OpenHand),
        (StyleRefinement::new().cursor_grabbing(), CursorStyle::ClosedHand),
        (StyleRefinement::new().cursor_col_resize(), CursorStyle::ResizeLeftRight),
        (StyleRefinement::new().cursor_row_resize(), CursorStyle::ResizeUpDown),
        (StyleRefinement::new().cursor_n_resize(), CursorStyle::ResizeUp),
        (StyleRefinement::new().cursor_e_resize(), CursorStyle::ResizeRight),
        (StyleRefinement::new().cursor_s_resize(), CursorStyle::ResizeDown),
        (StyleRefinement::new().cursor_w_resize(), CursorStyle::ResizeLeft),
        (StyleRefinement::new().cursor(CursorStyle::DisappearingItem), CursorStyle::DisappearingItem),
    ];
    for (s, c) in cases {
        assert_eq!(s.mouse_cursor, Some(c));
    }
}

#[test]
fn text_size_presets() {
    let cases: Vec<(StyleRefinement, i32)> = vec![
        (StyleRefinement::new().text_xs(), 750),
        (StyleRefinement::new().text_sm(), 875),
        (StyleRefinement::new().text_base(), 1000),
        (StyleRefinement::new().text_lg(), 1125),
        (StyleRefinement::new().text_xl(), 1250),
        (StyleRefinement::new().text_2xl(), 1500),
        (StyleRefinement::new().text_3xl(), 1875),
    ];
    for (s, m) in cases {
        assert_eq!(s.text.font_size, Some(AbsoluteLength::Rems(Rems(m))));
    }
}

#[test]
fn unset_fields_fall_through_to_baseline() {
    let st = resolve_root(vec![StyleRefinement::new(), StyleRefinement::new().text_lg()]);
    assert_eq!(st.z_index, 0);
    assert_eq!(st.display, Display::Block);
    assert_eq!(st.position, Position::Static);
    assert_eq!(st.visibility, Visibility::Visible);
    assert_eq!(st.overflow_x, Overflow::Visible);
    assert_eq!(st.mouse_cursor, CursorStyle::Arrow);
    assert_eq!((st.flex_grow, st.flex_shrink), (0, 0));
    assert_eq!(st.flex_basis, Length::Auto);
    assert_eq!(st.width, Length::Auto);
    assert_eq!(st.background, Fill::Color(hsla(0, 0, 0, 0)));
    assert_eq!(st.box_shadow.len(), 0);
    assert_eq!(st.text.color, hsla(0, 0, 0, 1000));
    assert_eq!(st.text.underline, Decoration::Cleared);
}

#[test]
fn field_set_in_one_layer_is_kept_anywhere() {
    for pos in 0..3 {
        let mut layers = vec![StyleRefinement::new(), StyleRefinement::new(), StyleRefinement::new()];
        layers[pos] = StyleRefinement::new().flex();
        let st = resolve_root(layers);
        assert_eq!(st.display, Display::Flex);
    }
}

#[test]
fn highest_layer_wins() {
    let layers = vec![
        StyleRefinement::new().cursor_pointer().z_index(1),
        StyleRefinement::new().text_sm(),
        StyleRefinement::new().cursor_text(),
    ];
    let st = resolve_root(layers);
    assert_eq!(st.mouse_cursor, CursorStyle::IBeam);
    assert_eq!(st.z_index, 1);
    assert_eq!(st.text.font_size, AbsoluteLength::Rems(Rems(875)));
}

#[test]
fn shadows_replaced_as_a_whole() {
    let a = shadow(50, 1, 2, 0);
    let b = shadow(100, 4, 6, -1);
    let c = shadow(100, 2, 4, -2);
    let lower = StyleRefinement::new().shadow(ShadowList::from_vec(&vec![a]));
    let higher = StyleRefinement::new().shadow(ShadowList::from_vec(&vec![b, c]));
    let st = resolve_root(vec![lower, higher]);
    assert_eq!(st.box_shadow.to_vec(), vec![b, c]);
    let lower = StyleRefinement::new().shadow(ShadowList::from_vec(&vec![a]));
    let st = resolve_root(vec![lower, StyleRefinement::new().text_xs()]);
    assert_eq!(st.box_shadow.to_vec(), vec![a]);
    let lower = StyleRefinement::new().shadow_lg();
    let st = resolve_root(vec![lower, StyleRefinement::new().shadow_none()]);
    assert_eq!(st.box_shadow.len(), 0);
}

#[test]
fn underline_made_on_first_touch() {
    let s = StyleRefinement::new().text_decoration_2();
    assert_eq!(
        s.text.underline,
        Some(Decoration::Underline(UnderlineStyle { color: None, wavy: false, thickness: Pixels(2000) }))
    );
    let s = StyleRefinement::new().text_decoration_color(hsla(1, 1, 1, 1)).text_decoration_wavy().text_decoration_4();
    assert_eq!(
        s.text.underline,
        Some(Decoration::Underline(UnderlineStyle { color: Some(hsla(1, 1, 1, 1)), wavy: true, thickness: Pixels(4000) }))
    );
    let s = StyleRefinement::new().text_decoration_wavy().text_decoration_solid().text_decoration_0();
    assert_eq!(
        s.text.underline,
        Some(Decoration::Underline(UnderlineStyle { color: None, wavy: false, thickness: Pixels(0) }))
    );
}

#[test]
fn cleared_decoration_overrides_lower_layer() {
    let lower = StyleRefinement::new().text_decoration_1().text_decoration_wavy();
    let higher = StyleRefinement::new().text_decoration_1().text_decoration_none();
    assert_eq!(higher.text.underline, Some(Decoration::Cleared));
    let st = resolve_root(vec![lower, higher]);
    assert_eq!(st.text.underline, Decoration::Cleared);

    let lower = StyleRefinement::new().text_decoration_1();
    let st = resolve_root(vec![lower, StyleRefinement::new()]);
    assert_eq!(
        st.text.underline,
        Decoration::Underline(UnderlineStyle { color: None, wavy: false, thickness: Pixels(1000) })
    );
    let st = resolve_root(vec![StyleRefinement::new()]);
    assert_eq!(st.text.underline, Decoration::Cleared);
}

#[test]
fn shadow_presets_literal_values() {
    assert_eq!(StyleRefinement::new().shadow_sm().box_shadow.unwrap().to_vec(), vec![shadow(50, 1, 2, 0)]);
    assert_eq!(StyleRefinement::new().shadow_2xl().box_shadow.unwrap().to_vec(), vec![shadow(250, 25, 50, -12)]);
    let mut md0 = shadow(100, 4, 6, -1);
    md0.color.h = 500;
    assert_eq!(StyleRefinement::new().shadow_md().box_shadow.unwrap().to_vec(), vec![md0, shadow(100, 2, 4, -2)]);
    assert_eq!(StyleRefinement::new().shadow_lg().box_shadow.unwrap().to_vec(), vec![shadow(100, 10, 15, -3), shadow(100, 4, 6, -4)]);
    assert_eq!(StyleRefinement::new().shadow_xl().box_shadow.unwrap().to_vec(), vec![shadow(100, 20, 25, -5), shadow(100, 8, 10, -6)]);
    assert_eq!(StyleRefinement::new().shadow_sm().shadow_none().box_shadow.unwrap().len(), 0);
    let st = resolve_root(vec![StyleRefinement::new().shadow_sm()]);
    assert_eq!(st.box_shadow.get(0).color.a, 50);
    assert_eq!(st.box_shadow.get(0).offset.y, Pixels(1000));
}

#[test]
fn text_inherited_across_elements() {
    let parent = resolve_root(vec![StyleRefinement::new().text_2xl().font("Serif".to_string())]);
    let child = resolve_layers(&vec![StyleRefinement::new().cursor_pointer()], &parent.text);
    assert_eq!(child.text.font_size, AbsoluteLength::Rems(Rems(1500)));
    assert_eq!(child.text.font_family, "Serif".to_string());
    assert_eq!(child.mouse_cursor, CursorStyle::PointingHand);
    let child = resolve_layers(&vec![StyleRefinement::new().text_xs()], &parent.text);
    assert_eq!(child.text.font_size, AbsoluteLength::Rems(Rems(750)));
    let root = resolve_root(vec![StyleRefinement::new()]);
    assert_eq!(root.text.font_size, AbsoluteLength::Rems(Rems(1000)));
    assert_eq!(root.text.font_family, String::new());
}

#[test]
fn shadow_list_operations() {
    let a = shadow(1, 1, 1, 0);
    let b = shadow(2, 2, 2, 0);
    let c = shadow(3, 3, 3, 0);
    let mut l = ShadowList::new();
    assert_eq!(l.len(), 0);
    l.push(a);
    l.push(b);
    l.push(c);
    assert_eq!(l.len(), 3);
    assert_eq!(l.get(2), c);
    let d = l.duplicate();
    assert_eq!(d.to_vec(), vec![a, b, c]);
}

#[test]
fn apply_and_refine_directly() {
    let mut s = StyleRefinement::new();
    s.apply(StyleEdit::FontSize(rems(1250).absolute()));
    s.apply(StyleEdit::ZIndex(4));
    let hi = StyleRefinement::new().z_index(9).font("Sans".to_string()).shadow_sm();
    let merged = s.refine(&hi);
    assert_eq!(merged.z_index, Some(9));
    assert_eq!(merged.text.font_size, Some(AbsoluteLength::Rems(Rems(1250))));
    assert_eq!(merged.text.font_family, Some("Sans".to_string()));
    assert_eq!(merged.box_shadow.unwrap().len(), 1);
    let st = Style::resolve(&s, &TextStyle::root());
    assert_eq!(st.z_index, 4);
}

#[test]
fn text_style_changes_in_place() {
    let mut s = StyleRefinement::new().cursor_copy();
    s.text_style().color = Some(hsla(3, 3, 3, 3));
    assert_eq!(s.text.color, Some(hsla(3, 3, 3, 3)));
    assert_eq!(s.mouse_cursor, Some(CursorStyle::DragCopy));
    s.style().z_index = Some(2);
    assert_eq!(s.z_index, Some(2));
}
