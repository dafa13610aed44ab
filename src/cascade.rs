//! Resolving a stack of style layers into one concrete style.
//!
//! Resolution has two steps. The layers of one element are folded into one
//! layer, the higher taking precedence field by field. That layer is then
//! completed: a field it leaves unset takes a fixed baseline, except a text
//! field, which takes the value resolved for the nearest ancestor.
use vstd::prelude::*;
use taffy::style::Overflow;
use crate::units::{
    black, transparent_black, AbsoluteLength, DefiniteLength, Hsla, Length, Rems,
};
use crate::shadow::{BoxShadow, ShadowList};
use crate::style_kinds::{
    AlignItems, CursorStyle, Decoration, Display, Fill, FlexDirection, JustifyContent, Position,
    Visibility, WhiteSpace,
};
use crate::refinement::{StyleField, StyleRefinement, TextStyleRefinement};

verus! {

/// A fully resolved text style.
#[derive(Debug, PartialEq)]
pub struct TextStyle {
    pub color: Hsla,
    pub background_color: Hsla,
    /// The empty name selects the platform's default font.
    pub font_family: String,
    pub font_size: AbsoluteLength,
    pub line_height: DefiniteLength,
    pub white_space: WhiteSpace,
    /// `Cleared` draws no decoration.
    pub underline: Decoration,
}

/// A fully resolved style: every field has a value.
#[derive(Debug, PartialEq)]
pub struct Style {
    pub z_index: u32,
    pub width: Length,
    pub height: Length,
    pub position: Position,
    pub display: Display,
    pub visibility: Visibility,
    pub overflow_x: Overflow,
    pub overflow_y: Overflow,
    pub mouse_cursor: CursorStyle,
    pub flex_direction: FlexDirection,
    /// In thousandths.
    pub flex_grow: i32,
    /// In thousandths.
    pub flex_shrink: i32,
    pub flex_basis: Length,
    pub align_items: AlignItems,
    pub justify_content: JustifyContent,
    pub background: Fill,
    pub border_color: Hsla,
    pub box_shadow: ShadowList,
    pub text: TextStyle,
}

/// The value of one field, of whichever type the field has; a list of
/// shadows is given by the shadows it holds.
pub enum FieldValue {
    Count(u32),
    Length(Length),
    Position(Position),
    Display(Display),
    Visibility(Visibility),
    Overflow(Overflow),
    Cursor(CursorStyle),
    FlexDirection(FlexDirection),
    Factor(i32),
    AlignItems(AlignItems),
    JustifyContent(JustifyContent),
    Fill(Fill),
    Color(Hsla),
    Shadows(Seq<BoxShadow>),
    Family(String),
    FontSize(AbsoluteLength),
    LineHeight(DefiniteLength),
    WhiteSpace(WhiteSpace),
    Decoration(Decoration),
}

/// `hi` where it is set, else `lo`.
pub open spec fn or_else<T>(hi: Option<T>, lo: Option<T>) -> Option<T> {
    if hi is Some {
        hi
    } else {
        lo
    }
}

/// The value held by `o`, else `d`.
pub open spec fn value_or<T>(o: Option<T>, d: T) -> T {
    match o {
        Some(v) => v,
        None => d,
    }
}

/// `o` with its value, if any, passed through `wrap`.
pub open spec fn lift<T>(o: Option<T>, wrap: spec_fn(T) -> FieldValue) -> Option<FieldValue> {
    match o {
        Some(v) => Some(wrap(v)),
        None => None,
    }
}

/// What the layer `s` sets the field `f` to, if it sets it.
pub open spec fn field_value(s: StyleRefinement, f: StyleField) -> Option<FieldValue> {
    let t = s.text;
    match f {
        StyleField::ZIndex => lift(s.z_index, |v| FieldValue::Count(v)),
        StyleField::Width => lift(s.width, |v| FieldValue::Length(v)),
        StyleField::Height => lift(s.height, |v| FieldValue::Length(v)),
        StyleField::Position => lift(s.position, |v| FieldValue::Position(v)),
        StyleField::Display => lift(s.display, |v| FieldValue::Display(v)),
        StyleField::Visibility => lift(s.visibility, |v| FieldValue::Visibility(v)),
        StyleField::OverflowX => lift(s.overflow_x, |v| FieldValue::Overflow(v)),
        StyleField::OverflowY => lift(s.overflow_y, |v| FieldValue::Overflow(v)),
        StyleField::Cursor => lift(s.mouse_cursor, |v| FieldValue::Cursor(v)),
        StyleField::FlexDirection => lift(s.flex_direction, |v| FieldValue::FlexDirection(v)),
        StyleField::FlexGrow => lift(s.flex_grow, |v| FieldValue::Factor(v)),
        StyleField::FlexShrink => lift(s.flex_shrink, |v| FieldValue::Factor(v)),
        StyleField::FlexBasis => lift(s.flex_basis, |v| FieldValue::Length(v)),
        StyleField::AlignItems => lift(s.align_items, |v| FieldValue::AlignItems(v)),
        StyleField::JustifyContent => lift(s.justify_content, |v| FieldValue::JustifyContent(v)),
        StyleField::Background => lift(s.background, |v| FieldValue::Fill(v)),
        StyleField::BorderColor => lift(s.border_color, |v| FieldValue::Color(v)),
        StyleField::BoxShadow => lift(s.box_shadow, |v: ShadowList| FieldValue::Shadows(v@)),
        StyleField::TextColor => lift(t.color, |v| FieldValue::Color(v)),
        StyleField::TextBackground => lift(t.background_color, |v| FieldValue::Color(v)),
        StyleField::FontFamily => lift(t.font_family, |v| FieldValue::Family(v)),
        StyleField::FontSize => lift(t.font_size, |v| FieldValue::FontSize(v)),
        StyleField::LineHeight => lift(t.line_height, |v| FieldValue::LineHeight(v)),
        StyleField::WhiteSpace => lift(t.white_space, |v| FieldValue::WhiteSpace(v)),
        StyleField::Underline => lift(t.underline, |v| FieldValue::Decoration(v)),
    }
}

/// The value of the field `f` in the resolved style `st`.
pub open spec fn resolved_field(st: Style, f: StyleField) -> FieldValue {
    let t = st.text;
    match f {
        StyleField::ZIndex => FieldValue::Count(st.z_index),
        StyleField::Width => FieldValue::Length(st.width),
        StyleField::Height => FieldValue::Length(st.height),
        StyleField::Position => FieldValue::Position(st.position),
        StyleField::Display => FieldValue::Display(st.display),
        StyleField::Visibility => FieldValue::Visibility(st.visibility),
        StyleField::OverflowX => FieldValue::Overflow(st.overflow_x),
        StyleField::OverflowY => FieldValue::Overflow(st.overflow_y),
        StyleField::Cursor => FieldValue::Cursor(st.mouse_cursor),
        StyleField::FlexDirection => FieldValue::FlexDirection(st.flex_direction),
        StyleField::FlexGrow => FieldValue::Factor(st.flex_grow),
        StyleField::FlexShrink => FieldValue::Factor(st.flex_shrink),
        StyleField::FlexBasis => FieldValue::Length(st.flex_basis),
        StyleField::AlignItems => FieldValue::AlignItems(st.align_items),
        StyleField::JustifyContent => FieldValue::JustifyContent(st.justify_content),
        StyleField::Background => FieldValue::Fill(st.background),
        StyleField::BorderColor => FieldValue::Color(st.border_color),
        StyleField::BoxShadow => FieldValue::Shadows(st.box_shadow@),
        StyleField::TextColor => FieldValue::Color(t.color),
        StyleField::TextBackground => FieldValue::Color(t.background_color),
        StyleField::FontFamily => FieldValue::Family(t.font_family),
        StyleField::FontSize => FieldValue::FontSize(t.font_size),
        StyleField::LineHeight => FieldValue::LineHeight(t.line_height),
        StyleField::WhiteSpace => FieldValue::WhiteSpace(t.white_space),
        StyleField::Underline => FieldValue::Decoration(t.underline),
    }
}

/// What the field `f` resolves to when no layer sets it: a fixed baseline
/// for layout and paint fields, the ancestor's value `inh` for text fields.
pub open spec fn baseline_field(f: StyleField, inh: TextStyle) -> FieldValue {
    match f {
        StyleField::ZIndex => FieldValue::Count(0),
        StyleField::Width => FieldValue::Length(Length::Auto),
        StyleField::Height => FieldValue::Length(Length::Auto),
        StyleField::Position => FieldValue::Position(Position::Static),
        StyleField::Display => FieldValue::Display(Display::Block),
        StyleField::Visibility => FieldValue::Visibility(Visibility::Visible),
        StyleField::OverflowX => FieldValue::Overflow(Overflow::Visible),
        StyleField::OverflowY => FieldValue::Overflow(Overflow::Visible),
        StyleField::Cursor => FieldValue::Cursor(CursorStyle::Arrow),
        StyleField::FlexDirection => FieldValue::FlexDirection(FlexDirection::Row),
        StyleField::FlexGrow => FieldValue::Factor(0),
        StyleField::FlexShrink => FieldValue::Factor(0),
        StyleField::FlexBasis => FieldValue::Length(Length::Auto),
        StyleField::AlignItems => FieldValue::AlignItems(AlignItems::Stretch),
        StyleField::JustifyContent => FieldValue::JustifyContent(JustifyContent::Start),
        StyleField::Background => FieldValue::Fill(Fill::Color(Hsla { h: 0, s: 0, l: 0, a: 0 })),
        StyleField::BorderColor => FieldValue::Color(Hsla { h: 0, s: 0, l: 0, a: 0 }),
        StyleField::BoxShadow => FieldValue::Shadows(Seq::empty()),
        StyleField::TextColor => FieldValue::Color(inh.color),
        StyleField::TextBackground => FieldValue::Color(inh.background_color),
        StyleField::FontFamily => FieldValue::Family(inh.font_family),
        StyleField::FontSize => FieldValue::FontSize(inh.font_size),
        StyleField::LineHeight => FieldValue::LineHeight(inh.line_height),
        StyleField::WhiteSpace => FieldValue::WhiteSpace(inh.white_space),
        StyleField::Underline => FieldValue::Decoration(inh.underline),
    }
}

/// The two layers set the same fields to the same values.
pub open spec fn same_fields(a: StyleRefinement, b: StyleRefinement) -> bool {
    forall|f: StyleField| #[trigger] field_value(a, f) == field_value(b, f)
}

/// `st` is the layer `s` completed: each field is the layer's value where it
/// sets one, else the baseline, with text fields inherited from `inh`.
pub open spec fn resolves_to(st: Style, s: StyleRefinement, inh: TextStyle) -> bool {
    forall|f: StyleField| #[trigger]
        resolved_field(st, f) == value_or(field_value(s, f), baseline_field(f, inh))
}

impl StyleRefinement {
    /// This layer with `hi` laid over it: each field is taken from `hi`
    /// where `hi` sets it, else from this layer. A list of shadows and an
    /// underline are taken whole, never combined.
    pub open spec fn refined_by(self, hi: StyleRefinement) -> StyleRefinement {
        StyleRefinement {
            z_index: or_else(hi.z_index, self.z_index),
            width: or_else(hi.width, self.width),
            height: or_else(hi.height, self.height),
            position: or_else(hi.position, self.position),
            display: or_else(hi.display, self.display),
            visibility: or_else(hi.visibility, self.visibility),
            overflow_x: or_else(hi.overflow_x, self.overflow_x),
            overflow_y: or_else(hi.overflow_y, self.overflow_y),
            mouse_cursor: or_else(hi.mouse_cursor, self.mouse_cursor),
            flex_direction: or_else(hi.flex_direction, self.flex_direction),
            flex_grow: or_else(hi.flex_grow, self.flex_grow),
            flex_shrink: or_else(hi.flex_shrink, self.flex_shrink),
            flex_basis: or_else(hi.flex_basis, self.flex_basis),
            align_items: or_else(hi.align_items, self.align_items),
            justify_content: or_else(hi.justify_content, self.justify_content),
            background: or_else(hi.background, self.background),
            border_color: or_else(hi.border_color, self.border_color),
            box_shadow: or_else(hi.box_shadow, self.box_shadow),
            text: TextStyleRefinement {
                color: or_else(hi.text.color, self.text.color),
                background_color: or_else(hi.text.background_color, self.text.background_color),
                font_family: or_else(hi.text.font_family, self.text.font_family),
                font_size: or_else(hi.text.font_size, self.text.font_size),
                line_height: or_else(hi.text.line_height, self.text.line_height),
                white_space: or_else(hi.text.white_space, self.text.white_space),
                underline: or_else(hi.text.underline, self.text.underline),
            },
        }
    }
}

/// The layers of `layers`, lowest precedence first, folded into one.
pub open spec fn cascade(layers: Seq<StyleRefinement>) -> StyleRefinement
    decreases layers.len(),
{
    if layers.len() == 0 {
        StyleRefinement::unset()
    } else {
        cascade(layers.drop_last()).refined_by(layers.last())
    }
}

/// The value of the last of `vals` that is set, if any is.
pub open spec fn highest_set(vals: Seq<Option<FieldValue>>) -> Option<FieldValue>
    decreases vals.len(),
{
    if vals.len() == 0 {
        None
    } else {
        or_else(vals.last(), highest_set(vals.drop_last()))
    }
}

/// What each of `layers` sets the field `f` to.
pub open spec fn field_column(layers: Seq<StyleRefinement>, f: StyleField) -> Seq<
    Option<FieldValue>,
> {
    layers.map_values(|l: StyleRefinement| field_value(l, f))
}

/// Laying `hi` over `lo` sets each field as `hi` does where `hi` sets it,
/// else as `lo` does.
pub proof fn lemma_refined_field(lo: StyleRefinement, hi: StyleRefinement, f: StyleField)
    ensures
        field_value(lo.refined_by(hi), f) == or_else(field_value(hi, f), field_value(lo, f)),
{
}

/// The folded layer sets each field as the highest layer that sets it does.
pub proof fn lemma_cascade_field(layers: Seq<StyleRefinement>, f: StyleField)
    ensures
        field_value(cascade(layers), f) == highest_set(field_column(layers, f)),
    decreases layers.len(),
{
    if layers.len() > 0 {
        lemma_cascade_field(layers.drop_last(), f);
        lemma_refined_field(cascade(layers.drop_last()), layers.last(), f);
        assert(field_column(layers, f).drop_last() == field_column(layers.drop_last(), f));
    }
}

/// Where no value is set, none is found.
proof fn lemma_highest_set_none(vals: Seq<Option<FieldValue>>)
    requires
        forall|i: int| 0 <= i < vals.len() ==> vals[i] is None,
    ensures
        highest_set(vals) is None,
    decreases vals.len(),
{
    if vals.len() > 0 {
        lemma_highest_set_none(vals.drop_last());
    }
}

/// Where position `j` is set and none above it is, its value is found.
proof fn lemma_highest_set_at(vals: Seq<Option<FieldValue>>, j: int)
    requires
        0 <= j < vals.len(),
        vals[j] is Some,
        forall|k: int| j < k < vals.len() ==> vals[k] is None,
    ensures
        highest_set(vals) == vals[j],
    decreases vals.len(),
{
    if j < vals.len() - 1 {
        lemma_highest_set_at(vals.drop_last(), j);
    }
}

/// `hi` where it is set, else `lo`.
fn pick<T: Copy>(hi: Option<T>, lo: Option<T>) -> (r: Option<T>)
    ensures
        r == or_else(hi, lo),
{
    match hi {
        Some(_) => hi,
        None => lo,
    }
}

/// A copy of `o`.
fn copy_option_string(o: &Option<String>) -> (r: Option<String>)
    ensures
        r == *o,
{
    match o {
        Some(v) => Some(v.clone()),
        None => None,
    }
}

/// A copy of `o`, holding the same shadows.
fn copy_option_shadows(o: &Option<ShadowList>) -> (r: Option<ShadowList>)
    ensures
        r is Some <==> o is Some,
        r is Some ==> r.unwrap()@ == o.unwrap()@,
{
    match o {
        Some(v) => Some(v.duplicate()),
        None => None,
    }
}

impl StyleRefinement {
    /// A new layer: this one with `hi` laid over it.
    pub fn refine(&self, hi: &StyleRefinement) -> (r: StyleRefinement)
        ensures
            same_fields(r, self.refined_by(*hi)),
    {
        let family = if hi.text.font_family.is_some() {
            copy_option_string(&hi.text.font_family)
        } else {
            copy_option_string(&self.text.font_family)
        };
        let shadows = if hi.box_shadow.is_some() {
            copy_option_shadows(&hi.box_shadow)
        } else {
            copy_option_shadows(&self.box_shadow)
        };
        let r = StyleRefinement {
            z_index: pick(hi.z_index, self.z_index),
            width: pick(hi.width, self.width),
            height: pick(hi.height, self.height),
            position: pick(hi.position, self.position),
            display: pick(hi.display, self.display),
            visibility: pick(hi.visibility, self.visibility),
            overflow_x: pick(hi.overflow_x, self.overflow_x),
            overflow_y: pick(hi.overflow_y, self.overflow_y),
            mouse_cursor: pick(hi.mouse_cursor, self.mouse_cursor),
            flex_direction: pick(hi.flex_direction, self.flex_direction),
            flex_grow: pick(hi.flex_grow, self.flex_grow),
            flex_shrink: pick(hi.flex_shrink, self.flex_shrink),
            flex_basis: pick(hi.flex_basis, self.flex_basis),
            align_items: pick(hi.align_items, self.align_items),
            justify_content: pick(hi.justify_content, self.justify_content),
            background: pick(hi.background, self.background),
            border_color: pick(hi.border_color, self.border_color),
            box_shadow: shadows,
            text: TextStyleRefinement {
                color: pick(hi.text.color, self.text.color),
                background_color: pick(hi.text.background_color, self.text.background_color),
                font_family: family,
                font_size: pick(hi.text.font_size, self.text.font_size),
                line_height: pick(hi.text.line_height, self.text.line_height),
                white_space: pick(hi.text.white_space, self.text.white_space),
                underline: pick(hi.text.underline, self.text.underline),
            },
        };
        proof {
            assert forall|f: StyleField| #[trigger]
                field_value(r, f) == field_value(self.refined_by(*hi), f) by {
                if f == StyleField::BoxShadow {
                    assert(field_value(r, f) == field_value(self.refined_by(*hi), f));
                }
            }
        }
        r
    }
}

/// Folds `layers`, lowest precedence first, into one new layer.
pub fn cascade_layers(layers: &Vec<StyleRefinement>) -> (r: StyleRefinement)
    ensures
        same_fields(r, cascade(layers@)),
{
    let mut acc = StyleRefinement::new();
    let mut i: usize = 0;
    proof {
        assert(layers@.subrange(0, 0) =~= Seq::<StyleRefinement>::empty());
    }
    while i < layers.len()
        invariant
            i <= layers@.len(),
            same_fields(acc, cascade(layers@.subrange(0, i as int))),
        decreases layers@.len() - i,
    {
        let next = acc.refine(&layers[i]);
        proof {
            let lo = layers@.subrange(0, i as int);
            let hi = layers@.subrange(0, i + 1);
            assert(hi.drop_last() =~= lo);
            assert forall|f: StyleField| #[trigger]
                field_value(next, f) == field_value(cascade(hi), f) by {
                lemma_refined_field(acc, layers@[i as int], f);
                lemma_refined_field(cascade(lo), layers@[i as int], f);
            }
        }
        acc = next;
        i = i + 1;
    }
    proof {
        assert(layers@.subrange(0, layers@.len() as int) =~= layers@);
    }
    acc
}

/// `o`'s value, else `d`.
fn value_or_else<T: Copy>(o: Option<T>, d: T) -> (r: T)
    ensures
        r == value_or(o, d),
{
    match o {
        Some(v) => v,
        None => d,
    }
}

impl TextStyle {
    /// The text style above the root element: opaque black on a transparent
    /// background, the platform's default font at the root font size, lines
    /// spaced at the golden ratio of the font size, wrapping, undecorated.
    pub fn root() -> (r: TextStyle)
        ensures
            r.color == (Hsla { h: 0, s: 0, l: 0, a: 1000 }),
            r.background_color == (Hsla { h: 0, s: 0, l: 0, a: 0 }),
            r.font_family@ == Seq::<char>::empty(),
            r.font_size == AbsoluteLength::Rems(Rems(1000)),
            r.line_height == DefiniteLength::Fraction(1618),
            r.white_space == WhiteSpace::Normal,
            r.underline == Decoration::Cleared,
    {
        TextStyle {
            color: black(),
            background_color: transparent_black(),
            font_family: String::new(),
            font_size: AbsoluteLength::Rems(Rems(1000)),
            line_height: DefiniteLength::Fraction(1618),
            white_space: WhiteSpace::Normal,
            underline: Decoration::Cleared,
        }
    }
}

impl Style {
    /// The layer `s` completed: each field unset in it takes its baseline,
    /// text fields the value resolved for the ancestor, `inherited`.
    pub fn resolve(s: &StyleRefinement, inherited: &TextStyle) -> (r: Style)
        ensures
            resolves_to(r, *s, *inherited),
    {
        let none = transparent_black();
        let shadows = match &s.box_shadow {
            Some(l) => l.duplicate(),
            None => ShadowList::new(),
        };
        let family = match &s.text.font_family {
            Some(f) => f.clone(),
            None => inherited.font_family.clone(),
        };
        let t = &s.text;
        let r = Style {
            z_index: value_or_else(s.z_index, 0),
            width: value_or_else(s.width, Length::Auto),
            height: value_or_else(s.height, Length::Auto),
            position: value_or_else(s.position, Position::Static),
            display: value_or_else(s.display, Display::Block),
            visibility: value_or_else(s.visibility, Visibility::Visible),
            overflow_x: value_or_else(s.overflow_x, Overflow::Visible),
            overflow_y: value_or_else(s.overflow_y, Overflow::Visible),
            mouse_cursor: value_or_else(s.mouse_cursor, CursorStyle::Arrow),
            flex_direction: value_or_else(s.flex_direction, FlexDirection::Row),
            flex_grow: value_or_else(s.flex_grow, 0),
            flex_shrink: value_or_else(s.flex_shrink, 0),
            flex_basis: value_or_else(s.flex_basis, Length::Auto),
            align_items: value_or_else(s.align_items, AlignItems::Stretch),
            justify_content: value_or_else(s.justify_content, JustifyContent::Start),
            background: value_or_else(s.background, Fill::Color(none)),
            border_color: value_or_else(s.border_color, none),
            box_shadow: shadows,
            text: TextStyle {
                color: value_or_else(t.color, inherited.color),
                background_color: value_or_else(t.background_color, inherited.background_color),
                font_family: family,
                font_size: value_or_else(t.font_size, inherited.font_size),
                line_height: value_or_else(t.line_height, inherited.line_height),
                white_space: value_or_else(t.white_space, inherited.white_space),
                underline: value_or_else(t.underline, inherited.underline),
            },
        };
        proof {
            assert forall|f: StyleField| #[trigger]
                resolved_field(r, f) == value_or(field_value(*s, f), baseline_field(f, *inherited)) by {
                match f {
                    StyleField::ZIndex => {},
                    StyleField::Width => {},
                    StyleField::Height => {},
                    StyleField::Position => {},
                    StyleField::Display => {},
                    StyleField::Visibility => {},
                    StyleField::OverflowX => {},
                    StyleField::OverflowY => {},
                    StyleField::Cursor => {},
                    StyleField::FlexDirection => {},
                    StyleField::FlexGrow => {},
                    StyleField::FlexShrink => {},
                    StyleField::FlexBasis => {},
                    StyleField::AlignItems => {},
                    StyleField::JustifyContent => {},
                    StyleField::Background => {},
                    StyleField::BorderColor => {},
                    StyleField::BoxShadow => {},
                    StyleField::TextColor => {},
                    StyleField::TextBackground => {},
                    StyleField::FontFamily => {},
                    StyleField::FontSize => {},
                    StyleField::LineHeight => {},
                    StyleField::WhiteSpace => {},
                    StyleField::Underline => {},
                }
            }
        }
        r
    }
}

/// Resolves the layers of one element, lowest precedence first, under the
/// text style resolved for its nearest ancestor (`TextStyle::root()` for the
/// root element).
pub fn resolve_layers(layers: &Vec<StyleRefinement>, inherited: &TextStyle) -> (r: Style)
    ensures
        resolves_to(r, cascade(layers@), *inherited),
{
    let folded = cascade_layers(layers);
    let r = Style::resolve(&folded, inherited);
    proof {
        assert forall|f: StyleField| #[trigger]
            resolved_field(r, f) == value_or(
                field_value(cascade(layers@), f),
                baseline_field(f, *inherited),
            ) by {
            assert(field_value(folded, f) == field_value(cascade(layers@), f));
            assert(resolved_field(r, f) == value_or(
                field_value(folded, f),
                baseline_field(f, *inherited),
            ));
        }
    }
    r
}

/// A field that no layer sets resolves to its baseline: the fixed default,
/// or for a text field the ancestor's value.
pub proof fn unset_field_takes_baseline(
    layers: Seq<StyleRefinement>,
    inherited: TextStyle,
    st: Style,
    f: StyleField,
)
    requires
        resolves_to(st, cascade(layers), inherited),
        forall|i: int| 0 <= i < layers.len() ==> field_value(#[trigger] layers[i], f) is None,
    ensures
        resolved_field(st, f) == baseline_field(f, inherited),
{
    lemma_cascade_field(layers, f);
    lemma_highest_set_none(field_column(layers, f));
}

/// A field that exactly one layer sets resolves to that layer's value,
/// wherever the layer stands in the stack.
pub proof fn field_set_once_is_kept(
    layers: Seq<StyleRefinement>,
    inherited: TextStyle,
    st: Style,
    f: StyleField,
    i: int,
)
    requires
        resolves_to(st, cascade(layers), inherited),
        0 <= i < layers.len(),
        field_value(layers[i], f) is Some,
        forall|k: int|
            0 <= k < layers.len() && k != i ==> field_value(#[trigger] layers[k], f) is None,
    ensures
        Some(resolved_field(st, f)) == field_value(layers[i], f),
{
    lemma_cascade_field(layers, f);
    lemma_highest_set_at(field_column(layers, f), i);
}

/// Where layers `i` and `j > i` both set a field and no layer above `j`
/// does, the field resolves to layer `j`'s value.
pub proof fn higher_layer_wins(
    layers: Seq<StyleRefinement>,
    inherited: TextStyle,
    st: Style,
    f: StyleField,
    i: int,
    j: int,
)
    requires
        resolves_to(st, cascade(layers), inherited),
        0 <= i < j < layers.len(),
        field_value(layers[i], f) is Some,
        field_value(layers[j], f) is Some,
        forall|k: int| j < k < layers.len() ==> field_value(#[trigger] layers[k], f) is None,
    ensures
        Some(resolved_field(st, f)) == field_value(layers[j], f),
{
    lemma_cascade_field(layers, f);
    lemma_highest_set_at(field_column(layers, f), j);
}

/// A higher layer that sets the shadows replaces the lower layer's list as a
/// whole: the resolved shadows are exactly the higher layer's.
pub proof fn shadows_replaced_whole(
    lower: StyleRefinement,
    higher: StyleRefinement,
    inherited: TextStyle,
    st: Style,
)
    requires
        resolves_to(st, cascade(seq![lower, higher]), inherited),
        higher.box_shadow is Some,
    ensures
        st.box_shadow@ == higher.box_shadow.unwrap()@,
{
    let layers = seq![lower, higher];
    assert(layers.drop_last().drop_last() =~= Seq::<StyleRefinement>::empty());
    assert(resolved_field(st, StyleField::BoxShadow) == value_or(
        field_value(cascade(layers), StyleField::BoxShadow),
        baseline_field(StyleField::BoxShadow, inherited),
    ));
}

/// Removing the decoration in a higher layer overrides an underline that a
/// lower layer draws; a higher layer that never touches the decoration
/// keeps the lower layer's.
pub proof fn cleared_decoration_overrides(
    lower: StyleRefinement,
    higher: StyleRefinement,
    inherited: TextStyle,
    st: Style,
)
    requires
        resolves_to(st, cascade(seq![lower, higher]), inherited),
    ensures
        higher.text.underline == Some(Decoration::Cleared) ==> st.text.underline
            == Decoration::Cleared,
        higher.text.underline is None ==> st.text.underline == value_or(
            lower.text.underline,
            inherited.underline,
        ),
{
    let layers = seq![lower, higher];
    assert(layers.drop_last() =~= seq![lower]);
    assert(layers.drop_last().drop_last() =~= Seq::<StyleRefinement>::empty());
    assert(layers.last() == higher);
    assert(seq![lower].last() == lower);
    reveal_with_fuel(cascade, 3);
    assert(resolved_field(st, StyleField::Underline) == value_or(
        field_value(cascade(layers), StyleField::Underline),
        baseline_field(StyleField::Underline, inherited),
    ));
}

/// A child element whose layers leave the font size unset takes the font
/// size resolved for its parent.
pub proof fn font_size_inherited_from_parent(
    child_layers: Seq<StyleRefinement>,
    parent: Style,
    child: Style,
)
    requires
        resolves_to(child, cascade(child_layers), parent.text),
        forall|i: int| 0 <= i < child_layers.len() ==> (#[trigger] child_layers[i]).text.font_size is None,
    ensures
        child.text.font_size == parent.text.font_size,
{
    assert forall|i: int| 0 <= i < child_layers.len() implies field_value(
        #[trigger] child_layers[i],
        StyleField::FontSize,
    ) is None by {}
    unset_field_takes_baseline(child_layers, parent.text, child, StyleField::FontSize);
}

} // verus!
