//! Box shadows and the short list that holds them.
use vstd::prelude::*;
use smallvec::SmallVec;
use crate::units::{hsla, point, px, Hsla, Pixels, Point};

verus! {

/// One shadow drawn under a box.
#[derive(Clone, Copy, Debug, PartialEq, Eq, Structural)]
pub struct BoxShadow {
    pub color: Hsla,
    pub offset: Point,
    pub blur_radius: Pixels,
    pub spread_radius: Pixels,
}

/// The shadows of a box, drawn in order. At most two are held inline.
#[verifier::external_body]
#[derive(Debug, PartialEq, Eq)]
pub struct ShadowList {
    inner: SmallVec<[BoxShadow; 2]>,
}

/// The shadows that a list holds, in order.
pub uninterp spec fn shadow_items(v: ShadowList) -> Seq<BoxShadow>;

/// Relies on `SmallVec::new`: a new vector is empty.
#[verifier::external_body]
fn empty_shadows() -> (r: ShadowList)
    ensures
        shadow_items(r) == Seq::<BoxShadow>::empty(),
{
    ShadowList { inner: SmallVec::new() }
}

/// Relies on `SmallVec::push`: the item is appended after the others.
#[verifier::external_body]
fn push_shadow(v: &mut ShadowList, s: BoxShadow)
    ensures
        shadow_items(*final(v)) == shadow_items(*old(v)).push(s),
{
    v.inner.push(s)
}

/// Relies on `SmallVec::clone`: the copy holds copies of the same items, in
/// the same order (a `BoxShadow` is `Copy`, so a copy is the same value).
#[verifier::external_body]
fn clone_shadows(v: &ShadowList) -> (r: ShadowList)
    ensures
        shadow_items(r) == shadow_items(*v),
{
    ShadowList { inner: v.inner.clone() }
}

/// Relies on `SmallVec::len`: the number of items held.
#[verifier::external_body]
fn count_shadows(v: &ShadowList) -> (r: usize)
    ensures
        r == shadow_items(*v).len(),
{
    v.inner.len()
}

/// Relies on indexing a `SmallVec`: the item at position `i`.
#[verifier::external_body]
fn shadow_at(v: &ShadowList, i: usize) -> (r: BoxShadow)
    requires
        i < shadow_items(*v).len(),
    ensures
        r == shadow_items(*v)[i as int],
{
    v.inner[i]
}

impl ShadowList {
    /// The shadows held, in order.
    pub open spec fn view(self) -> Seq<BoxShadow> {
        shadow_items(self)
    }

    /// An empty list.
    pub fn new() -> (r: ShadowList)
        ensures
            r@ == Seq::<BoxShadow>::empty(),
    {
        empty_shadows()
    }

    /// Appends `s` after the shadows already held.
    pub fn push(&mut self, s: BoxShadow)
        ensures
            final(self)@ == old(self)@.push(s),
    {
        push_shadow(self, s)
    }

    /// A list that holds the same shadows.
    pub fn duplicate(&self) -> (r: ShadowList)
        ensures
            r@ == self@,
    {
        clone_shadows(self)
    }

    /// The number of shadows held.
    pub fn len(&self) -> (r: usize)
        ensures
            r == self@.len(),
    {
        count_shadows(self)
    }

    /// The shadow at position `i`.
    pub fn get(&self, i: usize) -> (r: BoxShadow)
        requires
            i < self@.len(),
        ensures
            r == self@[i as int],
    {
        shadow_at(self, i)
    }

    /// A list of the shadows of `v`, in the same order.
    pub fn from_vec(v: &Vec<BoxShadow>) -> (r: ShadowList)
        ensures
            r@ == v@,
    {
        let mut r = ShadowList::new();
        let mut i: usize = 0;
        while i < v.len()
            invariant
                i <= v@.len(),
                r@ == v@.subrange(0, i as int),
            decreases v@.len() - i,
        {
            r.push(v[i]);
            i = i + 1;
            proof {
                assert(v@.subrange(0, i as int) == v@.subrange(0, i - 1).push(v@[i - 1]));
            }
        }
        proof {
            assert(v@.subrange(0, v@.len() as int) == v@);
        }
        r
    }

    /// The shadows held, in order, as a `Vec`.
    pub fn to_vec(&self) -> (r: Vec<BoxShadow>)
        ensures
            r@ == self@,
    {
        let mut r: Vec<BoxShadow> = Vec::new();
        let n = self.len();
        let mut i: usize = 0;
        while i < n
            invariant
                n == self@.len(),
                i <= n,
                r@ == self@.subrange(0, i as int),
            decreases n - i,
        {
            r.push(self.get(i));
            i = i + 1;
            proof {
                assert(self@.subrange(0, i as int) == self@.subrange(0, i - 1).push(self@[i - 1]));
            }
        }
        proof {
            assert(self@.subrange(0, n as int) == self@);
        }
        r
    }
}

/// A shadow of black at `hue` and `alpha` (thousandths), offset straight
/// down, with lengths given in thousandths of a pixel.
pub open spec fn dark_shadow(hue: int, alpha: int, y: int, blur: int, spread: int) -> BoxShadow {
    BoxShadow {
        color: Hsla { h: hue as i32, s: 0, l: 0, a: alpha as i32 },
        offset: Point { x: Pixels(0), y: Pixels(y as i32) },
        blur_radius: Pixels(blur as i32),
        spread_radius: Pixels(spread as i32),
    }
}

/// The small preset: one faint, tight shadow.
pub open spec fn small_shadows() -> Seq<BoxShadow> {
    seq![dark_shadow(0, 50, 1000, 2000, 0)]
}

/// The medium preset.
pub open spec fn medium_shadows() -> Seq<BoxShadow> {
    seq![dark_shadow(500, 100, 4000, 6000, -1000), dark_shadow(0, 100, 2000, 4000, -2000)]
}

/// The large preset.
pub open spec fn large_shadows() -> Seq<BoxShadow> {
    seq![dark_shadow(0, 100, 10000, 15000, -3000), dark_shadow(0, 100, 4000, 6000, -4000)]
}

/// The extra-large preset.
pub open spec fn extra_large_shadows() -> Seq<BoxShadow> {
    seq![dark_shadow(0, 100, 20000, 25000, -5000), dark_shadow(0, 100, 8000, 10000, -6000)]
}

/// The doubly extra-large preset: one strong, wide shadow.
pub open spec fn huge_shadows() -> Seq<BoxShadow> {
    seq![dark_shadow(0, 250, 25000, 50000, -12000)]
}

/// A shadow of black at `hue` and `alpha` (thousandths), offset straight
/// down by `y` whole pixels, with radii in whole pixels.
fn make_dark_shadow(hue: i32, alpha: i32, y: i32, blur: i32, spread: i32) -> (r: BoxShadow)
    requires
        0 <= y <= 100,
        0 <= blur <= 100,
        -100 <= spread <= 0,
    ensures
        r == dark_shadow(hue as int, alpha as int, y * 1000, blur * 1000, spread * 1000),
{
    BoxShadow {
        color: hsla(hue, 0, 0, alpha),
        offset: point(px(0), px(y)),
        blur_radius: px(blur),
        spread_radius: px(spread),
    }
}

impl ShadowList {
    /// A list of the one shadow `a`.
    fn one(a: BoxShadow) -> (r: ShadowList)
        ensures
            r@ == seq![a],
    {
        let mut r = ShadowList::new();
        r.push(a);
        r
    }

    /// A list of the shadows `a` and `b`, in that order.
    fn two(a: BoxShadow, b: BoxShadow) -> (r: ShadowList)
        ensures
            r@ == seq![a, b],
    {
        let mut r = ShadowList::new();
        r.push(a);
        r.push(b);
        r
    }

    /// The small preset.
    pub fn small() -> (r: ShadowList)
        ensures
            r@ == small_shadows(),
    {
        ShadowList::one(make_dark_shadow(0, 50, 1, 2, 0))
    }

    /// The medium preset.
    pub fn medium() -> (r: ShadowList)
        ensures
            r@ == medium_shadows(),
    {
        ShadowList::two(make_dark_shadow(500, 100, 4, 6, -1), make_dark_shadow(0, 100, 2, 4, -2))
    }

    /// The large preset.
    pub fn large() -> (r: ShadowList)
        ensures
            r@ == large_shadows(),
    {
        ShadowList::two(make_dark_shadow(0, 100, 10, 15, -3), make_dark_shadow(0, 100, 4, 6, -4))
    }

    /// The extra-large preset.
    pub fn extra_large() -> (r: ShadowList)
        ensures
            r@ == extra_large_shadows(),
    {
        ShadowList::two(make_dark_shadow(0, 100, 20, 25, -5), make_dark_shadow(0, 100, 8, 10, -6))
    }

    /// The doubly extra-large preset.
    pub fn huge() -> (r: ShadowList)
        ensures
            r@ == huge_shadows(),
    {
        ShadowList::one(make_dark_shadow(0, 250, 25, 50, -12))
    }
}

} // verus!
