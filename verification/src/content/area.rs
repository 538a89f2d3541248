//! Axis-aligned bounding box over pixel coordinates.
use super::{ContentError, Size};
use vstd::prelude::*;
use vstd::std_specs::convert::TryFromSpecImpl;

verus! {

/// Raw corner coordinates of a bounding box. Both corners belong to the box.
#[derive(Debug, Clone, Copy, PartialEq, Eq, Structural)]
pub struct AreaValues {
    /// min `x` coordinate value
    pub x1: u16,
    /// min `y` coordinate value
    pub y1: u16,
    /// max `x` coordinate value
    pub x2: u16,
    /// max `y` coordinate value
    pub y2: u16,
}

/// Location at which to display the subtitle, in pixel coordinates.
///
/// An `Area` made by [`Area::try_from`] is well formed ([`Area::wf`]):
/// `x2 > x1` and `y2 > y1`. [`Area::extend`] keeps it so.
#[derive(Debug, Clone, Copy, PartialEq, Eq, Structural)]
pub struct Area(pub AreaValues);

impl AreaValues {
    /// The bounds that [`Area::try_from`] accepts.
    pub open spec fn valid(self) -> bool {
        self.x2 > self.x1 && self.y2 > self.y1
    }
}

impl Area {
    /// Well-formedness: the box is at least two pixels wide and two high.
    pub open spec fn wf(self) -> bool {
        self.0.valid()
    }

    /// The pixel `(x, y)` lies in the box, corners included.
    pub open spec fn has_point(self, x: int, y: int) -> bool {
        self.0.x1 <= x <= self.0.x2 && self.0.y1 <= y <= self.0.y2
    }

    /// Number of pixel columns of the box.
    pub open spec fn spec_width(self) -> int {
        self.0.x2 + 1 - self.0.x1
    }

    /// Number of pixel rows of the box.
    pub open spec fn spec_height(self) -> int {
        self.0.y2 + 1 - self.0.y1
    }

    /// The row ranges of the two boxes overlap.
    pub open spec fn overlaps_y(self, area: Self) -> bool {
        self.0.y1 <= area.0.y2 && self.0.y2 >= area.0.y1
    }

    /// The column ranges and the row ranges of the two boxes overlap.
    pub open spec fn overlaps(self, area: Self) -> bool {
        self.0.x1 <= area.0.x2 && self.0.x2 >= area.0.x1 && self.overlaps_y(area)
    }

    /// `area` lies within the bounds of `self` on both axes.
    pub open spec fn encloses(self, area: Self) -> bool {
        self.0.x1 <= area.0.x1 && self.0.x2 >= area.0.x2 && self.0.y1 <= area.0.y1 && self.0.y2
            >= area.0.y2
    }

    /// The smallest box that covers `self` and `area`.
    pub open spec fn cover(self, area: Self) -> Self {
        Area(
            AreaValues {
                x1: if self.0.x1 <= area.0.x1 {
                    self.0.x1
                } else {
                    area.0.x1
                },
                y1: if self.0.y1 <= area.0.y1 {
                    self.0.y1
                } else {
                    area.0.y1
                },
                x2: if self.0.x2 >= area.0.x2 {
                    self.0.x2
                } else {
                    area.0.x2
                },
                y2: if self.0.y2 >= area.0.y2 {
                    self.0.y2
                } else {
                    area.0.y2
                },
            },
        )
    }

    /// What construction from raw bounds gives: the box on valid bounds, the
    /// bounding error on all others.
    pub open spec fn checked(v: AreaValues) -> Result<Self, ContentError> {
        if v.valid() {
            Ok(Area(v))
        } else {
            Err(ContentError::InvalidAreaBounding)
        }
    }

    /// The leftmost edge of the subtitle.
    #[must_use]
    pub fn left(&self) -> (x: u16)
        ensures
            x == self.0.x1,
    {
        self.0.x1
    }

    /// The topmost edge of the subtitle.
    #[must_use]
    pub fn top(&self) -> (y: u16)
        ensures
            y == self.0.y1,
    {
        self.0.y1
    }

    /// The width of the subtitle: `x2 + 1 - x1`.
    ///
    /// The one well-formed box whose width does not fit the result type spans
    /// all 65536 columns; it is left out.
    #[must_use]
    pub fn width(&self) -> (w: u16)
        requires
            self.wf(),
            self.spec_width() <= u16::MAX,
        ensures
            w == self.spec_width(),
            w >= 2,
    {
        self.0.x2 - self.0.x1 + 1
    }

    /// The height of the subtitle: `y2 + 1 - y1`.
    ///
    /// The one well-formed box whose height does not fit the result type spans
    /// all 65536 rows; it is left out.
    #[must_use]
    pub fn height(&self) -> (h: u16)
        requires
            self.wf(),
            self.spec_height() <= u16::MAX,
        ensures
            h == self.spec_height(),
            h >= 2,
    {
        self.0.y2 - self.0.y1 + 1
    }

    /// The size of the subtitle.
    #[must_use]
    pub fn size(&self) -> (s: Size)
        requires
            self.wf(),
        ensures
            s.w == self.spec_width(),
            s.h == self.spec_height(),
    {
        let w: usize = (self.0.x2 - self.0.x1) as usize + 1;
        let h: usize = (self.0.y2 - self.0.y1) as usize + 1;
        Size { w, h }
    }

    /// Indicate if the provided `Area` intersect with self.
    #[must_use]
    pub fn intersect(&self, area: Self) -> (r: bool)
        ensures
            r == self.overlaps(area),
    {
        self.0.x1 <= area.0.x2 && self.0.x2 >= area.0.x1 && self.0.y1 <= area.0.y2 && self.0.y2
            >= area.0.y1
    }

    /// Indicate if the provided `Area` intersect on `y` axis with self.
    #[must_use]
    pub fn intersect_y(&self, area: Self) -> (r: bool)
        ensures
            r == self.overlaps_y(area),
    {
        self.0.y1 <= area.0.y2 && self.0.y2 >= area.0.y1
    }

    /// Indicate if the provided `Area` is contained in self bounds.
    #[must_use]
    pub fn contains(&self, area: Self) -> (r: bool)
        ensures
            r == self.encloses(area),
    {
        self.0.x1 <= area.0.x1 && self.0.x2 >= area.0.x2 && self.0.y1 <= area.0.y1 && self.0.y2
            >= area.0.y2
    }

    /// Extend the area to cover an other `Area` too.
    pub fn extend(&mut self, area: Self)
        ensures
            *final(self) == old(self).cover(area),
            old(self).wf() || area.wf() ==> final(self).wf(),
    {
        if area.0.x1 < self.0.x1 {
            self.0.x1 = area.0.x1;
        }
        if area.0.y1 < self.0.y1 {
            self.0.y1 = area.0.y1;
        }
        if area.0.x2 > self.0.x2 {
            self.0.x2 = area.0.x2;
        }
        if area.0.y2 > self.0.y2 {
            self.0.y2 = area.0.y2;
        }
    }
}

impl TryFrom<AreaValues> for Area {
    type Error = ContentError;

    /// Checks the bounds once, so that every later computation on the box can
    /// rely on a positive width and height.
    fn try_from(coords_value: AreaValues) -> (r: Result<Self, Self::Error>)
        ensures
            r == Area::checked(coords_value),
    {
        if coords_value.x2 <= coords_value.x1 || coords_value.y2 <= coords_value.y1 {
            Err(ContentError::InvalidAreaBounding)
        } else {
            Ok(Self(coords_value))
        }
    }
}

impl TryFromSpecImpl<AreaValues> for Area {
    open spec fn obeys_try_from_spec() -> bool {
        true
    }

    open spec fn try_from_spec(v: AreaValues) -> Result<Self, Self::Error> {
        Area::checked(v)
    }
}

/// Construction succeeds exactly on valid bounds, and the box then has the
/// width `x2 + 1 - x1` and the height `y2 + 1 - y1`, both at least 2.
pub proof fn lemma_try_from_valid(v: AreaValues)
    ensures
        <Area as vstd::std_specs::convert::TryFromSpec<AreaValues>>::try_from_spec(v)
            == Area::checked(v),
        v.x2 > v.x1 && v.y2 > v.y1 ==> Area::checked(v) == Ok::<Area, ContentError>(Area(v))
            && Area(v).wf() && Area(v).spec_width() == v.x2 + 1 - v.x1 && Area(v).spec_height()
            == v.y2 + 1 - v.y1 && Area(v).spec_width() >= 2 && Area(v).spec_height() >= 2,
        !(v.x2 > v.x1 && v.y2 > v.y1) ==> Area::checked(v) == Err::<Area, ContentError>(
            ContentError::InvalidAreaBounding,
        ),
{
}

/// Every well-formed box intersects itself.
pub proof fn lemma_intersect_reflexive(a: Area)
    requires
        a.wf(),
    ensures
        a.overlaps(a),
        a.overlaps_y(a),
{
}

/// Intersection does not depend on the order of the two boxes.
pub proof fn lemma_intersect_symmetric(a: Area, b: Area)
    ensures
        a.overlaps(b) == b.overlaps(a),
        a.overlaps_y(b) == b.overlaps_y(a),
{
}

/// Two well-formed boxes intersect exactly when they share a pixel.
pub proof fn lemma_intersect_shares_point(a: Area, b: Area)
    requires
        a.wf(),
        b.wf(),
    ensures
        a.overlaps(b) <==> exists|x: int, y: int| a.has_point(x, y) && b.has_point(x, y),
{
    if a.overlaps(b) {
        let x: int = if a.0.x1 >= b.0.x1 {
            a.0.x1 as int
        } else {
            b.0.x1 as int
        };
        let y: int = if a.0.y1 >= b.0.y1 {
            a.0.y1 as int
        } else {
            b.0.y1 as int
        };
        assert(a.has_point(x, y) && b.has_point(x, y));
    }
}

/// A box contains a well-formed box exactly when it holds each of its pixels.
pub proof fn lemma_contains_every_point(a: Area, b: Area)
    requires
        b.wf(),
    ensures
        a.encloses(b) <==> forall|x: int, y: int| b.has_point(x, y) ==> a.has_point(x, y),
{
    if forall|x: int, y: int| b.has_point(x, y) ==> a.has_point(x, y) {
        assert(b.has_point(b.0.x1 as int, b.0.y1 as int));
        assert(b.has_point(b.0.x2 as int, b.0.y2 as int));
    }
}

/// The extension of `a` by `b` contains both, and every box that contains both
/// contains the extension: it is the smallest cover.
pub proof fn lemma_cover_is_smallest(a: Area, b: Area, c: Area)
    ensures
        a.cover(b).encloses(a),
        a.cover(b).encloses(b),
        c.encloses(a) && c.encloses(b) ==> c.encloses(a.cover(b)),
        a.cover(b) == b.cover(a),
{
}

} // verus!
