//! Geometric data: tagged points, vectors and sizes, and the camera's view
//! descriptor.
//!
//! The coordinate types are generic over a phantom space tag so that world,
//! screen and viewport coordinates cannot be mixed up, in the style of the
//! strongly typed geometry libraries this viewer is built around.

use vstd::prelude::*;

use core::marker::PhantomData;

verus! {

use crate::rational::{Rat, ratio_int, ratio_le, ratio_lt};

/// Tag for pixel coordinates of the rendering surface.
#[derive(Clone, Copy, Debug)]
pub struct ScreenSpace;

/// Tag for the unbounded coordinate system scene geometry is authored in.
#[derive(Clone, Copy, Debug)]
pub struct WorldSpace;

/// Tag for normalised `[-1, 1]`-style device-independent coordinates.
#[derive(Clone, Copy, Debug)]
pub struct ViewportSpace;

/// A point in the coordinate space tagged `S`.
#[derive(Debug)]
pub struct Point2<S> {
    pub x: Rat,
    pub y: Rat,
    pub _space: PhantomData<S>,
}

/// A displacement in the coordinate space tagged `S`.
#[derive(Debug)]
pub struct Vector2<S> {
    pub x: Rat,
    pub y: Rat,
    pub _space: PhantomData<S>,
}

/// An extent in the coordinate space tagged `S`.
#[derive(Debug)]
pub struct Size2<S> {
    pub width: Rat,
    pub height: Rat,
    pub _space: PhantomData<S>,
}

impl<S> Clone for Point2<S> {
    fn clone(&self) -> (r: Self)
        ensures
            r == *self,
    {
        Point2 { x: self.x, y: self.y, _space: PhantomData }
    }
}

impl<S> Copy for Point2<S> {

}

impl<S> Clone for Vector2<S> {
    fn clone(&self) -> (r: Self)
        ensures
            r == *self,
    {
        Vector2 { x: self.x, y: self.y, _space: PhantomData }
    }
}

impl<S> Copy for Vector2<S> {

}

impl<S> Clone for Size2<S> {
    fn clone(&self) -> (r: Self)
        ensures
            r == *self,
    {
        Size2 { width: self.width, height: self.height, _space: PhantomData }
    }
}

impl<S> Copy for Size2<S> {

}

pub type ScreenPoint = Point2<ScreenSpace>;

pub type ScreenSize = Size2<ScreenSpace>;

pub type WorldPoint = Point2<WorldSpace>;

pub type WorldSize = Size2<WorldSpace>;

pub type WorldVector = Vector2<WorldSpace>;

pub type ViewportPoint = Point2<ViewportSpace>;

impl<S> Point2<S> {
    /// Both coordinates are stored well-formed rationals.
    pub open spec fn wf(self) -> bool {
        self.x.wf() && self.y.wf()
    }

    /// The point `(x, y)`.
    pub fn new(x: Rat, y: Rat) -> (r: Point2<S>)
        ensures
            r.x == x,
            r.y == y,
    {
        Point2 { x, y, _space: PhantomData }
    }

    /// The origin.
    pub fn origin() -> (r: Point2<S>)
        ensures
            r.wf(),
            r.x@ == ratio_int(0),
            r.y@ == ratio_int(0),
    {
        Point2 { x: Rat::from_i32(0), y: Rat::from_i32(0), _space: PhantomData }
    }
}

impl<S> Vector2<S> {
    /// Both components are stored well-formed rationals.
    pub open spec fn wf(self) -> bool {
        self.x.wf() && self.y.wf()
    }

    /// The vector `(x, y)`.
    pub fn new(x: Rat, y: Rat) -> (r: Vector2<S>)
        ensures
            r.x == x,
            r.y == y,
    {
        Vector2 { x, y, _space: PhantomData }
    }

    /// The zero vector.
    pub fn zero() -> (r: Vector2<S>)
        ensures
            r.wf(),
            r.x@ == ratio_int(0),
            r.y@ == ratio_int(0),
    {
        Vector2 { x: Rat::from_i32(0), y: Rat::from_i32(0), _space: PhantomData }
    }
}

impl<S> Size2<S> {
    /// Both extents are stored well-formed rationals.
    pub open spec fn wf(self) -> bool {
        self.width.wf() && self.height.wf()
    }

    /// Both extents are nonnegative.
    pub open spec fn nonneg(self) -> bool {
        ratio_le(ratio_int(0), self.width@) && ratio_le(ratio_int(0), self.height@)
    }

    /// Both extents are strictly positive.
    pub open spec fn positive(self) -> bool {
        ratio_lt(ratio_int(0), self.width@) && ratio_lt(ratio_int(0), self.height@)
    }

    /// The size `width` by `height`.
    pub fn new(width: Rat, height: Rat) -> (r: Size2<S>)
        ensures
            r.width == width,
            r.height == height,
    {
        Size2 { width, height, _space: PhantomData }
    }

    /// A size taken from whole pixel counts.
    pub fn from_pixels(width: u32, height: u32) -> (r: Size2<S>)
        ensures
            r.wf(),
            r.nonneg(),
            r.width@ == ratio_int(width as int),
            r.height@ == ratio_int(height as int),
            width > 0 && height > 0 ==> r.positive(),
    {
        Size2 { width: Rat::from_u32(width), height: Rat::from_u32(height), _space: PhantomData }
    }
}

/// The camera state: where the view is centred, how large the rendering
/// surface currently is (in pixels, as last observed), and the scale as
/// world units per screen pixel — larger means more world per pixel, that
/// is, zoomed further out.
#[derive(Clone, Copy, Debug)]
pub struct ViewData {
    pub center: WorldPoint,
    pub size: ScreenSize,
    pub pixel_size: Rat,
}

impl ViewData {
    /// The view invariant: components stored well-formed, the viewport never
    /// negative, the scale strictly positive.
    pub open spec fn wf(self) -> bool {
        &&& self.center.wf()
        &&& self.size.wf()
        &&& self.size.nonneg()
        &&& self.pixel_size.wf()
        &&& ratio_lt(ratio_int(0), self.pixel_size@)
    }

    /// The initial camera: centred on the origin at scale one, with the
    /// given surface size.
    pub fn new(width: u32, height: u32) -> (r: ViewData)
        ensures
            r.wf(),
            r.center.x@ == ratio_int(0),
            r.center.y@ == ratio_int(0),
            r.size.width@ == ratio_int(width as int),
            r.size.height@ == ratio_int(height as int),
            r.pixel_size@ == ratio_int(1),
    {
        ViewData {
            center: Point2::origin(),
            size: Size2::from_pixels(width, height),
            pixel_size: Rat::from_i32(1),
        }
    }
}

impl Default for ViewData {
    /// The initial camera before any surface size is known: origin centre,
    /// zero-sized viewport, scale one.
    fn default() -> (r: ViewData)
        ensures
            r.wf(),
            r.center.x@ == ratio_int(0),
            r.center.y@ == ratio_int(0),
            r.size.width@ == ratio_int(0),
            r.size.height@ == ratio_int(0),
            r.pixel_size@ == ratio_int(1),
    {
        ViewData::new(0, 0)
    }
}

} // verus!
