//! Bounding boxes in frame pixel coordinates.

use vstd::prelude::*;

verus! {

/// An axis-aligned rectangle: top-left corner, width and height, in pixels.
#[derive(Clone, Copy, Debug, PartialEq, Eq, Structural)]
pub struct BoundingBox {
    pub x: i32,
    pub y: i32,
    pub width: i32,
    pub height: i32,
}

/// The larger of two numbers.
pub open spec fn larger(a: int, b: int) -> int {
    if a >= b { a } else { b }
}

/// The smaller of two numbers.
pub open spec fn smaller(a: int, b: int) -> int {
    if a <= b { a } else { b }
}

impl BoundingBox {
    /// One past the rightmost column covered by the box.
    pub open spec fn right(self) -> int {
        self.x + self.width
    }

    /// One past the lowest row covered by the box.
    pub open spec fn bottom(self) -> int {
        self.y + self.height
    }

    /// A box covers at least one pixel.
    pub open spec fn is_valid(self) -> bool {
        self.width > 0 && self.height > 0
    }

    /// The box is valid and lies inside a frame of the given size.
    pub open spec fn within(self, frame_width: int, frame_height: int) -> bool {
        &&& self.is_valid()
        &&& 0 <= self.x
        &&& 0 <= self.y
        &&& self.right() <= frame_width
        &&& self.bottom() <= frame_height
    }

    /// The pixel at column `px`, row `py` is covered by the box.
    pub open spec fn covers(self, px: int, py: int) -> bool {
        self.x <= px < self.right() && self.y <= py < self.bottom()
    }

    /// The part of the box that lies inside the frame, if any pixel of it does.
    pub open spec fn clamped(self, frame_width: int, frame_height: int) -> Option<BoundingBox> {
        let left = larger(self.x as int, 0);
        let top = larger(self.y as int, 0);
        let right = smaller(self.right(), frame_width);
        let bottom = smaller(self.bottom(), frame_height);
        if self.is_valid() && left < right && top < bottom {
            Some(
                BoundingBox {
                    x: left as i32,
                    y: top as i32,
                    width: (right - left) as i32,
                    height: (bottom - top) as i32,
                },
            )
        } else {
            None
        }
    }

    /// Builds a box from its corner and size.
    pub fn new(x: i32, y: i32, width: i32, height: i32) -> (out: BoundingBox)
        ensures
            out == (BoundingBox { x, y, width, height }),
    {
        BoundingBox { x, y, width, height }
    }

    /// Cuts the box down to the frame. Returns `None` for a box without area
    /// and for one that has no pixel in common with the frame.
    pub fn clamp_to(&self, frame_width: i32, frame_height: i32) -> (out: Option<BoundingBox>)
        ensures
            out == self.clamped(frame_width as int, frame_height as int),
            out is Some <==> exists|px: int, py: int|
                0 <= px < frame_width && 0 <= py < frame_height && #[trigger] self.covers(px, py),
            out matches Some(b) ==> b.within(frame_width as int, frame_height as int),
    {
        proof {
            lemma_clamped_overlap(*self, frame_width as int, frame_height as int);
        }
        if self.width <= 0 || self.height <= 0 {
            return None;
        }
        let right: i64 = self.x as i64 + self.width as i64;
        let bottom: i64 = self.y as i64 + self.height as i64;
        let left: i64 = if self.x >= 0 { self.x as i64 } else { 0 };
        let top: i64 = if self.y >= 0 { self.y as i64 } else { 0 };
        let right: i64 = if right <= frame_width as i64 { right } else { frame_width as i64 };
        let bottom: i64 = if bottom <= frame_height as i64 { bottom } else { frame_height as i64 };
        if left < right && top < bottom {
            Some(
                BoundingBox {
                    x: left as i32,
                    y: top as i32,
                    width: (right - left) as i32,
                    height: (bottom - top) as i32,
                },
            )
        } else {
            None
        }
    }
}

/// A box survives clamping exactly when it shares a pixel with the frame.
pub proof fn lemma_clamped_overlap(b: BoundingBox, frame_width: int, frame_height: int)
    ensures
        b.clamped(frame_width, frame_height) is Some <==> exists|px: int, py: int|
            0 <= px < frame_width && 0 <= py < frame_height && #[trigger] b.covers(px, py),
{
    let left = larger(b.x as int, 0);
    let top = larger(b.y as int, 0);
    if b.clamped(frame_width, frame_height) is Some {
        assert(0 <= left < frame_width && 0 <= top < frame_height && b.covers(left, top));
    }
}

/// Clamping a box that already lies inside the frame changes nothing, and
/// clamping twice gives what clamping once gives.
pub proof fn lemma_clamped_settles(b: BoundingBox, frame_width: int, frame_height: int)
    ensures
        b.within(frame_width, frame_height) ==> b.clamped(frame_width, frame_height) == Some(b),
        b.clamped(frame_width, frame_height) matches Some(c) ==> {
            &&& c.within(frame_width, frame_height)
            &&& c.clamped(frame_width, frame_height) == Some(c)
            &&& forall|px: int, py: int| #[trigger]
                c.covers(px, py) <==> b.covers(px, py) && 0 <= px < frame_width && 0 <= py
                    < frame_height
        },
{
}

/// The boxes of `boxes` that reach into the frame, each cut down to it, in
/// the order in which they came.
pub open spec fn clamped_all(boxes: Seq<BoundingBox>, frame_width: int, frame_height: int) -> Seq<
    BoundingBox,
>
    decreases boxes.len(),
{
    if boxes.len() == 0 {
        Seq::empty()
    } else {
        let earlier = clamped_all(boxes.drop_last(), frame_width, frame_height);
        match boxes.last().clamped(frame_width, frame_height) {
            Some(b) => earlier.push(b),
            None => earlier,
        }
    }
}

/// Every box that `clamped_all` keeps lies inside the frame, and none is added.
pub proof fn lemma_clamped_all_within(boxes: Seq<BoundingBox>, frame_width: int, frame_height: int)
    ensures
        clamped_all(boxes, frame_width, frame_height).len() <= boxes.len(),
        forall|i: int|
            0 <= i < clamped_all(boxes, frame_width, frame_height).len() ==> (
            #[trigger] clamped_all(boxes, frame_width, frame_height)[i]).within(
                frame_width,
                frame_height,
            ),
    decreases boxes.len(),
{
    if boxes.len() > 0 {
        lemma_clamped_all_within(boxes.drop_last(), frame_width, frame_height);
        lemma_clamped_settles(boxes.last(), frame_width, frame_height);
    }
}

/// Boxes that all lie inside the frame pass through `clamped_all` unchanged.
pub proof fn lemma_clamped_all_keeps_inner(
    boxes: Seq<BoundingBox>,
    frame_width: int,
    frame_height: int,
)
    requires
        forall|i: int| 0 <= i < boxes.len() ==> (#[trigger] boxes[i]).within(frame_width, frame_height),
    ensures
        clamped_all(boxes, frame_width, frame_height) == boxes,
    decreases boxes.len(),
{
    if boxes.len() > 0 {
        lemma_clamped_all_keeps_inner(boxes.drop_last(), frame_width, frame_height);
        lemma_clamped_settles(boxes.last(), frame_width, frame_height);
        assert(boxes.drop_last().push(boxes.last()) =~= boxes);
    } else {
        assert(boxes =~= Seq::empty());
    }
}

/// Clamping a whole detection set twice gives what clamping it once gives.
pub proof fn lemma_clamped_all_settles(boxes: Seq<BoundingBox>, frame_width: int, frame_height: int)
    ensures
        clamped_all(clamped_all(boxes, frame_width, frame_height), frame_width, frame_height)
            == clamped_all(boxes, frame_width, frame_height),
{
    lemma_clamped_all_within(boxes, frame_width, frame_height);
    lemma_clamped_all_keeps_inner(
        clamped_all(boxes, frame_width, frame_height),
        frame_width,
        frame_height,
    );
}

/// Prepares a detection set for drawing on a frame of the given size: boxes
/// without area or wholly outside the frame are dropped, the others are cut
/// down to the frame. The order of the remaining boxes is kept.
pub fn clamp_boxes(boxes: &Vec<BoundingBox>, frame_width: i32, frame_height: i32) -> (out: Vec<
    BoundingBox,
>)
    ensures
        out@ == clamped_all(boxes@, frame_width as int, frame_height as int),
        out@.len() <= boxes@.len(),
        forall|i: int|
            0 <= i < out@.len() ==> (#[trigger] out@[i]).within(
                frame_width as int,
                frame_height as int,
            ),
{
    let mut out: Vec<BoundingBox> = Vec::new();
    let mut i: usize = 0;
    while i < boxes.len()
        invariant
            i <= boxes@.len(),
            out@ == clamped_all(boxes@.take(i as int), frame_width as int, frame_height as int),
        decreases boxes@.len() - i,
    {
        proof {
            assert(boxes@.take(i + 1).drop_last() =~= boxes@.take(i as int));
            assert(boxes@.take(i + 1).last() == boxes@[i as int]);
        }
        match boxes[i].clamp_to(frame_width, frame_height) {
            Some(b) => {
                out.push(b);
            },
            None => {},
        }
        i = i + 1;
    }
    proof {
        assert(boxes@.take(i as int) =~= boxes@);
        lemma_clamped_all_within(boxes@, frame_width as int, frame_height as int);
    }
    out
}

} // verus!
