//! Rectangles in whole pixels, and the box that holds every frame of an
//! animation.

use vstd::prelude::*;
use crate::export::MAX_EXACT_EXTENT;
use crate::sheet::{Animation, AnimationFrameModel, AnimationModel};
use crate::texture_cache::{CacheEntry, CacheEntryState, TextureCache, TextureCacheResult, entry_for};

verus! {

/// A rectangle: its top-left corner and its size.
#[derive(Clone, Copy, Debug)]
pub struct IntRect {
    pub origin: (i32, i32),
    pub size: (i32, i32),
}

/// Why no bounding box could be computed.
#[derive(Clone, Copy, Debug, PartialEq, Eq, Structural)]
pub enum BoundingBoxError {
    EmptyAnimation,
    FrameDataNotLoaded,
}

/// The rectangle that holds every frame of an animation.
#[derive(Clone, Copy, Debug)]
pub struct BoundingBox {
    pub rect: IntRect,
}

pub open spec fn min2(a: int, b: int) -> int {
    if a <= b {
        a
    } else {
        b
    }
}

pub open spec fn max2(a: int, b: int) -> int {
    if a <= b {
        b
    } else {
        a
    }
}

/// Whether a rectangle covers no area.
pub open spec fn is_empty(r: IntRect) -> bool {
    r.size.0 <= 0 || r.size.1 <= 0
}

/// The smallest rectangle that holds both rectangles; an empty one adds
/// nothing.
pub open spec fn union(a: IntRect, b: IntRect) -> IntRect {
    if is_empty(b) {
        a
    } else if is_empty(a) {
        b
    } else {
        let x0 = min2(a.origin.0 as int, b.origin.0 as int);
        let y0 = min2(a.origin.1 as int, b.origin.1 as int);
        let x1 = max2(a.origin.0 + a.size.0, b.origin.0 + b.size.0);
        let y1 = max2(a.origin.1 + a.size.1, b.origin.1 + b.size.1);
        IntRect { origin: (x0 as i32, y0 as i32), size: ((x1 - x0) as i32, (y1 - y0) as i32) }
    }
}

/// Whether the union of the two rectangles can be computed in `i32`s.
pub open spec fn union_fits(a: IntRect, b: IntRect) -> bool {
    let x1 = max2(a.origin.0 + a.size.0, b.origin.0 + b.size.0);
    let y1 = max2(a.origin.1 + a.size.1, b.origin.1 + b.size.1);
    &&& i32::MIN <= a.origin.0 + a.size.0 <= i32::MAX
    &&& i32::MIN <= a.origin.1 + a.size.1 <= i32::MAX
    &&& i32::MIN <= b.origin.0 + b.size.0 <= i32::MAX
    &&& i32::MIN <= b.origin.1 + b.size.1 <= i32::MAX
    &&& x1 - min2(a.origin.0 as int, b.origin.0 as int) <= i32::MAX
    &&& y1 - min2(a.origin.1 as int, b.origin.1 as int) <= i32::MAX
}

fn min_i64(a: i64, b: i64) -> (r: i64)
    ensures
        r == min2(a as int, b as int),
{
    if a <= b {
        a
    } else {
        b
    }
}

fn max_i64(a: i64, b: i64) -> (r: i64)
    ensures
        r == max2(a as int, b as int),
{
    if a <= b {
        b
    } else {
        a
    }
}

/// Computes `union`.
pub fn rect_union(a: IntRect, b: IntRect) -> (r: IntRect)
    requires
        !is_empty(a) && !is_empty(b) ==> union_fits(a, b),
    ensures
        r == union(a, b),
{
    if b.size.0 <= 0 || b.size.1 <= 0 {
        return a;
    }
    if a.size.0 <= 0 || a.size.1 <= 0 {
        return b;
    }
    let x0 = min_i64(a.origin.0 as i64, b.origin.0 as i64);
    let y0 = min_i64(a.origin.1 as i64, b.origin.1 as i64);
    let x1 = max_i64(a.origin.0 as i64 + a.size.0 as i64, b.origin.0 as i64 + b.size.0 as i64);
    let y1 = max_i64(a.origin.1 as i64 + a.size.1 as i64, b.origin.1 as i64 + b.size.1 as i64);
    IntRect { origin: (x0 as i32, y0 as i32), size: ((x1 - x0) as i32, (y1 - y0) as i32) }
}

/// The rectangle centered on the origin that holds the rectangle and its
/// mirror image through the origin: on each axis it reaches as far from the
/// origin, on both sides, as the farthest edge did.
pub open spec fn centered_on_origin(r: IntRect) -> IntRect {
    let ox = r.origin.0 as int;
    let oy = r.origin.1 as int;
    let mx = ox + r.size.0;
    let my = oy + r.size.1;
    let w = 2 * max2(max2(ox, -ox), max2(mx, -mx));
    let h = 2 * max2(max2(oy, -oy), max2(my, -my));
    IntRect { origin: ((-(w / 2)) as i32, (-(h / 2)) as i32), size: (w as i32, h as i32) }
}

/// Whether centering the rectangle stays within `i32`s.
pub open spec fn centering_fits(r: IntRect) -> bool {
    let ox = r.origin.0 as int;
    let oy = r.origin.1 as int;
    let mx = ox + r.size.0;
    let my = oy + r.size.1;
    &&& i32::MIN < ox && i32::MIN < oy
    &&& i32::MIN < mx <= i32::MAX && i32::MIN < my <= i32::MAX
    &&& 2 * max2(max2(ox, -ox), max2(mx, -mx)) <= i32::MAX
    &&& 2 * max2(max2(oy, -oy), max2(my, -my)) <= i32::MAX
}

fn extent(o: i32, s: i32) -> (r: i64)
    requires
        i32::MIN < o,
        i32::MIN < o + s <= i32::MAX,
    ensures
        r == 2 * max2(max2(o as int, -o), max2(o + s, -(o + s))),
{
    let o = o as i64;
    let m = o + s as i64;
    let a = max_i64(o, -o);
    let b = max_i64(m, -m);
    2 * max_i64(a, b)
}

impl BoundingBox {
    pub fn center_on_origin(&mut self)
        requires
            centering_fits(old(self).rect),
        ensures
            final(self).rect == centered_on_origin(old(self).rect),
    {
        let w = extent(self.rect.origin.0, self.rect.size.0);
        let h = extent(self.rect.origin.1, self.rect.size.1);
        self.rect = IntRect {
            origin: ((-(w / 2)) as i32, (-(h / 2)) as i32),
            size: (w as i32, h as i32),
        };
    }
}

/// The size of the image at `path`, where the cache holds it loaded.
pub open spec fn loaded_size(cache: Seq<(Seq<char>, CacheEntry)>, path: Seq<char>) -> Option<(u32, u32)> {
    match entry_for(cache, path) {
        Some(e) => match e.state {
            CacheEntryState::Loaded(t) => Some(t.size),
            _ => None,
        },
        None => None,
    }
}

/// The rectangle that a frame of an animation covers, its image being of
/// `size`.
pub open spec fn frame_rect(f: AnimationFrameModel, size: (u32, u32)) -> IntRect {
    IntRect { origin: f.offset, size: (size.0 as i32, size.1 as i32) }
}

/// Whether every frame of `timeline` up to `n` is loaded.
pub open spec fn all_loaded(
    timeline: Seq<AnimationFrameModel>,
    sizes: Seq<(Seq<char>, CacheEntry)>,
    n: int,
) -> bool {
    forall|i: int| 0 <= i < n ==> #[trigger] loaded_size(sizes, timeline[i].frame) is Some
}

/// The union of the rectangles of the first `n` frames of `timeline`.
pub open spec fn frames_union(
    timeline: Seq<AnimationFrameModel>,
    sizes: Seq<(Seq<char>, CacheEntry)>,
    n: int,
) -> IntRect
    decreases n,
{
    if n <= 0 {
        IntRect { origin: (0, 0), size: (0, 0) }
    } else {
        union(
            frames_union(timeline, sizes, n - 1),
            frame_rect(timeline[n - 1], loaded_size(sizes, timeline[n - 1].frame).unwrap()),
        )
    }
}

/// Whether every union met while computing the bounding box of the first
/// `n` frames fits in `i32`s, as far as the frames are loaded.
pub open spec fn frames_union_fits(
    timeline: Seq<AnimationFrameModel>,
    sizes: Seq<(Seq<char>, CacheEntry)>,
    n: int,
) -> bool
    decreases n,
{
    if n <= 0 {
        true
    } else {
        let size = loaded_size(sizes, timeline[n - 1].frame).unwrap();
        &&& frames_union_fits(timeline, sizes, n - 1)
        &&& all_loaded(timeline, sizes, n) ==> {
            &&& size.0 <= MAX_EXACT_EXTENT && size.1 <= MAX_EXACT_EXTENT
            &&& union_fits(frames_union(timeline, sizes, n - 1), frame_rect(timeline[n - 1], size))
        }
    }
}

proof fn lemma_fits_prefix(
    timeline: Seq<AnimationFrameModel>,
    sizes: Seq<(Seq<char>, CacheEntry)>,
    n: int,
    m: int,
)
    requires
        0 <= m <= n,
        frames_union_fits(timeline, sizes, n),
    ensures
        frames_union_fits(timeline, sizes, m),
    decreases n - m,
{
    if m < n {
        lemma_fits_prefix(timeline, sizes, n - 1, m);
    }
}

/// The bounding box of an animation's frames, or why there is none.
pub open spec fn bounding_box(animation: AnimationModel, sizes: Seq<(Seq<char>, CacheEntry)>) -> Result<
    IntRect,
    BoundingBoxError,
> {
    if animation.timeline.len() == 0 {
        Err(BoundingBoxError::EmptyAnimation)
    } else if !all_loaded(animation.timeline, sizes, animation.timeline.len() as int) {
        Err(BoundingBoxError::FrameDataNotLoaded)
    } else {
        Ok(frames_union(animation.timeline, sizes, animation.timeline.len() as int))
    }
}

/// The bounding box of the frames of `animation`, each frame's image size
/// being looked up in the texture cache.
pub fn get_bounding_box(animation: &Animation, texture_cache: &TextureCache) -> (r: Result<
    BoundingBox,
    BoundingBoxError,
>)
    requires
        texture_cache.wf(),
        frames_union_fits(
            animation@.timeline,
            texture_cache@,
            animation@.timeline.len() as int,
        ),
    ensures
        match bounding_box(animation@, texture_cache@) {
            Ok(rect) => r == Ok::<BoundingBox, BoundingBoxError>(BoundingBox { rect }),
            Err(e) => r == Err::<BoundingBox, BoundingBoxError>(e),
        },
{
    let ghost tl = animation@.timeline;
    let ghost sizes = texture_cache@;
    if animation.timeline.len() == 0 {
        return Err(BoundingBoxError::EmptyAnimation);
    }
    let mut rect = IntRect { origin: (0, 0), size: (0, 0) };
    let mut i: usize = 0;
    while i < animation.timeline.len()
        invariant
            i <= animation.timeline.len(),
            tl == animation@.timeline,
            sizes == texture_cache@,
            texture_cache.wf(),
            all_loaded(tl, sizes, i as int),
            rect == frames_union(tl, sizes, i as int),
            frames_union_fits(tl, sizes, tl.len() as int),
        decreases animation.timeline.len() - i,
    {
        let frame = &animation.timeline[i];
        let size = match texture_cache.get(frame.frame.as_str()) {
            Some(TextureCacheResult::Loaded(t)) => t.size,
            _ => {
                assert(!all_loaded(tl, sizes, tl.len() as int)) by {
                    assert(loaded_size(sizes, tl[i as int].frame) is None);
                }
                return Err(BoundingBoxError::FrameDataNotLoaded);
            },
        };
        proof {
            lemma_fits_prefix(tl, sizes, tl.len() as int, i as int + 1);
            assert(all_loaded(tl, sizes, i as int + 1));
        }
        let covered = IntRect { origin: frame.offset, size: (size.0 as i32, size.1 as i32) };
        rect = rect_union(rect, covered);
        i += 1;
    }
    Ok(BoundingBox { rect })
}

} // verus!
