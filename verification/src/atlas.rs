//! The glyph atlas: a texture that starts without storage and doubles,
//! within fixed limits, each time a set of glyphs does not fit.
//!
//! Kept here is the size of the atlas and the rule by which it grows. The
//! texture and the rectangle packer are the caller's: it hands in a function
//! that packs and reports how that went, and is told through it when the
//! atlas has grown.

use vstd::prelude::*;
use crate::error::RenderError;
use crate::layout::GlyphRequest;
use crate::ratio::Ratio;

verus! {

/// Smallest side of an atlas that has storage.
pub const MIN_CACHE_SIZE: u32 = 256;

/// Largest side of an atlas.
pub const MAX_CACHE_SIZE: u32 = 2048;

/// The side that follows `side` when the atlas grows: twice as long, but no
/// shorter than `MIN_CACHE_SIZE` and no longer than `MAX_CACHE_SIZE`.
pub open spec fn grown_side(side: u32) -> u32 {
    if 2 * side < MIN_CACHE_SIZE {
        MIN_CACHE_SIZE
    } else if 2 * side > MAX_CACHE_SIZE {
        MAX_CACHE_SIZE
    } else {
        (2 * side) as u32
    }
}

/// Whether `side` is a side the atlas can have: none at all, or one within
/// the limits.
pub open spec fn valid_side(side: u32) -> bool {
    side == 0 || (MIN_CACHE_SIZE <= side && side <= MAX_CACHE_SIZE)
}

/// How many more times a side can grow before it reaches the limit.
pub open spec fn doublings_left(side: u32) -> nat {
    if side >= MAX_CACHE_SIZE {
        0
    } else if 2 * side >= MAX_CACHE_SIZE {
        1
    } else if 4 * side >= MAX_CACHE_SIZE {
        2
    } else if 8 * side >= MAX_CACHE_SIZE {
        3
    } else {
        4
    }
}

/// Whether both sides are sides an atlas can have.
pub open spec fn valid_dims(dims: (u32, u32)) -> bool {
    valid_side(dims.0) && valid_side(dims.1)
}

/// Whether both sides have reached the limit.
pub open spec fn at_limit(dims: (u32, u32)) -> bool {
    dims.0 >= MAX_CACHE_SIZE && dims.1 >= MAX_CACHE_SIZE
}

/// The size after one growth step.
pub open spec fn grown(dims: (u32, u32)) -> (u32, u32) {
    (grown_side(dims.0), grown_side(dims.1))
}

/// How many growth steps lie between an atlas of this size and the limit.
pub open spec fn growths_left(dims: (u32, u32)) -> nat {
    if doublings_left(dims.0) >= doublings_left(dims.1) {
        doublings_left(dims.0)
    } else {
        doublings_left(dims.1)
    }
}

/// The size after `n` growth steps, of which those at the limit change
/// nothing.
pub open spec fn after_growths(dims: (u32, u32), n: nat) -> (u32, u32)
    decreases n,
{
    if n == 0 {
        dims
    } else {
        let before = after_growths(dims, (n - 1) as nat);
        if at_limit(before) {
            before
        } else {
            grown(before)
        }
    }
}

fn next_side(side: u32) -> (r: u32)
    ensures
        r == grown_side(side),
{
    if side < MIN_CACHE_SIZE / 2 {
        MIN_CACHE_SIZE
    } else if side > MAX_CACHE_SIZE / 2 {
        MAX_CACHE_SIZE
    } else {
        2 * side
    }
}

/// The settings of the rectangle packer behind an atlas of a given size.
///
/// The two tolerances say how far the scale and the sub-pixel offset of a
/// requested glyph may lie from those of a glyph already in the atlas for the
/// request to be served by it.
#[derive(Clone, Copy, Debug, PartialEq, Eq, Structural)]
pub struct CacheConfig {
    pub width: u32,
    pub height: u32,
    pub scale_tolerance: Ratio,
    pub position_tolerance: Ratio,
    pub pad_glyphs: bool,
}

/// The packer's settings for an atlas of `width` by `height` texels: both
/// tolerances a quarter, and a texel of padding around each glyph.
pub open spec fn config_for(width: u32, height: u32) -> CacheConfig {
    CacheConfig {
        width,
        height,
        scale_tolerance: Ratio { num: 1, den: 4 },
        position_tolerance: Ratio { num: 1, den: 4 },
        pad_glyphs: true,
    }
}

/// How an attempt to pack the queued glyphs into the atlas ended.
#[derive(Clone, Copy, Debug, PartialEq, Eq, Structural)]
pub enum PackOutcome {
    /// Every queued glyph has its place.
    Packed,
    /// The atlas has no room for the whole queue.
    Overflow,
}

/// What is to be done after an attempt to pack.
#[derive(Clone, Copy, Debug, PartialEq, Eq, Structural)]
pub enum CacheStep {
    /// Nothing: the glyphs are in the atlas.
    Done,
    /// The atlas has grown. Its storage is to be replaced by an empty one of
    /// the new size, the packer by a fresh one with these settings, and all
    /// glyphs are to be queued and packed again.
    Retry(CacheConfig),
    /// The atlas cannot grow any more. The glyphs that found no place are
    /// left out; what was packed stays.
    Exhausted,
}

/// What follows an attempt to pack into an atlas of size `dims` that ended
/// with `outcome`.
pub open spec fn step_after(dims: (u32, u32), outcome: PackOutcome) -> CacheStep {
    match outcome {
        PackOutcome::Packed => CacheStep::Done,
        PackOutcome::Overflow => if at_limit(dims) {
            CacheStep::Exhausted
        } else {
            CacheStep::Retry(config_for(grown(dims).0, grown(dims).1))
        },
    }
}

/// The size of an atlas of size `dims` after an attempt to pack that ended
/// with `outcome`.
pub open spec fn dims_after(dims: (u32, u32), outcome: PackOutcome) -> (u32, u32) {
    if outcome == PackOutcome::Overflow && !at_limit(dims) {
        grown(dims)
    } else {
        dims
    }
}

/// What the packing function is handed at its attempt number `k`, counted
/// from zero, when the atlas had the size `start` at first: nothing at the
/// first attempt, and after that the settings for the atlas as it has grown.
pub open spec fn attempt_config(start: (u32, u32), k: nat) -> Option<CacheConfig> {
    if k == 0 {
        None
    } else {
        Some(config_for(after_growths(start, k).0, after_growths(start, k).1))
    }
}

/// Whether `pack` placed all of `glyphs` at its attempt number `growths`,
/// after as many growth steps, and at none before.
pub open spec fn packed_after<P: FnMut(Option<CacheConfig>, &Vec<GlyphRequest>) -> PackOutcome>(
    pack: P,
    start: (u32, u32),
    glyphs: &Vec<GlyphRequest>,
    growths: nat,
) -> bool {
    &&& call_ensures(pack, (attempt_config(start, growths), glyphs), PackOutcome::Packed)
    &&& forall|k: nat|
        k < growths ==> call_ensures(
            pack,
            (#[trigger] attempt_config(start, k), glyphs),
            PackOutcome::Overflow,
        )
}

/// Whether `pack` overflowed at every attempt, up to the one with the atlas
/// at its limit.
pub open spec fn never_packed<P: FnMut(Option<CacheConfig>, &Vec<GlyphRequest>) -> PackOutcome>(
    pack: P,
    start: (u32, u32),
    glyphs: &Vec<GlyphRequest>,
) -> bool {
    forall|k: nat|
        k <= growths_left(start) ==> call_ensures(
            pack,
            (#[trigger] attempt_config(start, k), glyphs),
            PackOutcome::Overflow,
        )
}

/// Whether the attempts of `pack` at `glyphs`, begun with an atlas of size
/// `start`, ended with an atlas of size `end`: in exhaustion, with every
/// attempt an overflow and the atlas at its limit, or else at the first
/// attempt that placed the glyphs.
pub open spec fn packing_ended<P: FnMut(Option<CacheConfig>, &Vec<GlyphRequest>) -> PackOutcome>(
    pack: P,
    start: (u32, u32),
    glyphs: &Vec<GlyphRequest>,
    end: (u32, u32),
    exhausted: bool,
) -> bool {
    if exhausted {
        at_limit(end) && end == after_growths(start, growths_left(start)) && never_packed(
            pack,
            start,
            glyphs,
        )
    } else {
        exists|growths: nat|
            growths <= growths_left(start) && end == after_growths(start, growths)
                && #[trigger] packed_after(pack, start, glyphs, growths)
    }
}

/// The size of the glyph atlas. It starts as 0 by 0, without storage, and
/// only ever grows.
#[derive(Clone, Copy, Debug)]
pub struct GlGlyphCache {
    width: u32,
    height: u32,
}

impl GlGlyphCache {
    /// Width and height in texels.
    pub closed spec fn dims(&self) -> (u32, u32) {
        (self.width, self.height)
    }

    /// Both sides are sides an atlas can have. This holds of every atlas.
    #[verifier::type_invariant]
    pub open spec fn wf(&self) -> bool {
        valid_dims(self.dims())
    }

    /// An atlas without storage.
    pub fn new() -> (cache: GlGlyphCache)
        ensures
            cache.dims() == (0u32, 0u32),
            cache.wf(),
    {
        GlGlyphCache { width: 0, height: 0 }
    }

    /// Width and height in texels.
    pub fn dimensions(&self) -> (d: (u32, u32))
        ensures
            d == self.dims(),
    {
        (self.width, self.height)
    }

    /// The settings of the packer that goes with the current size.
    pub fn config(&self) -> (c: CacheConfig)
        ensures
            c == config_for(self.dims().0, self.dims().1),
    {
        CacheConfig {
            width: self.width,
            height: self.height,
            scale_tolerance: Ratio { num: 1, den: 4 },
            position_tolerance: Ratio { num: 1, den: 4 },
            pad_glyphs: true,
        }
    }

    fn resize_cache(&mut self, width: u32, height: u32)
        requires
            valid_side(width),
            valid_side(height),
        ensures
            final(self).dims() == (width, height),
    {
        *self = GlGlyphCache { width, height };
    }

    /// Grows the atlas by one step, or reports that it is at its limit and
    /// leaves it as it is.
    pub fn increase_cache_size(&mut self) -> (r: Result<(), RenderError>)
        ensures
            at_limit(old(self).dims()) ==> r == Err::<(), RenderError>(
                RenderError::CacheExhaustedError,
            ) && final(self).dims() == old(self).dims(),
            !at_limit(old(self).dims()) ==> r == Ok::<(), RenderError>(()) && final(self).dims()
                == grown(old(self).dims()),
            final(self).wf(),
            final(self).dims().0 >= old(self).dims().0,
            final(self).dims().1 >= old(self).dims().1,
    {
        proof {
            use_type_invariant(&*self);
        }
        if self.width >= MAX_CACHE_SIZE && self.height >= MAX_CACHE_SIZE {
            return Err(RenderError::CacheExhaustedError);
        }
        let new_x: u32 = next_side(self.width);
        let new_y: u32 = next_side(self.height);
        self.resize_cache(new_x, new_y);
        Ok(())
    }

    /// Decides what follows an attempt to pack the queued glyphs: nothing
    /// after a success; after an overflow one growth step and another
    /// attempt, or, at the limit, the end of the attempts.
    pub fn after_attempt(&mut self, outcome: PackOutcome) -> (step: CacheStep)
        ensures
            step == step_after(old(self).dims(), outcome),
            final(self).dims() == dims_after(old(self).dims(), outcome),
            final(self).wf(),
            final(self).dims().0 >= old(self).dims().0,
            final(self).dims().1 >= old(self).dims().1,
    {
        proof {
            use_type_invariant(&*self);
        }
        match outcome {
            PackOutcome::Packed => CacheStep::Done,
            PackOutcome::Overflow => match self.increase_cache_size() {
                Ok(_) => CacheStep::Retry(self.config()),
                Err(_) => CacheStep::Exhausted,
            },
        }
    }

    /// Brings the glyphs into the atlas. `pack` is to queue all of `glyphs`
    /// and pack them once, and to say how that went; where it is handed new
    /// settings, the atlas has grown, and it is first to replace the storage
    /// by an empty one of the new size and the packer by a fresh one.
    ///
    /// `pack` is called for the atlas as it is and then once after each
    /// growth step, until an attempt succeeds or the atlas, at its limit,
    /// overflows. The result is the number of growth steps taken, or the
    /// failure `CacheExhaustedError`; in that case the glyphs that the last
    /// attempt did place stay in the atlas.
    pub fn cache_glyphs<P: FnMut(Option<CacheConfig>, &Vec<GlyphRequest>) -> PackOutcome>(
        &mut self,
        glyphs: &Vec<GlyphRequest>,
        pack: P,
    ) -> (r: Result<u32, RenderError>)
        requires
            forall|resize: Option<CacheConfig>, queue: &Vec<GlyphRequest>|
                call_requires(pack, (resize, queue)),
        ensures
            match r {
                Ok(growths) => growths <= growths_left(old(self).dims()) && final(self).dims()
                    == after_growths(old(self).dims(), growths as nat) && packed_after(
                    pack,
                    old(self).dims(),
                    glyphs,
                    growths as nat,
                ),
                Err(e) => e == RenderError::CacheExhaustedError,
            },
            packing_ended(pack, old(self).dims(), glyphs, final(self).dims(), r is Err),
            final(self).wf(),
            final(self).dims().0 >= old(self).dims().0,
            final(self).dims().1 >= old(self).dims().1,
    {
        proof {
            use_type_invariant(&*self);
        }
        let ghost start = self.dims();
        let mut attempt = pack;
        let mut outcome = attempt(None, glyphs);
        let mut growths: u32 = 0;
        loop
            invariant
                forall|resize: Option<CacheConfig>, queue: &Vec<GlyphRequest>|
                    call_requires(pack, (resize, queue)),
                start == old(self).dims(),
                attempt == pack,
                call_ensures(pack, (attempt_config(start, growths as nat), glyphs), outcome),
                forall|k: nat|
                    k < growths ==> call_ensures(
                        pack,
                        (#[trigger] attempt_config(start, k), glyphs),
                        PackOutcome::Overflow,
                    ),
                growths + growths_left(self.dims()) == growths_left(start),
                self.dims() == after_growths(start, growths as nat),
                self.wf(),
                self.dims().0 >= start.0,
                self.dims().1 >= start.1,
            decreases growths_left(self.dims()),
        {
            match self.after_attempt(outcome) {
                CacheStep::Done => {
                    assert(packed_after(pack, start, glyphs, growths as nat));
                    return Ok(growths);
                },
                CacheStep::Exhausted => {
                    return Err(RenderError::CacheExhaustedError);
                },
                CacheStep::Retry(config) => {
                    growths = growths + 1;
                    outcome = attempt(Some(config), glyphs);
                },
            }
        }
    }
}

/// A growth step never shrinks a side, makes at least one side strictly
/// longer, and leaves both sides within the limits.
pub proof fn growth_is_monotonic(dims: (u32, u32))
    requires
        valid_dims(dims),
        !at_limit(dims),
    ensures
        grown(dims).0 >= dims.0,
        grown(dims).1 >= dims.1,
        grown(dims).0 > dims.0 || grown(dims).1 > dims.1,
        MIN_CACHE_SIZE <= grown(dims).0 <= MAX_CACHE_SIZE,
        MIN_CACHE_SIZE <= grown(dims).1 <= MAX_CACHE_SIZE,
{
}

/// However many growth steps are taken, no side shrinks, and a side that has
/// storage stays within the limits.
pub proof fn growths_are_monotonic(dims: (u32, u32), n: nat)
    requires
        valid_dims(dims),
    ensures
        valid_dims(after_growths(dims, n)),
        after_growths(dims, n).0 >= dims.0,
        after_growths(dims, n).1 >= dims.1,
    decreases n,
{
    if n > 0 {
        growths_are_monotonic(dims, (n - 1) as nat);
    }
}

/// There are at most four growth steps to take, each one uses one up, and
/// the atlas is at its limit exactly when none is left.
pub proof fn growth_is_bounded(dims: (u32, u32))
    ensures
        growths_left(dims) <= 4,
        at_limit(dims) <==> growths_left(dims) == 0,
        !at_limit(dims) ==> growths_left(grown(dims)) == growths_left(dims) - 1,
{
}

/// Whatever the glyphs, the attempts end: once as many growth steps are
/// taken as were left, four at most, the atlas is at its limit, where an
/// overflow ends the attempts and further steps change nothing.
pub proof fn growths_reach_limit(dims: (u32, u32), n: nat)
    requires
        n >= growths_left(dims),
    ensures
        growths_left(dims) <= 4,
        at_limit(after_growths(dims, n)),
        step_after(after_growths(dims, n), PackOutcome::Overflow) == CacheStep::Exhausted,
        dims_after(after_growths(dims, n), PackOutcome::Overflow) == after_growths(dims, n),
        valid_dims(dims) ==> after_growths(dims, n) == (MAX_CACHE_SIZE, MAX_CACHE_SIZE),
{
    growths_use_up_what_is_left(dims, n);
    if valid_dims(dims) {
        growths_are_monotonic(dims, n);
    }
}

/// Glyphs that no attempt can place exhaust the atlas: the attempts, five at
/// most, end with the atlas at its limit and in failure.
pub proof fn unplaceable_glyphs_exhaust_the_atlas<
    P: FnMut(Option<CacheConfig>, &Vec<GlyphRequest>) -> PackOutcome,
>(pack: P, start: (u32, u32), glyphs: &Vec<GlyphRequest>, end: (u32, u32), exhausted: bool)
    requires
        packing_ended(pack, start, glyphs, end, exhausted),
        forall|resize: Option<CacheConfig>|
            !call_ensures(pack, (resize, glyphs), PackOutcome::Packed),
    ensures
        exhausted,
        at_limit(end),
        growths_left(start) + 1 <= 5,
{
    if !exhausted {
        let growths = choose|growths: nat|
            growths <= growths_left(start) && end == after_growths(start, growths)
                && #[trigger] packed_after(pack, start, glyphs, growths);
        assert(call_ensures(pack, (attempt_config(start, growths), glyphs), PackOutcome::Packed));
    }
}

/// After `n` growth steps, `n` fewer are left, or none.
pub proof fn growths_use_up_what_is_left(dims: (u32, u32), n: nat)
    ensures
        growths_left(after_growths(dims, n)) == if n <= growths_left(dims) {
            growths_left(dims) - n
        } else {
            0
        },
    decreases n,
{
    if n > 0 {
        growths_use_up_what_is_left(dims, (n - 1) as nat);
    }
}

} // verus!
