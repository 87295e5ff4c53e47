use vstd::prelude::*;
use vstd::arithmetic::div_mod::*;
use crate::geometry::Size;

verus! {

/// Duration of a resize when the caller names none.
pub const DEFAULT_DURATION: u64 = 300;

/// Step count of a resize when the caller names none.
pub const DEFAULT_STEPS: u64 = 30;

/// Target lengths are fixed-point numbers: this many units make one pixel.
pub const UNITS_PER_PIXEL: i64 = 1000;

/// Largest step count the frame arithmetic is carried out for.
pub const MAX_STEPS: u64 = 0xFFFF_FFFF;

/// Largest magnitude of a target length, in units.
pub const MAX_TARGET: i64 = 2_147_483_647_000;

/// The nearest integer to `n / d` for positive `d`, halves rounded away from zero.
pub open spec fn round_div(n: int, d: int) -> int {
    if n >= 0 {
        (2 * n + d) / (2 * d)
    } else {
        -((2 * (-n) + d) / (2 * d))
    }
}

/// Ease-out-quadratic progress at step `i` of `steps`, as a numerator over
/// `steps * steps`: `p * (2 - p)` for `p = i / steps`.
pub open spec fn eased(i: int, steps: int) -> int {
    i * (2 * steps - i)
}

/// A target length in units, rounded to whole pixels.
pub open spec fn rounded(to: int) -> int {
    round_div(to, 1000)
}

/// Whether a target in units lies less than one pixel from a length in pixels.
pub open spec fn within_a_pixel(from: int, to: int) -> bool {
    -1000 < to - from * 1000 < 1000
}

/// The length in pixels at step `i`, moving from `from` pixels to `to` units.
pub open spec fn interpolate(from: int, to: int, i: int, steps: int) -> int {
    round_div(
        from * 1000 * (steps * steps) + (to - from * 1000) * eased(i, steps),
        1000 * (steps * steps),
    )
}

/// Eased progress starts at zero and ends at one.
pub proof fn lemma_eased_ends(steps: int)
    requires
        steps >= 1,
    ensures
        eased(0, steps) == 0,
        eased(steps, steps) == steps * steps,
{
    assert(steps * (2 * steps - steps) == steps * steps) by (nonlinear_arith);
}

/// Eased progress never decreases from one step to a later one, and lies
/// between zero and one.
pub proof fn lemma_eased_monotone(i: int, j: int, steps: int)
    requires
        0 <= i <= j <= steps,
    ensures
        0 <= eased(i, steps) <= eased(j, steps) <= steps * steps,
{
    assert(j * (2 * steps - j) - i * (2 * steps - i) == (j - i) * (2 * steps - i - j))
        by (nonlinear_arith);
    assert((j - i) * (2 * steps - i - j) >= 0) by (nonlinear_arith)
        requires
            0 <= i <= j <= steps,
    ;
    assert(i * (2 * steps - i) >= 0) by (nonlinear_arith)
        requires
            0 <= i <= steps,
    ;
    assert(steps * steps - j * (2 * steps - j) == (steps - j) * (steps - j)) by (nonlinear_arith);
    assert((steps - j) * (steps - j) >= 0) by (nonlinear_arith);
}

/// Scaling numerator and denominator by the same positive factor does not
/// change the rounded quotient.
pub proof fn lemma_round_div_scale(a: int, d: int, k: int)
    requires
        d > 0,
        k > 0,
    ensures
        round_div(a * k, d * k) == round_div(a, d),
{
    assert(d * k > 0) by (nonlinear_arith)
        requires
            d > 0,
            k > 0,
    ;
    if a >= 0 {
        assert(a * k >= 0) by (nonlinear_arith)
            requires
                a >= 0,
                k > 0,
        ;
        lemma_div_multiples_vanish_quotient(k, 2 * a + d, 2 * d);
        assert(k * (2 * a + d) == 2 * (a * k) + d * k) by (nonlinear_arith);
        assert(k * (2 * d) == 2 * (d * k)) by (nonlinear_arith);
    } else {
        assert(a * k < 0) by (nonlinear_arith)
            requires
                a < 0,
                k > 0,
        ;
        lemma_div_multiples_vanish_quotient(k, 2 * (-a) + d, 2 * d);
        assert(k * (2 * (-a) + d) == 2 * (-(a * k)) + d * k) by (nonlinear_arith);
        assert(k * (2 * d) == 2 * (d * k)) by (nonlinear_arith);
    }
}

/// A whole multiple of the denominator rounds to the multiplier.
pub proof fn lemma_round_div_exact(q: int, d: int)
    requires
        d > 0,
    ensures
        round_div(q * d, d) == q,
{
    if q >= 0 {
        assert(q * d >= 0) by (nonlinear_arith)
            requires
                q >= 0,
                d > 0,
        ;
        assert(2 * (q * d) + d == (2 * d) * q + d) by (nonlinear_arith);
        lemma_div_multiples_vanish_fancy(q, d, 2 * d);
    } else {
        assert(q * d < 0) by (nonlinear_arith)
            requires
                q < 0,
                d > 0,
        ;
        assert(2 * (-(q * d)) + d == (2 * d) * (-q) + d) by (nonlinear_arith);
        lemma_div_multiples_vanish_fancy(-q, d, 2 * d);
    }
}

/// Rounding keeps the order of the numerators.
pub proof fn lemma_round_div_monotone(m: int, n: int, d: int)
    requires
        m <= n,
        d > 0,
    ensures
        round_div(m, d) <= round_div(n, d),
{
    if m >= 0 {
        lemma_div_is_ordered(2 * m + d, 2 * n + d, 2 * d);
    } else if n < 0 {
        lemma_div_is_ordered(2 * (-n) + d, 2 * (-m) + d, 2 * d);
    } else {
        lemma_div_is_ordered(0, 2 * (-m) + d, 2 * d);
        lemma_div_is_ordered(0, 2 * n + d, 2 * d);
        assert(0int / (2 * d) == 0) by (nonlinear_arith)
            requires
                d > 0,
        ;
    }
}

/// A target in range rounds to a whole number of pixels in range.
pub proof fn lemma_rounded_in_range(to: int)
    requires
        -2_147_483_647_000 <= to <= 2_147_483_647_000,
    ensures
        -2_147_483_647 <= rounded(to) <= 2_147_483_647,
{
    lemma_round_div_monotone(-2_147_483_647_000, to, 1000);
    lemma_round_div_monotone(to, 2_147_483_647_000, 1000);
    lemma_round_div_exact(-2_147_483_647, 1000);
    lemma_round_div_exact(2_147_483_647, 1000);
}

/// The first frame is the starting length and the last is the rounded target.
pub proof fn lemma_interpolate_ends(from: int, to: int, steps: int)
    requires
        steps >= 1,
    ensures
        interpolate(from, to, 0, steps) == from,
        interpolate(from, to, steps, steps) == rounded(to),
{
    let sq = steps * steps;
    assert(sq > 0) by (nonlinear_arith)
        requires
            sq == steps * steps,
            steps >= 1,
    ;
    lemma_eased_ends(steps);
    assert(from * 1000 * sq + (to - from * 1000) * 0 == from * (1000 * sq)) by (nonlinear_arith);
    lemma_round_div_exact(from, 1000 * sq);
    assert(from * 1000 * sq + (to - from * 1000) * sq == to * sq) by (nonlinear_arith);
    lemma_round_div_scale(to, 1000, sq);
}

/// Frames move monotonically toward the target: a later frame is never
/// farther back than an earlier one.
pub proof fn lemma_interpolate_monotone(from: int, to: int, i: int, j: int, steps: int)
    requires
        0 <= i <= j <= steps,
        steps >= 1,
    ensures
        to >= from * 1000 ==> interpolate(from, to, i, steps) <= interpolate(from, to, j, steps),
        to <= from * 1000 ==> interpolate(from, to, i, steps) >= interpolate(from, to, j, steps),
{
    let sq = steps * steps;
    let diff = to - from * 1000;
    let ei = eased(i, steps);
    let ej = eased(j, steps);
    lemma_eased_monotone(i, j, steps);
    assert(sq > 0) by (nonlinear_arith)
        requires
            sq == steps * steps,
            steps >= 1,
    ;
    if diff >= 0 {
        assert(diff * ei <= diff * ej) by (nonlinear_arith)
            requires
                diff >= 0,
                ei <= ej,
        ;
        lemma_round_div_monotone(from * 1000 * sq + diff * ei, from * 1000 * sq + diff * ej, 1000 * sq);
    }
    if diff <= 0 {
        assert(diff * ei >= diff * ej) by (nonlinear_arith)
            requires
                diff <= 0,
                ei <= ej,
        ;
        lemma_round_div_monotone(from * 1000 * sq + diff * ej, from * 1000 * sq + diff * ei, 1000 * sq);
    }
}

/// Every frame lies between the starting length and the rounded target.
pub proof fn lemma_interpolate_between(from: int, to: int, i: int, steps: int)
    requires
        0 <= i <= steps,
        steps >= 1,
    ensures
        to >= from * 1000 ==> from <= interpolate(from, to, i, steps) <= rounded(to),
        to <= from * 1000 ==> rounded(to) <= interpolate(from, to, i, steps) <= from,
{
    lemma_interpolate_ends(from, to, steps);
    lemma_interpolate_monotone(from, to, 0, i, steps);
    lemma_interpolate_monotone(from, to, i, steps, steps);
}

/// One size-set of a resize, in whole pixels.
#[derive(Clone, Copy, Debug, PartialEq, Eq, Structural)]
pub struct Frame {
    pub width: i64,
    pub height: i64,
}

/// Why a resize could not be planned.
#[derive(Clone, Copy, Debug, PartialEq, Eq, Structural)]
pub enum AnimateError {
    /// No live window carries the requested label.
    NotFound,
}

/// A request to resize a window to a target size over a number of steps.
/// Target lengths are in units of a thousandth of a pixel.
#[derive(Debug)]
pub struct AnimationRequest {
    pub label: String,
    pub to_width: i64,
    pub to_height: i64,
    pub duration: u64,
    pub steps: u64,
}

/// The sizes to set, in order, and the pause that follows each of them.
#[derive(Debug)]
pub struct ResizePlan {
    pub delay: u64,
    pub frames: Vec<Frame>,
}

/// What the host does next while it carries out a plan.
#[derive(Clone, Copy, Debug, PartialEq, Eq, Structural)]
pub enum ResizeStep {
    /// Set this size, then block for the pause.
    Resize { frame: Frame, pause: u64 },
    /// Every frame was set.
    Finished,
    /// The last size-set failed: no further frame is set, and the host's
    /// error goes to the caller.
    Aborted,
}

/// The step that follows once `issued` frames were handed out, given
/// whether the last size-set went through.
pub open spec fn step_after(frames: Seq<Frame>, delay: u64, issued: int, last_ok: bool) -> ResizeStep {
    if !last_ok {
        ResizeStep::Aborted
    } else if 0 <= issued < frames.len() {
        ResizeStep::Resize { frame: frames[issued], pause: delay }
    } else {
        ResizeStep::Finished
    }
}

/// How many sizes are set in all when the size-set number `failing`,
/// counted from zero, is the first to fail (`None`: none fails).
pub open spec fn sizes_set(frames: Seq<Frame>, failing: Option<nat>) -> nat {
    match failing {
        Some(k) if k < frames.len() => k + 1,
        _ => frames.len(),
    }
}

impl ResizePlan {
    /// The next step of the plan after `issued` frames, the first call being
    /// made with `issued == 0` and `last_ok == true`.
    pub fn next_step(&self, issued: usize, last_ok: bool) -> (r: ResizeStep)
        ensures
            r == step_after(self.frames@, self.delay, issued as int, last_ok),
    {
        if !last_ok {
            ResizeStep::Aborted
        } else if issued < self.frames.len() {
            ResizeStep::Resize { frame: self.frames[issued], pause: self.delay }
        } else {
            ResizeStep::Finished
        }
    }
}

/// How many sizes the host sets from frame `issued` on, when it follows the
/// steps and the size-set number `failing` is the first to fail.
pub open spec fn sets_from(
    frames: Seq<Frame>,
    delay: u64,
    issued: nat,
    last_ok: bool,
    failing: Option<nat>,
) -> nat
    decreases frames.len() - issued,
{
    if step_after(frames, delay, issued as int, last_ok) is Resize {
        1 + sets_from(frames, delay, issued + 1, failing != Some(issued), failing)
    } else {
        0
    }
}

/// A host that follows the steps sets every frame of the plan where no
/// size-set fails, and stops right after the first one that does.
pub proof fn lemma_steps_follow_plan(frames: Seq<Frame>, delay: u64, failing: Option<nat>)
    ensures
        sets_from(frames, delay, 0, true, failing) == sizes_set(frames, failing),
        sizes_set(frames, None) == frames.len(),
{
    lemma_sets_from(frames, delay, 0, failing);
}

proof fn lemma_sets_from(frames: Seq<Frame>, delay: u64, issued: nat, failing: Option<nat>)
    requires
        issued <= frames.len(),
        failing matches Some(k) ==> k >= issued,
    ensures
        sets_from(frames, delay, issued, true, failing) + issued == sizes_set(frames, failing),
    decreases frames.len() - issued,
{
    if issued < frames.len() {
        if failing != Some(issued) {
            lemma_sets_from(frames, delay, issued + 1, failing);
        } else {
            assert(sets_from(frames, delay, issued + 1, false, failing) == 0);
        }
    }
}

/// Whether a target length is one the frame arithmetic is carried out for.
pub open spec fn target_in_range(to: int) -> bool {
    -MAX_TARGET <= to <= MAX_TARGET
}

/// The frames of a resize from `from`: none where the target lies within a
/// pixel in both dimensions, else one per step from 0 to `steps` inclusive.
pub open spec fn frames_of(from: Size, to_width: int, to_height: int, steps: int) -> Seq<Frame> {
    if within_a_pixel(from.width as int, to_width) && within_a_pixel(from.height as int, to_height) {
        Seq::empty()
    } else {
        Seq::new(
            (steps + 1) as nat,
            |i: int|
                (Frame {
                    width: interpolate(from.width as int, to_width, i, steps) as i64,
                    height: interpolate(from.height as int, to_height, i, steps) as i64,
                }),
        )
    }
}

impl AnimationRequest {
    /// A request has at least one step, and lengths and step count in range.
    pub open spec fn wf(&self) -> bool {
        &&& 1 <= self.steps <= MAX_STEPS
        &&& target_in_range(self.to_width as int)
        &&& target_in_range(self.to_height as int)
    }

    /// Builds a request, with 300 for a missing duration and 30 for a missing
    /// step count; `None` exactly where the resulting request is not well formed.
    pub fn new(
        label: String,
        to_width: i64,
        to_height: i64,
        duration: Option<u64>,
        steps: Option<u64>,
    ) -> (r: Option<AnimationRequest>)
        ensures
            r.is_some() == (1 <= steps.unwrap_or(DEFAULT_STEPS) <= MAX_STEPS && target_in_range(
                to_width as int,
            ) && target_in_range(to_height as int)),
            r matches Some(q) ==> q.wf() && q.label == label && q.to_width == to_width
                && q.to_height == to_height && q.duration == duration.unwrap_or(DEFAULT_DURATION)
                && q.steps == steps.unwrap_or(DEFAULT_STEPS),
    {
        let duration: u64 = match duration {
            Some(d) => d,
            None => DEFAULT_DURATION,
        };
        let steps: u64 = match steps {
            Some(n) => n,
            None => DEFAULT_STEPS,
        };
        if 1 <= steps && steps <= MAX_STEPS && -MAX_TARGET <= to_width && to_width <= MAX_TARGET
            && -MAX_TARGET <= to_height && to_height <= MAX_TARGET {
            Some(AnimationRequest { label, to_width, to_height, duration, steps })
        } else {
            None
        }
    }
}

/// The target length in units that stands for a length of `whole` pixels
/// and `thousandths` thousandths of a pixel, plus a rest below one
/// thousandth unless `exact`, taken negative where `negative`.
///
/// The rest is dropped, except right above a whole number of pixels, where
/// it counts as one unit: a length that is not a whole number of pixels
/// never turns into one.
pub open spec fn units_of(negative: bool, whole: int, thousandths: int, exact: bool) -> int {
    let low = if thousandths == 0 && !exact {
        1
    } else {
        thousandths
    };
    if negative {
        -(whole * 1000 + low)
    } else {
        whole * 1000 + low
    }
}

/// Converts a length given in parts to target units; `None` exactly where
/// `thousandths` is not below 1000 or the result is out of range.
pub fn target_units(negative: bool, whole: u32, thousandths: u16, exact: bool) -> (r: Option<i64>)
    ensures
        r.is_some() == (thousandths < 1000 && target_in_range(
            units_of(negative, whole as int, thousandths as int, exact),
        )),
        r matches Some(u) ==> u == units_of(negative, whole as int, thousandths as int, exact),
{
    if thousandths >= 1000 {
        return None;
    }
    let low: i64 = if thousandths == 0 && !exact {
        1
    } else {
        thousandths as i64
    };
    let magnitude: i64 = (whole as i64) * 1000 + low;
    if magnitude > MAX_TARGET {
        return None;
    }
    if negative {
        Some(-magnitude)
    } else {
        Some(magnitude)
    }
}

/// The units of a length decide as the length itself does: they lie below a
/// whole number of pixels exactly if the length does, above it exactly if
/// the length does, and round to the pixel count the length rounds to.
pub proof fn lemma_units_keep_decisions(whole: int, thousandths: int, exact: bool, pixels: int)
    requires
        0 <= whole,
        0 <= thousandths < 1000,
    ensures
        units_of(false, whole, thousandths, exact) < pixels * 1000 <==> whole < pixels,
        units_of(false, whole, thousandths, exact) > pixels * 1000 <==> (whole > pixels || (whole
            == pixels && (thousandths > 0 || !exact))),
        rounded(units_of(false, whole, thousandths, exact)) == if thousandths >= 500 {
            whole + 1
        } else {
            whole
        },
        units_of(true, whole, thousandths, exact) == -units_of(false, whole, thousandths, exact),
        rounded(units_of(true, whole, thousandths, exact)) == -rounded(
            units_of(false, whole, thousandths, exact),
        ),
{
    let u = units_of(false, whole, thousandths, exact);
    let low = u - whole * 1000;
    assert(0 <= low < 1000);
    assert(2 * u + 1000 == 2000 * whole + (2 * low + 1000));
    if thousandths >= 500 {
        lemma_fundamental_div_mod_converse(2 * u + 1000, 2000, whole + 1, 2 * low - 1000);
    } else {
        lemma_fundamental_div_mod_converse(2 * u + 1000, 2000, whole, 2 * low + 1000);
    }
    assert(0int / 2000 == 0);
}

/// Whether the target lies less than one pixel from the current length.
pub fn is_within_a_pixel(from: u32, to: i64) -> (r: bool)
    requires
        target_in_range(to as int),
    ensures
        r == within_a_pixel(from as int, to as int),
{
    let base: i64 = (from as i64) * 1000;
    let diff: i64 = to - base;
    -1000 < diff && diff < 1000
}

/// Rounds `n / d` to the nearest integer, halves away from zero.
fn rounded_quotient(n: i128, d: i128) -> (r: i128)
    requires
        0 < d <= 0x1000_0000_0000_0000_0000_0000_0000,
        -0x1000_0000_0000_0000_0000_0000_0000 <= n <= 0x1000_0000_0000_0000_0000_0000_0000,
    ensures
        r == round_div(n as int, d as int),
{
    let m: i128 = if n >= 0 {
        n
    } else {
        -n
    };
    let top: u128 = (2 * m + d) as u128;
    let bottom: u128 = (2 * d) as u128;
    let q: u128 = top / bottom;
    proof {
        assert(top as int <= (top as int) * (bottom as int)) by (nonlinear_arith)
            requires
                bottom >= 1,
                top >= 0,
        ;
        lemma_div_is_ordered(top as int, (top as int) * (bottom as int), bottom as int);
        lemma_div_by_multiple(top as int, bottom as int);
    }
    if n >= 0 {
        q as i128
    } else {
        -(q as i128)
    }
}

/// Eased progress at step `i` of `steps`, as a numerator over `steps * steps`.
pub fn eased_progress(i: u64, steps: u64) -> (r: u128)
    requires
        i <= steps <= MAX_STEPS,
    ensures
        r == eased(i as int, steps as int),
        r <= steps * steps,
{
    proof {
        lemma_eased_monotone(i as int, i as int, steps as int);
        assert(steps * steps <= 0xFFFF_FFFF * 0xFFFF_FFFF) by (nonlinear_arith)
            requires
                steps <= 0xFFFF_FFFF,
        ;
    }
    let k: u128 = i as u128;
    let s: u128 = steps as u128;
    k * (2 * s - k)
}

/// The length in pixels at step `i` of a resize from `from` pixels to `to` units.
pub fn frame_length(from: u32, to: i64, i: u64, steps: u64) -> (r: i64)
    requires
        1 <= steps <= MAX_STEPS,
        i <= steps,
        target_in_range(to as int),
    ensures
        r == interpolate(from as int, to as int, i as int, steps as int),
{
    let s: i128 = steps as i128;
    proof {
        assert(1 <= s * s <= 0xFFFF_FFFF * 0xFFFF_FFFF) by (nonlinear_arith)
            requires
                1 <= s <= 0xFFFF_FFFF,
        ;
    }
    let sq: i128 = s * s;
    let e: i128 = eased_progress(i, steps) as i128;
    let base: i128 = (from as i128) * 1000;
    let diff: i128 = (to as i128) - base;
    let d: i128 = 1000 * sq;
    proof {
        assert(0 <= base * sq <= 0x400_0000_0000_0000_0000_0000_0000)
            by (nonlinear_arith)
            requires
                0 <= base <= 0x400_0000_0000,
                1 <= sq <= 0x1_0000_0000_0000_0000,
        ;
        assert(-0x800_0000_0000_0000_0000_0000_0000 <= diff * e <= 0x800_0000_0000_0000_0000_0000_0000)
            by (nonlinear_arith)
            requires
                -0x800_0000_0000 <= diff <= 0x800_0000_0000,
                0 <= e <= sq,
                1 <= sq <= 0x1_0000_0000_0000_0000,
        ;
    }
    let n: i128 = base * sq + diff * e;
    let r: i128 = rounded_quotient(n, d);
    proof {
        lemma_interpolate_between(from as int, to as int, i as int, steps as int);
        lemma_rounded_in_range(to as int);
    }
    r as i64
}

/// Plans a resize of the window of `request.label`, whose current size the
/// host reports as `current` (`None` where no such window is live).
///
/// Without a window the plan fails with `NotFound`. Otherwise the plan holds
/// no frame where the target lies within a pixel of the current size in both
/// dimensions, and else one frame per step from 0 to `steps` inclusive, eased
/// out quadratically, each followed by a pause of `duration / steps`.
pub fn animate_window_resize(current: Option<Size>, request: &AnimationRequest) -> (r: Result<
    ResizePlan,
    AnimateError,
>)
    requires
        request.wf(),
    ensures
        current.is_none() ==> r == Err::<ResizePlan, AnimateError>(AnimateError::NotFound),
        current matches Some(from) ==> (r matches Ok(plan) && plan.delay == request.duration
            / request.steps && plan.frames@ == frames_of(
            from,
            request.to_width as int,
            request.to_height as int,
            request.steps as int,
        )),
{
    let from = match current {
        Some(size) => size,
        None => {
            return Err(AnimateError::NotFound);
        },
    };
    let delay: u64 = request.duration / request.steps;
    let mut frames: Vec<Frame> = Vec::new();
    if is_within_a_pixel(from.width, request.to_width) && is_within_a_pixel(
        from.height,
        request.to_height,
    ) {
        return Ok(ResizePlan { delay, frames });
    }
    let ghost goal = frames_of(
        from,
        request.to_width as int,
        request.to_height as int,
        request.steps as int,
    );
    let mut i: u64 = 0;
    while i <= request.steps
        invariant
            request.wf(),
            i <= request.steps + 1,
            goal.len() == request.steps + 1,
            goal == frames_of(
                from,
                request.to_width as int,
                request.to_height as int,
                request.steps as int,
            ),
            frames@ == goal.subrange(0, i as int),
        decreases request.steps + 1 - i,
    {
        let width: i64 = frame_length(from.width, request.to_width, i, request.steps);
        let height: i64 = frame_length(from.height, request.to_height, i, request.steps);
        frames.push(Frame { width, height });
        i = i + 1;
        assert(frames@ =~= goal.subrange(0, i as int));
    }
    assert(frames@ =~= goal);
    Ok(ResizePlan { delay, frames })
}

/// A resize that moves at least a pixel sets the size once per step from 0
/// to `steps` inclusive, and its last frame is the rounded target.
pub proof fn lemma_resize_reaches_target(from: Size, to_width: int, to_height: int, steps: int)
    requires
        steps >= 1,
        target_in_range(to_width),
        target_in_range(to_height),
        !within_a_pixel(from.width as int, to_width) || !within_a_pixel(from.height as int, to_height),
    ensures
        frames_of(from, to_width, to_height, steps).len() == steps + 1,
        frames_of(from, to_width, to_height, steps).last().width == rounded(to_width),
        frames_of(from, to_width, to_height, steps).last().height == rounded(to_height),
        frames_of(from, to_width, to_height, steps).first().width == from.width,
        frames_of(from, to_width, to_height, steps).first().height == from.height,
{
    lemma_interpolate_ends(from.width as int, to_width, steps);
    lemma_interpolate_ends(from.height as int, to_height, steps);
    lemma_rounded_in_range(to_width);
    lemma_rounded_in_range(to_height);
}

/// A resize whose target lies within a pixel in both dimensions sets no size.
pub proof fn lemma_resize_noop(from: Size, to_width: int, to_height: int, steps: int)
    requires
        within_a_pixel(from.width as int, to_width),
        within_a_pixel(from.height as int, to_height),
    ensures
        frames_of(from, to_width, to_height, steps).len() == 0,
{
}

/// The time a resize blocks for: one pause after every frame.
pub open spec fn blocked_time(duration: int, steps: int) -> int {
    (steps + 1) * (duration / steps)
}

/// A resize blocks for about its duration: never longer than the duration
/// and one pause, and short of the duration by less than the step count.
pub proof fn lemma_blocked_time(duration: int, steps: int)
    requires
        duration >= 0,
        steps >= 1,
    ensures
        duration - steps < blocked_time(duration, steps) - duration / steps <= duration,
{
    lemma_fundamental_div_mod(duration, steps);
    lemma_mod_bound(duration, steps);
    assert((steps + 1) * (duration / steps) == steps * (duration / steps) + duration / steps)
        by (nonlinear_arith);
}

} // verus!
