use std::collections::VecDeque;

use vstd::prelude::*;

use crate::easing::{eased, lemma_eased_ends, EasingCurve};
use crate::geometry::{clamp64, clamp_i128, floor_div, Size, UNIT};
use crate::transform::Transform2D;

verus! {

/// A value that a transition can move between two endpoints.
pub trait Interpolatable: Sized {
    /// The value `m / UNIT` of the way from `self` to `other`.
    spec fn interpolated(self, other: Self, m: int) -> Self;

    /// Progress 0 is the start value and progress `UNIT` the end value.
    proof fn lemma_interpolated_ends(a: Self, b: Self)
        ensures
            a.interpolated(b, 0) == a,
            a.interpolated(b, UNIT as int) == b,
    ;

    fn interpolate(&self, other: &Self, m: i64) -> (r: Self)
        ensures
            r == self.interpolated(*other, m as int),
    ;

    fn duplicate(&self) -> (r: Self)
        ensures
            r == *self,
    ;
}

/// The number `m / UNIT` of the way from `a` to `b`, rounded down.
pub open spec fn lerp(a: i64, b: i64, m: int) -> i64 {
    clamp64(a + ((b - a) * m) / (UNIT as int))
}

/// Values without a meaningful middle hold the start until the eased progress
/// reaches the end.
pub open spec fn step<T>(a: T, b: T, m: int) -> T {
    if m >= UNIT {
        b
    } else {
        a
    }
}

impl Interpolatable for i64 {
    open spec fn interpolated(self, other: i64, m: int) -> i64 {
        lerp(self, other, m)
    }

    proof fn lemma_interpolated_ends(a: i64, b: i64) {
        let d = b - a;
        assert(d * 0 == 0);
        assert((d * 0) / (UNIT as int) == 0);
        assert(lerp(a, b, 0) == clamp64(a as int));
        vstd::arithmetic::div_mod::lemma_div_multiples_vanish(d, UNIT as int);
        assert(d * UNIT == UNIT * d) by (nonlinear_arith);
        assert((d * UNIT) / (UNIT as int) == d);
        assert(lerp(a, b, UNIT as int) == clamp64(b as int));
        assert(clamp64(a as int) == a);
        assert(clamp64(b as int) == b);
        assert(a.interpolated(b, 0) == lerp(a, b, 0));
        assert(a.interpolated(b, UNIT as int) == lerp(a, b, UNIT as int));
    }

    fn interpolate(&self, other: &i64, m: i64) -> (r: i64) {
        let d = *other as i128 - *self as i128;
        proof {
            assert(-0x7fff_ffff_ffff_ffff_ffff_ffff_ffff_ffff <= d * m
                <= 0x7fff_ffff_ffff_ffff_ffff_ffff_ffff_ffff) by (nonlinear_arith)
                requires
                    -0xffff_ffff_ffff_ffff <= d <= 0xffff_ffff_ffff_ffff,
                    -0x8000_0000_0000_0000 <= m <= 0x7fff_ffff_ffff_ffff,
            ;
        }
        let p = d * (m as i128);
        let q = floor_div(p, UNIT as i128);
        proof {
            vstd::arithmetic::div_mod::lemma_div_is_ordered(
                -0x7fff_ffff_ffff_ffff_ffff_ffff_ffff_ffff,
                p as int,
                UNIT as int,
            );
            vstd::arithmetic::div_mod::lemma_div_is_ordered(
                p as int,
                0x7fff_ffff_ffff_ffff_ffff_ffff_ffff_ffff,
                UNIT as int,
            );
        }
        clamp_i128(*self as i128 + q)
    }

    fn duplicate(&self) -> (r: i64) {
        *self
    }
}

/// `x` pinned to `[lo, hi]`.
pub open spec fn pin(x: int, lo: int, hi: int) -> int {
    if x < lo {
        lo
    } else if x > hi {
        hi
    } else {
        x
    }
}

/// The number `m / UNIT` of the way from `a` to `b`, rounded down and pinned to
/// `[lo, hi]`.
pub open spec fn lerp_in(a: int, b: int, m: int, lo: int, hi: int) -> int {
    pin(a + ((b - a) * m) / (UNIT as int), lo, hi)
}

proof fn lemma_lerp_in_ends(a: int, b: int, lo: int, hi: int)
    requires
        lo <= a <= hi,
        lo <= b <= hi,
    ensures
        lerp_in(a, b, 0, lo, hi) == a,
        lerp_in(a, b, UNIT as int, lo, hi) == b,
{
    let d = b - a;
    assert(d * 0 == 0);
    vstd::arithmetic::div_mod::lemma_div_multiples_vanish(d, UNIT as int);
    assert(d * UNIT == UNIT * d) by (nonlinear_arith);
}

/// `lerp_in` on machine integers of at most 64 bits.
fn lerp_wide(a: i128, b: i128, m: i64, lo: i128, hi: i128) -> (r: i128)
    requires
        -0x8000_0000_0000_0000 <= lo <= a <= hi <= 0xffff_ffff_ffff_ffff,
        lo <= b <= hi,
        hi - lo <= 0xffff_ffff_ffff_ffff,
    ensures
        r == lerp_in(a as int, b as int, m as int, lo as int, hi as int),
{
    let d = b - a;
    proof {
        assert(-0x7fff_ffff_ffff_ffff_ffff_ffff_ffff_ffff <= d * m
            <= 0x7fff_ffff_ffff_ffff_ffff_ffff_ffff_ffff) by (nonlinear_arith)
            requires
                -0xffff_ffff_ffff_ffff <= d <= 0xffff_ffff_ffff_ffff,
                -0x8000_0000_0000_0000 <= m <= 0x7fff_ffff_ffff_ffff,
        ;
    }
    let p = d * (m as i128);
    let q = floor_div(p, UNIT as i128);
    proof {
        vstd::arithmetic::div_mod::lemma_div_is_ordered(
            -0x7fff_ffff_ffff_ffff_ffff_ffff_ffff_ffff,
            p as int,
            UNIT as int,
        );
        vstd::arithmetic::div_mod::lemma_div_is_ordered(
            p as int,
            0x7fff_ffff_ffff_ffff_ffff_ffff_ffff_ffff,
            UNIT as int,
        );
    }
    let x = a + q;
    if x < lo {
        lo
    } else if x > hi {
        hi
    } else {
        x
    }
}

impl Interpolatable for u8 {
    open spec fn interpolated(self, other: u8, m: int) -> u8 {
        lerp_in(self as int, other as int, m, u8::MIN as int, u8::MAX as int) as u8
    }

    proof fn lemma_interpolated_ends(a: u8, b: u8) {
        lemma_lerp_in_ends(a as int, b as int, u8::MIN as int, u8::MAX as int);
    }

    fn interpolate(&self, other: &u8, m: i64) -> (r: u8) {
        lerp_wide(*self as i128, *other as i128, m, u8::MIN as i128, u8::MAX as i128) as u8
    }

    fn duplicate(&self) -> (r: u8) {
        *self
    }
}

impl Interpolatable for u16 {
    open spec fn interpolated(self, other: u16, m: int) -> u16 {
        lerp_in(self as int, other as int, m, u16::MIN as int, u16::MAX as int) as u16
    }

    proof fn lemma_interpolated_ends(a: u16, b: u16) {
        lemma_lerp_in_ends(a as int, b as int, u16::MIN as int, u16::MAX as int);
    }

    fn interpolate(&self, other: &u16, m: i64) -> (r: u16) {
        lerp_wide(*self as i128, *other as i128, m, u16::MIN as i128, u16::MAX as i128) as u16
    }

    fn duplicate(&self) -> (r: u16) {
        *self
    }
}

impl Interpolatable for u32 {
    open spec fn interpolated(self, other: u32, m: int) -> u32 {
        lerp_in(self as int, other as int, m, u32::MIN as int, u32::MAX as int) as u32
    }

    proof fn lemma_interpolated_ends(a: u32, b: u32) {
        lemma_lerp_in_ends(a as int, b as int, u32::MIN as int, u32::MAX as int);
    }

    fn interpolate(&self, other: &u32, m: i64) -> (r: u32) {
        lerp_wide(*self as i128, *other as i128, m, u32::MIN as i128, u32::MAX as i128) as u32
    }

    fn duplicate(&self) -> (r: u32) {
        *self
    }
}

impl Interpolatable for u64 {
    open spec fn interpolated(self, other: u64, m: int) -> u64 {
        lerp_in(self as int, other as int, m, u64::MIN as int, u64::MAX as int) as u64
    }

    proof fn lemma_interpolated_ends(a: u64, b: u64) {
        lemma_lerp_in_ends(a as int, b as int, u64::MIN as int, u64::MAX as int);
    }

    fn interpolate(&self, other: &u64, m: i64) -> (r: u64) {
        lerp_wide(*self as i128, *other as i128, m, u64::MIN as i128, u64::MAX as i128) as u64
    }

    fn duplicate(&self) -> (r: u64) {
        *self
    }
}

impl Interpolatable for usize {
    open spec fn interpolated(self, other: usize, m: int) -> usize {
        lerp_in(self as int, other as int, m, usize::MIN as int, usize::MAX as int) as usize
    }

    proof fn lemma_interpolated_ends(a: usize, b: usize) {
        lemma_lerp_in_ends(a as int, b as int, usize::MIN as int, usize::MAX as int);
    }

    fn interpolate(&self, other: &usize, m: i64) -> (r: usize) {
        lerp_wide(*self as i128, *other as i128, m, usize::MIN as i128, usize::MAX as i128) as usize
    }

    fn duplicate(&self) -> (r: usize) {
        *self
    }
}

impl Interpolatable for i8 {
    open spec fn interpolated(self, other: i8, m: int) -> i8 {
        lerp_in(self as int, other as int, m, i8::MIN as int, i8::MAX as int) as i8
    }

    proof fn lemma_interpolated_ends(a: i8, b: i8) {
        lemma_lerp_in_ends(a as int, b as int, i8::MIN as int, i8::MAX as int);
    }

    fn interpolate(&self, other: &i8, m: i64) -> (r: i8) {
        lerp_wide(*self as i128, *other as i128, m, i8::MIN as i128, i8::MAX as i128) as i8
    }

    fn duplicate(&self) -> (r: i8) {
        *self
    }
}

impl Interpolatable for i16 {
    open spec fn interpolated(self, other: i16, m: int) -> i16 {
        lerp_in(self as int, other as int, m, i16::MIN as int, i16::MAX as int) as i16
    }

    proof fn lemma_interpolated_ends(a: i16, b: i16) {
        lemma_lerp_in_ends(a as int, b as int, i16::MIN as int, i16::MAX as int);
    }

    fn interpolate(&self, other: &i16, m: i64) -> (r: i16) {
        lerp_wide(*self as i128, *other as i128, m, i16::MIN as i128, i16::MAX as i128) as i16
    }

    fn duplicate(&self) -> (r: i16) {
        *self
    }
}

impl Interpolatable for i32 {
    open spec fn interpolated(self, other: i32, m: int) -> i32 {
        lerp_in(self as int, other as int, m, i32::MIN as int, i32::MAX as int) as i32
    }

    proof fn lemma_interpolated_ends(a: i32, b: i32) {
        lemma_lerp_in_ends(a as int, b as int, i32::MIN as int, i32::MAX as int);
    }

    fn interpolate(&self, other: &i32, m: i64) -> (r: i32) {
        lerp_wide(*self as i128, *other as i128, m, i32::MIN as i128, i32::MAX as i128) as i32
    }

    fn duplicate(&self) -> (r: i32) {
        *self
    }
}

impl Interpolatable for isize {
    open spec fn interpolated(self, other: isize, m: int) -> isize {
        lerp_in(self as int, other as int, m, isize::MIN as int, isize::MAX as int) as isize
    }

    proof fn lemma_interpolated_ends(a: isize, b: isize) {
        lemma_lerp_in_ends(a as int, b as int, isize::MIN as int, isize::MAX as int);
    }

    fn interpolate(&self, other: &isize, m: i64) -> (r: isize) {
        lerp_wide(*self as i128, *other as i128, m, isize::MIN as i128, isize::MAX as i128) as isize
    }

    fn duplicate(&self) -> (r: isize) {
        *self
    }
}

impl Interpolatable for bool {
    open spec fn interpolated(self, other: bool, m: int) -> bool {
        step(self, other, m)
    }

    proof fn lemma_interpolated_ends(a: bool, b: bool) {
    }

    fn interpolate(&self, other: &bool, m: i64) -> (r: bool) {
        if m >= UNIT {
            *other
        } else {
            *self
        }
    }

    fn duplicate(&self) -> (r: bool) {
        *self
    }
}

impl Interpolatable for Size {
    /// Two sizes of one kind move between their numbers; a change of kind
    /// takes effect at the end.
    open spec fn interpolated(self, other: Size, m: int) -> Size {
        match (self, other) {
            (Size::Pixels(a), Size::Pixels(b)) => Size::Pixels(lerp(a, b, m)),
            (Size::Percent(a), Size::Percent(b)) => Size::Percent(lerp(a, b, m)),
            _ => step(self, other, m),
        }
    }

    proof fn lemma_interpolated_ends(a: Size, b: Size) {
        match (a, b) {
            (Size::Pixels(x), Size::Pixels(y)) => {
                <i64 as Interpolatable>::lemma_interpolated_ends(x, y);
            },
            (Size::Percent(x), Size::Percent(y)) => {
                <i64 as Interpolatable>::lemma_interpolated_ends(x, y);
            },
            _ => {},
        }
    }

    fn interpolate(&self, other: &Size, m: i64) -> (r: Size) {
        match (self, other) {
            (Size::Pixels(a), Size::Pixels(b)) => Size::Pixels(a.interpolate(b, m)),
            (Size::Percent(a), Size::Percent(b)) => Size::Percent(a.interpolate(b, m)),
            _ => if m >= UNIT {
                *other
            } else {
                *self
            },
        }
    }

    fn duplicate(&self) -> (r: Size) {
        *self
    }
}

impl<T: Interpolatable> Interpolatable for Option<T> {
    /// Two present values move between each other; a value that appears or
    /// disappears does so at the end.
    open spec fn interpolated(self, other: Option<T>, m: int) -> Option<T> {
        match (self, other) {
            (Some(a), Some(b)) => Some(a.interpolated(b, m)),
            _ => step(self, other, m),
        }
    }

    proof fn lemma_interpolated_ends(a: Option<T>, b: Option<T>) {
        match (a, b) {
            (Some(x), Some(y)) => {
                T::lemma_interpolated_ends(x, y);
            },
            _ => {},
        }
    }

    fn interpolate(&self, other: &Option<T>, m: i64) -> (r: Option<T>) {
        match (self, other) {
            (Some(a), Some(b)) => Some(a.interpolate(b, m)),
            _ => if m >= UNIT {
                other.duplicate()
            } else {
                self.duplicate()
            },
        }
    }

    fn duplicate(&self) -> (r: Option<T>) {
        match self {
            Some(a) => Some(a.duplicate()),
            None => None,
        }
    }
}

impl Interpolatable for String {
    open spec fn interpolated(self, other: String, m: int) -> String {
        step(self, other, m)
    }

    proof fn lemma_interpolated_ends(a: String, b: String) {
    }

    fn interpolate(&self, other: &String, m: i64) -> (r: String) {
        if m >= UNIT {
            other.clone()
        } else {
            self.clone()
        }
    }

    fn duplicate(&self) -> (r: String) {
        self.clone()
    }
}

impl Interpolatable for Transform2D {
    open spec fn interpolated(self, other: Transform2D, m: int) -> Transform2D {
        step(self, other, m)
    }

    proof fn lemma_interpolated_ends(a: Transform2D, b: Transform2D) {
    }

    fn interpolate(&self, other: &Transform2D, m: i64) -> (r: Transform2D) {
        if m >= UNIT {
            other.duplicate()
        } else {
            self.duplicate()
        }
    }

    fn duplicate(&self) -> (r: Transform2D) {
        Transform2D::duplicate(self)
    }
}

impl EasingCurve {
    /// The value between `v0` and `v1` at time `t` on `[0, UNIT]`, shaped by this curve.
    pub fn interpolate<T: Interpolatable>(&self, v0: &T, v1: &T, t: i64) -> (r: T)
        requires
            0 <= t <= UNIT,
        ensures
            r == v0.interpolated(*v1, eased(*self, t as int)),
    {
        let multiplier = self.ease(t);
        v0.interpolate(v1, multiplier)
    }
}

/// Each element of `a` moved `m / UNIT` of the way to the matching element of
/// `b`; the two must have the same length.
pub fn interpolate_vec<T: Interpolatable>(a: &Vec<T>, b: &Vec<T>, m: i64) -> (r: Vec<T>)
    requires
        a@.len() == b@.len(),
    ensures
        r@.len() == a@.len(),
        forall|i: int| 0 <= i < a@.len() ==> r@[i] == a@[i].interpolated(b@[i], m as int),
{
    let mut r: Vec<T> = Vec::new();
    let mut i: usize = 0;
    while i < a.len()
        invariant
            a@.len() == b@.len(),
            0 <= i <= a@.len(),
            r@.len() == i,
            forall|j: int| 0 <= j < i ==> r@[j] == a@[j].interpolated(b@[j], m as int),
        decreases a@.len() - i,
    {
        r.push(a[i].interpolate(&b[i], m));
        i = i + 1;
    }
    r
}

/// One pending transition of a property cell.
pub struct TransitionQueueEntry<T> {
    pub global_frame_started: Option<u64>,
    pub duration_frames: u64,
    pub curve: EasingCurve,
    pub starting_value: T,
    pub ending_value: T,
}

/// The transitions of a property cell, in the order they run.
pub struct TransitionManager<T> {
    pub queue: VecDeque<TransitionQueueEntry<T>>,
}

impl<T> TransitionManager<T> {
    pub fn new() -> (r: Self)
        ensures
            r.queue@.len() == 0,
    {
        TransitionManager { queue: VecDeque::new() }
    }
}

pub open spec fn new_entry<T>(start: T, end: T, duration: u64, curve: EasingCurve) -> TransitionQueueEntry<
    T,
> {
    TransitionQueueEntry {
        global_frame_started: None,
        duration_frames: duration,
        curve,
        starting_value: start,
        ending_value: end,
    }
}

/// Where a transition appended to `queue` starts: the end of the last queued
/// transition, or the current value when none is queued.
pub open spec fn chain_start<T>(queue: Seq<TransitionQueueEntry<T>>, current: T) -> T {
    if queue.len() > 0 {
        queue.last().ending_value
    } else {
        current
    }
}

/// `queue` with a transition to `end` appended.
pub open spec fn queued_later<T>(
    queue: Seq<TransitionQueueEntry<T>>,
    current: T,
    end: T,
    duration: u64,
    curve: EasingCurve,
) -> Seq<TransitionQueueEntry<T>> {
    queue.push(new_entry(chain_start(queue, current), end, duration, curve))
}

/// The tick at which `e` started, or `now` if it has not started yet.
pub open spec fn started_at<T>(e: TransitionQueueEntry<T>, now: u64) -> u64 {
    match e.global_frame_started {
        Some(s) => s,
        None => now,
    }
}

/// Ticks since `start`; none before it.
pub open spec fn elapsed(start: u64, now: u64) -> int {
    if now >= start {
        now - start
    } else {
        0
    }
}

/// `elapsed / duration` clamped to `[0, 1]`, in units of `UNIT`, rounded down.
pub open spec fn progress(elapsed: int, duration: int) -> int {
    if elapsed >= duration {
        UNIT as int
    } else {
        (elapsed * UNIT) / duration
    }
}

/// Whether `e`, sampled at `now`, has run its full duration.
pub open spec fn finished<T>(e: TransitionQueueEntry<T>, now: u64) -> bool {
    elapsed(started_at(e, now), now) >= e.duration_frames
}

/// The value of transition `e` at tick `now`.
pub open spec fn sample<T: Interpolatable>(e: TransitionQueueEntry<T>, now: u64) -> T {
    e.starting_value.interpolated(
        e.ending_value,
        eased(e.curve, progress(elapsed(started_at(e, now), now), e.duration_frames as int)),
    )
}

/// The queue after its head was sampled at `now`: a finished head leaves and the
/// next transition starts at `now`; an unfinished one keeps its start tick.
pub open spec fn advanced<T>(queue: Seq<TransitionQueueEntry<T>>, now: u64) -> Seq<
    TransitionQueueEntry<T>,
> {
    let e = queue[0];
    if finished(e, now) {
        let rest = queue.skip(1);
        if rest.len() > 0 {
            rest.update(0, TransitionQueueEntry { global_frame_started: Some(now), ..rest[0] })
        } else {
            rest
        }
    } else {
        queue.update(0, TransitionQueueEntry { global_frame_started: Some(started_at(e, now)), ..e })
    }
}

/// Only the head of the queue may have a start tick.
pub open spec fn one_running<T>(queue: Seq<TransitionQueueEntry<T>>) -> bool {
    forall|i: int| 1 <= i < queue.len() ==> (#[trigger] queue[i]).global_frame_started is None
}

/// A property cell holding a literal value, with a queue of transitions.
pub struct PropertyLiteral<T> {
    value: T,
    transition_manager: TransitionManager<T>,
    vtable_id: Option<usize>,
}

impl<T: Interpolatable> PropertyLiteral<T> {
    /// The value the cell holds now.
    pub closed spec fn current(self) -> T {
        self.value
    }

    /// The pending transitions, the running one first.
    pub closed spec fn queue(self) -> Seq<TransitionQueueEntry<T>> {
        self.transition_manager.queue@
    }

    /// The id of the expression that computes this cell, if one does.
    pub closed spec fn expression_id(self) -> Option<usize> {
        self.vtable_id
    }

    pub fn new(value: T) -> (r: Self)
        ensures
            r.current() == value,
            r.queue().len() == 0,
            r.expression_id() is None,
    {
        PropertyLiteral { value, transition_manager: TransitionManager::new(), vtable_id: None }
    }

    /// A cell bound to the expression `vtable_id`, holding `value` until that
    /// expression is first computed.
    pub fn new_expression(value: T, vtable_id: usize) -> (r: Self)
        ensures
            r.current() == value,
            r.queue().len() == 0,
            r.expression_id() == Some(vtable_id),
    {
        PropertyLiteral { value, transition_manager: TransitionManager::new(), vtable_id: Some(vtable_id) }
    }

    pub fn get_vtable_id(&self) -> (r: Option<usize>)
        ensures
            r == self.expression_id(),
    {
        self.vtable_id
    }

    pub fn get(&self) -> (r: &T)
        ensures
            *r == self.current(),
    {
        &self.value
    }

    /// Overwrites the value; queued transitions stay.
    pub fn set(&mut self, value: T)
        ensures
            final(self).current() == value,
            final(self).queue() == old(self).queue(),
            final(self).expression_id() == old(self).expression_id(),
    {
        self.value = value;
    }

    /// The transitions, for inspection.
    pub fn get_transition_manager(&self) -> (r: &TransitionManager<T>)
        ensures
            r.queue@ == self.queue(),
    {
        &self.transition_manager
    }

    /// Whether a transition is pending.
    pub fn is_transitioning(&self) -> (r: bool)
        ensures
            r == (self.queue().len() > 0),
    {
        self.transition_manager.queue.len() > 0
    }

    /// Replaces the queue with one transition from the current value to `new_value`.
    /// The value itself does not change until the cell is ticked.
    pub fn ease_to(&mut self, new_value: T, duration_frames: u64, curve: EasingCurve)
        ensures
            final(self).current() == old(self).current(),
            final(self).queue() == seq![
                new_entry(old(self).current(), new_value, duration_frames, curve),
            ],
            one_running(final(self).queue()),
    {
        let start = self.value.duplicate();
        let mut queue = VecDeque::new();
        queue.push_back(
            TransitionQueueEntry {
                global_frame_started: None,
                duration_frames,
                curve,
                starting_value: start,
                ending_value: new_value,
            },
        );
        self.transition_manager = TransitionManager { queue };
    }

    /// Appends a transition to `new_value` that starts where the queue ends, or
    /// at the current value when the queue is empty.
    pub fn ease_to_later(&mut self, new_value: T, duration_frames: u64, curve: EasingCurve)
        ensures
            final(self).current() == old(self).current(),
            final(self).queue() == queued_later(
                old(self).queue(),
                old(self).current(),
                new_value,
                duration_frames,
                curve,
            ),
            one_running(old(self).queue()) ==> one_running(final(self).queue()),
    {
        let n = self.transition_manager.queue.len();
        let starting_value = if n > 0 {
            self.transition_manager.queue[n - 1].ending_value.duplicate()
        } else {
            self.value.duplicate()
        };
        self.transition_manager.queue.push_back(
            TransitionQueueEntry {
                global_frame_started: None,
                duration_frames,
                curve,
                starting_value,
                ending_value: new_value,
            },
        );
    }

    /// Advances the running transition to tick `now`: records its start tick if it
    /// has none, writes its eased value, and when it has run its full duration
    /// removes it and starts the next one at `now`.
    pub fn tick_transition(&mut self, now: u64)
        ensures
            old(self).queue().len() == 0 ==> final(self).current() == old(self).current()
                && final(self).queue() == old(self).queue(),
            old(self).queue().len() > 0 ==> final(self).current() == sample(old(self).queue()[0], now)
                && final(self).queue() == advanced(old(self).queue(), now),
            one_running(old(self).queue()) ==> one_running(final(self).queue()),
    {
        if self.transition_manager.queue.len() == 0 {
            return;
        }
        let started = match self.transition_manager.queue[0].global_frame_started {
            Some(s) => s,
            None => now,
        };
        let duration = self.transition_manager.queue[0].duration_frames;
        let curve = self.transition_manager.queue[0].curve;
        let elapsed: u64 = if now >= started {
            now - started
        } else {
            0
        };
        let t: i64 = if elapsed >= duration {
            UNIT
        } else {
            proof {
                lemma_progress_below_unit(elapsed as int, duration as int);
            }
            ((elapsed as u128 * UNIT as u128) / duration as u128) as i64
        };
        let v = curve.interpolate(
            &self.transition_manager.queue[0].starting_value,
            &self.transition_manager.queue[0].ending_value,
            t,
        );
        self.value = v;
        let head = self.transition_manager.queue.pop_front();
        if elapsed >= duration {
            match self.transition_manager.queue.pop_front() {
                Some(next) => {
                    self.transition_manager.queue.push_front(
                        TransitionQueueEntry { global_frame_started: Some(now), ..next },
                    );
                },
                None => {},
            }
        } else {
            match head {
                Some(e) => {
                    self.transition_manager.queue.push_front(
                        TransitionQueueEntry { global_frame_started: Some(started), ..e },
                    );
                },
                None => {},
            }
        }
        proof {
            assert(final(self).queue() =~= advanced(old(self).queue(), now));
        }
    }

    /// One tick of the cell: a freshly computed value wins and the queue is
    /// skipped, not cleared, for this tick; without one, the queue advances.
    pub fn apply_computed(&mut self, computed: Option<T>, now: u64)
        ensures
            computed is Some ==> final(self).current() == computed.unwrap()
                && final(self).queue() == old(self).queue(),
            computed is None && old(self).queue().len() == 0 ==> final(self).current() == old(
                self,
            ).current() && final(self).queue() == old(self).queue(),
            computed is None && old(self).queue().len() > 0 ==> final(self).current() == sample(
                old(self).queue()[0],
                now,
            ) && final(self).queue() == advanced(old(self).queue(), now),
    {
        match computed {
            Some(v) => self.set(v),
            None => self.tick_transition(now),
        }
    }
}

proof fn lemma_progress_below_unit(e: int, d: int)
    requires
        0 <= e < d,
    ensures
        0 <= (e * UNIT) / d < UNIT,
{
    vstd::arithmetic::div_mod::lemma_fundamental_div_mod(e * UNIT, d);
    let q = (e * UNIT) / d;
    let r = (e * UNIT) % d;
    assert(0 <= q < 1_000_000) by (nonlinear_arith)
        requires
            e * 1_000_000 == d * q + r,
            0 <= r < d,
            0 <= e < d,
    ;
}

/// Two transitions appended one after the other, with no tick between them, add two
/// entries to the queue, and the second starts where the first ends.
pub proof fn law_ease_later_chains<T>(
    queue: Seq<TransitionQueueEntry<T>>,
    current: T,
    first: T,
    first_duration: u64,
    first_curve: EasingCurve,
    second: T,
    second_duration: u64,
    second_curve: EasingCurve,
)
    ensures
        ({
            let q1 = queued_later(queue, current, first, first_duration, first_curve);
            let q2 = queued_later(q1, current, second, second_duration, second_curve);
            &&& q2.len() == queue.len() + 2
            &&& q2[q2.len() - 2].ending_value == first
            &&& q2[q2.len() - 1].ending_value == second
            &&& q2[q2.len() - 1].starting_value == q2[q2.len() - 2].ending_value
        }),
{
}

/// A transition that started at tick `s` holds exactly its end value at tick
/// `s + duration` and after, and, when its duration is not zero, exactly its start
/// value at any tick before `s`.
pub proof fn law_transition_boundaries<T: Interpolatable>(
    e: TransitionQueueEntry<T>,
    s: u64,
    now: u64,
)
    requires
        e.global_frame_started == Some(s),
    ensures
        now >= s + e.duration_frames ==> sample(e, now) == e.ending_value && finished(e, now),
        now < s && e.duration_frames > 0 ==> sample(e, now) == e.starting_value && !finished(
            e,
            now,
        ),
{
    lemma_eased_ends(e.curve);
    T::lemma_interpolated_ends(e.starting_value, e.ending_value);
}

} // verus!
