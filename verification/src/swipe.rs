//! From the travel of a held gesture button to a swipe.
//!
//! [`detect_swipe`] classifies travel, and [`SwipeAccumulator`] is the state of
//! one hold: it sums the travel and reports at most one swipe, or a click.
use std::time::Instant;
use vstd::prelude::*;
use crate::binding::GestureDirection;

verus! {

/// Minimum dominant-axis travel (raw-XY units) before a held gesture commits to
/// a direction.
pub const GESTURE_SWIPE_THRESHOLD: i32 = 50;

/// Maximum cross-axis travel allowed at the threshold, so only a reasonably
/// straight swipe commits. Grows with the dominant axis (`max(deadzone, 35%)`).
pub const GESTURE_SWIPE_DEADZONE: i32 = 40;

/// Minimum time in milliseconds that a gesture button must be held before its
/// travel can commit to a swipe. Tells a deliberate hold-and-swipe from a quick
/// click whose cursor happened to be moving.
pub const GESTURE_HOLD_FOR_SWIPE_MILLIS: u64 = 160;

// ---------------------------------------------------------------------------
// Saturating arithmetic
// ---------------------------------------------------------------------------

/// `x`, or the nearest bound where `x` does not fit in 32 bits.
pub open spec fn saturated(x: int) -> int {
    if x < i32::MIN {
        i32::MIN as int
    } else if x > i32::MAX {
        i32::MAX as int
    } else {
        x
    }
}

/// The distance of `x` from zero, at most `i32::MAX`.
pub open spec fn magnitude(x: int) -> int {
    saturated(if x < 0 {
        -x
    } else {
        x
    })
}

/// Brings a wide result back to 32 bits.
pub fn saturate(x: i64) -> (r: i32)
    ensures
        r == saturated(x as int),
{
    if x < i32::MIN as i64 {
        i32::MIN
    } else if x > i32::MAX as i64 {
        i32::MAX
    } else {
        x as i32
    }
}

fn magnitude_of(x: i32) -> (r: i32)
    ensures
        r == magnitude(x as int),
        r >= 0,
{
    saturate(if x < 0 {
        -(x as i64)
    } else {
        x as i64
    })
}

// ---------------------------------------------------------------------------
// Classification
// ---------------------------------------------------------------------------

/// The cross-axis travel that a swipe of `dominant` on its main axis may have.
pub open spec fn cross_limit(dominant: int) -> int {
    let share = dominant * 35 / 100;
    if share > GESTURE_SWIPE_DEADZONE {
        share
    } else {
        GESTURE_SWIPE_DEADZONE as int
    }
}

/// The swipe that the travel (`dx`, `dy`) comes to, if any: the axis with the
/// larger travel has to reach the threshold, the other one has to stay within
/// the limit. `+x` is right and `+y` is down.
pub open spec fn swipe_of(dx: int, dy: int) -> Option<GestureDirection> {
    let (x, y) = (magnitude(dx), magnitude(dy));
    let (dominant, cross) = if x > y {
        (x, y)
    } else {
        (y, x)
    };
    if dominant < GESTURE_SWIPE_THRESHOLD || cross > cross_limit(dominant) {
        None
    } else if x > y {
        if dx > 0 {
            Some(GestureDirection::Right)
        } else {
            Some(GestureDirection::Left)
        }
    } else {
        if dy > 0 {
            Some(GestureDirection::Down)
        } else {
            Some(GestureDirection::Up)
        }
    }
}

/// Classify the *running* raw-XY travel of a held gesture button into a
/// directional swipe, the instant it commits, or `None` while it is still too
/// short or too diagonal.
///
/// The dominant axis must reach [`GESTURE_SWIPE_THRESHOLD`] while the cross axis
/// stays within `max(`[`GESTURE_SWIPE_DEADZONE`]`, 35% of dominant)`. Travel of
/// any size is accepted, up to the bounds of its type.
///
/// Coordinates follow the device's raw-XY convention (`+x` = right, `+y` =
/// down), so an upward swipe (negative `dy`) maps to [`GestureDirection::Up`].
#[must_use]
pub fn detect_swipe(dx: i32, dy: i32) -> (r: Option<GestureDirection>)
    ensures
        r == swipe_of(dx as int, dy as int),
{
    let (abs_x, abs_y) = (magnitude_of(dx), magnitude_of(dy));
    let dominant: i32 = if abs_x > abs_y {
        abs_x
    } else {
        abs_y
    };
    if dominant < GESTURE_SWIPE_THRESHOLD {
        return None;
    }
    let share: i32 = (dominant as i64 * 35 / 100) as i32;
    let limit: i32 = if share > GESTURE_SWIPE_DEADZONE {
        share
    } else {
        GESTURE_SWIPE_DEADZONE
    };
    if abs_x > abs_y {
        if abs_y > limit {
            return None;
        }
        Some(
            if dx > 0 {
                GestureDirection::Right
            } else {
                GestureDirection::Left
            },
        )
    } else {
        if abs_x > limit {
            return None;
        }
        Some(
            if dy > 0 {
                GestureDirection::Down
            } else {
                GestureDirection::Up
            },
        )
    }
}

/// A swipe is never a click.
pub proof fn law_swipe_is_directional(dx: i32, dy: i32)
    ensures
        swipe_of(dx as int, dy as int) != Some(GestureDirection::Click),
{
}

/// Travel along a perfect diagonal is never a swipe.
pub proof fn law_diagonal_never_commits(dx: i32, dy: i32)
    requires
        magnitude(dx as int) == magnitude(dy as int),
    ensures
        swipe_of(dx as int, dy as int) is None,
{
}

/// The direction that faces `d` across the vertical axis.
pub open spec fn mirrored(d: GestureDirection) -> GestureDirection {
    match d {
        GestureDirection::Left => GestureDirection::Right,
        GestureDirection::Right => GestureDirection::Left,
        _ => d,
    }
}

/// The direction that `d` becomes when the two axes trade places.
pub open spec fn transposed(d: GestureDirection) -> GestureDirection {
    match d {
        GestureDirection::Up => GestureDirection::Left,
        GestureDirection::Left => GestureDirection::Up,
        GestureDirection::Down => GestureDirection::Right,
        GestureDirection::Right => GestureDirection::Down,
        GestureDirection::Click => d,
    }
}

/// Left and right are treated alike: mirrored travel gives the mirrored swipe.
pub proof fn law_mirror(dx: i32, dy: i32)
    ensures
        swipe_of(-dx, dy as int) == match swipe_of(dx as int, dy as int) {
            Some(d) => Some(mirrored(d)),
            None => None,
        },
{
}

/// The two axes are treated alike: travel with the axes exchanged gives the swipe
/// with the axes exchanged.
pub proof fn law_transpose(dx: i32, dy: i32)
    ensures
        swipe_of(dy as int, dx as int) == match swipe_of(dx as int, dy as int) {
            Some(d) => Some(transposed(d)),
            None => None,
        },
{
}

/// A swipe that commits still commits with more travel along its axis, in each of
/// the four directions.
pub proof fn law_further_travel_commits(dx: i32, dy: i32, more: i32)
    ensures
        swipe_of(dx as int, dy as int) == Some(GestureDirection::Right) && more >= dx ==> swipe_of(
            more as int,
            dy as int,
        ) == Some(GestureDirection::Right),
        swipe_of(dx as int, dy as int) == Some(GestureDirection::Left) && more <= dx ==> swipe_of(
            more as int,
            dy as int,
        ) == Some(GestureDirection::Left),
        swipe_of(dx as int, dy as int) == Some(GestureDirection::Down) && more >= dy ==> swipe_of(
            dx as int,
            more as int,
        ) == Some(GestureDirection::Down),
        swipe_of(dx as int, dy as int) == Some(GestureDirection::Up) && more <= dy ==> swipe_of(
            dx as int,
            more as int,
        ) == Some(GestureDirection::Up),
{
}

// ---------------------------------------------------------------------------
// One hold
// ---------------------------------------------------------------------------

/// A moment on the monotonic clock. Nothing is known of one moment but that it
/// is one.
#[verifier::external_type_specification]
#[verifier::external_body]
pub struct ExInstant(Instant);

/// The present moment: `Instant::now` depends on the clock alone, so nothing is
/// said of its result.
pub assume_specification[ Instant::now ]() -> (r: Instant);

/// Whole milliseconds from `since` until now, by `Instant::elapsed`. The result
/// depends on the clock, so nothing is said of it.
#[verifier::external_body]
fn millis_since(since: &Instant) -> (r: u128) {
    since.elapsed().as_millis()
}

/// The mid-swipe state machine of a gesture button.
///
/// A hold accumulates travel; the instant the dominant axis commits a direction,
/// after the button has been held [`GESTURE_HOLD_FOR_SWIPE_MILLIS`],
/// [`Self::accumulate`] returns that direction, exactly once. A hold that never
/// commits is a plain click, reported by [`Self::end`].
#[derive(Debug)]
pub struct SwipeAccumulator {
    /// Since when the current hold is timed, or `None` when not holding.
    held_since: Option<Instant>,
    /// Milliseconds that the hold had lasted by then.
    head_start: u64,
    /// Accumulated raw-XY travel since the hold began, saturating.
    dx: i32,
    dy: i32,
    /// Set once a direction has committed this hold.
    fired: bool,
}

/// What a [`SwipeAccumulator`] stands for.
pub struct HoldView {
    /// Whether a hold is in progress.
    pub holding: bool,
    /// Milliseconds that the hold had lasted when its timing began: none, unless it
    /// was backdated.
    pub head_start: int,
    /// The travel since the hold began.
    pub dx: int,
    pub dy: int,
    /// Whether the hold has reported its swipe.
    pub fired: bool,
}

impl HoldView {
    /// A fresh hold.
    pub open spec fn begun() -> HoldView {
        HoldView { holding: true, head_start: 0, dx: 0, dy: 0, fired: false }
    }

    /// The hold as it is when it has lasted twice the time that a swipe needs.
    /// Without a hold there is nothing to backdate.
    pub open spec fn backdated(self) -> HoldView {
        if self.holding {
            HoldView { head_start: 2 * GESTURE_HOLD_FOR_SWIPE_MILLIS, ..self }
        } else {
            self
        }
    }

    /// Whether travel still counts.
    pub open spec fn listening(self) -> bool {
        self.holding && !self.fired
    }

    /// What moving by (`dx`, `dy`) reports, `held_millis` into the hold.
    pub open spec fn reported(self, dx: int, dy: int, held_millis: int) -> Option<
        GestureDirection,
    > {
        if self.listening() && held_millis >= GESTURE_HOLD_FOR_SWIPE_MILLIS {
            swipe_of(saturated(self.dx + dx), saturated(self.dy + dy))
        } else {
            None
        }
    }

    /// The state after moving by (`dx`, `dy`), `held_millis` into the hold.
    pub open spec fn moved(self, dx: int, dy: int, held_millis: int) -> HoldView {
        if self.listening() {
            HoldView {
                dx: saturated(self.dx + dx),
                dy: saturated(self.dy + dy),
                fired: self.reported(dx, dy, held_millis) is Some,
                ..self
            }
        } else {
            self
        }
    }
}

/// Whether `moment` is one that the clock gave as the present.
pub closed spec fn clock_gave(moment: Instant) -> bool {
    call_ensures(Instant::now, (), moment)
}

/// Whether `millis` is what the clock said of the time since `since`.
pub closed spec fn clock_read(since: Instant, millis: u128) -> bool {
    call_ensures(millis_since, (&since,), millis)
}

/// What feeding a delta comes to: the report and the state are those of a hold
/// that has lasted `timed` milliseconds, which is what the clock said of the time
/// since the hold's own moment, on top of its head start.
pub open spec fn fed(
    acc: SwipeAccumulator,
    dx: int,
    dy: int,
    timed: u128,
    r: Option<GestureDirection>,
    after: HoldView,
) -> bool {
    &&& acc@.holding ==> clock_read(acc.since()->Some_0, timed)
    &&& r == acc@.reported(dx, dy, timed + acc@.head_start)
    &&& after == acc@.moved(dx, dy, timed + acc@.head_start)
}

/// A hold is timed from some moment, and without a hold there is none.
pub proof fn law_timed_while_holding(acc: SwipeAccumulator)
    ensures
        acc@.holding <==> acc.since() is Some,
{
}

impl View for SwipeAccumulator {
    type V = HoldView;

    closed spec fn view(&self) -> HoldView {
        HoldView {
            holding: self.held_since is Some,
            head_start: self.head_start as int,
            dx: self.dx as int,
            dy: self.dy as int,
            fired: self.fired,
        }
    }
}

impl Default for SwipeAccumulator {
    fn default() -> (r: Self)
        ensures
            r@ == (HoldView { holding: false, head_start: 0, dx: 0, dy: 0, fired: false }),
    {
        SwipeAccumulator { held_since: None, head_start: 0, dx: 0, dy: 0, fired: false }
    }
}

impl SwipeAccumulator {
    /// The moment from which the current hold is timed.
    pub closed spec fn since(self) -> Option<Instant> {
        self.held_since
    }

    /// Begin a fresh hold, resetting the travel and the commit state. It is timed
    /// from now on.
    pub fn begin(&mut self)
        ensures
            final(self)@ == HoldView::begun(),
            final(self).since() matches Some(moment) && clock_gave(moment),
    {
        self.held_since = Some(Instant::now());
        self.head_start = 0;
        self.dx = 0;
        self.dy = 0;
        self.fired = false;
    }

    /// Whether a hold is in progress (between [`Self::begin`] and [`Self::end`]).
    #[must_use]
    pub fn is_holding(&self) -> (r: bool)
        ensures
            r == self@.holding,
    {
        self.held_since.is_some()
    }

    /// Feed a pointer-move / raw-XY delta into the current hold. Returns
    /// `Some(direction)` at most once per hold: the instant travel commits, and
    /// only after the hold passes [`GESTURE_HOLD_FOR_SWIPE_MILLIS`].
    ///
    /// How long the button has been held is what the clock says of the time since
    /// the hold began, which no delta changes; for each value that it may have,
    /// [`Self::accumulate_after`] says what happens. It is never less than the head
    /// start of the hold, so a hold that was backdated past the time that a swipe
    /// needs is judged by its travel alone.
    pub fn accumulate(&mut self, dx: i32, dy: i32) -> (r: Option<GestureDirection>)
        ensures
            exists|timed: u128| #[trigger]
                fed(*old(self), dx as int, dy as int, timed, r, final(self)@),
            final(self).since() == old(self).since(),
            !old(self)@.listening() ==> r is None && final(self)@ == old(self)@,
            old(self)@.listening() && old(self)@.head_start >= GESTURE_HOLD_FOR_SWIPE_MILLIS ==> r
                == swipe_of(saturated(old(self)@.dx + dx), saturated(old(self)@.dy + dy)),
    {
        let timed: u128 = match &self.held_since {
            Some(since) => millis_since(since),
            None => 0,
        };
        let held_millis: u128 = match timed.checked_add(self.head_start as u128) {
            Some(sum) => sum,
            None => u128::MAX,
        };
        let ghost before = *self;
        let r = self.accumulate_after(dx, dy, held_millis);
        assert(fed(before, dx as int, dy as int, timed, r, self@));
        r
    }

    /// Feed a delta into the current hold, which began `held_millis` ago.
    pub fn accumulate_after(&mut self, dx: i32, dy: i32, held_millis: u128) -> (r: Option<
        GestureDirection,
    >)
        ensures
            r == old(self)@.reported(dx as int, dy as int, held_millis as int),
            final(self)@ == old(self)@.moved(dx as int, dy as int, held_millis as int),
            final(self).since() == old(self).since(),
    {
        if self.fired || self.held_since.is_none() {
            return None;
        }
        self.dx = saturate(self.dx as i64 + dx as i64);
        self.dy = saturate(self.dy as i64 + dy as i64);
        if held_millis >= GESTURE_HOLD_FOR_SWIPE_MILLIS as u128 {
            if let Some(dir) = detect_swipe(self.dx, self.dy) {
                self.fired = true;
                return Some(dir);
            }
        }
        None
    }

    /// End the current hold. Returns `true` when an in-progress hold ended
    /// without committing a swipe, so that the caller should fire the plain
    /// click action, and `false` when a swipe already fired, or when there was
    /// no hold to end.
    pub fn end(&mut self) -> (r: bool)
        ensures
            r == old(self)@.listening(),
            final(self)@ == (HoldView { holding: false, ..old(self)@ }),
            final(self).since() is None,
    {
        let was_click = self.held_since.is_some() && !self.fired;
        self.held_since = None;
        was_click
    }

    /// Backdate the current hold, so that it has lasted twice the time that a
    /// swipe needs. Nothing happens when not holding.
    pub fn backdate_hold_for_test(&mut self)
        ensures
            final(self)@ == old(self)@.backdated(),
            old(self)@.holding ==> (final(self).since() matches Some(moment) && clock_gave(moment)),
            !old(self)@.holding ==> final(self).since() == old(self).since(),
    {
        if self.held_since.is_some() {
            self.held_since = Some(Instant::now());
            self.head_start = GESTURE_HOLD_FOR_SWIPE_MILLIS * 2;
        }
    }
}

// ---------------------------------------------------------------------------
// What holds of a whole hold
// ---------------------------------------------------------------------------

/// One delta fed into a hold, and how long the hold had lasted by then.
pub struct Move {
    pub dx: i32,
    pub dy: i32,
    pub held_millis: u128,
}

/// The state after a sequence of moves.
pub open spec fn after_moves(v: HoldView, moves: Seq<Move>) -> HoldView
    decreases moves.len(),
{
    if moves.len() == 0 {
        v
    } else {
        let m = moves.last();
        after_moves(v, moves.drop_last()).moved(m.dx as int, m.dy as int, m.held_millis as int)
    }
}

/// The swipes that a sequence of moves reports, in order.
pub open spec fn swipes(v: HoldView, moves: Seq<Move>) -> Seq<GestureDirection>
    decreases moves.len(),
{
    if moves.len() == 0 {
        Seq::empty()
    } else {
        let m = moves.last();
        let earlier = swipes(v, moves.drop_last());
        match after_moves(v, moves.drop_last()).reported(
            m.dx as int,
            m.dy as int,
            m.held_millis as int,
        ) {
            Some(d) => earlier.push(d),
            None => earlier,
        }
    }
}

/// From its beginning to its end a hold reports exactly one thing: one swipe, or
/// the click that [`SwipeAccumulator::end`] returns.
pub proof fn law_one_report_per_hold(moves: Seq<Move>)
    ensures
        swipes(HoldView::begun(), moves).len() <= 1,
        after_moves(HoldView::begun(), moves).holding,
        after_moves(HoldView::begun(), moves).listening() <==> swipes(
            HoldView::begun(),
            moves,
        ).len() == 0,
    decreases moves.len(),
{
    if moves.len() > 0 {
        law_one_report_per_hold(moves.drop_last());
    }
}

/// A quick tap is a click however the cursor moves: no move reports a swipe
/// before the hold has lasted long enough.
pub proof fn law_quick_tap_is_a_click(moves: Seq<Move>)
    requires
        forall|i: int|
            0 <= i < moves.len() ==> (#[trigger] moves[i]).held_millis
                < GESTURE_HOLD_FOR_SWIPE_MILLIS,
    ensures
        swipes(HoldView::begun(), moves).len() == 0,
        after_moves(HoldView::begun(), moves).listening(),
    decreases moves.len(),
{
    if moves.len() > 0 {
        let earlier = moves.drop_last();
        assert forall|i: int| 0 <= i < earlier.len() implies (#[trigger] earlier[i]).held_millis
            < GESTURE_HOLD_FOR_SWIPE_MILLIS by {
            assert(earlier[i] == moves[i]);
        }
        law_quick_tap_is_a_click(earlier);
        assert(moves.last() == moves[moves.len() - 1]);
        law_one_report_per_hold(moves);
    }
}

/// The travel of a sequence of moves along the x axis.
pub open spec fn total_dx(moves: Seq<Move>) -> int
    decreases moves.len(),
{
    if moves.len() == 0 {
        0
    } else {
        total_dx(moves.drop_last()) + moves.last().dx
    }
}

/// The travel of a sequence of moves along the y axis.
pub open spec fn total_dy(moves: Seq<Move>) -> int
    decreases moves.len(),
{
    if moves.len() == 0 {
        0
    } else {
        total_dy(moves.drop_last()) + moves.last().dy
    }
}

/// Until it commits, a hold is judged by all of its travel: the small deltas add
/// up, as long as the sums stay within 32 bits.
pub proof fn law_travel_adds_up(moves: Seq<Move>)
    requires
        forall|i: int|
            0 <= i <= moves.len() ==> {
                &&& i32::MIN <= #[trigger] total_dx(moves.take(i)) <= i32::MAX
                &&& i32::MIN <= total_dy(moves.take(i)) <= i32::MAX
            },
        swipes(HoldView::begun(), moves).len() == 0,
    ensures
        after_moves(HoldView::begun(), moves).dx == total_dx(moves),
        after_moves(HoldView::begun(), moves).dy == total_dy(moves),
    decreases moves.len(),
{
    if moves.len() > 0 {
        let earlier = moves.drop_last();
        assert forall|i: int| 0 <= i <= earlier.len() implies {
            &&& i32::MIN <= #[trigger] total_dx(earlier.take(i)) <= i32::MAX
            &&& i32::MIN <= total_dy(earlier.take(i)) <= i32::MAX
        } by {
            assert(earlier.take(i) =~= moves.take(i));
            assert(i32::MIN <= total_dx(moves.take(i)) <= i32::MAX);
        }
        law_travel_adds_up(earlier);
        law_one_report_per_hold(earlier);
        assert(moves.take(moves.len() as int) =~= moves);
        assert(i32::MIN <= total_dx(moves.take(moves.len() as int)) <= i32::MAX);
    }
}

/// The travel of a sequence of moves along the x axis, brought back to 32 bits at
/// each step.
pub open spec fn saturated_dx(moves: Seq<Move>) -> int
    decreases moves.len(),
{
    if moves.len() == 0 {
        0
    } else {
        saturated(saturated_dx(moves.drop_last()) + moves.last().dx)
    }
}

/// The travel of a sequence of moves along the y axis, brought back to 32 bits at
/// each step.
pub open spec fn saturated_dy(moves: Seq<Move>) -> int
    decreases moves.len(),
{
    if moves.len() == 0 {
        0
    } else {
        saturated(saturated_dy(moves.drop_last()) + moves.last().dy)
    }
}

/// The swipe that the travel up to and with move `i` comes to, where the hold has
/// lasted long enough by then.
pub open spec fn commits_at(moves: Seq<Move>, i: int) -> Option<GestureDirection> {
    if moves[i].held_millis >= GESTURE_HOLD_FOR_SWIPE_MILLIS {
        swipe_of(saturated_dx(moves.take(i + 1)), saturated_dy(moves.take(i + 1)))
    } else {
        None
    }
}

/// Until a move commits, a hold is judged by all of its travel, however far it
/// goes: the travel is summed and saturates, and nothing is reported.
pub proof fn law_travel_saturates(moves: Seq<Move>)
    requires
        forall|i: int| 0 <= i < moves.len() ==> #[trigger] commits_at(moves, i) is None,
    ensures
        after_moves(HoldView::begun(), moves) == (HoldView {
            dx: saturated_dx(moves),
            dy: saturated_dy(moves),
            ..HoldView::begun()
        }),
        swipes(HoldView::begun(), moves) == Seq::<GestureDirection>::empty(),
    decreases moves.len(),
{
    if moves.len() > 0 {
        let earlier = moves.drop_last();
        assert forall|i: int| 0 <= i < earlier.len() implies (#[trigger] commits_at(
            earlier,
            i,
        )) is None by {
            assert(earlier.take(i + 1) =~= moves.take(i + 1));
            assert(commits_at(moves, i) is None);
        }
        law_travel_saturates(earlier);
        assert(moves.take(moves.len() as int) =~= moves);
        assert(commits_at(moves, moves.len() - 1) is None);
    }
}

/// The one report of a hold comes at the first move that commits, and is the swipe
/// of the travel up to then. What moves later neither counts nor reports.
pub proof fn law_first_commit_is_reported(moves: Seq<Move>, first: int)
    requires
        0 <= first < moves.len(),
        commits_at(moves, first) is Some,
        forall|i: int| 0 <= i < first ==> #[trigger] commits_at(moves, i) is None,
    ensures
        swipes(HoldView::begun(), moves) == seq![commits_at(moves, first)->Some_0],
        after_moves(HoldView::begun(), moves) == (HoldView {
            dx: saturated_dx(moves.take(first + 1)),
            dy: saturated_dy(moves.take(first + 1)),
            fired: true,
            ..HoldView::begun()
        }),
    decreases moves.len(),
{
    let earlier = moves.drop_last();
    assert forall|i: int| 0 <= i < earlier.len() implies #[trigger] commits_at(earlier, i)
        == commits_at(moves, i) by {
        assert(earlier.take(i + 1) =~= moves.take(i + 1));
    }
    if first == moves.len() - 1 {
        law_travel_saturates(earlier);
        assert(moves.take(first + 1) =~= moves);
        assert(swipes(HoldView::begun(), moves) =~= seq![commits_at(moves, first)->Some_0]);
    } else {
        assert(commits_at(earlier, first) == commits_at(moves, first));
        law_first_commit_is_reported(earlier, first);
        assert(earlier.take(first + 1) =~= moves.take(first + 1));
    }
}

/// Motion outside a hold is dropped.
pub proof fn law_no_hold_no_swipe(v: HoldView, moves: Seq<Move>)
    requires
        !v.holding,
    ensures
        after_moves(v, moves) == v,
        swipes(v, moves).len() == 0,
    decreases moves.len(),
{
    if moves.len() > 0 {
        law_no_hold_no_swipe(v, moves.drop_last());
    }
}

/// The numbers that tell a swipe: 50 units of travel, a band of 40, and 160 milliseconds.
pub proof fn law_swipe_numbers()
    ensures
        GESTURE_SWIPE_THRESHOLD == 50,
        GESTURE_SWIPE_DEADZONE == 40,
        GESTURE_HOLD_FOR_SWIPE_MILLIS == 160,
{
}

/// A number that fits in 32 bits stays, and one that does not becomes the bound on its side.
pub proof fn law_saturation(x: int)
    ensures
        -0x8000_0000 <= x <= 0x7FFF_FFFF ==> saturated(x) == x,
        x > 0x7FFF_FFFF ==> saturated(x) == 0x7FFF_FFFF,
        x < -0x8000_0000 ==> saturated(x) == -0x8000_0000,
        0 <= x <= 0x7FFF_FFFF ==> magnitude(x) == x && magnitude(-x) == x,
        x > 0x7FFF_FFFF ==> magnitude(x) == 0x7FFF_FFFF && magnitude(-x) == 0x7FFF_FFFF,
{
}

/// Travel is a swipe to one side exactly where it goes 50 units or more to that side, and
/// strays from its axis by no more than 40 units or than 35 percent of its way. Upwards is
/// negative.
pub proof fn law_swipe_exactly(dx: i32, dy: i32)
    ensures
        ({
            let x = if dx == i32::MIN {
                0x7FFF_FFFF
            } else if dx < 0 {
                -dx
            } else {
                dx as int
            };
            let y = if dy == i32::MIN {
                0x7FFF_FFFF
            } else if dy < 0 {
                -dy
            } else {
                dy as int
            };
            let level = x >= 50 && (y <= 40 || 100 * y <= 35 * x);
            let upright = y >= 50 && (x <= 40 || 100 * x <= 35 * y);
            let swipe = swipe_of(dx as int, dy as int);
            &&& swipe == Some(GestureDirection::Right) <==> level && dx > 0
            &&& swipe == Some(GestureDirection::Left) <==> level && dx < 0
            &&& swipe == Some(GestureDirection::Down) <==> upright && dy > 0
            &&& swipe == Some(GestureDirection::Up) <==> upright && dy < 0
            &&& swipe is None <==> !level && !upright
        }),
{
}

/// A hold begins without travel, without a head start and without having reported.
pub proof fn law_fresh_hold()
    ensures
        HoldView::begun().holding,
        !HoldView::begun().fired,
        HoldView::begun().head_start == 0,
        HoldView::begun().dx == 0,
        HoldView::begun().dy == 0,
        HoldView::begun().listening(),
{
}

/// Backdating makes a hold 320 milliseconds old and changes nothing else about it. Without a
/// hold it changes nothing at all.
pub proof fn law_backdating(v: HoldView)
    ensures
        v.holding ==> v.backdated() == (HoldView { head_start: 320, ..v }),
        !v.holding ==> v.backdated() == v,
        v.listening() <==> v.holding && !v.fired,
{
}

/// A move in a hold that has not reported adds to the travel, whenever it comes. It reports
/// the swipe that the travel comes to from 160 milliseconds on, and the hold has then
/// reported. Any other move changes and reports nothing.
pub proof fn law_each_move(v: HoldView, dx: i32, dy: i32, held_millis: int)
    ensures
        v.holding && !v.fired && held_millis >= 160 ==> v.reported(dx as int, dy as int, held_millis)
            == swipe_of(saturated(v.dx + dx), saturated(v.dy + dy)),
        held_millis < 160 || !v.holding || v.fired ==> v.reported(dx as int, dy as int, held_millis)
            is None,
        v.holding && !v.fired ==> v.moved(dx as int, dy as int, held_millis) == (HoldView {
            holding: true,
            head_start: v.head_start,
            dx: saturated(v.dx + dx),
            dy: saturated(v.dy + dy),
            fired: v.reported(dx as int, dy as int, held_millis) is Some,
        }),
        !v.holding || v.fired ==> v.moved(dx as int, dy as int, held_millis) == v,
{
}

/// Feeding a delta is a move of a hold that is as old as the clock says, on top of its head
/// start.
pub proof fn law_feeding_is_a_timed_move(
    acc: SwipeAccumulator,
    dx: i32,
    dy: i32,
    timed: u128,
    r: Option<GestureDirection>,
    after: HoldView,
)
    requires
        fed(acc, dx as int, dy as int, timed, r, after),
    ensures
        acc@.holding ==> clock_read(acc.since()->Some_0, timed),
        r == acc@.reported(dx as int, dy as int, timed + acc@.head_start),
        after == acc@.moved(dx as int, dy as int, timed + acc@.head_start),
{
}

} // verus!
