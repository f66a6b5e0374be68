use vstd::prelude::*;

use crate::config::Config;
use crate::gesture::{abs, classify, direction_of, SwipeDirection};
use crate::touch::{filter_touches, kept_touches, Contact};

verus! {

/// A finished swipe: its direction and the most fingers seen at once during it.
#[derive(Debug, Clone, Copy, PartialEq, Eq, Structural)]
pub struct Swipe {
    pub direction: SwipeDirection,
    pub fingers: u64,
}

/// The first contact of `prev` with the given finger id.
pub open spec fn first_match(prev: Seq<Contact>, id: i32) -> Option<Contact>
    decreases prev.len(),
{
    if prev.len() == 0 {
        None
    } else if prev[0].finger_id == id {
        Some(prev[0])
    } else {
        first_match(prev.drop_first(), id)
    }
}

/// How far one contact moved since the previous frame; a finger that was not
/// there moved nowhere.
pub open spec fn contact_shift(c: Contact, prev: Seq<Contact>) -> (int, int) {
    match first_match(prev, c.finger_id) {
        Some(p) => (c.x - p.x, c.y - p.y),
        None => (0, 0),
    }
}

/// Summed movement of the contacts of `cur` since the frame `prev`.
pub open spec fn frame_shift(cur: Seq<Contact>, prev: Seq<Contact>) -> (int, int)
    decreases cur.len(),
{
    if cur.len() == 0 {
        (0, 0)
    } else {
        let rest = frame_shift(cur.drop_last(), prev);
        let last = contact_shift(cur.last(), prev);
        (rest.0 + last.0, rest.1 + last.1)
    }
}

/// `v` held to the range of `i64`: running sums stop at its bounds.
pub open spec fn saturate(v: int) -> int {
    if v < i64::MIN {
        i64::MIN as int
    } else if v > i64::MAX {
        i64::MAX as int
    } else {
        v
    }
}

/// Whether a new gesture is held back at time `now`, a two-finger span
/// having ended at `end`.
pub open spec fn in_cooldown(end: Option<int>, now: int, config: Config) -> bool {
    config.two_finger_cooldown_ms > 0 && match end {
        Some(e) => now < e + config.two_finger_cooldown_ms,
        None => false,
    }
}

/// Whether no two contacts of a frame share a finger id.
pub open spec fn unique_ids(frame: Seq<Contact>) -> bool {
    forall|i: int, j: int|
        0 <= i < j < frame.len() ==> #[trigger] frame[i].finger_id != #[trigger] frame[j].finger_id
}

/// What the tracker knows between frames.
pub struct GestureModel {
    /// Contacts of the last frame of the gesture under way.
    pub prev: Seq<Contact>,
    /// Summed horizontal movement of the gesture under way.
    pub dx: int,
    /// Summed vertical movement of the gesture under way.
    pub dy: int,
    pub in_gesture: bool,
    /// Most contacts seen at once since the gesture started.
    pub max_fingers: int,
    /// Whether a two-finger contact span is under way.
    pub two_finger: bool,
    /// When the last two-finger contact span ended, in milliseconds.
    pub two_finger_end: Option<int>,
}

impl GestureModel {
    pub open spec fn initial() -> GestureModel {
        GestureModel {
            prev: Seq::empty(),
            dx: 0,
            dy: 0,
            in_gesture: false,
            max_fingers: 0,
            two_finger: false,
            two_finger_end: None,
        }
    }

    /// Outside a gesture nothing of one is kept.
    pub open spec fn wf(self) -> bool {
        &&& !self.in_gesture ==> self.prev.len() == 0 && self.dx == 0 && self.dy == 0
            && self.max_fingers == 0
        &&& i64::MIN <= self.dx <= i64::MAX
        &&& i64::MIN <= self.dy <= i64::MAX
        &&& 0 <= self.max_fingers <= u64::MAX
        &&& self.two_finger_end matches Some(e) ==> 0 <= e <= u64::MAX
    }

    /// The two-finger span flag after a frame of `n` contacts.
    pub open spec fn two_finger_after(self, n: int) -> bool {
        if n == 2 {
            true
        } else if n == 0 {
            false
        } else {
            self.two_finger
        }
    }

    /// End of the last two-finger span after a frame of `n` contacts at `now`.
    pub open spec fn end_after(self, n: int, now: int) -> Option<int> {
        if self.two_finger && n == 0 {
            Some(now)
        } else {
            self.two_finger_end
        }
    }

    /// Whether the frame starts a gesture: enough fingers, none under way, and
    /// no cooldown.
    pub open spec fn starts(self, frame: Seq<Contact>, now: int, config: Config) -> bool {
        &&& frame.len() >= config.min_fingers
        &&& !self.in_gesture
        &&& !in_cooldown(self.end_after(frame.len() as int, now), now, config)
    }

    /// The state after the frame `frame`, seen at time `now`. A frame with no
    /// contacts ends any gesture. Otherwise, while a gesture is under way or
    /// the frame starts one, the movement of its contacts since the previous
    /// frame is added, the peak finger count is raised to the frame's count,
    /// and the frame becomes the previous one. A gesture starts from zero
    /// movement with the frame as its previous frame.
    pub open spec fn next(self, frame: Seq<Contact>, now: int, config: Config) -> GestureModel {
        let n = frame.len() as int;
        let counted = GestureModel {
            two_finger: self.two_finger_after(n),
            two_finger_end: self.end_after(n, now),
            ..self
        };
        if n == 0 {
            GestureModel {
                prev: Seq::empty(),
                dx: 0,
                dy: 0,
                in_gesture: false,
                max_fingers: 0,
                ..counted
            }
        } else if self.in_gesture || self.starts(frame, now, config) {
            let base = if self.in_gesture {
                self
            } else {
                GestureModel { prev: frame, dx: 0, dy: 0, max_fingers: n, ..self }
            };
            let shift = frame_shift(frame, base.prev);
            GestureModel {
                prev: frame,
                dx: saturate(base.dx + shift.0),
                dy: saturate(base.dy + shift.1),
                in_gesture: true,
                max_fingers: if n > base.max_fingers {
                    n
                } else {
                    base.max_fingers
                },
                ..counted
            }
        } else {
            counted
        }
    }

    /// The swipe that the frame finishes: a frame with no contacts ends the
    /// gesture under way, which counts if its peak finger count reached the
    /// minimum and its average movement is classified.
    pub open spec fn emitted(self, frame: Seq<Contact>, config: Config) -> Option<Swipe> {
        if frame.len() == 0 && self.in_gesture && self.max_fingers >= config.min_fingers {
            match direction_of(self.dx, self.dy, self.max_fingers, config) {
                Some(d) => Some(Swipe { direction: d, fingers: self.max_fingers as u64 }),
                None => None,
            }
        } else {
            None
        }
    }
}


proof fn lemma_first_match_unique(prev: Seq<Contact>, i: int)
    requires
        unique_ids(prev),
        0 <= i < prev.len(),
    ensures
        first_match(prev, prev[i].finger_id) == Some(prev[i]),
    decreases prev.len(),
{
    if i > 0 {
        let rest = prev.drop_first();
        assert(prev[0].finger_id != prev[i].finger_id);
        assert forall|a: int, b: int| 0 <= a < b < rest.len() implies #[trigger] rest[a].finger_id
            != #[trigger] rest[b].finger_id by {
            assert(rest[a] == prev[a + 1] && rest[b] == prev[b + 1]);
        }
        lemma_first_match_unique(rest, i - 1);
        assert(rest[i - 1] == prev[i]);
    }
}

proof fn lemma_prefix_self_shift(f: Seq<Contact>, k: int)
    requires
        unique_ids(f),
        0 <= k <= f.len(),
    ensures
        frame_shift(f.subrange(0, k), f) == (0int, 0int),
    decreases k,
{
    if k > 0 {
        lemma_prefix_self_shift(f, k - 1);
        assert(f.subrange(0, k).drop_last() =~= f.subrange(0, k - 1));
        lemma_first_match_unique(f, k - 1);
    }
}

/// A frame measured against itself has not moved, when its finger ids are
/// distinct.
pub proof fn lemma_self_shift_zero(f: Seq<Contact>)
    requires
        unique_ids(f),
    ensures
        frame_shift(f, f) == (0int, 0int),
{
    lemma_prefix_self_shift(f, f.len() as int);
    assert(f.subrange(0, f.len() as int) =~= f);
}

proof fn lemma_frame_shift_remove(b: Seq<Contact>, j: int, prev: Seq<Contact>)
    requires
        0 <= j < b.len(),
    ensures
        frame_shift(b, prev).0 == frame_shift(b.remove(j), prev).0 + contact_shift(b[j], prev).0,
        frame_shift(b, prev).1 == frame_shift(b.remove(j), prev).1 + contact_shift(b[j], prev).1,
    decreases b.len(),
{
    if j == b.len() - 1 {
        assert(b.remove(j) =~= b.drop_last());
    } else {
        lemma_frame_shift_remove(b.drop_last(), j, prev);
        assert(b.drop_last().remove(j) =~= b.remove(j).drop_last());
        assert(b.remove(j).last() == b.last());
    }
}

/// The movement of a frame does not depend on the order in which its
/// contacts are listed.
pub proof fn lemma_frame_shift_permutation(a: Seq<Contact>, b: Seq<Contact>, prev: Seq<Contact>)
    requires
        a.to_multiset() == b.to_multiset(),
    ensures
        frame_shift(a, prev) == frame_shift(b, prev),
    decreases a.len(),
{
    broadcast use vstd::multiset::group_multiset_axioms;

    a.to_multiset_ensures();
    b.to_multiset_ensures();
    if a.len() > 0 {
        let e = a.last();
        let front = a.drop_last();
        assert(a =~= front.push(e));
        front.to_multiset_ensures();
        assert(a.to_multiset().count(e) > 0);
        assert(b.contains(e));
        let j = choose|j: int| 0 <= j < b.len() && b[j] == e;
        assert(front.to_multiset() =~= b.remove(j).to_multiset());
        lemma_frame_shift_permutation(front, b.remove(j), prev);
        lemma_frame_shift_remove(b, j, prev);
    }
}

/// The summed movement after a frame does not depend on the order in which
/// the frame lists its fingers.
pub proof fn lemma_accumulation_order_independent(
    s: GestureModel,
    f1: Seq<Contact>,
    f2: Seq<Contact>,
    now: int,
    config: Config,
)
    requires
        s.wf(),
        f1.to_multiset() == f2.to_multiset(),
        unique_ids(f1),
        unique_ids(f2),
    ensures
        s.next(f1, now, config).dx == s.next(f2, now, config).dx,
        s.next(f1, now, config).dy == s.next(f2, now, config).dy,
{
    f1.to_multiset_ensures();
    f2.to_multiset_ensures();
    lemma_frame_shift_permutation(f1, f2, s.prev);
    lemma_self_shift_zero(f1);
    lemma_self_shift_zero(f2);
}

/// A swipe is reported only from a gesture whose peak finger count reached
/// the minimum, and it carries that peak count; the peak never falls below
/// the count of any frame of the gesture.
pub proof fn lemma_swipe_needs_min_fingers(s: GestureModel, frame: Seq<Contact>, now: int, config: Config)
    requires
        s.wf(),
        config.wf(),
    ensures
        s.emitted(frame, config) matches Some(g) ==> g.fingers == s.max_fingers && g.fingers
            >= config.min_fingers,
        s.next(frame, now, config).in_gesture ==> s.next(frame, now, config).max_fingers
            >= frame.len(),
        s.in_gesture && frame.len() > 0 ==> s.next(frame, now, config).max_fingers >= s.max_fingers,
{
}

/// A gesture released right after it formed has moved nowhere and reports no
/// swipe.
pub proof fn lemma_immediate_release(s: GestureModel, f: Seq<Contact>, t1: int, t2: int, config: Config)
    requires
        s.wf(),
        config.wf(),
        !s.in_gesture,
        f.len() > 0,
        unique_ids(f),
    ensures
        s.next(f, t1, config).dx == 0,
        s.next(f, t1, config).dy == 0,
        s.next(f, t1, config).emitted(Seq::empty(), config) == None::<Swipe>,
{
    lemma_self_shift_zero(f);
    lemma_no_movement_no_direction(f.len() as int, config);
}

/// No movement gives no direction, whatever the thresholds.
pub proof fn lemma_no_movement_no_direction(n: int, config: Config)
    ensures
        direction_of(0, 0, n, config) == None::<SwipeDirection>,
{
}

/// Taking the same frame again leaves the summed movement as it was.
pub proof fn lemma_replay_keeps_movement(s: GestureModel, f: Seq<Contact>, t1: int, t2: int, config: Config)
    requires
        s.wf(),
        f.len() > 0,
        unique_ids(f),
        s.next(f, t1, config).in_gesture,
    ensures
        s.next(f, t1, config).next(f, t2, config).dx == s.next(f, t1, config).dx,
        s.next(f, t1, config).next(f, t2, config).dy == s.next(f, t1, config).dy,
{
    lemma_self_shift_zero(f);
}

/// An average displacement exactly at the right threshold makes a right swipe.
pub proof fn lemma_right_threshold_inclusive(dx: int, dy: int, n: int, config: Config)
    requires
        n > 0,
        config.right > 0,
        dx == config.right * n,
        abs(dy) <= abs(dx),
    ensures
        direction_of(dx, dy, n, config) == Some(SwipeDirection::Right),
{
    assert(dx > 0) by (nonlinear_arith)
        requires
            n > 0,
            config.right > 0,
            dx == config.right * n,
    ;
}

/// The end of a two-finger span at `end` holds back every gesture that would
/// start before `end` plus the cooldown, and none from then on.
pub proof fn lemma_cooldown(s: GestureModel, frame: Seq<Contact>, end: int, now: int, config: Config)
    requires
        s.wf(),
        config.wf(),
        config.two_finger_cooldown_ms > 0,
        !s.in_gesture,
        s.two_finger_end == Some(end),
        frame.len() >= config.min_fingers,
    ensures
        now < end + config.two_finger_cooldown_ms ==> !s.next(frame, now, config).in_gesture,
        now >= end + config.two_finger_cooldown_ms ==> s.next(frame, now, config).in_gesture,
{
}

/// A two-finger span that ends at `now` is recorded as ending then.
pub proof fn lemma_two_finger_span_end(s: GestureModel, now: int, config: Config)
    requires
        s.two_finger,
    ensures
        s.next(Seq::empty(), now, config).two_finger_end == Some(now),
        !s.next(Seq::empty(), now, config).two_finger,
{
}

/// The gesture tracker.
pub struct GestureState {
    prev_positions: Vec<Contact>,
    accumulated_dx: i64,
    accumulated_dy: i64,
    in_gesture: bool,
    max_fingers: u64,
    in_two_finger_gesture: bool,
    last_two_finger_end: Option<u64>,
}

impl View for GestureState {
    type V = GestureModel;

    closed spec fn view(&self) -> GestureModel {
        GestureModel {
            prev: self.prev_positions@,
            dx: self.accumulated_dx as int,
            dy: self.accumulated_dy as int,
            in_gesture: self.in_gesture,
            max_fingers: self.max_fingers as int,
            two_finger: self.in_two_finger_gesture,
            two_finger_end: match self.last_two_finger_end {
                Some(e) => Some(e as int),
                None => None,
            },
        }
    }
}

fn copy_frame(frame: &Vec<Contact>) -> (r: Vec<Contact>)
    ensures
        r@ == frame@,
{
    let mut out: Vec<Contact> = Vec::new();
    let mut i: usize = 0;
    while i < frame.len()
        invariant
            i <= frame.len(),
            out@ == frame@.subrange(0, i as int),
        decreases frame.len() - i,
    {
        out.push(frame[i]);
        i = i + 1;
        assert(out@ =~= frame@.subrange(0, i as int));
    }
    assert(out@ =~= frame@);
    out
}

fn find_first(prev: &Vec<Contact>, id: i32) -> (r: Option<Contact>)
    ensures
        r == first_match(prev@, id),
{
    let mut j: usize = 0;
    assert(prev@.subrange(0, prev.len() as int) =~= prev@);
    while j < prev.len()
        invariant
            j <= prev.len(),
            first_match(prev@, id) == first_match(prev@.subrange(j as int, prev.len() as int), id),
        decreases prev.len() - j,
    {
        proof {
            let rest = prev@.subrange(j as int, prev.len() as int);
            assert(rest.drop_first() =~= prev@.subrange(j + 1, prev.len() as int));
            assert(rest[0] == prev@[j as int]);
        }
        if prev[j].finger_id == id {
            return Some(prev[j]);
        }
        j = j + 1;
    }
    None
}

fn shift_of_frame(cur: &Vec<Contact>, prev: &Vec<Contact>) -> (r: (i128, i128))
    ensures
        r.0 == frame_shift(cur@, prev@).0,
        r.1 == frame_shift(cur@, prev@).1,
        -0x1_0000_0000 * 0x1_0000_0000_0000_0000 <= r.0 <= 0x1_0000_0000 * 0x1_0000_0000_0000_0000,
        -0x1_0000_0000 * 0x1_0000_0000_0000_0000 <= r.1 <= 0x1_0000_0000 * 0x1_0000_0000_0000_0000,
{
    let mut sx: i128 = 0;
    let mut sy: i128 = 0;
    let mut i: usize = 0;
    while i < cur.len()
        invariant
            i <= cur.len(),
            sx == frame_shift(cur@.subrange(0, i as int), prev@).0,
            sy == frame_shift(cur@.subrange(0, i as int), prev@).1,
            -0x1_0000_0000 * (i as int) <= sx <= 0x1_0000_0000 * (i as int),
            -0x1_0000_0000 * (i as int) <= sy <= 0x1_0000_0000 * (i as int),
        decreases cur.len() - i,
    {
        let c = cur[i];
        proof {
            assert(cur@.subrange(0, i + 1).drop_last() =~= cur@.subrange(0, i as int));
            assert(cur@.subrange(0, i + 1).last() == c);
        }
        match find_first(prev, c.finger_id) {
            Some(p) => {
                sx = sx + (c.x as i128 - p.x as i128);
                sy = sy + (c.y as i128 - p.y as i128);
            },
            None => {},
        }
        i = i + 1;
    }
    assert(cur@.subrange(0, cur.len() as int) =~= cur@);
    (sx, sy)
}

fn saturating_sum(acc: i64, shift: i128) -> (r: i64)
    requires
        -0x1_0000_0000 * 0x1_0000_0000_0000_0000 <= shift <= 0x1_0000_0000 * 0x1_0000_0000_0000_0000,
    ensures
        r == saturate(acc + shift),
{
    let total = acc as i128 + shift;
    if total < i64::MIN as i128 {
        i64::MIN
    } else if total > i64::MAX as i128 {
        i64::MAX
    } else {
        total as i64
    }
}

impl GestureState {
    pub fn new() -> (r: Self)
        ensures
            r@ == GestureModel::initial(),
            r@.wf(),
    {
        GestureState {
            prev_positions: Vec::new(),
            accumulated_dx: 0,
            accumulated_dy: 0,
            in_gesture: false,
            max_fingers: 0,
            in_two_finger_gesture: false,
            last_two_finger_end: None,
        }
    }

    /// Ends the gesture under way, keeping the two-finger span tracking.
    pub fn reset(&mut self)
        ensures
            final(self)@ == (GestureModel {
                prev: Seq::empty(),
                dx: 0,
                dy: 0,
                in_gesture: false,
                max_fingers: 0,
                ..old(self)@
            }),
    {
        self.prev_positions.clear();
        self.accumulated_dx = 0;
        self.accumulated_dy = 0;
        self.in_gesture = false;
        self.max_fingers = 0;
    }

    /// Takes one frame of already filtered contacts, seen at `now_ms`
    /// milliseconds, and returns the swipe that it finishes, if any.
    pub fn on_frame(&mut self, current: &Vec<Contact>, now_ms: u64, config: &Config) -> (r: Option<
        Swipe,
    >)
        requires
            old(self)@.wf(),
            config.wf(),
        ensures
            final(self)@ == old(self)@.next(current@, now_ms as int, *config),
            r == old(self)@.emitted(current@, *config),
            final(self)@.wf(),
    {
        let ghost s0 = self@;
        let n = current.len();
        let min_fingers = config.min_fingers as usize;

        if n == 2 && !self.in_two_finger_gesture {
            self.in_two_finger_gesture = true;
        }
        if self.in_two_finger_gesture && n == 0 {
            self.in_two_finger_gesture = false;
            self.last_two_finger_end = Some(now_ms);
        }

        let cooldown = config.two_finger_cooldown_ms;
        let in_cooldown = if cooldown > 0 {
            match self.last_two_finger_end {
                Some(end) => if now_ms < end {
                    true
                } else {
                    now_ms - end < cooldown
                },
                None => false,
            }
        } else {
            false
        };

        if n >= min_fingers && !self.in_gesture && !in_cooldown {
            self.in_gesture = true;
            self.max_fingers = n as u64;
            self.accumulated_dx = 0;
            self.accumulated_dy = 0;
            self.prev_positions = copy_frame(current);
        }

        if self.in_gesture && n > 0 {
            if n as u64 > self.max_fingers {
                self.max_fingers = n as u64;
            }
            let (sx, sy) = shift_of_frame(current, &self.prev_positions);
            self.accumulated_dx = saturating_sum(self.accumulated_dx, sx);
            self.accumulated_dy = saturating_sum(self.accumulated_dy, sy);
            self.prev_positions = copy_frame(current);
        }

        let mut result: Option<Swipe> = None;
        if self.in_gesture && n == 0 {
            if self.max_fingers >= min_fingers as u64 {
                match classify(self.accumulated_dx, self.accumulated_dy, self.max_fingers, config) {
                    Some(direction) => {
                        result = Some(Swipe { direction, fingers: self.max_fingers });
                    },
                    None => {},
                }
            }
            self.reset();
        }
        proof {
            assert(self@.prev =~= s0.next(current@, now_ms as int, *config).prev);
        }
        result
    }

    /// Takes one raw frame: drops the contacts that the filter rejects, then
    /// tracks the rest as [`GestureState::on_frame`] does.
    pub fn handle_touches(&mut self, touches: &Vec<Contact>, now_ms: u64, config: &Config) -> (r:
        Option<Swipe>)
        requires
            old(self)@.wf(),
            config.wf(),
        ensures
            final(self)@ == old(self)@.next(kept_touches(touches@, *config), now_ms as int, *config),
            r == old(self)@.emitted(kept_touches(touches@, *config), *config),
            final(self)@.wf(),
    {
        let current = filter_touches(touches, config);
        self.on_frame(&current, now_ms, config)
    }
}

} // verus!
