//! The dispatcher: routes floor requests to elevators, keeps for each
//! elevator the floors it still owes its passengers, and sends an idle
//! elevator to the nearest of them.
use vstd::prelude::*;

use crate::messages::{ControlCommand, ElevatorCommand, ElevatorStatus};

verus! {

/// How far floor `a` is from floor `b`.
pub open spec fn distance(a: u8, b: u8) -> int {
    if a >= b {
        a - b
    } else {
        b - a
    }
}

/// The index of the first floor of `s` that is nearest to `floor`.
pub open spec fn first_nearest(s: Seq<u8>, floor: u8) -> int
    decreases s.len(),
{
    if s.len() <= 1 {
        0
    } else {
        let k = first_nearest(s.drop_last(), floor);
        if distance(s.last(), floor) < distance(s[k], floor) {
            s.len() - 1
        } else {
            k
        }
    }
}

/// `s[k]` is no farther from `floor` than any floor of `s`, and every floor
/// before it is strictly farther.
pub open spec fn is_first_nearest(s: Seq<u8>, floor: u8, k: int) -> bool {
    &&& 0 <= k < s.len()
    &&& forall|j: int| 0 <= j < s.len() ==> distance(s[k], floor) <= distance(#[trigger] s[j], floor)
    &&& forall|j: int| 0 <= j < k ==> distance(s[k], floor) < distance(#[trigger] s[j], floor)
}

/// `acc` with each floor of `floors` added in turn, unless it lies outside a
/// building of `floor_count` floors or is already there.
pub open spec fn merge_floors(acc: Seq<u8>, floors: Seq<u8>, floor_count: u8) -> Seq<u8>
    decreases floors.len(),
{
    if floors.len() == 0 {
        acc
    } else {
        let prev = merge_floors(acc, floors.drop_last(), floor_count);
        let t = floors.last();
        if t < floor_count && !prev.contains(t) {
            prev.push(t)
        } else {
            prev
        }
    }
}

/// The index found by `first_nearest` is the first nearest floor.
pub proof fn lemma_first_nearest(s: Seq<u8>, floor: u8)
    requires
        s.len() > 0,
    ensures
        is_first_nearest(s, floor, first_nearest(s, floor)),
    decreases s.len(),
{
    if s.len() > 1 {
        let p = s.drop_last();
        lemma_first_nearest(p, floor);
        let k = first_nearest(p, floor);
        assert forall|j: int| 0 <= j < s.len() - 1 implies #[trigger] s[j] == p[j] by {}
    }
}

/// The abstract state of the dispatcher: for each elevator, in the order they
/// were reported, the floors it still owes.
pub struct ControlView {
    pub floor_count: u8,
    pub elevator_count: usize,
    pub pending: Seq<Seq<u8>>,
}

impl ControlView {
    /// One pending list per elevator, each a set of floors of the building.
    pub open spec fn inv(self) -> bool {
        &&& self.floor_count >= 2
        &&& self.elevator_count >= 1
        &&& self.pending.len() == self.elevator_count
        &&& forall|i: int, j: int|
            0 <= i < self.pending.len() && 0 <= j < self.pending[i].len() ==> #[trigger] self.pending[i][j]
                < self.floor_count
        &&& forall|i: int| 0 <= i < self.pending.len() ==> (#[trigger] self.pending[i]).no_duplicates()
    }

    /// The dispatcher with nothing pending.
    pub open spec fn initial(floor_count: u8, elevator_count: usize) -> ControlView {
        ControlView {
            floor_count,
            elevator_count,
            pending: Seq::new(elevator_count as nat, |i: int| Seq::<u8>::empty()),
        }
    }

    /// The dispatcher with the pending list of elevator `id` replaced by `s`.
    pub open spec fn with_pending(self, id: usize, s: Seq<u8>) -> ControlView {
        ControlView { pending: self.pending.update(id as int, s), ..self }
    }
}

/// One step of the dispatcher: on `status`, the dispatcher `pre` becomes
/// `post` and sends the command `r`, if any, to the elevator it names.
/// Reports from an elevator that does not exist are ignored.
pub open spec fn handles(
    pre: ControlView,
    status: ElevatorStatus,
    post: ControlView,
    r: Option<(usize, ElevatorCommand)>,
) -> bool {
    let n = pre.elevator_count;
    match status {
        ElevatorStatus::ArrivedAtFloor(id, _) => post == pre && r == if id < n {
            Some((id, ElevatorCommand::OpenDoor))
        } else {
            None
        },
        ElevatorStatus::ElevatorReadyToCloseTheDoor(id) => post == pre && r == if id < n {
            Some((id, ElevatorCommand::CloseDoor))
        } else {
            None
        },
        ElevatorStatus::PassengerTarget(id, floors) => r is None && post == if id < n {
            pre.with_pending(id, merge_floors(pre.pending[id as int], floors@, pre.floor_count))
        } else {
            pre
        },
        ElevatorStatus::ElevatorIdle(id, floor) => if id < n && pre.pending[id as int].len() > 0 {
            let s = pre.pending[id as int];
            let k = first_nearest(s, floor);
            &&& r == Some((id, ElevatorCommand::MoveTo(s[k])))
            &&& post == pre.with_pending(id, s.remove(k))
        } else {
            post == pre && r is None
        },
        _ => post == pre && r is None,
    }
}

/// Merging keeps a pending list free of repeats and inside the building.
pub proof fn lemma_merge_floors_keeps_set(acc: Seq<u8>, floors: Seq<u8>, floor_count: u8)
    requires
        acc.no_duplicates(),
        forall|j: int| 0 <= j < acc.len() ==> #[trigger] acc[j] < floor_count,
    ensures
        merge_floors(acc, floors, floor_count).no_duplicates(),
        forall|j: int|
            0 <= j < merge_floors(acc, floors, floor_count).len() ==> #[trigger] merge_floors(
                acc,
                floors,
                floor_count,
            )[j] < floor_count,
    decreases floors.len(),
{
    if floors.len() > 0 {
        lemma_merge_floors_keeps_set(acc, floors.drop_last(), floor_count);
        let prev = merge_floors(acc, floors.drop_last(), floor_count);
        let t = floors.last();
        if t < floor_count && !prev.contains(t) {
            let s = prev.push(t);
            assert forall|a: int, b: int| 0 <= a < b < s.len() implies s[a] != s[b] by {
                if b == s.len() - 1 {
                    assert(prev[a] == s[a]);
                }
            }
            assert forall|j: int| 0 <= j < s.len() implies #[trigger] s[j] < floor_count by {
                if j < prev.len() {
                    assert(s[j] == prev[j]);
                }
            }
        }
    }
}

/// Removing one floor keeps a pending list free of repeats and inside the
/// building.
pub proof fn lemma_remove_keeps_set(s: Seq<u8>, k: int, floor_count: u8)
    requires
        0 <= k < s.len(),
        s.no_duplicates(),
        forall|j: int| 0 <= j < s.len() ==> #[trigger] s[j] < floor_count,
    ensures
        s.remove(k).no_duplicates(),
        forall|j: int| 0 <= j < s.remove(k).len() ==> #[trigger] s.remove(k)[j] < floor_count,
{
    let r = s.remove(k);
    assert forall|a: int, b: int| 0 <= a < b < r.len() implies r[a] != r[b] by {
        let oa = if a < k { a } else { a + 1 };
        let ob = if b < k { b } else { b + 1 };
        assert(r[a] == s[oa] && r[b] == s[ob]);
    }
    assert forall|j: int| 0 <= j < r.len() implies #[trigger] r[j] < floor_count by {
        let oj = if j < k { j } else { j + 1 };
        assert(r[j] == s[oj]);
    }
}

/// A step of the dispatcher keeps its invariant and its building.
pub proof fn lemma_handles_keeps_inv(
    pre: ControlView,
    status: ElevatorStatus,
    post: ControlView,
    r: Option<(usize, ElevatorCommand)>,
)
    requires
        pre.inv(),
        handles(pre, status, post, r),
    ensures
        post.inv(),
        post.floor_count == pre.floor_count,
        post.elevator_count == pre.elevator_count,
{
    match status {
        ElevatorStatus::PassengerTarget(id, floors) => {
            if id < pre.elevator_count {
                let old_s = pre.pending[id as int];
                assert forall|j: int| 0 <= j < old_s.len() implies #[trigger] old_s[j]
                    < pre.floor_count by {
                    assert(pre.pending[id as int][j] < pre.floor_count);
                }
                lemma_merge_floors_keeps_set(old_s, floors@, pre.floor_count);
                let m = merge_floors(old_s, floors@, pre.floor_count);
                assert forall|i: int, j: int|
                    0 <= i < post.pending.len() && 0 <= j < post.pending[i].len() implies #[trigger] post.pending[i][j]
                    < post.floor_count by {
                    if i == id as int {
                        assert(post.pending[i][j] == m[j]);
                    } else {
                        assert(post.pending[i] == pre.pending[i]);
                    }
                }
                assert forall|i: int| 0 <= i < post.pending.len() implies (
                #[trigger] post.pending[i]).no_duplicates() by {
                    if i != id as int {
                        assert(post.pending[i] == pre.pending[i]);
                    }
                }
            }
        },
        ElevatorStatus::ElevatorIdle(id, floor) => {
            if id < pre.elevator_count && pre.pending[id as int].len() > 0 {
                let old_s = pre.pending[id as int];
                let k = first_nearest(old_s, floor);
                lemma_first_nearest(old_s, floor);
                assert forall|j: int| 0 <= j < old_s.len() implies #[trigger] old_s[j]
                    < pre.floor_count by {
                    assert(pre.pending[id as int][j] < pre.floor_count);
                }
                lemma_remove_keeps_set(old_s, k, pre.floor_count);
                let m = old_s.remove(k);
                assert forall|i: int, j: int|
                    0 <= i < post.pending.len() && 0 <= j < post.pending[i].len() implies #[trigger] post.pending[i][j]
                    < post.floor_count by {
                    if i == id as int {
                        assert(post.pending[i][j] == m[j]);
                    } else {
                        assert(post.pending[i] == pre.pending[i]);
                    }
                }
                assert forall|i: int| 0 <= i < post.pending.len() implies (
                #[trigger] post.pending[i]).no_duplicates() by {
                    if i != id as int {
                        assert(post.pending[i] == pre.pending[i]);
                    }
                }
            }
        },
        _ => {},
    }
}

/// `views` is a run of the dispatcher: each view follows from the one before
/// on the status report of the same index, answering with the command of that
/// index.
pub open spec fn is_dispatch_run(
    views: Seq<ControlView>,
    reports: Seq<ElevatorStatus>,
    answers: Seq<Option<(usize, ElevatorCommand)>>,
) -> bool {
    &&& views.len() == reports.len() + 1
    &&& answers.len() == reports.len()
    &&& forall|i: int|
        0 <= i < reports.len() ==> #[trigger] handles(views[i], reports[i], views[i + 1], answers[i])
}

/// Every view of a dispatcher run that starts well formed is well formed, in
/// the same building.
pub proof fn lemma_dispatch_run_keeps_inv(
    views: Seq<ControlView>,
    reports: Seq<ElevatorStatus>,
    answers: Seq<Option<(usize, ElevatorCommand)>>,
    i: int,
)
    requires
        views.len() > 0,
        views[0].inv(),
        is_dispatch_run(views, reports, answers),
        0 <= i < views.len(),
    ensures
        views[i].inv(),
        views[i].floor_count == views[0].floor_count,
    decreases i,
{
    if i > 0 {
        let k = i - 1;
        lemma_dispatch_run_keeps_inv(views, reports, answers, k);
        assert(handles(views[k], reports[k], views[k + 1], answers[k]));
        lemma_handles_keeps_inv(views[k], reports[k], views[k + 1], answers[k]);
    }
}

/// No pending list of the dispatcher ever holds a floor outside the building,
/// whatever the elevators report, at any point of a run from a new
/// dispatcher.
pub proof fn lemma_pending_within_building(
    views: Seq<ControlView>,
    reports: Seq<ElevatorStatus>,
    answers: Seq<Option<(usize, ElevatorCommand)>>,
    floor_count: u8,
    elevator_count: usize,
)
    requires
        floor_count >= 2,
        elevator_count >= 1,
        views.len() > 0,
        views[0] == ControlView::initial(floor_count, elevator_count),
        is_dispatch_run(views, reports, answers),
    ensures
        forall|i: int, id: int, t: u8|
            0 <= i < views.len() && 0 <= id < views[i].pending.len()
                && #[trigger] views[i].pending[id].contains(t) ==> t < floor_count,
{
    assert forall|i: int, id: int, t: u8|
        0 <= i < views.len() && 0 <= id < views[i].pending.len()
            && #[trigger] views[i].pending[id].contains(t) implies t < floor_count by {
        lemma_dispatch_run_keeps_inv(views, reports, answers, i);
        let j = choose|j: int| 0 <= j < views[i].pending[id].len() && views[i].pending[id][j] == t;
        assert(views[i].pending[id][j] < views[i].floor_count);
    }
}

/// When an elevator with pending floors reports itself idle, the dispatcher
/// sends it to a pending floor that no other pending floor is nearer to, and
/// takes that floor off the list.
pub proof fn lemma_idle_goes_to_nearest(
    pre: ControlView,
    id: usize,
    floor: u8,
    post: ControlView,
    r: Option<(usize, ElevatorCommand)>,
)
    requires
        pre.inv(),
        id < pre.elevator_count,
        pre.pending[id as int].len() > 0,
        handles(pre, ElevatorStatus::ElevatorIdle(id, floor), post, r),
    ensures
        r matches Some((e, ElevatorCommand::MoveTo(t))) && e == id && pre.pending[id as int].contains(
            t,
        ) && !post.pending[id as int].contains(t) && forall|j: int|
            0 <= j < pre.pending[id as int].len() ==> distance(t, floor) <= distance(
                #[trigger] pre.pending[id as int][j],
                floor,
            ),
{
    let s = pre.pending[id as int];
    let k = first_nearest(s, floor);
    lemma_first_nearest(s, floor);
    let m = s.remove(k);
    assert(s.no_duplicates());
    if m.contains(s[k]) {
        let j = choose|j: int| 0 <= j < m.len() && m[j] == s[k];
        let oj = if j < k { j } else { j + 1 };
        assert(m[j] == s[oj]);
    }
}

/// How far floor `a` is from floor `b`.
fn floor_distance(a: u8, b: u8) -> (d: u8)
    ensures
        d == distance(a, b),
{
    if a >= b {
        a - b
    } else {
        b - a
    }
}

/// The index of the first floor of `targets` that is nearest to `floor`, or
/// `None` when there is none.
pub fn nearest_target(targets: &Vec<u8>, floor: u8) -> (r: Option<usize>)
    ensures
        r is None <==> targets@.len() == 0,
        r matches Some(k) ==> k == first_nearest(targets@, floor) && is_first_nearest(
            targets@,
            floor,
            k as int,
        ),
{
    if targets.len() == 0 {
        return None;
    }
    let mut best: usize = 0;
    let mut best_distance = floor_distance(targets[0], floor);
    let mut i: usize = 1;
    while i < targets.len()
        invariant
            1 <= i <= targets@.len(),
            best == first_nearest(targets@.take(i as int), floor),
            best < i,
            best_distance == distance(targets@[best as int], floor),
        decreases targets@.len() - i,
    {
        let d = floor_distance(targets[i], floor);
        proof {
            let s = targets@.take(i + 1);
            assert(s.drop_last() =~= targets@.take(i as int));
            lemma_first_nearest(targets@.take(i as int), floor);
        }
        if d < best_distance {
            best = i;
            best_distance = d;
        }
        i = i + 1;
    }
    proof {
        assert(targets@.take(i as int) =~= targets@);
        lemma_first_nearest(targets@, floor);
    }
    Some(best)
}

/// Whether `floors` holds `t`.
fn holds_floor(floors: &Vec<u8>, t: u8) -> (r: bool)
    ensures
        r == floors@.contains(t),
{
    let mut i: usize = 0;
    while i < floors.len()
        invariant
            i <= floors@.len(),
            forall|j: int| 0 <= j < i ==> floors@[j] != t,
        decreases floors@.len() - i,
    {
        if floors[i] == t {
            return true;
        }
        i = i + 1;
    }
    false
}

/// The dispatcher.
pub struct ControlSystem {
    floor_count: u8,
    elevator_count: usize,
    pending: Vec<Vec<u8>>,
}

impl View for ControlSystem {
    type V = ControlView;

    closed spec fn view(&self) -> ControlView {
        ControlView {
            floor_count: self.floor_count,
            elevator_count: self.elevator_count,
            pending: self.pending@.map_values(|v: Vec<u8>| v@),
        }
    }
}

impl ControlSystem {
    /// The dispatcher's invariant.
    pub open spec fn wf(&self) -> bool {
        self@.inv()
    }

    /// A dispatcher for `elevator_count` elevators in a building of
    /// `floor_count` floors, with nothing pending.
    pub fn new(floor_count: u8, elevator_count: usize) -> (c: ControlSystem)
        requires
            floor_count >= 2,
            elevator_count >= 1,
        ensures
            c.wf(),
            c@ == ControlView::initial(floor_count, elevator_count),
    {
        let mut pending: Vec<Vec<u8>> = Vec::new();
        let mut i: usize = 0;
        while i < elevator_count
            invariant
                i <= elevator_count,
                pending@.len() == i,
                forall|j: int| 0 <= j < i ==> (#[trigger] pending@[j])@.len() == 0,
            decreases elevator_count - i,
        {
            pending.push(Vec::new());
            i = i + 1;
        }
        let c = ControlSystem { floor_count, elevator_count, pending };
        proof {
            assert forall|j: int| 0 <= j < elevator_count implies #[trigger] c@.pending[j]
                =~= Seq::<u8>::empty() by {}
            assert(c@.pending =~= ControlView::initial(floor_count, elevator_count).pending);
        }
        c
    }

    pub fn floor_count(&self) -> (r: u8)
        ensures
            r == self@.floor_count,
    {
        self.floor_count
    }

    pub fn elevator_count(&self) -> (r: usize)
        ensures
            r == self@.elevator_count,
    {
        self.elevator_count
    }

    /// The floors still owed to elevator `id`, in the order they were reported.
    pub fn pending_targets(&self, id: usize) -> (r: &Vec<u8>)
        requires
            self.wf(),
            id < self@.elevator_count,
        ensures
            r@ == self@.pending[id as int],
    {
        &self.pending[id]
    }

    /// A floor request goes to elevator 0, which is sent to the requesting
    /// floor. Whether that elevator is busy is not looked at.
    pub fn handle_request(&self, command: ControlCommand) -> (r: (usize, ElevatorCommand))
        ensures
            r == (0usize, ElevatorCommand::MoveTo(command->floor)),
    {
        match command {
            ControlCommand::Request { floor, direction: _ } => (0, ElevatorCommand::MoveTo(floor)),
        }
    }

    /// Adds to the pending list of elevator `id` each floor of `floors` that
    /// lies in the building and is not pending yet.
    fn merge_targets(&mut self, id: usize, floors: &Vec<u8>)
        requires
            old(self).wf(),
            id < old(self)@.elevator_count,
        ensures
            final(self).wf(),
            final(self)@ == old(self)@.with_pending(
                id,
                merge_floors(old(self)@.pending[id as int], floors@, old(self)@.floor_count),
            ),
    {
        let ghost pre = self@;
        let mut i: usize = 0;
        proof {
            assert(floors@.take(0) =~= Seq::<u8>::empty());
            assert(pre.pending.update(id as int, pre.pending[id as int]) =~= pre.pending);
        }
        while i < floors.len()
            invariant
                i <= floors@.len(),
                id < pre.elevator_count,
                pre.inv(),
                self.wf(),
                self@ == pre.with_pending(
                    id,
                    merge_floors(pre.pending[id as int], floors@.take(i as int), pre.floor_count),
                ),
            decreases floors@.len() - i,
        {
            let t = floors[i];
            proof {
                assert(floors@.take(i + 1).drop_last() =~= floors@.take(i as int));
                assert(floors@.take(i + 1).last() == t);
            }
            let ghost before = self@;
            if t < self.floor_count && !holds_floor(&self.pending[id], t) {
                self.pending[id].push(t);
                proof {
                    assert(self@.pending =~= before.pending.update(
                        id as int,
                        before.pending[id as int].push(t),
                    ));
                    let s = self@.pending[id as int];
                    assert forall|a: int, b: int| 0 <= a < b < s.len() implies s[a] != s[b] by {
                        if b == s.len() - 1 {
                            assert(before.pending[id as int][a] == s[a]);
                        } else {
                            assert(before.pending[id as int].no_duplicates());
                        }
                    }
                    assert forall|x: int, j: int|
                        0 <= x < self@.pending.len() && 0 <= j < self@.pending[x].len() implies #[trigger] self@.pending[x][j]
                        < self@.floor_count by {
                        if x == id as int && j < before.pending[x].len() {
                            assert(before.pending[x][j] < before.floor_count);
                        }
                    }
                }
            }
            proof {
                assert(self@.pending =~= pre.pending.update(
                    id as int,
                    merge_floors(pre.pending[id as int], floors@.take(i + 1), pre.floor_count),
                ));
            }
            i = i + 1;
        }
        proof {
            assert(floors@.take(i as int) =~= floors@);
        }
    }

    /// Drops the pending floor at index `k` of elevator `id`'s list.
    fn take_target(&mut self, id: usize, k: usize) -> (t: u8)
        requires
            old(self).wf(),
            id < old(self)@.elevator_count,
            k < old(self)@.pending[id as int].len(),
        ensures
            final(self).wf(),
            t == old(self)@.pending[id as int][k as int],
            final(self)@ == old(self)@.with_pending(
                id,
                old(self)@.pending[id as int].remove(k as int),
            ),
    {
        let ghost before = self@;
        let t = self.pending[id].remove(k);
        proof {
            let o = before.pending[id as int];
            assert(self@.pending =~= before.pending.update(id as int, o.remove(k as int)));
            assert forall|j: int| 0 <= j < o.len() implies #[trigger] o[j] < before.floor_count by {
                assert(before.pending[id as int][j] < before.floor_count);
            }
            lemma_remove_keeps_set(o, k as int, before.floor_count);
            assert forall|x: int, j: int|
                0 <= x < self@.pending.len() && 0 <= j < self@.pending[x].len() implies #[trigger] self@.pending[x][j]
                < self@.floor_count by {
                if x == id as int {
                    assert(self@.pending[x][j] == o.remove(k as int)[j]);
                }
            }
        }
        t
    }

    /// Handles one status report from an elevator, and returns the command to
    /// send in answer, with the id of the elevator it is for.
    pub fn handle_status(&mut self, status: &ElevatorStatus) -> (r: Option<(usize, ElevatorCommand)>)
        requires
            old(self).wf(),
        ensures
            final(self).wf(),
            handles(old(self)@, *status, final(self)@, r),
    {
        match status {
            ElevatorStatus::ArrivedAtFloor(id, _) => {
                if *id < self.elevator_count {
                    Some((*id, ElevatorCommand::OpenDoor))
                } else {
                    None
                }
            },
            ElevatorStatus::ElevatorReadyToCloseTheDoor(id) => {
                if *id < self.elevator_count {
                    Some((*id, ElevatorCommand::CloseDoor))
                } else {
                    None
                }
            },
            ElevatorStatus::PassengerTarget(id, floors) => {
                if *id < self.elevator_count {
                    self.merge_targets(*id, floors);
                }
                None
            },
            ElevatorStatus::ElevatorIdle(id, floor) => {
                if *id < self.elevator_count {
                    match nearest_target(&self.pending[*id], *floor) {
                        Some(k) => {
                            let t = self.take_target(*id, k);
                            Some((*id, ElevatorCommand::MoveTo(t)))
                        },
                        None => None,
                    }
                } else {
                    None
                }
            },
            _ => None,
        }
    }
}

} // verus!
