//! The tracking data of one poll.
use vstd::prelude::*;

verus! {

/// The identifiers that the server knows the devices by.
#[derive(Clone, Copy, Debug)]
pub struct DeviceIds {
    /// The headset.
    pub head: u64,
    /// The left hand, or the controller in it.
    pub hand_left: u64,
    /// The right hand, or the controller in it.
    pub hand_right: u64,
    /// A left controller that is not held.
    pub detached_controller_left: u64,
    /// A right controller that is not held.
    pub detached_controller_right: u64,
}

/// What was read of one hand.
pub struct HandData<M, S> {
    /// The motion of what the hand grips with.
    pub grip_motion: Option<M>,
    /// The motion of a controller that is not held.
    pub detached_grip_motion: Option<M>,
    /// The joints of the hand.
    pub skeleton_joints: Option<S>,
}

/// What was read of the body.
pub struct BodyData<M, B> {
    /// The skeleton.
    pub skeleton: Option<B>,
    /// The motions of the trackers on it, with their identifiers.
    pub trackers: Vec<(u64, M)>,
}

/// All that is sent of one poll.
pub struct TrackingData<M, S, F, B, K> {
    /// The time that the data is predicted for, in nanoseconds.
    pub poll_timestamp: u128,
    /// The motions of the devices, with their identifiers.
    pub device_motions: Vec<(u64, M)>,
    /// The joints of the left and of the right hand.
    pub hand_skeletons: (Option<S>, Option<S>),
    /// The face.
    pub face: F,
    /// The skeleton of the body.
    pub body: Option<B>,
    /// The markers in the room.
    pub markers: Vec<K>,
}

/// One motion, if there is one and it is wanted.
pub open spec fn motion_entry<M>(wanted: bool, id: u64, motion: Option<M>) -> Seq<(u64, M)> {
    match motion {
        Some(m) => if wanted {
            seq![(id, m)]
        } else {
            Seq::empty()
        },
        None => Seq::empty(),
    }
}

/// Whether a hand appears as a device. A hand whose joints are sent does not,
/// unless hands and controllers are tracked at the same time.
pub open spec fn hand_is_device<M, S>(multimodal: bool, hand: HandData<M, S>) -> bool {
    multimodal || hand.skeleton_joints is None
}

/// The motions of the trackers on the body, if it is tracked.
pub open spec fn tracker_motions<M, B>(body: Option<BodyData<M, B>>) -> Seq<(u64, M)> {
    match body {
        Some(data) => data.trackers@,
        None => Seq::empty(),
    }
}

/// The motions that are sent: the head, the hands, the controllers that are not
/// held, and the trackers.
pub open spec fn device_motions_of<M, S, B>(
    ids: DeviceIds,
    multimodal: bool,
    head: M,
    left: HandData<M, S>,
    right: HandData<M, S>,
    body: Option<BodyData<M, B>>,
) -> Seq<(u64, M)> {
    seq![(ids.head, head)] + motion_entry(
        hand_is_device(multimodal, left),
        ids.hand_left,
        left.grip_motion,
    ) + motion_entry(hand_is_device(multimodal, right), ids.hand_right, right.grip_motion)
        + motion_entry(multimodal, ids.detached_controller_left, left.detached_grip_motion)
        + motion_entry(multimodal, ids.detached_controller_right, right.detached_grip_motion)
        + tracker_motions(body)
}

/// What tracking data holds.
pub struct TrackingModel<M, S, F, B, K> {
    /// The time that the data is predicted for, in nanoseconds.
    pub poll_timestamp: u128,
    /// The motions of the devices, with their identifiers.
    pub device_motions: Seq<(u64, M)>,
    /// The joints of the left and of the right hand.
    pub hand_skeletons: (Option<S>, Option<S>),
    /// The face.
    pub face: F,
    /// The skeleton of the body.
    pub body: Option<B>,
    /// The markers in the room.
    pub markers: Seq<K>,
}

impl<M, S, F, B, K> View for TrackingData<M, S, F, B, K> {
    type V = TrackingModel<M, S, F, B, K>;

    open spec fn view(&self) -> TrackingModel<M, S, F, B, K> {
        TrackingModel {
            poll_timestamp: self.poll_timestamp,
            device_motions: self.device_motions@,
            hand_skeletons: self.hand_skeletons,
            face: self.face,
            body: self.body,
            markers: self.markers@,
        }
    }
}

/// What one poll sends.
pub open spec fn tracking_of<M, S, F, B, K>(
    poll_timestamp: u128,
    ids: DeviceIds,
    multimodal: bool,
    head: M,
    left: HandData<M, S>,
    right: HandData<M, S>,
    face: F,
    body: Option<BodyData<M, B>>,
    markers: Option<Vec<K>>,
) -> TrackingModel<M, S, F, B, K> {
    TrackingModel {
        poll_timestamp,
        device_motions: device_motions_of(ids, multimodal, head, left, right, body),
        hand_skeletons: (left.skeleton_joints, right.skeleton_joints),
        face,
        body: match body {
            Some(read) => read.skeleton,
            None => None,
        },
        markers: match markers {
            Some(found) => found@,
            None => Seq::empty(),
        },
    }
}

/// Adds a motion to the list, if there is one and it is wanted.
fn push_motion<M>(motions: &mut Vec<(u64, M)>, wanted: bool, id: u64, motion: Option<M>)
    ensures
        final(motions)@ == old(motions)@ + motion_entry(wanted, id, motion),
{
    if wanted {
        match motion {
            Some(m) => {
                motions.push((id, m));
            },
            None => {},
        }
    }
}

/// Puts together what one poll sends. `body` is there if the body is tracked,
/// and `markers` if the markers could be read.
pub fn assemble_tracking<M, S, F, B, K>(
    poll_timestamp: u128,
    ids: &DeviceIds,
    multimodal: bool,
    head: M,
    left: HandData<M, S>,
    right: HandData<M, S>,
    face: F,
    body: Option<BodyData<M, B>>,
    markers: Option<Vec<K>>,
) -> (data: TrackingData<M, S, F, B, K>)
    ensures
        data@ == tracking_of(
            poll_timestamp,
            *ids,
            multimodal,
            head,
            left,
            right,
            face,
            body,
            markers,
        ),
{
    let mut device_motions: Vec<(u64, M)> = Vec::new();
    device_motions.push((ids.head, head));
    let left_is_device = multimodal || left.skeleton_joints.is_none();
    let right_is_device = multimodal || right.skeleton_joints.is_none();
    push_motion(&mut device_motions, left_is_device, ids.hand_left, left.grip_motion);
    push_motion(&mut device_motions, right_is_device, ids.hand_right, right.grip_motion);
    push_motion(
        &mut device_motions,
        multimodal,
        ids.detached_controller_left,
        left.detached_grip_motion,
    );
    push_motion(
        &mut device_motions,
        multimodal,
        ids.detached_controller_right,
        right.detached_grip_motion,
    );
    let skeleton = match body {
        Some(read) => {
            let mut trackers = read.trackers;
            device_motions.append(&mut trackers);
            read.skeleton
        },
        None => None,
    };
    let markers = match markers {
        Some(found) => found,
        None => Vec::new(),
    };
    TrackingData {
        poll_timestamp,
        device_motions,
        hand_skeletons: (left.skeleton_joints, right.skeleton_joints),
        face,
        body: skeleton,
        markers,
    }
}

/// The head is always sent, and always first.
pub proof fn law_head_comes_first<M, S, B>(
    ids: DeviceIds,
    multimodal: bool,
    head: M,
    left: HandData<M, S>,
    right: HandData<M, S>,
    body: Option<BodyData<M, B>>,
)
    ensures
        device_motions_of(ids, multimodal, head, left, right, body).len() > 0,
        device_motions_of(ids, multimodal, head, left, right, body)[0] == (ids.head, head),
{
}

/// Whether a list of motions has an entry for a device.
pub open spec fn mentions<M>(motions: Seq<(u64, M)>, id: u64) -> bool {
    exists|i: int| 0 <= i < motions.len() && (#[trigger] motions[i]).0 == id
}

/// The identifiers of all devices but the trackers.
pub open spec fn fixed_ids(ids: DeviceIds) -> Seq<u64> {
    seq![
        ids.head,
        ids.hand_left,
        ids.hand_right,
        ids.detached_controller_left,
        ids.detached_controller_right,
    ]
}

/// Whether no identifier stands for two devices.
pub open spec fn ids_distinct<M, B>(ids: DeviceIds, body: Option<BodyData<M, B>>) -> bool {
    let known = fixed_ids(ids);
    let trackers = tracker_motions(body);
    &&& known.no_duplicates()
    &&& forall|i: int, j: int|
        0 <= i < j < trackers.len() ==> (#[trigger] trackers[i]).0 != (#[trigger] trackers[j]).0
    &&& forall|i: int, j: int|
        0 <= i < trackers.len() && 0 <= j < known.len() ==> (#[trigger] trackers[i]).0
            != #[trigger] known[j]
}

/// Without tracking hands and controllers at the same time, a hand is sent by
/// its joints or as a device, never both, and no controller that is not held is
/// sent.
pub proof fn law_hand_is_sent_in_one_way<M, S, B>(
    ids: DeviceIds,
    head: M,
    left: HandData<M, S>,
    right: HandData<M, S>,
    body: Option<BodyData<M, B>>,
)
    requires
        ids_distinct(ids, body),
    ensures
        ({
            let motions = device_motions_of(ids, false, head, left, right, body);
            &&& mentions(motions, ids.hand_left) == (left.skeleton_joints is None
                && left.grip_motion is Some)
            &&& mentions(motions, ids.hand_right) == (right.skeleton_joints is None
                && right.grip_motion is Some)
            &&& !mentions(motions, ids.detached_controller_left)
            &&& !mentions(motions, ids.detached_controller_right)
        }),
{
    let motions = device_motions_of(ids, false, head, left, right, body);
    let l = motion_entry(hand_is_device(false, left), ids.hand_left, left.grip_motion);
    let r = motion_entry(hand_is_device(false, right), ids.hand_right, right.grip_motion);
    let known = fixed_ids(ids);
    let trackers = tracker_motions(body);
    assert(known[0] == ids.head && known[1] == ids.hand_left && known[2] == ids.hand_right
        && known[3] == ids.detached_controller_left && known[4] == ids.detached_controller_right);
    if l.len() > 0 {
        assert(motions[1].0 == ids.hand_left);
    }
    if r.len() > 0 {
        assert(motions[(1 + l.len()) as int].0 == ids.hand_right);
    }
    assert forall|i: int| 0 <= i < motions.len() implies {
        ||| (#[trigger] motions[i]).0 == ids.head
        ||| motions[i].0 == ids.hand_left && l.len() > 0
        ||| motions[i].0 == ids.hand_right && r.len() > 0
        ||| exists|j: int| 0 <= j < trackers.len() && motions[i].0 == (#[trigger] trackers[j]).0
    } by {
        let base = (1 + l.len() + r.len()) as int;
        if i >= base {
            assert(motions[i] == trackers[i - base]);
        }
    }
}

/// No device is sent twice.
pub proof fn law_no_device_is_sent_twice<M, S, B>(
    ids: DeviceIds,
    multimodal: bool,
    head: M,
    left: HandData<M, S>,
    right: HandData<M, S>,
    body: Option<BodyData<M, B>>,
    i: int,
    j: int,
)
    requires
        ids_distinct(ids, body),
        0 <= i < j < device_motions_of(ids, multimodal, head, left, right, body).len(),
    ensures
        device_motions_of(ids, multimodal, head, left, right, body)[i].0 != device_motions_of(
            ids,
            multimodal,
            head,
            left,
            right,
            body,
        )[j].0,
{
    let motions = device_motions_of(ids, multimodal, head, left, right, body);
    let l = motion_entry(hand_is_device(multimodal, left), ids.hand_left, left.grip_motion);
    let r = motion_entry(hand_is_device(multimodal, right), ids.hand_right, right.grip_motion);
    let dl = motion_entry(multimodal, ids.detached_controller_left, left.detached_grip_motion);
    let dr = motion_entry(multimodal, ids.detached_controller_right, right.detached_grip_motion);
    let known = fixed_ids(ids);
    let trackers = tracker_motions(body);
    let base = (1 + l.len() + r.len() + dl.len() + dr.len()) as int;
    assert(known[0] == ids.head && known[1] == ids.hand_left && known[2] == ids.hand_right
        && known[3] == ids.detached_controller_left && known[4] == ids.detached_controller_right);
    if i >= base {
        assert(motions[i] == trackers[i - base]);
    }
    if j >= base {
        assert(motions[j] == trackers[j - base]);
    }
}

/// What is sent of each device, and of no other: the head; a hand by its grip,
/// if hands and controllers are tracked at the same time or its joints are not
/// sent; a controller that is not held, in the first case only; and the trackers
/// as they were read.
pub proof fn law_every_motion_is_sent<M, S, B>(
    ids: DeviceIds,
    multimodal: bool,
    head: M,
    left: HandData<M, S>,
    right: HandData<M, S>,
    body: Option<BodyData<M, B>>,
    id: u64,
    m: M,
)
    requires
        ids_distinct(ids, body),
    ensures
        ({
            let sent = device_motions_of(ids, multimodal, head, left, right, body);
            &&& sent.contains((ids.head, m)) <==> m == head
            &&& multimodal ==> {
                &&& sent.contains((ids.hand_left, m)) <==> left.grip_motion == Some(m)
                &&& sent.contains((ids.hand_right, m)) <==> right.grip_motion == Some(m)
                &&& sent.contains((ids.detached_controller_left, m)) <==> left.detached_grip_motion
                    == Some(m)
                &&& sent.contains((ids.detached_controller_right, m))
                    <==> right.detached_grip_motion == Some(m)
            }
            &&& !multimodal ==> {
                &&& sent.contains((ids.hand_left, m)) <==> left.skeleton_joints is None
                    && left.grip_motion == Some(m)
                &&& sent.contains((ids.hand_right, m)) <==> right.skeleton_joints is None
                    && right.grip_motion == Some(m)
                &&& !sent.contains((ids.detached_controller_left, m))
                &&& !sent.contains((ids.detached_controller_right, m))
            }
            &&& !fixed_ids(ids).contains(id) ==> (sent.contains((id, m)) <==> (body matches Some(
                read,
            ) && read.trackers@.contains((id, m))))
        }),
{
    let sent = device_motions_of(ids, multimodal, head, left, right, body);
    let l = motion_entry(hand_is_device(multimodal, left), ids.hand_left, left.grip_motion);
    let r = motion_entry(hand_is_device(multimodal, right), ids.hand_right, right.grip_motion);
    let dl = motion_entry(multimodal, ids.detached_controller_left, left.detached_grip_motion);
    let dr = motion_entry(multimodal, ids.detached_controller_right, right.detached_grip_motion);
    let known = fixed_ids(ids);
    let trackers = tracker_motions(body);
    assert(known[0] == ids.head && known[1] == ids.hand_left && known[2] == ids.hand_right
        && known[3] == ids.detached_controller_left && known[4] == ids.detached_controller_right);
    let at_l = 1int;
    let at_r = at_l + l.len();
    let at_dl = at_r + r.len();
    let at_dr = at_dl + dl.len();
    let base = at_dr + dr.len();
    assert(sent[0] == (ids.head, head));
    if l.len() > 0 {
        assert(sent[at_l] == l[0]);
    }
    if r.len() > 0 {
        assert(sent[at_r] == r[0]);
    }
    if dl.len() > 0 {
        assert(sent[at_dl] == dl[0]);
    }
    if dr.len() > 0 {
        assert(sent[at_dr] == dr[0]);
    }
    assert forall|i: int| 0 <= i < sent.len() implies {
        ||| #[trigger] sent[i] == (ids.head, head)
        ||| l.len() > 0 && sent[i] == l[0]
        ||| r.len() > 0 && sent[i] == r[0]
        ||| dl.len() > 0 && sent[i] == dl[0]
        ||| dr.len() > 0 && sent[i] == dr[0]
        ||| 0 <= i - base < trackers.len() && sent[i] == trackers[i - base]
    } by {}
    assert forall|j: int| 0 <= j < trackers.len() implies sent[base + j]
        == #[trigger] trackers[j] by {}
}

/// The devices are sent in one order: the head, the hands, the controllers that
/// are not held, each time the left one first, and then the trackers as they
/// were read.
pub proof fn law_devices_are_sent_in_order<M, S, B>(
    ids: DeviceIds,
    multimodal: bool,
    head: M,
    left: HandData<M, S>,
    right: HandData<M, S>,
    body: Option<BodyData<M, B>>,
    i: int,
    j: int,
    p: int,
    q: int,
)
    requires
        ids_distinct(ids, body),
        0 <= i < device_motions_of(ids, multimodal, head, left, right, body).len(),
        0 <= j < device_motions_of(ids, multimodal, head, left, right, body).len(),
        0 <= p < q < 5,
    ensures
        ({
            let sent = device_motions_of(ids, multimodal, head, left, right, body);
            let known = seq![
                ids.head,
                ids.hand_left,
                ids.hand_right,
                ids.detached_controller_left,
                ids.detached_controller_right,
            ];
            &&& sent[i].0 == known[p] && sent[j].0 == known[q] ==> i < j
            &&& body matches Some(read) ==> {
                &&& sent.len() >= 1 + read.trackers.len()
                &&& sent.skip(sent.len() - read.trackers.len()) == read.trackers@
            }
        }),
{
    let sent = device_motions_of(ids, multimodal, head, left, right, body);
    let l = motion_entry(hand_is_device(multimodal, left), ids.hand_left, left.grip_motion);
    let r = motion_entry(hand_is_device(multimodal, right), ids.hand_right, right.grip_motion);
    let dl = motion_entry(multimodal, ids.detached_controller_left, left.detached_grip_motion);
    let dr = motion_entry(multimodal, ids.detached_controller_right, right.detached_grip_motion);
    let known = fixed_ids(ids);
    let trackers = tracker_motions(body);
    assert(known[0] == ids.head && known[1] == ids.hand_left && known[2] == ids.hand_right
        && known[3] == ids.detached_controller_left && known[4] == ids.detached_controller_right);
    let base = (1 + l.len() + r.len() + dl.len() + dr.len()) as int;
    if i >= base {
        assert(sent[i] == trackers[i - base]);
    }
    if j >= base {
        assert(sent[j] == trackers[j - base]);
    }
    if let Some(read) = body {
        assert(sent.skip(sent.len() - read.trackers.len()) =~= read.trackers@);
    }
}

/// How many motions are sent: one for the head, one for each hand and each
/// controller that counts, and one for each tracker.
pub proof fn law_motions_are_counted<M, S, B>(
    ids: DeviceIds,
    multimodal: bool,
    head: M,
    left: HandData<M, S>,
    right: HandData<M, S>,
    body: Option<BodyData<M, B>>,
)
    ensures
        ({
            let counts = |hand: HandData<M, S>|
                (if hand.grip_motion is Some && (multimodal || hand.skeleton_joints is None) {
                    1int
                } else {
                    0
                }) + (if hand.detached_grip_motion is Some && multimodal {
                    1int
                } else {
                    0
                });
            device_motions_of(ids, multimodal, head, left, right, body).len() == 1 + counts(left)
                + counts(right) + (match body {
                Some(read) => read.trackers@.len() as int,
                None => 0,
            })
        }),
{
}

/// Everything that was read is sent as it was read: the time, the joints of each
/// hand on its side, the face, the skeleton of the body if there is one, and the
/// markers, none if they could not be read. The motions are those of the devices.
pub proof fn law_everything_read_is_sent<M, S, F, B, K>(
    data: TrackingData<M, S, F, B, K>,
    poll_timestamp: u128,
    ids: DeviceIds,
    multimodal: bool,
    head: M,
    left: HandData<M, S>,
    right: HandData<M, S>,
    face: F,
    body: Option<BodyData<M, B>>,
    markers: Option<Vec<K>>,
)
    requires
        data@ == tracking_of(
            poll_timestamp,
            ids,
            multimodal,
            head,
            left,
            right,
            face,
            body,
            markers,
        ),
    ensures
        data.poll_timestamp == poll_timestamp,
        data.hand_skeletons.0 == left.skeleton_joints,
        data.hand_skeletons.1 == right.skeleton_joints,
        data.face == face,
        body is None ==> data.body is None,
        body matches Some(read) ==> data.body == read.skeleton,
        markers is None ==> data.markers@.len() == 0,
        markers matches Some(found) ==> data.markers@ == found@,
        data.device_motions@ == device_motions_of(ids, multimodal, head, left, right, body),
{
}

} // verus!
