use openxr_stream::buttons::{is_down, ButtonEdges, ButtonReading};
use openxr_stream::tracking::{assemble_tracking, BodyData, DeviceIds, HandData};

fn ids() -> DeviceIds {
    DeviceIds {
        head: 1,
        hand_left: 2,
        hand_right: 3,
        detached_controller_left: 4,
        detached_controller_right: 5,
    }
}

fn hand(grip: Option<u32>, detached: Option<u32>, joints: Option<u32>) -> HandData<u32, u32> {
    HandData { grip_motion: grip, detached_grip_motion: detached, skeleton_joints: joints }
}

fn motions(multimodal: bool, left: HandData<u32, u32>, right: HandData<u32, u32>) -> Vec<(u64, u32)> {
    let body: Option<BodyData<u32, u32>> = None;
    let markers: Option<Vec<u32>> = None;
    assemble_tracking(0, &ids(), multimodal, 10, left, right, (), body, markers).device_motions
}

#[test]
fn controllers_are_devices() {
    assert_eq!(
        motions(false, hand(Some(20), None, None), hand(Some(30), None, None)),
        vec![(1, 10), (2, 20), (3, 30)]
    );
}

#[test]
fn hand_with_joints_is_no_device() {
    assert_eq!(
        motions(false, hand(Some(20), Some(40), Some(7)), hand(Some(30), Some(50), None)),
        vec![(1, 10), (3, 30)]
    );
}

#[test]
fn multimodal_sends_everything() {
    assert_eq!(
        motions(true, hand(Some(20), Some(40), Some(7)), hand(None, Some(50), Some(8))),
        vec![(1, 10), (2, 20), (4, 40), (5, 50)]
    );
}

#[test]
fn tracking_carries_all_parts() {
    let body = Some(BodyData { skeleton: Some(9), trackers: vec![(77, 70), (78, 71)] });
    let data = assemble_tracking(
        123,
        &ids(),
        false,
        10,
        hand(None, None, Some(7)),
        hand(Some(30), None, None),
        "face",
        body,
        Some(vec![5, 6]),
    );
    assert_eq!(data.poll_timestamp, 123);
    assert_eq!(data.device_motions, vec![(1, 10), (3, 30), (77, 70), (78, 71)]);
    assert_eq!(data.hand_skeletons, (Some(7), None));
    assert_eq!(data.face, "face");
    assert_eq!(data.body, Some(9));
    assert_eq!(data.markers, vec![5, 6]);
}

#[test]
fn missing_parts_are_empty() {
    let body: Option<BodyData<u32, u32>> = None;
    let markers: Option<Vec<u32>> = None;
    let data = assemble_tracking(
        0,
        &ids(),
        false,
        10,
        hand(None, None, None),
        hand(None, None, None),
        (),
        body,
        markers,
    );
    assert_eq!(data.device_motions, vec![(1, 10)]);
    assert_eq!(data.body, None);
    assert!(data.markers.is_empty());
}

#[test]
fn only_a_read_binary_button_is_down() {
    assert!(is_down(Some(ButtonReading::Binary(Some(true)))));
    assert!(!is_down(Some(ButtonReading::Binary(Some(false)))));
    assert!(!is_down(Some(ButtonReading::Binary(None))));
    assert!(!is_down(Some(ButtonReading::Other)));
    assert!(!is_down(None));
}

fn states(readings: &[(u64, bool)]) -> Vec<(u64, ButtonReading)> {
    readings.iter().map(|(id, down)| (*id, ButtonReading::Binary(Some(*down)))).collect()
}

#[test]
fn press_is_told_once() {
    let mut edges = ButtonEdges::new();
    assert_eq!(edges.update(&states(&[(1, true), (2, false)])), vec![1]);
    assert_eq!(edges.update(&states(&[(1, true), (2, true)])), vec![2]);
    assert_eq!(edges.update(&states(&[(1, false), (2, true)])), Vec::<u64>::new());
    assert_eq!(edges.update(&states(&[(2, true), (1, true)])), vec![1]);
}

#[test]
fn unread_button_is_remembered() {
    let mut edges = ButtonEdges::new();
    assert_eq!(edges.update(&states(&[(1, true)])), vec![1]);
    assert_eq!(edges.update(&vec![]), Vec::<u64>::new());
    assert_eq!(edges.update(&states(&[(1, true)])), Vec::<u64>::new());
}

#[test]
fn unreadable_button_is_passed_over() {
    let mut edges = ButtonEdges::new();
    let readings = vec![
        (1, ButtonReading::Binary(None)),
        (2, ButtonReading::Other),
        (3, ButtonReading::Binary(Some(true))),
    ];
    assert_eq!(edges.update(&readings), vec![3]);
    assert_eq!(edges.update(&vec![(3, ButtonReading::Binary(None))]), Vec::<u64>::new());
    assert_eq!(edges.update(&states(&[(3, true)])), Vec::<u64>::new());
    assert_eq!(edges.update(&states(&[(1, true)])), vec![1]);
}
