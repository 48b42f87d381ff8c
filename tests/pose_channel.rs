use simulo::bridge::pose_for_event;
use simulo::pose::{Keypoint, Pose, KEYPOINT_COUNT, POSE_LEN};

fn counting_buffer() -> [f32; 34] {
    let mut f = [0.0f32; 34];
    for (i, v) in f.iter_mut().enumerate() {
        *v = i as f32;
    }
    f
}

#[test]
fn decode_counting_buffer_names_each_landmark() {
    let f = counting_buffer();
    let pose = Pose::decode(&f);
    assert_eq!(pose.nose(), Keypoint { x: 0.0, y: 1.0 });
    assert_eq!(pose.left_eye(), Keypoint { x: 2.0, y: 3.0 });
    assert_eq!(pose.right_eye(), Keypoint { x: 4.0, y: 5.0 });
    assert_eq!(pose.left_ear(), Keypoint { x: 6.0, y: 7.0 });
    assert_eq!(pose.right_ear(), Keypoint { x: 8.0, y: 9.0 });
    assert_eq!(pose.left_shoulder(), Keypoint { x: 10.0, y: 11.0 });
    assert_eq!(pose.right_shoulder(), Keypoint { x: 12.0, y: 13.0 });
    assert_eq!(pose.left_elbow(), Keypoint { x: 14.0, y: 15.0 });
    assert_eq!(pose.right_elbow(), Keypoint { x: 16.0, y: 17.0 });
    assert_eq!(pose.left_wrist(), Keypoint { x: 18.0, y: 19.0 });
    assert_eq!(pose.right_wrist(), Keypoint { x: 20.0, y: 21.0 });
    assert_eq!(pose.left_hip(), Keypoint { x: 22.0, y: 23.0 });
    assert_eq!(pose.right_hip(), Keypoint { x: 24.0, y: 25.0 });
    assert_eq!(pose.left_knee(), Keypoint { x: 26.0, y: 27.0 });
    assert_eq!(pose.right_knee(), Keypoint { x: 28.0, y: 29.0 });
    assert_eq!(pose.left_ankle(), Keypoint { x: 30.0, y: 31.0 });
    assert_eq!(pose.right_ankle(), Keypoint { x: 32.0, y: 33.0 });
}

#[test]
fn keypoint_reads_fixed_offsets() {
    let f = counting_buffer();
    let pose = Pose(f);
    for k in 0..KEYPOINT_COUNT {
        let p = pose.keypoint(k);
        assert_eq!(p.x, (2 * k) as f32);
        assert_eq!(p.y, (2 * k + 1) as f32);
    }
    assert_eq!(POSE_LEN, 2 * KEYPOINT_COUNT);
}

#[test]
fn decoded_snapshot_is_a_copy() {
    let mut f = counting_buffer();
    let pose = Pose::decode(&f);
    f[0] = 100.0;
    f[1] = 200.0;
    assert_eq!(pose.nose(), Keypoint { x: 0.0, y: 1.0 });
}

#[test]
fn lost_detection_gives_explicit_absence() {
    let f = counting_buffer();
    assert!(pose_for_event(false, &f).is_none());
    let zeros = [0.0f32; 34];
    assert!(pose_for_event(false, &zeros).is_none());
}

#[test]
fn alive_detection_gives_decoded_buffer() {
    let f = counting_buffer();
    let pose = pose_for_event(true, &f).expect("alive detection carries a pose");
    assert_eq!(pose.0, f);
    assert_eq!(pose.right_ankle(), Keypoint { x: 32.0, y: 33.0 });
}
