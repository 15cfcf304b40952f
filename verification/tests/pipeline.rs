use lindows::clock::{millis, FrameClock, Stamp};
use lindows::pipeline::{
    flatten, CaptureAction, CaptureEvent, Codec, EncoderConfig, Pipeline, Quality, Stage,
};
use lindows::queue::{BroadcastQueue, EncodedFrame};
use lindows::target::{first_set, select_window, WindowInfo};

fn window(app: &str, title: &str, width: u32, height: u32) -> WindowInfo {
    WindowInfo { app_identifier: app.to_string(), title: title.to_string(), width, height }
}

fn windows() -> Vec<WindowInfo> {
    vec![
        window("com.apple.finder", "Files", 800, 600),
        window("com.tencent.QQ", "", 300, 200),
        window("com.Tencent.qq", "Chat", 1280, 720),
        window("com.tencent.qq", "Other", 640, 480),
    ]
}

fn capturing(at: u64) -> Pipeline {
    let mut p = Pipeline::new("qq", 64, false);
    p.handle(CaptureEvent::Begin);
    p.handle(CaptureEvent::AccessProbed(true));
    p.handle(CaptureEvent::Windows { windows: windows(), now_ms: at });
    assert_eq!(p.stage(), Stage::Capturing);
    p
}

fn frame(now_ms: u64) -> CaptureEvent {
    CaptureEvent::Frame { pixels: vec![[1, 2, 3, 4], [5, 6, 7, 8]], width: 2, height: 1, now_ms }
}

fn stamps(actions: &[CaptureAction]) -> Vec<u64> {
    let mut out = Vec::new();
    for a in actions {
        if let CaptureAction::Enqueue(f) = a {
            out.push(f.presentation_ms);
        }
    }
    out
}

#[test]
fn span_is_seconds_times_thousand_plus_millis() {
    assert_eq!(millis(0, 0), 0);
    assert_eq!(millis(1, 0), 1000);
    assert_eq!(millis(2, 345), 2345);
    assert_eq!(millis(0, 999), 999);
    assert_eq!(millis(18446744073709551, 615), u64::MAX);
}

#[test]
fn span_that_is_too_long_is_the_longest() {
    assert_eq!(millis(u64::MAX, 0), u64::MAX);
    assert_eq!(millis(18446744073709551, 616), u64::MAX);
    assert_eq!(millis(18446744073709552, 0), u64::MAX);
}

#[test]
fn stamp_counts_from_the_start_and_from_the_frame_before() {
    let mut clock = FrameClock::new(1000);
    assert_eq!(clock.stamp(1040), Stamp { presentation_ms: 40, duration_ms: 40 });
    assert_eq!(clock.stamp(1073), Stamp { presentation_ms: 73, duration_ms: 33 });
    assert_eq!(clock.stamp(1073), Stamp { presentation_ms: 73, duration_ms: 0 });
    assert_eq!(clock.stamp(2000), Stamp { presentation_ms: 1000, duration_ms: 927 });
}

#[test]
fn stamp_never_goes_back() {
    let mut clock = FrameClock::new(1000);
    assert_eq!(clock.stamp(1500), Stamp { presentation_ms: 500, duration_ms: 500 });
    assert_eq!(clock.stamp(1200), Stamp { presentation_ms: 500, duration_ms: 0 });
    assert_eq!(clock.stamp(900), Stamp { presentation_ms: 500, duration_ms: 0 });
    assert_eq!(clock.stamp(1600), Stamp { presentation_ms: 600, duration_ms: 700 });
}

#[test]
fn first_flag_set_is_found() {
    assert_eq!(first_set(&vec![]), None);
    assert_eq!(first_set(&vec![false, false]), None);
    assert_eq!(first_set(&vec![false, true, true]), Some(1));
    assert_eq!(first_set(&vec![true]), Some(0));
}

#[test]
fn first_titled_window_of_the_application_is_chosen() {
    assert_eq!(select_window(&windows(), "qq"), Some(2));
    assert_eq!(select_window(&windows(), "QQ"), Some(2));
    assert_eq!(select_window(&windows(), "finder"), Some(0));
    assert_eq!(select_window(&windows(), "FINDER"), Some(0));
    assert_eq!(select_window(&windows(), "edge"), None);
    assert_eq!(select_window(&vec![], "qq"), None);
    assert_eq!(select_window(&windows(), ""), Some(0));
}

#[test]
fn window_without_title_is_not_a_target() {
    assert!(!window("com.tencent.qq", "", 1, 1).is_target("qq"));
    assert!(window("com.tencent.qq", "t", 1, 1).is_target("qq"));
    assert!(window("com.tencent.QQ", "t", 1, 1).is_target("tencent.qq"));
    assert!(!window("com.tencent.qq", "t", 1, 1).is_target("qqq"));
}

#[test]
fn pixels_are_laid_out_one_after_the_other() {
    assert_eq!(flatten(&vec![]), Vec::<u8>::new());
    assert_eq!(flatten(&vec![[1, 2, 3, 4]]), vec![1, 2, 3, 4]);
    assert_eq!(
        flatten(&vec![[1, 2, 3, 4], [5, 6, 7, 8], [9, 10, 11, 12]]),
        vec![1, 2, 3, 4, 5, 6, 7, 8, 9, 10, 11, 12]
    );
}

#[test]
fn pipeline_begins_with_the_permission() {
    let mut p = Pipeline::new("qq", 64, false);
    assert_eq!(p.stage(), Stage::Idle);
    assert_eq!(p.handle(CaptureEvent::Begin), vec![CaptureAction::ProbeAccess]);
    assert_eq!(p.stage(), Stage::Probing);
    assert_eq!(p.handle(CaptureEvent::AccessProbed(false)), vec![CaptureAction::RequestAccess]);
    assert_eq!(p.stage(), Stage::Asking);
    assert_eq!(p.handle(CaptureEvent::AccessAnswered(true)), vec![CaptureAction::ListWindows]);
    assert_eq!(p.stage(), Stage::Listing);
}

#[test]
fn pipeline_begins_once() {
    let mut p = Pipeline::new("qq", 64, false);
    assert_eq!(p.handle(CaptureEvent::Begin), vec![CaptureAction::ProbeAccess]);
    assert!(p.handle(CaptureEvent::Begin).is_empty());
    let mut p = capturing(0);
    assert!(p.handle(CaptureEvent::Begin).is_empty());
    assert_eq!(p.stage(), Stage::Capturing);
    p.handle(CaptureEvent::Stop);
    assert!(p.handle(CaptureEvent::Begin).is_empty());
    assert_eq!(p.stage(), Stage::Stopped);
}

#[test]
fn denied_permission_fails_the_pipeline() {
    let mut p = Pipeline::new("qq", 64, false);
    p.handle(CaptureEvent::Begin);
    p.handle(CaptureEvent::AccessProbed(false));
    assert!(p.handle(CaptureEvent::AccessAnswered(false)).is_empty());
    assert_eq!(p.stage(), Stage::Failed);
    assert!(p.handle(CaptureEvent::Begin).is_empty());
    assert!(p.handle(CaptureEvent::Stop).is_empty());
    assert_eq!(p.stage(), Stage::Failed);
}

#[test]
fn missing_window_fails_the_pipeline() {
    let mut p = Pipeline::new("edge", 64, false);
    p.handle(CaptureEvent::Begin);
    p.handle(CaptureEvent::AccessProbed(true));
    assert!(p.handle(CaptureEvent::Windows { windows: windows(), now_ms: 5 }).is_empty());
    assert_eq!(p.stage(), Stage::Failed);
}

#[test]
fn chosen_window_gets_one_balanced_vp8_encoder() {
    let mut p = Pipeline::new("qq", 64, false);
    p.handle(CaptureEvent::Begin);
    assert_eq!(p.handle(CaptureEvent::AccessProbed(true)), vec![CaptureAction::ListWindows]);
    let actions = p.handle(CaptureEvent::Windows { windows: windows(), now_ms: 5 });
    assert_eq!(
        actions,
        vec![
            CaptureAction::Configure { window: 2, width: 1280, height: 720 },
            CaptureAction::CreateEncoder(EncoderConfig {
                width: 1280,
                height: 720,
                quality: Quality::Balanced,
                codec: Codec::Vp8,
                keyframe_interval: None,
            }),
            CaptureAction::StartStream,
        ]
    );
    assert_eq!(p.stage(), Stage::Capturing);
}

#[test]
fn events_out_of_turn_are_ignored() {
    let mut p = Pipeline::new("qq", 64, false);
    assert!(p.handle(CaptureEvent::AccessProbed(true)).is_empty());
    assert!(p.handle(CaptureEvent::AccessAnswered(true)).is_empty());
    assert!(p.handle(CaptureEvent::Windows { windows: windows(), now_ms: 0 }).is_empty());
    assert!(p.handle(frame(10)).is_empty());
    assert!(p.handle(CaptureEvent::Encoded(vec![vec![1]])).is_empty());
    assert!(p.handle(CaptureEvent::CaptureFailed).is_empty());
    assert!(p.handle(CaptureEvent::EncodeFailed).is_empty());
    assert_eq!(p.stage(), Stage::Idle);
    let mut p = capturing(0);
    assert!(p.handle(CaptureEvent::Encoded(vec![vec![1]])).is_empty());
    assert!(p.handle(CaptureEvent::Windows { windows: windows(), now_ms: 9 }).is_empty());
}

#[test]
fn frame_is_stamped_and_handed_to_the_encoder() {
    let mut p = capturing(1000);
    let actions = p.handle(frame(1040));
    assert_eq!(
        actions,
        vec![CaptureAction::Encode {
            bgra: vec![1, 2, 3, 4, 5, 6, 7, 8],
            width: 2,
            height: 1,
            presentation_ms: 40,
            stride_align: 64,
        }]
    );
    let actions = p.handle(CaptureEvent::Encoded(vec![vec![9, 9], vec![7]]));
    assert_eq!(
        actions,
        vec![
            CaptureAction::Enqueue(EncodedFrame {
                data: vec![9, 9],
                presentation_ms: 40,
                duration_ms: 40,
            }),
            CaptureAction::Enqueue(EncodedFrame {
                data: vec![7],
                presentation_ms: 40,
                duration_ms: 40,
            }),
        ]
    );
    p.handle(frame(1073));
    let actions = p.handle(CaptureEvent::Encoded(vec![vec![5]]));
    assert_eq!(
        actions,
        vec![CaptureAction::Enqueue(EncodedFrame {
            data: vec![5],
            presentation_ms: 73,
            duration_ms: 33,
        })]
    );
    assert!(p.handle(CaptureEvent::Encoded(vec![])).is_empty());
}

#[test]
fn presentation_time_never_falls() {
    let mut p = capturing(100);
    let mut seen = Vec::new();
    for now in [150u64, 140, 400, 90, 401, 401, 1000] {
        p.handle(frame(now));
        seen.extend(stamps(&p.handle(CaptureEvent::Encoded(vec![vec![0], vec![1]]))));
    }
    assert_eq!(seen, vec![50, 50, 50, 50, 300, 300, 300, 300, 301, 301, 301, 301, 900, 900]);
    for pair in seen.windows(2) {
        assert!(pair[0] <= pair[1]);
    }
}

#[test]
fn failed_encoding_drops_the_frame_and_nothing_else() {
    let mut p = capturing(0);
    p.handle(frame(10));
    assert!(p.handle(CaptureEvent::EncodeFailed).is_empty());
    assert_eq!(p.stage(), Stage::Capturing);
    let actions = p.handle(frame(20));
    assert_eq!(actions.len(), 1);
    assert_eq!(stamps(&p.handle(CaptureEvent::Encoded(vec![vec![1]]))), vec![20]);
}

#[test]
fn second_capture_error_in_a_row_stops_the_pipeline() {
    let mut p = capturing(0);
    assert!(p.handle(CaptureEvent::CaptureFailed).is_empty());
    assert_eq!(p.stage(), Stage::Capturing);
    assert_eq!(
        p.handle(CaptureEvent::CaptureFailed),
        vec![CaptureAction::StopStream, CaptureAction::DropEncoder]
    );
    assert_eq!(p.stage(), Stage::Stopped);
    assert!(p.handle(frame(10)).is_empty());
}

#[test]
fn frame_between_two_errors_keeps_the_pipeline_going() {
    let mut p = capturing(0);
    assert!(p.handle(CaptureEvent::CaptureFailed).is_empty());
    assert_eq!(p.handle(frame(10)).len(), 1);
    assert!(p.handle(CaptureEvent::CaptureFailed).is_empty());
    assert_eq!(p.stage(), Stage::Capturing);
    assert_eq!(p.handle(frame(20)).len(), 1);
}

#[test]
fn stopping_twice_is_stopping_once() {
    let mut p = capturing(0);
    assert_eq!(
        p.handle(CaptureEvent::Stop),
        vec![CaptureAction::StopStream, CaptureAction::DropEncoder]
    );
    assert_eq!(p.stage(), Stage::Stopped);
    assert!(p.handle(CaptureEvent::Stop).is_empty());
    assert_eq!(p.stage(), Stage::Stopped);
}

#[test]
fn stopping_before_the_capture_means_never_capturing() {
    let mut p = Pipeline::new("qq", 64, false);
    p.handle(CaptureEvent::Begin);
    assert!(p.handle(CaptureEvent::Stop).is_empty());
    assert_eq!(p.stage(), Stage::Stopped);
    assert!(p.handle(CaptureEvent::AccessProbed(true)).is_empty());
    assert_eq!(p.stage(), Stage::Stopped);
}

#[test]
fn one_encoder_serves_the_whole_capture() {
    let mut p = Pipeline::new("qq", 64, false);
    let mut made = 0;
    let mut events = vec![
        CaptureEvent::Begin,
        CaptureEvent::AccessProbed(true),
        CaptureEvent::Windows { windows: windows(), now_ms: 0 },
    ];
    for i in 1..20u64 {
        events.push(frame(i * 33));
        events.push(CaptureEvent::Encoded(vec![vec![0]]));
    }
    events.push(CaptureEvent::Begin);
    events.push(CaptureEvent::Windows { windows: windows(), now_ms: 0 });
    events.push(CaptureEvent::Stop);
    events.push(CaptureEvent::Begin);
    for e in events {
        for a in p.handle(e) {
            if let CaptureAction::CreateEncoder(_) = a {
                made += 1;
            }
        }
    }
    assert_eq!(made, 1);
}

fn sample(presentation_ms: u64) -> EncodedFrame {
    EncodedFrame { data: vec![presentation_ms as u8], presentation_ms, duration_ms: 33 }
}

#[test]
fn queue_hands_frames_out_in_their_order() {
    let mut q = BroadcastQueue::new(3);
    assert!(q.is_empty());
    assert_eq!(q.capacity(), 3);
    assert_eq!(q.push(sample(1)), None);
    assert_eq!(q.push(sample(2)), None);
    assert_eq!(q.len(), 2);
    assert_eq!(q.pop(), Some(sample(1)));
    assert_eq!(q.pop(), Some(sample(2)));
    assert_eq!(q.pop(), None);
}

#[test]
fn full_queue_drops_the_oldest() {
    let mut q = BroadcastQueue::new(2);
    assert_eq!(q.push(sample(1)), None);
    assert_eq!(q.push(sample(2)), None);
    assert_eq!(q.push(sample(3)), Some(sample(1)));
    assert_eq!(q.push(sample(4)), Some(sample(2)));
    assert_eq!(q.len(), 2);
    assert_eq!(q.pop(), Some(sample(3)));
    assert_eq!(q.pop(), Some(sample(4)));
    assert!(q.is_empty());
}

#[test]
fn queue_for_nothing_holds_one() {
    let mut q = BroadcastQueue::new(0);
    assert_eq!(q.capacity(), 1);
    assert_eq!(q.push(sample(1)), None);
    assert_eq!(q.push(sample(2)), Some(sample(1)));
    assert_eq!(q.pop(), Some(sample(2)));
}

#[test]
fn flushing_pipeline_flushes_after_every_frame() {
    let mut p = Pipeline::new("qq", 16, true);
    p.handle(CaptureEvent::Begin);
    p.handle(CaptureEvent::AccessProbed(true));
    p.handle(CaptureEvent::Windows { windows: windows(), now_ms: 0 });
    p.handle(frame(40));
    let actions = p.handle(CaptureEvent::Encoded(vec![vec![1]]));
    assert_eq!(
        actions,
        vec![
            CaptureAction::Enqueue(EncodedFrame {
                data: vec![1],
                presentation_ms: 40,
                duration_ms: 40,
            }),
            CaptureAction::FlushEncoder,
        ]
    );
    let actions = p.handle(CaptureEvent::Flushed(vec![vec![2], vec![3]]));
    assert_eq!(
        actions,
        vec![
            CaptureAction::Enqueue(EncodedFrame {
                data: vec![2],
                presentation_ms: 40,
                duration_ms: 40,
            }),
            CaptureAction::Enqueue(EncodedFrame {
                data: vec![3],
                presentation_ms: 40,
                duration_ms: 40,
            }),
        ]
    );
    assert_eq!(p.handle(CaptureEvent::Encoded(vec![])), vec![CaptureAction::FlushEncoder]);
}

#[test]
fn failed_flush_changes_nothing() {
    let mut p = Pipeline::new("qq", 16, true);
    p.handle(CaptureEvent::Begin);
    p.handle(CaptureEvent::AccessProbed(true));
    p.handle(CaptureEvent::Windows { windows: windows(), now_ms: 0 });
    p.handle(frame(40));
    p.handle(CaptureEvent::Encoded(vec![vec![1]]));
    assert!(p.handle(CaptureEvent::FlushFailed).is_empty());
    assert_eq!(p.stage(), Stage::Capturing);
    assert_eq!(p.handle(frame(80)).len(), 1);
}

#[test]
fn pipeline_that_does_not_flush_never_asks_for_it() {
    let mut p = capturing(0);
    p.handle(frame(40));
    let actions = p.handle(CaptureEvent::Encoded(vec![vec![1]]));
    assert_eq!(actions.len(), 1);
    assert!(p.handle(CaptureEvent::Flushed(vec![])).is_empty());
}
