use rovhost::codec::VideoAlgorithm;
use rovhost::sink::{FlowError, FramePlan, FrameQueue, FrameSink, FrameGeometry};
use rovhost::video::{SlaveVideoInput, SlaveVideoModel, SlaveVideoOutput, VideoAction, VideoFault};

#[test]
fn frame_before_geometry_is_dropped() {
    let mut sink = FrameSink::new(None);
    assert_eq!(sink.on_frame(1000), Err(FlowError::Flushing));
    sink.on_caps(Some(4), None);
    assert_eq!(sink.on_frame(1000), Err(FlowError::Flushing));
    sink.on_caps(Some(4), Some(2));
    assert_eq!(sink.get_geometry(), Some(FrameGeometry { width: 4, height: 2 }));
    assert_eq!(sink.on_frame(24), Ok(FramePlan { width: 4, height: 2, enhance: false }));
    assert_eq!(sink.on_frame(23), Err(FlowError::ShortBuffer));
    sink.reset();
    assert_eq!(sink.on_frame(24), Err(FlowError::Flushing));
}

#[test]
fn enhancement_follows_configuration() {
    let mut sink = FrameSink::new(Some(VideoAlgorithm::CLAHE));
    sink.on_caps(Some(2), Some(2));
    assert_eq!(sink.on_frame(12), Ok(FramePlan { width: 2, height: 2, enhance: true }));
}

#[test]
fn leaky_queue_drops_oldest() {
    let mut q = FrameQueue::new(1, true);
    for f in 0..10u64 {
        assert!(q.push(f));
    }
    assert_eq!(q.len(), 1);
    assert_eq!(q.pop(), Some(9));
    assert_eq!(q.pop(), None);
    let mut q = FrameQueue::new(2, true);
    for f in 0..5u64 {
        q.push(f);
    }
    assert_eq!(q.pop(), Some(3));
    assert_eq!(q.pop(), Some(4));
}

#[test]
fn blocking_queue_refuses_when_full() {
    let mut q = FrameQueue::new(2, false);
    assert!(q.push(1));
    assert!(q.push(2));
    assert!(!q.push(3));
    assert_eq!(q.pop(), Some(1));
}

#[test]
fn start_frame_stop_scenario() {
    let mut m = SlaveVideoModel::new();
    let (o, a) = m.update(SlaveVideoInput::StartPipeline);
    assert!(o.is_empty());
    assert_eq!(a, vec![VideoAction::Build]);
    let (o, a) = m.update(SlaveVideoInput::Started);
    assert_eq!(o, vec![SlaveVideoOutput::PollingChanged(true)]);
    assert!(a.is_empty());
    assert!(m.is_running());

    let mut sink = FrameSink::new(None);
    sink.on_caps(Some(640), Some(480));
    let plan = sink.on_frame(640 * 480 * 3).unwrap();
    assert_eq!((plan.width, plan.height), (640, 480));
    let (_, a) = m.update(SlaveVideoInput::Frame);
    assert_eq!(a, vec![VideoAction::ShowFrame]);

    let (o, a) = m.update(SlaveVideoInput::StopPipeline);
    assert!(o.is_empty());
    assert_eq!(a, vec![VideoAction::SendEos, VideoAction::ArmTimeout]);
    let (_, a) = m.update(SlaveVideoInput::Frame);
    assert!(a.is_empty());
    let (o, a) = m.update(SlaveVideoInput::Drained);
    assert_eq!(o, vec![SlaveVideoOutput::PollingChanged(false)]);
    assert_eq!(a, vec![VideoAction::SetNull]);
    assert!(!m.is_running());
    let (o, a) = m.update(SlaveVideoInput::Timeout);
    assert!(o.is_empty() && a.is_empty());
    let (_, a) = m.update(SlaveVideoInput::Frame);
    assert!(a.is_empty());
}

#[test]
fn unresponsive_stop_is_forced() {
    let mut m = SlaveVideoModel::new();
    m.update(SlaveVideoInput::StartPipeline);
    m.update(SlaveVideoInput::Started);
    m.update(SlaveVideoInput::StartRecord);
    let (o, _) = m.update(SlaveVideoInput::RecordStarted);
    assert_eq!(o, vec![SlaveVideoOutput::RecordingChanged(true)]);
    assert!(m.is_recording());
    let (_, a) = m.update(SlaveVideoInput::StopPipeline);
    assert_eq!(a, vec![VideoAction::DetachRecord, VideoAction::SendEos, VideoAction::ArmTimeout]);
    let (o, a) = m.update(SlaveVideoInput::Timeout);
    assert_eq!(
        o,
        vec![
            SlaveVideoOutput::PollingChanged(false),
            SlaveVideoOutput::RecordingChanged(false),
            SlaveVideoOutput::ForcedStop
        ]
    );
    assert_eq!(a, vec![VideoAction::SetNull]);
    assert!(!m.is_recording());
}

#[test]
fn failed_start_reports_error() {
    let mut m = SlaveVideoModel::new();
    m.update(SlaveVideoInput::StartPipeline);
    let (o, _) = m.update(SlaveVideoInput::StartFailed(VideoFault::Build));
    assert_eq!(o, vec![SlaveVideoOutput::ErrorMessage(VideoFault::Build), SlaveVideoOutput::PollingChanged(false)]);
    assert!(!m.is_running());
}

#[test]
fn record_attach_failure_and_detach() {
    let mut m = SlaveVideoModel::new();
    m.update(SlaveVideoInput::StartPipeline);
    m.update(SlaveVideoInput::Started);
    m.update(SlaveVideoInput::StartRecord);
    let (o, _) = m.update(SlaveVideoInput::RecordFailed);
    assert_eq!(o, vec![SlaveVideoOutput::ErrorMessage(VideoFault::Record), SlaveVideoOutput::RecordingChanged(false)]);
    m.update(SlaveVideoInput::StartRecord);
    m.update(SlaveVideoInput::RecordStarted);
    let (_, a) = m.update(SlaveVideoInput::StopRecord);
    assert_eq!(a, vec![VideoAction::DetachRecord]);
    let (o, a) = m.update(SlaveVideoInput::RecordDrained);
    assert_eq!(o, vec![SlaveVideoOutput::RecordingChanged(false)]);
    assert_eq!(a, vec![VideoAction::ReleaseRecord]);
}
