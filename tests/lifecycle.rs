use rtsp_ingest::config::{streams_for, Configuration, SourceConfiguration};
use rtsp_ingest::lifecycle::{EngineEvent, StreamLifecycleState, StreamWorker, WorkerAction};
use rtsp_ingest::streams::StreamFrame;
use rtsp_ingest::supervisor::Supervisor;

fn video_path() -> EngineEvent {
    EngineEvent::PathAvailable {
        sink_linked: false,
        src_linked: false,
        caps: "application/x-rtp, media=(string)video".to_string(),
    }
}

fn healthy_run(samples: usize) -> Vec<EngineEvent> {
    let mut evs = vec![EngineEvent::Constructed, video_path()];
    for _ in 0..samples {
        evs.push(EngineEvent::SampleReady);
    }
    evs.push(EngineEvent::Eos);
    evs
}

fn stops(acts: &[WorkerAction]) -> usize {
    acts.iter().filter(|a| **a == WorkerAction::Stop).count()
}

/// Runs a worker over the events and collects the frames it would send.
fn frames_of(worker: &mut StreamWorker, events: Vec<EngineEvent>) -> (Vec<WorkerAction>, Vec<StreamFrame>) {
    let mut acts = Vec::new();
    let mut frames = Vec::new();
    for (k, e) in events.into_iter().enumerate() {
        let a = worker.handle(e);
        if a == WorkerAction::Forward {
            frames.push(worker.frame_of(&[k as u8]));
        }
        acts.push(a);
    }
    (acts, frames)
}

#[test]
fn healthy_run_starts_attaches_forwards_and_stops() {
    let mut w = StreamWorker::new("cam1");
    let acts = w.drive(healthy_run(2));
    assert_eq!(
        acts,
        vec![
            WorkerAction::Start,
            WorkerAction::Attach,
            WorkerAction::Forward,
            WorkerAction::Forward,
            WorkerAction::Stop
        ]
    );
    assert_eq!(w.state, StreamLifecycleState::Eos);
    assert!(w.is_finished());
}

#[test]
fn end_to_end_two_cameras_six_frames() {
    let c = Configuration {
        sources: vec![
            SourceConfiguration { name: "cam1".to_string(), source_uri: "rtsp://x".to_string() },
            SourceConfiguration { name: "cam2".to_string(), source_uri: "rtsp://y".to_string() },
        ],
    };
    let streams = streams_for(&c);
    let mut sup = Supervisor::spawn(streams.len());
    assert_eq!(sup.worker_count(), 2);
    let mut received = Vec::new();
    for (i, s) in streams.iter().enumerate() {
        let mut w = StreamWorker::new(&s.stream_name);
        let (acts, frames) = frames_of(&mut w, healthy_run(3));
        assert_eq!(stops(&acts), 1);
        received.extend(frames);
        assert!(!sup.channel_closed());
        sup.finish_worker(i);
    }
    assert!(sup.all_joined());
    assert!(!sup.channel_closed());
    sup.release();
    assert!(sup.channel_closed());
    assert_eq!(received.len(), 6);
    assert_eq!(received.iter().filter(|f| f.source == "cam1").count(), 3);
    assert_eq!(received.iter().filter(|f| f.source == "cam2").count(), 3);
}

#[test]
fn construction_failure_stops_once_and_sends_nothing() {
    let mut w = StreamWorker::new("A");
    let acts = w.drive(vec![
        EngineEvent::ConstructionFailed("no backend".to_string()),
        EngineEvent::Constructed,
        EngineEvent::SampleReady,
        EngineEvent::Eos,
    ]);
    assert_eq!(acts[0], WorkerAction::Stop);
    assert_eq!(stops(&acts), 1);
    assert!(!acts.contains(&WorkerAction::Forward));
    assert_eq!(w.state, StreamLifecycleState::Error("no backend".to_string()));
}

#[test]
fn failed_source_does_not_affect_healthy_one() {
    let mut a = StreamWorker::new("A");
    let mut b = StreamWorker::new("B");
    let (_, fa) = frames_of(&mut a, vec![EngineEvent::ConstructionFailed("bad uri".to_string())]);
    let (_, fb) = frames_of(&mut b, healthy_run(4));
    assert!(fa.is_empty());
    assert_eq!(fb.len(), 4);
    assert!(fb.iter().all(|f| f.source == "B"));
}

#[test]
fn attach_failure_is_fatal_for_the_worker() {
    let mut w = StreamWorker::new("cam1");
    let acts = w.drive(vec![
        EngineEvent::Constructed,
        video_path(),
        EngineEvent::AttachFailed("not linked".to_string()),
        EngineEvent::SampleReady,
    ]);
    assert_eq!(
        acts,
        vec![WorkerAction::Start, WorkerAction::Attach, WorkerAction::Stop, WorkerAction::Ignore]
    );
    assert_eq!(w.state, StreamLifecycleState::Error("not linked".to_string()));
}

#[test]
fn mid_stream_error_stops_once() {
    let mut w = StreamWorker::new("cam1");
    let acts = w.drive(vec![
        EngineEvent::Constructed,
        EngineEvent::SampleReady,
        EngineEvent::Error("connection lost".to_string()),
        EngineEvent::Error("again".to_string()),
        EngineEvent::Eos,
    ]);
    assert_eq!(stops(&acts), 1);
    assert_eq!(acts[2], WorkerAction::Stop);
    assert_eq!(w.state, StreamLifecycleState::Error("connection lost".to_string()));
}

#[test]
fn closed_event_stream_ends_cleanly() {
    let mut w = StreamWorker::new("cam1");
    let acts = w.drive(vec![EngineEvent::Constructed, EngineEvent::Closed]);
    assert_eq!(acts, vec![WorkerAction::Start, WorkerAction::Stop]);
    assert_eq!(w.state, StreamLifecycleState::Eos);
}

#[test]
fn progress_is_logged_and_other_paths_ignored() {
    let mut w = StreamWorker::new("cam1");
    let acts = w.drive(vec![
        EngineEvent::Constructed,
        EngineEvent::Progress("connecting".to_string()),
        EngineEvent::PathAvailable {
            sink_linked: false,
            src_linked: false,
            caps: "application/x-rtp, media=(string)audio".to_string(),
        },
        EngineEvent::PathAvailable {
            sink_linked: true,
            src_linked: false,
            caps: "application/x-rtp, media=(string)video".to_string(),
        },
    ]);
    assert_eq!(
        acts,
        vec![WorkerAction::Start, WorkerAction::Log, WorkerAction::Ignore, WorkerAction::Ignore]
    );
    assert_eq!(w.state, StreamLifecycleState::Playing);
    assert!(!w.is_finished());
}

#[test]
fn samples_before_construction_are_ignored() {
    let mut w = StreamWorker::new("cam1");
    let acts = w.drive(vec![EngineEvent::SampleReady, EngineEvent::Eos]);
    assert_eq!(acts, vec![WorkerAction::Ignore, WorkerAction::Ignore]);
    assert_eq!(w.state, StreamLifecycleState::Idle);
}

#[test]
fn ever_producing_source_blocks_shutdown() {
    let mut w = StreamWorker::new("stalled");
    let mut evs = vec![EngineEvent::Constructed];
    for _ in 0..100 {
        evs.push(EngineEvent::SampleReady);
        evs.push(EngineEvent::Progress("frame".to_string()));
    }
    let acts = w.drive(evs);
    assert_eq!(stops(&acts), 0);
    assert!(!w.is_finished());

    let mut sup = Supervisor::spawn(2);
    sup.finish_worker(0);
    assert!(!sup.all_joined());
    assert!(!sup.channel_closed());
}

#[test]
fn supervisor_joins_only_after_every_worker() {
    let mut sup = Supervisor::spawn(3);
    assert_eq!(sup.worker_count(), 3);
    assert!(!sup.all_joined());
    sup.finish_worker(2);
    sup.finish_worker(0);
    assert!(!sup.all_joined());
    sup.finish_worker(1);
    assert!(sup.all_joined());
    assert!(!sup.channel_closed());
    sup.release();
    assert!(sup.channel_closed());
}

#[test]
fn supervisor_with_no_sources_is_joined_at_once() {
    let mut sup = Supervisor::spawn(0);
    assert!(sup.all_joined());
    sup.release();
    assert!(sup.channel_closed());
}
