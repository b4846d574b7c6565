use recording_session::meta::{
    generate_zoom_segments_from_clicks, project_config_from_recording, ProjectConfiguration,
    SegmentMeta, StudioRecordingMeta, TimelineConfiguration, TimelineSegment, ZoomSegment,
};
use recording_session::session::{CompletedRecording, ProgressiveUpload};
use recording_session::upload::{
    instant_upload_followup, upload_followup_plan, ProgressiveStatus, UploadFollowup,
};

fn segment(path: &str, duration_ms: u64) -> SegmentMeta {
    SegmentMeta { display_path: path.to_string(), duration_ms }
}

fn completed_instant(progressive: bool) -> CompletedRecording {
    CompletedRecording::Instant {
        id: "rec-1".to_string(),
        project_path: "rec-1.cap".to_string(),
        target_name: "Screen".to_string(),
        progressive_upload: if progressive {
            Some(ProgressiveUpload { output_path: "rec-1.cap/content/output.mp4".to_string() })
        } else {
            None
        },
        video_upload_info: None,
    }
}

#[test]
fn timeline_has_one_full_length_unscaled_entry_per_segment() {
    let segments = vec![segment("a.mp4", 4000), segment("b.mp4", 2500)];
    let config = project_config_from_recording(&segments, None);
    let timeline = config.timeline.unwrap();
    assert_eq!(
        timeline.segments,
        vec![
            TimelineSegment { recording_segment: 0, start_ms: 0, end_ms: 4000, timescale: 1 },
            TimelineSegment { recording_segment: 1, start_ms: 0, end_ms: 2500, timescale: 1 },
        ]
    );
    assert!(timeline.zoom_segments.is_empty());
    assert!(config.preset.is_none());
}

#[test]
fn default_preset_is_carried_through() {
    let segments = vec![segment("a.mp4", 1000)];
    let default_config = ProjectConfiguration {
        timeline: Some(TimelineConfiguration {
            segments: vec![TimelineSegment {
                recording_segment: 9,
                start_ms: 9,
                end_ms: 9,
                timescale: 9,
            }],
            zoom_segments: vec![ZoomSegment { start_ms: 1, end_ms: 2, amount: 2 }],
        }),
        preset: Some("dark-background".to_string()),
    };
    let config = project_config_from_recording(&segments, Some(default_config));
    assert_eq!(config.preset.unwrap(), "dark-background");
    let timeline = config.timeline.unwrap();
    assert_eq!(timeline.segments.len(), 1);
    assert_eq!(timeline.segments[0].end_ms, 1000);
    assert!(timeline.zoom_segments.is_empty());
}

#[test]
fn zoom_segment_generation_is_inert() {
    let segments = vec![segment("a.mp4", 60000), segment("b.mp4", 30000)];
    assert!(generate_zoom_segments_from_clicks(&segments).is_empty());
    assert!(generate_zoom_segments_from_clicks(&Vec::new()).is_empty());
}

#[test]
fn progressive_success_attaches_screenshot_only() {
    assert_eq!(
        upload_followup_plan(ProgressiveStatus::Succeeded),
        UploadFollowup::AttachScreenshot
    );
    let completed = completed_instant(true);
    let followup = instant_upload_followup(&completed, Some(Ok(())));
    assert_eq!(followup, UploadFollowup::AttachScreenshot);
}

#[test]
fn progressive_failure_falls_back_to_full_upload() {
    assert_eq!(upload_followup_plan(ProgressiveStatus::Failed), UploadFollowup::FullUpload);
    let completed = completed_instant(true);
    let followup = instant_upload_followup(&completed, Some(Err("stream reset".to_string())));
    assert_eq!(followup, UploadFollowup::FullUpload);
}

#[test]
fn never_started_progressive_falls_back_to_full_upload() {
    assert_eq!(upload_followup_plan(ProgressiveStatus::NotStarted), UploadFollowup::FullUpload);
    let completed = completed_instant(false);
    let followup = instant_upload_followup(&completed, None);
    assert_eq!(followup, UploadFollowup::FullUpload);
}

#[test]
fn completed_recording_accessors_reach_the_session_identity() {
    let completed = CompletedRecording::Studio {
        id: "rec-2".to_string(),
        project_path: "rec-2.cap".to_string(),
        target_name: "Browser".to_string(),
        meta: StudioRecordingMeta::SingleSegment { segment: segment("display.mp4", 700) },
    };
    assert_eq!(completed.id(), "rec-2");
    assert_eq!(completed.project_path(), "rec-2.cap");
    assert_eq!(completed.target_name(), "Browser");
}

#[test]
fn studio_meta_well_formedness_requires_a_segment() {
    let empty = StudioRecordingMeta::MultipleSegments { segments: Vec::new() };
    assert!(!empty.is_wf());
    let one = StudioRecordingMeta::MultipleSegments { segments: vec![segment("a.mp4", 10)] };
    assert!(one.is_wf());
    let single = StudioRecordingMeta::SingleSegment { segment: segment("a.mp4", 10) };
    assert!(single.is_wf());
}
