//! Persisted recording metadata and the project configuration written for
//! studio recordings: the platform tag, the optional sharing information,
//! the display name, the mode-specific payload, and the timeline derived
//! from the capture segments.

use vstd::prelude::*;
use vstd::string::StringExecFns;

verus! {

/// The platform tag stored in the persisted metadata.
#[derive(Clone, Copy, PartialEq, Eq, Structural, Debug)]
pub enum Platform {
    MacOS,
    Windows,
}

/// One capture segment of a studio recording, as the capture engine reports
/// it: where its display output lies relative to the project directory, and
/// how long it is.
pub struct SegmentMeta {
    pub display_path: String,
    pub duration_ms: u64,
}

/// Spec-level mirror of [`SegmentMeta`].
#[verifier::ext_equal]
pub struct SegmentModel {
    pub display_path: Seq<char>,
    pub duration_ms: u64,
}

impl View for SegmentMeta {
    type V = SegmentModel;

    open spec fn view(&self) -> SegmentModel {
        SegmentModel { display_path: self.display_path@, duration_ms: self.duration_ms }
    }
}

/// The layout of a studio recording's capture output: either a single
/// segment, or one or more segment groups.
pub enum StudioRecordingMeta {
    SingleSegment { segment: SegmentMeta },
    MultipleSegments { segments: Vec<SegmentMeta> },
}

/// Spec-level mirror of [`StudioRecordingMeta`].
#[verifier::ext_equal]
pub enum StudioMetaModel {
    SingleSegment { segment: SegmentModel },
    MultipleSegments { segments: Seq<SegmentModel> },
}

impl View for StudioRecordingMeta {
    type V = StudioMetaModel;

    open spec fn view(&self) -> StudioMetaModel {
        match self {
            StudioRecordingMeta::SingleSegment { segment } => StudioMetaModel::SingleSegment {
                segment: segment@,
            },
            StudioRecordingMeta::MultipleSegments { segments } => StudioMetaModel::MultipleSegments {
                segments: segments@.map_values(|s: SegmentMeta| s@),
            },
        }
    }
}

impl StudioMetaModel {
    /// A studio layout is well formed when a multi-segment recording has at
    /// least one segment: the first segment is the source of the
    /// representative screenshot.
    pub open spec fn wf(self) -> bool {
        match self {
            StudioMetaModel::SingleSegment { .. } => true,
            StudioMetaModel::MultipleSegments { segments } => segments.len() > 0,
        }
    }

    /// The segments of the recording as one sequence.
    pub open spec fn segments(self) -> Seq<SegmentModel> {
        match self {
            StudioMetaModel::SingleSegment { segment } => seq![segment],
            StudioMetaModel::MultipleSegments { segments } => segments,
        }
    }
}

impl StudioRecordingMeta {
    /// Exec view of [`StudioMetaModel::wf`].
    pub fn is_wf(&self) -> (r: bool)
        ensures
            r == self@.wf(),
    {
        match self {
            StudioRecordingMeta::SingleSegment { .. } => true,
            StudioRecordingMeta::MultipleSegments { segments } => segments.len() > 0,
        }
    }
}

impl SegmentMeta {
    /// A fresh copy of the segment description.
    pub fn duplicate(&self) -> (r: SegmentMeta)
        ensures
            r@ == self@,
    {
        SegmentMeta { display_path: self.display_path.clone(), duration_ms: self.duration_ms }
    }
}

impl StudioRecordingMeta {
    /// A fresh copy of the studio layout.
    pub fn duplicate(&self) -> (r: StudioRecordingMeta)
        ensures
            r@ == self@,
    {
        match self {
            StudioRecordingMeta::SingleSegment { segment } => StudioRecordingMeta::SingleSegment {
                segment: segment.duplicate(),
            },
            StudioRecordingMeta::MultipleSegments { segments } => {
                let mut copied: Vec<SegmentMeta> = Vec::new();
                let mut i: usize = 0;
                while i < segments.len()
                    invariant
                        i <= segments.len(),
                        copied@.len() == i,
                        forall|j: int| 0 <= j < i ==> (#[trigger] copied@[j])@ == segments@[j]@,
                    decreases segments.len() - i,
                {
                    copied.push(segments[i].duplicate());
                    i = i + 1;
                }
                let r = StudioRecordingMeta::MultipleSegments { segments: copied };
                proof {
                    assert(copied@.map_values(|s: SegmentMeta| s@) =~= segments@.map_values(
                        |s: SegmentMeta| s@,
                    ));
                    assert(r@ =~~= self@);
                }
                r
            },
        }
    }
}

/// The mode-specific payload of an instant recording: where the muxed output
/// file lies relative to the project directory.
pub struct InstantRecordingMeta {
    pub output_path: String,
}

/// Spec-level mirror of [`InstantRecordingMeta`].
#[verifier::ext_equal]
pub struct InstantMetaModel {
    pub output_path: Seq<char>,
}

impl View for InstantRecordingMeta {
    type V = InstantMetaModel;

    open spec fn view(&self) -> InstantMetaModel {
        InstantMetaModel { output_path: self.output_path@ }
    }
}

/// Sharing information persisted for an instantly-shared recording.
pub struct SharingMeta {
    pub link: String,
    pub id: String,
}

/// Spec-level mirror of [`SharingMeta`].
#[verifier::ext_equal]
pub struct SharingModel {
    pub link: Seq<char>,
    pub id: Seq<char>,
}

impl View for SharingMeta {
    type V = SharingModel;

    open spec fn view(&self) -> SharingModel {
        SharingModel { link: self.link@, id: self.id@ }
    }
}

/// The mode-specific inner payload of the persisted metadata.
pub enum RecordingMetaInner {
    Studio(StudioRecordingMeta),
    Instant(InstantRecordingMeta),
}

/// Spec-level mirror of [`RecordingMetaInner`].
#[verifier::ext_equal]
pub enum MetaInnerModel {
    Studio(StudioMetaModel),
    Instant(InstantMetaModel),
}

impl View for RecordingMetaInner {
    type V = MetaInnerModel;

    open spec fn view(&self) -> MetaInnerModel {
        match self {
            RecordingMetaInner::Studio(m) => MetaInnerModel::Studio(m@),
            RecordingMetaInner::Instant(m) => MetaInnerModel::Instant(m@),
        }
    }
}

/// The record persisted once per completed session.
pub struct RecordingMeta {
    pub platform: Platform,
    pub project_path: String,
    pub sharing: Option<SharingMeta>,
    pub pretty_name: String,
    pub inner: RecordingMetaInner,
}

/// Spec-level mirror of [`RecordingMeta`].
#[verifier::ext_equal]
pub struct MetaModel {
    pub platform: Platform,
    pub project_path: Seq<char>,
    pub sharing: Option<SharingModel>,
    pub pretty_name: Seq<char>,
    pub inner: MetaInnerModel,
}

impl View for RecordingMeta {
    type V = MetaModel;

    open spec fn view(&self) -> MetaModel {
        MetaModel {
            platform: self.platform,
            project_path: self.project_path@,
            sharing: match &self.sharing {
                Some(s) => Some(s@),
                None => None,
            },
            pretty_name: self.pretty_name@,
            inner: self.inner@,
        }
    }
}

impl RecordingMeta {
    /// A fresh copy of the persisted record.
    pub fn duplicate(&self) -> (r: RecordingMeta)
        ensures
            r@ == self@,
    {
        let sharing = match &self.sharing {
            Some(s) => Some(SharingMeta { link: s.link.clone(), id: s.id.clone() }),
            None => None,
        };
        let inner = match &self.inner {
            RecordingMetaInner::Studio(m) => RecordingMetaInner::Studio(m.duplicate()),
            RecordingMetaInner::Instant(m) => RecordingMetaInner::Instant(
                InstantRecordingMeta { output_path: m.output_path.clone() },
            ),
        };
        let r = RecordingMeta {
            platform: self.platform,
            project_path: self.project_path.clone(),
            sharing,
            pretty_name: self.pretty_name.clone(),
            inner,
        };
        proof {
            assert(r@ =~~= self@);
        }
        r
    }
}

/// One timeline entry of the project configuration. The recording is left
/// unscaled: `timescale` is a scaling factor of one.
#[derive(Clone, Copy, PartialEq, Eq, Structural, Debug)]
pub struct TimelineSegment {
    pub recording_segment: u32,
    pub start_ms: u64,
    pub end_ms: u64,
    pub timescale: u32,
}

/// A zoom window of the project timeline. The click-driven derivation that
/// once produced these is deliberately inert, so none is ever generated.
#[derive(Clone, Copy, PartialEq, Eq, Structural, Debug)]
pub struct ZoomSegment {
    pub start_ms: u64,
    pub end_ms: u64,
    pub amount: u32,
}

/// The timeline part of the project configuration.
pub struct TimelineConfiguration {
    pub segments: Vec<TimelineSegment>,
    pub zoom_segments: Vec<ZoomSegment>,
}

/// Spec-level mirror of [`TimelineConfiguration`].
#[verifier::ext_equal]
pub struct TimelineModel {
    pub segments: Seq<TimelineSegment>,
    pub zoom_segments: Seq<ZoomSegment>,
}

impl View for TimelineConfiguration {
    type V = TimelineModel;

    open spec fn view(&self) -> TimelineModel {
        TimelineModel { segments: self.segments@, zoom_segments: self.zoom_segments@ }
    }
}

/// The project configuration written to a studio recording's directory.
/// `preset` stands for the visual settings seeded from the user's default
/// preset; the library carries them through unchanged.
pub struct ProjectConfiguration {
    pub timeline: Option<TimelineConfiguration>,
    pub preset: Option<String>,
}

/// Spec-level mirror of [`ProjectConfiguration`].
#[verifier::ext_equal]
pub struct ConfigModel {
    pub timeline: Option<TimelineModel>,
    pub preset: Option<Seq<char>>,
}

impl View for ProjectConfiguration {
    type V = ConfigModel;

    open spec fn view(&self) -> ConfigModel {
        ConfigModel {
            timeline: match &self.timeline {
                Some(t) => Some(t@),
                None => None,
            },
            preset: match &self.preset {
                Some(p) => Some(p@),
                None => None,
            },
        }
    }
}

/// The timeline entries derived from the capture segments: one entry per
/// segment, starting at zero, running for the segment's full duration,
/// unscaled.
pub open spec fn timeline_segments_spec(segments: Seq<SegmentModel>) -> Seq<TimelineSegment> {
    Seq::new(
        segments.len(),
        |i: int| TimelineSegment {
            recording_segment: i as u32,
            start_ms: 0,
            end_ms: segments[i].duration_ms,
            timescale: 1,
        },
    )
}

/// The project configuration derived from a completed studio recording: the
/// computed timeline over the preset the user had, if any.
pub open spec fn config_from_recording_spec(
    segments: Seq<SegmentModel>,
    default_config: Option<ConfigModel>,
) -> ConfigModel {
    ConfigModel {
        timeline: Some(
            TimelineModel {
                segments: timeline_segments_spec(segments),
                zoom_segments: Seq::empty(),
            },
        ),
        preset: match default_config {
            Some(c) => c.preset,
            None => None,
        },
    }
}

/// The zoom segments derived from click events. The click-driven heuristic
/// is deliberately inert: no zoom segment is ever generated, whatever the
/// recording looks like.
pub fn generate_zoom_segments_from_clicks(segments: &Vec<SegmentMeta>) -> (r: Vec<ZoomSegment>)
    ensures
        r@ == Seq::<ZoomSegment>::empty(),
{
    let _ = segments;
    Vec::new()
}

/// Builds the project configuration for a completed studio recording: one
/// full-duration unscaled timeline entry per capture segment, no zoom
/// segments, every other setting taken from the default preset when one
/// exists.
pub fn project_config_from_recording(
    segments: &Vec<SegmentMeta>,
    default_config: Option<ProjectConfiguration>,
) -> (r: ProjectConfiguration)
    requires
        segments@.len() <= u32::MAX,
    ensures
        r@ == config_from_recording_spec(
            segments@.map_values(|s: SegmentMeta| s@),
            match default_config {
                Some(c) => Some(c@),
                None => None,
            },
        ),
{
    let ghost segs_model = segments@.map_values(|s: SegmentMeta| s@);
    let mut timeline_segments: Vec<TimelineSegment> = Vec::new();
    let mut i: usize = 0;
    while i < segments.len()
        invariant
            i <= segments.len(),
            segments@.len() <= u32::MAX,
            segs_model == segments@.map_values(|s: SegmentMeta| s@),
            timeline_segments@ == timeline_segments_spec(segs_model).take(i as int),
        decreases segments.len() - i,
    {
        let entry = TimelineSegment {
            recording_segment: i as u32,
            start_ms: 0,
            end_ms: segments[i].duration_ms,
            timescale: 1,
        };
        timeline_segments.push(entry);
        proof {
            assert(timeline_segments@ =~= timeline_segments_spec(segs_model).take(i + 1));
        }
        i = i + 1;
    }
    proof {
        assert(timeline_segments@ =~= timeline_segments_spec(segs_model));
    }
    let zoom_segments = generate_zoom_segments_from_clicks(segments);
    let preset = match default_config {
        Some(c) => c.preset,
        None => None,
    };
    let r = ProjectConfiguration {
        timeline: Some(TimelineConfiguration { segments: timeline_segments, zoom_segments }),
        preset,
    };
    proof {
        assert(r@ =~~= config_from_recording_spec(
            segs_model,
            match default_config {
                Some(c) => Some(c@),
                None => None,
            },
        ));
    }
    r
}

/// The display name of a completed recording: the target name, a space, and
/// the local timestamp of the moment it finished.
pub open spec fn pretty_name_spec(target_name: Seq<char>, timestamp: Seq<char>) -> Seq<char> {
    target_name + " "@ + timestamp
}

/// Builds the display name from the target name and a timestamp.
pub fn pretty_name_for(target_name: &String, timestamp: &String) -> (r: String)
    ensures
        r@ == pretty_name_spec(target_name@, timestamp@),
{
    target_name.clone().concat(" ").concat(timestamp.as_str())
}

} // verus!
