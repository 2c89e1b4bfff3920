//! The audio clip merge engine: from timed clips to one continuous track.
//!
//! This module decides what has to be done and writes the transcode tool's
//! command line; running the tool is the caller's part.

use vstd::prelude::*;
use crate::error::{InvalidInput, SegmentationError, SegmentationErrorView, TranscodeStep};
use crate::text::{
    append_str, copy_str, decimal, join, join_chars, opt_view, push_chars_item, push_decimal,
    push_seconds, push_str_item, seconds_text, string_from_chars, strings_view, texts_of,
};
use crate::types::SegmentationAudioClip;

verus! {

/// A clip as the contracts see it.
pub struct ClipView {
    pub path: Seq<char>,
    pub start_ms: int,
    pub end_ms: int,
}

impl View for SegmentationAudioClip {
    type V = ClipView;

    open spec fn view(&self) -> ClipView {
        ClipView { path: self.path@, start_ms: self.start_ms as int, end_ms: self.end_ms as int }
    }
}

/// A clip whose bounds are clamped: `0 <= start_ms < end_ms`.
#[derive(Debug, Clone, PartialEq, Eq)]
pub struct NormalizedClip {
    pub path: String,
    pub start_ms: i64,
    pub end_ms: i64,
}

impl View for NormalizedClip {
    type V = ClipView;

    open spec fn view(&self) -> ClipView {
        ClipView { path: self.path@, start_ms: self.start_ms as int, end_ms: self.end_ms as int }
    }
}

/// The views of a list of clips.
pub open spec fn clip_views(clips: Seq<SegmentationAudioClip>) -> Seq<ClipView> {
    Seq::new(clips.len(), |i: int| clips[i]@)
}

/// The views of a list of normalized clips.
pub open spec fn normalized_views(clips: Seq<NormalizedClip>) -> Seq<ClipView> {
    Seq::new(clips.len(), |i: int| clips[i]@)
}

/// A start offset clamped to the timeline's origin.
pub open spec fn clamped_start(c: ClipView) -> int {
    if c.start_ms < 0 {
        0
    } else {
        c.start_ms
    }
}

/// An end offset clamped so that it does not precede the clamped start.
pub open spec fn clamped_end(c: ClipView) -> int {
    if c.end_ms < clamped_start(c) {
        clamped_start(c)
    } else {
        c.end_ms
    }
}

/// Whether a clip still has a duration once its bounds are clamped.
pub open spec fn has_duration(c: ClipView) -> bool {
    clamped_end(c) > clamped_start(c)
}

/// A clip with its bounds clamped.
pub open spec fn clamp(c: ClipView) -> ClipView {
    ClipView { path: c.path, start_ms: clamped_start(c), end_ms: clamped_end(c) }
}

/// The clips that have a duration, in order, with clamped bounds.
pub open spec fn normalized(clips: Seq<ClipView>) -> Seq<ClipView>
    decreases clips.len(),
{
    if clips.len() == 0 {
        Seq::empty()
    } else if has_duration(clips.last()) {
        normalized(clips.drop_last()).push(clamp(clips.last()))
    } else {
        normalized(clips.drop_last())
    }
}

/// The greatest end offset among `clips`; zero for no clips.
pub open spec fn total_end(clips: Seq<ClipView>) -> int
    decreases clips.len(),
{
    if clips.len() == 0 {
        0
    } else if clips.last().end_ms > total_end(clips.drop_last()) {
        clips.last().end_ms
    } else {
        total_end(clips.drop_last())
    }
}

/// Whether a list of clips obeys the bounds of normalized clips.
pub open spec fn well_formed(clips: Seq<ClipView>) -> bool {
    forall|i: int| 0 <= i < clips.len() ==> 0 <= (#[trigger] clips[i]).start_ms < clips[i].end_ms
}

/// Normalized clips obey their bounds.
pub proof fn lemma_normalized_well_formed(clips: Seq<ClipView>)
    ensures
        well_formed(normalized(clips)),
        normalized(clips).len() <= clips.len(),
    decreases clips.len(),
{
    if clips.len() > 0 {
        lemma_normalized_well_formed(clips.drop_last());
    }
}

/// The merged track ends where the last clip ends: no clip ends after
/// `total_end`, and some clip ends exactly there.
pub proof fn lemma_total_end_is_max(clips: Seq<ClipView>)
    requires
        well_formed(clips),
    ensures
        forall|i: int| 0 <= i < clips.len() ==> (#[trigger] clips[i]).end_ms <= total_end(clips),
        clips.len() > 0 ==> exists|i: int|
            0 <= i < clips.len() && (#[trigger] clips[i]).end_ms == total_end(clips),
        clips.len() == 0 ==> total_end(clips) == 0,
    decreases clips.len(),
{
    if clips.len() > 0 {
        let rest = clips.drop_last();
        assert forall|i: int| 0 <= i < rest.len() implies 0 <= (#[trigger] rest[i]).start_ms
            < rest[i].end_ms by {
            assert(rest[i] == clips[i]);
        }
        lemma_total_end_is_max(rest);
        assert forall|i: int| 0 <= i < clips.len() implies (#[trigger] clips[i]).end_ms
            <= total_end(clips) by {
            if i < rest.len() {
                assert(rest[i] == clips[i]);
            }
        }
        if clips.last().end_ms > total_end(rest) {
            assert(clips[clips.len() - 1].end_ms == total_end(clips));
        } else if rest.len() > 0 {
            let i = choose|i: int| 0 <= i < rest.len() && (#[trigger] rest[i]).end_ms == total_end(
                rest,
            );
            assert(clips[i] == rest[i]);
        } else {
            assert(clips[0].end_ms == total_end(clips));
        }
    }
}

/// The clips of `clips` that have a duration, with clamped bounds.
pub fn normalize_clips(clips: &Vec<SegmentationAudioClip>) -> (r: Vec<NormalizedClip>)
    ensures
        normalized_views(r@) == normalized(clip_views(clips@)),
{
    let mut r: Vec<NormalizedClip> = Vec::new();
    let mut i: usize = 0;
    while i < clips.len()
        invariant
            i <= clips.len(),
            normalized_views(r@) == normalized(clip_views(clips@.subrange(0, i as int))),
        decreases clips.len() - i,
    {
        let clip = &clips[i];
        let start_ms: i64 = if clip.start_ms < 0 {
            0
        } else {
            clip.start_ms
        };
        let end_ms: i64 = if clip.end_ms < start_ms {
            start_ms
        } else {
            clip.end_ms
        };
        proof {
            let before = clip_views(clips@.subrange(0, i as int));
            let now = clip_views(clips@.subrange(0, i + 1));
            assert(now.drop_last() == before);
        }
        if end_ms != start_ms {
            r.push(NormalizedClip { path: clip.path.clone(), start_ms, end_ms });
        }
        i += 1;
    }
    assert(clips@.subrange(0, clips.len() as int) == clips@);
    r
}

/// What a merge request comes to.
#[derive(Debug, PartialEq, Eq)]
pub enum MergeDecision {
    /// One clip is left and it starts at the origin: its own file is the track.
    Passthrough { path: String },
    /// The clips have to be mixed by the transcode tool.
    Merge(MergePlan),
}

/// The clips to mix and where the mixed track ends. A plan holds at least one
/// clip, each with `0 <= start < end`, and ends where the last of them ends.
#[derive(Debug, PartialEq, Eq)]
pub struct MergePlan {
    clips: Vec<NormalizedClip>,
    total_end_ms: i64,
}

/// A merge plan as the contracts see it.
pub struct MergePlanView {
    pub clips: Seq<ClipView>,
    pub total_end_ms: int,
}

/// A merge decision as the contracts see it.
pub enum MergeDecisionView {
    Passthrough { path: Seq<char> },
    Merge(MergePlanView),
}

impl View for MergePlan {
    type V = MergePlanView;

    closed spec fn view(&self) -> MergePlanView {
        MergePlanView {
            clips: normalized_views(self.clips@),
            total_end_ms: self.total_end_ms as int,
        }
    }
}

impl View for MergeDecision {
    type V = MergeDecisionView;

    open spec fn view(&self) -> MergeDecisionView {
        match self {
            MergeDecision::Passthrough { path } => MergeDecisionView::Passthrough { path: path@ },
            MergeDecision::Merge(plan) => MergeDecisionView::Merge(plan@),
        }
    }
}

/// Whether one clip is left and it starts at the origin.
pub open spec fn is_passthrough(norm: Seq<ClipView>) -> bool {
    norm.len() == 1 && norm[0].start_ms == 0
}

impl MergePlan {
    #[verifier::type_invariant]
    spec fn wf(&self) -> bool {
        &&& self.clips@.len() > 0
        &&& well_formed(normalized_views(self.clips@))
        &&& self.total_end_ms as int == total_end(normalized_views(self.clips@))
    }

    /// The clips to mix, in order.
    pub fn clips(&self) -> (r: &Vec<NormalizedClip>)
        ensures
            normalized_views(r@) == self@.clips,
            r@.len() > 0,
            well_formed(self@.clips),
    {
        proof {
            use_type_invariant(self);
        }
        &self.clips
    }

    /// Where the merged track ends: at the greatest end offset of its clips.
    pub fn total_end_ms(&self) -> (r: i64)
        ensures
            r as int == self@.total_end_ms,
            r as int == total_end(self@.clips),
    {
        proof {
            use_type_invariant(self);
        }
        self.total_end_ms
    }
}

/// The greatest end offset among the clips.
pub fn latest_end(clips: &Vec<NormalizedClip>) -> (r: i64)
    ensures
        r as int == total_end(normalized_views(clips@)),
{
    let mut r: i64 = 0;
    let mut i: usize = 0;
    while i < clips.len()
        invariant
            i <= clips.len(),
            r as int == total_end(normalized_views(clips@.subrange(0, i as int))),
        decreases clips.len() - i,
    {
        proof {
            let before = normalized_views(clips@.subrange(0, i as int));
            let now = normalized_views(clips@.subrange(0, i + 1));
            assert(now.drop_last() == before);
        }
        if clips[i].end_ms > r {
            r = clips[i].end_ms;
        }
        i += 1;
    }
    assert(clips@.subrange(0, clips.len() as int) == clips@);
    r
}

/// What merging `clips` comes to.
///
/// Clips are clamped to `start >= 0` and `end >= start`, and those left without
/// a duration are dropped. With no clip at all, or none left, the request is
/// invalid. One clip left that starts at the origin is passed through. Anything
/// else is a merge that ends at the greatest end offset.
pub open spec fn merge_decision(clips: Seq<ClipView>) -> Result<
    MergeDecisionView,
    SegmentationErrorView,
> {
    if clips.len() == 0 {
        Err(SegmentationErrorView::InvalidInput(InvalidInput::NoClips))
    } else if normalized(clips).len() == 0 {
        Err(SegmentationErrorView::InvalidInput(InvalidInput::NoValidClips))
    } else if is_passthrough(normalized(clips)) {
        Ok(MergeDecisionView::Passthrough { path: normalized(clips)[0].path })
    } else {
        Ok(
            MergeDecisionView::Merge(
                MergePlanView {
                    clips: normalized(clips),
                    total_end_ms: total_end(normalized(clips)),
                },
            ),
        )
    }
}

/// The view of a decision or its failure.
pub open spec fn decision_view(r: Result<MergeDecision, SegmentationError>) -> Result<
    MergeDecisionView,
    SegmentationErrorView,
> {
    match r {
        Ok(d) => Ok(d@),
        Err(e) => Err(e@),
    }
}

/// Decides what merging `clips` comes to.
pub fn merge_audio_clips_for_segmentation(clips: &Vec<SegmentationAudioClip>) -> (r: Result<
    MergeDecision,
    SegmentationError,
>)
    ensures
        decision_view(r) == merge_decision(clip_views(clips@)),
{
    if clips.len() == 0 {
        return Err(SegmentationError::InvalidInput(InvalidInput::NoClips));
    }
    let mut kept = normalize_clips(clips);
    proof {
        lemma_normalized_well_formed(clip_views(clips@));
    }
    if kept.len() == 0 {
        return Err(SegmentationError::InvalidInput(InvalidInput::NoValidClips));
    }
    if kept.len() == 1 && kept[0].start_ms == 0 {
        let only = kept.remove(0);
        return Ok(MergeDecision::Passthrough { path: only.path });
    }
    let total_end_ms = latest_end(&kept);
    Ok(MergeDecision::Merge(MergePlan { clips: kept, total_end_ms }))
}

/// Whether a request's clips call for the merge engine: more than one clip, or
/// one clip that does not start at the origin.
pub open spec fn needs_merge(clips: Seq<ClipView>) -> bool {
    clips.len() > 1 || (clips.len() == 1 && clips[0].start_ms > 0)
}

/// A single clip that starts at the origin never reaches the merge engine.
pub proof fn lemma_single_clip_at_origin_skips_merge(clip: ClipView)
    requires
        clip.start_ms == 0,
    ensures
        !needs_merge(seq![clip]),
{
}

/// Several clips, or one clip that starts after the origin, always reach the
/// merge engine.
pub proof fn lemma_other_clips_reach_merge(clips: Seq<ClipView>)
    requires
        clips.len() >= 2 || (clips.len() == 1 && clips[0].start_ms > 0),
    ensures
        needs_merge(clips),
{
}

/// The audio that a request with these sources is segmented from.
///
/// A non-empty clip list wins over a path. Several clips, or one clip that
/// starts after the origin, go to the merge engine; a single clip at the origin
/// is used as it is. Without clips the path is used, and a request with
/// neither is invalid.
pub open spec fn prepared_audio(audio_path: Option<Seq<char>>, clips: Seq<ClipView>) -> Result<
    MergeDecisionView,
    SegmentationErrorView,
> {
    if clips.len() > 0 {
        if needs_merge(clips) {
            merge_decision(clips)
        } else {
            Ok(MergeDecisionView::Passthrough { path: clips[0].path })
        }
    } else {
        match audio_path {
            Some(path) => Ok(MergeDecisionView::Passthrough { path }),
            None => Err(SegmentationErrorView::InvalidInput(InvalidInput::MissingAudioSource)),
        }
    }
}

/// The clips of a request, as the contracts see them.
pub open spec fn request_clips(audio_clips: Option<&Vec<SegmentationAudioClip>>) -> Seq<ClipView> {
    match audio_clips {
        Some(clips) => clip_views(clips@),
        None => Seq::empty(),
    }
}

/// The clips of a request, none standing for an empty list.
pub open spec fn clips_of(audio_clips: Option<Vec<SegmentationAudioClip>>) -> Seq<ClipView> {
    match audio_clips {
        Some(clips) => clip_views(clips@),
        None => Seq::empty(),
    }
}

/// Chooses the audio that a request is segmented from.
pub fn prepare_audio(
    audio_path: Option<&str>,
    audio_clips: Option<&Vec<SegmentationAudioClip>>,
) -> (r: Result<MergeDecision, SegmentationError>)
    ensures
        decision_view(r) == prepared_audio(opt_view(audio_path), request_clips(audio_clips)),
{
    match audio_clips {
        Some(clips) => {
            if clips.len() > 0 {
                if clips.len() > 1 || clips[0].start_ms > 0 {
                    return merge_audio_clips_for_segmentation(clips);
                }
                return Ok(MergeDecision::Passthrough { path: clips[0].path.clone() });
            }
        },
        None => {},
    }
    match audio_path {
        Some(p) => Ok(MergeDecision::Passthrough { path: copy_str(p) }),
        None => Err(SegmentationError::InvalidInput(InvalidInput::MissingAudioSource)),
    }
}

/// The filter that places clip number `idx` on the timeline: cut to the clip's
/// duration, restart its timestamps, then delay both channels by its start.
pub open spec fn clip_filter(idx: nat, c: ClipView) -> Seq<char> {
    "["@ + decimal(idx) + ":a]atrim=start=0:end="@ + seconds_text(c.end_ms - c.start_ms)
        + ",asetpts=PTS-STARTPTS,adelay="@ + decimal(c.start_ms as nat) + "|"@ + decimal(
        c.start_ms as nat,
    ) + "[a"@ + decimal(idx) + "]"@
}

/// The labels of the first `n` placed clips, in order.
pub open spec fn mix_inputs(n: nat) -> Seq<char>
    decreases n,
{
    if n == 0 {
        Seq::empty()
    } else {
        mix_inputs((n - 1) as nat) + "[a"@ + decimal((n - 1) as nat) + "]"@
    }
}

/// The filter that mixes `n` placed clips and cuts the result at `total_ms`.
pub open spec fn mix_filter(n: nat, total_ms: int) -> Seq<char> {
    mix_inputs(n) + "amix=inputs="@ + decimal(n)
        + ":duration=longest:dropout_transition=0,atrim=end="@ + seconds_text(total_ms)
        + ",asetpts=PTS-STARTPTS[mix]"@
}

/// The filters of the first `n` clips.
pub open spec fn clip_filters(clips: Seq<ClipView>, n: nat) -> Seq<Seq<char>> {
    Seq::new(n, |i: int| clip_filter(i as nat, clips[i]))
}

/// The whole filter graph: one filter per clip, then the mix, joined by `;`.
pub open spec fn filter_graph(clips: Seq<ClipView>) -> Seq<char> {
    join(clip_filters(clips, clips.len()).push(mix_filter(clips.len(), total_end(clips))), ";"@)
}

/// The `-i` arguments of the clips, in order.
pub open spec fn input_args(clips: Seq<ClipView>) -> Seq<Seq<char>>
    decreases clips.len(),
{
    if clips.len() == 0 {
        Seq::empty()
    } else {
        input_args(clips.drop_last()).push("-i"@).push(clips.last().path)
    }
}

/// The transcode tool's arguments for a merge into `output`: the inputs, the
/// filter graph, one channel of 16-bit PCM, and a hard stop at the track's end.
pub open spec fn merge_args(clips: Seq<ClipView>, output: Seq<char>) -> Seq<Seq<char>> {
    seq!["-y"@, "-hide_banner"@, "-loglevel"@, "error"@] + input_args(clips) + seq![
        "-filter_complex"@,
        filter_graph(clips),
        "-map"@,
        "[mix]"@,
        "-ac"@,
        "1"@,
        "-c:a"@,
        "pcm_s16le"@,
        "-t"@,
        seconds_text(total_end(clips)),
        output,
    ]
}

/// The text of the filter for clip number `idx`.
fn clip_filter_text(idx: usize, clip: &NormalizedClip) -> (r: Vec<char>)
    requires
        0 <= clip.start_ms < clip.end_ms,
    ensures
        r@ == clip_filter(idx as nat, clip@),
{
    let mut out: Vec<char> = Vec::new();
    append_str(&mut out, "[");
    push_decimal(&mut out, idx as u64);
    append_str(&mut out, ":a]atrim=start=0:end=");
    push_seconds(&mut out, (clip.end_ms - clip.start_ms) as u64);
    append_str(&mut out, ",asetpts=PTS-STARTPTS,adelay=");
    push_decimal(&mut out, clip.start_ms as u64);
    append_str(&mut out, "|");
    push_decimal(&mut out, clip.start_ms as u64);
    append_str(&mut out, "[a");
    push_decimal(&mut out, idx as u64);
    append_str(&mut out, "]");
    out
}

/// The text of the mix filter for `n` clips ending at `total_ms`.
fn mix_filter_text(n: usize, total_ms: i64) -> (r: Vec<char>)
    requires
        0 <= total_ms,
    ensures
        r@ == mix_filter(n as nat, total_ms as int),
{
    let mut out: Vec<char> = Vec::new();
    let mut i: usize = 0;
    while i < n
        invariant
            i <= n,
            out@ == mix_inputs(i as nat),
        decreases n - i,
    {
        append_str(&mut out, "[a");
        push_decimal(&mut out, i as u64);
        append_str(&mut out, "]");
        i += 1;
    }
    append_str(&mut out, "amix=inputs=");
    push_decimal(&mut out, n as u64);
    append_str(&mut out, ":duration=longest:dropout_transition=0,atrim=end=");
    push_seconds(&mut out, total_ms as u64);
    append_str(&mut out, ",asetpts=PTS-STARTPTS[mix]");
    out
}

impl MergePlan {
    /// The filter graph that places every clip and mixes them.
    pub fn filter_complex(&self) -> (r: String)
        ensures
            r@ == filter_graph(self@.clips),
    {
        proof {
            use_type_invariant(self);
        }
        let ghost views = normalized_views(self.clips@);
        let mut parts: Vec<Vec<char>> = Vec::new();
        let mut i: usize = 0;
        while i < self.clips.len()
            invariant
                i <= self.clips.len(),
                views == normalized_views(self.clips@),
                well_formed(views),
                texts_of(parts@) == clip_filters(views, i as nat),
            decreases self.clips.len() - i,
        {
            assert(views[i as int] == self.clips@[i as int]@);
            let part = clip_filter_text(i, &self.clips[i]);
            let ghost before = texts_of(parts@);
            let ghost added = part@;
            parts.push(part);
            assert(texts_of(parts@) == before.push(added));
            i += 1;
        }
        proof {
            lemma_total_end_is_max(views);
        }
        let mix = mix_filter_text(self.clips.len(), self.total_end_ms);
        parts.push(mix);
        assert(texts_of(parts@) == clip_filters(views, views.len()).push(
            mix_filter(views.len(), total_end(views)),
        ));
        let mut sep: Vec<char> = Vec::new();
        append_str(&mut sep, ";");
        let joined = join_chars(&parts, &sep);
        string_from_chars(&joined)
    }

    /// The transcode tool's arguments for writing the merged track to `output`.
    pub fn ffmpeg_args(&self, output: &str) -> (r: Vec<String>)
        ensures
            strings_view(r@) == merge_args(self@.clips, output@),
    {
        proof {
            use_type_invariant(self);
        }
        let ghost views = normalized_views(self.clips@);
        let mut args: Vec<String> = Vec::new();
        push_str_item(&mut args, "-y");
        push_str_item(&mut args, "-hide_banner");
        push_str_item(&mut args, "-loglevel");
        push_str_item(&mut args, "error");
        let ghost head = strings_view(args@);
        let mut i: usize = 0;
        while i < self.clips.len()
            invariant
                i <= self.clips.len(),
                views == normalized_views(self.clips@),
                strings_view(args@) == head + input_args(views.subrange(0, i as int)),
            decreases self.clips.len() - i,
        {
            proof {
                assert(views.subrange(0, i + 1).drop_last() == views.subrange(0, i as int));
            }
            push_str_item(&mut args, "-i");
            push_str_item(&mut args, self.clips[i].path.as_str());
            i += 1;
        }
        assert(views.subrange(0, views.len() as int) == views);
        proof {
            lemma_total_end_is_max(views);
        }
        let filter = self.filter_complex();
        let mut total: Vec<char> = Vec::new();
        push_seconds(&mut total, self.total_end_ms as u64);
        push_str_item(&mut args, "-filter_complex");
        push_str_item(&mut args, filter.as_str());
        push_str_item(&mut args, "-map");
        push_str_item(&mut args, "[mix]");
        push_str_item(&mut args, "-ac");
        push_str_item(&mut args, "1");
        push_str_item(&mut args, "-c:a");
        push_str_item(&mut args, "pcm_s16le");
        push_str_item(&mut args, "-t");
        push_chars_item(&mut args, &total);
        push_str_item(&mut args, output);
        args
    }
}

/// What a finished run of the transcode tool comes to: its diagnostic text,
/// unchanged, is the failure when it did not succeed.
pub fn transcode_result(step: TranscodeStep, success: bool, stderr: &str) -> (r: Result<
    (),
    SegmentationError,
>)
    ensures
        success ==> r is Ok,
        !success ==> (r matches Err(e) && e@ == SegmentationErrorView::TranscodeFailed {
            step,
            diagnostic: stderr@,
        }),
{
    if success {
        Ok(())
    } else {
        Err(SegmentationError::TranscodeFailed { step, diagnostic: copy_str(stderr) })
    }
}

/// The name of the temporary file that a merge started at `stamp` writes to.
pub fn merged_file_name(stamp: u64) -> (r: String)
    ensures
        r@ == "qurancaption-seg-merged-"@ + decimal(stamp as nat) + ".wav"@,
{
    let mut out: Vec<char> = Vec::new();
    append_str(&mut out, "qurancaption-seg-merged-");
    push_decimal(&mut out, stamp);
    append_str(&mut out, ".wav");
    string_from_chars(&out)
}


/// The audio that the transcode tool reads.
#[derive(Debug, PartialEq, Eq)]
pub enum AudioInput {
    /// A file of the request.
    File { path: String },
    /// The track that the merge has just written.
    Merged,
}

/// An input as the contracts see it.
pub enum AudioInputView {
    File { path: Seq<char> },
    Merged,
}

impl View for AudioInput {
    type V = AudioInputView;

    open spec fn view(&self) -> AudioInputView {
        match self {
            AudioInput::File { path } => AudioInputView::File { path: path@ },
            AudioInput::Merged => AudioInputView::Merged,
        }
    }
}

} // verus!
