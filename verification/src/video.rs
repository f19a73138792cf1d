//! Video assembly planning.
//!
//! The transcoder that turns each slide's image and audio into a clip, and
//! that concatenates the clips, is an external process run by the caller.
//! What is verified here is everything that can be computed about that run:
//! the per-clip input and output paths, the concatenation list (one
//! `file '...'` line per slide, in slide order, joined with newlines — the
//! transcoder plays the entries in list order, so list order is narration
//! order), and where the list and the final video go.

use vstd::prelude::*;

use crate::Slide;
use crate::paths::audio_path;
use crate::paths::image_path;
use crate::paths::spec_audio_path;
use crate::paths::spec_dec;
use crate::paths::spec_image_path;
use crate::paths::spec_video_path;
use crate::paths::u64_to_dec;
use crate::paths::video_path;

verus! {

/// The views of a sequence of strings.
pub open spec fn spec_views(lines: Seq<String>) -> Seq<Seq<char>> {
    lines.map_values(|s: String| s@)
}

/// The concatenation-list line for a slide: the clip's path relative to the
/// working directory, in the transcoder's concat format.
pub open spec fn spec_line(idx: u64) -> Seq<char> {
    "file 'video/"@ + spec_dec(idx as nat) + ".mp4'"@
}

/// The lines for a sequence of slides, in slide order.
pub open spec fn spec_lines(slides: Seq<Slide>) -> Seq<Seq<char>> {
    slides.map_values(|s: Slide| spec_line(s.idx))
}

/// The lines joined with newlines.
pub open spec fn spec_join_lines(ls: Seq<Seq<char>>) -> Seq<char>
    decreases ls.len(),
{
    if ls.len() == 0 {
        Seq::empty()
    } else if ls.len() == 1 {
        ls[0]
    } else {
        ls[0] + "\n"@ + spec_join_lines(ls.drop_first())
    }
}

/// The whole concatenation list for a batch: one line per slide, in slide
/// order, joined with newlines.
pub open spec fn spec_concat_list(slides: Seq<Slide>) -> Seq<char> {
    spec_join_lines(spec_lines(slides))
}

/// The concatenation-list line for one slide.
fn line_for(slide: &Slide) -> (r: String)
    ensures
        r@ == spec_line(slide.idx),
{
    let mut s = String::from_str("file 'video/");
    let dec = u64_to_dec(slide.idx);
    s.append(dec.as_str());
    s.append(".mp4'");
    proof {
        assert(s@ =~= spec_line(slide.idx));
    }
    s
}

proof fn lemma_join_lines_push(ls: Seq<Seq<char>>, x: Seq<char>)
    requires
        ls.len() > 0,
    ensures
        spec_join_lines(ls.push(x)) == spec_join_lines(ls) + "\n"@ + x,
    decreases ls.len(),
{
    if ls.len() == 1 {
        assert(ls.push(x)[0] == ls[0]);
        assert(ls.push(x).drop_first() =~= seq![x]);
        assert(spec_join_lines(seq![x]) == x);
        assert(spec_join_lines(ls.push(x)) =~= spec_join_lines(ls) + "\n"@ + x);
    } else {
        assert(ls.push(x).drop_first() =~= ls.drop_first().push(x));
        lemma_join_lines_push(ls.drop_first(), x);
        assert(spec_join_lines(ls.push(x)) == ls[0] + "\n"@ + spec_join_lines(
            ls.drop_first().push(x)));
        assert(spec_join_lines(ls.push(x)) =~= spec_join_lines(ls) + "\n"@ + x);
    }
}

/// Joins lines with newlines.
fn join_lines(lines: &Vec<String>) -> (r: String)
    ensures
        r@ == spec_join_lines(spec_views(lines@)),
{
    let mut out = String::new();
    let mut i: usize = 0;
    while i < lines.len()
        invariant
            i <= lines@.len(),
            out@ == spec_join_lines(spec_views(lines@).subrange(0, i as int)),
        decreases lines@.len() - i,
    {
        if i > 0 {
            out.append("\n");
        }
        out.append(lines[i].as_str());
        proof {
            let vs = spec_views(lines@);
            assert(vs.subrange(0, i + 1) =~= vs.subrange(0, i as int).push(vs[i as int]));
            if i == 0 {
                assert(spec_join_lines(vs.subrange(0, 1)) == vs[0]);
                assert(out@ =~= vs[0]);
            } else {
                lemma_join_lines_push(vs.subrange(0, i as int), vs[i as int]);
            }
        }
        i = i + 1;
    }
    proof {
        assert(spec_views(lines@).subrange(0, lines@.len() as int) =~= spec_views(lines@));
    }
    out
}

/// Builds the transcoder's concatenation list for the given slides: one line
/// per slide's clip, in slide order, joined with newlines.  The clip paths
/// in the list are relative to the working directory, so the list does not
/// depend on `dir`.
pub fn generate_concat_list(dir: &str, slides: &Vec<Slide>) -> (r: String)
    ensures
        r@ == spec_concat_list(slides@),
{
    let _ = dir;
    let mut lines: Vec<String> = Vec::new();
    let mut i: usize = 0;
    while i < slides.len()
        invariant
            i <= slides@.len(),
            spec_views(lines@) =~= spec_lines(slides@.subrange(0, i as int)),
        decreases slides@.len() - i,
    {
        let line = line_for(&slides[i]);
        let ghost prev = lines@;
        lines.push(line);
        proof {
            let full = spec_lines(slides@.subrange(0, i + 1));
            assert(spec_views(prev).len() == prev.len());
            assert(spec_lines(slides@.subrange(0, i as int)).len() == i);
            assert(prev.len() == i);
            assert(lines@ == prev.push(line));
            assert(lines@.len() == i + 1);
            assert(full.len() == i + 1);
            assert forall|j: int| 0 <= j < lines@.len() implies #[trigger] spec_views(lines@)[j]
                == full[j] by {
                assert(spec_views(lines@)[j] == lines@[j]@);
                assert(full[j] == spec_line(slides@.subrange(0, i + 1)[j].idx));
                if j < i {
                    assert(lines@[j] == prev[j]);
                    assert(spec_views(prev)[j] == prev[j]@);
                    assert(spec_views(prev)[j] == spec_lines(slides@.subrange(0, i as int))[j]);
                } else {
                    assert(lines@[j]@ == spec_line(slides@[i as int].idx));
                }
            }
            assert(spec_views(lines@) =~= spec_lines(slides@.subrange(0, i + 1)));
        }
        i = i + 1;
    }
    proof {
        assert(slides@.subrange(0, slides@.len() as int) =~= slides@);
    }
    join_lines(&lines)
}

/// One planned transcoder invocation: a still image plus an audio artifact
/// become one video clip.
pub struct ClipSpec {
    pub image_path: String,
    pub audio_path: String,
    pub output_path: String,
}

/// Everything the external transcoder run needs, computed up front: the
/// per-slide clip jobs in slide order, the concatenation list and its path,
/// and the final output path.  The caller runs the transcoder for each clip
/// (aborting on the first non-zero exit), writes the list, and concatenates.
pub struct VideoPlan {
    pub clips: Vec<ClipSpec>,
    pub concat_list_path: String,
    pub concat_list: String,
    pub output_path: String,
}

/// Plans the video assembly for a batch: one clip per slide, in slide
/// order, from that slide's image and audio paths to its clip path; then a
/// concatenation of the clips, in that same order, into `output` under
/// `dir`.
pub fn generate_video(dir: &str, slides: &Vec<Slide>, output: &str, audio_ext: &str) -> (r:
    VideoPlan)
    ensures
        r.clips@.len() == slides@.len(),
        forall|i: int| 0 <= i < slides@.len() ==> {
            &&& (#[trigger] r.clips@[i]).image_path@ == spec_image_path(dir@, slides@[i].idx)
            &&& r.clips@[i].audio_path@ == spec_audio_path(dir@, slides@[i].idx, audio_ext@)
            &&& r.clips@[i].output_path@ == spec_video_path(dir@, slides@[i].idx)
        },
        r.concat_list@ == spec_concat_list(slides@),
        r.concat_list_path@ == dir@ + "/concat_list.txt"@,
        r.output_path@ == dir@ + "/"@ + output@,
{
    let mut clips: Vec<ClipSpec> = Vec::new();
    let mut i: usize = 0;
    while i < slides.len()
        invariant
            i <= slides@.len(),
            clips@.len() == i,
            forall|j: int| 0 <= j < i ==> {
                &&& (#[trigger] clips@[j]).image_path@ == spec_image_path(dir@, slides@[j].idx)
                &&& clips@[j].audio_path@ == spec_audio_path(dir@, slides@[j].idx, audio_ext@)
                &&& clips@[j].output_path@ == spec_video_path(dir@, slides@[j].idx)
            },
        decreases slides@.len() - i,
    {
        let slide = &slides[i];
        let clip = ClipSpec {
            image_path: image_path(dir, slide),
            audio_path: audio_path(dir, slide, audio_ext),
            output_path: video_path(dir, slide),
        };
        clips.push(clip);
        i = i + 1;
    }
    let concat_list = generate_concat_list(dir, slides);
    let mut concat_list_path = String::from_str(dir);
    concat_list_path.append("/concat_list.txt");
    let mut output_path = String::from_str(dir);
    output_path.append("/");
    output_path.append(output);
    VideoPlan { clips, concat_list_path, concat_list, output_path }
}

} // verus!
