//! Deterministic artifact paths.
//!
//! The audio artifact, its cache record, the slide image and the per-slide
//! video clip are all named from the slide's ordinal index alone, under a
//! caller-supplied working directory.  The functions are pure and stable
//! across runs, and collision-free: distinct indices yield distinct paths.

use vstd::prelude::*;

use crate::Slide;

verus! {

/// The character for one decimal digit.
pub open spec fn spec_digit_char(d: nat) -> char {
    if d == 0 {
        '0'
    } else if d == 1 {
        '1'
    } else if d == 2 {
        '2'
    } else if d == 3 {
        '3'
    } else if d == 4 {
        '4'
    } else if d == 5 {
        '5'
    } else if d == 6 {
        '6'
    } else if d == 7 {
        '7'
    } else if d == 8 {
        '8'
    } else {
        '9'
    }
}

/// The decimal rendering of a number, without leading zeros.
pub open spec fn spec_dec(n: nat) -> Seq<char>
    decreases n,
{
    if n < 10 {
        seq![spec_digit_char(n)]
    } else {
        spec_dec(n / 10).push(spec_digit_char(n % 10))
    }
}

pub proof fn lemma_dec_len(n: nat)
    ensures
        spec_dec(n).len() >= 1,
        n >= 10 ==> spec_dec(n).len() >= 2,
    decreases n,
{
    if n >= 10 {
        lemma_dec_len(n / 10);
    }
}

/// The decimal rendering is injective: distinct numbers render distinctly.
pub proof fn lemma_dec_injective(a: nat, b: nat)
    requires
        spec_dec(a) == spec_dec(b),
    ensures
        a == b,
    decreases a,
{
    lemma_dec_len(a);
    lemma_dec_len(b);
    if a < 10 && b < 10 {
        assert(spec_dec(a) == seq![spec_digit_char(a)]);
        assert(spec_dec(b) == seq![spec_digit_char(b)]);
        assert(seq![spec_digit_char(a)][0] == spec_digit_char(a));
        assert(seq![spec_digit_char(b)][0] == spec_digit_char(b));
        assert(spec_digit_char(a) == spec_digit_char(b));
        assert(a == b);
    } else if a < 10 {
        assert(spec_dec(a).len() == 1);
        assert(false);
    } else if b < 10 {
        assert(spec_dec(b).len() == 1);
        assert(false);
    } else {
        assert(spec_dec(a) == spec_dec(a / 10).push(spec_digit_char(a % 10)));
        assert(spec_dec(b) == spec_dec(b / 10).push(spec_digit_char(b % 10)));
        assert(spec_dec(a).last() == spec_digit_char(a % 10));
        assert(spec_dec(b).last() == spec_digit_char(b % 10));
        assert(spec_digit_char(a % 10) == spec_digit_char(b % 10));
        assert(a % 10 == b % 10);
        assert(spec_dec(a).drop_last() =~= spec_dec(a / 10));
        assert(spec_dec(b).drop_last() =~= spec_dec(b / 10));
        lemma_dec_injective(a / 10, b / 10);
        assert(a as int == 10 * (a as int / 10) + a as int % 10) by {
            vstd::arithmetic::div_mod::lemma_fundamental_div_mod(a as int, 10);
        }
        assert(b as int == 10 * (b as int / 10) + b as int % 10) by {
            vstd::arithmetic::div_mod::lemma_fundamental_div_mod(b as int, 10);
        }
    }
}

/// One decimal digit as a string slice.
fn digit_str(d: u64) -> (r: &'static str)
    requires
        d < 10,
    ensures
        r@ == seq![spec_digit_char(d as nat)],
{
    proof {
        reveal_strlit("0");
        reveal_strlit("1");
        reveal_strlit("2");
        reveal_strlit("3");
        reveal_strlit("4");
        reveal_strlit("5");
        reveal_strlit("6");
        reveal_strlit("7");
        reveal_strlit("8");
        reveal_strlit("9");
    }
    let r = if d == 0 {
        "0"
    } else if d == 1 {
        "1"
    } else if d == 2 {
        "2"
    } else if d == 3 {
        "3"
    } else if d == 4 {
        "4"
    } else if d == 5 {
        "5"
    } else if d == 6 {
        "6"
    } else if d == 7 {
        "7"
    } else if d == 8 {
        "8"
    } else {
        "9"
    };
    proof {
        assert(r@ =~= seq![spec_digit_char(d as nat)]);
    }
    r
}

/// Renders a number in decimal.
pub fn u64_to_dec(n: u64) -> (r: String)
    ensures
        r@ == spec_dec(n as nat),
    decreases n,
{
    if n < 10 {
        String::from_str(digit_str(n))
    } else {
        let mut s = u64_to_dec(n / 10);
        s.append(digit_str(n % 10));
        proof {
            assert(s@ =~= spec_dec(n as nat));
        }
        s
    }
}

/// The directory under the working directory that holds per-slide clips.
pub fn video_dir_name() -> (r: &'static str)
    ensures
        r@ == "video"@,
{
    "video"
}

/// The path of the audio artifact for a slide.
pub open spec fn spec_audio_path(dir: Seq<char>, idx: u64, ext: Seq<char>) -> Seq<char> {
    dir + "/"@ + spec_dec(idx as nat) + "."@ + ext
}

/// The path of the cache record for a slide.
pub open spec fn spec_record_path(dir: Seq<char>, idx: u64) -> Seq<char> {
    dir + "/"@ + spec_dec(idx as nat) + ".cachekey.txt"@
}

/// The path of the image for a slide.
pub open spec fn spec_image_path(dir: Seq<char>, idx: u64) -> Seq<char> {
    dir + "/"@ + spec_dec(idx as nat) + ".png"@
}

/// The path of the per-slide video clip.
pub open spec fn spec_video_path(dir: Seq<char>, idx: u64) -> Seq<char> {
    dir + "/"@ + "video"@ + "/"@ + spec_dec(idx as nat) + ".mp4"@
}

/// The file name (without directories) of the per-slide video clip.
pub open spec fn spec_video_file_name(idx: u64) -> Seq<char> {
    spec_dec(idx as nat) + ".mp4"@
}

/// Joins path pieces: `dir`, a separator, then `name`.
fn join_under(dir: &str, name: String) -> (r: String)
    ensures
        r@ == dir@ + "/"@ + name@,
{
    let mut s = String::from_str(dir);
    s.append("/");
    s.append(name.as_str());
    s
}

pub fn audio_path(dir: &str, slide: &Slide, ext: &str) -> (r: String)
    ensures
        r@ == spec_audio_path(dir@, slide.idx, ext@),
{
    let mut name = u64_to_dec(slide.idx);
    name.append(".");
    name.append(ext);
    let r = join_under(dir, name);
    proof {
        assert(r@ =~= spec_audio_path(dir@, slide.idx, ext@));
    }
    r
}

pub fn audio_cache_key_path(dir: &str, slide: &Slide) -> (r: String)
    ensures
        r@ == spec_record_path(dir@, slide.idx),
{
    let mut name = u64_to_dec(slide.idx);
    name.append(".cachekey.txt");
    let r = join_under(dir, name);
    proof {
        assert(r@ =~= spec_record_path(dir@, slide.idx));
    }
    r
}

pub fn image_path(dir: &str, slide: &Slide) -> (r: String)
    ensures
        r@ == spec_image_path(dir@, slide.idx),
{
    let mut name = u64_to_dec(slide.idx);
    name.append(".png");
    let r = join_under(dir, name);
    proof {
        assert(r@ =~= spec_image_path(dir@, slide.idx));
    }
    r
}

pub fn video_path(dir: &str, slide: &Slide) -> (r: String)
    ensures
        r@ == spec_video_path(dir@, slide.idx),
{
    let mut name = String::from_str(video_dir_name());
    name.append("/");
    let dec = u64_to_dec(slide.idx);
    name.append(dec.as_str());
    name.append(".mp4");
    let r = join_under(dir, name);
    proof {
        assert(r@ =~= spec_video_path(dir@, slide.idx));
    }
    r
}

/// Distinct slides get distinct audio paths: the scheme is collision-free.
pub proof fn lemma_audio_path_collision_free(dir: Seq<char>, i1: u64, i2: u64, ext: Seq<char>)
    requires
        spec_audio_path(dir, i1, ext) == spec_audio_path(dir, i2, ext),
    ensures
        i1 == i2,
{
    assert(dir + "/"@ + spec_dec(i1 as nat) + "."@ + ext =~= (dir + "/"@) + spec_dec(i1 as nat) + (
    "."@ + ext));
    assert(dir + "/"@ + spec_dec(i2 as nat) + "."@ + ext =~= (dir + "/"@) + spec_dec(i2 as nat) + (
    "."@ + ext));
    lemma_mid_cancel(dir + "/"@, spec_dec(i1 as nat), spec_dec(i2 as nat), "."@ + ext);
    lemma_dec_injective(i1 as nat, i2 as nat);
}

/// Distinct slides get distinct record paths.
pub proof fn lemma_record_path_collision_free(dir: Seq<char>, i1: u64, i2: u64)
    requires
        spec_record_path(dir, i1) == spec_record_path(dir, i2),
    ensures
        i1 == i2,
{
    lemma_mid_cancel(dir + "/"@, spec_dec(i1 as nat), spec_dec(i2 as nat), ".cachekey.txt"@);
    lemma_dec_injective(i1 as nat, i2 as nat);
}

/// Distinct slides get distinct image paths.
pub proof fn lemma_image_path_collision_free(dir: Seq<char>, i1: u64, i2: u64)
    requires
        spec_image_path(dir, i1) == spec_image_path(dir, i2),
    ensures
        i1 == i2,
{
    lemma_mid_cancel(dir + "/"@, spec_dec(i1 as nat), spec_dec(i2 as nat), ".png"@);
    lemma_dec_injective(i1 as nat, i2 as nat);
}

/// Distinct slides get distinct video clip paths.
pub proof fn lemma_video_path_collision_free(dir: Seq<char>, i1: u64, i2: u64)
    requires
        spec_video_path(dir, i1) == spec_video_path(dir, i2),
    ensures
        i1 == i2,
{
    assert(spec_video_path(dir, i1) =~= (dir + "/"@ + "video"@ + "/"@) + spec_dec(i1 as nat) + (
    ".mp4"@));
    assert(spec_video_path(dir, i2) =~= (dir + "/"@ + "video"@ + "/"@) + spec_dec(i2 as nat) + (
    ".mp4"@));
    lemma_mid_cancel(
        dir + "/"@ + "video"@ + "/"@,
        spec_dec(i1 as nat),
        spec_dec(i2 as nat),
        ".mp4"@,
    );
    lemma_dec_injective(i1 as nat, i2 as nat);
}

/// In `p + a + s == p + b + s`, the middle parts agree.
proof fn lemma_mid_cancel(p: Seq<char>, a: Seq<char>, b: Seq<char>, s: Seq<char>)
    requires
        p + a + s == p + b + s,
    ensures
        a == b,
{
    assert((p + a + s).len() == (p + b + s).len());
    assert((p + a + s).len() == p.len() + a.len() + s.len());
    assert((p + b + s).len() == p.len() + b.len() + s.len());
    assert(a.len() == b.len());
    assert forall|i: int| 0 <= i < a.len() implies a[i] == b[i] by {
        assert((p + a + s)[p.len() + i] == a[i]);
        assert((p + b + s)[p.len() + i] == b[i]);
    }
    assert(a =~= b);
}

} // verus!
