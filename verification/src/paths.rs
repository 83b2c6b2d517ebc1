//! File names: the parts of a path that the tool reads, and the names of the
//! files it writes.

use vstd::prelude::*;
use crate::decimal::{lemma_zero_padded_injective, zero_padded};
use crate::decimal::zero_padded_string;
use crate::types::{profile_tag, DnxProfile};

verus! {

/// What `std::path::Path::file_stem` gives for the path with these characters:
/// the file name without its final extension, if the path has a file name.
pub uninterp spec fn path_file_stem(path: Seq<char>) -> Option<Seq<char>>;

/// What `std::path::Path::extension` gives for the path with these characters:
/// the part of the file name after its final dot, if there is one.
pub uninterp spec fn path_extension(path: Seq<char>) -> Option<Seq<char>>;

/// What `str::to_lowercase` gives for these characters.
pub uninterp spec fn lowercase(s: Seq<char>) -> Seq<char>;

/// The characters of an optional string.
pub open spec fn opt_view(o: Option<String>) -> Option<Seq<char>> {
    match o {
        Some(s) => Some(s@),
        None => None,
    }
}

/// Calls `std::path::Path::file_stem` on `path`. Claimed: the result is the
/// value named `path_file_stem` for the path's characters (the stem of a
/// `&str` path is valid UTF-8, so the conversion back to a string is exact).
#[verifier::external_body]
fn file_stem(path: &str) -> (r: Option<String>)
    ensures
        opt_view(r) == path_file_stem(path@),
{
    match std::path::Path::new(path).file_stem() {
        Some(s) => Some(s.to_string_lossy().into_owned()),
        None => None,
    }
}

/// Calls `std::path::Path::extension` on `path`. Claimed: the result is the
/// value named `path_extension` for the path's characters.
#[verifier::external_body]
fn extension(path: &str) -> (r: Option<String>)
    ensures
        opt_view(r) == path_extension(path@),
{
    match std::path::Path::new(path).extension() {
        Some(e) => Some(e.to_string_lossy().into_owned()),
        None => None,
    }
}

/// Calls `str::to_lowercase`. Claimed: the result is the value named
/// `lowercase` for the argument's characters.
#[verifier::external_body]
fn to_lowercase(s: &str) -> (r: String)
    ensures
        r@ == lowercase(s@),
{
    s.to_lowercase()
}

/// The extensions of the video files the tool opens, in lower case.
pub open spec fn video_extension_list() -> Seq<Seq<char>> {
    seq![
        "mp4"@,
        "mov"@,
        "mkv"@,
        "avi"@,
        "webm"@,
        "mts"@,
        "m2ts"@,
        "ts"@,
        "flv"@,
        "wmv"@,
    ]
}

/// The extensions of the video files the tool opens, as the file dialog's
/// filter lists them.
pub fn video_extensions() -> (v: Vec<&'static str>)
    ensures
        v@.map_values(|e: &str| e@) == video_extension_list(),
{
    let v = vec!["mp4", "mov", "mkv", "avi", "webm", "mts", "m2ts", "ts", "flv", "wmv"];
    assert(v@.map_values(|e: &str| e@) =~= video_extension_list());
    v
}

/// Whether `ext` is exactly one of the video extensions (no case folding).
pub fn is_video_extension(ext: &str) -> (b: bool)
    ensures
        b == video_extension_list().contains(ext@),
{
    let list = video_extensions();
    let target = String::from_str(ext);
    let mut i: usize = 0;
    while i < list.len()
        invariant
            i <= list@.len(),
            list@.map_values(|e: &str| e@) == video_extension_list(),
            target@ == ext@,
            forall|j: int| 0 <= j < i ==> video_extension_list()[j] != ext@,
        decreases list.len() - i,
    {
        let candidate = String::from_str(list[i]);
        assert(video_extension_list()[i as int] == list@[i as int]@);
        if candidate == target {
            assert(video_extension_list()[i as int] == ext@);
            return true;
        }
        i = i + 1;
    }
    proof {
        if video_extension_list().contains(ext@) {
            let j = choose|j: int| 0 <= j < video_extension_list().len() && video_extension_list()[j] == ext@;
            assert(video_extension_list()[j] != ext@);
        }
    }
    false
}

/// A dropped file is opened when its extension, in lower case, is a video
/// extension.
pub open spec fn opens_as_video(path: Seq<char>) -> bool {
    match path_extension(path) {
        Some(e) => video_extension_list().contains(lowercase(e)),
        None => false,
    }
}

/// Whether a file at `path` is taken as a video when dropped on the window.
pub fn is_video_path(path: &str) -> (b: bool)
    ensures
        b == opens_as_video(path@),
{
    match extension(path) {
        Some(e) => {
            let lower = to_lowercase(e.as_str());
            is_video_extension(lower.as_str())
        },
        None => false,
    }
}

/// A dropped file that has a path is opened when that path opens as a video.
pub open spec fn dropped_video(file: Option<String>) -> bool {
    match file {
        Some(p) => opens_as_video(p@),
        None => false,
    }
}

/// The first of the dropped files that opens as a video; files without a path
/// are skipped.
pub fn first_video_path(paths: &Vec<Option<String>>) -> (r: Option<usize>)
    ensures
        r matches Some(i) ==> i < paths@.len() && dropped_video(paths@[i as int]),
        r matches Some(i) ==> forall|j: int| 0 <= j < i ==> !dropped_video(#[trigger] paths@[j]),
        r is None ==> forall|j: int| 0 <= j < paths@.len() ==> !dropped_video(#[trigger] paths@[j]),
{
    let mut i: usize = 0;
    while i < paths.len()
        invariant
            i <= paths@.len(),
            forall|j: int| 0 <= j < i ==> !dropped_video(#[trigger] paths@[j]),
        decreases paths.len() - i,
    {
        match &paths[i] {
            Some(p) => {
                if is_video_path(p.as_str()) {
                    return Some(i);
                }
            },
            None => {},
        }
        i = i + 1;
    }
    None
}

/// The base of an output name: the input's stem, or `output` when the input
/// path has none.
pub open spec fn stem_or_default(stem: Option<Seq<char>>) -> Seq<char> {
    match stem {
        Some(s) => s,
        None => "output"@,
    }
}

/// `{stem}_{tag}.mov` for a single export, `{stem}_{tag}_{NNN}.mov` for the
/// `number`-th of several.
pub open spec fn output_name(stem: Seq<char>, profile: DnxProfile, number: Option<nat>) -> Seq<char> {
    match number {
        None => stem + "_"@ + profile_tag(profile) + ".mov"@,
        Some(n) => stem + "_"@ + profile_tag(profile) + "_"@ + zero_padded(n, 3) + ".mov"@,
    }
}

/// The output file written for `input`: `number` is `None` for a single export.
pub open spec fn output_path_for(input: Seq<char>, profile: DnxProfile, number: Option<nat>) -> Seq<char> {
    output_name(stem_or_default(path_file_stem(input)), profile, number)
}

/// Builds an output name from the input's stem, as the export names its files.
pub fn output_name_from_stem(stem: Option<String>, profile: &DnxProfile, number: Option<usize>) -> (s: String)
    ensures
        s@ == output_name(
            stem_or_default(opt_view(stem)),
            *profile,
            match number {
                Some(n) => Some(n as nat),
                None => None,
            },
        ),
{
    let mut s = match stem {
        Some(st) => st,
        None => String::from_str("output"),
    };
    s.append("_");
    s.append(profile.file_tag());
    match number {
        Some(n) => {
            s.append("_");
            let digits = zero_padded_string(n as u128, 3);
            s.append(digits.as_str());
        },
        None => {},
    }
    s.append(".mov");
    s
}

/// Generates the default output path for exporting `input` with `profile`:
/// the input's file stem (or `output`), the profile tag and `.mov`.
pub fn default_output_path(input: &str, profile: &DnxProfile) -> (s: String)
    ensures
        s@ == output_path_for(input@, *profile, None),
{
    output_name_from_stem(file_stem(input), profile, None)
}

/// The output path of the `number`-th export when several are made at once.
pub fn numbered_output_path(input: &str, profile: &DnxProfile, number: usize) -> (s: String)
    ensures
        s@ == output_path_for(input@, *profile, Some(number as nat)),
{
    output_name_from_stem(file_stem(input), profile, Some(number))
}

/// The numbered outputs of one input never share a name: distinct numbers
/// give distinct files, so a batch export does not overwrite its own files.
pub proof fn lemma_numbered_outputs_distinct(input: Seq<char>, profile: DnxProfile, a: nat, b: nat)
    requires
        a != b,
    ensures
        output_path_for(input, profile, Some(a)) != output_path_for(input, profile, Some(b)),
{
    let pre = stem_or_default(path_file_stem(input)) + "_"@ + profile_tag(profile) + "_"@;
    let za = zero_padded(a, 3);
    let zb = zero_padded(b, 3);
    let x = output_path_for(input, profile, Some(a));
    let y = output_path_for(input, profile, Some(b));
    assert(x =~= pre + za + ".mov"@);
    assert(y =~= pre + zb + ".mov"@);
    if x == y {
        assert(za.len() == zb.len());
        assert(x.subrange(pre.len() as int, (pre.len() + za.len()) as int) =~= za);
        assert(y.subrange(pre.len() as int, (pre.len() + zb.len()) as int) =~= zb);
        lemma_zero_padded_injective(a, b, 3);
    }
}

/// Distinct profiles never write to the same file for the same input and
/// number.
pub proof fn lemma_profiles_give_distinct_outputs(
    input: Seq<char>,
    p: DnxProfile,
    q: DnxProfile,
    number: Option<nat>,
)
    requires
        p != q,
    ensures
        output_path_for(input, p, number) != output_path_for(input, q, number),
{
    reveal_strlit("lb");
    reveal_strlit("sq");
    reveal_strlit("hq");
    reveal_strlit("hqx");
    reveal_strlit("_");
    reveal_strlit(".mov");
    let stem = stem_or_default(path_file_stem(input));
    let tp = profile_tag(p);
    let tq = profile_tag(q);
    let rest = match number {
        None => ".mov"@,
        Some(n) => "_"@ + zero_padded(n, 3) + ".mov"@,
    };
    let x = output_path_for(input, p, number);
    let y = output_path_for(input, q, number);
    assert(x =~= stem + "_"@ + tp + rest);
    assert(y =~= stem + "_"@ + tq + rest);
    let o: int = stem.len() as int + 1;
    if x == y {
        if tp.len() == tq.len() {
            assert(x[o] == tp[0] && y[o] == tq[0]);
            assert(x[o + 1] == tp[1] && y[o + 1] == tq[1]);
            if tp.len() == 3 {
                assert(x[o + 2] == tp[2] && y[o + 2] == tq[2]);
            }
            assert(tp =~= tq);
        } else {
            assert(x.len() != y.len());
        }
    }
}

} // verus!
