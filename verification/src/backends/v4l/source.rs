//! Resolving the kernel's dual device-node topology.
//!
//! A capture device is reachable both through a control node (a `media`
//! file under the device-node root) and a streaming node (a `video`
//! file). Given an arbitrary user-supplied path — a raw node, a symlink,
//! either kind of node — the resolver derives the paired `{media, video}`
//! set by walking the kernel's device graph under the device-class
//! directory, and keeps the original input verbatim for diagnostics.
//!
//! The walk itself needs the filesystem, which the caller performs; every
//! decision about what was read — which entry pairs with which node,
//! which failure it is — is made here, as a pure function of the listing.
//! Either direction ends in `confirm_source_nodes`: a resolved source is
//! only handed out when both of its nodes exist at resolution time.

use vstd::prelude::*;

use crate::error::VideoCaptureConnectionError;
use crate::text::{
    after_last_slash, file_name_of, file_name_spec, has_prefix, has_substring,
    lemma_after_last_is, lemma_segments_single, lemma_segments_slash_concat,
    lemma_segments_trailing_slash, lemma_strip_trailing_is, path_segments, split_path_segments,
    str_eq, str_has_prefix, str_has_substring, strip_trailing_slashes,
};

verus! {

/// The resolved on-disk identity of one physical capture device.
///
/// Both nodes point to the same physical device at resolution time; the
/// value is created once per connection attempt and re-derived, never
/// mutated, on reconnect.
#[derive(Debug, PartialEq)]
pub struct V4LSource {
    /// The user's input path, no matter how awful.
    pub given: String,
    /// A path to the control (`media`) node for this capture device.
    pub media: String,
    /// The capture device's streaming (`video`) node path.
    pub video: String,
}

impl V4LSource {
    /// Makes a string from the user's given path input.
    pub fn user_source_string(&self) -> (r: String)
        ensures
            r@ == self.given@,
    {
        self.given.clone()
    }
}

impl Clone for V4LSource {
    fn clone(&self) -> (r: Self)
        ensures
            r == *self,
    {
        V4LSource {
            given: self.given.clone(),
            media: self.media.clone(),
            video: self.video.clone(),
        }
    }
}

/// What reading the user's path as a symbolic link produced.
#[derive(Debug)]
pub enum LinkStatus {
    /// The path is a symbolic link and resolves to this target.
    Resolved(String),
    /// The path exists but is not a symbolic link.
    NotSymlink,
    /// The path does not exist.
    Missing,
    /// The path could not be accessed; the message says how.
    Inaccessible(String),
}

/// One entry of a directory listing, as the resolver sees it.
#[derive(Debug)]
pub struct SysDirEntry {
    /// The entry's full path.
    pub path: String,
    /// Whether the entry is a directory.
    pub is_dir: bool,
    /// Where the entry points, when it is a symbolic link.
    pub link_target: Option<String>,
}

/// What the resolver decided to do with a working path.
#[derive(Debug)]
pub enum ResolveDirective {
    /// The working path is a control node: pair it with a streaming node
    /// from the device-class listing.
    PairStreaming { media: String },
    /// The working path is a streaming node: pair it with a control node
    /// from its `device` directory listing.
    PairControl { video: String },
    /// Resolution failed outright.
    Fail(VideoCaptureConnectionError),
}

/// The first directory among a device-class listing's entries.
pub open spec fn spec_first_dir(entries: Seq<SysDirEntry>) -> Option<SysDirEntry>
    decreases entries.len(),
{
    if entries.len() == 0 {
        None
    } else if entries[0].is_dir {
        Some(entries[0])
    } else {
        spec_first_dir(entries.drop_first())
    }
}

/// The first entry whose path mentions the control-node token.
pub open spec fn spec_first_media_entry(entries: Seq<SysDirEntry>) -> Option<SysDirEntry>
    decreases entries.len(),
{
    if entries.len() == 0 {
        None
    } else if has_substring(entries[0].path@, "media"@) {
        Some(entries[0])
    } else {
        spec_first_media_entry(entries.drop_first())
    }
}

/// The first path segment that embeds the streaming-node token anywhere
/// outside the class-directory name.
pub open spec fn spec_first_video_segment(segs: Seq<Seq<char>>) -> Option<Seq<char>>
    decreases segs.len(),
{
    if segs.len() == 0 {
        None
    } else if has_substring(segs[0], "video"@) && segs[0] != "video4linux"@ {
        Some(segs[0])
    } else {
        spec_first_video_segment(segs.drop_first())
    }
}

/// The streaming-node path paired with a control node: the first class
/// directory, joined with `device` and the control node's file name, read
/// for the streaming-node name among its segments.
pub open spec fn spec_video_candidate(media: Seq<char>, entries: Seq<SysDirEntry>) -> Option<
    Seq<char>,
> {
    match file_name_spec(media) {
        None => None,
        Some(name) => match spec_first_dir(entries) {
            None => None,
            Some(e) => match spec_first_video_segment(
                path_segments(e.path@ + "/device/"@ + name),
            ) {
                None => None,
                Some(seg) => Some("/dev/"@ + seg),
            },
        },
    }
}

/// The control-node path paired with a streaming node: the first entry of
/// the streaming node's `device` directory that mentions the control
/// token, followed through a symlink when it is one.
pub open spec fn spec_media_resolved(entries: Seq<SysDirEntry>) -> Option<Seq<char>> {
    match spec_first_media_entry(entries) {
        None => None,
        Some(e) => match e.link_target {
            Some(t) => Some(t@),
            None => Some(e.path@),
        },
    }
}

/// Segments that never match the streaming-node selection can be skipped
/// in front of any others.
pub proof fn lemma_first_video_segment_skip(a: Seq<Seq<char>>, b: Seq<Seq<char>>)
    requires
        forall|i: int|
            0 <= i < a.len() ==> !(has_substring(#[trigger] a[i], "video"@) && a[i]
                != "video4linux"@),
    ensures
        spec_first_video_segment(a + b) == spec_first_video_segment(b),
    decreases a.len(),
{
    if a.len() == 0 {
        assert(a + b =~= b);
    } else {
        assert((a + b)[0] == a[0]);
        assert((a + b).drop_first() =~= a.drop_first() + b);
        lemma_first_video_segment_skip(a.drop_first(), b);
    }
}

/// Topology resolution is a left-inverse of itself for well-formed
/// fixtures.
///
/// Resolving a control-node path against a device-class listing whose
/// first directory is the class entry of one streaming node yields that
/// node's path under the device-node root; the derived path is itself a
/// well-shaped streaming-node path, and resolving it independently —
/// against a `device` listing whose first control entry leads back to
/// the original control node — yields the control-node path this
/// resolution began from.
pub proof fn lemma_topology_round_trip(
    media_path: Seq<char>,
    media_name: Seq<char>,
    class_prefix: Seq<char>,
    video_name: Seq<char>,
    class_entries: Seq<SysDirEntry>,
    device_entries: Seq<SysDirEntry>,
)
    requires
        file_name_spec(media_path) == Some(media_name),
        media_name.len() > 0,
        forall|j: int| 0 <= j < media_name.len() ==> media_name[j] != '/',
        spec_first_dir(class_entries) matches Some(e) && e.path@ == class_prefix + video_name,
        class_prefix.len() > 0,
        class_prefix.last() == '/',
        forall|i: int|
            0 <= i < path_segments(class_prefix).len() ==> !(has_substring(
                #[trigger] path_segments(class_prefix)[i],
                "video"@,
            ) && path_segments(class_prefix)[i] != "video4linux"@),
        video_name.len() > 0,
        forall|j: int| 0 <= j < video_name.len() ==> video_name[j] != '/',
        has_prefix(video_name, "video"@),
        video_name != "video4linux"@,
        !has_substring(media_name, "video"@),
        spec_media_resolved(device_entries) == Some(media_path),
    ensures
        spec_video_candidate(media_path, class_entries) == Some("/dev/"@ + video_name),
        file_name_spec("/dev/"@ + video_name) == Some(video_name),
        has_prefix(video_name, "video"@),
        spec_media_resolved(device_entries) == Some(media_path),
{
    reveal_strlit("/dev/");
    reveal_strlit("/device/");
    reveal_strlit("device");
    reveal_strlit("video");
    reveal_strlit(".");
    reveal_strlit("..");
    let e = spec_first_dir(class_entries)->Some_0;
    let joined = e.path@ + "/device/"@ + media_name;
    let head = class_prefix + video_name;
    let dpart = "device"@ + seq!['/'] + media_name;
    // the joined path splits at the slash in front of `device`
    assert(joined =~= head + seq!['/'] + dpart);
    lemma_segments_slash_concat(head, dpart);
    // `device` and the control node's file name are one segment each
    lemma_segments_slash_concat("device"@, media_name);
    assert("device"@ + seq!['/'] + media_name =~= dpart);
    assert(forall|j: int| 0 <= j < "device"@.len() ==> "device"@[j] != '/');
    lemma_segments_single("device"@);
    lemma_segments_single(media_name);
    // the class prefix keeps its segments in front of the node name
    let stripped = class_prefix.drop_last();
    assert(head =~= stripped + seq!['/'] + video_name);
    lemma_segments_slash_concat(stripped, video_name);
    lemma_segments_single(video_name);
    assert(stripped + seq!['/'] =~= class_prefix);
    lemma_segments_trailing_slash(stripped);
    assert(path_segments(head) == path_segments(class_prefix) + seq![video_name]);
    assert(path_segments(joined) == path_segments(class_prefix) + seq![video_name] + (seq![
        "device"@,
    ] + seq![media_name]));
    // none of the class prefix's segments is selected, the node name is
    let tail = seq![video_name] + (seq!["device"@] + seq![media_name]);
    assert(path_segments(joined) =~= path_segments(class_prefix) + tail);
    lemma_first_video_segment_skip(path_segments(class_prefix), tail);
    assert(has_substring(video_name, "video"@)) by {
        assert(video_name.subrange(0, 0 + "video"@.len() as int) == "video"@);
    }
    assert(tail[0] == video_name);
    assert(spec_first_video_segment(tail) == Some(video_name));
    assert(spec_video_candidate(media_path, class_entries) == Some("/dev/"@ + video_name));
    // the derived path is a well-shaped streaming-node path
    let dev_video = "/dev/"@ + video_name;
    assert(dev_video.last() == video_name.last());
    assert(dev_video.last() != '/');
    lemma_strip_trailing_is(dev_video, dev_video.len() as int);
    assert(strip_trailing_slashes(dev_video) =~= dev_video);
    assert(dev_video[4] == '/');
    assert(forall|j: int| 5 <= j < dev_video.len() ==> dev_video[j] == video_name[j - 5]);
    lemma_after_last_is(dev_video, 5);
    assert(after_last_slash(dev_video) =~= video_name);
    assert(video_name.len() >= 5) by {
        assert("video"@.len() == 5);
    }
    assert(video_name != "."@ && video_name != ".."@) by {
        assert("."@.len() == 1 && ".."@.len() == 2);
    }
}

/// The first resolution step: reading the input as a symbolic link has
/// three outcomes. A resolved target becomes the working path; an
/// ordinary file is its own working path; a path that does not exist is
/// the distinct missing-source error, so a caller can tell missing
/// hardware from other faults; anything else fails naming the original
/// input.
pub fn working_path(user_input: &String, link: &LinkStatus) -> (r: Result<
    String,
    VideoCaptureConnectionError,
>)
    ensures
        link matches LinkStatus::Resolved(p) ==> (r matches Ok(w) && w@ == p@),
        link is NotSymlink ==> (r matches Ok(w) && w@ == user_input@),
        link is Missing ==> (r matches Err(e) && e matches
            VideoCaptureConnectionError::SourceDoesntExist { source } && source@
            == user_input@),
        link matches LinkStatus::Inaccessible(msg) ==> (r matches Err(e) && e matches
            VideoCaptureConnectionError::CouldntGetDeviceInfo { source, err_msg } && source@
            == user_input@ && err_msg@
            == "The given device couldn't be accessed as a symlink and wasn't a normal file. See: "@
            + msg@),
{
    match link {
        LinkStatus::Resolved(p) => Ok(p.clone()),
        LinkStatus::NotSymlink => Ok(user_input.clone()),
        LinkStatus::Missing => Err(
            VideoCaptureConnectionError::SourceDoesntExist { source: user_input.clone() },
        ),
        LinkStatus::Inaccessible(msg) => Err(
            VideoCaptureConnectionError::CouldntGetDeviceInfo {
                source: user_input.clone(),
                err_msg: String::from_str(
                    "The given device couldn't be accessed as a symlink and wasn't a normal file. See: ",
                ).concat(msg.as_str()),
            },
        ),
    }
}

/// Decides, from the working path's file name, which way the pairing must
/// run: a `media` name is a control node, a `video` name a streaming
/// node, and any other shape a resolution failure.
pub fn classify_working_path(user_input: &String, working: String) -> (r: ResolveDirective)
    ensures
        file_name_spec(working@) is None ==> (r matches ResolveDirective::Fail(e) && e matches
            VideoCaptureConnectionError::CouldntGetDeviceInfo { source, err_msg } && source@
            == user_input@ && err_msg@ == "The given device file points to a directory!"@),
        file_name_spec(working@) matches Some(n) ==> {
            if has_prefix(n, "media"@) {
                r matches ResolveDirective::PairStreaming { media } && media@ == working@
            } else if has_prefix(n, "video"@) {
                r matches ResolveDirective::PairControl { video } && video@ == working@
            } else {
                r matches ResolveDirective::Fail(e) && (e matches
                    VideoCaptureConnectionError::CouldntGetDeviceInfo { source, err_msg }
                    && source@ == user_input@ && err_msg@ == "Didn't"@)
            }
        },
{
    let name = match file_name_of(working.as_str()) {
        Some(n) => n,
        None => {
            return ResolveDirective::Fail(
                VideoCaptureConnectionError::CouldntGetDeviceInfo {
                    source: user_input.clone(),
                    err_msg: String::from_str("The given device file points to a directory!"),
                },
            );
        },
    };
    if str_has_prefix(name.as_str(), "media") {
        ResolveDirective::PairStreaming { media: working }
    } else if str_has_prefix(name.as_str(), "video") {
        ResolveDirective::PairControl { video: working }
    } else {
        ResolveDirective::Fail(
            VideoCaptureConnectionError::CouldntGetDeviceInfo {
                source: user_input.clone(),
                err_msg: String::from_str("Didn't"),
            },
        )
    }
}

/// Finds the index of the first directory entry.
fn first_dir_index(entries: &Vec<SysDirEntry>) -> (r: Option<usize>)
    ensures
        r matches Some(i) ==> i < entries@.len() && spec_first_dir(entries@) == Some(
            entries@[i as int],
        ),
        r is None <==> spec_first_dir(entries@) is None,
{
    let ghost full = entries@;
    proof {
        assert(full.subrange(0, full.len() as int) =~= full);
    }
    let mut i: usize = 0;
    while i < entries.len()
        invariant
            0 <= i <= full.len(),
            entries@ == full,
            spec_first_dir(full) == spec_first_dir(full.subrange(i as int, full.len() as int)),
        decreases full.len() - i,
    {
        let ghost rest = full.subrange(i as int, full.len() as int);
        if entries[i].is_dir {
            proof {
                assert(rest[0] == full[i as int]);
            }
            return Some(i);
        }
        proof {
            assert(rest.drop_first() =~= full.subrange(i as int + 1, full.len() as int));
        }
        i = i + 1;
    }
    proof {
        assert(full.subrange(i as int, full.len() as int).len() == 0);
    }
    None
}

/// Finds the index of the first entry whose path mentions the control
/// token.
fn first_media_index(entries: &Vec<SysDirEntry>) -> (r: Option<usize>)
    ensures
        r matches Some(i) ==> i < entries@.len() && spec_first_media_entry(entries@) == Some(
            entries@[i as int],
        ),
        r is None <==> spec_first_media_entry(entries@) is None,
{
    let ghost full = entries@;
    proof {
        assert(full.subrange(0, full.len() as int) =~= full);
    }
    let mut i: usize = 0;
    while i < entries.len()
        invariant
            0 <= i <= full.len(),
            entries@ == full,
            spec_first_media_entry(full) == spec_first_media_entry(
                full.subrange(i as int, full.len() as int),
            ),
        decreases full.len() - i,
    {
        let ghost rest = full.subrange(i as int, full.len() as int);
        proof {
            assert(rest[0] == full[i as int]);
        }
        if str_has_substring(entries[i].path.as_str(), "media") {
            return Some(i);
        }
        proof {
            assert(rest.drop_first() =~= full.subrange(i as int + 1, full.len() as int));
        }
        i = i + 1;
    }
    proof {
        assert(full.subrange(i as int, full.len() as int).len() == 0);
    }
    None
}

/// Finds the index of the first segment that embeds the streaming token
/// outside the class-directory name.
fn first_video_segment_index(segs: &Vec<String>) -> (r: Option<usize>)
    ensures
        r matches Some(i) ==> i < segs.deep_view().len() && spec_first_video_segment(
            segs.deep_view(),
        ) == Some(segs.deep_view()[i as int]),
        r is None <==> spec_first_video_segment(segs.deep_view()) is None,
{
    let ghost full = segs.deep_view();
    proof {
        assert(full.subrange(0, full.len() as int) =~= full);
    }
    let mut i: usize = 0;
    while i < segs.len()
        invariant
            0 <= i <= full.len(),
            segs.deep_view() == full,
            full.len() == segs@.len(),
            spec_first_video_segment(full) == spec_first_video_segment(
                full.subrange(i as int, full.len() as int),
            ),
        decreases full.len() - i,
    {
        let ghost rest = full.subrange(i as int, full.len() as int);
        proof {
            assert(rest[0] == full[i as int]);
            assert(full[i as int] == segs@[i as int]@);
        }
        if str_has_substring(segs[i].as_str(), "video") && !str_eq(
            segs[i].as_str(),
            "video4linux",
        ) {
            return Some(i);
        }
        proof {
            assert(rest.drop_first() =~= full.subrange(i as int + 1, full.len() as int));
        }
        i = i + 1;
    }
    proof {
        assert(full.subrange(i as int, full.len() as int).len() == 0);
    }
    None
}

/// Given a control node, derives the streaming-node path it pairs with
/// from the device-class listing. The pair still has to pass the
/// existence check of `confirm_source_nodes`.
pub fn pair_streaming_node(
    user_input: &String,
    media: &String,
    class_entries: &Vec<SysDirEntry>,
) -> (r: Result<String, VideoCaptureConnectionError>)
    ensures
        r is Ok <==> spec_video_candidate(media@, class_entries@) is Some,
        r matches Ok(c) ==> spec_video_candidate(media@, class_entries@) == Some(c@),
        r matches Err(e) ==> e matches VideoCaptureConnectionError::CouldntGetDeviceInfo {
            source,
            err_msg,
        } && source@ == user_input@,
        file_name_spec(media@) is None ==> (r matches Err(e) && e matches
            VideoCaptureConnectionError::CouldntGetDeviceInfo { source, err_msg } && err_msg@
            == "failed to get filename for `videoY` file"@),
        file_name_spec(media@) is Some && spec_first_dir(class_entries@) is None ==> (r matches
            Err(e) && e matches VideoCaptureConnectionError::CouldntGetDeviceInfo {
            source,
            err_msg,
        } && err_msg@ == "No Video4Linux devices appear to own the given `mediaX` file at `"@
            + media@ + "`."@),
        (file_name_spec(media@) matches Some(name) && spec_first_dir(class_entries@) matches
            Some(e) && spec_first_video_segment(path_segments(e.path@ + "/device/"@ + name))
            is None) ==> (r matches Err(er) && er matches
            VideoCaptureConnectionError::CouldntGetDeviceInfo { source, err_msg } && err_msg@
            == "No path contained `videoY`... which is weird. All of them should."@),
{
    let name = match file_name_of(media.as_str()) {
        Some(n) => n,
        None => {
            return Err(
                VideoCaptureConnectionError::CouldntGetDeviceInfo {
                    source: user_input.clone(),
                    err_msg: String::from_str("failed to get filename for `videoY` file"),
                },
            );
        },
    };
    let dir_idx = match first_dir_index(class_entries) {
        Some(i) => i,
        None => {
            return Err(
                VideoCaptureConnectionError::CouldntGetDeviceInfo {
                    source: user_input.clone(),
                    err_msg: String::from_str(
                        "No Video4Linux devices appear to own the given `mediaX` file at `",
                    ).concat(media.as_str()).concat("`."),
                },
            );
        },
    };
    let joined = class_entries[dir_idx].path.clone().concat("/device/").concat(name.as_str());
    let segs = split_path_segments(joined.as_str());
    let seg_idx = match first_video_segment_index(&segs) {
        Some(i) => i,
        None => {
            return Err(
                VideoCaptureConnectionError::CouldntGetDeviceInfo {
                    source: user_input.clone(),
                    err_msg: String::from_str(
                        "No path contained `videoY`... which is weird. All of them should.",
                    ),
                },
            );
        },
    };
    Ok(String::from_str("/dev/").concat(segs[seg_idx].as_str()))
}

/// Completes a resolution, in either direction: a source is produced
/// only when both of its nodes exist at resolution time, so a caller
/// holding a `V4LSource` from here knows its pair pointed at live files
/// when it was made. The two existence probes are the caller's.
pub fn confirm_source_nodes(
    user_input: &String,
    media: String,
    video: String,
    media_exists: bool,
    video_exists: bool,
) -> (r: Result<V4LSource, VideoCaptureConnectionError>)
    ensures
        r is Ok <==> media_exists && video_exists,
        r matches Ok(src) ==> src.given@ == user_input@ && src.media@ == media@ && src.video@
            == video@,
        !video_exists ==> (r matches Err(e) && e matches
            VideoCaptureConnectionError::CouldntGetDeviceInfo { source, err_msg } && source@
            == user_input@ && err_msg@ == "The videoY we found (`"@ + video@
            + "`) for the given path does not exist."@),
        video_exists && !media_exists ==> (r matches Err(e) && e matches
            VideoCaptureConnectionError::CouldntGetDeviceInfo { source, err_msg } && source@
            == user_input@ && err_msg@ == "The mediaX we found (`"@ + media@
            + "`) for the given path does not exist."@),
{
    if !video_exists {
        Err(
            VideoCaptureConnectionError::CouldntGetDeviceInfo {
                source: user_input.clone(),
                err_msg: String::from_str("The videoY we found (`").concat(video.as_str())
                    .concat("`) for the given path does not exist."),
            },
        )
    } else if !media_exists {
        Err(
            VideoCaptureConnectionError::CouldntGetDeviceInfo {
                source: user_input.clone(),
                err_msg: String::from_str("The mediaX we found (`").concat(media.as_str())
                    .concat("`) for the given path does not exist."),
            },
        )
    } else {
        Ok(V4LSource { given: user_input.clone(), media, video })
    }
}

/// The sysfs directory whose listing pairs a streaming node with its
/// control node.
pub fn device_dir_for_video(user_input: &String, video: &String) -> (r: Result<
    String,
    VideoCaptureConnectionError,
>)
    ensures
        r is Ok <==> file_name_spec(video@) is Some,
        r matches Ok(d) ==> d@ == "/sys/class/video4linux/"@ + file_name_spec(video@)->Some_0
            + "/device"@,
        r matches Err(e) ==> e matches VideoCaptureConnectionError::CouldntGetDeviceInfo {
            source,
            err_msg,
        } && source@ == user_input@ && err_msg@ == "failed to get filename for `videoY` file"@,
{
    match file_name_of(video.as_str()) {
        Some(n) => Ok(
            String::from_str("/sys/class/video4linux/").concat(n.as_str()).concat("/device"),
        ),
        None => Err(
            VideoCaptureConnectionError::CouldntGetDeviceInfo {
                source: user_input.clone(),
                err_msg: String::from_str("failed to get filename for `videoY` file"),
            },
        ),
    }
}

/// Given a streaming node, derives the control-node path it pairs with
/// from the listing of its `device` directory. The pair still has to
/// pass the existence check of `confirm_source_nodes`.
pub fn pair_control_node(
    user_input: &String,
    device_entries: &Vec<SysDirEntry>,
) -> (r: Result<String, VideoCaptureConnectionError>)
    ensures
        r is Ok <==> spec_media_resolved(device_entries@) is Some,
        r matches Ok(m) ==> Some(m@) == spec_media_resolved(device_entries@),
        r matches Err(e) ==> e matches VideoCaptureConnectionError::CouldntGetDeviceInfo {
            source,
            err_msg,
        } && source@ == user_input@ && err_msg@
            == "didn't find a matching `mediaX` for the `videoY file."@,
{
    let idx = match first_media_index(device_entries) {
        Some(i) => i,
        None => {
            return Err(
                VideoCaptureConnectionError::CouldntGetDeviceInfo {
                    source: user_input.clone(),
                    err_msg: String::from_str(
                        "didn't find a matching `mediaX` for the `videoY file.",
                    ),
                },
            );
        },
    };
    let media = match &device_entries[idx].link_target {
        Some(t) => t.clone(),
        None => device_entries[idx].path.clone(),
    };
    Ok(media)
}

} // verus!
