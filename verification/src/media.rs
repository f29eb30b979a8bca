//! Files inside a resolved torrent: classification into video and subtitle
//! files by extension, subtitle-language detection, and assembly of the
//! resolved-torrent record with its selected main file.
use vstd::prelude::*;

verus! {

use crate::text::{
    chars_vec, contains_chars, contains_seq, dec_str, lower, lower_vec, string_from_chars,
    u64_to_chars, append_chars,
};

/// One video file of a resolved torrent.
pub struct VideoFile {
    pub name: String,
    /// Index of the file within the torrent's file list.
    pub file_idx: usize,
    /// Size in bytes.
    pub size: u64,
    /// Byte-range stream endpoint for this file.
    pub stream_url: String,
}

/// One subtitle file of a resolved torrent.
pub struct SubtitleFile {
    pub name: String,
    pub file_idx: usize,
    /// Two-letter language code detected from the file name, if any.
    pub language: Option<String>,
    pub stream_url: String,
}

/// A candidate successfully added to the transfer engine, with its files
/// classified and a main file selected.
pub struct TorrentInfo {
    /// Engine-assigned identifier.
    pub id: usize,
    pub name: String,
    pub video_files: Vec<VideoFile>,
    /// The selected main file: the largest video file.
    pub selected_file: VideoFile,
    pub subtitle_files: Vec<SubtitleFile>,
}

/// Live transfer statistics for one torrent.
pub struct TorrentStats {
    pub downloaded_bytes: u64,
    pub total_bytes: u64,
    /// Bytes per second.
    pub download_speed: u64,
    /// Bytes per second.
    pub upload_speed: u64,
    pub peers_connected: u32,
}

/// One entry of the engine's file list for a torrent.
pub struct FileEntry {
    pub name: String,
    /// Size in bytes.
    pub length: u64,
}

/// `s` ends with `suffix`.
pub open spec fn ends_with(s: Seq<char>, suffix: Seq<char>) -> bool {
    suffix.len() <= s.len() && s.skip(s.len() - suffix.len()) == suffix
}

/// The ASCII-case-folded name ends with one of the recognised video
/// extensions.
pub open spec fn is_video_name(name: Seq<char>) -> bool {
    ||| ends_with(lower(name), seq!['m', 'p', '4'])
    ||| ends_with(lower(name), seq!['m', 'k', 'v'])
    ||| ends_with(lower(name), seq!['a', 'v', 'i'])
    ||| ends_with(lower(name), seq!['m', 'o', 'v'])
    ||| ends_with(lower(name), seq!['w', 'm', 'v'])
    ||| ends_with(lower(name), seq!['f', 'l', 'v'])
    ||| ends_with(lower(name), seq!['w', 'e', 'b', 'm'])
    ||| ends_with(lower(name), seq!['m', '4', 'v'])
}

/// The ASCII-case-folded name ends with one of the recognised subtitle
/// extensions.
pub open spec fn is_subtitle_name(name: Seq<char>) -> bool {
    ||| ends_with(lower(name), seq!['s', 'r', 't'])
    ||| ends_with(lower(name), seq!['a', 's', 's'])
    ||| ends_with(lower(name), seq!['s', 's', 'a'])
    ||| ends_with(lower(name), seq!['s', 'u', 'b'])
    ||| ends_with(lower(name), seq!['v', 't', 't'])
}

/// Does `s` end with `suffix`?
fn ends_with_exec(s: &Vec<char>, suffix: &Vec<char>) -> (r: bool)
    ensures
        r == ends_with(s@, suffix@),
{
    if suffix.len() > s.len() {
        return false;
    }
    let n = s.len();
    let start = n - suffix.len();
    let mut k: usize = 0;
    while k < suffix.len()
        invariant
            n == s@.len(),
            suffix@.len() <= s@.len(),
            start == s@.len() - suffix@.len(),
            k <= suffix@.len(),
            forall|j: int| 0 <= j < k ==> s@[start + j] == suffix@[j],
        decreases suffix@.len() - k,
    {
        if s[start + k] != suffix[k] {
            proof {
                assert(s@.skip(start as int)[k as int] == s@[start + k]);
            }
            return false;
        }
        k += 1;
    }
    proof {
        assert(s@.skip(start as int) =~= suffix@);
    }
    true
}

/// Is this a video file, by extension?
pub fn is_video_file(filename: &str) -> (r: bool)
    ensures
        r == is_video_name(filename@),
{
    let l = lower_vec(&chars_vec(filename));
    let e1 = vec!['m', 'p', '4'];
    let e2 = vec!['m', 'k', 'v'];
    let e3 = vec!['a', 'v', 'i'];
    let e4 = vec!['m', 'o', 'v'];
    let e5 = vec!['w', 'm', 'v'];
    let e6 = vec!['f', 'l', 'v'];
    let e7 = vec!['w', 'e', 'b', 'm'];
    let e8 = vec!['m', '4', 'v'];
    proof {
        assert(e1@ =~= seq!['m', 'p', '4']);
        assert(e2@ =~= seq!['m', 'k', 'v']);
        assert(e3@ =~= seq!['a', 'v', 'i']);
        assert(e4@ =~= seq!['m', 'o', 'v']);
        assert(e5@ =~= seq!['w', 'm', 'v']);
        assert(e6@ =~= seq!['f', 'l', 'v']);
        assert(e7@ =~= seq!['w', 'e', 'b', 'm']);
        assert(e8@ =~= seq!['m', '4', 'v']);
    }
    ends_with_exec(&l, &e1) || ends_with_exec(&l, &e2) || ends_with_exec(&l, &e3) || ends_with_exec(
        &l,
        &e4,
    ) || ends_with_exec(&l, &e5) || ends_with_exec(&l, &e6) || ends_with_exec(&l, &e7)
        || ends_with_exec(&l, &e8)
}

/// Is this a subtitle file, by extension?
pub fn is_subtitle_file(filename: &str) -> (r: bool)
    ensures
        r == is_subtitle_name(filename@),
{
    let l = lower_vec(&chars_vec(filename));
    let e1 = vec!['s', 'r', 't'];
    let e2 = vec!['a', 's', 's'];
    let e3 = vec!['s', 's', 'a'];
    let e4 = vec!['s', 'u', 'b'];
    let e5 = vec!['v', 't', 't'];
    proof {
        assert(e1@ =~= seq!['s', 'r', 't']);
        assert(e2@ =~= seq!['a', 's', 's']);
        assert(e3@ =~= seq!['s', 's', 'a']);
        assert(e4@ =~= seq!['s', 'u', 'b']);
        assert(e5@ =~= seq!['v', 't', 't']);
    }
    ends_with_exec(&l, &e1) || ends_with_exec(&l, &e2) || ends_with_exec(&l, &e3) || ends_with_exec(
        &l,
        &e4,
    ) || ends_with_exec(&l, &e5)
}

/// The language code detected in a subtitle file name: the first entry of a
/// fixed table of language names, abbreviations and dot-delimited codes that
/// occurs in the ASCII-case-folded name.
pub open spec fn subtitle_language(name: Seq<char>) -> Option<Seq<char>> {
    let l = lower(name);
    if contains_seq(l, "english"@) {
        Some("en"@)
    } else if contains_seq(l, "eng"@) {
        Some("en"@)
    } else if contains_seq(l, ".en."@) {
        Some("en"@)
    } else if contains_seq(l, "spanish"@) {
        Some("es"@)
    } else if contains_seq(l, "esp"@) {
        Some("es"@)
    } else if contains_seq(l, ".es."@) {
        Some("es"@)
    } else if contains_seq(l, "french"@) {
        Some("fr"@)
    } else if contains_seq(l, "fre"@) {
        Some("fr"@)
    } else if contains_seq(l, ".fr."@) {
        Some("fr"@)
    } else if contains_seq(l, "german"@) {
        Some("de"@)
    } else if contains_seq(l, "ger"@) {
        Some("de"@)
    } else if contains_seq(l, ".de."@) {
        Some("de"@)
    } else if contains_seq(l, "italian"@) {
        Some("it"@)
    } else if contains_seq(l, "ita"@) {
        Some("it"@)
    } else if contains_seq(l, ".it."@) {
        Some("it"@)
    } else if contains_seq(l, "portuguese"@) {
        Some("pt"@)
    } else if contains_seq(l, "por"@) {
        Some("pt"@)
    } else if contains_seq(l, ".pt."@) {
        Some("pt"@)
    } else if contains_seq(l, "russian"@) {
        Some("ru"@)
    } else if contains_seq(l, "rus"@) {
        Some("ru"@)
    } else if contains_seq(l, ".ru."@) {
        Some("ru"@)
    } else if contains_seq(l, "japanese"@) {
        Some("ja"@)
    } else if contains_seq(l, "jpn"@) {
        Some("ja"@)
    } else if contains_seq(l, ".ja."@) {
        Some("ja"@)
    } else if contains_seq(l, "korean"@) {
        Some("ko"@)
    } else if contains_seq(l, "kor"@) {
        Some("ko"@)
    } else if contains_seq(l, ".ko."@) {
        Some("ko"@)
    } else if contains_seq(l, "chinese"@) {
        Some("zh"@)
    } else if contains_seq(l, "chi"@) {
        Some("zh"@)
    } else if contains_seq(l, ".zh."@) {
        Some("zh"@)
    } else if contains_seq(l, "dutch"@) {
        Some("nl"@)
    } else if contains_seq(l, "dut"@) {
        Some("nl"@)
    } else if contains_seq(l, ".nl."@) {
        Some("nl"@)
    } else if contains_seq(l, "swedish"@) {
        Some("sv"@)
    } else if contains_seq(l, "swe"@) {
        Some("sv"@)
    } else if contains_seq(l, ".sv."@) {
        Some("sv"@)
    } else if contains_seq(l, "arabic"@) {
        Some("ar"@)
    } else if contains_seq(l, "ara"@) {
        Some("ar"@)
    } else if contains_seq(l, ".ar."@) {
        Some("ar"@)
    } else {
        None
    }
}

/// Detect a subtitle language from the file name, e.g. `"Movie.eng.srt"`
/// yields the code for English.
pub fn extract_subtitle_language(filename: &str) -> (r: Option<String>)
    ensures
        match r {
            Some(code) => subtitle_language(filename@) == Some(code@),
            None => subtitle_language(filename@) is None,
        },
{
    let l = lower_vec(&chars_vec(filename));
    if contains_chars(&l, &chars_vec("english")) {
        return Some(String::from_str("en"));
    }
    if contains_chars(&l, &chars_vec("eng")) {
        return Some(String::from_str("en"));
    }
    if contains_chars(&l, &chars_vec(".en.")) {
        return Some(String::from_str("en"));
    }
    if contains_chars(&l, &chars_vec("spanish")) {
        return Some(String::from_str("es"));
    }
    if contains_chars(&l, &chars_vec("esp")) {
        return Some(String::from_str("es"));
    }
    if contains_chars(&l, &chars_vec(".es.")) {
        return Some(String::from_str("es"));
    }
    if contains_chars(&l, &chars_vec("french")) {
        return Some(String::from_str("fr"));
    }
    if contains_chars(&l, &chars_vec("fre")) {
        return Some(String::from_str("fr"));
    }
    if contains_chars(&l, &chars_vec(".fr.")) {
        return Some(String::from_str("fr"));
    }
    if contains_chars(&l, &chars_vec("german")) {
        return Some(String::from_str("de"));
    }
    if contains_chars(&l, &chars_vec("ger")) {
        return Some(String::from_str("de"));
    }
    if contains_chars(&l, &chars_vec(".de.")) {
        return Some(String::from_str("de"));
    }
    if contains_chars(&l, &chars_vec("italian")) {
        return Some(String::from_str("it"));
    }
    if contains_chars(&l, &chars_vec("ita")) {
        return Some(String::from_str("it"));
    }
    if contains_chars(&l, &chars_vec(".it.")) {
        return Some(String::from_str("it"));
    }
    if contains_chars(&l, &chars_vec("portuguese")) {
        return Some(String::from_str("pt"));
    }
    if contains_chars(&l, &chars_vec("por")) {
        return Some(String::from_str("pt"));
    }
    if contains_chars(&l, &chars_vec(".pt.")) {
        return Some(String::from_str("pt"));
    }
    if contains_chars(&l, &chars_vec("russian")) {
        return Some(String::from_str("ru"));
    }
    if contains_chars(&l, &chars_vec("rus")) {
        return Some(String::from_str("ru"));
    }
    if contains_chars(&l, &chars_vec(".ru.")) {
        return Some(String::from_str("ru"));
    }
    if contains_chars(&l, &chars_vec("japanese")) {
        return Some(String::from_str("ja"));
    }
    if contains_chars(&l, &chars_vec("jpn")) {
        return Some(String::from_str("ja"));
    }
    if contains_chars(&l, &chars_vec(".ja.")) {
        return Some(String::from_str("ja"));
    }
    if contains_chars(&l, &chars_vec("korean")) {
        return Some(String::from_str("ko"));
    }
    if contains_chars(&l, &chars_vec("kor")) {
        return Some(String::from_str("ko"));
    }
    if contains_chars(&l, &chars_vec(".ko.")) {
        return Some(String::from_str("ko"));
    }
    if contains_chars(&l, &chars_vec("chinese")) {
        return Some(String::from_str("zh"));
    }
    if contains_chars(&l, &chars_vec("chi")) {
        return Some(String::from_str("zh"));
    }
    if contains_chars(&l, &chars_vec(".zh.")) {
        return Some(String::from_str("zh"));
    }
    if contains_chars(&l, &chars_vec("dutch")) {
        return Some(String::from_str("nl"));
    }
    if contains_chars(&l, &chars_vec("dut")) {
        return Some(String::from_str("nl"));
    }
    if contains_chars(&l, &chars_vec(".nl.")) {
        return Some(String::from_str("nl"));
    }
    if contains_chars(&l, &chars_vec("swedish")) {
        return Some(String::from_str("sv"));
    }
    if contains_chars(&l, &chars_vec("swe")) {
        return Some(String::from_str("sv"));
    }
    if contains_chars(&l, &chars_vec(".sv.")) {
        return Some(String::from_str("sv"));
    }
    if contains_chars(&l, &chars_vec("arabic")) {
        return Some(String::from_str("ar"));
    }
    if contains_chars(&l, &chars_vec("ara")) {
        return Some(String::from_str("ar"));
    }
    if contains_chars(&l, &chars_vec(".ar.")) {
        return Some(String::from_str("ar"));
    }
    None
}

/// A failure while setting up or driving a streaming session.
#[derive(Debug)]
pub enum StreamError {
    /// The transfer-engine session could not be created.
    SessionError(String),
    /// A candidate could not be added or resolved.
    TorrentError(String),
    /// Metadata resolved but the release holds no playable video file.
    NoVideoFiles,
    /// The player executable could not be launched: command, then cause.
    PlayerError(String, String),
    /// An HTTP redirect led to a magnet URI; resolution restarts with it.
    MagnetRedirect(String),
    /// The torrent has no active peers.
    NoPeers,
    /// No file metadata arrived within the ceiling; the source is likely dead.
    MetadataTimeout,
}

/// The stream endpoint for file `idx` of torrent `id` on the engine at `base`.
pub open spec fn stream_url_of(base: Seq<char>, id: nat, idx: nat) -> Seq<char> {
    base + "/torrents/"@ + dec_str(id) + "/stream/"@ + dec_str(idx)
}

/// Build the stream endpoint for one file.
pub fn build_stream_url(base: &str, id: usize, idx: usize) -> (r: String)
    ensures
        r@ == stream_url_of(base@, id as nat, idx as nat),
{
    let mut v = chars_vec(base);
    append_chars(&mut v, &chars_vec("/torrents/"));
    append_chars(&mut v, &u64_to_chars(id as u64));
    append_chars(&mut v, &chars_vec("/stream/"));
    append_chars(&mut v, &u64_to_chars(idx as u64));
    string_from_chars(&v)
}

/// The field values of a video-file list, for stating what a list holds:
/// name, index, size, stream endpoint.
pub open spec fn video_views(vs: Seq<VideoFile>) -> Seq<(Seq<char>, int, int, Seq<char>)> {
    Seq::new(vs.len(), |i: int| (vs[i].name@, vs[i].file_idx as int, vs[i].size as int, vs[i].stream_url@))
}

/// The field values of a subtitle-file list: name, index, detected language,
/// stream endpoint.
pub open spec fn subtitle_views(vs: Seq<SubtitleFile>) -> Seq<
    (Seq<char>, int, Option<Seq<char>>, Seq<char>),
> {
    Seq::new(
        vs.len(),
        |i: int|
            (
                vs[i].name@,
                vs[i].file_idx as int,
                match vs[i].language {
                    Some(ref l) => Some(l@),
                    None => None,
                },
                vs[i].stream_url@,
            ),
    )
}

/// The video entries among `files[i..]`, each with its original index, size
/// and stream endpoint.
pub open spec fn video_entries(files: Seq<FileEntry>, base: Seq<char>, id: nat, i: int) -> Seq<
    (Seq<char>, int, int, Seq<char>),
>
    decreases files.len() - i,
{
    if i < 0 || i >= files.len() {
        seq![]
    } else {
        let rest = video_entries(files, base, id, i + 1);
        if is_video_name(files[i].name@) {
            seq![
                (files[i].name@, i, files[i].length as int, stream_url_of(base, id, i as nat)),
            ] + rest
        } else {
            rest
        }
    }
}

/// The subtitle entries among `files[i..]`, each with its original index,
/// detected language and stream endpoint.
pub open spec fn subtitle_entries(files: Seq<FileEntry>, base: Seq<char>, id: nat, i: int) -> Seq<
    (Seq<char>, int, Option<Seq<char>>, Seq<char>),
>
    decreases files.len() - i,
{
    if i < 0 || i >= files.len() {
        seq![]
    } else {
        let rest = subtitle_entries(files, base, id, i + 1);
        if is_subtitle_name(files[i].name@) {
            seq![
                (
                    files[i].name@,
                    i,
                    subtitle_language(files[i].name@),
                    stream_url_of(base, id, i as nat),
                ),
            ] + rest
        } else {
            rest
        }
    }
}

/// Classify a torrent's file list into video and subtitle files, and select
/// the largest video file as the main content. Fails with `NoVideoFiles`
/// exactly when no file has a video extension.
pub fn classify_files(id: usize, torrent_name: String, files: &Vec<FileEntry>, base: &str) -> (r:
    Result<TorrentInfo, StreamError>)
    ensures
        match r {
            Ok(info) => {
                &&& exists|i: int| 0 <= i < files@.len() && is_video_name(#[trigger] files@[i].name@)
                &&& info.id == id
                &&& info.name@ == torrent_name@
                &&& video_views(info.video_files@) == video_entries(files@, base@, id as nat, 0)
                &&& subtitle_views(info.subtitle_files@) == subtitle_entries(
                    files@,
                    base@,
                    id as nat,
                    0,
                )
                &&& exists|j: int|
                    {
                        &&& 0 <= j < info.video_files@.len()
                        &&& (
                        info.selected_file.name@,
                        info.selected_file.file_idx as int,
                        info.selected_file.size as int,
                        info.selected_file.stream_url@,
                        ) == video_views(info.video_files@)[j]
                        &&& forall|k: int|
                            0 <= k < info.video_files@.len()
                                ==> (#[trigger] info.video_files@[k]).size
                                <= info.video_files@[j].size
                        &&& forall|k: int|
                            j < k < info.video_files@.len()
                                ==> (#[trigger] info.video_files@[k]).size
                                < info.video_files@[j].size
                    }
            },
            Err(e) => {
                &&& e is NoVideoFiles
                &&& forall|i: int|
                    0 <= i < files@.len() ==> !is_video_name(#[trigger] files@[i].name@)
            },
        },
{
    let n = files.len();
    let mut videos: Vec<VideoFile> = Vec::new();
    let mut subs: Vec<SubtitleFile> = Vec::new();
    let mut i: usize = 0;
    proof {
        assert(video_views(videos@) + video_entries(files@, base@, id as nat, 0) =~= video_entries(
            files@,
            base@,
            id as nat,
            0,
        ));
        assert(subtitle_views(subs@) + subtitle_entries(files@, base@, id as nat, 0)
            =~= subtitle_entries(files@, base@, id as nat, 0));
    }
    while i < n
        invariant
            n == files@.len(),
            i <= n,
            video_entries(files@, base@, id as nat, 0) == video_views(videos@) + video_entries(
                files@,
                base@,
                id as nat,
                i as int,
            ),
            subtitle_entries(files@, base@, id as nat, 0) == subtitle_views(subs@)
                + subtitle_entries(files@, base@, id as nat, i as int),
            (exists|k: int| 0 <= k < i && is_video_name(#[trigger] files@[k].name@)) <==> videos@.len() > 0,
        decreases n - i,
    {
        let entry_name = files[i].name.as_str();
        if is_video_file(entry_name) {
            let vf = VideoFile {
                name: String::from_str(entry_name),
                file_idx: i,
                size: files[i].length,
                stream_url: build_stream_url(base, id, i),
            };
            videos.push(vf);
            proof {
                assert(video_views(videos@) =~= video_views(videos@.drop_last()).push(
                    (
                        files@[i as int].name@,
                        i as int,
                        files@[i as int].length as int,
                        stream_url_of(base@, id as nat, i as nat),
                    ),
                ));
                assert(video_views(videos@.drop_last()).push(
                    (
                        files@[i as int].name@,
                        i as int,
                        files@[i as int].length as int,
                        stream_url_of(base@, id as nat, i as nat),
                    ),
                ) + video_entries(files@, base@, id as nat, i + 1) =~= video_views(
                    videos@.drop_last(),
                ) + video_entries(files@, base@, id as nat, i as int));
            }
        } else if is_subtitle_file(entry_name) {
            let sf = SubtitleFile {
                name: String::from_str(entry_name),
                file_idx: i,
                language: extract_subtitle_language(entry_name),
                stream_url: build_stream_url(base, id, i),
            };
            subs.push(sf);
            proof {
                assert(subtitle_views(subs@) =~= subtitle_views(subs@.drop_last()).push(
                    (
                        files@[i as int].name@,
                        i as int,
                        subtitle_language(files@[i as int].name@),
                        stream_url_of(base@, id as nat, i as nat),
                    ),
                ));
                assert(subtitle_views(subs@.drop_last()).push(
                    (
                        files@[i as int].name@,
                        i as int,
                        subtitle_language(files@[i as int].name@),
                        stream_url_of(base@, id as nat, i as nat),
                    ),
                ) + subtitle_entries(files@, base@, id as nat, i + 1) =~= subtitle_views(
                    subs@.drop_last(),
                ) + subtitle_entries(files@, base@, id as nat, i as int));
            }
        }
        i += 1;
    }
    proof {
        assert(video_entries(files@, base@, id as nat, n as int) =~= Seq::<
            (Seq<char>, int, int, Seq<char>),
        >::empty());
        assert(video_views(videos@) + video_entries(files@, base@, id as nat, n as int)
            =~= video_views(videos@));
        assert(subtitle_entries(files@, base@, id as nat, n as int) =~= Seq::<
            (Seq<char>, int, Option<Seq<char>>, Seq<char>),
        >::empty());
        assert(subtitle_views(subs@) + subtitle_entries(files@, base@, id as nat, n as int)
            =~= subtitle_views(subs@));
    }
    if videos.len() == 0 {
        return Err(StreamError::NoVideoFiles);
    }
    // the last file of maximal size is the selected main content
    let mut best: usize = 0;
    let mut k: usize = 1;
    while k < videos.len()
        invariant
            videos@.len() > 0,
            best < k <= videos@.len(),
            forall|m: int| 0 <= m < k ==> (#[trigger] videos@[m]).size <= videos@[best as int].size,
            forall|m: int| best < m < k ==> (#[trigger] videos@[m]).size < videos@[best as int].size,
        decreases videos@.len() - k,
    {
        if videos[k].size >= videos[best].size {
            best = k;
        }
        k += 1;
    }
    let selected_file = VideoFile {
        name: videos[best].name.clone(),
        file_idx: videos[best].file_idx,
        size: videos[best].size,
        stream_url: videos[best].stream_url.clone(),
    };
    proof {
        assert((
            selected_file.name@,
            selected_file.file_idx as int,
            selected_file.size as int,
            selected_file.stream_url@,
        ) == video_views(videos@)[best as int]);
    }
    let info = TorrentInfo {
        id,
        name: torrent_name,
        video_files: videos,
        selected_file,
        subtitle_files: subs,
    };
    proof {
        assert({
            &&& 0 <= best < info.video_files@.len()
            &&& (
            info.selected_file.name@,
            info.selected_file.file_idx as int,
            info.selected_file.size as int,
            info.selected_file.stream_url@,
            ) == video_views(info.video_files@)[best as int]
            &&& forall|k: int|
                0 <= k < info.video_files@.len() ==> (#[trigger] info.video_files@[k]).size
                    <= info.video_files@[best as int].size
            &&& forall|k: int|
                best < k < info.video_files@.len() ==> (#[trigger] info.video_files@[k]).size
                    < info.video_files@[best as int].size
        });
    }
    Ok(info)
}

/// Subtitle `k` carries exactly the preferred language.
pub open spec fn has_language(subs: Seq<SubtitleFile>, k: int, preferred: Seq<char>) -> bool {
    0 <= k < subs.len() && match subs[k].language {
        Some(ref l) => l@ == preferred,
        None => false,
    }
}

/// Choose the subtitle to hand to the player: the first one in the preferred
/// language, else the first subtitle at all, else none.
pub fn select_subtitle(subs: &Vec<SubtitleFile>, preferred: &str) -> (r: Option<usize>)
    ensures
        match r {
            Some(i) => {
                &&& 0 <= i < subs@.len()
                &&& if exists|k: int| has_language(subs@, k, preferred@) {
                    has_language(subs@, i as int, preferred@) && forall|k: int|
                        0 <= k < i ==> !has_language(subs@, k, preferred@)
                } else {
                    i == 0
                }
            },
            None => subs@.len() == 0,
        },
{
    let pv = crate::text::chars_vec(preferred);
    let mut i: usize = 0;
    while i < subs.len()
        invariant
            i <= subs@.len(),
            pv@ == preferred@,
            forall|k: int| 0 <= k < i ==> !has_language(subs@, k, preferred@),
        decreases subs@.len() - i,
    {
        match &subs[i].language {
            Some(l) => {
                let lv = crate::text::chars_vec(l.as_str());
                if crate::text::chars_eq(&lv, &pv) {
                    proof {
                        assert(has_language(subs@, i as int, preferred@));
                    }
                    return Some(i);
                }
                proof {
                    assert(!has_language(subs@, i as int, preferred@));
                }
            },
            None => {
                proof {
                    assert(!has_language(subs@, i as int, preferred@));
                }
            },
        }
        i += 1;
    }
    if subs.len() > 0 {
        proof {
            assert(forall|k: int| !has_language(subs@, k, preferred@));
        }
        Some(0)
    } else {
        None
    }
}

/// How long to wait between metadata polls of the engine.
pub const METADATA_POLL_INTERVAL_SECS: u64 = 2;

/// How long to keep polling before a source is declared dead.
pub const METADATA_TIMEOUT_SECS: u64 = 120;

/// What a metadata poll should do next.
pub enum PollStep {
    /// The ceiling has elapsed: fail with `MetadataTimeout`.
    Timeout,
    /// The file list is known: classify it.
    Ready,
    /// Nothing yet: sleep one interval and poll again.
    Wait,
}

/// The polling policy for torrent metadata: give up after the ceiling,
/// proceed once any file entry is known, otherwise keep waiting.
pub fn metadata_poll_step(elapsed_secs: u64, files_seen: usize) -> (r: PollStep)
    ensures
        r is Timeout <==> elapsed_secs > METADATA_TIMEOUT_SECS,
        r is Ready <==> (elapsed_secs <= METADATA_TIMEOUT_SECS && files_seen > 0),
        r is Wait <==> (elapsed_secs <= METADATA_TIMEOUT_SECS && files_seen == 0),
{
    if elapsed_secs > METADATA_TIMEOUT_SECS {
        PollStep::Timeout
    } else if files_seen > 0 {
        PollStep::Ready
    } else {
        PollStep::Wait
    }
}

} // verus!
