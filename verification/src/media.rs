//! The image and video services: where uploads are stored, how an upload is
//! driven through its steps (with the format and size checks of its parts),
//! the URLs under which stored files are served, and their deletion.

use vstd::prelude::*;
use crate::text::{decimal, decimal_i32, lemma_prefixed_decimal_injective};

verus! {

/// The two kinds of media a game has.
#[derive(Debug, Clone, Copy, PartialEq, Eq, Structural)]
pub enum MediaKind {
    Image,
    Video,
}

/// The directory that holds the uploads of one kind for a game.
pub open spec fn upload_dir(kind: MediaKind, game_id: int) -> Seq<char> {
    match kind {
        MediaKind::Image => "/app/uploads/"@ + decimal(game_id),
        MediaKind::Video => "/app/video/"@ + decimal(game_id),
    }
}

/// Different games have different upload directories.
pub proof fn law_distinct_games_distinct_dirs(kind: MediaKind, a: int, b: int)
    requires
        a != b,
    ensures
        upload_dir(kind, a) != upload_dir(kind, b),
{
    if upload_dir(kind, a) == upload_dir(kind, b) {
        match kind {
            MediaKind::Image => lemma_prefixed_decimal_injective("/app/uploads/"@, a, b),
            MediaKind::Video => lemma_prefixed_decimal_injective("/app/video/"@, a, b),
        }
    }
}

/// The name under which a part without a file name is stored.
pub open spec fn fallback_name(kind: MediaKind) -> Seq<char> {
    match kind {
        MediaKind::Image => "file"@,
        MediaKind::Video => "video.mp4"@,
    }
}

/// The path that stores an uploaded part: its file name (or the fallback)
/// inside the game's upload directory.
pub open spec fn stored_path(kind: MediaKind, game_id: int, file_name: Option<Seq<char>>) -> Seq<char> {
    upload_dir(kind, game_id) + "/"@ + match file_name {
        Some(n) => n,
        None => fallback_name(kind),
    }
}

/// The directory that holds the uploads of one kind for a game.
pub fn media_dir(kind: MediaKind, game_id: i32) -> (d: String)
    ensures
        d@ == upload_dir(kind, game_id as int),
{
    let mut d = match kind {
        MediaKind::Image => String::from_str("/app/uploads/"),
        MediaKind::Video => String::from_str("/app/video/"),
    };
    d.append(decimal_i32(game_id).as_str());
    d
}

/// The path that stores an uploaded part named `file_name` (if it has a name).
pub fn media_file_path(kind: MediaKind, game_id: i32, file_name: Option<&str>) -> (p: String)
    ensures
        p@ == stored_path(kind, game_id as int, match file_name {
            Some(n) => Some(n@),
            None => None,
        }),
{
    let mut p = media_dir(kind, game_id);
    p.append("/");
    match file_name {
        Some(n) => p.append(n),
        None => match kind {
            MediaKind::Image => p.append("file"),
            MediaKind::Video => p.append("video.mp4"),
        },
    }
    p
}

/// The URL under which the stored file `name` of a game is served.
pub open spec fn media_url_of(kind: MediaKind, game_id: int, name: Seq<char>) -> Seq<char> {
    media_url_base(kind, game_id) + name
}

/// The common beginning of the URLs of a game's stored files of one kind.
pub open spec fn media_url_base(kind: MediaKind, game_id: int) -> Seq<char> {
    match kind {
        MediaKind::Image => "http://localhost:8003/image/"@ + decimal(game_id) + "/"@,
        MediaKind::Video => "http://localhost:8004/video/"@ + decimal(game_id) + "/"@,
    }
}

/// The URLs of a game's stored files for the entries of its directory, in
/// directory order; an entry whose name is not valid UTF-8 (`None`) is skipped.
pub open spec fn media_listing(kind: MediaKind, game_id: int, names: Seq<Option<Seq<char>>>) -> Seq<Seq<char>>
    decreases names.len(),
{
    if names.len() == 0 {
        Seq::empty()
    } else {
        let rest = media_listing(kind, game_id, names.drop_last());
        match names.last() {
            Some(n) => rest.push(media_url_of(kind, game_id, n)),
            None => rest,
        }
    }
}

/// The URL under which the stored file `name` of a game is served.
pub fn media_url(kind: MediaKind, game_id: i32, name: &str) -> (u: String)
    ensures
        u@ == media_url_of(kind, game_id as int, name@),
{
    let mut u = match kind {
        MediaKind::Image => String::from_str("http://localhost:8003/image/"),
        MediaKind::Video => String::from_str("http://localhost:8004/video/"),
    };
    u.append(decimal_i32(game_id).as_str());
    u.append("/");
    u.append(name);
    u
}

/// The URLs of a game's stored files for the names of the entries of its directory.
pub fn media_urls(kind: MediaKind, game_id: i32, names: &Vec<Option<String>>) -> (urls: Vec<String>)
    ensures
        urls.deep_view() == media_listing(kind, game_id as int, names.deep_view()),
{
    let ghost views = names.deep_view();
    let mut urls: Vec<String> = Vec::new();
    let mut i: usize = 0;
    while i < names.len()
        invariant
            views == names.deep_view(),
            i <= names.len(),
            urls.deep_view() == media_listing(kind, game_id as int, views.take(i as int)),
        decreases names.len() - i,
    {
        proof {
            assert(views.take(i + 1).drop_last() =~= views.take(i as int));
            assert(views.take(i + 1).last() == views[i as int]);
        }
        match &names[i] {
            Some(n) => {
                let u = media_url(kind, game_id, n.as_str());
                urls.push(u);
                proof {
                    assert(urls.deep_view() =~= media_listing(kind, game_id as int, views.take(i as int)).push(media_url_of(kind, game_id as int, n@)));
                }
            },
            None => {},
        }
        i = i + 1;
    }
    assert(views.take(names.len() as int) =~= views);
    urls
}

/// Every listed URL is under the game's directory of that kind, and there
/// are no more URLs than directory entries.
pub proof fn law_media_urls_stay_in_game_dir(kind: MediaKind, game_id: int, names: Seq<Option<Seq<char>>>)
    ensures
        media_listing(kind, game_id, names).len() <= names.len(),
        forall|k: int| 0 <= k < media_listing(kind, game_id, names).len() ==> {
            let base = media_url_base(kind, game_id);
            let u = #[trigger] media_listing(kind, game_id, names)[k];
            u.len() >= base.len() && u.take(base.len() as int) == base
        },
    decreases names.len(),
{
    if names.len() > 0 {
        law_media_urls_stay_in_game_dir(kind, game_id, names.drop_last());
        let base = media_url_base(kind, game_id);
        let rest = media_listing(kind, game_id, names.drop_last());
        match names.last() {
            Some(n) => {
                let u = media_url_of(kind, game_id, n);
                assert(u.take(base.len() as int) =~= base);
                assert forall|k: int| 0 <= k < rest.push(u).len() implies {
                    let w = #[trigger] rest.push(u)[k];
                    w.len() >= base.len() && w.take(base.len() as int) == base
                } by {
                    if k < rest.len() {
                        assert(rest.push(u)[k] == rest[k]);
                    }
                }
            },
            None => {},
        }
    }
}

/// What became of removing a game's directory of one kind.
#[derive(Debug, Clone, Copy, PartialEq, Eq, Structural)]
pub enum RemoveOutcome {
    Removed,
    /// There was nothing to remove.
    Missing,
    Failed,
}

/// The status that deleting a game's media is answered with: 204 when the
/// directory is gone (or never existed), 500 when removing it failed.
pub fn delete_status(outcome: RemoveOutcome) -> (s: u16)
    ensures
        s == (if outcome == RemoveOutcome::Failed { 500u16 } else { 204u16 }),
{
    match outcome {
        RemoveOutcome::Failed => 500,
        _ => 204,
    }
}

/// The largest image part that is stored, in bytes (10 MiB).
pub const IMAGE_SIZE_LIMIT: u64 = 10 * 1024 * 1024;

/// The largest video part that is stored, in bytes (500 MiB).
pub const VIDEO_SIZE_LIMIT: u64 = 500 * 1024 * 1024;

/// The largest part of a kind that is stored, in bytes.
pub open spec fn size_limit(kind: MediaKind) -> u64 {
    match kind {
        MediaKind::Image => IMAGE_SIZE_LIMIT,
        MediaKind::Video => VIDEO_SIZE_LIMIT,
    }
}

/// `k` is the position of the last `.` of `name`.
pub open spec fn is_last_dot(name: Seq<char>, k: int) -> bool {
    &&& 0 <= k < name.len()
    &&& name[k] == '.'
    &&& forall|j: int| k < j < name.len() ==> name[j] != '.'
}

/// The extension of a file name: what follows its last `.`, or nothing when
/// it has no `.`.
pub open spec fn extension(name: Seq<char>) -> Seq<char> {
    if exists|k: int| is_last_dot(name, k) {
        name.skip((choose|k: int| is_last_dot(name, k)) + 1)
    } else {
        Seq::empty()
    }
}

/// `c` equals the lower-case `lower` up to ASCII case.
pub open spec fn same_letter(c: char, lower: char) -> bool {
    c == lower || (65 <= c as u32 <= 90 && c as u32 + 32 == lower as u32)
}

/// `s` equals the lower-case `lower` up to ASCII case.
pub open spec fn same_ignoring_case(s: Seq<char>, lower: Seq<char>) -> bool {
    s.len() == lower.len() && forall|i: int| 0 <= i < s.len() ==> same_letter(#[trigger] s[i], lower[i])
}

/// The formats that are stored: images as PNG, JPEG, GIF or WebP, videos as
/// MP4, WebM or QuickTime, told by the file name's extension in any case.
pub open spec fn format_allowed(kind: MediaKind, name: Seq<char>) -> bool {
    let ext = extension(name);
    match kind {
        MediaKind::Image => same_ignoring_case(ext, "png"@) || same_ignoring_case(ext, "jpg"@)
            || same_ignoring_case(ext, "jpeg"@) || same_ignoring_case(ext, "gif"@) || same_ignoring_case(ext, "webp"@),
        MediaKind::Video => same_ignoring_case(ext, "mp4"@) || same_ignoring_case(ext, "webm"@)
            || same_ignoring_case(ext, "mov"@),
    }
}

/// The name under which a part is stored: its file name or the fallback.
pub open spec fn effective_name(kind: MediaKind, file_name: Option<Seq<char>>) -> Seq<char> {
    match file_name {
        Some(n) => n,
        None => fallback_name(kind),
    }
}

proof fn lemma_last_dot_unique(name: Seq<char>, a: int, b: int)
    requires
        is_last_dot(name, a),
        is_last_dot(name, b),
    ensures
        a == b,
{
    if a < b {
        assert(name[b] != '.');
    } else if b < a {
        assert(name[a] != '.');
    }
}

/// Whether the extension of `name` is `lower` up to ASCII case.
fn has_extension(name: &str, lower: &str) -> (r: bool)
    ensures
        r == same_ignoring_case(extension(name@), lower@),
{
    let n: usize = name.unicode_len();
    let mut k: usize = n;
    while k > 0 && name.get_char(k - 1) != '.'
        invariant
            n == name@.len(),
            k <= n,
            forall|j: int| k <= j < n ==> name@[j] != '.',
        decreases k,
    {
        k = k - 1;
    }
    if k == 0 {
        proof {
            if exists|d: int| is_last_dot(name@, d) {
                let d = choose|d: int| is_last_dot(name@, d);
                assert(name@[d] != '.');
            }
        }
        let m: usize = lower.unicode_len();
        assert(extension(name@) =~= Seq::<char>::empty());
        return m == 0;
    }
    let dot: usize = k - 1;
    proof {
        assert(is_last_dot(name@, dot as int));
        let d = choose|d: int| is_last_dot(name@, d);
        lemma_last_dot_unique(name@, d, dot as int);
        assert(extension(name@) == name@.skip(dot + 1));
    }
    let ext_len: usize = n - k;
    let m: usize = lower.unicode_len();
    if ext_len != m {
        return false;
    }
    let mut i: usize = 0;
    while i < m
        invariant
            n == name@.len(),
            m == lower@.len(),
            k + m == n,
            extension(name@) == name@.skip(k as int),
            i <= m,
            forall|j: int| 0 <= j < i ==> same_letter(#[trigger] extension(name@)[j], lower@[j]),
        decreases m - i,
    {
        let c = name.get_char(k + i);
        let l = lower.get_char(i);
        let cv: u32 = c as u32;
        let lv: u32 = l as u32;
        if !(c == l || (65 <= cv && cv <= 90 && cv + 32 == lv)) {
            assert(!same_letter(extension(name@)[i as int], lower@[i as int]));
            return false;
        }
        i = i + 1;
    }
    true
}

/// Whether a part with this name is of a format that is stored.
pub fn format_ok(kind: MediaKind, name: &str) -> (r: bool)
    ensures
        r == format_allowed(kind, name@),
{
    match kind {
        MediaKind::Image => has_extension(name, "png") || has_extension(name, "jpg") || has_extension(name, "jpeg")
            || has_extension(name, "gif") || has_extension(name, "webp"),
        MediaKind::Video => has_extension(name, "mp4") || has_extension(name, "webm") || has_extension(name, "mov"),
    }
}

/// Where an upload stands.
#[derive(Debug, Clone, Copy, PartialEq, Eq, Structural)]
pub enum UploadStage {
    /// Waiting for the game's directory to be created.
    AwaitDir,
    /// Waiting for the next part of the multipart body.
    AwaitPart,
    /// Waiting for the part's file to be created (videos).
    AwaitFile,
    /// Waiting for the next chunk of the part (videos).
    AwaitChunk,
    /// Waiting for a chunk to be written (videos).
    AwaitWrite,
    /// Waiting for an oversized part's file to be removed (videos).
    AwaitRemove,
    /// Waiting for a whole part to be read (images).
    AwaitPartBody,
    /// Waiting for a whole part to be stored (images).
    AwaitStore,
    /// The request has been answered.
    Done,
}

/// What the service observed after the last action.
pub enum UploadEvent {
    /// The directory was created (or already existed), or creating it failed.
    DirCreated(bool),
    /// The multipart body failed to yield a part.
    PartFailed,
    /// The multipart body has no more parts.
    PartsFinished,
    /// A part arrived, with its file name if it has one.
    Part(Option<String>),
    /// The whole part was read; it has this many bytes (images).
    PartRead(u64),
    /// The whole part was stored (images).
    Stored,
    /// The part's file was created, or creating it failed.
    FileCreated(bool),
    /// Reading the next chunk of the part failed.
    ChunkFailed,
    /// The part has no more chunks.
    ChunksFinished,
    /// A chunk of this many bytes arrived.
    Chunk(u64),
    /// The chunk was written, or writing it failed.
    ChunkWritten(bool),
    /// The file of an oversized part was removed (or removing it was tried).
    FileRemoved,
}

/// What the service does next.
pub enum UploadAction {
    /// Create this directory and its parents.
    CreateDir(String),
    /// Ask the multipart body for its next part.
    NextPart,
    /// Create (or truncate) the file at this path for the part's chunks.
    CreateFile(String),
    /// Ask the part for its next chunk.
    NextChunk,
    /// Write the chunk to the file.
    WriteChunk,
    /// Remove the file at this path: its part is too large.
    RemoveFile(String),
    /// Read the whole part into memory.
    ReadPart,
    /// Store the part that was read at this path.
    StorePart(String),
    /// Answer the request with this status.
    Respond(u16),
}

/// An upload of media for one game.
pub struct Upload {
    pub kind: MediaKind,
    pub game_id: i32,
    pub stage: UploadStage,
    /// The path of the part under way.
    pub path: String,
    /// How many bytes of the part under way were accepted (videos).
    pub received: u64,
}

/// The consistency of an upload.
pub open spec fn upload_wf(u: Upload) -> bool {
    u.received <= size_limit(u.kind)
}

/// Whether the event is one that the stage waits for.
pub open spec fn expected(kind: MediaKind, stage: UploadStage, ev: UploadEvent) -> bool {
    match stage {
        UploadStage::AwaitDir => ev is DirCreated,
        UploadStage::AwaitPart => ev is PartFailed || ev is PartsFinished || ev is Part,
        UploadStage::AwaitFile => kind == MediaKind::Video && ev is FileCreated,
        UploadStage::AwaitChunk => kind == MediaKind::Video && (ev is ChunkFailed || ev is ChunksFinished || ev is Chunk),
        UploadStage::AwaitWrite => kind == MediaKind::Video && ev is ChunkWritten,
        UploadStage::AwaitRemove => kind == MediaKind::Video && ev is FileRemoved,
        UploadStage::AwaitPartBody => kind == MediaKind::Image && ev is PartRead,
        UploadStage::AwaitStore => kind == MediaKind::Image && ev is Stored,
        UploadStage::Done => false,
    }
}

/// The image service gives up (panics) when the multipart body fails; those
/// events are not decided here.
pub open spec fn image_panics(kind: MediaKind, ev: UploadEvent) -> bool {
    kind == MediaKind::Image && ev is PartFailed
}

/// Whether a chunk of `n` bytes takes the part under way over the limit.
pub open spec fn chunk_too_large(u: Upload, n: u64) -> bool {
    u.received + n > size_limit(u.kind)
}

/// The stage after an event, and the status of the answer when the event
/// ends the upload: 415 for a part of a format that is not stored, 413 for a
/// part over the size limit.
pub open spec fn upload_next(u: Upload, ev: UploadEvent) -> (UploadStage, Option<u16>) {
    match ev {
        UploadEvent::DirCreated(ok) => if ok { (UploadStage::AwaitPart, None) } else { (UploadStage::Done, Some(500u16)) },
        UploadEvent::PartFailed => (UploadStage::Done, Some(400u16)),
        UploadEvent::PartsFinished => (UploadStage::Done, Some(200u16)),
        UploadEvent::Part(name) => if !format_allowed(u.kind, effective_name(u.kind, name.deep_view())) {
            (UploadStage::Done, Some(415u16))
        } else if u.kind == MediaKind::Video {
            (UploadStage::AwaitFile, None)
        } else {
            (UploadStage::AwaitPartBody, None)
        },
        UploadEvent::PartRead(n) => if n > size_limit(u.kind) { (UploadStage::Done, Some(413u16)) } else { (UploadStage::AwaitStore, None) },
        UploadEvent::Stored => (UploadStage::AwaitPart, None),
        UploadEvent::FileCreated(ok) => if ok { (UploadStage::AwaitChunk, None) } else { (UploadStage::Done, Some(500u16)) },
        UploadEvent::ChunkFailed => (UploadStage::Done, Some(400u16)),
        UploadEvent::ChunksFinished => (UploadStage::AwaitPart, None),
        UploadEvent::Chunk(n) => if chunk_too_large(u, n) { (UploadStage::AwaitRemove, None) } else { (UploadStage::AwaitWrite, None) },
        UploadEvent::ChunkWritten(ok) => if ok { (UploadStage::AwaitChunk, None) } else { (UploadStage::Done, Some(500u16)) },
        UploadEvent::FileRemoved => (UploadStage::Done, Some(413u16)),
    }
}

/// The path of the part under way after an event.
pub open spec fn next_path(u: Upload, ev: UploadEvent) -> Seq<char> {
    match ev {
        UploadEvent::Part(name) => stored_path(u.kind, u.game_id as int, name.deep_view()),
        _ => u.path@,
    }
}

/// The bytes of the part under way accepted after an event.
pub open spec fn next_received(u: Upload, ev: UploadEvent) -> u64 {
    match ev {
        UploadEvent::Part(_) => 0,
        UploadEvent::Chunk(n) => if chunk_too_large(u, n) { u.received } else { (u.received + n) as u64 },
        _ => u.received,
    }
}

/// Whether `action` is the one that the stage `next` asks for, with the
/// part's path `path`.
pub open spec fn action_fits(next: UploadStage, status: Option<u16>, path: Seq<char>, action: UploadAction) -> bool {
    match status {
        Some(s) => action == UploadAction::Respond(s),
        None => match next {
            UploadStage::AwaitPart => action is NextPart,
            UploadStage::AwaitChunk => action is NextChunk,
            UploadStage::AwaitWrite => action is WriteChunk,
            UploadStage::AwaitPartBody => action is ReadPart,
            UploadStage::AwaitFile => action matches UploadAction::CreateFile(p) && p@ == path,
            UploadStage::AwaitStore => action matches UploadAction::StorePart(p) && p@ == path,
            UploadStage::AwaitRemove => action matches UploadAction::RemoveFile(p) && p@ == path,
            _ => false,
        },
    }
}

/// Starts an upload: the first step creates the game's directory.
pub fn upload_start(kind: MediaKind, game_id: i32) -> (r: (Upload, UploadAction))
    ensures
        upload_wf(r.0),
        r.0.kind == kind,
        r.0.game_id == game_id,
        r.0.stage == UploadStage::AwaitDir,
        r.1 matches UploadAction::CreateDir(d) && d@ == upload_dir(kind, game_id as int),
{
    (Upload { kind, game_id, stage: UploadStage::AwaitDir, path: String::new(), received: 0 },
        UploadAction::CreateDir(media_dir(kind, game_id)))
}

fn ended(u: Upload, status: u16) -> (r: (Upload, UploadAction))
    ensures
        r.0 == (Upload { stage: UploadStage::Done, ..u }),
        r.1 == UploadAction::Respond(status),
{
    (Upload { stage: UploadStage::Done, ..u }, UploadAction::Respond(status))
}

/// Decides the next step of an upload from what the last step observed. A
/// failure to create the directory, a file or to write a chunk is answered
/// with 500, a broken multipart body with 400, a part whose format is not
/// stored with 415 (nothing of it is stored), a part over the size limit with
/// 413 (a partly written video file is removed first), and the end of the
/// parts with 200.
pub fn upload_step(u: Upload, ev: UploadEvent) -> (r: (Upload, UploadAction))
    requires
        upload_wf(u),
        expected(u.kind, u.stage, ev),
        !image_panics(u.kind, ev),
    ensures
        upload_wf(r.0),
        r.0.kind == u.kind,
        r.0.game_id == u.game_id,
        r.0.stage == upload_next(u, ev).0,
        r.0.path@ == next_path(u, ev),
        r.0.received == next_received(u, ev),
        action_fits(r.0.stage, upload_next(u, ev).1, r.0.path@, r.1),
{
    let kind = u.kind;
    let game_id = u.game_id;
    let limit: u64 = match kind {
        MediaKind::Image => IMAGE_SIZE_LIMIT,
        MediaKind::Video => VIDEO_SIZE_LIMIT,
    };
    match ev {
        UploadEvent::DirCreated(ok) => if ok {
            (Upload { stage: UploadStage::AwaitPart, ..u }, UploadAction::NextPart)
        } else {
            ended(u, 500)
        },
        UploadEvent::PartFailed => ended(u, 400),
        UploadEvent::PartsFinished => ended(u, 200),
        UploadEvent::Part(name) => {
            let allowed = match &name {
                Some(n) => format_ok(kind, n.as_str()),
                None => match kind {
                    MediaKind::Image => format_ok(kind, "file"),
                    MediaKind::Video => format_ok(kind, "video.mp4"),
                },
            };
            let path = match &name {
                Some(n) => media_file_path(kind, game_id, Some(n.as_str())),
                None => media_file_path(kind, game_id, None),
            };
            if !allowed {
                ended(Upload { path, received: 0, ..u }, 415)
            } else {
                match kind {
                    MediaKind::Video => {
                        let p = path.clone();
                        (Upload { stage: UploadStage::AwaitFile, path, received: 0, ..u }, UploadAction::CreateFile(p))
                    },
                    MediaKind::Image => (Upload { stage: UploadStage::AwaitPartBody, path, received: 0, ..u }, UploadAction::ReadPart),
                }
            }
        },
        UploadEvent::PartRead(n) => if n > limit {
            ended(u, 413)
        } else {
            let p = u.path.clone();
            (Upload { stage: UploadStage::AwaitStore, ..u }, UploadAction::StorePart(p))
        },
        UploadEvent::Stored => (Upload { stage: UploadStage::AwaitPart, ..u }, UploadAction::NextPart),
        UploadEvent::FileCreated(ok) => if ok {
            (Upload { stage: UploadStage::AwaitChunk, ..u }, UploadAction::NextChunk)
        } else {
            ended(u, 500)
        },
        UploadEvent::ChunkFailed => ended(u, 400),
        UploadEvent::ChunksFinished => (Upload { stage: UploadStage::AwaitPart, ..u }, UploadAction::NextPart),
        UploadEvent::Chunk(n) => {
            let received = u.received;
            if n > limit - received {
                let p = u.path.clone();
                (Upload { stage: UploadStage::AwaitRemove, ..u }, UploadAction::RemoveFile(p))
            } else {
                (Upload { stage: UploadStage::AwaitWrite, received: received + n, ..u }, UploadAction::WriteChunk)
            }
        },
        UploadEvent::ChunkWritten(ok) => if ok {
            (Upload { stage: UploadStage::AwaitChunk, ..u }, UploadAction::NextChunk)
        } else {
            ended(u, 500)
        },
        UploadEvent::FileRemoved => ended(u, 413),
    }
}

/// An upload answers exactly when it ends, and answers 200 only when the
/// multipart body ran out of parts; 415 follows only a part of a format that
/// is not stored, 413 only a part over the size limit.
pub proof fn law_upload_answers_once(u: Upload, ev: UploadEvent)
    requires
        expected(u.kind, u.stage, ev),
    ensures
        (upload_next(u, ev).0 == UploadStage::Done) <==> upload_next(u, ev).1 is Some,
        upload_next(u, ev).1 == Some(200u16) ==> u.stage == UploadStage::AwaitPart && ev is PartsFinished,
        upload_next(u, ev).1 == Some(400u16) ==> ev is PartFailed || ev is ChunkFailed,
        upload_next(u, ev).1 == Some(500u16) ==> ev matches UploadEvent::DirCreated(false)
            || ev matches UploadEvent::FileCreated(false) || ev matches UploadEvent::ChunkWritten(false),
        upload_next(u, ev).1 == Some(415u16) ==> (ev matches UploadEvent::Part(name)
            && !format_allowed(u.kind, effective_name(u.kind, name.deep_view()))),
        upload_next(u, ev).1 == Some(413u16) ==> (ev is FileRemoved
            || (ev matches UploadEvent::PartRead(n) && n > size_limit(u.kind))),
{
}

/// A part is stored only when it is of an allowed format and within the size
/// limit: the store of an image follows a read within the limit, and a
/// video's chunk is written only while the part stays within the limit.
pub proof fn law_only_valid_parts_are_stored(u: Upload, ev: UploadEvent)
    requires
        upload_wf(u),
        expected(u.kind, u.stage, ev),
    ensures
        upload_next(u, ev).0 == UploadStage::AwaitStore ==> (ev matches UploadEvent::PartRead(n) && n <= size_limit(u.kind)),
        upload_next(u, ev).0 == UploadStage::AwaitWrite ==> next_received(u, ev) <= size_limit(u.kind),
        (upload_next(u, ev).0 == UploadStage::AwaitFile || upload_next(u, ev).0 == UploadStage::AwaitPartBody) ==>
            (ev matches UploadEvent::Part(name) && format_allowed(u.kind, effective_name(u.kind, name.deep_view()))),
{
}

/// The extension of `prefix` + `.` + `ext` is `ext`, when `ext` has no `.`.
proof fn lemma_extension_of_suffix(prefix: Seq<char>, ext: Seq<char>)
    requires
        forall|i: int| 0 <= i < ext.len() ==> ext[i] != '.',
    ensures
        extension(prefix + seq!['.'] + ext) == ext,
{
    let name = prefix + seq!['.'] + ext;
    let k = prefix.len() as int;
    assert(name[k] == '.');
    assert forall|j: int| k < j < name.len() implies name[j] != '.' by {
        assert(name[j] == ext[j - k - 1]);
    }
    assert(is_last_dot(name, k));
    let d = choose|d: int| is_last_dot(name, d);
    lemma_last_dot_unique(name, d, k);
    assert(name.skip(k + 1) =~= ext);
}

/// A name without any `.` has no extension.
proof fn lemma_no_dot_no_extension(name: Seq<char>)
    requires
        forall|i: int| 0 <= i < name.len() ==> name[i] != '.',
    ensures
        extension(name) == Seq::<char>::empty(),
{
    if exists|k: int| is_last_dot(name, k) {
        let k = choose|k: int| is_last_dot(name, k);
        assert(name[k] == '.');
    }
}

/// The formats that are stored, by the file name's extension: an image named
/// `*.png`, `*.jpg`, `*.jpeg`, `*.gif` or `*.webp` and a video named `*.mp4`,
/// `*.webm` or `*.mov`, in lower or upper case, are stored; a name ending in
/// `.txt` or `.exe`, or a name without any `.`, is refused for both kinds, as
/// are a video named like an image and an image named like a video.
pub proof fn law_stored_formats(prefix: Seq<char>, plain: Seq<char>)
    requires
        forall|i: int| 0 <= i < plain.len() ==> plain[i] != '.',
    ensures
        format_allowed(MediaKind::Image, prefix + ".png"@),
        format_allowed(MediaKind::Image, prefix + ".jpg"@),
        format_allowed(MediaKind::Image, prefix + ".jpeg"@),
        format_allowed(MediaKind::Image, prefix + ".gif"@),
        format_allowed(MediaKind::Image, prefix + ".webp"@),
        format_allowed(MediaKind::Image, prefix + ".PNG"@),
        format_allowed(MediaKind::Image, prefix + ".JPEG"@),
        format_allowed(MediaKind::Video, prefix + ".mp4"@),
        format_allowed(MediaKind::Video, prefix + ".webm"@),
        format_allowed(MediaKind::Video, prefix + ".mov"@),
        format_allowed(MediaKind::Video, prefix + ".MP4"@),
        format_allowed(MediaKind::Video, prefix + ".WEBM"@),
        format_allowed(MediaKind::Video, prefix + ".MOV"@),
        !format_allowed(MediaKind::Image, prefix + ".txt"@),
        !format_allowed(MediaKind::Image, prefix + ".exe"@),
        !format_allowed(MediaKind::Video, prefix + ".txt"@),
        !format_allowed(MediaKind::Video, prefix + ".exe"@),
        !format_allowed(MediaKind::Video, prefix + ".png"@),
        !format_allowed(MediaKind::Image, prefix + ".mp4"@),
        !format_allowed(MediaKind::Image, plain),
        !format_allowed(MediaKind::Video, plain),
{
    reveal_strlit(".png"); reveal_strlit(".jpg"); reveal_strlit(".jpeg"); reveal_strlit(".gif"); reveal_strlit(".webp");
    reveal_strlit(".PNG"); reveal_strlit(".JPEG"); reveal_strlit(".mp4"); reveal_strlit(".webm"); reveal_strlit(".mov");
    reveal_strlit(".MP4"); reveal_strlit(".WEBM"); reveal_strlit(".MOV"); reveal_strlit(".txt"); reveal_strlit(".exe");
    reveal_strlit("png"); reveal_strlit("jpg"); reveal_strlit("jpeg"); reveal_strlit("gif"); reveal_strlit("webp");
    reveal_strlit("mp4"); reveal_strlit("webm"); reveal_strlit("mov");
    let exts: Seq<Seq<char>> = seq![
        ".png"@, ".jpg"@, ".jpeg"@, ".gif"@, ".webp"@, ".PNG"@, ".JPEG"@, ".mp4"@, ".webm"@, ".mov"@,
        ".MP4"@, ".WEBM"@, ".MOV"@, ".txt"@, ".exe"@,
    ];
    assert forall|j: int| 0 <= j < exts.len() implies
        extension(prefix + #[trigger] exts[j]) == exts[j].skip(1) by {
        let e = exts[j];
        assert(e == seq!['.'] + e.skip(1));
        assert(prefix + e =~= prefix + seq!['.'] + e.skip(1));
        lemma_extension_of_suffix(prefix, e.skip(1));
    }
    assert(extension(prefix + exts[0]) == extension(prefix + ".png"@));
    assert(exts[0].skip(1) =~= "png"@);
    assert(exts[1].skip(1) =~= "jpg"@);
    assert(exts[2].skip(1) =~= "jpeg"@);
    assert(exts[3].skip(1) =~= "gif"@);
    assert(exts[4].skip(1) =~= "webp"@);
    assert(extension(prefix + exts[5]) =~= seq!['P', 'N', 'G']);
    assert(extension(prefix + exts[6]) =~= seq!['J', 'P', 'E', 'G']);
    assert(exts[7].skip(1) =~= "mp4"@);
    assert(exts[8].skip(1) =~= "webm"@);
    assert(exts[9].skip(1) =~= "mov"@);
    assert(extension(prefix + exts[10]) =~= seq!['M', 'P', '4']);
    assert(extension(prefix + exts[11]) =~= seq!['W', 'E', 'B', 'M']);
    assert(extension(prefix + exts[12]) =~= seq!['M', 'O', 'V']);
    assert(extension(prefix + exts[13]) =~= seq!['t', 'x', 't']);
    assert(extension(prefix + exts[14]) =~= seq!['e', 'x', 'e']);
    lemma_no_dot_no_extension(plain);
    let png = "png"@;
    let mp4 = "mp4"@;
    assert(!same_letter(png[0], mp4[0]));
    assert(!same_letter(png[0], "mov"@[0]));
    assert(!same_ignoring_case(png, mp4));
    assert(!same_ignoring_case(png, "mov"@));
    assert(!same_letter(mp4[0], png[0]));
    assert(!same_letter(mp4[0], "jpg"@[0]));
    assert(!same_letter(mp4[0], "gif"@[0]));
    assert(!same_ignoring_case(mp4, png));
    assert(!same_ignoring_case(mp4, "jpg"@));
    assert(!same_ignoring_case(mp4, "gif"@));
}

/// Where an uploaded part is stored: under `/app/uploads/<id>/` for images
/// and `/app/video/<id>/` for videos, the id in decimal, under the part's
/// file name, or `file` for an image and `video.mp4` for a video without one.
pub proof fn law_stored_paths(game_id: int, name: Seq<char>)
    ensures
        stored_path(MediaKind::Image, game_id, Some(name)) == "/app/uploads/"@ + decimal(game_id) + "/"@ + name,
        stored_path(MediaKind::Video, game_id, Some(name)) == "/app/video/"@ + decimal(game_id) + "/"@ + name,
        stored_path(MediaKind::Image, game_id, None) == "/app/uploads/"@ + decimal(game_id) + "/"@ + "file"@,
        stored_path(MediaKind::Video, game_id, None) == "/app/video/"@ + decimal(game_id) + "/"@ + "video.mp4"@,
{
}

/// The names of the entries that are text (`Some`), in order.
pub open spec fn present(names: Seq<Option<Seq<char>>>) -> Seq<Option<Seq<char>>> {
    names.filter(|o: Option<Seq<char>>| o is Some)
}

/// The listing has exactly one URL per entry whose name is text, in order:
/// the `k`-th URL is the game's base URL (`http://localhost:8003/image/<id>/`
/// for images, `http://localhost:8004/video/<id>/` for videos) followed by the
/// `k`-th such name.
pub proof fn law_one_url_per_name(kind: MediaKind, game_id: int, names: Seq<Option<Seq<char>>>)
    ensures
        media_listing(kind, game_id, names).len() == present(names).len(),
        forall|k: int| 0 <= k < present(names).len() ==> {
            let base = match kind {
                MediaKind::Image => "http://localhost:8003/image/"@ + decimal(game_id) + "/"@,
                MediaKind::Video => "http://localhost:8004/video/"@ + decimal(game_id) + "/"@,
            };
            #[trigger] media_listing(kind, game_id, names)[k] == base + present(names)[k]->0
        },
    decreases names.len(),
{
    reveal(Seq::filter);
    if names.len() > 0 {
        law_one_url_per_name(kind, game_id, names.drop_last());
        let rest = present(names.drop_last());
        assert(present(names) == if names.last() is Some { rest.push(names.last()) } else { rest });
    }
}

/// A part of a stored format is taken in: a video part goes on to have its
/// file created at its path, an image part to be read; a part within the
/// size limit (10 MiB for an image, 500 MiB for a video) goes on to be
/// stored or written.
pub proof fn law_valid_parts_are_taken_in(u: Upload, name: Option<String>, n: u64)
    requires
        upload_wf(u),
    ensures
        u.stage == UploadStage::AwaitPart && format_allowed(u.kind, effective_name(u.kind, name.deep_view())) ==> {
            &&& upload_next(u, UploadEvent::Part(name)).1 is None
            &&& upload_next(u, UploadEvent::Part(name)).0 == (if u.kind == MediaKind::Video {
                UploadStage::AwaitFile
            } else {
                UploadStage::AwaitPartBody
            })
            &&& next_path(u, UploadEvent::Part(name)) == stored_path(u.kind, u.game_id as int, name.deep_view())
        },
        u.kind == MediaKind::Image && n <= 10 * 1024 * 1024 ==>
            upload_next(u, UploadEvent::PartRead(n)) == (UploadStage::AwaitStore, None::<u16>),
        u.kind == MediaKind::Image && n > 10 * 1024 * 1024 ==>
            upload_next(u, UploadEvent::PartRead(n)) == (UploadStage::Done, Some(413u16)),
        u.kind == MediaKind::Video && u.received + n <= 500 * 1024 * 1024 ==>
            upload_next(u, UploadEvent::Chunk(n)) == (UploadStage::AwaitWrite, None::<u16>)
            && next_received(u, UploadEvent::Chunk(n)) == u.received + n,
        u.kind == MediaKind::Video && u.received + n > 500 * 1024 * 1024 ==>
            upload_next(u, UploadEvent::Chunk(n)) == (UploadStage::AwaitRemove, None::<u16>),
{
}

} // verus!
