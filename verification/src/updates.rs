//! Where the update manifest of a channel is found.

use vstd::prelude::*;
use crate::text::{chars_of, push_chars, str_eq, string_from_chars};

verus! {

/// `https://github.com/Eeymoo/peregrine/releases/latest/download/stable.json`.
pub open spec fn stable_manifest_url() -> Seq<char> {
    "https://github.com/Eeymoo/peregrine/releases/latest/download/stable.json"@
}

/// `https://api.github.com/repos/Eeymoo/peregrine/releases`.
pub open spec fn releases_api_url() -> Seq<char> {
    "https://api.github.com/repos/Eeymoo/peregrine/releases"@
}

/// The manifest of the prerelease tagged `tag`.
pub open spec fn prerelease_manifest(tag: Seq<char>) -> Seq<char> {
    "https://github.com/Eeymoo/peregrine/releases/download/"@ + tag + "/prerelease.json"@
}

/// `未知的更新通道: <channel>` (unknown update channel).
pub open spec fn unknown_channel_message(channel: Seq<char>) -> Seq<char> {
    "未知的更新通道: "@ + channel
}

/// `GitHub API 响应不是数组` (the API reply is not an array).
pub open spec fn not_array_message() -> Seq<char> {
    "GitHub API 响应不是数组"@
}

/// `未找到 GitHub prerelease` (no prerelease found).
pub open spec fn no_prerelease_message() -> Seq<char> {
    "未找到 GitHub prerelease"@
}

/// Where a channel's manifest URL comes from.
#[derive(Debug)]
pub enum ManifestSource {
    /// This URL.
    Url(String),
    /// The newest prerelease among the releases listed at this API URL.
    LatestPrerelease(String),
}

/// The manifest source of an update channel: the fixed stable manifest, the
/// release list for `prerelease`, an error for any other channel.
pub fn manifest_source(channel: &str) -> (r: Result<ManifestSource, String>)
    ensures
        channel@ == "stable"@ ==> (r matches Ok(ManifestSource::Url(u)) && u@ == stable_manifest_url()),
        channel@ == "prerelease"@ ==> (r matches Ok(ManifestSource::LatestPrerelease(u)) && u@
            == releases_api_url()),
        channel@ != "stable"@ && channel@ != "prerelease"@ ==> (r matches Err(m) && m@
            == unknown_channel_message(channel@)),
{
    proof {
        reveal_strlit("stable");
        reveal_strlit("prerelease");
        reveal_strlit("https://github.com/Eeymoo/peregrine/releases/latest/download/stable.json");
        reveal_strlit("https://api.github.com/repos/Eeymoo/peregrine/releases");
    }
    assert("prerelease"@.len() != "stable"@.len());
    if str_eq(channel, "stable") {
        Ok(ManifestSource::Url("https://github.com/Eeymoo/peregrine/releases/latest/download/stable.json".to_owned()))
    } else if str_eq(channel, "prerelease") {
        Ok(ManifestSource::LatestPrerelease("https://api.github.com/repos/Eeymoo/peregrine/releases".to_owned()))
    } else {
        let mut v: Vec<char> = Vec::new();
        push_chars(&mut v, "未知的更新通道: ");
        push_chars(&mut v, channel);
        proof {
            assert(v@ =~= unknown_channel_message(channel@));
        }
        Err(string_from_chars(&v))
    }
}

/// One entry of the release list: its `prerelease` flag and `tag_name`,
/// each when present with the right type.
#[derive(Debug)]
pub struct ReleaseEntry {
    pub prerelease: Option<bool>,
    pub tag_name: Option<String>,
}

/// Whether `i` is the first release flagged as a prerelease.
pub open spec fn is_first_prerelease(rs: Seq<ReleaseEntry>, i: int) -> bool {
    &&& 0 <= i < rs.len()
    &&& rs[i].prerelease == Some(true)
    &&& forall|j: int| 0 <= j < i ==> #[trigger] rs[j].prerelease != Some(true)
}

/// The prerelease manifest from the release list (none when the reply was
/// not an array): the manifest of the first release flagged as a
/// prerelease, an error when there is none or it has no tag.
pub fn prerelease_manifest_url(releases: &Option<Vec<ReleaseEntry>>) -> (r: Result<String, String>)
    ensures
        releases is None ==> (r matches Err(m) && m@ == not_array_message()),
        releases matches Some(rs) ==> {
            ||| exists|i: int| #[trigger] is_first_prerelease(rs@, i) && match rs@[i].tag_name {
                Some(t) => r matches Ok(u) && u@ == prerelease_manifest(t@),
                None => r matches Err(m) && m@ == no_prerelease_message(),
            }
            ||| {
                &&& forall|i: int| 0 <= i < rs@.len() ==> #[trigger] rs@[i].prerelease != Some(true)
                &&& r matches Err(m) && m@ == no_prerelease_message()
            }
        },
{
    proof {
        reveal_strlit("GitHub API 响应不是数组");
        reveal_strlit("未找到 GitHub prerelease");
    }
    match releases {
        None => Err("GitHub API 响应不是数组".to_owned()),
        Some(rs) => {
            let mut i: usize = 0;
            while i < rs.len()
                invariant
                    *releases == Some(*rs),
                    0 <= i <= rs@.len(),
                    forall|j: int| 0 <= j < i ==> #[trigger] rs@[j].prerelease != Some(true),
                decreases rs@.len() - i,
            {
                if rs[i].prerelease == Some(true) {
                    assert(is_first_prerelease(rs@, i as int));
                    match &rs[i].tag_name {
                        Some(t) => {
                            let mut v: Vec<char> = Vec::new();
                            push_chars(&mut v, "https://github.com/Eeymoo/peregrine/releases/download/");
                            push_chars(&mut v, t.as_str());
                            push_chars(&mut v, "/prerelease.json");
                            proof {
                                reveal_strlit("https://github.com/Eeymoo/peregrine/releases/download/");
                                reveal_strlit("/prerelease.json");
                                assert(v@ =~= prerelease_manifest(t@));
                            }
                            return Ok(string_from_chars(&v));
                        },
                        None => {
                            return Err("未找到 GitHub prerelease".to_owned());
                        },
                    }
                }
                i = i + 1;
            }
            Err("未找到 GitHub prerelease".to_owned())
        },
    }
}

/// `s` without its trailing `/` characters.
pub open spec fn trim_trailing_slashes(s: Seq<char>) -> Seq<char>
    decreases s.len(),
{
    if s.len() > 0 && s.last() == '/' {
        trim_trailing_slashes(s.drop_last())
    } else {
        s
    }
}

/// The manifest URL to fetch: through the mirror (its URL without trailing
/// slashes, a slash, then the raw URL) when the mirror is on, the raw URL
/// otherwise.
pub fn apply_mirror(raw_url: &str, cn_mirror: bool, mirror_url: &str) -> (r: String)
    ensures
        !cn_mirror ==> r@ == raw_url@,
        cn_mirror ==> r@ == trim_trailing_slashes(mirror_url@) + seq!['/'] + raw_url@,
{
    if !cn_mirror {
        return raw_url.to_owned();
    }
    let m = chars_of(mirror_url);
    let mut end: usize = m.len();
    assert(m@.take(end as int) =~= m@);
    while end > 0 && m[end - 1] == '/'
        invariant
            0 <= end <= m@.len(),
            trim_trailing_slashes(m@.take(end as int)) == trim_trailing_slashes(m@),
        decreases end,
    {
        proof {
            assert(m@.take(end as int).drop_last() =~= m@.take(end - 1));
        }
        end = end - 1;
    }
    let mut v: Vec<char> = Vec::new();
    let mut k: usize = 0;
    while k < end
        invariant
            0 <= k <= end <= m@.len(),
            v@ == m@.take(k as int),
        decreases end - k,
    {
        v.push(m[k]);
        proof {
            assert(m@.take(k + 1) =~= m@.take(k as int).push(m@[k as int]));
        }
        k = k + 1;
    }
    proof {
        assert(m@.take(m@.len() as int) =~= m@);
        assert(trim_trailing_slashes(m@.take(end as int)) == m@.take(end as int));
    }
    v.push('/');
    push_chars(&mut v, raw_url);
    string_from_chars(&v)
}


/// What the front end is told while an update downloads.
#[derive(Debug, Clone, Copy, PartialEq, Eq, Structural)]
pub enum UpdateEvent {
    /// The download began; the total size when the server gave one.
    Started { content_length: Option<u64> },
    /// A chunk of this many bytes arrived.
    Progress { chunk_length: usize },
    /// The update is installed.
    Finished,
}

/// The events of one chunk: the first chunk also announces the start.
pub open spec fn chunk_step(first: bool, chunk_length: usize, content_length: Option<u64>) -> Seq<UpdateEvent> {
    if first {
        seq![UpdateEvent::Started { content_length }, UpdateEvent::Progress { chunk_length }]
    } else {
        seq![UpdateEvent::Progress { chunk_length }]
    }
}

/// The events of one downloaded chunk: the first chunk also announces the
/// start. Returns whether the next chunk is still the first, and the events.
pub fn chunk_events(first: bool, chunk_length: usize, content_length: Option<u64>) -> (r: (bool, Vec<UpdateEvent>))
    ensures
        !r.0,
        r.1@ == chunk_step(first, chunk_length, content_length),
{
    let mut v: Vec<UpdateEvent> = Vec::new();
    if first {
        v.push(UpdateEvent::Started { content_length });
    }
    v.push(UpdateEvent::Progress { chunk_length });
    proof {
        if first {
            assert(v@ =~= seq![UpdateEvent::Started { content_length }, UpdateEvent::Progress { chunk_length }]);
        } else {
            assert(v@ =~= seq![UpdateEvent::Progress { chunk_length }]);
        }
    }
    (false, v)
}

/// The events of a whole download of `chunks`, chunk by chunk from the
/// first, then the end.
pub open spec fn download_events(chunks: Seq<usize>, content_length: Option<u64>) -> Seq<UpdateEvent> {
    chunk_run(chunks, content_length) + seq![UpdateEvent::Finished]
}

/// The events of the chunks alone, as `chunk_events` reports them chunk
/// by chunk starting from the first.
pub open spec fn chunk_run(chunks: Seq<usize>, content_length: Option<u64>) -> Seq<UpdateEvent>
    decreases chunks.len(),
{
    if chunks.len() == 0 {
        Seq::empty()
    } else {
        chunk_run(chunks.drop_last(), content_length) + chunk_step(chunks.len() == 1, chunks.last(), content_length)
    }
}

/// How many events of `s` are starts.
pub open spec fn starts(s: Seq<UpdateEvent>) -> nat
    decreases s.len(),
{
    if s.len() == 0 {
        0
    } else {
        starts(s.drop_last()) + if s.last() is Started { 1nat } else { 0nat }
    }
}

proof fn lemma_starts_single(e: UpdateEvent)
    ensures
        starts(seq![e]) == if e is Started { 1nat } else { 0nat },
{
    assert(seq![e].drop_last() =~= Seq::<UpdateEvent>::empty());
    assert(starts(Seq::<UpdateEvent>::empty()) == 0);
}

proof fn lemma_starts_append(a: Seq<UpdateEvent>, b: Seq<UpdateEvent>)
    ensures
        starts(a + b) == starts(a) + starts(b),
    decreases b.len(),
{
    if b.len() > 0 {
        lemma_starts_append(a, b.drop_last());
        assert((a + b).drop_last() =~= a + b.drop_last());
    }
}

/// A download with at least one chunk announces its start exactly once,
/// as its first event, reports every chunk in order, and ends with
/// `Finished`.
pub proof fn law_download_announces_start_once(chunks: Seq<usize>, content_length: Option<u64>)
    requires
        chunks.len() > 0,
    ensures
        download_events(chunks, content_length)[0] == (UpdateEvent::Started { content_length }),
        starts(download_events(chunks, content_length)) == 1,
        download_events(chunks, content_length).len() == chunks.len() + 2,
        forall|i: int| 0 <= i < chunks.len() ==> download_events(chunks, content_length)[i + 1] == (
        UpdateEvent::Progress { chunk_length: chunks[i] }),
        download_events(chunks, content_length).last() == UpdateEvent::Finished,
    decreases chunks.len(),
{
    let run = chunk_run(chunks, content_length);
    if chunks.len() == 1 {
        assert(chunk_run(chunks.drop_last(), content_length) =~= Seq::<UpdateEvent>::empty());
        assert(run =~= seq![UpdateEvent::Started { content_length }, UpdateEvent::Progress { chunk_length: chunks[0] }]);
        lemma_starts_single(UpdateEvent::Started { content_length });
        assert(run.drop_last() =~= seq![UpdateEvent::Started { content_length }]);
    } else {
        law_download_announces_start_once(chunks.drop_last(), content_length);
        let prev = chunk_run(chunks.drop_last(), content_length);
        assert(prev =~= download_events(chunks.drop_last(), content_length).drop_last());
        lemma_starts_append(prev, seq![UpdateEvent::Progress { chunk_length: chunks.last() }]);
        assert(starts(prev) == 1) by {
            lemma_starts_append(prev, seq![UpdateEvent::Finished]);
            lemma_starts_single(UpdateEvent::Finished);
        }
        lemma_starts_single(UpdateEvent::Progress { chunk_length: chunks.last() });
        assert forall|i: int| 0 <= i < chunks.len() implies download_events(chunks, content_length)[i + 1] == (
        UpdateEvent::Progress { chunk_length: chunks[i] }) by {
            if i < chunks.len() - 1 {
                assert(download_events(chunks.drop_last(), content_length)[i + 1] == (UpdateEvent::Progress {
                    chunk_length: chunks.drop_last()[i],
                }));
            }
        }
    }
    lemma_starts_append(run, seq![UpdateEvent::Finished]);
    lemma_starts_single(UpdateEvent::Finished);
}

} // verus!
