//! The source resolver's decisions: what kind of source a descriptor names,
//! and under which name a download is stored.
//!
//! A descriptor that begins with `http` is remote, any other is a local
//! path. A remote descriptor names a streaming platform where its host
//! holds the name of one. The host is what stands behind `http://` or
//! `https://`, up to the first `/`, `?` or `#`, without what stands before
//! an `@` in it; a port, if there is one, stays.

use vstd::prelude::*;
use url::Url;
use crate::error::{ErrorKind, ErrorView, PipelineError};
use crate::text::{begins_with, chars_of, contains, has_prefix, occurs_at, occurs_in, texts_of};

verus! {

/// What a source descriptor names.
#[derive(Clone, Copy, Debug, PartialEq, Eq, Structural)]
pub enum SourceKind {
    /// A file on this machine.
    LocalPath,
    /// A video on a streaming platform, of which only the wanted range is
    /// fetched.
    StreamingPlatformUrl,
    /// Any other address, which is downloaded whole.
    GenericUrl,
}

/// The descriptor is remote: it begins with `http`.
pub open spec fn is_remote(descriptor: Seq<char>) -> bool {
    begins_with(descriptor, "http"@)
}

/// Where the host section of a descriptor begins: behind `https://` or
/// `http://`. A descriptor that begins with neither has no host.
pub open spec fn authority_start(descriptor: Seq<char>) -> Option<int> {
    if begins_with(descriptor, "https://"@) {
        Some(8)
    } else if begins_with(descriptor, "http://"@) {
        Some(7)
    } else {
        None
    }
}

/// `c` ends the host section: the path, the query or the fragment begins.
pub open spec fn ends_authority(c: char) -> bool {
    c == '/' || c == '?' || c == '#'
}

/// The first place from `from` on where the host section ends: the place of
/// the first `/`, `?` or `#`, or the end of the descriptor.
pub open spec fn authority_end(descriptor: Seq<char>, from: int) -> int
    decreases descriptor.len() - from,
{
    if from < 0 || from >= descriptor.len() || ends_authority(descriptor[from]) {
        from
    } else {
        authority_end(descriptor, from + 1)
    }
}

/// The place behind the last `@` between `lo` and `hi`; `lo` if there is
/// none.
pub open spec fn host_start(descriptor: Seq<char>, lo: int, hi: int) -> int
    decreases hi - lo,
{
    if hi <= lo {
        lo
    } else if descriptor[hi - 1] == '@' {
        hi
    } else {
        host_start(descriptor, lo, hi - 1)
    }
}

/// The host of a descriptor, with its port if it names one; empty where the
/// descriptor has no host section.
pub open spec fn host_of(descriptor: Seq<char>) -> Seq<char> {
    match authority_start(descriptor) {
        None => Seq::empty(),
        Some(lo) => {
            let hi = authority_end(descriptor, lo);
            descriptor.subrange(host_start(descriptor, lo, hi), hi)
        },
    }
}

/// The host holds the name of a known streaming platform.
pub open spec fn names_streaming_platform(host: Seq<char>) -> bool {
    occurs_in("youtube.com"@, host) || occurs_in("youtu.be"@, host)
}

/// The kind of source that a descriptor names.
pub open spec fn classify_spec(descriptor: Seq<char>) -> SourceKind {
    if !is_remote(descriptor) {
        SourceKind::LocalPath
    } else if names_streaming_platform(host_of(descriptor)) {
        SourceKind::StreamingPlatformUrl
    } else {
        SourceKind::GenericUrl
    }
}

/// Only a source that was fetched from a streaming platform holds the
/// wanted range and nothing else.
pub open spec fn is_segment_trimmed(kind: SourceKind) -> bool {
    kind == SourceKind::StreamingPlatformUrl
}

/// The host section ends at `end` if a `/`, `?` or `#` or the end of the
/// descriptor stands there and none of the three stands between `from` and
/// `end`.
pub proof fn lemma_authority_end_found(descriptor: Seq<char>, from: int, end: int)
    requires
        0 <= from <= end <= descriptor.len(),
        forall|i: int| from <= i < end ==> !ends_authority(#[trigger] descriptor[i]),
        end < descriptor.len() ==> ends_authority(descriptor[end]),
    ensures
        authority_end(descriptor, from) == end,
    decreases end - from,
{
    if from < end {
        lemma_authority_end_found(descriptor, from + 1, end);
    }
}

/// The host section ends inside the descriptor, at a `/`, `?` or `#` or at
/// the end, and holds none of the three.
pub proof fn lemma_authority_end(descriptor: Seq<char>, from: int)
    requires
        0 <= from <= descriptor.len(),
    ensures
        from <= authority_end(descriptor, from) <= descriptor.len(),
        forall|i: int|
            from <= i < authority_end(descriptor, from) ==> !ends_authority(
                #[trigger] descriptor[i],
            ),
        authority_end(descriptor, from) < descriptor.len() ==> ends_authority(
            descriptor[authority_end(descriptor, from)],
        ),
    decreases descriptor.len() - from,
{
    if from >= descriptor.len() || ends_authority(descriptor[from]) {
    } else {
        lemma_authority_end(descriptor, from + 1);
    }
}

/// The host begins between `lo` and `hi`, behind an `@` unless it begins at
/// `lo`, and holds no `@`.
pub proof fn lemma_host_start(descriptor: Seq<char>, lo: int, hi: int)
    requires
        0 <= lo <= hi <= descriptor.len(),
    ensures
        lo <= host_start(descriptor, lo, hi) <= hi,
        host_start(descriptor, lo, hi) > lo ==> descriptor[host_start(descriptor, lo, hi) - 1]
            == '@',
        forall|i: int|
            host_start(descriptor, lo, hi) <= i < hi ==> #[trigger] descriptor[i] != '@',
    decreases hi - lo,
{
    if hi > lo && descriptor[hi - 1] != '@' {
        lemma_host_start(descriptor, lo, hi - 1);
    }
}

/// Where no `@` stands between `lo` and `hi`, the host begins at `lo`.
pub proof fn lemma_host_start_without_user(descriptor: Seq<char>, lo: int, hi: int)
    requires
        0 <= lo <= hi <= descriptor.len(),
        forall|i: int| lo <= i < hi ==> #[trigger] descriptor[i] != '@',
    ensures
        host_start(descriptor, lo, hi) == lo,
    decreases hi - lo,
{
    if hi > lo {
        lemma_host_start_without_user(descriptor, lo, hi - 1);
    }
}

/// The host of a descriptor.
fn host_chars(descriptor: &Vec<char>) -> (host: Vec<char>)
    ensures
        host@ == host_of(descriptor@),
{
    let n = descriptor.len();
    let secure = chars_of("https://");
    let plain = chars_of("http://");
    proof {
        reveal_strlit("https://");
        reveal_strlit("http://");
    }
    let lo: usize = if has_prefix(descriptor, &secure) {
        8
    } else if has_prefix(descriptor, &plain) {
        7
    } else {
        return Vec::new();
    };
    let mut hi: usize = lo;
    while hi < n && !(descriptor[hi] == '/' || descriptor[hi] == '?' || descriptor[hi] == '#')
        invariant
            lo <= hi <= n,
            n == descriptor.len(),
            forall|i: int| lo <= i < hi ==> !ends_authority(#[trigger] descriptor@[i]),
        decreases n - hi,
    {
        hi += 1;
    }
    proof {
        lemma_authority_end_found(descriptor@, lo as int, hi as int);
    }
    let mut start: usize = hi;
    while start > lo && descriptor[start - 1] != '@'
        invariant
            lo <= start <= hi <= n,
            n == descriptor.len(),
            host_start(descriptor@, lo as int, hi as int) == host_start(
                descriptor@,
                lo as int,
                start as int,
            ),
        decreases start - lo,
    {
        start -= 1;
    }
    let mut host: Vec<char> = Vec::new();
    let mut i: usize = start;
    while i < hi
        invariant
            start <= i <= hi <= n,
            n == descriptor.len(),
            host@ == descriptor@.subrange(start as int, i as int),
        decreases hi - i,
    {
        host.push(descriptor[i]);
        assert(descriptor@.subrange(start as int, i + 1) =~= descriptor@.subrange(
            start as int,
            i as int,
        ).push(descriptor@[i as int]));
        i += 1;
    }
    host
}

/// Classifies a source descriptor by its shape alone.
pub fn classify_source(descriptor: &str) -> (kind: SourceKind)
    ensures
        kind == classify_spec(descriptor@),
{
    let chars = chars_of(descriptor);
    let scheme = chars_of("http");
    if !has_prefix(&chars, &scheme) {
        return SourceKind::LocalPath;
    }
    let host = host_chars(&chars);
    let long_name = chars_of("youtube.com");
    let short_name = chars_of("youtu.be");
    if contains(&host, &long_name) || contains(&host, &short_name) {
        SourceKind::StreamingPlatformUrl
    } else {
        SourceKind::GenericUrl
    }
}

/// A descriptor that does not begin with `http` is a local path.
pub proof fn lemma_local_descriptor(descriptor: Seq<char>)
    requires
        !begins_with(descriptor, "http"@),
    ensures
        classify_spec(descriptor) == SourceKind::LocalPath,
{
}

/// A descriptor that begins with `http` and whose host holds the name of no
/// streaming platform is fetched like any address.
pub proof fn lemma_generic_descriptor(descriptor: Seq<char>)
    requires
        begins_with(descriptor, "http"@),
        !names_streaming_platform(host_of(descriptor)),
    ensures
        classify_spec(descriptor) == SourceKind::GenericUrl,
{
}

/// A descriptor that begins with `https://www.youtube.com/watch?v=` or with
/// `https://youtu.be/` names a streaming platform.
pub proof fn lemma_streaming_descriptor(descriptor: Seq<char>)
    requires
        begins_with(descriptor, "https://www.youtube.com/watch?v="@) || begins_with(
            descriptor,
            "https://youtu.be/"@,
        ),
    ensures
        classify_spec(descriptor) == SourceKind::StreamingPlatformUrl,
{
    reveal_strlit("http");
    reveal_strlit("https://");
    reveal_strlit("http://");
    reveal_strlit("https://www.youtube.com/watch?v=");
    reveal_strlit("https://youtu.be/");
    reveal_strlit("youtube.com");
    reveal_strlit("youtu.be");
    if begins_with(descriptor, "https://www.youtube.com/watch?v="@) {
        let prefix = "https://www.youtube.com/watch?v="@;
        assert(descriptor.subrange(0, 32) == prefix);
        assert forall|i: int| 0 <= i < 32 implies descriptor[i] == prefix[i] by {
            assert(descriptor.subrange(0, 32)[i] == descriptor[i]);
        }
        assert(descriptor.subrange(0, 4) =~= "http"@);
        assert(descriptor.subrange(0, 8) =~= "https://"@);
        lemma_authority_end_found(descriptor, 8, 23);
        lemma_host_start_without_user(descriptor, 8, 23);
        let host = host_of(descriptor);
        assert(host == descriptor.subrange(8, 23));
        assert(host.subrange(4, 15) =~= "youtube.com"@);
        assert(occurs_at("youtube.com"@, host, 4));
    } else {
        let prefix = "https://youtu.be/"@;
        assert(descriptor.subrange(0, 17) == prefix);
        assert forall|i: int| 0 <= i < 17 implies descriptor[i] == prefix[i] by {
            assert(descriptor.subrange(0, 17)[i] == descriptor[i]);
        }
        assert(descriptor.subrange(0, 4) =~= "http"@);
        assert(descriptor.subrange(0, 8) =~= "https://"@);
        lemma_authority_end_found(descriptor, 8, 16);
        lemma_host_start_without_user(descriptor, 8, 16);
        let host = host_of(descriptor);
        assert(host == descriptor.subrange(8, 16));
        assert(host.subrange(0, 8) =~= "youtu.be"@);
        assert(occurs_at("youtu.be"@, host, 0));
    }
}

/// What `Url::parse` and then `Url::path_segments` give for an address.
/// Where the address parses as a URL: the segments of its path, in order,
/// or `None` in their place where the URL cannot be a base and so has no
/// segments. Where it does not parse: the words of the parser's error.
pub uninterp spec fn url_path_segments(address: Seq<char>) -> Result<
    Option<Seq<Seq<char>>>,
    Seq<char>,
>;

/// The views of a list of strings that may be missing.
pub open spec fn option_texts(list: Option<Vec<String>>) -> Option<Seq<Seq<char>>> {
    match list {
        Some(strings) => Some(texts_of(strings@)),
        None => None,
    }
}

/// `Url::parse`, and `Url::path_segments` on the URL that it gives: the
/// path segments of an address, each as a string, or the parser's error in
/// the words of its `Display`. All of it depends on the address alone.
#[verifier::external_body]
fn path_segments(address: &str) -> (r: Result<Option<Vec<String>>, String>)
    ensures
        match r {
            Ok(segments) => url_path_segments(address@) == Ok::<
                Option<Seq<Seq<char>>>,
                Seq<char>,
            >(option_texts(segments)),
            Err(words) => url_path_segments(address@) == Err::<
                Option<Seq<Seq<char>>>,
                Seq<char>,
            >(words@),
        },
{
    match Url::parse(address) {
        Ok(url) => Ok(url.path_segments().map(|parts| parts.map(String::from).collect())),
        Err(error) => Err(error.to_string()),
    }
}

/// The name for a download whose address names none.
pub open spec fn default_file_name() -> Seq<char> {
    "downloaded_video.mp4"@
}

/// The file name for a download: the last segment of the address's path,
/// or the default name where the path has no segments.
pub open spec fn file_name_of(segments: Option<Seq<Seq<char>>>) -> Seq<char> {
    match segments {
        Some(list) if list.len() > 0 => list.last(),
        _ => default_file_name(),
    }
}

/// The error for an address that does not parse, with the parser's words.
pub open spec fn invalid_url(words: Seq<char>) -> ErrorView {
    ErrorView { kind: ErrorKind::InvalidUrl, detail: words }
}

/// The file name under which the download of an address is stored, or the
/// error for an address that does not parse.
pub open spec fn download_name(address: Seq<char>) -> Result<Seq<char>, ErrorView> {
    match url_path_segments(address) {
        Ok(segments) => Ok(file_name_of(segments)),
        Err(words) => Err(invalid_url(words)),
    }
}

/// The file name for a download, from the segments of its address's path.
pub fn file_name_from_segments(segments: &Option<Vec<String>>) -> (name: String)
    ensures
        name@ == file_name_of(option_texts(*segments)),
{
    match segments {
        Some(list) => {
            if list.len() > 0 {
                list[list.len() - 1].clone()
            } else {
                String::from_str("downloaded_video.mp4")
            }
        },
        None => String::from_str("downloaded_video.mp4"),
    }
}

/// The file name under which the download of `address` is stored.
///
/// Fails with `InvalidUrl`, and the parser's words as detail, where the
/// address does not parse as a URL.
pub fn download_file_name(address: &str) -> (r: Result<String, PipelineError>)
    ensures
        match download_name(address@) {
            Ok(name) => r matches Ok(n) && n@ == name,
            Err(error) => r matches Err(e) && e@ == error,
        },
{
    match path_segments(address) {
        Ok(segments) => Ok(file_name_from_segments(&segments)),
        Err(words) => Err(PipelineError { kind: ErrorKind::InvalidUrl, detail: words }),
    }
}

} // verus!
