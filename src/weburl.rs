use url::percent_encoding::{utf8_percent_encode, PATH_SEGMENT_ENCODE_SET};
use vstd::prelude::*;

verus! {

/// An absolute URL with a hierarchical path, held as three texts: what comes
/// before the path (scheme, user info, host and port, as written in the
/// URL), the path's segments (percent-encoded, as they appear in the URL),
/// and what comes after the path (query and fragment, if any).
pub struct Url {
    pub prefix: String,
    pub segments: Vec<String>,
    pub suffix: String,
}

/// The texts of a list of segments.
pub open spec fn segments_view(v: Seq<String>) -> Seq<Seq<char>> {
    v.map_values(|s: String| s@)
}

impl Url {
    /// The path segments, as texts.
    pub open spec fn segs(&self) -> Seq<Seq<char>> {
        segments_view(self.segments@)
    }

    /// The URL's text.
    pub open spec fn text(&self) -> Seq<char> {
        self.prefix@ + path_text(self.segs()) + self.suffix@
    }
}

/// What parsing a text as an absolute URL gives: the text before its path,
/// its path segments and the text after its path, or nothing when the text is
/// no absolute URL with a path of segments.
pub uninterp spec fn url_parts(s: Seq<char>) -> Option<(Seq<char>, Seq<Seq<char>>, Seq<char>)>;

/// A text percent-encoded for use as one path segment.
pub uninterp spec fn segment_encoded(s: Seq<char>) -> Seq<char>;

/// A character that path-segment encoding leaves as it is.
pub open spec fn is_segment_plain(c: char) -> bool {
    ('A' <= c && c <= 'Z') || ('a' <= c && c <= 'z') || ('0' <= c && c <= '9') || c == '-'
        || c == '.' || c == '_' || c == '~'
}

/// The segments joined, each after a `/`.
pub open spec fn join_path(segs: Seq<Seq<char>>) -> Seq<char>
    decreases segs.len(),
{
    if segs.len() == 0 {
        Seq::empty()
    } else {
        join_path(segs.drop_last()) + seq!['/'] + segs.last()
    }
}

/// A URL's path: `/` when it has no segments, else the joined segments.
pub open spec fn path_text(segs: Seq<Seq<char>>) -> Seq<char> {
    if segs.len() == 0 {
        seq!['/']
    } else {
        join_path(segs)
    }
}

/// The segments without the empty one that a trailing `/` leaves last.
pub open spec fn trim_trailing(segs: Seq<Seq<char>>) -> Seq<Seq<char>> {
    if segs.len() > 0 && segs.last().len() == 0 {
        segs.drop_last()
    } else {
        segs
    }
}


/// The last segment of a path, or the empty text when there is none.
pub open spec fn last_segment_of(segs: Seq<Seq<char>>) -> Seq<char> {
    if segs.len() == 0 {
        Seq::empty()
    } else {
        segs.last()
    }
}

/// Relies on `hyper::Url::parse` (the `url` crate's `Url::parse`), on
/// `Url::path_segments`, which is `None` for a URL that cannot be a base, and
/// on slicing the URL's text at `Position::BeforePath` and
/// `Position::AfterPath`: each depends on the text parsed alone.
#[verifier::external_body]
fn parse_url(s: &str) -> (r: Option<Url>)
    ensures
        match r {
            Some(u) => url_parts(s@) == Some((u.prefix@, u.segs(), u.suffix@)),
            None => url_parts(s@) is None,
        },
{
    let u = hyper::Url::parse(s).ok()?;
    let segments: Vec<String> = u.path_segments()?.map(String::from).collect();
    let prefix = u[..url::Position::BeforePath].to_string();
    let suffix = u[url::Position::AfterPath..].to_string();
    Some(Url { prefix, segments, suffix })
}

/// Relies on `url::percent_encoding::utf8_percent_encode` with
/// `PATH_SEGMENT_ENCODE_SET`: the result depends on the text alone; ASCII
/// letters, digits and `-._~` are kept as they are, and every `/` becomes
/// `%2F`.
#[verifier::external_body]
fn encode_segment(s: &str) -> (r: String)
    ensures
        r@ == segment_encoded(s@),
        is_plain_text(s@) ==> r@ == s@,
        forall|i: int| 0 <= i < r@.len() ==> r@[i] != '/',
{
    utf8_percent_encode(s, PATH_SEGMENT_ENCODE_SET).to_string()
}

/// A copy of a list of segments.
fn copy_segments(v: &Vec<String>) -> (r: Vec<String>)
    ensures
        segments_view(r@) == segments_view(v@),
{
    let mut r: Vec<String> = Vec::new();
    for i in 0..v.len()
        invariant
            segments_view(r@) =~= segments_view(v@.take(i as int)),
    {
        let ghost before = r@;
        let item = v[i].clone();
        r.push(item);
        assert(r@ == before.push(item));
        assert(v@.take(i + 1) =~= v@.take(i as int).push(v@[i as int]));
        assert(segments_view(r@) =~= segments_view(before).push(item@));
        assert(segments_view(v@.take(i + 1)) =~= segments_view(v@.take(i as int)).push(item@));
    }
    assert(v@.take(v@.len() as int) =~= v@);
    r
}

impl Url {
    /// Parses an absolute URL whose path is a list of segments.
    pub fn parse(s: &str) -> (r: Option<Url>)
        ensures
            match r {
                Some(u) => url_parts(s@) == Some((u.prefix@, u.segs(), u.suffix@)),
                None => url_parts(s@) is None,
            },
    {
        parse_url(s)
    }

    /// A copy of this URL.
    pub fn copy(&self) -> (r: Url)
        ensures
            r.prefix@ == self.prefix@,
            r.segs() == self.segs(),
            r.suffix@ == self.suffix@,
    {
        Url {
            prefix: self.prefix.clone(),
            segments: copy_segments(&self.segments),
            suffix: self.suffix.clone(),
        }
    }

    /// The URL's text: the text before the path, each segment after a `/` (or
    /// a lone `/` when the path has no segments), and the text after the path.
    pub fn serialize(&self) -> (r: String)
        ensures
            r@ == self.text(),
    {
        let mut r = self.prefix.clone();
        proof {
            reveal_strlit("/");
            assert("/"@ =~= seq!['/']);
        }
        let n = self.segments.len();
        if n == 0 {
            r.append("/");
            r.append(self.suffix.as_str());
            return r;
        }
        for i in 0..n
            invariant
                n == self.segments.len(),
                "/"@ == seq!['/'],
                r@ == self.prefix@ + join_path(self.segs().take(i as int)),
        {
            r.append("/");
            r.append(self.segments[i].as_str());
            let ghost s = self.segs();
            assert(s.take(i + 1).drop_last() =~= s.take(i as int));
            assert(r@ =~= self.prefix@ + join_path(s.take(i + 1)));
        }
        assert(self.segs().take(n as int) =~= self.segs());
        r.append(self.suffix.as_str());
        r
    }

    /// The last segment of the path, or the empty text when there is none.
    pub fn last_segment(&self) -> (r: String)
        ensures
            r@ == last_segment_of(self.segs()),
    {
        let n = self.segments.len();
        if n == 0 {
            String::new()
        } else {
            self.segments[n - 1].clone()
        }
    }
}

/// A text of characters that path-segment encoding leaves as they are.
pub open spec fn is_plain_text(s: Seq<char>) -> bool {
    forall|i: int| 0 <= i < s.len() ==> #[trigger] is_segment_plain(s[i])
}

/// `url` with `item` appended as one path segment, percent-encoded (so as it
/// is, when it has only plain characters). An empty last segment, left by a
/// trailing `/`, is dropped first: the result is the same with or without
/// that `/`.
pub fn push_url(url: Url, item: String) -> (r: Url)
    ensures
        r.prefix@ == url.prefix@,
        r.segs() == trim_trailing(url.segs()).push(segment_encoded(item@)),
        is_plain_text(item@) ==> segment_encoded(item@) == item@,
        r.suffix@ == url.suffix@,
{
    append_segment(trim_trailing_slash(url), item)
}

/// `url` with `item` appended as one path segment, percent-encoded, after
/// whatever segments it has, an empty last one included.
pub fn append_segment(url: Url, item: String) -> (r: Url)
    ensures
        r.prefix@ == url.prefix@,
        r.segs() == url.segs().push(segment_encoded(item@)),
        is_plain_text(item@) ==> segment_encoded(item@) == item@,
        r.suffix@ == url.suffix@,
{
    let mut url = url;
    let ghost before = url.segs();
    let encoded = encode_segment(item.as_str());
    url.segments.push(encoded);
    assert(url.segs() =~= before.push(segment_encoded(item@)));
    url
}

/// `url` without the empty last segment that a trailing `/` leaves, so that
/// what is pushed next follows the last named segment.
pub fn trim_trailing_slash(url: Url) -> (r: Url)
    ensures
        r.prefix@ == url.prefix@,
        r.segs() == trim_trailing(url.segs()),
        r.suffix@ == url.suffix@,
{
    let mut url = url;
    let ghost orig = url.segs();
    let n = url.segments.len();
    if n > 0 && url.segments[n - 1].unicode_len() == 0 {
        url.segments.pop();
        assert(url.segs() =~= orig.drop_last());
    }
    url
}

/// Appending the segments `u` (the user's) and then `n` (the file's) to a
/// base path, once its trailing `/` is dropped, gives the base path without
/// that `/`, then `/u/n`; and a trailing `/` on the base changes nothing.
pub proof fn law_public_url_path(base: Seq<Seq<char>>, u: Seq<char>, n: Seq<char>)
    ensures
        path_text(trim_trailing(base) + seq![u, n]) == join_path(trim_trailing(base)) + seq!['/']
            + u + seq!['/'] + n,
        trim_trailing(base) == base ==> trim_trailing(base.push(Seq::empty())) == base,
{
    let t = trim_trailing(base);
    let once = t.push(u);
    let twice = t + seq![u, n];
    assert(twice.drop_last() =~= once);
    assert(once.drop_last() =~= t);
    assert(twice.last() == n);
    assert(once.last() == u);
    assert(join_path(twice) == join_path(once) + seq!['/'] + n);
    assert(join_path(once) == join_path(t) + seq!['/'] + u);
    assert(join_path(twice) =~= join_path(t) + seq!['/'] + u + seq!['/'] + n);
    assert(base.push(Seq::<char>::empty()).drop_last() =~= base);
}

} // verus!
