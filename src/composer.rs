use vstd::prelude::*;
use crate::naming::{generate_name, is_generated_name, replace_filename, with_extension};
use crate::user::{get_username, user_segment, User};
use crate::weburl::{
    append_segment, is_plain_text, join_path, last_segment_of, law_public_url_path, push_url,
    segment_encoded, trim_trailing, Url,
};

verus! {

/// `item` placed in the directory `dir`, with one `/` between them.
pub open spec fn local_join(dir: Seq<char>, item: Seq<char>) -> Seq<char> {
    if dir.len() == 0 {
        item
    } else if dir.last() == '/' {
        dir + item
    } else {
        dir + seq!['/'] + item
    }
}

/// `item` placed in the directory `dir` after a `/`, or alone when `dir` is
/// empty (a directory that ends in `/` still gets one more).
pub open spec fn file_join(dir: Seq<char>, item: Seq<char>) -> Seq<char> {
    if dir.len() == 0 {
        item
    } else {
        dir + seq!['/'] + item
    }
}

/// A rehosted file: where it is stored, where it is served, and whose it is.
pub struct StoredFile {
    pub local_path: String,
    pub public_url: Url,
    pub username: String,
}

/// `r` is the file that the content at `source` becomes when it is stored
/// for `user` under the generated name `name`: the name keeps the extension
/// of the source's last path segment, the file lies in the user's directory
/// under `root`, and it is served under the user's segment of `base` (each
/// segment percent-encoded, after a trailing `/` of `base` is dropped).
pub open spec fn is_destination(
    r: StoredFile,
    name: Seq<char>,
    user: User,
    root: Seq<char>,
    base: Url,
    source: Url,
) -> bool {
    let seg = user_segment(user);
    let file = with_extension(name, last_segment_of(source.segs()));
    &&& r.username@ == seg
    &&& r.local_path@ == file_join(local_join(root, seg), file)
    &&& r.public_url.prefix@ == base.prefix@
    &&& r.public_url.segs() == trim_trailing(base.segs()) + seq![
        segment_encoded(seg),
        segment_encoded(file),
    ]
    &&& r.public_url.suffix@ == base.suffix@
}

/// Segments of plain characters stand in the public URL as they are: the
/// path is the base path, without its trailing `/`, then the user's segment
/// and the file name.
pub open spec fn plain_segments_kept(
    r: StoredFile,
    name: Seq<char>,
    user: User,
    base: Url,
    source: Url,
) -> bool {
    let seg = user_segment(user);
    let file = with_extension(name, last_segment_of(source.segs()));
    is_plain_text(seg) && is_plain_text(file) ==> r.public_url.segs() == trim_trailing(base.segs())
        + seq![seg, file]
}

/// The public URL of a stored file round-trips to its parts: its path is the
/// base path without its trailing `/`, then `/` and the user's segment, then
/// `/` and the file name, each percent-encoded; with the prefix and suffix of
/// the base URL around it.
pub proof fn law_public_url_round_trip(
    r: StoredFile,
    name: Seq<char>,
    user: User,
    root: Seq<char>,
    base: Url,
    source: Url,
)
    requires
        is_destination(r, name, user, root, base, source),
    ensures
        r.public_url.text() == base.prefix@ + join_path(trim_trailing(base.segs())) + seq!['/']
            + segment_encoded(user_segment(user)) + seq!['/'] + segment_encoded(
            with_extension(name, last_segment_of(source.segs())),
        ) + base.suffix@,
{
    let seg = segment_encoded(user_segment(user));
    let file = segment_encoded(with_extension(name, last_segment_of(source.segs())));
    law_public_url_path(base.segs(), seg, file);
}

/// `item` placed in the directory `dir`.
pub fn join_local(dir: &str, item: &str) -> (r: String)
    ensures
        r@ == local_join(dir@, item@),
{
    let n = dir.unicode_len();
    if n == 0 {
        return String::from_str(item);
    }
    let mut r = String::from_str(dir);
    proof {
        reveal_strlit("/");
        assert("/"@ =~= seq!['/']);
    }
    if dir.get_char(n - 1) != '/' {
        r.append("/");
    }
    r.append(item);
    r
}

/// The sender's directory under `download_root`.
pub fn user_path(user: &User, download_root: &str) -> (r: String)
    ensures
        r@ == local_join(download_root@, user_segment(*user)),
{
    let seg = get_username(user);
    join_local(download_root, seg.as_str())
}

/// The URL under which the sender's files are served: the base URL, without
/// its trailing `/`, with the sender's segment appended, percent-encoded.
pub fn user_url(user: &User, base_url: &Url) -> (r: Url)
    ensures
        r.prefix@ == base_url.prefix@,
        r.segs() == trim_trailing(base_url.segs()).push(segment_encoded(user_segment(*user))),
        is_plain_text(user_segment(*user)) ==> segment_encoded(user_segment(*user)) == user_segment(
            *user,
        ),
        r.suffix@ == base_url.suffix@,
{
    push_url(base_url.copy(), get_username(user))
}

/// `item` appended to the path `dir` after a `/`, or alone when `dir` is
/// empty.
fn join_file(dir: &str, item: &str) -> (r: String)
    ensures
        r@ == file_join(dir@, item@),
{
    if dir.unicode_len() == 0 {
        return String::from_str(item);
    }
    let mut r = String::from_str(dir);
    proof {
        reveal_strlit("/");
        assert("/"@ =~= seq!['/']);
    }
    r.append("/");
    r.append(item);
    r
}

/// Where the content at `source_url` goes when it is stored for `user` under
/// the base name `name`.
pub fn compose_with_name(
    name: &str,
    user: &User,
    download_root: &str,
    base_url: &Url,
    source_url: &Url,
) -> (r: StoredFile)
    ensures
        is_destination(r, name@, *user, download_root@, *base_url, *source_url),
        plain_segments_kept(r, name@, *user, *base_url, *source_url),
{
    let source_name = source_url.last_segment();
    let filename = replace_filename(source_name.as_str(), name);
    let dir = user_path(user, download_root);
    let local_path = join_file(dir.as_str(), filename.as_str());
    let public_url = append_segment(user_url(user, base_url), filename);
    assert(public_url.segs() =~= trim_trailing(base_url.segs()) + seq![
        segment_encoded(user_segment(*user)),
        segment_encoded(with_extension(name@, last_segment_of(source_url.segs()))),
    ]);
    StoredFile { local_path, public_url, username: get_username(user) }
}

/// Where the content at `source_url` goes when it is stored for `user`, under
/// a freshly generated base name. The user's directory is not created here.
pub fn compose_destination(
    user: &User,
    download_root: &str,
    base_url: &Url,
    source_url: &Url,
) -> (r: StoredFile)
    ensures
        exists|name: Seq<char>|
            is_generated_name(name) && is_destination(
                r,
                name,
                *user,
                download_root@,
                *base_url,
                *source_url,
            ) && plain_segments_kept(r, name, *user, *base_url, *source_url),
{
    let name = generate_name();
    compose_with_name(name.as_str(), user, download_root, base_url, source_url)
}

} // verus!
