use rand::Rng;
use vstd::prelude::*;

verus! {

/// Length of a generated base name.
pub const NAME_LEN: usize = 6;

/// An ASCII letter or digit.
pub open spec fn is_alnum(c: char) -> bool {
    ('A' <= c && c <= 'Z') || ('a' <= c && c <= 'z') || ('0' <= c && c <= '9')
}

/// A name that `generate_name` can hand out: six ASCII letters or digits.
pub open spec fn is_generated_name(s: Seq<char>) -> bool {
    &&& s.len() == NAME_LEN
    &&& forall|i: int| 0 <= i < s.len() ==> #[trigger] is_alnum(s[i])
}

/// The position of the last `.` among the first `n` characters of `s`, or -1.
pub open spec fn last_dot_before(s: Seq<char>, n: int) -> int
    decreases n,
{
    if n <= 0 {
        -1
    } else if s[n - 1] == '.' {
        n - 1
    } else {
        last_dot_before(s, n - 1)
    }
}

/// The position of the last `.` in `s`, or -1 when there is none.
pub open spec fn last_dot(s: Seq<char>) -> int {
    last_dot_before(s, s.len() as int)
}

/// The extension of a file name: what follows its last `.`, if it has one.
pub open spec fn extension_of(filename: Seq<char>) -> Option<Seq<char>> {
    let k = last_dot(filename);
    if k < 0 {
        None
    } else {
        Some(filename.subrange(k + 1, filename.len() as int))
    }
}

/// `name` given the extension of `filename`: `name.ext`, or `name` alone when
/// `filename` has no extension.
pub open spec fn with_extension(name: Seq<char>, filename: Seq<char>) -> Seq<char> {
    match extension_of(filename) {
        Some(ext) => name + seq!['.'] + ext,
        None => name,
    }
}

/// What `last_dot_before` finds is a `.`, and no `.` comes after it.
pub proof fn lemma_last_dot_before(s: Seq<char>, n: int)
    requires
        0 <= n <= s.len(),
    ensures
        -1 <= last_dot_before(s, n) < n,
        last_dot_before(s, n) >= 0 ==> s[last_dot_before(s, n)] == '.',
        forall|j: int| last_dot_before(s, n) < j < n ==> s[j] != '.',
    decreases n,
{
    if n > 0 && s[n - 1] != '.' {
        lemma_last_dot_before(s, n - 1);
    }
}

/// The last `.` of a file name, stated directly: the one found is a `.`,
/// none follows it, and there is none at all when -1 is found.
pub proof fn lemma_last_dot(s: Seq<char>)
    ensures
        -1 <= last_dot(s) < s.len(),
        last_dot(s) >= 0 ==> s[last_dot(s)] == '.',
        forall|j: int| last_dot(s) < j < s.len() ==> s[j] != '.',
{
    lemma_last_dot_before(s, s.len() as int);
}

/// A sequence without a `.` has none to find.
proof fn lemma_no_dot(s: Seq<char>, n: int)
    requires
        0 <= n <= s.len(),
        forall|j: int| 0 <= j < n ==> s[j] != '.',
    ensures
        last_dot_before(s, n) == -1,
    decreases n,
{
    if n > 0 {
        lemma_no_dot(s, n - 1);
    }
}

/// The last `.` of `a + b`, where `b` has no `.`, is the last `.` of `a`.
proof fn lemma_dot_in_prefix(a: Seq<char>, b: Seq<char>, n: int)
    requires
        a.len() <= n <= a.len() + b.len(),
        forall|j: int| 0 <= j < b.len() ==> b[j] != '.',
    ensures
        last_dot_before(a + b, n) == last_dot_before(a, a.len() as int),
    decreases n,
{
    let s = a + b;
    if n > a.len() {
        assert(s[n - 1] == b[n - 1 - a.len()]);
        lemma_dot_in_prefix(a, b, n - 1);
    } else {
        assert forall|k: int| 0 <= k <= a.len() implies last_dot_before(s, k)
            == last_dot_before(a, k) by {
            lemma_prefix_agrees(a, b, k);
        }
    }
}

proof fn lemma_prefix_agrees(a: Seq<char>, b: Seq<char>, k: int)
    requires
        0 <= k <= a.len(),
    ensures
        last_dot_before(a + b, k) == last_dot_before(a, k),
    decreases k,
{
    if k > 0 {
        assert((a + b)[k - 1] == a[k - 1]);
        lemma_prefix_agrees(a, b, k - 1);
    }
}

/// The renamed file keeps the source's extension: for a generated name, the
/// extension of `with_extension(name, f)` is the text after the last `.` of
/// `f`, and there is none when `f` has no `.`.
pub proof fn law_extension_follows_source(name: Seq<char>, f: Seq<char>)
    requires
        is_generated_name(name),
    ensures
        extension_of(with_extension(name, f)) == extension_of(f),
        (exists|j: int| 0 <= j < f.len() && f[j] == '.') ==> extension_of(f) == Some(
            f.subrange(last_dot(f) + 1, f.len() as int),
        ),
        (forall|j: int| 0 <= j < f.len() ==> f[j] != '.') ==> extension_of(f) is None,
{
    lemma_last_dot(f);
    assert forall|j: int| 0 <= j < name.len() implies name[j] != '.' by {
        assert(is_alnum(name[j]));
    }
    if forall|j: int| 0 <= j < f.len() ==> f[j] != '.' {
        lemma_no_dot(f, f.len() as int);
    }
    match extension_of(f) {
        Some(ext) => {
            let head = name + seq!['.'];
            let out = head + ext;
            assert(with_extension(name, f) == out);
            assert forall|j: int| 0 <= j < ext.len() implies ext[j] != '.' by {
                assert(ext[j] == f[last_dot(f) + 1 + j]);
            }
            lemma_dot_in_prefix(head, ext, out.len() as int);
            assert(last_dot_before(head, head.len() as int) == name.len()) by {
                assert(head[head.len() - 1] == '.');
            }
            assert(out.subrange(name.len() as int + 1, out.len() as int) =~= ext);
        },
        None => {
            lemma_no_dot(name, name.len() as int);
        },
    }
}

/// Relies on rand's `thread_rng` and `Rng::gen_ascii_chars`: that iterator
/// never ends and each item is drawn from the ASCII letters and digits, so
/// taking six of them gives six such characters.
#[verifier::external_body]
pub(crate) fn generate_name() -> (r: String)
    ensures
        is_generated_name(r@),
{
    rand::thread_rng().gen_ascii_chars().take(NAME_LEN).collect()
}

/// `name` with the extension of `filename`: `name.ext`, where `ext` is what
/// follows the last `.` of `filename`, or `name` alone when there is no `.`.
pub fn replace_filename(filename: &str, name: &str) -> (r: String)
    ensures
        r@ == with_extension(name@, filename@),
{
    let n = filename.unicode_len();
    let mut i: usize = n;
    loop
        invariant
            i <= n,
            n == filename@.len(),
            last_dot(filename@) == last_dot_before(filename@, i as int),
        ensures
            i <= n,
            last_dot(filename@) == last_dot_before(filename@, i as int),
            i == 0 || filename@[i - 1] == '.',
        decreases i,
    {
        if i == 0 {
            break;
        }
        if filename.get_char(i - 1) == '.' {
            break;
        }
        i = i - 1;
    }
    if i == 0 {
        String::from_str(name)
    } else {
        let mut r = String::from_str(name);
        r.append(".");
        r.append(filename.substring_char(i, n));
        proof {
            reveal_strlit(".");
            assert("."@ =~= seq!['.']);
        }
        assert(last_dot(filename@) == i - 1);
        assert(r@ =~= with_extension(name@, filename@));
        r
    }
}

} // verus!
