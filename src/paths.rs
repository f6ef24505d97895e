use vstd::prelude::*;

verus! {

/// `part` appended to `base` as a path component: an absolute `part`
/// replaces `base`; otherwise a `/` separates the two unless `base` is empty
/// or already ends with one.
pub open spec fn path_join(base: Seq<char>, part: Seq<char>) -> Seq<char> {
    if part.len() > 0 && part[0] == '/' {
        part
    } else if base.len() == 0 || base.last() == '/' {
        base + part
    } else {
        base + seq!['/'] + part
    }
}

/// `s` without its leading `/` characters.
pub open spec fn strip_leading_slashes(s: Seq<char>) -> Seq<char>
    decreases s.len(),
{
    if s.len() > 0 && s[0] == '/' {
        strip_leading_slashes(s.drop_first())
    } else {
        s
    }
}

/// Joins `data` onto `root` as a path component.
pub fn append_to_root(root: &str, data: &str) -> (r: String)
    ensures
        r@ == path_join(root@, data@),
{
    let data_len = data.unicode_len();
    if data_len > 0 && data.get_char(0) == '/' {
        return String::from_str(data);
    }
    let root_len = root.unicode_len();
    let mut out = String::from_str(root);
    if root_len > 0 && root.get_char(root_len - 1) != '/' {
        out.append("/");
        proof {
            reveal_strlit("/");
        }
    }
    out.append(data);
    proof {
        if root_len > 0 && root@.last() != '/' {
            assert(out@ =~= root@ + seq!['/'] + data@);
        }
    }
    out
}

/// Joins `to_be_joined` onto `initial_path` as a relative path: leading `/`
/// characters of `to_be_joined` are dropped first, so the result always
/// stays under `initial_path`.
pub fn join_paths(initial_path: &str, to_be_joined: &str) -> (r: String)
    ensures
        r@ == path_join(initial_path@, strip_leading_slashes(to_be_joined@)),
{
    let n = to_be_joined.unicode_len();
    let mut k: usize = 0;
    assert(to_be_joined@.subrange(0, n as int) =~= to_be_joined@);
    while k < n && to_be_joined.get_char(k) == '/'
        invariant
            k <= n,
            n == to_be_joined@.len(),
            strip_leading_slashes(to_be_joined@.subrange(k as int, n as int))
                == strip_leading_slashes(to_be_joined@),
        decreases n - k,
    {
        assert(to_be_joined@.subrange(k as int, n as int).drop_first() =~= to_be_joined@.subrange(
            k + 1,
            n as int,
        ));
        k = k + 1;
    }
    let rest = to_be_joined.substring_char(k, n);
    proof {
        assert(strip_leading_slashes(rest@) == rest@);
    }
    append_to_root(initial_path, rest)
}

/// What `str::trim` makes of `s`: `s` without its leading and trailing
/// white space.
pub uninterp spec fn trimmed(s: Seq<char>) -> Seq<char>;

/// Relies on `str::trim`: the result is `s` without leading and trailing
/// white space, and depends on the characters of `s` alone.
#[verifier::external_body]
fn trim<'a>(s: &'a str) -> (r: &'a str)
    ensures
        r@ == trimmed(s@),
{
    s.trim()
}

/// `base/file`.
pub fn join_url(base: &str, file: &str) -> (r: String)
    ensures
        r@ == base@ + "/"@ + file@,
{
    let mut url = String::from_str(base);
    url.append("/");
    url.append(file);
    url
}

/// The URL of `file` under `base`: the trailing `/` of `base` is dropped,
/// both parts are trimmed of white space and joined with one `/`.
pub fn get_urls(base: &str, file: &str) -> (r: String)
    requires
        base@.len() > 0,
        base@.last() == '/',
    ensures
        r@ == trimmed(base@.drop_last()) + "/"@ + trimmed(file@),
{
    let n = base.unicode_len();
    let stem = base.substring_char(0, n - 1);
    assert(stem@ == base@.drop_last());
    join_url(trim(stem), trim(file))
}

} // verus!
