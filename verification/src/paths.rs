use vstd::prelude::*;

verus! {

/// `s` without its leading `/` characters.
pub open spec fn trim_leading_slashes(s: Seq<char>) -> Seq<char>
    decreases s.len(),
{
    if s.len() > 0 && s[0] == '/' {
        trim_leading_slashes(s.drop_first())
    } else {
        s
    }
}

/// How a path is shown for editing: a path under the home directory `home` is written
/// `~/` followed by the rest of it (the rest's leading `/` dropped).
pub open spec fn display_path(path: Seq<char>, home: Option<Seq<char>>) -> Seq<char> {
    match home {
        Some(h) => if h.is_prefix_of(path) {
            "~/"@ + trim_leading_slashes(path.skip(h.len() as int))
        } else {
            path
        },
        None => path,
    }
}

/// Path joining under the Unix path rules this program runs under: an absolute `rest` (one
/// that starts with `/`) replaces `base`; otherwise `rest` is appended, after a `/` unless
/// `base` is empty or already ends in one.
pub open spec fn joined_path(base: Seq<char>, rest: Seq<char>) -> Seq<char> {
    if rest.len() > 0 && rest[0] == '/' {
        rest
    } else if base.len() == 0 || base.last() == '/' {
        base + rest
    } else {
        base + seq!['/'] + rest
    }
}

/// What `std::path::Path::extension` gives for `path`, as text (Unix path rules).
pub uninterp spec fn extension_of(path: Seq<char>) -> Option<Seq<char>>;

/// What `std::path::Path::file_name` gives for `path`, as text (Unix path rules).
pub uninterp spec fn file_name_of(path: Seq<char>) -> Option<Seq<char>>;

/// How edited text becomes a path: a leading `~/` stands for the home directory (or, with
/// no home directory, for the empty path); other text is the path itself.
pub open spec fn expanded_path(s: Seq<char>, home: Option<Seq<char>>) -> Seq<char> {
    if "~/"@.is_prefix_of(s) {
        joined_path(
            match home {
                Some(h) => h,
                None => Seq::<char>::empty(),
            },
            s.skip(2),
        )
    } else {
        s
    }
}

/// Joins `rest` onto `base` by the Unix path rules.
pub fn join_path(base: &str, rest: &str) -> (r: String)
    ensures
        r@ == joined_path(base@, rest@),
{
    let m = rest.unicode_len();
    if m > 0 && rest.get_char(0) == '/' {
        return String::from_str(rest);
    }
    let n = base.unicode_len();
    let mut r = String::from_str(base);
    if n > 0 && base.get_char(n - 1) != '/' {
        let sep = "/";
        proof {
            reveal_strlit("/");
        }
        assert(sep@ =~= seq!['/']);
        r.append(sep);
    }
    r.append(rest);
    r
}

/// The extension of `path` by `std::path::Path::extension` (the text after the last `.`
/// of the file name, when there is one that does not start the name); only named here.
#[verifier::external_body]
pub(crate) fn path_extension(path: &str) -> (r: Option<String>)
    ensures
        match r {
            Some(e) => extension_of(path@) == Some(e@),
            None => extension_of(path@) is None,
        },
{
    match std::path::Path::new(path).extension() {
        Some(e) => Some(e.to_string_lossy().into_owned()),
        None => None,
    }
}

/// The last component of `path` by `std::path::Path::file_name`; only named here.
#[verifier::external_body]
pub(crate) fn path_file_name(path: &str) -> (r: Option<String>)
    ensures
        match r {
            Some(n) => file_name_of(path@) == Some(n@),
            None => file_name_of(path@) is None,
        },
{
    match std::path::Path::new(path).file_name() {
        Some(n) => Some(n.to_string_lossy().into_owned()),
        None => None,
    }
}

/// Whether `prefix` starts `s`.
fn starts_with(s: &str, prefix: &str) -> (r: bool)
    ensures
        r == prefix@.is_prefix_of(s@),
{
    let n = s.unicode_len();
    let m = prefix.unicode_len();
    if m > n {
        return false;
    }
    let mut i: usize = 0;
    while i < m
        invariant
            n == s@.len(),
            m == prefix@.len(),
            m <= n,
            i <= m,
            forall|j: int| 0 <= j < i ==> prefix@[j] == s@[j],
        decreases m - i,
    {
        if s.get_char(i) != prefix.get_char(i) {
            assert(prefix@ != s@.subrange(0, m as int));
            return false;
        }
        i = i + 1;
    }
    assert(prefix@ =~= s@.subrange(0, m as int));
    true
}

/// The path text shown for editing: `path` with a leading home directory `home` written
/// as `~/`.
pub fn path_to_string(path: &str, home: Option<&str>) -> (r: String)
    ensures
        r@ == display_path(path@, match home {
            Some(h) => Some(h@),
            None => None,
        }),
{
    match home {
        Some(h) => {
            if starts_with(path, h) {
                let n = path.unicode_len();
                let mut k: usize = h.unicode_len();
                while k < n && path.get_char(k) == '/'
                    invariant
                        n == path@.len(),
                        h@.len() <= k <= n,
                        trim_leading_slashes(path@.skip(h@.len() as int))
                            == trim_leading_slashes(path@.skip(k as int)),
                    decreases n - k,
                {
                    assert(path@.skip(k as int).drop_first() =~= path@.skip(k + 1));
                    k = k + 1;
                }
                let rest = path.substring_char(k, n);
                assert(rest@ =~= path@.skip(k as int));
                let mut r = String::from_str("~/");
                r.append(rest);
                r
            } else {
                String::from_str(path)
            }
        },
        None => String::from_str(path),
    }
}

/// The path that edited text `s` names: a leading `~/` is replaced by the home directory
/// `home` (the empty path when there is none).
pub fn str_to_path(s: &str, home: Option<&str>) -> (r: String)
    ensures
        r@ == expanded_path(s@, match home {
            Some(h) => Some(h@),
            None => None,
        }),
{
    let tilde = "~/";
    proof {
        reveal_strlit("~/");
        reveal_strlit("");
    }
    if starts_with(s, tilde) {
        let n = s.unicode_len();
        let rest = s.substring_char(2, n);
        assert(rest@ =~= s@.skip(2));
        match home {
            Some(h) => join_path(h, rest),
            None => {
                let empty = "";
                assert(empty@ =~= Seq::<char>::empty());
                join_path(empty, rest)
            },
        }
    } else {
        String::from_str(s)
    }
}

} // verus!
