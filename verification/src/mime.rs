//! MIME types for the static files the server hands out, derived from the
//! file extension of a request path.

use vstd::prelude::*;
use vstd::string::StrSliceExecFns;

verus! {

/// True when `c` occurs in `s`.
pub open spec fn contains_char(s: Seq<char>, c: char) -> bool {
    exists|j: int| 0 <= j < s.len() && s[j] == c
}

/// The suffix of `s` after the last occurrence of `c`; all of `s` when `c`
/// does not occur.
pub open spec fn after_last(s: Seq<char>, c: char) -> Seq<char>
    decreases s.len(),
{
    if s.len() == 0 {
        s
    } else if s.last() == c {
        Seq::empty()
    } else {
        after_last(s.drop_last(), c).push(s.last())
    }
}

/// `after_last` picks the suffix after the last occurrence.
proof fn lemma_after_last_at(s: Seq<char>, c: char, i: int)
    requires
        0 <= i < s.len(),
        s[i] == c,
        forall|j: int| i < j < s.len() ==> s[j] != c,
    ensures
        after_last(s, c) =~= s.subrange(i + 1, s.len() as int),
    decreases s.len(),
{
    if i < s.len() - 1 {
        lemma_after_last_at(s.drop_last(), c, i);
    }
}

/// `after_last` leaves `s` whole when `c` does not occur in it.
proof fn lemma_after_last_absent(s: Seq<char>, c: char)
    requires
        forall|j: int| 0 <= j < s.len() ==> s[j] != c,
    ensures
        after_last(s, c) =~= s,
    decreases s.len(),
{
    if s.len() > 0 {
        lemma_after_last_absent(s.drop_last(), c);
    }
}

/// The extension of the file name in `path`: the part of the last
/// `/`-separated component after its last dot, where a dot that merely
/// starts the component (a hidden file) does not count.
pub open spec fn spec_extension(path: Seq<char>) -> Option<Seq<char>> {
    let name = after_last(path, '/');
    if name.len() >= 1 && contains_char(name.drop_first(), '.') {
        Some(after_last(name, '.'))
    } else {
        None
    }
}

/// The MIME type served for `path`, by its extension; anything unknown is
/// served as an octet stream.
pub open spec fn spec_mime(path: Seq<char>) -> Seq<char> {
    match spec_extension(path) {
        Some(e) => {
            if e == "html"@ {
                "text/html"@
            } else if e == "css"@ {
                "text/css"@
            } else if e == "js"@ {
                "application/javascript"@
            } else if e == "json"@ {
                "application/json"@
            } else if e == "png"@ {
                "image/png"@
            } else if e == "jpg"@ || e == "jpeg"@ {
                "image/jpeg"@
            } else if e == "svg"@ {
                "image/svg+xml"@
            } else {
                "application/octet-stream"@
            }
        },
        None => "application/octet-stream"@,
    }
}

/// True exactly when the characters of `s` from `start` on spell `lit`.
fn suffix_is(s: &str, start: usize, lit: &str) -> (r: bool)
    requires
        start <= s@.len(),
    ensures
        r == (s@.subrange(start as int, s@.len() as int) == lit@),
{
    let n = s.unicode_len();
    let m = lit.unicode_len();
    if n - start != m {
        proof {
            assert(s@.subrange(start as int, n as int).len() != lit@.len());
        }
        return false;
    }
    let mut k: usize = 0;
    while k < m
        invariant
            k <= m,
            m == lit@.len(),
            n == s@.len(),
            start + m == n,
            forall|t: int| 0 <= t < k ==> s@[start + t] == lit@[t],
        decreases m - k,
    {
        if s.get_char(start + k) != lit.get_char(k) {
            proof {
                assert(s@.subrange(start as int, n as int)[k as int] != lit@[k as int]);
            }
            return false;
        }
        k = k + 1;
    }
    proof {
        assert(s@.subrange(start as int, n as int) =~= lit@);
    }
    true
}

/// The MIME type to serve a static file under, read off its extension.
pub fn get_mime_type(path: &str) -> (r: &'static str)
    ensures
        r@ == spec_mime(path@),
{
    let n = path.unicode_len();
    let mut has_slash = false;
    let mut last_slash: usize = 0;
    let mut has_dot = false;
    let mut last_dot: usize = 0;
    let mut i: usize = 0;
    while i < n
        invariant
            i <= n == path@.len(),
            has_slash ==> last_slash < i && path@[last_slash as int] == '/' && (forall|j: int|
                last_slash < j < i ==> path@[j] != '/'),
            !has_slash ==> forall|j: int| 0 <= j < i ==> path@[j] != '/',
            has_dot ==> last_dot < i && path@[last_dot as int] == '.' && (has_slash ==> last_slash
                < last_dot) && (forall|j: int| last_dot < j < i ==> path@[j] != '.'),
            has_dot && !has_slash ==> true,
            !has_dot && has_slash ==> forall|j: int| last_slash < j < i ==> path@[j] != '.',
            !has_dot && !has_slash ==> forall|j: int| 0 <= j < i ==> path@[j] != '.',
        decreases n - i,
    {
        let ch = path.get_char(i);
        if ch == '/' {
            has_slash = true;
            last_slash = i;
            has_dot = false;
        } else if ch == '.' {
            has_dot = true;
            last_dot = i;
        }
        i = i + 1;
    }
    let ghost name_start: int = if has_slash {
        last_slash + 1
    } else {
        0
    };
    proof {
        if has_slash {
            lemma_after_last_at(path@, '/', last_slash as int);
        } else {
            lemma_after_last_absent(path@, '/');
        }
        assert(after_last(path@, '/') =~= path@.subrange(name_start, n as int));
    }
    let ghost name: Seq<char> = path@.subrange(name_start, n as int);
    let name_first: usize = if has_slash {
        last_slash + 1
    } else {
        0
    };
    if !has_dot || last_dot <= name_first {
        // No dot strictly inside the file name: no extension.
        proof {
            assert(forall|j: int| name_start < j < n ==> path@[j] != '.');
            if name.len() >= 1 {
                assert(forall|k: int|
                    0 <= k < name.drop_first().len() ==> #[trigger] name.drop_first()[k]
                        == path@[name_start + 1 + k]);
                assert(!contains_char(name.drop_first(), '.'));
            }
        }
        return "application/octet-stream";
    }
    // The last dot of the name sits at `last_dot`, strictly inside it.
    proof {
        assert(name.drop_first()[last_dot - name_start - 1] == '.');
        assert(contains_char(name.drop_first(), '.'));
        lemma_after_last_at(name, '.', last_dot - name_start);
        assert(after_last(name, '.') =~= path@.subrange(last_dot + 1, n as int));
    }
    let ghost ext: Seq<char> = path@.subrange(last_dot + 1, n as int);
    proof {
        assert(spec_extension(path@) == Some(ext));
    }
    let start = last_dot + 1;
    if suffix_is(path, start, "html") {
        return "text/html";
    }
    if suffix_is(path, start, "css") {
        return "text/css";
    }
    if suffix_is(path, start, "js") {
        return "application/javascript";
    }
    if suffix_is(path, start, "json") {
        return "application/json";
    }
    if suffix_is(path, start, "png") {
        return "image/png";
    }
    if suffix_is(path, start, "jpg") {
        return "image/jpeg";
    }
    if suffix_is(path, start, "jpeg") {
        return "image/jpeg";
    }
    if suffix_is(path, start, "svg") {
        return "image/svg+xml";
    }
    "application/octet-stream"
}

} // verus!
