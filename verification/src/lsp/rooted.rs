//! URLs that have a path from the root of the machine, whatever machine it is.
use vstd::prelude::*;
use crate::text::chars_of;
use crate::text::concat3;
use crate::text::opt_text;
use crate::text::starts_with;
use crate::text::str_starts_with;

verus! {

/// How many characters come before the first mark.
pub open spec fn span(text: Seq<char>, marks: Seq<char>) -> nat
    decreases text.len(),
{
    if text.len() == 0 || marks.contains(text[0]) {
        0
    } else {
        1 + span(text.skip(1), marks)
    }
}

/// Where the part of a URL behind its scheme begins.
pub open spec fn scheme_end(url: Seq<char>) -> nat {
    let len = span(url, ":"@);
    if len < url.len() {
        len + 1
    } else {
        len
    }
}

/// Whether a URL says where to find what it names.
pub open spec fn has_authority(url: Seq<char>) -> bool {
    starts_with(url.skip(scheme_end(url) as int), "//"@)
}

/// Where the path of a URL begins.
pub open spec fn path_start(url: Seq<char>) -> nat {
    let start = scheme_end(url);
    if has_authority(url) {
        start + 2 + span(url.skip((start + 2) as int), "/?#"@)
    } else {
        start
    }
}

/// Where the path of a URL ends.
pub open spec fn path_end(url: Seq<char>) -> nat {
    path_start(url) + span(url.skip(path_start(url) as int), "?#"@)
}

/// The path of a URL.
pub open spec fn url_path(url: Seq<char>) -> Seq<char> {
    url.subrange(path_start(url) as int, path_end(url) as int)
}

/// A URL of a file on another host than this one.
pub open spec fn is_on_host(url: Seq<char>) -> bool {
    let host = url.subrange((scheme_end(url) + 2) as int, path_start(url) as int);
    &&& starts_with(url, "file:"@)
    &&& has_authority(url)
    &&& host.len() > 0
    &&& host != "localhost"@
}

/// An ASCII letter.
pub open spec fn is_letter(c: char) -> bool {
    'a' <= c <= 'z' || 'A' <= c <= 'Z'
}

/// A path that is a drive letter and nothing else.
pub open spec fn is_lone_drive(path: Seq<char>) -> bool {
    ||| {
        &&& path.len() == 3
        &&& path[0] == '/'
        &&& is_letter(path[1])
        &&& path[2] == ':'
    }
    ||| {
        &&& path.len() == 5
        &&& path[0] == '/'
        &&& is_letter(path[1])
        &&& path[2] == '%'
        &&& path[3] == '3'
        &&& path[4] == 'A' || path[4] == 'a'
    }
}

/// A path whose first part begins with something else than a slash or a
/// backslash, which may be encoded.
pub open spec fn has_share(path: Seq<char>) -> bool {
    &&& path.len() >= 2
    &&& path[1] != '/'
    &&& path.len() >= 4 && path[1] == '%' ==> {
        &&& !(path[2] == '2' && (path[3] == 'F' || path[3] == 'f'))
        &&& !(path[2] == '5' && (path[3] == 'C' || path[3] == 'c'))
    }
}

/// The path of a URL is one from the root, also where paths begin with a drive or
/// with a host and what it shares.
pub open spec fn has_rooted_path(url: Seq<char>) -> bool {
    &&& !is_lone_drive(url_path(url))
    &&& is_on_host(url) ==> has_share(url_path(url))
}

/// A URL with a path from the root: the URL itself; where its path is a lone drive
/// letter, the URL of what is at the root of that drive; none for a host that
/// shares nothing.
pub open spec fn rooted_form(url: Seq<char>) -> Option<Seq<char>> {
    if has_rooted_path(url) {
        Some(url)
    } else if is_lone_drive(url_path(url)) {
        let end = path_end(url) as int;
        Some(url.subrange(0, end) + "/"@ + url.skip(end))
    } else {
        None
    }
}

/// No mark comes before the first, and there is one at its place or nothing.
proof fn lemma_span(text: Seq<char>, marks: Seq<char>)
    ensures
        span(text, marks) <= text.len(),
        forall|i: int| 0 <= i < span(text, marks) ==> !marks.contains(#[trigger] text[i]),
        span(text, marks) < text.len() ==> marks.contains(text[span(text, marks) as int]),
    decreases text.len(),
{
    if text.len() > 0 && !marks.contains(text[0]) {
        let rest = text.skip(1);
        lemma_span(rest, marks);
        assert forall|i: int| 0 <= i < span(text, marks) implies !marks.contains(
            #[trigger] text[i],
        ) by {
            if i > 0 {
                assert(text[i] == rest[i - 1]);
            }
        }
    }
}

/// The first mark is where no mark comes before it.
proof fn lemma_span_is(text: Seq<char>, marks: Seq<char>, n: nat)
    requires
        n <= text.len(),
        forall|i: int| 0 <= i < n ==> !marks.contains(#[trigger] text[i]),
        n < text.len() ==> marks.contains(text[n as int]),
    ensures
        span(text, marks) == n,
{
    lemma_span(text, marks);
    let found = span(text, marks);
    if found < n {
        assert(!marks.contains(text[found as int]));
    } else if n < found {
        assert(!marks.contains(text[n as int]));
    }
}

/// A URL with a path from the root has one.
pub proof fn law_rooted_form_is_rooted(url: Seq<char>)
    ensures
        rooted_form(url) matches Some(rooted) ==> has_rooted_path(rooted),
{
    if !has_rooted_path(url) && is_lone_drive(url_path(url)) {
        reveal_strlit("/");
        reveal_strlit("//");
        reveal_strlit(":");
        reveal_strlit("?#");
        reveal_strlit("/?#");
        let (start, end) = (path_start(url) as int, path_end(url) as int);
        let scheme = scheme_end(url) as int;
        lemma_span(url, ":"@);
        if has_authority(url) {
            lemma_span(url.skip(scheme + 2), "/?#"@);
        }
        lemma_span(url.skip(start), "?#"@);
        let rooted = url.subrange(0, end) + "/"@ + url.skip(end);
        assert(start < end <= url.len());
        assert forall|i: int| 0 <= i < end implies rooted[i] == url[i] by {}
        assert(rooted[end] == '/');
        assert forall|i: int| end < i < rooted.len() implies rooted[i] == url[i - 1] by {}
        lemma_span_is(rooted, ":"@, span(url, ":"@));
        assert(scheme_end(rooted) == scheme);
        let (rest, before) = (rooted.skip(scheme), url.skip(scheme));
        assert(rest.subrange(0, 2) =~= before.subrange(0, 2));
        assert(has_authority(rooted) == has_authority(url));
        if has_authority(url) {
            let (a, b) = (rooted.skip(scheme + 2), url.skip(scheme + 2));
            let n = span(b, "/?#"@);
            assert forall|i: int| 0 <= i < n implies !"/?#"@.contains(#[trigger] a[i]) by {
                assert(a[i] == b[i]);
            }
            assert(a[n as int] == b[n as int]);
            lemma_span_is(a, "/?#"@, n);
        }
        assert(path_start(rooted) == start);
        let (a, b) = (rooted.skip(start), url.skip(start));
        let n = span(b, "?#"@);
        assert forall|i: int| 0 <= i < n + 1 implies !"?#"@.contains(#[trigger] a[i]) by {
            if i < n {
                assert(a[i] == b[i]);
            } else {
                assert(a[i] == '/');
            }
        }
        if n + 1 < a.len() {
            assert(a[(n + 1) as int] == b[n as int]);
        }
        lemma_span_is(a, "?#"@, (n + 1) as nat);
        let path = url_path(rooted);
        assert(path.len() == url_path(url).len() + 1);
        assert(path[1] == url_path(url)[1]);
    }
}

/// Where the first mark is, from a place on.
fn find_mark(chars: &Vec<char>, from: usize, marks: &str) -> (r: usize)
    requires
        from <= chars@.len(),
    ensures
        r == from + span(chars@.skip(from as int), marks@),
        from <= r <= chars@.len(),
{
    let list: Vec<char> = chars_of(marks);
    let mut i: usize = from;
    while i < chars.len()
        invariant
            from <= i <= chars@.len(),
            list@ == marks@,
            from + span(chars@.skip(from as int), marks@) == i + span(
                chars@.skip(i as int),
                marks@,
            ),
        decreases chars.len() - i,
    {
        let mut j: usize = 0;
        while j < list.len()
            invariant
                i < chars@.len(),
                j <= list@.len(),
                list@ == marks@,
                from + span(chars@.skip(from as int), marks@) == i + span(
                    chars@.skip(i as int),
                    marks@,
                ),
                from <= i,
                forall|k: int| 0 <= k < j ==> list@[k] != chars@[i as int],
            decreases list.len() - j,
        {
            if list[j] == chars[i] {
                assert(marks@.contains(chars@.skip(i as int)[0]));
                return i;
            }
            j = j + 1;
        }
        assert(chars@.skip(i as int).skip(1) =~= chars@.skip(i + 1));
        assert(!marks@.contains(chars@.skip(i as int)[0]));
        i = i + 1;
    }
    i
}

/// Where the parts of a URL are.
struct Parts {
    chars: Vec<char>,
    scheme_end: usize,
    has_authority: bool,
    path_start: usize,
    path_end: usize,
}

impl Parts {
    /// The parts are those of the URL.
    spec fn of(self, url: Seq<char>) -> bool {
        &&& self.chars@ == url
        &&& self.scheme_end == scheme_end(url)
        &&& self.has_authority == has_authority(url)
        &&& self.path_start == path_start(url)
        &&& self.path_end == path_end(url)
        &&& self.scheme_end <= self.path_start <= self.path_end <= url.len()
        &&& self.has_authority ==> self.scheme_end + 2 <= self.path_start
    }

    /// Finds the parts of a URL.
    fn new(url: &str) -> (r: Parts)
        ensures
            r.of(url@),
    {
        let chars: Vec<char> = chars_of(url);
        assert(url@.skip(0) =~= url@);
        let colon: usize = find_mark(&chars, 0, ":");
        let scheme_end: usize = if colon < chars.len() {
            colon + 1
        } else {
            colon
        };
        proof {
            reveal_strlit("//");
        }
        let ghost rest = url@.skip(scheme_end as int);
        let slashes: bool = chars.len() - scheme_end >= 2 && chars[scheme_end] == '/'
            && chars[scheme_end + 1] == '/';
        assert(slashes == has_authority(url@)) by {
            if slashes {
                assert(rest.subrange(0, 2) =~= "//"@);
            } else if starts_with(rest, "//"@) {
                assert(rest.subrange(0, 2)[0] == rest[0]);
                assert(rest.subrange(0, 2)[1] == rest[1]);
            }
        }
        let path_start: usize = if slashes {
            find_mark(&chars, scheme_end + 2, "/?#")
        } else {
            scheme_end
        };
        let path_end: usize = find_mark(&chars, path_start, "?#");
        Parts { chars, scheme_end, has_authority: slashes, path_start, path_end }
    }

    /// Whether the path is a drive letter and nothing else.
    fn is_lone_drive(&self) -> (r: bool)
        requires
            self.of(self.chars@),
        ensures
            r == is_lone_drive(url_path(self.chars@)),
    {
        let start: usize = self.path_start;
        let len: usize = self.path_end - start;
        if (len != 3 && len != 5) || self.chars[start] != '/' {
            return false;
        }
        let letter: char = self.chars[start + 1];
        if !(('a' <= letter && letter <= 'z') || ('A' <= letter && letter <= 'Z')) {
            return false;
        }
        if len == 3 {
            self.chars[start + 2] == ':'
        } else {
            self.chars[start + 2] == '%' && self.chars[start + 3] == '3' && (self.chars[start + 4]
                == 'A' || self.chars[start + 4] == 'a')
        }
    }

    /// Whether the first part of the path begins with something else than a slash
    /// or a backslash.
    fn has_share(&self) -> (r: bool)
        requires
            self.of(self.chars@),
        ensures
            r == has_share(url_path(self.chars@)),
    {
        let start: usize = self.path_start;
        let len: usize = self.path_end - start;
        if len < 2 || self.chars[start + 1] == '/' {
            return false;
        }
        if len >= 4 && self.chars[start + 1] == '%' {
            let (a, b): (char, char) = (self.chars[start + 2], self.chars[start + 3]);
            return !(a == '2' && (b == 'F' || b == 'f')) && !(a == '5' && (b == 'C' || b == 'c'));
        }
        true
    }
}

/// Whether a URL is one of a file on another host than this one.
fn check_on_host(url: &str, parts: &Parts) -> (r: bool)
    requires
        parts.of(url@),
    ensures
        r == is_on_host(url@),
{
    if !parts.has_authority || !str_starts_with(url, "file:") {
        return false;
    }
    let host: &str = url.substring_char(parts.scheme_end + 2, parts.path_start);
    host.unicode_len() > 0 && !crate::text::str_eq(host, "localhost")
}

/// Whether the path of a URL is one from the root.
pub fn is_rooted(url: &str) -> (r: bool)
    ensures
        r == has_rooted_path(url@),
{
    let parts: Parts = Parts::new(url);
    !parts.is_lone_drive() && (!check_on_host(url, &parts) || parts.has_share())
}

/// A URL with a path from the root.
pub fn rooted_url(url: &str) -> (r: Option<String>)
    ensures
        opt_text(r) == rooted_form(url@),
{
    if is_rooted(url) {
        return Some(url.to_owned());
    }
    let parts: Parts = Parts::new(url);
    if !parts.is_lone_drive() {
        return None;
    }
    let len: usize = url.unicode_len();
    let path: &str = url.substring_char(0, parts.path_end);
    let rest: &str = url.substring_char(parts.path_end, len);
    assert(url@.subrange(parts.path_end as int, len as int) =~= url@.skip(parts.path_end as int));
    Some(concat3(path, "/", rest))
}

/// The path of a URL that names no host begins behind its scheme, and that of one
/// that does, behind the host; it ends before a query or a fragment.
pub proof fn law_path_of_a_url(
    scheme: Seq<char>,
    host: Seq<char>,
    path: Seq<char>,
    rest: Seq<char>,
)
    requires
        forall|i: int| 0 <= i < scheme.len() ==> #[trigger] scheme[i] != ':',
        forall|i: int|
            0 <= i < host.len() ==> #[trigger] host[i] != '/' && host[i] != '?' && host[i] != '#',
        forall|i: int| 0 <= i < path.len() ==> #[trigger] path[i] != '?' && path[i] != '#',
        path.len() > 0 && path[0] == '/',
        rest.len() == 0 || rest[0] == '?' || rest[0] == '#',
    ensures
        url_path(scheme + seq![':', '/', '/'] + host + path + rest) == path,
        path.len() == 1 || path[1] != '/' ==> url_path(scheme + seq![':'] + path + rest) == path,
{
    reveal_strlit(":");
    reveal_strlit("//");
    reveal_strlit("?#");
    let n = scheme.len();
    let full = scheme + seq![':', '/', '/'] + host + path + rest;
    lemma_parts_of_a_url(scheme, host, path, rest);
    assert(url_path(full) =~= path);
    assert(":"@[0] == ':');
    assert("?#"@[0] == '?' && "?#"@[1] == '#');
    if path.len() == 1 || path[1] != '/' {
        let short = scheme + seq![':'] + path + rest;
        assert forall|i: int| 0 <= i < n implies !":"@.contains(#[trigger] short[i]) by {
            assert(short[i] == scheme[i]);
        }
        assert(short[n as int] == ':');
        lemma_span_is(short, ":"@, n);
        let end = short.skip(n + 1 as int);
        assert(end =~= path + rest);
        assert(!has_authority(short)) by {
            if has_authority(short) {
                assert(end.subrange(0, 2)[1] == end[1]);
            }
        }
        assert forall|i: int| 0 <= i < path.len() implies !"?#"@.contains(#[trigger] end[i]) by {
            assert(end[i] == path[i]);
        }
        lemma_span_is(end, "?#"@, path.len());
        assert(url_path(short) =~= path);
    }
}

/// Which URLs of files have a path from the root: all whose path is more than a drive
/// letter, and on another host only those whose path begins with what the host
/// shares.
pub proof fn law_which_urls_are_rooted(host: Seq<char>, path: Seq<char>, rest: Seq<char>)
    requires
        forall|i: int|
            0 <= i < host.len() ==> #[trigger] host[i] != '/' && host[i] != '?' && host[i] != '#',
        forall|i: int| 0 <= i < path.len() ==> #[trigger] path[i] != '?' && path[i] != '#',
        path.len() > 0 && path[0] == '/',
        rest.len() == 0 || rest[0] == '?' || rest[0] == '#',
    ensures
        ({
            let url = seq!['f', 'i', 'l', 'e', ':', '/', '/'] + host + path + rest;
            let letter = path.len() >= 2 && ('a' <= path[1] <= 'z' || 'A' <= path[1] <= 'Z');
            let drive = letter && (path.len() == 3 && path[2] == ':' || path.len() == 5 && path[2]
                == '%' && path[3] == '3' && (path[4] == 'a' || path[4] == 'A'));
            let elsewhere = host.len() > 0 && host != "localhost"@;
            &&& url_path(url) == path
            &&& drive ==> !has_rooted_path(url) && rooted_form(url) == Some(
                seq!['f', 'i', 'l', 'e', ':', '/', '/'] + host + path + seq!['/'] + rest,
            )
            &&& !drive && !elsewhere ==> has_rooted_path(url) && rooted_form(url) == Some(url)
            &&& letter && !drive ==> has_rooted_path(url) && rooted_form(url) == Some(url)
            &&& elsewhere && (path.len() == 1 || path[1] == '/') ==> !has_rooted_path(url)
                && rooted_form(url) is None
        }),
{
    let scheme = seq!['f', 'i', 'l', 'e'];
    let url = seq!['f', 'i', 'l', 'e', ':', '/', '/'] + host + path + rest;
    assert(url =~= scheme + seq![':', '/', '/'] + host + path + rest);
    law_path_of_a_url(scheme, host, path, rest);
    lemma_parts_of_a_url(scheme, host, path, rest);
    reveal_strlit("file:");
    reveal_strlit("/");
    assert(url.subrange(0, 5) =~= "file:"@);
    assert(starts_with(url, "file:"@));
    assert(url.subrange(7, 7 + host.len() as int) =~= host);
    let end = path_end(url) as int;
    assert(end == 7 + host.len() + path.len());
    assert(url.subrange(0, end) + "/"@ + url.skip(end) =~= seq![
        'f',
        'i',
        'l',
        'e',
        ':',
        '/',
        '/',
    ] + host + path + seq!['/'] + rest);
}

/// Where the parts of a URL that names a host are.
proof fn lemma_parts_of_a_url(
    scheme: Seq<char>,
    host: Seq<char>,
    path: Seq<char>,
    rest: Seq<char>,
)
    requires
        forall|i: int| 0 <= i < scheme.len() ==> #[trigger] scheme[i] != ':',
        forall|i: int|
            0 <= i < host.len() ==> #[trigger] host[i] != '/' && host[i] != '?' && host[i] != '#',
        forall|i: int| 0 <= i < path.len() ==> #[trigger] path[i] != '?' && path[i] != '#',
        path.len() > 0 && path[0] == '/',
        rest.len() == 0 || rest[0] == '?' || rest[0] == '#',
    ensures
        ({
            let url = scheme + seq![':', '/', '/'] + host + path + rest;
            &&& scheme_end(url) == scheme.len() + 1
            &&& has_authority(url)
            &&& path_start(url) == scheme.len() + 3 + host.len()
            &&& path_end(url) == scheme.len() + 3 + host.len() + path.len()
        }),
{
    reveal_strlit(":");
    reveal_strlit("//");
    reveal_strlit("/?#");
    reveal_strlit("?#");
    let n = scheme.len();
    let full = scheme + seq![':', '/', '/'] + host + path + rest;
    assert(":"@[0] == ':');
    assert("/?#"@[0] == '/' && "/?#"@[1] == '?' && "/?#"@[2] == '#');
    assert("?#"@[0] == '?' && "?#"@[1] == '#');
    assert forall|i: int| 0 <= i < n implies !":"@.contains(#[trigger] full[i]) by {
        assert(full[i] == scheme[i]);
    }
    assert(full[n as int] == ':');
    lemma_span_is(full, ":"@, n);
    assert(full.skip(n + 1 as int).subrange(0, 2) =~= "//"@);
    let tail = full.skip(n + 3 as int);
    assert(tail =~= host + path + rest);
    assert forall|i: int| 0 <= i < host.len() implies !"/?#"@.contains(#[trigger] tail[i]) by {
        assert(tail[i] == host[i]);
    }
    lemma_span_is(tail, "/?#"@, host.len());
    let end = full.skip(n + 3 + host.len() as int);
    assert(end =~= path + rest);
    assert forall|i: int| 0 <= i < path.len() implies !"?#"@.contains(#[trigger] end[i]) by {
        assert(end[i] == path[i]);
    }
    lemma_span_is(end, "?#"@, path.len());
}

} // verus!
