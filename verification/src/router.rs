//! Which request is which: the path of a URL, and the endpoint that a method
//! and a path name.

use vstd::prelude::*;
use vstd::string::{StrSliceExecFns, StringSliceAdditionalSpecFns};
use vstd::utf8::encode_utf8_decode_utf8;

verus! {

/// The endpoints of the server, and `Unknown` for every other request.
#[derive(Clone, Copy, Debug, Eq, PartialEq, Structural)]
pub enum Route {
    Info,
    Start,
    End,
    Move,
    Unknown,
}

/// The position of the slash that has `skip` slashes between `from` and
/// itself, if `text` has so many slashes from `from` on.
pub open spec fn find_slash(text: Seq<char>, from: int, skip: nat) -> Option<int>
    decreases text.len() - from,
{
    if from < 0 || from >= text.len() {
        None
    } else if text[from] != '/' {
        find_slash(text, from + 1, skip)
    } else if skip == 0 {
        Some(from)
    } else {
        find_slash(text, from + 1, (skip - 1) as nat)
    }
}

/// The path of `url`: what stands from its third slash on. The first two
/// slashes are those that follow the scheme.
pub open spec fn url_path(url: Seq<char>) -> Option<Seq<char>> {
    match find_slash(url, 0, 2) {
        Some(start) => Some(url.skip(start)),
        None => None,
    }
}

/// The number of slashes in `text`.
pub open spec fn slashes(text: Seq<char>) -> nat
    decreases text.len(),
{
    if text.len() == 0 {
        0
    } else {
        slashes(text.drop_last()) + if text.last() == '/' {
            1nat
        } else {
            0nat
        }
    }
}

/// The endpoint that `method` and `path` name.
pub open spec fn routed(method: Seq<char>, path: Seq<char>) -> Route {
    if method == "GET"@ && path == "/"@ {
        Route::Info
    } else if method == "POST"@ && path == "/start"@ {
        Route::Start
    } else if method == "POST"@ && path == "/end"@ {
        Route::End
    } else if method == "POST"@ && path == "/move"@ {
        Route::Move
    } else {
        Route::Unknown
    }
}

/// Reads the character at position `i`. A text known to be ASCII is read in
/// place; any other is walked from its start.
fn char_at(text: &str, ascii: bool, i: usize) -> (c: char)
    requires
        i < text@.len(),
        ascii ==> text.is_ascii(),
    ensures
        c == text@[i as int],
{
    if ascii {
        let b = text.get_ascii(i);
        assert(text@[i as int] <= '\u{7f}');
        b as char
    } else {
        text.get_char(i)
    }
}

/// Cuts the path out of `url`. There is none where `url` has fewer than
/// three slashes.
pub fn path_of(url: &str) -> (path: Option<&str>)
    ensures
        match path {
            Some(p) => url_path(url@) == Some(p@),
            None => url_path(url@).is_none(),
        },
{
    let ascii = url.is_ascii();
    let n = url.unicode_len();
    let mut i: usize = 0;
    let mut skip: u8 = 2;
    while i < n
        invariant
            i <= n,
            n == url@.len(),
            skip <= 2,
            ascii ==> url.is_ascii(),
            find_slash(url@, 0, 2) == find_slash(url@, i as int, skip as nat),
        decreases n - i,
    {
        if char_at(url, ascii, i) == '/' {
            if skip == 0 {
                let p = if ascii {
                    url.substring_ascii(i, n)
                } else {
                    url.substring_char(i, n)
                };
                assert(p@ == url@.skip(i as int));
                return Some(p);
            }
            skip -= 1;
        }
        i += 1;
    }
    None
}

/// Tells whether two strings hold the same text.
fn same_text(a: &str, b: &str) -> (same: bool)
    ensures
        same == (a@ == b@),
{
    let x = a.as_bytes();
    let y = b.as_bytes();
    proof {
        encode_utf8_decode_utf8(a@);
        encode_utf8_decode_utf8(b@);
    }
    if x.len() != y.len() {
        return false;
    }
    let mut i: usize = 0;
    while i < x.len()
        invariant
            i <= x@.len(),
            x@.len() == y@.len(),
            x@ == a.spec_bytes(),
            y@ == b.spec_bytes(),
            forall|k: int| 0 <= k < i ==> x@[k] == y@[k],
        decreases x@.len() - i,
    {
        if x[i] != y[i] {
            return false;
        }
        i += 1;
    }
    assert(x@ =~= y@);
    true
}

/// Finds the endpoint that `method` and `path` name.
pub fn route(method: &str, path: &str) -> (r: Route)
    ensures
        r == routed(method@, path@),
{
    if same_text(method, "GET") && same_text(path, "/") {
        Route::Info
    } else if same_text(method, "POST") && same_text(path, "/start") {
        Route::Start
    } else if same_text(method, "POST") && same_text(path, "/end") {
        Route::End
    } else if same_text(method, "POST") && same_text(path, "/move") {
        Route::Move
    } else {
        Route::Unknown
    }
}

/// What `find_slash` finds is a slash with exactly `skip` slashes between
/// `from` and itself, and it finds none only where `text` has no more than
/// `skip` slashes from `from` on.
pub proof fn find_slash_counts(text: Seq<char>, from: int, skip: nat)
    requires
        0 <= from <= text.len(),
    ensures
        match find_slash(text, from, skip) {
            Some(at) => {
                &&& from <= at < text.len()
                &&& text[at] == '/'
                &&& slashes(text.take(at)) == slashes(text.take(from)) + skip
            },
            None => slashes(text) <= slashes(text.take(from)) + skip,
        },
    decreases text.len() - from,
{
    if from == text.len() {
        assert(text.take(from) =~= text);
    } else {
        assert(text.take(from + 1).drop_last() =~= text.take(from));
        assert(text.take(from + 1).last() == text[from]);
        if text[from] != '/' {
            find_slash_counts(text, from + 1, skip);
        } else if skip > 0 {
            find_slash_counts(text, from + 1, (skip - 1) as nat);
        }
    }
}

/// A text has at least as many slashes as any of its prefixes.
pub proof fn slashes_grow(text: Seq<char>, len: int)
    requires
        0 <= len <= text.len(),
    ensures
        slashes(text.take(len)) <= slashes(text),
    decreases text.len(),
{
    if len == text.len() {
        assert(text.take(len) =~= text);
    } else {
        assert(text.drop_last().take(len) =~= text.take(len));
        slashes_grow(text.drop_last(), len);
    }
}

/// The path of a URL starts at the slash before which exactly two slashes
/// stand, and a URL has a path just when it has three slashes or more.
pub proof fn path_starts_at_third_slash(url: Seq<char>)
    ensures
        match find_slash(url, 0, 2) {
            Some(at) => {
                &&& 0 <= at < url.len()
                &&& url[at] == '/'
                &&& slashes(url.take(at)) == 2
                &&& url_path(url) == Some(url.skip(at))
            },
            None => slashes(url) < 3 && url_path(url).is_none(),
        },
        url_path(url).is_some() <==> slashes(url) >= 3,
{
    find_slash_counts(url, 0, 2);
    assert(url.take(0) =~= Seq::<char>::empty());
    match find_slash(url, 0, 2) {
        Some(at) => {
            slashes_grow(url, at + 1);
            assert(url.take(at + 1).drop_last() =~= url.take(at));
        },
        None => {},
    }
}

} // verus!
