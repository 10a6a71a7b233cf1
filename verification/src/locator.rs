use vstd::prelude::*;
use vstd::string::{StrSliceExecFns, StringExecFns};
use crate::bundle::LoadError;

verus! {

/// The place of the first `c` in `s` at or behind `from`, or the length of `s` where
/// there is none.
pub open spec fn first_at(s: Seq<char>, c: char, from: int) -> int
    decreases s.len() - from,
{
    if from < 0 || from >= s.len() {
        s.len() as int
    } else if s[from] == c {
        from
    } else {
        first_at(s, c, from + 1)
    }
}

/// `word` stands in `s` at the place `at`.
pub open spec fn starts_at(s: Seq<char>, at: int, word: Seq<char>) -> bool {
    0 <= at && at + word.len() <= s.len() && s.subrange(at, at + word.len()) == word
}

/// The end of `s` between `from` and `to` once the slashes at its end are left off.
pub open spec fn trimmed_end(s: Seq<char>, from: int, to: int) -> int
    decreases to - from,
{
    if to <= from {
        from
    } else if s[to - 1] == '/' {
        trimmed_end(s, from, to - 1)
    } else {
        to
    }
}

/// The start of the segment of `s` that ends at `end`, not before `from`.
pub open spec fn segment_start(s: Seq<char>, from: int, end: int) -> int
    decreases end - from,
{
    if end <= from {
        from
    } else if s[end - 1] == '/' {
        end
    } else {
        segment_start(s, from, end - 1)
    }
}

/// Where the part of a locator starts in which the key is looked for, where the locator
/// has one of the three accepted forms: `https://<host>/api/download/key/<key>`,
/// `https://<host>/beatmap/<key>`, or `<scheme>://<key>`.
pub open spec fn tail_start(url: Seq<char>) -> Option<int> {
    let colon = first_at(url, ':', 0);
    let rest = colon + 3;
    let host_end = first_at(url, '/', rest);
    let secure = colon == "https"@.len() && starts_at(url, 0, "https"@);
    if colon == 0 || !starts_at(url, colon, "://"@) || first_at(url, '/', 0) != colon + 1 {
        None
    } else if secure && host_end > rest && starts_at(url, host_end, "/api/download/key/"@) {
        Some(host_end + "/api/download/key/"@.len())
    } else if secure && host_end > rest && starts_at(url, host_end, "/beatmap/"@) {
        Some(host_end + "/beatmap/"@.len())
    } else if trimmed_end(url, rest, url.len() as int) <= host_end {
        Some(rest)
    } else {
        None
    }
}

/// Where the key of a locator stands: the last segment that is not empty of the part
/// behind the accepted prefix. `None` where the locator has none of the accepted forms or
/// no such segment.
pub open spec fn key_span(url: Seq<char>) -> Option<(int, int)> {
    match tail_start(url) {
        Some(tail) => {
            let end = trimmed_end(url, tail, url.len() as int);
            if end > tail {
                Some((segment_start(url, tail, end), end))
            } else {
                None
            }
        },
        None => None,
    }
}

/// The key of a locator.
pub open spec fn key_of(url: Seq<char>) -> Option<Seq<char>> {
    match key_span(url) {
        Some((start, end)) => Some(url.subrange(start, end)),
        None => None,
    }
}

/// The characters of a string.
fn chars_of(s: &str) -> (r: Vec<char>)
    ensures
        r@ == s@,
{
    let n: usize = s.unicode_len();
    let mut out: Vec<char> = Vec::new();
    let mut i: usize = 0;
    while i < n
        invariant
            i <= n,
            n == s@.len(),
            out@ == s@.take(i as int),
        decreases n - i,
    {
        out.push(s.get_char(i));
        assert(out@ =~= s@.take(i + 1));
        i += 1;
    }
    assert(s@.take(n as int) =~= s@);
    out
}

fn find(s: &Vec<char>, c: char, from: usize) -> (r: usize)
    requires
        from <= s.len(),
    ensures
        r == first_at(s@, c, from as int),
        from <= r <= s.len(),
{
    let mut i: usize = from;
    while i < s.len()
        invariant
            from <= i <= s.len(),
            first_at(s@, c, from as int) == first_at(s@, c, i as int),
        decreases s.len() - i,
    {
        if s[i] == c {
            return i;
        }
        i += 1;
    }
    i
}

fn begins(s: &Vec<char>, at: usize, word: &Vec<char>) -> (r: bool)
    requires
        at <= s.len(),
    ensures
        r == starts_at(s@, at as int, word@),
{
    if word.len() > s.len() - at {
        return false;
    }
    let mut k: usize = 0;
    while k < word.len()
        invariant
            k <= word.len(),
            at + word.len() <= s.len(),
            forall|j: int| 0 <= j < k ==> s@[at + j] == word@[j],
        decreases word.len() - k,
    {
        if s[at + k] != word[k] {
            assert(s@.subrange(at as int, at + word.len())[k as int] != word@[k as int]);
            return false;
        }
        k += 1;
    }
    assert(s@.subrange(at as int, at + word.len()) =~= word@);
    true
}

fn trim(s: &Vec<char>, from: usize, to: usize) -> (r: usize)
    requires
        from <= to <= s.len(),
    ensures
        r == trimmed_end(s@, from as int, to as int),
        from <= r <= to,
{
    let mut e: usize = to;
    while e > from && s[e - 1] == '/'
        invariant
            from <= e <= to,
            to <= s.len(),
            trimmed_end(s@, from as int, to as int) == trimmed_end(s@, from as int, e as int),
        decreases e,
    {
        e -= 1;
    }
    e
}

fn segment(s: &Vec<char>, from: usize, end: usize) -> (r: usize)
    requires
        from <= end <= s.len(),
    ensures
        r == segment_start(s@, from as int, end as int),
        from <= r <= end,
{
    let mut b: usize = end;
    while b > from && s[b - 1] != '/'
        invariant
            from <= b <= end,
            end <= s.len(),
            segment_start(s@, from as int, end as int) == segment_start(s@, from as int, b as int),
        decreases b,
    {
        b -= 1;
    }
    b
}

fn find_tail(s: &Vec<char>) -> (r: Option<usize>)
    ensures
        r is Some <==> tail_start(s@) is Some,
        r matches Some(t) ==> tail_start(s@) == Some(t as int) && t <= s.len(),
{
    let colon: usize = find(s, ':', 0);
    let mark = chars_of("://");
    proof {
        reveal_strlit("://");
    }
    if colon == 0 || !begins(s, colon, &mark) || find(s, '/', 0) != colon + 1 {
        return None;
    }
    let rest: usize = colon + 3;
    let host_end: usize = find(s, '/', rest);
    let https = chars_of("https");
    let download = chars_of("/api/download/key/");
    let page = chars_of("/beatmap/");
    let secure = colon == https.len() && begins(s, 0, &https);
    if secure && host_end > rest && begins(s, host_end, &download) {
        Some(host_end + download.len())
    } else if secure && host_end > rest && begins(s, host_end, &page) {
        Some(host_end + page.len())
    } else if trim(s, rest, s.len()) <= host_end {
        Some(rest)
    } else {
        None
    }
}

/// Takes the key of a map out of a locator of one of the forms
/// `https://<host>/api/download/key/<key>`, `https://<host>/beatmap/<key>` and
/// `<scheme>://<key>`: the last segment that is not empty. Any other text is refused.
pub fn extract_key(url: &str) -> (r: Result<String, LoadError>)
    ensures
        match key_of(url@) {
            Some(key) => r matches Ok(k) && k@ == key,
            None => r == Err::<String, LoadError>(LoadError::InvalidReference),
        },
{
    let s = chars_of(url);
    let tail: usize = match find_tail(&s) {
        Some(tail) => tail,
        None => return Err(LoadError::InvalidReference),
    };
    let end: usize = trim(&s, tail, s.len());
    if end > tail {
        let start: usize = segment(&s, tail, end);
        Ok(url.substring_char(start, end).to_owned())
    } else {
        Err(LoadError::InvalidReference)
    }
}

/// Where the archive of the map with this key is fetched from.
pub fn download_location(key: &str) -> (r: String)
    ensures
        r@ == "https://beatsaver.com/api/download/key/"@ + key@,
{
    let mut location = "https://beatsaver.com/api/download/key/".to_owned();
    location.append(key);
    location
}

} // verus!
