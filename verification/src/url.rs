//! Percent-encoding of query values, and the owner and name of a repository
//! as its REST URL spells them.
use vstd::prelude::*;
use vstd::string::*;
use vstd::utf8::*;

use crate::text::{chars_of, slice_text};

verus! {

/// The bytes that a query value may hold as they are (RFC 3986, "unreserved").
pub open spec fn unreserved(b: u8) -> bool {
    ||| 0x41 <= b <= 0x5a
    ||| 0x61 <= b <= 0x7a
    ||| 0x30 <= b <= 0x39
    ||| b == 0x2d || b == 0x5f || b == 0x2e || b == 0x7e
}

/// The upper-case hexadecimal digit for a number below sixteen.
pub open spec fn hex_digit(d: u8) -> char {
    if d < 10 {
        (0x30 + d) as char
    } else {
        (0x37 + d) as char
    }
}

/// How one byte is written in a query value.
pub open spec fn encoded_byte(b: u8) -> Seq<char> {
    if unreserved(b) {
        seq![b as char]
    } else {
        seq!['%', hex_digit(b / 16), hex_digit(b % 16)]
    }
}

/// How a row of bytes is written in a query value.
pub open spec fn encoded(bytes: Seq<u8>) -> Seq<char>
    decreases bytes.len(),
{
    if bytes.len() == 0 {
        Seq::empty()
    } else {
        encoded(bytes.drop_last()) + encoded_byte(bytes.last())
    }
}

fn hex(d: u8) -> (c: char)
    requires
        d < 16,
    ensures
        c == hex_digit(d),
{
    if d < 10 {
        (0x30 + d) as char
    } else {
        (0x37 + d) as char
    }
}

/// Percent-encode a query-parameter value using the unreserved set
/// from RFC 3986.
pub fn percent_encode(s: &str) -> (r: String)
    ensures
        r@ == encoded(encode_utf8(s@)),
{
    let bytes = s.as_bytes();
    let mut out = String::new();
    let mut i: usize = 0;
    while i < bytes.len()
        invariant
            i <= bytes@.len(),
            out@ == encoded(bytes@.take(i as int)),
        decreases bytes@.len() - i,
    {
        let b: u8 = bytes[i];
        let ghost before = out@;
        if (0x41 <= b && b <= 0x5a) || (0x61 <= b && b <= 0x7a) || (0x30 <= b && b <= 0x39) || b
            == 0x2d || b == 0x5f || b == 0x2e || b == 0x7e {
            out.push(b as char);
        } else {
            out.push('%');
            out.push(hex(b / 16));
            out.push(hex(b % 16));
        }
        proof {
            assert(bytes@.take(i + 1).drop_last() =~= bytes@.take(i as int));
            assert(out@ =~= before + encoded_byte(b));
        }
        i = i + 1;
    }
    proof {
        assert(bytes@.take(i as int) =~= bytes@);
    }
    out
}

/// The part of a REST URL that stands before a repository's owner.
pub open spec fn repos_mark() -> Seq<char> {
    seq!['/', 'r', 'e', 'p', 'o', 's', '/']
}

/// Does the mark stand in `s` at `i`?
pub open spec fn mark_at(s: Seq<char>, i: int) -> bool {
    0 <= i && i + 7 <= s.len() && s.subrange(i, i + 7) == repos_mark()
}

/// Where the last mark that starts before `n` starts.
pub open spec fn last_mark(s: Seq<char>, n: nat) -> Option<nat>
    decreases n,
{
    if n == 0 {
        None
    } else if mark_at(s, n - 1) {
        Some((n - 1) as nat)
    } else {
        last_mark(s, (n - 1) as nat)
    }
}

/// What follows the last mark; all of `s` where there is none.
pub open spec fn after_mark(s: Seq<char>) -> Seq<char> {
    match last_mark(s, s.len()) {
        Some(i) => s.skip(i + 7int),
        None => s,
    }
}

/// Where the first slash at or after `from` stands.
pub open spec fn slash_from(s: Seq<char>, from: nat) -> Option<nat>
    decreases s.len() - from,
{
    if from >= s.len() {
        None
    } else if s[from as int] == '/' {
        Some(from)
    } else {
        slash_from(s, from + 1)
    }
}

/// `s` without the slashes that it ends with.
pub open spec fn trim_slashes(s: Seq<char>) -> Seq<char>
    decreases s.len(),
{
    if s.len() > 0 && s.last() == '/' {
        trim_slashes(s.drop_last())
    } else {
        s
    }
}

/// The owner and the name in a repository URL: what follows the last
/// `/repos/`, cut at its first slash, the name without slashes at its end.
/// Neither may be empty.
pub open spec fn repo_of(url: Seq<char>) -> Option<(Seq<char>, Seq<char>)> {
    let tail = after_mark(url);
    match slash_from(tail, 0) {
        None => None,
        Some(i) => {
            let owner = tail.take(i as int);
            let repo = trim_slashes(tail.skip(i + 1int));
            if owner.len() == 0 || repo.len() == 0 {
                None
            } else {
                Some((owner, repo))
            }
        },
    }
}

fn has_mark(s: &Vec<char>, i: usize) -> (r: bool)
    requires
        i + 7 <= s.len(),
    ensures
        r == mark_at(s@, i as int),
{
    let r = s[i] == '/' && s[i + 1] == 'r' && s[i + 2] == 'e' && s[i + 3] == 'p' && s[i + 4] == 'o'
        && s[i + 5] == 's' && s[i + 6] == '/';
    proof {
        let part = s@.subrange(i as int, i + 7);
        if r {
            assert(part =~= repos_mark());
        } else if part == repos_mark() {
            assert(part[0] == '/' && part[1] == 'r' && part[2] == 'e' && part[3] == 'p' && part[4]
                == 'o' && part[5] == 's' && part[6] == '/');
        }
    }
    r
}

/// Where the text after the last mark starts.
fn tail_start(s: &Vec<char>) -> (r: usize)
    ensures
        r <= s@.len(),
        s@.skip(r as int) == after_mark(s@),
{
    let mut n: usize = s.len();
    while n > 0
        invariant
            n <= s@.len(),
            last_mark(s@, s@.len()) == last_mark(s@, n as nat),
        decreases n,
    {
        n = n - 1;
        if s.len() - n >= 7 && has_mark(s, n) {
            return n + 7;
        }
    }
    proof {
        assert(s@.skip(0) =~= s@);
    }
    0
}

/// Where the first slash at or after `start` stands; the length where there is
/// none.
fn first_slash(s: &Vec<char>, start: usize) -> (r: usize)
    requires
        start <= s@.len(),
    ensures
        start <= r <= s@.len(),
        slash_from(s@.skip(start as int), 0) == (if r < s@.len() {
            Some((r - start) as nat)
        } else {
            None
        }),
{
    let ghost tail = s@.skip(start as int);
    let mut at: usize = start;
    while at < s.len() && s[at] != '/'
        invariant
            start <= at <= s@.len(),
            tail == s@.skip(start as int),
            slash_from(tail, 0) == slash_from(tail, (at - start) as nat),
        decreases s@.len() - at,
    {
        at = at + 1;
    }
    at
}

/// Where the slashes start that the text from `start` on ends with.
fn trimmed_end(s: &Vec<char>, start: usize) -> (r: usize)
    requires
        start <= s@.len(),
    ensures
        start <= r <= s@.len(),
        trim_slashes(s@.skip(start as int)) == s@.subrange(start as int, r as int),
{
    let mut end: usize = s.len();
    assert(s@.subrange(start as int, end as int) =~= s@.skip(start as int));
    while end > start && s[end - 1] == '/'
        invariant
            start <= end <= s@.len(),
            trim_slashes(s@.subrange(start as int, end as int)) == trim_slashes(
                s@.skip(start as int),
            ),
        decreases end,
    {
        assert(s@.subrange(start as int, end as int).drop_last() =~= s@.subrange(
            start as int,
            end - 1,
        ));
        end = end - 1;
    }
    end
}

/// Extract ("owner", "repo") from a GitHub REST repository URL such
/// as `https://api.github.com/repos/OWNER/REPO`.
pub fn repo_from_url(url: &str) -> (r: Option<(String, String)>)
    ensures
        match r {
            Some(pair) => repo_of(url@) == Some((pair.0@, pair.1@)),
            None => repo_of(url@) is None,
        },
{
    let chars = chars_of(url);
    let start = tail_start(&chars);
    let cut = first_slash(&chars, start);
    if cut >= chars.len() {
        return None;
    }
    let end = trimmed_end(&chars, cut + 1);
    proof {
        let tail = chars@.skip(start as int);
        assert(tail.take(cut - start) =~= chars@.subrange(start as int, cut as int));
        assert(tail.skip(cut - start + 1) =~= chars@.skip(cut + 1));
    }
    if cut == start || end == cut + 1 {
        return None;
    }
    Some((slice_text(&chars, start, cut), slice_text(&chars, cut + 1, end)))
}

/// What a query value stands for: the bytes that were written into it.
pub open spec fn decoded(s: Seq<char>) -> Seq<u8>
    decreases s.len(),
{
    if s.len() == 0 {
        Seq::empty()
    } else if s[0] == '%' && s.len() >= 3 {
        seq![(16 * hex_value(s[1]) + hex_value(s[2])) as u8] + decoded(s.skip(3))
    } else {
        seq![s[0] as u8] + decoded(s.skip(1))
    }
}

/// The number that an upper-case hexadecimal digit stands for.
pub open spec fn hex_value(c: char) -> int {
    if c <= '9' {
        c as int - 0x30
    } else {
        c as int - 0x37
    }
}

proof fn encoded_from_the_front(b: u8, rest: Seq<u8>)
    ensures
        encoded(seq![b] + rest) == encoded_byte(b) + encoded(rest),
    decreases rest.len(),
{
    let all = seq![b] + rest;
    if rest.len() == 0 {
        reveal_with_fuel(encoded, 2);
        assert(all.drop_last() =~= Seq::<u8>::empty());
        assert(all.last() == b);
        assert(encoded(all) =~= encoded_byte(b) + encoded(rest));
    } else {
        assert(all.drop_last() =~= seq![b] + rest.drop_last());
        encoded_from_the_front(b, rest.drop_last());
        assert(encoded(all) =~= encoded_byte(b) + encoded(rest));
    }
}

/// A percent-encoded value can be read back: it stands for the bytes that
/// were encoded.
pub proof fn encoded_reads_back(bytes: Seq<u8>)
    ensures
        decoded(encoded(bytes)) == bytes,
    decreases bytes.len(),
{
    if bytes.len() > 0 {
        let b = bytes[0];
        let rest = bytes.skip(1);
        assert(bytes =~= seq![b] + rest);
        encoded_from_the_front(b, rest);
        encoded_reads_back(rest);
        let s = encoded(bytes);
        if unreserved(b) {
            assert(s[0] == b as char);
            assert(s.skip(1) =~= encoded(rest));
            assert(s[0] != '%');
        } else {
            assert(s[0] == '%' && s[1] == hex_digit(b / 16) && s[2] == hex_digit(b % 16));
            assert(s.skip(3) =~= encoded(rest));
            assert(16 * hex_value(s[1]) + hex_value(s[2]) == b);
        }
        assert(decoded(s) =~= bytes);
    }
}

/// A percent-encoded value holds unreserved characters and `%` only, so it
/// cannot end the query parameter that it stands in.
pub proof fn encoded_is_safe(bytes: Seq<u8>)
    ensures
        forall|i: int|
            0 <= i < encoded(bytes).len() ==> {
                let c = #[trigger] encoded(bytes)[i];
                c == '%' || (c as int <= 0x7e && unreserved(c as u8))
            },
    decreases bytes.len(),
{
    if bytes.len() > 0 {
        let before = encoded(bytes.drop_last());
        let b = bytes.last();
        encoded_is_safe(bytes.drop_last());
        assert forall|i: int| 0 <= i < encoded(bytes).len() implies {
            let c = #[trigger] encoded(bytes)[i];
            c == '%' || (c as int <= 0x7e && unreserved(c as u8))
        } by {
            if i < before.len() {
                assert(encoded(bytes)[i] == before[i]);
            } else {
                assert(encoded(bytes)[i] == encoded_byte(b)[i - before.len()]);
            }
        }
    }
}

/// What needs no encoding stays as it is.
pub proof fn unreserved_stays(bytes: Seq<u8>)
    requires
        forall|i: int| 0 <= i < bytes.len() ==> unreserved(#[trigger] bytes[i]),
    ensures
        encoded(bytes) == bytes.map_values(|b: u8| b as char),
    decreases bytes.len(),
{
    if bytes.len() > 0 {
        unreserved_stays(bytes.drop_last());
    }
    assert(encoded(bytes) =~= bytes.map_values(|b: u8| b as char));
}

proof fn slash_from_is_first(s: Seq<char>, from: nat)
    ensures
        slash_from(s, from) matches Some(i) ==> {
            &&& from <= i < s.len()
            &&& s[i as int] == '/'
            &&& forall|j: int| from <= j < i ==> s[j] != '/'
        },
        slash_from(s, from) is None ==> forall|j: int| from <= j < s.len() ==> s[j] != '/',
    decreases s.len() - from,
{
    if from < s.len() && s[from as int] != '/' {
        slash_from_is_first(s, from + 1);
    }
}

proof fn trim_slashes_ends(s: Seq<char>)
    ensures
        trim_slashes(s).len() > 0 ==> trim_slashes(s).last() != '/',
    decreases s.len(),
{
    if s.len() > 0 && s.last() == '/' {
        trim_slashes_ends(s.drop_last());
    }
}

/// An owner and a name that are read out of a URL are never empty, the owner
/// holds no slash, and the name does not end with one.
pub proof fn repo_parts_are_sound(url: Seq<char>)
    ensures
        repo_of(url) matches Some(pair) ==> {
            &&& pair.0.len() > 0
            &&& pair.1.len() > 0
            &&& !pair.0.contains('/')
            &&& pair.1.last() != '/'
        },
{
    let tail = after_mark(url);
    slash_from_is_first(tail, 0);
    if let Some(i) = slash_from(tail, 0) {
        trim_slashes_ends(tail.skip(i + 1int));
    }
}

/// Is `z` made of slashes alone?
pub open spec fn slashes(z: Seq<char>) -> bool {
    forall|i: int| 0 <= i < z.len() ==> #[trigger] z[i] == '/'
}

/// Is `url` put together from `p`, an owner, a slash, a name and `z`, where
/// the owner has no slash, the name does not end with one, `z` is slashes
/// alone, `p` is empty or ends with the mark, and no mark starts after that?
pub open spec fn spells(
    url: Seq<char>,
    p: Seq<char>,
    owner: Seq<char>,
    repo: Seq<char>,
    z: Seq<char>,
) -> bool {
    &&& url == p + owner + seq!['/'] + repo + z
    &&& owner.len() > 0 && !owner.contains('/')
    &&& repo.len() > 0 && repo.last() != '/'
    &&& slashes(z)
    &&& p.len() == 0 || (p.len() >= 7 && p.skip(p.len() - 7) == repos_mark())
    &&& forall|j: int| p.len() - 7 < j ==> !#[trigger] mark_at(url, j)
}

proof fn last_mark_is_last(s: Seq<char>, n: nat)
    ensures
        match last_mark(s, n) {
            Some(p) => p < n && mark_at(s, p as int) && forall|j: int|
                p < j < n ==> !#[trigger] mark_at(s, j),
            None => forall|j: int| 0 <= j < n ==> !#[trigger] mark_at(s, j),
        },
    decreases n,
{
    if n > 0 {
        last_mark_is_last(s, (n - 1) as nat);
    }
}

proof fn trim_slashes_trims(s: Seq<char>, z: Seq<char>)
    requires
        s.len() > 0,
        s.last() != '/',
        slashes(z),
    ensures
        trim_slashes(s + z) == s,
    decreases z.len(),
{
    if z.len() == 0 {
        assert(s + z =~= s);
    } else {
        assert(z[z.len() - 1] == '/');
        assert((s + z).last() == '/');
        assert((s + z).drop_last() =~= s + z.drop_last());
        trim_slashes_trims(s, z.drop_last());
    }
}

proof fn trim_slashes_leaves(s: Seq<char>)
    ensures
        trim_slashes(s).len() <= s.len(),
        s == trim_slashes(s) + s.skip(trim_slashes(s).len() as int),
        slashes(s.skip(trim_slashes(s).len() as int)),
    decreases s.len(),
{
    let n: int = trim_slashes(s).len() as int;
    if s.len() > 0 && s.last() == '/' {
        let front = s.drop_last();
        trim_slashes_leaves(front);
        assert(s =~= trim_slashes(s) + s.skip(n)) by {
            assert(front =~= trim_slashes(front) + front.skip(n));
            assert forall|i: int| 0 <= i < n implies s[i] == trim_slashes(s)[i] by {
                assert(front[i] == (trim_slashes(front) + front.skip(n))[i]);
            }
        }
        assert forall|i: int| 0 <= i < s.skip(n).len() implies #[trigger] s.skip(n)[i] == '/' by {
            if i < front.skip(n).len() {
                assert(front.skip(n)[i] == s.skip(n)[i]);
            }
        }
    } else {
        assert(s =~= trim_slashes(s) + s.skip(n));
    }
}

/// A URL that is put together from its parts gives back owner and name.
proof fn spelled_is_read(
    url: Seq<char>,
    p: Seq<char>,
    owner: Seq<char>,
    repo: Seq<char>,
    z: Seq<char>,
)
    requires
        spells(url, p, owner, repo, z),
    ensures
        repo_of(url) == Some((owner, repo)),
{
    last_mark_is_last(url, url.len());
    if p.len() > 0 {
        let m: int = p.len() - 7;
        assert(url.subrange(m, m + 7) =~= p.skip(m));
        assert(mark_at(url, m));
    }
    let tail = after_mark(url);
    assert(tail =~= owner + seq!['/'] + repo + z);
    slash_from_is_first(tail, 0);
    assert(tail[owner.len() as int] == '/');
    let i = slash_from(tail, 0)->0;
    assert(i == owner.len()) by {
        if i < owner.len() {
            assert(tail[i as int] == owner[i as int]);
        }
    }
    assert(tail.take(i as int) =~= owner);
    assert(tail.skip(i + 1int) =~= repo + z);
    trim_slashes_trims(repo, z);
}

/// What stands before the part of a URL that owner and name are read out of.
pub open spec fn before_tail(url: Seq<char>) -> Seq<char> {
    url.take(url.len() - after_mark(url).len())
}

/// What follows owner and name in a URL.
pub open spec fn after_repo(url: Seq<char>, owner: Seq<char>, repo: Seq<char>) -> Seq<char> {
    url.skip(before_tail(url).len() + owner.len() + 1int + repo.len())
}

/// A URL that owner and name are read out of is put together from them.
proof fn read_is_spelled(url: Seq<char>, owner: Seq<char>, repo: Seq<char>)
    requires
        repo_of(url) == Some((owner, repo)),
    ensures
        spells(url, before_tail(url), owner, repo, after_repo(url, owner, repo)),
{
    repo_parts_are_sound(url);
    last_mark_is_last(url, url.len());
    let p = before_tail(url);
    let tail = after_mark(url);
    slash_from_is_first(tail, 0);
    let i: int = slash_from(tail, 0)->0 as int;
    let rest = tail.skip(i + 1);
    trim_slashes_leaves(rest);
    let z = after_repo(url, owner, repo);
    assert(url =~= p + tail);
    assert(tail =~= owner + seq!['/'] + rest);
    assert(z =~= rest.skip(repo.len() as int));
    assert(url =~= p + owner + seq!['/'] + repo + z);
    if let Some(m) = last_mark(url, url.len()) {
        assert(p.skip(p.len() - 7) =~= url.subrange(m as int, m + 7int));
    }
    assert forall|j: int| p.len() - 7 < j implies !#[trigger] mark_at(url, j) by {}
}

/// Owner and name are read out of a URL exactly when the URL is put together
/// from them: after nothing or after a mark, with a slash between them and any
/// number of slashes at the end, and with no mark further on.
pub proof fn repo_is_what_the_url_spells(url: Seq<char>, owner: Seq<char>, repo: Seq<char>)
    ensures
        repo_of(url) == Some((owner, repo)) <==> exists|p: Seq<char>, z: Seq<char>| #[trigger]
            spells(url, p, owner, repo, z),
{
    if repo_of(url) == Some((owner, repo)) {
        read_is_spelled(url, owner, repo);
    }
    if exists|p: Seq<char>, z: Seq<char>| #[trigger] spells(url, p, owner, repo, z) {
        let (p, z) = choose|p: Seq<char>, z: Seq<char>| #[trigger] spells(url, p, owner, repo, z);
        spelled_is_read(url, p, owner, repo, z);
    }
}

/// A repository's URL leads back to it: from `<base>/repos/OWNER/REPO`, with
/// any number of slashes at its end, come OWNER and REPO, for every base. An
/// owner called `repos` is the exception, because its own name then reads as
/// the mark that owners follow, and so is a repository called `repos` with a
/// slash after it.
pub proof fn repo_url_reads_back(
    base: Seq<char>,
    owner: Seq<char>,
    repo: Seq<char>,
    z: Seq<char>,
)
    requires
        owner.len() > 0,
        repo.len() > 0,
        !owner.contains('/'),
        !repo.contains('/'),
        slashes(z),
        owner != seq!['r', 'e', 'p', 'o', 's'],
        z.len() == 0 || repo != seq!['r', 'e', 'p', 'o', 's'],
    ensures
        repo_of(base + repos_mark() + owner + seq!['/'] + repo + z) == Some((owner, repo)),
{
    let p = base + repos_mark();
    let s = p + owner + seq!['/'] + repo + z;
    let n: int = p.len() as int;
    let q: int = n + owner.len();
    let e: int = q + 1 + repo.len();
    assert(p.skip(n - 7) =~= repos_mark());
    assert(s[n - 1] == '/' && s[q] == '/');
    assert forall|k: int| n <= k < e && k != q implies s[k] != '/' by {
        if k < q {
            assert(s[k] == owner[k - n]);
        } else {
            assert(s[k] == repo[k - q - 1]);
        }
    }
    assert forall|k: int| e <= k < s.len() implies s[k] == '/' by {
        assert(s[k] == z[k - e]);
    }
    assert forall|j: int| n - 7 < j implies !#[trigger] mark_at(s, j) by {
        if mark_at(s, j) {
            let part = s.subrange(j, j + 7);
            assert(part[0] == '/' && part[1] == 'r' && part[2] == 'e' && part[3] == 'p' && part[4]
                == 'o' && part[5] == 's' && part[6] == '/');
            assert(s[j] == '/' && s[j + 1] == 'r' && s[j + 2] == 'e' && s[j + 3] == 'p' && s[j + 4]
                == 'o' && s[j + 5] == 's' && s[j + 6] == '/');
            if j < n - 1 {
                assert(s[j] == repos_mark()[j - n + 7]);
            } else if j == n - 1 {
                assert(q == n + 5);
                assert forall|k: int| 0 <= k < 5 implies owner[k] == part[k + 1] by {
                    assert(s[n + k] == owner[k]);
                }
                assert(owner =~= seq!['r', 'e', 'p', 'o', 's']);
            } else {
                assert(j == q);
                assert(e == q + 6);
                assert forall|k: int| 0 <= k < 5 implies repo[k] == part[k + 1] by {
                    assert(s[q + 1 + k] == repo[k]);
                }
                assert(repo =~= seq!['r', 'e', 'p', 'o', 's']);
            }
        }
    }
    assert(repo[repo.len() - 1] != '/') by {
        assert(repo.contains(repo[repo.len() - 1]));
    }
    spelled_is_read(s, p, owner, repo, z);
}

/// Encoding goes byte by byte: letters, digits, `-`, `_`, `.` and `~` stand for
/// themselves, and every other byte is written as `%` and its two upper-case
/// hexadecimal digits.
pub proof fn bytes_are_encoded_one_by_one(one: Seq<u8>, b: u8, other: Seq<u8>)
    ensures
        encoded(Seq::<u8>::empty()) == Seq::<char>::empty(),
        encoded(one + other) == encoded(one) + encoded(other),
        ('A' <= b as char <= 'Z' || 'a' <= b as char <= 'z' || '0' <= b as char <= '9' || b as char
            == '-' || b as char == '_' || b as char == '.' || b as char == '~') ==> encoded(seq![b])
            == seq![b as char],
        !('A' <= b as char <= 'Z' || 'a' <= b as char <= 'z' || '0' <= b as char <= '9' || b as char
            == '-' || b as char == '_' || b as char == '.' || b as char == '~') ==> encoded(seq![b])
            == seq!['%', "0123456789ABCDEF"@[b as int / 16], "0123456789ABCDEF"@[b as int % 16]],
    decreases other.len(),
{
    reveal_strlit("0123456789ABCDEF");
    assert("0123456789ABCDEF"@ =~= seq![
        '0', '1', '2', '3', '4', '5', '6', '7', '8', '9', 'A', 'B', 'C', 'D', 'E', 'F',
    ]);
    assert(forall|d: u8| d < 16 ==> #[trigger] hex_digit(d) == "0123456789ABCDEF"@[d as int]);
    encoded_from_the_front(b, Seq::empty());
    assert(seq![b] + Seq::<u8>::empty() =~= seq![b]);
    assert(encoded_byte(b) + encoded(Seq::<u8>::empty()) =~= encoded_byte(b));
    if other.len() == 0 {
        assert(one + other =~= one);
        assert(encoded(one) + encoded(other) =~= encoded(one));
    } else {
        bytes_are_encoded_one_by_one(one, b, other.drop_last());
        assert((one + other).drop_last() =~= one + other.drop_last());
        assert(encoded(one + other) =~= encoded(one) + encoded(other));
    }
}

/// Owner and name are found in every URL that is put together from them: after
/// nothing or after `/repos/`, with a slash between them and any number of
/// slashes at the end, as long as no `/repos/` starts further on.
pub proof fn every_repository_url_is_read(
    p: Seq<char>,
    owner: Seq<char>,
    repo: Seq<char>,
    z: Seq<char>,
)
    requires
        p.len() == 0 || (p.len() >= 7 && p.skip(p.len() - 7) == "/repos/"@),
        owner.len() > 0,
        forall|i: int| 0 <= i < owner.len() ==> #[trigger] owner[i] != '/',
        repo.len() > 0,
        repo.last() != '/',
        forall|i: int| 0 <= i < z.len() ==> #[trigger] z[i] == '/',
        forall|j: int|
            0 <= j && p.len() - 7 < j && j + 7 <= (p + owner + "/"@ + repo + z).len() ==> #[trigger] (
            p + owner + "/"@ + repo + z).subrange(j, j + 7) != "/repos/"@,
    ensures
        repo_of(p + owner + "/"@ + repo + z) == Some((owner, repo)),
{
    reveal_strlit("/repos/");
    reveal_strlit("/");
    assert("/repos/"@ =~= repos_mark());
    assert("/"@ =~= seq!['/']);
    let url = p + owner + "/"@ + repo + z;
    assert forall|j: int| p.len() - 7 < j implies !#[trigger] mark_at(url, j) by {
        if mark_at(url, j) {
            assert(url.subrange(j, j + 7) == "/repos/"@);
        }
    }
    spelled_is_read(url, p, owner, repo, z);
}

/// What is found in a URL stands in it: the URL is the owner, a slash and the
/// name, with nothing or something that ends with `/repos/` before them and
/// with nothing but slashes after them.
pub proof fn what_is_read_stands_in_the_url(url: Seq<char>, owner: Seq<char>, repo: Seq<char>)
    requires
        repo_of(url) == Some((owner, repo)),
    ensures
        owner.len() > 0,
        forall|i: int| 0 <= i < owner.len() ==> #[trigger] owner[i] != '/',
        repo.len() > 0,
        repo.last() != '/',
        exists|p: Seq<char>, z: Seq<char>|
            {
                &&& url == #[trigger] (p + owner + "/"@ + repo + z)
                &&& p.len() == 0 || (p.len() >= 7 && p.skip(p.len() - 7) == "/repos/"@)
                &&& forall|i: int| 0 <= i < z.len() ==> #[trigger] z[i] == '/'
                &&& forall|j: int|
                    0 <= j && p.len() - 7 < j && j + 7 <= url.len() ==> #[trigger] url.subrange(
                        j,
                        j + 7,
                    ) != "/repos/"@
            },
{
    reveal_strlit("/repos/");
    reveal_strlit("/");
    assert("/repos/"@ =~= repos_mark());
    assert("/"@ =~= seq!['/']);
    read_is_spelled(url, owner, repo);
    let p = before_tail(url);
    let z = after_repo(url, owner, repo);
    assert(url == p + owner + "/"@ + repo + z);
    assert forall|i: int| 0 <= i < owner.len() implies #[trigger] owner[i] != '/' by {
        assert(owner.contains(owner[i]));
    }
    assert forall|j: int| 0 <= j && p.len() - 7 < j && j + 7 <= url.len() implies #[trigger] url.subrange(
        j,
        j + 7,
    ) != "/repos/"@ by {
        assert(!mark_at(url, j));
    }
}

}
