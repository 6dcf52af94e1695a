//! The on-disk layout of the audio cache: one deterministic, sanitized path
//! for each track.

use crate::text::{decimal, decimal_text, opt_view, string_of};
use crate::track::Track;
use vstd::prelude::*;
use vstd::string::{StrSliceExecFns, StringExecFns};

verus! {

/// The longest sanitized name, in characters.
pub const MAX_NAME_CHARS: usize = 100;

/// Characters of the general category Cc.
pub open spec fn is_control_char(c: char) -> bool {
    (c as u32) <= 0x1f || (0x7f <= (c as u32) && (c as u32) <= 0x9f)
}

/// Characters that become an underscore: those a file system reserves,
/// control characters, and spaces.
pub open spec fn is_replaced(c: char) -> bool {
    c == '/' || c == '\\' || c == ':' || c == '*' || c == '?' || c == '"' || c == '<' || c
        == '>' || c == '|' || c == '\0' || c == ' ' || is_control_char(c)
}

/// Characters trimmed from both ends of a name.
pub open spec fn is_edge(c: char) -> bool {
    c == '_' || c == '.'
}

pub open spec fn replaced(s: Seq<char>) -> Seq<char> {
    s.map_values(|c: char| if is_replaced(c) { '_' } else { c })
}

/// `s` with each run of underscores shortened to one.
pub open spec fn collapsed(s: Seq<char>) -> Seq<char>
    decreases s.len(),
{
    if s.len() == 0 {
        s
    } else {
        let p = collapsed(s.drop_last());
        if s.last() == '_' && p.len() > 0 && p.last() == '_' {
            p
        } else {
            p.push(s.last())
        }
    }
}

pub open spec fn truncated(s: Seq<char>) -> Seq<char> {
    if s.len() > MAX_NAME_CHARS {
        s.take(MAX_NAME_CHARS as int)
    } else {
        s
    }
}

/// The first index at or after `i` that is no edge character.
pub open spec fn lead(s: Seq<char>, i: int) -> int
    decreases s.len() - i,
{
    if 0 <= i < s.len() && is_edge(s[i]) {
        lead(s, i + 1)
    } else {
        i
    }
}

/// One past the last index before `j`, and not before `a`, that is no edge character.
pub open spec fn trail(s: Seq<char>, j: int, a: int) -> int
    decreases j - a,
{
    if a < j <= s.len() && is_edge(s[j - 1]) {
        trail(s, j - 1, a)
    } else {
        j
    }
}

/// `s` without edge characters at either end.
pub open spec fn trimmed(s: Seq<char>) -> Seq<char> {
    let a = lead(s, 0);
    s.subrange(a, trail(s, s.len() as int, a))
}

/// A name made safe as one path component.
pub open spec fn sanitized(s: Seq<char>) -> Seq<char> {
    let t = trimmed(truncated(collapsed(replaced(s))));
    if t.len() == 0 {
        "unknown"@
    } else {
        t
    }
}

/// The file extension for a MIME type.
pub open spec fn extension_of(mime: Seq<char>) -> Seq<char> {
    if has_infix(mime, "mp4"@) {
        "mp4"@
    } else if has_infix(mime, "mp3"@) {
        "mp3"@
    } else if has_infix(mime, "flac"@) {
        "flac"@
    } else {
        "unknown"@
    }
}

/// `needle` occurs in `hay`.
pub open spec fn has_infix(hay: Seq<char>, needle: Seq<char>) -> bool {
    exists|i: int|
        0 <= i && i + needle.len() <= hay.len() && #[trigger] hay.subrange(i, i + needle.len())
            == needle
}

/// Relies on `str::contains` with a `&str` pattern: whether `needle` occurs in `hay`.
#[verifier::external_body]
fn str_contains(hay: &str, needle: &str) -> (r: bool)
    ensures
        r == has_infix(hay@, needle@),
{
    hay.contains(needle)
}

fn is_control(c: char) -> (r: bool)
    ensures
        r == is_control_char(c),
{
    let n = c as u32;
    n <= 0x1f || (0x7f <= n && n <= 0x9f)
}

fn replace_char(c: char) -> (r: char)
    ensures
        r == (if is_replaced(c) {
            '_'
        } else {
            c
        }),
{
    if c == '/' || c == '\\' || c == ':' || c == '*' || c == '?' || c == '"' || c == '<' || c
        == '>' || c == '|' || c == '\0' || c == ' ' || is_control(c) {
        '_'
    } else {
        c
    }
}

fn is_edge_char(c: char) -> (r: bool)
    ensures
        r == is_edge(c),
{
    c == '_' || c == '.'
}

/// A name made safe as one path component: reserved, control and space
/// characters become underscores, runs of underscores become one, the name
/// is cut to `MAX_NAME_CHARS` characters and trimmed of underscores and dots
/// at both ends; an empty result is `"unknown"`.
pub fn sanitize_name(input: &str) -> (r: String)
    ensures
        r@ == sanitized(input@),
{
    let n = input.unicode_len();
    let mut out: Vec<char> = Vec::new();
    let mut i: usize = 0;
    while i < n
        invariant
            n == input@.len(),
            i <= n,
            out@ == collapsed(replaced(input@).take(i as int)),
        decreases n - i,
    {
        let c = replace_char(input.get_char(i));
        proof {
            let m = replaced(input@);
            assert(m.take(i as int + 1).drop_last() =~= m.take(i as int));
        }
        let len = out.len();
        if !(c == '_' && len > 0 && out[len - 1] == '_') {
            out.push(c);
        }
        i += 1;
    }
    assert(replaced(input@).take(n as int) =~= replaced(input@));
    let ghost c = out@;
    if out.len() > MAX_NAME_CHARS {
        out.truncate(MAX_NAME_CHARS);
    }
    assert(out@ =~= truncated(c));
    let ghost t = out@;
    let len = out.len();
    let mut a: usize = 0;
    while a < len && is_edge_char(out[a])
        invariant
            out@ == t,
            len == t.len(),
            a <= len,
            lead(t, 0) == lead(t, a as int),
        decreases len - a,
    {
        a += 1;
    }
    let mut b: usize = len;
    while b > a && is_edge_char(out[b - 1])
        invariant
            out@ == t,
            len == t.len(),
            a <= b <= len,
            a == lead(t, 0),
            trail(t, len as int, a as int) == trail(t, b as int, a as int),
        decreases b - a,
    {
        b -= 1;
    }
    let mut kept: Vec<char> = Vec::new();
    let mut k: usize = a;
    while k < b
        invariant
            out@ == t,
            a <= k <= b <= len,
            len == t.len(),
            kept@ == t.subrange(a as int, k as int),
        decreases b - k,
    {
        kept.push(out[k]);
        k += 1;
        assert(kept@ =~= t.subrange(a as int, k as int));
    }
    if kept.len() == 0 {
        String::from_str("unknown")
    } else {
        string_of(kept)
    }
}

/// The file extension for a MIME type: `mp4`, `mp3`, `flac` or `unknown`.
pub fn guess_extension(mime: &str) -> (r: String)
    ensures
        r@ == extension_of(mime@),
{
    if str_contains(mime, "mp4") {
        String::from_str("mp4")
    } else if str_contains(mime, "mp3") {
        String::from_str("mp3")
    } else if str_contains(mime, "flac") {
        String::from_str("flac")
    } else {
        String::from_str("unknown")
    }
}

/// No two underscores stand side by side.
pub open spec fn no_double_underscore(u: Seq<char>) -> bool {
    forall|i: int| 0 <= i < u.len() - 1 ==> !(#[trigger] u[i] == '_' && u[i + 1] == '_')
}

/// No character of `u` is one that sanitizing replaces.
pub open spec fn none_replaced(u: Seq<char>) -> bool {
    forall|i: int| 0 <= i < u.len() ==> !is_replaced(#[trigger] u[i])
}

/// A name that sanitizing leaves as it is.
pub open spec fn is_clean(u: Seq<char>) -> bool {
    &&& 0 < u.len() <= MAX_NAME_CHARS
    &&& none_replaced(u)
    &&& no_double_underscore(u)
    &&& !is_edge(u[0])
    &&& !is_edge(u.last())
}

pub open spec fn is_ascii_alphanumeric(c: char) -> bool {
    ('0' <= c && c <= '9') || ('A' <= c && c <= 'Z') || ('a' <= c && c <= 'z')
}

proof fn lemma_collapsed_shape(s: Seq<char>)
    ensures
        collapsed(s).len() <= s.len(),
        none_replaced(s) ==> none_replaced(collapsed(s)),
        no_double_underscore(collapsed(s)),
    decreases s.len(),
{
    if s.len() > 0 {
        let d = s.drop_last();
        lemma_collapsed_shape(d);
        if none_replaced(s) {
            assert forall|i: int| 0 <= i < d.len() implies !is_replaced(#[trigger] d[i]) by {
                assert(d[i] == s[i]);
            }
            assert(!is_replaced(s[s.len() - 1]));
        }
    }
}

proof fn lemma_collapsed_clean(u: Seq<char>)
    requires
        no_double_underscore(u),
    ensures
        collapsed(u) == u,
    decreases u.len(),
{
    if u.len() > 0 {
        let d = u.drop_last();
        assert(no_double_underscore(d)) by {
            assert forall|i: int| 0 <= i < d.len() - 1 implies !(#[trigger] d[i] == '_' && d[i + 1]
                == '_') by {
                assert(d[i] == u[i] && d[i + 1] == u[i + 1]);
            }
        }
        lemma_collapsed_clean(d);
        if u.len() > 1 {
            assert(!(u[u.len() - 2] == '_' && u[u.len() - 1] == '_'));
        }
        assert(d.push(u.last()) =~= u);
    }
}

proof fn lemma_lead(s: Seq<char>, i: int)
    requires
        0 <= i <= s.len(),
    ensures
        i <= lead(s, i) <= s.len(),
        lead(s, i) < s.len() ==> !is_edge(s[lead(s, i)]),
    decreases s.len() - i,
{
    if i < s.len() && is_edge(s[i]) {
        lemma_lead(s, i + 1);
    }
}

proof fn lemma_trail(s: Seq<char>, j: int, a: int)
    requires
        0 <= a <= j <= s.len(),
    ensures
        a <= trail(s, j, a) <= j,
        trail(s, j, a) > a ==> !is_edge(s[trail(s, j, a) - 1]),
    decreases j - a,
{
    if a < j && is_edge(s[j - 1]) {
        lemma_trail(s, j - 1, a);
    }
}

/// What sanitizing gives is clean.
pub proof fn lemma_sanitized_clean(s: Seq<char>)
    ensures
        is_clean(sanitized(s)),
{
    let m = replaced(s);
    assert(none_replaced(m));
    lemma_collapsed_shape(m);
    let c = collapsed(m);
    let t = truncated(c);
    assert(none_replaced(t) && no_double_underscore(t)) by {
        assert forall|i: int| 0 <= i < t.len() implies t[i] == c[i] by {}
    }
    let a = lead(t, 0);
    lemma_lead(t, 0);
    lemma_trail(t, t.len() as int, a);
    let r = trimmed(t);
    assert forall|i: int| 0 <= i < r.len() implies r[i] == t[a + i] by {}
    if r.len() == 0 {
        reveal_strlit("unknown");
    }
}

/// A clean name is its own sanitized form.
pub proof fn lemma_sanitize_clean_is_identity(u: Seq<char>)
    requires
        is_clean(u),
    ensures
        sanitized(u) == u,
{
    assert(replaced(u) =~= u);
    lemma_collapsed_clean(u);
    assert(lead(u, 0) == 0);
    assert(trail(u, u.len() as int, 0) == u.len());
    assert(u.subrange(0, u.len() as int) =~= u);
}

/// Sanitizing twice gives what sanitizing once gives.
pub proof fn lemma_sanitize_idempotent(s: Seq<char>)
    ensures
        sanitized(sanitized(s)) == sanitized(s),
{
    lemma_sanitized_clean(s);
    lemma_sanitize_clean_is_identity(sanitized(s));
}

/// Non-empty ASCII alphanumeric names of at most `MAX_NAME_CHARS`
/// characters keep their text, so two different ones never share a
/// sanitized form.
pub proof fn lemma_sanitize_alphanumeric_injective(a: Seq<char>, b: Seq<char>)
    requires
        0 < a.len() <= MAX_NAME_CHARS,
        0 < b.len() <= MAX_NAME_CHARS,
        forall|i: int| 0 <= i < a.len() ==> is_ascii_alphanumeric(#[trigger] a[i]),
        forall|i: int| 0 <= i < b.len() ==> is_ascii_alphanumeric(#[trigger] b[i]),
    ensures
        sanitized(a) == a,
        sanitized(b) == b,
        a != b ==> sanitized(a) != sanitized(b),
{
    assert(is_clean(a)) by {
        assert(is_ascii_alphanumeric(a[0]) && is_ascii_alphanumeric(a[a.len() - 1]));
    }
    assert(is_clean(b)) by {
        assert(is_ascii_alphanumeric(b[0]) && is_ascii_alphanumeric(b[b.len() - 1]));
    }
    lemma_sanitize_clean_is_identity(a);
    lemma_sanitize_clean_is_identity(b);
}

/// Where a track is cached, below the cache root: an artist directory, an
/// album directory inside it, and the file.
#[derive(Debug, Clone, PartialEq, Eq)]
pub struct CacheEntry {
    pub artist_dir: String,
    pub album_dir: String,
    pub stem: String,
    pub extension: String,
}

pub open spec fn or_unknown(s: Option<Seq<char>>) -> Seq<char> {
    match s {
        Some(v) => v,
        None => "unknown"@,
    }
}

/// `name (id)`.
pub open spec fn labelled(name: Seq<char>, id: Seq<char>) -> Seq<char> {
    name + " ("@ + id + ")"@
}

pub open spec fn artist_dir_of(t: Track) -> Seq<char> {
    labelled(
        sanitized(or_unknown(opt_view(t.artist_name))),
        sanitized(
            match t.artist_id {
                Some(id) => decimal(id as nat),
                None => "unknown"@,
            },
        ),
    )
}

pub open spec fn album_dir_of(t: Track) -> Seq<char> {
    labelled(sanitized(or_unknown(opt_view(t.album_title))), sanitized(or_unknown(opt_view(t.album_id))))
}

/// The file name without extension: the track number, an underscore and the title.
pub open spec fn stem_of(t: Track) -> Seq<char> {
    decimal(t.number as nat) + "_"@ + sanitized(t.title@)
}

impl CacheEntry {
    /// The file's name: its stem and extension.
    pub fn file_name(&self) -> (r: String)
        ensures
            r@ == self.stem@ + "."@ + self.extension@,
    {
        let s = self.stem.clone();
        let s = s.concat(".");
        s.concat(self.extension.as_str())
    }

    /// The name of the temporary sibling that a download writes before it
    /// is renamed into place.
    pub fn partial_file_name(&self) -> (r: String)
        ensures
            r@ == self.stem@ + ".partial"@,
    {
        let s = self.stem.clone();
        s.concat(".partial")
    }
}

fn opt_str_or_unknown(s: &Option<String>) -> (r: String)
    ensures
        r@ == or_unknown(opt_view(*s)),
{
    match s {
        Some(v) => v.clone(),
        None => String::from_str("unknown"),
    }
}

fn labelled_text(name: &str, id: &str) -> (r: String)
    ensures
        r@ == labelled(name@, id@),
{
    let s = String::from_str(name);
    let s = s.concat(" (");
    let s = s.concat(id);
    s.concat(")")
}

/// The deterministic place of a track in the cache: the same track and
/// MIME type always give the same entry.
pub fn cache_path(track: &Track, mime: &str) -> (r: CacheEntry)
    ensures
        r.artist_dir@ == artist_dir_of(*track),
        r.album_dir@ == album_dir_of(*track),
        r.stem@ == stem_of(*track),
        r.extension@ == extension_of(mime@),
{
    let artist_name = opt_str_or_unknown(&track.artist_name);
    let artist_id = match track.artist_id {
        Some(id) => decimal_text(id as u128),
        None => String::from_str("unknown"),
    };
    let album_title = opt_str_or_unknown(&track.album_title);
    let album_id = opt_str_or_unknown(&track.album_id);
    let artist_dir = labelled_text(
        sanitize_name(artist_name.as_str()).as_str(),
        sanitize_name(artist_id.as_str()).as_str(),
    );
    let album_dir = labelled_text(
        sanitize_name(album_title.as_str()).as_str(),
        sanitize_name(album_id.as_str()).as_str(),
    );
    let stem = decimal_text(track.number as u128).concat("_");
    let stem = stem.concat(sanitize_name(track.title.as_str()).as_str());
    CacheEntry { artist_dir, album_dir, stem, extension: guess_extension(mime) }
}

} // verus!
