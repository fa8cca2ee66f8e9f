use vstd::prelude::*;
use vstd::arithmetic::power2::pow2;
use vstd::string::*;
use crate::capture::{decode, decode_failed_prefix, CapturedImage};
use crate::raster::png_decoded;
use crate::text::{joined, text_eq};

verus! {

/// The hexadecimal digit of a value below 16, in lower case.
pub open spec fn lower_hex_digit(n: int) -> char {
    if n < 10 {
        (n + 48) as char
    } else {
        (n + 87) as char
    }
}

/// The `k`-th of the 32 four-bit digits of `value`, most significant first.
pub open spec fn uuid_nibble(value: u128, k: int) -> int {
    (value as int / pow2((4 * (31 - k)) as nat) as int) % 16
}

/// Which hex digit of a UUID stands at position `p` of its hyphenated text.
pub open spec fn digit_at(p: int) -> int {
    if p < 8 {
        p
    } else if p < 13 {
        p - 1
    } else if p < 18 {
        p - 2
    } else if p < 23 {
        p - 3
    } else {
        p - 4
    }
}

/// The hyphenated lower-case text of a UUID, such as
/// `67e55044-10b1-426f-9247-bb680e5fe0c8`.
pub open spec fn canonical_uuid_text(value: u128) -> Seq<char> {
    Seq::new(
        36,
        |p: int|
            if p == 8 || p == 13 || p == 18 || p == 23 {
                '-'
            } else {
                lower_hex_digit(uuid_nibble(value, digit_at(p)))
            },
    )
}

/// Whether `text` is the hyphenated lower-case text of some UUID.
pub open spec fn is_canonical_uuid(text: Seq<char>) -> bool {
    exists|value: u128| text == #[trigger] canonical_uuid_text(value)
}

/// What `uuid::Uuid::parse_str` gives for a text, as the UUID's 128-bit value.
pub uninterp spec fn uuid_parse(text: Seq<char>) -> Option<u128>;

/// Calls `uuid::Uuid::parse_str` and takes the UUID as its big-endian 128-bit
/// value. Trusted: the result is `uuid_parse` of the text, and the hyphenated
/// lower-case text of a UUID parses back to that UUID (the parser takes any
/// 36-character text with hyphens at 8, 13, 18 and 23 and hex digits elsewhere).
#[verifier::external_body]
fn parse_uuid(text: &str) -> (value: Option<u128>)
    ensures
        value == uuid_parse(text@),
        forall|v: u128| text@ == #[trigger] canonical_uuid_text(v) ==> value == Some(v),
{
    match uuid::Uuid::parse_str(text) {
        Ok(uuid) => Some(uuid.as_u128()),
        Err(_) => None,
    }
}

/// Calls `to_string` on `uuid::Uuid::from_u128(value)`. Trusted: the text is
/// the hyphenated lower-case form, which is what the crate's `Display` writes.
#[verifier::external_body]
fn uuid_text(value: u128) -> (text: String)
    ensures
        text@ == canonical_uuid_text(value),
{
    uuid::Uuid::from_u128(value).to_string()
}

/// Whether `id` names a cached capture: the hyphenated lower-case text of a UUID,
/// which keeps other names (and paths) out of the cache directory.
pub fn valid_id(id: &str) -> (valid: bool)
    ensures
        valid == is_canonical_uuid(id@),
{
    match parse_uuid(id) {
        Some(value) => {
            let text = uuid_text(value);
            let same = text_eq(text.as_str(), id);
            proof {
                if !same && is_canonical_uuid(id@) {
                    let w = choose|w: u128| id@ == #[trigger] canonical_uuid_text(w);
                    assert(Some(value) == Some(w));
                }
            }
            same
        },
        None => {
            proof {
                if is_canonical_uuid(id@) {
                    let w = choose|w: u128| id@ == #[trigger] canonical_uuid_text(w);
                }
            }
            false
        },
    }
}

/// The file name under which a capture is cached.
pub open spec fn capture_file_name_of(id: Seq<char>) -> Seq<char> {
    id + ".png"@
}

/// The file name under which the capture `id` is cached.
pub fn capture_file_name(id: &str) -> (name: String)
    ensures
        name@ == capture_file_name_of(id@),
{
    joined(id, ".png")
}

/// Whether a directory entry is a cached capture: a valid id followed by `.png`.
pub open spec fn is_capture_file_name_of(name: Seq<char>) -> bool {
    &&& name.len() >= 4
    &&& name.subrange(name.len() - 4, name.len() as int) == ".png"@
    &&& is_canonical_uuid(name.subrange(0, name.len() - 4))
}

/// Whether a directory entry is a cached capture, judged by its name alone.
pub fn is_capture_file_name(name: &str) -> (is_capture: bool)
    ensures
        is_capture == is_capture_file_name_of(name@),
{
    let n = name.unicode_len();
    if n < 4 {
        return false;
    }
    let suffix = name.substring_char(n - 4, n);
    if !text_eq(suffix, ".png") {
        return false;
    }
    valid_id(name.substring_char(0, n - 4))
}

/// The name of a capture's file is recognized as a cached capture exactly when its id is valid.
pub proof fn lemma_capture_file_name_round_trip(id: Seq<char>)
    ensures
        is_capture_file_name_of(capture_file_name_of(id)) == is_canonical_uuid(id),
{
    reveal_strlit(".png");
    let name = capture_file_name_of(id);
    assert(name.subrange(0, name.len() - 4) =~= id);
    assert(name.subrange(name.len() - 4, name.len() as int) =~= ".png"@);
}

/// Whether an opened capture may be read: a regular file of the current user
/// that neither group nor others can access.
pub open spec fn is_private_capture_of(is_file: bool, owner: u32, user: u32, mode: u32) -> bool {
    is_file && owner == user && mode & 0o077 == 0
}

/// Decides whether an opened capture may be read, from its metadata.
pub fn is_private_capture(is_file: bool, owner: u32, user: u32, mode: u32) -> (private: bool)
    ensures
        private == is_private_capture_of(is_file, owner, user, mode),
{
    is_file && owner == user && mode & 0o077 == 0
}

/// The prefix of the message when a capture cannot be cached.
pub open spec fn store_failed_prefix() -> Seq<char> {
    "Could not cache screenshot: "@
}

/// The prefix of the message when a cached capture cannot be read.
pub open spec fn unavailable_prefix() -> Seq<char> {
    "Cached screenshot is unavailable: "@
}

/// The id of a new capture made from a 128-bit value: its hyphenated lower-case UUID text.
pub fn capture_id(value: u128) -> (id: String)
    ensures
        id@ == canonical_uuid_text(value),
        is_canonical_uuid(id@),
{
    uuid_text(value)
}

/// The outcome of caching a capture under the id made from `value` (see
/// `capture_id`), given the outcome of writing its file: that id, or why the
/// capture could not be cached.
pub fn store(value: u128, written: Result<(), String>) -> (stored: Result<String, String>)
    ensures
        match (written, stored) {
            (Ok(()), Ok(id)) => id@ == canonical_uuid_text(value) && is_canonical_uuid(id@),
            (Err(e), Err(message)) => message@ == store_failed_prefix() + e@,
            _ => false,
        },
{
    match written {
        Ok(()) => Ok(capture_id(value)),
        Err(error) => Err(joined("Could not cache screenshot: ", error.as_str())),
    }
}

/// A cached capture, given the outcome of reading its file: the decoded
/// screenshot, or why it is unavailable.
pub fn load(read: Result<Vec<u8>, String>) -> (image: Result<CapturedImage, String>)
    ensures
        match read {
            Err(e) => image matches Err(m) && m@ == unavailable_prefix() + e@,
            Ok(png) => match png_decoded(png@) {
                Some((width, height, rgba)) => image matches Ok(i) && i.width == width && i.height == height
                    && i.png@ == png@ && i.rgba@ == rgba,
                None => image matches Err(m) && m@.len() >= decode_failed_prefix().len() && m@.subrange(
                    0,
                    decode_failed_prefix().len() as int,
                ) == decode_failed_prefix(),
            },
        },
{
    match read {
        Ok(png) => decode(png),
        Err(error) => Err(joined("Cached screenshot is unavailable: ", error.as_str())),
    }
}

} // verus!

verus! {

/// How many captures the cache keeps at most.
pub const MAX_CACHED: usize = 20;

/// How long, in seconds, a capture stays in the cache.
pub const CACHE_LIFETIME_SECS: i64 = 86400;

/// A cached capture found in the cache directory: its modification time
/// (seconds and nanoseconds since the epoch) and its file name.
pub struct CachedCapture {
    pub modified: (i64, u64),
    pub name: String,
}

/// Lexicographic order on byte strings, as `OsStr` names compare.
pub open spec fn bytes_less(x: Seq<u8>, y: Seq<u8>) -> bool {
    exists|k: int|
        #![trigger x.take(k), y.take(k)]
        0 <= k <= x.len() && k <= y.len() && x.take(k) == y.take(k) && ((k < x.len() && k < y.len()
            && x[k] < y[k]) || (k == x.len() && k < y.len()))
}

/// Whether `a` sorts before `b`: older first, names breaking ties.
pub open spec fn capture_before(a: CachedCapture, b: CachedCapture) -> bool {
    ||| a.modified.0 < b.modified.0
    ||| a.modified.0 == b.modified.0 && a.modified.1 < b.modified.1
    ||| a.modified == b.modified && bytes_less(spec_bytes_of_chars(a.name@), spec_bytes_of_chars(b.name@))
}

/// The UTF-8 bytes of a text.
pub open spec fn spec_bytes_of_chars(text: Seq<char>) -> Seq<u8> {
    vstd::utf8::encode_utf8(text)
}

/// How many of `captures` sort after `c`.
pub open spec fn count_newer(captures: Seq<CachedCapture>, c: CachedCapture) -> nat
    decreases captures.len(),
{
    if captures.len() == 0 {
        0
    } else {
        count_newer(captures.drop_last(), c) + if capture_before(c, captures.last()) {
            1nat
        } else {
            0nat
        }
    }
}

/// The time before which a capture has expired.
pub open spec fn cutoff_of(now_secs: u64, now_nanos: u32) -> (i64, u64) {
    ((now_secs as i64 - CACHE_LIFETIME_SECS) as i64, now_nanos as u64)
}

/// Whether a modification time lies before the cutoff.
pub open spec fn is_expired(modified: (i64, u64), cutoff: (i64, u64)) -> bool {
    modified.0 < cutoff.0 || (modified.0 == cutoff.0 && modified.1 < cutoff.1)
}

/// Whether the capture at `i` goes: it expired, or at least twenty captures are newer.
pub open spec fn should_remove(captures: Seq<CachedCapture>, i: int, cutoff: (i64, u64)) -> bool {
    is_expired(captures[i].modified, cutoff) || count_newer(captures, captures[i]) >= MAX_CACHED
}

/// The names of the first `n` captures that go, in their order.
pub open spec fn removals(captures: Seq<CachedCapture>, cutoff: (i64, u64), n: int) -> Seq<Seq<char>>
    decreases n,
{
    if n <= 0 {
        Seq::empty()
    } else if should_remove(captures, n - 1, cutoff) {
        removals(captures, cutoff, n - 1).push(captures[n - 1].name@)
    } else {
        removals(captures, cutoff, n - 1)
    }
}

/// The cutoff: captures modified before it have expired.
pub fn cache_cutoff(now_secs: u64, now_nanos: u32) -> (cutoff: (i64, u64))
    requires
        now_secs as i64 >= i64::MIN + CACHE_LIFETIME_SECS,
    ensures
        cutoff == cutoff_of(now_secs, now_nanos),
{
    (now_secs as i64 - CACHE_LIFETIME_SECS, now_nanos as u64)
}

/// Lexicographic comparison of byte strings.
fn bytes_before(x: &[u8], y: &[u8]) -> (less: bool)
    ensures
        less == bytes_less(x@, y@),
{
    let mut k: usize = 0;
    while k < x.len() && k < y.len() && x[k] == y[k]
        invariant
            k <= x@.len(),
            k <= y@.len(),
            x@.take(k as int) == y@.take(k as int),
        decreases x@.len() - k,
    {
        proof {
            assert(x@.take(k + 1) =~= x@.take(k as int).push(x@[k as int]));
            assert(y@.take(k + 1) =~= y@.take(k as int).push(y@[k as int]));
        }
        k = k + 1;
    }
    let less = if k < x.len() && k < y.len() {
        x[k] < y[k]
    } else {
        k == x.len() && k < y.len()
    };
    proof {
        let kk = k as int;
        if less {
            assert(0 <= kk <= x@.len() && kk <= y@.len() && x@.take(kk) == y@.take(kk) && ((kk < x@.len()
                && kk < y@.len() && x@[kk] < y@[kk]) || (kk == x@.len() && kk < y@.len())));
        }
        if !less && bytes_less(x@, y@) {
            let j = choose|j: int|
                #![trigger x@.take(j), y@.take(j)]
                0 <= j <= x@.len() && j <= y@.len() && x@.take(j) == y@.take(j) && ((j < x@.len() && j
                    < y@.len() && x@[j] < y@[j]) || (j == x@.len() && j < y@.len()));
            if j < k {
                assert(x@.take(k as int)[j] == y@.take(k as int)[j]);
                assert(false);
            } else if j > k {
                assert(x@.take(j)[k as int] == y@.take(j)[k as int]);
                assert(false);
            } else {
                assert(false);
            }
        }
        assert(less ==> bytes_less(x@, y@));
    }
    less
}

/// Whether `a` sorts before `b`.
fn sorts_before(a: &CachedCapture, b: &CachedCapture) -> (before: bool)
    ensures
        before == capture_before(*a, *b),
{
    if a.modified.0 != b.modified.0 {
        return a.modified.0 < b.modified.0;
    }
    if a.modified.1 != b.modified.1 {
        return a.modified.1 < b.modified.1;
    }
    bytes_before(a.name.as_str().as_bytes(), b.name.as_str().as_bytes())
}

/// The names of the cached captures that go: those that expired, and all but
/// the twenty newest. Each name comes once, in the order of `captures`.
pub fn captures_to_remove(now_secs: u64, now_nanos: u32, captures: &Vec<CachedCapture>) -> (names: Vec<String>)
    requires
        now_secs as i64 >= i64::MIN + CACHE_LIFETIME_SECS,
    ensures
        names@.map_values(|s: String| s@) == removals(
            captures@,
            cutoff_of(now_secs, now_nanos),
            captures@.len() as int,
        ),
{
    let cutoff = cache_cutoff(now_secs, now_nanos);
    let mut names: Vec<String> = Vec::new();
    let mut i: usize = 0;
    while i < captures.len()
        invariant
            i <= captures@.len(),
            cutoff == cutoff_of(now_secs, now_nanos),
            names@.map_values(|s: String| s@) == removals(captures@, cutoff, i as int),
        decreases captures@.len() - i,
    {
        let capture = &captures[i];
        let mut newer: usize = 0;
        let mut j: usize = 0;
        while j < captures.len()
            invariant
                j <= captures@.len(),
                newer <= j,
                *capture == captures@[i as int],
                newer == count_newer(captures@.take(j as int), *capture),
            decreases captures@.len() - j,
        {
            proof {
                assert(captures@.take(j + 1).drop_last() =~= captures@.take(j as int));
            }
            if sorts_before(capture, &captures[j]) {
                newer = newer + 1;
            }
            j = j + 1;
        }
        proof {
            assert(captures@.take(j as int) =~= captures@);
        }
        let expired = capture.modified.0 < cutoff.0 || (capture.modified.0 == cutoff.0
            && capture.modified.1 < cutoff.1);
        if expired || newer >= MAX_CACHED {
            names.push(capture.name.clone());
        }
        proof {
            assert(names@.map_values(|s: String| s@) =~= removals(captures@, cutoff, i + 1));
        }
        i = i + 1;
    }
    names
}

/// Calls `rustix::fs::FileType::from_raw_mode` and tells whether it is a
/// regular file. Trusted: that is when the `S_IFMT` bits of the mode are `S_IFREG`.
#[verifier::external_body]
fn raw_mode_is_regular(mode: u32) -> (regular: bool)
    ensures
        regular == (mode & 0o170000u32 == 0o100000u32),
{
    matches!(rustix::fs::FileType::from_raw_mode(mode), rustix::fs::FileType::RegularFile)
}

/// Whether a cache entry with this `st_mode` is a regular file, the only kind the cache cleans up.
pub fn is_cached_file(mode: u32) -> (regular: bool)
    ensures
        regular == (mode & 0o170000u32 == 0o100000u32),
{
    raw_mode_is_regular(mode)
}

} // verus!

verus! {

proof fn lemma_bytes_irreflexive(x: Seq<u8>)
    ensures
        !bytes_less(x, x),
{
}

proof fn lemma_bytes_transitive(x: Seq<u8>, y: Seq<u8>, z: Seq<u8>)
    requires
        bytes_less(x, y),
        bytes_less(y, z),
    ensures
        bytes_less(x, z),
{
    let k1 = choose|k: int|
        #![trigger x.take(k), y.take(k)]
        0 <= k <= x.len() && k <= y.len() && x.take(k) == y.take(k) && ((k < x.len() && k < y.len()
            && x[k] < y[k]) || (k == x.len() && k < y.len()));
    let k2 = choose|k: int|
        #![trigger y.take(k), z.take(k)]
        0 <= k <= y.len() && k <= z.len() && y.take(k) == z.take(k) && ((k < y.len() && k < z.len()
            && y[k] < z[k]) || (k == y.len() && k < z.len()));
    if k1 < k2 {
        assert(y.take(k2).take(k1) =~= y.take(k1));
        assert(z.take(k2).take(k1) =~= z.take(k1));
        assert(x.take(k1) =~= z.take(k1));
        assert(y.take(k2)[k1] == z.take(k2)[k1]);
        assert(0 <= k1 <= x.len() && k1 <= z.len() && x.take(k1) == z.take(k1) && ((k1 < x.len() && k1
            < z.len() && x[k1] < z[k1]) || (k1 == x.len() && k1 < z.len())));
    } else if k1 > k2 {
        assert(x.take(k1).take(k2) =~= x.take(k2));
        assert(y.take(k1).take(k2) =~= y.take(k2));
        assert(x.take(k2) =~= z.take(k2));
        assert(x.take(k1)[k2] == y.take(k1)[k2]);
        assert(0 <= k2 <= x.len() && k2 <= z.len() && x.take(k2) == z.take(k2) && ((k2 < x.len() && k2
            < z.len() && x[k2] < z[k2]) || (k2 == x.len() && k2 < z.len())));
    } else {
        assert(x.take(k1) =~= z.take(k1));
        assert(0 <= k1 <= x.len() && k1 <= z.len() && x.take(k1) == z.take(k1) && ((k1 < x.len() && k1
            < z.len() && x[k1] < z[k1]) || (k1 == x.len() && k1 < z.len())));
    }
}

proof fn lemma_first_difference(x: Seq<u8>, y: Seq<u8>, i: int) -> (k: int)
    requires
        0 <= i <= x.len(),
        i <= y.len(),
        x.take(i) == y.take(i),
        exists|j: int| i <= j < x.len() && j < y.len() && x[j] != y[j],
    ensures
        i <= k < x.len(),
        k < y.len(),
        x.take(k) == y.take(k),
        x[k] != y[k],
    decreases x.len() - i,
{
    if x[i] != y[i] {
        i
    } else {
        assert(x.take(i + 1) =~= x.take(i).push(x[i]));
        assert(y.take(i + 1) =~= y.take(i).push(y[i]));
        lemma_first_difference(x, y, i + 1)
    }
}

proof fn lemma_bytes_total(x: Seq<u8>, y: Seq<u8>)
    requires
        x != y,
    ensures
        bytes_less(x, y) || bytes_less(y, x),
{
    let m = if x.len() <= y.len() { x.len() as int } else { y.len() as int };
    if exists|j: int| 0 <= j < x.len() && j < y.len() && x[j] != y[j] {
        assert(x.take(0) =~= y.take(0));
        let k = lemma_first_difference(x, y, 0);
        if x[k] < y[k] {
            assert(0 <= k <= x.len() && k <= y.len() && x.take(k) == y.take(k) && ((k < x.len() && k
                < y.len() && x[k] < y[k]) || (k == x.len() && k < y.len())));
            assert(bytes_less(x, y));
        } else {
            assert(y[k] < x[k]);
            assert(0 <= k <= y.len() && k <= x.len() && y.take(k) == x.take(k) && ((k < y.len() && k
                < x.len() && y[k] < x[k]) || (k == y.len() && k < x.len())));
            assert(bytes_less(y, x));
        }
    } else {
        assert(x.take(m) =~= y.take(m));
        if x.len() < y.len() {
            assert(0 <= m <= x.len() && m <= y.len() && x.take(m) == y.take(m) && ((m < x.len() && m
                < y.len() && x[m] < y[m]) || (m == x.len() && m < y.len())));
            assert(bytes_less(x, y));
        } else if y.len() < x.len() {
            assert(0 <= m <= y.len() && m <= x.len() && y.take(m) == x.take(m) && ((m < y.len() && m
                < x.len() && y[m] < x[m]) || (m == y.len() && m < x.len())));
            assert(bytes_less(y, x));
        } else {
            assert(x =~= y);
        }
    }
}

proof fn lemma_before_irreflexive(a: CachedCapture)
    ensures
        !capture_before(a, a),
{
    lemma_bytes_irreflexive(spec_bytes_of_chars(a.name@));
}

proof fn lemma_before_transitive(a: CachedCapture, b: CachedCapture, c: CachedCapture)
    requires
        capture_before(a, b),
        capture_before(b, c),
    ensures
        capture_before(a, c),
{
    if a.modified == b.modified && b.modified == c.modified {
        lemma_bytes_transitive(
            spec_bytes_of_chars(a.name@),
            spec_bytes_of_chars(b.name@),
            spec_bytes_of_chars(c.name@),
        );
    }
}

proof fn lemma_before_total(a: CachedCapture, b: CachedCapture)
    requires
        a.name@ != b.name@,
    ensures
        capture_before(a, b) || capture_before(b, a),
{
    vstd::utf8::encode_utf8_decode_utf8(a.name@);
    vstd::utf8::encode_utf8_decode_utf8(b.name@);
    lemma_bytes_total(spec_bytes_of_chars(a.name@), spec_bytes_of_chars(b.name@));
}

proof fn lemma_count_newer_monotone(s: Seq<CachedCapture>, a: CachedCapture, b: CachedCapture)
    requires
        capture_before(a, b),
    ensures
        count_newer(s, a) >= count_newer(s, b),
        s.contains(b) ==> count_newer(s, a) > count_newer(s, b),
    decreases s.len(),
{
    if s.len() > 0 {
        let init = s.drop_last();
        lemma_count_newer_monotone(init, a, b);
        if capture_before(b, s.last()) {
            lemma_before_transitive(a, b, s.last());
        }
        lemma_before_irreflexive(b);
        if s.contains(b) && s.last() != b {
            let j = choose|j: int| 0 <= j < s.len() && s[j] == b;
            assert(init[j] == b);
        }
    }
}

/// At most twenty captures stay, and none of them has expired. (Cache file
/// names are distinct, which makes the order of captures total.)
pub proof fn lemma_at_most_twenty_stay(captures: Seq<CachedCapture>, cutoff: (i64, u64))
    requires
        forall|i: int, j: int|
            0 <= i < captures.len() && 0 <= j < captures.len() && i != j ==> #[trigger] captures[i].name@
                != #[trigger] captures[j].name@,
    ensures
        ({
            let kept = Set::new(|i: int| 0 <= i < captures.len() && !should_remove(captures, i, cutoff));
            &&& kept.finite()
            &&& kept.len() <= MAX_CACHED
            &&& forall|i: int| kept.contains(i) ==> !is_expired(captures[i].modified, cutoff)
        }),
{
    let kept = Set::new(|i: int| 0 <= i < captures.len() && !should_remove(captures, i, cutoff));
    let all = vstd::set_lib::set_int_range(0, captures.len() as int);
    vstd::set_lib::lemma_int_range(0, captures.len() as int);
    assert(kept.subset_of(all));
    vstd::set_lib::lemma_len_subset(kept, all);
    let rank = |i: int| count_newer(captures, captures[i]) as int;
    assert forall|i: int, j: int| kept.contains(i) && kept.contains(j) && #[trigger] rank(i) == #[trigger] rank(j)
        implies i == j by {
        if i != j {
            lemma_before_total(captures[i], captures[j]);
            assert(captures.contains(captures[i]));
            assert(captures.contains(captures[j]));
            if capture_before(captures[i], captures[j]) {
                lemma_count_newer_monotone(captures, captures[i], captures[j]);
            } else {
                lemma_count_newer_monotone(captures, captures[j], captures[i]);
            }
        }
    }
    let ranks = kept.map(rank);
    vstd::set_lib::lemma_map_size(kept, ranks, rank);
    let small = vstd::set_lib::set_int_range(0, MAX_CACHED as int);
    vstd::set_lib::lemma_int_range(0, MAX_CACHED as int);
    assert(ranks.subset_of(small));
    vstd::set_lib::lemma_len_subset(ranks, small);
}

} // verus!
