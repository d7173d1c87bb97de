//! Webhook capture: where a received payload is stored, and how the stored
//! payloads are listed back.
//!
//! Each payload is one file `{YYYYMMDD_HHMMSS}_{0..999}_{kind}.json` in the
//! webhook directory. The listing keeps every `.json` file, newest
//! enumeration first, each with its parsed content when it could be read and
//! parses.

use vstd::prelude::*;
use vstd::string::{StrSliceExecFns, StringExecFns};
use crate::text::{decimal, push_decimal};

verus! {

/// The directory the payloads are written to.
pub const WEBHOOK_DIR: &'static str = "webhooks";

#[verifier::external_type_specification]
#[verifier::external_body]
pub struct ExJsonValue(serde_json::Value);

/// A file found in the webhook directory; `content` is `None` when it could
/// not be read as UTF-8 text.
pub struct StoredFile {
    pub file_name: String,
    pub content: Option<String>,
}

/// One listed payload: the file name, the parsed document (`None`, a null
/// placeholder, when the file is unreadable or not JSON) and the text itself
/// (empty when unreadable).
pub struct WebhookLog {
    pub filename: String,
    pub content: Option<serde_json::Value>,
    pub raw: String,
}

pub open spec fn file_name_of(stamp: Seq<char>, suffix: nat, kind: Seq<char>) -> Seq<char> {
    stamp + "_"@ + decimal(suffix) + "_"@ + kind + ".json"@
}

pub open spec fn ends_with(s: Seq<char>, suffix: Seq<char>) -> bool {
    s.len() >= suffix.len() && s.subrange(s.len() - suffix.len(), s.len() as int) == suffix
}

/// What `Path::extension` reports as `json`: the name ends in `.json` and
/// something precedes that dot.
pub open spec fn has_json_extension(name: Seq<char>) -> bool {
    name.len() > 5 && ends_with(name, ".json"@)
}

pub open spec fn is_listed(f: StoredFile) -> bool {
    has_json_extension(f.file_name@)
}

/// The listed files: the `.json` files in reverse enumeration order.
pub open spec fn listing_of(files: Seq<StoredFile>) -> Seq<StoredFile>
    decreases files.len(),
{
    if files.len() == 0 {
        seq![]
    } else {
        let f = files.last();
        let rest = listing_of(files.drop_last());
        if is_listed(f) {
            seq![f] + rest
        } else {
            rest
        }
    }
}

/// The text of a stored file; empty when it could not be read.
pub open spec fn raw_text(f: StoredFile) -> Seq<char> {
    match f.content {
        Some(t) => t@,
        None => seq![],
    }
}

/// A listed payload for a stored file: same name, its text, and a parsed
/// document exactly when the text was read and parses.
pub open spec fn is_log_of(l: WebhookLog, f: StoredFile) -> bool {
    &&& l.filename@ == f.file_name@
    &&& l.raw@ == raw_text(f)
    &&& l.content.is_some() == (f.content.is_some() && parses_as_json(raw_text(f)))
}

/// Names whether a text parses as a JSON document.
pub uninterp spec fn parses_as_json(s: Seq<char>) -> bool;

/// Relies on `serde_json::from_str::<Value>`: the document, or an error when
/// the text is not JSON. Whether it parses depends on the text alone.
#[verifier::external_body]
fn parse_json(s: &str) -> (r: Option<serde_json::Value>)
    ensures
        r.is_some() == parses_as_json(s@),
{
    serde_json::from_str::<serde_json::Value>(s).ok()
}

/// Relies on `chrono::Local::now` read through `Datelike` and `Timelike`:
/// the local year, month, day, hour, minute and second now. chrono keeps the
/// month in 1..=12, the day in 1..=31, the hour below 24 and the minute and
/// second below 60 (a leap second shows in the nanoseconds only).
#[verifier::external_body]
fn local_now_fields() -> (r: (i32, u32, u32, u32, u32, u32))
    ensures
        1 <= r.1 <= 12,
        1 <= r.2 <= 31,
        r.3 < 24,
        r.4 < 60,
        r.5 < 60,
{
    let now = chrono::Local::now();
    (
        chrono::Datelike::year(&now),
        chrono::Datelike::month(&now),
        chrono::Datelike::day(&now),
        chrono::Timelike::hour(&now),
        chrono::Timelike::minute(&now),
        chrono::Timelike::second(&now),
    )
}

/// Relies on `rand::Rng::gen_range` over `0..bound` with the thread's
/// generator: a number below the bound.
#[verifier::external_body]
fn random_below(bound: u32) -> (r: u32)
    requires
        bound > 0,
    ensures
        r < bound,
{
    rand::Rng::gen_range(&mut rand::thread_rng(), 0..bound)
}

/// The upper bound (exclusive) of the number that tells apart payloads
/// stored within the same second.
pub const SUFFIX_BOUND: u32 = 1000;

pub open spec fn zeros(k: nat) -> Seq<char> {
    Seq::new(k, |i: int| '0')
}

/// Decimal notation of `n`, zero-padded on the left to `width` characters.
pub open spec fn padded(n: nat, width: nat) -> Seq<char> {
    if decimal(n).len() < width {
        zeros((width - decimal(n).len()) as nat) + decimal(n)
    } else {
        decimal(n)
    }
}

/// A year as `%Y` writes it: four zero-padded digits for 0 to 9999, else a
/// sign followed by at least four digits.
pub open spec fn year_text(y: int) -> Seq<char> {
    if 0 <= y <= 9999 {
        padded(y as nat, 4)
    } else if y > 9999 {
        seq!['+'] + padded(y as nat, 4)
    } else {
        seq!['-'] + padded((-y) as nat, 4)
    }
}

/// A local time as `YYYYMMDD_HHMMSS`.
pub open spec fn stamp_of(year: int, month: nat, day: nat, hour: nat, minute: nat, second: nat) -> Seq<
    char,
> {
    year_text(year) + padded(month, 2) + padded(day, 2) + "_"@ + padded(hour, 2) + padded(minute, 2)
        + padded(second, 2)
}

pub open spec fn is_clock_time(month: nat, day: nat, hour: nat, minute: nat, second: nat) -> bool {
    1 <= month <= 12 && 1 <= day <= 31 && hour < 24 && minute < 60 && second < 60
}

/// Appends `n` zero-padded to `width` characters.
pub fn push_padded(s: &mut String, n: u64, width: usize)
    ensures
        final(s)@ == old(s)@ + padded(n as nat, width as nat),
{
    let digits = crate::text::decimal_text(n);
    let len = digits.as_str().unicode_len();
    if len < width {
        let mut i: usize = 0;
        while i < width - len
            invariant
                len < width,
                0 <= i <= width - len,
                s@ == old(s)@ + zeros(i as nat),
            decreases width - len - i,
        {
            crate::text::push_char(s, '0');
            assert(zeros(i as nat + 1) =~= zeros(i as nat).push('0'));
            assert(old(s)@ + zeros(i as nat + 1) =~= (old(s)@ + zeros(i as nat)).push('0'));
            i = i + 1;
        }
    }
    s.append(digits.as_str());
    assert(s@ =~= old(s)@ + padded(n as nat, width as nat));
}

/// The stamp of a local time: `YYYYMMDD_HHMMSS`, the year written as `%Y`
/// writes it.
pub fn stamp_text(year: i32, month: u32, day: u32, hour: u32, minute: u32, second: u32) -> (r: String)
    ensures
        r@ == stamp_of(year as int, month as nat, day as nat, hour as nat, minute as nat, second as nat),
{
    let mut s = String::new();
    if 0 <= year && year <= 9999 {
        push_padded(&mut s, year as u64, 4);
    } else if year > 9999 {
        crate::text::push_char(&mut s, '+');
        push_padded(&mut s, year as u64, 4);
    } else {
        crate::text::push_char(&mut s, '-');
        let abs: u64 = (0i64 - year as i64) as u64;
        push_padded(&mut s, abs, 4);
    }
    push_padded(&mut s, month as u64, 2);
    push_padded(&mut s, day as u64, 2);
    s.append("_");
    push_padded(&mut s, hour as u64, 2);
    push_padded(&mut s, minute as u64, 2);
    push_padded(&mut s, second as u64, 2);
    assert(s@ =~= stamp_of(
        year as int,
        month as nat,
        day as nat,
        hour as nat,
        minute as nat,
        second as nat,
    ));
    s
}

/// A stored payload's name ends in `_{kind}.json`, and the listing takes it
/// for a JSON file.
pub proof fn lemma_file_name_shape(stamp: Seq<char>, suffix: nat, kind: Seq<char>)
    ensures
        ends_with(file_name_of(stamp, suffix, kind), "_"@ + kind + ".json"@),
        has_json_extension(file_name_of(stamp, suffix, kind)),
{
    reveal_strlit("_");
    reveal_strlit(".json");
    let name = file_name_of(stamp, suffix, kind);
    let tail = "_"@ + kind + ".json"@;
    let head = stamp + "_"@ + decimal(suffix);
    assert(name =~= head + tail);
    assert(name.subrange(name.len() - tail.len(), name.len() as int) =~= tail);
    assert(name.subrange(name.len() - 5, name.len() as int) =~= ".json"@);
}

/// A `.json` file in the directory shows up in the listing.
pub proof fn lemma_listing_includes(files: Seq<StoredFile>, i: int)
    requires
        0 <= i < files.len(),
        is_listed(files[i]),
    ensures
        listing_of(files).contains(files[i]),
    decreases files.len(),
{
    let rest = listing_of(files.drop_last());
    if i == files.len() - 1 {
        assert((seq![files[i]] + rest)[0] == files[i]);
    } else {
        assert(files.drop_last()[i] == files[i]);
        lemma_listing_includes(files.drop_last(), i);
        let k = choose|k: int| 0 <= k < rest.len() && rest[k] == files[i];
        if is_listed(files.last()) {
            assert((seq![files.last()] + rest)[k + 1] == files[i]);
        }
    }
}

/// No entry of the listing bears a name that no file in the directory has.
pub proof fn lemma_listing_name_absent(files: Seq<StoredFile>, name: Seq<char>)
    requires
        forall|m: int| 0 <= m < files.len() ==> (#[trigger] files[m]).file_name@ != name,
    ensures
        forall|j: int|
            0 <= j < listing_of(files).len() ==> (#[trigger] listing_of(files)[j]).file_name@
                != name,
    decreases files.len(),
{
    if files.len() > 0 {
        let rest = files.drop_last();
        assert forall|m: int| 0 <= m < rest.len() implies (#[trigger] rest[m]).file_name@
            != name by {
            assert(rest[m] == files[m]);
        }
        lemma_listing_name_absent(rest, name);
        let l = listing_of(rest);
        if is_listed(files.last()) {
            assert forall|j: int| 0 <= j < listing_of(files).len() implies (
            #[trigger] listing_of(files)[j]).file_name@ != name by {
                if j > 0 {
                    assert(listing_of(files)[j] == l[j - 1]);
                }
            }
        }
    }
}

/// In a directory, where names are unique, a stored `.json` file is listed
/// exactly once: one entry is that file, and no other entry has its name.
pub proof fn lemma_listing_once(files: Seq<StoredFile>, i: int)
    requires
        0 <= i < files.len(),
        is_listed(files[i]),
        forall|a: int, b: int|
            0 <= a < files.len() && 0 <= b < files.len() && a != b ==> (#[trigger] files[a]).file_name@
                != (#[trigger] files[b]).file_name@,
    ensures
        exists|k: int|
            0 <= k < listing_of(files).len() && #[trigger] listing_of(files)[k] == files[i] && forall|
                j: int,
            |
                0 <= j < listing_of(files).len() && j != k ==> (#[trigger] listing_of(
                    files,
                )[j]).file_name@ != files[i].file_name@,
    decreases files.len(),
{
    let n = files.len() - 1;
    let rest = files.drop_last();
    let l = listing_of(rest);
    let all = listing_of(files);
    let name = files[i].file_name@;
    if i == n {
        assert forall|m: int| 0 <= m < rest.len() implies (#[trigger] rest[m]).file_name@
            != name by {
            assert(rest[m] == files[m]);
        }
        lemma_listing_name_absent(rest, name);
        assert(all == seq![files[i]] + l);
        assert forall|j: int| 0 <= j < all.len() && j != 0 implies (#[trigger] all[j]).file_name@
            != name by {
            assert(all[j] == l[j - 1]);
        }
        assert(all[0] == files[i]);
    } else {
        assert forall|a: int, b: int|
            0 <= a < rest.len() && 0 <= b < rest.len() && a != b implies (#[trigger] rest[a]).file_name@
                != (#[trigger] rest[b]).file_name@ by {
            assert(rest[a] == files[a] && rest[b] == files[b]);
        }
        assert(rest[i] == files[i]);
        lemma_listing_once(rest, i);
        let k = choose|k: int|
            0 <= k < l.len() && #[trigger] l[k] == files[i] && forall|j: int|
                0 <= j < l.len() && j != k ==> (#[trigger] l[j]).file_name@ != name;
        if is_listed(files.last()) {
            assert(files[n].file_name@ != name);
            assert(all == seq![files.last()] + l);
            assert(all[k + 1] == files[i]);
            assert forall|j: int| 0 <= j < all.len() && j != k + 1 implies (
            #[trigger] all[j]).file_name@ != name by {
                if j > 0 {
                    assert(all[j] == l[j - 1]);
                }
            }
        } else {
            assert(all[k] == files[i]);
        }
    }
}

/// The file name for a payload of the given kind.
pub fn webhook_file_name(stamp: &str, suffix: u32, kind: &str) -> (r: String)
    ensures
        r@ == file_name_of(stamp@, suffix as nat, kind@),
{
    let mut s = String::from_str(stamp);
    s.append("_");
    push_decimal(&mut s, suffix as u64);
    s.append("_");
    s.append(kind);
    s.append(".json");
    s
}

/// A fresh file name for a payload of the given kind, from the local time
/// and a random number below 1000.
pub fn new_webhook_file_name(kind: &str) -> (r: String)
    ensures
        exists|y: i32, mo: u32, d: u32, h: u32, mi: u32, sec: u32, n: nat|
            is_clock_time(mo as nat, d as nat, h as nat, mi as nat, sec as nat) && n < SUFFIX_BOUND
                && r@ == #[trigger] file_name_of(
                stamp_of(y as int, mo as nat, d as nat, h as nat, mi as nat, sec as nat),
                n,
                kind@,
            ),
        ends_with(r@, "_"@ + kind@ + ".json"@),
        has_json_extension(r@),
{
    let (y, mo, d, h, mi, sec) = local_now_fields();
    let stamp = stamp_text(y, mo, d, h, mi, sec);
    let n = random_below(SUFFIX_BOUND);
    let r = webhook_file_name(stamp.as_str(), n, kind);
    proof {
        lemma_file_name_shape(stamp@, n as nat, kind@);
    }
    r
}

/// Whether a directory entry's name has the `json` extension.
pub fn is_json_file_name(name: &str) -> (r: bool)
    ensures
        r == has_json_extension(name@),
{
    proof {
        reveal_strlit(".json");
    }
    let n = name.unicode_len();
    if n <= 5 {
        return false;
    }
    let r = name.get_char(n - 5) == '.' && name.get_char(n - 4) == 'j' && name.get_char(n - 3)
        == 's' && name.get_char(n - 2) == 'o' && name.get_char(n - 1) == 'n';
    proof {
        let tail = name@.subrange(n - 5, n as int);
        if r {
            assert(tail =~= ".json"@);
        } else {
            assert(tail != ".json"@) by {
                if tail == ".json"@ {
                    assert(tail[0] == '.' && tail[1] == 'j' && tail[2] == 's' && tail[3] == 'o'
                        && tail[4] == 'n');
                }
            }
        }
    }
    r
}

/// The listing of the webhook directory, given its files in enumeration
/// order.
pub fn webhook_listing(files: Vec<StoredFile>) -> (r: Vec<WebhookLog>)
    ensures
        r@.len() == listing_of(files@).len(),
        forall|i: int| 0 <= i < r@.len() ==> is_log_of(#[trigger] r@[i], listing_of(files@)[i]),
{
    let mut r: Vec<WebhookLog> = Vec::new();
    let mut i: usize = 0;
    while i < files.len()
        invariant
            0 <= i <= files.len(),
            r@.len() == listing_of(files@.take(i as int)).len(),
            forall|j: int|
                0 <= j < r@.len() ==> is_log_of(
                    #[trigger] r@[j],
                    listing_of(files@.take(i as int))[j],
                ),
        decreases files.len() - i,
    {
        let ghost before = r@;
        let ghost prev = listing_of(files@.take(i as int));
        assert(files@.take(i as int + 1).drop_last() =~= files@.take(i as int));
        assert(files@.take(i as int + 1).last() == files@[i as int]);
        let f = &files[i];
        if is_json_file_name(f.file_name.as_str()) {
            let (content, raw) = match &f.content {
                Some(text) => (parse_json(text.as_str()), text.clone()),
                None => (None, String::new()),
            };
            let log = WebhookLog { filename: f.file_name.clone(), content, raw };
            r.insert(0, log);
            let ghost now = listing_of(files@.take(i as int + 1));
            assert(now == seq![files@[i as int]] + prev);
            assert forall|j: int| 0 <= j < r@.len() implies is_log_of(#[trigger] r@[j], now[j]) by {
                if j > 0 {
                    assert(r@[j] == before[j - 1]);
                    assert(now[j] == prev[j - 1]);
                }
            }
        }
        i = i + 1;
    }
    assert(files@.take(i as int) =~= files@);
    r
}

} // verus!
