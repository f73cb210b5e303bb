//! The calls this library makes into std and outside crates, each with the
//! contract the library relies on.
use sha2::Digest;
use vstd::prelude::*;

verus! {

#[verifier::external_type_specification]
#[verifier::external_body]
pub struct ExSystemTime(std::time::SystemTime);

/// `std::time::SystemTime::now`: the current system time. Nothing is promised
/// of it: it depends on the machine's clock.
#[verifier::external_body]
pub(crate) fn system_time_now() -> std::time::SystemTime {
    std::time::SystemTime::now()
}

/// `SystemTime::duration_since(UNIX_EPOCH)`, with the error (a time before the
/// epoch) turned into `None`. Nothing is promised of the duration.
#[verifier::external_body]
pub(crate) fn millis_since_epoch(t: std::time::SystemTime) -> Option<core::time::Duration> {
    t.duration_since(std::time::UNIX_EPOCH).ok()
}

/// `Duration::as_millis`. Nothing is stated of the value.
#[verifier::external_body]
pub(crate) fn duration_as_millis(d: &core::time::Duration) -> u128 {
    d.as_millis()
}

} // verus!

verus! {

#[verifier::external_type_specification]
#[verifier::external_body]
pub struct ExJsonValue(serde_json::Value);

/// What `str::to_lowercase` returns: the Unicode lower-case mapping of a text.
pub uninterp spec fn str_lowercase(s: Seq<char>) -> Seq<char>;

/// `str::to_lowercase`. The result is the named Unicode lower-case mapping of
/// the argument; for a text of ASCII characters alone it is the ASCII
/// lower-case form (only `A`..`Z` change). Nothing more of the Unicode mapping
/// is stated.
#[verifier::external_body]
pub(crate) fn to_lowercase(s: &str) -> (r: String)
    ensures
        r@ == str_lowercase(s@),
        vstd::utf8::is_ascii_chars(s@) ==> r@ == crate::text::ascii_lower(s@),
{
    s.to_lowercase()
}

} // verus!

verus! {

/// `uuid::Uuid::new_v7` for the Unix time `seconds` and `subsec_nanos`, the
/// timestamp made by `uuid::Timestamp::from_unix` with no counter context,
/// taken by `as_u128`: a version-7 UUID for that time, its other bits drawn
/// at random. Nothing is promised of the value: it depends on chance. It
/// panics only when the operating system's random source fails.
#[verifier::external_body]
pub(crate) fn new_uuid_v7_at(seconds: u64, subsec_nanos: u32) -> u128 {
    uuid::Uuid::new_v7(uuid::Timestamp::from_unix(uuid::NoContext, seconds, subsec_nanos)).as_u128()
}

/// What SHA-256 gives for a byte string.
pub uninterp spec fn sha256_digest(data: Seq<u8>) -> Seq<u8>;

/// `sha2::Sha256::digest`: the SHA-256 digest of the bytes, named
/// `sha256_digest`; a digest is 32 bytes long.
#[verifier::external_body]
pub(crate) fn sha256(data: &[u8]) -> (r: [u8; 32])
    ensures
        r@ == sha256_digest(data@),
{
    sha2::Sha256::digest(data).into()
}

/// Whether chrono can hold a time given in milliseconds since the epoch: from
/// the first millisecond of 1 January 262144 BCE to the last of 31 December
/// 262142 CE, chrono's first and last dates.
pub open spec fn chrono_millis_in_range(ms: i64) -> bool {
    -8334601228800000 <= ms <= 8210266876799999
}

/// `chrono::DateTime::from_timestamp_millis(ms).is_some()`: whether the
/// milliseconds fall within chrono's range of times.
#[verifier::external_body]
pub(crate) fn millis_in_range(ms: i64) -> (r: bool)
    ensures
        r == chrono_millis_in_range(ms),
{
    chrono::DateTime::from_timestamp_millis(ms).is_some()
}

/// `serde_json::Value::clone`: an equal value.
#[verifier::external_body]
pub(crate) fn clone_json(v: &serde_json::Value) -> (r: serde_json::Value)
    ensures
        r == *v,
{
    v.clone()
}

} // verus!

verus! {

/// What `uuid::Uuid::parse_str` gives for a text: the UUID's value, or the
/// message of its error.
pub uninterp spec fn uuid_parsed(s: Seq<char>) -> Result<u128, Seq<char>>;

/// `uuid::Uuid::parse_str`, its value taken by `as_u128` and its error by
/// `to_string`. The result is named `uuid_parsed`; the crate accepts several
/// layouts, of which only one is stated: the hyphenated lower-case text that
/// `Uuid` displays parses back to the same value.
#[verifier::external_body]
pub(crate) fn parse_uuid(s: &str) -> (r: Result<u128, String>)
    ensures
        match r {
            Ok(v) => {
                &&& uuid_parsed(s@) == Ok::<u128, Seq<char>>(v)
                &&& forall|x: u128| #[trigger] crate::ids::uuid_text(x) == s@ ==> v == x
            },
            Err(e) => {
                &&& uuid_parsed(s@) == Err::<u128, Seq<char>>(e@)
                &&& forall|x: u128| #[trigger] crate::ids::uuid_text(x) != s@
            },
        },
{
    match uuid::Uuid::parse_str(s) {
        Ok(u) => Ok(u.as_u128()),
        Err(e) => Err(e.to_string()),
    }
}

/// What `serde_json::from_str::<serde_json::Value>` gives for a text: the
/// parsed value, or the message of its error. A function of the text alone.
pub uninterp spec fn json_parsed(s: Seq<char>) -> Result<serde_json::Value, Seq<char>>;

/// Whether a text fails to parse as JSON: `None` when it parses, the
/// parser's message otherwise.
pub open spec fn json_parse_error(s: Seq<char>) -> Option<Seq<char>> {
    match json_parsed(s) {
        Ok(_) => None,
        Err(e) => Some(e),
    }
}

/// `serde_json::from_str::<serde_json::Value>`, its error taken by
/// `to_string`. The value or the message is named `json_parsed`.
#[verifier::external_body]
pub(crate) fn parse_json(s: &str) -> (r: Result<serde_json::Value, String>)
    ensures
        match r {
            Ok(v) => json_parsed(s@) == Ok::<serde_json::Value, Seq<char>>(v),
            Err(e) => json_parsed(s@) == Err::<serde_json::Value, Seq<char>>(e@),
        },
{
    match serde_json::from_str::<serde_json::Value>(s) {
        Ok(v) => Ok(v),
        Err(e) => Err(e.to_string()),
    }
}

/// Whether a character has Unicode's `White_Space` property, as
/// `char::is_whitespace` tests it.
pub open spec fn is_white_space(c: char) -> bool {
    ||| '\u{9}' <= c <= '\u{d}'
    ||| c == ' '
    ||| c == '\u{85}'
    ||| c == '\u{a0}'
    ||| c == '\u{1680}'
    ||| '\u{2000}' <= c <= '\u{200a}'
    ||| c == '\u{2028}'
    ||| c == '\u{2029}'
    ||| c == '\u{202f}'
    ||| c == '\u{205f}'
    ||| c == '\u{3000}'
}

/// The words of `s`, the first of them continuing `word`: the maximal runs
/// of characters without white space, in order.
pub open spec fn words_after(s: Seq<char>, word: Seq<char>) -> Seq<Seq<char>>
    decreases s.len(),
{
    if s.len() == 0 {
        if word.len() == 0 {
            Seq::empty()
        } else {
            seq![word]
        }
    } else if is_white_space(s[0]) {
        (if word.len() == 0 {
            Seq::empty()
        } else {
            seq![word]
        }) + words_after(s.drop_first(), Seq::empty())
    } else {
        words_after(s.drop_first(), word.push(s[0]))
    }
}

/// The words `str::split_whitespace` cuts a text into.
pub open spec fn whitespace_words(s: Seq<char>) -> Seq<Seq<char>> {
    words_after(s, Seq::empty())
}

/// `str::split_whitespace`, each word copied into a `String`: the text's
/// runs of characters other than white space, in order.
#[verifier::external_body]
pub(crate) fn split_whitespace(s: &str) -> (r: Vec<String>)
    ensures
        r@.map_values(|w: String| w@) == whitespace_words(s@),
{
    s.split_whitespace().map(|w| w.to_string()).collect()
}

} // verus!

verus! {

#[verifier::external_type_specification]
#[verifier::external_body]
pub struct ExPrometheusHandle(metrics_exporter_prometheus::PrometheusHandle);

/// `metrics_exporter_prometheus::PrometheusHandle::render`: the recorder's
/// metrics in the Prometheus text format. Nothing is stated of the text: it
/// depends on what has been recorded so far.
#[verifier::external_body]
pub(crate) fn render_handle(h: &metrics_exporter_prometheus::PrometheusHandle) -> String {
    h.render()
}

} // verus!

verus! {

/// `serde_json::to_string` on a JSON value, its error taken by `to_string`.
/// Nothing is stated of the text: it depends on the value, which Verus does
/// not see, and not all of it reads back, since `serde_json::from_str`
/// refuses values nested deeper than 128 levels while this writes any.
#[verifier::external_body]
pub(crate) fn render_json(v: &serde_json::Value) -> Result<String, String> {
    serde_json::to_string(v).map_err(|e| e.to_string())
}

} // verus!
