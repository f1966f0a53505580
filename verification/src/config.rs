//! Configuration constants and input validation of security ids.
use vstd::prelude::*;
use vstd::utf8::is_ascii_chars;
use vstd::string::StringExecFns;

verus! {

/// Application name.
pub const APP_NAME: &'static str = "TickPulse";

/// Database file name.
pub const DB_NAME: &'static str = "stock-monitor.db";

/// Default quote refresh interval (seconds).
pub const DEFAULT_REFRESH_INTERVAL_SECS: u64 = 10;

/// Maximum number of quotes per batch request.
pub const BATCH_QUOTE_SIZE: usize = 50;

/// HTTP request timeout (seconds).
pub const HTTP_TIMEOUT_SECS: u64 = 10;

/// Consecutive errors after which the HTTP client is rebuilt.
pub const CONSECUTIVE_ERROR_THRESHOLD: u32 = 10;

/// Maximum retry back-off (seconds).
pub const MAX_BACKOFF_SECS: u64 = 30;

/// What compiling `pattern` with the `regex` crate and matching `text` gives: `None` when
/// the pattern does not compile, else whether the text matches.
pub uninterp spec fn regex_full_match(pattern: Seq<char>, text: Seq<char>) -> Option<bool>;

/// The secid pattern: 1-3 digits, a dot, 1-10 letters or digits, and nothing else.
pub open spec fn secid_pattern() -> Seq<char> {
    "^\\d{1,3}\\.[A-Za-z0-9]{1,10}$"@
}

/// ASCII digit.
pub open spec fn is_ascii_digit(c: char) -> bool {
    '0' <= c <= '9'
}

/// ASCII letter or digit.
pub open spec fn is_ascii_alnum(c: char) -> bool {
    ||| 'a' <= c <= 'z'
    ||| 'A' <= c <= 'Z'
    ||| '0' <= c <= '9'
}

/// The secid shape over ASCII text: 1-3 digits, `.`, then 1-10 letters or digits.
pub open spec fn secid_shape(s: Seq<char>) -> bool {
    exists|k: int|
        #![trigger s[k]]
        1 <= k <= 3 && k + 2 <= s.len() <= k + 11 && s[k] == '.' && (forall|i: int|
            0 <= i < k ==> is_ascii_digit(#[trigger] s[i])) && (forall|j: int|
            k < j < s.len() ==> is_ascii_alnum(#[trigger] s[j]))
}

/// Compiles `pattern` with `regex::Regex::new` and tests `text` with `Regex::is_match`.
/// The secid pattern compiles; on ASCII text its `\d` is a digit, so a match is exactly the
/// secid shape.
#[verifier::external_body]
fn regex_match(pattern: &str, text: &str) -> (r: Option<bool>)
    ensures
        r == regex_full_match(pattern@, text@),
        pattern@ == secid_pattern() ==> r is Some,
        pattern@ == secid_pattern() && is_ascii_chars(text@) ==> r == Some(secid_shape(text@)),
{
    match regex::Regex::new(pattern) {
        Ok(re) => Some(re.is_match(text)),
        Err(_) => None,
    }
}

/// Whether `secid` has the form `market.code` (e.g. `1.600519`).
pub fn validate_secid(secid: &str) -> (r: bool)
    ensures
        r == (regex_full_match(secid_pattern(), secid@) == Some(true)),
        is_ascii_chars(secid@) ==> r == secid_shape(secid@),
{
    match regex_match("^\\d{1,3}\\.[A-Za-z0-9]{1,10}$", secid) {
        Some(b) => b,
        None => false,
    }
}

/// The error message for an invalid secid.
pub open spec fn invalid_secid_message(secid: Seq<char>) -> Seq<char> {
    "非法证券ID格式: '"@ + secid + "', 期望格式: 市场编号.股票代码 (如 1.600519)"@
}

/// Validates `secid`, explaining the expected form when it is invalid.
pub fn validate_secid_or_error(secid: &str) -> (r: Result<(), String>)
    ensures
        r is Ok <==> regex_full_match(secid_pattern(), secid@) == Some(true),
        r matches Err(e) ==> e@ == invalid_secid_message(secid@),
{
    if validate_secid(secid) {
        Ok(())
    } else {
        let mut msg = String::from_str("非法证券ID格式: '");
        msg.append(secid);
        msg.append("', 期望格式: 市场编号.股票代码 (如 1.600519)");
        Err(msg)
    }
}

} // verus!
