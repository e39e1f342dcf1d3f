//! Text helpers and log-line formatters.
//!
//! The formatters build the exact message text for the events the service
//! reports; emitting the lines to a log sink is left to the embedding
//! program. Each formatter's contract pins the produced text down to the
//! character.

use crate::config::Config;
use vstd::prelude::*;

verus! {

/// The decimal digit character for a value below ten.
pub open spec fn spec_digit(d: int) -> char {
    if d == 0 {
        '0'
    } else if d == 1 {
        '1'
    } else if d == 2 {
        '2'
    } else if d == 3 {
        '3'
    } else if d == 4 {
        '4'
    } else if d == 5 {
        '5'
    } else if d == 6 {
        '6'
    } else if d == 7 {
        '7'
    } else if d == 8 {
        '8'
    } else {
        '9'
    }
}

/// The decimal representation of a non-negative integer, most significant
/// digit first, without leading zeros (a single `'0'` for zero).
pub open spec fn spec_dec(n: int) -> Seq<char>
    decreases n,
{
    if n < 10 {
        seq![spec_digit(n)]
    } else {
        spec_dec(n / 10).push(spec_digit(n % 10))
    }
}

fn digit_char(d: u64) -> (c: char)
    requires
        d < 10,
    ensures
        c == spec_digit(d as int),
{
    if d == 0 {
        '0'
    } else if d == 1 {
        '1'
    } else if d == 2 {
        '2'
    } else if d == 3 {
        '3'
    } else if d == 4 {
        '4'
    } else if d == 5 {
        '5'
    } else if d == 6 {
        '6'
    } else if d == 7 {
        '7'
    } else if d == 8 {
        '8'
    } else {
        '9'
    }
}

/// Relies on String::push: appends one character at the end.
#[verifier::external_body]
fn push_char(s: &mut String, c: char)
    ensures
        final(s)@ == old(s)@.push(c),
{
    s.push(c);
}

/// Appends the decimal representation of `n` to `s`.
pub fn push_u64(s: &mut String, n: u64)
    ensures
        final(s)@ == old(s)@ + spec_dec(n as int),
    decreases n,
{
    if n >= 10 {
        push_u64(s, n / 10);
    }
    let c = digit_char(n % 10);
    push_char(s, c);
    proof {
        if n < 10 {
            assert(old(s)@ + spec_dec(n as int) =~= old(s)@.push(spec_digit(n as int)));
        } else {
            assert(old(s)@ + spec_dec(n as int) =~= (old(s)@ + spec_dec(n as int / 10)).push(
                spec_digit(n as int % 10),
            ));
        }
    }
}

/// The decimal representation of `n` as a fresh string.
pub fn u64_to_string(n: u64) -> (r: String)
    ensures
        r@ == spec_dec(n as int),
{
    let mut s = String::new();
    push_u64(&mut s, n);
    proof {
        assert(Seq::<char>::empty() + spec_dec(n as int) =~= spec_dec(n as int));
    }
    s
}

/// The numeric value of a decimal digit character; ten marks a
/// non-digit.
pub open spec fn spec_digit_val(c: char) -> int {
    if c == '0' {
        0
    } else if c == '1' {
        1
    } else if c == '2' {
        2
    } else if c == '3' {
        3
    } else if c == '4' {
        4
    } else if c == '5' {
        5
    } else if c == '6' {
        6
    } else if c == '7' {
        7
    } else if c == '8' {
        8
    } else if c == '9' {
        9
    } else {
        10
    }
}

/// Whether every character of `s` is a decimal digit.
pub open spec fn all_digits(s: Seq<char>) -> bool {
    forall|i: int| 0 <= i < s.len() ==> spec_digit_val(#[trigger] s[i]) < 10
}

/// The numeric value of a digit string, most significant digit first.
pub open spec fn spec_dec_val(s: Seq<char>) -> int
    decreases s.len(),
{
    if s.len() == 0 {
        0
    } else {
        spec_dec_val(s.drop_last()) * 10 + spec_digit_val(s.last())
    }
}

/// The value of a digit string is never negative.
proof fn lemma_dec_val_nonneg(s: Seq<char>)
    ensures
        spec_dec_val(s) >= 0,
    decreases s.len(),
{
    if s.len() > 0 {
        lemma_dec_val_nonneg(s.drop_last());
    }
}

/// A longer digit prefix never has a smaller value.
proof fn lemma_dec_val_prefix_le(s: Seq<char>, i: int, j: int)
    requires
        0 <= i <= j <= s.len(),
    ensures
        spec_dec_val(s.take(i)) <= spec_dec_val(s.take(j)),
    decreases j - i,
{
    if i < j {
        lemma_dec_val_prefix_le(s, i, j - 1);
        assert(s.take(j).drop_last() =~= s.take(j - 1));
        lemma_dec_val_nonneg(s.take(j - 1));
    }
}

fn digit_val(c: char) -> (d: u64)
    ensures
        d == spec_digit_val(c),
{
    match c {
        '0' => 0,
        '1' => 1,
        '2' => 2,
        '3' => 3,
        '4' => 4,
        '5' => 5,
        '6' => 6,
        '7' => 7,
        '8' => 8,
        '9' => 9,
        _ => 10,
    }
}

/// Parses a non-empty string of decimal digits into a `u64`; the parse
/// succeeds exactly when the string is all digits and its value fits.
pub fn parse_u64(s: &str) -> (r: Option<u64>)
    ensures
        r is Some <==> (s@.len() > 0 && all_digits(s@) && spec_dec_val(s@) <= u64::MAX),
        r matches Some(n) ==> n == spec_dec_val(s@),
{
    let n = s.unicode_len();
    if n == 0 {
        return None;
    }
    let mut i: usize = 0;
    let mut acc: u64 = 0;
    while i < n
        invariant
            0 <= i <= n,
            n == s@.len(),
            forall|j: int| 0 <= j < i ==> spec_digit_val(#[trigger] s@[j]) < 10,
            acc == spec_dec_val(s@.take(i as int)),
        decreases n - i,
    {
        let c = s.get_char(i);
        let d = digit_val(c);
        if d >= 10 {
            return None;
        }
        if acc > u64::MAX / 10 || (acc == u64::MAX / 10 && d > u64::MAX % 10) {
            proof {
                assert(s@.take(i as int + 1).drop_last() =~= s@.take(i as int));
                assert(s@.take(i as int + 1).last() == s@[i as int]);
                assert(spec_dec_val(s@.take(i as int + 1)) > u64::MAX);
                if all_digits(s@) {
                    lemma_dec_val_prefix_le(s@, i as int + 1, s@.len() as int);
                    assert(s@.take(s@.len() as int) =~= s@);
                }
            }
            return None;
        }
        proof {
            assert(s@.take(i as int + 1).drop_last() =~= s@.take(i as int));
            assert(s@.take(i as int + 1).last() == s@[i as int]);
        }
        acc = acc * 10 + d;
        i = i + 1;
    }
    proof {
        assert(s@.take(n as int) =~= s@);
    }
    Some(acc)
}

/// Whether `s` is a well-formed optionally-signed digit string.
pub open spec fn signed_ok(s: Seq<char>) -> bool {
    if s.len() >= 1 && s[0] == '-' {
        s.len() >= 2 && all_digits(s.skip(1))
    } else {
        s.len() > 0 && all_digits(s)
    }
}

/// The numeric value of an optionally-signed digit string.
pub open spec fn spec_signed_val(s: Seq<char>) -> int {
    if s.len() >= 1 && s[0] == '-' {
        -spec_dec_val(s.skip(1))
    } else {
        spec_dec_val(s)
    }
}

/// Parses an optionally-signed decimal string into an `i64`; the parse
/// succeeds exactly when the string is well formed and its value fits.
pub fn parse_i64(s: &str) -> (r: Option<i64>)
    ensures
        r is Some <==> (signed_ok(s@) && i64::MIN <= spec_signed_val(s@) <= i64::MAX),
        r matches Some(n) ==> n == spec_signed_val(s@),
{
    let n = s.unicode_len();
    if n >= 1 && s.get_char(0) == '-' {
        let digits = s.substring_char(1, n);
        proof {
            assert(digits@ =~= s@.skip(1));
            lemma_dec_val_nonneg(s@.skip(1));
        }
        match parse_u64(digits) {
            Some(mag) => {
                if mag <= i64::MAX as u64 {
                    Some(-(mag as i64))
                } else if mag == i64::MAX as u64 + 1 {
                    Some(i64::MIN)
                } else {
                    None
                }
            },
            None => None,
        }
    } else {
        proof {
            lemma_dec_val_nonneg(s@);
        }
        match parse_u64(s) {
            Some(mag) => {
                if mag <= i64::MAX as u64 {
                    Some(mag as i64)
                } else {
                    None
                }
            },
            None => None,
        }
    }
}

/// Parses an optionally-signed decimal string into an `i32`.
pub fn parse_i32(s: &str) -> (r: Option<i32>)
    ensures
        r is Some <==> (signed_ok(s@) && i32::MIN <= spec_signed_val(s@) <= i32::MAX),
        r matches Some(n) ==> n == spec_signed_val(s@),
{
    match parse_i64(s) {
        Some(v) => {
            if i32::MIN as i64 <= v && v <= i32::MAX as i64 {
                Some(v as i32)
            } else {
                None
            }
        },
        None => None,
    }
}

/// Whether `s` spells `true` up to ASCII case.
pub open spec fn is_true_literal(s: Seq<char>) -> bool {
    &&& s.len() == 4
    &&& (s[0] == 't' || s[0] == 'T')
    &&& (s[1] == 'r' || s[1] == 'R')
    &&& (s[2] == 'u' || s[2] == 'U')
    &&& (s[3] == 'e' || s[3] == 'E')
}

/// Recognizes the flag value `true`, ignoring ASCII case.
pub fn parse_bool_flag(s: &str) -> (r: bool)
    ensures
        r == is_true_literal(s@),
{
    if s.unicode_len() != 4 {
        return false;
    }
    let c0 = s.get_char(0);
    let c1 = s.get_char(1);
    let c2 = s.get_char(2);
    let c3 = s.get_char(3);
    (c0 == 't' || c0 == 'T') && (c1 == 'r' || c1 == 'R') && (c2 == 'u' || c2 == 'U') && (c3 == 'e'
        || c3 == 'E')
}

/// A duration in seconds rendered as `Ns`, `Mm Ns`, or `Hh Mm Ns`.
pub open spec fn spec_format_duration(secs: int) -> Seq<char> {
    if secs < 60 {
        spec_dec(secs) + "s"@
    } else if secs < 3600 {
        spec_dec(secs / 60) + "m "@ + spec_dec(secs % 60) + "s"@
    } else {
        spec_dec(secs / 3600) + "h "@ + spec_dec(secs % 3600 / 60) + "m "@ + spec_dec(secs % 60)
            + "s"@
    }
}

/// Renders a duration given in whole seconds for human-readable status text.
pub fn format_duration(secs: u64) -> (r: String)
    ensures
        r@ == spec_format_duration(secs as int),
{
    let mut s = String::new();
    if secs < 60 {
        push_u64(&mut s, secs);
        s.append("s");
    } else if secs < 3600 {
        push_u64(&mut s, secs / 60);
        s.append("m ");
        push_u64(&mut s, secs % 60);
        s.append("s");
    } else {
        push_u64(&mut s, secs / 3600);
        s.append("h ");
        push_u64(&mut s, secs % 3600 / 60);
        s.append("m ");
        push_u64(&mut s, secs % 60);
        s.append("s");
    }
    proof {
        assert(s@ =~= spec_format_duration(secs as int));
    }
    s
}

/// Banner line reported once at process start.
pub fn log_startup_info() -> (r: String)
    ensures
        r@ == "TG FileStreamBot: high-performance Telegram file streaming service"@,
{
    String::from_str("TG FileStreamBot: high-performance Telegram file streaming service")
}

/// One-line summary of the loaded configuration.
pub fn log_config_info(config: &Config) -> (r: String)
    ensures
        r@ == "Configuration loaded: server "@ + config.server.bind_address@ + ":"@ + spec_dec(
            config.server.port as int,
        ) + ", workers "@ + spec_dec(config.server.workers as int) + ", cloudreve "@ + (
        if config.cloudreve.enabled {
            "enabled"@
        } else {
            "disabled"@
        }) + ", log level "@ + config.logging.level@,
{
    let mut s = String::from_str("Configuration loaded: server ");
    s.append(config.server.bind_address.as_str());
    s.append(":");
    push_u64(&mut s, config.server.port as u64);
    s.append(", workers ");
    push_u64(&mut s, config.server.workers as u64);
    s.append(", cloudreve ");
    if config.cloudreve.enabled {
        s.append("enabled");
    } else {
        s.append("disabled");
    }
    s.append(", log level ");
    s.append(config.logging.level.as_str());
    s
}

/// Announcement of the web server's listen address.
pub fn log_server_startup(bind_addr: &str, port: u16) -> (r: String)
    ensures
        r@ == "Web server started on http://"@ + bind_addr@ + ":"@ + spec_dec(port as int),
{
    let mut s = String::from_str("Web server started on http://");
    s.append(bind_addr);
    s.append(":");
    push_u64(&mut s, port as u64);
    s
}

/// Announcement that the chat front end is running.
pub fn log_telegram_startup() -> (r: String)
    ensures
        r@ == "Telegram bot started and listening for messages"@,
{
    String::from_str("Telegram bot started and listening for messages")
}

/// Report of a newly opened stream session.
pub fn log_stream_session_created(session_id: &str, file_name: &str, file_size: u64) -> (r: String)
    ensures
        r@ == "Stream session created: "@ + session_id@ + " for file: "@ + file_name@ + " ("@
            + spec_dec(file_size as int) + " bytes)"@,
{
    let mut s = String::from_str("Stream session created: ");
    s.append(session_id);
    s.append(" for file: ");
    s.append(file_name);
    s.append(" (");
    push_u64(&mut s, file_size);
    s.append(" bytes)");
    s
}

/// Report of a closed stream session, with the mean transfer rate.
pub fn log_stream_session_ended(session_id: &str, duration_secs: u64, bytes_sent: u64) -> (r:
    String)
    ensures
        r@ == "Stream session ended: "@ + session_id@ + " after "@ + spec_dec(duration_secs as int)
            + "s, "@ + spec_dec(bytes_sent as int) + " bytes sent, "@ + spec_dec(
            if duration_secs > 0 {
                (bytes_sent / duration_secs) as int
            } else {
                0
            },
        ) + " bytes/s"@,
{
    let speed: u64 = if duration_secs > 0 {
        bytes_sent / duration_secs
    } else {
        0
    };
    let mut s = String::from_str("Stream session ended: ");
    s.append(session_id);
    s.append(" after ");
    push_u64(&mut s, duration_secs);
    s.append("s, ");
    push_u64(&mut s, bytes_sent);
    s.append(" bytes sent, ");
    push_u64(&mut s, speed);
    s.append(" bytes/s");
    s
}

/// Report of a newly created download task.
pub fn log_download_task_created(task_id: &str, url: &str) -> (r: String)
    ensures
        r@ == "Download task created: "@ + task_id@ + " for URL: "@ + url@,
{
    let mut s = String::from_str("Download task created: ");
    s.append(task_id);
    s.append(" for URL: ");
    s.append(url);
    s
}

/// Report of a finished download, with the mean transfer rate.
pub fn log_download_completed(task_id: &str, total_size: u64, duration_secs: u64) -> (r: String)
    ensures
        r@ == "Download completed: "@ + task_id@ + " - "@ + spec_dec(total_size as int)
            + " bytes in "@ + spec_dec(duration_secs as int) + "s, "@ + spec_dec(
            if duration_secs > 0 {
                (total_size / duration_secs) as int
            } else {
                0
            },
        ) + " bytes/s"@,
{
    let speed: u64 = if duration_secs > 0 {
        total_size / duration_secs
    } else {
        0
    };
    let mut s = String::from_str("Download completed: ");
    s.append(task_id);
    s.append(" - ");
    push_u64(&mut s, total_size);
    s.append(" bytes in ");
    push_u64(&mut s, duration_secs);
    s.append("s, ");
    push_u64(&mut s, speed);
    s.append(" bytes/s");
    s
}

/// Report of a failed download.
pub fn log_download_failed(task_id: &str, error: &str) -> (r: String)
    ensures
        r@ == "Download failed: "@ + task_id@ + " - "@ + error@,
{
    let mut s = String::from_str("Download failed: ");
    s.append(task_id);
    s.append(" - ");
    s.append(error);
    s
}

/// Report of a cache lookup that found its object.
pub fn log_cache_hit(file_hash: &str) -> (r: String)
    ensures
        r@ == "Cache hit for file: "@ + file_hash@,
{
    let mut s = String::from_str("Cache hit for file: ");
    s.append(file_hash);
    s
}

/// Report of a cache lookup that missed.
pub fn log_cache_miss(file_hash: &str) -> (r: String)
    ensures
        r@ == "Cache miss for file: "@ + file_hash@,
{
    let mut s = String::from_str("Cache miss for file: ");
    s.append(file_hash);
    s
}

/// Report of an object added to the cache.
pub fn log_cache_added(file_hash: &str, file_name: &str) -> (r: String)
    ensures
        r@ == "File added to cache: "@ + file_name@ + " ("@ + file_hash@ + ")"@,
{
    let mut s = String::from_str("File added to cache: ");
    s.append(file_name);
    s.append(" (");
    s.append(file_hash);
    s.append(")");
    s
}

/// Report of a cache sweep, with the number of entries removed.
pub fn log_cache_cleanup(count: usize) -> (r: String)
    ensures
        r@ == "Cache cleanup: removed "@ + spec_dec(count as int) + " old files"@,
{
    let mut s = String::from_str("Cache cleanup: removed ");
    push_u64(&mut s, count as u64);
    s.append(" old files");
    s
}

/// An error message tagged with the component it came from.
pub fn log_error(error: &str, context: &str) -> (r: String)
    ensures
        r@ == "Error in "@ + context@ + ": "@ + error@,
{
    let mut s = String::from_str("Error in ");
    s.append(context);
    s.append(": ");
    s.append(error);
    s
}

/// A warning message tagged with the component it came from.
pub fn log_warning(warning: &str, context: &str) -> (r: String)
    ensures
        r@ == "Warning in "@ + context@ + ": "@ + warning@,
{
    let mut s = String::from_str("Warning in ");
    s.append(context);
    s.append(": ");
    s.append(warning);
    s
}

/// An informational message tagged with the component it came from.
pub fn log_info(message: &str, context: &str) -> (r: String)
    ensures
        r@ == "Info in "@ + context@ + ": "@ + message@,
{
    let mut s = String::from_str("Info in ");
    s.append(context);
    s.append(": ");
    s.append(message);
    s
}

/// A debug message tagged with the component it came from.
pub fn log_debug(message: &str, context: &str) -> (r: String)
    ensures
        r@ == "Debug in "@ + context@ + ": "@ + message@,
{
    let mut s = String::from_str("Debug in ");
    s.append(context);
    s.append(": ");
    s.append(message);
    s
}

/// Access-log line for one handled request.
pub fn log_request_processed(method: &str, path: &str, duration_ms: u64, status_code: u16) -> (r:
    String)
    ensures
        r@ == "Request processed: "@ + method@ + " "@ + path@ + " - "@ + spec_dec(
            status_code as int,
        ) + " in "@ + spec_dec(duration_ms as int) + "ms"@,
{
    let mut s = String::from_str("Request processed: ");
    s.append(method);
    s.append(" ");
    s.append(path);
    s.append(" - ");
    push_u64(&mut s, status_code as u64);
    s.append(" in ");
    push_u64(&mut s, duration_ms);
    s.append("ms");
    s
}

} // verus!
