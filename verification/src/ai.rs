//! Conversation titles: the completion request's endpoint, the reading of a
//! completion reply, the clean-up of the title and the retry decisions of
//! the title request; and the delta of a streamed chunk.
use vstd::prelude::*;
use crate::json::{
    first_choice_field, first_choice_field_str, first_spec, get_spec, json_first, json_get,
    json_parse, json_str, opt_first, opt_get, opt_str, parse_json, str_spec, JsonValue,
};
use crate::text::{
    chars_of, collapse_spaces, collapse_whitespace, copy_range, is_blank, is_blank_str, push_all,
    starts_with, string_of, trim, trim_bounds, trim_start, trim_start_chars, trim_str,
};

verus! {

/// The instruction sent with a title request.
pub fn title_prompt() -> (r: &'static str)
    ensures
        r@ == "Generate a short 4-6 word title for this conversation based on the first message. Reply with only the title, no punctuation, no quotes, no explanation."@,
{
    "Generate a short 4-6 word title for this conversation based on the first message. Reply with only the title, no punctuation, no quotes, no explanation."
}

/// Longest title kept, in characters.
pub const MAX_TITLE_CHARS: usize = 60;

/// The concatenated `text` members of the parts of a structured content.
pub open spec fn parts_text(parts: Seq<JsonValue>) -> Seq<char>
    decreases parts.len(),
{
    if parts.len() == 0 {
        seq![]
    } else {
        parts_text(parts.drop_last()) + match opt_str(get_spec(parts.last(), "text"@)) {
            Some(s) => s,
            None => seq![],
        }
    }
}

/// The text of a non-streamed completion reply: `choices[0].message.content`
/// when it is a string; else, when it is an array of parts, the
/// concatenation of their `text` members if that is not blank; else
/// `choices[0].text`.
pub open spec fn completion_text(body: JsonValue) -> Option<Seq<char>> {
    match opt_first(get_spec(body, "choices"@)) {
        None => None,
        Some(first) => {
            let content = opt_get(get_spec(first, "message"@), "content"@);
            match content {
                Some(JsonValue::Str(s)) => Some(s@),
                _ => {
                    let merged = match content {
                        Some(JsonValue::Array(parts)) => Some(parts_text(parts@)),
                        _ => None,
                    };
                    if merged is Some && !is_blank(merged->0) {
                        merged
                    } else {
                        opt_str(get_spec(first, "text"@))
                    }
                },
            }
        },
    }
}

/// `extract_completion_text`: the text of a completion reply.
pub fn extract_completion_text(body: &JsonValue) -> (r: Option<String>)
    ensures
        match r {
            Some(s) => completion_text(*body) == Some(s@),
            None => completion_text(*body) is None,
        },
{
    let choices_key = "choices".to_owned();
    let choices = match json_get(body, &choices_key) {
        Some(c) => c,
        None => return None,
    };
    let first = match json_first(choices) {
        Some(f) => f,
        None => return None,
    };
    let message_key = "message".to_owned();
    let content_key = "content".to_owned();
    let content = match json_get(first, &message_key) {
        Some(m) => json_get(m, &content_key),
        None => None,
    };
    if let Some(c) = content {
        if let Some(s) = json_str(c) {
            return Some(s.clone());
        }
        if let JsonValue::Array(parts) = c {
            let text_key = "text".to_owned();
            let mut merged = String::new();
            let mut i: usize = 0;
            while i < parts.len()
                invariant
                    i <= parts@.len(),
                    text_key@ == "text"@,
                    merged@ == parts_text(parts@.take(i as int)),
                decreases parts.len() - i,
            {
                proof {
                    assert(parts@.take(i + 1).drop_last() =~= parts@.take(i as int));
                    assert(parts@.take(i + 1).last() == parts@[i as int]);
                }
                match json_get(&parts[i], &text_key) {
                    Some(t) => match json_str(t) {
                        Some(s) => merged.push_str(s.as_str()),
                        None => {},
                    },
                    None => {},
                }
                i += 1;
            }
            assert(parts@.take(parts@.len() as int) =~= parts@);
            if !is_blank_str(merged.as_str()) {
                return Some(merged);
            }
        }
    }
    let text_key = "text".to_owned();
    match json_get(first, &text_key) {
        Some(t) => match json_str(t) {
            Some(s) => Some(s.clone()),
            None => None,
        },
        None => None,
    }
}

/// A double or single quote.
pub open spec fn is_quote(c: char) -> bool {
    c == '"' || c == '\''
}

/// Number of quotes at the start of `s`.
pub open spec fn leading_quotes(s: Seq<char>) -> nat
    decreases s.len(),
{
    if s.len() > 0 && is_quote(s[0]) {
        1 + leading_quotes(s.drop_first())
    } else {
        0
    }
}

/// Number of quotes at the end of `s`.
pub open spec fn trailing_quotes(s: Seq<char>) -> nat
    decreases s.len(),
{
    if s.len() > 0 && is_quote(s.last()) {
        1 + trailing_quotes(s.drop_last())
    } else {
        0
    }
}

/// `s.trim_matches(|c| c == '"' || c == '\'')`.
pub open spec fn strip_quotes(s: Seq<char>) -> Seq<char> {
    let t = s.skip(leading_quotes(s) as int);
    t.take(t.len() - trailing_quotes(t))
}

proof fn lemma_leading_quotes(s: Seq<char>, k: int)
    requires
        0 <= k <= s.len(),
        forall|j: int| 0 <= j < k ==> is_quote(#[trigger] s[j]),
        k == s.len() || !is_quote(s[k]),
    ensures
        leading_quotes(s) == k,
    decreases k,
{
    if k > 0 {
        let t = s.drop_first();
        assert forall|j: int| 0 <= j < k - 1 implies is_quote(#[trigger] t[j]) by {
            assert(t[j] == s[j + 1]);
        }
        if k < s.len() {
            assert(t[k - 1] == s[k]);
        }
        lemma_leading_quotes(t, k - 1);
    }
}

proof fn lemma_trailing_quotes(s: Seq<char>, e: int)
    requires
        0 <= e <= s.len(),
        forall|j: int| e <= j < s.len() ==> is_quote(#[trigger] s[j]),
        e == 0 || !is_quote(s[e - 1]),
    ensures
        trailing_quotes(s) == s.len() - e,
    decreases s.len() - e,
{
    if e < s.len() {
        let t = s.drop_last();
        assert forall|j: int| e <= j < t.len() implies is_quote(#[trigger] t[j]) by {
            assert(t[j] == s[j]);
        }
        if e > 0 {
            assert(t[e - 1] == s[e - 1]);
        }
        assert(is_quote(s[s.len() - 1]));
        lemma_trailing_quotes(t, e);
    }
}

fn strip_quotes_chars(s: &[char]) -> (r: Vec<char>)
    ensures
        r@ == strip_quotes(s@),
{
    let mut a: usize = 0;
    while a < s.len() && (s[a] == '"' || s[a] == '\'')
        invariant
            a <= s@.len(),
            forall|j: int| 0 <= j < a ==> is_quote(#[trigger] s@[j]),
        decreases s.len() - a,
    {
        a += 1;
    }
    proof {
        lemma_leading_quotes(s@, a as int);
    }
    let mut e = s.len();
    while e > a && (s[e - 1] == '"' || s[e - 1] == '\'')
        invariant
            a <= e <= s@.len(),
            forall|j: int| e <= j < s@.len() ==> is_quote(#[trigger] s@[j]),
        decreases e,
    {
        e -= 1;
    }
    proof {
        let t = s@.skip(a as int);
        assert forall|j: int| e - a <= j < t.len() implies is_quote(#[trigger] t[j]) by {
            assert(t[j] == s@[j + a]);
        }
        if e > a {
            assert(t[e - a - 1] == s@[e - 1]);
        }
        lemma_trailing_quotes(t, e - a);
        assert(strip_quotes(s@) =~= s@.subrange(a as int, e as int));
    }
    copy_range(s, a, e)
}

/// The title made from a raw completion text: trimmed, whitespace runs
/// collapsed to single spaces, surrounding quotes removed, and cut to
/// `MAX_TITLE_CHARS` characters.
pub open spec fn clean_title(raw: Seq<char>) -> Seq<char> {
    let n = strip_quotes(collapse_spaces(trim(raw)));
    n.take(if n.len() < MAX_TITLE_CHARS { n.len() as int } else { MAX_TITLE_CHARS as int })
}

/// A generated title never has more than [`MAX_TITLE_CHARS`] characters.
pub proof fn law_title_at_most_max_chars(raw: Seq<char>)
    ensures
        clean_title(raw).len() <= MAX_TITLE_CHARS,
{
}

/// The clean-up of a title request's completion text: the cleaned title, or
/// `Generated title is empty.` when nothing is left.
pub fn title_from_completion(raw: &str) -> (r: Result<String, String>)
    ensures
        clean_title(raw@).len() == 0 ==> (r matches Err(e) && e@ == "Generated title is empty."@),
        clean_title(raw@).len() > 0 ==> (r matches Ok(t) && t@ == clean_title(raw@)),
{
    let trimmed = trim_str(raw);
    let collapsed = collapse_whitespace(trimmed.as_str());
    let cs = chars_of(collapsed.as_str());
    let n = strip_quotes_chars(cs.as_slice());
    let k = if n.len() < MAX_TITLE_CHARS {
        n.len()
    } else {
        MAX_TITLE_CHARS
    };
    let t = copy_range(n.as_slice(), 0, k);
    if t.len() == 0 {
        Err("Generated title is empty.".to_owned())
    } else {
        Ok(string_of(t.as_slice()))
    }
}

/// The error of a title request that is not configured.
pub open spec fn title_not_configured() -> Seq<char> {
    "AUVRO endpoint/model/api key is not configured."@
}

/// The configuration check of a title request: nothing when key, model and
/// endpoint are all non-blank, else [`title_not_configured`].
pub fn title_request_check(api_key: &str, model: &str, endpoint: &str) -> (r: Result<(), String>)
    ensures
        r is Ok <==> !(is_blank(api_key@) || is_blank(model@) || is_blank(endpoint@)),
        r matches Err(e) ==> e@ == title_not_configured(),
{
    if title_request_configured(api_key, model, endpoint) {
        Ok(())
    } else {
        Err("AUVRO endpoint/model/api key is not configured.".to_owned())
    }
}

/// Whether the title request is configured: key, model and endpoint are all
/// non-blank.
pub fn title_request_configured(api_key: &str, model: &str, endpoint: &str) -> (r: bool)
    ensures
        r == !(is_blank(api_key@) || is_blank(model@) || is_blank(endpoint@)),
{
    !(is_blank_str(api_key) || is_blank_str(model) || is_blank_str(endpoint))
}

/// The outcome of one title request.
pub enum TitleAttempt {
    /// A success status.
    Success,
    /// Status 429.
    RateLimited,
    /// Another status, with its display text.
    HttpError(String),
    /// The request did not complete, with the error's display text.
    NetworkError(String),
}

/// What the title request does next.
pub enum TitleStep {
    /// Read the reply.
    Done,
    /// Wait this many milliseconds and try again.
    Retry { wait_ms: u64 },
    /// Fail with this error.
    Fail(String),
}

/// `2^n`.
pub open spec fn pow2(n: nat) -> nat
    decreases n,
{
    if n == 0 {
        1
    } else {
        2 * pow2((n - 1) as nat)
    }
}

proof fn lemma_pow2_mono(a: nat, b: nat)
    requires
        a <= b,
    ensures
        pow2(a) <= pow2(b),
    decreases b - a,
{
    if a < b {
        lemma_pow2_mono(a, (b - 1) as nat);
    }
}

fn pow2_exec(n: u32) -> (r: u64)
    requires
        pow2(n as nat) <= u64::MAX,
    ensures
        r == pow2(n as nat),
{
    let mut p: u64 = 1;
    let mut i: u32 = 0;
    while i < n
        invariant
            i <= n,
            pow2(n as nat) <= u64::MAX,
            p == pow2(i as nat),
        decreases n - i,
    {
        proof {
            lemma_pow2_mono((i + 1) as nat, n as nat);
        }
        p = p * 2;
        i += 1;
    }
    p
}

/// The retry decision of the title request after attempt `attempts` (counted
/// from zero): a success is read; a rate limit is retried after `2^attempts`
/// seconds until the retries are used up (then `Rate limited`); another
/// status fails with `HTTP <status>`; a network error is retried after
/// `2^attempts / 2` seconds, and fails with `Network error: <error>` once the
/// retries are used up.
pub fn title_retry_step(attempts: u32, max_retries: u32, outcome: &TitleAttempt) -> (r: TitleStep)
    requires
        attempts <= max_retries,
        pow2(max_retries as nat) * 1000 <= u64::MAX,
    ensures
        match *outcome {
            TitleAttempt::Success => r is Done,
            TitleAttempt::RateLimited => if attempts >= max_retries {
                r matches TitleStep::Fail(e) && e@ == "Rate limited"@
            } else {
                r == (TitleStep::Retry { wait_ms: (pow2(attempts as nat) * 1000) as u64 })
            },
            TitleAttempt::HttpError(status) => r matches TitleStep::Fail(e) && e@ == "HTTP "@
                + status@,
            TitleAttempt::NetworkError(err) => if attempts < max_retries {
                r == (TitleStep::Retry { wait_ms: (pow2(attempts as nat) * 500) as u64 })
            } else {
                r matches TitleStep::Fail(e) && e@ == "Network error: "@ + err@
            },
        },
{
    proof {
        lemma_pow2_mono(attempts as nat, max_retries as nat);
    }
    match outcome {
        TitleAttempt::Success => TitleStep::Done,
        TitleAttempt::RateLimited => {
            if attempts >= max_retries {
                TitleStep::Fail("Rate limited".to_owned())
            } else {
                TitleStep::Retry { wait_ms: pow2_exec(attempts) * 1000 }
            }
        },
        TitleAttempt::HttpError(status) => {
            let mut e = "HTTP ".to_owned();
            e.push_str(status.as_str());
            TitleStep::Fail(e)
        },
        TitleAttempt::NetworkError(err) => {
            if attempts < max_retries {
                TitleStep::Retry { wait_ms: pow2_exec(attempts) * 500 }
            } else {
                let mut e = "Network error: ".to_owned();
                e.push_str(err.as_str());
                TitleStep::Fail(e)
            }
        },
    }
}

/// The payload of a streamed line that carries a JSON chunk: the line is
/// trimmed; blank lines, comments (`:`), lines other than `data:`, empty
/// payloads and `[DONE]` carry none; otherwise the payload is what follows
/// `data:` without leading whitespace.
pub open spec fn delta_payload(line: Seq<char>) -> Option<Seq<char>> {
    let t = trim(line);
    if t.len() == 0 || t[0] == ':' {
        None
    } else if starts_with(t, "data:"@) {
        let p = trim_start(t.skip("data:"@.len() as int));
        if p.len() == 0 || p == "[DONE]"@ {
            None
        } else {
            Some(p)
        }
    } else {
        None
    }
}

/// The first step of reading a streamed delta, before parsing: the JSON payload
/// of a streamed line, if it has one.
pub fn sse_delta_payload(line: &str) -> (r: Option<String>)
    ensures
        match r {
            Some(p) => delta_payload(line@) == Some(p@),
            None => delta_payload(line@) is None,
        },
{
    let cs = chars_of(line);
    let (a, b) = trim_bounds(cs.as_slice());
    let t = copy_range(cs.as_slice(), a, b);
    if t.len() == 0 || t[0] == ':' {
        return None;
    }
    let prefix = chars_of("data:");
    if !crate::text::starts_with_chars(t.as_slice(), prefix.as_slice()) {
        return None;
    }
    let rest = copy_range(t.as_slice(), prefix.len(), t.len());
    assert(rest@ =~= t@.skip("data:"@.len() as int));
    let p = trim_start_chars(rest.as_slice());
    let done = chars_of("[DONE]");
    if p.len() == 0 {
        return None;
    }
    if p.len() == done.len() && crate::text::starts_with_chars(p.as_slice(), done.as_slice()) {
        assert(p@ =~= done@);
        return None;
    }
    proof {
        if p@ == "[DONE]"@ {
            assert(p@.take(done@.len() as int) =~= p@);
        }
    }
    Some(string_of(p.as_slice()))
}

/// The last step of reading a streamed delta, after parsing: the chunk's
/// `choices[0].delta.content`, when it is a string.
pub fn delta_content(v: &JsonValue) -> (r: Option<String>)
    ensures
        match r {
            Some(s) => first_choice_field_str(*v, "delta"@, "content"@) == Some(s@),
            None => first_choice_field_str(*v, "delta"@, "content"@) is None,
        },
{
    let delta = "delta".to_owned();
    let content = "content".to_owned();
    first_choice_field(v, &delta, &content)
}

/// The error of a streamed chunk that is not valid JSON, after the parser's
/// own message `e`.
pub open spec fn chunk_parse_error(e: Seq<char>) -> Seq<char> {
    "Could not parse streaming chunk: "@ + e
}

/// What a streamed line yields: nothing when it carries no JSON payload
/// ([`delta_payload`]); the parse error when the payload is not JSON;
/// otherwise the chunk's `choices[0].delta.content` when it is a string.
pub open spec fn sse_delta_spec(line: Seq<char>) -> Result<Option<Seq<char>>, Seq<char>> {
    match delta_payload(line) {
        None => Ok(None),
        Some(p) => match json_parse(p) {
            Err(e) => Err(chunk_parse_error(e)),
            Ok(v) => Ok(first_choice_field_str(v, "delta"@, "content"@)),
        },
    }
}

/// The text that one line of a streamed completion adds, if any.
pub fn extract_sse_delta_content(line: &str) -> (r: Result<Option<String>, String>)
    ensures
        match r {
            Ok(None) => sse_delta_spec(line@) == Ok::<Option<Seq<char>>, Seq<char>>(None),
            Ok(Some(s)) => sse_delta_spec(line@) == Ok::<Option<Seq<char>>, Seq<char>>(Some(s@)),
            Err(e) => sse_delta_spec(line@) == Err::<Option<Seq<char>>, Seq<char>>(e@),
        },
{
    let p = match sse_delta_payload(line) {
        None => return Ok(None),
        Some(p) => p,
    };
    match parse_json(p.as_str()) {
        Err(e) => {
            let mut m = "Could not parse streaming chunk: ".to_owned();
            m.push_str(e.as_str());
            Err(m)
        },
        Ok(v) => Ok(delta_content(&v)),
    }
}

/// The outcome of a title request's reply text: the parse error when it is
/// not JSON; `Title response did not include text content.` when the reply
/// has no [`completion_text`]; otherwise the cleaned title, or `Generated
/// title is empty.` when nothing is left of it.
pub open spec fn title_reply_spec(text: Seq<char>) -> Result<Seq<char>, Seq<char>> {
    match json_parse(text) {
        Err(e) => Err("Failed to parse title response: "@ + e),
        Ok(body) => match completion_text(body) {
            None => Err("Title response did not include text content."@),
            Some(raw) => if clean_title(raw).len() == 0 {
                Err("Generated title is empty."@)
            } else {
                Ok(clean_title(raw))
            },
        },
    }
}

/// The title that a title request's reply text gives, or why it gives none.
pub fn title_from_reply(text: &str) -> (r: Result<String, String>)
    ensures
        match r {
            Ok(t) => title_reply_spec(text@) == Ok::<Seq<char>, Seq<char>>(t@),
            Err(e) => title_reply_spec(text@) == Err::<Seq<char>, Seq<char>>(e@),
        },
{
    let body = match parse_json(text) {
        Err(e) => {
            let mut m = "Failed to parse title response: ".to_owned();
            m.push_str(e.as_str());
            return Err(m);
        },
        Ok(b) => b,
    };
    match extract_completion_text(&body) {
        None => Err("Title response did not include text content.".to_owned()),
        Some(raw) => title_from_completion(raw.as_str()),
    }
}

} // verus!
