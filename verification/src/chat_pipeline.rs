//! Chat payload construction, streaming-reply framing and retry decisions.
use vstd::prelude::*;
use crate::ai::chunk_parse_error;
use crate::json::{
    first_choice_field, first_choice_field_str, get_spec, json_get, json_parse_bytes, json_str, parse_json_bytes,
    str_spec, JsonValue,
};
use crate::text::{
    ascii_lower, ascii_lower_chars, chars_of, contains_chars, contains_seq, copy_range, ends_with,
    ends_with_chars, lemma_words_len, push_all, split_words, starts_with, starts_with_chars,
    string_of, strip_trailing, strip_trailing_chars, trim, trim_bounds, words,
};

verus! {

/// Default token budget for the conversation context.
pub const DEFAULT_CONTEXT_TOKEN_BUDGET: usize = 4096;

/// Default number of retries after a failed request.
pub const DEFAULT_RETRY_COUNT: u32 = 3;

/// Base of the exponential back-off between retries, in milliseconds.
pub const DEFAULT_BACKOFF_BASE_MS: u64 = 250;

/// One message of a chat-completion request.
pub struct ApiMessage {
    pub role: String,
    pub content: String,
}

/// Connection settings of one chat-completion request.
pub struct RequestOptions {
    pub endpoint: String,
    pub api_key: String,
    pub model: String,
    pub extra_headers: Vec<(String, String)>,
    pub timeout_secs: u64,
    pub max_retries: u32,
    pub max_context_tokens: usize,
}

/// A message as a pair (role, content).
pub open spec fn message_view(m: ApiMessage) -> (Seq<char>, Seq<char>) {
    (m.role@, m.content@)
}

pub open spec fn messages_view(ms: Seq<ApiMessage>) -> Seq<(Seq<char>, Seq<char>)> {
    Seq::new(ms.len(), |i: int| message_view(ms[i]))
}

pub open spec fn lines_view(lines: Seq<String>) -> Seq<Seq<char>> {
    Seq::new(lines.len(), |i: int| lines[i]@)
}

pub open spec fn max_nat(a: nat, b: nat) -> nat {
    if a >= b {
        a
    } else {
        b
    }
}

/// Token estimate of a text: the larger of its word count and a quarter of
/// its character count (rounded up), and at least one.
pub open spec fn approx_tokens(s: Seq<char>) -> nat {
    max_nat(max_nat(words(s).len(), 1), max_nat(((s.len() + 3) / 4) as nat, 1))
}

/// Token estimate of a message: its content plus a fixed overhead of four.
pub open spec fn message_tokens(content: Seq<char>) -> nat {
    approx_tokens(content) + 4
}

/// The prior turns that a transcript holds, in order: a line `You: x` is a
/// user turn with content `x.trim()`; a line `Auvro: x` is an assistant turn
/// with content `x.trim()` when that is not empty; other lines are ignored.
pub open spec fn history(lines: Seq<Seq<char>>) -> Seq<(Seq<char>, Seq<char>)>
    decreases lines.len(),
{
    if lines.len() == 0 {
        seq![]
    } else {
        let h = history(lines.drop_last());
        let line = lines.last();
        if starts_with(line, "You:"@) {
            h.push(("user"@, trim(line.skip("You:"@.len() as int))))
        } else if starts_with(line, "Auvro:"@) {
            let t = trim(line.skip("Auvro:"@.len() as int));
            if t.len() > 0 {
                h.push(("assistant"@, t))
            } else {
                h
            }
        } else {
            h
        }
    }
}

/// The most recent turns of `h` that fit in `budget` tokens: turns are taken
/// from the newest backwards, stopping at the first one that does not fit.
pub open spec fn select_recent(h: Seq<(Seq<char>, Seq<char>)>, budget: int) -> Seq<
    (Seq<char>, Seq<char>),
>
    decreases h.len(),
{
    if h.len() == 0 {
        seq![]
    } else {
        let cost = message_tokens(h.last().1);
        if cost <= budget {
            select_recent(h.drop_last(), budget - cost).push(h.last())
        } else {
            seq![]
        }
    }
}

/// Tokens left for history once the system prompt, the prompt and a margin
/// of 32 are reserved (saturating at zero).
pub open spec fn history_budget(system: Seq<char>, prompt: Seq<char>, max_tokens: nat) -> nat {
    let reserve = approx_tokens(system) + approx_tokens(prompt) + 32;
    if max_tokens >= reserve {
        (max_tokens - reserve) as nat
    } else {
        0
    }
}

/// The request messages: the system prompt, the recent history that fits,
/// and the new user prompt.
pub open spec fn chat_messages(
    system: Seq<char>,
    prompt: Seq<char>,
    lines: Seq<Seq<char>>,
    max_tokens: nat,
) -> Seq<(Seq<char>, Seq<char>)> {
    seq![("system"@, system)] + select_recent(
        history(lines),
        history_budget(system, prompt, max_tokens) as int,
    ) + seq![("user"@, prompt)]
}

/// The token cost of a run of turns.
pub open spec fn total_tokens(ms: Seq<(Seq<char>, Seq<char>)>) -> nat
    decreases ms.len(),
{
    if ms.len() == 0 {
        0
    } else {
        total_tokens(ms.drop_last()) + message_tokens(ms.last().1)
    }
}

/// The turns kept for a request cost no more tokens than the budget, and
/// they are the most recent turns, in their order.
pub proof fn law_history_fits_budget(h: Seq<(Seq<char>, Seq<char>)>, budget: int)
    requires
        budget >= 0,
    ensures
        total_tokens(select_recent(h, budget)) <= budget,
        select_recent(h, budget).len() <= h.len(),
        select_recent(h, budget) == h.skip(h.len() - select_recent(h, budget).len()),
    decreases h.len(),
{
    if h.len() > 0 {
        let cost = message_tokens(h.last().1);
        if cost <= budget {
            let t = h.drop_last();
            law_history_fits_budget(t, budget - cost);
            let s = select_recent(t, budget - cost);
            let r = s.push(h.last());
            assert(r.drop_last() =~= s);
            assert(r =~= h.skip(h.len() - r.len())) by {
                assert(s == t.skip(t.len() - s.len()));
                assert forall|i: int| 0 <= i < r.len() implies r[i] == h.skip(h.len() - r.len())[i] by {
                    if i < s.len() {
                        assert(s[i] == t[t.len() - s.len() + i]);
                    }
                }
            }
        } else {
            assert(select_recent(h, budget) =~= h.skip(h.len() as int));
        }
    } else {
        assert(select_recent(h, budget) =~= h.skip(0));
    }
}

/// More budget never drops a turn: the turns kept under a smaller budget
/// are the most recent of those kept under a larger one.
pub proof fn law_more_budget_keeps_more(h: Seq<(Seq<char>, Seq<char>)>, b1: int, b2: int)
    requires
        0 <= b1 <= b2,
    ensures
        select_recent(h, b1).len() <= select_recent(h, b2).len(),
        select_recent(h, b1) == select_recent(h, b2).skip(
            select_recent(h, b2).len() - select_recent(h, b1).len(),
        ),
    decreases h.len(),
{
    let s1 = select_recent(h, b1);
    let s2 = select_recent(h, b2);
    if h.len() == 0 {
        assert(s2.skip(0) =~= s1);
    } else {
        let cost = message_tokens(h.last().1);
        let t = h.drop_last();
        if cost > b2 {
            assert(s2.skip(0) =~= s1);
        } else if cost > b1 {
            assert(s2.skip(s2.len() as int) =~= s1);
        } else {
            law_more_budget_keeps_more(t, b1 - cost, b2 - cost);
            let r1 = select_recent(t, b1 - cost);
            let r2 = select_recent(t, b2 - cost);
            assert(s1 == r1.push(h.last()));
            assert(s2 == r2.push(h.last()));
            assert(s1 =~= s2.skip(s2.len() - s1.len())) by {
                assert forall|k: int| 0 <= k < s1.len() implies s1[k] == s2.skip(s2.len() - s1.len())[k] by {
                    if k < r1.len() {
                        assert(r1[k] == r2.skip(r2.len() - r1.len())[k]);
                    }
                }
            }
        }
    }
}

/// With a larger token budget a chat request keeps every prior turn that a
/// smaller budget keeps: the turns under the smaller one are the most
/// recent of those under the larger one; the system prompt and the user
/// prompt stay first and last.
pub proof fn law_request_budget_monotone(
    system: Seq<char>,
    prompt: Seq<char>,
    lines: Seq<Seq<char>>,
    m1: nat,
    m2: nat,
)
    requires
        m1 <= m2,
    ensures
        ({
            let r1 = chat_messages(system, prompt, lines, m1);
            let r2 = chat_messages(system, prompt, lines, m2);
            let k1 = r1.subrange(1, r1.len() - 1);
            let k2 = r2.subrange(1, r2.len() - 1);
            &&& r1.len() <= r2.len()
            &&& k1 == k2.skip(k2.len() - k1.len())
            &&& r1[0] == r2[0]
            &&& r1.last() == r2.last()
        }),
{
    let h = history(lines);
    let b1 = history_budget(system, prompt, m1) as int;
    let b2 = history_budget(system, prompt, m2) as int;
    law_more_budget_keeps_more(h, b1, b2);
    let r1 = chat_messages(system, prompt, lines, m1);
    let r2 = chat_messages(system, prompt, lines, m2);
    assert(r1.subrange(1, r1.len() - 1) =~= select_recent(h, b1));
    assert(r2.subrange(1, r2.len() - 1) =~= select_recent(h, b2));
}

/// A chat request opens with the system prompt and ends with the new user
/// prompt; between them stand the most recent prior turns of the
/// transcript, in order, within the history budget.
pub proof fn law_chat_request_shape(system: Seq<char>, prompt: Seq<char>, lines: Seq<Seq<char>>, max_tokens: nat)
    ensures
        ({
            let ms = chat_messages(system, prompt, lines, max_tokens);
            let h = history(lines);
            let kept = ms.subrange(1, ms.len() - 1);
            &&& ms.len() >= 2
            &&& ms[0] == ("system"@, system)
            &&& ms.last() == ("user"@, prompt)
            &&& total_tokens(kept) <= history_budget(system, prompt, max_tokens)
            &&& kept.len() <= h.len()
            &&& kept == h.skip(h.len() - kept.len())
        }),
{
    let h = history(lines);
    let b = history_budget(system, prompt, max_tokens) as int;
    law_history_fits_budget(h, b);
    let sel = select_recent(h, b);
    let ms = chat_messages(system, prompt, lines, max_tokens);
    assert(ms.subrange(1, ms.len() - 1) =~= sel);
}

proof fn lemma_approx_tokens_bound(s: Seq<char>)
    ensures
        approx_tokens(s) <= max_nat(s.len(), 1),
{
    lemma_words_len(s);
}

/// `approximate_tokens`: the token estimate of a text.
pub fn approximate_tokens(text: &[char]) -> (r: usize)
    ensures
        r == approx_tokens(text@),
        r <= max_nat(text@.len(), 1),
{
    let ws = split_words(text);
    proof {
        lemma_words_len(text@);
        lemma_approx_tokens_bound(text@);
    }
    let wc = ws.len();
    assert(wc == words(text@).len());
    let n = text.len();
    let quarter = n / 4 + if n % 4 != 0 {
        1
    } else {
        0
    };
    assert(quarter == (n + 3) / 4);
    let w = if wc > 1 {
        wc
    } else {
        1
    };
    let c = if quarter > 1 {
        quarter
    } else {
        1
    };
    if w >= c {
        w
    } else {
        c
    }
}

/// `approximate_message_tokens`: the token estimate of a message.
pub fn approximate_message_tokens(message: &ApiMessage) -> (r: usize)
    requires
        message.content@.len() + 4 <= usize::MAX,
    ensures
        r == message_tokens(message.content@),
{
    let cs = chars_of(message.content.as_str());
    approximate_tokens(cs.as_slice()) + 4
}

proof fn lemma_select_stop(h: Seq<(Seq<char>, Seq<char>)>, k: int, budget: int)
    requires
        0 < k <= h.len(),
        message_tokens(h[k - 1].1) > budget,
    ensures
        select_recent(h.take(k), budget) == Seq::<(Seq<char>, Seq<char>)>::empty(),
{
    assert(h.take(k).last() == h[k - 1]);
}

proof fn lemma_select_step(h: Seq<(Seq<char>, Seq<char>)>, k: int, budget: int)
    requires
        0 < k <= h.len(),
        message_tokens(h[k - 1].1) <= budget,
    ensures
        select_recent(h.take(k), budget) + h.skip(k) == select_recent(
            h.take(k - 1),
            budget - message_tokens(h[k - 1].1),
        ) + h.skip(k - 1),
{
    let t = h.take(k);
    assert(t.last() == h[k - 1]);
    assert(t.drop_last() =~= h.take(k - 1));
    assert(h.skip(k - 1) =~= seq![h[k - 1]] + h.skip(k));
    let s = select_recent(h.take(k - 1), budget - message_tokens(h[k - 1].1));
    assert(s.push(h[k - 1]) + h.skip(k) =~= s + h.skip(k - 1));
}

/// `build_chat_messages`: the request messages for `prompt` after the
/// transcript `conversation` (lines `You: ...` and `Auvro: ...`).
pub fn build_chat_messages(
    system_prompt: &str,
    prompt: &str,
    conversation: &[String],
    max_context_tokens: usize,
) -> (r: Vec<ApiMessage>)
    requires
        system_prompt@.len() + prompt@.len() + 34 <= usize::MAX,
        forall|i: int| 0 <= i < conversation@.len() ==> #[trigger] conversation@[i]@.len() + 4 <= usize::MAX,
    ensures
        messages_view(r@) == chat_messages(
            system_prompt@,
            prompt@,
            lines_view(conversation@),
            max_context_tokens as nat,
        ),
{
    let ghost lines = lines_view(conversation@);
    let you = chars_of("You:");
    let auvro = chars_of("Auvro:");
    let mut hist: Vec<ApiMessage> = Vec::new();
    let mut i: usize = 0;
    while i < conversation.len()
        invariant
            i <= conversation@.len(),
            lines == lines_view(conversation@),
            you@ == "You:"@,
            auvro@ == "Auvro:"@,
            forall|j: int| 0 <= j < conversation@.len() ==> #[trigger] conversation@[j]@.len() + 4 <= usize::MAX,
            messages_view(hist@) == history(lines.take(i as int)),
            forall|j: int| 0 <= j < hist@.len() ==> #[trigger] hist@[j].content@.len() + 4 <= usize::MAX,
        decreases conversation.len() - i,
    {
        let line = chars_of(conversation[i].as_str());
        let ghost before = hist@;
        proof {
            assert(lines.take(i + 1).drop_last() =~= lines.take(i as int));
            assert(lines.take(i + 1).last() == line@);
        }
        if starts_with_chars(line.as_slice(), you.as_slice()) {
            let rest = copy_range(line.as_slice(), you.len(), line.len());
            assert(rest@ =~= line@.skip(you@.len() as int));
            let (a, b) = trim_bounds(rest.as_slice());
            let content = copy_range(rest.as_slice(), a, b);
            hist.push(ApiMessage { role: "user".to_owned(), content: string_of(content.as_slice()) });
            assert(messages_view(hist@) =~= messages_view(before).push(("user"@, trim(line@.skip(you@.len() as int)))));
        } else if starts_with_chars(line.as_slice(), auvro.as_slice()) {
            let rest = copy_range(line.as_slice(), auvro.len(), line.len());
            assert(rest@ =~= line@.skip(auvro@.len() as int));
            let (a, b) = trim_bounds(rest.as_slice());
            if a < b {
                let content = copy_range(rest.as_slice(), a, b);
                hist.push(
                    ApiMessage { role: "assistant".to_owned(), content: string_of(content.as_slice()) },
                );
                assert(messages_view(hist@) =~= messages_view(before).push(
                    ("assistant"@, trim(line@.skip(auvro@.len() as int))),
                ));
            }
        }
        i += 1;
    }
    assert(lines.take(conversation@.len() as int) =~= lines);
    let ghost h = messages_view(hist@);
    let sys_chars = chars_of(system_prompt);
    let prompt_chars = chars_of(prompt);
    let reserve = approximate_tokens(sys_chars.as_slice()) + approximate_tokens(
        prompt_chars.as_slice(),
    ) + 32;
    let available = max_context_tokens.saturating_sub(reserve);
    assert(available == history_budget(system_prompt@, prompt@, max_context_tokens as nat));
    let mut k = hist.len();
    let mut remaining = available;
    let mut done = false;
    assert(h.take(k as int) =~= h);
    assert(h.skip(k as int) =~= Seq::<(Seq<char>, Seq<char>)>::empty());
    while k > 0 && !done
        invariant
            k <= hist@.len(),
            h == messages_view(hist@),
            forall|j: int| 0 <= j < hist@.len() ==> #[trigger] hist@[j].content@.len() + 4 <= usize::MAX,
            select_recent(h, available as int) == select_recent(h.take(k as int), remaining as int)
                + h.skip(k as int),
            done ==> select_recent(h.take(k as int), remaining as int) == Seq::<
                (Seq<char>, Seq<char>),
            >::empty(),
        decreases k + if done { 0int } else { 1int },
    {
        let cost = approximate_message_tokens(&hist[k - 1]);
        assert(h[k - 1] == message_view(hist@[k - 1]));
        if cost <= remaining {
            proof {
                lemma_select_step(h, k as int, remaining as int);
            }
            remaining = remaining - cost;
            k = k - 1;
        } else {
            proof {
                lemma_select_stop(h, k as int, remaining as int);
            }
            done = true;
        }
    }
    assert(h.take(0) =~= Seq::<(Seq<char>, Seq<char>)>::empty());
    let mut messages: Vec<ApiMessage> = Vec::new();
    messages.push(ApiMessage { role: "system".to_owned(), content: system_prompt.to_owned() });
    let mut j = k;
    while j < hist.len()
        invariant
            k <= j <= hist@.len(),
            h == messages_view(hist@),
            messages_view(messages@) == seq![("system"@, system_prompt@)] + h.subrange(
                k as int,
                j as int,
            ),
        decreases hist.len() - j,
    {
        let ghost before = messages@;
        messages.push(
            ApiMessage { role: hist[j].role.clone(), content: hist[j].content.clone() },
        );
        assert(messages_view(messages@) =~= messages_view(before).push(h[j as int]));
        assert(h.subrange(k as int, j + 1) =~= h.subrange(k as int, j as int).push(h[j as int]));
        j += 1;
        assert(messages_view(messages@) =~= seq![("system"@, system_prompt@)] + h.subrange(
            k as int,
            j as int,
        ));
    }
    messages.push(ApiMessage { role: "user".to_owned(), content: prompt.to_owned() });
    assert(h.subrange(k as int, hist@.len() as int) =~= h.skip(k as int));
    assert(messages_view(messages@) =~= chat_messages(
        system_prompt@,
        prompt@,
        lines_view(conversation@),
        max_context_tokens as nat,
    ));
    messages
}

/// The chat-completions URL of an API base: trailing slashes removed, and
/// `/chat/completions` appended unless the base already ends with it.
pub open spec fn completions_url(endpoint: Seq<char>) -> Seq<char> {
    let t = strip_trailing(endpoint, '/');
    if ends_with(t, "/chat/completions"@) {
        t
    } else {
        t + "/chat/completions"@
    }
}

/// `chat_endpoint`: the chat-completions URL for an API base URL.
pub fn chat_endpoint(endpoint: &str) -> (r: String)
    ensures
        r@ == completions_url(endpoint@),
{
    let e = chars_of(endpoint);
    let mut t = strip_trailing_chars(e.as_slice(), '/');
    let suffix = chars_of("/chat/completions");
    if !ends_with_chars(t.as_slice(), suffix.as_slice()) {
        push_all(&mut t, suffix.as_slice());
    }
    string_of(t.as_slice())
}

/// `u8::is_ascii_whitespace`: space, tab, line feed, form feed, carriage return.
pub open spec fn is_ascii_space(b: u8) -> bool {
    b == 0x20u8 || b == 0x09u8 || b == 0x0au8 || b == 0x0cu8 || b == 0x0du8
}

/// Number of ASCII whitespace bytes at the start of `s`.
pub open spec fn leading_ascii_spaces(s: Seq<u8>) -> nat
    decreases s.len(),
{
    if s.len() > 0 && is_ascii_space(s[0]) {
        1 + leading_ascii_spaces(s.drop_first())
    } else {
        0
    }
}

proof fn lemma_leading_ascii_spaces(s: Seq<u8>, k: int)
    requires
        0 <= k <= s.len(),
        forall|j: int| 0 <= j < k ==> is_ascii_space(#[trigger] s[j]),
        k == s.len() || !is_ascii_space(s[k]),
    ensures
        leading_ascii_spaces(s) == k,
    decreases k,
{
    if k > 0 {
        let t = s.drop_first();
        assert forall|j: int| 0 <= j < k - 1 implies is_ascii_space(#[trigger] t[j]) by {
            assert(t[j] == s[j + 1]);
        }
        if k < s.len() {
            assert(t[k - 1] == s[k]);
        }
        lemma_leading_ascii_spaces(t, k - 1);
    }
}

/// `<[u8]>::trim_ascii_start`.
pub open spec fn trim_ascii_start_spec(s: Seq<u8>) -> Seq<u8> {
    s.skip(leading_ascii_spaces(s) as int)
}

/// `trim_ascii_start`: the bytes after the leading ASCII whitespace.
pub fn trim_ascii_start(bytes: &[u8]) -> (r: &[u8])
    ensures
        r@ == trim_ascii_start_spec(bytes@),
{
    let mut k: usize = 0;
    while k < bytes.len() && (bytes[k] == 0x20u8 || bytes[k] == 0x09u8 || bytes[k] == 0x0au8
        || bytes[k] == 0x0cu8 || bytes[k] == 0x0du8)
        invariant
            k <= bytes@.len(),
            forall|j: int| 0 <= j < k ==> is_ascii_space(#[trigger] bytes@[j]),
        decreases bytes.len() - k,
    {
        k += 1;
    }
    proof {
        lemma_leading_ascii_spaces(bytes@, k as int);
    }
    vstd::slice::slice_subrange(bytes, k, bytes.len())
}

/// The bytes of `data:`.
pub open spec fn data_prefix() -> Seq<u8> {
    seq![0x64u8, 0x61u8, 0x74u8, 0x61u8, 0x3au8]
}

/// The bytes of `[DONE]`.
pub open spec fn done_marker() -> Seq<u8> {
    seq![0x5bu8, 0x44u8, 0x4fu8, 0x4eu8, 0x45u8, 0x5du8]
}

/// The payload of a server-sent-event line: comment lines (starting with
/// `:`) and lines other than `data:` have none; the payload is what follows
/// `data:` without leading ASCII whitespace, and an empty one counts as none.
pub open spec fn sse_payload(line: Seq<u8>) -> Option<Seq<u8>> {
    if line.len() > 0 && line[0] == 0x3au8 {
        None
    } else if line.len() >= 5 && line.take(5) == data_prefix() {
        let p = trim_ascii_start_spec(line.skip(5));
        if p.len() == 0 {
            None
        } else {
            Some(p)
        }
    } else {
        None
    }
}

/// `sse_data_payload`: the data payload of one event-stream line.
pub fn sse_data_payload(line: &[u8]) -> (r: Option<&[u8]>)
    ensures
        match r {
            Some(p) => sse_payload(line@) == Some(p@),
            None => sse_payload(line@) is None,
        },
{
    if line.len() > 0 && line[0] == 0x3au8 {
        return None;
    }
    if line.len() >= 5 && line[0] == 0x64u8 && line[1] == 0x61u8 && line[2] == 0x74u8 && line[3]
        == 0x61u8 && line[4] == 0x3au8 {
        assert(line@.take(5) =~= data_prefix());
        let rest = vstd::slice::slice_subrange(line, 5, line.len());
        assert(rest@ =~= line@.skip(5));
        let payload = trim_ascii_start(rest);
        if payload.len() == 0 {
            None
        } else {
            Some(payload)
        }
    } else {
        proof {
            if line@.len() >= 5 && line@.take(5) == data_prefix() {
                assert(line@.take(5)[0] == line@[0]);
                assert(line@.take(5)[1] == line@[1]);
                assert(line@.take(5)[2] == line@[2]);
                assert(line@.take(5)[3] == line@[3]);
                assert(line@.take(5)[4] == line@[4]);
            }
        }
        None
    }
}

/// A line of a streamed reply without its line ending (`\n`, then `\r`).
pub open spec fn strip_line_end(raw: Seq<u8>) -> Seq<u8> {
    let a = if raw.len() > 0 && raw.last() == 0x0au8 {
        raw.drop_last()
    } else {
        raw
    };
    if a.len() > 0 && a.last() == 0x0du8 {
        a.drop_last()
    } else {
        a
    }
}

/// What one line of a streamed reply asks of the reader.
pub enum StreamStep {
    /// Nothing to add; read the next line.
    Continue,
    /// The stream is complete.
    Stop,
    /// A JSON chunk whose text is to be appended.
    Parse(Seq<u8>),
}

/// The reader's step for a raw line: blank lines, lines without a data
/// payload and payloads that are not JSON (plain-text keep-alives) are
/// skipped, `[DONE]` ends the stream, and a payload starting with `{` or
/// `[` is a chunk to parse.
pub open spec fn stream_step(raw: Seq<u8>) -> StreamStep {
    let line = strip_line_end(raw);
    if line.len() == 0 {
        StreamStep::Continue
    } else {
        match sse_payload(line) {
            None => StreamStep::Continue,
            Some(p) => if p == done_marker() {
                StreamStep::Stop
            } else if p[0] == 0x7bu8 || p[0] == 0x5bu8 {
                StreamStep::Parse(p)
            } else {
                StreamStep::Continue
            },
        }
    }
}

/// The reader's step for one line of a streamed reply.
pub enum LineAction {
    Continue,
    Stop,
    Parse(Vec<u8>),
}

impl View for LineAction {
    type V = StreamStep;

    open spec fn view(&self) -> StreamStep {
        match self {
            LineAction::Continue => StreamStep::Continue,
            LineAction::Stop => StreamStep::Stop,
            LineAction::Parse(p) => StreamStep::Parse(p@),
        }
    }
}

fn copy_bytes(s: &[u8]) -> (r: Vec<u8>)
    ensures
        r@ == s@,
{
    let mut r: Vec<u8> = Vec::new();
    let mut i: usize = 0;
    while i < s.len()
        invariant
            i <= s@.len(),
            r@ == s@.take(i as int),
        decreases s.len() - i,
    {
        r.push(s[i]);
        i += 1;
        assert(r@ =~= s@.take(i as int));
    }
    assert(s@.take(s@.len() as int) =~= s@);
    r
}

/// `stream_line_action`: the step that one raw line of a streamed reply
/// (as read, with its line ending) calls for.
pub fn stream_line_action(raw: &[u8]) -> (r: LineAction)
    ensures
        r@ == stream_step(raw@),
{
    let mut end = raw.len();
    if end > 0 && raw[end - 1] == 0x0au8 {
        end -= 1;
    }
    if end > 0 && raw[end - 1] == 0x0du8 {
        end -= 1;
    }
    let line = vstd::slice::slice_subrange(raw, 0, end);
    proof {
        let a = if raw@.len() > 0 && raw@.last() == 0x0au8 {
            raw@.drop_last()
        } else {
            raw@
        };
        assert(line@ =~= strip_line_end(raw@));
    }
    if line.len() == 0 {
        return LineAction::Continue;
    }
    match sse_data_payload(line) {
        None => LineAction::Continue,
        Some(p) => {
            if p.len() == 6 && p[0] == 0x5bu8 && p[1] == 0x44u8 && p[2] == 0x4fu8 && p[3] == 0x4eu8
                && p[4] == 0x45u8 && p[5] == 0x5du8 {
                assert(p@ =~= done_marker());
                LineAction::Stop
            } else {
                proof {
                    if p@ == done_marker() {
                        assert(p@[0] == 0x5bu8);
                        assert(p@[5] == 0x5du8);
                    }
                }
                if p[0] == 0x7bu8 || p[0] == 0x5bu8 {
                    LineAction::Parse(copy_bytes(p))
                } else {
                    LineAction::Continue
                }
            }
        },
    }
}

/// The text that a streamed chunk carries: `choices[0].delta.content`,
/// else `choices[0].message.content`, else a top-level `text`, else nothing.
pub open spec fn chunk_text_spec(v: JsonValue) -> Seq<char> {
    match first_choice_field_str(v, "delta"@, "content"@) {
        Some(s) => s,
        None => match first_choice_field_str(v, "message"@, "content"@) {
            Some(s) => s,
            None => match get_spec(v, "text"@) {
                Some(t) => match str_spec(t) {
                    Some(s) => s,
                    None => Seq::empty(),
                },
                None => Seq::empty(),
            },
        },
    }
}

/// The text of a parsed streaming chunk.
pub fn chunk_text(v: &JsonValue) -> (r: String)
    ensures
        r@ == chunk_text_spec(*v),
{
    let delta = "delta".to_owned();
    let message = "message".to_owned();
    let content = "content".to_owned();
    if let Some(s) = first_choice_field(v, &delta, &content) {
        return s;
    }
    if let Some(s) = first_choice_field(v, &message, &content) {
        return s;
    }
    let text = "text".to_owned();
    match json_get(v, &text) {
        Some(t) => match json_str(t) {
            Some(s) => s.clone(),
            None => String::new(),
        },
        None => String::new(),
    }
}

/// What a payload of a streamed reply gives: nothing when it is empty or
/// does not start with `{` or `[` (a plain-text keep-alive); the parse error
/// when it is not JSON; otherwise the chunk's text ([`chunk_text_spec`]).
pub open spec fn chunk_spec(payload: Seq<u8>) -> Result<Seq<char>, Seq<char>> {
    if payload.len() == 0 || (payload[0] != 0x7bu8 && payload[0] != 0x5bu8) {
        Ok(Seq::empty())
    } else {
        match json_parse_bytes(payload) {
            Err(e) => Err(chunk_parse_error(e)),
            Ok(v) => Ok(chunk_text_spec(v)),
        }
    }
}

/// The text that a payload of a streamed reply carries.
pub fn extract_chunk_text(payload: &[u8]) -> (r: Result<String, String>)
    ensures
        match r {
            Ok(t) => chunk_spec(payload@) == Ok::<Seq<char>, Seq<char>>(t@),
            Err(e) => chunk_spec(payload@) == Err::<Seq<char>, Seq<char>>(e@),
        },
{
    if payload.len() == 0 || (payload[0] != 0x7bu8 && payload[0] != 0x5bu8) {
        return Ok(String::new());
    }
    match parse_json_bytes(payload) {
        Err(e) => {
            let mut m = "Could not parse streaming chunk: ".to_owned();
            m.push_str(e.as_str());
            Err(m)
        },
        Ok(v) => Ok(chunk_text(&v)),
    }
}

/// One step of reading a streamed reply, for one raw line as read: the text
/// of a chunk is appended to `output` and `Ok(false)` asks for the next
/// line; `Ok(true)` says the stream is complete; an error ends the read
/// with `output` unchanged.
pub fn read_stream_line(output: &mut String, raw: &[u8]) -> (r: Result<bool, String>)
    ensures
        match stream_step(raw@) {
            StreamStep::Continue => r matches Ok(done) && !done && final(output)@ == old(output)@,
            StreamStep::Stop => r matches Ok(done) && done && final(output)@ == old(output)@,
            StreamStep::Parse(p) => match chunk_spec(p) {
                Err(e) => r matches Err(x) && x@ == e && final(output)@ == old(output)@,
                Ok(t) => r matches Ok(done) && !done && final(output)@ == old(output)@ + t,
            },
        },
{
    match stream_line_action(raw) {
        LineAction::Continue => Ok(false),
        LineAction::Stop => Ok(true),
        LineAction::Parse(p) => {
            let t = extract_chunk_text(p.as_slice())?;
            output.push_str(t.as_str());
            Ok(false)
        },
    }
}

/// Whether an error text looks transient (worth retrying): its ASCII
/// lower-case form mentions a timeout, a temporary failure, a reset or
/// refused connection, status 429/500/502/503/504, or a failed request.
pub open spec fn is_transient(error: Seq<char>) -> bool {
    let l = ascii_lower(error);
    ||| contains_seq(l, "timeout"@)
    ||| contains_seq(l, "temporarily"@)
    ||| contains_seq(l, "connection reset"@)
    ||| contains_seq(l, "connection refused"@)
    ||| contains_seq(l, "429"@)
    ||| contains_seq(l, "500"@)
    ||| contains_seq(l, "502"@)
    ||| contains_seq(l, "503"@)
    ||| contains_seq(l, "504"@)
    ||| contains_seq(l, "request failed"@)
}

/// The markers of a transient failure, in lower case: a timeout, a
/// temporary failure, a reset or refused connection, the retried HTTP
/// statuses (429 rate limited, 500, 502, 503, 504), a failed request.
pub open spec fn transient_markers() -> Seq<Seq<char>> {
    seq![
        "timeout"@, "temporarily"@, "connection reset"@, "connection refused"@, "429"@, "500"@, "502"@, "503"@,
        "504"@, "request failed"@,
    ]
}

/// Whether `marker` occurs in `error` at `i`, ignoring ASCII case.
pub open spec fn mentions_at(error: Seq<char>, marker: Seq<char>, i: int) -> bool {
    0 <= i && i + marker.len() <= error.len() && ascii_lower(error.subrange(i, i + marker.len())) == marker
}

/// Law (what is retried): an error is transient exactly when one of the
/// [`transient_markers`] occurs somewhere in its text, in any ASCII case;
/// so a rate-limited (429) or overloaded (5xx) request is retried while
/// attempts are left, and an error that mentions none of them is not.
pub proof fn law_transient_iff_marker(error: Seq<char>)
    ensures
        is_transient(error) <==> exists|k: int, i: int|
            0 <= k < transient_markers().len() && #[trigger] mentions_at(error, transient_markers()[k], i),
{
    let l = ascii_lower(error);
    let ms = transient_markers();
    assert forall|k: int, i: int| 0 <= k < ms.len() && #[trigger] mentions_at(error, ms[k], i) implies is_transient(error) by {
        let m = ms[k];
        assert(l.subrange(i, i + m.len()) =~= ascii_lower(error.subrange(i, i + m.len())));
        assert(contains_seq(l, m));
        if k == 0 {} else if k == 1 {} else if k == 2 {} else if k == 3 {} else if k == 4 {}
        else if k == 5 {} else if k == 6 {} else if k == 7 {} else if k == 8 {} else {}
    }
    if is_transient(error) {
        let k: int = if contains_seq(l, "timeout"@) { 0 } else if contains_seq(l, "temporarily"@) { 1 }
            else if contains_seq(l, "connection reset"@) { 2 } else if contains_seq(l, "connection refused"@) { 3 }
            else if contains_seq(l, "429"@) { 4 } else if contains_seq(l, "500"@) { 5 }
            else if contains_seq(l, "502"@) { 6 } else if contains_seq(l, "503"@) { 7 }
            else if contains_seq(l, "504"@) { 8 } else { 9 };
        let m = ms[k];
        assert(contains_seq(l, m));
        let i = choose|i: int| 0 <= i && i + m.len() <= l.len() && #[trigger] l.subrange(i, i + m.len()) == m;
        assert(l.subrange(i, i + m.len()) =~= ascii_lower(error.subrange(i, i + m.len())));
        assert(mentions_at(error, ms[k], i));
    }
}

fn mentions(l: &[char], needle: &str) -> (r: bool)
    ensures
        r == contains_seq(l@, needle@),
{
    let n = chars_of(needle);
    contains_chars(l, n.as_slice())
}

/// `is_transient_error`.
pub fn is_transient_error(error: &str) -> (r: bool)
    ensures
        r == is_transient(error@),
{
    let e = chars_of(error);
    let l = ascii_lower_chars(e.as_slice());
    let l = l.as_slice();
    mentions(l, "timeout") || mentions(l, "temporarily") || mentions(l, "connection reset")
        || mentions(l, "connection refused") || mentions(l, "429") || mentions(l, "500")
        || mentions(l, "502") || mentions(l, "503") || mentions(l, "504") || mentions(
        l,
        "request failed",
    )
}

/// `2^n` over the naturals.
pub open spec fn pow2_nat(n: nat) -> nat
    decreases n,
{
    if n == 0 {
        1
    } else {
        2 * pow2_nat((n - 1) as nat)
    }
}

pub open spec fn sat_u64(x: nat) -> nat {
    if x > u64::MAX {
        u64::MAX as nat
    } else {
        x
    }
}

/// The wait before retry number `attempt + 1`:
/// `250.saturating_mul(2.saturating_pow(attempt))` milliseconds.
pub open spec fn backoff_ms(attempt: nat) -> nat {
    sat_u64((DEFAULT_BACKOFF_BASE_MS as nat) * sat_u64(pow2_nat(attempt)))
}

/// The back-off starts at the base delay and doubles with every attempt,
/// as long as the doubled delay fits in `u64`.
pub proof fn law_backoff_doubles(attempt: nat)
    requires
        (DEFAULT_BACKOFF_BASE_MS as nat) * pow2_nat(attempt + 1) <= u64::MAX,
    ensures
        backoff_ms(0) == DEFAULT_BACKOFF_BASE_MS,
        backoff_ms(attempt + 1) == 2 * backoff_ms(attempt),
{
    let p = pow2_nat(attempt);
    assert(pow2_nat(attempt + 1) == 2 * p);
    assert(p >= 1) by {
        lemma_pow2_positive(attempt);
    }
    assert((DEFAULT_BACKOFF_BASE_MS as nat) * (2 * p) == 2 * ((DEFAULT_BACKOFF_BASE_MS as nat) * p)) by (nonlinear_arith);
    assert(p <= (DEFAULT_BACKOFF_BASE_MS as nat) * p) by (nonlinear_arith)
        requires
            p >= 1,
    ;
    assert(2 * p <= (DEFAULT_BACKOFF_BASE_MS as nat) * (2 * p)) by (nonlinear_arith)
        requires
            p >= 1,
    ;
}

proof fn lemma_pow2_positive(n: nat)
    ensures
        pow2_nat(n) >= 1,
    decreases n,
{
    if n > 0 {
        lemma_pow2_positive((n - 1) as nat);
    }
}

/// `backoff_delay_ms`: the back-off before the next attempt.
pub fn backoff_delay_ms(attempt: u32) -> (r: u64)
    ensures
        r == backoff_ms(attempt as nat),
{
    let mut p: u64 = 1;
    let mut i: u32 = 0;
    while i < attempt
        invariant
            i <= attempt,
            p == sat_u64(pow2_nat(i as nat)),
        decreases attempt - i,
    {
        p = match p.checked_mul(2) {
            Some(x) => x,
            None => u64::MAX,
        };
        i += 1;
        assert(pow2_nat(i as nat) == 2 * pow2_nat((i - 1) as nat));
    }
    match DEFAULT_BACKOFF_BASE_MS.checked_mul(p) {
        Some(x) => x,
        None => u64::MAX,
    }
}

/// What to do after a failed attempt.
pub enum RetryStep {
    /// Wait this many milliseconds, then try again.
    Retry { wait_ms: u64 },
    /// Stop and report the error.
    GiveUp,
    /// Stop: the request was cancelled ([`cancel_check`]'s error).
    Cancelled,
}

/// The retry decision after attempt number `attempt` (counted from zero)
/// failed with `error`: stop when the request was cancelled; give up once
/// the retries are used up or when the error is not transient; otherwise
/// back off.
pub fn retry_step(cancelled: bool, attempt: u32, max_retries: u32, error: &str) -> (r: RetryStep)
    ensures
        cancelled ==> r is Cancelled,
        (!cancelled && (attempt >= max_retries || !is_transient(error@))) ==> r is GiveUp,
        (!cancelled && !(attempt >= max_retries || !is_transient(error@))) ==> r == (RetryStep::Retry {
            wait_ms: backoff_ms(attempt as nat) as u64,
        }),
{
    if cancelled {
        RetryStep::Cancelled
    } else if attempt >= max_retries || !is_transient_error(error) {
        RetryStep::GiveUp
    } else {
        RetryStep::Retry { wait_ms: backoff_delay_ms(attempt) }
    }
}

/// The check made before each attempt and while reading or waiting: a
/// cancelled request stops with `Request cancelled`, any other goes on.
pub fn cancel_check(cancelled: bool) -> (r: Result<(), String>)
    ensures
        cancelled <==> r is Err,
        r matches Err(e) ==> e@ == crate::provider::cancelled_message(),
{
    if cancelled {
        Err(crate::provider::cancelled_error())
    } else {
        Ok(())
    }
}

} // verus!
