//! Sending a prompt, showing the reply a few characters at a time, and
//! stopping it.
use vstd::prelude::*;
use crate::backend::{opt_view, Message, MessageView};
use crate::chat_state::{effects_view, messages_view, strings_view, AppState, AppView, Effect, EffectView};
use crate::conversation_list::{find_conversation, first_with_id};
use crate::requests::{concat_effects, none, req_append_message, req_bump};
use crate::session::{normalize_ai_text, normalize_spec, same_str};
use crate::text::{
    ascii_lower, ascii_lower_chars, chars_of, contains_chars, contains_seq, is_blank, is_blank_str,
    push_all, string_of, trim, trim_str,
};

verus! {

/// How a transcript line shows a message: `You: ` before the user's own,
/// `Auvro: ` before every other.
pub open spec fn line_of(m: MessageView) -> Seq<char> {
    if m.role == "user"@ {
        "You: "@ + m.content
    } else {
        "Auvro: "@ + m.content
    }
}

pub open spec fn lines_of(ms: Seq<MessageView>) -> Seq<Seq<char>> {
    Seq::new(ms.len(), |i: int| line_of(ms[i]))
}

/// `as_conversation_lines`: the transcript sent to the provider.
pub fn as_conversation_lines(messages: &[Message]) -> (r: Vec<String>)
    ensures
        strings_view(r@) == lines_of(messages_view(messages@)),
{
    let mut out: Vec<String> = Vec::new();
    let mut i: usize = 0;
    while i < messages.len()
        invariant
            i <= messages@.len(),
            out@.len() == i,
            forall|j: int| 0 <= j < i ==> #[trigger] out@[j]@ == line_of(messages@[j]@),
        decreases messages.len() - i,
    {
        let m = &messages[i];
        let mut s = String::new();
        if same_str(m.role.as_str(), "user") {
            s.push_str("You: ");
        } else {
            s.push_str("Auvro: ");
        }
        s.push_str(m.content.as_str());
        proof {
            reveal_strlit("user");
        }
        out.push(s);
        i += 1;
    }
    assert(strings_view(out@) =~= lines_of(messages_view(messages@)));
    out
}

/// What a reply poll of the provider thread found.
pub enum ReplyPoll {
    /// The whole reply.
    Ready(String),
    /// The provider failed with this error.
    Failed(String),
    /// Nothing yet.
    Empty,
    /// The thread went away without an answer.
    Disconnected,
}

/// Ids and the time for the two messages that a prompt adds: the user's and
/// the (first empty) assistant's. `now_us` is microseconds since the Unix
/// epoch.
pub struct Fresh {
    pub user_message_id: String,
    pub assistant_message_id: String,
    pub now_us: i64,
}

/// A lower-case hexadecimal digit.
pub open spec fn is_lower_hex(c: char) -> bool {
    ('0' <= c && c <= '9') || ('a' <= c && c <= 'f')
}

/// The character at position `i` of a hyphenated UUID: a hyphen at 8, 13,
/// 18 and 23, a lower-case hexadecimal digit elsewhere.
pub open spec fn uuid_char_ok(i: int, c: char) -> bool {
    if i == 8 || i == 13 || i == 18 || i == 23 {
        c == '-'
    } else {
        is_lower_hex(c)
    }
}

/// The text of a random UUID (version 4, RFC 4122 variant) in its
/// hyphenated lower-case form: 36 characters, the version digit `4` at
/// position 14 and one of `8`, `9`, `a`, `b` at position 19.
pub open spec fn is_v4_uuid_text(s: Seq<char>) -> bool {
    &&& s.len() == 36
    &&& forall|i: int| 0 <= i < 36 ==> uuid_char_ok(i, #[trigger] s[i])
    &&& s[14] == '4'
    &&& (s[19] == '8' || s[19] == '9' || s[19] == 'a' || s[19] == 'b')
}

/// `uuid::Uuid::new_v4()`, shown with `to_string`. The id is random; what
/// is claimed is its form: `new_v4` sets the version to 4 and the variant
/// to RFC 4122, and `Display` writes the hyphenated lower-case form. Which
/// digits come out is not claimed.
#[verifier::external_body]
fn new_message_id() -> (r: String)
    ensures
        is_v4_uuid_text(r@),
{
    uuid::Uuid::new_v4().to_string()
}

/// `chrono::Utc::now().timestamp_micros()`. It reads the clock, so nothing
/// is claimed of it.
#[verifier::external_body]
fn utc_now_micros() -> i64 {
    chrono::Utc::now().timestamp_micros()
}

/// Fresh ids and the current time for the messages of one prompt: two
/// random UUIDs in their hyphenated form. The time is the clock's, of which
/// nothing is claimed.
pub fn fresh_message_ids() -> (r: Fresh)
    ensures
        is_v4_uuid_text(r.user_message_id@),
        is_v4_uuid_text(r.assistant_message_id@),
{
    let user_message_id = new_message_id();
    let assistant_message_id = new_message_id();
    let now_us = utc_now_micros();
    Fresh { user_message_id, assistant_message_id, now_us }
}

/// The messages with the one at the streaming line `line`, if there is
/// one, showing `content`.
#[verifier::opaque]
pub open spec fn with_line(ms: Seq<MessageView>, line: Option<nat>, content: Seq<char>) -> Seq<MessageView> {
    match line {
        Some(i) => if i < ms.len() {
            ms.update(i as int, MessageView { content: content, ..ms[i as int] })
        } else {
            ms
        },
        None => ms,
    }
}

/// The stream fields emptied: no reply in flight, nothing shown.
pub open spec fn stream_cleared(v: AppView) -> AppView {
    AppView {
        is_loading: false,
        reply_in_flight: false,
        cancel_armed: false,
        pending_response: None,
        streaming_buffer: Seq::empty(),
        streamed_chars: 0,
        stream_conversation_id: None,
        stream_line_index: None,
        ..v
    }
}

/// The messages without the assistant placeholder at the streaming line,
/// if it is still blank.
pub open spec fn drop_blank_placeholder(v: AppView) -> Seq<MessageView> {
    match v.stream_line_index {
        Some(i) => if i < v.messages.len() && v.messages[i as int].role == "assistant"@ && is_blank(
            v.messages[i as int].content,
        ) {
            v.messages.remove(i as int)
        } else {
            v.messages
        },
        None => v.messages,
    }
}

/// The user's half of a prompt: the message is shown and stored, and the
/// conversation is marked for a title when this is its first message and it
/// is still called `New Chat`.
pub open spec fn user_turn(
    v: AppView,
    stored: Option<Seq<char>>,
    id: Seq<char>,
    prompt: Seq<char>,
    user_message_id: Seq<char>,
    now_us: i64,
) -> (AppView, Seq<EffectView>) {
    let um = MessageView {
        id: user_message_id,
        conversation_id: id,
        role: "user"@,
        content: prompt,
        created_at_us: now_us,
    };
    let ms1 = v.messages.push(um);
    let wants_title = ms1.len() == 1 && match first_with_id(v.conversations, id) {
        Some(k) => trim(v.conversations[k].title) == "New Chat"@,
        None => false,
    };
    let v1 = AppView {
        messages: ms1,
        pending_title: if wants_title {
            Some((id, prompt))
        } else {
            v.pending_title
        },
        ..v
    };
    (v1, req_append_message(v1, stored, id, "user"@, prompt) + req_bump(v1, stored, id))
}

/// The assistant's half: an empty reply line, and the provider started on
/// the transcript.
pub open spec fn reply_turn(
    v1: AppView,
    id: Seq<char>,
    prompt: Seq<char>,
    assistant_message_id: Seq<char>,
    now_us: i64,
    now_ms: u64,
) -> (AppView, Seq<EffectView>) {
    let am = MessageView {
        id: assistant_message_id,
        conversation_id: id,
        role: "assistant"@,
        content: Seq::empty(),
        created_at_us: now_us,
    };
    let ms2 = v1.messages.push(am);
    let v2 = AppView {
        messages: ms2,
        reply_in_flight: true,
        cancel_armed: true,
        pending_response: None,
        streaming_buffer: Seq::empty(),
        streamed_chars: 0,
        stream_conversation_id: Some(id),
        stream_line_index: Some((ms2.len() - 1) as nat),
        is_loading: true,
        last_stream_tick_ms: now_ms,
        ..v1
    };
    (v2, seq![EffectView::StartReply { prompt: prompt, conversation: lines_of(ms2) }])
}

/// `send_prompt_to_conversation`: the user's turn, then the assistant's.
/// Nothing happens while a reply is loading.
pub open spec fn send_prompt_spec(
    v: AppView,
    stored: Option<Seq<char>>,
    id: Seq<char>,
    prompt: Seq<char>,
    user_message_id: Seq<char>,
    assistant_message_id: Seq<char>,
    now_us: i64,
    now_ms: u64,
) -> (AppView, Seq<EffectView>) {
    if v.is_loading {
        (v, none())
    } else {
        let (v1, e1) = user_turn(v, stored, id, prompt, user_message_id, now_us);
        let (v2, e2) = reply_turn(v1, id, prompt, assistant_message_id, now_us, now_ms);
        (v2, e1 + e2)
    }
}

/// `stop_streaming`: cancels the reply, keeps what was shown of it (trimmed)
/// and stores that, or drops the empty reply line.
pub open spec fn stop_spec(v: AppView, stored: Option<Seq<char>>, now_ms: u64) -> (AppView, Seq<EffectView>) {
    let e0 = if v.cancel_armed {
        seq![EffectView::CancelReply]
    } else {
        none()
    };
    let partial = trim(v.streaming_buffer);
    let ms = if partial.len() == 0 {
        drop_blank_placeholder(v)
    } else {
        with_line(v.messages, v.stream_line_index, partial)
    };
    let v1 = AppView { messages: ms, cancel_armed: false, ..v };
    let e1 = if partial.len() > 0 {
        match v.stream_conversation_id {
            Some(c) => req_append_message(v1, stored, c, "assistant"@, partial) + req_bump(v1, stored, c),
            None => none(),
        }
    } else {
        none()
    };
    (AppView { last_stream_tick_ms: now_ms, ..stream_cleared(v1) }, e0 + e1)
}

/// The state after the provider failed with `e`: the reply line goes if it
/// is still empty, and the error shows unless the reply was cancelled.
pub open spec fn reply_failed_spec(v: AppView, e: Seq<char>) -> AppView {
    AppView {
        messages: drop_blank_placeholder(v),
        error_message: if contains_seq(ascii_lower(e), "cancelled"@) {
            v.error_message
        } else {
            Some("Provider error: "@ + e)
        },
        ..stream_cleared(v)
    }
}

/// The state after the provider thread went away.
pub open spec fn reply_lost_spec(v: AppView) -> AppView {
    AppView { error_message: Some("Provider task disconnected unexpectedly."@), ..stream_cleared(v) }
}

/// Milliseconds between two frames of the streamed reply.
pub const STREAM_TICK_MS: u64 = 24;

/// Characters added to the shown reply per frame.
pub const STREAM_CHUNK_CHARS: usize = 3;

pub open spec fn min_nat(a: nat, b: nat) -> nat {
    if a <= b {
        a
    } else {
        b
    }
}

/// The next piece of the reply `r` after `done` characters: up to three.
pub open spec fn next_chunk(r: Seq<char>, done: nat) -> Seq<char> {
    if done >= r.len() {
        Seq::empty()
    } else {
        r.subrange(done as int, min_nat(done + 3, r.len()) as int)
    }
}

/// The next piece of the reply `r` shown: the count, the buffer and the
/// reply line grow by it.
pub open spec fn show_chunk(v: AppView, r: Seq<char>) -> AppView {
    let chunk = next_chunk(r, v.streamed_chars);
    let buf = v.streaming_buffer + chunk;
    AppView {
        streamed_chars: min_nat(v.streamed_chars + chunk.len(), r.len()),
        streaming_buffer: buf,
        messages: with_line(v.messages, v.stream_line_index, buf),
        ..v
    }
}

/// Once the whole reply `r` is shown: the stream ends and the reply line is
/// stored.
pub open spec fn settle_spec(v: AppView, r: Seq<char>, stored: Option<Seq<char>>) -> (AppView, Seq<EffectView>) {
    if v.streamed_chars >= r.len() {
        let v3 = AppView {
            is_loading: false,
            pending_response: None,
            reply_in_flight: false,
            cancel_armed: false,
            stream_conversation_id: None,
            stream_line_index: None,
            ..v
        };
        let effs = match (v.stream_conversation_id, v.stream_line_index) {
            (Some(c), Some(i)) => if i < v.messages.len() {
                req_append_message(v3, stored, c, "assistant"@, v.messages[i as int].content) + req_bump(
                    v3,
                    stored,
                    c,
                )
            } else {
                none()
            },
            _ => none(),
        };
        (v3, effs)
    } else {
        (v, none())
    }
}

/// One frame of the streamed reply: after at least 24 ms, three more
/// characters of the reply are shown; when all are, the reply is stored.
pub open spec fn advance_spec(v: AppView, stored: Option<Seq<char>>, now_ms: u64) -> (AppView, Seq<EffectView>) {
    let elapsed = if now_ms >= v.last_stream_tick_ms {
        now_ms - v.last_stream_tick_ms
    } else {
        0
    };
    if elapsed < 24 {
        (v, none())
    } else {
        let v1 = AppView { last_stream_tick_ms: now_ms, ..v };
        match v1.pending_response {
            None => (AppView { is_loading: false, ..v1 }, none()),
            Some(r) => settle_spec(show_chunk(v1, r), r, stored),
        }
    }
}

/// `tick_streaming`, one frame: first the poll of the provider thread (made
/// by the caller only while no reply is held and one is in flight), then
/// the next piece of the reply.
pub open spec fn tick_spec(v: AppView, poll: Option<ReplyPoll>, stored: Option<Seq<char>>, now_ms: u64) -> (
    AppView,
    Seq<EffectView>,
) {
    if !v.is_loading {
        (v, none())
    } else if v.pending_response is None && v.reply_in_flight {
        match poll {
            Some(ReplyPoll::Ready(s)) => advance_spec(
                AppView {
                    pending_response: Some(normalize_spec(s@)),
                    reply_in_flight: false,
                    cancel_armed: false,
                    last_stream_tick_ms: now_ms,
                    ..v
                },
                stored,
                now_ms,
            ),
            Some(ReplyPoll::Failed(e)) => (reply_failed_spec(v, e@), none()),
            Some(ReplyPoll::Disconnected) => (reply_lost_spec(v), none()),
            _ => (v, none()),
        }
    } else {
        advance_spec(v, stored, now_ms)
    }
}

/// The next piece of the reply after `done` characters (see [`next_chunk`]).
pub fn chunk_of(response: &Vec<char>, done: usize) -> (r: Vec<char>)
    ensures
        r@ == next_chunk(response@, done as nat),
        done < response@.len() ==> done + r@.len() <= response@.len(),
        done >= response@.len() ==> r@.len() == 0,
{
    let len = response.len();
    let mut chunk: Vec<char> = Vec::new();
    if done < len {
        let end = if len - done < STREAM_CHUNK_CHARS {
            len
        } else {
            done + STREAM_CHUNK_CHARS
        };
        let mut k: usize = done;
        while k < end
            invariant
                done <= k <= end <= len,
                len == response@.len(),
                chunk@ =~= response@.subrange(done as int, k as int),
            decreases end - k,
        {
            chunk.push(response[k]);
            k += 1;
        }
    }
    assert(chunk@ =~= next_chunk(response@, done as nat));
    chunk
}

impl AppState {
    fn clear_stream(&mut self)
        ensures
            final(self)@ == stream_cleared(old(self)@),
    {
        self.is_loading = false;
        self.reply_in_flight = false;
        self.cancel_armed = false;
        self.pending_response = None;
        self.streaming_buffer = String::new();
        self.streamed_chars = 0;
        self.stream_conversation_id = None;
        self.stream_line_index = None;
    }

    fn drop_blank_placeholder(&mut self)
        ensures
            final(self)@ == (AppView { messages: drop_blank_placeholder(old(self)@), ..old(self)@ }),
    {
        if let Some(i) = self.stream_line_index {
            if i < self.messages.len() {
                let is_placeholder = same_str(self.messages[i].role.as_str(), "assistant") && is_blank_str(
                    self.messages[i].content.as_str(),
                );
                if is_placeholder {
                    let ghost before = self.messages@;
                    self.messages.remove(i);
                    assert(messages_view(self.messages@) =~= messages_view(before).remove(i as int));
                }
            }
        }
    }

    fn reply_failed(&mut self, err: &str)
        ensures
            final(self)@ == reply_failed_spec(old(self)@, err@),
    {
        self.drop_blank_placeholder();
        self.clear_stream();
        let lowered = ascii_lower_chars(chars_of(err).as_slice());
        let needle: Vec<char> = vec!['c', 'a', 'n', 'c', 'e', 'l', 'l', 'e', 'd'];
        proof {
            reveal_strlit("cancelled");
            assert(needle@ =~= "cancelled"@);
        }
        if !contains_chars(lowered.as_slice(), needle.as_slice()) {
            let mut m = String::new();
            m.push_str("Provider error: ");
            m.push_str(err);
            self.error_message = Some(m);
        }
    }

    fn reply_lost(&mut self)
        ensures
            final(self)@ == reply_lost_spec(old(self)@),
    {
        self.clear_stream();
        self.error_message = Some("Provider task disconnected unexpectedly.".to_owned());
    }

    fn set_line_content(&mut self, i: usize, content: String)
        requires
            i < old(self).messages@.len(),
        ensures
            final(self)@ == (AppView {
                messages: old(self)@.messages.update(
                    i as int,
                    MessageView { content: content@, ..old(self)@.messages[i as int] },
                ),
                ..old(self)@
            }),
    {
        let mut m = self.messages[i].copy();
        m.content = content;
        let ghost before = self.messages@;
        self.messages.set(i, m);
        assert(messages_view(self.messages@) =~= messages_view(before).update(
            i as int,
            MessageView { content: content@, ..messages_view(before)[i as int] },
        ));
    }

    fn push_message(&mut self, m: Message)
        requires
            old(self).messages@.len() < usize::MAX,
        ensures
            final(self)@ == (AppView { messages: old(self)@.messages.push(m@), ..old(self)@ }),
    {
        let ghost before = self.messages@;
        let ghost mv = m@;
        self.messages.push(m);
        assert(messages_view(self.messages@) =~= messages_view(before).push(mv));
    }

    fn wants_title(&self, conversation_id: &str) -> (r: bool)
        ensures
            r == (self@.messages.len() == 1 && match first_with_id(self@.conversations, conversation_id@) {
                Some(k) => trim(self@.conversations[k].title) == "New Chat"@,
                None => false,
            }),
    {
        if self.messages.len() != 1 {
            return false;
        }
        match find_conversation(&self.conversations, conversation_id) {
            Some(k) => {
                let t = trim_str(self.conversations[k].title.as_str());
                proof {
                    reveal_strlit("New Chat");
                }
                same_str(t.as_str(), "New Chat")
            },
            None => false,
        }
    }

    fn arm_stream(&mut self, conversation_id: String, now_ms: u64)
        requires
            old(self).messages@.len() > 0,
        ensures
            final(self)@ == (AppView {
                reply_in_flight: true,
                cancel_armed: true,
                pending_response: None,
                streaming_buffer: Seq::empty(),
                streamed_chars: 0,
                stream_conversation_id: Some(conversation_id@),
                stream_line_index: Some((old(self)@.messages.len() - 1) as nat),
                is_loading: true,
                last_stream_tick_ms: now_ms,
                ..old(self)@
            }),
    {
        self.reply_in_flight = true;
        self.cancel_armed = true;
        self.pending_response = None;
        self.streaming_buffer = String::new();
        self.streamed_chars = 0;
        self.stream_conversation_id = Some(conversation_id);
        self.stream_line_index = Some(self.messages.len() - 1);
        self.is_loading = true;
        self.last_stream_tick_ms = now_ms;
    }

    fn take_user_turn(
        &mut self,
        stored: &Option<String>,
        conversation_id: &String,
        prompt: &String,
        user_message_id: String,
        now_us: i64,
    ) -> (r: Vec<Effect>)
        requires
            old(self).messages@.len() < usize::MAX,
        ensures
            (final(self)@, effects_view(r@)) == user_turn(
                old(self)@,
                opt_view(*stored),
                conversation_id@,
                prompt@,
                user_message_id@,
                now_us,
            ),
    {
        let ghost v = self@;
        proof {
            reveal_strlit("user");
        }
        let um = Message {
            id: user_message_id,
            conversation_id: conversation_id.clone(),
            role: "user".to_owned(),
            content: prompt.clone(),
            created_at_us: now_us,
        };
        self.push_message(um);
        if self.wants_title(conversation_id.as_str()) {
            self.pending_title_generation = Some(
                crate::chat_state::PendingTitle {
                    conversation_id: conversation_id.clone(),
                    first_user_message: prompt.clone(),
                },
            );
        }
        let e = self.store_and_bump(stored, conversation_id.clone(), "user", prompt.clone());
        let ghost w = user_turn(v, opt_view(*stored), conversation_id@, prompt@, user_message_id@, now_us);
        assert(self@.messages == w.0.messages);
        assert(self@.pending_title == w.0.pending_title);
        e
    }

    fn take_reply_turn(
        &mut self,
        conversation_id: String,
        prompt: String,
        assistant_message_id: String,
        now_us: i64,
        now_ms: u64,
    ) -> (r: Vec<Effect>)
        requires
            old(self).messages@.len() < usize::MAX,
        ensures
            (final(self)@, effects_view(r@)) == reply_turn(
                old(self)@,
                conversation_id@,
                prompt@,
                assistant_message_id@,
                now_us,
                now_ms,
            ),
    {
        let ghost v = self@;
        let ghost cid = conversation_id@;
        let ghost pv = prompt@;
        let ghost aid = assistant_message_id@;
        proof {
            reveal_strlit("assistant");
        }
        let am = Message {
            id: assistant_message_id,
            conversation_id: conversation_id.clone(),
            role: "assistant".to_owned(),
            content: String::new(),
            created_at_us: now_us,
        };
        self.push_message(am);
        let lines = as_conversation_lines(self.messages.as_slice());
        self.arm_stream(conversation_id, now_ms);
        let mut out: Vec<Effect> = Vec::new();
        out.push(Effect::StartReply { prompt, conversation: lines });
        let ghost w = reply_turn(v, cid, pv, aid, now_us, now_ms);
        assert(self@.messages == w.0.messages);
        assert(self@.streaming_buffer == w.0.streaming_buffer);
        assert(effects_view(out@) =~= w.1);
        out
    }

    /// [`send_prompt_spec`], with the message ids and time given.
    pub fn send_prompt_with(
        &mut self,
        stored: &Option<String>,
        conversation_id: String,
        prompt: String,
        fresh: Fresh,
        now_ms: u64,
    ) -> (r: Vec<Effect>)
        requires
            old(self).messages@.len() + 2 <= usize::MAX,
        ensures
            (final(self)@, effects_view(r@)) == send_prompt_spec(
                old(self)@,
                opt_view(*stored),
                conversation_id@,
                prompt@,
                fresh.user_message_id@,
                fresh.assistant_message_id@,
                fresh.now_us,
                now_ms,
            ),
    {
        if self.is_loading {
            let out: Vec<Effect> = Vec::new();
            assert(effects_view(out@) =~= none());
            return out;
        }
        let e1 = self.take_user_turn(stored, &conversation_id, &prompt, fresh.user_message_id, fresh.now_us);
        let e2 = self.take_reply_turn(conversation_id, prompt, fresh.assistant_message_id, fresh.now_us, now_ms);
        concat_effects(e1, e2)
    }

    /// `send_prompt_to_conversation`: [`AppState::send_prompt_with`] with new
    /// random message ids and the current time.
    pub fn send_prompt_to_conversation(
        &mut self,
        stored: &Option<String>,
        conversation_id: String,
        prompt: String,
        now_ms: u64,
    ) -> (r: Vec<Effect>)
        requires
            old(self).messages@.len() + 2 <= usize::MAX,
        ensures
            exists|f: Fresh|
                crate::streaming::is_v4_uuid_text(f.user_message_id@) && crate::streaming::is_v4_uuid_text(
                    f.assistant_message_id@,
                ) && (final(self)@, effects_view(r@)) == #[trigger] send_prompt_spec(
                    old(self)@,
                    opt_view(*stored),
                    conversation_id@,
                    prompt@,
                    f.user_message_id@,
                    f.assistant_message_id@,
                    f.now_us,
                    now_ms,
                ),
    {
        let fresh = fresh_message_ids();
        let ghost f = fresh;
        let r = self.send_prompt_with(stored, conversation_id, prompt, fresh, now_ms);
        r
    }

    fn keep_partial(&mut self, partial: &String)
        ensures
            final(self)@.messages == (if partial@.len() == 0 {
                drop_blank_placeholder(old(self)@)
            } else {
                with_line(old(self)@.messages, old(self)@.stream_line_index, partial@)
            }),
            final(self)@ == (AppView { messages: final(self)@.messages, ..old(self)@ }),
    {
        proof {
            reveal(with_line);
        }
        if chars_of(partial.as_str()).len() == 0 {
            self.drop_blank_placeholder();
        } else {
            if let Some(i) = self.stream_line_index {
                if i < self.messages.len() {
                    self.set_line_content(i, partial.clone());
                }
            }
        }
    }

    fn disarm_cancel(&mut self) -> (r: Vec<Effect>)
        ensures
            final(self)@ == (AppView { cancel_armed: false, ..old(self)@ }),
            effects_view(r@) == (if old(self)@.cancel_armed {
                seq![EffectView::CancelReply]
            } else {
                none()
            }),
    {
        let mut out: Vec<Effect> = Vec::new();
        if self.cancel_armed {
            out.push(Effect::CancelReply);
        }
        self.cancel_armed = false;
        assert(effects_view(out@) =~= (if old(self)@.cancel_armed {
            seq![EffectView::CancelReply]
        } else {
            none()
        }));
        out
    }

    fn store_partial(&self, stored: &Option<String>, partial: &String, conversation_id: Option<String>) -> (r: Vec<
        Effect,
    >)
        ensures
            effects_view(r@) == (if partial@.len() > 0 {
                match opt_view(conversation_id) {
                    Some(c) => req_append_message(self@, opt_view(*stored), c, "assistant"@, partial@) + req_bump(
                        self@,
                        opt_view(*stored),
                        c,
                    ),
                    None => none(),
                }
            } else {
                none()
            }),
    {
        if chars_of(partial.as_str()).len() != 0 {
            if let Some(c) = conversation_id {
                proof {
                    reveal_strlit("assistant");
                }
                return self.store_and_bump(stored, c, "assistant", partial.clone());
            }
        }
        let out: Vec<Effect> = Vec::new();
        assert(effects_view(out@) =~= none());
        out
    }

    /// `stop_streaming`.
    pub fn stop_streaming(&mut self, stored: &Option<String>, now_ms: u64) -> (r: Vec<Effect>)
        ensures
            (final(self)@, effects_view(r@)) == stop_spec(old(self)@, opt_view(*stored), now_ms),
    {
        let ghost v = self@;
        let e0 = self.disarm_cancel();
        let partial = trim_str(self.streaming_buffer.as_str());
        let conversation_id = crate::backend::copy_opt(&self.stream_conversation_id);
        self.keep_partial(&partial);
        let e1 = self.store_partial(stored, &partial, conversation_id);
        self.clear_stream();
        self.last_stream_tick_ms = now_ms;
        let out = concat_effects(e0, e1);
        let ghost w = stop_spec(v, opt_view(*stored), now_ms);
        assert(self@.messages == w.0.messages);
        assert(self@.streaming_buffer == w.0.streaming_buffer);
        assert(effects_view(out@) == w.1);
        out
    }

    /// `tick_streaming`. `poll` is what the caller's poll of the provider
    /// thread found, if it made one.
    pub fn tick_streaming(&mut self, poll: Option<ReplyPoll>, stored: &Option<String>, now_ms: u64) -> (r: Vec<
        Effect,
    >)
        ensures
            (final(self)@, effects_view(r@)) == tick_spec(old(self)@, poll, opt_view(*stored), now_ms),
    {
        let ghost v = self@;
        let ghost p = poll;
        if !self.is_loading {
            let out: Vec<Effect> = Vec::new();
            assert(effects_view(out@) =~= none());
            return out;
        }
        if self.pending_response.is_none() && self.reply_in_flight {
            match poll {
                Some(ReplyPoll::Ready(full)) => {
                    self.pending_response = Some(normalize_ai_text(full.as_str()));
                    self.reply_in_flight = false;
                    self.cancel_armed = false;
                    self.last_stream_tick_ms = now_ms;
                },
                Some(ReplyPoll::Failed(err)) => {
                    self.reply_failed(err.as_str());
                    let out: Vec<Effect> = Vec::new();
                    assert(effects_view(out@) =~= none());
                    return out;
                },
                Some(ReplyPoll::Disconnected) => {
                    self.reply_lost();
                    let out: Vec<Effect> = Vec::new();
                    assert(effects_view(out@) =~= none());
                    return out;
                },
                _ => {
                    let out: Vec<Effect> = Vec::new();
                    assert(effects_view(out@) =~= none());
                    return out;
                },
            }
        }
        self.advance_stream(stored, now_ms)
    }

    fn set_progress(&mut self, streamed: usize, shown: String)
        ensures
            final(self)@ == (AppView { streamed_chars: streamed as nat, streaming_buffer: shown@, ..old(self)@ }),
    {
        self.streamed_chars = streamed;
        self.streaming_buffer = shown;
    }

    fn show_on_line(&mut self)
        ensures
            final(self)@ == (AppView {
                messages: with_line(old(self)@.messages, old(self)@.stream_line_index, old(self)@.streaming_buffer),
                ..old(self)@
            }),
    {
        proof {
            reveal(with_line);
        }
        if let Some(i) = self.stream_line_index {
            if i < self.messages.len() {
                let content = self.streaming_buffer.clone();
                self.set_line_content(i, content);
            }
        }
    }

    fn show_next_chunk(&mut self, response: &Vec<char>)
        ensures
            final(self)@ == show_chunk(old(self)@, response@),
    {
        let ghost v = self@;
        let chunk = chunk_of(response, self.streamed_chars);
        let len = response.len();
        let done = self.streamed_chars;
        let streamed = if done + chunk.len() < len {
            done + chunk.len()
        } else {
            len
        };
        let mut buf: Vec<char> = chars_of(self.streaming_buffer.as_str());
        push_all(&mut buf, chunk.as_slice());
        let shown = string_of(buf.as_slice());
        assert(shown@ == v.streaming_buffer + next_chunk(response@, v.streamed_chars));
        self.set_progress(streamed, shown);
        self.show_on_line();
        let ghost w = show_chunk(v, response@);
        assert(self@.messages == w.messages);
        assert(self@.streaming_buffer == w.streaming_buffer);
    }

    fn settle_stream(&mut self, len: usize, stored: &Option<String>) -> (r: Vec<Effect>)
        requires
            old(self)@.pending_response matches Some(p) && p.len() == len,
        ensures
            (final(self)@, effects_view(r@)) == settle_spec(old(self)@, old(self)@.pending_response->0, opt_view(*stored)),
    {
        let ghost v = self@;
        let mut out: Vec<Effect> = Vec::new();
        if self.streamed_chars >= len {
            self.is_loading = false;
            self.pending_response = None;
            self.reply_in_flight = false;
            self.cancel_armed = false;
            let conversation_id = self.stream_conversation_id.take();
            let line = self.stream_line_index.take();
            if let (Some(c), Some(i)) = (conversation_id, line) {
                if i < self.messages.len() {
                    let content = self.messages[i].content.clone();
                    let mut a = self.request_append_message(stored, c.clone(), "assistant", content);
                    let mut b = self.request_bump_conversation_updated_at(stored, c);
                    out.append(&mut a);
                    out.append(&mut b);
                }
            }
            proof {
                reveal_strlit("assistant");
            }
        }
        assert(effects_view(out@) =~= settle_spec(v, v.pending_response->0, opt_view(*stored)).1);
        out
    }

    #[verifier::rlimit(50)]
    fn advance_stream(&mut self, stored: &Option<String>, now_ms: u64) -> (r: Vec<Effect>)
        ensures
            (final(self)@, effects_view(r@)) == advance_spec(old(self)@, opt_view(*stored), now_ms),
    {
        if now_ms.saturating_sub(self.last_stream_tick_ms) < STREAM_TICK_MS {
            let out: Vec<Effect> = Vec::new();
            assert(effects_view(out@) =~= none());
            return out;
        }
        self.last_stream_tick_ms = now_ms;
        let response: Vec<char> = match &self.pending_response {
            None => {
                self.is_loading = false;
                let out: Vec<Effect> = Vec::new();
                assert(effects_view(out@) =~= none());
                return out;
            },
            Some(r) => chars_of(r.as_str()),
        };
        self.show_next_chunk(&response);
        self.settle_stream(response.len(), stored)
    }
}

/// While a reply is shown piece by piece, what is shown is the start of the
/// reply, as long as it says; before the reply is in, nothing is shown.
pub open spec fn stream_consistent(v: AppView) -> bool {
    &&& (v.pending_response matches Some(r) ==> v.streamed_chars <= r.len() && v.streaming_buffer
        == r.take(v.streamed_chars as int))
    &&& (v.is_loading && v.pending_response is None ==> v.streamed_chars == 0 && v.streaming_buffer.len()
        == 0)
}

proof fn lemma_show_chunk(v: AppView, r: Seq<char>)
    requires
        v.pending_response == Some(r),
        v.streamed_chars <= r.len(),
        v.streaming_buffer == r.take(v.streamed_chars as int),
    ensures
        show_chunk(v, r).streamed_chars == min_nat(v.streamed_chars + 3, r.len()),
        show_chunk(v, r).streaming_buffer == r.take(show_chunk(v, r).streamed_chars as int),
{
    let n = v.streamed_chars;
    let chunk = next_chunk(r, n);
    if n < r.len() {
        assert(r.take(n as int) + r.subrange(n as int, min_nat(n + 3, r.len()) as int) =~= r.take(
            min_nat(n + 3, r.len()) as int,
        ));
    } else {
        assert(chunk.len() == 0);
        assert(r.take(n as int) + chunk =~= r.take(n as int));
    }
}

/// Every frame (`tick_streaming`) keeps the shown text a prefix of the
/// reply, with the count of shown characters matching.
pub proof fn law_tick_keeps_stream_consistent(
    v: AppView,
    poll: Option<ReplyPoll>,
    stored: Option<Seq<char>>,
    now_ms: u64,
)
    requires
        stream_consistent(v),
    ensures
        stream_consistent(tick_spec(v, poll, stored, now_ms).0),
{
    if v.is_loading {
        if v.pending_response is None && v.reply_in_flight {
            match poll {
                Some(ReplyPoll::Ready(s)) => {
                    let r = normalize_spec(s@);
                    let v1 = AppView {
                        pending_response: Some(r),
                        reply_in_flight: false,
                        cancel_armed: false,
                        last_stream_tick_ms: now_ms,
                        ..v
                    };
                    assert(v1.streaming_buffer =~= r.take(0));
                },
                _ => {},
            }
        } else {
            let elapsed = if now_ms >= v.last_stream_tick_ms {
                now_ms - v.last_stream_tick_ms
            } else {
                0
            };
            if elapsed >= 24 {
                let v1 = AppView { last_stream_tick_ms: now_ms, ..v };
                if let Some(r) = v1.pending_response {
                    lemma_show_chunk(v1, r);
                }
            }
        }
    }
}

/// Starting a reply (`send_prompt_to_conversation`) leaves the stream
/// consistent: nothing is shown yet.
pub proof fn law_send_starts_stream_empty(
    v: AppView,
    stored: Option<Seq<char>>,
    id: Seq<char>,
    prompt: Seq<char>,
    user_message_id: Seq<char>,
    assistant_message_id: Seq<char>,
    now_us: i64,
    now_ms: u64,
)
    requires
        stream_consistent(v),
    ensures
        stream_consistent(
            send_prompt_spec(v, stored, id, prompt, user_message_id, assistant_message_id, now_us, now_ms).0,
        ),
{
}

/// Once a reply has been shown to its end, the reply line holds exactly
/// the provider's reply (with odd spaces made plain), and the stream is
/// over; until then each frame shows up to three more characters.
pub proof fn law_stream_delivers_reply(v: AppView, stored: Option<Seq<char>>, now_ms: u64)
    requires
        stream_consistent(v),
        v.is_loading,
        v.pending_response is Some,
        now_ms >= v.last_stream_tick_ms + 24,
    ensures
        ({
            let r = v.pending_response->0;
            let w = tick_spec(v, None, stored, now_ms).0;
            &&& w.streamed_chars == min_nat(v.streamed_chars + 3, r.len()) || !w.is_loading
            &&& (v.streamed_chars + 3 >= r.len() ==> !w.is_loading && w.pending_response is None
                && w.streaming_buffer == r && (forall|i: nat|
                v.stream_line_index == Some(i) && i < v.messages.len() ==> #[trigger] w.messages[i as int].content
                == r))
            &&& (v.streamed_chars + 3 < r.len() ==> w.is_loading && w.streaming_buffer == r.take(
                w.streamed_chars as int,
            ))
        }),
{
    let r = v.pending_response->0;
    let v1 = AppView { last_stream_tick_ms: now_ms, ..v };
    lemma_show_chunk(v1, r);
    assert(r.take(r.len() as int) =~= r);
    reveal(with_line);
}

/// When a tick shows the last characters of the reply, the stream ends and
/// the whole reply is stored once for its conversation, followed by a bump
/// of the conversation, both with the token at hand.
pub proof fn law_stream_saves_reply(v: AppView, stored: Option<Seq<char>>, now_ms: u64, c: Seq<char>, i: nat, t: Seq<char>)
    requires
        stream_consistent(v),
        v.is_loading,
        v.pending_response is Some,
        v.streamed_chars + 3 >= v.pending_response->0.len(),
        now_ms >= v.last_stream_tick_ms + 24,
        v.stream_conversation_id == Some(c),
        v.stream_line_index == Some(i),
        i < v.messages.len(),
        crate::chat_state::access_token_spec(v.session_access_token, stored) == Ok::<Seq<char>, Seq<char>>(t),
    ensures
        ({
            let r = v.pending_response->0;
            let (w, e) = tick_spec(v, None, stored, now_ms);
            &&& !w.is_loading
            &&& e == seq![
                EffectView::AppendMessage { token: t, conversation_id: c, role: "assistant"@, content: r },
                EffectView::BumpConversation { token: t, conversation_id: c },
            ]
        }),
{
    let r = v.pending_response->0;
    let v1 = AppView { last_stream_tick_ms: now_ms, ..v };
    lemma_show_chunk(v1, r);
    assert(r.take(r.len() as int) =~= r);
    reveal(with_line);
    let v2 = show_chunk(v1, r);
    assert(v2.messages[i as int].content == r);
    assert(v2.session_access_token == v.session_access_token);
}

} // verus!
