//! Splitting a chat message into prose paragraphs and fenced code blocks,
//! and the classification of notices shown on the sign-in form.
use vstd::prelude::*;
use crate::text::{
    ascii_lower, ascii_lower_chars, chars_of, contains_chars, contains_seq, copy_range, is_blank,
    is_blank_chars, is_space, push_all, seqs_of, starts_with, starts_with_chars, string_of, trim,
    trim_bounds, trim_end, trim_start, trim_start_chars, trailing_spaces, lemma_trailing_spaces,
    is_whitespace_char,
};

verus! {

/// The line terminator removed by `str::lines`: a final `\r` of a line that
/// a `\n` ended.
pub open spec fn strip_cr(line: Seq<char>) -> Seq<char> {
    if line.len() > 0 && line.last() == '\r' {
        line.drop_last()
    } else {
        line
    }
}

/// The lines completed by the first `n` characters and the unfinished tail.
pub open spec fn scan_lines(s: Seq<char>, n: int) -> (Seq<Seq<char>>, Seq<char>)
    decreases n,
{
    if n <= 0 {
        (seq![], seq![])
    } else {
        let (ls, cur) = scan_lines(s, n - 1);
        if s[n - 1] == '\n' {
            (ls.push(strip_cr(cur)), seq![])
        } else {
            (ls, cur.push(s[n - 1]))
        }
    }
}

/// `str::lines`: the text split at `\n` (a `\r` before it dropped); a final
/// empty line is not yielded.
pub open spec fn lines_spec(s: Seq<char>) -> Seq<Seq<char>> {
    let (ls, cur) = scan_lines(s, s.len() as int);
    if cur.len() > 0 {
        ls.push(cur)
    } else {
        ls
    }
}

/// The lines of a text.
pub fn split_lines(s: &[char]) -> (r: Vec<Vec<char>>)
    ensures
        seqs_of(r@) == lines_spec(s@),
{
    let mut ls: Vec<Vec<char>> = Vec::new();
    let mut cur: Vec<char> = Vec::new();
    let mut i: usize = 0;
    while i < s.len()
        invariant
            i <= s@.len(),
            (seqs_of(ls@), cur@) == scan_lines(s@, i as int),
        decreases s.len() - i,
    {
        let ghost before = seqs_of(ls@);
        let c = s[i];
        if c == '\n' {
            let mut line = cur;
            let n = line.len();
            if n > 0 && line[n - 1] == '\r' {
                line.pop();
            }
            ls.push(line);
            cur = Vec::new();
            assert(seqs_of(ls@) =~= before.push(strip_cr(scan_lines(s@, i as int).1)));
        } else {
            cur.push(c);
        }
        i += 1;
    }
    if cur.len() > 0 {
        let ghost before = seqs_of(ls@);
        ls.push(cur);
        assert(seqs_of(ls@) =~= before.push(scan_lines(s@, s@.len() as int).1));
    }
    ls
}

/// A code fence: three backticks.
pub open spec fn fence() -> Seq<char> {
    seq!['`', '`', '`']
}

/// `s.trim_start_matches("```")`.
pub open spec fn strip_fences(s: Seq<char>) -> Seq<char>
    decreases s.len(),
{
    if s.len() >= 3 && starts_with(s, fence()) {
        strip_fences(s.skip(3))
    } else {
        s
    }
}

/// A block of a message, as the specification sees it.
pub enum BlockView {
    Paragraph(Seq<char>),
    Code(Option<Seq<char>>, Seq<char>),
}

/// The state of the block splitter between lines.
pub struct BlockState {
    pub blocks: Seq<BlockView>,
    pub text: Seq<char>,
    pub code: Seq<char>,
    pub in_code: bool,
    pub language: Option<Seq<char>>,
}

/// The splitter's step for one line: a line whose trimmed start opens with
/// a fence closes the open code block, or flushes the pending prose and
/// opens a code block whose language is the rest of the fence line
/// (trimmed; none when empty); other lines are added to the open code block
/// or to the pending prose.
pub open spec fn block_step(st: BlockState, line: Seq<char>) -> BlockState {
    let f = trim_start(line);
    if starts_with(f, fence()) {
        if st.in_code {
            BlockState {
                blocks: st.blocks.push(BlockView::Code(st.language, trim_end(st.code))),
                code: seq![],
                in_code: false,
                language: None,
                ..st
            }
        } else {
            let lang = trim(strip_fences(f));
            BlockState {
                blocks: if trim(st.text).len() > 0 {
                    st.blocks.push(BlockView::Paragraph(trim(st.text)))
                } else {
                    st.blocks
                },
                text: if trim(st.text).len() > 0 {
                    seq![]
                } else {
                    st.text
                },
                in_code: true,
                language: if lang.len() == 0 {
                    None
                } else {
                    Some(lang)
                },
                ..st
            }
        }
    } else if st.in_code {
        BlockState { code: st.code + line.push('\n'), ..st }
    } else {
        BlockState { text: st.text + line.push('\n'), ..st }
    }
}

pub open spec fn initial_block_state() -> BlockState {
    BlockState { blocks: seq![], text: seq![], code: seq![], in_code: false, language: None }
}

/// The splitter's state after the first `n` lines.
pub open spec fn block_fold(lines: Seq<Seq<char>>, n: int) -> BlockState
    decreases n,
{
    if n <= 0 {
        initial_block_state()
    } else {
        block_step(block_fold(lines, n - 1), lines[n - 1])
    }
}

/// The blocks of a message: the splitter run over its lines, an unclosed
/// code block closed at the end, remaining prose flushed, and the whole
/// content as one paragraph when nothing else came out.
pub open spec fn message_blocks(content: Seq<char>) -> Seq<BlockView> {
    let ls = lines_spec(content);
    let st = block_fold(ls, ls.len() as int);
    let bs = if st.in_code {
        st.blocks.push(BlockView::Code(st.language, trim_end(st.code)))
    } else if trim(st.text).len() > 0 {
        st.blocks.push(BlockView::Paragraph(trim(st.text)))
    } else {
        st.blocks
    };
    if bs.len() == 0 {
        seq![BlockView::Paragraph(content)]
    } else {
        bs
    }
}

/// A block of a message.
pub enum MessageBlock {
    Paragraph(String),
    Code { language: Option<String>, code: String },
}

impl View for MessageBlock {
    type V = BlockView;

    open spec fn view(&self) -> BlockView {
        match self {
            MessageBlock::Paragraph(t) => BlockView::Paragraph(t@),
            MessageBlock::Code { language, code } => BlockView::Code(
                match language {
                    Some(l) => Some(l@),
                    None => None,
                },
                code@,
            ),
        }
    }
}

pub open spec fn blocks_view(bs: Seq<MessageBlock>) -> Seq<BlockView> {
    Seq::new(bs.len(), |i: int| bs[i]@)
}

fn trim_end_vec(s: &[char]) -> (r: Vec<char>)
    ensures
        r@ == trim_end(s@),
{
    let mut e = s.len();
    while e > 0 && is_whitespace_char(s[e - 1])
        invariant
            e <= s@.len(),
            forall|j: int| e <= j < s@.len() ==> is_space(#[trigger] s@[j]),
        decreases e,
    {
        e -= 1;
    }
    proof {
        lemma_trailing_spaces(s@, e as int);
    }
    copy_range(s, 0, e)
}

fn strip_fences_exec(s: &[char]) -> (r: Vec<char>)
    ensures
        r@ == strip_fences(s@),
{
    let mut k: usize = 0;
    assert(s@.skip(0) =~= s@);
    while k < s.len() && s.len() - k >= 3 && s[k] == '`' && s[k + 1] == '`' && s[k + 2] == '`'
        invariant
            k <= s@.len(),
            strip_fences(s@) == strip_fences(s@.skip(k as int)),
        decreases s.len() - k,
    {
        proof {
            let t = s@.skip(k as int);
            assert(t.take(3) =~= fence());
            assert(t.skip(3) =~= s@.skip(k + 3));
        }
        k += 3;
    }
    proof {
        let t = s@.skip(k as int);
        if t.len() >= 3 && starts_with(t, fence()) {
            assert(t.take(3)[0] == t[0]);
            assert(t.take(3)[1] == t[1]);
            assert(t.take(3)[2] == t[2]);
            assert(t[0] == s@[k as int]);
            assert(t[1] == s@[k + 1]);
            assert(t[2] == s@[k + 2]);
        }
    }
    copy_range(s, k, s.len())
}

/// `split_message_blocks`: the prose paragraphs and fenced code blocks of a
/// chat message, in order.
pub fn split_message_blocks(content: &str) -> (r: Vec<MessageBlock>)
    ensures
        blocks_view(r@) == message_blocks(content@),
{
    let chars = chars_of(content);
    let lines = split_lines(chars.as_slice());
    let ghost ls = seqs_of(lines@);
    let fence_chars = vec!['`', '`', '`'];
    assert(fence_chars@ =~= fence());
    let mut blocks: Vec<MessageBlock> = Vec::new();
    let mut text: Vec<char> = Vec::new();
    let mut code: Vec<char> = Vec::new();
    let mut in_code = false;
    let mut language: Option<Vec<char>> = None;
    let mut i: usize = 0;
    assert(blocks_view(blocks@) =~= Seq::<BlockView>::empty());
    assert(text@ =~= Seq::<char>::empty());
    assert(code@ =~= Seq::<char>::empty());
    while i < lines.len()
        invariant
            i <= lines@.len(),
            ls == seqs_of(lines@),
            fence_chars@ == fence(),
            block_fold(ls, i as int) == (BlockState {
                blocks: blocks_view(blocks@),
                text: text@,
                code: code@,
                in_code,
                language: match language {
                    Some(l) => Some(l@),
                    None => None,
                },
            }),
        decreases lines.len() - i,
    {
        let line = &lines[i];
        assert(line@ == ls[i as int]);
        let ghost bv = blocks_view(blocks@);
        let f = trim_start_chars(line.as_slice());
        if starts_with_chars(f.as_slice(), fence_chars.as_slice()) {
            if in_code {
                let lang = match language {
                    Some(l) => Some(string_of(l.as_slice())),
                    None => None,
                };
                let c = trim_end_vec(code.as_slice());
                blocks.push(MessageBlock::Code { language: lang, code: string_of(c.as_slice()) });
                assert(blocks_view(blocks@) =~= bv.push(
                    BlockView::Code(block_fold(ls, i as int).language, trim_end(code@)),
                ));
                code = Vec::new();
                in_code = false;
                language = None;
            } else {
                if !is_blank_chars(text.as_slice()) {
                    let (a, b) = trim_bounds(text.as_slice());
                    let t = copy_range(text.as_slice(), a, b);
                    blocks.push(MessageBlock::Paragraph(string_of(t.as_slice())));
                    assert(blocks_view(blocks@) =~= bv.push(BlockView::Paragraph(trim(text@))));
                    text = Vec::new();
                }
                let rest = strip_fences_exec(f.as_slice());
                let lang = {
                    let (a, b) = trim_bounds(rest.as_slice());
                    copy_range(rest.as_slice(), a, b)
                };
                language = if lang.len() == 0 {
                    None
                } else {
                    Some(lang)
                };
                in_code = true;
            }
        } else if in_code {
            push_all(&mut code, line.as_slice());
            code.push('\n');
            assert(code@ =~= block_fold(ls, i as int).code + line@.push('\n'));
        } else {
            push_all(&mut text, line.as_slice());
            text.push('\n');
            assert(text@ =~= block_fold(ls, i as int).text + line@.push('\n'));
        }
        i += 1;
    }
    let ghost bv = blocks_view(blocks@);
    if in_code {
        let lang = match language {
            Some(l) => Some(string_of(l.as_slice())),
            None => None,
        };
        let c = trim_end_vec(code.as_slice());
        blocks.push(MessageBlock::Code { language: lang, code: string_of(c.as_slice()) });
        assert(blocks_view(blocks@) =~= bv.push(
            BlockView::Code(block_fold(ls, ls.len() as int).language, trim_end(code@)),
        ));
    } else if !is_blank_chars(text.as_slice()) {
        let (a, b) = trim_bounds(text.as_slice());
        let t = copy_range(text.as_slice(), a, b);
        blocks.push(MessageBlock::Paragraph(string_of(t.as_slice())));
        assert(blocks_view(blocks@) =~= bv.push(BlockView::Paragraph(trim(text@))));
    }
    if blocks.len() == 0 {
        blocks.push(MessageBlock::Paragraph(content.to_owned()));
        assert(blocks_view(blocks@) =~= seq![BlockView::Paragraph(content@)]);
    }
    blocks
}

/// Whether a sign-in notice reads as an error: its ASCII lower-case form
/// mentions a failure, a requirement, something invalid or missing, an
/// error, a "could not" or something not configured.
pub open spec fn is_error_notice_spec(text: Seq<char>) -> bool {
    let l = ascii_lower(text);
    ||| contains_seq(l, "failed"@)
    ||| contains_seq(l, "required"@)
    ||| contains_seq(l, "invalid"@)
    ||| contains_seq(l, "missing"@)
    ||| contains_seq(l, "error"@)
    ||| contains_seq(l, "could not"@)
    ||| contains_seq(l, "not configured"@)
}

fn mentions(l: &[char], needle: &str) -> (r: bool)
    ensures
        r == contains_seq(l@, needle@),
{
    let n = chars_of(needle);
    contains_chars(l, n.as_slice())
}

/// `is_error_notice`.
pub fn is_error_notice(text: &str) -> (r: bool)
    ensures
        r == is_error_notice_spec(text@),
{
    let e = chars_of(text);
    let l = ascii_lower_chars(e.as_slice());
    let l = l.as_slice();
    mentions(l, "failed") || mentions(l, "required") || mentions(l, "invalid") || mentions(
        l,
        "missing",
    ) || mentions(l, "error") || mentions(l, "could not") || mentions(l, "not configured")
}

} // verus!
