//! Text layout for the PDF report: word wrapping to a width in bytes, and
//! the report's content as a list of blocks of lines, each with its style.
//!
//! The PDF is drawn with the standard Helvetica fonts, so text layout
//! (wrapping, page breaks) is done by hand; `wrap_text` decides where lines
//! break and `report_blocks` what the lines say. Sizes and positions on the
//! page belong to the drawing code.

use crate::text::{chars_of, is_ws, push_char, split, split_in, string_of_all, texts, valid_ranges, ranges_text, word_ranges, words};
use crate::checks::Severity;
use crate::export::{explanation_of, label_of, overall_explanation, severity_label, ItemModel, ReportData, ReportItem, ReportModel, ReportSection, SectionModel};
use crate::text::{concat2, count_string, decimal, lemma_texts_deep_view, push_str};
use vstd::prelude::*;

verus! {

/// Bytes of the UTF-8 encoding of a character.
pub open spec fn char_bytes(c: char) -> nat {
    if (c as u32) < 0x80 {
        1
    } else if (c as u32) < 0x800 {
        2
    } else if (c as u32) < 0x10000 {
        3
    } else {
        4
    }
}

/// Bytes of the UTF-8 encoding of a text (`str::len`).
pub open spec fn byte_len(s: Seq<char>) -> nat
    decreases s.len(),
{
    if s.len() == 0 {
        0
    } else {
        byte_len(s.drop_last()) + char_bytes(s.last())
    }
}

pub proof fn lemma_byte_len_concat(s: Seq<char>, t: Seq<char>)
    ensures
        byte_len(s + t) == byte_len(s) + byte_len(t),
    decreases t.len(),
{
    if t.len() > 0 {
        assert((s + t).drop_last() =~= s + t.drop_last());
        lemma_byte_len_concat(s, t.drop_last());
    } else {
        assert(s + t =~= s);
    }
}

pub proof fn lemma_byte_len_bound(s: Seq<char>)
    ensures
        byte_len(s) <= 4 * s.len(),
        s.len() > 0 ==> byte_len(s) > 0,
    decreases s.len(),
{
    if s.len() > 0 {
        lemma_byte_len_bound(s.drop_last());
    }
}

fn char_len_bytes(c: char) -> (n: u128)
    ensures
        n == char_bytes(c),
{
    let u = c as u32;
    if u < 0x80 {
        1
    } else if u < 0x800 {
        2
    } else if u < 0x10000 {
        3
    } else {
        4
    }
}

fn bytes_in(v: &Vec<char>, lo: usize, hi: usize) -> (n: u128)
    requires
        lo <= hi <= v.len(),
    ensures
        n == byte_len(v@.subrange(lo as int, hi as int)),
{
    let mut n: u128 = 0;
    let mut k = lo;
    while k < hi
        invariant
            lo <= k <= hi <= v.len(),
            n == byte_len(v@.subrange(lo as int, k as int)),
            n <= 4 * (k - lo),
        decreases hi - k,
    {
        assert(v@.subrange(lo as int, k + 1).drop_last() =~= v@.subrange(lo as int, k as int));
        n = n + char_len_bytes(v[k]);
        k = k + 1;
    }
    n
}

/// One word added to the lines made so far and the line being filled: the
/// line is closed first when it is not empty and the word would take it
/// past `max` bytes (with the joining space); a word longer than `max` is
/// never split.
pub open spec fn wrap_step(st: (Seq<Seq<char>>, Seq<char>), w: Seq<char>, max: nat) -> (Seq<Seq<char>>, Seq<char>) {
    let ls = st.0;
    let cur = st.1;
    let cand = if cur.len() == 0 {
        byte_len(w)
    } else {
        byte_len(cur) + 1 + byte_len(w)
    };
    let closed = cand > max && cur.len() > 0;
    let ls2 = if closed {
        ls.push(cur)
    } else {
        ls
    };
    let cur2 = if closed {
        seq![]
    } else {
        cur
    };
    (ls2, if cur2.len() > 0 {
        cur2 + seq![' '] + w
    } else {
        w
    })
}

pub open spec fn wrap_words(ws: Seq<Seq<char>>, max: nat) -> (Seq<Seq<char>>, Seq<char>)
    decreases ws.len(),
{
    if ws.len() == 0 {
        (seq![], seq![])
    } else {
        wrap_step(wrap_words(ws.drop_last(), max), ws.last(), max)
    }
}

/// The lines of one paragraph: an empty paragraph gives one empty line.
pub open spec fn wrap_paragraph(p: Seq<char>, max: nat) -> Seq<Seq<char>> {
    if p.len() == 0 {
        seq![seq![]]
    } else {
        let st = wrap_words(words(p), max);
        if st.1.len() > 0 {
            st.0.push(st.1)
        } else {
            st.0
        }
    }
}

pub open spec fn wrap_paragraphs(ps: Seq<Seq<char>>, max: nat) -> Seq<Seq<char>>
    decreases ps.len(),
{
    if ps.len() == 0 {
        seq![]
    } else {
        wrap_paragraphs(ps.drop_last(), max) + wrap_paragraph(ps.last(), max)
    }
}

/// `text` word-wrapped to at most `max` bytes per line (paragraphs split at
/// `\n`, words at white space, rejoined with single spaces); with `max`
/// zero, the text unchanged as the only line.
pub open spec fn wrap_spec(text: Seq<char>, max: nat) -> Seq<Seq<char>> {
    if max == 0 {
        seq![text]
    } else {
        wrap_paragraphs(split(text, seq!['\n']), max)
    }
}

/// A line that fits in `max` bytes, or holds a single word (no space).
pub open spec fn fits_or_one_word(l: Seq<char>, max: nat) -> bool {
    byte_len(l) <= max || !l.contains(' ')
}

pub open spec fn all_fit(ls: Seq<Seq<char>>, max: nat) -> bool {
    forall|i: int| 0 <= i < ls.len() ==> fits_or_one_word(#[trigger] ls[i], max)
}

proof fn lemma_words_have_no_space(s: Seq<char>)
    ensures
        forall|i: int| 0 <= i < words(s).len() ==> !(#[trigger] words(s)[i]).contains(' '),
    decreases s.len(),
{
    if s.len() > 0 {
        if is_ws(s[0]) {
            lemma_words_have_no_space(s.drop_first());
            assert(words(s) == words(s.drop_first()));
        } else {
            crate::text::lemma_word_len(s);
            let n = crate::text::word_len(s);
            let first = s.subrange(0, n as int);
            let rest = s.subrange(n as int, s.len() as int);
            lemma_words_have_no_space(rest);
            assert(is_ws(' '));
            assert forall|k: int| 0 <= k < first.len() implies first[k] != ' ' by {
                assert(first[k] == s[k]);
                assert(!is_ws(s[k]));
            }
            assert(!first.contains(' '));
            assert(words(s) == seq![first] + words(rest));
            assert forall|i: int| 0 <= i < words(s).len() implies !(#[trigger] words(s)[i]).contains(' ') by {
                if i == 0 {
                    assert(words(s)[0] == first);
                } else {
                    assert(words(s)[i] == words(rest)[i - 1]);
                    assert(!words(rest)[i - 1].contains(' '));
                }
            }
        }
    }
}

proof fn lemma_wrap_words_fit(ws: Seq<Seq<char>>, max: nat)
    requires
        forall|i: int| 0 <= i < ws.len() ==> !(#[trigger] ws[i]).contains(' '),
    ensures
        all_fit(wrap_words(ws, max).0, max),
        fits_or_one_word(wrap_words(ws, max).1, max),
    decreases ws.len(),
{
    if ws.len() == 0 {
        assert(byte_len(Seq::<char>::empty()) == 0);
    } else {
        assert forall|i: int| 0 <= i < ws.drop_last().len() implies !(#[trigger] ws.drop_last()[i]).contains(' ') by {
            assert(ws.drop_last()[i] == ws[i]);
        }
        lemma_wrap_words_fit(ws.drop_last(), max);
        let st = wrap_words(ws.drop_last(), max);
        let w = ws.last();
        assert(!w.contains(' ')) by {
            assert(w == ws[ws.len() - 1]);
        }
        let cur = st.1;
        let cand = if cur.len() == 0 {
            byte_len(w)
        } else {
            byte_len(cur) + 1 + byte_len(w)
        };
        let closed = cand > max && cur.len() > 0;
        let cur2 = if closed {
            seq![]
        } else {
            cur
        };
        if cur2.len() > 0 {
            lemma_byte_len_concat(cur2, seq![' ']);
            lemma_byte_len_concat(cur2 + seq![' '], w);
            assert(seq![' '].drop_last() =~= Seq::<char>::empty());
            assert((' ' as u32) == 32);
            assert(byte_len(Seq::<char>::empty()) == 0);
            assert(byte_len(seq![' ']) == 1);
        }
        let ls2 = if closed {
            st.0.push(cur)
        } else {
            st.0
        };
        assert forall|i: int| 0 <= i < ls2.len() implies fits_or_one_word(#[trigger] ls2[i], max) by {
            if i < st.0.len() {
                assert(ls2[i] == st.0[i]);
            }
        }
    }
}

proof fn lemma_wrap_paragraphs_fit(ps: Seq<Seq<char>>, max: nat)
    ensures
        all_fit(wrap_paragraphs(ps, max), max),
    decreases ps.len(),
{
    if ps.len() > 0 {
        lemma_wrap_paragraphs_fit(ps.drop_last(), max);
        let p = ps.last();
        let prev = wrap_paragraphs(ps.drop_last(), max);
        let this = wrap_paragraph(p, max);
        if p.len() == 0 {
            assert(byte_len(Seq::<char>::empty()) == 0);
            assert(fits_or_one_word(this[0], max));
        } else {
            lemma_words_have_no_space(p);
            lemma_wrap_words_fit(words(p), max);
            let st = wrap_words(words(p), max);
            assert forall|i: int| 0 <= i < this.len() implies fits_or_one_word(#[trigger] this[i], max) by {
                if i < st.0.len() {
                    assert(this[i] == st.0[i]);
                }
            }
        }
        assert forall|i: int| 0 <= i < (prev + this).len() implies fits_or_one_word(#[trigger] (prev + this)[i], max) by {
            if i < prev.len() {
                assert((prev + this)[i] == prev[i]);
            } else {
                assert((prev + this)[i] == this[i - prev.len()]);
            }
        }
    }
}

/// With a positive width, every line fits in `max` bytes unless it is a
/// single word longer than that (words are never split).
pub proof fn law_wrapped_lines_fit(text: Seq<char>, max: nat)
    requires
        max > 0,
    ensures
        all_fit(wrap_spec(text, max), max),
{
    lemma_wrap_paragraphs_fit(split(text, seq!['\n']), max);
}

/// Word-wraps `text` to at most `max_chars` bytes per line. A single word
/// longer than that is left whole rather than split.
pub fn wrap_text(text: &str, max_chars: usize) -> (lines: Vec<String>)
    ensures
        texts(lines@) == wrap_spec(text@, max_chars as nat),
{
    if max_chars == 0 {
        let lines = vec![String::from_str(text)];
        assert(texts(lines@) =~= seq![text@]);
        return lines;
    }
    let v = chars_of(text);
    let nl = vec!['\n'];
    assert(nl@ =~= seq!['\n']);
    assert(v@.subrange(0, v@.len() as int) =~= v@);
    let paras = split_in(&v, 0, v.len(), &nl);
    let ghost ps = split(v@, seq!['\n']);
    let ghost max = max_chars as nat;
    let mut lines: Vec<String> = Vec::new();
    let mut p: usize = 0;
    while p < paras.len()
        invariant
            p <= paras@.len(),
            valid_ranges(v@, paras@),
            ranges_text(v@, paras@) == ps,
            max == max_chars as nat,
            max_chars > 0,
            texts(lines@) == wrap_paragraphs(ps.take(p as int), max),
        decreases paras@.len() - p,
    {
        assert(ps.take(p + 1).drop_last() =~= ps.take(p as int));
        assert(ps.take(p + 1).last() == ps[p as int]);
        let (a, b) = paras[p];
        assert(ps[p as int] == v@.subrange(a as int, b as int));
        let ghost before = texts(lines@);
        if a == b {
            lines.push(String::new());
            proof {
                reveal_strlit("");
            }
            assert(texts(lines@) =~= before + seq![seq![]]);
        } else {
            let ws = word_ranges(&v, a, b);
            let ghost wm = words(v@.subrange(a as int, b as int));
            let mut done: Vec<String> = Vec::new();
            let mut cur: Vec<char> = Vec::new();
            let mut cur_bytes: u128 = 0;
            let mut k: usize = 0;
            while k < ws.len()
                invariant
                    k <= ws@.len(),
                    valid_ranges(v@, ws@),
                    ranges_text(v@, ws@) == wm,
                    max == max_chars as nat,
                    (texts(done@), cur@) == wrap_words(wm.take(k as int), max),
                    cur_bytes == byte_len(cur@),
                decreases ws@.len() - k,
            {
                assert(wm.take(k + 1).drop_last() =~= wm.take(k as int));
                assert(wm.take(k + 1).last() == wm[k as int]);
                let (wa, wb) = ws[k];
                let ghost w = v@.subrange(wa as int, wb as int);
                assert(wm[k as int] == w);
                let wbytes = bytes_in(&v, wa, wb);
                proof {
                    lemma_byte_len_bound(cur@);
                    lemma_byte_len_bound(w);
                }
                let cand: u128 = if cur.len() == 0 {
                    wbytes
                } else {
                    cur_bytes + 1 + wbytes
                };
                let ghost done_before = texts(done@);
                if cand > max_chars as u128 && cur.len() > 0 {
                    done.push(string_of_all(&cur));
                    assert(texts(done@) =~= done_before.push(cur@));
                    cur = Vec::new();
                    cur_bytes = 0;
                    assert(cur@ =~= Seq::<char>::empty());
                    assert(byte_len(cur@) == 0);
                }
                let ghost cur_before = cur@;
                if cur.len() > 0 {
                    cur.push(' ');
                    assert(cur@ =~= cur_before + seq![' ']);
                    proof {
                        lemma_byte_len_concat(cur_before, seq![' ']);
                        assert(byte_len(seq![' ']) == 1) by {
                            assert(seq![' '].drop_last() =~= Seq::<char>::empty());
                            assert(seq![' '].last() == ' ');
                            assert((' ' as u32) == 32);
                            assert(char_bytes(' ') == 1);
                            assert(byte_len(Seq::<char>::empty()) == 0);
                        }
                    }
                    cur_bytes = cur_bytes + 1;
                }
                let ghost mid = cur@;
                assert(cur_bytes == byte_len(mid));
                let mut j = wa;
                while j < wb
                    invariant
                        wa <= j <= wb <= v@.len(),
                        cur@ == mid + v@.subrange(wa as int, j as int),
                    decreases wb - j,
                {
                    cur.push(v[j]);
                    assert(cur@ =~= mid + v@.subrange(wa as int, j + 1));
                    j = j + 1;
                }
                proof {
                    lemma_byte_len_concat(mid, w);
                    lemma_byte_len_bound(mid);
                }
                cur_bytes = cur_bytes + wbytes;
                assert(cur@ == (if cur_before.len() > 0 { cur_before + seq![' '] + w } else { w })) by {
                    if cur_before.len() == 0 {
                        assert(mid =~= Seq::<char>::empty());
                        assert(cur@ =~= w);
                    } else {
                        assert(mid =~= cur_before + seq![' ']);
                    }
                }
                k = k + 1;
            }
            assert(wm.take(k as int) =~= wm);
            let ghost dm = texts(done@);
            if cur.len() > 0 {
                done.push(string_of_all(&cur));
                assert(texts(done@) =~= dm.push(cur@));
            }
            let ghost para = texts(done@);
            assert(para == wrap_paragraph(v@.subrange(a as int, b as int), max));
            lines.append(&mut done);
            assert(texts(lines@) =~= before + para);
        }
        p = p + 1;
    }
    assert(ps.take(p as int) =~= ps);
    lines
}

// ---------------------------------------------------------------------------
// Report blocks
// ---------------------------------------------------------------------------

/// The kind of text a block holds; the drawing code picks its font and size.
#[derive(Debug, Clone, Copy, PartialEq, Eq, Structural)]
pub enum PdfStyle {
    Title,
    Generated,
    SummaryHeading,
    Overall,
    Explanation,
    Counts,
    SectionHeading,
    ItemTitle,
    Verdict,
    Finding,
    Remediation,
    DataSource,
    Footer,
}

/// Vertical room the drawing code leaves at a point of the report.
#[derive(Debug, Clone, Copy, PartialEq, Eq, Structural)]
pub enum PdfSpace {
    AfterTitle,
    AfterGenerated,
    AfterSummary,
    /// Before a section heading: start a new page unless a few lines fit.
    BeforeSection,
    AfterSectionHeading,
    AfterItem,
    AfterSection,
}

/// One block of the PDF report: lines of text in one style, or room.
#[derive(Debug, Clone)]
pub enum PdfBlock {
    Text { style: PdfStyle, lines: Vec<String> },
    Space(PdfSpace),
}

pub enum BlockModel {
    Text { style: PdfStyle, lines: Seq<Seq<char>> },
    Space(PdfSpace),
}

impl DeepView for PdfBlock {
    type V = BlockModel;

    open spec fn deep_view(&self) -> BlockModel {
        match self {
            PdfBlock::Text { style, lines } => BlockModel::Text { style: *style, lines: lines.deep_view() },
            PdfBlock::Space(sp) => BlockModel::Space(*sp),
        }
    }
}

pub const PDF_TITLE: &'static str = "NetGuard Scan Report";

pub const PDF_FOOTER: &'static str = "NetGuard is a diagnostic and triage tool, not an antivirus - it does not scan for malware or remove anything.";

/// Characters per line of each wrapped style.
pub open spec fn width_of(style: PdfStyle) -> nat {
    match style {
        PdfStyle::ItemTitle => 90,
        PdfStyle::Finding | PdfStyle::Remediation => 96,
        _ => 100,
    }
}

pub open spec fn one_line(style: PdfStyle, text: Seq<char>) -> BlockModel {
    BlockModel::Text { style, lines: seq![text] }
}

pub open spec fn wrapped(style: PdfStyle, text: Seq<char>) -> BlockModel {
    BlockModel::Text { style, lines: wrap_spec(text, width_of(style)) }
}

/// The badge of an item: its severity's label, or "Skipped".
pub open spec fn badge_text(s: Option<Severity>) -> Seq<char> {
    match s {
        Some(sev) => label_of(sev),
        None => "Skipped"@,
    }
}

pub open spec fn finding_blocks(fs: Seq<(Seq<char>, Seq<char>)>) -> Seq<BlockModel>
    decreases fs.len(),
{
    if fs.len() == 0 {
        seq![]
    } else {
        finding_blocks(fs.drop_last()).push(
            wrapped(PdfStyle::Finding, "- "@ + fs.last().0 + ": "@ + fs.last().1),
        )
    }
}

/// One check of the report: its title, verdict, findings, what to do and
/// data source, then room.
pub open spec fn item_blocks(item: ItemModel) -> Seq<BlockModel> {
    seq![
        wrapped(PdfStyle::ItemTitle, "["@ + badge_text(item.severity) + "] "@ + item.name),
        wrapped(PdfStyle::Verdict, item.verdict),
    ] + finding_blocks(item.findings) + match item.remediation {
        Some(r) => seq![wrapped(PdfStyle::Remediation, "What to do: "@ + r)],
        None => seq![],
    } + match item.data_source {
        Some(d) => seq![wrapped(PdfStyle::DataSource, "Data source: "@ + d)],
        None => seq![],
    } + seq![BlockModel::Space(PdfSpace::AfterItem)]
}

pub open spec fn items_blocks(items: Seq<ItemModel>) -> Seq<BlockModel>
    decreases items.len(),
{
    if items.len() == 0 {
        seq![]
    } else {
        items_blocks(items.drop_last()) + item_blocks(items.last())
    }
}

pub open spec fn section_blocks(s: SectionModel) -> Seq<BlockModel> {
    seq![
        BlockModel::Space(PdfSpace::BeforeSection),
        one_line(PdfStyle::SectionHeading, s.category_label),
        BlockModel::Space(PdfSpace::AfterSectionHeading),
    ] + items_blocks(s.items) + seq![BlockModel::Space(PdfSpace::AfterSection)]
}

pub open spec fn sections_blocks(ss: Seq<SectionModel>) -> Seq<BlockModel>
    decreases ss.len(),
{
    if ss.len() == 0 {
        seq![]
    } else {
        sections_blocks(ss.drop_last()) + section_blocks(ss.last())
    }
}

pub open spec fn overall_line(d: ReportModel) -> Seq<char> {
    "Overall result: "@ + label_of(d.overall_severity) + " - based on "@ + decimal(d.executed_count as nat) + " of "@
        + decimal(d.total_count as nat) + " checks that ran this scan."@
}

pub open spec fn counts_line(d: ReportModel) -> Seq<char> {
    "OK: "@ + decimal(d.ok_count as nat) + "   Caution: "@ + decimal(d.caution_count as nat) + "   At Risk: "@
        + decimal(d.at_risk_count as nat) + "   Skipped: "@ + decimal(d.skipped_count as nat)
}

/// The PDF report: title, time, executive summary, one section per
/// category with its checks, and the footer.
pub open spec fn report_blocks_spec(d: ReportModel) -> Seq<BlockModel> {
    seq![
        one_line(PdfStyle::Title, PDF_TITLE@),
        BlockModel::Space(PdfSpace::AfterTitle),
        one_line(PdfStyle::Generated, "Generated "@ + d.timestamp),
        BlockModel::Space(PdfSpace::AfterGenerated),
        one_line(PdfStyle::SummaryHeading, "Executive summary"@),
        one_line(PdfStyle::Overall, overall_line(d)),
        wrapped(PdfStyle::Explanation, explanation_of(d.overall_severity)),
        one_line(PdfStyle::Counts, counts_line(d)),
        BlockModel::Space(PdfSpace::AfterSummary),
    ] + sections_blocks(d.sections) + seq![one_line(PdfStyle::Footer, PDF_FOOTER@)]
}

fn wrapped_block(style: PdfStyle, text: &str) -> (b: PdfBlock)
    ensures
        b.deep_view() == wrapped(style, text@),
{
    let width: usize = match style {
        PdfStyle::ItemTitle => 90,
        PdfStyle::Finding | PdfStyle::Remediation => 96,
        _ => 100,
    };
    let lines = wrap_text(text, width);
    proof {
        lemma_texts_deep_view(lines);
    }
    PdfBlock::Text { style, lines }
}

fn line_block(style: PdfStyle, text: String) -> (b: PdfBlock)
    ensures
        b.deep_view() == one_line(style, text@),
{
    let lines = vec![text];
    assert(lines.deep_view() =~= seq![text@]);
    PdfBlock::Text { style, lines }
}

fn push_block(blocks: &mut Vec<PdfBlock>, b: PdfBlock)
    ensures
        final(blocks).deep_view() == old(blocks).deep_view().push(b.deep_view()),
{
    let ghost before = blocks.deep_view();
    blocks.push(b);
    assert(blocks.deep_view() =~= before.push(b.deep_view()));
}

fn append_blocks(blocks: &mut Vec<PdfBlock>, more: Vec<PdfBlock>)
    ensures
        final(blocks).deep_view() == old(blocks).deep_view() + more.deep_view(),
{
    let ghost before = blocks.deep_view();
    let ghost extra = more.deep_view();
    let mut more = more;
    blocks.append(&mut more);
    assert(blocks.deep_view() =~= before + extra);
}

/// The blocks of one check of the report.
pub fn report_item_blocks(item: &ReportItem) -> (blocks: Vec<PdfBlock>)
    ensures
        blocks.deep_view() == item_blocks(item.deep_view()),
{
    let ghost it = item.deep_view();
    let badge: &str = match item.severity {
        Some(sev) => severity_label(sev),
        None => "Skipped",
    };
    proof {
        reveal_strlit("Skipped");
    }
    let mut title = concat2("[", badge);
    push_str(&mut title, "] ");
    push_str(&mut title, item.name.as_str());
    let mut blocks: Vec<PdfBlock> = Vec::new();
    push_block(&mut blocks, wrapped_block(PdfStyle::ItemTitle, title.as_str()));
    push_block(&mut blocks, wrapped_block(PdfStyle::Verdict, item.verdict.as_str()));
    let ghost head = blocks.deep_view();
    let ghost fs = it.findings;
    let mut k: usize = 0;
    assert(head + finding_blocks(fs.take(0)) =~= head);
    while k < item.findings.len()
        invariant
            k <= item.findings@.len(),
            fs == item.findings.deep_view(),
            blocks.deep_view() == head + finding_blocks(fs.take(k as int)),
        decreases item.findings@.len() - k,
    {
        assert(fs.take(k + 1).drop_last() =~= fs.take(k as int));
        assert(fs.take(k + 1).last() == fs[k as int]);
        let mut text = concat2("- ", item.findings[k].0.as_str());
        push_str(&mut text, ": ");
        push_str(&mut text, item.findings[k].1.as_str());
        push_block(&mut blocks, wrapped_block(PdfStyle::Finding, text.as_str()));
        assert(blocks.deep_view() =~= head + finding_blocks(fs.take(k + 1)));
        k = k + 1;
    }
    assert(fs.take(k as int) =~= fs);
    let ghost mid = blocks.deep_view();
    match &item.remediation {
        Some(r) => push_block(&mut blocks, wrapped_block(PdfStyle::Remediation, concat2("What to do: ", r.as_str()).as_str())),
        None => {},
    }
    let ghost mid2 = blocks.deep_view();
    match &item.data_source {
        Some(d) => push_block(&mut blocks, wrapped_block(PdfStyle::DataSource, concat2("Data source: ", d.as_str()).as_str())),
        None => {},
    }
    let ghost mid3 = blocks.deep_view();
    push_block(&mut blocks, PdfBlock::Space(PdfSpace::AfterItem));
    assert(mid2 =~= mid + match it.remediation {
        Some(r) => seq![wrapped(PdfStyle::Remediation, "What to do: "@ + r)],
        None => seq![],
    });
    assert(mid3 =~= mid2 + match it.data_source {
        Some(d) => seq![wrapped(PdfStyle::DataSource, "Data source: "@ + d)],
        None => seq![],
    });
    assert(blocks.deep_view() =~= item_blocks(it));
    blocks
}

/// The blocks of one section of the report.
pub fn report_section_blocks(section: &ReportSection) -> (blocks: Vec<PdfBlock>)
    ensures
        blocks.deep_view() == section_blocks(section.deep_view()),
{
    let ghost items = section.items.deep_view();
    let mut blocks: Vec<PdfBlock> = Vec::new();
    push_block(&mut blocks, PdfBlock::Space(PdfSpace::BeforeSection));
    push_block(&mut blocks, line_block(PdfStyle::SectionHeading, String::from_str(section.category_label)));
    push_block(&mut blocks, PdfBlock::Space(PdfSpace::AfterSectionHeading));
    let ghost head = blocks.deep_view();
    let mut k: usize = 0;
    assert(head + items_blocks(items.take(0)) =~= head);
    while k < section.items.len()
        invariant
            k <= section.items@.len(),
            items == section.items.deep_view(),
            blocks.deep_view() == head + items_blocks(items.take(k as int)),
        decreases section.items@.len() - k,
    {
        assert(items.take(k + 1).drop_last() =~= items.take(k as int));
        assert(items.take(k + 1).last() == items[k as int]);
        let more = report_item_blocks(&section.items[k]);
        append_blocks(&mut blocks, more);
        assert(blocks.deep_view() =~= head + items_blocks(items.take(k + 1)));
        k = k + 1;
    }
    assert(items.take(k as int) =~= items);
    push_block(&mut blocks, PdfBlock::Space(PdfSpace::AfterSection));
    assert(blocks.deep_view() =~= section_blocks(section.deep_view()));
    blocks
}

/// The content of the PDF report for prepared report data, as blocks of
/// lines in order; long texts are already word-wrapped.
pub fn report_blocks(data: &ReportData) -> (blocks: Vec<PdfBlock>)
    ensures
        blocks.deep_view() == report_blocks_spec(data.deep_view()),
{
    let ghost d = data.deep_view();
    let mut blocks: Vec<PdfBlock> = Vec::new();
    push_block(&mut blocks, line_block(PdfStyle::Title, String::from_str(PDF_TITLE)));
    push_block(&mut blocks, PdfBlock::Space(PdfSpace::AfterTitle));
    push_block(&mut blocks, line_block(PdfStyle::Generated, concat2("Generated ", data.timestamp.as_str())));
    push_block(&mut blocks, PdfBlock::Space(PdfSpace::AfterGenerated));
    push_block(&mut blocks, line_block(PdfStyle::SummaryHeading, String::from_str("Executive summary")));
    let mut overall = concat2("Overall result: ", severity_label(data.overall_severity));
    push_str(&mut overall, " - based on ");
    push_str(&mut overall, count_string(data.executed_count).as_str());
    push_str(&mut overall, " of ");
    push_str(&mut overall, count_string(data.total_count).as_str());
    push_str(&mut overall, " checks that ran this scan.");
    push_block(&mut blocks, line_block(PdfStyle::Overall, overall));
    push_block(&mut blocks, wrapped_block(PdfStyle::Explanation, overall_explanation(data.overall_severity)));
    let mut counts = concat2("OK: ", count_string(data.ok_count).as_str());
    push_str(&mut counts, "   Caution: ");
    push_str(&mut counts, count_string(data.caution_count).as_str());
    push_str(&mut counts, "   At Risk: ");
    push_str(&mut counts, count_string(data.at_risk_count).as_str());
    push_str(&mut counts, "   Skipped: ");
    push_str(&mut counts, count_string(data.skipped_count).as_str());
    push_block(&mut blocks, line_block(PdfStyle::Counts, counts));
    push_block(&mut blocks, PdfBlock::Space(PdfSpace::AfterSummary));
    let ghost head = blocks.deep_view();
    let ghost ss = d.sections;
    let mut k: usize = 0;
    assert(head + sections_blocks(ss.take(0)) =~= head);
    while k < data.sections.len()
        invariant
            k <= data.sections@.len(),
            ss == data.sections.deep_view(),
            blocks.deep_view() == head + sections_blocks(ss.take(k as int)),
        decreases data.sections@.len() - k,
    {
        assert(ss.take(k + 1).drop_last() =~= ss.take(k as int));
        assert(ss.take(k + 1).last() == ss[k as int]);
        let more = report_section_blocks(&data.sections[k]);
        append_blocks(&mut blocks, more);
        assert(blocks.deep_view() =~= head + sections_blocks(ss.take(k + 1)));
        k = k + 1;
    }
    assert(ss.take(k as int) =~= ss);
    push_block(&mut blocks, line_block(PdfStyle::Footer, String::from_str(PDF_FOOTER)));
    assert(blocks.deep_view() =~= report_blocks_spec(d));
    blocks
}

} // verus!
