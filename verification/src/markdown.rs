//! Markdown rendering model: the source is read by pulldown-cmark into
//! events, and the events are folded into the blocks the component paints
//! (headings, paragraphs, quotes, list items, code blocks and rules).
use vstd::prelude::*;
use pulldown_cmark::{CodeBlockKind, CowStr, Event, Options, Parser, Tag, TagEnd};
use crate::text::{
    chars_of, decimal, push_char, push_decimal, string_from_chars, trim_end_seq, trim_end_vec, trim_seq,
    trim_vec,
};

verus! {

/// The kind of a markdown element, one variant per pulldown-cmark `TagEnd`.
#[derive(Clone, Copy, Debug, PartialEq, Eq, Structural)]
pub enum MdTagKind {
    Paragraph,
    Heading,
    BlockQuote,
    CodeBlock,
    HtmlBlock,
    List,
    Item,
    FootnoteDefinition,
    DefinitionList,
    DefinitionListTitle,
    DefinitionListDefinition,
    Table,
    TableHead,
    TableRow,
    TableCell,
    Emphasis,
    Strong,
    Strikethrough,
    Superscript,
    Subscript,
    Link,
    Image,
    MetadataBlock,
}

/// The start of a markdown element. Headings, code blocks and lists carry
/// the fields the block builder reads: the level, the info string of a
/// fenced block (`None` for an indented one) and the number of an ordered
/// list's first item. Every other element is known by its kind.
#[derive(Clone, Debug)]
pub enum MdTag {
    Heading(usize),
    CodeBlock(Option<String>),
    List(Option<u64>),
    Other(MdTagKind),
}

/// A markdown event, one variant per pulldown-cmark `Event`.
#[derive(Clone, Debug)]
pub enum MdEvent {
    Start(MdTag),
    End(MdTagKind),
    Text(String),
    Code(String),
    InlineMath(String),
    DisplayMath(String),
    Html(String),
    InlineHtml(String),
    FootnoteReference(String),
    SoftBreak,
    HardBreak,
    Rule,
    TaskListMarker(bool),
}

/// The value of an `MdTag`, with strings as character sequences.
pub enum MdTagView {
    Heading(usize),
    CodeBlock(Option<Seq<char>>),
    List(Option<u64>),
    Other(MdTagKind),
}

impl View for MdTag {
    type V = MdTagView;

    open spec fn view(&self) -> MdTagView {
        match self {
            MdTag::Heading(l) => MdTagView::Heading(*l),
            MdTag::CodeBlock(info) => MdTagView::CodeBlock(opt_chars(*info)),
            MdTag::List(n) => MdTagView::List(*n),
            MdTag::Other(k) => MdTagView::Other(*k),
        }
    }
}

/// The value of an `MdEvent`, with strings as character sequences.
pub enum MdEventView {
    Start(MdTagView),
    End(MdTagKind),
    Text(Seq<char>),
    Code(Seq<char>),
    InlineMath(Seq<char>),
    DisplayMath(Seq<char>),
    Html(Seq<char>),
    InlineHtml(Seq<char>),
    FootnoteReference(Seq<char>),
    SoftBreak,
    HardBreak,
    Rule,
    TaskListMarker(bool),
}

impl View for MdEvent {
    type V = MdEventView;

    open spec fn view(&self) -> MdEventView {
        match self {
            MdEvent::Start(t) => MdEventView::Start(t@),
            MdEvent::End(t) => MdEventView::End(*t),
            MdEvent::Text(s) => MdEventView::Text(s@),
            MdEvent::Code(s) => MdEventView::Code(s@),
            MdEvent::InlineMath(s) => MdEventView::InlineMath(s@),
            MdEvent::DisplayMath(s) => MdEventView::DisplayMath(s@),
            MdEvent::Html(s) => MdEventView::Html(s@),
            MdEvent::InlineHtml(s) => MdEventView::InlineHtml(s@),
            MdEvent::FootnoteReference(s) => MdEventView::FootnoteReference(s@),
            MdEvent::SoftBreak => MdEventView::SoftBreak,
            MdEvent::HardBreak => MdEventView::HardBreak,
            MdEvent::Rule => MdEventView::Rule,
            MdEvent::TaskListMarker(b) => MdEventView::TaskListMarker(*b),
        }
    }
}

/// The events pulldown-cmark reads from `source` with tables,
/// strikethrough and task lists enabled, each converted to an `MdEvent`.
pub uninterp spec fn markdown_event_stream(source: Seq<char>) -> Seq<MdEventView>;

/// pulldown-cmark's element start tag, carried through opaque.
#[verifier::external_type_specification]
#[verifier::external_body]
pub struct ExTag<'a>(Tag<'a>);

/// pulldown-cmark's element end tag, carried through opaque.
#[verifier::external_type_specification]
#[verifier::external_body]
pub struct ExTagEnd(TagEnd);

/// pulldown-cmark's string type, carried through opaque.
#[verifier::external_type_specification]
#[verifier::external_body]
pub struct ExCowStr<'a>(CowStr<'a>);

/// pulldown-cmark's event, carried through opaque.
#[verifier::external_type_specification]
#[verifier::external_body]
pub struct ExEvent<'a>(Event<'a>);

/// Converts a pulldown-cmark `Tag`: headings, code blocks and lists with
/// their fields, every other tag by its kind (`Tag::to_end`).
#[verifier::external_body]
fn start_tag(tag: Tag) -> MdTag {
    match tag {
        Tag::Heading { level, .. } => MdTag::Heading(level as usize),
        Tag::CodeBlock(CodeBlockKind::Indented) => MdTag::CodeBlock(None),
        Tag::CodeBlock(CodeBlockKind::Fenced(info)) => MdTag::CodeBlock(Some(owned(info))),
        Tag::List(start) => MdTag::List(start),
        other => MdTag::Other(tag_kind(other.to_end())),
    }
}

/// Converts a pulldown-cmark `TagEnd` to the `MdTagKind` of the same name.
#[verifier::external_body]
fn tag_kind(tag: TagEnd) -> MdTagKind {
    match tag {
        TagEnd::Paragraph => MdTagKind::Paragraph, TagEnd::Heading(_) => MdTagKind::Heading,
        TagEnd::BlockQuote(_) => MdTagKind::BlockQuote, TagEnd::CodeBlock => MdTagKind::CodeBlock,
        TagEnd::HtmlBlock => MdTagKind::HtmlBlock, TagEnd::List(_) => MdTagKind::List,
        TagEnd::Item => MdTagKind::Item, TagEnd::FootnoteDefinition => MdTagKind::FootnoteDefinition,
        TagEnd::DefinitionList => MdTagKind::DefinitionList,
        TagEnd::DefinitionListTitle => MdTagKind::DefinitionListTitle,
        TagEnd::DefinitionListDefinition => MdTagKind::DefinitionListDefinition, TagEnd::Table => MdTagKind::Table,
        TagEnd::TableHead => MdTagKind::TableHead, TagEnd::TableRow => MdTagKind::TableRow,
        TagEnd::TableCell => MdTagKind::TableCell, TagEnd::Emphasis => MdTagKind::Emphasis,
        TagEnd::Strong => MdTagKind::Strong, TagEnd::Strikethrough => MdTagKind::Strikethrough,
        TagEnd::Superscript => MdTagKind::Superscript, TagEnd::Subscript => MdTagKind::Subscript,
        TagEnd::Link => MdTagKind::Link, TagEnd::Image => MdTagKind::Image,
        TagEnd::MetadataBlock(_) => MdTagKind::MetadataBlock,
    }
}

/// Converts pulldown-cmark's `CowStr` to an owned string (`CowStr::into_string`).
#[verifier::external_body]
fn owned(text: CowStr) -> String {
    text.into_string()
}

/// Converts a pulldown-cmark `Event` to the `MdEvent` of the same kind.
#[verifier::external_body]
fn convert_event(event: Event) -> MdEvent {
    match event {
        Event::Start(tag) => MdEvent::Start(start_tag(tag)),
        Event::End(tag) => MdEvent::End(tag_kind(tag)),
        Event::Text(t) => MdEvent::Text(owned(t)),
        Event::Code(t) => MdEvent::Code(owned(t)),
        Event::InlineMath(t) => MdEvent::InlineMath(owned(t)),
        Event::DisplayMath(t) => MdEvent::DisplayMath(owned(t)),
        Event::Html(t) => MdEvent::Html(owned(t)),
        Event::InlineHtml(t) => MdEvent::InlineHtml(owned(t)),
        Event::FootnoteReference(t) => MdEvent::FootnoteReference(owned(t)),
        Event::SoftBreak => MdEvent::SoftBreak, Event::HardBreak => MdEvent::HardBreak,
        Event::Rule => MdEvent::Rule, Event::TaskListMarker(checked) => MdEvent::TaskListMarker(checked),
    }
}

/// Runs `pulldown_cmark::Parser::new_ext` over `source` and converts each
/// event. The contract names the event stream; of it, it states only that
/// a list's first number has at most nine digits (the parser reads at most
/// nine) and that the vector holds at most `isize::MAX` events.
#[verifier::external_body]
pub(crate) fn markdown_events(source: &str) -> (r: Vec<MdEvent>)
    ensures
        r@.map_values(|e: MdEvent| e@) == markdown_event_stream(source@),
        r@.len() <= isize::MAX,
        forall|i: int| 0 <= i < r@.len() ==> (#[trigger] r@[i] matches MdEvent::Start(MdTag::List(Some(n))) ==> n <= 999_999_999),
{
    let options = Options::ENABLE_TABLES | Options::ENABLE_STRIKETHROUGH | Options::ENABLE_TASKLISTS;
    Parser::new_ext(source, options).map(convert_event).collect()
}

/// A block of rendered markdown.
#[derive(Clone, Debug, PartialEq, Eq)]
pub enum MarkdownBlock {
    Heading { level: usize, text: String },
    Paragraph(String),
    Quote(String),
    ListItem { text: String, ordered: bool, number: Option<u64>, checked: Option<bool> },
    CodeBlock { language: Option<String>, code: String },
    Rule,
}

/// The value of a `MarkdownBlock`.
pub enum BlockView {
    Heading { level: usize, text: Seq<char> },
    Paragraph(Seq<char>),
    Quote(Seq<char>),
    ListItem { text: Seq<char>, ordered: bool, number: Option<u64>, checked: Option<bool> },
    CodeBlock { language: Option<Seq<char>>, code: Seq<char> },
    Rule,
}

pub open spec fn opt_chars(o: Option<String>) -> Option<Seq<char>> {
    match o {
        Some(s) => Some(s@),
        None => None,
    }
}

impl View for MarkdownBlock {
    type V = BlockView;

    open spec fn view(&self) -> BlockView {
        match self {
            MarkdownBlock::Heading { level, text } => BlockView::Heading { level: *level, text: text@ },
            MarkdownBlock::Paragraph(t) => BlockView::Paragraph(t@),
            MarkdownBlock::Quote(t) => BlockView::Quote(t@),
            MarkdownBlock::ListItem { text, ordered, number, checked } => BlockView::ListItem {
                text: text@,
                ordered: *ordered,
                number: *number,
                checked: *checked,
            },
            MarkdownBlock::CodeBlock { language, code } => BlockView::CodeBlock { language: opt_chars(*language), code: code@ },
            MarkdownBlock::Rule => BlockView::Rule,
        }
    }
}

/// The kind of block being collected.
pub enum KindView {
    Paragraph,
    Heading(usize),
    Quote,
    ListItem { ordered: bool, number: Option<u64>, checked: Option<bool> },
    CodeBlock(Option<Seq<char>>),
}

/// A block being collected: its kind and the text so far.
pub struct DraftView {
    pub kind: KindView,
    pub text: Seq<char>,
}

/// An open list: the number of its first item (ordered lists) and how many
/// items it has had.
#[derive(Clone, Copy, Debug)]
pub struct ListState {
    pub start: Option<u64>,
    pub index: u64,
}

/// The state of the fold: finished blocks, the block being collected and
/// the open lists, innermost last.
pub struct FoldView {
    pub blocks: Seq<BlockView>,
    pub current: Option<DraftView>,
    pub lists: Seq<ListState>,
}

/// The language of a fenced code block: its info string trimmed, unless
/// that is empty.
pub open spec fn language_of(info: Option<Seq<char>>) -> Option<Seq<char>> {
    match info {
        None => None,
        Some(s) => if trim_seq(s).len() == 0 {
            None
        } else {
            Some(trim_seq(s))
        },
    }
}

/// Closes a draft: its text trimmed (code keeps leading white space), and
/// dropped when nothing is left.
pub open spec fn finish(blocks: Seq<BlockView>, draft: Option<DraftView>) -> Seq<BlockView> {
    match draft {
        None => blocks,
        Some(d) => {
            let text = match d.kind {
                KindView::CodeBlock(_) => trim_end_seq(d.text),
                _ => trim_seq(d.text),
            };
            if text.len() == 0 {
                blocks
            } else {
                blocks.push(
                    match d.kind {
                        KindView::Paragraph => BlockView::Paragraph(text),
                        KindView::Heading(level) => BlockView::Heading { level, text },
                        KindView::Quote => BlockView::Quote(text),
                        KindView::ListItem { ordered, number, checked } => BlockView::ListItem { text, ordered, number, checked },
                        KindView::CodeBlock(language) => BlockView::CodeBlock { language, code: text },
                    },
                )
            }
        },
    }
}

pub open spec fn empty_draft(kind: KindView) -> DraftView {
    DraftView { kind, text: Seq::empty() }
}

/// Adds `t` to the draft, opening a paragraph when none is open.
pub open spec fn with_text(current: Option<DraftView>, t: Seq<char>) -> Option<DraftView> {
    match current {
        Some(d) => Some(DraftView { text: d.text + t, ..d }),
        None => Some(DraftView { kind: KindView::Paragraph, text: t }),
    }
}

/// The draft after the start of an element: paragraphs open when no block
/// is open; headings, quotes, code blocks and list items open a block of
/// their own; lists are pushed; the other elements change nothing.
pub open spec fn start_step(s: FoldView, tag: MdTagView) -> FoldView {
    match tag {
        MdTagView::Other(MdTagKind::Paragraph) => if s.current is None {
            FoldView { current: Some(empty_draft(KindView::Paragraph)), ..s }
        } else {
            s
        },
        MdTagView::Heading(level) => FoldView { current: Some(empty_draft(KindView::Heading(level))), ..s },
        MdTagView::Other(MdTagKind::BlockQuote) => FoldView { current: Some(empty_draft(KindView::Quote)), ..s },
        MdTagView::CodeBlock(info) => FoldView { current: Some(empty_draft(KindView::CodeBlock(language_of(info)))), ..s },
        MdTagView::List(start) => FoldView { lists: s.lists.push(ListState { start, index: 0 }), ..s },
        MdTagView::Other(MdTagKind::Item) => if s.lists.len() > 0 {
            let l = s.lists.last();
            let number: Option<u64> = match l.start {
                Some(n) => Some((n + l.index) as u64),
                None => None,
            };
            FoldView {
                current: Some(empty_draft(KindView::ListItem { ordered: l.start is Some, number, checked: None })),
                lists: s.lists.update(s.lists.len() - 1, ListState { index: (l.index + 1) as u64, ..l }),
                ..s
            }
        } else {
            FoldView { current: Some(empty_draft(KindView::ListItem { ordered: false, number: None, checked: None })), ..s }
        },
        _ => s,
    }
}

/// The draft after the end of an element: a paragraph's end closes an open
/// paragraph; the ends of headings, quotes, code blocks and items close the
/// open block; a list's end pops it; the other ends change nothing.
pub open spec fn end_step(s: FoldView, tag: MdTagKind) -> FoldView {
    match tag {
        MdTagKind::Paragraph => if s.current matches Some(d) && d.kind is Paragraph {
            FoldView { blocks: finish(s.blocks, s.current), current: None, ..s }
        } else {
            s
        },
        MdTagKind::Heading | MdTagKind::BlockQuote | MdTagKind::CodeBlock | MdTagKind::Item => FoldView {
            blocks: finish(s.blocks, s.current),
            current: None,
            ..s
        },
        MdTagKind::List => FoldView { lists: if s.lists.len() > 0 { s.lists.drop_last() } else { s.lists }, ..s },
        _ => s,
    }
}

/// Inline code or math as it is shown: between backticks.
pub open spec fn code_text(c: Seq<char>) -> Seq<char> {
    seq!['`'] + c + seq!['`']
}

/// One event of the fold. Text, HTML and inline HTML add their text; code
/// and math add it between backticks; a footnote reference adds `[^label]`;
/// soft and hard breaks add a line break.
pub open spec fn step(s: FoldView, e: MdEventView) -> FoldView {
    match e {
        MdEventView::Start(tag) => start_step(s, tag),
        MdEventView::End(tag) => end_step(s, tag),
        MdEventView::Text(t) => FoldView { current: with_text(s.current, t), ..s },
        MdEventView::Html(t) => FoldView { current: with_text(s.current, t), ..s },
        MdEventView::InlineHtml(t) => FoldView { current: with_text(s.current, t), ..s },
        MdEventView::Code(c) => FoldView { current: with_text(s.current, code_text(c)), ..s },
        MdEventView::InlineMath(c) => FoldView { current: with_text(s.current, code_text(c)), ..s },
        MdEventView::DisplayMath(c) => FoldView { current: with_text(s.current, code_text(c)), ..s },
        MdEventView::FootnoteReference(r) => FoldView { current: with_text(s.current, seq!['[', '^'] + r + seq![']']), ..s },
        MdEventView::SoftBreak => FoldView { current: with_text(s.current, seq!['\n']), ..s },
        MdEventView::HardBreak => FoldView { current: with_text(s.current, seq!['\n']), ..s },
        MdEventView::Rule => FoldView { blocks: s.blocks.push(BlockView::Rule), ..s },
        MdEventView::TaskListMarker(checked) => match s.current {
            Some(d) => match d.kind {
                KindView::ListItem { ordered, number, checked: _ } => FoldView {
                    current: Some(DraftView { kind: KindView::ListItem { ordered, number, checked: Some(checked) }, ..d }),
                    ..s
                },
                _ => s,
            },
            None => s,
        },
    }
}

/// The fold over `events`, from no blocks, no draft and no open list.
pub open spec fn fold_events(events: Seq<MdEventView>) -> FoldView
    decreases events.len(),
{
    if events.len() == 0 {
        FoldView { blocks: Seq::empty(), current: None, lists: Seq::empty() }
    } else {
        step(fold_events(events.drop_last()), events.last())
    }
}

/// The blocks of an event stream: the fold, with the last draft closed.
pub open spec fn blocks_of_events(events: Seq<MdEventView>) -> Seq<BlockView> {
    let s = fold_events(events);
    finish(s.blocks, s.current)
}

/// The events number list items without overflow: every list's first
/// number has at most nine digits and there are at most `isize::MAX` events.
pub open spec fn numbering_fits(events: Seq<MdEventView>) -> bool {
    &&& events.len() <= isize::MAX
    &&& forall|i: int| 0 <= i < events.len() ==> (#[trigger] events[i] matches MdEventView::Start(MdTagView::List(Some(n))) ==> n <= 999_999_999)
}

/// The kind of block being collected.
#[derive(Clone, Debug)]
pub enum BlockKind {
    Paragraph,
    Heading(usize),
    Quote,
    ListItem { ordered: bool, number: Option<u64>, checked: Option<bool> },
    CodeBlock(Option<String>),
}

impl View for BlockKind {
    type V = KindView;

    open spec fn view(&self) -> KindView {
        match self {
            BlockKind::Paragraph => KindView::Paragraph,
            BlockKind::Heading(l) => KindView::Heading(*l),
            BlockKind::Quote => KindView::Quote,
            BlockKind::ListItem { ordered, number, checked } => KindView::ListItem {
                ordered: *ordered,
                number: *number,
                checked: *checked,
            },
            BlockKind::CodeBlock(language) => KindView::CodeBlock(opt_chars(*language)),
        }
    }
}

/// A block being collected.
#[derive(Clone, Debug)]
pub struct BlockDraft {
    pub kind: BlockKind,
    pub text: String,
}

pub open spec fn draft_view(d: Option<BlockDraft>) -> Option<DraftView> {
    match d {
        Some(d) => Some(DraftView { kind: d.kind@, text: d.text@ }),
        None => None,
    }
}

pub open spec fn blocks_view(b: Seq<MarkdownBlock>) -> Seq<BlockView> {
    b.map_values(|x: MarkdownBlock| x@)
}

pub open spec fn events_view(e: Seq<MdEvent>) -> Seq<MdEventView> {
    e.map_values(|x: MdEvent| x@)
}

fn new_draft(kind: BlockKind) -> (r: BlockDraft)
    ensures
        r.kind == kind,
        r.text@ == Seq::<char>::empty(),
{
    BlockDraft { kind, text: String::new() }
}

/// Closes a draft into `blocks`.
fn finish_block(blocks: &mut Vec<MarkdownBlock>, draft: Option<BlockDraft>)
    ensures
        blocks_view(final(blocks)@) == finish(blocks_view(old(blocks)@), draft_view(draft)),
{
    let d = match draft {
        Some(d) => d,
        None => {
            return;
        },
    };
    let raw = chars_of(d.text.as_str());
    let trimmed = match &d.kind {
        BlockKind::CodeBlock(_) => trim_end_vec(&raw),
        _ => trim_vec(&raw),
    };
    if trimmed.len() == 0 {
        return;
    }
    let text = string_from_chars(&trimmed);
    let block = match d.kind {
        BlockKind::Paragraph => MarkdownBlock::Paragraph(text),
        BlockKind::Heading(level) => MarkdownBlock::Heading { level, text },
        BlockKind::Quote => MarkdownBlock::Quote(text),
        BlockKind::ListItem { ordered, number, checked } => MarkdownBlock::ListItem { text, ordered, number, checked },
        BlockKind::CodeBlock(language) => MarkdownBlock::CodeBlock { language, code: text },
    };
    let ghost before = blocks_view(blocks@);
    blocks.push(block);
    assert(blocks_view(blocks@) =~= before.push(block@));
}

/// Adds `t` to the draft, opening a paragraph when none is open.
fn append_text(current: &mut Option<BlockDraft>, t: &str)
    ensures
        draft_view(*final(current)) == with_text(draft_view(*old(current)), t@),
{
    match current {
        Some(d) => {
            d.text.append(t);
        },
        None => {
            *current = Some(BlockDraft { kind: BlockKind::Paragraph, text: String::from_str(t) });
        },
    }
}


/// The language of a fenced code block.
fn language(info: &Option<String>) -> (r: Option<String>)
    ensures
        opt_chars(r) == language_of(opt_chars(*info)),
{
    match info {
        None => None,
        Some(s) => {
            let t = trim_vec(&chars_of(s.as_str()));
            if t.len() == 0 {
                None
            } else {
                Some(string_from_chars(&t))
            }
        },
    }
}

proof fn lemma_with_text_twice(c: Option<DraftView>, a: Seq<char>, b: Seq<char>)
    ensures
        with_text(with_text(c, a), b) == with_text(c, a + b),
{
    match c {
        Some(d) => {
            assert(d.text + a + b =~= d.text + (a + b));
        },
        None => {},
    }
}

/// Every open list has a first number of at most nine digits and has had
/// at most `bound` items.
pub open spec fn lists_bounded(lists: Seq<ListState>, bound: int) -> bool {
    forall|k: int| 0 <= k < lists.len() ==> (#[trigger] lists[k]).index <= bound && (lists[k].start matches Some(n) ==> n <= 999_999_999)
}

/// Folds markdown events into blocks.
pub fn blocks_from_events(events: &Vec<MdEvent>) -> (r: Vec<MarkdownBlock>)
    requires
        numbering_fits(events_view(events@)),
    ensures
        blocks_view(r@) == blocks_of_events(events_view(events@)),
{
    let ghost ev = events_view(events@);
    let mut blocks: Vec<MarkdownBlock> = Vec::new();
    let mut current: Option<BlockDraft> = None;
    let mut lists: Vec<ListState> = Vec::new();
    let mut i: usize = 0;
    while i < events.len()
        invariant
            i <= events.len(),
            ev == events_view(events@),
            numbering_fits(ev),
            blocks_view(blocks@) == fold_events(ev.take(i as int)).blocks,
            draft_view(current) == fold_events(ev.take(i as int)).current,
            lists@ == fold_events(ev.take(i as int)).lists,
            lists_bounded(lists@, i as int),
        decreases events.len() - i,
    {
        proof {
            assert(ev.take(i + 1).drop_last() =~= ev.take(i as int));
            assert(ev.take(i + 1).last() == events@[i as int]@);
        }
        let ghost before_blocks = blocks_view(blocks@);
        match &events[i] {
            MdEvent::Start(tag) => match tag {
                MdTag::Other(MdTagKind::Paragraph) => {
                    if current.is_none() {
                        current = Some(new_draft(BlockKind::Paragraph));
                    }
                },
                MdTag::Heading(level) => {
                    current = Some(new_draft(BlockKind::Heading(*level)));
                },
                MdTag::Other(MdTagKind::BlockQuote) => {
                    current = Some(new_draft(BlockKind::Quote));
                },
                MdTag::CodeBlock(info) => {
                    current = Some(new_draft(BlockKind::CodeBlock(language(info))));
                },
                MdTag::List(start) => {
                    proof {
                        assert(ev[i as int] == events@[i as int]@);
                    }
                    lists.push(ListState { start: *start, index: 0 });
                },
                MdTag::Other(MdTagKind::Item) => {
                    if lists.len() > 0 {
                        let last = lists.len() - 1;
                        let l = lists[last];
                        let number = match l.start {
                            Some(n) => Some(n + l.index),
                            None => None,
                        };
                        current = Some(new_draft(BlockKind::ListItem { ordered: l.start.is_some(), number, checked: None }));
                        lists.set(last, ListState { index: l.index + 1, ..l });
                    } else {
                        current = Some(new_draft(BlockKind::ListItem { ordered: false, number: None, checked: None }));
                    }
                },
                _ => {},
            },
            MdEvent::End(tag) => match tag {
                MdTagKind::Paragraph => {
                    let is_paragraph = match &current {
                        Some(d) => match d.kind {
                            BlockKind::Paragraph => true,
                            _ => false,
                        },
                        None => false,
                    };
                    if is_paragraph {
                        let d = current;
                        current = None;
                        finish_block(&mut blocks, d);
                    }
                },
                MdTagKind::Heading | MdTagKind::BlockQuote | MdTagKind::CodeBlock | MdTagKind::Item => {
                    let d = current;
                    current = None;
                    finish_block(&mut blocks, d);
                },
                MdTagKind::List => {
                    if lists.len() > 0 {
                        lists.pop();
                    }
                },
                _ => {},
            },
            MdEvent::Text(t) | MdEvent::Html(t) | MdEvent::InlineHtml(t) => {
                append_text(&mut current, t.as_str());
            },
            MdEvent::Code(c) | MdEvent::InlineMath(c) | MdEvent::DisplayMath(c) => {
                let ghost c0 = draft_view(current);
                append_text(&mut current, "`");
                append_text(&mut current, c.as_str());
                append_text(&mut current, "`");
                proof {
                    reveal_strlit("`");
                    lemma_with_text_twice(c0, "`"@, c@);
                    lemma_with_text_twice(c0, "`"@ + c@, "`"@);
                    assert(code_text(c@) =~= "`"@ + c@ + "`"@);
                }
            },
            MdEvent::FootnoteReference(r) => {
                let ghost c0 = draft_view(current);
                append_text(&mut current, "[^");
                append_text(&mut current, r.as_str());
                append_text(&mut current, "]");
                proof {
                    reveal_strlit("[^");
                    reveal_strlit("]");
                    lemma_with_text_twice(c0, "[^"@, r@);
                    lemma_with_text_twice(c0, "[^"@ + r@, "]"@);
                    assert(seq!['[', '^'] + r@ + seq![']'] =~= "[^"@ + r@ + "]"@);
                }
            },
            MdEvent::SoftBreak | MdEvent::HardBreak => {
                append_text(&mut current, "\n");
                proof {
                    reveal_strlit("\n");
                    assert("\n"@ =~= seq!['\n']);
                }
            },
            MdEvent::Rule => {
                blocks.push(MarkdownBlock::Rule);
                proof {
                    assert(blocks_view(blocks@) =~= before_blocks.push(BlockView::Rule));
                }
            },
            MdEvent::TaskListMarker(checked) => {
                match &mut current {
                    Some(d) => match &mut d.kind {
                        BlockKind::ListItem { checked: item_checked, .. } => {
                            *item_checked = Some(*checked);
                        },
                        _ => {},
                    },
                    None => {},
                }
            },
        }
        i = i + 1;
    }
    proof {
        assert(ev.take(events.len() as int) =~= ev);
    }
    let d = current;
    finish_block(&mut blocks, d);
    blocks
}

/// The blocks of a markdown source.
pub fn parse_markdown_blocks(source: &str) -> (r: Vec<MarkdownBlock>)
    ensures
        blocks_view(r@) == blocks_of_events(markdown_event_stream(source@)),
{
    let events = markdown_events(source);
    proof {
        let ev = events_view(events@);
        assert forall|i: int| 0 <= i < ev.len() implies (#[trigger] ev[i] matches MdEventView::Start(MdTagView::List(Some(n))) ==> n <= 999_999_999) by {
            assert(ev[i] == events@[i]@);
        }
    }
    blocks_from_events(&events)
}

/// The text a block holds; empty for a rule.
pub open spec fn block_text(b: BlockView) -> Seq<char> {
    match b {
        BlockView::Heading { text, .. } => text,
        BlockView::Paragraph(t) => t,
        BlockView::Quote(t) => t,
        BlockView::ListItem { text, .. } => text,
        BlockView::CodeBlock { code, .. } => code,
        BlockView::Rule => Seq::empty(),
    }
}

/// Every block but a rule holds some text.
pub open spec fn blocks_hold_text(bs: Seq<BlockView>) -> bool {
    forall|k: int| 0 <= k < bs.len() ==> (#[trigger] bs[k] is Rule || block_text(bs[k]).len() > 0)
}

proof fn lemma_finish_holds_text(bs: Seq<BlockView>, d: Option<DraftView>)
    requires
        blocks_hold_text(bs),
    ensures
        blocks_hold_text(finish(bs, d)),
{
    let r = finish(bs, d);
    assert forall|k: int| 0 <= k < r.len() implies (#[trigger] r[k] is Rule || block_text(r[k]).len() > 0) by {
        if k < bs.len() {
            assert(r[k] == bs[k]);
        }
    }
}

proof fn lemma_fold_holds_text(events: Seq<MdEventView>)
    ensures
        blocks_hold_text(fold_events(events).blocks),
    decreases events.len(),
{
    if events.len() > 0 {
        let prev = fold_events(events.drop_last());
        lemma_fold_holds_text(events.drop_last());
        lemma_finish_holds_text(prev.blocks, prev.current);
        let r = fold_events(events).blocks;
        if events.last() is Rule {
            assert forall|k: int| 0 <= k < r.len() implies (#[trigger] r[k] is Rule || block_text(r[k]).len() > 0) by {
                if k < prev.blocks.len() {
                    assert(r[k] == prev.blocks[k]);
                }
            }
        }
    }
}

/// The rendered blocks never hold an empty heading, paragraph, quote,
/// list item or code block: drafts whose trimmed text is empty are dropped.
pub proof fn lemma_blocks_hold_text(events: Seq<MdEventView>)
    ensures
        blocks_hold_text(blocks_of_events(events)),
{
    lemma_fold_holds_text(events);
    let s = fold_events(events);
    lemma_finish_holds_text(s.blocks, s.current);
}

/// A task box marks the list item it stands in: after a task-list marker
/// `b` on an open list item, more text and the item's end, the last block
/// is that item with its checked flag `Some(b)`, so an unchecked box stays
/// unchecked and a checked one stays checked.
pub proof fn lemma_task_marker_checks_item(events: Seq<MdEventView>, b: bool, t: Seq<char>)
    requires
        fold_events(events).current matches Some(d) && d.kind is ListItem
            && trim_seq(d.text + t).len() > 0,
    ensures
        ({
            let d = fold_events(events).current->0;
            let all = events.push(MdEventView::TaskListMarker(b)).push(MdEventView::Text(t)).push(
                MdEventView::End(MdTagKind::Item),
            );
            let bs = blocks_of_events(all);
            &&& bs.len() == fold_events(events).blocks.len() + 1
            &&& bs.last() matches BlockView::ListItem { text, ordered, number, checked }
            &&& checked == Some(b)
            &&& text == trim_seq(d.text + t)
            &&& d.kind matches KindView::ListItem { ordered: o, number: n, .. } && ordered == o && number == n
        }),
{
    let e1 = events.push(MdEventView::TaskListMarker(b));
    let e2 = e1.push(MdEventView::Text(t));
    let e3 = e2.push(MdEventView::End(MdTagKind::Item));
    assert(e1.drop_last() =~= events);
    assert(e2.drop_last() =~= e1);
    assert(e3.drop_last() =~= e2);
    assert(fold_events(e3) == step(fold_events(e2), MdEventView::End(MdTagKind::Item)));
    assert(fold_events(e2) == step(fold_events(e1), MdEventView::Text(t)));
    assert(fold_events(e1) == step(fold_events(events), MdEventView::TaskListMarker(b)));
}

/// An ordered list starting at `n` numbers its first item `n`.
pub proof fn lemma_ordered_list_starts_at_its_number(events: Seq<MdEventView>, n: u64)
    ensures
        ({
            let first = events.push(MdEventView::Start(MdTagView::List(Some(n)))).push(
                MdEventView::Start(MdTagView::Other(MdTagKind::Item)),
            );
            fold_events(first).current matches Some(d) && d.kind matches KindView::ListItem { ordered, number, .. }
                && ordered && number == Some(n)
        }),
{
    let l = events.push(MdEventView::Start(MdTagView::List(Some(n))));
    let first = l.push(MdEventView::Start(MdTagView::Other(MdTagKind::Item)));
    assert(l.drop_last() =~= events);
    assert(first.drop_last() =~= l);
    assert(fold_events(l) == step(fold_events(events), MdEventView::Start(MdTagView::List(Some(n)))));
    assert(fold_events(first) == step(fold_events(l), MdEventView::Start(MdTagView::Other(MdTagKind::Item))));
}

/// In an ordered list, each next item is numbered one more than the item
/// before it.
pub proof fn lemma_ordered_items_count_up(events: Seq<MdEventView>)
    requires
        fold_events(events).lists.len() > 0,
        fold_events(events).lists.last().start is Some,
        fold_events(events).lists.last().start->0 + fold_events(events).lists.last().index + 1 <= u64::MAX,
    ensures
        ({
            let a = events.push(MdEventView::Start(MdTagView::Other(MdTagKind::Item)));
            let b = a.push(MdEventView::End(MdTagKind::Item)).push(MdEventView::Start(MdTagView::Other(MdTagKind::Item)));
            &&& fold_events(a).current matches Some(d) && d.kind matches KindView::ListItem { ordered, number, .. }
                && ordered && number is Some
            &&& fold_events(b).current matches Some(e) && e.kind matches KindView::ListItem { ordered, number, .. }
                && ordered && number is Some
            &&& fold_events(b).current->0.kind->number->0 == fold_events(a).current->0.kind->number->0 + 1
        }),
{
    let a = events.push(MdEventView::Start(MdTagView::Other(MdTagKind::Item)));
    let a2 = a.push(MdEventView::End(MdTagKind::Item));
    let b = a2.push(MdEventView::Start(MdTagView::Other(MdTagKind::Item)));
    assert(a.drop_last() =~= events);
    assert(a2.drop_last() =~= a);
    assert(b.drop_last() =~= a2);
    assert(fold_events(a) == step(fold_events(events), MdEventView::Start(MdTagView::Other(MdTagKind::Item))));
    assert(fold_events(a2) == step(fold_events(a), MdEventView::End(MdTagKind::Item)));
    assert(fold_events(b) == step(fold_events(a2), MdEventView::Start(MdTagView::Other(MdTagKind::Item))));
}

/// The marker drawn before a list item: a check box for task items, the
/// number (1 when unknown) for ordered items, a dash otherwise.
pub open spec fn list_marker_seq(ordered: bool, number: Option<u64>, checked: Option<bool>) -> Seq<char> {
    match checked {
        Some(true) => "[x]"@,
        Some(false) => "[ ]"@,
        None => if ordered {
            decimal(
                match number {
                    Some(n) => n as nat,
                    None => 1,
                },
            ).push('.')
        } else {
            "-"@
        },
    }
}

pub fn list_marker(ordered: bool, number: Option<u64>, checked: Option<bool>) -> (r: String)
    ensures
        r@ == list_marker_seq(ordered, number, checked),
{
    if let Some(checked) = checked {
        return if checked {
            String::from_str("[x]")
        } else {
            String::from_str("[ ]")
        };
    }
    if ordered {
        let mut s = String::new();
        let n = match number {
            Some(n) => n,
            None => 1,
        };
        push_decimal(&mut s, n);
        push_char(&mut s, '.');
        assert(s@ =~= decimal(n as nat).push('.'));
        s
    } else {
        String::from_str("-")
    }
}

/// A block of markdown text drawn as headings, paragraphs, quotes, lists,
/// code and rules.
#[derive(Clone, Debug)]
pub struct Markdown {
    pub source: String,
    pub selectable: bool,
}

impl Markdown {
    /// Markdown whose text can be selected.
    pub fn new(source: &str) -> (r: Self)
        ensures
            r.source@ == source@,
            r.selectable,
    {
        Markdown { source: String::from_str(source), selectable: true }
    }

    pub fn selectable(self, selectable: bool) -> (r: Self)
        ensures
            r.source == self.source,
            r.selectable == selectable,
    {
        Markdown { selectable, ..self }
    }

    /// The blocks the widget draws, in order.
    pub fn blocks(&self) -> (r: Vec<MarkdownBlock>)
        ensures
            blocks_view(r@) == blocks_of_events(markdown_event_stream(self.source@)),
    {
        parse_markdown_blocks(self.source.as_str())
    }
}

} // verus!
