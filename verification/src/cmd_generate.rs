//! The generate command: documentation files for the whole command tree.
//!
//! The surrounding program turns its argument-parser definition into an
//! `AppNode` tree and renders the produced markdown events with its
//! markdown library; what to emit for each command and argument is decided
//! here.

use vstd::prelude::*;

use crate::text::{chars_to_string, push_str_chars};

verus! {

/// One argument of a command, as the documentation describes it.
pub struct ArgInfo {
    /// The argument's value name.
    pub name: String,
    /// Its one-letter flag, if any.
    pub short: Option<char>,
    /// Its long flag, if any.
    pub long: Option<String>,
    /// Whether the argument takes a value.
    pub takes_value: bool,
    /// Its help text, if any.
    pub help: Option<String>,
}

/// One command with its arguments and nested subcommands.
pub struct AppNode {
    /// The command's name.
    pub name: String,
    /// The command's summary, if any.
    pub about: Option<String>,
    /// The command's arguments.
    pub args: Vec<ArgInfo>,
    /// The nested subcommands.
    pub subcommands: Vec<AppNode>,
}

/// A markdown heading level.
#[derive(PartialEq, Eq, Structural, Clone, Copy, Debug)]
pub enum HeadingLevel {
    /// Level-one heading.
    H1,
    /// Level-two heading.
    H2,
    /// Level-three heading.
    H3,
    /// Level-four heading.
    H4,
    /// Level-five heading.
    H5,
    /// Level-six heading.
    H6,
}

/// The heading level of a nesting depth of one through six.
pub open spec fn heading_level_spec(item: int) -> HeadingLevel {
    if item == 1 {
        HeadingLevel::H1
    } else if item == 2 {
        HeadingLevel::H2
    } else if item == 3 {
        HeadingLevel::H3
    } else if item == 4 {
        HeadingLevel::H4
    } else if item == 5 {
        HeadingLevel::H5
    } else {
        HeadingLevel::H6
    }
}

/// The heading level for a nesting depth of one through six.
pub fn to_heading_level(item: i32) -> (r: HeadingLevel)
    requires
        1 <= item <= 6,
    ensures
        r == heading_level_spec(item as int),
{
    match item {
        1 => HeadingLevel::H1,
        2 => HeadingLevel::H2,
        3 => HeadingLevel::H3,
        4 => HeadingLevel::H4,
        5 => HeadingLevel::H5,
        _ => HeadingLevel::H6,
    }
}

/// One markdown event; the surrounding program renders these in order.
pub enum MdEvent {
    /// A heading opens.
    HeadingStart(HeadingLevel),
    /// A heading closes.
    HeadingEnd(HeadingLevel),
    /// Literal text.
    Text(String),
    /// A paragraph opens.
    ParagraphStart,
    /// A paragraph closes.
    ParagraphEnd,
    /// A list opens.
    ListStart,
    /// A list closes.
    ListEnd,
    /// A list item opens.
    ItemStart,
    /// A list item closes.
    ItemEnd,
    /// An indented code block opens.
    CodeBlockStart,
    /// An indented code block closes.
    CodeBlockEnd,
}

/// The mathematical value of one markdown event: text as a sequence of
/// characters.
pub enum MdEventView {
    /// A heading opens.
    HeadingStart(HeadingLevel),
    /// A heading closes.
    HeadingEnd(HeadingLevel),
    /// Literal text.
    Text(Seq<char>),
    /// A paragraph opens.
    ParagraphStart,
    /// A paragraph closes.
    ParagraphEnd,
    /// A list opens.
    ListStart,
    /// A list closes.
    ListEnd,
    /// A list item opens.
    ItemStart,
    /// A list item closes.
    ItemEnd,
    /// An indented code block opens.
    CodeBlockStart,
    /// An indented code block closes.
    CodeBlockEnd,
}

impl View for MdEvent {
    type V = MdEventView;

    open spec fn view(&self) -> MdEventView {
        match self {
            MdEvent::HeadingStart(l) => MdEventView::HeadingStart(*l),
            MdEvent::HeadingEnd(l) => MdEventView::HeadingEnd(*l),
            MdEvent::Text(t) => MdEventView::Text(t@),
            MdEvent::ParagraphStart => MdEventView::ParagraphStart,
            MdEvent::ParagraphEnd => MdEventView::ParagraphEnd,
            MdEvent::ListStart => MdEventView::ListStart,
            MdEvent::ListEnd => MdEventView::ListEnd,
            MdEvent::ItemStart => MdEventView::ItemStart,
            MdEvent::ItemEnd => MdEventView::ItemEnd,
            MdEvent::CodeBlockStart => MdEventView::CodeBlockStart,
            MdEvent::CodeBlockEnd => MdEventView::CodeBlockEnd,
        }
    }
}

/// The values of a sequence of events, in order.
pub open spec fn events_view(s: Seq<MdEvent>) -> Seq<MdEventView> {
    s.map(|i: int, e: MdEvent| e@)
}

/// The three events of a heading.
pub open spec fn heading_events(text: Seq<char>, level: HeadingLevel) -> Seq<MdEventView> {
    seq![
        MdEventView::HeadingStart(level),
        MdEventView::Text(text),
        MdEventView::HeadingEnd(level),
    ]
}

/// The three events of a paragraph.
pub open spec fn paragraph_events(text: Seq<char>) -> Seq<MdEventView> {
    seq![MdEventView::ParagraphStart, MdEventView::Text(text), MdEventView::ParagraphEnd]
}

/// A markdown document under construction: its events, in order.
pub struct MarkdownDocument {
    /// The events emitted so far.
    pub events: Vec<MdEvent>,
}

impl MarkdownDocument {
    /// Appends a heading with the given text.
    pub fn header(&mut self, text: &str, level: HeadingLevel)
        ensures
            events_view(final(self).events@) == events_view(old(self).events@) + heading_events(
                text@,
                level,
            ),
            final(self).events@.len() == old(self).events@.len() + 3,
            final(self).events@[old(self).events@.len() as int] == MdEvent::HeadingStart(level),
            (final(self).events@[old(self).events@.len() as int + 1] matches MdEvent::Text(t) && t@
                == text@),
            final(self).events@[old(self).events@.len() as int + 2] == MdEvent::HeadingEnd(level),
            final(self).events@.subrange(0, old(self).events@.len() as int) == old(self).events@,
    {
        let ghost n = self.events@.len();
        self.events.push(MdEvent::HeadingStart(level));
        self.events.push(MdEvent::Text(String::from_str(text)));
        self.events.push(MdEvent::HeadingEnd(level));
        assert(final(self).events@.subrange(0, n as int) =~= old(self).events@);
        assert(events_view(self.events@) =~= events_view(old(self).events@) + heading_events(
            text@,
            level,
        ));
    }

    /// Appends a paragraph with the given text.
    pub fn paragraph(&mut self, text: &str)
        ensures
            events_view(final(self).events@) == events_view(old(self).events@) + paragraph_events(
                text@,
            ),
            final(self).events@.len() == old(self).events@.len() + 3,
            final(self).events@[old(self).events@.len() as int] == MdEvent::ParagraphStart,
            (final(self).events@[old(self).events@.len() as int + 1] matches MdEvent::Text(t) && t@
                == text@),
            final(self).events@[old(self).events@.len() as int + 2] == MdEvent::ParagraphEnd,
            final(self).events@.subrange(0, old(self).events@.len() as int) == old(self).events@,
    {
        let ghost n = self.events@.len();
        self.events.push(MdEvent::ParagraphStart);
        self.events.push(MdEvent::Text(String::from_str(text)));
        self.events.push(MdEvent::ParagraphEnd);
        assert(final(self).events@.subrange(0, n as int) =~= old(self).events@);
        assert(events_view(self.events@) =~= events_view(old(self).events@) + paragraph_events(
            text@,
        ));
    }
}

/// The flag definition shown for an argument: the short flag, the long
/// flag, and the value name, in that fixed shape.
pub open spec fn arg_def_spec(a: ArgInfo) -> Seq<char> {
    (match a.short {
        Option::Some(c) => seq!['-', c],
        Option::None => Seq::<char>::empty(),
    }) + (match a.long {
        Option::Some(l) => (if a.short is Some {
            seq!['/']
        } else {
            Seq::<char>::empty()
        }) + "--"@ + l@,
        Option::None => Seq::<char>::empty(),
    }) + (if a.takes_value {
        "=<"@ + a.name@ + ">"@
    } else {
        Seq::<char>::empty()
    })
}

/// Builds the flag definition shown for an argument.
pub fn arg_def(a: &ArgInfo) -> (r: String)
    ensures
        r@ == arg_def_spec(*a),
{
    let mut buf: Vec<char> = Vec::new();
    match &a.short {
        Some(c) => {
            buf.push('-');
            buf.push(*c);
        },
        None => {},
    }
    match &a.long {
        Some(l) => {
            if a.short.is_some() {
                buf.push('/');
            }
            push_str_chars(&mut buf, "--");
            push_str_chars(&mut buf, l.as_str());
        },
        None => {},
    }
    if a.takes_value {
        push_str_chars(&mut buf, "=<");
        push_str_chars(&mut buf, a.name.as_str());
        push_str_chars(&mut buf, ">");
    }
    assert(buf@ =~= arg_def_spec(*a));
    chars_to_string(&buf)
}

/// The help text shown beside an argument's definition: the help, behind a
/// separating colon when a flag was shown.
pub open spec fn arg_text_spec(a: ArgInfo) -> Seq<char> {
    match a.help {
        Option::Some(h) => (if a.short is Some || a.long is Some {
            ": "@
        } else {
            Seq::<char>::empty()
        }) + h@,
        Option::None => Seq::<char>::empty(),
    }
}

/// Builds the help text shown beside an argument's definition.
pub fn arg_text(a: &ArgInfo) -> (r: String)
    ensures
        r@ == arg_text_spec(*a),
{
    let mut buf: Vec<char> = Vec::new();
    match &a.help {
        Some(h) => {
            if a.short.is_some() || a.long.is_some() {
                push_str_chars(&mut buf, ": ");
            }
            push_str_chars(&mut buf, h.as_str());
        },
        None => {},
    }
    assert(buf@ =~= arg_text_spec(*a));
    chars_to_string(&buf)
}

/// The name of a nested command's documentation file, without its
/// extension: the parent's name and the command's name, joined by an
/// underscore; an empty parent stays empty.
pub open spec fn joined_name_spec(parent: Seq<char>, name: Seq<char>) -> Seq<char> {
    if parent.len() == 0 {
        parent
    } else {
        parent + seq!['_'] + name
    }
}

/// Joins a parent command path and a subcommand name.
pub fn joined_name(parent: &String, name: &String) -> (r: String)
    ensures
        r@ == joined_name_spec(parent@, name@),
{
    if parent.as_str().is_empty() {
        let mut buf: Vec<char> = Vec::new();
        assert(buf@ =~= joined_name_spec(parent@, name@));
        chars_to_string(&buf)
    } else {
        let mut buf: Vec<char> = Vec::new();
        push_str_chars(&mut buf, parent.as_str());
        buf.push('_');
        push_str_chars(&mut buf, name.as_str());
        assert(buf@ =~= joined_name_spec(parent@, name@));
        chars_to_string(&buf)
    }
}

/// `s` with every underscore replaced by a space.
pub open spec fn spaced_spec(s: Seq<char>) -> Seq<char> {
    s.map(
        |i: int, c: char|
            if c == '_' {
                ' '
            } else {
                c
            },
    )
}

/// Replaces every underscore with a space.
pub fn spaced(s: &String) -> (r: String)
    ensures
        r@ == spaced_spec(s@),
{
    let chars = crate::text::string_chars(s.as_str());
    let n = chars.len();
    let mut buf: Vec<char> = Vec::new();
    let mut i: usize = 0;
    while i < n
        invariant
            n == chars@.len() == s@.len(),
            chars@ == s@,
            i <= n,
            buf@ == spaced_spec(s@.subrange(0, i as int)),
        decreases n - i,
    {
        let c = chars[i];
        if c == '_' {
            buf.push(' ');
        } else {
            buf.push(c);
        }
        assert(buf@ =~= spaced_spec(s@.subrange(0, i + 1 as int)));
        i = i + 1;
    }
    assert(s@.subrange(0, n as int) =~= s@);
    chars_to_string(&buf)
}

/// The progress line printed for one generated manual page.
pub open spec fn man_page_line_spec(p: Seq<char>) -> Seq<char> {
    "Generating man page for `"@ + spaced_spec(p) + "` -> "@ + p + ".1"@
}

/// Builds the progress line printed for one generated manual page.
pub fn man_page_line(p: &String) -> (r: String)
    ensures
        r@ == man_page_line_spec(p@),
{
    let sp = spaced(p);
    let mut buf: Vec<char> = Vec::new();
    push_str_chars(&mut buf, "Generating man page for `");
    push_str_chars(&mut buf, sp.as_str());
    push_str_chars(&mut buf, "` -> ");
    push_str_chars(&mut buf, p.as_str());
    push_str_chars(&mut buf, ".1");
    assert(buf@ =~= man_page_line_spec(p@));
    chars_to_string(&buf)
}

/// The progress line printed for one generated markdown file.
pub open spec fn markdown_line_spec(p: Seq<char>) -> Seq<char> {
    "Generating markdown for `"@ + spaced_spec(p) + "` -> "@ + p + ".md"@
}

/// Builds the progress line printed for one generated markdown file.
pub fn markdown_line(p: &String) -> (r: String)
    ensures
        r@ == markdown_line_spec(p@),
{
    let sp = spaced(p);
    let mut buf: Vec<char> = Vec::new();
    push_str_chars(&mut buf, "Generating markdown for `");
    push_str_chars(&mut buf, sp.as_str());
    push_str_chars(&mut buf, "` -> ");
    push_str_chars(&mut buf, p.as_str());
    push_str_chars(&mut buf, ".md");
    assert(buf@ =~= markdown_line_spec(p@));
    chars_to_string(&buf)
}

/// The characters of each line, in order.
pub open spec fn lines_view(s: Seq<String>) -> Seq<Seq<char>> {
    s.map(|i: int, x: String| x@)
}

/// The joined names of every nested command of `app` from child `i` on:
/// for each subcommand, its own joined name, then its descendants'
/// preorder, then the later siblings'.
pub open spec fn doc_paths_from(app: AppNode, i: int, parent: Seq<char>) -> Seq<Seq<char>>
    decreases app, app.subcommands@.len() - i,
{
    if i < 0 || i >= app.subcommands@.len() {
        Seq::<Seq<char>>::empty()
    } else {
        let p = joined_name_spec(parent, app.subcommands@[i].name@);
        seq![p] + doc_paths_from(app.subcommands@[i], 0, p) + doc_paths_from(app, i + 1, parent)
    }
}

/// The joined names of every nested command of `app`, preorder, in
/// declaration order.
pub open spec fn doc_paths_spec(app: AppNode, parent: Seq<char>) -> Seq<Seq<char>> {
    doc_paths_from(app, 0, parent)
}

/// The manual-page progress line of each path.
pub open spec fn man_lines_of(paths: Seq<Seq<char>>) -> Seq<Seq<char>> {
    paths.map(|i: int, p: Seq<char>| man_page_line_spec(p))
}

/// The markdown progress line of each path.
pub open spec fn markdown_lines_of(paths: Seq<Seq<char>>) -> Seq<Seq<char>> {
    paths.map(|i: int, p: Seq<char>| markdown_line_spec(p))
}

/// Collects the manual-page progress lines for every nested command,
/// preorder: each subcommand's line, then its descendants' lines.
pub fn man_page_lines(app: &AppNode, parent: &String, out: &mut Vec<String>)
    ensures
        lines_view(final(out)@) == lines_view(old(out)@) + man_lines_of(
            doc_paths_spec(*app, parent@),
        ),
    decreases *app,
{
    let n = app.subcommands.len();
    let mut i: usize = 0;
    while i < n
        invariant
            n == app.subcommands@.len(),
            i <= n,
            lines_view(out@) + man_lines_of(doc_paths_from(*app, i as int, parent@))
                == lines_view(old(out)@) + man_lines_of(doc_paths_from(*app, 0, parent@)),
        decreases n - i,
    {
        let sub = &app.subcommands[i];
        let p = joined_name(parent, &sub.name);
        let ghost pre = lines_view(out@);
        out.push(man_page_line(&p));
        proof {
            assert(lines_view(out@) =~= pre + seq![man_page_line_spec(p@)]);
        }
        let ghost mid = lines_view(out@);
        man_page_lines(sub, &p, out);
        proof {
            let child = doc_paths_from(app.subcommands@[i as int], 0, p@);
            let rest = doc_paths_from(*app, i + 1, parent@);
            assert(doc_paths_from(*app, i as int, parent@) == seq![p@] + child + rest);
            assert(man_lines_of(seq![p@] + child + rest) =~= seq![man_page_line_spec(p@)]
                + man_lines_of(child) + man_lines_of(rest));
            assert(doc_paths_spec(app.subcommands@[i as int], p@) == child);
            assert(lines_view(out@) + man_lines_of(rest) =~= pre + (seq![man_page_line_spec(p@)]
                + man_lines_of(child) + man_lines_of(rest)));
        }
        i = i + 1;
    }
    proof {
        assert(man_lines_of(doc_paths_from(*app, n as int, parent@)) =~= Seq::<Seq<char>>::empty());
        assert(lines_view(out@) + Seq::<Seq<char>>::empty() =~= lines_view(out@));
    }
}

/// Collects the markdown progress lines for every nested command,
/// preorder: each subcommand's line, then its descendants' lines.
pub fn markdown_lines(app: &AppNode, parent: &String, out: &mut Vec<String>)
    ensures
        lines_view(final(out)@) == lines_view(old(out)@) + markdown_lines_of(
            doc_paths_spec(*app, parent@),
        ),
    decreases *app,
{
    let n = app.subcommands.len();
    let mut i: usize = 0;
    while i < n
        invariant
            n == app.subcommands@.len(),
            i <= n,
            lines_view(out@) + markdown_lines_of(doc_paths_from(*app, i as int, parent@))
                == lines_view(old(out)@) + markdown_lines_of(doc_paths_from(*app, 0, parent@)),
        decreases n - i,
    {
        let sub = &app.subcommands[i];
        let p = joined_name(parent, &sub.name);
        let ghost pre = lines_view(out@);
        out.push(markdown_line(&p));
        proof {
            assert(lines_view(out@) =~= pre + seq![markdown_line_spec(p@)]);
        }
        markdown_lines(sub, &p, out);
        proof {
            let child = doc_paths_from(app.subcommands@[i as int], 0, p@);
            let rest = doc_paths_from(*app, i + 1, parent@);
            assert(doc_paths_from(*app, i as int, parent@) == seq![p@] + child + rest);
            assert(markdown_lines_of(seq![p@] + child + rest) =~= seq![markdown_line_spec(p@)]
                + markdown_lines_of(child) + markdown_lines_of(rest));
            assert(doc_paths_spec(app.subcommands@[i as int], p@) == child);
            assert(lines_view(out@) + markdown_lines_of(rest) =~= pre + (seq![markdown_line_spec(
                p@,
            )] + markdown_lines_of(child) + markdown_lines_of(rest)));
        }
        i = i + 1;
    }
    proof {
        assert(markdown_lines_of(doc_paths_from(*app, n as int, parent@))
            =~= Seq::<Seq<char>>::empty());
        assert(lines_view(out@) + Seq::<Seq<char>>::empty() =~= lines_view(out@));
    }
}

/// The eight events of one argument's list item.
pub open spec fn arg_item_events(a: ArgInfo) -> Seq<MdEventView> {
    seq![
        MdEventView::ItemStart,
        MdEventView::ParagraphStart,
        MdEventView::CodeBlockStart,
        MdEventView::Text(arg_def_spec(a)),
        MdEventView::CodeBlockEnd,
        MdEventView::Text(arg_text_spec(a)),
        MdEventView::ParagraphEnd,
        MdEventView::ItemEnd,
    ]
}

/// The list items of all arguments, in order.
pub open spec fn args_events(args: Seq<ArgInfo>) -> Seq<MdEventView>
    decreases args.len(),
{
    if args.len() == 0 {
        Seq::<MdEventView>::empty()
    } else {
        arg_item_events(args[0]) + args_events(args.drop_first())
    }
}

/// Appending an argument appends its item.
proof fn lemma_args_events_snoc(args: Seq<ArgInfo>, a: ArgInfo)
    ensures
        args_events(args.push(a)) == args_events(args) + arg_item_events(a),
    decreases args.len(),
{
    let e = args.push(a);
    if args.len() == 0 {
        assert(e[0] == a);
        assert(e.drop_first() =~= Seq::<ArgInfo>::empty());
        assert(args_events(args) + arg_item_events(a) =~= arg_item_events(a) + args_events(
            e.drop_first(),
        ));
    } else {
        assert(e.drop_first() =~= args.drop_first().push(a));
        lemma_args_events_snoc(args.drop_first(), a);
        assert(arg_item_events(e[0]) + (args_events(args.drop_first()) + arg_item_events(a)) =~= (
        arg_item_events(args[0]) + args_events(args.drop_first())) + arg_item_events(a));
    }
}

/// The documentation events of one command: its heading unless suppressed,
/// its summary, an argument list when it has arguments, and a subcommand
/// section with every nested command two levels deeper, levels clamped at
/// six.
pub open spec fn md_events_spec(app: AppNode, level: int, skip_header: bool) -> Seq<MdEventView>
    decreases app, 1int, 0int,
{
    (if !skip_header {
        heading_events(app.name@, heading_level_spec(level))
    } else {
        Seq::<MdEventView>::empty()
    }) + (match app.about {
        Option::Some(a) => paragraph_events(a@),
        Option::None => Seq::<MdEventView>::empty(),
    }) + (if app.args@.len() > 0 {
        paragraph_events("Arguments:"@) + seq![MdEventView::ListStart] + args_events(app.args@)
            + seq![MdEventView::ListEnd]
    } else {
        Seq::<MdEventView>::empty()
    }) + (if app.subcommands@.len() > 0 {
        heading_events(
            "Subcommands"@,
            heading_level_spec(
                if level <= 5 {
                    level + 1
                } else {
                    6
                },
            ),
        ) + subs_events(
            app,
            0,
            if level <= 4 {
                level + 2
            } else {
                6
            },
        )
    } else {
        Seq::<MdEventView>::empty()
    })
}

/// The sections of the nested commands from child `i` on, in order.
pub open spec fn subs_events(app: AppNode, i: int, deeper: int) -> Seq<MdEventView>
    decreases app, 0int, app.subcommands@.len() - i,
{
    if i < 0 || i >= app.subcommands@.len() {
        Seq::<MdEventView>::empty()
    } else {
        md_events_spec(app.subcommands@[i], deeper, false) + subs_events(app, i + 1, deeper)
    }
}

/// Emits the documentation events of one command: exactly
/// `md_events_spec` of the tree, appended to the document.
#[verifier::rlimit(100)]
pub fn do_markdown(doc: &mut MarkdownDocument, app: &AppNode, level: i32, skip_header: bool)
    requires
        1 <= level <= 6,
    ensures
        events_view(final(doc).events@) == events_view(old(doc).events@) + md_events_spec(
            *app,
            level as int,
            skip_header,
        ),
    decreases *app,
{
    let ghost start = events_view(doc.events@);
    let ghost seg1 = if !skip_header {
        heading_events(app.name@, heading_level_spec(level as int))
    } else {
        Seq::<MdEventView>::empty()
    };
    if !skip_header {
        doc.header(app.name.as_str(), to_heading_level(level));
    }
    proof {
        assert(events_view(doc.events@) =~= start + seg1);
    }
    let ghost seg2 = if app.about is Some {
        paragraph_events(app.about->0@)
    } else {
        Seq::<MdEventView>::empty()
    };
    match &app.about {
        Some(about) => {
            doc.paragraph(about.as_str());
        },
        None => {},
    }
    proof {
        assert(events_view(doc.events@) =~= start + seg1 + seg2);
    }
    let ghost seg3 = if app.args@.len() > 0 {
        paragraph_events("Arguments:"@) + seq![MdEventView::ListStart] + args_events(app.args@)
            + seq![MdEventView::ListEnd]
    } else {
        Seq::<MdEventView>::empty()
    };
    if app.args.len() > 0 {
        doc.paragraph("Arguments:");
        doc.events.push(MdEvent::ListStart);
        proof {
            assert(events_view(doc.events@) =~= start + seg1 + seg2 + paragraph_events(
                "Arguments:"@,
            ) + seq![MdEventView::ListStart]);
        }
        let ghost base = events_view(doc.events@);
        let n = app.args.len();
        let mut i: usize = 0;
        while i < n
            invariant
                n == app.args@.len(),
                i <= n,
                events_view(doc.events@) == base + args_events(app.args@.subrange(0, i as int)),
            decreases n - i,
        {
            let ghost prev = events_view(doc.events@);
            doc.events.push(MdEvent::ItemStart);
            doc.events.push(MdEvent::ParagraphStart);
            doc.events.push(MdEvent::CodeBlockStart);
            doc.events.push(MdEvent::Text(arg_def(&app.args[i])));
            doc.events.push(MdEvent::CodeBlockEnd);
            doc.events.push(MdEvent::Text(arg_text(&app.args[i])));
            doc.events.push(MdEvent::ParagraphEnd);
            doc.events.push(MdEvent::ItemEnd);
            proof {
                assert(events_view(doc.events@) =~= prev + arg_item_events(app.args@[i as int]));
                assert(app.args@.subrange(0, i + 1 as int) =~= app.args@.subrange(
                    0,
                    i as int,
                ).push(app.args@[i as int]));
                lemma_args_events_snoc(app.args@.subrange(0, i as int), app.args@[i as int]);
                assert(events_view(doc.events@) =~= base + args_events(
                    app.args@.subrange(0, i + 1 as int),
                ));
            }
            i = i + 1;
        }
        doc.events.push(MdEvent::ListEnd);
        proof {
            assert(app.args@.subrange(0, n as int) =~= app.args@);
            assert(events_view(doc.events@) =~= base + args_events(app.args@) + seq![
                MdEventView::ListEnd,
            ]);
            assert(events_view(doc.events@) =~= start + seg1 + seg2 + seg3);
        }
    }
    proof {
        assert(events_view(doc.events@) =~= start + seg1 + seg2 + seg3);
    }
    let ghost pre_subs = events_view(doc.events@);
    let ghost seg4 = if app.subcommands@.len() > 0 {
        heading_events(
            "Subcommands"@,
            heading_level_spec(
                if level as int <= 5 {
                    level as int + 1
                } else {
                    6
                },
            ),
        ) + subs_events(
            *app,
            0,
            if level as int <= 4 {
                level as int + 2
            } else {
                6
            },
        )
    } else {
        Seq::<MdEventView>::empty()
    };
    if app.subcommands.len() > 0 {
        let sub_level = if level <= 5 {
            level + 1
        } else {
            6
        };
        doc.header("Subcommands", to_heading_level(sub_level));
        let deeper = if level <= 4 {
            level + 2
        } else {
            6
        };
        proof {
            assert(events_view(doc.events@) =~= pre_subs + heading_events(
                "Subcommands"@,
                heading_level_spec(sub_level as int),
            ));
        }
        let ghost base2 = events_view(doc.events@);
        let n = app.subcommands.len();
        let mut i: usize = 0;
        while i < n
            invariant
                n == app.subcommands@.len(),
                i <= n,
                1 <= deeper <= 6,
                events_view(doc.events@) + subs_events(*app, i as int, deeper as int) == base2
                    + subs_events(*app, 0, deeper as int),
            decreases n - i,
        {
            let ghost prev = events_view(doc.events@);
            do_markdown(doc, &app.subcommands[i], deeper, false);
            proof {
                assert(subs_events(*app, i as int, deeper as int) == md_events_spec(
                    app.subcommands@[i as int],
                    deeper as int,
                    false,
                ) + subs_events(*app, i + 1, deeper as int));
                assert(events_view(doc.events@) + subs_events(*app, i + 1, deeper as int) =~= prev
                    + (md_events_spec(app.subcommands@[i as int], deeper as int, false)
                    + subs_events(*app, i + 1, deeper as int)));
            }
            i = i + 1;
        }
        proof {
            assert(subs_events(*app, n as int, deeper as int) =~= Seq::<MdEventView>::empty());
            assert(events_view(doc.events@) + Seq::<MdEventView>::empty() =~= events_view(
                doc.events@,
            ));
            assert(events_view(doc.events@) =~= pre_subs + seg4);
        }
    }
    proof {
        assert(events_view(doc.events@) =~= start + seg1 + seg2 + seg3 + seg4);
        assert(events_view(doc.events@) =~= start + md_events_spec(*app, level as int, skip_header));
    }
}

/// Generate documentation files for the command line.
pub struct CmdGenerate {
    /// The selected subcommand.
    pub subcmd: GenerateSubCommand,
}

/// The generate subcommands.
pub enum GenerateSubCommand {
    /// Generate markdown documentation.
    Markdown(CmdGenerateMarkdown),
    /// Generate manual pages.
    ManPages(CmdGenerateManPages),
}

/// Generate markdown documentation.
pub struct CmdGenerateMarkdown {
    /// Directory for the generated files; empty for the working directory.
    pub dir: String,
}

impl CmdGenerateMarkdown {
    /// The markdown document for the whole command tree, starting beneath
    /// a level-two heading: the root's own heading is left out, as it
    /// stands under the surrounding document's.
    pub fn run(&self, app: &AppNode) -> (r: MarkdownDocument)
        ensures
            events_view(r.events@) == md_events_spec(*app, 2, true),
    {
        let mut doc = MarkdownDocument { events: Vec::new() };
        proof {
            assert(events_view(doc.events@) =~= Seq::<MdEventView>::empty());
        }
        do_markdown(&mut doc, app, 2, true);
        proof {
            assert(Seq::<MdEventView>::empty() + md_events_spec(*app, 2, true) =~= md_events_spec(
                *app,
                2,
                true,
            ));
        }
        doc
    }
}

/// Generate manual pages.
pub struct CmdGenerateManPages {
    /// Directory for the generated files; empty for the working directory.
    pub dir: String,
}

impl CmdGenerateManPages {
    /// The progress lines for every nested command of the tree: one per
    /// descendant, preorder, named by the joined ancestor path.
    pub fn run(&self, app: &AppNode) -> (r: Vec<String>)
        ensures
            lines_view(r@) == man_lines_of(doc_paths_spec(*app, app.name@)),
    {
        let mut out: Vec<String> = Vec::new();
        man_page_lines(app, &app.name, &mut out);
        proof {
            assert(lines_view(Seq::<String>::empty()) =~= Seq::<Seq<char>>::empty());
            assert(Seq::<Seq<char>>::empty() + man_lines_of(doc_paths_spec(*app, app.name@))
                =~= man_lines_of(doc_paths_spec(*app, app.name@)));
        }
        out
    }
}

} // verus!
