//! What the terminal dashboard shows: banner, section headers, hints and
//! panels, as plain text and rows, and as styled text ready to print.
use vstd::prelude::*;
use crate::decimal::{decimal, lemma_decimal_roundtrip, spec_decimal, spec_digits_value};
use crate::terminal::{
    colored_input, colored_text, paint_bold, paint_bright_black, paint_cyan, paint_white, paint_yellow,
    spec_styled,
};
use crate::probe::{feature_title, opt_view, spec_feature_title, Feature, FeatureReport, UsageCounts};

verus! {

/// How the value of a panel row is highlighted.
#[derive(Debug, Clone, Copy, PartialEq, Eq, Structural)]
pub enum ValueStyle {
    /// No highlight.
    Plain,
    /// Green and bold: a capability or connection that works, or throughput.
    Good,
    /// Red and bold: a capability or connection that does not.
    Bad,
    /// Yellow: a hint.
    Warn,
}

/// One row of a panel: a (bold) label and its value.
#[derive(Debug)]
pub struct PanelRow {
    pub label: String,
    pub value: String,
    pub style: ValueStyle,
}

/// A panel: a titled two-column table.
#[derive(Debug)]
pub struct Panel {
    pub title: String,
    pub rows: Vec<PanelRow>,
}

/// A row's label, value and style.
pub type RowView = (Seq<char>, Seq<char>, ValueStyle);

/// A row seen as plain values.
pub open spec fn row_view(r: PanelRow) -> RowView {
    (r.label@, r.value@, r.style)
}

impl View for Panel {
    type V = (Seq<char>, Seq<RowView>);

    open spec fn view(&self) -> (Seq<char>, Seq<RowView>) {
        (self.title@, self.rows@.map_values(|r: PanelRow| row_view(r)))
    }
}

/// The measured time and rate of a check, as decimal text (the seconds to
/// two places, the rate to one).
#[derive(Debug)]
pub struct Timing {
    pub seconds: String,
    pub tokens_per_second: String,
}

/// The text of the banner: the title line, and the bar above and below it,
/// as wide as the title.
pub open spec fn spec_banner_title(subtitle: Seq<char>) -> Seq<char> {
    " tellme · "@ + subtitle + " "@
}

/// `n` horizontal box-drawing characters.
pub open spec fn spec_bar(n: nat) -> Seq<char> {
    Seq::new(n, |i: int| '─')
}

/// The bar above the banner's title.
pub open spec fn spec_banner_top(subtitle: Seq<char>) -> Seq<char> {
    seq!['╭'] + spec_bar(spec_banner_title(subtitle).len()) + seq!['╮']
}

/// The banner's title line: the title between two vertical box lines.
pub open spec fn spec_banner_middle(subtitle: Seq<char>) -> Seq<char> {
    seq!['│'] + spec_banner_title(subtitle) + seq!['│']
}

/// The bar below the banner's title.
pub open spec fn spec_banner_bottom(subtitle: Seq<char>) -> Seq<char> {
    seq!['╰'] + spec_bar(spec_banner_title(subtitle).len()) + seq!['╯']
}

/// The banner, plain: the bar above, the title, its framed line, and the
/// bar below.
#[derive(Debug)]
pub struct BannerText {
    pub top: String,
    pub title: String,
    pub middle: String,
    pub bottom: String,
}

fn bar(n: usize) -> (res: String)
    ensures
        res@ == spec_bar(n as nat),
{
    proof {
        reveal_strlit("─");
    }
    let mut s = String::new();
    let mut i: usize = 0;
    while i < n
        invariant
            i <= n,
            s@ == spec_bar(i as nat),
        decreases n - i,
    {
        s.append("─");
        proof {
            reveal_strlit("─");
            assert(spec_bar((i + 1) as nat) =~= spec_bar(i as nat) + "─"@);
        }
        i = i + 1;
    }
    s
}

/// The banner lines for a run (`subtitle` is `LLM` or `VLM`).
pub fn banner_text(subtitle: &str) -> (res: BannerText)
    ensures
        res.title@ == spec_banner_title(subtitle@),
        res.middle@ == spec_banner_middle(subtitle@),
        res.top@ == spec_banner_top(subtitle@),
        res.bottom@ == spec_banner_bottom(subtitle@),
{
    let mut title = " tellme · ".to_owned();
    title.append(subtitle);
    title.append(" ");
    let width: usize = title.as_str().unicode_len();
    proof {
        reveal_strlit("╭");
        reveal_strlit("╮");
        reveal_strlit("╰");
        reveal_strlit("╯");
        reveal_strlit("│");
    }
    let line = bar(width);
    let mut middle = "│".to_owned();
    middle.append(title.as_str());
    middle.append("│");
    let mut top = "╭".to_owned();
    top.append(line.as_str());
    top.append("╮");
    let mut bottom = "╰".to_owned();
    bottom.append(line.as_str());
    bottom.append("╯");
    BannerText { top, title, middle, bottom }
}

/// The banner's frame fits its title: the bars above and below hold one
/// horizontal line per character of the title, and the title line, framed
/// by vertical lines, is exactly as wide as the bars.
pub proof fn lemma_banner_frame_fits(subtitle: Seq<char>)
    ensures
        spec_banner_middle(subtitle).len() == spec_banner_top(subtitle).len(),
        spec_banner_middle(subtitle)[0] == '│',
        spec_banner_middle(subtitle).last() == '│',
        spec_banner_top(subtitle).len() == spec_banner_title(subtitle).len() + 2,
        spec_banner_bottom(subtitle).len() == spec_banner_title(subtitle).len() + 2,
        forall|i: int|
            1 <= i <= spec_banner_title(subtitle).len() ==> #[trigger] spec_banner_top(subtitle)[i] == '─'
                && spec_banner_bottom(subtitle)[i] == '─',
{
}

/// The text of a section header.
pub open spec fn spec_section_header(title: Seq<char>) -> Seq<char> {
    "▸ "@ + title
}

/// The section header line for `title`.
pub fn section_header_text(title: &str) -> (res: String)
    ensures
        res@ == spec_section_header(title@),
{
    let mut s = "▸ ".to_owned();
    s.append(title);
    s
}

/// The hint shown when a language model run asks for no check.
pub open spec fn spec_no_checks_hint() -> Seq<char> {
    "▸ Use --tool-call and/or --reasoning to specify checks.\n"@
}

/// The hint line shown when no check is asked for.
pub fn no_checks_hint_text() -> (res: String)
    ensures
        res@ == spec_no_checks_hint(),
{
    "▸ Use --tool-call and/or --reasoning to specify checks.\n".to_owned()
}

/// The rows of the server panel.
pub open spec fn spec_server_rows(base_url: Seq<char>, model: Option<Seq<char>>, ok: bool) -> Seq<RowView> {
    seq![("Address"@, base_url, ValueStyle::Plain)] + (match model {
        Some(m) => seq![("Model"@, m, ValueStyle::Plain)],
        None => Seq::empty(),
    }) + seq![
        if ok {
            ("Status"@, "✓ Connected"@, ValueStyle::Good)
        } else {
            ("Status"@, "✗ Connection Failed"@, ValueStyle::Bad)
        },
    ]
}

fn row(label: &str, value: String, style: ValueStyle) -> (res: PanelRow)
    ensures
        row_view(res) == (label@, value@, style),
{
    PanelRow { label: label.to_owned(), value, style }
}

proof fn lemma_push_view(rows: Seq<PanelRow>, r: PanelRow)
    ensures
        rows.push(r).map_values(|x: PanelRow| row_view(x)) =~= rows.map_values(|x: PanelRow| row_view(x)).push(row_view(r)),
{
}

/// The server panel: its address, the model if one is known, and whether
/// the server is reachable.
pub fn server_panel(base_url: &str, model: Option<&str>, ok: bool) -> (res: Panel)
    ensures
        res@.0 == " Server "@,
        res@.1 == spec_server_rows(base_url@, match model {
            Some(m) => Some(m@),
            None => None,
        }, ok),
{
    let mut rows: Vec<PanelRow> = Vec::new();
    let ghost r0 = rows@;
    rows.push(row("Address", base_url.to_owned(), ValueStyle::Plain));
    proof { lemma_push_view(r0, rows@.last()); }
    if let Some(m) = model {
        let ghost r1 = rows@;
        rows.push(row("Model", m.to_owned(), ValueStyle::Plain));
        proof { lemma_push_view(r1, rows@.last()); }
    }
    let status = if ok {
        row("Status", "✓ Connected".to_owned(), ValueStyle::Good)
    } else {
        row("Status", "✗ Connection Failed".to_owned(), ValueStyle::Bad)
    };
    let ghost r2 = rows@;
    rows.push(status);
    proof {
        lemma_push_view(r2, rows@.last());
        let mv = match model {
            Some(m) => Some(m@),
            None => None,
        };
        assert(rows@.map_values(|r: PanelRow| row_view(r)) =~= spec_server_rows(base_url@, mv, ok));
    }
    Panel { title: " Server ".to_owned(), rows }
}

/// The token counts of a panel: prompt and completion on the first line,
/// the total on the second.
pub open spec fn spec_tokens_line(u: UsageCounts) -> Seq<char> {
    "Prompt: "@ + spec_decimal(u.prompt_tokens as nat) + "  Completion: "@ + spec_decimal(
        u.completion_tokens as nat,
    ) + "\nTotal: "@ + spec_decimal(u.total_tokens as nat)
}

/// The rows of a capability panel.
pub open spec fn spec_feature_rows(
    ok: bool,
    detail: Option<Seq<char>>,
    usage: Option<(UsageCounts, Seq<char>, Seq<char>)>,
    reply: Option<Seq<char>>,
) -> Seq<RowView> {
    seq![
        if ok {
            ("Status"@, "✓ Enabled"@, ValueStyle::Good)
        } else {
            ("Status"@, "✗ Not Detected"@, ValueStyle::Bad)
        },
    ] + (match reply {
        Some(r) => seq![("Reply"@, r, ValueStyle::Plain)],
        None => Seq::empty(),
    }) + (match detail {
        Some(d) => seq![("Hint"@, d, ValueStyle::Warn)],
        None => Seq::empty(),
    }) + (match usage {
        Some((u, secs, rate)) => seq![
            ("Latency"@, secs + "s"@, ValueStyle::Plain),
            ("Throughput"@, rate + " tok/s"@, ValueStyle::Good),
            ("Tokens"@, spec_tokens_line(u), ValueStyle::Plain),
        ],
        None => Seq::empty(),
    })
}

/// Token counts with their timing, seen as plain values.
pub open spec fn timing_view(usage: Option<(UsageCounts, &Timing)>) -> Option<(UsageCounts, Seq<char>, Seq<char>)> {
    match usage {
        Some((u, t)) => Some((u, t.seconds@, t.tokens_per_second@)),
        None => None,
    }
}

/// The text of an optional string slice.
pub open spec fn str_opt_view(s: Option<&str>) -> Option<Seq<char>> {
    match s {
        Some(x) => Some(x@),
        None => None,
    }
}

fn tokens_line(u: UsageCounts) -> (res: String)
    ensures
        res@ == spec_tokens_line(u),
{
    let mut s = "Prompt: ".to_owned();
    s.append(decimal(u.prompt_tokens).as_str());
    s.append("  Completion: ");
    s.append(decimal(u.completion_tokens).as_str());
    s.append("\nTotal: ");
    s.append(decimal(u.total_tokens).as_str());
    s
}

/// The panel of one capability: its status, the model's reply and a hint
/// when there are any, and the latency, throughput and token counts when
/// the server reported usage.
pub fn feature_panel(
    name: &str,
    ok: bool,
    detail: Option<&str>,
    usage: Option<(UsageCounts, &Timing)>,
    model_reply: Option<&str>,
) -> (res: Panel)
    ensures
        res@.0 == " "@ + name@ + " "@,
        res@.1 == spec_feature_rows(ok, str_opt_view(detail), timing_view(usage), str_opt_view(model_reply)),
{
    let mut rows: Vec<PanelRow> = Vec::new();
    let status = if ok {
        row("Status", "✓ Enabled".to_owned(), ValueStyle::Good)
    } else {
        row("Status", "✗ Not Detected".to_owned(), ValueStyle::Bad)
    };
    let ghost r0 = rows@;
    rows.push(status);
    proof { lemma_push_view(r0, rows@.last()); }
    let ghost after_status = rows@.map_values(|r: PanelRow| row_view(r));
    if let Some(reply) = model_reply {
        let ghost r1 = rows@;
        rows.push(row("Reply", reply.to_owned(), ValueStyle::Plain));
        proof { lemma_push_view(r1, rows@.last()); }
    }
    let ghost after_reply = rows@.map_values(|r: PanelRow| row_view(r));
    if let Some(d) = detail {
        let ghost r2 = rows@;
        rows.push(row("Hint", d.to_owned(), ValueStyle::Warn));
        proof { lemma_push_view(r2, rows@.last()); }
    }
    let ghost after_hint = rows@.map_values(|r: PanelRow| row_view(r));
    if let Some((u, t)) = usage {
        let mut secs = t.seconds.clone();
        secs.append("s");
        let mut rate = t.tokens_per_second.clone();
        rate.append(" tok/s");
        let ghost r3 = rows@;
        rows.push(row("Latency", secs, ValueStyle::Plain));
        proof { lemma_push_view(r3, rows@.last()); }
        let ghost r4 = rows@;
        rows.push(row("Throughput", rate, ValueStyle::Good));
        proof { lemma_push_view(r4, rows@.last()); }
        let ghost r5 = rows@;
        rows.push(row("Tokens", tokens_line(u), ValueStyle::Plain));
        proof { lemma_push_view(r5, rows@.last()); }
    }
    proof {
        assert(rows@.map_values(|r: PanelRow| row_view(r)) =~= spec_feature_rows(
            ok,
            str_opt_view(detail),
            timing_view(usage),
            str_opt_view(model_reply),
        ));
    }
    let mut title = " ".to_owned();
    title.append(name);
    title.append(" ");
    Panel { title, rows }
}

/// The panel of a capability from its verdict.
/// The usage rows appear when the verdict carries token counts and the
/// check was timed.
pub fn report_panel(feature: Feature, report: &FeatureReport, timing: Option<&Timing>) -> (res: Panel)
    ensures
        res@.0 == " "@ + spec_feature_title(feature) + " "@,
        res@.1 == spec_feature_rows(
            report.ok,
            opt_view(report.detail),
            match (report.usage, timing) {
                (Some(u), Some(t)) => Some((u, t.seconds@, t.tokens_per_second@)),
                _ => None,
            },
            opt_view(report.reply),
        ),
{
    let detail = match &report.detail {
        Some(d) => Some(d.as_str()),
        None => None,
    };
    let reply = match &report.reply {
        Some(r) => Some(r.as_str()),
        None => None,
    };
    let usage = match (report.usage, timing) {
        (Some(u), Some(t)) => Some((u, t)),
        _ => None,
    };
    feature_panel(feature_title(feature), report.ok, detail, usage, reply)
}

/// Every panel of a capability opens with its status row, green when the
/// capability works and red when it does not.
pub proof fn lemma_status_row_first(
    ok: bool,
    detail: Option<Seq<char>>,
    usage: Option<(UsageCounts, Seq<char>, Seq<char>)>,
    reply: Option<Seq<char>>,
)
    ensures
        spec_feature_rows(ok, detail, usage, reply).len() >= 1,
        spec_feature_rows(ok, detail, usage, reply)[0].0 == "Status"@,
        spec_feature_rows(ok, detail, usage, reply)[0].2 == (if ok { ValueStyle::Good } else { ValueStyle::Bad }),
{
}

/// A capability panel has one row for the status, one for each of the reply
/// and the hint that is present, and three for the usage when present.
pub proof fn lemma_feature_row_count(
    ok: bool,
    detail: Option<Seq<char>>,
    usage: Option<(UsageCounts, Seq<char>, Seq<char>)>,
    reply: Option<Seq<char>>,
)
    ensures
        spec_feature_rows(ok, detail, usage, reply).len() == 1 + (if reply is Some { 1int } else { 0 }) + (
        if detail is Some { 1int } else { 0 }) + (if usage is Some { 3int } else { 0 }),
{
}

/// The banner of a run, as printed: an empty line, the bar above in bright
/// black, the title in bold white between two vertical lines in bright
/// black, the bar below in bright black, and an empty line.
pub fn banner(subtitle: &str) -> (res: String)
    ensures
        !subtitle@.contains('\x1b') ==> exists|
            top: Seq<char>,
            left: Seq<char>,
            title: Seq<char>,
            right: Seq<char>,
            bottom: Seq<char>,
        |
            {
                &&& spec_styled(top, spec_banner_top(subtitle@), "90"@)
                &&& spec_styled(left, seq!['│'], "90"@)
                &&& spec_styled(title, spec_banner_title(subtitle@), "1;37"@)
                &&& spec_styled(right, seq!['│'], "90"@)
                &&& spec_styled(bottom, spec_banner_bottom(subtitle@), "90"@)
                &&& res@ == "\n"@ + top + "\n"@ + left + title + right + "\n"@ + bottom + "\n\n"@
            },
{
    let text = banner_text(subtitle);
    let top = colored_text(&paint_bright_black(text.top.as_str()));
    let frame = paint_bright_black("│");
    proof {
        reveal_strlit("│");
        assert("│"@ =~= seq!['│']);
        assert(!colored_input(frame).contains('\x1b')) by {
            assert forall|i: int| 0 <= i < colored_input(frame).len() implies colored_input(frame)[i] != '\x1b' by {}
        }
    }
    let left = colored_text(&frame);
    let title = colored_text(&paint_white(paint_bold(text.title.as_str())));
    let right = colored_text(&frame);
    let bottom = colored_text(&paint_bright_black(text.bottom.as_str()));
    let mut out = "\n".to_owned();
    out.append(top.as_str());
    out.append("\n");
    out.append(left.as_str());
    out.append(title.as_str());
    out.append(right.as_str());
    out.append("\n");
    out.append(bottom.as_str());
    out.append("\n\n");
    proof {
        assert(spec_styled(left@, seq!['│'], "90"@));
        assert(spec_styled(right@, seq!['│'], "90"@));
        if !subtitle@.contains('\x1b') {
            lemma_banner_has_no_escape(subtitle@);
            assert(spec_styled(top@, spec_banner_top(subtitle@), "90"@));
            assert(spec_styled(title@, spec_banner_title(subtitle@), "1;37"@));
            assert(spec_styled(bottom@, spec_banner_bottom(subtitle@), "90"@));
        }
    }
    out
}

proof fn lemma_banner_has_no_escape(subtitle: Seq<char>)
    requires
        !subtitle.contains('\x1b'),
    ensures
        !spec_banner_top(subtitle).contains('\x1b'),
        !spec_banner_title(subtitle).contains('\x1b'),
        !spec_banner_bottom(subtitle).contains('\x1b'),
{
    reveal_strlit(" tellme · ");
    reveal_strlit(" ");
    let title = spec_banner_title(subtitle);
    assert forall|i: int| 0 <= i < title.len() implies title[i] != '\x1b' by {
        if 10 <= i < 10 + subtitle.len() {
            assert(title[i] == subtitle[i - 10]);
        }
    }
}

/// A section header as printed: `▸ title` in bold cyan, then an empty line.
pub fn section_header(title: &str) -> (res: String)
    ensures
        !title@.contains('\x1b') ==> exists|line: Seq<char>|
            {
                &&& spec_styled(line, spec_section_header(title@), "1;36"@)
                &&& res@ == line + "\n\n"@
            },
{
    let text = section_header_text(title);
    let line = colored_text(&paint_cyan(paint_bold(text.as_str())));
    let mut out = line;
    out.append("\n\n");
    proof {
        reveal_strlit("▸ ");
        if !title@.contains('\x1b') {
            let t = spec_section_header(title@);
            assert forall|i: int| 0 <= i < t.len() implies t[i] != '\x1b' by {
                if 2 <= i {
                    assert(t[i] == title@[i - 2]);
                }
            }
        }
    }
    out
}

/// The hint printed when no check is asked for, in yellow, then a line break.
pub fn no_checks_hint() -> (res: String)
    ensures
        exists|line: Seq<char>|
            {
                &&& spec_styled(line, spec_no_checks_hint(), "33"@)
                &&& res@ == line + "\n"@
            },
{
    let text = no_checks_hint_text();
    let line = colored_text(&paint_yellow(text.as_str()));
    let mut out = line;
    out.append("\n");
    proof {
        reveal_strlit("▸ Use --tool-call and/or --reasoning to specify checks.\n");
    }
    out
}

/// The server panel shows the address first, then the model when one is
/// known, and last the connection status, which depends only on whether the
/// server passed its check: green "✓ Connected" or red "✗ Connection Failed".
pub proof fn law_server_panel_rows(base_url: Seq<char>, model: Option<Seq<char>>, ok: bool)
    ensures
        spec_server_rows(base_url, model, ok).len() == (if model is Some { 3int } else { 2 }),
        spec_server_rows(base_url, model, ok)[0] == ("Address"@, base_url, ValueStyle::Plain),
        model matches Some(m) ==> spec_server_rows(base_url, model, ok)[1] == ("Model"@, m, ValueStyle::Plain),
        spec_server_rows(base_url, model, ok).last() == (if ok {
            ("Status"@, "✓ Connected"@, ValueStyle::Good)
        } else {
            ("Status"@, "✗ Connection Failed"@, ValueStyle::Bad)
        }),
{
}

/// The connection status shown does not depend on the model or the address.
pub proof fn law_server_status_row_ignores_model(
    a: Seq<char>,
    b: Seq<char>,
    m1: Option<Seq<char>>,
    m2: Option<Seq<char>>,
    ok: bool,
)
    ensures
        spec_server_rows(a, m1, ok).last() == spec_server_rows(b, m2, ok).last(),
{
    law_server_panel_rows(a, m1, ok);
    law_server_panel_rows(b, m2, ok);
}

/// A capability panel opens with its status: green "✓ Enabled" when the
/// capability works, red "✗ Not Detected" when it does not.
pub proof fn law_feature_status_row(
    ok: bool,
    detail: Option<Seq<char>>,
    usage: Option<(UsageCounts, Seq<char>, Seq<char>)>,
    reply: Option<Seq<char>>,
)
    ensures
        spec_feature_rows(ok, detail, usage, reply)[0] == (if ok {
            ("Status"@, "✓ Enabled"@, ValueStyle::Good)
        } else {
            ("Status"@, "✗ Not Detected"@, ValueStyle::Bad)
        }),
{
}

/// The rows of a capability panel come in a fixed order: status, then the
/// reply, then the hint, then latency, throughput and tokens; latency is the
/// seconds followed by `s`, throughput the rate followed by ` tok/s`.
pub proof fn law_feature_rows_order(
    ok: bool,
    detail: Seq<char>,
    counts: UsageCounts,
    seconds: Seq<char>,
    rate: Seq<char>,
    reply: Seq<char>,
)
    ensures
        spec_feature_rows(ok, Some(detail), Some((counts, seconds, rate)), Some(reply)).len() == 6,
        spec_feature_rows(ok, Some(detail), Some((counts, seconds, rate)), Some(reply))[1] == ("Reply"@, reply, ValueStyle::Plain),
        spec_feature_rows(ok, Some(detail), Some((counts, seconds, rate)), Some(reply))[2] == ("Hint"@, detail, ValueStyle::Warn),
        spec_feature_rows(ok, Some(detail), Some((counts, seconds, rate)), Some(reply))[3] == ("Latency"@, seconds + "s"@, ValueStyle::Plain),
        spec_feature_rows(ok, Some(detail), Some((counts, seconds, rate)), Some(reply))[4] == ("Throughput"@, rate + " tok/s"@, ValueStyle::Good),
        spec_feature_rows(ok, Some(detail), Some((counts, seconds, rate)), Some(reply))[5].0 == "Tokens"@,
{
}

/// The token cell holds the prompt, completion and total counts, in that
/// order, each as decimal digits that read back as the count.
pub proof fn law_tokens_line(u: UsageCounts)
    ensures
        exists|p: Seq<char>, c: Seq<char>, t: Seq<char>|
            {
                &&& spec_digits_value(p) == u.prompt_tokens
                &&& spec_digits_value(c) == u.completion_tokens
                &&& spec_digits_value(t) == u.total_tokens
                &&& spec_tokens_line(u) == "Prompt: "@ + p + "  Completion: "@ + c + "\nTotal: "@ + t
            },
{
    lemma_decimal_roundtrip(u.prompt_tokens as nat);
    lemma_decimal_roundtrip(u.completion_tokens as nat);
    lemma_decimal_roundtrip(u.total_tokens as nat);
    let p = spec_decimal(u.prompt_tokens as nat);
    let c = spec_decimal(u.completion_tokens as nat);
    let t = spec_decimal(u.total_tokens as nat);
    assert(spec_tokens_line(u) == "Prompt: "@ + p + "  Completion: "@ + c + "\nTotal: "@ + t);
}

} // verus!
