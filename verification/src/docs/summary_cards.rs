//! The card grid that category pages show for their equations.
use vstd::prelude::*;
use crate::strings::push_str;
use crate::text::str_eq;

verus! {

/// What a summary card shows of one equation.
#[derive(Debug, Clone)]
pub struct EquationSummaryCardRow {
    pub path_id: String,
    pub name: String,
    pub link: String,
    pub latex: String,
    pub targets: String,
    pub default_target: String,
    pub branches: String,
    pub subcategory: Option<String>,
}

/// The style sheet of the card grid.
pub const SUMMARY_CARD_STYLE: &'static str = "<style>\n\
         .equation-summary-cards { display: grid; grid-template-columns: 1fr; gap: 1.2rem; margin: 0.75rem 0 1.25rem; }\n\
         .equation-summary-card { position: relative; border: 1px solid var(--table-border-color); border-radius: 12px; padding: 1.15rem 1.25rem 1rem; background: rgba(255,255,255,0.03); box-shadow: 0 1px 0 rgba(255,255,255,0.02) inset; }\n\
         .equation-summary-card:hover { border-color: rgba(255,255,255,0.35); background: rgba(255,255,255,0.04); }\n\
         .equation-summary-card-link { position: absolute; inset: 0; z-index: 1; border-radius: 12px; }\n\
         .equation-summary-header { position: relative; z-index: 2; margin-bottom: 0.35rem; }\n\
         .equation-summary-title { font-size: 1.24rem; line-height: 1.3; font-weight: 650; margin: 0 0 0.35rem; }\n\
         .equation-summary-title a { position: relative; z-index: 2; }\n\
         .equation-summary-path { font-family: var(--mono-font); font-size: 0.88rem; opacity: 0.75; margin: 0 0 0.7rem; overflow-wrap: anywhere; }\n\
         .equation-summary-latex { position: relative; z-index: 2; text-align: center; font-size: 1.55rem; line-height: 1.5; margin: 0.5rem 0 0.75rem; padding: 0.35rem 0.5rem; overflow-x: auto; }\n\
         .equation-summary-meta { position: relative; z-index: 2; display: flex; flex-wrap: wrap; gap: 0.35rem 0.45rem; align-items: center; margin-top: 0.35rem; }\n\
         .equation-summary-chip { display: inline-flex; align-items: center; gap: 0.25rem; padding: 0.2rem 0.45rem; border: 1px solid var(--table-border-color); border-radius: 999px; font-size: 0.82rem; line-height: 1.2; background: rgba(255,255,255,0.02); }\n\
         .equation-summary-chip-label { opacity: 0.75; font-weight: 500; }\n\
         .equation-summary-chip-value { overflow-wrap: anywhere; }\n\
         .equation-summary-chip-value code { white-space: nowrap; }\n\
         .equation-summary-targets { display: flex; flex-wrap: wrap; gap: 0.25rem; }\n\
         .equation-summary-targets code { display: inline-block; padding: 0.05rem 0.35rem; border-radius: 8px; background: rgba(255,255,255,0.07); }\n\
         @media (min-width: 1200px) { .equation-summary-cards { grid-template-columns: repeat(2, minmax(0, 1fr)); gap: 1.35rem; } }\n\
         @media (max-width: 900px) { .equation-summary-card { padding: 1rem; } .equation-summary-title { font-size: 1.12rem; } .equation-summary-latex { font-size: 1.3rem; } }\n\
         </style>\n";

/// One chip of a card: a label and its value.
pub open spec fn chip(label: Seq<char>, value: Seq<char>) -> Seq<char> {
    "<div class=\"equation-summary-chip\"><span class=\"equation-summary-chip-label\">"@ + label
        + "</span><span class=\"equation-summary-chip-value\">"@ + value + "</span></div>"@
}

/// The head of a card: the whole-card link, the title, the path id and the formula.
pub open spec fn card_head(r: EquationSummaryCardRow) -> Seq<char> {
    "<article class=\"equation-summary-card\">\n"@
        + "<a class=\"equation-summary-card-link\" href=\""@ + r.link@ + "\" aria-label=\"Open "@ + r.name@ + "\"></a>\n"@
        + "<div class=\"equation-summary-header\">\n"@
        + "<h3 class=\"equation-summary-title\"><a href=\""@ + r.link@ + "\">"@ + r.name@ + "</a></h3>\n"@
        + "<div class=\"equation-summary-path\"><code>"@ + r.path_id@ + "</code></div>\n"@
        + "</div>\n"@
        + "<div class=\"equation-summary-latex\">\\("@ + r.latex@ + "\\)</div>\n"@
}

/// The chips of a card: targets, default target, branches (unless `-`) and,
/// when asked for, the subcategory.
pub open spec fn card_chips(r: EquationSummaryCardRow, include_subcategory: bool) -> Seq<char> {
    "<div class=\"equation-summary-meta\">\n"@
        + "<div class=\"equation-summary-chip\"><span class=\"equation-summary-chip-label\">Targets</span><span class=\"equation-summary-chip-value equation-summary-targets\">"@
        + r.targets@ + "</span></div>"@
        + chip("Default"@, "<code>"@ + r.default_target@ + "</code>"@)
        + (if r.branches@ != "-"@ { chip("Branches"@, r.branches@) } else { Seq::empty() })
        + (if include_subcategory && r.subcategory is Some { chip("Subcategory"@, r.subcategory->0@) } else { Seq::empty() })
}

/// One card of the grid.
pub open spec fn card_text(r: EquationSummaryCardRow, include_subcategory: bool) -> Seq<char> {
    card_head(r) + card_chips(r, include_subcategory) + "\n</div>\n</article>\n"@
}

/// The cards of the given rows, in order.
pub open spec fn cards_text(rows: Seq<EquationSummaryCardRow>, include_subcategory: bool) -> Seq<char>
    decreases rows.len(),
{
    if rows.len() == 0 {
        Seq::empty()
    } else {
        cards_text(rows.drop_last(), include_subcategory) + card_text(rows.last(), include_subcategory)
    }
}

/// The card grid: the style sheet, then the cards inside one container.
pub open spec fn summary_cards_text(rows: Seq<EquationSummaryCardRow>, include_subcategory: bool) -> Seq<char> {
    SUMMARY_CARD_STYLE@ + "<div class=\"equation-summary-cards\">\n"@ + cards_text(rows, include_subcategory) + "</div>\n"@
}

fn push_chip(md: &mut String, label: &str, value: &str)
    ensures
        final(md)@ == old(md)@ + chip(label@, value@),
{
    push_str(md, "<div class=\"equation-summary-chip\"><span class=\"equation-summary-chip-label\">");
    push_str(md, label);
    push_str(md, "</span><span class=\"equation-summary-chip-value\">");
    push_str(md, value);
    push_str(md, "</span></div>");
}

fn push_card_head(md: &mut String, r: &EquationSummaryCardRow)
    ensures
        final(md)@ == old(md)@ + card_head(*r),
{
    let ghost start = md@;
    push_str(md, "<article class=\"equation-summary-card\">\n");
    push_str(md, "<a class=\"equation-summary-card-link\" href=\"");
    push_str(md, r.link.as_str());
    push_str(md, "\" aria-label=\"Open ");
    push_str(md, r.name.as_str());
    push_str(md, "\"></a>\n");
    push_str(md, "<div class=\"equation-summary-header\">\n");
    let ghost mid = md@;
    push_str(md, "<h3 class=\"equation-summary-title\"><a href=\"");
    push_str(md, r.link.as_str());
    push_str(md, "\">");
    push_str(md, r.name.as_str());
    push_str(md, "</a></h3>\n");
    push_str(md, "<div class=\"equation-summary-path\"><code>");
    push_str(md, r.path_id.as_str());
    push_str(md, "</code></div>\n");
    push_str(md, "</div>\n");
    push_str(md, "<div class=\"equation-summary-latex\">\\(");
    push_str(md, r.latex.as_str());
    push_str(md, "\\)</div>\n");
    assert(md@ =~= start + card_head(*r));
}

fn push_card_chips(md: &mut String, r: &EquationSummaryCardRow, include_subcategory: bool)
    ensures
        final(md)@ == old(md)@ + card_chips(*r, include_subcategory),
{
    let ghost start = md@;
    push_str(md, "<div class=\"equation-summary-meta\">\n");
    push_str(
        md,
        "<div class=\"equation-summary-chip\"><span class=\"equation-summary-chip-label\">Targets</span><span class=\"equation-summary-chip-value equation-summary-targets\">",
    );
    push_str(md, r.targets.as_str());
    push_str(md, "</span></div>");
    let mut code = String::from_str("<code>");
    push_str(&mut code, r.default_target.as_str());
    push_str(&mut code, "</code>");
    push_chip(md, "Default", code.as_str());
    let ghost after_default = md@;
    if !str_eq(r.branches.as_str(), "-") {
        push_chip(md, "Branches", r.branches.as_str());
    }
    let ghost after_branches = md@;
    if include_subcategory {
        match &r.subcategory {
            Some(sub) => push_chip(md, "Subcategory", sub.as_str()),
            None => {},
        }
    }
    assert(md@ =~= start + card_chips(*r, include_subcategory));
}

fn push_card(md: &mut String, r: &EquationSummaryCardRow, include_subcategory: bool)
    ensures
        final(md)@ == old(md)@ + card_text(*r, include_subcategory),
{
    let ghost start = md@;
    push_card_head(md, r);
    push_card_chips(md, r, include_subcategory);
    push_str(md, "\n</div>\n</article>\n");
    assert(md@ =~= start + card_text(*r, include_subcategory));
}

/// Renders the card grid of a category or subcategory page.
pub fn render_equation_summary_cards(rows: Vec<EquationSummaryCardRow>, include_subcategory: bool) -> (res: String)
    ensures
        res@ == summary_cards_text(rows@, include_subcategory),
{
    let mut md = String::from_str(SUMMARY_CARD_STYLE);
    push_str(&mut md, "<div class=\"equation-summary-cards\">\n");
    let ghost head = md@;
    let mut i: usize = 0;
    while i < rows.len()
        invariant
            i <= rows@.len(),
            md@ == head + cards_text(rows@.subrange(0, i as int), include_subcategory),
        decreases rows.len() - i,
    {
        push_card(&mut md, &rows[i], include_subcategory);
        assert(rows@.subrange(0, i + 1).drop_last() =~= rows@.subrange(0, i as int));
        i = i + 1;
    }
    assert(rows@.subrange(0, rows@.len() as int) =~= rows@);
    push_str(&mut md, "</div>\n");
    md
}

} // verus!
