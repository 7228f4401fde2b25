//! The index pages of equation categories and subcategories: a card per
//! equation, ordered by path id, then links to what the category holds.
use vstd::prelude::*;
use crate::docs::book_index::{BookCategory, BookEquation, BookSubcategory};
use crate::docs::naming::{title_case, title_case_of};
use crate::docs::ordered_names::{
    lemma_lex_irreflexive, lemma_lex_transitive, lemma_with_key_insert, lemma_with_key_push, lex_less, lex_lt, with_key,
};
use crate::docs::summary_cards::{render_equation_summary_cards, summary_cards_text, EquationSummaryCardRow};
use crate::strings::{concat_seq, join_seq, join_strings, push_str, views};

verus! {

// ---------------------------------------------------------------------------
// Cards
// ---------------------------------------------------------------------------

/// The texts a card shows.
pub struct CardView {
    pub path_id: Seq<char>,
    pub name: Seq<char>,
    pub link: Seq<char>,
    pub latex: Seq<char>,
    pub targets: Seq<char>,
    pub default_target: Seq<char>,
    pub branches: Seq<char>,
    pub subcategory: Option<Seq<char>>,
}

pub open spec fn card_view(r: EquationSummaryCardRow) -> CardView {
    CardView {
        path_id: r.path_id@,
        name: r.name@,
        link: r.link@,
        latex: r.latex@,
        targets: r.targets@,
        default_target: r.default_target@,
        branches: r.branches@,
        subcategory: match r.subcategory {
            Some(s) => Some(s@),
            None => None,
        },
    }
}

pub open spec fn card_views(rs: Seq<EquationSummaryCardRow>) -> Seq<CardView> {
    rs.map_values(|r: EquationSummaryCardRow| card_view(r))
}

/// A compact list of names, each as code, or `-` when there are none.
pub open spec fn compact_list(items: Seq<String>) -> Seq<char> {
    if items.len() == 0 {
        "-"@
    } else {
        join_seq(views(items).map_values(|t: Seq<char>| "<code>"@ + t + "</code>"@), ", "@)
    }
}

/// The card of an equation, linked as given and under an optional subcategory.
pub open spec fn equation_card(e: BookEquation, link: Seq<char>, sub: Option<Seq<char>>) -> CardView {
    CardView {
        path_id: e.path_id@,
        name: e.name@,
        link: link,
        latex: e.latex@,
        targets: compact_list(e.solve_targets@),
        default_target: match e.default_target {
            Some(t) => t@,
            None => "-"@,
        },
        branches: compact_list(e.branches@),
        subcategory: sub,
    }
}

/// The cards of a subcategory's equations as its own page shows them.
pub open spec fn subcategory_cards(s: BookSubcategory) -> Seq<CardView> {
    s.equations@.map_values(|e: BookEquation| equation_card(e, "./"@ + e.slug@ + ".md"@, None))
}

/// The cards of subcategories' equations as their category's page shows them.
pub open spec fn nested_cards(subs: Seq<BookSubcategory>) -> Seq<CardView>
    decreases subs.len(),
{
    if subs.len() == 0 {
        Seq::empty()
    } else {
        let s = subs.last();
        nested_cards(subs.drop_last()) + s.equations@.map_values(
            |e: BookEquation| equation_card(e, "./"@ + s.name@ + "/"@ + e.slug@ + ".md"@, Some(title_case_of(s.name@))),
        )
    }
}

/// The cards of a category's page: its own equations, then those of its
/// subcategories, each naming its subcategory.
pub open spec fn category_cards(c: BookCategory) -> Seq<CardView> {
    c.root_equations@.map_values(|e: BookEquation| equation_card(e, "./"@ + e.slug@ + ".md"@, None)) + nested_cards(
        c.subcategories@,
    )
}

/// No card comes after one with a larger path id.
pub open spec fn sorted_by_path(rs: Seq<EquationSummaryCardRow>) -> bool {
    forall|i: int, j: int| 0 <= i < j < rs.len() ==> !lex_lt(rs[j].path_id@, rs[i].path_id@)
}

/// A card's path id.
pub open spec fn card_path() -> spec_fn(CardView) -> Seq<char> {
    |c: CardView| c.path_id
}

/// `text` is the card grid of exactly these cards, ordered by path id, cards
/// with equal path ids in the order given.
pub open spec fn is_card_grid_of(text: Seq<char>, cards: Seq<CardView>, include_subcategory: bool) -> bool {
    exists|rs: Seq<EquationSummaryCardRow>|
        #![trigger summary_cards_text(rs, include_subcategory)]
        {
            &&& sorted_by_path(rs)
            &&& card_views(rs).to_multiset() == cards.to_multiset()
            &&& forall|k: Seq<char>| #[trigger] with_key(card_views(rs), card_path(), k) == with_key(cards, card_path(), k)
            &&& text == summary_cards_text(rs, include_subcategory)
        }
}

fn compact_list_exec(items: &Vec<String>) -> (res: String)
    ensures
        res@ == compact_list(items@),
{
    if items.len() == 0 {
        return String::from_str("-");
    }
    let mut parts: Vec<String> = Vec::new();
    let mut i: usize = 0;
    while i < items.len()
        invariant
            i <= items@.len(),
            parts@.len() == i,
            forall|k: int| 0 <= k < i ==> (#[trigger] parts@[k])@ == "<code>"@ + items@[k]@ + "</code>"@,
        decreases items.len() - i,
    {
        let mut s = String::from_str("<code>");
        push_str(&mut s, items[i].as_str());
        push_str(&mut s, "</code>");
        parts.push(s);
        i = i + 1;
    }
    assert(views(parts@) =~= views(items@).map_values(|t: Seq<char>| "<code>"@ + t + "</code>"@));
    join_strings(&parts, ", ")
}

fn card_row(e: &BookEquation, link: String, sub: Option<String>) -> (r: EquationSummaryCardRow)
    ensures
        card_view(r) == equation_card(
            *e,
            link@,
            match sub {
                Some(s) => Some(s@),
                None => None,
            },
        ),
{
    let default_target = match &e.default_target {
        Some(t) => t.clone(),
        None => String::from_str("-"),
    };
    EquationSummaryCardRow {
        path_id: e.path_id.clone(),
        name: e.name.clone(),
        link,
        latex: e.latex.clone(),
        targets: compact_list_exec(&e.solve_targets),
        default_target,
        branches: compact_list_exec(&e.branches),
        subcategory: sub,
    }
}

/// Orders cards by path id; cards with equal path ids keep their order.
pub fn sort_by_path(rows: Vec<EquationSummaryCardRow>) -> (res: Vec<EquationSummaryCardRow>)
    ensures
        sorted_by_path(res@),
        card_views(res@).to_multiset() == card_views(rows@).to_multiset(),
        forall|k: Seq<char>| #[trigger] with_key(card_views(res@), card_path(), k) == with_key(
            card_views(rows@),
            card_path(),
            k,
        ),
{
    let mut res: Vec<EquationSummaryCardRow> = Vec::new();
    let mut i: usize = 0;
    let n = rows.len();
    let ghost all = rows@;
    let mut rest = rows;
    assert(all.subrange(0, n as int) =~= all);
    assert(card_views(res@) =~= card_views(all.subrange(0, 0)));
    while i < n
        invariant
            n == all.len(),
            i <= n,
            rest@ == all.subrange(i as int, n as int),
            sorted_by_path(res@),
            card_views(res@).to_multiset() == card_views(all.subrange(0, i as int)).to_multiset(),
            forall|k: Seq<char>| #[trigger] with_key(card_views(res@), card_path(), k) == with_key(
                card_views(all.subrange(0, i as int)),
                card_path(),
                k,
            ),
        decreases n - i,
    {
        let x = rest.remove(0);
        assert(x == all[i as int]);
        assert(rest@ =~= all.subrange(i + 1, n as int));
        let mut p: usize = 0;
        while p < res.len() && !lex_less(x.path_id.as_str(), res[p].path_id.as_str())
            invariant
                p <= res@.len(),
                forall|k: int| 0 <= k < p ==> !lex_lt(x.path_id@, res@[k].path_id@),
            decreases res.len() - p,
        {
            p = p + 1;
        }
        let ghost old_res = res@;
        proof {
            assert forall|m: int| p <= m < old_res.len() implies !lex_lt(#[trigger] old_res[m].path_id@, x.path_id@) by {
                if lex_lt(old_res[m].path_id@, x.path_id@) {
                    assert(lex_lt(x.path_id@, old_res[p as int].path_id@));
                    lemma_lex_transitive(old_res[m].path_id@, x.path_id@, old_res[p as int].path_id@);
                    if m > p {
                        assert(!lex_lt(old_res[m].path_id@, old_res[p as int].path_id@));
                    } else {
                        lemma_lex_irreflexive(old_res[p as int].path_id@);
                    }
                }
            }
        }
        res.insert(p, x);
        proof {
            let nr = res@;
            assert(nr =~= old_res.insert(p as int, x));
            assert forall|a: int, b: int| 0 <= a < b < nr.len() implies !lex_lt(nr[b].path_id@, nr[a].path_id@) by {
                if a < p && b == p {
                } else if a < p && b > p {
                    assert(nr[b] == old_res[b - 1]);
                } else if a == p {
                    assert(nr[b] == old_res[b - 1]);
                    assert(!lex_lt(old_res[b - 1].path_id@, x.path_id@));
                } else if a > p {
                    assert(nr[a] == old_res[a - 1]);
                    assert(nr[b] == old_res[b - 1]);
                } else {
                    assert(nr[a] == old_res[a]);
                    assert(nr[b] == old_res[b]);
                }
            }
            assert(card_views(nr) =~= card_views(old_res).insert(p as int, card_view(x)));
            vstd::seq_lib::to_multiset_insert(card_views(old_res), p as int, card_view(x));
            assert(card_views(all.subrange(0, i + 1)) =~= card_views(all.subrange(0, i as int)).push(card_view(all[i as int])));
            vstd::seq_lib::to_multiset_build(card_views(all.subrange(0, i as int)), card_view(all[i as int]));
            // Every card from position `p` on has a greater path id than `x`.
            let ov = card_views(old_res);
            assert forall|m: int| p <= m < ov.len() implies (#[trigger] ov[m]).path_id != x.path_id@ by {
                assert(ov[m].path_id == old_res[m].path_id@);
                if old_res[m].path_id@ == x.path_id@ {
                    if m == p {
                        lemma_lex_irreflexive(x.path_id@);
                    } else {
                        assert(!lex_lt(old_res[m].path_id@, old_res[p as int].path_id@));
                    }
                }
            }
            assert forall|k: Seq<char>| #[trigger] with_key(card_views(nr), card_path(), k) == with_key(
                card_views(all.subrange(0, i + 1)),
                card_path(),
                k,
            ) by {
                lemma_with_key_insert(ov, p as int, card_view(x), card_path(), k);
                lemma_with_key_push(card_views(all.subrange(0, i as int)), card_view(all[i as int]), card_path(), k);
            }
        }
        i = i + 1;
    }
    res
}

fn push_root_rows(rows: &mut Vec<EquationSummaryCardRow>, es: &Vec<BookEquation>)
    ensures
        card_views(final(rows)@) == card_views(old(rows)@) + es@.map_values(
            |e: BookEquation| equation_card(e, "./"@ + e.slug@ + ".md"@, None),
        ),
{
    let ghost start = card_views(rows@);
    let mut i: usize = 0;
    while i < es.len()
        invariant
            i <= es@.len(),
            card_views(rows@) == start + es@.subrange(0, i as int).map_values(
                |e: BookEquation| equation_card(e, "./"@ + e.slug@ + ".md"@, None),
            ),
        decreases es.len() - i,
    {
        let mut link = String::from_str("./");
        push_str(&mut link, es[i].slug.as_str());
        push_str(&mut link, ".md");
        let r = card_row(&es[i], link, None);
        let ghost before = card_views(rows@);
        rows.push(r);
        proof {
            assert(card_views(rows@) =~= before.push(card_view(r)));
            assert(es@.subrange(0, i + 1).map_values(|e: BookEquation| equation_card(e, "./"@ + e.slug@ + ".md"@, None))
                =~= es@.subrange(0, i as int).map_values(|e: BookEquation| equation_card(e, "./"@ + e.slug@ + ".md"@, None)).push(
                equation_card(es@[i as int], "./"@ + es@[i as int].slug@ + ".md"@, None),
            ));
        }
        i = i + 1;
    }
    assert(es@.subrange(0, es@.len() as int) =~= es@);
}

fn push_nested_rows(rows: &mut Vec<EquationSummaryCardRow>, s: &BookSubcategory)
    ensures
        card_views(final(rows)@) == card_views(old(rows)@) + s.equations@.map_values(
            |e: BookEquation| equation_card(e, "./"@ + s.name@ + "/"@ + e.slug@ + ".md"@, Some(title_case_of(s.name@))),
        ),
{
    let ghost start = card_views(rows@);
    let es = &s.equations;
    let mut i: usize = 0;
    while i < es.len()
        invariant
            i <= es@.len(),
            es@ == s.equations@,
            card_views(rows@) == start + es@.subrange(0, i as int).map_values(
                |e: BookEquation| equation_card(e, "./"@ + s.name@ + "/"@ + e.slug@ + ".md"@, Some(title_case_of(s.name@))),
            ),
        decreases es.len() - i,
    {
        let mut link = String::from_str("./");
        push_str(&mut link, s.name.as_str());
        push_str(&mut link, "/");
        push_str(&mut link, es[i].slug.as_str());
        push_str(&mut link, ".md");
        let r = card_row(&es[i], link, Some(title_case(s.name.as_str())));
        let ghost before = card_views(rows@);
        rows.push(r);
        proof {
            let f = |e: BookEquation| equation_card(e, "./"@ + s.name@ + "/"@ + e.slug@ + ".md"@, Some(title_case_of(s.name@)));
            assert(card_views(rows@) =~= before.push(card_view(r)));
            assert(es@.subrange(0, i + 1).map_values(f) =~= es@.subrange(0, i as int).map_values(f).push(f(es@[i as int])));
        }
        i = i + 1;
    }
    assert(es@.subrange(0, es@.len() as int) =~= es@);
}

/// Renders the card grid of a category's page.
pub fn render_category_equation_summary_cards(c: &BookCategory) -> (res: String)
    ensures
        is_card_grid_of(res@, category_cards(*c), true),
{
    let mut rows: Vec<EquationSummaryCardRow> = Vec::new();
    push_root_rows(&mut rows, &c.root_equations);
    let ghost roots = card_views(rows@);
    let mut i: usize = 0;
    assert(c.subcategories@.subrange(0, 0) =~= Seq::<BookSubcategory>::empty());
    while i < c.subcategories.len()
        invariant
            i <= c.subcategories@.len(),
            card_views(rows@) == roots + nested_cards(c.subcategories@.subrange(0, i as int)),
        decreases c.subcategories.len() - i,
    {
        push_nested_rows(&mut rows, &c.subcategories[i]);
        proof {
            let sub = c.subcategories@.subrange(0, i + 1);
            assert(sub.drop_last() =~= c.subcategories@.subrange(0, i as int));
            assert(sub.last() == c.subcategories@[i as int]);
        }
        i = i + 1;
    }
    assert(c.subcategories@.subrange(0, c.subcategories@.len() as int) =~= c.subcategories@);
    let ghost built = rows@;
    let sorted = sort_by_path(rows);
    let res = render_equation_summary_cards(sorted, true);
    proof {
        assert(card_views(built) == category_cards(*c));
        assert(summary_cards_text(sorted@, true) == res@);
    }
    res
}

/// Renders the card grid of a subcategory's page.
pub fn render_subcategory_equation_summary_cards(s: &BookSubcategory) -> (res: String)
    ensures
        is_card_grid_of(res@, subcategory_cards(*s), false),
{
    let mut rows: Vec<EquationSummaryCardRow> = Vec::new();
    push_root_rows(&mut rows, &s.equations);
    assert(card_views(rows@) =~= subcategory_cards(*s));
    let sorted = sort_by_path(rows);
    let res = render_equation_summary_cards(sorted, false);
    assert(summary_cards_text(sorted@, false) == res@);
    res
}

// ---------------------------------------------------------------------------
// Index pages
// ---------------------------------------------------------------------------

pub open spec fn equation_link_line(e: BookEquation) -> Seq<char> {
    "- ["@ + e.name@ + "](./"@ + e.slug@ + ".md)\n"@
}

pub open spec fn subcategory_link_line(s: BookSubcategory) -> Seq<char> {
    "- ["@ + title_case_of(s.name@) + "](./"@ + s.name@ + "/index.md)\n"@
}

/// What a category page lists under Browse: its own equations, then its subcategories.
pub open spec fn category_browse(c: BookCategory) -> Seq<char> {
    concat_seq(c.root_equations@.map_values(|e: BookEquation| equation_link_line(e))) + concat_seq(
        c.subcategories@.map_values(|s: BookSubcategory| subcategory_link_line(s)),
    )
}

/// A category's page: its title, its card grid, then what it holds.
pub open spec fn is_category_index(text: Seq<char>, c: BookCategory) -> bool {
    exists|cards: Seq<char>|
        #![trigger is_card_grid_of(cards, category_cards(c), true)]
        {
            &&& is_card_grid_of(cards, category_cards(c), true)
            &&& text == "# "@ + title_case_of(c.name@) + "\n\n## Equation Summary\n\n"@ + cards + "\n## Browse\n\n"@
                + category_browse(c)
        }
}

/// A subcategory's page: both titles, its card grid, then its equations.
pub open spec fn is_subcategory_index(text: Seq<char>, c: BookCategory, s: BookSubcategory) -> bool {
    exists|cards: Seq<char>|
        #![trigger is_card_grid_of(cards, subcategory_cards(s), false)]
        {
            &&& is_card_grid_of(cards, subcategory_cards(s), false)
            &&& text == "# "@ + title_case_of(c.name@) + " / "@ + title_case_of(s.name@) + "\n\n## Equation Summary\n\n"@
                + cards + "\n## Browse\n\n"@ + concat_seq(s.equations@.map_values(|e: BookEquation| equation_link_line(e)))
        }
}

fn push_equation_links(out: &mut String, es: &Vec<BookEquation>)
    ensures
        final(out)@ == old(out)@ + concat_seq(es@.map_values(|e: BookEquation| equation_link_line(e))),
{
    let ghost start = out@;
    let mut i: usize = 0;
    while i < es.len()
        invariant
            i <= es@.len(),
            out@ == start + concat_seq(es@.subrange(0, i as int).map_values(|e: BookEquation| equation_link_line(e))),
        decreases es.len() - i,
    {
        push_str(out, "- [");
        push_str(out, es[i].name.as_str());
        push_str(out, "](./");
        push_str(out, es[i].slug.as_str());
        push_str(out, ".md)\n");
        proof {
            let t = es@.subrange(0, i + 1).map_values(|e: BookEquation| equation_link_line(e));
            assert(t.drop_last() =~= es@.subrange(0, i as int).map_values(|e: BookEquation| equation_link_line(e)));
        }
        i = i + 1;
    }
    assert(es@.subrange(0, es@.len() as int) =~= es@);
}

/// Renders a category's index page.
pub fn render_category_index(c: &BookCategory) -> (res: String)
    ensures
        is_category_index(res@, *c),
{
    let mut md = String::from_str("# ");
    push_str(&mut md, title_case(c.name.as_str()).as_str());
    push_str(&mut md, "\n\n## Equation Summary\n\n");
    let cards = render_category_equation_summary_cards(c);
    push_str(&mut md, cards.as_str());
    push_str(&mut md, "\n## Browse\n\n");
    let ghost head = md@;
    assert(head == "# "@ + title_case_of(c.name@) + "\n\n## Equation Summary\n\n"@ + cards@ + "\n## Browse\n\n"@);
    push_equation_links(&mut md, &c.root_equations);
    let ghost mid = md@;
    let mut i: usize = 0;
    while i < c.subcategories.len()
        invariant
            i <= c.subcategories@.len(),
            md@ == mid + concat_seq(
                c.subcategories@.subrange(0, i as int).map_values(|s: BookSubcategory| subcategory_link_line(s)),
            ),
        decreases c.subcategories.len() - i,
    {
        let s = &c.subcategories[i];
        push_str(&mut md, "- [");
        push_str(&mut md, title_case(s.name.as_str()).as_str());
        push_str(&mut md, "](./");
        push_str(&mut md, s.name.as_str());
        push_str(&mut md, "/index.md)\n");
        proof {
            let t = c.subcategories@.subrange(0, i + 1).map_values(|s: BookSubcategory| subcategory_link_line(s));
            assert(t.drop_last() =~= c.subcategories@.subrange(0, i as int).map_values(
                |s: BookSubcategory| subcategory_link_line(s),
            ));
        }
        i = i + 1;
    }
    assert(c.subcategories@.subrange(0, c.subcategories@.len() as int) =~= c.subcategories@);
    assert(is_card_grid_of(cards@, category_cards(*c), true));
    assert(md@ == "# "@ + title_case_of(c.name@) + "\n\n## Equation Summary\n\n"@ + cards@ + "\n## Browse\n\n"@
        + category_browse(*c));
    md
}

/// Renders a subcategory's index page.
pub fn render_subcategory_index(c: &BookCategory, s: &BookSubcategory) -> (res: String)
    ensures
        is_subcategory_index(res@, *c, *s),
{
    let mut md = String::from_str("# ");
    push_str(&mut md, title_case(c.name.as_str()).as_str());
    push_str(&mut md, " / ");
    push_str(&mut md, title_case(s.name.as_str()).as_str());
    push_str(&mut md, "\n\n## Equation Summary\n\n");
    let cards = render_subcategory_equation_summary_cards(s);
    push_str(&mut md, cards.as_str());
    push_str(&mut md, "\n## Browse\n\n");
    push_equation_links(&mut md, &s.equations);
    assert(is_card_grid_of(cards@, subcategory_cards(*s), false));
    assert(md@ == "# "@ + title_case_of(c.name@) + " / "@ + title_case_of(s.name@) + "\n\n## Equation Summary\n\n"@
        + cards@ + "\n## Browse\n\n"@ + concat_seq(s.equations@.map_values(|e: BookEquation| equation_link_line(e))));
    md
}

} // verus!
