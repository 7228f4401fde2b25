//! The handbook's table of contents and its catalog index pages, from the
//! lists of what the handbook documents.
use vstd::prelude::*;
use crate::docs::naming::{snake_case, snake_case_of, title_case, title_case_of};
use crate::strings::{concat_seq, decimal_text, join_seq, join_strings, push_str, usize_text, views};

verus! {

/// An equation page as the table of contents and the category pages list it.
#[derive(Debug, Clone)]
pub struct BookEquation {
    pub path_id: String,
    pub name: String,
    pub slug: String,
    pub latex: String,
    pub solve_targets: Vec<String>,
    pub default_target: Option<String>,
    pub branches: Vec<String>,
}

/// A subcategory of equations.
#[derive(Debug, Clone)]
pub struct BookSubcategory {
    pub name: String,
    pub equations: Vec<BookEquation>,
}

/// A category of equations: its own pages, then its subcategories.
#[derive(Debug, Clone)]
pub struct BookCategory {
    pub name: String,
    pub root_equations: Vec<BookEquation>,
    pub subcategories: Vec<BookSubcategory>,
}

/// A page of a family, device, constant, fluid or material.
#[derive(Debug, Clone)]
pub struct BookEntry {
    pub name: String,
    pub key: String,
}

/// Everything the handbook has a page for.
#[derive(Debug, Clone)]
pub struct BookContents {
    pub categories: Vec<BookCategory>,
    pub families: Vec<BookEntry>,
    pub devices: Vec<BookEntry>,
    pub constants: Vec<BookEntry>,
    pub fluids: Vec<BookEntry>,
    pub materials: Vec<BookEntry>,
}

// ---------------------------------------------------------------------------
// The table of contents
// ---------------------------------------------------------------------------

/// One list item linking `title` to `target`, indented by `indent`.
pub open spec fn link_line(indent: Seq<char>, title: Seq<char>, target: Seq<char>) -> Seq<char> {
    indent + "- ["@ + title + "]("@ + target + ")\n"@
}

/// The fixed chapters that open the table of contents.
pub const SUMMARY_HEAD: &'static str = "# Summary\n\n- [Home](index.md)\n- [Getting Started](getting_started/index.md)\n- [Input Styles](input_styles/index.md)\n- [Units & Quantities](units_quantities/index.md)\n- [Examples & Workflows](workflows/index.md)\n- [Engineering Solve Layer](solve/index.md)\n- [Studies and Parameter Sweeps](studies/index.md)\n- [Bindings (Python/Excel)](bindings/index.md)\n- [Devices Guide](devices/guide.md)\n- [YAML Authoring](yaml_authoring/index.md)\n- [Validation / Trust](validation_trust/index.md)\n- [Architecture Layers](architecture/index.md)\n- [Equations Guide](equations/guide.md)\n- [Equation Catalog](equations/index.md)\n";

/// The entries of one subcategory: its index, then its pages.
pub open spec fn subcategory_lines(cat: Seq<char>, sub: BookSubcategory) -> Seq<char> {
    link_line("    "@, title_case_of(sub.name@), "equations/"@ + cat + "/"@ + sub.name@ + "/index.md"@) + concat_seq(
        sub.equations@.map_values(
            |e: BookEquation|
                link_line("      "@, e.name@, "equations/"@ + cat + "/"@ + sub.name@ + "/"@ + e.slug@ + ".md"@),
        ),
    )
}

/// The entries of one category: its index, its own pages, then its subcategories.
pub open spec fn category_lines(c: BookCategory) -> Seq<char> {
    link_line("  "@, title_case_of(c.name@), "equations/"@ + c.name@ + "/index.md"@) + concat_seq(
        c.root_equations@.map_values(
            |e: BookEquation| link_line("    "@, e.name@, "equations/"@ + c.name@ + "/"@ + e.slug@ + ".md"@),
        ),
    ) + concat_seq(c.subcategories@.map_values(|s: BookSubcategory| subcategory_lines(c.name@, s)))
}

/// One nested entry per page under `dir`, named by the key in snake case, or
/// by the key as it is.
pub open spec fn entry_lines(dir: Seq<char>, es: Seq<BookEntry>, snake: bool) -> Seq<char> {
    concat_seq(
        es.map_values(
            |e: BookEntry|
                link_line("  "@, e.name@, dir + (if snake { snake_case_of(e.key@) } else { e.key@ }) + ".md"@),
        ),
    )
}

/// The handbook's `SUMMARY.md`.
pub open spec fn summary_text(c: BookContents) -> Seq<char> {
    SUMMARY_HEAD@ + concat_seq(c.categories@.map_values(|cat: BookCategory| category_lines(cat)))
        + "- [Equation Families](equations/families/index.md)\n"@ + entry_lines(
        "equations/families/"@,
        c.families@,
        true,
    ) + "- [Devices](devices/index.md)\n"@ + entry_lines("devices/"@, c.devices@, true)
        + "- [Constants](constants/index.md)\n"@ + entry_lines("constants/"@, c.constants@, false)
        + "- [Fluids Guide](fluids/guide.md)\n- [Fluids](fluids/index.md)\n"@ + entry_lines(
        "fluids/"@,
        c.fluids@,
        true,
    ) + "- [Materials Guide](materials/guide.md)\n- [Materials](materials/index.md)\n"@ + entry_lines(
        "materials/"@,
        c.materials@,
        true,
    )
}

fn push_link_line(out: &mut String, indent: &str, title: &str, target: &str)
    ensures
        final(out)@ == old(out)@ + link_line(indent@, title@, target@),
{
    push_str(out, indent);
    push_str(out, "- [");
    push_str(out, title);
    push_str(out, "](");
    push_str(out, target);
    push_str(out, ")\n");
}

fn push_equation_lines(out: &mut String, indent: &str, dir: &str, es: &Vec<BookEquation>)
    ensures
        final(out)@ == old(out)@ + concat_seq(
            es@.map_values(|e: BookEquation| link_line(indent@, e.name@, dir@ + e.slug@ + ".md"@)),
        ),
{
    let ghost start = out@;
    let mut i: usize = 0;
    while i < es.len()
        invariant
            i <= es@.len(),
            out@ == start + concat_seq(
                es@.subrange(0, i as int).map_values(|e: BookEquation| link_line(indent@, e.name@, dir@ + e.slug@ + ".md"@)),
            ),
        decreases es.len() - i,
    {
        let mut target = String::from_str(dir);
        push_str(&mut target, es[i].slug.as_str());
        push_str(&mut target, ".md");
        push_link_line(out, indent, es[i].name.as_str(), target.as_str());
        proof {
            let t = es@.subrange(0, i + 1).map_values(
                |e: BookEquation| link_line(indent@, e.name@, dir@ + e.slug@ + ".md"@),
            );
            assert(t.drop_last() =~= es@.subrange(0, i as int).map_values(
                |e: BookEquation| link_line(indent@, e.name@, dir@ + e.slug@ + ".md"@),
            ));
        }
        i = i + 1;
    }
    assert(es@.subrange(0, es@.len() as int) =~= es@);
}

fn push_subcategory(out: &mut String, cat: &str, sub: &BookSubcategory)
    ensures
        final(out)@ == old(out)@ + subcategory_lines(cat@, *sub),
{
    let ghost start = out@;
    let title = title_case(sub.name.as_str());
    let mut target = String::from_str("equations/");
    push_str(&mut target, cat);
    push_str(&mut target, "/");
    push_str(&mut target, sub.name.as_str());
    let mut dir = target.clone();
    push_str(&mut target, "/index.md");
    push_link_line(out, "    ", title.as_str(), target.as_str());
    push_str(&mut dir, "/");
    push_equation_lines(out, "      ", dir.as_str(), &sub.equations);
    proof {
        let f1 = |e: BookEquation| link_line("      "@, e.name@, dir@ + e.slug@ + ".md"@);
        let f2 = |e: BookEquation| link_line("      "@, e.name@, "equations/"@ + cat@ + "/"@ + sub.name@ + "/"@ + e.slug@ + ".md"@);
        assert forall|k: int| 0 <= k < sub.equations@.len() implies sub.equations@.map_values(f1)[k] == sub.equations@.map_values(f2)[k] by {
            assert(dir@ + sub.equations@[k].slug@ + ".md"@ =~= "equations/"@ + cat@ + "/"@ + sub.name@ + "/"@ + sub.equations@[k].slug@ + ".md"@);
        }
        assert(sub.equations@.map_values(f1) =~= sub.equations@.map_values(f2));
        assert(out@ =~= start + subcategory_lines(cat@, *sub));
    }
}

fn push_category(out: &mut String, c: &BookCategory)
    ensures
        final(out)@ == old(out)@ + category_lines(*c),
{
    let ghost start = out@;
    let title = title_case(c.name.as_str());
    let mut dir = String::from_str("equations/");
    push_str(&mut dir, c.name.as_str());
    let mut target = dir.clone();
    push_str(&mut target, "/index.md");
    push_link_line(out, "  ", title.as_str(), target.as_str());
    push_str(&mut dir, "/");
    push_equation_lines(out, "    ", dir.as_str(), &c.root_equations);
    let ghost after_roots = out@;
    let mut i: usize = 0;
    while i < c.subcategories.len()
        invariant
            i <= c.subcategories@.len(),
            out@ == after_roots + concat_seq(
                c.subcategories@.subrange(0, i as int).map_values(|s: BookSubcategory| subcategory_lines(c.name@, s)),
            ),
        decreases c.subcategories.len() - i,
    {
        push_subcategory(out, c.name.as_str(), &c.subcategories[i]);
        proof {
            let t = c.subcategories@.subrange(0, i + 1).map_values(|s: BookSubcategory| subcategory_lines(c.name@, s));
            assert(t.drop_last() =~= c.subcategories@.subrange(0, i as int).map_values(
                |s: BookSubcategory| subcategory_lines(c.name@, s),
            ));
        }
        i = i + 1;
    }
    proof {
        assert(c.subcategories@.subrange(0, c.subcategories@.len() as int) =~= c.subcategories@);
        let f1 = |e: BookEquation| link_line("    "@, e.name@, dir@ + e.slug@ + ".md"@);
        let f2 = |e: BookEquation| link_line("    "@, e.name@, "equations/"@ + c.name@ + "/"@ + e.slug@ + ".md"@);
        assert forall|k: int| 0 <= k < c.root_equations@.len() implies c.root_equations@.map_values(f1)[k]
            == c.root_equations@.map_values(f2)[k] by {
            assert(dir@ + c.root_equations@[k].slug@ + ".md"@ =~= "equations/"@ + c.name@ + "/"@ + c.root_equations@[k].slug@ + ".md"@);
        }
        assert(c.root_equations@.map_values(f1) =~= c.root_equations@.map_values(f2));
        assert(out@ =~= start + category_lines(*c));
    }
}

fn push_entry_lines(out: &mut String, dir: &str, es: &Vec<BookEntry>, snake: bool)
    ensures
        final(out)@ == old(out)@ + entry_lines(dir@, es@, snake),
{
    let ghost start = out@;
    let mut i: usize = 0;
    while i < es.len()
        invariant
            i <= es@.len(),
            out@ == start + entry_lines(dir@, es@.subrange(0, i as int), snake),
        decreases es.len() - i,
    {
        let mut target = String::from_str(dir);
        if snake {
            let k = snake_case(es[i].key.as_str());
            push_str(&mut target, k.as_str());
        } else {
            push_str(&mut target, es[i].key.as_str());
        }
        push_str(&mut target, ".md");
        push_link_line(out, "  ", es[i].name.as_str(), target.as_str());
        proof {
            let f = |e: BookEntry| link_line("  "@, e.name@, dir@ + (if snake { snake_case_of(e.key@) } else { e.key@ }) + ".md"@);
            let t = es@.subrange(0, i + 1).map_values(f);
            assert(t.drop_last() =~= es@.subrange(0, i as int).map_values(f));
        }
        i = i + 1;
    }
    assert(es@.subrange(0, es@.len() as int) =~= es@);
}

/// Renders the handbook's table of contents: the fixed chapters, every
/// equation category with its pages and subcategories, then the families,
/// devices, constants, fluids and materials, each with its pages.
pub fn render_summary(c: &BookContents) -> (res: String)
    ensures
        res@ == summary_text(*c),
{
    let mut s = String::from_str(SUMMARY_HEAD);
    let ghost head = s@;
    let mut i: usize = 0;
    while i < c.categories.len()
        invariant
            i <= c.categories@.len(),
            head == SUMMARY_HEAD@,
            s@ == head + concat_seq(c.categories@.subrange(0, i as int).map_values(|cat: BookCategory| category_lines(cat))),
        decreases c.categories.len() - i,
    {
        push_category(&mut s, &c.categories[i]);
        proof {
            let t = c.categories@.subrange(0, i + 1).map_values(|cat: BookCategory| category_lines(cat));
            assert(t.drop_last() =~= c.categories@.subrange(0, i as int).map_values(|cat: BookCategory| category_lines(cat)));
        }
        i = i + 1;
    }
    assert(c.categories@.subrange(0, c.categories@.len() as int) =~= c.categories@);
    push_str(&mut s, "- [Equation Families](equations/families/index.md)\n");
    push_entry_lines(&mut s, "equations/families/", &c.families, true);
    push_str(&mut s, "- [Devices](devices/index.md)\n");
    push_entry_lines(&mut s, "devices/", &c.devices, true);
    push_str(&mut s, "- [Constants](constants/index.md)\n");
    push_entry_lines(&mut s, "constants/", &c.constants, false);
    push_str(&mut s, "- [Fluids Guide](fluids/guide.md)\n- [Fluids](fluids/index.md)\n");
    push_entry_lines(&mut s, "fluids/", &c.fluids, true);
    push_str(&mut s, "- [Materials Guide](materials/guide.md)\n- [Materials](materials/index.md)\n");
    push_entry_lines(&mut s, "materials/", &c.materials, true);
    s
}

// ---------------------------------------------------------------------------
// The families index
// ---------------------------------------------------------------------------

/// A family as its index lists it.
#[derive(Debug, Clone)]
pub struct FamilyIndexEntry {
    pub name: String,
    pub key: String,
    pub canonical_equation: String,
    pub variant_count: usize,
}

pub open spec fn family_index_line(f: FamilyIndexEntry) -> Seq<char> {
    "- ["@ + f.name@ + "](./"@ + snake_case_of(f.key@) + ".md): canonical `"@ + f.canonical_equation@ + "` ("@
        + decimal_text(f.variant_count as nat) + " variants)\n"@
}

/// The families index: a note when there are none, else one line per family.
pub open spec fn families_index_text(fs: Seq<FamilyIndexEntry>) -> Seq<char> {
    if fs.len() == 0 {
        "# Equation Families\n\nNo equation families are currently defined.\n"@
    } else {
        "# Equation Families\n\nFamilies group common forms of the same physical law without duplicating conceptual identity.\n\n"@
            + concat_seq(fs.map_values(|f: FamilyIndexEntry| family_index_line(f)))
    }
}

/// Renders the index page of the equation families.
pub fn render_families_index(families: &Vec<FamilyIndexEntry>) -> (res: String)
    ensures
        res@ == families_index_text(families@),
{
    if families.len() == 0 {
        return String::from_str("# Equation Families\n\nNo equation families are currently defined.\n");
    }
    let mut md = String::from_str(
        "# Equation Families\n\nFamilies group common forms of the same physical law without duplicating conceptual identity.\n\n",
    );
    let ghost head = md@;
    let mut i: usize = 0;
    while i < families.len()
        invariant
            i <= families@.len(),
            families@.len() > 0,
            head == "# Equation Families\n\nFamilies group common forms of the same physical law without duplicating conceptual identity.\n\n"@,
            md@ == head + concat_seq(families@.subrange(0, i as int).map_values(|f: FamilyIndexEntry| family_index_line(f))),
        decreases families.len() - i,
    {
        let f = &families[i];
        push_str(&mut md, "- [");
        push_str(&mut md, f.name.as_str());
        push_str(&mut md, "](./");
        let k = snake_case(f.key.as_str());
        push_str(&mut md, k.as_str());
        push_str(&mut md, ".md): canonical `");
        push_str(&mut md, f.canonical_equation.as_str());
        push_str(&mut md, "` (");
        let n = usize_text(f.variant_count);
        push_str(&mut md, n.as_str());
        push_str(&mut md, " variants)\n");
        proof {
            let t = families@.subrange(0, i + 1).map_values(|f: FamilyIndexEntry| family_index_line(f));
            assert(t.drop_last() =~= families@.subrange(0, i as int).map_values(|f: FamilyIndexEntry| family_index_line(f)));
        }
        i = i + 1;
    }
    assert(families@.subrange(0, families@.len() as int) =~= families@);
    md
}

// ---------------------------------------------------------------------------
// The equation catalog index
// ---------------------------------------------------------------------------

/// An equation as the catalog table lists it: its page name and the link to
/// its page from the index, its category, how many targets it solves for, and
/// the constants it uses.
#[derive(Debug, Clone)]
pub struct IndexedEquation {
    pub name: String,
    pub link: String,
    pub category: String,
    pub target_count: usize,
    pub constants: Vec<String>,
}

/// The constants cell: a dash when there are none, else each key in backticks.
pub open spec fn code_list_cell(keys: Seq<String>) -> Seq<char> {
    if keys.len() == 0 {
        "-"@
    } else {
        join_seq(views(keys).map_values(|k: Seq<char>| "`"@ + k + "`"@), ", "@)
    }
}

pub open spec fn equation_row(e: IndexedEquation) -> Seq<char> {
    "| ["@ + e.name@ + "]("@ + e.link@ + ") | "@ + title_case_of(e.category@) + " | "@ + decimal_text(
        e.target_count as nat,
    ) + " | "@ + code_list_cell(e.constants@) + " |\n"@
}

/// The head of the equation catalog, up to the table's rows.
pub const EQUATIONS_INDEX_HEAD: &'static str = "# Equation Catalog\n\n- [Guide](./guide.md)\n- [Families](./families/index.md)\n\n## Equation Table\n\n| Equation | Category | Targets | Constants |\n| --- | --- | --- | --- |\n";

/// The equation catalog: one table row per equation, then one link per category.
pub open spec fn equations_index_text(rows: Seq<IndexedEquation>, categories: Seq<String>) -> Seq<char> {
    EQUATIONS_INDEX_HEAD@ + concat_seq(rows.map_values(|e: IndexedEquation| equation_row(e)))
        + "\n## Browse By Category\n\n"@ + concat_seq(
        categories.map_values(|c: String| "- ["@ + title_case_of(c@) + "](./"@ + c@ + "/index.md)\n"@),
    )
}

pub fn render_code_list_cell(keys: &Vec<String>) -> (res: String)
    ensures
        res@ == code_list_cell(keys@),
{
    if keys.len() == 0 {
        return String::from_str("-");
    }
    let mut quoted: Vec<String> = Vec::new();
    let mut i: usize = 0;
    while i < keys.len()
        invariant
            i <= keys@.len(),
            quoted@.len() == i,
            forall|k: int| 0 <= k < i ==> (#[trigger] quoted@[k])@ == "`"@ + keys@[k]@ + "`"@,
        decreases keys.len() - i,
    {
        let mut q = String::from_str("`");
        push_str(&mut q, keys[i].as_str());
        push_str(&mut q, "`");
        quoted.push(q);
        i = i + 1;
    }
    assert(views(quoted@) =~= views(keys@).map_values(|k: Seq<char>| "`"@ + k + "`"@));
    join_strings(&quoted, ", ")
}

fn render_equation_row(e: &IndexedEquation) -> (res: String)
    ensures
        res@ == equation_row(*e),
{
    let mut md = String::from_str("| [");
    push_str(&mut md, e.name.as_str());
    push_str(&mut md, "](");
    push_str(&mut md, e.link.as_str());
    push_str(&mut md, ") | ");
    let t = title_case(e.category.as_str());
    push_str(&mut md, t.as_str());
    push_str(&mut md, " | ");
    let n = usize_text(e.target_count);
    push_str(&mut md, n.as_str());
    push_str(&mut md, " | ");
    let c = render_code_list_cell(&e.constants);
    push_str(&mut md, c.as_str());
    push_str(&mut md, " |\n");
    md
}

/// Renders the equation catalog page.
pub fn render_equations_index(rows: &Vec<IndexedEquation>, categories: &Vec<String>) -> (res: String)
    ensures
        res@ == equations_index_text(rows@, categories@),
{
    let mut md = String::from_str(EQUATIONS_INDEX_HEAD);
    let ghost head = md@;
    let mut i: usize = 0;
    while i < rows.len()
        invariant
            i <= rows@.len(),
            head == EQUATIONS_INDEX_HEAD@,
            md@ == head + concat_seq(rows@.subrange(0, i as int).map_values(|e: IndexedEquation| equation_row(e))),
        decreases rows.len() - i,
    {
        let row = render_equation_row(&rows[i]);
        push_str(&mut md, row.as_str());
        proof {
            let s = rows@.subrange(0, i + 1).map_values(|e: IndexedEquation| equation_row(e));
            assert(s.drop_last() =~= rows@.subrange(0, i as int).map_values(|e: IndexedEquation| equation_row(e)));
        }
        i = i + 1;
    }
    assert(rows@.subrange(0, rows@.len() as int) =~= rows@);
    push_str(&mut md, "\n## Browse By Category\n\n");
    let ghost mid = md@;
    let mut j: usize = 0;
    while j < categories.len()
        invariant
            j <= categories@.len(),
            md@ == mid + concat_seq(
                categories@.subrange(0, j as int).map_values(
                    |c: String| "- ["@ + title_case_of(c@) + "](./"@ + c@ + "/index.md)\n"@,
                ),
            ),
        decreases categories.len() - j,
    {
        let c = &categories[j];
        push_str(&mut md, "- [");
        let t = title_case(c.as_str());
        push_str(&mut md, t.as_str());
        push_str(&mut md, "](./");
        push_str(&mut md, c.as_str());
        push_str(&mut md, "/index.md)\n");
        proof {
            let s = categories@.subrange(0, j + 1).map_values(
                |c: String| "- ["@ + title_case_of(c@) + "](./"@ + c@ + "/index.md)\n"@,
            );
            assert(s.drop_last() =~= categories@.subrange(0, j as int).map_values(
                |c: String| "- ["@ + title_case_of(c@) + "](./"@ + c@ + "/index.md)\n"@,
            ));
        }
        j = j + 1;
    }
    assert(categories@.subrange(0, categories@.len() as int) =~= categories@);
    md
}

} // verus!
