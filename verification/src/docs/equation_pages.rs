//! The handbook pages of single equations and equation families.
use vstd::prelude::*;
use crate::docs::binding_manifest::{
    args_view, equation_args_for_target, last_piece, last_piece_exec, rust_path, rust_path_exec, target_args,
    EquationPage, PageBranch, PageVariable,
};
use crate::docs::binding_text::{
    excel_example_args_of, excel_param_of, render_binding_arg_bullets_for_excel_signature, render_excel_example_args,
    render_python_example_args, excel_bullet, excel_bullets_of, python_example_arg, python_example_args_of, BindingArg,
};
use crate::docs::naming::{snake_case, snake_case_of};
use crate::strings::{concat_seq, join_seq, join_strings, push_str, views};
use crate::text::{map_char, replace_char, trim_seq, trim_str, upper_seq};
use crate::docs::binding_manifest::upper_ascii;

verus! {

// ---------------------------------------------------------------------------
// Argument lists over their views
// ---------------------------------------------------------------------------

/// The Python example argument list of arguments given by (name, description).
pub open spec fn python_args_of_views(vs: Seq<(Seq<char>, Seq<char>)>) -> Seq<char> {
    join_seq(vs.map_values(|v: (Seq<char>, Seq<char>)| snake_case_of(v.0) + "=\"...\""@), ", "@)
}

/// The Excel signature bullets of arguments given by (name, description).
pub open spec fn excel_bullets_of_views(vs: Seq<(Seq<char>, Seq<char>)>, op: Seq<char>) -> Seq<char> {
    if vs.len() == 0 {
        "- `(no args)`\n"@
    } else {
        concat_seq(
            vs.map_values(
                |v: (Seq<char>, Seq<char>)| "- `"@ + excel_param_of(op, v.0) + "`: "@ + trim_seq(v.1) + "\n"@,
            ),
        )
    }
}

proof fn lemma_args_by_views(args: Seq<BindingArg>, op: Seq<char>)
    ensures
        python_example_args_of(args) == python_args_of_views(args_view(args)),
        excel_bullets_of(args, op) == excel_bullets_of_views(args_view(args), op),
        args_view(args).len() == args.len(),
{
    let f = |v: (Seq<char>, Seq<char>)| snake_case_of(v.0) + "=\"...\""@;
    assert(args.map_values(|a: BindingArg| python_example_arg(a)) =~= args_view(args).map_values(f));
    let g = |v: (Seq<char>, Seq<char>)| "- `"@ + excel_param_of(op, v.0) + "`: "@ + trim_seq(v.1) + "\n"@;
    assert(args.map_values(|a: BindingArg| excel_bullet(op, a)) =~= args_view(args).map_values(g));
}

// ---------------------------------------------------------------------------
// The bindings section of an equation page
// ---------------------------------------------------------------------------

/// The first branch marked preferred.
pub open spec fn first_preferred(bs: Seq<PageBranch>) -> Option<Seq<char>>
    decreases bs.len(),
{
    if bs.len() == 0 {
        None
    } else if bs[0].preferred {
        Some(bs[0].name@)
    } else {
        first_preferred(bs.drop_first())
    }
}

/// The branch the examples pick: the preferred one, else the first.
pub open spec fn example_branch(bs: Seq<PageBranch>) -> Seq<char> {
    match first_preferred(bs) {
        Some(n) => n,
        None => bs[0].name@,
    }
}

/// The target the examples solve for: the page's default target, else its
/// first solve target, else `value`.
pub open spec fn example_target(p: EquationPage) -> Seq<char> {
    match p.default_target {
        Some(t) => t@,
        None => if p.solve_targets@.len() > 0 {
            p.solve_targets@[0]@
        } else {
            "value"@
        },
    }
}

/// `engpy.equations.<category>.<slug>`, the module the examples call.
pub open spec fn example_module(p: EquationPage) -> Seq<char> {
    "engpy.equations."@ + map_char(snake_case_of(p.category@), '-', '_') + "."@ + snake_case_of(last_piece(p.path_id@))
}

/// The worksheet function of the examples: the path id with dots as
/// underscores, then the target, upper-cased.
pub open spec fn example_excel_function(p: EquationPage, target: Seq<char>) -> Seq<char> {
    "ENG_"@ + upper_seq(map_char(p.path_id@, '.', '_')) + "_"@ + upper_seq(target)
}

/// The branch part of the bindings section: the preferred branch, the branch
/// list, and calls that pass the branch explicitly.
pub open spec fn branch_examples_text(p: EquationPage, module: Seq<char>, func: Seq<char>, py: Seq<char>, xf: Seq<char>, xl: Seq<char>) -> Seq<char> {
    let preferred = example_branch(p.branches@);
    let listed = join_seq(p.branches@.map_values(|b: PageBranch| "`"@ + b.name@ + "`"@), ", "@);
    "\n**Branch behavior**\n- Default solver behavior uses preferred branch (`"@ + preferred
        + "`) when one is marked.\n- Supported branches: "@ + listed + "\n\n### Python (explicit branch)\n```python\n"@
        + module + "."@ + func + "("@ + py + ", branch=\""@ + preferred
        + "\")\n```\n\n### Excel (explicit branch)\n```excel\n="@ + xf + "("@ + xl + ",\""@ + preferred
        + "\")\n=ENG_EQUATION_BRANCHES_TEXT(\""@ + p.path_id@ + "\")\n=ENG_EQUATION_BRANCHES_TABLE(\""@
        + p.path_id@ + "\")\n```\n"@
}

/// The bindings section of an equation page: how to call its solve for the
/// example target from Rust, Python and Excel, and with a branch when the
/// equation has branches.
pub open spec fn equation_binding_examples_text(p: EquationPage) -> Seq<char> {
    let target = example_target(p);
    let args = target_args(p.variables@, target);
    let module = example_module(p);
    let func = "solve_"@ + snake_case_of(target);
    let xf = example_excel_function(p, target);
    let py = python_args_of_views(args);
    let xl = excel_example_args_of(args.len());
    let path = p.path_id@;
    "## Bindings\n\n### Rust\n```rust\nlet value = eq.solve(equations::"@ + rust_path(path)
        + "::equation()).for_target(\""@ + target + "\").value()?;\n```\n\n### Python\n```python\n"@ + module + "."@
        + func + "("@ + py + ")\n# helper layer\nengpy.helpers.format_value("@ + module + "."@ + func + "("@ + py
        + "), \"<in_unit>\", \"<out_unit>\")\nengpy.equations.meta.equation_ascii(\""@ + path
        + "\")\nengpy.helpers.equation_targets_text(\""@ + path + "\")\nengpy.helpers.equation_variables_table(\""@
        + path + "\")\nengpy.helpers.equation_target_count(\""@ + path + "\")\n```\n\n### Excel\n```excel\n="@ + xf
        + "("@ + xl + ")\n=ENG_FORMAT("@ + xf + "("@ + xl + "),\"<in_unit>\",\"<out_unit>\")\n=ENG_EQUATION_ASCII(\""@
        + path + "\")\n=ENG_EQUATION_TARGETS_TEXT(\""@ + path + "\")\n=ENG_EQUATION_VARIABLES_TABLE(\""@ + path
        + "\")\n=ENG_EQUATION_TARGET_COUNT(\""@ + path + "\")\n```\n\n**Excel arguments**\n"@
        + excel_bullets_of_views(args, "equation.solve"@) + "\n"@ + if p.branches@.len() > 0 {
        branch_examples_text(p, module, func, py, xf, xl)
    } else {
        Seq::empty()
    }
}

fn example_target_exec(p: &EquationPage) -> (res: String)
    ensures
        res@ == example_target(*p),
{
    match &p.default_target {
        Some(t) => t.clone(),
        None => if p.solve_targets.len() > 0 {
            p.solve_targets[0].clone()
        } else {
            String::from_str("value")
        },
    }
}

fn example_branch_exec(bs: &Vec<PageBranch>) -> (res: String)
    requires
        bs@.len() > 0,
    ensures
        res@ == example_branch(bs@),
{
    let mut i: usize = 0;
    assert(bs@.subrange(0, bs@.len() as int) =~= bs@);
    while i < bs.len()
        invariant
            i <= bs@.len(),
            bs@.len() > 0,
            first_preferred(bs@) == first_preferred(bs@.subrange(i as int, bs@.len() as int)),
        decreases bs.len() - i,
    {
        let ghost rest = bs@.subrange(i as int, bs@.len() as int);
        assert(rest[0] == bs@[i as int]);
        if bs[i].preferred {
            return bs[i].name.clone();
        }
        assert(rest.drop_first() =~= bs@.subrange(i + 1, bs@.len() as int));
        i = i + 1;
    }
    assert(bs@.subrange(i as int, bs@.len() as int).len() == 0);
    bs[0].name.clone()
}

fn branch_list_exec(bs: &Vec<PageBranch>) -> (res: String)
    ensures
        res@ == join_seq(bs@.map_values(|b: PageBranch| "`"@ + b.name@ + "`"@), ", "@),
{
    let mut parts: Vec<String> = Vec::new();
    let mut i: usize = 0;
    while i < bs.len()
        invariant
            i <= bs@.len(),
            parts@.len() == i,
            forall|k: int| 0 <= k < i ==> (#[trigger] parts@[k])@ == "`"@ + bs@[k].name@ + "`"@,
        decreases bs.len() - i,
    {
        let mut s = String::from_str("`");
        push_str(&mut s, bs[i].name.as_str());
        push_str(&mut s, "`");
        parts.push(s);
        i = i + 1;
    }
    assert(views(parts@) =~= bs@.map_values(|b: PageBranch| "`"@ + b.name@ + "`"@));
    join_strings(&parts, ", ")
}

fn branch_examples_exec(p: &EquationPage, module: &str, func: &str, py: &str, xf: &str, xl: &str) -> (res: String)
    requires
        p.branches@.len() > 0,
    ensures
        res@ == branch_examples_text(*p, module@, func@, py@, xf@, xl@),
{
    let preferred = example_branch_exec(&p.branches);
    let listed = branch_list_exec(&p.branches);
    let mut s = String::from_str("\n**Branch behavior**\n- Default solver behavior uses preferred branch (`");
    push_str(&mut s, preferred.as_str());
    push_str(&mut s, "`) when one is marked.\n- Supported branches: ");
    push_str(&mut s, listed.as_str());
    push_str(&mut s, "\n\n### Python (explicit branch)\n```python\n");
    push_str(&mut s, module);
    push_str(&mut s, ".");
    push_str(&mut s, func);
    push_str(&mut s, "(");
    push_str(&mut s, py);
    push_str(&mut s, ", branch=\"");
    push_str(&mut s, preferred.as_str());
    push_str(&mut s, "\")\n```\n\n### Excel (explicit branch)\n```excel\n=");
    push_str(&mut s, xf);
    push_str(&mut s, "(");
    push_str(&mut s, xl);
    push_str(&mut s, ",\"");
    push_str(&mut s, preferred.as_str());
    push_str(&mut s, "\")\n=ENG_EQUATION_BRANCHES_TEXT(\"");
    push_str(&mut s, p.path_id.as_str());
    push_str(&mut s, "\")\n=ENG_EQUATION_BRANCHES_TABLE(\"");
    push_str(&mut s, p.path_id.as_str());
    push_str(&mut s, "\")\n```\n");
    s
}

/// Renders the bindings section of an equation page.
pub fn render_binding_examples_for_equation(p: &EquationPage) -> (res: String)
    ensures
        res@ == equation_binding_examples_text(*p),
{
    let target = example_target_exec(p);
    let args = equation_args_for_target(p, target.as_str());
    proof {
        lemma_args_by_views(args@, "equation.solve"@);
    }
    let slug = {
        let piece = last_piece_exec(p.path_id.as_str());
        snake_case(piece.as_str())
    };
    let mut module = String::from_str("engpy.equations.");
    let cat = snake_case(p.category.as_str());
    let cat = replace_char(cat.as_str(), '-', '_');
    push_str(&mut module, cat.as_str());
    push_str(&mut module, ".");
    push_str(&mut module, slug.as_str());
    let mut func = String::from_str("solve_");
    let t = snake_case(target.as_str());
    push_str(&mut func, t.as_str());
    let mut xf = String::from_str("ENG_");
    let dotted = replace_char(p.path_id.as_str(), '.', '_');
    let up = upper_ascii(dotted.as_str());
    push_str(&mut xf, up.as_str());
    push_str(&mut xf, "_");
    let tu = upper_ascii(target.as_str());
    push_str(&mut xf, tu.as_str());
    let py = render_python_example_args(args.as_slice());
    let xl = render_excel_example_args(args.as_slice());
    let path = p.path_id.as_str();
    let rp = rust_path_exec(path);
    let mut s = String::from_str("## Bindings\n\n### Rust\n```rust\nlet value = eq.solve(equations::");
    push_str(&mut s, rp.as_str());
    push_str(&mut s, "::equation()).for_target(\"");
    push_str(&mut s, target.as_str());
    push_str(&mut s, "\").value()?;\n```\n\n### Python\n```python\n");
    push_str(&mut s, module.as_str());
    push_str(&mut s, ".");
    push_str(&mut s, func.as_str());
    push_str(&mut s, "(");
    push_str(&mut s, py.as_str());
    push_str(&mut s, ")\n# helper layer\nengpy.helpers.format_value(");
    push_str(&mut s, module.as_str());
    push_str(&mut s, ".");
    push_str(&mut s, func.as_str());
    push_str(&mut s, "(");
    push_str(&mut s, py.as_str());
    push_str(&mut s, "), \"<in_unit>\", \"<out_unit>\")\nengpy.equations.meta.equation_ascii(\"");
    push_str(&mut s, path);
    push_str(&mut s, "\")\nengpy.helpers.equation_targets_text(\"");
    push_str(&mut s, path);
    push_str(&mut s, "\")\nengpy.helpers.equation_variables_table(\"");
    push_str(&mut s, path);
    push_str(&mut s, "\")\nengpy.helpers.equation_target_count(\"");
    push_str(&mut s, path);
    push_str(&mut s, "\")\n```\n\n### Excel\n```excel\n=");
    push_str(&mut s, xf.as_str());
    push_str(&mut s, "(");
    push_str(&mut s, xl.as_str());
    push_str(&mut s, ")\n=ENG_FORMAT(");
    push_str(&mut s, xf.as_str());
    push_str(&mut s, "(");
    push_str(&mut s, xl.as_str());
    push_str(&mut s, "),\"<in_unit>\",\"<out_unit>\")\n=ENG_EQUATION_ASCII(\"");
    push_str(&mut s, path);
    push_str(&mut s, "\")\n=ENG_EQUATION_TARGETS_TEXT(\"");
    push_str(&mut s, path);
    push_str(&mut s, "\")\n=ENG_EQUATION_VARIABLES_TABLE(\"");
    push_str(&mut s, path);
    push_str(&mut s, "\")\n=ENG_EQUATION_TARGET_COUNT(\"");
    push_str(&mut s, path);
    push_str(&mut s, "\")\n```\n\n**Excel arguments**\n");
    let bullets = render_binding_arg_bullets_for_excel_signature(args.as_slice(), "equation.solve");
    push_str(&mut s, bullets.as_str());
    push_str(&mut s, "\n");
    if p.branches.len() > 0 {
        let b = branch_examples_exec(p, module.as_str(), func.as_str(), py.as_str(), xf.as_str(), xl.as_str());
        push_str(&mut s, b.as_str());
    }
    s
}

// ---------------------------------------------------------------------------
// Equation pages
// ---------------------------------------------------------------------------

/// The family an equation belongs to, as its page shows it: the family's
/// name and the link to its page, and the variant the equation is.
#[derive(Debug, Clone)]
pub struct PageFamilyRef {
    pub family_name: String,
    pub link: String,
    pub variant_name: String,
    pub variant_key: String,
    pub when_to_use: String,
}

/// A constant an equation uses, with the link to its page.
#[derive(Debug, Clone)]
pub struct PageConstant {
    pub key: String,
    pub name: String,
    pub symbol_latex: String,
    pub link: String,
}

/// A worked example on an equation page.
#[derive(Debug, Clone)]
pub struct PageExample {
    pub label: String,
    pub code: String,
}

/// Everything an equation page shows.
#[derive(Debug, Clone)]
pub struct EquationPageDoc {
    pub page: EquationPage,
    pub latex: String,
    pub unicode: String,
    pub ascii: String,
    pub assumptions: Vec<String>,
    pub family: Option<PageFamilyRef>,
    pub constants: Vec<PageConstant>,
    pub examples: Vec<PageExample>,
}

/// One `- item` line per item.
pub open spec fn bullet_lines(items: Seq<String>) -> Seq<char> {
    concat_seq(items.map_values(|a: String| "- "@ + a@ + "\n"@))
}

/// A titled list of the items, or nothing when there are none.
pub open spec fn bullet_section(title: Seq<char>, items: Seq<String>) -> Seq<char> {
    if items.len() == 0 {
        Seq::empty()
    } else {
        title + bullet_lines(items) + "\n"@
    }
}

/// The head of an equation page's variable table.
pub const VARIABLES_TABLE_HEAD: &'static str = "## Variables\n\n<table><thead><tr><th>Key</th><th>Name</th><th>Symbol</th><th>Dimension</th><th>Unit</th></tr></thead><tbody>\n";

/// A row of the variable table; the symbol stays inline math.
pub open spec fn variable_row(v: PageVariable) -> Seq<char> {
    "<tr><td><code>"@ + v.key@ + "</code></td><td>"@ + v.name@ + "</td><td>\\("@ + v.symbol@
        + "\\)</td><td><code>"@ + v.dimension@ + "</code></td><td><code>"@ + v.default_unit@
        + "</code></td></tr>\n"@
}

/// The family section of an equation page, when the equation is a family variant.
pub open spec fn family_section(f: Option<PageFamilyRef>) -> Seq<char> {
    match f {
        None => Seq::empty(),
        Some(r) => "## Family\n\n- Family: [`"@ + r.family_name@ + "`]("@ + r.link@ + ")\n- Variant: `"@
            + r.variant_name@ + "` (`"@ + r.variant_key@ + "`)\n"@ + (if trim_seq(r.when_to_use@).len() > 0 {
            "- Use when: "@ + trim_seq(r.when_to_use@) + "\n"@
        } else {
            Seq::empty()
        }) + "\n"@,
    }
}

pub open spec fn constant_line(c: PageConstant) -> Seq<char> {
    "- [`"@ + c.key@ + "`]("@ + c.link@ + ") ("@ + c.name@ + ") \\("@ + c.symbol_latex@ + "\\)\n"@
}

/// The constants an equation uses, or nothing when it uses none.
pub open spec fn constants_section(cs: Seq<PageConstant>) -> Seq<char> {
    if cs.len() == 0 {
        Seq::empty()
    } else {
        "## Constants Used\n\n"@ + concat_seq(cs.map_values(|c: PageConstant| constant_line(c))) + "\n"@
    }
}

pub open spec fn example_block(e: PageExample) -> Seq<char> {
    "### "@ + e.label@ + "\n\n```rust\n"@ + e.code@ + "\n```\n\n"@
}

/// The worked examples, or nothing when there are none.
pub open spec fn examples_section(es: Seq<PageExample>) -> Seq<char> {
    if es.len() == 0 {
        Seq::empty()
    } else {
        "## Examples\n\n"@ + concat_seq(es.map_values(|e: PageExample| example_block(e)))
    }
}

/// An equation page: its title and path id, its display forms, its variable
/// table, its assumptions, family, constants and examples where it has them,
/// and its bindings section.
pub open spec fn equation_page_text(d: EquationPageDoc) -> Seq<char> {
    "# "@ + d.page.name@ + "\n\n**Path ID:** `"@ + d.page.path_id@ + "`\n\n$$\n"@ + d.latex@ + "\n$$\n\n- Unicode: `"@
        + d.unicode@ + "`\n- ASCII: `"@ + d.ascii@ + "`\n\n"@ + VARIABLES_TABLE_HEAD@ + concat_seq(
        d.page.variables@.map_values(|v: PageVariable| variable_row(v)),
    ) + "</tbody></table>\n\n"@ + bullet_section("## Assumptions\n\n"@, d.assumptions@) + family_section(d.family)
        + constants_section(d.constants@) + examples_section(d.examples@) + "\n"@ + equation_binding_examples_text(
        d.page,
    )
}

fn push_bullet_section(out: &mut String, title: &str, items: &Vec<String>)
    ensures
        final(out)@ == old(out)@ + bullet_section(title@, items@),
{
    if items.len() == 0 {
        return;
    }
    let ghost start = out@;
    push_str(out, title);
    let ghost head = out@;
    let mut i: usize = 0;
    while i < items.len()
        invariant
            i <= items@.len(),
            out@ == head + concat_seq(items@.subrange(0, i as int).map_values(|a: String| "- "@ + a@ + "\n"@)),
        decreases items.len() - i,
    {
        push_str(out, "- ");
        push_str(out, items[i].as_str());
        push_str(out, "\n");
        proof {
            let t = items@.subrange(0, i + 1).map_values(|a: String| "- "@ + a@ + "\n"@);
            assert(t.drop_last() =~= items@.subrange(0, i as int).map_values(|a: String| "- "@ + a@ + "\n"@));
        }
        i = i + 1;
    }
    assert(items@.subrange(0, items@.len() as int) =~= items@);
    push_str(out, "\n");
}

fn render_variable_row(v: &PageVariable) -> (res: String)
    ensures
        res@ == variable_row(*v),
{
    let mut out = String::from_str("<tr><td><code>");
    push_str(&mut out, v.key.as_str());
    push_str(&mut out, "</code></td><td>");
    push_str(&mut out, v.name.as_str());
    push_str(&mut out, "</td><td>\\(");
    push_str(&mut out, v.symbol.as_str());
    push_str(&mut out, "\\)</td><td><code>");
    push_str(&mut out, v.dimension.as_str());
    push_str(&mut out, "</code></td><td><code>");
    push_str(&mut out, v.default_unit.as_str());
    push_str(&mut out, "</code></td></tr>\n");
    out
}

fn push_variable_rows(out: &mut String, vars: &Vec<PageVariable>)
    ensures
        final(out)@ == old(out)@ + concat_seq(vars@.map_values(|v: PageVariable| variable_row(v))),
{
    let ghost start = out@;
    let mut i: usize = 0;
    while i < vars.len()
        invariant
            i <= vars@.len(),
            out@ == start + concat_seq(vars@.subrange(0, i as int).map_values(|v: PageVariable| variable_row(v))),
        decreases vars.len() - i,
    {
        let row = render_variable_row(&vars[i]);
        push_str(out, row.as_str());
        proof {
            let t = vars@.subrange(0, i + 1).map_values(|v: PageVariable| variable_row(v));
            assert(t.drop_last() =~= vars@.subrange(0, i as int).map_values(|v: PageVariable| variable_row(v)));
        }
        i = i + 1;
    }
    assert(vars@.subrange(0, vars@.len() as int) =~= vars@);
}

fn push_family_section(out: &mut String, f: &Option<PageFamilyRef>)
    ensures
        final(out)@ == old(out)@ + family_section(*f),
{
    match f {
        None => {},
        Some(r) => {
            push_str(out, "## Family\n\n- Family: [`");
            push_str(out, r.family_name.as_str());
            push_str(out, "`](");
            push_str(out, r.link.as_str());
            push_str(out, ")\n- Variant: `");
            push_str(out, r.variant_name.as_str());
            push_str(out, "` (`");
            push_str(out, r.variant_key.as_str());
            push_str(out, "`)\n");
            let when = trim_str(r.when_to_use.as_str());
            if when.unicode_len() > 0 {
                push_str(out, "- Use when: ");
                push_str(out, when);
                push_str(out, "\n");
            }
            push_str(out, "\n");
        },
    }
}

fn push_constants_section(out: &mut String, cs: &Vec<PageConstant>)
    ensures
        final(out)@ == old(out)@ + constants_section(cs@),
{
    if cs.len() == 0 {
        return;
    }
    push_str(out, "## Constants Used\n\n");
    let ghost head = out@;
    let mut i: usize = 0;
    while i < cs.len()
        invariant
            i <= cs@.len(),
            out@ == head + concat_seq(cs@.subrange(0, i as int).map_values(|c: PageConstant| constant_line(c))),
        decreases cs.len() - i,
    {
        let c = &cs[i];
        push_str(out, "- [`");
        push_str(out, c.key.as_str());
        push_str(out, "`](");
        push_str(out, c.link.as_str());
        push_str(out, ") (");
        push_str(out, c.name.as_str());
        push_str(out, ") \\(");
        push_str(out, c.symbol_latex.as_str());
        push_str(out, "\\)\n");
        proof {
            let t = cs@.subrange(0, i + 1).map_values(|c: PageConstant| constant_line(c));
            assert(t.drop_last() =~= cs@.subrange(0, i as int).map_values(|c: PageConstant| constant_line(c)));
        }
        i = i + 1;
    }
    assert(cs@.subrange(0, cs@.len() as int) =~= cs@);
    push_str(out, "\n");
}

fn push_examples_section(out: &mut String, es: &Vec<PageExample>)
    ensures
        final(out)@ == old(out)@ + examples_section(es@),
{
    if es.len() == 0 {
        return;
    }
    push_str(out, "## Examples\n\n");
    let ghost head = out@;
    let mut i: usize = 0;
    while i < es.len()
        invariant
            i <= es@.len(),
            out@ == head + concat_seq(es@.subrange(0, i as int).map_values(|e: PageExample| example_block(e))),
        decreases es.len() - i,
    {
        push_str(out, "### ");
        push_str(out, es[i].label.as_str());
        push_str(out, "\n\n```rust\n");
        push_str(out, es[i].code.as_str());
        push_str(out, "\n```\n\n");
        proof {
            let t = es@.subrange(0, i + 1).map_values(|e: PageExample| example_block(e));
            assert(t.drop_last() =~= es@.subrange(0, i as int).map_values(|e: PageExample| example_block(e)));
        }
        i = i + 1;
    }
    assert(es@.subrange(0, es@.len() as int) =~= es@);
}

/// Renders an equation's handbook page.
pub fn render_equation_page(d: &EquationPageDoc) -> (res: String)
    ensures
        res@ == equation_page_text(*d),
{
    let mut md = String::from_str("# ");
    push_str(&mut md, d.page.name.as_str());
    push_str(&mut md, "\n\n**Path ID:** `");
    push_str(&mut md, d.page.path_id.as_str());
    push_str(&mut md, "`\n\n$$\n");
    push_str(&mut md, d.latex.as_str());
    push_str(&mut md, "\n$$\n\n- Unicode: `");
    push_str(&mut md, d.unicode.as_str());
    push_str(&mut md, "`\n- ASCII: `");
    push_str(&mut md, d.ascii.as_str());
    push_str(&mut md, "`\n\n");
    push_str(&mut md, VARIABLES_TABLE_HEAD);
    push_variable_rows(&mut md, &d.page.variables);
    push_str(&mut md, "</tbody></table>\n\n");
    push_bullet_section(&mut md, "## Assumptions\n\n", &d.assumptions);
    push_family_section(&mut md, &d.family);
    push_constants_section(&mut md, &d.constants);
    push_examples_section(&mut md, &d.examples);
    push_str(&mut md, "\n");
    let b = render_binding_examples_for_equation(&d.page);
    push_str(&mut md, b.as_str());
    md
}

// ---------------------------------------------------------------------------
// Family pages
// ---------------------------------------------------------------------------

/// A variant as its family's page lists it, with the link to its equation's page.
#[derive(Debug, Clone)]
pub struct FamilyPageVariant {
    pub key: String,
    pub equation_id: String,
    pub link: String,
    pub display_latex: String,
    pub when_to_use: String,
    pub description: String,
}

/// Everything a family page shows.
#[derive(Debug, Clone)]
pub struct FamilyPage {
    pub key: String,
    pub name: String,
    pub description: String,
    pub canonical_law: String,
    pub canonical_equation: String,
    pub canonical_link: String,
    pub assumptions: Vec<String>,
    pub references: Vec<String>,
    pub variants: Vec<FamilyPageVariant>,
}

/// A cell: the trimmed text, or a dash when it is blank.
pub open spec fn dash_or_trimmed(s: Seq<char>) -> Seq<char> {
    if trim_seq(s).len() == 0 {
        "-"@
    } else {
        trim_seq(s)
    }
}

pub open spec fn variant_row(v: FamilyPageVariant) -> Seq<char> {
    "| `"@ + v.key@ + "` | [`"@ + v.equation_id@ + "`]("@ + v.link@ + ") | \\("@ + v.display_latex@ + "\\) | "@
        + dash_or_trimmed(v.when_to_use@) + " | "@ + dash_or_trimmed(v.description@) + " |\n"@
}

/// The bindings section of a family page: how to import the family in
/// Python, with its first variant as the example, and the Excel name pattern.
pub open spec fn family_binding_examples_text(f: FamilyPage) -> Seq<char> {
    let k = snake_case_of(f.key@);
    "## Bindings\n\n### Python\n\n```python\nfrom engpy.equations.families import "@ + k + "\n"@ + (if f.variants@.len()
        > 0 {
        k + "."@ + snake_case_of(f.variants@[0].key@) + ".solve_<target>(...)\n"@
    } else {
        Seq::empty()
    }) + "```\n\n### Excel\n\n```excel\n=ENG_FAMILY_<FAMILY>_<VARIANT>_<TARGET>(...)\n```\n"@
}

/// The head of the variant table.
pub const VARIANTS_TABLE_HEAD: &'static str = "## Variants\n\n| Variant | Equation | Display | Use when | Notes |\n| --- | --- | --- | --- | --- |\n";

/// A family page: its title and key, its description where it has one, its
/// canonical law and equation, its shared assumptions and references, its
/// variant table, and its bindings section.
pub open spec fn family_page_text(f: FamilyPage) -> Seq<char> {
    "# "@ + f.name@ + "\n\n**Family key:** `"@ + f.key@ + "`\n\n"@ + (if trim_seq(f.description@).len() > 0 {
        trim_seq(f.description@) + "\n\n"@
    } else {
        Seq::empty()
    }) + "**Canonical law:** `"@ + f.canonical_law@ + "`\n\n**Canonical equation:** [`"@ + f.canonical_equation@
        + "`]("@ + f.canonical_link@ + ")\n\n"@ + bullet_section("## Shared Assumptions\n\n"@, f.assumptions@)
        + bullet_section("## Shared References\n\n"@, f.references@) + VARIANTS_TABLE_HEAD@ + concat_seq(
        f.variants@.map_values(|v: FamilyPageVariant| variant_row(v)),
    ) + "\n"@ + family_binding_examples_text(f)
}

fn dash_or_trimmed_exec(s: &str) -> (res: &str)
    ensures
        res@ == dash_or_trimmed(s@),
{
    let t = trim_str(s);
    if t.unicode_len() == 0 {
        "-"
    } else {
        t
    }
}

/// Renders the bindings section of a family page.
pub fn render_binding_examples_for_family(f: &FamilyPage) -> (res: String)
    ensures
        res@ == family_binding_examples_text(*f),
{
    let k = snake_case(f.key.as_str());
    let mut md = String::from_str("## Bindings\n\n### Python\n\n```python\nfrom engpy.equations.families import ");
    push_str(&mut md, k.as_str());
    push_str(&mut md, "\n");
    if f.variants.len() > 0 {
        push_str(&mut md, k.as_str());
        push_str(&mut md, ".");
        let v = snake_case(f.variants[0].key.as_str());
        push_str(&mut md, v.as_str());
        push_str(&mut md, ".solve_<target>(...)\n");
    }
    push_str(&mut md, "```\n\n### Excel\n\n```excel\n=ENG_FAMILY_<FAMILY>_<VARIANT>_<TARGET>(...)\n```\n");
    md
}

fn render_variant_row(v: &FamilyPageVariant) -> (res: String)
    ensures
        res@ == variant_row(*v),
{
    let mut md = String::from_str("| `");
    push_str(&mut md, v.key.as_str());
    push_str(&mut md, "` | [`");
    push_str(&mut md, v.equation_id.as_str());
    push_str(&mut md, "`](");
    push_str(&mut md, v.link.as_str());
    push_str(&mut md, ") | \\(");
    push_str(&mut md, v.display_latex.as_str());
    push_str(&mut md, "\\) | ");
    push_str(&mut md, dash_or_trimmed_exec(v.when_to_use.as_str()));
    push_str(&mut md, " | ");
    push_str(&mut md, dash_or_trimmed_exec(v.description.as_str()));
    push_str(&mut md, " |\n");
    md
}

/// Renders a family's handbook page.
pub fn render_family_page(f: &FamilyPage) -> (res: String)
    ensures
        res@ == family_page_text(*f),
{
    let mut md = String::from_str("# ");
    push_str(&mut md, f.name.as_str());
    push_str(&mut md, "\n\n**Family key:** `");
    push_str(&mut md, f.key.as_str());
    push_str(&mut md, "`\n\n");
    let d = trim_str(f.description.as_str());
    if d.unicode_len() > 0 {
        push_str(&mut md, d);
        push_str(&mut md, "\n\n");
    }
    push_str(&mut md, "**Canonical law:** `");
    push_str(&mut md, f.canonical_law.as_str());
    push_str(&mut md, "`\n\n**Canonical equation:** [`");
    push_str(&mut md, f.canonical_equation.as_str());
    push_str(&mut md, "`](");
    push_str(&mut md, f.canonical_link.as_str());
    push_str(&mut md, ")\n\n");
    push_bullet_section(&mut md, "## Shared Assumptions\n\n", &f.assumptions);
    push_bullet_section(&mut md, "## Shared References\n\n", &f.references);
    push_str(&mut md, VARIANTS_TABLE_HEAD);
    let ghost head = md@;
    let mut i: usize = 0;
    while i < f.variants.len()
        invariant
            i <= f.variants@.len(),
            md@ == head + concat_seq(f.variants@.subrange(0, i as int).map_values(|v: FamilyPageVariant| variant_row(v))),
        decreases f.variants.len() - i,
    {
        let row = render_variant_row(&f.variants[i]);
        push_str(&mut md, row.as_str());
        proof {
            let t = f.variants@.subrange(0, i + 1).map_values(|v: FamilyPageVariant| variant_row(v));
            assert(t.drop_last() =~= f.variants@.subrange(0, i as int).map_values(|v: FamilyPageVariant| variant_row(v)));
        }
        i = i + 1;
    }
    assert(f.variants@.subrange(0, f.variants@.len() as int) =~= f.variants@);
    push_str(&mut md, "\n");
    let b = render_binding_examples_for_family(f);
    push_str(&mut md, b.as_str());
    md
}

} // verus!
