//! The binding manifest: every function of the Python and Excel bindings,
//! derived from the equation pages, the equation families and the devices,
//! together with the fixed metadata and study functions, ordered by id.
use vstd::prelude::*;
use crate::docs::binding_tables::{
    table_bindings, table_functions, NameRow, METADATA_ARGS, METADATA_FIXED, METADATA_NAMES, METADATA_TEXTS, STUDY_ARGS,
    STUDY_FIXED, STUDY_NAMES, STUDY_TEXTS,
};
use crate::docs::binding_text::{
    excel_example_args_of, python_example_args_of, render_excel_example_args, render_python_example_args, BindingArg,
    BindingFunction, BindingManifest,
};
use crate::bindings::INVOKE_SUPPORTED_OPS;
use crate::devices::{device_keys, device_specs_are, generation_specs, DeviceBindingArgSpec, DeviceBindingFunctionSpec, DeviceGenerationSpec};
use crate::docs::naming::{snake_case, snake_case_of, split_seq, lemma_split_nonempty};
use crate::docs::ordered_names::{
    lemma_lex_irreflexive, lemma_lex_transitive, lemma_with_key_insert, lemma_with_key_push, lex_less, lex_lt, with_key,
};
use crate::strings::{concat_seq, join_seq, join_strings, push_str, views};
use crate::text::{char_upper, chars_of, map_char, push_char, replace_char, str_eq, trim_seq, trim_str, upper_char, upper_seq};

verus! {

// ---------------------------------------------------------------------------
// What the manifest is built from
// ---------------------------------------------------------------------------

/// A variable of an equation page.
#[derive(Debug, Clone)]
pub struct PageVariable {
    pub key: String,
    pub name: String,
    pub description: String,
    pub symbol: String,
    pub dimension: String,
    pub default_unit: String,
}

/// A solution branch of an equation, and whether the solver prefers it.
#[derive(Debug, Clone)]
pub struct PageBranch {
    pub name: String,
    pub preferred: bool,
}

/// What the bindings read of an equation's documentation page.
#[derive(Debug, Clone)]
pub struct EquationPage {
    pub path_id: String,
    pub name: String,
    pub category: String,
    pub solve_targets: Vec<String>,
    pub default_target: Option<String>,
    pub branches: Vec<PageBranch>,
    pub variables: Vec<PageVariable>,
}

/// A variant of an equation family, and the equation it stands for.
#[derive(Debug, Clone)]
pub struct FamilyVariantDoc {
    pub key: String,
    pub name: String,
    pub equation_id: String,
}

/// An equation family.
#[derive(Debug, Clone)]
pub struct FamilyDoc {
    pub key: String,
    pub name: String,
    pub variants: Vec<FamilyVariantDoc>,
}

// ---------------------------------------------------------------------------
// Building blocks
// ---------------------------------------------------------------------------

pub open spec fn arg_view(a: BindingArg) -> (Seq<char>, Seq<char>) {
    (a.name@, a.description@)
}

pub open spec fn args_view(args: Seq<BindingArg>) -> Seq<(Seq<char>, Seq<char>)> {
    args.map_values(|a: BindingArg| arg_view(a))
}

pub open spec fn fixed_view(fixed: Seq<(String, String)>) -> Seq<(Seq<char>, Seq<char>)> {
    fixed.map_values(|kv: (String, String)| (kv.0@, kv.1@))
}

/// A binding argument.
pub fn binding_arg(name: &str, description: &str) -> (a: BindingArg)
    ensures
        a.name@ == name@,
        a.description@ == description@,
{
    BindingArg { name: String::from_str(name), description: String::from_str(description) }
}

/// A binding function from its parts.
pub fn binding_function(
    id: &str,
    entity: &str,
    source: &str,
    python_module: &str,
    python_name: &str,
    excel_name: &str,
    op: &str,
    fixed_args: Vec<(String, String)>,
    args: Vec<BindingArg>,
    returns_text: &str,
    help: &str,
    rust_example: &str,
    python_example: &str,
    xloil_example: &str,
    pyxll_example: &str,
) -> (f: BindingFunction)
    ensures
        f.id@ == id@,
        f.entity@ == entity@,
        f.source@ == source@,
        f.python_module@ == python_module@,
        f.python_name@ == python_name@,
        f.excel_name@ == excel_name@,
        f.op@ == op@,
        f.fixed_args == fixed_args,
        f.args == args,
        f.returns@ == returns_text@,
        f.help@ == help@,
        f.rust_example@ == rust_example@,
        f.python_example@ == python_example@,
        f.xloil_example@ == xloil_example@,
        f.pyxll_example@ == pyxll_example@,
{
    BindingFunction {
        id: String::from_str(id),
        entity: String::from_str(entity),
        source: String::from_str(source),
        python_module: String::from_str(python_module),
        python_name: String::from_str(python_name),
        excel_name: String::from_str(excel_name),
        op: String::from_str(op),
        fixed_args,
        args,
        returns: String::from_str(returns_text),
        help: String::from_str(help),
        rust_example: String::from_str(rust_example),
        python_example: String::from_str(python_example),
        xloil_example: String::from_str(xloil_example),
        pyxll_example: String::from_str(pyxll_example),
    }
}

/// ASCII upper case of a whole text.
pub fn upper_ascii(s: &str) -> (res: String)
    ensures
        res@ == upper_seq(s@),
{
    let cs = chars_of(s);
    let mut out = String::new();
    let mut i: usize = 0;
    while i < cs.len()
        invariant
            cs@ == s@,
            i <= cs@.len(),
            out@ == upper_seq(s@).subrange(0, i as int),
        decreases cs.len() - i,
    {
        push_char(&mut out, char_upper(cs[i]));
        assert(upper_seq(s@).subrange(0, i + 1) =~= upper_seq(s@).subrange(0, i as int).push(upper_char(s@[i as int])));
        i = i + 1;
    }
    assert(upper_seq(s@).subrange(0, cs@.len() as int) =~= upper_seq(s@));
    out
}

/// A dotted path written as a Rust path: each `.` becomes `::`.
pub open spec fn rust_path(s: Seq<char>) -> Seq<char> {
    concat_seq(s.map_values(|c: char| if c == '.' { "::"@ } else { seq![c] }))
}

pub fn rust_path_exec(s: &str) -> (res: String)
    ensures
        res@ == rust_path(s@),
{
    let cs = chars_of(s);
    let mut out = String::new();
    let mut i: usize = 0;
    while i < cs.len()
        invariant
            cs@ == s@,
            i <= cs@.len(),
            out@ == rust_path(s@.subrange(0, i as int)),
        decreases cs.len() - i,
    {
        let c = cs[i];
        if c == '.' {
            push_str(&mut out, "::");
        } else {
            push_char(&mut out, c);
        }
        proof {
            let m = s@.subrange(0, i + 1).map_values(|c: char| if c == '.' { "::"@ } else { seq![c] });
            assert(m.drop_last() =~= s@.subrange(0, i as int).map_values(|c: char| if c == '.' { "::"@ } else { seq![c] }));
        }
        i = i + 1;
    }
    assert(s@.subrange(0, s@.len() as int) =~= s@);
    out
}

/// The last dot-separated piece of a path.
pub open spec fn last_piece(s: Seq<char>) -> Seq<char> {
    split_seq(s, '.').last()
}

pub fn last_piece_exec(s: &str) -> (res: String)
    ensures
        res@ == last_piece(s@),
{
    let cs = chars_of(s);
    let mut cur: Vec<char> = Vec::new();
    let mut i: usize = 0;
    proof {
        lemma_split_nonempty(s@.subrange(0, 0), '.');
    }
    while i < cs.len()
        invariant
            cs@ == s@,
            i <= cs@.len(),
            split_seq(s@.subrange(0, i as int), '.').len() >= 1,
            cur@ == split_seq(s@.subrange(0, i as int), '.').last(),
        decreases cs.len() - i,
    {
        assert(s@.subrange(0, i + 1).drop_last() =~= s@.subrange(0, i as int));
        if cs[i] == '.' {
            cur = Vec::new();
        } else {
            cur.push(cs[i]);
        }
        i = i + 1;
    }
    assert(s@.subrange(0, s@.len() as int) =~= s@);
    crate::text::string_from_chars(cur.as_slice())
}

// ---------------------------------------------------------------------------
// Equation solve bindings
// ---------------------------------------------------------------------------

/// The description an argument gets: the variable's description, or its name
/// when the description is blank.
pub open spec fn variable_description(v: PageVariable) -> Seq<char> {
    if trim_seq(v.description@).len() == 0 { v.name@ } else { v.description@ }
}

/// The arguments of a solve for `target`: every other variable, in page order.
pub open spec fn target_args(vars: Seq<PageVariable>, target: Seq<char>) -> Seq<(Seq<char>, Seq<char>)>
    decreases vars.len(),
{
    if vars.len() == 0 {
        Seq::empty()
    } else if vars.last().key@ != target {
        target_args(vars.drop_last(), target).push((vars.last().key@, variable_description(vars.last())))
    } else {
        target_args(vars.drop_last(), target)
    }
}

/// The arguments of an equation-page variable list for a solve target.
pub fn equation_args_for_target(page: &EquationPage, target: &str) -> (res: Vec<BindingArg>)
    ensures
        args_view(res@) == target_args(page.variables@, target@),
{
    let vars = &page.variables;
    let mut res: Vec<BindingArg> = Vec::new();
    let mut i: usize = 0;
    while i < vars.len()
        invariant
            i <= vars@.len(),
            args_view(res@) == target_args(vars@.subrange(0, i as int), target@),
        decreases vars.len() - i,
    {
        let v = &vars[i];
        assert(vars@.subrange(0, i + 1).drop_last() =~= vars@.subrange(0, i as int));
        if !str_eq(v.key.as_str(), target) {
            let blank = trim_str(v.description.as_str()).unicode_len() == 0;
            let description = if blank { v.name.clone() } else { v.description.clone() };
            res.push(BindingArg { name: v.key.clone(), description });
            assert(args_view(res@) =~= args_view(res@.drop_last()).push(arg_view(res@.last())));
        }
        i = i + 1;
    }
    assert(vars@.subrange(0, vars@.len() as int) =~= vars@);
    res
}


/// The names of the branches, in order.
pub open spec fn branch_names(bs: Seq<PageBranch>) -> Seq<Seq<char>> {
    bs.map_values(|b: PageBranch| b.name@)
}

/// The names of the branches, in order.
pub fn branch_name_list(bs: &Vec<PageBranch>) -> (res: Vec<String>)
    ensures
        views(res@) == branch_names(bs@),
{
    let mut res: Vec<String> = Vec::new();
    let mut i: usize = 0;
    while i < bs.len()
        invariant
            i <= bs@.len(),
            res@.len() == i,
            forall|k: int| 0 <= k < i ==> (#[trigger] res@[k])@ == bs@[k].name@,
        decreases bs.len() - i,
    {
        res.push(bs[i].name.clone());
        i = i + 1;
    }
    assert(views(res@) =~= branch_names(bs@));
    res
}

/// The description of the branch argument: the page's branches, listed.
pub open spec fn branch_arg_description(branches: Seq<PageBranch>) -> Seq<char> {
    "Optional branch selection. Supported: "@ + join_seq(branch_names(branches), ", "@)
}

/// The arguments of a solve binding: the target's arguments, then a branch
/// argument when the page has branches.
pub open spec fn solve_args(page: EquationPage, target: Seq<char>) -> Seq<(Seq<char>, Seq<char>)> {
    target_args(page.variables@, target) + if page.branches@.len() > 0 {
        seq![("branch"@, branch_arg_description(page.branches@))]
    } else {
        Seq::empty()
    }
}

fn solve_args_exec(page: &EquationPage, target: &str) -> (res: Vec<BindingArg>)
    ensures
        args_view(res@) == solve_args(*page, target@),
{
    let mut args = equation_args_for_target(page, target);
    if page.branches.len() > 0 {
        let mut d = String::from_str("Optional branch selection. Supported: ");
        let names = branch_name_list(&page.branches);
        let listed = join_strings(&names, ", ");
        push_str(&mut d, listed.as_str());
        args.push(BindingArg { name: String::from_str("branch"), description: d });
        assert(args_view(args@) =~= args_view(args@.drop_last()).push(arg_view(args@.last())));
    }
    assert(args_view(args@) =~= solve_args(*page, target@));
    args
}

/// `eq.solve(equations::<path>::equation()).for_target("<target>").value()?`
pub open spec fn rust_solve_example(path_id: Seq<char>, target: Seq<char>) -> Seq<char> {
    "eq.solve(equations::"@ + rust_path(path_id) + "::equation()).for_target(\""@ + target + "\").value()?"@
}

fn rust_solve_example_exec(path_id: &str, target: &str) -> (res: String)
    ensures
        res@ == rust_solve_example(path_id@, target@),
{
    let mut s = String::from_str("eq.solve(equations::");
    let p = rust_path_exec(path_id);
    push_str(&mut s, p.as_str());
    push_str(&mut s, "::equation()).for_target(\"");
    push_str(&mut s, target);
    push_str(&mut s, "\").value()?");
    s
}

/// The three examples of a solve binding, from its module, name, Excel name and arguments.
pub open spec fn examples_match(f: BindingFunction, module: Seq<char>, name: Seq<char>, excel: Seq<char>) -> bool {
    &&& f.python_example@ == "engpy."@ + module + "."@ + name + "("@ + python_example_args_of(f.args@) + ")"@
    &&& f.xloil_example@ == "="@ + excel + "("@ + excel_example_args_of(f.args@.len()) + ")"@
    &&& f.pyxll_example@ == "="@ + excel + "("@ + excel_example_args_of(f.args@.len()) + ")"@
}

fn examples_exec(module: &str, name: &str, excel: &str, args: &Vec<BindingArg>) -> (res: (String, String, String))
    ensures
        res.0@ == "engpy."@ + module@ + "."@ + name@ + "("@ + python_example_args_of(args@) + ")"@,
        res.1@ == "="@ + excel@ + "("@ + excel_example_args_of(args@.len()) + ")"@,
        res.2@ == "="@ + excel@ + "("@ + excel_example_args_of(args@.len()) + ")"@,
{
    let mut py = String::from_str("engpy.");
    push_str(&mut py, module);
    push_str(&mut py, ".");
    push_str(&mut py, name);
    push_str(&mut py, "(");
    let pa = render_python_example_args(args.as_slice());
    push_str(&mut py, pa.as_str());
    push_str(&mut py, ")");
    let mut xl = String::from_str("=");
    push_str(&mut xl, excel);
    push_str(&mut xl, "(");
    let xa = render_excel_example_args(args.as_slice());
    push_str(&mut xl, xa.as_str());
    push_str(&mut xl, ")");
    let xl2 = xl.clone();
    (py, xl, xl2)
}

/// The module of an equation's solve bindings: `equations.<category>.<equation>`.
pub open spec fn equation_module(page: EquationPage) -> Seq<char> {
    "equations."@ + snake_case_of(page.category@) + "."@ + snake_case_of(last_piece(page.path_id@))
}

/// The Excel name of an equation's solve binding for a target.
pub open spec fn equation_excel_name(path_id: Seq<char>, target: Seq<char>) -> Seq<char> {
    "ENG_"@ + upper_seq(map_char(map_char(path_id, '.', '_'), '-', '_')) + "_"@ + upper_seq(map_char(target, '.', '_'))
}

/// The solve binding of an equation page for one target.
pub open spec fn equation_binding_matches(f: BindingFunction, page: EquationPage, target: Seq<char>) -> bool {
    &&& f.id@ == "equation."@ + page.path_id@ + "."@ + target
    &&& f.entity@ == "equation"@
    &&& f.source@ == page.path_id@
    &&& f.python_module@ == equation_module(page)
    &&& f.python_name@ == "solve_"@ + snake_case_of(target)
    &&& f.excel_name@ == equation_excel_name(page.path_id@, target)
    &&& f.op@ == "equation.solve"@
    &&& fixed_view(f.fixed_args@) == seq![("path_id"@, page.path_id@), ("target"@, target)]
    &&& args_view(f.args@) == solve_args(page, target)
    &&& f.returns@ == "f64"@
    &&& f.help@ == "Solve "@ + page.name@ + " for "@ + target
    &&& f.rust_example@ == rust_solve_example(page.path_id@, target)
    &&& examples_match(f, equation_module(page), "solve_"@ + snake_case_of(target), equation_excel_name(page.path_id@, target))
}

fn path_target_fixed(path_id: &str, target: &str) -> (res: Vec<(String, String)>)
    ensures
        fixed_view(res@) == seq![("path_id"@, path_id@), ("target"@, target@)],
{
    let res = vec![
        (String::from_str("path_id"), String::from_str(path_id)),
        (String::from_str("target"), String::from_str(target)),
    ];
    assert(fixed_view(res@) =~= seq![("path_id"@, path_id@), ("target"@, target@)]);
    res
}

/// Builds the solve binding of an equation page for one target.
pub fn equation_binding(page: &EquationPage, target: &str) -> (f: BindingFunction)
    ensures
        equation_binding_matches(f, *page, target@),
{
    let path = page.path_id.as_str();
    let mut id = String::from_str("equation.");
    push_str(&mut id, path);
    push_str(&mut id, ".");
    push_str(&mut id, target);
    let mut module = String::from_str("equations.");
    let cat = snake_case(page.category.as_str());
    push_str(&mut module, cat.as_str());
    push_str(&mut module, ".");
    let last = last_piece_exec(path);
    let slug = snake_case(last.as_str());
    push_str(&mut module, slug.as_str());
    let mut name = String::from_str("solve_");
    let ts = snake_case(target);
    push_str(&mut name, ts.as_str());
    let mut excel = String::from_str("ENG_");
    let p1 = replace_char(path, '.', '_');
    let p2 = replace_char(p1.as_str(), '-', '_');
    let pu = upper_ascii(p2.as_str());
    push_str(&mut excel, pu.as_str());
    push_str(&mut excel, "_");
    let t1 = replace_char(target, '.', '_');
    let tu = upper_ascii(t1.as_str());
    push_str(&mut excel, tu.as_str());
    let mut help = String::from_str("Solve ");
    push_str(&mut help, page.name.as_str());
    push_str(&mut help, " for ");
    push_str(&mut help, target);
    let rust = rust_solve_example_exec(path, target);
    let args = solve_args_exec(page, target);
    let (py, xl, px) = examples_exec(module.as_str(), name.as_str(), excel.as_str(), &args);
    let fixed = path_target_fixed(path, target);
    binding_function(
        id.as_str(),
        "equation",
        path,
        module.as_str(),
        name.as_str(),
        excel.as_str(),
        "equation.solve",
        fixed,
        args,
        "f64",
        help.as_str(),
        rust.as_str(),
        py.as_str(),
        xl.as_str(),
        px.as_str(),
    )
}


/// Each (page, target) pair, pages in order and each page's targets in order.
pub open spec fn equation_entries(pages: Seq<EquationPage>) -> Seq<(EquationPage, Seq<char>)>
    decreases pages.len(),
{
    if pages.len() == 0 {
        Seq::empty()
    } else {
        equation_entries(pages.drop_last()) + pages.last().solve_targets@.map_values(
            |t: String| (pages.last(), t@),
        )
    }
}

/// The solve bindings of every equation page and target.
pub fn equation_bindings(pages: &Vec<EquationPage>) -> (res: Vec<BindingFunction>)
    ensures
        res.len() == equation_entries(pages@).len(),
        forall|k: int| 0 <= k < res.len() ==> equation_binding_matches(
            #[trigger] res[k],
            equation_entries(pages@)[k].0,
            equation_entries(pages@)[k].1,
        ),
{
    let mut res: Vec<BindingFunction> = Vec::new();
    let mut i: usize = 0;
    while i < pages.len()
        invariant
            i <= pages@.len(),
            res.len() == equation_entries(pages@.subrange(0, i as int)).len(),
            forall|k: int| 0 <= k < res.len() ==> equation_binding_matches(
                #[trigger] res[k],
                equation_entries(pages@.subrange(0, i as int))[k].0,
                equation_entries(pages@.subrange(0, i as int))[k].1,
            ),
        decreases pages.len() - i,
    {
        let page = &pages[i];
        let ghost before = equation_entries(pages@.subrange(0, i as int));
        let ghost here = page.solve_targets@.map_values(|t: String| (*page, t@));
        assert(pages@.subrange(0, i + 1).drop_last() =~= pages@.subrange(0, i as int));
        assert(equation_entries(pages@.subrange(0, i + 1)) == before + here);
        let mut j: usize = 0;
        while j < page.solve_targets.len()
            invariant
                j <= page.solve_targets@.len(),
                here == page.solve_targets@.map_values(|t: String| (*page, t@)),
                res.len() == before.len() + j,
                forall|k: int| 0 <= k < res.len() ==> equation_binding_matches(
                    #[trigger] res[k],
                    (before + here)[k].0,
                    (before + here)[k].1,
                ),
            decreases page.solve_targets.len() - j,
        {
            let f = equation_binding(page, page.solve_targets[j].as_str());
            res.push(f);
            assert((before + here)[before.len() + j] == (*page, page.solve_targets@[j as int]@));
            j = j + 1;
        }
        i = i + 1;
    }
    assert(pages@.subrange(0, pages@.len() as int) =~= pages@);
    res
}

// ---------------------------------------------------------------------------
// Family variant bindings
// ---------------------------------------------------------------------------

/// The position of the last page with the given path id, or -1: a later page
/// with the same id takes the place of an earlier one.
pub open spec fn last_page_index(pages: Seq<EquationPage>, path_id: Seq<char>) -> int
    decreases pages.len(),
{
    if pages.len() == 0 {
        -1
    } else if pages.last().path_id@ == path_id {
        pages.len() - 1
    } else {
        last_page_index(pages.drop_last(), path_id)
    }
}

proof fn lemma_last_page_index(pages: Seq<EquationPage>, path_id: Seq<char>)
    ensures
        -1 <= last_page_index(pages, path_id) < pages.len(),
        last_page_index(pages, path_id) >= 0 ==> pages[last_page_index(pages, path_id)].path_id@ == path_id,
    decreases pages.len(),
{
    if pages.len() > 0 {
        lemma_last_page_index(pages.drop_last(), path_id);
    }
}

fn find_last_page(pages: &Vec<EquationPage>, path_id: &str) -> (res: Option<usize>)
    ensures
        match res {
            Some(k) => k as int == last_page_index(pages@, path_id@),
            None => last_page_index(pages@, path_id@) == -1,
        },
{
    let mut k: usize = pages.len();
    assert(pages@.subrange(0, k as int) =~= pages@);
    while k > 0
        invariant
            k <= pages@.len(),
            last_page_index(pages@.subrange(0, k as int), path_id@) == last_page_index(pages@, path_id@),
        decreases k,
    {
        assert(pages@.subrange(0, k as int).drop_last() =~= pages@.subrange(0, k - 1));
        if str_eq(pages[k - 1].path_id.as_str(), path_id) {
            return Some(k - 1);
        }
        k = k - 1;
    }
    None
}

/// The (family, variant, page, target) entries of one family: for each variant
/// whose equation has a page, that page's targets.
pub open spec fn variant_entries(
    f: FamilyDoc,
    variants: Seq<FamilyVariantDoc>,
    pages: Seq<EquationPage>,
) -> Seq<(FamilyDoc, FamilyVariantDoc, EquationPage, Seq<char>)>
    decreases variants.len(),
{
    if variants.len() == 0 {
        Seq::empty()
    } else {
        let v = variants.last();
        let k = last_page_index(pages, v.equation_id@);
        variant_entries(f, variants.drop_last(), pages) + if k >= 0 {
            pages[k].solve_targets@.map_values(|t: String| (f, v, pages[k], t@))
        } else {
            Seq::empty()
        }
    }
}

/// The entries of every family, in order.
pub open spec fn family_entries(
    families: Seq<FamilyDoc>,
    pages: Seq<EquationPage>,
) -> Seq<(FamilyDoc, FamilyVariantDoc, EquationPage, Seq<char>)>
    decreases families.len(),
{
    if families.len() == 0 {
        Seq::empty()
    } else {
        family_entries(families.drop_last(), pages) + variant_entries(families.last(), families.last().variants@, pages)
    }
}

pub open spec fn family_module(f: FamilyDoc, v: FamilyVariantDoc) -> Seq<char> {
    "equations.families."@ + snake_case_of(f.key@) + "."@ + snake_case_of(v.key@)
}

pub open spec fn family_excel_name(f: FamilyDoc, v: FamilyVariantDoc, target: Seq<char>) -> Seq<char> {
    "ENG_FAMILY_"@ + upper_seq(snake_case_of(f.key@)) + "_"@ + upper_seq(snake_case_of(v.key@)) + "_"@ + upper_seq(target)
}

/// The solve binding of a family variant for one target of its equation's page.
pub open spec fn family_binding_matches(
    b: BindingFunction,
    f: FamilyDoc,
    v: FamilyVariantDoc,
    page: EquationPage,
    target: Seq<char>,
) -> bool {
    &&& b.id@ == "family."@ + f.key@ + "."@ + v.key@ + "."@ + target
    &&& b.entity@ == "family_variant"@
    &&& b.source@ == f.key@ + "."@ + v.key@
    &&& b.python_module@ == family_module(f, v)
    &&& b.python_name@ == "solve_"@ + snake_case_of(target)
    &&& b.excel_name@ == family_excel_name(f, v, target)
    &&& b.op@ == "equation.solve"@
    &&& fixed_view(b.fixed_args@) == seq![("path_id"@, page.path_id@), ("target"@, target)]
    &&& args_view(b.args@) == solve_args(page, target)
    &&& b.returns@ == "f64"@
    &&& b.help@ == "Solve "@ + f.name@ + " variant "@ + v.name@ + " for "@ + target
    &&& b.rust_example@ == rust_solve_example(page.path_id@, target)
    &&& examples_match(b, family_module(f, v), "solve_"@ + snake_case_of(target), family_excel_name(f, v, target))
}

/// Builds the solve binding of a family variant for one target.
pub fn family_binding(f: &FamilyDoc, v: &FamilyVariantDoc, page: &EquationPage, target: &str) -> (b: BindingFunction)
    ensures
        family_binding_matches(b, *f, *v, *page, target@),
{
    let path = page.path_id.as_str();
    let mut id = String::from_str("family.");
    push_str(&mut id, f.key.as_str());
    push_str(&mut id, ".");
    push_str(&mut id, v.key.as_str());
    push_str(&mut id, ".");
    push_str(&mut id, target);
    let mut source = f.key.clone();
    push_str(&mut source, ".");
    push_str(&mut source, v.key.as_str());
    let fk = snake_case(f.key.as_str());
    let vk = snake_case(v.key.as_str());
    let mut module = String::from_str("equations.families.");
    push_str(&mut module, fk.as_str());
    push_str(&mut module, ".");
    push_str(&mut module, vk.as_str());
    let mut name = String::from_str("solve_");
    let ts = snake_case(target);
    push_str(&mut name, ts.as_str());
    let mut excel = String::from_str("ENG_FAMILY_");
    let fu = upper_ascii(fk.as_str());
    push_str(&mut excel, fu.as_str());
    push_str(&mut excel, "_");
    let vu = upper_ascii(vk.as_str());
    push_str(&mut excel, vu.as_str());
    push_str(&mut excel, "_");
    let tu = upper_ascii(target);
    push_str(&mut excel, tu.as_str());
    let mut help = String::from_str("Solve ");
    push_str(&mut help, f.name.as_str());
    push_str(&mut help, " variant ");
    push_str(&mut help, v.name.as_str());
    push_str(&mut help, " for ");
    push_str(&mut help, target);
    let rust = rust_solve_example_exec(path, target);
    let args = solve_args_exec(page, target);
    let (py, xl, px) = examples_exec(module.as_str(), name.as_str(), excel.as_str(), &args);
    let fixed = path_target_fixed(path, target);
    binding_function(
        id.as_str(),
        "family_variant",
        source.as_str(),
        module.as_str(),
        name.as_str(),
        excel.as_str(),
        "equation.solve",
        fixed,
        args,
        "f64",
        help.as_str(),
        rust.as_str(),
        py.as_str(),
        xl.as_str(),
        px.as_str(),
    )
}

/// The solve bindings of every family variant whose equation has a page.
pub fn family_bindings(families: &Vec<FamilyDoc>, pages: &Vec<EquationPage>) -> (res: Vec<BindingFunction>)
    ensures
        res.len() == family_entries(families@, pages@).len(),
        forall|k: int| 0 <= k < res.len() ==> {
            let e = family_entries(families@, pages@)[k];
            family_binding_matches(#[trigger] res[k], e.0, e.1, e.2, e.3)
        },
{
    let mut res: Vec<BindingFunction> = Vec::new();
    let mut i: usize = 0;
    while i < families.len()
        invariant
            i <= families@.len(),
            res.len() == family_entries(families@.subrange(0, i as int), pages@).len(),
            forall|k: int| 0 <= k < res.len() ==> {
                let e = family_entries(families@.subrange(0, i as int), pages@)[k];
                family_binding_matches(#[trigger] res[k], e.0, e.1, e.2, e.3)
            },
        decreases families.len() - i,
    {
        let f = &families[i];
        let ghost before = family_entries(families@.subrange(0, i as int), pages@);
        assert(families@.subrange(0, i + 1).drop_last() =~= families@.subrange(0, i as int));
        let mut j: usize = 0;
        while j < f.variants.len()
            invariant
                j <= f.variants@.len(),
                res.len() == before.len() + variant_entries(*f, f.variants@.subrange(0, j as int), pages@).len(),
                forall|k: int| 0 <= k < res.len() ==> {
                    let e = (before + variant_entries(*f, f.variants@.subrange(0, j as int), pages@))[k];
                    family_binding_matches(#[trigger] res[k], e.0, e.1, e.2, e.3)
                },
            decreases f.variants.len() - j,
        {
            let v = &f.variants[j];
            let ghost prev = variant_entries(*f, f.variants@.subrange(0, j as int), pages@);
            assert(f.variants@.subrange(0, j + 1).drop_last() =~= f.variants@.subrange(0, j as int));
            proof {
                lemma_last_page_index(pages@, v.equation_id@);
            }
            match find_last_page(pages, v.equation_id.as_str()) {
                Some(pk) => {
                    let page = &pages[pk];
                    let ghost here = page.solve_targets@.map_values(|t: String| (*f, *v, *page, t@));
                    assert(variant_entries(*f, f.variants@.subrange(0, j + 1), pages@) == prev + here);
                    let mut t: usize = 0;
                    while t < page.solve_targets.len()
                        invariant
                            t <= page.solve_targets@.len(),
                            here == page.solve_targets@.map_values(|t: String| (*f, *v, *page, t@)),
                            res.len() == before.len() + prev.len() + t,
                            forall|k: int| 0 <= k < res.len() ==> {
                                let e = (before + (prev + here))[k];
                                family_binding_matches(#[trigger] res[k], e.0, e.1, e.2, e.3)
                            },
                        decreases page.solve_targets.len() - t,
                    {
                        let b = family_binding(f, v, page, page.solve_targets[t].as_str());
                        res.push(b);
                        assert((before + (prev + here))[before.len() + prev.len() + t] == (
                            *f,
                            *v,
                            *page,
                            page.solve_targets@[t as int]@,
                        ));
                        t = t + 1;
                    }
                    assert forall|k: int| 0 <= k < res.len() implies {
                        let e = (before + variant_entries(*f, f.variants@.subrange(0, j + 1), pages@))[k];
                        family_binding_matches(#[trigger] res[k], e.0, e.1, e.2, e.3)
                    } by {
                        assert(before + (prev + here) =~= before + variant_entries(*f, f.variants@.subrange(0, j + 1), pages@));
                    }
                },
                None => {
                    assert(variant_entries(*f, f.variants@.subrange(0, j + 1), pages@) =~= prev);
                },
            }
            j = j + 1;
        }
        assert(f.variants@.subrange(0, f.variants@.len() as int) =~= f.variants@);
        assert(family_entries(families@.subrange(0, i + 1), pages@) == before + variant_entries(*f, f.variants@, pages@));
        i = i + 1;
    }
    assert(families@.subrange(0, families@.len() as int) =~= families@);
    res
}


// ---------------------------------------------------------------------------
// Device bindings
// ---------------------------------------------------------------------------

/// Each (device, binding) pair, devices in order and each device's bindings in order.
pub open spec fn device_entries(specs: Seq<DeviceGenerationSpec>) -> Seq<(DeviceGenerationSpec, DeviceBindingFunctionSpec)>
    decreases specs.len(),
{
    if specs.len() == 0 {
        Seq::empty()
    } else {
        device_entries(specs.drop_last()) + specs.last().binding_functions@.map_values(
            |b: DeviceBindingFunctionSpec| (specs.last(), b),
        )
    }
}

/// A manifest function made from a device binding: the binding's own names,
/// operation, arguments and documentation, attributed to its device.
pub open spec fn device_binding_matches(f: BindingFunction, s: DeviceGenerationSpec, b: DeviceBindingFunctionSpec) -> bool {
    &&& f.id@ == b.id@
    &&& f.entity@ == "device"@
    &&& f.source@ == s.key@
    &&& f.python_module@ == "devices"@
    &&& f.python_name@ == b.python_name@
    &&& f.excel_name@ == b.excel_name@
    &&& f.op@ == b.op@
    &&& fixed_view(f.fixed_args@) == b.fixed_args@.map_values(|kv: (&'static str, &'static str)| (kv.0@, kv.1@))
    &&& args_view(f.args@) == b.args@.map_values(|a: DeviceBindingArgSpec| (a.name@, a.description@))
    &&& f.returns@ == b.returns@
    &&& f.help@ == b.help@
    &&& f.rust_example@ == b.rust_example@
    &&& f.python_example@ == b.python_example@
    &&& f.xloil_example@ == b.xloil_example@
    &&& f.pyxll_example@ == b.pyxll_example@
}

fn device_binding(s: &DeviceGenerationSpec, b: &DeviceBindingFunctionSpec) -> (f: BindingFunction)
    ensures
        device_binding_matches(f, *s, *b),
{
    let mut fixed: Vec<(String, String)> = Vec::new();
    let mut i: usize = 0;
    while i < b.fixed_args.len()
        invariant
            i <= b.fixed_args@.len(),
            fixed@.len() == i,
            forall|k: int| 0 <= k < i ==> (#[trigger] fixed@[k]).0@ == b.fixed_args@[k].0@
                && fixed@[k].1@ == b.fixed_args@[k].1@,
        decreases b.fixed_args.len() - i,
    {
        let (k, v) = b.fixed_args[i];
        fixed.push((String::from_str(k), String::from_str(v)));
        i = i + 1;
    }
    assert(fixed_view(fixed@) =~= b.fixed_args@.map_values(
        |kv: (&'static str, &'static str)| (kv.0@, kv.1@),
    ));
    let mut args: Vec<BindingArg> = Vec::new();
    let mut j: usize = 0;
    while j < b.args.len()
        invariant
            j <= b.args@.len(),
            args@.len() == j,
            forall|k: int| 0 <= k < j ==> (#[trigger] args@[k]).name@ == b.args@[k].name@
                && args@[k].description@ == b.args@[k].description@,
        decreases b.args.len() - j,
    {
        args.push(binding_arg(b.args[j].name, b.args[j].description));
        j = j + 1;
    }
    assert(args_view(args@) =~= b.args@.map_values(|a: DeviceBindingArgSpec| (a.name@, a.description@)));
    binding_function(
        b.id,
        "device",
        s.key,
        "devices",
        b.python_name,
        b.excel_name,
        b.op,
        fixed,
        args,
        b.returns,
        b.help,
        b.rust_example,
        b.python_example,
        b.xloil_example,
        b.pyxll_example,
    )
}

/// The manifest functions of every device binding.
pub fn device_bindings(specs: &Vec<DeviceGenerationSpec>) -> (res: Vec<BindingFunction>)
    ensures
        res.len() == device_entries(specs@).len(),
        forall|k: int| 0 <= k < res.len() ==> device_binding_matches(
            #[trigger] res[k],
            device_entries(specs@)[k].0,
            device_entries(specs@)[k].1,
        ),
{
    let mut res: Vec<BindingFunction> = Vec::new();
    let mut i: usize = 0;
    while i < specs.len()
        invariant
            i <= specs@.len(),
            res.len() == device_entries(specs@.subrange(0, i as int)).len(),
            forall|k: int| 0 <= k < res.len() ==> device_binding_matches(
                #[trigger] res[k],
                device_entries(specs@.subrange(0, i as int))[k].0,
                device_entries(specs@.subrange(0, i as int))[k].1,
            ),
        decreases specs.len() - i,
    {
        let s = &specs[i];
        let ghost before = device_entries(specs@.subrange(0, i as int));
        let ghost here = s.binding_functions@.map_values(|b: DeviceBindingFunctionSpec| (*s, b));
        assert(specs@.subrange(0, i + 1).drop_last() =~= specs@.subrange(0, i as int));
        assert(device_entries(specs@.subrange(0, i + 1)) == before + here);
        let mut j: usize = 0;
        while j < s.binding_functions.len()
            invariant
                j <= s.binding_functions@.len(),
                here == s.binding_functions@.map_values(|b: DeviceBindingFunctionSpec| (*s, b)),
                res.len() == before.len() + j,
                forall|k: int| 0 <= k < res.len() ==> device_binding_matches(
                    #[trigger] res[k],
                    (before + here)[k].0,
                    (before + here)[k].1,
                ),
            decreases s.binding_functions.len() - j,
        {
            let f = device_binding(s, &s.binding_functions[j]);
            res.push(f);
            assert((before + here)[before.len() + j] == (*s, s.binding_functions@[j as int]));
            j = j + 1;
        }
        i = i + 1;
    }
    assert(specs@.subrange(0, specs@.len() as int) =~= specs@);
    res
}

// ---------------------------------------------------------------------------
// Ordering by id
// ---------------------------------------------------------------------------

/// No function comes after one with a larger id.
pub open spec fn sorted_by_id(fs: Seq<BindingFunction>) -> bool {
    forall|i: int, j: int| 0 <= i < j < fs.len() ==> !lex_lt(fs[j].id@, fs[i].id@)
}

/// A function's id.
pub open spec fn binding_id() -> spec_fn(BindingFunction) -> Seq<char> {
    |f: BindingFunction| f.id@
}

/// Orders functions by id; functions with equal ids keep their order.
pub fn sort_by_id(fs: Vec<BindingFunction>) -> (res: Vec<BindingFunction>)
    ensures
        sorted_by_id(res@),
        res@.to_multiset() == fs@.to_multiset(),
        forall|k: Seq<char>| #[trigger] with_key(res@, binding_id(), k) == with_key(fs@, binding_id(), k),
{
    let mut res: Vec<BindingFunction> = Vec::new();
    let mut i: usize = 0;
    let n = fs.len();
    let ghost all = fs@;
    let mut rest = fs;
    assert(all.subrange(0, n as int) =~= all);
    assert(res@ =~= all.subrange(0, 0));
    while i < n
        invariant
            n == all.len(),
            i <= n,
            rest@ == all.subrange(i as int, n as int),
            sorted_by_id(res@),
            res@.to_multiset() == all.subrange(0, i as int).to_multiset(),
            forall|k: Seq<char>| #[trigger] with_key(res@, binding_id(), k) == with_key(
                all.subrange(0, i as int),
                binding_id(),
                k,
            ),
        decreases n - i,
    {
        let x = rest.remove(0);
        assert(x == all[i as int]);
        assert(rest@ =~= all.subrange(i + 1, n as int));
        let mut p: usize = 0;
        while p < res.len() && !lex_less(x.id.as_str(), res[p].id.as_str())
            invariant
                p <= res@.len(),
                forall|k: int| 0 <= k < p ==> !lex_lt(x.id@, res@[k].id@),
            decreases res.len() - p,
        {
            p = p + 1;
        }
        let ghost old_res = res@;
        proof {
            assert forall|m: int| p <= m < old_res.len() implies !lex_lt(#[trigger] old_res[m].id@, x.id@) by {
                if lex_lt(old_res[m].id@, x.id@) {
                    assert(lex_lt(x.id@, old_res[p as int].id@));
                    lemma_lex_transitive(old_res[m].id@, x.id@, old_res[p as int].id@);
                    if m > p {
                        assert(!lex_lt(old_res[m].id@, old_res[p as int].id@));
                    } else {
                        lemma_lex_irreflexive(old_res[p as int].id@);
                    }
                }
            }
        }
        res.insert(p, x);
        proof {
            let nr = res@;
            assert(nr =~= old_res.insert(p as int, x));
            assert forall|a: int, b: int| 0 <= a < b < nr.len() implies !lex_lt(nr[b].id@, nr[a].id@) by {
                if a < p && b == p {
                } else if a < p && b > p {
                    assert(nr[b] == old_res[b - 1]);
                } else if a == p {
                    assert(nr[b] == old_res[b - 1]);
                    assert(!lex_lt(old_res[b - 1].id@, x.id@));
                } else if a > p {
                    assert(nr[a] == old_res[a - 1]);
                    assert(nr[b] == old_res[b - 1]);
                } else {
                    assert(nr[a] == old_res[a]);
                    assert(nr[b] == old_res[b]);
                }
            }
            vstd::seq_lib::to_multiset_insert(old_res, p as int, x);
            vstd::seq_lib::to_multiset_build(all.subrange(0, i as int), all[i as int]);
            assert(all.subrange(0, i + 1) =~= all.subrange(0, i as int).push(all[i as int]));
            // Every function from position `p` on has a greater id than `x`.
            assert forall|m: int| p <= m < old_res.len() implies (#[trigger] old_res[m]).id@ != x.id@ by {
                if old_res[m].id@ == x.id@ {
                    if m == p {
                        lemma_lex_irreflexive(x.id@);
                    } else {
                        assert(!lex_lt(old_res[m].id@, old_res[p as int].id@));
                    }
                }
            }
            assert forall|k: Seq<char>| #[trigger] with_key(nr, binding_id(), k) == with_key(
                all.subrange(0, i + 1),
                binding_id(),
                k,
            ) by {
                lemma_with_key_insert(old_res, p as int, x, binding_id(), k);
                lemma_with_key_push(all.subrange(0, i as int), all[i as int], binding_id(), k);
            }
        }
        i = i + 1;
    }
    assert(all.subrange(0, n as int) =~= all);
    res
}

// ---------------------------------------------------------------------------
// The fixed bindings
// ---------------------------------------------------------------------------

/// The ids of the metadata, formatting and lookup bindings, in the order they are built.
pub open spec fn metadata_ids() -> Seq<Seq<char>> {
    METADATA_NAMES@.map_values(|r: NameRow| r.0@)
}

/// The operations those bindings call, position by position.
pub open spec fn metadata_ops() -> Seq<Seq<char>> {
    METADATA_NAMES@.map_values(|r: NameRow| r.6@)
}

/// The bindings of the metadata, formatting and lookup operations, which precede the device bindings.
pub fn metadata_binding_functions() -> (res: Vec<BindingFunction>)
    ensures
        table_bindings(res@, METADATA_NAMES@, METADATA_TEXTS@, METADATA_ARGS@, METADATA_FIXED@),
{
    let names = METADATA_NAMES.as_slice();
    let texts = METADATA_TEXTS.as_slice();
    let args = METADATA_ARGS.as_slice();
    let fixed = METADATA_FIXED.as_slice();
    assert(names@ == METADATA_NAMES@ && texts@ == METADATA_TEXTS@);
    assert(args@ == METADATA_ARGS@ && fixed@ == METADATA_FIXED@);
    table_functions(names, texts, args, fixed)
}

/// Every one of these bindings calls an operation that the invoke protocol lists.
pub proof fn metadata_ops_are_listed()
    ensures
        forall|k: int| 0 <= k < metadata_ops().len() ==> exists|j: int| 0 <= j < INVOKE_SUPPORTED_OPS@.len()
            && #[trigger] INVOKE_SUPPORTED_OPS@[j]@ == #[trigger] metadata_ops()[k],
{
    assert(INVOKE_SUPPORTED_OPS@[1]@ == metadata_ops()[0]);
    assert(INVOKE_SUPPORTED_OPS@[2]@ == metadata_ops()[1]);
    assert(INVOKE_SUPPORTED_OPS@[3]@ == metadata_ops()[2]);
    assert(INVOKE_SUPPORTED_OPS@[4]@ == metadata_ops()[3]);
    assert(INVOKE_SUPPORTED_OPS@[5]@ == metadata_ops()[4]);
    assert(INVOKE_SUPPORTED_OPS@[6]@ == metadata_ops()[5]);
    assert(INVOKE_SUPPORTED_OPS@[7]@ == metadata_ops()[6]);
    assert(INVOKE_SUPPORTED_OPS@[8]@ == metadata_ops()[7]);
    assert(INVOKE_SUPPORTED_OPS@[9]@ == metadata_ops()[8]);
    assert(INVOKE_SUPPORTED_OPS@[10]@ == metadata_ops()[9]);
    assert(INVOKE_SUPPORTED_OPS@[19]@ == metadata_ops()[10]);
    assert(INVOKE_SUPPORTED_OPS@[20]@ == metadata_ops()[11]);
    assert(INVOKE_SUPPORTED_OPS@[20]@ == metadata_ops()[12]);
    assert(INVOKE_SUPPORTED_OPS@[20]@ == metadata_ops()[13]);
    assert(INVOKE_SUPPORTED_OPS@[20]@ == metadata_ops()[14]);
    assert(INVOKE_SUPPORTED_OPS@[11]@ == metadata_ops()[15]);
    assert(INVOKE_SUPPORTED_OPS@[16]@ == metadata_ops()[16]);
    assert(INVOKE_SUPPORTED_OPS@[14]@ == metadata_ops()[17]);
    assert(INVOKE_SUPPORTED_OPS@[12]@ == metadata_ops()[18]);
    assert(INVOKE_SUPPORTED_OPS@[17]@ == metadata_ops()[19]);
    assert(INVOKE_SUPPORTED_OPS@[15]@ == metadata_ops()[20]);
    assert(INVOKE_SUPPORTED_OPS@[13]@ == metadata_ops()[21]);
    assert(INVOKE_SUPPORTED_OPS@[18]@ == metadata_ops()[22]);
    assert(INVOKE_SUPPORTED_OPS@[21]@ == metadata_ops()[23]);
    assert(INVOKE_SUPPORTED_OPS@[22]@ == metadata_ops()[24]);
    assert(INVOKE_SUPPORTED_OPS@[23]@ == metadata_ops()[25]);
    assert(INVOKE_SUPPORTED_OPS@[24]@ == metadata_ops()[26]);
    assert(INVOKE_SUPPORTED_OPS@[25]@ == metadata_ops()[27]);
    assert(INVOKE_SUPPORTED_OPS@[26]@ == metadata_ops()[28]);
    assert(INVOKE_SUPPORTED_OPS@[27]@ == metadata_ops()[29]);
    assert(INVOKE_SUPPORTED_OPS@[28]@ == metadata_ops()[30]);
}

/// The ids of the study and lookup bindings, in the order they are built.
pub open spec fn study_and_lookup_ids() -> Seq<Seq<char>> {
    STUDY_NAMES@.map_values(|r: NameRow| r.0@)
}

/// The operations those bindings call, position by position.
pub open spec fn study_and_lookup_ops() -> Seq<Seq<char>> {
    STUDY_NAMES@.map_values(|r: NameRow| r.6@)
}

/// The bindings of the study tables and the fluid, material and constant lookups.
pub fn study_and_lookup_binding_functions() -> (res: Vec<BindingFunction>)
    ensures
        table_bindings(res@, STUDY_NAMES@, STUDY_TEXTS@, STUDY_ARGS@, STUDY_FIXED@),
{
    let names = STUDY_NAMES.as_slice();
    let texts = STUDY_TEXTS.as_slice();
    let args = STUDY_ARGS.as_slice();
    let fixed = STUDY_FIXED.as_slice();
    assert(names@ == STUDY_NAMES@ && texts@ == STUDY_TEXTS@);
    assert(args@ == STUDY_ARGS@ && fixed@ == STUDY_FIXED@);
    table_functions(names, texts, args, fixed)
}

// ---------------------------------------------------------------------------
// The manifest
// ---------------------------------------------------------------------------

/// `eq` holds the solve bindings of every page and target, in order.
pub open spec fn equation_part(eq: Seq<BindingFunction>, pages: Seq<EquationPage>) -> bool {
    &&& eq.len() == equation_entries(pages).len()
    &&& forall|k: int| 0 <= k < eq.len() ==> equation_binding_matches(
        #[trigger] eq[k],
        equation_entries(pages)[k].0,
        equation_entries(pages)[k].1,
    )
}

/// `fam` holds the solve bindings of every family variant with a page, in order.
pub open spec fn family_part(fam: Seq<BindingFunction>, families: Seq<FamilyDoc>, pages: Seq<EquationPage>) -> bool {
    &&& fam.len() == family_entries(families, pages).len()
    &&& forall|k: int| 0 <= k < fam.len() ==> {
        let e = family_entries(families, pages)[k];
        family_binding_matches(#[trigger] fam[k], e.0, e.1, e.2, e.3)
    }
}

/// `dev` holds the bindings of every device, in order.
pub open spec fn device_part(dev: Seq<BindingFunction>, specs: Seq<DeviceGenerationSpec>) -> bool {
    &&& dev.len() == device_entries(specs).len()
    &&& forall|k: int| 0 <= k < dev.len() ==> device_binding_matches(
        #[trigger] dev[k],
        device_entries(specs)[k].0,
        device_entries(specs)[k].1,
    )
}

/// The functions of the five parts, counted together.
pub open spec fn parts_multiset(
    eq: Seq<BindingFunction>,
    fam: Seq<BindingFunction>,
    meta: Seq<BindingFunction>,
    dev: Seq<BindingFunction>,
    study: Seq<BindingFunction>,
) -> vstd::multiset::Multiset<BindingFunction> {
    (eq + fam + meta + dev + study).to_multiset()
}

/// `fs` holds exactly the equation, family, metadata, device and study bindings
/// of these sources: each part is as its own builder states it, and `fs` holds
/// each function of each part as often as it occurs there.
pub open spec fn manifest_functions_from(
    fs: Seq<BindingFunction>,
    pages: Seq<EquationPage>,
    families: Seq<FamilyDoc>,
    specs: Seq<DeviceGenerationSpec>,
) -> bool {
    exists|
        eq: Seq<BindingFunction>,
        fam: Seq<BindingFunction>,
        meta: Seq<BindingFunction>,
        dev: Seq<BindingFunction>,
        study: Seq<BindingFunction>,
    |
        #![trigger parts_multiset(eq, fam, meta, dev, study)]
        {
            &&& equation_part(eq, pages)
            &&& family_part(fam, families, pages)
            &&& table_bindings(meta, METADATA_NAMES@, METADATA_TEXTS@, METADATA_ARGS@, METADATA_FIXED@)
            &&& device_part(dev, specs)
            &&& table_bindings(study, STUDY_NAMES@, STUDY_TEXTS@, STUDY_ARGS@, STUDY_FIXED@)
            &&& fs.to_multiset() == parts_multiset(eq, fam, meta, dev, study)
        }
}

/// The target `t` of page `p` sits among the (page, target) pairs.
proof fn lemma_equation_entry_at(pages: Seq<EquationPage>, p: int, t: int)
    requires
        0 <= p < pages.len(),
        0 <= t < pages[p].solve_targets@.len(),
    ensures
        exists|k: int|
            0 <= k < equation_entries(pages).len() && #[trigger] equation_entries(pages)[k] == (
                pages[p],
                pages[p].solve_targets@[t]@,
            ),
    decreases pages.len(),
{
    let prev = equation_entries(pages.drop_last());
    if p == pages.len() - 1 {
        let k = prev.len() + t;
        assert(equation_entries(pages)[k] == (pages[p], pages[p].solve_targets@[t]@));
    } else {
        lemma_equation_entry_at(pages.drop_last(), p, t);
        let k = choose|k: int|
            0 <= k < prev.len() && #[trigger] prev[k] == (
                pages.drop_last()[p],
                pages.drop_last()[p].solve_targets@[t]@,
            );
        assert(equation_entries(pages)[k] == prev[k]);
    }
}

/// Every solve target of every equation page has its solve binding among the
/// manifest's functions: id `equation.<path id>.<target>`, operation
/// `equation.solve`, and the rest of the binding as the page gives it.
pub proof fn manifest_covers_every_solve_target(
    fs: Seq<BindingFunction>,
    pages: Seq<EquationPage>,
    families: Seq<FamilyDoc>,
    specs: Seq<DeviceGenerationSpec>,
    p: int,
    t: int,
)
    requires
        manifest_functions_from(fs, pages, families, specs),
        0 <= p < pages.len(),
        0 <= t < pages[p].solve_targets@.len(),
    ensures
        exists|i: int|
            #![trigger fs[i]]
            0 <= i < fs.len() && fs[i].id@ == "equation."@ + pages[p].path_id@ + "."@ + pages[p].solve_targets@[t]@
                && fs[i].op@ == "equation.solve"@ && equation_binding_matches(
                fs[i],
                pages[p],
                pages[p].solve_targets@[t]@,
            ),
{
    broadcast use vstd::seq_lib::group_to_multiset_ensures;
    let (eq, fam, meta, dev, study) = choose|
        eq: Seq<BindingFunction>,
        fam: Seq<BindingFunction>,
        meta: Seq<BindingFunction>,
        dev: Seq<BindingFunction>,
        study: Seq<BindingFunction>,
    |
        #![trigger parts_multiset(eq, fam, meta, dev, study)]
        {
            &&& equation_part(eq, pages)
            &&& family_part(fam, families, pages)
            &&& table_bindings(meta, METADATA_NAMES@, METADATA_TEXTS@, METADATA_ARGS@, METADATA_FIXED@)
            &&& device_part(dev, specs)
            &&& table_bindings(study, STUDY_NAMES@, STUDY_TEXTS@, STUDY_ARGS@, STUDY_FIXED@)
            &&& fs.to_multiset() == parts_multiset(eq, fam, meta, dev, study)
        };
    lemma_equation_entry_at(pages, p, t);
    let k = choose|k: int|
        0 <= k < equation_entries(pages).len() && #[trigger] equation_entries(pages)[k] == (
            pages[p],
            pages[p].solve_targets@[t]@,
        );
    let f = eq[k];
    assert(equation_binding_matches(f, pages[p], pages[p].solve_targets@[t]@));
    let all = eq + fam + meta + dev + study;
    assert(all[k] == f);
    assert(all.contains(f));
    assert(fs.to_multiset().count(f) > 0);
    assert(fs.contains(f));
    let i = choose|i: int| 0 <= i < fs.len() && fs[i] == f;
    assert(fs[i] == f);
}

/// The binding manifest of these pages, families and device specs: every
/// binding, ordered by id, under the schema version, source file and Python
/// package of the generated bindings.
pub fn build_binding_manifest_from(
    pages: &Vec<EquationPage>,
    families: &Vec<FamilyDoc>,
    specs: &Vec<DeviceGenerationSpec>,
) -> (m: BindingManifest)
    ensures
        m.schema_version@ == "1"@,
        m.generated_from@ == "generated/catalog.json"@,
        m.python_package@ == "engpy"@,
        sorted_by_id(m.functions@),
        manifest_functions_from(m.functions@, pages@, families@, specs@),
{
    let mut functions = equation_bindings(pages);
    let mut fam = family_bindings(families, pages);
    let mut meta = metadata_binding_functions();
    let mut dev = device_bindings(specs);
    let mut study = study_and_lookup_binding_functions();
    let ghost e0 = functions@;
    let ghost f0 = fam@;
    let ghost m0 = meta@;
    let ghost d0 = dev@;
    let ghost s0 = study@;
    functions.append(&mut fam);
    functions.append(&mut meta);
    functions.append(&mut dev);
    functions.append(&mut study);
    let sorted = sort_by_id(functions);
    proof {
        assert(equation_part(e0, pages@));
        assert(family_part(f0, families@, pages@));
        assert(device_part(d0, specs@));
        assert(sorted@.to_multiset() == parts_multiset(e0, f0, m0, d0, s0));
    }
    BindingManifest {
        schema_version: "1",
        generated_from: "generated/catalog.json",
        python_package: String::from_str("engpy"),
        functions: sorted,
    }
}

/// The binding manifest of these pages and families, with the bindings of the
/// devices that have generated documentation.
pub fn build_binding_manifest(pages: &Vec<EquationPage>, families: &Vec<FamilyDoc>) -> (m: BindingManifest)
    ensures
        m.schema_version@ == "1"@,
        m.generated_from@ == "generated/catalog.json"@,
        m.python_package@ == "engpy"@,
        sorted_by_id(m.functions@),
        exists|specs: Seq<DeviceGenerationSpec>|
            {
                &&& device_specs_are(specs)
                &&& specs.len() == device_keys().len()
                &&& forall|i: int| 0 <= i < specs.len() ==> (#[trigger] specs[i]).key@ == device_keys()[i]
                &&& #[trigger] manifest_functions_from(m.functions@, pages@, families@, specs)
            },
{
    let specs = generation_specs();
    build_binding_manifest_from(pages, families, &specs)
}

} // verus!
