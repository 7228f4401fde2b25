//! The binding model that the Python and Excel generators read, and the help
//! text they derive from it: docstrings, Excel help blocks, parameter names and
//! example argument lists.
use vstd::prelude::*;
use crate::docs::naming::{snake_case, snake_case_of};
use crate::strings::{concat_seq, join_seq, join_strings, push_str, views};
use crate::text::{chars_of, push_char, str_eq, trim_seq, trim_str};

verus! {

/// One argument of a binding function.
#[derive(Debug, Clone)]
pub struct BindingArg {
    pub name: String,
    pub description: String,
}

/// One function of the binding manifest. `fixed_args` holds the arguments the
/// function always passes, ordered by key.
#[derive(Debug, Clone)]
pub struct BindingFunction {
    pub id: String,
    pub entity: String,
    pub source: String,
    pub python_module: String,
    pub python_name: String,
    pub excel_name: String,
    pub op: String,
    pub fixed_args: Vec<(String, String)>,
    pub args: Vec<BindingArg>,
    pub returns: String,
    pub help: String,
    pub rust_example: String,
    pub python_example: String,
    pub xloil_example: String,
    pub pyxll_example: String,
}

/// The whole binding manifest.
#[derive(Debug, Clone)]
pub struct BindingManifest {
    pub schema_version: &'static str,
    pub generated_from: &'static str,
    pub python_package: String,
    pub functions: Vec<BindingFunction>,
}

// ---------------------------------------------------------------------------
// Excel parameter names
// ---------------------------------------------------------------------------

/// Readable Excel names for terse arguments of particular operations:
/// operation, argument, Excel name.
pub const EXCEL_PARAM_RENAMES: [(&'static str, &'static str, &'static str); 53] = [
    ("device.pipe_loss.solve_delta_p", "rho", "density"),
    ("device.pipe_loss.solve_delta_p", "mu", "viscosity"),
    ("device.pipe_loss.solve_delta_p", "v", "velocity"),
    ("device.pipe_loss.solve_delta_p", "d", "diameter"),
    ("device.pipe_loss.solve_delta_p", "l", "length"),
    ("device.pipe_loss.solve_delta_p", "eps", "roughness"),
    ("device.isentropic_calc", "input_kind", "value_kind_in"),
    ("device.isentropic_calc.value", "input_kind", "value_kind_in"),
    ("device.isentropic_calc.pivot_mach", "input_kind", "value_kind_in"),
    ("device.isentropic_calc.path_text", "input_kind", "value_kind_in"),
    ("device.isentropic_calc", "input_value", "value_in"),
    ("device.isentropic_calc.value", "input_value", "value_in"),
    ("device.isentropic_calc.pivot_mach", "input_value", "value_in"),
    ("device.isentropic_calc.path_text", "input_value", "value_in"),
    ("device.isentropic_calc", "target_kind", "target_kind_out"),
    ("device.isentropic_calc.value", "target_kind", "target_kind_out"),
    ("device.isentropic_calc.pivot_mach", "target_kind", "target_kind_out"),
    ("device.isentropic_calc.path_text", "target_kind", "target_kind_out"),
    ("device.fanno_flow_calc", "input_kind", "value_kind_in"),
    ("device.fanno_flow_calc.value", "input_kind", "value_kind_in"),
    ("device.fanno_flow_calc.pivot_mach", "input_kind", "value_kind_in"),
    ("device.fanno_flow_calc.path_text", "input_kind", "value_kind_in"),
    ("device.fanno_flow_calc", "input_value", "value_in"),
    ("device.fanno_flow_calc.value", "input_value", "value_in"),
    ("device.fanno_flow_calc.pivot_mach", "input_value", "value_in"),
    ("device.fanno_flow_calc.path_text", "input_value", "value_in"),
    ("device.fanno_flow_calc", "target_kind", "target_kind_out"),
    ("device.fanno_flow_calc.value", "target_kind", "target_kind_out"),
    ("device.fanno_flow_calc.pivot_mach", "target_kind", "target_kind_out"),
    ("device.fanno_flow_calc.path_text", "target_kind", "target_kind_out"),
    ("device.oblique_shock_calc", "input_kind", "value_kind_in"),
    ("device.oblique_shock_calc.value", "input_kind", "value_kind_in"),
    ("device.oblique_shock_calc.path_text", "input_kind", "value_kind_in"),
    ("device.oblique_shock_calc", "input_value", "value_in"),
    ("device.oblique_shock_calc.value", "input_value", "value_in"),
    ("device.oblique_shock_calc.path_text", "input_value", "value_in"),
    ("device.oblique_shock_calc", "target_kind", "target_kind_out"),
    ("device.oblique_shock_calc.value", "target_kind", "target_kind_out"),
    ("device.oblique_shock_calc.path_text", "target_kind", "target_kind_out"),
    ("device.conical_shock_calc", "input_kind", "value_kind_in"),
    ("device.conical_shock_calc.value", "input_kind", "value_kind_in"),
    ("device.conical_shock_calc.path_text", "input_kind", "value_kind_in"),
    ("device.conical_shock_calc", "input_value", "value_in"),
    ("device.conical_shock_calc.value", "input_value", "value_in"),
    ("device.conical_shock_calc.path_text", "input_value", "value_in"),
    ("device.conical_shock_calc", "target_kind", "target_kind_out"),
    ("device.conical_shock_calc.value", "target_kind", "target_kind_out"),
    ("device.conical_shock_calc.path_text", "target_kind", "target_kind_out"),
    ("fluid.prop", "in1_key", "state_prop_1"),
    ("fluid.prop", "in1_value", "state_value_1"),
    ("fluid.prop", "in2_key", "state_prop_2"),
    ("fluid.prop", "in2_value", "state_value_2"),
    ("material.prop", "property", "property_key"),
];

/// The Excel name of an argument, searching the rename table from position `i`;
/// an argument that no entry renames keeps its snake-case name.
pub open spec fn excel_param_from(op: Seq<char>, arg: Seq<char>, i: int) -> Seq<char>
    decreases EXCEL_PARAM_RENAMES@.len() - i,
{
    if i < 0 || i >= EXCEL_PARAM_RENAMES@.len() {
        snake_case_of(arg)
    } else if EXCEL_PARAM_RENAMES@[i].0@ == op && EXCEL_PARAM_RENAMES@[i].1@ == arg {
        EXCEL_PARAM_RENAMES@[i].2@
    } else {
        excel_param_from(op, arg, i + 1)
    }
}

/// The Excel name of argument `arg` of operation `op`.
pub open spec fn excel_param_of(op: Seq<char>, arg: Seq<char>) -> Seq<char> {
    excel_param_from(op, arg, 0)
}

/// The Excel-facing name of an argument of an operation.
pub fn excel_param_name_for_op(op: &str, arg_name: &str) -> (res: String)
    ensures
        res@ == excel_param_of(op@, arg_name@),
{
    let mut i: usize = 0;
    while i < EXCEL_PARAM_RENAMES.len()
        invariant
            i <= EXCEL_PARAM_RENAMES@.len(),
            excel_param_from(op@, arg_name@, i as int) == excel_param_of(op@, arg_name@),
        decreases EXCEL_PARAM_RENAMES@.len() - i,
    {
        let (o, a, name) = EXCEL_PARAM_RENAMES[i];
        if str_eq(o, op) && str_eq(a, arg_name) {
            return String::from_str(name);
        }
        i = i + 1;
    }
    snake_case(arg_name)
}

/// The Excel-facing name of an argument of a binding function.
pub fn excel_param_name(f: &BindingFunction, a: &BindingArg) -> (res: String)
    ensures
        res@ == excel_param_of(f.op@, a.name@),
{
    excel_param_name_for_op(f.op.as_str(), a.name.as_str())
}

// ---------------------------------------------------------------------------
// Example argument lists
// ---------------------------------------------------------------------------

/// `name="..."` for one argument, with its name in snake case.
pub open spec fn python_example_arg(a: BindingArg) -> Seq<char> {
    snake_case_of(a.name@) + "=\"...\""@
}

/// The Python example argument list: each argument as `name="..."`, joined by `, `.
pub open spec fn python_example_args_of(args: Seq<BindingArg>) -> Seq<char> {
    join_seq(args.map_values(|a: BindingArg| python_example_arg(a)), ", "@)
}

/// Renders the Python example argument list of a binding.
pub fn render_python_example_args(args: &[BindingArg]) -> (res: String)
    ensures
        res@ == python_example_args_of(args@),
{
    let mut parts: Vec<String> = Vec::new();
    let mut i: usize = 0;
    while i < args.len()
        invariant
            i <= args@.len(),
            views(parts@) == args@.subrange(0, i as int).map_values(|a: BindingArg| python_example_arg(a)),
        decreases args.len() - i,
    {
        let mut p = snake_case(args[i].name.as_str());
        push_str(&mut p, "=\"...\"");
        parts.push(p);
        proof {
            assert(views(parts@) =~= views(parts@.drop_last()).push(parts@.last()@));
            assert(args@.subrange(0, i + 1).map_values(|a: BindingArg| python_example_arg(a)) =~= args@.subrange(
                0,
                i as int,
            ).map_values(|a: BindingArg| python_example_arg(a)).push(python_example_arg(args@[i as int])));
        }
        i = i + 1;
    }
    assert(args@.subrange(0, args@.len() as int) =~= args@);
    join_strings(&parts, ", ")
}

/// `n` copies of the placeholder `"..."`.
pub open spec fn placeholders(n: nat) -> Seq<Seq<char>> {
    Seq::new(n, |i: int| "\"...\""@)
}

/// The Excel example argument list: one `"..."` per argument, joined by commas.
pub open spec fn excel_example_args_of(n: nat) -> Seq<char> {
    join_seq(placeholders(n), ","@)
}

/// Renders the Excel example argument list of a binding.
pub fn render_excel_example_args(args: &[BindingArg]) -> (res: String)
    ensures
        res@ == excel_example_args_of(args@.len()),
{
    let mut parts: Vec<String> = Vec::new();
    let mut i: usize = 0;
    while i < args.len()
        invariant
            i <= args@.len(),
            views(parts@) == placeholders(i as nat),
        decreases args.len() - i,
    {
        parts.push(String::from_str("\"...\""));
        proof {
            assert(views(parts@) =~= views(parts@.drop_last()).push(parts@.last()@));
            assert(parts@.last()@ == "\"...\""@);
            assert(placeholders((i + 1) as nat) =~= placeholders(i as nat).push("\"...\""@));
            assert(views(parts@) =~= placeholders((i + 1) as nat));
        }
        i = i + 1;
    }
    join_strings(&parts, ",")
}

// ---------------------------------------------------------------------------
// Python docstrings
// ---------------------------------------------------------------------------

/// `  name: description` and a newline, with the name in snake case.
pub open spec fn docstring_arg_line(a: BindingArg) -> Seq<char> {
    "  "@ + snake_case_of(a.name@) + ": "@ + a.description@ + "\n"@
}

/// The argument section of a docstring.
pub open spec fn docstring_args(args: Seq<BindingArg>) -> Seq<char> {
    if args.len() == 0 {
        "  (none)\n"@
    } else {
        concat_seq(args.map_values(|a: BindingArg| docstring_arg_line(a)))
    }
}

/// The docstring before quoting: help, the arguments, and what is returned.
pub open spec fn docstring_raw(f: BindingFunction) -> Seq<char> {
    f.help@ + "\n\nArgs:\n"@ + docstring_args(f.args@) + "Returns:\n  "@ + f.returns@ + "\n"@
}

/// Whether `s` has three double quotes at position `i`.
pub open spec fn triple_quote_at(s: Seq<char>, i: int) -> bool {
    0 <= i && i + 3 <= s.len() && s[i] == '"' && s[i + 1] == '"' && s[i + 2] == '"'
}

/// `s` from position `i` on, with each run of three double quotes, read from
/// left to right, replaced by three single quotes.
pub open spec fn quote_safe_from(s: Seq<char>, i: int) -> Seq<char>
    decreases s.len() - i,
{
    if i < 0 || i >= s.len() {
        Seq::empty()
    } else if triple_quote_at(s, i) {
        "'''"@ + quote_safe_from(s, i + 3)
    } else {
        seq![s[i]] + quote_safe_from(s, i + 1)
    }
}

/// The Python docstring of a binding: the raw docstring, made safe to stand
/// between triple double quotes.
pub open spec fn python_docstring_of(f: BindingFunction) -> Seq<char> {
    quote_safe_from(docstring_raw(f), 0)
}

/// Whether three double quotes stand together somewhere in `t`.
pub open spec fn has_triple_quote(t: Seq<char>) -> bool {
    exists|j: int| triple_quote_at(t, j)
}

/// The quoted text has no three double quotes together, and it begins with a
/// double quote (or two) only where the source does.
proof fn lemma_quote_safe_from(s: Seq<char>, i: int)
    requires
        0 <= i <= s.len(),
    ensures
        !has_triple_quote(quote_safe_from(s, i)),
        quote_safe_from(s, i).len() > 0 && quote_safe_from(s, i)[0] == '"' ==> i < s.len() && s[i] == '"',
        quote_safe_from(s, i).len() > 1 && quote_safe_from(s, i)[0] == '"' && quote_safe_from(s, i)[1] == '"'
            ==> i + 1 < s.len() && s[i + 1] == '"',
    decreases s.len() - i,
{
    let t = quote_safe_from(s, i);
    if i >= s.len() {
        assert(t.len() == 0);
        return;
    }
    if triple_quote_at(s, i) {
        lemma_quote_safe_from(s, i + 3);
        let r = quote_safe_from(s, i + 3);
        reveal_strlit("'''");
        assert(t == "'''"@ + r);
        assert forall|j: int| !triple_quote_at(t, j) by {
            if triple_quote_at(t, j) {
                if j >= 3 {
                    assert(triple_quote_at(r, j - 3));
                } else {
                    assert(t[j] == '\'' || t[j + 1] == '\'' || t[j + 2] == '\'');
                }
            }
        }
    } else {
        lemma_quote_safe_from(s, i + 1);
        let r = quote_safe_from(s, i + 1);
        assert(t == seq![s[i]] + r);
        assert forall|j: int| !triple_quote_at(t, j) by {
            if triple_quote_at(t, j) {
                if j >= 1 {
                    assert(triple_quote_at(r, j - 1));
                } else {
                    assert(r[0] == '"' && r[1] == '"');
                    assert(triple_quote_at(s, i));
                }
            }
        }
    }
}

/// A docstring never holds three double quotes together, so it cannot end the
/// triple-quoted string it is written into.
pub proof fn docstring_is_quote_safe(f: BindingFunction)
    ensures
        !has_triple_quote(python_docstring_of(f)),
{
    lemma_quote_safe_from(docstring_raw(f), 0);
}

fn quote_safe(s: &str) -> (res: String)
    ensures
        res@ == quote_safe_from(s@, 0),
{
    let cs = chars_of(s);
    let n = cs.len();
    let mut out = String::new();
    let mut i: usize = 0;
    while i < n
        invariant
            cs@ == s@,
            n == s@.len(),
            i <= n,
            out@ + quote_safe_from(s@, i as int) == quote_safe_from(s@, 0),
        decreases n - i,
    {
        let ghost old_out = out@;
        if n - i >= 3 && cs[i] == '"' && cs[i + 1] == '"' && cs[i + 2] == '"' {
            push_char(&mut out, '\'');
            push_char(&mut out, '\'');
            push_char(&mut out, '\'');
            proof {
                reveal_strlit("'''");
                assert(triple_quote_at(s@, i as int));
                assert(out@ =~= old_out + "'''"@);
                assert(out@ + quote_safe_from(s@, i + 3) =~= old_out + quote_safe_from(s@, i as int));
            }
            i = i + 3;
        } else {
            push_char(&mut out, cs[i]);
            proof {
                assert(!triple_quote_at(s@, i as int));
                assert(out@ + quote_safe_from(s@, i + 1) =~= old_out + quote_safe_from(s@, i as int));
            }
            i = i + 1;
        }
    }
    assert(quote_safe_from(s@, i as int) =~= Seq::<char>::empty());
    assert(out@ + Seq::<char>::empty() =~= out@);
    out
}

/// Renders the docstring of a generated Python function.
pub fn render_python_docstring(f: &BindingFunction) -> (res: String)
    ensures
        res@ == python_docstring_of(*f),
{
    let mut s = String::new();
    push_str(&mut s, f.help.as_str());
    push_str(&mut s, "\n\nArgs:\n");
    if f.args.len() == 0 {
        push_str(&mut s, "  (none)\n");
    } else {
        let ghost start = s@;
        let mut i: usize = 0;
        while i < f.args.len()
            invariant
                i <= f.args@.len(),
                s@ == start + concat_seq(f.args@.subrange(0, i as int).map_values(|a: BindingArg| docstring_arg_line(a))),
            decreases f.args.len() - i,
        {
            let a = &f.args[i];
            push_str(&mut s, "  ");
            let name = snake_case(a.name.as_str());
            push_str(&mut s, name.as_str());
            push_str(&mut s, ": ");
            push_str(&mut s, a.description.as_str());
            push_str(&mut s, "\n");
            proof {
                let lines = f.args@.subrange(0, i + 1).map_values(|a: BindingArg| docstring_arg_line(a));
                assert(lines.drop_last() =~= f.args@.subrange(0, i as int).map_values(|a: BindingArg| docstring_arg_line(a)));
                assert(s@ =~= start + concat_seq(lines));
            }
            i = i + 1;
        }
        assert(f.args@.subrange(0, f.args@.len() as int) =~= f.args@);
    }
    push_str(&mut s, "Returns:\n  ");
    push_str(&mut s, f.returns.as_str());
    push_str(&mut s, "\n");
    assert(s@ =~= docstring_raw(*f));
    quote_safe(s.as_str())
}

// ---------------------------------------------------------------------------
// Excel help text
// ---------------------------------------------------------------------------

/// `- name: description` for one argument, with its Excel name and the
/// description trimmed.
pub open spec fn excel_help_arg(op: Seq<char>, a: BindingArg) -> Seq<char> {
    "- "@ + excel_param_of(op, a.name@) + ": "@ + trim_seq(a.description@)
}

/// The example an Excel help block shows: the xlOil one, or the PyXLL one when
/// there is no xlOil example.
pub open spec fn excel_example_of(f: BindingFunction) -> Seq<char> {
    if f.xloil_example@.len() == 0 { f.pyxll_example@ } else { f.xloil_example@ }
}

/// The lines of an Excel help block: the help, the arguments (when there are
/// any, under `Arguments:`), what is returned and an example.
pub open spec fn excel_help_lines(f: BindingFunction) -> Seq<Seq<char>> {
    let args = if f.args@.len() == 0 {
        Seq::empty()
    } else {
        seq!["Arguments:"@] + f.args@.map_values(|a: BindingArg| excel_help_arg(f.op@, a))
    };
    seq![f.help@] + args + seq!["Returns: "@ + f.returns@, "Example: "@ + excel_example_of(f)]
}

/// The one-line Excel help of a binding: its lines joined by ` | `.
pub open spec fn excel_help_block_of(f: BindingFunction) -> Seq<char> {
    join_seq(excel_help_lines(f), " | "@)
}

/// Renders the Excel help text of a binding.
pub fn render_excel_help_block(f: &BindingFunction) -> (res: String)
    ensures
        res@ == excel_help_block_of(*f),
{
    let mut lines: Vec<String> = Vec::new();
    lines.push(f.help.clone());
    proof {
        assert(views(lines@) =~= seq![f.help@]);
    }
    if f.args.len() > 0 {
        lines.push(String::from_str("Arguments:"));
        let ghost head = views(lines@);
        let mut i: usize = 0;
        while i < f.args.len()
            invariant
                i <= f.args@.len(),
                head == seq![f.help@, "Arguments:"@],
                views(lines@) == head + f.args@.subrange(0, i as int).map_values(|a: BindingArg| excel_help_arg(f.op@, a)),
            decreases f.args.len() - i,
        {
            let a = &f.args[i];
            let mut line = String::from_str("- ");
            let name = excel_param_name(f, a);
            push_str(&mut line, name.as_str());
            push_str(&mut line, ": ");
            push_str(&mut line, trim_str(a.description.as_str()));
            let ghost old_map = f.args@.subrange(0, i as int).map_values(|a: BindingArg| excel_help_arg(f.op@, a));
            lines.push(line);
            proof {
                assert(views(lines@) =~= views(lines@.drop_last()).push(lines@.last()@));
                assert((head + old_map).push(lines@.last()@) =~= head + old_map.push(lines@.last()@));
                assert(f.args@.subrange(0, i + 1).map_values(|a: BindingArg| excel_help_arg(f.op@, a)) =~= f.args@.subrange(
                    0,
                    i as int,
                ).map_values(|a: BindingArg| excel_help_arg(f.op@, a)).push(excel_help_arg(f.op@, f.args@[i as int])));
            }
            i = i + 1;
        }
        assert(f.args@.subrange(0, f.args@.len() as int) =~= f.args@);
    }
    let ghost before = views(lines@);
    let mut ret = String::from_str("Returns: ");
    push_str(&mut ret, f.returns.as_str());
    lines.push(ret);
    let mut ex = String::from_str("Example: ");
    if f.xloil_example.unicode_len() == 0 {
        push_str(&mut ex, f.pyxll_example.as_str());
    } else {
        push_str(&mut ex, f.xloil_example.as_str());
    }
    lines.push(ex);
    proof {
        assert(views(lines@) =~= before + seq!["Returns: "@ + f.returns@, "Example: "@ + excel_example_of(*f)]);
        assert(views(lines@) =~= excel_help_lines(*f));
    }
    join_strings(&lines, " | ")
}

/// One bullet of the Excel signature list: ``- `name`: description`` and a newline.
pub open spec fn excel_bullet(op: Seq<char>, a: BindingArg) -> Seq<char> {
    "- `"@ + excel_param_of(op, a.name@) + "`: "@ + trim_seq(a.description@) + "\n"@
}

/// The Excel signature bullets of an argument list; a placeholder bullet when
/// there are no arguments.
pub open spec fn excel_bullets_of(args: Seq<BindingArg>, op: Seq<char>) -> Seq<char> {
    if args.len() == 0 {
        "- `(no args)`\n"@
    } else {
        concat_seq(args.map_values(|a: BindingArg| excel_bullet(op, a)))
    }
}

/// Renders the Excel signature bullets of a binding's arguments.
pub fn render_binding_arg_bullets_for_excel_signature(args: &[BindingArg], op: &str) -> (res: String)
    ensures
        res@ == excel_bullets_of(args@, op@),
{
    if args.len() == 0 {
        return String::from_str("- `(no args)`\n");
    }
    let mut out = String::new();
    let mut i: usize = 0;
    while i < args.len()
        invariant
            i <= args@.len(),
            out@ == concat_seq(args@.subrange(0, i as int).map_values(|a: BindingArg| excel_bullet(op@, a))),
        decreases args.len() - i,
    {
        let a = &args[i];
        push_str(&mut out, "- `");
        let name = excel_param_name_for_op(op, a.name.as_str());
        push_str(&mut out, name.as_str());
        push_str(&mut out, "`: ");
        push_str(&mut out, trim_str(a.description.as_str()));
        push_str(&mut out, "\n");
        proof {
            let lines = args@.subrange(0, i + 1).map_values(|a: BindingArg| excel_bullet(op@, a));
            assert(lines.drop_last() =~= args@.subrange(0, i as int).map_values(|a: BindingArg| excel_bullet(op@, a)));
            assert(out@ =~= concat_seq(lines));
        }
        i = i + 1;
    }
    assert(args@.subrange(0, args@.len() as int) =~= args@);
    out
}

} // verus!
