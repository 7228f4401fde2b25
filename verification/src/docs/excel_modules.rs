//! The generated Excel add-in modules (xlOil and PyXLL): one worksheet function
//! per manifest function, with Excel-friendly parameter names and help text.
use vstd::prelude::*;
use crate::docs::binding_text::{
    excel_help_block_of, excel_param_name, excel_param_of, render_excel_help_block, BindingArg, BindingFunction,
    BindingManifest,
};
use crate::docs::naming::{snake_case, snake_case_of};
use crate::docs::python_modules::fixed_payload;
use crate::strings::{join_seq, join_strings, push_str, views};
use crate::text::{map_char, replace_char, str_eq};

verus! {

/// The two Excel add-in frameworks.
#[derive(Debug, Clone, Copy, PartialEq, Eq, Structural)]
pub enum ExcelAddin {
    XlOil,
    PyXll,
}

/// The import preamble of an add-in module, with a stand-in decorator when the
/// framework is not installed.
pub open spec fn addin_preamble(k: ExcelAddin) -> Seq<char> {
    match k {
        ExcelAddin::XlOil => "try:\n    import xloil\nexcept Exception:\n    class _X:\n        @staticmethod\n        def func(*args, **kwargs):\n            def _d(f):\n                return f\n            return _d\n    xloil = _X()\n\n"@,
        ExcelAddin::PyXll => "try:\n    from pyxll import xl_func\nexcept Exception:\n    def xl_func(*args, **kwargs):\n        def _d(f):\n            return f\n        return _d\n\n"@,
    }
}

/// The decorator of a worksheet function, up to its name, and between its name and help.
pub open spec fn decorator_head(k: ExcelAddin) -> Seq<char> {
    match k {
        ExcelAddin::XlOil => "@xloil.func(name=\""@,
        ExcelAddin::PyXll => "@xl_func(name=\""@,
    }
}

pub open spec fn decorator_help(k: ExcelAddin) -> Seq<char> {
    match k {
        ExcelAddin::XlOil => "\", help=\""@,
        ExcelAddin::PyXll => "\", doc=\""@,
    }
}

/// How a worksheet function declares an argument: the branch is optional.
pub open spec fn excel_param_decl(f: BindingFunction, a: BindingArg) -> Seq<char> {
    let p = excel_param_of(f.op@, a.name@);
    if a.name@ == "branch"@ { p + "=\"\""@ } else { p }
}

/// How a worksheet function passes an argument on: the branch only when given.
pub open spec fn excel_kwarg(f: BindingFunction, a: BindingArg) -> Seq<char> {
    let p = excel_param_of(f.op@, a.name@);
    if a.name@ == "branch"@ {
        "**({\""@ + a.name@ + "\": "@ + p + "} if "@ + p + " not in (None, \"\") else {})"@
    } else {
        "\""@ + a.name@ + "\": "@ + p
    }
}

/// Whether an operation is a study, which the worksheet asks to spill.
pub open spec fn is_study_op(op: Seq<char>) -> bool {
    op.len() >= 6 && op.subrange(0, 6) == "study."@
}

/// The payload of a worksheet function: its fixed arguments, the spill request
/// of a study, then its declared arguments.
pub open spec fn excel_payload(f: BindingFunction) -> Seq<Seq<char>> {
    f.fixed_args@.map_values(|kv: (String, String)| fixed_payload(kv)) + (if is_study_op(f.op@) {
        seq!["\"output\": \"spill\""@]
    } else {
        Seq::empty()
    }) + f.args@.map_values(|a: BindingArg| excel_kwarg(f, a))
}

/// The help of a worksheet function with its double quotes made single.
pub open spec fn quoted_help(f: BindingFunction) -> Seq<char> {
    map_char(excel_help_block_of(f), '"', '\'')
}

/// One worksheet function of an add-in module.
pub open spec fn excel_block(k: ExcelAddin, f: BindingFunction) -> Seq<char> {
    decorator_head(k) + f.excel_name@ + decorator_help(k) + quoted_help(f) + "\")\ndef "@ + snake_case_of(f.excel_name@)
        + "("@ + join_seq(f.args@.map_values(|a: BindingArg| excel_param_decl(f, a)), ", "@) + "):\n    \"\"\""@
        + quoted_help(f) + "\"\"\"\n    return invoke(\""@ + f.op@ + "\", {"@ + join_seq(excel_payload(f), ", "@)
        + "})\n\n"@
}

/// An add-in module: the preamble, the runtime import, and one worksheet
/// function per manifest function.
pub open spec fn excel_module_text(k: ExcelAddin, fs: Seq<BindingFunction>) -> Seq<char> {
    addin_preamble(k) + "from engpy._runtime import invoke\n\n"@ + crate::strings::concat_seq(
        fs.map_values(|f: BindingFunction| excel_block(k, f)),
    )
}

fn starts_with_study(op: &str) -> (res: bool)
    ensures
        res == is_study_op(op@),
{
    proof {
        reveal_strlit("study.");
    }
    if op.unicode_len() < 6 {
        return false;
    }
    let mut i: usize = 0;
    while i < 6
        invariant
            op@.len() >= 6,
            i <= 6,
            forall|j: int| 0 <= j < i ==> op@[j] == "study."@[j],
        decreases 6 - i,
    {
        let expected = if i == 0 { 's' } else if i == 1 { 't' } else if i == 2 { 'u' } else if i == 3 { 'd' } else if i == 4 {
            'y'
        } else {
            '.'
        };
        proof {
            reveal_strlit("study.");
        }
        if op.get_char(i) != expected {
            assert(op@.subrange(0, 6)[i as int] != "study."@[i as int]);
            return false;
        }
        i = i + 1;
    }
    proof {
        reveal_strlit("study.");
    }
    assert(op@.subrange(0, 6) =~= "study."@);
    true
}

fn render_excel_params(f: &BindingFunction) -> (res: String)
    ensures
        res@ == join_seq(f.args@.map_values(|a: BindingArg| excel_param_decl(*f, a)), ", "@),
{
    let mut parts: Vec<String> = Vec::new();
    let mut i: usize = 0;
    while i < f.args.len()
        invariant
            i <= f.args@.len(),
            views(parts@) == f.args@.subrange(0, i as int).map_values(|a: BindingArg| excel_param_decl(*f, a)),
        decreases f.args.len() - i,
    {
        let a = &f.args[i];
        let mut p = excel_param_name(f, a);
        if str_eq(a.name.as_str(), "branch") {
            push_str(&mut p, "=\"\"");
        }
        parts.push(p);
        proof {
            assert(views(parts@) =~= views(parts@.drop_last()).push(excel_param_decl(*f, *a)));
            assert(f.args@.subrange(0, i + 1).map_values(|a: BindingArg| excel_param_decl(*f, a)) =~= f.args@.subrange(
                0,
                i as int,
            ).map_values(|a: BindingArg| excel_param_decl(*f, a)).push(excel_param_decl(*f, f.args@[i as int])));
        }
        i = i + 1;
    }
    assert(f.args@.subrange(0, f.args@.len() as int) =~= f.args@);
    join_strings(&parts, ", ")
}

fn render_excel_payload(f: &BindingFunction) -> (res: String)
    ensures
        res@ == join_seq(excel_payload(*f), ", "@),
{
    let mut parts: Vec<String> = Vec::new();
    let mut i: usize = 0;
    while i < f.fixed_args.len()
        invariant
            i <= f.fixed_args@.len(),
            views(parts@) == f.fixed_args@.subrange(0, i as int).map_values(|kv: (String, String)| fixed_payload(kv)),
        decreases f.fixed_args.len() - i,
    {
        let kv = &f.fixed_args[i];
        let mut s = String::from_str("\"");
        push_str(&mut s, kv.0.as_str());
        push_str(&mut s, "\": \"");
        push_str(&mut s, kv.1.as_str());
        push_str(&mut s, "\"");
        parts.push(s);
        proof {
            assert(views(parts@) =~= views(parts@.drop_last()).push(fixed_payload(*kv)));
            assert(f.fixed_args@.subrange(0, i + 1).map_values(|kv: (String, String)| fixed_payload(kv))
                =~= f.fixed_args@.subrange(0, i as int).map_values(|kv: (String, String)| fixed_payload(kv)).push(
                fixed_payload(f.fixed_args@[i as int]),
            ));
        }
        i = i + 1;
    }
    assert(f.fixed_args@.subrange(0, f.fixed_args@.len() as int) =~= f.fixed_args@);
    if starts_with_study(f.op.as_str()) {
        parts.push(String::from_str("\"output\": \"spill\""));
        proof {
            assert(views(parts@) =~= views(parts@.drop_last()).push("\"output\": \"spill\""@));
        }
    }
    let ghost head = views(parts@);
    assert(head =~= f.fixed_args@.map_values(|kv: (String, String)| fixed_payload(kv)) + (if is_study_op(f.op@) {
        seq!["\"output\": \"spill\""@]
    } else {
        Seq::empty()
    }));
    let mut j: usize = 0;
    while j < f.args.len()
        invariant
            j <= f.args@.len(),
            views(parts@) == head + f.args@.subrange(0, j as int).map_values(|a: BindingArg| excel_kwarg(*f, a)),
        decreases f.args.len() - j,
    {
        let a = &f.args[j];
        let p = excel_param_name(f, a);
        let s = if str_eq(a.name.as_str(), "branch") {
            let mut s = String::from_str("**({\"");
            push_str(&mut s, a.name.as_str());
            push_str(&mut s, "\": ");
            push_str(&mut s, p.as_str());
            push_str(&mut s, "} if ");
            push_str(&mut s, p.as_str());
            push_str(&mut s, " not in (None, \"\") else {})");
            s
        } else {
            let mut s = String::from_str("\"");
            push_str(&mut s, a.name.as_str());
            push_str(&mut s, "\": ");
            push_str(&mut s, p.as_str());
            s
        };
        let ghost prev = f.args@.subrange(0, j as int).map_values(|a: BindingArg| excel_kwarg(*f, a));
        parts.push(s);
        proof {
            assert(views(parts@) =~= views(parts@.drop_last()).push(excel_kwarg(*f, *a)));
            assert(f.args@.subrange(0, j + 1).map_values(|a: BindingArg| excel_kwarg(*f, a)) =~= prev.push(
                excel_kwarg(*f, f.args@[j as int]),
            ));
            assert((head + prev).push(excel_kwarg(*f, *a)) =~= head + prev.push(excel_kwarg(*f, *a)));
        }
        j = j + 1;
    }
    assert(f.args@.subrange(0, f.args@.len() as int) =~= f.args@);
    assert(views(parts@) =~= excel_payload(*f));
    join_strings(&parts, ", ")
}

fn render_excel_block(k: ExcelAddin, f: &BindingFunction) -> (res: String)
    ensures
        res@ == excel_block(k, *f),
{
    let help_raw = render_excel_help_block(f);
    let help = replace_char(help_raw.as_str(), '"', '\'');
    let mut s = match k {
        ExcelAddin::XlOil => String::from_str("@xloil.func(name=\""),
        ExcelAddin::PyXll => String::from_str("@xl_func(name=\""),
    };
    push_str(&mut s, f.excel_name.as_str());
    match k {
        ExcelAddin::XlOil => push_str(&mut s, "\", help=\""),
        ExcelAddin::PyXll => push_str(&mut s, "\", doc=\""),
    }
    push_str(&mut s, help.as_str());
    push_str(&mut s, "\")\ndef ");
    let name = snake_case(f.excel_name.as_str());
    push_str(&mut s, name.as_str());
    push_str(&mut s, "(");
    let params = render_excel_params(f);
    push_str(&mut s, params.as_str());
    push_str(&mut s, "):\n    \"\"\"");
    push_str(&mut s, help.as_str());
    push_str(&mut s, "\"\"\"\n    return invoke(\"");
    push_str(&mut s, f.op.as_str());
    push_str(&mut s, "\", {");
    let payload = render_excel_payload(f);
    push_str(&mut s, payload.as_str());
    push_str(&mut s, "})\n\n");
    s
}

/// Renders an Excel add-in module from the manifest.
pub fn render_excel_module(manifest: &BindingManifest, k: ExcelAddin) -> (res: String)
    ensures
        res@ == excel_module_text(k, manifest.functions@),
{
    let fs = &manifest.functions;
    let mut out = match k {
        ExcelAddin::XlOil => String::from_str(
            "try:\n    import xloil\nexcept Exception:\n    class _X:\n        @staticmethod\n        def func(*args, **kwargs):\n            def _d(f):\n                return f\n            return _d\n    xloil = _X()\n\n",
        ),
        ExcelAddin::PyXll => String::from_str(
            "try:\n    from pyxll import xl_func\nexcept Exception:\n    def xl_func(*args, **kwargs):\n        def _d(f):\n            return f\n        return _d\n\n",
        ),
    };
    push_str(&mut out, "from engpy._runtime import invoke\n\n");
    let ghost head = out@;
    let mut i: usize = 0;
    while i < fs.len()
        invariant
            i <= fs@.len(),
            head == addin_preamble(k) + "from engpy._runtime import invoke\n\n"@,
            out@ == head + crate::strings::concat_seq(
                fs@.subrange(0, i as int).map_values(|f: BindingFunction| excel_block(k, f)),
            ),
        decreases fs.len() - i,
    {
        let b = render_excel_block(k, &fs[i]);
        push_str(&mut out, b.as_str());
        proof {
            let t = fs@.subrange(0, i + 1).map_values(|f: BindingFunction| excel_block(k, f));
            assert(t.drop_last() =~= fs@.subrange(0, i as int).map_values(|f: BindingFunction| excel_block(k, f)));
        }
        i = i + 1;
    }
    assert(fs@.subrange(0, fs@.len() as int) =~= fs@);
    out
}

/// The xlOil add-in module.
pub fn render_xloil_module(manifest: &BindingManifest) -> (res: String)
    ensures
        res@ == excel_module_text(ExcelAddin::XlOil, manifest.functions@),
{
    render_excel_module(manifest, ExcelAddin::XlOil)
}

/// The PyXLL add-in module.
pub fn render_pyxll_module(manifest: &BindingManifest) -> (res: String)
    ensures
        res@ == excel_module_text(ExcelAddin::PyXll, manifest.functions@),
{
    render_excel_module(manifest, ExcelAddin::PyXll)
}

} // verus!
