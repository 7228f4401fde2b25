//! The generated Python binding modules: one `def` per manifest function of the
//! module, each forwarding its arguments to the invoke runtime.
use vstd::prelude::*;
use crate::docs::binding_text::{python_docstring_of, render_python_docstring, BindingArg, BindingFunction, BindingManifest};
use crate::docs::naming::{snake_case, snake_case_of};
use crate::strings::{concat_parts, concat_seq, join_seq, join_strings, push_str, str_views, views};
use crate::text::str_eq;

verus! {

/// The Python binding modules that are generated from the manifest.
#[derive(Debug, Clone, Copy, PartialEq, Eq, Structural)]
pub enum PythonModule {
    Constants,
    Devices,
    Fluids,
    Materials,
    Helpers,
    Study,
}

/// The manifest's name of a module.
pub open spec fn module_name(m: PythonModule) -> Seq<char> {
    match m {
        PythonModule::Constants => "constants"@,
        PythonModule::Devices => "devices"@,
        PythonModule::Fluids => "fluids"@,
        PythonModule::Materials => "materials"@,
        PythonModule::Helpers => "helpers"@,
        PythonModule::Study => "study"@,
    }
}

impl PythonModule {
    /// The manifest's name of the module.
    pub fn name(&self) -> (res: &'static str)
        ensures
            res@ == module_name(*self),
    {
        match self {
            PythonModule::Constants => "constants",
            PythonModule::Devices => "devices",
            PythonModule::Fluids => "fluids",
            PythonModule::Materials => "materials",
            PythonModule::Helpers => "helpers",
            PythonModule::Study => "study",
        }
    }
}

/// `"key": "value"` for one fixed argument.
pub open spec fn fixed_payload(kv: (String, String)) -> Seq<char> {
    "\""@ + kv.0@ + "\": \""@ + kv.1@ + "\""@
}

pub open spec fn is_branch(a: BindingArg) -> bool {
    a.name@ == "branch"@
}

/// How a module declares an argument: helpers take it plainly, studies make
/// every argument optional, devices make only the branch optional.
pub open spec fn arg_param(m: PythonModule, a: BindingArg) -> Seq<char> {
    let p = snake_case_of(a.name@);
    match m {
        PythonModule::Study => p + "=None"@,
        PythonModule::Devices => if is_branch(a) { p + "=None"@ } else { p },
        _ => p,
    }
}

/// How a module passes an argument on: plainly, or only when it was given.
pub open spec fn arg_payload(m: PythonModule, a: BindingArg) -> Seq<char> {
    let p = snake_case_of(a.name@);
    let plain = "\""@ + a.name@ + "\": "@ + p;
    match m {
        PythonModule::Study => "**({\""@ + a.name@ + "\": "@ + p + "} if "@ + p + " is not None else {})"@,
        PythonModule::Devices => if is_branch(a) {
            "**({\""@ + a.name@ + "\": "@ + p + "} if "@ + p + " not in (None, \"\") else {})"@
        } else {
            plain
        },
        _ => plain,
    }
}

/// A forwarding `def` with the function's own parameters: the fixed arguments
/// are always passed, the declared ones as the module passes them.
pub open spec fn forwarding_block(m: PythonModule, f: BindingFunction) -> Seq<char> {
    let params = join_seq(f.args@.map_values(|a: BindingArg| arg_param(m, a)), ", "@);
    let payload = join_seq(
        f.fixed_args@.map_values(|kv: (String, String)| fixed_payload(kv)) + f.args@.map_values(
            |a: BindingArg| arg_payload(m, a),
        ),
        ", "@,
    );
    "def "@ + f.python_name@ + "("@ + params + "):\n    \"\"\""@ + python_docstring_of(f) + "\"\"\"\n    return invoke(\""@
        + f.op@ + "\", {"@ + payload + "})\n\n"@
}

/// The hand-written head of the pipe-loss binding, up to its operation name.
pub const PIPE_LOSS_HEAD: [&'static str; 4] = [
    "def pipe_loss_solve_delta_p(friction_model=\"Colebrook\", fixed_f=None, rho=None, mu=None, v=None, d=None, l=None, eps=None, fluid=None, in1_key=None, in1_value=None, in2_key=None, in2_value=None):\n",
    "    \"\"\"Solve pipe pressure drop using composed Reynolds/Colebrook/Darcy behavior.\n\nArgs:\n  friction_model: 'Colebrook' or 'Fixed'\n  fixed_f: fixed Darcy friction factor (required when friction_model='Fixed')\n  rho, mu, v, d, l, eps: direct inputs\n  fluid, in1_key, in1_value, in2_key, in2_value: optional fluid-state context inputs\nReturns:\n  dict with delta_p, friction_factor, reynolds_number\n\"\"\"\n",
    "    args = {\n",
    "        \"friction_model\": friction_model,\n        \"fixed_f\": fixed_f,\n        \"rho\": rho,\n        \"mu\": mu,\n        \"v\": v,\n        \"d\": d,\n        \"l\": l,\n        \"eps\": eps,\n        \"fluid\": fluid,\n        \"in1_key\": in1_key,\n        \"in1_value\": in1_value,\n        \"in2_key\": in2_key,\n        \"in2_value\": in2_value,\n    }\n    return invoke(\"",
];

/// The tail of the pipe-loss binding, after its operation name.
pub const PIPE_LOSS_TAIL: &'static str = "\", {k: v for k, v in args.items() if v is not None})\n\n";

pub open spec fn is_pipe_loss(f: BindingFunction) -> bool {
    f.python_name@ == "pipe_loss_solve_delta_p"@
}

/// The block a module emits for one of its functions.
pub open spec fn python_block(m: PythonModule, f: BindingFunction) -> Seq<char> {
    let doc = python_docstring_of(f);
    match m {
        PythonModule::Constants => "def "@ + f.python_name@ + "(key):\n    \"\"\""@ + doc + "\"\"\"\n    return invoke(\""@
            + f.op@ + "\", {\"key\": key})\n\n"@,
        PythonModule::Fluids => "def "@ + f.python_name@ + "(fluid, in1_key, in1_value, in2_key, in2_value, out_prop):\n"@
            + "    \"\"\""@ + doc + "\"\"\"\n    return invoke(\""@ + f.op@
            + "\", {\"fluid\": fluid, \"in1_key\": in1_key, \"in1_value\": in1_value, \"in2_key\": in2_key, \"in2_value\": in2_value, \"out_prop\": out_prop})\n\n"@,
        PythonModule::Materials => "def "@ + f.python_name@ + "(material, property, temperature):\n"@ + "    \"\"\""@ + doc
            + "\"\"\"\n    return invoke(\""@ + f.op@
            + "\", {\"material\": material, \"property\": property, \"temperature\": temperature})\n\n"@,
        PythonModule::Devices => if is_pipe_loss(f) {
            concat_seq(str_views(PIPE_LOSS_HEAD@)) + f.op@ + PIPE_LOSS_TAIL@
        } else {
            forwarding_block(m, f)
        },
        _ => forwarding_block(m, f),
    }
}

/// The blocks of the functions that belong to module `m`, in manifest order.
pub open spec fn module_blocks(fs: Seq<BindingFunction>, m: PythonModule) -> Seq<char>
    decreases fs.len(),
{
    if fs.len() == 0 {
        Seq::empty()
    } else {
        module_blocks(fs.drop_last(), m) + if fs.last().python_module@ == module_name(m) {
            python_block(m, fs.last())
        } else {
            Seq::empty()
        }
    }
}

/// A generated module: the runtime import, then one block per function of the module.
pub open spec fn python_module_text(fs: Seq<BindingFunction>, m: PythonModule) -> Seq<char> {
    "from ._runtime import invoke\n\n"@ + module_blocks(fs, m)
}

fn render_params(m: PythonModule, args: &Vec<BindingArg>) -> (res: String)
    ensures
        res@ == join_seq(args@.map_values(|a: BindingArg| arg_param(m, a)), ", "@),
{
    let mut parts: Vec<String> = Vec::new();
    let mut i: usize = 0;
    while i < args.len()
        invariant
            i <= args@.len(),
            views(parts@) == args@.subrange(0, i as int).map_values(|a: BindingArg| arg_param(m, a)),
        decreases args.len() - i,
    {
        let a = &args[i];
        let mut p = snake_case(a.name.as_str());
        let optional = match m {
            PythonModule::Study => true,
            PythonModule::Devices => str_eq(a.name.as_str(), "branch"),
            _ => false,
        };
        if optional {
            push_str(&mut p, "=None");
        }
        parts.push(p);
        proof {
            assert(views(parts@) =~= views(parts@.drop_last()).push(arg_param(m, *a)));
            assert(args@.subrange(0, i + 1).map_values(|a: BindingArg| arg_param(m, a)) =~= args@.subrange(
                0,
                i as int,
            ).map_values(|a: BindingArg| arg_param(m, a)).push(arg_param(m, args@[i as int])));
        }
        i = i + 1;
    }
    assert(args@.subrange(0, args@.len() as int) =~= args@);
    join_strings(&parts, ", ")
}

fn payload_of(m: PythonModule, a: &BindingArg) -> (res: String)
    ensures
        res@ == arg_payload(m, *a),
{
    let p = snake_case(a.name.as_str());
    let guarded = match m {
        PythonModule::Study => Some(" is not None else {})"),
        PythonModule::Devices => if str_eq(a.name.as_str(), "branch") {
            Some(" not in (None, \"\") else {})")
        } else {
            None
        },
        _ => None,
    };
    match guarded {
        Some(tail) => {
            let mut s = String::from_str("**({\"");
            push_str(&mut s, a.name.as_str());
            push_str(&mut s, "\": ");
            push_str(&mut s, p.as_str());
            push_str(&mut s, "} if ");
            push_str(&mut s, p.as_str());
            push_str(&mut s, tail);
            s
        },
        None => {
            let mut s = String::from_str("\"");
            push_str(&mut s, a.name.as_str());
            push_str(&mut s, "\": ");
            push_str(&mut s, p.as_str());
            s
        },
    }
}

fn render_payload(m: PythonModule, f: &BindingFunction) -> (res: String)
    ensures
        res@ == join_seq(
            f.fixed_args@.map_values(|kv: (String, String)| fixed_payload(kv)) + f.args@.map_values(
                |a: BindingArg| arg_payload(m, a),
            ),
            ", "@,
        ),
{
    let mut parts: Vec<String> = Vec::new();
    let mut i: usize = 0;
    while i < f.fixed_args.len()
        invariant
            i <= f.fixed_args@.len(),
            views(parts@) == f.fixed_args@.subrange(0, i as int).map_values(|kv: (String, String)| fixed_payload(kv)),
        decreases f.fixed_args.len() - i,
    {
        let kv = &f.fixed_args[i];
        let mut s = String::from_str("\"");
        push_str(&mut s, kv.0.as_str());
        push_str(&mut s, "\": \"");
        push_str(&mut s, kv.1.as_str());
        push_str(&mut s, "\"");
        parts.push(s);
        proof {
            assert(views(parts@) =~= views(parts@.drop_last()).push(fixed_payload(*kv)));
            assert(f.fixed_args@.subrange(0, i + 1).map_values(|kv: (String, String)| fixed_payload(kv))
                =~= f.fixed_args@.subrange(0, i as int).map_values(|kv: (String, String)| fixed_payload(kv)).push(
                fixed_payload(f.fixed_args@[i as int]),
            ));
        }
        i = i + 1;
    }
    assert(f.fixed_args@.subrange(0, f.fixed_args@.len() as int) =~= f.fixed_args@);
    let ghost fixed = views(parts@);
    let mut j: usize = 0;
    while j < f.args.len()
        invariant
            j <= f.args@.len(),
            fixed == f.fixed_args@.map_values(|kv: (String, String)| fixed_payload(kv)),
            views(parts@) == fixed + f.args@.subrange(0, j as int).map_values(|a: BindingArg| arg_payload(m, a)),
        decreases f.args.len() - j,
    {
        let a = &f.args[j];
        let s = payload_of(m, a);
        let ghost prev = f.args@.subrange(0, j as int).map_values(|a: BindingArg| arg_payload(m, a));
        parts.push(s);
        proof {
            assert(views(parts@) =~= views(parts@.drop_last()).push(arg_payload(m, *a)));
            assert(f.args@.subrange(0, j + 1).map_values(|a: BindingArg| arg_payload(m, a)) =~= prev.push(
                arg_payload(m, f.args@[j as int]),
            ));
            assert((fixed + prev).push(arg_payload(m, *a)) =~= fixed + prev.push(arg_payload(m, *a)));
        }
        j = j + 1;
    }
    assert(f.args@.subrange(0, f.args@.len() as int) =~= f.args@);
    join_strings(&parts, ", ")
}

fn render_block(m: PythonModule, f: &BindingFunction) -> (res: String)
    ensures
        res@ == python_block(m, *f),
{
    match m {
        PythonModule::Constants => {
            let mut s = String::from_str("def ");
            push_str(&mut s, f.python_name.as_str());
            push_str(&mut s, "(key):\n    \"\"\"");
            let doc = render_python_docstring(f);
            push_str(&mut s, doc.as_str());
            push_str(&mut s, "\"\"\"\n    return invoke(\"");
            push_str(&mut s, f.op.as_str());
            push_str(&mut s, "\", {\"key\": key})\n\n");
            s
        },
        PythonModule::Fluids => {
            let mut s = String::from_str("def ");
            push_str(&mut s, f.python_name.as_str());
            push_str(&mut s, "(fluid, in1_key, in1_value, in2_key, in2_value, out_prop):\n");
            push_str(&mut s, "    \"\"\"");
            let doc = render_python_docstring(f);
            push_str(&mut s, doc.as_str());
            push_str(&mut s, "\"\"\"\n    return invoke(\"");
            push_str(&mut s, f.op.as_str());
            push_str(
                &mut s,
                "\", {\"fluid\": fluid, \"in1_key\": in1_key, \"in1_value\": in1_value, \"in2_key\": in2_key, \"in2_value\": in2_value, \"out_prop\": out_prop})\n\n",
            );
            s
        },
        PythonModule::Materials => {
            let mut s = String::from_str("def ");
            push_str(&mut s, f.python_name.as_str());
            push_str(&mut s, "(material, property, temperature):\n");
            push_str(&mut s, "    \"\"\"");
            let doc = render_python_docstring(f);
            push_str(&mut s, doc.as_str());
            push_str(&mut s, "\"\"\"\n    return invoke(\"");
            push_str(&mut s, f.op.as_str());
            push_str(&mut s, "\", {\"material\": material, \"property\": property, \"temperature\": temperature})\n\n");
            s
        },
        _ => {
            if m == PythonModule::Devices && str_eq(f.python_name.as_str(), "pipe_loss_solve_delta_p") {
                let mut s = concat_parts(PIPE_LOSS_HEAD.as_slice());
                push_str(&mut s, f.op.as_str());
                push_str(&mut s, PIPE_LOSS_TAIL);
                return s;
            }
            let mut s = String::from_str("def ");
            push_str(&mut s, f.python_name.as_str());
            push_str(&mut s, "(");
            let params = render_params(m, &f.args);
            push_str(&mut s, params.as_str());
            push_str(&mut s, "):\n    \"\"\"");
            let doc = render_python_docstring(f);
            push_str(&mut s, doc.as_str());
            push_str(&mut s, "\"\"\"\n    return invoke(\"");
            push_str(&mut s, f.op.as_str());
            push_str(&mut s, "\", {");
            let payload = render_payload(m, f);
            push_str(&mut s, payload.as_str());
            push_str(&mut s, "})\n\n");
            s
        },
    }
}

/// Renders a generated Python module from the manifest.
pub fn render_python_module(manifest: &BindingManifest, m: PythonModule) -> (res: String)
    ensures
        res@ == python_module_text(manifest.functions@, m),
{
    let fs = &manifest.functions;
    let mut out = String::from_str("from ._runtime import invoke\n\n");
    let ghost head = out@;
    let mut i: usize = 0;
    while i < fs.len()
        invariant
            i <= fs@.len(),
            head == "from ._runtime import invoke\n\n"@,
            out@ == head + module_blocks(fs@.subrange(0, i as int), m),
        decreases fs.len() - i,
    {
        let f = &fs[i];
        assert(fs@.subrange(0, i + 1).drop_last() =~= fs@.subrange(0, i as int));
        if str_eq(f.python_module.as_str(), m.name()) {
            let b = render_block(m, f);
            push_str(&mut out, b.as_str());
        }
        i = i + 1;
    }
    assert(fs@.subrange(0, fs@.len() as int) =~= fs@);
    out
}

/// The `constants` module: one lookup by key per constant binding.
pub fn render_python_constants_module(manifest: &BindingManifest) -> (res: String)
    ensures
        res@ == python_module_text(manifest.functions@, PythonModule::Constants),
{
    render_python_module(manifest, PythonModule::Constants)
}

/// The `devices` module.
pub fn render_python_devices_module(manifest: &BindingManifest) -> (res: String)
    ensures
        res@ == python_module_text(manifest.functions@, PythonModule::Devices),
{
    render_python_module(manifest, PythonModule::Devices)
}

/// The `fluids` module.
pub fn render_python_fluids_module(manifest: &BindingManifest) -> (res: String)
    ensures
        res@ == python_module_text(manifest.functions@, PythonModule::Fluids),
{
    render_python_module(manifest, PythonModule::Fluids)
}

/// The `materials` module.
pub fn render_python_materials_module(manifest: &BindingManifest) -> (res: String)
    ensures
        res@ == python_module_text(manifest.functions@, PythonModule::Materials),
{
    render_python_module(manifest, PythonModule::Materials)
}

/// The `helpers` module.
pub fn render_python_helpers_module(manifest: &BindingManifest) -> (res: String)
    ensures
        res@ == python_module_text(manifest.functions@, PythonModule::Helpers),
{
    render_python_module(manifest, PythonModule::Helpers)
}

/// The `study` module.
pub fn render_python_study_module(manifest: &BindingManifest) -> (res: String)
    ensures
        res@ == python_module_text(manifest.functions@, PythonModule::Study),
{
    render_python_module(manifest, PythonModule::Study)
}

/// The package `__init__.py`: imports the modules and names where it was generated from.
pub open spec fn package_init_text(m: BindingManifest) -> Seq<char> {
    "from . import constants, devices, fluids, materials, helpers, study\nfrom .equations import *\n\n__all__ = [\"constants\", \"devices\", \"fluids\", \"materials\", \"helpers\", \"study\", \"equations\"]\n# Generated from "@
        + m.generated_from@ + "\n"@
}

/// Renders the package `__init__.py`.
pub fn render_python_package_init(manifest: &BindingManifest) -> (res: String)
    ensures
        res@ == package_init_text(*manifest),
{
    let mut s = String::from_str(
        "from . import constants, devices, fluids, materials, helpers, study\nfrom .equations import *\n\n__all__ = [\"constants\", \"devices\", \"fluids\", \"materials\", \"helpers\", \"study\", \"equations\"]\n# Generated from ",
    );
    push_str(&mut s, manifest.generated_from);
    push_str(&mut s, "\n");
    s
}

} // verus!
