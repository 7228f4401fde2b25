//! The `engpy.equations` subpackages: one Python module per equation module of
//! the manifest, and one `__init__.py` per package between them, each importing
//! its children.
use vstd::prelude::*;
use crate::docs::binding_text::{python_docstring_of, render_python_docstring, BindingArg, BindingFunction, BindingManifest};
use crate::docs::naming::snake_case_of;
use crate::docs::naming::{lemma_split_nonempty, snake_case, split_seq, split_text};
use crate::docs::python_modules::fixed_payload;
use crate::strings::{concat_seq, join_seq, join_strings, push_str, views};
use crate::docs::equations_init::is_equation_module;
use crate::docs::ordered_names::{
    insert_sorted, lemma_lex_irreflexive, lemma_lex_transitive, lemma_sorted_names, lex_lt, sorted_names, strictly_sorted,
};
use crate::text::{chars_of, has_prefix, map_char, push_char, replace_char, starts_with, str_eq};

verus! {

// ---------------------------------------------------------------------------
// One module
// ---------------------------------------------------------------------------

/// How an equation binding declares an argument: the branch is optional.
pub open spec fn equation_arg_param(a: BindingArg) -> Seq<char> {
    let p = snake_case_of(a.name@);
    if a.name@ == "branch"@ {
        p + "=None"@
    } else {
        p
    }
}

/// How an equation binding passes an argument on: the branch only when given.
pub open spec fn equation_arg_payload(a: BindingArg) -> Seq<char> {
    let p = snake_case_of(a.name@);
    if a.name@ == "branch"@ {
        "**({\""@ + a.name@ + "\": "@ + p + "} if "@ + p + " is not None else {})"@
    } else {
        "\""@ + a.name@ + "\": "@ + p
    }
}

/// The `def` of one equation binding: its arguments, then its fixed arguments,
/// are passed to the invoke runtime; its docstring has single quotes for double.
pub open spec fn equation_function_block(f: BindingFunction) -> Seq<char> {
    let params = join_seq(f.args@.map_values(|a: BindingArg| equation_arg_param(a)), ", "@);
    let payload = join_seq(
        f.args@.map_values(|a: BindingArg| equation_arg_payload(a)) + f.fixed_args@.map_values(
            |kv: (String, String)| fixed_payload(kv),
        ),
        ", "@,
    );
    "def "@ + f.python_name@ + "("@ + params + "):\n    \"\"\""@ + map_char(python_docstring_of(f), '"', '\'')
        + "\"\"\"\n    return invoke(\""@ + f.op@ + "\", {"@ + payload + "})\n\n"@
}

/// A generated equation module: the runtime import, one `def` per function,
/// and `__all__` naming them in the same order.
pub open spec fn equation_module_text(funcs: Seq<BindingFunction>) -> Seq<char> {
    "from engpy._runtime import invoke\n\n"@ + concat_seq(funcs.map_values(|f: BindingFunction| equation_function_block(f)))
        + "__all__ = [\n"@ + concat_seq(funcs.map_values(|f: BindingFunction| "    \""@ + f.python_name@ + "\",\n"@))
        + "]\n"@
}

fn equation_params(args: &Vec<BindingArg>) -> (res: String)
    ensures
        res@ == join_seq(args@.map_values(|a: BindingArg| equation_arg_param(a)), ", "@),
{
    let mut parts: Vec<String> = Vec::new();
    let mut i: usize = 0;
    while i < args.len()
        invariant
            i <= args@.len(),
            parts@.len() == i,
            forall|k: int| 0 <= k < i ==> (#[trigger] parts@[k])@ == equation_arg_param(args@[k]),
        decreases args.len() - i,
    {
        let a = &args[i];
        let mut p = snake_case(a.name.as_str());
        if str_eq(a.name.as_str(), "branch") {
            push_str(&mut p, "=None");
        }
        parts.push(p);
        i = i + 1;
    }
    assert(views(parts@) =~= args@.map_values(|a: BindingArg| equation_arg_param(a)));
    join_strings(&parts, ", ")
}

fn equation_payload_of(a: &BindingArg) -> (res: String)
    ensures
        res@ == equation_arg_payload(*a),
{
    let p = snake_case(a.name.as_str());
    if str_eq(a.name.as_str(), "branch") {
        let mut s = String::from_str("**({\"");
        push_str(&mut s, a.name.as_str());
        push_str(&mut s, "\": ");
        push_str(&mut s, p.as_str());
        push_str(&mut s, "} if ");
        push_str(&mut s, p.as_str());
        push_str(&mut s, " is not None else {})");
        s
    } else {
        let mut s = String::from_str("\"");
        push_str(&mut s, a.name.as_str());
        push_str(&mut s, "\": ");
        push_str(&mut s, p.as_str());
        s
    }
}

fn equation_payload(f: &BindingFunction) -> (res: String)
    ensures
        res@ == join_seq(
            f.args@.map_values(|a: BindingArg| equation_arg_payload(a)) + f.fixed_args@.map_values(
                |kv: (String, String)| fixed_payload(kv),
            ),
            ", "@,
        ),
{
    let mut parts: Vec<String> = Vec::new();
    let mut i: usize = 0;
    while i < f.args.len()
        invariant
            i <= f.args@.len(),
            parts@.len() == i,
            forall|k: int| 0 <= k < i ==> (#[trigger] parts@[k])@ == equation_arg_payload(f.args@[k]),
        decreases f.args.len() - i,
    {
        let s = equation_payload_of(&f.args[i]);
        parts.push(s);
        i = i + 1;
    }
    let n = f.args.len();
    let mut j: usize = 0;
    while j < f.fixed_args.len()
        invariant
            n == f.args@.len(),
            j <= f.fixed_args@.len(),
            parts@.len() == n + j,
            forall|k: int| 0 <= k < n ==> (#[trigger] parts@[k])@ == equation_arg_payload(f.args@[k]),
            forall|k: int| n <= k < n + j ==> (#[trigger] parts@[k])@ == fixed_payload(f.fixed_args@[k - n]),
        decreases f.fixed_args.len() - j,
    {
        let kv = &f.fixed_args[j];
        let mut s = String::from_str("\"");
        push_str(&mut s, kv.0.as_str());
        push_str(&mut s, "\": \"");
        push_str(&mut s, kv.1.as_str());
        push_str(&mut s, "\"");
        parts.push(s);
        j = j + 1;
    }
    assert(views(parts@) =~= f.args@.map_values(|a: BindingArg| equation_arg_payload(a)) + f.fixed_args@.map_values(
        |kv: (String, String)| fixed_payload(kv),
    ));
    join_strings(&parts, ", ")
}

fn equation_block(f: &BindingFunction) -> (res: String)
    ensures
        res@ == equation_function_block(*f),
{
    let mut s = String::from_str("def ");
    push_str(&mut s, f.python_name.as_str());
    push_str(&mut s, "(");
    let params = equation_params(&f.args);
    push_str(&mut s, params.as_str());
    push_str(&mut s, "):\n    \"\"\"");
    let doc = render_python_docstring(f);
    let doc = replace_char(doc.as_str(), '"', '\'');
    push_str(&mut s, doc.as_str());
    push_str(&mut s, "\"\"\"\n    return invoke(\"");
    push_str(&mut s, f.op.as_str());
    push_str(&mut s, "\", {");
    let payload = equation_payload(f);
    push_str(&mut s, payload.as_str());
    push_str(&mut s, "})\n\n");
    s
}

/// Renders the Python module of one equation module's functions.
pub fn render_equation_module(funcs: &Vec<BindingFunction>) -> (res: String)
    ensures
        res@ == equation_module_text(funcs@),
{
    let mut out = String::from_str("from engpy._runtime import invoke\n\n");
    let ghost head = out@;
    let mut i: usize = 0;
    while i < funcs.len()
        invariant
            i <= funcs@.len(),
            head == "from engpy._runtime import invoke\n\n"@,
            out@ == head + concat_seq(
                funcs@.subrange(0, i as int).map_values(|f: BindingFunction| equation_function_block(f)),
            ),
        decreases funcs.len() - i,
    {
        let b = equation_block(&funcs[i]);
        push_str(&mut out, b.as_str());
        proof {
            let t = funcs@.subrange(0, i + 1).map_values(|f: BindingFunction| equation_function_block(f));
            assert(t.drop_last() =~= funcs@.subrange(0, i as int).map_values(
                |f: BindingFunction| equation_function_block(f),
            ));
        }
        i = i + 1;
    }
    assert(funcs@.subrange(0, funcs@.len() as int) =~= funcs@);
    push_str(&mut out, "__all__ = [\n");
    let ghost body = out@;
    let mut j: usize = 0;
    while j < funcs.len()
        invariant
            j <= funcs@.len(),
            out@ == body + concat_seq(
                funcs@.subrange(0, j as int).map_values(|f: BindingFunction| "    \""@ + f.python_name@ + "\",\n"@),
            ),
        decreases funcs.len() - j,
    {
        push_str(&mut out, "    \"");
        push_str(&mut out, funcs[j].python_name.as_str());
        push_str(&mut out, "\",\n");
        proof {
            let t = funcs@.subrange(0, j + 1).map_values(|f: BindingFunction| "    \""@ + f.python_name@ + "\",\n"@);
            assert(t.drop_last() =~= funcs@.subrange(0, j as int).map_values(
                |f: BindingFunction| "    \""@ + f.python_name@ + "\",\n"@,
            ));
        }
        j = j + 1;
    }
    push_str(&mut out, "]\n");
    out
}

// ---------------------------------------------------------------------------
// Which modules there are
// ---------------------------------------------------------------------------

/// A module's path below the `equations` package: every leading
/// `equations.` taken off.
pub open spec fn relative_module(m: Seq<char>) -> Seq<char>
    decreases m.len(),
{
    if "equations."@.len() > 0 && has_prefix(m, "equations."@) {
        relative_module(m.subrange("equations."@.len() as int, m.len() as int))
    } else {
        m
    }
}

/// The equation modules the functions name.
pub open spec fn equation_modules_of(fs: Seq<BindingFunction>) -> Set<Seq<char>> {
    Set::new(
        |m: Seq<char>|
            exists|i: int| 0 <= i < fs.len() && is_equation_module(fs[i].python_module@) && #[trigger] fs[i].python_module@ == m,
    )
}

/// The relative paths of those modules.
pub open spec fn relative_modules_of(fs: Seq<BindingFunction>) -> Set<Seq<char>> {
    Set::new(|r: Seq<char>| exists|m: Seq<char>| #[trigger] equation_modules_of(fs).contains(m) && relative_module(m) == r)
}

/// `m` is the last module, in name order, with relative path `r`: the one
/// whose functions the generated file of `r` holds.
pub open spec fn is_last_module_for(fs: Seq<BindingFunction>, r: Seq<char>, m: Seq<char>) -> bool {
    &&& equation_modules_of(fs).contains(m)
    &&& relative_module(m) == r
    &&& forall|m2: Seq<char>| #[trigger] equation_modules_of(fs).contains(m2) && relative_module(m2) == r ==> m2 == m
        || lex_lt(m2, m)
}

pub open spec fn last_module_for(fs: Seq<BindingFunction>, r: Seq<char>) -> Seq<char> {
    choose|m: Seq<char>| is_last_module_for(fs, r, m)
}

/// The functions of module `m`, in manifest order.
pub open spec fn functions_in_module(fs: Seq<BindingFunction>, m: Seq<char>) -> Seq<BindingFunction>
    decreases fs.len(),
{
    if fs.len() == 0 {
        Seq::empty()
    } else {
        let p = functions_in_module(fs.drop_last(), m);
        if fs.last().python_module@ == m {
            p.push(fs.last())
        } else {
            p
        }
    }
}

fn equation_module_names(fs: &Vec<BindingFunction>) -> (keys: Vec<String>)
    ensures
        strictly_sorted(views(keys@)),
        views(keys@).to_set() == equation_modules_of(fs@),
{
    let mut keys: Vec<String> = Vec::new();
    let mut i: usize = 0;
    assert(views(keys@).to_set() =~= equation_modules_of(fs@.subrange(0, 0)));
    while i < fs.len()
        invariant
            i <= fs@.len(),
            strictly_sorted(views(keys@)),
            views(keys@).to_set() == equation_modules_of(fs@.subrange(0, i as int)),
        decreases fs.len() - i,
    {
        let ghost before = views(keys@).to_set();
        let ghost cur = fs@.subrange(0, i as int);
        let ghost next = fs@.subrange(0, i + 1);
        let m = fs[i].python_module.as_str();
        let is_eq = starts_with(m, "equations.");
        if is_eq {
            insert_sorted(&mut keys, fs[i].python_module.clone());
        }
        proof {
            assert forall|n: Seq<char>| #[trigger] equation_modules_of(next).contains(n) <==> (if is_eq {
                before.insert(fs@[i as int].python_module@)
            } else {
                before
            }).contains(n) by {
                if equation_modules_of(next).contains(n) {
                    let k = choose|k: int| 0 <= k < next.len() && is_equation_module(next[k].python_module@)
                        && #[trigger] next[k].python_module@ == n;
                    if k < i {
                        assert(cur[k] == next[k]);
                        assert(equation_modules_of(cur).contains(n));
                    }
                }
                if before.contains(n) {
                    let k = choose|k: int| 0 <= k < cur.len() && is_equation_module(cur[k].python_module@)
                        && #[trigger] cur[k].python_module@ == n;
                    assert(next[k] == cur[k]);
                }
                if is_eq && n == fs@[i as int].python_module@ {
                    assert(next[i as int] == fs@[i as int]);
                }
            }
            if is_eq {
                assert(equation_modules_of(next) =~= before.insert(fs@[i as int].python_module@));
            } else {
                assert(equation_modules_of(next) =~= before);
            }
        }
        i = i + 1;
    }
    assert(fs@.subrange(0, fs@.len() as int) =~= fs@);
    keys
}

fn relative_module_name(m: &str) -> (res: String)
    ensures
        res@ == relative_module(m@),
{
    proof {
        reveal_strlit("equations.");
    }
    let cs = chars_of(m);
    let p = chars_of("equations.");
    let n = cs.len();
    let mut start: usize = 0;
    assert(m@.subrange(0, n as int) =~= m@);
    loop
        invariant
            cs@ == m@,
            p@ == "equations."@,
            p@.len() == 10,
            n == cs@.len(),
            start <= n,
            relative_module(m@) == relative_module(m@.subrange(start as int, n as int)),
        ensures
            start <= n,
            relative_module(m@) == m@.subrange(start as int, n as int),
        decreases n - start,
    {
        let ghost rest = m@.subrange(start as int, n as int);
        if n - start < 10 {
            assert(!has_prefix(rest, "equations."@));
            assert(relative_module(rest) == rest);
            break;
        }
        let mut j: usize = 0;
        while j < 10 && cs[start + j] == p[j]
            invariant
                cs@ == m@,
                p@ == "equations."@,
                p@.len() == 10,
                n == cs@.len(),
                start + 10 <= n,
                j <= 10,
                rest == m@.subrange(start as int, n as int),
                forall|k: int| 0 <= k < j ==> rest[k] == p@[k],
            decreases 10 - j,
        {
            j = j + 1;
        }
        if j < 10 {
            assert(rest.subrange(0, 10)[j as int] != p@[j as int]);
            assert(!has_prefix(rest, "equations."@));
            assert(relative_module(rest) == rest);
            break;
        }
        assert(rest.subrange(0, 10) =~= p@);
        assert(rest.subrange(10, rest.len() as int) =~= m@.subrange(start + 10, n as int));
        start = start + 10;
    }
    let mut out = String::new();
    let mut k: usize = start;
    while k < n
        invariant
            cs@ == m@,
            n == cs@.len(),
            start <= k <= n,
            out@ == m@.subrange(start as int, k as int),
        decreases n - k,
    {
        push_char(&mut out, cs[k]);
        assert(m@.subrange(start as int, k + 1) =~= m@.subrange(start as int, k as int).push(cs@[k as int]));
        k = k + 1;
    }
    out
}

/// Renders the Python module of equation module `m`: the functions of the
/// manifest that belong to it, in manifest order.
pub fn render_module_of(fs: &Vec<BindingFunction>, m: &str) -> (res: String)
    ensures
        res@ == equation_module_text(functions_in_module(fs@, m@)),
{
    let mut out = String::from_str("from engpy._runtime import invoke\n\n");
    let ghost head = out@;
    let mut i: usize = 0;
    while i < fs.len()
        invariant
            i <= fs@.len(),
            head == "from engpy._runtime import invoke\n\n"@,
            out@ == head + concat_seq(
                functions_in_module(fs@.subrange(0, i as int), m@).map_values(|f: BindingFunction| equation_function_block(f)),
            ),
        decreases fs.len() - i,
    {
        let ghost before = functions_in_module(fs@.subrange(0, i as int), m@);
        assert(fs@.subrange(0, i + 1).drop_last() =~= fs@.subrange(0, i as int));
        if str_eq(fs[i].python_module.as_str(), m) {
            let b = equation_block(&fs[i]);
            push_str(&mut out, b.as_str());
            proof {
                let t = before.push(fs@[i as int]).map_values(|f: BindingFunction| equation_function_block(f));
                assert(t.drop_last() =~= before.map_values(|f: BindingFunction| equation_function_block(f)));
            }
        }
        i = i + 1;
    }
    assert(fs@.subrange(0, fs@.len() as int) =~= fs@);
    push_str(&mut out, "__all__ = [\n");
    let ghost body = out@;
    let mut j: usize = 0;
    while j < fs.len()
        invariant
            j <= fs@.len(),
            out@ == body + concat_seq(
                functions_in_module(fs@.subrange(0, j as int), m@).map_values(
                    |f: BindingFunction| "    \""@ + f.python_name@ + "\",\n"@,
                ),
            ),
        decreases fs.len() - j,
    {
        let ghost before = functions_in_module(fs@.subrange(0, j as int), m@);
        assert(fs@.subrange(0, j + 1).drop_last() =~= fs@.subrange(0, j as int));
        if str_eq(fs[j].python_module.as_str(), m) {
            push_str(&mut out, "    \"");
            push_str(&mut out, fs[j].python_name.as_str());
            push_str(&mut out, "\",\n");
            proof {
                let t = before.push(fs@[j as int]).map_values(|f: BindingFunction| "    \""@ + f.python_name@ + "\",\n"@);
                assert(t.drop_last() =~= before.map_values(|f: BindingFunction| "    \""@ + f.python_name@ + "\",\n"@));
            }
        }
        j = j + 1;
    }
    assert(fs@.subrange(0, fs@.len() as int) =~= fs@);
    push_str(&mut out, "]\n");
    out
}

/// The relative path of each name, each once, in name order.
fn relative_module_names(keys: &Vec<String>) -> (res: (Vec<String>, Vec<String>))
    ensures
        res.0@.len() == keys@.len(),
        forall|k: int| 0 <= k < keys@.len() ==> (#[trigger] res.0@[k])@ == relative_module(keys@[k]@),
        strictly_sorted(views(res.1@)),
        views(res.1@).to_set() == Set::new(
            |r: Seq<char>| exists|k: int| 0 <= k < keys@.len() && #[trigger] relative_module(keys@[k]@) == r,
        ),
{
    let mut per_key: Vec<String> = Vec::new();
    let mut rels: Vec<String> = Vec::new();
    let mut i: usize = 0;
    assert(views(rels@).to_set() =~= Set::new(
        |r: Seq<char>| exists|k: int| 0 <= k < 0 && #[trigger] relative_module(keys@[k]@) == r,
    ));
    while i < keys.len()
        invariant
            i <= keys@.len(),
            per_key@.len() == i,
            forall|k: int| 0 <= k < i ==> (#[trigger] per_key@[k])@ == relative_module(keys@[k]@),
            strictly_sorted(views(rels@)),
            views(rels@).to_set() == Set::new(
                |r: Seq<char>| exists|k: int| 0 <= k < i && #[trigger] relative_module(keys@[k]@) == r,
            ),
        decreases keys.len() - i,
    {
        let ghost before = views(rels@).to_set();
        let r = relative_module_name(keys[i].as_str());
        let ghost rv = r@;
        per_key.push(r.clone());
        insert_sorted(&mut rels, r);
        proof {
            let next = Set::new(|r: Seq<char>| exists|k: int| 0 <= k < i + 1 && #[trigger] relative_module(keys@[k]@) == r);
            assert forall|x: Seq<char>| next.contains(x) <==> before.insert(rv).contains(x) by {
                if next.contains(x) {
                    let k = choose|k: int| 0 <= k < i + 1 && #[trigger] relative_module(keys@[k]@) == x;
                    if k < i {
                        assert(before.contains(x));
                    }
                }
                if before.contains(x) {
                    let k = choose|k: int| 0 <= k < i && #[trigger] relative_module(keys@[k]@) == x;
                    assert(next.contains(x));
                }
                if x == rv {
                    assert(relative_module(keys@[i as int]@) == x);
                }
            }
            assert(next =~= before.insert(rv));
        }
        i = i + 1;
    }
    (per_key, rels)
}

/// The last position whose relative path is `r`, if any.
fn find_relative(per_key: &Vec<String>, r: &str) -> (res: Option<usize>)
    ensures
        res is None ==> forall|k: int| 0 <= k < per_key@.len() ==> (#[trigger] per_key@[k])@ != r@,
        res matches Some(idx) ==> idx < per_key@.len() && per_key@[idx as int]@ == r@ && forall|k: int|
            idx < k < per_key@.len() ==> (#[trigger] per_key@[k])@ != r@,
{
    let mut found: Option<usize> = None;
    let mut i: usize = 0;
    while i < per_key.len()
        invariant
            i <= per_key@.len(),
            found matches Some(idx) ==> idx < i && per_key@[idx as int]@ == r@ && forall|k: int|
                idx < k < i ==> (#[trigger] per_key@[k])@ != r@,
            found is None ==> forall|k: int| 0 <= k < i ==> (#[trigger] per_key@[k])@ != r@,
        decreases per_key.len() - i,
    {
        if str_eq(per_key[i].as_str(), r) {
            found = Some(i);
        }
        i = i + 1;
    }
    found
}

/// Only one module is the last one for a relative path.
proof fn lemma_last_module_unique(fs: Seq<BindingFunction>, r: Seq<char>, m: Seq<char>)
    requires
        is_last_module_for(fs, r, m),
    ensures
        last_module_for(fs, r) == m,
{
    let c = last_module_for(fs, r);
    assert(is_last_module_for(fs, r, c));
    if c != m {
        assert(lex_lt(c, m));
        assert(lex_lt(m, c));
        lemma_lex_transitive(c, m, c);
        lemma_lex_irreflexive(c);
    }
}

// ---------------------------------------------------------------------------
// Where the files go, and which packages hold them
// ---------------------------------------------------------------------------

/// The path pieces of a relative module: its dot-separated pieces, each in
/// snake case.
pub open spec fn module_parts(r: Seq<char>) -> Seq<Seq<char>> {
    split_seq(r, '.').map_values(|p: Seq<char>| snake_case_of(p))
}

/// The dotted name of the package made of the first `j` pieces.
pub open spec fn package_name(parts: Seq<Seq<char>>, j: int) -> Seq<char> {
    join_seq(parts.subrange(0, j), "."@)
}

/// For each piece of a module path: the package that holds it, the piece, and
/// whether it is the module itself (the last piece) rather than a package.
pub open spec fn piece_entries(parts: Seq<Seq<char>>) -> Seq<(Seq<char>, Seq<char>, bool)> {
    Seq::new(parts.len(), |j: int| (package_name(parts, j), parts[j], j == parts.len() - 1))
}

/// The pieces of every relative module, modules in the given order.
pub open spec fn tree_entries(rels: Seq<Seq<char>>) -> Seq<(Seq<char>, Seq<char>, bool)>
    decreases rels.len(),
{
    if rels.len() == 0 {
        Seq::empty()
    } else {
        tree_entries(rels.drop_last()) + piece_entries(module_parts(rels.last()))
    }
}

fn module_parts_of(r: &str) -> (res: Vec<String>)
    ensures
        views(res@) == module_parts(r@),
{
    let pieces = split_text(r, '.');
    let mut res: Vec<String> = Vec::new();
    let mut i: usize = 0;
    while i < pieces.len()
        invariant
            i <= pieces@.len(),
            res@.len() == i,
            forall|k: int| 0 <= k < i ==> (#[trigger] res@[k])@ == snake_case_of(pieces@[k]@),
        decreases pieces.len() - i,
    {
        res.push(snake_case(pieces[i].as_str()));
        i = i + 1;
    }
    assert(views(res@) =~= module_parts(r@));
    res
}

fn push_piece_entries(entries: &mut Vec<(String, String, bool)>, parts: &Vec<String>)
    ensures
        final(entries)@.len() == old(entries)@.len() + parts@.len(),
        forall|k: int| 0 <= k < old(entries)@.len() ==> #[trigger] final(entries)@[k] == old(entries)@[k],
        forall|k: int| 0 <= k < parts@.len() ==> {
            let e = #[trigger] final(entries)@[old(entries)@.len() + k];
            (e.0@, e.1@, e.2) == piece_entries(views(parts@))[k]
        },
{
    let ghost n0 = entries@.len();
    let ghost start = entries@;
    let mut prefix: Vec<String> = Vec::new();
    let mut j: usize = 0;
    while j < parts.len()
        invariant
            j <= parts@.len(),
            entries@.len() == n0 + j,
            views(prefix@) == views(parts@).subrange(0, j as int),
            forall|k: int| 0 <= k < n0 ==> #[trigger] entries@[k] == start[k],
            forall|k: int| 0 <= k < j ==> {
                let e = #[trigger] entries@[n0 + k];
                (e.0@, e.1@, e.2) == piece_entries(views(parts@))[k]
            },
        decreases parts.len() - j,
    {
        let name = join_strings(&prefix, ".");
        let last = j + 1 == parts.len();
        entries.push((name, parts[j].clone(), last));
        prefix.push(parts[j].clone());
        proof {
            assert(views(prefix@) =~= views(parts@).subrange(0, j + 1));
            let e = entries@[n0 + j];
            assert(e.0@ == package_name(views(parts@), j as int));
            assert(e.1@ == views(parts@)[j as int]);
        }
        j = j + 1;
    }
}

/// The tree entries of the given relative modules, with their pieces.
fn tree_entries_of(rels: &Vec<String>) -> (res: (Vec<Vec<String>>, Vec<(String, String, bool)>))
    ensures
        res.0@.len() == rels@.len(),
        forall|k: int| 0 <= k < rels@.len() ==> views((#[trigger] res.0@[k])@) == module_parts(rels@[k]@),
        res.1@.len() == tree_entries(views(rels@)).len(),
        forall|k: int| 0 <= k < res.1@.len() ==> {
            let e = #[trigger] res.1@[k];
            (e.0@, e.1@, e.2) == tree_entries(views(rels@))[k]
        },
{
    let mut all_parts: Vec<Vec<String>> = Vec::new();
    let mut entries: Vec<(String, String, bool)> = Vec::new();
    let mut i: usize = 0;
    while i < rels.len()
        invariant
            i <= rels@.len(),
            all_parts@.len() == i,
            forall|k: int| 0 <= k < i ==> views((#[trigger] all_parts@[k])@) == module_parts(rels@[k]@),
            entries@.len() == tree_entries(views(rels@).subrange(0, i as int)).len(),
            forall|k: int| 0 <= k < entries@.len() ==> {
                let e = #[trigger] entries@[k];
                (e.0@, e.1@, e.2) == tree_entries(views(rels@).subrange(0, i as int))[k]
            },
        decreases rels.len() - i,
    {
        let parts = module_parts_of(rels[i].as_str());
        let ghost before = tree_entries(views(rels@).subrange(0, i as int));
        let ghost old_entries = entries@;
        push_piece_entries(&mut entries, &parts);
        proof {
            let sub = views(rels@).subrange(0, i + 1);
            assert(sub.drop_last() =~= views(rels@).subrange(0, i as int));
            assert(sub.last() == rels@[i as int]@);
            assert(tree_entries(sub) == before + piece_entries(views(parts@)));
            assert forall|k: int| 0 <= k < entries@.len() implies {
                let e = #[trigger] entries@[k];
                (e.0@, e.1@, e.2) == tree_entries(sub)[k]
            } by {
                if k < old_entries.len() {
                    assert(entries@[k] == old_entries[k]);
                } else {
                    let j = k - old_entries.len();
                    assert(entries@[old_entries.len() + j] == entries@[k]);
                }
            }
        }
        all_parts.push(parts);
        i = i + 1;
    }
    assert(views(rels@).subrange(0, rels@.len() as int) =~= views(rels@));
    (all_parts, entries)
}

/// The views of tree entries.
pub open spec fn entry_views(es: Seq<(String, String, bool)>) -> Seq<(Seq<char>, Seq<char>, bool)> {
    Seq::new(es.len(), |k: int| (es[k].0@, es[k].1@, es[k].2))
}

/// The packages that hold some piece.
pub open spec fn packages_in(es: Seq<(Seq<char>, Seq<char>, bool)>) -> Set<Seq<char>> {
    Set::new(|p: Seq<char>| exists|k: int| 0 <= k < es.len() && (#[trigger] es[k]).0 == p)
}

/// The pieces package `p` holds: its modules, or its subpackages.
pub open spec fn children_in(es: Seq<(Seq<char>, Seq<char>, bool)>, p: Seq<char>, modules: bool) -> Set<Seq<char>> {
    Set::new(|c: Seq<char>| exists|k: int| 0 <= k < es.len() && (#[trigger] es[k]).0 == p && es[k].2 == modules && es[k].1 == c)
}

fn package_names(es: &Vec<(String, String, bool)>) -> (res: Vec<String>)
    ensures
        strictly_sorted(views(res@)),
        views(res@).to_set() == packages_in(entry_views(es@)).remove(Seq::empty()),
{
    let ghost ev = entry_views(es@);
    let mut res: Vec<String> = Vec::new();
    let mut i: usize = 0;
    assert(views(res@).to_set() =~= packages_in(ev.subrange(0, 0)).remove(Seq::empty()));
    while i < es.len()
        invariant
            ev == entry_views(es@),
            i <= es@.len(),
            strictly_sorted(views(res@)),
            views(res@).to_set() == packages_in(ev.subrange(0, i as int)).remove(Seq::empty()),
        decreases es.len() - i,
    {
        let ghost before = views(res@).to_set();
        let ghost cur = ev.subrange(0, i as int);
        let ghost next = ev.subrange(0, i + 1);
        let p = &es[i].0;
        let add = p.unicode_len() > 0;
        if add {
            insert_sorted(&mut res, p.clone());
        }
        proof {
            assert(next[i as int] == ev[i as int]);
            if !add {
                assert(ev[i as int].0 =~= Seq::<char>::empty());
            } else {
                assert(ev[i as int].0.len() > 0);
                assert(ev[i as int].0 != Seq::<char>::empty());
            }
            assert forall|n: Seq<char>| #[trigger] packages_in(next).remove(Seq::empty()).contains(n) <==> (if add {
                before.insert(ev[i as int].0)
            } else {
                before
            }).contains(n) by {
                if packages_in(next).remove(Seq::empty()).contains(n) {
                    let k = choose|k: int| 0 <= k < next.len() && (#[trigger] next[k]).0 == n;
                    if k < i {
                        assert(cur[k] == next[k]);
                        assert(packages_in(cur).contains(n));
                    }
                }
                if before.contains(n) {
                    let k = choose|k: int| 0 <= k < cur.len() && (#[trigger] cur[k]).0 == n;
                    assert(next[k] == cur[k]);
                }
                if add && n == ev[i as int].0 {
                    assert(packages_in(next).contains(n));
                }
            }
            if add {
                assert(packages_in(next).remove(Seq::empty()) =~= before.insert(ev[i as int].0));
            } else {
                assert(packages_in(next).remove(Seq::empty()) =~= before);
            }
        }
        i = i + 1;
    }
    assert(ev.subrange(0, es@.len() as int) =~= ev);
    res
}

fn children_of(es: &Vec<(String, String, bool)>, p: &str, modules: bool) -> (res: Vec<String>)
    ensures
        strictly_sorted(views(res@)),
        views(res@).to_set() == children_in(entry_views(es@), p@, modules),
{
    let ghost ev = entry_views(es@);
    let mut res: Vec<String> = Vec::new();
    let mut i: usize = 0;
    assert(views(res@).to_set() =~= children_in(ev.subrange(0, 0), p@, modules));
    while i < es.len()
        invariant
            ev == entry_views(es@),
            i <= es@.len(),
            strictly_sorted(views(res@)),
            views(res@).to_set() == children_in(ev.subrange(0, i as int), p@, modules),
        decreases es.len() - i,
    {
        let ghost before = views(res@).to_set();
        let ghost cur = ev.subrange(0, i as int);
        let ghost next = ev.subrange(0, i + 1);
        let add = es[i].2 == modules && str_eq(es[i].0.as_str(), p);
        if add {
            insert_sorted(&mut res, es[i].1.clone());
        }
        proof {
            assert(next[i as int] == ev[i as int]);
            assert forall|n: Seq<char>| #[trigger] children_in(next, p@, modules).contains(n) <==> (if add {
                before.insert(ev[i as int].1)
            } else {
                before
            }).contains(n) by {
                if children_in(next, p@, modules).contains(n) {
                    let k = choose|k: int| 0 <= k < next.len() && (#[trigger] next[k]).0 == p@ && next[k].2 == modules
                        && next[k].1 == n;
                    if k < i {
                        assert(cur[k] == next[k]);
                        assert(children_in(cur, p@, modules).contains(n));
                    }
                }
                if before.contains(n) {
                    let k = choose|k: int| 0 <= k < cur.len() && (#[trigger] cur[k]).0 == p@ && cur[k].2 == modules
                        && cur[k].1 == n;
                    assert(next[k] == cur[k]);
                }
                if add && n == ev[i as int].1 {
                    assert(children_in(next, p@, modules).contains(n));
                }
            }
            if add {
                assert(children_in(next, p@, modules) =~= before.insert(ev[i as int].1));
            } else {
                assert(children_in(next, p@, modules) =~= before);
            }
        }
        i = i + 1;
    }
    assert(ev.subrange(0, es@.len() as int) =~= ev);
    res
}

// ---------------------------------------------------------------------------
// Aliases in the top-level packages
// ---------------------------------------------------------------------------

/// Whether package `p` re-exports the functions of its modules under their own
/// names: a top-level package other than `families` and `meta`.
pub open spec fn takes_aliases(p: Seq<char>) -> bool {
    !p.contains('.') && p != "families"@ && p != "meta"@
}

/// The (module, function name) pairs package `p` could alias: for each of its
/// modules `m`, in the given order, whose relative path `p.m` is known, the
/// functions of the last module with that path.
pub open spec fn alias_pairs(fs: Seq<BindingFunction>, rels: Set<Seq<char>>, p: Seq<char>, mods: Seq<Seq<char>>) -> Seq<
    (Seq<char>, Seq<char>),
>
    decreases mods.len(),
{
    if mods.len() == 0 {
        Seq::empty()
    } else {
        let m = mods.last();
        let r = p + "."@ + m;
        alias_pairs(fs, rels, p, mods.drop_last()) + if rels.contains(r) {
            functions_in_module(fs, last_module_for(fs, r)).map_values(|f: BindingFunction| (m, f.python_name@))
        } else {
            Seq::empty()
        }
    }
}

/// How often a name occurs among the pairs.
pub open spec fn name_count(pairs: Seq<(Seq<char>, Seq<char>)>, d: Seq<char>) -> nat
    decreases pairs.len(),
{
    if pairs.len() == 0 {
        0
    } else {
        name_count(pairs.drop_last(), d) + if pairs.last().1 == d {
            1nat
        } else {
            0nat
        }
    }
}

/// The module of the last pair with that name.
pub open spec fn module_of_name(pairs: Seq<(Seq<char>, Seq<char>)>, d: Seq<char>) -> Seq<char>
    decreases pairs.len(),
{
    if pairs.len() == 0 {
        Seq::empty()
    } else if pairs.last().1 == d {
        pairs.last().0
    } else {
        module_of_name(pairs.drop_last(), d)
    }
}

/// The names among the pairs.
pub open spec fn alias_names(pairs: Seq<(Seq<char>, Seq<char>)>) -> Set<Seq<char>> {
    Set::new(|d: Seq<char>| exists|k: int| 0 <= k < pairs.len() && (#[trigger] pairs[k]).1 == d)
}

/// A name offered once is imported under its own name; one offered more often is not.
pub open spec fn alias_line(pairs: Seq<(Seq<char>, Seq<char>)>, d: Seq<char>) -> Seq<char> {
    if name_count(pairs, d) == 1 {
        "from ."@ + module_of_name(pairs, d) + " import "@ + d + " as "@ + d + "\n"@
    } else {
        Seq::empty()
    }
}

pub open spec fn omitted_line(pairs: Seq<(Seq<char>, Seq<char>)>, d: Seq<char>) -> Seq<char> {
    if name_count(pairs, d) > 1 {
        "# - "@ + d + "\n"@
    } else {
        Seq::empty()
    }
}

/// The alias imports, names in order, then a comment listing the names left
/// out because several modules offer them.
pub open spec fn alias_text(pairs: Seq<(Seq<char>, Seq<char>)>) -> Seq<char> {
    let names = sorted_names(alias_names(pairs));
    concat_seq(names.map_values(|d: Seq<char>| alias_line(pairs, d))) + if exists|k: int|
        0 <= k < names.len() && name_count(pairs, #[trigger] names[k]) > 1 {
        "\n# Omitted legacy aliases due to collisions:\n"@ + concat_seq(
            names.map_values(|d: Seq<char>| omitted_line(pairs, d)),
        )
    } else {
        Seq::empty()
    }
}

pub open spec fn pair_views(ps: Seq<(String, String)>) -> Seq<(Seq<char>, Seq<char>)> {
    Seq::new(ps.len(), |k: int| (ps[k].0@, ps[k].1@))
}

fn count_name(pairs: &Vec<(String, String)>, d: &str) -> (res: usize)
    ensures
        res == name_count(pair_views(pairs@), d@),
{
    let ghost pv = pair_views(pairs@);
    let mut count: usize = 0;
    let mut i: usize = 0;
    while i < pairs.len()
        invariant
            pv == pair_views(pairs@),
            i <= pairs@.len(),
            count <= i,
            count == name_count(pv.subrange(0, i as int), d@),
        decreases pairs.len() - i,
    {
        assert(pv.subrange(0, i + 1).drop_last() =~= pv.subrange(0, i as int));
        assert(pv.subrange(0, i + 1).last() == pv[i as int]);
        if str_eq(pairs[i].1.as_str(), d) {
            count = count + 1;
        }
        i = i + 1;
    }
    assert(pv.subrange(0, pairs@.len() as int) =~= pv);
    count
}

fn module_for_name(pairs: &Vec<(String, String)>, d: &str) -> (res: String)
    ensures
        res@ == module_of_name(pair_views(pairs@), d@),
{
    let ghost pv = pair_views(pairs@);
    let mut res = String::new();
    let mut i: usize = 0;
    while i < pairs.len()
        invariant
            pv == pair_views(pairs@),
            i <= pairs@.len(),
            res@ == module_of_name(pv.subrange(0, i as int), d@),
        decreases pairs.len() - i,
    {
        assert(pv.subrange(0, i + 1).drop_last() =~= pv.subrange(0, i as int));
        assert(pv.subrange(0, i + 1).last() == pv[i as int]);
        if str_eq(pairs[i].1.as_str(), d) {
            res = pairs[i].0.clone();
        }
        i = i + 1;
    }
    assert(pv.subrange(0, pairs@.len() as int) =~= pv);
    res
}

fn alias_name_list(pairs: &Vec<(String, String)>) -> (res: Vec<String>)
    ensures
        strictly_sorted(views(res@)),
        views(res@).to_set() == alias_names(pair_views(pairs@)),
{
    let ghost pv = pair_views(pairs@);
    let mut res: Vec<String> = Vec::new();
    let mut i: usize = 0;
    assert(views(res@).to_set() =~= alias_names(pv.subrange(0, 0)));
    while i < pairs.len()
        invariant
            pv == pair_views(pairs@),
            i <= pairs@.len(),
            strictly_sorted(views(res@)),
            views(res@).to_set() == alias_names(pv.subrange(0, i as int)),
        decreases pairs.len() - i,
    {
        let ghost before = views(res@).to_set();
        let ghost cur = pv.subrange(0, i as int);
        let ghost next = pv.subrange(0, i + 1);
        insert_sorted(&mut res, pairs[i].1.clone());
        proof {
            assert(next[i as int] == pv[i as int]);
            assert forall|n: Seq<char>| #[trigger] alias_names(next).contains(n) <==> before.insert(pv[i as int].1).contains(n) by {
                if alias_names(next).contains(n) {
                    let k = choose|k: int| 0 <= k < next.len() && (#[trigger] next[k]).1 == n;
                    if k < i {
                        assert(cur[k] == next[k]);
                        assert(alias_names(cur).contains(n));
                    }
                }
                if before.contains(n) {
                    let k = choose|k: int| 0 <= k < cur.len() && (#[trigger] cur[k]).1 == n;
                    assert(next[k] == cur[k]);
                }
                if n == pv[i as int].1 {
                    assert(alias_names(next).contains(n));
                }
            }
            assert(alias_names(next) =~= before.insert(pv[i as int].1));
        }
        i = i + 1;
    }
    assert(pv.subrange(0, pairs@.len() as int) =~= pv);
    res
}

/// Renders the alias imports of the given pairs.
fn render_aliases(pairs: &Vec<(String, String)>) -> (res: String)
    ensures
        res@ == alias_text(pair_views(pairs@)),
{
    let ghost pv = pair_views(pairs@);
    let names = alias_name_list(pairs);
    let ghost nv = views(names@);
    proof {
        lemma_sorted_names(nv);
    }
    let mut out = String::new();
    let mut omitted = String::new();
    let mut any = false;
    let mut i: usize = 0;
    while i < names.len()
        invariant
            pv == pair_views(pairs@),
            nv == views(names@),
            i <= names@.len(),
            out@ == concat_seq(nv.subrange(0, i as int).map_values(|d: Seq<char>| alias_line(pv, d))),
            omitted@ == concat_seq(nv.subrange(0, i as int).map_values(|d: Seq<char>| omitted_line(pv, d))),
            any == exists|k: int| 0 <= k < i && name_count(pv, #[trigger] nv[k]) > 1,
        decreases names.len() - i,
    {
        let d = names[i].as_str();
        let c = count_name(pairs, d);
        if c == 1 {
            let m = module_for_name(pairs, d);
            push_str(&mut out, "from .");
            push_str(&mut out, m.as_str());
            push_str(&mut out, " import ");
            push_str(&mut out, d);
            push_str(&mut out, " as ");
            push_str(&mut out, d);
            push_str(&mut out, "\n");
        } else if c > 1 {
            push_str(&mut omitted, "# - ");
            push_str(&mut omitted, d);
            push_str(&mut omitted, "\n");
            any = true;
        }
        proof {
            let a = nv.subrange(0, i + 1).map_values(|d: Seq<char>| alias_line(pv, d));
            assert(a.drop_last() =~= nv.subrange(0, i as int).map_values(|d: Seq<char>| alias_line(pv, d)));
            let o = nv.subrange(0, i + 1).map_values(|d: Seq<char>| omitted_line(pv, d));
            assert(o.drop_last() =~= nv.subrange(0, i as int).map_values(|d: Seq<char>| omitted_line(pv, d)));
            if c > 1 {
                assert(name_count(pv, nv[i as int]) > 1);
            }
            if any && c <= 1 {
                let k = choose|k: int| 0 <= k < i && name_count(pv, #[trigger] nv[k]) > 1;
                assert(0 <= k < i + 1 && name_count(pv, nv[k]) > 1);
            }
            if !any {
                assert forall|k: int| 0 <= k < i + 1 implies !(name_count(pv, #[trigger] nv[k]) > 1) by {
                    if k < i {
                    }
                }
            }
        }
        i = i + 1;
    }
    assert(nv.subrange(0, names@.len() as int) =~= nv);
    if any {
        push_str(&mut out, "\n# Omitted legacy aliases due to collisions:\n");
        push_str(&mut out, omitted.as_str());
    }
    out
}

// ---------------------------------------------------------------------------
// From the sorted names to the manifest
// ---------------------------------------------------------------------------

/// The relative paths of the manifest's equation modules, read off a sorted
/// list of those modules.
proof fn lemma_relative_set(fs: Seq<BindingFunction>, kv: Seq<Seq<char>>)
    requires
        kv.to_set() == equation_modules_of(fs),
    ensures
        relative_modules_of(fs) == Set::new(
            |r: Seq<char>| exists|k: int| 0 <= k < kv.len() && #[trigger] relative_module(kv[k]) == r,
        ),
{
    let s = Set::new(|r: Seq<char>| exists|k: int| 0 <= k < kv.len() && #[trigger] relative_module(kv[k]) == r);
    assert forall|r: Seq<char>| relative_modules_of(fs).contains(r) <==> s.contains(r) by {
        if relative_modules_of(fs).contains(r) {
            let m = choose|m: Seq<char>| #[trigger] equation_modules_of(fs).contains(m) && relative_module(m) == r;
            assert(kv.to_set().contains(m));
            let k = choose|k: int| 0 <= k < kv.len() && kv[k] == m;
            assert(relative_module(kv[k]) == r);
        }
        if s.contains(r) {
            let k = choose|k: int| 0 <= k < kv.len() && #[trigger] relative_module(kv[k]) == r;
            assert(kv.contains(kv[k]));
            assert(equation_modules_of(fs).contains(kv[k]));
        }
    }
    assert(relative_modules_of(fs) =~= s);
}

/// The last module for `r` is the last of the sorted modules with that path.
proof fn lemma_last_from_keys(fs: Seq<BindingFunction>, kv: Seq<Seq<char>>, per: Seq<Seq<char>>, r: Seq<char>, idx: int)
    requires
        strictly_sorted(kv),
        kv.to_set() == equation_modules_of(fs),
        per.len() == kv.len(),
        forall|k: int| 0 <= k < kv.len() ==> #[trigger] per[k] == relative_module(kv[k]),
        0 <= idx < kv.len(),
        per[idx] == r,
        forall|k: int| idx < k < kv.len() ==> #[trigger] per[k] != r,
    ensures
        last_module_for(fs, r) == kv[idx],
        relative_modules_of(fs).contains(r),
{
    assert(kv.contains(kv[idx]));
    assert(equation_modules_of(fs).contains(kv[idx]));
    assert(relative_module(kv[idx]) == r);
    assert forall|m2: Seq<char>| #[trigger] equation_modules_of(fs).contains(m2) && relative_module(m2) == r implies m2
        == kv[idx] || lex_lt(m2, kv[idx]) by {
        assert(kv.to_set().contains(m2));
        let k = choose|k: int| 0 <= k < kv.len() && kv[k] == m2;
        assert(per[k] == r);
        if k > idx {
            assert(per[k] != r);
        }
    }
    assert(is_last_module_for(fs, r, kv[idx]));
    lemma_last_module_unique(fs, r, kv[idx]);
}

fn alias_pairs_of(
    fs: &Vec<BindingFunction>,
    keys: &Vec<String>,
    per_key: &Vec<String>,
    p: &str,
    mods: &Vec<String>,
) -> (res: Vec<(String, String)>)
    requires
        strictly_sorted(views(keys@)),
        views(keys@).to_set() == equation_modules_of(fs@),
        per_key@.len() == keys@.len(),
        forall|k: int| 0 <= k < keys@.len() ==> (#[trigger] per_key@[k])@ == relative_module(keys@[k]@),
    ensures
        pair_views(res@) == alias_pairs(fs@, relative_modules_of(fs@), p@, views(mods@)),
{
    let ghost kv = views(keys@);
    let ghost per = views(per_key@);
    let ghost rels = relative_modules_of(fs@);
    proof {
        lemma_relative_set(fs@, kv);
        assert forall|k: int| 0 <= k < kv.len() implies #[trigger] per[k] == relative_module(kv[k]) by {
            assert(per[k] == per_key@[k]@);
        }
    }
    let mut res: Vec<(String, String)> = Vec::new();
    let mut i: usize = 0;
    while i < mods.len()
        invariant
            kv == views(keys@),
            per == views(per_key@),
            rels == relative_modules_of(fs@),
            strictly_sorted(kv),
            kv.to_set() == equation_modules_of(fs@),
            per.len() == kv.len(),
            forall|k: int| 0 <= k < kv.len() ==> #[trigger] per[k] == relative_module(kv[k]),
            rels == Set::new(|r: Seq<char>| exists|k: int| 0 <= k < kv.len() && #[trigger] relative_module(kv[k]) == r),
            i <= mods@.len(),
            pair_views(res@) == alias_pairs(fs@, rels, p@, views(mods@).subrange(0, i as int)),
        decreases mods.len() - i,
    {
        let ghost sub = views(mods@).subrange(0, i + 1);
        let ghost base = pair_views(res@);
        proof {
            assert(sub.drop_last() =~= views(mods@).subrange(0, i as int));
            assert(sub.last() == mods@[i as int]@);
        }
        let m = &mods[i];
        let mut r = String::from_str(p);
        push_str(&mut r, ".");
        push_str(&mut r, m.as_str());
        let found = find_relative(per_key, r.as_str());
        match found {
            None => {
                proof {
                    if rels.contains(r@) {
                        let k = choose|k: int| 0 <= k < kv.len() && #[trigger] relative_module(kv[k]) == r@;
                        assert(per_key@[k]@ == per[k]);
                    }
                    assert(pair_views(res@) =~= alias_pairs(fs@, rels, p@, sub));
                }
            },
            Some(idx) => {
                proof {
                    assert forall|k: int| idx < k < kv.len() implies #[trigger] per[k] != r@ by {
                        assert(per[k] == per_key@[k]@);
                    }
                    lemma_last_from_keys(fs@, kv, per, r@, idx as int);
                }
                let key = keys[idx].as_str();
                let ghost mv = m@;
                let mut j: usize = 0;
                while j < fs.len()
                    invariant
                        j <= fs@.len(),
                        pair_views(res@) == base + functions_in_module(fs@.subrange(0, j as int), key@).map_values(
                            |f: BindingFunction| (mv, f.python_name@),
                        ),
                        mv == m@,
                    decreases fs.len() - j,
                {
                    let ghost before = functions_in_module(fs@.subrange(0, j as int), key@);
                    assert(fs@.subrange(0, j + 1).drop_last() =~= fs@.subrange(0, j as int));
                    if str_eq(fs[j].python_module.as_str(), key) {
                        let ghost old_pv = pair_views(res@);
                        res.push((m.clone(), fs[j].python_name.clone()));
                        proof {
                            let t = before.push(fs@[j as int]).map_values(|f: BindingFunction| (mv, f.python_name@));
                            assert(t =~= before.map_values(|f: BindingFunction| (mv, f.python_name@)).push(
                                (mv, fs@[j as int].python_name@),
                            ));
                            assert(pair_views(res@) =~= old_pv.push((mv, fs@[j as int].python_name@)));
                            assert(functions_in_module(fs@.subrange(0, j + 1), key@) == before.push(fs@[j as int]));
                            assert(pair_views(res@) =~= base + t);
                        }
                    }
                    j = j + 1;
                }
                proof {
                    assert(fs@.subrange(0, fs@.len() as int) =~= fs@);
                    assert(pair_views(res@) =~= alias_pairs(fs@, rels, p@, sub));
                }
            },
        }
        i = i + 1;
    }
    assert(views(mods@).subrange(0, mods@.len() as int) =~= views(mods@));
    res
}

// ---------------------------------------------------------------------------
// Package files
// ---------------------------------------------------------------------------

/// `from . import <name>` for each name.
pub open spec fn import_lines(names: Seq<Seq<char>>) -> Seq<char> {
    concat_seq(names.map_values(|c: Seq<char>| "from . import "@ + c + "\n"@))
}

/// The `__all__` list of the names, when there are any.
pub open spec fn all_list(names: Seq<Seq<char>>) -> Seq<char> {
    if names.len() == 0 {
        Seq::empty()
    } else {
        "\n__all__ = [\n"@ + concat_seq(names.map_values(|c: Seq<char>| "    \""@ + c + "\",\n"@)) + "]\n"@
    }
}

/// The pieces of every equation module of the manifest, modules in name order.
pub open spec fn package_tree(fs: Seq<BindingFunction>) -> Seq<(Seq<char>, Seq<char>, bool)> {
    tree_entries(sorted_names(relative_modules_of(fs)))
}

/// The packages below `equations` that hold equation modules or packages.
pub open spec fn equation_packages(fs: Seq<BindingFunction>) -> Set<Seq<char>> {
    packages_in(package_tree(fs)).remove(Seq::empty())
}

/// A package's `__init__.py`: it imports its subpackages, then its modules, in
/// name order; a top-level package then aliases its modules' functions; last
/// comes `__all__`.
pub open spec fn package_init_text(fs: Seq<BindingFunction>, p: Seq<char>) -> Seq<char> {
    let es = package_tree(fs);
    let kids = sorted_names(children_in(es, p, false));
    let mods = sorted_names(children_in(es, p, true));
    import_lines(kids) + import_lines(mods) + (if takes_aliases(p) {
        alias_text(alias_pairs(fs, relative_modules_of(fs), p, mods))
    } else {
        Seq::empty()
    }) + all_list(kids + mods)
}

fn push_import_lines(out: &mut String, names: &Vec<String>)
    ensures
        final(out)@ == old(out)@ + import_lines(views(names@)),
{
    let ghost start = out@;
    let mut i: usize = 0;
    while i < names.len()
        invariant
            i <= names@.len(),
            out@ == start + import_lines(views(names@).subrange(0, i as int)),
        decreases names.len() - i,
    {
        push_str(out, "from . import ");
        push_str(out, names[i].as_str());
        push_str(out, "\n");
        proof {
            let t = views(names@).subrange(0, i + 1).map_values(|c: Seq<char>| "from . import "@ + c + "\n"@);
            assert(t.drop_last() =~= views(names@).subrange(0, i as int).map_values(
                |c: Seq<char>| "from . import "@ + c + "\n"@,
            ));
        }
        i = i + 1;
    }
    assert(views(names@).subrange(0, names@.len() as int) =~= views(names@));
}

fn push_all_entries(out: &mut String, names: &Vec<String>)
    ensures
        final(out)@ == old(out)@ + concat_seq(views(names@).map_values(|c: Seq<char>| "    \""@ + c + "\",\n"@)),
{
    let ghost start = out@;
    let mut i: usize = 0;
    while i < names.len()
        invariant
            i <= names@.len(),
            out@ == start + concat_seq(
                views(names@).subrange(0, i as int).map_values(|c: Seq<char>| "    \""@ + c + "\",\n"@),
            ),
        decreases names.len() - i,
    {
        push_str(out, "    \"");
        push_str(out, names[i].as_str());
        push_str(out, "\",\n");
        proof {
            let t = views(names@).subrange(0, i + 1).map_values(|c: Seq<char>| "    \""@ + c + "\",\n"@);
            assert(t.drop_last() =~= views(names@).subrange(0, i as int).map_values(
                |c: Seq<char>| "    \""@ + c + "\",\n"@,
            ));
        }
        i = i + 1;
    }
    assert(views(names@).subrange(0, names@.len() as int) =~= views(names@));
}

fn takes_aliases_exec(p: &str) -> (res: bool)
    ensures
        res == takes_aliases(p@),
{
    let cs = chars_of(p);
    let mut i: usize = 0;
    while i < cs.len()
        invariant
            cs@ == p@,
            i <= cs@.len(),
            forall|k: int| 0 <= k < i ==> cs@[k] != '.',
        decreases cs.len() - i,
    {
        if cs[i] == '.' {
            assert(p@.contains('.'));
            return false;
        }
        i = i + 1;
    }
    assert(!p@.contains('.'));
    !str_eq(p, "families") && !str_eq(p, "meta")
}

/// Concatenation of two lists of parts is the concatenation of each.
proof fn lemma_concat_append(a: Seq<Seq<char>>, b: Seq<Seq<char>>)
    ensures
        concat_seq(a + b) == concat_seq(a) + concat_seq(b),
    decreases b.len(),
{
    if b.len() == 0 {
        assert(a + b =~= a);
        assert(concat_seq(a) + concat_seq(b) =~= concat_seq(a));
    } else {
        assert((a + b).drop_last() =~= a + b.drop_last());
        assert((a + b).last() == b.last());
        lemma_concat_append(a, b.drop_last());
        assert(concat_seq(a) + concat_seq(b) =~= concat_seq(a) + concat_seq(b.drop_last()) + b.last());
    }
}

fn render_package_init(
    fs: &Vec<BindingFunction>,
    keys: &Vec<String>,
    per_key: &Vec<String>,
    entries: &Vec<(String, String, bool)>,
    p: &str,
) -> (res: String)
    requires
        strictly_sorted(views(keys@)),
        views(keys@).to_set() == equation_modules_of(fs@),
        per_key@.len() == keys@.len(),
        forall|k: int| 0 <= k < keys@.len() ==> (#[trigger] per_key@[k])@ == relative_module(keys@[k]@),
        entry_views(entries@) == package_tree(fs@),
    ensures
        res@ == package_init_text(fs@, p@),
{
    let kids = children_of(entries, p, false);
    let mods = children_of(entries, p, true);
    proof {
        lemma_sorted_names(views(kids@));
        lemma_sorted_names(views(mods@));
    }
    let mut out = String::new();
    push_import_lines(&mut out, &kids);
    push_import_lines(&mut out, &mods);
    let ghost before_alias = out@;
    if takes_aliases_exec(p) {
        let pairs = alias_pairs_of(fs, keys, per_key, p, &mods);
        let a = render_aliases(&pairs);
        push_str(&mut out, a.as_str());
    }
    let ghost after_alias = out@;
    if kids.len() > 0 || mods.len() > 0 {
        push_str(&mut out, "\n__all__ = [\n");
        push_all_entries(&mut out, &kids);
        push_all_entries(&mut out, &mods);
        push_str(&mut out, "]\n");
        proof {
            let f = |c: Seq<char>| "    \""@ + c + "\",\n"@;
            assert((views(kids@) + views(mods@)).map_values(f) =~= views(kids@).map_values(f) + views(mods@).map_values(f));
            lemma_concat_append(views(kids@).map_values(f), views(mods@).map_values(f));
            assert(out@ =~= after_alias + all_list(views(kids@) + views(mods@)));
        }
    } else {
        assert(out@ =~= after_alias + all_list(views(kids@) + views(mods@)));
    }
    out
}

/// A generated file: its path below the `equations` package, piece by piece,
/// and its text.
#[derive(Debug, Clone)]
pub struct GeneratedFile {
    pub path: Vec<String>,
    pub text: String,
}

/// Where a module's file goes: one directory per package piece, then the
/// module's own piece with `.py`.
pub open spec fn module_file_path(r: Seq<char>) -> Seq<Seq<char>> {
    let parts = module_parts(r);
    parts.drop_last().push(parts.last() + ".py"@)
}

/// Where a package's `__init__.py` goes: one directory per dotted piece.
pub open spec fn init_file_path(p: Seq<char>) -> Seq<Seq<char>> {
    split_seq(p, '.').push("__init__.py"@)
}

/// The files of the `engpy.equations` subpackages: first one module per
/// relative module path, in name order, holding the functions of the last
/// module (in name order) with that path; then one `__init__.py` per package
/// below `equations`, in name order.
pub fn python_equation_files(manifest: &BindingManifest) -> (files: Vec<GeneratedFile>)
    ensures
        ({
            let fs = manifest.functions@;
            let rels = sorted_names(relative_modules_of(fs));
            let pkgs = sorted_names(equation_packages(fs));
            &&& files@.len() == rels.len() + pkgs.len()
            &&& forall|i: int| 0 <= i < rels.len() ==> {
                &&& views((#[trigger] files@[i]).path@) == module_file_path(rels[i])
                &&& files@[i].text@ == equation_module_text(functions_in_module(fs, last_module_for(fs, rels[i])))
            }
            &&& forall|i: int| 0 <= i < pkgs.len() ==> {
                &&& views((#[trigger] files@[rels.len() + i]).path@) == init_file_path(pkgs[i])
                &&& files@[rels.len() + i].text@ == package_init_text(fs, pkgs[i])
            }
        }),
{
    let fs = &manifest.functions;
    let keys = equation_module_names(fs);
    let (per_key, rels) = relative_module_names(&keys);
    let ghost kv = views(keys@);
    let ghost per = views(per_key@);
    let ghost rv = views(rels@);
    proof {
        lemma_relative_set(fs@, kv);
        assert forall|r: Seq<char>| views(rels@).to_set().contains(r) <==> relative_modules_of(fs@).contains(r) by {
            if views(rels@).to_set().contains(r) {
                let k = choose|k: int| 0 <= k < keys@.len() && #[trigger] relative_module(keys@[k]@) == r;
                assert(relative_module(kv[k]) == r);
            }
            if relative_modules_of(fs@).contains(r) {
                let k = choose|k: int| 0 <= k < kv.len() && #[trigger] relative_module(kv[k]) == r;
                assert(relative_module(keys@[k]@) == r);
            }
        }
        assert(views(rels@).to_set() =~= relative_modules_of(fs@));
        lemma_sorted_names(rv);
        assert forall|k: int| 0 <= k < kv.len() implies #[trigger] per[k] == relative_module(kv[k]) by {
            assert(per[k] == per_key@[k]@);
        }
    }
    let (parts, entries) = tree_entries_of(&rels);
    proof {
        assert(entry_views(entries@) =~= package_tree(fs@));
    }
    let pkgs = package_names(&entries);
    proof {
        lemma_sorted_names(views(pkgs@));
    }
    let mut files: Vec<GeneratedFile> = Vec::new();
    let mut i: usize = 0;
    while i < rels.len()
        invariant
            kv == views(keys@),
            per == views(per_key@),
            rv == views(rels@),
            strictly_sorted(kv),
            kv.to_set() == equation_modules_of(fs@),
            per.len() == kv.len(),
            forall|k: int| 0 <= k < kv.len() ==> #[trigger] per[k] == relative_module(kv[k]),
            rv == sorted_names(relative_modules_of(fs@)),
            rv.to_set() == relative_modules_of(fs@),
            parts@.len() == rels@.len(),
            forall|k: int| 0 <= k < rels@.len() ==> views((#[trigger] parts@[k])@) == module_parts(rels@[k]@),
            i <= rels@.len(),
            files@.len() == i,
            forall|k: int| 0 <= k < i ==> {
                &&& views((#[trigger] files@[k]).path@) == module_file_path(rv[k])
                &&& files@[k].text@ == equation_module_text(functions_in_module(fs@, last_module_for(fs@, rv[k])))
            },
        decreases rels.len() - i,
    {
        let r = rels[i].as_str();
        assert(rels@[i as int]@ == rv[i as int]);
        proof {
            assert(rv.contains(rv[i as int]));
            assert(relative_modules_of(fs@).contains(rv[i as int]));
            lemma_relative_set(fs@, kv);
            let k = choose|k: int| 0 <= k < kv.len() && #[trigger] relative_module(kv[k]) == rv[i as int];
            assert(per_key@[k]@ == per[k]);
        }
        let found = find_relative(&per_key, r);
        let idx = match found {
            Some(idx) => idx,
            None => {
                proof {
                    let k = choose|k: int| 0 <= k < kv.len() && #[trigger] relative_module(kv[k]) == rv[i as int];
                    assert(per_key@[k]@ == per[k]);
                }
                0
            },
        };
        proof {
            assert forall|k: int| idx < k < kv.len() implies #[trigger] per[k] != r@ by {
                assert(per[k] == per_key@[k]@);
            }
            lemma_last_from_keys(fs@, kv, per, r@, idx as int);
        }
        let text = render_module_of(fs, keys[idx].as_str());
        let ps = &parts[i];
        let ghost pv = views(ps@);
        proof {
            lemma_split_nonempty(r@, '.');
        }
        let mut path: Vec<String> = Vec::new();
        let mut j: usize = 0;
        let last_index = ps.len() - 1;
        while j < last_index
            invariant
                pv == views(ps@),
                pv.len() >= 1,
                last_index == pv.len() - 1,
                j <= last_index,
                views(path@) == pv.subrange(0, j as int),
            decreases last_index - j,
        {
            let ghost old_path = views(path@);
            path.push(ps[j].clone());
            assert(views(path@) =~= old_path.push(pv[j as int]));
            assert(views(path@) =~= pv.subrange(0, j + 1));
            j = j + 1;
        }
        let mut last = ps[j].clone();
        push_str(&mut last, ".py");
        path.push(last);
        proof {
            assert(pv.drop_last() =~= pv.subrange(0, j as int));
            assert(views(path@) =~= module_file_path(rv[i as int]));
        }
        files.push(GeneratedFile { path, text });
        i = i + 1;
    }
    let n = rels.len();
    let mut q: usize = 0;
    while q < pkgs.len()
        invariant
            kv == views(keys@),
            per == views(per_key@),
            rv == views(rels@),
            strictly_sorted(kv),
            kv.to_set() == equation_modules_of(fs@),
            per_key@.len() == keys@.len(),
            forall|k: int| 0 <= k < keys@.len() ==> (#[trigger] per_key@[k])@ == relative_module(keys@[k]@),
            entry_views(entries@) == package_tree(fs@),
            views(pkgs@) == sorted_names(equation_packages(fs@)),
            n == rv.len(),
            q <= pkgs@.len(),
            files@.len() == n + q,
            forall|k: int| 0 <= k < n ==> {
                &&& views((#[trigger] files@[k]).path@) == module_file_path(rv[k])
                &&& files@[k].text@ == equation_module_text(functions_in_module(fs@, last_module_for(fs@, rv[k])))
            },
            forall|k: int| 0 <= k < q ==> {
                &&& views((#[trigger] files@[n + k]).path@) == init_file_path(views(pkgs@)[k])
                &&& files@[n + k].text@ == package_init_text(fs@, views(pkgs@)[k])
            },
        decreases pkgs.len() - q,
    {
        let p = pkgs[q].as_str();
        let text = render_package_init(fs, &keys, &per_key, &entries, p);
        let mut path = split_text(p, '.');
        path.push(String::from_str("__init__.py"));
        proof {
            assert(views(path@) =~= init_file_path(p@));
        }
        let ghost before = files@;
        files.push(GeneratedFile { path, text });
        proof {
            assert forall|k: int| 0 <= k < n implies {
                &&& views((#[trigger] files@[k]).path@) == module_file_path(rv[k])
                &&& files@[k].text@ == equation_module_text(functions_in_module(fs@, last_module_for(fs@, rv[k])))
            } by {
                assert(files@[k] == before[k]);
            }
            assert forall|k: int| 0 <= k < q + 1 implies {
                &&& views((#[trigger] files@[n + k]).path@) == init_file_path(views(pkgs@)[k])
                &&& files@[n + k].text@ == package_init_text(fs@, views(pkgs@)[k])
            } by {
                if k < q {
                    assert(files@[n + k] == before[n + k]);
                }
            }
        }
        q = q + 1;
    }
    files
}

} // verus!
