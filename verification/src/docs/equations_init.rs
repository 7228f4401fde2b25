//! The `engpy.equations` package `__init__.py`: it imports each top-level
//! equation package once, in name order, and offers a generic solve.
use vstd::prelude::*;
use crate::docs::binding_text::{BindingFunction, BindingManifest};
use crate::docs::naming::{snake_case, snake_case_of};
use crate::docs::ordered_names::{insert_sorted, strictly_sorted};
use crate::strings::{concat_seq, push_str, views};
use crate::text::{has_prefix, starts_with, string_from_chars};

verus! {

/// `s` up to its first `c`, or all of it.
pub open spec fn before_char(s: Seq<char>, c: char) -> Seq<char>
    decreases s.len(),
{
    if s.len() == 0 {
        s
    } else if s[0] == c {
        Seq::empty()
    } else {
        seq![s[0]] + before_char(s.drop_first(), c)
    }
}

/// The top-level package of an equation module `equations.<package>[.<rest>]`,
/// in snake case.
pub open spec fn top_level_package(module: Seq<char>) -> Seq<char> {
    snake_case_of(before_char(module.subrange(10, module.len() as int), '.'))
}

pub open spec fn is_equation_module(module: Seq<char>) -> bool {
    has_prefix(module, "equations."@)
}

/// The top-level packages of the equation modules among the given functions.
pub open spec fn top_level_packages(fs: Seq<BindingFunction>) -> Set<Seq<char>> {
    Set::new(
        |n: Seq<char>|
            exists|i: int|
                0 <= i < fs.len() && is_equation_module(fs[i].python_module@) && n == top_level_package(
                    fs[i].python_module@,
                ),
    )
}

/// The generic solve that the package offers beside its subpackages.
pub const EQUATIONS_SOLVE_FALLBACK: &'static str = "def solve(path_id, target, **inputs):\n    \"\"\"Generic equation solve fallback.\n\nArgs:\n  path_id: equation id (for example 'fluids.reynolds_number')\n  target: solve target variable key\n  **inputs: named solve inputs\nReturns:\n  f64\n\"\"\"\n    args = {\"path_id\": path_id, \"target\": target}\n    args.update(inputs)\n    return invoke(\"equation.solve\", args)\n\n";

/// The package file for the given package names, in the given order.
pub open spec fn equations_init_text(names: Seq<Seq<char>>) -> Seq<char> {
    "from engpy._runtime import invoke\n\n"@ + concat_seq(names.map_values(|n: Seq<char>| "from . import "@ + n + "\n"@))
        + "\n"@ + EQUATIONS_SOLVE_FALLBACK@ + "__all__ = [\n"@ + concat_seq(
        names.map_values(|n: Seq<char>| "    \""@ + n + "\",\n"@),
    ) + "    \"solve\",\n"@ + "]\n"@
}

fn package_of(module: &str) -> (res: String)
    requires
        is_equation_module(module@),
    ensures
        res@ == top_level_package(module@),
{
    proof {
        reveal_strlit("equations.");
    }
    let n = module.unicode_len();
    let ghost rest = module@.subrange(10, n as int);
    let mut head: Vec<char> = Vec::new();
    let mut i: usize = 10;
    assert(module@.subrange(10, n as int) =~= rest);
    while i < n && module.get_char(i) != '.'
        invariant
            n == module@.len(),
            10 <= i <= n,
            rest == module@.subrange(10, n as int),
            before_char(rest, '.') == head@ + before_char(module@.subrange(i as int, n as int), '.'),
        decreases n - i,
    {
        let c = module.get_char(i);
        proof {
            let t = module@.subrange(i as int, n as int);
            assert(t[0] == c);
            assert(t.drop_first() =~= module@.subrange(i + 1, n as int));
            assert(before_char(t, '.') == seq![c] + before_char(t.drop_first(), '.'));
        }
        head.push(c);
        proof {
            assert(head@.drop_last() + seq![c] + before_char(module@.subrange(i + 1, n as int), '.') =~= head@
                + before_char(module@.subrange(i + 1, n as int), '.'));
        }
        i = i + 1;
    }
    proof {
        let t = module@.subrange(i as int, n as int);
        if i < n {
            assert(t[0] == '.');
        } else {
            assert(t.len() == 0);
        }
        assert(before_char(t, '.') =~= Seq::<char>::empty());
        assert(head@ + Seq::<char>::empty() =~= head@);
    }
    let h = string_from_chars(head.as_slice());
    snake_case(h.as_str())
}

/// The top-level equation packages of the manifest, each once, in name order.
pub fn equations_top_level_packages(manifest: &BindingManifest) -> (names: Vec<String>)
    ensures
        strictly_sorted(views(names@)),
        views(names@).to_set() == top_level_packages(manifest.functions@),
{
    let fs = &manifest.functions;
    let mut names: Vec<String> = Vec::new();
    let mut i: usize = 0;
    assert(views(names@).to_set() =~= top_level_packages(fs@.subrange(0, 0)));
    while i < fs.len()
        invariant
            i <= fs@.len(),
            strictly_sorted(views(names@)),
            views(names@).to_set() == top_level_packages(fs@.subrange(0, i as int)),
        decreases fs.len() - i,
    {
        let ghost before = views(names@).to_set();
        let m = fs[i].python_module.as_str();
        if starts_with(m, "equations.") {
            let p = package_of(m);
            let ghost pv = p@;
            insert_sorted(&mut names, p);
            proof {
                assert forall|n: Seq<char>| #[trigger] top_level_packages(fs@.subrange(0, i + 1)).contains(n)
                    <==> before.insert(pv).contains(n) by {
                    if top_level_packages(fs@.subrange(0, i + 1)).contains(n) {
                        let k = choose|k: int| #![trigger fs@.subrange(0, i + 1)[k]] 0 <= k < i + 1 && is_equation_module(fs@.subrange(0, i + 1)[k].python_module@)
                            && n == top_level_package(fs@.subrange(0, i + 1)[k].python_module@);
                        if k < i {
                            assert(fs@.subrange(0, i as int)[k] == fs@.subrange(0, i + 1)[k]);
                            assert(top_level_packages(fs@.subrange(0, i as int)).contains(n));
                        }
                    }
                    if before.contains(n) {
                        let k = choose|k: int| #![trigger fs@.subrange(0, i as int)[k]] 0 <= k < i && is_equation_module(fs@.subrange(0, i as int)[k].python_module@)
                            && n == top_level_package(fs@.subrange(0, i as int)[k].python_module@);
                        assert(fs@.subrange(0, i + 1)[k] == fs@.subrange(0, i as int)[k]);
                    }
                    if n == pv {
                        assert(fs@.subrange(0, i + 1)[i as int] == fs@[i as int]);
                    }
                }
                assert(top_level_packages(fs@.subrange(0, i + 1)) =~= before.insert(pv));
            }
        } else {
            proof {
                assert forall|n: Seq<char>| #[trigger] top_level_packages(fs@.subrange(0, i + 1)).contains(n)
                    <==> before.contains(n) by {
                    if top_level_packages(fs@.subrange(0, i + 1)).contains(n) {
                        let k = choose|k: int| #![trigger fs@.subrange(0, i + 1)[k]] 0 <= k < i + 1 && is_equation_module(fs@.subrange(0, i + 1)[k].python_module@)
                            && n == top_level_package(fs@.subrange(0, i + 1)[k].python_module@);
                        assert(fs@.subrange(0, i + 1)[k] == fs@[k]);
                        assert(k != i);
                        assert(fs@.subrange(0, i as int)[k] == fs@[k]);
                    }
                    if before.contains(n) {
                        let k = choose|k: int| #![trigger fs@.subrange(0, i as int)[k]] 0 <= k < i && is_equation_module(fs@.subrange(0, i as int)[k].python_module@)
                            && n == top_level_package(fs@.subrange(0, i as int)[k].python_module@);
                        assert(fs@.subrange(0, i + 1)[k] == fs@.subrange(0, i as int)[k]);
                    }
                }
                assert(top_level_packages(fs@.subrange(0, i + 1)) =~= before);
            }
        }
        i = i + 1;
    }
    assert(fs@.subrange(0, fs@.len() as int) =~= fs@);
    names
}

/// Renders the `engpy.equations` package file: its top-level packages are
/// imported and exported once each, in name order.
pub fn render_python_equations_init(manifest: &BindingManifest) -> (res: String)
    ensures
        exists|names: Seq<Seq<char>>| strictly_sorted(names) && names.to_set() == top_level_packages(manifest.functions@)
            && res@ == equations_init_text(names),
{
    let names = equations_top_level_packages(manifest);
    let ghost nv = views(names@);
    let mut out = String::from_str("from engpy._runtime import invoke\n\n");
    let ghost s0 = out@;
    let mut i: usize = 0;
    while i < names.len()
        invariant
            i <= names@.len(),
            nv == views(names@),
            out@ == s0 + concat_seq(nv.subrange(0, i as int).map_values(|n: Seq<char>| "from . import "@ + n + "\n"@)),
        decreases names.len() - i,
    {
        push_str(&mut out, "from . import ");
        push_str(&mut out, names[i].as_str());
        push_str(&mut out, "\n");
        proof {
            let t = nv.subrange(0, i + 1).map_values(|n: Seq<char>| "from . import "@ + n + "\n"@);
            assert(t.drop_last() =~= nv.subrange(0, i as int).map_values(|n: Seq<char>| "from . import "@ + n + "\n"@));
        }
        i = i + 1;
    }
    assert(nv.subrange(0, nv.len() as int) =~= nv);
    push_str(&mut out, "\n");
    push_str(&mut out, EQUATIONS_SOLVE_FALLBACK);
    push_str(&mut out, "__all__ = [\n");
    let ghost s1 = out@;
    let mut j: usize = 0;
    while j < names.len()
        invariant
            j <= names@.len(),
            nv == views(names@),
            out@ == s1 + concat_seq(nv.subrange(0, j as int).map_values(|n: Seq<char>| "    \""@ + n + "\",\n"@)),
        decreases names.len() - j,
    {
        push_str(&mut out, "    \"");
        push_str(&mut out, names[j].as_str());
        push_str(&mut out, "\",\n");
        proof {
            let t = nv.subrange(0, j + 1).map_values(|n: Seq<char>| "    \""@ + n + "\",\n"@);
            assert(t.drop_last() =~= nv.subrange(0, j as int).map_values(|n: Seq<char>| "    \""@ + n + "\",\n"@));
        }
        j = j + 1;
    }
    push_str(&mut out, "    \"solve\",\n");
    push_str(&mut out, "]\n");
    assert(out@ =~= equations_init_text(nv));
    out
}

} // verus!
