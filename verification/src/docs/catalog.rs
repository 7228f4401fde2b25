//! The unified catalog: every documented equation, family, constant, device,
//! fluid and material, and the links between them, sorted.
use vstd::prelude::*;
use crate::docs::ordered_names::{
    insert_sorted, lemma_lex_irreflexive, lemma_lex_transitive, lemma_sorted_names, lex_less, lex_lt, sorted_names,
    strictly_sorted,
};
use crate::devices::{texts, DeviceDocsEntry, DeviceGenerationSpec};
use crate::docs::catalog_pages::{FluidPage, MaterialPage};
use crate::strings::{copy_strings, push_str, views};
use crate::text::{str_eq, trim_seq, trim_str};

verus! {

// ---------------------------------------------------------------------------
// Resolver contexts
// ---------------------------------------------------------------------------

/// Variable `i` of a page names resolver context `t`: it has a resolver
/// source, that source is `t`, and `t` is not blank.
pub open spec fn names_context(sources: Seq<Option<String>>, i: int, t: Seq<char>) -> bool {
    match sources[i] {
        Some(s) => s@ == t && trim_seq(t).len() > 0,
        None => false,
    }
}

/// The resolver contexts a page's variables name.
pub open spec fn context_set(sources: Seq<Option<String>>) -> Set<Seq<char>> {
    Set::new(|t: Seq<char>| exists|i: int| 0 <= i < sources.len() && #[trigger] names_context(sources, i, t))
}

/// The resolver contexts of a page, each once, in increasing order.
pub open spec fn resolver_contexts_of(sources: Seq<Option<String>>) -> Seq<Seq<char>> {
    sorted_names(context_set(sources))
}

/// The resolver contexts a page's variables name (given the resolver source of
/// each variable), each once, in increasing order, blank ones left out.
pub fn collect_resolver_contexts(sources: &Vec<Option<String>>) -> (res: Vec<String>)
    ensures
        views(res@) == resolver_contexts_of(sources@),
{
    let mut res: Vec<String> = Vec::new();
    let mut i: usize = 0;
    assert(views(res@).to_set() =~= context_set(sources@.subrange(0, 0)));
    while i < sources.len()
        invariant
            i <= sources@.len(),
            strictly_sorted(views(res@)),
            views(res@).to_set() == context_set(sources@.subrange(0, i as int)),
        decreases sources.len() - i,
    {
        let ghost before = context_set(sources@.subrange(0, i as int));
        let ghost next = sources@.subrange(0, i + 1);
        assert forall|k: int, t: Seq<char>| 0 <= k < i implies names_context(next, k, t) == names_context(
            sources@.subrange(0, i as int),
            k,
            t,
        ) by {
            assert(next[k] == sources@[k]);
        }
        match &sources[i] {
            Some(s) => {
                if trim_str(s.as_str()).unicode_len() > 0 {
                    insert_sorted(&mut res, s.clone());
                    proof {
                        assert forall|t: Seq<char>| context_set(next).contains(t) <==> before.insert(s@).contains(t) by {
                            if context_set(next).contains(t) {
                                let k = choose|k: int| 0 <= k < next.len() && #[trigger] names_context(next, k, t);
                                if k < i {
                                    assert(names_context(sources@.subrange(0, i as int), k, t));
                                }
                            }
                            if before.contains(t) {
                                let k = choose|k: int|
                                    0 <= k < i && #[trigger] names_context(sources@.subrange(0, i as int), k, t);
                                assert(names_context(next, k, t));
                            }
                            if t == s@ {
                                assert(names_context(next, i as int, t));
                            }
                        }
                        assert(context_set(next) =~= before.insert(s@));
                    }
                } else {
                    proof {
                        assert forall|t: Seq<char>| context_set(next).contains(t) <==> before.contains(t) by {
                            if context_set(next).contains(t) {
                                let k = choose|k: int| 0 <= k < next.len() && #[trigger] names_context(next, k, t);
                                if k < i {
                                    assert(names_context(sources@.subrange(0, i as int), k, t));
                                }
                            }
                            if before.contains(t) {
                                let k = choose|k: int|
                                    0 <= k < i && #[trigger] names_context(sources@.subrange(0, i as int), k, t);
                                assert(names_context(next, k, t));
                            }
                        }
                        assert(context_set(next) =~= before);
                    }
                }
            },
            None => {
                proof {
                    assert forall|t: Seq<char>| context_set(next).contains(t) <==> before.contains(t) by {
                        if context_set(next).contains(t) {
                            let k = choose|k: int| 0 <= k < next.len() && #[trigger] names_context(next, k, t);
                            if k < i {
                                assert(names_context(sources@.subrange(0, i as int), k, t));
                            }
                        }
                        if before.contains(t) {
                            let k = choose|k: int| 0 <= k < i && #[trigger] names_context(sources@.subrange(0, i as int), k, t);
                            assert(names_context(next, k, t));
                        }
                    }
                    assert(context_set(next) =~= before);
                }
            },
        }
        i = i + 1;
    }
    proof {
        assert(sources@.subrange(0, sources@.len() as int) =~= sources@);
        lemma_sorted_names(views(res@));
    }
    res
}

// ---------------------------------------------------------------------------
// Links
// ---------------------------------------------------------------------------

/// A link of the catalog: a relation from one entry to another.
#[derive(Debug, Clone)]
pub struct CatalogLink {
    pub relation: String,
    pub from: String,
    pub to: String,
}

pub open spec fn link_view(l: CatalogLink) -> (Seq<char>, Seq<char>, Seq<char>) {
    (l.relation@, l.from@, l.to@)
}

pub open spec fn link_views(ls: Seq<CatalogLink>) -> Seq<(Seq<char>, Seq<char>, Seq<char>)> {
    ls.map_values(|l: CatalogLink| link_view(l))
}

/// Links are ordered by relation, then by where they start, then by where they end.
pub open spec fn link_lt(a: (Seq<char>, Seq<char>, Seq<char>), b: (Seq<char>, Seq<char>, Seq<char>)) -> bool {
    ||| lex_lt(a.0, b.0)
    ||| (a.0 == b.0 && lex_lt(a.1, b.1))
    ||| (a.0 == b.0 && a.1 == b.1 && lex_lt(a.2, b.2))
}

/// No link comes after one that it precedes.
pub open spec fn links_sorted(ls: Seq<(Seq<char>, Seq<char>, Seq<char>)>) -> bool {
    forall|a: int, b: int| 0 <= a < b < ls.len() ==> !link_lt(ls[b], ls[a])
}

/// No link comes before itself.
pub proof fn lemma_link_irreflexive(a: (Seq<char>, Seq<char>, Seq<char>))
    ensures
        !link_lt(a, a),
{
    lemma_lex_irreflexive(a.0);
    lemma_lex_irreflexive(a.1);
    lemma_lex_irreflexive(a.2);
}

/// The link order is transitive.
pub proof fn lemma_link_transitive(
    a: (Seq<char>, Seq<char>, Seq<char>),
    b: (Seq<char>, Seq<char>, Seq<char>),
    c: (Seq<char>, Seq<char>, Seq<char>),
)
    requires
        link_lt(a, b),
        link_lt(b, c),
    ensures
        link_lt(a, c),
{
    if lex_lt(a.0, b.0) && lex_lt(b.0, c.0) {
        lemma_lex_transitive(a.0, b.0, c.0);
    } else if a.0 == b.0 && b.0 == c.0 {
        if lex_lt(a.1, b.1) && lex_lt(b.1, c.1) {
            lemma_lex_transitive(a.1, b.1, c.1);
        } else if a.1 == b.1 && b.1 == c.1 {
            lemma_lex_transitive(a.2, b.2, c.2);
        }
    }
}

/// Compares two links in the link order.
fn link_less(a: &CatalogLink, b: &CatalogLink) -> (res: bool)
    ensures
        res == link_lt(link_view(*a), link_view(*b)),
{
    if lex_less(a.relation.as_str(), b.relation.as_str()) {
        return true;
    }
    if !str_eq(a.relation.as_str(), b.relation.as_str()) {
        return false;
    }
    if lex_less(a.from.as_str(), b.from.as_str()) {
        return true;
    }
    if !str_eq(a.from.as_str(), b.from.as_str()) {
        return false;
    }
    lex_less(a.to.as_str(), b.to.as_str())
}

/// Sorts links in the link order.
pub fn sort_links(links: Vec<CatalogLink>) -> (res: Vec<CatalogLink>)
    ensures
        links_sorted(link_views(res@)),
        link_views(res@).to_multiset() == link_views(links@).to_multiset(),
{
    let mut res: Vec<CatalogLink> = Vec::new();
    let mut i: usize = 0;
    let n = links.len();
    let ghost all = links@;
    let mut rest = links;
    assert(all.subrange(0, n as int) =~= all);
    assert(link_views(res@) =~= link_views(all.subrange(0, 0)));
    while i < n
        invariant
            n == all.len(),
            i <= n,
            rest@ == all.subrange(i as int, n as int),
            links_sorted(link_views(res@)),
            link_views(res@).to_multiset() == link_views(all.subrange(0, i as int)).to_multiset(),
        decreases n - i,
    {
        let x = rest.remove(0);
        assert(x == all[i as int]);
        assert(rest@ =~= all.subrange(i + 1, n as int));
        let mut p: usize = 0;
        while p < res.len() && !link_less(&x, &res[p])
            invariant
                p <= res@.len(),
                forall|k: int| 0 <= k < p ==> !link_lt(link_view(x), link_view(res@[k])),
            decreases res.len() - p,
        {
            p = p + 1;
        }
        let ghost old_res = res@;
        let ghost ov = link_views(old_res);
        let ghost xv = link_view(x);
        proof {
            assert forall|m: int| p <= m < ov.len() implies !link_lt(#[trigger] ov[m], xv) by {
                if link_lt(ov[m], xv) {
                    assert(link_lt(xv, ov[p as int]));
                    lemma_link_transitive(ov[m], xv, ov[p as int]);
                    if m > p {
                        assert(!link_lt(ov[m], ov[p as int]));
                    } else {
                        lemma_link_irreflexive(ov[p as int]);
                    }
                }
            }
        }
        res.insert(p, x);
        proof {
            let nv = link_views(res@);
            assert(nv =~= ov.insert(p as int, xv));
            assert forall|a: int, b: int| 0 <= a < b < nv.len() implies !link_lt(nv[b], nv[a]) by {
                if a < p && b == p {
                    assert(nv[a] == ov[a]);
                } else if a < p && b > p {
                    assert(nv[a] == ov[a]);
                    assert(nv[b] == ov[b - 1]);
                } else if a == p {
                    assert(nv[b] == ov[b - 1]);
                } else if a > p {
                    assert(nv[a] == ov[a - 1]);
                    assert(nv[b] == ov[b - 1]);
                } else {
                    assert(nv[a] == ov[a]);
                    assert(nv[b] == ov[b]);
                }
            }
            vstd::seq_lib::to_multiset_insert(ov, p as int, xv);
            assert(link_views(all.subrange(0, i + 1)) =~= link_views(all.subrange(0, i as int)).push(link_view(all[i as int])));
            vstd::seq_lib::to_multiset_build(link_views(all.subrange(0, i as int)), link_view(all[i as int]));
        }
        i = i + 1;
    }
    res
}

// ---------------------------------------------------------------------------
// What the catalog is built from
// ---------------------------------------------------------------------------

/// What the catalog takes of an equation: its identity, where it is filed, its
/// default target, the constants it uses, and the resolver source of each of
/// its variables.
#[derive(Debug, Clone)]
pub struct CatalogEquationSource {
    pub key: String,
    pub path_id: String,
    pub name: String,
    pub category: String,
    pub subcategories: Vec<String>,
    pub default_target: Option<String>,
    pub uses_constants: Vec<String>,
    pub resolver_sources: Vec<Option<String>>,
}

/// What the catalog takes of a family variant, with the route of its equation's page.
#[derive(Debug, Clone)]
pub struct CatalogVariantSource {
    pub key: String,
    pub name: String,
    pub equation_id: String,
    pub display_latex: String,
    pub when_to_use: String,
    pub equation_route: String,
}

/// What the catalog takes of an equation family, with the route of its page.
#[derive(Debug, Clone)]
pub struct CatalogFamilySource {
    pub key: String,
    pub name: String,
    pub description: String,
    pub canonical_law: String,
    pub canonical_equation: String,
    pub route: String,
    pub variants: Vec<CatalogVariantSource>,
}

// ---------------------------------------------------------------------------
// The links each entry contributes
// ---------------------------------------------------------------------------

/// An equation uses each of its constants, then each of its resolver contexts.
pub open spec fn equation_links(e: CatalogEquationSource) -> Seq<(Seq<char>, Seq<char>, Seq<char>)> {
    e.uses_constants@.map_values(|u: String| ("equation_uses_constant"@, e.path_id@, u@))
        + resolver_contexts_of(e.resolver_sources@).map_values(
        |c: Seq<char>| ("equation_uses_context"@, e.path_id@, c),
    )
}

pub open spec fn all_equation_links(es: Seq<CatalogEquationSource>) -> Seq<(Seq<char>, Seq<char>, Seq<char>)>
    decreases es.len(),
{
    if es.len() == 0 {
        Seq::empty()
    } else {
        all_equation_links(es.drop_last()) + equation_links(es.last())
    }
}

/// The route of a variant: the family's key and the variant's, dot separated.
pub open spec fn variant_route(family_key: Seq<char>, variant_key: Seq<char>) -> Seq<char> {
    family_key + "."@ + variant_key
}

/// A family names its canonical equation, and each variant maps to its equation.
pub open spec fn family_links(f: CatalogFamilySource) -> Seq<(Seq<char>, Seq<char>, Seq<char>)> {
    seq![("family_canonical_equation"@, f.key@, f.canonical_equation@)] + f.variants@.map_values(
        |v: CatalogVariantSource| ("family_variant_maps_to_equation"@, variant_route(f.key@, v.key@), v.equation_id@),
    )
}

pub open spec fn all_family_links(fs: Seq<CatalogFamilySource>) -> Seq<(Seq<char>, Seq<char>, Seq<char>)>
    decreases fs.len(),
{
    if fs.len() == 0 {
        Seq::empty()
    } else {
        all_family_links(fs.drop_last()) + family_links(fs.last())
    }
}

/// The equations the first spec from position `i` on with the given key
/// depends on, or none when no spec has that key.
pub open spec fn dependencies_from(specs: Seq<DeviceGenerationSpec>, key: Seq<char>, i: int) -> Seq<Seq<char>>
    decreases specs.len() - i,
{
    if i < 0 || i >= specs.len() {
        Seq::empty()
    } else if specs[i].key@ == key {
        texts(specs[i].equation_dependencies@)
    } else {
        dependencies_from(specs, key, i + 1)
    }
}

pub open spec fn device_dependencies(specs: Seq<DeviceGenerationSpec>, key: Seq<char>) -> Seq<Seq<char>> {
    dependencies_from(specs, key, 0)
}

/// A device uses each equation its spec depends on.
pub open spec fn device_links(d: DeviceDocsEntry, specs: Seq<DeviceGenerationSpec>) -> Seq<(Seq<char>, Seq<char>, Seq<char>)> {
    device_dependencies(specs, d.key@).map_values(|q: Seq<char>| ("device_uses_equation"@, d.key@, q))
}

pub open spec fn all_device_links(ds: Seq<DeviceDocsEntry>, specs: Seq<DeviceGenerationSpec>) -> Seq<
    (Seq<char>, Seq<char>, Seq<char>),
>
    decreases ds.len(),
{
    if ds.len() == 0 {
        Seq::empty()
    } else {
        all_device_links(ds.drop_last(), specs) + device_links(ds.last(), specs)
    }
}

/// Every link of the catalog, in the order the entries contribute them.
pub open spec fn contributed_links(
    es: Seq<CatalogEquationSource>,
    fs: Seq<CatalogFamilySource>,
    ds: Seq<DeviceDocsEntry>,
    specs: Seq<DeviceGenerationSpec>,
) -> Seq<(Seq<char>, Seq<char>, Seq<char>)> {
    all_equation_links(es) + all_family_links(fs) + all_device_links(ds, specs)
}

fn make_link(relation: &str, from: &str, to: &str) -> (res: CatalogLink)
    ensures
        link_view(res) == (relation@, from@, to@),
{
    CatalogLink { relation: String::from_str(relation), from: String::from_str(from), to: String::from_str(to) }
}

fn push_equation_links(out: &mut Vec<CatalogLink>, e: &CatalogEquationSource)
    ensures
        link_views(final(out)@) == link_views(old(out)@) + equation_links(*e),
{
    let ghost start = link_views(out@);
    let mut i: usize = 0;
    while i < e.uses_constants.len()
        invariant
            i <= e.uses_constants@.len(),
            link_views(out@) == start + e.uses_constants@.subrange(0, i as int).map_values(
                |u: String| ("equation_uses_constant"@, e.path_id@, u@),
            ),
        decreases e.uses_constants.len() - i,
    {
        let l = make_link("equation_uses_constant", e.path_id.as_str(), e.uses_constants[i].as_str());
        let ghost before = link_views(out@);
        out.push(l);
        proof {
            assert(link_views(out@) =~= before.push(link_view(l)));
            assert(e.uses_constants@.subrange(0, i + 1).map_values(|u: String| ("equation_uses_constant"@, e.path_id@, u@))
                =~= e.uses_constants@.subrange(0, i as int).map_values(
                |u: String| ("equation_uses_constant"@, e.path_id@, u@),
            ).push(link_view(l)));
        }
        i = i + 1;
    }
    assert(e.uses_constants@.subrange(0, e.uses_constants@.len() as int) =~= e.uses_constants@);
    let contexts = collect_resolver_contexts(&e.resolver_sources);
    let ghost mid = link_views(out@);
    let mut j: usize = 0;
    while j < contexts.len()
        invariant
            j <= contexts@.len(),
            link_views(out@) == mid + views(contexts@).subrange(0, j as int).map_values(
                |c: Seq<char>| ("equation_uses_context"@, e.path_id@, c),
            ),
        decreases contexts.len() - j,
    {
        let l = make_link("equation_uses_context", e.path_id.as_str(), contexts[j].as_str());
        let ghost before = link_views(out@);
        out.push(l);
        proof {
            assert(link_views(out@) =~= before.push(link_view(l)));
            assert(views(contexts@).subrange(0, j + 1).map_values(|c: Seq<char>| ("equation_uses_context"@, e.path_id@, c))
                =~= views(contexts@).subrange(0, j as int).map_values(
                |c: Seq<char>| ("equation_uses_context"@, e.path_id@, c),
            ).push(link_view(l)));
        }
        j = j + 1;
    }
    assert(views(contexts@).subrange(0, contexts@.len() as int) =~= views(contexts@));
}

fn push_family_links(out: &mut Vec<CatalogLink>, f: &CatalogFamilySource)
    ensures
        link_views(final(out)@) == link_views(old(out)@) + family_links(*f),
{
    let ghost start = link_views(out@);
    let first = make_link("family_canonical_equation", f.key.as_str(), f.canonical_equation.as_str());
    out.push(first);
    let ghost head = start.push(link_view(first));
    assert(link_views(out@) =~= head);
    let mut i: usize = 0;
    while i < f.variants.len()
        invariant
            i <= f.variants@.len(),
            link_views(out@) == head + f.variants@.subrange(0, i as int).map_values(
                |v: CatalogVariantSource| ("family_variant_maps_to_equation"@, variant_route(f.key@, v.key@), v.equation_id@),
            ),
        decreases f.variants.len() - i,
    {
        let mut from = f.key.clone();
        push_str(&mut from, ".");
        push_str(&mut from, f.variants[i].key.as_str());
        let l = make_link("family_variant_maps_to_equation", from.as_str(), f.variants[i].equation_id.as_str());
        let ghost before = link_views(out@);
        out.push(l);
        proof {
            assert(link_views(out@) =~= before.push(link_view(l)));
            assert(f.variants@.subrange(0, i + 1).map_values(
                |v: CatalogVariantSource| ("family_variant_maps_to_equation"@, variant_route(f.key@, v.key@), v.equation_id@),
            ) =~= f.variants@.subrange(0, i as int).map_values(
                |v: CatalogVariantSource| ("family_variant_maps_to_equation"@, variant_route(f.key@, v.key@), v.equation_id@),
            ).push(link_view(l)));
        }
        i = i + 1;
    }
    assert(f.variants@.subrange(0, f.variants@.len() as int) =~= f.variants@);
    assert(head + f.variants@.map_values(
        |v: CatalogVariantSource| ("family_variant_maps_to_equation"@, variant_route(f.key@, v.key@), v.equation_id@),
    ) =~= start + family_links(*f));
}

/// The equations the device with the given key depends on, by its spec; none
/// when no spec has that key.
pub fn device_equation_dependencies(specs: &Vec<DeviceGenerationSpec>, key: &str) -> (res: Vec<&'static str>)
    ensures
        texts(res@) == device_dependencies(specs@, key@),
{
    let mut i: usize = 0;
    while i < specs.len()
        invariant
            i <= specs@.len(),
            dependencies_from(specs@, key@, i as int) == device_dependencies(specs@, key@),
        decreases specs.len() - i,
    {
        if str_eq(specs[i].key, key) {
            let mut res: Vec<&'static str> = Vec::new();
            let mut k: usize = 0;
            while k < specs[i].equation_dependencies.len()
                invariant
                    i < specs@.len(),
                    k <= specs@[i as int].equation_dependencies@.len(),
                    res@ == specs@[i as int].equation_dependencies@.subrange(0, k as int),
                decreases specs@[i as int].equation_dependencies@.len() - k,
            {
                res.push(specs[i].equation_dependencies[k]);
                proof {
                    assert(res@ =~= specs@[i as int].equation_dependencies@.subrange(0, k + 1));
                }
                k = k + 1;
            }
            assert(res@ =~= specs@[i as int].equation_dependencies@);
            return res;
        }
        i = i + 1;
    }
    Vec::new()
}

fn push_device_links(out: &mut Vec<CatalogLink>, d: &DeviceDocsEntry, specs: &Vec<DeviceGenerationSpec>)
    ensures
        link_views(final(out)@) == link_views(old(out)@) + device_links(*d, specs@),
{
    let deps = device_equation_dependencies(specs, d.key.as_str());
    let ghost start = link_views(out@);
    let mut i: usize = 0;
    while i < deps.len()
        invariant
            i <= deps@.len(),
            link_views(out@) == start + texts(deps@).subrange(0, i as int).map_values(
                |q: Seq<char>| ("device_uses_equation"@, d.key@, q),
            ),
        decreases deps.len() - i,
    {
        let l = make_link("device_uses_equation", d.key.as_str(), deps[i]);
        let ghost before = link_views(out@);
        out.push(l);
        proof {
            assert(link_views(out@) =~= before.push(link_view(l)));
            assert(texts(deps@).subrange(0, i + 1).map_values(|q: Seq<char>| ("device_uses_equation"@, d.key@, q))
                =~= texts(deps@).subrange(0, i as int).map_values(
                |q: Seq<char>| ("device_uses_equation"@, d.key@, q),
            ).push(link_view(l)));
        }
        i = i + 1;
    }
    assert(texts(deps@).subrange(0, deps@.len() as int) =~= texts(deps@));
}

/// The catalog's links: every link the equations, families and devices
/// contribute, sorted by relation, start and end.
pub fn catalog_links(
    equations: &Vec<CatalogEquationSource>,
    families: &Vec<CatalogFamilySource>,
    devices: &Vec<DeviceDocsEntry>,
    specs: &Vec<DeviceGenerationSpec>,
) -> (res: Vec<CatalogLink>)
    ensures
        links_sorted(link_views(res@)),
        link_views(res@).to_multiset() == contributed_links(equations@, families@, devices@, specs@).to_multiset(),
{
    let mut links: Vec<CatalogLink> = Vec::new();
    let mut i: usize = 0;
    while i < equations.len()
        invariant
            i <= equations@.len(),
            link_views(links@) == all_equation_links(equations@.subrange(0, i as int)),
        decreases equations.len() - i,
    {
        push_equation_links(&mut links, &equations[i]);
        assert(equations@.subrange(0, i + 1).drop_last() =~= equations@.subrange(0, i as int));
        i = i + 1;
    }
    assert(equations@.subrange(0, equations@.len() as int) =~= equations@);
    let ghost eq_links = link_views(links@);
    let mut j: usize = 0;
    while j < families.len()
        invariant
            j <= families@.len(),
            link_views(links@) == eq_links + all_family_links(families@.subrange(0, j as int)),
        decreases families.len() - j,
    {
        push_family_links(&mut links, &families[j]);
        assert(families@.subrange(0, j + 1).drop_last() =~= families@.subrange(0, j as int));
        j = j + 1;
    }
    assert(families@.subrange(0, families@.len() as int) =~= families@);
    let ghost fam_links = link_views(links@);
    let mut k: usize = 0;
    while k < devices.len()
        invariant
            k <= devices@.len(),
            link_views(links@) == fam_links + all_device_links(devices@.subrange(0, k as int), specs@),
        decreases devices.len() - k,
    {
        push_device_links(&mut links, &devices[k], specs);
        assert(devices@.subrange(0, k + 1).drop_last() =~= devices@.subrange(0, k as int));
        k = k + 1;
    }
    assert(devices@.subrange(0, devices@.len() as int) =~= devices@);
    assert(link_views(links@) == contributed_links(equations@, families@, devices@, specs@));
    sort_links(links)
}

// ---------------------------------------------------------------------------
// The catalog
// ---------------------------------------------------------------------------

/// An equation as the catalog lists it.
#[derive(Debug, Clone)]
pub struct UnifiedEquationEntry {
    pub key: String,
    pub path_id: String,
    pub name: String,
    pub category: String,
    pub subcategories: Vec<String>,
    pub default_target: Option<String>,
    pub uses_constants: Vec<String>,
    pub resolver_contexts: Vec<String>,
}

/// A family variant as the catalog lists it.
#[derive(Debug, Clone)]
pub struct FamilyVariantCatalogItem {
    pub key: String,
    pub name: String,
    pub equation_id: String,
    pub display_latex: String,
    pub when_to_use: String,
    pub route: String,
    pub equation_route: String,
}

/// An equation family as the catalog lists it.
#[derive(Debug, Clone)]
pub struct FamilyCatalogItem {
    pub key: String,
    pub name: String,
    pub description: String,
    pub canonical_law: String,
    pub canonical_equation: String,
    pub route: String,
    pub variants: Vec<FamilyVariantCatalogItem>,
}

/// The unified catalog; constant records are carried as they were given.
#[derive(Debug, Clone)]
pub struct UnifiedCatalog<C> {
    pub equations: Vec<UnifiedEquationEntry>,
    pub families: Vec<FamilyCatalogItem>,
    pub constants: Vec<C>,
    pub devices: Vec<DeviceDocsEntry>,
    pub fluids: Vec<FluidPage>,
    pub materials: Vec<MaterialPage>,
    pub links: Vec<CatalogLink>,
}

/// The entry repeats the equation's fields and lists its resolver contexts.
pub open spec fn equation_entry_matches(r: UnifiedEquationEntry, e: CatalogEquationSource) -> bool {
    &&& r.key == e.key
    &&& r.path_id == e.path_id
    &&& r.name == e.name
    &&& r.category == e.category
    &&& r.subcategories@ == e.subcategories@
    &&& r.default_target == e.default_target
    &&& r.uses_constants@ == e.uses_constants@
    &&& views(r.resolver_contexts@) == resolver_contexts_of(e.resolver_sources@)
}

/// The item repeats the variant's fields, with its route under the family.
pub open spec fn variant_item_matches(r: FamilyVariantCatalogItem, v: CatalogVariantSource, family_key: Seq<char>) -> bool {
    &&& r.key == v.key
    &&& r.name == v.name
    &&& r.equation_id == v.equation_id
    &&& r.display_latex == v.display_latex
    &&& r.when_to_use == v.when_to_use
    &&& r.route@ == variant_route(family_key, v.key@)
    &&& r.equation_route == v.equation_route
}

/// The item repeats the family's fields and its variants, in order.
pub open spec fn family_item_matches(r: FamilyCatalogItem, f: CatalogFamilySource) -> bool {
    &&& r.key == f.key
    &&& r.name == f.name
    &&& r.description == f.description
    &&& r.canonical_law == f.canonical_law
    &&& r.canonical_equation == f.canonical_equation
    &&& r.route == f.route
    &&& r.variants@.len() == f.variants@.len()
    &&& forall|i: int| 0 <= i < f.variants@.len() ==> variant_item_matches(#[trigger] r.variants@[i], f.variants@[i], f.key@)
}

fn copy_option(o: &Option<String>) -> (res: Option<String>)
    ensures
        res == *o,
{
    match o {
        Some(s) => Some(s.clone()),
        None => None,
    }
}

fn equation_entry(e: &CatalogEquationSource) -> (res: UnifiedEquationEntry)
    ensures
        equation_entry_matches(res, *e),
{
    UnifiedEquationEntry {
        key: e.key.clone(),
        path_id: e.path_id.clone(),
        name: e.name.clone(),
        category: e.category.clone(),
        subcategories: copy_strings(&e.subcategories),
        default_target: copy_option(&e.default_target),
        uses_constants: copy_strings(&e.uses_constants),
        resolver_contexts: collect_resolver_contexts(&e.resolver_sources),
    }
}

fn family_item(f: &CatalogFamilySource) -> (res: FamilyCatalogItem)
    ensures
        family_item_matches(res, *f),
{
    let mut variants: Vec<FamilyVariantCatalogItem> = Vec::new();
    let mut i: usize = 0;
    while i < f.variants.len()
        invariant
            i <= f.variants@.len(),
            variants@.len() == i,
            forall|k: int| 0 <= k < i ==> variant_item_matches(#[trigger] variants@[k], f.variants@[k], f.key@),
        decreases f.variants.len() - i,
    {
        let v = &f.variants[i];
        let mut route = f.key.clone();
        push_str(&mut route, ".");
        push_str(&mut route, v.key.as_str());
        variants.push(
            FamilyVariantCatalogItem {
                key: v.key.clone(),
                name: v.name.clone(),
                equation_id: v.equation_id.clone(),
                display_latex: v.display_latex.clone(),
                when_to_use: v.when_to_use.clone(),
                route,
                equation_route: v.equation_route.clone(),
            },
        );
        i = i + 1;
    }
    FamilyCatalogItem {
        key: f.key.clone(),
        name: f.name.clone(),
        description: f.description.clone(),
        canonical_law: f.canonical_law.clone(),
        canonical_equation: f.canonical_equation.clone(),
        route: f.route.clone(),
        variants,
    }
}

/// Builds the unified catalog: an entry per equation and per family, the
/// constants, devices, fluids and materials as given, and every link the
/// equations, families and devices contribute (devices by the equations their
/// specs depend on), sorted by relation, start and end.
pub fn build_unified_catalog<C>(
    equations: &Vec<CatalogEquationSource>,
    families: &Vec<CatalogFamilySource>,
    constants: Vec<C>,
    devices: Vec<DeviceDocsEntry>,
    fluids: Vec<FluidPage>,
    materials: Vec<MaterialPage>,
    specs: &Vec<DeviceGenerationSpec>,
) -> (res: UnifiedCatalog<C>)
    ensures
        res.equations@.len() == equations@.len(),
        forall|i: int| 0 <= i < equations@.len() ==> equation_entry_matches(#[trigger] res.equations@[i], equations@[i]),
        res.families@.len() == families@.len(),
        forall|i: int| 0 <= i < families@.len() ==> family_item_matches(#[trigger] res.families@[i], families@[i]),
        res.constants == constants,
        res.devices == devices,
        res.fluids == fluids,
        res.materials == materials,
        links_sorted(link_views(res.links@)),
        link_views(res.links@).to_multiset() == contributed_links(equations@, families@, devices@, specs@).to_multiset(),
{
    let mut entries: Vec<UnifiedEquationEntry> = Vec::new();
    let mut i: usize = 0;
    while i < equations.len()
        invariant
            i <= equations@.len(),
            entries@.len() == i,
            forall|k: int| 0 <= k < i ==> equation_entry_matches(#[trigger] entries@[k], equations@[k]),
        decreases equations.len() - i,
    {
        entries.push(equation_entry(&equations[i]));
        i = i + 1;
    }
    let mut items: Vec<FamilyCatalogItem> = Vec::new();
    let mut j: usize = 0;
    while j < families.len()
        invariant
            j <= families@.len(),
            items@.len() == j,
            forall|k: int| 0 <= k < j ==> family_item_matches(#[trigger] items@[k], families@[k]),
        decreases families.len() - j,
    {
        items.push(family_item(&families[j]));
        j = j + 1;
    }
    let links = catalog_links(equations, families, &devices, specs);
    UnifiedCatalog { equations: entries, families: items, constants, devices, fluids, materials, links }
}

} // verus!
