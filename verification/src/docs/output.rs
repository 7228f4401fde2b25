//! Where the generated handbook goes, and what an HTML export reports.
//! Paths are `/`-separated text; the program turns them into platform paths.
use vstd::prelude::*;
use crate::docs::pages::{missing_mdbook_message, MISSING_MDBOOK_MESSAGE};
use crate::strings::push_str;

verus! {

/// `base` followed by the relative path `rel`, with one separator between them
/// unless `base` is empty or already ends with one.
pub open spec fn join_path(base: Seq<char>, rel: Seq<char>) -> Seq<char> {
    if base.len() == 0 {
        rel
    } else if base.last() == '/' {
        base + rel
    } else {
        base + "/"@ + rel
    }
}

/// Appends a relative path to a base path.
pub fn join(base: &str, rel: &str) -> (res: String)
    ensures
        res@ == join_path(base@, rel@),
{
    let n = base.unicode_len();
    let mut out = String::from_str(base);
    if n > 0 && base.get_char(n - 1) != '/' {
        push_str(&mut out, "/");
    }
    push_str(&mut out, rel);
    out
}

/// The generated output root inside a workspace: `<workspace>/generated`.
pub fn default_generated_root(workspace_root: &str) -> (res: String)
    ensures
        res@ == join_path(workspace_root@, "generated"@),
{
    join(workspace_root, "generated")
}

/// The book source root inside a workspace: `<workspace>/generated/book`.
pub fn default_book_root(workspace_root: &str) -> (res: String)
    ensures
        res@ == join_path(join_path(workspace_root@, "generated"@), "book"@),
{
    let g = default_generated_root(workspace_root);
    join(g.as_str(), "book")
}

/// The PDF handbook inside a workspace: `<workspace>/generated/engineering_handbook.pdf`.
pub fn default_pdf_path(workspace_root: &str) -> (res: String)
    ensures
        res@ == join_path(join_path(workspace_root@, "generated"@), "engineering_handbook.pdf"@),
{
    let g = default_generated_root(workspace_root);
    join(g.as_str(), "engineering_handbook.pdf")
}

/// Where an mdBook export puts its source, its HTML and the HTML entry page.
#[derive(Debug, Clone)]
pub struct MdBookPaths {
    pub source_dir: String,
    pub html_dir: String,
    pub html_index: String,
}

/// The layout of an mdBook export into `out_dir`: the source in `out_dir`, the
/// HTML in `out_dir/book`, the entry page at `out_dir/book/index.html`.
pub fn mdbook_paths(out_dir: &str) -> (p: MdBookPaths)
    ensures
        p.source_dir@ == out_dir@,
        p.html_dir@ == join_path(out_dir@, "book"@),
        p.html_index@ == join_path(join_path(out_dir@, "book"@), "index.html"@),
{
    let html_dir = join(out_dir, "book");
    let html_index = join(html_dir.as_str(), "index.html");
    MdBookPaths { source_dir: String::from_str(out_dir), html_dir, html_index }
}

/// What became of the HTML build.
#[derive(Debug, Clone)]
pub enum HtmlBuildStatus {
    Built,
    MdBookNotInstalled { message: String },
}

/// The report of an HTML export.
#[derive(Debug, Clone)]
pub struct HtmlExportReport {
    pub paths: MdBookPaths,
    pub status: HtmlBuildStatus,
}

/// How running `mdbook build` ended.
#[derive(Debug, Clone)]
pub enum MdBookBuildOutcome {
    Succeeded,
    NotInstalled,
    Failed(String),
}

/// `mdbook build failed for <source>: <detail>`.
pub open spec fn build_failure_text(source: Seq<char>, detail: Seq<char>) -> Seq<char> {
    "mdbook build failed for "@ + source + ": "@ + detail
}

/// The report of an HTML export from how the build ended: a finished build is
/// reported built, a missing `mdbook` is reported with installation advice, and
/// a failed build is an error naming the source directory and the failure.
pub fn html_export_report(paths: MdBookPaths, outcome: MdBookBuildOutcome) -> (res: Result<HtmlExportReport, String>)
    ensures
        outcome is Succeeded ==> (res matches Ok(r) && r.status is Built && r.paths == paths),
        outcome is NotInstalled ==> (res matches Ok(r) && r.paths == paths
            && (r.status matches HtmlBuildStatus::MdBookNotInstalled { message } && message@ == MISSING_MDBOOK_MESSAGE@)),
        outcome matches MdBookBuildOutcome::Failed(detail) ==> (res matches Err(e)
            && e@ == build_failure_text(paths.source_dir@, detail@)),
{
    match outcome {
        MdBookBuildOutcome::Succeeded => Ok(HtmlExportReport { paths, status: HtmlBuildStatus::Built }),
        MdBookBuildOutcome::NotInstalled => Ok(
            HtmlExportReport { paths, status: HtmlBuildStatus::MdBookNotInstalled { message: missing_mdbook_message() } },
        ),
        MdBookBuildOutcome::Failed(detail) => {
            let mut e = String::from_str("mdbook build failed for ");
            push_str(&mut e, paths.source_dir.as_str());
            push_str(&mut e, ": ");
            push_str(&mut e, detail.as_str());
            Err(e)
        },
    }
}

} // verus!
