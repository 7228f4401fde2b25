//! The decisions of the `eng` command line: which command was asked for, the
//! values of its flags, the usage text, and which worker lines are requests.
use vstd::prelude::*;
use crate::bindings::INVOKE_PROTOCOL_VERSION;
use crate::strings::push_str;
use crate::text::{str_eq, trim_seq, trim_str};

verus! {

/// The commands of the `eng` program.
#[derive(Debug, Clone, Copy, PartialEq, Eq, Structural)]
pub enum CliCommand {
    ExportDocs,
    ExportMdbook,
    ExportHtml,
    ServeBook,
    ExportPdf,
    ExportCatalog,
    Invoke,
    Worker,
}

/// The command a word names, if any.
pub open spec fn command_of(word: Seq<char>) -> Option<CliCommand> {
    if word == "export-docs"@ {
        Some(CliCommand::ExportDocs)
    } else if word == "export-mdbook"@ {
        Some(CliCommand::ExportMdbook)
    } else if word == "export-html"@ {
        Some(CliCommand::ExportHtml)
    } else if word == "serve-book"@ {
        Some(CliCommand::ServeBook)
    } else if word == "export-pdf"@ {
        Some(CliCommand::ExportPdf)
    } else if word == "export-catalog"@ {
        Some(CliCommand::ExportCatalog)
    } else if word == "invoke"@ {
        Some(CliCommand::Invoke)
    } else if word == "worker"@ {
        Some(CliCommand::Worker)
    } else {
        None
    }
}

/// The usage text, up to the protocol version it shows in the invoke example.
pub const USAGE_HEAD: &'static str = "usage:
  eng export-docs [--out-dir PATH]
  eng export-mdbook [--out-dir PATH]
  eng export-html [--out-dir PATH]
  eng serve-book [--out-dir PATH] [--no-open]
  eng export-pdf [--out-file PATH]
  eng export-catalog
  eng invoke --request-json '{\"protocol_version\":\"";

/// The usage text after the protocol version.
pub const USAGE_TAIL: &'static str = "\",\"op\":\"...\",\"request_id\":\"...\",\"args\":{...}}'
  eng worker  # persistent JSON-lines invoke worker on stdin/stdout";

/// The usage text of the program.
pub open spec fn usage_text() -> Seq<char> {
    USAGE_HEAD@ + INVOKE_PROTOCOL_VERSION@ + USAGE_TAIL@
}

/// The usage text, which names the protocol version that requests must carry.
pub fn usage() -> (res: String)
    ensures
        res@ == usage_text(),
{
    let mut s = String::from_str(USAGE_HEAD);
    push_str(&mut s, INVOKE_PROTOCOL_VERSION);
    push_str(&mut s, USAGE_TAIL);
    s
}

/// The word each command is listed under in the usage text.
pub open spec fn command_word(c: CliCommand) -> Seq<char> {
    match c {
        CliCommand::ExportDocs => "export-docs"@,
        CliCommand::ExportMdbook => "export-mdbook"@,
        CliCommand::ExportHtml => "export-html"@,
        CliCommand::ServeBook => "serve-book"@,
        CliCommand::ExportPdf => "export-pdf"@,
        CliCommand::ExportCatalog => "export-catalog"@,
        CliCommand::Invoke => "invoke"@,
        CliCommand::Worker => "worker"@,
    }
}

/// Every command's word reads back to that command, a word names a command
/// only when it is that command's word, and two words name the same command
/// only when they are the same word.
pub proof fn command_words_read_back(c: CliCommand, w1: Seq<char>, w2: Seq<char>)
    ensures
        command_of(command_word(c)) == Some(c),
        command_of(w1) is Some && command_of(w1) == command_of(w2) ==> w1 == w2,
        command_of(w1) matches Some(d) ==> w1 == command_word(d),
{
    reveal_strlit("export-docs");
    reveal_strlit("export-mdbook");
    reveal_strlit("export-html");
    reveal_strlit("serve-book");
    reveal_strlit("export-pdf");
    reveal_strlit("export-catalog");
    reveal_strlit("invoke");
    reveal_strlit("worker");
    match c {
        CliCommand::ExportDocs => {

        },
        CliCommand::ExportMdbook => {
            assert("export-mdbook"@.len() != "export-docs"@.len());
        },
        CliCommand::ExportHtml => {
            assert("export-html"@[7] != "export-docs"@[7]);
            assert("export-html"@.len() != "export-mdbook"@.len());
        },
        CliCommand::ServeBook => {
            assert("serve-book"@.len() != "export-docs"@.len());
            assert("serve-book"@.len() != "export-mdbook"@.len());
            assert("serve-book"@.len() != "export-html"@.len());
        },
        CliCommand::ExportPdf => {
            assert("export-pdf"@.len() != "export-docs"@.len());
            assert("export-pdf"@.len() != "export-mdbook"@.len());
            assert("export-pdf"@.len() != "export-html"@.len());
            assert("export-pdf"@[0] != "serve-book"@[0]);
        },
        CliCommand::ExportCatalog => {
            assert("export-catalog"@.len() != "export-docs"@.len());
            assert("export-catalog"@.len() != "export-mdbook"@.len());
            assert("export-catalog"@.len() != "export-html"@.len());
            assert("export-catalog"@.len() != "serve-book"@.len());
            assert("export-catalog"@.len() != "export-pdf"@.len());
        },
        CliCommand::Invoke => {
            assert("invoke"@.len() != "export-docs"@.len());
            assert("invoke"@.len() != "export-mdbook"@.len());
            assert("invoke"@.len() != "export-html"@.len());
            assert("invoke"@.len() != "serve-book"@.len());
            assert("invoke"@.len() != "export-pdf"@.len());
            assert("invoke"@.len() != "export-catalog"@.len());
        },
        CliCommand::Worker => {
            assert("worker"@.len() != "export-docs"@.len());
            assert("worker"@.len() != "export-mdbook"@.len());
            assert("worker"@.len() != "export-html"@.len());
            assert("worker"@.len() != "serve-book"@.len());
            assert("worker"@.len() != "export-pdf"@.len());
            assert("worker"@.len() != "export-catalog"@.len());
            assert("worker"@[0] != "invoke"@[0]);
        },
    }
}

/// Reads the command from the program's arguments: the first argument names
/// it; no argument, or an unknown one, is answered with the usage text.
pub fn parse_command(args: &[String]) -> (res: Result<CliCommand, String>)
    ensures
        args@.len() == 0 ==> (res is Err && res->Err_0@ == usage_text()),
        args@.len() > 0 ==> match command_of(args@[0]@) {
            Some(c) => res == Ok::<CliCommand, String>(c),
            None => res is Err && res->Err_0@ == usage_text(),
        },
{
    if args.len() == 0 {
        return Err(usage());
    }
    let w = args[0].as_str();
    if str_eq(w, "export-docs") {
        Ok(CliCommand::ExportDocs)
    } else if str_eq(w, "export-mdbook") {
        Ok(CliCommand::ExportMdbook)
    } else if str_eq(w, "export-html") {
        Ok(CliCommand::ExportHtml)
    } else if str_eq(w, "serve-book") {
        Ok(CliCommand::ServeBook)
    } else if str_eq(w, "export-pdf") {
        Ok(CliCommand::ExportPdf)
    } else if str_eq(w, "export-catalog") {
        Ok(CliCommand::ExportCatalog)
    } else if str_eq(w, "invoke") {
        Ok(CliCommand::Invoke)
    } else if str_eq(w, "worker") {
        Ok(CliCommand::Worker)
    } else {
        Err(usage())
    }
}

/// The value of `flag` searching from position `i`: the argument after the
/// first occurrence of the flag that has an argument after it.
pub open spec fn flag_value_from(args: Seq<String>, flag: Seq<char>, i: int) -> Option<Seq<char>>
    decreases args.len() - i,
{
    if i < 0 || i + 1 >= args.len() {
        None
    } else if args[i]@ == flag {
        Some(args[i + 1]@)
    } else {
        flag_value_from(args, flag, i + 1)
    }
}

/// The value given to `flag`: the argument right after its first occurrence
/// that is followed by one.
pub open spec fn flag_value(args: Seq<String>, flag: Seq<char>) -> Option<Seq<char>> {
    flag_value_from(args, flag, 0)
}

/// The value read for a flag from position `i` is the argument right after an
/// occurrence of the flag at or after `i`, the first occurrence that has an
/// argument after it; and there is none exactly when no such occurrence exists.
pub proof fn flag_value_follows_the_flag(args: Seq<String>, flag: Seq<char>, i: int)
    requires
        0 <= i,
    ensures
        flag_value_from(args, flag, i) matches Some(v) ==> exists|j: int|
            #![trigger args[j]]
            i <= j && j + 1 < args.len() && args[j]@ == flag && args[j + 1]@ == v && forall|k: int|
                i <= k < j ==> (#[trigger] args[k])@ != flag,
        flag_value_from(args, flag, i) is None <==> forall|j: int|
            i <= j && j + 1 < args.len() ==> (#[trigger] args[j])@ != flag,
    decreases args.len() - i,
{
    if i + 1 < args.len() && args[i]@ != flag {
        flag_value_follows_the_flag(args, flag, i + 1);
        if flag_value_from(args, flag, i + 1) is Some {
            let j = choose|j: int|
                #![trigger args[j]]
                i + 1 <= j && j + 1 < args.len() && args[j]@ == flag && args[j + 1]@ == flag_value_from(args, flag, i + 1)->Some_0
                    && forall|k: int| i + 1 <= k < j ==> (#[trigger] args[k])@ != flag;
            assert(args[j]@ == flag);
        }
    }
}

/// Reads the value given to a flag.
pub fn parse_flag_value(args: &[String], flag: &str) -> (res: Option<String>)
    ensures
        match res {
            Some(v) => flag_value(args@, flag@) == Some(v@),
            None => flag_value(args@, flag@) is None,
        },
{
    let mut i: usize = 0;
    while i < args.len() && args.len() - i > 1
        invariant
            i <= args@.len(),
            flag_value_from(args@, flag@, i as int) == flag_value(args@, flag@),
        decreases args.len() - i,
    {
        if str_eq(args[i].as_str(), flag) {
            return Some(args[i + 1].clone());
        }
        i = i + 1;
    }
    None
}

/// Reads a path given to a flag; the path is the flag's value, as text.
pub fn parse_flag_path(args: &[String], flag: &str) -> (res: Option<String>)
    ensures
        match res {
            Some(v) => flag_value(args@, flag@) == Some(v@),
            None => flag_value(args@, flag@) is None,
        },
{
    parse_flag_value(args, flag)
}

/// Whether some argument is exactly `flag`.
pub fn has_flag(args: &[String], flag: &str) -> (res: bool)
    ensures
        res <==> exists|i: int| 0 <= i < args@.len() && args@[i]@ == flag@,
{
    let mut i: usize = 0;
    while i < args.len()
        invariant
            i <= args@.len(),
            forall|j: int| 0 <= j < i ==> args@[j]@ != flag@,
        decreases args.len() - i,
    {
        if str_eq(args[i].as_str(), flag) {
            return true;
        }
        i = i + 1;
    }
    false
}

/// The request on a worker input line: the line trimmed, or nothing for a
/// blank line.
pub fn worker_request(line: &str) -> (res: Option<&str>)
    ensures
        trim_seq(line@).len() == 0 ==> res is None,
        trim_seq(line@).len() > 0 ==> (res matches Some(r) && r@ == trim_seq(line@)),
{
    let t = trim_str(line);
    if t.unicode_len() == 0 {
        None
    } else {
        Some(t)
    }
}

} // verus!
