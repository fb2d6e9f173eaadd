//! What the host shows and launches: the language server's command line,
//! the text of slash commands, and the build task behind a debug session.
use vstd::prelude::*;
use crate::{opt_view, strings_view};
use crate::paths::{file_name, file_name_of};
use crate::platform::OsFamily;
use crate::sdk::{resolve_message, ResolveError};

verus! {

/// A program to start and its arguments.
#[derive(Debug, PartialEq, Eq)]
pub struct LaunchCommand {
    pub command: String,
    pub args: Vec<String>,
}

/// The text of a slash command's answer, under one labelled section that
/// spans all of it.
#[derive(Debug, PartialEq, Eq)]
pub struct CommandOutput {
    pub text: String,
    pub label: String,
}

/// The argument the language server gets by default: talk over standard I/O.
pub const STDIO_FLAG: &'static str = "--stdio";

/// The command that starts the language server installed at `server_path`:
/// that path, with the configured arguments where set, else `--stdio` alone.
pub fn create_language_server_command(server_path: String, arguments: Option<Vec<String>>) -> (r:
    LaunchCommand)
    ensures
        r.command@ == server_path@,
        strings_view(r.args@) == match arguments {
            Some(a) => strings_view(a@),
            None => seq!["--stdio"@],
        },
{
    let args = match arguments {
        Some(a) => a,
        None => {
            let v = vec![STDIO_FLAG.to_owned()];
            proof {
                assert(strings_view(v@) =~= seq!["--stdio"@]);
            }
            v
        },
    };
    LaunchCommand { command: server_path, args }
}

pub open spec fn section(title: Seq<char>, body: Seq<char>) -> Seq<char> {
    if body.len() == 0 {
        Seq::empty()
    } else {
        title + body + "\n"@
    }
}

/// The report of a build: its verdict, then each non-empty output stream
/// under a heading.
pub open spec fn build_report_text(success: bool, stdout: Seq<char>, stderr: Seq<char>) -> Seq<
    char,
> {
    (if success {
        "✅ Build succeeded!\n\n"@
    } else {
        "❌ Build failed!\n\n"@
    }) + section("Standard Output:\n"@, stdout) + section("Standard Error:\n"@, stderr)
}

fn append_section(text: &mut String, title: &str, body: &str)
    ensures
        final(text)@ == old(text)@ + section(title@, body@),
{
    if body.unicode_len() > 0 {
        let ghost before = text@;
        text.append(title);
        text.append(body);
        text.append("\n");
        proof {
            assert(text@ =~= before + section(title@, body@));
        }
    } else {
        proof {
            assert(text@ =~= text@ + section(title@, body@));
        }
    }
}

/// The answer of the build command, from the build's exit status and its
/// output streams.
pub fn build_report(success: bool, stdout: &str, stderr: &str) -> (r: CommandOutput)
    ensures
        r.text@ == build_report_text(success, stdout@, stderr@),
        r.label@ == "Build Result"@,
{
    let mut text = if success {
        "✅ Build succeeded!\n\n".to_owned()
    } else {
        "❌ Build failed!\n\n".to_owned()
    };
    append_section(&mut text, "Standard Output:\n", stdout);
    append_section(&mut text, "Standard Error:\n", stderr);
    CommandOutput { text, label: "Build Result".to_owned() }
}

/// The slash commands this extension answers.
#[derive(Clone, Copy, Debug, PartialEq, Eq, Structural)]
pub enum SlashCommandKind {
    Info,
    Build,
    CheckUpdates,
}

/// The slash command named `name`.
pub fn slash_command_kind(name: &str) -> (r: Result<SlashCommandKind, String>)
    ensures
        name@ == "cangjie-info"@ ==> r == Ok::<SlashCommandKind, String>(SlashCommandKind::Info),
        name@ == "cangjie-build"@ ==> r == Ok::<SlashCommandKind, String>(SlashCommandKind::Build),
        name@ == "cangjie-check-updates"@ ==> r == Ok::<SlashCommandKind, String>(
            SlashCommandKind::CheckUpdates,
        ),
        name@ != "cangjie-info"@ && name@ != "cangjie-build"@ && name@ != "cangjie-check-updates"@
            ==> (r matches Err(m) && m@ == "Unhandled slash command: "@ + name@),
{
    proof {
        reveal_strlit("cangjie-info");
        reveal_strlit("cangjie-build");
        reveal_strlit("cangjie-check-updates");
        assert("cangjie-build"@[8] != "cangjie-info"@[8]);
        assert("cangjie-check-updates"@[8] != "cangjie-info"@[8]);
        assert("cangjie-check-updates"@.len() != "cangjie-build"@.len());
    }
    let n = name.to_owned();
    if n == "cangjie-info".to_owned() {
        Ok(SlashCommandKind::Info)
    } else if n == "cangjie-build".to_owned() {
        Ok(SlashCommandKind::Build)
    } else if n == "cangjie-check-updates".to_owned() {
        Ok(SlashCommandKind::CheckUpdates)
    } else {
        Err("Unhandled slash command: ".to_owned().concat(name))
    }
}

/// One line of the info report: `ok_prefix` and the path in backquotes,
/// or `err_prefix` and the error's message.
pub open spec fn info_line(ok_prefix: Seq<char>, err_prefix: Seq<char>, r: Result<String, ResolveError>) -> Seq<char> {
    match r {
        Ok(p) => ok_prefix + p@ + "`"@,
        Err(e) => err_prefix + resolve_message(e),
    }
}

/// The text of the info report on the SDK root and the two compiler tools.
pub open spec fn info_text(
    sdk_root: Result<String, ResolveError>,
    cjc: Result<String, ResolveError>,
    cjc_frontend: Result<String, ResolveError>,
) -> Seq<char> {
    "**Cangjie Extension Information:**\n"@ + "\n"@ + info_line(
        "SDK Root: `"@,
        "SDK Root: *Error finding SDK:* "@,
        sdk_root,
    ) + "\n"@ + info_line("cjc Path: `"@, "cjc Path: *Error:* "@, cjc) + "\n"@ + info_line(
        "cjc-frontend Path: `"@,
        "cjc-frontend Path: *Error:* "@,
        cjc_frontend,
    )
}

fn info_line_of(ok_prefix: &str, err_prefix: &str, r: &Result<String, ResolveError>) -> (s: String)
    ensures
        s@ == info_line(ok_prefix@, err_prefix@, *r),
{
    match r {
        Ok(p) => ok_prefix.to_owned().concat(p.as_str()).concat("`"),
        Err(e) => {
            let m = e.message();
            err_prefix.to_owned().concat(m.as_str())
        },
    }
}

/// The answer of the info command: the SDK root and the paths of the two
/// compiler tools, or why each could not be found.
pub fn info_report(
    sdk_root: &Result<String, ResolveError>,
    cjc: &Result<String, ResolveError>,
    cjc_frontend: &Result<String, ResolveError>,
) -> (r: CommandOutput)
    ensures
        r.label@ == "Info"@,
        r.text@ == info_text(*sdk_root, *cjc, *cjc_frontend),
{
    let mut text = "**Cangjie Extension Information:**\n".to_owned();
    let ghost t0 = text@;
    text.append("\n");
    let a = info_line_of("SDK Root: `", "SDK Root: *Error finding SDK:* ", sdk_root);
    text.append(a.as_str());
    text.append("\n");
    let b = info_line_of("cjc Path: `", "cjc Path: *Error:* ", cjc);
    text.append(b.as_str());
    text.append("\n");
    let c = info_line_of("cjc-frontend Path: `", "cjc-frontend Path: *Error:* ", cjc_frontend);
    text.append(c.as_str());
    proof {
        assert(text@ =~= info_text(*sdk_root, *cjc, *cjc_frontend));
    }
    CommandOutput { text, label: "Info".to_owned() }
}

/// The build task run before a debug session.
#[derive(Debug, PartialEq, Eq)]
pub struct DebugBuildTask {
    pub label: String,
    pub command: String,
    pub args: Vec<String>,
}

/// A task starts a debuggable program: it runs `cjc build run ...`.
pub open spec fn is_build_run_task(command: Seq<char>, args: Seq<Seq<char>>) -> bool {
    command == "cjc"@ && args.len() >= 2 && args[0] == "build"@ && args[1] == "run"@
}

/// The build task that prepares a debug session for the task `command
/// args`, labelled after `resolved_label`: `cjc build`, where the task runs
/// `cjc build run`; None for any other task.
pub fn debug_build_task(command: &str, args: &Vec<String>, resolved_label: &str) -> (r: Option<
    DebugBuildTask,
>)
    ensures
        is_build_run_task(command@, strings_view(args@)) <==> r is Some,
        r matches Some(t) ==> (t.label@ == resolved_label@ + " (build)"@ && t.command@ == "cjc"@
            && strings_view(t.args@) == seq!["build"@]),
{
    let cjc = "cjc".to_owned();
    if !(command.to_owned() == cjc) || args.len() < 2 {
        return None;
    }
    if !(args[0] == "build".to_owned()) || !(args[1] == "run".to_owned()) {
        return None;
    }
    let build_args = vec!["build".to_owned()];
    proof {
        assert(strings_view(build_args@) =~= seq!["build"@]);
    }
    Some(
        DebugBuildTask {
            label: resolved_label.to_owned().concat(" (build)"),
            command: cjc,
            args: build_args,
        },
    )
}

/// The name of the project whose directory is `cwd`: its last component,
/// by the path rules of `os`.
pub fn project_name(cwd: &Option<String>, os: OsFamily) -> (r: Option<String>)
    ensures
        opt_view(r) == match opt_view(*cwd) {
            Some(c) => file_name(os, c),
            None => None,
        },
{
    match cwd {
        Some(c) => {
            let r = file_name_of(os, c);
            proof {
                assert(opt_view(r) == file_name(os, c@));
            }
            r
        },
        None => None,
    }
}

/// The program that a debug session of the task `args`, run in `cwd`,
/// launches: `target/debug/<project>`, where the task is a `build` and the
/// project is named by `cwd` on `os`.
pub fn debug_program(args: &Vec<String>, cwd: &Option<String>, os: OsFamily) -> (r: Result<
    String,
    String,
>)
    ensures
        !(args@.len() > 0 && args@[0]@ == "build"@) ==> (r matches Err(m) && m@
            == "Unsupported build task for debugging"@),
        args@.len() > 0 && args@[0]@ == "build"@ ==> match opt_view(*cwd) {
            Some(c) => match file_name(os, c) {
                Some(n) => r matches Ok(p) && p@ == "target/debug/"@ + n,
                None => r matches Err(m) && m@ == "Failed to get project name"@,
            },
            None => r matches Err(m) && m@ == "Failed to get project name"@,
        },
{
    if args.len() == 0 || !(args[0] == "build".to_owned()) {
        return Err("Unsupported build task for debugging".to_owned());
    }
    match project_name(cwd, os) {
        Some(n) => Ok("target/debug/".to_owned().concat(n.as_str())),
        None => Err("Failed to get project name".to_owned()),
    }
}

} // verus!
