//! Decisions of the build and development tooling: which flags a build of
//! the engine for the web needs, which files a source export covers, and in
//! which language each is fenced.

use crate::text::{contains_text, ends_with_char, occurs_in, push_char, same_text};
use vstd::prelude::*;

verus! {

/// The compiler flag that selects the random number source of the web.
pub open spec fn wasm_js_flag() -> Seq<char> {
    "--cfg getrandom_backend=\"wasm_js\""@
}

/// The compiler flags with the flag for the web among them: flags that hold
/// it already stay as they are; otherwise it is appended, after a space
/// where the flags are not empty and do not end in one.
pub open spec fn with_wasm_js_flag(current: Seq<char>) -> Seq<char> {
    if occurs_in(wasm_js_flag(), current) {
        current
    } else if current.len() > 0 && current.last() != ' ' {
        current.push(' ') + wasm_js_flag()
    } else {
        current + wasm_js_flag()
    }
}

/// Makes sure that the compiler flags hold the flag for the web.
pub fn ensure_wasm_js_rustflags(current: String) -> (r: String)
    ensures
        r@ == with_wasm_js_flag(current@),
{
    let token = "--cfg getrandom_backend=\"wasm_js\"";
    let mut flags = current;
    if !contains_text(flags.as_str(), token) {
        if !flags.as_str().is_empty() && !ends_with_char(flags.as_str(), ' ') {
            push_char(&mut flags, ' ');
        }
        flags.append(token);
    }
    flags
}

/// The names of the directories that a source export passes over: build
/// outputs, packages, and the repository's own data.
pub open spec fn is_skipped_name(name: Seq<char>) -> bool {
    name == "target"@ || name == "dist"@ || name == "node_modules"@ || name == ".git"@
}

/// Whether a directory with this file name is passed over by a source
/// export. A path without a file name in Unicode is not.
pub fn is_skipped_dir(file_name: Option<&str>) -> (r: bool)
    ensures
        r == (match file_name {
            Some(name) => is_skipped_name(name@),
            None => false,
        }),
{
    match file_name {
        Some(name) => same_text(name, "target") || same_text(name, "dist") || same_text(
            name,
            "node_modules",
        ) || same_text(name, ".git"),
        None => false,
    }
}

/// The language in which a file with the given extension is fenced.
pub open spec fn language_of(ext: Seq<char>) -> Seq<char> {
    if ext == "rs"@ {
        "rust"@
    } else if ext == "toml"@ {
        "toml"@
    } else if ext == "md"@ {
        "markdown"@
    } else if ext == "html"@ {
        "html"@
    } else if ext == "css"@ {
        "css"@
    } else if ext == "js"@ {
        "javascript"@
    } else if ext == "ts"@ {
        "typescript"@
    } else if ext == "json"@ {
        "json"@
    } else {
        "text"@
    }
}

/// Maps the extension of a file to the language of its code fence. Scene
/// files and files of unknown kind are fenced as plain text.
pub fn lang_for(ext: &str) -> (r: &'static str)
    ensures
        r@ == language_of(ext@),
{
    if same_text(ext, "rs") {
        "rust"
    } else if same_text(ext, "toml") {
        "toml"
    } else if same_text(ext, "md") {
        "markdown"
    } else if same_text(ext, "html") {
        "html"
    } else if same_text(ext, "css") {
        "css"
    } else if same_text(ext, "js") {
        "javascript"
    } else if same_text(ext, "ts") {
        "typescript"
    } else if same_text(ext, "json") {
        "json"
    } else {
        "text"
    }
}

/// A path with every backslash turned into a forward slash.
pub open spec fn slashed(path: Seq<char>) -> Seq<char> {
    path.map_values(
        |c: char|
            if c == '\\' {
                '/'
            } else {
                c
            },
    )
}

/// Writes a path with forward slashes only, for the header of a code fence.
pub fn to_forward_slash(path: &str) -> (r: String)
    ensures
        r@ == slashed(path@),
{
    broadcast use vstd::string::group_string_axioms;

    let mut out = String::new();
    for c in it: path.chars()
        invariant
            it.seq() == path@,
            out@ == slashed(path@.take(it.index() as int)),
    {
        proof {
            assert(path@.take(it.index() + 1) =~= path@.take(it.index() as int).push(c));
        }
        push_char(
            &mut out,
            if c == '\\' {
                '/'
            } else {
                c
            },
        );
        proof {
            assert(out@ =~= slashed(path@.take(it.index() + 1)));
        }
    }
    proof {
        assert(path@.take(path@.len() as int) =~= path@);
    }
    out
}

/// What identifies a build: an identifier, the short name of the commit, and
/// the time of the build.
#[derive(Clone, Debug)]
pub struct BuildStamp {
    pub id: String,
    pub git_sha: String,
    pub when_utc: String,
}

/// Puts the stamp of a build together from what the repository says: the
/// identifier is the description of the commit, or else its short name, or
/// else `nogit`; the commit is its short name, or else `nogit`.
pub fn build_stamp_from_git(
    describe: Option<String>,
    short_sha: Option<String>,
    when_utc: String,
) -> (r: BuildStamp)
    ensures
        r.id@ == (match (describe, short_sha) {
            (Some(description), _) => description@,
            (None, Some(sha)) => sha@,
            (None, None) => "nogit"@,
        }),
        r.git_sha@ == (match short_sha {
            Some(sha) => sha@,
            None => "nogit"@,
        }),
        r.when_utc == when_utc,
{
    let git_sha: String = match &short_sha {
        Some(sha) => sha.clone(),
        None => "nogit".to_owned(),
    };
    let id: String = match describe {
        Some(description) => description,
        None => match short_sha {
            Some(sha) => sha,
            None => "nogit".to_owned(),
        },
    };
    BuildStamp { id, git_sha, when_utc }
}

/// The line that announces a build on the command line.
pub fn build_line(stamp: &BuildStamp) -> (r: String)
    ensures
        r@ == "Ironhold build "@ + stamp.id@ + "  sha="@ + stamp.git_sha@ + "  time="@
            + stamp.when_utc@,
{
    let mut line = "Ironhold build ".to_owned();
    line.append(stamp.id.as_str());
    line.append("  sha=");
    line.append(stamp.git_sha.as_str());
    line.append("  time=");
    line.append(stamp.when_utc.as_str());
    line
}

/// The arguments of the build of a package for the web: `--release` comes
/// right after `build` where a release is built.
pub open spec fn build_args(target_pkg: Seq<char>, release: bool) -> Seq<Seq<char>> {
    if release {
        seq![
            "build"@,
            "--release"@,
            "-p"@,
            target_pkg,
            "--target"@,
            "wasm32-unknown-unknown"@,
        ]
    } else {
        seq!["build"@, "-p"@, target_pkg, "--target"@, "wasm32-unknown-unknown"@]
    }
}

/// Lists the arguments with which `cargo` builds a package for the web.
pub fn cargo_build_args(target_pkg: &str, release: bool) -> (r: Vec<String>)
    ensures
        r@.map_values(|argument: String| argument@) == build_args(target_pkg@, release),
{
    let mut args: Vec<String> = Vec::new();
    args.push("build".to_owned());
    if release {
        args.push("--release".to_owned());
    }
    args.push("-p".to_owned());
    args.push(target_pkg.to_owned());
    args.push("--target".to_owned());
    args.push("wasm32-unknown-unknown".to_owned());
    proof {
        assert(args@.map_values(|argument: String| argument@) =~= build_args(target_pkg@, release));
    }
    args
}

/// Where the build leaves the engine for the web: under the directory of
/// the debug or of the release profile.
pub fn wasm_artifact_path(debug: bool) -> (r: String)
    ensures
        r@ == "target/wasm32-unknown-unknown/"@ + (if debug {
            "debug"@
        } else {
            "release"@
        }) + "/engine_wasm_api.wasm"@,
{
    let mut path = "target/wasm32-unknown-unknown/".to_owned();
    path.append(
        if debug {
            "debug"
        } else {
            "release"
        },
    );
    path.append("/engine_wasm_api.wasm");
    path
}

} // verus!
