//! Shell commands asked for by voice: what is turned down before anything
//! runs, how arguments are quoted, and how an outcome is reported.

use crate::numfmt::{i64_to_chars, signed_decimal};
use crate::post_process::opt_text;
use crate::buffers::extend_copy;
use crate::text::{
    concat3, contains, contains_seq, copy_str, from_chars, lowercased, replace_all, replaced,
    to_chars, to_lowercase,
};
use vstd::prelude::*;

verus! {

/// How a command ended.
#[derive(Clone, Debug, PartialEq, Eq)]
pub struct CommandResult {
    pub success: bool,
    pub stdout: Option<String>,
    pub stderr: Option<String>,
    pub exit_code: Option<i32>,
    pub message: Option<String>,
}

/// `s` with each single quote closed, escaped and reopened, so that the
/// result can stand between single quotes in a shell command.
pub open spec fn shell_escaped(s: Seq<char>) -> Seq<char> {
    replaced(s, seq!['\''], "'\\''"@)
}

/// Escapes a string for use between single quotes in a shell command.
pub fn shell_escape(s: &str) -> (r: String)
    ensures
        r@ == shell_escaped(s@),
{
    let chars = to_chars(s);
    let mut quote: Vec<char> = Vec::new();
    quote.push('\'');
    assert(quote@ =~= seq!['\'']);
    let to = to_chars("'\\''");
    let out = replace_all(&chars, &quote, &to);
    from_chars(&out)
}

/// Accepts a path that holds no NUL character; the empty path, for the
/// current directory, is accepted.
pub fn validate_path(path: &str) -> (r: Result<(), String>)
    ensures
        match r {
            Ok(_) => !path@.contains('\0'),
            Err(e) => path@.contains('\0') && e@ == "Path contains null bytes"@,
        },
{
    let chars = to_chars(path);
    let mut i: usize = 0;
    while i < chars.len()
        invariant
            i <= chars.len(),
            chars@ == path@,
            forall|j: int| 0 <= j < i ==> chars@[j] != '\0',
        decreases chars.len() - i,
    {
        if chars[i] == '\0' {
            assert(path@[i as int] == '\0');
            return Err(copy_str("Path contains null bytes"));
        }
        i += 1;
    }
    Ok(())
}

/// The patterns that no command may hold, in the order in which they are
/// looked for.
pub open spec fn dangerous_patterns() -> Seq<Seq<char>> {
    seq![
        "rm -rf /"@,
        "rm -rf ~"@,
        "mkfs"@,
        "dd if="@,
        "> /dev/sda"@,
        "chmod 777 /"@,
        ":(){ :|:& };:"@,
    ]
}

/// The first dangerous pattern that a command holds, its case not counting.
pub open spec fn first_dangerous(command: Seq<char>, from: int) -> Option<int>
    decreases dangerous_patterns().len() - from,
{
    if from < 0 || from >= dangerous_patterns().len() {
        None
    } else if contains_seq(lowercased(command), dangerous_patterns()[from]) {
        Some(from)
    } else {
        first_dangerous(command, from + 1)
    }
}

/// The text that turns a command down for holding `pattern`.
pub open spec fn blocked_text(pattern: Seq<char>) -> Seq<char> {
    "Command blocked for safety: contains dangerous pattern '"@ + pattern + "'"@
}

/// Turns a command down where, in lower case, it holds one of the dangerous
/// patterns; the error names the first one found.
pub fn check_command(command: &str) -> (r: Result<(), String>)
    ensures
        match r {
            Ok(_) => first_dangerous(command@, 0) is None,
            Err(e) => first_dangerous(command@, 0) matches Some(i) && e@ == blocked_text(
                dangerous_patterns()[i],
            ),
        },
{
    let lower = to_lowercase(&to_chars(command));
    let mut patterns: Vec<&str> = Vec::new();
    patterns.push("rm -rf /");
    patterns.push("rm -rf ~");
    patterns.push("mkfs");
    patterns.push("dd if=");
    patterns.push("> /dev/sda");
    patterns.push("chmod 777 /");
    patterns.push(":(){ :|:& };:");
    assert(patterns@.len() == 7);
    assert(forall|j: int| 0 <= j < 7 ==> (#[trigger] patterns@[j])@ == dangerous_patterns()[j]);
    let mut i: usize = 0;
    while i < patterns.len()
        invariant
            i <= patterns.len(),
            patterns@.len() == 7,
            dangerous_patterns().len() == 7,
            lower@ == lowercased(command@),
            forall|j: int| 0 <= j < 7 ==> (#[trigger] patterns@[j])@ == dangerous_patterns()[j],
            first_dangerous(command@, 0) == first_dangerous(command@, i as int),
        decreases patterns.len() - i,
    {
        let pattern = to_chars(patterns[i]);
        if contains(&lower, &pattern) {
            return Err(
                concat3(
                    "Command blocked for safety: contains dangerous pattern '",
                    patterns[i],
                    "'",
                ),
            );
        }
        i += 1;
    }
    Ok(())
}

/// The systems whose shell and terminal differ.
#[derive(Clone, Copy, Debug, PartialEq, Eq, Structural)]
pub enum HostSystem {
    MacOs,
    Windows,
    Linux,
}

/// The shell that runs a command, and the flag before the command.
pub fn shell_for(host: HostSystem) -> (r: (String, String))
    ensures
        r.0@ == if host == HostSystem::Windows {
            "cmd"@
        } else {
            "sh"@
        },
        r.1@ == if host == HostSystem::Windows {
            "/C"@
        } else {
            "-c"@
        },
{
    match host {
        HostSystem::Windows => (copy_str("cmd"), copy_str("/C")),
        _ => (copy_str("sh"), copy_str("-c")),
    }
}

/// The script that opens a terminal window on macOS, in the working
/// directory where one is given.
pub open spec fn terminal_script_text(working_directory: Option<Seq<char>>) -> Seq<char> {
    match working_directory {
        Some(dir) => "tell application \"Terminal\"\n                activate\n                do script \"cd '"@
            + shell_escaped(dir) + "'\"\n            end tell"@,
        None =>
            "tell application \"Terminal\"\n            activate\n            do script \"\"\n        end tell"@,
    }
}

/// The script that opens a terminal window on macOS.
pub fn terminal_script(working_directory: Option<&str>) -> (r: String)
    ensures
        r@ == terminal_script_text(
            match working_directory {
                Some(d) => Some(d@),
                None => None,
            },
        ),
{
    match working_directory {
        Some(dir) => {
            let escaped = shell_escape(dir);
            concat3(
                "tell application \"Terminal\"\n                activate\n                do script \"cd '",
                escaped.as_str(),
                "'\"\n            end tell",
            )
        },
        None => copy_str(
            "tell application \"Terminal\"\n            activate\n            do script \"\"\n        end tell",
        ),
    }
}

/// The terminal emulators tried on Linux, in order.
pub fn linux_terminals() -> (r: Vec<String>)
    ensures
        r@.len() == 6,
        r@[0]@ == "gnome-terminal"@,
        r@[1]@ == "konsole"@,
        r@[2]@ == "xfce4-terminal"@,
        r@[3]@ == "xterm"@,
        r@[4]@ == "alacritty"@,
        r@[5]@ == "kitty"@,
{
    let mut v: Vec<String> = Vec::new();
    v.push(copy_str("gnome-terminal"));
    v.push(copy_str("konsole"));
    v.push(copy_str("xfce4-terminal"));
    v.push(copy_str("xterm"));
    v.push(copy_str("alacritty"));
    v.push(copy_str("kitty"));
    v
}

/// What opening the macOS terminal comes to on a system that is not macOS.
pub fn open_terminal_macos(host: HostSystem) -> (r: Result<String, String>)
    ensures
        match r {
            Ok(program) => host == HostSystem::MacOs && program@ == "osascript"@,
            Err(e) => host != HostSystem::MacOs && e@
                == "macOS terminal not supported on this platform"@,
        },
{
    match host {
        HostSystem::MacOs => Ok(copy_str("osascript")),
        _ => Err(copy_str("macOS terminal not supported on this platform")),
    }
}

/// What opening the Windows terminal comes to on a system that is not
/// Windows.
pub fn open_terminal_windows(host: HostSystem) -> (r: Result<String, String>)
    ensures
        match r {
            Ok(program) => host == HostSystem::Windows && program@ == "cmd"@,
            Err(e) => host != HostSystem::Windows && e@
                == "Windows terminal not supported on this platform"@,
        },
{
    match host {
        HostSystem::Windows => Ok(copy_str("cmd")),
        _ => Err(copy_str("Windows terminal not supported on this platform")),
    }
}

/// The text of an exit code as a debug print shows it.
pub open spec fn exit_code_text(code: Option<i32>) -> Seq<char> {
    match code {
        Some(c) => "Some("@ + signed_decimal(c as int) + ")"@,
        None => "None"@,
    }
}

impl CommandResult {
    /// A terminal was opened; `message` says which.
    pub fn opened(message: String) -> (r: CommandResult)
        ensures
            r.success,
            r.stdout is None && r.stderr is None && r.exit_code is None,
            r.message == Some(message),
    {
        CommandResult {
            success: true,
            stdout: None,
            stderr: None,
            exit_code: None,
            message: Some(message),
        }
    }

    /// The outcome of a command whose output was captured.
    pub fn captured(success: bool, stdout: String, stderr: String, exit_code: Option<i32>) -> (r:
        CommandResult)
        ensures
            r.success == success,
            r.stdout == Some(stdout),
            r.stderr == Some(stderr),
            r.exit_code == exit_code,
            r.message is None,
    {
        CommandResult {
            success,
            stdout: Some(stdout),
            stderr: Some(stderr),
            exit_code,
            message: None,
        }
    }

    /// The outcome of a command that was waited for without capturing its
    /// output.
    pub fn waited(success: bool, exit_code: Option<i32>) -> (r: CommandResult)
        ensures
            r.success == success,
            r.stdout is None && r.stderr is None,
            r.exit_code == exit_code,
            opt_text(r.message) == Some(
                if success {
                    "Command executed successfully"@
                } else {
                    "Command exited with code "@ + exit_code_text(exit_code)
                },
            ),
    {
        let message = if success {
            copy_str("Command executed successfully")
        } else {
            let mut text = to_chars("Command exited with code ");
            match exit_code {
                Some(c) => {
                    let open = to_chars("Some(");
                    extend_copy(&mut text, &open);
                    let digits = i64_to_chars(c as i64);
                    extend_copy(&mut text, &digits);
                    text.push(')');
                    assert(text@ =~= "Command exited with code "@ + ("Some("@ + signed_decimal(
                        c as int,
                    ) + ")"@)) by {
                        reveal_strlit(")");
                    }
                },
                None => {
                    let none = to_chars("None");
                    extend_copy(&mut text, &none);
                },
            }
            from_chars(&text)
        };
        CommandResult { success, stdout: None, stderr: None, exit_code, message: Some(message) }
    }
}

} // verus!
