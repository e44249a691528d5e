//! How Codex tool calls are shown: the command a shell call runs, the
//! output it printed, image generation, and dynamic tools.

use crate::json::{json_has, json_is_object, json_lookup, spec_json_lookup, JsonNode, JsonNodeView};
use crate::text::{
    ascii_lower_seq, concat3, concat_str, copy_string, has_infix, has_prefix, has_suffix, join,
    join_strings, opt_str_view, opt_string_view, path_file_name, spec_file_name, str_ascii_lower,
    str_contains, str_ends_with, str_eq, str_starts_with, strs_view, take_chars, to_chars,
    from_chars, trim, trim_str,
};
use crate::transition::model::{ToolFamily, ToolKind, ToolStatus};
use vstd::prelude::*;
use vstd::utf8::encode_utf8;

verus! {

// ---------------------------------------------------------------------------
// Output of a shell call
// ---------------------------------------------------------------------------

/// Whether a text has anything but whitespace.
pub open spec fn non_blank(s: Seq<char>) -> bool {
    trim(s).len() > 0
}

/// A call's standard output and error as one text: each trimmed and ended
/// by a newline, labelled when both are there; `None` when both are blank.
pub open spec fn combined_stdio(stdout: Seq<char>, stderr: Seq<char>) -> Option<Seq<char>> {
    let o = trim(stdout);
    let e = trim(stderr);
    if o.len() == 0 && e.len() == 0 {
        None
    } else if e.len() == 0 {
        Some(o + "\n"@)
    } else if o.len() == 0 {
        Some(e + "\n"@)
    } else {
        Some("stdout:\n"@ + o + "\n\nstderr:\n"@ + e + "\n"@)
    }
}

/// Joins a call's standard output and error for display.
pub fn combined_exec_stdio(stdout: &str, stderr: &str) -> (r: Option<String>)
    ensures
        opt_string_view(r) == combined_stdio(stdout@, stderr@),
{
    let o = trim_str(stdout);
    let e = trim_str(stderr);
    let o_empty = o.as_str().unicode_len() == 0;
    let e_empty = e.as_str().unicode_len() == 0;
    if o_empty && e_empty {
        None
    } else if e_empty {
        Some(concat_str(o.as_str(), "\n"))
    } else if o_empty {
        Some(concat_str(e.as_str(), "\n"))
    } else {
        let a = concat3("stdout:\n", o.as_str(), "\n\nstderr:\n");
        Some(concat3(a.as_str(), e.as_str(), "\n"))
    }
}

/// The number of bytes a text takes in UTF-8, as `str::len` gives it.
pub open spec fn byte_count(s: Seq<char>) -> int {
    (encode_utf8(s).len() as usize) as int
}

/// The output a call reported when it ended: its aggregated output, else
/// its formatted output, else its standard output and error.
pub open spec fn reported_output(
    aggregated: Seq<char>,
    formatted: Seq<char>,
    stdout: Seq<char>,
    stderr: Seq<char>,
) -> Option<Seq<char>> {
    if non_blank(aggregated) {
        Some(aggregated)
    } else if non_blank(formatted) {
        Some(formatted)
    } else {
        combined_stdio(stdout, stderr)
    }
}

/// The output shown for a finished call: what it reported, unless the
/// streamed output is materially larger (by more than 256 bytes, or more
/// than twice as large), or the only one there is.
pub open spec fn final_output(
    aggregated: Seq<char>,
    formatted: Seq<char>,
    stdout: Seq<char>,
    stderr: Seq<char>,
    streamed: Seq<char>,
) -> Option<Seq<char>> {
    match reported_output(aggregated, formatted, stdout, stderr) {
        None => if non_blank(streamed) {
            Some(streamed)
        } else {
            None
        },
        Some(p) => if !non_blank(streamed) {
            Some(p)
        } else if byte_count(streamed) > byte_count(p) + 256 || byte_count(streamed) > 2
            * byte_count(p) {
            Some(streamed)
        } else {
            Some(p)
        },
    }
}

fn is_non_blank(s: &str) -> (r: bool)
    ensures
        r == non_blank(s@),
{
    trim_str(s).as_str().unicode_len() > 0
}

/// The output shown for a finished shell call, given what it reported and
/// what was streamed while it ran.
pub fn terminal_exec_output(
    aggregated_output: &str,
    formatted_output: &str,
    stdout: &str,
    stderr: &str,
    streamed_output: String,
) -> (r: Option<String>)
    ensures
        opt_string_view(r) == final_output(
            aggregated_output@,
            formatted_output@,
            stdout@,
            stderr@,
            streamed_output@,
        ),
{
    let preferred = if is_non_blank(aggregated_output) {
        Some(aggregated_output.to_string())
    } else if is_non_blank(formatted_output) {
        Some(formatted_output.to_string())
    } else {
        combined_exec_stdio(stdout, stderr)
    };
    let streamed_there = is_non_blank(streamed_output.as_str());
    match preferred {
        None => if streamed_there {
            Some(streamed_output)
        } else {
            None
        },
        Some(p) => {
            if !streamed_there {
                return Some(p);
            }
            let s = streamed_output.as_str().len();
            let q = p.as_str().len();
            let larger = s > q && (s - q > 256 || s - q > q);
            if larger {
                Some(streamed_output)
            } else {
                Some(p)
            }
        },
    }
}

/// How a shell call ended.
#[derive(Debug, Clone, Copy, PartialEq, Eq, Structural)]
pub enum ExecCommandStatus {
    Completed,
    Failed,
    Declined,
}

/// The status of a finished shell call: a declined call is cancelled, a
/// completed one fails unless it exited with zero.
pub fn tool_status_from_exec_end(status: ExecCommandStatus, exit_code: i32) -> (r: ToolStatus)
    ensures
        r == match status {
            ExecCommandStatus::Declined => ToolStatus::Cancelled,
            ExecCommandStatus::Failed => ToolStatus::Failed,
            ExecCommandStatus::Completed => if exit_code == 0 {
                ToolStatus::Completed
            } else {
                ToolStatus::Failed
            },
        },
{
    match status {
        ExecCommandStatus::Declined => ToolStatus::Cancelled,
        ExecCommandStatus::Failed => ToolStatus::Failed,
        ExecCommandStatus::Completed => if exit_code == 0 {
            ToolStatus::Completed
        } else {
            ToolStatus::Failed
        },
    }
}

/// The output's summary: the whole output up to 100 characters, else its
/// first 100 characters and `...`.
pub open spec fn output_summary(output: Seq<char>) -> Seq<char> {
    if output.len() <= 100 {
        output
    } else {
        output.take(100) + "..."@
    }
}

/// Summarizes a shell call's output, cutting on a character boundary.
pub fn summarize_shell_output(output: &str) -> (r: String)
    ensures
        r@ == output_summary(output@),
{
    let c = to_chars(output);
    if c.len() <= 100 {
        return output.to_string();
    }
    let head = take_chars(c.as_slice(), 100);
    let t = from_chars(head.as_slice());
    concat_str(t.as_str(), "...")
}

/// What was typed into a running call, ended by a newline.
pub open spec fn stdin_echo(stdin: Seq<char>) -> Seq<char> {
    if has_suffix(stdin, "\n"@) {
        stdin
    } else {
        stdin + "\n"@
    }
}

/// What was typed into a running call, as the terminal echoes it.
pub fn terminal_stdin_echo(stdin: &str) -> (r: String)
    ensures
        r@ == stdin_echo(stdin@),
{
    if str_ends_with(stdin, "\n") {
        stdin.to_string()
    } else {
        concat_str(stdin, "\n")
    }
}

// ---------------------------------------------------------------------------
// The command a shell call runs
// ---------------------------------------------------------------------------

/// The program a command token names: the final component of its path, in
/// ASCII lower case.
pub open spec fn token_basename(token: Seq<char>) -> Seq<char> {
    ascii_lower_seq(
        match spec_file_name(token) {
            Some(f) => f,
            None => token,
        },
    )
}

/// The program a command token names, in lower case.
pub fn command_token_basename(token: &str) -> (r: String)
    ensures
        r@ == token_basename(token@),
{
    let name = match path_file_name(token) {
        Some(f) => f,
        None => token.to_string(),
    };
    str_ascii_lower(name.as_str())
}

/// Where the command starts after an `env` launcher: past its options
/// (`-u` takes a value) and its assignments, from index `i`.
pub open spec fn env_scan(cmd: Seq<Seq<char>>, i: int) -> int
    decreases cmd.len() - i,
{
    if i < 0 || i >= cmd.len() {
        i
    } else if cmd[i] == "-u"@ {
        env_scan(cmd, if i + 1 < cmd.len() {
            i + 2
        } else {
            i + 1
        })
    } else if has_prefix(cmd[i], "-"@) || has_infix(cmd[i], "="@) {
        env_scan(cmd, i + 1)
    } else {
        i
    }
}

/// Where the command starts once an `env` launcher is stripped.
pub open spec fn env_payload_start(cmd: Seq<Seq<char>>) -> int {
    if cmd.len() == 0 || token_basename(cmd[0]) != "env"@ {
        0
    } else {
        env_scan(cmd, 1)
    }
}

proof fn lemma_env_scan_bounds(cmd: Seq<Seq<char>>, i: int)
    requires
        1 <= i <= cmd.len(),
    ensures
        i <= env_scan(cmd, i) <= cmd.len(),
    decreases cmd.len() - i,
{
    if i < cmd.len() {
        if cmd[i] == "-u"@ {
            lemma_env_scan_bounds(cmd, if i + 1 < cmd.len() {
                i + 2
            } else {
                i + 1
            });
        } else if has_prefix(cmd[i], "-"@) || has_infix(cmd[i], "="@) {
            lemma_env_scan_bounds(cmd, i + 1);
        }
    }
}

/// The command without an `env` launcher and its options and assignments
/// in front.
pub fn strip_env_wrapper_tokens(command: &[String]) -> (r: &[String])
    ensures
        0 <= env_payload_start(strs_view(command@)) <= command@.len(),
        r@ == command@.subrange(env_payload_start(strs_view(command@)), command@.len() as int),
{
    let ghost cv = strs_view(command@);
    if command.len() == 0 {
        return command;
    }
    let first = command_token_basename(command[0].as_str());
    assert(cv[0] == command@[0]@);
    if !str_eq(first.as_str(), "env") {
        assert(command@.subrange(0, command@.len() as int) =~= command@);
        return command;
    }
    let mut index: usize = 1;
    let mut done = false;
    while !done && index < command.len()
        invariant
            1 <= index <= command.len(),
            cv == strs_view(command@),
            env_scan(cv, index as int) == env_scan(cv, 1),
            done ==> env_scan(cv, index as int) == index,
        decreases command.len() - index + (if done { 0int } else { 1int }),
    {
        let token = command[index].as_str();
        assert(cv[index as int] == token@);
        if str_eq(token, "-u") {
            index = if index + 1 < command.len() {
                index + 2
            } else {
                index + 1
            };
        } else if str_starts_with(token, "-") || str_contains(token, "=") {
            index = index + 1;
        } else {
            done = true;
        }
    }
    vstd::slice::slice_subrange(command, index, command.len())
}

/// Whether a program is a POSIX-style shell.
pub open spec fn is_posix_shell(name: Seq<char>) -> bool {
    name == "sh"@ || name == "bash"@ || name == "zsh"@ || name == "dash"@ || name == "ksh"@ || name
        == "mksh"@ || name == "ash"@ || name == "fish"@ || name == "csh"@ || name == "tcsh"@
}

/// Whether a program is PowerShell.
pub open spec fn is_powershell(name: Seq<char>) -> bool {
    name == "pwsh"@ || name == "pwsh.exe"@ || name == "powershell"@ || name == "powershell.exe"@
}

/// Whether a program is the Windows command interpreter.
pub open spec fn is_cmd_exe(name: Seq<char>) -> bool {
    name == "cmd"@ || name == "cmd.exe"@
}

/// Whether every character is an ASCII letter.
pub open spec fn all_ascii_alphabetic(s: Seq<char>) -> bool {
    forall|i: int| 0 <= i < s.len() ==> ('a' <= #[trigger] s[i] <= 'z' || 'A' <= s[i] <= 'Z')
}

/// The index after the `-c` of a POSIX shell's options, scanning from `i`:
/// `--` and long or bare options are skipped, a group of letters holding
/// `c` ends the scan, and any other token stops it.
pub open spec fn posix_payload(cmd: Seq<Seq<char>>, i: int) -> Option<int>
    decreases cmd.len() - i,
{
    if i < 0 || i >= cmd.len() {
        None
    } else {
        let t = cmd[i];
        if t == "--"@ {
            posix_payload(cmd, i + 1)
        } else if has_prefix(t, "-"@) {
            let flags = t.drop_first();
            if has_prefix(t, "--"@) || flags.len() == 0 {
                posix_payload(cmd, i + 1)
            } else if all_ascii_alphabetic(flags) && flags.contains('c') {
                if i + 1 < cmd.len() {
                    Some(i + 1)
                } else {
                    None
                }
            } else {
                posix_payload(cmd, i + 1)
            }
        } else {
            None
        }
    }
}

/// The index after the first token from `i` that is one of two flags in
/// ASCII lower case.
pub open spec fn flag_payload(cmd: Seq<Seq<char>>, i: int, a: Seq<char>, b: Seq<char>) -> Option<int>
    decreases cmd.len() - i,
{
    if i < 0 || i >= cmd.len() {
        None
    } else if ascii_lower_seq(cmd[i]) == a || ascii_lower_seq(cmd[i]) == b {
        if i + 1 < cmd.len() {
            Some(i + 1)
        } else {
            None
        }
    } else {
        flag_payload(cmd, i + 1, a, b)
    }
}

/// Where the script a shell runs starts in its command: after `-c` (or a
/// group of letters holding `c`) for a POSIX shell, `-Command` or `-c` for
/// PowerShell, `/c` or `/k` for the Windows interpreter.
pub open spec fn payload_index(cmd: Seq<Seq<char>>) -> Option<int> {
    if cmd.len() == 0 {
        None
    } else {
        let shell = token_basename(cmd[0]);
        if is_posix_shell(shell) {
            posix_payload(cmd, 1)
        } else if is_powershell(shell) {
            flag_payload(cmd, 1, "-command"@, "-c"@)
        } else if is_cmd_exe(shell) {
            flag_payload(cmd, 1, "/c"@, "/k"@)
        } else {
            None
        }
    }
}

fn is_letters(s: &[char]) -> (r: bool)
    ensures
        r == all_ascii_alphabetic(s@),
{
    let mut i: usize = 0;
    while i < s.len()
        invariant
            i <= s.len(),
            forall|j: int| 0 <= j < i ==> ('a' <= #[trigger] s@[j] <= 'z' || 'A' <= s@[j] <= 'Z'),
        decreases s.len() - i,
    {
        let c = s[i];
        if !(('a' <= c && c <= 'z') || ('A' <= c && c <= 'Z')) {
            return false;
        }
        i = i + 1;
    }
    true
}

fn holds_char(s: &[char], c: char) -> (r: bool)
    ensures
        r == s@.contains(c),
{
    let mut i: usize = 0;
    while i < s.len()
        invariant
            i <= s.len(),
            forall|j: int| 0 <= j < i ==> #[trigger] s@[j] != c,
        decreases s.len() - i,
    {
        if s[i] == c {
            return true;
        }
        i = i + 1;
    }
    false
}

fn posix_payload_index(command: &[String]) -> (r: Option<usize>)
    ensures
        match r {
            Some(i) => posix_payload(strs_view(command@), 1) == Some(i as int),
            None => posix_payload(strs_view(command@), 1) is None,
        },
{
    let ghost cv = strs_view(command@);
    let mut i: usize = 1;
    while i < command.len()
        invariant
            1 <= i,
            cv == strs_view(command@),
            posix_payload(cv, i as int) == posix_payload(cv, 1),
        decreases command.len() - i,
    {
        let token = command[i].as_str();
        assert(cv[i as int] == token@);
        if str_eq(token, "--") {
            i = i + 1;
            continue;
        }
        if str_starts_with(token, "-") {
            let chars = to_chars(token);
            proof {
                reveal_strlit("-");
            }
            assert(chars@.len() >= 1);
            let flags = vstd::slice::slice_subrange(chars.as_slice(), 1, chars.len());
            assert(flags@ =~= token@.drop_first());
            if str_starts_with(token, "--") || flags.len() == 0 {
                i = i + 1;
                continue;
            }
            if is_letters(flags) && holds_char(flags, 'c') {
                return if i + 1 < command.len() {
                    Some(i + 1)
                } else {
                    None
                };
            }
            i = i + 1;
            continue;
        }
        return None;
    }
    None
}

fn flag_payload_index(command: &[String], a: &str, b: &str) -> (r: Option<usize>)
    ensures
        match r {
            Some(i) => flag_payload(strs_view(command@), 1, a@, b@) == Some(i as int),
            None => flag_payload(strs_view(command@), 1, a@, b@) is None,
        },
{
    let ghost cv = strs_view(command@);
    let mut i: usize = 1;
    while i < command.len()
        invariant
            1 <= i,
            cv == strs_view(command@),
            flag_payload(cv, i as int, a@, b@) == flag_payload(cv, 1, a@, b@),
        decreases command.len() - i,
    {
        let lower = str_ascii_lower(command[i].as_str());
        assert(cv[i as int] == command@[i as int]@);
        if str_eq(lower.as_str(), a) || str_eq(lower.as_str(), b) {
            return if i + 1 < command.len() {
                Some(i + 1)
            } else {
                None
            };
        }
        i = i + 1;
    }
    None
}

fn is_one_of(name: &str, names: &[&str]) -> (r: bool)
    ensures
        r == exists|i: int| 0 <= i < names@.len() && name@ == (#[trigger] names@[i])@,
{
    let mut i: usize = 0;
    while i < names.len()
        invariant
            i <= names.len(),
            forall|j: int| 0 <= j < i ==> name@ != (#[trigger] names@[j])@,
        decreases names.len() - i,
    {
        if str_eq(name, names[i]) {
            return true;
        }
        i = i + 1;
    }
    false
}

/// Where the script a shell runs starts in its command, when the command
/// launches a shell with one.
pub fn shell_payload_index(command: &[String]) -> (r: Option<usize>)
    ensures
        match r {
            Some(i) => payload_index(strs_view(command@)) == Some(i as int),
            None => payload_index(strs_view(command@)) is None,
        },
{
    if command.len() == 0 {
        return None;
    }
    let shell = command_token_basename(command[0].as_str());
    assert(strs_view(command@)[0] == command@[0]@);
    let s = shell.as_str();
    if str_eq(s, "sh") || str_eq(s, "bash") || str_eq(s, "zsh") || str_eq(s, "dash") || str_eq(
        s,
        "ksh",
    ) || str_eq(s, "mksh") || str_eq(s, "ash") || str_eq(s, "fish") || str_eq(s, "csh")
        || str_eq(s, "tcsh") {
        return posix_payload_index(command);
    }
    if str_eq(s, "pwsh") || str_eq(s, "pwsh.exe") || str_eq(s, "powershell") || str_eq(
        s,
        "powershell.exe",
    ) {
        return flag_payload_index(command, "-command", "-c");
    }
    if str_eq(s, "cmd") || str_eq(s, "cmd.exe") {
        return flag_payload_index(command, "/c", "/k");
    }
    None
}

/// The command a shell call shows: the script a launched shell runs, once
/// an `env` launcher is stripped; else the whole command joined by spaces.
pub open spec fn display_command(cmd: Seq<Seq<char>>) -> Seq<char> {
    let start = env_payload_start(cmd);
    let stripped = cmd.subrange(start, cmd.len() as int);
    match payload_index(stripped) {
        Some(i) => {
            let inner = trim(join(stripped.subrange(i, stripped.len() as int), " "@));
            if inner.len() > 0 {
                inner
            } else {
                join(cmd, " "@)
            }
        },
        None => join(cmd, " "@),
    }
}

/// The command a shell call shows, from the tokens it was run with.
pub fn display_command_from_exec_tokens(command: &[String]) -> (r: String)
    ensures
        r@ == display_command(strs_view(command@)),
{
    let ghost cv = strs_view(command@);
    let stripped = strip_env_wrapper_tokens(command);
    assert(strs_view(stripped@) =~= cv.subrange(env_payload_start(cv), cv.len() as int));
    if let Some(index) = shell_payload_index(stripped) {
        proof {
            lemma_payload_in_range(strs_view(stripped@));
        }
        let rest = vstd::slice::slice_subrange(stripped, index, stripped.len());
        assert(strs_view(rest@) =~= strs_view(stripped@).subrange(index as int, stripped@.len() as int));
        let joined = join_strings(rest, " ");
        let inner = trim_str(joined.as_str());
        if inner.as_str().unicode_len() > 0 {
            return inner;
        }
    }
    join_strings(command, " ")
}

proof fn lemma_posix_in_range(cmd: Seq<Seq<char>>, i: int)
    ensures
        posix_payload(cmd, i) matches Some(k) ==> 0 < k < cmd.len(),
    decreases cmd.len() - i,
{
    if 0 <= i < cmd.len() {
        lemma_posix_in_range(cmd, i + 1);
    }
}

proof fn lemma_flag_in_range(cmd: Seq<Seq<char>>, i: int, a: Seq<char>, b: Seq<char>)
    ensures
        flag_payload(cmd, i, a, b) matches Some(k) ==> 0 < k < cmd.len(),
    decreases cmd.len() - i,
{
    if 0 <= i < cmd.len() {
        lemma_flag_in_range(cmd, i + 1, a, b);
    }
}

proof fn lemma_payload_in_range(cmd: Seq<Seq<char>>)
    ensures
        payload_index(cmd) matches Some(k) ==> 0 < k < cmd.len(),
{
    lemma_posix_in_range(cmd, 1);
    lemma_flag_in_range(cmd, 1, "-command"@, "-c"@);
    lemma_flag_in_range(cmd, 1, "/c"@, "/k"@);
}

// ---------------------------------------------------------------------------
// Image generation
// ---------------------------------------------------------------------------

/// The status an image generation reports, as a tool status.
pub open spec fn image_status_named(status: Seq<char>) -> ToolStatus {
    if status == "completed"@ || status == "succeeded"@ || status == "success"@ {
        ToolStatus::Completed
    } else if status == "failed"@ || status == "error"@ {
        ToolStatus::Failed
    } else if status == "cancelled"@ || status == "canceled"@ {
        ToolStatus::Cancelled
    } else if status == "queued"@ || status == "pending"@ {
        ToolStatus::Pending
    } else {
        ToolStatus::Running
    }
}

/// The tool status of an image generation's reported status.
pub fn image_generation_status(status: &str) -> (r: ToolStatus)
    ensures
        r == image_status_named(status@),
{
    if str_eq(status, "completed") || str_eq(status, "succeeded") || str_eq(status, "success") {
        ToolStatus::Completed
    } else if str_eq(status, "failed") || str_eq(status, "error") {
        ToolStatus::Failed
    } else if str_eq(status, "cancelled") || str_eq(status, "canceled") {
        ToolStatus::Cancelled
    } else if str_eq(status, "queued") || str_eq(status, "pending") {
        ToolStatus::Pending
    } else {
        ToolStatus::Running
    }
}

/// The summary of an image generation row.
pub open spec fn image_summary(status: ToolStatus, saved_path: Option<Seq<char>>) -> Seq<char> {
    match status {
        ToolStatus::Completed => if saved_path is Some {
            "Generated image"@
        } else {
            "Generated image metadata"@
        },
        ToolStatus::Failed => "Image generation failed"@,
        ToolStatus::Cancelled => "Image generation cancelled"@,
        _ => "Generating image"@,
    }
}

/// The summary of an image generation row.
pub fn image_generation_summary(status: ToolStatus, saved_path: Option<&str>) -> (r: String)
    ensures
        r@ == image_summary(status, opt_str_view(saved_path)),
{
    match status {
        ToolStatus::Completed => if saved_path.is_some() {
            "Generated image".to_string()
        } else {
            "Generated image metadata".to_string()
        },
        ToolStatus::Failed => "Image generation failed".to_string(),
        ToolStatus::Cancelled => "Image generation cancelled".to_string(),
        _ => "Generating image".to_string(),
    }
}

/// The output of an image generation row.
pub open spec fn image_output(status: ToolStatus, saved_path: Option<Seq<char>>) -> Seq<char> {
    match status {
        ToolStatus::Completed => match saved_path {
            Some(p) => "Saved generated image to "@ + p,
            None => "Image generation completed, but Codex did not provide a saved image path."@,
        },
        ToolStatus::Failed => "Image generation failed."@,
        ToolStatus::Cancelled => "Image generation was cancelled."@,
        _ => "Image generation is still running."@,
    }
}

/// The output of an image generation row.
pub fn image_generation_output(status: ToolStatus, saved_path: Option<&str>) -> (r: String)
    ensures
        r@ == image_output(status, opt_str_view(saved_path)),
{
    match status {
        ToolStatus::Completed => match saved_path {
            Some(p) => concat_str("Saved generated image to ", p),
            None => "Image generation completed, but Codex did not provide a saved image path.".to_string(),
        },
        ToolStatus::Failed => "Image generation failed.".to_string(),
        ToolStatus::Cancelled => "Image generation was cancelled.".to_string(),
        _ => "Image generation is still running.".to_string(),
    }
}

// ---------------------------------------------------------------------------
// Dynamic tools
// ---------------------------------------------------------------------------

/// The family, kind and title a dynamic tool's name stands for.
pub open spec fn identity_named(name: Seq<char>) -> Option<(ToolFamily, ToolKind, Seq<char>)> {
    if name == "file_read"@ {
        Some((ToolFamily::FileRead, ToolKind::Read, "Read"@))
    } else if name == "file_write"@ {
        Some((ToolFamily::FileChange, ToolKind::Write, "Write"@))
    } else if name == "file_edit"@ {
        Some((ToolFamily::FileChange, ToolKind::Edit, "Edit"@))
    } else if name == "plan_write"@ {
        Some((ToolFamily::Plan, ToolKind::Write, "Plan"@))
    } else {
        None
    }
}

/// The family, kind and title of a dynamic tool known by name.
pub fn dynamic_tool_identity_from_name(tool_name: &str) -> (r: Option<
    (ToolFamily, ToolKind, &'static str),
>)
    ensures
        match r {
            Some((f, k, t)) => identity_named(tool_name@) == Some((f, k, t@)),
            None => identity_named(tool_name@) is None,
        },
{
    if str_eq(tool_name, "file_read") {
        Some((ToolFamily::FileRead, ToolKind::Read, "Read"))
    } else if str_eq(tool_name, "file_write") {
        Some((ToolFamily::FileChange, ToolKind::Write, "Write"))
    } else if str_eq(tool_name, "file_edit") {
        Some((ToolFamily::FileChange, ToolKind::Edit, "Edit"))
    } else if str_eq(tool_name, "plan_write") {
        Some((ToolFamily::Plan, ToolKind::Write, "Plan"))
    } else {
        None
    }
}

/// The identity an output object's members give away: bytes written for a
/// write, replacements for an edit, content and truncation for a read.
pub open spec fn identity_of_object(x: Seq<char>) -> Option<(ToolFamily, ToolKind, Seq<char>)> {
    if json_has(x, "/bytes_written"@) {
        Some((ToolFamily::FileChange, ToolKind::Write, "Write"@))
    } else if json_has(x, "/replacements"@) {
        Some((ToolFamily::FileChange, ToolKind::Edit, "Edit"@))
    } else if json_has(x, "/content"@) && json_has(x, "/truncated"@) {
        Some((ToolFamily::FileRead, ToolKind::Read, "Read"@))
    } else {
        None
    }
}

/// The identity a dynamic tool's output gives away, when it is a JSON
/// object, or a JSON string that holds one.
pub open spec fn identity_from_output(output: Option<Seq<char>>) -> Option<(ToolFamily, ToolKind, Seq<char>)> {
    match output {
        None => None,
        Some(o) => match spec_json_lookup(o, Seq::empty()) {
            Some(JsonNodeView::Object(_)) => identity_of_object(o),
            Some(JsonNodeView::Str(inner)) => if json_is_object(inner, Seq::empty()) {
                identity_of_object(inner)
            } else {
                None
            },
            _ => None,
        },
    }
}

fn object_identity(x: &str) -> (r: Option<(ToolFamily, ToolKind, &'static str)>)
    ensures
        match r {
            Some((f, k, t)) => identity_of_object(x@) == Some((f, k, t@)),
            None => identity_of_object(x@) is None,
        },
{
    if json_lookup(x, "/bytes_written").is_some() {
        Some((ToolFamily::FileChange, ToolKind::Write, "Write"))
    } else if json_lookup(x, "/replacements").is_some() {
        Some((ToolFamily::FileChange, ToolKind::Edit, "Edit"))
    } else if json_lookup(x, "/content").is_some() && json_lookup(x, "/truncated").is_some() {
        Some((ToolFamily::FileRead, ToolKind::Read, "Read"))
    } else {
        None
    }
}

/// The family, kind and title a dynamic tool's output gives away.
pub fn dynamic_tool_identity_from_output(output: Option<&String>) -> (r: Option<
    (ToolFamily, ToolKind, &'static str),
>)
    ensures
        match r {
            Some((f, k, t)) => identity_from_output(
                match output {
                    Some(o) => Some(o@),
                    None => None,
                },
            ) == Some((f, k, t@)),
            None => identity_from_output(
                match output {
                    Some(o) => Some(o@),
                    None => None,
                },
            ) is None,
        },
{
    proof {
        reveal_strlit("");
        assert(""@ =~= Seq::<char>::empty());
    }
    let o = match output {
        Some(o) => o,
        None => {
            return None;
        },
    };
    match json_lookup(o.as_str(), "") {
        Some(JsonNode::Object(_)) => object_identity(o.as_str()),
        Some(JsonNode::Str(inner)) => match json_lookup(inner.as_str(), "") {
            Some(JsonNode::Object(_)) => object_identity(inner.as_str()),
            _ => None,
        },
        _ => None,
    }
}

} // verus!
