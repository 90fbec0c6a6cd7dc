//! Building and cleaning nodes: which commands may run, and what is kept of their output.
use crate::daemon::error::{NodeManagerError, NodeManagerErrorView};
use crate::daemon::laws;
use crate::daemon::node::{BuildState, BuildStateView};
use crate::text;
use vstd::prelude::*;
use vstd::string::*;

verus! {

/// Seconds that a build or clean may take.
pub const BUILD_TIMEOUT_SECS: u64 = 600;

/// Lines of output that are kept of a build or clean.
pub const MAX_OUTPUT_LINES: usize = 100;

/// The command that cleans a node.
pub const CLEAN_COMMAND: &'static str = "pixi run clean";

// ---- which commands may run ------------------------------------------------

/// Whether a command in lower case calls one of the permitted tools.
pub open spec fn permitted_tool(lowered: Seq<char>) -> bool {
    ||| "cargo "@.is_prefix_of(lowered)
    ||| "pixi "@.is_prefix_of(lowered)
    ||| "npm "@.is_prefix_of(lowered)
    ||| "make "@.is_prefix_of(lowered)
    ||| "python "@.is_prefix_of(lowered)
    ||| "pip "@.is_prefix_of(lowered)
}

/// Whether a character has a meaning to the shell that a build command must not use.
pub open spec fn dangerous(c: char) -> bool {
    ||| c == '$'
    ||| c == '`'
    ||| c == '|'
    ||| c == ';'
    ||| c == '&'
    ||| c == '>'
    ||| c == '<'
    ||| c == '('
    ||| c == ')'
    ||| c == '{'
    ||| c == '}'
    ||| c == '!'
    ||| c == '\\'
    ||| c == '\n'
    ||| c == '\r'
}

/// The first dangerous character of a command.
pub open spec fn first_dangerous(cmd: Seq<char>) -> Option<char>
    decreases cmd.len(),
{
    if cmd.len() == 0 {
        None
    } else {
        match first_dangerous(cmd.drop_last()) {
            Some(c) => Some(c),
            None => if dangerous(cmd.last()) {
                Some(cmd.last())
            } else {
                None
            },
        }
    }
}

/// At most the first 50 characters of a command.
pub open spec fn excerpt(cmd: Seq<char>) -> Seq<char> {
    if cmd.len() <= 50 {
        cmd
    } else {
        cmd.take(50)
    }
}

/// Why a command may not run, if it may not. `lowered` is the command in lower case.
pub open spec fn command_fault(cmd: Seq<char>, lowered: Seq<char>) -> Option<Seq<char>> {
    if !permitted_tool(lowered) {
        Some(
            "Build command must start with one of: cargo, pixi, npm, make, python, pip. Got: "@
                + excerpt(cmd),
        )
    } else {
        match first_dangerous(cmd) {
            Some(c) => Some(
                "Build command contains dangerous character '"@.push(c) + "': "@ + excerpt(cmd),
            ),
            None => None,
        }
    }
}

/// A command may run exactly if it calls a permitted tool and holds no dangerous character.
pub proof fn runnable_commands_are_harmless(cmd: Seq<char>, lowered: Seq<char>)
    ensures
        command_fault(cmd, lowered) is None <==> permitted_tool(lowered) && (forall|i: int|
            0 <= i < cmd.len() ==> !dangerous(#[trigger] cmd[i])),
    decreases cmd.len(),
{
    first_dangerous_is_first(cmd);
}

/// [`first_dangerous`] finds a dangerous character if there is one, and nothing dangerous
/// stands before it.
pub proof fn first_dangerous_is_first(cmd: Seq<char>)
    ensures
        match first_dangerous(cmd) {
            Some(c) => dangerous(c) && exists|i: int|
                0 <= i < cmd.len() && #[trigger] cmd[i] == c && forall|j: int|
                    0 <= j < i ==> !dangerous(#[trigger] cmd[j]),
            None => forall|i: int| 0 <= i < cmd.len() ==> !dangerous(#[trigger] cmd[i]),
        },
    decreases cmd.len(),
{
    if cmd.len() > 0 {
        let before = cmd.drop_last();
        first_dangerous_is_first(before);
        assert(forall|i: int| 0 <= i < before.len() ==> before[i] == cmd[i]);
        match first_dangerous(before) {
            Some(c) => {
                let i = choose|i: int|
                    0 <= i < before.len() && #[trigger] before[i] == c && forall|j: int|
                        0 <= j < i ==> !dangerous(#[trigger] before[j]);
                assert(cmd[i] == c);
                assert forall|j: int| 0 <= j < i implies !dangerous(#[trigger] cmd[j]) by {
                    assert(before[j] == cmd[j]);
                }
            },
            None => {
                assert forall|j: int| 0 <= j < before.len() implies !dangerous(
                    #[trigger] cmd[j],
                ) by {
                    assert(before[j] == cmd[j]);
                }
                assert(cmd[cmd.len() - 1] == cmd.last());
            },
        }
    }
}

/// Whether a character has a meaning to the shell that a build command must not use.
pub fn is_dangerous(c: char) -> (r: bool)
    ensures
        r == dangerous(c),
        r == "$`|;&><(){}!\\\n\r"@.contains(c),
{
    proof {
        laws::dangerous_characters_are_these(c);
    }
    c == '$' || c == '`' || c == '|' || c == ';' || c == '&' || c == '>' || c == '<' || c == '('
        || c == ')' || c == '{' || c == '}' || c == '!' || c == '\\' || c == '\n' || c == '\r'
}

/// Checks a command against its own lower case form.
pub fn validate_lowered_command(cmd: &str, lowered: &str) -> (r: Result<(), NodeManagerError>)
    ensures
        match r {
            Ok(_) => command_fault(cmd@, lowered@) is None,
            Err(e) => command_fault(cmd@, lowered@) matches Some(fault) && e@
                == NodeManagerErrorView::BuildError(fault),
        },
{
    let start = text::first_chars(cmd, 50);
    assert(start@ =~= excerpt(cmd@));
    let permitted = text::starts_with(lowered, "cargo ") || text::starts_with(lowered, "pixi ")
        || text::starts_with(lowered, "npm ") || text::starts_with(lowered, "make ")
        || text::starts_with(lowered, "python ") || text::starts_with(lowered, "pip ");
    if !permitted {
        let mut message =
            "Build command must start with one of: cargo, pixi, npm, make, python, pip. Got: ".to_owned();
        message.append(start);
        return Err(NodeManagerError::BuildError(message));
    }
    let chars = text::chars_of(cmd);
    for i in 0..chars.len()
        invariant
            chars@ == cmd@,
            permitted_tool(lowered@),
            start@ == excerpt(cmd@),
            first_dangerous(cmd@.take(i as int)) is None,
    {
        assert(cmd@.take(i as int + 1).drop_last() =~= cmd@.take(i as int));
        if is_dangerous(chars[i]) {
            proof {
                first_dangerous_stays(cmd@, i as int + 1);
            }
            let mut message = "Build command contains dangerous character '".to_owned();
            message.push(chars[i]);
            message.append("': ");
            message.append(start);
            return Err(NodeManagerError::BuildError(message));
        }
    }
    assert(cmd@.take(cmd@.len() as int) =~= cmd@);
    Ok(())
}

/// The first dangerous character of a beginning of a command is that of the command.
proof fn first_dangerous_stays(cmd: Seq<char>, n: int)
    requires
        0 <= n <= cmd.len(),
        first_dangerous(cmd.take(n)) is Some,
    ensures
        first_dangerous(cmd) == first_dangerous(cmd.take(n)),
    decreases cmd.len(),
{
    if n == cmd.len() {
        assert(cmd.take(n) =~= cmd);
    } else {
        assert(cmd.drop_last().take(n) =~= cmd.take(n));
        first_dangerous_stays(cmd.drop_last(), n);
    }
}

/// Whether a command begins with the name of a tool and a space, in upper or lower case.
pub open spec fn calls(cmd: Seq<char>, tool: Seq<char>) -> bool {
    tool.len() <= cmd.len() && text::ascii_lowered(cmd.take(tool.len() as int)) == tool
}

/// Whether a command plainly calls one of the permitted tools, in upper or lower case.
pub open spec fn calls_permitted_tool(cmd: Seq<char>) -> bool {
    ||| calls(cmd, "cargo "@)
    ||| calls(cmd, "pixi "@)
    ||| calls(cmd, "npm "@)
    ||| calls(cmd, "make "@)
    ||| calls(cmd, "python "@)
    ||| calls(cmd, "pip "@)
}

/// Whether a text holds no dangerous character.
pub open spec fn harmless(cmd: Seq<char>) -> bool {
    forall|i: int| 0 <= i < cmd.len() ==> !dangerous(#[trigger] cmd[i])
}

/// Whether the characters in which the name of a permitted tool would stand are all ASCII.
pub open spec fn starts_plainly(cmd: Seq<char>) -> bool {
    text::all_ascii(
        cmd.take(
            if cmd.len() < 7 {
                cmd.len() as int
            } else {
                7
            },
        ),
    )
}

/// What holds of a text and its lower case form: characters of ASCII at the beginning are put
/// into lower case one by one.
spec fn lowered_plainly(cmd: Seq<char>, lowered: Seq<char>) -> bool {
    &&& text::all_ascii(cmd) ==> lowered == text::ascii_lowered(cmd)
    &&& forall|n: int|
        0 <= n <= cmd.len() && text::all_ascii(#[trigger] cmd.take(n)) ==> n <= lowered.len()
            && lowered.take(n) == text::ascii_lowered(cmd.take(n))
}

/// A command calls a tool exactly if its lower case form begins with the tool's name, where
/// the characters that matter are ASCII.
proof fn calls_by_lower_case(cmd: Seq<char>, lowered: Seq<char>, tool: Seq<char>)
    requires
        lowered_plainly(cmd, lowered),
        plain_tool(tool),
    ensures
        calls(cmd, tool) ==> tool.is_prefix_of(lowered),
        starts_plainly(cmd) && tool.is_prefix_of(lowered) ==> calls(cmd, tool),
{
    let n = tool.len() as int;
    if calls(cmd, tool) {
        let start = cmd.take(n);
        assert forall|i: int| 0 <= i < start.len() implies text::ascii(#[trigger] start[i]) by {
            assert(text::ascii_lowered(start)[i] == tool[i]);
            assert(text::ascii(tool[i]));
        }
        assert(lowered.take(n) == text::ascii_lowered(start));
    }
    if starts_plainly(cmd) && tool.is_prefix_of(lowered) {
        let m = if cmd.len() < 7 {
            cmd.len() as int
        } else {
            7
        };
        if n <= cmd.len() {
            let start = cmd.take(n);
            assert forall|i: int| 0 <= i < start.len() implies text::ascii(#[trigger] start[i]) by {
                assert(text::ascii(cmd.take(m)[i]));
            }
            assert(lowered.take(n) == text::ascii_lowered(start));
            assert(tool =~= lowered.take(n));
        } else {
            assert(cmd.take(m) =~= cmd);
            assert(lowered.len() == cmd.len());
        }
    }
}

/// Whether the name of a tool is short and in ASCII.
spec fn plain_tool(tool: Seq<char>) -> bool {
    text::all_ascii(tool) && tool.len() <= 7
}

/// The names of the permitted tools are short and in ASCII.
proof fn tools_are_plain()
    ensures
        plain_tool("cargo "@),
        plain_tool("pixi "@),
        plain_tool("npm "@),
        plain_tool("make "@),
        plain_tool("python "@),
        plain_tool("pip "@),
{
    reveal_strlit("cargo ");
    reveal_strlit("pixi ");
    reveal_strlit("npm ");
    reveal_strlit("make ");
    reveal_strlit("python ");
    reveal_strlit("pip ");
}

/// A command holds a dangerous character wherever it stands, and is then never harmless.
pub proof fn dangerous_characters_are_found(a: Seq<char>, d: char, b: Seq<char>)
    requires
        dangerous(d),
    ensures
        !harmless(a.push(d) + b),
        forall|lowered: Seq<char>| #[trigger] command_fault(a.push(d) + b, lowered) is Some,
{
    let cmd = a.push(d) + b;
    assert(cmd[a.len() as int] == d);
    assert forall|lowered: Seq<char>| #[trigger] command_fault(cmd, lowered) is Some by {
        runnable_commands_are_harmless(cmd, lowered);
    }
}

/// A command that calls a permitted tool and is harmless stays so, whatever harmless text is
/// appended.
pub proof fn harmless_text_can_be_appended(a: Seq<char>, b: Seq<char>)
    requires
        calls_permitted_tool(a),
        harmless(a),
        harmless(b),
    ensures
        calls_permitted_tool(a + b),
        harmless(a + b),
{
    calls_with_more(a, b, "cargo "@);
    calls_with_more(a, b, "pixi "@);
    calls_with_more(a, b, "npm "@);
    calls_with_more(a, b, "make "@);
    calls_with_more(a, b, "python "@);
    calls_with_more(a, b, "pip "@);
    assert forall|i: int| 0 <= i < (a + b).len() implies !dangerous(#[trigger] (a + b)[i]) by {
        if i < a.len() {
            assert((a + b)[i] == a[i]);
        } else {
            assert((a + b)[i] == b[i - a.len()]);
        }
    }
}

proof fn calls_with_more(a: Seq<char>, b: Seq<char>, tool: Seq<char>)
    ensures
        calls(a, tool) ==> calls(a + b, tool),
{
    if tool.len() <= a.len() {
        assert((a + b).take(tool.len() as int) =~= a.take(tool.len() as int));
    }
}

/// Upper and lower case make no difference: a command calls a permitted tool, is harmless and
/// starts plainly exactly if the same holds of it in upper case.
pub proof fn case_makes_no_difference(a: Seq<char>)
    ensures
        calls_permitted_tool(a) <==> calls_permitted_tool(text::ascii_uppered(a)),
        harmless(a) <==> harmless(text::ascii_uppered(a)),
        starts_plainly(a) <==> starts_plainly(text::ascii_uppered(a)),
{
    let upper = text::ascii_uppered(a);
    calls_in_upper_case(a, "cargo "@);
    calls_in_upper_case(a, "pixi "@);
    calls_in_upper_case(a, "npm "@);
    calls_in_upper_case(a, "make "@);
    calls_in_upper_case(a, "python "@);
    calls_in_upper_case(a, "pip "@);
    assert forall|i: int| 0 <= i < a.len() implies dangerous(#[trigger] a[i]) == dangerous(
        upper[i],
    ) && text::ascii(a[i]) == text::ascii(upper[i]) by {}
    if harmless(a) {
        assert forall|i: int| 0 <= i < upper.len() implies !dangerous(#[trigger] upper[i]) by {
            assert(!dangerous(a[i]));
        }
    }
    if harmless(upper) {
        assert forall|i: int| 0 <= i < a.len() implies !dangerous(#[trigger] a[i]) by {
            assert(!dangerous(upper[i]));
        }
    }
    let m = if a.len() < 7 {
        a.len() as int
    } else {
        7
    };
    if starts_plainly(a) {
        assert forall|i: int| 0 <= i < upper.take(m).len() implies text::ascii(
            #[trigger] upper.take(m)[i],
        ) by {
            assert(text::ascii(a.take(m)[i]));
            assert(text::ascii(a[i]) == text::ascii(upper[i]));
        }
    }
    if starts_plainly(upper) {
        assert forall|i: int| 0 <= i < a.take(m).len() implies text::ascii(
            #[trigger] a.take(m)[i],
        ) by {
            assert(text::ascii(upper.take(m)[i]));
            assert(text::ascii(a[i]) == text::ascii(upper[i]));
        }
    }
}

proof fn calls_in_upper_case(a: Seq<char>, tool: Seq<char>)
    ensures
        calls(a, tool) <==> calls(text::ascii_uppered(a), tool),
{
    let upper = text::ascii_uppered(a);
    let n = tool.len() as int;
    if n <= a.len() {
        assert forall|i: int| 0 <= i < n implies text::ascii_lower(#[trigger] a[i])
            == text::ascii_lower(upper[i]) by {}
        assert(text::ascii_lowered(a.take(n)) =~= text::ascii_lowered(upper.take(n)));
    }
}

/// Whether a command may run.
pub open spec fn runnable(cmd: Seq<char>) -> bool {
    command_fault(cmd, text::lowercase(cmd)) is None
}

/// Checks that a build command calls a permitted tool, in upper or lower case, and holds no
/// character that the shell would act on. A command that may run still may when harmless text
/// is appended.
pub fn validate_build_command(cmd: &str) -> (r: Result<(), NodeManagerError>)
    ensures
        calls_permitted_tool(cmd@) && harmless(cmd@) ==> r is Ok,
        r is Ok ==> harmless(cmd@),
        starts_plainly(cmd@) && r is Ok ==> calls_permitted_tool(cmd@),
        r is Ok <==> runnable(cmd@),
        forall|n: int|
            0 <= n <= cmd@.len() && runnable(#[trigger] cmd@.take(n)) && harmless(cmd@.skip(n))
                ==> r is Ok,
        match r {
            Ok(_) => command_fault(cmd@, text::lowercase(cmd@)) is None,
            Err(e) => command_fault(cmd@, text::lowercase(cmd@)) matches Some(fault) && e@
                == NodeManagerErrorView::BuildError(fault),
        },
{
    let lowered = cmd.to_lowercase();
    proof {
        runnable_commands_are_harmless(cmd@, lowered@);
        tools_are_plain();
        calls_by_lower_case(cmd@, lowered@, "cargo "@);
        calls_by_lower_case(cmd@, lowered@, "pixi "@);
        calls_by_lower_case(cmd@, lowered@, "npm "@);
        calls_by_lower_case(cmd@, lowered@, "make "@);
        calls_by_lower_case(cmd@, lowered@, "python "@);
        calls_by_lower_case(cmd@, lowered@, "pip "@);
        assert forall|n: int|
            0 <= n <= cmd@.len() && runnable(#[trigger] cmd@.take(n)) && harmless(
                cmd@.skip(n),
            ) implies runnable(cmd@) by {
            let start = cmd@.take(n);
            runnable_commands_are_harmless(start, text::lowercase(start));
            assert(permitted_tool(text::lowercase(start)));
            assert(permitted_tool(lowered@));
            assert forall|i: int| 0 <= i < cmd@.len() implies !dangerous(#[trigger] cmd@[i]) by {
                if i < n {
                    assert(start[i] == cmd@[i]);
                } else {
                    assert(cmd@.skip(n)[i - n] == cmd@[i]);
                }
            }
        }
    }
    validate_lowered_command(cmd, lowered.as_str())
}

// ---- running ---------------------------------------------------------------

/// A path below a directory.
pub open spec fn path_below(dir: Seq<char>, rest: Seq<char>) -> Seq<char> {
    if dir.len() == 0 {
        rest
    } else if dir.last() == '/' {
        dir + rest
    } else {
        dir + "/"@ + rest
    }
}

/// The relative path `rest` below the directory `dir`.
pub fn join_path(dir: &str, rest: &str) -> (r: String)
    ensures
        r@ == path_below(dir@, rest@),
{
    let n: usize = dir.unicode_len();
    let mut r = dir.to_owned();
    if n > 0 && dir.get_char(n - 1) != '/' {
        r.append("/");
    }
    r.append(rest);
    assert(n == 0 ==> r@ =~= rest@);
    r
}

/// The directories in which build commands look for programs, given the user's home: the
/// user's own tools before those of the system.
pub open spec fn search_path(home: Option<Seq<char>>) -> Seq<char> {
    let dir = match home {
        Some(dir) => dir,
        None => "/home/user"@,
    };
    path_below(dir, ".cargo/bin"@) + ":"@ + path_below(dir, ".pixi/bin"@)
        + ":/usr/local/bin:/usr/bin:/bin"@
}

/// The directories in which build commands look for programs, given the user's home.
pub fn build_search_path(home: Option<&str>) -> (r: String)
    ensures
        r@ == search_path(text::opt_str_view(home)),
{
    let dir = match home {
        Some(dir) => dir,
        None => "/home/user",
    };
    let mut r = join_path(dir, ".cargo/bin");
    r.append(":");
    r.append(join_path(dir, ".pixi/bin").as_str());
    r.append(":/usr/local/bin:/usr/bin:/bin");
    r
}

/// How a build or clean command is run.
#[derive(Debug)]
pub struct BuildPlan {
    /// The program that is started.
    pub program: &'static str,
    /// What the program is given.
    pub arguments: Vec<String>,
    /// Where the command looks for programs.
    pub search_path: String,
}

/// How a build or clean command is run: by the shell, if it may run at all.
pub fn plan_build(cmd: &str, home: Option<&str>) -> (r: Result<BuildPlan, NodeManagerError>)
    ensures
        match r {
            Ok(plan) => {
                &&& command_fault(cmd@, text::lowercase(cmd@)) is None
                &&& plan.program@ == "sh"@
                &&& text::views(plan.arguments@) == seq!["-c"@, cmd@]
                &&& plan.search_path@ == search_path(text::opt_str_view(home))
            },
            Err(e) => command_fault(cmd@, text::lowercase(cmd@)) matches Some(fault) && e@
                == NodeManagerErrorView::BuildError(fault),
        },
{
    match validate_build_command(cmd) {
        Err(e) => Err(e),
        Ok(_) => {
            let mut arguments: Vec<String> = Vec::new();
            arguments.push("-c".to_owned());
            arguments.push(cmd.to_owned());
            assert(text::views(arguments@) =~= seq!["-c"@, cmd@]);
            Ok(BuildPlan { program: "sh", arguments, search_path: build_search_path(home) })
        },
    }
}

/// What a command's end means: success, or a failure with its exit code, -1 if it has none.
pub fn exit_result(success: bool, code: Option<i32>) -> (r: Result<(), NodeManagerError>)
    ensures
        match r {
            Ok(_) => success,
            Err(e) => !success && e@ == NodeManagerErrorView::BuildError(
                "Command exited with code "@ + text::signed_decimal(
                    match code {
                        Some(c) => c as int,
                        None => -1,
                    },
                ),
            ),
        },
{
    if success {
        Ok(())
    } else {
        let shown: i32 = match code {
            Some(c) => c,
            None => -1,
        };
        let mut message = "Command exited with code ".to_owned();
        message.append(text::signed_number(shown as i64).as_str());
        Err(NodeManagerError::BuildError(message))
    }
}

/// The outcome of a command that was given limited time; `None` means that time ran out.
pub fn run_with_timeout(ended: Option<Result<(), NodeManagerError>>, name: &str) -> (r: Result<
    (),
    NodeManagerError,
>)
    ensures
        match ended {
            Some(result) => r == result,
            None => r matches Err(e) && e@ == NodeManagerErrorView::BuildTimeout(name@),
        },
{
    match ended {
        Some(result) => result,
        None => Err(NodeManagerError::BuildTimeout(name.to_owned())),
    }
}

// ---- output ----------------------------------------------------------------

/// Output after one more line: the line is added, and the oldest line leaves if there are now
/// more than are kept.
pub open spec fn with_line(output: Seq<Seq<char>>, line: Seq<char>) -> Seq<Seq<char>> {
    if output.len() < MAX_OUTPUT_LINES {
        output.push(line)
    } else {
        output.push(line).skip(1)
    }
}

/// Output after more lines, in turn.
pub open spec fn with_lines(output: Seq<Seq<char>>, lines: Seq<Seq<char>>) -> Seq<Seq<char>>
    decreases lines.len(),
{
    if lines.len() == 0 {
        output
    } else {
        with_line(with_lines(output, lines.drop_last()), lines.last())
    }
}

/// The last lines of a text, as many as are kept.
pub open spec fn last_lines(lines: Seq<Seq<char>>) -> Seq<Seq<char>> {
    if lines.len() <= MAX_OUTPUT_LINES {
        lines
    } else {
        lines.skip(lines.len() - MAX_OUTPUT_LINES)
    }
}

/// Whatever lines arrive, the last 100 are kept, in the order in which they came.
pub proof fn output_keeps_the_last_lines(output: Seq<Seq<char>>, lines: Seq<Seq<char>>)
    requires
        output.len() <= MAX_OUTPUT_LINES,
    ensures
        with_lines(output, lines) == last_lines(output + lines),
        with_lines(output, lines).len() <= MAX_OUTPUT_LINES,
    decreases lines.len(),
{
    if lines.len() == 0 {
        assert(output + lines =~= output);
    } else {
        output_keeps_the_last_lines(output, lines.drop_last());
        let all = output + lines;
        let before = output + lines.drop_last();
        assert(all =~= before.push(lines.last()));
        assert(with_line(last_lines(before), lines.last()) =~= last_lines(all));
    }
}

impl BuildState {
    /// Adds a line of output; only the last 100 lines are kept.
    pub fn push_line(&mut self, line: String)
        ensures
            final(self)@ == (BuildStateView {
                output: with_line(old(self)@.output, line@),
                ..old(self)@
            }),
    {
        let ghost before = self@.output;
        self.output.push(line);
        assert(text::views(self.output@) =~= before.push(line@));
        if self.output.len() > MAX_OUTPUT_LINES {
            let _oldest = self.output.remove(0);
            assert(text::views(self.output@) =~= before.push(line@).skip(1));
        }
    }
}

/// The line that ends the output of a build or clean. `label` is `Build` or `Clean`.
pub open spec fn closing_line(
    result: Result<(), NodeManagerErrorView>,
    label: Seq<char>,
) -> Seq<char> {
    match result {
        Ok(_) => "--- "@ + label + " completed successfully ---"@,
        Err(NodeManagerErrorView::BuildTimeout(_)) => "--- "@ + label + " timed out ---"@,
        Err(e) => "--- "@ + label + " failed: "@ + e.text() + " ---"@,
    }
}

/// The line that ends the output of a build or clean.
pub fn closing_message(result: &Result<(), NodeManagerError>, label: &str) -> (r: String)
    ensures
        r@ == closing_line(crate::daemon::error::outcome(*result), label@),
{
    let mut r = "--- ".to_owned();
    r.append(label);
    match result {
        Ok(_) => {
            r.append(" completed successfully ---");
        },
        Err(NodeManagerError::BuildTimeout(_)) => {
            r.append(" timed out ---");
        },
        Err(e) => {
            r.append(" failed: ");
            r.append(e.to_string().as_str());
            r.append(" ---");
        },
    }
    r
}

/// The event that tells how a build ended.
pub open spec fn build_event_of(result: Result<(), NodeManagerErrorView>) -> Seq<char> {
    match result {
        Ok(_) => "build_complete"@,
        Err(NodeManagerErrorView::BuildTimeout(_)) => "build_timeout"@,
        Err(_) => "build_failed"@,
    }
}

/// The event that tells how a build ended.
pub fn build_event(result: &Result<(), NodeManagerError>) -> (r: &'static str)
    ensures
        r@ == build_event_of(crate::daemon::error::outcome(*result)),
{
    match result {
        Ok(_) => "build_complete",
        Err(NodeManagerError::BuildTimeout(_)) => "build_timeout",
        Err(_) => "build_failed",
    }
}

} // verus!
