//! One repository checkout, the outcome of one external command run
//! against it, and the rendering of that outcome.

use vstd::prelude::*;
use vstd::string::*;

use crate::text::{append_dec_i32, contains_seq, lemma_contains_between, spec_dec_i32};

verus! {

/// One repository checkout and how to reach it: the working directory,
/// the git executable, and the branch the deployment follows.
pub struct GitRepository {
    pub repo_dir: String,
    pub git: String,
    pub main_branch: String,
}

/// What one finished external command yielded: its exit code (`None` when
/// it ended without one) and its captured output streams.
#[derive(Debug)]
pub struct CommandOutput {
    pub code: Option<i32>,
    pub stdout: String,
    pub stderr: String,
}

/// Why a stage failed: the command could not even be launched (the
/// launcher's message), or it ran and ended unsuccessfully.
#[derive(Debug)]
pub enum GitRepositoryError {
    CommandError(String),
    CommandFailed(CommandOutput),
}

/// The banner that opens a stage's block in the log.
pub open spec fn spec_stage_banner(stage: Seq<char>) -> Seq<char> {
    "\n--------\n"@ + stage + "\n--------\n"@
}

/// The status line of a rendered command result.
pub open spec fn spec_status_line(code: Option<i32>) -> Seq<char> {
    "++ status = "@ + (match code {
        Some(c) => spec_dec_i32(c as int),
        None => "signal"@,
    }) + "\n"@
}

/// One captured stream, labeled; an empty stream is marked `[empty]`
/// explicitly, never omitted.
pub open spec fn spec_section(label: Seq<char>, text: Seq<char>) -> Seq<char> {
    if text.len() == 0 {
        "++ "@ + label + " [empty]\n"@
    } else {
        "++ "@ + label + "\n"@ + text + "\n"@
    }
}

/// The whole rendered block for one command result under a stage name.
pub open spec fn spec_format(out: CommandOutput, stage: Seq<char>) -> Seq<char> {
    spec_stage_banner(stage) + spec_status_line(out.code) + spec_section("stdout"@, out.stdout@)
        + spec_section("stderr"@, out.stderr@)
}

impl CommandOutput {
    /// Whether the command ended successfully: exit code zero.
    pub open spec fn spec_success(&self) -> bool {
        self.code == Some(0i32)
    }

    /// Whether the command ended successfully: exit code zero.
    pub fn success(&self) -> (r: bool)
        ensures
            r == self.spec_success(),
    {
        match self.code {
            Some(c) => c == 0,
            None => false,
        }
    }

    /// Renders this result as the log block for the given stage: banner,
    /// status line, and both streams with `[empty]` marked explicitly.
    #[verifier::rlimit(50)]
    pub fn format(&self, stage_name: &str) -> (r: String)
        ensures
            r@ == spec_format(*self, stage_name@),
    {
        let mut s = String::new();
        s.append("\n--------\n");
        s.append(stage_name);
        s.append("\n--------\n");
        s.append("++ status = ");
        match self.code {
            Some(c) => append_dec_i32(&mut s, c),
            None => s.append("signal"),
        }
        s.append("\n");
        s.append("++ ");
        s.append("stdout");
        if self.stdout.as_str().is_empty() {
            s.append(" [empty]\n");
        } else {
            s.append("\n");
            s.append(self.stdout.as_str());
            s.append("\n");
        }
        s.append("++ ");
        s.append("stderr");
        if self.stderr.as_str().is_empty() {
            s.append(" [empty]\n");
        } else {
            s.append("\n");
            s.append(self.stderr.as_str());
            s.append("\n");
        }
        proof {
            assert(s@ =~= spec_format(*self, stage_name@));
        }
        s
    }
}

/// Classifies one launched command: a launch failure carries the
/// launcher's message; a run that ended unsuccessfully is a failure
/// carrying the whole output; a successful run hands the output on.
pub open spec fn spec_evaluate_launch(launch: Result<CommandOutput, String>) -> Result<
    CommandOutput,
    GitRepositoryError,
> {
    match launch {
        Err(e) => Err(GitRepositoryError::CommandError(e)),
        Ok(out) => if out.spec_success() {
            Ok(out)
        } else {
            Err(GitRepositoryError::CommandFailed(out))
        },
    }
}

/// A rendered block marks an empty captured stream `[empty]`, explicitly
/// and always, and carries a non-empty stream's text verbatim.
pub proof fn lemma_format_stream_sections(out: CommandOutput, stage: Seq<char>)
    ensures
        out.stdout@.len() == 0 ==> contains_seq(spec_format(out, stage), "++ stdout [empty]\n"@),
        out.stderr@.len() == 0 ==> contains_seq(spec_format(out, stage), "++ stderr [empty]\n"@),
        out.stdout@.len() > 0 ==> contains_seq(spec_format(out, stage), out.stdout@),
        out.stderr@.len() > 0 ==> contains_seq(spec_format(out, stage), out.stderr@),
{
    reveal_strlit("++ ");
    reveal_strlit("stdout");
    reveal_strlit("stderr");
    reveal_strlit(" [empty]\n");
    reveal_strlit("++ stdout [empty]\n");
    reveal_strlit("++ stderr [empty]\n");
    reveal_strlit("\n");
    let head = spec_stage_banner(stage) + spec_status_line(out.code);
    let sec_out = spec_section("stdout"@, out.stdout@);
    let sec_err = spec_section("stderr"@, out.stderr@);
    if out.stdout@.len() == 0 {
        assert(sec_out =~= "++ stdout [empty]\n"@);
        assert(spec_format(out, stage) =~= head + "++ stdout [empty]\n"@ + sec_err);
        lemma_contains_between(head, "++ stdout [empty]\n"@, sec_err);
    } else {
        let before = head + ("++ "@ + "stdout"@ + "\n"@);
        assert(spec_format(out, stage) =~= before + out.stdout@ + ("\n"@ + sec_err));
        lemma_contains_between(before, out.stdout@, "\n"@ + sec_err);
    }
    if out.stderr@.len() == 0 {
        assert(sec_err =~= "++ stderr [empty]\n"@);
        assert(spec_format(out, stage) =~= (head + sec_out) + "++ stderr [empty]\n"@
            + Seq::<char>::empty());
        lemma_contains_between(head + sec_out, "++ stderr [empty]\n"@, Seq::<char>::empty());
    } else {
        let before = head + sec_out + ("++ "@ + "stderr"@ + "\n"@);
        assert(spec_format(out, stage) =~= before + out.stderr@ + "\n"@);
        lemma_contains_between(before, out.stderr@, "\n"@);
    }
}

/// The decision half of running a command: everything after the launch.
pub fn evaluate_launch(launch: Result<CommandOutput, String>) -> (r: Result<
    CommandOutput,
    GitRepositoryError,
>)
    ensures
        r == spec_evaluate_launch(launch),
{
    match launch {
        Err(e) => Err(GitRepositoryError::CommandError(e)),
        Ok(out) => {
            if out.success() {
                Ok(out)
            } else {
                Err(GitRepositoryError::CommandFailed(out))
            }
        },
    }
}

} // verus!
