//! The deployment pipeline for one queued job: the fixed
//! fetch/checkout/rebase/script sequence, each stage logged, a failure
//! aborting every later stage.
//!
//! Launching a subprocess is the caller's part: the pipeline hands out the
//! next command to run and is fed what the launch yielded, so every
//! decision — classification, logging, abort — is made here.

use vstd::prelude::*;
use vstd::string::*;

use crate::git::{
    evaluate_launch, spec_evaluate_launch, spec_format, spec_stage_banner, CommandOutput,
    GitRepository, GitRepositoryError,
};
use crate::hook::HookConfig;
use crate::log::{spec_entry, SimpleLog};
use crate::text::{no_newlines, seq_views};

verus! {

/// The log text recorded for one stage's outcome grew by exactly that
/// outcome's block: a success by its output block as one INFO entry, a
/// launch failure by the stage banner and the launcher's message as two
/// ERROR entries, a failed run by its output block as one ERROR entry.
pub open spec fn logged_outcome(
    pre: Seq<char>,
    post: Seq<char>,
    stage: Seq<char>,
    outcome: Result<CommandOutput, GitRepositoryError>,
) -> bool {
    match outcome {
        Ok(out) => exists|ts: Seq<char>|
            no_newlines(ts) && post == pre + spec_entry(ts, "INFO"@, spec_format(out, stage)),
        Err(GitRepositoryError::CommandError(e)) => exists|ts1: Seq<char>, ts2: Seq<char>|
            no_newlines(ts1) && no_newlines(ts2) && post == pre + spec_entry(
                ts1,
                "ERROR"@,
                spec_stage_banner(stage),
            ) + spec_entry(ts2, "ERROR"@, "error = "@ + e@),
        Err(GitRepositoryError::CommandFailed(out)) => exists|ts: Seq<char>|
            no_newlines(ts) && post == pre + spec_entry(ts, "ERROR"@, spec_format(out, stage)),
    }
}

/// Records a successful stage's output block as one INFO entry.
pub fn render_command_output_to_log(log: &mut SimpleLog, stage: &str, output: &CommandOutput)
    ensures
        logged_outcome(old(log)@, final(log)@, stage@, Ok(*output)),
{
    let text = output.format(stage);
    log.info(text.as_str());
}

/// Records a failed stage as its ERROR entries: a launch failure as the
/// stage banner and the launcher's message, a failed run as its block.
pub fn render_command_error_to_log(log: &mut SimpleLog, stage: &str, err: &GitRepositoryError)
    ensures
        logged_outcome(old(log)@, final(log)@, stage@, Err(*err)),
{
    match err {
        GitRepositoryError::CommandError(e) => {
            let mut banner = String::new();
            banner.append("\n--------\n");
            banner.append(stage);
            banner.append("\n--------\n");
            let ghost mid: Seq<char>;
            log.error(banner.as_str());
            proof {
                mid = log@;
            }
            let mut msg = String::new();
            msg.append("error = ");
            msg.append(e.as_str());
            log.error(msg.as_str());
            proof {
                let ts1 = choose|ts: Seq<char>|
                    no_newlines(ts) && mid == old(log)@ + spec_entry(ts, "ERROR"@, banner@);
                let ts2 = choose|ts: Seq<char>|
                    no_newlines(ts) && log@ == mid + spec_entry(ts, "ERROR"@, msg@);
                assert(banner@ =~= spec_stage_banner(stage@));
                assert(msg@ =~= "error = "@ + e@);
                assert(log@ =~= old(log)@ + spec_entry(ts1, "ERROR"@, spec_stage_banner(stage@))
                    + spec_entry(ts2, "ERROR"@, "error = "@ + e@));
            }
        },
        GitRepositoryError::CommandFailed(out) => {
            let text = out.format(stage);
            log.error(text.as_str());
        },
    }
}

/// Records one stage's outcome and passes a failure on: the caller stops
/// the pipeline exactly when this returns the error.
pub fn handle_command_result(
    result: Result<CommandOutput, GitRepositoryError>,
    stage: &str,
    log: &mut SimpleLog,
) -> (r: Result<(), GitRepositoryError>)
    ensures
        logged_outcome(old(log)@, final(log)@, stage@, result),
        match result {
            Ok(_) => r is Ok,
            Err(e) => r == Err::<(), GitRepositoryError>(e),
        },
{
    match result {
        Ok(v) => {
            render_command_output_to_log(log, stage, &v);
            Ok(())
        },
        Err(v) => {
            render_command_error_to_log(log, stage, &v);
            Err(v)
        },
    }
}

/// The pipeline's stages, in their fixed order.
#[derive(Clone, Copy, PartialEq, Eq, Structural, Debug)]
pub enum Stage {
    Fetch,
    Checkout,
    Rebase,
    Script,
}

/// The human-readable label each stage is logged under.
pub open spec fn spec_stage_label(s: Stage) -> Seq<char> {
    match s {
        Stage::Fetch => "fetching latest changes"@,
        Stage::Checkout => "checking out main branch"@,
        Stage::Rebase => "rebasing onto latest changes"@,
        Stage::Script => "running hook"@,
    }
}

/// The stage that follows a successful one; the script stage is last.
pub open spec fn spec_next_stage(s: Stage) -> Stage {
    match s {
        Stage::Fetch => Stage::Checkout,
        Stage::Checkout => Stage::Rebase,
        Stage::Rebase => Stage::Script,
        Stage::Script => Stage::Script,
    }
}

/// The stage the pipeline stands at after feeding one outcome.
pub open spec fn spec_stage_after(s: Stage, outcome: Result<
    CommandOutput,
    GitRepositoryError,
>) -> Stage {
    match outcome {
        Ok(_) => spec_next_stage(s),
        Err(_) => s,
    }
}

/// What the pipeline has concluded after feeding one outcome at a stage:
/// nothing yet while stages remain, success after the script stage
/// succeeds, and the stage's error the moment one fails.
pub open spec fn spec_outcome_after(s: Stage, outcome: Result<
    CommandOutput,
    GitRepositoryError,
>) -> Option<Result<(), GitRepositoryError>> {
    match outcome {
        Ok(_) => if s == Stage::Script {
            Some(Ok(()))
        } else {
            None
        },
        Err(e) => Some(Err(e)),
    }
}

/// One command the pipeline asks its caller to run: the program, its
/// arguments, the directory to run it in, and the stage label for the log.
pub struct StageCommand {
    pub program: String,
    pub args: Vec<String>,
    pub cwd: String,
    pub stage: String,
}

/// One queued job's pipeline run: the repository it works on, the deploy
/// script, the growing execution log, the stage it stands at, and its
/// conclusion once it has one.
pub struct HookPipeline {
    repo: GitRepository,
    script: String,
    log: SimpleLog,
    stage: Stage,
    outcome: Option<Result<(), GitRepositoryError>>,
}

impl HookPipeline {
    /// The repository the pipeline works on.
    pub closed spec fn spec_repo(&self) -> GitRepository {
        self.repo
    }

    /// The deploy script it runs last.
    pub closed spec fn spec_script(&self) -> Seq<char> {
        self.script@
    }

    /// The rendered execution log so far.
    pub closed spec fn spec_log(&self) -> Seq<char> {
        self.log@
    }

    /// The stage the pipeline stands at.
    pub closed spec fn spec_stage(&self) -> Stage {
        self.stage
    }

    /// Its conclusion: nothing while stages remain.
    pub closed spec fn spec_outcome(&self) -> Option<Result<(), GitRepositoryError>> {
        self.outcome
    }

    /// A fresh pipeline for one hook: git against the hook's checkout
    /// directory and branch, the hook's deploy script, an empty log, the
    /// fetch stage up first.
    pub fn new(hook: &HookConfig) -> (p: Self)
        ensures
            p.spec_repo().repo_dir@ == hook.repository_directory@,
            p.spec_repo().git@ == "git"@,
            p.spec_repo().main_branch@ == hook.branch@,
            p.spec_script() == hook.script@,
            p.spec_log() == Seq::<char>::empty(),
            p.spec_stage() == Stage::Fetch,
            p.spec_outcome() is None,
    {
        HookPipeline {
            repo: GitRepository {
                repo_dir: hook.repository_directory.clone(),
                git: String::from_str("git"),
                main_branch: hook.branch.clone(),
            },
            script: hook.script.clone(),
            log: SimpleLog::default(),
            stage: Stage::Fetch,
            outcome: None,
        }
    }

    /// Whether the pipeline has concluded.
    pub fn is_finished(&self) -> (b: bool)
        ensures
            b == (self.spec_outcome() is Some),
    {
        self.outcome.is_some()
    }

    /// Whether the pipeline concluded with a failure.
    pub fn failed(&self) -> (b: bool)
        ensures
            b == (self.spec_outcome() matches Some(Err(_))),
    {
        match &self.outcome {
            Some(r) => r.is_err(),
            None => false,
        }
    }

    /// The execution log accumulated so far.
    pub fn log(&self) -> (l: &SimpleLog)
        ensures
            l@ == self.spec_log(),
    {
        &self.log
    }

    /// The stage the pipeline stands at.
    pub fn stage(&self) -> (s: Stage)
        ensures
            s == self.spec_stage(),
    {
        self.stage
    }

    /// The next command to run, or nothing once the pipeline concluded:
    /// `git fetch origin`, `git checkout <branch>`, `git rebase
    /// origin/<branch>`, then the deploy script without arguments, each in
    /// the checkout directory and under its stage label.
    pub fn next_command(&self) -> (c: Option<StageCommand>)
        ensures
            self.spec_outcome() is Some ==> c is None,
            self.spec_outcome() is None ==> (c matches Some(cmd) && cmd.cwd@
                == self.spec_repo().repo_dir@ && cmd.stage@ == spec_stage_label(self.spec_stage())
                && (match self.spec_stage() {
                Stage::Fetch => cmd.program@ == self.spec_repo().git@ && seq_views(cmd.args@)
                    == seq!["fetch"@, "origin"@],
                Stage::Checkout => cmd.program@ == self.spec_repo().git@ && seq_views(cmd.args@)
                    == seq!["checkout"@, self.spec_repo().main_branch@],
                Stage::Rebase => cmd.program@ == self.spec_repo().git@ && seq_views(cmd.args@)
                    == seq!["rebase"@, "origin/"@ + self.spec_repo().main_branch@],
                Stage::Script => cmd.program@ == self.spec_script() && cmd.args@.len() == 0,
            })),
    {
        if self.outcome.is_some() {
            return None;
        }
        match self.stage {
            Stage::Fetch => {
                let mut args: Vec<String> = Vec::new();
                args.push(String::from_str("fetch"));
                args.push(String::from_str("origin"));
                proof {
                    assert(seq_views(args@) =~= seq!["fetch"@, "origin"@]);
                }
                Some(
                    StageCommand {
                        program: self.repo.git.clone(),
                        args,
                        cwd: self.repo.repo_dir.clone(),
                        stage: String::from_str("fetching latest changes"),
                    },
                )
            },
            Stage::Checkout => {
                let mut args: Vec<String> = Vec::new();
                args.push(String::from_str("checkout"));
                args.push(self.repo.main_branch.clone());
                proof {
                    assert(seq_views(args@) =~= seq!["checkout"@, self.repo.main_branch@]);
                }
                Some(
                    StageCommand {
                        program: self.repo.git.clone(),
                        args,
                        cwd: self.repo.repo_dir.clone(),
                        stage: String::from_str("checking out main branch"),
                    },
                )
            },
            Stage::Rebase => {
                let mut args: Vec<String> = Vec::new();
                args.push(String::from_str("rebase"));
                args.push(String::from_str("origin/").concat(self.repo.main_branch.as_str()));
                proof {
                    assert(seq_views(args@) =~= seq![
                        "rebase"@,
                        "origin/"@ + self.repo.main_branch@,
                    ]);
                }
                Some(
                    StageCommand {
                        program: self.repo.git.clone(),
                        args,
                        cwd: self.repo.repo_dir.clone(),
                        stage: String::from_str("rebasing onto latest changes"),
                    },
                )
            },
            Stage::Script => {
                Some(
                    StageCommand {
                        program: self.script.clone(),
                        args: Vec::new(),
                        cwd: self.repo.repo_dir.clone(),
                        stage: String::from_str("running hook"),
                    },
                )
            },
        }
    }

    /// Feeds what launching the current stage's command yielded. The
    /// outcome is classified and logged under the stage's label; success
    /// moves to the next stage (after the script: concluded successfully),
    /// failure concludes the pipeline with that error, so no later stage
    /// ever runs.
    pub fn advance(&mut self, launch: Result<CommandOutput, String>)
        requires
            old(self).spec_outcome() is None,
        ensures
            final(self).spec_repo() == old(self).spec_repo(),
            final(self).spec_script() == old(self).spec_script(),
            logged_outcome(
                old(self).spec_log(),
                final(self).spec_log(),
                spec_stage_label(old(self).spec_stage()),
                spec_evaluate_launch(launch),
            ),
            final(self).spec_stage() == spec_stage_after(
                old(self).spec_stage(),
                spec_evaluate_launch(launch),
            ),
            final(self).spec_outcome() == spec_outcome_after(
                old(self).spec_stage(),
                spec_evaluate_launch(launch),
            ),
    {
        let outcome = evaluate_launch(launch);
        let label: &str = match self.stage {
            Stage::Fetch => "fetching latest changes",
            Stage::Checkout => "checking out main branch",
            Stage::Rebase => "rebasing onto latest changes",
            Stage::Script => "running hook",
        };
        match handle_command_result(outcome, label, &mut self.log) {
            Ok(_) => {
                if let Stage::Script = self.stage {
                    self.outcome = Some(Ok(()));
                } else {
                    self.stage = match self.stage {
                        Stage::Fetch => Stage::Checkout,
                        Stage::Checkout => Stage::Rebase,
                        Stage::Rebase => Stage::Script,
                        Stage::Script => Stage::Script,
                    };
                }
            },
            Err(e) => {
                self.outcome = Some(Err(e));
            },
        }
    }
}

/// A stage failure concludes the pipeline with that stage's error: all
/// later stages are skipped, since a concluded pipeline asks for no
/// further command — while the queue of waiting jobs is a separate value
/// the pipeline never touches, so the worker takes the next job regardless.
pub proof fn lemma_failure_aborts(s: Stage, launch: Result<CommandOutput, String>)
    requires
        spec_evaluate_launch(launch) matches Err(_),
    ensures
        spec_outcome_after(s, spec_evaluate_launch(launch)) matches Some(r) && r == Err::<
            (),
            GitRepositoryError,
        >(spec_evaluate_launch(launch)->Err_0),
{
}

} // verus!
