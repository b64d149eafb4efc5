//! The run's decisions around its two effects: what to write and spawn
//! before the child runs, and what to report and remove after.
//!
//! The caller performs the file reads and writes, the spawn and the
//! delete; every choice of path, text, argument and message is made here.

use crate::args::{build_args, spec_args};
use crate::config::Config;
use crate::errors::LaunchError;
use crate::manifest::{derive_temp_path, patched_content, spec_patched, spec_temp_path};
use crate::numfmt::{code_string, spec_idec};
use vstd::prelude::*;
use vstd::string::StringExecFns;

verus! {

/// The temporary manifest to write before spawning: it exists only while
/// one run is under way.
#[derive(Debug, PartialEq, Eq)]
pub struct TempArtifact {
    pub path: String,
    pub content: String,
}

/// Everything the run needs before the loader is spawned.
#[derive(Debug, PartialEq, Eq)]
pub struct LaunchPlan {
    /// The program to spawn: the configured loader path.
    pub program: String,
    /// The loader's command line, in order.
    pub args: Vec<String>,
    /// The manifest path handed to the loader: the original path, or the
    /// temporary sibling in patch mode.
    pub final_manifest: String,
    /// The file to write before spawning, in patch mode only.
    pub temp: Option<TempArtifact>,
}

/// Plans the run once the configuration is loaded.
///
/// `manifest_text` is the manifest's text, or nothing when it could not be
/// read; it is consulted only in patch mode.
pub fn plan_launch(config: &Config, patch_enabled: bool, manifest_text: Option<&str>) -> (r:
    Result<LaunchPlan, LaunchError>)
    ensures
        patch_enabled && manifest_text is None ==> (r matches Err(e)
            && e matches LaunchError::ManifestReadError { path } && path@ == config@.mod_path),
        !patch_enabled ==> (r matches Ok(plan) && plan.temp is None && plan.final_manifest@
            == config@.mod_path),
        patch_enabled ==> (manifest_text matches Some(m) ==> (r matches Ok(plan)
            && plan.temp matches Some(t) && t.path@ == spec_temp_path(config@.mod_path)
            && t.content@ == spec_patched(m@) && plan.final_manifest@ == spec_temp_path(
            config@.mod_path,
        ))),
        r matches Ok(plan) ==> plan.program@ == config@.me3_path && plan.args.deep_view()
            == spec_args(config@, plan.final_manifest@),
{
    if patch_enabled {
        match manifest_text {
            None => Err(LaunchError::ManifestReadError { path: config.mod_path.clone() }),
            Some(m) => {
                let temp_path = derive_temp_path(config.mod_path.as_str());
                let content = patched_content(m);
                let args = build_args(config, temp_path.as_str());
                Ok(
                    LaunchPlan {
                        program: config.me3_path.clone(),
                        args,
                        final_manifest: temp_path.clone(),
                        temp: Some(TempArtifact { path: temp_path, content }),
                    },
                )
            },
        }
    } else {
        let args = build_args(config, config.mod_path.as_str());
        Ok(
            LaunchPlan {
                program: config.me3_path.clone(),
                args,
                final_manifest: config.mod_path.clone(),
                temp: None,
            },
        )
    }
}

/// How the spawned loader ended, as the caller observed it.
#[derive(Debug, PartialEq, Eq, Clone, Copy)]
pub enum SpawnOutcome {
    /// The loader never started.
    FailedToStart,
    /// The loader ran to completion; `success` is whether it exited
    /// cleanly, `code` its exit code when the platform reports one.
    Exited { success: bool, code: Option<i32> },
}

/// What the run does once the loader has returned: which file to remove,
/// what diagnostic to print, and the run's own outcome.
#[derive(Debug, PartialEq, Eq)]
pub struct RunConclusion {
    /// The temporary file to delete, whenever one was created — whatever
    /// became of the child.
    pub cleanup_path: Option<String>,
    /// The diagnostic line for an abnormal child exit; a nonzero exit is
    /// reported, never escalated.
    pub diagnostic: Option<String>,
    /// The run's own outcome: an error only when the loader failed to
    /// start.
    pub outcome: Result<(), LaunchError>,
}

/// The diagnostic line for an abnormal exit, naming the code in decimal,
/// or calling it unknown when the platform withholds it.
pub open spec fn spec_exit_diagnostic(code: Option<i32>) -> Seq<char> {
    "loader exited abnormally with code "@ + match code {
        Some(c) => spec_idec(c as int),
        None => "unknown"@,
    }
}

/// Decides the run's aftermath. Cleanup is owed exactly when a temporary
/// file was created, irrespective of the outcome.
pub fn conclude_run(program: &str, temp_path: Option<&String>, outcome: SpawnOutcome) -> (r:
    RunConclusion)
    ensures
        temp_path matches Some(p) ==> (r.cleanup_path matches Some(q) && q@ == p@),
        temp_path is None ==> r.cleanup_path is None,
        outcome is FailedToStart ==> (r.outcome matches Err(e)
            && e matches LaunchError::SpawnError { program: pr } && pr@ == program@
            && r.diagnostic is None),
        outcome matches SpawnOutcome::Exited { success, code } ==> (r.outcome is Ok && (success
            ==> r.diagnostic is None) && (!success ==> (r.diagnostic matches Some(d) && d@
            == spec_exit_diagnostic(code)))),
{
    let cleanup_path = match temp_path {
        Some(p) => Some(p.clone()),
        None => None,
    };
    match outcome {
        SpawnOutcome::FailedToStart => RunConclusion {
            cleanup_path,
            diagnostic: None,
            outcome: Err(LaunchError::SpawnError { program: program.to_owned() }),
        },
        SpawnOutcome::Exited { success: true, code: _ } => RunConclusion {
            cleanup_path,
            diagnostic: None,
            outcome: Ok(()),
        },
        SpawnOutcome::Exited { success: false, code } => {
            let mut d = "loader exited abnormally with code ".to_owned();
            match code {
                Some(c) => {
                    d.append(code_string(c).as_str());
                },
                None => {
                    d.append("unknown");
                },
            }
            RunConclusion { cleanup_path, diagnostic: Some(d), outcome: Ok(()) }
        },
    }
}

} // verus!
