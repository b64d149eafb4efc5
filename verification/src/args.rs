//! Argument assembly for the external mod-loading tool.

use crate::config::{Config, ConfigModel};
use vstd::prelude::*;

verus! {

/// The ordered command line handed to the loader: the launch verb, the
/// manifest flag and path, the game-profile flag and profile, the extra
/// arguments verbatim in their configured order, then the executable flag
/// and the game executable.
pub open spec fn spec_args(c: ConfigModel, final_path: Seq<char>) -> Seq<Seq<char>> {
    seq!["launch"@, "-p"@, final_path, "--game"@, c.game] + c.extra_args + seq![
        "--exe"@,
        c.game_exe,
    ]
}

/// Builds the loader's command line; pure, and never fails.
pub fn build_args(config: &Config, final_path: &str) -> (r: Vec<String>)
    ensures
        r.deep_view() == spec_args(config@, final_path@),
{
    let ghost goal: Seq<Seq<char>> = spec_args(config@, final_path@);
    let mut out: Vec<String> = Vec::new();
    out.push("launch".to_owned());
    out.push("-p".to_owned());
    out.push(final_path.to_owned());
    out.push("--game".to_owned());
    out.push(config.game.clone());
    let n = config.extra_args.len();
    let mut k: usize = 0;
    proof {
        assert(out.deep_view() =~= goal.take(5));
    }
    while k < n
        invariant
            k <= n,
            n == config.extra_args.len(),
            goal == spec_args(config@, final_path@),
            out.deep_view() == goal.take(5 + k as int),
        decreases n - k,
    {
        let ghost prev = out.deep_view();
        let ghost prevv = out@;
        out.push(config.extra_args[k].clone());
        k = k + 1;
        proof {
            assert forall|i: int| 0 <= i < prev.len() implies out.deep_view()[i] == prev[i] by {
                assert(out@[i] == prevv[i]);
            }
            assert(out.deep_view()[prev.len() as int] == config@.extra_args[k - 1]);
            assert(goal.take(5 + k as int)[5 + k - 1] == config@.extra_args[k - 1]);
            assert(out.deep_view() =~= goal.take(5 + k as int));
        }
    }
    let ghost prev = out.deep_view();
    let ghost prevv = out@;
    out.push("--exe".to_owned());
    out.push(config.game_exe.clone());
    proof {
        assert forall|i: int| 0 <= i < prev.len() implies out.deep_view()[i] == prev[i] by {
            assert(out@[i] == prevv.push(out@[prev.len() as int])[i]);
            assert(out@[i] == prevv[i]);
        }
        assert(out.deep_view()[prev.len() as int] == "--exe"@);
        assert(out.deep_view()[prev.len() as int + 1] == config@.game_exe);
        let ghost m = 5 + config@.extra_args.len() as int;
        assert(prev.len() == m);
        assert forall|i: int| 0 <= i < goal.len() implies out.deep_view()[i] == goal[i] by {
            if i < m {
                assert(prev[i] == goal.take(m)[i]);
                assert(goal.take(m)[i] == goal[i]);
            } else if i == m {
                assert(goal[i] == "--exe"@);
            } else {
                assert(goal[i] == config@.game_exe);
            }
        }
        assert(out.deep_view() =~= goal);
    }
    out
}

/// The shape of the built command line: with N extra arguments it has
/// 7 + N elements, the first five and last two are fixed, and the extras
/// stand contiguously, in order, immediately before the executable flag.
pub proof fn lemma_args_shape(c: ConfigModel, final_path: Seq<char>)
    ensures
        spec_args(c, final_path).len() == 7 + c.extra_args.len(),
        spec_args(c, final_path)[0] == "launch"@,
        spec_args(c, final_path)[1] == "-p"@,
        spec_args(c, final_path)[2] == final_path,
        spec_args(c, final_path)[3] == "--game"@,
        spec_args(c, final_path)[4] == c.game,
        forall|i: int|
            0 <= i < c.extra_args.len() ==> spec_args(c, final_path)[5 + i] == c.extra_args[i],
        spec_args(c, final_path)[5 + c.extra_args.len() as int] == "--exe"@,
        spec_args(c, final_path)[6 + c.extra_args.len() as int] == c.game_exe,
{
}

} // verus!
