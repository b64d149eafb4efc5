//! The interactive selector's decisions: reading a yes/no answer and
//! naming the program that each pair of answers starts.
//!
//! The prompt loop itself stays with the caller: it reads one line, hands
//! it to `interpret_answer`, and asks again for as long as the answer is
//! undecided — re-prompting has no other effect.

use vstd::prelude::*;
use vstd::string::StrSliceExecFns;

verus! {

/// The whitespace stripped around an answer before it is judged.
pub open spec fn is_ws(c: char) -> bool {
    c == ' ' || c == '\t' || c == '\r' || c == '\n'
}

pub open spec fn trim_start(s: Seq<char>) -> Seq<char>
    decreases s.len(),
{
    if s.len() > 0 && is_ws(s[0]) {
        trim_start(s.subrange(1, s.len() as int))
    } else {
        s
    }
}

pub open spec fn trim_end(s: Seq<char>) -> Seq<char>
    decreases s.len(),
{
    if s.len() > 0 && is_ws(s[s.len() - 1]) {
        trim_end(s.take(s.len() - 1))
    } else {
        s
    }
}

/// The answer with surrounding whitespace removed.
pub open spec fn spec_trimmed(s: Seq<char>) -> Seq<char> {
    trim_end(trim_start(s))
}

/// What a line of input answers: yes, no, or nothing at all. Only the
/// four letters `y`, `Y`, `n`, `N` decide; anything else leaves the
/// question unanswered.
pub open spec fn spec_answer(line: Seq<char>) -> Option<bool> {
    let t = spec_trimmed(line);
    if t == seq!['y'] || t == seq!['Y'] {
        Some(true)
    } else if t == seq!['n'] || t == seq!['N'] {
        Some(false)
    } else {
        None
    }
}

fn ws_at(s: &str, j: usize) -> (b: bool)
    requires
        j < s@.len(),
    ensures
        b == is_ws(s@[j as int]),
{
    let c = s.get_char(j);
    c == ' ' || c == '\t' || c == '\r' || c == '\n'
}

/// Strips surrounding whitespace from a line of input.
pub fn trim_input(s: &str) -> (r: &str)
    ensures
        r@ == spec_trimmed(s@),
{
    let n = s.unicode_len();
    let mut a: usize = 0;
    proof {
        assert(s@.subrange(0, n as int) =~= s@);
    }
    while a < n && ws_at(s, a)
        invariant
            a <= n,
            n == s@.len(),
            trim_start(s@) == trim_start(s@.subrange(a as int, n as int)),
        decreases n - a,
    {
        proof {
            let sub = s@.subrange(a as int, n as int);
            assert(sub[0] == s@[a as int]);
            assert(sub.subrange(1, sub.len() as int) =~= s@.subrange(a + 1, n as int));
        }
        a = a + 1;
    }
    proof {
        let sub = s@.subrange(a as int, n as int);
        if a < n {
            assert(sub[0] == s@[a as int]);
        }
        assert(trim_start(sub) == sub);
    }
    let mut b: usize = n;
    while b > a && ws_at(s, b - 1)
        invariant
            a <= b <= n,
            n == s@.len(),
            trim_start(s@) == s@.subrange(a as int, n as int),
            trim_end(s@.subrange(a as int, n as int)) == trim_end(s@.subrange(a as int, b as int)),
        decreases b,
    {
        proof {
            let sub = s@.subrange(a as int, b as int);
            assert(sub[sub.len() - 1] == s@[b - 1]);
            assert(sub.take(sub.len() - 1) =~= s@.subrange(a as int, b - 1));
        }
        b = b - 1;
    }
    proof {
        let sub = s@.subrange(a as int, b as int);
        if b > a {
            assert(sub[sub.len() - 1] == s@[b - 1]);
        }
        assert(trim_end(sub) == sub);
    }
    s.substring_char(a, b)
}

/// Judges one line of input as an answer to a yes/no question.
pub fn interpret_answer(line: &str) -> (r: Option<bool>)
    ensures
        r == spec_answer(line@),
{
    let t = trim_input(line);
    if t.unicode_len() == 1 {
        let c = t.get_char(0);
        proof {
            assert(t@ =~= seq![t@[0]]);
        }
        if c == 'y' || c == 'Y' {
            Some(true)
        } else if c == 'n' || c == 'N' {
            Some(false)
        } else {
            None
        }
    } else {
        None
    }
}

/// One program to start, with its arguments.
#[derive(Debug, PartialEq, Eq)]
pub struct StartupChoice {
    pub program: String,
    pub args: Vec<String>,
}

/// The program that the two answers select.
pub open spec fn spec_startup_program(lan: bool) -> Seq<char> {
    if lan {
        "steamclient_loader.exe"@
    } else {
        "me3_launcher.exe"@
    }
}

/// Its arguments: the single patch flag, exactly when the inner launcher
/// is chosen and patching was asked for.
pub open spec fn spec_startup_args(lan: bool, patch_enabled: bool) -> Seq<Seq<char>> {
    if !lan && patch_enabled {
        seq!["--with-onlinefix"@]
    } else {
        Seq::empty()
    }
}

/// Chooses which of the three startups the two answers name: the LAN
/// loader, or the inner launcher with or without the patch flag.
pub fn select_startup(lan: bool, patch_enabled: bool) -> (r: StartupChoice)
    ensures
        r.program@ == spec_startup_program(lan),
        r.args.deep_view() == spec_startup_args(lan, patch_enabled),
{
    if lan {
        let args: Vec<String> = Vec::new();
        proof {
            assert(args.deep_view() =~= spec_startup_args(true, patch_enabled));
        }
        StartupChoice { program: "steamclient_loader.exe".to_owned(), args }
    } else if patch_enabled {
        let mut args: Vec<String> = Vec::new();
        args.push("--with-onlinefix".to_owned());
        proof {
            assert(args.deep_view() =~= spec_startup_args(false, true));
        }
        StartupChoice { program: "me3_launcher.exe".to_owned(), args }
    } else {
        let args: Vec<String> = Vec::new();
        proof {
            assert(args.deep_view() =~= spec_startup_args(false, false));
        }
        StartupChoice { program: "me3_launcher.exe".to_owned(), args }
    }
}

} // verus!
