//! Command-line parsing: the one recognized subcommand is `run`, with an
//! optional configuration-file option (`-c` / `--config`, default
//! `config.yml`) and a presence-only production flag (`--production`).
//! Any other invocation selects no command.

use vstd::prelude::*;

verus! {

/// Which command the process arguments selected.
#[derive(Clone, Copy, PartialEq, Eq, Structural, Debug)]
pub enum ArgType {
    Run,
    Others,
}

/// The parsed command line.
pub struct Args {
    pub arg_type: ArgType,
    pub config_filename: String,
    pub is_production: bool,
}

/// The first argument after the program name is the `run` subcommand.
pub open spec fn run_selected(args: Seq<Seq<char>>) -> bool {
    args.len() >= 2 && args[1] == "run"@
}

/// The token introduces the configuration-file option.
pub open spec fn is_config_flag(t: Seq<char>) -> bool {
    t == "-c"@ || t == "--config"@
}

/// The configuration-file value among the tokens after the subcommand: the
/// value following the first `-c` / `--config` that has one.
pub open spec fn config_of(rest: Seq<Seq<char>>) -> Option<Seq<char>>
    decreases rest.len(),
{
    if rest.len() == 0 {
        None
    } else if is_config_flag(rest[0]) && rest.len() >= 2 {
        Some(rest[1])
    } else {
        config_of(rest.drop_first())
    }
}

/// Whether `--production` stands among the tokens after the subcommand, a
/// token consumed as a configuration-file value not counting.
pub open spec fn production_of(rest: Seq<Seq<char>>) -> bool
    decreases rest.len(),
{
    if rest.len() == 0 {
        false
    } else if rest[0] == "--production"@ {
        true
    } else if is_config_flag(rest[0]) && rest.len() >= 2 {
        production_of(rest.skip(2))
    } else {
        production_of(rest.drop_first())
    }
}

/// The configuration-file name a `run` invocation selects: the option's
/// value, or `config.yml` when the option is absent.
pub open spec fn config_or_default(rest: Seq<Seq<char>>) -> Seq<char> {
    match config_of(rest) {
        Some(v) => v,
        None => "config.yml"@,
    }
}

/// The two strings hold the same characters.
fn str_eq(a: &str, b: &str) -> (r: bool)
    ensures
        r == (a@ == b@),
{
    let alen = a.unicode_len();
    let blen = b.unicode_len();
    if alen != blen {
        return false;
    }
    let mut i: usize = 0;
    while i < alen
        invariant
            0 <= i <= alen,
            alen == a@.len(),
            alen == b@.len(),
            forall|j: int| 0 <= j < i ==> a@[j] == b@[j],
        decreases alen - i,
    {
        if a.get_char(i) != b.get_char(i) {
            return false;
        }
        i = i + 1;
    }
    proof {
        assert(a@ =~= b@);
    }
    true
}

impl Args {
    /// Parses the process arguments (program name first).  Exactly the
    /// `run` subcommand selects `Run`; its options are scanned left to
    /// right, the first configuration-file option wins, unrecognized tokens
    /// are passed over, and a `-c` / `--config` with no token after it is
    /// ignored.  Any other invocation selects `Others` with an empty file
    /// name.
    pub fn parse(argv: &Vec<String>) -> (r: Args)
        ensures
            (r.arg_type == ArgType::Run) == run_selected(argv.deep_view()),
            run_selected(argv.deep_view()) ==> r.config_filename@ == config_or_default(
                argv.deep_view().skip(2),
            ),
            run_selected(argv.deep_view()) ==> r.is_production == production_of(
                argv.deep_view().skip(2),
            ),
            !run_selected(argv.deep_view()) ==> r.config_filename@ == Seq::<char>::empty()
                && !r.is_production,
    {
        let ghost av = argv.deep_view();
        let n = argv.len();
        proof {
            assert(av.len() == n);
        }
        if n < 2 || !str_eq(argv[1].as_str(), "run") {
            proof {
                if n >= 2 {
                    assert(av[1] == argv@[1]@);
                }
            }
            return Args {
                arg_type: ArgType::Others,
                config_filename: String::new(),
                is_production: false,
            };
        }
        proof {
            assert(av[1] == argv@[1]@);
        }
        let mut i: usize = 2;
        let mut cfg: Option<String> = None;
        let mut prod: bool = false;
        while i < n
            invariant
                2 <= i <= n,
                n == argv.len(),
                av == argv.deep_view(),
                match cfg {
                    Some(c) => config_of(av.skip(2)) == Some(c@),
                    None => config_of(av.skip(2)) == config_of(av.skip(i as int)),
                },
                production_of(av.skip(2)) == (prod || production_of(av.skip(i as int))),
            decreases n - i,
        {
            proof {
                assert(av[i as int] == argv@[i as int]@);
                assert(av.skip(i as int)[0] == av[i as int]);
            }
            let t = argv[i].as_str();
            if str_eq(t, "--production") {
                proof {
                    reveal_strlit("--production");
                    reveal_strlit("-c");
                    reveal_strlit("--config");
                    assert(!is_config_flag(av.skip(i as int)[0]));
                    assert(av.skip(i as int).drop_first() =~= av.skip(i + 1));
                }
                prod = true;
                i = i + 1;
            } else if (str_eq(t, "-c") || str_eq(t, "--config")) && i + 1 < n {
                proof {
                    assert(av.skip(i as int)[1] == av[i + 1]);
                    assert(av[i + 1] == argv@[i + 1]@);
                    assert(av.skip(i as int).skip(2) =~= av.skip(i + 2));
                }
                if cfg.is_none() {
                    cfg = Some(argv[i + 1].clone());
                }
                i = i + 2;
            } else {
                proof {
                    assert(av.skip(i as int).drop_first() =~= av.skip(i + 1));
                }
                i = i + 1;
            }
        }
        proof {
            assert(av.skip(n as int).len() == 0);
        }
        let filename = match cfg {
            Some(c) => c,
            None => "config.yml".to_owned(),
        };
        Args { arg_type: ArgType::Run, config_filename: filename, is_production: prod }
    }
}

} // verus!
