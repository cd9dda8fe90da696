//! The command line: `-u`/`--update` and `--config <path>`.

use vstd::prelude::*;

use crate::text::{str_eq, views};

verus! {

/// The options given on the command line.
#[derive(Debug)]
pub struct Cli {
    pub update: bool,
    pub config: Option<String>,
}

/// The text of an optional string.
pub open spec fn opt_view(o: Option<String>) -> Option<Seq<char>> {
    match o {
        Some(s) => Some(s@),
        None => None,
    }
}

/// The options that the arguments `args` set, starting from `update` and
/// `config`: `-u` and `--update` set `update`; `--config` takes the next
/// argument as the configuration path (and is ignored when it is the last);
/// anything else is ignored.
pub open spec fn parse_flags(
    args: Seq<Seq<char>>,
    update: bool,
    config: Option<Seq<char>>,
) -> (bool, Option<Seq<char>>)
    decreases args.len(),
{
    if args.len() == 0 {
        (update, config)
    } else if args[0] == "-u"@ || args[0] == "--update"@ {
        parse_flags(args.drop_first(), true, config)
    } else if args[0] == "--config"@ {
        if args.len() >= 2 {
            parse_flags(args.skip(2), update, Some(args[1]))
        } else {
            (update, config)
        }
    } else {
        parse_flags(args.drop_first(), update, config)
    }
}

/// The arguments after the program's name.
pub open spec fn arguments(argv: Seq<Seq<char>>) -> Seq<Seq<char>> {
    if argv.len() == 0 {
        argv
    } else {
        argv.skip(1)
    }
}

impl Cli {
    /// The options of the command line `argv`, whose first element is the
    /// program's name.
    pub fn parse(argv: &Vec<String>) -> (c: Cli)
        ensures
            (c.update, opt_view(c.config)) == parse_flags(arguments(views(argv@)), false, None),
    {
        let n = argv.len();
        let ghost all = views(argv@);
        let mut update = false;
        let mut config: Option<String> = None;
        let mut i: usize = 1;
        if n == 0 {
            return Cli { update, config };
        }
        while i < n
            invariant
                1 <= i <= n,
                n == argv@.len(),
                all == views(argv@),
                parse_flags(arguments(all), false, None) == parse_flags(
                    all.skip(i as int),
                    update,
                    opt_view(config),
                ),
            decreases n - i,
        {
            let a = argv[i].as_str();
            let ghost rest = all.skip(i as int);
            assert(rest[0] == a@);
            if str_eq(a, "-u") || str_eq(a, "--update") {
                update = true;
                assert(rest.drop_first() =~= all.skip(i + 1));
                i = i + 1;
            } else if str_eq(a, "--config") {
                if i + 1 < n {
                    config = Some(argv[i + 1].clone());
                    assert(rest.skip(2) =~= all.skip(i + 2));
                    i = i + 2;
                } else {
                    return Cli { update, config };
                }
            } else {
                assert(rest.drop_first() =~= all.skip(i + 1));
                i = i + 1;
            }
        }
        assert(all.skip(i as int) =~= Seq::<Seq<char>>::empty());
        Cli { update, config }
    }
}

} // verus!
