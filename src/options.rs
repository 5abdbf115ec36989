use vstd::prelude::*;

verus! {

#[verifier::external_type_specification]
#[verifier::external_body]
pub struct ExOptions(getopts::Options);

#[verifier::external_type_specification]
#[verifier::external_body]
pub struct ExMatches(getopts::Matches);

#[verifier::external_type_specification]
#[verifier::external_body]
pub struct ExFail(getopts::Fail);

/// An option declaration: short name, long name, and whether it takes an argument.
pub type OptionDecl = (Seq<char>, Seq<char>, bool);

/// The options declared in an option table, in order of declaration.
pub uninterp spec fn option_groups(o: getopts::Options) -> Seq<OptionDecl>;

/// Whether getopts accepts `args` against a table of optional options `groups`.
/// The tables built here keep the default parsing style, are not long-only and
/// declare optional options only, so the declared names and whether each takes
/// an argument are all that `parse` reads of them.
pub uninterp spec fn parse_succeeds(groups: Seq<OptionDecl>, args: Seq<Seq<char>>) -> bool;

/// Relies on getopts' `Options::new`: a table with no options declared.
#[verifier::external_body]
fn new_options() -> (r: getopts::Options)
    ensures
        option_groups(r) == Seq::<OptionDecl>::empty(),
{
    getopts::Options::new()
}

/// Relies on getopts' `Options::optopt`: declares one more optional option that
/// takes an argument. It panics unless the short name is empty or one byte and
/// the long name empty or longer than one byte; `parse` later panics on an
/// option with neither name, so one of them is required.
#[verifier::external_body]
fn declare_opt(o: &mut getopts::Options, short: &str, long: &str, desc: &str, hint: &str)
    requires
        short@.len() == 0 || (short@.len() == 1 && short@[0] <= '\x7f'),
        long@.len() != 1,
        short@.len() > 0 || long@.len() > 0,
    ensures
        option_groups(*final(o)) == option_groups(*old(o)).push((short@, long@, true)),
{
    o.optopt(short, long, desc, hint);
}

/// Relies on getopts' `Options::optflag`: declares one more optional flag,
/// which takes no argument. It panics on names as `optopt` does.
#[verifier::external_body]
fn declare_flag(o: &mut getopts::Options, short: &str, long: &str, desc: &str)
    requires
        short@.len() == 0 || (short@.len() == 1 && short@[0] <= '\x7f'),
        long@.len() != 1,
        short@.len() > 0 || long@.len() > 0,
    ensures
        option_groups(*final(o)) == option_groups(*old(o)).push((short@, long@, false)),
{
    o.optflag(short, long, desc);
}

/// Relies on getopts' `Options::parse`: whether it accepts the arguments depends
/// on the declared options and the arguments alone.
#[verifier::external_body]
fn parse_args(o: &getopts::Options, args: &Vec<String>) -> (r: Result<getopts::Matches, getopts::Fail>)
    ensures
        r.is_ok() == parse_succeeds(option_groups(*o), args@.map_values(|a: String| a@)),
{
    o.parse(args)
}

/// The options of `run`: `-n/--name NAME`, `--exec COMMAND`, `-h/--help`, `--del`.
pub open spec fn runner_groups() -> Seq<OptionDecl> {
    seq![
        ("n"@, "name"@, true),
        (""@, "exec"@, true),
        ("h"@, "help"@, false),
        (""@, "del"@, false),
    ]
}

/// The options of `network`: `--create-bridge`, `--delete-bridge`.
pub open spec fn network_groups() -> Seq<OptionDecl> {
    seq![(""@, "create-bridge"@, false), (""@, "delete-bridge"@, false)]
}

/// The arguments after the first (the subcommand), viewed.
pub open spec fn tail_view(args: Seq<String>) -> Seq<Seq<char>> {
    args.subrange(1, args.len() as int).map_values(|a: String| a@)
}

/// Copies every argument after the first.
fn tail_args(args: &Vec<String>) -> (r: Vec<String>)
    requires
        args@.len() >= 1,
    ensures
        r@.map_values(|a: String| a@) == tail_view(args@),
{
    let mut r: Vec<String> = Vec::new();
    let mut i: usize = 1;
    while i < args.len()
        invariant
            1 <= i <= args@.len(),
            r@ =~= args@.subrange(1, i as int),
        decreases args@.len() - i,
    {
        r.push(args[i].clone());
        i = i + 1;
    }
    r
}

/// Parses the arguments of `run` (after the subcommand) against its options.
pub fn get_runner_options(args: Vec<String>) -> (r: Result<getopts::Matches, getopts::Fail>)
    requires
        args@.len() >= 1,
    ensures
        r.is_ok() == parse_succeeds(runner_groups(), tail_view(args@)),
{
    proof {
        reveal_strlit("n");
        reveal_strlit("name");
        reveal_strlit("");
        reveal_strlit("exec");
        reveal_strlit("h");
        reveal_strlit("help");
        reveal_strlit("del");
    }
    let mut opts = new_options();
    declare_opt(&mut opts, "n", "name", "set container name", "CONTAINER_NAME");
    declare_opt(&mut opts, "", "exec", "exec command", "COMMAND");
    declare_flag(&mut opts, "h", "help", "print help message");
    declare_flag(&mut opts, "", "del", "delete container");
    assert(option_groups(opts) =~= runner_groups());
    let rest = tail_args(&args);
    parse_args(&opts, &rest)
}

/// Parses the arguments of `network` (after the subcommand) against its options.
pub fn get_network_options(args: Vec<String>) -> (r: Result<getopts::Matches, getopts::Fail>)
    requires
        args@.len() >= 1,
    ensures
        r.is_ok() == parse_succeeds(network_groups(), tail_view(args@)),
{
    proof {
        reveal_strlit("");
        reveal_strlit("create-bridge");
        reveal_strlit("delete-bridge");
    }
    let mut opts = new_options();
    declare_flag(&mut opts, "", "create-bridge", "create ace0 bridge");
    declare_flag(&mut opts, "", "delete-bridge", "delete ace0 bridge");
    assert(option_groups(opts) =~= network_groups());
    let rest = tail_args(&args);
    parse_args(&opts, &rest)
}

} // verus!
