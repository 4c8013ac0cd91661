//! `konf help-json`: the command tree as a schema for agents, without the
//! arguments every command gets from the parser (`help`, `version`) and with
//! no entry for an empty list.
use vstd::prelude::*;

verus! {

/// One argument of a command, as the parser describes it.
#[derive(Debug, Clone, PartialEq)]
pub struct ArgInfo {
    pub id: String,
    pub long: Option<String>,
    pub short: Option<char>,
    pub help: Option<String>,
    pub required: bool,
}

/// A command with its arguments and subcommands, as the parser describes it.
#[derive(Debug)]
pub struct CommandInfo {
    pub name: String,
    pub about: Option<String>,
    pub args: Vec<ArgInfo>,
    pub subcommands: Vec<CommandInfo>,
}

/// One argument in the schema.
#[derive(Debug, Clone, PartialEq)]
pub struct ArgSchema {
    pub name: String,
    pub long: Option<String>,
    pub short: Option<char>,
    pub help: Option<String>,
    pub required: bool,
}

/// A command in the schema: `None` stands for an empty list.
#[derive(Debug)]
pub struct CommandSchema {
    pub name: String,
    pub about: Option<String>,
    pub subcommands: Option<Vec<CommandSchema>>,
    pub arguments: Option<Vec<ArgSchema>>,
}

/// An optional text, by value.
pub open spec fn opt_view(o: Option<String>) -> Option<Seq<char>> {
    match o {
        Some(s) => Some(s@),
        None => None,
    }
}

/// An argument that the schema keeps: every one but the parser's own `help`
/// and `version`.
pub open spec fn is_kept(a: ArgInfo) -> bool {
    a.id@ != "help"@ && a.id@ != "version"@
}

/// The kept arguments, in order.
pub open spec fn kept_args(args: Seq<ArgInfo>) -> Seq<ArgInfo>
    decreases args.len(),
{
    if args.len() == 0 {
        seq![]
    } else if is_kept(args.last()) {
        kept_args(args.drop_last()).push(args.last())
    } else {
        kept_args(args.drop_last())
    }
}

/// `s` describes the argument `a`: its id as the name, the rest as it is.
pub open spec fn arg_schema_of(a: ArgInfo, s: ArgSchema) -> bool {
    &&& s.name@ == a.id@
    &&& opt_view(s.long) == opt_view(a.long)
    &&& s.short == a.short
    &&& opt_view(s.help) == opt_view(a.help)
    &&& s.required == a.required
}

/// `r` lists the kept arguments of `args`, or is `None` when none is kept.
pub open spec fn args_schema_of(args: Seq<ArgInfo>, r: Option<Vec<ArgSchema>>) -> bool {
    let k = kept_args(args);
    match r {
        None => k.len() == 0,
        Some(v) => k.len() > 0 && v@.len() == k.len() && forall|i: int|
            0 <= i < k.len() ==> arg_schema_of(k[i], #[trigger] v@[i]),
    }
}

/// `r` is the schema of the command `c`: its name and about text, its kept
/// arguments, and the schema of each subcommand in order; an empty list of
/// either is `None`.
pub open spec fn schema_of(c: CommandInfo, r: CommandSchema) -> bool
    decreases c,
{
    &&& r.name@ == c.name@
    &&& opt_view(r.about) == opt_view(c.about)
    &&& args_schema_of(c.args@, r.arguments)
    &&& match r.subcommands {
        None => c.subcommands@.len() == 0,
        Some(v) => c.subcommands@.len() > 0 && v@.len() == c.subcommands@.len() && forall|i: int|
            0 <= i < c.subcommands@.len() ==> schema_of(
                #[trigger] c.subcommands@[i],
                v@[i],
            ),
    }
}

fn copy_opt(o: &Option<String>) -> (r: Option<String>)
    ensures
        opt_view(r) == opt_view(*o),
{
    match o {
        Some(s) => Some(s.clone()),
        None => None,
    }
}

fn is_kept_exec(a: &ArgInfo) -> (b: bool)
    ensures
        b == is_kept(*a),
{
    proof {
        reveal_strlit("help");
        reveal_strlit("version");
    }
    let id = a.id.as_str();
    !(crate::text::str_eq(id, "help") || crate::text::str_eq(id, "version"))
}

/// The schema of the arguments: the kept ones, or `None` when none is.
pub fn args_schema(args: &Vec<ArgInfo>) -> (r: Option<Vec<ArgSchema>>)
    ensures
        args_schema_of(args@, r),
{
    let mut out: Vec<ArgSchema> = Vec::new();
    let mut i: usize = 0;
    while i < args.len()
        invariant
            i <= args@.len(),
            out@.len() == kept_args(args@.take(i as int)).len(),
            forall|k: int|
                0 <= k < out@.len() ==> arg_schema_of(
                    kept_args(args@.take(i as int))[k],
                    #[trigger] out@[k],
                ),
        decreases args@.len() - i,
    {
        let a = &args[i];
        assert(args@.take(i + 1).drop_last() =~= args@.take(i as int));
        assert(args@.take(i + 1).last() == args@[i as int]);
        if is_kept_exec(a) {
            out.push(
                ArgSchema {
                    name: a.id.clone(),
                    long: copy_opt(&a.long),
                    short: a.short,
                    help: copy_opt(&a.help),
                    required: a.required,
                },
            );
        }
        i = i + 1;
    }
    assert(args@.take(i as int) =~= args@);
    if out.len() == 0 {
        None
    } else {
        Some(out)
    }
}

/// The schema of the command tree under `c`.
pub fn command_schema(c: &CommandInfo) -> (r: CommandSchema)
    ensures
        schema_of(*c, r),
    decreases c,
{
    let arguments = args_schema(&c.args);
    let mut subs: Vec<CommandSchema> = Vec::new();
    let mut i: usize = 0;
    while i < c.subcommands.len()
        invariant
            i <= c.subcommands@.len(),
            subs@.len() == i,
            forall|k: int| 0 <= k < i ==> schema_of(c.subcommands@[k], #[trigger] subs@[k]),
        decreases c.subcommands@.len() - i,
    {
        let s = command_schema(&c.subcommands[i]);
        subs.push(s);
        i = i + 1;
    }
    CommandSchema {
        name: c.name.clone(),
        about: copy_opt(&c.about),
        subcommands: if subs.len() == 0 {
            None
        } else {
            Some(subs)
        },
        arguments,
    }
}

} // verus!
