use vstd::prelude::*;

verus! {

/// What to run and whether to run it at all.
#[derive(Clone, Debug)]
pub struct CheckOptions {
    pub enable: bool,
    pub args: Vec<String>,
    pub command: String,
    pub all_targets: bool,
}

impl CheckOptions {
    /// The user-supplied extra arguments, as character sequences.
    pub open spec fn extra_args(&self) -> Seq<Seq<char>> {
        self.args@.map_values(|s: String| s@)
    }
}

/// The path of the manifest under a workspace root.
pub open spec fn manifest_path(workspace_root: Seq<char>) -> Seq<char> {
    workspace_root + "/Cargo.toml"@
}

/// The full argument list handed to cargo:
/// `<command> --workspace --message-format=json --manifest-path <root>/Cargo.toml
/// [--all-targets] <extra args...>`.
pub open spec fn cargo_args_spec(
    command: Seq<char>,
    workspace_root: Seq<char>,
    all_targets: bool,
    extra: Seq<Seq<char>>,
) -> Seq<Seq<char>> {
    seq![
        command,
        "--workspace"@,
        "--message-format=json"@,
        "--manifest-path"@,
        manifest_path(workspace_root),
    ] + (if all_targets {
        seq!["--all-targets"@]
    } else {
        Seq::empty()
    }) + extra
}

/// The view of a list of strings as a sequence of character sequences.
pub open spec fn strings_view(v: Seq<String>) -> Seq<Seq<char>> {
    v.map_values(|s: String| s@)
}

/// Builds the argument list for one run of the check command.
pub fn cargo_args(options: &CheckOptions, workspace_root: &str) -> (r: Vec<String>)
    requires
        options.args@.len() + 6 <= usize::MAX,
    ensures
        strings_view(r@) == cargo_args_spec(
            options.command@,
            workspace_root@,
            options.all_targets,
            options.extra_args(),
        ),
{
    let mut args: Vec<String> = Vec::new();
    args.push(options.command.clone());
    args.push(String::from_str("--workspace"));
    args.push(String::from_str("--message-format=json"));
    args.push(String::from_str("--manifest-path"));
    args.push(String::from_str(workspace_root).concat("/Cargo.toml"));
    if options.all_targets {
        args.push(String::from_str("--all-targets"));
    }
    let ghost head = strings_view(args@);
    assert(head == seq![
        options.command@,
        "--workspace"@,
        "--message-format=json"@,
        "--manifest-path"@,
        manifest_path(workspace_root@),
    ] + (if options.all_targets {
        seq!["--all-targets"@]
    } else {
        Seq::<Seq<char>>::empty()
    }));
    let mut i: usize = 0;
    while i < options.args.len()
        invariant
            i <= options.args@.len(),
            options.args@.len() + 6 <= usize::MAX,
            args@.len() == head.len() + i,
            head.len() <= 6,
            strings_view(args@) == head + options.extra_args().take(i as int),
        decreases options.args@.len() - i,
    {
        let ghost before = args@;
        let extra = options.args[i].clone();
        args.push(extra);
        assert(strings_view(args@) =~= strings_view(before).push(options.args@[i as int]@));
        assert(options.extra_args().take(i + 1) == options.extra_args().take(i as int).push(
            options.args@[i as int]@,
        ));
        i = i + 1;
    }
    assert(options.extra_args().take(i as int) == options.extra_args());
    args
}

} // verus!
