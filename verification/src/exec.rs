use crate::text::{joined_text, optional_text, texts};
use vstd::prelude::*;
use vstd::string::*;

verus! {

/// How a remote host is reached: with an identity file, or without one.
#[derive(Debug, PartialEq, Eq)]
pub struct RemoteHostCall {
    pub private_key: Option<String>,
}

/// The arguments of a remote copy or a remote command: the identity flag and
/// the identity file first where there is an identity, then the positional
/// arguments; the positional arguments alone where there is none.
pub open spec fn remote_args(identity: Option<Seq<char>>, positional: Seq<Seq<char>>) -> Seq<
    Seq<char>,
> {
    match identity {
        Some(key) => seq!["-i"@, key] + positional,
        None => positional,
    }
}

/// Builds the argument list of a remote copy or a remote command.
pub fn build_remote_args(host: &RemoteHostCall, positional: Vec<String>) -> (args: Vec<String>)
    ensures
        texts(args@) == remote_args(optional_text(host.private_key), texts(positional@)),
{
    match &host.private_key {
        None => positional,
        Some(key) => {
            let mut args: Vec<String> = Vec::new();
            args.push("-i".to_owned());
            args.push(key.clone());
            let mut i: usize = 0;
            while i < positional.len()
                invariant
                    i <= positional.len(),
                    args.len() == i + 2,
                    args[0]@ == "-i"@,
                    args[1]@ == key@,
                    forall|j: int| 0 <= j < i ==> args[j + 2]@ == positional[j]@,
                decreases positional.len() - i,
            {
                args.push(positional[i].clone());
                i += 1;
            }
            assert(texts(args@) =~= seq!["-i"@, key@] + texts(positional@));
            args
        },
    }
}

/// With an identity the argument list starts with the identity flag and the
/// identity file, and the positional arguments follow unchanged; without one
/// the list is the positional arguments and nothing else.
pub proof fn law_identity_flag_first(identity: Option<Seq<char>>, positional: Seq<Seq<char>>)
    ensures
        match identity {
            Some(key) => {
                &&& remote_args(identity, positional).len() == positional.len() + 2
                &&& remote_args(identity, positional)[0] == "-i"@
                &&& remote_args(identity, positional)[1] == key
                &&& remote_args(identity, positional).skip(2) == positional
            },
            None => remote_args(identity, positional) == positional,
        },
{
    if identity is Some {
        assert(remote_args(identity, positional).skip(2) =~= positional);
    }
}

/// A path on a remote host: the host, a colon and the path, with nothing
/// between them.
pub open spec fn remote_path_spec(host: Seq<char>, path: Seq<char>) -> Seq<char> {
    host + seq![':'] + path
}

/// Names a path on a remote host.
pub fn remote_path(host: &str, path: &str) -> (named: String)
    ensures
        named@ == remote_path_spec(host@, path@),
{
    proof {
        reveal_strlit(":");
        assert(":"@ =~= seq![':']);
    }
    let prefix = joined_text(host, ":");
    joined_text(prefix.as_str(), path)
}

/// Whether `at` is the place of the one `=` of an entry.
pub open spec fn splits_at(entry: Seq<char>, at: int) -> bool {
    &&& 0 <= at < entry.len()
    &&& entry[at] == '='
    &&& forall|j: int| 0 <= j < entry.len() && j != at ==> entry[j] != '='
}

/// The variable that a build argument assigns: the name before its one `=`
/// and the value after it; `None` where the entry has no `=` or more than one.
pub open spec fn assignment(entry: Seq<char>) -> Option<(Seq<char>, Seq<char>)> {
    if exists|at: int| splits_at(entry, at) {
        let at = choose|at: int| splits_at(entry, at);
        Some((entry.take(at), entry.skip(at + 1)))
    } else {
        None
    }
}

/// A build argument assigns `value` to `name` exactly when it is the name,
/// one `=` and the value, and neither the name nor the value holds a `=`.
pub proof fn law_assignment_has_one_separator(
    entry: Seq<char>,
    name: Seq<char>,
    value: Seq<char>,
)
    ensures
        assignment(entry) == Some((name, value)) <==> {
            &&& entry == name + seq!['='] + value
            &&& !name.contains('=')
            &&& !value.contains('=')
        },
{
    if assignment(entry) == Some((name, value)) {
        let at = choose|at: int| splits_at(entry, at);
        assert(entry =~= name + seq!['='] + value);
        if name.contains('=') {
            let j = choose|j: int| 0 <= j < name.len() && name[j] == '=';
            assert(entry[j] == '=');
        }
        if value.contains('=') {
            let j = choose|j: int| 0 <= j < value.len() && value[j] == '=';
            assert(entry[at + 1 + j] == '=');
        }
    }
    if entry == name + seq!['='] + value && !name.contains('=') && !value.contains('=') {
        let at = name.len() as int;
        assert forall|j: int| 0 <= j < entry.len() && j != at implies entry[j] != '=' by {
            if j < at {
                assert(name[j] == entry[j]);
            } else {
                assert(value[j - at - 1] == entry[j]);
            }
        }
        assert(splits_at(entry, at));
        let chosen = choose|at: int| splits_at(entry, at);
        assert(chosen == at);
        assert(entry.take(at) =~= name);
        assert(entry.skip(at + 1) =~= value);
    }
}

/// The content of a variable that may be absent.
pub open spec fn variable_view(variable: Option<(String, String)>) -> Option<
    (Seq<char>, Seq<char>),
> {
    match variable {
        Some((name, value)) => Some((name@, value@)),
        None => None,
    }
}

/// Splits a build argument into the name and the value of its variable.
pub fn split_build_arg(entry: &str) -> (variable: Option<(String, String)>)
    ensures
        variable_view(variable) == assignment(entry@),
{
    let len = entry.unicode_len();
    let mut found: Option<usize> = None;
    let mut again = false;
    let mut i: usize = 0;
    while i < len
        invariant
            i <= len,
            len == entry@.len(),
            found is None ==> !again && forall|j: int| 0 <= j < i ==> entry@[j] != '=',
            found matches Some(at) ==> at < i && entry@[at as int] == '=' && (forall|j: int|
                0 <= j < at ==> entry@[j] != '=') && (again <==> exists|j: int|
                at < j < i && entry@[j] == '='),
        decreases len - i,
    {
        if entry.get_char(i) == '=' {
            match found {
                None => {
                    found = Some(i);
                },
                Some(_) => {
                    again = true;
                },
            }
        }
        i += 1;
    }
    match found {
        Some(at) => {
            if again {
                assert forall|other: int| !splits_at(entry@, other) by {
                    let j = choose|j: int| at < j < len && entry@[j] == '=';
                    if splits_at(entry@, other) {
                        assert(other != at || other != j);
                    }
                }
                None
            } else {
                assert(splits_at(entry@, at as int));
                assert forall|other: int| splits_at(entry@, other) implies other == at by {}
                let name = entry.substring_char(0, at).to_owned();
                let value = entry.substring_char(at + 1, len).to_owned();
                Some((name, value))
            }
        },
        None => {
            assert forall|other: int| !splits_at(entry@, other) by {}
            None
        },
    }
}

/// The content of each variable of a sequence.
pub open spec fn variables_view(variables: Seq<(String, String)>) -> Seq<(Seq<char>, Seq<char>)> {
    Seq::new(variables.len(), |i: int| (variables[i].0@, variables[i].1@))
}

/// The variables that a sequence of build arguments assigns, in their order,
/// or the first entry that assigns none.
pub open spec fn environment_of(build_arg: Seq<Seq<char>>) -> Result<
    Seq<(Seq<char>, Seq<char>)>,
    Seq<char>,
>
    decreases build_arg.len(),
{
    if build_arg.len() == 0 {
        Ok(Seq::empty())
    } else {
        match environment_of(build_arg.drop_last()) {
            Err(entry) => Err(entry),
            Ok(variables) => match assignment(build_arg.last()) {
                Some(variable) => Ok(variables.push(variable)),
                None => Err(build_arg.last()),
            },
        }
    }
}

/// An entry that assigns nothing among the first build arguments is the
/// failure of the whole sequence.
proof fn lemma_bad_entry_stays(build_arg: Seq<Seq<char>>, count: int)
    requires
        0 <= count <= build_arg.len(),
        environment_of(build_arg.take(count)) is Err,
    ensures
        environment_of(build_arg) == environment_of(build_arg.take(count)),
    decreases build_arg.len() - count,
{
    if count == build_arg.len() {
        assert(build_arg.take(count) =~= build_arg);
    } else {
        assert(build_arg.take(count + 1).drop_last() =~= build_arg.take(count));
        lemma_bad_entry_stays(build_arg, count + 1);
    }
}

/// Turns build arguments into the variables of a process environment; fails
/// with the first entry that does not hold exactly one `=`.
pub fn build_environment(build_arg: &Vec<String>) -> (made: Result<Vec<(String, String)>, String>)
    ensures
        match made {
            Ok(variables) => Ok::<Seq<(Seq<char>, Seq<char>)>, Seq<char>>(
                variables_view(variables@),
            ),
            Err(entry) => Err(entry@),
        } == environment_of(texts(build_arg@)),
{
    let ghost all = texts(build_arg@);
    let mut variables: Vec<(String, String)> = Vec::new();
    let mut i: usize = 0;
    assert(variables_view(variables@) =~= Seq::empty());
    assert(all.take(0) =~= Seq::empty());
    while i < build_arg.len()
        invariant
            i <= build_arg.len(),
            all == texts(build_arg@),
            environment_of(all.take(i as int)) == Ok::<Seq<(Seq<char>, Seq<char>)>, Seq<char>>(
                variables_view(variables@),
            ),
        decreases build_arg.len() - i,
    {
        proof {
            assert(all.take(i + 1).drop_last() =~= all.take(i as int));
            assert(all.take(i + 1).last() == build_arg[i as int]@);
        }
        match split_build_arg(build_arg[i].as_str()) {
            Some(variable) => {
                let ghost before = variables_view(variables@);
                variables.push(variable);
                assert(variables_view(variables@) =~= before.push((variable.0@, variable.1@)));
            },
            None => {
                proof {
                    lemma_bad_entry_stays(all, i + 1);
                }
                return Err(build_arg[i].clone());
            },
        }
        i += 1;
    }
    assert(all.take(all.len() as int) =~= all);
    Ok(variables)
}

/// Arguments as one text: each after the first behind a space.
pub open spec fn spaced(args: Seq<Seq<char>>) -> Seq<char>
    decreases args.len(),
{
    if args.len() == 0 {
        Seq::empty()
    } else if args.len() == 1 {
        args[0]
    } else {
        spaced(args.drop_last()) + " "@ + args.last()
    }
}

/// A command as it is shown: the program, a space, and the arguments with
/// single spaces between them.
pub open spec fn command_line_spec(program: Seq<char>, args: Seq<Seq<char>>) -> Seq<char> {
    program + " "@ + spaced(args)
}

/// Writes a command out as it is shown in messages.
pub fn command_line(program: &str, args: &Vec<String>) -> (line: String)
    ensures
        line@ == command_line_spec(program@, texts(args@)),
{
    let ghost all = texts(args@);
    let mut shown = String::new();
    let mut i: usize = 0;
    assert(all.take(0) =~= Seq::empty());
    while i < args.len()
        invariant
            i <= args.len(),
            all == texts(args@),
            shown@ == spaced(all.take(i as int)),
        decreases args.len() - i,
    {
        proof {
            assert(all.take(i + 1).drop_last() =~= all.take(i as int));
            assert(all.take(i + 1).last() == args[i as int]@);
        }
        if i > 0 {
            shown.append(" ");
        } else {
            assert(shown@ + args[i as int]@ =~= args[i as int]@);
        }
        shown.append(args[i].as_str());
        i += 1;
    }
    assert(all.take(all.len() as int) =~= all);
    let mut line = joined_text(program, " ");
    line.append(shown.as_str());
    line
}

} // verus!
