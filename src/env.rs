//! Environment assignments in `NAME=VALUE` form, as an open request carries
//! them: the name ends at the first `=`, and an entry without `=` is dropped.
use crate::pty::{command_argv, command_env, command_env_overrides, command_new};
use portable_pty::CommandBuilder;
use vstd::prelude::*;
use vstd::string::*;

verus! {

/// `i` is the position of the first `=` in `s`.
pub open spec fn is_first_eq(s: Seq<char>, i: int) -> bool {
    &&& 0 <= i < s.len()
    &&& s[i] == '='
    &&& forall|j: int| 0 <= j < i ==> s[j] != '='
}

/// The name and the value of an assignment: what stands before and after its
/// first `=`; none where `s` holds no `=`.
pub open spec fn assignment_of(s: Seq<char>) -> Option<(Seq<char>, Seq<char>)> {
    if exists|i: int| is_first_eq(s, i) {
        let i = choose|i: int| is_first_eq(s, i);
        Some((s.subrange(0, i), s.subrange(i + 1, s.len() as int)))
    } else {
        None
    }
}

/// The variables that a list of assignments sets, a later entry for a name
/// replacing an earlier one; entries without `=` set nothing.
pub open spec fn env_assignments(env: Seq<Seq<char>>) -> Map<Seq<char>, Seq<char>>
    decreases env.len(),
{
    if env.len() == 0 {
        Map::empty()
    } else {
        let before = env_assignments(env.drop_last());
        match assignment_of(env.last()) {
            Some((name, value)) => before.insert(name, value),
            None => before,
        }
    }
}

/// Splits `s` at its first `=` into name and value.
pub fn split_assignment(s: &str) -> (r: Option<(&str, &str)>)
    ensures
        r is None <==> !s@.contains('='),
        r is None <==> assignment_of(s@) is None,
        r matches Some((name, value)) ==> assignment_of(s@) == Some((name@, value@)),
{
    let len = s.unicode_len();
    let mut i: usize = 0;
    while i < len
        invariant
            len == s@.len(),
            i <= len,
            forall|j: int| 0 <= j < i ==> s@[j] != '=',
        decreases len - i,
    {
        if s.get_char(i) == '=' {
            let name = s.substring_char(0, i);
            let value = s.substring_char(i + 1, len);
            proof {
                assert(is_first_eq(s@, i as int));
                let k = choose|k: int| is_first_eq(s@, k);
                assert(k == i as int) by {
                    if k < i as int {
                        assert(s@[k] != '=');
                    } else if k > i as int {
                        assert(s@[i as int] != '=');
                    }
                }
                assert(s@.contains('='));
            }
            return Some((name, value));
        }
        i = i + 1;
    }
    proof {
        assert(!(exists|k: int| is_first_eq(s@, k)));
    }
    None
}

/// Every entry of `overrides` is set by `assigned` to the same value.
pub open spec fn carried_by(
    overrides: Map<Seq<char>, Seq<char>>,
    assigned: Map<Seq<char>, Seq<char>>,
) -> bool {
    forall|k: Seq<char>|
        #![trigger overrides.contains_key(k)]
        overrides.contains_key(k) ==> assigned.contains_key(k) && overrides[k] == assigned[k]
}

/// The command that runs `shell` with the assignments of `env` set on top of
/// the inherited environment: each variable it sets explicitly is one that
/// `env` assigns, with the value of the last entry for that name.
pub(crate) fn build_command(shell: &str, env: &Vec<String>) -> (r: CommandBuilder)
    ensures
        command_argv(r) == seq![shell@],
        carried_by(command_env_overrides(r), env_assignments(env.deep_view())),
{
    let mut cmd = command_new(shell);
    proof {
        assert(env.deep_view().subrange(0, 0) =~= Seq::<Seq<char>>::empty());
    }
    let mut i: usize = 0;
    while i < env.len()
        invariant
            i <= env.len(),
            command_argv(cmd) == seq![shell@],
            carried_by(
                command_env_overrides(cmd),
                env_assignments(env.deep_view().subrange(0, i as int)),
            ),
        decreases env.len() - i,
    {
        let entry: &str = env[i].as_str();
        let parsed = split_assignment(entry);
        proof {
            let upto = env.deep_view().subrange(0, i as int + 1);
            assert(upto.drop_last() =~= env.deep_view().subrange(0, i as int));
            assert(upto.last() == entry@);
        }
        match parsed {
            Some((name, value)) => command_env(&mut cmd, name, value),
            None => {},
        }
        i = i + 1;
    }
    proof {
        assert(env.deep_view().subrange(0, env.len() as int) =~= env.deep_view());
    }
    cmd
}

} // verus!
