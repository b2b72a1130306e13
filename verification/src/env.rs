//! Queries over an environment snapshot: an ordered list of variables, each a
//! name paired with its value.

use vstd::prelude::*;
use std::str::Chars;
use vstd::std_specs::iter::IteratorSpec;

verus! {

/// Whether `text` begins with `prefix`, character for character.
pub fn has_prefix(text: &str, prefix: &str) -> (r: bool)
    ensures
        r == prefix@.is_prefix_of(text@),
{
    let mut rest: Chars<'_> = text.chars();
    let mut want: Chars<'_> = prefix.chars();
    let ghost mut seen: int = 0;
    loop
        invariant
            0 <= seen <= prefix@.len(),
            seen <= text@.len(),
            want.remaining() == prefix@.skip(seen),
            rest.remaining() == text@.skip(seen),
            prefix@.take(seen) == text@.take(seen),
        decreases prefix@.len() - seen,
    {
        match want.next() {
            None => {
                return true;
            },
            Some(wanted) => match rest.next() {
                None => {
                    return false;
                },
                Some(given) => {
                    if wanted != given {
                        return false;
                    }
                },
            },
        }
        proof {
            seen = seen + 1;
        }
    }
}

/// Whether position `i` of `env` holds the first variable called `name`.
pub open spec fn is_first_named(
    env: Seq<(Seq<char>, Seq<char>)>,
    name: Seq<char>,
    i: int,
) -> bool {
    &&& 0 <= i < env.len()
    &&& env[i].0 == name
    &&& forall|j: int| 0 <= j < i ==> env[j].0 != name
}

/// The first variable of `env` called `name`, if there is one.
pub open spec fn named_variable(env: Seq<(Seq<char>, Seq<char>)>, name: Seq<char>) -> Option<
    (Seq<char>, Seq<char>),
> {
    if exists|i: int| is_first_named(env, name, i) {
        Some(env[choose|i: int| is_first_named(env, name, i)])
    } else {
        None
    }
}

/// Looks `name` up in the snapshot: the first variable with exactly that
/// name, or `None` when no variable has it.
pub fn lookup_variable<'a>(env: &'a Vec<(String, String)>, name: &str) -> (found: Option<
    &'a (String, String),
>)
    ensures
        found.deep_view() == named_variable(env.deep_view(), name@),
        found is None <==> forall|i: int| 0 <= i < env.len() ==> env[i].0@ != name@,
        found matches Some(variable) ==> variable.0@ == name@ && env@.contains(*variable),
{
    let wanted = name.to_owned();
    let mut i: usize = 0;
    while i < env.len()
        invariant
            i <= env.len(),
            wanted@ == name@,
            forall|j: int| 0 <= j < i ==> env[j].0@ != name@,
        decreases env.len() - i,
    {
        if env[i].0 == wanted {
            proof {
                lemma_first_named(env.deep_view(), name@, i as int);
            }
            return Some(&env[i]);
        }
        i += 1;
    }
    proof {
        lemma_unnamed(env.deep_view(), name@);
    }
    None
}

/// A first variable called `name` is what the lookup yields.
pub proof fn lemma_first_named(env: Seq<(Seq<char>, Seq<char>)>, name: Seq<char>, i: int)
    requires
        is_first_named(env, name, i),
    ensures
        named_variable(env, name) == Some(env[i]),
{
    let chosen = choose|k: int| is_first_named(env, name, k);
    assert(chosen == i) by {
        if chosen < i {
            assert(env[chosen].0 != name);
        }
        if i < chosen {
            assert(env[i].0 != name);
        }
    }
}

/// The lookup yields nothing exactly when no variable is called `name`.
pub proof fn lemma_unnamed(env: Seq<(Seq<char>, Seq<char>)>, name: Seq<char>)
    ensures
        named_variable(env, name) is None <==> forall|i: int|
            0 <= i < env.len() ==> env[i].0 != name,
{
    if exists|i: int| 0 <= i < env.len() && env[i].0 == name {
        let some = choose|i: int| 0 <= i < env.len() && env[i].0 == name;
        lemma_has_first(env, name, some);
    }
}

/// Whether `env` sets `name` to `value`: some variable is called `name`, and
/// every variable called `name` carries `value`.
pub open spec fn is_set_to(
    env: Seq<(Seq<char>, Seq<char>)>,
    name: Seq<char>,
    value: Seq<char>,
) -> bool {
    &&& exists|i: int| 0 <= i < env.len() && env[i].0 == name
    &&& forall|i: int| 0 <= i < env.len() && env[i].0 == name ==> env[i].1 == value
}

/// When `name` is set to `value`, the lookup yields exactly that name with
/// that value.
pub proof fn lemma_set_is_found(
    env: Seq<(Seq<char>, Seq<char>)>,
    name: Seq<char>,
    value: Seq<char>,
)
    requires
        is_set_to(env, name, value),
    ensures
        named_variable(env, name) == Some((name, value)),
{
    let some = choose|i: int| 0 <= i < env.len() && env[i].0 == name;
    lemma_has_first(env, name, some);
    let first = choose|k: int| is_first_named(env, name, k);
    lemma_first_named(env, name, first);
}

/// Below any variable called `name` there is a first one.
proof fn lemma_has_first(env: Seq<(Seq<char>, Seq<char>)>, name: Seq<char>, i: int)
    requires
        0 <= i < env.len(),
        env[i].0 == name,
    ensures
        exists|k: int| is_first_named(env, name, k),
    decreases i,
{
    if exists|j: int| 0 <= j < i && env[j].0 == name {
        let j = choose|j: int| 0 <= j < i && env[j].0 == name;
        lemma_has_first(env, name, j);
    } else {
        assert(is_first_named(env, name, i));
    }
}

/// The variables of `env` whose name begins with `prefix`, in their order.
pub open spec fn with_prefix(env: Seq<(Seq<char>, Seq<char>)>, prefix: Seq<char>) -> Seq<
    (Seq<char>, Seq<char>),
> {
    env.filter(|variable: (Seq<char>, Seq<char>)| prefix.is_prefix_of(variable.0))
}

/// Copies out the variables whose name begins with `prefix`, keeping the
/// order of the snapshot.
pub fn filtered_variables(env: &Vec<(String, String)>, prefix: &str) -> (kept: Vec<
    (String, String),
>)
    ensures
        kept.deep_view() == with_prefix(env.deep_view(), prefix@),
{
    let mut kept: Vec<(String, String)> = Vec::new();
    let mut i: usize = 0;
    proof {
        reveal(Seq::filter);
    }
    while i < env.len()
        invariant
            i <= env.len(),
            kept.deep_view() == with_prefix(env.deep_view().take(i as int), prefix@),
        decreases env.len() - i,
    {
        if has_prefix(env[i].0.as_str(), prefix) {
            kept.push((env[i].0.clone(), env[i].1.clone()));
        }
        proof {
            reveal(Seq::filter);
            let upto = env.deep_view().take(i as int + 1);
            assert(upto.drop_last() =~= env.deep_view().take(i as int));
        }
        i += 1;
    }
    proof {
        assert(env.deep_view().take(env.len() as int) =~= env.deep_view());
    }
    kept
}

/// A variable is kept exactly when the snapshot holds it and its name begins
/// with `prefix`.
pub proof fn lemma_with_prefix_keeps(
    env: Seq<(Seq<char>, Seq<char>)>,
    prefix: Seq<char>,
    variable: (Seq<char>, Seq<char>),
)
    ensures
        with_prefix(env, prefix).contains(variable) <==> env.contains(variable)
            && prefix.is_prefix_of(variable.0),
    decreases env.len(),
{
    reveal(Seq::filter);
    if env.len() > 0 {
        lemma_with_prefix_keeps(env.drop_last(), prefix, variable);
    }
}

} // verus!
