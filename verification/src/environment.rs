//! The environment that the adapter process is started with: a search path
//! that reaches the usual places of installation, and the variables that
//! the cloud tooling below the adapter needs.

use crate::text::{chars_of, push_all, same_text, starts_with, string_of};
use vstd::prelude::*;

verus! {

/// The texts of variables with their values.
pub open spec fn pair_views(vars: Seq<(String, String)>) -> Seq<(Seq<char>, Seq<char>)> {
    vars.map_values(|v: (String, String)| (v.0@, v.1@))
}

/// The value of the first variable of this name, or the empty text where
/// there is none.
pub open spec fn value_of(vars: Seq<(Seq<char>, Seq<char>)>, name: Seq<char>) -> Seq<char>
    decreases vars.len(),
{
    if vars.len() == 0 {
        Seq::empty()
    } else if vars[0].0 == name {
        vars[0].1
    } else {
        value_of(vars.drop_first(), name)
    }
}

/// The search path for the adapter: the current one, then the usual places
/// of installation, the last of them below the home directory.
pub open spec fn extended_path_of(current: Seq<char>, home: Seq<char>) -> Seq<char> {
    current + ":/usr/local/bin:/opt/homebrew/bin:/home/linuxbrew/.linuxbrew/bin:"@ + home
        + "/.local/bin"@
}

/// Whether a variable is handed on to the adapter: those of the cloud
/// tooling, whose names begin with `AWS_`, but for `AWS_VAULT`, which would
/// make the adapter believe that it runs inside a vault session; and the
/// home directory, the user and the shell.
pub open spec fn is_forwarded(name: Seq<char>) -> bool {
    ||| ("AWS_"@.is_prefix_of(name) && name != "AWS_VAULT"@)
    ||| name == "HOME"@
    ||| name == "USER"@
    ||| name == "SHELL"@
}

/// The variables that are handed on, in their order.
pub open spec fn forwarded(vars: Seq<(Seq<char>, Seq<char>)>) -> Seq<(Seq<char>, Seq<char>)>
    decreases vars.len(),
{
    if vars.len() == 0 {
        vars
    } else if is_forwarded(vars.last().0) {
        forwarded(vars.drop_last()).push(vars.last())
    } else {
        forwarded(vars.drop_last())
    }
}

/// The settings of the adapter's environment, to be applied in their
/// order: the search path, the variables handed on, and last an empty
/// `AWS_VAULT`.
pub open spec fn adapter_environment_of(vars: Seq<(Seq<char>, Seq<char>)>) -> Seq<
    (Seq<char>, Seq<char>),
> {
    (seq![("PATH"@, extended_path_of(value_of(vars, "PATH"@), value_of(vars, "HOME"@)))]
        + forwarded(vars)).push(("AWS_VAULT"@, Seq::empty()))
}

/// The search path for the adapter.
pub fn extended_path(current: &str, home: &str) -> (path: String)
    ensures
        path@ == extended_path_of(current@, home@),
{
    let mut chars = chars_of(current);
    let places = chars_of(":/usr/local/bin:/opt/homebrew/bin:/home/linuxbrew/.linuxbrew/bin:");
    push_all(&mut chars, &places);
    let home_chars = chars_of(home);
    push_all(&mut chars, &home_chars);
    let local = chars_of("/.local/bin");
    push_all(&mut chars, &local);
    string_of(&chars)
}

/// Whether a variable is handed on to the adapter.
pub fn forwards(name: &str) -> (b: bool)
    ensures
        b == is_forwarded(name@),
{
    let chars = chars_of(name);
    let lead = chars_of("AWS_");
    let vault = chars_of("AWS_VAULT");
    let home = chars_of("HOME");
    let user = chars_of("USER");
    let shell = chars_of("SHELL");
    (starts_with(&chars, &lead) && !same_text(&chars, &vault)) || same_text(&chars, &home)
        || same_text(&chars, &user) || same_text(&chars, &shell)
}

/// The value of the first variable of this name, or the empty text.
pub fn lookup(vars: &Vec<(String, String)>, name: &str) -> (value: String)
    ensures
        value@ == value_of(pair_views(vars@), name@),
{
    let key = name.to_owned();
    let ghost all = pair_views(vars@);
    let mut i: usize = 0;
    proof {
        assert(all.skip(0) =~= all);
    }
    while i < vars.len()
        invariant
            i <= vars.len(),
            all == pair_views(vars@),
            key@ == name@,
            value_of(all, name@) == value_of(all.skip(i as int), name@),
        decreases vars.len() - i,
    {
        proof {
            assert(all.skip(i as int)[0] == all[i as int]);
            assert(all[i as int] == (vars@[i as int].0@, vars@[i as int].1@));
            assert(all.skip(i as int).drop_first() =~= all.skip(i + 1));
        }
        if vars[i].0 == key {
            return vars[i].1.clone();
        }
        i += 1;
    }
    String::new()
}

/// The settings of the adapter's environment, to be applied in their order
/// to the environment that the process is started with.
pub fn adapter_environment(vars: &Vec<(String, String)>) -> (settings: Vec<(String, String)>)
    ensures
        pair_views(settings@) == adapter_environment_of(pair_views(vars@)),
{
    let current = lookup(vars, "PATH");
    let home = lookup(vars, "HOME");
    let mut settings: Vec<(String, String)> = Vec::new();
    let path = extended_path(current.as_str(), home.as_str());
    settings.push(("PATH".to_owned(), path));
    let ghost all = pair_views(vars@);
    let ghost head = pair_views(settings@);
    let mut i: usize = 0;
    proof {
        assert(head =~= seq![("PATH"@, extended_path_of(value_of(all, "PATH"@), value_of(all, "HOME"@)))]);
        assert(all.take(0) =~= Seq::<(Seq<char>, Seq<char>)>::empty());
        assert(head + forwarded(all.take(0)) =~= head);
    }
    while i < vars.len()
        invariant
            i <= vars.len(),
            all == pair_views(vars@),
            pair_views(settings@) == head + forwarded(all.take(i as int)),
        decreases vars.len() - i,
    {
        let ghost before = pair_views(settings@);
        proof {
            assert(all.take(i + 1).drop_last() =~= all.take(i as int));
            assert(all.take(i + 1).last() == all[i as int]);
            assert(all[i as int] == (vars@[i as int].0@, vars@[i as int].1@));
        }
        if forwards(vars[i].0.as_str()) {
            let name = vars[i].0.clone();
            let value = vars[i].1.clone();
            settings.push((name, value));
            proof {
                assert(pair_views(settings@) =~= before.push((name@, value@)));
                assert(before.push(all[i as int]) =~= head + forwarded(all.take(i as int)).push(
                    all[i as int],
                ));
            }
        }
        i += 1;
    }
    proof {
        assert(all.take(vars.len() as int) =~= all);
    }
    let ghost before = pair_views(settings@);
    let cleared = String::new();
    settings.push(("AWS_VAULT".to_owned(), cleared));
    proof {
        assert(pair_views(settings@) =~= before.push(("AWS_VAULT"@, Seq::<char>::empty())));
    }
    settings
}

} // verus!
