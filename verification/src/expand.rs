//! Environment overrides: reading them from a table of the configuration and
//! expanding the shell-style references in their values.

use vstd::prelude::*;
use crate::sequences::lemma_filter_step;

verus! {

/// `toml::map::Map`, the type of a table: a value that is carried, and read
/// through [`table_strings`] alone.
#[verifier::external_type_specification]
#[verifier::external_body]
#[verifier::reject_recursive_types(K)]
#[verifier::reject_recursive_types(V)]
pub struct ExTomlMap<K, V>(toml::map::Map<K, V>);

/// `toml::Value`, the type of a table's values: a value that is carried.
#[verifier::external_type_specification]
#[verifier::external_body]
pub struct ExTomlValue(toml::Value);

/// What a table holds, entry by entry in the order in which the table hands
/// its entries out: each key, and the value where it is a string.
pub uninterp spec fn table_strings(table: toml::Table) -> Seq<(Seq<char>, Option<Seq<char>>)>;

/// What `shellexpand::full_with_context` makes of `input` when `home` is the
/// home directory and every variable stands for [`value_of`] it in `vars`:
/// `None` where it reports a lookup error.
pub uninterp spec fn shell_expansion(
    input: Seq<char>,
    home: Option<Seq<char>>,
    vars: Seq<(Seq<char>, Seq<char>)>,
) -> Option<Seq<char>>;

/// The place of the first pair of `vars` that defines `name`.
pub open spec fn defined_at(vars: Seq<(Seq<char>, Seq<char>)>, name: Seq<char>, i: int) -> bool {
    &&& 0 <= i < vars.len()
    &&& vars[i].0 == name
    &&& forall|j: int| 0 <= j < i ==> (#[trigger] vars[j]).0 != name
}

/// Whether some pair of `vars` defines `name`.
pub open spec fn defines(vars: Seq<(Seq<char>, Seq<char>)>, name: Seq<char>) -> bool {
    exists|i: int| 0 <= i < vars.len() && (#[trigger] vars[i]).0 == name
}

/// What a variable stands for: the value of the first pair that defines it,
/// and the empty string where none does.
pub open spec fn value_of(vars: Seq<(Seq<char>, Seq<char>)>, name: Seq<char>) -> Seq<char> {
    if defines(vars, name) {
        vars[choose|i: int| defined_at(vars, name, i)].1
    } else {
        Seq::empty()
    }
}

/// The first pair that defines a name is unique, so [`value_of`] is the value
/// of any pair that [`defined_at`] points to.
pub proof fn lemma_value_of(vars: Seq<(Seq<char>, Seq<char>)>, name: Seq<char>, i: int)
    requires
        defined_at(vars, name, i),
    ensures
        defines(vars, name),
        value_of(vars, name) == vars[i].1,
{
    let k = choose|k: int| defined_at(vars, name, k);
    assert(defined_at(vars, name, k));
    if k < i {
        assert(vars[k].0 != name);
    }
    if i < k {
        assert(vars[i].0 != name);
    }
}

/// Looks a variable up: the value of the first pair of `vars` with that name.
/// A variable that no pair defines stands for the empty string.
pub fn lookup_var(vars: &Vec<(String, String)>, name: &str) -> (r: String)
    ensures
        r@ == value_of(vars.deep_view(), name@),
{
    let wanted = name.to_owned();
    let mut i: usize = 0;
    while i < vars.len()
        invariant
            i <= vars.len(),
            wanted@ == name@,
            forall|j: int| 0 <= j < i ==> (#[trigger] vars.deep_view()[j]).0 != name@,
        decreases vars.len() - i,
    {
        if vars[i].0 == wanted {
            proof {
                lemma_value_of(vars.deep_view(), name@, i as int);
            }
            return vars[i].1.clone();
        }
        i = i + 1;
    }
    String::new()
}

/// Calls `shellexpand::full_with_context` on `input`, with `home` as the home
/// directory and [`lookup_var`] on `vars` as the variable lookup, which never
/// fails. Trusted: that the outcome depends on these three values alone;
/// [`shell_expansion`] is the name of that outcome. (The one thing besides
/// them that the function looks at is whether it was built for Windows,
/// where a backslash after a leading tilde counts as a separator; the name
/// stands for what it does on every other target.)
#[verifier::external_body]
fn expand_with_context(input: &str, home: &Option<String>, vars: &Vec<(String, String)>) -> (r:
    Option<String>)
    ensures
        r.deep_view() == shell_expansion(input@, home.deep_view(), vars.deep_view()),
{
    shellexpand::full_with_context(
        input,
        || home.as_ref(),
        |name| Ok::<_, ()>(Some(lookup_var(vars, name))),
    ).ok().map(|expanded| expanded.into_owned())
}

/// Walks a table with `toml::map::Map::iter` and reads each value with
/// `toml::Value::as_str`. Trusted: that the pairs come in the table's own
/// order, each key with its value where that is a string;
/// [`table_strings`] is the name of that sequence.
#[verifier::external_body]
fn string_entries(table: &toml::Table) -> (r: Vec<(String, Option<String>)>)
    ensures
        r.deep_view() == table_strings(*table),
{
    table.iter().map(|(key, value)| (key.clone(), value.as_str().map(String::from))).collect()
}

/// Each entry with its value expanded: `None` where the value is no string,
/// and where the expansion reports an error.
pub open spec fn expanded(
    entries: Seq<(Seq<char>, Option<Seq<char>>)>,
    home: Option<Seq<char>>,
    vars: Seq<(Seq<char>, Seq<char>)>,
) -> Seq<(Seq<char>, Option<Seq<char>>)> {
    entries.map_values(
        |e: (Seq<char>, Option<Seq<char>>)|
            (
                e.0,
                match e.1 {
                    Some(text) => shell_expansion(text, home, vars),
                    None => None,
                },
            ),
    )
}

/// Tells the entries that have a value from the others.
pub open spec fn has_value() -> spec_fn((Seq<char>, Option<Seq<char>>)) -> bool {
    |e: (Seq<char>, Option<Seq<char>>)| e.1 is Some
}

/// An entry that has a value, as a pair of key and value.
pub open spec fn as_pair() -> spec_fn((Seq<char>, Option<Seq<char>>)) -> (Seq<char>, Seq<char>) {
    |e: (Seq<char>, Option<Seq<char>>)| (e.0, e.1->0)
}

/// The entries that have a value, in their order.
pub open spec fn kept(entries: Seq<(Seq<char>, Option<Seq<char>>)>) -> Seq<(Seq<char>, Seq<char>)> {
    entries.filter(has_value()).map_values(as_pair())
}

/// Drops the entries without a value and keeps the others in their order.
pub fn keep_expanded(entries: Vec<(String, Option<String>)>) -> (r: Vec<(String, String)>)
    ensures
        r.deep_view() == kept(entries.deep_view()),
{
    let ghost all = entries.deep_view();
    let mut r: Vec<(String, String)> = Vec::new();
    let mut i: usize = 0;
    proof {
        reveal(Seq::filter);
        assert(all.take(0).filter(has_value()) =~= Seq::empty());
        assert(r.deep_view() =~= kept(all.take(0)));
    }
    while i < entries.len()
        invariant
            i <= entries.len(),
            all == entries.deep_view(),
            r.deep_view() == kept(all.take(i as int)),
        decreases entries.len() - i,
    {
        let ghost before = r.deep_view();
        proof {
            lemma_filter_step(all, has_value(), i as int);
            assert(all[i as int] == entries@[i as int].deep_view());
        }
        match &entries[i].1 {
            Some(value) => {
                r.push((entries[i].0.clone(), value.clone()));
                proof {
                    assert(r.deep_view() =~= before.push(as_pair()(all[i as int])));
                    assert(kept(all.take(i + 1)) =~= kept(all.take(i as int)).push(
                        as_pair()(all[i as int]),
                    ));
                }
            },
            None => {},
        }
        i = i + 1;
    }
    proof {
        assert(all.take(entries.len() as int) =~= all);
    }
    r
}

/// The environment overrides of a configuration: of the entries of `table`,
/// those whose value is a string, each with its value expanded against `home`
/// and `vars`. A reference to a variable that `vars` does not define expands
/// to nothing. An entry whose expansion reports an error is left out.
pub fn expand_envs(table: &toml::Table, home: &Option<String>, vars: &Vec<(String, String)>) -> (r:
    Vec<(String, String)>)
    ensures
        r.deep_view() == kept(expanded(table_strings(*table), home.deep_view(), vars.deep_view())),
{
    let entries = string_entries(table);
    let ghost all = entries.deep_view();
    let ghost want = expanded(all, home.deep_view(), vars.deep_view());
    let mut out: Vec<(String, Option<String>)> = Vec::new();
    let mut i: usize = 0;
    while i < entries.len()
        invariant
            i <= entries.len(),
            all == entries.deep_view(),
            want == expanded(all, home.deep_view(), vars.deep_view()),
            out.deep_view() == want.take(i as int),
        decreases entries.len() - i,
    {
        let ghost before = out.deep_view();
        let value = match &entries[i].1 {
            Some(text) => expand_with_context(text.as_str(), home, vars),
            None => None,
        };
        out.push((entries[i].0.clone(), value));
        proof {
            assert(all[i as int] == entries@[i as int].deep_view());
            assert(out.deep_view() =~= before.push(want[i as int]));
            assert(want.take(i + 1) =~= want.take(i as int).push(want[i as int]));
        }
        i = i + 1;
    }
    proof {
        assert(want.take(entries.len() as int) =~= want);
    }
    keep_expanded(out)
}

} // verus!
