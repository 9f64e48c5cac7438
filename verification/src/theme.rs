//! The choice of colour theme from the name kept in the settings.

use vstd::prelude::*;
use vstd::string::StringExecFns;

verus! {

/// The display name of iced's built-in theme at `index` in `Theme::ALL`,
/// `None` past the end of that list.
pub uninterp spec fn builtin_theme_name(index: usize) -> Option<Seq<char>>;

/// Looks up `iced::Theme::ALL[index]` and formats it with its `Display`
/// impl, which writes the theme's name. The contract claims that the result
/// is that name, named `builtin_theme_name`, that `ALL` has no entry at or
/// after an index where it has none (it is a fixed slice), and that no other
/// built-in theme has the same name (each variant's `name` is a different
/// literal).
#[verifier::external_body]
fn builtin_theme_name_at(index: usize) -> (r: Option<String>)
    ensures
        r.deep_view() == builtin_theme_name(index),
        r is None ==> forall|j: usize| j >= index ==> #[trigger] builtin_theme_name(j) is None,
        r matches Some(n) ==> forall|j: usize|
            j != index ==> #[trigger] builtin_theme_name(j) != Some(n@),
{
    iced::Theme::ALL.get(index).map(|t| t.to_string())
}

/// The theme that a name selects.
#[derive(Clone, Copy, Debug, PartialEq, Eq, Structural)]
pub enum ThemeChoice {
    /// The built-in theme at this index of iced's `Theme::ALL`.
    Builtin(usize),
    /// The default theme, Moonfly, for a name that no built-in theme has.
    Fallback,
}

/// The first built-in theme whose name is `name`, or the fallback.
pub open spec fn theme_choice_spec(name: Seq<char>) -> ThemeChoice {
    if exists|i: usize| builtin_theme_name(i) == Some(name) {
        ThemeChoice::Builtin(
            choose|i: usize|
                builtin_theme_name(i) == Some(name) && forall|j: usize|
                    j < i ==> builtin_theme_name(j) != Some(name),
        )
    } else {
        ThemeChoice::Fallback
    }
}

/// A built-in theme that has `name` and no built-in theme before it has
/// it is the one that `theme_choice_spec` picks.
proof fn lemma_first_named(name: Seq<char>, i: usize)
    requires
        builtin_theme_name(i) == Some(name),
        forall|j: usize| j < i ==> builtin_theme_name(j) != Some(name),
    ensures
        theme_choice_spec(name) == ThemeChoice::Builtin(i),
{
    let k = choose|k: usize|
        builtin_theme_name(k) == Some(name) && forall|j: usize|
            j < k ==> builtin_theme_name(j) != Some(name);
    assert(builtin_theme_name(k) == Some(name) && forall|j: usize|
        j < k ==> builtin_theme_name(j) != Some(name));
    if k < i {
        assert(builtin_theme_name(k) != Some(name));
    }
    if i < k {
        assert(builtin_theme_name(i) != Some(name));
    }
}

/// Choosing a built-in theme by its own name selects that very theme, so
/// the name that the settings keep for a chosen theme brings it back. The
/// names of iced's built-in themes are distinct, as `builtin_theme_name_at`
/// states of each name it reads.
pub proof fn theme_name_round_trip(i: usize)
    requires
        builtin_theme_name(i) is Some,
        forall|j: usize| j != i ==> #[trigger] builtin_theme_name(j) != builtin_theme_name(i),
    ensures
        theme_choice_spec(builtin_theme_name(i)->0) == ThemeChoice::Builtin(i),
{
    let name = builtin_theme_name(i)->0;
    assert forall|j: usize| j < i implies builtin_theme_name(j) != Some(name) by {
        assert(builtin_theme_name(j) != builtin_theme_name(i));
    }
    lemma_first_named(name, i);
}

/// The theme that the name `theme` selects: the first of iced's built-in
/// themes with that name, or the default theme where none has it.
pub fn theme_from_string(theme: &str) -> (c: ThemeChoice)
    ensures
        c == theme_choice_spec(theme@),
        match c {
            ThemeChoice::Builtin(i) => builtin_theme_name(i) == Some(theme@) && forall|j: usize|
                j != i ==> builtin_theme_name(j) != Some(theme@),
            ThemeChoice::Fallback => forall|j: usize| builtin_theme_name(j) != Some(theme@),
        },
{
    let wanted = String::from_str(theme);
    let mut i: usize = 0;
    loop
        invariant
            wanted@ == theme@,
            forall|j: usize| j < i ==> builtin_theme_name(j) != Some(theme@),
        decreases usize::MAX - i,
    {
        let name = builtin_theme_name_at(i);
        match name {
            None => {
                assert forall|j: usize| builtin_theme_name(j) != Some(theme@) by {
                    if j >= i {
                        assert(builtin_theme_name(j) is None);
                    }
                }
                return ThemeChoice::Fallback;
            },
            Some(n) => {
                if n == wanted {
                    proof {
                        lemma_first_named(theme@, i);
                    }
                    return ThemeChoice::Builtin(i);
                }
                if i == usize::MAX {
                    return ThemeChoice::Fallback;
                }
                i = i + 1;
            },
        }
    }
}

/// Where some built-in theme has `name`, a first one has it.
proof fn lemma_first_exists(name: Seq<char>, i: usize)
    requires
        builtin_theme_name(i) == Some(name),
    ensures
        exists|k: usize|
            k <= i && builtin_theme_name(k) == Some(name) && forall|j: usize|
                j < k ==> builtin_theme_name(j) != Some(name),
    decreases i,
{
    if exists|j: usize| j < i && builtin_theme_name(j) == Some(name) {
        let j = choose|j: usize| j < i && builtin_theme_name(j) == Some(name);
        lemma_first_exists(name, j);
    } else {
        assert(forall|j: usize| j < i ==> builtin_theme_name(j) != Some(name));
    }
}

/// A name selects a built-in theme that has this name, and no earlier one
/// has it; a name that no built-in theme has selects the fallback, Moonfly.
pub proof fn theme_choice_matches_name(name: Seq<char>)
    ensures
        theme_choice_spec(name) matches ThemeChoice::Builtin(i) ==> builtin_theme_name(i) == Some(
            name,
        ) && forall|j: usize| j < i ==> builtin_theme_name(j) != Some(name),
        theme_choice_spec(name) is Fallback <==> forall|j: usize|
            builtin_theme_name(j) != Some(name),
{
    if exists|i: usize| builtin_theme_name(i) == Some(name) {
        let i = choose|i: usize| builtin_theme_name(i) == Some(name);
        lemma_first_exists(name, i);
    }
}

} // verus!
