//! The greeter: a pure map from an optional name to the greeting text.

use vstd::prelude::*;

verus! {

/// The name as the contracts see it: absent, or its characters.
pub open spec fn name_chars(name: Option<&str>) -> Option<Seq<char>> {
    match name {
        Some(n) => Some(n@),
        None => None,
    }
}

/// The greeting for `name`.
///
/// A name that is present, the empty one included, stands between a fixed
/// opening and a fixed close. Without a name the greeting is one fixed text.
pub open spec fn greeting(name: Option<Seq<char>>) -> Seq<char> {
    match name {
        Some(n) => "Hello, "@ + n + "! Welcome to appa CLI tool."@,
        None => "Hello, world! Welcome to appa CLI tool."@,
    }
}

/// Builds the greeting for `name`.
///
/// Total: every name, present or absent, has a greeting, and the result
/// depends on nothing but the name.
pub fn greet(name: Option<&str>) -> (text: String)
    ensures
        text@ == greeting(name_chars(name)),
{
    match name {
        Some(n) => {
            let mut text = String::from_str("Hello, ");
            text.append(n);
            text.append("! Welcome to appa CLI tool.");
            text
        },
        None => String::from_str("Hello, world! Welcome to appa CLI tool."),
    }
}

/// Asking twice gives the same text: the greeting is fixed by the name, so two
/// names with the same characters, or both absent, are greeted alike.
pub proof fn lemma_greeting_repeatable(first: Option<&str>, second: Option<&str>)
    requires
        name_chars(first) == name_chars(second),
    ensures
        greeting(name_chars(first)) == greeting(name_chars(second)),
{
}

/// The greeting without a name is the greeting for the name `world`.
pub proof fn lemma_absent_name_greets_world()
    ensures
        greeting(None) == greeting(Some("world"@)),
{
    reveal_strlit("world");
    reveal_strlit("Hello, ");
    reveal_strlit("! Welcome to appa CLI tool.");
    reveal_strlit("Hello, world! Welcome to appa CLI tool.");
    assert(greeting(None) =~= greeting(Some("world"@)));
}

/// A greeting names one name only: two present names with the same greeting
/// are the same name.
pub proof fn lemma_greeting_tells_names_apart(first: Seq<char>, second: Seq<char>)
    requires
        greeting(Some(first)) == greeting(Some(second)),
    ensures
        first == second,
{
    reveal_strlit("Hello, ");
    reveal_strlit("! Welcome to appa CLI tool.");
    let opening = "Hello, "@;
    let with_first = greeting(Some(first));
    let with_second = greeting(Some(second));
    assert(with_first.len() - first.len() == with_second.len() - second.len());
    assert forall|i: int| 0 <= i < first.len() implies first[i] == second[i] by {
        assert(with_first[opening.len() + i] == first[i]);
        assert(with_second[opening.len() + i] == second[i]);
    }
    assert(first =~= second);
}

} // verus!
