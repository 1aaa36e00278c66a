//! Expansion of environment variables in the configuration's text.
//!
//! The environment itself is read outside this library and handed in as
//! a table from variable names to values.

use vstd::prelude::*;
use vstd::string::StrSliceExecFns;
use crate::strings::to_chars;
use crate::table::StringMap;

verus! {

/// Whether a character is alphanumeric, as `char::is_alphanumeric` of
/// the standard library says.
pub uninterp spec fn is_alphanumeric(c: char) -> bool;

/// Calls `char::is_alphanumeric`.
#[verifier::external_body]
fn alphanumeric(c: char) -> (yes: bool)
    ensures
        yes == is_alphanumeric(c),
{
    c.is_alphanumeric()
}

/// Whether a character may stand in a variable's name that is written
/// without braces.
pub open spec fn is_name_char(c: char) -> bool {
    is_alphanumeric(c) || c == '_'
}

/// What stands for `${name}`: the variable's value, or the reference
/// itself where the variable is not set.
pub open spec fn braced_value(name: Seq<char>, env: Map<Seq<char>, Seq<char>>) -> Seq<char> {
    if env.contains_key(name) {
        env[name]
    } else {
        "${"@ + name + "}"@
    }
}

/// What stands for `$name`: a dollar sign where the name is empty, else
/// the variable's value, or the reference itself where the variable is
/// not set.
pub open spec fn bare_value(name: Seq<char>, env: Map<Seq<char>, Seq<char>>) -> Seq<char> {
    if name.len() == 0 {
        "$"@
    } else if env.contains_key(name) {
        env[name]
    } else {
        "$"@ + name
    }
}

/// The expansion of `s` from position `i` on, outside any reference. A
/// dollar sign starts a reference: with braces where a brace follows,
/// without otherwise.
pub open spec fn expand_text(s: Seq<char>, i: int, env: Map<Seq<char>, Seq<char>>) -> Seq<char>
    decreases s.len() - i, 1int,
{
    if i < 0 || i >= s.len() {
        seq![]
    } else if s[i] != '$' {
        seq![s[i]] + expand_text(s, i + 1, env)
    } else if i + 1 < s.len() && s[i + 1] == '{' {
        expand_braced(s, i + 2, i + 2, env)
    } else {
        expand_bare(s, i + 1, i + 1, env)
    }
}

/// The expansion from position `i` on inside a reference with braces
/// whose name began at `start`. The name ends before the closing brace,
/// or with the text.
pub open spec fn expand_braced(
    s: Seq<char>,
    start: int,
    i: int,
    env: Map<Seq<char>, Seq<char>>,
) -> Seq<char>
    decreases s.len() - i, 0int,
{
    if i < start || start < 0 || i >= s.len() {
        braced_value(s.subrange(start, s.len() as int), env)
    } else if s[i] == '}' {
        braced_value(s.subrange(start, i), env) + expand_text(s, i + 1, env)
    } else {
        expand_braced(s, start, i + 1, env)
    }
}

/// The expansion from position `i` on inside a reference without braces
/// whose name began at `start`. The name ends before the first character
/// that cannot stand in a name, and that character is dropped.
pub open spec fn expand_bare(
    s: Seq<char>,
    start: int,
    i: int,
    env: Map<Seq<char>, Seq<char>>,
) -> Seq<char>
    decreases s.len() - i, 0int,
{
    if i < start || start < 0 || i >= s.len() {
        bare_value(s.subrange(start, s.len() as int), env)
    } else if is_name_char(s[i]) {
        expand_bare(s, start, i + 1, env)
    } else {
        bare_value(s.subrange(start, i), env) + expand_text(s, i + 1, env)
    }
}

/// The text with every reference to an environment variable expanded.
pub open spec fn expanded(s: Seq<char>, env: Map<Seq<char>, Seq<char>>) -> Seq<char> {
    expand_text(s, 0, env)
}

proof fn lemma_literal_run(s: Seq<char>, i: int, j: int, env: Map<Seq<char>, Seq<char>>)
    requires
        0 <= i <= j <= s.len(),
        forall|k: int| i <= k < j ==> s[k] != '$',
    ensures
        expand_text(s, i, env) == s.subrange(i, j) + expand_text(s, j, env),
    decreases j - i,
{
    if i == j {
        assert(s.subrange(i, j) + expand_text(s, j, env) =~= expand_text(s, j, env));
    } else {
        lemma_literal_run(s, i + 1, j, env);
        assert(s.subrange(i, j) =~= seq![s[i]] + s.subrange(i + 1, j));
        assert(seq![s[i]] + (s.subrange(i + 1, j) + expand_text(s, j, env)) =~= s.subrange(i, j)
            + expand_text(s, j, env));
    }
}

proof fn lemma_braced_run(s: Seq<char>, start: int, i: int, j: int, env: Map<Seq<char>, Seq<char>>)
    requires
        0 <= start <= i <= j <= s.len(),
        forall|k: int| i <= k < j ==> s[k] != '}',
    ensures
        expand_braced(s, start, i, env) == expand_braced(s, start, j, env),
    decreases j - i,
{
    if i < j {
        lemma_braced_run(s, start, i + 1, j, env);
    }
}

proof fn lemma_bare_run(s: Seq<char>, start: int, i: int, j: int, env: Map<Seq<char>, Seq<char>>)
    requires
        0 <= start <= i <= j <= s.len(),
        forall|k: int| i <= k < j ==> is_name_char(s[k]),
    ensures
        expand_bare(s, start, i, env) == expand_bare(s, start, j, env),
    decreases j - i,
{
    if i < j {
        lemma_bare_run(s, start, i + 1, j, env);
    }
}

/// Copies the run of plain text that starts at `i`.
fn copy_literal(input: &str, chars: &Vec<char>, env: &StringMap<String>, output: &mut String, i: usize) -> (next: usize)
    requires
        chars@ == input@,
        i < chars@.len(),
        chars@[i as int] != '$',
    ensures
        i < next <= chars@.len(),
        final(output)@ + expand_text(input@, next as int, env.texts()) == old(output)@
            + expand_text(input@, i as int, env.texts()),
{
    let n = chars.len();
    let ghost s = input@;
    let ghost vars = env.texts();
    let mut j: usize = i + 1;
    while j < n && chars[j] != '$'
        invariant
            i < j <= n,
            n == chars@.len(),
            forall|k: int| i <= k < j ==> chars@[k] != '$',
        decreases n - j,
    {
        j += 1;
    }
    let run = input.substring_char(i, j);
    output.append(run);
    proof {
        lemma_literal_run(s, i as int, j as int, vars);
        assert(old(output)@ + (s.subrange(i as int, j as int) + expand_text(s, j as int, vars))
            =~= output@ + expand_text(s, j as int, vars));
    }
    j
}

/// Expands the reference with braces whose dollar sign stands at `i`.
fn expand_braced_at(input: &str, chars: &Vec<char>, env: &StringMap<String>, output: &mut String, i: usize) -> (next: usize)
    requires
        chars@ == input@,
        i + 1 < chars@.len(),
        chars@[i as int] == '$',
        chars@[i + 1] == '{',
    ensures
        i < next <= chars@.len(),
        final(output)@ + expand_text(input@, next as int, env.texts()) == old(output)@
            + expand_text(input@, i as int, env.texts()),
{
    let n = chars.len();
    let ghost s = input@;
    let ghost vars = env.texts();
    let start: usize = i + 2;
    let mut j: usize = start;
    while j < n && chars[j] != '}'
        invariant
            start <= j <= n,
            n == chars@.len(),
            forall|k: int| start <= k < j ==> chars@[k] != '}',
        decreases n - j,
    {
        j += 1;
    }
    let name = input.substring_char(start, j);
    match env.text(name) {
        Some(value) => {
            output.append(value);
        },
        None => {
            output.append("${");
            output.append(name);
            output.append("}");
            assert(output@ =~= old(output)@ + ("${"@ + name@ + "}"@));
        },
    }
    let ghost value = braced_value(name@, vars);
    assert(output@ == old(output)@ + value);
    let next: usize = if j < n {
        j + 1
    } else {
        n
    };
    proof {
        lemma_braced_run(s, start as int, start as int, j as int, vars);
        assert(expand_text(s, i as int, vars) == expand_braced(s, start as int, start as int, vars));
        if j < n {
            assert(expand_braced(s, start as int, j as int, vars) == value + expand_text(
                s,
                next as int,
                vars,
            ));
            assert(old(output)@ + (value + expand_text(s, next as int, vars)) =~= output@
                + expand_text(s, next as int, vars));
        } else {
            assert(expand_braced(s, start as int, j as int, vars) == value);
            assert(expand_text(s, next as int, vars) =~= Seq::<char>::empty());
            assert(old(output)@ + value =~= output@ + expand_text(s, next as int, vars));
        }
    }
    next
}

/// Expands the reference without braces whose dollar sign stands at `i`.
fn expand_bare_at(input: &str, chars: &Vec<char>, env: &StringMap<String>, output: &mut String, i: usize) -> (next: usize)
    requires
        chars@ == input@,
        i < chars@.len(),
        chars@[i as int] == '$',
        !(i + 1 < chars@.len() && chars@[i + 1] == '{'),
    ensures
        i < next <= chars@.len(),
        final(output)@ + expand_text(input@, next as int, env.texts()) == old(output)@
            + expand_text(input@, i as int, env.texts()),
{
    let n = chars.len();
    let ghost s = input@;
    let ghost vars = env.texts();
    let start: usize = i + 1;
    let mut j: usize = start;
    while j < n && (alphanumeric(chars[j]) || chars[j] == '_')
        invariant
            start <= j <= n,
            n == chars@.len(),
            forall|k: int| start <= k < j ==> is_name_char(chars@[k]),
        decreases n - j,
    {
        j += 1;
    }
    let name = input.substring_char(start, j);
    if j == start {
        output.append("$");
    } else {
        match env.text(name) {
            Some(value) => {
                output.append(value);
            },
            None => {
                output.append("$");
                output.append(name);
                assert(output@ =~= old(output)@ + ("$"@ + name@));
            },
        }
    }
    let ghost value = bare_value(name@, vars);
    assert(output@ == old(output)@ + value);
    let next: usize = if j < n {
        j + 1
    } else {
        n
    };
    proof {
        lemma_bare_run(s, start as int, start as int, j as int, vars);
        assert(expand_text(s, i as int, vars) == expand_bare(s, start as int, start as int, vars));
        if j < n {
            assert(expand_bare(s, start as int, j as int, vars) == value + expand_text(
                s,
                next as int,
                vars,
            ));
            assert(old(output)@ + (value + expand_text(s, next as int, vars)) =~= output@
                + expand_text(s, next as int, vars));
        } else {
            assert(expand_bare(s, start as int, j as int, vars) == value);
            assert(expand_text(s, next as int, vars) =~= Seq::<char>::empty());
            assert(old(output)@ + value =~= output@ + expand_text(s, next as int, vars));
        }
    }
    next
}

/// Expands `${NAME}` and `$NAME` in the text by the values that `env`
/// holds. A reference to a variable that is not set stays as it is
/// written. A name in braces ends at the closing brace; a name without
/// braces is made of alphanumeric characters and underscores, and the
/// character that ends it is not copied.
pub fn expand_env_vars(input: &str, env: &StringMap<String>) -> (output: String)
    ensures
        output@ == expanded(input@, env.texts()),
{
    let chars = to_chars(input);
    let n = chars.len();
    let mut output = String::new();
    let mut i: usize = 0;
    assert(output@ + expand_text(input@, 0, env.texts()) =~= expanded(input@, env.texts()));
    while i < n
        invariant
            i <= n,
            n == chars@.len(),
            chars@ == input@,
            output@ + expand_text(input@, i as int, env.texts()) == expanded(input@, env.texts()),
        decreases n - i,
    {
        if chars[i] != '$' {
            i = copy_literal(input, &chars, env, &mut output, i);
        } else if i + 1 < n && chars[i + 1] == '{' {
            i = expand_braced_at(input, &chars, env, &mut output, i);
        } else {
            i = expand_bare_at(input, &chars, env, &mut output, i);
        }
    }
    assert(output@ + expand_text(input@, n as int, env.texts()) =~= output@);
    output
}

} // verus!
