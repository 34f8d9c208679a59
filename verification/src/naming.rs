//! The names that go into the constructor macro of a resource aggregate:
//! the macro is called `take_` and the aggregate's name in snake case, and
//! it fills each field from the provider's field of the same name in upper
//! case.

use vstd::prelude::*;
use vstd::string::StringExecFns;

verus! {

/// Whether `c` has the Unicode `Uppercase` property, as `char::is_uppercase`
/// reports it.
pub uninterp spec fn is_uppercase(c: char) -> bool;

/// The ASCII lower case letter for an ASCII upper case letter, and `c` itself
/// for every other character.
pub open spec fn ascii_lower(c: char) -> char {
    if 'A' <= c <= 'Z' {
        ((c as u32) + 32) as char
    } else {
        c
    }
}

/// What a character of a name contributes to its snake case form, given
/// whether it is the name's first character and whether it is an upper case
/// letter.
pub open spec fn snake_piece(leading: bool, c: char, upper: bool) -> Seq<char> {
    if !upper {
        seq![c]
    } else if leading {
        seq![ascii_lower(c)]
    } else {
        seq!['_', ascii_lower(c)]
    }
}

/// The snake case form of a name: every upper case letter is lowered, and
/// every one but a leading one is preceded by an underscore.
pub open spec fn snake_of(name: Seq<char>) -> Seq<char>
    decreases name.len(),
{
    if name.len() == 0 {
        Seq::empty()
    } else {
        snake_of(name.drop_last()) + snake_piece(
            name.len() == 1,
            name.last(),
            is_uppercase(name.last()),
        )
    }
}

/// The ASCII upper case letter for an ASCII lower case letter, and `c` itself
/// for every other character.
pub open spec fn ascii_upper(c: char) -> char {
    if 'a' <= c <= 'z' {
        ((c as u32) - 32) as char
    } else {
        c
    }
}

/// The upper case form of a name: every ASCII lower case letter is raised,
/// every other character is kept.
pub open spec fn upper_of(name: Seq<char>) -> Seq<char> {
    name.map_values(|c: char| ascii_upper(c))
}

/// `char::is_uppercase`: the result is the character's Unicode `Uppercase`
/// property, which depends on the character alone.
#[verifier::external_body]
fn char_is_uppercase(c: char) -> (upper: bool)
    ensures
        upper == is_uppercase(c),
{
    c.is_uppercase()
}

/// `char::to_ascii_lowercase`: `'A'..='Z'` map to `'a'..='z'`, every other
/// character is returned unchanged.
pub assume_specification[ char::to_ascii_lowercase ](c: &char) -> (lower: char)
    ensures
        lower == ascii_lower(*c),
;

/// `String::push`: the character is appended at the end.
pub assume_specification[ String::push ](s: &mut String, c: char)
    ensures
        final(s)@ == old(s)@.push(c),
;

/// `str::to_ascii_uppercase`: a copy of the string in which `'a'..='z'` are
/// mapped to `'A'..='Z'` and every other character is kept.
pub assume_specification[ str::to_ascii_uppercase ](s: &str) -> (upper: String)
    ensures
        upper@ == upper_of(s@),
;

/// Appends to `snake` what the character `c` contributes, where `leading`
/// says whether `c` opens the name and `upper` whether it is an upper case
/// letter.
pub fn push_snake_piece(snake: &mut String, leading: bool, c: char, upper: bool)
    ensures
        final(snake)@ == old(snake)@ + snake_piece(leading, c, upper),
{
    if upper {
        if !leading {
            snake.push('_');
        }
        snake.push(c.to_ascii_lowercase());
    } else {
        snake.push(c);
    }
}

/// Converts a `PascalCase` name to `snake_case`.
pub fn pascal_to_snake(name: &str) -> (snake: String)
    ensures
        snake@ == snake_of(name@),
{
    let mut snake = String::new();
    let mut leading = true;
    for c in it: name.chars()
        invariant
            leading == (it.index() == 0),
            it.seq() == name@,
            snake@ == snake_of(name@.take(it.index())),
    {
        assert(name@.take(it.index() + 1).drop_last() == name@.take(it.index()));
        let upper = char_is_uppercase(c);
        push_snake_piece(&mut snake, leading, c, upper);
        leading = false;
    }
    assert(name@.take(name@.len() as int) == name@);
    snake
}

/// The name of the macro that constructs the aggregate called
/// `struct_name`.
pub fn macro_name(struct_name: &str) -> (name: String)
    ensures
        name@ == "take_"@ + snake_of(struct_name@),
{
    let mut name = String::from_str("take_");
    let snake = pascal_to_snake(struct_name);
    name.append(snake.as_str());
    name
}

/// The name of the provider's field from which the aggregate's field
/// `field` is taken: the same name in upper case.
pub fn provider_field(field: &str) -> (name: String)
    ensures
        name@ == upper_of(field@),
{
    field.to_ascii_uppercase()
}

} // verus!
