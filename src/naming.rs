use vstd::prelude::*;

verus! {

pub open spec fn spec_is_lower(c: char) -> bool {
    'a' <= c && c <= 'z'
}

pub open spec fn spec_is_upper(c: char) -> bool {
    'A' <= c && c <= 'Z'
}

pub open spec fn spec_is_digit(c: char) -> bool {
    '0' <= c && c <= '9'
}

/// `snake_case`: a lower-case letter or an underscore first, then lower-case
/// letters, digits and underscores.
pub open spec fn spec_snake_case(s: Seq<char>) -> bool {
    &&& s.len() > 0
    &&& (spec_is_lower(s[0]) || s[0] == '_')
    &&& forall|i: int|
        0 <= i < s.len() ==> (spec_is_lower(#[trigger] s[i]) || spec_is_digit(s[i]) || s[i]
            == '_')
}

/// `PascalCase` or `Pascal_Snake_Case`: an upper-case letter first, then
/// letters, digits and underscores, where every underscore is followed by an
/// upper-case letter.
pub open spec fn spec_pascal_snake_case(s: Seq<char>) -> bool {
    &&& s.len() > 0
    &&& spec_is_upper(s[0])
    &&& forall|i: int|
        0 <= i < s.len() ==> (spec_is_lower(#[trigger] s[i]) || spec_is_upper(s[i])
            || spec_is_digit(s[i]) || s[i] == '_')
    &&& forall|i: int|
        0 <= i < s.len() && #[trigger] s[i] == '_' ==> i + 1 < s.len() && spec_is_upper(s[i + 1])
}

pub fn is_lower(c: char) -> (r: bool)
    ensures
        r == spec_is_lower(c),
{
    'a' <= c && c <= 'z'
}

pub fn is_upper(c: char) -> (r: bool)
    ensures
        r == spec_is_upper(c),
{
    'A' <= c && c <= 'Z'
}

pub fn is_digit(c: char) -> (r: bool)
    ensures
        r == spec_is_digit(c),
{
    '0' <= c && c <= '9'
}

pub fn is_snake_case(s: &Vec<char>) -> (r: bool)
    ensures
        r == spec_snake_case(s@),
{
    if s.len() == 0 {
        return false;
    }
    if !(is_lower(s[0]) || s[0] == '_') {
        return false;
    }
    let mut i: usize = 0;
    while i < s.len()
        invariant
            0 <= i <= s.len(),
            forall|j: int|
                0 <= j < i ==> (spec_is_lower(#[trigger] s@[j]) || spec_is_digit(s@[j]) || s@[j]
                    == '_'),
        decreases s.len() - i,
    {
        let c = s[i];
        if !(is_lower(c) || is_digit(c) || c == '_') {
            return false;
        }
        i = i + 1;
    }
    true
}

pub fn is_pascal_snake_case(s: &Vec<char>) -> (r: bool)
    ensures
        r == spec_pascal_snake_case(s@),
{
    if s.len() == 0 {
        return false;
    }
    if !is_upper(s[0]) {
        return false;
    }
    let mut i: usize = 0;
    while i < s.len()
        invariant
            0 <= i <= s.len(),
            forall|j: int|
                0 <= j < i ==> (spec_is_lower(#[trigger] s@[j]) || spec_is_upper(s@[j])
                    || spec_is_digit(s@[j]) || s@[j] == '_'),
            forall|j: int|
                0 <= j < i && #[trigger] s@[j] == '_' ==> j + 1 < s.len() && spec_is_upper(
                    s@[j + 1],
                ),
        decreases s.len() - i,
    {
        let c = s[i];
        if !(is_lower(c) || is_upper(c) || is_digit(c) || c == '_') {
            return false;
        }
        if c == '_' {
            if i + 1 >= s.len() || !is_upper(s[i + 1]) {
                return false;
            }
        }
        i = i + 1;
    }
    true
}

} // verus!
