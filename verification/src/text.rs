//! Small string utilities: decimal rendering, underscore replacement and
//! base-name extraction, each verified against a direct mathematical spec.

use vstd::prelude::*;

verus! {

/// Relies on `String::push`: appends one character to the string.
#[verifier::external_body]
pub fn push_char(s: &mut String, c: char)
    ensures
        final(s)@ == old(s)@.push(c),
{
    s.push(c);
}

/// Relies on `<str as PartialEq>::eq`: two string slices are equal exactly
/// when their character sequences are equal.
#[verifier::external_body]
pub fn str_eq(a: &str, b: &str) -> (r: bool)
    ensures
        r == (a@ == b@),
{
    a == b
}

/// The decimal digit character for a value below ten.
pub open spec fn digit_char(d: int) -> char {
    if d == 0 {
        '0'
    } else if d == 1 {
        '1'
    } else if d == 2 {
        '2'
    } else if d == 3 {
        '3'
    } else if d == 4 {
        '4'
    } else if d == 5 {
        '5'
    } else if d == 6 {
        '6'
    } else if d == 7 {
        '7'
    } else if d == 8 {
        '8'
    } else {
        '9'
    }
}

/// The decimal representation of a number: no sign, no leading zeroes.
pub open spec fn dec_digits(n: nat) -> Seq<char>
    decreases n,
{
    if n < 10 {
        seq![digit_char(n as int)]
    } else {
        dec_digits(n / 10).push(digit_char((n % 10) as int))
    }
}

fn digit_char_exec(d: u64) -> (c: char)
    requires
        d < 10,
    ensures
        c == digit_char(d as int),
{
    match d {
        0 => '0',
        1 => '1',
        2 => '2',
        3 => '3',
        4 => '4',
        5 => '5',
        6 => '6',
        7 => '7',
        8 => '8',
        _ => '9',
    }
}

/// Renders a number as its decimal digit string.
pub fn u64_to_string(n: u64) -> (r: String)
    ensures
        r@ == dec_digits(n as nat),
    decreases n,
{
    if n < 10 {
        let mut s = String::new();
        push_char(&mut s, digit_char_exec(n));
        s
    } else {
        let mut s = u64_to_string(n / 10);
        push_char(&mut s, digit_char_exec(n % 10));
        s
    }
}

/// The sequence with every underscore replaced by a space and every other
/// character kept.
pub open spec fn space_for_underscore(s: Seq<char>) -> Seq<char> {
    s.map_values(|c: char| if c == '_' { ' ' } else { c })
}

/// Replaces every underscore with a space, leaving all other characters as
/// they are.
pub fn replace_underscores(s: &str) -> (r: String)
    ensures
        r@ == space_for_underscore(s@),
{
    let n = s.unicode_len();
    let mut r = String::new();
    let mut i: usize = 0;
    while i < n
        invariant
            n == s@.len(),
            i <= n,
            r@ =~= space_for_underscore(s@).subrange(0, i as int),
        decreases n - i,
    {
        let c = s.get_char(i);
        if c == '_' {
            push_char(&mut r, ' ');
        } else {
            push_char(&mut r, c);
        }
        i = i + 1;
    }
    assert(r@ =~= space_for_underscore(s@));
    r
}

/// What stands after the last slash; the whole sequence when it has no slash.
pub open spec fn base_name_spec(s: Seq<char>) -> Seq<char>
    decreases s.len(),
{
    if s.len() == 0 {
        s
    } else if s.last() == '/' {
        seq![]
    } else {
        base_name_spec(s.drop_last()).push(s.last())
    }
}

proof fn lemma_base_name_subrange(s: Seq<char>, cut: int)
    requires
        0 <= cut <= s.len(),
        cut == 0 || s[cut - 1] == '/',
        forall|j: int| cut <= j < s.len() ==> s[j] != '/',
    ensures
        base_name_spec(s) == s.subrange(cut, s.len() as int),
    decreases s.len(),
{
    if s.len() == 0 {
        assert(base_name_spec(s) =~= s.subrange(cut, s.len() as int));
    } else if s.last() == '/' {
        assert(cut == s.len());
        assert(base_name_spec(s) =~= s.subrange(cut, s.len() as int));
    } else {
        assert(cut < s.len());
        let t = s.drop_last();
        assert(forall|j: int| cut <= j < t.len() ==> t[j] != '/');
        lemma_base_name_subrange(t, cut);
        assert(base_name_spec(s) =~= s.subrange(cut, s.len() as int));
    }
}

/// The part of a path after its last slash: the file's own name.
pub fn base_name(s: &str) -> (r: String)
    ensures
        r@ == base_name_spec(s@),
{
    let n = s.unicode_len();
    let mut cut: usize = 0;
    let mut i: usize = 0;
    while i < n
        invariant
            n == s@.len(),
            cut <= i <= n,
            cut == 0 || s@[cut as int - 1] == '/',
            forall|j: int| cut <= j < i ==> s@[j] != '/',
        decreases n - i,
    {
        if s.get_char(i) == '/' {
            cut = i + 1;
        }
        i = i + 1;
    }
    proof {
        lemma_base_name_subrange(s@, cut as int);
    }
    let tail = s.substring_char(cut, n);
    tail.to_owned()
}

} // verus!
