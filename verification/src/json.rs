use vstd::prelude::*;
use vstd::string::*;

verus! {

/// Relies on std's String::push: appends exactly the one character.
#[verifier::external_body]
fn push_char(out: &mut String, c: char)
    ensures
        final(out)@ == old(out)@ + seq![c],
{
    out.push(c)
}

/// The lowercase hexadecimal digit of a value below sixteen.
pub open spec fn spec_hex_digit(d: int) -> char {
    if d == 0 {
        '0'
    } else if d == 1 {
        '1'
    } else if d == 2 {
        '2'
    } else if d == 3 {
        '3'
    } else if d == 4 {
        '4'
    } else if d == 5 {
        '5'
    } else if d == 6 {
        '6'
    } else if d == 7 {
        '7'
    } else if d == 8 {
        '8'
    } else if d == 9 {
        '9'
    } else if d == 10 {
        'a'
    } else if d == 11 {
        'b'
    } else if d == 12 {
        'c'
    } else if d == 13 {
        'd'
    } else if d == 14 {
        'e'
    } else {
        'f'
    }
}

/// The lowercase hexadecimal digit of a value below sixteen.
fn hex_digit_char(d: u32) -> (r: char)
    requires
        d < 16,
    ensures
        r == spec_hex_digit(d as int),
{
    match d {
        0 => '0',
        1 => '1',
        2 => '2',
        3 => '3',
        4 => '4',
        5 => '5',
        6 => '6',
        7 => '7',
        8 => '8',
        9 => '9',
        10 => 'a',
        11 => 'b',
        12 => 'c',
        13 => 'd',
        14 => 'e',
        _ => 'f',
    }
}

/// How one character is rendered inside a JSON string literal: quote and
/// backslash get a backslash escape, control characters a \u00XX escape,
/// every other character stands for itself.
pub open spec fn spec_json_escaped_char(c: char) -> Seq<char> {
    if c == '"' {
        seq!['\\', '"']
    } else if c == '\\' {
        seq!['\\', '\\']
    } else if (c as u32) < 32 {
        seq![
            '\\',
            'u',
            '0',
            '0',
            spec_hex_digit(c as u32 as int / 16),
            spec_hex_digit(c as u32 as int % 16),
        ]
    } else {
        seq![c]
    }
}

/// A character sequence with every character rendered for a JSON string.
pub open spec fn spec_json_escaped(s: Seq<char>) -> Seq<char>
    decreases s.len(),
{
    if s.len() == 0 {
        Seq::empty()
    } else {
        spec_json_escaped(s.drop_last()) + spec_json_escaped_char(s.last())
    }
}

/// A JSON string literal: the escaped characters between double quotes.
pub open spec fn spec_json_string(s: Seq<char>) -> Seq<char> {
    seq!['"'] + spec_json_escaped(s) + seq!['"']
}

/// A JSON value for an optional string: the string literal, or `null`.
pub open spec fn spec_json_opt_string(o: Option<Seq<char>>) -> Seq<char> {
    match o {
        Some(s) => spec_json_string(s),
        None => "null"@,
    }
}

/// The view of each string pair of a list, for speaking of file bundles.
pub open spec fn spec_pairs_view(v: Seq<(String, String)>) -> Seq<(Seq<char>, Seq<char>)> {
    v.map_values(|p: (String, String)| (p.0@, p.1@))
}

/// One `"key":"value"` member of a JSON object.
pub open spec fn spec_json_member(e: (Seq<char>, Seq<char>)) -> Seq<char> {
    spec_json_string(e.0) + seq![':'] + spec_json_string(e.1)
}

/// The members of a JSON object in order, separated by commas.
pub open spec fn spec_json_members(entries: Seq<(Seq<char>, Seq<char>)>) -> Seq<char>
    decreases entries.len(),
{
    if entries.len() == 0 {
        Seq::empty()
    } else if entries.len() == 1 {
        spec_json_member(entries[0])
    } else {
        spec_json_members(entries.drop_last()) + seq![','] + spec_json_member(entries.last())
    }
}

/// A JSON object of string members, in the given order, between braces.
pub open spec fn spec_json_object(entries: Seq<(Seq<char>, Seq<char>)>) -> Seq<char> {
    seq!['{'] + spec_json_members(entries) + seq!['}']
}

proof fn lemma_json_escaped_take_step(s: Seq<char>, i: int)
    requires
        0 <= i < s.len(),
    ensures
        spec_json_escaped(s.take(i + 1)) == spec_json_escaped(s.take(i)) + spec_json_escaped_char(
            s[i],
        ),
{
    let t = s.take(i + 1);
    assert(t.drop_last() =~= s.take(i));
    assert(t.last() == s[i]);
}

proof fn lemma_json_members_take_step(v: Seq<(Seq<char>, Seq<char>)>, i: int)
    requires
        0 <= i < v.len(),
    ensures
        i == 0 ==> spec_json_members(v.take(1)) == spec_json_member(v[0]),
        i > 0 ==> spec_json_members(v.take(i + 1)) == spec_json_members(v.take(i)) + seq![',']
            + spec_json_member(v[i]),
{
    let t = v.take(i + 1);
    assert(t.drop_last() =~= v.take(i));
    assert(t.last() == v[i]);
}

/// Append the JSON string literal rendering of `s` to `out`.
pub fn append_json_string(out: &mut String, s: &str)
    ensures
        final(out)@ == old(out)@ + spec_json_string(s@),
{
    push_char(out, '"');
    let n = s.unicode_len();
    let mut i: usize = 0;
    while i < n
        invariant
            n == s@.len(),
            i <= n,
            out@ == old(out)@ + seq!['"'] + spec_json_escaped(s@.take(i as int)),
        decreases n - i,
    {
        let c = s.get_char(i);
        proof {
            lemma_json_escaped_take_step(s@, i as int);
        }
        let v = c as u32;
        if c == '"' {
            push_char(out, '\\');
            push_char(out, '"');
        } else if c == '\\' {
            push_char(out, '\\');
            push_char(out, '\\');
        } else if v < 32 {
            push_char(out, '\\');
            push_char(out, 'u');
            push_char(out, '0');
            push_char(out, '0');
            push_char(out, hex_digit_char(v / 16));
            push_char(out, hex_digit_char(v % 16));
        } else {
            push_char(out, c);
        }
        proof {
            assert(out@ =~= old(out)@ + seq!['"'] + spec_json_escaped(s@.take(i as int + 1)));
        }
        i = i + 1;
    }
    proof {
        assert(s@.take(n as int) =~= s@);
    }
    push_char(out, '"');
    proof {
        assert(out@ =~= old(out)@ + spec_json_string(s@));
    }
}

/// Append the JSON rendering of an optional string: a literal or `null`.
pub fn append_json_opt_string(out: &mut String, o: &Option<String>)
    ensures
        final(out)@ == old(out)@ + spec_json_opt_string(
            match *o {
                Some(s) => Some(s@),
                None => None,
            },
        ),
{
    match o {
        Some(s) => append_json_string(out, s.as_str()),
        None => out.append("null"),
    }
}

/// Append the JSON object whose members are the given pairs, in order.
pub fn append_json_object(out: &mut String, entries: &Vec<(String, String)>)
    ensures
        final(out)@ == old(out)@ + spec_json_object(spec_pairs_view(entries@)),
{
    push_char(out, '{');
    let m = entries.len();
    let views = Ghost(spec_pairs_view(entries@));
    let mut i: usize = 0;
    while i < m
        invariant
            m == entries@.len(),
            i <= m,
            views@ == spec_pairs_view(entries@),
            views@.len() == m,
            forall|j: int| 0 <= j < m ==> views@[j] == (entries@[j].0@, entries@[j].1@),
            out@ == old(out)@ + seq!['{'] + spec_json_members(views@.take(i as int)),
        decreases m - i,
    {
        proof {
            lemma_json_members_take_step(views@, i as int);
        }
        if i > 0 {
            push_char(out, ',');
        }
        append_json_string(out, entries[i].0.as_str());
        push_char(out, ':');
        append_json_string(out, entries[i].1.as_str());
        proof {
            assert(out@ =~= old(out)@ + seq!['{'] + spec_json_members(
                views@.take(i as int + 1),
            ));
        }
        i = i + 1;
    }
    proof {
        assert(views@.take(m as int) =~= views@);
    }
    push_char(out, '}');
    proof {
        assert(out@ =~= old(out)@ + spec_json_object(spec_pairs_view(entries@)));
    }
}

} // verus!
