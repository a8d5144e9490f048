use vstd::prelude::*;

use crate::text::push_char;

verus! {

/// `s` cut at each `sep`; `n` separators give `n + 1` pieces.
pub open spec fn split_on(s: Seq<char>, sep: char) -> Seq<Seq<char>>
    decreases s.len(),
{
    if s.len() == 0 {
        seq![Seq::empty()]
    } else {
        let rest = split_on(s.drop_last(), sep);
        if s.last() == sep {
            rest.push(Seq::empty())
        } else {
            rest.update(rest.len() - 1, rest.last().push(s.last()))
        }
    }
}

/// Cutting always leaves at least one piece.
pub proof fn lemma_split_len(s: Seq<char>, sep: char)
    ensures
        split_on(s, sep).len() >= 1,
    decreases s.len(),
{
    if s.len() > 0 {
        lemma_split_len(s.drop_last(), sep);
    }
}

pub open spec fn views(v: Seq<String>) -> Seq<Seq<char>> {
    v.map_values(|p: String| p@)
}

proof fn lemma_split_nonempty(s: Seq<char>)
    ensures
        split_on(s, ' ').len() >= 1,
        split_on(s, ' ')[0].len() == 0 <==> (s.len() == 0 || s[0] == ' '),
        (s.len() > 0 && s[0] == ' ') ==> split_on(s, ' ').len() >= 2,
    decreases s.len(),
{
    if s.len() > 0 {
        let t = s.drop_last();
        lemma_split_nonempty(t);
        let rest = split_on(t, ' ');
        if s.len() > 1 {
            assert(t[0] == s[0]);
        } else {
            assert(t.len() == 0);
            assert(rest == seq![Seq::<char>::empty()]);
        }
        if s.last() != ' ' {
            assert(split_on(s, ' ') == rest.update(rest.len() - 1, rest.last().push(s.last())));
            if rest.len() > 1 {
                assert(split_on(s, ' ')[0] == rest[0]);
            }
        } else {
            assert(split_on(s, ' ')[0] == rest[0]);
        }
    }
}

/// Why a function command was refused.
#[derive(Debug, Clone, Copy, PartialEq, Eq, Structural)]
pub enum CommandError {
    /// The command does not start with a program name.
    EmptyFunctionName,
}

/// Cuts a command line at each space: the program, then its arguments.
pub fn parse_command(func: &String) -> (r: Result<Vec<String>, CommandError>)
    ensures
        match r {
            Ok(v) => views(v@) == split_on(func@, ' ') && v@.len() >= 1 && v@[0]@.len() > 0,
            Err(e) => func@.len() == 0 || func@[0] == ' ',
        },
{
    let s = func.as_str();
    let n = s.unicode_len();
    let mut parts: Vec<String> = Vec::new();
    let mut cur = String::new();
    let mut i: usize = 0;
    while i < n
        invariant
            n == s@.len(),
            s@ == func@,
            i <= n,
            views(parts@).push(cur@) == split_on(s@.subrange(0, i as int), ' '),
        decreases n - i,
    {
        let c = s.get_char(i);
        let ghost pre = s@.subrange(0, i as int);
        assert(s@.subrange(0, i + 1).drop_last() == pre);
        let ghost before = parts@;
        let ghost cur_v = cur@;
        if c == ' ' {
            parts.push(cur);
            cur = String::new();
            assert(views(parts@) =~= views(before).push(cur_v));
        } else {
            push_char(&mut cur, c);
            assert(views(parts@).push(cur@) =~= split_on(pre, ' ').update(
                split_on(pre, ' ').len() - 1,
                split_on(pre, ' ').last().push(c),
            ));
        }
        i = i + 1;
    }
    let ghost before = parts@;
    let ghost cur_v = cur@;
    parts.push(cur);
    assert(views(parts@) =~= views(before).push(cur_v));
    assert(s@.subrange(0, n as int) == s@);
    proof {
        lemma_split_nonempty(s@);
    }
    if parts[0].unicode_len() == 0 {
        return Err(CommandError::EmptyFunctionName);
    }
    Ok(parts)
}

} // verus!
