//! Text wrapping for table cells: a line break after every `n` characters.

use vstd::prelude::*;

verus! {

/// `s` with `'\n'` inserted after every `n`-th character.  A trailing break
/// appears when the length is a multiple of `n`.
pub open spec fn spec_broken_lines(s: Seq<char>, n: nat) -> Seq<char>
    recommends
        n >= 1,
    decreases s.len(),
{
    if s.len() == 0 {
        Seq::empty()
    } else {
        let prefix = spec_broken_lines(s.drop_last(), n) + seq![s.last()];
        if s.len() % n == 0 {
            prefix + seq!['\n']
        } else {
            prefix
        }
    }
}

/// Break `s` into lines of `n` characters each.
pub fn break_line_every_n_chars(s: &Vec<char>, n: usize) -> (r: Vec<char>)
    requires
        n >= 1,
    ensures
        r@ == spec_broken_lines(s@, n as nat),
{
    let mut r: Vec<char> = Vec::new();
    let mut i: usize = 0;
    while i < s.len()
        invariant
            n >= 1,
            i <= s.len(),
            r@ == spec_broken_lines(s@.take(i as int), n as nat),
        decreases s.len() - i,
    {
        r.push(s[i]);
        if (i + 1) % n == 0 {
            r.push('\n');
        }
        i = i + 1;
        proof {
            let taken = s@.take(i as int);
            assert(taken.drop_last() =~= s@.take(i as int - 1));
            assert(taken.last() == s@[i as int - 1]);
        }
    }
    proof {
        assert(s@.take(s.len() as int) =~= s@);
    }
    r
}

} // verus!
