//! Splitting text on a separator character, the shared core of line,
//! list and address parsing.

use vstd::prelude::*;
use crate::strutil::push_char;

verus! {

/// The pieces of `s` split on `sep`; always at least one (empty) piece.
pub open spec fn spec_split(s: Seq<char>, sep: char) -> Seq<Seq<char>>
    decreases s.len(),
{
    if s.len() == 0 {
        seq![Seq::<char>::empty()]
    } else if s[0] == sep {
        seq![Seq::<char>::empty()] + spec_split(s.drop_first(), sep)
    } else {
        let r = spec_split(s.drop_first(), sep);
        seq![seq![s[0]] + r[0]] + r.drop_first()
    }
}

pub proof fn lemma_split_nonempty(s: Seq<char>, sep: char)
    ensures
        spec_split(s, sep).len() > 0,
    decreases s.len(),
{
    if s.len() > 0 {
        lemma_split_nonempty(s.drop_first(), sep);
    }
}

/// Splits a string on a separator character.
pub fn split_on(s: &str, sep: char) -> (r: Vec<String>)
    ensures
        r@.map_values(|x: String| x@) == spec_split(s@, sep),
{
    let n = s.unicode_len();
    let mut acc: Vec<String> = Vec::new();
    let mut cur: String = String::new();
    let mut i: usize = 0;
    proof {
        lemma_split_nonempty(s@, sep);
        assert(s@.skip(0) =~= s@);
        assert(acc@.map_values(|x: String| x@) + seq![cur@ + spec_split(s@, sep)[0]] + spec_split(
            s@,
            sep,
        ).drop_first() =~~= spec_split(s@, sep));
    }
    while i < n
        invariant
            i <= n,
            n == s@.len(),
            spec_split(s@, sep) == acc@.map_values(|x: String| x@) + seq![
                cur@ + spec_split(s@.skip(i as int), sep)[0],
            ] + spec_split(s@.skip(i as int), sep).drop_first(),
        decreases n - i,
    {
        proof {
            lemma_split_nonempty(s@.skip(i as int), sep);
            assert(s@.skip(i as int).drop_first() =~= s@.skip(i + 1));
            lemma_split_nonempty(s@.skip(i + 1), sep);
        }
        let c = s.get_char(i);
        if c == sep {
            let done = cur;
            cur = String::new();
            acc.push(done);
            proof {
                assert(acc@.map_values(|x: String| x@) =~= acc@.drop_last().map_values(
                    |x: String| x@,
                ).push(done@));
                assert(spec_split(s@.skip(i as int), sep) == seq![Seq::<char>::empty()]
                    + spec_split(s@.skip(i + 1), sep));
                assert(done@ + spec_split(s@.skip(i as int), sep)[0] =~= done@);
                assert(cur@ + spec_split(s@.skip(i + 1), sep)[0] =~= spec_split(
                    s@.skip(i + 1),
                    sep,
                )[0]);
                assert((seq![Seq::<char>::empty()] + spec_split(s@.skip(i + 1), sep)).drop_first()
                    =~~= spec_split(s@.skip(i + 1), sep));
                assert(spec_split(s@, sep) =~~= acc@.map_values(|x: String| x@) + seq![
                    cur@ + spec_split(s@.skip(i + 1), sep)[0],
                ] + spec_split(s@.skip(i + 1), sep).drop_first());
            }
        } else {
            proof {
                assert(s@.skip(i as int)[0] == c);
                assert(spec_split(s@.skip(i as int), sep) == seq![
                    seq![c] + spec_split(s@.skip(i + 1), sep)[0],
                ] + spec_split(s@.skip(i + 1), sep).drop_first());
            }
            let ghost cur0 = cur@;
            push_char(&mut cur, c);
            proof {
                assert(cur@ + spec_split(s@.skip(i + 1), sep)[0] =~= cur0 + (seq![c] + spec_split(
                    s@.skip(i + 1),
                    sep,
                )[0]));
                assert(spec_split(s@, sep) =~~= acc@.map_values(|x: String| x@) + seq![
                    cur@ + spec_split(s@.skip(i + 1), sep)[0],
                ] + spec_split(s@.skip(i + 1), sep).drop_first());
            }
        }
        i += 1;
    }
    proof {
        assert(s@.skip(n as int) =~= Seq::<char>::empty());
        assert(cur@ + spec_split(s@.skip(n as int), sep)[0] =~= cur@);
        assert(spec_split(s@.skip(n as int), sep).drop_first() =~= Seq::<Seq<char>>::empty());
    }
    acc.push(cur);
    proof {
        assert(acc@.map_values(|x: String| x@) =~= acc@.drop_last().map_values(|x: String| x@)
            .push(cur@));
        assert(acc@.map_values(|x: String| x@) =~~= spec_split(s@, sep));
    }
    acc
}

} // verus!
