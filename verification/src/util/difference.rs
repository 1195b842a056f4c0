//! The first line at which a rewrite of a text differs from the original.

use vstd::prelude::*;
use crate::text::string_from_chars;

verus! {

/// The next line of `s` as `read_line` reads it (through the first `\n`, or what is left), and
/// what comes after it.
pub open spec fn next_line(s: Seq<char>) -> (Seq<char>, Seq<char>)
    decreases s.len(),
{
    if s.len() == 0 {
        (Seq::empty(), Seq::empty())
    } else if s[0] == '\n' {
        (seq!['\n'], s.skip(1))
    } else {
        let (line, rest) = next_line(s.skip(1));
        (seq![s[0]] + line, rest)
    }
}

/// `s` without its trailing `\r`s and `\n`s.
pub open spec fn strip_eol(s: Seq<char>) -> Seq<char>
    decreases s.len(),
{
    if s.len() > 0 && (s.last() == '\r' || s.last() == '\n') {
        strip_eol(s.drop_last())
    } else {
        s
    }
}

/// Reads lines from both texts in step, each into a buffer that is never cleared (so each buffer
/// holds every line read so far, trailing end-of-line characters dropped after each read), and
/// stops at the first line after which the buffers differ: its number and the two buffers.  `None`
/// when both texts end with the buffers equal.
pub open spec fn difference_from(a: Seq<char>, b: Seq<char>, abuf: Seq<char>, bbuf: Seq<char>, line_no: int) -> Option<(int, Seq<char>, Seq<char>)>
    decreases a.len() + b.len(),
{
    let (la, ra) = next_line(a);
    let (lb, rb) = next_line(b);
    let abuf2 = strip_eol(abuf + la);
    let bbuf2 = strip_eol(bbuf + lb);
    if a.len() == 0 && b.len() == 0 {
        None
    } else if abuf2 != bbuf2 {
        Some((line_no + 1, abuf2, bbuf2))
    } else {
        proof { lemma_next_line(a); lemma_next_line(b); }
        difference_from(ra, rb, abuf2, bbuf2, line_no + 1)
    }
}

/// How many lines `read_line` reads from `s` before it is used up.
pub open spec fn line_count(s: Seq<char>) -> nat
    decreases s.len(),
{
    if s.len() == 0 {
        0
    } else {
        proof { lemma_next_line(s); }
        1 + line_count(next_line(s).1)
    }
}

/// The larger of two counts.
pub open spec fn max_count(a: nat, b: nat) -> nat {
    if a < b { b } else { a }
}

/// A line is a nonempty prefix of a nonempty text.
pub proof fn lemma_next_line(s: Seq<char>)
    ensures
        next_line(s).0 + next_line(s).1 == s,
        s.len() > 0 ==> next_line(s).0.len() > 0,
    decreases s.len(),
{
    if s.len() > 0 && s[0] != '\n' {
        lemma_next_line(s.skip(1));
        let (l, r) = next_line(s.skip(1));
        assert(seq![s[0]] + s.skip(1) =~= s);
        assert((seq![s[0]] + l) + r =~= seq![s[0]] + (l + r));
    } else if s.len() > 0 {
        assert(seq!['\n'] + s.skip(1) =~= s);
    }
}

/// The first line at which two texts differ.
pub struct Difference {
    pub line_no: u32,
    pub original: String,
    pub rewrite: String,
}

/// Reads the next line of `text` from `pos` onto `buffer`, then drops the trailing end-of-line
/// characters of `buffer`; gives the position after the line.
fn read_line_no_eol(text: &Vec<char>, pos: usize, buffer: &mut Vec<char>) -> (next: usize)
    requires
        pos <= text@.len(),
    ensures
        pos <= next <= text@.len(),
        next_line(text@.skip(pos as int)).0 == text@.subrange(pos as int, next as int),
        next_line(text@.skip(pos as int)).1 == text@.skip(next as int),
        final(buffer)@ == strip_eol(old(buffer)@ + text@.subrange(pos as int, next as int)),
{
    let mut i = pos;
    while i < text.len() && text[i] != '\n'
        invariant
            pos <= i <= text@.len(),
            next_line(text@.skip(pos as int)) == ({
                let (l, r) = next_line(text@.skip(i as int));
                (text@.subrange(pos as int, i as int) + l, r)
            }),
        decreases text@.len() - i,
    {
        proof {
            let t = text@.skip(i as int);
            assert(t.skip(1) =~= text@.skip(i + 1));
            assert(text@.subrange(pos as int, i as int) + seq![t[0]] =~= text@.subrange(pos as int, i + 1));
            assert((text@.subrange(pos as int, i as int) + seq![t[0]]) + next_line(t.skip(1)).0
                =~= text@.subrange(pos as int, i as int) + (seq![t[0]] + next_line(t.skip(1)).0));
        }
        i = i + 1;
    }
    if i < text.len() {
        proof {
            let t = text@.skip(i as int);
            assert(t[0] == '\n');
            assert(text@.subrange(pos as int, i as int) + seq!['\n'] =~= text@.subrange(pos as int, i + 1));
            assert(t.skip(1) =~= text@.skip(i + 1));
        }
        i = i + 1;
    } else {
        proof {
            assert(text@.skip(i as int) =~= Seq::<char>::empty());
            assert(text@.subrange(pos as int, i as int) + Seq::<char>::empty() =~= text@.subrange(pos as int, i as int));
        }
    }
    let ghost joined = old(buffer)@ + text@.subrange(pos as int, i as int);
    let mut k = pos;
    while k < i
        invariant
            pos <= k <= i <= text@.len(),
            buffer@ == old(buffer)@ + text@.subrange(pos as int, k as int),
        decreases i - k,
    {
        buffer.push(text[k]);
        k = k + 1;
        assert(buffer@ =~= old(buffer)@ + text@.subrange(pos as int, k as int));
    }
    while buffer.len() > 0 && (buffer[buffer.len() - 1] == '\r' || buffer[buffer.len() - 1] == '\n')
        invariant
            strip_eol(buffer@) == strip_eol(joined),
        decreases buffer@.len(),
    {
        buffer.pop();
    }
    i
}

impl Difference {
    /// The first line at which `rewrite` differs from `original`, comparing what has been read
    /// of each so far (see `difference_from`).
    pub fn find(original: &str, rewrite: &str) -> (r: Option<Difference>)
        requires
            line_count(original@) < 0xFFFF_FFFF,
            line_count(rewrite@) < 0xFFFF_FFFF,
        ensures
            match difference_from(original@, rewrite@, Seq::empty(), Seq::empty(), 0) {
                Some((n, a, b)) => r is Some && r->Some_0.line_no == n && r->Some_0.original@ == a
                    && r->Some_0.rewrite@ == b,
                None => r is None,
            },
    {
        let a = crate::text::chars_of(original);
        let b = crate::text::chars_of(rewrite);
        let mut original_line: Vec<char> = Vec::new();
        let mut rewrite_line: Vec<char> = Vec::new();
        let mut pa: usize = 0;
        let mut pb: usize = 0;
        let mut line_no: u32 = 0;
        proof {
            assert(a@.skip(0) =~= a@);
            assert(b@.skip(0) =~= b@);
        }
        loop
            invariant
                a@ == original@,
                b@ == rewrite@,
                pa <= a@.len(),
                pb <= b@.len(),
                line_no + max_count(line_count(a@.skip(pa as int)), line_count(b@.skip(pb as int)))
                    == max_count(line_count(a@), line_count(b@)),
                difference_from(original@, rewrite@, Seq::empty(), Seq::empty(), 0)
                    == difference_from(a@.skip(pa as int), b@.skip(pb as int), original_line@, rewrite_line@, line_no as int),
                line_count(a@) < 0xFFFF_FFFF,
                line_count(b@) < 0xFFFF_FFFF,
            decreases a@.len() - pa + b@.len() - pb,
        {
            let ghost sa = a@.skip(pa as int);
            let ghost sb = b@.skip(pb as int);
            if pa == a.len() && pb == b.len() {
                assert(sa.len() == 0 && sb.len() == 0);
                return None;
            }
            proof {
                lemma_next_line(sa);
                lemma_next_line(sb);
                assert(sa.len() > 0 ==> line_count(sa) == 1 + line_count(next_line(sa).1));
                assert(sb.len() > 0 ==> line_count(sb) == 1 + line_count(next_line(sb).1));
                assert(sa.len() == 0 ==> next_line(sa).1 =~= sa);
                assert(sb.len() == 0 ==> next_line(sb).1 =~= sb);
            }
            line_no = line_no + 1;
            pa = read_line_no_eol(&a, pa, &mut original_line);
            pb = read_line_no_eol(&b, pb, &mut rewrite_line);
            if !crate::text::chars_eq(original_line.as_slice(), rewrite_line.as_slice()) {
                return Some(Difference {
                    line_no,
                    original: string_from_chars(original_line.as_slice()),
                    rewrite: string_from_chars(rewrite_line.as_slice()),
                });
            }
        }
    }
}


/// A text has no difference from itself.
pub proof fn law_no_difference_from_itself(a: Seq<char>, buf: Seq<char>, line_no: int)
    ensures
        difference_from(a, a, buf, buf, line_no) is None,
    decreases a.len(),
{
    if a.len() > 0 {
        lemma_next_line(a);
        let (l, r) = next_line(a);
        law_no_difference_from_itself(r, strip_eol(buf + l), line_no + 1);
    }
}

} // verus!
