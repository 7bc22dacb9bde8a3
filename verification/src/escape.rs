//! Escaping of reserved markup characters in text content and attribute
//! values; all other characters pass through verbatim.

use vstd::prelude::*;

verus! {

/// The escaped form of one character.
pub open spec fn escape_char(c: char) -> Seq<char> {
    if c == '&' {
        "&amp;"@
    } else if c == '<' {
        "&lt;"@
    } else if c == '>' {
        "&gt;"@
    } else if c == '\'' {
        "&apos;"@
    } else if c == '"' {
        "&quot;"@
    } else {
        seq![c]
    }
}

/// The escaped form of a text: each character replaced by its escaped form.
pub open spec fn escape_of(s: Seq<char>) -> Seq<char>
    decreases s.len(),
{
    if s.len() == 0 {
        Seq::empty()
    } else {
        escape_char(s[0]) + escape_of(s.skip(1))
    }
}

proof fn lemma_escape_snoc(s: Seq<char>, c: char)
    ensures
        escape_of(s.push(c)) == escape_of(s) + escape_char(c),
    decreases s.len(),
{
    if s.len() == 0 {
        assert(s.push(c)[0] == c);
        assert(s.push(c).skip(1) =~= Seq::<char>::empty());
        assert(escape_of(s.push(c)) == escape_char(c) + escape_of(Seq::<char>::empty()));
        assert(escape_of(Seq::<char>::empty()) == Seq::<char>::empty());
        assert(escape_of(s.push(c)) =~= escape_of(s) + escape_char(c));
    } else {
        assert(s.push(c)[0] == s[0]);
        assert(s.push(c).skip(1) =~= s.skip(1).push(c));
        assert(escape_of(s.push(c)) == escape_char(s[0]) + escape_of(s.skip(1).push(c)));
        lemma_escape_snoc(s.skip(1), c);
        assert(escape_of(s) == escape_char(s[0]) + escape_of(s.skip(1)));
        assert(escape_of(s.push(c)) =~= escape_of(s) + escape_char(c));
    }
}

/// Relies on `String::push`: appends exactly the given character.
#[verifier::external_body]
fn push_char(out: &mut String, c: char)
    ensures
        final(out)@ == old(out)@ + seq![c],
{
    out.push(c);
}

/// Appends the escaped form of `s`.
pub fn push_escaped(out: &mut String, s: &str)
    ensures
        final(out)@ == old(out)@ + escape_of(s@),
{
    let n = s.unicode_len();
    let mut i: usize = 0;
    while i < n
        invariant
            n == s@.len(),
            i <= n,
            out@ == old(out)@ + escape_of(s@.take(i as int)),
        decreases n - i,
    {
        let c = s.get_char(i);
        if c == '&' {
            out.append("&amp;");
        } else if c == '<' {
            out.append("&lt;");
        } else if c == '>' {
            out.append("&gt;");
        } else if c == '\'' {
            out.append("&apos;");
        } else if c == '"' {
            out.append("&quot;");
        } else {
            push_char(out, c);
        }
        proof {
            assert(s@.take(i + 1) =~= s@.take(i as int).push(s@[i as int]));
            lemma_escape_snoc(s@.take(i as int), s@[i as int]);
            assert(out@ =~= old(out)@ + escape_of(s@.take(i + 1)));
        }
        i = i + 1;
    }
    proof {
        assert(s@.take(n as int) =~= s@);
    }
}

/// The escaped form of `s` as a fresh string.
pub fn escape(s: &str) -> (r: String)
    ensures
        r@ == escape_of(s@),
{
    let mut out = String::new();
    push_escaped(&mut out, s);
    proof {
        assert(out@ =~= escape_of(s@));
    }
    out
}

} // verus!
