//! HTML entity escaping of untrusted text.

use vstd::prelude::*;

verus! {

/// What one character becomes: the five characters that HTML gives a meaning
/// become their entities, every other character stands for itself.
pub open spec fn escaped_char(c: char) -> Seq<char> {
    if c == '&' {
        seq!['&', 'a', 'm', 'p', ';']
    } else if c == '<' {
        seq!['&', 'l', 't', ';']
    } else if c == '>' {
        seq!['&', 'g', 't', ';']
    } else if c == '"' {
        seq!['&', 'q', 'u', 'o', 't', ';']
    } else if c == '\'' {
        seq!['&', '#', '3', '9', ';']
    } else {
        seq![c]
    }
}

/// The escaped form of a text: the escaped forms of its characters, in order.
pub open spec fn escaped(s: Seq<char>) -> Seq<char>
    decreases s.len(),
{
    if s.len() == 0 {
        Seq::empty()
    } else {
        escaped(s.drop_last()) + escaped_char(s.last())
    }
}

/// Escapes `&`, `<`, `>`, `"` and `'` so that the text can stand in an HTML
/// document as inert character data.
pub fn html_escape(s: &str) -> (out: String)
    ensures
        out@ == escaped(s@),
{
    let mut out = String::new();
    for c in it: s.chars()
        invariant
            it.seq() == s@,
            out@ == escaped(s@.take(it.index() as int)),
    {
        proof {
            let k = it.index() as int;
            assert(s@.take(k + 1).drop_last() =~= s@.take(k));
            assert(s@.take(k + 1).last() == c);
        }
        if c == '&' {
            proof { reveal_strlit("&amp;"); }
            out.append("&amp;");
        } else if c == '<' {
            proof { reveal_strlit("&lt;"); }
            out.append("&lt;");
        } else if c == '>' {
            proof { reveal_strlit("&gt;"); }
            out.append("&gt;");
        } else if c == '"' {
            proof { reveal_strlit("&quot;"); }
            out.append("&quot;");
        } else if c == '\'' {
            proof { reveal_strlit("&#39;"); }
            out.append("&#39;");
        } else {
            out.push(c);
        }
    }
    proof {
        assert(s@.take(s@.len() as int) =~= s@);
    }
    out
}

/// Escaping a text piece by piece gives the same as escaping it whole.
pub proof fn law_escaped_concat(a: Seq<char>, b: Seq<char>)
    ensures
        escaped(a + b) == escaped(a) + escaped(b),
    decreases b.len(),
{
    if b.len() == 0 {
        assert(a + b =~= a);
        assert(escaped(a) + escaped(b) =~= escaped(a));
    } else {
        law_escaped_concat(a, b.drop_last());
        assert((a + b).drop_last() =~= a + b.drop_last());
        assert((a + b).last() == b.last());
        assert(escaped(a + b) =~= escaped(a) + escaped(b));
    }
}

/// An escaped text holds no `<`, `>`, `"` or `'`: nothing in it can open or
/// close a tag or an attribute value.
pub proof fn law_escaped_is_inert(s: Seq<char>)
    ensures
        forall|i: int|
            0 <= i < escaped(s).len() ==> {
                let c = #[trigger] escaped(s)[i];
                c != '<' && c != '>' && c != '"' && c != '\''
            },
    decreases s.len(),
{
    if s.len() > 0 {
        let front = escaped(s.drop_last());
        let piece = escaped_char(s.last());
        law_escaped_is_inert(s.drop_last());
        assert forall|i: int| 0 <= i < escaped(s).len() implies {
            let c = #[trigger] escaped(s)[i];
            c != '<' && c != '>' && c != '"' && c != '\''
        } by {
            if i < front.len() {
                assert(escaped(s)[i] == front[i]);
            } else {
                assert(escaped(s)[i] == piece[i - front.len()]);
            }
        }
    }
}

/// A text without any of the five characters is left as it is.
pub proof fn law_escaped_plain(s: Seq<char>)
    requires
        forall|i: int|
            0 <= i < s.len() ==> {
                let c = #[trigger] s[i];
                c != '&' && c != '<' && c != '>' && c != '"' && c != '\''
            },
    ensures
        escaped(s) == s,
    decreases s.len(),
{
    if s.len() > 0 {
        let front = s.drop_last();
        assert forall|i: int| 0 <= i < front.len() implies {
            let c = #[trigger] front[i];
            c != '&' && c != '<' && c != '>' && c != '"' && c != '\''
        } by {
            assert(front[i] == s[i]);
        }
        law_escaped_plain(front);
        assert(s.last() == s[s.len() - 1]);
        assert(escaped(s) =~= s);
    } else {
        assert(escaped(s) =~= s);
    }
}

/// Escaping never shortens a text, and makes it at most six times as long.
pub proof fn law_escaped_len(s: Seq<char>)
    ensures
        s.len() <= escaped(s).len() <= 6 * s.len(),
    decreases s.len(),
{
    if s.len() > 0 {
        law_escaped_len(s.drop_last());
    }
}

/// What a reader of HTML makes of an escaped text: each of the five entities
/// stands for its character, every other character for itself.
pub open spec fn unescaped(t: Seq<char>) -> Seq<char>
    decreases t.len(),
{
    if t.len() == 0 {
        Seq::empty()
    } else if escaped_char('&').is_prefix_of(t) {
        seq!['&'] + unescaped(t.skip(5))
    } else if escaped_char('<').is_prefix_of(t) {
        seq!['<'] + unescaped(t.skip(4))
    } else if escaped_char('>').is_prefix_of(t) {
        seq!['>'] + unescaped(t.skip(4))
    } else if escaped_char('"').is_prefix_of(t) {
        seq!['"'] + unescaped(t.skip(6))
    } else if escaped_char('\'').is_prefix_of(t) {
        seq!['\''] + unescaped(t.skip(5))
    } else {
        seq![t[0]] + unescaped(t.skip(1))
    }
}

/// Escaping loses nothing: reading the entities back gives the text that was
/// escaped, so what the page shows, and what its copy button copies, is the
/// token itself.
pub proof fn law_escaped_round_trip(s: Seq<char>)
    ensures
        unescaped(escaped(s)) == s,
    decreases s.len(),
{
    if s.len() == 0 {
        assert(unescaped(escaped(s)) =~= s);
    } else {
        let c = s[0];
        let rest = s.drop_first();
        let piece = escaped_char(c);
        let t = escaped(s);
        assert(s =~= seq![c] + rest);
        law_escaped_concat(seq![c], rest);
        assert(escaped(seq![c]) =~= piece) by {
            assert(seq![c].drop_last() =~= Seq::<char>::empty());
            assert(escaped(Seq::<char>::empty()) =~= Seq::<char>::empty());
            assert(seq![c].last() == c);
        }
        assert(t == piece + escaped(rest));
        law_escaped_round_trip(rest);
        assert(piece.is_prefix_of(t));
        assert(t.skip(piece.len() as int) =~= escaped(rest));
        // The five entities differ in their second character, and only they
        // begin with `&`: the one that was written is the one read back.
        assert(t[0] == piece[0]);
        if piece.len() > 1 {
            assert(t[1] == piece[1]);
        }
        assert forall|other: char| #[trigger] escaped_char(other).is_prefix_of(t) && (other == '&'
            || other == '<' || other == '>' || other == '"' || other == '\'') implies other
            == c by {
            let entity = escaped_char(other);
            assert(t.subrange(0, entity.len() as int)[0] == t[0]);
            assert(t.subrange(0, entity.len() as int)[1] == t[1]);
            assert(entity[0] == t[0]);
            assert(entity[1] == t[1]);
        }
        assert(unescaped(t) =~= seq![c] + rest);
    }
}

} // verus!
