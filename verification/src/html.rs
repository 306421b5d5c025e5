//! When a body counts as an HTML document.

use vstd::prelude::*;
use vstd::std_specs::iter::IteratorSpec;

verus! {

/// The fifteen characters `<!doctype html>` that open an HTML document.
pub open spec fn doctype() -> Seq<char> {
    seq!['<', '!', 'd', 'o', 'c', 't', 'y', 'p', 'e', ' ', 'h', 't', 'm', 'l', '>']
}

/// A body is HTML when it begins with `<!doctype html>`, character for
/// character: lower case as written, with nothing in front of it.
pub open spec fn is_html(body: Seq<char>) -> bool {
    body.len() >= 15 && body.subrange(0, 15) =~= doctype()
}

/// Tells whether `body` begins with `<!doctype html>`. Reads at most the
/// first fifteen characters of the body.
pub fn body_is_html(body: &str) -> (html: bool)
    ensures
        html == is_html(body@),
{
    let prefix = "<!doctype html>";
    proof {
        reveal_strlit("<!doctype html>");
        assert(prefix@ =~= doctype());
    }
    let mut rest = body.chars();
    let mut i: usize = 0;
    while i < 15
        invariant
            i <= 15,
            i <= body@.len(),
            prefix@ == doctype(),
            rest.obeys_prophetic_iter_laws(),
            rest.remaining() == body@.skip(i as int),
            body@.subrange(0, i as int) == doctype().subrange(0, i as int),
        decreases 15 - i,
    {
        match rest.next() {
            None => {
                return false;
            },
            Some(c) => {
                if c != prefix.get_char(i) {
                    assert(!is_html(body@)) by {
                        if body@.len() >= 15 {
                            assert(body@.subrange(0, 15)[i as int] == body@[i as int]);
                        }
                    }
                    return false;
                }
                assert forall|j: int| 0 <= j < i + 1 implies body@[j] == doctype()[j] by {
                    if j < i {
                        assert(body@.subrange(0, i as int)[j] == body@[j]);
                    }
                }
                assert(body@.subrange(0, i + 1) =~= doctype().subrange(0, i + 1));
            },
        }
        i += 1;
    }
    true
}

} // verus!
