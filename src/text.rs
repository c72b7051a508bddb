use vstd::prelude::*;

verus! {

/// Width, in columns, that replies are wrapped to.
pub const REPLY_WIDTH: usize = 80;

/// The lines that `text` wraps into at `width` columns.
pub uninterp spec fn wrapped_lines(text: Seq<char>, width: nat) -> Seq<Seq<char>>;

/// The lines put end to end, with a line feed between two lines.
pub open spec fn joined(lines: Seq<Seq<char>>) -> Seq<char>
    decreases lines.len(),
{
    if lines.len() == 0 {
        Seq::empty()
    } else if lines.len() == 1 {
        lines[0]
    } else {
        joined(lines.drop_last()) + seq!['\n'] + lines.last()
    }
}

/// Relies on textwrap::wrap: the lines of `text` wrapped at `width`
/// columns, which depend on the text and the width alone.
#[verifier::external_body]
fn wrap_text(text: &str, width: usize) -> (r: Vec<String>)
    ensures
        r@.map_values(|l: String| l@) == wrapped_lines(text@, width as nat),
{
    textwrap::wrap(text, width).into_iter().map(|l| l.into_owned()).collect()
}

/// Puts the lines end to end, with a line feed between two lines.
pub fn join_lines(lines: &Vec<String>) -> (r: String)
    ensures
        r@ == joined(lines@.map_values(|l: String| l@)),
{
    proof {
        reveal_strlit("\n");
    }
    let ghost all = lines@.map_values(|l: String| l@);
    let mut r: String = String::new();
    let n: usize = lines.len();
    let mut i: usize = 0;
    while i < n
        invariant
            n == lines@.len(),
            all == lines@.map_values(|l: String| l@),
            i <= n,
            r@ == joined(all.subrange(0, i as int)),
        decreases n - i,
    {
        proof {
            reveal_strlit("\n");
        }
        assert(all.subrange(0, i + 1).drop_last() =~= all.subrange(0, i as int));
        assert(all.subrange(0, i + 1).last() == lines@[i as int]@);
        if i > 0 {
            r.append("\n");
            r.append(lines[i].as_str());
            let ghost s = all.subrange(0, i + 1);
            assert(s.len() >= 2);
            assert(joined(s) == joined(s.drop_last()) + seq!['\n'] + s.last());
            assert("\n"@ =~= seq!['\n']);
            assert(r@ =~= joined(all.subrange(0, i + 1)));
        } else {
            r.append(lines[i].as_str());
            assert(all.subrange(0, 1)[0] == lines@[0]@);
            assert(r@ =~= joined(all.subrange(0, 1)));
        }
        i = i + 1;
    }
    assert(all.subrange(0, n as int) =~= all);
    r
}

/// A reply laid out for the terminal: wrapped at `REPLY_WIDTH` columns, one
/// line of output per wrapped line.
pub fn format_reply(text: &str) -> (r: String)
    ensures
        r@ == joined(wrapped_lines(text@, REPLY_WIDTH as nat)),
{
    let lines = wrap_text(text, REPLY_WIDTH);
    join_lines(&lines)
}

} // verus!
