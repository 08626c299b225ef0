//! The renderer: stitches per-character glyph rows into aligned output
//! lines.
//!
//! Each supported character of the input contributes its six glyph rows,
//! each followed by a single space, to six accumulator rows; unsupported
//! characters contribute nothing and are reported back to the caller so
//! that a diagnostic can be shown for each. A seventh, empty line closes
//! the output.

use crate::glyphs::GLYPH_ROWS;
use crate::glyphs::glyph_rows;
use crate::glyphs::is_supported;
use crate::glyphs::lookup;
use crate::strutil::spec_upper;
use crate::strutil::str_to_chars;
use crate::strutil::to_upper;
use crate::strutil::upper_chars;
use crate::strutil::upper_of;
use vstd::prelude::*;
use vstd::string::*;

verus! {

/// Number of lines in every rendered output: six glyph rows and one
/// trailing blank line.
pub const OUTPUT_LINES: usize = 7;

/// The six accumulator rows after rendering `s`: each supported
/// character, in input order, appends its glyph row and one space to
/// every accumulator row; unsupported characters change nothing.
pub open spec fn rendered_rows(s: Seq<char>) -> Seq<Seq<char>>
    decreases s.len(),
{
    if s.len() == 0 {
        Seq::new(GLYPH_ROWS as nat, |i: int| Seq::<char>::empty())
    } else {
        let prev = rendered_rows(s.drop_last());
        let c = s.last();
        if is_supported(c) {
            Seq::new(GLYPH_ROWS as nat, |i: int| prev[i] + glyph_rows(c)[i] + " "@)
        } else {
            prev
        }
    }
}

/// The characters of `s` that the glyph table does not support, in
/// input order; the renderer reports one diagnostic for each.
pub open spec fn unsupported_of(s: Seq<char>) -> Seq<char> {
    s.filter(|c: char| !is_supported(c))
}

/// There are always exactly six accumulator rows.
pub proof fn lemma_rendered_rows_len(s: Seq<char>)
    ensures
        rendered_rows(s).len() == GLYPH_ROWS,
    decreases s.len(),
{
    if s.len() > 0 {
        lemma_rendered_rows_len(s.drop_last());
    }
}

proof fn lemma_unsupported_push(s: Seq<char>, c: char)
    ensures
        is_supported(c) ==> unsupported_of(s.push(c)) == unsupported_of(s),
        !is_supported(c) ==> unsupported_of(s.push(c)) == unsupported_of(s).push(c),
{
    reveal_with_fuel(Seq::filter, 2);
    assert(s.push(c).drop_last() =~= s);
    assert(s.push(c).last() == c);
}

/// The input with its unsupported characters removed: exactly the
/// characters that contribute columns to the output.
pub open spec fn supported_only(s: Seq<char>) -> Seq<char> {
    s.filter(|c: char| is_supported(c))
}

proof fn lemma_supported_only_push(s: Seq<char>, c: char)
    ensures
        is_supported(c) ==> supported_only(s.push(c)) == supported_only(s).push(c),
        !is_supported(c) ==> supported_only(s.push(c)) == supported_only(s),
{
    reveal_with_fuel(Seq::filter, 2);
    assert(s.push(c).drop_last() =~= s);
    assert(s.push(c).last() == c);
}

/// Rendering concatenates row-wise: the rows of `s1 + s2` are the rows
/// of `s1` followed by the rows of `s2`. Columns therefore appear
/// left-to-right in input order.
pub proof fn lemma_render_append(s1: Seq<char>, s2: Seq<char>)
    ensures
        forall|i: int|
            0 <= i < GLYPH_ROWS ==> #[trigger] rendered_rows(s1 + s2)[i] == rendered_rows(s1)[i]
                + rendered_rows(s2)[i],
    decreases s2.len(),
{
    lemma_rendered_rows_len(s1);
    lemma_rendered_rows_len(s2);
    lemma_rendered_rows_len(s1 + s2);
    if s2.len() == 0 {
        assert(s1 + s2 =~= s1);
        assert forall|i: int| 0 <= i < GLYPH_ROWS implies #[trigger] rendered_rows(s1 + s2)[i]
            == rendered_rows(s1)[i] + rendered_rows(s2)[i] by {
            assert(rendered_rows(s2)[i] =~= Seq::<char>::empty());
            assert(rendered_rows(s1)[i] + rendered_rows(s2)[i] =~= rendered_rows(s1)[i]);
        }
    } else {
        let t = s2.drop_last();
        let c = s2.last();
        lemma_render_append(s1, t);
        lemma_rendered_rows_len(t);
        lemma_rendered_rows_len(s1 + t);
        assert((s1 + s2).drop_last() =~= s1 + t);
        assert((s1 + s2).last() == c);
        if is_supported(c) {
            assert forall|i: int| 0 <= i < GLYPH_ROWS implies #[trigger] rendered_rows(s1 + s2)[i]
                == rendered_rows(s1)[i] + rendered_rows(s2)[i] by {
                assert(rendered_rows(s1 + s2)[i] == rendered_rows(s1 + t)[i] + glyph_rows(c)[i]
                    + " "@);
                assert(rendered_rows(s2)[i] == rendered_rows(t)[i] + glyph_rows(c)[i] + " "@);
                assert(rendered_rows(s1 + t)[i] + glyph_rows(c)[i] + " "@ =~= rendered_rows(s1)[i]
                    + (rendered_rows(t)[i] + glyph_rows(c)[i] + " "@));
            }
        } else {
            assert forall|i: int| 0 <= i < GLYPH_ROWS implies #[trigger] rendered_rows(s1 + s2)[i]
                == rendered_rows(s1)[i] + rendered_rows(s2)[i] by {
                assert(rendered_rows(s1 + s2)[i] == rendered_rows(s1 + t)[i]);
                assert(rendered_rows(s2)[i] == rendered_rows(t)[i]);
            }
        }
    }
}

/// Row `i` of the output, seen as one block per input character: the
/// character's glyph row followed by a single space.
pub open spec fn column_blocks(s: Seq<char>, i: int) -> Seq<Seq<char>> {
    Seq::new(s.len(), |j: int| glyph_rows(s[j])[i] + " "@)
}

/// For a fully supported input, each output row is exactly the
/// concatenation of one column block per input character, in input
/// order: `s.len()` columns, each closed by a single space.
pub proof fn lemma_render_columns(s: Seq<char>, i: int)
    requires
        0 <= i < GLYPH_ROWS,
        forall|j: int| 0 <= j < s.len() ==> is_supported(#[trigger] s[j]),
    ensures
        rendered_rows(s)[i] == column_blocks(s, i).flatten(),
    decreases s.len(),
{
    column_blocks(s, i).lemma_flatten_and_flatten_alt_are_equivalent();
    if s.len() == 0 {
        assert(rendered_rows(s)[i] =~= Seq::<char>::empty());
        assert(column_blocks(s, i).len() == 0);
    } else {
        let t = s.drop_last();
        let c = s.last();
        lemma_render_columns(t, i);
        lemma_rendered_rows_len(t);
        column_blocks(t, i).lemma_flatten_and_flatten_alt_are_equivalent();
        assert(column_blocks(s, i).drop_last() =~= column_blocks(t, i));
        assert(column_blocks(s, i).last() == glyph_rows(c)[i] + " "@);
        assert(column_blocks(s, i).flatten_alt() == column_blocks(t, i).flatten_alt() + (
        glyph_rows(c)[i] + " "@));
        assert(rendered_rows(s)[i] == rendered_rows(t)[i] + glyph_rows(c)[i] + " "@);
        assert(rendered_rows(t)[i] + glyph_rows(c)[i] + " "@ =~= rendered_rows(t)[i] + (
        glyph_rows(c)[i] + " "@));
    }
}

/// Order matters: two supported characters whose glyph rows differ at
/// some shared position render differently in the two orders.
pub proof fn lemma_order_matters(a: char, b: char, i: int, j: int)
    requires
        is_supported(a),
        is_supported(b),
        0 <= i < GLYPH_ROWS,
        0 <= j < glyph_rows(a)[i].len(),
        0 <= j < glyph_rows(b)[i].len(),
        glyph_rows(a)[i][j] != glyph_rows(b)[i][j],
    ensures
        rendered_rows(seq![a, b]) != rendered_rows(seq![b, a]),
{
    let ab = seq![a, b];
    let ba = seq![b, a];
    assert(ab.drop_last() =~= seq![a]);
    assert(ba.drop_last() =~= seq![b]);
    assert(seq![a].drop_last() =~= Seq::<char>::empty());
    assert(seq![b].drop_last() =~= Seq::<char>::empty());
    lemma_rendered_rows_len(seq![a]);
    lemma_rendered_rows_len(seq![b]);
    assert(rendered_rows(Seq::<char>::empty())[i] =~= Seq::<char>::empty());
    assert(rendered_rows(seq![a])[i] == Seq::<char>::empty() + glyph_rows(a)[i] + " "@);
    assert(rendered_rows(seq![b])[i] == Seq::<char>::empty() + glyph_rows(b)[i] + " "@);
    assert(rendered_rows(ab)[i][j] == glyph_rows(a)[i][j]);
    assert(rendered_rows(ba)[i][j] == glyph_rows(b)[i][j]);
    assert(rendered_rows(ab)[i] != rendered_rows(ba)[i]);
}

/// Unsupported characters are dropped from the visual output: an input
/// renders to the same rows as the input with its unsupported
/// characters removed.
pub proof fn lemma_unsupported_dropped(s: Seq<char>)
    ensures
        rendered_rows(s) == rendered_rows(supported_only(s)),
    decreases s.len(),
{
    if s.len() == 0 {
        reveal_with_fuel(Seq::filter, 1);
        assert(supported_only(s) == s);
    } else {
        let t = s.drop_last();
        let c = s.last();
        lemma_unsupported_dropped(t);
        lemma_rendered_rows_len(t);
        lemma_rendered_rows_len(supported_only(t));
        assert(t.push(c) =~= s);
        lemma_supported_only_push(t, c);
        if is_supported(c) {
            let u = supported_only(t).push(c);
            assert(u.drop_last() =~= supported_only(t));
            assert(u.last() == c);
            assert(u.len() > 0);
            assert(rendered_rows(s) =~= rendered_rows(u));
        } else {
            assert(supported_only(s) == supported_only(t));
        }
    }
}

/// Case normalization: rendering after uppercasing gives the same
/// output whether or not the input was already uppercased.
pub proof fn lemma_case_normalization(s: Seq<char>)
    ensures
        rendered_rows(spec_upper(spec_upper(s))) == rendered_rows(spec_upper(s)),
        unsupported_of(spec_upper(spec_upper(s))) == unsupported_of(spec_upper(s)),
{
    crate::strutil::lemma_upper_idempotent(s);
}

/// A rendered banner: seven output lines (six glyph rows and one
/// trailing blank line) and the characters that were skipped.
pub struct Rendered {
    pub lines: Vec<String>,
    pub unsupported: Vec<char>,
}

impl Rendered {
    /// What the renderer promises of its result for input `s`.
    pub open spec fn is_render_of(self, s: Seq<char>) -> bool {
        &&& self.lines@.len() == OUTPUT_LINES
        &&& forall|i: int| 0 <= i < GLYPH_ROWS ==> self.lines@[i]@ == rendered_rows(s)[i]
        &&& self.lines@[GLYPH_ROWS as int]@ == Seq::<char>::empty()
        &&& self.unsupported@ == unsupported_of(s)
    }
}

/// Render a sequence of characters into seven aligned output lines.
pub fn render_chars(input: &Vec<char>) -> (r: Rendered)
    ensures
        r.is_render_of(input@),
{
    let n = input.len();
    let mut row0 = String::new();
    let mut row1 = String::new();
    let mut row2 = String::new();
    let mut row3 = String::new();
    let mut row4 = String::new();
    let mut row5 = String::new();
    let mut unsupported: Vec<char> = Vec::new();
    let mut i: usize = 0;
    while i < n
        invariant
            n == input@.len(),
            i <= n,
            row0@ == rendered_rows(input@.subrange(0, i as int))[0],
            row1@ == rendered_rows(input@.subrange(0, i as int))[1],
            row2@ == rendered_rows(input@.subrange(0, i as int))[2],
            row3@ == rendered_rows(input@.subrange(0, i as int))[3],
            row4@ == rendered_rows(input@.subrange(0, i as int))[4],
            row5@ == rendered_rows(input@.subrange(0, i as int))[5],
            unsupported@ == unsupported_of(input@.subrange(0, i as int)),
        decreases n - i,
    {
        let c = input[i];
        proof {
            assert(input@.subrange(0, i + 1).drop_last() =~= input@.subrange(0, i as int));
            assert(input@.subrange(0, i + 1).last() == c);
            assert(input@.subrange(0, i + 1) =~= input@.subrange(0, i as int).push(c));
            lemma_unsupported_push(input@.subrange(0, i as int), c);
            lemma_rendered_rows_len(input@.subrange(0, i as int));
        }
        match lookup(c) {
            Some(g) => {
                row0.append(g[0]);
                row0.append(" ");
                row1.append(g[1]);
                row1.append(" ");
                row2.append(g[2]);
                row2.append(" ");
                row3.append(g[3]);
                row3.append(" ");
                row4.append(g[4]);
                row4.append(" ");
                row5.append(g[5]);
                row5.append(" ");
            },
            None => {
                unsupported.push(c);
            },
        }
        i += 1;
    }
    proof {
        assert(input@.subrange(0, n as int) =~= input@);
    }
    let lines: Vec<String> = vec![row0, row1, row2, row3, row4, row5, String::new()];
    Rendered { lines, unsupported }
}

/// Render an input string into seven aligned output lines.
pub fn render(input: &str) -> (r: Rendered)
    ensures
        r.is_render_of(input@),
{
    let chars = str_to_chars(input);
    render_chars(&chars)
}

/// Uppercase the input, then render it: the whole pipeline that a
/// caller runs for case-insensitive banners. An all-ASCII input goes
/// through the verified case map `spec_upper`; any other input is
/// uppercased by std's Unicode mapping, named `upper_of`.
pub fn render_normalized(input: &str) -> (r: Rendered)
    ensures
        is_ascii(input) ==> r.is_render_of(spec_upper(input@)),
        !is_ascii(input) ==> r.is_render_of(upper_of(input@)),
{
    if input.is_ascii() {
        let chars = str_to_chars(input);
        let upper = upper_chars(&chars);
        render_chars(&upper)
    } else {
        let upper = to_upper(input);
        render(upper.as_str())
    }
}

} // verus!
