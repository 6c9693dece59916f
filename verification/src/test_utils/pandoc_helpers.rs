//! Reading the text of Pandoc inlines, for tests and examples.
use crate::pandoc::{inlines_view, Inline, SInline};
use crate::strings::{chars_of, spec_trim, string_from_chars, trim_chars};
use vstd::prelude::*;

verus! {

/// The words and spaces of the inlines: each `Str`'s text and a space for
/// each `Space`; other inlines give nothing.
pub open spec fn words_and_spaces(s: Seq<SInline>) -> Seq<char>
    decreases s.len(),
{
    if s.len() == 0 {
        Seq::empty()
    } else {
        words_and_spaces(s.drop_last()) + match s.last() {
            SInline::Str(t) => t,
            SInline::Space => seq![' '],
            _ => Seq::empty(),
        }
    }
}

/// The text of the inlines: their words and spaces, without white space at
/// either end.
pub fn extract_text_from_inlines(inlines: &[Inline]) -> (r: String)
    ensures
        r@ == spec_trim(words_and_spaces(inlines_view(inlines@))),
{
    let ghost all = inlines_view(inlines@);
    proof {
        crate::pandoc::lemma_inlines_view(inlines@);
    }
    let mut text: Vec<char> = Vec::new();
    let mut i: usize = 0;
    while i < inlines.len()
        invariant
            i <= inlines@.len(),
            all == inlines_view(inlines@),
            all.len() == inlines@.len(),
            forall|j: int| 0 <= j < inlines@.len() ==> #[trigger] all[j] == inlines@[j]@,
            text@ == words_and_spaces(all.take(i as int)),
        decreases inlines@.len() - i,
    {
        proof {
            assert(all.take(i + 1).drop_last() =~= all.take(i as int));
            assert(all.take(i + 1).last() == inlines@[i as int]@);
        }
        match &inlines[i] {
            Inline::Str(s) => {
                let mut cs = chars_of(s.as_str());
                text.append(&mut cs);
            },
            Inline::Space => {
                text.push(' ');
                assert(text@ =~= words_and_spaces(all.take(i as int)) + seq![' ']);
            },
            _ => {
                assert(text@ =~= words_and_spaces(all.take(i as int)) + Seq::empty());
            },
        }
        i = i + 1;
    }
    proof {
        assert(all.take(i as int) =~= all);
    }
    let trimmed = trim_chars(&text);
    string_from_chars(&trimmed)
}

} // verus!
