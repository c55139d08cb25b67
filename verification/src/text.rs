use vstd::prelude::*;

verus! {

/// A text as the ledger holds it: a string of bytes, which need not be UTF-8.
pub type Text = Vec<u8>;

/// A list of texts as mathematical values.
pub open spec fn texts_view(texts: Seq<Text>) -> Seq<Seq<u8>> {
    texts.map_values(|text: Text| text@)
}

/// Whether two texts hold the same bytes.
pub fn text_eq(a: &Text, b: &Text) -> (same: bool)
    ensures
        same == (a@ == b@),
{
    let same = *a == *b;
    proof {
        if same {
            assert(a@ =~= b@);
        }
    }
    same
}

} // verus!
