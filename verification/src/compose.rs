//! Composes one self-contained HTML document out of an ordered sequence of
//! (display label, image markup) pairs: a header carrying the title and the
//! built-in stylesheet, one visual block per record in input order, and a
//! closing footer. Composition is deterministic: no timestamps, no
//! randomness.

use vstd::prelude::*;
use vstd::string::StringExecFns;

verus! {

/// The fixed, built-in stylesheet payload inserted verbatim into every
/// generated document's header.
pub open spec fn css_text() -> Seq<char> {
    "figure{display:inline-block;margin:8px;text-align:center}figcaption{font-family:sans-serif;font-size:14px;margin-bottom:4px}"@
}

/// The built-in stylesheet; a compile-time constant, not configurable at
/// runtime.
pub fn default_style() -> (r: &'static str)
    ensures
        r@ == css_text(),
{
    "figure{display:inline-block;margin:8px;text-align:center}figcaption{font-family:sans-serif;font-size:14px;margin-bottom:4px}"
}

/// The document header: root element with the language tag inserted
/// verbatim, the title, and the embedded stylesheet.
pub open spec fn header_markup(title: Seq<char>, lang: Seq<char>) -> Seq<char> {
    "<html lang=\""@ + lang + "\"><head><meta charset=\"utf-8\"><title>"@ + title
        + "</title><style>\n"@ + css_text() + "\n</style></head>\n<body>\n"@
}

/// One record's visual block: the display label as a caption, then the
/// record's image markup.
pub open spec fn block_markup(label: Seq<char>, image: Seq<char>) -> Seq<char> {
    "<div><figure><figcaption>"@ + label + "</figcaption>\n"@ + image + "\n</figure></div>\n"@
}

/// The document footer closing the document.
pub open spec fn footer_markup() -> Seq<char> {
    "</body></html>\n"@
}

/// The visual blocks of an ordered sequence of (label, image) pairs, in
/// input order.
pub open spec fn blocks_markup(pairs: Seq<(Seq<char>, Seq<char>)>) -> Seq<char>
    decreases pairs.len(),
{
    if pairs.len() == 0 {
        Seq::<char>::empty()
    } else {
        blocks_markup(pairs.drop_last()) + block_markup(pairs.last().0, pairs.last().1)
    }
}

/// The whole document: header, one block per pair in input order, footer.
pub open spec fn document_markup(
    pairs: Seq<(Seq<char>, Seq<char>)>,
    title: Seq<char>,
    lang: Seq<char>,
) -> Seq<char> {
    header_markup(title, lang) + blocks_markup(pairs) + footer_markup()
}

/// The views of a sequence of owned (label, image) pairs.
pub open spec fn pairs_view(pairs: Seq<(String, String)>) -> Seq<(Seq<char>, Seq<char>)> {
    pairs.map_values(|p: (String, String)| (p.0@, p.1@))
}

/// Appends the document header.
pub fn append_header(s: &mut String, title: &str, lang: &str)
    ensures
        final(s)@ == old(s)@ + header_markup(title@, lang@),
{
    s.append("<html lang=\"");
    s.append(lang);
    s.append("\"><head><meta charset=\"utf-8\"><title>");
    s.append(title);
    s.append("</title><style>\n");
    s.append(default_style());
    s.append("\n</style></head>\n<body>\n");
    proof {
        assert(s@ =~= old(s)@ + header_markup(title@, lang@));
    }
}

/// Appends one record's visual block.
pub fn append_block(s: &mut String, label: &str, image: &str)
    ensures
        final(s)@ == old(s)@ + block_markup(label@, image@),
{
    s.append("<div><figure><figcaption>");
    s.append(label);
    s.append("</figcaption>\n");
    s.append(image);
    s.append("\n</figure></div>\n");
    proof {
        assert(s@ =~= old(s)@ + block_markup(label@, image@));
    }
}

/// Appends the document footer.
pub fn append_footer(s: &mut String)
    ensures
        final(s)@ == old(s)@ + footer_markup(),
{
    s.append("</body></html>\n");
}

/// Composes the whole document of an ordered sequence of (label, image)
/// pairs: header, the pairs' blocks in input order, footer. An empty
/// sequence yields the valid minimal document.
pub fn compose_document(pairs: &Vec<(String, String)>, title: &str, lang: &str) -> (r: String)
    ensures
        r@ == document_markup(pairs_view(pairs@), title@, lang@),
{
    let mut s = String::new();
    append_header(&mut s, title, lang);
    let ghost head: Seq<char> = s@;
    let mut i: usize = 0;
    while i < pairs.len()
        invariant
            i <= pairs.len(),
            head == header_markup(title@, lang@),
            s@ == head + blocks_markup(pairs_view(pairs@).take(i as int)),
        decreases pairs.len() - i,
    {
        let p: &(String, String) = &pairs[i];
        append_block(&mut s, p.0.as_str(), p.1.as_str());
        proof {
            let v = pairs_view(pairs@);
            assert(v.take(i as int + 1).drop_last() =~= v.take(i as int));
            assert(v.take(i as int + 1).last() == v[i as int]);
            assert(s@ =~= head + blocks_markup(v.take(i as int + 1)));
        }
        i += 1;
    }
    proof {
        assert(pairs_view(pairs@).take(i as int) =~= pairs_view(pairs@));
    }
    append_footer(&mut s);
    proof {
        assert(s@ =~= document_markup(pairs_view(pairs@), title@, lang@));
    }
    s
}

/// An empty record sequence composes to the valid minimal document: the
/// header followed directly by the footer, not a failure.
pub proof fn lemma_compose_empty(title: Seq<char>, lang: Seq<char>)
    ensures
        document_markup(Seq::<(Seq<char>, Seq<char>)>::empty(), title, lang) == header_markup(
            title,
            lang,
        ) + footer_markup(),
{
    assert(document_markup(Seq::<(Seq<char>, Seq<char>)>::empty(), title, lang) =~= header_markup(
        title,
        lang,
    ) + footer_markup());
}

/// The composer preserves input order: the blocks of two sequences of
/// records laid end to end are the blocks of the first followed by the
/// blocks of the second, so each record's block stands in the document
/// exactly where the record stood in the input.
pub proof fn lemma_blocks_preserve_order(a: Seq<(Seq<char>, Seq<char>)>, b: Seq<(Seq<char>, Seq<char>)>)
    ensures
        blocks_markup(a + b) == blocks_markup(a) + blocks_markup(b),
    decreases b.len(),
{
    if b.len() == 0 {
        assert(a + b =~= a);
        assert(blocks_markup(a) + blocks_markup(b) =~= blocks_markup(a));
    } else {
        lemma_blocks_preserve_order(a, b.drop_last());
        assert((a + b).drop_last() =~= a + b.drop_last());
        assert((a + b).last() == b.last());
        assert(blocks_markup(a + b) =~= blocks_markup(a) + blocks_markup(b));
    }
}

} // verus!
