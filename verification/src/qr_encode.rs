//! The capability interface of encodable record types: a canonical encoded
//! string and a short display label. The rendering pipeline is provided
//! purely in terms of these two capabilities.

use vstd::prelude::*;
use vstd::string::StringExecFns;
use crate::mecard::{MeCard, mecard_encoding, append_tagged, append_opt_tagged};
use crate::symbol::{qr_symbol_of, generate_symbol, SymbolError};
use crate::render::{spec_scale, grid_side, rendered_size, image_markup, render_svg};
use crate::compose::{document_markup, pairs_view, compose_document};

verus! {

/// The image markup the pipeline derives from an encoded string: the
/// symbol the generator has for it, rendered at the unit scale that covers
/// the requested minimum dimensions; nothing where the string exceeds the
/// symbol capacity.
pub open spec fn spec_svg_of(
    encoding: Seq<char>,
    min_w: nat,
    min_h: nat,
    light: Seq<char>,
    dark: Seq<char>,
) -> Option<Seq<char>> {
    match qr_symbol_of(encoding) {
        Some(sym) => Some(
            image_markup(sym.0, sym.1, spec_scale(grid_side(sym.0), min_w, min_h), light, dark),
        ),
        None => None,
    }
}

/// Whether every record of a batch has a symbol at the chosen
/// error-correction tier.
pub open spec fn all_encodable<T: QrEncode>(cards: Seq<T>) -> bool {
    forall|i: int| 0 <= i < cards.len() ==> qr_symbol_of(cards[i].spec_encode()) is Some
}

/// The (caption, image markup) pairs a batch composes into a document.
pub open spec fn spec_card_pairs<T: QrEncode>(
    cards: Seq<T>,
    min_w: nat,
    min_h: nat,
    light: Seq<char>,
    dark: Seq<char>,
) -> Seq<(Seq<char>, Seq<char>)> {
    cards.map_values(
        |c: T|
            (
                c.spec_display(),
                match spec_svg_of(c.spec_encode(), min_w, min_h, light, dark) {
                    Some(img) => img,
                    None => Seq::<char>::empty(),
                },
            ),
    )
}

/// A record type that can be turned into a QR symbol: it has a canonical
/// single-line encoding and a short display label used as a caption.
pub trait QrEncode: Sized {
    /// The canonical encoded string of this record.
    spec fn spec_encode(&self) -> Seq<char>;

    /// The display label of this record.
    spec fn spec_display(&self) -> Seq<char>;

    /// Encode fields into the canonical string handed to the QR symbol
    /// generator.
    fn encode(&self) -> (r: String)
        ensures
            r@ == self.spec_encode(),
    ;

    /// Short descriptive name (e.g. the name field) used as the caption of
    /// a record's visual block.
    fn display(&self) -> (r: String)
        ensures
            r@ == self.spec_display(),
    ;

    /// Creates the vector image markup of this record: the canonical
    /// encoding turned into a QR symbol at the lowest error-correction
    /// tier, rendered no smaller than the requested minimum dimensions in
    /// either axis. Fails exactly where the encoding exceeds the symbol
    /// capacity of that tier.
    fn svg(&self, width: u32, height: u32, light: &str, dark: &str) -> (r: Result<
        String,
        SymbolError,
    >)
        ensures
            r matches Ok(img) ==> spec_svg_of(
                self.spec_encode(),
                width as nat,
                height as nat,
                light@,
                dark@,
            ) == Some(img@),
            r matches Ok(img) ==> (qr_symbol_of(self.spec_encode()) matches Some(sym)
                && rendered_size(sym.0, width as nat, height as nat) >= width && rendered_size(
                sym.0,
                width as nat,
                height as nat,
            ) >= height),
            r is Err ==> qr_symbol_of(self.spec_encode()) is None,
    {
        let encoded = self.encode();
        match generate_symbol(encoded.as_str()) {
            Ok(p) => Ok(render_svg(p.0, &p.1, width, height, light, dark)),
            Err(e) => Err(e),
        }
    }
}

/// Composes the whole gallery document of a batch: one visual block per
/// record, captions and images in input order. Succeeds exactly when every
/// record's encoding fits the symbol capacity; one record's capacity
/// failure aborts the whole batch and nothing is handed out.
pub fn html_document<T: QrEncode>(
    cards: &Vec<T>,
    title: &str,
    lang: &str,
    w_h: (u32, u32),
    light: &str,
    dark: &str,
) -> (r: Result<String, SymbolError>)
    ensures
        r matches Ok(doc) ==> all_encodable(cards@) && doc@ == document_markup(
            spec_card_pairs(cards@, w_h.0 as nat, w_h.1 as nat, light@, dark@),
            title@,
            lang@,
        ),
        r is Err ==> !all_encodable(cards@),
{
    let mut pairs: Vec<(String, String)> = Vec::new();
    let mut i: usize = 0;
    while i < cards.len()
        invariant
            i <= cards.len(),
            pairs@.len() == i,
            forall|j: int| 0 <= j < i ==> qr_symbol_of(cards@[j].spec_encode()) is Some,
            pairs_view(pairs@) == spec_card_pairs(
                cards@.take(i as int),
                w_h.0 as nat,
                w_h.1 as nat,
                light@,
                dark@,
            ),
        decreases cards.len() - i,
    {
        let card = &cards[i];
        let label = card.display();
        let ghost prev_pairs: Seq<(String, String)> = pairs@;
        match card.svg(w_h.0, w_h.1, light, dark) {
            Ok(img) => {
                pairs.push((label, img));
            },
            Err(e) => {
                proof {
                    assert(qr_symbol_of(cards@[i as int].spec_encode()) is None);
                    assert(!all_encodable(cards@));
                }
                return Err(e);
            },
        }
        proof {
            let v1 = pairs_view(pairs@);
            let v2 = spec_card_pairs(
                cards@.take(i as int + 1),
                w_h.0 as nat,
                w_h.1 as nat,
                light@,
                dark@,
            );
            assert(pairs@ == prev_pairs.push(pairs@[i as int]));
            assert forall|j: int| 0 <= j <= i as int implies v1[j] == v2[j] by {
                assert(cards@.take(i as int + 1)[j] == cards@[j]);
                if j < i as int {
                    assert(pairs@[j] == prev_pairs[j]);
                    assert(pairs_view(prev_pairs)[j] == spec_card_pairs(
                        cards@.take(i as int),
                        w_h.0 as nat,
                        w_h.1 as nat,
                        light@,
                        dark@,
                    )[j]);
                    assert(cards@.take(i as int)[j] == cards@[j]);
                }
            }
            assert(v1 =~= v2);
        }
        i += 1;
    }
    proof {
        assert(cards@.take(i as int) =~= cards@);
    }
    Ok(compose_document(&pairs, title, lang))
}

impl QrEncode for MeCard {
    open spec fn spec_encode(&self) -> Seq<char> {
        mecard_encoding(*self)
    }

    open spec fn spec_display(&self) -> Seq<char> {
        self.Name@
    }

    fn encode(&self) -> (r: String)
        ensures
            r@ == mecard_encoding(*self),
    {
        let mut s = String::from_str("MECARD:");
        append_tagged(&mut s, "N", self.Name.as_str());
        append_opt_tagged(&mut s, "SOUND", &self.Reading);
        append_opt_tagged(&mut s, "TEL", &self.TEL);
        append_opt_tagged(&mut s, "EMAIL", &self.EMail);
        append_opt_tagged(&mut s, "NOTE", &self.Memo);
        append_opt_tagged(&mut s, "BDAY", &self.Birthday);
        append_opt_tagged(&mut s, "ADR", &self.Address);
        append_opt_tagged(&mut s, "URL", &self.URL);
        append_opt_tagged(&mut s, "NICKNAME", &self.Nickname);
        proof {
            assert(s@ =~= mecard_encoding(*self));
        }
        s
    }

    fn display(&self) -> (r: String)
        ensures
            r@ == self.Name@,
    {
        self.Name.clone()
    }
}

} // verus!
