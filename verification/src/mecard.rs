//! The MeCard contact record and its canonical encoded string.

use vstd::prelude::*;
use vstd::string::StringExecFns;

verus! {

/// Contact record in the MeCard data format: one required name and eight
/// optional text fields. `TEL-AV` is omitted since it seems obsolete.
/// An absent optional field is omitted from the encoding entirely; absence
/// is never represented by an empty-string placeholder.
#[allow(non_snake_case)]
#[derive(Debug, Clone)]
pub struct MeCard {
    pub Name: String,
    pub Reading: Option<String>,
    pub TEL: Option<String>,
    pub EMail: Option<String>,
    pub Memo: Option<String>,
    pub Birthday: Option<String>,
    pub Address: Option<String>,
    pub URL: Option<String>,
    pub Nickname: Option<String>,
}

/// One encoded field group: `TAG:value;`.
pub open spec fn tagged(tag: Seq<char>, val: Seq<char>) -> Seq<char> {
    tag + ":"@ + val + ";"@
}

/// The group an optional field contributes: its `TAG:value;` if present,
/// nothing at all if absent.
pub open spec fn opt_tagged(tag: Seq<char>, field: Option<String>) -> Seq<char> {
    match field {
        Some(v) => tagged(tag, v@),
        None => Seq::<char>::empty(),
    }
}

/// The canonical encoded string of a record: the scheme marker, then the
/// name tagged `N`, then each present optional field in the fixed canonical
/// order (reading, telephone, email, memo, birthday, address, url,
/// nickname), each rendered as `TAG:value;`.
pub open spec fn mecard_encoding(c: MeCard) -> Seq<char> {
    "MECARD:"@ + tagged("N"@, c.Name@) + opt_tagged("SOUND"@, c.Reading) + opt_tagged(
        "TEL"@,
        c.TEL,
    ) + opt_tagged("EMAIL"@, c.EMail) + opt_tagged("NOTE"@, c.Memo) + opt_tagged(
        "BDAY"@,
        c.Birthday,
    ) + opt_tagged("ADR"@, c.Address) + opt_tagged("URL"@, c.URL) + opt_tagged(
        "NICKNAME"@,
        c.Nickname,
    )
}

/// Appends `tag:val;` to `s`.
pub(crate) fn append_tagged(s: &mut String, tag: &str, val: &str)
    ensures
        final(s)@ == old(s)@ + tagged(tag@, val@),
{
    s.append(tag);
    s.append(":");
    s.append(val);
    s.append(";");
    proof {
        assert(s@ =~= old(s)@ + tagged(tag@, val@));
    }
}

/// Appends the group of one optional field: `tag:val;` if present, nothing
/// if absent.
pub(crate) fn append_opt_tagged(s: &mut String, tag: &str, field: &Option<String>)
    ensures
        final(s)@ == old(s)@ + opt_tagged(tag@, *field),
{
    match field {
        Some(v) => {
            append_tagged(s, tag, v.as_str());
        },
        None => {
            proof {
                assert(s@ =~= old(s)@ + opt_tagged(tag@, *field));
            }
        },
    }
}

impl MeCard {
    /// Builds a record from a name and each optional field.
    pub fn new(
        name: String,
        reading: Option<String>,
        tel: Option<String>,
        email: Option<String>,
        memo: Option<String>,
        birthday: Option<String>,
        address: Option<String>,
        url: Option<String>,
        nickname: Option<String>,
    ) -> (r: Self)
        ensures
            r.Name == name,
            r.Reading == reading,
            r.TEL == tel,
            r.EMail == email,
            r.Memo == memo,
            r.Birthday == birthday,
            r.Address == address,
            r.URL == url,
            r.Nickname == nickname,
    {
        Self {
            Name: name,
            Reading: reading,
            TEL: tel,
            EMail: email,
            Memo: memo,
            Birthday: birthday,
            Address: address,
            URL: url,
            Nickname: nickname,
        }
    }

    /// Builds a record with only the name set; every optional field absent.
    pub fn init(name: String) -> (r: Self)
        ensures
            r.Name == name,
            r.Reading is None,
            r.TEL is None,
            r.EMail is None,
            r.Memo is None,
            r.Birthday is None,
            r.Address is None,
            r.URL is None,
            r.Nickname is None,
    {
        Self {
            Name: name,
            Reading: None,
            TEL: None,
            EMail: None,
            Memo: None,
            Birthday: None,
            Address: None,
            URL: None,
            Nickname: None,
        }
    }
}

/// No character of `s` is a newline.
pub open spec fn no_newline(s: Seq<char>) -> bool {
    forall|i: int| 0 <= i < s.len() ==> s[i] != '\n'
}

/// An optional field is absent or holds no newline.
pub open spec fn opt_no_newline(f: Option<String>) -> bool {
    f matches Some(v) ==> no_newline(v@)
}

/// Two newline-free strings concatenate to a newline-free string.
proof fn lemma_no_newline_concat(a: Seq<char>, b: Seq<char>)
    requires
        no_newline(a),
        no_newline(b),
    ensures
        no_newline(a + b),
{
    assert forall|i: int| 0 <= i < (a + b).len() implies (a + b)[i] != '\n' by {
        if i < a.len() {
            assert((a + b)[i] == a[i]);
        } else {
            assert((a + b)[i] == b[i - a.len()]);
        }
    }
}

/// A field group of newline-free tag and value is newline-free.
proof fn lemma_tagged_no_newline(tag: Seq<char>, val: Seq<char>)
    requires
        no_newline(tag),
        no_newline(val),
    ensures
        no_newline(tagged(tag, val)),
{
    reveal_strlit(":");
    reveal_strlit(";");
    assert(no_newline(":"@));
    assert(no_newline(";"@));
    lemma_no_newline_concat(tag, ":"@);
    lemma_no_newline_concat(tag + ":"@, val);
    lemma_no_newline_concat(tag + ":"@ + val, ";"@);
}

/// The group of an optional newline-free field is newline-free.
proof fn lemma_opt_tagged_no_newline(tag: Seq<char>, f: Option<String>)
    requires
        no_newline(tag),
        opt_no_newline(f),
    ensures
        no_newline(opt_tagged(tag, f)),
{
    match f {
        Some(v) => lemma_tagged_no_newline(tag, v@),
        None => {
            assert(no_newline(Seq::<char>::empty()));
        },
    }
}

/// A record with only the name present encodes to exactly
/// `MECARD:N:<name>;`.
pub proof fn lemma_encode_name_only(c: MeCard)
    requires
        c.Reading is None,
        c.TEL is None,
        c.EMail is None,
        c.Memo is None,
        c.Birthday is None,
        c.Address is None,
        c.URL is None,
        c.Nickname is None,
    ensures
        mecard_encoding(c) == "MECARD:N:"@ + c.Name@ + ";"@,
{
    reveal_strlit("MECARD:");
    reveal_strlit("N");
    reveal_strlit(":");
    reveal_strlit(";");
    reveal_strlit("MECARD:N:");
    assert(mecard_encoding(c) =~= "MECARD:N:"@ + c.Name@ + ";"@);
}

/// The encoded string is a function of the field values alone: however two
/// records were constructed, equal fields give equal encodings, with the
/// optional-field tags always in the fixed canonical order.
pub proof fn lemma_encode_field_order_invariance(c1: MeCard, c2: MeCard)
    requires
        c1.Name@ == c2.Name@,
        c1.Reading == c2.Reading,
        c1.TEL == c2.TEL,
        c1.EMail == c2.EMail,
        c1.Memo == c2.Memo,
        c1.Birthday == c2.Birthday,
        c1.Address == c2.Address,
        c1.URL == c2.URL,
        c1.Nickname == c2.Nickname,
    ensures
        mecard_encoding(c1) == mecard_encoding(c2),
{
}

/// Encoding never introduces a newline: the encoded string of any record
/// whose field values hold no newline holds none either. (No escaping is
/// performed, so a newline inside a field value would reappear verbatim in
/// the output.)
pub proof fn lemma_encode_no_newline(c: MeCard)
    requires
        no_newline(c.Name@),
        opt_no_newline(c.Reading),
        opt_no_newline(c.TEL),
        opt_no_newline(c.EMail),
        opt_no_newline(c.Memo),
        opt_no_newline(c.Birthday),
        opt_no_newline(c.Address),
        opt_no_newline(c.URL),
        opt_no_newline(c.Nickname),
    ensures
        no_newline(mecard_encoding(c)),
{
    reveal_strlit("MECARD:");
    reveal_strlit("N");
    reveal_strlit("SOUND");
    reveal_strlit("TEL");
    reveal_strlit("EMAIL");
    reveal_strlit("NOTE");
    reveal_strlit("BDAY");
    reveal_strlit("ADR");
    reveal_strlit("URL");
    reveal_strlit("NICKNAME");
    assert(no_newline("MECARD:"@));
    assert(no_newline("N"@));
    assert(no_newline("SOUND"@));
    assert(no_newline("TEL"@));
    assert(no_newline("EMAIL"@));
    assert(no_newline("NOTE"@));
    assert(no_newline("BDAY"@));
    assert(no_newline("ADR"@));
    assert(no_newline("URL"@));
    assert(no_newline("NICKNAME"@));
    lemma_tagged_no_newline("N"@, c.Name@);
    lemma_opt_tagged_no_newline("SOUND"@, c.Reading);
    lemma_opt_tagged_no_newline("TEL"@, c.TEL);
    lemma_opt_tagged_no_newline("EMAIL"@, c.EMail);
    lemma_opt_tagged_no_newline("NOTE"@, c.Memo);
    lemma_opt_tagged_no_newline("BDAY"@, c.Birthday);
    lemma_opt_tagged_no_newline("ADR"@, c.Address);
    lemma_opt_tagged_no_newline("URL"@, c.URL);
    lemma_opt_tagged_no_newline("NICKNAME"@, c.Nickname);
    let p1 = "MECARD:"@ + tagged("N"@, c.Name@);
    lemma_no_newline_concat("MECARD:"@, tagged("N"@, c.Name@));
    let p2 = p1 + opt_tagged("SOUND"@, c.Reading);
    lemma_no_newline_concat(p1, opt_tagged("SOUND"@, c.Reading));
    let p3 = p2 + opt_tagged("TEL"@, c.TEL);
    lemma_no_newline_concat(p2, opt_tagged("TEL"@, c.TEL));
    let p4 = p3 + opt_tagged("EMAIL"@, c.EMail);
    lemma_no_newline_concat(p3, opt_tagged("EMAIL"@, c.EMail));
    let p5 = p4 + opt_tagged("NOTE"@, c.Memo);
    lemma_no_newline_concat(p4, opt_tagged("NOTE"@, c.Memo));
    let p6 = p5 + opt_tagged("BDAY"@, c.Birthday);
    lemma_no_newline_concat(p5, opt_tagged("BDAY"@, c.Birthday));
    let p7 = p6 + opt_tagged("ADR"@, c.Address);
    lemma_no_newline_concat(p6, opt_tagged("ADR"@, c.Address));
    let p8 = p7 + opt_tagged("URL"@, c.URL);
    lemma_no_newline_concat(p7, opt_tagged("URL"@, c.URL));
    lemma_no_newline_concat(p8, opt_tagged("NICKNAME"@, c.Nickname));
}

/// Encoding is deterministic: any two encoded strings of one record are
/// identical, character for character.
pub proof fn lemma_encode_deterministic(c: MeCard, r1: Seq<char>, r2: Seq<char>)
    requires
        r1 == mecard_encoding(c),
        r2 == mecard_encoding(c),
    ensures
        r1 == r2,
{
}

} // verus!
