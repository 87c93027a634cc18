//! A small verified reader for the XML shapes the hooked client emits.
//!
//! The wire bodies are flat, machine-produced documents. Two access paths
//! cover every message kind: the value of a quoted attribute inside an
//! element's open tag, and the text between an element's open and close tags.
//! Both are specified positionally over the character sequence, with no
//! general XML grammar: the first occurrence of the element decides.

use vstd::prelude::*;

use crate::text::{find_from, first_match_from, lemma_first_match_props, matches_at};

verus! {

/// Value of `attr="..."` inside the open tag of the first occurrence of
/// `elem`: the characters between the quotes, `None` when the element, the
/// attribute before the tag's `>`, or the closing quote is missing.
pub open spec fn spec_xml_attr(s: Seq<char>, elem: Seq<char>, attr: Seq<char>) -> Option<
    Seq<char>,
> {
    let open_pat = seq!['<'] + elem;
    let attr_pat = seq![' '] + attr + seq!['=', '"'];
    match first_match_from(s, open_pat, 0) {
        None => None,
        Some(e) => match first_match_from(s, seq!['>'], e) {
            None => None,
            Some(t) => match first_match_from(s, attr_pat, e) {
                None => None,
                Some(a) => if a < t {
                    let vstart = a + attr_pat.len();
                    match first_match_from(s, seq!['"'], vstart) {
                        None => None,
                        Some(q) => if 0 <= vstart <= q <= s.len() {
                            Some(s.subrange(vstart, q))
                        } else {
                            None
                        },
                    }
                } else {
                    None
                },
            },
        },
    }
}

/// Everything between `<elem>` and the following `</elem>`, for the first
/// occurrence of the element; `None` when either tag is missing.
pub open spec fn spec_elem_text(s: Seq<char>, elem: Seq<char>) -> Option<Seq<char>> {
    let open_pat = seq!['<'] + elem + seq!['>'];
    let close_pat = seq!['<', '/'] + elem + seq!['>'];
    match first_match_from(s, open_pat, 0) {
        None => None,
        Some(o) => {
            let start = o + open_pat.len();
            match first_match_from(s, close_pat, start) {
                None => None,
                Some(c) => if 0 <= start <= c <= s.len() {
                    Some(s.subrange(start, c))
                } else {
                    None
                },
            }
        },
    }
}

/// Reads a quoted attribute of an element's open tag.
pub fn xml_attr(s: &str, elem: &str, attr: &str) -> (r: Option<String>)
    ensures
        r matches Some(v) ==> spec_xml_attr(s@, elem@, attr@) == Some(v@),
        r is None ==> spec_xml_attr(s@, elem@, attr@) is None,
{
    let slen = s.unicode_len();
    let open_pat = String::from_str("<").concat(elem);
    let attr_pat = String::from_str(" ").concat(attr).concat("=\"");
    let gt = ">";
    let quote = "\"";
    proof {
        reveal_strlit("<");
        reveal_strlit(" ");
        reveal_strlit("=\"");
        reveal_strlit(">");
        reveal_strlit("\"");
        assert(open_pat@ =~= seq!['<'] + elem@);
        assert(attr_pat@ =~= seq![' '] + attr@ + seq!['=', '"']);
        assert(gt@ =~= seq!['>']);
        assert(quote@ =~= seq!['"']);
    }
    let e = match find_from(s, open_pat.as_str(), 0) {
        None => {
            return None;
        },
        Some(e) => e,
    };
    let t = match find_from(s, gt, e) {
        None => {
            return None;
        },
        Some(t) => t,
    };
    let a = match find_from(s, attr_pat.as_str(), e) {
        None => {
            return None;
        },
        Some(a) => a,
    };
    if a >= t {
        return None;
    }
    proof {
        lemma_first_match_props(s@, attr_pat@, e as int);
    }
    let vstart = a + attr_pat.as_str().unicode_len();
    let q = match find_from(s, quote, vstart) {
        None => {
            return None;
        },
        Some(q) => q,
    };
    proof {
        lemma_first_match_props(s@, quote@, vstart as int);
    }
    Some(String::from_str(s.substring_char(vstart, q)))
}

/// Reads the text between an element's open and close tags.
pub fn elem_text(s: &str, elem: &str) -> (r: Option<String>)
    ensures
        r matches Some(v) ==> spec_elem_text(s@, elem@) == Some(v@),
        r is None ==> spec_elem_text(s@, elem@) is None,
{
    let slen = s.unicode_len();
    let open_pat = String::from_str("<").concat(elem).concat(">");
    let close_pat = String::from_str("</").concat(elem).concat(">");
    proof {
        reveal_strlit("<");
        reveal_strlit("</");
        reveal_strlit(">");
        assert(open_pat@ =~= seq!['<'] + elem@ + seq!['>']);
        assert(close_pat@ =~= seq!['<', '/'] + elem@ + seq!['>']);
    }
    let o = match find_from(s, open_pat.as_str(), 0) {
        None => {
            return None;
        },
        Some(o) => o,
    };
    proof {
        lemma_first_match_props(s@, open_pat@, 0);
    }
    let start = o + open_pat.as_str().unicode_len();
    let c = match find_from(s, close_pat.as_str(), start) {
        None => {
            return None;
        },
        Some(c) => c,
    };
    proof {
        lemma_first_match_props(s@, close_pat@, start as int);
    }
    Some(String::from_str(s.substring_char(start, c)))
}

} // verus!
