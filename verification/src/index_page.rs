//! City discovery: parses a prefecture's index page into the ordered list of
//! city codes it links to. Per anchor, the city-link pattern is matched and
//! both identifiers parsed; the prefecture found must equal the one the page
//! was requested for. Aggregation is all-or-nothing: the first failing anchor
//! aborts the whole page with its raw markup and cause.
use vstd::prelude::*;
use crate::codes::CityCode;
use crate::codes::PrefCode;
use crate::codes::city_parse_ok;
use crate::codes::pref_parse_ok;
use crate::codes::pref_parse_val;
use crate::numtext::str_val;
use crate::errors::IndexError;
use crate::errors::IndexErrorV;
use crate::errors::ParseError;
use crate::errors::ParseErrorV;
use crate::patterns::city_link_capture;
use crate::patterns::find_city_link;

verus! {

/// One anchor of an index page as the markup gives it: its `href` attribute,
/// when present, and its outer HTML for error context.
pub struct RawAnchor {
    pub href: Option<String>,
    pub outer: String,
}

/// Mathematical image of a `RawAnchor`.
pub ghost struct RawAnchorV {
    pub href: Option<Seq<char>>,
    pub outer: Seq<char>,
}

impl View for RawAnchor {
    type V = RawAnchorV;

    open spec fn view(&self) -> RawAnchorV {
        RawAnchorV { href: self.href.deep_view(), outer: self.outer@ }
    }
}

impl DeepView for RawAnchor {
    type V = RawAnchorV;

    open spec fn deep_view(&self) -> RawAnchorV {
        self.view()
    }
}

/// The anchors of an index page, in document order: every anchor element
/// whose `href` attribute contains "?todofukenCode=".
pub uninterp spec fn index_anchors_of(html: Seq<char>) -> Seq<RawAnchorV>;

/// Relies on scraper (Html::parse_document, Selector::parse, Html::select,
/// ElementRef::attr, ElementRef::html): hands back, in document order, the
/// href attribute and outer HTML of every anchor element whose href contains
/// "?todofukenCode=". The result depends on the page text alone.
#[verifier::external_body]
fn extract_index_anchors(html: &str) -> (r: Vec<RawAnchor>)
    ensures
        r.deep_view() == index_anchors_of(html@),
{
    let doc = scraper::Html::parse_document(html);
    let sel = scraper::Selector::parse("a[href*=\"?todofukenCode=\"]").unwrap();
    doc.select(&sel).map(
        |e| RawAnchor { href: e.attr("href").map(|v| v.to_string()), outer: e.html() },
    ).collect()
}

/// What parsing one anchor yields: the city code, or the exact error.
pub open spec fn anchor_spec(a: RawAnchorV, code: PrefCode) -> Result<CityCode, ParseErrorV> {
    match a.href {
        None => Err(ParseErrorV::MissingElement { what: "href"@ }),
        Some(h) => match city_link_capture(h) {
            None => Err(ParseErrorV::Format { what: "city link"@, value: h }),
            Some((p, c)) => if !pref_parse_ok(p) {
                Err(ParseErrorV::Format { what: "prefecture code"@, value: p })
            } else if pref_parse_val(p) != code.0 as int {
                Err(ParseErrorV::Consistency {
                    expected: code,
                    found: PrefCode(pref_parse_val(p) as u8),
                })
            } else if !city_parse_ok(c) {
                Err(ParseErrorV::Format { what: "city code"@, value: c })
            } else {
                Ok(CityCode(str_val(c) as u32))
            },
        },
    }
}

/// Mathematical image of a per-anchor result.
pub open spec fn city_result_view(r: Result<CityCode, ParseError>) -> Result<
    CityCode,
    ParseErrorV,
> {
    match r {
        Ok(c) => Ok(c),
        Err(e) => Err(e@),
    }
}

/// Parses one anchor of an index page requested for prefecture `code`.
pub fn parse_index_anchor(a: &RawAnchor, code: PrefCode) -> (r: Result<CityCode, ParseError>)
    ensures
        city_result_view(r) == anchor_spec(a@, code),
{
    match &a.href {
        None => Err(ParseError::MissingElement { what: String::from_str("href") }),
        Some(h) => match find_city_link(h.as_str()) {
            None => Err(ParseError::Format {
                what: String::from_str("city link"),
                value: h.clone(),
            }),
            Some((p, c)) => match PrefCode::parse(p.as_str()) {
                Err(e) => Err(e),
                Ok(pref) => if pref != code {
                    Err(ParseError::Consistency { expected: code, found: pref })
                } else {
                    match CityCode::parse(c.as_str()) {
                        Err(e) => Err(e),
                        Ok(city) => Ok(city),
                    }
                },
            },
        },
    }
}

/// What parsing a whole sequence of anchors yields: all city codes in order,
/// or the first failing anchor's markup and cause.
pub open spec fn index_spec(anchors: Seq<RawAnchorV>, code: PrefCode) -> Result<
    Seq<CityCode>,
    IndexErrorV,
>
    decreases anchors.len(),
{
    if anchors.len() == 0 {
        Ok(Seq::empty())
    } else {
        match anchor_spec(anchors[0], code) {
            Err(e) => Err(IndexErrorV { fragment: anchors[0].outer, cause: e }),
            Ok(c) => match index_spec(anchors.skip(1), code) {
                Err(pe) => Err(pe),
                Ok(rest) => Ok(seq![c] + rest),
            },
        }
    }
}

/// Mathematical image of a whole-page result.
pub open spec fn index_result_view(r: Result<Vec<CityCode>, IndexError>) -> Result<
    Seq<CityCode>,
    IndexErrorV,
> {
    match r {
        Ok(cs) => Ok(cs@),
        Err(e) => Err(e@),
    }
}

proof fn lemma_index_spec_err(anchors: Seq<RawAnchorV>, code: PrefCode, i: int)
    requires
        0 <= i < anchors.len(),
        forall|k: int| 0 <= k < i ==> anchor_spec(#[trigger] anchors[k], code) is Ok,
        anchor_spec(anchors[i], code) is Err,
    ensures
        index_spec(anchors, code) == Err::<Seq<CityCode>, IndexErrorV>(IndexErrorV {
            fragment: anchors[i].outer,
            cause: anchor_spec(anchors[i], code)->Err_0,
        }),
    decreases i,
{
    if i == 0 {
    } else {
        assert(anchor_spec(anchors[0], code) is Ok);
        let rest = anchors.skip(1);
        assert(forall|k: int| 0 <= k < i - 1 ==> #[trigger] rest[k] == anchors[k + 1]);
        lemma_index_spec_err(rest, code, i - 1);
    }
}

proof fn lemma_index_spec_ok(anchors: Seq<RawAnchorV>, code: PrefCode)
    requires
        forall|k: int| 0 <= k < anchors.len() ==> anchor_spec(#[trigger] anchors[k], code) is Ok,
    ensures
        index_spec(anchors, code) == Ok::<Seq<CityCode>, IndexErrorV>(
            Seq::new(anchors.len(), |k: int| anchor_spec(anchors[k], code)->Ok_0),
        ),
    decreases anchors.len(),
{
    let full = Seq::new(anchors.len(), |k: int| anchor_spec(anchors[k], code)->Ok_0);
    if anchors.len() == 0 {
        assert(full =~= Seq::<CityCode>::empty());
    } else {
        let rest = anchors.skip(1);
        assert(forall|k: int| 0 <= k < rest.len() ==> #[trigger] rest[k] == anchors[k + 1]);
        lemma_index_spec_ok(rest, code);
        let c = anchor_spec(anchors[0], code)->Ok_0;
        assert(seq![c] + Seq::new(rest.len(), |k: int| anchor_spec(rest[k], code)->Ok_0)
            =~= full);
    }
}

/// Parses every anchor of an index page requested for prefecture `code`,
/// all-or-nothing: the ordered city codes, or the first failure with the
/// offending anchor's raw markup.
pub fn parse_index_anchors(anchors: &Vec<RawAnchor>, code: PrefCode) -> (r: Result<
    Vec<CityCode>,
    IndexError,
>)
    ensures
        index_result_view(r) == index_spec(anchors.deep_view(), code),
{
    let ghost av = anchors.deep_view();
    let mut out: Vec<CityCode> = Vec::new();
    let mut i: usize = 0;
    while i < anchors.len()
        invariant
            0 <= i <= anchors.len(),
            av == anchors.deep_view(),
            av.len() == anchors.len(),
            out@.len() == i,
            forall|k: int| 0 <= k < i ==> anchor_spec(#[trigger] av[k], code) is Ok,
            forall|k: int| 0 <= k < i ==> #[trigger] out@[k] == anchor_spec(av[k], code)->Ok_0,
        decreases anchors.len() - i,
    {
        let a = &anchors[i];
        proof {
            assert(av[i as int] == anchors@[i as int].deep_view());
        }
        match parse_index_anchor(a, code) {
            Err(e) => {
                proof {
                    lemma_index_spec_err(av, code, i as int);
                }
                return Err(IndexError { fragment: a.outer.clone(), cause: e });
            },
            Ok(c) => {
                out.push(c);
            },
        }
        i += 1;
    }
    proof {
        lemma_index_spec_ok(av, code);
        assert(out@ =~= Seq::new(av.len(), |k: int| anchor_spec(av[k], code)->Ok_0));
    }
    Ok(out)
}

/// What parsing a whole index page yields, as a function of the page text.
pub open spec fn index_page_spec(html: Seq<char>, code: PrefCode) -> Result<
    Seq<CityCode>,
    IndexErrorV,
> {
    index_spec(index_anchors_of(html), code)
}

/// Parses a prefecture's index page: every city link, in document order,
/// validated against the requested prefecture, all-or-nothing.
pub fn parse_index_page(html: &str, code: PrefCode) -> (r: Result<Vec<CityCode>, IndexError>)
    ensures
        index_result_view(r) == index_page_spec(html@, code),
{
    let anchors = extract_index_anchors(html);
    parse_index_anchors(&anchors, code)
}

/// Law: index parsing is a pure function of the page text and the requested
/// code; parsing equal inputs twice yields equal results.
pub proof fn lemma_index_parse_pure(h1: Seq<char>, h2: Seq<char>, code: PrefCode)
    requires
        h1 == h2,
    ensures
        index_page_spec(h1, code) == index_page_spec(h2, code),
{
}

} // verus!
