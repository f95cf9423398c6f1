//! Store extraction: parses a (prefecture, city) listing page into typed
//! store records. Each result item yields name, address, coordinates from the
//! map link, phone, an optional website URL, and closed-world equipment and
//! feature flags; any unrecognized label is a hard failure. Aggregation is
//! all-or-nothing: the first failing item aborts the whole page with its raw
//! markup, the (prefecture, city) context, and the cause.
use vstd::prelude::*;
use crate::codes::CityCode;
use crate::codes::PrefCode;
use crate::errors::ListingError;
use crate::errors::ListingErrorV;
use crate::errors::ParseError;
use crate::errors::ParseErrorV;
use crate::model::Machines;
use crate::model::Recordings;
use crate::model::Scorings;
use crate::model::Store;
use crate::model::StoreV;
use crate::model::machines_none;
use crate::model::recordings_none;
use crate::model::scorings_none;
use crate::patterns::check_decimal_number;
use crate::patterns::find_map_link;
use crate::patterns::is_decimal_number;
use crate::patterns::map_link_capture;
use crate::patterns::str_eq;

verus! {

/// The raw fields of one result item as the markup gives them, before any
/// validation: each selector's first match (or every match, for the two
/// repeated icon/label lists), with absence kept distinct from presence.
pub struct ItemFields {
    /// Text of the first store-name element.
    pub name: Option<String>,
    /// Text of the first address element.
    pub address: Option<String>,
    /// First map link: absent element, or its optional `href` attribute.
    pub map_href: Option<Option<String>>,
    /// Text of the first telephone link.
    pub phone: Option<String>,
    /// First website link: absent element, or its optional `href` attribute.
    pub url_href: Option<Option<String>>,
    /// The `alt` attribute of every machine-icon image, in document order.
    pub machine_alts: Vec<Option<String>>,
    /// The text of every feature-label span, in document order.
    pub feature_texts: Vec<String>,
}

/// Mathematical image of `ItemFields`.
pub ghost struct ItemFieldsV {
    pub name: Option<Seq<char>>,
    pub address: Option<Seq<char>>,
    pub map_href: Option<Option<Seq<char>>>,
    pub phone: Option<Seq<char>>,
    pub url_href: Option<Option<Seq<char>>>,
    pub machine_alts: Seq<Option<Seq<char>>>,
    pub feature_texts: Seq<Seq<char>>,
}

impl View for ItemFields {
    type V = ItemFieldsV;

    open spec fn view(&self) -> ItemFieldsV {
        ItemFieldsV {
            name: self.name.deep_view(),
            address: self.address.deep_view(),
            map_href: self.map_href.deep_view(),
            phone: self.phone.deep_view(),
            url_href: self.url_href.deep_view(),
            machine_alts: self.machine_alts.deep_view(),
            feature_texts: self.feature_texts.deep_view(),
        }
    }
}

/// The outer HTML of every result item of a listing page, in document order.
pub uninterp spec fn item_htmls_of(html: Seq<char>) -> Seq<Seq<char>>;

/// Relies on scraper (Html::parse_document, Selector::parse, Html::select,
/// ElementRef::html): hands back the outer HTML of every `li.result-item`
/// element, in document order. The result depends on the page text alone.
#[verifier::external_body]
fn extract_item_htmls(html: &str) -> (r: Vec<String>)
    ensures
        r.deep_view() == item_htmls_of(html@),
{
    let doc = scraper::Html::parse_document(html);
    let sel = scraper::Selector::parse("li.result-item").unwrap();
    doc.select(&sel).map(|e| e.html()).collect()
}

/// The text of the first store-name element of a result item, if any.
pub uninterp spec fn name_text_of(frag: Seq<char>) -> Option<Seq<char>>;

/// Relies on scraper (Html::parse_fragment, Selector::parse, select,
/// ElementRef::text): the concatenated text of the first element matching
/// `span.store-name,a.store-name`. The result depends on the markup alone.
#[verifier::external_body]
fn item_name_text(frag: &str) -> (r: Option<String>)
    ensures
        r.deep_view() == name_text_of(frag@),
{
    let doc = scraper::Html::parse_fragment(frag);
    let sel = scraper::Selector::parse("span.store-name,a.store-name").unwrap();
    doc.select(&sel).next().map(|e| e.text().collect())
}

/// The text of the first address element of a result item, if any.
pub uninterp spec fn address_text_of(frag: Seq<char>) -> Option<Seq<char>>;

/// Relies on scraper (Html::parse_fragment, Selector::parse, select,
/// ElementRef::text): the concatenated text of the first element matching
/// `div.store-address > span`. The result depends on the markup alone.
#[verifier::external_body]
fn item_address_text(frag: &str) -> (r: Option<String>)
    ensures
        r.deep_view() == address_text_of(frag@),
{
    let doc = scraper::Html::parse_fragment(frag);
    let sel = scraper::Selector::parse("div.store-address > span").unwrap();
    doc.select(&sel).next().map(|e| e.text().collect())
}

/// The first map link of a result item: absent, or its optional href text.
pub uninterp spec fn map_href_of(frag: Seq<char>) -> Option<Option<Seq<char>>>;

/// Relies on scraper (Html::parse_fragment, Selector::parse, select,
/// ElementRef::attr): the `href` attribute of the first element matching
/// `div.store-address > a`. The result depends on the markup alone.
#[verifier::external_body]
fn item_map_href(frag: &str) -> (r: Option<Option<String>>)
    ensures
        r.deep_view() == map_href_of(frag@),
{
    let doc = scraper::Html::parse_fragment(frag);
    let sel = scraper::Selector::parse("div.store-address > a").unwrap();
    doc.select(&sel).next().map(|e| e.attr("href").map(|v| v.to_string()))
}

/// The text of the first telephone link of a result item, if any.
pub uninterp spec fn phone_text_of(frag: Seq<char>) -> Option<Seq<char>>;

/// Relies on scraper (Html::parse_fragment, Selector::parse, select,
/// ElementRef::text): the concatenated text of the first element matching
/// `div.store-tel > a`. The result depends on the markup alone.
#[verifier::external_body]
fn item_phone_text(frag: &str) -> (r: Option<String>)
    ensures
        r.deep_view() == phone_text_of(frag@),
{
    let doc = scraper::Html::parse_fragment(frag);
    let sel = scraper::Selector::parse("div.store-tel > a").unwrap();
    doc.select(&sel).next().map(|e| e.text().collect())
}

/// The first website link of a result item: absent, or its optional href.
pub uninterp spec fn url_href_of(frag: Seq<char>) -> Option<Option<Seq<char>>>;

/// Relies on scraper (Html::parse_fragment, Selector::parse, select,
/// ElementRef::attr): the `href` attribute of the first element matching
/// `div.store-url > a`. The result depends on the markup alone.
#[verifier::external_body]
fn item_url_href(frag: &str) -> (r: Option<Option<String>>)
    ensures
        r.deep_view() == url_href_of(frag@),
{
    let doc = scraper::Html::parse_fragment(frag);
    let sel = scraper::Selector::parse("div.store-url > a").unwrap();
    doc.select(&sel).next().map(|e| e.attr("href").map(|v| v.to_string()))
}

/// The `alt` attribute of every machine-icon image of a result item.
pub uninterp spec fn machine_alts_of(frag: Seq<char>) -> Seq<Option<Seq<char>>>;

/// Relies on scraper (Html::parse_fragment, Selector::parse, select,
/// ElementRef::attr): the `alt` attribute of every element matching
/// `li.machine-item > img`, in document order.
#[verifier::external_body]
fn item_machine_alts(frag: &str) -> (r: Vec<Option<String>>)
    ensures
        r.deep_view() == machine_alts_of(frag@),
{
    let doc = scraper::Html::parse_fragment(frag);
    let sel = scraper::Selector::parse("li.machine-item > img").unwrap();
    doc.select(&sel).map(|e| e.attr("alt").map(|v| v.to_string())).collect()
}

/// The text of every feature-label span of a result item.
pub uninterp spec fn feature_texts_of(frag: Seq<char>) -> Seq<Seq<char>>;

/// Relies on scraper (Html::parse_fragment, Selector::parse, select,
/// ElementRef::text): the concatenated text of every element matching
/// `li.feature-item > span`, in document order.
#[verifier::external_body]
fn item_feature_texts(frag: &str) -> (r: Vec<String>)
    ensures
        r.deep_view() == feature_texts_of(frag@),
{
    let doc = scraper::Html::parse_fragment(frag);
    let sel = scraper::Selector::parse("li.feature-item > span").unwrap();
    doc.select(&sel).map(|e| e.text().collect()).collect()
}

/// The normalized text of a website URL, when the text parses as a URL.
pub uninterp spec fn url_parse(s: Seq<char>) -> Option<Seq<char>>;

/// Relies on url::Url::parse and Url::as_str: an invalid URL text is
/// rejected; a valid one yields its normalized text form. The result depends
/// on the text alone.
#[verifier::external_body]
fn parse_url_text(s: &str) -> (r: Option<String>)
    ensures
        r.deep_view() == url_parse(s@),
{
    match url::Url::parse(s) {
        Ok(u) => Some(u.as_str().to_string()),
        Err(_) => None,
    }
}

/// All raw fields of one result item, as a function of its markup.
pub open spec fn item_fields_of(frag: Seq<char>) -> ItemFieldsV {
    ItemFieldsV {
        name: name_text_of(frag),
        address: address_text_of(frag),
        map_href: map_href_of(frag),
        phone: phone_text_of(frag),
        url_href: url_href_of(frag),
        machine_alts: machine_alts_of(frag),
        feature_texts: feature_texts_of(frag),
    }
}

/// Gathers the raw fields of one result item from its markup.
pub fn extract_item_fields(frag: &str) -> (r: ItemFields)
    ensures
        r@ == item_fields_of(frag@),
{
    ItemFields {
        name: item_name_text(frag),
        address: item_address_text(frag),
        map_href: item_map_href(frag),
        phone: item_phone_text(frag),
        url_href: item_url_href(frag),
        machine_alts: item_machine_alts(frag),
        feature_texts: item_feature_texts(frag),
    }
}

/// The machine flag a recognized icon label sets, applied to `m`;
/// `None` for any label outside the closed set.
pub open spec fn apply_machine_label(m: Machines, alt: Seq<char>) -> Option<Machines> {
    if alt == "LIVE DAM Ai"@ {
        Some(Machines { ai: true, studium: m.studium, normal: m.normal, premier: m.premier })
    } else if alt == "LIVE DAM STADIUM"@ {
        Some(Machines { ai: m.ai, studium: true, normal: m.normal, premier: m.premier })
    } else if alt == "LIVE DAM"@ {
        Some(Machines { ai: m.ai, studium: m.studium, normal: true, premier: m.premier })
    } else if alt == "PremierDAM"@ {
        Some(Machines { ai: m.ai, studium: m.studium, normal: m.normal, premier: true })
    } else {
        None
    }
}

/// Folds every machine-icon label over the flags; the first missing or
/// unrecognized label is the error.
pub open spec fn fold_machines(m: Machines, alts: Seq<Option<Seq<char>>>) -> Result<
    Machines,
    ParseErrorV,
>
    decreases alts.len(),
{
    if alts.len() == 0 {
        Ok(m)
    } else {
        match alts[0] {
            None => Err(ParseErrorV::MissingElement { what: "alt in machine-item img"@ }),
            Some(a) => match apply_machine_label(m, a) {
                None => Err(ParseErrorV::UnrecognizedValue { value: a }),
                Some(m2) => fold_machines(m2, alts.skip(1)),
            },
        }
    }
}

/// The recording or scoring flag a recognized feature label sets, applied to
/// `(rec, sco)`; `None` for any label outside the closed set.
pub open spec fn apply_feature_label(rec: Recordings, sco: Scorings, t: Seq<char>) -> Option<
    (Recordings, Scorings),
> {
    if t == "DAM★とも動画"@ {
        Some((Recordings { video: true, voice: rec.voice }, sco))
    } else if t == "DAM★とも録音"@ {
        Some((Recordings { video: rec.video, voice: true }, sco))
    } else if t == "精密採点Ai"@ {
        Some((rec, Scorings { ai: true, dx_g: sco.dx_g, dx: sco.dx }))
    } else if t == "精密採点DX-G"@ {
        Some((rec, Scorings { ai: sco.ai, dx_g: true, dx: sco.dx }))
    } else if t == "精密採点DX"@ {
        Some((rec, Scorings { ai: sco.ai, dx_g: sco.dx_g, dx: true }))
    } else {
        None
    }
}

/// Folds every feature label over the recording and scoring flags; the first
/// unrecognized label is the error.
pub open spec fn fold_features(rec: Recordings, sco: Scorings, ts: Seq<Seq<char>>) -> Result<
    (Recordings, Scorings),
    ParseErrorV,
>
    decreases ts.len(),
{
    if ts.len() == 0 {
        Ok((rec, sco))
    } else {
        match apply_feature_label(rec, sco, ts[0]) {
            None => Err(ParseErrorV::UnrecognizedValue { value: ts[0] }),
            Some(p) => fold_features(p.0, p.1, ts.skip(1)),
        }
    }
}

fn apply_machine(m: Machines, a: &str) -> (r: Option<Machines>)
    ensures
        r == apply_machine_label(m, a@),
{
    if str_eq(a, "LIVE DAM Ai") {
        Some(Machines { ai: true, studium: m.studium, normal: m.normal, premier: m.premier })
    } else if str_eq(a, "LIVE DAM STADIUM") {
        Some(Machines { ai: m.ai, studium: true, normal: m.normal, premier: m.premier })
    } else if str_eq(a, "LIVE DAM") {
        Some(Machines { ai: m.ai, studium: m.studium, normal: true, premier: m.premier })
    } else if str_eq(a, "PremierDAM") {
        Some(Machines { ai: m.ai, studium: m.studium, normal: m.normal, premier: true })
    } else {
        None
    }
}

fn apply_feature(rec: Recordings, sco: Scorings, t: &str) -> (r: Option<(Recordings, Scorings)>)
    ensures
        r == apply_feature_label(rec, sco, t@),
{
    if str_eq(t, "DAM★とも動画") {
        Some((Recordings { video: true, voice: rec.voice }, sco))
    } else if str_eq(t, "DAM★とも録音") {
        Some((Recordings { video: rec.video, voice: true }, sco))
    } else if str_eq(t, "精密採点Ai") {
        Some((rec, Scorings { ai: true, dx_g: sco.dx_g, dx: sco.dx }))
    } else if str_eq(t, "精密採点DX-G") {
        Some((rec, Scorings { ai: sco.ai, dx_g: true, dx: sco.dx }))
    } else if str_eq(t, "精密採点DX") {
        Some((rec, Scorings { ai: sco.ai, dx_g: sco.dx_g, dx: true }))
    } else {
        None
    }
}

/// Mathematical image of a per-collection flag result.
pub open spec fn machines_result_view(r: Result<Machines, ParseError>) -> Result<
    Machines,
    ParseErrorV,
> {
    match r {
        Ok(m) => Ok(m),
        Err(e) => Err(e@),
    }
}

/// Parses every machine-icon label of an item into the machine flags.
pub fn parse_machines(alts: &Vec<Option<String>>) -> (r: Result<Machines, ParseError>)
    ensures
        machines_result_view(r) == fold_machines(machines_none(), alts.deep_view()),
{
    let ghost av = alts.deep_view();
    let mut m = Machines::default();
    proof {
        assert(av.skip(0int) =~= av);
    }
    let mut i: usize = 0;
    while i < alts.len()
        invariant
            0 <= i <= alts.len(),
            av == alts.deep_view(),
            av.len() == alts.len(),
            fold_machines(machines_none(), av) == fold_machines(m, av.skip(i as int)),
        decreases alts.len() - i,
    {
        proof {
            assert(av[i as int] == alts@[i as int].deep_view());
            assert(av.skip(i as int)[0] == av[i as int]);
            assert(av.skip(i as int).skip(1) =~= av.skip(i + 1));
        }
        match &alts[i] {
            None => {
                return Err(ParseError::MissingElement {
                    what: String::from_str("alt in machine-item img"),
                });
            },
            Some(a) => {
                match apply_machine(m, a.as_str()) {
                    None => {
                        return Err(ParseError::UnrecognizedValue { value: a.clone() });
                    },
                    Some(m2) => {
                        m = m2;
                    },
                }
            },
        }
        i += 1;
    }
    proof {
        assert(av.skip(i as int) =~= Seq::<Option<Seq<char>>>::empty());
    }
    Ok(m)
}

/// Mathematical image of a feature-flags result.
pub open spec fn features_result_view(r: Result<(Recordings, Scorings), ParseError>) -> Result<
    (Recordings, Scorings),
    ParseErrorV,
> {
    match r {
        Ok(p) => Ok(p),
        Err(e) => Err(e@),
    }
}

/// Parses every feature label of an item into the recording and scoring
/// flags.
pub fn parse_features(ts: &Vec<String>) -> (r: Result<(Recordings, Scorings), ParseError>)
    ensures
        features_result_view(r) == fold_features(recordings_none(), scorings_none(),
            ts.deep_view()),
{
    let ghost tv = ts.deep_view();
    let mut rec = Recordings::default();
    let mut sco = Scorings::default();
    proof {
        assert(tv.skip(0int) =~= tv);
    }
    let mut i: usize = 0;
    while i < ts.len()
        invariant
            0 <= i <= ts.len(),
            tv == ts.deep_view(),
            tv.len() == ts.len(),
            fold_features(recordings_none(), scorings_none(), tv) == fold_features(rec, sco,
                tv.skip(i as int)),
        decreases ts.len() - i,
    {
        proof {
            assert(tv[i as int] == ts@[i as int].deep_view());
            assert(tv.skip(i as int)[0] == tv[i as int]);
            assert(tv.skip(i as int).skip(1) =~= tv.skip(i + 1));
        }
        match apply_feature(rec, sco, ts[i].as_str()) {
            None => {
                return Err(ParseError::UnrecognizedValue { value: ts[i].clone() });
            },
            Some(p) => {
                rec = p.0;
                sco = p.1;
            },
        }
        i += 1;
    }
    proof {
        assert(tv.skip(i as int) =~= Seq::<Seq<char>>::empty());
    }
    Ok((rec, sco))
}

/// What parsing one result item yields: the typed store record, or the exact
/// error. Required fields, in order: name, address, a map link whose href
/// matches the map-query pattern with two decimal-number coordinates, phone.
/// The website link is optional, but when present its href must carry a valid
/// URL. Every icon and feature label must come from the closed set.
#[verifier::opaque]
pub open spec fn item_spec(f: ItemFieldsV, pref: PrefCode, city: CityCode) -> Result<
    StoreV,
    ParseErrorV,
> {
    match f.name {
        None => Err(ParseErrorV::MissingElement { what: "store name"@ }),
        Some(name) => match f.address {
            None => Err(ParseErrorV::MissingElement { what: "address"@ }),
            Some(address) => match f.map_href {
                None => Err(ParseErrorV::MissingElement { what: "map link"@ }),
                Some(None) => Err(ParseErrorV::MissingElement { what: "href in map link"@ }),
                Some(Some(mh)) => match map_link_capture(mh) {
                    None => Err(ParseErrorV::Format { what: "map link"@, value: mh }),
                    Some((lat, lon)) => if !is_decimal_number(lat) {
                        Err(ParseErrorV::Format { what: "latitude"@, value: lat })
                    } else if !is_decimal_number(lon) {
                        Err(ParseErrorV::Format { what: "longitude"@, value: lon })
                    } else {
                        match f.phone {
                            None => Err(ParseErrorV::MissingElement {
                                what: "store telephone number"@,
                            }),
                            Some(phone) => match (match f.url_href {
                                None => Ok(None),
                                Some(None) => Err(ParseErrorV::MissingElement {
                                    what: "href in store url"@,
                                }),
                                Some(Some(u)) => match url_parse(u) {
                                    None => Err(ParseErrorV::Format {
                                        what: "store URL"@,
                                        value: u,
                                    }),
                                    Some(nu) => Ok(Some(nu)),
                                },
                            }) {
                                Err(e) => Err(e),
                                Ok(url) => match fold_machines(machines_none(),
                                    f.machine_alts) {
                                    Err(e) => Err(e),
                                    Ok(machines) => match fold_features(recordings_none(),
                                        scorings_none(), f.feature_texts) {
                                        Err(e) => Err(e),
                                        Ok(fs) => Ok(StoreV {
                                            prefecture: pref,
                                            city: city,
                                            name: name,
                                            address: address,
                                            latitude: lat,
                                            longitude: lon,
                                            phone: phone,
                                            url: url,
                                            machines: machines,
                                            recordings: fs.0,
                                            scorings: fs.1,
                                        }),
                                    },
                                },
                            },
                        }
                    },
                },
            },
        },
    }
}

/// Mathematical image of a per-item result.
pub open spec fn store_result_view(r: Result<Store, ParseError>) -> Result<StoreV, ParseErrorV> {
    match r {
        Ok(s) => Ok(s@),
        Err(e) => Err(e@),
    }
}

/// Parses one result item's raw fields into a store record, exactly as
/// `item_spec` says.
pub fn parse_item_fields(f: &ItemFields, pref: PrefCode, city: CityCode) -> (r: Result<
    Store,
    ParseError,
>)
    ensures
        store_result_view(r) == item_spec(f@, pref, city),
{
    proof {
        reveal(item_spec);
    }
    let name = match &f.name {
        None => {
            return Err(ParseError::MissingElement { what: String::from_str("store name") });
        },
        Some(s) => s.clone(),
    };
    let address = match &f.address {
        None => {
            return Err(ParseError::MissingElement { what: String::from_str("address") });
        },
        Some(s) => s.clone(),
    };
    let mh = match &f.map_href {
        None => {
            return Err(ParseError::MissingElement { what: String::from_str("map link") });
        },
        Some(inner) => match inner {
            None => {
                return Err(ParseError::MissingElement {
                    what: String::from_str("href in map link"),
                });
            },
            Some(h) => h,
        },
    };
    let (lat, lon) = match find_map_link(mh.as_str()) {
        None => {
            return Err(ParseError::Format {
                what: String::from_str("map link"),
                value: mh.clone(),
            });
        },
        Some(p) => p,
    };
    if !check_decimal_number(lat.as_str()) {
        return Err(ParseError::Format { what: String::from_str("latitude"), value: lat });
    }
    if !check_decimal_number(lon.as_str()) {
        return Err(ParseError::Format { what: String::from_str("longitude"), value: lon });
    }
    let phone = match &f.phone {
        None => {
            return Err(ParseError::MissingElement {
                what: String::from_str("store telephone number"),
            });
        },
        Some(s) => s.clone(),
    };
    let url: Option<String> = match &f.url_href {
        None => None,
        Some(inner) => match inner {
            None => {
                return Err(ParseError::MissingElement {
                    what: String::from_str("href in store url"),
                });
            },
            Some(u) => match parse_url_text(u.as_str()) {
                None => {
                    return Err(ParseError::Format {
                        what: String::from_str("store URL"),
                        value: u.clone(),
                    });
                },
                Some(nu) => Some(nu),
            },
        },
    };
    let machines = match parse_machines(&f.machine_alts) {
        Err(e) => {
            return Err(e);
        },
        Ok(m) => m,
    };
    let (recordings, scorings) = match parse_features(&f.feature_texts) {
        Err(e) => {
            return Err(e);
        },
        Ok(p) => p,
    };
    Ok(Store {
        prefecture: pref,
        city,
        name,
        address,
        latitude: lat,
        longitude: lon,
        phone,
        url,
        machines,
        recordings,
        scorings,
    })
}

/// What parsing a whole sequence of result items yields: all store records in
/// order, or the first failing item's markup, context and cause.
pub open spec fn listing_spec(items: Seq<Seq<char>>, pref: PrefCode, city: CityCode) -> Result<
    Seq<StoreV>,
    ListingErrorV,
>
    decreases items.len(),
{
    if items.len() == 0 {
        Ok(Seq::empty())
    } else {
        match item_spec(item_fields_of(items[0]), pref, city) {
            Err(e) => Err(ListingErrorV {
                fragment: items[0],
                prefecture: pref,
                city: city,
                cause: e,
            }),
            Ok(st) => match listing_spec(items.skip(1), pref, city) {
                Err(pe) => Err(pe),
                Ok(rest) => Ok(seq![st] + rest),
            },
        }
    }
}

/// Mathematical image of a whole-page result.
pub open spec fn stores_result_view(r: Result<Vec<Store>, ListingError>) -> Result<
    Seq<StoreV>,
    ListingErrorV,
> {
    match r {
        Ok(vs) => Ok(vs.deep_view()),
        Err(e) => Err(e@),
    }
}

proof fn lemma_listing_spec_err(items: Seq<Seq<char>>, pref: PrefCode, city: CityCode, i: int)
    requires
        0 <= i < items.len(),
        forall|k: int| 0 <= k < i ==> item_spec(item_fields_of(#[trigger] items[k]), pref,
            city) is Ok,
        item_spec(item_fields_of(items[i]), pref, city) is Err,
    ensures
        listing_spec(items, pref, city) == Err::<Seq<StoreV>, ListingErrorV>(ListingErrorV {
            fragment: items[i],
            prefecture: pref,
            city: city,
            cause: item_spec(item_fields_of(items[i]), pref, city)->Err_0,
        }),
    decreases i,
{
    if i == 0 {
    } else {
        assert(item_spec(item_fields_of(items[0]), pref, city) is Ok);
        let rest = items.skip(1);
        assert(forall|k: int| 0 <= k < i - 1 ==> #[trigger] rest[k] == items[k + 1]);
        lemma_listing_spec_err(rest, pref, city, i - 1);
    }
}

proof fn lemma_listing_spec_ok(items: Seq<Seq<char>>, pref: PrefCode, city: CityCode)
    requires
        forall|k: int| 0 <= k < items.len() ==> item_spec(item_fields_of(#[trigger] items[k]),
            pref, city) is Ok,
    ensures
        listing_spec(items, pref, city) == Ok::<Seq<StoreV>, ListingErrorV>(
            Seq::new(items.len(), |k: int| item_spec(item_fields_of(items[k]), pref,
                city)->Ok_0),
        ),
    decreases items.len(),
{
    let full = Seq::new(items.len(), |k: int| item_spec(item_fields_of(items[k]), pref,
        city)->Ok_0);
    if items.len() == 0 {
        assert(full =~= Seq::<StoreV>::empty());
    } else {
        let rest = items.skip(1);
        assert(forall|k: int| 0 <= k < rest.len() ==> #[trigger] rest[k] == items[k + 1]);
        lemma_listing_spec_ok(rest, pref, city);
        let st = item_spec(item_fields_of(items[0]), pref, city)->Ok_0;
        assert(seq![st] + Seq::new(rest.len(), |k: int| item_spec(item_fields_of(rest[k]),
            pref, city)->Ok_0) =~= full);
    }
}

/// What parsing a whole listing page yields, as a function of the page text.
pub open spec fn listing_page_spec(html: Seq<char>, pref: PrefCode, city: CityCode) -> Result<
    Seq<StoreV>,
    ListingErrorV,
> {
    listing_spec(item_htmls_of(html), pref, city)
}

/// Parses a (prefecture, city) listing page: every result item, in document
/// order, into a validated store record, all-or-nothing.
#[verifier::rlimit(60)]
pub fn parse_listing_page(html: &str, pref: PrefCode, city: CityCode) -> (r: Result<
    Vec<Store>,
    ListingError,
>)
    ensures
        stores_result_view(r) == listing_page_spec(html@, pref, city),
{
    let frags = extract_item_htmls(html);
    let ghost fv = frags.deep_view();
    let mut out: Vec<Store> = Vec::new();
    let mut i: usize = 0;
    while i < frags.len()
        invariant
            0 <= i <= frags.len(),
            fv == frags.deep_view(),
            fv == item_htmls_of(html@),
            fv.len() == frags.len(),
            out.deep_view().len() == i,
            forall|k: int| 0 <= k < i ==> item_spec(item_fields_of(#[trigger] fv[k]), pref,
                city) is Ok,
            forall|k: int| 0 <= k < i ==> #[trigger] out.deep_view()[k] == item_spec(
                item_fields_of(fv[k]), pref, city)->Ok_0,
        decreases frags.len() - i,
    {
        proof {
            assert(fv[i as int] == frags@[i as int].deep_view());
        }
        let fields = extract_item_fields(frags[i].as_str());
        match parse_item_fields(&fields, pref, city) {
            Err(e) => {
                proof {
                    lemma_listing_spec_err(fv, pref, city, i as int);
                }
                return Err(ListingError {
                    fragment: frags[i].clone(),
                    prefecture: pref,
                    city,
                    cause: e,
                });
            },
            Ok(st) => {
                let ghost old_dv = out.deep_view();
                out.push(st);
                proof {
                    assert(out.deep_view() =~= old_dv.push(st@));
                }
            },
        }
        i += 1;
    }
    proof {
        lemma_listing_spec_ok(fv, pref, city);
        assert(out.deep_view() =~= Seq::new(fv.len(), |k: int| item_spec(item_fields_of(fv[k]),
            pref, city)->Ok_0));
    }
    Ok(out)
}

/// Law: listing parsing is a pure function of the page text and the
/// (prefecture, city) context; parsing equal inputs twice yields equal
/// results.
pub proof fn lemma_listing_parse_pure(
    h1: Seq<char>,
    h2: Seq<char>,
    pref: PrefCode,
    city: CityCode,
)
    requires
        h1 == h2,
    ensures
        listing_page_spec(h1, pref, city) == listing_page_spec(h2, pref, city),
{
}

} // verus!
