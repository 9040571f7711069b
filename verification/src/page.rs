//! Page scraping: a plain-value model of what the extractor reads from a
//! parsed page, trusted wrappers over the HTML parser that fill it, and
//! the verified clinic extractor.

use vstd::prelude::*;
use vstd::string::StrSliceExecFns;
use vstd::string::StringExecFns;

use crate::record::ClinicInfo;
use crate::record::ClinicInfoV;
use crate::record::classified_date;
use crate::record::classified_name;
use crate::text::join_space;
use crate::text::join_space_spec;
use crate::text::starts_with;
use crate::text::starts_with_spec;
use crate::text::trim;
use crate::text::trim_spec;

verus! {

/// The abstract value of a [`RawLabel`].
#[verifier::ext_equal]
pub struct RawLabelV {
    pub texts: Seq<Seq<char>>,
    pub parent_texts: Seq<Seq<char>>,
}

/// One bold label found inside a clinic element's paragraphs: the text
/// nodes under the label itself, and the text nodes of the paragraph the
/// label sits in.
pub struct RawLabel {
    pub texts: Vec<String>,
    pub parent_texts: Vec<String>,
}

impl View for RawLabel {
    type V = RawLabelV;

    open spec fn view(&self) -> RawLabelV {
        RawLabelV { texts: self.texts.deep_view(), parent_texts: self.parent_texts.deep_view() }
    }
}

impl DeepView for RawLabel {
    type V = RawLabelV;

    open spec fn deep_view(&self) -> RawLabelV {
        self.view()
    }
}

/// The abstract value of a [`RawClinic`].
#[verifier::ext_equal]
pub struct RawClinicV {
    pub name_texts: Seq<Seq<char>>,
    pub labels: Seq<RawLabelV>,
    pub hrefs: Seq<Option<Seq<char>>>,
}

/// What the extractor reads from one clinic container element: the text
/// nodes of its first paragraph, every bold label with its surrounding
/// paragraph text, and the `href` attribute of every anchor inside a
/// paragraph, all in document order.
pub struct RawClinic {
    pub name_texts: Vec<String>,
    pub labels: Vec<RawLabel>,
    pub hrefs: Vec<Option<String>>,
}

impl View for RawClinic {
    type V = RawClinicV;

    open spec fn view(&self) -> RawClinicV {
        RawClinicV {
            name_texts: self.name_texts.deep_view(),
            labels: self.labels.deep_view(),
            hrefs: self.hrefs.deep_view(),
        }
    }
}

impl DeepView for RawClinic {
    type V = RawClinicV;

    open spec fn deep_view(&self) -> RawClinicV {
        self.view()
    }
}

/// The first text node of the `head > title` element of the parsed page,
/// if the page has one.
pub uninterp spec fn page_title(html: Seq<char>) -> Option<Seq<char>>;

/// The first text node of the waiting-room summary heading of the parsed
/// page, if the page has one.
pub uninterp spec fn page_summary(html: Seq<char>) -> Option<Seq<char>>;

/// What each clinic container element of the parsed page holds, in
/// document order.
pub uninterp spec fn page_clinics(html: Seq<char>) -> Seq<RawClinicV>;

/// Relies on scraper's `Html::parse_document` and CSS selection with
/// `head > title`: returns the first text node of the title element.
/// Parsing is deterministic, so the result is a function of the page text.
#[verifier::external_body]
pub(crate) fn scrape_title(html: &str) -> (r: Option<String>)
    ensures
        r.deep_view() == page_title(html@),
{
    let doc = scraper::Html::parse_document(html);
    let sel = scraper::Selector::parse("head > title").unwrap();
    doc.select(&sel).next().and_then(|e| e.text().next()).map(|t| t.to_string())
}

/// Relies on scraper's `Html::parse_document` and CSS selection with the
/// fixed waiting-room summary path: returns the first text node of the
/// summary heading. Parsing is deterministic, so the result is a function
/// of the page text.
#[verifier::external_body]
pub(crate) fn scrape_summary(html: &str) -> (r: Option<String>)
    ensures
        r.deep_view() == page_summary(html@),
{
    let doc = scraper::Html::parse_document(html);
    let sel = scraper::Selector::parse(
        "#wrapper > main > div > section > section:nth-child(2) > h2",
    ).unwrap();
    doc.select(&sel).next().and_then(|e| e.text().next()).map(|t| t.to_string())
}

/// Relies on scraper's `Html::parse_document` and CSS selection with the
/// fixed clinic container path: returns how many clinic container elements
/// the page holds. Parsing is deterministic, so the result is a function
/// of the page text.
#[verifier::external_body]
pub(crate) fn scrape_clinic_count(html: &str) -> (r: usize)
    ensures
        r == page_clinics(html@).len(),
{
    let doc = scraper::Html::parse_document(html);
    let csel = scraper::Selector::parse(
        "body > div.main-container > div.mt-24.border-t.border-gray-200 > div.md\\:flex > div.md\\:flex-shrink",
    ).unwrap();
    doc.select(&csel).count()
}

/// Relies on scraper's `Html::parse_document`, CSS selection with the
/// fixed clinic container path and `p`, and `ElementRef::text`: returns
/// the text nodes of the first paragraph of clinic container `i`, in
/// order. Parsing is deterministic, so the result is a function of the
/// page text.
#[verifier::external_body]
pub(crate) fn scrape_name_texts(html: &str, i: usize) -> (r: Vec<String>)
    requires
        i < page_clinics(html@).len(),
    ensures
        r.deep_view() == page_clinics(html@)[i as int].name_texts,
{
    let doc = scraper::Html::parse_document(html);
    let csel = scraper::Selector::parse(
        "body > div.main-container > div.mt-24.border-t.border-gray-200 > div.md\\:flex > div.md\\:flex-shrink",
    ).unwrap();
    let el = doc.select(&csel).nth(i).unwrap();
    let psel = scraper::Selector::parse("p").unwrap();
    el.select(&psel).next().map(|p| p.text().map(|t| t.to_string()).collect()).unwrap_or_default()
}

/// Relies on scraper's `Html::parse_document`, CSS selection with the
/// fixed clinic container path and `p > strong`, `ElementRef::text`, and
/// `ego_tree`'s parent node: returns, for each bold label of clinic
/// container `i` in document order, the label's own text nodes and the
/// text nodes of the paragraph it sits in. Parsing is deterministic, so
/// the result is a function of the page text.
#[verifier::external_body]
pub(crate) fn scrape_labels(html: &str, i: usize) -> (r: Vec<RawLabel>)
    requires
        i < page_clinics(html@).len(),
    ensures
        r.deep_view() == page_clinics(html@)[i as int].labels,
{
    let doc = scraper::Html::parse_document(html);
    let csel = scraper::Selector::parse(
        "body > div.main-container > div.mt-24.border-t.border-gray-200 > div.md\\:flex > div.md\\:flex-shrink",
    ).unwrap();
    let el = doc.select(&csel).nth(i).unwrap();
    let ssel = scraper::Selector::parse("p > strong").unwrap();
    el.select(&ssel).map(|l| RawLabel {
        texts: l.text().map(|t| t.to_string()).collect(),
        parent_texts: l.parent().and_then(scraper::ElementRef::wrap).map(|p| p.text().map(|t| t.to_string()).collect()).unwrap_or_default(),
    }).collect()
}

/// Relies on scraper's `Html::parse_document`, CSS selection with the
/// fixed clinic container path and `p > a`, and `ElementRef::attr`:
/// returns the `href` attribute of each paragraph anchor of clinic
/// container `i`, in document order. Parsing is deterministic, so the
/// result is a function of the page text.
#[verifier::external_body]
pub(crate) fn scrape_hrefs(html: &str, i: usize) -> (r: Vec<Option<String>>)
    requires
        i < page_clinics(html@).len(),
    ensures
        r.deep_view() == page_clinics(html@)[i as int].hrefs,
{
    let doc = scraper::Html::parse_document(html);
    let csel = scraper::Selector::parse(
        "body > div.main-container > div.mt-24.border-t.border-gray-200 > div.md\\:flex > div.md\\:flex-shrink",
    ).unwrap();
    let el = doc.select(&csel).nth(i).unwrap();
    let asel = scraper::Selector::parse("p > a").unwrap();
    el.select(&asel).map(|a| a.attr("href").map(|h| h.to_string())).collect()
}

/// The availability text yielded by a sequence of labels: the trimmed
/// second paragraph text node of the first label whose own text starts
/// with `Available Appointments` and whose paragraph has a second text
/// node.
pub open spec fn spec_availability(labels: Seq<RawLabelV>) -> Option<Seq<char>>
    decreases labels.len(),
{
    if labels.len() == 0 {
        None
    } else {
        let l = labels.first();
        if starts_with_spec(join_space_spec(l.texts), "Available Appointments"@)
            && l.parent_texts.len() >= 2 {
            Some(trim_spec(l.parent_texts[1]))
        } else {
            spec_availability(labels.drop_first())
        }
    }
}

/// The registration link yielded by a sequence of anchors: the base URL
/// followed by the last `href` present, later anchors overriding earlier
/// ones.
pub open spec fn spec_registration(hrefs: Seq<Option<Seq<char>>>, base: Seq<char>) -> Option<
    Seq<char>,
>
    decreases hrefs.len(),
{
    if hrefs.len() == 0 {
        None
    } else {
        match hrefs.last() {
            Some(h) => Some(base + h),
            None => spec_registration(hrefs.drop_last(), base),
        }
    }
}

/// The record extracted from one clinic element: none when the first
/// paragraph yields no text or only whitespace, otherwise a record built
/// from the trimmed, classified name, the availability text, and the
/// resolved registration link.
pub open spec fn spec_extract_clinic(c: RawClinicV, base: Seq<char>) -> Option<ClinicInfoV> {
    if c.name_texts.len() == 0 {
        None
    } else {
        let name = trim_spec(c.name_texts[0]);
        if name.len() == 0 {
            None
        } else {
            Some(
                ClinicInfoV {
                    name: classified_name(name),
                    date: classified_date(name),
                    availability: spec_availability(c.labels),
                    clinic_id: None,
                    registration_url: spec_registration(c.hrefs, base),
                },
            )
        }
    }
}

/// The records extracted from a sequence of clinic elements, in order,
/// skipping elements that yield none.
pub open spec fn spec_extract_page(cs: Seq<RawClinicV>, base: Seq<char>) -> Seq<ClinicInfoV>
    decreases cs.len(),
{
    if cs.len() == 0 {
        Seq::empty()
    } else {
        spec_extract_page(cs.drop_last(), base) + match spec_extract_clinic(cs.last(), base) {
            Some(c) => seq![c],
            None => Seq::<ClinicInfoV>::empty(),
        }
    }
}

/// Extracts the record of one clinic element, or none when the element
/// yields no usable name.
pub fn extract_clinic(c: &RawClinic, base: &str) -> (r: Option<ClinicInfo>)
    ensures
        r.deep_view() == spec_extract_clinic(c@, base@),
{
    if c.name_texts.len() == 0 {
        return None;
    }
    let name = trim(c.name_texts[0].as_str());
    if name.as_str().is_empty() {
        return None;
    }
    let mut availability: Option<String> = None;
    let mut i: usize = 0;
    proof {
        assert(c@.labels.subrange(0, c.labels.len() as int) =~= c@.labels);
    }
    while i < c.labels.len()
        invariant
            0 <= i <= c.labels.len(),
            match availability.deep_view() {
                None => spec_availability(c@.labels) == spec_availability(
                    c@.labels.subrange(i as int, c.labels.len() as int),
                ),
                Some(a) => spec_availability(c@.labels) == Some(a),
            },
        decreases c.labels.len() - i,
    {
        let ghost rest = c@.labels.subrange(i as int, c.labels.len() as int);
        let l = &c.labels[i];
        let joined = join_space(&l.texts);
        if availability.is_none() && starts_with(joined.as_str(), "Available Appointments")
            && l.parent_texts.len() >= 2 {
            availability = Some(trim(l.parent_texts[1].as_str()));
        }
        proof {
            assert(rest.first() == c.labels@[i as int]@);
            assert(rest.drop_first() =~= c@.labels.subrange(i + 1, c.labels.len() as int));
        }
        i += 1;
    }
    let mut registration_url: Option<String> = None;
    let mut j: usize = 0;
    while j < c.hrefs.len()
        invariant
            0 <= j <= c.hrefs.len(),
            registration_url.deep_view() == spec_registration(
                c@.hrefs.subrange(0, j as int),
                base@,
            ),
        decreases c.hrefs.len() - j,
    {
        match &c.hrefs[j] {
            Some(h) => {
                let mut url = String::from_str(base);
                url.append(h.as_str());
                registration_url = Some(url);
            },
            None => {},
        }
        proof {
            let pre = c@.hrefs.subrange(0, j as int);
            let cur = c@.hrefs.subrange(0, j + 1);
            assert(cur.drop_last() =~= pre);
            assert(cur.last() == c.hrefs@[j as int].deep_view());
        }
        j += 1;
    }
    proof {
        assert(c@.hrefs.subrange(0, c.hrefs.len() as int) =~= c@.hrefs);
    }
    let record = ClinicInfo::new(
        name.as_str(),
        match &availability {
            Some(a) => Some(a.as_str()),
            None => None,
        },
        None,
        match &registration_url {
            Some(u) => Some(u.as_str()),
            None => None,
        },
    );
    Some(record)
}

/// Extracts every clinic record of one page, in document order.
pub fn extract_page(html: &str, base: &str) -> (r: Vec<ClinicInfo>)
    ensures
        r.deep_view() == spec_extract_page(page_clinics(html@), base@),
{
    let n = scrape_clinic_count(html);
    let mut r: Vec<ClinicInfo> = Vec::new();
    let mut i: usize = 0;
    while i < n
        invariant
            0 <= i <= n == page_clinics(html@).len(),
            r.deep_view() == spec_extract_page(page_clinics(html@).subrange(0, i as int), base@),
        decreases n - i,
    {
        let raw = RawClinic {
            name_texts: scrape_name_texts(html, i),
            labels: scrape_labels(html, i),
            hrefs: scrape_hrefs(html, i),
        };
        proof {
            assert(raw@ =~= page_clinics(html@)[i as int]);
        }
        let extracted = extract_clinic(&raw, base);
        match extracted {
            Some(c) => {
                r.push(c);
            },
            None => {},
        }
        proof {
            let pre = page_clinics(html@).subrange(0, i as int);
            let cur = page_clinics(html@).subrange(0, i + 1);
            assert(cur.drop_last() =~= pre);
            assert(cur.last() == page_clinics(html@)[i as int]);
            assert(r.deep_view() =~= spec_extract_page(cur, base@));
        }
        i += 1;
    }
    proof {
        assert(page_clinics(html@).subrange(0, n as int) =~= page_clinics(html@));
    }
    r
}

/// The indices of the clinic elements that yield no record — those whose
/// first paragraph has no text or only whitespace — in document order.
pub open spec fn spec_skipped(cs: Seq<RawClinicV>, base: Seq<char>) -> Seq<int>
    decreases cs.len(),
{
    if cs.len() == 0 {
        Seq::empty()
    } else {
        spec_skipped(cs.drop_last(), base) + if spec_extract_clinic(cs.last(), base) is None {
            seq![cs.len() - 1]
        } else {
            Seq::<int>::empty()
        }
    }
}

/// Lists the clinic elements of one page that were skipped for want of a
/// usable name, so that a caller can warn about each: the page structure
/// has likely changed in an unexpected way.
pub fn skipped_elements(html: &str, base: &str) -> (r: Vec<usize>)
    ensures
        r@.map_values(|x: usize| x as int) == spec_skipped(page_clinics(html@), base@),
{
    let n = scrape_clinic_count(html);
    let mut r: Vec<usize> = Vec::new();
    let mut i: usize = 0;
    while i < n
        invariant
            0 <= i <= n == page_clinics(html@).len(),
            r@.map_values(|x: usize| x as int) == spec_skipped(
                page_clinics(html@).subrange(0, i as int),
                base@,
            ),
        decreases n - i,
    {
        let raw = RawClinic {
            name_texts: scrape_name_texts(html, i),
            labels: scrape_labels(html, i),
            hrefs: scrape_hrefs(html, i),
        };
        proof {
            assert(raw@ =~= page_clinics(html@)[i as int]);
        }
        let extracted = extract_clinic(&raw, base);
        match extracted {
            Some(_) => {},
            None => {
                r.push(i);
            },
        }
        proof {
            let pre = page_clinics(html@).subrange(0, i as int);
            let cur = page_clinics(html@).subrange(0, i + 1);
            assert(cur.drop_last() =~= pre);
            assert(cur.last() == page_clinics(html@)[i as int]);
            assert(r@.map_values(|x: usize| x as int) =~= spec_skipped(cur, base@));
        }
        i += 1;
    }
    proof {
        assert(page_clinics(html@).subrange(0, n as int) =~= page_clinics(html@));
    }
    r
}

/// Extraction is deterministic and idempotent: two extractions from the
/// same page text yield identical record sequences, because each result is
/// pinned to a function of the page text alone.
pub proof fn lemma_extraction_deterministic(
    a: Seq<ClinicInfoV>,
    b: Seq<ClinicInfoV>,
    html_a: Seq<char>,
    html_b: Seq<char>,
    base: Seq<char>,
)
    requires
        html_a == html_b,
        a == spec_extract_page(page_clinics(html_a), base),
        b == spec_extract_page(page_clinics(html_b), base),
    ensures
        a == b,
{
}

} // verus!
