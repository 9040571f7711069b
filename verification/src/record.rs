//! Clinic records: the scraped fields of one clinic, the name/date
//! classifier, the availability test, and the per-record report lines.

use vstd::prelude::*;
use vstd::string::StrSliceExecFns;
use vstd::string::StringExecFns;

use crate::text::str_eq;

verus! {

/// The abstract value of a [`ClinicInfo`]: every field as a character
/// sequence.
pub struct ClinicInfoV {
    pub name: Seq<char>,
    pub date: Option<Seq<char>>,
    pub availability: Option<Seq<char>>,
    pub clinic_id: Option<Seq<char>>,
    pub registration_url: Option<Seq<char>>,
}

/// One scraped clinic: its name, an optional date split out of the name,
/// the availability count as scraped text, an identifier reserved for
/// future use, and an optional absolute registration link.
pub struct ClinicInfo {
    pub name: String,
    pub date: Option<String>,
    pub availability: Option<String>,
    pub clinic_id: Option<String>,
    pub registration_url: Option<String>,
}

impl View for ClinicInfo {
    type V = ClinicInfoV;

    open spec fn view(&self) -> ClinicInfoV {
        ClinicInfoV {
            name: self.name@,
            date: self.date.deep_view(),
            availability: self.availability.deep_view(),
            clinic_id: self.clinic_id.deep_view(),
            registration_url: self.registration_url.deep_view(),
        }
    }
}

impl DeepView for ClinicInfo {
    type V = ClinicInfoV;

    open spec fn deep_view(&self) -> ClinicInfoV {
        self.view()
    }
}

/// True when a scraped availability text denotes open appointments:
/// the text is present and is not the literal "0".
pub open spec fn spec_has_availability(availability: Option<Seq<char>>) -> bool {
    match availability {
        Some(a) => a != "0"@,
        None => false,
    }
}

/// An ASCII decimal digit. The site renders its `MM/DD/YYYY` dates with
/// ASCII digits, and this reading of the date pattern is deliberate: a
/// date written with other decimal digit characters is not split out.
pub open spec fn is_digit(c: char) -> bool {
    '0' <= c && c <= '9'
}

fn is_digit_exec(c: char) -> (r: bool)
    ensures
        r == is_digit(c),
{
    '0' <= c && c <= '9'
}

/// Ten characters in the shape `MM/DD/YYYY`: ASCII digits with slashes at
/// the third and sixth position (see [`is_digit`]).
pub open spec fn date_shaped(s: Seq<char>) -> bool {
    &&& s.len() == 10
    &&& is_digit(s[0]) && is_digit(s[1]) && s[2] == '/' && is_digit(s[3]) && is_digit(s[4])
    &&& s[5] == '/' && is_digit(s[6]) && is_digit(s[7]) && is_digit(s[8]) && is_digit(s[9])
}

/// True when `s` has the shape `<name> on <MM/DD/YYYY>`: the fourteen
/// trailing characters are ` on ` plus a date at the very end, and the
/// name prefix holds no newline — the name part of the pattern does not
/// cross lines.
pub open spec fn name_date_split(s: Seq<char>) -> bool {
    &&& s.len() >= 14
    &&& forall|k: int| 0 <= k < s.len() - 14 ==> s[k] != '\n'
    &&& s[s.len() - 14] == ' ' && s[s.len() - 13] == 'o' && s[s.len() - 12] == 'n' && s[s.len()
        - 11] == ' '
    &&& date_shaped(s.subrange(s.len() - 10, s.len() as int))
}

/// The name part of a scraped name string: the prefix before ` on <date>`
/// when the pattern matches, the whole string otherwise.
pub open spec fn classified_name(s: Seq<char>) -> Seq<char> {
    if name_date_split(s) {
        s.subrange(0, s.len() - 14)
    } else {
        s
    }
}

/// The date part of a scraped name string: the trailing `MM/DD/YYYY` when
/// the pattern matches, absent otherwise.
pub open spec fn classified_date(s: Seq<char>) -> Option<Seq<char>> {
    if name_date_split(s) {
        Some(s.subrange(s.len() - 10, s.len() as int))
    } else {
        None
    }
}

/// Classifying a name string and reassembling `name` + ` on ` + `date`
/// reproduces the input string exactly; a string without the pattern
/// keeps its full text as the name and carries no date.
pub proof fn lemma_classify_round_trip(s: Seq<char>)
    ensures
        name_date_split(s) ==> classified_name(s) + " on "@ + classified_date(s)->Some_0 == s,
        !name_date_split(s) ==> classified_name(s) == s && classified_date(s) is None,
{
    if name_date_split(s) {
        reveal_strlit(" on ");
        assert(" on "@ =~= seq![' ', 'o', 'n', ' ']);
        assert(classified_name(s) + " on "@ + classified_date(s)->Some_0 =~= s);
    }
}

fn classify_matches(s: &str, n: usize) -> (r: bool)
    requires
        n == s@.len(),
    ensures
        r == name_date_split(s@),
{
    if n < 14 {
        return false;
    }
    let gap = s.get_char(n - 14) == ' ' && s.get_char(n - 13) == 'o' && s.get_char(n - 12) == 'n'
        && s.get_char(n - 11) == ' ';
    if !gap {
        return false;
    }
    let date_ok = is_digit_exec(s.get_char(n - 10)) && is_digit_exec(s.get_char(n - 9))
        && s.get_char(n - 8) == '/' && is_digit_exec(s.get_char(n - 7)) && is_digit_exec(
        s.get_char(n - 6),
    ) && s.get_char(n - 5) == '/' && is_digit_exec(s.get_char(n - 4)) && is_digit_exec(
        s.get_char(n - 3),
    ) && is_digit_exec(s.get_char(n - 2)) && is_digit_exec(s.get_char(n - 1));
    proof {
        let d = s@.subrange(s@.len() - 10, s@.len() as int);
        assert(forall|k: int| 0 <= k < 10 ==> d[k] == s@[s@.len() - 10 + k]);
    }
    if !date_ok {
        return false;
    }
    let mut i: usize = 0;
    while i < n - 14
        invariant
            0 <= i <= n - 14,
            n == s@.len() >= 14,
            forall|k: int| 0 <= k < i ==> s@[k] != '\n',
        decreases n - 14 - i,
    {
        if s.get_char(i) == '\n' {
            return false;
        }
        i += 1;
    }
    true
}

impl ClinicInfo {
    /// Builds a record from the scraped fields, splitting a trailing
    /// ` on MM/DD/YYYY` out of the name string when present.
    pub fn new(
        name_and_date_str: &str,
        availability: Option<&str>,
        clinic_id: Option<&str>,
        registration_url: Option<&str>,
    ) -> (r: ClinicInfo)
        ensures
            r@.name == classified_name(name_and_date_str@),
            r@.date == classified_date(name_and_date_str@),
            r@.availability == availability.deep_view(),
            r@.clinic_id == clinic_id.deep_view(),
            r@.registration_url == registration_url.deep_view(),
    {
        let n = name_and_date_str.unicode_len();
        let name: String;
        let date: Option<String>;
        if classify_matches(name_and_date_str, n) {
            name = String::from_str(name_and_date_str.substring_char(0, n - 14));
            date = Some(String::from_str(name_and_date_str.substring_char(n - 10, n)));
        } else {
            name = String::from_str(name_and_date_str);
            date = None;
        }
        ClinicInfo {
            name,
            date,
            availability: match availability {
                Some(a) => Some(String::from_str(a)),
                None => None,
            },
            clinic_id: match clinic_id {
                Some(c) => Some(String::from_str(c)),
                None => None,
            },
            registration_url: match registration_url {
                Some(u) => Some(String::from_str(u)),
                None => None,
            },
        }
    }

    /// True when the record's availability text is present and not "0".
    pub fn has_availability(&self) -> (r: bool)
        ensures
            r == spec_has_availability(self@.availability),
    {
        match &self.availability {
            Some(a) => !str_eq(a.as_str(), "0"),
            None => false,
        }
    }

    /// Renders the name, with ` on <date>` appended when a date is present.
    pub fn name_and_date(&self) -> (r: String)
        ensures
            r@ == spec_name_and_date(self@),
    {
        match &self.date {
            Some(d) => {
                let mut r = self.name.clone();
                r.append(" on ");
                r.append(d.as_str());
                r
            },
            None => self.name.clone(),
        }
    }

    /// The report lines for this record: an availability line, the
    /// registration link when present, and a blank separator, for a record
    /// with availability; a single no-availability line when `all` asks for
    /// records without availability; nothing otherwise.
    pub fn report_lines(&self, all: bool) -> (r: Vec<String>)
        ensures
            r.deep_view() == spec_report_lines(self@, all),
    {
        let mut r: Vec<String> = Vec::new();
        if self.has_availability() {
            match &self.availability {
                Some(avail) => {
                    let mut line = self.name_and_date();
                    line.append(" has ");
                    line.append(avail.as_str());
                    line.append(" available");
                    r.push(line);
                },
                None => {
                    proof {
                        assert(false);
                    }
                },
            }
            match &self.registration_url {
                Some(url) => {
                    let mut line = String::from_str("Register at ");
                    line.append(url.as_str());
                    r.push(line);
                },
                None => {},
            }
            r.push(String::new());
        } else if all {
            let mut line = self.name_and_date();
            line.append(" has no availability");
            r.push(line);
        }
        proof {
            assert(r.deep_view() =~= spec_report_lines(self@, all));
        }
        r
    }
}

/// The name text with ` on <date>` appended when the record has a date.
pub open spec fn spec_name_and_date(c: ClinicInfoV) -> Seq<char> {
    match c.date {
        Some(d) => c.name + " on "@ + d,
        None => c.name,
    }
}

/// The report lines of one record, in order.
pub open spec fn spec_report_lines(c: ClinicInfoV, all: bool) -> Seq<Seq<char>> {
    if spec_has_availability(c.availability) {
        let first = seq![spec_name_and_date(c) + " has "@ + c.availability->Some_0 + " available"@];
        let reg = match c.registration_url {
            Some(u) => seq!["Register at "@ + u],
            None => Seq::<Seq<char>>::empty(),
        };
        first + reg + seq![Seq::<char>::empty()]
    } else if all {
        seq![spec_name_and_date(c) + " has no availability"@]
    } else {
        Seq::<Seq<char>>::empty()
    }
}

} // verus!
