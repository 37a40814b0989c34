//! The metric registry: named gauge families, each holding one sample per
//! label pair (location name, country code), and their exposition text.
//!
//! A registry is one explicit object that the exporter threads through each
//! scrape. A family records whether it takes decimal or whole numbers; a
//! sample is held exactly, as an integer, a count of hundredths or decimal
//! text, and `encode` writes the registry as `exposition` describes.
use vstd::prelude::*;
use vstd::string::StringExecFns;
use crate::text::{decimal_text, escaped, hundredths_text, push_decimal, push_escaped, push_hundredths};

verus! {

/// The current value of one series.
pub enum Sample {
    /// A whole number.
    Count(u64),
    /// A fraction given in hundredths: `Hundredths(57)` is 0.57.
    Hundredths(u64),
    /// A decimal number, as the text of the decoded payload number.
    Reading(String),
}

pub enum SampleView {
    Count(nat),
    Hundredths(nat),
    Reading(Seq<char>),
}

impl View for Sample {
    type V = SampleView;

    open spec fn view(&self) -> SampleView {
        match self {
            Sample::Count(n) => SampleView::Count(*n as nat),
            Sample::Hundredths(n) => SampleView::Hundredths(*n as nat),
            Sample::Reading(t) => SampleView::Reading(t@),
        }
    }
}

/// How a sample value is written in the exposition text.
pub open spec fn sample_text(v: SampleView) -> Seq<char> {
    match v {
        SampleView::Count(n) => decimal_text(n),
        SampleView::Hundredths(n) => hundredths_text(n),
        SampleView::Reading(t) => t,
    }
}

impl Sample {
    /// The value as written in the exposition text.
    pub fn to_text(&self) -> (r: String)
        ensures
            r@ == sample_text(self@),
    {
        let mut out = String::new();
        match self {
            Sample::Count(n) => push_decimal(&mut out, *n),
            Sample::Hundredths(n) => push_hundredths(&mut out, *n),
            Sample::Reading(t) => out.append(t.as_str()),
        }
        out
    }
}

/// What values a gauge family holds.
#[derive(Clone, Copy, Debug, PartialEq, Eq, Structural)]
pub enum ValueKind {
    /// Any decimal number.
    Float,
    /// Whole numbers only.
    Integer,
}

/// A gauge family: its name, help text and value kind. Its series are labelled
/// by location name and country code.
pub struct MetricFamily {
    pub name: String,
    pub help: String,
    pub kind: ValueKind,
}

/// Why a family could not be registered.
pub enum RegistrationError {
    /// A family of this name is registered already.
    Duplicate(String),
}

struct Series {
    location: String,
    country: String,
    value: Sample,
}

struct FamilyEntry {
    family: MetricFamily,
    series: Vec<Series>,
}

pub struct SeriesView {
    pub location: Seq<char>,
    pub country: Seq<char>,
    pub value: SampleView,
}

pub struct FamilyView {
    pub name: Seq<char>,
    pub help: Seq<char>,
    pub kind: ValueKind,
    pub series: Seq<SeriesView>,
}

impl Series {
    spec fn view(&self) -> SeriesView {
        SeriesView { location: self.location@, country: self.country@, value: self.value@ }
    }
}

impl FamilyEntry {
    spec fn view(&self) -> FamilyView {
        FamilyView {
            name: self.family.name@,
            help: self.family.help@,
            kind: self.family.kind,
            series: self.series@.map_values(|s: Series| s.view()),
        }
    }
}

/// The registered families, in the order they were registered.
pub struct Registry {
    families: Vec<FamilyEntry>,
}

impl View for Registry {
    type V = Seq<FamilyView>;

    closed spec fn view(&self) -> Seq<FamilyView> {
        self.families@.map_values(|e: FamilyEntry| e.view())
    }
}

pub open spec fn has_labels(s: SeriesView, location: Seq<char>, country: Seq<char>) -> bool {
    s.location == location && s.country == country
}

/// Family names are distinct, and so are the label pairs within a family.
pub open spec fn registry_wf(fams: Seq<FamilyView>) -> bool {
    &&& forall|i: int, j: int| 0 <= i < j < fams.len() ==> fams[i].name != fams[j].name
    &&& forall|k: int| 0 <= k < fams.len() ==> series_wf(#[trigger] fams[k].series)
}

pub open spec fn series_wf(s: Seq<SeriesView>) -> bool {
    forall|i: int, j: int| 0 <= i < j < s.len() ==> !has_labels(s[j], s[i].location, s[i].country)
}

pub open spec fn family_index(fams: Seq<FamilyView>, name: Seq<char>) -> Option<int> {
    if exists|i: int| 0 <= i < fams.len() && fams[i].name == name {
        Some(choose|i: int| 0 <= i < fams.len() && fams[i].name == name)
    } else {
        None
    }
}

pub open spec fn series_index(s: Seq<SeriesView>, location: Seq<char>, country: Seq<char>) -> Option<int> {
    if exists|i: int| 0 <= i < s.len() && has_labels(s[i], location, country) {
        Some(choose|i: int| 0 <= i < s.len() && has_labels(s[i], location, country))
    } else {
        None
    }
}

/// An integer family takes whole numbers only.
pub open spec fn sample_fits(fams: Seq<FamilyView>, name: Seq<char>, v: SampleView) -> bool {
    match family_index(fams, name) {
        Some(i) => fams[i].kind == ValueKind::Integer ==> v is Count,
        None => true,
    }
}

/// The series of `s` with the sample for the label pair set to `v`: updated in
/// place when the pair has one, else appended.
pub open spec fn set_series(s: Seq<SeriesView>, location: Seq<char>, country: Seq<char>, v: SampleView) -> Seq<SeriesView> {
    let entry = SeriesView { location, country, value: v };
    match series_index(s, location, country) {
        Some(j) => s.update(j, entry),
        None => s.push(entry),
    }
}

/// The registry `fams` after setting the sample of family `name` for the label
/// pair; unchanged when no family has that name.
pub open spec fn set_sample(fams: Seq<FamilyView>, name: Seq<char>, location: Seq<char>, country: Seq<char>, v: SampleView) -> Seq<FamilyView> {
    match family_index(fams, name) {
        Some(i) => fams.update(i, FamilyView { series: set_series(fams[i].series, location, country, v), ..fams[i] }),
        None => fams,
    }
}

/// The sample of family `name` for the label pair, if it has one.
pub open spec fn value_of(fams: Seq<FamilyView>, name: Seq<char>, location: Seq<char>, country: Seq<char>) -> Option<SampleView> {
    match family_index(fams, name) {
        Some(i) => match series_index(fams[i].series, location, country) {
            Some(j) => Some(fams[i].series[j].value),
            None => None,
        },
        None => None,
    }
}

fn find_series(s: &Vec<Series>, location: &str, country: &str) -> (r: Option<usize>)
    requires
        series_wf(s@.map_values(|x: Series| x.view())),
    ensures
        match r {
            Some(j) => j < s@.len() && series_index(s@.map_values(|x: Series| x.view()), location@, country@) == Some(j as int),
            None => series_index(s@.map_values(|x: Series| x.view()), location@, country@) is None,
        },
{
    let ghost sv = s@.map_values(|x: Series| x.view());
    let loc = String::from_str(location);
    let cc = String::from_str(country);
    let mut j: usize = 0;
    while j < s.len()
        invariant
            sv == s@.map_values(|x: Series| x.view()),
            series_wf(sv),
            loc@ == location@,
            cc@ == country@,
            j <= s@.len(),
            forall|k: int| 0 <= k < j ==> !has_labels(#[trigger] sv[k], location@, country@),
        decreases s@.len() - j,
    {
        if s[j].location == loc && s[j].country == cc {
            assert(has_labels(sv[j as int], location@, country@));
            let ghost k = choose|k: int| 0 <= k < sv.len() && has_labels(sv[k], location@, country@);
            assert(k == j) by {
                if k < j {
                    assert(!has_labels(sv[k], location@, country@));
                } else if k > j {
                    assert(!has_labels(sv[k], sv[j as int].location, sv[j as int].country));
                }
            }
            return Some(j);
        }
        assert(!has_labels(sv[j as int], location@, country@));
        j = j + 1;
    }
    None
}

impl Registry {
    /// A registry with no family.
    pub fn new() -> (r: Registry)
        ensures
            r@ == Seq::<FamilyView>::empty(),
    {
        let r = Registry { families: Vec::new() };
        assert(r@ =~= Seq::<FamilyView>::empty());
        r
    }

    /// The position of the family `name`.
    fn find_family(&self, name: &str) -> (r: Option<usize>)
        requires
            registry_wf(self@),
        ensures
            match r {
                Some(i) => i < self@.len() && family_index(self@, name@) == Some(i as int),
                None => family_index(self@, name@) is None,
            },
    {
        let n = String::from_str(name);
        let mut i: usize = 0;
        while i < self.families.len()
            invariant
                registry_wf(self@),
                self@.len() == self.families@.len(),
                n@ == name@,
                i <= self@.len(),
                forall|k: int| 0 <= k < i ==> (#[trigger] self@[k]).name != name@,
            decreases self@.len() - i,
        {
            if self.families[i].family.name == n {
                assert(self@[i as int].name == name@);
                let ghost k = choose|k: int| 0 <= k < self@.len() && self@[k].name == name@;
                assert(k == i) by {
                    if k < i {
                        assert(self@[k].name != name@);
                    } else if k > i {
                        assert(self@[i as int].name != self@[k].name);
                    }
                }
                return Some(i);
            }
            assert(self@[i as int].name != name@);
            i = i + 1;
        }
        None
    }

    /// Adds the family with no series. A family of the same name may be
    /// registered once only: a second attempt fails and changes nothing.
    pub fn register_family(&mut self, family: MetricFamily) -> (r: Result<(), RegistrationError>)
        requires
            registry_wf(old(self)@),
        ensures
            registry_wf(final(self)@),
            r is Err <==> family_index(old(self)@, family.name@) is Some,
            r is Err ==> final(self)@ == old(self)@,
            r is Ok ==> final(self)@ == old(self)@.push(
                FamilyView { name: family.name@, help: family.help@, kind: family.kind, series: Seq::empty() },
            ),
    {
        match self.find_family(family.name.as_str()) {
            Some(_) => Err(RegistrationError::Duplicate(family.name)),
            None => {
                let ghost before = self@;
                let ghost fv = FamilyView { name: family.name@, help: family.help@, kind: family.kind, series: Seq::empty() };
                let entry = FamilyEntry { family, series: Vec::new() };
                assert(entry.series@.map_values(|x: Series| x.view()) =~= Seq::<SeriesView>::empty());
                assert(entry.view() == fv);
                self.families.push(entry);
                assert(self@ =~= before.push(fv));
                assert forall|i: int, j: int| 0 <= i < j < self@.len() implies self@[i].name != self@[j].name by {
                    if j == before.len() {
                        assert(!(0 <= i < before.len() && before[i].name == fv.name));
                    }
                }
                assert forall|k: int| 0 <= k < self@.len() implies series_wf(#[trigger] self@[k].series) by {
                    if k < before.len() {
                        assert(series_wf(before[k].series));
                    }
                }
                Ok(())
            },
        }
    }

    /// Sets the sample of the family `family` for the label pair, creating the
    /// series on first use. Tells whether such a family is registered; when it
    /// is not, nothing changes.
    pub fn set_value(&mut self, family: &str, location: &str, country: &str, value: Sample) -> (found: bool)
        requires
            registry_wf(old(self)@),
            sample_fits(old(self)@, family@, value@),
        ensures
            registry_wf(final(self)@),
            final(self)@ == set_sample(old(self)@, family@, location@, country@, value@),
            found == (family_index(old(self)@, family@) is Some),
    {
        match self.find_family(family) {
            None => false,
            Some(i) => {
                let ghost before = self@;
                let ghost old_series = before[i as int].series;
                let ghost entry = SeriesView { location: location@, country: country@, value: value@ };
                assert(self.families@[i as int].series@.map_values(|x: Series| x.view()) == old_series);
                assert(series_wf(old_series));
                let found = find_series(&self.families[i].series, location, country);
                match found {
                    Some(j) => {
                        self.families[i].series[j].value = value;
                    },
                    None => {
                        self.families[i].series.push(
                            Series { location: String::from_str(location), country: String::from_str(country), value },
                        );
                    },
                }
                let ghost new_series = set_series(old_series, location@, country@, value@);
                assert(self.families@[i as int].series@.map_values(|x: Series| x.view()) =~= new_series);
                assert(self@ =~= before.update(i as int, FamilyView { series: new_series, ..before[i as int] }));
                assert(series_wf(new_series)) by {
                    assert forall|a: int, b: int| 0 <= a < b < new_series.len() implies !has_labels(new_series[b], new_series[a].location, new_series[a].country) by {
                        if b == old_series.len() {
                            assert(!has_labels(old_series[a], location@, country@));
                        } else if found is Some && (a == found->Some_0 || b == found->Some_0) {
                            assert(has_labels(old_series[found->Some_0 as int], location@, country@));
                        }
                    }
                }
                assert forall|k: int| 0 <= k < self@.len() implies series_wf(#[trigger] self@[k].series) by {
                    if k != i {
                        assert(series_wf(before[k].series));
                    }
                }
                assert forall|a: int, b: int| 0 <= a < b < self@.len() implies self@[a].name != self@[b].name by {
                    assert(before[a].name != before[b].name);
                }
                true
            },
        }
    }
}

/// One sample line: the family name, the labels (country first, as label
/// names sort), the value.
pub open spec fn series_line(name: Seq<char>, s: SeriesView) -> Seq<char> {
    name + "{country=\""@ + escaped(s.country, true) + "\",name=\""@ + escaped(s.location, true) + "\"} "@
        + sample_text(s.value) + "\n"@
}

pub open spec fn series_lines(name: Seq<char>, s: Seq<SeriesView>) -> Seq<char>
    decreases s.len(),
{
    if s.len() == 0 {
        seq![]
    } else {
        series_lines(name, s.drop_last()) + series_line(name, s.last())
    }
}

pub open spec fn family_header(f: FamilyView) -> Seq<char> {
    "# HELP "@ + f.name + " "@ + escaped(f.help, false) + "\n# TYPE "@ + f.name + " gauge\n"@
}

/// The exposition text of a family: its help and type lines, then one line
/// per series in the order the series were created.
pub open spec fn family_text(f: FamilyView) -> Seq<char> {
    family_header(f) + series_lines(f.name, f.series)
}

/// The exposition text of the registry: its families in registration order.
pub open spec fn exposition(fams: Seq<FamilyView>) -> Seq<char>
    decreases fams.len(),
{
    if fams.len() == 0 {
        seq![]
    } else {
        exposition(fams.drop_last()) + family_text(fams.last())
    }
}

fn push_series_line(out: &mut String, name: &str, s: &Series)
    ensures
        final(out)@ == old(out)@ + series_line(name@, s.view()),
{
    out.append(name);
    out.append("{country=\"");
    push_escaped(out, s.country.as_str(), true);
    out.append("\",name=\"");
    push_escaped(out, s.location.as_str(), true);
    out.append("\"} ");
    let v = s.value.to_text();
    out.append(v.as_str());
    out.append("\n");
    assert(final(out)@ =~= old(out)@ + series_line(name@, s.view()));
}

fn push_family(out: &mut String, e: &FamilyEntry)
    ensures
        final(out)@ == old(out)@ + family_text(e.view()),
{
    let name = e.family.name.as_str();
    out.append("# HELP ");
    out.append(name);
    out.append(" ");
    push_escaped(out, e.family.help.as_str(), false);
    out.append("\n# TYPE ");
    out.append(name);
    out.append(" gauge\n");
    let ghost start = out@;
    let ghost sv = e.series@.map_values(|x: Series| x.view());
    assert(start =~= old(out)@ + family_header(e.view()));
    let mut j: usize = 0;
    while j < e.series.len()
        invariant
            j <= e.series@.len(),
            sv == e.series@.map_values(|x: Series| x.view()),
            name@ == e.family.name@,
            out@ == start + series_lines(name@, sv.take(j as int)),
        decreases e.series@.len() - j,
    {
        assert(sv.take(j + 1).drop_last() =~= sv.take(j as int));
        push_series_line(out, name, &e.series[j]);
        assert(out@ =~= start + series_lines(name@, sv.take(j + 1)));
        j = j + 1;
    }
    assert(sv.take(j as int) =~= sv);
    assert(final(out)@ =~= old(out)@ + family_text(e.view()));
}

impl Registry {
    /// The registry in the plain-text exposition format.
    pub fn encode(&self) -> (r: String)
        ensures
            r@ == exposition(self@),
    {
        let mut out = String::new();
        let mut i: usize = 0;
        while i < self.families.len()
            invariant
                i <= self@.len(),
                self@.len() == self.families@.len(),
                out@ == exposition(self@.take(i as int)),
            decreases self@.len() - i,
        {
            assert(self@.take(i + 1).drop_last() =~= self@.take(i as int));
            push_family(&mut out, &self.families[i]);
            i = i + 1;
        }
        assert(self@.take(i as int) =~= self@);
        out
    }

    /// The exposition text of the sample of family `family` for the label pair.
    pub fn sample_text(&self, family: &str, location: &str, country: &str) -> (r: Option<String>)
        requires
            registry_wf(self@),
        ensures
            match value_of(self@, family@, location@, country@) {
                Some(v) => r matches Some(t) && t@ == sample_text(v),
                None => r is None,
            },
    {
        match self.find_family(family) {
            None => None,
            Some(i) => {
                assert(self.families@[i as int].series@.map_values(|x: Series| x.view()) == self@[i as int].series);
                match find_series(&self.families[i].series, location, country) {
                    None => None,
                    Some(j) => Some(self.families[i].series[j].value.to_text()),
                }
            },
        }
    }

    /// How many families are registered.
    pub fn family_count(&self) -> (r: usize)
        ensures
            r == self@.len(),
    {
        self.families.len()
    }
}

/// In a well-formed registry a family name is found where it stands.
pub proof fn lemma_family_index_at(fams: Seq<FamilyView>, name: Seq<char>, i: int)
    requires
        registry_wf(fams),
        0 <= i < fams.len(),
        fams[i].name == name,
    ensures
        family_index(fams, name) == Some(i),
{
    let k = choose|k: int| 0 <= k < fams.len() && fams[k].name == name;
    if k < i {
        assert(fams[k].name != fams[i].name);
    } else if k > i {
        assert(fams[i].name != fams[k].name);
    }
}

/// In a series without repeated label pairs a pair is found where it stands.
pub proof fn lemma_series_index_at(s: Seq<SeriesView>, location: Seq<char>, country: Seq<char>, j: int)
    requires
        series_wf(s),
        0 <= j < s.len(),
        has_labels(s[j], location, country),
    ensures
        series_index(s, location, country) == Some(j),
{
    let k = choose|k: int| 0 <= k < s.len() && has_labels(s[k], location, country);
    if k < j {
        assert(!has_labels(s[j], s[k].location, s[k].country));
    } else if k > j {
        assert(!has_labels(s[k], s[j].location, s[j].country));
    }
}

/// Setting a sample keeps the registry well formed and its families, by
/// name and help, where they are.
pub proof fn lemma_set_sample_wf(fams: Seq<FamilyView>, name: Seq<char>, location: Seq<char>, country: Seq<char>, v: SampleView)
    requires
        registry_wf(fams),
    ensures
        registry_wf(set_sample(fams, name, location, country, v)),
        set_sample(fams, name, location, country, v).len() == fams.len(),
        forall|k: int| 0 <= k < fams.len() ==> (#[trigger] set_sample(fams, name, location, country, v)[k]).name == fams[k].name
            && set_sample(fams, name, location, country, v)[k].help == fams[k].help
            && set_sample(fams, name, location, country, v)[k].kind == fams[k].kind,
{
    let after = set_sample(fams, name, location, country, v);
    if let Some(i) = family_index(fams, name) {
        let old_series = fams[i].series;
        let new_series = set_series(old_series, location, country, v);
        let found = series_index(old_series, location, country);
        assert(series_wf(old_series));
        assert(series_wf(new_series)) by {
            assert forall|a: int, b: int| 0 <= a < b < new_series.len() implies !has_labels(new_series[b], new_series[a].location, new_series[a].country) by {
                if b == old_series.len() {
                    assert(!has_labels(old_series[a], location, country));
                } else if found is Some && (a == found->Some_0 || b == found->Some_0) {
                    assert(has_labels(old_series[found->Some_0], location, country));
                }
            }
        }
        assert forall|k: int| 0 <= k < after.len() implies series_wf(#[trigger] after[k].series) by {
            if k != i {
                assert(series_wf(fams[k].series));
            }
        }
        assert forall|a: int, b: int| 0 <= a < b < after.len() implies after[a].name != after[b].name by {
            assert(fams[a].name != fams[b].name);
        }
    }
}

/// What a registry holds after one sample is set: that sample for its
/// family and label pair, when the family is registered; every other sample
/// as before.
pub proof fn lemma_value_after_set(
    fams: Seq<FamilyView>,
    name: Seq<char>,
    location: Seq<char>,
    country: Seq<char>,
    v: SampleView,
    name2: Seq<char>,
    location2: Seq<char>,
    country2: Seq<char>,
)
    requires
        registry_wf(fams),
    ensures
        value_of(set_sample(fams, name, location, country, v), name2, location2, country2) == (
            if name2 == name && location2 == location && country2 == country && family_index(fams, name) is Some {
                Some(v)
            } else {
                value_of(fams, name2, location2, country2)
            }),
{
    lemma_set_sample_wf(fams, name, location, country, v);
    let after = set_sample(fams, name, location, country, v);
    if let Some(i) = family_index(fams, name) {
        let old_series = fams[i].series;
        let new_series = after[i].series;
        assert(series_wf(old_series));
        assert(series_wf(new_series));
        lemma_family_index_at(after, name, i);
        if name2 == name {
            if location2 == location && country2 == country {
                let j = match series_index(old_series, location, country) {
                    Some(j) => j,
                    None => old_series.len() as int,
                };
                lemma_series_index_at(new_series, location, country, j);
            } else {
                if let Some(j) = series_index(old_series, location2, country2) {
                    lemma_series_index_at(new_series, location2, country2, j);
                } else {
                    if exists|j: int| 0 <= j < new_series.len() && has_labels(new_series[j], location2, country2) {
                        let j = choose|j: int| 0 <= j < new_series.len() && has_labels(new_series[j], location2, country2);
                        assert(j < old_series.len() && has_labels(old_series[j], location2, country2));
                    }
                }
            }
        } else {
            if let Some(k) = family_index(fams, name2) {
                lemma_family_index_at(after, name2, k);
            } else {
                if exists|k: int| 0 <= k < after.len() && after[k].name == name2 {
                    let k = choose|k: int| 0 <= k < after.len() && after[k].name == name2;
                    assert(fams[k].name == name2);
                }
            }
        }
    }
}

/// A family name is registered once only: once a family is registered, the
/// registry has a family of that name, so registering it again fails.
pub proof fn lemma_second_registration_fails(fams: Seq<FamilyView>, f: FamilyView)
    ensures
        family_index(fams.push(f), f.name) is Some,
{
    assert(fams.push(f)[fams.len() as int].name == f.name);
}

/// `part` stands somewhere in `whole`.
pub open spec fn contains_text(whole: Seq<char>, part: Seq<char>) -> bool {
    exists|k: int| 0 <= k && k + part.len() <= whole.len() && #[trigger] whole.subrange(k, k + part.len()) == part
}

proof fn lemma_contains_self(p: Seq<char>)
    ensures
        contains_text(p, p),
{
    assert(p.subrange(0, (0 + p.len()) as int) =~= p);
}

proof fn lemma_contains_in_prefix(x: Seq<char>, y: Seq<char>, p: Seq<char>)
    requires
        contains_text(x, p),
    ensures
        contains_text(x + y, p),
{
    let k = choose|k: int| 0 <= k && k + p.len() <= x.len() && #[trigger] x.subrange(k, k + p.len()) == p;
    assert((x + y).subrange(k, k + p.len()) =~= x.subrange(k, k + p.len()));
}

proof fn lemma_contains_in_suffix(x: Seq<char>, y: Seq<char>, p: Seq<char>)
    requires
        contains_text(y, p),
    ensures
        contains_text(x + y, p),
{
    let k = choose|k: int| 0 <= k && k + p.len() <= y.len() && #[trigger] y.subrange(k, k + p.len()) == p;
    assert((x + y).subrange(x.len() + k, x.len() + k + p.len()) =~= y.subrange(k, k + p.len()));
}

proof fn lemma_series_lines_show(name: Seq<char>, s: Seq<SeriesView>, j: int)
    requires
        0 <= j < s.len(),
    ensures
        contains_text(series_lines(name, s), series_line(name, s[j])),
    decreases s.len(),
{
    let line = series_line(name, s[j]);
    if j == s.len() - 1 {
        lemma_contains_self(line);
        lemma_contains_in_suffix(series_lines(name, s.drop_last()), line, line);
    } else {
        lemma_series_lines_show(name, s.drop_last(), j);
        lemma_contains_in_prefix(series_lines(name, s.drop_last()), series_line(name, s.last()), line);
    }
}

proof fn lemma_exposition_shows(fams: Seq<FamilyView>, i: int, j: int)
    requires
        0 <= i < fams.len(),
        0 <= j < fams[i].series.len(),
    ensures
        contains_text(exposition(fams), series_line(fams[i].name, fams[i].series[j])),
    decreases fams.len(),
{
    let line = series_line(fams[i].name, fams[i].series[j]);
    if i == fams.len() - 1 {
        lemma_series_lines_show(fams[i].name, fams[i].series, j);
        lemma_contains_in_suffix(family_header(fams[i]), series_lines(fams[i].name, fams[i].series), line);
        lemma_contains_in_suffix(exposition(fams.drop_last()), family_text(fams.last()), line);
    } else {
        lemma_exposition_shows(fams.drop_last(), i, j);
        lemma_contains_in_prefix(exposition(fams.drop_last()), family_text(fams.last()), line);
    }
}

/// Every sample the registry holds has its line in the exposition text.
pub proof fn lemma_exposition_shows_sample(fams: Seq<FamilyView>, name: Seq<char>, location: Seq<char>, country: Seq<char>)
    requires
        value_of(fams, name, location, country) is Some,
    ensures
        contains_text(
            exposition(fams),
            series_line(name, SeriesView { location, country, value: value_of(fams, name, location, country)->Some_0 }),
        ),
{
    let i = family_index(fams, name)->Some_0;
    let j = series_index(fams[i].series, location, country)->Some_0;
    assert(fams[i].series[j] == SeriesView { location, country, value: value_of(fams, name, location, country)->Some_0 });
    lemma_exposition_shows(fams, i, j);
}

} // verus!
