//! The boolean search expression: facet-scoped terms, combinators, and an
//! append-only sequence of criteria, together with their wire rendering.

use vstd::prelude::*;

verus! {

/// One search term, scoped to a searchable facet of an arXiv entry.
///
/// The payload text is emitted verbatim: no escaping or URL encoding is
/// applied, so any characters the transport needs encoded are the caller's
/// responsibility.
pub enum SearchField {
    Title(String),
    Author(String),
    Abstract(String),
    Comment(String),
    JournalReference(String),
    SubjectCategory(String),
    ReportNumber(String),
    All(String),
}

/// One criterion of a search expression: a term together with the boolean
/// combinator joining it to the criteria before it.
///
/// `Pure` renders with no leading operator and is the conventional tag for
/// the first criterion; a leading `And`/`Or`/`AndNot` still emits its
/// operator token with nothing before it, which the serializer deliberately
/// does not reject.
pub enum SearchCriterion {
    Pure(SearchField),
    And(SearchField),
    Or(SearchField),
    AndNot(SearchField),
}

/// An ordered sequence of criteria; order fixes the left-to-right boolean
/// evaluation performed by the remote service.
pub struct SearchCriteria(Vec<SearchCriterion>);

impl View for SearchCriteria {
    type V = Seq<SearchCriterion>;

    closed spec fn view(&self) -> Seq<SearchCriterion> {
        self.0@
    }
}

impl SearchField {
    /// The facet's fixed two- or three-letter wire token.
    pub open spec fn spec_facet_token(&self) -> Seq<char> {
        match self {
            SearchField::Title(_) => "ti"@,
            SearchField::Author(_) => "au"@,
            SearchField::Abstract(_) => "abs"@,
            SearchField::Comment(_) => "co"@,
            SearchField::JournalReference(_) => "jr"@,
            SearchField::SubjectCategory(_) => "cat"@,
            SearchField::ReportNumber(_) => "rn"@,
            SearchField::All(_) => "all"@,
        }
    }

    /// The term's free-text payload.
    pub open spec fn spec_payload(&self) -> Seq<char> {
        match self {
            SearchField::Title(s) => s@,
            SearchField::Author(s) => s@,
            SearchField::Abstract(s) => s@,
            SearchField::Comment(s) => s@,
            SearchField::JournalReference(s) => s@,
            SearchField::SubjectCategory(s) => s@,
            SearchField::ReportNumber(s) => s@,
            SearchField::All(s) => s@,
        }
    }

    /// The term's wire form: facet token, colon, then the payload verbatim.
    pub open spec fn spec_render(&self) -> Seq<char> {
        self.spec_facet_token() + ":"@ + self.spec_payload()
    }

    /// Renders the term as `<facet-token>:<payload>`.
    pub fn render(&self) -> (r: String)
        ensures
            r@ == self.spec_facet_token() + ":"@ + self.spec_payload(),
    {
        match self {
            SearchField::Title(s) => tagged("ti", s.as_str()),
            SearchField::Author(s) => tagged("au", s.as_str()),
            SearchField::Abstract(s) => tagged("abs", s.as_str()),
            SearchField::Comment(s) => tagged("co", s.as_str()),
            SearchField::JournalReference(s) => tagged("jr", s.as_str()),
            SearchField::SubjectCategory(s) => tagged("cat", s.as_str()),
            SearchField::ReportNumber(s) => tagged("rn", s.as_str()),
            SearchField::All(s) => tagged("all", s.as_str()),
        }
    }
}

/// Builds `<token>:<payload>`.
fn tagged(token: &str, payload: &str) -> (r: String)
    ensures
        r@ == token@ + ":"@ + payload@,
{
    String::from_str(token).concat(":").concat(payload)
}

impl SearchCriterion {
    /// The criterion's wire form: the combinator's operator token (nothing
    /// for `Pure`) immediately followed by the term's wire form.
    pub open spec fn spec_render(&self) -> Seq<char> {
        match self {
            SearchCriterion::Pure(f) => f.spec_render(),
            SearchCriterion::And(f) => "+AND+"@ + f.spec_render(),
            SearchCriterion::Or(f) => "+OR+"@ + f.spec_render(),
            SearchCriterion::AndNot(f) => "+ANDNOT+"@ + f.spec_render(),
        }
    }

    /// Renders the criterion: its operator token, then its term.
    pub fn render(&self) -> (r: String)
        ensures
            r@ == self.spec_render(),
    {
        match self {
            SearchCriterion::Pure(f) => f.render(),
            SearchCriterion::And(f) => {
                let t = f.render();
                String::from_str("+AND+").concat(t.as_str())
            },
            SearchCriterion::Or(f) => {
                let t = f.render();
                String::from_str("+OR+").concat(t.as_str())
            },
            SearchCriterion::AndNot(f) => {
                let t = f.render();
                String::from_str("+ANDNOT+").concat(t.as_str())
            },
        }
    }
}

/// The wire form of a criteria sequence: each criterion's rendering
/// concatenated in order, with no separator beyond the operator token each
/// criterion itself supplies.
pub open spec fn spec_criteria_text(cs: Seq<SearchCriterion>) -> Seq<char>
    decreases cs.len(),
{
    if cs.len() == 0 {
        Seq::empty()
    } else {
        spec_criteria_text(cs.drop_last()) + cs.last().spec_render()
    }
}

impl SearchCriteria {
    /// An empty criteria sequence.
    pub fn new() -> (r: Self)
        ensures
            r@ == Seq::<SearchCriterion>::empty(),
    {
        SearchCriteria(Vec::new())
    }

    /// Appends `sf` with no combinator (the conventional first criterion).
    pub fn pure(self, sf: SearchField) -> (r: Self)
        ensures
            r@ == self@.push(SearchCriterion::Pure(sf)),
    {
        let mut v = self.0;
        v.push(SearchCriterion::Pure(sf));
        SearchCriteria(v)
    }

    /// Appends `sf` joined by AND to the criteria before it.
    pub fn and(self, sf: SearchField) -> (r: Self)
        ensures
            r@ == self@.push(SearchCriterion::And(sf)),
    {
        let mut v = self.0;
        v.push(SearchCriterion::And(sf));
        SearchCriteria(v)
    }

    /// Appends `sf` joined by OR to the criteria before it.
    pub fn or(self, sf: SearchField) -> (r: Self)
        ensures
            r@ == self@.push(SearchCriterion::Or(sf)),
    {
        let mut v = self.0;
        v.push(SearchCriterion::Or(sf));
        SearchCriteria(v)
    }

    /// Appends `sf` joined by AND NOT to the criteria before it.
    pub fn and_not(self, sf: SearchField) -> (r: Self)
        ensures
            r@ == self@.push(SearchCriterion::AndNot(sf)),
    {
        let mut v = self.0;
        v.push(SearchCriterion::AndNot(sf));
        SearchCriteria(v)
    }

    /// The number of criteria appended so far.
    pub fn len(&self) -> (n: usize)
        ensures
            n == self@.len(),
    {
        self.0.len()
    }

    /// The criterion at position `i`.
    pub fn get(&self, i: usize) -> (c: &SearchCriterion)
        requires
            i < self@.len(),
        ensures
            *c == self@[i as int],
    {
        &self.0[i]
    }

    /// Renders the whole sequence: each criterion's rendering, concatenated
    /// in order.
    pub fn render(&self) -> (r: String)
        ensures
            r@ == spec_criteria_text(self@),
    {
        let mut r = String::new();
        let mut i: usize = 0;
        while i < self.0.len()
            invariant
                i <= self.0.len(),
                r@ == spec_criteria_text(self@.take(i as int)),
            decreases self.0.len() - i,
        {
            let piece = self.0[i].render();
            r.append(piece.as_str());
            proof {
                assert(self@.take(i as int + 1).drop_last() =~= self@.take(i as int));
                assert(self@.take(i as int + 1).last() == self@[i as int]);
            }
            i = i + 1;
        }
        proof {
            assert(self@.take(self@.len() as int) =~= self@);
        }
        r
    }
}

/// Treats a bare string as a one-term search over every facet: the
/// conversion yields exactly `Pure(All(s))`, the same criterion an explicit
/// `SearchCriteria::new().pure(SearchField::All(s))` appends.
impl From<String> for SearchCriterion {
    fn from(s: String) -> Self {
        SearchCriterion::Pure(SearchField::All(s))
    }
}

impl vstd::std_specs::convert::FromSpecImpl<String> for SearchCriterion {
    open spec fn obeys_from_spec() -> bool {
        true
    }

    open spec fn from_spec(s: String) -> Self {
        SearchCriterion::Pure(SearchField::All(s))
    }
}

/// The string-to-criterion conversion is structurally the criterion that the
/// explicit builder call `pure(All(s))` appends: converting a bare string
/// and building a one-term criteria sequence describe the same search.
pub proof fn lemma_conversion_is_pure_all(s: String, c: SearchCriteria)
    requires
        c@ == Seq::<SearchCriterion>::empty().push(SearchCriterion::Pure(SearchField::All(s))),
    ensures
        <SearchCriterion as vstd::std_specs::convert::FromSpec<String>>::from_spec(s)
            == SearchCriterion::Pure(SearchField::All(s)),
        c@.len() == 1,
        c@[0] == <SearchCriterion as vstd::std_specs::convert::FromSpec<String>>::from_spec(s),
{
}

} // verus!
