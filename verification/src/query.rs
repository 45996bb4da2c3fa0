//! The full request descriptor and its serialization to the arXiv export
//! API's URL form.

use vstd::prelude::*;

use crate::search::SearchCriteria;
use crate::search::spec_criteria_text;
use crate::text::decimal_string;
use crate::text::join_with;
use crate::text::spec_decimal;
use crate::text::spec_join;

verus! {

/// The entry attribute the service sorts results by.
pub enum SortBy {
    Relevance,
    LastUpdatedDate,
    SubmittedDate,
}

/// The direction results are sorted in.
pub enum SortOrder {
    Ascending,
    Descending,
}

impl SortBy {
    /// The directive's fixed wire token.
    pub open spec fn spec_render(&self) -> Seq<char> {
        match self {
            SortBy::Relevance => "relevance"@,
            SortBy::LastUpdatedDate => "lastUpdatedDate"@,
            SortBy::SubmittedDate => "submittedDate"@,
        }
    }

    /// Renders the directive's wire token.
    pub fn render(&self) -> (r: String)
        ensures
            r@ == self.spec_render(),
    {
        match self {
            SortBy::Relevance => String::from_str("relevance"),
            SortBy::LastUpdatedDate => String::from_str("lastUpdatedDate"),
            SortBy::SubmittedDate => String::from_str("submittedDate"),
        }
    }
}

impl SortOrder {
    /// The direction's fixed wire token.
    pub open spec fn spec_render(&self) -> Seq<char> {
        match self {
            SortOrder::Ascending => "ascending"@,
            SortOrder::Descending => "descending"@,
        }
    }

    /// Renders the direction's wire token.
    pub fn render(&self) -> (r: String)
        ensures
            r@ == self.spec_render(),
    {
        match self {
            SortOrder::Ascending => String::from_str("ascending"),
            SortOrder::Descending => String::from_str("descending"),
        }
    }
}

/// The complete request descriptor. Every field is optional and an unset
/// field is simply omitted from the rendered URL.
pub struct Query {
    pub search_query: Option<SearchCriteria>,
    pub id_list: Option<Vec<String>>,
    pub start: Option<usize>,
    pub max_results: Option<usize>,
    pub sort_by: Option<SortBy>,
    pub sort_order: Option<SortOrder>,
}

/// A query is sent to the fixed export endpoint.
pub open spec fn spec_base_url() -> Seq<char> {
    "https://export.arxiv.org/api/query?"@
}

impl Query {
    /// The rendered parameters that are present, in the fixed wire order:
    /// `search_query`, `id_list`, `start`, `max_results`, `sortBy`,
    /// `sortOrder`; an unset field contributes nothing.
    pub open spec fn spec_params(&self) -> Seq<Seq<char>> {
        (match self.search_query {
            Some(sc) => seq!["search_query="@ + spec_criteria_text(sc@)],
            None => Seq::<Seq<char>>::empty(),
        }) + (match self.id_list {
            Some(ids) => seq!["id_list="@ + spec_join(ids.deep_view(), ","@)],
            None => Seq::<Seq<char>>::empty(),
        }) + (match self.start {
            Some(n) => seq!["start="@ + spec_decimal(n as nat)],
            None => Seq::<Seq<char>>::empty(),
        }) + (match self.max_results {
            Some(n) => seq!["max_results="@ + spec_decimal(n as nat)],
            None => Seq::<Seq<char>>::empty(),
        }) + (match self.sort_by {
            Some(sb) => seq!["sortBy="@ + sb.spec_render()],
            None => Seq::<Seq<char>>::empty(),
        }) + (match self.sort_order {
            Some(so) => seq!["sortOrder="@ + so.spec_render()],
            None => Seq::<Seq<char>>::empty(),
        })
    }

    /// The full URL: the fixed endpoint, then the present parameters joined
    /// by `&`.
    pub open spec fn spec_url(&self) -> Seq<char> {
        spec_base_url() + spec_join(self.spec_params(), "&"@)
    }

    /// Renders the query as the full request URL.
    #[verifier::rlimit(50)]
    pub fn render(&self) -> (r: String)
        ensures
            r@ == self.spec_url(),
    {
        let ghost mut emitted: Seq<Seq<char>> = Seq::empty();
        let mut parts: Vec<String> = Vec::new();
        if let Some(sc) = &self.search_query {
            let t = sc.render();
            parts.push(String::from_str("search_query=").concat(t.as_str()));
        }
        proof {
            emitted = emitted + (match &self.search_query {
                Some(sc) => seq!["search_query="@ + spec_criteria_text(sc@)],
                None => Seq::<Seq<char>>::empty(),
            });
            assert(parts.deep_view() =~~= emitted);
        }
        if let Some(ids) = &self.id_list {
            let t = join_with(ids, ",");
            parts.push(String::from_str("id_list=").concat(t.as_str()));
        }
        proof {
            emitted = emitted + (match &self.id_list {
                Some(ids) => seq!["id_list="@ + spec_join(ids.deep_view(), ","@)],
                None => Seq::<Seq<char>>::empty(),
            });
            assert(parts.deep_view() =~~= emitted);
        }
        if let Some(n) = self.start {
            let t = decimal_string(n);
            parts.push(String::from_str("start=").concat(t.as_str()));
        }
        proof {
            emitted = emitted + (match self.start {
                Some(n) => seq!["start="@ + spec_decimal(n as nat)],
                None => Seq::<Seq<char>>::empty(),
            });
            assert(parts.deep_view() =~~= emitted);
        }
        if let Some(n) = self.max_results {
            let t = decimal_string(n);
            parts.push(String::from_str("max_results=").concat(t.as_str()));
        }
        proof {
            emitted = emitted + (match self.max_results {
                Some(n) => seq!["max_results="@ + spec_decimal(n as nat)],
                None => Seq::<Seq<char>>::empty(),
            });
            assert(parts.deep_view() =~~= emitted);
        }
        if let Some(sb) = &self.sort_by {
            let t = sb.render();
            parts.push(String::from_str("sortBy=").concat(t.as_str()));
        }
        proof {
            emitted = emitted + (match &self.sort_by {
                Some(sb) => seq!["sortBy="@ + sb.spec_render()],
                None => Seq::<Seq<char>>::empty(),
            });
            assert(parts.deep_view() =~~= emitted);
        }
        if let Some(so) = &self.sort_order {
            let t = so.render();
            parts.push(String::from_str("sortOrder=").concat(t.as_str()));
        }
        proof {
            emitted = emitted + (match &self.sort_order {
                Some(so) => seq!["sortOrder="@ + so.spec_render()],
                None => Seq::<Seq<char>>::empty(),
            });
            assert(parts.deep_view() =~~= emitted);
            assert(emitted =~~= self.spec_params());
        }
        let q = join_with(&parts, "&");
        String::from_str("https://export.arxiv.org/api/query?").concat(q.as_str())
    }
}

/// A fresh query asks for the first page of ten results and nothing else:
/// `start` and `max_results` carry their documented defaults, every other
/// field is unset.
impl Default for Query {
    fn default() -> (q: Query)
        ensures
            q.search_query is None,
            q.id_list is None,
            q.start == Some(0usize),
            q.max_results == Some(10usize),
            q.sort_by is None,
            q.sort_order is None,
    {
        Query {
            search_query: None,
            id_list: None,
            start: Some(0),
            max_results: Some(10),
            sort_by: None,
            sort_order: None,
        }
    }
}

/// A query with every optional field unset renders to the bare endpoint
/// followed by `?` and nothing else.
pub proof fn lemma_unset_query_renders_base(q: Query)
    requires
        q.search_query is None,
        q.id_list is None,
        q.start is None,
        q.max_results is None,
        q.sort_by is None,
        q.sort_order is None,
    ensures
        q.spec_url() == spec_base_url(),
{
    assert(q.spec_params() =~= Seq::<Seq<char>>::empty());
    assert(q.spec_url() =~= spec_base_url());
}

/// Whatever fields a query carries, its URL is the fixed endpoint followed
/// by exactly the present parameters — each rendered as its `name=value`
/// segment — restricted to the present fields, in the fixed order
/// `search_query`, `id_list`, `start`, `max_results`, `sortBy`,
/// `sortOrder`, and joined by `&`.
pub proof fn lemma_url_shape(q: Query)
    ensures
        q.spec_url() == spec_base_url() + spec_join(q.spec_params(), "&"@),
        q.spec_params() == (match q.search_query {
            Some(sc) => seq!["search_query="@ + spec_criteria_text(sc@)],
            None => Seq::<Seq<char>>::empty(),
        }) + (match q.id_list {
            Some(ids) => seq!["id_list="@ + spec_join(ids.deep_view(), ","@)],
            None => Seq::<Seq<char>>::empty(),
        }) + (match q.start {
            Some(n) => seq!["start="@ + spec_decimal(n as nat)],
            None => Seq::<Seq<char>>::empty(),
        }) + (match q.max_results {
            Some(n) => seq!["max_results="@ + spec_decimal(n as nat)],
            None => Seq::<Seq<char>>::empty(),
        }) + (match q.sort_by {
            Some(sb) => seq!["sortBy="@ + sb.spec_render()],
            None => Seq::<Seq<char>>::empty(),
        }) + (match q.sort_order {
            Some(so) => seq!["sortOrder="@ + so.spec_render()],
            None => Seq::<Seq<char>>::empty(),
        }),
{
}

} // verus!
