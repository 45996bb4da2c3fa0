use arxiv_api::Query;
use arxiv_api::SearchCriteria;
use arxiv_api::SearchCriterion;
use arxiv_api::SearchField;
use arxiv_api::SortBy;
use arxiv_api::SortOrder;

#[test]
fn it_works() {
    let result = 2 + 2;
    assert_eq!(result, 4);
}

fn empty_query() -> Query {
    Query {
        search_query: None,
        id_list: None,
        start: None,
        max_results: None,
        sort_by: None,
        sort_order: None,
    }
}

#[test]
fn unset_query_renders_bare_endpoint() {
    let q = empty_query();
    assert_eq!(q.render(), "https://export.arxiv.org/api/query?");
}

#[test]
fn all_fields_render_in_fixed_order() {
    let q = Query {
        search_query: Some(SearchCriteria::new().pure(SearchField::All("a".to_string()))),
        id_list: Some(vec!["1234.5678".to_string()]),
        start: Some(5),
        max_results: Some(7),
        sort_by: Some(SortBy::Relevance),
        sort_order: Some(SortOrder::Ascending),
    };
    assert_eq!(
        q.render(),
        "https://export.arxiv.org/api/query?search_query=all:a&id_list=1234.5678&start=5&max_results=7&sortBy=relevance&sortOrder=ascending"
    );
}

#[test]
fn facet_tokens() {
    assert_eq!(SearchField::Title("T".to_string()).render(), "ti:T");
    assert_eq!(SearchField::Author("T".to_string()).render(), "au:T");
    assert_eq!(SearchField::Abstract("T".to_string()).render(), "abs:T");
    assert_eq!(SearchField::Comment("T".to_string()).render(), "co:T");
    assert_eq!(SearchField::JournalReference("T".to_string()).render(), "jr:T");
    assert_eq!(SearchField::SubjectCategory("T".to_string()).render(), "cat:T");
    assert_eq!(SearchField::ReportNumber("T".to_string()).render(), "rn:T");
    assert_eq!(SearchField::All("T".to_string()).render(), "all:T");
}

#[test]
fn combinator_tokens() {
    let f = || SearchField::Title("x".to_string());
    assert_eq!(SearchCriterion::Pure(f()).render(), "ti:x");
    assert_eq!(SearchCriterion::And(f()).render(), "+AND+ti:x");
    assert_eq!(SearchCriterion::Or(f()).render(), "+OR+ti:x");
    assert_eq!(SearchCriterion::AndNot(f()).render(), "+ANDNOT+ti:x");
}

#[test]
fn pure_and_chain() {
    let c = SearchCriteria::new()
        .pure(SearchField::All("a".to_string()))
        .and(SearchField::Title("b".to_string()));
    assert_eq!(c.render(), "all:a+AND+ti:b");
}

#[test]
fn pure_or_and_not_chain() {
    let c = SearchCriteria::new()
        .pure(SearchField::All("a".to_string()))
        .or(SearchField::Author("b".to_string()))
        .and_not(SearchField::Abstract("c".to_string()));
    assert_eq!(c.render(), "all:a+OR+au:b+ANDNOT+abs:c");
}

#[test]
fn default_query_url() {
    assert_eq!(
        Query::default().render(),
        "https://export.arxiv.org/api/query?start=0&max_results=10"
    );
}

#[test]
fn id_list_is_comma_joined() {
    let q = Query {
        id_list: Some(vec!["1234.5678".to_string(), "2345.6789".to_string()]),
        ..empty_query()
    };
    assert_eq!(
        q.render(),
        "https://export.arxiv.org/api/query?id_list=1234.5678,2345.6789"
    );
}

#[test]
fn single_id_has_no_comma() {
    let q = Query { id_list: Some(vec!["1234.5678".to_string()]), ..empty_query() };
    assert_eq!(q.render(), "https://export.arxiv.org/api/query?id_list=1234.5678");
}

#[test]
fn sort_directives_only() {
    let q = Query {
        sort_by: Some(SortBy::SubmittedDate),
        sort_order: Some(SortOrder::Descending),
        ..empty_query()
    };
    assert_eq!(
        q.render(),
        "https://export.arxiv.org/api/query?sortBy=submittedDate&sortOrder=descending"
    );
}

#[test]
fn sort_tokens() {
    assert_eq!(SortBy::Relevance.render(), "relevance");
    assert_eq!(SortBy::LastUpdatedDate.render(), "lastUpdatedDate");
    assert_eq!(SortBy::SubmittedDate.render(), "submittedDate");
    assert_eq!(SortOrder::Ascending.render(), "ascending");
    assert_eq!(SortOrder::Descending.render(), "descending");
}

#[test]
fn string_conversion_is_pure_all() {
    let implicit = SearchCriterion::from("quantum".to_string());
    let explicit = SearchCriteria::new().pure(SearchField::All("quantum".to_string()));
    assert_eq!(explicit.len(), 1);
    assert!(matches!(&implicit, SearchCriterion::Pure(SearchField::All(s)) if s == "quantum"));
    assert!(matches!(explicit.get(0), SearchCriterion::Pure(SearchField::All(s)) if s == "quantum"));
    assert_eq!(implicit.render(), explicit.get(0).render());
}

#[test]
fn empty_criteria_render_to_nothing() {
    let q = Query { search_query: Some(SearchCriteria::new()), ..empty_query() };
    assert_eq!(q.render(), "https://export.arxiv.org/api/query?search_query=");
}

#[test]
fn leading_combinator_is_emitted_verbatim() {
    let c = SearchCriteria::new().and(SearchField::Title("x".to_string()));
    assert_eq!(c.render(), "+AND+ti:x");
}

#[test]
fn payload_is_not_encoded() {
    let c = SearchCriteria::new().pure(SearchField::All("nikolas tapia".to_string()));
    let q = Query { search_query: Some(c), ..empty_query() };
    assert_eq!(
        q.render(),
        "https://export.arxiv.org/api/query?search_query=all:nikolas tapia"
    );
}

#[test]
fn large_pagination_values() {
    let q = Query {
        start: Some(usize::MAX),
        max_results: Some(100000),
        ..empty_query()
    };
    assert_eq!(
        q.render(),
        "https://export.arxiv.org/api/query?start=18446744073709551615&max_results=100000"
    );
}
