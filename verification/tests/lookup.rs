use hyper_srv::Destination;
use hyper_srv::LookupOutcome;
use hyper_srv::Phase;
use hyper_srv::Route;
use hyper_srv::ServiceConnecting;
use hyper_srv::ServiceConnector;
use hyper_srv::ServiceErrorKind;
use hyper_srv::SrvRecord;
use std::str::FromStr;
use std::sync::Arc;
use trust_dns_resolver::error::ResolveError;
use trust_dns_resolver::error::ResolveErrorKind;
use trust_dns_resolver::lookup::Lookup;
use trust_dns_resolver::lookup::SrvLookup;
use trust_dns_resolver::proto::op::Query;
use trust_dns_resolver::proto::op::ResponseCode;
use trust_dns_resolver::proto::rr::rdata::A;
use trust_dns_resolver::proto::rr::rdata::SRV;
use trust_dns_resolver::proto::rr::RData;
use trust_dns_resolver::proto::rr::Record;
use trust_dns_resolver::proto::rr::RecordType;
use trust_dns_resolver::Name;

fn destination(
    scheme: Option<&str>,
    host: Option<&str>,
    port: Option<u16>,
    path_and_query: Option<&str>,
) -> Destination {
    Destination {
        scheme: scheme.map(String::from),
        host: host.map(String::from),
        port,
        path_and_query: path_and_query.map(String::from),
    }
}

fn record(target: &str, port: u16, priority: u16, weight: u16) -> SrvRecord {
    SrvRecord { target: String::from(target), port, priority, weight }
}

fn waiting_on(original: Destination) -> ServiceConnecting {
    let connector = ServiceConnector::new("inner", Some("resolver"));
    let task = connector.call(original.clone());
    assert_eq!(task.phase, Phase::Preresolving { original });
    task
}

fn query() -> Query {
    Query::query(Name::from_str("svc.example.").unwrap(), RecordType::SRV)
}

fn srv(priority: u16, weight: u16, port: u16, target: &str) -> Record {
    let data = RData::SRV(SRV::new(priority, weight, port, Name::from_str(target).unwrap()));
    Record::from_rdata(Name::from_str("svc.example.").unwrap(), 60, data)
}

fn address() -> Record {
    let data = RData::A(A::new(192, 0, 2, 1));
    Record::from_rdata(Name::from_str("h2.example.").unwrap(), 60, data)
}

fn answer(records: Vec<Record>) -> SrvLookup {
    SrvLookup::from(Lookup::new_with_max_ttl(query(), Arc::from(records)))
}

fn no_records() -> ResolveError {
    ResolveError::from(ResolveErrorKind::NoRecordsFound {
        query: Box::new(query()),
        soa: None,
        negative_ttl: None,
        response_code: ResponseCode::NXDomain,
        trusted: false,
    })
}

#[test]
fn not_found_falls_back_to_the_original() {
    let original = destination(Some("http"), Some("svc.example"), None, Some("/path?q=1"));
    let mut task = waiting_on(original.clone());
    let result = task.resolve::<String>(LookupOutcome::NotFound);
    assert!(result.is_ok());
    assert_eq!(task.phase, Phase::Delegating { target: original.clone(), route: Route::Fallback });
    assert_eq!(task.target(), Some(&original));
    assert_eq!(task.lookup_host(), None);
}

#[test]
fn found_rewrites_to_the_first_record() {
    let original = destination(Some("http"), Some("svc.example"), None, Some("/path?q=1"));
    let mut task = waiting_on(original);
    let outcome = LookupOutcome::Found(vec![
        record("h2.example", 8443, 0, 0),
        record("h3.example", 9443, 1, 0),
    ]);
    let result = task.resolve::<String>(outcome);
    assert!(result.is_ok());
    let expected = destination(Some("http"), Some("h2.example"), Some(8443), Some("/path?q=1"));
    assert_eq!(expected.authority(), Some(String::from("h2.example:8443")));
    assert_eq!(task.phase, Phase::Delegating { target: expected, route: Route::Rewritten });
}

#[test]
fn first_record_wins_whatever_its_priority() {
    let original = destination(Some("https"), Some("svc.example"), None, Some("/"));
    let mut task = waiting_on(original);
    let outcome = LookupOutcome::Found(vec![
        record("late.example", 1, 20, 5),
        record("early.example", 2, 10, 50),
    ]);
    assert!(task.resolve::<String>(outcome).is_ok());
    let expected = destination(Some("https"), Some("late.example"), Some(1), Some("/"));
    assert_eq!(task.phase, Phase::Delegating { target: expected, route: Route::Rewritten });
}

#[test]
fn rewrite_without_scheme_or_path() {
    let original = destination(None, Some("svc.example"), None, None);
    let mut task = waiting_on(original);
    let outcome = LookupOutcome::Found(vec![record("h2.example.", 8443, 0, 0)]);
    assert!(task.resolve::<String>(outcome).is_ok());
    let expected = destination(None, Some("h2.example."), Some(8443), None);
    assert_eq!(task.phase, Phase::Delegating { target: expected, route: Route::Rewritten });
}

#[test]
fn found_without_records_falls_back() {
    let original = destination(Some("http"), Some("svc.example"), None, Some("/"));
    let mut task = waiting_on(original.clone());
    let result = task.resolve::<String>(LookupOutcome::Found(Vec::new()));
    assert!(result.is_ok());
    assert_eq!(task.phase, Phase::Delegating { target: original, route: Route::Fallback });
}

#[test]
fn query_failure_is_fatal() {
    let original = destination(Some("http"), Some("svc.example"), None, Some("/"));
    let mut task = waiting_on(original.clone());
    let result = task.resolve::<String>(LookupOutcome::QueryFailed(ResolveError::from("timed out")));
    match result {
        Err(error) => {
            assert_eq!(error.message(), "timed out");
            assert!(matches!(error.kind, ServiceErrorKind::Resolve(_)));
        },
        Ok(()) => panic!("a failed query must end the attempt"),
    }
    assert_eq!(task.phase, Phase::Preresolving { original });
    assert_eq!(task.target(), None);
}

#[test]
fn malformed_target_is_fatal() {
    let original = destination(Some("http"), Some("svc.example"), None, Some("/"));
    let mut task = waiting_on(original.clone());
    let outcome = LookupOutcome::Found(vec![record("not a host", 80, 0, 0)]);
    let result = task.resolve::<String>(outcome);
    match result {
        Err(error) => assert!(matches!(error.kind, ServiceErrorKind::Rewrite(_))),
        Ok(()) => panic!("a malformed authority must end the attempt"),
    }
    assert_eq!(task.phase, Phase::Preresolving { original });
}

#[test]
fn scheme_without_path_cannot_be_rewritten() {
    let original = destination(Some("http"), Some("svc.example"), None, None);
    let mut task = waiting_on(original.clone());
    let outcome = LookupOutcome::Found(vec![record("h2.example", 80, 0, 0)]);
    let result = task.resolve::<String>(outcome);
    match result {
        Err(error) => assert!(matches!(error.kind, ServiceErrorKind::Rewrite(_))),
        Ok(()) => panic!("the parts do not make up a URI"),
    }
    assert_eq!(task.phase, Phase::Preresolving { original });
}

#[test]
fn path_without_scheme_cannot_be_rewritten() {
    let original = destination(None, Some("svc.example"), None, Some("/path"));
    let mut task = waiting_on(original.clone());
    let outcome = LookupOutcome::Found(vec![record("h2.example", 80, 0, 0)]);
    let result = task.resolve::<String>(outcome);
    match result {
        Err(error) => assert!(matches!(error.kind, ServiceErrorKind::Rewrite(_))),
        Ok(()) => panic!("the parts do not make up a URI"),
    }
    assert_eq!(task.phase, Phase::Preresolving { original });
}

#[test]
fn delegating_task_ignores_a_lookup() {
    let connector: ServiceConnector<&str, &str> = ServiceConnector::new("inner", None);
    let target = destination(Some("http"), Some("svc.example"), None, Some("/"));
    let mut task = connector.call(target.clone());
    let found = LookupOutcome::Found(vec![record("h2.example", 8443, 0, 0)]);
    assert!(task.resolve::<String>(found).is_ok());
    let failed = LookupOutcome::QueryFailed(ResolveError::from("late"));
    assert!(task.resolve::<String>(failed).is_ok());
    assert_eq!(task.phase, Phase::Delegating { target, route: Route::Direct });
}

#[test]
fn tasks_do_not_interfere() {
    let one = destination(Some("http"), Some("one.example"), None, Some("/1"));
    let two = destination(Some("http"), Some("two.example"), None, Some("/2"));
    let three = destination(Some("http"), Some("three.example"), None, Some("/3"));
    let mut first = waiting_on(one.clone());
    let mut second = waiting_on(two.clone());
    let mut third = waiting_on(three.clone());

    let failed = third.resolve::<String>(LookupOutcome::QueryFailed(ResolveError::from("down")));
    let found = LookupOutcome::Found(vec![record("h2.example", 8443, 0, 0)]);
    let rewritten = second.resolve::<String>(found);
    let fell_back = first.resolve::<String>(LookupOutcome::NotFound);

    assert!(failed.is_err());
    assert!(rewritten.is_ok());
    assert!(fell_back.is_ok());
    assert_eq!(first.phase, Phase::Delegating { target: one, route: Route::Fallback });
    let expected = destination(Some("http"), Some("h2.example"), Some(8443), Some("/2"));
    assert_eq!(second.phase, Phase::Delegating { target: expected, route: Route::Rewritten });
    assert_eq!(third.phase, Phase::Preresolving { original: three });
}

#[test]
fn outcome_from_records() {
    assert!(matches!(LookupOutcome::from_records(Vec::new()), LookupOutcome::NotFound));
    let records = vec![record("h2.example", 8443, 0, 0), record("h3.example", 9443, 1, 0)];
    match LookupOutcome::from_records(records.clone()) {
        LookupOutcome::Found(kept) => assert_eq!(kept, records),
        _ => panic!("records were found"),
    }
}

#[test]
fn outcome_from_failure() {
    let gone = LookupOutcome::from_failure(ResolveError::from("ignored"), true);
    assert!(matches!(gone, LookupOutcome::NotFound));
    match LookupOutcome::from_failure(ResolveError::from("refused"), false) {
        LookupOutcome::QueryFailed(error) => assert_eq!(error.to_string(), "refused"),
        _ => panic!("the query failed"),
    }
}

#[test]
fn answer_with_records_is_found_in_order() {
    let lookup = answer(vec![
        srv(0, 5, 8443, "h2.example."),
        address(),
        srv(1, 7, 9443, "h3.example."),
    ]);
    match LookupOutcome::from_result(Ok(lookup)) {
        LookupOutcome::Found(records) => assert_eq!(
            records,
            vec![record("h2.example.", 8443, 0, 5), record("h3.example.", 9443, 1, 7)]
        ),
        _ => panic!("records were found"),
    }
}

#[test]
fn answer_without_srv_records_is_not_found() {
    assert!(matches!(LookupOutcome::from_result(Ok(answer(vec![address()]))), LookupOutcome::NotFound));
    assert!(matches!(LookupOutcome::from_result(Ok(answer(Vec::new()))), LookupOutcome::NotFound));
}

#[test]
fn no_records_error_is_not_found() {
    assert!(matches!(LookupOutcome::from_result(Err(no_records())), LookupOutcome::NotFound));
}

#[test]
fn other_errors_are_failed_queries() {
    match LookupOutcome::from_result(Err(ResolveError::from("connection refused"))) {
        LookupOutcome::QueryFailed(error) => assert_eq!(error.to_string(), "connection refused"),
        _ => panic!("the query failed"),
    }
    let timeout = ResolveError::from(ResolveErrorKind::Timeout);
    assert!(matches!(LookupOutcome::from_result(Err(timeout)), LookupOutcome::QueryFailed(_)));
}

#[test]
fn resolver_answer_drives_the_task() {
    let original = destination(Some("http"), Some("svc.example"), None, Some("/path?q=1"));
    let mut task = waiting_on(original.clone());
    let lookup = answer(vec![srv(0, 0, 8443, "h2.example."), srv(0, 0, 9443, "h3.example.")]);
    assert!(task.resolve::<String>(LookupOutcome::from_result(Ok(lookup))).is_ok());
    let expected = destination(Some("http"), Some("h2.example."), Some(8443), Some("/path?q=1"));
    assert_eq!(task.phase, Phase::Delegating { target: expected, route: Route::Rewritten });

    let mut other = waiting_on(original.clone());
    assert!(other.resolve::<String>(LookupOutcome::from_result(Err(no_records()))).is_ok());
    assert_eq!(other.phase, Phase::Delegating { target: original, route: Route::Fallback });
}
