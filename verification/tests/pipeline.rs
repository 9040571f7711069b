use cobweb::driver::{DriveState, Driver, FetchResponse, FetchStatus};
use cobweb::page::{extract_page, skipped_elements};
use cobweb::report::full_report;

const BASE: &str = "https://www.maimmunizations.org";

fn results_page() -> String {
    "<html><head><title>Clinic Search</title></head><body>\
     <div class=\"main-container\">\
     <div class=\"mt-24 border-t border-gray-200\">\
     <div class=\"md:flex\"><div class=\"md:flex-shrink\">\
     <p>Fenway Park on 02/25/2021</p>\
     <p><strong>Available Appointments:</strong> 5</p>\
     <p class=\"my-3 flex\"><a href=\"/clinic/register?id=1\">Sign up</a></p>\
     </div></div>\
     <div class=\"md:flex\"><div class=\"md:flex-shrink\">\
     <p>Gillette Stadium on 02/26/2021</p>\
     <p><strong>Available Appointments:</strong> 0</p>\
     </div></div>\
     </div></div></body></html>"
        .to_string()
}

fn nameless_page() -> String {
    "<html><head><title>Clinic Search</title></head><body>\
     <div class=\"main-container\">\
     <div class=\"mt-24 border-t border-gray-200\">\
     <div class=\"md:flex\"><div class=\"md:flex-shrink\">\
     <p>   </p>\
     <p><strong>Available Appointments:</strong> 9</p>\
     </div></div>\
     <div class=\"md:flex\"><div class=\"md:flex-shrink\">\
     <p>Worcester State on 03/01/2021</p>\
     <p><strong>Available Appointments:</strong> 2</p>\
     </div></div>\
     </div></div></body></html>"
        .to_string()
}

fn waiting_page() -> String {
    "<html><head>\
     <title>Commonwealth of Massachusetts Virtual Waiting Room</title>\
     </head><body><div id=\"wrapper\"><main><div><section>\
     <section><h1>hold</h1></section>\
     <section><h2>  You are in a queue ahead of 100 users.  </h2></section>\
     </section></div></main></div></body></html>"
        .to_string()
}

fn success(body: String) -> FetchResponse {
    FetchResponse { status: FetchStatus::Success, body }
}

fn failure(text: &str) -> FetchResponse {
    FetchResponse { status: FetchStatus::Other(text.to_string()), body: String::new() }
}

fn redirect() -> FetchResponse {
    FetchResponse { status: FetchStatus::Redirect, body: String::new() }
}

#[test]
fn extraction_pulls_records_in_order() {
    let page = results_page();
    let records = extract_page(&page, BASE);
    assert_eq!(records.len(), 2);
    assert_eq!(records[0].name, "Fenway Park");
    assert_eq!(records[0].date.as_deref(), Some("02/25/2021"));
    assert_eq!(records[0].availability.as_deref(), Some("5"));
    assert_eq!(
        records[0].registration_url.as_deref(),
        Some("https://www.maimmunizations.org/clinic/register?id=1")
    );
    assert_eq!(records[0].clinic_id, None);
    assert_eq!(records[1].name, "Gillette Stadium");
    assert_eq!(records[1].availability.as_deref(), Some("0"));
    assert_eq!(records[1].registration_url, None);
}

#[test]
fn extraction_is_deterministic_and_idempotent() {
    let page = results_page();
    let first = extract_page(&page, BASE);
    let second = extract_page(&page, BASE);
    assert_eq!(first.len(), second.len());
    for (a, b) in first.iter().zip(second.iter()) {
        assert_eq!(a.name, b.name);
        assert_eq!(a.date, b.date);
        assert_eq!(a.availability, b.availability);
        assert_eq!(a.registration_url, b.registration_url);
    }
}

fn double_label_page() -> String {
    "<html><head><title>Clinic Search</title></head><body>\
     <div class=\"main-container\">\
     <div class=\"mt-24 border-t border-gray-200\">\
     <div class=\"md:flex\"><div class=\"md:flex-shrink\">\
     <p>Fenway Park on 02/25/2021</p>\
     <p><strong>Available Appointments:</strong> 5</p>\
     <p><strong>Available Appointments:</strong> 7</p>\
     </div></div>\
     </div></div></body></html>"
        .to_string()
}

#[test]
fn first_matching_label_wins() {
    let page = double_label_page();
    let records = extract_page(&page, BASE);
    assert_eq!(records.len(), 1);
    assert_eq!(records[0].availability.as_deref(), Some("5"));
}

#[test]
fn skipped_elements_are_reported() {
    let page = nameless_page();
    assert_eq!(skipped_elements(&page, BASE), vec![0]);
    let clean = results_page();
    assert_eq!(skipped_elements(&clean, BASE), Vec::<usize>::new());
}

#[test]
fn nameless_element_is_skipped() {
    let page = nameless_page();
    let records = extract_page(&page, BASE);
    assert_eq!(records.len(), 1);
    assert_eq!(records[0].name, "Worcester State");
    assert_eq!(records[0].availability.as_deref(), Some("2"));
}

#[test]
fn scenario_one_page_of_results() {
    let responses = vec![success(results_page()), failure("404 Not Found")];
    let d = Driver::run(false, &responses);
    assert_eq!(d.state, DriveState::Done);
    assert_eq!(d.records.len(), 2);
    assert_eq!(d.outputs, vec![
        "Page 2 fetch failed with unexpected status 404 Not Found".to_string(),
    ]);
    let report = full_report(&d.records, false, d.pages_fetched());
    assert_eq!(report, vec![
        "Fenway Park on 02/25/2021 has 5 available".to_string(),
        "Register at https://www.maimmunizations.org/clinic/register?id=1".to_string(),
        "".to_string(),
        "Found 2 clinics, 1 with availability (fetched 1 pages)".to_string(),
    ]);
}

#[test]
fn scenario_show_all_includes_zero_availability() {
    let responses = vec![success(results_page()), redirect()];
    let d = Driver::run(false, &responses);
    assert_eq!(d.state, DriveState::Done);
    assert_eq!(d.outputs, Vec::<String>::new());
    let report = full_report(&d.records, true, d.pages_fetched());
    assert_eq!(report, vec![
        "Fenway Park on 02/25/2021 has 5 available".to_string(),
        "Register at https://www.maimmunizations.org/clinic/register?id=1".to_string(),
        "".to_string(),
        "Gillette Stadium on 02/26/2021 has no availability".to_string(),
        "Found 2 clinics, 1 with availability (fetched 1 pages)".to_string(),
    ]);
}

#[test]
fn scenario_waiting_room_bails() {
    let responses = vec![success(waiting_page())];
    let d = Driver::run(false, &responses);
    assert_eq!(d.state, DriveState::Done);
    assert_eq!(d.records.len(), 0);
    assert_eq!(d.outputs, vec![
        "You are in a queue ahead of 100 users.".to_string(),
        "Bailing cus we hit the waiting room!".to_string(),
    ]);
    assert_eq!(d.pages_fetched(), 0);
    let report = full_report(&d.records, false, d.pages_fetched());
    assert_eq!(report, vec![
        "Found 0 clinics, 0 with availability (fetched 0 pages)".to_string(),
    ]);
}

#[test]
fn scenario_waiting_room_retries_same_page_once() {
    let responses = vec![success(waiting_page()), success(results_page()), redirect()];
    let d = Driver::run(true, &responses);
    assert_eq!(d.state, DriveState::Done);
    assert_eq!(d.records.len(), 2);
    assert_eq!(d.outputs, vec!["You are in a queue ahead of 100 users.".to_string()]);
    assert_eq!(d.pages_fetched(), 1);
}

#[test]
fn driver_stops_at_first_terminator() {
    let responses = vec![failure("500 Internal Server Error"), success(results_page())];
    let d = Driver::run(false, &responses);
    assert_eq!(d.state, DriveState::Done);
    assert_eq!(d.records.len(), 0);
    assert_eq!(d.pages_fetched(), 0);
    assert_eq!(d.outputs, vec![
        "Page 1 fetch failed with unexpected status 500 Internal Server Error".to_string(),
    ]);
}

#[test]
fn waiting_room_step_by_step_transitions() {
    let mut d = Driver::new(false);
    assert_eq!(d.state, DriveState::Searching);
    assert_eq!(d.page, 1);
    d.on_response(&success(waiting_page()));
    assert_eq!(d.state, DriveState::WaitingRoom);
    assert_eq!(d.page, 1);
    let sleep = d.on_wait_decision();
    assert!(!sleep);
    assert_eq!(d.state, DriveState::Bailed);
    d.on_bailed();
    assert_eq!(d.state, DriveState::Done);
}

#[test]
fn normal_page_advances_counter() {
    let mut d = Driver::new(true);
    d.on_response(&success(waiting_page()));
    let sleep = d.on_wait_decision();
    assert!(sleep);
    assert_eq!(d.state, DriveState::Searching);
    assert_eq!(d.page, 1);
    d.on_response(&success(results_page()));
    assert_eq!(d.state, DriveState::Searching);
    assert_eq!(d.page, 2);
}
