//! Pagination driver: the four-state machine that consumes fetched pages,
//! detects the waiting room, gathers records, and owns the page counter.

use vstd::prelude::*;
use vstd::string::StrSliceExecFns;
use vstd::string::StringExecFns;

use crate::page::extract_page;
use crate::page::page_clinics;
use crate::page::page_summary;
use crate::page::page_title;
use crate::page::scrape_summary;
use crate::page::scrape_title;
use crate::page::spec_extract_page;
use crate::record::ClinicInfo;
use crate::record::ClinicInfoV;
use crate::text::decimal;
use crate::text::decimal_spec;
use crate::text::str_eq;
use crate::text::trim;
use crate::text::trim_spec;

verus! {

/// The base URL of the scheduling site; relative registration links are
/// resolved against it.
pub open spec fn base_url_spec() -> Seq<char> {
    "https://www.maimmunizations.org"@
}

/// The base URL of the scheduling site.
pub fn base_url() -> (r: &'static str)
    ensures
        r@ == base_url_spec(),
{
    "https://www.maimmunizations.org"
}

/// The exact title of a waiting-room page.
pub open spec fn waiting_room_title() -> Seq<char> {
    "Commonwealth of Massachusetts Virtual Waiting Room"@
}

/// The HTTP status of a fetched page, reduced to what the driver reads:
/// success, a redirect, or any other status with its rendered text.
pub enum FetchStatus {
    Success,
    Redirect,
    Other(String),
}

/// One fetched (or simulated) response: its status and raw body text.
pub struct FetchResponse {
    pub status: FetchStatus,
    pub body: String,
}

/// The driver states: fetching result pages, deciding a waiting room,
/// bailed out of a waiting room, or finished.
#[derive(Clone, Copy, PartialEq, Eq, Structural, Debug)]
pub enum DriveState {
    Searching,
    WaitingRoom,
    Bailed,
    Done,
}

/// The abstract driver: machine state, the page counter, the records
/// gathered so far, and the lines printed while paginating.
pub struct DriverModel {
    pub state: DriveState,
    pub page: int,
    pub records: Seq<ClinicInfoV>,
    pub outputs: Seq<Seq<char>>,
}

/// True when a page body is a waiting-room page: its trimmed title equals
/// the waiting-room title exactly.
pub open spec fn is_waiting_page(body: Seq<char>) -> bool {
    match page_title(body) {
        Some(t) => trim_spec(t) == waiting_room_title(),
        None => false,
    }
}

/// The line reporting an unexpected fetch status.
pub open spec fn fail_line(page: nat, status_text: Seq<char>) -> Seq<char> {
    "Page "@ + decimal_spec(page) + " fetch failed with unexpected status "@ + status_text
}

/// The notice printed when bailing out of the waiting room.
pub open spec fn bail_line() -> Seq<char> {
    "Bailing cus we hit the waiting room!"@
}

/// The `Searching` transitions, on the response for the current page:
/// an unexpected status prints a failure line and finishes; a redirect
/// finishes silently; a waiting-room page prints its summary and moves to
/// `WaitingRoom`; a normal page appends its extracted records and
/// advances the page counter.
pub open spec fn respond_model(m: DriverModel, r: FetchResponse) -> DriverModel
    recommends
        m.state is Searching,
{
    match r.status {
        FetchStatus::Other(t) => DriverModel {
            state: DriveState::Done,
            outputs: m.outputs + seq![fail_line(m.page as nat, t@)],
            ..m
        },
        FetchStatus::Redirect => DriverModel { state: DriveState::Done, ..m },
        FetchStatus::Success => {
            if is_waiting_page(r.body@) {
                let outs = match page_summary(r.body@) {
                    Some(s) => m.outputs + seq![trim_spec(s)],
                    None => m.outputs,
                };
                DriverModel { state: DriveState::WaitingRoom, outputs: outs, ..m }
            } else {
                DriverModel {
                    page: m.page + 1,
                    records: m.records + spec_extract_page(page_clinics(r.body@), base_url_spec()),
                    ..m
                }
            }
        },
    }
}

/// The `WaitingRoom` transitions: with waiting enabled the driver returns
/// to `Searching` at the same page number; otherwise it prints the bail
/// notice and moves to `Bailed`.
pub open spec fn wait_model(m: DriverModel, wait: bool) -> DriverModel
    recommends
        m.state is WaitingRoom,
{
    if wait {
        DriverModel { state: DriveState::Searching, ..m }
    } else {
        DriverModel { state: DriveState::Bailed, outputs: m.outputs + seq![bail_line()], ..m }
    }
}

/// The `Bailed` transition: pagination stops.
pub open spec fn bail_model(m: DriverModel) -> DriverModel
    recommends
        m.state is Bailed,
{
    DriverModel { state: DriveState::Done, ..m }
}

/// One full fetch cycle: the response transition, then the waiting-room
/// decision when one was detected.
pub open spec fn step_model(m: DriverModel, r: FetchResponse, wait: bool) -> DriverModel {
    let m1 = respond_model(m, r);
    if m1.state is WaitingRoom {
        let m2 = wait_model(m1, wait);
        if m2.state is Bailed {
            bail_model(m2)
        } else {
            m2
        }
    } else {
        m1
    }
}

/// The initial driver: `Searching` at page 1, nothing gathered.
pub open spec fn init_model() -> DriverModel {
    DriverModel {
        state: DriveState::Searching,
        page: 1,
        records: Seq::empty(),
        outputs: Seq::empty(),
    }
}

/// The driver after consuming responses in order, one per fetch cycle,
/// stopping as soon as it leaves `Searching`.
pub open spec fn run_model(m: DriverModel, resps: Seq<FetchResponse>, wait: bool) -> DriverModel
    decreases resps.len(),
{
    if resps.len() == 0 || !(m.state is Searching) {
        m
    } else {
        run_model(step_model(m, resps[0], wait), resps.drop_first(), wait)
    }
}

/// The pagination driver. Fetching and sleeping happen outside; the driver
/// is fed each response and decides every transition.
pub struct Driver {
    pub state: DriveState,
    pub page: u64,
    pub records: Vec<ClinicInfo>,
    pub outputs: Vec<String>,
    pub wait: bool,
}

impl View for Driver {
    type V = DriverModel;

    open spec fn view(&self) -> DriverModel {
        DriverModel {
            state: self.state,
            page: self.page as int,
            records: self.records.deep_view(),
            outputs: self.outputs.deep_view(),
        }
    }
}

impl Driver {
    /// A fresh driver: `Searching` at page 1.
    pub fn new(wait: bool) -> (r: Driver)
        ensures
            r@ == init_model(),
            r.wait == wait,
    {
        let r = Driver {
            state: DriveState::Searching,
            page: 1,
            records: Vec::new(),
            outputs: Vec::new(),
            wait,
        };
        proof {
            assert(r@.records =~= init_model().records);
            assert(r@.outputs =~= init_model().outputs);
        }
        r
    }

    /// True while the driver wants the current page fetched.
    pub fn is_searching(&self) -> (r: bool)
        ensures
            r == (self@.state is Searching),
    {
        match self.state {
            DriveState::Searching => true,
            _ => false,
        }
    }

    /// True once pagination has finished.
    pub fn is_done(&self) -> (r: bool)
        ensures
            r == (self@.state is Done),
    {
        match self.state {
            DriveState::Done => true,
            _ => false,
        }
    }

    /// Feeds the response for the current page.
    pub fn on_response(&mut self, resp: &FetchResponse)
        requires
            old(self)@.state is Searching,
            old(self).page < u64::MAX,
        ensures
            final(self)@ == respond_model(old(self)@, *resp),
            final(self).wait == old(self).wait,
    {
        match &resp.status {
            FetchStatus::Other(t) => {
                let mut line = String::from_str("Page ");
                let num = decimal(self.page);
                line.append(num.as_str());
                line.append(" fetch failed with unexpected status ");
                line.append(t.as_str());
                self.outputs.push(line);
                self.state = DriveState::Done;
                proof {
                    assert(self@.outputs =~= respond_model(old(self)@, *resp).outputs);
                }
            },
            FetchStatus::Redirect => {
                self.state = DriveState::Done;
            },
            FetchStatus::Success => {
                let title = scrape_title(resp.body.as_str());
                let waiting = match &title {
                    Some(t) => {
                        let tt = trim(t.as_str());
                        str_eq(tt.as_str(), "Commonwealth of Massachusetts Virtual Waiting Room")
                    },
                    None => false,
                };
                if waiting {
                    match scrape_summary(resp.body.as_str()) {
                        Some(s) => {
                            self.outputs.push(trim(s.as_str()));
                            proof {
                                assert(self@.outputs =~= respond_model(old(self)@, *resp).outputs);
                            }
                        },
                        None => {},
                    }
                    self.state = DriveState::WaitingRoom;
                } else {
                    let mut recs = extract_page(resp.body.as_str(), base_url());
                    self.records.append(&mut recs);
                    self.page = self.page + 1;
                    proof {
                        assert(self@.records =~= respond_model(old(self)@, *resp).records);
                    }
                }
            },
        }
    }

    /// Decides the waiting room: sleep-and-retry when waiting is enabled,
    /// print the bail notice and stop otherwise. Returns whether the
    /// caller should pause before refetching.
    pub fn on_wait_decision(&mut self) -> (sleep: bool)
        requires
            old(self)@.state is WaitingRoom,
        ensures
            final(self)@ == wait_model(old(self)@, old(self).wait),
            final(self).wait == old(self).wait,
            sleep == old(self).wait,
    {
        if self.wait {
            self.state = DriveState::Searching;
            true
        } else {
            self.outputs.push(String::from_str("Bailing cus we hit the waiting room!"));
            self.state = DriveState::Bailed;
            proof {
                assert(self@.outputs =~= wait_model(old(self)@, old(self).wait).outputs);
            }
            false
        }
    }

    /// Finishes a bailed run.
    pub fn on_bailed(&mut self)
        requires
            old(self)@.state is Bailed,
        ensures
            final(self)@ == bail_model(old(self)@),
            final(self).wait == old(self).wait,
    {
        self.state = DriveState::Done;
    }

    /// Pages fetched with clinic data: the counter minus one, the counter
    /// standing at the next page to fetch.
    pub fn pages_fetched(&self) -> (r: u64)
        requires
            self@.page >= 1,
        ensures
            r as int == self@.page - 1,
    {
        self.page - 1
    }

    /// Runs the driver over a bounded sequence of simulated responses, one
    /// fetch cycle per response, stopping early once pagination finishes.
    /// The loop consumes one response per cycle, so it always terminates.
    pub fn run(wait: bool, resps: &Vec<FetchResponse>) -> (r: Driver)
        requires
            resps.len() < u64::MAX,
        ensures
            r@ == run_model(init_model(), resps@, wait),
            r.wait == wait,
    {
        let mut d = Driver::new(wait);
        let mut i: usize = 0;
        proof {
            assert(resps@.subrange(0, resps@.len() as int) =~= resps@);
        }
        while i < resps.len() && d.is_searching()
            invariant
                0 <= i <= resps.len() < u64::MAX,
                d.wait == wait,
                d@.page <= 1 + i,
                run_model(init_model(), resps@, wait) == run_model(
                    d@,
                    resps@.subrange(i as int, resps@.len() as int),
                    wait,
                ),
            decreases resps.len() - i,
        {
            let ghost pre = d@;
            let ghost rest = resps@.subrange(i as int, resps@.len() as int);
            d.on_response(&resps[i]);
            if !d.is_done() && !d.is_searching() {
                d.on_wait_decision();
                if !d.is_done() && !d.is_searching() {
                    d.on_bailed();
                }
            }
            proof {
                assert(d@ == step_model(pre, resps@[i as int], wait));
                assert(rest[0] == resps@[i as int]);
                assert(rest.drop_first() =~= resps@.subrange(i + 1, resps@.len() as int));
            }
            i += 1;
        }
        proof {
            let rest = resps@.subrange(i as int, resps@.len() as int);
            if i == resps.len() {
                assert(rest.len() == 0);
            }
            assert(run_model(d@, rest, wait) == d@);
        }
        d
    }
}

/// A response on which pagination must stop: an unexpected status, a
/// redirect, or a waiting-room page met with waiting disabled.
pub open spec fn terminating_response(r: FetchResponse, wait: bool) -> bool {
    ||| r.status is Other
    ||| r.status is Redirect
    ||| (r.status is Success && is_waiting_page(r.body@) && !wait)
}

/// Pagination always terminates: the driver consumes one response per
/// cycle, and a bounded response sequence whose last response is
/// terminating — an unexpected status, a redirect, or a persistent
/// waiting room with waiting disabled — leaves the driver in `Done`.
pub proof fn lemma_pagination_terminates(m: DriverModel, resps: Seq<FetchResponse>, wait: bool)
    requires
        m.state is Searching,
        resps.len() > 0,
        terminating_response(resps.last(), wait),
    ensures
        run_model(m, resps, wait).state is Done,
    decreases resps.len(),
{
    let m1 = step_model(m, resps[0], wait);
    let rest = resps.drop_first();
    assert(run_model(m, resps, wait) == run_model(m1, rest, wait));
    if resps.len() == 1 {
        assert(resps[0] == resps.last());
        assert(m1.state is Done);
        assert(run_model(m1, rest, wait) == m1);
    } else {
        assert(rest.last() == resps.last());
        if m1.state is Searching {
            lemma_pagination_terminates(m1, rest, wait);
        } else {
            assert(m1.state is Done);
            assert(run_model(m1, rest, wait) == m1);
        }
    }
}

/// With waiting enabled, a waiting-room response leaves the page counter
/// unchanged — the driver retries the same page — and the following
/// normal response is the one that advances it.
pub proof fn lemma_waiting_room_retry(m: DriverModel, r1: FetchResponse, r2: FetchResponse)
    requires
        m.state is Searching,
        r1.status is Success,
        is_waiting_page(r1.body@),
        r2.status is Success,
        !is_waiting_page(r2.body@),
    ensures
        step_model(m, r1, true).state is Searching,
        step_model(m, r1, true).page == m.page,
        step_model(step_model(m, r1, true), r2, true).state is Searching,
        step_model(step_model(m, r1, true), r2, true).page == m.page + 1,
{
}

} // verus!
