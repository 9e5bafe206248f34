//! The status endpoint: what a GET of the status path answers.
use vstd::prelude::*;
use crate::report::{BankStatus, Status, StatusColor, StatusReport, StatusReportView};

verus! {

/// The HTTP status code of a successful answer.
pub const HTTP_OK: u16 = 200;

/// What the endpoint answers: an HTTP status code and the report to send as
/// the body.
pub struct StatusResponse {
    pub code: u16,
    pub report: StatusReport,
}

/// The report that the endpoint always gives: the bank is open, shown as a
/// success, with no metrics and no notices.
pub open spec fn open_report() -> StatusReportView {
    StatusReport::spec_of(Status { name: BankStatus::Open, color: StatusColor::Success })
}

/// Builds the report that the endpoint returns.
pub fn status_report() -> (r: StatusReport)
    ensures
        r@ == open_report(),
        r.notices@.len() == 0,
{
    let open = BankStatus::Open;
    StatusReport::new(open.status())
}

/// An answer that the endpoint gives: code 200 and the open report.
pub open spec fn is_status_answer(r: StatusResponse) -> bool {
    r.code == 200 && r.report@ == open_report()
}

/// Answers a GET of the status path: always 200 with the open report.
pub fn status() -> (r: StatusResponse)
    ensures
        is_status_answer(r),
        r.code == 200,
        r.report.status.name == BankStatus::Open,
        r.report.status.name.spec_name() == "Open"@,
        r.report.status.color == StatusColor::Success,
        r.report.primary_metric is None,
        r.report.metrics is None,
        r.report.notices@.len() == 0,
{
    StatusResponse { code: HTTP_OK, report: status_report() }
}

/// The endpoint is idempotent: any two answers carry the same code and the
/// same report, so every call sends the same body.
pub proof fn lemma_status_idempotent(a: StatusResponse, b: StatusResponse)
    requires
        is_status_answer(a),
        is_status_answer(b),
    ensures
        a.code == b.code,
        a.report@ == b.report@,
{
}

} // verus!
