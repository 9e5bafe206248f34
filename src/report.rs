//! The shared status-report schema: a status name with a colour that tells a
//! dashboard how to render it, optional metrics and a list of notices.
use vstd::prelude::*;

verus! {

/// Relies on `rust_decimal::Decimal` as the type of a metric's value only:
/// the library carries such values through and never reads them.
#[verifier::external_type_specification]
#[verifier::external_body]
pub struct ExDecimal(rust_decimal::Decimal);

/// The states that the bank service can report.
#[derive(Clone, Copy, Debug, PartialEq, Eq, Structural)]
pub enum BankStatus {
    /// The bank accepts work.
    Open,
}

/// How a dashboard should render a status or a metric.
#[derive(Clone, Copy, Debug, PartialEq, Eq, Structural)]
pub enum StatusColor {
    Primary,
    Success,
    Danger,
    Warning,
    Secondary,
}

/// Severity of an advisory notice.
#[derive(Clone, Copy, Debug, PartialEq, Eq, Structural)]
pub enum NoticeLevel {
    Info,
    Warning,
    Danger,
}

/// A status name together with the colour it is shown in.
#[derive(Clone, Copy, Debug, PartialEq, Eq, Structural)]
pub struct Status {
    pub name: BankStatus,
    pub color: StatusColor,
}

/// One labelled numeric metric.
pub struct Metric {
    pub value: rust_decimal::Decimal,
    pub unit: String,
    pub short_description: String,
    pub color: Option<StatusColor>,
}

/// An advisory message shown beside the status.
pub struct Notice {
    pub level: NoticeLevel,
    pub text: String,
}

/// The document that the status endpoint returns.
pub struct StatusReport {
    pub status: Status,
    pub primary_metric: Option<Metric>,
    pub metrics: Option<Vec<Metric>>,
    pub notices: Vec<Notice>,
}

/// Mathematical model of a `Metric`.
pub struct MetricView {
    pub value: rust_decimal::Decimal,
    pub unit: Seq<char>,
    pub short_description: Seq<char>,
    pub color: Option<StatusColor>,
}

/// Mathematical model of a `Notice`.
pub struct NoticeView {
    pub level: NoticeLevel,
    pub text: Seq<char>,
}

/// Mathematical model of a `StatusReport`.
pub struct StatusReportView {
    pub status: Status,
    pub primary_metric: Option<MetricView>,
    pub metrics: Option<Seq<MetricView>>,
    pub notices: Seq<NoticeView>,
}

impl View for Metric {
    type V = MetricView;

    open spec fn view(&self) -> MetricView {
        MetricView {
            value: self.value,
            unit: self.unit@,
            short_description: self.short_description@,
            color: self.color,
        }
    }
}

impl View for Notice {
    type V = NoticeView;

    open spec fn view(&self) -> NoticeView {
        NoticeView { level: self.level, text: self.text@ }
    }
}

/// The model of an optional metric.
pub open spec fn metric_opt_view(m: Option<Metric>) -> Option<MetricView> {
    match m {
        Some(x) => Some(x@),
        None => None,
    }
}

/// The model of an optional list of metrics.
pub open spec fn metrics_opt_view(m: Option<Vec<Metric>>) -> Option<Seq<MetricView>> {
    match m {
        Some(v) => Some(v@.map_values(|x: Metric| x@)),
        None => None,
    }
}

impl View for StatusReport {
    type V = StatusReportView;

    open spec fn view(&self) -> StatusReportView {
        StatusReportView {
            status: self.status,
            primary_metric: metric_opt_view(self.primary_metric),
            metrics: metrics_opt_view(self.metrics),
            notices: self.notices@.map_values(|n: Notice| n@),
        }
    }
}

impl BankStatus {
    /// The stable token under which the state is published.
    pub open spec fn spec_name(self) -> Seq<char> {
        match self {
            BankStatus::Open => "Open"@,
        }
    }

    /// The colour in which each state is shown.
    pub open spec fn spec_color(self) -> StatusColor {
        match self {
            BankStatus::Open => StatusColor::Success,
        }
    }

    /// The stable token under which the state is published.
    pub fn name(&self) -> (r: &'static str)
        ensures
            r@ == self.spec_name(),
    {
        match self {
            BankStatus::Open => "Open",
        }
    }

    /// The colour in which the state is shown.
    pub fn color(&self) -> (r: StatusColor)
        ensures
            r == self.spec_color(),
    {
        match self {
            BankStatus::Open => StatusColor::Success,
        }
    }

    /// The generic status pair (name, colour) for this state.
    pub fn status(&self) -> (r: Status)
        ensures
            r == (Status { name: *self, color: self.spec_color() }),
    {
        Status { name: *self, color: self.color() }
    }
}

impl StatusReport {
    /// The report of a status alone: no metrics and no notices.
    pub open spec fn spec_of(status: Status) -> StatusReportView {
        StatusReportView {
            status,
            primary_metric: None,
            metrics: None,
            notices: Seq::empty(),
        }
    }

    /// A report that carries `status` and nothing else.
    pub fn new(status: Status) -> (r: StatusReport)
        ensures
            r@ == StatusReport::spec_of(status),
            r.primary_metric is None,
            r.metrics is None,
            r.notices@.len() == 0,
    {
        let r = StatusReport {
            status,
            primary_metric: None,
            metrics: None,
            notices: Vec::new(),
        };
        assert(r@.notices =~= Seq::<NoticeView>::empty());
        r
    }
}

} // verus!
