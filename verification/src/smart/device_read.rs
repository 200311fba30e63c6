//! Reading one device: the decisions between `smartctl` runs.

use vstd::prelude::*;
use vstd::string::*;
use crate::text::utf8_lossy;
use super::json::output_report;
use super::table::{text_report, text_temperature};
use super::{
    first_some, is_sd_name, is_sd_device, opt_device_view, string_views, SmartDevice,
    SmartDeviceView, SmartHealth,
};

verus! {

/// The `smartctl` runs that reading one device may take, in the order they
/// are tried.
#[derive(Clone, Copy, PartialEq, Eq, Debug, Structural)]
pub enum SmartctlQuery {
    /// `smartctl -a -j DEVICE`
    Json,
    /// `smartctl -a -j -d sat DEVICE`
    JsonSat,
    /// `smartctl -A DEVICE`
    Attributes,
    /// `smartctl -A -d sat DEVICE`
    AttributesSat,
}

/// The arguments of the `smartctl` run `q` for `device`.
pub open spec fn query_args(q: SmartctlQuery, device: Seq<char>) -> Seq<Seq<char>> {
    match q {
        SmartctlQuery::Json => seq!["-a"@, "-j"@, device],
        SmartctlQuery::JsonSat => seq!["-a"@, "-j"@, "-d"@, "sat"@, device],
        SmartctlQuery::Attributes => seq!["-A"@, device],
        SmartctlQuery::AttributesSat => seq!["-A"@, "-d"@, "sat"@, device],
    }
}

impl SmartctlQuery {
    /// The arguments to pass to `smartctl` for this run on `device`.
    pub fn args(self, device: &str) -> (r: Vec<String>)
        ensures
            string_views(r@) == query_args(self, device@),
    {
        let mut r: Vec<String> = Vec::new();
        match self {
            SmartctlQuery::Json => {
                r.push(String::from_str("-a"));
                r.push(String::from_str("-j"));
            },
            SmartctlQuery::JsonSat => {
                r.push(String::from_str("-a"));
                r.push(String::from_str("-j"));
                r.push(String::from_str("-d"));
                r.push(String::from_str("sat"));
            },
            SmartctlQuery::Attributes => {
                r.push(String::from_str("-A"));
            },
            SmartctlQuery::AttributesSat => {
                r.push(String::from_str("-A"));
                r.push(String::from_str("-d"));
                r.push(String::from_str("sat"));
            },
        }
        r.push(String::from_str(device));
        assert(string_views(r@) =~= query_args(self, device@));
        r
    }
}

/// What one `smartctl` run printed on standard output, and whether it
/// exited successfully.
pub struct SmartctlOutput {
    pub stdout: Vec<u8>,
    pub success: bool,
}

/// How far the reading of one device has got, with the report kept so far.
pub enum DeviceStage {
    /// Waiting for `smartctl -a -j`.
    Json,
    /// Waiting for `smartctl -a -j -d sat`.
    JsonSat(Option<SmartDevice>),
    /// Waiting for `smartctl -A`.
    Attributes(Option<SmartDevice>),
    /// Waiting for `smartctl -A -d sat`.
    AttributesSat(Option<SmartDevice>),
}

/// Reading the SMART data of one device.
pub struct DeviceRead {
    pub device: String,
    pub stage: DeviceStage,
}

/// What to do next when reading a device.
pub enum DeviceStep {
    /// Run `smartctl` as the query says and hand its output to the read.
    Run(DeviceRead, SmartctlQuery),
    /// The reading is over, with this report.
    Done(Option<SmartDevice>),
}

pub ghost enum StageView {
    Json,
    JsonSat(Option<SmartDeviceView>),
    Attributes(Option<SmartDeviceView>),
    AttributesSat(Option<SmartDeviceView>),
}

pub ghost enum StepView {
    Run(Seq<char>, StageView, SmartctlQuery),
    Done(Option<SmartDeviceView>),
}

impl View for DeviceStage {
    type V = StageView;

    open spec fn view(&self) -> StageView {
        match self {
            DeviceStage::Json => StageView::Json,
            DeviceStage::JsonSat(p) => StageView::JsonSat(opt_device_view(*p)),
            DeviceStage::Attributes(p) => StageView::Attributes(opt_device_view(*p)),
            DeviceStage::AttributesSat(p) => StageView::AttributesSat(opt_device_view(*p)),
        }
    }
}

impl View for DeviceStep {
    type V = StepView;

    open spec fn view(&self) -> StepView {
        match self {
            DeviceStep::Run(r, q) => StepView::Run(r.device@, r.stage@, *q),
            DeviceStep::Done(d) => StepView::Done(opt_device_view(*d)),
        }
    }
}

/// The report holds a temperature.
pub open spec fn has_temperature(p: Option<SmartDeviceView>) -> bool {
    p matches Some(d) && d.temperature is Some
}

/// How reading `device` proceeds from `stage` once the awaited `smartctl`
/// run gave `out` (`None` when it could not be started):
/// - the JSON report ends the reading once it has a temperature; an `sd`
///   device without one is asked again through SAT, others keep what they got;
/// - after the SAT JSON report (preferred over the first one when present),
///   the attribute table is read, then the attribute table through SAT;
/// - a table with a temperature ends the reading with that temperature added.
pub open spec fn next_step(device: Seq<char>, stage: StageView, out: Option<(Seq<u8>, bool)>) -> StepView {
    match stage {
        StageView::Json => match out {
            None => StepView::Done(None),
            Some((stdout, ok)) => {
                let p = output_report(stdout, ok, device);
                if has_temperature(p) {
                    StepView::Done(p)
                } else if is_sd_device(device) {
                    StepView::Run(device, StageView::JsonSat(p), SmartctlQuery::JsonSat)
                } else {
                    StepView::Done(p)
                }
            },
        },
        StageView::JsonSat(p) => match out {
            None => StepView::Run(device, StageView::Attributes(p), SmartctlQuery::Attributes),
            Some((stdout, ok)) => {
                let sp = output_report(stdout, ok, device);
                if has_temperature(sp) {
                    StepView::Done(sp)
                } else {
                    StepView::Run(
                        device,
                        StageView::Attributes(first_some(sp, p)),
                        SmartctlQuery::Attributes,
                    )
                }
            },
        },
        StageView::Attributes(p) => match out {
            None => StepView::Run(device, StageView::AttributesSat(p), SmartctlQuery::AttributesSat),
            Some((stdout, _)) => match text_report(stdout, device, p) {
                Some(t) => StepView::Done(Some(t)),
                None => StepView::Run(
                    device,
                    StageView::AttributesSat(p),
                    SmartctlQuery::AttributesSat,
                ),
            },
        },
        StageView::AttributesSat(p) => match out {
            None => StepView::Done(p),
            Some((stdout, _)) => match text_report(stdout, device, p) {
                Some(t) => StepView::Done(Some(t)),
                None => StepView::Done(p),
            },
        },
    }
}

/// Position of a stage in the order of runs.
pub open spec fn stage_rank(s: StageView) -> int {
    match s {
        StageView::Json => 0,
        StageView::JsonSat(_) => 1,
        StageView::Attributes(_) => 2,
        StageView::AttributesSat(_) => 3,
    }
}

pub open spec fn output_view(out: Option<SmartctlOutput>) -> Option<(Seq<u8>, bool)> {
    match out {
        Some(o) => Some((o.stdout@, o.success)),
        None => None,
    }
}

/// Reading a device moves forward: every run it asks for belongs to a later
/// stage than the one it was waiting in, so it asks for at most four runs.
pub proof fn lemma_device_read_progresses(
    device: Seq<char>,
    stage: StageView,
    out: Option<(Seq<u8>, bool)>,
)
    ensures
        next_step(device, stage, out) matches StepView::Run(d, s, _) ==> d == device && stage_rank(s)
            > stage_rank(stage),
{
}

impl DeviceRead {
    /// Start reading `device`: the first run is `smartctl -a -j`.
    pub fn start(device: &str) -> (r: (DeviceRead, SmartctlQuery))
        ensures
            r.0.device@ == device@,
            r.0.stage@ == StageView::Json,
            r.1 == SmartctlQuery::Json,
    {
        (DeviceRead { device: String::from_str(device), stage: DeviceStage::Json }, SmartctlQuery::Json)
    }

    /// The step that follows the awaited run's output `out` (`None` when
    /// `smartctl` could not be started).
    pub fn advance(self, out: Option<SmartctlOutput>) -> (r: DeviceStep)
        ensures
            r@ == next_step(self.device@, self.stage@, output_view(out)),
    {
        let device = self.device;
        match self.stage {
            DeviceStage::Json => match out {
                None => DeviceStep::Done(None),
                Some(o) => {
                    let p = SmartHealth::parse_smartctl_output(o.stdout.as_slice(), o.success, device.as_str());
                    let has_temp = match &p {
                        Some(d) => d.temperature.is_some(),
                        None => false,
                    };
                    if has_temp {
                        DeviceStep::Done(p)
                    } else if is_sd_name(device.as_str()) {
                        DeviceStep::Run(
                            DeviceRead { device, stage: DeviceStage::JsonSat(p) },
                            SmartctlQuery::JsonSat,
                        )
                    } else {
                        DeviceStep::Done(p)
                    }
                },
            },
            DeviceStage::JsonSat(p) => match out {
                None => DeviceStep::Run(
                    DeviceRead { device, stage: DeviceStage::Attributes(p) },
                    SmartctlQuery::Attributes,
                ),
                Some(o) => {
                    let sp = SmartHealth::parse_smartctl_output(o.stdout.as_slice(), o.success, device.as_str());
                    let has_temp = match &sp {
                        Some(d) => d.temperature.is_some(),
                        None => false,
                    };
                    if has_temp {
                        DeviceStep::Done(sp)
                    } else {
                        let kept = match sp {
                            Some(d) => Some(d),
                            None => p,
                        };
                        DeviceStep::Run(
                            DeviceRead { device, stage: DeviceStage::Attributes(kept) },
                            SmartctlQuery::Attributes,
                        )
                    }
                },
            },
            DeviceStage::Attributes(p) => match out {
                None => DeviceStep::Run(
                    DeviceRead { device, stage: DeviceStage::AttributesSat(p) },
                    SmartctlQuery::AttributesSat,
                ),
                Some(o) => match SmartHealth::text_temperature_of(o.stdout.as_slice()) {
                    Some(t) => DeviceStep::Done(Some(SmartHealth::with_temperature(device.as_str(), p, t))),
                    None => DeviceStep::Run(
                        DeviceRead { device, stage: DeviceStage::AttributesSat(p) },
                        SmartctlQuery::AttributesSat,
                    ),
                },
            },
            DeviceStage::AttributesSat(p) => match out {
                None => DeviceStep::Done(p),
                Some(o) => match SmartHealth::text_temperature_of(o.stdout.as_slice()) {
                    Some(t) => DeviceStep::Done(Some(SmartHealth::with_temperature(device.as_str(), p, t))),
                    None => DeviceStep::Done(p),
                },
            },
        }
    }
}

/// A temperature from an attribute table completes the report kept from the
/// JSON runs: the reading ends with that report, every field but the
/// temperature unchanged and the table's temperature added; with no report
/// kept, it ends with a report for the device that holds only the
/// temperature and a passing verdict. A table without a temperature, or a
/// run that could not start, keeps the report: the SAT table is tried next,
/// or, after it, the reading ends with the report as it was.
pub proof fn lemma_table_completes_kept_report(
    device: Seq<char>,
    p: Option<SmartDeviceView>,
    out: Option<(Seq<u8>, bool)>,
)
    ensures
        out matches Some((stdout, _)) ==> (text_temperature(utf8_lossy(stdout)) matches Some(t) ==> ({
            let done = match p {
                Some(d) => (SmartDeviceView { temperature: Some(t), ..d }),
                None => (SmartDeviceView {
                    name: device,
                    health_passed: true,
                    temperature: Some(t),
                    reallocated_sectors: None,
                    pending_sectors: None,
                    unsafe_shutdowns: None,
                }),
            };
            &&& next_step(device, StageView::Attributes(p), out) == StepView::Done(Some(done))
            &&& next_step(device, StageView::AttributesSat(p), out) == StepView::Done(Some(done))
        })),
        (out is None || (out matches Some((stdout, _)) && text_temperature(utf8_lossy(stdout))
            is None)) ==> next_step(device, StageView::Attributes(p), out) == StepView::Run(
            device,
            StageView::AttributesSat(p),
            SmartctlQuery::AttributesSat,
        ) && next_step(device, StageView::AttributesSat(p), out) == StepView::Done(p),
{
}

/// The JSON runs: a report with a temperature ends the reading; an `sd`
/// device whose report has none is asked again through SAT, any other device
/// keeps what it got. After the SAT run, a report with a temperature ends
/// the reading, and otherwise the attribute table is read next, keeping the
/// SAT report when there is one and the first report when there is not.
pub proof fn lemma_json_runs(device: Seq<char>, p: Option<SmartDeviceView>, out: Option<(Seq<u8>, bool)>)
    ensures
        out is None ==> next_step(device, StageView::Json, out) == StepView::Done(None),
        out is None ==> next_step(device, StageView::JsonSat(p), out) == StepView::Run(
            device,
            StageView::Attributes(p),
            SmartctlQuery::Attributes,
        ),
        out matches Some((stdout, ok)) ==> ({
            let r = output_report(stdout, ok, device);
            &&& (r matches Some(d) && d.temperature is Some) ==> next_step(device, StageView::Json, out)
                == StepView::Done(r) && next_step(device, StageView::JsonSat(p), out) == StepView::Done(r)
            &&& !(r matches Some(d) && d.temperature is Some) ==> next_step(device, StageView::Json, out)
                == (if is_sd_device(device) {
                StepView::Run(device, StageView::JsonSat(r), SmartctlQuery::JsonSat)
            } else {
                StepView::Done(r)
            })
            &&& !(r matches Some(d) && d.temperature is Some) ==> next_step(
                device,
                StageView::JsonSat(p),
                out,
            ) == StepView::Run(
                device,
                StageView::Attributes(if r is Some { r } else { p }),
                SmartctlQuery::Attributes,
            )
        }),
{
}

} // verus!
