use vstd::prelude::*;
use crate::theme::Theme;

verus! {

/// How serious an alert is; critical outranks warning.
#[derive(Debug, Clone, Copy, PartialEq, Eq, PartialOrd, Ord, Structural)]
pub enum AlertLevel {
    Warning,
    Critical,
}

/// An alert a ship system raises.
#[derive(Debug, Clone, Copy, PartialEq, Eq)]
pub struct Alert {
    pub level: AlertLevel,
    pub label: &'static str,
}

impl Alert {
    pub fn warning(label: &'static str) -> (a: Alert)
        ensures
            a.level == AlertLevel::Warning,
            a.label == label,
    {
        Alert { level: AlertLevel::Warning, label }
    }

    pub fn critical(label: &'static str) -> (a: Alert)
        ensures
            a.level == AlertLevel::Critical,
            a.label == label,
    {
        Alert { level: AlertLevel::Critical, label }
    }
}

/// The highest level among `alerts`: `None` when there are none.
pub open spec fn top_level_of(alerts: Seq<Alert>) -> Option<AlertLevel> {
    if alerts.len() == 0 {
        None
    } else if exists|i: int| 0 <= i < alerts.len() && alerts[i].level == AlertLevel::Critical {
        Some(AlertLevel::Critical)
    } else {
        Some(AlertLevel::Warning)
    }
}

/// A banner of alerts, indented by a number of spaces.
pub struct Alerts<'a> {
    pub alerts: &'a [Alert],
    pub theme: &'a Theme,
    pub indent: usize,
}

impl<'a> Alerts<'a> {
    pub fn new(alerts: &'a [Alert], theme: &'a Theme) -> (w: Alerts<'a>)
        ensures
            w.alerts == alerts,
            w.theme == theme,
            w.indent == 0,
    {
        Alerts { alerts, theme, indent: 0 }
    }

    pub fn indent(self, indent: usize) -> (w: Alerts<'a>)
        ensures
            w.alerts == self.alerts,
            w.theme == self.theme,
            w.indent == indent,
    {
        Alerts { indent, ..self }
    }

    /// The most serious level of the banner.
    pub fn top_level(&self) -> (l: Option<AlertLevel>)
        ensures
            l == top_level_of(self.alerts@),
    {
        let mut top: Option<AlertLevel> = None;
        let mut i: usize = 0;
        while i < self.alerts.len()
            invariant
                i <= self.alerts@.len(),
                top == top_level_of(self.alerts@.take(i as int)),
            decreases self.alerts@.len() - i,
        {
            let ghost prefix = self.alerts@.take(i as int);
            let ghost next = self.alerts@.take(i + 1);
            assert(next =~= prefix.push(self.alerts@[i as int]));
            assert(forall|j: int| 0 <= j < prefix.len() ==> next[j] == prefix[j]);
            if self.alerts[i].level == AlertLevel::Critical {
                top = Some(AlertLevel::Critical);
                assert(next[i as int].level == AlertLevel::Critical);
            } else if top.is_none() {
                top = Some(AlertLevel::Warning);
            }
            i = i + 1;
        }
        assert(self.alerts@.take(i as int) =~= self.alerts@);
        top
    }
}

/// The alerts of the life pods, given how many pods are left, whether their
/// power supply is short of the safe saturation, and whether their average
/// integrity is below the warning line.
pub open spec fn spec_pod_alerts(pod_count: usize, power_short: bool, integrity_low: bool) -> Seq<Alert> {
    if pod_count == 0 {
        seq![Alert { level: AlertLevel::Critical, label: "ALL PODS DESTROYED" }]
    } else {
        (if power_short {
            seq![Alert { level: AlertLevel::Critical, label: "LIFE SUPPORT LOSS" }]
        } else {
            Seq::empty()
        }) + (if integrity_low {
            seq![Alert { level: AlertLevel::Warning, label: "POD INTEGRITY LOW" }]
        } else {
            Seq::empty()
        })
    }
}

/// Life support fails when pods remain and their power is short.
pub open spec fn spec_life_support_failing(pod_count: usize, power_short: bool) -> bool {
    pod_count > 0 && power_short
}

pub fn life_support_failing(pod_count: usize, power_short: bool) -> (b: bool)
    ensures
        b == spec_life_support_failing(pod_count, power_short),
{
    pod_count > 0 && power_short
}

/// The alerts the life-pod screens show.
pub fn pod_alerts(pod_count: usize, power_short: bool, integrity_low: bool) -> (alerts: Vec<Alert>)
    ensures
        alerts@ == spec_pod_alerts(pod_count, power_short, integrity_low),
{
    if pod_count == 0 {
        let mut v: Vec<Alert> = Vec::new();
        v.push(Alert::critical("ALL PODS DESTROYED"));
        return v;
    }
    let mut alerts: Vec<Alert> = Vec::new();
    if life_support_failing(pod_count, power_short) {
        alerts.push(Alert::critical("LIFE SUPPORT LOSS"));
    }
    if integrity_low {
        alerts.push(Alert::warning("POD INTEGRITY LOW"));
    }
    alerts
}

/// The alerts of the reactor, given whether its health is used up, whether it
/// is below full, and whether its fusion saturation is under a tenth.
pub open spec fn spec_reactor_alerts(offline: bool, damaged: bool, fuel_short: bool) -> Seq<Alert> {
    (if offline {
        seq![Alert { level: AlertLevel::Critical, label: "REACTOR OFFLINE" }]
    } else if damaged {
        seq![Alert { level: AlertLevel::Warning, label: "REACTOR DAMAGED" }]
    } else {
        Seq::empty()
    }) + (if fuel_short {
        seq![Alert { level: AlertLevel::Warning, label: "LACKING FUSION FUEL" }]
    } else {
        Seq::empty()
    })
}

pub fn reactor_alerts(offline: bool, damaged: bool, fuel_short: bool) -> (alerts: Vec<Alert>)
    ensures
        alerts@ == spec_reactor_alerts(offline, damaged, fuel_short),
{
    let mut alerts: Vec<Alert> = Vec::new();
    if offline {
        alerts.push(Alert::critical("REACTOR OFFLINE"));
    } else if damaged {
        alerts.push(Alert::warning("REACTOR DAMAGED"));
    }
    if fuel_short {
        alerts.push(Alert::warning("LACKING FUSION FUEL"));
    }
    proof {
        assert(alerts@ =~= spec_reactor_alerts(offline, damaged, fuel_short));
    }
    alerts
}

/// A ship with no pods left raises exactly one alert, a critical one; with
/// pods aboard, failing life support is always reported as critical.
pub proof fn lemma_pod_alert_levels(pod_count: usize, power_short: bool, integrity_low: bool)
    ensures
        pod_count == 0 ==> top_level_of(spec_pod_alerts(pod_count, power_short, integrity_low))
            == Some(AlertLevel::Critical) && spec_pod_alerts(pod_count, power_short, integrity_low).len() == 1,
        spec_life_support_failing(pod_count, power_short) ==> top_level_of(
            spec_pod_alerts(pod_count, power_short, integrity_low),
        ) == Some(AlertLevel::Critical),
        pod_count > 0 && !power_short && !integrity_low ==> top_level_of(
            spec_pod_alerts(pod_count, power_short, integrity_low),
        ) is None,
{
    let s = spec_pod_alerts(pod_count, power_short, integrity_low);
    if pod_count == 0 {
        assert(s[0].level == AlertLevel::Critical);
    } else if power_short {
        assert(s[0].level == AlertLevel::Critical);
    } else if !integrity_low {
        assert(s =~= Seq::<Alert>::empty());
    }
}

/// With pods aboard, the critical "LIFE SUPPORT LOSS" is raised exactly when
/// their power is short, the warning "POD INTEGRITY LOW" exactly when their
/// integrity is low, each at most once, and nothing else is raised; with no
/// pods left, the one alert is the critical "ALL PODS DESTROYED".
pub proof fn lemma_pod_alerts_raised(pod_count: usize, power_short: bool, integrity_low: bool)
    ensures
        ({
            let a = spec_pod_alerts(pod_count, power_short, integrity_low);
            let loss = Alert { level: AlertLevel::Critical, label: "LIFE SUPPORT LOSS" };
            let worn = Alert { level: AlertLevel::Warning, label: "POD INTEGRITY LOW" };
            &&& pod_count > 0 ==> (a.contains(loss) <==> power_short)
            &&& pod_count > 0 ==> (a.contains(worn) <==> integrity_low)
            &&& pod_count > 0 ==> forall|i: int| 0 <= i < a.len() ==> a[i] == loss || a[i] == worn
            &&& pod_count > 0 ==> a.len() == (if power_short { 1int } else { 0 }) + (if integrity_low { 1int } else { 0 })
            &&& pod_count == 0 ==> a == seq![Alert { level: AlertLevel::Critical, label: "ALL PODS DESTROYED" }]
        }),
{
    reveal_strlit("LIFE SUPPORT LOSS");
    reveal_strlit("POD INTEGRITY LOW");
    assert("LIFE SUPPORT LOSS"@[0] != "POD INTEGRITY LOW"@[0]);
    let a = spec_pod_alerts(pod_count, power_short, integrity_low);
    let loss = Alert { level: AlertLevel::Critical, label: "LIFE SUPPORT LOSS" };
    let worn = Alert { level: AlertLevel::Warning, label: "POD INTEGRITY LOW" };
    assert(loss != worn);
    if pod_count > 0 {
        if power_short {
            assert(a[0] == loss);
        }
        if integrity_low {
            assert(a[a.len() - 1] == worn);
        }
    }
}

/// The reactor raises the critical "REACTOR OFFLINE" exactly when it is
/// offline, the warning "REACTOR DAMAGED" exactly when it is damaged but not
/// offline, the warning "LACKING FUSION FUEL" exactly when its fuel is short,
/// and nothing else.
pub proof fn lemma_reactor_alerts_raised(offline: bool, damaged: bool, fuel_short: bool)
    ensures
        ({
            let a = spec_reactor_alerts(offline, damaged, fuel_short);
            let off = Alert { level: AlertLevel::Critical, label: "REACTOR OFFLINE" };
            let hurt = Alert { level: AlertLevel::Warning, label: "REACTOR DAMAGED" };
            let dry = Alert { level: AlertLevel::Warning, label: "LACKING FUSION FUEL" };
            &&& a.contains(off) <==> offline
            &&& a.contains(hurt) <==> damaged && !offline
            &&& a.contains(dry) <==> fuel_short
            &&& forall|i: int| 0 <= i < a.len() ==> a[i] == off || a[i] == hurt || a[i] == dry
        }),
{
    reveal_strlit("REACTOR OFFLINE");
    reveal_strlit("REACTOR DAMAGED");
    reveal_strlit("LACKING FUSION FUEL");
    assert("REACTOR OFFLINE"@[8] != "REACTOR DAMAGED"@[8]);
    assert("REACTOR OFFLINE"@[0] != "LACKING FUSION FUEL"@[0]);
    assert("REACTOR DAMAGED"@[0] != "LACKING FUSION FUEL"@[0]);
    let a = spec_reactor_alerts(offline, damaged, fuel_short);
    let off = Alert { level: AlertLevel::Critical, label: "REACTOR OFFLINE" };
    let hurt = Alert { level: AlertLevel::Warning, label: "REACTOR DAMAGED" };
    let dry = Alert { level: AlertLevel::Warning, label: "LACKING FUSION FUEL" };
    assert(off != hurt && off != dry && hurt != dry);
    if offline || damaged {
        assert(a[0] == if offline { off } else { hurt });
    }
    if fuel_short {
        assert(a[a.len() - 1] == dry);
    }
}

} // verus!
