use acso7::alert::{pod_alerts, reactor_alerts, life_support_failing, Alert, AlertLevel, Alerts};
use acso7::colonist::{Colonist, Sex, MAX_AGE, MIN_AGE};
use acso7::labels::colonist_row;
use acso7::order::most_recent_first;
use acso7::events::{WorldEvent, WorldEvents};
use acso7::history::{tier_cap, tier_label, TIER_COUNT};
use acso7::name_gen::{pick_by_roll, weighted};
use acso7::reactor::ReactorMode;
use acso7::resources::{FlowSource, PowerRoute, PowerRouter, ShipResource, RESOURCE_COUNT};
use acso7::theme::{Rgb, Theme};

fn colonist(first: &str, last: &str, age: u8) -> Colonist {
    Colonist { sex: Sex::Female, age, first_name: first.to_string(), last_name: last.to_string() }
}

#[test]
fn reactor_modes_cycle() {
    for mode in ReactorMode::ALL {
        assert_eq!(mode.next().prev(), mode);
        assert_eq!(mode.prev().next(), mode);
        assert_eq!(mode.next().next().next(), mode);
    }
    assert_eq!(ReactorMode::DHe3.next(), ReactorMode::DD);
    assert_eq!(ReactorMode::DD.next(), ReactorMode::CatDD);
    assert_eq!(ReactorMode::default(), ReactorMode::DHe3);
    assert_eq!(ReactorMode::CatDD.label(), "CAT-DD");
    assert_eq!(ReactorMode::DHe3.label(), "D-HE³");
    assert_eq!(ReactorMode::DHe3.help_lines().len(), 4);
    assert_eq!(ReactorMode::DD.help_lines()[0], "IN   Deuterium");
}

#[test]
fn resource_names_and_tanks() {
    assert_eq!(ShipResource::Helium3.short_name(), "HE3");
    assert_eq!(ShipResource::CarbonDioxide.name(), "CARBON DIOXIDE");
    assert_eq!(ShipResource::Power.base_capacity(), None);
    assert_eq!(ShipResource::Deuterium.base_capacity(), Some(50_000));
    assert_eq!(ShipResource::Oxygen.base_capacity(), Some(20_000));
    assert_eq!(ShipResource::Water.base_capacity(), Some(100_000));
    assert_eq!(ShipResource::nth(0), Some(ShipResource::Power));
    assert_eq!(ShipResource::nth(RESOURCE_COUNT - 1), Some(ShipResource::Methane));
    assert_eq!(ShipResource::nth(RESOURCE_COUNT), None);
    assert_eq!(ShipResource::selected(4), ShipResource::Deuterium);
    assert_eq!(ShipResource::selected(99), ShipResource::Power);
    assert_eq!(FlowSource::LifeSupport.label(), "LIFE SUPPORT");
    assert_eq!(PowerRoute::Pods, PowerRoute::Pods);
    let _router = PowerRouter::default();
}

#[test]
fn pod_alerts_follow_the_pods() {
    let none = pod_alerts(0, true, true);
    assert_eq!(none, vec![Alert::critical("ALL PODS DESTROYED")]);
    assert_eq!(
        pod_alerts(5, true, true),
        vec![Alert::critical("LIFE SUPPORT LOSS"), Alert::warning("POD INTEGRITY LOW")]
    );
    assert_eq!(pod_alerts(5, false, true), vec![Alert::warning("POD INTEGRITY LOW")]);
    assert!(pod_alerts(5, false, false).is_empty());
    assert!(life_support_failing(1, true));
    assert!(!life_support_failing(0, true));
}

#[test]
fn reactor_alerts_follow_health_and_fuel() {
    assert_eq!(
        reactor_alerts(true, true, true),
        vec![Alert::critical("REACTOR OFFLINE"), Alert::warning("LACKING FUSION FUEL")]
    );
    assert_eq!(reactor_alerts(false, true, false), vec![Alert::warning("REACTOR DAMAGED")]);
    assert!(reactor_alerts(false, false, false).is_empty());
}

#[test]
fn alert_banner_takes_the_worst_level() {
    let theme = Theme::default();
    let alerts = [Alert::warning("A"), Alert::critical("B"), Alert::warning("C")];
    let banner = Alerts::new(&alerts, &theme);
    assert_eq!(banner.top_level(), Some(AlertLevel::Critical));
    assert_eq!(Alerts::new(&alerts[..1], &theme).top_level(), Some(AlertLevel::Warning));
    assert_eq!(Alerts::new(&[], &theme).top_level(), None);
    assert_eq!(banner.indent(5).indent, 5);
    assert!(AlertLevel::Warning < AlertLevel::Critical);
}

#[test]
fn colonist_names_and_events() {
    let c = colonist("Ellen", "Ripley", 42);
    assert_eq!(c.full_name(), "Ellen Ripley");
    let e = WorldEvent::PodDestroyed(colonist("Ada", "Lovelace", 7));
    assert_eq!(e.message(), "POD LOST — Ada Lovelace (7) has perished");
    let mut events = WorldEvents::new();
    events.pod_destroyed(c.clone());
    events.push(WorldEvent::PodDestroyed(colonist("Bo", "Li", 100)));
    assert_eq!(
        events.into_messages(),
        vec![
            "POD LOST — Ellen Ripley (42) has perished".to_string(),
            "POD LOST — Bo Li (100) has perished".to_string()
        ]
    );
    assert!(WorldEvents::new().into_messages().is_empty());
}

#[test]
fn random_colonist_traits_stay_in_range() {
    let mut rng = fastrand::Rng::with_seed(42);
    let mut seen_f = false;
    let mut seen_m = false;
    let mut ages = std::collections::BTreeSet::new();
    for _ in 0..1000 {
        let age = Colonist::random_age(&mut rng);
        assert!((MIN_AGE..=MAX_AGE).contains(&age));
        ages.insert(age);
        match Sex::random(&mut rng) {
            Sex::Female => seen_f = true,
            Sex::Male => seen_m = true,
        }
    }
    assert!(seen_f && seen_m);
    assert!(ages.len() > 30);
}

#[test]
fn rolls_land_by_cumulative_weight() {
    let items = [('a', 2u32), ('b', 0), ('c', 3)];
    assert_eq!(pick_by_roll(&items, 0), 'a');
    assert_eq!(pick_by_roll(&items, 1), 'a');
    assert_eq!(pick_by_roll(&items, 2), 'c');
    assert_eq!(pick_by_roll(&items, 4), 'c');
    assert_eq!(pick_by_roll(&items, 99), 'c');
}

#[test]
fn weighted_draws_skip_weightless_items() {
    let mut rng = fastrand::Rng::with_seed(7);
    let items = [("x", 1u32), ("never", 0), ("y", 5)];
    let mut ys = 0;
    for _ in 0..600 {
        let pick = weighted(&mut rng, &items);
        assert_ne!(pick, "never");
        if pick == "y" {
            ys += 1;
        }
    }
    assert!(ys > 300);
}

#[test]
fn tier_tables() {
    assert_eq!(tier_label(0), "10 S");
    assert_eq!(tier_label(1), "2 MIN");
    assert_eq!(tier_label(TIER_COUNT - 1), "1000 YR");
    assert_eq!(tier_label(99), "1000 YR");
    assert_eq!(tier_cap(0), 100);
    assert_eq!(tier_cap(3), 72);
    assert_eq!(tier_cap(99), 120);
}

#[test]
fn theme_palette() {
    let t = Theme::default();
    assert_eq!(t.background, Rgb::new(0x0A, 0x0E, 0x14));
    assert_eq!(t.danger, Rgb::new(0xFF, 0xB0, 0x00));
    assert_eq!(Rgb::new(1, 2, 3).g, 2);
}

#[test]
fn coin_heads_is_female() {
    assert_eq!(Sex::from_coin(true), Sex::Female);
    assert_eq!(Sex::from_coin(false), Sex::Male);
}

#[test]
fn colonist_rows_line_up() {
    let c = Colonist { sex: Sex::Male, age: 42, first_name: "Ada".to_string(), last_name: "Kerr".to_string() };
    let row = colonist_row(6, &c, true);
    assert_eq!(row, format!("▶ {:>4}  {:<28} {}  {:>3}", 7, "Ada Kerr", "M", 42));
    assert_eq!(row, "▶    7  Ada Kerr                     M   42");
    let f = colonist(&"x".repeat(30), "Y", 18);
    assert_eq!(colonist_row(12344, &f, false), format!("  12345  {} F   18", f.full_name()));
}

#[test]
fn saved_worlds_most_recent_first() {
    assert_eq!(most_recent_first(&vec![5, 7, 5, -3, 9]), vec![4, 1, 0, 2, 3]);
    assert!(most_recent_first(&Vec::new()).is_empty());
}
