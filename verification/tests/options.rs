use deployer::default_agents;
use deployer::listing::{cluster_address, component_line, option_str};
use deployer::models::{NodeTopology, WatchCallback};
use deployer::options::{ListOptions, StartOptions, StopOptions};
use deployer::time_span::TimeSpan;
use deployer::cluster_label::ClusterLabel;

#[test]
fn default_agents_is_core() {
    assert_eq!(default_agents(), "Core");
}

#[test]
fn builders_set_their_fields() {
    let o = StartOptions::default()
        .with_rest(false)
        .with_jaeger(true)
        .with_build(true)
        .with_build_all(true)
        .with_mayastors(3)
        .with_show_info(true)
        .with_base_image(Some("alpine:latest".to_string()));
    assert!(o.no_rest);
    assert!(o.jaeger);
    assert!(o.build);
    assert!(o.build_all);
    assert_eq!(o.mayastors, 3);
    assert!(o.show_info);
    assert_eq!(o.base_image, Some("alpine:latest".to_string()));
    assert!(!o.elastic);
    assert!(!o.kibana);
    let o = o.with_rest(true);
    assert!(!o.no_rest);
}

#[test]
fn agents_are_kept_in_order() {
    let o = StartOptions::default().with_agents(vec!["Core", "JsonGrpc"]);
    assert_eq!(o.agents, vec!["Core".to_string(), "JsonGrpc".to_string()]);
}

#[test]
fn time_spans_are_set() {
    let busy = TimeSpan { secs: 1, nanos: 0 };
    let idle = TimeSpan { secs: 5, nanos: 500 };
    let o = StartOptions::default()
        .with_store_timeout(TimeSpan { secs: 2, nanos: 0 })
        .with_reconcile_period(busy, idle)
        .with_node_timeouts(TimeSpan { secs: 0, nanos: 10 }, TimeSpan { secs: 7, nanos: 0 });
    assert_eq!(o.store_timeout, Some(TimeSpan { secs: 2, nanos: 0 }));
    assert_eq!(o.reconcile_period, Some(busy));
    assert_eq!(o.reconcile_idle_period, Some(idle));
    assert_eq!(o.node_conn_timeout, Some(TimeSpan { secs: 0, nanos: 10 }));
    assert_eq!(o.node_req_timeout, Some(TimeSpan { secs: 7, nanos: 0 }));
}

#[test]
fn humantime_periods_are_parsed() {
    let o = StartOptions::default().with_cache_period("2h 37min").with_node_deadline("32ms");
    assert_eq!(o.cache_period, Some(TimeSpan { secs: 9420, nanos: 0 }));
    assert_eq!(o.node_deadline, Some(TimeSpan { secs: 0, nanos: 32_000_000 }));
}

#[test]
fn fractional_period_is_parsed() {
    assert_eq!(TimeSpan::parse("4.2s"), Some(TimeSpan { secs: 4, nanos: 200_000_000 }));
    assert_eq!(TimeSpan::parse("0"), Some(TimeSpan { secs: 0, nanos: 0 }));
}

#[test]
fn bad_periods_are_refused() {
    assert_eq!(TimeSpan::parse("soon"), None);
    assert_eq!(TimeSpan::parse(""), None);
    assert!(StartOptions::default().try_with_cache_period("10 parsecs").is_none());
    assert!(StartOptions::default().try_with_node_deadline("").is_none());
}

#[test]
fn checked_periods_are_set() {
    let o = StartOptions::default().try_with_cache_period("30s").unwrap();
    assert_eq!(o.cache_period, Some(TimeSpan { secs: 30, nanos: 0 }));
    let o = o.try_with_node_deadline("1m").unwrap();
    assert_eq!(o.node_deadline, Some(TimeSpan { secs: 60, nanos: 0 }));
    assert_eq!(o.cache_period, Some(TimeSpan { secs: 30, nanos: 0 }));
}

#[test]
fn cluster_name_gives_empty_prefix() {
    let o = StartOptions::default().with_cluster_name("mycluster");
    assert_eq!(o.cluster_label.name(), "mycluster");
    assert_eq!(o.cluster_label.prefix("io.default"), "io.default");
    assert_eq!(o.cluster_label.display_text("p"), "'p'.'mycluster'");
}

#[test]
fn prune_reuse_follows_reuse_cluster() {
    let mut o = StartOptions::default();
    assert_eq!(o.prune_reuse(), (true, false, false));
    o.reuse_cluster = true;
    assert_eq!(o.prune_reuse(), (false, true, true));
}

#[test]
fn info_lister_only_when_showing_info() {
    let o = StartOptions::default().with_cluster_name("c");
    assert!(o.info_lister().is_none());
    let o = o.with_show_info(true);
    let lister = o.info_lister().unwrap();
    assert!(!lister.no_docker);
    assert_eq!(lister.format, None);
    assert_eq!(lister.cluster_label.name(), "c");
}

#[test]
fn docker_args_without_format() {
    let lister = ListOptions {
        no_docker: false,
        format: None,
        cluster_label: ClusterLabel::from_str("io.c").unwrap(),
    };
    assert_eq!(lister.docker_args("dflt"), vec!["ps", "-a", "--filter", "label=io.name=c"]);
}

#[test]
fn docker_args_with_format() {
    let lister = ListOptions {
        no_docker: false,
        format: Some("{{.Names}}".to_string()),
        cluster_label: ClusterLabel::from_str(".c").unwrap(),
    };
    assert_eq!(
        lister.docker_args("dflt"),
        vec!["ps", "-a", "--filter", "label=dflt.name=c", "--format", "{{.Names}}"]
    );
}

#[test]
fn list_options_default() {
    let lister = ListOptions::default();
    assert!(!lister.no_docker);
    assert_eq!(lister.format, None);
    assert_eq!(lister.cluster_label.name(), "");
}

#[test]
fn stop_options_hold_label() {
    let stop = StopOptions { cluster_label: ClusterLabel::from_str("a.b").unwrap() };
    assert_eq!(stop.cluster_label.filter("x"), "a.name=b");
}

#[test]
fn option_str_shows_question_mark() {
    assert_eq!(option_str(None), "?");
    assert_eq!(option_str(Some("run".to_string())), "run");
}

#[test]
fn component_line_formats_all_parts() {
    let line = component_line(
        Some(vec!["/core".to_string(), "/other".to_string()]),
        Some("10.1.0.2".to_string()),
        Some("core-agent -v".to_string()),
    );
    assert_eq!(line, "[/core] [10.1.0.2] core-agent -v");
}

#[test]
fn component_line_defaults() {
    assert_eq!(component_line(None, None, None), "[?] [] ?");
    assert_eq!(component_line(Some(vec![]), None, None), "[?] [] ?");
}

#[test]
fn node_topology_constructors() {
    let t = NodeTopology::new(vec!["a".to_string()], vec!["b".to_string(), "c".to_string()]);
    assert_eq!(t.exclusion, vec!["a".to_string()]);
    assert_eq!(t.inclusion, vec!["b".to_string(), "c".to_string()]);
    let t = NodeTopology::new_all(vec![], vec!["x".to_string()]);
    assert!(t.exclusion.is_empty());
    assert_eq!(t.inclusion, vec!["x".to_string()]);
    let d = NodeTopology::default();
    assert!(d.exclusion.is_empty() && d.inclusion.is_empty());
}

#[test]
fn watch_callback_holds_uri() {
    let cb = WatchCallback::uri("http://host/cb".to_string());
    match cb.clone() {
        WatchCallback::uri(u) => assert_eq!(u, "http://host/cb"),
    }
}

#[test]
fn parser_range_follows_digits_and_units() {
    assert!(TimeSpan::fits_parser("2h 37min"));
    assert!(TimeSpan::fits_parser(""));
    assert!(TimeSpan::fits_parser("99999999999y"));
    assert!(!TimeSpan::fits_parser("999999999999y"));
    assert!(TimeSpan::fits_parser("123456789012s"));
    assert!(TimeSpan::fits_parser("99999999999999999min"));
    assert!(!TimeSpan::fits_parser("999999999999999999min"));
    assert!(TimeSpan::fits_parser("9999999999999999999ns"));
    assert!(TimeSpan::fits_parser("1234567890123456789s"));
    assert!(!TimeSpan::fits_parser("12345678901234567890s"));
    assert!(!TimeSpan::fits_parser("123456789012seconds"));
    assert!(!TimeSpan::fits_parser("123456789012M"));
    assert!(!TimeSpan::fits_parser("18446744073709551615s 1000000000ns"));
    assert!(TimeSpan::fits_parser("5µs"));
}

#[test]
fn long_second_durations_are_parsed() {
    assert_eq!(TimeSpan::parse("123456789012s"), Some(TimeSpan { secs: 123_456_789_012, nanos: 0 }));
    assert_eq!(
        TimeSpan::parse("9999999999999999999s"),
        Some(TimeSpan { secs: 9_999_999_999_999_999_999, nanos: 0 })
    );
    assert_eq!(
        TimeSpan::parse("99999999999999999min"),
        Some(TimeSpan { secs: 99_999_999_999_999_999 * 60, nanos: 0 })
    );
    let o = StartOptions::default().with_cache_period("123456789012s");
    assert_eq!(o.cache_period, Some(TimeSpan { secs: 123_456_789_012, nanos: 0 }));
}

#[test]
fn node_topology_and_callback_compare() {
    let a = NodeTopology::new(vec!["x".to_string()], vec![]);
    assert_eq!(a.clone(), a);
    assert_ne!(a, NodeTopology::default());
    assert_eq!(WatchCallback::uri("u".to_string()), WatchCallback::uri("u".to_string()));
}

#[test]
fn largest_allowed_duration_is_parsed() {
    assert_eq!(
        TimeSpan::parse("99999999999y"),
        Some(TimeSpan { secs: 99_999_999_999 * 31_557_600, nanos: 0 })
    );
    assert_eq!(
        TimeSpan::parse("9999999999.9y"),
        Some(TimeSpan { secs: 99_999_999_999 * 31_557_600 / 10, nanos: 0 })
    );
}

#[test]
fn cluster_address_picks_the_cluster_network() {
    let networks = vec![
        ("bridge".to_string(), Some("172.17.0.2".to_string())),
        ("cluster".to_string(), Some("10.1.0.5".to_string())),
    ];
    assert_eq!(cluster_address(Some(networks.clone()), "cluster"), Some("10.1.0.5".to_string()));
    assert_eq!(cluster_address(Some(networks), "other"), None);
    assert_eq!(cluster_address(None, "cluster"), None);
    let no_ip = vec![("cluster".to_string(), None)];
    assert_eq!(cluster_address(Some(no_ip), "cluster"), None);
}
