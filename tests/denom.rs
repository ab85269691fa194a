use ghost_swap_adapter::denom::{route, third_segment};
use ghost_swap_adapter::DebtConfig;

#[test]
fn third_segment_of_three_segments() {
    assert_eq!(third_segment(&"factory/x/marketAddr1".to_string()), Some("marketAddr1".to_string()));
}

#[test]
fn third_segment_of_other_counts() {
    assert_eq!(third_segment(&"".to_string()), None);
    assert_eq!(third_segment(&"a/b".to_string()), None);
    assert_eq!(third_segment(&"a/b/c/d".to_string()), None);
    assert_eq!(third_segment(&"//".to_string()), Some(String::new()));
}

#[test]
fn route_by_first_rule() {
    let rules = vec![
        DebtConfig { denom: "uusd".to_string(), debt_denom: "f/x/one".to_string() },
        DebtConfig { denom: "uusd".to_string(), debt_denom: "f/x/two".to_string() },
    ];
    assert_eq!(route(&rules, &"uusd".to_string()), Some("one".to_string()));
    assert_eq!(route(&rules, &"ukuji".to_string()), None);
}
