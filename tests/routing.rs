use celery_beat::routing::{glob_match, route};

#[test]
fn glob_patterns() {
    assert!(glob_match("*", ""));
    assert!(glob_match("*", "anything"));
    assert!(glob_match("math.*", "math.add"));
    assert!(!glob_match("math.*", "mathadd"));
    assert!(glob_match("a*b*c", "axxbyyc"));
    assert!(!glob_match("a*b*c", "axxbyy"));
    assert!(glob_match("exact", "exact"));
    assert!(!glob_match("exact", "exactly"));
    assert!(!glob_match("", "x"));
    assert!(glob_match("", ""));
}

#[test]
fn first_matching_rule_wins() {
    let rules = vec![
        ("io.*".to_string(), "io".to_string()),
        ("*.add".to_string(), "adders".to_string()),
        ("*".to_string(), "rest".to_string()),
    ];
    assert_eq!(route("io.add", &rules), Some("io".to_string()));
    assert_eq!(route("math.add", &rules), Some("adders".to_string()));
    assert_eq!(route("math.mul", &rules), Some("rest".to_string()));
    assert_eq!(route("math.mul", &Vec::new()), None);
}
