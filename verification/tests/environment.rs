use xdir::{cache, home, runtime, Environment};

#[test]
fn new_environment_has_no_variable() {
    let env = Environment::new(Some("/home/alice".to_string()));
    assert_eq!(env.get("XDG_CACHE_HOME"), None);
    assert_eq!(env.get("HOME"), None);
    assert_eq!(env.get(""), None);
    assert_eq!(env.home(), Some("/home/alice"));
}

#[test]
fn new_environment_without_home() {
    let env = Environment::new(None);
    assert_eq!(env.home(), None);
}

#[test]
fn set_then_get() {
    let mut env = Environment::new(None);
    env.set("A", "1");
    env.set("B", "2");
    assert_eq!(env.get("A"), Some("1"));
    assert_eq!(env.get("B"), Some("2"));
    assert_eq!(env.get("C"), None);
}

#[test]
fn get_keeps_an_empty_value() {
    let mut env = Environment::new(None);
    env.set("A", "");
    assert_eq!(env.get("A"), Some(""));
}

#[test]
fn a_later_set_replaces_an_earlier_one() {
    let mut env = Environment::new(None);
    env.set("A", "1");
    env.set("B", "2");
    env.set("A", "3");
    assert_eq!(env.get("A"), Some("3"));
    assert_eq!(env.get("B"), Some("2"));
    env.set("A", "");
    assert_eq!(env.get("A"), Some(""));
    env.set("A", "4");
    assert_eq!(env.get("A"), Some("4"));
}

#[test]
fn names_are_told_apart_exactly() {
    let mut env = Environment::new(None);
    env.set("XDG_CACHE_HOME", "upper");
    env.set("xdg_cache_home", "lower");
    env.set("XDG_CACHE_HOME ", "padded");
    assert_eq!(env.get("XDG_CACHE_HOME"), Some("upper"));
    assert_eq!(env.get("xdg_cache_home"), Some("lower"));
    assert_eq!(env.get("XDG_CACHE_HOME "), Some("padded"));
    assert_eq!(cache(&env), Some("upper".to_string()));
}

#[test]
fn set_leaves_home_alone() {
    let mut env = Environment::new(Some("/home/alice".to_string()));
    env.set("HOME", "/elsewhere");
    assert_eq!(env.home(), Some("/home/alice"));
    assert_eq!(home(&env), Some("/home/alice".to_string()));
    assert_eq!(cache(&env), Some("/home/alice/.cache".to_string()));
}

#[test]
fn clone_stands_for_the_same() {
    let mut env = Environment::new(Some("/home/alice".to_string()));
    env.set("A", "1");
    env.set("A", "2");
    env.set("B", "3");
    let mut copy = env.clone();
    assert_eq!(copy.home(), Some("/home/alice"));
    assert_eq!(copy.get("A"), Some("2"));
    assert_eq!(copy.get("B"), Some("3"));
    assert_eq!(copy.get("C"), None);
    copy.set("A", "4");
    assert_eq!(copy.get("A"), Some("4"));
    assert_eq!(env.get("A"), Some("2"));
}

#[test]
fn detect_asks_the_platform_for_home() {
    let env = Environment::detect();
    let expected = home::home_dir().and_then(|dir| dir.into_os_string().into_string().ok());
    assert_eq!(home(&env), expected);
    assert_eq!(env.home().map(|dir| dir.to_string()), expected);
}

#[test]
fn detect_takes_no_variable() {
    let env = Environment::detect();
    assert_eq!(env.get("XDG_CACHE_HOME"), None);
    assert_eq!(env.get("XDG_RUNTIME_DIR"), None);
    assert_eq!(env.get("HOME"), None);
    assert_eq!(env.get("PATH"), None);
    assert_eq!(runtime(&env), None);
}

#[test]
fn detect_then_default() {
    let env = Environment::detect();
    let expected = home(&env).map(|dir| xdir::join(&dir, ".cache"));
    assert_eq!(cache(&env), expected);
}
