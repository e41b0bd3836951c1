//! Behavior of the simulated environment provider, exercised through the
//! capability interface.

#![allow(non_snake_case)]

use simulated_env::env::simulated::SimulatedEnv;
use simulated_env::env::Env;

#[test]
#[should_panic]
fn args__called_before_set__panics() {
    let provider = SimulatedEnv::new();
    let _ = provider.args();
}

#[test]
fn args__set_and_get__success() {
    let mut provider = SimulatedEnv::new();
    let args = vec!["app".to_string(), "arg1".to_string(), "arg2".to_string()];

    provider.set_args(args.clone());
    let result: Vec<String> = provider.args();

    assert_eq!(args, result);
}

#[test]
#[should_panic]
fn args_os__called_before_set__panics() {
    let provider = SimulatedEnv::new();
    let _ = provider.args_os();
}

#[test]
fn args_os__set_and_get__success() {
    let mut provider = SimulatedEnv::new();
    let args: Vec<Vec<u8>> = vec![
        "app".as_bytes().to_vec(),
        "arg1".as_bytes().to_vec(),
        "arg2".as_bytes().to_vec(),
    ];

    provider.set_args_os(args.clone());
    let result: Vec<Vec<u8>> = provider.args_os();

    assert_eq!(args, result);
}

#[test]
#[should_panic]
fn current_dir__called_before_set__panics() {
    let provider = SimulatedEnv::new();
    let _ = provider.current_dir();
}

#[test]
fn current_dir__set_and_get__success() {
    let mut provider = SimulatedEnv::new();
    let path = "/foo/bar";

    provider.set_current_dir(path.to_string()).unwrap();
    let result = provider.current_dir().unwrap();

    assert_eq!(path, result);
}

#[test]
#[should_panic]
fn current_exe__called_before_set__panics() {
    let provider = SimulatedEnv::new();
    let _ = provider.current_exe();
}

#[test]
fn current_exe__set_and_get__success() {
    let mut provider = SimulatedEnv::new();
    let path = "/foo/bar";

    provider.set_current_exe(path.to_string());
    let result = provider.current_exe().unwrap();

    assert_eq!(path, result);
    assert!(!provider.has_current_dir());
}

#[test]
fn args__read_twice__identical() {
    let mut provider = SimulatedEnv::new();
    let args = vec!["app".to_string(), "arg1".to_string(), "arg2".to_string()];

    provider.set_args(args.clone());
    let first: Vec<String> = provider.args();
    let second: Vec<String> = provider.args();

    assert_eq!(args, first);
    assert_eq!(first, second);
}

#[test]
fn args_os__read_twice__identical() {
    let mut provider = SimulatedEnv::new();
    let args: Vec<Vec<u8>> = vec!["app".as_bytes().to_vec(), "arg1".as_bytes().to_vec()];

    provider.set_args_os(args.clone());
    let first: Vec<Vec<u8>> = provider.args_os();
    let second: Vec<Vec<u8>> = provider.args_os();

    assert_eq!(args, first);
    assert_eq!(first, second);
}

#[test]
fn args__set_empty__yields_empty() {
    let mut provider = SimulatedEnv::new();

    provider.set_args(Vec::new());
    let result: Vec<String> = provider.args();

    assert!(result.is_empty());
}

#[test]
fn args__set_twice__last_value_wins() {
    let mut provider = SimulatedEnv::new();

    provider.set_args(vec!["first".to_string()]);
    provider.set_args(vec!["second".to_string(), "third".to_string()]);
    let result: Vec<String> = provider.args();

    assert_eq!(vec!["second".to_string(), "third".to_string()], result);
}

#[test]
fn new__nothing_configured() {
    let provider = SimulatedEnv::new();

    assert!(!provider.has_args());
    assert!(!provider.has_args_os());
    assert!(!provider.has_current_dir());
    assert!(!provider.has_current_exe());
}

#[test]
fn default__nothing_configured() {
    let provider = SimulatedEnv::default();

    assert!(!provider.has_args());
    assert!(!provider.has_args_os());
    assert!(!provider.has_current_dir());
    assert!(!provider.has_current_exe());
}

#[test]
fn set_args__leaves_other_facts_unconfigured() {
    let mut provider = SimulatedEnv::new();

    provider.set_args(vec!["app".to_string()]);

    assert!(provider.has_args());
    assert!(!provider.has_args_os());
    assert!(!provider.has_current_dir());
    assert!(!provider.has_current_exe());
}

#[test]
fn set_args_os__leaves_other_facts_unconfigured() {
    let mut provider = SimulatedEnv::new();

    provider.set_args_os(vec!["app".as_bytes().to_vec()]);

    assert!(!provider.has_args());
    assert!(provider.has_args_os());
    assert!(!provider.has_current_dir());
    assert!(!provider.has_current_exe());
}

#[test]
fn set_current_dir__leaves_other_facts_unconfigured() {
    let mut provider = SimulatedEnv::new();

    provider.set_current_dir("/somewhere".to_string()).unwrap();

    assert!(!provider.has_args());
    assert!(!provider.has_args_os());
    assert!(provider.has_current_dir());
    assert!(!provider.has_current_exe());
}

#[test]
fn set_current_exe__leaves_other_facts_unconfigured() {
    let mut provider = SimulatedEnv::new();

    provider.set_current_exe("/somewhere".to_string());

    assert!(!provider.has_args());
    assert!(!provider.has_args_os());
    assert!(!provider.has_current_dir());
    assert!(provider.has_current_exe());
}

#[test]
fn set_current_dir__always_succeeds() {
    let mut provider = SimulatedEnv::new();

    let result = provider.set_current_dir("/foo/bar".to_string());

    assert!(result.is_ok());
}

#[test]
fn current_dir_and_current_exe__independent_values() {
    let mut provider = SimulatedEnv::new();

    provider.set_current_dir("/work".to_string()).unwrap();
    provider.set_current_exe("/bin/app".to_string());

    assert_eq!("/work", provider.current_dir().unwrap());
    assert_eq!("/bin/app", provider.current_exe().unwrap());
}
