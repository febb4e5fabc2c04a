use yambar_disk::config::{AppArgs, DEFAULT_PATH, DEFAULT_POLL_INTERVAL};

#[test]
fn both_values_make_a_configuration() {
    let args = AppArgs::new(Some(String::from("/home")), Some(250));
    assert_eq!(args, Some(AppArgs { path: String::from("/home"), poll_interval: 250 }));
}

#[test]
fn a_missing_path_makes_none() {
    assert_eq!(AppArgs::new(None, Some(250)), None);
}

#[test]
fn a_missing_interval_makes_none() {
    assert_eq!(AppArgs::new(Some(String::from("/home")), None), None);
}

#[test]
fn nothing_at_all_makes_none() {
    assert_eq!(AppArgs::new(None, None), None);
}

#[test]
fn an_interval_of_zero_is_accepted() {
    let args = AppArgs::new(Some(String::from("/")), Some(0)).unwrap();
    assert_eq!(args.poll_interval, 0);
}

#[test]
fn the_defaults_are_the_root_and_one_second() {
    assert_eq!(DEFAULT_PATH, "/");
    assert_eq!(DEFAULT_POLL_INTERVAL, 1000);
    let args = AppArgs::new(Some(String::from(DEFAULT_PATH)), Some(DEFAULT_POLL_INTERVAL)).unwrap();
    assert_eq!(args.path, "/");
    assert_eq!(args.poll_interval, 1000);
}
