use chrome_driver::{ChromeDriver, ChromeDriverBuilder, Spawn};

#[test]
fn new_keeps_the_path_and_sets_the_defaults() {
    let builder = ChromeDriverBuilder::new("/usr/local/bin/chromedriver");
    assert_eq!(builder.driver_binary(), "/usr/local/bin/chromedriver");
    assert_eq!(builder.requested_port(), None);
    assert!(builder.kills_on_drop());
}

#[test]
fn default_expects_chromedriver_in_the_search_path() {
    let builder = ChromeDriverBuilder::default();
    assert_eq!(builder.driver_binary(), "chromedriver");
    assert_eq!(builder.requested_port(), None);
    assert!(builder.kills_on_drop());
}

#[test]
fn build_is_the_default_builder() {
    let builder = ChromeDriver::build();
    assert_eq!(builder.driver_binary(), "chromedriver");
    assert_eq!(builder.requested_port(), None);
    assert!(builder.kills_on_drop());
}

#[test]
fn port_sets_the_port_and_nothing_else() {
    let builder = ChromeDriverBuilder::new("driver").port(9515);
    assert_eq!(builder.driver_binary(), "driver");
    assert_eq!(builder.requested_port(), Some(9515));
    assert!(builder.kills_on_drop());
}

#[test]
fn the_last_port_wins() {
    let builder = ChromeDriverBuilder::new("driver").port(9515).port(4444);
    assert_eq!(builder.requested_port(), Some(4444));
}

#[test]
fn kill_on_drop_sets_the_flag_and_nothing_else() {
    let builder = ChromeDriverBuilder::new("driver").port(80).kill_on_drop(false);
    assert_eq!(builder.driver_binary(), "driver");
    assert_eq!(builder.requested_port(), Some(80));
    assert!(!builder.kills_on_drop());
    let builder = builder.kill_on_drop(true);
    assert!(builder.kills_on_drop());
}

#[test]
fn an_empty_path_is_kept_as_it_is() {
    let builder = ChromeDriverBuilder::new("");
    assert_eq!(builder.driver_binary(), "");
}

#[test]
fn a_path_beyond_ascii_is_kept_as_it_is() {
    let builder = ChromeDriverBuilder::new("/opt/höhle/chromedriver");
    assert_eq!(builder.driver_binary(), "/opt/höhle/chromedriver");
}

#[test]
fn a_fixed_port_is_checked_first() {
    match ChromeDriverBuilder::new("driver").port(9515).spawn() {
        Spawn::Check(check) => assert_eq!(check.port(), 9515),
        Spawn::Pick(_) => panic!("a fixed port is not picked"),
    }
}

#[test]
fn without_a_port_one_is_picked() {
    assert!(matches!(ChromeDriverBuilder::new("driver").spawn(), Spawn::Pick(_)));
}

#[test]
fn port_zero_leaves_the_choice_to_the_system() {
    assert!(matches!(ChromeDriverBuilder::new("driver").port(0).spawn(), Spawn::Pick(_)));
}

#[test]
fn the_highest_port_is_a_fixed_port() {
    match ChromeDriverBuilder::new("driver").port(65535).spawn() {
        Spawn::Check(check) => assert_eq!(check.port(), 65535),
        Spawn::Pick(_) => panic!("a fixed port is not picked"),
    }
}

#[test]
fn the_default_spawn_picks_a_port() {
    assert!(matches!(ChromeDriver::spawn(), Spawn::Pick(_)));
}
