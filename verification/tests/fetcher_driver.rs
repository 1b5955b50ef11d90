use std::time::Duration;
use tarzi::constants::{CHROMEDRIVER_DEFAULT_PORT, DEFAULT_TIMEOUT_SECS};
use std::time::Instant;
use tarzi::constants::GECKODRIVER_DEFAULT_PORT;
use tarzi::fetcher::driver::{
    create_config, driver_args, driver_binary_name, endpoint_for, missing_driver_error, supported_drivers,
    DriverConfig, DriverManager, DriverStatus, DriverType,
};
use tarzi::TarziError;

#[test]
fn test_driver_type_from_str() {
    assert_eq!(
        "chromedriver".parse::<DriverType>().unwrap(),
        DriverType::Chrome
    );
    assert_eq!("chrome".parse::<DriverType>().unwrap(), DriverType::Chrome);
    assert_eq!(
        "geckodriver".parse::<DriverType>().unwrap(),
        DriverType::Firefox
    );
    assert_eq!(
        "firefox".parse::<DriverType>().unwrap(),
        DriverType::Firefox
    );

    match "custom".parse::<DriverType>().unwrap() {
        DriverType::Generic(name) => assert_eq!(name, "custom"),
        _ => panic!("Expected Generic driver type"),
    }
}

#[test]
fn test_driver_type_display() {
    assert_eq!(DriverType::Chrome.to_string(), "chromedriver");
    assert_eq!(DriverType::Firefox.to_string(), "geckodriver");
    assert_eq!(
        DriverType::Generic("custom".to_string()).to_string(),
        "custom"
    );
}

#[test]
fn test_driver_config_default() {
    let config = DriverConfig::default();
    assert_eq!(config.driver_type, DriverType::Chrome);
    assert_eq!(config.port, CHROMEDRIVER_DEFAULT_PORT);
    assert_eq!(config.timeout, Duration::from_secs(DEFAULT_TIMEOUT_SECS));
    assert!(!config.verbose);
    assert!(config.args.is_empty());
}

#[test]
fn test_driver_status_equality() {
    assert_eq!(DriverStatus::Stopped, DriverStatus::Stopped);
    assert_eq!(DriverStatus::Starting, DriverStatus::Starting);
    assert_eq!(DriverStatus::Running, DriverStatus::Running);
    assert_eq!(
        DriverStatus::Failed("test".to_string()),
        DriverStatus::Failed("test".to_string())
    );

    assert_ne!(DriverStatus::Stopped, DriverStatus::Running);
    assert_ne!(
        DriverStatus::Failed("test1".to_string()),
        DriverStatus::Failed("test2".to_string())
    );
}

#[test]
fn driver_helpers() {
    assert_eq!(driver_binary_name(&DriverType::Firefox), "geckodriver");
    assert_eq!(driver_binary_name(&DriverType::Generic("x".to_string())), "x");
    let drivers = supported_drivers();
    assert_eq!(drivers, vec![DriverType::Chrome, DriverType::Firefox]);
    let config = create_config(DriverType::Firefox, 19515);
    assert_eq!(config.port, 19515);
    assert_eq!(config.timeout, Duration::from_secs(DEFAULT_TIMEOUT_SECS));
    assert!(!config.verbose);
    assert_eq!(endpoint_for(9515), "http://127.0.0.1:9515");
    let mut chrome = DriverConfig::default();
    chrome.verbose = true;
    chrome.args = vec!["--extra".to_string()];
    assert_eq!(driver_args(&chrome), vec!["--port=9515", "--whitelisted-ips=", "--verbose", "--extra"]);
    let firefox = create_config(DriverType::Firefox, 4444);
    assert_eq!(driver_args(&firefox), vec!["--port=4444", "--host=127.0.0.1"]);
    let mut loud = create_config(DriverType::Firefox, 1);
    loud.verbose = true;
    assert_eq!(driver_args(&loud), vec!["--port=1", "--host=127.0.0.1", "--log", "debug"]);
    assert_eq!(driver_args(&create_config(DriverType::Generic("g".to_string()), 0)), vec!["--port=0"]);
    match missing_driver_error(&DriverType::Generic("opera".to_string())) {
        TarziError::DriverNotFound(m) => {
            assert_eq!(m, "Driver 'opera' not found in PATH. Please ensure it's installed and available.")
        },
        _ => panic!("wrong error"),
    }
    match missing_driver_error(&DriverType::Chrome) {
        TarziError::DriverNotFound(m) => assert!(m.starts_with("chromedriver not found in PATH.")),
        _ => panic!("wrong error"),
    }
    assert_eq!("OPERA".parse::<DriverType>().unwrap(), DriverType::Generic("OPERA".to_string()));
    assert_eq!(CHROMEDRIVER_DEFAULT_PORT, 9515);
}

#[test]
fn test_driver_manager_new() {
    let manager = DriverManager::new();
    assert_eq!(manager.default_config().driver_type, DriverType::Chrome);
    assert_eq!(manager.default_config().port, CHROMEDRIVER_DEFAULT_PORT);
}

#[test]
fn test_driver_manager_with_config() {
    let config = DriverConfig {
        driver_type: DriverType::Firefox,
        port: 19515,
        args: vec!["--verbose".to_string()],
        timeout: Duration::from_secs(10),
        verbose: true,
    };

    let manager = DriverManager::with_config(config.clone());
    assert_eq!(manager.default_config().driver_type, config.driver_type);
    assert_eq!(manager.default_config().port, config.port);
    assert_eq!(manager.default_config().args, config.args);
    assert_eq!(manager.default_config().timeout, config.timeout);
    assert_eq!(manager.default_config().verbose, config.verbose);
}

#[test]
fn test_supported_drivers() {
    let drivers = supported_drivers();
    assert!(drivers.contains(&DriverType::Chrome));
    assert!(drivers.contains(&DriverType::Firefox));
    assert_eq!(drivers.len(), 2);
}

#[test]
fn test_create_config() {
    let config = create_config(DriverType::Firefox, 19515);
    assert_eq!(config.driver_type, DriverType::Firefox);
    assert_eq!(config.port, 19515);
    assert_eq!(config.timeout, Duration::from_secs(DEFAULT_TIMEOUT_SECS));
    assert!(!config.verbose);
}

#[test]
fn test_is_port_in_use() {
    let manager = DriverManager::new();
    assert!(!manager.is_port_in_use(CHROMEDRIVER_DEFAULT_PORT));
    assert!(!manager.is_port_in_use(19515));
}

#[test]
fn test_driver_binary_name() {
    assert_eq!(driver_binary_name(&DriverType::Chrome), "chromedriver");
    assert_eq!(driver_binary_name(&DriverType::Firefox), "geckodriver");
    assert_eq!(driver_binary_name(&DriverType::Generic("custom".to_string())), "custom");
}

#[test]
fn test_list_drivers_empty() {
    let manager = DriverManager::new();
    let drivers = manager.list_drivers(&Vec::new());
    assert!(drivers.is_empty());
}

#[test]
fn test_get_driver_info_not_found() {
    let manager = DriverManager::new();
    let info = manager.get_driver_info(CHROMEDRIVER_DEFAULT_PORT, false);
    assert!(info.is_none());
}

#[test]
fn test_stop_driver_not_found() {
    let mut manager = DriverManager::new();
    let result = manager.stop_driver(CHROMEDRIVER_DEFAULT_PORT);
    assert!(result.is_err());

    if let Err(TarziError::Driver(msg)) = result {
        assert!(msg.contains(&format!("No driver running on port {CHROMEDRIVER_DEFAULT_PORT}")));
    } else {
        panic!("Expected Driver error");
    }
}

#[test]
fn driver_manager_registry() {
    let mut manager = DriverManager::new();
    let started = Instant::now();
    let chrome = create_config(DriverType::Chrome, CHROMEDRIVER_DEFAULT_PORT);
    assert!(manager.check_port_free(&chrome).is_ok());
    let info = manager.register(chrome, 42, started);
    assert_eq!(info.status, DriverStatus::Running);
    assert_eq!(info.pid, Some(42));
    assert_eq!(info.endpoint, "http://127.0.0.1:9515");
    assert!(manager.is_port_in_use(CHROMEDRIVER_DEFAULT_PORT));

    let again = create_config(DriverType::Firefox, CHROMEDRIVER_DEFAULT_PORT);
    match manager.check_port_free(&again) {
        Err(TarziError::Driver(m)) => assert_eq!(m, "Port 9515 is already in use"),
        _ => panic!("expected a port conflict"),
    }

    manager.register(create_config(DriverType::Firefox, GECKODRIVER_DEFAULT_PORT), 7, started);
    let mut ports = manager.ports();
    ports.sort();
    assert_eq!(ports, vec![GECKODRIVER_DEFAULT_PORT, CHROMEDRIVER_DEFAULT_PORT]);
    let listed = manager.list_drivers(&vec![(CHROMEDRIVER_DEFAULT_PORT, true), (GECKODRIVER_DEFAULT_PORT, false)]);
    assert_eq!(listed.len(), 2);
    assert_eq!(listed[0].status, DriverStatus::Running);
    assert_eq!(listed[1].status, DriverStatus::Failed("Driver not responding".to_string()));
    assert_eq!(listed[1].endpoint, "http://127.0.0.1:4444");

    let info = manager.get_driver_info(GECKODRIVER_DEFAULT_PORT, true).unwrap();
    assert_eq!(info.config.driver_type, DriverType::Firefox);
    assert_eq!(info.pid, Some(7));

    let stopped = manager.stop_driver(CHROMEDRIVER_DEFAULT_PORT).unwrap();
    assert_eq!(stopped.pid, 42);
    assert!(!manager.is_port_in_use(CHROMEDRIVER_DEFAULT_PORT));
    assert_eq!(manager.ports(), vec![GECKODRIVER_DEFAULT_PORT]);
    assert!(manager.stop_driver(CHROMEDRIVER_DEFAULT_PORT).is_err());
}
