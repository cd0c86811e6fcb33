use std::cell::{Cell, RefCell};

use matiaos::driver::{
    check_driver_init, DeviceDriver, DeviceDriverDescriptor, DriverError, DriverManager,
    MAX_SUPPORTED_DRIVERS,
};

type Callback = fn() -> Result<(), &'static str>;

struct TestDriver<'a> {
    name: &'static str,
    fail: Option<&'static str>,
    calls: &'a Cell<usize>,
    log: &'a RefCell<Vec<&'static str>>,
}

impl DeviceDriver for TestDriver<'_> {
    fn name(&self) -> &'static str {
        self.name
    }

    fn compatible(&self) -> &'static str {
        self.name
    }

    fn init(&self) -> Result<(), &'static str> {
        self.calls.set(self.calls.get() + 1);
        self.log.borrow_mut().push(self.name);
        match self.fail {
            Some(m) => Err(m),
            None => Ok(()),
        }
    }
}

struct Plain;

impl DeviceDriver for Plain {
    fn name(&self) -> &'static str {
        "plain"
    }

    fn compatible(&self) -> &'static str {
        "plain"
    }
}

fn ok_cb() -> Result<(), &'static str> {
    Ok(())
}

fn failing_cb() -> Result<(), &'static str> {
    Err("pins busy")
}

#[test]
fn registration_is_bounded() {
    let mut m: DriverManager<Plain, Callback> = DriverManager::new();
    for _ in 0..MAX_SUPPORTED_DRIVERS {
        assert_eq!(m.register_driver(DeviceDriverDescriptor::new(Plain, None)), Ok(()));
    }
    assert_eq!(m.len(), MAX_SUPPORTED_DRIVERS);
    assert_eq!(
        m.register_driver(DeviceDriverDescriptor::new(Plain, None)),
        Err(DriverError::RegistryFull)
    );
    assert_eq!(m.len(), MAX_SUPPORTED_DRIVERS);
}

#[test]
fn full_registry_keeps_its_slots() {
    let calls = Cell::new(0);
    let log = RefCell::new(Vec::new());
    let names = ["d0", "d1", "d2", "d3", "d4", "d5", "d6", "d7", "d8", "d9"];
    let mut m: DriverManager<TestDriver, Callback> = DriverManager::new();
    for name in names {
        let d = TestDriver { name, fail: None, calls: &calls, log: &log };
        assert!(m.register_driver(DeviceDriverDescriptor::new(d, None)).is_ok());
    }
    let extra = TestDriver { name: "extra", fail: None, calls: &calls, log: &log };
    assert!(m.register_driver(DeviceDriverDescriptor::new(extra, None)).is_err());
    let listed: Vec<&str> = m.enumerate().into_iter().map(|(_, n)| n).collect();
    assert_eq!(listed, names.to_vec());
}

#[test]
fn init_runs_once_in_order() {
    let calls = Cell::new(0);
    let log = RefCell::new(Vec::new());
    let mut m: DriverManager<TestDriver, Callback> = DriverManager::new();
    let uart = TestDriver { name: "uart", fail: None, calls: &calls, log: &log };
    let gpio = TestDriver { name: "gpio", fail: None, calls: &calls, log: &log };
    m.register_driver(DeviceDriverDescriptor::new(uart, Some(ok_cb as Callback))).unwrap();
    m.register_driver(DeviceDriverDescriptor::new(gpio, None)).unwrap();
    assert_eq!(m.init_drivers(), Ok(()));
    assert_eq!(calls.get(), 2);
    assert_eq!(*log.borrow(), vec!["uart", "gpio"]);
    assert_eq!(m.init_drivers(), Err(DriverError::AlreadyInitialized));
    assert_eq!(calls.get(), 2);
}

#[test]
fn init_failure_names_the_driver() {
    let calls = Cell::new(0);
    let log = RefCell::new(Vec::new());
    let mut m: DriverManager<TestDriver, Callback> = DriverManager::new();
    let a = TestDriver { name: "a", fail: None, calls: &calls, log: &log };
    let b = TestDriver { name: "b", fail: Some("no clock"), calls: &calls, log: &log };
    let c = TestDriver { name: "c", fail: None, calls: &calls, log: &log };
    m.register_driver(DeviceDriverDescriptor::new(a, None)).unwrap();
    m.register_driver(DeviceDriverDescriptor::new(b, None)).unwrap();
    m.register_driver(DeviceDriverDescriptor::new(c, None)).unwrap();
    assert_eq!(
        m.init_drivers(),
        Err(DriverError::InitFailed { index: 1, name: "b", message: "no clock" })
    );
    assert_eq!(*log.borrow(), vec!["a", "b"]);
}

#[test]
fn post_init_failure_names_the_driver() {
    let calls = Cell::new(0);
    let log = RefCell::new(Vec::new());
    let mut m: DriverManager<TestDriver, Callback> = DriverManager::new();
    let gpio = TestDriver { name: "gpio", fail: None, calls: &calls, log: &log };
    m.register_driver(DeviceDriverDescriptor::new(gpio, Some(failing_cb as Callback)))
        .unwrap();
    assert_eq!(
        m.init_drivers(),
        Err(DriverError::PostInitFailed { index: 0, name: "gpio", message: "pins busy" })
    );
}

#[test]
fn default_init_succeeds() {
    let mut m: DriverManager<Plain, Callback> = DriverManager::new();
    m.register_driver(DeviceDriverDescriptor::new(Plain, None)).unwrap();
    assert_eq!(m.init_drivers(), Ok(()));
}

#[test]
fn enumerate_lists_names_with_index() {
    let mut m: DriverManager<Plain, Callback> = DriverManager::new();
    assert!(m.enumerate().is_empty());
    m.register_driver(DeviceDriverDescriptor::new(Plain, None)).unwrap();
    m.register_driver(DeviceDriverDescriptor::new(Plain, None)).unwrap();
    assert_eq!(m.enumerate(), vec![(0, "plain"), (1, "plain")]);
}

#[test]
fn for_each_visits_in_order() {
    let calls = Cell::new(0);
    let log = RefCell::new(Vec::new());
    let mut m: DriverManager<TestDriver, Callback> = DriverManager::new();
    for name in ["x", "y", "z"] {
        let d = TestDriver { name, fail: None, calls: &calls, log: &log };
        m.register_driver(DeviceDriverDescriptor::new(d, None)).unwrap();
    }
    let seen = RefCell::new(Vec::new());
    m.for_each_descriptor(|d| seen.borrow_mut().push(d.device_driver.compatible()));
    assert_eq!(*seen.borrow(), vec!["x", "y", "z"]);
}

#[test]
fn init_outcome_is_decided_from_results() {
    assert_eq!(check_driver_init(3, "uart", Ok(()), None), Ok(()));
    assert_eq!(check_driver_init(3, "uart", Ok(()), Some(Ok(()))), Ok(()));
    assert_eq!(
        check_driver_init(3, "uart", Err("bad"), Some(Err("later"))),
        Err(DriverError::InitFailed { index: 3, name: "uart", message: "bad" })
    );
    assert_eq!(
        check_driver_init(2, "gpio", Ok(()), Some(Err("later"))),
        Err(DriverError::PostInitFailed { index: 2, name: "gpio", message: "later" })
    );
}
