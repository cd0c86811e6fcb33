//! The driver registry: a fixed number of device descriptors, filled in
//! order of registration and initialized once, in that order.
use vstd::prelude::*;

verus! {

/// How many drivers the registry holds at most.
pub const MAX_SUPPORTED_DRIVERS: usize = 10;

/// What each device driver offers.
pub trait DeviceDriver {
    /// The driver's name.
    spec fn name(&self) -> &'static str;

    /// A string naming the driver.
    fn compatible(&self) -> (r: &'static str)
        ensures
            r == self.name(),
    ;

    /// Brings the device up. A device is only used after its driver was
    /// initialized.
    fn init(&self) -> (r: Result<(), &'static str>)
        default_ensures
            r is Ok,
    {
        Ok(())
    }
}

/// A driver together with its optional post-initialization callback `P`,
/// a function such as `fn() -> Result<(), &'static str>`.
pub struct DeviceDriverDescriptor<D, P> {
    /// The driver.
    pub device_driver: D,
    /// Run after the driver's `init` succeeded, when present.
    pub post_init_cb: Option<P>,
}

impl<D, P> DeviceDriverDescriptor<D, P> {
    /// Pairs a driver with its optional post-initialization callback.
    pub fn new(device_driver: D, post_init_cb: Option<P>) -> (r: Self)
        ensures
            r.device_driver == device_driver,
            r.post_init_cb == post_init_cb,
    {
        DeviceDriverDescriptor { device_driver, post_init_cb }
    }
}

/// Why the registry refused or stopped.
#[derive(Debug, Clone, Copy, PartialEq, Eq)]
pub enum DriverError {
    /// Every slot is taken.
    RegistryFull,
    /// The drivers were initialized before.
    AlreadyInitialized,
    /// A driver's `init` failed.
    InitFailed { index: usize, name: &'static str, message: &'static str },
    /// A driver's post-initialization callback failed.
    PostInitFailed { index: usize, name: &'static str, message: &'static str },
}

/// Registration: a descriptor goes into the next free slot, and a full
/// registry refuses it and stays as it was.
pub open spec fn register_post<D, P>(
    pre: Seq<DeviceDriverDescriptor<D, P>>,
    post: Seq<DeviceDriverDescriptor<D, P>>,
    d: DeviceDriverDescriptor<D, P>,
    r: Result<(), DriverError>,
) -> bool {
    if pre.len() < MAX_SUPPORTED_DRIVERS {
        r is Ok && post == pre.push(d)
    } else {
        r == Err::<(), DriverError>(DriverError::RegistryFull) && post == pre
    }
}

/// The registry of device drivers.
pub struct DriverManager<D, P> {
    drivers: Vec<DeviceDriverDescriptor<D, P>>,
    init_done: bool,
}

/// What one driver's bring-up comes to, from the result of its `init` and,
/// when that succeeded and it has a callback, the callback's result.
pub open spec fn init_outcome(
    index: usize,
    name: &'static str,
    init: Result<(), &'static str>,
    post_init: Option<Result<(), &'static str>>,
) -> Result<(), DriverError> {
    match init {
        Err(message) => Err(DriverError::InitFailed { index, name, message }),
        Ok(()) => match post_init {
            Some(Err(message)) => Err(DriverError::PostInitFailed { index, name, message }),
            _ => Ok(()),
        },
    }
}

/// Decides one driver's bring-up from the results of its `init` and of its
/// callback; any failure is fatal and names the driver.
pub fn check_driver_init(
    index: usize,
    name: &'static str,
    init: Result<(), &'static str>,
    post_init: Option<Result<(), &'static str>>,
) -> (r: Result<(), DriverError>)
    ensures
        r == init_outcome(index, name, init, post_init),
{
    match init {
        Err(message) => Err(DriverError::InitFailed { index, name, message }),
        Ok(()) => match post_init {
            Some(Err(message)) => Err(DriverError::PostInitFailed { index, name, message }),
            _ => Ok(()),
        },
    }
}

impl<D, P> DriverManager<D, P> {
    /// The registered descriptors, in order of registration.
    pub closed spec fn descriptors(&self) -> Seq<DeviceDriverDescriptor<D, P>> {
        self.drivers@
    }

    /// Whether the one-time initialization was run.
    pub closed spec fn initialized(&self) -> bool {
        self.init_done
    }

    /// The registry's invariant: never more descriptors than slots.
    pub open spec fn wf(&self) -> bool {
        self.descriptors().len() <= MAX_SUPPORTED_DRIVERS
    }

    /// An empty registry.
    pub fn new() -> (r: Self)
        ensures
            r.wf(),
            r.descriptors().len() == 0,
            !r.initialized(),
    {
        DriverManager { drivers: Vec::new(), init_done: false }
    }

    /// Number of registered drivers.
    pub fn len(&self) -> (r: usize)
        ensures
            r == self.descriptors().len(),
    {
        self.drivers.len()
    }

    /// Appends a descriptor in the next free slot. When every slot is taken
    /// the registry is left as it was and the call fails.
    pub fn register_driver(&mut self, device_descriptor: DeviceDriverDescriptor<D, P>) -> (r: Result<
        (),
        DriverError,
    >)
        requires
            old(self).wf(),
        ensures
            final(self).wf(),
            final(self).initialized() == old(self).initialized(),
            register_post(old(self).descriptors(), final(self).descriptors(), device_descriptor, r),
    {
        if self.drivers.len() >= MAX_SUPPORTED_DRIVERS {
            return Err(DriverError::RegistryFull);
        }
        self.drivers.push(device_descriptor);
        Ok(())
    }

    /// Runs `f` on every registered descriptor, in order of registration.
    pub fn for_each_descriptor<F: Fn(&DeviceDriverDescriptor<D, P>)>(&self, f: F)
        requires
            forall|i: int|
                0 <= i < self.descriptors().len() ==> f.requires((&self.descriptors()[i],)),
    {
        let mut i: usize = 0;
        while i < self.drivers.len()
            invariant
                i <= self.drivers.len(),
                forall|j: int|
                    0 <= j < self.descriptors().len() ==> f.requires((&self.descriptors()[j],)),
            decreases self.drivers.len() - i,
        {
            assert(f.requires((&self.descriptors()[i as int],)));
            f(&self.drivers[i]);
            i = i + 1;
        }
    }
}

/// The one-time initialization's effect: the descriptors stay, the registry
/// is initialized afterwards, a repeated call only reports that it was done,
/// and a first call either succeeds or names a registered driver that failed.
pub open spec fn init_drivers_post<D: DeviceDriver, P>(
    pre: DriverManager<D, P>,
    post: DriverManager<D, P>,
    r: Result<(), DriverError>,
) -> bool {
    &&& post.descriptors() == pre.descriptors()
    &&& post.initialized()
    &&& pre.initialized() ==> r == Err::<(), DriverError>(DriverError::AlreadyInitialized)
    &&& !pre.initialized() ==> match r {
        Ok(()) => true,
        Err(DriverError::InitFailed { index, name, .. }) => index < pre.descriptors().len()
            && name == pre.descriptors()[index as int].device_driver.name(),
        Err(DriverError::PostInitFailed { index, name, .. }) => index < pre.descriptors().len()
            && name == pre.descriptors()[index as int].device_driver.name(),
        Err(_) => false,
    }
}

impl<D: DeviceDriver, P: Fn() -> Result<(), &'static str>> DriverManager<D, P> {
    /// Initializes every registered driver once, in order of registration:
    /// its `init`, then, if that succeeded, its callback. The first failure
    /// stops the run and is returned; it is fatal to the caller. A second
    /// call does nothing and reports that the work was done.
    pub fn init_drivers(&mut self) -> (r: Result<(), DriverError>)
        requires
            old(self).wf(),
            forall|i: int|
                0 <= i < old(self).descriptors().len() ==> match #[trigger] old(
                    self,
                ).descriptors()[i].post_init_cb {
                    Some(cb) => cb.requires(()),
                    None => true,
                },
        ensures
            final(self).wf(),
            init_drivers_post(*old(self), *final(self), r),
    {
        if self.init_done {
            return Err(DriverError::AlreadyInitialized);
        }
        self.init_done = true;
        let mut result: Result<(), DriverError> = Ok(());
        let mut i: usize = 0;
        while i < self.drivers.len() && result.is_ok()
            invariant
                i <= self.drivers.len(),
                self.drivers@ == old(self).drivers@,
                self.init_done,
                forall|j: int|
                    0 <= j < old(self).descriptors().len() ==> match #[trigger] old(
                        self,
                    ).descriptors()[j].post_init_cb {
                        Some(cb) => cb.requires(()),
                        None => true,
                    },
                match result {
                    Ok(()) => true,
                    Err(DriverError::InitFailed { index, name, .. }) => index < self.drivers.len()
                        && name == self.drivers@[index as int].device_driver.name(),
                    Err(DriverError::PostInitFailed { index, name, .. }) => index
                        < self.drivers.len() && name
                        == self.drivers@[index as int].device_driver.name(),
                    Err(_) => false,
                },
            decreases self.drivers.len() - i,
        {
            let d = &self.drivers[i];
            let init = d.device_driver.init();
            let post_init = if init.is_ok() {
                match &d.post_init_cb {
                    Some(cb) => {
                        assert(old(self).descriptors()[i as int].post_init_cb == Some(*cb));
                        Some(cb())
                    },
                    None => None,
                }
            } else {
                None
            };
            result = check_driver_init(i, d.device_driver.compatible(), init, post_init);
            i = i + 1;
        }
        result
    }

    /// Each registered driver's name with its index, in order of
    /// registration, for diagnostics.
    pub fn enumerate(&self) -> (r: Vec<(usize, &'static str)>)
        ensures
            r@.len() == self.descriptors().len(),
            forall|i: int|
                0 <= i < r@.len() ==> (#[trigger] r@[i]).0 == i && r@[i].1
                    == self.descriptors()[i].device_driver.name(),
    {
        let mut r: Vec<(usize, &'static str)> = Vec::new();
        let mut i: usize = 0;
        while i < self.drivers.len()
            invariant
                i <= self.drivers.len(),
                r@.len() == i,
                forall|j: int|
                    0 <= j < r@.len() ==> (#[trigger] r@[j]).0 == j && r@[j].1
                        == self.descriptors()[j].device_driver.name(),
            decreases self.drivers.len() - i,
        {
            r.push((i, self.drivers[i].device_driver.compatible()));
            i = i + 1;
        }
        r
    }
}

/// Initialization happens once: after any call, a second call changes
/// nothing and reports that the work was already done.
pub proof fn lemma_init_drivers_once<D: DeviceDriver, P>(
    m0: DriverManager<D, P>,
    m1: DriverManager<D, P>,
    m2: DriverManager<D, P>,
    r1: Result<(), DriverError>,
    r2: Result<(), DriverError>,
)
    requires
        init_drivers_post(m0, m1, r1),
        init_drivers_post(m1, m2, r2),
    ensures
        r2 == Err::<(), DriverError>(DriverError::AlreadyInitialized),
        m2.descriptors() == m1.descriptors(),
        m2.descriptors() == m0.descriptors(),
        m2.initialized(),
{
}

/// Registration never goes past the capacity and never touches a filled
/// slot: it fails exactly on a full registry, and every earlier descriptor
/// stays in place.
pub proof fn lemma_registration_bounded<D, P>(
    pre: Seq<DeviceDriverDescriptor<D, P>>,
    post: Seq<DeviceDriverDescriptor<D, P>>,
    d: DeviceDriverDescriptor<D, P>,
    r: Result<(), DriverError>,
)
    requires
        pre.len() <= MAX_SUPPORTED_DRIVERS,
        register_post(pre, post, d, r),
    ensures
        post.len() <= MAX_SUPPORTED_DRIVERS,
        r is Err <==> pre.len() == MAX_SUPPORTED_DRIVERS,
        forall|i: int| 0 <= i < pre.len() ==> post[i] == pre[i],
{
}

} // verus!
