//! The driver trait and the adapter between drivers and the core.
use core::marker::PhantomData;

use vstd::prelude::*;

use crate::device::{Bound, Core, Device, DeviceId};
use crate::error::{from_result, ret_of, Error};
use crate::virtqueue::Virtqueue;

verus! {

/// The Virtio driver trait.
///
/// Drivers must implement this trait in order to get a virtio driver registered.
pub trait Driver: Sized + Send + Sync {
    /// The type holding information about each device id supported by the driver.
    type IdInfo: 'static;

    /// Whether [`Driver::validate`] is provided.
    const HAS_VALIDATE: bool = false;

    /// Whether [`Driver::scan`] is provided.
    const HAS_SCAN: bool = false;

    /// Whether [`Driver::config_changed`] is provided.
    const HAS_CONFIG_CHANGED: bool = false;

    /// Whether [`Driver::reset_prepare`] is provided.
    const HAS_RESET_PREPARE: bool = false;

    /// Whether [`Driver::reset_done`] is provided.
    const HAS_RESET_DONE: bool = false;

    /// Whether [`Driver::shutdown`] is provided.
    const HAS_SHUTDOWN: bool = false;

    /// The table of device ids supported by the driver, with the information about each.
    const ID_TABLE: &'static [(DeviceId, Self::IdInfo)];

    /// virtio driver probe.
    ///
    /// Called when a new virtio device is added or discovered. Implementers should
    /// attempt to initialize the device here, but should not sleep since driver data is set
    /// after this method returns successfully.
    fn probe(dev: &Device<Core>) -> Result<Self, Error>;

    /// virtio driver init.
    ///
    /// The device will be set to ready before this function is called.
    /// Called after a virtio device is probed successfully, can sleep.
    /// If an error is returned, the driver will fail to register.
    fn init(&self, dev: &Device<Bound>) -> Result<(), Error>;

    /// Optional function to validate features and config space before probing. A driver that does
    /// not define it accepts every device.
    fn validate(_dev: &Device<Core>) -> (result: Result<(), Error>)
        requires
            Self::HAS_VALIDATE,
        default_ensures
            result == Ok::<(), Error>(()),
    {
        Ok(())
    }

    /// Method called after a successful probe and initialization.
    fn scan(&self, _dev: &Device<Bound>)
        requires
            Self::HAS_SCAN,
    {
    }

    /// Optional function to call when the device configuration changes; may be called in interrupt
    /// context.
    fn config_changed(&self, _dev: &Device<Bound>)
        requires
            Self::HAS_CONFIG_CHANGED,
    {
    }

    /// Optional function to call when a transport specific reset occurs. A driver that does not
    /// define it agrees to every reset.
    fn reset_prepare(&self, _dev: &Device<Bound>) -> (result: Result<(), Error>)
        requires
            Self::HAS_RESET_PREPARE,
        default_ensures
            result == Ok::<(), Error>(()),
    {
        Ok(())
    }

    /// Optional function to call after transport specific reset operation has finished. A driver
    /// that does not define it resumes after every reset.
    fn reset_done(&self, _dev: &Device<Bound>) -> (result: Result<(), Error>)
        requires
            Self::HAS_RESET_DONE,
        default_ensures
            result == Ok::<(), Error>(()),
    {
        Ok(())
    }

    /// Optional function to synchronize with the device on shutdown. If provided, replaces the
    /// virtio core implementation.
    fn shutdown(&self, _dev: &Device<Bound>)
        requires
            Self::HAS_SHUTDOWN,
    {
    }

    /// Method called when buffers are consumed.
    ///
    /// Users can identify the virtqueue by calling [`Virtqueue::index`].
    ///
    /// The consumed buffer can be retrieved with [`Virtqueue::get_buf`].
    fn vq_callback(&self, vq: &Virtqueue, dev: &Device<Bound>);

    /// virtio driver remove.
    ///
    /// Called when a [`Device`] is removed from its [`Driver`]. Implementing this callback
    /// is optional.
    fn remove(&self, _dev: &Device<Core>) {
    }
}

/// Which of the callbacks of the adapter a callback is.
#[derive(Copy, Clone, PartialEq, Eq, Structural, Debug)]
pub enum CallbackKind {
    Probe,
    Remove,
    Validate,
    Scan,
    ConfigChanged,
    ResetPrepare,
    ResetDone,
    Shutdown,
}

/// A callback that [`Adapter`] provides to the core for the driver `T`.
pub struct Callback<T: Driver> {
    pub kind: CallbackKind,
    pub driver: PhantomData<T>,
}

impl<T: Driver> Callback<T> {
    /// The callback of this kind.
    pub fn new(kind: CallbackKind) -> (callback: Callback<T>)
        ensures
            callback == (Callback::<T> { kind, driver: PhantomData }),
    {
        Callback { kind, driver: PhantomData }
    }
}

/// What the core holds of the driver `T` (`struct virtio_driver`).
pub struct DriverEntry<T: Driver> {
    /// The name of the driver.
    pub name: Option<&'static str>,
    /// The devices that the driver supports.
    pub id_table: Option<&'static [(DeviceId, T::IdInfo)]>,
    /// Called when a device is added or discovered.
    pub probe: Option<Callback<T>>,
    /// Called when a device is removed.
    pub remove: Option<Callback<T>>,
    /// Called before a device is probed.
    pub validate: Option<Callback<T>>,
    /// Called after a device has been probed.
    pub scan: Option<Callback<T>>,
    /// Called when the configuration of a device changes.
    pub config_changed: Option<Callback<T>>,
    /// Called when a device is about to be reset.
    pub reset_prepare: Option<Callback<T>>,
    /// Called when a device has been reset.
    pub reset_done: Option<Callback<T>>,
    /// Called on shutdown.
    pub shutdown: Option<Callback<T>>,
}

impl<T: Driver> DriverEntry<T> {
    /// An entry in which nothing is set.
    pub fn empty() -> (entry: DriverEntry<T>)
        ensures
            entry.name is None,
            entry.id_table is None,
            entry.probe is None,
            entry.remove is None,
            entry.validate is None,
            entry.scan is None,
            entry.config_changed is None,
            entry.reset_prepare is None,
            entry.reset_done is None,
            entry.shutdown is None,
    {
        DriverEntry {
            name: None,
            id_table: None,
            probe: None,
            remove: None,
            validate: None,
            scan: None,
            config_changed: None,
            reset_prepare: None,
            reset_done: None,
            shutdown: None,
        }
    }
}

/// A request to the core about the entry of a driver.
#[derive(Copy, Clone, PartialEq, Eq, Structural, Debug)]
pub enum DriverCall {
    /// Register the driver on behalf of the module at this address
    /// (`__register_virtio_driver`). It is answered with an integer:
    /// see [`crate::error::to_result`].
    Register { module: usize },
    /// Unregister the driver (`unregister_virtio_driver`).
    Unregister,
}

/// A slot for an optional callback after registration: the callback, if the driver provides the
/// method behind it, else what the slot held before.
pub open spec fn offered<T: Driver>(
    has: bool,
    kind: CallbackKind,
    before: Option<Callback<T>>,
) -> Option<Callback<T>> {
    if has {
        Some(Callback { kind, driver: PhantomData })
    } else {
        before
    }
}

/// What comes next in the probe of a device.
#[derive(Copy, Clone, PartialEq, Eq, Structural, Debug)]
pub enum ProbeStep {
    /// Call [`Driver::probe`] and set the driver data of the device to its result.
    SetDrvdata,
    /// Mark the device as ready ([`Device::ready`]).
    Ready,
    /// Call [`Driver::init`] on the driver data.
    Init,
    /// Call [`Driver::remove`] on the driver data.
    Remove { error: Error },
    /// Reset the device ([`Device::reset`]).
    Reset { error: Error },
    /// Take the driver data from the device and drop it.
    Release { error: Error },
    /// Return this to the core.
    Return { ret: i32 },
}

impl ProbeStep {
    /// What follows a step that went as `outcome` says. Only setting the driver data and the
    /// initialization can fail.
    pub open spec fn after(self, outcome: Result<(), Error>) -> ProbeStep {
        match self {
            ProbeStep::SetDrvdata => match outcome {
                Ok(_) => ProbeStep::Ready,
                Err(error) => ProbeStep::Return { ret: error.code() },
            },
            ProbeStep::Ready => ProbeStep::Init,
            ProbeStep::Init => match outcome {
                Ok(_) => ProbeStep::Return { ret: 0 },
                Err(error) => ProbeStep::Remove { error },
            },
            ProbeStep::Remove { error } => ProbeStep::Reset { error },
            ProbeStep::Reset { error } => ProbeStep::Release { error },
            ProbeStep::Release { error } => ProbeStep::Return { ret: error.code() },
            ProbeStep::Return { ret } => ProbeStep::Return { ret },
        }
    }

    /// Goes on after a step that went as `outcome` says.
    pub fn next(self, outcome: Result<(), Error>) -> (step: ProbeStep)
        ensures
            step == self.after(outcome),
    {
        match self {
            ProbeStep::SetDrvdata => match outcome {
                Ok(()) => ProbeStep::Ready,
                Err(error) => ProbeStep::Return { ret: from_result(Err(error)) },
            },
            ProbeStep::Ready => ProbeStep::Init,
            ProbeStep::Init => match outcome {
                Ok(()) => ProbeStep::Return { ret: 0 },
                Err(error) => ProbeStep::Remove { error },
            },
            ProbeStep::Remove { error } => ProbeStep::Reset { error },
            ProbeStep::Reset { error } => ProbeStep::Release { error },
            ProbeStep::Release { error } => ProbeStep::Return { ret: from_result(Err(error)) },
            ProbeStep::Return { ret } => ProbeStep::Return { ret },
        }
    }
}

/// What comes next in the removal of a device.
#[derive(Copy, Clone, PartialEq, Eq, Structural, Debug)]
pub enum RemoveStep {
    /// Call [`Driver::remove`] on the driver data.
    Remove,
    /// Reset the device ([`Device::reset`]).
    Reset,
    /// Return to the core.
    Return,
}

impl RemoveStep {
    /// What follows a step.
    pub open spec fn after(self) -> RemoveStep {
        match self {
            RemoveStep::Remove => RemoveStep::Reset,
            RemoveStep::Reset => RemoveStep::Return,
            RemoveStep::Return => RemoveStep::Return,
        }
    }

    /// Goes on after a step.
    pub fn next(self) -> (step: RemoveStep)
        ensures
            step == self.after(),
    {
        match self {
            RemoveStep::Remove => RemoveStep::Reset,
            RemoveStep::Reset => RemoveStep::Return,
            RemoveStep::Return => RemoveStep::Return,
        }
    }
}

/// An adapter for the registration of virtio drivers.
pub struct Adapter<T: Driver>(T);

impl<T: Driver> Adapter<T> {
    /// Fills in the entry of the driver and registers it under `name`, on behalf of the module at
    /// the address `module`. Optional callbacks that the driver does not provide stay as they are.
    pub fn register(entry: &mut DriverEntry<T>, name: &'static str, module: usize) -> (call:
        DriverCall)
        ensures
            call == (DriverCall::Register { module }),
            final(entry).name == Some(name),
            final(entry).id_table == Some(T::ID_TABLE),
            final(entry).probe == Some(
                Callback::<T> { kind: CallbackKind::Probe, driver: PhantomData },
            ),
            final(entry).remove == Some(
                Callback::<T> { kind: CallbackKind::Remove, driver: PhantomData },
            ),
            final(entry).validate == offered(
                T::HAS_VALIDATE,
                CallbackKind::Validate,
                old(entry).validate,
            ),
            final(entry).scan == offered(
                T::HAS_SCAN,
                CallbackKind::Scan,
                old(entry).scan,
            ),
            final(entry).config_changed == offered(
                T::HAS_CONFIG_CHANGED,
                CallbackKind::ConfigChanged,
                old(entry).config_changed,
            ),
            final(entry).reset_prepare == offered(
                T::HAS_RESET_PREPARE,
                CallbackKind::ResetPrepare,
                old(entry).reset_prepare,
            ),
            final(entry).reset_done == offered(
                T::HAS_RESET_DONE,
                CallbackKind::ResetDone,
                old(entry).reset_done,
            ),
            final(entry).shutdown == offered(
                T::HAS_SHUTDOWN,
                CallbackKind::Shutdown,
                old(entry).shutdown,
            ),
    {
        entry.name = Some(name);
        entry.id_table = Some(T::ID_TABLE);
        entry.probe = Some(Callback::new(CallbackKind::Probe));
        entry.remove = Some(Callback::new(CallbackKind::Remove));
        if T::HAS_VALIDATE {
            entry.validate = Some(Callback::new(CallbackKind::Validate));
        }
        if T::HAS_SCAN {
            entry.scan = Some(Callback::new(CallbackKind::Scan));
        }
        if T::HAS_CONFIG_CHANGED {
            entry.config_changed = Some(Callback::new(CallbackKind::ConfigChanged));
        }
        if T::HAS_RESET_PREPARE {
            entry.reset_prepare = Some(Callback::new(CallbackKind::ResetPrepare));
        }
        if T::HAS_RESET_DONE {
            entry.reset_done = Some(Callback::new(CallbackKind::ResetDone));
        }
        if T::HAS_SHUTDOWN {
            entry.shutdown = Some(Callback::new(CallbackKind::Shutdown));
        }
        DriverCall::Register { module }
    }

    /// Unregisters the driver.
    pub fn unregister(_entry: &DriverEntry<T>) -> (call: DriverCall)
        ensures
            call == DriverCall::Unregister,
    {
        DriverCall::Unregister
    }

    /// Begins the probe of a device.
    pub fn probe_callback() -> (step: ProbeStep)
        ensures
            step == ProbeStep::SetDrvdata,
    {
        ProbeStep::SetDrvdata
    }

    /// Begins the removal of a device.
    pub fn remove_callback() -> (step: RemoveStep)
        ensures
            step == RemoveStep::Remove,
    {
        RemoveStep::Remove
    }

    /// A device is about to be probed: calls [`Driver::validate`] and returns what it returned, as
    /// an integer.
    pub fn validate_callback(dev: &Device<Core>) -> (ret: i32)
        requires
            T::HAS_VALIDATE,
        ensures
            exists|result: Result<(), Error>|
                #[trigger] call_ensures(T::validate, (dev,), result) && ret == ret_of(result),
            ret <= 0,
    {
        from_result(T::validate(dev))
    }

    /// A device has been probed and initialized: calls [`Driver::scan`].
    pub fn scan_callback(data: &T, dev: &Device<Bound>)
        requires
            T::HAS_SCAN,
        ensures
            call_ensures(T::scan, (data, dev), ()),
    {
        data.scan(dev);
    }

    /// The configuration of a device has changed: calls [`Driver::config_changed`].
    pub fn config_changed_callback(data: &T, dev: &Device<Bound>)
        requires
            T::HAS_CONFIG_CHANGED,
        ensures
            call_ensures(T::config_changed, (data, dev), ()),
    {
        data.config_changed(dev);
    }

    /// A device is about to be reset: calls [`Driver::reset_prepare`] and returns what it returned,
    /// as an integer.
    pub fn reset_prepare_callback(data: &T, dev: &Device<Bound>) -> (ret: i32)
        requires
            T::HAS_RESET_PREPARE,
        ensures
            exists|result: Result<(), Error>|
                #[trigger] call_ensures(T::reset_prepare, (data, dev), result)
                    && ret == ret_of(result),
            ret <= 0,
    {
        from_result(data.reset_prepare(dev))
    }

    /// A device has been reset: calls [`Driver::reset_done`] and returns what it returned, as an
    /// integer.
    pub fn reset_done_callback(data: &T, dev: &Device<Bound>) -> (ret: i32)
        requires
            T::HAS_RESET_DONE,
        ensures
            exists|result: Result<(), Error>|
                #[trigger] call_ensures(T::reset_done, (data, dev), result)
                    && ret == ret_of(result),
            ret <= 0,
    {
        from_result(data.reset_done(dev))
    }

    /// The system shuts down: calls [`Driver::shutdown`].
    pub fn shutdown_callback(data: &T, dev: &Device<Bound>)
        requires
            T::HAS_SHUTDOWN,
        ensures
            call_ensures(T::shutdown, (data, dev), ()),
    {
        data.shutdown(dev);
    }
}

/// The steps of a probe whose driver data was set as `set` says and whose driver was initialized
/// as `init` says.
pub open spec fn probe_steps(set: Result<(), Error>, init: Result<(), Error>) -> Seq<ProbeStep> {
    match (set, init) {
        (Err(error), _) => seq![
            ProbeStep::SetDrvdata,
            ProbeStep::Return { ret: error.code() },
        ],
        (Ok(_), Ok(_)) => seq![
            ProbeStep::SetDrvdata,
            ProbeStep::Ready,
            ProbeStep::Init,
            ProbeStep::Return { ret: 0 },
        ],
        (Ok(_), Err(error)) => seq![
            ProbeStep::SetDrvdata,
            ProbeStep::Ready,
            ProbeStep::Init,
            ProbeStep::Remove { error },
            ProbeStep::Reset { error },
            ProbeStep::Release { error },
            ProbeStep::Return { ret: error.code() },
        ],
    }
}

/// How a step of a probe goes, when the driver data is set as `set` says and the driver is
/// initialized as `init` says.
pub open spec fn probe_outcome(
    step: ProbeStep,
    set: Result<(), Error>,
    init: Result<(), Error>,
) -> Result<(), Error> {
    match step {
        ProbeStep::SetDrvdata => set,
        ProbeStep::Init => init,
        _ => Ok(()),
    }
}

/// A probe proceeds by the steps of [`probe_steps`] and by no others. In particular a device
/// becomes ready only once its driver data is set; and when the initialization fails, the driver
/// is told of the removal, then the device is reset, and then the driver data is dropped.
pub proof fn law_probe_order(set: Result<(), Error>, init: Result<(), Error>, i: int)
    requires
        0 <= i < probe_steps(set, init).len(),
    ensures
        probe_steps(set, init)[0] == ProbeStep::SetDrvdata,
        probe_steps(set, init).last() is Return,
        i + 1 < probe_steps(set, init).len() ==> probe_steps(set, init)[i + 1] == probe_steps(
            set,
            init,
        )[i].after(probe_outcome(probe_steps(set, init)[i], set, init)),
{
}

/// A probe succeeds exactly when the driver data could be set and the driver initialized, and
/// reports the error of whichever failed first.
pub proof fn law_probe_result(set: Result<(), Error>, init: Result<(), Error>)
    requires
        set matches Err(error) ==> error.wf(),
        init matches Err(error) ==> error.wf(),
    ensures
        ({
            let ret = probe_steps(set, init).last()->ret;
            &&& ret == 0 <==> set is Ok && init is Ok
            &&& ret == ret_of(if set is Err { set } else { init })
        }),
{
}

/// A driver is called back for what it provides and for nothing else: the slot of a callback that
/// it does not provide stays as it was.
pub proof fn law_offered_callbacks<T: Driver>(
    provided: bool,
    kind: CallbackKind,
    before: Option<Callback<T>>,
)
    ensures
        provided ==> offered(provided, kind, before) is Some,
        provided ==> offered(provided, kind, before)->0.kind == kind,
        !provided ==> offered(provided, kind, before) == before,
{
}

/// A probe whose driver data cannot be set ends at once with the error of the driver: the device is
/// not made ready.
pub proof fn law_failed_probe(error: Error)
    ensures
        ProbeStep::SetDrvdata.after(Err(error)) == (ProbeStep::Return { ret: error.code() }),
{
}

/// A probe that succeeds sets the driver data, marks the device as ready, and initializes the
/// driver, in this order.
pub proof fn law_successful_probe()
    ensures
        ProbeStep::SetDrvdata.after(Ok(())) == ProbeStep::Ready,
        forall|outcome: Result<(), Error>| #[trigger]
            ProbeStep::Ready.after(outcome) == ProbeStep::Init,
        ProbeStep::Init.after(Ok(())) == (ProbeStep::Return { ret: 0 }),
{
}

/// A probe whose initialization fails tells the driver of the removal, resets the device, drops the
/// driver data, in this order, and reports the error of the initialization.
pub proof fn law_failed_initialization(
    error: Error,
    removed: Result<(), Error>,
    reset: Result<(), Error>,
    released: Result<(), Error>,
)
    ensures
        ({
            let remove = ProbeStep::Init.after(Err(error));
            let reset_step = remove.after(removed);
            let release = reset_step.after(reset);
            let end = release.after(released);
            &&& remove is Remove
            &&& reset_step is Reset
            &&& release is Release
            &&& end == (ProbeStep::Return { ret: error.code() })
        }),
{
}

/// The steps that a probe makes are those of [`ProbeStep::after`], from setting the driver data,
/// and a probe that has returned is over.
pub proof fn law_probe_is_followed<T: Driver>(
    first: ProbeStep,
    step: ProbeStep,
    outcome: Result<(), Error>,
    next: ProbeStep,
)
    requires
        call_ensures(Adapter::<T>::probe_callback, (), first),
        call_ensures(ProbeStep::next, (step, outcome), next),
    ensures
        first is SetDrvdata,
        next == step.after(outcome),
        step is Return ==> next == step,
{
}

/// A removal tells the driver of it, then resets the device, and then is over.
pub proof fn law_removal<T: Driver>(
    first: RemoveStep,
    second: RemoveStep,
    third: RemoveStep,
    beyond: RemoveStep,
)
    requires
        call_ensures(Adapter::<T>::remove_callback, (), first),
        call_ensures(RemoveStep::next, (first,), second),
        call_ensures(RemoveStep::next, (second,), third),
        call_ensures(RemoveStep::next, (third,), beyond),
    ensures
        first is Remove,
        second is Reset,
        third is Return,
        beyond is Return,
{
}

/// The core is told of the error of a driver method, and of nothing where the method succeeded.
pub proof fn law_callback_results<T: Driver>(
    data: &T,
    core: &Device<Core>,
    dev: &Device<Bound>,
    validated: i32,
    prepared: i32,
    done: i32,
)
    requires
        T::HAS_VALIDATE,
        T::HAS_RESET_PREPARE,
        T::HAS_RESET_DONE,
        call_ensures(Adapter::<T>::validate_callback, (core,), validated),
        call_ensures(Adapter::<T>::reset_prepare_callback, (data, dev), prepared),
        call_ensures(Adapter::<T>::reset_done_callback, (data, dev), done),
    ensures
        exists|result: Result<(), Error>| #[trigger]
            call_ensures(T::validate, (core,), result) && validated == match result {
                Ok(_) => 0,
                Err(error) => error.code(),
            },
        exists|result: Result<(), Error>| #[trigger]
            call_ensures(T::reset_prepare, (data, dev), result) && prepared == match result {
                Ok(_) => 0,
                Err(error) => error.code(),
            },
        exists|result: Result<(), Error>| #[trigger]
            call_ensures(T::reset_done, (data, dev), result) && done == match result {
                Ok(_) => 0,
                Err(error) => error.code(),
            },
{
}

/// An entry in which nothing is set has no callback, and a callback is of the kind it was made for.
pub proof fn law_entries_and_callbacks<T: Driver>(
    entry: DriverEntry<T>,
    kind: CallbackKind,
    callback: Callback<T>,
    call: DriverCall,
)
    requires
        call_ensures(DriverEntry::<T>::empty, (), entry),
        call_ensures(Callback::<T>::new, (kind,), callback),
        call_ensures(Adapter::<T>::unregister, (&entry,), call),
    ensures
        entry.name is None && entry.id_table is None,
        entry.probe is None && entry.remove is None,
        entry.validate is None && entry.scan is None && entry.config_changed is None,
        entry.reset_prepare is None && entry.reset_done is None && entry.shutdown is None,
        callback.kind == kind,
        call is Unregister,
{
}

/// A driver is registered with its name, its table of device ids, the two callbacks that every
/// driver has, and those of the optional ones that it provides. The others stay as they were.
pub proof fn law_registration<T: Driver>(
    entry: &mut DriverEntry<T>,
    name: &'static str,
    module: usize,
    call: DriverCall,
)
    requires
        call_ensures(Adapter::<T>::register, (entry, name, module), call),
    ensures
        call == (DriverCall::Register { module }),
        final(entry).name is Some && final(entry).name->0@ == name@,
        final(entry).id_table == Some(T::ID_TABLE),
        final(entry).probe is Some && final(entry).probe->0.kind is Probe,
        final(entry).remove is Some && final(entry).remove->0.kind is Remove,
        T::HAS_VALIDATE ==> final(entry).validate is Some
            && final(entry).validate->0.kind is Validate,
        !T::HAS_VALIDATE ==> final(entry).validate == old(entry).validate,
        T::HAS_SCAN ==> final(entry).scan is Some && final(entry).scan->0.kind is Scan,
        !T::HAS_SCAN ==> final(entry).scan == old(entry).scan,
        T::HAS_CONFIG_CHANGED ==> final(entry).config_changed is Some
            && final(entry).config_changed->0.kind is ConfigChanged,
        !T::HAS_CONFIG_CHANGED ==> final(entry).config_changed == old(entry).config_changed,
        T::HAS_RESET_PREPARE ==> final(entry).reset_prepare is Some
            && final(entry).reset_prepare->0.kind is ResetPrepare,
        !T::HAS_RESET_PREPARE ==> final(entry).reset_prepare == old(entry).reset_prepare,
        T::HAS_RESET_DONE ==> final(entry).reset_done is Some
            && final(entry).reset_done->0.kind is ResetDone,
        !T::HAS_RESET_DONE ==> final(entry).reset_done == old(entry).reset_done,
        T::HAS_SHUTDOWN ==> final(entry).shutdown is Some
            && final(entry).shutdown->0.kind is Shutdown,
        !T::HAS_SHUTDOWN ==> final(entry).shutdown == old(entry).shutdown,
{
}

/// A callback without a result hands over to the method of the driver that it is for, with the
/// driver data and the device that it was called with.
pub proof fn law_callbacks_hand_over<T: Driver>(data: &T, dev: &Device<Bound>)
    requires
        T::HAS_SCAN,
        T::HAS_CONFIG_CHANGED,
        T::HAS_SHUTDOWN,
        call_ensures(Adapter::<T>::scan_callback, (data, dev), ()),
        call_ensures(Adapter::<T>::config_changed_callback, (data, dev), ()),
        call_ensures(Adapter::<T>::shutdown_callback, (data, dev), ()),
    ensures
        call_ensures(T::scan, (data, dev), ()),
        call_ensures(T::config_changed, (data, dev), ()),
        call_ensures(T::shutdown, (data, dev), ()),
{
}

} // verus!
