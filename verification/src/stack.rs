//! The stack: a host controller, the drivers, the pool of addresses and the
//! devices on the bus, each of which it moves through its lifecycle.
use crate::address::{assignable, full_pool, pool_after_take, pool_next, AddressPool, DevAddress};
use crate::descriptor::DeviceDescriptor;
use crate::device::{
    address_given, after_transfer, configuration_read, configuration_selected,
    device_descriptor_read, lifecycle_action, zeros, ConfigurationTrace, Device, DeviceState,
    DeviceView, Driver, LifecycleAction, SETTLE_DELAY,
};
use crate::endpoint::EndpointProperties;
use crate::host::{
    followed, HostAnswer, HostCall, HostEvent, HostStep, Transferred, UsbHost,
};
use crate::parser::{DescriptorParser, ParserView};
use crate::{ConfigNum, InterfaceNum, UsbError};
use vstd::prelude::*;
use vstd::slice::slice_subrange;

verus! {

/// The number of drivers that a stack can hold.
pub const MAX_DRIVERS: usize = 4;

/// The number of devices that a stack can hold.
pub const DEVICE_SLOTS: usize = 16;

/// The number of bytes that the stack reads of a configuration.
pub const CONFIG_BUFFER_LEN: usize = 256;

/// The place of a driver among the drivers of a stack.
pub type DriverIdx = u8;

/// `heapless::Vec`: a vector with a fixed capacity. What one holds is known
/// through a name for its contents and through the contracts of the calls
/// on it.
#[verifier::external_type_specification]
#[verifier::external_body]
#[verifier::reject_recursive_types(T)]
pub struct ExHeaplessVec<T, const N: usize>(heapless::Vec<T, N>);

/// The devices that a `heapless::Vec` of devices holds, each with the place
/// of its driver, in their order.
pub uninterp spec fn device_slots(v: heapless::Vec<(Device, Option<u8>), 16>) -> Seq<
    (Device, Option<u8>),
>;

/// `heapless::Vec::new`: a vector that holds nothing.
#[verifier::external_body]
fn slots_new() -> (v: heapless::Vec<(Device, Option<u8>), 16>)
    ensures
        device_slots(v) == Seq::<(Device, Option<u8>)>::empty(),
{
    heapless::Vec::new()
}

/// The length of the slice of a `heapless::Vec`: the number of devices in
/// it, which is never more than its capacity of 16.
#[verifier::external_body]
fn slots_len(v: &heapless::Vec<(Device, Option<u8>), 16>) -> (n: usize)
    ensures
        n == device_slots(*v).len(),
        n <= DEVICE_SLOTS,
{
    v.len()
}

/// `heapless::Vec::push`: appends the item where fewer than 16 are held,
/// and refuses it where the vector is full, which then stays as it is. The
/// result says whether the item was appended.
#[verifier::external_body]
fn slots_push(v: &mut heapless::Vec<(Device, Option<u8>), 16>, item: (Device, Option<u8>)) -> (pushed: bool)
    ensures
        pushed == (device_slots(*old(v)).len() < DEVICE_SLOTS),
        pushed ==> device_slots(*final(v)) == device_slots(*old(v)).push(item),
        !pushed ==> device_slots(*final(v)) == device_slots(*old(v)),
{
    v.push(item).is_ok()
}

/// Indexing the slice of a `heapless::Vec`: the item at `i`.
#[verifier::external_body]
fn slots_get(v: &heapless::Vec<(Device, Option<u8>), 16>, i: usize) -> (item: (Device, Option<u8>))
    requires
        i < device_slots(*v).len(),
    ensures
        item == device_slots(*v)[i as int],
{
    v[i]
}

/// Assigning through the index of the slice of a `heapless::Vec`: the item
/// at `i` becomes `item`, the others stay.
#[verifier::external_body]
fn slots_set(v: &mut heapless::Vec<(Device, Option<u8>), 16>, i: usize, item: (Device, Option<u8>))
    requires
        i < device_slots(*old(v)).len(),
    ensures
        device_slots(*final(v)) == device_slots(*old(v)).update(i as int, item),
{
    v[i] = item;
}

/// `heapless::Vec::clear`: the vector holds nothing afterwards.
#[verifier::external_body]
fn slots_clear(v: &mut heapless::Vec<(Device, Option<u8>), 16>)
    ensures
        device_slots(*final(v)) == Seq::<(Device, Option<u8>)>::empty(),
{
    v.clear()
}

/// Whether the driver at the place `idx` of `drivers0` was told that the
/// device at `address` is gone, which leaves the drivers `drivers1`: no
/// other driver changes.
pub open spec fn one_told<D: Driver>(drivers0: Seq<D>, drivers1: Seq<D>, idx: int, address: DevAddress) -> bool {
    &&& 0 <= idx < drivers0.len()
    &&& drivers1 == drivers0.update(idx, drivers1[idx])
    &&& drivers0[idx].unregisters(address, drivers1[idx])
}

/// Whether the drivers `drivers0` were told of each of the devices
/// `devices` from the place `from` on that it is gone, in the order of the
/// devices, each device to its driver, which leaves the drivers `drivers1`.
/// A device without a driver is passed over.
pub open spec fn told_gone<D: Driver>(
    drivers0: Seq<D>,
    drivers1: Seq<D>,
    devices: Seq<(Device, Option<DriverIdx>)>,
    from: int,
) -> bool
    decreases devices.len() - from,
{
    if from < 0 || from >= devices.len() {
        drivers1 == drivers0
    } else {
        match devices[from].1 {
            None => told_gone(drivers0, drivers1, devices, from + 1),
            Some(idx) => exists|told: Seq<D>| #[trigger]
                one_told(drivers0, told, idx as int, devices[from].0@.address) && told_gone(
                    told,
                    drivers1,
                    devices,
                    from + 1,
                ),
        }
    }
}

/// The stack of a USB host.
pub struct UsbStack<H: UsbHost, D: Driver> {
    host: H,
    drivers: Vec<D>,
    addr_pool: AddressPool,
    devices: heapless::Vec<(Device, Option<u8>), 16>,
}

/// Whether a device in the state `state`, with this address and this
/// driver, is as a device of a stack always is: it has no address where it
/// needs one, and it has a driver where its state is up to its driver.
pub open spec fn device_fits(d: DeviceView, driver: Option<u8>) -> bool {
    &&& d.state is SetAddress ==> d.address@ == 0
    &&& lifecycle_action(d.state, false) == LifecycleAction::Run ==> driver is Some
}

/// Whether the devices `devices` go with `free` free addresses and
/// `drivers` drivers: each device is as it should be, cf [`device_fits`], a
/// driver that a device names is there, the address of a device that has one
/// is taken, and no two devices have the same.
pub open spec fn devices_fit(devices: Seq<(Device, Option<u8>)>, free: Set<int>, drivers: nat) -> bool {
    &&& forall|i: int|
        0 <= i < devices.len() ==> device_fits((#[trigger] devices[i]).0@, devices[i].1)
    &&& forall|i: int|
        0 <= i < devices.len() ==> ((#[trigger] devices[i]).1 matches Some(idx) ==> idx < drivers)
    &&& forall|i: int|
        0 <= i < devices.len() ==> ((#[trigger] devices[i]).0@.address@ != 0 ==> !free.contains(
            devices[i].0@.address@ as int,
        ))
    &&& forall|i: int, j: int|
        0 <= i < devices.len() && 0 <= j < devices.len() && i != j && (
        #[trigger] devices[i]).0@.address@ != 0 ==> devices[i].0@.address@ != (
        #[trigger] devices[j]).0@.address@
}

impl<H: UsbHost, D: Driver> UsbStack<H, D> {
    /// The devices on the bus, each with the place of its driver.
    pub closed spec fn devices(&self) -> Seq<(Device, Option<u8>)> {
        device_slots(self.devices)
    }

    /// The drivers, in the order in which they are asked.
    pub closed spec fn drivers(&self) -> Seq<D> {
        self.drivers@
    }

    /// The addresses that no device has.
    pub closed spec fn free(&self) -> Set<int> {
        self.addr_pool.free()
    }

    /// The host controller.
    pub closed spec fn host(&self) -> H {
        self.host
    }

    /// What always holds of a stack: it has no more drivers and devices
    /// than it can hold, and the devices go with the pool and the drivers.
    pub closed spec fn wf(&self) -> bool {
        &&& self.drivers@.len() <= MAX_DRIVERS
        &&& device_slots(self.devices).len() <= DEVICE_SLOTS
        &&& devices_fit(device_slots(self.devices), self.addr_pool.free(), self.drivers@.len())
    }

    /// What `wf` says, for those who cannot look into a stack.
    pub proof fn lemma_wf(&self)
        requires
            self.wf(),
        ensures
            self.drivers().len() <= MAX_DRIVERS,
            self.devices().len() <= DEVICE_SLOTS,
            devices_fit(self.devices(), self.free(), self.drivers().len()),
    {
    }

    /// A stack on the host controller `host`, with no driver and no device.
    pub fn new(host: H) -> (s: Self)
        ensures
            s.wf(),
            s.host() == host,
            s.drivers().len() == 0,
            s.devices().len() == 0,
            s.free() == full_pool(),
    {
        Self {
            host,
            drivers: Vec::new(),
            addr_pool: AddressPool::new(),
            devices: slots_new(),
        }
    }

    /// Drivers are added on startup, never removed. A stack that holds
    /// `MAX_DRIVERS` drivers takes no more.
    pub fn add_driver(&mut self, driver: D) -> (r: Result<(), UsbError>)
        requires
            old(self).wf(),
        ensures
            final(self).wf(),
            final(self).devices() == old(self).devices(),
            final(self).free() == old(self).free(),
            final(self).host() == old(self).host(),
            old(self).drivers().len() < MAX_DRIVERS ==> r is Ok && final(self).drivers() == old(self).drivers().push(driver),
            old(self).drivers().len() >= MAX_DRIVERS ==> r == Err::<(), UsbError>(
                UsbError::TooManyDrivers,
            ) && final(self).drivers() == old(self).drivers(),
    {
        if self.drivers.len() >= MAX_DRIVERS {
            return Err(UsbError::TooManyDrivers);
        }
        self.drivers.push(driver);
        Ok(())
    }

    /// The number of drivers.
    pub fn driver_count(&self) -> (n: usize)
        ensures
            n == self.drivers().len(),
    {
        self.drivers.len()
    }

    /// The number of devices on the bus.
    pub fn device_count(&self) -> (n: usize)
        ensures
            n == self.devices().len(),
            n <= DEVICE_SLOTS,
    {
        slots_len(&self.devices)
    }

    /// The device in the place `i`, and the place of its driver.
    pub fn device(&self, i: usize) -> (slot: Option<(Device, Option<DriverIdx>)>)
        ensures
            i < self.devices().len() ==> slot == Some(self.devices()[i as int]),
            i >= self.devices().len() ==> slot is None,
    {
        if i < slots_len(&self.devices) {
            Some(slots_get(&self.devices, i))
        } else {
            None
        }
    }

    /// A device was attached at the root: it joins the devices, without an
    /// address and without a driver, and talks in packets of at most
    /// `max_packet_size` bytes. A stack that holds `DEVICE_SLOTS` devices
    /// takes no more.
    pub fn attach(&mut self, max_packet_size: u16) -> (r: Result<(), UsbError>)
        requires
            old(self).wf(),
        ensures
            final(self).wf(),
            final(self).drivers() == old(self).drivers(),
            final(self).free() == old(self).free(),
            final(self).host() == old(self).host(),
            old(self).devices().len() < DEVICE_SLOTS ==> r is Ok && final(self).devices().len()
                == old(self).devices().len() + 1 && final(self).devices().drop_last() == old(self).devices() && final(self).devices().last().1 is None && final(self).devices().last().0@ == (DeviceView {
                address: final(self).devices().last().0@.address,
                state: DeviceState::SetAddress,
                max_packet_size,
                toggle: false,
                error: None,
            }) && final(self).devices().last().0@.address@ == 0,
            old(self).devices().len() >= DEVICE_SLOTS ==> r == Err::<(), UsbError>(
                UsbError::TooManyDevices,
            ) && final(self).devices() == old(self).devices(),
    {
        let root_dev = Device::new(max_packet_size);
        let ghost before = device_slots(self.devices);
        match slots_push(&mut self.devices, (root_dev, None)) {
            true => {
                proof {
                    let after = device_slots(self.devices);
                    assert(after.drop_last() =~= before);
                    assert forall|i: int| 0 <= i < after.len() - 1 implies #[trigger] after[i]
                        == before[i] by {}
                    assert(devices_fit(after, self.addr_pool.free(), self.drivers@.len()));
                }
                Ok(())
            },
            false => Err(UsbError::TooManyDevices),
        }
    }

    /// The bus was reset: every device is gone. The driver of each device is
    /// told so, cf [`told_gone`], and every address is free again.
    pub fn reset(&mut self)
        requires
            old(self).wf(),
        ensures
            told_gone(old(self).drivers(), final(self).drivers(), old(self).devices(), 0),
            final(self).wf(),
            final(self).devices().len() == 0,
            final(self).free() == full_pool(),
            final(self).drivers().len() == old(self).drivers().len(),
            final(self).host() == old(self).host(),
    {
        let n = slots_len(&self.devices);
        let mut i: usize = 0;
        while i < n
            invariant
                i <= n,
                n == device_slots(self.devices).len(),
                self.devices == old(self).devices,
                self.addr_pool == old(self).addr_pool,
                self.host == old(self).host,
                self.drivers@.len() == old(self).drivers@.len(),
                old(self).wf(),
                forall|after: Seq<D>| #[trigger]
                    told_gone(self.drivers@, after, device_slots(self.devices), i as int)
                        ==> told_gone(old(self).drivers@, after, device_slots(self.devices), 0),
            decreases n - i,
        {
            let slot = slots_get(&self.devices, i);
            let ghost before = self.drivers@;
            if let Some(driver_idx) = slot.1 {
                proof {
                    crate::device::lemma_device_endpoint(slot.0, false);
                }
                let addr = slot.0.device_address();
                self.drivers[driver_idx as usize].unregister(addr);
                proof {
                    assert(self.drivers@ =~= before.update(
                        driver_idx as int,
                        self.drivers@[driver_idx as int],
                    ));
                    assert(one_told(before, self.drivers@, driver_idx as int, slot.0@.address));
                }
            }
            proof {
                assert forall|after: Seq<D>| #[trigger]
                    told_gone(
                        self.drivers@,
                        after,
                        device_slots(self.devices),
                        i + 1,
                    ) implies told_gone(
                    old(self).drivers@,
                    after,
                    device_slots(self.devices),
                    0,
                ) by {
                    assert(told_gone(before, after, device_slots(self.devices), i as int));
                }
            }
            i += 1;
        }
        proof {
            assert(told_gone(self.drivers@, self.drivers@, device_slots(self.devices), n as int));
        }
        slots_clear(&mut self.devices);
        self.addr_pool.reset();
    }
}

/// What a turn may do to the address of a device and to the pool: nothing,
/// or give the device, which had none, the next address of the pool.
pub open spec fn address_kept_or_taken(
    before: DeviceView,
    after: DeviceView,
    free_before: Set<int>,
    free_after: Set<int>,
) -> bool {
    ||| (after.address == before.address && free_after == free_before)
    ||| (before.address@ == 0 && pool_next(free_before) == Some(after.address@ as int)
        && free_after == pool_after_take(free_before))
}

/// What happened while a device was given its address: the answer of the
/// host to the request for the device descriptor, the host and the device
/// after it, and what was read; the address that was taken from the pool,
/// the answer of the host to the request that sets it, what came of that
/// request, and the time that the host gave for the device to settle.
pub struct AddressTrace<H> {
    pub read: Transferred,
    pub host: H,
    pub device: Device,
    pub descriptor: Result<DeviceDescriptor, UsbError>,
    pub address: DevAddress,
    pub set: Transferred,
    pub given: Result<(), UsbError>,
    pub settled: u64,
}

/// Whether giving the device `d0` its address, with the host `h0` and the
/// free addresses `free0`, leads to the device `d1`, the host `h1`, the free
/// addresses `free1` and the result `r`, where `tr` says what happened.
///
/// First the device descriptor is read, cf [`device_descriptor_read`];
/// where that fails, it is the result. Then the next address of the pool is
/// taken; where no address is free, the error is `OutOfAddresses`. Then the
/// address is set, cf [`address_given`]: where that fails, it is the result,
/// and the address is free again; else the result is the descriptor.
pub open spec fn addressed<H: UsbHost>(
    h0: H,
    h1: H,
    free0: Set<int>,
    free1: Set<int>,
    d0: Device,
    d1: Device,
    r: Result<DeviceDescriptor, UsbError>,
    tr: AddressTrace<H>,
) -> bool {
    &&& device_descriptor_read(h0, tr.host, d0, tr.device, tr.descriptor, tr.read)
    &&& match tr.descriptor {
        Err(e) => r == Err::<DeviceDescriptor, UsbError>(e) && h1 == tr.host && d1 == tr.device
            && free1 == free0,
        Ok(desc) => match pool_next(free0) {
            None => r == Err::<DeviceDescriptor, UsbError>(UsbError::OutOfAddresses) && h1
                == tr.host && d1 == tr.device && free1 == free0,
            Some(next) => {
                &&& tr.address@ as int == next
                &&& address_given(
                    tr.host,
                    h1,
                    tr.device,
                    d1,
                    tr.address,
                    tr.given,
                    tr.set,
                    tr.settled,
                )
                &&& match tr.given {
                    Ok(_) => r == Ok::<DeviceDescriptor, UsbError>(desc) && free1
                        == pool_after_take(free0),
                    Err(e) => r == Err::<DeviceDescriptor, UsbError>(e) && free1 == free0,
                }
            },
        },
    }
}

/// A parser at the start of the configuration `conf`, which has seen no
/// interface yet.
pub open spec fn parser_at_start(conf: Seq<u8>) -> ParserView {
    ParserView { bytes: conf, pos: 0, class: None, subclass: None }
}

/// What happened while the driver of a device was found: what the host
/// answered while the configuration was read, the host, the device and the
/// buffer after it, and what the reading returned; the answer of the host to
/// the request that selects the configuration, the device after it, and
/// what came of the request; the device after its driver has registered it,
/// and what the driver returned.
pub struct ConfigureTrace<H> {
    pub read: ConfigurationTrace<H>,
    pub host: H,
    pub device: Device,
    pub buffer: Seq<u8>,
    pub size: Result<usize, UsbError>,
    pub set: Transferred,
    pub selected_device: Device,
    pub selected: Result<(), UsbError>,
    pub registered_device: Device,
    pub registered: Result<(), UsbError>,
}

/// Whether the driver `before` at the place `idx` of `drivers0` has become
/// `drivers1[idx]`, and the other drivers are as they were.
pub open spec fn one_driver_changed<D: Driver>(drivers0: Seq<D>, drivers1: Seq<D>, idx: int) -> bool {
    0 <= idx < drivers0.len() && drivers1 == drivers0.update(idx, drivers1[idx])
}

/// Whether finding the driver of the device `d0`, with the host `h0` and
/// the drivers `drivers0`, leads to the device `d1`, the host `h1`, the
/// drivers `drivers1` and the result `r`, where `tr` says what happened.
///
/// First the first configuration is read with a buffer of
/// `CONFIG_BUFFER_LEN` bytes, cf [`configuration_read`]; where that fails,
/// it is the result. Then the drivers are asked in their order, cf
/// [`first_accepting`]; where none takes the device, the result is `None`.
/// Then the configuration that the driver named is selected, cf
/// [`configuration_selected`]; where that fails, it is the result. Then the
/// driver registers the device with a parser at the start of the
/// configuration, and no other driver changes. The result is the place of
/// the driver and the interface that it named; where the driver fails, the
/// device is made an orphan, and the error of the driver is the result.
pub open spec fn driver_found<H: UsbHost, D: Driver>(
    h0: H,
    h1: H,
    drivers0: Seq<D>,
    drivers1: Seq<D>,
    d0: Device,
    d1: Device,
    r: Result<Option<(DriverIdx, InterfaceNum)>, UsbError>,
    tr: ConfigureTrace<H>,
) -> bool {
    &&& configuration_read(
        h0,
        tr.host,
        d0,
        tr.device,
        0,
        zeros(CONFIG_BUFFER_LEN as nat),
        tr.buffer,
        tr.size,
        tr.read,
    )
    &&& match tr.size {
        Err(e) => r == Err::<Option<(DriverIdx, InterfaceNum)>, UsbError>(e) && h1 == tr.host
            && d1 == tr.device && drivers1 == drivers0,
        Ok(size) => {
            let conf = tr.buffer.subrange(0, size as int);
            match first_accepting(drivers0, tr.device@, conf, 0) {
                None => r == Ok::<Option<(DriverIdx, InterfaceNum)>, UsbError>(None) && h1
                    == tr.host && d1 == tr.device && drivers1 == drivers0,
                Some(found) => {
                    &&& configuration_selected(
                        tr.host,
                        h1,
                        tr.device,
                        tr.selected_device,
                        found.1,
                        tr.selected,
                        tr.set,
                    )
                    &&& match tr.selected {
                        Err(e) => r == Err::<Option<(DriverIdx, InterfaceNum)>, UsbError>(e)
                            && d1 == tr.selected_device && drivers1 == drivers0,
                        Ok(_) => {
                            &&& one_driver_changed(drivers0, drivers1, found.0 as int)
                            &&& drivers0[found.0 as int].registers(
                                tr.selected_device,
                                parser_at_start(conf),
                                drivers1[found.0 as int],
                                tr.registered_device,
                                tr.registered,
                            )
                            &&& match tr.registered {
                                Ok(_) => r == Ok::<Option<(DriverIdx, InterfaceNum)>, UsbError>(
                                    Some((found.0, found.2)),
                                ) && d1 == tr.registered_device,
                                Err(e) => r == Err::<Option<(DriverIdx, InterfaceNum)>, UsbError>(
                                    e,
                                ) && d1@ == (DeviceView {
                                    state: DeviceState::Orphan,
                                    ..tr.registered_device@
                                }),
                            }
                        },
                    }
                },
            }
        },
    }
}

impl<H: UsbHost, D: Driver> UsbStack<H, D> {
    /// Gives a device its address, cf [`addressed`]: reads the device
    /// descriptor, takes the next address from the pool and sets it. An
    /// address that could not be set goes back to the pool.
    fn address_dev(host: &mut H, pool: &mut AddressPool, dev: &mut Device) -> (r: Result<DeviceDescriptor, UsbError>)
        ensures
            exists|tr: AddressTrace<H>| #[trigger]
                addressed(
                    *old(host),
                    *final(host),
                    old(pool).free(),
                    final(pool).free(),
                    *old(dev),
                    *final(dev),
                    r,
                    tr,
                ),
            final(dev)@.error == old(dev)@.error,
            match r {
                Ok(_) => old(dev)@.address@ == 0 && pool_next(old(pool).free()) == Some(
                    final(dev)@.address@ as int,
                ) && final(pool).free() == pool_after_take(old(pool).free()) && final(dev)@.state is SetConfig,
                Err(_) => final(dev)@.address == old(dev)@.address && final(dev)@.state == old(dev)@.state && final(pool).free() == old(pool).free(),
            },
    {
        let descriptor = dev.get_device_descriptor(host);
        let ghost read = choose|t: Transferred| #[trigger]
            device_descriptor_read(*old(host), *host, *old(dev), *dev, descriptor, t);
        let ghost tr = AddressTrace {
            read,
            host: *host,
            device: *dev,
            descriptor,
            address: dev@.address,
            set: read,
            given: Ok::<(), UsbError>(()),
            settled: 0,
        };
        let short_desc = match descriptor {
            Ok(d) => d,
            Err(e) => {
                proof {
                    assert(addressed(
                        *old(host),
                        *host,
                        old(pool).free(),
                        pool.free(),
                        *old(dev),
                        *dev,
                        Err::<DeviceDescriptor, UsbError>(e),
                        tr,
                    ));
                }
                return Err(e);
            },
        };
        let addr = match pool.take_next() {
            Some(addr) => addr,
            None => {
                proof {
                    assert(addressed(
                        *old(host),
                        *host,
                        old(pool).free(),
                        pool.free(),
                        *old(dev),
                        *dev,
                        Err::<DeviceDescriptor, UsbError>(UsbError::OutOfAddresses),
                        tr,
                    ));
                }
                return Err(UsbError::OutOfAddresses);
            },
        };
        let given = dev.set_address(host, addr);
        let ghost answered = choose|t: Transferred, settled: u64| #[trigger]
            address_given(tr.host, *host, tr.device, *dev, addr, given, t, settled);
        let ghost tr = AddressTrace { address: addr, set: answered.0, given, settled: answered.1, ..tr };
        if let Err(err) = given {
            pool.put_back(addr);
            assert(pool.free() =~= old(pool).free());
            proof {
                assert(addressed(
                    *old(host),
                    *host,
                    old(pool).free(),
                    pool.free(),
                    *old(dev),
                    *dev,
                    Err::<DeviceDescriptor, UsbError>(err),
                    tr,
                ));
            }
            return Err(err);
        }
        proof {
            assert(addressed(
                *old(host),
                *host,
                old(pool).free(),
                pool.free(),
                *old(dev),
                *dev,
                Ok::<DeviceDescriptor, UsbError>(short_desc),
                tr,
            ));
        }
        Ok(short_desc)
    }

    /// Asks the drivers `drivers` in their order whether they take `device`,
    /// whose configuration is `conf`. Each driver gets a parser at the start
    /// of the configuration.
    fn first_to_accept(drivers: &Vec<D>, device: &mut Device, conf: &[u8]) -> (r: Option<(DriverIdx, ConfigNum, InterfaceNum)>)
        requires
            drivers@.len() <= MAX_DRIVERS,
        ensures
            *final(device) == *old(device),
            r == first_accepting(drivers@, old(device)@, conf@, 0),
    {
        let n = drivers.len();
        let mut idx: usize = 0;
        while idx < n
            invariant
                idx <= n,
                n == drivers@.len(),
                n <= MAX_DRIVERS,
                *device == *old(device),
                first_accepting(drivers@, device@, conf@, idx as int) == first_accepting(
                    drivers@,
                    old(device)@,
                    conf@,
                    0,
                ),
            decreases n - idx,
        {
            let mut desc_parser = DescriptorParser::new(conf);
            if let Some(found) = drivers[idx].accept(device, &mut desc_parser) {
                return Some((idx as DriverIdx, found.1, found.2));
            }
            idx += 1;
        }
        None
    }

    /// The first driver of the stack that takes `device`, whose
    /// configuration is `conf`: its place, and the configuration and the
    /// interface that it named.
    pub fn select_driver(&self, device: &mut Device, conf: &[u8]) -> (r: Option<(DriverIdx, ConfigNum, InterfaceNum)>)
        requires
            self.wf(),
        ensures
            *final(device) == *old(device),
            r == first_accepting(self.drivers(), old(device)@, conf@, 0),
            r matches Some(found) ==> found.0 < self.drivers().len(),
    {
        proof {
            lemma_first_accepting(self.drivers@, device@, conf@, 0);
        }
        Self::first_to_accept(&self.drivers, device, conf)
    }

    /// Finds the driver of a device, cf [`driver_found`]: reads its
    /// configuration and asks the drivers in their order. The first that accepts the device gets it:
    /// the configuration that the driver named is selected, and the driver
    /// registers the device. A device that its driver fails to register is
    /// made an orphan, and the error of the driver is returned.
    fn find_driver(host: &mut H, drivers: &mut Vec<D>, device: &mut Device) -> (r: Result<Option<(DriverIdx, InterfaceNum)>, UsbError>)
        requires
            old(drivers)@.len() <= MAX_DRIVERS,
        ensures
            exists|tr: ConfigureTrace<H>| #[trigger]
                driver_found(
                    *old(host),
                    *final(host),
                    old(drivers)@,
                    final(drivers)@,
                    *old(device),
                    *final(device),
                    r,
                    tr,
                ),
            final(drivers)@.len() == old(drivers)@.len(),
            final(device)@.address == old(device)@.address,
            final(device)@.state == old(device)@.state || final(device)@.state == DeviceState::Orphan,
            r is Ok ==> final(device)@.state == old(device)@.state,
            r matches Ok(Some(found)) ==> found.0 < old(drivers)@.len(),
    {
        let mut buf = [0u8;256];
        assert(buf@ =~= zeros(CONFIG_BUFFER_LEN as nat));
        let read = device.get_configuration_descriptors(host, 0, &mut buf);
        let ghost answered = choose|t: ConfigurationTrace<H>| #[trigger]
            configuration_read(
                *old(host),
                *host,
                *old(device),
                *device,
                0,
                zeros(CONFIG_BUFFER_LEN as nat),
                buf@,
                read,
                t,
            );
        let ghost tr = ConfigureTrace {
            read: answered,
            host: *host,
            device: *device,
            buffer: buf@,
            size: read,
            set: answered.head,
            selected_device: *device,
            selected: Ok::<(), UsbError>(()),
            registered_device: *device,
            registered: Ok::<(), UsbError>(()),
        };
        let size = match read {
            Ok(size) => size,
            Err(e) => {
                proof {
                    assert(driver_found(
                        *old(host),
                        *host,
                        old(drivers)@,
                        drivers@,
                        *old(device),
                        *device,
                        Err::<Option<(DriverIdx, InterfaceNum)>, UsbError>(e),
                        tr,
                    ));
                }
                return Err(e);
            },
        };
        let conf = slice_subrange(buf.as_slice(), 0, size);
        proof {
            lemma_first_accepting(drivers@, device@, conf@, 0);
        }
        let found = match Self::first_to_accept(drivers, device, conf) {
            Some(found) => found,
            None => {
                proof {
                    assert(driver_found(
                        *old(host),
                        *host,
                        old(drivers)@,
                        drivers@,
                        *old(device),
                        *device,
                        Ok::<Option<(DriverIdx, InterfaceNum)>, UsbError>(None),
                        tr,
                    ));
                }
                return Ok(None);
            },
        };
        let selected = device.set_configuration(host, found.1);
        let ghost set = choose|t: Transferred| #[trigger]
            configuration_selected(tr.host, *host, tr.device, *device, found.1, selected, t);
        let ghost tr = ConfigureTrace {
            set,
            selected_device: *device,
            selected,
            registered_device: *device,
            ..tr
        };
        match selected {
            Ok(_) => {},
            Err(e) => {
                proof {
                    assert(driver_found(
                        *old(host),
                        *host,
                        old(drivers)@,
                        drivers@,
                        *old(device),
                        *device,
                        Err::<Option<(DriverIdx, InterfaceNum)>, UsbError>(e),
                        tr,
                    ));
                }
                return Err(e);
            },
        }
        let mut desc_parser = DescriptorParser::new(conf);
        let registered = drivers[found.0 as usize].register(device, &mut desc_parser);
        let ghost tr = ConfigureTrace { registered_device: *device, registered, ..tr };
        proof {
            assert(drivers@ =~= old(drivers)@.update(found.0 as int, drivers@[found.0 as int]));
        }
        if let Err(e) = registered {
            // a device that its driver cannot take in is left alone
            device.set_state(DeviceState::Orphan);
            proof {
                assert(driver_found(
                    *old(host),
                    *host,
                    old(drivers)@,
                    drivers@,
                    *old(device),
                    *device,
                    Err::<Option<(DriverIdx, InterfaceNum)>, UsbError>(e),
                    tr,
                ));
            }
            return Err(e);
        }
        proof {
            assert(driver_found(
                *old(host),
                *host,
                old(drivers)@,
                drivers@,
                *old(device),
                *device,
                Ok::<Option<(DriverIdx, InterfaceNum)>, UsbError>(Some((found.0, found.2))),
                tr,
            ));
        }
        Ok(Some((found.0, found.2)))
    }
}

/// The first of the drivers `drivers` from the place `from` on that takes
/// the device `device` with the configuration `conf`: its place, and the
/// configuration and the interface that it named. Each driver is asked with
/// a parser at the start of the configuration.
pub open spec fn first_accepting<D: Driver>(
    drivers: Seq<D>,
    device: DeviceView,
    conf: Seq<u8>,
    from: int,
) -> Option<(DriverIdx, ConfigNum, InterfaceNum)>
    decreases drivers.len() - from,
{
    if from < 0 || from >= drivers.len() {
        None
    } else {
        match drivers[from].spec_accept(
            device,
            ParserView { bytes: conf, pos: 0, class: None, subclass: None },
        ) {
            Some(found) => Some((from as DriverIdx, found.1, found.2)),
            None => first_accepting(drivers, device, conf, from + 1),
        }
    }
}

/// The driver that takes a device is one of the drivers, and none before it
/// takes the device.
pub proof fn lemma_first_accepting<D: Driver>(
    drivers: Seq<D>,
    device: DeviceView,
    conf: Seq<u8>,
    from: int,
)
    requires
        0 <= from,
        drivers.len() <= MAX_DRIVERS,
    ensures
        match first_accepting(drivers, device, conf, from) {
            Some(found) => from <= found.0 < drivers.len() && drivers[found.0 as int].spec_accept(
                device,
                ParserView { bytes: conf, pos: 0, class: None, subclass: None },
            ) is Some && forall|j: int|
                from <= j < found.0 ==> (#[trigger] drivers[j]).spec_accept(
                    device,
                    ParserView { bytes: conf, pos: 0, class: None, subclass: None },
                ) is None,
            None => forall|j: int|
                from <= j < drivers.len() ==> (#[trigger] drivers[j]).spec_accept(
                    device,
                    ParserView { bytes: conf, pos: 0, class: None, subclass: None },
                ) is None,
        },
    decreases drivers.len() - from,
{
    if from < drivers.len() {
        lemma_first_accepting(drivers, device, conf, from + 1);
    }
}

/// What happened in the turn of a device: the time that the host gave,
/// the host and the device in between, what happened while the device was
/// given its address and what came of it, what happened while its driver was
/// found and what came of it, the device as its driver left it and the state
/// that its driver named once its configuration was selected, and what the
/// host was asked by the driver.
pub struct StepTrace<H> {
    pub time: u64,
    pub host: H,
    pub device: Device,
    pub address: AddressTrace<H>,
    pub addressed: Result<DeviceDescriptor, UsbError>,
    pub configure: ConfigureTrace<H>,
    pub found: Result<Option<(DriverIdx, InterfaceNum)>, UsbError>,
    pub settled: Device,
    pub state: DeviceState,
    pub log: Seq<HostStep>,
}

/// Whether one turn of the lifecycle of the device `d0`, whose driver is at
/// `driver0`, with the host `h0`, the drivers `drivers0` and the free
/// addresses `free0`, leads to the device `d1` with its driver at `driver1`,
/// the host `h1`, the drivers `drivers1`, the free addresses `free1` and the
/// result `r`, where `tr` says what happened. It goes by what is to be done
/// with the device, cf [`lifecycle_action`].
///
/// A device that failed or is an orphan is left alone. A device without an
/// address is given one, cf [`addressed`]; the host is then asked for the
/// time `SETTLE_DELAY` from now, until which the device waits for its
/// configuration. For a device that waits for its configuration the host is
/// asked for the time: until the time has come nothing more happens; then
/// its driver is found, cf [`driver_found`]. A device that no driver takes
/// is made an orphan; else the driver says in which state the device goes
/// on, as `config_set` of the driver has it, and may ask the host for that,
/// cf [`followed`]. Any other device is handed to its
/// driver, which may ask the host what `tr.log` holds, cf [`followed`]; no
/// other driver changes. A device that has no driver then fails with
/// `NoDriver`. The first error is the result.
pub open spec fn device_stepped<H: UsbHost, D: Driver>(
    h0: H,
    h1: H,
    drivers0: Seq<D>,
    drivers1: Seq<D>,
    free0: Set<int>,
    free1: Set<int>,
    d0: Device,
    d1: Device,
    driver0: Option<DriverIdx>,
    driver1: Option<DriverIdx>,
    r: Result<(), UsbError>,
    tr: StepTrace<H>,
) -> bool {
    match lifecycle_action(d0@.state, d0@.error is Some) {
        LifecycleAction::Nothing => r is Ok && h1 == h0 && drivers1 == drivers0 && free1 == free0
            && d1 == d0 && driver1 == driver0,
        LifecycleAction::Address => {
            &&& drivers1 == drivers0
            &&& driver1 == driver0
            &&& addressed(h0, h1, free0, free1, d0, tr.device, tr.addressed, tr.address)
            &&& match tr.addressed {
                Err(e) => r == Err::<(), UsbError>(e) && d1 == tr.device,
                Ok(_) => r is Ok && h1.answers(
                    HostCall::AfterMillis(SETTLE_DELAY),
                    h1,
                    HostAnswer::Time(tr.time),
                ) && d1@ == (DeviceView { state: DeviceState::SetConfig(tr.time), ..tr.device@ }),
            }
        },
        LifecycleAction::ConfigureAfter(until) => {
            &&& free1 == free0
            &&& h0.answers(HostCall::AfterMillis(0), h0, HostAnswer::Time(tr.time))
            &&& if tr.time < until {
                r is Ok && h1 == h0 && drivers1 == drivers0 && d1 == d0 && driver1 == driver0
            } else {
                &&& driver_found(
                    h0,
                    tr.host,
                    drivers0,
                    drivers1,
                    d0,
                    tr.device,
                    tr.found,
                    tr.configure,
                )
                &&& match tr.found {
                    Err(e) => r == Err::<(), UsbError>(e) && h1 == tr.host && d1 == tr.device
                        && driver1 == driver0,
                    Ok(None) => r is Ok && h1 == tr.host && driver1 == driver0 && d1@ == (
                    DeviceView { state: DeviceState::Orphan, ..tr.device@ }),
                    Ok(Some(found)) => {
                        &&& r is Ok
                        &&& driver1 == Some(found.0)
                        &&& 0 <= found.0 < drivers1.len()
                        &&& drivers1[found.0 as int].config_set(
                            tr.device,
                            tr.settled,
                            tr.state,
                            tr.log,
                        )
                        &&& followed(tr.host, h1, tr.log)
                        &&& d1@ == (DeviceView { state: tr.state, ..tr.settled@ })
                    },
                }
            }
        },
        LifecycleAction::Run => {
            &&& free1 == free0
            &&& driver1 == driver0
            &&& match driver0 {
                None => r == Err::<(), UsbError>(UsbError::NoDriver) && h1 == h0 && drivers1
                    == drivers0 && d1 == d0,
                Some(idx) => one_driver_changed(drivers0, drivers1, idx as int)
                    && drivers0[idx as int].runs(d0, drivers1[idx as int], d1, r, tr.log)
                    && followed(h0, h1, tr.log),
            }
        },
    }
}

/// What a stack holds: the host controller, the drivers, the free
/// addresses, and the devices, each with the place of its driver.
pub struct StackView<H, D> {
    pub host: H,
    pub drivers: Seq<D>,
    pub free: Set<int>,
    pub devices: Seq<(Device, Option<DriverIdx>)>,
}

/// Whether one turn of the lifecycle of the device in the place `i` leads
/// from the stack `s0` to the stack `s1` and the result `r`, where `tr` says
/// what happened, cf [`device_stepped`]. No other device changes. Where
/// there is no device in the place `i`, the error is `OutOfRange` and
/// nothing happens.
pub open spec fn device_turned<H: UsbHost, D: Driver>(
    s0: StackView<H, D>,
    s1: StackView<H, D>,
    i: int,
    r: Result<(), UsbError>,
    tr: StepTrace<H>,
) -> bool {
    if i < 0 || i >= s0.devices.len() {
        r == Err::<(), UsbError>(UsbError::OutOfRange) && s1 == s0
    } else {
        &&& s1.devices == s0.devices.update(i, s1.devices[i])
        &&& device_stepped(
            s0.host,
            s1.host,
            s0.drivers,
            s1.drivers,
            s0.free,
            s1.free,
            s0.devices[i].0,
            s1.devices[i].0,
            s0.devices[i].1,
            s1.devices[i].1,
            r,
            tr,
        )
    }
}

/// Whether finding the driver of the device in the place `i` leads from
/// the stack `s0` to the stack `s1` and the result `r`, where `tr` says what
/// happened, cf [`driver_found`]. No other device changes, the place of the
/// driver of the device is not kept, and no address changes. Where there is
/// no device in the place `i`, the error is `OutOfRange` and nothing
/// happens.
pub open spec fn device_configured<H: UsbHost, D: Driver>(
    s0: StackView<H, D>,
    s1: StackView<H, D>,
    i: int,
    r: Result<Option<(DriverIdx, InterfaceNum)>, UsbError>,
    tr: ConfigureTrace<H>,
) -> bool {
    if i < 0 || i >= s0.devices.len() {
        r == Err::<Option<(DriverIdx, InterfaceNum)>, UsbError>(UsbError::OutOfRange) && s1
            == s0
    } else {
        &&& s1.free == s0.free
        &&& s1.devices == s0.devices.update(i, (s1.devices[i].0, s0.devices[i].1))
        &&& driver_found(
            s0.host,
            s1.host,
            s0.drivers,
            s1.drivers,
            s0.devices[i].0,
            s1.devices[i].0,
            r,
            tr,
        )
    }
}

/// Whether the device in the place `i` of the stack `s0` was stopped with
/// the error of the result `r`, if it is one, which leaves the stack `s1`:
/// nothing else changes.
pub open spec fn stopped<H: UsbHost, D: Driver>(
    s0: StackView<H, D>,
    s1: StackView<H, D>,
    i: int,
    r: Result<(), UsbError>,
) -> bool {
    match r {
        Ok(_) => s1 == s0,
        Err(e) => {
            &&& s1.host == s0.host
            &&& s1.drivers == s0.drivers
            &&& s1.free == s0.free
            &&& 0 <= i < s0.devices.len()
            &&& s1.devices == s0.devices.update(i, s1.devices[i])
            &&& s1.devices[i].1 == s0.devices[i].1
            &&& s1.devices[i].0@ == (DeviceView { error: Some(e), ..s0.devices[i].0@ })
        },
    }
}

/// The turn of one device among the turns of all: the stack after the
/// turn, what the turn returned and what happened in it, and the stack once
/// a device whose turn failed is stopped.
pub struct TurnTrace<H, D> {
    pub turned: StackView<H, D>,
    pub result: Result<(), UsbError>,
    pub trace: StepTrace<H>,
    pub after: StackView<H, D>,
}

/// Whether the device in the place `i` of the stack `s0` had its turn as
/// `turn` says, cf [`device_turned`], and was stopped with the error if the
/// turn failed, cf [`stopped`].
pub open spec fn turn_taken<H: UsbHost, D: Driver>(s0: StackView<H, D>, turn: TurnTrace<H, D>, i: int) -> bool {
    device_turned(s0, turn.turned, i, turn.result, turn.trace) && stopped(
        turn.turned,
        turn.after,
        i,
        turn.result,
    )
}

/// Whether the devices in the places from `from` up to `to` of the stack
/// `s0` had one turn each, in their order, cf [`turn_taken`], which leaves
/// the stack `s1`.
pub open spec fn turns<H: UsbHost, D: Driver>(
    s0: StackView<H, D>,
    s1: StackView<H, D>,
    from: int,
    to: int,
) -> bool
    decreases to - from,
{
    if from >= to {
        s1 == s0
    } else {
        exists|turn: TurnTrace<H, D>| #[trigger]
            turn_taken(s0, turn, from) && turns(turn.after, s1, from + 1, to)
    }
}

/// Whether the stack `s0` took in what its host controller had to tell,
/// `event`, which leaves the stack `s1` and the result `r`. For a device
/// that is ready the host controller is asked for the largest packet that it
/// takes now, which is `size`, and the device joins the devices with that,
/// without an address and without a driver, unless the stack holds
/// `DEVICE_SLOTS` devices: then the error is `TooManyDevices`. After a reset
/// of the bus no device is left, every address is free, and the driver of
/// each device was told that it is gone, cf [`told_gone`].
pub open spec fn event_handled<H: UsbHost, D: Driver>(
    s0: StackView<H, D>,
    s1: StackView<H, D>,
    event: Option<HostEvent>,
    r: Result<(), UsbError>,
    size: u16,
) -> bool {
    &&& s1.host == s0.host
    &&& match event {
        Some(HostEvent::Ready) => {
            &&& s0.host.answers(HostCall::MaxHostPacketSize, s0.host, HostAnswer::PacketSize(size))
            &&& s1.drivers == s0.drivers
            &&& s1.free == s0.free
            &&& if s0.devices.len() < DEVICE_SLOTS {
                &&& r is Ok
                &&& s1.devices.len() == s0.devices.len() + 1
                &&& s1.devices.drop_last() == s0.devices
                &&& s1.devices.last().1 is None
                &&& s1.devices.last().0@ == (DeviceView {
                    address: s1.devices.last().0@.address,
                    state: DeviceState::SetAddress,
                    max_packet_size: size,
                    toggle: false,
                    error: None,
                })
                &&& s1.devices.last().0@.address@ == 0
            } else {
                r == Err::<(), UsbError>(UsbError::TooManyDevices) && s1.devices == s0.devices
            }
        },
        Some(HostEvent::Reset) => r is Ok && s1.devices.len() == 0 && s1.free == full_pool()
            && told_gone(s0.drivers, s1.drivers, s0.devices, 0),
        None => r is Ok && s1 == s0,
    }
}

/// What happened in a turn of the stack: what the host controller had to
/// tell, the host controller after it, the largest packet that it takes, and
/// the stack once that was taken in.
pub struct UpdateTrace<H, D> {
    pub event: Option<HostEvent>,
    pub host: H,
    pub size: u16,
    pub handled: StackView<H, D>,
}

/// Whether one turn of the stack `s0` leads to the stack `s1` and the
/// result `r`, where `tr` says what happened. First the host controller is
/// asked what has happened, and that is taken in, cf [`event_handled`],
/// which gives the result. Then each device that there is has its turn, cf
/// [`turns`].
pub open spec fn stack_updated<H: UsbHost, D: Driver>(
    s0: StackView<H, D>,
    s1: StackView<H, D>,
    r: Result<(), UsbError>,
    tr: UpdateTrace<H, D>,
) -> bool {
    &&& s0.host.answers(HostCall::Update, tr.host, HostAnswer::Event(tr.event))
    &&& event_handled(StackView { host: tr.host, ..s0 }, tr.handled, tr.event, r, tr.size)
    &&& turns(tr.handled, s1, 0, tr.handled.devices.len() as int)
}

impl<H: UsbHost, D: Driver> UsbStack<H, D> {
    /// What the stack holds.
    pub open spec fn state(&self) -> StackView<H, D> {
        StackView {
            host: self.host(),
            drivers: self.drivers(),
            free: self.free(),
            devices: self.devices(),
        }
    }

    /// One turn of the lifecycle of a device, cf [`lifecycle_action`]:
    /// `driver` is the place of its driver among `drivers`.
    fn step_device(host: &mut H, drivers: &mut Vec<D>, pool: &mut AddressPool, device: &mut Device, driver: &mut Option<DriverIdx>) -> (r: Result<(), UsbError>)
        requires
            old(drivers)@.len() <= MAX_DRIVERS,
            *old(driver) matches Some(idx) ==> idx < old(drivers)@.len(),
            device_fits(old(device)@, *old(driver)),
        ensures
            exists|tr: StepTrace<H>| #[trigger]
                device_stepped(
                    *old(host),
                    *final(host),
                    old(drivers)@,
                    final(drivers)@,
                    old(pool).free(),
                    final(pool).free(),
                    *old(device),
                    *final(device),
                    *old(driver),
                    *final(driver),
                    r,
                    tr,
                ),
            device_fits(final(device)@, *final(driver)),
            final(drivers)@.len() == old(drivers)@.len(),
            *final(driver) matches Some(idx) ==> idx < old(drivers)@.len(),
            address_kept_or_taken(
                old(device)@,
                final(device)@,
                old(pool).free(),
                final(pool).free(),
            ),
            match lifecycle_action(old(device)@.state, old(device)@.error is Some) {
                LifecycleAction::Nothing => r is Ok && *final(device) == *old(device) && *final(pool)
                    == *old(pool) && *final(driver) == *old(driver) && *final(host) == *old(host)
                    && final(drivers)@ == old(drivers)@,
                LifecycleAction::Address => final(drivers)@ == old(drivers)@ && *final(driver)
                    == *old(driver) && final(device)@.error == old(device)@.error && match r {
                    Ok(_) => final(device)@.address@ != 0 && final(device)@.state is SetConfig,
                    Err(_) => final(device)@.address == old(device)@.address && final(device)@.state == old(device)@.state,
                },
                LifecycleAction::ConfigureAfter(_) => final(device)@.address == old(device)@.address
                    && *final(pool) == *old(pool) && (r is Ok ==> {
                    ||| (*final(device) == *old(device) && *final(driver) == *old(driver))
                    ||| (final(device)@.state == DeviceState::Orphan && *final(driver) == *old(driver))
                    ||| *final(driver) is Some
                }),
                LifecycleAction::Run => final(device)@.address == old(device)@.address && *final(pool) == *old(pool) && *final(driver) == *old(driver) && (*old(driver) is None ==> r
                    == Err::<(), UsbError>(UsbError::NoDriver) && *final(device) == *old(device)),
            },
    {
        let ghost blank = Self::blank_trace(*host, *device);
        match device.action() {
            LifecycleAction::Nothing => {
                proof {
                    assert(device_stepped(
                        *old(host),
                        *host,
                        old(drivers)@,
                        drivers@,
                        old(pool).free(),
                        pool.free(),
                        *old(device),
                        *device,
                        *old(driver),
                        *driver,
                        Ok::<(), UsbError>(()),
                        blank,
                    ));
                }
            },
            LifecycleAction::Address => {
                let addressed_as = Self::address_dev(host, pool, device);
                let ghost address = choose|tr: AddressTrace<H>| #[trigger]
                    addressed(
                        *old(host),
                        *host,
                        old(pool).free(),
                        pool.free(),
                        *old(device),
                        *device,
                        addressed_as,
                        tr,
                    );
                let ghost tr = StepTrace {
                    device: *device,
                    address,
                    addressed: addressed_as,
                    ..blank
                };
                match addressed_as {
                    Ok(_) => {},
                    Err(e) => {
                        proof {
                            assert(device_stepped(
                                *old(host),
                                *host,
                                old(drivers)@,
                                drivers@,
                                old(pool).free(),
                                pool.free(),
                                *old(device),
                                *device,
                                *old(driver),
                                *driver,
                                Err::<(), UsbError>(e),
                                tr,
                            ));
                        }
                        return Err(e);
                    },
                }
                proof {
                    crate::address::lemma_next_is_lowest(old(pool).free());
                }
                // the device is left alone until it has settled
                let settled = host.after_millis(SETTLE_DELAY);
                device.set_state(DeviceState::SetConfig(settled));
                proof {
                    assert(device_stepped(
                        *old(host),
                        *host,
                        old(drivers)@,
                        drivers@,
                        old(pool).free(),
                        pool.free(),
                        *old(device),
                        *device,
                        *old(driver),
                        *driver,
                        Ok::<(), UsbError>(()),
                        StepTrace { time: settled, ..tr },
                    ));
                }
            },
            LifecycleAction::ConfigureAfter(until) => {
                let due = host.delay_done(until);
                let ghost now = choose|t: u64| #[trigger]
                    host.answers(HostCall::AfterMillis(0), *host, HostAnswer::Time(t)) && due == (t
                        >= until);
                if due {
                    let found_as = Self::find_driver(host, drivers, device);
                    let ghost configure = choose|tr: ConfigureTrace<H>| #[trigger]
                        driver_found(
                            *old(host),
                            *host,
                            old(drivers)@,
                            drivers@,
                            *old(device),
                            *device,
                            found_as,
                            tr,
                        );
                    let ghost tr = StepTrace {
                        time: now,
                        host: *host,
                        device: *device,
                        configure,
                        found: found_as,
                        ..blank
                    };
                    let idx_iface = match found_as {
                        Ok(found) => found,
                        Err(e) => {
                            proof {
                                assert(device_stepped(
                                    *old(host),
                                    *host,
                                    old(drivers)@,
                                    drivers@,
                                    old(pool).free(),
                                    pool.free(),
                                    *old(device),
                                    *device,
                                    *old(driver),
                                    *driver,
                                    Err::<(), UsbError>(e),
                                    tr,
                                ));
                            }
                            return Err(e);
                        },
                    };
                    let ghost mut tr = tr;
                    if let Some(found) = idx_iface {
                        *driver = Some(found.0);
                        let next_state = drivers[found.0 as usize].state_after_config_set(
                            host,
                            device,
                        );
                        proof {
                            let log = choose|log: Seq<HostStep>| #[trigger]
                                drivers@[found.0 as int].config_set(
                                    tr.device,
                                    *device,
                                    next_state,
                                    log,
                                ) && followed(tr.host, *host, log);
                            tr = StepTrace { settled: *device, state: next_state, log, ..tr };
                        }
                        device.set_state(next_state);
                    } else {
                        device.set_state(DeviceState::Orphan);
                    }
                    proof {
                        assert(device_stepped(
                            *old(host),
                            *host,
                            old(drivers)@,
                            drivers@,
                            old(pool).free(),
                            pool.free(),
                            *old(device),
                            *device,
                            *old(driver),
                            *driver,
                            Ok::<(), UsbError>(()),
                            tr,
                        ));
                    }
                } else {
                    proof {
                        assert(device_stepped(
                            *old(host),
                            *host,
                            old(drivers)@,
                            drivers@,
                            old(pool).free(),
                            pool.free(),
                            *old(device),
                            *device,
                            *old(driver),
                            *driver,
                            Ok::<(), UsbError>(()),
                            StepTrace { time: now, ..blank },
                        ));
                    }
                }
            },
            // Other states handled by driver
            LifecycleAction::Run => {
                if let Some(idx) = *driver {
                    let ran = drivers[idx as usize].run(host, device);
                    let ghost log = choose|log: Seq<HostStep>| #[trigger]
                        old(drivers)@[idx as int].runs(
                            *old(device),
                            drivers@[idx as int],
                            *device,
                            ran,
                            log,
                        ) && followed(*old(host), *host, log);
                    proof {
                        assert(drivers@ =~= old(drivers)@.update(idx as int, drivers@[idx as int]));
                        assert(device_stepped(
                            *old(host),
                            *host,
                            old(drivers)@,
                            drivers@,
                            old(pool).free(),
                            pool.free(),
                            *old(device),
                            *device,
                            *old(driver),
                            *driver,
                            ran,
                            StepTrace { log, ..blank },
                        ));
                    }
                    return ran;
                } else {
                    proof {
                        assert(device_stepped(
                            *old(host),
                            *host,
                            old(drivers)@,
                            drivers@,
                            old(pool).free(),
                            pool.free(),
                            *old(device),
                            *device,
                            *old(driver),
                            *driver,
                            Err::<(), UsbError>(UsbError::NoDriver),
                            blank,
                        ));
                    }
                    return Err(UsbError::NoDriver);
                }
            },
        }
        Ok(())
    }

    /// What stands for a turn in which nothing happened.
    spec fn blank_trace(host: H, device: Device) -> StepTrace<H> {
        let nothing = Transferred { toggle: false, data: None, result: Ok(0) };
        StepTrace {
            time: 0,
            host,
            device,
            address: AddressTrace {
                read: nothing,
                host,
                device,
                descriptor: Err(UsbError::OutOfRange),
                address: device@.address,
                set: nothing,
                given: Ok(()),
                settled: 0,
            },
            addressed: Err(UsbError::OutOfRange),
            configure: ConfigureTrace {
                read: ConfigurationTrace { mid: host, head: nothing, whole: nothing },
                host,
                device,
                buffer: Seq::empty(),
                size: Err(UsbError::OutOfRange),
                set: nothing,
                selected_device: device,
                selected: Ok(()),
                registered_device: device,
                registered: Ok(()),
            },
            found: Err(UsbError::OutOfRange),
            settled: device,
            state: DeviceState::Orphan,
            log: Seq::empty(),
        }
    }

    /// The devices stay fit when one of them changes without a change of
    /// its address or takes the next address of the pool, and keeps to the
    /// drivers.
    proof fn lemma_fit_after_step(
        devices: Seq<(Device, Option<u8>)>,
        i: int,
        slot: (Device, Option<u8>),
        free: Set<int>,
        free_after: Set<int>,
        drivers: nat,
    )
        requires
            0 <= i < devices.len(),
            devices_fit(devices, free, drivers),
            address_kept_or_taken(devices[i].0@, slot.0@, free, free_after),
            device_fits(slot.0@, slot.1),
            slot.1 matches Some(idx) ==> idx < drivers,
        ensures
            devices_fit(devices.update(i, slot), free_after, drivers),
    {
        let after = devices.update(i, slot);
        crate::address::lemma_next_is_lowest(free);
        assert forall|k: int| 0 <= k < after.len() && k != i implies #[trigger] after[k]
            == devices[k] by {}
        assert forall|k: int| 0 <= k < after.len() implies device_fits(
            (#[trigger] after[k]).0@,
            after[k].1,
        ) by {
            if k != i {
                assert(after[k] == devices[k]);
            }
        }
        assert forall|k: int| 0 <= k < after.len() && (#[trigger] after[k]).0@.address@
            != 0 implies !free_after.contains(after[k].0@.address@ as int) by {
            if k != i {
                assert(after[k] == devices[k]);
            }
        }
        assert forall|k: int, j: int|
            0 <= k < after.len() && 0 <= j < after.len() && k != j && (
            #[trigger] after[k]).0@.address@ != 0 implies after[k].0@.address@ != (
        #[trigger] after[j]).0@.address@ by {
            if k != i {
                assert(after[k] == devices[k]);
            }
            if j != i {
                assert(after[j] == devices[j]);
            }
        }
    }

    /// One turn of the lifecycle of the device in the place `i`, cf
    /// [`device_turned`] and [`lifecycle_action`]: a device that failed or has no driver is left
    /// alone; one without an address gets the next address of the pool; one
    /// with an address gets its driver and its configuration once it has
    /// settled; any other is handed to its driver. No other device changes.
    /// Where there is no device in the place `i`, the error is `OutOfRange`.
    pub fn update_dev(&mut self, i: usize) -> (r: Result<(), UsbError>)
        requires
            old(self).wf(),
        ensures
            exists|tr: StepTrace<H>| #[trigger]
                device_turned(old(self).state(), final(self).state(), i as int, r, tr),
            final(self).wf(),
            final(self).devices().len() == old(self).devices().len(),
            final(self).drivers().len() == old(self).drivers().len(),
            i >= old(self).devices().len() ==> r == Err::<(), UsbError>(UsbError::OutOfRange)
                && final(self).devices() == old(self).devices() && final(self).free() == old(self).free()
                && final(self).host() == old(self).host() && final(self).drivers() == old(self).drivers(),
            forall|j: int|
                0 <= j < old(self).devices().len() && j != i ==> #[trigger] final(self).devices()[j] == old(self).devices()[j],
            i < old(self).devices().len() ==> address_kept_or_taken(
                old(self).devices()[i as int].0@,
                final(self).devices()[i as int].0@,
                old(self).free(),
                final(self).free(),
            ),
            i < old(self).devices().len() ==> match lifecycle_action(
                old(self).devices()[i as int].0@.state,
                old(self).devices()[i as int].0@.error is Some,
            ) {
                LifecycleAction::Nothing => r is Ok && final(self).devices() == old(self).devices()
                    && final(self).free() == old(self).free() && final(self).host() == old(self).host()
                    && final(self).drivers() == old(self).drivers(),
                LifecycleAction::Address => final(self).drivers() == old(self).drivers() && match r {
                    Ok(_) => final(self).devices()[i as int].0@.address@ != 0
                        && final(self).devices()[i as int].0@.state is SetConfig,
                    Err(_) => final(self).devices()[i as int].0@.address == old(self).devices()[i as int].0@.address
                        && final(self).devices()[i as int].0@.state == old(self).devices()[i as int].0@.state,
                },
                LifecycleAction::ConfigureAfter(_) => final(self).free() == old(self).free() && (r is Ok ==> {
                    ||| final(self).devices()[i as int] == old(self).devices()[i as int]
                    ||| (final(self).devices()[i as int].0@.state == DeviceState::Orphan
                        && final(self).devices()[i as int].1 == old(self).devices()[i as int].1)
                    ||| final(self).devices()[i as int].1 is Some
                }),
                LifecycleAction::Run => final(self).free() == old(self).free() && (old(self).devices()[i as int].1 is None
                    ==> r == Err::<(), UsbError>(UsbError::NoDriver) && final(self).devices() == old(self).devices()),
            },
    {
        if i >= slots_len(&self.devices) {
            proof {
                assert(device_turned(
                    old(self).state(),
                    self.state(),
                    i as int,
                    Err::<(), UsbError>(UsbError::OutOfRange),
                    Self::blank_trace(self.host, arbitrary()),
                ));
            }
            return Err(UsbError::OutOfRange);
        }
        let slot = slots_get(&self.devices, i);
        let mut device = slot.0;
        let mut driver = slot.1;
        let ghost before = device_slots(self.devices);
        let ghost free = self.addr_pool.free();
        let r = Self::step_device(
            &mut self.host,
            &mut self.drivers,
            &mut self.addr_pool,
            &mut device,
            &mut driver,
        );
        let ghost tr = choose|tr: StepTrace<H>| #[trigger]
            device_stepped(
                old(self).host,
                self.host,
                old(self).drivers@,
                self.drivers@,
                free,
                self.addr_pool.free(),
                slot.0,
                device,
                slot.1,
                driver,
                r,
                tr,
            );
        slots_set(&mut self.devices, i, (device, driver));
        proof {
            assert(device_turned(old(self).state(), self.state(), i as int, r, tr));
            Self::lemma_fit_after_step(
                before,
                i as int,
                (device, driver),
                free,
                self.addr_pool.free(),
                self.drivers@.len(),
            );
            if lifecycle_action(before[i as int].0@.state, before[i as int].0@.error is Some)
                == LifecycleAction::Nothing || (r == Err::<(), UsbError>(UsbError::NoDriver)
                && device == before[i as int].0 && driver == before[i as int].1) {
                assert(device_slots(self.devices) =~= before);
            }
        }
        r
    }

    /// Finds the driver of the device in the place `i`, cf
    /// [`device_configured`]: reads the configuration of the device and asks
    /// the drivers in their order. The first that accepts the device gets
    /// it: the configuration that the driver named is selected, and the
    /// driver registers the device. The result is the place of the driver
    /// and the interface it named. The device is talked to at the address
    /// that it has, be it none yet. Where there is no device in the place
    /// `i`, the error is `OutOfRange` and nothing happens.
    pub fn configure_dev(&mut self, i: usize) -> (r: Result<Option<(DriverIdx, InterfaceNum)>, UsbError>)
        requires
            old(self).wf(),
        ensures
            exists|tr: ConfigureTrace<H>| #[trigger]
                device_configured(old(self).state(), final(self).state(), i as int, r, tr),
            final(self).wf(),
            final(self).devices().len() == old(self).devices().len(),
            final(self).drivers().len() == old(self).drivers().len(),
            final(self).free() == old(self).free(),
            i >= old(self).devices().len() ==> r is Err && final(self).devices() == old(self).devices()
                && final(self).host() == old(self).host() && final(self).drivers() == old(self).drivers(),
            forall|j: int|
                0 <= j < old(self).devices().len() && j != i ==> #[trigger] final(self).devices()[j] == old(self).devices()[j],
            i < old(self).devices().len() ==> final(self).devices()[i as int].0@.address == old(self).devices()[i as int].0@.address
                && final(self).devices()[i as int].1 == old(self).devices()[i as int].1,
            r matches Ok(Some(found)) ==> found.0 < old(self).drivers().len(),
    {
        let ghost blank = Self::blank_trace(self.host, arbitrary()).configure;
        if i >= slots_len(&self.devices) {
            proof {
                assert(device_configured(
                    old(self).state(),
                    self.state(),
                    i as int,
                    Err::<Option<(DriverIdx, InterfaceNum)>, UsbError>(UsbError::OutOfRange),
                    blank,
                ));
            }
            return Err(UsbError::OutOfRange);
        }
        let slot = slots_get(&self.devices, i);
        let mut device = slot.0;
        proof {
            crate::device::lemma_device_endpoint(device, false);
        }
        let ghost before = device_slots(self.devices);
        let r = Self::find_driver(&mut self.host, &mut self.drivers, &mut device);
        let ghost tr = choose|tr: ConfigureTrace<H>| #[trigger]
            driver_found(
                old(self).host,
                self.host,
                old(self).drivers@,
                self.drivers@,
                slot.0,
                device,
                r,
                tr,
            );
        slots_set(&mut self.devices, i, (device, slot.1));
        proof {
            assert(device_configured(old(self).state(), self.state(), i as int, r, tr));
            Self::lemma_fit_after_step(
                before,
                i as int,
                (device, slot.1),
                self.addr_pool.free(),
                self.addr_pool.free(),
                self.drivers@.len(),
            );
        }
        r
    }

    /// Stops the device in the place `i` with `error`. Where there is no
    /// such device, nothing happens.
    pub fn fail_device(&mut self, i: usize, error: UsbError)
        requires
            old(self).wf(),
        ensures
            final(self).wf(),
            final(self).drivers() == old(self).drivers(),
            final(self).free() == old(self).free(),
            final(self).host() == old(self).host(),
            final(self).devices().len() == old(self).devices().len(),
            i >= old(self).devices().len() ==> final(self).devices() == old(self).devices(),
            forall|j: int|
                0 <= j < old(self).devices().len() && j != i ==> #[trigger] final(self).devices()[j] == old(self).devices()[j],
            i < old(self).devices().len() ==> final(self).devices()[i as int].1 == old(self).devices()[i as int].1
                && final(self).devices()[i as int].0@ == (DeviceView {
                error: Some(error),
                ..old(self).devices()[i as int].0@
            }),
    {
        if i >= slots_len(&self.devices) {
            return ;
        }
        let slot = slots_get(&self.devices, i);
        let mut device = slot.0;
        let ghost before = device_slots(self.devices);
        device.set_error(error);
        slots_set(&mut self.devices, i, (device, slot.1));
        proof {
            Self::lemma_fit_after_step(
                before,
                i as int,
                (device, slot.1),
                self.addr_pool.free(),
                self.addr_pool.free(),
                self.drivers@.len(),
            );
        }
    }

    /// One turn of the lifecycle of each device on the bus, in the order of
    /// their places, cf [`turns`] and [`Self::update_dev`]. A device whose turn fails is stopped with the
    /// error, and the turn goes on with the next. Every device keeps its
    /// address, unless it had none and got one; no address becomes free.
    pub fn update_devices(&mut self)
        requires
            old(self).wf(),
        ensures
            turns(
                old(self).state(),
                final(self).state(),
                0,
                old(self).devices().len() as int,
            ),
            final(self).wf(),
            final(self).devices().len() == old(self).devices().len(),
            final(self).drivers().len() == old(self).drivers().len(),
            final(self).free().subset_of(old(self).free()),
            forall|k: int|
                0 <= k < old(self).devices().len() ==> (#[trigger] final(self).devices()[k]).0@.address
                    == old(self).devices()[k].0@.address || old(self).devices()[k].0@.address@ == 0,
    {
        let n = slots_len(&self.devices);
        let mut i: usize = 0;
        while i < n
            invariant
                i <= n,
                self.wf(),
                n == self.devices().len(),
                n == old(self).devices().len(),
                self.drivers().len() == old(self).drivers().len(),
                self.free().subset_of(old(self).free()),
                forall|k: int|
                    0 <= k < n ==> (#[trigger] self.devices()[k]).0@.address == old(self).devices()[k].0@.address || old(self).devices()[k].0@.address@ == 0,
                forall|k: int| i <= k < n ==> #[trigger] self.devices()[k] == old(self).devices()[k],
                forall|after: StackView<H, D>| #[trigger]
                    turns(self.state(), after, i as int, n as int) ==> turns(
                        old(self).state(),
                        after,
                        0,
                        n as int,
                    ),
            decreases n - i,
        {
            let ghost before = self.devices();
            let ghost free = self.free();
            let ghost start = self.state();
            let r = self.update_dev(i);
            let ghost stepped = self.devices();
            let ghost turned = self.state();
            let ghost trace = choose|tr: StepTrace<H>| #[trigger]
                device_turned(start, turned, i as int, r, tr);
            proof {
                crate::address::lemma_next_is_lowest(free);
            }
            if let Err(err) = r {
                self.fail_device(i, err);
                assert(self.devices() =~= stepped.update(i as int, self.devices()[i as int]));
            }
            proof {
                let turn = TurnTrace { turned, result: r, trace, after: self.state() };
                assert(turn_taken(start, turn, i as int));
                assert forall|after: StackView<H, D>| #[trigger]
                    turns(self.state(), after, i + 1, n as int) implies turns(
                    old(self).state(),
                    after,
                    0,
                    n as int,
                ) by {
                    assert(turns(start, after, i as int, n as int));
                }
                assert forall|k: int| 0 <= k < n implies (#[trigger] self.devices()[k]).0@.address
                    == old(self).devices()[k].0@.address || old(self).devices()[k].0@.address@
                    == 0 by {
                    if k != i {
                        assert(stepped[k] == before[k]);
                    }
                }
                assert forall|k: int| i + 1 <= k < n implies #[trigger] self.devices()[k] == old(self).devices()[k] by {
                    assert(stepped[k] == before[k]);
                }
            }
            i += 1;
        }
        proof {
            assert(turns(self.state(), self.state(), n as int, n as int));
        }
    }

    /// Takes in what the host controller has to tell: a device that is
    /// ready joins the devices, cf [`Self::attach`], with the largest packet
    /// that the host controller takes now; a reset of the bus ends all
    /// devices, cf [`Self::reset`].
    pub fn handle_event(&mut self, event: Option<HostEvent>) -> (r: Result<(), UsbError>)
        requires
            old(self).wf(),
        ensures
            exists|size: u16| #[trigger]
                event_handled(old(self).state(), final(self).state(), event, r, size),
            final(self).wf(),
            final(self).drivers().len() == old(self).drivers().len(),
            final(self).host() == old(self).host(),
            match event {
                Some(HostEvent::Ready) => final(self).drivers() == old(self).drivers() && final(self).free()
                    == old(self).free() && if old(self).devices().len() < DEVICE_SLOTS {
                    &&& r is Ok
                    &&& final(self).devices().len() == old(self).devices().len() + 1
                    &&& final(self).devices().drop_last() == old(self).devices()
                    &&& final(self).devices().last().1 is None
                    &&& final(self).devices().last().0@.state == DeviceState::SetAddress
                    &&& final(self).devices().last().0@.address@ == 0
                    &&& final(self).devices().last().0@.error is None
                } else {
                    r == Err::<(), UsbError>(UsbError::TooManyDevices) && final(self).devices() == old(self).devices()
                },
                Some(HostEvent::Reset) => r is Ok && final(self).devices().len() == 0 && final(self).free()
                    == full_pool(),
                None => r is Ok && final(self).devices() == old(self).devices() && final(self).free() == old(self).free()
                    && final(self).drivers() == old(self).drivers(),
            },
    {
        match event {
            Some(HostEvent::Ready) => {
                let size = self.host.max_host_packet_size();
                let r = self.attach(size);
                proof {
                    assert(event_handled(old(self).state(), self.state(), event, r, size));
                }
                r
            },
            Some(HostEvent::Reset) => {
                self.reset();
                proof {
                    assert(event_handled(
                        old(self).state(),
                        self.state(),
                        event,
                        Ok::<(), UsbError>(()),
                        0,
                    ));
                }
                Ok(())
            },
            None => {
                proof {
                    assert(event_handled(
                        old(self).state(),
                        self.state(),
                        event,
                        Ok::<(), UsbError>(()),
                        0,
                    ));
                }
                Ok(())
            },
        }
    }

    /// One turn of the stack, cf [`stack_updated`]. First the host
    /// controller is asked what has happened: a device that is ready joins the devices, and a reset of the
    /// bus ends them all. Then each device has its turn. The error is that
    /// of a device that did not find a place.
    pub fn update(&mut self) -> (r: Result<(), UsbError>)
        requires
            old(self).wf(),
        ensures
            exists|tr: UpdateTrace<H, D>| #[trigger]
                stack_updated(old(self).state(), final(self).state(), r, tr),
            final(self).wf(),
            final(self).drivers().len() == old(self).drivers().len(),
            final(self).devices().len() <= old(self).devices().len() + 1,
            r matches Err(e) ==> e == UsbError::TooManyDevices && old(self).devices().len()
                == DEVICE_SLOTS,
    {
        let event = self.host.update();
        let ghost asked = self.state();
        let result = self.handle_event(event);
        let ghost handled = self.state();
        let ghost size = choose|size: u16| #[trigger]
            event_handled(asked, handled, event, result, size);
        // Perform device upkeep
        self.update_devices();
        proof {
            let tr = UpdateTrace { event, host: asked.host, size, handled };
            assert(asked == (StackView { host: asked.host, ..old(self).state() }));
            assert(stack_updated(old(self).state(), self.state(), result, tr));
        }
        result
    }
}

} // verus!
