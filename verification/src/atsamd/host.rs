//! The state machine of the host controller: what the interrupts of the USB
//! peripheral make of the state of the bus.
use crate::host::HostEvent;
use vstd::prelude::*;

verus! {

/// How long the bus is left to settle after a reset before the first
/// transfer, in milliseconds.
pub const BUS_SETTLE_DELAY: u64 = 20;

/// The interrupts of the host.
#[derive(Debug, Clone, Copy, PartialEq, Eq, Structural)]
pub enum HostIrq {
    Detached,
    Attached,
    RamAccess,
    UpstreamResume,
    DownResume,
    WakeUp,
    Reset,
    HostStartOfFrame,
}

/// The state of the bus, as the host controller sees it.
#[derive(Clone, Copy, Debug, PartialEq, Eq, Structural)]
pub enum HostState {
    /// The controller is to be reset
    Init,
    /// Nothing is attached
    Disconnected,
    /// A device is attached and the bus is being reset
    BusReset,
    /// The bus was reset and settles until the time given
    BusSettleUntil(u64),
    /// A device is attached and can be talked to
    Connected,
    Error,
}

/// The interrupt flags of the host, as they were read.
#[derive(Clone, Copy, Debug, PartialEq, Eq, Structural)]
pub struct HostIrqFlags {
    /// DDISC: the device was disconnected
    pub ddisc: bool,
    /// DCONN: a device was connected
    pub dconn: bool,
    /// RAMACER: an access to the memory failed
    pub ramacer: bool,
    /// UPRSM: upstream resume
    pub uprsm: bool,
    /// DNRSM: downstream resume
    pub dnrsm: bool,
    /// WAKEUP: wake up
    pub wakeup: bool,
    /// RST: the bus reset is done
    pub rst: bool,
    /// HSOF: a frame has started
    pub hsof: bool,
}

/// The interrupt that is served when the flags `flags` are up: the first of
/// disconnection, connection, memory access error, upstream resume,
/// downstream resume, wake up, reset and start of frame.
pub open spec fn irq_of(flags: HostIrqFlags) -> Option<HostIrq> {
    if flags.ddisc {
        Some(HostIrq::Detached)
    } else if flags.dconn {
        Some(HostIrq::Attached)
    } else if flags.ramacer {
        Some(HostIrq::RamAccess)
    } else if flags.uprsm {
        Some(HostIrq::UpstreamResume)
    } else if flags.dnrsm {
        Some(HostIrq::DownResume)
    } else if flags.wakeup {
        Some(HostIrq::WakeUp)
    } else if flags.rst {
        Some(HostIrq::Reset)
    } else if flags.hsof {
        Some(HostIrq::HostStartOfFrame)
    } else {
        None
    }
}

/// The interrupt to serve, if a flag is up. Its flag is then to be
/// acknowledged, and no other.
pub fn next_irq(flags: HostIrqFlags) -> (irq: Option<HostIrq>)
    ensures
        irq == irq_of(flags),
{
    if flags.ddisc {
        Some(HostIrq::Detached)
    } else if flags.dconn {
        Some(HostIrq::Attached)
    } else if flags.ramacer {
        Some(HostIrq::RamAccess)
    } else if flags.uprsm {
        Some(HostIrq::UpstreamResume)
    } else if flags.dnrsm {
        Some(HostIrq::DownResume)
    } else if flags.wakeup {
        Some(HostIrq::WakeUp)
    } else if flags.rst {
        Some(HostIrq::Reset)
    } else if flags.hsof {
        Some(HostIrq::HostStartOfFrame)
    } else {
        None
    }
}

/// What one turn of the host controller leads to.
#[derive(Clone, Copy, Debug, PartialEq, Eq, Structural)]
pub struct HostUpdate {
    /// The state after the turn
    pub state: HostState,
    /// What the stack is told
    pub event: Option<HostEvent>,
    /// Whether the controller is to be reset and enabled anew
    pub reset_host: bool,
    /// Whether a reset of the bus is to be started
    pub bus_reset: bool,
    /// Whether the start of frames is to be enabled
    pub enable_sof: bool,
}

/// The state after a turn in the state `state` with the interrupt `irq` at
/// the time `now`; `settled` is the time at which a bus that is reset now
/// will have settled.
///
/// In `Init` the controller is reset and nothing is attached. A detached
/// device leads back to `Init` from everywhere else. An attached device
/// starts the reset of the bus, the end of the reset starts the time to
/// settle, and the first frame after that time makes the bus ready.
pub open spec fn state_after(state: HostState, irq: Option<HostIrq>, now: u64, settled: u64) -> HostState {
    match (state, irq) {
        (HostState::Init, _) => HostState::Disconnected,
        (_, Some(HostIrq::Detached)) => HostState::Init,
        (HostState::Disconnected, Some(HostIrq::Attached)) => HostState::BusReset,
        (HostState::BusReset, Some(HostIrq::Reset)) => HostState::BusSettleUntil(settled),
        (HostState::BusSettleUntil(until), Some(HostIrq::HostStartOfFrame)) => if now >= until {
            HostState::Connected
        } else {
            state
        },
        _ => state,
    }
}

/// What the stack is told after a turn that led from `state` to `next`: of a
/// reset when the controller leaves `Init`, and that a device is ready when
/// the bus has settled.
pub open spec fn event_after(state: HostState, next: HostState) -> Option<HostEvent> {
    if state == HostState::Init {
        Some(HostEvent::Reset)
    } else if next == HostState::Connected && state != HostState::Connected {
        Some(HostEvent::Ready)
    } else {
        None
    }
}

/// One turn of the host controller in the state `state`: `irq` is the
/// interrupt to serve, `now` the time, and `settled` the time
/// `BUS_SETTLE_DELAY` from now.
pub fn host_update(state: HostState, irq: Option<HostIrq>, now: u64, settled: u64) -> (u: HostUpdate)
    ensures
        u.state == state_after(state, irq, now, settled),
        u.event == event_after(state, u.state),
        u.reset_host == (state == HostState::Init),
        u.bus_reset == (state == HostState::Disconnected && u.state == HostState::BusReset),
        u.enable_sof == (state == HostState::BusReset && u.state is BusSettleUntil),
        u.event == Some(HostEvent::Ready) ==> state is BusSettleUntil && u.state
            == HostState::Connected,
{
    let quiet = HostUpdate {
        state,
        event: None,
        reset_host: false,
        bus_reset: false,
        enable_sof: false,
    };
    match state {
        HostState::Init => HostUpdate {
            state: HostState::Disconnected,
            event: Some(HostEvent::Reset),
            reset_host: true,
            bus_reset: false,
            enable_sof: false,
        },
        _ => match irq {
            Some(HostIrq::Detached) => HostUpdate { state: HostState::Init, ..quiet },
            Some(HostIrq::Attached) => match state {
                HostState::Disconnected => HostUpdate {
                    state: HostState::BusReset,
                    bus_reset: true,
                    ..quiet
                },
                _ => quiet,
            },
            Some(HostIrq::Reset) => match state {
                // USB spec requires 20ms delay after bus reset.
                HostState::BusReset => HostUpdate {
                    state: HostState::BusSettleUntil(settled),
                    enable_sof: true,
                    ..quiet
                },
                _ => quiet,
            },
            Some(HostIrq::HostStartOfFrame) => match state {
                HostState::BusSettleUntil(until) => if now >= until {
                    HostUpdate {
                        state: HostState::Connected,
                        event: Some(HostEvent::Ready),
                        ..quiet
                    }
                } else {
                    quiet
                },
                _ => quiet,
            },
            _ => quiet,
        },
    }
}

/// The largest packet on a bus of the speed that the status register shows:
/// 64 bytes at full speed, which is 0, and 8 bytes else.
pub fn packet_size_for_speed(speed: u8) -> (size: u16)
    ensures
        size == if speed == 0 {
            64u16
        } else {
            8u16
        },
{
    match speed {
        0x0 => 64,
        _ => 8,
    }
}

} // verus!
