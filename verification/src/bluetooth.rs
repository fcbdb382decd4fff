//! Bluetooth state: A2DP streaming towards headphones and the BLE control link.
//!
//! The manager is generic over the filter-parameter type that the BLE control
//! link hands over, so that this module never looks inside it.

use vstd::prelude::*;

verus! {

/// A2DP connection state.
#[derive(Debug, Clone, Copy, PartialEq, Eq, Structural)]
pub enum A2dpState {
    Disconnected,
    Connecting,
    Connected,
    Streaming,
}

impl Default for A2dpState {
    fn default() -> (s: Self)
        ensures
            s == A2dpState::Disconnected,
    {
        A2dpState::Disconnected
    }
}

/// BLE connection state.
#[derive(Debug, Clone, Copy, PartialEq, Eq, Structural)]
pub enum BleState {
    Idle,
    Advertising,
    Connected,
}

impl Default for BleState {
    fn default() -> (s: Self)
        ensures
            s == BleState::Idle,
    {
        BleState::Idle
    }
}

/// Bluetooth status.
#[derive(Debug)]
pub struct BluetoothStatus {
    pub a2dp_state: A2dpState,
    pub ble_state: BleState,
    pub headphone_connected: bool,
    pub streaming: bool,
    pub volume: u8,
}

impl BluetoothStatus {
    /// The status of a link that has never been brought up.
    pub open spec fn is_initial(&self) -> bool {
        &&& self.a2dp_state == A2dpState::Disconnected
        &&& self.ble_state == BleState::Idle
        &&& !self.headphone_connected
        &&& !self.streaming
        &&& self.volume == 0
    }
}

impl Default for BluetoothStatus {
    fn default() -> (s: Self)
        ensures
            s.is_initial(),
            !s.headphone_connected,
            !s.streaming,
            s.volume == 0,
            s.a2dp_state == A2dpState::Disconnected,
            s.ble_state == BleState::Idle,
    {
        BluetoothStatus {
            a2dp_state: A2dpState::Disconnected,
            ble_state: BleState::Idle,
            headphone_connected: false,
            streaming: false,
            volume: 0,
        }
    }
}

/// Bluetooth manager for A2DP and BLE.
///
/// `P` is the type of the filter parameters that the phone app sends.
pub struct BluetoothManager<P> {
    status: BluetoothStatus,
    pending_params: Option<P>,
}

impl<P> BluetoothManager<P> {
    /// The current status.
    pub closed spec fn spec_status(&self) -> &BluetoothStatus {
        &self.status
    }

    /// Filter parameters received and not yet taken.
    pub closed spec fn pending(&self) -> Option<P> {
        self.pending_params
    }

    /// A manager with the initial status and nothing pending.
    pub fn new() -> (m: Self)
        ensures
            m.spec_status().is_initial(),
            !m.spec_status().headphone_connected,
            !m.spec_status().streaming,
            m.spec_status().volume == 0,
            m.spec_status().a2dp_state == A2dpState::Disconnected,
            m.spec_status().ble_state == BleState::Idle,
            m.pending() is None,
    {
        BluetoothManager { status: BluetoothStatus::default(), pending_params: None }
    }

    /// Brings the radio up; this always succeeds and changes no state.
    pub fn init(&mut self) -> (r: Result<(), &'static str>)
        ensures
            r is Ok,
            *final(self) == *old(self),
    {
        Ok(())
    }

    /// Whether audio is streaming to the headphones.
    pub fn is_streaming(&self) -> (b: bool)
        ensures
            b == self.spec_status().streaming,
    {
        self.status.streaming
    }

    /// Sends audio to the headphones; this always succeeds and changes no state.
    pub fn send_audio(&mut self, samples: &[i16]) -> (r: Result<(), &'static str>)
        ensures
            r is Ok,
            *final(self) == *old(self),
    {
        Ok(())
    }

    /// Takes the pending filter parameters, leaving none behind.
    pub fn take_pending_params(&mut self) -> (r: Option<P>)
        ensures
            r == old(self).pending(),
            final(self).pending() is None,
            final(self).spec_status() == old(self).spec_status(),
    {
        self.pending_params.take()
    }

    /// The current status.
    pub fn get_status(&self) -> (s: &BluetoothStatus)
        ensures
            s == self.spec_status(),
    {
        &self.status
    }
}

impl<P> Default for BluetoothManager<P> {
    fn default() -> (m: Self)
        ensures
            m.spec_status().is_initial(),
            !m.spec_status().headphone_connected,
            !m.spec_status().streaming,
            m.spec_status().volume == 0,
            m.spec_status().a2dp_state == A2dpState::Disconnected,
            m.spec_status().ble_state == BleState::Idle,
            m.pending() is None,
    {
        Self::new()
    }
}

} // verus!
