//! Device roles, bound devices and the events a device monitor emits.

use vstd::prelude::*;
use vstd::string::*;

verus! {

/// The logical source of audio that a device serves.
#[derive(Clone, Copy, Debug, PartialEq, Eq, Structural)]
pub enum DeviceMonitorType {
    Microphone,
    SystemAudio,
}

/// The name under which a role is reported to callers.
pub open spec fn role_text(role: DeviceMonitorType) -> Seq<char> {
    match role {
        DeviceMonitorType::Microphone => "Microphone"@,
        DeviceMonitorType::SystemAudio => "SystemAudio"@,
    }
}

/// The two role names differ, so a name stands for at most one role.
pub proof fn lemma_role_text_injective(a: DeviceMonitorType, b: DeviceMonitorType)
    ensures
        role_text(a) == role_text(b) <==> a == b,
{
    reveal_strlit("Microphone");
    reveal_strlit("SystemAudio");
    assert("Microphone"@.len() != "SystemAudio"@.len());
}

impl DeviceMonitorType {
    /// The other role.
    pub open spec fn spec_other(self) -> DeviceMonitorType {
        match self {
            DeviceMonitorType::Microphone => DeviceMonitorType::SystemAudio,
            DeviceMonitorType::SystemAudio => DeviceMonitorType::Microphone,
        }
    }

    #[verifier::when_used_as_spec(spec_other)]
    pub fn other(self) -> (r: DeviceMonitorType)
        ensures
            r == self.spec_other(),
    {
        match self {
            DeviceMonitorType::Microphone => DeviceMonitorType::SystemAudio,
            DeviceMonitorType::SystemAudio => DeviceMonitorType::Microphone,
        }
    }

    /// The role's name as text.
    pub fn name(self) -> (r: String)
        ensures
            r@ == role_text(self),
    {
        match self {
            DeviceMonitorType::Microphone => String::from_str("Microphone"),
            DeviceMonitorType::SystemAudio => String::from_str("SystemAudio"),
        }
    }

    /// Reads a role from its name; any other text names no role.
    pub fn parse(text: &str) -> (r: Option<DeviceMonitorType>)
        ensures
            match r {
                Some(role) => text@ == role_text(role),
                None => text@ != role_text(DeviceMonitorType::Microphone) && text@ != role_text(
                    DeviceMonitorType::SystemAudio,
                ),
            },
    {
        let given = String::from_str(text);
        if given == String::from_str("Microphone") {
            Some(DeviceMonitorType::Microphone)
        } else if given == String::from_str("SystemAudio") {
            Some(DeviceMonitorType::SystemAudio)
        } else {
            None
        }
    }
}

/// A device that can be bound to a role: its display name and the handle the
/// operating system knows it by.
pub struct AudioDevice {
    pub name: String,
    pub handle: u64,
}

impl AudioDevice {
    /// A copy of this device reference.
    pub fn duplicate(&self) -> (r: AudioDevice)
        ensures
            r == *self,
    {
        AudioDevice { name: self.name.clone(), handle: self.handle }
    }
}

/// Where a role's device stands between presence and absence.
#[derive(Clone, Copy, Debug, PartialEq, Eq, Structural)]
pub enum LinkState {
    /// The bound device is present.
    Connected,
    /// The bound device was found absent; the event still waits in the queue.
    Disconnected,
    /// The absence has been taken note of and a reconnect is awaited.
    Reconnecting,
}

/// A role's bound device and its connectivity.
pub struct DeviceLink {
    pub device: AudioDevice,
    pub state: LinkState,
}

/// What a device monitor reports.
pub enum DeviceEvent {
    DeviceDisconnected { device_name: String, device_type: DeviceMonitorType },
    DeviceReconnected { device_name: String, device_type: DeviceMonitorType },
    DeviceListChanged,
}

/// A device event in the form handed to the shell, with the role as text.
pub enum DeviceEventResponse {
    DeviceDisconnected { device_name: String, device_type: String },
    DeviceReconnected { device_name: String, device_type: String },
    DeviceListChanged,
}

impl DeviceEventResponse {
    /// Whether this response renders the given event: the same variant and
    /// device name, with the role as its name.
    pub open spec fn renders(&self, event: DeviceEvent) -> bool {
        match event {
            DeviceEvent::DeviceDisconnected { device_name, device_type } => {
                &&& *self matches DeviceEventResponse::DeviceDisconnected {
                    device_name: n,
                    device_type: t,
                }
                &&& n == device_name
                &&& t@ == role_text(device_type)
            },
            DeviceEvent::DeviceReconnected { device_name, device_type } => {
                &&& *self matches DeviceEventResponse::DeviceReconnected {
                    device_name: n,
                    device_type: t,
                }
                &&& n == device_name
                &&& t@ == role_text(device_type)
            },
            DeviceEvent::DeviceListChanged => *self is DeviceListChanged,
        }
    }

    /// Converts a monitor event into its response form.
    pub fn from_event(event: DeviceEvent) -> (r: DeviceEventResponse)
        ensures
            r.renders(event),
    {
        match event {
            DeviceEvent::DeviceDisconnected { device_name, device_type } => {
                DeviceEventResponse::DeviceDisconnected {
                    device_name,
                    device_type: device_type.name(),
                }
            },
            DeviceEvent::DeviceReconnected { device_name, device_type } => {
                DeviceEventResponse::DeviceReconnected {
                    device_name,
                    device_type: device_type.name(),
                }
            },
            DeviceEvent::DeviceListChanged => DeviceEventResponse::DeviceListChanged,
        }
    }
}

impl From<DeviceEvent> for DeviceEventResponse {
    fn from(event: DeviceEvent) -> (r: DeviceEventResponse)
        ensures
            r.renders(event),
    {
        DeviceEventResponse::from_event(event)
    }
}

impl vstd::std_specs::convert::FromSpecImpl<DeviceEvent> for DeviceEventResponse {
    /// The conversion is specified by `renders`, not as a function: two
    /// texts with the same characters need not be the same value.
    open spec fn obeys_from_spec() -> bool {
        false
    }

    open spec fn from_spec(event: DeviceEvent) -> DeviceEventResponse {
        choose|r: DeviceEventResponse| r.renders(event)
    }
}

/// A device that is currently absent, as reported to the shell.
pub struct DisconnectedDeviceInfo {
    pub name: String,
    pub device_type: String,
}

/// Whether a reconnection is being attempted, and for which device.
pub struct ReconnectionStatus {
    pub is_reconnecting: bool,
    pub disconnected_device: Option<DisconnectedDeviceInfo>,
}

} // verus!
