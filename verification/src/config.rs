//! Configuration values supplied by the caller at orchestration start:
//! machine geometry, the serial device path, and the websocket endpoint
//! with its protocol provider.

use vstd::prelude::*;
use vstd::string::StringExecFns;

verus! {

/// Which protocol listener a run uses: the outbound client variant or the
/// inbound single-connection server variant.
#[derive(Debug, Clone, Copy, PartialEq, Eq)]
pub enum ServiceProvider {
    EXTOY,
    INTI,
}

impl ServiceProvider {
    /// The provider's name as shown on the operator surface.
    pub fn label(&self) -> (s: &'static str)
        ensures
            s@ == if self is INTI {
                "INTI"@
            } else {
                "EXTOY"@
            },
    {
        match self {
            ServiceProvider::INTI => "INTI",
            ServiceProvider::EXTOY => "EXTOY",
        }
    }

    /// The provider a switch toggle moves to.
    pub fn toggled(&self) -> (p: ServiceProvider)
        ensures
            p == if self is INTI {
                ServiceProvider::EXTOY
            } else {
                ServiceProvider::INTI
            },
    {
        match self {
            ServiceProvider::INTI => ServiceProvider::EXTOY,
            ServiceProvider::EXTOY => ServiceProvider::INTI,
        }
    }
}

/// Connection settings for the protocol listener.
#[derive(Debug, Clone)]
pub struct WebsocketConfig {
    pub provider: ServiceProvider,
    pub ws: String,
}

impl Default for WebsocketConfig {
    fn default() -> (c: WebsocketConfig)
        ensures
            c.provider is INTI,
            c.ws@ == "ws://localhost:54817"@,
    {
        WebsocketConfig {
            provider: ServiceProvider::INTI,
            ws: String::from_str("ws://localhost:54817"),
        }
    }
}

/// Machine geometry and the serial device the actuator writer opens.
/// `throw` is the physical travel in millimetres, `max_movement` the part
/// of it that commands may use.
#[derive(Debug, Clone)]
pub struct MachineConfig {
    pub file: String,
    pub throw: u32,
    pub max_movement: u32,
    pub max_acceleration: u32,
}

impl MachineConfig {
    /// The geometry is usable: the commanded stroke fits inside the
    /// physical travel window.
    pub open spec fn wf(&self) -> bool {
        self.max_movement <= self.throw
    }
}

impl Default for MachineConfig {
    fn default() -> (c: MachineConfig)
        ensures
            c.file@ == "/dev/ttyUSB0"@,
            c.throw == 240,
            c.max_movement == 100,
            c.max_acceleration == 100000,
            c.wf(),
    {
        MachineConfig {
            file: String::from_str("/dev/ttyUSB0"),
            throw: 240,
            max_movement: 100,
            max_acceleration: 100000,
        }
    }
}

/// The whole configuration of one orchestration run.
#[derive(Debug, Clone)]
pub struct Config {
    pub machine_config: MachineConfig,
    pub websocket_config: WebsocketConfig,
}

impl Default for Config {
    fn default() -> (c: Config)
        ensures
            c.machine_config.wf(),
            c.machine_config.throw == 240,
            c.machine_config.max_movement == 100,
            c.websocket_config.provider is INTI,
    {
        Config { machine_config: Default::default(), websocket_config: Default::default() }
    }
}

} // verus!
