pub mod client;
pub mod credentials;
pub mod device_info;
pub mod laws;
pub mod vm;

pub use client::{AuthState, AuthorizeStep, GapSession, GatewayCall, PrimaryLogin, Route, ShadowClient, TokenExchange};
pub use credentials::{Credentials, CredsData};
pub use device_info::DeviceInfo;
pub use vm::{VirtualMachineState, VmAddress, VmStateError};
