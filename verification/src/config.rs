//! Instance identity and the desired dedicated-networking configuration.

use vstd::prelude::*;

verus! {

/// Which exposure service a descriptor or step is about.
#[derive(Clone, Copy, Debug, PartialEq, Eq, Structural)]
pub enum Role {
    Primary,
    Standby,
}

/// The enable state derived from the optional configuration block: absent
/// and present-but-disabled both tear the objects down.
#[derive(Clone, Copy, Debug, PartialEq, Eq, Structural)]
pub enum NetworkingMode {
    Enabled,
    Disabled,
    Unconfigured,
}

/// The instance a reconciliation is for: its object name, its namespace and
/// the uid its produced objects carry as owner back-reference.
pub struct InstanceIdentity {
    pub name: String,
    pub namespace: String,
    pub uid: String,
}

pub struct InstanceIdentityView {
    pub name: Seq<char>,
    pub namespace: Seq<char>,
    pub uid: Seq<char>,
}

impl View for InstanceIdentity {
    type V = InstanceIdentityView;

    open spec fn view(&self) -> InstanceIdentityView {
        InstanceIdentityView { name: self.name@, namespace: self.namespace@, uid: self.uid@ }
    }
}

/// The dedicated-networking block of the instance's desired spec.
pub struct DedicatedNetworkingConfig {
    pub enabled: bool,
    pub public: bool,
    pub include_standby: bool,
    pub service_type: String,
}

#[verifier::ext_equal]
pub struct DedicatedNetworkingConfigView {
    pub enabled: bool,
    pub public: bool,
    pub include_standby: bool,
    pub service_type: Seq<char>,
}

impl View for DedicatedNetworkingConfig {
    type V = DedicatedNetworkingConfigView;

    open spec fn view(&self) -> DedicatedNetworkingConfigView {
        DedicatedNetworkingConfigView {
            enabled: self.enabled,
            public: self.public,
            include_standby: self.include_standby,
            service_type: self.service_type@,
        }
    }
}

/// The view of an optional configuration block.
pub open spec fn config_view(cfg: &Option<DedicatedNetworkingConfig>) -> Option<
    DedicatedNetworkingConfigView,
> {
    match cfg {
        Some(c) => Some(c@),
        None => None,
    }
}

/// The enable state of an optional configuration block.
pub open spec fn mode_of(cfg: Option<DedicatedNetworkingConfigView>) -> NetworkingMode {
    match cfg {
        Some(c) => if c.enabled {
            NetworkingMode::Enabled
        } else {
            NetworkingMode::Disabled
        },
        None => NetworkingMode::Unconfigured,
    }
}

/// Whether dedicated networking objects should exist at all.
pub open spec fn networking_on(cfg: Option<DedicatedNetworkingConfigView>) -> bool {
    mode_of(cfg) == NetworkingMode::Enabled
}

/// The enable state of the configuration, made explicit.
pub fn networking_mode(cfg: &Option<DedicatedNetworkingConfig>) -> (r: NetworkingMode)
    ensures
        r == mode_of(config_view(cfg)),
{
    match cfg {
        Some(c) => if c.enabled {
            NetworkingMode::Enabled
        } else {
            NetworkingMode::Disabled
        },
        None => NetworkingMode::Unconfigured,
    }
}

} // verus!
