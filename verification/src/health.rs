//! Health snapshot types: runtime status, per-component health and the
//! aggregate report.

use vstd::prelude::*;

verus! {

/// Lifecycle status of the runtime manager.
#[derive(Debug, Clone, Copy, PartialEq, Eq, Structural)]
pub enum RuntimeStatus {
    Starting,
    Running,
    Degraded,
    Stopping,
    Stopped,
}

impl RuntimeStatus {
    /// A status counts as healthy only while the runtime is fully running.
    pub open spec fn spec_is_healthy(&self) -> bool {
        *self == RuntimeStatus::Running
    }

    pub fn is_healthy(&self) -> (r: bool)
        ensures
            r == self.spec_is_healthy(),
    {
        match self {
            RuntimeStatus::Running => true,
            _ => false,
        }
    }
}

/// Health of a single named component within the runtime.
#[derive(Debug, Clone)]
pub struct ComponentHealth {
    pub name: String,
    pub healthy: bool,
    pub detail: Option<String>,
}

/// Mathematical model of a [`ComponentHealth`].
pub struct ComponentView {
    pub name: Seq<char>,
    pub healthy: bool,
    pub detail: Option<Seq<char>>,
}

impl View for ComponentHealth {
    type V = ComponentView;

    open spec fn view(&self) -> ComponentView {
        ComponentView { name: self.name@, healthy: self.healthy, detail: self.detail.deep_view() }
    }
}

impl ComponentHealth {
    /// A healthy component with no detail message.
    pub fn healthy(name: &str) -> (c: ComponentHealth)
        ensures
            c@ == (ComponentView { name: name@, healthy: true, detail: None }),
    {
        ComponentHealth { name: String::from_str(name), healthy: true, detail: None }
    }

    /// An unhealthy component carrying a detail message.
    pub fn unhealthy(name: &str, detail: &str) -> (c: ComponentHealth)
        ensures
            c@ == (ComponentView { name: name@, healthy: false, detail: Some(detail@) }),
    {
        ComponentHealth {
            name: String::from_str(name),
            healthy: false,
            detail: Some(String::from_str(detail)),
        }
    }
}

/// Aggregate health snapshot of the runtime manager.
#[derive(Debug, Clone)]
pub struct RuntimeHealth {
    pub status: RuntimeStatus,
    pub components: Vec<ComponentHealth>,
    pub uptime_secs: u64,
}

/// Every component in `cs` reports healthy.
pub open spec fn all_components_healthy(cs: Seq<ComponentHealth>) -> bool {
    forall|i: int| 0 <= i < cs.len() ==> #[trigger] cs[i].healthy
}

impl RuntimeHealth {
    /// The runtime is healthy when its status is healthy and every
    /// component is healthy.
    pub open spec fn spec_is_healthy(&self) -> bool {
        self.status.spec_is_healthy() && all_components_healthy(self.components@)
    }

    pub fn is_healthy(&self) -> (r: bool)
        ensures
            r == self.spec_is_healthy(),
    {
        if !self.status.is_healthy() {
            return false;
        }
        let n = self.components.len();
        let mut i: usize = 0;
        while i < n
            invariant
                n == self.components@.len(),
                i <= n,
                forall|j: int| 0 <= j < i ==> #[trigger] self.components@[j].healthy,
            decreases n - i,
        {
            if !self.components[i].healthy {
                return false;
            }
            i = i + 1;
        }
        true
    }
}

} // verus!
