//! Autostart control: registers or deregisters the application as an
//! OS-level start-at-login entry, behind one contract that abstracts over the
//! platform mechanism actually doing the work.

use vstd::prelude::*;

verus! {

/// The platform mechanism that carries the login registration. One is chosen
/// by the host process at startup configuration time; the contract of every
/// operation is the same whichever it is.
#[derive(Clone, Copy, Debug, PartialEq, Eq, Structural)]
pub enum AutostartMechanism {
    /// A per-user login item or launch agent.
    LoginItem,
    /// A startup key in a system registry.
    RegistryKey,
    /// A service-manager unit enabled for the user session.
    ServiceUnit,
}

/// The process-wide OS registration that causes the application to launch at
/// user login. `enabled` is the OS-observed state; `permitted` says whether
/// the platform lets this process change that state at all.
#[derive(Clone, Copy, Debug, PartialEq, Eq, Structural)]
pub struct AutostartRegistration {
    pub mechanism: AutostartMechanism,
    pub permitted: bool,
    pub enabled: bool,
}

/// What one `set_autostart` command does to the registration, and whether it
/// succeeds: on a permitted platform the registration ends in exactly the
/// requested state and the call succeeds; without permission nothing changes
/// and the call fails. Mechanism and permission are never altered.
pub open spec fn spec_set_autostart(
    reg: AutostartRegistration,
    enabled: bool,
) -> (AutostartRegistration, bool) {
    if reg.permitted {
        (
            (AutostartRegistration {
                mechanism: reg.mechanism,
                permitted: reg.permitted,
                enabled,
            }),
            true,
        )
    } else {
        (reg, false)
    }
}

/// The failure description returned when the platform denies changing the
/// login registration.
pub open spec fn permission_denied_msg() -> Seq<char> {
    "platform denied changing the login registration"@
}

fn permission_denied_error() -> (m: String)
    ensures
        m@ == permission_denied_msg(),
        m@.len() > 0,
{
    proof {
        reveal_strlit("platform denied changing the login registration");
    }
    "platform denied changing the login registration".to_owned()
}

impl AutostartRegistration {
    /// Register the application to launch at user login. Idempotent:
    /// enabling an already-enabled registration succeeds too. Succeeds
    /// exactly when the platform permits the change; a denial leaves the
    /// registration untouched and carries a non-empty description.
    pub fn enable(&mut self) -> (r: Result<(), String>)
        ensures
            r is Ok <==> old(self).permitted,
            *final(self) == spec_set_autostart(*old(self), true).0,
            r matches Err(m) ==> m@ == permission_denied_msg() && m@.len() > 0
                && *final(self) == *old(self),
    {
        if self.permitted {
            self.enabled = true;
            Ok(())
        } else {
            Err(permission_denied_error())
        }
    }

    /// Remove the application's start-at-login registration. Idempotent:
    /// disabling an already-disabled registration succeeds too. Succeeds
    /// exactly when the platform permits the change; a denial leaves the
    /// registration untouched and carries a non-empty description.
    pub fn disable(&mut self) -> (r: Result<(), String>)
        ensures
            r is Ok <==> old(self).permitted,
            *final(self) == spec_set_autostart(*old(self), false).0,
            r matches Err(m) ==> m@ == permission_denied_msg() && m@.len() > 0
                && *final(self) == *old(self),
    {
        if self.permitted {
            self.enabled = false;
            Ok(())
        } else {
            Err(permission_denied_error())
        }
    }
}

/// Law: on a permitted platform, issuing the autostart command twice with
/// the same request succeeds both times and leaves the registration in
/// exactly the requested state; the second command changes nothing, so
/// enabling an enabled registration and disabling a disabled one are both
/// harmless (idempotence in either direction).
pub proof fn lemma_set_autostart_idempotent(reg: AutostartRegistration, b: bool)
    requires
        reg.permitted,
    ensures
        spec_set_autostart(reg, b).1,
        spec_set_autostart(spec_set_autostart(reg, b).0, b).1,
        spec_set_autostart(spec_set_autostart(reg, b).0, b).0.enabled == b,
        spec_set_autostart(spec_set_autostart(reg, b).0, b).0 == spec_set_autostart(reg, b).0,
{
}

/// The autostart capability as the host process wires it up: `None` until
/// the integration is initialized at startup, `Some` of the registration
/// afterwards. Commands may only be dispatched once it is initialized.
pub struct AutostartIntegration {
    manager: Option<AutostartRegistration>,
}

impl AutostartIntegration {
    /// Whether the host process has initialized the autostart integration.
    pub closed spec fn initialized(self) -> bool {
        self.manager is Some
    }

    /// The process-wide registration behind an initialized integration.
    pub closed spec fn registration(self) -> AutostartRegistration {
        self.manager->0
    }

    /// The host process initializes the integration at startup, choosing the
    /// platform mechanism and finding whatever registration state and
    /// permission the OS already has.
    pub fn init(mechanism: AutostartMechanism, permitted: bool, enabled: bool) -> (it: Self)
        ensures
            it.initialized(),
            it.registration() == (AutostartRegistration { mechanism, permitted, enabled }),
    {
        AutostartIntegration {
            manager: Some(AutostartRegistration { mechanism, permitted, enabled }),
        }
    }

    /// The OS-observed registration state: whether the application currently
    /// launches at user login.
    pub fn is_enabled(&self) -> (b: bool)
        requires
            self.initialized(),
        ensures
            b == self.registration().enabled,
    {
        match &self.manager {
            Some(reg) => reg.enabled,
            None => false,
        }
    }

    /// Whether the platform permits this process to change the registration.
    pub fn is_permitted(&self) -> (b: bool)
        requires
            self.initialized(),
        ensures
            b == self.registration().permitted,
    {
        match &self.manager {
            Some(reg) => reg.permitted,
            None => false,
        }
    }

    /// The platform mechanism the integration was initialized with.
    pub fn mechanism(&self) -> (m: AutostartMechanism)
        requires
            self.initialized(),
        ensures
            m == self.registration().mechanism,
    {
        match &self.manager {
            Some(reg) => reg.mechanism,
            None => AutostartMechanism::LoginItem,
        }
    }
}

/// Inbound command: register (`enabled = true`) or deregister (`false`) the
/// application as a start-at-login entry.
///
/// The wiring must have initialized the integration first; calling before
/// that is a programming error this handler does not tolerate. On a
/// permitted platform the call succeeds, in either direction and however
/// often it is repeated, and leaves the OS registration in exactly the
/// requested state. A platform denial fails with a non-empty description and
/// leaves the registration unchanged; no retry is attempted here.
pub fn set_autostart(integration: &mut AutostartIntegration, enabled: bool) -> (r: Result<
    (),
    String,
>)
    requires
        old(integration).initialized(),
    ensures
        final(integration).initialized(),
        r is Ok <==> old(integration).registration().permitted,
        final(integration).registration() == spec_set_autostart(
            old(integration).registration(),
            enabled,
        ).0,
        r matches Err(m) ==> m@ == permission_denied_msg() && m@.len() > 0
            && final(integration).registration() == old(integration).registration(),
{
    match &mut integration.manager {
        Some(reg) => {
            if enabled {
                reg.enable()
            } else {
                reg.disable()
            }
        },
        None => {
            // Unreachable: the precondition says the wiring initialized the
            // integration before any command could reach this handler.
            proof {
                assert(false);
            }
            Err(String::new())
        },
    }
}

} // verus!
