//! Shell integration layer: the logic that bridges a user-interface shell to
//! two OS capabilities, keeping a window above others in z-order and
//! registering the application to start at user login.
//!
//! The OS-facing state that each capability mutates is modelled explicitly:
//! [`window::WindowManager`] holds the liveness and always-on-top flag of
//! every window the shell has opened, and [`autostart::AutostartIntegration`]
//! holds the process-wide login registration. The command handlers
//! [`window::set_always_on_top`] and [`autostart::set_autostart`] are the
//! inbound command surface; their contracts pin down exactly which calls
//! succeed, which fail, and what the OS-observable state is afterwards.

pub mod autostart;
pub mod window;
