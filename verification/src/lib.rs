//! Host-side protocol for rendering a pre-bundled JavaScript application to
//! an HTML string inside an embedded ECMAScript virtual machine.
//!
//! The VM itself is an external collaborator; what this crate owns and
//! verifies is the strict compile -> instantiate -> evaluate -> resolve ->
//! invoke protocol that a render call follows, and the classification of
//! every failure mode as a distinct, message-carrying error. The protocol is
//! a state machine over the outcomes the VM reports for each step; the
//! unverified host driver performs the VM work and feeds the outcomes back.

pub mod errors;
pub mod protocol;
pub mod laws;
