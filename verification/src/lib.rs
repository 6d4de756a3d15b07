//! The monitor that runs trustlets one privilege level below itself.
//!
//! The crate holds what the monitor decides: which protection keys and memory ranges a process
//! owns, how a request that a trustlet makes through `cpuid` is served, what an attestation
//! report is made of, how the register file and the descriptor tables of a trustlet are set up,
//! and which processes exist.  The hardware and the page tables stay outside.  What has to be
//! done to them is handed out as [`effects::Effect`] values, in the order in which it has to be
//! done; what has to be read from them is asked for by the result of a step and given back to
//! the function that continues the work.
pub mod attestation;
pub mod bytes;
pub mod call_handler;
pub mod domain_laws;
pub mod effects;
pub mod exception_handling;
pub mod fault_laws;
pub mod guest_memory;
pub mod input;
pub mod invocation;
pub mod invocation_laws;
pub mod layout;
pub mod measurements;
pub mod memory_laws;
pub mod mmap;
pub mod monitor;
pub mod monitor_laws;
pub mod mpk_laws;
pub mod mpk_memory;
pub mod page;
pub mod pal_call;
pub mod pal_laws;
pub mod pal_state;
pub mod pkru;
pub mod process;
pub mod process_cow;
pub mod process_laws;
pub mod protocol;
pub mod report_laws;
pub mod request_laws;
pub mod runtime;
pub mod smp;
pub mod stats;
pub mod vmsa;
