//! `AF_XDP` (XSK) sockets: everything but the system calls, verified.
//!
//! `AF_XDP` is a high-performance address family that lets userspace receive and transmit raw
//! frames directly through a shared memory region (a [`XskUmem`]), bypassing the kernel network
//! stack. Four rings pass frames between the application and the kernel.
//!
//! This crate decides and computes; it makes no system call and touches no shared memory. Its
//! user does both, and hands plain values in and out:
//!
//! 1. Wrap page-aligned memory in a [`XskUmem`], which checks its address and length.
//! 2. Start with [`XskSocket::new`], make the system calls that the [`XskSetup`] asks for, and
//!    turn it into a socket with [`XskSocket::from_setup`].
//! 3. Before an operation, record what the kernel did to the ring; after it, copy what the
//!    operation wrote to the shared memory and publish the index that it advanced.
//! 4. For RX, submit frames with [`XskSocket::fill`] and read packets with
//!    [`XskSocket::rx_peek`] / [`XskSocket::rx_release`]. For TX, write a frame with
//!    [`XskSocket::tx_frame_mut`], enqueue it with [`XskSocket::transmit`], wake the kernel as
//!    [`XskSocket::kick`] says, and reclaim sent frames with [`XskSocket::complete`].
//!
//! The laws that tie the operations together are proof functions: [`ring_laws`] has those of a
//! ring as a bounded queue, [`socket_laws`] those of the socket, and [`umem`], [`setup`] and
//! [`sys`] have their own.

pub mod abi;
pub mod arith;
pub mod error;
pub mod ring;
pub mod ring_laws;
pub mod setup;
pub mod socket;
pub mod socket_laws;
pub mod sys;
pub mod umem;

pub use crate::error::XskError;
pub use crate::ring::XskRing;
pub use crate::setup::{XskSetup, XskSocketConfig};
pub use crate::socket::XskSocket;
pub use crate::umem::{XskUmem, XskUmemConfig};
