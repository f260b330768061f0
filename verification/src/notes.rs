//! Headings of the course notes that go with this library. Each function
//! stands for one section; the two that do anything show a point of syntax.

use vstd::prelude::*;

verus! {

/// Identifiers: a name is bound to a text.
pub fn ident_show() {
    let thinking = "thinking";
}

/// Paths with type arguments: a vector of the numbers below ten, and an
/// empty vector of bytes with room for 1024.
pub fn path_show() {
    let mut numbers: Vec<i32> = Vec::new();
    let mut i: i32 = 0;
    while i < 10
        invariant
            0 <= i <= 10,
            numbers@.len() == i,
        decreases 10 - i,
    {
        numbers.push(i);
        i = i + 1;
    }
    let room: Vec<u8> = Vec::with_capacity(1024);
}

/// Lock-free programming: reordering of memory accesses.
pub fn memory_reordering() {
}

/// Metaprogramming: reflection with `Any`.
pub fn any_refection() {
}

/// Metaprogramming: declarative macros.
pub fn declarative_macros() {
}

/// Metaprogramming: derive macros.
pub fn derive_proc_macros() {
}

/// Metaprogramming: attribute macros.
pub fn attributes_proc_macros() {
}

/// Unsafe code: an introduction.
pub fn unsafe_intro() {
}

/// Unsafe code: safe abstractions over it.
pub fn security_abstract() {
}

/// Unsafe code: pointers that are never null.
pub fn nonnull() {
}

/// Asynchronous I/O: synchronous and asynchronous, blocking and
/// nonblocking.
pub fn basic_concept() {
}

/// Asynchronous I/O: readiness notification.
pub fn epoll() {
}

/// Asynchronous I/O: completion queues.
pub fn io_uring() {
}

/// Asynchronous I/O: event-driven programming.
pub fn event_driven() {
}

/// Asynchronous I/O: a server on readiness notification.
pub fn epoll_server() {
}

/// Asynchronous programming: an introduction.
pub fn a_async_intro() {
}

/// Asynchronous programming: futures.
pub fn b_futures_simple_intro() {
}

/// Asynchronous programming: an echo server with async and await.
pub fn c_async_await_echo() {
}

/// Asynchronous programming: the futures library.
pub fn d_futures_rs() {
}

/// Asynchronous programming: generators.
pub fn e_generator() {
}

/// Asynchronous programming: pinning.
pub fn f_pin_unpin() {
}

/// Asynchronous programming: without the standard library.
pub fn no_std_async() {
}

/// Asynchronous programming: a cache.
pub fn async_cache_demo() {
}

/// Runtimes: a small one.
pub fn a_smol_runtime() {
}

/// Runtimes: one that mirrors the standard library.
pub fn b_async_std_runtime() {
}

/// Runtimes: a multi-threaded one.
pub fn c_tokio_runtime() {
}

/// Runtimes: others.
pub fn d_others_runtime() {
}

} // verus!
