//! Architecture back-ends. `cm0` is the ARMv6-M (Cortex-M0 class) back-end,
//! modelled over the explicit processor and stack state of [`crate::cpu`]
//! and [`crate::stack`].

pub mod cm0;
