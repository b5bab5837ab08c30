//! Rewrites the CPUID leaves of a host into the leaves a guest vCPU is shown.

pub mod bit_helper;
pub mod brand_string;
pub mod common;
pub mod cpu_leaf;
pub mod kvm;
pub mod transformer;
