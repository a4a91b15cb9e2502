//! The kernels that the compiled program provides, and their source.

use vstd::prelude::*;

pub mod add;

verus! {

/// Kernel-language source that every accelerator context compiles. Each
/// kernel function takes its arguments under the names and in the order in
/// which the library binds them.
pub const KERNELS_SRC: &'static str = "\
__kernel void kernel_add(
    __global const int* input_1,
    __global const int* input_2,
    __global int* output
) {
    size_t index = get_global_id(0);
    output[index] = input_1[index] + input_2[index];
}
";

} // verus!
