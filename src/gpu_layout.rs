use vstd::prelude::*;

verus! {

/// Invocations per workgroup of the all-pairs kernel.
pub const WORKGROUP_SIZE: u32 = 64;

/// Workgroups that cover `n` bodies: `⌈n / 64⌉`.
pub fn workgroup_count(n: u32) -> (r: u32)
    ensures
        r as int == (n as int + WORKGROUP_SIZE - 1) / WORKGROUP_SIZE as int,
{
    let whole = n / WORKGROUP_SIZE;
    if n % WORKGROUP_SIZE == 0 {
        whole
    } else {
        whole + 1
    }
}

/// The four little-endian bytes of `w`.
pub open spec fn le_bytes(w: u32) -> Seq<u8> {
    seq![
        (w % 256) as u8,
        ((w / 256) % 256) as u8,
        ((w / 65536) % 256) as u8,
        ((w / 16777216) % 256) as u8,
    ]
}

fn push_le(out: &mut Vec<u8>, w: u32)
    ensures
        final(out)@ == old(out)@ + le_bytes(w),
{
    out.push((w % 256) as u8);
    out.push(((w / 256) % 256) as u8);
    out.push(((w / 65536) % 256) as u8);
    out.push(((w / 16777216) % 256) as u8);
    assert(final(out)@ =~= old(out)@ + le_bytes(w));
}

/// The kernel's uniform block: body count, the gravitational constant and the
/// squared softening (each as the bits of a single-precision float), and a
/// zero word of padding, each word little-endian.
pub fn uniform_block(count: u32, g_bits: u32, softening_sq_bits: u32) -> (r: Vec<u8>)
    ensures
        r@ == le_bytes(count) + le_bytes(g_bits) + le_bytes(softening_sq_bits) + le_bytes(0),
        r@.len() == 16,
{
    let mut out: Vec<u8> = Vec::with_capacity(16);
    push_le(&mut out, count);
    push_le(&mut out, g_bits);
    push_le(&mut out, softening_sq_bits);
    push_le(&mut out, 0);
    out
}

} // verus!
