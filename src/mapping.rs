use vstd::prelude::*;

verus! {

/// ASCII code of the digit `0`.
pub const DIGIT_ZERO: u8 = 48;

/// ASCII code of a space.
pub const SPACE: u8 = 32;

/// The decimal digits of `n` in ASCII, most significant first, without leading zeros.
pub open spec fn decimal(n: nat) -> Seq<u8>
    decreases n,
{
    if n < 10 {
        seq![(DIGIT_ZERO + n) as u8]
    } else {
        decimal(n / 10).push((DIGIT_ZERO + n % 10) as u8)
    }
}

/// The single line of an ID-mapping file that maps id 0 inside the namespace to
/// `host_id` outside it, for a range of one id: `0 <host_id> 1`.
pub open spec fn id_map_line(host_id: nat) -> Seq<u8> {
    seq![DIGIT_ZERO, SPACE] + decimal(host_id) + seq![SPACE, (DIGIT_ZERO + 1) as u8]
}

/// The token that, written to the group-control file, denies `setgroups`: `deny`.
pub open spec fn deny_token() -> Seq<u8> {
    seq![100u8, 101u8, 110u8, 121u8]
}

/// Appends the decimal digits of `n` to `out`.
pub fn push_decimal(out: &mut Vec<u8>, n: u32)
    ensures
        final(out)@ == old(out)@ + decimal(n as nat),
    decreases n,
{
    if n < 10 {
        out.push(DIGIT_ZERO + n as u8);
        assert(final(out)@ =~= old(out)@ + decimal(n as nat));
    } else {
        push_decimal(out, n / 10);
        out.push(DIGIT_ZERO + (n % 10) as u8);
        assert(final(out)@ =~= old(out)@ + decimal(n as nat));
    }
}

/// The mapping line `0 <host_id> 1` as bytes.
pub fn id_map_bytes(host_id: u32) -> (r: Vec<u8>)
    ensures
        r@ == id_map_line(host_id as nat),
{
    let mut out: Vec<u8> = Vec::new();
    out.push(DIGIT_ZERO);
    out.push(SPACE);
    push_decimal(&mut out, host_id);
    out.push(SPACE);
    out.push(DIGIT_ZERO + 1);
    assert(out@ =~= id_map_line(host_id as nat));
    out
}

/// The bytes `deny`.
pub fn deny_bytes() -> (r: Vec<u8>)
    ensures
        r@ == deny_token(),
{
    let r: Vec<u8> = vec![100u8, 101u8, 110u8, 121u8];
    assert(r@ =~= deny_token());
    r
}

} // verus!
